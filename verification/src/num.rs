//! Decimal numerals as byte strings: printing `u64` values and parsing
//! unsigned integers the way `str::parse` does (an optional leading `+`,
//! then one or more ASCII digits, rejected on overflow).

use vstd::prelude::*;

verus! {

/// ASCII code of `0`.
pub const DIGIT_ZERO: u8 = 48;

/// ASCII code of `+`.
pub const PLUS_SIGN: u8 = 43;

/// The decimal digits of `n`, most significant first, as ASCII bytes.
pub open spec fn dec_digits(n: nat) -> Seq<u8>
    decreases n,
{
    if n < 10 {
        seq![(DIGIT_ZERO + n) as u8]
    } else {
        dec_digits(n / 10).push((DIGIT_ZERO + n % 10) as u8)
    }
}

/// Is `b` the ASCII code of a decimal digit?
pub open spec fn is_digit(b: u8) -> bool {
    DIGIT_ZERO <= b <= 57
}

pub open spec fn all_digits(s: Seq<u8>) -> bool {
    forall|i: int| 0 <= i < s.len() ==> is_digit(#[trigger] s[i])
}

/// The value of a string of digit bytes, most significant first.
pub open spec fn digits_val(s: Seq<u8>) -> nat
    decreases s.len(),
{
    if s.len() == 0 {
        0
    } else {
        (digits_val(s.drop_last()) * 10 + (s.last() - DIGIT_ZERO)) as nat
    }
}

/// The numeral `s` denotes, before any width bound: an optional leading `+`,
/// then at least one digit and nothing else, as `str::parse` accepts for the
/// unsigned integer types.
pub open spec fn dec_value(s: Seq<u8>) -> Option<nat> {
    let t = if s.len() > 0 && s[0] == PLUS_SIGN {
        s.skip(1)
    } else {
        s
    };
    if t.len() > 0 && all_digits(t) {
        Some(digits_val(t))
    } else {
        None
    }
}

/// What `str::parse::<u64>` accepts: a numeral whose value fits in 64 bits.
pub open spec fn parse_u64_spec(s: Seq<u8>) -> Option<u64> {
    match dec_value(s) {
        Some(v) => if v <= u64::MAX {
            Some(v as u64)
        } else {
            None
        },
        None => None,
    }
}

/// What `str::parse::<u32>` accepts: a numeral whose value fits in 32 bits.
pub open spec fn parse_u32_spec(s: Seq<u8>) -> Option<u32> {
    match dec_value(s) {
        Some(v) => if v <= u32::MAX {
            Some(v as u32)
        } else {
            None
        },
        None => None,
    }
}

/// A digit string is worth at least any of its prefixes.
pub proof fn lemma_digits_val_take_le(s: Seq<u8>, k: int)
    requires
        0 <= k <= s.len(),
        all_digits(s),
    ensures
        digits_val(s.take(k)) <= digits_val(s),
    decreases s.len(),
{
    if k < s.len() {
        assert(s.drop_last().take(k) =~= s.take(k));
        lemma_digits_val_take_le(s.drop_last(), k);
        assert(digits_val(s.drop_last()) <= digits_val(s.drop_last()) * 10);
    } else {
        assert(s.take(k) =~= s);
    }
}

/// Tests for an ASCII decimal digit.
pub fn is_digit_exec(b: u8) -> (r: bool)
    ensures
        r == is_digit(b),
{
    DIGIT_ZERO <= b && b <= 57
}

/// Prints `n` in decimal.
pub fn u64_to_dec(n: u64) -> (r: Vec<u8>)
    ensures
        r@ == dec_digits(n as nat),
    decreases n,
{
    if n < 10 {
        let mut v: Vec<u8> = Vec::new();
        v.push(DIGIT_ZERO + (n as u8));
        proof {
            assert(v@ =~= dec_digits(n as nat));
        }
        v
    } else {
        let mut v = u64_to_dec(n / 10);
        v.push(DIGIT_ZERO + ((n % 10) as u8));
        proof {
            assert(v@ =~= dec_digits(n as nat));
        }
        v
    }
}

/// Parses an unsigned 64-bit numeral, exactly as `str::parse::<u64>` would.
pub fn parse_u64(s: &Vec<u8>) -> (r: Option<u64>)
    ensures
        r == parse_u64_spec(s@),
{
    let start: usize = if s.len() > 0 && s[0] == PLUS_SIGN {
        1
    } else {
        0
    };
    let ghost t = s@.skip(start as int);
    proof {
        if !(s@.len() > 0 && s@[0] == PLUS_SIGN) {
            assert(t =~= s@);
        }
    }
    if s.len() == start {
        return None;
    }
    let mut val: u64 = 0;
    let mut i: usize = start;
    while i < s.len()
        invariant
            start <= i <= s@.len(),
            t == s@.skip(start as int),
            start <= 1,
            s@.len() > start,
            t.len() == s@.len() - start,
            forall|j: int| 0 <= j < i - start ==> is_digit(#[trigger] t[j]),
            val == digits_val(t.take(i - start)),
            dec_value(s@) == if t.len() > 0 && all_digits(t) {
                Some(digits_val(t))
            } else {
                None::<nat>
            },
        decreases s@.len() - i,
    {
        let b = s[i];
        proof {
            assert(t[i - start] == s@[i as int]);
        }
        if b < DIGIT_ZERO || b > 57 {
            proof {
                assert(!is_digit(t[i - start]));
            }
            return None;
        }
        let d: u8 = b - DIGIT_ZERO;
        if val > (u64::MAX - (d as u64)) / 10 {
            proof {
                let k = i - start;
                assert(t.take(k + 1).drop_last() =~= t.take(k));
                assert(t.take(k + 1).last() == t[k]);
                assert(digits_val(t.take(k + 1)) == val * 10 + d);
                assert(val * 10 + d > u64::MAX) by (nonlinear_arith)
                    requires
                        val > (u64::MAX - (d as u64)) / 10,
                        d <= 9,
                {
                }
                if all_digits(t) {
                    lemma_digits_val_take_le(t, k + 1);
                }
            }
            return None;
        }
        proof {
            let k = i - start;
            assert(t.take(k + 1).drop_last() =~= t.take(k));
            assert(t.take(k + 1).last() == t[k]);
            assert(val * 10 + d <= u64::MAX) by (nonlinear_arith)
                requires
                    val <= (u64::MAX - (d as u64)) / 10,
                    d <= 9,
            {
            }
            assert(digits_val(t.take(k + 1)) == val * 10 + d);
        }
        val = val * 10 + (d as u64);
        i = i + 1;
    }
    proof {
        assert(t.take(i - start) =~= t);
    }
    Some(val)
}

/// Parses an unsigned 32-bit numeral, exactly as `str::parse::<u32>` would.
pub fn parse_u32(s: &Vec<u8>) -> (r: Option<u32>)
    ensures
        r == parse_u32_spec(s@),
{
    match parse_u64(s) {
        Some(v) => if v <= u32::MAX as u64 {
            Some(v as u32)
        } else {
            None
        },
        None => None,
    }
}

} // verus!
