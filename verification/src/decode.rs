//! JSON decoding of a create request body into a pet. The accepted grammar
//! is the pet object itself: `{` then the members `id` (an unsigned 64-bit
//! integer without leading zeros), `name` (a string) and `tag` (a string or
//! `null`), in any order, separated by commas, then `}`, with JSON whitespace
//! between tokens. `id` and `name` must appear exactly once, `tag` at most
//! once; an absent `tag` and a `null` tag both yield no tag. Strings accept
//! the escapes `\"` `\\` `\/` `\b` `\f` `\n` `\r` `\t`; `\uXXXX` escapes and
//! raw control bytes are rejected, a documented limitation.

use vstd::prelude::*;

use crate::lit::{
    id_vec, lit_id, lit_name, lit_null, lit_tag, name_vec, tag_vec, BACKSLASH, COLON, COMMA,
    LBRACE, QUOTE, RBRACE,
};
use crate::model::{opt_view, Pet, PetView};
use crate::num::{
    digits_val, is_digit, is_digit_exec, lemma_digits_val_take_le, DIGIT_ZERO,
};
use crate::text::bytes_eq;

verus! {

/// JSON whitespace: space, tab, line feed, carriage return.
pub open spec fn is_ws(b: u8) -> bool {
    b == 32 || b == 9 || b == 10 || b == 13
}

/// `s` without its leading whitespace.
pub open spec fn skip_ws(s: Seq<u8>) -> Seq<u8>
    decreases s.len(),
{
    if s.len() > 0 && is_ws(s[0]) {
        skip_ws(s.skip(1))
    } else {
        s
    }
}

/// The byte an escape character after `\` stands for, if the escape is
/// accepted.
pub open spec fn unescape(b: u8) -> Option<u8> {
    if b == QUOTE {
        Some(QUOTE)
    } else if b == BACKSLASH {
        Some(BACKSLASH)
    } else if b == 47 {
        Some(47u8)
    } else if b == 98 {
        Some(8u8)
    } else if b == 102 {
        Some(12u8)
    } else if b == 110 {
        Some(10u8)
    } else if b == 114 {
        Some(13u8)
    } else if b == 116 {
        Some(9u8)
    } else {
        None
    }
}

/// Inside a string, after the opening quote: the decoded content and what
/// follows the closing quote.
pub open spec fn str_rest(s: Seq<u8>) -> Option<(Seq<u8>, Seq<u8>)>
    decreases s.len(),
{
    if s.len() == 0 {
        None
    } else if s[0] == QUOTE {
        Some((Seq::empty(), s.skip(1)))
    } else if s[0] == BACKSLASH {
        if s.len() < 2 {
            None
        } else {
            match unescape(s[1]) {
                Some(u) => match str_rest(s.skip(2)) {
                    Some(p) => Some((seq![u] + p.0, p.1)),
                    None => None,
                },
                None => None,
            }
        }
    } else if s[0] < 32 {
        None
    } else {
        match str_rest(s.skip(1)) {
            Some(p) => Some((seq![s[0]] + p.0, p.1)),
            None => None,
        }
    }
}

/// A whole string token: the decoded content and what follows it.
pub open spec fn string_token(s: Seq<u8>) -> Option<(Seq<u8>, Seq<u8>)> {
    if s.len() > 0 && s[0] == QUOTE {
        str_rest(s.skip(1))
    } else {
        None
    }
}

/// The length of the leading digit run.
pub open spec fn digit_run(s: Seq<u8>) -> nat
    decreases s.len(),
{
    if s.len() > 0 && is_digit(s[0]) {
        (1 + digit_run(s.skip(1))) as nat
    } else {
        0
    }
}

/// A JSON integer token fitting `u64`: digits without a leading zero.
pub open spec fn number_token(s: Seq<u8>) -> Option<(u64, Seq<u8>)> {
    let n = digit_run(s);
    if n == 0 {
        None
    } else if s[0] == DIGIT_ZERO && n > 1 {
        None
    } else {
        let v = digits_val(s.take(n as int));
        if v <= u64::MAX {
            Some((v as u64, s.skip(n as int)))
        } else {
            None
        }
    }
}

/// The effect of one member's value on the partly-filled record: `key` must
/// be one of the three field names, not yet filled; the value must have the
/// field's type. Yields the updated record and what follows the value.
pub open spec fn member_value(
    key: Seq<u8>,
    s: Seq<u8>,
    id: Option<u64>,
    name: Option<Seq<u8>>,
    tag_seen: bool,
    tag: Option<Seq<u8>>,
) -> Option<(Option<u64>, Option<Seq<u8>>, bool, Option<Seq<u8>>, Seq<u8>)> {
    if key == lit_id() {
        if id is Some {
            None
        } else {
            match number_token(s) {
                Some(p) => Some((Some(p.0), name, tag_seen, tag, p.1)),
                None => None,
            }
        }
    } else if key == lit_name() {
        if name is Some {
            None
        } else {
            match string_token(s) {
                Some(p) => Some((id, Some(p.0), tag_seen, tag, p.1)),
                None => None,
            }
        }
    } else if key == lit_tag() {
        if tag_seen {
            None
        } else {
            if s.len() >= 4 && s.take(4) == lit_null() {
                Some((id, name, true, None, s.skip(4)))
            } else {
                match string_token(s) {
                    Some(p) => Some((id, name, true, Some(p.0), p.1)),
                    None => None,
                }
            }
        }
    } else {
        None
    }
}

/// The members of the object from `s` (positioned at a key) up to and
/// including the closing brace: the finished pet and what follows the brace.
/// Three members suffice for any accepted document, since a fourth would
/// repeat a field.
pub open spec fn parse_members(
    s: Seq<u8>,
    id: Option<u64>,
    name: Option<Seq<u8>>,
    tag_seen: bool,
    tag: Option<Seq<u8>>,
    fuel: nat,
) -> Option<(PetView, Seq<u8>)>
    decreases fuel,
{
    if fuel == 0 {
        None
    } else {
        match string_token(s) {
            None => None,
            Some(kp) => {
                let r2 = skip_ws(kp.1);
                if r2.len() == 0 || r2[0] != COLON {
                    None
                } else {
                    let r3 = skip_ws(r2.skip(1));
                    match member_value(kp.0, r3, id, name, tag_seen, tag) {
                        None => None,
                        Some(st) => {
                            let r5 = skip_ws(st.4);
                            if r5.len() == 0 {
                                None
                            } else if r5[0] == RBRACE {
                                match (st.0, st.1) {
                                    (Some(i), Some(n)) => Some(
                                        (PetView { id: i, name: n, tag: st.3 }, r5.skip(1)),
                                    ),
                                    _ => None,
                                }
                            } else if r5[0] == COMMA {
                                parse_members(
                                    skip_ws(r5.skip(1)),
                                    st.0,
                                    st.1,
                                    st.2,
                                    st.3,
                                    (fuel - 1) as nat,
                                )
                            } else {
                                None
                            }
                        },
                    }
                }
            },
        }
    }
}

/// The pet a complete request body denotes, if it is a well-formed pet
/// document with nothing but whitespace around the object.
pub open spec fn pet_of_json(s: Seq<u8>) -> Option<PetView> {
    let s1 = skip_ws(s);
    if s1.len() == 0 || s1[0] != LBRACE {
        None
    } else {
        match parse_members(skip_ws(s1.skip(1)), None, None, false, None, 3) {
            Some(p) => if skip_ws(p.1).len() == 0 {
                Some(p.0)
            } else {
                None
            },
            None => None,
        }
    }
}

/// Tests for JSON whitespace.
fn is_ws_exec(b: u8) -> (r: bool)
    ensures
        r == is_ws(b),
{
    b == 32 || b == 9 || b == 10 || b == 13
}

/// Skips whitespace from position `i`.
fn skip_ws_at(v: &Vec<u8>, i: usize) -> (r: usize)
    requires
        i <= v@.len(),
    ensures
        i <= r <= v@.len(),
        v@.skip(r as int) == skip_ws(v@.skip(i as int)),
{
    let mut j: usize = i;
    while j < v.len() && is_ws_exec(v[j])
        invariant
            i <= j <= v@.len(),
            skip_ws(v@.skip(i as int)) == skip_ws(v@.skip(j as int)),
        decreases v@.len() - j,
    {
        proof {
            assert(v@.skip(j as int)[0] == v@[j as int]);
            assert(v@.skip(j as int).skip(1) =~= v@.skip(j as int + 1));
        }
        j = j + 1;
    }
    proof {
        if j < v@.len() {
            assert(v@.skip(j as int)[0] == v@[j as int]);
        }
    }
    j
}

/// The byte an escape character stands for.
fn unescape_exec(b: u8) -> (r: Option<u8>)
    ensures
        r == unescape(b),
{
    if b == QUOTE {
        Some(QUOTE)
    } else if b == BACKSLASH {
        Some(BACKSLASH)
    } else if b == 47 {
        Some(47)
    } else if b == 98 {
        Some(8)
    } else if b == 102 {
        Some(12)
    } else if b == 110 {
        Some(10)
    } else if b == 114 {
        Some(13)
    } else if b == 116 {
        Some(9)
    } else {
        None
    }
}

/// Reads a string token at position `i`, returning its decoded content and
/// the position after the closing quote.
fn string_token_at(v: &Vec<u8>, i: usize) -> (r: Option<(Vec<u8>, usize)>)
    requires
        i <= v@.len(),
    ensures
        match r {
            Some(p) => p.1 <= v@.len() && string_token(v@.skip(i as int)) == Some(
                (p.0@, v@.skip(p.1 as int)),
            ),
            None => string_token(v@.skip(i as int)) is None,
        },
{
    if i == v.len() {
        return None;
    }
    proof {
        assert(v@.skip(i as int)[0] == v@[i as int]);
        assert(v@.skip(i as int).skip(1) =~= v@.skip(i as int + 1));
    }
    if v[i] != QUOTE {
        return None;
    }
    let mut acc: Vec<u8> = Vec::new();
    let mut j: usize = i + 1;
    loop
        invariant
            i < v@.len(),
            i + 1 <= j <= v@.len(),
            string_token(v@.skip(i as int)) == str_rest(v@.skip(i as int + 1)),
            match str_rest(v@.skip(j as int)) {
                Some(p) => str_rest(v@.skip(i as int + 1)) == Some((acc@ + p.0, p.1)),
                None => str_rest(v@.skip(i as int + 1)) is None,
            },
        decreases v@.len() - j,
    {
        if j == v.len() {
            proof {
                assert(v@.skip(j as int) =~= Seq::<u8>::empty());
            }
            return None;
        }
        let b = v[j];
        proof {
            assert(v@.skip(j as int)[0] == b);
            assert(v@.skip(j as int).len() == v@.len() - j);
            assert(v@.skip(j as int).skip(1) =~= v@.skip(j as int + 1));
        }
        if b == QUOTE {
            proof {
                assert(acc@ + Seq::<u8>::empty() =~= acc@);
            }
            return Some((acc, j + 1));
        } else if b == BACKSLASH {
            if j + 1 == v.len() {
                return None;
            }
            let e = v[j + 1];
            proof {
                assert(v@.skip(j as int)[1] == e);
                assert(v@.skip(j as int).skip(2) =~= v@.skip(j as int + 2));
            }
            match unescape_exec(e) {
                Some(u) => {
                    let ghost acc0 = acc@;
                    acc.push(u);
                    proof {
                        match str_rest(v@.skip(j as int + 2)) {
                            Some(p) => {
                                assert(acc0 + (seq![u] + p.0) =~= acc0.push(u) + p.0);
                            },
                            None => {},
                        }
                    }
                    j = j + 2;
                },
                None => {
                    return None;
                },
            }
        } else if b < 32 {
            return None;
        } else {
            let ghost acc0 = acc@;
            acc.push(b);
            proof {
                match str_rest(v@.skip(j as int + 1)) {
                    Some(p) => {
                        assert(acc0 + (seq![b] + p.0) =~= acc0.push(b) + p.0);
                    },
                    None => {},
                }
            }
            j = j + 1;
        }
    }
}

/// Reads an integer token at position `i`, returning its value and the
/// position after the digits.
fn number_token_at(v: &Vec<u8>, i: usize) -> (r: Option<(u64, usize)>)
    requires
        i <= v@.len(),
    ensures
        match r {
            Some(p) => p.1 <= v@.len() && number_token(v@.skip(i as int)) == Some(
                (p.0, v@.skip(p.1 as int)),
            ),
            None => number_token(v@.skip(i as int)) is None,
        },
{
    let ghost s = v@.skip(i as int);
    let mut k: usize = i;
    while k < v.len() && is_digit_exec(v[k])
        invariant
            i <= k <= v@.len(),
            s == v@.skip(i as int),
            digit_run(s) == (k - i) + digit_run(v@.skip(k as int)),
            forall|t: int| 0 <= t < k - i ==> is_digit(#[trigger] s[t]),
        decreases v@.len() - k,
    {
        proof {
            assert(v@.skip(k as int)[0] == v@[k as int]);
            assert(v@.skip(k as int).skip(1) =~= v@.skip(k as int + 1));
            assert(s[k - i] == v@[k as int]);
        }
        k = k + 1;
    }
    proof {
        if k < v@.len() {
            assert(v@.skip(k as int)[0] == v@[k as int]);
        }
        assert(digit_run(v@.skip(k as int)) == 0);
        assert(digit_run(s) == k - i);
    }
    if k == i {
        return None;
    }
    proof {
        assert(s[0] == v@[i as int]);
    }
    if v[i] == DIGIT_ZERO && k - i > 1 {
        return None;
    }
    let ghost run = (k - i) as int;
    let ghost t = s.take(run);
    proof {
        assert(forall|x: int| 0 <= x < run ==> t[x] == s[x]);
    }
    let mut val: u64 = 0;
    let mut m: usize = i;
    while m < k
        invariant
            i <= m <= k <= v@.len(),
            s == v@.skip(i as int),
            s.len() == v@.len() - i,
            run == k - i,
            1 <= run,
            digit_run(s) == run,
            t == s.take(run),
            t.len() == run,
            forall|x: int| 0 <= x < run ==> is_digit(#[trigger] t[x]) && t[x] == v@[i + x],
            val == digits_val(t.take(m - i)),
        decreases k - m,
    {
        let b = v[m];
        proof {
            assert(t[m - i] == v@[m as int]);
        }
        let d: u8 = b - DIGIT_ZERO;
        proof {
            assert(t.take(m - i + 1).drop_last() =~= t.take(m - i));
            assert(t.take(m - i + 1).last() == t[m - i]);
        }
        if val > (u64::MAX - (d as u64)) / 10 {
            proof {
                assert(val * 10 + d > u64::MAX) by (nonlinear_arith)
                    requires
                        val > (u64::MAX - (d as u64)) / 10,
                        d <= 9,
                {
                }
                assert(digits_val(t.take(m - i + 1)) > u64::MAX);
                lemma_digits_val_take_le(t, m - i + 1);
            }
            return None;
        }
        proof {
            assert(val * 10 + d <= u64::MAX) by (nonlinear_arith)
                requires
                    val <= (u64::MAX - (d as u64)) / 10,
                    d <= 9,
            {
            }
            assert(digits_val(t.take(m - i + 1)) == val * 10 + d);
        }
        val = val * 10 + (d as u64);
        m = m + 1;
    }
    proof {
        assert(t.take(m - i) =~= t);
    }
    Some((val, k))
}

/// Deserializes a create request body. Yields the pet exactly when the body
/// is a well-formed pet document, and nothing otherwise; a missing and a
/// `null` tag are indistinguishable in the result.
pub fn parse_pet(body: &Vec<u8>) -> (r: Option<Pet>)
    ensures
        match r {
            Some(p) => pet_of_json(body@) == Some(p@),
            None => pet_of_json(body@) is None,
        },
{
    let n = body.len();
    proof {
        assert(body@.skip(0) =~= body@);
    }
    let i0 = skip_ws_at(body, 0);
    let ghost s1 = body@.skip(i0 as int);
    if i0 == n {
        return None;
    }
    proof {
        assert(s1[0] == body@[i0 as int]);
        assert(s1.skip(1) =~= body@.skip(i0 as int + 1));
    }
    if body[i0] != LBRACE {
        return None;
    }
    let start = skip_ws_at(body, i0 + 1);
    let ghost s2 = body@.skip(start as int);
    let mut pos = start;
    let mut id: Option<u64> = None;
    let mut name: Option<Vec<u8>> = None;
    let mut tag_seen: bool = false;
    let mut tag: Option<Vec<u8>> = None;
    let mut fuel: usize = 3;
    loop
        invariant
            n == body@.len(),
            pos <= body@.len(),
            fuel <= 3,
            parse_members(s2, None, None, false, None, 3) == parse_members(
                body@.skip(pos as int),
                id,
                opt_view(name),
                tag_seen,
                opt_view(tag),
                fuel as nat,
            ),
            pet_of_json(body@) == (match parse_members(s2, None, None, false, None, 3) {
                Some(p) => if skip_ws(p.1).len() == 0 {
                    Some(p.0)
                } else {
                    None::<PetView>
                },
                None => None::<PetView>,
            }),
        decreases fuel,
    {
        let ghost cur = body@.skip(pos as int);
        let ghost gid = id;
        let ghost gname = opt_view(name);
        let ghost gts = tag_seen;
        let ghost gtag = opt_view(tag);
        if fuel == 0 {
            return None;
        }
        let (key, p1) = match string_token_at(body, pos) {
            Some(kp) => kp,
            None => {
                return None;
            },
        };
        let p2 = skip_ws_at(body, p1);
        let ghost r2 = body@.skip(p2 as int);
        if p2 == n {
            return None;
        }
        proof {
            assert(r2[0] == body@[p2 as int]);
            assert(r2.skip(1) =~= body@.skip(p2 as int + 1));
        }
        if body[p2] != COLON {
            return None;
        }
        let p3 = skip_ws_at(body, p2 + 1);
        let ghost r3 = body@.skip(p3 as int);
        let mut p4: usize = 0;
        let id_lit = id_vec();
        let name_lit = name_vec();
        let tag_lit = tag_vec();
        if bytes_eq(&key, &id_lit) {
            if id.is_some() {
                return None;
            }
            match number_token_at(body, p3) {
                Some(vp) => {
                    id = Some(vp.0);
                    p4 = vp.1;
                },
                None => {
                    return None;
                },
            }
        } else if bytes_eq(&key, &name_lit) {
            if name.is_some() {
                return None;
            }
            match string_token_at(body, p3) {
                Some(sp) => {
                    name = Some(sp.0);
                    p4 = sp.1;
                },
                None => {
                    return None;
                },
            }
        } else if bytes_eq(&key, &tag_lit) {
            if tag_seen {
                return None;
            }
            tag_seen = true;
            let is_null = n - p3 >= 4 && body[p3] == 110 && body[p3 + 1] == 117 && body[p3 + 2]
                == 108 && body[p3 + 3] == 108;
            if is_null {
                proof {
                    assert(r3.len() >= 4);
                    assert(r3[0] == body@[p3 as int]);
                    assert(r3[1] == body@[p3 as int + 1]);
                    assert(r3[2] == body@[p3 as int + 2]);
                    assert(r3[3] == body@[p3 as int + 3]);
                    assert(r3.take(4) =~= lit_null());
                    assert(r3.skip(4) =~= body@.skip(p3 as int + 4));
                }
                tag = None;
                p4 = p3 + 4;
            } else {
                proof {
                    if r3.len() >= 4 && r3.take(4) == lit_null() {
                        assert(r3.take(4)[0] == lit_null()[0]);
                        assert(r3.take(4)[1] == lit_null()[1]);
                        assert(r3.take(4)[2] == lit_null()[2]);
                        assert(r3.take(4)[3] == lit_null()[3]);
                        assert(r3[0] == body@[p3 as int]);
                        assert(r3[1] == body@[p3 as int + 1]);
                        assert(r3[2] == body@[p3 as int + 2]);
                        assert(r3[3] == body@[p3 as int + 3]);
                        assert(false);
                    }
                }
                match string_token_at(body, p3) {
                    Some(sp) => {
                        tag = Some(sp.0);
                        p4 = sp.1;
                    },
                    None => {
                        return None;
                    },
                }
            }
        } else {
            proof {
                assert(member_value(key@, r3, gid, gname, gts, gtag) is None);
            }
            return None;
        }
        proof {
            assert(member_value(key@, r3, gid, gname, gts, gtag) == Some(
                (id, opt_view(name), tag_seen, opt_view(tag), body@.skip(p4 as int)),
            ));
        }
        let p5 = skip_ws_at(body, p4);
        let ghost r5 = body@.skip(p5 as int);
        if p5 == n {
            return None;
        }
        proof {
            assert(r5[0] == body@[p5 as int]);
            assert(r5.skip(1) =~= body@.skip(p5 as int + 1));
        }
        let b5 = body[p5];
        if b5 == RBRACE {
            let end = skip_ws_at(body, p5 + 1);
            if end != n {
                proof {
                    assert(body@.skip(end as int).len() > 0);
                }
                return None;
            }
            proof {
                assert(body@.skip(end as int) =~= Seq::<u8>::empty());
            }
            match (id, name) {
                (Some(pid), Some(nm)) => {
                    let pet = Pet { id: pid, name: nm, tag };
                    return Some(pet);
                },
                _ => {
                    return None;
                },
            }
        } else if b5 == COMMA {
            pos = skip_ws_at(body, p5 + 1);
            fuel = fuel - 1;
        } else {
            return None;
        }
    }
}

} // verus!
