//! JSON encoding of the response bodies. The encoding is fixed: object keys
//! in declaration order, no whitespace, strings escaped with `\"`, `\\`, the
//! short control escapes `\b` `\t` `\n` `\f` `\r`, and `\u00XX` for the
//! remaining control bytes; all other bytes pass through unchanged.

use vstd::prelude::*;

use crate::lit::{
    id_prefix_vec, items_prefix_vec, lit_id_prefix, lit_items_prefix, lit_name_infix, lit_null,
    lit_tag_infix, name_infix_vec, null_vec, tag_infix_vec, BACKSLASH, COMMA, LBRACKET, QUOTE,
    RBRACE, RBRACKET,
};
use crate::model::{Pet, PetView, Pets, PetsView};
use crate::num::{dec_digits, u64_to_dec};

verus! {

/// The lower-case hexadecimal digit of `n < 16`.
pub open spec fn hex_digit(n: u8) -> u8 {
    if n < 10 {
        (48 + n) as u8
    } else {
        (87 + n) as u8
    }
}

/// How one byte appears inside a JSON string.
pub open spec fn esc_byte(b: u8) -> Seq<u8> {
    if b == QUOTE {
        seq![BACKSLASH, QUOTE]
    } else if b == BACKSLASH {
        seq![BACKSLASH, BACKSLASH]
    } else if b == 8 {
        seq![BACKSLASH, 98u8]
    } else if b == 9 {
        seq![BACKSLASH, 116u8]
    } else if b == 10 {
        seq![BACKSLASH, 110u8]
    } else if b == 12 {
        seq![BACKSLASH, 102u8]
    } else if b == 13 {
        seq![BACKSLASH, 114u8]
    } else if b < 32 {
        seq![BACKSLASH, 117u8, 48u8, 48u8, hex_digit(b / 16), hex_digit(b % 16)]
    } else {
        seq![b]
    }
}

/// The escaped form of a whole string body.
pub open spec fn json_escape(s: Seq<u8>) -> Seq<u8>
    decreases s.len(),
{
    if s.len() == 0 {
        Seq::empty()
    } else {
        json_escape(s.drop_last()) + esc_byte(s.last())
    }
}

/// How the optional tag appears as a JSON value.
pub open spec fn tag_json(t: Option<Seq<u8>>) -> Seq<u8> {
    match t {
        Some(s) => seq![QUOTE] + json_escape(s) + seq![QUOTE],
        None => lit_null(),
    }
}

/// The JSON encoding of one pet: `{"id":…,"name":"…","tag":…}`.
pub open spec fn pet_json(p: PetView) -> Seq<u8> {
    lit_id_prefix() + dec_digits(p.id as nat) + lit_name_infix() + json_escape(p.name)
        + lit_tag_infix() + tag_json(p.tag) + seq![RBRACE]
}

/// The comma-separated encodings of a sequence of pets.
pub open spec fn pets_items_json(s: Seq<PetView>) -> Seq<u8>
    decreases s.len(),
{
    if s.len() == 0 {
        Seq::empty()
    } else if s.len() == 1 {
        pet_json(s[0])
    } else {
        pets_items_json(s.drop_last()) + seq![COMMA] + pet_json(s.last())
    }
}

/// The JSON encoding of a collection: `{"items":[…]}`, or `{"items":null}`
/// when the collection carries no sequence.
pub open spec fn pets_json(v: PetsView) -> Seq<u8> {
    lit_items_prefix() + (match v.items {
        Some(s) => seq![LBRACKET] + pets_items_json(s) + seq![RBRACKET],
        None => lit_null(),
    }) + seq![RBRACE]
}

/// Appends all of `s` to `out`.
pub fn push_all(out: &mut Vec<u8>, s: &Vec<u8>)
    ensures
        final(out)@ == old(out)@ + s@,
{
    let mut i: usize = 0;
    while i < s.len()
        invariant
            i <= s@.len(),
            out@ == old(out)@ + s@.take(i as int),
        decreases s@.len() - i,
    {
        let b = s[i];
        out.push(b);
        i = i + 1;
        proof {
            assert(old(out)@ + s@.take(i as int) =~= (old(out)@ + s@.take(i as int - 1)).push(b));
        }
    }
    proof {
        assert(s@.take(i as int) =~= s@);
        assert(out@ =~= old(out)@ + s@);
    }
}

/// The lower-case hexadecimal digit of `n < 16`.
fn hex_digit_exec(n: u8) -> (r: u8)
    requires
        n < 16,
    ensures
        r == hex_digit(n),
{
    if n < 10 {
        48 + n
    } else {
        87 + n
    }
}

/// Appends the escaped form of `s` to `out`.
pub fn push_escaped(out: &mut Vec<u8>, s: &Vec<u8>)
    ensures
        final(out)@ == old(out)@ + json_escape(s@),
{
    let mut i: usize = 0;
    while i < s.len()
        invariant
            i <= s@.len(),
            out@ == old(out)@ + json_escape(s@.take(i as int)),
        decreases s@.len() - i,
    {
        let b = s[i];
        if b == QUOTE || b == BACKSLASH {
            out.push(BACKSLASH);
            out.push(b);
        } else if b == 8 {
            out.push(BACKSLASH);
            out.push(98);
        } else if b == 9 {
            out.push(BACKSLASH);
            out.push(116);
        } else if b == 10 {
            out.push(BACKSLASH);
            out.push(110);
        } else if b == 12 {
            out.push(BACKSLASH);
            out.push(102);
        } else if b == 13 {
            out.push(BACKSLASH);
            out.push(114);
        } else if b < 32 {
            out.push(BACKSLASH);
            out.push(117);
            out.push(48);
            out.push(48);
            out.push(hex_digit_exec(b / 16));
            out.push(hex_digit_exec(b % 16));
        } else {
            out.push(b);
        }
        i = i + 1;
        proof {
            assert(s@.take(i as int).drop_last() =~= s@.take(i as int - 1));
            assert(s@.take(i as int).last() == b);
            assert(out@ =~= old(out)@ + (json_escape(s@.take(i as int - 1)) + esc_byte(b)));
        }
    }
    proof {
        assert(s@.take(i as int) =~= s@);
    }
}

/// Serializes one pet, byte for byte as [`pet_json`] gives it.
pub fn pet_to_json(p: &Pet) -> (r: Vec<u8>)
    ensures
        r@ == pet_json(p@),
{
    let mut out = id_prefix_vec();
    let digits = u64_to_dec(p.id);
    push_all(&mut out, &digits);
    let infix = name_infix_vec();
    push_all(&mut out, &infix);
    push_escaped(&mut out, &p.name);
    let infix = tag_infix_vec();
    push_all(&mut out, &infix);
    match &p.tag {
        Some(t) => {
            out.push(QUOTE);
            push_escaped(&mut out, t);
            out.push(QUOTE);
        },
        None => {
            let n = null_vec();
            push_all(&mut out, &n);
        },
    }
    out.push(RBRACE);
    proof {
        assert(out@ =~= pet_json(p@));
    }
    out
}

/// Serializes a collection, byte for byte as [`pets_json`] gives it.
pub fn pets_to_json(ps: &Pets) -> (r: Vec<u8>)
    ensures
        r@ == pets_json(ps@),
{
    let mut out = items_prefix_vec();
    match &ps.items {
        None => {
            let n = null_vec();
            push_all(&mut out, &n);
        },
        Some(items) => {
            out.push(LBRACKET);
            let ghost iv = items@.map_values(|p: Pet| p@);
            let ghost base = out@;
            let mut i: usize = 0;
            while i < items.len()
                invariant
                    i <= items@.len(),
                    iv == items@.map_values(|p: Pet| p@),
                    out@ == base + pets_items_json(iv.take(i as int)),
                decreases items@.len() - i,
            {
                if i > 0 {
                    out.push(COMMA);
                }
                let pj = pet_to_json(&items[i]);
                push_all(&mut out, &pj);
                i = i + 1;
                proof {
                    assert(iv.take(i as int).drop_last() =~= iv.take(i as int - 1));
                    assert(iv.take(i as int).last() == iv[i as int - 1]);
                    assert(iv[i as int - 1] == items@[i as int - 1]@);
                    if i == 1 {
                        assert(pets_items_json(iv.take(1)) == pet_json(iv[0]));
                        assert(out@ =~= base + pets_items_json(iv.take(i as int)));
                    } else {
                        assert(out@ =~= base + (pets_items_json(iv.take(i as int - 1)) + seq![
                            COMMA,
                        ] + pet_json(iv[i as int - 1])));
                    }
                }
            }
            proof {
                assert(iv.take(i as int) =~= iv);
            }
            out.push(RBRACKET);
        },
    }
    out.push(RBRACE);
    proof {
        assert(out@ =~= pets_json(ps@));
    }
    out
}

} // verus!
