//! The query parameter parser: the query string splits on `&`; a piece with
//! exactly one `=` yields a name/value pair, a piece with no `=` yields the
//! name with the literal value `true` (boolean-flag style), and any other
//! shape is discarded. The first pair with the requested name wins. Values
//! are not URL-decoded; that is a documented simplification.

use vstd::prelude::*;

use crate::lit::{lit_true, true_vec, AMP, EQUALS};
use crate::model::opt_view;
use crate::num::{parse_u32, parse_u32_spec};
use crate::text::{bytes_eq, split, split_bytes, views};

verus! {

/// The name/value pair a piece of the query string denotes, if any.
pub open spec fn pair_of(part: Seq<u8>) -> Option<(Seq<u8>, Seq<u8>)> {
    let ps = split(part, EQUALS);
    if ps.len() == 2 {
        Some((ps[0], ps[1]))
    } else if ps.len() == 1 {
        Some((ps[0], lit_true()))
    } else {
        None
    }
}

/// The pairs the pieces denote, in order, shapeless pieces discarded.
pub open spec fn pairs_of(parts: Seq<Seq<u8>>) -> Seq<(Seq<u8>, Seq<u8>)>
    decreases parts.len(),
{
    if parts.len() == 0 {
        Seq::empty()
    } else {
        match pair_of(parts[0]) {
            Some(p) => seq![p] + pairs_of(parts.skip(1)),
            None => pairs_of(parts.skip(1)),
        }
    }
}

/// All name/value pairs of a query string, in order.
pub open spec fn query_pairs(q: Seq<u8>) -> Seq<(Seq<u8>, Seq<u8>)> {
    pairs_of(split(q, AMP))
}

/// The value of the first pair named `name`.
pub open spec fn first_value(pairs: Seq<(Seq<u8>, Seq<u8>)>, name: Seq<u8>) -> Option<Seq<u8>>
    decreases pairs.len(),
{
    if pairs.len() == 0 {
        None
    } else if pairs[0].0 == name {
        Some(pairs[0].1)
    } else {
        first_value(pairs.skip(1), name)
    }
}

/// The raw value of query parameter `name`, first occurrence winning.
pub open spec fn query_param(q: Seq<u8>, name: Seq<u8>) -> Option<Seq<u8>> {
    first_value(query_pairs(q), name)
}

/// Query parameter `name` parsed as a `u32`; an absent parameter and an
/// unparsable value are indistinguishable here, both giving nothing.
pub open spec fn query_param_u32(q: Seq<u8>, name: Seq<u8>) -> Option<u32> {
    match query_param(q, name) {
        Some(v) => parse_u32_spec(v),
        None => None,
    }
}

/// Looks up the raw value of query parameter `name`.
pub fn query_parameter_value(query: &Vec<u8>, name: &Vec<u8>) -> (r: Option<Vec<u8>>)
    ensures
        opt_view(r) == query_param(query@, name@),
{
    let parts = split_bytes(query, AMP);
    let ghost ps = views(parts@);
    proof {
        assert(ps.skip(0) =~= ps);
    }
    let mut i: usize = 0;
    while i < parts.len()
        invariant
            i <= parts@.len(),
            ps == views(parts@),
            ps == split(query@, AMP),
            first_value(pairs_of(ps), name@) == first_value(pairs_of(ps.skip(i as int)), name@),
        decreases parts@.len() - i,
    {
        let ghost tail = ps.skip(i as int);
        proof {
            assert(tail[0] == ps[i as int]);
            assert(tail.skip(1) =~= ps.skip(i as int + 1));
            assert(parts@[i as int]@ == ps[i as int]);
        }
        let mut kv = split_bytes(&parts[i], EQUALS);
        let ghost kvs = views(kv@);
        if kv.len() == 2 {
            proof {
                assert(pair_of(tail[0]) == Some((kvs[0], kvs[1])));
                assert(kv@[0]@ == kvs[0]);
                assert(kv@[1]@ == kvs[1]);
                let p = (kvs[0], kvs[1]);
                assert((seq![p] + pairs_of(tail.skip(1)))[0] == p);
                assert((seq![p] + pairs_of(tail.skip(1))).skip(1) =~= pairs_of(tail.skip(1)));
            }
            if bytes_eq(&kv[0], name) {
                match kv.pop() {
                    Some(v) => {
                        return Some(v);
                    },
                    None => {
                        proof {
                            assert(false);
                        }
                        return None;
                    },
                }
            }
        } else if kv.len() == 1 {
            proof {
                assert(pair_of(tail[0]) == Some((kvs[0], lit_true())));
                assert(kv@[0]@ == kvs[0]);
                let p = (kvs[0], lit_true());
                assert((seq![p] + pairs_of(tail.skip(1)))[0] == p);
                assert((seq![p] + pairs_of(tail.skip(1))).skip(1) =~= pairs_of(tail.skip(1)));
            }
            if bytes_eq(&kv[0], name) {
                return Some(true_vec());
            }
        } else {
            proof {
                assert(pair_of(tail[0]) is None);
            }
        }
        i = i + 1;
    }
    proof {
        assert(ps.skip(i as int) =~= Seq::<Seq<u8>>::empty());
    }
    None
}

/// Reads query parameter `name` as a `u32`, as the router does for `limit`
/// and `offset`.
pub fn get_query_parameter(query: &Vec<u8>, name: &Vec<u8>) -> (r: Option<u32>)
    ensures
        r == query_param_u32(query@, name@),
{
    match query_parameter_value(query, name) {
        Some(v) => parse_u32(&v),
        None => None,
    }
}

} // verus!
