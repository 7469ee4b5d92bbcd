//! Laws the library states of itself beyond the handlers' own contracts:
//! what a list page holds, how the pagination cursor advances, the default
//! pagination equivalence, and which requests fall through to not-found.

use vstd::prelude::*;

use crate::handlers::is_list_response;
use crate::lit::{lit_get, lit_limit, lit_next_infix, lit_next_prefix, lit_offset, lit_pets,
    lit_post, lit_x_next};
use crate::model::HttpResponseView;
use crate::num::{dec_digits, parse_u64_spec};
use crate::path::path_segments;
use crate::query::query_param_u32;
use crate::router::{route_of, RouteOutcome};
use crate::store::{stub_page, stub_pet};

verus! {

/// A list page holds exactly `limit` items, with ids `offset`,
/// `offset + 1`, …, `offset + limit - 1`, in that order.
pub proof fn lemma_page_ids(limit: u32, offset: u32)
    ensures
        stub_page(limit, offset).len() == limit,
        forall|j: int|
            0 <= j < limit ==> (#[trigger] stub_page(limit, offset)[j]) == stub_pet(
                (offset + j) as u64,
            ),
        forall|j: int| 0 <= j < limit ==> (#[trigger] stub_page(limit, offset)[j]).id == offset + j,
{
}

/// Get-by-id echoes the requested id: the pet synthesized for `id` carries
/// exactly that id.
pub proof fn lemma_get_by_id_echoes_id(id: u64)
    ensures
        stub_pet(id).id == id,
{
}

/// The `x-next` header of a list response encodes the cursor
/// `limit + offset`: the stride is `limit`, never the number of items the
/// body actually holds.
pub proof fn lemma_x_next_cursor(r: HttpResponseView, limit: u32, offset: u32)
    requires
        is_list_response(r, limit, offset),
    ensures
        r.headers.len() == 2,
        r.headers[0].0 == lit_x_next(),
        r.headers[0].1 == lit_next_prefix() + dec_digits(limit as nat) + lit_next_infix()
            + dec_digits((limit + offset) as nat),
{
}

/// Omitting `limit` and `offset` is equivalent to supplying
/// `limit=25&offset=0`: a query carrying neither parameter routes exactly
/// as one carrying those explicit values.
pub proof fn lemma_default_pagination(
    method: Seq<u8>,
    path: Seq<u8>,
    q_absent: Seq<u8>,
    q_explicit: Seq<u8>,
)
    requires
        query_param_u32(q_absent, lit_limit()) is None,
        query_param_u32(q_absent, lit_offset()) is None,
        query_param_u32(q_explicit, lit_limit()) == Some(25u32),
        query_param_u32(q_explicit, lit_offset()) == Some(0u32),
    ensures
        route_of(method, path, q_absent) == route_of(method, path, q_explicit),
{
}

/// A request whose first path segment is not `pets` routes to not-found,
/// whatever its method and query.
pub proof fn lemma_foreign_path_not_found(method: Seq<u8>, path: Seq<u8>, query: Seq<u8>)
    requires
        path_segments(path)[0] != lit_pets(),
    ensures
        route_of(method, path, query) == RouteOutcome::NotFound,
{
    let segs = path_segments(path);
    if segs == seq![lit_pets()] {
        assert(segs[0] == lit_pets());
    }
}

/// A request whose method and segment shape match no row of the route table
/// routes to not-found.
pub proof fn lemma_unmatched_shape_not_found(method: Seq<u8>, path: Seq<u8>, query: Seq<u8>)
    requires
        !(method == lit_get() && path_segments(path) == seq![lit_pets()]),
        !(method == lit_post() && path_segments(path) == seq![lit_pets()]),
        !(method == lit_get() && path_segments(path).len() == 2 && path_segments(path)[0]
            == lit_pets() && parse_u64_spec(path_segments(path)[1]) is Some),
    ensures
        route_of(method, path, query) == RouteOutcome::NotFound,
{
}

/// A non-numeric id segment makes the get-by-id route miss entirely: the
/// answer is the not-found fallback, not a client-error status.
pub proof fn lemma_non_numeric_id_not_found(method: Seq<u8>, path: Seq<u8>, query: Seq<u8>)
    requires
        path_segments(path).len() == 2,
        parse_u64_spec(path_segments(path)[1]) is None,
    ensures
        route_of(method, path, query) == RouteOutcome::NotFound,
{
    let segs = path_segments(path);
    if segs == seq![lit_pets()] {
        assert(segs.len() == 1);
    }
}

} // verus!
