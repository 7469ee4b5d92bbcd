//! The router: one request head classifies into one of four route outcomes,
//! first match winning over the fixed table
//!
//! | method | segments         | route    |
//! |--------|------------------|----------|
//! | GET    | `["pets"]`       | list     |
//! | POST   | `["pets"]`       | create   |
//! | GET    | `["pets", id]`   | get by id, when `id` parses as `u64` |
//! | *      | anything else    | not found |
//!
//! and the selected handler answers. A create must first receive the whole
//! body, so its outcome defers to [`handle_create_body`].

use vstd::prelude::*;

use crate::decode::{parse_pet, pet_of_json};
use crate::handlers::{
    create_pets, is_created_response, is_get_response, is_list_response, is_not_found_response,
    list_pets, not_found, show_pet_by_id,
};
use crate::lit::{get_vec, limit_vec, lit_get, lit_limit, lit_offset, lit_pets, lit_post,
    offset_vec, pets_vec, post_vec};
use crate::model::HttpResponse;
use crate::num::{parse_u64, parse_u64_spec};
use crate::path::{get_path_segments, path_segments};
use crate::query::{get_query_parameter, query_param_u32};
use crate::text::{bytes_eq, views};

verus! {

/// The transient decision a request head produces: which handler runs, with
/// its typed arguments, or the not-found fallback.
#[derive(Debug, Clone, Copy, PartialEq, Eq, Structural)]
pub enum RouteOutcome {
    ListPets { limit: u32, offset: u32 },
    CreatePet,
    GetPet { id: u64 },
    NotFound,
}

/// An absent or unparsable parameter silently falls back to the default.
pub open spec fn default_or(o: Option<u32>, d: u32) -> u32 {
    match o {
        Some(v) => v,
        None => d,
    }
}

/// The route a request head selects. `limit` defaults to 25 and `offset` to
/// 0; an id segment that does not parse as `u64` makes the route miss
/// entirely, so such a request falls through to not-found.
pub open spec fn route_of(method: Seq<u8>, path: Seq<u8>, query: Seq<u8>) -> RouteOutcome {
    let segs = path_segments(path);
    if method == lit_get() && segs == seq![lit_pets()] {
        RouteOutcome::ListPets {
            limit: default_or(query_param_u32(query, lit_limit()), 25),
            offset: default_or(query_param_u32(query, lit_offset()), 0),
        }
    } else if method == lit_post() && segs == seq![lit_pets()] {
        RouteOutcome::CreatePet
    } else if method == lit_get() && segs.len() == 2 && segs[0] == lit_pets() {
        match parse_u64_spec(segs[1]) {
            Some(id) => RouteOutcome::GetPet { id },
            None => RouteOutcome::NotFound,
        }
    } else {
        RouteOutcome::NotFound
    }
}

/// Classifies one request head against the route table.
pub fn router(method: &Vec<u8>, path: &Vec<u8>, query: &Vec<u8>) -> (r: RouteOutcome)
    ensures
        r == route_of(method@, path@, query@),
{
    let segs = get_path_segments(path);
    let ghost sv = views(segs@);
    let get_lit = get_vec();
    let post_lit = post_vec();
    let pets_lit = pets_vec();
    let is_get = bytes_eq(method, &get_lit);
    let is_post = bytes_eq(method, &post_lit);
    if segs.len() == 1 && (is_get || is_post) {
        proof {
            assert(sv[0] == segs@[0]@);
        }
        if bytes_eq(&segs[0], &pets_lit) {
            proof {
                assert(sv =~= seq![lit_pets()]);
            }
            if is_get {
                let limit_lit = limit_vec();
                let offset_lit = offset_vec();
                let limit = match get_query_parameter(query, &limit_lit) {
                    Some(v) => v,
                    None => 25,
                };
                let offset = match get_query_parameter(query, &offset_lit) {
                    Some(v) => v,
                    None => 0,
                };
                RouteOutcome::ListPets { limit, offset }
            } else {
                RouteOutcome::CreatePet
            }
        } else {
            proof {
                if sv == seq![lit_pets()] {
                    assert(sv[0] == lit_pets());
                }
            }
            RouteOutcome::NotFound
        }
    } else if segs.len() == 2 && is_get {
        proof {
            assert(sv[0] == segs@[0]@);
            assert(sv[1] == segs@[1]@);
            if sv == seq![lit_pets()] {
                assert(sv.len() == 1);
            }
        }
        if bytes_eq(&segs[0], &pets_lit) {
            match parse_u64(&segs[1]) {
                Some(id) => RouteOutcome::GetPet { id },
                None => RouteOutcome::NotFound,
            }
        } else {
            RouteOutcome::NotFound
        }
    } else {
        proof {
            if sv == seq![lit_pets()] {
                assert(sv.len() == 1);
            }
        }
        RouteOutcome::NotFound
    }
}

/// What one routed request answers: the response itself, or, for a create,
/// the direction to receive the body first.
#[derive(Debug)]
pub enum RouterStep {
    Response(HttpResponse),
    NeedsBody,
}

/// Routes one request head and runs its handler. A create answers nothing
/// yet: the body must be received in full first and handed to
/// [`handle_create_body`]; every other route resolves at once.
pub fn handle_request(method: &Vec<u8>, path: &Vec<u8>, query: &Vec<u8>) -> (r: RouterStep)
    ensures
        match route_of(method@, path@, query@) {
            RouteOutcome::ListPets { limit, offset } => (r matches RouterStep::Response(resp)
                && is_list_response(resp@, limit, offset)),
            RouteOutcome::CreatePet => r is NeedsBody,
            RouteOutcome::GetPet { id } => (r matches RouterStep::Response(resp)
                && is_get_response(resp@, id)),
            RouteOutcome::NotFound => (r matches RouterStep::Response(resp)
                && is_not_found_response(resp@)),
        },
{
    let route = router(method, path, query);
    match route {
        RouteOutcome::ListPets { limit, offset } => RouterStep::Response(list_pets(limit, offset)),
        RouteOutcome::CreatePet => RouterStep::NeedsBody,
        RouteOutcome::GetPet { id } => RouterStep::Response(show_pet_by_id(id)),
        RouteOutcome::NotFound => RouterStep::Response(not_found()),
    }
}

/// Completes a create once the body has arrived in full: 201 with an empty
/// body exactly when the body is a well-formed pet document, and nothing
/// otherwise — the embedding program then abandons the request, as a
/// malformed body is fatal to it.
pub fn handle_create_body(body: &Vec<u8>) -> (r: Option<HttpResponse>)
    ensures
        r is Some <==> pet_of_json(body@) is Some,
        (r matches Some(resp) ==> is_created_response(resp@)),
{
    match parse_pet(body) {
        Some(pet) => Some(create_pets(pet)),
        None => None,
    }
}

} // verus!
