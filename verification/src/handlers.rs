//! The resource handlers: list, create, get-by-id, and the not-found
//! fallback. Each builds a structured response whose status, headers and
//! body are pinned down exactly.

use vstd::prelude::*;

use crate::json::{pet_json, pets_json, pet_to_json, pets_to_json, push_all};
use crate::lit::{
    application_json_vec, content_type_vec, lit_application_json, lit_content_type, lit_next_infix,
    lit_next_prefix, lit_x_next, next_infix_vec, next_prefix_vec, x_next_vec,
};
use crate::model::{HttpResponse, HttpResponseView, Pet, PetsView};
use crate::num::{dec_digits, u64_to_dec};
use crate::store::{doa_create_pet, doa_find_pet_by_id, doa_find_pets, stub_page, stub_pet};

verus! {

/// The next-page link: `/pets?limit=<limit>&offset=<limit + offset>`. The
/// cursor advances by `limit`, never by the number of items actually
/// returned.
pub open spec fn x_next_value(limit: u32, offset: u32) -> Seq<u8> {
    lit_next_prefix() + dec_digits(limit as nat) + lit_next_infix() + dec_digits(
        (limit + offset) as nat,
    )
}

/// A list response: status 200, the `x-next` and `content-type` headers in
/// that order, and the stub page serialized as the body.
pub open spec fn is_list_response(r: HttpResponseView, limit: u32, offset: u32) -> bool {
    &&& r.status == 200
    &&& r.headers == seq![
        (lit_x_next(), x_next_value(limit, offset)),
        (lit_content_type(), lit_application_json()),
    ]
    &&& r.body == pets_json(PetsView { items: Some(stub_page(limit, offset)) })
}

/// A create response: status 201, no headers, an empty body.
pub open spec fn is_created_response(r: HttpResponseView) -> bool {
    &&& r.status == 201
    &&& r.headers == Seq::<(Seq<u8>, Seq<u8>)>::empty()
    &&& r.body == Seq::<u8>::empty()
}

/// A get-by-id response: status 200, the `content-type` header, and the
/// stub pet for `id` serialized as the body.
pub open spec fn is_get_response(r: HttpResponseView, id: u64) -> bool {
    &&& r.status == 200
    &&& r.headers == seq![(lit_content_type(), lit_application_json())]
    &&& r.body == pet_json(stub_pet(id))
}

/// The not-found response: status 404, no headers, an empty body.
pub open spec fn is_not_found_response(r: HttpResponseView) -> bool {
    &&& r.status == 404
    &&& r.headers == Seq::<(Seq<u8>, Seq<u8>)>::empty()
    &&& r.body == Seq::<u8>::empty()
}

/// Lists a page of pets: always exactly `limit` items with ids starting at
/// `offset`, and an `x-next` link whose offset has advanced by `limit`.
pub fn list_pets(limit: u32, offset: u32) -> (r: HttpResponse)
    ensures
        is_list_response(r@, limit, offset),
{
    let pets = doa_find_pets(limit, offset);
    let body = pets_to_json(&pets);
    let mut x_next = next_prefix_vec();
    let digits = u64_to_dec(limit as u64);
    push_all(&mut x_next, &digits);
    let infix = next_infix_vec();
    push_all(&mut x_next, &infix);
    let digits = u64_to_dec((limit as u64) + (offset as u64));
    push_all(&mut x_next, &digits);
    let mut headers: Vec<(Vec<u8>, Vec<u8>)> = Vec::new();
    headers.push((x_next_vec(), x_next));
    headers.push((content_type_vec(), application_json_vec()));
    let r = HttpResponse { status: 200, headers, body };
    proof {
        assert(pets@ == PetsView { items: Some(stub_page(limit, offset)) });
        assert(x_next@ =~= x_next_value(limit, offset));
        assert(r@.headers =~~= seq![
            (lit_x_next(), x_next_value(limit, offset)),
            (lit_content_type(), lit_application_json()),
        ]);
    }
    r
}

/// Creates a pet: hands it to the collaborator and answers 201 with an
/// empty body, whatever the pet holds.
pub fn create_pets(pet: Pet) -> (r: HttpResponse)
    ensures
        is_created_response(r@),
{
    doa_create_pet(pet);
    let r = HttpResponse { status: 201, headers: Vec::new(), body: Vec::new() };
    proof {
        assert(r@.headers =~~= Seq::<(Seq<u8>, Seq<u8>)>::empty());
    }
    r
}

/// Shows one pet: the stub always finds it, so the response is always 200
/// with the pet's JSON body.
pub fn show_pet_by_id(pet_id: u64) -> (r: HttpResponse)
    ensures
        is_get_response(r@, pet_id),
{
    let pet = doa_find_pet_by_id(pet_id);
    let body = pet_to_json(&pet);
    let mut headers: Vec<(Vec<u8>, Vec<u8>)> = Vec::new();
    headers.push((content_type_vec(), application_json_vec()));
    let r = HttpResponse { status: 200, headers, body };
    proof {
        assert(r@.headers =~~= seq![(lit_content_type(), lit_application_json())]);
    }
    r
}

/// The fallback: 404 with an empty body and no headers.
pub fn not_found() -> (r: HttpResponse)
    ensures
        is_not_found_response(r@),
{
    let r = HttpResponse { status: 404, headers: Vec::new(), body: Vec::new() };
    proof {
        assert(r@.headers =~~= Seq::<(Seq<u8>, Seq<u8>)>::empty());
    }
    r
}

} // verus!
