//! The data-access collaborator. Persistence is out of scope: every
//! operation is a stub over synthetic data, and the contracts here are the
//! fixed collaborator contract the handlers build on.

use vstd::prelude::*;

use crate::lit::{doe_vec, john_vec, lit_doe, lit_john};
use crate::model::{Pet, PetView, Pets, PetsView};

verus! {

/// The pet the stub synthesizes for `id`: a fixed name and tag.
pub open spec fn stub_pet(id: u64) -> PetView {
    PetView { id, name: lit_john(), tag: Some(lit_doe()) }
}

/// The page the stub synthesizes: `limit` pets with ids `offset`,
/// `offset + 1`, …, `offset + limit - 1`, in that order.
pub open spec fn stub_page(limit: u32, offset: u32) -> Seq<PetView> {
    Seq::new(limit as nat, |i: int| stub_pet((offset + i) as u64))
}

/// Finds a pet by id. The stub never fails: it synthesizes a pet with the
/// requested id and fixed name and tag.
pub fn doa_find_pet_by_id(pet_id: u64) -> (r: Pet)
    ensures
        r@ == stub_pet(pet_id),
{
    Pet { id: pet_id, name: john_vec(), tag: Some(doe_vec()) }
}

/// Finds a page of pets. The stub synthesizes exactly `limit` pets with ids
/// `offset..offset + limit`.
pub fn doa_find_pets(limit: u32, offset: u32) -> (r: Pets)
    ensures
        r@.items == Some(stub_page(limit, offset)),
{
    let mut items: Vec<Pet> = Vec::new();
    let mut i: u32 = 0;
    while i < limit
        invariant
            i <= limit,
            items@.len() == i,
            items@.map_values(|p: Pet| p@) == stub_page(i, offset),
        decreases limit - i,
    {
        let pid: u64 = (offset as u64) + (i as u64);
        let p = doa_find_pet_by_id(pid);
        let ghost prev = items@;
        items.push(p);
        i = i + 1;
        proof {
            assert(items@ == prev.push(p));
            assert forall|j: int| 0 <= j < i implies items@.map_values(|p: Pet| p@)[j]
                == stub_page(i, offset)[j] by {
                assert(items@.map_values(|p: Pet| p@)[j] == items@[j]@);
                if j < i - 1 {
                    assert(prev.map_values(|p: Pet| p@)[j] == stub_page((i - 1) as u32, offset)[j]);
                    assert(prev.map_values(|p: Pet| p@)[j] == prev[j]@);
                } else {
                    assert(items@[j] == p);
                }
            }
            assert(items@.map_values(|p: Pet| p@) =~= stub_page(i, offset));
        }
    }
    proof {
        assert(items@.map_values(|p: Pet| p@) =~= stub_page(limit, offset));
    }
    Pets { items: Some(items) }
}

/// Creates a pet. The stub records nothing; the embedding program may log
/// the creation.
pub fn doa_create_pet(pet: Pet) {
    let _ = pet;
}

} // verus!
