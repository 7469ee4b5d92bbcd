//! The data model: the pet resource, the transient collection a list request
//! builds, the error record of the failure paths, and the structured HTTP
//! response the handlers produce.

use vstd::prelude::*;

verus! {

/// The pet resource. Identity is `id`; `name` and `tag` hold the UTF-8 bytes
/// of the corresponding JSON strings, `tag` being optional.
#[derive(Debug, Clone, PartialEq, Eq)]
pub struct Pet {
    pub id: u64,
    pub name: Vec<u8>,
    pub tag: Option<Vec<u8>>,
}

/// Mathematical image of a [`Pet`].
#[verifier::ext_equal]
pub struct PetView {
    pub id: u64,
    pub name: Seq<u8>,
    pub tag: Option<Seq<u8>>,
}

impl View for Pet {
    type V = PetView;

    open spec fn view(&self) -> PetView {
        PetView {
            id: self.id,
            name: self.name@,
            tag: match self.tag {
                Some(t) => Some(t@),
                None => None,
            },
        }
    }
}

/// An ordered collection of pets, built per list request and never stored.
#[derive(Debug, Clone, PartialEq, Eq)]
pub struct Pets {
    pub items: Option<Vec<Pet>>,
}

/// Mathematical image of a [`Pets`] collection.
#[verifier::ext_equal]
pub struct PetsView {
    pub items: Option<Seq<PetView>>,
}

impl View for Pets {
    type V = PetsView;

    open spec fn view(&self) -> PetsView {
        PetsView {
            items: match self.items {
                Some(v) => Some(v@.map_values(|p: Pet| p@)),
                None => None,
            },
        }
    }
}

/// The error record of the API's failure paths. The current handlers never
/// emit one: route misses answer with a bare 404, and a malformed create body
/// aborts the request instead of producing a structured error body.
#[derive(Debug, Clone, PartialEq, Eq)]
pub struct ApiError {
    pub code: u32,
    pub message: Vec<u8>,
}

/// A structured HTTP response: status code, headers in order, and the body
/// bytes. The embedding program turns this into a wire response unmodified.
#[derive(Debug, Clone, PartialEq, Eq)]
pub struct HttpResponse {
    pub status: u16,
    pub headers: Vec<(Vec<u8>, Vec<u8>)>,
    pub body: Vec<u8>,
}

/// Mathematical image of an [`HttpResponse`].
#[verifier::ext_equal]
pub struct HttpResponseView {
    pub status: u16,
    pub headers: Seq<(Seq<u8>, Seq<u8>)>,
    pub body: Seq<u8>,
}

impl View for HttpResponse {
    type V = HttpResponseView;

    open spec fn view(&self) -> HttpResponseView {
        HttpResponseView {
            status: self.status,
            headers: self.headers@.map_values(|h: (Vec<u8>, Vec<u8>)| (h.0@, h.1@)),
            body: self.body@,
        }
    }
}

/// View of an optional byte vector.
pub open spec fn opt_view(o: Option<Vec<u8>>) -> Option<Seq<u8>> {
    match o {
        Some(v) => Some(v@),
        None => None,
    }
}

} // verus!
