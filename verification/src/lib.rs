//! Verified core of a small pet-store HTTP API.
//!
//! The crate covers everything behind the wire: splitting a request path
//! into segments, reading typed query parameters, matching the fixed route
//! table, the three resource handlers, and the JSON bodies they produce or
//! accept. Transport (listening, reading a body from the socket, writing the
//! response) is left to the embedding program, which hands this library plain
//! byte strings and gets a structured response back.

pub mod decode;
pub mod json;
pub mod laws;
pub mod lit;
pub mod model;
pub mod handlers;
pub mod num;
pub mod path;
pub mod query;
pub mod router;
pub mod store;
pub mod text;
