//! The path matcher's first half: a request path becomes an ordered sequence
//! of segments by trimming leading and trailing `/` and splitting on `/`.
//! A path of `/` or the empty path yields a single empty segment.

use vstd::prelude::*;

use crate::text::{lemma_split_nonempty, split, split_bytes, trim, trim_bytes, views};

verus! {

/// ASCII code of `/`.
pub const SLASH: u8 = 47;

/// The segments of a request path.
pub open spec fn path_segments(p: Seq<u8>) -> Seq<Seq<u8>> {
    split(trim(p, SLASH), SLASH)
}

/// Every path yields at least one segment: `/` and the empty path yield a
/// single empty segment, they do not yield no segments.
pub proof fn lemma_path_has_a_segment(p: Seq<u8>)
    ensures
        path_segments(p).len() >= 1,
{
    lemma_split_nonempty(trim(p, SLASH), SLASH);
}

/// Splits a request path into its segments.
pub fn get_path_segments(path: &Vec<u8>) -> (r: Vec<Vec<u8>>)
    ensures
        views(r@) == path_segments(path@),
{
    let trimmed = trim_bytes(path, SLASH);
    split_bytes(&trimmed, SLASH)
}

} // verus!
