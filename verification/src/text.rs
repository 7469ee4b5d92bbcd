//! Byte-string helpers: splitting on a separator, trimming a repeated
//! character from both ends, and equality of byte vectors.

use vstd::prelude::*;

verus! {

/// The views of a sequence of byte vectors.
pub open spec fn views(r: Seq<Vec<u8>>) -> Seq<Seq<u8>> {
    r.map_values(|v: Vec<u8>| v@)
}

/// The pieces of `s` between occurrences of `sep`. Always at least one piece;
/// an empty input yields one empty piece, as `str::split` does.
pub open spec fn split(s: Seq<u8>, sep: u8) -> Seq<Seq<u8>>
    decreases s.len(),
{
    if s.len() == 0 {
        seq![Seq::<u8>::empty()]
    } else if s.last() == sep {
        split(s.drop_last(), sep).push(Seq::<u8>::empty())
    } else {
        let r = split(s.drop_last(), sep);
        r.update(r.len() - 1, r.last().push(s.last()))
    }
}

pub proof fn lemma_split_nonempty(s: Seq<u8>, sep: u8)
    ensures
        split(s, sep).len() >= 1,
    decreases s.len(),
{
    if s.len() > 0 {
        lemma_split_nonempty(s.drop_last(), sep);
    }
}

/// `s` without its leading run of `c`.
pub open spec fn trim_leading(s: Seq<u8>, c: u8) -> Seq<u8>
    decreases s.len(),
{
    if s.len() > 0 && s[0] == c {
        trim_leading(s.skip(1), c)
    } else {
        s
    }
}

/// `s` without its trailing run of `c`.
pub open spec fn trim_trailing(s: Seq<u8>, c: u8) -> Seq<u8>
    decreases s.len(),
{
    if s.len() > 0 && s.last() == c {
        trim_trailing(s.drop_last(), c)
    } else {
        s
    }
}

/// `s` without the runs of `c` at either end, as `str::trim_matches` gives it.
pub open spec fn trim(s: Seq<u8>, c: u8) -> Seq<u8> {
    trim_trailing(trim_leading(s, c), c)
}

/// Compares two byte vectors.
pub fn bytes_eq(a: &Vec<u8>, b: &Vec<u8>) -> (r: bool)
    ensures
        r == (a@ == b@),
{
    if a.len() != b.len() {
        proof {
            assert(a@.len() != b@.len());
        }
        return false;
    }
    let mut i: usize = 0;
    while i < a.len()
        invariant
            i <= a@.len(),
            a@.len() == b@.len(),
            forall|j: int| 0 <= j < i ==> a@[j] == b@[j],
        decreases a@.len() - i,
    {
        if a[i] != b[i] {
            return false;
        }
        i = i + 1;
    }
    proof {
        assert(a@ =~= b@);
    }
    true
}

/// Splits `s` on `sep`, keeping empty pieces, as `str::split` does.
pub fn split_bytes(s: &Vec<u8>, sep: u8) -> (r: Vec<Vec<u8>>)
    ensures
        views(r@) == split(s@, sep),
{
    let mut segs: Vec<Vec<u8>> = Vec::new();
    let mut cur: Vec<u8> = Vec::new();
    let mut i: usize = 0;
    while i < s.len()
        invariant
            i <= s@.len(),
            views(segs@).push(cur@) == split(s@.take(i as int), sep),
        decreases s@.len() - i,
    {
        let ghost pre = s@.take(i as int);
        let b = s[i];
        if b == sep {
            segs.push(cur);
            cur = Vec::new();
        } else {
            cur.push(b);
        }
        i = i + 1;
        proof {
            assert(s@.take(i as int).drop_last() =~= pre);
            assert(s@.take(i as int).last() == b);
            if b == sep {
                assert(views(segs@).push(cur@) =~= split(pre, sep).push(Seq::<u8>::empty()));
            } else {
                let r = split(pre, sep);
                assert(views(segs@).push(cur@) =~= r.update(r.len() - 1, r.last().push(b)));
            }
        }
    }
    segs.push(cur);
    proof {
        assert(s@.take(i as int) =~= s@);
        assert(views(segs@) =~= split(s@, sep));
    }
    segs
}

/// Trims the runs of `c` from both ends of `s`, as `str::trim_matches` does.
pub fn trim_bytes(s: &Vec<u8>, c: u8) -> (r: Vec<u8>)
    ensures
        r@ == trim(s@, c),
{
    let mut lo: usize = 0;
    proof {
        assert(s@.skip(0) =~= s@);
    }
    while lo < s.len() && s[lo] == c
        invariant
            lo <= s@.len(),
            trim_leading(s@, c) == trim_leading(s@.skip(lo as int), c),
        decreases s@.len() - lo,
    {
        proof {
            assert(s@.skip(lo as int).skip(1) =~= s@.skip(lo as int + 1));
        }
        lo = lo + 1;
    }
    let ghost t = s@.skip(lo as int);
    proof {
        assert(trim_leading(s@, c) == t);
    }
    let mut hi: usize = s.len();
    proof {
        assert(s@.subrange(lo as int, hi as int) =~= t);
    }
    while hi > lo && s[hi - 1] == c
        invariant
            lo <= hi <= s@.len(),
            trim_trailing(t, c) == trim_trailing(s@.subrange(lo as int, hi as int), c),
        decreases hi,
    {
        proof {
            let sub = s@.subrange(lo as int, hi as int);
            assert(sub.last() == s@[hi - 1]);
            assert(sub.drop_last() =~= s@.subrange(lo as int, hi as int - 1));
        }
        hi = hi - 1;
    }
    let ghost sub = s@.subrange(lo as int, hi as int);
    proof {
        assert(trim_trailing(t, c) == sub);
    }
    let mut r: Vec<u8> = Vec::new();
    let mut j: usize = lo;
    while j < hi
        invariant
            lo <= j <= hi <= s@.len(),
            r@ =~= s@.subrange(lo as int, j as int),
        decreases hi - j,
    {
        let b = s[j];
        r.push(b);
        j = j + 1;
    }
    proof {
        assert(r@ =~= sub);
    }
    r
}

} // verus!
