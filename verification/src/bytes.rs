//! Byte-buffer helpers shared by the sessions.

use vstd::prelude::*;

verus! {

/// An owned copy of `src`.
pub(crate) fn copy_bytes(src: &[u8]) -> (r: Vec<u8>)
    ensures
        r@ == src@,
{
    let mut v: Vec<u8> = Vec::new();
    let mut i: usize = 0;
    while i < src.len()
        invariant
            i <= src@.len(),
            v@ == src@.subrange(0, i as int),
        decreases src@.len() - i,
    {
        v.push(src[i]);
        i += 1;
        proof {
            assert(v@ =~= src@.subrange(0, i as int));
        }
    }
    proof {
        assert(v@ =~= src@);
    }
    v
}

/// A vector of `n` zero bytes.
pub(crate) fn zeroed(n: usize) -> (r: Vec<u8>)
    ensures
        r@.len() == n,
{
    let mut v: Vec<u8> = Vec::new();
    while v.len() < n
        invariant
            v@.len() <= n,
        decreases n - v@.len(),
    {
        v.push(0);
    }
    v
}

/// Whether two byte slices hold the same bytes.
pub(crate) fn bytes_eq(a: &[u8], b: &[u8]) -> (r: bool)
    ensures
        r == (a@ == b@),
{
    if a.len() != b.len() {
        return false;
    }
    let mut i: usize = 0;
    while i < a.len()
        invariant
            i <= a@.len(),
            a@.len() == b@.len(),
            forall|j: int| 0 <= j < i as int ==> a@[j] == b@[j],
        decreases a@.len() - i,
    {
        if a[i] != b[i] {
            return false;
        }
        i += 1;
    }
    proof {
        assert(a@ =~= b@);
    }
    true
}

} // verus!
