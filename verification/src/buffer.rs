//! Byte buffers and payload copies.
//!
//! Every buffer in the subsystem has the fixed length [`crate::BUF_SIZE`];
//! the helpers here copy payloads between such buffers and relate a vector of
//! payloads to its mathematical view.

use vstd::prelude::*;

use crate::BUF_SIZE;

verus! {

/// A byte sequence of exactly the fixed transfer-buffer length.
pub open spec fn is_payload(s: Seq<u8>) -> bool {
    s.len() == BUF_SIZE
}

/// The mathematical contents of a vector of payloads: each element replaced
/// by its byte sequence.
pub open spec fn payloads(s: Seq<Vec<u8>>) -> Seq<Seq<u8>> {
    s.map_values(|v: Vec<u8>| v@)
}

/// Appending a payload to a vector appends its byte sequence to the view.
pub proof fn lemma_payloads_push(s: Seq<Vec<u8>>, v: Vec<u8>)
    ensures
        payloads(s.push(v)) == payloads(s).push(v@),
{
    assert(payloads(s.push(v)) =~= payloads(s).push(v@));
}

/// Overwrite `dst` entirely with the bytes of `src`, in place.  The
/// destination keeps its identity; only its contents change.
pub fn copy_into(dst: &mut Vec<u8>, src: &Vec<u8>)
    requires
        old(dst)@.len() == src@.len(),
    ensures
        final(dst)@ == src@,
{
    let n = src.len();
    let mut i: usize = 0;
    while i < n
        invariant
            i <= n,
            n == src@.len(),
            dst@.len() == n,
            forall|j: int| 0 <= j < i ==> dst@[j] == src@[j],
        decreases n - i,
    {
        let b = src[i];
        dst.set(i, b);
        i = i + 1;
    }
    assert(dst@ =~= src@);
}

/// Duplicate a payload by value, leaving the source untouched.
pub fn clone_payload(src: &Vec<u8>) -> (r: Vec<u8>)
    ensures
        r@ == src@,
{
    let n = src.len();
    let mut r: Vec<u8> = Vec::new();
    let mut i: usize = 0;
    while i < n
        invariant
            i <= n,
            n == src@.len(),
            r@.len() == i,
            forall|j: int| 0 <= j < i ==> r@[j] == src@[j],
        decreases n - i,
    {
        let b = src[i];
        r.push(b);
        i = i + 1;
    }
    assert(r@ =~= src@);
    r
}

} // verus!
