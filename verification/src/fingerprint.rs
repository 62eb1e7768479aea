//! Content fingerprints.

use crate::utils::Fingerprint;
use vstd::prelude::*;

verus! {

/// The BLAKE3 digest of a byte sequence.
pub uninterp spec fn blake3_digest(data: Seq<u8>) -> [u8; 32];

/// `blake3::hash`, with the digest as plain bytes: the result is the BLAKE3
/// digest of `data`, a function of the bytes alone.
#[verifier::external_body]
pub(crate) fn blake3_hash(data: &[u8]) -> (digest: [u8; 32])
    ensures
        digest == blake3_digest(data@),
{
    blake3::hash(data).into()
}

/// The fingerprint of what a read returned, if it returned anything.
pub open spec fn spec_fingerprint(content: Option<Seq<u8>>) -> Option<Fingerprint> {
    match content {
        Some(bytes) => Some(blake3_digest(bytes)),
        None => None,
    }
}

/// Whether two fingerprints are the same bytes.
pub fn same_digest(a: &Fingerprint, b: &Fingerprint) -> (res: bool)
    ensures
        res == (*a == *b),
{
    let mut i: usize = 0;
    while i < 32
        invariant
            i <= 32,
            forall|j: int| 0 <= j < i ==> a[j] == b[j],
        decreases 32 - i,
    {
        if a[i] != b[i] {
            return false;
        }
        i += 1;
    }
    assert(*a =~= *b);
    true
}

/// Whether two optional fingerprints are the same.
pub fn same_fingerprint(a: &Option<Fingerprint>, b: &Option<Fingerprint>) -> (res: bool)
    ensures
        res == (*a == *b),
{
    match a {
        Some(x) => match b {
            Some(y) => same_digest(x, y),
            None => false,
        },
        None => match b {
            Some(_) => false,
            None => true,
        },
    }
}

} // verus!
