//! Hash functions of the sha2 crate.
use vstd::prelude::*;

verus! {

/// SHA-256 of `b`.
pub uninterp spec fn sha256(b: Seq<u8>) -> Seq<u8>;

/// `Sha256::digest` of sha2; its result is named by `sha256` and is 32
/// bytes long.
#[verifier::external_body]
pub(crate) fn sha256_digest(b: &[u8]) -> (r: Vec<u8>)
    ensures
        r@ == sha256(b@),
        r@.len() == 32,
{
    <sha2::Sha256 as sha2::Digest>::digest(b).to_vec()
}

} // verus!
