use vstd::prelude::*;

verus! {

/// The 32-byte digest the hashing primitive assigns to a byte string. The
/// digest depends on the bytes alone: the same input always gives the same
/// digest, on every machine.
pub uninterp spec fn sha256_of(bytes: Seq<u8>) -> Seq<u8>;

/// Digest of a submitted proof artifact, stored in the vote record in place
/// of the artifact itself.
///
/// Relies on sha2's `Sha256` through `digest::Digest::digest`: a pure
/// function from the input bytes to a 32-byte digest.
#[verifier::external_body]
pub(crate) fn hash_zk_proof(proof: &[u8]) -> (r: [u8; 32])
    ensures
        r@ == sha256_of(proof@),
{
    let digest = <sha2::Sha256 as sha2::Digest>::digest(proof);
    let mut out = [0u8; 32];
    out.copy_from_slice(&digest);
    out
}

} // verus!
