//! The digest that identifiers are derived with: Keccak-256.

use tiny_keccak::Hasher;
use tiny_keccak::Keccak;
use vstd::prelude::*;

verus! {

/// The Keccak-256 digest of `data`: the 32 bytes that `tiny_keccak`'s
/// `Keccak::v256` hasher gives for it.
///
/// The function is left uninterpreted. Nothing in this library depends on how
/// the digest is computed, only on its being a function of the input.
pub uninterp spec fn keccak256(data: Seq<u8>) -> Seq<u8>;

/// Hashes `data` with `tiny_keccak::Keccak::v256`: one `update` with the whole
/// input, then `finalize` into a buffer of 32 bytes.
///
/// Trusted, not proved: that the bytes handed back are `keccak256(data@)`,
/// that is, that the hasher's output depends on the input bytes alone. The
/// length of the output is fixed by the array type.
#[verifier::external_body]
pub(crate) fn digest(data: &[u8]) -> (out: [u8; 32])
    ensures
        out@ == keccak256(data@),
{
    let mut hasher = Keccak::v256();
    hasher.update(data);
    let mut out = [0u8; 32];
    hasher.finalize(&mut out);
    out
}

} // verus!
