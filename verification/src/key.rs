//! Public keys, as far as an identifier needs them: a key is anything that
//! can give its uncompressed encoding.

use crate::digest::keccak256;
use crate::node_id::NodeId;
use vstd::prelude::*;

verus! {

/// A public key that can be written out in uncompressed form.
///
/// The trait is meant to be implemented for the key types of whatever
/// signature scheme a record uses. An implementation promises that the bytes
/// it hands out are the key's encoding, a function of the key alone.
pub trait EnrPublicKey {
    /// The uncompressed encoding of the key.
    spec fn spec_encode_uncompressed(&self) -> Seq<u8>;

    /// Writes the key out in uncompressed form.
    fn encode_uncompressed(&self) -> (encoding: Vec<u8>)
        ensures
            encoding@ == self.spec_encode_uncompressed(),
    ;
}

/// A public key held as its uncompressed encoding.
pub struct EncodedKey {
    bytes: Vec<u8>,
}

impl View for EncodedKey {
    type V = Seq<u8>;

    /// The bytes of the encoding.
    closed spec fn view(&self) -> Seq<u8> {
        self.bytes@
    }
}

impl EncodedKey {
    /// Takes the given bytes as a key's uncompressed encoding.
    pub fn new(bytes: Vec<u8>) -> (key: EncodedKey)
        ensures
            key@ == bytes@,
    {
        EncodedKey { bytes }
    }
}

impl EnrPublicKey for EncodedKey {
    open spec fn spec_encode_uncompressed(&self) -> Seq<u8> {
        self@
    }

    fn encode_uncompressed(&self) -> (encoding: Vec<u8>) {
        let mut encoding: Vec<u8> = Vec::new();
        let mut i: usize = 0;
        while i < self.bytes.len()
            invariant
                i <= self.bytes@.len(),
                encoding@ == self.bytes@.subrange(0, i as int),
            decreases self.bytes@.len() - i,
        {
            encoding.push(self.bytes[i]);
            assert(encoding@ =~= self.bytes@.subrange(0, i + 1));
            i += 1;
        }
        assert(encoding@ =~= self.bytes@);
        encoding
    }
}

impl NodeId {
    /// The identifier that belongs to a public key: the one derived from the
    /// key's uncompressed encoding.
    pub open spec fn spec_from_public_key<K: EnrPublicKey>(key: &K) -> NodeId {
        NodeId::derived(key.spec_encode_uncompressed())
    }

    /// Derives the identifier of the node that holds the given public key.
    pub fn from_public_key<K: EnrPublicKey>(key: &K) -> (id: NodeId)
        ensures
            id == NodeId::spec_from_public_key(key),
            id@ == keccak256(key.spec_encode_uncompressed()),
    {
        let encoding = key.encode_uncompressed();
        NodeId::from_encoded_key(encoding.as_slice())
    }
}

/// Derivation is a function of the key's encoding: two keys with the same
/// uncompressed encoding, and so one key asked twice, have the same
/// identifier.
pub proof fn lemma_derivation_deterministic<K: EnrPublicKey, L: EnrPublicKey>(first: &K, second: &L)
    requires
        first.spec_encode_uncompressed() == second.spec_encode_uncompressed(),
    ensures
        NodeId::spec_from_public_key(first) == NodeId::spec_from_public_key(second),
{
}

} // verus!
