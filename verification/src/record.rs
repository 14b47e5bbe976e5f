//! A node record, reduced to what its identifier is read from: the public key
//! that the record was made for.

use crate::digest::keccak256;
use crate::key::EnrPublicKey;
use crate::node_id::NodeId;
use vstd::prelude::*;
use vstd::std_specs::convert::FromSpecImpl;

verus! {

/// A node record over keys of type `K`.
pub struct Enr<K: EnrPublicKey> {
    public_key: K,
}

impl<K: EnrPublicKey> Enr<K> {
    /// The public key of the record.
    pub closed spec fn spec_public_key(&self) -> &K {
        &self.public_key
    }

    /// The identifier of the record: that of its public key.
    pub open spec fn spec_node_id(&self) -> NodeId {
        NodeId::spec_from_public_key(self.spec_public_key())
    }

    /// Makes the record of the node that holds `public_key`.
    pub fn new(public_key: K) -> (enr: Enr<K>)
        ensures
            *enr.spec_public_key() == public_key,
    {
        Enr { public_key }
    }

    /// The public key of the record.
    pub fn public_key(&self) -> (key: &K)
        ensures
            key == self.spec_public_key(),
    {
        &self.public_key
    }

    /// The identifier of the record, derived from its public key. The record
    /// is only read.
    pub fn node_id(&self) -> (id: NodeId)
        ensures
            id == self.spec_node_id(),
            id@ == keccak256(self.spec_public_key().spec_encode_uncompressed()),
    {
        NodeId::from_public_key(&self.public_key)
    }
}

impl<K: EnrPublicKey> From<Enr<K>> for NodeId {
    /// The identifier of a record, as the record itself computes it.
    fn from(enr: Enr<K>) -> (id: NodeId)
        ensures
            id == enr.spec_node_id(),
    {
        enr.node_id()
    }
}

impl<K: EnrPublicKey> FromSpecImpl<Enr<K>> for NodeId {
    open spec fn obeys_from_spec() -> bool {
        true
    }

    open spec fn from_spec(enr: Enr<K>) -> NodeId {
        enr.spec_node_id()
    }
}

impl<'a, K: EnrPublicKey> From<&'a Enr<K>> for NodeId {
    /// The identifier of a record that is left with its owner.
    fn from(enr: &'a Enr<K>) -> (id: NodeId)
        ensures
            id == enr.spec_node_id(),
    {
        enr.node_id()
    }
}

impl<'a, K: EnrPublicKey> FromSpecImpl<&'a Enr<K>> for NodeId {
    open spec fn obeys_from_spec() -> bool {
        true
    }

    open spec fn from_spec(enr: &'a Enr<K>) -> NodeId {
        enr.spec_node_id()
    }
}

/// The identifier of a record is the identifier of the key that the record
/// was built from, whether the record is handed over or only lent.
pub proof fn lemma_record_delegation<K: EnrPublicKey>(enr: Enr<K>, key: K)
    requires
        *enr.spec_public_key() == key,
    ensures
        enr.spec_node_id() == NodeId::spec_from_public_key(&key),
        <NodeId as vstd::std_specs::convert::FromSpec<Enr<K>>>::from_spec(enr)
            == NodeId::spec_from_public_key(&key),
        <NodeId as vstd::std_specs::convert::FromSpec<&Enr<K>>>::from_spec(&enr)
            == NodeId::spec_from_public_key(&key),
{
}

} // verus!
