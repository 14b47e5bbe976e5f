//! The identifier itself: construction, parsing and the raw 32-byte form.

use crate::digest::digest;
use crate::digest::keccak256;
use vstd::pervasive::unreached;
use vstd::prelude::*;
use vstd::std_specs::cmp::PartialEqSpec;
use vstd::std_specs::cmp::PartialEqSpecImpl;
use vstd::std_specs::convert::FromSpec;
use vstd::std_specs::convert::FromSpecImpl;

verus! {

/// Why a byte sequence could not be read as an identifier.
#[derive(Clone, Copy, Debug, PartialEq, Eq, Structural)]
pub enum NodeIdError {
    /// The input holds more than 32 bytes.
    InputTooLarge,
}

/// A node's identifier: exactly 32 bytes, compared byte for byte.
#[derive(Clone, Copy, Debug, Eq, Hash)]
pub struct NodeId {
    raw: [u8; 32],
}

/// The input followed by as many zero bytes as it takes to fill 32 positions.
///
/// The padding stands at the high positions: a short input keeps its place at
/// the front of the identifier.
pub open spec fn zero_padded(bytes: Seq<u8>) -> Seq<u8>
    recommends
        bytes.len() <= 32,
{
    Seq::new(
        32,
        |i: int|
            if i < bytes.len() {
                bytes[i]
            } else {
                0u8
            },
    )
}

impl View for NodeId {
    type V = Seq<u8>;

    /// The identifier as a sequence of 32 bytes.
    open spec fn view(&self) -> Seq<u8> {
        self.spec_raw()@
    }
}

impl PartialEq for NodeId {
    /// Compares the two identifiers byte for byte.
    fn eq(&self, other: &NodeId) -> (same: bool) {
        let mut i: usize = 0;
        while i < 32
            invariant
                i <= 32,
                forall|j: int| 0 <= j < i ==> self.raw@[j] == other.raw@[j],
            decreases 32 - i,
        {
            if self.raw[i] != other.raw[i] {
                return false;
            }
            i += 1;
        }
        assert(self.raw@ =~= other.raw@);
        true
    }
}

impl PartialEqSpecImpl for NodeId {
    open spec fn obeys_eq_spec() -> bool {
        true
    }

    /// Two identifiers are equal where their 32 bytes are.
    open spec fn eq_spec(&self, other: &NodeId) -> bool {
        self@ == other@
    }
}

impl NodeId {
    /// The raw form of the identifier.
    pub closed spec fn spec_raw(self) -> [u8; 32] {
        self.raw
    }

    /// The identifier whose bytes are `bytes`, for a sequence of 32 bytes.
    pub open spec fn from_seq(bytes: Seq<u8>) -> NodeId
        recommends
            bytes.len() == 32,
    {
        choose|id: NodeId| id@ == bytes
    }

    /// The identifier with the given raw form.
    pub open spec fn spec_new(raw: [u8; 32]) -> NodeId {
        NodeId::from_seq(raw@)
    }

    /// What reading `bytes` gives: the identifier of the zero-padded input,
    /// or `InputTooLarge` for more than 32 bytes.
    pub open spec fn spec_parse(bytes: Seq<u8>) -> Result<NodeId, NodeIdError> {
        if bytes.len() > 32 {
            Err(NodeIdError::InputTooLarge)
        } else {
            Ok(NodeId::from_seq(zero_padded(bytes)))
        }
    }

    /// The identifier derived from a public key's uncompressed encoding: the
    /// one whose bytes are the Keccak-256 digest of the encoding.
    pub open spec fn derived(encoding: Seq<u8>) -> NodeId {
        NodeId::from_seq(keccak256(encoding))
    }

    /// Builds the identifier that holds exactly the given bytes.
    pub fn new(raw_input: &[u8; 32]) -> (id: NodeId)
        ensures
            id == NodeId::spec_new(*raw_input),
            id@ == raw_input@,
            id.spec_raw() == *raw_input,
    {
        let id = NodeId { raw: *raw_input };
        proof {
            lemma_from_seq(id);
        }
        id
    }

    /// The raw form: the 32 bytes of the identifier.
    pub fn raw(&self) -> (bytes: [u8; 32])
        ensures
            bytes@ == self@,
            bytes == self.spec_raw(),
    {
        self.raw
    }

    /// Reads an identifier from at most 32 bytes, padding a shorter input
    /// with zero bytes at its end. A longer input is refused, never cut.
    pub fn parse(raw_input: &[u8]) -> (res: Result<NodeId, NodeIdError>)
        ensures
            res == NodeId::spec_parse(raw_input@),
            raw_input@.len() <= 32 ==> res is Ok && res->Ok_0@ == zero_padded(raw_input@),
            raw_input@.len() > 32 ==> res is Err && res->Err_0 == NodeIdError::InputTooLarge,
    {
        if raw_input.len() > 32 {
            return Err(NodeIdError::InputTooLarge);
        }
        let mut raw = [0u8; 32];
        let mut i: usize = 0;
        while i < raw_input.len()
            invariant
                i <= raw_input@.len() <= 32,
                forall|j: int| 0 <= j < i ==> raw@[j] == raw_input@[j],
                forall|j: int| i <= j < 32 ==> raw@[j] == 0u8,
            decreases raw_input@.len() - i,
        {
            raw[i] = raw_input[i];
            i += 1;
        }
        assert(raw@ =~= zero_padded(raw_input@));
        let id = NodeId { raw };
        proof {
            lemma_from_seq(id);
        }
        Ok(id)
    }

    /// Derives the identifier of the node whose public key has the given
    /// uncompressed encoding: the digest of the encoding, read by `parse`.
    ///
    /// The digest always holds 32 bytes, so the derivation cannot fail and
    /// nothing is padded.
    pub fn from_encoded_key(encoding: &[u8]) -> (id: NodeId)
        ensures
            id@ == keccak256(encoding@),
            id@ == zero_padded(keccak256(encoding@)),
            id == NodeId::derived(encoding@),
    {
        let hash = digest(encoding);
        match NodeId::parse(hash.as_slice()) {
            Ok(id) => {
                proof {
                    assert(zero_padded(hash@) =~= hash@);
                    lemma_from_seq(id);
                }
                id
            },
            Err(_) => unreached(),
        }
    }
}

impl From<[u8; 32]> for NodeId {
    /// The identifier with the given raw form.
    fn from(raw: [u8; 32]) -> (id: NodeId)
        ensures
            id == NodeId::spec_new(raw),
            id@ == raw@,
            id.spec_raw() == raw,
    {
        let id = NodeId { raw };
        proof {
            lemma_from_seq(id);
        }
        id
    }
}

impl FromSpecImpl<[u8; 32]> for NodeId {
    open spec fn obeys_from_spec() -> bool {
        true
    }

    open spec fn from_spec(raw: [u8; 32]) -> NodeId {
        NodeId::spec_new(raw)
    }
}

impl From<NodeId> for [u8; 32] {
    /// The raw form of the identifier.
    fn from(id: NodeId) -> (raw: [u8; 32])
        ensures
            raw == id.spec_raw(),
            raw@ == id@,
    {
        id.raw
    }
}

impl FromSpecImpl<NodeId> for [u8; 32] {
    open spec fn obeys_from_spec() -> bool {
        true
    }

    open spec fn from_spec(id: NodeId) -> [u8; 32] {
        id.spec_raw()
    }
}

/// Every identifier holds exactly 32 bytes.
pub proof fn lemma_view_len(id: NodeId)
    ensures
        id@.len() == 32,
{
}

/// An identifier is determined by its bytes: two identifiers with the same
/// 32 bytes are the same value, and compare equal.
pub proof fn lemma_view_injective(a: NodeId, b: NodeId)
    requires
        a@ == b@,
    ensures
        a == b,
        PartialEqSpec::eq_spec(&a, &b),
{
    assert(a.raw =~= b.raw);
}

/// `from_seq` undoes the view: it gives back the identifier whose bytes it
/// is handed.
pub proof fn lemma_from_seq(id: NodeId)
    ensures
        NodeId::from_seq(id@) == id,
{
    lemma_view_injective(NodeId::from_seq(id@), id);
}

/// Building an identifier from 32 bytes and asking for its raw form gives
/// the same 32 bytes back.
pub proof fn lemma_raw_of_new(raw: [u8; 32])
    ensures
        NodeId::spec_new(raw).spec_raw() == raw,
        NodeId::spec_new(raw)@ == raw@,
{
    lemma_from_seq(NodeId { raw });
}

/// The two conversions between an identifier and its raw form undo each
/// other, in both directions.
pub proof fn lemma_raw_round_trip(raw: [u8; 32], id: NodeId)
    ensures
        <[u8; 32] as FromSpec<NodeId>>::from_spec(<NodeId as FromSpec<[u8; 32]>>::from_spec(raw))
            == raw,
        <NodeId as FromSpec<[u8; 32]>>::from_spec(<[u8; 32] as FromSpec<NodeId>>::from_spec(id))
            == id,
        NodeId::spec_new(id.spec_raw()) == id,
{
    lemma_raw_of_new(raw);
    lemma_from_seq(id);
}

/// Whichever way an identifier is made from the same 32 bytes, by `new`, by
/// `parse` or by conversion from the raw form, it is the same identifier,
/// and the results compare equal.
pub proof fn lemma_constructions_agree(raw: [u8; 32])
    ensures
        NodeId::spec_parse(raw@) == Ok::<NodeId, NodeIdError>(NodeId::spec_new(raw)),
        <NodeId as FromSpec<[u8; 32]>>::from_spec(raw) == NodeId::spec_new(raw),
        PartialEqSpec::eq_spec(
            &NodeId::spec_new(raw),
            &<NodeId as FromSpec<[u8; 32]>>::from_spec(raw),
        ),
{
    assert(zero_padded(raw@) =~= raw@);
}

} // verus!
