//! Identifiers drawn at random, for tests and placeholders.

use crate::node_id::NodeId;
use ethereum_types::H256;
use vstd::prelude::*;

verus! {

/// Draws 32 bytes from the operating system's generator, by
/// `ethereum_types::H256::random`.
///
/// Trusted, not proved. Nothing is claimed of the bytes: each call may give
/// others. The outside function stops the program where the operating system
/// cannot supply random bytes.
#[verifier::external_body]
fn random_bytes() -> (bytes: [u8; 32]) {
    H256::random().to_fixed_bytes()
}

impl NodeId {
    /// An identifier of 32 random bytes. It is no node's own: use it where a
    /// placeholder is wanted, never in place of one derived from a key.
    pub fn random() -> (id: NodeId) {
        let bytes = random_bytes();
        NodeId::new(&bytes)
    }
}

} // verus!
