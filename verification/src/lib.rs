//! A 32-byte identifier for the nodes of a peer-discovery network.
//!
//! A [`NodeId`] is built from its raw bytes, drawn at random, or derived from
//! a node's public key as the Keccak-256 digest of the key's uncompressed
//! encoding. Every function carries a contract over the identifier's view, a
//! sequence of exactly 32 bytes.

pub mod digest;
pub mod display;
pub mod key;
pub mod node_id;
pub mod random;
pub mod record;

pub use node_id::{NodeId, NodeIdError};
