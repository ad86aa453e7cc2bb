//! Commit-reveal protocol for four hidden numeric attributes, backed by a
//! zero-knowledge proof of the relation `vit + wis + pow + agi == total`
//! together with knowledge of a SHA-256 preimage of the published commitment.
//!
//! The crate covers the deterministic core of the protocol: the preimage
//! encoder, the bit-level layout the constraint circuit commits to, the
//! public-input packing the verifier re-derives, and the commit-reveal state
//! machine. The proving backend itself (bellman's Groth16 implementation) and
//! the binary codecs (base64, SHA-256, curve-point serialization) are called
//! through narrow trusted wrappers.

pub mod backend;
pub mod bits;
pub mod codec;
pub mod hidden_stats_circuit;
pub mod inputs;
pub mod sim_smart_contract;
pub mod utils;
