//! Core operations for an account-based ledger service: Ed25519 keypair
//! handling, message signing and verification, deterministic derivation of
//! program-owned addresses, and assembly of ledger instruction descriptors.
//!
//! Every function here is a pure computation over plain values; the network
//! layer around it lives outside this crate and hands in already-decoded
//! request fields.

pub mod address;
pub mod codec;
pub mod errors;
pub mod instruction;
pub mod keys;
pub mod response;
pub mod service;
pub mod sign;
pub mod validate;
