//! The failure taxonomy of the core operations.

use vstd::prelude::*;

verus! {

/// One typed failure per way a core operation can be refused.  Every failure
/// is recoverable at the request boundary; no operation substitutes a default
/// value for an error.
#[derive(Clone, Copy, Debug, PartialEq, Eq)]
pub enum CoreError {
    /// Malformed base58/base64 text, or a decoded value of the wrong length.
    InvalidEncoding,
    /// A secret whose embedded public half does not match its seed, or
    /// otherwise malformed key material.
    InvalidKey,
    /// A zero amount where a strictly positive one is required.
    InvalidAmount,
    /// Address derivation exhausted the whole bump range without finding an
    /// off-curve hash.
    NoAddressFound,
    /// Instruction assembly failed for a reason not otherwise classified.
    BuildError,
}

} // verus!
