//! The failures a request can end in.
use vstd::prelude::*;

verus! {

/// Why a request failed. Every failure ends the request; none is retried.
#[derive(Clone, Debug, PartialEq, Eq)]
pub enum ServiceError {
    /// The key-derivation service gave no public key; holds its description.
    KeyDerivationFailed(String),
    /// The key bytes returned are no secp256k1 public key.
    InvalidKey,
    /// The key cannot be encoded as a version 0 witness program.
    AddressConstructionError,
    /// The chain-data service could not answer; holds its description.
    ChainDataUnavailable(String),
    /// The output values add up to more than a `u64` holds.
    AmountOverflow,
    /// There are more outputs than a `u32` counts.
    CountOverflow,
}

} // verus!
