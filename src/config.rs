//! Deployment configuration: the Bitcoin network and the signing key used.
use vstd::prelude::*;

verus! {

/// A Bitcoin network.
#[derive(Clone, Copy, Debug, PartialEq, Eq, Structural)]
pub enum Network {
    Bitcoin,
    Testnet,
    Signet,
    Regtest,
}

/// The elliptic curve of a threshold signing key.
#[derive(Clone, Copy, Debug, PartialEq, Eq, Structural)]
pub enum EcdsaCurve {
    Secp256k1,
}

/// Identifies the signing key from which per-caller public keys are derived.
#[derive(Clone, Debug)]
pub struct EcdsaKeyId {
    pub curve: EcdsaCurve,
    pub name: String,
}

/// The name of the signing key this deployment uses.
pub open spec fn key_name() -> Seq<char> {
    "test_key_1"@
}

/// The network this deployment works on.
pub open spec fn configured_network() -> Network {
    Network::Testnet
}

/// The signing key this deployment derives caller keys from.
pub fn get_key_id() -> (r: EcdsaKeyId)
    ensures
        r.curve == EcdsaCurve::Secp256k1,
        r.name@ == key_name(),
{
    EcdsaKeyId { curve: EcdsaCurve::Secp256k1, name: String::from_str("test_key_1") }
}

/// The network this deployment works on.
pub fn get_network() -> (r: Network)
    ensures
        r == configured_network(),
{
    Network::Testnet
}

} // verus!
