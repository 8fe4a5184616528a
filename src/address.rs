//! Turning a caller's public key into a native segwit (P2WPKH) address.
use vstd::prelude::*;

use crate::config::Network;
use crate::error::ServiceError;

verus! {

#[verifier::external_type_specification]
#[verifier::external_body]
pub struct ExBitcoinPublicKey(bitcoin::PublicKey);

#[verifier::external_type_specification]
#[verifier::external_body]
pub struct ExBitcoinKeyError(bitcoin::key::Error);

#[verifier::external_type_specification]
#[verifier::external_body]
pub struct ExBitcoinAddressError(bitcoin::address::Error);

/// Whether `bitcoin::PublicKey::from_slice` accepts these bytes as a
/// secp256k1 public key (a valid curve point in SEC1 encoding).
pub uninterp spec fn key_parses(bytes: Seq<u8>) -> bool;

/// The text of the P2WPKH address of this (compressed) key on this network,
/// as `bitcoin::Address` displays it.
pub uninterp spec fn p2wpkh_address(key: Seq<u8>, network: Network) -> Seq<char>;

/// Relies on `bitcoin::PublicKey::from_slice`: it accepts only 33-byte
/// (compressed) and 65-byte (uncompressed) encodings, and which it accepts
/// depends on the bytes alone.
#[verifier::external_body]
fn parse_public_key(data: &[u8]) -> (r: Result<bitcoin::PublicKey, bitcoin::key::Error>)
    ensures
        r.is_ok() == key_parses(data@),
        r.is_ok() ==> (data@.len() == 33 || data@.len() == 65),
{
    bitcoin::PublicKey::from_slice(data)
}

/// A parsed secp256k1 public key, kept together with the bytes it was parsed from.
pub struct SegwitKey {
    bytes: Vec<u8>,
    inner: bitcoin::PublicKey,
}

impl SegwitKey {
    /// The SEC1 encoding this key was parsed from.
    pub closed spec fn encoding(&self) -> Seq<u8> {
        self.bytes@
    }

    /// Parses a SEC1-encoded secp256k1 public key.
    pub fn from_slice(data: &Vec<u8>) -> (r: Result<SegwitKey, ServiceError>)
        ensures
            r.is_ok() == key_parses(data@),
            r matches Ok(k) ==> k.encoding() == data@ && (data@.len() == 33 || data@.len() == 65),
            r matches Err(e) ==> e == ServiceError::InvalidKey,
    {
        match parse_public_key(data.as_slice()) {
            Ok(inner) => Ok(SegwitKey { bytes: data.clone(), inner }),
            Err(_) => Err(ServiceError::InvalidKey),
        }
    }
}

/// Relies on `bitcoin::Address::p2wpkh` and the address's `Display`: it fails
/// exactly on an uncompressed key, and the address text depends on the key and
/// the network alone. `key.inner` is always the parse of `key.bytes`, since
/// `SegwitKey::from_slice` is the only way to build a `SegwitKey`.
#[verifier::external_body]
fn p2wpkh_text(key: &SegwitKey, network: Network) -> (r: Result<String, bitcoin::address::Error>)
    ensures
        r.is_ok() == (key.encoding().len() == 33),
        r matches Ok(s) ==> s@ == p2wpkh_address(key.encoding(), network),
{
    let network = match network {
        Network::Bitcoin => bitcoin::Network::Bitcoin,
        Network::Testnet => bitcoin::Network::Testnet,
        Network::Signet => bitcoin::Network::Signet,
        Network::Regtest => bitcoin::Network::Regtest,
    };
    bitcoin::Address::p2wpkh(&key.inner, network).map(|a| a.to_string())
}

/// What deriving an address from these key bytes yields.
pub open spec fn address_outcome(key: Seq<u8>, network: Network) -> Result<Seq<char>, ServiceError> {
    if !key_parses(key) {
        Err(ServiceError::InvalidKey)
    } else if key.len() != 33 {
        Err(ServiceError::AddressConstructionError)
    } else {
        Ok(p2wpkh_address(key, network))
    }
}

/// The text of an address result, for comparing with `address_outcome`.
pub open spec fn address_result_view(r: Result<String, ServiceError>) -> Result<Seq<char>, ServiceError> {
    match r {
        Ok(s) => Ok(s@),
        Err(e) => Err(e),
    }
}

/// Derives the P2WPKH address of a SEC1-encoded public key on a network.
///
/// Fails with `InvalidKey` when the bytes are no secp256k1 public key, and with
/// `AddressConstructionError` when the key is uncompressed, which no witness
/// program of version 0 can hold.
pub fn derive_address(public_key: &Vec<u8>, network: Network) -> (r: Result<String, ServiceError>)
    ensures
        address_result_view(r) == address_outcome(public_key@, network),
{
    let key = SegwitKey::from_slice(public_key)?;
    match p2wpkh_text(&key, network) {
        Ok(s) => Ok(s),
        Err(_) => Err(ServiceError::AddressConstructionError),
    }
}

} // verus!
