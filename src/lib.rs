//! A small balance-checking service for segwit (P2WPKH) Bitcoin addresses.
//!
//! The library holds the logic: which address a request is about, how a
//! public key becomes an address, how a set of unspent outputs becomes a
//! balance, and how the answers of the key-derivation and chain-data services
//! become a response. Talking to those services is left to the caller.

pub mod address;
pub mod balance;
pub mod config;
pub mod error;
pub mod service;
pub mod text;

pub use address::{derive_address, SegwitKey};
pub use balance::{aggregate, count_utxos, Outpoint, Utxo};
pub use config::{get_key_id, get_network, EcdsaCurve, EcdsaKeyId, Network};
pub use error::ServiceError;
pub use service::{
    address_from_key_response, balance_from_response, connectivity_status, count_from_response,
    key_request, plan_address, utxos_request, AddressInfo, AddressPlan, KeyRequest, UtxosRequest,
};
