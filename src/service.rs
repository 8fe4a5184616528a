//! Answering requests: which address a request is about, what to ask the
//! key-derivation and chain-data services, and what their answers become.
use vstd::prelude::*;

use crate::address::{address_outcome, address_result_view, derive_address};
use crate::balance::{aggregate, aggregate_outcome, count_outcome, count_utxos, utxo_total, Utxo};
use crate::config::{configured_network, get_key_id, get_network, key_name, EcdsaCurve, EcdsaKeyId, Network};
use crate::error::ServiceError;
use crate::text::{lemma_trimmed_idempotent, trim_whitespace, trimmed};

verus! {

/// An address with its balance and the unspent outputs that make it up.
#[derive(Clone, Debug, PartialEq, Eq)]
pub struct AddressInfo {
    pub address: String,
    /// The sum of the values of `utxos`, in satoshis.
    pub balance_sats: u64,
    /// The number of entries of `utxos`.
    pub utxo_count: u32,
    /// The unspent outputs, in the order the chain-data service gave them.
    pub utxos: Vec<Utxo>,
}

impl AddressInfo {
    /// The balance and the count agree with the outputs held.
    pub open spec fn wf(&self) -> bool {
        &&& self.balance_sats == utxo_total(self.utxos@)
        &&& self.utxo_count == self.utxos@.len()
    }
}

/// Where the address of a request comes from.
#[derive(Clone, Debug, PartialEq, Eq)]
pub enum AddressPlan {
    /// The caller named the address.
    Given(String),
    /// The caller's own address, derived from its public key.
    DeriveForCaller,
}

/// The address a request names, if it names one: the named text, trimmed.
pub open spec fn planned_address(target_address: Option<Seq<char>>) -> Option<Seq<char>> {
    match target_address {
        Some(t) => Some(trimmed(t)),
        None => None,
    }
}

/// The address a plan names, if it names one.
pub open spec fn plan_view(plan: AddressPlan) -> Option<Seq<char>> {
    match plan {
        AddressPlan::Given(a) => Some(a@),
        AddressPlan::DeriveForCaller => None,
    }
}

/// Decides where the address of a request comes from: a named address is
/// used as given, without its surrounding whitespace, and the key-derivation
/// service is then not asked; with none, the caller's own address is derived.
pub fn plan_address(target_address: Option<String>) -> (r: AddressPlan)
    ensures
        plan_view(r) == planned_address(target_address.deep_view()),
        target_address.is_some() <==> r is Given,
{
    match target_address {
        Some(t) => AddressPlan::Given(trim_whitespace(t.as_str())),
        None => AddressPlan::DeriveForCaller,
    }
}

/// What to ask the key-derivation service for a caller's public key.
#[derive(Clone, Debug)]
pub struct KeyRequest {
    pub derivation_path: Vec<Vec<u8>>,
    pub key_id: EcdsaKeyId,
}

/// The request derives from the configured key along a path made of the
/// caller's identifier alone.
pub open spec fn is_key_request_for(caller: Seq<u8>, q: KeyRequest) -> bool {
    &&& q.derivation_path@.len() == 1
    &&& q.derivation_path@[0]@ == caller
    &&& q.key_id.curve == EcdsaCurve::Secp256k1
    &&& q.key_id.name@ == key_name()
}

/// The key-derivation request for a caller, given the bytes of its identifier.
pub fn key_request(caller: &Vec<u8>) -> (r: KeyRequest)
    ensures
        is_key_request_for(caller@, r),
{
    let mut derivation_path: Vec<Vec<u8>> = Vec::new();
    derivation_path.push(caller.clone());
    KeyRequest { derivation_path, key_id: get_key_id() }
}

/// What to ask the chain-data service for the unspent outputs of an address.
#[derive(Clone, Debug)]
pub struct UtxosRequest {
    pub network: Network,
    pub address: String,
}

/// The unspent-outputs request for an address, on the configured network,
/// with no filter.
pub fn utxos_request(address: &String) -> (r: UtxosRequest)
    ensures
        r.network == configured_network(),
        r.address@ == address@,
{
    UtxosRequest { network: get_network(), address: address.clone() }
}

/// What the answer of the key-derivation service becomes.
pub open spec fn key_response_outcome(response: Result<Vec<u8>, String>) -> Result<Seq<char>, ServiceError> {
    match response {
        Ok(key) => address_outcome(key@, configured_network()),
        Err(m) => Err(ServiceError::KeyDerivationFailed(m)),
    }
}

/// The caller's address, from the public key the key-derivation service
/// returned, or `KeyDerivationFailed` with the service's description.
pub fn address_from_key_response(response: Result<Vec<u8>, String>) -> (r: Result<String, ServiceError>)
    ensures
        address_result_view(r) == key_response_outcome(response),
{
    match response {
        Ok(key) => derive_address(&key, get_network()),
        Err(m) => Err(ServiceError::KeyDerivationFailed(m)),
    }
}

/// What the answer of the chain-data service becomes in a balance request.
pub open spec fn is_balance_result(
    address: Seq<char>,
    response: Result<Vec<Utxo>, String>,
    r: Result<AddressInfo, ServiceError>,
) -> bool {
    match response {
        Err(m) => r == Err::<AddressInfo, ServiceError>(ServiceError::ChainDataUnavailable(m)),
        Ok(utxos) => match aggregate_outcome(utxos@) {
            Err(e) => r == Err::<AddressInfo, ServiceError>(e),
            Ok((balance, count)) => r matches Ok(info) && info.address@ == address
                && info.balance_sats == balance && info.utxo_count == count && info.utxos@ == utxos@,
        },
    }
}

/// The balance report of an address, from the unspent outputs the chain-data
/// service returned for it, or `ChainDataUnavailable` with its description.
pub fn balance_from_response(address: String, response: Result<Vec<Utxo>, String>) -> (r: Result<AddressInfo, ServiceError>)
    ensures
        is_balance_result(address@, response, r),
        r matches Ok(info) ==> info.wf(),
{
    match response {
        Ok(utxos) => match aggregate(&utxos) {
            Ok((balance_sats, utxo_count)) => Ok(AddressInfo { address, balance_sats, utxo_count, utxos }),
            Err(e) => Err(e),
        },
        Err(m) => Err(ServiceError::ChainDataUnavailable(m)),
    }
}

/// What the answer of the chain-data service becomes in a count request.
pub open spec fn count_response_outcome(response: Result<Vec<Utxo>, String>) -> Result<u32, ServiceError> {
    match response {
        Ok(utxos) => count_outcome(utxos@),
        Err(m) => Err(ServiceError::ChainDataUnavailable(m)),
    }
}

/// The number of unspent outputs the chain-data service returned, without
/// adding up their values.
pub fn count_from_response(response: Result<Vec<Utxo>, String>) -> (r: Result<u32, ServiceError>)
    ensures
        r == count_response_outcome(response),
{
    match response {
        Ok(utxos) => count_utxos(&utxos),
        Err(m) => Err(ServiceError::ChainDataUnavailable(m)),
    }
}

/// The status line for the outcome of a liveness probe of the chain-data service.
pub open spec fn status_text(probe: Result<(), String>) -> Seq<char> {
    match probe {
        Ok(_) => "ICP Connection: ONLINE."@,
        Err(e) => "ICP Connection: OFFLINE. Error: "@ + e@,
    }
}

/// Reports whether the chain-data service answered a probe; a failure is
/// reported, with its description, and never returned as an error.
pub fn connectivity_status(probe: Result<(), String>) -> (r: String)
    ensures
        r@ == status_text(probe),
{
    match probe {
        Ok(_) => String::from_str("ICP Connection: ONLINE."),
        Err(e) => {
            let mut status = String::from_str("ICP Connection: OFFLINE. Error: ");
            status.append(e.as_str());
            status
        },
    }
}

/// Resolving a caller's address is deterministic: the same caller always
/// makes the same key-derivation request, and the same returned key always
/// gives the same address.
pub proof fn law_derivation_deterministic(
    caller: Seq<u8>,
    q1: KeyRequest,
    q2: KeyRequest,
    response: Result<Vec<u8>, String>,
    a1: Result<String, ServiceError>,
    a2: Result<String, ServiceError>,
)
    requires
        is_key_request_for(caller, q1),
        is_key_request_for(caller, q2),
        address_result_view(a1) == key_response_outcome(response),
        address_result_view(a2) == key_response_outcome(response),
    ensures
        q1.derivation_path@.len() == q2.derivation_path@.len(),
        forall|i: int| 0 <= i < q1.derivation_path@.len()
            ==> #[trigger] q1.derivation_path@[i]@ == q2.derivation_path@[i]@,
        q1.key_id.curve == q2.key_id.curve,
        q1.key_id.name@ == q2.key_id.name@,
        address_result_view(a1) == address_result_view(a2),
{
}

/// A named address and the same address without its surrounding whitespace
/// resolve to the same address.
pub proof fn law_whitespace_tolerance(target_address: Seq<char>)
    ensures
        planned_address(Some(target_address)) == planned_address(Some(trimmed(target_address))),
{
    lemma_trimmed_idempotent(target_address);
}

/// Counting the outputs of an address gives the count of its balance report:
/// where the report succeeds, the count is its `utxo_count`, and where the
/// count fails, the report fails the same way.
pub proof fn law_count_matches_balance(
    address: Seq<char>,
    response: Result<Vec<Utxo>, String>,
    report: Result<AddressInfo, ServiceError>,
    count: Result<u32, ServiceError>,
)
    requires
        is_balance_result(address, response, report),
        count == count_response_outcome(response),
    ensures
        report matches Ok(info) ==> count == Ok::<u32, ServiceError>(info.utxo_count),
        count matches Err(e) ==> report == Err::<AddressInfo, ServiceError>(e),
{
}

} // verus!
