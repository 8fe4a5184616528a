use btc_balance::{
    address_from_key_response, aggregate, balance_from_response, connectivity_status,
    count_from_response, count_utxos, derive_address, get_key_id, get_network, key_request,
    plan_address, utxos_request, AddressPlan, EcdsaCurve, Network, Outpoint, SegwitKey,
    ServiceError, Utxo,
};

const GENERATOR_COMPRESSED: &str =
    "0279be667ef9dcbbac55a06295ce870b07029bfcdb2dce28d959f2815b16f81798";
const GENERATOR_UNCOMPRESSED: &str = "0479be667ef9dcbbac55a06295ce870b07029bfcdb2dce28d959f2815b16f81798483ada7726a3c4655da4fbfc0e1108a8fd17b448a68554199c47d08ffb10d4b8";

fn hex_bytes(s: &str) -> Vec<u8> {
    (0..s.len())
        .step_by(2)
        .map(|i| u8::from_str_radix(&s[i..i + 2], 16).unwrap())
        .collect()
}

fn utxo(value: u64, vout: u32) -> Utxo {
    Utxo { outpoint: Outpoint { txid: vec![0xab; 32], vout }, value, height: 100 + vout }
}

fn utxos(values: &[u64]) -> Vec<Utxo> {
    values.iter().enumerate().map(|(i, v)| utxo(*v, i as u32)).collect()
}

#[test]
fn configured_key_and_network() {
    let key_id = get_key_id();
    assert_eq!(key_id.curve, EcdsaCurve::Secp256k1);
    assert_eq!(key_id.name, "test_key_1");
    assert_eq!(get_network(), Network::Testnet);
}

#[test]
fn compressed_key_gives_testnet_segwit_address() {
    let key = hex_bytes(GENERATOR_COMPRESSED);
    assert_eq!(
        derive_address(&key, Network::Testnet),
        Ok("tb1qw508d6qejxtdg4y5r3zarvary0c5xw7kxpjzsx".to_string())
    );
    assert_eq!(
        derive_address(&key, Network::Bitcoin),
        Ok("bc1qw508d6qejxtdg4y5r3zarvary0c5xw7kv8f3t4".to_string())
    );
}

#[test]
fn uncompressed_key_gives_no_segwit_address() {
    let key = hex_bytes(GENERATOR_UNCOMPRESSED);
    assert!(SegwitKey::from_slice(&key).is_ok());
    assert_eq!(derive_address(&key, Network::Testnet), Err(ServiceError::AddressConstructionError));
}

#[test]
fn malformed_key_is_invalid() {
    assert_eq!(derive_address(&vec![1, 2, 3], Network::Testnet), Err(ServiceError::InvalidKey));
    let mut bad_prefix = hex_bytes(GENERATOR_COMPRESSED);
    bad_prefix[0] = 0x05;
    assert_eq!(derive_address(&bad_prefix, Network::Testnet), Err(ServiceError::InvalidKey));
    assert!(SegwitKey::from_slice(&vec![]).is_err());
}

#[test]
fn derivation_is_deterministic() {
    let caller = vec![7u8, 1, 2, 3];
    let q1 = key_request(&caller);
    let q2 = key_request(&caller);
    assert_eq!(q1.derivation_path, vec![caller.clone()]);
    assert_eq!(q1.derivation_path, q2.derivation_path);
    assert_eq!(q1.key_id.name, q2.key_id.name);
    let key = hex_bytes(GENERATOR_COMPRESSED);
    let a1 = address_from_key_response(Ok(key.clone()));
    let a2 = address_from_key_response(Ok(key));
    assert_eq!(a1, a2);
    assert_eq!(a1, Ok("tb1qw508d6qejxtdg4y5r3zarvary0c5xw7kxpjzsx".to_string()));
}

#[test]
fn key_derivation_failure_is_reported() {
    assert_eq!(
        address_from_key_response(Err("key not provisioned".to_string())),
        Err(ServiceError::KeyDerivationFailed("key not provisioned".to_string()))
    );
    assert_eq!(address_from_key_response(Ok(vec![0u8; 10])), Err(ServiceError::InvalidKey));
}

#[test]
fn aggregation_sums_values_and_counts() {
    let info = balance_from_response("tb1qexample".to_string(), Ok(utxos(&[5000, 12345, 300]))).unwrap();
    assert_eq!(info.address, "tb1qexample");
    assert_eq!(info.balance_sats, 17645);
    assert_eq!(info.utxo_count, 3);
    assert_eq!(info.utxos, utxos(&[5000, 12345, 300]));
    assert_eq!(aggregate(&utxos(&[5000, 12345, 300])), Ok((17645, 3)));
}

#[test]
fn empty_set_has_zero_balance() {
    let info = balance_from_response("tb1qempty".to_string(), Ok(vec![])).unwrap();
    assert_eq!(info.balance_sats, 0);
    assert_eq!(info.utxo_count, 0);
    assert!(info.utxos.is_empty());
    assert_eq!(count_from_response(Ok(vec![])), Ok(0));
}

#[test]
fn address_override_skips_key_derivation() {
    match plan_address(Some("tb1qexample".to_string())) {
        AddressPlan::Given(a) => assert_eq!(a, "tb1qexample"),
        AddressPlan::DeriveForCaller => panic!("a named address must be used as given"),
    }
    assert_eq!(plan_address(None), AddressPlan::DeriveForCaller);
}

#[test]
fn surrounding_whitespace_is_ignored() {
    assert_eq!(
        plan_address(Some("  tb1qexample  ".to_string())),
        plan_address(Some("tb1qexample".to_string()))
    );
    assert_eq!(
        plan_address(Some("\t tb1q example\n".to_string())),
        AddressPlan::Given("tb1q example".to_string())
    );
}

#[test]
fn utxos_request_uses_configured_network() {
    let q = utxos_request(&"tb1qexample".to_string());
    assert_eq!(q.network, Network::Testnet);
    assert_eq!(q.address, "tb1qexample");
}

#[test]
fn connectivity_online() {
    assert_eq!(connectivity_status(Ok(())), "ICP Connection: ONLINE.");
}

#[test]
fn connectivity_offline_reports_error() {
    let status = connectivity_status(Err("(SysTransient, \"unreachable\")".to_string()));
    assert_eq!(status, "ICP Connection: OFFLINE. Error: (SysTransient, \"unreachable\")");
    assert!(status.contains("OFFLINE"));
}

#[test]
fn count_matches_balance_report() {
    for values in [vec![], vec![1u64], vec![5000, 12345, 300], vec![7; 40]] {
        let info = balance_from_response("tb1q".to_string(), Ok(utxos(&values))).unwrap();
        assert_eq!(count_from_response(Ok(utxos(&values))), Ok(info.utxo_count));
    }
    assert_eq!(count_utxos(&utxos(&[u64::MAX, 1])), Ok(2));
}

#[test]
fn overflowing_total_is_refused() {
    assert_eq!(
        balance_from_response("tb1q".to_string(), Ok(utxos(&[u64::MAX, 1]))),
        Err(ServiceError::AmountOverflow)
    );
    assert_eq!(aggregate(&utxos(&[u64::MAX - 1, 1])), Ok((u64::MAX, 2)));
    assert_eq!(aggregate(&utxos(&[u64::MAX / 2 + 1, u64::MAX / 2 + 1])), Err(ServiceError::AmountOverflow));
}

#[test]
fn chain_data_failure_is_reported() {
    let e = "canister rejected".to_string();
    assert_eq!(
        balance_from_response("tb1q".to_string(), Err(e.clone())),
        Err(ServiceError::ChainDataUnavailable(e.clone()))
    );
    assert_eq!(count_from_response(Err(e.clone())), Err(ServiceError::ChainDataUnavailable(e)));
}
