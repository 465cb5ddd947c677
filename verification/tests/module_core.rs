use cosmos_event_source::ids::{InvalidLength, WasmClientType};
use cosmos_event_source::module::{ClientStateError, Module, WASM_CLIENT_STATE_TYPE_URL};

fn module(chain_id: &str) -> Module {
    Module::new(chain_id.to_string(), "http://grpc.example:9090".to_string()).unwrap()
}

#[test]
fn revision_is_parsed_from_chain_id_suffix() {
    let m = module("union-testnet-8");
    assert_eq!(m.chain_revision, 8);
    assert_eq!(m.chain_id.id, "union-testnet-8");
}

#[test]
fn revision_takes_the_last_dash() {
    assert_eq!(module("a-1-2-37").chain_revision, 37);
}

#[test]
fn all_digit_chain_id_is_its_own_revision() {
    assert_eq!(module("123").chain_revision, 123);
}

#[test]
fn chain_id_without_digits_is_rejected() {
    match Module::new("mainnet".to_string(), String::new()) {
        Err(err) => assert_eq!(err.found, "mainnet"),
        Ok(_) => panic!("a chain id without digits must be rejected"),
    }
}

#[test]
fn chain_id_with_empty_suffix_is_rejected() {
    assert!(Module::new("mainnet-".to_string(), String::new()).is_err());
}

#[test]
fn chain_id_with_mixed_suffix_is_rejected() {
    assert!(Module::new("mainnet-8b".to_string(), String::new()).is_err());
}

#[test]
fn chain_id_with_oversized_revision_is_rejected() {
    assert!(Module::new("chain-18446744073709551616".to_string(), String::new()).is_err());
}

#[test]
fn chain_id_with_max_revision_is_accepted() {
    assert_eq!(
        module("chain-18446744073709551615").chain_revision,
        u64::MAX
    );
}

#[test]
fn make_height_carries_the_revision() {
    let h = module("union-testnet-8").make_height(42);
    assert_eq!(h.revision, 8);
    assert_eq!(h.height, 42);
}

#[test]
fn latest_height_of_canonical_commit_is_the_commit() {
    let h = module("union-1").latest_height_from_commit(100, true);
    assert_eq!(h.height, 100);
}

#[test]
fn latest_height_of_non_canonical_commit_is_one_below() {
    let h = module("union-1").latest_height_from_commit(100, false);
    assert_eq!(h.height, 99);
}

#[test]
fn checksum_of_wasm_client_state_is_extracted() {
    let m = module("union-1");
    let h = m
        .checksum_from_client_state(WASM_CLIENT_STATE_TYPE_URL.to_string(), vec![5u8; 32])
        .unwrap();
    assert_eq!(h.bytes, vec![5u8; 32]);
}

#[test]
fn non_wasm_client_state_is_a_defect() {
    let m = module("union-1");
    let err = m
        .checksum_from_client_state(
            "/ibc.lightclients.tendermint.v1.ClientState".to_string(),
            vec![5u8; 32],
        )
        .unwrap_err();
    match err {
        ClientStateError::NotWasmClientState { type_url } => {
            assert_eq!(type_url, "/ibc.lightclients.tendermint.v1.ClientState");
        }
        other => panic!("unexpected error: {other:?}"),
    }
}

#[test]
fn short_checksum_is_rejected() {
    let m = module("union-1");
    assert_eq!(
        m.checksum_from_client_state(WASM_CLIENT_STATE_TYPE_URL.to_string(), vec![5u8; 31]),
        Err(ClientStateError::InvalidChecksum(InvalidLength {
            expected: 32,
            found: 31,
        }))
    );
}

#[test]
fn wasm_client_type_codes_round_trip() {
    let all = [
        WasmClientType::Cometbls,
        WasmClientType::Tendermint,
        WasmClientType::Arbitrum,
        WasmClientType::Berachain,
        WasmClientType::EthereumMinimal,
        WasmClientType::EthereumMainnet,
    ];
    for ty in all {
        assert_eq!(WasmClientType::from_code(ty.code()), Some(ty));
    }
    assert_eq!(WasmClientType::from_code(6), None);
}
