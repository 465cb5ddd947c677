use cosmos_event_source::ids::{WasmClientType, H256};
use cosmos_event_source::module::Module;

/// Stands in for the chain's code-blob store: remembers how often it was
/// queried, and what it answers per checksum.
struct MockCodeStore {
    queries: usize,
    answer: fn(&H256) -> Option<WasmClientType>,
}

impl MockCodeStore {
    fn fetch_and_parse(&mut self, checksum: &H256) -> Option<WasmClientType> {
        self.queries += 1;
        (self.answer)(checksum)
    }
}

/// The resolution flow around the cache: answer from the cache when it
/// can, otherwise ask the store and record what parsing found.
fn client_type_of_checksum(
    module: &mut Module,
    store: &mut MockCodeStore,
    checksum: &H256,
) -> Option<WasmClientType> {
    if let Some(ty) = module.cached_client_type(checksum) {
        return Some(ty);
    }
    let parsed = store.fetch_and_parse(checksum);
    module.record_parsed_client_type(checksum, parsed)
}

fn checksum(b: u8) -> H256 {
    H256::try_from_bytes(vec![b; 32]).unwrap()
}

fn module() -> Module {
    Module::new("union-testnet-8".to_string(), String::new()).unwrap()
}

#[test]
fn repeated_lookups_hit_the_cache() {
    let mut m = module();
    let mut store = MockCodeStore {
        queries: 0,
        answer: |_| Some(WasmClientType::Cometbls),
    };
    let c = checksum(1);
    for _ in 0..10 {
        assert_eq!(
            client_type_of_checksum(&mut m, &mut store, &c),
            Some(WasmClientType::Cometbls)
        );
    }
    assert_eq!(store.queries, 1);
}

#[test]
fn failed_resolution_is_never_cached() {
    let mut m = module();
    let mut store = MockCodeStore {
        queries: 0,
        answer: |_| None,
    };
    let c = checksum(2);
    assert_eq!(client_type_of_checksum(&mut m, &mut store, &c), None);
    assert_eq!(client_type_of_checksum(&mut m, &mut store, &c), None);
    assert_eq!(store.queries, 2);
}

#[test]
fn resolution_after_failure_succeeds_and_sticks() {
    let mut m = module();
    let mut failing = MockCodeStore {
        queries: 0,
        answer: |_| None,
    };
    let c = checksum(3);
    assert_eq!(client_type_of_checksum(&mut m, &mut failing, &c), None);

    let mut working = MockCodeStore {
        queries: 0,
        answer: |_| Some(WasmClientType::Tendermint),
    };
    assert_eq!(
        client_type_of_checksum(&mut m, &mut working, &c),
        Some(WasmClientType::Tendermint)
    );
    assert_eq!(
        client_type_of_checksum(&mut m, &mut working, &c),
        Some(WasmClientType::Tendermint)
    );
    assert_eq!(working.queries, 1);
}

#[test]
fn distinct_checksums_have_distinct_entries() {
    let mut m = module();
    let mut store = MockCodeStore {
        queries: 0,
        answer: |c| {
            if c.bytes[0] == 4 {
                Some(WasmClientType::Cometbls)
            } else {
                Some(WasmClientType::Berachain)
            }
        },
    };
    let a = checksum(4);
    let b = checksum(5);
    assert_eq!(
        client_type_of_checksum(&mut m, &mut store, &a),
        Some(WasmClientType::Cometbls)
    );
    assert_eq!(
        client_type_of_checksum(&mut m, &mut store, &b),
        Some(WasmClientType::Berachain)
    );
    assert_eq!(
        client_type_of_checksum(&mut m, &mut store, &a),
        Some(WasmClientType::Cometbls)
    );
    assert_eq!(store.queries, 2);
}

#[test]
fn checksums_differing_in_one_byte_do_not_collide() {
    let mut m = module();
    let mut store = MockCodeStore {
        queries: 0,
        answer: |c| {
            if c.bytes[31] == 0 {
                Some(WasmClientType::EthereumMinimal)
            } else {
                Some(WasmClientType::EthereumMainnet)
            }
        },
    };
    let mut low = vec![7u8; 32];
    low[31] = 0;
    let mut high = vec![7u8; 32];
    high[31] = 1;
    let a = H256::try_from_bytes(low).unwrap();
    let b = H256::try_from_bytes(high).unwrap();
    assert_eq!(
        client_type_of_checksum(&mut m, &mut store, &a),
        Some(WasmClientType::EthereumMinimal)
    );
    assert_eq!(
        client_type_of_checksum(&mut m, &mut store, &b),
        Some(WasmClientType::EthereumMainnet)
    );
    assert_eq!(
        client_type_of_checksum(&mut m, &mut store, &a),
        Some(WasmClientType::EthereumMinimal)
    );
    assert_eq!(store.queries, 2);
}
