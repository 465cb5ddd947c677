use cosmos_event_source::call::{FetchBlocks as PluginFetchBlocks, ModuleCall};
use cosmos_event_source::chain_event::{ChainEvent, ClientInfo, FullEvent, IbcSpecId};
use cosmos_event_source::height::Height;
use cosmos_event_source::ibc_union;
use cosmos_event_source::ids::{ChainId, ClientType, H256};
use cosmos_event_source::module::Module;
use cosmos_event_source::op::{active_paths, get_node, splice, Call, FetchBlocks, Op};

fn dummy_data(tag: u32) -> Op {
    Op::Data(ChainEvent {
        chain_id: ChainId::new("union-1".to_string()),
        client_info: ClientInfo {
            client_type: ClientType::new("cometbls".to_string()),
            ibc_interface: "ibc-go-v8/08-wasm".to_string(),
        },
        counterparty_chain_id: ChainId::new("osmosis-1".to_string()),
        tx_hash: H256::try_from_bytes(vec![0u8; 32]).unwrap(),
        provable_height: Height {
            revision: 1,
            height: 1,
        },
        ibc_spec_id: IbcSpecId::Union,
        event: FullEvent::Union(ibc_union::FullEvent::CreateClient(ibc_union::CreateClient {
            client_id: tag,
            client_type: ClientType::new("cometbls".to_string()),
        })),
    })
}

fn plugin_call(height: u64) -> Op {
    Op::Call(Call::Plugin(ModuleCall::FetchBlocks(PluginFetchBlocks {
        height: Height {
            revision: 1,
            height,
        },
    })))
}

#[test]
fn sequential_only_exposes_the_first_pending_child() {
    let op = Op::Sequential(vec![plugin_call(1), plugin_call(2)]);
    let paths = active_paths(&op);
    assert_eq!(paths, vec![vec![0]]);
}

#[test]
fn sequential_advances_once_the_head_is_data() {
    let op = Op::Sequential(vec![dummy_data(0), plugin_call(2)]);
    let paths = active_paths(&op);
    assert_eq!(paths, vec![vec![1]]);
}

#[test]
fn sequential_with_all_data_is_quiet() {
    let op = Op::Sequential(vec![dummy_data(0), dummy_data(1)]);
    assert!(active_paths(&op).is_empty());
}

#[test]
fn concurrent_exposes_every_child() {
    let op = Op::Concurrent(vec![plugin_call(1), plugin_call(2)]);
    let mut paths = active_paths(&op);
    paths.sort();
    assert_eq!(paths, vec![vec![0], vec![1]]);
}

#[test]
fn concurrent_accepts_both_completion_orders() {
    // Evaluate b before a, then a: both orders must be accepted and end in
    // the same fully reduced tree.
    for order in [[0usize, 1usize], [1usize, 0usize]] {
        let mut op = Op::Concurrent(vec![plugin_call(1), plugin_call(2)]);
        for &child in order.iter() {
            let paths = active_paths(&op);
            assert!(paths.contains(&vec![child]));
            op = splice(op, &vec![child], 0, dummy_data(child as u32));
        }
        assert!(active_paths(&op).is_empty());
        assert_eq!(
            op,
            Op::Concurrent(vec![dummy_data(0), dummy_data(1)]),
        );
    }
}

#[test]
fn sequential_never_runs_the_tail_first() {
    // Evaluating b before a is impossible: b's path never becomes active
    // until a has reduced to data.
    let mut op = Op::Sequential(vec![plugin_call(1), plugin_call(2)]);
    let paths = active_paths(&op);
    assert!(!paths.contains(&vec![1]));
    op = splice(op, &vec![0], 0, dummy_data(0));
    let paths = active_paths(&op);
    assert_eq!(paths, vec![vec![1]]);
}

#[test]
fn splice_replaces_exactly_the_addressed_node() {
    let op = Op::Concurrent(vec![
        plugin_call(1),
        Op::Sequential(vec![plugin_call(2), plugin_call(3)]),
    ]);
    let spliced = splice(op, &vec![1, 0], 0, dummy_data(7));
    assert_eq!(
        get_node(&spliced, &vec![1, 0], 0),
        Some(&dummy_data(7)),
    );
    assert_eq!(get_node(&spliced, &vec![0], 0), Some(&plugin_call(1)));
    assert_eq!(get_node(&spliced, &vec![1, 1], 0), Some(&plugin_call(3)));
    assert_eq!(get_node(&spliced, &vec![2], 0), None);
}

#[test]
fn run_pass_claims_matching_fetch_blocks() {
    let m = Module::new("union-testnet-8".to_string(), String::new()).unwrap();
    let start = Height {
        revision: 8,
        height: 100,
    };
    let mine = Op::Call(Call::FetchBlocks(FetchBlocks {
        chain_id: ChainId::new("union-testnet-8".to_string()),
        start_height: start,
    }));
    let foreign = Op::Call(Call::FetchBlocks(FetchBlocks {
        chain_id: ChainId::new("osmosis-1".to_string()),
        start_height: start,
    }));
    let unrelated = plugin_call(5);

    let result = m.run_pass(vec![mine, foreign, unrelated]);
    assert!(result.optimize_further.is_empty());
    assert_eq!(result.ready.len(), 3);
    assert_eq!(result.ready[0].0, vec![0]);
    assert_eq!(
        result.ready[0].1,
        Op::Call(Call::Plugin(ModuleCall::FetchBlocks(PluginFetchBlocks {
            height: start,
        })))
    );
    assert_eq!(result.ready[1].0, vec![1]);
    assert_eq!(
        result.ready[1].1,
        Op::Call(Call::FetchBlocks(FetchBlocks {
            chain_id: ChainId::new("osmosis-1".to_string()),
            start_height: start,
        }))
    );
    assert_eq!(result.ready[2].0, vec![2]);
    assert_eq!(result.ready[2].1, plugin_call(5));
}
