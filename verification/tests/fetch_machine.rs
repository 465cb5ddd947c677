use std::collections::HashSet;

use cosmos_event_source::call::ModuleCall;
use cosmos_event_source::chain_event::{ChainEvent, ClientInfo, ClientMeta, FullEvent, IbcSpecId};
use cosmos_event_source::events;
use cosmos_event_source::events::IbcEvent;
use cosmos_event_source::fetch::{TxResult, TxSearchResponse};
use cosmos_event_source::height::Height;
use cosmos_event_source::ibc_union;
use cosmos_event_source::ids::{ChainId, ClientType, H256};
use cosmos_event_source::module::Module;
use cosmos_event_source::op::{active_paths, get_node, splice, Call, Op};
use cosmos_event_source::resolve::{ClientResolution, EventAux};

fn module() -> Module {
    Module::new("union-testnet-8".to_string(), String::new()).unwrap()
}

fn height(h: u64) -> Height {
    Height {
        revision: 8,
        height: h,
    }
}

fn tx_hash(n: u64) -> H256 {
    let mut bytes = vec![0u8; 32];
    bytes[0] = (n >> 8) as u8;
    bytes[1] = n as u8;
    H256::try_from_bytes(bytes).unwrap()
}

fn native_event(n: u64) -> IbcEvent {
    IbcEvent::UnionCreateClient(events::UnionCreateClient {
        client_id: n as u32,
        client_type: "cometbls".to_string(),
    })
}

fn client_resolution() -> ClientResolution {
    ClientResolution {
        client_info: ClientInfo {
            client_type: ClientType::new("cometbls".to_string()),
            ibc_interface: "ibc-go-v8/08-wasm".to_string(),
        },
        client_meta: ClientMeta {
            chain_id: ChainId::new("osmosis-1".to_string()),
            counterparty_height: height(1),
        },
    }
}

/// A terminal marker for resolved host-level calls in these tests.
fn wait_marker() -> ChainEvent {
    ChainEvent {
        chain_id: ChainId::new("union-testnet-8".to_string()),
        client_info: ClientInfo {
            client_type: ClientType::new("cometbls".to_string()),
            ibc_interface: "ibc-go-v8/08-wasm".to_string(),
        },
        counterparty_chain_id: ChainId::new("osmosis-1".to_string()),
        tx_hash: tx_hash(u64::MAX),
        provable_height: height(1),
        ibc_spec_id: IbcSpecId::Union,
        event: FullEvent::Union(ibc_union::FullEvent::ConnectionOpenInit(
            ibc_union::ConnectionOpenInit {
                client_id: 0,
                connection_id: 0,
                counterparty_client_id: 0,
            },
        )),
    }
}

#[test]
fn fetch_blocks_emits_first_page_and_gated_advance() {
    let m = module();
    let op = m.fetch_blocks_step(height(100));
    match &op {
        Op::Concurrent(children) => {
            assert_eq!(children.len(), 2);
            assert_eq!(
                children[0],
                Op::Call(Call::Plugin(ModuleCall::FetchTransactions(
                    cosmos_event_source::call::FetchTransactions {
                        height: height(100),
                        page: 1,
                    }
                )))
            );
            match &children[1] {
                Op::Sequential(advance) => {
                    assert_eq!(advance.len(), 2);
                    match &advance[0] {
                        Op::Call(Call::WaitForHeight(w)) => {
                            assert_eq!(w.height, height(101));
                            assert!(w.finalized);
                            assert_eq!(w.chain_id.id, "union-testnet-8");
                        }
                        other => panic!("unexpected node: {other:?}"),
                    }
                    assert_eq!(
                        advance[1],
                        Op::Call(Call::Plugin(ModuleCall::FetchBlocks(
                            cosmos_event_source::call::FetchBlocks {
                                height: height(101),
                            }
                        )))
                    );
                }
                other => panic!("unexpected node: {other:?}"),
            }
        }
        other => panic!("unexpected node: {other:?}"),
    }
}

#[test]
fn next_height_stays_gated_until_finality_wait_resolves() {
    // The chain reports height 101 as non-finalized first: the wait stays
    // pending, and the fetch for height 101 must not become active.
    let m = module();
    let mut op = m.fetch_blocks_step(height(100));
    let mut paths = active_paths(&op);
    paths.sort();
    assert_eq!(paths, vec![vec![0], vec![1, 0]]);
    assert!(!paths.contains(&vec![1, 1]));
    // Still non-finalized: nothing resolves, the picture stays the same.
    let mut paths_again = active_paths(&op);
    paths_again.sort();
    assert_eq!(paths_again, vec![vec![0], vec![1, 0]]);
    // Now the chain reports 101 as finalized: the wait resolves, and only
    // then does the advance to height 101 become active.
    op = splice(op, &vec![1, 0], 0, Op::Data(wait_marker()));
    let paths = active_paths(&op);
    assert!(paths.contains(&vec![1, 1]));
    assert_eq!(
        get_node(&op, &vec![1, 1], 0),
        Some(&Op::Call(Call::Plugin(ModuleCall::FetchBlocks(
            cosmos_event_source::call::FetchBlocks {
                height: height(101),
            }
        ))))
    );
}

/// The transaction search of a synthetic chain holding `total` single-event
/// transactions at one height, paged by 10, newest first.
fn synth_page(total: u32, page: u32) -> TxSearchResponse {
    let start = (page - 1) * 10;
    let end = total.min(start + 10);
    TxSearchResponse {
        txs: (start..end)
            .map(|n| TxResult {
                hash: tx_hash(n as u64),
                events: vec![native_event(n as u64)],
            })
            .collect(),
        total_count: total,
    }
}

#[test]
fn pagination_fetches_every_transaction_once_in_three_pages() {
    let m = module();
    let mut seen: Vec<u64> = Vec::new();
    let mut pages_fetched = 0u32;
    let mut next_page = Some(1u32);
    while let Some(page) = next_page.take() {
        pages_fetched += 1;
        assert!(pages_fetched <= 3, "a fourth page was requested");
        let op = m.fetch_transactions_step(height(100), page, synth_page(25, page));
        let children = match op {
            Op::Concurrent(children) => children,
            other => panic!("unexpected node: {other:?}"),
        };
        for child in children {
            match child {
                Op::Call(Call::Plugin(ModuleCall::MakeChainEvent(mk))) => {
                    assert_eq!(mk.height, height(100));
                    let n = ((mk.tx_hash.bytes[0] as u64) << 8) | mk.tx_hash.bytes[1] as u64;
                    seen.push(n);
                }
                Op::Call(Call::Plugin(ModuleCall::FetchTransactions(ft))) => {
                    assert_eq!(ft.height, height(100));
                    assert_eq!(ft.page, page + 1);
                    assert!(next_page.replace(ft.page).is_none());
                }
                other => panic!("unexpected node: {other:?}"),
            }
        }
    }
    assert_eq!(pages_fetched, 3);
    seen.sort();
    assert_eq!(seen, (0..25).collect::<Vec<u64>>());
}

/// What the driver decided to do with one active call.
enum Action {
    Resolve(Op),
    MarkFinal(u64),
}

/// One pass of the test driver: dispatch the first active call that can
/// make progress, splicing its result back at its own path.
///
/// Returns false once no call is active any more.
fn drive_one(
    m: &Module,
    op: &mut Option<Op>,
    finalized: &mut HashSet<u64>,
    last_height: u64,
    emitted: &mut Vec<ChainEvent>,
) -> bool {
    let tree = op.take().unwrap();
    let paths = active_paths(&tree);
    if paths.is_empty() {
        *op = Some(tree);
        return false;
    }
    for path in &paths {
        let action = match get_node(&tree, path, 0).unwrap() {
            Op::Call(Call::WaitForHeight(w)) => {
                if finalized.contains(&w.height.height) {
                    Action::Resolve(Op::Data(wait_marker()))
                } else {
                    // Reported non-finalized on this attempt; it will be
                    // final when asked again.
                    Action::MarkFinal(w.height.height)
                }
            }
            Op::Call(Call::Plugin(ModuleCall::FetchBlocks(f))) => {
                if f.height.height > last_height {
                    // Past the synthetic ledger: the host would keep
                    // waiting here; the test stops unfolding.
                    Action::Resolve(Op::Data(wait_marker()))
                } else {
                    Action::Resolve(m.fetch_blocks_step(f.height))
                }
            }
            Op::Call(Call::Plugin(ModuleCall::FetchTransactions(ft))) => Action::Resolve(
                m.fetch_transactions_step(ft.height, ft.page, synth_page(25, ft.page)),
            ),
            Op::Call(Call::Plugin(ModuleCall::MakeChainEvent(_))) => {
                let mk = splice_target(&tree, path);
                let ce = m
                    .make_chain_event(
                        mk.height,
                        mk.tx_hash,
                        mk.event,
                        EventAux::Client(client_resolution()),
                    )
                    .unwrap();
                emitted.push(ce.clone());
                Action::Resolve(Op::Data(ce))
            }
            Op::Call(Call::FetchBlocks(_)) => panic!("host-level fetch reached the driver"),
            other => panic!("not a call: {other:?}"),
        };
        match action {
            Action::Resolve(rep) => {
                *op = Some(splice(tree, path, 0, rep));
                return true;
            }
            Action::MarkFinal(h) => {
                finalized.insert(h);
                // Try another path first; the wait resolves when asked
                // again.
                continue;
            }
        }
    }
    *op = Some(tree);
    true
}

/// Clone the canonicalizer call at a path out of the tree.
fn splice_target(tree: &Op, path: &Vec<usize>) -> cosmos_event_source::call::MakeChainEvent {
    match get_node(tree, path, 0).unwrap() {
        Op::Call(Call::Plugin(ModuleCall::MakeChainEvent(mk))) => mk.clone(),
        other => panic!("unexpected node: {other:?}"),
    }
}

#[test]
fn round_trip_emits_each_ledger_event_exactly_once() {
    // A synthetic ledger: heights 100 and 101, 25 single-event
    // transactions at each. Drive the fetch machine from one
    // fetch-blocks instruction until nothing is active; every native
    // event must come out as exactly one canonical record.
    let m = module();
    let start = Op::Call(Call::FetchBlocks(cosmos_event_source::op::FetchBlocks {
        chain_id: ChainId::new("union-testnet-8".to_string()),
        start_height: height(100),
    }));
    let pass = m.run_pass(vec![start]);
    assert_eq!(pass.ready.len(), 1);
    let mut op = Some(pass.ready.into_iter().next().unwrap().1);

    let mut finalized: HashSet<u64> = HashSet::new();
    let mut emitted: Vec<ChainEvent> = Vec::new();
    let mut steps = 0usize;
    while drive_one(&m, &mut op, &mut finalized, 101, &mut emitted) {
        steps += 1;
        assert!(steps < 10_000, "the drive did not terminate");
    }

    // 25 events at height 100 and 25 at height 101, each exactly once.
    assert_eq!(emitted.len(), 50);
    let mut keys: Vec<(u64, u32)> = emitted
        .iter()
        .map(|ce| {
            let id = match &ce.event {
                FullEvent::Union(ibc_union::FullEvent::CreateClient(c)) => c.client_id,
                other => panic!("unexpected body: {other:?}"),
            };
            // The event height is recoverable from the provable height.
            (ce.provable_height.height - 1, id)
        })
        .collect();
    keys.sort();
    keys.dedup();
    assert_eq!(keys.len(), 50, "a canonical event was emitted twice");
    for h in [100u64, 101u64] {
        for n in 0..25u32 {
            assert!(keys.contains(&(h, n)));
        }
    }
    // Every record claims this chain and carries provable height one past
    // its event height.
    for ce in &emitted {
        assert_eq!(ce.chain_id.id, "union-testnet-8");
        assert_eq!(ce.counterparty_chain_id.id, "osmosis-1");
    }
}
