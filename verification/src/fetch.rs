//! The per-chain fetch state machine: discover new finalized heights, page
//! through a height's transactions, and hand every recognized native event
//! to the canonicalizer.
//!
//! Each step is a pure decision: the chain's answers come in as values,
//! the operations to schedule next come out as an [`Op`] tree.

use vstd::prelude::*;

use crate::call::{FetchBlocks, FetchTransactions, MakeChainEvent, ModuleCall};
use crate::events::IbcEvent;
use crate::height::Height;
use crate::ids::H256;
use crate::module::Module;
use crate::op::{call_ready_at, first_pending, lemma_first_pending_is, Call, Op, WaitForHeight};

verus! {

/// Transactions are paged through at this fixed page size.
pub const PER_PAGE_LIMIT: u8 = 10;

/// One transaction found by the chain's transaction search: its hash and
/// the recognized IBC events its logs carried.
#[derive(Debug, PartialEq, Eq)]
pub struct TxResult {
    pub hash: H256,
    pub events: Vec<IbcEvent>,
}

/// One page of the chain's transaction search for a height, together with
/// the total number of matching transactions it reported.
#[derive(Debug, PartialEq, Eq)]
pub struct TxSearchResponse {
    pub txs: Vec<TxResult>,
    pub total_count: u32,
}

/// Whether, after fetching page `page`, a further page must be fetched:
/// exactly when the pages so far cannot have covered `total_count`
/// transactions.
pub open spec fn spec_has_continuation(page: u32, total_count: u32) -> bool {
    (page as int) * (PER_PAGE_LIMIT as int) < total_count
}

/// How many events the first `i` transactions carry between them: the
/// position at which transaction `i`'s own event calls start.
pub open spec fn events_before(txs: Seq<TxResult>, i: int) -> int
    decreases i,
{
    if i <= 0 {
        0
    } else {
        events_before(txs, i - 1) + txs[i - 1].events@.len()
    }
}

/// Position `events_before(txs, i) + j` of `children` holds the call that
/// resolves event `j` of transaction `i` at `height`.
pub open spec fn spec_event_call_at(
    children: Seq<Op>,
    txs: Seq<TxResult>,
    height: Height,
    i: int,
    j: int,
) -> bool {
    let k = events_before(txs, i) + j;
    &&& 0 <= k < children.len()
    &&& children[k] matches Op::Call(Call::Plugin(ModuleCall::MakeChainEvent(m))) && m.height
        == height && m.tx_hash@ == txs[i].hash@ && m.event == txs[i].events@[j]
}

/// Event counts only grow as transactions are counted in.
pub proof fn lemma_events_before_monotone(txs: Seq<TxResult>, i: int, m: int)
    requires
        0 <= i <= m,
    ensures
        events_before(txs, i) <= events_before(txs, m),
    decreases m - i,
{
    if i < m {
        lemma_events_before_monotone(txs, i + 1, m);
    }
}

impl Module {
    /// Start work on a height: concurrently, fetch the first page of its
    /// transactions, and — strictly after the chain reports the next
    /// height as finalized — start work on that next height.
    ///
    /// The two branches are unordered; within the second, the advance to
    /// `height + 1` stands strictly behind the finality wait.
    pub fn fetch_blocks_step(&self, height: Height) -> (r: Op)
        requires
            height.height < u64::MAX,
        ensures
            r is Concurrent,
            r->Concurrent_0@.len() == 2,
            r->Concurrent_0@[0] == Op::Call(
                Call::Plugin(ModuleCall::FetchTransactions(FetchTransactions { height, page: 1 })),
            ),
            r->Concurrent_0@[1] is Sequential,
            r->Concurrent_0@[1]->Sequential_0@.len() == 2,
            r->Concurrent_0@[1]->Sequential_0@[0] == Op::Call(
                Call::WaitForHeight(
                    WaitForHeight {
                        chain_id: self.chain_id,
                        height: Height { revision: height.revision, height: (height.height + 1) as u64 },
                        finalized: true,
                    },
                ),
            ),
            r->Concurrent_0@[1]->Sequential_0@[1] == Op::Call(
                Call::Plugin(
                    ModuleCall::FetchBlocks(
                        FetchBlocks {
                            height: Height {
                                revision: height.revision,
                                height: (height.height + 1) as u64,
                            },
                        },
                    ),
                ),
            ),
    {
        let next = height.increment();
        let mut advance: Vec<Op> = Vec::new();
        advance.push(
            Op::Call(
                Call::WaitForHeight(
                    WaitForHeight { chain_id: self.chain_id.clone(), height: next, finalized: true },
                ),
            ),
        );
        advance.push(Op::Call(Call::Plugin(ModuleCall::FetchBlocks(FetchBlocks { height: next }))));
        let mut children: Vec<Op> = Vec::new();
        children.push(
            Op::Call(
                Call::Plugin(ModuleCall::FetchTransactions(FetchTransactions { height, page: 1 })),
            ),
        );
        children.push(Op::Sequential(advance));
        Op::Concurrent(children)
    }

    /// Turn one page of the transaction search into the calls it gives
    /// rise to: one canonicalizer call per recognized event, in page
    /// order, plus — exactly while the pages so far cannot have covered
    /// the reported total — a call for the next page. All of them are
    /// unordered siblings.
    pub fn fetch_transactions_step(&self, height: Height, page: u32, response: TxSearchResponse) -> (r:
        Op)
        requires
            page >= 1,
        ensures
            r is Concurrent,
            r->Concurrent_0@.len() == events_before(response.txs@, response.txs@.len() as int) + (
            if spec_has_continuation(page, response.total_count) {
                1int
            } else {
                0int
            }),
            forall|i: int, j: int|
                0 <= i < response.txs@.len() && 0 <= j < response.txs@[i].events@.len()
                    ==> spec_event_call_at(r->Concurrent_0@, response.txs@, height, i, j),
            spec_has_continuation(page, response.total_count) ==> r->Concurrent_0@.last()
                == Op::Call(
                Call::Plugin(
                    ModuleCall::FetchTransactions(
                        FetchTransactions { height, page: (page + 1) as u32 },
                    ),
                ),
            ),
    {
        let TxSearchResponse { txs, total_count } = response;
        let ghost txs_view = txs@;
        let mut txs = txs;
        let mut children: Vec<Op> = Vec::new();
        let mut i: usize = 0;
        let total_txs: usize = txs.len();
        while txs.len() > 0
            invariant
                txs_view.len() == total_txs,
                txs_view.len() == i + txs@.len(),
                txs@ == txs_view.skip(i as int),
                children@.len() == events_before(txs_view, i as int),
                forall|i2: int, j2: int|
                    0 <= i2 < i && 0 <= j2 < txs_view[i2].events@.len() ==> spec_event_call_at(
                        children@,
                        txs_view,
                        height,
                        i2,
                        j2,
                    ),
            decreases txs@.len(),
        {
            let tx = txs.remove(0);
            proof {
                assert(tx == txs_view[i as int]);
                assert(txs@ =~= txs_view.skip(i as int + 1));
            }
            let TxResult { hash, events } = tx;
            let ghost ev_view = events@;
            let mut events = events;
            let n_ev: usize = events.len();
            let mut j: usize = 0;
            while events.len() > 0
                invariant
                    ev_view.len() == n_ev,
                    i < txs_view.len(),
                    ev_view == txs_view[i as int].events@,
                    hash@ == txs_view[i as int].hash@,
                    ev_view.len() == j + events@.len(),
                    events@ == ev_view.skip(j as int),
                    children@.len() == events_before(txs_view, i as int) + j,
                    forall|i2: int, j2: int|
                        0 <= i2 < i && 0 <= j2 < txs_view[i2].events@.len() ==> spec_event_call_at(
                            children@,
                            txs_view,
                            height,
                            i2,
                            j2,
                        ),
                    forall|j2: int|
                        0 <= j2 < j ==> spec_event_call_at(children@, txs_view, height, i as int, j2),
                decreases events@.len(),
            {
                let ev = events.remove(0);
                proof {
                    assert(ev == ev_view[j as int]);
                    assert(events@ =~= ev_view.skip(j as int + 1));
                }
                let ghost old_children = children@;
                children.push(
                    Op::Call(
                        Call::Plugin(
                            ModuleCall::MakeChainEvent(
                                MakeChainEvent { height, tx_hash: hash.clone(), event: ev },
                            ),
                        ),
                    ),
                );
                proof {
                    assert forall|i2: int, j2: int|
                        0 <= i2 < i && 0 <= j2 < txs_view[i2].events@.len() implies spec_event_call_at(
                        children@,
                        txs_view,
                        height,
                        i2,
                        j2,
                    ) by {
                        assert(spec_event_call_at(old_children, txs_view, height, i2, j2));
                        assert(children@[events_before(txs_view, i2) + j2] == old_children[
                            events_before(txs_view, i2) + j2
                        ]);
                    }
                    assert forall|j2: int| 0 <= j2 < j + 1 implies spec_event_call_at(
                        children@,
                        txs_view,
                        height,
                        i as int,
                        j2,
                    ) by {
                        if j2 < j {
                            assert(spec_event_call_at(old_children, txs_view, height, i as int, j2));
                            assert(children@[events_before(txs_view, i as int) + j2] == old_children[
                                events_before(txs_view, i as int) + j2
                            ]);
                        }
                    }
                }
                j = j + 1;
            }
            proof {
                assert(events_before(txs_view, i as int + 1) == events_before(txs_view, i as int)
                    + txs_view[i as int].events@.len());
                assert(ev_view.skip(j as int) =~= Seq::<IbcEvent>::empty());
            }
            i = i + 1;
        }
        proof {
            assert(i == txs_view.len());
            assert forall|i2: int, j2: int|
                0 <= i2 < txs_view.len() && 0 <= j2 < txs_view[i2].events@.len() implies spec_event_call_at(
                children@,
                txs_view,
                height,
                i2,
                j2,
            ) by {}
        }
        proof {
            assert((page as int) * (PER_PAGE_LIMIT as int) <= u32::MAX * 10int) by (nonlinear_arith)
                requires
                    0 <= page <= u32::MAX,
                    PER_PAGE_LIMIT == 10,
            ;
        }
        let fetch_more = (page as u64) * (PER_PAGE_LIMIT as u64) < (total_count as u64);
        if fetch_more {
            proof {
                assert(page < u32::MAX) by (nonlinear_arith)
                    requires
                        (page as int) * 10 < (total_count as int),
                        total_count <= u32::MAX,
                        page >= 0,
                ;
            }
            let ghost old_children = children@;
            children.push(
                Op::Call(
                    Call::Plugin(
                        ModuleCall::FetchTransactions(FetchTransactions { height, page: page + 1 }),
                    ),
                ),
            );
            proof {
                assert forall|i2: int, j2: int|
                    0 <= i2 < txs_view.len() && 0 <= j2 < txs_view[i2].events@.len() implies spec_event_call_at(
                    children@,
                    txs_view,
                    height,
                    i2,
                    j2,
                ) by {
                    assert(spec_event_call_at(old_children, txs_view, height, i2, j2));
                    lemma_events_before_monotone(txs_view, i2 + 1, txs_view.len() as int);
                    assert(children@[events_before(txs_view, i2) + j2] == old_children[
                        events_before(txs_view, i2) + j2
                    ]);
                }
            }
        }
        Op::Concurrent(children)
    }
}

/// While work on a height is under way, the advance to the next height is
/// not: in the tree [`Module::fetch_blocks_step`] emits, the calls that
/// may run are exactly the transaction fetch at this height and the
/// finality wait — never the fetch-blocks call for the next height, which
/// stands behind the wait.
pub proof fn lemma_fetch_blocks_gates_next_height(op: Op)
    requires
        op is Concurrent,
        op->Concurrent_0@.len() == 2,
        op->Concurrent_0@[0] is Call,
        op->Concurrent_0@[1] is Sequential,
        op->Concurrent_0@[1]->Sequential_0@.len() == 2,
        op->Concurrent_0@[1]->Sequential_0@[0] is Call,
        op->Concurrent_0@[1]->Sequential_0@[1] is Call,
    ensures
        call_ready_at(op, seq![0usize]),
        call_ready_at(op, seq![1usize, 0usize]),
        !call_ready_at(op, seq![1usize, 1usize]),
        forall|p: Seq<usize>| call_ready_at(op, p) ==> p == seq![0usize] || p == seq![1usize, 0usize],
{
    let cs = op->Concurrent_0@;
    let ss = op->Concurrent_0@[1]->Sequential_0@;
    lemma_first_pending_is(ss, 0);
    assert(seq![0usize].drop_first() =~= Seq::<usize>::empty());
    assert(seq![1usize, 0usize].drop_first() =~= seq![0usize]);
    assert(seq![1usize, 1usize].drop_first() =~= seq![1usize]);
    assert(call_ready_at(ss[0], Seq::<usize>::empty()));
    assert(call_ready_at(cs[0], Seq::<usize>::empty()));
    assert(call_ready_at(cs[1], seq![0usize]));
    assert(!call_ready_at(cs[1], seq![1usize]));
    assert(call_ready_at(op, seq![0usize]));
    assert(call_ready_at(op, seq![1usize, 0usize]));
    assert(!call_ready_at(op, seq![1usize, 1usize]));
    assert forall|p: Seq<usize>| call_ready_at(op, p) implies p == seq![0usize] || p == seq![1usize, 0usize] by {
        if (p[0] as int) == 0 {
            assert(call_ready_at(cs[0], p.drop_first()));
            assert(p.drop_first().len() == 0);
            assert(p =~= seq![0usize]);
        } else {
            assert((p[0] as int) == 1);
            assert(call_ready_at(cs[1], p.drop_first()));
            let p2 = p.drop_first();
            assert((p2[0] as int) == first_pending(ss));
            assert(call_ready_at(ss[0], p2.drop_first()));
            assert(p2.drop_first().len() == 0);
            assert(p =~= seq![1usize, 0usize]);
        }
    }
}

/// Once the finality wait has resolved to data, the advance behind it
/// becomes ready.
pub proof fn lemma_wait_resolved_unlocks_advance(children: Vec<Op>)
    requires
        children@.len() == 2,
        children@[0] is Data,
        children@[1] is Call,
    ensures
        call_ready_at(Op::Sequential(children), seq![1usize]),
{
    lemma_first_pending_is(children@, 1);
    assert(seq![1usize].drop_first() =~= Seq::<usize>::empty());
    assert(call_ready_at(children@[1], Seq::<usize>::empty()));
    assert(call_ready_at(Op::Sequential(children), seq![1usize]));
}

/// Paging terminates: a further page is asked for exactly while the page
/// number is below the number of pages the reported total fills, so no
/// page past that number is ever requested.
pub proof fn lemma_pagination_terminates(page: u32, total_count: u32)
    ensures
        spec_has_continuation(page, total_count) <==> (page as int) < (total_count as int
            + PER_PAGE_LIMIT - 1) / (PER_PAGE_LIMIT as int),
{
    let t = total_count as int;
    let pages = (t + PER_PAGE_LIMIT - 1) / (PER_PAGE_LIMIT as int);
    vstd::arithmetic::div_mod::lemma_fundamental_div_mod(t + 9, 10);
    let r = (t + 9) % 10;
    assert(t + 9 == 10 * pages + r);
    assert(0 <= r < 10) by {
        vstd::arithmetic::div_mod::lemma_mod_bound(t + 9, 10);
    }
    if spec_has_continuation(page, total_count) {
        assert((page as int) * 10 < t);
        assert((page as int) < pages) by (nonlinear_arith)
            requires
                (page as int) * 10 < t,
                t + 9 == 10 * pages + r,
                0 <= r < 10,
        ;
    }
    if (page as int) < pages {
        assert((page as int) * 10 < t) by (nonlinear_arith)
            requires
                (page as int) < pages,
                t + 9 == 10 * pages + r,
                0 <= r < 10,
                page >= 0,
        ;
    }
}

} // verus!
