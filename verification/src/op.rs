//! The operation algebra: pending relayer work as a tree of composable,
//! independently schedulable units.
//!
//! A tree is built of `Call` leaves (pending work), `Data` leaves (resolved
//! terminal values), `Sequential` nodes whose children must reduce strictly
//! in order, and `Concurrent` nodes whose children carry no ordering
//! constraint. Every node is addressed by its path, the sequence of child
//! indices from the root, so one pass's results can be spliced back without
//! disturbing unrelated siblings.

use vstd::prelude::*;

use crate::call::ModuleCall;
use crate::chain_event::ChainEvent;
use crate::height::Height;
use crate::ids::ChainId;

verus! {

/// A host-level instruction to start sourcing events from a chain at a
/// height.
#[derive(Clone, Debug, PartialEq, Eq)]
pub struct FetchBlocks {
    pub chain_id: ChainId,
    pub start_height: Height,
}

/// A host-level instruction to wait until a chain reports a height; with
/// `finalized` set, until it reports the height as final.
#[derive(Clone, Debug, PartialEq, Eq)]
pub struct WaitForHeight {
    pub chain_id: ChainId,
    pub height: Height,
    pub finalized: bool,
}

/// A unit of pending work: either addressed to the host scheduler or to
/// this plugin.
#[derive(Clone, Debug, PartialEq, Eq)]
pub enum Call {
    FetchBlocks(FetchBlocks),
    WaitForHeight(WaitForHeight),
    Plugin(ModuleCall),
}

/// A tree of pending relayer work.
#[derive(Debug, PartialEq, Eq)]
pub enum Op {
    /// A unit of pending work.
    Call(Call),
    /// A terminal, fully resolved output value.
    Data(ChainEvent),
    /// Children that must be evaluated strictly in order: a child may only
    /// be evaluated once every earlier sibling has reduced to `Data`.
    Sequential(Vec<Op>),
    /// Children with no ordering constraint.
    Concurrent(Vec<Op>),
}

/// The outcome of one scheduling pass over a batch of operations: each
/// position of the batch, keyed by its path, with the operation that now
/// stands there, plus the operations this plugin declined and a later pass
/// should revisit.
#[derive(Debug, PartialEq, Eq)]
pub struct PassResult {
    pub ready: Vec<(Vec<usize>, Op)>,
    pub optimize_further: Vec<(Vec<usize>, Op)>,
}

/// The index of the first child that has not yet reduced to `Data`, or the
/// number of children when all have.
pub open spec fn first_pending(children: Seq<Op>) -> int
    decreases children.len(),
{
    if children.len() == 0 {
        0
    } else if !(children[0] is Data) {
        0
    } else {
        1 + first_pending(children.drop_first())
    }
}

/// Whether the node at `path` is a `Call` that a pass may evaluate now:
/// every `Sequential` ancestor only exposes its first child that is not yet
/// `Data`, while a `Concurrent` ancestor exposes all of its children.
pub open spec fn call_ready_at(op: Op, path: Seq<usize>) -> bool
    decreases path.len(),
{
    match op {
        Op::Call(_) => path.len() == 0,
        Op::Data(_) => false,
        Op::Sequential(children) => {
            &&& path.len() > 0
            &&& (path[0] as int) < children@.len()
            &&& (path[0] as int) == first_pending(children@)
            &&& call_ready_at(children@[path[0] as int], path.drop_first())
        },
        Op::Concurrent(children) => {
            &&& path.len() > 0
            &&& (path[0] as int) < children@.len()
            &&& call_ready_at(children@[path[0] as int], path.drop_first())
        },
    }
}

/// The node standing at `path`, if the path leads to one.
pub open spec fn node_at(op: Op, path: Seq<usize>) -> Option<Op>
    decreases path.len(),
{
    if path.len() == 0 {
        Some(op)
    } else {
        match op {
            Op::Sequential(children) => {
                if (path[0] as int) < children@.len() {
                    node_at(children@[path[0] as int], path.drop_first())
                } else {
                    None
                }
            },
            Op::Concurrent(children) => {
                if (path[0] as int) < children@.len() {
                    node_at(children@[path[0] as int], path.drop_first())
                } else {
                    None
                }
            },
            _ => None,
        }
    }
}

/// Whether `p` is a prefix of `q`.
pub open spec fn is_path_prefix(p: Seq<usize>, q: Seq<usize>) -> bool {
    p.len() <= q.len() && p == q.subrange(0, p.len() as int)
}

/// Every child before the first pending one has reduced to `Data`, and the
/// first pending child, when there is one, has not.
pub proof fn lemma_first_pending(children: Seq<Op>)
    ensures
        0 <= first_pending(children) <= children.len(),
        forall|j: int| 0 <= j < first_pending(children) ==> children[j] is Data,
        first_pending(children) < children.len() ==> !(children[first_pending(children)] is Data),
    decreases children.len(),
{
    if children.len() == 0 {
    } else if !(children[0] is Data) {
    } else {
        lemma_first_pending(children.drop_first());
        assert forall|j: int| 0 <= j < first_pending(children) implies children[j] is Data by {
            if j > 0 {
                assert(children.drop_first()[j - 1] is Data);
            }
        }
    }
}

/// `first_pending` is the only index with all-`Data` children before it
/// that is itself past the end or not `Data`.
pub proof fn lemma_first_pending_is(children: Seq<Op>, k: int)
    requires
        0 <= k <= children.len(),
        forall|j: int| 0 <= j < k ==> children[j] is Data,
        k < children.len() ==> !(children[k] is Data),
    ensures
        first_pending(children) == k,
    decreases children.len(),
{
    if children.len() == 0 {
    } else if !(children[0] is Data) {
        assert(k == 0);
    } else {
        assert(k > 0);
        assert forall|j: int| 0 <= j < k - 1 implies children.drop_first()[j] is Data by {
            assert(children[j + 1] is Data);
        }
        if k - 1 < children.drop_first().len() {
            assert(children.drop_first()[k - 1] == children[k]);
        }
        lemma_first_pending_is(children.drop_first(), k - 1);
    }
}

/// Sequential nodes strictly serialize: a ready path may only descend into
/// a child once every earlier sibling has reduced to `Data`. In
/// particular, for `Sequential([a, b])`, no call inside `b` is ever ready
/// before `a` has fully reduced to `Data`.
pub proof fn lemma_sequential_serializes(children: Vec<Op>, path: Seq<usize>)
    requires
        call_ready_at(Op::Sequential(children), path),
    ensures
        path.len() > 0,
        forall|j: int| 0 <= j < (path[0] as int) ==> children@[j] is Data,
        !(children@[path[0] as int] is Data),
{
    lemma_first_pending(children@);
    assert(call_ready_at(children@[path[0] as int], path.drop_first()));
    assert(!(children@[path[0] as int] is Data));
}

/// Whether some element of `l` is the path `p`.
pub open spec fn path_list_contains(l: Seq<Vec<usize>>, p: Seq<usize>) -> bool {
    exists|i: int| 0 <= i < l.len() && l[i]@ == p
}

/// Whether this node is a terminal `Data` value.
pub fn op_is_data(op: &Op) -> (b: bool)
    ensures
        b == (*op is Data),
{
    match op {
        Op::Data(_) => true,
        _ => false,
    }
}

/// Prefix every path in `sub` with the child index `j`.
fn prepend_all(j: usize, sub: Vec<Vec<usize>>) -> (r: Vec<Vec<usize>>)
    ensures
        r@.len() == sub@.len(),
        forall|i: int| 0 <= i < r@.len() ==> r@[i]@ == seq![j] + sub@[i]@,
        forall|i: int| 0 <= i < r@.len() ==> r@[i]@.len() > 0 && r@[i]@[0] == j,
{
    let mut r: Vec<Vec<usize>> = Vec::new();
    let mut idx: usize = 0;
    while idx < sub.len()
        invariant
            idx <= sub@.len(),
            r@.len() == idx,
            forall|i: int| 0 <= i < idx ==> r@[i]@ == seq![j] + sub@[i]@,
        decreases sub@.len() - idx,
    {
        let mut q: Vec<usize> = Vec::new();
        q.push(j);
        let mut k: usize = 0;
        while k < sub[idx].len()
            invariant
                idx < sub@.len(),
                k <= sub@[idx as int]@.len(),
                q@ == seq![j] + sub@[idx as int]@.subrange(0, k as int),
            decreases sub@[idx as int]@.len() - k,
        {
            q.push(sub[idx][k]);
            proof {
                assert(q@ =~= seq![j] + sub@[idx as int]@.subrange(0, k as int + 1));
            }
            k = k + 1;
        }
        proof {
            assert(sub@[idx as int]@.subrange(0, k as int) =~= sub@[idx as int]@);
        }
        r.push(q);
        idx = idx + 1;
    }
    r
}

/// The paths of every call a pass may evaluate now: exactly the paths at
/// which [`call_ready_at`] holds, each listed once.
pub fn active_paths(op: &Op) -> (r: Vec<Vec<usize>>)
    ensures
        forall|i: int| 0 <= i < r@.len() ==> call_ready_at(*op, r@[i]@),
        forall|p: Seq<usize>| call_ready_at(*op, p) ==> path_list_contains(r@, p),
        forall|i: int, k: int| 0 <= i < k < r@.len() ==> r@[i]@ != r@[k]@,
    decreases *op,
{
    match op {
        Op::Call(_) => {
            let mut r: Vec<Vec<usize>> = Vec::new();
            let q: Vec<usize> = Vec::new();
            r.push(q);
            proof {
                assert(call_ready_at(*op, r@[0]@));
                assert forall|p: Seq<usize>| call_ready_at(*op, p) implies path_list_contains(
                    r@,
                    p,
                ) by {
                    assert(p =~= r@[0]@);
                }
            }
            r
        },
        Op::Data(_) => Vec::new(),
        Op::Sequential(children) => {
            let mut i: usize = 0;
            let mut stop = false;
            while i < children.len() && !stop
                invariant
                    i <= children@.len(),
                    forall|j: int| 0 <= j < i ==> children@[j] is Data,
                    stop ==> i < children@.len() && !(children@[i as int] is Data),
                decreases children@.len() - i, if stop { 0int } else { 1int },
            {
                if op_is_data(&children[i]) {
                    i = i + 1;
                } else {
                    stop = true;
                }
            }
            proof {
                lemma_first_pending_is(children@, i as int);
            }
            if i < children.len() {
                proof {
                    assert(*op == Op::Sequential(*children));
                    vstd::std_specs::vec::axiom_vec_index_decreases(*children, i as int);
                    assert(decreases_to!(*op => op->Sequential_0));
                    assert(decreases_to!(*op => children@[i as int]));
                }
                let sub = active_paths(&children[i]);
                let r = prepend_all(i, sub);
                proof {
                    assert forall|k: int| 0 <= k < r@.len() implies call_ready_at(*op, r@[k]@) by {
                        assert(r@[k]@ == seq![i] + sub@[k]@);
                        assert((seq![i] + sub@[k]@).drop_first() =~= sub@[k]@);
                    }
                    assert forall|p: Seq<usize>| call_ready_at(*op, p) implies path_list_contains(
                        r@,
                        p,
                    ) by {
                        assert((p[0] as int) == i as int);
                        assert(call_ready_at(children@[i as int], p.drop_first()));
                        let k = choose|k: int|
                            0 <= k < sub@.len() && sub@[k]@ == p.drop_first();
                        assert(r@[k]@ == seq![i] + sub@[k]@);
                        assert(seq![i] + p.drop_first() =~= p);
                    }
                    assert forall|a: int, k: int| 0 <= a < k < r@.len() implies r@[a]@
                        != r@[k]@ by {
                        assert((seq![i] + sub@[a]@).drop_first() =~= sub@[a]@);
                        assert((seq![i] + sub@[k]@).drop_first() =~= sub@[k]@);
                    }
                }
                r
            } else {
                let r: Vec<Vec<usize>> = Vec::new();
                proof {
                    assert forall|p: Seq<usize>| call_ready_at(*op, p) implies path_list_contains(
                        r@,
                        p,
                    ) by {
                        assert((p[0] as int) == first_pending(children@));
                    }
                }
                r
            }
        },
        Op::Concurrent(children) => {
            let mut out: Vec<Vec<usize>> = Vec::new();
            let mut j: usize = 0;
            while j < children.len()
                invariant
                    *op == Op::Concurrent(*children),
                    j <= children@.len(),
                    forall|i: int| 0 <= i < out@.len() ==> call_ready_at(*op, out@[i]@),
                    forall|p: Seq<usize>|
                        call_ready_at(*op, p) && (p[0] as int) < j ==> path_list_contains(
                            out@,
                            p,
                        ),
                    forall|i: int| 0 <= i < out@.len() ==> out@[i]@.len() > 0 && (out@[i]@[0]
                        as int) < j,
                    forall|i: int, k: int| 0 <= i < k < out@.len() ==> out@[i]@ != out@[k]@,
                decreases children@.len() - j,
            {
                proof {
                    assert(*op == Op::Concurrent(*children));
                    vstd::std_specs::vec::axiom_vec_index_decreases(*children, j as int);
                    assert(decreases_to!(*op => op->Concurrent_0));
                    assert(decreases_to!(*op => children@[j as int]));
                }
                let sub = active_paths(&children[j]);
                let mut pre = prepend_all(j, sub);
                let ghost old_out = out@;
                let ghost pre_view = pre@;
                out.append(&mut pre);
                proof {
                    assert forall|i: int| 0 <= i < out@.len() implies call_ready_at(
                        *op,
                        out@[i]@,
                    ) by {
                        if i < old_out.len() {
                            assert(out@[i] == old_out[i]);
                        } else {
                            let k = i - old_out.len();
                            assert(out@[i] == pre_view[k]);
                            assert(out@[i]@ == seq![j] + sub@[k]@);
                            let p = out@[i]@;
                            assert(p.len() > 0);
                            assert(p[0] == j);
                            assert(p.drop_first() =~= sub@[k]@);
                            assert(call_ready_at(children@[j as int], p.drop_first()));
                        }
                    }
                    assert forall|i: int, k: int| 0 <= i < k < out@.len() implies out@[i]@
                        != out@[k]@ by {
                        if i < old_out.len() && k >= old_out.len() {
                            assert(out@[k]@[0] == j);
                            assert((out@[i]@[0] as int) < j);
                        } else if i >= old_out.len() {
                            let a2 = i - old_out.len();
                            let k2 = k - old_out.len();
                            assert(out@[i]@ == seq![j] + sub@[a2]@);
                            assert(out@[k]@ == seq![j] + sub@[k2]@);
                            assert((seq![j] + sub@[a2]@).drop_first() =~= sub@[a2]@);
                            assert((seq![j] + sub@[k2]@).drop_first() =~= sub@[k2]@);
                        }
                    }
                    assert forall|p: Seq<usize>|
                        call_ready_at(*op, p) && (p[0] as int) < j + 1 implies path_list_contains(
                            out@,
                            p,
                        ) by {
                        if (p[0] as int) < j {
                            let i = choose|i: int| 0 <= i < old_out.len() && old_out[i]@ == p;
                            assert(out@[i]@ == p);
                        } else {
                            assert((p[0] as int) == j as int);
                            assert(call_ready_at(children@[j as int], p.drop_first()));
                            let k = choose|k: int|
                                0 <= k < sub@.len() && sub@[k]@ == p.drop_first();
                            assert(out@[old_out.len() + k]@ == seq![j] + sub@[k]@);
                            assert(seq![j] + p.drop_first() =~= p);
                        }
                    }
                }
                j = j + 1;
            }
            out
        },
    }
}

/// Two nodes that frame the same children: the same variant with the same
/// child count, so replacing one node deep below either leaves every
/// sibling position intact.
pub open spec fn same_frame(a: Op, b: Op) -> bool {
    match a {
        Op::Call(_) => b is Call,
        Op::Data(_) => b is Data,
        Op::Sequential(x) => b matches Op::Sequential(y) && x@.len() == y@.len(),
        Op::Concurrent(x) => b matches Op::Concurrent(y) && x@.len() == y@.len(),
    }
}

/// For paths that agree on their first index, prefix order is decided by
/// their tails.
pub proof fn lemma_prefix_cons(a: Seq<usize>, b: Seq<usize>)
    requires
        a.len() > 0,
        b.len() > 0,
        a[0] == b[0],
    ensures
        is_path_prefix(a, b) <==> is_path_prefix(a.drop_first(), b.drop_first()),
{
    if is_path_prefix(a, b) {
        assert(a.drop_first() =~= b.drop_first().subrange(0, a.drop_first().len() as int)) by {
            assert forall|i: int| 0 <= i < a.len() - 1 implies a.drop_first()[i] == b.drop_first()[i] by {
                assert(a[i + 1] == b.subrange(0, a.len() as int)[i + 1]);
            }
        }
    }
    if is_path_prefix(a.drop_first(), b.drop_first()) {
        assert(a =~= b.subrange(0, a.len() as int)) by {
            assert forall|i: int| 0 <= i < a.len() implies a[i] == b[i] by {
                if i > 0 {
                    assert(a.drop_first()[i - 1] == b.drop_first().subrange(
                        0,
                        a.drop_first().len() as int,
                    )[i - 1]);
                }
            }
        }
    }
}

/// Replace the node at `path` (counted from `depth`) with `rep`.
///
/// The node at that path becomes `rep`; every node at a path unrelated to
/// it is untouched; every ancestor keeps its variant and its child count.
pub fn splice(op: Op, path: &Vec<usize>, depth: usize, rep: Op) -> (r: Op)
    requires
        depth <= path@.len(),
        node_at(op, path@.skip(depth as int)) is Some,
    ensures
        node_at(r, path@.skip(depth as int)) == Some(rep),
        forall|q: Seq<usize>|
            !is_path_prefix(path@.skip(depth as int), q) && !is_path_prefix(
                q,
                path@.skip(depth as int),
            ) ==> node_at(r, q) == node_at(op, q),
        forall|q: Seq<usize>|
            is_path_prefix(q, path@.skip(depth as int)) && q.len() < path@.len() - depth ==> (
            node_at(op, q) is Some && node_at(r, q) is Some && same_frame(
                node_at(op, q)->0,
                node_at(r, q)->0,
            )),
    decreases path@.len() - depth,
{
    let ghost sub = path@.skip(depth as int);
    proof {
        if depth < path@.len() {
            assert(sub.len() > 0);
            assert(sub[0] == path@[depth as int]);
            assert(sub.drop_first() =~= path@.skip(depth as int + 1));
        } else {
            assert(sub =~= Seq::<usize>::empty());
            assert forall|q: Seq<usize>| is_path_prefix(sub, q) by {
                assert(sub =~= q.subrange(0, 0));
            }
        }
    }
    if depth == path.len() {
        rep
    } else {
        let idx = path[depth];
        match op {
            Op::Sequential(mut children) => {
                let ghost old_children = children@;
                let ghost rep_v = rep;
                let child = children.remove(idx);
                let ghost child_v = child;
                let new_child = splice(child, path, depth + 1, rep);
                let ghost new_child_v = new_child;
                children.insert(idx, new_child);
                proof {
                    assert(children@ =~= old_children.update(idx as int, new_child_v));
                }
                let r = Op::Sequential(children);
                proof {
                    lemma_splice_level(
                        old_children,
                        r->Sequential_0@,
                        op,
                        r,
                        idx as int,
                        child_v,
                        new_child_v,
                        sub,
                        rep_v,
                    );
                }
                r
            },
            Op::Concurrent(mut children) => {
                let ghost old_children = children@;
                let ghost rep_v = rep;
                let child = children.remove(idx);
                let ghost child_v = child;
                let new_child = splice(child, path, depth + 1, rep);
                let ghost new_child_v = new_child;
                children.insert(idx, new_child);
                proof {
                    assert(children@ =~= old_children.update(idx as int, new_child_v));
                }
                let r = Op::Concurrent(children);
                proof {
                    lemma_splice_level(
                        old_children,
                        r->Concurrent_0@,
                        op,
                        r,
                        idx as int,
                        child_v,
                        new_child_v,
                        sub,
                        rep_v,
                    );
                }
                r
            },
            Op::Call(c) => {
                proof {
                    assert(false);
                }
                Op::Call(c)
            },
            Op::Data(d) => {
                proof {
                    assert(false);
                }
                Op::Data(d)
            },
        }
    }
}

/// Lift the splice relations one tree level up: if only the child at
/// `idx` changed, and below `sub.drop_first()` it carries `rep` while
/// agreeing with the old child everywhere unrelated, then the parents
/// relate the same way below `sub`.
proof fn lemma_splice_level(
    old_children: Seq<Op>,
    new_children: Seq<Op>,
    op: Op,
    r: Op,
    idx: int,
    child: Op,
    new_child: Op,
    sub: Seq<usize>,
    rep: Op,
)
    requires
        sub.len() > 0,
        0 <= idx < old_children.len(),
        (sub[0] as int) == idx,
        (op is Sequential && op->Sequential_0@ == old_children && r is Sequential
            && r->Sequential_0@ == new_children) || (op is Concurrent && op->Concurrent_0@
            == old_children && r is Concurrent && r->Concurrent_0@ == new_children),
        new_children == old_children.update(idx, new_child),
        old_children[idx] == child,
        node_at(new_child, sub.drop_first()) == Some(rep),
        forall|q2: Seq<usize>|
            !is_path_prefix(sub.drop_first(), q2) && !is_path_prefix(q2, sub.drop_first())
                ==> node_at(new_child, q2) == node_at(child, q2),
        forall|q2: Seq<usize>|
            is_path_prefix(q2, sub.drop_first()) && q2.len() < sub.drop_first().len() ==> (node_at(
                child,
                q2,
            ) is Some && node_at(new_child, q2) is Some && same_frame(
                node_at(child, q2)->0,
                node_at(new_child, q2)->0,
            )),
    ensures
        node_at(r, sub) == Some(rep),
        forall|q: Seq<usize>|
            !is_path_prefix(sub, q) && !is_path_prefix(q, sub) ==> node_at(r, q) == node_at(op, q),
        forall|q: Seq<usize>|
            is_path_prefix(q, sub) && q.len() < sub.len() ==> (node_at(op, q) is Some && node_at(
                r,
                q,
            ) is Some && same_frame(node_at(op, q)->0, node_at(r, q)->0)),
{
    let sub2 = sub.drop_first();
    assert(new_children.len() == old_children.len());
    assert(new_children[idx] == new_child);
    assert(node_at(r, sub) == node_at(new_child, sub2));
    assert forall|q: Seq<usize>|
        !is_path_prefix(sub, q) && !is_path_prefix(q, sub) implies node_at(r, q) == node_at(
        op,
        q,
    ) by {
        if q.len() == 0 {
            assert(q =~= sub.subrange(0, 0));
            assert(is_path_prefix(q, sub));
        } else if (q[0] as int) != idx {
            if (q[0] as int) < old_children.len() {
                assert(new_children[q[0] as int] == old_children[q[0] as int]);
                assert(node_at(r, q) == node_at(new_children[q[0] as int], q.drop_first()));
                assert(node_at(op, q) == node_at(old_children[q[0] as int], q.drop_first()));
            } else {
                assert(node_at(r, q) is None);
                assert(node_at(op, q) is None);
            }
        } else {
            lemma_prefix_cons(sub, q);
            lemma_prefix_cons(q, sub);
            assert(node_at(new_child, q.drop_first()) == node_at(child, q.drop_first()));
            assert(node_at(r, q) == node_at(new_child, q.drop_first()));
            assert(node_at(op, q) == node_at(child, q.drop_first()));
        }
    }
    assert forall|q: Seq<usize>|
        is_path_prefix(q, sub) && q.len() < sub.len() implies (node_at(op, q) is Some && node_at(
        r,
        q,
    ) is Some && same_frame(node_at(op, q)->0, node_at(r, q)->0)) by {
        if q.len() == 0 {
            assert(node_at(op, q) == Some(op));
            assert(node_at(r, q) == Some(r));
        } else {
            assert(q[0] == q.subrange(0, q.len() as int)[0]);
            assert(q[0] == sub[0]);
            lemma_prefix_cons(q, sub);
            assert(q.drop_first().len() < sub2.len());
            assert(node_at(child, q.drop_first()) is Some && node_at(new_child, q.drop_first())
                is Some && same_frame(
                node_at(child, q.drop_first())->0,
                node_at(new_child, q.drop_first())->0,
            ));
            assert(node_at(op, q) == node_at(child, q.drop_first()));
            assert(node_at(r, q) == node_at(new_child, q.drop_first()));
        }
    }
}

/// The node standing at `path`, counted from `depth`, by reference: what
/// [`node_at`] names, when it names one.
pub fn get_node<'a>(op: &'a Op, path: &Vec<usize>, depth: usize) -> (r: Option<&'a Op>)
    requires
        depth <= path@.len(),
    ensures
        node_at(*op, path@.skip(depth as int)) is Some ==> (r matches Some(n) && node_at(
            *op,
            path@.skip(depth as int),
        ) == Some(*n)),
        node_at(*op, path@.skip(depth as int)) is None ==> r is None,
    decreases path@.len() - depth,
{
    proof {
        if depth < path@.len() {
            assert(path@.skip(depth as int).drop_first() =~= path@.skip(depth as int + 1));
        } else {
            assert(path@.skip(depth as int) =~= Seq::<usize>::empty());
        }
    }
    if depth == path.len() {
        Some(op)
    } else {
        let idx = path[depth];
        match op {
            Op::Sequential(children) => {
                if idx < children.len() {
                    get_node(&children[idx], path, depth + 1)
                } else {
                    None
                }
            },
            Op::Concurrent(children) => {
                if idx < children.len() {
                    get_node(&children[idx], path, depth + 1)
                } else {
                    None
                }
            },
            _ => None,
        }
    }
}


/// Concurrent children carry no ordering constraint: whether a call inside
/// one child may run depends on that child alone, never on the state of
/// its siblings.
pub proof fn lemma_concurrent_unordered(children: Vec<Op>, j: usize, p: Seq<usize>)
    requires
        (j as int) < children@.len(),
    ensures
        call_ready_at(Op::Concurrent(children), seq![j] + p) == call_ready_at(
            children@[j as int],
            p,
        ),
{
    assert((seq![j] + p).drop_first() =~= p);
    assert((seq![j] + p)[0] == j);
}

} // verus!
