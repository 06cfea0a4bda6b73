//! The laws of the cache and of buffer clearing, proved over the abstract
//! state model of [`crate::cache`].

use vstd::prelude::*;

use crate::cache::{
    has_node, model_wf, node_rec, rec_wf, run, run_ids, step, step_hit, step_id, step_node,
    table_wf, CacheModel, Node, RawBuf,
};

verus! {

/// Under unique keys, the record looked up for a node is the record stored
/// at any index carrying that node.
pub proof fn lemma_node_rec_at(nodes: Seq<(Node, RawBuf)>, n: Node, i: int)
    requires
        forall|p: int, q: int|
            0 <= p < nodes.len() && 0 <= q < nodes.len() && p != q ==> (#[trigger] nodes[p]).0 != (
            #[trigger] nodes[q]).0,
        0 <= i < nodes.len(),
        nodes[i].0 == n,
    ensures
        has_node(nodes, n),
        node_rec(nodes, n) == nodes[i].1,
{
    assert(has_node(nodes, n));
    let j = choose|j: int| 0 <= j < nodes.len() && nodes[j].0 == n;
    if j != i {
        assert(nodes[i].0 != nodes[j].0);
    }
}

/// Allocating a new block never unsettles the cache: the table stays sound
/// when the memory is extended.
pub proof fn lemma_table_wf_push(
    nodes: Seq<(Node, RawBuf)>,
    mem: Seq<Option<Seq<u64>>>,
    block: Option<Seq<u64>>,
)
    requires
        table_wf(nodes, mem),
    ensures
        table_wf(nodes, mem.push(block)),
{
    assert forall|i: int| 0 <= i < nodes.len() implies rec_wf(#[trigger] nodes[i], mem.push(block))
        by {
        assert(rec_wf(nodes[i], mem));
    }
}

/// Overwriting a block in place with a payload of its length — what `write`
/// and `clear` do — keeps the cache table sound.
pub proof fn lemma_table_wf_update(
    nodes: Seq<(Node, RawBuf)>,
    mem: Seq<Option<Seq<u64>>>,
    id: int,
    cells: Seq<u64>,
)
    requires
        table_wf(nodes, mem),
        0 <= id < mem.len(),
        mem[id] is Some,
        cells.len() == mem[id]->0.len(),
    ensures
        table_wf(nodes, mem.update(id, Some(cells))),
{
    assert forall|i: int| 0 <= i < nodes.len() implies rec_wf(
        #[trigger] nodes[i],
        mem.update(id, Some(cells)),
    ) by {
        assert(rec_wf(nodes[i], mem));
    }
}

/// One cache lookup keeps the table invariant.
pub proof fn lemma_step_preserves_wf(s: CacheModel, len: usize, size: usize, align: usize)
    requires
        model_wf(s),
        0 < len,
        s.mem.len() < usize::MAX,
    ensures
        model_wf(step(s, len, size, align)),
{
    if !step_hit(s, len) {
        let s1 = step(s, len, size, align);
        let n1 = s1.nodes;
        let m1 = s1.mem;
        assert forall|i: int| 0 <= i < n1.len() implies rec_wf(#[trigger] n1[i], m1) by {
            if i < n1.len() - 1 {
                assert(rec_wf(s.nodes[i], s.mem));
            }
        }
        assert forall|i: int, j: int|
            0 <= i < n1.len() && 0 <= j < n1.len() && i != j implies (#[trigger] n1[i]).0 != (
        #[trigger] n1[j]).0 by {
            if i < n1.len() - 1 && j < n1.len() - 1 {
                assert(s.nodes[i].0 != s.nodes[j].0);
            } else if i < n1.len() - 1 {
                assert(!has_node(s.nodes, step_node(s, len)));
                assert(n1[i].0 != step_node(s, len));
            } else if j < n1.len() - 1 {
                assert(!has_node(s.nodes, step_node(s, len)));
                assert(n1[j].0 != step_node(s, len));
            }
        }
        assert forall|i: int, j: int|
            0 <= i < n1.len() && 0 <= j < n1.len() && i != j implies (#[trigger] n1[i]).1.ptr != (
        #[trigger] n1[j]).1.ptr by {
            if i < n1.len() - 1 {
                assert(rec_wf(s.nodes[i], s.mem));
            }
            if j < n1.len() - 1 {
                assert(rec_wf(s.nodes[j], s.mem));
            }
        }
    }
}

/// One cache lookup never forgets a recorded slot: any node already in the
/// table keeps exactly its record.
pub proof fn lemma_step_preserves_lookup(
    s: CacheModel,
    len: usize,
    size: usize,
    align: usize,
    n: Node,
)
    requires
        model_wf(s),
        0 < len,
        s.mem.len() < usize::MAX,
        has_node(s.nodes, n),
    ensures
        has_node(step(s, len, size, align).nodes, n),
        node_rec(step(s, len, size, align).nodes, n) == node_rec(s.nodes, n),
{
    let s1 = step(s, len, size, align);
    if step_hit(s, len) {
        assert(s1.nodes == s.nodes);
    } else {
        lemma_step_preserves_wf(s, len, size, align);
        let i = choose|i: int| 0 <= i < s.nodes.len() && s.nodes[i].0 == n;
        assert(s1.nodes[i] == s.nodes[i]);
        lemma_node_rec_at(s1.nodes, n, i);
        lemma_node_rec_at(s.nodes, n, i);
    }
}

/// A whole sequence of lookups keeps the table invariant, advances the
/// counter once per lookup, and allocates at most one block per lookup.
pub proof fn lemma_run_preserves_wf(s: CacheModel, lens: Seq<usize>, size: usize, align: usize)
    requires
        model_wf(s),
        forall|i: int| 0 <= i < lens.len() ==> 0 < #[trigger] lens[i],
        s.count + lens.len() <= usize::MAX,
        s.mem.len() + lens.len() <= usize::MAX,
    ensures
        model_wf(run(s, lens, size, align)),
        run(s, lens, size, align).count == s.count + lens.len(),
        run(s, lens, size, align).mem.len() <= s.mem.len() + lens.len(),
    decreases lens.len(),
{
    if lens.len() > 0 {
        let s1 = step(s, lens[0], size, align);
        lemma_step_preserves_wf(s, lens[0], size, align);
        assert(forall|i: int|
            0 <= i < lens.drop_first().len() ==> 0 < #[trigger] lens.drop_first()[i]);
        lemma_run_preserves_wf(s1, lens.drop_first(), size, align);
    }
}

/// A whole sequence of lookups never forgets a recorded slot.
pub proof fn lemma_run_preserves_lookup(
    s: CacheModel,
    lens: Seq<usize>,
    size: usize,
    align: usize,
    n: Node,
)
    requires
        model_wf(s),
        forall|i: int| 0 <= i < lens.len() ==> 0 < #[trigger] lens[i],
        s.count + lens.len() <= usize::MAX,
        s.mem.len() + lens.len() <= usize::MAX,
        has_node(s.nodes, n),
    ensures
        has_node(run(s, lens, size, align).nodes, n),
        node_rec(run(s, lens, size, align).nodes, n) == node_rec(s.nodes, n),
    decreases lens.len(),
{
    if lens.len() > 0 {
        let s1 = step(s, lens[0], size, align);
        lemma_step_preserves_wf(s, lens[0], size, align);
        lemma_step_preserves_lookup(s, lens[0], size, align, n);
        assert(forall|i: int|
            0 <= i < lens.drop_first().len() ==> 0 < #[trigger] lens.drop_first()[i]);
        lemma_run_preserves_lookup(s1, lens.drop_first(), size, align, n);
    }
}

/// The generalised replay argument: running a call sequence a second time,
/// from any state that already holds the first run's table and memory with
/// the counter moved back to its starting value, changes neither the table
/// nor the memory and returns the first run's block handles call for call.
pub proof fn lemma_replay_rel(
    s0: CacheModel,
    t0: CacheModel,
    lens: Seq<usize>,
    size: usize,
    align: usize,
)
    requires
        model_wf(s0),
        forall|i: int| 0 <= i < lens.len() ==> 0 < #[trigger] lens[i],
        s0.count + lens.len() <= usize::MAX,
        s0.mem.len() + lens.len() <= usize::MAX,
        t0.count == s0.count,
        t0.nodes == run(s0, lens, size, align).nodes,
        t0.mem == run(s0, lens, size, align).mem,
    ensures
        run(t0, lens, size, align).nodes == t0.nodes,
        run(t0, lens, size, align).mem == t0.mem,
        run_ids(t0, lens, size, align) == run_ids(s0, lens, size, align),
    decreases lens.len(),
{
    if lens.len() > 0 {
        let l0 = lens[0];
        let rest = lens.drop_first();
        let s1 = step(s0, l0, size, align);
        let n0 = step_node(s0, l0);
        lemma_step_preserves_wf(s0, l0, size, align);
        assert(forall|i: int| 0 <= i < rest.len() ==> 0 < #[trigger] rest[i]);

        // The record for this call's node after the first step, and the
        // handle the first run returns for it.
        if step_hit(s0, l0) {
            assert(has_node(s1.nodes, n0));
            assert(node_rec(s1.nodes, n0) == node_rec(s0.nodes, n0));
            assert(step_id(s0, l0) == node_rec(s1.nodes, n0).ptr.0 as int);
        } else {
            let i = s0.nodes.len() as int;
            assert(s1.nodes[i].0 == n0);
            lemma_node_rec_at(s1.nodes, n0, i);
            assert(node_rec(s1.nodes, n0).ptr.0 as int == s0.mem.len() as int);
            assert(step_id(s0, l0) == node_rec(s1.nodes, n0).ptr.0 as int);
        }
        let rec0 = node_rec(s1.nodes, n0);

        // The rest of the first run keeps that record, so the second run's
        // first lookup hits it.
        lemma_run_preserves_lookup(s1, rest, size, align, n0);
        assert(has_node(t0.nodes, n0));
        assert(node_rec(t0.nodes, n0) == rec0);
        assert(step_node(t0, l0) == n0);
        assert(step_hit(t0, l0));
        assert(step_id(t0, l0) == rec0.ptr.0 as int);
        assert(step_id(t0, l0) == step_id(s0, l0));

        let t1 = step(t0, l0, size, align);
        assert(t1.nodes == t0.nodes);
        assert(t1.mem == t0.mem);
        assert(t1.count == t0.count + 1);

        assert(run(s0, lens, size, align) == run(s1, rest, size, align));
        lemma_replay_rel(s1, t1, rest, size, align);

        assert(run(t0, lens, size, align) == run(t1, rest, size, align));
        assert(run_ids(t0, lens, size, align) =~= seq![step_id(t0, l0)] + run_ids(
            t1,
            rest,
            size,
            align,
        ));
        assert(run_ids(s0, lens, size, align) =~= seq![step_id(s0, l0)] + run_ids(
            s1,
            rest,
            size,
            align,
        ));
    }
}

/// Cache reuse. Replaying a fixed sequence of lookups — same call order,
/// same requested lengths — after resetting the call-site counter allocates
/// nothing, records nothing new, and returns for its `K`th call a buffer
/// backed by the very block the first pass's `K`th call returned.
pub proof fn lemma_cache_replay(s0: CacheModel, lens: Seq<usize>, size: usize, align: usize)
    requires
        model_wf(s0),
        forall|i: int| 0 <= i < lens.len() ==> 0 < #[trigger] lens[i],
        s0.count + lens.len() <= usize::MAX,
        s0.mem.len() + lens.len() <= usize::MAX,
    ensures
        ({
            let s1 = run(s0, lens, size, align);
            let r0 = CacheModel { count: s0.count, ..s1 };
            &&& run(r0, lens, size, align).mem == r0.mem
            &&& run(r0, lens, size, align).nodes == r0.nodes
            &&& run_ids(r0, lens, size, align) == run_ids(s0, lens, size, align)
        }),
{
    let s1 = run(s0, lens, size, align);
    let r0 = CacheModel { count: s0.count, ..s1 };
    lemma_replay_rel(s0, r0, lens, size, align);
}

/// Cache miss on length change. A lookup replayed at the same call-site
/// position but with a different length never hands back the first call's
/// slot; and if no slot was ever recorded for the new node, it allocates
/// fresh storage.
pub proof fn lemma_cache_miss_on_length_change(
    s0: CacheModel,
    a: usize,
    b: usize,
    size: usize,
    align: usize,
)
    requires
        model_wf(s0),
        0 < a,
        0 < b,
        a != b,
        s0.count < usize::MAX,
        s0.mem.len() < usize::MAX,
    ensures
        ({
            let s1 = step(s0, a, size, align);
            let r0 = CacheModel { count: s0.count, ..s1 };
            &&& step_id(r0, b) != step_id(s0, a)
            &&& !has_node(s0.nodes, Node { idx: s0.count, len: b }) ==> !step_hit(r0, b)
                && step_id(r0, b) == r0.mem.len() as int
        }),
{
    let s1 = step(s0, a, size, align);
    let r0 = CacheModel { count: s0.count, ..s1 };
    let na = Node { idx: s0.count, len: a };
    let nb = Node { idx: s0.count, len: b };
    lemma_step_preserves_wf(s0, a, size, align);
    assert(na != nb);
    if step_hit(s0, a) {
        let ia = choose|i: int| 0 <= i < s0.nodes.len() && s0.nodes[i].0 == na;
        assert(rec_wf(s0.nodes[ia], s0.mem));
        if step_hit(r0, b) {
            let ib = choose|i: int| 0 <= i < r0.nodes.len() && r0.nodes[i].0 == nb;
            assert(r0.nodes == s0.nodes);
            assert(ia != ib);
            assert(s0.nodes[ia].1.ptr != s0.nodes[ib].1.ptr);
        } else {
            // A miss allocates the next fresh handle, above every stored
            // slot of the table.
            assert(step_id(r0, b) == r0.mem.len() as int);
            assert(node_rec(s0.nodes, na) == s0.nodes[ia].1);
            assert(s0.nodes[ia].1.ptr.0 < s0.mem.len());
        }
    } else {
        // The first call allocated the handle `s0.mem.len()`.
        assert(step_id(s0, a) == s0.mem.len() as int);
        let i = s0.nodes.len() as int;
        assert(s1.nodes[i].0 == na);
        if step_hit(r0, b) {
            let ib = choose|j: int| 0 <= j < r0.nodes.len() && r0.nodes[j].0 == nb;
            assert(r0.nodes == s1.nodes);
            assert(ib != i);
            assert(r0.nodes[ib] == s0.nodes[ib]);
            assert(rec_wf(s0.nodes[ib], s0.mem));
            assert(node_rec(r0.nodes, nb) == r0.nodes[ib].1);
            assert(r0.nodes[ib].1.ptr.0 < s0.mem.len());
        } else {
            assert(step_id(r0, b) == r0.mem.len() as int);
            assert(r0.mem.len() == s0.mem.len() + 1);
        }
        if has_node(s0.nodes, nb) {
            let j = choose|j: int| 0 <= j < s0.nodes.len() && s0.nodes[j].0 == nb;
            assert(s1.nodes[j].0 == nb);
            assert(has_node(s1.nodes, nb));
        }
    }
}

/// Distinct nodes never alias: two different node identities recorded in a
/// sound table are backed by two different blocks.
pub proof fn lemma_distinct_nodes_never_alias(
    nodes: Seq<(Node, RawBuf)>,
    mem: Seq<Option<Seq<u64>>>,
    n1: Node,
    n2: Node,
)
    requires
        table_wf(nodes, mem),
        n1 != n2,
        has_node(nodes, n1),
        has_node(nodes, n2),
    ensures
        node_rec(nodes, n1).ptr != node_rec(nodes, n2).ptr,
{
    let i1 = choose|i: int| 0 <= i < nodes.len() && nodes[i].0 == n1;
    let i2 = choose|i: int| 0 <= i < nodes.len() && nodes[i].0 == n2;
    assert(i1 != i2);
    assert(nodes[i1].1.ptr != nodes[i2].1.ptr);
}

/// Clear idempotence: clearing a buffer a second time leaves the device
/// memory exactly as the first clear left it. The two hypotheses are the
/// memory transitions the two clears make.
pub proof fn lemma_clear_idempotent(
    a0: Seq<Option<Seq<u64>>>,
    a1: Seq<Option<Seq<u64>>>,
    a2: Seq<Option<Seq<u64>>>,
    id: int,
    len: nat,
)
    requires
        0 <= id < a0.len(),
        a1 =~= a0.update(id, Some(Seq::new(len, |i: int| 0u64))),
        a2 =~= a1.update(id, Some(Seq::new(len, |i: int| 0u64))),
    ensures
        a2 == a1,
{
    assert(a2 =~= a1);
}

} // verus!
