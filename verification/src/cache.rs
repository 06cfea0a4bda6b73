//! The node-keyed cache: get-or-allocate storage reuse across replayed
//! computations.
//!
//! A computation asks the cache for scratch storage with `get`. The cache
//! derives a [`Node`] from its call-site counter and the requested length,
//! and either hands back the slot already allocated for that node — no new
//! allocation — or allocates a fresh slot and remembers it. Replaying the
//! same sequence of calls with the counter reset therefore reuses the same
//! backing blocks call for call.
//!
//! Slots are stored type-erased as [`RawBuf`] records so that one table per
//! device serves buffers of every element type; the recorded element size
//! and alignment are checked before a slot is handed back as a typed buffer.

use vstd::prelude::*;

use crate::buffer::{alloc_typed, defaults, typed_of_cells, Buffer};
use crate::flag::AllocFlag;
use crate::memory::Arena;
use crate::unit::Unit;
use core::marker::PhantomData;

verus! {

/// The identity of one cache slot: which call site (in replay order) asked,
/// and how many elements it asked for. Two nodes are the same slot exactly
/// when both match; a changed length at the same call site is a different
/// node, never a reinterpretation of the old slot.
#[derive(Clone, Copy, PartialEq, Eq, Structural, Hash, Debug)]
pub struct Node {
    /// The call-site index: the value of the cache counter at the lookup.
    pub idx: usize,
    /// The requested element count.
    pub len: usize,
}

impl Node {
    /// Builds the node identity for call-site index `idx` requesting `len`
    /// elements.
    pub fn new(idx: usize, len: usize) -> (n: Node)
        ensures
            n == (Node { idx, len }),
    {
        Node { idx, len }
    }
}

/// A backing-block handle erased to its canonical form, as stored in cache
/// records.
#[derive(Clone, Copy, PartialEq, Eq, Structural, Debug)]
pub struct CpuPtr(pub usize);

/// A type-erased cache record: the canonical handle of the slot's backing
/// block together with enough layout metadata — element count, element size,
/// alignment and ownership flag — to refuse an unsound typed reconstruction
/// instead of silently reinterpreting the stored cells.
#[derive(Clone, Copy, PartialEq, Eq, Structural, Debug)]
pub struct RawBuf {
    /// The erased handle of the backing block.
    pub ptr: CpuPtr,
    /// The element count of the slot.
    pub len: usize,
    /// The element size in bytes of the type the slot was made for.
    pub size: usize,
    /// The element alignment in bytes of the type the slot was made for.
    pub align: usize,
    /// The ownership flag the slot was made with.
    pub flag: AllocFlag,
}

/// Erases a typed block handle into a cache record, recording the layout of
/// `T` alongside it. The record's flag is authoritative for what `destruct`
/// later hands back.
pub fn construct<T: Unit>(ptr: CpuPtr, len: usize, flag: AllocFlag) -> (r: RawBuf)
    ensures
        r == (RawBuf { ptr, len, size: T::size_spec(), align: T::align_spec(), flag }),
{
    RawBuf { ptr, len, size: T::size(), align: T::align(), flag }
}

/// Reinterprets an erased record back into a typed buffer, carrying over the
/// record's handle, length and flag. The caller must request the same
/// element layout that produced the record; this is the single point where
/// type erasure is undone.
pub fn destruct<T: Unit>(r: &RawBuf) -> (b: Buffer<T>)
    requires
        r.size == T::size_spec(),
        r.align == T::align_spec(),
    ensures
        b.id == r.ptr.0,
        b.len == r.len,
        b.flag == r.flag,
{
    Buffer { id: r.ptr.0, len: r.len, flag: r.flag, marker: PhantomData }
}

/// True when the table holds a record for node `n`.
pub open spec fn has_node(nodes: Seq<(Node, RawBuf)>, n: Node) -> bool {
    exists|i: int| 0 <= i < nodes.len() && nodes[i].0 == n
}

/// The record the table holds for node `n` (meaningful under `table_wf`,
/// which makes the record unique).
pub open spec fn node_rec(nodes: Seq<(Node, RawBuf)>, n: Node) -> RawBuf {
    nodes[choose|i: int| 0 <= i < nodes.len() && nodes[i].0 == n].1
}

/// True when slot record `i` of the table is sound with respect to the
/// memory `mem`: its block is live with exactly the node's element count,
/// and the slot is marked as cache-owned.
pub open spec fn rec_wf(p: (Node, RawBuf), mem: Seq<Option<Seq<u64>>>) -> bool {
    &&& 0 < p.0.len
    &&& p.1.len == p.0.len
    &&& p.1.flag is CacheSlot
    &&& p.1.ptr.0 < mem.len()
    &&& mem[p.1.ptr.0 as int] is Some
    &&& mem[p.1.ptr.0 as int]->0.len() == p.0.len
}

/// The cache table invariant: every record is sound for the memory, no node
/// occurs twice, and no two nodes share a backing block.
pub open spec fn table_wf(nodes: Seq<(Node, RawBuf)>, mem: Seq<Option<Seq<u64>>>) -> bool {
    &&& forall|i: int| 0 <= i < nodes.len() ==> rec_wf(#[trigger] nodes[i], mem)
    &&& forall|i: int, j: int|
        0 <= i < nodes.len() && 0 <= j < nodes.len() && i != j ==> (#[trigger] nodes[i]).0 != (
        #[trigger] nodes[j]).0
    &&& forall|i: int, j: int|
        0 <= i < nodes.len() && 0 <= j < nodes.len() && i != j ==> (#[trigger] nodes[i]).1.ptr != (
        #[trigger] nodes[j]).1.ptr
}

/// The per-device cache: a table from node identities to erased slot
/// records, and the call-site counter that mints node identities.
///
/// The counter increments once per lookup; replaying the same sequence of
/// lookups after resetting the counter reproduces the same node identities
/// and therefore reuses the same slots.
pub struct Cache {
    /// The association table from nodes to erased records.
    pub nodes: Vec<(Node, RawBuf)>,
    /// The call-site counter, incremented once per lookup.
    pub count: usize,
}

impl Cache {
    /// True when this cache's table is sound for `arena`.
    pub open spec fn wf(&self, arena: Arena) -> bool {
        table_wf(self.nodes@, arena.view())
    }

    /// An empty cache with the counter at zero.
    pub fn new() -> (c: Cache)
        ensures
            c.nodes@ =~= Seq::<(Node, RawBuf)>::empty(),
            c.count == 0,
    {
        Cache { nodes: Vec::new(), count: 0 }
    }

    /// Resets the call-site counter, as done before replaying a recorded
    /// call sequence. The table itself is kept.
    pub fn set_count(&mut self, count: usize)
        ensures
            final(self).count == count,
            final(self).nodes == old(self).nodes,
    {
        self.count = count;
    }

    /// Looks node `n` up in the table.
    pub fn find(&self, n: Node) -> (r: Option<RawBuf>)
        requires
            forall|i: int, j: int|
                0 <= i < self.nodes@.len() && 0 <= j < self.nodes@.len() && i != j ==> (
                #[trigger] self.nodes@[i]).0 != (#[trigger] self.nodes@[j]).0,
        ensures
            match r {
                Some(rec) => has_node(self.nodes@, n) && rec == node_rec(self.nodes@, n),
                None => !has_node(self.nodes@, n),
            },
    {
        let count = self.nodes.len();
        let mut i: usize = 0;
        while i < count
            invariant
                count == self.nodes@.len(),
                i <= count,
                forall|j: int| 0 <= j < i ==> (#[trigger] self.nodes@[j]).0 != n,
                forall|p: int, q: int|
                    0 <= p < self.nodes@.len() && 0 <= q < self.nodes@.len() && p != q ==> (
                    #[trigger] self.nodes@[p]).0 != (#[trigger] self.nodes@[q]).0,
            decreases count - i,
        {
            let entry = self.nodes[i];
            if entry.0.idx == n.idx && entry.0.len == n.len {
                proof {
                    assert(self.nodes@[i as int].0 == n);
                    assert(has_node(self.nodes@, n));
                    let j = choose|j: int| 0 <= j < self.nodes@.len() && self.nodes@[j].0 == n;
                    assert(j == i as int);
                }
                return Some(entry.1);
            }
            i = i + 1;
        }
        None
    }

    /// Allocates a fresh slot for node `node` — which must not be in the
    /// table yet — records it, and hands back a cache-owned buffer over it.
    pub fn add_node<T: Unit>(&mut self, arena: &mut Arena, node: Node) -> (b: Buffer<T>)
        requires
            0 < node.len,
            old(self).wf(*old(arena)),
            !has_node(old(self).nodes@, node),
        ensures
            final(self).wf(*final(arena)),
            final(self).count == old(self).count,
            b.id == old(arena).view().len(),
            b.len == node.len,
            b.flag is CacheSlot,
            final(arena).view() =~= old(arena).view().push(
                Some(Seq::new(node.len as nat, |i: int| 0u64)),
            ),
            final(self).nodes@ =~= old(self).nodes@.push(
                (
                    node,
                    RawBuf {
                        ptr: CpuPtr(old(arena).view().len() as usize),
                        len: node.len,
                        size: T::size_spec(),
                        align: T::align_spec(),
                        flag: AllocFlag::CacheSlot,
                    },
                ),
            ),
            b.live_in(*final(arena)),
            b.view_in(*final(arena)) == defaults::<T>(node.len as nat),
    {
        let b = alloc_typed::<T>(arena, node.len, AllocFlag::CacheSlot);
        let rec = construct::<T>(CpuPtr(b.ptr()), node.len, AllocFlag::CacheSlot);
        self.nodes.push((node, rec));
        proof {
            let n1 = self.nodes@;
            let m1 = arena.view();
            assert forall|i: int| 0 <= i < n1.len() implies rec_wf(#[trigger] n1[i], m1) by {
                if i < n1.len() - 1 {
                    assert(rec_wf(old(self).nodes@[i], old(arena).view()));
                }
            }
            assert forall|i: int, j: int|
                0 <= i < n1.len() && 0 <= j < n1.len() && i != j implies (#[trigger] n1[i]).1.ptr
                != (#[trigger] n1[j]).1.ptr by {
                if i < n1.len() - 1 && j < n1.len() - 1 {
                    assert(rec_wf(old(self).nodes@[i], old(arena).view()));
                    assert(rec_wf(old(self).nodes@[j], old(arena).view()));
                } else if i < n1.len() - 1 {
                    assert(rec_wf(old(self).nodes@[i], old(arena).view()));
                } else if j < n1.len() - 1 {
                    assert(rec_wf(old(self).nodes@[j], old(arena).view()));
                }
            }
        }
        b
    }

    /// True when a lookup of `len` elements at the current counter either
    /// misses or hits a slot recorded for exactly the layout of `T` — the
    /// condition under which `get` may reinterpret the slot.
    pub open spec fn compat<T: Unit>(&self, len: usize) -> bool {
        has_node(self.nodes@, Node { idx: self.count, len }) ==> {
            let rec = node_rec(self.nodes@, Node { idx: self.count, len });
            rec.size == T::size_spec() && rec.align == T::align_spec()
        }
    }

    /// Looks up — or allocates — the slot for the current call site and
    /// requested length, and hands back a cache-owned buffer over it.
    ///
    /// On a hit no allocation happens and the buffer aliases the stored
    /// slot's block; on a miss a fresh zero-initialised slot is allocated
    /// and recorded. Either way the counter advances by one.
    pub fn get<T: Unit>(&mut self, arena: &mut Arena, len: usize) -> (b: Buffer<T>)
        requires
            0 < len,
            old(self).count < usize::MAX,
            old(self).wf(*old(arena)),
            old(self).compat::<T>(len),
        ensures
            final(self).wf(*final(arena)),
            final(self).count == old(self).count + 1,
            b.len == len,
            b.flag is CacheSlot,
            b.live_in(*final(arena)),
            model_of(*final(self), *final(arena)) =~~= step(
                model_of(*old(self), *old(arena)),
                len,
                T::size_spec(),
                T::align_spec(),
            ),
            b.id as int == step_id(model_of(*old(self), *old(arena)), len),
            ({
                let node = Node { idx: old(self).count, len };
                if has_node(old(self).nodes@, node) {
                    &&& *final(arena) == *old(arena)
                    &&& final(self).nodes == old(self).nodes
                    &&& b.id == node_rec(old(self).nodes@, node).ptr.0
                    &&& b.view_in(*final(arena)) == typed_of_cells::<T>(
                        old(arena).cells_spec(b.id),
                    )
                } else {
                    &&& b.id == old(arena).view().len()
                    &&& final(arena).view() =~= old(arena).view().push(
                        Some(Seq::new(len as nat, |i: int| 0u64)),
                    )
                    &&& final(self).nodes@ =~= old(self).nodes@.push(
                        (
                            node,
                            RawBuf {
                                ptr: CpuPtr(old(arena).view().len() as usize),
                                len,
                                size: T::size_spec(),
                                align: T::align_spec(),
                                flag: AllocFlag::CacheSlot,
                            },
                        ),
                    )
                    &&& b.view_in(*final(arena)) == defaults::<T>(len as nat)
                }
            }),
    {
        let node = Node::new(self.count, len);
        self.count = self.count + 1;
        match self.find(node) {
            Some(rec) => {
                proof {
                    let i = choose|i: int|
                        0 <= i < old(self).nodes@.len() && old(self).nodes@[i].0 == node;
                    assert(rec_wf(old(self).nodes@[i], arena.view()));
                }
                destruct::<T>(&rec)
            },
            None => self.add_node::<T>(arena, node),
        }
    }

    /// Like `get`, but refusing a layout-incompatible hit instead of
    /// requiring its absence: hands back `None` exactly when the slot for
    /// this call site was recorded for another element layout. The counter
    /// advances either way.
    pub fn get_checked<T: Unit>(&mut self, arena: &mut Arena, len: usize) -> (r: Option<
        Buffer<T>,
    >)
        requires
            0 < len,
            old(self).count < usize::MAX,
            old(self).wf(*old(arena)),
        ensures
            final(self).wf(*final(arena)),
            final(self).count == old(self).count + 1,
            r is Some <==> old(self).compat::<T>(len),
            !old(self).compat::<T>(len) ==> {
                &&& *final(arena) == *old(arena)
                &&& final(self).nodes == old(self).nodes
            },
            (r matches Some(b) ==> {
                &&& b.len == len
                &&& b.flag is CacheSlot
                &&& b.live_in(*final(arena))
                &&& model_of(*final(self), *final(arena)) =~~= step(
                    model_of(*old(self), *old(arena)),
                    len,
                    T::size_spec(),
                    T::align_spec(),
                )
                &&& b.id as int == step_id(model_of(*old(self), *old(arena)), len)
            }),
    {
        let node = Node::new(self.count, len);
        match self.find(node) {
            Some(rec) => {
                if !(rec.size == T::size() && rec.align == T::align()) {
                    self.count = self.count + 1;
                    return None;
                }
            },
            None => {},
        }
        Some(self.get::<T>(arena, len))
    }

    /// Releases every slot's backing block and empties the table. The
    /// call-site counter is kept; memory not owned by the cache is
    /// untouched. This must run before the owning device is torn down.
    pub fn dealloc_cache(&mut self, arena: &mut Arena)
        requires
            old(self).wf(*old(arena)),
        ensures
            final(self).nodes@ =~= Seq::<(Node, RawBuf)>::empty(),
            final(self).count == old(self).count,
            final(arena).view().len() == old(arena).view().len(),
            forall|i: int|
                0 <= i < old(arena).view().len() ==> #[trigger] final(arena).view()[i] == (
                if is_slot_of(old(self).nodes@, i) {
                    None::<Seq<u64>>
                } else {
                    old(arena).view()[i]
                }),
            final(self).wf(*final(arena)),
    {
        let total = self.nodes.len();
        let mut k: usize = 0;
        while k < total
            invariant
                self.nodes == old(self).nodes,
                self.count == old(self).count,
                total == self.nodes@.len(),
                k <= total,
                table_wf(old(self).nodes@, old(arena).view()),
                arena.view().len() == old(arena).view().len(),
                forall|i: int|
                    0 <= i < old(arena).view().len() ==> #[trigger] arena.view()[i] == (
                    if is_slot_prefix(old(self).nodes@, k as int, i) {
                        None::<Seq<u64>>
                    } else {
                        old(arena).view()[i]
                    }),
            decreases total - k,
        {
            let rec = self.nodes[k].1;
            proof {
                assert(rec_wf(old(self).nodes@[k as int], old(arena).view()));
                assert forall|j: int| 0 <= j < k implies old(self).nodes@[j].1.ptr.0
                    != rec.ptr.0 by {}
                assert(!is_slot_prefix(old(self).nodes@, k as int, rec.ptr.0 as int));
                assert(arena.view()[rec.ptr.0 as int] == old(arena).view()[rec.ptr.0 as int]);
            }
            arena.free(rec.ptr.0);
            k = k + 1;
        }
        self.nodes.clear();
        proof {
            assert forall|i: int| 0 <= i < old(arena).view().len() implies #[trigger] arena.view()[i]
                == (if is_slot_of(old(self).nodes@, i) {
                None::<Seq<u64>>
            } else {
                old(arena).view()[i]
            }) by {
                assert(is_slot_of(old(self).nodes@, i) == is_slot_prefix(
                    old(self).nodes@,
                    old(self).nodes@.len() as int,
                    i,
                ));
            }
        }
    }
}

/// The abstract state of one device's cache and memory, as one value: the
/// slot table, the call-site counter and the memory contents. The effect of
/// `Cache::get` on this state is the function [`step`]; the laws about
/// replayed call sequences are stated over it.
#[verifier::ext_equal]
pub struct CacheModel {
    /// The slot table.
    pub nodes: Seq<(Node, RawBuf)>,
    /// The call-site counter.
    pub count: usize,
    /// The memory of the owning device.
    pub mem: Seq<Option<Seq<u64>>>,
}

/// The abstract state of a cache together with its device's arena.
pub open spec fn model_of(c: Cache, a: Arena) -> CacheModel {
    CacheModel { nodes: c.nodes@, count: c.count, mem: a.view() }
}

/// The model state is sound: the table invariant holds and the bookkeeping
/// counts stay representable.
pub open spec fn model_wf(s: CacheModel) -> bool {
    table_wf(s.nodes, s.mem)
}

/// The node identity a lookup of `len` elements gets in state `s`.
pub open spec fn step_node(s: CacheModel, len: usize) -> Node {
    Node { idx: s.count, len }
}

/// Whether a lookup of `len` elements in state `s` hits an existing slot.
pub open spec fn step_hit(s: CacheModel, len: usize) -> bool {
    has_node(s.nodes, step_node(s, len))
}

/// The block handle a lookup of `len` elements returns in state `s`: the
/// recorded slot on a hit, the next fresh handle on a miss.
pub open spec fn step_id(s: CacheModel, len: usize) -> int {
    if step_hit(s, len) {
        node_rec(s.nodes, step_node(s, len)).ptr.0 as int
    } else {
        s.mem.len() as int
    }
}

/// The state after one lookup of `len` elements for an element type of the
/// given size and alignment: on a hit only the counter advances; on a miss a
/// zero-filled block is allocated and recorded under the minted node.
pub open spec fn step(s: CacheModel, len: usize, size: usize, align: usize) -> CacheModel {
    if step_hit(s, len) {
        CacheModel { count: (s.count + 1) as usize, ..s }
    } else {
        CacheModel {
            nodes: s.nodes.push(
                (
                    step_node(s, len),
                    RawBuf {
                        ptr: CpuPtr(s.mem.len() as usize),
                        len,
                        size,
                        align,
                        flag: AllocFlag::CacheSlot,
                    },
                ),
            ),
            count: (s.count + 1) as usize,
            mem: s.mem.push(Some(Seq::new(len as nat, |i: int| 0u64))),
        }
    }
}

/// The state after a whole sequence of lookups, one `step` per requested
/// length.
pub open spec fn run(s: CacheModel, lens: Seq<usize>, size: usize, align: usize) -> CacheModel
    decreases lens.len(),
{
    if lens.len() == 0 {
        s
    } else {
        run(step(s, lens[0], size, align), lens.drop_first(), size, align)
    }
}

/// The block handles the lookups of a sequence return, in call order.
pub open spec fn run_ids(s: CacheModel, lens: Seq<usize>, size: usize, align: usize) -> Seq<int>
    decreases lens.len(),
{
    if lens.len() == 0 {
        Seq::empty()
    } else {
        seq![step_id(s, lens[0])] + run_ids(
            step(s, lens[0], size, align),
            lens.drop_first(),
            size,
            align,
        )
    }
}

/// True when some record of the table uses block `i` as its slot.
pub open spec fn is_slot_of(nodes: Seq<(Node, RawBuf)>, i: int) -> bool {
    exists|j: int| 0 <= j < nodes.len() && nodes[j].1.ptr.0 == i
}

/// True when one of the first `k` records of the table uses block `i` as
/// its slot.
pub open spec fn is_slot_prefix(nodes: Seq<(Node, RawBuf)>, k: int, i: int) -> bool {
    exists|j: int| 0 <= j < k && j < nodes.len() && nodes[j].1.ptr.0 == i
}

} // verus!
