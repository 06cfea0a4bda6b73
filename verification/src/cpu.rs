//! The host-memory backend.
//!
//! A [`CPU`] owns an arena of host blocks and the cache table over them. It
//! is the reference backend: every operation of the consumer-facing surface
//! is available on it.

use vstd::prelude::*;

use crate::buffer::{
    alloc_typed, cells_of_typed, clear_typed, clone_typed, defaults, drop_typed, read_typed,
    typed_of_cells, with_slice_typed, Buffer,
};
use crate::cache::{has_node, model_of, node_rec, step, step_id, Cache, Node};
use crate::device::Alloc;
use crate::flag::AllocFlag;
use crate::memory::Arena;
use crate::unit::Unit;

verus! {

/// A CPU is used to perform calculations on the host. It owns the host
/// arena and the cache table over it; every buffer made from it stays valid
/// while the device lives and the buffer's block is not released.
pub struct CPU {
    /// The host memory of this device.
    pub arena: Arena,
    /// The node-keyed cache of this device.
    pub cache: Cache,
}

impl CPU {
    /// A fresh device with no allocations and an empty cache.
    pub fn new() -> (d: CPU)
        ensures
            d.arena.view() =~= Seq::<Option<Seq<u64>>>::empty(),
            d.cache.nodes@ =~= Seq::<(Node, crate::cache::RawBuf)>::empty(),
            d.cache.count == 0,
            d.cache.wf(d.arena),
    {
        CPU { arena: Arena::new(), cache: Cache::new() }
    }

    /// Allocates a zero-initialised buffer of `len` elements carrying
    /// `flag`.
    pub fn alloc_buf<T: Unit>(&mut self, len: usize, flag: AllocFlag) -> (b: Buffer<T>)
        requires
            0 < len,
        ensures
            b.id == old(self).arena.view().len(),
            b.len == len,
            b.flag == flag,
            final(self).arena.view() =~= old(self).arena.view().push(
                Some(Seq::new(len as nat, |i: int| 0u64)),
            ),
            final(self).cache == old(self).cache,
            b.live_in(final(self).arena),
            b.view_in(final(self).arena) == defaults::<T>(len as nat),
            old(self).cache.wf(old(self).arena) ==> final(self).cache.wf(final(self).arena),
    {
        let b = alloc_typed::<T>(&mut self.arena, len, flag);
        proof {
            if old(self).cache.wf(old(self).arena) {
                crate::laws::lemma_table_wf_push(
                    old(self).cache.nodes@,
                    old(self).arena.view(),
                    Some(Seq::new(len as nat, |i: int| 0u64)),
                );
            }
        }
        b
    }

    /// Allocates an owned buffer holding a copy of `data`.
    pub fn with_slice<T: Unit>(&mut self, data: &[T]) -> (b: Buffer<T>)
        requires
            0 < data@.len(),
        ensures
            b.id == old(self).arena.view().len(),
            b.len == data@.len(),
            b.flag is Owned,
            final(self).arena.view() =~= old(self).arena.view().push(
                Some(cells_of_typed::<T>(data@)),
            ),
            final(self).cache == old(self).cache,
            b.live_in(final(self).arena),
            b.view_in(final(self).arena) == data@,
            old(self).cache.wf(old(self).arena) ==> final(self).cache.wf(final(self).arena),
    {
        let b = with_slice_typed::<T>(&mut self.arena, data);
        proof {
            if old(self).cache.wf(old(self).arena) {
                crate::laws::lemma_table_wf_push(
                    old(self).cache.nodes@,
                    old(self).arena.view(),
                    Some(cells_of_typed::<T>(data@)),
                );
            }
        }
        b
    }

    /// Allocates an owned buffer adopting the elements of `vec`; the vector
    /// is consumed, so no second owner of the data remains.
    pub fn alloc_with_vec<T: Unit>(&mut self, vec: Vec<T>) -> (b: Buffer<T>)
        requires
            0 < vec@.len(),
        ensures
            b.id == old(self).arena.view().len(),
            b.len == vec@.len(),
            b.flag is Owned,
            final(self).arena.view() =~= old(self).arena.view().push(
                Some(cells_of_typed::<T>(vec@)),
            ),
            final(self).cache == old(self).cache,
            b.live_in(final(self).arena),
            b.view_in(final(self).arena) == vec@,
            old(self).cache.wf(old(self).arena) ==> final(self).cache.wf(final(self).arena),
    {
        let b = with_slice_typed::<T>(&mut self.arena, vec.as_slice());
        proof {
            if old(self).cache.wf(old(self).arena) {
                crate::laws::lemma_table_wf_push(
                    old(self).cache.nodes@,
                    old(self).arena.view(),
                    Some(cells_of_typed::<T>(vec@)),
                );
            }
        }
        b
    }

    /// Reads the elements of a live buffer.
    pub fn read<T: Unit>(&self, buf: &Buffer<T>) -> (r: Vec<T>)
        requires
            buf.live_in(self.arena),
        ensures
            r@ == buf.view_in(self.arena),
    {
        read_typed::<T>(&self.arena, buf)
    }

    /// Overwrites the elements of a live buffer with a copy of `data`, whose
    /// length must equal the buffer's. Afterwards the buffer reads back
    /// exactly as `data`.
    pub fn write<T: Unit>(&mut self, buf: &Buffer<T>, data: &[T])
        requires
            buf.live_in(old(self).arena),
            data@.len() == buf.len,
        ensures
            final(self).arena.view() =~= old(self).arena.view().update(
                buf.id as int,
                Some(cells_of_typed::<T>(data@)),
            ),
            final(self).cache == old(self).cache,
            buf.live_in(final(self).arena),
            buf.view_in(final(self).arena) == data@,
            old(self).cache.wf(old(self).arena) ==> final(self).cache.wf(final(self).arena),
    {
        crate::buffer::write_typed::<T>(&mut self.arena, buf, data);
        proof {
            if old(self).cache.wf(old(self).arena) {
                crate::laws::lemma_table_wf_update(
                    old(self).cache.nodes@,
                    old(self).arena.view(),
                    buf.id as int,
                    cells_of_typed::<T>(data@),
                );
            }
        }
    }

    /// Overwrites every element of a live buffer with the type's default
    /// value.
    pub fn clear<T: Unit>(&mut self, buf: &Buffer<T>)
        requires
            buf.live_in(old(self).arena),
        ensures
            final(self).arena.view() =~= old(self).arena.view().update(
                buf.id as int,
                Some(Seq::new(buf.len as nat, |i: int| 0u64)),
            ),
            final(self).cache == old(self).cache,
            buf.live_in(final(self).arena),
            buf.view_in(final(self).arena) == defaults::<T>(buf.len as nat),
            old(self).cache.wf(old(self).arena) ==> final(self).cache.wf(final(self).arena),
    {
        clear_typed::<T>(&mut self.arena, buf);
        proof {
            if old(self).cache.wf(old(self).arena) {
                crate::laws::lemma_table_wf_update(
                    old(self).cache.nodes@,
                    old(self).arena.view(),
                    buf.id as int,
                    Seq::new(buf.len as nat, |i: int| 0u64),
                );
            }
        }
    }

    /// Duplicates a live buffer into freshly allocated storage: the clone is
    /// owned, never aliases its source, and reads back as the same elements.
    pub fn clone_buf<T: Unit>(&mut self, buf: &Buffer<T>) -> (b: Buffer<T>)
        requires
            buf.live_in(old(self).arena),
            0 < buf.len,
        ensures
            b.id == old(self).arena.view().len(),
            b.id != buf.id,
            b.len == buf.len,
            b.flag is Owned,
            final(self).cache == old(self).cache,
            b.live_in(final(self).arena),
            buf.live_in(final(self).arena),
            b.view_in(final(self).arena) == buf.view_in(old(self).arena),
            buf.view_in(final(self).arena) == buf.view_in(old(self).arena),
            final(self).arena.view() =~= old(self).arena.view().push(
                Some(old(self).arena.cells_spec(buf.id)),
            ),
            old(self).cache.wf(old(self).arena) ==> final(self).cache.wf(final(self).arena),
    {
        let b = clone_typed::<T>(&mut self.arena, buf);
        proof {
            if old(self).cache.wf(old(self).arena) {
                crate::laws::lemma_table_wf_push(
                    old(self).cache.nodes@,
                    old(self).arena.view(),
                    Some(old(self).arena.cells_spec(buf.id)),
                );
            }
        }
        b
    }

    /// Consumes a buffer, releasing its backing block exactly when the
    /// buffer owns it; a borrowed or cache-owned block stays untouched.
    pub fn drop_buf<T: Unit>(&mut self, buf: Buffer<T>)
        requires
            buf.flag is Owned ==> buf.live_in(old(self).arena),
        ensures
            buf.flag is Owned ==> final(self).arena.view() =~= old(self).arena.view().update(
                buf.id as int,
                None,
            ),
            !(buf.flag is Owned) ==> final(self).arena == old(self).arena,
            final(self).cache == old(self).cache,
    {
        drop_typed::<T>(&mut self.arena, buf)
    }

    /// Gets — or allocates — the cache slot for the current call site and
    /// `len` elements of `T`. See [`Cache::get`].
    pub fn cached<T: Unit>(&mut self, len: usize) -> (b: Buffer<T>)
        requires
            0 < len,
            old(self).cache.count < usize::MAX,
            old(self).cache.wf(old(self).arena),
            old(self).cache.compat::<T>(len),
        ensures
            final(self).cache.wf(final(self).arena),
            final(self).cache.count == old(self).cache.count + 1,
            b.len == len,
            b.flag is CacheSlot,
            b.live_in(final(self).arena),
            model_of(final(self).cache, final(self).arena) =~~= step(
                model_of(old(self).cache, old(self).arena),
                len,
                T::size_spec(),
                T::align_spec(),
            ),
            b.id as int == step_id(model_of(old(self).cache, old(self).arena), len),
            ({
                let node = Node { idx: old(self).cache.count, len };
                if has_node(old(self).cache.nodes@, node) {
                    &&& final(self).arena == old(self).arena
                    &&& final(self).cache.nodes == old(self).cache.nodes
                    &&& b.id == node_rec(old(self).cache.nodes@, node).ptr.0
                    &&& b.view_in(final(self).arena) == typed_of_cells::<T>(
                        old(self).arena.cells_spec(b.id),
                    )
                } else {
                    &&& b.id == old(self).arena.view().len()
                    &&& b.view_in(final(self).arena) == defaults::<T>(len as nat)
                }
            }),
    {
        self.cache.get::<T>(&mut self.arena, len)
    }

    /// Resets the cache's call-site counter, as done before replaying a
    /// recorded call sequence.
    pub fn set_count(&mut self, count: usize)
        ensures
            final(self).cache.count == count,
            final(self).cache.nodes == old(self).cache.nodes,
            final(self).arena == old(self).arena,
    {
        self.cache.set_count(count);
    }

    /// Releases every cache slot's backing block and empties the cache
    /// table; memory not owned by the cache is untouched.
    pub fn dealloc_cache(&mut self)
        requires
            old(self).cache.wf(old(self).arena),
        ensures
            final(self).cache.nodes@ =~= Seq::<(Node, crate::cache::RawBuf)>::empty(),
            final(self).cache.count == old(self).cache.count,
            final(self).cache.wf(final(self).arena),
            final(self).arena.view().len() == old(self).arena.view().len(),
            forall|i: int|
                0 <= i < old(self).arena.view().len() ==> #[trigger] final(self).arena.view()[i]
                    == (if crate::cache::is_slot_of(old(self).cache.nodes@, i) {
                    None::<Seq<u64>>
                } else {
                    old(self).arena.view()[i]
                }),
    {
        self.cache.dealloc_cache(&mut self.arena);
    }

    /// Tears the device down: releases every block still live — owned
    /// buffers' and cache slots' alike — and empties the cache table. Every
    /// outstanding buffer of this device dangles afterwards.
    pub fn dealloc_all(&mut self)
        ensures
            final(self).arena.view() =~= Seq::new(
                old(self).arena.view().len(),
                |i: int| None::<Seq<u64>>,
            ),
            final(self).cache.nodes@ =~= Seq::<(Node, crate::cache::RawBuf)>::empty(),
            final(self).cache.count == old(self).cache.count,
            final(self).cache.wf(final(self).arena),
    {
        let total = self.arena.block_count();
        let mut i: usize = 0;
        while i < total
            invariant
                total == self.arena.view().len(),
                total == old(self).arena.view().len(),
                self.cache == old(self).cache,
                i <= total,
                forall|j: int|
                    0 <= j < total ==> #[trigger] self.arena.view()[j] == (if j < i {
                        None::<Seq<u64>>
                    } else {
                        old(self).arena.view()[j]
                    }),
            decreases total - i,
        {
            if self.arena.live(i) {
                self.arena.free(i);
            }
            i = i + 1;
        }
        self.cache.nodes.clear();
        assert(self.arena.view() =~= Seq::new(
            old(self).arena.view().len(),
            |i: int| None::<Seq<u64>>,
        ));
    }
}

impl Alloc for CPU {
    open spec fn arena_spec(&self) -> Arena {
        self.arena
    }

    fn arena(&self) -> &Arena {
        &self.arena
    }

    fn arena_mut(&mut self) -> &mut Arena {
        &mut self.arena
    }
}

} // verus!
