//! The CUDA backend, with its driver objects carried as opaque handles.
//!
//! The driver-level state — device ordinal, context, stream, BLAS handle —
//! is held as plain handle values; the memory itself follows the same
//! verified arena discipline as every other backend. Buffers of this device
//! are not host-addressable: reading one is an explicit blocking copy-out
//! (`read`), writing one an explicit copy-in (`write`).

use vstd::prelude::*;

use crate::buffer::{
    alloc_typed, cells_of_typed, clear_typed, clone_typed, defaults, drop_typed, read_typed,
    typed_of_cells, with_slice_typed, Buffer,
};
use crate::cache::{has_node, model_of, node_rec, step, step_id, Cache, Node, RawBuf};
use crate::device::Alloc;
use crate::error::Error;
use crate::flag::AllocFlag;
use crate::memory::Arena;
use crate::unit::Unit;

verus! {

/// The ordinal of a CUDA device.
#[derive(Clone, Copy, PartialEq, Eq, Structural, Debug)]
pub struct CudaIntDevice(pub usize);

/// A CUDA driver context handle.
#[derive(Clone, Copy, PartialEq, Eq, Structural, Debug)]
pub struct Context(pub usize);

/// A CUDA stream handle.
#[derive(Clone, Copy, PartialEq, Eq, Structural, Debug)]
pub struct Stream(pub usize);

/// A cuBLAS handle.
#[derive(Clone, Copy, PartialEq, Eq, Structural, Debug)]
pub struct CublasHandle(pub usize);

/// A loaded kernel module handle.
#[derive(Clone, Copy, PartialEq, Eq, Structural, Debug)]
pub struct Module(pub usize);

/// The interior of a CUDA device: its memory and its driver-level handles.
pub struct InternCudaDevice {
    /// The device memory.
    pub arena: Arena,
    /// The kernel modules loaded on this device.
    pub modules: Vec<Module>,
    /// The device ordinal this device was opened on.
    pub device: CudaIntDevice,
    /// The driver context of this device.
    pub ctx: Context,
    /// The stream computations of this device are ordered on.
    pub stream: Stream,
    /// The BLAS handle bound to the stream.
    pub handle: CublasHandle,
}

impl InternCudaDevice {
    /// Opens the device with ordinal `idx`: creates its context, stream and
    /// BLAS handle, with no memory allocated yet.
    pub fn new(idx: usize) -> (r: Result<InternCudaDevice, Error>)
        ensures
            r is Ok,
            (r matches Ok(d) ==> {
                &&& d.arena.view() =~= Seq::<Option<Seq<u64>>>::empty()
                &&& d.modules@ =~= Seq::<Module>::empty()
                &&& d.device == (CudaIntDevice(idx))
                &&& d.ctx == (Context(idx))
                &&& d.stream == (Stream(idx))
                &&& d.handle == (CublasHandle(idx))
            }),
    {
        Ok(
            InternCudaDevice {
                arena: Arena::new(),
                modules: Vec::new(),
                device: CudaIntDevice(idx),
                ctx: Context(idx),
                stream: Stream(idx),
                handle: CublasHandle(idx),
            },
        )
    }

    /// The device ordinal handle.
    pub fn device(&self) -> (r: &CudaIntDevice)
        ensures
            *r == self.device,
    {
        &self.device
    }

    /// The driver context handle.
    pub fn ctx(&self) -> (r: &Context)
        ensures
            *r == self.ctx,
    {
        &self.ctx
    }

    /// The BLAS handle.
    pub fn handle(&self) -> (r: &CublasHandle)
        ensures
            *r == self.handle,
    {
        &self.handle
    }

    /// The stream handle.
    pub fn stream(&self) -> (r: &Stream)
        ensures
            *r == self.stream,
    {
        &self.stream
    }
}

/// Used to perform calculations with a CUDA capable device. It owns its
/// interior driver state and the cache table over the device memory.
pub struct CudaDevice {
    /// The driver-level state and memory of the device.
    pub inner: InternCudaDevice,
    /// The node-keyed cache of this device.
    pub cache: Cache,
}

impl CudaDevice {
    /// Opens the CUDA device with ordinal `idx` with an empty cache.
    pub fn new(idx: usize) -> (r: Result<CudaDevice, Error>)
        ensures
            r is Ok,
            (r matches Ok(d) ==> {
                &&& d.inner.arena.view() =~= Seq::<Option<Seq<u64>>>::empty()
                &&& d.cache.nodes@ =~= Seq::<(Node, RawBuf)>::empty()
                &&& d.cache.count == 0
                &&& d.cache.wf(d.inner.arena)
                &&& d.inner.device == (CudaIntDevice(idx))
                &&& d.inner.ctx == (Context(idx))
                &&& d.inner.stream == (Stream(idx))
                &&& d.inner.handle == (CublasHandle(idx))
            }),
    {
        match InternCudaDevice::new(idx) {
            Ok(inner) => Ok(CudaDevice { inner, cache: Cache::new() }),
            Err(e) => Err(e),
        }
    }

    /// The device ordinal handle.
    pub fn device(&self) -> (r: &CudaIntDevice)
        ensures
            *r == self.inner.device,
    {
        self.inner.device()
    }

    /// The driver context handle.
    pub fn ctx(&self) -> (r: &Context)
        ensures
            *r == self.inner.ctx,
    {
        self.inner.ctx()
    }

    /// The BLAS handle.
    pub fn handle(&self) -> (r: &CublasHandle)
        ensures
            *r == self.inner.handle,
    {
        self.inner.handle()
    }

    /// The stream handle.
    pub fn stream(&self) -> (r: &Stream)
        ensures
            *r == self.inner.stream,
    {
        self.inner.stream()
    }

    /// Allocates a zero-initialised buffer of `len` elements carrying
    /// `flag` in device memory.
    pub fn alloc_buf<T: Unit>(&mut self, len: usize, flag: AllocFlag) -> (b: Buffer<T>)
        requires
            0 < len,
        ensures
            b.id == old(self).inner.arena.view().len(),
            b.len == len,
            b.flag == flag,
            final(self).inner.arena.view() =~= old(self).inner.arena.view().push(
                Some(Seq::new(len as nat, |i: int| 0u64)),
            ),
            final(self).cache == old(self).cache,
            b.live_in(final(self).inner.arena),
            b.view_in(final(self).inner.arena) == defaults::<T>(len as nat),
            old(self).cache.wf(old(self).inner.arena) ==> final(self).cache.wf(final(self).inner.arena),
    {
        let b = alloc_typed::<T>(&mut self.inner.arena, len, flag);
        proof {
            if old(self).cache.wf(old(self).inner.arena) {
                crate::laws::lemma_table_wf_push(
                    old(self).cache.nodes@,
                    old(self).inner.arena.view(),
                    Some(Seq::new(len as nat, |i: int| 0u64)),
                );
            }
        }
        b
    }

    /// Allocates an owned device buffer holding a copy of `data`: the
    /// blocking host-to-device upload of fresh data.
    pub fn with_data<T: Unit>(&mut self, data: &[T]) -> (b: Buffer<T>)
        requires
            0 < data@.len(),
        ensures
            b.id == old(self).inner.arena.view().len(),
            b.len == data@.len(),
            b.flag is Owned,
            final(self).inner.arena.view() =~= old(self).inner.arena.view().push(
                Some(cells_of_typed::<T>(data@)),
            ),
            final(self).cache == old(self).cache,
            b.live_in(final(self).inner.arena),
            b.view_in(final(self).inner.arena) == data@,
            old(self).cache.wf(old(self).inner.arena) ==> final(self).cache.wf(final(self).inner.arena),
    {
        let b = with_slice_typed::<T>(&mut self.inner.arena, data);
        proof {
            if old(self).cache.wf(old(self).inner.arena) {
                crate::laws::lemma_table_wf_push(
                    old(self).cache.nodes@,
                    old(self).inner.arena.view(),
                    Some(cells_of_typed::<T>(data@)),
                );
            }
        }
        b
    }

    /// Copies a live device buffer back to the host: the blocking
    /// device-to-host read.
    pub fn read<T: Unit>(&self, buf: &Buffer<T>) -> (r: Vec<T>)
        requires
            buf.live_in(self.inner.arena),
        ensures
            r@ == buf.view_in(self.inner.arena),
    {
        read_typed::<T>(&self.inner.arena, buf)
    }

    /// Copies `data` into a live device buffer: the blocking host-to-device
    /// write. `data` must have the buffer's length.
    pub fn write<T: Unit>(&mut self, buf: &Buffer<T>, data: &[T])
        requires
            buf.live_in(old(self).inner.arena),
            data@.len() == buf.len,
        ensures
            final(self).inner.arena.view() =~= old(self).inner.arena.view().update(
                buf.id as int,
                Some(cells_of_typed::<T>(data@)),
            ),
            final(self).cache == old(self).cache,
            buf.live_in(final(self).inner.arena),
            buf.view_in(final(self).inner.arena) == data@,
            old(self).cache.wf(old(self).inner.arena) ==> final(self).cache.wf(final(self).inner.arena),
    {
        crate::buffer::write_typed::<T>(&mut self.inner.arena, buf, data);
        proof {
            if old(self).cache.wf(old(self).inner.arena) {
                crate::laws::lemma_table_wf_update(
                    old(self).cache.nodes@,
                    old(self).inner.arena.view(),
                    buf.id as int,
                    cells_of_typed::<T>(data@),
                );
            }
        }
    }

    /// Overwrites every element of a live device buffer with the type's
    /// default value.
    pub fn clear<T: Unit>(&mut self, buf: &Buffer<T>)
        requires
            buf.live_in(old(self).inner.arena),
        ensures
            final(self).inner.arena.view() =~= old(self).inner.arena.view().update(
                buf.id as int,
                Some(Seq::new(buf.len as nat, |i: int| 0u64)),
            ),
            final(self).cache == old(self).cache,
            buf.live_in(final(self).inner.arena),
            buf.view_in(final(self).inner.arena) == defaults::<T>(buf.len as nat),
            old(self).cache.wf(old(self).inner.arena) ==> final(self).cache.wf(final(self).inner.arena),
    {
        clear_typed::<T>(&mut self.inner.arena, buf);
        proof {
            if old(self).cache.wf(old(self).inner.arena) {
                crate::laws::lemma_table_wf_update(
                    old(self).cache.nodes@,
                    old(self).inner.arena.view(),
                    buf.id as int,
                    Seq::new(buf.len as nat, |i: int| 0u64),
                );
            }
        }
    }

    /// Duplicates a live device buffer into freshly allocated device
    /// storage; the clone never aliases its source.
    pub fn clone_buf<T: Unit>(&mut self, buf: &Buffer<T>) -> (b: Buffer<T>)
        requires
            buf.live_in(old(self).inner.arena),
            0 < buf.len,
        ensures
            b.id == old(self).inner.arena.view().len(),
            b.id != buf.id,
            b.len == buf.len,
            b.flag is Owned,
            final(self).cache == old(self).cache,
            b.live_in(final(self).inner.arena),
            buf.live_in(final(self).inner.arena),
            b.view_in(final(self).inner.arena) == buf.view_in(old(self).inner.arena),
            buf.view_in(final(self).inner.arena) == buf.view_in(old(self).inner.arena),
            final(self).inner.arena.view() =~= old(self).inner.arena.view().push(
                Some(old(self).inner.arena.cells_spec(buf.id)),
            ),
            old(self).cache.wf(old(self).inner.arena) ==> final(self).cache.wf(final(self).inner.arena),
    {
        let b = clone_typed::<T>(&mut self.inner.arena, buf);
        proof {
            if old(self).cache.wf(old(self).inner.arena) {
                crate::laws::lemma_table_wf_push(
                    old(self).cache.nodes@,
                    old(self).inner.arena.view(),
                    Some(old(self).inner.arena.cells_spec(buf.id)),
                );
            }
        }
        b
    }

    /// Consumes a device buffer, releasing its backing block exactly when
    /// the buffer owns it.
    pub fn drop_buf<T: Unit>(&mut self, buf: Buffer<T>)
        requires
            buf.flag is Owned ==> buf.live_in(old(self).inner.arena),
        ensures
            buf.flag is Owned ==> final(self).inner.arena.view() =~= old(
                self,
            ).inner.arena.view().update(buf.id as int, None),
            !(buf.flag is Owned) ==> final(self).inner.arena == old(self).inner.arena,
            final(self).cache == old(self).cache,
    {
        drop_typed::<T>(&mut self.inner.arena, buf)
    }

    /// Gets — or allocates — the cache slot for the current call site and
    /// `len` elements of `T`. See [`Cache::get`].
    pub fn cached<T: Unit>(&mut self, len: usize) -> (b: Buffer<T>)
        requires
            0 < len,
            old(self).cache.count < usize::MAX,
            old(self).cache.wf(old(self).inner.arena),
            old(self).cache.compat::<T>(len),
        ensures
            final(self).cache.wf(final(self).inner.arena),
            final(self).cache.count == old(self).cache.count + 1,
            b.len == len,
            b.flag is CacheSlot,
            b.live_in(final(self).inner.arena),
            model_of(final(self).cache, final(self).inner.arena) =~~= step(
                model_of(old(self).cache, old(self).inner.arena),
                len,
                T::size_spec(),
                T::align_spec(),
            ),
            b.id as int == step_id(model_of(old(self).cache, old(self).inner.arena), len),
            ({
                let node = Node { idx: old(self).cache.count, len };
                if has_node(old(self).cache.nodes@, node) {
                    &&& final(self).inner.arena == old(self).inner.arena
                    &&& final(self).cache.nodes == old(self).cache.nodes
                    &&& b.id == node_rec(old(self).cache.nodes@, node).ptr.0
                    &&& b.view_in(final(self).inner.arena) == typed_of_cells::<T>(
                        old(self).inner.arena.cells_spec(b.id),
                    )
                } else {
                    &&& b.id == old(self).inner.arena.view().len()
                    &&& b.view_in(final(self).inner.arena) == defaults::<T>(len as nat)
                }
            }),
    {
        self.cache.get::<T>(&mut self.inner.arena, len)
    }

    /// Resets the cache's call-site counter, as done before replaying a
    /// recorded call sequence.
    pub fn set_count(&mut self, count: usize)
        ensures
            final(self).cache.count == count,
            final(self).cache.nodes == old(self).cache.nodes,
            final(self).inner == old(self).inner,
    {
        self.cache.set_count(count);
    }

    /// Releases every cache slot's backing block and empties the cache
    /// table. This runs before the device's driver handles are destroyed.
    pub fn dealloc_cache(&mut self)
        requires
            old(self).cache.wf(old(self).inner.arena),
        ensures
            final(self).cache.nodes@ =~= Seq::<(Node, RawBuf)>::empty(),
            final(self).cache.count == old(self).cache.count,
            final(self).cache.wf(final(self).inner.arena),
            final(self).inner.arena.view().len() == old(self).inner.arena.view().len(),
            forall|i: int|
                0 <= i < old(self).inner.arena.view().len() ==> #[trigger] final(self)
                    .inner.arena.view()[i] == (if crate::cache::is_slot_of(old(self).cache.nodes@, i) {
                    None::<Seq<u64>>
                } else {
                    old(self).inner.arena.view()[i]
                }),
    {
        self.cache.dealloc_cache(&mut self.inner.arena);
    }
}

/// Gets cache-owned scratch storage of `len` elements on a CUDA device: the
/// free-function form of [`CudaDevice::cached`].
pub fn cu_cached<T: Unit>(device: &mut CudaDevice, len: usize) -> (b: Buffer<T>)
    requires
        0 < len,
        old(device).cache.count < usize::MAX,
        old(device).cache.wf(old(device).inner.arena),
        old(device).cache.compat::<T>(len),
    ensures
        final(device).cache.wf(final(device).inner.arena),
        final(device).cache.count == old(device).cache.count + 1,
        b.len == len,
        b.flag is CacheSlot,
        b.live_in(final(device).inner.arena),
        model_of(final(device).cache, final(device).inner.arena) =~~= step(
            model_of(old(device).cache, old(device).inner.arena),
            len,
            T::size_spec(),
            T::align_spec(),
        ),
        b.id as int == step_id(model_of(old(device).cache, old(device).inner.arena), len),
{
    device.cached::<T>(len)
}

impl Alloc for CudaDevice {
    open spec fn arena_spec(&self) -> Arena {
        self.inner.arena
    }

    fn arena(&self) -> &Arena {
        &self.inner.arena
    }

    fn arena_mut(&mut self) -> &mut Arena {
        &mut self.inner.arena
    }
}

} // verus!
