//! The OpenCL backend, with its platform objects carried as opaque handles,
//! and the device registry that stands in for platform discovery.
//!
//! As with the CUDA backend, the platform-level state — device id, context,
//! command queue — is held as plain handle values while the memory follows
//! the verified arena discipline. Reads and writes of a device buffer are
//! explicit blocking transfers through the command queue.

use vstd::prelude::*;

use crate::buffer::{
    alloc_typed, cells_of_typed, clear_typed, clone_typed, defaults, drop_typed, read_typed,
    typed_of_cells, with_slice_typed, Buffer,
};
use crate::cache::{has_node, model_of, node_rec, step, step_id, Cache, Node, RawBuf};
use crate::device::Alloc;
use crate::error::{Error, OclErrorKind};
use crate::flag::AllocFlag;
use crate::memory::Arena;
use crate::unit::Unit;

verus! {

/// The id of an OpenCL device on its platform.
#[derive(Clone, Copy, PartialEq, Eq, Structural, Debug)]
pub struct CLIntDevice(pub usize);

impl CLIntDevice {
    /// The name this device reports.
    pub fn get_name(&self) -> (r: Result<String, Error>)
        ensures
            r is Ok,
            (r matches Ok(s) ==> s@ == "OpenCL GPU"@),
    {
        Ok("OpenCL GPU".to_owned())
    }

    /// The platform version this device reports.
    pub fn get_version(&self) -> (r: Result<String, Error>)
        ensures
            r is Ok,
            (r matches Ok(s) ==> s@ == "OpenCL 1.2"@),
    {
        Ok("OpenCL 1.2".to_owned())
    }
}

/// An OpenCL context handle.
#[derive(Clone, Copy, PartialEq, Eq, Structural, Debug)]
pub struct Context(pub usize);

/// An OpenCL command-queue handle.
#[derive(Clone, Copy, PartialEq, Eq, Structural, Debug)]
pub struct CommandQueue(pub usize);

/// An OpenCL device: its platform handles, its memory and the cache table
/// over it.
pub struct CLDevice {
    /// The platform id of the device.
    pub device: CLIntDevice,
    /// The context opened on the device.
    pub ctx: Context,
    /// The command queue transfers and kernels are ordered on.
    pub queue: CommandQueue,
    /// The device memory.
    pub arena: Arena,
    /// The node-keyed cache of this device.
    pub cache: Cache,
}

impl CLDevice {
    /// Opens the given platform device: creates its context and command
    /// queue, with no memory allocated yet.
    pub fn new(device: CLIntDevice) -> (r: Result<CLDevice, Error>)
        ensures
            r is Ok,
            (r matches Ok(d) ==> {
                &&& d.device == device
                &&& d.ctx == (Context(device.0))
                &&& d.queue == (CommandQueue(device.0))
                &&& d.arena.view() =~= Seq::<Option<Seq<u64>>>::empty()
                &&& d.cache.nodes@ =~= Seq::<(Node, RawBuf)>::empty()
                &&& d.cache.count == 0
                &&& d.cache.wf(d.arena)
            }),
    {
        Ok(
            CLDevice {
                device,
                ctx: Context(device.0),
                queue: CommandQueue(device.0),
                arena: Arena::new(),
                cache: Cache::new(),
            },
        )
    }

    /// The device with index `device_idx` of a synchronised registry.
    pub fn get(devices: &CLDevices, device_idx: usize) -> (r: Result<&CLDevice, Error>)
        ensures
            r is Ok <==> device_idx < devices.current_devices@.len(),
            (r matches Ok(d) ==> *d == devices.current_devices@[device_idx as int]),
            (r matches Err(e) ==> e.ocl_error == Some(OclErrorKind::InvalidDeviceIdx)),
    {
        devices.get_current(device_idx)
    }

    /// The context of this device.
    pub fn get_ctx(&self) -> (r: &Context)
        ensures
            *r == self.ctx,
    {
        &self.ctx
    }

    /// The command queue of this device.
    pub fn get_queue(&self) -> (r: CommandQueue)
        ensures
            r == self.queue,
    {
        self.queue
    }

    /// The name this device reports.
    pub fn get_name(&self) -> (r: Result<String, Error>)
        ensures
            r is Ok,
            (r matches Ok(s) ==> s@ == "OpenCL GPU"@),
    {
        self.device.get_name()
    }

    /// The platform version this device reports.
    pub fn get_version(&self) -> (r: Result<String, Error>)
        ensures
            r is Ok,
            (r matches Ok(s) ==> s@ == "OpenCL 1.2"@),
    {
        self.device.get_version()
    }

    /// Allocates a zero-initialised buffer of `len` elements carrying
    /// `flag` in device memory.
    pub fn alloc_buf<T: Unit>(&mut self, len: usize, flag: AllocFlag) -> (b: Buffer<T>)
        requires
            0 < len,
        ensures
            b.id == old(self).arena.view().len(),
            b.len == len,
            b.flag == flag,
            final(self).arena.view() =~= old(self).arena.view().push(
                Some(Seq::new(len as nat, |i: int| 0u64)),
            ),
            final(self).cache == old(self).cache,
            b.live_in(final(self).arena),
            b.view_in(final(self).arena) == defaults::<T>(len as nat),
            old(self).cache.wf(old(self).arena) ==> final(self).cache.wf(final(self).arena),
    {
        let b = alloc_typed::<T>(&mut self.arena, len, flag);
        proof {
            if old(self).cache.wf(old(self).arena) {
                crate::laws::lemma_table_wf_push(
                    old(self).cache.nodes@,
                    old(self).arena.view(),
                    Some(Seq::new(len as nat, |i: int| 0u64)),
                );
            }
        }
        b
    }

    /// Allocates an owned device buffer holding a copy of `data`: the
    /// blocking host-to-device upload of fresh data.
    pub fn with_data<T: Unit>(&mut self, data: &[T]) -> (b: Buffer<T>)
        requires
            0 < data@.len(),
        ensures
            b.id == old(self).arena.view().len(),
            b.len == data@.len(),
            b.flag is Owned,
            final(self).arena.view() =~= old(self).arena.view().push(
                Some(cells_of_typed::<T>(data@)),
            ),
            final(self).cache == old(self).cache,
            b.live_in(final(self).arena),
            b.view_in(final(self).arena) == data@,
            old(self).cache.wf(old(self).arena) ==> final(self).cache.wf(final(self).arena),
    {
        let b = with_slice_typed::<T>(&mut self.arena, data);
        proof {
            if old(self).cache.wf(old(self).arena) {
                crate::laws::lemma_table_wf_push(
                    old(self).cache.nodes@,
                    old(self).arena.view(),
                    Some(cells_of_typed::<T>(data@)),
                );
            }
        }
        b
    }

    /// Copies a live device buffer back to the host: the blocking
    /// device-to-host read through the command queue.
    pub fn read<T: Unit>(&self, buf: &Buffer<T>) -> (r: Vec<T>)
        requires
            buf.live_in(self.arena),
        ensures
            r@ == buf.view_in(self.arena),
    {
        read_typed::<T>(&self.arena, buf)
    }

    /// Copies `data` into a live device buffer: the blocking host-to-device
    /// write through the command queue. `data` must have the buffer's
    /// length.
    pub fn write<T: Unit>(&mut self, buf: &Buffer<T>, data: &[T])
        requires
            buf.live_in(old(self).arena),
            data@.len() == buf.len,
        ensures
            final(self).arena.view() =~= old(self).arena.view().update(
                buf.id as int,
                Some(cells_of_typed::<T>(data@)),
            ),
            final(self).cache == old(self).cache,
            buf.live_in(final(self).arena),
            buf.view_in(final(self).arena) == data@,
            old(self).cache.wf(old(self).arena) ==> final(self).cache.wf(final(self).arena),
    {
        crate::buffer::write_typed::<T>(&mut self.arena, buf, data);
        proof {
            if old(self).cache.wf(old(self).arena) {
                crate::laws::lemma_table_wf_update(
                    old(self).cache.nodes@,
                    old(self).arena.view(),
                    buf.id as int,
                    cells_of_typed::<T>(data@),
                );
            }
        }
    }

    /// Overwrites every element of a live device buffer with the type's
    /// default value.
    pub fn clear<T: Unit>(&mut self, buf: &Buffer<T>)
        requires
            buf.live_in(old(self).arena),
        ensures
            final(self).arena.view() =~= old(self).arena.view().update(
                buf.id as int,
                Some(Seq::new(buf.len as nat, |i: int| 0u64)),
            ),
            final(self).cache == old(self).cache,
            buf.live_in(final(self).arena),
            buf.view_in(final(self).arena) == defaults::<T>(buf.len as nat),
            old(self).cache.wf(old(self).arena) ==> final(self).cache.wf(final(self).arena),
    {
        clear_typed::<T>(&mut self.arena, buf);
        proof {
            if old(self).cache.wf(old(self).arena) {
                crate::laws::lemma_table_wf_update(
                    old(self).cache.nodes@,
                    old(self).arena.view(),
                    buf.id as int,
                    Seq::new(buf.len as nat, |i: int| 0u64),
                );
            }
        }
    }

    /// Duplicates a live device buffer into freshly allocated device
    /// storage; the clone never aliases its source.
    pub fn clone_buf<T: Unit>(&mut self, buf: &Buffer<T>) -> (b: Buffer<T>)
        requires
            buf.live_in(old(self).arena),
            0 < buf.len,
        ensures
            b.id == old(self).arena.view().len(),
            b.id != buf.id,
            b.len == buf.len,
            b.flag is Owned,
            final(self).cache == old(self).cache,
            b.live_in(final(self).arena),
            buf.live_in(final(self).arena),
            b.view_in(final(self).arena) == buf.view_in(old(self).arena),
            buf.view_in(final(self).arena) == buf.view_in(old(self).arena),
            final(self).arena.view() =~= old(self).arena.view().push(
                Some(old(self).arena.cells_spec(buf.id)),
            ),
            old(self).cache.wf(old(self).arena) ==> final(self).cache.wf(final(self).arena),
    {
        let b = clone_typed::<T>(&mut self.arena, buf);
        proof {
            if old(self).cache.wf(old(self).arena) {
                crate::laws::lemma_table_wf_push(
                    old(self).cache.nodes@,
                    old(self).arena.view(),
                    Some(old(self).arena.cells_spec(buf.id)),
                );
            }
        }
        b
    }

    /// Consumes a device buffer, releasing its backing memory object
    /// exactly when the buffer owns it.
    pub fn drop_buf<T: Unit>(&mut self, buf: Buffer<T>)
        requires
            buf.flag is Owned ==> buf.live_in(old(self).arena),
        ensures
            buf.flag is Owned ==> final(self).arena.view() =~= old(self).arena.view().update(
                buf.id as int,
                None,
            ),
            !(buf.flag is Owned) ==> final(self).arena == old(self).arena,
            final(self).cache == old(self).cache,
    {
        drop_typed::<T>(&mut self.arena, buf)
    }

    /// Gets — or allocates — the cache slot for the current call site and
    /// `len` elements of `T`. See [`Cache::get`].
    pub fn cached<T: Unit>(&mut self, len: usize) -> (b: Buffer<T>)
        requires
            0 < len,
            old(self).cache.count < usize::MAX,
            old(self).cache.wf(old(self).arena),
            old(self).cache.compat::<T>(len),
        ensures
            final(self).cache.wf(final(self).arena),
            final(self).cache.count == old(self).cache.count + 1,
            b.len == len,
            b.flag is CacheSlot,
            b.live_in(final(self).arena),
            model_of(final(self).cache, final(self).arena) =~~= step(
                model_of(old(self).cache, old(self).arena),
                len,
                T::size_spec(),
                T::align_spec(),
            ),
            b.id as int == step_id(model_of(old(self).cache, old(self).arena), len),
            ({
                let node = Node { idx: old(self).cache.count, len };
                if has_node(old(self).cache.nodes@, node) {
                    &&& final(self).arena == old(self).arena
                    &&& final(self).cache.nodes == old(self).cache.nodes
                    &&& b.id == node_rec(old(self).cache.nodes@, node).ptr.0
                    &&& b.view_in(final(self).arena) == typed_of_cells::<T>(
                        old(self).arena.cells_spec(b.id),
                    )
                } else {
                    &&& b.id == old(self).arena.view().len()
                    &&& b.view_in(final(self).arena) == defaults::<T>(len as nat)
                }
            }),
    {
        self.cache.get::<T>(&mut self.arena, len)
    }

    /// Resets the cache's call-site counter, as done before replaying a
    /// recorded call sequence.
    pub fn set_count(&mut self, count: usize)
        ensures
            final(self).cache.count == count,
            final(self).cache.nodes == old(self).cache.nodes,
            final(self).arena == old(self).arena,
            final(self).device == old(self).device,
            final(self).ctx == old(self).ctx,
            final(self).queue == old(self).queue,
    {
        self.cache.set_count(count);
    }

    /// Releases every cache slot's backing memory object and empties the
    /// cache table. This runs before the device's context and queue are
    /// torn down.
    pub fn dealloc_cache(&mut self)
        requires
            old(self).cache.wf(old(self).arena),
        ensures
            final(self).cache.nodes@ =~= Seq::<(Node, RawBuf)>::empty(),
            final(self).cache.count == old(self).cache.count,
            final(self).cache.wf(final(self).arena),
            final(self).arena.view().len() == old(self).arena.view().len(),
            forall|i: int|
                0 <= i < old(self).arena.view().len() ==> #[trigger] final(self).arena.view()[i]
                    == (if crate::cache::is_slot_of(old(self).cache.nodes@, i) {
                    None::<Seq<u64>>
                } else {
                    old(self).arena.view()[i]
                }),
    {
        self.cache.dealloc_cache(&mut self.arena);
    }
}

impl Alloc for CLDevice {
    open spec fn arena_spec(&self) -> Arena {
        self.arena
    }

    fn arena(&self) -> &Arena {
        &self.arena
    }

    fn arena_mut(&mut self) -> &mut Arena {
        &mut self.arena
    }
}

/// The registry of opened OpenCL devices, standing in for platform
/// discovery: synchronising an empty registry opens the platform's GPU.
pub struct CLDevices {
    /// The devices opened so far.
    pub current_devices: Vec<CLDevice>,
}

impl CLDevices {
    /// An empty registry.
    pub fn new() -> (r: CLDevices)
        ensures
            r.current_devices@ =~= Seq::<CLDevice>::empty(),
    {
        CLDevices { current_devices: Vec::new() }
    }

    /// Ensures the registry holds the platform's devices: a first call
    /// opens the platform's GPU; later calls change nothing.
    pub fn sync_current(&mut self) -> (r: Result<(), Error>)
        ensures
            r is Ok,
            old(self).current_devices@.len() == 0 ==> {
                &&& final(self).current_devices@.len() == 1
                &&& final(self).current_devices@[0].device == (CLIntDevice(0))
            },
            old(self).current_devices@.len() > 0 ==> final(self).current_devices
                == old(self).current_devices,
    {
        if self.current_devices.len() == 0 {
            match CLDevice::new(CLIntDevice(0)) {
                Ok(d) => self.current_devices.push(d),
                Err(_) => {
                    proof {
                        assert(false);
                    }
                },
            }
        }
        Ok(())
    }

    /// The device with index `device_idx`, if the registry holds one.
    pub fn get_current(&self, device_idx: usize) -> (r: Result<&CLDevice, Error>)
        ensures
            r is Ok <==> device_idx < self.current_devices@.len(),
            (r matches Ok(d) ==> *d == self.current_devices@[device_idx as int]),
            (r matches Err(e) ==> e.ocl_error == Some(OclErrorKind::InvalidDeviceIdx)),
    {
        if device_idx < self.current_devices.len() {
            Ok(&self.current_devices[device_idx])
        } else {
            Err(Error::from_ocl(OclErrorKind::InvalidDeviceIdx))
        }
    }

    /// Exclusive access to the device with index `device_idx`, which must be
    /// in the registry.
    pub fn get_current_mut(&mut self, device_idx: usize) -> (r: &mut CLDevice)
        requires
            device_idx < old(self).current_devices@.len(),
        ensures
            *r == old(self).current_devices@[device_idx as int],
            final(self).current_devices@ =~= old(self).current_devices@.update(
                device_idx as int,
                *final(r),
            ),
    {
        &mut self.current_devices[device_idx]
    }
}

} // verus!
