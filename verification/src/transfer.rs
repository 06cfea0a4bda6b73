//! Explicit transfers of a buffer's contents between concrete backends.
//!
//! Device memory is never host-addressable across backends; moving data is
//! always an explicit, blocking copy producing a fresh owned buffer on the
//! target device.

use vstd::prelude::*;

use crate::buffer::{cells_of_typed, Buffer};
use crate::cpu::CPU;
use crate::cuda::CudaDevice;
use crate::device::{to_dev, Alloc};
use crate::opencl::CLDevice;
use crate::unit::Unit;

verus! {

impl<T: Unit> Buffer<T> {
    /// Copies this host buffer into a fresh owned buffer on an OpenCL
    /// device.
    pub fn to_cl(&self, host: &CPU, cl: &mut CLDevice) -> (r: Buffer<T>)
        requires
            self.live_in(host.arena),
            0 < self.len,
        ensures
            r.id == old(cl).arena.view().len(),
            r.len == self.len,
            r.flag is Owned,
            final(cl).arena.view() =~= old(cl).arena.view().push(
                Some(cells_of_typed::<T>(self.view_in(host.arena))),
            ),
            final(cl).cache == old(cl).cache,
            r.live_in(final(cl).arena),
            r.view_in(final(cl).arena) == self.view_in(host.arena),
    {
        let data = host.read(self);
        cl.with_data(data.as_slice())
    }

    /// Copies this host buffer into a fresh owned buffer on a CUDA device.
    pub fn to_cuda(&self, host: &CPU, cuda: &mut CudaDevice) -> (r: Buffer<T>)
        requires
            self.live_in(host.arena),
            0 < self.len,
        ensures
            r.id == old(cuda).inner.arena.view().len(),
            r.len == self.len,
            r.flag is Owned,
            final(cuda).inner.arena.view() =~= old(cuda).inner.arena.view().push(
                Some(cells_of_typed::<T>(self.view_in(host.arena))),
            ),
            final(cuda).cache == old(cuda).cache,
            r.live_in(final(cuda).inner.arena),
            r.view_in(final(cuda).inner.arena) == self.view_in(host.arena),
    {
        let data = host.read(self);
        cuda.with_data(data.as_slice())
    }

    /// Copies this OpenCL device buffer back into a fresh owned host
    /// buffer.
    pub fn to_cpu(&self, cl: &CLDevice, host: &mut CPU) -> (r: Buffer<T>)
        requires
            self.live_in(cl.arena),
            0 < self.len,
        ensures
            r.id == old(host).arena.view().len(),
            r.len == self.len,
            r.flag is Owned,
            final(host).arena.view() =~= old(host).arena.view().push(
                Some(cells_of_typed::<T>(self.view_in(cl.arena))),
            ),
            final(host).cache == old(host).cache,
            r.live_in(final(host).arena),
            r.view_in(final(host).arena) == self.view_in(cl.arena),
    {
        let data = cl.read(self);
        host.with_slice(data.as_slice())
    }

    /// Copies this host buffer onto the accelerator: the OpenCL device.
    pub fn to_gpu(&self, host: &CPU, gpu: &mut CLDevice) -> (r: Buffer<T>)
        requires
            self.live_in(host.arena),
            0 < self.len,
        ensures
            r.id == old(gpu).arena.view().len(),
            r.len == self.len,
            r.flag is Owned,
            final(gpu).arena.view() =~= old(gpu).arena.view().push(
                Some(cells_of_typed::<T>(self.view_in(host.arena))),
            ),
            final(gpu).cache == old(gpu).cache,
            r.live_in(final(gpu).arena),
            r.view_in(final(gpu).arena) == self.view_in(host.arena),
    {
        self.to_cl(host, gpu)
    }

    /// Copies a live buffer of `src` into a fresh owned buffer on any other
    /// device.
    pub fn to_device<S: Alloc, D: Alloc>(&self, src: &S, dst: &mut D) -> (r: Buffer<T>)
        requires
            self.live_in(src.arena_spec()),
            0 < self.len,
        ensures
            r.id == old(dst).arena_spec().view().len(),
            r.len == self.len,
            r.flag is Owned,
            final(dst).arena_spec().view() =~= old(dst).arena_spec().view().push(
                Some(cells_of_typed::<T>(self.view_in(src.arena_spec()))),
            ),
            r.live_in(final(dst).arena_spec()),
            r.view_in(final(dst).arena_spec()) == self.view_in(src.arena_spec()),
    {
        to_dev(src, self, dst)
    }
}

} // verus!
