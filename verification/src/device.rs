//! The capability every backend implements, and the backend-agnostic buffer
//! constructors and transfers built on it.
//!
//! A device is anything owning an [`Arena`]. Buffers are allocated against a
//! device, and a buffer's contents can be moved to any other device by an
//! explicit transfer — there is no implicit cross-device access.

use vstd::prelude::*;

use crate::buffer::{
    alloc_typed, cells_of_typed, defaults, from_vec_typed, read_typed, with_slice_typed, Buffer,
};
use crate::flag::AllocFlag;
use crate::memory::Arena;
use crate::unit::Unit;

verus! {

/// The allocation capability of a backend: exclusive access to the arena
/// holding its memory.
pub trait Alloc: Sized {
    /// The device's arena as an abstract value.
    spec fn arena_spec(&self) -> Arena;

    /// Borrows the device's arena.
    fn arena(&self) -> (r: &Arena)
        ensures
            *r == self.arena_spec(),
    ;

    /// Borrows the device's arena for mutation.
    fn arena_mut(&mut self) -> (r: &mut Arena)
        ensures
            *r == old(self).arena_spec(),
            final(self).arena_spec() == *final(r),
    ;
}

impl<T: Unit> Buffer<T> {
    /// Allocates a zero-initialised owned buffer of `len` elements on
    /// `device`. It reads back as `len` default values.
    pub fn new<D: Alloc>(device: &mut D, len: usize) -> (b: Buffer<T>)
        requires
            0 < len,
        ensures
            b.id == old(device).arena_spec().view().len(),
            b.len == len,
            b.flag is Owned,
            final(device).arena_spec().view() =~= old(device).arena_spec().view().push(
                Some(Seq::new(len as nat, |i: int| 0u64)),
            ),
            b.live_in(final(device).arena_spec()),
            b.view_in(final(device).arena_spec()) == defaults::<T>(len as nat),
    {
        let arena = device.arena_mut();
        alloc_typed::<T>(arena, len, AllocFlag::Owned)
    }

    /// Allocates an owned buffer on `device` holding a copy of `data`.
    pub fn from_slice<D: Alloc>(device: &mut D, data: &[T]) -> (b: Buffer<T>)
        requires
            0 < data@.len(),
        ensures
            b.id == old(device).arena_spec().view().len(),
            b.len == data@.len(),
            b.flag is Owned,
            final(device).arena_spec().view() =~= old(device).arena_spec().view().push(
                Some(cells_of_typed::<T>(data@)),
            ),
            b.live_in(final(device).arena_spec()),
            b.view_in(final(device).arena_spec()) == data@,
    {
        let arena = device.arena_mut();
        with_slice_typed::<T>(arena, data)
    }

    /// Allocates an owned buffer on `device` adopting the elements of `data`;
    /// the vector is consumed, so no second owner of the data remains.
    pub fn from_vec<D: Alloc>(device: &mut D, data: Vec<T>) -> (b: Buffer<T>)
        requires
            0 < data@.len(),
        ensures
            b.id == old(device).arena_spec().view().len(),
            b.len == data@.len(),
            b.flag is Owned,
            final(device).arena_spec().view() =~= old(device).arena_spec().view().push(
                Some(cells_of_typed::<T>(data@)),
            ),
            b.live_in(final(device).arena_spec()),
            b.view_in(final(device).arena_spec()) == data@,
    {
        let arena = device.arena_mut();
        from_vec_typed::<T>(arena, data)
    }
}

/// Copies a live buffer of `src` into a fresh owned buffer on `dst`: the
/// explicit device-to-device transfer.
pub fn to_dev<T: Unit, S: Alloc, D: Alloc>(src: &S, buf: &Buffer<T>, dst: &mut D) -> (r: Buffer<
    T,
>)
    requires
        buf.live_in(src.arena_spec()),
        0 < buf.len,
    ensures
        r.id == old(dst).arena_spec().view().len(),
        r.len == buf.len,
        r.flag is Owned,
        final(dst).arena_spec().view() =~= old(dst).arena_spec().view().push(
            Some(cells_of_typed::<T>(buf.view_in(src.arena_spec()))),
        ),
        r.live_in(final(dst).arena_spec()),
        r.view_in(final(dst).arena_spec()) == buf.view_in(src.arena_spec()),
{
    let data = read_typed::<T>(src.arena(), buf);
    let arena = dst.arena_mut();
    from_vec_typed::<T>(arena, data)
}

} // verus!
