//! A thin matrix wrapper over [`Buffer`]: a buffer plus its two-dimensional
//! shape, and the element-wise operations built on cache-backed scratch
//! storage.

use vstd::prelude::*;

use crate::buffer::Buffer;
use crate::cpu::CPU;
use crate::device::Alloc;
use crate::unit::Unit;

verus! {

/// A buffer with a two-dimensional shape laid over it.
pub struct Matrix<T> {
    /// The backing buffer, of length `dims.0 * dims.1`.
    pub data: Buffer<T>,
    /// The shape: rows and columns.
    pub dims: (usize, usize),
}

impl<T> Clone for Matrix<T> {
    fn clone(&self) -> (r: Self)
        ensures
            r == *self,
    {
        Matrix { data: self.data, dims: self.dims }
    }
}

impl<T> Copy for Matrix<T> {

}

impl<T: Unit> Matrix<T> {
    /// The shape matches the buffer: the element count of the backing
    /// buffer is the product of the dimensions.
    pub open spec fn wf(&self) -> bool {
        self.data.len == self.dims.0 * self.dims.1
    }

    /// Allocates a zero-initialised matrix of the given shape on `device`.
    pub fn new<D: Alloc>(device: &mut D, dims: (usize, usize)) -> (m: Matrix<T>)
        requires
            0 < dims.0 * dims.1,
            dims.0 * dims.1 <= usize::MAX,
        ensures
            m.wf(),
            m.dims == dims,
            m.data.flag is Owned,
            m.data.id == old(device).arena_spec().view().len(),
            m.data.live_in(final(device).arena_spec()),
            m.data.view_in(final(device).arena_spec()) == crate::buffer::defaults::<T>(
                (dims.0 * dims.1) as nat,
            ),
            final(device).arena_spec().view() =~= old(device).arena_spec().view().push(
                Some(Seq::new((dims.0 * dims.1) as nat, |i: int| 0u64)),
            ),
    {
        let len = dims.0 * dims.1;
        Matrix { data: Buffer::new(device, len), dims }
    }

    /// Allocates a matrix of the given shape on `device` holding a copy of
    /// `data`, whose length must be the product of the dimensions.
    pub fn from_slice<D: Alloc>(device: &mut D, dims: (usize, usize), data: &[T]) -> (m: Matrix<
        T,
    >)
        requires
            0 < data@.len(),
            data@.len() == dims.0 * dims.1,
        ensures
            m.wf(),
            m.dims == dims,
            m.data.flag is Owned,
            m.data.live_in(final(device).arena_spec()),
            m.data.view_in(final(device).arena_spec()) == data@,
            final(device).arena_spec().view() =~= old(device).arena_spec().view().push(
                Some(crate::buffer::cells_of_typed::<T>(data@)),
            ),
    {
        let buffer = Buffer::from_slice(device, data);
        Matrix { data: buffer, dims }
    }

    /// The backing block handle of the matrix.
    pub fn ptr(&self) -> (p: usize)
        ensures
            p == self.data.id,
    {
        self.data.ptr()
    }

    /// The shape of the matrix.
    pub fn dims(&self) -> (d: (usize, usize))
        ensures
            d == self.dims,
    {
        self.dims
    }

    /// The element count of the matrix.
    pub fn size(&self) -> (n: usize)
        requires
            self.wf(),
        ensures
            n == self.dims.0 * self.dims.1,
            n == self.data.len,
    {
        self.data.len()
    }

    /// The backing buffer of the matrix.
    pub fn data(&self) -> (b: Buffer<T>)
        ensures
            b == self.data,
    {
        self.data
    }

    /// Reads the elements of the matrix out of its device, row-major.
    pub fn read<D: Alloc>(&self, device: &D) -> (r: Vec<T>)
        requires
            self.data.live_in(device.arena_spec()),
        ensures
            r@ == self.data.view_in(device.arena_spec()),
    {
        crate::buffer::read_typed::<T>(device.arena(), &self.data)
    }
}

/// Applies `f` element-wise to two equally shaped matrices, writing the
/// results into cache-backed scratch storage of the device: the shared body
/// of the element-wise matrix operations.
pub fn ew_op<T: Unit, F: Fn(T, T) -> T>(
    device: &mut CPU,
    lhs: &Matrix<T>,
    rhs: &Matrix<T>,
    f: F,
) -> (out: Matrix<T>)
    requires
        lhs.wf(),
        0 < lhs.data.len,
        lhs.data.len == rhs.data.len,
        lhs.data.live_in(old(device).arena),
        rhs.data.live_in(old(device).arena),
        old(device).cache.count < usize::MAX,
        old(device).cache.wf(old(device).arena),
        old(device).cache.compat::<T>(lhs.data.len),
        forall|x: T, y: T| #[trigger] call_requires(f, (x, y)),
    ensures
        out.wf(),
        out.dims == lhs.dims,
        out.data.flag is CacheSlot,
        out.data.live_in(final(device).arena),
        out.data.view_in(final(device).arena).len() == lhs.data.len,
        forall|i: int|
            0 <= i < lhs.data.len ==> call_ensures(
                f,
                (lhs.data.view_in(old(device).arena)[i], rhs.data.view_in(old(device).arena)[i]),
                #[trigger] out.data.view_in(final(device).arena)[i],
            ),
        final(device).cache.wf(final(device).arena),
        final(device).cache.count == old(device).cache.count + 1,
{
    let size = lhs.size();
    let a = device.read(&lhs.data);
    let b = device.read(&rhs.data);
    let out_buf = device.cached::<T>(size);
    let mut values: Vec<T> = Vec::new();
    let mut i: usize = 0;
    while i < size
        invariant
            i <= size,
            size == a@.len(),
            size == b@.len(),
            values@.len() == i,
            forall|x: T, y: T| #[trigger] call_requires(f, (x, y)),
            forall|j: int|
                0 <= j < i ==> call_ensures(f, (a@[j], b@[j]), #[trigger] values@[j]),
        decreases size - i,
    {
        values.push(f(a[i], b[i]));
        i = i + 1;
    }
    device.write(&out_buf, values.as_slice());
    Matrix { data: out_buf, dims: lhs.dims() }
}

/// Applies `f` to every element of a matrix, writing the results into
/// cache-backed scratch storage of the device.
pub fn each_op<T: Unit, F: Fn(T) -> T>(device: &mut CPU, x: &Matrix<T>, f: F) -> (out: Matrix<T>)
    requires
        x.wf(),
        0 < x.data.len,
        x.data.live_in(old(device).arena),
        old(device).cache.count < usize::MAX,
        old(device).cache.wf(old(device).arena),
        old(device).cache.compat::<T>(x.data.len),
        forall|v: T| #[trigger] call_requires(f, (v,)),
    ensures
        out.wf(),
        out.dims == x.dims,
        out.data.flag is CacheSlot,
        out.data.live_in(final(device).arena),
        out.data.view_in(final(device).arena).len() == x.data.len,
        forall|i: int|
            0 <= i < x.data.len ==> call_ensures(
                f,
                (x.data.view_in(old(device).arena)[i],),
                #[trigger] out.data.view_in(final(device).arena)[i],
            ),
        final(device).cache.wf(final(device).arena),
        final(device).cache.count == old(device).cache.count + 1,
{
    let size = x.size();
    let a = device.read(&x.data);
    let out_buf = device.cached::<T>(size);
    let mut values: Vec<T> = Vec::new();
    let mut i: usize = 0;
    while i < size
        invariant
            i <= size,
            size == a@.len(),
            values@.len() == i,
            forall|v: T| #[trigger] call_requires(f, (v,)),
            forall|j: int| 0 <= j < i ==> call_ensures(f, (a@[j],), #[trigger] values@[j]),
        decreases size - i,
    {
        values.push(f(a[i]));
        i = i + 1;
    }
    device.write(&out_buf, values.as_slice());
    Matrix { data: out_buf, dims: x.dims() }
}

/// Combines every element of `lhs` with the matching element of `rhs`
/// through `f` and stores the result back into `lhs` in place.
pub fn assign_op<T: Unit, F: Fn(T, T) -> T>(
    device: &mut CPU,
    lhs: &Matrix<T>,
    rhs: &Matrix<T>,
    f: F,
)
    requires
        lhs.data.live_in(old(device).arena),
        rhs.data.live_in(old(device).arena),
        lhs.data.len == rhs.data.len,
        forall|x: T, y: T| #[trigger] call_requires(f, (x, y)),
    ensures
        lhs.data.live_in(final(device).arena),
        final(device).cache == old(device).cache,
        forall|i: int|
            0 <= i < lhs.data.len ==> call_ensures(
                f,
                (lhs.data.view_in(old(device).arena)[i], rhs.data.view_in(old(device).arena)[i]),
                #[trigger] lhs.data.view_in(final(device).arena)[i],
            ),
{
    let size = lhs.data.len();
    let a = device.read(&lhs.data);
    let b = device.read(&rhs.data);
    let mut values: Vec<T> = Vec::new();
    let mut i: usize = 0;
    while i < size
        invariant
            i <= size,
            size == a@.len(),
            size == b@.len(),
            values@.len() == i,
            forall|x: T, y: T| #[trigger] call_requires(f, (x, y)),
            forall|j: int|
                0 <= j < i ==> call_ensures(f, (a@[j], b@[j]), #[trigger] values@[j]),
        decreases size - i,
    {
        values.push(f(a[i], b[i]));
        i = i + 1;
    }
    device.write(&lhs.data, values.as_slice());
}

} // verus!
