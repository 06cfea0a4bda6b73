//! The user-facing buffer and the typed operations on arena blocks.
//!
//! A [`Buffer`] is a typed handle into a device's [`Arena`]: a block handle,
//! an element count and an [`AllocFlag`] saying who owns the block. Buffers
//! are produced by the allocation calls of a device or by a cache lookup,
//! never assembled by hand; all data access goes through the device owning
//! the arena.

use vstd::prelude::*;

use crate::flag::AllocFlag;
use crate::memory::Arena;
use crate::unit::Unit;
use core::marker::PhantomData;

verus! {

/// The typed elements a cell sequence is read back as.
pub open spec fn typed_of_cells<T: Unit>(cells: Seq<u64>) -> Seq<T> {
    cells.map(|i: int, c: u64| T::of_cell_spec(c))
}

/// The cells a typed element sequence is stored as.
pub open spec fn cells_of_typed<T: Unit>(data: Seq<T>) -> Seq<u64> {
    data.map(|i: int, x: T| x.as_cell_spec())
}

/// The write/read round trip: `write` stores `cells_of_typed(data)`, `read`
/// returns the typed view of the stored cells, so for every backend a write
/// of `data` followed by a read yields `data` exactly.
pub proof fn lemma_typed_roundtrip<T: Unit>(data: Seq<T>)
    ensures
        typed_of_cells::<T>(cells_of_typed::<T>(data)) == data,
{
    assert forall|i: int| 0 <= i < data.len() implies typed_of_cells::<T>(
        cells_of_typed::<T>(data),
    )[i] == data[i] by {
        data[i].lemma_cell_roundtrip();
    }
    assert(typed_of_cells::<T>(cells_of_typed::<T>(data)) =~= data);
}

/// The sequence of `len` default elements: what a fresh or cleared buffer
/// holds.
pub open spec fn defaults<T: Unit>(len: nat) -> Seq<T> {
    Seq::new(len, |i: int| T::default_spec())
}

/// A typed view into a block of device memory.
///
/// `len` always matches the element count of the backing block while the
/// buffer is valid; `flag` decides whether dropping the buffer releases the
/// block (see [`AllocFlag`]).
pub struct Buffer<T> {
    /// The handle of the backing block in the owning device's arena.
    pub id: usize,
    /// The element count of the buffer.
    pub len: usize,
    /// Who owns the backing block.
    pub flag: AllocFlag,
    /// The element type the stored cells are read as.
    pub marker: PhantomData<T>,
}

impl<T> Clone for Buffer<T> {
    fn clone(&self) -> (r: Self)
        ensures
            r == *self,
    {
        Buffer { id: self.id, len: self.len, flag: self.flag, marker: PhantomData }
    }
}

impl<T> Copy for Buffer<T> {

}

impl<T: Unit> Buffer<T> {
    /// True when this buffer's handle names a live block of `arena` whose
    /// element count matches the buffer's length.
    pub open spec fn live_in(&self, arena: Arena) -> bool {
        arena.is_live(self.id) && arena.cells_spec(self.id).len() == self.len
    }

    /// The elements this buffer holds in `arena`.
    pub open spec fn view_in(&self, arena: Arena) -> Seq<T> {
        typed_of_cells::<T>(arena.cells_spec(self.id))
    }

    /// The element count of the buffer.
    pub fn len(&self) -> (n: usize)
        ensures
            n == self.len,
    {
        self.len
    }

    /// The ownership flag of the buffer.
    pub fn flag(&self) -> (f: AllocFlag)
        ensures
            f == self.flag,
    {
        self.flag
    }

    /// The backing block handle of the buffer.
    pub fn ptr(&self) -> (p: usize)
        ensures
            p == self.id,
    {
        self.id
    }

    /// A second, non-owning handle onto the same backing block. Whatever its
    /// source's flag, the shallow copy never frees the block.
    pub fn shallow(&self) -> (r: Buffer<T>)
        ensures
            r.id == self.id,
            r.len == self.len,
            r.flag is Borrowed,
    {
        Buffer { id: self.id, len: self.len, flag: AllocFlag::Borrowed, marker: PhantomData }
    }
}

/// Allocates a zero-initialised block of `len` elements in `arena` and hands
/// back a buffer over it carrying `flag`. A fresh buffer reads back as `len`
/// default values.
pub fn alloc_typed<T: Unit>(arena: &mut Arena, len: usize, flag: AllocFlag) -> (b: Buffer<T>)
    requires
        0 < len,
    ensures
        b.id == old(arena).view().len(),
        b.len == len,
        b.flag == flag,
        final(arena).view() =~= old(arena).view().push(
            Some(Seq::new(len as nat, |i: int| 0u64)),
        ),
        b.live_in(*final(arena)),
        b.view_in(*final(arena)) == defaults::<T>(len as nat),
{
    let id = arena.alloc_zeroed(len);
    let b = Buffer { id, len, flag, marker: PhantomData };
    proof {
        T::lemma_zero_cell_default();
        assert(b.view_in(*arena) =~= defaults::<T>(len as nat));
    }
    b
}

/// Allocates a block holding a copy of `data` and hands back an owned buffer
/// over it. The buffer reads back exactly as `data`.
pub fn with_slice_typed<T: Unit>(arena: &mut Arena, data: &[T]) -> (b: Buffer<T>)
    requires
        0 < data@.len(),
    ensures
        b.id == old(arena).view().len(),
        b.len == data@.len(),
        b.flag is Owned,
        final(arena).view() =~= old(arena).view().push(Some(cells_of_typed::<T>(data@))),
        b.live_in(*final(arena)),
        b.view_in(*final(arena)) == data@,
{
    let n = data.len();
    let mut cells: Vec<u64> = Vec::new();
    let mut i: usize = 0;
    while i < n
        invariant
            i <= n,
            n == data@.len(),
            cells@ =~= cells_of_typed::<T>(data@).take(i as int),
        decreases n - i,
    {
        cells.push(data[i].to_cell());
        i = i + 1;
    }
    assert(cells@ =~= cells_of_typed::<T>(data@));
    let id = arena.alloc_cells(cells);
    let b = Buffer { id, len: n, flag: AllocFlag::Owned, marker: PhantomData };
    proof {
        lemma_typed_roundtrip::<T>(data@);
    }
    b
}

/// Adopts an owned vector: allocates a block holding its elements and
/// consumes the vector, so no second owner of the data remains.
pub fn from_vec_typed<T: Unit>(arena: &mut Arena, data: Vec<T>) -> (b: Buffer<T>)
    requires
        0 < data@.len(),
    ensures
        b.id == old(arena).view().len(),
        b.len == data@.len(),
        b.flag is Owned,
        final(arena).view() =~= old(arena).view().push(Some(cells_of_typed::<T>(data@))),
        b.live_in(*final(arena)),
        b.view_in(*final(arena)) == data@,
{
    with_slice_typed(arena, data.as_slice())
}

/// Reads the elements of a live buffer out of `arena`.
pub fn read_typed<T: Unit>(arena: &Arena, buf: &Buffer<T>) -> (r: Vec<T>)
    requires
        buf.live_in(*arena),
    ensures
        r@ == buf.view_in(*arena),
{
    let n = buf.len;
    let mut r: Vec<T> = Vec::new();
    let mut i: usize = 0;
    while i < n
        invariant
            buf.live_in(*arena),
            n == buf.len,
            i <= n,
            r@ =~= buf.view_in(*arena).take(i as int),
        decreases n - i,
    {
        r.push(T::from_cell(arena.cell(buf.id, i)));
        i = i + 1;
    }
    r
}

/// Overwrites the elements of a live buffer with a copy of `data`, whose
/// length must equal the buffer's. Afterwards the buffer reads back exactly
/// as `data`; no other block is touched.
pub fn write_typed<T: Unit>(arena: &mut Arena, buf: &Buffer<T>, data: &[T])
    requires
        buf.live_in(*old(arena)),
        data@.len() == buf.len,
    ensures
        final(arena).view() =~= old(arena).view().update(
            buf.id as int,
            Some(cells_of_typed::<T>(data@)),
        ),
        buf.live_in(*final(arena)),
        buf.view_in(*final(arena)) == data@,
{
    let n = data.len();
    let mut cells: Vec<u64> = Vec::new();
    let mut i: usize = 0;
    while i < n
        invariant
            i <= n,
            n == data@.len(),
            cells@ =~= cells_of_typed::<T>(data@).take(i as int),
        decreases n - i,
    {
        cells.push(data[i].to_cell());
        i = i + 1;
    }
    assert(cells@ =~= cells_of_typed::<T>(data@));
    arena.write_cells(buf.id, cells);
    proof {
        lemma_typed_roundtrip::<T>(data@);
    }
}

/// Overwrites every element of a live buffer with the type's default value:
/// a dense re-initialisation, not a deallocation. Clearing an already
/// cleared buffer changes nothing.
pub fn clear_typed<T: Unit>(arena: &mut Arena, buf: &Buffer<T>)
    requires
        buf.live_in(*old(arena)),
    ensures
        final(arena).view() =~= old(arena).view().update(
            buf.id as int,
            Some(Seq::new(buf.len as nat, |i: int| 0u64)),
        ),
        buf.live_in(*final(arena)),
        buf.view_in(*final(arena)) == defaults::<T>(buf.len as nat),
{
    arena.fill(buf.id, 0u64);
    proof {
        T::lemma_zero_cell_default();
        assert(final(arena).view()[buf.id as int] =~= Some(
            Seq::new(buf.len as nat, |i: int| 0u64),
        ));
        assert(buf.view_in(*final(arena)) =~= defaults::<T>(buf.len as nat));
    }
}

/// Duplicates a live buffer into freshly allocated storage: the clone is
/// owned, never aliases its source, and reads back as the same elements.
pub fn clone_typed<T: Unit>(arena: &mut Arena, buf: &Buffer<T>) -> (b: Buffer<T>)
    requires
        buf.live_in(*old(arena)),
        0 < buf.len,
    ensures
        b.id == old(arena).view().len(),
        b.id != buf.id,
        b.len == buf.len,
        b.flag is Owned,
        final(arena).view() =~= old(arena).view().push(Some(old(arena).cells_spec(buf.id))),
        b.live_in(*final(arena)),
        buf.live_in(*final(arena)),
        b.view_in(*final(arena)) == buf.view_in(*old(arena)),
        buf.view_in(*final(arena)) == buf.view_in(*old(arena)),
{
    let cells = arena.read_cells(buf.id);
    let id = arena.alloc_cells(cells);
    Buffer { id, len: buf.len, flag: AllocFlag::Owned, marker: PhantomData }
}

/// Consumes a buffer, releasing its backing block exactly when the buffer
/// owns it. A borrowed buffer and a cache-slot buffer leave the arena — and
/// so the external owner's or the cache's memory — untouched.
pub fn drop_typed<T: Unit>(arena: &mut Arena, buf: Buffer<T>)
    requires
        buf.flag is Owned ==> buf.live_in(*old(arena)),
    ensures
        buf.flag is Owned ==> final(arena).view() =~= old(arena).view().update(
            buf.id as int,
            None,
        ),
        !(buf.flag is Owned) ==> *final(arena) == *old(arena),
{
    if buf.flag().frees_on_drop() {
        arena.free(buf.id);
    }
}

} // verus!
