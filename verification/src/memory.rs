//! The uniform memory arena backing every device.
//!
//! Each device owns an [`Arena`]: a table of allocation blocks addressed by a
//! stable handle (the block's index). A block stores its payload as 64-bit
//! cells, one cell per element; typed access converts through the element
//! trait. Handles are never reused: freeing a block leaves a tombstone so
//! that a stale handle can be recognised instead of silently aliasing a newer
//! allocation.

use vstd::prelude::*;

verus! {

/// One allocation of a device: its payload, and whether it is still live.
pub struct Block {
    /// The stored cells, one per element of the allocation.
    pub cells: Vec<u64>,
    /// False once the block has been released; the handle then dangles.
    pub live: bool,
}

/// The block table of one device. The handle of a block is its index in the
/// table; handles stay stable because blocks are tombstoned, never removed.
pub struct Arena {
    pub blocks: Vec<Block>,
}

impl Arena {
    /// The abstract state: one entry per ever-made allocation, `Some(cells)`
    /// while it is live and `None` once it has been freed.
    pub open spec fn view(&self) -> Seq<Option<Seq<u64>>> {
        self.blocks@.map(|i: int, b: Block| if b.live { Some(b.cells@) } else { None })
    }

    /// True when `id` names a live block of this arena.
    pub open spec fn is_live(&self, id: usize) -> bool {
        id < self.view().len() && self.view()[id as int] is Some
    }

    /// The cells of block `id` (empty if the handle is dead).
    pub open spec fn cells_spec(&self, id: usize) -> Seq<u64> {
        match self.view()[id as int] {
            Some(cs) => cs,
            None => Seq::empty(),
        }
    }

    /// A fresh arena with no allocations.
    pub fn new() -> (a: Arena)
        ensures
            a.view() =~= Seq::<Option<Seq<u64>>>::empty(),
    {
        Arena { blocks: Vec::new() }
    }

    /// The number of handles ever given out (live or freed).
    pub fn block_count(&self) -> (n: usize)
        ensures
            n == self.view().len(),
    {
        self.blocks.len()
    }

    /// The element count of live block `id`.
    pub fn block_len(&self, id: usize) -> (n: usize)
        requires
            self.is_live(id),
        ensures
            n == self.cells_spec(id).len(),
    {
        self.blocks[id].cells.len()
    }

    /// Allocates a zero-filled block of `len` cells and returns its handle.
    pub fn alloc_zeroed(&mut self, len: usize) -> (id: usize)
        requires
            0 < len,
        ensures
            id == old(self).view().len(),
            final(self).view() =~= old(self).view().push(Some(Seq::new(len as nat, |i: int| 0u64))),
    {
        let mut cells: Vec<u64> = Vec::new();
        let mut i: usize = 0;
        while i < len
            invariant
                i <= len,
                cells@ =~= Seq::new(i as nat, |j: int| 0u64),
            decreases len - i,
        {
            cells.push(0u64);
            i = i + 1;
        }
        let id = self.blocks.len();
        self.blocks.push(Block { cells, live: true });
        id
    }

    /// Allocates a block adopting the given cells and returns its handle.
    pub fn alloc_cells(&mut self, cells: Vec<u64>) -> (id: usize)
        requires
            0 < cells@.len(),
        ensures
            id == old(self).view().len(),
            final(self).view() =~= old(self).view().push(Some(cells@)),
    {
        let id = self.blocks.len();
        self.blocks.push(Block { cells, live: true });
        id
    }

    /// Reads one cell of a live block.
    pub fn cell(&self, id: usize, i: usize) -> (c: u64)
        requires
            self.is_live(id),
            i < self.cells_spec(id).len(),
        ensures
            c == self.cells_spec(id)[i as int],
    {
        self.blocks[id].cells[i]
    }

    /// Overwrites one cell of a live block.
    pub fn set_cell(&mut self, id: usize, i: usize, c: u64)
        requires
            old(self).is_live(id),
            i < old(self).cells_spec(id).len(),
        ensures
            final(self).view() =~= old(self).view().update(
                id as int,
                Some(old(self).cells_spec(id).update(i as int, c)),
            ),
    {
        let b = &mut self.blocks[id];
        b.cells[i] = c;
    }

    /// Replaces the whole payload of a live block; the new payload must have
    /// the block's element count.
    pub fn write_cells(&mut self, id: usize, cells: Vec<u64>)
        requires
            old(self).is_live(id),
            cells@.len() == old(self).cells_spec(id).len(),
        ensures
            final(self).view() =~= old(self).view().update(id as int, Some(cells@)),
    {
        let b = &mut self.blocks[id];
        b.cells = cells;
    }

    /// Copies the payload of a live block out.
    pub fn read_cells(&self, id: usize) -> (cells: Vec<u64>)
        requires
            self.is_live(id),
        ensures
            cells@ == self.cells_spec(id),
    {
        let n = self.blocks[id].cells.len();
        let mut cells: Vec<u64> = Vec::new();
        let mut i: usize = 0;
        while i < n
            invariant
                self.is_live(id),
                n == self.cells_spec(id).len(),
                i <= n,
                cells@ =~= self.cells_spec(id).take(i as int),
            decreases n - i,
        {
            cells.push(self.blocks[id].cells[i]);
            i = i + 1;
        }
        assert(cells@ =~= self.cells_spec(id));
        cells
    }

    /// Fills every cell of a live block with the same value.
    pub fn fill(&mut self, id: usize, c: u64)
        requires
            old(self).is_live(id),
        ensures
            final(self).view() =~= old(self).view().update(
                id as int,
                Some(Seq::new(old(self).cells_spec(id).len(), |i: int| c)),
            ),
    {
        let n = self.blocks[id].cells.len();
        let mut cells: Vec<u64> = Vec::new();
        let mut i: usize = 0;
        while i < n
            invariant
                i <= n,
                cells@ =~= Seq::new(i as nat, |j: int| c),
            decreases n - i,
        {
            cells.push(c);
            i = i + 1;
        }
        let b = &mut self.blocks[id];
        b.cells = cells;
    }

    /// Whether `id` names a live block.
    pub fn live(&self, id: usize) -> (r: bool)
        requires
            id < self.view().len(),
        ensures
            r == self.is_live(id),
    {
        self.blocks[id].live
    }

    /// Releases a live block. The handle remains a tombstone; it is never
    /// handed out again.
    pub fn free(&mut self, id: usize)
        requires
            old(self).is_live(id),
        ensures
            final(self).view() =~= old(self).view().update(id as int, None),
    {
        let b = &mut self.blocks[id];
        b.live = false;
        b.cells = Vec::new();
    }
}

} // verus!
