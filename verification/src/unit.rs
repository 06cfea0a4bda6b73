//! The element trait every buffer element type implements.
//!
//! Device memory stores one 64-bit cell per element, whatever the element
//! type; this is what lets one cache table serve buffers of every element
//! type at once. A `Unit` type says how an element is put into a cell and
//! taken out again, what its layout is (for the type-compatibility check of
//! the cache), and what its default value is (for zero-initialised
//! allocations and for `clear`).
//!
//! The crate implements `Unit` for the common integer types. Downstream
//! users may implement it for further `Copy` types whose values fit a cell.

use vstd::prelude::*;

verus! {

/// An element type storable in device memory.
///
/// The two conversion laws — a value survives the trip through a cell, and
/// the default value is stored as the zero cell — are what make typed reads
/// faithful and zero-filled allocations read back as defaults.
pub trait Unit: Copy + Sized {
    /// The cell that stores `self`.
    spec fn as_cell_spec(self) -> u64;

    /// The element a cell is read back as.
    spec fn of_cell_spec(c: u64) -> Self;

    /// The element size in bytes recorded in erased cache records.
    spec fn size_spec() -> usize;

    /// The element alignment in bytes recorded in erased cache records.
    spec fn align_spec() -> usize;

    /// The type's default value.
    spec fn default_spec() -> Self;

    /// A value stored into a cell is read back unchanged.
    proof fn lemma_cell_roundtrip(self)
        ensures
            Self::of_cell_spec(self.as_cell_spec()) == self,
    ;

    /// The zero cell reads back as the default value.
    proof fn lemma_zero_cell_default()
        ensures
            Self::of_cell_spec(0u64) == Self::default_spec(),
    ;

    /// Size and alignment are positive.
    proof fn lemma_layout_positive()
        ensures
            0 < Self::size_spec(),
            0 < Self::align_spec(),
    ;

    /// Stores an element into a cell.
    fn to_cell(self) -> (c: u64)
        ensures
            c == self.as_cell_spec(),
    ;

    /// Reads an element back out of a cell.
    fn from_cell(c: u64) -> (r: Self)
        ensures
            r == Self::of_cell_spec(c),
    ;

    /// The element size in bytes.
    fn size() -> (s: usize)
        ensures
            s == Self::size_spec(),
    ;

    /// The element alignment in bytes.
    fn align() -> (a: usize)
        ensures
            a == Self::align_spec(),
    ;

    /// The type's default value.
    fn default_val() -> (d: Self)
        ensures
            d == Self::default_spec(),
    ;
}

impl Unit for u8 {
    open spec fn as_cell_spec(self) -> u64 {
        self as u64
    }

    open spec fn of_cell_spec(c: u64) -> Self {
        c as u8
    }

    open spec fn size_spec() -> usize {
        1
    }

    open spec fn align_spec() -> usize {
        1
    }

    open spec fn default_spec() -> Self {
        0
    }

    proof fn lemma_cell_roundtrip(self) {
    }

    proof fn lemma_zero_cell_default() {
    }

    proof fn lemma_layout_positive() {
    }

    fn to_cell(self) -> u64 {
        self as u64
    }

    fn from_cell(c: u64) -> Self {
        c as u8
    }

    fn size() -> usize {
        1
    }

    fn align() -> usize {
        1
    }

    fn default_val() -> Self {
        0
    }
}

impl Unit for i32 {
    open spec fn as_cell_spec(self) -> u64 {
        (self as u32) as u64
    }

    open spec fn of_cell_spec(c: u64) -> Self {
        (c as u32) as i32
    }

    open spec fn size_spec() -> usize {
        4
    }

    open spec fn align_spec() -> usize {
        4
    }

    open spec fn default_spec() -> Self {
        0
    }

    proof fn lemma_cell_roundtrip(self) {
        assert((((self as u32) as u64) as u32) as i32 == self) by (bit_vector);
    }

    proof fn lemma_zero_cell_default() {
    }

    proof fn lemma_layout_positive() {
    }

    fn to_cell(self) -> u64 {
        (self as u32) as u64
    }

    fn from_cell(c: u64) -> Self {
        (c as u32) as i32
    }

    fn size() -> usize {
        4
    }

    fn align() -> usize {
        4
    }

    fn default_val() -> Self {
        0
    }
}

impl Unit for u32 {
    open spec fn as_cell_spec(self) -> u64 {
        self as u64
    }

    open spec fn of_cell_spec(c: u64) -> Self {
        c as u32
    }

    open spec fn size_spec() -> usize {
        4
    }

    open spec fn align_spec() -> usize {
        4
    }

    open spec fn default_spec() -> Self {
        0
    }

    proof fn lemma_cell_roundtrip(self) {
    }

    proof fn lemma_zero_cell_default() {
    }

    proof fn lemma_layout_positive() {
    }

    fn to_cell(self) -> u64 {
        self as u64
    }

    fn from_cell(c: u64) -> Self {
        c as u32
    }

    fn size() -> usize {
        4
    }

    fn align() -> usize {
        4
    }

    fn default_val() -> Self {
        0
    }
}

impl Unit for i64 {
    open spec fn as_cell_spec(self) -> u64 {
        self as u64
    }

    open spec fn of_cell_spec(c: u64) -> Self {
        c as i64
    }

    open spec fn size_spec() -> usize {
        8
    }

    open spec fn align_spec() -> usize {
        8
    }

    open spec fn default_spec() -> Self {
        0
    }

    proof fn lemma_cell_roundtrip(self) {
        assert(((self as u64) as i64) == self) by (bit_vector);
    }

    proof fn lemma_zero_cell_default() {
    }

    proof fn lemma_layout_positive() {
    }

    fn to_cell(self) -> u64 {
        self as u64
    }

    fn from_cell(c: u64) -> Self {
        c as i64
    }

    fn size() -> usize {
        8
    }

    fn align() -> usize {
        8
    }

    fn default_val() -> Self {
        0
    }
}

impl Unit for u64 {
    open spec fn as_cell_spec(self) -> u64 {
        self
    }

    open spec fn of_cell_spec(c: u64) -> Self {
        c
    }

    open spec fn size_spec() -> usize {
        8
    }

    open spec fn align_spec() -> usize {
        8
    }

    open spec fn default_spec() -> Self {
        0
    }

    proof fn lemma_cell_roundtrip(self) {
    }

    proof fn lemma_zero_cell_default() {
    }

    proof fn lemma_layout_positive() {
    }

    fn to_cell(self) -> u64 {
        self
    }

    fn from_cell(c: u64) -> Self {
        c
    }

    fn size() -> usize {
        8
    }

    fn align() -> usize {
        8
    }

    fn default_val() -> Self {
        0
    }
}

impl Unit for usize {
    open spec fn as_cell_spec(self) -> u64 {
        self as u64
    }

    open spec fn of_cell_spec(c: u64) -> Self {
        c as usize
    }

    open spec fn size_spec() -> usize {
        8
    }

    open spec fn align_spec() -> usize {
        8
    }

    open spec fn default_spec() -> Self {
        0
    }

    proof fn lemma_cell_roundtrip(self) {
        assert(((self as u64) as usize) == self);
    }

    proof fn lemma_zero_cell_default() {
    }

    proof fn lemma_layout_positive() {
    }

    fn to_cell(self) -> u64 {
        self as u64
    }

    fn from_cell(c: u64) -> Self {
        c as usize
    }

    fn size() -> usize {
        8
    }

    fn align() -> usize {
        8
    }

    fn default_val() -> Self {
        0
    }
}

} // verus!
