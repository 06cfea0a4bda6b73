//! The ownership tag carried by every device pointer and buffer.

use vstd::prelude::*;

verus! {

/// Describes who owns a block of backing memory and therefore who is
/// responsible for releasing it.
///
/// - `Owned`: the buffer exclusively owns freshly allocated memory and frees
///   it when it is dropped.
/// - `Borrowed`: the memory belongs to an external owner; the buffer never
///   frees it.
/// - `CacheSlot`: the memory is a slot of a device cache; its lifetime is
///   owned by the cache, never by an individual buffer holding it.
#[derive(Clone, Copy, PartialEq, Eq, Structural, Debug)]
pub enum AllocFlag {
    Owned,
    Borrowed,
    CacheSlot,
}

impl AllocFlag {
    /// True exactly when a buffer carrying this flag releases its backing
    /// memory on destruction.
    pub open spec fn frees_on_drop_spec(self) -> bool {
        self is Owned
    }

    /// Runtime counterpart of [`AllocFlag::frees_on_drop_spec`].
    pub fn frees_on_drop(self) -> (r: bool)
        ensures
            r == self.frees_on_drop_spec(),
    {
        matches!(self, AllocFlag::Owned)
    }
}

} // verus!
