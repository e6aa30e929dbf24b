//! Memory-type selection for allocations.
use vstd::prelude::*;

verus! {

/// The index of a memory type in the physical device's memory-type table.
#[derive(Debug, Clone, Copy, PartialEq, Eq, Structural)]
pub struct MemoryTypeIndex(u32);

impl MemoryTypeIndex {
    /// The raw table index.
    pub closed spec fn spec_index(&self) -> u32 {
        self.0
    }

    /// Wraps a raw memory-type table index.
    pub fn new(type_index: u32) -> (r: MemoryTypeIndex)
        ensures
            r.spec_index() == type_index,
    {
        MemoryTypeIndex(type_index)
    }

    /// The raw table index.
    pub fn index(&self) -> (r: u32)
        ensures
            r == self.spec_index(),
    {
        self.0
    }
}

} // verus!
