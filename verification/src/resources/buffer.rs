//! Creation parameters for buffers.
use vstd::prelude::*;

verus! {

/// Specifies how to create a buffer: its size and, optionally, the
/// alignment and offset of its backing within an allocation.
#[derive(Debug, Clone, PartialEq, Eq, Structural)]
pub struct BufferInfo {
    pub size: u64,
    pub alignment: Option<u64>,
    pub offset: Option<u64>,
}

impl BufferInfo {
    /// An empty specification: zero size, no alignment, no offset.
    pub fn new() -> (r: BufferInfo)
        ensures
            r.size == 0,
            r.alignment is None,
            r.offset is None,
    {
        BufferInfo { size: 0, alignment: None, offset: None }
    }

    /// Sets the size in bytes.
    pub fn size(self, size: u64) -> (r: BufferInfo)
        ensures
            r == (BufferInfo { size, ..self }),
    {
        BufferInfo { size, ..self }
    }

    /// Sets the alignment in bytes.
    pub fn alignment(self, alignment: u64) -> (r: BufferInfo)
        ensures
            r == (BufferInfo { alignment: Some(alignment), ..self }),
    {
        BufferInfo { alignment: Some(alignment), ..self }
    }

    /// Sets the offset within the backing allocation.
    pub fn offset(self, offset: u64) -> (r: BufferInfo)
        ensures
            r == (BufferInfo { offset: Some(offset), ..self }),
    {
        BufferInfo { offset: Some(offset), ..self }
    }
}

} // verus!
