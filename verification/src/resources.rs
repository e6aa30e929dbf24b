//! Driver-backed resources: creation parameters, memory requirements, and
//! the ownership graph that models their shared-ownership lifetimes.
mod buffer;
mod graph;
mod image;
mod imageview;

pub use buffer::BufferInfo;
pub use graph::{ResourceGraph, ResourceKind};
pub use image::{spec_lowest_set_bit, Extent3D, ImageInfo, MemoryRequirements};
pub use imageview::ImageViewInfo;
