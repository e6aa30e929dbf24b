//! Hardware-accelerated H.264 video decoding on a Vulkan-style driver, with
//! the reasoning around the driver verified.
//!
//! The library holds the parts of such a stack whose behaviour is pure
//! logic, stated in contracts and proved:
//!
//! - the bitstream segmenter, which splits an Annex-B elementary stream
//!   into NAL units at start-code boundaries ([`video`]);
//! - the SPS/PPS parameter-set parser and its running context
//!   ([`video::h264`]);
//! - the decode-parameter builder, which derives the driver-shaped nested
//!   parameter structures — flag bit-fields included — from the parsed
//!   context ([`video::h264::parameters`]);
//! - the resource ownership graph, which models reference-counted shared
//!   ownership of driver objects and proves that a resource is destroyed
//!   exactly when its last owner goes, never before a dependent
//!   ([`resources`]);
//! - the command submission protocol and the operation catalog, which
//!   record operations and their barriers as plain command lists in the
//!   order the caller appended them ([`ops`], [`Queue`]).
//!
//! The driver itself is unverified foreign code: a thin layer outside the
//! library converts the plain values produced here into native driver
//! structures and performs the calls, mirroring the graph and the protocol
//! step for step.
mod allocation;
mod commandbuffer;
mod error;
mod physicaldevice;
mod queue;

pub mod ops;

pub mod resources;
pub mod video;

pub use allocation::MemoryTypeIndex;
pub use commandbuffer::{
    AccessScope, BufferBarrier, Command, CommandBuilder, ImageBarrier, LayoutKind, StageScope,
};
pub use error::{Error, Variant};
pub use physicaldevice::{spec_first_with_mask, HeapInfos, QueueFamilyInfos};
pub use queue::{Operation, Queue, Submission, SubmissionState};
