//! H.264 parameter-set parsing and decode-parameter derivation: the
//! bit-level reader, RBSP unescaping, the codec-neutral records, the SPS
//! and PPS parsers, the running context, and the builder that derives the
//! driver-shaped decode-session parameters from it.
pub mod bits;
pub mod context;
pub mod h264inspector;
pub mod parameters;
pub mod pps;
pub mod rbsp;
pub mod record;
pub mod sps;

pub use context::Context;
pub use h264inspector::{FeedError, H264StreamInspector, NalHeaderError};
