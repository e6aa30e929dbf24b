//! Video bitstream handling: segmentation into NAL units and the H.264
//! parameter-set machinery built on top of it.
pub mod h264;
mod session;
mod utils;

pub use session::{plan_video_session_memory, SessionMemoryBinding};
pub use utils::{
    is_unit_start, is_unit_start_from, lemma_next_offset_characterization,
    lemma_no_start_code_no_units, lemma_two_start_codes_two_units, nal_units, next_offset,
    spec_next_offset, spec_unit_at, spec_units, spec_units_from, NalUnits,
};
