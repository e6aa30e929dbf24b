//! Operations that can be recorded into a submission (compute, memory
//! copies, video decode), each appending its commands and the barriers it
//! needs.
use crate::commandbuffer::{Command, CommandBuilder};
use crate::error::Error;
use vstd::prelude::*;

mod compute;
mod copyb2b;
mod copyi2b;
mod decodeh264;
mod dummy;
mod fill;

pub use compute::{Compute, ShaderParam};
pub use copyb2b::CopyBuffer2Buffer;
pub use copyi2b::CopyImage2Buffer;
pub use decodeh264::{DecodeH264, DecodeInfo};
pub use dummy::Dummy;
pub use fill::{filled_bytes, spec_fill_byte, FillBuffer};

verus! {

/// Something that can be added to a recording (compute, a memory copy, a
/// video decode): it appends exactly its own commands, barriers included,
/// in order, after what is already recorded.
pub trait AddToCommandBuffer: Sized {
    /// The commands this operation records when the recording targets
    /// queue family `queue_family_index`.
    spec fn spec_commands(&self, queue_family_index: u32) -> Seq<Command>;

    /// Appends this operation's commands to the recording.
    fn run_in(&self, builder: &mut CommandBuilder) -> (r: Result<(), Error>)
        ensures
            r is Ok,
            final(builder).spec_queue_family_index() == old(builder).spec_queue_family_index(),
            final(builder).spec_commands() == old(builder).spec_commands() + self.spec_commands(
                old(builder).spec_queue_family_index(),
            ),
    ;
}

} // verus!
