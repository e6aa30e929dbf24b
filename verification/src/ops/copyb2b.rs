//! Buffer-to-buffer copies.
use crate::commandbuffer::{Command, CommandBuilder};
use crate::error::Error;
use crate::ops::AddToCommandBuffer;
use vstd::prelude::*;

verus! {

/// Copies the leading `size` bytes of one buffer into another.
pub struct CopyBuffer2Buffer {
    pub source: usize,
    pub destination: usize,
    pub size: u64,
}

impl CopyBuffer2Buffer {
    /// Copy `size` bytes from `source` to `destination`.
    pub fn new(source: usize, destination: usize, size: u64) -> (r: CopyBuffer2Buffer)
        ensures
            r == (CopyBuffer2Buffer { source, destination, size }),
    {
        CopyBuffer2Buffer { source, destination, size }
    }
}

impl AddToCommandBuffer for CopyBuffer2Buffer {
    open spec fn spec_commands(&self, queue_family_index: u32) -> Seq<Command> {
        seq![
            Command::CopyBuffer {
                source: self.source,
                destination: self.destination,
                size: self.size,
            },
        ]
    }

    fn run_in(&self, builder: &mut CommandBuilder) -> (r: Result<(), Error>) {
        let ghost qfi = builder.spec_queue_family_index();
        builder.push(
            Command::CopyBuffer {
                source: self.source,
                destination: self.destination,
                size: self.size,
            },
        );
        proof {
            assert(builder.spec_commands() =~= old(builder).spec_commands() + self.spec_commands(
                qfi,
            ));
        }
        Ok(())
    }
}

} // verus!
