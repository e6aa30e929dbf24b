//! The no-op operation.
use crate::commandbuffer::{Command, CommandBuilder};
use crate::error::Error;
use crate::ops::AddToCommandBuffer;
use vstd::prelude::*;

verus! {

/// An operation that records nothing.
pub struct Dummy {}

impl Dummy {
    /// The no-op operation.
    pub fn new() -> (r: Dummy) {
        Dummy {  }
    }
}

impl AddToCommandBuffer for Dummy {
    open spec fn spec_commands(&self, queue_family_index: u32) -> Seq<Command> {
        Seq::empty()
    }

    fn run_in(&self, builder: &mut CommandBuilder) -> (r: Result<(), Error>) {
        proof {
            assert(old(builder).spec_commands() + self.spec_commands(
                old(builder).spec_queue_family_index(),
            ) =~= old(builder).spec_commands());
        }
        Ok(())
    }
}

} // verus!
