//! The command submission protocol: one submission moves through
//! Idle, Recording, Submitted and Complete, and carries exactly the
//! commands of the recorded operations, in the order they were appended.
//!
//! The unverified driver layer walks the protocol: it resets and begins the
//! command buffer on `begin`, translates each command on `submit`, then
//! waits on the fence and for queue idleness before `complete`.
use crate::commandbuffer::{Command, CommandBuilder};
use crate::error::Error;
use crate::ops::{
    AddToCommandBuffer, Compute, CopyBuffer2Buffer, CopyImage2Buffer, DecodeH264, Dummy,
    FillBuffer,
};
use vstd::prelude::*;

verus! {

/// Where a submission stands: not yet recording, recording, handed to the
/// queue, or finished (fence signalled and queue idle).
#[derive(Debug, Clone, Copy, PartialEq, Eq, Structural)]
pub enum SubmissionState {
    Idle,
    Recording,
    Submitted,
    Complete,
}

/// One operation of the catalog, as a submission records it.
pub enum Operation {
    Dummy(Dummy),
    Fill(FillBuffer),
    CopyBufferToBuffer(CopyBuffer2Buffer),
    CopyImageToBuffer(CopyImage2Buffer),
    Compute(Compute),
    DecodeH264(DecodeH264),
}

impl AddToCommandBuffer for Operation {
    open spec fn spec_commands(&self, queue_family_index: u32) -> Seq<Command> {
        match self {
            Operation::Dummy(op) => op.spec_commands(queue_family_index),
            Operation::Fill(op) => op.spec_commands(queue_family_index),
            Operation::CopyBufferToBuffer(op) => op.spec_commands(queue_family_index),
            Operation::CopyImageToBuffer(op) => op.spec_commands(queue_family_index),
            Operation::Compute(op) => op.spec_commands(queue_family_index),
            Operation::DecodeH264(op) => op.spec_commands(queue_family_index),
        }
    }

    fn run_in(&self, builder: &mut CommandBuilder) -> (r: Result<(), Error>) {
        match self {
            Operation::Dummy(op) => op.run_in(builder),
            Operation::Fill(op) => op.run_in(builder),
            Operation::CopyBufferToBuffer(op) => op.run_in(builder),
            Operation::CopyImageToBuffer(op) => op.run_in(builder),
            Operation::Compute(op) => op.run_in(builder),
            Operation::DecodeH264(op) => op.run_in(builder),
        }
    }
}

/// The commands of `ops`, concatenated in order, for queue family
/// `queue_family_index`.
pub open spec fn spec_commands_of_ops(ops: Seq<Operation>, queue_family_index: u32) -> Seq<Command>
    decreases ops.len(),
{
    if ops.len() == 0 {
        Seq::empty()
    } else {
        spec_commands_of_ops(ops.drop_last(), queue_family_index) + ops.last().spec_commands(
            queue_family_index,
        )
    }
}

/// One submission: its protocol state and its recording.
pub struct Submission {
    state: SubmissionState,
    builder: CommandBuilder,
}

impl Submission {
    /// The protocol state.
    pub closed spec fn spec_state(&self) -> SubmissionState {
        self.state
    }

    /// The queue family the submission targets.
    pub closed spec fn spec_queue_family_index(&self) -> u32 {
        self.builder.spec_queue_family_index()
    }

    /// The commands recorded so far, in order.
    pub closed spec fn spec_commands(&self) -> Seq<Command> {
        self.builder.spec_commands()
    }

    /// A fresh submission for queue family `queue_family_index`.
    pub fn new(queue_family_index: u32) -> (r: Submission)
        ensures
            r.spec_state() == SubmissionState::Idle,
            r.spec_queue_family_index() == queue_family_index,
            r.spec_commands() == Seq::<Command>::empty(),
    {
        Submission { state: SubmissionState::Idle, builder: CommandBuilder::new(queue_family_index) }
    }

    /// The protocol state.
    pub fn state(&self) -> (r: SubmissionState)
        ensures
            r == self.spec_state(),
    {
        self.state
    }

    /// The queue family the submission targets.
    pub fn queue_family_index(&self) -> (r: u32)
        ensures
            r == self.spec_queue_family_index(),
    {
        self.builder.queue_family_index()
    }

    /// Begins recording: the command buffer is reset, so recording starts
    /// from nothing.
    pub fn begin(&mut self)
        requires
            old(self).spec_state() == SubmissionState::Idle,
        ensures
            final(self).spec_state() == SubmissionState::Recording,
            final(self).spec_queue_family_index() == old(self).spec_queue_family_index(),
            final(self).spec_commands() == Seq::<Command>::empty(),
    {
        let queue_family_index = self.builder.queue_family_index();
        self.builder = CommandBuilder::new(queue_family_index);
        self.state = SubmissionState::Recording;
    }

    /// Records one operation: exactly its commands are appended, in order.
    pub fn record(&mut self, op: &Operation) -> (r: Result<(), Error>)
        requires
            old(self).spec_state() == SubmissionState::Recording,
        ensures
            r is Ok,
            final(self).spec_state() == SubmissionState::Recording,
            final(self).spec_queue_family_index() == old(self).spec_queue_family_index(),
            final(self).spec_commands() == old(self).spec_commands() + op.spec_commands(
                old(self).spec_queue_family_index(),
            ),
    {
        op.run_in(&mut self.builder)
    }

    /// Ends recording and hands the commands to the queue.
    pub fn submit(&mut self)
        requires
            old(self).spec_state() == SubmissionState::Recording,
        ensures
            final(self).spec_state() == SubmissionState::Submitted,
            final(self).spec_queue_family_index() == old(self).spec_queue_family_index(),
            final(self).spec_commands() == old(self).spec_commands(),
    {
        self.state = SubmissionState::Submitted;
    }

    /// Marks the submission finished: the fence has signalled and the queue
    /// has gone idle.
    pub fn complete(&mut self)
        requires
            old(self).spec_state() == SubmissionState::Submitted,
        ensures
            final(self).spec_state() == SubmissionState::Complete,
            final(self).spec_queue_family_index() == old(self).spec_queue_family_index(),
            final(self).spec_commands() == old(self).spec_commands(),
    {
        self.state = SubmissionState::Complete;
    }

    /// The commands recorded so far, in order.
    pub fn commands(&self) -> (r: &Vec<Command>)
        ensures
            r@ == self.spec_commands(),
    {
        self.builder.commands()
    }
}

/// A queue of one queue family, to which submissions are built and handed.
pub struct Queue {
    family: u32,
    index: u32,
}

impl Queue {
    /// The queue family.
    pub closed spec fn spec_family(&self) -> u32 {
        self.family
    }

    /// The queue index within the family.
    pub closed spec fn spec_index(&self) -> u32 {
        self.index
    }

    /// Queue `index` of queue family `family`.
    pub fn new(family: u32, index: u32) -> (r: Queue)
        ensures
            r.spec_family() == family,
            r.spec_index() == index,
    {
        Queue { family, index }
    }

    /// Builds a submission from `ops` and hands it to the queue: the
    /// recording holds exactly the operations' commands, in the exact order
    /// the operations were given. The caller performs the driver calls and
    /// then marks the submission complete.
    pub fn build_and_submit(&self, ops: &Vec<Operation>) -> (r: Result<Submission, Error>)
        ensures
            match r {
                Ok(s) => {
                    &&& s.spec_state() == SubmissionState::Submitted
                    &&& s.spec_queue_family_index() == self.spec_family()
                    &&& s.spec_commands() == spec_commands_of_ops(ops@, self.spec_family())
                },
                Err(_) => false,
            },
    {
        let mut submission = Submission::new(self.family);
        submission.begin();
        let mut i: usize = 0;
        while i < ops.len()
            invariant
                i <= ops@.len(),
                submission.spec_state() == SubmissionState::Recording,
                submission.spec_queue_family_index() == self.spec_family(),
                submission.spec_commands() == spec_commands_of_ops(
                    ops@.take(i as int),
                    self.spec_family(),
                ),
            decreases ops@.len() - i,
        {
            proof {
                assert(ops@.take(i + 1).drop_last() =~= ops@.take(i as int));
                assert(ops@.take(i + 1).last() == ops@[i as int]);
            }
            let result = submission.record(&ops[i]);
            proof {
                assert(result is Ok);
            }
            match result {
                Ok(()) => {},
                Err(e) => {
                    return Err(e);
                },
            }
            i = i + 1;
        }
        proof {
            assert(ops@.take(ops@.len() as int) =~= ops@);
        }
        submission.submit();
        Ok(submission)
    }
}

} // verus!
