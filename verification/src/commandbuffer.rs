//! The recording context: the ordered list of driver commands, barriers
//! included, that one submission will carry.
//!
//! Commands are plain values; resources appear as their node ids in the
//! ownership graph. The unverified driver layer translates each command
//! into the corresponding driver call, in list order; consecutive barrier
//! commands may be handed to the driver as one barrier batch.
use vstd::prelude::*;

verus! {

/// An image layout, as far as the operations here move images between
/// layouts.
#[derive(Debug, Clone, Copy, PartialEq, Eq, Structural)]
pub enum LayoutKind {
    Undefined,
    General,
    VideoDecodeDpb,
}

/// A pipeline stage named by a barrier.
#[derive(Debug, Clone, Copy, PartialEq, Eq, Structural)]
pub enum StageScope {
    NoStage,
    TopOfPipe,
    BottomOfPipe,
    Transfer,
    Copy,
    ComputeShader,
    AllCommands,
    Host,
    VideoDecode,
}

/// A memory access scope named by a barrier.
#[derive(Debug, Clone, Copy, PartialEq, Eq, Structural)]
pub enum AccessScope {
    NoAccess,
    TransferRead,
    TransferWrite,
    MemoryReadWrite,
    HostWrite,
    VideoDecodeRead,
    VideoDecodeWrite,
}

/// A memory barrier on a buffer range, with optional queue-family ownership
/// transfer (`None` leaves the family ignored).
#[derive(Debug, Clone, Copy, PartialEq, Eq, Structural)]
pub struct BufferBarrier {
    pub buffer: usize,
    pub offset: u64,
    pub size: u64,
    pub src_stage: StageScope,
    pub src_access: AccessScope,
    pub dst_stage: StageScope,
    pub dst_access: AccessScope,
    pub src_queue_family: Option<u32>,
    pub dst_queue_family: Option<u32>,
}

/// A memory barrier on an image, moving it between layouts, with optional
/// queue-family ownership transfer (`None` leaves the family ignored).
#[derive(Debug, Clone, Copy, PartialEq, Eq, Structural)]
pub struct ImageBarrier {
    pub image: usize,
    pub old_layout: LayoutKind,
    pub new_layout: LayoutKind,
    pub src_stage: StageScope,
    pub src_access: AccessScope,
    pub dst_stage: StageScope,
    pub dst_access: AccessScope,
    pub src_queue_family: Option<u32>,
    pub dst_queue_family: Option<u32>,
}

/// One recorded driver command.
#[derive(Debug, Clone, Copy, PartialEq, Eq, Structural)]
pub enum Command {
    BufferMemoryBarrier(BufferBarrier),
    ImageMemoryBarrier(ImageBarrier),
    /// Fill a buffer range with a 32-bit value; `size` of `None` means the
    /// whole remaining buffer.
    FillBuffer { buffer: usize, offset: u64, size: Option<u64>, value: u32 },
    CopyBuffer { source: usize, destination: usize, size: u64 },
    CopyImageToBuffer {
        image: usize,
        layout: LayoutKind,
        buffer: usize,
        width: u32,
        height: u32,
        depth: u32,
        aspect_mask: u32,
    },
    /// Point descriptor-set binding `binding` at a buffer.
    UpdateDescriptorBuffer { binding: u32, buffer: usize, size: u64 },
    /// Point descriptor-set binding `binding` at an image view.
    UpdateDescriptorImage { binding: u32, view: usize, layout: LayoutKind },
    BindComputePipeline { pipeline: usize },
    BindDescriptorSets,
    Dispatch { x: u32, y: u32, z: u32 },
    BeginVideoCoding { session: usize, parameters: usize },
    ControlVideoCoding { reset: bool },
    DecodeVideo {
        source_buffer: usize,
        offset: u64,
        size: u64,
        target_view: usize,
        reference_view: usize,
        width: u32,
        height: u32,
    },
    EndVideoCoding,
}

/// The recording context handed to each operation: the queue family the
/// commands will be submitted to, and the commands recorded so far, in
/// order.
pub struct CommandBuilder {
    queue_family_index: u32,
    commands: Vec<Command>,
}

impl CommandBuilder {
    /// The queue family the recording targets.
    pub closed spec fn spec_queue_family_index(&self) -> u32 {
        self.queue_family_index
    }

    /// The commands recorded so far, in order.
    pub closed spec fn spec_commands(&self) -> Seq<Command> {
        self.commands@
    }

    /// An empty recording targeting queue family `queue_family_index`.
    pub fn new(queue_family_index: u32) -> (r: CommandBuilder)
        ensures
            r.spec_queue_family_index() == queue_family_index,
            r.spec_commands() == Seq::<Command>::empty(),
    {
        let r = CommandBuilder { queue_family_index, commands: Vec::new() };
        proof {
            assert(r.spec_commands() =~= Seq::<Command>::empty());
        }
        r
    }

    /// The queue family the recording targets.
    pub fn queue_family_index(&self) -> (r: u32)
        ensures
            r == self.spec_queue_family_index(),
    {
        self.queue_family_index
    }

    /// Appends one command.
    pub fn push(&mut self, command: Command)
        ensures
            final(self).spec_queue_family_index() == old(self).spec_queue_family_index(),
            final(self).spec_commands() == old(self).spec_commands().push(command),
    {
        self.commands.push(command);
    }

    /// The commands recorded so far, in order.
    pub fn commands(&self) -> (r: &Vec<Command>)
        ensures
            r@ == self.spec_commands(),
    {
        &self.commands
    }
}

} // verus!
