//! Running a compute shader: descriptor updates for a fixed-arity parameter
//! list of buffers and image views, the pipeline and descriptor bindings, a
//! dispatch, and barriers on every touched resource before and after.
use crate::commandbuffer::{
    AccessScope, BufferBarrier, Command, CommandBuilder, ImageBarrier, LayoutKind, StageScope,
};
use crate::error::Error;
use crate::ops::AddToCommandBuffer;
use vstd::prelude::*;

verus! {

/// One shader parameter: a storage buffer or a storage image view.
#[derive(Debug, Clone, Copy, PartialEq, Eq, Structural)]
pub enum ShaderParam {
    Buffer { buffer: usize, size: u64 },
    ImageView { view: usize, image: usize },
}

/// The descriptor update for parameter `p` at binding `binding`.
pub open spec fn spec_update_command(p: ShaderParam, binding: u32) -> Command {
    match p {
        ShaderParam::Buffer { buffer, size } => Command::UpdateDescriptorBuffer {
            binding,
            buffer,
            size,
        },
        ShaderParam::ImageView { view, image } => Command::UpdateDescriptorImage {
            binding,
            view,
            layout: LayoutKind::General,
        },
    }
}

/// The acquire barrier for parameter `p`: a buffer is handed to the target
/// queue family, an image is moved into the general layout.
pub open spec fn spec_acquire_command(p: ShaderParam, queue_family_index: u32) -> Command {
    match p {
        ShaderParam::Buffer { buffer, size } => Command::BufferMemoryBarrier(
            BufferBarrier {
                buffer,
                offset: 0,
                size,
                src_stage: StageScope::AllCommands,
                src_access: AccessScope::MemoryReadWrite,
                dst_stage: StageScope::ComputeShader,
                dst_access: AccessScope::MemoryReadWrite,
                src_queue_family: None,
                dst_queue_family: Some(queue_family_index),
            },
        ),
        ShaderParam::ImageView { view, image } => Command::ImageMemoryBarrier(
            ImageBarrier {
                image,
                old_layout: LayoutKind::Undefined,
                new_layout: LayoutKind::General,
                src_stage: StageScope::AllCommands,
                src_access: AccessScope::NoAccess,
                dst_stage: StageScope::ComputeShader,
                dst_access: AccessScope::NoAccess,
                src_queue_family: None,
                dst_queue_family: None,
            },
        ),
    }
}

/// The descriptor updates for `params`, one per parameter, in order.
pub open spec fn spec_update_commands(params: Seq<ShaderParam>) -> Seq<Command>
    decreases params.len(),
{
    if params.len() == 0 {
        Seq::empty()
    } else {
        spec_update_commands(params.drop_last()).push(
            spec_update_command(params.last(), (params.len() - 1) as u32),
        )
    }
}

/// The acquire barriers for `params`, one per parameter, in order.
pub open spec fn spec_acquire_commands(params: Seq<ShaderParam>, queue_family_index: u32) -> Seq<
    Command,
>
    decreases params.len(),
{
    if params.len() == 0 {
        Seq::empty()
    } else {
        spec_acquire_commands(params.drop_last(), queue_family_index).push(
            spec_acquire_command(params.last(), queue_family_index),
        )
    }
}

/// The release barriers for the buffer parameters of `params`, in order.
pub open spec fn spec_release_commands(params: Seq<ShaderParam>, queue_family_index: u32) -> Seq<
    Command,
>
    decreases params.len(),
{
    if params.len() == 0 {
        Seq::empty()
    } else {
        spec_release_commands(params.drop_last(), queue_family_index) + (match params.last() {
            ShaderParam::Buffer { buffer, size } => seq![
                Command::BufferMemoryBarrier(
                    BufferBarrier {
                        buffer,
                        offset: 0,
                        size,
                        src_stage: StageScope::AllCommands,
                        src_access: AccessScope::MemoryReadWrite,
                        dst_stage: StageScope::Host,
                        dst_access: AccessScope::MemoryReadWrite,
                        src_queue_family: Some(queue_family_index),
                        dst_queue_family: None,
                    },
                ),
            ],
            ShaderParam::ImageView { .. } => Seq::empty(),
        })
    }
}

/// Runs a compute shader over a parameter list of buffers and image views.
pub struct Compute {
    pub pipeline: usize,
    pub params: Vec<ShaderParam>,
    pub dispatch_groups: (u32, u32, u32),
}

impl Compute {
    /// Dispatch `dispatch_groups` workgroups of the pipeline named
    /// `pipeline` over `params`.
    pub fn new(pipeline: usize, params: Vec<ShaderParam>, dispatch_groups: (u32, u32, u32)) -> (r:
        Compute)
        requires
            params@.len() <= 0xFFFF_FFFF,
        ensures
            r == (Compute { pipeline, params, dispatch_groups }),
    {
        Compute { pipeline, params, dispatch_groups }
    }
}

impl AddToCommandBuffer for Compute {
    open spec fn spec_commands(&self, queue_family_index: u32) -> Seq<Command> {
        spec_update_commands(self.params@) + seq![
            Command::BindComputePipeline { pipeline: self.pipeline },
            Command::BindDescriptorSets,
        ] + spec_acquire_commands(self.params@, queue_family_index) + seq![
            Command::Dispatch {
                x: self.dispatch_groups.0,
                y: self.dispatch_groups.1,
                z: self.dispatch_groups.2,
            },
        ] + spec_release_commands(self.params@, queue_family_index)
    }

    fn run_in(&self, builder: &mut CommandBuilder) -> (r: Result<(), Error>) {
        let ghost qfi = builder.spec_queue_family_index();
        let ghost base = builder.spec_commands();
        let n = self.params.len();
        let mut i: usize = 0;
        while i < n
            invariant
                n == self.params@.len(),
                i <= n,
                builder.spec_queue_family_index() == qfi,
                builder.spec_commands() == base + spec_update_commands(self.params@.take(i as int)),
            decreases n - i,
        {
            proof {
                assert(self.params@.take(i + 1).drop_last() =~= self.params@.take(i as int));
                assert(self.params@.take(i + 1).last() == self.params@[i as int]);
            }
            let binding = i as u32;
            match self.params[i] {
                ShaderParam::Buffer { buffer, size } => {
                    builder.push(Command::UpdateDescriptorBuffer { binding, buffer, size });
                },
                ShaderParam::ImageView { view, image } => {
                    builder.push(
                        Command::UpdateDescriptorImage {
                            binding,
                            view,
                            layout: LayoutKind::General,
                        },
                    );
                },
            }
            proof {
                assert(builder.spec_commands() =~= base + spec_update_commands(
                    self.params@.take(i + 1),
                ));
            }
            i = i + 1;
        }
        proof {
            assert(self.params@.take(n as int) =~= self.params@);
        }
        builder.push(Command::BindComputePipeline { pipeline: self.pipeline });
        builder.push(Command::BindDescriptorSets);
        let ghost base2 = builder.spec_commands();
        let mut i: usize = 0;
        while i < n
            invariant
                n == self.params@.len(),
                i <= n,
                builder.spec_queue_family_index() == qfi,
                builder.spec_commands() == base2 + spec_acquire_commands(
                    self.params@.take(i as int),
                    qfi,
                ),
            decreases n - i,
        {
            proof {
                assert(self.params@.take(i + 1).drop_last() =~= self.params@.take(i as int));
                assert(self.params@.take(i + 1).last() == self.params@[i as int]);
            }
            let qf = builder.queue_family_index();
            match self.params[i] {
                ShaderParam::Buffer { buffer, size } => {
                    builder.push(
                        Command::BufferMemoryBarrier(
                            BufferBarrier {
                                buffer,
                                offset: 0,
                                size,
                                src_stage: StageScope::AllCommands,
                                src_access: AccessScope::MemoryReadWrite,
                                dst_stage: StageScope::ComputeShader,
                                dst_access: AccessScope::MemoryReadWrite,
                                src_queue_family: None,
                                dst_queue_family: Some(qf),
                            },
                        ),
                    );
                },
                ShaderParam::ImageView { view, image } => {
                    builder.push(
                        Command::ImageMemoryBarrier(
                            ImageBarrier {
                                image,
                                old_layout: LayoutKind::Undefined,
                                new_layout: LayoutKind::General,
                                src_stage: StageScope::AllCommands,
                                src_access: AccessScope::NoAccess,
                                dst_stage: StageScope::ComputeShader,
                                dst_access: AccessScope::NoAccess,
                                src_queue_family: None,
                                dst_queue_family: None,
                            },
                        ),
                    );
                },
            }
            proof {
                assert(builder.spec_commands() =~= base2 + spec_acquire_commands(
                    self.params@.take(i + 1),
                    qfi,
                ));
            }
            i = i + 1;
        }
        proof {
            assert(self.params@.take(n as int) =~= self.params@);
        }
        builder.push(
            Command::Dispatch {
                x: self.dispatch_groups.0,
                y: self.dispatch_groups.1,
                z: self.dispatch_groups.2,
            },
        );
        let ghost base3 = builder.spec_commands();
        let mut i: usize = 0;
        while i < n
            invariant
                n == self.params@.len(),
                i <= n,
                builder.spec_queue_family_index() == qfi,
                builder.spec_commands() == base3 + spec_release_commands(
                    self.params@.take(i as int),
                    qfi,
                ),
            decreases n - i,
        {
            proof {
                assert(self.params@.take(i + 1).drop_last() =~= self.params@.take(i as int));
                assert(self.params@.take(i + 1).last() == self.params@[i as int]);
            }
            let qf = builder.queue_family_index();
            match self.params[i] {
                ShaderParam::Buffer { buffer, size } => {
                    builder.push(
                        Command::BufferMemoryBarrier(
                            BufferBarrier {
                                buffer,
                                offset: 0,
                                size,
                                src_stage: StageScope::AllCommands,
                                src_access: AccessScope::MemoryReadWrite,
                                dst_stage: StageScope::Host,
                                dst_access: AccessScope::MemoryReadWrite,
                                src_queue_family: Some(qf),
                                dst_queue_family: None,
                            },
                        ),
                    );
                },
                ShaderParam::ImageView { .. } => {},
            }
            proof {
                assert(builder.spec_commands() =~= base3 + spec_release_commands(
                    self.params@.take(i + 1),
                    qfi,
                ));
            }
            i = i + 1;
        }
        proof {
            assert(self.params@.take(n as int) =~= self.params@);
            assert(builder.spec_commands() =~= old(builder).spec_commands() + self.spec_commands(
                qfi,
            ));
        }
        Ok(())
    }
}

} // verus!
