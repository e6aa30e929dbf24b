//! Image-to-buffer copies, with the acquire and release barriers that move
//! the image into and out of a transfer-compatible layout.
use crate::commandbuffer::{
    AccessScope, Command, CommandBuilder, ImageBarrier, LayoutKind, StageScope,
};
use crate::error::Error;
use crate::ops::AddToCommandBuffer;
use vstd::prelude::*;

verus! {

/// Copies an image into a buffer.
pub struct CopyImage2Buffer {
    pub image: usize,
    pub buffer: usize,
    pub aspect_mask: u32,
    pub width: u32,
    pub height: u32,
    pub depth: u32,
}

impl CopyImage2Buffer {
    /// Copy the image named `image`, whose extent is `width` by `height`
    /// by `depth`, into `buffer`, reading the aspects of `aspect_mask`.
    pub fn new(image: usize, buffer: usize, aspect_mask: u32, width: u32, height: u32, depth: u32)
        -> (r: CopyImage2Buffer)
        ensures
            r == (CopyImage2Buffer { image, buffer, aspect_mask, width, height, depth }),
    {
        CopyImage2Buffer { image, buffer, aspect_mask, width, height, depth }
    }
}

impl AddToCommandBuffer for CopyImage2Buffer {
    open spec fn spec_commands(&self, queue_family_index: u32) -> Seq<Command> {
        seq![
            Command::ImageMemoryBarrier(
                ImageBarrier {
                    image: self.image,
                    old_layout: LayoutKind::Undefined,
                    new_layout: LayoutKind::General,
                    src_stage: StageScope::NoStage,
                    src_access: AccessScope::NoAccess,
                    dst_stage: StageScope::Copy,
                    dst_access: AccessScope::NoAccess,
                    src_queue_family: None,
                    dst_queue_family: None,
                },
            ),
            Command::CopyImageToBuffer {
                image: self.image,
                layout: LayoutKind::General,
                buffer: self.buffer,
                width: self.width,
                height: self.height,
                depth: self.depth,
                aspect_mask: self.aspect_mask,
            },
            Command::ImageMemoryBarrier(
                ImageBarrier {
                    image: self.image,
                    old_layout: LayoutKind::General,
                    new_layout: LayoutKind::General,
                    src_stage: StageScope::Copy,
                    src_access: AccessScope::NoAccess,
                    dst_stage: StageScope::BottomOfPipe,
                    dst_access: AccessScope::NoAccess,
                    src_queue_family: None,
                    dst_queue_family: None,
                },
            ),
        ]
    }

    fn run_in(&self, builder: &mut CommandBuilder) -> (r: Result<(), Error>) {
        let ghost qfi = builder.spec_queue_family_index();
        builder.push(
            Command::ImageMemoryBarrier(
                ImageBarrier {
                    image: self.image,
                    old_layout: LayoutKind::Undefined,
                    new_layout: LayoutKind::General,
                    src_stage: StageScope::NoStage,
                    src_access: AccessScope::NoAccess,
                    dst_stage: StageScope::Copy,
                    dst_access: AccessScope::NoAccess,
                    src_queue_family: None,
                    dst_queue_family: None,
                },
            ),
        );
        builder.push(
            Command::CopyImageToBuffer {
                image: self.image,
                layout: LayoutKind::General,
                buffer: self.buffer,
                width: self.width,
                height: self.height,
                depth: self.depth,
                aspect_mask: self.aspect_mask,
            },
        );
        builder.push(
            Command::ImageMemoryBarrier(
                ImageBarrier {
                    image: self.image,
                    old_layout: LayoutKind::General,
                    new_layout: LayoutKind::General,
                    src_stage: StageScope::Copy,
                    src_access: AccessScope::NoAccess,
                    dst_stage: StageScope::BottomOfPipe,
                    dst_access: AccessScope::NoAccess,
                    src_queue_family: None,
                    dst_queue_family: None,
                },
            ),
        );
        proof {
            assert(builder.spec_commands() =~= old(builder).spec_commands() + self.spec_commands(
                qfi,
            ));
        }
        Ok(())
    }
}

} // verus!
