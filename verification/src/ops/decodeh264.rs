//! Decoding one H.264 frame: the begin/control/decode/end video-coding
//! commands in their fixed order, with the barriers that move the target
//! image into and back out of the video-decode layout and the source buffer
//! into and out of decode-read visibility.
use crate::commandbuffer::{
    AccessScope, BufferBarrier, Command, CommandBuilder, ImageBarrier, LayoutKind, StageScope,
};
use crate::error::Error;
use crate::ops::AddToCommandBuffer;
use vstd::prelude::*;

verus! {

/// How many source-buffer bytes the decode barriers cover.
pub const DECODE_BARRIER_SIZE: u64 = 4096;

/// Specifies which part of a buffer to decode.
#[derive(Debug, Clone, Copy, PartialEq, Eq, Structural)]
pub struct DecodeInfo {
    pub offset: u64,
    pub size: u64,
}

impl DecodeInfo {
    /// Decode `size` bytes starting at `offset`.
    pub fn new(offset: u64, size: u64) -> (r: DecodeInfo)
        ensures
            r == (DecodeInfo { offset, size }),
    {
        DecodeInfo { offset, size }
    }
}

/// Decodes one H.264 video frame from a buffer into an image view.
pub struct DecodeH264 {
    pub session: usize,
    pub parameters: usize,
    pub buffer: usize,
    pub target_view: usize,
    pub target_image: usize,
    pub reference_view: usize,
    pub width: u32,
    pub height: u32,
    pub decode_info: DecodeInfo,
}

impl DecodeH264 {
    /// Decode from `buffer` (the range of `decode_info`) into
    /// `target_view` of `target_image`, whose coded extent is `width` by
    /// `height`, using the video session `session` with its bound
    /// parameters `parameters` and `reference_view` as the set-up reference
    /// slot.
    pub fn new(
        buffer: usize,
        session: usize,
        parameters: usize,
        target_view: usize,
        target_image: usize,
        reference_view: usize,
        width: u32,
        height: u32,
        decode_info: &DecodeInfo,
    ) -> (r: DecodeH264)
        ensures
            r == (DecodeH264 {
                session,
                parameters,
                buffer,
                target_view,
                target_image,
                reference_view,
                width,
                height,
                decode_info: *decode_info,
            }),
    {
        DecodeH264 {
            session,
            parameters,
            buffer,
            target_view,
            target_image,
            reference_view,
            width,
            height,
            decode_info: *decode_info,
        }
    }
}

impl AddToCommandBuffer for DecodeH264 {
    open spec fn spec_commands(&self, queue_family_index: u32) -> Seq<Command> {
        seq![
            Command::BufferMemoryBarrier(
                BufferBarrier {
                    buffer: self.buffer,
                    offset: 0,
                    size: DECODE_BARRIER_SIZE,
                    src_stage: StageScope::Host,
                    src_access: AccessScope::HostWrite,
                    dst_stage: StageScope::VideoDecode,
                    dst_access: AccessScope::VideoDecodeRead,
                    src_queue_family: None,
                    dst_queue_family: None,
                },
            ),
            Command::ImageMemoryBarrier(
                ImageBarrier {
                    image: self.target_image,
                    old_layout: LayoutKind::Undefined,
                    new_layout: LayoutKind::VideoDecodeDpb,
                    src_stage: StageScope::NoStage,
                    src_access: AccessScope::NoAccess,
                    dst_stage: StageScope::VideoDecode,
                    dst_access: AccessScope::VideoDecodeWrite,
                    src_queue_family: None,
                    dst_queue_family: None,
                },
            ),
            Command::BeginVideoCoding { session: self.session, parameters: self.parameters },
            Command::ControlVideoCoding { reset: true },
            Command::DecodeVideo {
                source_buffer: self.buffer,
                offset: self.decode_info.offset,
                size: self.decode_info.size,
                target_view: self.target_view,
                reference_view: self.reference_view,
                width: self.width,
                height: self.height,
            },
            Command::EndVideoCoding,
            Command::BufferMemoryBarrier(
                BufferBarrier {
                    buffer: self.buffer,
                    offset: 0,
                    size: DECODE_BARRIER_SIZE,
                    src_stage: StageScope::VideoDecode,
                    src_access: AccessScope::VideoDecodeRead,
                    dst_stage: StageScope::TopOfPipe,
                    dst_access: AccessScope::NoAccess,
                    src_queue_family: None,
                    dst_queue_family: None,
                },
            ),
            Command::ImageMemoryBarrier(
                ImageBarrier {
                    image: self.target_image,
                    old_layout: LayoutKind::VideoDecodeDpb,
                    new_layout: LayoutKind::General,
                    src_stage: StageScope::VideoDecode,
                    src_access: AccessScope::VideoDecodeWrite,
                    dst_stage: StageScope::BottomOfPipe,
                    dst_access: AccessScope::NoAccess,
                    src_queue_family: None,
                    dst_queue_family: None,
                },
            ),
        ]
    }

    fn run_in(&self, builder: &mut CommandBuilder) -> (r: Result<(), Error>) {
        let ghost qfi = builder.spec_queue_family_index();
        builder.push(
            Command::BufferMemoryBarrier(
                BufferBarrier {
                    buffer: self.buffer,
                    offset: 0,
                    size: DECODE_BARRIER_SIZE,
                    src_stage: StageScope::Host,
                    src_access: AccessScope::HostWrite,
                    dst_stage: StageScope::VideoDecode,
                    dst_access: AccessScope::VideoDecodeRead,
                    src_queue_family: None,
                    dst_queue_family: None,
                },
            ),
        );
        builder.push(
            Command::ImageMemoryBarrier(
                ImageBarrier {
                    image: self.target_image,
                    old_layout: LayoutKind::Undefined,
                    new_layout: LayoutKind::VideoDecodeDpb,
                    src_stage: StageScope::NoStage,
                    src_access: AccessScope::NoAccess,
                    dst_stage: StageScope::VideoDecode,
                    dst_access: AccessScope::VideoDecodeWrite,
                    src_queue_family: None,
                    dst_queue_family: None,
                },
            ),
        );
        builder.push(
            Command::BeginVideoCoding { session: self.session, parameters: self.parameters },
        );
        builder.push(Command::ControlVideoCoding { reset: true });
        builder.push(
            Command::DecodeVideo {
                source_buffer: self.buffer,
                offset: self.decode_info.offset,
                size: self.decode_info.size,
                target_view: self.target_view,
                reference_view: self.reference_view,
                width: self.width,
                height: self.height,
            },
        );
        builder.push(Command::EndVideoCoding);
        builder.push(
            Command::BufferMemoryBarrier(
                BufferBarrier {
                    buffer: self.buffer,
                    offset: 0,
                    size: DECODE_BARRIER_SIZE,
                    src_stage: StageScope::VideoDecode,
                    src_access: AccessScope::VideoDecodeRead,
                    dst_stage: StageScope::TopOfPipe,
                    dst_access: AccessScope::NoAccess,
                    src_queue_family: None,
                    dst_queue_family: None,
                },
            ),
        );
        builder.push(
            Command::ImageMemoryBarrier(
                ImageBarrier {
                    image: self.target_image,
                    old_layout: LayoutKind::VideoDecodeDpb,
                    new_layout: LayoutKind::General,
                    src_stage: StageScope::VideoDecode,
                    src_access: AccessScope::VideoDecodeWrite,
                    dst_stage: StageScope::BottomOfPipe,
                    dst_access: AccessScope::NoAccess,
                    src_queue_family: None,
                    dst_queue_family: None,
                },
            ),
        );
        proof {
            assert(builder.spec_commands() =~= old(builder).spec_commands() + self.spec_commands(
                qfi,
            ));
        }
        Ok(())
    }
}

} // verus!
