//! The command submission protocol and the operation catalog: recorded
//! commands in caller order, protocol states, fill semantics.
use vulkan_video::ops::{
    filled_bytes, AddToCommandBuffer, Compute, CopyBuffer2Buffer, CopyImage2Buffer, DecodeH264,
    DecodeInfo, Dummy, FillBuffer, ShaderParam,
};
use vulkan_video::{
    Command, CommandBuilder, LayoutKind, Operation, Queue, Submission, SubmissionState,
};

#[test]
fn fill_pattern_is_little_endian_per_stride() {
    // A fill with `0x11223344` yields bytes `44 33 22 11` for every 4-byte
    // stride of the buffer.
    let bytes = filled_bytes(12, 0x11223344);
    assert_eq!(
        bytes,
        vec![0x44, 0x33, 0x22, 0x11, 0x44, 0x33, 0x22, 0x11, 0x44, 0x33, 0x22, 0x11]
    );
    assert_eq!(bytes[3], 0x11);
    assert_eq!(bytes[2], 0x22);
    assert_eq!(bytes[1], 0x33);
    assert_eq!(bytes[0], 0x44);
}

#[test]
fn dummy_records_nothing() {
    let mut builder = CommandBuilder::new(0);
    Dummy::new().run_in(&mut builder).unwrap();
    assert!(builder.commands().is_empty());
}

#[test]
fn fill_records_barrier_then_fill() {
    let mut builder = CommandBuilder::new(0);
    FillBuffer::new(7, 1024, 0x11223344).run_in(&mut builder).unwrap();
    let commands = builder.commands();
    assert_eq!(commands.len(), 2);
    match &commands[0] {
        Command::BufferMemoryBarrier(b) => {
            assert_eq!(b.buffer, 7);
            assert_eq!(b.size, 1024);
        },
        other => panic!("expected a buffer barrier, got {:?}", other),
    }
    assert_eq!(
        commands[1],
        Command::FillBuffer { buffer: 7, offset: 0, size: None, value: 0x11223344 }
    );
}

#[test]
fn build_and_submit_concatenates_in_caller_order() {
    // Operations within one submission execute in the exact order they
    // were appended.
    let queue = Queue::new(2, 0);
    let ops = vec![
        Operation::Fill(FillBuffer::new(1, 64, 0x11223344)),
        Operation::CopyBufferToBuffer(CopyBuffer2Buffer::new(1, 2, 64)),
    ];
    let submission = queue.build_and_submit(&ops).unwrap();
    assert_eq!(submission.state(), SubmissionState::Submitted);
    let commands = submission.commands();
    assert_eq!(commands.len(), 3);
    assert!(matches!(commands[0], Command::BufferMemoryBarrier(_)));
    assert!(matches!(commands[1], Command::FillBuffer { buffer: 1, .. }));
    assert_eq!(
        commands[2],
        Command::CopyBuffer { source: 1, destination: 2, size: 64 }
    );
}

#[test]
fn submission_walks_the_protocol_states() {
    let mut submission = Submission::new(0);
    assert_eq!(submission.state(), SubmissionState::Idle);
    submission.begin();
    assert_eq!(submission.state(), SubmissionState::Recording);
    submission
        .record(&Operation::Dummy(Dummy::new()))
        .unwrap();
    submission.submit();
    assert_eq!(submission.state(), SubmissionState::Submitted);
    submission.complete();
    assert_eq!(submission.state(), SubmissionState::Complete);
}

#[test]
fn beginning_again_resets_the_recording() {
    let queue = Queue::new(0, 0);
    let ops = vec![Operation::Fill(FillBuffer::new(1, 64, 5))];
    let mut submission = queue.build_and_submit(&ops).unwrap();
    assert_eq!(submission.commands().len(), 2);
    submission.complete();
    // The next use resets the command buffer: recording starts empty.
    // (A fresh submission goes through Idle again.)
    let mut fresh = Submission::new(0);
    fresh.begin();
    assert!(fresh.commands().is_empty());
}

#[test]
fn decode_records_the_video_coding_sequence_in_order() {
    // Begin, control, decode and end video coding are issued in that fixed
    // order, between the acquire and release barriers of the target image
    // and the source buffer.
    let mut builder = CommandBuilder::new(4);
    let decode = DecodeH264::new(10, 20, 21, 30, 31, 32, 512, 512, &DecodeInfo::new(0, 4096));
    decode.run_in(&mut builder).unwrap();
    let commands = builder.commands();
    assert_eq!(commands.len(), 8);
    assert!(matches!(commands[0], Command::BufferMemoryBarrier(_)));
    match &commands[1] {
        Command::ImageMemoryBarrier(b) => {
            assert_eq!(b.image, 31);
            assert_eq!(b.old_layout, LayoutKind::Undefined);
            assert_eq!(b.new_layout, LayoutKind::VideoDecodeDpb);
        },
        other => panic!("expected an image barrier, got {:?}", other),
    }
    assert_eq!(
        commands[2],
        Command::BeginVideoCoding { session: 20, parameters: 21 }
    );
    assert_eq!(commands[3], Command::ControlVideoCoding { reset: true });
    assert_eq!(
        commands[4],
        Command::DecodeVideo {
            source_buffer: 10,
            offset: 0,
            size: 4096,
            target_view: 30,
            reference_view: 32,
            width: 512,
            height: 512,
        }
    );
    assert_eq!(commands[5], Command::EndVideoCoding);
    assert!(matches!(commands[6], Command::BufferMemoryBarrier(_)));
    match &commands[7] {
        Command::ImageMemoryBarrier(b) => {
            assert_eq!(b.old_layout, LayoutKind::VideoDecodeDpb);
            assert_eq!(b.new_layout, LayoutKind::General);
        },
        other => panic!("expected an image barrier, got {:?}", other),
    }
}

#[test]
fn copy_image_to_buffer_brackets_the_copy_with_barriers() {
    let mut builder = CommandBuilder::new(1);
    CopyImage2Buffer::new(5, 6, 1, 512, 512, 1).run_in(&mut builder).unwrap();
    let commands = builder.commands();
    assert_eq!(commands.len(), 3);
    assert!(matches!(commands[0], Command::ImageMemoryBarrier(_)));
    assert_eq!(
        commands[1],
        Command::CopyImageToBuffer {
            image: 5,
            layout: LayoutKind::General,
            buffer: 6,
            width: 512,
            height: 512,
            depth: 1,
            aspect_mask: 1,
        }
    );
    assert!(matches!(commands[2], Command::ImageMemoryBarrier(_)));
}

#[test]
fn compute_updates_binds_barriers_dispatches_and_releases() {
    let params = vec![
        ShaderParam::Buffer { buffer: 1, size: 1024 },
        ShaderParam::ImageView { view: 8, image: 9 },
    ];
    let compute = Compute::new(3, params, (16, 16, 1));
    let mut builder = CommandBuilder::new(2);
    compute.run_in(&mut builder).unwrap();
    let commands = builder.commands();
    // Two descriptor updates, two bindings, two acquire barriers, the
    // dispatch, and one release barrier (the buffer's only).
    assert_eq!(commands.len(), 8);
    assert_eq!(
        commands[0],
        Command::UpdateDescriptorBuffer { binding: 0, buffer: 1, size: 1024 }
    );
    assert_eq!(
        commands[1],
        Command::UpdateDescriptorImage { binding: 1, view: 8, layout: LayoutKind::General }
    );
    assert_eq!(commands[2], Command::BindComputePipeline { pipeline: 3 });
    assert_eq!(commands[3], Command::BindDescriptorSets);
    match &commands[4] {
        Command::BufferMemoryBarrier(b) => assert_eq!(b.dst_queue_family, Some(2)),
        other => panic!("expected a buffer barrier, got {:?}", other),
    }
    assert!(matches!(commands[5], Command::ImageMemoryBarrier(_)));
    assert_eq!(commands[6], Command::Dispatch { x: 16, y: 16, z: 1 });
    match &commands[7] {
        Command::BufferMemoryBarrier(b) => assert_eq!(b.src_queue_family, Some(2)),
        other => panic!("expected a buffer barrier, got {:?}", other),
    }
}
