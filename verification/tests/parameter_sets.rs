//! The parameter-set parser and its running context, held against
//! `h264-reader` on the same bitstreams.
use h264_reader::nal::pps::PicParameterSet as RefPps;
use vulkan_video::video::h264::bits::{BitError, BitReader};
use vulkan_video::video::h264::rbsp::unescape_rbsp;
use vulkan_video::video::h264::sps::SpsError;
use h264_reader::nal::sps::SeqParameterSet as RefSps;
use h264_reader::nal::{Nal, RefNal};
use vulkan_video::video::h264::h264inspector::{FeedError, NalHeaderError};
use vulkan_video::video::h264::parameters::build_pps;
use vulkan_video::video::h264::pps::PpsError;
use vulkan_video::video::h264::record::ScalingList;
use vulkan_video::video::h264::record::{FrameMbsFlags, PicOrderCntType};
use vulkan_video::video::h264::H264StreamInspector;
use vulkan_video::video::nal_units;

/// A high-profile 512x512 sequence parameter set with VUI (aspect ratio,
/// video signal type, timing), with its NAL header byte first.
const SPS_NAL: [u8; 26] = [
    103, 100, 0, 31, 172, 217, 64, 128, 16, 108, 5, 184, 8, 8, 10, 0, 0, 3, 0, 2, 0, 0, 3, 0, 101,
    8,
];

/// A picture parameter set referencing sequence parameter set 0, with its
/// NAL header byte first.
const PPS_NAL: [u8; 4] = [104, 238, 6, 242];

fn annex_b_stream() -> Vec<u8> {
    let mut stream = vec![0, 0, 1];
    stream.extend_from_slice(&SPS_NAL);
    stream.extend_from_slice(&[0, 0, 1]);
    stream.extend_from_slice(&PPS_NAL);
    stream
}

#[test]
fn parse_h264_nals() {
    let h264_data = annex_b_stream();

    let mut inspector = H264StreamInspector::new();
    let mut units = nal_units(&h264_data);
    while let Some(nal) = units.next() {
        inspector.feed_nal(nal).unwrap();
    }

    let sps = inspector.context().sps_by_id(0).expect("sps 0 parsed");
    assert_eq!(sps.level_idc, 31);
    let pps = inspector.context().pps_by_id(0).expect("pps 0 parsed");
    assert_eq!(pps.pic_init_qp_minus26, -6);
}

#[test]
fn inspect_h264_stream() {
    let h264_data = annex_b_stream();

    let mut inspector = H264StreamInspector::new();
    let mut units = nal_units(&h264_data);
    while let Some(nal) = units.next() {
        inspector.feed_nal(nal).unwrap();
    }

    assert!(inspector.context().sps_count() != 0);
    assert!(inspector.context().pps_count() != 0);
}

#[test]
fn sps_fields_match_reference_parser() {
    let reference = RefSps::from_bits(RefNal::new(&SPS_NAL, &[], true).rbsp_bits())
        .expect("reference parser accepts the sequence parameter set");

    let mut inspector = H264StreamInspector::new();
    inspector.feed_nal(&SPS_NAL).unwrap();
    let sps = inspector.context().sps_by_id(0).expect("sps 0 parsed");

    assert_eq!(sps.profile_idc, 100);
    assert_eq!(u8::from(reference.profile_idc), sps.profile_idc);
    assert_eq!(reference.level_idc, sps.level_idc);
    assert_eq!(reference.seq_parameter_set_id.id(), sps.seq_parameter_set_id);
    assert_eq!(
        reference.log2_max_frame_num_minus4,
        sps.log2_max_frame_num_minus4
    );
    assert_eq!(reference.max_num_ref_frames, sps.max_num_ref_frames);
    assert_eq!(reference.pic_width_in_mbs_minus1, sps.pic_width_in_mbs_minus1);
    assert_eq!(
        reference.pic_height_in_map_units_minus1,
        sps.pic_height_in_map_units_minus1
    );
    assert_eq!(reference.pixel_dimensions().unwrap(), (512, 512));
    assert_eq!(sps.frame_mbs_flags, FrameMbsFlags::Frames);
    assert!(sps.direct_8x8_inference_flag);
    assert!(matches!(
        sps.pic_order_cnt,
        PicOrderCntType::TypeZero { log2_max_pic_order_cnt_lsb_minus4: 2 }
    ));

    let vui = sps.vui_parameters.as_ref().expect("vui present");
    let ref_vui = reference.vui_parameters.as_ref().expect("vui present");
    let ari = vui.aspect_ratio_info.expect("aspect ratio present");
    assert_eq!(ari.aspect_ratio_idc, 1);
    assert_eq!(ari.sar(), Some((1, 1)));
    assert_eq!(
        ref_vui.aspect_ratio_info.as_ref().and_then(|a| a.get()),
        ari.sar()
    );
    let vst = vui.video_signal_type.expect("video signal type present");
    assert_eq!(vst.video_format, 5);
    assert!(vst.video_full_range_flag);
    let cd = vst.colour_description.expect("colour description present");
    assert_eq!(
        (cd.colour_primaries, cd.transfer_characteristics, cd.matrix_coefficients),
        (1, 1, 1)
    );
    let timing = vui.timing_info.expect("timing present");
    let ref_timing = ref_vui.timing_info.as_ref().expect("timing present");
    assert_eq!(timing.num_units_in_tick, 1);
    assert_eq!(timing.time_scale, 50);
    assert!(timing.fixed_frame_rate_flag);
    assert_eq!(ref_timing.num_units_in_tick, timing.num_units_in_tick);
    assert_eq!(ref_timing.time_scale, timing.time_scale);
}

#[test]
fn pps_fields_match_reference_parser() {
    let mut ref_ctx = h264_reader::Context::new();
    let ref_sps = RefSps::from_bits(RefNal::new(&SPS_NAL, &[], true).rbsp_bits()).unwrap();
    ref_ctx.put_seq_param_set(ref_sps);
    let reference =
        RefPps::from_bits(&ref_ctx, RefNal::new(&PPS_NAL, &[], true).rbsp_bits())
            .expect("reference parser accepts the picture parameter set");

    let mut inspector = H264StreamInspector::new();
    inspector.feed_nal(&SPS_NAL).unwrap();
    inspector.feed_nal(&PPS_NAL).unwrap();
    let pps = inspector.context().pps_by_id(0).expect("pps 0 parsed");

    assert_eq!(reference.pic_parameter_set_id.id(), pps.pic_parameter_set_id);
    assert_eq!(reference.seq_parameter_set_id.id(), pps.seq_parameter_set_id);
    assert_eq!(reference.entropy_coding_mode_flag, pps.entropy_coding_mode_flag);
    assert_eq!(reference.pic_init_qp_minus26, pps.pic_init_qp_minus26);
    assert_eq!(reference.pic_init_qs_minus26, pps.pic_init_qs_minus26);
    assert_eq!(reference.chroma_qp_index_offset, pps.chroma_qp_index_offset);
    assert_eq!(
        reference.deblocking_filter_control_present_flag,
        pps.deblocking_filter_control_present_flag
    );
    assert_eq!(reference.weighted_pred_flag, pps.weighted_pred_flag);
    assert_eq!(reference.weighted_bipred_idc, pps.weighted_bipred_idc);
    assert!(pps.extension.is_none());
}

#[test]
fn pps_before_sps_fails_with_missing_reference() {
    // A PPS parsed before its referenced SPS exists fails with the
    // missing-reference error and leaves the context unmodified; parsing
    // the SPS first and then the PPS succeeds.
    let mut inspector = H264StreamInspector::new();
    let r = inspector.feed_nal(&PPS_NAL);
    assert!(matches!(
        r,
        Err(FeedError::Pps(PpsError::UnknownSeqParamSetId(0)))
    ));
    assert_eq!(inspector.context().sps_count(), 0);
    assert_eq!(inspector.context().pps_count(), 0);

    inspector.feed_nal(&SPS_NAL).unwrap();
    inspector.feed_nal(&PPS_NAL).unwrap();
    assert_eq!(inspector.context().sps_count(), 1);
    assert_eq!(inspector.context().pps_count(), 1);
}

#[test]
fn malformed_headers_are_rejected_and_ignored_types_accepted() {
    let mut inspector = H264StreamInspector::new();

    // An empty unit has no header byte.
    let r = inspector.feed_nal(&[0, 0, 1]);
    assert!(matches!(r, Err(FeedError::NalHeader(NalHeaderError::Empty))));

    // The forbidden bit must be zero.
    let r = inspector.feed_nal(&[0, 0, 1, 0xE7, 1, 2]);
    assert!(matches!(
        r,
        Err(FeedError::NalHeader(NalHeaderError::ForbiddenZeroBit(0xE7)))
    ));

    // A slice NAL (type 1) is ignored, leaving the context untouched.
    inspector.feed_nal(&[0, 0, 1, 0x41, 9, 9, 9]).unwrap();
    assert_eq!(inspector.context().sps_count(), 0);
    assert_eq!(inspector.context().pps_count(), 0);
}

#[test]
fn truncated_sps_reports_reader_error() {
    let mut inspector = H264StreamInspector::new();
    let r = inspector.feed_nal(&[0, 0, 1, 103, 100, 0]);
    assert!(matches!(
        r,
        Err(FeedError::Sps(SpsError::ReaderError(BitError::EndOfData)))
    ));
    assert_eq!(inspector.context().sps_count(), 0);
}

#[test]
fn bad_sps_id_is_rejected() {
    // profile 66 (no chroma clause), constraint 0, level 10, then an
    // Exp-Golomb id of 32: too large.
    let mut payload = vec![103u8, 66, 0, 10];
    // ue(32) = 000001 00001 -> bits 00000100001, then stop bit and padding.
    payload.extend_from_slice(&[0b0000_0100, 0b0011_0000]);
    let mut inspector = H264StreamInspector::new();
    let r = inspector.feed_nal(&payload);
    assert!(matches!(r, Err(FeedError::Sps(SpsError::BadSeqParamSetId(32)))));
}

#[test]
fn rbsp_unescaping_removes_emulation_prevention() {
    assert_eq!(unescape_rbsp(&[0, 0, 3, 1]), vec![0, 0, 1]);
    assert_eq!(unescape_rbsp(&[0, 0, 3, 0, 0, 3, 2]), vec![0, 0, 0, 0, 2]);
    assert_eq!(unescape_rbsp(&[1, 2, 3, 4]), vec![1, 2, 3, 4]);
    assert_eq!(unescape_rbsp(&[0, 3, 0, 3]), vec![0, 3, 0, 3]);
}

#[test]
fn exp_golomb_codes_decode_exactly() {
    // Bits: ue(0)=1, ue(1)=010, ue(2)=011, ue(6)=00111 -> 1 010 011 00111,
    // padded with zeros to two bytes: 1010 0110 0111 0000.
    let data = [0b1010_0110, 0b0111_0000];
    let mut r = BitReader::new(&data);
    assert_eq!(r.read_ue(), Ok(0));
    assert_eq!(r.read_ue(), Ok(1));
    assert_eq!(r.read_ue(), Ok(2));
    assert_eq!(r.read_ue(), Ok(6));

    // The same unsigned codes read as signed values: 0, 1, -1, -3.
    let mut r = BitReader::new(&data);
    assert_eq!(r.read_se(), Ok(0));
    assert_eq!(r.read_se(), Ok(1));
    assert_eq!(r.read_se(), Ok(-1));
    assert_eq!(r.read_se(), Ok(-3));

    let empty: [u8; 0] = [];
    let mut r = BitReader::new(&empty);
    assert_eq!(r.read_ue(), Err(BitError::EndOfData));

    // 33 leading zero bits: the Exp-Golomb code is too large.
    let data = [0, 0, 0, 0, 0b0111_1111, 0xFF, 0xFF, 0xFF, 0xFF];
    let mut r = BitReader::new(&data);
    assert_eq!(r.read_ue(), Err(BitError::ExpGolombTooLarge));
}

/// A sequence parameter set (id 1) with a scaling matrix: one explicit 4x4
/// list, one defaulted, the rest absent.
const SPS_SCALING_NAL: [u8; 18] = [
    103, 100, 0, 31, 75, 105, 36, 146, 73, 36, 146, 80, 136, 22, 128, 128, 16, 100,
];

/// A picture parameter set (id 1, referencing SPS 1) with the extension
/// clause: 8x8 transform on, a scaling matrix, and a second chroma offset.
const PPS_EXT_NAL: [u8; 8] = [104, 72, 224, 188, 192, 132, 70, 128];

#[test]
fn sps_scaling_matrix_lists_parse() {
    let mut inspector = H264StreamInspector::new();
    inspector.feed_nal(&SPS_SCALING_NAL).unwrap();
    let sps = inspector.context().sps_by_id(1).expect("sps 1 parsed");
    let matrix = sps.chroma_info.scaling_matrix.as_ref().expect("matrix present");
    assert_eq!(matrix.scaling_list4x4.len(), 6);
    assert_eq!(matrix.scaling_list8x8.len(), 2);
    let expected: Vec<u8> = (9..=24).collect();
    assert_eq!(matrix.scaling_list4x4[0], ScalingList::List(expected));
    assert_eq!(matrix.scaling_list4x4[1], ScalingList::UseDefault);
    assert_eq!(matrix.scaling_list4x4[2], ScalingList::NotPresent);
    assert_eq!(matrix.scaling_list8x8[0], ScalingList::NotPresent);

    // The reference parser accepts the same bitstream.
    RefSps::from_bits(RefNal::new(&SPS_SCALING_NAL, &[], true).rbsp_bits())
        .expect("reference parser accepts the scaling matrix");
}

#[test]
fn pps_extension_parses_and_renders() {
    let mut inspector = H264StreamInspector::new();
    inspector.feed_nal(&SPS_SCALING_NAL).unwrap();
    inspector.feed_nal(&PPS_EXT_NAL).unwrap();
    let pps = inspector.context().pps_by_id(1).expect("pps 1 parsed");
    let ext = pps.extension.as_ref().expect("extension present");
    assert!(ext.transform_8x8_mode_flag);
    assert_eq!(ext.second_chroma_qp_index_offset, 3);
    let matrix = ext.pic_scaling_matrix.as_ref().expect("matrix present");
    assert_eq!(matrix.scaling_list4x4.len(), 6);
    assert_eq!(matrix.scaling_list8x8.as_ref().map(|l| l.len()), Some(2));

    let std = build_pps(pps);
    // 8x8 transform mode (bit 0), deblocking control (3), scaling matrix
    // present (7).
    assert_eq!(std.flags, (1 << 0) | (1 << 3) | (1 << 7));
    assert_eq!(std.second_chroma_qp_index_offset, 3);
    // The only coded list is list 0 of the 8x8 bank (bit 6), a default.
    let lists = std.scaling_lists.as_ref().expect("lists rendered");
    assert_eq!(lists.scaling_list_present_mask, 1 << 6);
    assert_eq!(lists.use_default_scaling_matrix_mask, 1 << 6);
}

#[test]
fn pps_with_too_many_slice_groups_is_rejected() {
    let mut inspector = H264StreamInspector::new();
    inspector.feed_nal(&SPS_SCALING_NAL).unwrap();
    let r = inspector.feed_nal(&[104, 104, 21]);
    assert!(matches!(
        r,
        Err(FeedError::Pps(PpsError::InvalidNumSliceGroupsMinus1(9)))
    ));
    assert_eq!(inspector.context().pps_count(), 0);
}

#[test]
fn pps_with_out_of_range_qp_is_rejected() {
    let mut inspector = H264StreamInspector::new();
    inspector.feed_nal(&SPS_SCALING_NAL).unwrap();
    let r = inspector.feed_nal(&[104, 34, 56, 6, 152, 128]);
    assert!(matches!(
        r,
        Err(FeedError::Pps(PpsError::InvalidPicInitQpMinus26(26)))
    ));
    assert_eq!(inspector.context().pps_count(), 0);
}
