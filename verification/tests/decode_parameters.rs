//! The decode-parameter builder: driver-shaped structures, flag words and
//! masks derived from parsed parameter sets.
use vulkan_video::video::h264::parameters::{
    build_hrd_parameters, build_scaling_lists, build_sps, build_vui,
};
use vulkan_video::video::h264::record::{
    CpbSpec, HrdParameters, OverscanAppropriate, ScalingList, VuiParameters,
};
use vulkan_video::video::h264::H264StreamInspector;

const SPS_NAL: [u8; 26] = [
    103, 100, 0, 31, 172, 217, 64, 128, 16, 108, 5, 184, 8, 8, 10, 0, 0, 3, 0, 2, 0, 0, 3, 0, 101,
    8,
];
const PPS_NAL: [u8; 4] = [104, 238, 6, 242];

#[test]
fn create_info_renders_the_whole_context() {
    let mut inspector = H264StreamInspector::new();
    inspector.feed_nal(&SPS_NAL).unwrap();
    inspector.feed_nal(&PPS_NAL).unwrap();

    let info = inspector.session_parameters_create_info();
    assert_eq!(info.max_std_sps_count, 32);
    assert_eq!(info.max_std_pps_count, 256);
    assert_eq!(info.parameters_add_info.std_sps.len(), 1);
    assert_eq!(info.parameters_add_info.std_pps.len(), 1);

    let sps = &info.parameters_add_info.std_sps[0];
    assert_eq!(sps.profile_idc, 100);
    assert_eq!(sps.level_idc, 31);
    assert_eq!(sps.chroma_format_idc, 1);
    assert_eq!(sps.seq_parameter_set_id, 0);
    assert_eq!(sps.pic_order_cnt_type, 0);
    assert_eq!(sps.log2_max_pic_order_cnt_lsb_minus4, 2);
    assert_eq!(sps.max_num_ref_frames, 4);
    assert_eq!(sps.pic_width_in_mbs_minus1, 31);
    assert_eq!(sps.pic_height_in_map_units_minus1, 31);
    // Flag word: direct-8x8-inference (bit 6), frame-MBs-only (bit 8) and
    // VUI present (bit 15) are set, nothing else.
    assert_eq!(sps.flags, (1 << 6) | (1 << 8) | (1 << 15));

    let vui = sps.vui.as_ref().expect("vui rendered");
    // Flag word: aspect-ratio present (bit 0), video-signal-type present
    // (3), full range (4), colour description (5), timing (7), fixed frame
    // rate (8).
    assert_eq!(
        vui.flags,
        (1 << 0) | (1 << 3) | (1 << 4) | (1 << 5) | (1 << 7) | (1 << 8)
    );
    assert_eq!(vui.aspect_ratio_idc, 1);
    assert_eq!((vui.sar_width, vui.sar_height), (1, 1));
    assert_eq!(vui.video_format, 5);
    assert_eq!(
        (vui.colour_primaries, vui.transfer_characteristics, vui.matrix_coefficients),
        (1, 1, 1)
    );
    assert_eq!((vui.num_units_in_tick, vui.time_scale), (1, 50));
    assert!(vui.hrd_parameters.is_none());

    let pps = &info.parameters_add_info.std_pps[0];
    assert_eq!(pps.seq_parameter_set_id, 0);
    assert_eq!(pps.pic_parameter_set_id, 0);
    assert_eq!(pps.pic_init_qp_minus26, -6);
    assert_eq!(pps.weighted_bipred_idc, 0);
    // Flag word: deblocking-filter control present (bit 3) and entropy
    // coding mode (bit 6) are set, nothing else.
    assert_eq!(pps.flags, (1 << 3) | (1 << 6));
    assert!(pps.scaling_lists.is_none());
}

#[test]
fn hrd_tables_fill_the_used_prefix() {
    let hrd = HrdParameters {
        bit_rate_scale: 3,
        cpb_size_scale: 4,
        cpb_specs: vec![
            CpbSpec { bit_rate_value_minus1: 100, cpb_size_value_minus1: 200, cbr_flag: true },
            CpbSpec { bit_rate_value_minus1: 101, cpb_size_value_minus1: 201, cbr_flag: false },
        ],
        initial_cpb_removal_delay_length_minus1: 23,
        cpb_removal_delay_length_minus1: 15,
        dpb_output_delay_length_minus1: 5,
        time_offset_length: 24,
    };
    let std = build_hrd_parameters(&hrd);
    assert_eq!(std.cpb_cnt_minus1, 1);
    assert_eq!(std.bit_rate_scale, 3);
    assert_eq!(std.cpb_size_scale, 4);
    assert_eq!(std.bit_rate_value_minus1.len(), 32);
    assert_eq!(std.bit_rate_value_minus1[0], 100);
    assert_eq!(std.bit_rate_value_minus1[1], 101);
    assert_eq!(std.bit_rate_value_minus1[2], 0);
    assert_eq!(std.cpb_size_value_minus1[0], 200);
    assert_eq!(std.cpb_size_value_minus1[1], 201);
    assert_eq!(std.cbr_flag[0], 1);
    assert_eq!(std.cbr_flag[1], 0);
    assert_eq!(std.cbr_flag[31], 0);
    assert_eq!(std.initial_cpb_removal_delay_length_minus1, 23);
    assert_eq!(std.cpb_removal_delay_length_minus1, 15);
    assert_eq!(std.dpb_output_delay_length_minus1, 5);
    assert_eq!(std.time_offset_length, 24);
}

#[test]
fn scaling_masks_and_tables() {
    let weights: Vec<u8> = (1..=16).collect();
    let l4 = vec![
        ScalingList::NotPresent,
        ScalingList::UseDefault,
        ScalingList::List(weights.clone()),
        ScalingList::NotPresent,
        ScalingList::NotPresent,
        ScalingList::NotPresent,
    ];
    let l8 = vec![ScalingList::UseDefault, ScalingList::NotPresent];
    let std = build_scaling_lists(&l4, &l8);
    // Lists 1 and 2 of the 4x4 bank were coded, and list 0 of the 8x8 bank
    // (bit 6).
    assert_eq!(std.scaling_list_present_mask, 0b0000_0100_0110);
    // Lists 1 (4x4) and 0 (8x8) select the default matrix.
    assert_eq!(std.use_default_scaling_matrix_mask, 0b0000_0100_0010);
    assert_eq!(std.scaling_list_4x4.len(), 6);
    assert_eq!(std.scaling_list_8x8.len(), 6);
    assert_eq!(std.scaling_list_4x4[2], weights);
    assert_eq!(std.scaling_list_4x4[0], vec![0; 16]);
    assert_eq!(std.scaling_list_8x8[0], vec![0; 64]);
}

#[test]
fn constraint_flags_pack_low_bits_of_the_sps_flag_word() {
    let mut inspector = H264StreamInspector::new();
    // Same parameter set, but constraint_set1 and constraint_set3 set:
    // the constraint byte of the bitstream carries flag 0 in its most
    // significant bit.
    let mut nal = SPS_NAL;
    nal[2] = 0b0101_0000;
    inspector.feed_nal(&nal).unwrap();
    let sps = inspector.context().sps_by_id(0).unwrap();
    assert!(!sps.constraint_flag(0));
    assert!(sps.constraint_flag(1));
    assert!(!sps.constraint_flag(2));
    assert!(sps.constraint_flag(3));
    let std = build_sps(sps);
    assert_eq!(std.flags & 0x3F, (1 << 1) | (1 << 3));
}

#[test]
fn vui_defaults_follow_the_standard_when_clauses_are_absent() {
    let vui = VuiParameters {
        aspect_ratio_info: None,
        overscan_appropriate: OverscanAppropriate::Unspecified,
        video_signal_type: None,
        chroma_loc_info: None,
        timing_info: None,
        nal_hrd_parameters: None,
        vcl_hrd_parameters: None,
        low_delay_hrd_flag: None,
        pic_struct_present_flag: false,
        bitstream_restrictions: None,
    };
    let std = build_vui(&vui);
    assert_eq!(std.flags, 0);
    // Inferred defaults: video format 5 (unspecified), colour description
    // 2 (unspecified), sample aspect ratio 1:1.
    assert_eq!(std.video_format, 5);
    assert_eq!(
        (std.colour_primaries, std.transfer_characteristics, std.matrix_coefficients),
        (2, 2, 2)
    );
    assert_eq!((std.sar_width, std.sar_height), (1, 1));
    assert_eq!(std.aspect_ratio_idc, 0);
    assert!(std.hrd_parameters.is_none());
}
