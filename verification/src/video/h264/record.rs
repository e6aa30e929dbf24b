//! Codec-neutral records for H.264 sequence and picture parameter sets, as
//! the parameter-set parser produces them and the decode-parameter builder
//! consumes them.
use vstd::prelude::*;

verus! {

/// The sample aspect ratio that an `aspect_ratio_idc` value stands for,
/// per the fixed table of the H.264 standard; `None` for unspecified or
/// reserved values. Extended ratios (idc 255) carry their own pair.
pub open spec fn spec_sar_for_idc(idc: u8) -> Option<(u16, u16)> {
    match idc {
        1u8 => Some((1u16, 1u16)),
        2u8 => Some((12u16, 11u16)),
        3u8 => Some((10u16, 11u16)),
        4u8 => Some((16u16, 11u16)),
        5u8 => Some((40u16, 33u16)),
        6u8 => Some((24u16, 11u16)),
        7u8 => Some((20u16, 11u16)),
        8u8 => Some((32u16, 11u16)),
        9u8 => Some((80u16, 33u16)),
        10u8 => Some((18u16, 11u16)),
        11u8 => Some((15u16, 11u16)),
        12u8 => Some((64u16, 33u16)),
        13u8 => Some((160u16, 99u16)),
        14u8 => Some((4u16, 3u16)),
        15u8 => Some((3u16, 2u16)),
        16u8 => Some((2u16, 1u16)),
        _ => None,
    }
}

/// Aspect-ratio information from the VUI: the raw `aspect_ratio_idc` and,
/// for the extended value 255, the explicit sample-aspect-ratio pair.
#[derive(Debug, Clone, Copy, PartialEq, Eq, Structural)]
pub struct AspectRatioInfo {
    pub aspect_ratio_idc: u8,
    pub extended_sar_width: u16,
    pub extended_sar_height: u16,
}

impl AspectRatioInfo {
    /// The aspect ratio as `(width, height)`, if specified: the table entry
    /// for known values, the explicit pair (when non-zero) for the extended
    /// value.
    pub open spec fn spec_sar(&self) -> Option<(u16, u16)> {
        if self.aspect_ratio_idc == 255u8 {
            if self.extended_sar_width == 0 || self.extended_sar_height == 0 {
                None
            } else {
                Some((self.extended_sar_width, self.extended_sar_height))
            }
        } else {
            spec_sar_for_idc(self.aspect_ratio_idc)
        }
    }

    /// The aspect ratio as `(width, height)`, if specified.
    pub fn sar(&self) -> (r: Option<(u16, u16)>)
        ensures
            r == self.spec_sar(),
    {
        if self.aspect_ratio_idc == 255u8 {
            if self.extended_sar_width == 0 || self.extended_sar_height == 0 {
                None
            } else {
                Some((self.extended_sar_width, self.extended_sar_height))
            }
        } else {
            match self.aspect_ratio_idc {
                1u8 => Some((1u16, 1u16)),
                2u8 => Some((12u16, 11u16)),
                3u8 => Some((10u16, 11u16)),
                4u8 => Some((16u16, 11u16)),
                5u8 => Some((40u16, 33u16)),
                6u8 => Some((24u16, 11u16)),
                7u8 => Some((20u16, 11u16)),
                8u8 => Some((32u16, 11u16)),
                9u8 => Some((80u16, 33u16)),
                10u8 => Some((18u16, 11u16)),
                11u8 => Some((15u16, 11u16)),
                12u8 => Some((64u16, 33u16)),
                13u8 => Some((160u16, 99u16)),
                14u8 => Some((4u16, 3u16)),
                15u8 => Some((3u16, 2u16)),
                16u8 => Some((2u16, 1u16)),
                _ => None,
            }
        }
    }
}

/// Whether the picture is suitable for display on overscan equipment, from
/// the VUI `overscan_info_present` / `overscan_appropriate` flags.
#[derive(Debug, Clone, Copy, PartialEq, Eq, Structural)]
pub enum OverscanAppropriate {
    Unspecified,
    Appropriate,
    Inappropriate,
}

/// Colour-space description from the VUI video-signal-type clause.
#[derive(Debug, Clone, Copy, PartialEq, Eq, Structural)]
pub struct ColourDescription {
    pub colour_primaries: u8,
    pub transfer_characteristics: u8,
    pub matrix_coefficients: u8,
}

/// Video-signal-type information from the VUI. The video format is kept as
/// the raw three-bit value of the bitstream.
#[derive(Debug, Clone, Copy, PartialEq, Eq, Structural)]
pub struct VideoSignalType {
    pub video_format: u8,
    pub video_full_range_flag: bool,
    pub colour_description: Option<ColourDescription>,
}

impl VideoSignalType {
    /// The field values lie in the ranges the grammar gives them.
    pub open spec fn wf(&self) -> bool {
        self.video_format <= 7
    }
}

/// Chroma sample location from the VUI.
#[derive(Debug, Clone, Copy, PartialEq, Eq, Structural)]
pub struct ChromaLocInfo {
    pub chroma_sample_loc_type_top_field: u32,
    pub chroma_sample_loc_type_bottom_field: u32,
}

/// Frame timing information from the VUI.
#[derive(Debug, Clone, Copy, PartialEq, Eq, Structural)]
pub struct TimingInfo {
    pub num_units_in_tick: u32,
    pub time_scale: u32,
    pub fixed_frame_rate_flag: bool,
}

/// One coded-picture-buffer specification of the HRD parameters.
#[derive(Debug, Clone, Copy, PartialEq, Eq, Structural)]
pub struct CpbSpec {
    pub bit_rate_value_minus1: u32,
    pub cpb_size_value_minus1: u32,
    pub cbr_flag: bool,
}

/// Hypothetical-reference-decoder parameters from the VUI.
#[derive(Debug, Clone, PartialEq, Eq)]
pub struct HrdParameters {
    pub bit_rate_scale: u8,
    pub cpb_size_scale: u8,
    pub cpb_specs: Vec<CpbSpec>,
    pub initial_cpb_removal_delay_length_minus1: u8,
    pub cpb_removal_delay_length_minus1: u8,
    pub dpb_output_delay_length_minus1: u8,
    pub time_offset_length: u8,
}

impl HrdParameters {
    /// The field values lie in the ranges the grammar gives them.
    pub open spec fn wf(&self) -> bool {
        &&& 1 <= self.cpb_specs@.len() <= 32
        &&& self.bit_rate_scale <= 15
        &&& self.cpb_size_scale <= 15
        &&& self.initial_cpb_removal_delay_length_minus1 <= 31
        &&& self.cpb_removal_delay_length_minus1 <= 31
        &&& self.dpb_output_delay_length_minus1 <= 31
        &&& self.time_offset_length <= 31
    }
}

/// Bitstream-restriction fields from the VUI.
#[derive(Debug, Clone, Copy, PartialEq, Eq, Structural)]
pub struct BitstreamRestrictions {
    pub motion_vectors_over_pic_boundaries_flag: bool,
    pub max_bytes_per_pic_denom: u32,
    pub max_bits_per_mb_denom: u32,
    pub log2_max_mv_length_horizontal: u32,
    pub log2_max_mv_length_vertical: u32,
    pub max_num_reorder_frames: u32,
    pub max_dec_frame_buffering: u32,
}

/// Video usability information: the optional SPS extension carrying
/// display and timing hints.
#[derive(Debug, Clone, PartialEq, Eq)]
pub struct VuiParameters {
    pub aspect_ratio_info: Option<AspectRatioInfo>,
    pub overscan_appropriate: OverscanAppropriate,
    pub video_signal_type: Option<VideoSignalType>,
    pub chroma_loc_info: Option<ChromaLocInfo>,
    pub timing_info: Option<TimingInfo>,
    pub nal_hrd_parameters: Option<HrdParameters>,
    pub vcl_hrd_parameters: Option<HrdParameters>,
    pub low_delay_hrd_flag: Option<bool>,
    pub pic_struct_present_flag: bool,
    pub bitstream_restrictions: Option<BitstreamRestrictions>,
}

impl VuiParameters {
    /// The field values lie in the ranges the grammar gives them.
    pub open spec fn wf(&self) -> bool {
        &&& match self.video_signal_type {
            Some(v) => v.wf(),
            None => true,
        }
        &&& match self.nal_hrd_parameters {
            Some(ref h) => h.wf(),
            None => true,
        }
        &&& match self.vcl_hrd_parameters {
            Some(ref h) => h.wf(),
            None => true,
        }
    }
}

/// One scaling list of a scaling matrix: absent (fall back to earlier
/// lists), the standard's default list, or an explicit list of weights.
#[derive(Debug, Clone, PartialEq, Eq)]
pub enum ScalingList {
    NotPresent,
    UseDefault,
    List(Vec<u8>),
}

impl ScalingList {
    /// An explicit list carries exactly `size` weights.
    pub open spec fn wf(&self, size: int) -> bool {
        match self {
            ScalingList::List(l) => l@.len() == size,
            _ => true,
        }
    }
}

/// Every scaling list of `lists` is well formed for `size` weights.
pub open spec fn scaling_lists_wf(lists: Seq<ScalingList>, size: int) -> bool {
    forall|i: int| 0 <= i < lists.len() ==> (#[trigger] lists[i]).wf(size)
}

/// The scaling matrix of an SPS: six 4x4 lists and up to six 8x8 lists.
#[derive(Debug, Clone, PartialEq, Eq)]
pub struct SeqScalingMatrix {
    pub scaling_list4x4: Vec<ScalingList>,
    pub scaling_list8x8: Vec<ScalingList>,
}

impl SeqScalingMatrix {
    /// The list counts and sizes the grammar gives them.
    pub open spec fn wf(&self) -> bool {
        &&& self.scaling_list4x4@.len() == 6
        &&& self.scaling_list8x8@.len() <= 6
        &&& scaling_lists_wf(self.scaling_list4x4@, 16)
        &&& scaling_lists_wf(self.scaling_list8x8@, 64)
    }
}

/// The scaling matrix of a PPS: six 4x4 lists and, when the 8x8 transform
/// is enabled, two or six 8x8 lists.
#[derive(Debug, Clone, PartialEq, Eq)]
pub struct PicScalingMatrix {
    pub scaling_list4x4: Vec<ScalingList>,
    pub scaling_list8x8: Option<Vec<ScalingList>>,
}

impl PicScalingMatrix {
    /// The list counts and sizes the grammar gives them.
    pub open spec fn wf(&self) -> bool {
        &&& self.scaling_list4x4@.len() == 6
        &&& scaling_lists_wf(self.scaling_list4x4@, 16)
        &&& match self.scaling_list8x8 {
            Some(ref l) => 1 <= l@.len() <= 6 && scaling_lists_wf(l@, 64),
            None => true,
        }
    }
}

/// Chroma sampling information of an SPS.
#[derive(Debug, Clone, PartialEq, Eq)]
pub struct ChromaInfo {
    /// The raw `chroma_format_idc` (0 monochrome, 1 4:2:0, 2 4:2:2,
    /// 3 4:4:4); defaults to 1 for profiles without a chroma clause.
    pub chroma_format_idc: u32,
    pub separate_colour_plane_flag: bool,
    pub bit_depth_luma_minus8: u8,
    pub bit_depth_chroma_minus8: u8,
    pub qpprime_y_zero_transform_bypass_flag: bool,
    pub scaling_matrix: Option<SeqScalingMatrix>,
}

impl ChromaInfo {
    /// The field values lie in the ranges the grammar gives them.
    pub open spec fn wf(&self) -> bool {
        &&& self.bit_depth_luma_minus8 <= 6
        &&& self.bit_depth_chroma_minus8 <= 6
        &&& match self.scaling_matrix {
            Some(ref m) => m.wf(),
            None => true,
        }
    }
}

/// The picture-order-count clause of an SPS.
#[derive(Debug, Clone, PartialEq, Eq)]
pub enum PicOrderCntType {
    TypeZero { log2_max_pic_order_cnt_lsb_minus4: u8 },
    TypeOne {
        delta_pic_order_always_zero_flag: bool,
        offset_for_non_ref_pic: i32,
        offset_for_top_to_bottom_field: i32,
        offsets_for_ref_frame: Vec<i32>,
    },
    TypeTwo,
}

impl PicOrderCntType {
    /// The field values lie in the ranges the grammar gives them.
    pub open spec fn wf(&self) -> bool {
        match self {
            PicOrderCntType::TypeZero { log2_max_pic_order_cnt_lsb_minus4 } => {
                log2_max_pic_order_cnt_lsb_minus4 <= 12
            },
            PicOrderCntType::TypeOne { offsets_for_ref_frame, .. } => {
                offsets_for_ref_frame@.len() <= 255
            },
            PicOrderCntType::TypeTwo => true,
        }
    }
}

/// Whether the stream codes frames only, or fields.
#[derive(Debug, Clone, Copy, PartialEq, Eq, Structural)]
pub enum FrameMbsFlags {
    Frames,
    Fields { mb_adaptive_frame_field_flag: bool },
}

/// Frame cropping offsets of an SPS.
#[derive(Debug, Clone, Copy, PartialEq, Eq, Structural)]
pub struct FrameCropping {
    pub left_offset: u32,
    pub right_offset: u32,
    pub top_offset: u32,
    pub bottom_offset: u32,
}

/// A parsed sequence parameter set.
#[derive(Debug, Clone, PartialEq, Eq)]
pub struct SeqParameterSet {
    pub profile_idc: u8,
    /// The `constraint_setN_flag` bits and the two reserved bits, as the
    /// raw byte of the bitstream (constraint_set0 in the most significant
    /// bit).
    pub constraint_flags: u8,
    pub level_idc: u8,
    pub seq_parameter_set_id: u8,
    pub chroma_info: ChromaInfo,
    pub log2_max_frame_num_minus4: u8,
    pub pic_order_cnt: PicOrderCntType,
    pub max_num_ref_frames: u32,
    pub gaps_in_frame_num_value_allowed_flag: bool,
    pub pic_width_in_mbs_minus1: u32,
    pub pic_height_in_map_units_minus1: u32,
    pub frame_mbs_flags: FrameMbsFlags,
    pub direct_8x8_inference_flag: bool,
    pub frame_cropping: Option<FrameCropping>,
    pub vui_parameters: Option<VuiParameters>,
}

impl SeqParameterSet {
    /// The field values lie in the ranges the grammar gives them.
    pub open spec fn wf(&self) -> bool {
        &&& self.seq_parameter_set_id <= 31
        &&& self.log2_max_frame_num_minus4 <= 12
        &&& self.pic_width_in_mbs_minus1 <= 0xFFFF_FFFE
        &&& self.pic_height_in_map_units_minus1 <= 0xFFFF_FFFE
        &&& self.chroma_info.wf()
        &&& self.pic_order_cnt.wf()
        &&& match self.vui_parameters {
            Some(ref v) => v.wf(),
            None => true,
        }
    }

    /// The id this parameter set is stored under.
    pub fn id(&self) -> (r: u8)
        ensures
            r == self.seq_parameter_set_id,
    {
        self.seq_parameter_set_id
    }

    /// The `constraint_setN_flag` bit, for `n` between 0 and 5.
    pub open spec fn spec_constraint_flag(&self, n: u8) -> bool {
        (self.constraint_flags >> ((7 - n) as u8)) & 1u8 == 1u8
    }

    /// The `constraint_setN_flag` bit, for `n` between 0 and 5.
    pub fn constraint_flag(&self, n: u8) -> (r: bool)
        requires
            n <= 5,
        ensures
            r == self.spec_constraint_flag(n),
    {
        (self.constraint_flags >> (7 - n)) & 1u8 == 1u8
    }
}

/// The extension fields of a PPS, present when more data follows the
/// redundant-picture-count flag.
#[derive(Debug, Clone, PartialEq, Eq)]
pub struct PicParameterSetExtra {
    pub transform_8x8_mode_flag: bool,
    pub pic_scaling_matrix: Option<PicScalingMatrix>,
    pub second_chroma_qp_index_offset: i32,
}

impl PicParameterSetExtra {
    /// The field values lie in the ranges the grammar gives them.
    pub open spec fn wf(&self) -> bool {
        &&& -12 <= self.second_chroma_qp_index_offset <= 12
        &&& match self.pic_scaling_matrix {
            Some(ref m) => m.wf(),
            None => true,
        }
    }
}

/// A rectangle of slice-group map type 2.
#[derive(Debug, Clone, Copy, PartialEq, Eq, Structural)]
pub struct SliceRect {
    pub top_left: u32,
    pub bottom_right: u32,
}

/// How slice-group changes grow over pictures, for map types 3 to 5.
#[derive(Debug, Clone, Copy, PartialEq, Eq, Structural)]
pub enum SliceGroupChangeType {
    BoxOut,
    RasterScan,
    WipeOut,
}

/// The slice-group map of a PPS with more than one slice group.
#[derive(Debug, Clone, PartialEq, Eq)]
pub enum SliceGroup {
    Interleaved { run_length_minus1: Vec<u32> },
    Dispersed { num_slice_groups_minus1: u32 },
    ForegroundAndLeftover { rectangles: Vec<SliceRect> },
    Changing {
        change_type: SliceGroupChangeType,
        num_slice_groups_minus1: u32,
        slice_group_change_direction_flag: bool,
        slice_group_change_rate_minus1: u32,
    },
    ExplicitAssignment { num_slice_groups_minus1: u32, slice_group_id: Vec<u32> },
}

/// A parsed picture parameter set.
#[derive(Debug, Clone, PartialEq, Eq)]
pub struct PicParameterSet {
    pub pic_parameter_set_id: u8,
    pub seq_parameter_set_id: u8,
    pub entropy_coding_mode_flag: bool,
    pub bottom_field_pic_order_in_frame_present_flag: bool,
    pub slice_groups: Option<SliceGroup>,
    pub num_ref_idx_l0_default_active_minus1: u32,
    pub num_ref_idx_l1_default_active_minus1: u32,
    pub weighted_pred_flag: bool,
    pub weighted_bipred_idc: u8,
    pub pic_init_qp_minus26: i32,
    pub pic_init_qs_minus26: i32,
    pub chroma_qp_index_offset: i32,
    pub deblocking_filter_control_present_flag: bool,
    pub constrained_intra_pred_flag: bool,
    pub redundant_pic_cnt_present_flag: bool,
    pub extension: Option<PicParameterSetExtra>,
}

impl PicParameterSet {
    /// The field values lie in the ranges the grammar gives them.
    pub open spec fn wf(&self) -> bool {
        &&& self.seq_parameter_set_id <= 31
        &&& self.num_ref_idx_l0_default_active_minus1 <= 31
        &&& self.num_ref_idx_l1_default_active_minus1 <= 31
        &&& self.weighted_bipred_idc <= 3
        &&& -62 <= self.pic_init_qp_minus26 <= 25
        &&& -26 <= self.pic_init_qs_minus26 <= 25
        &&& -12 <= self.chroma_qp_index_offset <= 12
        &&& match self.extension {
            Some(ref e) => e.wf(),
            None => true,
        }
    }

    /// The id this parameter set is stored under.
    pub fn id(&self) -> (r: u8)
        ensures
            r == self.pic_parameter_set_id,
    {
        self.pic_parameter_set_id
    }
}

} // verus!
