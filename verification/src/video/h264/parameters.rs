//! Derivation of the driver-shaped decode-session parameter structures from
//! the parsed parameter context.
//!
//! The structures here mirror the nested native structures of the Vulkan
//! Video H.264 decode extension field for field, with plain owned values in
//! place of the native raw pointers: the HRD parameters of a VUI, the VUI of
//! a sequence parameter set, and the scaling lists of either parameter set
//! are embedded rather than pointed to, so the pointer-lifetime concern of
//! the native layout does not arise. Each flag word packs the boolean flags
//! of the codec-neutral record at the documented bit positions, constraint
//! flag 0 in the least significant bit, in the exact order of the native
//! bit-field declaration.
use crate::video::h264::h264inspector::H264StreamInspector;
use crate::video::h264::record::{
    HrdParameters, PicParameterSet, ScalingList, SeqParameterSet, VuiParameters,
};
use vstd::prelude::*;

verus! {

/// The one bit of a flag word: bit `n` set when `b` holds.
pub open spec fn spec_flag_bit(b: bool, n: u32) -> u32 {
    if b {
        1u32 << n
    } else {
        0u32
    }
}

/// The one bit of a flag word: bit `n` set when `b` holds.
fn flag_bit(b: bool, n: u32) -> (r: u32)
    requires
        n < 32,
    ensures
        r == spec_flag_bit(b, n),
{
    if b {
        1u32 << n
    } else {
        0u32
    }
}

/// The driver-shaped HRD parameters: fixed 32-entry tables, the used prefix
/// filled from the coded-picture-buffer specifications.
pub struct StdH264HrdParameters {
    pub cpb_cnt_minus1: u8,
    pub bit_rate_scale: u8,
    pub cpb_size_scale: u8,
    pub bit_rate_value_minus1: Vec<u32>,
    pub cpb_size_value_minus1: Vec<u32>,
    pub cbr_flag: Vec<u8>,
    pub initial_cpb_removal_delay_length_minus1: u32,
    pub cpb_removal_delay_length_minus1: u32,
    pub dpb_output_delay_length_minus1: u32,
    pub time_offset_length: u32,
}

/// `std` is exactly the driver-shaped rendering of `hrd`.
pub open spec fn is_std_hrd_of(std: StdH264HrdParameters, hrd: HrdParameters) -> bool {
    let specs = hrd.cpb_specs@;
    &&& std.cpb_cnt_minus1 == specs.len() - 1
    &&& std.bit_rate_scale == hrd.bit_rate_scale
    &&& std.cpb_size_scale == hrd.cpb_size_scale
    &&& std.bit_rate_value_minus1@.len() == 32
    &&& std.cpb_size_value_minus1@.len() == 32
    &&& std.cbr_flag@.len() == 32
    &&& forall|i: int|
        0 <= i < 32 ==> #[trigger] std.bit_rate_value_minus1@[i] == (if i < specs.len() {
            specs[i].bit_rate_value_minus1
        } else {
            0u32
        })
    &&& forall|i: int|
        0 <= i < 32 ==> #[trigger] std.cpb_size_value_minus1@[i] == (if i < specs.len() {
            specs[i].cpb_size_value_minus1
        } else {
            0u32
        })
    &&& forall|i: int|
        0 <= i < 32 ==> #[trigger] std.cbr_flag@[i] == (if i < specs.len() && specs[i].cbr_flag {
            1u8
        } else {
            0u8
        })
    &&& std.initial_cpb_removal_delay_length_minus1
        == hrd.initial_cpb_removal_delay_length_minus1 as u32
    &&& std.cpb_removal_delay_length_minus1 == hrd.cpb_removal_delay_length_minus1 as u32
    &&& std.dpb_output_delay_length_minus1 == hrd.dpb_output_delay_length_minus1 as u32
    &&& std.time_offset_length == hrd.time_offset_length as u32
}

/// Builds the driver-shaped HRD parameters from a parsed HRD record.
pub fn build_hrd_parameters(hrd: &HrdParameters) -> (r: StdH264HrdParameters)
    requires
        hrd.wf(),
    ensures
        is_std_hrd_of(r, *hrd),
{
    let mut bit_rate_value_minus1: Vec<u32> = Vec::new();
    let mut cpb_size_value_minus1: Vec<u32> = Vec::new();
    let mut cbr_flag: Vec<u8> = Vec::new();
    let n = hrd.cpb_specs.len();
    let mut i: usize = 0;
    while i < 32
        invariant
            hrd.wf(),
            n == hrd.cpb_specs@.len(),
            i <= 32,
            bit_rate_value_minus1@.len() == i as int,
            cpb_size_value_minus1@.len() == i as int,
            cbr_flag@.len() == i as int,
            forall|j: int|
                0 <= j < i ==> #[trigger] bit_rate_value_minus1@[j] == (if j < n {
                    hrd.cpb_specs@[j].bit_rate_value_minus1
                } else {
                    0u32
                }),
            forall|j: int|
                0 <= j < i ==> #[trigger] cpb_size_value_minus1@[j] == (if j < n {
                    hrd.cpb_specs@[j].cpb_size_value_minus1
                } else {
                    0u32
                }),
            forall|j: int|
                0 <= j < i ==> #[trigger] cbr_flag@[j] == (if j < n && hrd.cpb_specs@[j].cbr_flag {
                    1u8
                } else {
                    0u8
                }),
        decreases 32 - i,
    {
        if i < n {
            let spec = &hrd.cpb_specs[i];
            bit_rate_value_minus1.push(spec.bit_rate_value_minus1);
            cpb_size_value_minus1.push(spec.cpb_size_value_minus1);
            cbr_flag.push(if spec.cbr_flag {
                1u8
            } else {
                0u8
            });
        } else {
            bit_rate_value_minus1.push(0);
            cpb_size_value_minus1.push(0);
            cbr_flag.push(0);
        }
        i = i + 1;
    }
    StdH264HrdParameters {
        cpb_cnt_minus1: (n - 1) as u8,
        bit_rate_scale: hrd.bit_rate_scale,
        cpb_size_scale: hrd.cpb_size_scale,
        bit_rate_value_minus1,
        cpb_size_value_minus1,
        cbr_flag,
        initial_cpb_removal_delay_length_minus1: hrd.initial_cpb_removal_delay_length_minus1
            as u32,
        cpb_removal_delay_length_minus1: hrd.cpb_removal_delay_length_minus1 as u32,
        dpb_output_delay_length_minus1: hrd.dpb_output_delay_length_minus1 as u32,
        time_offset_length: hrd.time_offset_length as u32,
    }
}

/// The driver-shaped scaling lists of a parameter set: presence and
/// use-default masks (4x4 lists in bits 0 to 5, 8x8 lists in bits 6 to 11)
/// and the explicit weight tables, absent lists left zero.
pub struct StdH264ScalingLists {
    pub scaling_list_present_mask: u16,
    pub use_default_scaling_matrix_mask: u16,
    pub scaling_list_4x4: Vec<Vec<u8>>,
    pub scaling_list_8x8: Vec<Vec<u8>>,
}

/// The bits, at offset `base` upward, for the lists that were coded in the
/// bitstream (explicitly or as the standard's default).
pub open spec fn spec_present_bits(lists: Seq<ScalingList>, base: int) -> u16
    decreases lists.len(),
{
    if lists.len() == 0 {
        0u16
    } else {
        spec_present_bits(lists.drop_last(), base) | (if lists.last() is NotPresent {
            0u16
        } else {
            1u16 << ((base + lists.len() - 1) as u16)
        })
    }
}

/// The bits, at offset `base` upward, for the lists that select the
/// standard's default matrix.
pub open spec fn spec_use_default_bits(lists: Seq<ScalingList>, base: int) -> u16
    decreases lists.len(),
{
    if lists.len() == 0 {
        0u16
    } else {
        spec_use_default_bits(lists.drop_last(), base) | (if lists.last() is UseDefault {
            1u16 << ((base + lists.len() - 1) as u16)
        } else {
            0u16
        })
    }
}

/// The weight at position `j` of list `i`: the coded weight for an explicit
/// list, zero otherwise.
pub open spec fn spec_weight(lists: Seq<ScalingList>, i: int, j: int) -> u8 {
    if 0 <= i < lists.len() {
        match lists[i] {
            ScalingList::List(v) => if 0 <= j < v@.len() {
                v@[j]
            } else {
                0u8
            },
            _ => 0u8,
        }
    } else {
        0u8
    }
}

/// `std` is exactly the driver-shaped rendering of the scaling lists
/// `l4` (the 4x4 lists) and `l8` (the 8x8 lists).
pub open spec fn is_std_scaling_of(
    std: StdH264ScalingLists,
    l4: Seq<ScalingList>,
    l8: Seq<ScalingList>,
) -> bool {
    &&& std.scaling_list_present_mask == spec_present_bits(l4, 0) | spec_present_bits(l8, 6)
    &&& std.use_default_scaling_matrix_mask == spec_use_default_bits(l4, 0)
        | spec_use_default_bits(l8, 6)
    &&& std.scaling_list_4x4@.len() == 6
    &&& std.scaling_list_8x8@.len() == 6
    &&& forall|i: int| 0 <= i < 6 ==> (#[trigger] std.scaling_list_4x4@[i])@.len() == 16
    &&& forall|i: int| 0 <= i < 6 ==> (#[trigger] std.scaling_list_8x8@[i])@.len() == 64
    &&& forall|i: int, j: int|
        0 <= i < 6 && 0 <= j < 16 ==> (#[trigger] std.scaling_list_4x4@[i]@[j]) == spec_weight(
            l4,
            i,
            j,
        )
    &&& forall|i: int, j: int|
        0 <= i < 6 && 0 <= j < 64 ==> (#[trigger] std.scaling_list_8x8@[i]@[j]) == spec_weight(
            l8,
            i,
            j,
        )
}

/// Builds one bank of weight tables: `count` rows of `width` weights.
fn build_weight_tables(lists: &Vec<ScalingList>, count: usize, width: usize) -> (r: Vec<Vec<u8>>)
    requires
        lists@.len() <= count,
        crate::video::h264::record::scaling_lists_wf(lists@, width as int),
    ensures
        r@.len() == count,
        forall|i: int| 0 <= i < count ==> (#[trigger] r@[i])@.len() == width,
        forall|i: int, j: int|
            0 <= i < count && 0 <= j < width ==> (#[trigger] r@[i]@[j]) == spec_weight(
                lists@,
                i,
                j,
            ),
{
    let mut rows: Vec<Vec<u8>> = Vec::new();
    let mut i: usize = 0;
    while i < count
        invariant
            lists@.len() <= count,
            crate::video::h264::record::scaling_lists_wf(lists@, width as int),
            i <= count,
            rows@.len() == i as int,
            forall|k: int| 0 <= k < i ==> (#[trigger] rows@[k])@.len() == width,
            forall|k: int, j: int|
                0 <= k < i && 0 <= j < width ==> (#[trigger] rows@[k]@[j]) == spec_weight(
                    lists@,
                    k,
                    j,
                ),
        decreases count - i,
    {
        let mut row: Vec<u8> = Vec::new();
        if i < lists.len() {
            match &lists[i] {
                ScalingList::List(v) => {
                    let mut j: usize = 0;
                    while j < width
                        invariant
                            v@.len() == width,
                            j <= width,
                            row@.len() == j as int,
                            forall|q: int| 0 <= q < j ==> #[trigger] row@[q] == v@[q],
                        decreases width - j,
                    {
                        row.push(v[j]);
                        j = j + 1;
                    }
                },
                _ => {
                    let mut j: usize = 0;
                    while j < width
                        invariant
                            j <= width,
                            row@.len() == j as int,
                            forall|q: int| 0 <= q < j ==> #[trigger] row@[q] == 0u8,
                        decreases width - j,
                    {
                        row.push(0);
                        j = j + 1;
                    }
                },
            }
        } else {
            let mut j: usize = 0;
            while j < width
                invariant
                    j <= width,
                    row@.len() == j as int,
                    forall|q: int| 0 <= q < j ==> #[trigger] row@[q] == 0u8,
                decreases width - j,
            {
                row.push(0);
                j = j + 1;
            }
        }
        rows.push(row);
        i = i + 1;
    }
    rows
}

/// Builds one presence-and-default mask pair contribution for a bank of
/// scaling lists starting at bit `base`.
fn build_masks(lists: &Vec<ScalingList>, base: u16) -> (r: (u16, u16))
    requires
        lists@.len() <= 6,
        base == 0 || base == 6,
    ensures
        r.0 == spec_present_bits(lists@, base as int),
        r.1 == spec_use_default_bits(lists@, base as int),
{
    let mut present: u16 = 0;
    let mut use_default: u16 = 0;
    let mut i: usize = 0;
    while i < lists.len()
        invariant
            lists@.len() <= 6,
            base == 0 || base == 6,
            i <= lists@.len(),
            present == spec_present_bits(lists@.take(i as int), base as int),
            use_default == spec_use_default_bits(lists@.take(i as int), base as int),
        decreases lists@.len() - i,
    {
        proof {
            assert(lists@.take(i + 1).drop_last() =~= lists@.take(i as int));
            assert(lists@.take(i + 1).last() == lists@[i as int]);
            assert(present | 0u16 == present) by (bit_vector);
            assert(use_default | 0u16 == use_default) by (bit_vector);
        }
        match &lists[i] {
            ScalingList::NotPresent => {},
            ScalingList::UseDefault => {
                present = present | (1u16 << (base + i as u16));
                use_default = use_default | (1u16 << (base + i as u16));
            },
            ScalingList::List(_) => {
                present = present | (1u16 << (base + i as u16));
            },
        }
        i = i + 1;
    }
    proof {
        assert(lists@.take(lists@.len() as int) =~= lists@);
    }
    (present, use_default)
}

/// Builds the driver-shaped scaling lists from the parsed lists of a
/// parameter set.
pub fn build_scaling_lists(l4: &Vec<ScalingList>, l8: &Vec<ScalingList>) -> (r:
    StdH264ScalingLists)
    requires
        l4@.len() <= 6,
        l8@.len() <= 6,
        crate::video::h264::record::scaling_lists_wf(l4@, 16),
        crate::video::h264::record::scaling_lists_wf(l8@, 64),
    ensures
        is_std_scaling_of(r, l4@, l8@),
{
    let m4 = build_masks(l4, 0);
    let m8 = build_masks(l8, 6);
    StdH264ScalingLists {
        scaling_list_present_mask: m4.0 | m8.0,
        use_default_scaling_matrix_mask: m4.1 | m8.1,
        scaling_list_4x4: build_weight_tables(l4, 6, 16),
        scaling_list_8x8: build_weight_tables(l8, 6, 64),
    }
}


/// The flag word of the driver-shaped VUI, one flag per documented bit:
/// aspect-ratio present (bit 0), overscan-info present (1), overscan
/// appropriate (2), video-signal-type present (3), video full range (4),
/// colour-description present (5), chroma-location present (6), timing
/// present (7), fixed frame rate (8), bitstream restrictions present (9),
/// NAL HRD present (10), VCL HRD present (11).
pub open spec fn spec_vui_flags_word(vui: VuiParameters) -> u32 {
    spec_flag_bit(vui.aspect_ratio_info is Some, 0) | spec_flag_bit(
        !(vui.overscan_appropriate is Unspecified),
        1,
    ) | spec_flag_bit(vui.overscan_appropriate is Appropriate, 2) | spec_flag_bit(
        vui.video_signal_type is Some,
        3,
    ) | spec_flag_bit(
        match vui.video_signal_type {
            Some(v) => v.video_full_range_flag,
            None => false,
        },
        4,
    ) | spec_flag_bit(
        match vui.video_signal_type {
            Some(v) => v.colour_description is Some,
            None => false,
        },
        5,
    ) | spec_flag_bit(vui.chroma_loc_info is Some, 6) | spec_flag_bit(
        vui.timing_info is Some,
        7,
    ) | spec_flag_bit(
        match vui.timing_info {
            Some(t) => t.fixed_frame_rate_flag,
            None => false,
        },
        8,
    ) | spec_flag_bit(vui.bitstream_restrictions is Some, 9) | spec_flag_bit(
        vui.nal_hrd_parameters is Some,
        10,
    ) | spec_flag_bit(vui.vcl_hrd_parameters is Some, 11)
}

/// The driver-shaped VUI of a sequence parameter set. The HRD parameters,
/// pointed to in the native layout, are owned here.
pub struct StdH264SequenceParameterSetVui {
    pub flags: u32,
    pub aspect_ratio_idc: u32,
    pub sar_width: u16,
    pub sar_height: u16,
    pub video_format: u8,
    pub colour_primaries: u8,
    pub transfer_characteristics: u8,
    pub matrix_coefficients: u8,
    pub num_units_in_tick: u32,
    pub time_scale: u32,
    pub max_num_reorder_frames: u8,
    pub max_dec_frame_buffering: u8,
    pub chroma_sample_loc_type_top_field: u8,
    pub chroma_sample_loc_type_bottom_field: u8,
    pub hrd_parameters: Option<StdH264HrdParameters>,
}

/// `std` is exactly the driver-shaped rendering of `vui`. The HRD record
/// rendered is the NAL one when present, else the VCL one; display and
/// timing fields fall back to the standard's inferred defaults when their
/// clause is absent: video format 5 (unspecified), colour description 2
/// (unspecified), sample aspect ratio 1:1.
pub open spec fn is_std_vui_of(std: StdH264SequenceParameterSetVui, vui: VuiParameters) -> bool {
    &&& std.flags == spec_vui_flags_word(vui)
    &&& std.aspect_ratio_idc == (match vui.aspect_ratio_info {
        Some(a) => a.aspect_ratio_idc as u32,
        None => 0u32,
    })
    &&& std.sar_width == (match vui.aspect_ratio_info {
        Some(a) => match a.spec_sar() {
            Some(p) => p.0,
            None => 1u16,
        },
        None => 1u16,
    })
    &&& std.sar_height == (match vui.aspect_ratio_info {
        Some(a) => match a.spec_sar() {
            Some(p) => p.1,
            None => 1u16,
        },
        None => 1u16,
    })
    &&& std.video_format == (match vui.video_signal_type {
        Some(v) => v.video_format,
        None => 5u8,
    })
    &&& std.colour_primaries == (match vui.video_signal_type {
        Some(v) => match v.colour_description {
            Some(c) => c.colour_primaries,
            None => 2u8,
        },
        None => 2u8,
    })
    &&& std.transfer_characteristics == (match vui.video_signal_type {
        Some(v) => match v.colour_description {
            Some(c) => c.transfer_characteristics,
            None => 2u8,
        },
        None => 2u8,
    })
    &&& std.matrix_coefficients == (match vui.video_signal_type {
        Some(v) => match v.colour_description {
            Some(c) => c.matrix_coefficients,
            None => 2u8,
        },
        None => 2u8,
    })
    &&& std.num_units_in_tick == (match vui.timing_info {
        Some(t) => t.num_units_in_tick,
        None => 0u32,
    })
    &&& std.time_scale == (match vui.timing_info {
        Some(t) => t.time_scale,
        None => 0u32,
    })
    &&& std.max_num_reorder_frames == (match vui.bitstream_restrictions {
        Some(b) => b.max_num_reorder_frames as u8,
        None => 0u8,
    })
    &&& std.max_dec_frame_buffering == (match vui.bitstream_restrictions {
        Some(b) => b.max_dec_frame_buffering as u8,
        None => 0u8,
    })
    &&& std.chroma_sample_loc_type_top_field == (match vui.chroma_loc_info {
        Some(c) => c.chroma_sample_loc_type_top_field as u8,
        None => 0u8,
    })
    &&& std.chroma_sample_loc_type_bottom_field == (match vui.chroma_loc_info {
        Some(c) => c.chroma_sample_loc_type_bottom_field as u8,
        None => 0u8,
    })
    &&& (match vui.nal_hrd_parameters {
        Some(h) => std.hrd_parameters matches Some(sh) && is_std_hrd_of(sh, h),
        None => match vui.vcl_hrd_parameters {
            Some(h) => std.hrd_parameters matches Some(sh) && is_std_hrd_of(sh, h),
            None => std.hrd_parameters is None,
        },
    })
}

/// Builds the driver-shaped VUI from a parsed VUI record.
pub fn build_vui(vui: &VuiParameters) -> (r: StdH264SequenceParameterSetVui)
    requires
        vui.wf(),
    ensures
        is_std_vui_of(r, *vui),
{
    let flags: u32 = flag_bit(vui.aspect_ratio_info.is_some(), 0) | flag_bit(
        !(matches!(vui.overscan_appropriate, crate::video::h264::record::OverscanAppropriate::Unspecified)),
        1,
    ) | flag_bit(
        matches!(vui.overscan_appropriate, crate::video::h264::record::OverscanAppropriate::Appropriate),
        2,
    ) | flag_bit(vui.video_signal_type.is_some(), 3) | flag_bit(
        match &vui.video_signal_type {
            Some(v) => v.video_full_range_flag,
            None => false,
        },
        4,
    ) | flag_bit(
        match &vui.video_signal_type {
            Some(v) => v.colour_description.is_some(),
            None => false,
        },
        5,
    ) | flag_bit(vui.chroma_loc_info.is_some(), 6) | flag_bit(vui.timing_info.is_some(), 7)
        | flag_bit(
        match &vui.timing_info {
            Some(t) => t.fixed_frame_rate_flag,
            None => false,
        },
        8,
    ) | flag_bit(vui.bitstream_restrictions.is_some(), 9) | flag_bit(
        vui.nal_hrd_parameters.is_some(),
        10,
    ) | flag_bit(vui.vcl_hrd_parameters.is_some(), 11);
    let sar = match &vui.aspect_ratio_info {
        Some(a) => a.sar(),
        None => None,
    };
    let sar_pair = match sar {
        Some(p) => p,
        None => (1u16, 1u16),
    };
    let hrd_parameters = match &vui.nal_hrd_parameters {
        Some(h) => Some(build_hrd_parameters(h)),
        None => match &vui.vcl_hrd_parameters {
            Some(h) => Some(build_hrd_parameters(h)),
            None => None,
        },
    };
    StdH264SequenceParameterSetVui {
        flags,
        aspect_ratio_idc: match &vui.aspect_ratio_info {
            Some(a) => a.aspect_ratio_idc as u32,
            None => 0,
        },
        sar_width: sar_pair.0,
        sar_height: sar_pair.1,
        video_format: match &vui.video_signal_type {
            Some(v) => v.video_format,
            None => 5,
        },
        colour_primaries: match &vui.video_signal_type {
            Some(v) => match &v.colour_description {
                Some(c) => c.colour_primaries,
                None => 2,
            },
            None => 2,
        },
        transfer_characteristics: match &vui.video_signal_type {
            Some(v) => match &v.colour_description {
                Some(c) => c.transfer_characteristics,
                None => 2,
            },
            None => 2,
        },
        matrix_coefficients: match &vui.video_signal_type {
            Some(v) => match &v.colour_description {
                Some(c) => c.matrix_coefficients,
                None => 2,
            },
            None => 2,
        },
        num_units_in_tick: match &vui.timing_info {
            Some(t) => t.num_units_in_tick,
            None => 0,
        },
        time_scale: match &vui.timing_info {
            Some(t) => t.time_scale,
            None => 0,
        },
        max_num_reorder_frames: match &vui.bitstream_restrictions {
            Some(b) => #[verifier::truncate] (b.max_num_reorder_frames as u8),
            None => 0,
        },
        max_dec_frame_buffering: match &vui.bitstream_restrictions {
            Some(b) => #[verifier::truncate] (b.max_dec_frame_buffering as u8),
            None => 0,
        },
        chroma_sample_loc_type_top_field: match &vui.chroma_loc_info {
            Some(c) => #[verifier::truncate] (c.chroma_sample_loc_type_top_field as u8),
            None => 0,
        },
        chroma_sample_loc_type_bottom_field: match &vui.chroma_loc_info {
            Some(c) => #[verifier::truncate] (c.chroma_sample_loc_type_bottom_field as u8),
            None => 0,
        },
        hrd_parameters,
    }
}


/// The flag word of the driver-shaped sequence parameter set, one flag per
/// documented bit: the six constraint flags (bits 0 to 5),
/// direct-8x8-inference (6), MB-adaptive frame/field (7), frame-MBs-only
/// (8), delta-pic-order-always-zero (9), separate colour plane (10), gaps
/// in frame-num allowed (11), QPprime Y zero transform bypass (12), frame
/// cropping (13), scaling matrix present (14), VUI present (15).
pub open spec fn spec_sps_flags_word(sps: SeqParameterSet) -> u32 {
    (spec_flag_bit(sps.spec_constraint_flag(0), 0) | spec_flag_bit(sps.spec_constraint_flag(1), 1)
        | spec_flag_bit(sps.spec_constraint_flag(2), 2) | spec_flag_bit(
        sps.spec_constraint_flag(3),
        3,
    ) | spec_flag_bit(sps.spec_constraint_flag(4), 4) | spec_flag_bit(
        sps.spec_constraint_flag(5),
        5,
    ) | spec_flag_bit(sps.direct_8x8_inference_flag, 6) | spec_flag_bit(
        match sps.frame_mbs_flags {
            crate::video::h264::record::FrameMbsFlags::Fields { mb_adaptive_frame_field_flag } => {
                mb_adaptive_frame_field_flag
            },
            _ => false,
        },
        7,
    )) | (spec_flag_bit(sps.frame_mbs_flags is Frames, 8) | spec_flag_bit(
        match sps.pic_order_cnt {
            crate::video::h264::record::PicOrderCntType::TypeOne {
                delta_pic_order_always_zero_flag,
                ..
            } => delta_pic_order_always_zero_flag,
            _ => false,
        },
        9,
    ) | spec_flag_bit(sps.chroma_info.separate_colour_plane_flag, 10) | spec_flag_bit(
        sps.gaps_in_frame_num_value_allowed_flag,
        11,
    ) | spec_flag_bit(sps.chroma_info.qpprime_y_zero_transform_bypass_flag, 12) | spec_flag_bit(
        sps.frame_cropping is Some,
        13,
    ) | spec_flag_bit(sps.chroma_info.scaling_matrix is Some, 14) | spec_flag_bit(
        sps.vui_parameters is Some,
        15,
    ))
}

/// The driver-shaped sequence parameter set. The scaling lists, the
/// reference-frame offsets and the VUI, pointed to in the native layout,
/// are owned here.
pub struct StdH264SequenceParameterSet {
    pub flags: u32,
    pub profile_idc: u32,
    pub level_idc: u32,
    pub chroma_format_idc: u32,
    pub seq_parameter_set_id: u8,
    pub bit_depth_luma_minus8: u8,
    pub bit_depth_chroma_minus8: u8,
    pub log2_max_frame_num_minus4: u8,
    pub pic_order_cnt_type: u32,
    pub offset_for_non_ref_pic: i32,
    pub offset_for_top_to_bottom_field: i32,
    pub log2_max_pic_order_cnt_lsb_minus4: u8,
    pub num_ref_frames_in_pic_order_cnt_cycle: u8,
    pub max_num_ref_frames: u8,
    pub pic_width_in_mbs_minus1: u32,
    pub pic_height_in_map_units_minus1: u32,
    pub frame_crop_left_offset: u32,
    pub frame_crop_right_offset: u32,
    pub frame_crop_top_offset: u32,
    pub frame_crop_bottom_offset: u32,
    pub offsets_for_ref_frame: Vec<i32>,
    pub scaling_lists: Option<StdH264ScalingLists>,
    pub vui: Option<StdH264SequenceParameterSetVui>,
}

/// `std` is exactly the driver-shaped rendering of `sps`.
pub open spec fn is_std_sps_of(std: StdH264SequenceParameterSet, sps: SeqParameterSet) -> bool {
    &&& std.flags == spec_sps_flags_word(sps)
    &&& std.profile_idc == sps.profile_idc as u32
    &&& std.level_idc == sps.level_idc as u32
    &&& std.chroma_format_idc == sps.chroma_info.chroma_format_idc
    &&& std.seq_parameter_set_id == sps.seq_parameter_set_id
    &&& std.bit_depth_luma_minus8 == sps.chroma_info.bit_depth_luma_minus8
    &&& std.bit_depth_chroma_minus8 == sps.chroma_info.bit_depth_chroma_minus8
    &&& std.log2_max_frame_num_minus4 == sps.log2_max_frame_num_minus4
    &&& std.pic_order_cnt_type == (match sps.pic_order_cnt {
        crate::video::h264::record::PicOrderCntType::TypeZero { .. } => 0u32,
        crate::video::h264::record::PicOrderCntType::TypeOne { .. } => 1u32,
        crate::video::h264::record::PicOrderCntType::TypeTwo => 2u32,
    })
    &&& std.offset_for_non_ref_pic == (match sps.pic_order_cnt {
        crate::video::h264::record::PicOrderCntType::TypeOne { offset_for_non_ref_pic, .. } => {
            offset_for_non_ref_pic
        },
        _ => 0i32,
    })
    &&& std.offset_for_top_to_bottom_field == (match sps.pic_order_cnt {
        crate::video::h264::record::PicOrderCntType::TypeOne {
            offset_for_top_to_bottom_field,
            ..
        } => offset_for_top_to_bottom_field,
        _ => 0i32,
    })
    &&& std.log2_max_pic_order_cnt_lsb_minus4 == (match sps.pic_order_cnt {
        crate::video::h264::record::PicOrderCntType::TypeZero {
            log2_max_pic_order_cnt_lsb_minus4,
        } => log2_max_pic_order_cnt_lsb_minus4,
        _ => 0u8,
    })
    &&& std.offsets_for_ref_frame@ == (match sps.pic_order_cnt {
        crate::video::h264::record::PicOrderCntType::TypeOne { offsets_for_ref_frame, .. } => {
            offsets_for_ref_frame@
        },
        _ => Seq::<i32>::empty(),
    })
    &&& std.num_ref_frames_in_pic_order_cnt_cycle == std.offsets_for_ref_frame@.len()
    &&& std.max_num_ref_frames == sps.max_num_ref_frames as u8
    &&& std.pic_width_in_mbs_minus1 == sps.pic_width_in_mbs_minus1
    &&& std.pic_height_in_map_units_minus1 == sps.pic_height_in_map_units_minus1
    &&& std.frame_crop_left_offset == (match sps.frame_cropping {
        Some(c) => c.left_offset,
        None => 0u32,
    })
    &&& std.frame_crop_right_offset == (match sps.frame_cropping {
        Some(c) => c.right_offset,
        None => 0u32,
    })
    &&& std.frame_crop_top_offset == (match sps.frame_cropping {
        Some(c) => c.top_offset,
        None => 0u32,
    })
    &&& std.frame_crop_bottom_offset == (match sps.frame_cropping {
        Some(c) => c.bottom_offset,
        None => 0u32,
    })
    &&& (match sps.chroma_info.scaling_matrix {
        Some(m) => std.scaling_lists matches Some(sl) && is_std_scaling_of(
            sl,
            m.scaling_list4x4@,
            m.scaling_list8x8@,
        ),
        None => std.scaling_lists is None,
    })
    &&& (match sps.vui_parameters {
        Some(v) => std.vui matches Some(sv) && is_std_vui_of(sv, v),
        None => std.vui is None,
    })
}

/// Packs the SPS flag word.
fn sps_flags_word(sps: &SeqParameterSet) -> (r: u32)
    ensures
        r == spec_sps_flags_word(*sps),
{
    let low: u32 = flag_bit(sps.constraint_flag(0), 0) | flag_bit(sps.constraint_flag(1), 1)
        | flag_bit(sps.constraint_flag(2), 2) | flag_bit(sps.constraint_flag(3), 3) | flag_bit(
        sps.constraint_flag(4),
        4,
    ) | flag_bit(sps.constraint_flag(5), 5) | flag_bit(sps.direct_8x8_inference_flag, 6)
        | flag_bit(
        match &sps.frame_mbs_flags {
            crate::video::h264::record::FrameMbsFlags::Fields { mb_adaptive_frame_field_flag } => {
                *mb_adaptive_frame_field_flag
            },
            _ => false,
        },
        7,
    );
    let high: u32 = flag_bit(
        matches!(sps.frame_mbs_flags, crate::video::h264::record::FrameMbsFlags::Frames),
        8,
    ) | flag_bit(
        match &sps.pic_order_cnt {
            crate::video::h264::record::PicOrderCntType::TypeOne {
                delta_pic_order_always_zero_flag,
                ..
            } => *delta_pic_order_always_zero_flag,
            _ => false,
        },
        9,
    ) | flag_bit(sps.chroma_info.separate_colour_plane_flag, 10) | flag_bit(
        sps.gaps_in_frame_num_value_allowed_flag,
        11,
    ) | flag_bit(sps.chroma_info.qpprime_y_zero_transform_bypass_flag, 12) | flag_bit(
        sps.frame_cropping.is_some(),
        13,
    ) | flag_bit(sps.chroma_info.scaling_matrix.is_some(), 14) | flag_bit(
        sps.vui_parameters.is_some(),
        15,
    );
    low | high
}

/// Builds the driver-shaped sequence parameter set from a parsed record.
#[verifier::rlimit(60)]
pub fn build_sps(sps: &SeqParameterSet) -> (r: StdH264SequenceParameterSet)
    requires
        sps.wf(),
    ensures
        is_std_sps_of(r, *sps),
{
    let flags: u32 = sps_flags_word(sps);
    let poc = &sps.pic_order_cnt;
    let pic_order_cnt_type: u32 = match poc {
        crate::video::h264::record::PicOrderCntType::TypeZero { .. } => 0,
        crate::video::h264::record::PicOrderCntType::TypeOne { .. } => 1,
        crate::video::h264::record::PicOrderCntType::TypeTwo => 2,
    };
    let offset_for_non_ref_pic: i32 = match poc {
        crate::video::h264::record::PicOrderCntType::TypeOne { offset_for_non_ref_pic, .. } => {
            *offset_for_non_ref_pic
        },
        _ => 0,
    };
    let offset_for_top_to_bottom_field: i32 = match poc {
        crate::video::h264::record::PicOrderCntType::TypeOne {
            offset_for_top_to_bottom_field,
            ..
        } => *offset_for_top_to_bottom_field,
        _ => 0,
    };
    let log2_max_pic_order_cnt_lsb_minus4: u8 = match poc {
        crate::video::h264::record::PicOrderCntType::TypeZero {
            log2_max_pic_order_cnt_lsb_minus4,
        } => *log2_max_pic_order_cnt_lsb_minus4,
        _ => 0,
    };
    let offsets_for_ref_frame: Vec<i32> = match poc {
        crate::video::h264::record::PicOrderCntType::TypeOne { offsets_for_ref_frame, .. } => {
            let mut out: Vec<i32> = Vec::new();
            let mut i: usize = 0;
            while i < offsets_for_ref_frame.len()
                invariant
                    i <= offsets_for_ref_frame@.len(),
                    out@.len() == i as int,
                    forall|j: int| 0 <= j < i ==> #[trigger] out@[j] == offsets_for_ref_frame@[j],
                decreases offsets_for_ref_frame@.len() - i,
            {
                out.push(offsets_for_ref_frame[i]);
                i = i + 1;
            }
            proof {
                assert(out@ =~= offsets_for_ref_frame@);
            }
            out
        },
        _ => Vec::new(),
    };
    let scaling_lists = match &sps.chroma_info.scaling_matrix {
        Some(m) => Some(build_scaling_lists(&m.scaling_list4x4, &m.scaling_list8x8)),
        None => None,
    };
    let vui = match &sps.vui_parameters {
        Some(v) => Some(build_vui(v)),
        None => None,
    };
    let n_offsets = offsets_for_ref_frame.len();
    StdH264SequenceParameterSet {
        flags,
        profile_idc: sps.profile_idc as u32,
        level_idc: sps.level_idc as u32,
        chroma_format_idc: sps.chroma_info.chroma_format_idc,
        seq_parameter_set_id: sps.seq_parameter_set_id,
        bit_depth_luma_minus8: sps.chroma_info.bit_depth_luma_minus8,
        bit_depth_chroma_minus8: sps.chroma_info.bit_depth_chroma_minus8,
        log2_max_frame_num_minus4: sps.log2_max_frame_num_minus4,
        pic_order_cnt_type,
        offset_for_non_ref_pic,
        offset_for_top_to_bottom_field,
        log2_max_pic_order_cnt_lsb_minus4,
        num_ref_frames_in_pic_order_cnt_cycle: n_offsets as u8,
        max_num_ref_frames: #[verifier::truncate] (sps.max_num_ref_frames as u8),
        pic_width_in_mbs_minus1: sps.pic_width_in_mbs_minus1,
        pic_height_in_map_units_minus1: sps.pic_height_in_map_units_minus1,
        frame_crop_left_offset: match &sps.frame_cropping {
            Some(c) => c.left_offset,
            None => 0,
        },
        frame_crop_right_offset: match &sps.frame_cropping {
            Some(c) => c.right_offset,
            None => 0,
        },
        frame_crop_top_offset: match &sps.frame_cropping {
            Some(c) => c.top_offset,
            None => 0,
        },
        frame_crop_bottom_offset: match &sps.frame_cropping {
            Some(c) => c.bottom_offset,
            None => 0,
        },
        offsets_for_ref_frame,
        scaling_lists,
        vui,
    }
}

/// The flag word of the driver-shaped picture parameter set, one flag per
/// documented bit: 8x8 transform mode (bit 0), redundant picture count
/// present (1), constrained intra prediction (2), deblocking-filter control
/// present (3), weighted prediction (4), bottom-field picture order in
/// frame present (5), entropy coding mode (6), scaling matrix present (7).
pub open spec fn spec_pps_flags_word(pps: PicParameterSet) -> u32 {
    spec_flag_bit(
        match pps.extension {
            Some(e) => e.transform_8x8_mode_flag,
            None => false,
        },
        0,
    ) | spec_flag_bit(pps.redundant_pic_cnt_present_flag, 1) | spec_flag_bit(
        pps.constrained_intra_pred_flag,
        2,
    ) | spec_flag_bit(pps.deblocking_filter_control_present_flag, 3) | spec_flag_bit(
        pps.weighted_pred_flag,
        4,
    ) | spec_flag_bit(pps.bottom_field_pic_order_in_frame_present_flag, 5) | spec_flag_bit(
        pps.entropy_coding_mode_flag,
        6,
    ) | spec_flag_bit(
        match pps.extension {
            Some(e) => e.pic_scaling_matrix is Some,
            None => false,
        },
        7,
    )
}

/// The driver-shaped picture parameter set. The scaling lists, pointed to
/// in the native layout, are owned here.
pub struct StdH264PictureParameterSet {
    pub flags: u32,
    pub seq_parameter_set_id: u8,
    pub pic_parameter_set_id: u8,
    pub num_ref_idx_l0_default_active_minus1: u8,
    pub num_ref_idx_l1_default_active_minus1: u8,
    pub weighted_bipred_idc: u32,
    pub pic_init_qp_minus26: i8,
    pub pic_init_qs_minus26: i8,
    pub chroma_qp_index_offset: i8,
    pub second_chroma_qp_index_offset: i8,
    pub scaling_lists: Option<StdH264ScalingLists>,
}

/// `std` is exactly the driver-shaped rendering of `pps`.
pub open spec fn is_std_pps_of(std: StdH264PictureParameterSet, pps: PicParameterSet) -> bool {
    &&& std.flags == spec_pps_flags_word(pps)
    &&& std.seq_parameter_set_id == pps.seq_parameter_set_id
    &&& std.pic_parameter_set_id == pps.pic_parameter_set_id
    &&& std.num_ref_idx_l0_default_active_minus1 == pps.num_ref_idx_l0_default_active_minus1 as u8
    &&& std.num_ref_idx_l1_default_active_minus1 == pps.num_ref_idx_l1_default_active_minus1 as u8
    &&& std.weighted_bipred_idc == pps.weighted_bipred_idc as u32
    &&& std.pic_init_qp_minus26 == pps.pic_init_qp_minus26 as i8
    &&& std.pic_init_qs_minus26 == pps.pic_init_qs_minus26 as i8
    &&& std.chroma_qp_index_offset == pps.chroma_qp_index_offset as i8
    &&& std.second_chroma_qp_index_offset == (match pps.extension {
        Some(e) => e.second_chroma_qp_index_offset as i8,
        None => 0i8,
    })
    &&& (match pps.extension {
        Some(e) => match e.pic_scaling_matrix {
            Some(m) => std.scaling_lists matches Some(sl) && is_std_scaling_of(
                sl,
                m.scaling_list4x4@,
                match m.scaling_list8x8 {
                    Some(l) => l@,
                    None => Seq::<ScalingList>::empty(),
                },
            ),
            None => std.scaling_lists is None,
        },
        None => std.scaling_lists is None,
    })
}

/// Builds the driver-shaped picture parameter set from a parsed record.
pub fn build_pps(pps: &PicParameterSet) -> (r: StdH264PictureParameterSet)
    requires
        pps.wf(),
    ensures
        is_std_pps_of(r, *pps),
{
    let flags: u32 = flag_bit(
        match &pps.extension {
            Some(e) => e.transform_8x8_mode_flag,
            None => false,
        },
        0,
    ) | flag_bit(pps.redundant_pic_cnt_present_flag, 1) | flag_bit(
        pps.constrained_intra_pred_flag,
        2,
    ) | flag_bit(pps.deblocking_filter_control_present_flag, 3) | flag_bit(
        pps.weighted_pred_flag,
        4,
    ) | flag_bit(pps.bottom_field_pic_order_in_frame_present_flag, 5) | flag_bit(
        pps.entropy_coding_mode_flag,
        6,
    ) | flag_bit(
        match &pps.extension {
            Some(e) => e.pic_scaling_matrix.is_some(),
            None => false,
        },
        7,
    );
    let empty: Vec<ScalingList> = Vec::new();
    let scaling_lists = match &pps.extension {
        Some(e) => match &e.pic_scaling_matrix {
            Some(m) => Some(
                match &m.scaling_list8x8 {
                    Some(l8) => build_scaling_lists(&m.scaling_list4x4, l8),
                    None => build_scaling_lists(&m.scaling_list4x4, &empty),
                },
            ),
            None => None,
        },
        None => None,
    };
    StdH264PictureParameterSet {
        flags,
        seq_parameter_set_id: pps.seq_parameter_set_id,
        pic_parameter_set_id: pps.pic_parameter_set_id,
        num_ref_idx_l0_default_active_minus1: pps.num_ref_idx_l0_default_active_minus1 as u8,
        num_ref_idx_l1_default_active_minus1: pps.num_ref_idx_l1_default_active_minus1 as u8,
        weighted_bipred_idc: pps.weighted_bipred_idc as u32,
        pic_init_qp_minus26: pps.pic_init_qp_minus26 as i8,
        pic_init_qs_minus26: pps.pic_init_qs_minus26 as i8,
        chroma_qp_index_offset: pps.chroma_qp_index_offset as i8,
        second_chroma_qp_index_offset: match &pps.extension {
            Some(e) => e.second_chroma_qp_index_offset as i8,
            None => 0,
        },
        scaling_lists,
    }
}


/// The values held by the entries of `s` that hold one, in table order.
pub open spec fn spec_present<A>(s: Seq<Option<A>>) -> Seq<A>
    decreases s.len(),
{
    if s.len() == 0 {
        Seq::empty()
    } else {
        spec_present(s.drop_last()) + (match s.last() {
            Some(v) => seq![v],
            None => Seq::empty(),
        })
    }
}

/// The driver-shaped add-info lists: every stored sequence and picture
/// parameter set, rendered and in id order.
pub struct H264SessionParametersAddInfo {
    pub std_sps: Vec<StdH264SequenceParameterSet>,
    pub std_pps: Vec<StdH264PictureParameterSet>,
}

/// Everything needed to create a driver decode-session-parameters object
/// for H.264: the capacity bounds and the add-info lists.
pub struct H264SessionParametersCreateInfo {
    pub max_std_sps_count: u32,
    pub max_std_pps_count: u32,
    pub parameters_add_info: H264SessionParametersAddInfo,
}

impl H264StreamInspector {
    /// Derives the complete decode-session parameter structure from the
    /// running context: one driver-shaped rendering of every stored
    /// sequence and picture parameter set, in id order, under the
    /// standard's capacity bounds.
    pub fn session_parameters_create_info(&self) -> (r: H264SessionParametersCreateInfo)
        requires
            self.wf(),
        ensures
            r.max_std_sps_count == 32,
            r.max_std_pps_count == 256,
            ({
                let sps_present = spec_present(self.spec_context().spec_sps_table());
                let pps_present = spec_present(self.spec_context().spec_pps_table());
                &&& r.parameters_add_info.std_sps@.len() == sps_present.len()
                &&& forall|j: int|
                    0 <= j < sps_present.len() ==> is_std_sps_of(
                        #[trigger] r.parameters_add_info.std_sps@[j],
                        sps_present[j],
                    )
                &&& r.parameters_add_info.std_pps@.len() == pps_present.len()
                &&& forall|j: int|
                    0 <= j < pps_present.len() ==> is_std_pps_of(
                        #[trigger] r.parameters_add_info.std_pps@[j],
                        pps_present[j],
                    )
            }),
    {
        let ghost sps_table = self.spec_context().spec_sps_table();
        let ghost pps_table = self.spec_context().spec_pps_table();
        let mut std_sps: Vec<StdH264SequenceParameterSet> = Vec::new();
        let mut id: usize = 0;
        while id < 32
            invariant
                self.wf(),
                sps_table == self.spec_context().spec_sps_table(),
                id <= 32,
                std_sps@.len() == spec_present(sps_table.take(id as int)).len(),
                forall|j: int|
                    0 <= j < std_sps@.len() ==> is_std_sps_of(
                        #[trigger] std_sps@[j],
                        spec_present(sps_table.take(id as int))[j],
                    ),
            decreases 32 - id,
        {
            proof {
                assert(sps_table.take(id + 1).drop_last() =~= sps_table.take(id as int));
                assert(sps_table.take(id + 1).last() == sps_table[id as int]);
            }
            match self.context().sps_by_id(id as u8) {
                Some(sps) => {
                    proof {
                        assert(self.spec_context().spec_sps_table()[id as int] is Some);
                    }
                    let std = build_sps(sps);
                    std_sps.push(std);
                },
                None => {},
            }
            id = id + 1;
        }
        proof {
            assert(sps_table.take(32) =~= sps_table);
        }
        let mut std_pps: Vec<StdH264PictureParameterSet> = Vec::new();
        let mut pid: usize = 0;
        while pid < 256
            invariant
                self.wf(),
                pps_table == self.spec_context().spec_pps_table(),
                pid <= 256,
                std_pps@.len() == spec_present(pps_table.take(pid as int)).len(),
                forall|j: int|
                    0 <= j < std_pps@.len() ==> is_std_pps_of(
                        #[trigger] std_pps@[j],
                        spec_present(pps_table.take(pid as int))[j],
                    ),
            decreases 256 - pid,
        {
            proof {
                assert(pps_table.take(pid + 1).drop_last() =~= pps_table.take(pid as int));
                assert(pps_table.take(pid + 1).last() == pps_table[pid as int]);
            }
            match self.context().pps_by_id(pid as u8) {
                Some(pps) => {
                    proof {
                        assert(self.spec_context().spec_pps_table()[pid as int] is Some);
                    }
                    let std = build_pps(pps);
                    std_pps.push(std);
                },
                None => {},
            }
            pid = pid + 1;
        }
        proof {
            assert(pps_table.take(256) =~= pps_table);
        }
        H264SessionParametersCreateInfo {
            max_std_sps_count: 32,
            max_std_pps_count: 256,
            parameters_add_info: H264SessionParametersAddInfo { std_sps, std_pps },
        }
    }
}

} // verus!
