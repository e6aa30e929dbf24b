//! Parsing of sequence parameter sets from RBSP data, following the H.264
//! parameter-set grammar.
use crate::video::h264::bits::{bits_value, spec_read_ue, BitError, BitReader};
use crate::video::h264::record::{
    scaling_lists_wf, AspectRatioInfo, BitstreamRestrictions, ChromaInfo, ChromaLocInfo,
    ColourDescription, CpbSpec, FrameCropping, FrameMbsFlags, HrdParameters, OverscanAppropriate,
    PicOrderCntType, ScalingList, SeqParameterSet, SeqScalingMatrix, TimingInfo, VideoSignalType,
    VuiParameters,
};
use vstd::prelude::*;

verus! {

/// An error while parsing a scaling matrix.
#[derive(Debug, Clone, Copy, PartialEq, Eq, Structural)]
pub enum ScalingMatrixError {
    ReaderError(BitError),
    /// The `delta_scale` field must be between -128 and 127 inclusive.
    DeltaScaleOutOfRange(i32),
}

/// An error while parsing a picture-order-count clause.
#[derive(Debug, Clone, Copy, PartialEq, Eq, Structural)]
pub enum PicOrderCntError {
    InvalidPicOrderCountType(u32),
    ReaderError(BitError),
    /// `log2_max_pic_order_cnt_lsb_minus4` must be between 0 and 12.
    Log2MaxPicOrderCntLsbMinus4OutOfRange(u32),
    /// `num_ref_frames_in_pic_order_cnt_cycle` must be between 0 and 255.
    NumRefFramesInPicOrderCntCycleOutOfRange(u32),
}

/// An error while parsing a sequence parameter set.
#[derive(Debug, Clone, Copy, PartialEq, Eq, Structural)]
pub enum SpsError {
    ReaderError(BitError),
    /// `seq_parameter_set_id` must be between 0 and 31.
    BadSeqParamSetId(u32),
    ScalingMatrix(ScalingMatrixError),
    PicOrderCnt(PicOrderCntError),
    /// `log2_max_frame_num_minus4` must be between 0 and 12.
    Log2MaxFrameNumMinus4OutOfRange(u32),
    /// A bit depth must be between 0 and 6.
    BitDepthOutOfRange(u32),
    /// `cpb_cnt_minus1` must be between 0 and 31.
    CpbCountOutOfRange(u32),
    /// A field exceeded the bound the standard puts on it.
    FieldValueTooLarge(u32),
    /// A field fell short of the bound the standard puts on it.
    FieldValueTooSmall(u32),
    /// Data other than the RBSP trailing bits followed the parameter set.
    RemainingData,
}

impl From<BitError> for SpsError {
    fn from(e: BitError) -> (r: SpsError) {
        SpsError::ReaderError(e)
    }
}

impl vstd::std_specs::convert::FromSpecImpl<BitError> for SpsError {
    open spec fn obeys_from_spec() -> bool {
        true
    }

    open spec fn from_spec(e: BitError) -> SpsError {
        SpsError::ReaderError(e)
    }
}

/// Whether a profile's SPS carries the chroma-information clause.
pub fn profile_has_chroma_info(profile_idc: u8) -> (r: bool)
    ensures
        r == (profile_idc == 100 || profile_idc == 110 || profile_idc == 122 || profile_idc == 244
            || profile_idc == 44 || profile_idc == 83 || profile_idc == 86),
{
    match profile_idc {
        100u8 | 110u8 | 122u8 | 244u8 | 44u8 | 83u8 | 86u8 => true,
        _ => false,
    }
}

/// Reads one scaling list of `size` weights: a delta-coded list where a
/// zero first delta selects the standard's default matrix.
pub(crate) fn read_scaling_list(r: &mut BitReader, present: bool, size: usize) -> (res: Result<
    ScalingList,
    ScalingMatrixError,
>)
    requires
        old(r).wf(),
    ensures
        final(r).wf(),
        final(r).spec_data() == old(r).spec_data(),
        match res {
            Ok(l) => l.wf(size as int),
            Err(_) => true,
        },
{
    if !present {
        return Ok(ScalingList::NotPresent);
    }
    let mut list: Vec<u8> = Vec::new();
    let mut last_scale: u8 = 8;
    let mut next_scale: i32 = 8;
    let mut use_default = false;
    let mut j: usize = 0;
    while j < size
        invariant
            r.wf(),
            r.spec_data() == old(r).spec_data(),
            0 <= next_scale <= 255,
            last_scale >= 1,
            j <= size,
            list@.len() == j as int,
        decreases size - j,
    {
        if next_scale != 0 {
            let delta_scale = match r.read_se() {
                Ok(v) => v,
                Err(e) => {
                    return Err(ScalingMatrixError::ReaderError(e));
                },
            };
            if delta_scale < -128 || delta_scale > 127 {
                return Err(ScalingMatrixError::DeltaScaleOutOfRange(delta_scale));
            }
            next_scale = (last_scale as i32 + delta_scale + 256) % 256;
            use_default = j == 0 && next_scale == 0;
        }
        let new_value: u8 = if next_scale == 0 {
            last_scale
        } else {
            #[verifier::truncate]
            (next_scale as u8)
        };
        list.push(new_value);
        last_scale = new_value;
        j = j + 1;
    }
    if use_default {
        Ok(ScalingList::UseDefault)
    } else {
        Ok(ScalingList::List(list))
    }
}

/// Reads `n` bits, at most 8, as one byte.
pub(crate) fn read_u8_bits(r: &mut BitReader, n: usize) -> (res: Result<u8, BitError>)
    requires
        old(r).wf(),
        n <= 8,
    ensures
        final(r).wf(),
        final(r).spec_data() == old(r).spec_data(),
        match res {
            Ok(v) => old(r).spec_pos() + n <= old(r).total_bits() && v as nat == bits_value(
                old(r).spec_data(),
                old(r).spec_pos(),
                n as nat,
            ) && (v as nat) < vstd::arithmetic::power2::pow2(n as nat) && final(r).spec_pos()
                == old(r).spec_pos() + n,
            Err(e) => e == BitError::EndOfData && old(r).spec_pos() + n > old(r).total_bits(),
        },
{
    let v = r.read_bits(n)?;
    proof {
        vstd::arithmetic::power2::lemma2_to64();
        crate::video::h264::bits::lemma_bits_value_bound(
            old(r).spec_data(),
            old(r).spec_pos(),
            n as nat,
        );
        if (n as nat) < 8 {
            vstd::arithmetic::power2::lemma_pow2_strictly_increases(n as nat, 8);
        }
    }
    Ok(v as u8)
}

/// Reads `n` bits, at most 16, as one 16-bit value.
pub(crate) fn read_u16_bits(r: &mut BitReader, n: usize) -> (res: Result<u16, BitError>)
    requires
        old(r).wf(),
        n <= 16,
    ensures
        final(r).wf(),
        final(r).spec_data() == old(r).spec_data(),
        match res {
            Ok(v) => old(r).spec_pos() + n <= old(r).total_bits() && v as nat == bits_value(
                old(r).spec_data(),
                old(r).spec_pos(),
                n as nat,
            ) && final(r).spec_pos() == old(r).spec_pos() + n,
            Err(e) => e == BitError::EndOfData && old(r).spec_pos() + n > old(r).total_bits(),
        },
{
    let v = r.read_bits(n)?;
    proof {
        vstd::arithmetic::power2::lemma2_to64();
        crate::video::h264::bits::lemma_bits_value_bound(
            old(r).spec_data(),
            old(r).spec_pos(),
            n as nat,
        );
        if (n as nat) < 16 {
            vstd::arithmetic::power2::lemma_pow2_strictly_increases(n as nat, 16);
        }
    }
    Ok(v as u16)
}

/// Reads the SPS scaling matrix: eight lists, or twelve for 4:4:4 content.
fn read_seq_scaling_matrix(r: &mut BitReader, chroma_format_idc: u32) -> (res: Result<
    SeqScalingMatrix,
    ScalingMatrixError,
>)
    requires
        old(r).wf(),
    ensures
        final(r).wf(),
        final(r).spec_data() == old(r).spec_data(),
        match res {
            Ok(m) => m.wf(),
            Err(_) => true,
        },
{
    let count: usize = if chroma_format_idc == 3 {
        12
    } else {
        8
    };
    let mut scaling_list4x4: Vec<ScalingList> = Vec::new();
    let mut scaling_list8x8: Vec<ScalingList> = Vec::new();
    let mut i: usize = 0;
    while i < count
        invariant
            r.wf(),
            r.spec_data() == old(r).spec_data(),
            count == 8 || count == 12,
            i <= count,
            scaling_list4x4@.len() == if i < 6 {
                i as int
            } else {
                6
            },
            scaling_list8x8@.len() == if i < 6 {
                0
            } else {
                i - 6
            },
            scaling_lists_wf(scaling_list4x4@, 16),
            scaling_lists_wf(scaling_list8x8@, 64),
        decreases count - i,
    {
        let present = match r.read_bit() {
            Ok(b) => b,
            Err(e) => {
                return Err(ScalingMatrixError::ReaderError(e));
            },
        };
        if i < 6 {
            let l = match read_scaling_list(r, present, 16) {
                Ok(l) => l,
                Err(e) => {
                    return Err(e);
                },
            };
            scaling_list4x4.push(l);
        } else {
            let l = match read_scaling_list(r, present, 64) {
                Ok(l) => l,
                Err(e) => {
                    return Err(e);
                },
            };
            scaling_list8x8.push(l);
        }
        i = i + 1;
    }
    Ok(SeqScalingMatrix { scaling_list4x4, scaling_list8x8 })
}

/// Reads the chroma-information clause, present only for the profiles that
/// carry it; other profiles get the standard's defaults.
fn read_chroma_info(r: &mut BitReader, profile_idc: u8) -> (res: Result<ChromaInfo, SpsError>)
    requires
        old(r).wf(),
    ensures
        final(r).wf(),
        final(r).spec_data() == old(r).spec_data(),
        match res {
            Ok(c) => c.wf(),
            Err(_) => true,
        },
{
    if !profile_has_chroma_info(profile_idc) {
        return Ok(
            ChromaInfo {
                chroma_format_idc: 1,
                separate_colour_plane_flag: false,
                bit_depth_luma_minus8: 0,
                bit_depth_chroma_minus8: 0,
                qpprime_y_zero_transform_bypass_flag: false,
                scaling_matrix: None,
            },
        );
    }
    let chroma_format_idc = r.read_ue()?;
    let separate_colour_plane_flag = if chroma_format_idc == 3 {
        r.read_bit()?
    } else {
        false
    };
    let bit_depth_luma_minus8 = read_bit_depth_minus8(r)?;
    let bit_depth_chroma_minus8 = read_bit_depth_minus8(r)?;
    let qpprime_y_zero_transform_bypass_flag = r.read_bit()?;
    let scaling_matrix_present = r.read_bit()?;
    let scaling_matrix = if scaling_matrix_present {
        match read_seq_scaling_matrix(r, chroma_format_idc) {
            Ok(m) => Some(m),
            Err(e) => {
                return Err(SpsError::ScalingMatrix(e));
            },
        }
    } else {
        None
    };
    Ok(
        ChromaInfo {
            chroma_format_idc,
            separate_colour_plane_flag,
            bit_depth_luma_minus8,
            bit_depth_chroma_minus8,
            qpprime_y_zero_transform_bypass_flag,
            scaling_matrix,
        },
    )
}

/// Reads a bit depth and holds it to the standard's bound of 6.
fn read_bit_depth_minus8(r: &mut BitReader) -> (res: Result<u8, SpsError>)
    requires
        old(r).wf(),
    ensures
        final(r).wf(),
        final(r).spec_data() == old(r).spec_data(),
        match res {
            Ok(v) => v <= 6,
            Err(_) => true,
        },
{
    let value = r.read_ue()?;
    if value > 6 {
        Err(SpsError::BitDepthOutOfRange(value))
    } else {
        Ok(value as u8)
    }
}

/// Reads the picture-order-count clause.
fn read_pic_order_cnt(r: &mut BitReader) -> (res: Result<PicOrderCntType, PicOrderCntError>)
    requires
        old(r).wf(),
    ensures
        final(r).wf(),
        final(r).spec_data() == old(r).spec_data(),
        match res {
            Ok(p) => p.wf(),
            Err(_) => true,
        },
{
    let pic_order_cnt_type = match r.read_ue() {
        Ok(v) => v,
        Err(e) => {
            return Err(PicOrderCntError::ReaderError(e));
        },
    };
    if pic_order_cnt_type == 0 {
        let val = match r.read_ue() {
            Ok(v) => v,
            Err(e) => {
                return Err(PicOrderCntError::ReaderError(e));
            },
        };
        if val > 12 {
            return Err(PicOrderCntError::Log2MaxPicOrderCntLsbMinus4OutOfRange(val));
        }
        Ok(PicOrderCntType::TypeZero { log2_max_pic_order_cnt_lsb_minus4: val as u8 })
    } else if pic_order_cnt_type == 1 {
        let delta_pic_order_always_zero_flag = match r.read_bit() {
            Ok(b) => b,
            Err(e) => {
                return Err(PicOrderCntError::ReaderError(e));
            },
        };
        let offset_for_non_ref_pic = match r.read_se() {
            Ok(v) => v,
            Err(e) => {
                return Err(PicOrderCntError::ReaderError(e));
            },
        };
        let offset_for_top_to_bottom_field = match r.read_se() {
            Ok(v) => v,
            Err(e) => {
                return Err(PicOrderCntError::ReaderError(e));
            },
        };
        let num = match r.read_ue() {
            Ok(v) => v,
            Err(e) => {
                return Err(PicOrderCntError::ReaderError(e));
            },
        };
        if num > 255 {
            return Err(PicOrderCntError::NumRefFramesInPicOrderCntCycleOutOfRange(num));
        }
        let mut offsets_for_ref_frame: Vec<i32> = Vec::new();
        let mut i: u32 = 0;
        while i < num
            invariant
                r.wf(),
                r.spec_data() == old(r).spec_data(),
                num <= 255,
                i <= num,
                offsets_for_ref_frame@.len() == i as int,
            decreases num - i,
        {
            let v = match r.read_se() {
                Ok(v) => v,
                Err(e) => {
                    return Err(PicOrderCntError::ReaderError(e));
                },
            };
            offsets_for_ref_frame.push(v);
            i = i + 1;
        }
        Ok(
            PicOrderCntType::TypeOne {
                delta_pic_order_always_zero_flag,
                offset_for_non_ref_pic,
                offset_for_top_to_bottom_field,
                offsets_for_ref_frame,
            },
        )
    } else if pic_order_cnt_type == 2 {
        Ok(PicOrderCntType::TypeTwo)
    } else {
        Err(PicOrderCntError::InvalidPicOrderCountType(pic_order_cnt_type))
    }
}

/// Reads the frame cropping clause, if its flag is set.
fn read_frame_cropping(r: &mut BitReader) -> (res: Result<Option<FrameCropping>, BitError>)
    requires
        old(r).wf(),
    ensures
        final(r).wf(),
        final(r).spec_data() == old(r).spec_data(),
{
    let frame_cropping_flag = r.read_bit()?;
    if frame_cropping_flag {
        Ok(
            Some(
                FrameCropping {
                    left_offset: r.read_ue()?,
                    right_offset: r.read_ue()?,
                    top_offset: r.read_ue()?,
                    bottom_offset: r.read_ue()?,
                },
            ),
        )
    } else {
        Ok(None)
    }
}

/// Reads the aspect-ratio clause of the VUI, if its flag is set.
fn read_aspect_ratio_info(r: &mut BitReader) -> (res: Result<Option<AspectRatioInfo>, BitError>)
    requires
        old(r).wf(),
    ensures
        final(r).wf(),
        final(r).spec_data() == old(r).spec_data(),
{
    let present = r.read_bit()?;
    if !present {
        return Ok(None);
    }
    let aspect_ratio_idc = read_u8_bits(r, 8)?;
    if aspect_ratio_idc == 255 {
        let w = read_u16_bits(r, 16)?;
        let h = read_u16_bits(r, 16)?;
        Ok(Some(AspectRatioInfo { aspect_ratio_idc, extended_sar_width: w, extended_sar_height: h }))
    } else {
        Ok(Some(AspectRatioInfo { aspect_ratio_idc, extended_sar_width: 1, extended_sar_height: 1 }))
    }
}

/// Reads the overscan clause of the VUI.
fn read_overscan(r: &mut BitReader) -> (res: Result<OverscanAppropriate, BitError>)
    requires
        old(r).wf(),
    ensures
        final(r).wf(),
        final(r).spec_data() == old(r).spec_data(),
{
    let present = r.read_bit()?;
    if present {
        let appropriate = r.read_bit()?;
        if appropriate {
            Ok(OverscanAppropriate::Appropriate)
        } else {
            Ok(OverscanAppropriate::Inappropriate)
        }
    } else {
        Ok(OverscanAppropriate::Unspecified)
    }
}

/// Reads the video-signal-type clause of the VUI, if its flag is set.
fn read_video_signal_type(r: &mut BitReader) -> (res: Result<Option<VideoSignalType>, BitError>)
    requires
        old(r).wf(),
    ensures
        final(r).wf(),
        final(r).spec_data() == old(r).spec_data(),
        match res {
            Ok(Some(v)) => v.wf(),
            _ => true,
        },
{
    let present = r.read_bit()?;
    if !present {
        return Ok(None);
    }
    let video_format = read_u8_bits(r, 3)?;
    proof {
        vstd::arithmetic::power2::lemma2_to64();
        assert(video_format <= 7);
    }
    let video_full_range_flag = r.read_bit()?;
    let colour_present = r.read_bit()?;
    let colour_description = if colour_present {
        Some(
            ColourDescription {
                colour_primaries: read_u8_bits(r, 8)?,
                transfer_characteristics: read_u8_bits(r, 8)?,
                matrix_coefficients: read_u8_bits(r, 8)?,
            },
        )
    } else {
        None
    };
    Ok(Some(VideoSignalType { video_format, video_full_range_flag, colour_description }))
}

/// Reads the chroma-sample-location clause of the VUI, if its flag is set.
fn read_chroma_loc_info(r: &mut BitReader) -> (res: Result<Option<ChromaLocInfo>, BitError>)
    requires
        old(r).wf(),
    ensures
        final(r).wf(),
        final(r).spec_data() == old(r).spec_data(),
{
    let present = r.read_bit()?;
    if present {
        Ok(
            Some(
                ChromaLocInfo {
                    chroma_sample_loc_type_top_field: r.read_ue()?,
                    chroma_sample_loc_type_bottom_field: r.read_ue()?,
                },
            ),
        )
    } else {
        Ok(None)
    }
}

/// Reads the timing clause of the VUI, if its flag is set.
fn read_timing_info(r: &mut BitReader) -> (res: Result<Option<TimingInfo>, BitError>)
    requires
        old(r).wf(),
    ensures
        final(r).wf(),
        final(r).spec_data() == old(r).spec_data(),
{
    let present = r.read_bit()?;
    if present {
        Ok(
            Some(
                TimingInfo {
                    num_units_in_tick: r.read_bits(32)?,
                    time_scale: r.read_bits(32)?,
                    fixed_frame_rate_flag: r.read_bit()?,
                },
            ),
        )
    } else {
        Ok(None)
    }
}

/// Reads an HRD-parameters clause, if its flag is set, and records in
/// `hrd_present` whether one was seen.
fn read_hrd_parameters(r: &mut BitReader, hrd_present: &mut bool) -> (res: Result<
    Option<HrdParameters>,
    SpsError,
>)
    requires
        old(r).wf(),
    ensures
        final(r).wf(),
        final(r).spec_data() == old(r).spec_data(),
        res matches Ok(o) ==> *final(hrd_present) == (*old(hrd_present) || o is Some),
        match res {
            Ok(Some(h)) => h.wf(),
            _ => true,
        },
{
    let present = r.read_bit()?;
    if !present {
        return Ok(None);
    }
    *hrd_present = true;
    let cpb_cnt_minus1 = r.read_ue()?;
    if cpb_cnt_minus1 > 31 {
        return Err(SpsError::CpbCountOutOfRange(cpb_cnt_minus1));
    }
    let bit_rate_scale = read_u8_bits(r, 4)?;
    let cpb_size_scale = read_u8_bits(r, 4)?;
    proof {
        vstd::arithmetic::power2::lemma2_to64();
    }
    let mut cpb_specs: Vec<CpbSpec> = Vec::new();
    let mut i: u32 = 0;
    let cpb_cnt = cpb_cnt_minus1 + 1;
    while i < cpb_cnt
        invariant
            r.wf(),
            r.spec_data() == old(r).spec_data(),
            cpb_cnt <= 32,
            i <= cpb_cnt,
            cpb_specs@.len() == i as int,
        decreases cpb_cnt - i,
    {
        let bit_rate_value_minus1 = match r.read_ue() {
            Ok(v) => v,
            Err(e) => {
                return Err(SpsError::ReaderError(e));
            },
        };
        let cpb_size_value_minus1 = match r.read_ue() {
            Ok(v) => v,
            Err(e) => {
                return Err(SpsError::ReaderError(e));
            },
        };
        let cbr_flag = match r.read_bit() {
            Ok(b) => b,
            Err(e) => {
                return Err(SpsError::ReaderError(e));
            },
        };
        cpb_specs.push(CpbSpec { bit_rate_value_minus1, cpb_size_value_minus1, cbr_flag });
        i = i + 1;
    }
    let initial_cpb_removal_delay_length_minus1 = read_u8_bits(r, 5)?;
    let cpb_removal_delay_length_minus1 = read_u8_bits(r, 5)?;
    let dpb_output_delay_length_minus1 = read_u8_bits(r, 5)?;
    let time_offset_length = read_u8_bits(r, 5)?;
    proof {
        vstd::arithmetic::power2::lemma2_to64();
    }
    Ok(
        Some(
            HrdParameters {
                bit_rate_scale,
                cpb_size_scale,
                cpb_specs,
                initial_cpb_removal_delay_length_minus1,
                cpb_removal_delay_length_minus1,
                dpb_output_delay_length_minus1,
                time_offset_length,
            },
        ),
    )
}

/// Reads the bitstream-restrictions clause of the VUI, if its flag is set,
/// holding its fields to the standard's bounds.
fn read_bitstream_restrictions(r: &mut BitReader, max_num_ref_frames: u32) -> (res: Result<
    Option<BitstreamRestrictions>,
    SpsError,
>)
    requires
        old(r).wf(),
    ensures
        final(r).wf(),
        final(r).spec_data() == old(r).spec_data(),
{
    let flag = r.read_bit()?;
    if !flag {
        return Ok(None);
    }
    let motion_vectors_over_pic_boundaries_flag = r.read_bit()?;
    let max_bytes_per_pic_denom = r.read_ue()?;
    if max_bytes_per_pic_denom > 16 {
        return Err(SpsError::FieldValueTooLarge(max_bytes_per_pic_denom));
    }
    let max_bits_per_mb_denom = r.read_ue()?;
    if max_bits_per_mb_denom > 16 {
        return Err(SpsError::FieldValueTooLarge(max_bits_per_mb_denom));
    }
    let log2_max_mv_length_horizontal = r.read_ue()?;
    if log2_max_mv_length_horizontal > 16 {
        return Err(SpsError::FieldValueTooLarge(log2_max_mv_length_horizontal));
    }
    let log2_max_mv_length_vertical = r.read_ue()?;
    if log2_max_mv_length_vertical > 16 {
        return Err(SpsError::FieldValueTooLarge(log2_max_mv_length_vertical));
    }
    let max_num_reorder_frames = r.read_ue()?;
    let max_dec_frame_buffering = r.read_ue()?;
    if max_num_reorder_frames > max_dec_frame_buffering {
        return Err(SpsError::FieldValueTooLarge(max_num_reorder_frames));
    }
    if max_dec_frame_buffering < max_num_ref_frames {
        return Err(SpsError::FieldValueTooSmall(max_dec_frame_buffering));
    }
    Ok(
        Some(
            BitstreamRestrictions {
                motion_vectors_over_pic_boundaries_flag,
                max_bytes_per_pic_denom,
                max_bits_per_mb_denom,
                log2_max_mv_length_horizontal,
                log2_max_mv_length_vertical,
                max_num_reorder_frames,
                max_dec_frame_buffering,
            },
        ),
    )
}

/// Reads the VUI, if its flag is set.
fn read_vui_parameters(r: &mut BitReader, max_num_ref_frames: u32) -> (res: Result<
    Option<VuiParameters>,
    SpsError,
>)
    requires
        old(r).wf(),
    ensures
        final(r).wf(),
        final(r).spec_data() == old(r).spec_data(),
        match res {
            Ok(Some(v)) => v.wf(),
            _ => true,
        },
{
    let present = r.read_bit()?;
    if !present {
        return Ok(None);
    }
    let aspect_ratio_info = read_aspect_ratio_info(r)?;
    let overscan_appropriate = read_overscan(r)?;
    let video_signal_type = read_video_signal_type(r)?;
    let chroma_loc_info = read_chroma_loc_info(r)?;
    let timing_info = read_timing_info(r)?;
    let mut hrd_present = false;
    let nal_hrd_parameters = read_hrd_parameters(r, &mut hrd_present)?;
    let vcl_hrd_parameters = read_hrd_parameters(r, &mut hrd_present)?;
    let low_delay_hrd_flag = if hrd_present {
        Some(r.read_bit()?)
    } else {
        None
    };
    let pic_struct_present_flag = r.read_bit()?;
    let bitstream_restrictions = read_bitstream_restrictions(r, max_num_ref_frames)?;
    Ok(
        Some(
            VuiParameters {
                aspect_ratio_info,
                overscan_appropriate,
                video_signal_type,
                chroma_loc_info,
                timing_info,
                nal_hrd_parameters,
                vcl_hrd_parameters,
                low_delay_hrd_flag,
                pic_struct_present_flag,
                bitstream_restrictions,
            },
        ),
    )
}

impl SeqParameterSet {
    /// Parses a sequence parameter set from its RBSP.
    ///
    /// On success, the record is well formed and its fixed-position leading
    /// fields — profile, constraint flags, level, id — hold exactly the
    /// values coded in the input. The leading grammar also forces failures:
    /// an RBSP too short for the three fixed bytes, an unreadable id code,
    /// and an out-of-range id each yield exactly their error.
    pub fn from_bits(reader: BitReader) -> (res: Result<SeqParameterSet, SpsError>)
        requires
            reader.wf(),
            reader.spec_pos() == 0,
        ensures
            match res {
                Ok(sps) => {
                    &&& sps.wf()
                    &&& sps.profile_idc as nat == bits_value(reader.spec_data(), 0, 8)
                    &&& sps.constraint_flags as nat == bits_value(reader.spec_data(), 8, 8)
                    &&& sps.level_idc as nat == bits_value(reader.spec_data(), 16, 8)
                    &&& spec_read_ue(reader.spec_data(), 24) matches Ok(vp)
                        && sps.seq_parameter_set_id as nat == vp.0
                },
                Err(_) => true,
            },
            reader.spec_data().len() * 8 < 24 ==> res == Err::<SeqParameterSet, SpsError>(
                SpsError::ReaderError(BitError::EndOfData),
            ),
            reader.spec_data().len() * 8 >= 24 ==> (spec_read_ue(reader.spec_data(), 24) matches Err(
                e,
            ) ==> res == Err::<SeqParameterSet, SpsError>(SpsError::ReaderError(e))),
            (spec_read_ue(reader.spec_data(), 24) matches Ok(vp) ==> (vp.0 > 31 ==> res == Err::<
                SeqParameterSet,
                SpsError,
            >(SpsError::BadSeqParamSetId(vp.0 as u32)))),
    {
        let mut r = reader;
        let profile_idc = match read_u8_bits(&mut r, 8) {
            Ok(v) => v,
            Err(e) => {
                return Err(SpsError::ReaderError(e));
            },
        };
        let constraint_flags = match read_u8_bits(&mut r, 8) {
            Ok(v) => v,
            Err(e) => {
                return Err(SpsError::ReaderError(e));
            },
        };
        let level_idc = match read_u8_bits(&mut r, 8) {
            Ok(v) => v,
            Err(e) => {
                return Err(SpsError::ReaderError(e));
            },
        };
        let id = match r.read_ue() {
            Ok(v) => v,
            Err(e) => {
                return Err(SpsError::ReaderError(e));
            },
        };
        if id > 31 {
            return Err(SpsError::BadSeqParamSetId(id));
        }
        let chroma_info = read_chroma_info(&mut r, profile_idc)?;
        let log2_max_frame_num_minus4 = {
            let val = r.read_ue()?;
            if val > 12 {
                return Err(SpsError::Log2MaxFrameNumMinus4OutOfRange(val));
            }
            val as u8
        };
        let pic_order_cnt = match read_pic_order_cnt(&mut r) {
            Ok(p) => p,
            Err(e) => {
                return Err(SpsError::PicOrderCnt(e));
            },
        };
        let max_num_ref_frames = r.read_ue()?;
        let gaps_in_frame_num_value_allowed_flag = r.read_bit()?;
        let pic_width_in_mbs_minus1 = r.read_ue()?;
        let pic_height_in_map_units_minus1 = r.read_ue()?;
        let frame_mbs_only_flag = r.read_bit()?;
        let frame_mbs_flags = if frame_mbs_only_flag {
            FrameMbsFlags::Frames
        } else {
            FrameMbsFlags::Fields { mb_adaptive_frame_field_flag: r.read_bit()? }
        };
        let direct_8x8_inference_flag = r.read_bit()?;
        let frame_cropping = read_frame_cropping(&mut r)?;
        let vui_parameters = read_vui_parameters(&mut r, max_num_ref_frames)?;
        let sps = SeqParameterSet {
            profile_idc,
            constraint_flags,
            level_idc,
            seq_parameter_set_id: id as u8,
            chroma_info,
            log2_max_frame_num_minus4,
            pic_order_cnt,
            max_num_ref_frames,
            gaps_in_frame_num_value_allowed_flag,
            pic_width_in_mbs_minus1,
            pic_height_in_map_units_minus1,
            frame_mbs_flags,
            direct_8x8_inference_flag,
            frame_cropping,
            vui_parameters,
        };
        match r.finish_rbsp() {
            Ok(()) => Ok(sps),
            Err(BitError::EndOfData) => Err(SpsError::ReaderError(BitError::EndOfData)),
            Err(_) => Err(SpsError::RemainingData),
        }
    }
}

} // verus!
