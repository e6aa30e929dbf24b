//! Parsing of picture parameter sets from RBSP data, following the H.264
//! parameter-set grammar. A picture parameter set references a sequence
//! parameter set that must already be in the context; parsing fails with a
//! missing-reference error otherwise.
use crate::video::h264::bits::{bit_at, bits_value, golomb_signed, spec_first_one, spec_read_ue, BitError, BitReader};
use crate::video::h264::context::Context;
use crate::video::h264::record::{
    scaling_lists_wf, PicParameterSet, PicParameterSetExtra, PicScalingMatrix, ScalingList,
    SeqParameterSet, SliceGroup, SliceGroupChangeType, SliceRect,
};
use crate::video::h264::sps::{read_scaling_list, read_u8_bits, ScalingMatrixError};
use vstd::prelude::*;

verus! {

/// An error while parsing a picture parameter set.
#[derive(Debug, Clone, Copy, PartialEq, Eq, Structural)]
pub enum PpsError {
    RbspReaderError(BitError),
    InvalidSliceGroupMapType(u32),
    /// `num_slice_groups_minus1` must be between 0 and 7.
    InvalidNumSliceGroupsMinus1(u32),
    /// A default-active reference-index count must be between 0 and 31.
    InvalidNumRefIdx(u32),
    InvalidSliceGroupChangeType(u32),
    /// The referenced sequence parameter set is not in the context.
    UnknownSeqParamSetId(u8),
    /// `pic_parameter_set_id` must be between 0 and 255.
    BadPicParamSetId(u32),
    /// `seq_parameter_set_id` must be between 0 and 31.
    BadSeqParamSetId(u32),
    ScalingMatrix(ScalingMatrixError),
    InvalidSecondChromaQpIndexOffset(i32),
    InvalidPicInitQpMinus26(i32),
    InvalidPicInitQsMinus26(i32),
    InvalidChromaQpIndexOffset(i32),
    InvalidRunLengthMinus1(u32),
    InvalidTopLeft(u32),
    InvalidBottomRight(u32),
    InvalidSliceGroupChangeRateMinus1(u32),
    /// Data other than the RBSP trailing bits followed the parameter set.
    RemainingData,
}

impl From<BitError> for PpsError {
    fn from(e: BitError) -> (r: PpsError) {
        PpsError::RbspReaderError(e)
    }
}

impl vstd::std_specs::convert::FromSpecImpl<BitError> for PpsError {
    open spec fn obeys_from_spec() -> bool {
        true
    }

    open spec fn from_spec(e: BitError) -> PpsError {
        PpsError::RbspReaderError(e)
    }
}

/// `PicSizeInMapUnits` of an SPS, computed without overflow.
fn pic_size_in_map_units(sps: &SeqParameterSet) -> (r: u64)
    requires
        sps.wf(),
    ensures
        r == (sps.pic_width_in_mbs_minus1 + 1) * (sps.pic_height_in_map_units_minus1 + 1),
{
    let w = sps.pic_width_in_mbs_minus1 as u64 + 1;
    let h = sps.pic_height_in_map_units_minus1 as u64 + 1;
    proof {
        assert(w * h <= 0xFFFF_FFFFu64 * 0xFFFF_FFFFu64) by (nonlinear_arith)
            requires
                1 <= w <= 0xFFFF_FFFFu64,
                1 <= h <= 0xFFFF_FFFFu64,
        ;
        assert(0xFFFF_FFFFu64 * 0xFFFF_FFFFu64 < 0x1_0000_0000_0000_0000);
    }
    w * h
}

/// Reads a slice rectangle of slice-group map type 2 and holds it to the
/// bounds the standard puts on it.
fn read_slice_rect(r: &mut BitReader, sps: &SeqParameterSet) -> (res: Result<SliceRect, PpsError>)
    requires
        old(r).wf(),
        sps.wf(),
    ensures
        final(r).wf(),
        final(r).spec_data() == old(r).spec_data(),
        res matches Err(e) ==> !(e is UnknownSeqParamSetId),
{
    let top_left = match r.read_ue() {
        Ok(v) => v,
        Err(e) => {
            return Err(PpsError::RbspReaderError(e));
        },
    };
    let bottom_right = match r.read_ue() {
        Ok(v) => v,
        Err(e) => {
            return Err(PpsError::RbspReaderError(e));
        },
    };
    if top_left > bottom_right {
        return Err(PpsError::InvalidTopLeft(top_left));
    }
    if bottom_right as u64 > pic_size_in_map_units(sps) {
        return Err(PpsError::InvalidBottomRight(bottom_right));
    }
    let width = sps.pic_width_in_mbs_minus1 as u64 + 1;
    if (top_left as u64) % width > (bottom_right as u64) % width {
        return Err(PpsError::InvalidTopLeft(top_left));
    }
    Ok(SliceRect { top_left, bottom_right })
}

/// How many bits an explicit slice-group id takes: the base-two logarithm,
/// rounded up, of the number of slice groups.
fn slice_group_id_bits(num_slice_groups_minus1: u32) -> (r: usize)
    requires
        1 <= num_slice_groups_minus1 <= 7,
    ensures
        1 <= r <= 3,
{
    if num_slice_groups_minus1 + 1 <= 2 {
        1
    } else if num_slice_groups_minus1 + 1 <= 4 {
        2
    } else {
        3
    }
}

/// Reads the slice-group map of a PPS with more than one slice group.
fn read_slice_group(r: &mut BitReader, num_slice_groups_minus1: u32, sps: &SeqParameterSet) -> (res:
    Result<SliceGroup, PpsError>)
    requires
        old(r).wf(),
        sps.wf(),
        1 <= num_slice_groups_minus1 <= 7,
    ensures
        final(r).wf(),
        final(r).spec_data() == old(r).spec_data(),
        res matches Err(e) ==> !(e is UnknownSeqParamSetId),
{
    let slice_group_map_type = match r.read_ue() {
        Ok(v) => v,
        Err(e) => {
            return Err(PpsError::RbspReaderError(e));
        },
    };
    if slice_group_map_type == 0 {
        let limit = pic_size_in_map_units(sps);
        let mut run_length_minus1: Vec<u32> = Vec::new();
        let mut i: u32 = 0;
        while i < num_slice_groups_minus1 + 1
            invariant
                r.wf(),
                r.spec_data() == old(r).spec_data(),
                num_slice_groups_minus1 <= 7,
                i <= num_slice_groups_minus1 + 1,
            decreases num_slice_groups_minus1 + 1 - i,
        {
            let v = match r.read_ue() {
                Ok(v) => v,
                Err(e) => {
                    return Err(PpsError::RbspReaderError(e));
                },
            };
            if v as u64 >= limit {
                return Err(PpsError::InvalidRunLengthMinus1(v));
            }
            run_length_minus1.push(v);
            i = i + 1;
        }
        Ok(SliceGroup::Interleaved { run_length_minus1 })
    } else if slice_group_map_type == 1 {
        Ok(SliceGroup::Dispersed { num_slice_groups_minus1 })
    } else if slice_group_map_type == 2 {
        let mut rectangles: Vec<SliceRect> = Vec::new();
        let mut i: u32 = 0;
        while i < num_slice_groups_minus1 + 1
            invariant
                r.wf(),
                sps.wf(),
                r.spec_data() == old(r).spec_data(),
                num_slice_groups_minus1 <= 7,
                i <= num_slice_groups_minus1 + 1,
            decreases num_slice_groups_minus1 + 1 - i,
        {
            let rect = match read_slice_rect(r, sps) {
                Ok(v) => v,
                Err(e) => {
                    return Err(e);
                },
            };
            rectangles.push(rect);
            i = i + 1;
        }
        Ok(SliceGroup::ForegroundAndLeftover { rectangles })
    } else if slice_group_map_type >= 3 && slice_group_map_type <= 5 {
        let change_type = if slice_group_map_type == 3 {
            SliceGroupChangeType::BoxOut
        } else if slice_group_map_type == 4 {
            SliceGroupChangeType::RasterScan
        } else {
            SliceGroupChangeType::WipeOut
        };
        let slice_group_change_direction_flag = match r.read_bit() {
            Ok(v) => v,
            Err(e) => {
                return Err(PpsError::RbspReaderError(e));
            },
        };
        let slice_group_change_rate_minus1 = match r.read_ue() {
            Ok(v) => v,
            Err(e) => {
                return Err(PpsError::RbspReaderError(e));
            },
        };
        if slice_group_change_rate_minus1 as u64 >= pic_size_in_map_units(sps) {
            return Err(
                PpsError::InvalidSliceGroupChangeRateMinus1(slice_group_change_rate_minus1),
            );
        }
        Ok(
            SliceGroup::Changing {
                change_type,
                num_slice_groups_minus1,
                slice_group_change_direction_flag,
                slice_group_change_rate_minus1,
            },
        )
    } else if slice_group_map_type == 6 {
        let pic_size_in_map_units_minus1 = match r.read_ue() {
            Ok(v) => v,
            Err(e) => {
                return Err(PpsError::RbspReaderError(e));
            },
        };
        let bits = slice_group_id_bits(num_slice_groups_minus1);
        let mut slice_group_id: Vec<u32> = Vec::new();
        let mut i: u64 = 0;
        let count = pic_size_in_map_units_minus1 as u64 + 1;
        while i < count
            invariant
                r.wf(),
                r.spec_data() == old(r).spec_data(),
                1 <= bits <= 3,
                i <= count,
            decreases count - i,
        {
            let v = match r.read_bits(bits) {
                Ok(v) => v,
                Err(e) => {
                    return Err(PpsError::RbspReaderError(e));
                },
            };
            slice_group_id.push(v);
            i = i + 1;
        }
        Ok(SliceGroup::ExplicitAssignment { num_slice_groups_minus1, slice_group_id })
    } else {
        Err(PpsError::InvalidSliceGroupMapType(slice_group_map_type))
    }
}

/// Reads the optional slice-group clause.
fn read_slice_groups(r: &mut BitReader, sps: &SeqParameterSet) -> (res: Result<
    Option<SliceGroup>,
    PpsError,
>)
    requires
        old(r).wf(),
        sps.wf(),
    ensures
        final(r).wf(),
        final(r).spec_data() == old(r).spec_data(),
        res matches Err(e) ==> !(e is UnknownSeqParamSetId),
        (spec_read_ue(old(r).spec_data(), old(r).spec_pos()) matches Ok(vp) ==> (vp.0 == 0 ==> res
            == Ok::<Option<SliceGroup>, PpsError>(None) && final(r).spec_pos() == vp.1)),
{
    let num_slice_groups_minus1 = match r.read_ue() {
        Ok(v) => v,
        Err(e) => {
            return Err(PpsError::RbspReaderError(e));
        },
    };
    if num_slice_groups_minus1 > 7 {
        return Err(PpsError::InvalidNumSliceGroupsMinus1(num_slice_groups_minus1));
    }
    if num_slice_groups_minus1 > 0 {
        match read_slice_group(r, num_slice_groups_minus1, sps) {
            Ok(g) => Ok(Some(g)),
            Err(e) => Err(e),
        }
    } else {
        Ok(None)
    }
}

/// Reads a default-active reference-index count and holds it to the
/// standard's bound of 31.
fn read_num_ref_idx(r: &mut BitReader) -> (res: Result<u32, PpsError>)
    requires
        old(r).wf(),
    ensures
        final(r).wf(),
        final(r).spec_data() == old(r).spec_data(),
        match res {
            Ok(v) => v <= 31 && (spec_read_ue(old(r).spec_data(), old(r).spec_pos()) matches Ok(vp)
                && v as nat == vp.0 && final(r).spec_pos() == vp.1),
            Err(e) => !(e is UnknownSeqParamSetId) && (match spec_read_ue(
                old(r).spec_data(),
                old(r).spec_pos(),
            ) {
                Ok(vp) => vp.0 > 31,
                Err(_) => true,
            }),
        },
{
    let val = match r.read_ue() {
        Ok(v) => v,
        Err(e) => {
            return Err(PpsError::RbspReaderError(e));
        },
    };
    if val > 31 {
        return Err(PpsError::InvalidNumRefIdx(val));
    }
    Ok(val)
}

/// Reads the PPS scaling matrix, if its flag is set: six 4x4 lists, then
/// two or six 8x8 lists when the 8x8 transform is enabled.
fn read_pic_scaling_matrix(
    r: &mut BitReader,
    sps: &SeqParameterSet,
    transform_8x8_mode_flag: bool,
) -> (res: Result<Option<PicScalingMatrix>, PpsError>)
    requires
        old(r).wf(),
    ensures
        final(r).wf(),
        final(r).spec_data() == old(r).spec_data(),
        match res {
            Ok(Some(m)) => m.wf(),
            Ok(None) => true,
            Err(e) => !(e is UnknownSeqParamSetId),
        },
{
    let present = match r.read_bit() {
        Ok(v) => v,
        Err(e) => {
            return Err(PpsError::RbspReaderError(e));
        },
    };
    if !present {
        return Ok(None);
    }
    let count: usize = if transform_8x8_mode_flag {
        if sps.chroma_info.chroma_format_idc == 3 {
            6
        } else {
            2
        }
    } else {
        0
    };
    let mut scaling_list4x4: Vec<ScalingList> = Vec::new();
    let mut scaling_list8x8: Vec<ScalingList> = Vec::new();
    let mut i: usize = 0;
    while i < 6 + count
        invariant
            r.wf(),
            r.spec_data() == old(r).spec_data(),
            count == 0 || count == 2 || count == 6,
            i <= 6 + count,
            scaling_list4x4@.len() == if i < 6 {
                i as int
            } else {
                6
            },
            scaling_list8x8@.len() == if i < 6 {
                0
            } else {
                i - 6
            },
            scaling_lists_wf(scaling_list4x4@, 16),
            scaling_lists_wf(scaling_list8x8@, 64),
        decreases 6 + count - i,
    {
        let present_i = match r.read_bit() {
            Ok(b) => b,
            Err(e) => {
                return Err(PpsError::RbspReaderError(e));
            },
        };
        if i < 6 {
            let l = match read_scaling_list(r, present_i, 16) {
                Ok(l) => l,
                Err(e) => {
                    return Err(PpsError::ScalingMatrix(e));
                },
            };
            scaling_list4x4.push(l);
        } else {
            let l = match read_scaling_list(r, present_i, 64) {
                Ok(l) => l,
                Err(e) => {
                    return Err(PpsError::ScalingMatrix(e));
                },
            };
            scaling_list8x8.push(l);
        }
        i = i + 1;
    }
    let scaling_list8x8 = if scaling_list8x8.len() == 0 {
        None
    } else {
        Some(scaling_list8x8)
    };
    Ok(Some(PicScalingMatrix { scaling_list4x4, scaling_list8x8 }))
}

/// Reads the PPS extension fields, present when more data follows the
/// redundant-picture-count flag.
fn read_extension(r: &mut BitReader, sps: &SeqParameterSet) -> (res: Result<
    Option<PicParameterSetExtra>,
    PpsError,
>)
    requires
        old(r).wf(),
    ensures
        final(r).wf(),
        final(r).spec_data() == old(r).spec_data(),
        match res {
            Ok(Some(ext)) => ext.wf(),
            Ok(None) => true,
            Err(e) => !(e is UnknownSeqParamSetId),
        },
        crate::video::h264::bits::spec_first_one(
            old(r).spec_data(),
            old(r).spec_pos() + 1,
            old(r).total_bits(),
        ) is None ==> res == Ok::<Option<PicParameterSetExtra>, PpsError>(None) && final(r).spec_pos() == old(r).spec_pos(),
{
    if !r.more_rbsp_data() {
        return Ok(None);
    }
    let transform_8x8_mode_flag = match r.read_bit() {
        Ok(v) => v,
        Err(e) => {
            return Err(PpsError::RbspReaderError(e));
        },
    };
    let pic_scaling_matrix = match read_pic_scaling_matrix(r, sps, transform_8x8_mode_flag) {
        Ok(v) => v,
        Err(e) => {
            return Err(e);
        },
    };
    let second_chroma_qp_index_offset = match r.read_se() {
        Ok(v) => v,
        Err(e) => {
            return Err(PpsError::RbspReaderError(e));
        },
    };
    if second_chroma_qp_index_offset < -12 || second_chroma_qp_index_offset > 12 {
        return Err(PpsError::InvalidSecondChromaQpIndexOffset(second_chroma_qp_index_offset));
    }
    Ok(
        Some(
            PicParameterSetExtra {
                transform_8x8_mode_flag,
                pic_scaling_matrix,
                second_chroma_qp_index_offset,
            },
        ),
    )
}


/// The parse of a plain picture parameter set: one whose grammar is
/// loop-free — a single slice group and no extension clause. Such an RBSP
/// parses successfully, against a context holding the referenced sequence
/// parameter set, to exactly this record; `None` places no claim on the
/// outcome.
pub open spec fn spec_plain_pps(ctx: Context, data: Seq<u8>) -> Option<PicParameterSet> {
    let total = (data.len() * 8) as int;
    match spec_read_ue(data, 0) {
        Err(_) => None,
        Ok(v0) => if v0.0 > 255 {
            None
        } else {
            match spec_read_ue(data, v0.1) {
                Err(_) => None,
                Ok(v1) => if v1.0 > 31 {
                    None
                } else {
                    match ctx.spec_sps(v1.0 as int) {
                        None => None,
                        Some(sps) => if v1.1 + 2 > total {
                            None
                        } else {
                            spec_plain_pps_tail(data, v0.0, v1.0, sps, v1.1)
                        },
                    }
                },
            }
        },
    }
}

/// The tail of a plain picture parameter set, from the entropy-coding flag
/// at bit position `p` on.
pub open spec fn spec_plain_pps_tail(
    data: Seq<u8>,
    pic_id: nat,
    seq_id: nat,
    sps: SeqParameterSet,
    p: int,
) -> Option<PicParameterSet> {
    let total = (data.len() * 8) as int;
    let entropy = bit_at(data, p);
    let bottom = bit_at(data, p + 1);
    match spec_read_ue(data, p + 2) {
        Err(_) => None,
        Ok(g) => if g.0 != 0 {
            None
        } else {
            match spec_read_ue(data, g.1) {
                Err(_) => None,
                Ok(l0) => if l0.0 > 31 {
                    None
                } else {
                    match spec_read_ue(data, l0.1) {
                        Err(_) => None,
                        Ok(l1) => if l1.0 > 31 || l1.1 + 3 > total {
                            None
                        } else {
                            let wp = bit_at(data, l1.1);
                            let bipred = bits_value(data, l1.1 + 1, 2);
                            match spec_read_ue(data, l1.1 + 3) {
                                Err(_) => None,
                                Ok(c0) => match spec_read_ue(data, c0.1) {
                                    Err(_) => None,
                                    Ok(c1) => match spec_read_ue(data, c1.1) {
                                        Err(_) => None,
                                        Ok(c2) => spec_plain_pps_end(
                                            data,
                                            pic_id,
                                            seq_id,
                                            sps,
                                            entropy,
                                            bottom,
                                            l0.0,
                                            l1.0,
                                            wp,
                                            bipred,
                                            golomb_signed(c0.0),
                                            golomb_signed(c1.0),
                                            golomb_signed(c2.0),
                                            c2.1,
                                        ),
                                    },
                                },
                            }
                        },
                    }
                },
            }
        },
    }
}

/// The end of a plain picture parameter set: the three deblocking flags at
/// bit position `p`, no extension, the standard's ranges on the quantiser
/// offsets, and the RBSP trailing bits.
pub open spec fn spec_plain_pps_end(
    data: Seq<u8>,
    pic_id: nat,
    seq_id: nat,
    sps: SeqParameterSet,
    entropy: bool,
    bottom: bool,
    l0: nat,
    l1: nat,
    wp: bool,
    bipred: nat,
    qp: int,
    qs: int,
    cqo: int,
    p: int,
) -> Option<PicParameterSet> {
    let total = (data.len() * 8) as int;
    let stop = p + 3;
    if p + 3 > total {
        None
    } else if spec_first_one(data, stop + 1, total) is Some {
        None
    } else if qp < -(26 + 6 * sps.chroma_info.bit_depth_luma_minus8) || qp > 25 {
        None
    } else if qs < -26 || qs > 25 {
        None
    } else if cqo < -12 || cqo > 12 {
        None
    } else if !(stop < total && bit_at(data, stop)) {
        None
    } else {
        Some(
            PicParameterSet {
                pic_parameter_set_id: pic_id as u8,
                seq_parameter_set_id: seq_id as u8,
                entropy_coding_mode_flag: entropy,
                bottom_field_pic_order_in_frame_present_flag: bottom,
                slice_groups: None,
                num_ref_idx_l0_default_active_minus1: l0 as u32,
                num_ref_idx_l1_default_active_minus1: l1 as u32,
                weighted_pred_flag: wp,
                weighted_bipred_idc: bipred as u8,
                pic_init_qp_minus26: qp as i32,
                pic_init_qs_minus26: qs as i32,
                chroma_qp_index_offset: cqo as i32,
                deblocking_filter_control_present_flag: bit_at(data, p),
                constrained_intra_pred_flag: bit_at(data, p + 1),
                redundant_pic_cnt_present_flag: bit_at(data, p + 2),
                extension: None,
            },
        )
    }
}

/// Parses the body of a picture parameter set after its two ids have been
/// read and the referenced sequence parameter set resolved.
#[verifier::rlimit(100)]
#[verifier::spinoff_prover]
fn parse_after_ids(pic_id: u32, seq_id: u32, sps: &SeqParameterSet, r: &mut BitReader) -> (res:
    Result<PicParameterSet, PpsError>)
    requires
        old(r).wf(),
        sps.wf(),
        pic_id <= 255,
        seq_id <= 31,
    ensures
        final(r).wf(),
        final(r).spec_data() == old(r).spec_data(),
        match res {
            Ok(pps) => pps.wf() && pps.pic_parameter_set_id == pic_id as u8
                && pps.seq_parameter_set_id == seq_id as u8,
            Err(e) => !(e is UnknownSeqParamSetId),
        },
        old(r).spec_pos() + 2 <= old(r).total_bits() ==> (spec_plain_pps_tail(
            old(r).spec_data(),
            pic_id as nat,
            seq_id as nat,
            *sps,
            old(r).spec_pos(),
        ) matches Some(pps) ==> res == Ok::<PicParameterSet, PpsError>(pps)),
{
        let entropy_coding_mode_flag = match r.read_bit() {
            Ok(v) => v,
            Err(e) => {
                return Err(PpsError::RbspReaderError(e));
            },
        };
        let bottom_field_pic_order_in_frame_present_flag = match r.read_bit() {
            Ok(v) => v,
            Err(e) => {
                return Err(PpsError::RbspReaderError(e));
            },
        };
        let slice_groups = match read_slice_groups(r, sps) {
            Ok(v) => v,
            Err(e) => {
                return Err(e);
            },
        };
        let num_ref_idx_l0_default_active_minus1 = match read_num_ref_idx(r) {
            Ok(v) => v,
            Err(e) => {
                return Err(e);
            },
        };
        let num_ref_idx_l1_default_active_minus1 = match read_num_ref_idx(r) {
            Ok(v) => v,
            Err(e) => {
                return Err(e);
            },
        };
        let weighted_pred_flag = match r.read_bit() {
            Ok(v) => v,
            Err(e) => {
                return Err(PpsError::RbspReaderError(e));
            },
        };
        let weighted_bipred_idc = match read_u8_bits(r, 2) {
            Ok(v) => v,
            Err(e) => {
                return Err(PpsError::RbspReaderError(e));
            },
        };
        proof {
            vstd::arithmetic::power2::lemma2_to64();
        }
        let pic_init_qp_minus26 = match r.read_se() {
            Ok(v) => v,
            Err(e) => {
                return Err(PpsError::RbspReaderError(e));
            },
        };
        let pic_init_qs_minus26 = match r.read_se() {
            Ok(v) => v,
            Err(e) => {
                return Err(PpsError::RbspReaderError(e));
            },
        };
        let chroma_qp_index_offset = match r.read_se() {
            Ok(v) => v,
            Err(e) => {
                return Err(PpsError::RbspReaderError(e));
            },
        };
        let deblocking_filter_control_present_flag = match r.read_bit() {
            Ok(v) => v,
            Err(e) => {
                return Err(PpsError::RbspReaderError(e));
            },
        };
        let constrained_intra_pred_flag = match r.read_bit() {
            Ok(v) => v,
            Err(e) => {
                return Err(PpsError::RbspReaderError(e));
            },
        };
        let redundant_pic_cnt_present_flag = match r.read_bit() {
            Ok(v) => v,
            Err(e) => {
                return Err(PpsError::RbspReaderError(e));
            },
        };
        let extension = match read_extension(r, sps) {
            Ok(v) => v,
            Err(e) => {
                return Err(e);
            },
        };
        let qp_bd_offset_y: i32 = 6 * (sps.chroma_info.bit_depth_luma_minus8 as i32);
        if pic_init_qp_minus26 < -(26 + qp_bd_offset_y) || pic_init_qp_minus26 > 25 {
            return Err(PpsError::InvalidPicInitQpMinus26(pic_init_qp_minus26));
        }
        if pic_init_qs_minus26 < -26 || pic_init_qs_minus26 > 25 {
            return Err(PpsError::InvalidPicInitQsMinus26(pic_init_qs_minus26));
        }
        if chroma_qp_index_offset < -12 || chroma_qp_index_offset > 12 {
            return Err(PpsError::InvalidChromaQpIndexOffset(chroma_qp_index_offset));
        }
        let pps = PicParameterSet {
            pic_parameter_set_id: #[verifier::truncate] (pic_id as u8),
            seq_parameter_set_id: #[verifier::truncate] (seq_id as u8),
            entropy_coding_mode_flag,
            bottom_field_pic_order_in_frame_present_flag,
            slice_groups,
            num_ref_idx_l0_default_active_minus1,
            num_ref_idx_l1_default_active_minus1,
            weighted_pred_flag,
            weighted_bipred_idc,
            pic_init_qp_minus26,
            pic_init_qs_minus26,
            chroma_qp_index_offset,
            deblocking_filter_control_present_flag,
            constrained_intra_pred_flag,
            redundant_pic_cnt_present_flag,
            extension,
        };
        match r.finish_rbsp() {
            Ok(()) => Ok(pps),
            Err(BitError::EndOfData) => Err(PpsError::RbspReaderError(BitError::EndOfData)),
            Err(_) => Err(PpsError::RemainingData),
        }
}

impl PicParameterSet {
    /// Parses a picture parameter set from its RBSP, resolving its
    /// referenced sequence parameter set in `ctx`.
    ///
    /// On success, the record is well formed, its ids hold exactly the
    /// values coded in the input, and the referenced sequence parameter set
    /// is in the context. The leading grammar also forces failures: an
    /// unreadable or out-of-range id yields exactly its error, and whenever
    /// both leading ids decode to values in range but the referenced
    /// sequence parameter set is absent, parsing fails with exactly the
    /// missing-reference error, whatever the rest of the input holds.
    /// Success is owed for every plain parameter set: an RBSP that
    /// [`spec_plain_pps`] accepts parses to exactly that record.
    #[verifier::rlimit(100)]
    #[verifier::spinoff_prover]
    pub fn from_bits(ctx: &Context, reader: BitReader) -> (res: Result<PicParameterSet, PpsError>)
        requires
            ctx.wf(),
            reader.wf(),
            reader.spec_pos() == 0,
        ensures
            match res {
                Ok(pps) => {
                    &&& pps.wf()
                    &&& ctx.spec_sps(pps.seq_parameter_set_id as int) is Some
                    &&& spec_read_ue(reader.spec_data(), 0) matches Ok(vp)
                        && pps.pic_parameter_set_id as nat == vp.0 && (spec_read_ue(
                        reader.spec_data(),
                        vp.1,
                    ) matches Ok(vp2) && pps.seq_parameter_set_id as nat == vp2.0)
                },
                Err(PpsError::UnknownSeqParamSetId(id)) => ctx.spec_sps(id as int) is None,
                Err(_) => true,
            },
            (spec_read_ue(reader.spec_data(), 0) matches Ok(vp) ==> vp.0 <= 255 ==> (spec_read_ue(
                reader.spec_data(),
                vp.1,
            ) matches Ok(vp2) ==> (vp2.0 <= 31 && ctx.spec_sps(vp2.0 as int) is None ==> res
                == Err::<PicParameterSet, PpsError>(PpsError::UnknownSeqParamSetId(vp2.0 as u8))))),
            spec_read_ue(reader.spec_data(), 0) matches Err(e) ==> res == Err::<
                PicParameterSet,
                PpsError,
            >(PpsError::RbspReaderError(e)),
            (spec_read_ue(reader.spec_data(), 0) matches Ok(vp) ==> (vp.0 > 255 ==> res == Err::<
                PicParameterSet,
                PpsError,
            >(PpsError::BadPicParamSetId(vp.0 as u32)))),
            (spec_read_ue(reader.spec_data(), 0) matches Ok(vp) ==> vp.0 <= 255 ==> (spec_read_ue(
                reader.spec_data(),
                vp.1,
            ) matches Err(e) ==> res == Err::<PicParameterSet, PpsError>(
                PpsError::RbspReaderError(e),
            ))),
            (spec_read_ue(reader.spec_data(), 0) matches Ok(vp) ==> vp.0 <= 255 ==> (spec_read_ue(
                reader.spec_data(),
                vp.1,
            ) matches Ok(vp2) ==> (vp2.0 > 31 ==> res == Err::<PicParameterSet, PpsError>(
                PpsError::BadSeqParamSetId(vp2.0 as u32),
            )))),
            spec_plain_pps(*ctx, reader.spec_data()) matches Some(pps) ==> res == Ok::<
                PicParameterSet,
                PpsError,
            >(pps),
    {
        let mut r = reader;
        let pic_id = match r.read_ue() {
            Ok(v) => v,
            Err(e) => {
                return Err(PpsError::RbspReaderError(e));
            },
        };
        if pic_id > 255 {
            return Err(PpsError::BadPicParamSetId(pic_id));
        }
        let seq_id = match r.read_ue() {
            Ok(v) => v,
            Err(e) => {
                return Err(PpsError::RbspReaderError(e));
            },
        };
        if seq_id > 31 {
            return Err(PpsError::BadSeqParamSetId(seq_id));
        }
        let sps = match ctx.sps_by_id(seq_id as u8) {
            Some(sps) => sps,
            None => {
                return Err(PpsError::UnknownSeqParamSetId(seq_id as u8));
            },
        };
        proof {
            assert(ctx.spec_sps_table()[seq_id as int] is Some);
            assert(sps.wf());
        }
        parse_after_ids(pic_id, seq_id, sps, &mut r)
    }
}

} // verus!
