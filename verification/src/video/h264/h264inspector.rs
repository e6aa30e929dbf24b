//! Feeding NAL units into a running parameter context: sequence and picture
//! parameter sets are parsed and stored by id; every other NAL type is
//! ignored; a failed parse reports its error and leaves the context exactly
//! as it was.
use crate::video::h264::context::Context;
use crate::video::h264::pps::{spec_plain_pps, PpsError};
use crate::video::h264::rbsp::{rbsp_of, unescape_rbsp};
use crate::video::h264::record::{PicParameterSet, SeqParameterSet};
use crate::video::h264::sps::SpsError;
use crate::video::h264::bits::{spec_read_ue, BitError, BitReader};
use vstd::prelude::*;
use vstd::slice::{slice_index_get, slice_subrange};

verus! {

/// The NAL unit type `sequence parameter set`.
pub const NAL_TYPE_SEQ_PARAMETER_SET: u8 = 7;

/// The NAL unit type `picture parameter set`.
pub const NAL_TYPE_PIC_PARAMETER_SET: u8 = 8;

/// An error in the one-byte NAL unit header.
#[derive(Debug, Clone, Copy, PartialEq, Eq, Structural)]
pub enum NalHeaderError {
    /// The unit holds no header byte at all.
    Empty,
    /// The `forbidden_zero_bit` of the header was set.
    ForbiddenZeroBit(u8),
}

/// An error while feeding one NAL unit into the context.
#[derive(Debug, Clone, Copy, PartialEq, Eq, Structural)]
pub enum FeedError {
    NalHeader(NalHeaderError),
    Sps(SpsError),
    Pps(PpsError),
}

/// The body of a NAL unit as emitted by the segmenter: the unit with its
/// three-byte start code stripped, if it carries one.
pub open spec fn spec_nal_body(nal: Seq<u8>) -> Seq<u8> {
    if nal.len() >= 3 && nal[0] == 0u8 && nal[1] == 0u8 && nal[2] == 1u8 {
        nal.skip(3)
    } else {
        nal
    }
}

/// The RBSP of a NAL body: the payload after the header byte, unescaped.
pub open spec fn spec_nal_rbsp(body: Seq<u8>) -> Seq<u8> {
    rbsp_of(body.skip(1))
}

/// Parses H.264 NAL units and keeps the running parameter context that
/// decode-session parameters are derived from.
pub struct H264StreamInspector {
    h264_context: Context,
}

impl H264StreamInspector {
    /// The running parameter context.
    pub closed spec fn spec_context(&self) -> Context {
        self.h264_context
    }

    /// The inspector is sound: its context is.
    pub open spec fn wf(&self) -> bool {
        self.spec_context().wf()
    }

    /// An inspector with an empty context.
    pub fn new() -> (r: H264StreamInspector)
        ensures
            r.wf(),
            forall|i: int| r.spec_context().spec_sps(i) is None,
            forall|i: int| r.spec_context().spec_pps(i) is None,
    {
        H264StreamInspector { h264_context: Context::new() }
    }

    /// The running parameter context.
    pub fn context(&self) -> (r: &Context)
        ensures
            *r == self.spec_context(),
    {
        &self.h264_context
    }

    /// Feeds one NAL unit into the context.
    ///
    /// The unit may carry its three-byte start code, as the segmenter emits
    /// it; the start code is skipped. A sequence or picture parameter set is
    /// parsed and stored under its id; any other NAL type is ignored —
    /// always successfully. A header error comes exactly on a missing
    /// header byte or a set forbidden bit; a parse error always carries the
    /// kind of the NAL type that failed; a picture parameter set whose
    /// readable ids are in range but whose referenced sequence parameter
    /// set is absent fails with exactly the missing-reference error. On
    /// any error the context is left exactly as it was.
    pub fn feed_nal(&mut self, nal: &[u8]) -> (r: Result<(), FeedError>)
        requires
            old(self).wf(),
            nal@.len() <= 0x1000_0000,
        ensures
            final(self).wf(),
            ({
                let body = spec_nal_body(nal@);
                &&& (body.len() == 0 ==> r == Err::<(), FeedError>(
                    FeedError::NalHeader(NalHeaderError::Empty),
                ))
                &&& (body.len() > 0 && body[0] >> 7u8 != 0u8 ==> r == Err::<(), FeedError>(
                    FeedError::NalHeader(NalHeaderError::ForbiddenZeroBit(body[0])),
                ))
                &&& (body.len() > 0 && body[0] >> 7u8 == 0u8 && body[0] & 0x1Fu8
                    != NAL_TYPE_SEQ_PARAMETER_SET && body[0] & 0x1Fu8 != NAL_TYPE_PIC_PARAMETER_SET
                    ==> r == Ok::<(), FeedError>(()))
            }),
            ({
                let body = spec_nal_body(nal@);
                let rbsp = spec_nal_rbsp(body);
                body.len() > 0 && body[0] >> 7u8 == 0u8 && body[0] & 0x1Fu8
                    == NAL_TYPE_SEQ_PARAMETER_SET ==> {
                    &&& (rbsp.len() * 8 < 24 ==> r == Err::<(), FeedError>(
                        FeedError::Sps(SpsError::ReaderError(BitError::EndOfData)),
                    ))
                    &&& (rbsp.len() * 8 >= 24 ==> (spec_read_ue(rbsp, 24) matches Err(e) ==> r
                        == Err::<(), FeedError>(FeedError::Sps(SpsError::ReaderError(e)))))
                    &&& (spec_read_ue(rbsp, 24) matches Ok(vp) ==> (vp.0 > 31 ==> r == Err::<
                        (),
                        FeedError,
                    >(FeedError::Sps(SpsError::BadSeqParamSetId(vp.0 as u32)))))
                }
            }),
            ({
                let body = spec_nal_body(nal@);
                let rbsp = spec_nal_rbsp(body);
                body.len() > 0 && body[0] >> 7u8 == 0u8 && body[0] & 0x1Fu8
                    == NAL_TYPE_PIC_PARAMETER_SET ==> {
                    &&& (spec_read_ue(rbsp, 0) matches Err(e) ==> r == Err::<(), FeedError>(
                        FeedError::Pps(PpsError::RbspReaderError(e)),
                    ))
                    &&& (spec_read_ue(rbsp, 0) matches Ok(vp) ==> (vp.0 > 255 ==> r == Err::<
                        (),
                        FeedError,
                    >(FeedError::Pps(PpsError::BadPicParamSetId(vp.0 as u32)))))
                    &&& (spec_read_ue(rbsp, 0) matches Ok(vp) ==> vp.0 <= 255 ==> (spec_read_ue(
                        rbsp,
                        vp.1,
                    ) matches Err(e) ==> r == Err::<(), FeedError>(
                        FeedError::Pps(PpsError::RbspReaderError(e)),
                    )))
                    &&& (spec_read_ue(rbsp, 0) matches Ok(vp) ==> vp.0 <= 255 ==> (spec_read_ue(
                        rbsp,
                        vp.1,
                    ) matches Ok(vp2) ==> (vp2.0 > 31 ==> r == Err::<(), FeedError>(
                        FeedError::Pps(PpsError::BadSeqParamSetId(vp2.0 as u32)),
                    ))))
                    &&& (spec_read_ue(rbsp, 0) matches Ok(vp) ==> vp.0 <= 255 ==> (spec_read_ue(
                        rbsp,
                        vp.1,
                    ) matches Ok(vp2) ==> (vp2.0 <= 31 && old(self).spec_context().spec_sps(
                        vp2.0 as int,
                    ) is None ==> r == Err::<(), FeedError>(
                        FeedError::Pps(PpsError::UnknownSeqParamSetId(vp2.0 as u8)),
                    ))))
                    &&& (spec_plain_pps(old(self).spec_context(), rbsp) matches Some(pps) ==> {
                        &&& r == Ok::<(), FeedError>(())
                        &&& final(self).spec_context().spec_pps_table() == old(
                            self,
                        ).spec_context().spec_pps_table().update(
                            pps.pic_parameter_set_id as int,
                            Some(pps),
                        )
                        &&& final(self).spec_context().spec_sps_table() == old(
                            self,
                        ).spec_context().spec_sps_table()
                    })
                }
            }),
            ({
                let body = spec_nal_body(nal@);
                let rbsp = spec_nal_rbsp(body);
                match r {
                    Err(e) => *final(self) == *old(self) && (match e {
                        FeedError::NalHeader(NalHeaderError::Empty) => body.len() == 0,
                        FeedError::NalHeader(NalHeaderError::ForbiddenZeroBit(h)) => body.len() > 0
                            && h == body[0] && body[0] >> 7u8 != 0u8,
                        FeedError::Sps(_) => body.len() > 0 && body[0] >> 7u8 == 0u8 && body[0]
                            & 0x1Fu8 == NAL_TYPE_SEQ_PARAMETER_SET,
                        FeedError::Pps(pe) => body.len() > 0 && body[0] >> 7u8 == 0u8 && body[0]
                            & 0x1Fu8 == NAL_TYPE_PIC_PARAMETER_SET && (match pe {
                            PpsError::UnknownSeqParamSetId(id) => old(self).spec_context().spec_sps(
                                id as int,
                            ) is None,
                            _ => true,
                        }),
                    }),
                    Ok(()) => {
                        let t = body[0] & 0x1Fu8;
                        &&& body.len() > 0
                        &&& body[0] >> 7u8 == 0u8
                        &&& (t != NAL_TYPE_SEQ_PARAMETER_SET && t != NAL_TYPE_PIC_PARAMETER_SET
                            ==> *final(self) == *old(self))
                        &&& (t == NAL_TYPE_SEQ_PARAMETER_SET ==> exists|sps: SeqParameterSet|
                            {
                                &&& sps.wf()
                                &&& #[trigger] final(self).spec_context().spec_sps_table() == old(
                                    self,
                                ).spec_context().spec_sps_table().update(
                                    sps.seq_parameter_set_id as int,
                                    Some(sps),
                                )
                                &&& final(self).spec_context().spec_pps_table() == old(
                                    self,
                                ).spec_context().spec_pps_table()
                                &&& (spec_read_ue(rbsp, 24) matches Ok(vp)
                                    && sps.seq_parameter_set_id as nat == vp.0)
                            })
                        &&& (t == NAL_TYPE_PIC_PARAMETER_SET ==> exists|pps: PicParameterSet|
                            {
                                &&& pps.wf()
                                &&& #[trigger] final(self).spec_context().spec_pps_table() == old(
                                    self,
                                ).spec_context().spec_pps_table().update(
                                    pps.pic_parameter_set_id as int,
                                    Some(pps),
                                )
                                &&& final(self).spec_context().spec_sps_table() == old(
                                    self,
                                ).spec_context().spec_sps_table()
                                &&& old(self).spec_context().spec_sps(
                                    pps.seq_parameter_set_id as int,
                                ) is Some
                                &&& (spec_read_ue(rbsp, 0) matches Ok(vp)
                                    && pps.pic_parameter_set_id as nat == vp.0 && (spec_read_ue(
                                    rbsp,
                                    vp.1,
                                ) matches Ok(vp2) && pps.seq_parameter_set_id as nat == vp2.0))
                            })
                    },
                }
            }),
    {
        let body: &[u8] = if nal.len() >= 3 && *slice_index_get(nal, 0) == 0u8 && *slice_index_get(
            nal,
            1,
        ) == 0u8 && *slice_index_get(nal, 2) == 1u8 {
            slice_subrange(nal, 3, nal.len())
        } else {
            nal
        };
        proof {
            assert(body@ =~= spec_nal_body(nal@));
        }
        if body.len() == 0 {
            return Err(FeedError::NalHeader(NalHeaderError::Empty));
        }
        let header = *slice_index_get(body, 0);
        if header >> 7u8 != 0u8 {
            return Err(FeedError::NalHeader(NalHeaderError::ForbiddenZeroBit(header)));
        }
        let nal_unit_type = header & 0x1Fu8;
        if nal_unit_type == NAL_TYPE_SEQ_PARAMETER_SET {
            let payload = slice_subrange(body, 1, body.len());
            proof {
                assert(payload@ =~= spec_nal_body(nal@).skip(1));
            }
            let rbsp = unescape_rbsp(payload);
            let reader = BitReader::new(rbsp.as_slice());
            match SeqParameterSet::from_bits(reader) {
                Ok(sps) => {
                    let ghost w = sps;
                    self.h264_context.put_seq_param_set(sps);
                    proof {
                        assert(self.spec_context().spec_sps_table() == old(
                            self,
                        ).spec_context().spec_sps_table().update(
                            w.seq_parameter_set_id as int,
                            Some(w),
                        ));
                    }
                    Ok(())
                },
                Err(e) => Err(FeedError::Sps(e)),
            }
        } else if nal_unit_type == NAL_TYPE_PIC_PARAMETER_SET {
            let payload = slice_subrange(body, 1, body.len());
            proof {
                assert(payload@ =~= spec_nal_body(nal@).skip(1));
            }
            let rbsp = unescape_rbsp(payload);
            let reader = BitReader::new(rbsp.as_slice());
            match PicParameterSet::from_bits(&self.h264_context, reader) {
                Ok(pps) => {
                    let ghost w = pps;
                    self.h264_context.put_pic_param_set(pps);
                    proof {
                        assert(self.spec_context().spec_pps_table() == old(
                            self,
                        ).spec_context().spec_pps_table().update(
                            w.pic_parameter_set_id as int,
                            Some(w),
                        ));
                    }
                    Ok(())
                },
                Err(e) => Err(FeedError::Pps(e)),
            }
        } else {
            Ok(())
        }
    }
}

} // verus!
