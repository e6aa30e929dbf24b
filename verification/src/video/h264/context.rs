//! The running parameter context: the most recently parsed sequence and
//! picture parameter sets, keyed by their ids.
use crate::video::h264::record::{PicParameterSet, SeqParameterSet};
use vstd::prelude::*;

verus! {

/// How many distinct sequence-parameter-set ids the standard allows.
pub const MAX_SPS_COUNT: usize = 32;

/// How many distinct picture-parameter-set ids the standard allows.
pub const MAX_PPS_COUNT: usize = 256;

/// How many entries of `s` hold a value.
pub open spec fn spec_count_some<A>(s: Seq<Option<A>>) -> int
    decreases s.len(),
{
    if s.len() == 0 {
        0
    } else {
        spec_count_some(s.drop_last()) + (if s.last() is Some {
            1int
        } else {
            0int
        })
    }
}

/// Mutable mapping from parameter-set id to the most recently parsed
/// SPS/PPS record.
pub struct Context {
    sps: Vec<Option<SeqParameterSet>>,
    pps: Vec<Option<PicParameterSet>>,
}

impl Context {
    /// The stored sequence parameter sets, by id.
    pub closed spec fn spec_sps_table(&self) -> Seq<Option<SeqParameterSet>> {
        self.sps@
    }

    /// The stored picture parameter sets, by id.
    pub closed spec fn spec_pps_table(&self) -> Seq<Option<PicParameterSet>> {
        self.pps@
    }

    /// The sequence parameter set stored under `id`, if any.
    pub open spec fn spec_sps(&self, id: int) -> Option<SeqParameterSet> {
        if 0 <= id < MAX_SPS_COUNT {
            self.spec_sps_table()[id]
        } else {
            None
        }
    }

    /// The picture parameter set stored under `id`, if any.
    pub open spec fn spec_pps(&self, id: int) -> Option<PicParameterSet> {
        if 0 <= id < MAX_PPS_COUNT {
            self.spec_pps_table()[id]
        } else {
            None
        }
    }

    /// The context is sound: the tables span the id spaces, and each stored
    /// record is well formed and stored under its own id.
    pub open spec fn wf(&self) -> bool {
        &&& self.spec_sps_table().len() == MAX_SPS_COUNT
        &&& self.spec_pps_table().len() == MAX_PPS_COUNT
        &&& forall|i: int|
            0 <= i < MAX_SPS_COUNT ==> match #[trigger] self.spec_sps_table()[i] {
                Some(sps) => sps.wf() && sps.seq_parameter_set_id == i,
                None => true,
            }
        &&& forall|i: int|
            0 <= i < MAX_PPS_COUNT ==> match #[trigger] self.spec_pps_table()[i] {
                Some(pps) => pps.wf() && pps.pic_parameter_set_id == i,
                None => true,
            }
    }

    /// An empty context.
    pub fn new() -> (r: Context)
        ensures
            r.wf(),
            forall|i: int| r.spec_sps(i) is None,
            forall|i: int| r.spec_pps(i) is None,
    {
        let mut sps: Vec<Option<SeqParameterSet>> = Vec::new();
        let mut i: usize = 0;
        while i < MAX_SPS_COUNT
            invariant
                i <= MAX_SPS_COUNT,
                sps@.len() == i as int,
                forall|j: int| 0 <= j < i ==> sps@[j] is None,
            decreases MAX_SPS_COUNT - i,
        {
            sps.push(None);
            i = i + 1;
        }
        let mut pps: Vec<Option<PicParameterSet>> = Vec::new();
        let mut j: usize = 0;
        while j < MAX_PPS_COUNT
            invariant
                j <= MAX_PPS_COUNT,
                pps@.len() == j as int,
                forall|k: int| 0 <= k < j ==> pps@[k] is None,
            decreases MAX_PPS_COUNT - j,
        {
            pps.push(None);
            j = j + 1;
        }
        Context { sps, pps }
    }

    /// Stores `sps` under its id, replacing what was there.
    pub fn put_seq_param_set(&mut self, sps: SeqParameterSet)
        requires
            old(self).wf(),
            sps.wf(),
        ensures
            final(self).wf(),
            final(self).spec_sps_table() == old(self).spec_sps_table().update(
                sps.seq_parameter_set_id as int,
                Some(sps),
            ),
            final(self).spec_pps_table() == old(self).spec_pps_table(),
    {
        let id = sps.id();
        self.sps[id as usize] = Some(sps);
    }

    /// Stores `pps` under its id, replacing what was there.
    pub fn put_pic_param_set(&mut self, pps: PicParameterSet)
        requires
            old(self).wf(),
            pps.wf(),
        ensures
            final(self).wf(),
            final(self).spec_pps_table() == old(self).spec_pps_table().update(
                pps.pic_parameter_set_id as int,
                Some(pps),
            ),
            final(self).spec_sps_table() == old(self).spec_sps_table(),
    {
        let id = pps.id();
        self.pps[id as usize] = Some(pps);
    }

    /// Looks up the sequence parameter set stored under `id`.
    pub fn sps_by_id(&self, id: u8) -> (r: Option<&SeqParameterSet>)
        requires
            self.wf(),
        ensures
            match r {
                Some(sps) => self.spec_sps(id as int) == Some(*sps),
                None => self.spec_sps(id as int) is None,
            },
    {
        if (id as usize) < MAX_SPS_COUNT {
            match &self.sps[id as usize] {
                Some(sps) => Some(sps),
                None => None,
            }
        } else {
            None
        }
    }

    /// Looks up the picture parameter set stored under `id`.
    pub fn pps_by_id(&self, id: u8) -> (r: Option<&PicParameterSet>)
        requires
            self.wf(),
        ensures
            match r {
                Some(pps) => self.spec_pps(id as int) == Some(*pps),
                None => self.spec_pps(id as int) is None,
            },
    {
        match &self.pps[id as usize] {
            Some(pps) => Some(pps),
            None => None,
        }
    }

    /// How many sequence parameter sets the context holds.
    pub fn sps_count(&self) -> (r: usize)
        requires
            self.wf(),
        ensures
            r == spec_count_some(self.spec_sps_table()),
    {
        let mut count: usize = 0;
        let mut i: usize = 0;
        while i < MAX_SPS_COUNT
            invariant
                self.wf(),
                i <= MAX_SPS_COUNT,
                count <= i,
                count == spec_count_some(self.spec_sps_table().take(i as int)),
            decreases MAX_SPS_COUNT - i,
        {
            proof {
                assert(self.spec_sps_table().take(i + 1).drop_last() =~= self.spec_sps_table().take(
                    i as int,
                ));
                assert(self.spec_sps_table().take(i + 1).last() == self.spec_sps_table()[i as int]);
            }
            if self.sps[i].is_some() {
                count = count + 1;
            }
            i = i + 1;
        }
        proof {
            assert(self.spec_sps_table().take(MAX_SPS_COUNT as int) =~= self.spec_sps_table());
        }
        count
    }

    /// How many picture parameter sets the context holds.
    pub fn pps_count(&self) -> (r: usize)
        requires
            self.wf(),
        ensures
            r == spec_count_some(self.spec_pps_table()),
    {
        let mut count: usize = 0;
        let mut i: usize = 0;
        while i < MAX_PPS_COUNT
            invariant
                self.wf(),
                i <= MAX_PPS_COUNT,
                count <= i,
                count == spec_count_some(self.spec_pps_table().take(i as int)),
            decreases MAX_PPS_COUNT - i,
        {
            proof {
                assert(self.spec_pps_table().take(i + 1).drop_last() =~= self.spec_pps_table().take(
                    i as int,
                ));
                assert(self.spec_pps_table().take(i + 1).last() == self.spec_pps_table()[i as int]);
            }
            if self.pps[i].is_some() {
                count = count + 1;
            }
            i = i + 1;
        }
        proof {
            assert(self.spec_pps_table().take(MAX_PPS_COUNT as int) =~= self.spec_pps_table());
        }
        count
    }
}

} // verus!
