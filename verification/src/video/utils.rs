//! Splitting a raw H.264 Annex-B byte stream into NAL units.
//!
//! A unit boundary is recognised after at least two consecutive zero bytes
//! followed by a `1` byte. The emitted slice for a unit spans from its own
//! three-byte start code up to (but not including) the start code of the next
//! unit, or to the end of the buffer for the last unit. A buffer with no
//! start code yields no units; bytes before the first start code are skipped.
//! Nothing is copied: every unit borrows from the source buffer.
use vstd::prelude::*;
use vstd::slice::{slice_index_get, slice_subrange};

verus! {

/// Holds when a unit starts just before offset `o` of `s`: the three bytes
/// `0, 0, 1` end at `o`, wholly at or after the scan start `from`.
pub open spec fn is_unit_start_from(s: Seq<u8>, from: int, o: int) -> bool {
    &&& from + 3 <= o <= s.len()
    &&& s[o - 3] == 0u8
    &&& s[o - 2] == 0u8
    &&& s[o - 1] == 1u8
}

/// Holds when a unit starts just before offset `o` of `s`.
pub open spec fn is_unit_start(s: Seq<u8>, o: int) -> bool {
    is_unit_start_from(s, 0, o)
}

/// The first offset at or after `from + 3` where a unit starts, if any.
pub open spec fn spec_next_offset(s: Seq<u8>, from: int) -> Option<int>
    decreases s.len() - from when from >= 0
{
    if from + 3 > s.len() {
        None
    } else if s[from] == 0u8 && s[from + 1] == 0u8 && s[from + 2] == 1u8 {
        Some(from + 3)
    } else {
        spec_next_offset(s, from + 1)
    }
}

/// `spec_next_offset` finds exactly the least unit start at or after `from`.
pub proof fn lemma_next_offset_characterization(s: Seq<u8>, from: int)
    requires
        from >= 0,
    ensures
        match spec_next_offset(s, from) {
            None => forall|o: int| !is_unit_start_from(s, from, o),
            Some(o) => is_unit_start_from(s, from, o) && (forall|o2: int|
                is_unit_start_from(s, from, o2) ==> o <= o2),
        },
    decreases s.len() - from,
{
    if from + 3 > s.len() {
        assert(forall|o: int| is_unit_start_from(s, from, o) ==> from + 3 <= o <= s.len());
    } else if s[from] == 0u8 && s[from + 1] == 0u8 && s[from + 2] == 1u8 {
        assert(is_unit_start_from(s, from, from + 3));
    } else {
        lemma_next_offset_characterization(s, from + 1);
        assert forall|o: int| is_unit_start_from(s, from, o) implies is_unit_start_from(
            s,
            from + 1,
            o,
        ) by {
            if o == from + 3 {
                assert(!(s[from] == 0u8 && s[from + 1] == 0u8 && s[from + 2] == 1u8));
            }
        }
    }
}

/// The unit of `s` that starts just before offset `o`, where the unit after
/// it starts just before `next` (`None` for the last unit): the slice from
/// the first byte of its own start code up to the next unit's start code.
pub open spec fn spec_unit_at(s: Seq<u8>, o: int, next: Option<int>) -> Seq<u8> {
    match next {
        Some(n) => s.subrange(o - 3, n - 3),
        None => s.subrange(o - 3, s.len() as int),
    }
}

/// The units still to be emitted when the next unit starts just before `o`
/// (`None` when the scan is over).
pub open spec fn spec_units_from(s: Seq<u8>, start: Option<int>) -> Seq<Seq<u8>>
    decreases (match start {
        Some(o) => s.len() - o + 1,
        None => 0,
    }) when (match start {
        Some(o) => 3 <= o <= s.len(),
        None => true,
    })
{
    match start {
        None => Seq::empty(),
        Some(o) => {
            let next = spec_next_offset(s, o);
            seq![spec_unit_at(s, o, next)] + (match next {
                Some(n) => if o < n <= s.len() {
                    spec_units_from(s, Some(n))
                } else {
                    Seq::empty()
                },
                None => Seq::empty(),
            })
        },
    }
}

/// All NAL units of the buffer `s`, in order.
pub open spec fn spec_units(s: Seq<u8>) -> Seq<Seq<u8>> {
    spec_units_from(s, spec_next_offset(s, 0))
}

/// A unit start found by `spec_next_offset` lies in `[from + 3, s.len()]`.
proof fn lemma_next_offset_in_range(s: Seq<u8>, from: int)
    requires
        from >= 0,
        spec_next_offset(s, from) is Some,
    ensures
        from + 3 <= spec_next_offset(s, from)->Some_0 <= s.len(),
    decreases s.len() - from,
{
    if from + 3 > s.len() {
    } else if s[from] == 0u8 && s[from + 1] == 0u8 && s[from + 2] == 1u8 {
    } else {
        lemma_next_offset_in_range(s, from + 1);
    }
}

/// Scans `stream` from index `from` and returns the offset just past the
/// next three-byte start code, if one exists.
pub fn next_offset(stream: &[u8], from: usize) -> (r: Option<usize>)
    ensures
        match r {
            Some(o) => Some(o as int) == spec_next_offset(stream@, from as int),
            None => spec_next_offset(stream@, from as int) is None,
        },
{
    let len = stream.len();
    let mut i = from;
    loop
        invariant
            from <= i,
            i <= len || len < from,
            len == stream@.len(),
            spec_next_offset(stream@, from as int) == spec_next_offset(stream@, i as int),
        decreases len - i,
    {
        if i >= len || len - i < 3 {
            return None;
        }
        if *slice_index_get(stream, i) == 0u8 && *slice_index_get(stream, i + 1) == 0u8
            && *slice_index_get(stream, i + 2) == 1u8 {
            return Some(i + 3);
        }
        i = i + 1;
    }
}

/// The not-yet-emitted tail of a segmentation, as `nal_units` begins it.
///
/// Yields each unit of the stream in order through [`NalUnits::next`];
/// restart from scratch by calling [`nal_units`] on the same buffer again.
pub struct NalUnits<'a> {
    stream: &'a [u8],
    next_start: Option<usize>,
}

impl<'a> NalUnits<'a> {
    /// The source buffer this segmentation borrows from.
    pub closed spec fn spec_stream(&self) -> Seq<u8> {
        self.stream@
    }

    /// The internal scan position: the start offset of the next unit.
    pub closed spec fn spec_next_start(&self) -> Option<int> {
        match self.next_start {
            Some(o) => Some(o as int),
            None => None,
        }
    }

    /// The segmentation state is sound: the stored offset is a unit start.
    pub open spec fn wf(&self) -> bool {
        match self.spec_next_start() {
            Some(o) => is_unit_start(self.spec_stream(), o),
            None => true,
        }
    }

    /// The units this segmentation has yet to emit.
    pub open spec fn remaining(&self) -> Seq<Seq<u8>> {
        spec_units_from(self.spec_stream(), self.spec_next_start())
    }

    /// Emits the next NAL unit, or `None` when the stream is exhausted.
    pub fn next(&mut self) -> (r: Option<&'a [u8]>)
        requires
            old(self).wf(),
        ensures
            final(self).wf(),
            final(self).spec_stream() == old(self).spec_stream(),
            match r {
                Some(unit) => old(self).remaining().len() > 0 && unit@ == old(
                    self,
                ).remaining().first() && final(self).remaining() == old(
                    self,
                ).remaining().drop_first(),
                None => old(self).remaining().len() == 0 && final(self).remaining() == old(
                    self,
                ).remaining(),
            },
    {
        match self.next_start {
            None => None,
            Some(o) => {
                let ghost s = self.stream@;
                let next = next_offset(self.stream, o);
                proof {
                    lemma_next_offset_characterization(s, o as int);
                    if spec_next_offset(s, o as int) is Some {
                        lemma_next_offset_in_range(s, o as int);
                    }
                }
                let unit = match next {
                    Some(n) => slice_subrange(self.stream, o - 3, n - 3),
                    None => slice_subrange(self.stream, o - 3, self.stream.len()),
                };
                self.next_start = next;
                proof {
                    let x = spec_unit_at(s, o as int, spec_next_offset(s, o as int));
                    let t = self.remaining();
                    assert(old(self).remaining() == seq![x] + t);
                    assert((seq![x] + t).drop_first() =~= t);
                    assert((seq![x] + t).first() == x);
                }
                Some(unit)
            },
        }
    }
}

/// Splits a bitstream into NAL units.
///
/// Given a bitstream (`001` being the NAL start prefix code)
///
/// ```text
/// ......001.........001......001.....
/// ```
///
/// the returned segmentation emits the packets
///
/// ```text
///       [001.........][001......][001.....]
/// ```
///
/// Incomplete data before the first start code is skipped; units in the
/// middle are split at their boundaries; the last unit runs to the end of
/// the buffer.
pub fn nal_units<'a>(stream: &'a [u8]) -> (r: NalUnits<'a>)
    ensures
        r.wf(),
        r.spec_stream() == stream@,
        r.remaining() == spec_units(stream@),
{
    let next_start = next_offset(stream, 0);
    proof {
        lemma_next_offset_characterization(stream@, 0);
        if spec_next_offset(stream@, 0) is Some {
            lemma_next_offset_in_range(stream@, 0);
        }
    }
    NalUnits { stream, next_start }
}

/// A buffer without any start code yields no units at all.
pub proof fn lemma_no_start_code_no_units(s: Seq<u8>)
    requires
        forall|o: int| !is_unit_start(s, o),
    ensures
        spec_units(s).len() == 0,
{
    lemma_next_offset_characterization(s, 0);
    match spec_next_offset(s, 0) {
        None => {},
        Some(o) => {
            assert(is_unit_start(s, o));
            assert(false);
        },
    }
}

/// A buffer of the form `00 00 01 <payload> 00 00 01`, where the payload
/// introduces no further unit boundary, yields exactly two units, and each
/// begins with its own three-byte start code.
pub proof fn lemma_two_start_codes_two_units(payload: Seq<u8>)
    requires
        forall|o: int|
            is_unit_start(seq![0u8, 0u8, 1u8] + payload + seq![0u8, 0u8, 1u8], o) ==> o == 3 || o
                == payload.len() + 6,
    ensures
        ({
            let s = seq![0u8, 0u8, 1u8] + payload + seq![0u8, 0u8, 1u8];
            let units = spec_units(s);
            &&& units.len() == 2
            &&& units[0] == seq![0u8, 0u8, 1u8] + payload
            &&& units[1] == seq![0u8, 0u8, 1u8]
            &&& forall|i: int|
                0 <= i < 2 ==> (#[trigger] units[i])[0] == 0u8 && units[i][1] == 0u8 && units[i][2]
                    == 1u8
        }),
{
    let s = seq![0u8, 0u8, 1u8] + payload + seq![0u8, 0u8, 1u8];
    let n = s.len() as int;
    assert(s[0] == 0u8 && s[1] == 0u8 && s[2] == 1u8);
    assert(s[n - 3] == 0u8 && s[n - 2] == 0u8 && s[n - 1] == 1u8);
    assert(is_unit_start(s, 3));
    assert(is_unit_start(s, n));
    lemma_next_offset_characterization(s, 0);
    assert(spec_next_offset(s, 0) == Some(3int));
    lemma_next_offset_characterization(s, 3);
    match spec_next_offset(s, 3) {
        None => {
            assert(is_unit_start_from(s, 3, n));
            assert(false);
        },
        Some(o) => {
            assert(is_unit_start(s, o));
            assert(o == n);
        },
    }
    lemma_next_offset_characterization(s, n);
    match spec_next_offset(s, n) {
        None => {},
        Some(o) => {
            assert(is_unit_start_from(s, n, o));
            assert(false);
        },
    }
    let units = spec_units(s);
    let tail = spec_units_from(s, Some(n));
    assert(units == spec_units_from(s, Some(3int)));
    assert(spec_units_from(s, Some(3int)) == seq![spec_unit_at(s, 3, Some(n))] + tail);
    assert(tail == seq![spec_unit_at(s, n, None::<int>)] + Seq::<Seq<u8>>::empty());
    assert(tail =~= seq![spec_unit_at(s, n, None::<int>)]);
    assert(units.len() == 2);
    assert(units[0] == spec_unit_at(s, 3, Some(n)));
    assert(units[1] == spec_unit_at(s, n, None::<int>));
    assert(spec_unit_at(s, 3, Some(n)) == seq![0u8, 0u8, 1u8] + payload) by {
        assert(s.subrange(0, n - 3) =~= seq![0u8, 0u8, 1u8] + payload);
    }
    assert(spec_unit_at(s, n, None::<int>) == seq![0u8, 0u8, 1u8]) by {
        assert(s.subrange(n - 3, n) =~= seq![0u8, 0u8, 1u8]);
    }
}

} // verus!
