//! Big-endian bit-level reading of RBSP data, including the Exp-Golomb codes
//! that the H.264 parameter-set grammar is written in.
use vstd::arithmetic::power2::{lemma2_to64, lemma_pow2_strictly_increases, lemma_pow2_unfold, pow2};
use vstd::prelude::*;
use vstd::slice::slice_index_get;

verus! {

/// An error while reading bitstream syntax elements.
#[derive(Debug, Clone, Copy, PartialEq, Eq, Structural)]
pub enum BitError {
    /// The stream ended in the middle of a syntax element.
    EndOfData,
    /// An Exp-Golomb code had more than 31 leading zero bits.
    ExpGolombTooLarge,
    /// Bits other than the RBSP trailing bits remained in the stream.
    RemainingData,
}

/// The bit of `data` at bit position `i`, most significant bit of each byte
/// first.
pub open spec fn bit_at(data: Seq<u8>, i: int) -> bool {
    (data[i / 8] >> ((7 - (i % 8)) as u8)) & 1u8 == 1u8
}

/// The unsigned value of the `n` bits of `data` starting at bit position
/// `pos`, most significant bit first.
pub open spec fn bits_value(data: Seq<u8>, pos: int, n: nat) -> nat
    decreases n,
{
    if n == 0 {
        0
    } else {
        bits_value(data, pos, (n - 1) as nat) * 2 + (if bit_at(data, pos + n - 1) {
            1nat
        } else {
            0nat
        })
    }
}

/// A run of `n` bits holds a value below `pow2(n)`.
pub proof fn lemma_bits_value_bound(data: Seq<u8>, pos: int, n: nat)
    ensures
        bits_value(data, pos, n) < pow2(n),
    decreases n,
{
    if n == 0 {
        lemma2_to64();
    } else {
        lemma_bits_value_bound(data, pos, (n - 1) as nat);
        lemma_pow2_unfold(n);
    }
}

/// The position of the first `1` bit of `data` at or after bit position
/// `pos` and before `end`, if any.
pub open spec fn spec_first_one(data: Seq<u8>, pos: int, end: int) -> Option<int>
    decreases end - pos when pos >= 0
{
    if pos >= end {
        None
    } else if bit_at(data, pos) {
        Some(pos)
    } else {
        spec_first_one(data, pos + 1, end)
    }
}

/// `spec_first_one` finds exactly the least set bit of the range.
pub proof fn lemma_first_one_characterization(data: Seq<u8>, pos: int, end: int)
    requires
        pos >= 0,
    ensures
        match spec_first_one(data, pos, end) {
            None => forall|p: int| pos <= p < end ==> !bit_at(data, p),
            Some(p) => pos <= p < end && bit_at(data, p) && (forall|q: int|
                pos <= q < p ==> !bit_at(data, q)),
        },
    decreases end - pos,
{
    if pos >= end {
    } else if bit_at(data, pos) {
    } else {
        lemma_first_one_characterization(data, pos + 1, end);
    }
}

/// What reading an unsigned Exp-Golomb code at bit position `pos` yields:
/// the decoded value and the position after the code, or the error.
pub open spec fn spec_read_ue(data: Seq<u8>, pos: int) -> Result<(nat, int), BitError> {
    let total = data.len() * 8;
    match spec_first_one(data, pos, total as int) {
        None => Err(BitError::EndOfData),
        Some(p) => {
            let k = (p - pos) as nat;
            if k > 31 {
                Err(BitError::ExpGolombTooLarge)
            } else if p + 1 + k > total {
                Err(BitError::EndOfData)
            } else {
                Ok((((pow2(k) - 1) + bits_value(data, p + 1, k)) as nat, p + 1 + k))
            }
        },
    }
}

/// The signed value that an unsigned Exp-Golomb value `v` maps to.
pub open spec fn golomb_signed(v: nat) -> int {
    if v % 2 == 1 {
        ((v + 1) / 2) as int
    } else {
        -((v / 2) as int)
    }
}

/// Scans `data` for the first `1` bit at or after bit position `start`.
fn first_one(data: &[u8], start: usize) -> (r: Option<usize>)
    requires
        data@.len() <= 0x1000_0000,
    ensures
        match r {
            Some(p) => Some(p as int) == spec_first_one(data@, start as int, (data@.len() * 8) as int),
            None => spec_first_one(data@, start as int, (data@.len() * 8) as int) is None,
        },
{
    let len = data.len();
    let total = len * 8;
    let mut p = start;
    loop
        invariant
            start <= p,
            len == data@.len(),
            len <= 0x1000_0000,
            total == len * 8,
            spec_first_one(data@, start as int, total as int) == spec_first_one(
                data@,
                p as int,
                total as int,
            ),
        decreases total - p,
    {
        if p >= total {
            return None;
        }
        let byte_index = p / 8;
        proof {
            assert(p / 8 < len && p as int / 8 == p / 8 && (p % 8) as int == p as int % 8 && p % 8
                < 8) by (nonlinear_arith)
                requires
                    p < total,
                    total == len * 8,
            ;
        }
        let byte = *slice_index_get(data, byte_index);
        let shift = 7 - (p % 8) as u8;
        if (byte >> shift) & 1u8 == 1u8 {
            return Some(p);
        }
        p = p + 1;
    }
}

/// Reads H.264 bitstream syntax elements from RBSP data (no NAL header byte
/// and no emulation-prevention bytes).
pub struct BitReader<'a> {
    data: &'a [u8],
    pos: usize,
}

impl<'a> BitReader<'a> {
    /// The RBSP bytes being read.
    pub closed spec fn spec_data(&self) -> Seq<u8> {
        self.data@
    }

    /// The current bit position.
    pub closed spec fn spec_pos(&self) -> int {
        self.pos as int
    }

    /// The total number of bits available.
    pub open spec fn total_bits(&self) -> int {
        (self.spec_data().len() * 8) as int
    }

    /// The reader is sound: the position is within the data and the data is
    /// small enough that bit positions fit the machine word.
    pub open spec fn wf(&self) -> bool {
        &&& self.spec_data().len() <= 0x1000_0000
        &&& 0 <= self.spec_pos() <= self.total_bits()
    }

    /// Starts reading `data` at its first bit.
    pub fn new(data: &'a [u8]) -> (r: BitReader<'a>)
        requires
            data@.len() <= 0x1000_0000,
        ensures
            r.wf(),
            r.spec_data() == data@,
            r.spec_pos() == 0,
    {
        BitReader { data, pos: 0 }
    }

    /// Reads a single bit.
    pub fn read_bit(&mut self) -> (r: Result<bool, BitError>)
        requires
            old(self).wf(),
        ensures
            final(self).wf(),
            final(self).spec_data() == old(self).spec_data(),
            match r {
                Ok(b) => old(self).spec_pos() < old(self).total_bits() && b == bit_at(
                    old(self).spec_data(),
                    old(self).spec_pos(),
                ) && final(self).spec_pos() == old(self).spec_pos() + 1,
                Err(e) => e == BitError::EndOfData && old(self).spec_pos() == old(
                    self,
                ).total_bits() && *final(self) == *old(self),
            },
    {
        let len = self.data.len();
        if self.pos >= len * 8 {
            return Err(BitError::EndOfData);
        }
        let byte_index = self.pos / 8;
        proof {
            assert(self.pos / 8 < len && self.pos as int / 8 == self.pos / 8 && (self.pos % 8) as int
                == self.pos as int % 8 && self.pos % 8 < 8) by (nonlinear_arith)
                requires
                    self.pos < len * 8,
            ;
        }
        let byte = *slice_index_get(self.data, byte_index);
        let shift = 7 - (self.pos % 8) as u8;
        let b = (byte >> shift) & 1u8 == 1u8;
        self.pos = self.pos + 1;
        Ok(b)
    }

    /// Reads `n` bits as a big-endian unsigned value.
    pub fn read_bits(&mut self, n: usize) -> (r: Result<u32, BitError>)
        requires
            old(self).wf(),
            n <= 32,
        ensures
            final(self).wf(),
            final(self).spec_data() == old(self).spec_data(),
            match r {
                Ok(v) => old(self).spec_pos() + n <= old(self).total_bits() && v == bits_value(
                    old(self).spec_data(),
                    old(self).spec_pos(),
                    n as nat,
                ) && final(self).spec_pos() == old(self).spec_pos() + n,
                Err(e) => e == BitError::EndOfData && old(self).spec_pos() + n > old(
                    self,
                ).total_bits() && *final(self) == *old(self),
            },
    {
        let len = self.data.len();
        if len * 8 - self.pos < n {
            return Err(BitError::EndOfData);
        }
        let ghost start = self.pos as int;
        let mut v: u32 = 0;
        let mut k: usize = 0;
        while k < n
            invariant
                old(self).wf(),
                self.wf(),
                self.spec_data() == old(self).spec_data(),
                k <= n <= 32,
                self.spec_pos() == start + k,
                start + n <= self.total_bits(),
                v == bits_value(self.spec_data(), start, k as nat),
            decreases n - k,
        {
            proof {
                lemma_bits_value_bound(self.spec_data(), start, k as nat);
                lemma2_to64();
                if (k as nat) < 31 {
                    lemma_pow2_strictly_increases(k as nat, 31);
                }
            }
            let b = match self.read_bit() {
                Ok(b) => b,
                Err(_) => {
                    proof {
                        assert(false);
                    }
                    return Err(BitError::EndOfData);
                },
            };
            v = v * 2 + (if b {
                1
            } else {
                0
            });
            k = k + 1;
        }
        Ok(v)
    }

    /// Reads an unsigned Exp-Golomb-coded value, as defined in the H.264
    /// grammar: a run of `k` zero bits, a `1` bit, then `k` value bits.
    pub fn read_ue(&mut self) -> (r: Result<u32, BitError>)
        requires
            old(self).wf(),
        ensures
            final(self).wf(),
            final(self).spec_data() == old(self).spec_data(),
            match r {
                Ok(v) => {
                    &&& spec_read_ue(old(self).spec_data(), old(self).spec_pos()) matches Ok(vp)
                    &&& v as nat == vp.0
                    &&& v <= 0xFFFF_FFFE
                    &&& final(self).spec_pos() == vp.1
                },
                Err(e) => spec_read_ue(old(self).spec_data(), old(self).spec_pos()) == Err::<
                    (nat, int),
                    BitError,
                >(e),
            },
    {
        let ghost data = self.spec_data();
        let ghost start = self.spec_pos();
        let ghost total = self.total_bits();
        let first = first_one(self.data, self.pos);
        let p = match first {
            None => {
                return Err(BitError::EndOfData);
            },
            Some(p) => p,
        };
        proof {
            lemma_first_one_characterization(data, start, total);
        }
        let k = p - self.pos;
        if k > 31 {
            return Err(BitError::ExpGolombTooLarge);
        }
        self.pos = p + 1;
        let val = match self.read_bits(k) {
            Ok(v) => v,
            Err(e) => {
                return Err(e);
            },
        };
        proof {
            lemma_bits_value_bound(data, p + 1, k as nat);
            lemma2_to64();
            if (k as nat) < 31 {
                lemma_pow2_strictly_increases(k as nat, 31);
            }
        }
        let base: u32 = if k == 0 {
            0
        } else {
            let one: u32 = 1;
            proof {
                vstd::bits::lemma_u32_shl_is_mul(1u32, k as u32);
            }
            (one << (k as u32)) - 1
        };
        Ok(base + val)
    }

    /// Reads a signed Exp-Golomb-coded value, as defined in the H.264
    /// grammar.
    pub fn read_se(&mut self) -> (r: Result<i32, BitError>)
        requires
            old(self).wf(),
        ensures
            final(self).wf(),
            final(self).spec_data() == old(self).spec_data(),
            match r {
                Ok(v) => {
                    &&& spec_read_ue(old(self).spec_data(), old(self).spec_pos()) matches Ok(vp)
                    &&& v as int == golomb_signed(vp.0)
                    &&& final(self).spec_pos() == vp.1
                },
                Err(e) => spec_read_ue(old(self).spec_data(), old(self).spec_pos()) == Err::<
                    (nat, int),
                    BitError,
                >(e),
            },
    {
        let v = match self.read_ue() {
            Ok(v) => v,
            Err(e) => {
                return Err(e);
            },
        };
        if v % 2 == 1 {
            Ok(((v / 2) + 1) as i32)
        } else {
            Ok(-((v / 2) as i32))
        }
    }

    /// True when the reader is positioned before the RBSP trailing bits:
    /// some `1` bit lies strictly after the current position.
    pub fn more_rbsp_data(&self) -> (r: bool)
        requires
            self.wf(),
        ensures
            r == (spec_first_one(self.spec_data(), self.spec_pos() + 1, self.total_bits())
                is Some),
    {
        first_one(self.data, self.pos + 1).is_some()
    }

    /// Finishes the reader; succeeds exactly when it is positioned at the
    /// RBSP trailing bits: a `1` stop bit with only `0` bits after it.
    pub fn finish_rbsp(&mut self) -> (r: Result<(), BitError>)
        requires
            old(self).wf(),
        ensures
            final(self).wf(),
            final(self).spec_data() == old(self).spec_data(),
            r is Ok <==> (old(self).spec_pos() < old(self).total_bits() && bit_at(
                old(self).spec_data(),
                old(self).spec_pos(),
            ) && spec_first_one(old(self).spec_data(), old(self).spec_pos() + 1, old(
                self,
            ).total_bits()) is None),
    {
        let more = self.more_rbsp_data();
        match self.read_bit() {
            Err(_) => Err(BitError::EndOfData),
            Ok(false) => Err(BitError::RemainingData),
            Ok(true) => {
                if more {
                    Err(BitError::RemainingData)
                } else {
                    Ok(())
                }
            },
        }
    }
}

} // verus!
