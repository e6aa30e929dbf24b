//! Filling a buffer with a fixed 32-bit value.
use crate::commandbuffer::{
    AccessScope, BufferBarrier, Command, CommandBuilder, StageScope,
};
use crate::error::Error;
use crate::ops::AddToCommandBuffer;
use vstd::prelude::*;

verus! {

/// Byte `i` of a buffer filled with the 32-bit value `value`: the fill
/// writes the value at every four-byte stride in little-endian order, so
/// byte `i` holds byte `i % 4` of the value.
pub open spec fn spec_fill_byte(value: u32, i: int) -> u8 {
    ((value >> (((i % 4) * 8) as u32)) & 0xFFu32) as u8
}

/// The bytes a buffer of `len` bytes holds after a fill with `value`:
/// little-endian fill semantics for every 4-byte stride.
pub fn filled_bytes(len: usize, value: u32) -> (r: Vec<u8>)
    ensures
        r@.len() == len,
        forall|i: int| 0 <= i < len ==> #[trigger] r@[i] == spec_fill_byte(value, i),
{
    let mut out: Vec<u8> = Vec::new();
    let mut i: usize = 0;
    while i < len
        invariant
            i <= len,
            out@.len() == i as int,
            forall|j: int| 0 <= j < i ==> #[trigger] out@[j] == spec_fill_byte(value, j),
        decreases len - i,
    {
        let k = (i % 4) as u32;
        proof {
            assert((i % 4) as u32 == ((i as int) % 4) as u32) by (nonlinear_arith);
            assert(k * 8 == (((i as int) % 4) * 8) as u32) by (nonlinear_arith)
                requires
                    k < 4,
                    k == ((i as int) % 4) as u32,
            ;
        }
        let b = ((value >> (k * 8)) & 0xFFu32) as u8;
        out.push(b);
        i = i + 1;
    }
    out
}

/// Fills a buffer with a fixed value, after a barrier making prior transfer
/// writes visible to the fill.
pub struct FillBuffer {
    pub buffer: usize,
    pub buffer_size: u64,
    pub value: u32,
}

impl FillBuffer {
    /// Fill the buffer named `buffer`, whose size is `buffer_size` bytes,
    /// with `value`.
    pub fn new(buffer: usize, buffer_size: u64, value: u32) -> (r: FillBuffer)
        ensures
            r == (FillBuffer { buffer, buffer_size, value }),
    {
        FillBuffer { buffer, buffer_size, value }
    }
}

impl AddToCommandBuffer for FillBuffer {
    open spec fn spec_commands(&self, queue_family_index: u32) -> Seq<Command> {
        seq![
            Command::BufferMemoryBarrier(
                BufferBarrier {
                    buffer: self.buffer,
                    offset: 0,
                    size: self.buffer_size,
                    src_stage: StageScope::Transfer,
                    src_access: AccessScope::TransferWrite,
                    dst_stage: StageScope::Transfer,
                    dst_access: AccessScope::TransferRead,
                    src_queue_family: None,
                    dst_queue_family: None,
                },
            ),
            Command::FillBuffer { buffer: self.buffer, offset: 0, size: None, value: self.value },
        ]
    }

    fn run_in(&self, builder: &mut CommandBuilder) -> (r: Result<(), Error>) {
        let ghost qfi = builder.spec_queue_family_index();
        builder.push(
            Command::BufferMemoryBarrier(
                BufferBarrier {
                    buffer: self.buffer,
                    offset: 0,
                    size: self.buffer_size,
                    src_stage: StageScope::Transfer,
                    src_access: AccessScope::TransferWrite,
                    dst_stage: StageScope::Transfer,
                    dst_access: AccessScope::TransferRead,
                    src_queue_family: None,
                    dst_queue_family: None,
                },
            ),
        );
        builder.push(
            Command::FillBuffer { buffer: self.buffer, offset: 0, size: None, value: self.value },
        );
        proof {
            assert(builder.spec_commands() =~= old(builder).spec_commands() + self.spec_commands(
                qfi,
            ));
        }
        Ok(())
    }
}

} // verus!
