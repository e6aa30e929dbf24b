//! Planning the memory bindings of a video session: the driver reports one
//! memory requirement per binding slot, and each slot gets an allocation of
//! the reported size in the lowest-numbered memory type its mask allows.
use crate::resources::{spec_lowest_set_bit, MemoryRequirements};
use vstd::prelude::*;

verus! {

/// One planned memory binding of a video session.
#[derive(Debug, Clone, Copy, PartialEq, Eq, Structural)]
pub struct SessionMemoryBinding {
    pub memory_bind_index: u32,
    pub size: u64,
    pub memory_type_index: u32,
}

/// Plans the session's memory bindings from the reported requirements:
/// binding `i` allocates exactly the `i`-th reported size from the
/// lowest-numbered memory type of the `i`-th mask.
pub fn plan_video_session_memory(requirements: &Vec<MemoryRequirements>) -> (r: Vec<
    SessionMemoryBinding,
>)
    requires
        requirements@.len() <= 0xFFFF_FFFF,
    ensures
        r@.len() == requirements@.len(),
        forall|i: int|
            0 <= i < r@.len() ==> #[trigger] r@[i] == (SessionMemoryBinding {
                memory_bind_index: i as u32,
                size: requirements@[i].size,
                memory_type_index: spec_lowest_set_bit(requirements@[i].memory_type_bits, 0),
            }),
{
    let mut out: Vec<SessionMemoryBinding> = Vec::new();
    let mut i: usize = 0;
    while i < requirements.len()
        invariant
            requirements@.len() <= 0xFFFF_FFFF,
            i <= requirements@.len(),
            out@.len() == i as int,
            forall|j: int|
                0 <= j < i ==> #[trigger] out@[j] == (SessionMemoryBinding {
                    memory_bind_index: j as u32,
                    size: requirements@[j].size,
                    memory_type_index: spec_lowest_set_bit(requirements@[j].memory_type_bits, 0),
                }),
        decreases requirements@.len() - i,
    {
        let req = &requirements[i];
        let best_type = req.any_heap();
        out.push(
            SessionMemoryBinding {
                memory_bind_index: i as u32,
                size: req.size,
                memory_type_index: best_type.index(),
            },
        );
        i = i + 1;
    }
    out
}

} // verus!
