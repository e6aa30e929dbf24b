//! Queue-family and memory-heap selection: the decisions taken over the
//! tables that the driver reports.
use crate::allocation::MemoryTypeIndex;
use vstd::prelude::*;

verus! {

/// The queue-flag bit for compute work, as the driver reports it.
pub const QUEUE_FLAG_COMPUTE: u32 = 0x2;

/// The queue-flag bit for video decode work, as the driver reports it.
pub const QUEUE_FLAG_VIDEO_DECODE: u32 = 0x20;

/// The memory-property bit for device-local memory, as the driver reports
/// it.
pub const MEMORY_PROPERTY_DEVICE_LOCAL: u32 = 0x1;

/// The memory-property bit for host-visible memory, as the driver reports
/// it.
pub const MEMORY_PROPERTY_HOST_VISIBLE: u32 = 0x2;

/// The first index of `flags` at or after `from` whose word has every bit
/// of `mask` set, if any.
pub open spec fn spec_first_with_mask(flags: Seq<u32>, mask: u32, from: int) -> Option<int>
    decreases flags.len() - from when from >= 0
{
    if from >= flags.len() {
        None
    } else if flags[from] & mask == mask {
        Some(from)
    } else {
        spec_first_with_mask(flags, mask, from + 1)
    }
}

/// Scans `flags` for the first word with every bit of `mask` set.
fn first_with_mask(flags: &Vec<u32>, mask: u32) -> (r: Option<u32>)
    requires
        flags@.len() <= 0xFFFF_FFFF,
    ensures
        match r {
            Some(i) => Some(i as int) == spec_first_with_mask(flags@, mask, 0),
            None => spec_first_with_mask(flags@, mask, 0) is None,
        },
{
    let mut i: usize = 0;
    while i < flags.len()
        invariant
            i <= flags@.len(),
            flags@.len() <= 0xFFFF_FFFF,
            spec_first_with_mask(flags@, mask, 0) == spec_first_with_mask(flags@, mask, i as int),
        decreases flags@.len() - i,
    {
        if flags[i] & mask == mask {
            return Some(i as u32);
        }
        i = i + 1;
    }
    None
}

/// Provides logical information about the driver's queue families, given
/// each family's queue-flag word.
pub struct QueueFamilyInfos {
    queue_compute: Option<u32>,
    queue_decode: Option<u32>,
    available_queues: Vec<u32>,
}

impl QueueFamilyInfos {
    /// The first queue family with the compute flag, if any.
    pub closed spec fn spec_compute(&self) -> Option<u32> {
        self.queue_compute
    }

    /// The first queue family with the video-decode flag, if any.
    pub closed spec fn spec_decode(&self) -> Option<u32> {
        self.queue_decode
    }

    /// The families selected above, compute first.
    pub closed spec fn spec_available(&self) -> Seq<u32> {
        self.available_queues@
    }

    /// Selects queue families from the queue-flag word of each family, as
    /// the driver reports them in family order.
    pub fn new(queue_family_flags: &Vec<u32>) -> (r: QueueFamilyInfos)
        requires
            queue_family_flags@.len() <= 0xFFFF_FFFF,
        ensures
            ({
                let compute = spec_first_with_mask(queue_family_flags@, QUEUE_FLAG_COMPUTE, 0);
                let decode = spec_first_with_mask(queue_family_flags@, QUEUE_FLAG_VIDEO_DECODE, 0);
                &&& (match r.spec_compute() {
                    Some(i) => compute == Some(i as int),
                    None => compute is None,
                })
                &&& (match r.spec_decode() {
                    Some(i) => decode == Some(i as int),
                    None => decode is None,
                })
                &&& r.spec_available() == (match r.spec_compute() {
                    Some(c) => seq![c],
                    None => Seq::<u32>::empty(),
                }) + (match r.spec_decode() {
                    Some(d) => seq![d],
                    None => Seq::<u32>::empty(),
                })
            }),
    {
        let queue_compute = first_with_mask(queue_family_flags, QUEUE_FLAG_COMPUTE);
        let queue_decode = first_with_mask(queue_family_flags, QUEUE_FLAG_VIDEO_DECODE);
        let mut available_queues: Vec<u32> = Vec::new();
        if let Some(x) = queue_compute {
            available_queues.push(x);
        }
        if let Some(x) = queue_decode {
            available_queues.push(x);
        }
        proof {
            assert(available_queues@ =~= (match queue_compute {
                Some(c) => seq![c],
                None => Seq::<u32>::empty(),
            }) + (match queue_decode {
                Some(d) => seq![d],
                None => Seq::<u32>::empty(),
            }));
        }
        QueueFamilyInfos { queue_compute, queue_decode, available_queues }
    }

    /// The selected families, compute first.
    pub fn available(&self) -> (r: &[u32])
        ensures
            r@ == self.spec_available(),
    {
        self.available_queues.as_slice()
    }

    /// The first queue family that can run compute work, if any.
    pub fn any_compute(&self) -> (r: Option<u32>)
        ensures
            r == self.spec_compute(),
    {
        self.queue_compute
    }

    /// The first queue family that can run video-decode work, if any.
    pub fn any_decode(&self) -> (r: Option<u32>)
        ensures
            r == self.spec_decode(),
    {
        self.queue_decode
    }
}

/// Provides logical information about the driver's memory heaps, given the
/// property-flag word of each memory type.
pub struct HeapInfos {
    memory_type_flags: Vec<u32>,
}

impl HeapInfos {
    /// The property-flag word of each memory type, in table order.
    pub closed spec fn spec_memory_type_flags(&self) -> Seq<u32> {
        self.memory_type_flags@
    }

    /// Wraps the property-flag words of the driver's memory-type table.
    pub fn new(memory_type_flags: Vec<u32>) -> (r: HeapInfos)
        requires
            memory_type_flags@.len() <= 0xFFFF_FFFF,
        ensures
            r.spec_memory_type_flags() == memory_type_flags@,
    {
        HeapInfos { memory_type_flags }
    }

    /// The first host-visible memory type, if any.
    pub fn any_host_visible(&self) -> (r: Option<MemoryTypeIndex>)
        requires
            self.spec_memory_type_flags().len() <= 0xFFFF_FFFF,
        ensures
            match r {
                Some(m) => Some(m.spec_index() as int) == spec_first_with_mask(
                    self.spec_memory_type_flags(),
                    MEMORY_PROPERTY_HOST_VISIBLE,
                    0,
                ),
                None => spec_first_with_mask(
                    self.spec_memory_type_flags(),
                    MEMORY_PROPERTY_HOST_VISIBLE,
                    0,
                ) is None,
            },
    {
        match first_with_mask(&self.memory_type_flags, MEMORY_PROPERTY_HOST_VISIBLE) {
            Some(i) => Some(MemoryTypeIndex::new(i)),
            None => None,
        }
    }

    /// The first device-local memory type, if any.
    pub fn any_device_local(&self) -> (r: Option<MemoryTypeIndex>)
        requires
            self.spec_memory_type_flags().len() <= 0xFFFF_FFFF,
        ensures
            match r {
                Some(m) => Some(m.spec_index() as int) == spec_first_with_mask(
                    self.spec_memory_type_flags(),
                    MEMORY_PROPERTY_DEVICE_LOCAL,
                    0,
                ),
                None => spec_first_with_mask(
                    self.spec_memory_type_flags(),
                    MEMORY_PROPERTY_DEVICE_LOCAL,
                    0,
                ) is None,
            },
    {
        match first_with_mask(&self.memory_type_flags, MEMORY_PROPERTY_DEVICE_LOCAL) {
            Some(i) => Some(MemoryTypeIndex::new(i)),
            None => None,
        }
    }
}

} // verus!
