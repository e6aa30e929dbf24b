//! Creation parameters and memory requirements for images.
use crate::allocation::MemoryTypeIndex;
use vstd::prelude::*;

verus! {

/// A three-dimensional extent in pixels.
#[derive(Debug, Clone, Copy, PartialEq, Eq, Structural)]
pub struct Extent3D {
    pub width: u32,
    pub height: u32,
    pub depth: u32,
}

/// The memory requirements the driver reports for a resource: how many
/// bytes, at what alignment, and which memory types (one bit each) can back
/// it.
#[derive(Debug, Clone, Copy, PartialEq, Eq, Structural)]
pub struct MemoryRequirements {
    pub size: u64,
    pub alignment: u64,
    pub memory_type_bits: u32,
}

/// The least `i` such that bit `i` of `bits` is set, or 32 when no bit is.
pub open spec fn spec_lowest_set_bit(bits: u32, from: u32) -> u32
    decreases 32 - from when from <= 32
{
    if from >= 32 {
        32u32
    } else if (bits >> from) & 1u32 == 1u32 {
        from
    } else {
        spec_lowest_set_bit(bits, (from + 1) as u32)
    }
}

impl MemoryRequirements {
    /// Wraps the three requirement values the driver reports.
    pub fn new(size: u64, alignment: u64, memory_type_bits: u32) -> (r: MemoryRequirements)
        ensures
            r == (MemoryRequirements { size, alignment, memory_type_bits }),
    {
        MemoryRequirements { size, alignment, memory_type_bits }
    }

    /// The required size in bytes.
    pub fn size(&self) -> (r: u64)
        ensures
            r == self.size,
    {
        self.size
    }

    /// The required alignment in bytes.
    pub fn alignment(&self) -> (r: u64)
        ensures
            r == self.alignment,
    {
        self.alignment
    }

    /// The lowest-numbered memory type that can back the resource: the
    /// index of the least set bit of the mask (32 when the mask is empty).
    pub fn any_heap(&self) -> (r: MemoryTypeIndex)
        ensures
            r.spec_index() == spec_lowest_set_bit(self.memory_type_bits, 0),
    {
        let bits = self.memory_type_bits;
        let mut i: u32 = 0;
        while i < 32
            invariant
                i <= 32,
                bits == self.memory_type_bits,
                spec_lowest_set_bit(bits, 0) == spec_lowest_set_bit(bits, i),
            decreases 32 - i,
        {
            if (bits >> i) & 1u32 == 1u32 {
                proof {
                    assert(spec_lowest_set_bit(bits, i) == i);
                }
                return MemoryTypeIndex::new(i);
            }
            i = i + 1;
        }
        proof {
            assert(spec_lowest_set_bit(bits, 32) == 32);
        }
        MemoryTypeIndex::new(32)
    }
}

/// Specifies how to create an image, with each driver enumeration kept as
/// its raw value.
#[derive(Debug, Clone, Copy, PartialEq, Eq, Structural)]
pub struct ImageInfo {
    pub format: i32,
    pub samples: u32,
    pub usage: u32,
    pub mip_levels: u32,
    pub array_layers: u32,
    pub bind_offset: u64,
    pub image_type: i32,
    pub tiling: i32,
    pub extent: Extent3D,
    pub layout: i32,
}

impl ImageInfo {
    /// An empty specification, every field zero.
    pub fn new() -> (r: ImageInfo)
        ensures
            r == (ImageInfo {
                format: 0i32,
                samples: 0u32,
                usage: 0u32,
                mip_levels: 0u32,
                array_layers: 0u32,
                bind_offset: 0u64,
                image_type: 0i32,
                tiling: 0i32,
                extent: Extent3D { width: 0u32, height: 0u32, depth: 0u32 },
                layout: 0i32,
            }),
    {
        ImageInfo {
            format: 0,
            samples: 0,
            usage: 0,
            mip_levels: 0,
            array_layers: 0,
            bind_offset: 0,
            image_type: 0,
            tiling: 0,
            extent: Extent3D { width: 0, height: 0, depth: 0 },
            layout: 0,
        }
    }

    /// Sets the pixel format.
    pub fn format(self, format: i32) -> (r: ImageInfo)
        ensures
            r == (ImageInfo { format, ..self }),
    {
        ImageInfo { format, ..self }
    }

    /// Sets the sample count.
    pub fn samples(self, samples: u32) -> (r: ImageInfo)
        ensures
            r == (ImageInfo { samples, ..self }),
    {
        ImageInfo { samples, ..self }
    }

    /// Sets the usage flags.
    pub fn usage(self, usage: u32) -> (r: ImageInfo)
        ensures
            r == (ImageInfo { usage, ..self }),
    {
        ImageInfo { usage, ..self }
    }

    /// Sets the number of mip levels.
    pub fn mip_levels(self, mip_levels: u32) -> (r: ImageInfo)
        ensures
            r == (ImageInfo { mip_levels, ..self }),
    {
        ImageInfo { mip_levels, ..self }
    }

    /// Sets the number of array layers.
    pub fn array_layers(self, array_layers: u32) -> (r: ImageInfo)
        ensures
            r == (ImageInfo { array_layers, ..self }),
    {
        ImageInfo { array_layers, ..self }
    }

    /// Sets the image dimensionality.
    pub fn image_type(self, image_type: i32) -> (r: ImageInfo)
        ensures
            r == (ImageInfo { image_type, ..self }),
    {
        ImageInfo { image_type, ..self }
    }

    /// Sets the tiling.
    pub fn tiling(self, tiling: i32) -> (r: ImageInfo)
        ensures
            r == (ImageInfo { tiling, ..self }),
    {
        ImageInfo { tiling, ..self }
    }

    /// Sets the extent.
    pub fn extent(self, extent: Extent3D) -> (r: ImageInfo)
        ensures
            r == (ImageInfo { extent, ..self }),
    {
        ImageInfo { extent, ..self }
    }

    /// The extent.
    pub fn get_extent(&self) -> (r: Extent3D)
        ensures
            r == self.extent,
    {
        self.extent
    }

    /// Sets the initial layout.
    pub fn layout(self, layout: i32) -> (r: ImageInfo)
        ensures
            r == (ImageInfo { layout, ..self }),
    {
        ImageInfo { layout, ..self }
    }
}

} // verus!
