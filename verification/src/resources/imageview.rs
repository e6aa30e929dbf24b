//! Creation parameters for image views.
use vstd::prelude::*;

verus! {

/// Specifies how to create an image view, with each driver enumeration
/// kept as its raw value.
#[derive(Debug, Clone, PartialEq, Eq, Structural)]
pub struct ImageViewInfo {
    pub format: i32,
    pub image_view_type: i32,
    pub aspect_mask: u32,
    pub layer_count: u32,
    pub level_count: u32,
}

impl ImageViewInfo {
    /// An empty specification, every field zero.
    pub fn new() -> (r: ImageViewInfo)
        ensures
            r == (ImageViewInfo {
                format: 0i32,
                image_view_type: 0i32,
                aspect_mask: 0u32,
                layer_count: 0u32,
                level_count: 0u32,
            }),
    {
        ImageViewInfo { format: 0, image_view_type: 0, aspect_mask: 0, layer_count: 0, level_count: 0 }
    }

    /// Sets the pixel format.
    pub fn format(self, format: i32) -> (r: ImageViewInfo)
        ensures
            r == (ImageViewInfo { format, ..self }),
    {
        ImageViewInfo { format, ..self }
    }

    /// Sets the view dimensionality.
    pub fn image_view_type(self, image_view_type: i32) -> (r: ImageViewInfo)
        ensures
            r == (ImageViewInfo { image_view_type, ..self }),
    {
        ImageViewInfo { image_view_type, ..self }
    }

    /// Sets the aspect mask.
    pub fn aspect_mask(self, aspect_mask: u32) -> (r: ImageViewInfo)
        ensures
            r == (ImageViewInfo { aspect_mask, ..self }),
    {
        ImageViewInfo { aspect_mask, ..self }
    }

    /// Sets the number of array layers.
    pub fn layer_count(self, layer_count: u32) -> (r: ImageViewInfo)
        ensures
            r == (ImageViewInfo { layer_count, ..self }),
    {
        ImageViewInfo { layer_count, ..self }
    }

    /// Sets the number of mip levels.
    pub fn level_count(self, level_count: u32) -> (r: ImageViewInfo)
        ensures
            r == (ImageViewInfo { level_count, ..self }),
    {
        ImageViewInfo { level_count, ..self }
    }
}

} // verus!
