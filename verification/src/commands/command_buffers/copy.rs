use vstd::prelude::*;
use crate::memory::resources::image_view::{ImageSubresourceLayers, RawImageSubresourceLayers, range_len};

verus! {

/// A copy between a region of a buffer and a region of an image.
#[derive(Debug, PartialEq, Eq, Hash)]
pub struct BufferImageCopy {
    pub buffer_offset: u64,
    pub buffer_row_length: u32,
    pub buffer_image_height: u32,
    pub image_subresource: ImageSubresourceLayers,
    pub image_offset: (i32, i32, i32),
    pub image_extent: (u32, u32, u32),
}

impl Clone for BufferImageCopy {
    fn clone(&self) -> (r: Self)
        ensures
            r == *self,
    {
        BufferImageCopy {
            buffer_offset: self.buffer_offset,
            buffer_row_length: self.buffer_row_length,
            buffer_image_height: self.buffer_image_height,
            image_subresource: self.image_subresource.clone(),
            image_offset: self.image_offset,
            image_extent: self.image_extent,
        }
    }
}

/// A buffer-image copy as the driver takes it (`VkBufferImageCopy`).
#[derive(Debug, Clone, Copy, PartialEq, Eq, Hash)]
pub struct RawBufferImageCopy {
    pub buffer_offset: u64,
    pub buffer_row_length: u32,
    pub buffer_image_height: u32,
    pub image_subresource: RawImageSubresourceLayers,
    pub image_offset: (i32, i32, i32),
    pub image_extent: (u32, u32, u32),
}

impl BufferImageCopy {
    /// The copy as the driver takes it.
    pub fn to_raw(&self) -> (r: RawBufferImageCopy)
        ensures
            r.buffer_offset == self.buffer_offset,
            r.buffer_row_length == self.buffer_row_length,
            r.buffer_image_height == self.buffer_image_height,
            r.image_subresource.aspect_mask == self.image_subresource.aspect_mask@ as u32,
            r.image_subresource.mip_level == self.image_subresource.mip_level,
            r.image_subresource.base_array_layer == self.image_subresource.array_layers.start,
            r.image_subresource.layer_count == range_len(self.image_subresource.array_layers),
            r.image_offset == self.image_offset,
            r.image_extent == self.image_extent,
    {
        RawBufferImageCopy {
            buffer_offset: self.buffer_offset,
            buffer_row_length: self.buffer_row_length,
            buffer_image_height: self.buffer_image_height,
            image_subresource: self.image_subresource.to_raw(),
            image_offset: self.image_offset,
            image_extent: self.image_extent,
        }
    }
}

} // verus!
