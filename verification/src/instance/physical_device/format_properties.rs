use vstd::prelude::*;
use crate::memory::resources::image::{Extent3D, ImageSampleCountFlags};

verus! {

/// What a format supports in a given tiling or in buffers.
#[derive(Debug, Default, Clone, Copy, PartialEq, Eq, Hash, Structural)]
pub struct FormatFeatures(u32);

impl View for FormatFeatures {
    type V = u32;

    closed spec fn view(&self) -> u32 {
        self.0
    }
}

impl FormatFeatures {
    /// The bits that name a flag of this set.
    pub open spec fn spec_all_bits() -> u32 {
        0xdfff
    }

    /// Sampled images.
    #[allow(non_snake_case)]
    pub fn SAMPLED_IMAGE() -> (r: Self)
        ensures
            r@ == 0x1,
    {
        FormatFeatures(0x1)
    }

    /// Storage images.
    #[allow(non_snake_case)]
    pub fn STORAGE_IMAGE() -> (r: Self)
        ensures
            r@ == 0x2,
    {
        FormatFeatures(0x2)
    }

    /// Atomics on storage images.
    #[allow(non_snake_case)]
    pub fn STORAGE_IMAGE_ATOMIC() -> (r: Self)
        ensures
            r@ == 0x4,
    {
        FormatFeatures(0x4)
    }

    /// Uniform texel buffers.
    #[allow(non_snake_case)]
    pub fn UNIFORM_TEXEL_BUFFER() -> (r: Self)
        ensures
            r@ == 0x8,
    {
        FormatFeatures(0x8)
    }

    /// Storage texel buffers.
    #[allow(non_snake_case)]
    pub fn STORAGE_TEXEL_BUFFER() -> (r: Self)
        ensures
            r@ == 0x10,
    {
        FormatFeatures(0x10)
    }

    /// Atomics on storage texel buffers.
    #[allow(non_snake_case)]
    pub fn STORAGE_TEXEL_BUFFER_ATOMIC() -> (r: Self)
        ensures
            r@ == 0x20,
    {
        FormatFeatures(0x20)
    }

    /// Vertex buffers.
    #[allow(non_snake_case)]
    pub fn VERTEX_BUFFER() -> (r: Self)
        ensures
            r@ == 0x40,
    {
        FormatFeatures(0x40)
    }

    /// Color attachments.
    #[allow(non_snake_case)]
    pub fn COLOR_ATTACHMENT() -> (r: Self)
        ensures
            r@ == 0x80,
    {
        FormatFeatures(0x80)
    }

    /// Blending on color attachments.
    #[allow(non_snake_case)]
    pub fn COLOR_ATTACHMENT_BLEND() -> (r: Self)
        ensures
            r@ == 0x100,
    {
        FormatFeatures(0x100)
    }

    /// Depth/stencil attachments.
    #[allow(non_snake_case)]
    pub fn DEPTH_STENCIL_ATTACHMENT() -> (r: Self)
        ensures
            r@ == 0x200,
    {
        FormatFeatures(0x200)
    }

    /// Source of a blit.
    #[allow(non_snake_case)]
    pub fn BLIT_SRC() -> (r: Self)
        ensures
            r@ == 0x400,
    {
        FormatFeatures(0x400)
    }

    /// Destination of a blit.
    #[allow(non_snake_case)]
    pub fn BLIT_DST() -> (r: Self)
        ensures
            r@ == 0x800,
    {
        FormatFeatures(0x800)
    }

    /// Linear filtering when sampled.
    #[allow(non_snake_case)]
    pub fn SAMPLED_IMAGE_FILTER_LINEAR() -> (r: Self)
        ensures
            r@ == 0x1000,
    {
        FormatFeatures(0x1000)
    }

    /// Source of a transfer (Vulkan 1.1).
    #[allow(non_snake_case)]
    pub fn TRANSFER_SRC() -> (r: Self)
        ensures
            r@ == 0x4000,
    {
        FormatFeatures(0x4000)
    }

    /// Destination of a transfer (Vulkan 1.1).
    #[allow(non_snake_case)]
    pub fn TRANSFER_DST() -> (r: Self)
        ensures
            r@ == 0x8000,
    {
        FormatFeatures(0x8000)
    }

    /// The set with no flag.
    pub fn empty() -> (r: Self)
        ensures
            r@ == 0,
    {
        FormatFeatures(0)
    }

    /// The raw bits of the set.
    pub fn bits(&self) -> (r: u32)
        ensures
            r == self@,
    {
        self.0
    }

    /// Keeps every bit, named or not.
    pub fn from_bits_retain(bits: u32) -> (r: Self)
        ensures
            r@ == bits,
    {
        FormatFeatures(bits)
    }

    /// Drops the bits that name no flag.
    pub fn from_bits_truncate(bits: u32) -> (r: Self)
        ensures
            r@ == bits & Self::spec_all_bits(),
    {
        FormatFeatures(bits & 0xdfff)
    }

    /// Whether no bit is set.
    pub fn is_empty(&self) -> (r: bool)
        ensures
            r == (self@ == 0),
    {
        self.0 == 0
    }

    /// Whether every bit of `other` is set in `self`.
    pub fn contains(&self, other: Self) -> (r: bool)
        ensures
            r == (self@ & other@ == other@),
    {
        self.0 & other.0 == other.0
    }

    /// The bits set in either.
    pub fn union(self, other: Self) -> (r: Self)
        ensures
            r@ == self@ | other@,
    {
        FormatFeatures(self.0 | other.0)
    }

    /// The bits of `self` that `other` does not set.
    pub fn difference(self, other: Self) -> (r: Self)
        ensures
            r@ == self@ & !other@,
    {
        FormatFeatures(self.0 & !other.0)
    }
}

/// The features of a format, by tiling and for buffers.
#[derive(Default, Debug, Clone, Copy, PartialEq, Eq, Hash, Structural)]
pub struct FormatProperties {
    pub linear_tiling: FormatFeatures,
    pub optimal_tiling: FormatFeatures,
    pub buffer_features: FormatFeatures,
}

/// The limits of images of one format, type, tiling and usage.
#[derive(Debug, Clone, Copy, PartialEq, Eq, Hash, Structural)]
pub struct ImageFormatProperties {
    pub max_extent: Extent3D,
    pub max_mip_levels: u32,
    pub max_array_layers: u32,
    pub sample_counts: ImageSampleCountFlags,
    pub max_resource_size: u64,
}

} // verus!
