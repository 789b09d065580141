use vstd::prelude::*;
use core::ops::Range;
use super::format::Format;

verus! {

/// The aspects of an image that a view or a copy covers.
#[derive(Debug, Clone, Copy, PartialEq, Eq, Hash, Structural)]
pub struct ImageAspect(u8);

impl View for ImageAspect {
    type V = u8;

    closed spec fn view(&self) -> u8 {
        self.0
    }
}

impl ImageAspect {
    /// The bits that name a flag of this set.
    pub open spec fn spec_all_bits() -> u8 {
        0xf
    }

    /// Color.
    #[allow(non_snake_case)]
    pub fn COLOR() -> (r: Self)
        ensures
            r@ == 0x1,
    {
        ImageAspect(0x1)
    }

    /// Depth.
    #[allow(non_snake_case)]
    pub fn DEPTH() -> (r: Self)
        ensures
            r@ == 0x2,
    {
        ImageAspect(0x2)
    }

    /// Stencil.
    #[allow(non_snake_case)]
    pub fn STENCIL() -> (r: Self)
        ensures
            r@ == 0x4,
    {
        ImageAspect(0x4)
    }

    /// Metadata.
    #[allow(non_snake_case)]
    pub fn METADATA() -> (r: Self)
        ensures
            r@ == 0x8,
    {
        ImageAspect(0x8)
    }

    /// The set with no flag.
    pub fn empty() -> (r: Self)
        ensures
            r@ == 0,
    {
        ImageAspect(0)
    }

    /// The raw bits of the set.
    pub fn bits(&self) -> (r: u8)
        ensures
            r == self@,
    {
        self.0
    }

    /// Keeps every bit, named or not.
    pub fn from_bits_retain(bits: u8) -> (r: Self)
        ensures
            r@ == bits,
    {
        ImageAspect(bits)
    }

    /// Drops the bits that name no flag.
    pub fn from_bits_truncate(bits: u8) -> (r: Self)
        ensures
            r@ == bits & Self::spec_all_bits(),
    {
        ImageAspect(bits & 0xf)
    }

    /// Whether no bit is set.
    pub fn is_empty(&self) -> (r: bool)
        ensures
            r == (self@ == 0),
    {
        self.0 == 0
    }

    /// Whether every bit of `other` is set in `self`.
    pub fn contains(&self, other: Self) -> (r: bool)
        ensures
            r == (self@ & other@ == other@),
    {
        self.0 & other.0 == other.0
    }

    /// The bits set in either.
    pub fn union(self, other: Self) -> (r: Self)
        ensures
            r@ == self@ | other@,
    {
        ImageAspect(self.0 | other.0)
    }

    /// The bits of `self` that `other` does not set.
    pub fn difference(self, other: Self) -> (r: Self)
        ensures
            r@ == self@ & !other@,
    {
        ImageAspect(self.0 & !other.0)
    }
}

impl Default for ImageAspect {
    fn default() -> (r: Self)
        ensures
            r@ == 0x1,
    {
        ImageAspect::COLOR()
    }
}

impl ImageAspect {
    /// The aspects named by a raw `VkImageAspectFlags`, read through its low byte;
    /// bits that name no aspect are dropped.
    pub fn from_raw(raw: u32) -> (r: Self)
        ensures
            r@ == (raw as u8) & 0xfu8,
    {
        ImageAspect::from_bits_truncate(raw as u8)
    }

    /// The raw `VkImageAspectFlags`.
    pub fn as_raw(self) -> (r: u32)
        ensures
            r == self@ as u32,
    {
        self.bits() as u32
    }
}

/// Aspects that name only known aspects come back unchanged from their raw form.
pub proof fn lemma_aspect_raw_round_trip(a: ImageAspect)
    requires
        a@ & !0xfu8 == 0,
    ensures
        ((a@ as u32) as u8) & 0xfu8 == a@,
{
    let b = a@;
    assert(b & !0xfu8 == 0 ==> ((b as u32) as u8) & 0xfu8 == b) by (bit_vector);
}

/// Where a channel of a view takes its value from.
#[derive(Debug, Clone, Copy, PartialEq, Eq, Hash, Structural)]
pub enum ComponentSwizzle {
    Identity,
    Zero,
    One,
    R,
    G,
    B,
}

impl Default for ComponentSwizzle {
    fn default() -> (r: Self)
        ensures
            r == ComponentSwizzle::Identity,
    {
        ComponentSwizzle::Identity
    }
}

/// The swizzle whose raw `VkComponentSwizzle` is `raw`, for the six that the
/// wrapper knows.
pub open spec fn spec_swizzle_of(raw: i32) -> ComponentSwizzle {
    if raw == 0 {
        ComponentSwizzle::Identity
    } else if raw == 1 {
        ComponentSwizzle::Zero
    } else if raw == 2 {
        ComponentSwizzle::One
    } else if raw == 3 {
        ComponentSwizzle::R
    } else if raw == 4 {
        ComponentSwizzle::G
    } else {
        ComponentSwizzle::B
    }
}

impl ComponentSwizzle {
    pub open spec fn spec_raw(self) -> i32 {
        match self {
            ComponentSwizzle::Identity => 0,
            ComponentSwizzle::Zero => 1,
            ComponentSwizzle::One => 2,
            ComponentSwizzle::R => 3,
            ComponentSwizzle::G => 4,
            ComponentSwizzle::B => 5,
        }
    }

    /// The raw `VkComponentSwizzle`.
    pub fn as_raw(self) -> (r: i32)
        ensures
            r == self.spec_raw(),
    {
        match self {
            ComponentSwizzle::Identity => 0,
            ComponentSwizzle::Zero => 1,
            ComponentSwizzle::One => 2,
            ComponentSwizzle::R => 3,
            ComponentSwizzle::G => 4,
            ComponentSwizzle::B => 5,
        }
    }

    /// The swizzle of a raw `VkComponentSwizzle`; the alpha swizzle and unknown
    /// values are not accepted.
    pub fn from_raw(raw: i32) -> (r: Self)
        requires
            0 <= raw <= 5,
        ensures
            r == spec_swizzle_of(raw),
    {
        if raw == 0 {
            ComponentSwizzle::Identity
        } else if raw == 1 {
            ComponentSwizzle::Zero
        } else if raw == 2 {
            ComponentSwizzle::One
        } else if raw == 3 {
            ComponentSwizzle::R
        } else if raw == 4 {
            ComponentSwizzle::G
        } else {
            ComponentSwizzle::B
        }
    }
}

/// A swizzle survives the trip through its raw value.
pub proof fn lemma_swizzle_round_trip(s: ComponentSwizzle)
    ensures
        0 <= s.spec_raw() <= 5,
        spec_swizzle_of(s.spec_raw()) == s,
{
}

/// How a view sees the image: dimensionality and whether it is an array or a cube.
#[derive(Debug, Clone, Copy, PartialEq, Eq, Hash, Structural)]
pub enum ImageViewType {
    Type1D,
    Type2D,
    Type3D,
    Cube,
    Type1DArray,
    Type2DArray,
    CubeArray,
}

impl Default for ImageViewType {
    fn default() -> (r: Self)
        ensures
            r == ImageViewType::Type2D,
    {
        ImageViewType::Type2D
    }
}

impl ImageViewType {
    pub open spec fn spec_raw(self) -> i32 {
        match self {
            ImageViewType::Type1D => 0,
            ImageViewType::Type2D => 1,
            ImageViewType::Type3D => 2,
            ImageViewType::Cube => 3,
            ImageViewType::Type1DArray => 4,
            ImageViewType::Type2DArray => 5,
            ImageViewType::CubeArray => 6,
        }
    }

    /// The raw `VkImageViewType`: the position of the variant.
    pub fn as_raw(self) -> (r: i32)
        ensures
            r == self.spec_raw(),
    {
        match self {
            ImageViewType::Type1D => 0,
            ImageViewType::Type2D => 1,
            ImageViewType::Type3D => 2,
            ImageViewType::Cube => 3,
            ImageViewType::Type1DArray => 4,
            ImageViewType::Type2DArray => 5,
            ImageViewType::CubeArray => 6,
        }
    }
}

/// Which source each channel of a view takes.
#[derive(Debug, Default, Clone, Copy, PartialEq, Eq, Hash, Structural)]
pub struct ComponentMapping {
    pub r: ComponentSwizzle,
    pub g: ComponentSwizzle,
    pub b: ComponentSwizzle,
    pub a: ComponentSwizzle,
}

/// The number of elements of a range: `end - start`, or none when it is empty.
pub open spec fn range_len(r: Range<u32>) -> u32 {
    if r.end > r.start {
        (r.end - r.start) as u32
    } else {
        0
    }
}

fn range_count(r: &Range<u32>) -> (n: u32)
    ensures
        n == range_len(*r),
{
    if r.end > r.start {
        r.end - r.start
    } else {
        0
    }
}

/// The mip levels and array layers of some aspects of an image.
#[derive(Debug, PartialEq, Eq, Hash)]
pub struct ImageSubresourceRange {
    pub aspect_mask: ImageAspect,
    pub mip_levels: Range<u32>,
    pub array_layers: Range<u32>,
}

impl Clone for ImageSubresourceRange {
    fn clone(&self) -> (r: Self)
        ensures
            r == *self,
    {
        ImageSubresourceRange {
            aspect_mask: self.aspect_mask,
            mip_levels: self.mip_levels.start..self.mip_levels.end,
            array_layers: self.array_layers.start..self.array_layers.end,
        }
    }
}

impl Default for ImageSubresourceRange {
    fn default() -> (r: Self)
        ensures
            r.aspect_mask@ == 0x1,
            r.mip_levels.start == 0 && r.mip_levels.end == 1,
            r.array_layers.start == 0 && r.array_layers.end == 1,
    {
        ImageSubresourceRange {
            aspect_mask: ImageAspect::COLOR(),
            mip_levels: 0..1,
            array_layers: 0..1,
        }
    }
}

/// A subresource range as the driver takes it (`VkImageSubresourceRange`).
#[derive(Debug, Clone, Copy, PartialEq, Eq, Hash, Structural)]
pub struct RawImageSubresourceRange {
    pub aspect_mask: u32,
    pub base_mip_level: u32,
    pub level_count: u32,
    pub base_array_layer: u32,
    pub layer_count: u32,
}

impl ImageSubresourceRange {
    /// The range as the driver takes it: the first level and layer, and how many
    /// there are.
    pub fn to_raw(&self) -> (r: RawImageSubresourceRange)
        ensures
            r.aspect_mask == self.aspect_mask@ as u32,
            r.base_mip_level == self.mip_levels.start,
            r.level_count == range_len(self.mip_levels),
            r.base_array_layer == self.array_layers.start,
            r.layer_count == range_len(self.array_layers),
    {
        RawImageSubresourceRange {
            aspect_mask: self.aspect_mask.as_raw(),
            base_mip_level: self.mip_levels.start,
            level_count: range_count(&self.mip_levels),
            base_array_layer: self.array_layers.start,
            layer_count: range_count(&self.array_layers),
        }
    }
}

/// The array layers of one mip level of some aspects of an image.
#[derive(Debug, PartialEq, Eq, Hash)]
pub struct ImageSubresourceLayers {
    pub aspect_mask: ImageAspect,
    pub mip_level: u32,
    pub array_layers: Range<u32>,
}

impl Clone for ImageSubresourceLayers {
    fn clone(&self) -> (r: Self)
        ensures
            r == *self,
    {
        ImageSubresourceLayers {
            aspect_mask: self.aspect_mask,
            mip_level: self.mip_level,
            array_layers: self.array_layers.start..self.array_layers.end,
        }
    }
}

impl Default for ImageSubresourceLayers {
    fn default() -> (r: Self)
        ensures
            r.aspect_mask@ == 0x1,
            r.mip_level == 0,
            r.array_layers.start == 0 && r.array_layers.end == 1,
    {
        ImageSubresourceLayers { aspect_mask: ImageAspect::COLOR(), mip_level: 0, array_layers: 0..1 }
    }
}

/// Subresource layers as the driver takes them (`VkImageSubresourceLayers`).
#[derive(Debug, Clone, Copy, PartialEq, Eq, Hash, Structural)]
pub struct RawImageSubresourceLayers {
    pub aspect_mask: u32,
    pub mip_level: u32,
    pub base_array_layer: u32,
    pub layer_count: u32,
}

impl ImageSubresourceLayers {
    /// The layers as the driver takes them: the first layer and how many there are.
    pub fn to_raw(&self) -> (r: RawImageSubresourceLayers)
        ensures
            r.aspect_mask == self.aspect_mask@ as u32,
            r.mip_level == self.mip_level,
            r.base_array_layer == self.array_layers.start,
            r.layer_count == range_len(self.array_layers),
    {
        RawImageSubresourceLayers {
            aspect_mask: self.aspect_mask.as_raw(),
            mip_level: self.mip_level,
            base_array_layer: self.array_layers.start,
            layer_count: range_count(&self.array_layers),
        }
    }
}

/// What an image view is created with.
#[derive(Debug, Default, Clone, PartialEq, Eq, Hash)]
pub struct ImageViewCreateInfo {
    pub view_type: ImageViewType,
    pub format: Format,
    pub components: ComponentMapping,
    pub subresource_range: ImageSubresourceRange,
}

} // verus!
