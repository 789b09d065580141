use vstd::prelude::*;
use vstd::arithmetic::power2::{pow2, lemma_pow2_unfold, lemma2_to64, lemma_pow2_strictly_increases};
use vstd::arithmetic::power::{lemma_pow_increases, lemma_pow_positive};
use vstd::bits::lemma_u32_shr_is_div;
use vstd::std_specs::bits::{axiom_u32_leading_zeros, u32_leading_zeros};
use super::format::Format;

verus! {

/// Options for creating an image.
#[derive(Debug, Default, Clone, Copy, PartialEq, Eq, Hash, Structural)]
pub struct ImageCreateFlags(u32);

impl View for ImageCreateFlags {
    type V = u32;

    closed spec fn view(&self) -> u32 {
        self.0
    }
}

impl ImageCreateFlags {
    /// The bits that name a flag of this set.
    pub open spec fn spec_all_bits() -> u32 {
        0x1f
    }

    /// Backed by sparse memory binding.
    #[allow(non_snake_case)]
    pub fn SPARSE_BINDING() -> (r: Self)
        ensures
            r@ == 0x1,
    {
        ImageCreateFlags(0x1)
    }

    /// Partially resident.
    #[allow(non_snake_case)]
    pub fn SPARSE_RESIDENCY() -> (r: Self)
        ensures
            r@ == 0x2,
    {
        ImageCreateFlags(0x2)
    }

    /// Sparse memory may alias.
    #[allow(non_snake_case)]
    pub fn SPARSE_ALIASED() -> (r: Self)
        ensures
            r@ == 0x4,
    {
        ImageCreateFlags(0x4)
    }

    /// Views may use another format.
    #[allow(non_snake_case)]
    pub fn MUTABLE_FORMAT() -> (r: Self)
        ensures
            r@ == 0x8,
    {
        ImageCreateFlags(0x8)
    }

    /// Cube views may be made of it.
    #[allow(non_snake_case)]
    pub fn CUBE_COMPATIBLE() -> (r: Self)
        ensures
            r@ == 0x10,
    {
        ImageCreateFlags(0x10)
    }

    /// The set with no flag.
    pub fn empty() -> (r: Self)
        ensures
            r@ == 0,
    {
        ImageCreateFlags(0)
    }

    /// The raw bits of the set.
    pub fn bits(&self) -> (r: u32)
        ensures
            r == self@,
    {
        self.0
    }

    /// Keeps every bit, named or not.
    pub fn from_bits_retain(bits: u32) -> (r: Self)
        ensures
            r@ == bits,
    {
        ImageCreateFlags(bits)
    }

    /// Drops the bits that name no flag.
    pub fn from_bits_truncate(bits: u32) -> (r: Self)
        ensures
            r@ == bits & Self::spec_all_bits(),
    {
        ImageCreateFlags(bits & 0x1f)
    }

    /// Whether no bit is set.
    pub fn is_empty(&self) -> (r: bool)
        ensures
            r == (self@ == 0),
    {
        self.0 == 0
    }

    /// Whether every bit of `other` is set in `self`.
    pub fn contains(&self, other: Self) -> (r: bool)
        ensures
            r == (self@ & other@ == other@),
    {
        self.0 & other.0 == other.0
    }

    /// The bits set in either.
    pub fn union(self, other: Self) -> (r: Self)
        ensures
            r@ == self@ | other@,
    {
        ImageCreateFlags(self.0 | other.0)
    }

    /// The bits of `self` that `other` does not set.
    pub fn difference(self, other: Self) -> (r: Self)
        ensures
            r@ == self@ & !other@,
    {
        ImageCreateFlags(self.0 & !other.0)
    }
}

/// How an image is used.
#[derive(Debug, Default, Clone, Copy, PartialEq, Eq, Hash, Structural)]
pub struct ImageUsageFlags(u32);

impl View for ImageUsageFlags {
    type V = u32;

    closed spec fn view(&self) -> u32 {
        self.0
    }
}

impl ImageUsageFlags {
    /// The bits that name a flag of this set.
    pub open spec fn spec_all_bits() -> u32 {
        0xff
    }

    /// Source of transfers.
    #[allow(non_snake_case)]
    pub fn TRANSFER_SRC() -> (r: Self)
        ensures
            r@ == 0x1,
    {
        ImageUsageFlags(0x1)
    }

    /// Destination of transfers.
    #[allow(non_snake_case)]
    pub fn TRANSFER_DST() -> (r: Self)
        ensures
            r@ == 0x2,
    {
        ImageUsageFlags(0x2)
    }

    /// Sampled in shaders.
    #[allow(non_snake_case)]
    pub fn SAMPLED() -> (r: Self)
        ensures
            r@ == 0x4,
    {
        ImageUsageFlags(0x4)
    }

    /// Storage image.
    #[allow(non_snake_case)]
    pub fn STORAGE() -> (r: Self)
        ensures
            r@ == 0x8,
    {
        ImageUsageFlags(0x8)
    }

    /// Color attachment.
    #[allow(non_snake_case)]
    pub fn COLOR_ATTACHMENT() -> (r: Self)
        ensures
            r@ == 0x10,
    {
        ImageUsageFlags(0x10)
    }

    /// Depth/stencil attachment.
    #[allow(non_snake_case)]
    pub fn DEPTH_STENCIL_ATTACHMENT() -> (r: Self)
        ensures
            r@ == 0x20,
    {
        ImageUsageFlags(0x20)
    }

    /// Transient attachment.
    #[allow(non_snake_case)]
    pub fn TRANSIENT_ATTACHMENT() -> (r: Self)
        ensures
            r@ == 0x40,
    {
        ImageUsageFlags(0x40)
    }

    /// Input attachment.
    #[allow(non_snake_case)]
    pub fn INPUT_ATTACHMENT() -> (r: Self)
        ensures
            r@ == 0x80,
    {
        ImageUsageFlags(0x80)
    }

    /// The set with no flag.
    pub fn empty() -> (r: Self)
        ensures
            r@ == 0,
    {
        ImageUsageFlags(0)
    }

    /// The raw bits of the set.
    pub fn bits(&self) -> (r: u32)
        ensures
            r == self@,
    {
        self.0
    }

    /// Keeps every bit, named or not.
    pub fn from_bits_retain(bits: u32) -> (r: Self)
        ensures
            r@ == bits,
    {
        ImageUsageFlags(bits)
    }

    /// Drops the bits that name no flag.
    pub fn from_bits_truncate(bits: u32) -> (r: Self)
        ensures
            r@ == bits & Self::spec_all_bits(),
    {
        ImageUsageFlags(bits & 0xff)
    }

    /// Whether no bit is set.
    pub fn is_empty(&self) -> (r: bool)
        ensures
            r == (self@ == 0),
    {
        self.0 == 0
    }

    /// Whether every bit of `other` is set in `self`.
    pub fn contains(&self, other: Self) -> (r: bool)
        ensures
            r == (self@ & other@ == other@),
    {
        self.0 & other.0 == other.0
    }

    /// The bits set in either.
    pub fn union(self, other: Self) -> (r: Self)
        ensures
            r@ == self@ | other@,
    {
        ImageUsageFlags(self.0 | other.0)
    }

    /// The bits of `self` that `other` does not set.
    pub fn difference(self, other: Self) -> (r: Self)
        ensures
            r@ == self@ & !other@,
    {
        ImageUsageFlags(self.0 & !other.0)
    }
}

/// Sample counts of an image.
#[derive(Debug, Default, Clone, Copy, PartialEq, Eq, Hash, Structural)]
pub struct ImageSampleCountFlags(u32);

impl View for ImageSampleCountFlags {
    type V = u32;

    closed spec fn view(&self) -> u32 {
        self.0
    }
}

impl ImageSampleCountFlags {
    /// The bits that name a flag of this set.
    pub open spec fn spec_all_bits() -> u32 {
        0x7f
    }

    /// One sample.
    #[allow(non_snake_case)]
    pub fn TYPE_1() -> (r: Self)
        ensures
            r@ == 0x1,
    {
        ImageSampleCountFlags(0x1)
    }

    /// Two samples.
    #[allow(non_snake_case)]
    pub fn TYPE_2() -> (r: Self)
        ensures
            r@ == 0x2,
    {
        ImageSampleCountFlags(0x2)
    }

    /// Four samples.
    #[allow(non_snake_case)]
    pub fn TYPE_4() -> (r: Self)
        ensures
            r@ == 0x4,
    {
        ImageSampleCountFlags(0x4)
    }

    /// Eight samples.
    #[allow(non_snake_case)]
    pub fn TYPE_8() -> (r: Self)
        ensures
            r@ == 0x8,
    {
        ImageSampleCountFlags(0x8)
    }

    /// Sixteen samples.
    #[allow(non_snake_case)]
    pub fn TYPE_16() -> (r: Self)
        ensures
            r@ == 0x10,
    {
        ImageSampleCountFlags(0x10)
    }

    /// Thirty-two samples.
    #[allow(non_snake_case)]
    pub fn TYPE_32() -> (r: Self)
        ensures
            r@ == 0x20,
    {
        ImageSampleCountFlags(0x20)
    }

    /// Sixty-four samples.
    #[allow(non_snake_case)]
    pub fn TYPE_64() -> (r: Self)
        ensures
            r@ == 0x40,
    {
        ImageSampleCountFlags(0x40)
    }

    /// The set with no flag.
    pub fn empty() -> (r: Self)
        ensures
            r@ == 0,
    {
        ImageSampleCountFlags(0)
    }

    /// The raw bits of the set.
    pub fn bits(&self) -> (r: u32)
        ensures
            r == self@,
    {
        self.0
    }

    /// Keeps every bit, named or not.
    pub fn from_bits_retain(bits: u32) -> (r: Self)
        ensures
            r@ == bits,
    {
        ImageSampleCountFlags(bits)
    }

    /// Drops the bits that name no flag.
    pub fn from_bits_truncate(bits: u32) -> (r: Self)
        ensures
            r@ == bits & Self::spec_all_bits(),
    {
        ImageSampleCountFlags(bits & 0x7f)
    }

    /// Whether no bit is set.
    pub fn is_empty(&self) -> (r: bool)
        ensures
            r == (self@ == 0),
    {
        self.0 == 0
    }

    /// Whether every bit of `other` is set in `self`.
    pub fn contains(&self, other: Self) -> (r: bool)
        ensures
            r == (self@ & other@ == other@),
    {
        self.0 & other.0 == other.0
    }

    /// The bits set in either.
    pub fn union(self, other: Self) -> (r: Self)
        ensures
            r@ == self@ | other@,
    {
        ImageSampleCountFlags(self.0 | other.0)
    }

    /// The bits of `self` that `other` does not set.
    pub fn difference(self, other: Self) -> (r: Self)
        ensures
            r@ == self@ & !other@,
    {
        ImageSampleCountFlags(self.0 & !other.0)
    }
}

/// How the texels of an image are laid out in memory.
#[derive(Debug, Clone, Copy, PartialEq, Eq, Hash, Structural)]
pub enum ImageTiling {
    Linear,
    Optimal,
}

impl ImageTiling {
    /// The raw `VkImageTiling`.
    pub fn as_raw(self) -> (r: i32)
        ensures
            r == (match self {
                ImageTiling::Linear => 1i32,
                ImageTiling::Optimal => 0i32,
            }),
    {
        match self {
            ImageTiling::Linear => 1,
            ImageTiling::Optimal => 0,
        }
    }
}

/// The dimensionality of an image, with its size.
#[derive(Debug, Clone, Copy, PartialEq, Eq, Hash, Structural)]
pub enum ImageType {
    Type1D { width: u32 },
    Type2D { width: u32, height: u32, miplevels_enabled: bool },
    Type3D { width: u32, height: u32, depth: u32 },
}

impl ImageType {
    /// The raw `VkImageType`.
    pub fn as_raw(self) -> (r: i32)
        ensures
            r == (match self {
                ImageType::Type1D { .. } => 0i32,
                ImageType::Type2D { .. } => 1i32,
                ImageType::Type3D { .. } => 2i32,
            }),
    {
        match self {
            ImageType::Type1D { .. } => 0,
            ImageType::Type2D { .. } => 1,
            ImageType::Type3D { .. } => 2,
        }
    }
}

/// How the texels of an image are arranged for their current use.
#[derive(Debug, Clone, Copy, PartialEq, Eq, Hash, Structural)]
pub enum ImageLayout {
    Undefined,
    General,
    ColorAttachmentOptimal,
    DepthStencilAttachmentOptimal,
    DepthStencilReadOnlyOptimal,
    ShaderReadOnlyOptimal,
    TransferSrcOptimal,
    TransferDstOptimal,
    Preinitialized,
    DepthAttachmentOptimal,
    StencilAttachmentOptimal,
    DepthReadOnlyOptimal,
    StencilReadOnlyOptimal,
}

impl ImageLayout {
    /// The raw `VkImageLayout` of the layout.
    pub open spec fn spec_raw(self) -> i32 {
        match self {
            ImageLayout::Undefined => 0,
            ImageLayout::General => 1,
            ImageLayout::ColorAttachmentOptimal => 2,
            ImageLayout::DepthStencilAttachmentOptimal => 3,
            ImageLayout::DepthStencilReadOnlyOptimal => 4,
            ImageLayout::ShaderReadOnlyOptimal => 5,
            ImageLayout::TransferSrcOptimal => 6,
            ImageLayout::TransferDstOptimal => 7,
            ImageLayout::Preinitialized => 8,
            ImageLayout::DepthAttachmentOptimal => 1000241000,
            ImageLayout::StencilAttachmentOptimal => 1000241002,
            ImageLayout::DepthReadOnlyOptimal => 1000241001,
            ImageLayout::StencilReadOnlyOptimal => 1000241003,
        }
    }

    /// The raw `VkImageLayout` of the layout.
    pub fn as_raw(self) -> (r: i32)
        ensures
            r == self.spec_raw(),
    {
        match self {
            ImageLayout::Undefined => 0,
            ImageLayout::General => 1,
            ImageLayout::ColorAttachmentOptimal => 2,
            ImageLayout::DepthStencilAttachmentOptimal => 3,
            ImageLayout::DepthStencilReadOnlyOptimal => 4,
            ImageLayout::ShaderReadOnlyOptimal => 5,
            ImageLayout::TransferSrcOptimal => 6,
            ImageLayout::TransferDstOptimal => 7,
            ImageLayout::Preinitialized => 8,
            ImageLayout::DepthAttachmentOptimal => 1000241000,
            ImageLayout::StencilAttachmentOptimal => 1000241002,
            ImageLayout::DepthReadOnlyOptimal => 1000241001,
            ImageLayout::StencilReadOnlyOptimal => 1000241003,
        }
    }
}

/// Distinct layouts have distinct raw values.
pub proof fn lemma_image_layout_raw_injective(a: ImageLayout, b: ImageLayout)
    requires
        a.spec_raw() == b.spec_raw(),
    ensures
        a == b,
{
}

/// The size of an image in texels along each axis.
#[derive(Debug, Default, Clone, Copy, PartialEq, Eq, Hash, Structural)]
pub struct Extent3D {
    pub width: u32,
    pub height: u32,
    pub depth: u32,
}

/// Everything an image is created from.
#[derive(Debug, Clone, Copy, PartialEq, Eq, Hash)]
pub struct ImageCreateInfo {
    pub usage_flags: ImageUsageFlags,
    pub create_flags: ImageCreateFlags,
    pub sample_count_flags: ImageSampleCountFlags,
    pub initial_layout: ImageLayout,
    pub image_tiling: ImageTiling,
    pub image_type: ImageType,
    pub array_layers: u32,
    pub mipmaps_enabled: bool,
    pub format: Format,
}

/// The position of the highest set bit of `n` (`0` for `0` and `1`).
pub open spec fn floor_log2(n: nat) -> nat
    decreases n,
{
    if n <= 1 {
        0
    } else {
        1 + floor_log2(n / 2)
    }
}

/// The length of a full mip chain for an image of `width` by `height` texels.
pub open spec fn spec_mip_levels(width: u32, height: u32) -> nat {
    floor_log2((if width >= height { width } else { height }) as nat) + 1
}

/// The number of mip levels of a full chain for an image of `width` by `height`
/// texels: one more than the base-two logarithm of the larger side, rounded down
/// (a single level for an empty image); for a nonempty image, the number of bits
/// of the larger side. The logarithm is taken exactly, on integers. Taken through
/// `f32`, the side is first rounded to a float, and `f32::log2` has a precision
/// that std leaves open, so the result may be one level more where the side lies
/// just below a power of two: for a side of at least 2^24 that rounds up to a
/// power of two (`u32::MAX` gives 32 levels here, 33 through `f32`), and, with a
/// logarithm that rounds to the nearest float, for such sides from 2^21 on.
pub fn calc_mip_levels_for_resolution(width: u32, height: u32) -> (r: u32)
    ensures
        r == spec_mip_levels(width, height),
        (if width >= height { width } else { height }) >= 1 ==> r == 32 - (if width >= height {
            width
        } else {
            height
        }).leading_zeros(),
{
    let largest = if width >= height { width } else { height };
    let mut rest = largest;
    let mut halvings: u32 = 0;
    proof {
        lemma_floor_log2_below_32(largest as nat);
    }
    while rest > 1
        invariant
            floor_log2(largest as nat) == halvings + floor_log2(rest as nat),
            floor_log2(largest as nat) < 32,
        decreases rest,
    {
        rest = rest / 2;
        halvings = halvings + 1;
    }
    proof {
        if largest >= 1 {
            lemma_floor_log2_leading_zeros(largest);
        }
    }
    halvings + 1
}

/// For a nonzero word, the position of its highest set bit is 31 less its
/// leading zeros.
pub proof fn lemma_floor_log2_leading_zeros(i: u32)
    requires
        i >= 1,
    ensures
        floor_log2(i as nat) + 1 == 32 - u32_leading_zeros(i),
{
    axiom_u32_leading_zeros(i);
    let lz = u32_leading_zeros(i);
    assert(lz < 32);
    let p: u32 = (31 - lz) as u32;
    let shifted = i >> p;
    assert(shifted & 1u32 != 0u32 ==> shifted != 0u32) by (bit_vector);
    assert(shifted != 0u32);
    lemma_u32_shr_is_div(i, p);
    lemma2_to64();
    lemma_pow_positive(2, p as nat);
    let d = pow2(p as nat);
    assert(i as nat >= d) by (nonlinear_arith)
        requires
            i as nat / d >= 1,
            d > 0,
    ;
    if lz >= 1 {
        let q: u32 = (32 - lz) as u32;
        lemma_u32_shr_is_div(i, q);
        lemma_pow_positive(2, q as nat);
        let e = pow2(q as nat);
        assert(i < e) by (nonlinear_arith)
            requires
                i as nat / e == 0,
                e > 0,
        ;
    } else {
        assert(i < pow2(32));
    }
    assert(i as nat >= pow2(p as nat));
    assert(i < pow2(p as nat + 1));
    lemma_mip_levels_bounds(i as nat);
    let f = floor_log2(i as nat);
    if f < p {
        if f + 1 < p {
            lemma_pow2_strictly_increases(f + 1, p as nat);
        }
    } else if f > p {
        if p + 1 < f {
            lemma_pow2_strictly_increases(p as nat + 1, f);
        }
    }
}

/// `floor_log2` never decreases.
proof fn lemma_floor_log2_monotone(a: nat, b: nat)
    requires
        a <= b,
    ensures
        floor_log2(a) <= floor_log2(b),
    decreases b,
{
    if a > 1 {
        lemma_floor_log2_monotone(a / 2, b / 2);
    }
}

/// The chain length depends only on the larger side, so the sides may be
/// swapped; and it never decreases when either side grows.
pub proof fn lemma_mip_levels_symmetric_and_monotone(w1: u32, h1: u32, w2: u32, h2: u32)
    ensures
        spec_mip_levels(w1, h1) == spec_mip_levels(h1, w1),
        w1 <= w2 && h1 <= h2 ==> spec_mip_levels(w1, h1) <= spec_mip_levels(w2, h2),
{
    if w1 <= w2 && h1 <= h2 {
        let m1 = if w1 >= h1 { w1 } else { h1 };
        let m2 = if w2 >= h2 { w2 } else { h2 };
        lemma_floor_log2_monotone(m1 as nat, m2 as nat);
    }
}

/// The chain is exactly as long as needed: the larger side `m` lies in
/// `[2^(levels - 1), 2^levels)`.
pub proof fn lemma_mip_levels_bounds(m: nat)
    requires
        m >= 1,
    ensures
        pow2(floor_log2(m)) <= m < pow2(floor_log2(m) + 1),
    decreases m,
{
    if m == 1 {
        lemma2_to64();
    } else {
        lemma_mip_levels_bounds(m / 2);
        let f = floor_log2(m / 2);
        lemma_pow2_unfold(f + 1);
        lemma_pow2_unfold(f + 2);
    }
}

/// A 32-bit number has its highest bit below bit 32.
proof fn lemma_floor_log2_below_32(n: nat)
    requires
        n <= 0xffff_ffff,
    ensures
        floor_log2(n) < 32,
{
    if n >= 1 {
        lemma_mip_levels_bounds(n);
        lemma2_to64();
        if floor_log2(n) >= 32 {
            lemma_pow_increases(2, 32, floor_log2(n));
            lemma_pow_positive(2, 32);
            lemma_pow_positive(2, floor_log2(n));
            assert(pow2(32) <= pow2(floor_log2(n)));
        }
    }
}

/// The extent of an image of type `ty`; missing axes have one texel.
pub fn image_extent(ty: ImageType) -> (r: Extent3D)
    ensures
        r == (match ty {
            ImageType::Type1D { width } => Extent3D { width, height: 1, depth: 1 },
            ImageType::Type2D { width, height, .. } => Extent3D { width, height, depth: 1 },
            ImageType::Type3D { width, height, depth } => Extent3D { width, height, depth },
        }),
{
    match ty {
        ImageType::Type1D { width } => Extent3D { width, height: 1, depth: 1 },
        ImageType::Type2D { width, height, .. } => Extent3D { width, height, depth: 1 },
        ImageType::Type3D { width, height, depth } => Extent3D { width, height, depth },
    }
}

/// The number of mip levels an image of type `ty` is created with: a full chain
/// for 2D images that ask for one, a single level otherwise.
pub fn image_mip_levels(ty: ImageType) -> (r: u32)
    ensures
        r == (match ty {
            ImageType::Type2D { width, height, miplevels_enabled } => if miplevels_enabled {
                floor_log2((if width >= height { width } else { height }) as nat) + 1
            } else {
                1
            },
            _ => 1,
        }),
{
    match ty {
        ImageType::Type2D { width, height, miplevels_enabled } => if miplevels_enabled {
            calc_mip_levels_for_resolution(width, height)
        } else {
            1
        },
        _ => 1,
    }
}

/// Whether images with these creation flags can be created: cube compatibility
/// is the only option that is implemented.
pub fn create_flags_supported(flags: ImageCreateFlags) -> (r: bool)
    ensures
        r == (flags@ & !0x10u32 == 0),
{
    flags.difference(ImageCreateFlags::CUBE_COMPATIBLE()).is_empty()
}

/// Why an image could not be mapped.
#[derive(Debug, Clone, Copy, PartialEq, Eq, Hash)]
pub enum ImageMapError<E> {
    FormatMismatch,
    NotLinearLayout,
    MappingError(E),
}

/// The number of texels of an image of type `ty`.
pub open spec fn texel_count(ty: ImageType) -> int {
    match ty {
        ImageType::Type1D { width } => width as int,
        ImageType::Type2D { width, height, .. } => width * height,
        ImageType::Type3D { width, height, depth } => width * height * depth,
    }
}

/// Whether the texels of an image of type `ty` can be counted in a `usize`, the
/// product of width and height being taken first.
pub open spec fn texel_count_fits(ty: ImageType) -> bool {
    match ty {
        ImageType::Type1D { .. } => true,
        ImageType::Type2D { width, height, .. } => width * height <= usize::MAX,
        ImageType::Type3D { width, height, depth } => width * height <= usize::MAX && width
            * height * depth <= usize::MAX,
    }
}

/// Checks that an image created from `info` can be mapped as texels of
/// `texel_format`, and counts the texels the mapping holds. The format must be
/// the image's and the tiling linear.
pub fn map_texel_count<E>(info: &ImageCreateInfo, texel_format: Format) -> (r: Result<
    usize,
    ImageMapError<E>,
>)
    requires
        texel_format == info.format && info.image_tiling == ImageTiling::Linear ==> texel_count_fits(
            info.image_type,
        ),
    ensures
        texel_format != info.format ==> r == Err::<usize, ImageMapError<E>>(
            ImageMapError::FormatMismatch,
        ),
        texel_format == info.format && info.image_tiling != ImageTiling::Linear ==> r == Err::<
            usize,
            ImageMapError<E>,
        >(ImageMapError::NotLinearLayout),
        texel_format == info.format && info.image_tiling == ImageTiling::Linear ==> r == Ok::<
            usize,
            ImageMapError<E>,
        >(texel_count(info.image_type) as usize),
{
    if texel_format != info.format {
        return Err(ImageMapError::FormatMismatch);
    }
    if info.image_tiling != ImageTiling::Linear {
        return Err(ImageMapError::NotLinearLayout);
    }
    match info.image_type {
        ImageType::Type1D { width } => Ok(width as usize),
        ImageType::Type2D { width, height, .. } => {
            assert(0 <= width * height) by (nonlinear_arith);
            Ok(width as usize * height as usize)
        },
        ImageType::Type3D { width, height, depth } => {
            assert(0 <= width * height) by (nonlinear_arith);
            assert(0 <= width * height * depth) by (nonlinear_arith);
            let plane = width as usize * height as usize;
            Ok(plane * depth as usize)
        },
    }
}

/// Whether the texels of an image of type `ty` can be counted in a `usize`, as
/// [`map_texel_count`] asks of a linear image of the mapped format.
pub fn texel_count_fits_usize(ty: ImageType) -> (r: bool)
    ensures
        r == texel_count_fits(ty),
{
    match ty {
        ImageType::Type1D { .. } => true,
        ImageType::Type2D { width, height, .. } => {
            let w = width as u128;
            let h = height as u128;
            assert(w * h <= 0xffff_ffffu128 * 0xffff_ffffu128) by (nonlinear_arith)
                requires
                    w <= 0xffff_ffffu128,
                    h <= 0xffff_ffffu128,
            ;
            w * h <= usize::MAX as u128
        },
        ImageType::Type3D { width, height, depth } => {
            let w = width as u128;
            let h = height as u128;
            let d = depth as u128;
            assert(w * h <= 0xffff_ffffu128 * 0xffff_ffffu128) by (nonlinear_arith)
                requires
                    w <= 0xffff_ffffu128,
                    h <= 0xffff_ffffu128,
            ;
            let plane = w * h;
            assert(plane * d <= 0xffff_ffffu128 * 0xffff_ffffu128 * 0xffff_ffffu128)
                by (nonlinear_arith)
                requires
                    plane <= 0xffff_ffffu128 * 0xffff_ffffu128,
                    d <= 0xffff_ffffu128,
            ;
            assert(plane * d == width * height * depth) by (nonlinear_arith)
                requires
                    plane == w * h,
                    w == width,
                    h == height,
                    d == depth,
            ;
            plane <= usize::MAX as u128 && plane * d <= usize::MAX as u128
        },
    }
}

} // verus!
