//! Pipeline stages and shader stages.

use vstd::prelude::*;

verus! {

/// The shader stages that can see a resource.
#[derive(Debug, Default, Clone, Copy, PartialEq, Eq, Hash, Structural)]
pub struct PipelineShaderStageFlags(u32);

impl View for PipelineShaderStageFlags {
    type V = u32;

    closed spec fn view(&self) -> u32 {
        self.0
    }
}

impl PipelineShaderStageFlags {
    /// The bits that name a flag of this set.
    pub open spec fn spec_all_bits() -> u32 {
        0x3f
    }

    /// Vertex shaders.
    #[allow(non_snake_case)]
    pub fn VERTEX() -> (r: Self)
        ensures
            r@ == 0x1,
    {
        PipelineShaderStageFlags(0x1)
    }

    /// Tessellation control shaders.
    #[allow(non_snake_case)]
    pub fn TESSELLATION_CONTROL() -> (r: Self)
        ensures
            r@ == 0x2,
    {
        PipelineShaderStageFlags(0x2)
    }

    /// Tessellation evaluation shaders.
    #[allow(non_snake_case)]
    pub fn TESSELLATION_EVALUATION() -> (r: Self)
        ensures
            r@ == 0x4,
    {
        PipelineShaderStageFlags(0x4)
    }

    /// Geometry shaders.
    #[allow(non_snake_case)]
    pub fn GEOMETRY() -> (r: Self)
        ensures
            r@ == 0x8,
    {
        PipelineShaderStageFlags(0x8)
    }

    /// Fragment shaders.
    #[allow(non_snake_case)]
    pub fn FRAGMENT() -> (r: Self)
        ensures
            r@ == 0x10,
    {
        PipelineShaderStageFlags(0x10)
    }

    /// Compute shaders.
    #[allow(non_snake_case)]
    pub fn COMPUTE() -> (r: Self)
        ensures
            r@ == 0x20,
    {
        PipelineShaderStageFlags(0x20)
    }

    /// The set with no flag.
    pub fn empty() -> (r: Self)
        ensures
            r@ == 0,
    {
        PipelineShaderStageFlags(0)
    }

    /// The raw bits of the set.
    pub fn bits(&self) -> (r: u32)
        ensures
            r == self@,
    {
        self.0
    }

    /// Keeps every bit, named or not.
    pub fn from_bits_retain(bits: u32) -> (r: Self)
        ensures
            r@ == bits,
    {
        PipelineShaderStageFlags(bits)
    }

    /// Drops the bits that name no flag.
    pub fn from_bits_truncate(bits: u32) -> (r: Self)
        ensures
            r@ == bits & Self::spec_all_bits(),
    {
        PipelineShaderStageFlags(bits & 0x3f)
    }

    /// Whether no bit is set.
    pub fn is_empty(&self) -> (r: bool)
        ensures
            r == (self@ == 0),
    {
        self.0 == 0
    }

    /// Whether every bit of `other` is set in `self`.
    pub fn contains(&self, other: Self) -> (r: bool)
        ensures
            r == (self@ & other@ == other@),
    {
        self.0 & other.0 == other.0
    }

    /// The bits set in either.
    pub fn union(self, other: Self) -> (r: Self)
        ensures
            r@ == self@ | other@,
    {
        PipelineShaderStageFlags(self.0 | other.0)
    }

    /// The bits of `self` that `other` does not set.
    pub fn difference(self, other: Self) -> (r: Self)
        ensures
            r@ == self@ & !other@,
    {
        PipelineShaderStageFlags(self.0 & !other.0)
    }
}

/// Stages of the pipeline that a dependency waits for or blocks.
#[derive(Debug, Default, Clone, Copy, PartialEq, Eq, Hash, Structural)]
pub struct PipelineStageFlags(u32);

impl View for PipelineStageFlags {
    type V = u32;

    closed spec fn view(&self) -> u32 {
        self.0
    }
}

impl PipelineStageFlags {
    /// The bits that name a flag of this set.
    pub open spec fn spec_all_bits() -> u32 {
        0x1ffff
    }

    /// Start of the pipeline.
    #[allow(non_snake_case)]
    pub fn TOP_OF_PIPE() -> (r: Self)
        ensures
            r@ == 0x1,
    {
        PipelineStageFlags(0x1)
    }

    /// Reading indirect commands.
    #[allow(non_snake_case)]
    pub fn DRAW_INDIRECT() -> (r: Self)
        ensures
            r@ == 0x2,
    {
        PipelineStageFlags(0x2)
    }

    /// Reading vertices and indices.
    #[allow(non_snake_case)]
    pub fn VERTEX_INPUT() -> (r: Self)
        ensures
            r@ == 0x4,
    {
        PipelineStageFlags(0x4)
    }

    /// Vertex shading.
    #[allow(non_snake_case)]
    pub fn VERTEX_SHADER() -> (r: Self)
        ensures
            r@ == 0x8,
    {
        PipelineStageFlags(0x8)
    }

    /// Tessellation control shading.
    #[allow(non_snake_case)]
    pub fn TESSELLATION_CONTROL_SHADER() -> (r: Self)
        ensures
            r@ == 0x10,
    {
        PipelineStageFlags(0x10)
    }

    /// Tessellation evaluation shading.
    #[allow(non_snake_case)]
    pub fn TESSELLATION_EVALUATION_SHADER() -> (r: Self)
        ensures
            r@ == 0x20,
    {
        PipelineStageFlags(0x20)
    }

    /// Geometry shading.
    #[allow(non_snake_case)]
    pub fn GEOMETRY_SHADER() -> (r: Self)
        ensures
            r@ == 0x40,
    {
        PipelineStageFlags(0x40)
    }

    /// Fragment shading.
    #[allow(non_snake_case)]
    pub fn FRAGMENT_SHADER() -> (r: Self)
        ensures
            r@ == 0x80,
    {
        PipelineStageFlags(0x80)
    }

    /// Early fragment tests.
    #[allow(non_snake_case)]
    pub fn EARLY_FRAGMENT_TESTS() -> (r: Self)
        ensures
            r@ == 0x100,
    {
        PipelineStageFlags(0x100)
    }

    /// Late fragment tests.
    #[allow(non_snake_case)]
    pub fn LATE_FRAGMENT_TESTS() -> (r: Self)
        ensures
            r@ == 0x200,
    {
        PipelineStageFlags(0x200)
    }

    /// Writing color attachments.
    #[allow(non_snake_case)]
    pub fn COLOR_ATTACHMENT_OUTPUT() -> (r: Self)
        ensures
            r@ == 0x400,
    {
        PipelineStageFlags(0x400)
    }

    /// Compute shading.
    #[allow(non_snake_case)]
    pub fn COMPUTE_SHADER() -> (r: Self)
        ensures
            r@ == 0x800,
    {
        PipelineStageFlags(0x800)
    }

    /// Copies and clears.
    #[allow(non_snake_case)]
    pub fn TRANSFER() -> (r: Self)
        ensures
            r@ == 0x1000,
    {
        PipelineStageFlags(0x1000)
    }

    /// End of the pipeline.
    #[allow(non_snake_case)]
    pub fn BOTTOM_OF_PIPE() -> (r: Self)
        ensures
            r@ == 0x2000,
    {
        PipelineStageFlags(0x2000)
    }

    /// Host access.
    #[allow(non_snake_case)]
    pub fn HOST() -> (r: Self)
        ensures
            r@ == 0x4000,
    {
        PipelineStageFlags(0x4000)
    }

    /// Every graphics stage.
    #[allow(non_snake_case)]
    pub fn ALL_GRAPHICS() -> (r: Self)
        ensures
            r@ == 0x8000,
    {
        PipelineStageFlags(0x8000)
    }

    /// Every command.
    #[allow(non_snake_case)]
    pub fn ALL_COMMANDS() -> (r: Self)
        ensures
            r@ == 0x10000,
    {
        PipelineStageFlags(0x10000)
    }

    /// The set with no flag.
    pub fn empty() -> (r: Self)
        ensures
            r@ == 0,
    {
        PipelineStageFlags(0)
    }

    /// The raw bits of the set.
    pub fn bits(&self) -> (r: u32)
        ensures
            r == self@,
    {
        self.0
    }

    /// Keeps every bit, named or not.
    pub fn from_bits_retain(bits: u32) -> (r: Self)
        ensures
            r@ == bits,
    {
        PipelineStageFlags(bits)
    }

    /// Drops the bits that name no flag.
    pub fn from_bits_truncate(bits: u32) -> (r: Self)
        ensures
            r@ == bits & Self::spec_all_bits(),
    {
        PipelineStageFlags(bits & 0x1ffff)
    }

    /// Whether no bit is set.
    pub fn is_empty(&self) -> (r: bool)
        ensures
            r == (self@ == 0),
    {
        self.0 == 0
    }

    /// Whether every bit of `other` is set in `self`.
    pub fn contains(&self, other: Self) -> (r: bool)
        ensures
            r == (self@ & other@ == other@),
    {
        self.0 & other.0 == other.0
    }

    /// The bits set in either.
    pub fn union(self, other: Self) -> (r: Self)
        ensures
            r@ == self@ | other@,
    {
        PipelineStageFlags(self.0 | other.0)
    }

    /// The bits of `self` that `other` does not set.
    pub fn difference(self, other: Self) -> (r: Self)
        ensures
            r@ == self@ & !other@,
    {
        PipelineStageFlags(self.0 & !other.0)
    }
}

} // verus!
