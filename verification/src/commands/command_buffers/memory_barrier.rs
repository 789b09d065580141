use vstd::prelude::*;

verus! {

/// How a barrier's dependency is formed.
#[derive(Debug, Default, Clone, Copy, PartialEq, Eq, Hash, Structural)]
pub struct PipelineBarrierDependencyFlags(u8);

impl View for PipelineBarrierDependencyFlags {
    type V = u8;

    closed spec fn view(&self) -> u8 {
        self.0
    }
}

impl PipelineBarrierDependencyFlags {
    /// The bits that name a flag of this set.
    pub open spec fn spec_all_bits() -> u8 {
        0x5
    }

    /// Framebuffer-local dependency.
    #[allow(non_snake_case)]
    pub fn BY_REGION() -> (r: Self)
        ensures
            r@ == 0x1,
    {
        PipelineBarrierDependencyFlags(0x1)
    }

    /// View-local dependency.
    #[allow(non_snake_case)]
    pub fn VIEW_LOCAL() -> (r: Self)
        ensures
            r@ == 0x4,
    {
        PipelineBarrierDependencyFlags(0x4)
    }

    /// The set with no flag.
    pub fn empty() -> (r: Self)
        ensures
            r@ == 0,
    {
        PipelineBarrierDependencyFlags(0)
    }

    /// The raw bits of the set.
    pub fn bits(&self) -> (r: u8)
        ensures
            r == self@,
    {
        self.0
    }

    /// Keeps every bit, named or not.
    pub fn from_bits_retain(bits: u8) -> (r: Self)
        ensures
            r@ == bits,
    {
        PipelineBarrierDependencyFlags(bits)
    }

    /// Drops the bits that name no flag.
    pub fn from_bits_truncate(bits: u8) -> (r: Self)
        ensures
            r@ == bits & Self::spec_all_bits(),
    {
        PipelineBarrierDependencyFlags(bits & 0x5)
    }

    /// Whether no bit is set.
    pub fn is_empty(&self) -> (r: bool)
        ensures
            r == (self@ == 0),
    {
        self.0 == 0
    }

    /// Whether every bit of `other` is set in `self`.
    pub fn contains(&self, other: Self) -> (r: bool)
        ensures
            r == (self@ & other@ == other@),
    {
        self.0 & other.0 == other.0
    }

    /// The bits set in either.
    pub fn union(self, other: Self) -> (r: Self)
        ensures
            r@ == self@ | other@,
    {
        PipelineBarrierDependencyFlags(self.0 | other.0)
    }

    /// The bits of `self` that `other` does not set.
    pub fn difference(self, other: Self) -> (r: Self)
        ensures
            r@ == self@ & !other@,
    {
        PipelineBarrierDependencyFlags(self.0 & !other.0)
    }
}

/// Kinds of memory access that a barrier orders.
#[derive(Debug, Default, Clone, Copy, PartialEq, Eq, Hash, Structural)]
pub struct AccessFlags(u32);

impl View for AccessFlags {
    type V = u32;

    closed spec fn view(&self) -> u32 {
        self.0
    }
}

impl AccessFlags {
    /// The bits that name a flag of this set.
    pub open spec fn spec_all_bits() -> u32 {
        0x1ffff
    }

    /// Reading indirect commands.
    #[allow(non_snake_case)]
    pub fn INDIRECT_COMMAND_READ() -> (r: Self)
        ensures
            r@ == 0x1,
    {
        AccessFlags(0x1)
    }

    /// Reading indices.
    #[allow(non_snake_case)]
    pub fn INDEX_READ() -> (r: Self)
        ensures
            r@ == 0x2,
    {
        AccessFlags(0x2)
    }

    /// Reading vertex attributes.
    #[allow(non_snake_case)]
    pub fn VERTEX_ATTRIBUTE_READ() -> (r: Self)
        ensures
            r@ == 0x4,
    {
        AccessFlags(0x4)
    }

    /// Reading uniform buffers.
    #[allow(non_snake_case)]
    pub fn UNIFORM_READ() -> (r: Self)
        ensures
            r@ == 0x8,
    {
        AccessFlags(0x8)
    }

    /// Reading input attachments.
    #[allow(non_snake_case)]
    pub fn INPUT_ATTACHMENT_READ() -> (r: Self)
        ensures
            r@ == 0x10,
    {
        AccessFlags(0x10)
    }

    /// Shader reads.
    #[allow(non_snake_case)]
    pub fn SHADER_READ() -> (r: Self)
        ensures
            r@ == 0x20,
    {
        AccessFlags(0x20)
    }

    /// Shader writes.
    #[allow(non_snake_case)]
    pub fn SHADER_WRITE() -> (r: Self)
        ensures
            r@ == 0x40,
    {
        AccessFlags(0x40)
    }

    /// Reading color attachments.
    #[allow(non_snake_case)]
    pub fn COLOR_ATTACHMENT_READ() -> (r: Self)
        ensures
            r@ == 0x80,
    {
        AccessFlags(0x80)
    }

    /// Writing color attachments.
    #[allow(non_snake_case)]
    pub fn COLOR_ATTACHMENT_WRITE() -> (r: Self)
        ensures
            r@ == 0x100,
    {
        AccessFlags(0x100)
    }

    /// Reading depth/stencil attachments.
    #[allow(non_snake_case)]
    pub fn DEPTH_STENCIL_ATTACHMENT_READ() -> (r: Self)
        ensures
            r@ == 0x200,
    {
        AccessFlags(0x200)
    }

    /// Writing depth/stencil attachments.
    #[allow(non_snake_case)]
    pub fn DEPTH_STENCIL_ATTACHMENT_WRITE() -> (r: Self)
        ensures
            r@ == 0x400,
    {
        AccessFlags(0x400)
    }

    /// Transfer reads.
    #[allow(non_snake_case)]
    pub fn TRANSFER_READ() -> (r: Self)
        ensures
            r@ == 0x800,
    {
        AccessFlags(0x800)
    }

    /// Transfer writes.
    #[allow(non_snake_case)]
    pub fn TRANSFER_WRITE() -> (r: Self)
        ensures
            r@ == 0x1000,
    {
        AccessFlags(0x1000)
    }

    /// Host reads.
    #[allow(non_snake_case)]
    pub fn HOST_READ() -> (r: Self)
        ensures
            r@ == 0x2000,
    {
        AccessFlags(0x2000)
    }

    /// Host writes.
    #[allow(non_snake_case)]
    pub fn HOST_WRITE() -> (r: Self)
        ensures
            r@ == 0x4000,
    {
        AccessFlags(0x4000)
    }

    /// Any read.
    #[allow(non_snake_case)]
    pub fn MEMORY_READ() -> (r: Self)
        ensures
            r@ == 0x8000,
    {
        AccessFlags(0x8000)
    }

    /// Any write.
    #[allow(non_snake_case)]
    pub fn MEMORY_WRITE() -> (r: Self)
        ensures
            r@ == 0x10000,
    {
        AccessFlags(0x10000)
    }

    /// The set with no flag.
    pub fn empty() -> (r: Self)
        ensures
            r@ == 0,
    {
        AccessFlags(0)
    }

    /// The raw bits of the set.
    pub fn bits(&self) -> (r: u32)
        ensures
            r == self@,
    {
        self.0
    }

    /// Keeps every bit, named or not.
    pub fn from_bits_retain(bits: u32) -> (r: Self)
        ensures
            r@ == bits,
    {
        AccessFlags(bits)
    }

    /// Drops the bits that name no flag.
    pub fn from_bits_truncate(bits: u32) -> (r: Self)
        ensures
            r@ == bits & Self::spec_all_bits(),
    {
        AccessFlags(bits & 0x1ffff)
    }

    /// Whether no bit is set.
    pub fn is_empty(&self) -> (r: bool)
        ensures
            r == (self@ == 0),
    {
        self.0 == 0
    }

    /// Whether every bit of `other` is set in `self`.
    pub fn contains(&self, other: Self) -> (r: bool)
        ensures
            r == (self@ & other@ == other@),
    {
        self.0 & other.0 == other.0
    }

    /// The bits set in either.
    pub fn union(self, other: Self) -> (r: Self)
        ensures
            r@ == self@ | other@,
    {
        AccessFlags(self.0 | other.0)
    }

    /// The bits of `self` that `other` does not set.
    pub fn difference(self, other: Self) -> (r: Self)
        ensures
            r@ == self@ & !other@,
    {
        AccessFlags(self.0 & !other.0)
    }
}

impl PipelineBarrierDependencyFlags {
    /// The raw `VkDependencyFlags`.
    pub fn as_raw(self) -> (r: u32)
        ensures
            r == self@ as u32,
    {
        self.bits() as u32
    }
}

/// A barrier on all memory: accesses of the first kinds before it are made
/// visible to accesses of the second kinds after it.
#[derive(Debug, Default, Clone, Copy, PartialEq, Eq, Hash, Structural)]
pub struct MemoryBarrier {
    pub src_access_mask: AccessFlags,
    pub dst_access_mask: AccessFlags,
}

/// A memory barrier as the driver takes it (the masks of `VkMemoryBarrier`).
#[derive(Debug, Clone, Copy, PartialEq, Eq, Hash, Structural)]
pub struct RawMemoryBarrier {
    pub src_access_mask: u32,
    pub dst_access_mask: u32,
}

impl MemoryBarrier {
    /// The barrier as the driver takes it.
    pub fn to_raw(self) -> (r: RawMemoryBarrier)
        ensures
            r.src_access_mask == self.src_access_mask@,
            r.dst_access_mask == self.dst_access_mask@,
    {
        RawMemoryBarrier {
            src_access_mask: self.src_access_mask.bits(),
            dst_access_mask: self.dst_access_mask.bits(),
        }
    }
}

} // verus!
