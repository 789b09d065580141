use vstd::prelude::*;

verus! {

/// What the queues of a family can do.
#[derive(Debug, Default, Clone, Copy, PartialEq, Eq, Hash, Structural)]
pub struct QueueFamilyCapabilities(u32);

impl View for QueueFamilyCapabilities {
    type V = u32;

    closed spec fn view(&self) -> u32 {
        self.0
    }
}

impl QueueFamilyCapabilities {
    /// The bits that name a flag of this set.
    pub open spec fn spec_all_bits() -> u32 {
        0xf
    }

    /// Graphics work.
    #[allow(non_snake_case)]
    pub fn GRAPHICS() -> (r: Self)
        ensures
            r@ == 0x1,
    {
        QueueFamilyCapabilities(0x1)
    }

    /// Compute work.
    #[allow(non_snake_case)]
    pub fn COMPUTE() -> (r: Self)
        ensures
            r@ == 0x2,
    {
        QueueFamilyCapabilities(0x2)
    }

    /// Transfer work.
    #[allow(non_snake_case)]
    pub fn TRANSFER() -> (r: Self)
        ensures
            r@ == 0x4,
    {
        QueueFamilyCapabilities(0x4)
    }

    /// Sparse memory binding.
    #[allow(non_snake_case)]
    pub fn SPARSE_BINDING() -> (r: Self)
        ensures
            r@ == 0x8,
    {
        QueueFamilyCapabilities(0x8)
    }

    /// The set with no flag.
    pub fn empty() -> (r: Self)
        ensures
            r@ == 0,
    {
        QueueFamilyCapabilities(0)
    }

    /// The raw bits of the set.
    pub fn bits(&self) -> (r: u32)
        ensures
            r == self@,
    {
        self.0
    }

    /// Keeps every bit, named or not.
    pub fn from_bits_retain(bits: u32) -> (r: Self)
        ensures
            r@ == bits,
    {
        QueueFamilyCapabilities(bits)
    }

    /// Drops the bits that name no flag.
    pub fn from_bits_truncate(bits: u32) -> (r: Self)
        ensures
            r@ == bits & Self::spec_all_bits(),
    {
        QueueFamilyCapabilities(bits & 0xf)
    }

    /// Whether no bit is set.
    pub fn is_empty(&self) -> (r: bool)
        ensures
            r == (self@ == 0),
    {
        self.0 == 0
    }

    /// Whether every bit of `other` is set in `self`.
    pub fn contains(&self, other: Self) -> (r: bool)
        ensures
            r == (self@ & other@ == other@),
    {
        self.0 & other.0 == other.0
    }

    /// The bits set in either.
    pub fn union(self, other: Self) -> (r: Self)
        ensures
            r@ == self@ | other@,
    {
        QueueFamilyCapabilities(self.0 | other.0)
    }

    /// The bits of `self` that `other` does not set.
    pub fn difference(self, other: Self) -> (r: Self)
        ensures
            r@ == self@ & !other@,
    {
        QueueFamilyCapabilities(self.0 & !other.0)
    }
}

/// A family of queues of a physical device.
#[derive(Debug, Clone, Copy, PartialEq, Eq, Hash, Structural)]
pub struct QueueFamily {
    pub capabilities: QueueFamilyCapabilities,
    pub queue_count: u32,
}

} // verus!
