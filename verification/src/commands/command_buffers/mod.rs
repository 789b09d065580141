//! Command buffer levels and usage.

pub mod levels;
pub mod command_buffer_builder;
pub mod copy;
pub mod memory_barrier;

use vstd::prelude::*;

verus! {

/// How a command buffer will be submitted.
#[derive(Debug, Default, Clone, Copy, PartialEq, Eq, Hash, Structural)]
pub struct CommandBufferUsageFlags(u32);

impl View for CommandBufferUsageFlags {
    type V = u32;

    closed spec fn view(&self) -> u32 {
        self.0
    }
}

impl CommandBufferUsageFlags {
    /// The bits that name a flag of this set.
    pub open spec fn spec_all_bits() -> u32 {
        0x7
    }

    /// Submitted once, then reset.
    #[allow(non_snake_case)]
    pub fn ONE_TIME_SUBMIT() -> (r: Self)
        ensures
            r@ == 0x1,
    {
        CommandBufferUsageFlags(0x1)
    }

    /// A secondary buffer entirely inside a render pass.
    #[allow(non_snake_case)]
    pub fn RENDER_PASS_CONTINUE() -> (r: Self)
        ensures
            r@ == 0x2,
    {
        CommandBufferUsageFlags(0x2)
    }

    /// May be pending more than once at a time.
    #[allow(non_snake_case)]
    pub fn SIMULTANEOUS_USE() -> (r: Self)
        ensures
            r@ == 0x4,
    {
        CommandBufferUsageFlags(0x4)
    }

    /// The set with no flag.
    pub fn empty() -> (r: Self)
        ensures
            r@ == 0,
    {
        CommandBufferUsageFlags(0)
    }

    /// The raw bits of the set.
    pub fn bits(&self) -> (r: u32)
        ensures
            r == self@,
    {
        self.0
    }

    /// Keeps every bit, named or not.
    pub fn from_bits_retain(bits: u32) -> (r: Self)
        ensures
            r@ == bits,
    {
        CommandBufferUsageFlags(bits)
    }

    /// Drops the bits that name no flag.
    pub fn from_bits_truncate(bits: u32) -> (r: Self)
        ensures
            r@ == bits & Self::spec_all_bits(),
    {
        CommandBufferUsageFlags(bits & 0x7)
    }

    /// Whether no bit is set.
    pub fn is_empty(&self) -> (r: bool)
        ensures
            r == (self@ == 0),
    {
        self.0 == 0
    }

    /// Whether every bit of `other` is set in `self`.
    pub fn contains(&self, other: Self) -> (r: bool)
        ensures
            r == (self@ & other@ == other@),
    {
        self.0 & other.0 == other.0
    }

    /// The bits set in either.
    pub fn union(self, other: Self) -> (r: Self)
        ensures
            r@ == self@ | other@,
    {
        CommandBufferUsageFlags(self.0 | other.0)
    }

    /// The bits of `self` that `other` does not set.
    pub fn difference(self, other: Self) -> (r: Self)
        ensures
            r@ == self@ & !other@,
    {
        CommandBufferUsageFlags(self.0 & !other.0)
    }
}

} // verus!
