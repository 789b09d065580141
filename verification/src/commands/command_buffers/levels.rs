//! The two levels of command buffers, as marker types.

mod sealed;

use vstd::prelude::*;

pub use sealed::CommandBufferLevelInternal;

verus! {

/// A command buffer that is submitted to a queue.
#[derive(Debug, Default, Clone, Copy)]
pub struct Primary;

/// A command buffer that is executed from a primary one.
#[derive(Debug, Default, Clone, Copy)]
pub struct Secondary;

/// The level of a command buffer; only [`Primary`] and [`Secondary`] are levels.
pub trait CommandBufferLevel: CommandBufferLevelInternal {}

impl CommandBufferLevel for Primary {}

impl CommandBufferLevel for Secondary {}

} // verus!
