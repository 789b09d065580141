use vstd::prelude::*;
use super::{Primary, Secondary};

verus! {

/// Implemented by the level markers only, so that no other type is a level.
pub trait CommandBufferLevelInternal {}

impl CommandBufferLevelInternal for Primary {}

impl CommandBufferLevelInternal for Secondary {}

} // verus!
