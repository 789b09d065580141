use vstd::prelude::*;

verus! {

/// This allocator implementation is for cases where are no memory needed
#[derive(Debug, Default, Clone, Copy)]
pub struct HollowDeviceMemoryAllocator;

/// The fragment type of [`HollowDeviceMemoryAllocator`]; none is ever handed out.
#[derive(Debug, Default, Clone, Copy)]
pub struct HollowMemoryFragment;

} // verus!
