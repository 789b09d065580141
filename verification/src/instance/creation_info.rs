use vstd::prelude::*;

verus! {

/// Options for creating the instance's loader state. Windowing support is the
/// only option there is, and it is left out of this build.
#[derive(Default, Debug, Clone, Copy)]
pub struct InstanceCreateInfo {}

} // verus!
