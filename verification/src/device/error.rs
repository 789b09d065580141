use vstd::prelude::*;

verus! {

/// Why a queue could not be handed out.
#[derive(Debug, Clone, Copy, PartialEq, Eq, Structural)]
pub enum QueueError {
    NoQueueWithIndex { queue_index: u32 },
    NoQueueFamily { family_index: u32 },
}

} // verus!
