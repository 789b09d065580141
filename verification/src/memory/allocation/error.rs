use vstd::prelude::*;

verus! {

/// Why an allocator could not hand out memory.
#[derive(Debug, Clone, Copy, PartialEq, Eq, Hash, Structural)]
pub enum AllocationError {
    NoMemoryTypeFound,
    OutOfDeviceMemory,
    OutOfHostMemory,
}

impl AllocationError {
    /// The allocation error that an out-of-memory result code reports
    /// (`VK_ERROR_OUT_OF_DEVICE_MEMORY` is `-2`, `VK_ERROR_OUT_OF_HOST_MEMORY` is `-1`).
    /// No other code may be converted.
    pub fn from_result_code(code: i32) -> (r: AllocationError)
        requires
            code == -1 || code == -2,
        ensures
            code == -2 ==> r == AllocationError::OutOfDeviceMemory,
            code == -1 ==> r == AllocationError::OutOfHostMemory,
    {
        if code == -2 {
            AllocationError::OutOfDeviceMemory
        } else {
            AllocationError::OutOfHostMemory
        }
    }
}

} // verus!
