use vstd::prelude::*;

verus! {

/// Failures that the driver reports through a result code.
#[derive(Debug, PartialEq, Eq, Hash, Clone, Copy, Structural)]
pub enum VkError {
    NotReady,
    Timeout,
    EventSet,
    EventReset,
    OutOfHostMemory,
    OutOfDeviceMemory,
    InitializationFailed,
    DeviceLost,
    MemoryMapFailed,
    FeatureNotPresent,
    IncompatibleDriver,
    TooManyObjects,
    FormatNotSupported,
    FragmentedPool,
    Unknown,
    InvalidShader,
}

/// The error that a raw Vulkan result code stands for, if the wrapper knows it.
///
/// Success (`0`), `VK_INCOMPLETE` (`5`), the layer and extension codes and every
/// code that the wrapper does not list have no error.
pub open spec fn spec_vk_error_of_code(code: i32) -> Option<VkError> {
    if code == 1 {
        Some(VkError::NotReady)
    } else if code == 2 {
        Some(VkError::Timeout)
    } else if code == 3 {
        Some(VkError::EventSet)
    } else if code == 4 {
        Some(VkError::EventReset)
    } else if code == -1 {
        Some(VkError::OutOfHostMemory)
    } else if code == -2 {
        Some(VkError::OutOfDeviceMemory)
    } else if code == -3 {
        Some(VkError::InitializationFailed)
    } else if code == -4 {
        Some(VkError::DeviceLost)
    } else if code == -5 {
        Some(VkError::MemoryMapFailed)
    } else if code == -8 {
        Some(VkError::FeatureNotPresent)
    } else if code == -9 {
        Some(VkError::IncompatibleDriver)
    } else if code == -10 {
        Some(VkError::TooManyObjects)
    } else if code == -11 {
        Some(VkError::FormatNotSupported)
    } else if code == -12 {
        Some(VkError::FragmentedPool)
    } else if code == -13 {
        Some(VkError::Unknown)
    } else {
        None
    }
}

impl VkError {
    /// Converts a raw `VkResult` code (`ash::vk::Result::as_raw`) into the error it
    /// reports; `Err(())` for codes that are no error or that the wrapper does not list.
    pub fn try_from_code(code: i32) -> (r: Result<VkError, ()>)
        ensures
            match spec_vk_error_of_code(code) {
                Some(e) => r == Ok::<VkError, ()>(e),
                None => r == Err::<VkError, ()>(()),
            },
    {
        if code == 1 {
            Ok(VkError::NotReady)
        } else if code == 2 {
            Ok(VkError::Timeout)
        } else if code == 3 {
            Ok(VkError::EventSet)
        } else if code == 4 {
            Ok(VkError::EventReset)
        } else if code == -1 {
            Ok(VkError::OutOfHostMemory)
        } else if code == -2 {
            Ok(VkError::OutOfDeviceMemory)
        } else if code == -3 {
            Ok(VkError::InitializationFailed)
        } else if code == -4 {
            Ok(VkError::DeviceLost)
        } else if code == -5 {
            Ok(VkError::MemoryMapFailed)
        } else if code == -8 {
            Ok(VkError::FeatureNotPresent)
        } else if code == -9 {
            Ok(VkError::IncompatibleDriver)
        } else if code == -10 {
            Ok(VkError::TooManyObjects)
        } else if code == -11 {
            Ok(VkError::FormatNotSupported)
        } else if code == -12 {
            Ok(VkError::FragmentedPool)
        } else if code == -13 {
            Ok(VkError::Unknown)
        } else {
            Err(())
        }
    }
}

/// Two result codes that both convert to an error convert to the same error only
/// when they are the same code; success and `VK_INCOMPLETE` are no error.
pub proof fn lemma_vk_error_codes_distinct(a: i32, b: i32)
    requires
        spec_vk_error_of_code(a) is Some,
        spec_vk_error_of_code(a) == spec_vk_error_of_code(b),
    ensures
        a == b,
        spec_vk_error_of_code(0) is None,
        spec_vk_error_of_code(5) is None,
{
}

/// Misuse of the wrapper that it detects before calling the driver.
#[derive(Debug, PartialEq, Eq, Hash, Clone, Copy, Structural)]
pub enum ValidationError {
    InvalidDevice,
    NoValidMemoryTypeFound,
    InvalidAllocationSize,
    MemoryMappingNotSupported,
    InvalidQueueFamilyIndex,
}

/// Any error of the wrapper: one the driver reported or one of misuse.
#[derive(Debug, PartialEq, Eq, Hash, Clone, Copy, Structural)]
pub enum Error {
    Vulkan(VkError),
    Validation(ValidationError),
}

impl From<VkError> for Error {
    fn from(value: VkError) -> (r: Error) {
        Error::Vulkan(value)
    }
}

impl vstd::std_specs::convert::FromSpecImpl<VkError> for Error {
    open spec fn obeys_from_spec() -> bool {
        true
    }

    open spec fn from_spec(v: VkError) -> Error {
        Error::Vulkan(v)
    }
}

impl From<ValidationError> for Error {
    fn from(value: ValidationError) -> (r: Error) {
        Error::Validation(value)
    }
}

impl vstd::std_specs::convert::FromSpecImpl<ValidationError> for Error {
    open spec fn obeys_from_spec() -> bool {
        true
    }

    open spec fn from_spec(v: ValidationError) -> Error {
        Error::Validation(v)
    }
}

} // verus!
