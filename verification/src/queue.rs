//! What presenting to swapchains reports, read from the driver's result codes.

use vstd::prelude::*;
use crate::error::{spec_vk_error_of_code, Error, VkError};

verus! {

/// What one result code of a present reports: success for `0`, otherwise the
/// error the code names.
pub open spec fn spec_present_result(code: i32) -> Result<(), Error> {
    if code == 0 {
        Ok(())
    } else {
        Err(Error::Vulkan(spec_vk_error_of_code(code)->Some_0))
    }
}

/// The result of presenting to each swapchain, in order, from the result codes
/// the driver wrote for them. Every code is success or an error the wrapper
/// knows.
pub fn present_results(codes: &[i32]) -> (r: Vec<Result<(), Error>>)
    requires
        forall|i: int|
            0 <= i < codes@.len() ==> #[trigger] codes@[i] == 0 || spec_vk_error_of_code(codes@[i])
                is Some,
    ensures
        r@.len() == codes@.len(),
        forall|i: int| 0 <= i < codes@.len() ==> #[trigger] r@[i] == spec_present_result(codes@[i]),
{
    let mut results: Vec<Result<(), Error>> = Vec::new();
    let mut i: usize = 0;
    while i < codes.len()
        invariant
            0 <= i <= codes@.len(),
            results@.len() == i,
            forall|j: int|
                0 <= j < codes@.len() ==> #[trigger] codes@[j] == 0 || spec_vk_error_of_code(
                    codes@[j],
                ) is Some,
            forall|j: int| 0 <= j < i ==> #[trigger] results@[j] == spec_present_result(codes@[j]),
        decreases codes@.len() - i,
    {
        let code = codes[i];
        if code == 0 {
            results.push(Ok(()));
        } else {
            let e = match VkError::try_from_code(code) {
                Ok(e) => e,
                Err(_) => {
                    assert(false);
                    VkError::Unknown
                },
            };
            results.push(Err(Error::Vulkan(e)));
        }
        i = i + 1;
    }
    results
}

} // verus!
