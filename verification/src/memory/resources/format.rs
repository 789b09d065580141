use vstd::prelude::*;

verus! {

/// A texel format, as its raw `VkFormat` number.
#[derive(Debug, Default, Clone, Copy, PartialEq, Eq, Hash, Structural)]
pub struct Format {
    pub raw: i32,
}

impl Format {
    /// The format whose `VkFormat` number is `raw`.
    pub fn from_raw(raw: i32) -> (r: Format)
        ensures
            r.raw == raw,
    {
        Format { raw }
    }

    /// Four 8-bit unsigned integer channels (`VK_FORMAT_R8G8B8A8_UINT`).
    #[allow(non_snake_case)]
    pub fn R8G8B8A8_UINT() -> (r: Format)
        ensures
            r.raw == 41,
    {
        Format { raw: 41 }
    }

    /// Four 8-bit sRGB channels (`VK_FORMAT_R8G8B8A8_SRGB`).
    #[allow(non_snake_case)]
    pub fn R8G8B8A8_SRGB() -> (r: Format)
        ensures
            r.raw == 43,
    {
        Format { raw: 43 }
    }
}

} // verus!
