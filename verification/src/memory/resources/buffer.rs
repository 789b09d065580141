use vstd::prelude::*;

verus! {

/// How a buffer is used.
#[derive(Debug, Default, Clone, Copy, PartialEq, Eq, Hash, Structural)]
pub struct BufferUsageFlags(u32);

impl View for BufferUsageFlags {
    type V = u32;

    closed spec fn view(&self) -> u32 {
        self.0
    }
}

impl BufferUsageFlags {
    /// The bits that name a flag of this set.
    pub open spec fn spec_all_bits() -> u32 {
        0x1ff
    }

    /// Source of transfers.
    #[allow(non_snake_case)]
    pub fn TRANSFER_SRC() -> (r: Self)
        ensures
            r@ == 0x1,
    {
        BufferUsageFlags(0x1)
    }

    /// Destination of transfers.
    #[allow(non_snake_case)]
    pub fn TRANSFER_DST() -> (r: Self)
        ensures
            r@ == 0x2,
    {
        BufferUsageFlags(0x2)
    }

    /// Uniform texel buffer.
    #[allow(non_snake_case)]
    pub fn UNIFORM_TEXEL_BUFFER() -> (r: Self)
        ensures
            r@ == 0x4,
    {
        BufferUsageFlags(0x4)
    }

    /// Storage texel buffer.
    #[allow(non_snake_case)]
    pub fn STORAGE_TEXEL_BUFFER() -> (r: Self)
        ensures
            r@ == 0x8,
    {
        BufferUsageFlags(0x8)
    }

    /// Uniform buffer.
    #[allow(non_snake_case)]
    pub fn UNIFORM_BUFFER() -> (r: Self)
        ensures
            r@ == 0x10,
    {
        BufferUsageFlags(0x10)
    }

    /// Storage buffer.
    #[allow(non_snake_case)]
    pub fn STORAGE_BUFFER() -> (r: Self)
        ensures
            r@ == 0x20,
    {
        BufferUsageFlags(0x20)
    }

    /// Index buffer.
    #[allow(non_snake_case)]
    pub fn INDEX_BUFFER() -> (r: Self)
        ensures
            r@ == 0x40,
    {
        BufferUsageFlags(0x40)
    }

    /// Vertex buffer.
    #[allow(non_snake_case)]
    pub fn VERTEX_BUFFER() -> (r: Self)
        ensures
            r@ == 0x80,
    {
        BufferUsageFlags(0x80)
    }

    /// Indirect command buffer.
    #[allow(non_snake_case)]
    pub fn INDIRECT_BUFFER() -> (r: Self)
        ensures
            r@ == 0x100,
    {
        BufferUsageFlags(0x100)
    }

    /// The set with no flag.
    pub fn empty() -> (r: Self)
        ensures
            r@ == 0,
    {
        BufferUsageFlags(0)
    }

    /// The raw bits of the set.
    pub fn bits(&self) -> (r: u32)
        ensures
            r == self@,
    {
        self.0
    }

    /// Keeps every bit, named or not.
    pub fn from_bits_retain(bits: u32) -> (r: Self)
        ensures
            r@ == bits,
    {
        BufferUsageFlags(bits)
    }

    /// Drops the bits that name no flag.
    pub fn from_bits_truncate(bits: u32) -> (r: Self)
        ensures
            r@ == bits & Self::spec_all_bits(),
    {
        BufferUsageFlags(bits & 0x1ff)
    }

    /// Whether no bit is set.
    pub fn is_empty(&self) -> (r: bool)
        ensures
            r == (self@ == 0),
    {
        self.0 == 0
    }

    /// Whether every bit of `other` is set in `self`.
    pub fn contains(&self, other: Self) -> (r: bool)
        ensures
            r == (self@ & other@ == other@),
    {
        self.0 & other.0 == other.0
    }

    /// The bits set in either.
    pub fn union(self, other: Self) -> (r: Self)
        ensures
            r@ == self@ | other@,
    {
        BufferUsageFlags(self.0 | other.0)
    }

    /// The bits of `self` that `other` does not set.
    pub fn difference(self, other: Self) -> (r: Self)
        ensures
            r@ == self@ & !other@,
    {
        BufferUsageFlags(self.0 & !other.0)
    }
}

/// Options for creating a buffer.
#[derive(Debug, Default, Clone, Copy, PartialEq, Eq, Hash, Structural)]
pub struct BufferCreateFlags(u32);

impl View for BufferCreateFlags {
    type V = u32;

    closed spec fn view(&self) -> u32 {
        self.0
    }
}

impl BufferCreateFlags {
    /// The bits that name a flag of this set.
    pub open spec fn spec_all_bits() -> u32 {
        0x7
    }

    /// Backed by sparse memory binding.
    #[allow(non_snake_case)]
    pub fn SPARSE_BINDING() -> (r: Self)
        ensures
            r@ == 0x1,
    {
        BufferCreateFlags(0x1)
    }

    /// Partially resident.
    #[allow(non_snake_case)]
    pub fn SPARSE_RESIDENCY() -> (r: Self)
        ensures
            r@ == 0x2,
    {
        BufferCreateFlags(0x2)
    }

    /// Sparse memory may alias.
    #[allow(non_snake_case)]
    pub fn SPARSE_ALIASED() -> (r: Self)
        ensures
            r@ == 0x4,
    {
        BufferCreateFlags(0x4)
    }

    /// The set with no flag.
    pub fn empty() -> (r: Self)
        ensures
            r@ == 0,
    {
        BufferCreateFlags(0)
    }

    /// The raw bits of the set.
    pub fn bits(&self) -> (r: u32)
        ensures
            r == self@,
    {
        self.0
    }

    /// Keeps every bit, named or not.
    pub fn from_bits_retain(bits: u32) -> (r: Self)
        ensures
            r@ == bits,
    {
        BufferCreateFlags(bits)
    }

    /// Drops the bits that name no flag.
    pub fn from_bits_truncate(bits: u32) -> (r: Self)
        ensures
            r@ == bits & Self::spec_all_bits(),
    {
        BufferCreateFlags(bits & 0x7)
    }

    /// Whether no bit is set.
    pub fn is_empty(&self) -> (r: bool)
        ensures
            r == (self@ == 0),
    {
        self.0 == 0
    }

    /// Whether every bit of `other` is set in `self`.
    pub fn contains(&self, other: Self) -> (r: bool)
        ensures
            r == (self@ & other@ == other@),
    {
        self.0 & other.0 == other.0
    }

    /// The bits set in either.
    pub fn union(self, other: Self) -> (r: Self)
        ensures
            r@ == self@ | other@,
    {
        BufferCreateFlags(self.0 | other.0)
    }

    /// The bits of `self` that `other` does not set.
    pub fn difference(self, other: Self) -> (r: Self)
        ensures
            r@ == self@ & !other@,
    {
        BufferCreateFlags(self.0 & !other.0)
    }
}

/// Everything a buffer is created from.
#[derive(Default, Debug, Clone, Copy, PartialEq, Eq, Hash, Structural)]
pub struct BufferCreateInfo {
    pub usage_flags: BufferUsageFlags,
    pub create_flags: BufferCreateFlags,
    pub size: u64,
}

/// Whether buffers with these creation flags can be created: none of the sparse
/// options is implemented.
pub fn create_flags_supported(flags: BufferCreateFlags) -> (r: bool)
    ensures
        r == (flags@ == 0),
{
    flags.is_empty()
}

/// How many elements of `element_size` bytes a mapping of a buffer of `size`
/// bytes holds; `None` when the size is no multiple of the element size.
pub fn mapped_element_count(size: u64, element_size: usize) -> (r: Option<usize>)
    requires
        element_size > 0,
    ensures
        (size as usize) % element_size != 0 ==> r == None::<usize>,
        (size as usize) % element_size == 0 ==> r == Some((size as usize) / element_size),
{
    let bytes = size as usize;
    if bytes % element_size != 0 {
        None
    } else {
        Some(bytes / element_size)
    }
}

} // verus!
