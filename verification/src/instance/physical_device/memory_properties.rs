use vstd::prelude::*;
use arrayvec::ArrayVec;

verus! {

/// The properties of a memory type.
#[derive(Debug, Default, Clone, Copy, PartialEq, Eq, Hash, Structural)]
pub struct MemoryTypeProperties(u32);

impl View for MemoryTypeProperties {
    type V = u32;

    closed spec fn view(&self) -> u32 {
        self.0
    }
}

impl MemoryTypeProperties {
    /// The bits that name a flag of this set.
    pub open spec fn spec_all_bits() -> u32 {
        0x1f
    }

    /// Local to the device.
    #[allow(non_snake_case)]
    pub fn DEVICE_LOCAL() -> (r: Self)
        ensures
            r@ == 0x1,
    {
        MemoryTypeProperties(0x1)
    }

    /// The host can map it.
    #[allow(non_snake_case)]
    pub fn HOST_VISIBLE() -> (r: Self)
        ensures
            r@ == 0x2,
    {
        MemoryTypeProperties(0x2)
    }

    /// Host writes need no flush.
    #[allow(non_snake_case)]
    pub fn HOST_COHERENT() -> (r: Self)
        ensures
            r@ == 0x4,
    {
        MemoryTypeProperties(0x4)
    }

    /// Cached on the host.
    #[allow(non_snake_case)]
    pub fn HOST_HASHED() -> (r: Self)
        ensures
            r@ == 0x8,
    {
        MemoryTypeProperties(0x8)
    }

    /// Backed lazily.
    #[allow(non_snake_case)]
    pub fn LAZILY_ALLOCATED() -> (r: Self)
        ensures
            r@ == 0x10,
    {
        MemoryTypeProperties(0x10)
    }

    /// The set with no flag.
    pub fn empty() -> (r: Self)
        ensures
            r@ == 0,
    {
        MemoryTypeProperties(0)
    }

    /// The raw bits of the set.
    pub fn bits(&self) -> (r: u32)
        ensures
            r == self@,
    {
        self.0
    }

    /// Keeps every bit, named or not.
    pub fn from_bits_retain(bits: u32) -> (r: Self)
        ensures
            r@ == bits,
    {
        MemoryTypeProperties(bits)
    }

    /// Drops the bits that name no flag.
    pub fn from_bits_truncate(bits: u32) -> (r: Self)
        ensures
            r@ == bits & Self::spec_all_bits(),
    {
        MemoryTypeProperties(bits & 0x1f)
    }

    /// Whether no bit is set.
    pub fn is_empty(&self) -> (r: bool)
        ensures
            r == (self@ == 0),
    {
        self.0 == 0
    }

    /// Whether every bit of `other` is set in `self`.
    pub fn contains(&self, other: Self) -> (r: bool)
        ensures
            r == (self@ & other@ == other@),
    {
        self.0 & other.0 == other.0
    }

    /// The bits set in either.
    pub fn union(self, other: Self) -> (r: Self)
        ensures
            r@ == self@ | other@,
    {
        MemoryTypeProperties(self.0 | other.0)
    }

    /// The bits of `self` that `other` does not set.
    pub fn difference(self, other: Self) -> (r: Self)
        ensures
            r@ == self@ & !other@,
    {
        MemoryTypeProperties(self.0 & !other.0)
    }
}

/// The properties of a memory heap.
#[derive(Debug, Default, Clone, Copy, PartialEq, Eq, Hash, Structural)]
pub struct MemoryHeapProperties(u32);

impl View for MemoryHeapProperties {
    type V = u32;

    closed spec fn view(&self) -> u32 {
        self.0
    }
}

impl MemoryHeapProperties {
    /// The bits that name a flag of this set.
    pub open spec fn spec_all_bits() -> u32 {
        0x1
    }

    /// Local to the device.
    #[allow(non_snake_case)]
    pub fn DEVICE_LOCAL() -> (r: Self)
        ensures
            r@ == 0x1,
    {
        MemoryHeapProperties(0x1)
    }

    /// The set with no flag.
    pub fn empty() -> (r: Self)
        ensures
            r@ == 0,
    {
        MemoryHeapProperties(0)
    }

    /// The raw bits of the set.
    pub fn bits(&self) -> (r: u32)
        ensures
            r == self@,
    {
        self.0
    }

    /// Keeps every bit, named or not.
    pub fn from_bits_retain(bits: u32) -> (r: Self)
        ensures
            r@ == bits,
    {
        MemoryHeapProperties(bits)
    }

    /// Drops the bits that name no flag.
    pub fn from_bits_truncate(bits: u32) -> (r: Self)
        ensures
            r@ == bits & Self::spec_all_bits(),
    {
        MemoryHeapProperties(bits & 0x1)
    }

    /// Whether no bit is set.
    pub fn is_empty(&self) -> (r: bool)
        ensures
            r == (self@ == 0),
    {
        self.0 == 0
    }

    /// Whether every bit of `other` is set in `self`.
    pub fn contains(&self, other: Self) -> (r: bool)
        ensures
            r == (self@ & other@ == other@),
    {
        self.0 & other.0 == other.0
    }

    /// The bits set in either.
    pub fn union(self, other: Self) -> (r: Self)
        ensures
            r@ == self@ | other@,
    {
        MemoryHeapProperties(self.0 | other.0)
    }

    /// The bits of `self` that `other` does not set.
    pub fn difference(self, other: Self) -> (r: Self)
        ensures
            r@ == self@ & !other@,
    {
        MemoryHeapProperties(self.0 & !other.0)
    }
}

/// A memory type: its properties and the heap it takes memory from.
#[derive(Debug, Clone, Copy, PartialEq, Eq, Hash, Structural)]
pub struct MemoryType {
    pub properties: MemoryTypeProperties,
    pub heap_index: u32,
}

/// A memory heap: its properties and its size in bytes.
#[derive(Debug, Clone, Copy, PartialEq, Eq, Hash, Structural)]
pub struct MemoryHeap {
    pub properties: MemoryHeapProperties,
    pub size: u64,
}

#[verifier::external_type_specification]
#[verifier::external_body]
#[verifier::reject_recursive_types(T)]
pub struct ExArrayVec<T, const CAP: usize>(ArrayVec<T, CAP>);

/// `Clone::clone` of an `ArrayVec`, which clones each element; nothing is
/// claimed of the copy.
pub assume_specification<T, const CAP: usize>[<ArrayVec<T, CAP> as Clone>::clone](
    v: &ArrayVec<T, CAP>,
) -> ArrayVec<T, CAP>
    where
        T: Clone,
;

/// The memory types an `ArrayVec` holds, in order.
pub uninterp spec fn memory_type_entries(v: ArrayVec<MemoryType, 32>) -> Seq<MemoryType>;

/// The memory heaps an `ArrayVec` holds, in order.
pub uninterp spec fn memory_heap_entries(v: ArrayVec<MemoryHeap, 32>) -> Seq<MemoryHeap>;

/// `ArrayVec::len` on memory types: how many it holds, never more than its
/// capacity of 32.
#[verifier::external_body]
fn memory_types_len(v: &ArrayVec<MemoryType, 32>) -> (r: usize)
    ensures
        r == memory_type_entries(*v).len(),
        r <= 32,
{
    v.len()
}

/// Indexing an `ArrayVec` of memory types (through its slice) within bounds:
/// the entry at that position.
#[verifier::external_body]
fn memory_type_at(v: &ArrayVec<MemoryType, 32>, index: usize) -> (r: MemoryType)
    requires
        index < memory_type_entries(*v).len(),
    ensures
        r == memory_type_entries(*v)[index as int],
{
    v[index]
}

/// `ArrayVec::len` on memory heaps: how many it holds, never more than its
/// capacity of 32.
#[verifier::external_body]
fn memory_heaps_len(v: &ArrayVec<MemoryHeap, 32>) -> (r: usize)
    ensures
        r == memory_heap_entries(*v).len(),
        r <= 32,
{
    v.len()
}

/// Indexing an `ArrayVec` of memory heaps (through its slice) within bounds:
/// the entry at that position.
#[verifier::external_body]
fn memory_heap_at(v: &ArrayVec<MemoryHeap, 32>, index: usize) -> (r: MemoryHeap)
    requires
        index < memory_heap_entries(*v).len(),
    ensures
        r == memory_heap_entries(*v)[index as int],
{
    v[index]
}

/// The memory types and heaps of a physical device.
#[derive(Debug, Clone, PartialEq, Eq)]
pub struct DeviceMemoryProperties {
    pub memory_types: ArrayVec<MemoryType, 32>,
    pub memory_heaps: ArrayVec<MemoryHeap, 32>,
}

impl DeviceMemoryProperties {
    pub open spec fn types(&self) -> Seq<MemoryType> {
        memory_type_entries(self.memory_types)
    }

    pub open spec fn heaps(&self) -> Seq<MemoryHeap> {
        memory_heap_entries(self.memory_heaps)
    }

    /// Every memory type takes its memory from a heap that exists, as the driver
    /// promises.
    pub open spec fn wf(&self) -> bool {
        forall|i: int| 0 <= i < self.types().len() ==> (#[trigger] self.types()[i]).heap_index
            < self.heaps().len()
    }

    /// Whether every memory type takes its memory from a heap that exists.
    pub fn is_well_formed(&self) -> (r: bool)
        ensures
            r == self.wf(),
    {
        let heaps = self.memory_heap_count();
        let types = self.memory_type_count();
        let mut i: usize = 0;
        while i < types
            invariant
                0 <= i <= types,
                types == self.types().len(),
                heaps == self.heaps().len(),
                forall|j: int| 0 <= j < i ==> (#[trigger] self.types()[j]).heap_index < self.heaps().len(),
            decreases types - i,
        {
            if self.memory_type(i).heap_index as usize >= heaps {
                return false;
            }
            i = i + 1;
        }
        true
    }

    /// How many memory types there are.
    pub fn memory_type_count(&self) -> (r: usize)
        ensures
            r == self.types().len(),
            r <= 32,
    {
        memory_types_len(&self.memory_types)
    }

    /// The memory type at `index`.
    pub fn memory_type(&self, index: usize) -> (r: MemoryType)
        requires
            index < self.types().len(),
        ensures
            r == self.types()[index as int],
    {
        memory_type_at(&self.memory_types, index)
    }

    /// How many memory heaps there are.
    pub fn memory_heap_count(&self) -> (r: usize)
        ensures
            r == self.heaps().len(),
            r <= 32,
    {
        memory_heaps_len(&self.memory_heaps)
    }

    /// The memory heap at `index`.
    pub fn memory_heap(&self, index: usize) -> (r: MemoryHeap)
        requires
            index < self.heaps().len(),
        ensures
            r == self.heaps()[index as int],
    {
        memory_heap_at(&self.memory_heaps, index)
    }
}

} // verus!
