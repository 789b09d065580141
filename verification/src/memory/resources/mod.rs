//! Buffers, images and image views, and the choice of memory that backs them.

pub mod buffer;
pub mod format;
pub mod image;
pub mod image_view;

use vstd::prelude::*;
use crate::error::{Error, ValidationError};
use crate::instance::physical_device::{DeviceMemoryProperties, MemoryTypeProperties};

verus! {

/// Whether resources are used by one queue family at a time or by several at once.
pub enum SharingMode<'a> {
    Exclusive,
    Concurent { queue_families: &'a [u32] },
}

/// Why a resource could not be created: the driver or the wrapper refused it, or
/// the allocator found no memory for it.
#[derive(Debug, Clone, Copy, PartialEq, Eq, Hash)]
pub enum ResourceCreationError<AllocError> {
    CreationError(Error),
    AllocationError(AllocError),
}

impl<AllocError> ResourceCreationError<AllocError> {
    pub fn from_creation_error(e: Error) -> (r: Self)
        ensures
            r == ResourceCreationError::<AllocError>::CreationError(e),
    {
        ResourceCreationError::CreationError(e)
    }

    pub fn from_allocation_error(e: AllocError) -> (r: Self)
        ensures
            r == ResourceCreationError::<AllocError>::AllocationError(e),
    {
        ResourceCreationError::AllocationError(e)
    }
}

/// Whether bit `i` of `bits` is set, counting from the least significant bit.
pub open spec fn bit_set(bits: u32, i: int) -> bool {
    (bits >> (i as u32)) & 1u32 == 1u32
}

/// `bitvec::array::BitArray::<u32, Lsb0>::from(bits).into_iter()`, collected: the 32
/// bits of the word, least significant first.
#[verifier::external_body]
fn lsb0_bits(bits: u32) -> (r: Vec<bool>)
    ensures
        r@.len() == 32,
        forall|i: int| 0 <= i < 32 ==> r@[i] == bit_set(bits, i),
{
    bitvec::array::BitArray::<u32, bitvec::order::Lsb0>::from(bits).into_iter().collect()
}

/// Whether memory type `i` is allowed by the resource (`memory_type_bits`), exists
/// on the device and has every property in `required`.
pub open spec fn memory_type_suits(
    properties: &DeviceMemoryProperties,
    memory_type_bits: u32,
    required: MemoryTypeProperties,
    i: int,
) -> bool {
    &&& bit_set(memory_type_bits, i)
    &&& i < properties.types().len()
    &&& properties.types()[i].properties@ & required@ == required@
}

/// Whether the search for a memory type runs into an allowed memory type that
/// the device does not have before it finds one that suits.
pub open spec fn search_reaches_missing_type(
    properties: &DeviceMemoryProperties,
    memory_type_bits: u32,
    required: MemoryTypeProperties,
) -> bool {
    exists|i: int|
        #![trigger bit_set(memory_type_bits, i)]
        0 <= i < 32 && bit_set(memory_type_bits, i) && i >= properties.types().len() && forall|
            j: int,
        |
            0 <= j < i ==> !memory_type_suits(properties, memory_type_bits, required, j)
}

/// Chooses the memory for a resource: the lowest memory type that the resource
/// allows in `memory_type_bits` and whose properties contain `required`.
/// The allowed types are looked up in order, so an allowed type that the device
/// does not have must not come before the first that suits.
pub fn find_memory_type_index(
    properties: &DeviceMemoryProperties,
    memory_type_bits: u32,
    required: MemoryTypeProperties,
) -> (r: Result<u8, Error>)
    requires
        !search_reaches_missing_type(properties, memory_type_bits, required),
    ensures
        match r {
            Ok(index) => {
                &&& index < 32
                &&& memory_type_suits(properties, memory_type_bits, required, index as int)
                &&& forall|j: int|
                    0 <= j < index ==> !memory_type_suits(properties, memory_type_bits, required, j)
            },
            Err(e) => {
                &&& e == Error::Validation(ValidationError::NoValidMemoryTypeFound)
                &&& forall|j: int|
                    0 <= j < 32 ==> !memory_type_suits(properties, memory_type_bits, required, j)
            },
        },
{
    let allowed = lsb0_bits(memory_type_bits);
    let count = properties.memory_type_count();
    let mut i: usize = 0;
    while i < 32
        invariant
            0 <= i <= 32,
            allowed@.len() == 32,
            count == properties.types().len(),
            forall|k: int| 0 <= k < 32 ==> allowed@[k] == bit_set(memory_type_bits, k),
            forall|j: int|
                0 <= j < i ==> !memory_type_suits(properties, memory_type_bits, required, j),
            !search_reaches_missing_type(properties, memory_type_bits, required),
        decreases 32 - i,
    {
        if allowed[i] {
            if i >= count {
                assert(search_reaches_missing_type(properties, memory_type_bits, required)) by {
                    assert(bit_set(memory_type_bits, i as int));
                }
            }
            let memory_type = properties.memory_type(i);
            if memory_type.properties.contains(required) {
                return Ok(i as u8);
            }
        }
        i = i + 1;
    }
    Err(Error::Validation(ValidationError::NoValidMemoryTypeFound))
}

/// Whether the search for a memory type would run into an allowed memory type
/// that the device does not have (a driver that allows types it does not report)
/// before it finds one that suits; [`find_memory_type_index`] may be asked only
/// when it would not.
pub fn reaches_missing_memory_type(
    properties: &DeviceMemoryProperties,
    memory_type_bits: u32,
    required: MemoryTypeProperties,
) -> (r: bool)
    ensures
        r == search_reaches_missing_type(properties, memory_type_bits, required),
{
    let allowed = lsb0_bits(memory_type_bits);
    let count = properties.memory_type_count();
    let mut i: usize = 0;
    while i < 32
        invariant
            0 <= i <= 32,
            allowed@.len() == 32,
            count == properties.types().len(),
            forall|k: int| 0 <= k < 32 ==> allowed@[k] == bit_set(memory_type_bits, k),
            forall|j: int|
                0 <= j < i ==> !memory_type_suits(properties, memory_type_bits, required, j),
            forall|j: int|
                0 <= j < i ==> bit_set(memory_type_bits, j) ==> j < properties.types().len(),
        decreases 32 - i,
    {
        if allowed[i] {
            if i >= count {
                assert(bit_set(memory_type_bits, i as int));
                return true;
            }
            let memory_type = properties.memory_type(i);
            if memory_type.properties.contains(required) {
                assert(memory_type_suits(properties, memory_type_bits, required, i as int));
                assert forall|k: int|
                    0 <= k < 32 && bit_set(memory_type_bits, k) && k >= properties.types().len()
                    implies !(forall|j: int|
                    0 <= j < k ==> !memory_type_suits(properties, memory_type_bits, required, j)) by {
                    assert(k > i);
                    assert(memory_type_suits(properties, memory_type_bits, required, i as int));
                }
                return false;
            }
        }
        i = i + 1;
    }
    assert forall|k: int|
        0 <= k < 32 && bit_set(memory_type_bits, k) implies k < properties.types().len() by {}
    false
}

} // verus!
