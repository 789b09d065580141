use vstd::prelude::*;
use crate::error::{Error, ValidationError};
use crate::instance::physical_device::{DeviceMemoryProperties, MemoryTypeProperties};

verus! {

/// What checking an allocation of `size` bytes from memory type `memory_type_index`
/// gives: the type must exist, and the size must be above zero and below the size
/// of the heap that the type takes its memory from.
pub open spec fn spec_allocation_check(
    properties: &DeviceMemoryProperties,
    memory_type_index: u8,
    size: u64,
) -> Result<(), Error> {
    if memory_type_index as int >= properties.types().len() {
        Err(Error::Validation(ValidationError::NoValidMemoryTypeFound))
    } else if size == 0 {
        Err(Error::Validation(ValidationError::InvalidAllocationSize))
    } else if size >= properties.heaps()[properties.types()[memory_type_index as int].heap_index as int].size {
        Err(Error::Validation(ValidationError::InvalidAllocationSize))
    } else {
        Ok(())
    }
}

/// Checks an allocation before the driver is asked for it. The memory type index
/// must be below the number of memory types, as the unchecked allocation demands.
pub fn validate_allocation(
    properties: &DeviceMemoryProperties,
    memory_type_index: u8,
    size: u64,
) -> (r: Result<(), Error>)
    requires
        properties.wf(),
    ensures
        r == spec_allocation_check(properties, memory_type_index, size),
        r is Ok ==> (memory_type_index as int) < properties.types().len() && 0 < size
            < properties.heaps()[properties.types()[memory_type_index as int].heap_index as int].size,
{
    let count = properties.memory_type_count();
    if memory_type_index as usize >= count {
        return Err(Error::Validation(ValidationError::NoValidMemoryTypeFound));
    }
    if size == 0 {
        return Err(Error::Validation(ValidationError::InvalidAllocationSize));
    }
    let memory_type = properties.memory_type(memory_type_index as usize);
    let memory_heap = properties.memory_heap(memory_type.heap_index as usize);
    if size >= memory_heap.size {
        return Err(Error::Validation(ValidationError::InvalidAllocationSize));
    }
    Ok(())
}

/// What the driver has to be asked for when memory is mapped.
#[derive(Debug, Clone, Copy, PartialEq, Eq, Structural)]
pub enum MapStep {
    /// First mapping: map the memory through the driver.
    MapMemory,
    /// Already mapped: hand out the address of the existing mapping.
    ReuseMapping,
}

/// How often a device memory object is mapped, and whether the driver holds a
/// mapping of it. Mappings are shared: only the first map and the last unmap
/// reach the driver.
#[derive(Debug, Clone, Copy, PartialEq, Eq, Structural)]
pub struct MappingCounter {
    pub count: u32,
    pub mapped: bool,
}

/// The counter after a map of host-visible memory was counted.
pub open spec fn spec_after_map(s: MappingCounter) -> MappingCounter {
    MappingCounter { count: (s.count + 1) as u32, mapped: s.mapped }
}

/// The counter after an unmap.
pub open spec fn spec_after_unmap(s: MappingCounter) -> MappingCounter {
    let count = if s.count != 0 { (s.count - 1) as u32 } else { 0u32 };
    MappingCounter { count, mapped: s.mapped && count != 0 }
}

/// Whether an unmap from `s` has to unmap through the driver.
pub open spec fn spec_unmap_reaches_driver(s: MappingCounter) -> bool {
    let count = if s.count != 0 { s.count - 1 } else { 0 };
    count == 0 && s.mapped
}

impl MappingCounter {
    /// A memory object that nobody mapped.
    pub fn new() -> (r: Self)
        ensures
            r.count == 0,
            !r.mapped,
    {
        MappingCounter { count: 0, mapped: false }
    }

    /// Whether the count and the driver's mapping agree: the memory is mapped
    /// exactly while someone holds a mapping.
    pub open spec fn settled(self) -> bool {
        (self.count > 0) == self.mapped
    }

    /// Counts a map of the memory object whose type is `memory_type_index`.
    /// Memory that the host cannot see is refused and nothing is counted;
    /// otherwise the count goes up, and the first map has to go to the driver.
    /// A failed first map leaves its count behind and no mapping: a later map
    /// would then hand out an address that does not exist, so such a state is
    /// not accepted here.
    pub fn begin_map(&mut self, properties: &DeviceMemoryProperties, memory_type_index: u8) -> (r:
        Result<MapStep, Error>)
        requires
            (memory_type_index as int) < properties.types().len(),
            old(self).count < u32::MAX,
            old(self).count == 0 || old(self).mapped,
        ensures
            ({
                let host_visible = properties.types()[memory_type_index as int].properties@
                    & 0x2u32 == 0x2u32;
                &&& !host_visible ==> r == Err::<MapStep, Error>(
                    Error::Validation(ValidationError::MemoryMappingNotSupported),
                ) && *final(self) == *old(self)
                &&& host_visible ==> *final(self) == spec_after_map(*old(self))
                &&& host_visible ==> r == Ok::<MapStep, Error>(
                    if old(self).count == 0 {
                        MapStep::MapMemory
                    } else {
                        MapStep::ReuseMapping
                    },
                )
            }),
    {
        let memory_type = properties.memory_type(memory_type_index as usize);
        if !memory_type.properties.contains(MemoryTypeProperties::HOST_VISIBLE()) {
            return Err(Error::Validation(ValidationError::MemoryMappingNotSupported));
        }
        self.count = self.count + 1;
        if self.count == 1 {
            Ok(MapStep::MapMemory)
        } else {
            Ok(MapStep::ReuseMapping)
        }
    }

    /// Records that the driver mapped the memory.
    pub fn map_succeeded(&mut self)
        ensures
            final(self).count == old(self).count,
            final(self).mapped,
    {
        self.mapped = true;
    }

    /// Counts an unmap; `true` when the driver has to unmap the memory now.
    pub fn end_unmap(&mut self) -> (r: bool)
        ensures
            *final(self) == spec_after_unmap(*old(self)),
            r == spec_unmap_reaches_driver(*old(self)),
    {
        if self.count != 0 {
            self.count = self.count - 1;
        }
        if self.count == 0 && self.mapped {
            self.mapped = false;
            true
        } else {
            false
        }
    }
}

/// A block of device memory as the wrapper tracks it: its memory type, its size
/// and its mappings.
#[derive(Debug)]
pub struct DeviceMemoryObject {
    memory_type_index: u8,
    size: u64,
    mapping: MappingCounter,
}

impl DeviceMemoryObject {
    pub closed spec fn spec_memory_type_index(&self) -> u8 {
        self.memory_type_index
    }

    pub closed spec fn spec_size(&self) -> u64 {
        self.size
    }

    pub closed spec fn spec_mapping(&self) -> MappingCounter {
        self.mapping
    }

    /// Decides an allocation of `size` bytes of memory type `memory_type_index`:
    /// the request is checked as [`validate_allocation`] does, and on success the
    /// result is the unmapped object that the driver is then asked to back.
    pub fn allocate(properties: &DeviceMemoryProperties, memory_type_index: u8, size: u64) -> (r: Result<DeviceMemoryObject, Error>)
        requires
            properties.wf(),
        ensures
            spec_allocation_check(properties, memory_type_index, size) is Err ==> r is Err
                && r->Err_0 == spec_allocation_check(properties, memory_type_index, size)->Err_0,
            spec_allocation_check(properties, memory_type_index, size) is Ok ==> r is Ok && ({
                let m = r->Ok_0;
                &&& m.spec_memory_type_index() == memory_type_index
                &&& m.spec_size() == size
                &&& m.spec_mapping().count == 0
                &&& !m.spec_mapping().mapped
            }),
    {
        match validate_allocation(properties, memory_type_index, size) {
            Ok(()) => Ok(DeviceMemoryObject { memory_type_index, size, mapping: MappingCounter::new() }),
            Err(e) => Err(e),
        }
    }

    /// The object for an allocation whose caller vouches for it: nothing is
    /// checked, and the result is unmapped.
    pub fn allocate_unchecked(memory_type_index: u8, size: u64) -> (r: DeviceMemoryObject)
        ensures
            r.spec_memory_type_index() == memory_type_index,
            r.spec_size() == size,
            r.spec_mapping().count == 0,
            !r.spec_mapping().mapped,
    {
        DeviceMemoryObject { memory_type_index, size, mapping: MappingCounter::new() }
    }

    pub fn memory_type_index(&self) -> (r: u8)
        ensures
            r == self.spec_memory_type_index(),
    {
        self.memory_type_index
    }

    pub fn size(&self) -> (r: u64)
        ensures
            r == self.spec_size(),
    {
        self.size
    }

    /// The mapping state.
    pub fn mapping(&self) -> (r: MappingCounter)
        ensures
            r == self.spec_mapping(),
    {
        self.mapping
    }

    /// Counts a map, as [`MappingCounter::begin_map`] does for this object's type.
    pub fn begin_map(&mut self, properties: &DeviceMemoryProperties) -> (r: Result<MapStep, Error>)
        requires
            (old(self).spec_memory_type_index() as int) < properties.types().len(),
            old(self).spec_mapping().count < u32::MAX,
            old(self).spec_mapping().count == 0 || old(self).spec_mapping().mapped,
        ensures
            final(self).spec_memory_type_index() == old(self).spec_memory_type_index(),
            final(self).spec_size() == old(self).spec_size(),
            ({
                let host_visible = properties.types()[old(self).spec_memory_type_index() as int].properties@
                    & 0x2u32 == 0x2u32;
                &&& !host_visible ==> r == Err::<MapStep, Error>(
                    Error::Validation(ValidationError::MemoryMappingNotSupported),
                ) && final(self).spec_mapping() == old(self).spec_mapping()
                &&& host_visible ==> final(self).spec_mapping() == spec_after_map(old(self).spec_mapping())
                &&& host_visible ==> r == Ok::<MapStep, Error>(
                    if old(self).spec_mapping().count == 0 {
                        MapStep::MapMemory
                    } else {
                        MapStep::ReuseMapping
                    },
                )
            }),
    {
        let index = self.memory_type_index;
        self.mapping.begin_map(properties, index)
    }

    /// Records that the driver mapped the memory.
    pub fn map_succeeded(&mut self)
        ensures
            final(self).spec_memory_type_index() == old(self).spec_memory_type_index(),
            final(self).spec_size() == old(self).spec_size(),
            final(self).spec_mapping().count == old(self).spec_mapping().count,
            final(self).spec_mapping().mapped,
    {
        self.mapping.map_succeeded();
    }

    /// Counts an unmap; `true` when the driver has to unmap the memory now.
    pub fn unmap(&mut self) -> (r: bool)
        ensures
            final(self).spec_memory_type_index() == old(self).spec_memory_type_index(),
            final(self).spec_size() == old(self).spec_size(),
            final(self).spec_mapping() == spec_after_unmap(old(self).spec_mapping()),
            r == spec_unmap_reaches_driver(old(self).spec_mapping()),
    {
        self.mapping.end_unmap()
    }
}

/// A map that succeeds, followed by an unmap, leaves a settled counter as it was;
/// the unmap reaches the driver exactly when the map was the first one.
pub proof fn lemma_map_then_unmap_restores(s: MappingCounter)
    requires
        s.settled(),
        s.count < u32::MAX,
    ensures
        ({
            let mapped = MappingCounter { count: spec_after_map(s).count, mapped: true };
            &&& spec_after_unmap(mapped) == s
            &&& spec_unmap_reaches_driver(mapped) == (s.count == 0)
        }),
{
}

/// Successful maps and every unmap keep the counter settled.
pub proof fn lemma_mapping_stays_settled(s: MappingCounter)
    requires
        s.settled(),
    ensures
        s.count < u32::MAX ==> (MappingCounter {
            count: spec_after_map(s).count,
            mapped: true,
        }).settled(),
        spec_after_unmap(s).settled(),
{
}

/// The counter after `n` maps that succeeded, starting from `s`.
pub open spec fn after_maps(s: MappingCounter, n: nat) -> MappingCounter
    decreases n,
{
    if n == 0 {
        s
    } else {
        MappingCounter { count: spec_after_map(after_maps(s, (n - 1) as nat)).count, mapped: true }
    }
}

/// The counter after `n` unmaps, starting from `s`.
pub open spec fn after_unmaps(s: MappingCounter, n: nat) -> MappingCounter
    decreases n,
{
    if n == 0 {
        s
    } else {
        spec_after_unmap(after_unmaps(s, (n - 1) as nat))
    }
}

/// A memory object that nobody mapped.
pub open spec fn unmapped_counter() -> MappingCounter {
    MappingCounter { count: 0, mapped: false }
}

proof fn lemma_after_maps_count(n: nat)
    requires
        n <= u32::MAX,
    ensures
        after_maps(unmapped_counter(), n) == (MappingCounter { count: n as u32, mapped: n > 0 }),
    decreases n,
{
    if n > 0 {
        lemma_after_maps_count((n - 1) as nat);
    }
}

proof fn lemma_after_unmaps_count(n: nat, k: nat)
    requires
        n <= u32::MAX,
        k <= n,
    ensures
        after_unmaps(after_maps(unmapped_counter(), n), k) == (MappingCounter {
            count: (n - k) as u32,
            mapped: n - k > 0,
        }),
    decreases k,
{
    lemma_after_maps_count(n);
    if k > 0 {
        lemma_after_unmaps_count(n, (k - 1) as nat);
    }
}

/// Mappings of one memory object are shared. Starting from a memory object that
/// nobody mapped, `n` maps followed by `n` unmaps: only the first map maps
/// through the driver (every later one reuses that mapping), the memory stays
/// mapped through the first `n - 1` unmaps, the last unmap is the one unmap that
/// reaches the driver, after it the object is as nobody had mapped it, further
/// unmaps change nothing and reach nothing, and a following map maps again.
pub proof fn lemma_shared_mappings(n: nat)
    requires
        1 <= n <= u32::MAX,
    ensures
        forall|k: nat|
            k < n ==> ((#[trigger] after_maps(unmapped_counter(), k)).count == 0 <==> k == 0),
        forall|k: nat|
            k < n ==> (#[trigger] after_maps(unmapped_counter(), k)).settled(),
        after_maps(unmapped_counter(), n) == (MappingCounter { count: n as u32, mapped: true }),
        forall|k: nat|
            k < n ==> #[trigger] spec_unmap_reaches_driver(
                after_unmaps(after_maps(unmapped_counter(), n), k),
            ) == (k == n - 1),
        forall|k: nat|
            k < n - 1 ==> (#[trigger] after_unmaps(after_maps(unmapped_counter(), n), k + 1)).mapped,
        after_unmaps(after_maps(unmapped_counter(), n), n) == unmapped_counter(),
        spec_after_unmap(unmapped_counter()) == unmapped_counter(),
        !spec_unmap_reaches_driver(unmapped_counter()),
{
    lemma_after_maps_count(n);
    assert forall|k: nat| k < n implies ((#[trigger] after_maps(unmapped_counter(), k)).count == 0
        <==> k == 0) by {
        lemma_after_maps_count(k);
    }
    assert forall|k: nat| k < n implies (#[trigger] after_maps(unmapped_counter(), k)).settled() by {
        lemma_after_maps_count(k);
    }
    assert forall|k: nat| k < n implies #[trigger] spec_unmap_reaches_driver(
        after_unmaps(after_maps(unmapped_counter(), n), k),
    ) == (k == n - 1) by {
        lemma_after_unmaps_count(n, k);
    }
    assert forall|k: nat| k < n - 1 implies (#[trigger] after_unmaps(
        after_maps(unmapped_counter(), n),
        k + 1,
    )).mapped by {
        lemma_after_unmaps_count(n, k + 1);
    }
    lemma_after_unmaps_count(n, n);
}

/// An allocation is measured against the heap of its memory type and no other:
/// for an existing memory type with a heap, a nonzero size is accepted exactly
/// when it is below that heap's size, and two sets of properties with the same
/// memory types and that heap of the same size decide alike, however their
/// other heaps are sized.
pub proof fn lemma_allocation_measured_against_its_heap(
    p1: &DeviceMemoryProperties,
    p2: &DeviceMemoryProperties,
    memory_type_index: u8,
    size: u64,
)
    requires
        (memory_type_index as int) < p1.types().len(),
        p1.types()[memory_type_index as int].heap_index < p1.heaps().len(),
    ensures
        ({
            let heap = p1.heaps()[p1.types()[memory_type_index as int].heap_index as int];
            size > 0 ==> (spec_allocation_check(p1, memory_type_index, size) is Ok <==> size
                < heap.size)
        }),
        ({
            let h = p1.types()[memory_type_index as int].heap_index as int;
            p2.types() == p1.types() && h < p2.heaps().len() && p2.heaps()[h].size == p1.heaps()[h].size
                ==> spec_allocation_check(p2, memory_type_index, size) == spec_allocation_check(
                p1,
                memory_type_index,
                size,
            )
        }),
{
}

} // verus!
