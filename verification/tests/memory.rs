use arrayvec::{ArrayString, ArrayVec};
use qubicon_vulkan::error::{Error, ValidationError, VkError};
use qubicon_vulkan::instance::physical_device::{
    DeviceFeatures, DeviceLimits, DeviceMemoryProperties, DeviceProperties, DeviceType, MemoryHeap,
    MemoryHeapProperties, MemoryType, MemoryTypeProperties, PhysicalDevice, QueueFamily,
    QueueFamilyCapabilities,
};
use qubicon_vulkan::memory::allocation::device_memory::{
    validate_allocation, DeviceMemoryObject, MapStep, MappingCounter,
};
use qubicon_vulkan::memory::resources::{find_memory_type_index, reaches_missing_memory_type};
use qubicon_vulkan::memory::{AllocationInfo, AllocationProblem, MemoryObject};

fn memory_properties() -> DeviceMemoryProperties {
    let mut memory_types = ArrayVec::new();
    memory_types.push(MemoryType { properties: MemoryTypeProperties::DEVICE_LOCAL(), heap_index: 0 });
    memory_types.push(MemoryType {
        properties: MemoryTypeProperties::HOST_VISIBLE().union(MemoryTypeProperties::HOST_COHERENT()),
        heap_index: 1,
    });
    memory_types.push(MemoryType {
        properties: MemoryTypeProperties::DEVICE_LOCAL().union(MemoryTypeProperties::HOST_VISIBLE()),
        heap_index: 0,
    });
    let mut memory_heaps = ArrayVec::new();
    memory_heaps.push(MemoryHeap { properties: MemoryHeapProperties::DEVICE_LOCAL(), size: 1 << 30 });
    memory_heaps.push(MemoryHeap { properties: MemoryHeapProperties::empty(), size: 1 << 20 });
    DeviceMemoryProperties { memory_types, memory_heaps }
}

fn physical_device(max_allocations: u32) -> PhysicalDevice {
    let properties = DeviceProperties {
        driver_version: 1,
        vendor_id: 2,
        device_id: 3,
        device_type: DeviceType::DiscreteGpu,
        device_name: ArrayString::from("test device").unwrap(),
        pipeline_chache_uuid: [0; 16],
        limits: DeviceLimits { max_memory_allocation_count: max_allocations, ..Default::default() },
    };
    PhysicalDevice::new(
        7,
        vec![QueueFamily { capabilities: QueueFamilyCapabilities::GRAPHICS(), queue_count: 2 }],
        DeviceFeatures::default(),
        properties,
        memory_properties(),
    )
}

#[test]
fn memory_type_is_the_lowest_allowed_that_suits() {
    let props = memory_properties();
    assert_eq!(find_memory_type_index(&props, 0b111, MemoryTypeProperties::HOST_VISIBLE()), Ok(1));
    assert_eq!(find_memory_type_index(&props, 0b101, MemoryTypeProperties::HOST_VISIBLE()), Ok(2));
    assert_eq!(find_memory_type_index(&props, 0b111, MemoryTypeProperties::empty()), Ok(0));
    assert_eq!(
        find_memory_type_index(&props, 0b111, MemoryTypeProperties::DEVICE_LOCAL().union(MemoryTypeProperties::HOST_VISIBLE())),
        Ok(2)
    );
}

#[test]
fn memory_type_search_can_fail() {
    let props = memory_properties();
    assert_eq!(
        find_memory_type_index(&props, 0b001, MemoryTypeProperties::HOST_VISIBLE()),
        Err(Error::Validation(ValidationError::NoValidMemoryTypeFound))
    );
    assert_eq!(
        find_memory_type_index(&props, 0, MemoryTypeProperties::empty()),
        Err(Error::Validation(ValidationError::NoValidMemoryTypeFound))
    );
    // an allowed type the device lacks is fine once a suitable one came first
    assert_eq!(find_memory_type_index(&props, 0b1001, MemoryTypeProperties::empty()), Ok(0));
}

#[test]
fn allocation_checks() {
    let props = memory_properties();
    assert_eq!(validate_allocation(&props, 0, 1024), Ok(()));
    assert_eq!(validate_allocation(&props, 1, (1 << 20) - 1), Ok(()));
    assert_eq!(
        validate_allocation(&props, 1, 1 << 20),
        Err(Error::Validation(ValidationError::InvalidAllocationSize))
    );
    assert_eq!(
        validate_allocation(&props, 1, (1 << 20) + 1),
        Err(Error::Validation(ValidationError::InvalidAllocationSize))
    );
    assert_eq!(
        validate_allocation(&props, 0, 0),
        Err(Error::Validation(ValidationError::InvalidAllocationSize))
    );
    assert_eq!(
        validate_allocation(&props, 3, 16),
        Err(Error::Validation(ValidationError::NoValidMemoryTypeFound))
    );
}

#[test]
fn mappings_are_shared() {
    let props = memory_properties();
    let mut memory = DeviceMemoryObject::allocate(&props, 1, 4096).unwrap();
    assert_eq!(memory.size(), 4096);
    assert_eq!(memory.memory_type_index(), 1);
    assert_eq!(memory.begin_map(&props), Ok(MapStep::MapMemory));
    memory.map_succeeded();
    assert_eq!(memory.begin_map(&props), Ok(MapStep::ReuseMapping));
    assert_eq!(memory.mapping(), MappingCounter { count: 2, mapped: true });
    assert!(!memory.unmap());
    assert!(memory.unmap());
    assert_eq!(memory.mapping(), MappingCounter { count: 0, mapped: false });
    // an extra unmap changes nothing
    assert!(!memory.unmap());
    assert_eq!(memory.mapping(), MappingCounter::new());
}

#[test]
fn device_local_memory_cannot_be_mapped() {
    let props = memory_properties();
    let mut memory = DeviceMemoryObject::allocate(&props, 0, 4096).unwrap();
    assert_eq!(
        memory.begin_map(&props),
        Err(Error::Validation(ValidationError::MemoryMappingNotSupported))
    );
    assert_eq!(memory.mapping(), MappingCounter::new());
    assert!(DeviceMemoryObject::allocate(&props, 9, 4096).is_err());
}

#[test]
fn allocation_info_checks() {
    let device = physical_device(4);
    assert_eq!(AllocationInfo { size: 0, memory_type: 0 }.check(&device), Err(AllocationProblem::ZeroSize));
    assert_eq!(
        AllocationInfo { size: 1, memory_type: 3 }.check(&device),
        Err(AllocationProblem::NoSuchMemoryType { memory_type: 3 })
    );
    assert_eq!(
        AllocationInfo { size: (1 << 20) + 1, memory_type: 1 }.check(&device),
        Err(AllocationProblem::LargerThanHeap)
    );
    assert_eq!(AllocationInfo { size: 1 << 20, memory_type: 1 }.check(&device), Ok(()));
    AllocationInfo { size: 1 << 20, memory_type: 1 }.validate(&device);
}

#[test]
fn memory_objects_respect_the_allocation_limit() {
    let device = physical_device(2);
    let info = AllocationInfo { size: 256, memory_type: 1 };
    assert_eq!(MemoryObject::allocate_from(&device, info, 2).err(), Some(VkError::TooManyObjects));
    let mut object = MemoryObject::allocate_from(&device, info, 1).unwrap();
    assert_eq!(object.size(), 256);
    assert_eq!(object.memory_type(), 1);
    assert_eq!(object.plan_map(0), Ok(true));
    object.record_map();
    assert_eq!(object.plan_map(128), Ok(false));
    object.record_map();
    assert!(!object.unmap());
    assert!(object.unmap());
    assert_eq!(object.map_count(), 0);

    let local = MemoryObject::allocate_from(&device, AllocationInfo { size: 256, memory_type: 0 }, 0).unwrap();
    assert_eq!(local.plan_map(0), Err(VkError::MemoryMapFailed));
}

#[test]
fn missing_memory_types_are_found_before_the_search() {
    let props = memory_properties();
    // type 3 is allowed but the device has only three types
    assert!(reaches_missing_memory_type(&props, 0b1000, MemoryTypeProperties::empty()));
    assert!(reaches_missing_memory_type(&props, 0b1001, MemoryTypeProperties::HOST_VISIBLE()));
    // a suitable type comes first
    assert!(!reaches_missing_memory_type(&props, 0b1001, MemoryTypeProperties::empty()));
    assert!(!reaches_missing_memory_type(&props, 0b0111, MemoryTypeProperties::HOST_HASHED()));
    assert!(!reaches_missing_memory_type(&props, 0, MemoryTypeProperties::empty()));
}

#[test]
fn mappings_are_shared_across_many_maps() {
    let props = memory_properties();
    let mut memory = DeviceMemoryObject::allocate(&props, 1, 4096).unwrap();
    let n = 5;
    for k in 0..n {
        let step = memory.begin_map(&props).unwrap();
        assert_eq!(step, if k == 0 { MapStep::MapMemory } else { MapStep::ReuseMapping });
        if step == MapStep::MapMemory {
            memory.map_succeeded();
        }
    }
    assert_eq!(memory.mapping(), MappingCounter { count: n, mapped: true });
    for k in 0..n {
        assert_eq!(memory.unmap(), k == n - 1);
    }
    assert_eq!(memory.mapping(), MappingCounter { count: 0, mapped: false });
    assert!(!memory.unmap());
    assert_eq!(memory.mapping(), MappingCounter { count: 0, mapped: false });
    assert_eq!(memory.begin_map(&props), Ok(MapStep::MapMemory));
}

#[test]
fn unchecked_memory_objects_start_unmapped() {
    let memory = DeviceMemoryObject::allocate_unchecked(2, 64);
    assert_eq!((memory.memory_type_index(), memory.size()), (2, 64));
    assert_eq!(memory.mapping(), MappingCounter { count: 0, mapped: false });
}

#[test]
fn maps_of_memory_the_host_cannot_see_fail_at_any_offset() {
    let device = physical_device(4);
    let memory = MemoryObject::allocate_from(&device, AllocationInfo { size: 1024, memory_type: 0 }, 0).unwrap();
    assert_eq!(memory.plan_map(0), Err(VkError::MemoryMapFailed));
    assert_eq!(memory.plan_map(1 << 40), Err(VkError::MemoryMapFailed));
    assert!(!memory.memory_properties().contains(MemoryTypeProperties::HOST_VISIBLE()));
}

#[test]
fn memory_types_must_name_existing_heaps() {
    let props = memory_properties();
    assert!(props.is_well_formed());
    let mut broken = memory_properties();
    broken.memory_types.push(MemoryType { properties: MemoryTypeProperties::empty(), heap_index: 2 });
    assert!(!broken.is_well_formed());
}
