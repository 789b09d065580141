use arrayvec::{ArrayString, ArrayVec};
use qubicon_vulkan::device::{Device, DeviceCreateInfo, QueueError, QueueFamilyUsage, QueueInfo, QueueRequestError};
use qubicon_vulkan::instance::physical_device::{
    DeviceFeatures, DeviceLimits, DeviceMemoryProperties, DeviceProperties, DeviceType, PhysicalDevice,
    QueueFamily, QueueFamilyCapabilities,
};

fn physical_device() -> PhysicalDevice {
    let properties = DeviceProperties {
        driver_version: 1,
        vendor_id: 0x10de,
        device_id: 3,
        device_type: DeviceType::IntegratedGpu,
        device_name: ArrayString::from("gpu").unwrap(),
        pipeline_chache_uuid: [1; 16],
        limits: DeviceLimits::default(),
    };
    PhysicalDevice::new(
        42,
        vec![
            QueueFamily {
                capabilities: QueueFamilyCapabilities::GRAPHICS().union(QueueFamilyCapabilities::COMPUTE()),
                queue_count: 4,
            },
            QueueFamily { capabilities: QueueFamilyCapabilities::TRANSFER(), queue_count: 1 },
        ],
        DeviceFeatures::default(),
        properties,
        DeviceMemoryProperties { memory_types: ArrayVec::new(), memory_heaps: ArrayVec::new() },
    )
}

#[test]
fn queue_requests_are_checked_in_order() {
    let device = physical_device();
    let ok = DeviceCreateInfo {
        queues: vec![
            QueueFamilyUsage { family_index: 0, queue_count: 4 },
            QueueFamilyUsage { family_index: 1, queue_count: 1 },
        ],
        ..Default::default()
    };
    assert_eq!(ok.check(&device), Ok(()));
    ok.validate(&device);
    let bad = DeviceCreateInfo {
        queues: vec![
            QueueFamilyUsage { family_index: 1, queue_count: 2 },
            QueueFamilyUsage { family_index: 5, queue_count: 1 },
        ],
        ..Default::default()
    };
    assert_eq!(
        bad.check(&device),
        Err(QueueRequestError::TooManyQueues { family_index: 1, max: 1, requested: 2 })
    );
    let missing = DeviceCreateInfo {
        queues: vec![QueueFamilyUsage { family_index: 2, queue_count: 1 }],
        ..Default::default()
    };
    assert_eq!(missing.check(&device), Err(QueueRequestError::NoSuchFamily { family_index: 2 }));
}

#[test]
fn queues_are_found_by_family_and_index() {
    let create_info = DeviceCreateInfo {
        queues: vec![
            QueueFamilyUsage { family_index: 1, queue_count: 1 },
            QueueFamilyUsage { family_index: 0, queue_count: 2 },
            QueueFamilyUsage { family_index: 0, queue_count: 4 },
        ],
        ..Default::default()
    };
    let device = Device::create_from_physical_device(create_info, physical_device());
    assert_eq!(
        device.get_queue_info(0, 1),
        Ok(QueueInfo {
            family_index: 0,
            queue_index: 1,
            capabilities: QueueFamilyCapabilities::GRAPHICS().union(QueueFamilyCapabilities::COMPUTE()),
        })
    );
    // the first request for a family decides
    assert_eq!(device.get_queue_info(0, 2), Err(QueueError::NoQueueWithIndex { queue_index: 2 }));
    assert_eq!(device.get_queue_info(1, 0).map(|q| q.capabilities), Ok(QueueFamilyCapabilities::TRANSFER()));
    assert_eq!(device.get_queue_info(3, 0), Err(QueueError::NoQueueFamily { family_index: 3 }));
}

#[test]
fn device_reports_its_physical_device() {
    let device = Device::create_from_physical_device(DeviceCreateInfo::default(), physical_device());
    assert_eq!(device.get_physical_device().handle(), 42);
    assert_eq!(device.get_device_properties().vendor_id, 0x10de);
    assert_eq!(device.get_device_properties().device_name.as_str(), "gpu");
    assert_eq!(device.get_device_memory_properties().memory_types.len(), 0);
    assert_eq!(device.get_physical_device().queue_family_infos().len(), 2);
    assert!(device.get_queue_usage().is_empty());
    let _ = device.get_enabled_features();
}

#[test]
fn every_queue_of_a_valid_request_is_handed_out() {
    let create_info = DeviceCreateInfo {
        queues: vec![
            QueueFamilyUsage { family_index: 0, queue_count: 3 },
            QueueFamilyUsage { family_index: 1, queue_count: 1 },
        ],
        ..Default::default()
    };
    assert_eq!(create_info.check(&physical_device()), Ok(()));
    let device = Device::create_from_physical_device(create_info, physical_device());
    for (family_index, count) in [(0u32, 3u32), (1, 1)] {
        for queue_index in 0..count {
            let info = device.get_queue_info(family_index, queue_index).unwrap();
            assert_eq!((info.family_index, info.queue_index), (family_index, queue_index));
        }
    }
}
