//! The logical device: which queues it was created with and what it knows of
//! its physical device.

pub mod create_info;
pub mod error;

pub use create_info::{
    spec_usage_problem, DeviceCreateInfo, QueueFamilyIndex, QueueFamilyUsage, QueueRequestError,
};
pub use error::QueueError;

use vstd::prelude::*;
use crate::instance::physical_device::{
    DeviceFeatures, DeviceMemoryProperties, DeviceProperties, PhysicalDevice, QueueFamily,
    QueueFamilyCapabilities,
};

verus! {

/// Where a queue of the device is and what it can do.
#[derive(Debug, Clone, Copy, PartialEq, Eq, Hash, Structural)]
pub struct QueueInfo {
    pub family_index: u32,
    pub queue_index: u32,
    pub capabilities: QueueFamilyCapabilities,
}

/// Whether `usages[i]` is the first entry for family `family_index`.
pub open spec fn is_first_usage(usages: Seq<QueueFamilyUsage>, family_index: u32, i: int) -> bool {
    &&& 0 <= i < usages.len()
    &&& usages[i].family_index == family_index
    &&& forall|j: int| 0 <= j < i ==> (#[trigger] usages[j]).family_index != family_index
}

/// A logical device as the wrapper sees it: its physical device, the features it
/// was created with and the queues it asked for.
pub struct Device {
    physical_device: PhysicalDevice,
    features: DeviceFeatures,
    queue_usage: Vec<QueueFamilyUsage>,
}

impl Device {
    pub closed spec fn spec_physical_device(&self) -> PhysicalDevice {
        self.physical_device
    }

    pub closed spec fn spec_features(&self) -> DeviceFeatures {
        self.features
    }

    pub closed spec fn spec_queue_usage(&self) -> Seq<QueueFamilyUsage> {
        self.queue_usage@
    }

    /// The device that `create_info` creates on `physical_device`, once the driver
    /// has created it.
    pub fn create_from_physical_device(create_info: DeviceCreateInfo, physical_device: PhysicalDevice) -> (r: Self)
        ensures
            r.spec_physical_device() == physical_device,
            r.spec_features() == create_info.features,
            r.spec_queue_usage() == create_info.queues@,
    {
        Device {
            physical_device,
            features: create_info.features,
            queue_usage: create_info.queues,
        }
    }

    pub fn get_physical_device(&self) -> (r: &PhysicalDevice)
        ensures
            *r == self.spec_physical_device(),
    {
        &self.physical_device
    }

    pub fn get_enabled_features(&self) -> (r: &DeviceFeatures)
        ensures
            *r == self.spec_features(),
    {
        &self.features
    }

    pub fn get_device_properties(&self) -> (r: &DeviceProperties)
        ensures
            *r == self.spec_physical_device().spec_properties(),
    {
        self.physical_device.properties()
    }

    pub fn get_device_memory_properties(&self) -> (r: &DeviceMemoryProperties)
        ensures
            *r == self.spec_physical_device().spec_memory_properties(),
    {
        self.physical_device.memory_properties()
    }

    /// The queues the device was created with, one entry per request.
    pub fn get_queue_usage(&self) -> (r: &[QueueFamilyUsage])
        ensures
            r@ == self.spec_queue_usage(),
    {
        self.queue_usage.as_slice()
    }

    /// Finds queue `queue_index` of family `family_index`. The first request for the
    /// family decides: without one the family is unknown, and the index must be
    /// below the number of queues it asked for. The family must be one of the
    /// physical device's when the queue exists.
    pub fn get_queue_info(&self, family_index: u32, queue_index: u32) -> (r: Result<QueueInfo, QueueError>)
        requires
            forall|i: int|
                is_first_usage(self.spec_queue_usage(), family_index, i) && queue_index
                    < self.spec_queue_usage()[i].queue_count ==> (family_index as int)
                    < self.spec_physical_device().spec_queue_families().len(),
        ensures
            (forall|i: int|
                0 <= i < self.spec_queue_usage().len() ==> (#[trigger] self.spec_queue_usage()[i]).family_index
                    != family_index) ==> r == Err::<QueueInfo, QueueError>(
                QueueError::NoQueueFamily { family_index },
            ),
            forall|i: int|
                is_first_usage(self.spec_queue_usage(), family_index, i) ==> if queue_index
                    >= self.spec_queue_usage()[i].queue_count {
                    r == Err::<QueueInfo, QueueError>(QueueError::NoQueueWithIndex { queue_index })
                } else {
                    r == Ok::<QueueInfo, QueueError>(
                        QueueInfo {
                            family_index,
                            queue_index,
                            capabilities: self.spec_physical_device().spec_queue_families()[family_index as int].capabilities,
                        },
                    )
                },
    {
        match first_queue_usage(self.queue_usage.as_slice(), family_index) {
            None => Err(QueueError::NoQueueFamily { family_index }),
            Some(usage) => {
                let ghost first = choose|i: int| is_first_usage(self.spec_queue_usage(), family_index, i);
                assert(usage == self.spec_queue_usage()[first]);
                if queue_index >= usage.queue_count {
                    return Err(QueueError::NoQueueWithIndex { queue_index });
                }
                let families = self.physical_device.queue_family_infos();
                let capabilities = families[family_index as usize].capabilities;
                Ok(QueueInfo { family_index, queue_index, capabilities })
            },
        }
    }
}

/// The first request for queues of family `family_index`, if there is one.
pub fn first_queue_usage(usages: &[QueueFamilyUsage], family_index: u32) -> (r: Option<QueueFamilyUsage>)
    ensures
        r is None <==> forall|i: int|
            0 <= i < usages@.len() ==> (#[trigger] usages@[i]).family_index != family_index,
        forall|i: int| is_first_usage(usages@, family_index, i) ==> r == Some(usages@[i]),
        r is Some ==> exists|i: int| is_first_usage(usages@, family_index, i),
{
    let mut i: usize = 0;
    while i < usages.len()
        invariant
            0 <= i <= usages@.len(),
            forall|j: int| 0 <= j < i ==> (#[trigger] usages@[j]).family_index != family_index,
        decreases usages@.len() - i,
    {
        if usages[i].family_index == family_index {
            assert forall|k: int| is_first_usage(usages@, family_index, k) implies k == i by {
                if k > i {
                    assert(usages@[i as int].family_index == family_index);
                }
            }
            assert(is_first_usage(usages@, family_index, i as int));
            return Some(usages[i]);
        }
        i = i + 1;
    }
    None
}

/// Every queue that a create info asks for, once `DeviceCreateInfo::validate`
/// may be called on it (`DeviceCreateInfo::check` is `Ok`) for the physical device, exists on the device it creates: the
/// first request for a family names a family of the physical device that has at
/// least that many queues, so `Device::get_queue_info` may be asked for any of
/// them and hands it out.
pub proof fn lemma_requested_queues_exist(
    create_info: DeviceCreateInfo,
    physical_device: PhysicalDevice,
    device: Device,
    family_index: u32,
    queue_index: u32,
    i: int,
)
    requires
        forall|k: int|
            0 <= k < create_info.queues@.len() ==> spec_usage_problem(
                #[trigger] create_info.queues@[k],
                physical_device.spec_queue_families(),
            ) is None,
        device.spec_physical_device() == physical_device,
        device.spec_queue_usage() == create_info.queues@,
        is_first_usage(create_info.queues@, family_index, i),
        queue_index < create_info.queues@[i].queue_count,
    ensures
        (family_index as int) < physical_device.spec_queue_families().len(),
        queue_index < physical_device.spec_queue_families()[family_index as int].queue_count,
        forall|j: int|
            is_first_usage(device.spec_queue_usage(), family_index, j) && queue_index
                < device.spec_queue_usage()[j].queue_count ==> (family_index as int)
                < device.spec_physical_device().spec_queue_families().len(),
{
    assert(spec_usage_problem(create_info.queues@[i], physical_device.spec_queue_families()) is None);
}

} // verus!
