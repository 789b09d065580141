use vstd::prelude::*;
use crate::instance::physical_device::{DeviceFeatures, PhysicalDevice, QueueFamily};

verus! {

pub type QueueFamilyIndex = u32;

/// How many queues to create in a queue family.
#[derive(Debug, Default, Clone, Copy, PartialEq, Eq, Hash, Structural)]
pub struct QueueFamilyUsage {
    pub family_index: QueueFamilyIndex,
    pub queue_count: u32,
}

/// What a logical device is created with.
#[derive(Debug, Default)]
pub struct DeviceCreateInfo {
    pub queues: Vec<QueueFamilyUsage>,
    pub features: DeviceFeatures,
}

/// A queue request that the physical device cannot satisfy.
#[derive(Debug, Clone, Copy, PartialEq, Eq, Structural)]
pub enum QueueRequestError {
    /// The device has no queue family with this index.
    NoSuchFamily { family_index: u32 },
    /// More queues were requested than the family has.
    TooManyQueues { family_index: u32, max: u32, requested: u32 },
}

/// What is wrong with one queue request, if anything.
pub open spec fn spec_usage_problem(usage: QueueFamilyUsage, families: Seq<QueueFamily>) -> Option<
    QueueRequestError,
> {
    if usage.family_index as int >= families.len() {
        Some(QueueRequestError::NoSuchFamily { family_index: usage.family_index })
    } else if usage.queue_count > families[usage.family_index as int].queue_count {
        Some(
            QueueRequestError::TooManyQueues {
                family_index: usage.family_index,
                max: families[usage.family_index as int].queue_count,
                requested: usage.queue_count,
            },
        )
    } else {
        None
    }
}

impl DeviceCreateInfo {
    /// Asserts that every queue request fits the queue families of `device`: a
    /// request for a family the device lacks, or for more queues than the family
    /// has, is a misuse that is not accepted here. [`Self::check`] tells which
    /// request is at fault, so that a caller can refuse it first.
    pub fn validate(&self, device: &PhysicalDevice)
        requires
            forall|i: int|
                0 <= i < self.queues@.len() ==> spec_usage_problem(
                    #[trigger] self.queues@[i],
                    device.spec_queue_families(),
                ) is None,
    {
    }

    /// Checks every queue request against the queue families of `device`, in
    /// order; the first request that fails is reported. It is `Ok` exactly on the
    /// requests that [`Self::validate`] accepts.
    pub fn check(&self, device: &PhysicalDevice) -> (r: Result<(), QueueRequestError>)
        ensures
            r is Ok <==> forall|i: int|
                0 <= i < self.queues@.len() ==> spec_usage_problem(
                    #[trigger] self.queues@[i],
                    device.spec_queue_families(),
                ) is None,
            forall|e: QueueRequestError|
                r == Err::<(), QueueRequestError>(e) ==> exists|i: int|
                    0 <= i < self.queues@.len() && spec_usage_problem(
                        #[trigger] self.queues@[i],
                        device.spec_queue_families(),
                    ) == Some(e) && forall|j: int|
                        0 <= j < i ==> spec_usage_problem(
                            #[trigger] self.queues@[j],
                            device.spec_queue_families(),
                        ) is None,
    {
        let families = device.queue_family_infos();
        let mut i: usize = 0;
        while i < self.queues.len()
            invariant
                families@ == device.spec_queue_families(),
                0 <= i <= self.queues@.len(),
                forall|j: int|
                    0 <= j < i ==> spec_usage_problem(#[trigger] self.queues@[j], families@) is None,
            decreases self.queues@.len() - i,
        {
            let usage = self.queues[i];
            if usage.family_index as usize >= families.len() {
                let e = QueueRequestError::NoSuchFamily { family_index: usage.family_index };
                assert(spec_usage_problem(self.queues@[i as int], families@) == Some(e));
                return Err(e);
            }
            let family = families[usage.family_index as usize];
            if usage.queue_count > family.queue_count {
                let e = QueueRequestError::TooManyQueues {
                    family_index: usage.family_index,
                    max: family.queue_count,
                    requested: usage.queue_count,
                };
                assert(spec_usage_problem(self.queues@[i as int], families@) == Some(e));
                return Err(e);
            }
            i = i + 1;
        }
        Ok(())
    }
}

} // verus!
