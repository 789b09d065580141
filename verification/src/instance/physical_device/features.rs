use vstd::prelude::*;

verus! {

#[verifier::external_type_specification]
#[verifier::external_body]
pub struct ExPhysicalDeviceFeatures(ash::vk::PhysicalDeviceFeatures);

/// The optional features of a device, in the driver's own layout; the wrapper
/// only carries them between the queries and device creation.
#[derive(Debug, Default, Clone, Copy)]
pub struct DeviceFeatures {
    pub raw: ash::vk::PhysicalDeviceFeatures,
}

} // verus!
