//! Instance-level configuration and the description of physical devices.

pub mod create_info;
pub mod creation_info;
pub mod version_text;
pub mod physical_device;
