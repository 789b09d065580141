//! Verified core of a thin Vulkan wrapper: the plain data model of devices,
//! memory, resources and descriptors, the decisions the wrapper makes before it
//! talks to the driver, and the layout of formats read from their names.

pub mod error;
pub mod text;
pub mod instance;
pub mod memory;
pub mod device;
pub mod descriptors;
pub mod shaders;
pub mod commands;
pub mod queue;
pub mod format_attributes;
pub mod generate_formats;

pub use error::Error;
