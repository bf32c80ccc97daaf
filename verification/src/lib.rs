//! Vulkan instance and device set-up decisions: which extensions and
//! features to ask for, which requests can be honoured, and how driver
//! error codes map to the library's errors.

pub mod names;
pub mod vulkan;
pub mod extensions;
pub mod features;
pub mod errors;
pub mod instance;
pub mod device;
pub mod device_selector;
pub mod memory;
