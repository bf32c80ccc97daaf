//! Physical device selection: its errors, and the names of device types.

use vstd::prelude::*;

use crate::errors::{is_out_of_memory_code, OutOfMemoryError};
use crate::vulkan::{
    device_type_cpu, device_type_discrete_gpu, device_type_integrated_gpu, device_type_virtual_gpu,
    error_out_of_device_memory, error_out_of_host_memory,
};

verus! {

/// Whether `code` is an out-of-memory code or `ERROR_INITIALIZATION_FAILED`.
pub open spec fn is_selection_error_code(code: i32) -> bool {
    is_out_of_memory_code(code) || code == -3
}

/// Why a physical device could not be selected.
#[derive(Debug, Clone, Copy, PartialEq, Eq, Structural)]
pub enum PhysicalDeviceSelectionError {
    OutOfMemory(OutOfMemoryError),
    VulkanInitializationFailed,
}

impl PhysicalDeviceSelectionError {
    /// The error that the Vulkan result code `code` reports: the two
    /// out-of-memory codes and `ERROR_INITIALIZATION_FAILED`.
    pub fn from_result_code(code: i32) -> (r: Self)
        requires
            is_selection_error_code(code),
        ensures
            code == -1 ==> r == PhysicalDeviceSelectionError::OutOfMemory(
                OutOfMemoryError::OutOfHostMemory,
            ),
            code == -2 ==> r == PhysicalDeviceSelectionError::OutOfMemory(
                OutOfMemoryError::OutOfDeviceMemory,
            ),
            code == -3 ==> r == PhysicalDeviceSelectionError::VulkanInitializationFailed,
    {
        if code == error_out_of_host_memory() || code == error_out_of_device_memory() {
            PhysicalDeviceSelectionError::OutOfMemory(OutOfMemoryError::from_result_code(code))
        } else {
            PhysicalDeviceSelectionError::VulkanInitializationFailed
        }
    }
}

/// Why the physical devices could not be enumerated.
#[derive(Debug, Clone, Copy, PartialEq, Eq, Structural)]
pub enum DeviceSelectionError {
    OutOfMemory(OutOfMemoryError),
    VulkanInitializationFailed,
}

impl DeviceSelectionError {
    /// The error that the Vulkan result code `code` reports: the two
    /// out-of-memory codes and `ERROR_INITIALIZATION_FAILED`.
    pub fn from_result_code(code: i32) -> (r: Self)
        requires
            is_selection_error_code(code),
        ensures
            code == -1 ==> r == DeviceSelectionError::OutOfMemory(OutOfMemoryError::OutOfHostMemory),
            code == -2 ==> r == DeviceSelectionError::OutOfMemory(
                OutOfMemoryError::OutOfDeviceMemory,
            ),
            code == -3 ==> r == DeviceSelectionError::VulkanInitializationFailed,
    {
        if code == error_out_of_host_memory() || code == error_out_of_device_memory() {
            DeviceSelectionError::OutOfMemory(OutOfMemoryError::from_result_code(code))
        } else {
            DeviceSelectionError::VulkanInitializationFailed
        }
    }
}

/// The name of a physical device type, from its raw Vulkan value.
pub open spec fn device_type_name_spec(device_type: i32) -> Seq<char> {
    if device_type == 1 {
        "Integrated GPU"@
    } else if device_type == 2 {
        "Discrete GPU"@
    } else if device_type == 3 {
        "Virtual GPU"@
    } else if device_type == 4 {
        "CPU"@
    } else {
        "Unknown"@
    }
}

/// The name under which a physical device of type `device_type` (its raw
/// Vulkan value) is reported.
pub fn device_type_name(device_type: i32) -> (r: &'static str)
    ensures
        r@ == device_type_name_spec(device_type),
{
    if device_type == device_type_integrated_gpu() {
        "Integrated GPU"
    } else if device_type == device_type_discrete_gpu() {
        "Discrete GPU"
    } else if device_type == device_type_virtual_gpu() {
        "Virtual GPU"
    } else if device_type == device_type_cpu() {
        "CPU"
    } else {
        "Unknown"
    }
}

} // verus!
