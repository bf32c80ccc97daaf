//! Vulkan constants that ash defines, as plain values.

use vstd::prelude::*;

verus! {

/// `ash::vk::TRUE`, which ash defines as the `Bool32` 1.
#[verifier::external_body]
pub(crate) fn vk_true() -> (r: ash::vk::Bool32)
    ensures
        r == 1,
{
    ash::vk::TRUE
}

/// `ash::vk::FALSE`, which ash defines as the `Bool32` 0.
#[verifier::external_body]
pub(crate) fn vk_false() -> (r: ash::vk::Bool32)
    ensures
        r == 0,
{
    ash::vk::FALSE
}

/// `ash::vk::API_VERSION_1_0`, which ash defines as
/// `make_api_version(0, 1, 0, 0)`, that is `1 << 22`.
#[verifier::external_body]
pub(crate) fn api_version_1_0() -> (r: u32)
    ensures
        r == 0x40_0000,
{
    ash::vk::API_VERSION_1_0
}

/// The raw code of `ash::vk::Result::ERROR_OUT_OF_HOST_MEMORY`, which ash
/// defines as -1.
#[verifier::external_body]
pub(crate) fn error_out_of_host_memory() -> (r: i32)
    ensures
        r == -1,
{
    ash::vk::Result::ERROR_OUT_OF_HOST_MEMORY.as_raw()
}

/// The raw code of `ash::vk::Result::ERROR_OUT_OF_DEVICE_MEMORY`, which ash
/// defines as -2.
#[verifier::external_body]
pub(crate) fn error_out_of_device_memory() -> (r: i32)
    ensures
        r == -2,
{
    ash::vk::Result::ERROR_OUT_OF_DEVICE_MEMORY.as_raw()
}


/// The raw code of `ash::vk::Result::ERROR_DEVICE_LOST`, which ash defines
/// as -4.
#[verifier::external_body]
pub(crate) fn error_device_lost() -> (r: i32)
    ensures
        r == -4,
{
    ash::vk::Result::ERROR_DEVICE_LOST.as_raw()
}

/// The raw value of `ash::vk::PhysicalDeviceType::INTEGRATED_GPU`, which ash
/// defines as 1.
#[verifier::external_body]
pub(crate) fn device_type_integrated_gpu() -> (r: i32)
    ensures
        r == 1,
{
    ash::vk::PhysicalDeviceType::INTEGRATED_GPU.as_raw()
}

/// The raw value of `ash::vk::PhysicalDeviceType::DISCRETE_GPU`, which ash
/// defines as 2.
#[verifier::external_body]
pub(crate) fn device_type_discrete_gpu() -> (r: i32)
    ensures
        r == 2,
{
    ash::vk::PhysicalDeviceType::DISCRETE_GPU.as_raw()
}

/// The raw value of `ash::vk::PhysicalDeviceType::VIRTUAL_GPU`, which ash
/// defines as 3.
#[verifier::external_body]
pub(crate) fn device_type_virtual_gpu() -> (r: i32)
    ensures
        r == 3,
{
    ash::vk::PhysicalDeviceType::VIRTUAL_GPU.as_raw()
}

/// The raw value of `ash::vk::PhysicalDeviceType::CPU`, which ash defines
/// as 4.
#[verifier::external_body]
pub(crate) fn device_type_cpu() -> (r: i32)
    ensures
        r == 4,
{
    ash::vk::PhysicalDeviceType::CPU.as_raw()
}

} // verus!
