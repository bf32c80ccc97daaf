//! Logical device creation decisions: which extensions and features to
//! enable, when creation is refused, and how creation errors map to the
//! library's errors.

use vstd::prelude::*;

use crate::errors::{is_out_of_memory_code, OutOfMemoryError};
use crate::extensions::{DeviceExtension, DeviceExtensions};
use crate::features::{features_with_extensions, DeviceFeature, DeviceFeatures};
use crate::vulkan::{error_device_lost, error_out_of_device_memory, error_out_of_host_memory};

verus! {

/// Why a logical device could not be created.
#[derive(Debug, Clone, Copy, PartialEq, Eq, Structural)]
pub enum DeviceCreationError {
    /// The required extensions that the device lacks.
    RequiredExtensionsNotSupported(DeviceExtensions),
    /// The required features that the device lacks.
    RequiredFeaturesNotSupported(DeviceFeatures),
    VulkanInitializationFailed,
    DeviceLost,
    OutOfMemory(OutOfMemoryError),
}

/// The extensions to enable: the required ones, and the optional ones that
/// the device supports.
pub open spec fn enabled_extensions(
    supported: Set<DeviceExtension>,
    required: Set<DeviceExtension>,
    optional: Set<DeviceExtension>,
) -> Set<DeviceExtension> {
    supported.intersect(optional).union(required)
}

/// The features to enable: the required ones and the optional ones that the
/// device supports, less those whose extension is not in `extensions`.
pub open spec fn enabled_features(
    supported: Set<DeviceFeature>,
    required: Set<DeviceFeature>,
    optional: Set<DeviceFeature>,
    extensions: Set<DeviceExtension>,
) -> Set<DeviceFeature> {
    features_with_extensions(supported.intersect(optional).union(required), extensions)
}

/// Decides what a logical device is created with, from what the physical
/// device supports and what the application requires and would like.
/// Fails when a required extension, or else a required feature, is not
/// supported, and names the ones missing.
pub fn plan_device_creation(
    supported_extensions: DeviceExtensions,
    supported_features: DeviceFeatures,
    required_extensions: DeviceExtensions,
    optional_extensions: DeviceExtensions,
    required_features: DeviceFeatures,
    optional_features: DeviceFeatures,
) -> (r: Result<(DeviceExtensions, DeviceFeatures), DeviceCreationError>)
    ensures
        !required_extensions@.subset_of(supported_extensions@) ==> (r matches Err(
            DeviceCreationError::RequiredExtensionsNotSupported(missing),
        ) && missing@ == required_extensions@.difference(supported_extensions@)),
        required_extensions@.subset_of(supported_extensions@) && !required_features@.subset_of(
            supported_features@,
        ) ==> (r matches Err(DeviceCreationError::RequiredFeaturesNotSupported(missing))
            && missing@ == required_features@.difference(supported_features@)),
        required_extensions@.subset_of(supported_extensions@) && required_features@.subset_of(
            supported_features@,
        ) ==> (r matches Ok((extensions, features)) && extensions@ == enabled_extensions(
            supported_extensions@,
            required_extensions@,
            optional_extensions@,
        ) && features@ == enabled_features(
            supported_features@,
            required_features@,
            optional_features@,
            extensions@,
        )),
{
    let missing_required_extensions = supported_extensions.filter_missing(required_extensions);
    if let Some(extensions) = missing_required_extensions {
        return Err(DeviceCreationError::RequiredExtensionsNotSupported(extensions));
    }
    let missing_required_features = supported_features.filter_missing(required_features);
    if let Some(features) = missing_required_features {
        return Err(DeviceCreationError::RequiredFeaturesNotSupported(features));
    }

    let supported_optional_extensions = supported_extensions.and(optional_extensions);
    let supported_optional_features = supported_features.and(optional_features);

    let to_enable_extensions = supported_optional_extensions.or(required_extensions);
    let mut to_enable_features = supported_optional_features.or(required_features);
    to_enable_features.filter_extension_required(&to_enable_extensions);

    Ok((to_enable_extensions, to_enable_features))
}

/// Whether `code` is a result code that device creation can fail with.
pub open spec fn is_device_creation_error_code(code: i32) -> bool {
    is_out_of_memory_code(code) || code == -3 || code == -4
}

impl DeviceCreationError {
    /// The error that the device creation result code `code` reports.
    pub fn from_result_code(code: i32) -> (r: Self)
        requires
            is_device_creation_error_code(code),
        ensures
            code == -1 ==> r == DeviceCreationError::OutOfMemory(OutOfMemoryError::OutOfHostMemory),
            code == -2 ==> r == DeviceCreationError::OutOfMemory(OutOfMemoryError::OutOfDeviceMemory),
            code == -3 ==> r == DeviceCreationError::VulkanInitializationFailed,
            code == -4 ==> r == DeviceCreationError::DeviceLost,
    {
        if code == error_out_of_host_memory() || code == error_out_of_device_memory() {
            DeviceCreationError::OutOfMemory(OutOfMemoryError::from_result_code(code))
        } else if code == error_device_lost() {
            DeviceCreationError::DeviceLost
        } else {
            DeviceCreationError::VulkanInitializationFailed
        }
    }
}

} // verus!

verus! {

/// A device is created with supported extensions only; it gets every
/// required extension, every optional one that it supports, and no other.
pub proof fn lemma_enabled_extensions(
    supported: DeviceExtensions,
    required: DeviceExtensions,
    optional: DeviceExtensions,
)
    requires
        required@.subset_of(supported@),
    ensures
        enabled_extensions(supported@, required@, optional@).subset_of(supported@),
        required@.subset_of(enabled_extensions(supported@, required@, optional@)),
        supported@.intersect(optional@).subset_of(enabled_extensions(supported@, required@, optional@)),
        enabled_extensions(supported@, required@, optional@).subset_of(required@.union(optional@)),
{
}

/// A device is created with supported features only, each required or
/// optional; a feature whose extension is not enabled is left out. Every
/// required feature, and every supported optional one, is enabled as long
/// as its extension is.
pub proof fn lemma_enabled_features(
    supported: DeviceFeatures,
    required: DeviceFeatures,
    optional: DeviceFeatures,
    extensions: DeviceExtensions,
)
    requires
        required@.subset_of(supported@),
    ensures
        enabled_features(supported@, required@, optional@, extensions@).subset_of(supported@),
        enabled_features(supported@, required@, optional@, extensions@).subset_of(
            required@.union(optional@),
        ),
        enabled_features(supported@, required@, optional@, extensions@).contains(
            DeviceFeature::SwapchainMaintenance1,
        ) ==> extensions@.contains(DeviceExtension::SwapchainMaintenance1),
        required@.remove(DeviceFeature::SwapchainMaintenance1).subset_of(
            enabled_features(supported@, required@, optional@, extensions@),
        ),
        extensions@.contains(DeviceExtension::SwapchainMaintenance1) ==> required@.subset_of(
            enabled_features(supported@, required@, optional@, extensions@),
        ) && supported@.intersect(optional@).subset_of(
            enabled_features(supported@, required@, optional@, extensions@),
        ),
{
}

/// Exactly which extensions and features a device is created with, for
/// every input: an extension is enabled exactly when it is required or is
/// both supported and optional; a feature exactly when it is required or is
/// both supported and optional, unless it is `swapchainMaintenance1` and its
/// extension is not enabled. In particular every supported optional feature
/// other than `swapchainMaintenance1` is enabled whatever the extensions.
pub proof fn lemma_enabled_exactly(
    supported_extensions: DeviceExtensions,
    required_extensions: DeviceExtensions,
    optional_extensions: DeviceExtensions,
    supported_features: DeviceFeatures,
    required_features: DeviceFeatures,
    optional_features: DeviceFeatures,
    extensions: DeviceExtensions,
)
    ensures
        forall|x: DeviceExtension|
            #[trigger] enabled_extensions(
                supported_extensions@,
                required_extensions@,
                optional_extensions@,
            ).contains(x) <==> ((supported_extensions@.contains(x) && optional_extensions@.contains(x))
                || required_extensions@.contains(x)),
        forall|f: DeviceFeature|
            #[trigger] enabled_features(
                supported_features@,
                required_features@,
                optional_features@,
                extensions@,
            ).contains(f) <==> (((supported_features@.contains(f) && optional_features@.contains(f))
                || required_features@.contains(f)) && (f == DeviceFeature::SwapchainMaintenance1
                ==> extensions@.contains(DeviceExtension::SwapchainMaintenance1))),
        supported_features@.intersect(optional_features@).remove(
            DeviceFeature::SwapchainMaintenance1,
        ).subset_of(
            enabled_features(supported_features@, required_features@, optional_features@, extensions@),
        ),
{
}

} // verus!
