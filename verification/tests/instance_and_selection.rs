use vkinit::device_selector::{device_type_name, DeviceSelectionError, PhysicalDeviceSelectionError};
use vkinit::errors::OutOfMemoryError;
use vkinit::instance::{
    check_api_version, check_requested, first_missing, instance_extensions_to_request,
    max_supported_api_version, InstanceCreationError, InstanceOptionalExtensions,
};
use vkinit::memory::{memory_heap_reports, MemoryHeapInfo, MemoryTypeInfo, MemoryTypeReport};

fn names(list: &[&str]) -> Vec<String> {
    list.iter().map(|s| s.to_string()).collect()
}

#[test]
fn full_optional_extensions() {
    let f = InstanceOptionalExtensions::full();
    assert!(f.get_surface_capabilities2);
    assert!(f.surface_maintenance1);
    assert_eq!(f.count, 2);
    assert_eq!(f.get_extension_list().len(), f.count);
}

#[test]
fn instance_mark_supported_by_names() {
    let s = InstanceOptionalExtensions::mark_supported_by_names(&names(&[
        "VK_KHR_surface",
        "VK_KHR_surface_maintenance1",
    ]));
    assert_eq!(
        s,
        InstanceOptionalExtensions { get_surface_capabilities2: false, surface_maintenance1: true, count: 1 }
    );
    let all = InstanceOptionalExtensions::mark_supported_by_names(&names(&[
        "VK_KHR_get_surface_capabilities2",
        "VK_KHR_surface_maintenance1",
    ]));
    assert_eq!(all, InstanceOptionalExtensions::full());
}

#[test]
fn filter_only_wanted_lowers_count() {
    let mut e = InstanceOptionalExtensions::full();
    e.filter_only_wanted(InstanceOptionalExtensions {
        get_surface_capabilities2: true,
        surface_maintenance1: false,
        count: 1,
    });
    assert_eq!(
        e,
        InstanceOptionalExtensions { get_surface_capabilities2: true, surface_maintenance1: false, count: 1 }
    );
    e.filter_only_wanted(InstanceOptionalExtensions::default());
    assert_eq!(e, InstanceOptionalExtensions::default());
}

#[test]
fn instance_extension_list() {
    assert_eq!(
        InstanceOptionalExtensions::full().get_extension_list(),
        names(&["VK_KHR_get_surface_capabilities2", "VK_KHR_surface_maintenance1"])
    );
    let e = InstanceOptionalExtensions { get_surface_capabilities2: false, surface_maintenance1: true, count: 1 };
    assert_eq!(e.get_extension_list(), names(&["VK_KHR_surface_maintenance1"]));
    assert_eq!(InstanceOptionalExtensions::mark_supported_by_names(&e.get_extension_list()), e);
}

#[test]
fn extensions_to_request_with_and_without_validation() {
    let supported = InstanceOptionalExtensions::full();
    let wanted = InstanceOptionalExtensions { get_surface_capabilities2: false, surface_maintenance1: true, count: 1 };
    let (enabled, list) =
        instance_extensions_to_request(names(&["VK_KHR_surface", "VK_KHR_xlib_surface"]), supported, wanted, false);
    assert_eq!(
        enabled,
        InstanceOptionalExtensions { get_surface_capabilities2: false, surface_maintenance1: true, count: 1 }
    );
    assert_eq!(list, names(&["VK_KHR_surface", "VK_KHR_xlib_surface", "VK_KHR_surface_maintenance1"]));

    let (_, list) = instance_extensions_to_request(Vec::new(), supported, InstanceOptionalExtensions::default(), true);
    assert_eq!(list, names(&["VK_EXT_debug_utils"]));
}

#[test]
fn api_version_check() {
    let v1_3 = ash::vk::API_VERSION_1_3;
    let v1_1 = ash::vk::API_VERSION_1_1;
    assert_eq!(check_api_version(&Ok(Some(v1_3)), v1_1), Ok(()));
    assert_eq!(check_api_version(&Ok(Some(v1_3)), v1_3), Ok(()));
    assert_eq!(
        check_api_version(&Ok(Some(v1_1)), v1_3),
        Err(InstanceCreationError::UnsupportedApiVersion(v1_1, v1_3))
    );
    assert_eq!(
        check_api_version(&Ok(None), v1_1),
        Err(InstanceCreationError::UnsupportedApiVersion(4194304, v1_1))
    );
    assert_eq!(check_api_version(&Err(ash::vk::Result::ERROR_OUT_OF_HOST_MEMORY), 4194304), Ok(()));
    assert_eq!(max_supported_api_version(&Err(ash::vk::Result::ERROR_INITIALIZATION_FAILED)), 4194304);
    assert_eq!(max_supported_api_version(&Ok(Some(v1_3))), v1_3);
}

#[test]
fn first_missing_name() {
    let available = names(&["A", "B", "C"]);
    assert_eq!(first_missing(&names(&["B", "A"]), &available), None);
    assert_eq!(first_missing(&names(&["B", "X", "Y"]), &available), Some("X".to_string()));
    assert_eq!(first_missing(&Vec::new(), &Vec::new()), None);
}

#[test]
fn requested_names_checked() {
    let available_extensions = names(&["VK_KHR_surface"]);
    let available_layers = names(&["VK_LAYER_KHRONOS_validation"]);
    assert_eq!(
        check_requested(&names(&["VK_KHR_surface"]), &available_extensions, &names(&["VK_LAYER_KHRONOS_validation"]), &available_layers),
        Ok(())
    );
    assert_eq!(
        check_requested(&names(&["VK_KHR_surface", "VK_EXT_debug_utils"]), &available_extensions, &names(&["L"]), &available_layers),
        Err(InstanceCreationError::MissingExtension("VK_EXT_debug_utils".to_string()))
    );
    assert_eq!(
        check_requested(&names(&["VK_KHR_surface"]), &available_extensions, &names(&["L"]), &available_layers),
        Err(InstanceCreationError::MissingLayer("L".to_string()))
    );
}

#[test]
fn instance_creation_error_codes() {
    assert_eq!(
        InstanceCreationError::from_result_code(-1),
        InstanceCreationError::OutOfMemory(OutOfMemoryError::OutOfHostMemory)
    );
    assert_eq!(
        InstanceCreationError::from_result_code(-2),
        InstanceCreationError::OutOfMemory(OutOfMemoryError::OutOfDeviceMemory)
    );
    assert_eq!(
        InstanceCreationError::from_result_code(ash::vk::Result::ERROR_INITIALIZATION_FAILED.as_raw()),
        InstanceCreationError::VulkanInitializationFailed
    );
}

#[test]
fn selection_error_codes() {
    assert_eq!(
        PhysicalDeviceSelectionError::from_result_code(-1),
        PhysicalDeviceSelectionError::OutOfMemory(OutOfMemoryError::OutOfHostMemory)
    );
    assert_eq!(
        PhysicalDeviceSelectionError::from_result_code(-2),
        PhysicalDeviceSelectionError::OutOfMemory(OutOfMemoryError::OutOfDeviceMemory)
    );
    assert_eq!(
        PhysicalDeviceSelectionError::from_result_code(-3),
        PhysicalDeviceSelectionError::VulkanInitializationFailed
    );
    assert_eq!(
        DeviceSelectionError::from_result_code(-1),
        DeviceSelectionError::OutOfMemory(OutOfMemoryError::OutOfHostMemory)
    );
    assert_eq!(
        DeviceSelectionError::from_result_code(-2),
        DeviceSelectionError::OutOfMemory(OutOfMemoryError::OutOfDeviceMemory)
    );
    assert_eq!(DeviceSelectionError::from_result_code(-3), DeviceSelectionError::VulkanInitializationFailed);
    assert_eq!(OutOfMemoryError::from_result_code(-2), OutOfMemoryError::OutOfDeviceMemory);
}

#[test]
fn device_type_names() {
    assert_eq!(device_type_name(ash::vk::PhysicalDeviceType::INTEGRATED_GPU.as_raw()), "Integrated GPU");
    assert_eq!(device_type_name(2), "Discrete GPU");
    assert_eq!(device_type_name(3), "Virtual GPU");
    assert_eq!(device_type_name(4), "CPU");
    assert_eq!(device_type_name(0), "Unknown");
    assert_eq!(device_type_name(77), "Unknown");
}

#[test]
fn memory_heaps_grouped() {
    let heaps = vec![
        MemoryHeapInfo { size: 8_589_934_592, flags: 1 },
        MemoryHeapInfo { size: 16_000_000_000, flags: 0 },
        MemoryHeapInfo { size: 1, flags: 0 },
    ];
    let types = vec![
        MemoryTypeInfo { heap_index: 1, property_flags: 0 },
        MemoryTypeInfo { heap_index: 0, property_flags: 1 },
        MemoryTypeInfo { heap_index: 1, property_flags: 6 },
        MemoryTypeInfo { heap_index: 0, property_flags: 7 },
    ];
    let reports = memory_heap_reports(&heaps, 2, &types, 3);
    assert_eq!(reports.len(), 2);
    assert_eq!(reports[0].index, 0);
    assert_eq!(reports[0].size_mib, 8589);
    assert_eq!(reports[0].flags, 1);
    assert_eq!(reports[0].memory_types, vec![MemoryTypeReport { index: 1, property_flags: 1 }]);
    assert_eq!(reports[1].size_mib, 16000);
    assert_eq!(
        reports[1].memory_types,
        vec![MemoryTypeReport { index: 0, property_flags: 0 }, MemoryTypeReport { index: 2, property_flags: 6 }]
    );
    assert!(memory_heap_reports(&heaps, 0, &types, 4).is_empty());
}
