use vkinit::device::{plan_device_creation, DeviceCreationError};
use vkinit::errors::OutOfMemoryError;
use vkinit::extensions::DeviceExtensions;
use vkinit::features::{DeviceFeatures, PhysicalDeviceFeatures, SubmissionDeviceFeatures};

fn names(list: &[&str]) -> Vec<String> {
    list.iter().map(|s| s.to_string()).collect()
}

fn all_extensions() -> DeviceExtensions {
    DeviceExtensions {
        memory_priority: true,
        pageable_device_local_memory: true,
        swapchain: true,
        swapchain_maintenance1: true,
        dynamic_rendering_local_read: true,
    }
}

#[test]
fn default_extensions_are_empty() {
    let e = DeviceExtensions::default();
    assert!(!e.memory_priority);
    assert!(!e.pageable_device_local_memory);
    assert!(!e.swapchain);
    assert!(!e.swapchain_maintenance1);
    assert!(!e.dynamic_rendering_local_read);
}

#[test]
fn extensions_filter_missing_none_when_covered() {
    let supported = DeviceExtensions { swapchain: true, memory_priority: true, ..Default::default() };
    let required = DeviceExtensions { swapchain: true, ..Default::default() };
    assert_eq!(supported.filter_missing(required), None);
    assert_eq!(supported.filter_missing(DeviceExtensions::default()), None);
}

#[test]
fn extensions_filter_missing_reports_only_missing() {
    let supported = DeviceExtensions { swapchain: true, ..Default::default() };
    let required = DeviceExtensions {
        swapchain: true,
        memory_priority: true,
        dynamic_rendering_local_read: true,
        ..Default::default()
    };
    let missing = supported.filter_missing(required).unwrap();
    assert_eq!(
        missing,
        DeviceExtensions { memory_priority: true, dynamic_rendering_local_read: true, ..Default::default() }
    );
}

#[test]
fn extensions_and_or() {
    let a = DeviceExtensions { swapchain: true, memory_priority: true, ..Default::default() };
    let b = DeviceExtensions { swapchain: true, swapchain_maintenance1: true, ..Default::default() };
    assert_eq!(a.and(b), DeviceExtensions { swapchain: true, ..Default::default() });
    assert_eq!(
        a.or(b),
        DeviceExtensions { swapchain: true, memory_priority: true, swapchain_maintenance1: true, ..Default::default() }
    );
    assert_eq!(a.and(b), b.and(a));
    assert_eq!(a.or(b), b.or(a));
}

#[test]
fn extension_list_in_declaration_order() {
    assert_eq!(
        all_extensions().get_extension_list(),
        names(&[
            "VK_EXT_memory_priority",
            "VK_EXT_pageable_device_local_memory",
            "VK_KHR_swapchain",
            "VK_KHR_swapchain_maintenance1",
            "VK_KHR_dynamic_rendering_local_read",
        ])
    );
    assert_eq!(DeviceExtensions::default().get_extension_list(), Vec::<String>::new());
    let e = DeviceExtensions { swapchain: true, pageable_device_local_memory: true, ..Default::default() };
    assert_eq!(e.get_extension_list(), names(&["VK_EXT_pageable_device_local_memory", "VK_KHR_swapchain"]));
}

#[test]
fn mark_supported_by_names_reads_names() {
    let e = DeviceExtensions::mark_supported_by_names(&names(&[
        "VK_KHR_maintenance4",
        "VK_KHR_swapchain",
        "VK_EXT_memory_priority",
    ]));
    assert_eq!(e, DeviceExtensions { swapchain: true, memory_priority: true, ..Default::default() });
    assert_eq!(DeviceExtensions::mark_supported_by_names(&Vec::new()), DeviceExtensions::default());
}

#[test]
fn mark_supported_dynamic_rendering_local_read_marks_swapchain() {
    let e = DeviceExtensions::mark_supported_by_names(&names(&["VK_KHR_dynamic_rendering_local_read"]));
    assert_eq!(e, DeviceExtensions { swapchain: true, ..Default::default() });
}

#[test]
fn extension_names_round_trip() {
    let e = DeviceExtensions {
        memory_priority: true,
        swapchain_maintenance1: true,
        pageable_device_local_memory: true,
        ..Default::default()
    };
    assert_eq!(DeviceExtensions::mark_supported_by_names(&e.get_extension_list()), e);
    // a set with dynamic_rendering_local_read does not come back whole
    let d = DeviceExtensions { dynamic_rendering_local_read: true, ..Default::default() };
    assert_ne!(DeviceExtensions::mark_supported_by_names(&d.get_extension_list()), d);
}

#[test]
fn features_filter_missing_and_or() {
    let supported = DeviceFeatures { synchronization2: true, dynamic_rendering: true, swapchain_maintenance1: false };
    let required = DeviceFeatures { synchronization2: true, ..Default::default() };
    assert_eq!(supported.filter_missing(required), None);
    let wanted = DeviceFeatures { swapchain_maintenance1: true, synchronization2: true, ..Default::default() };
    assert_eq!(
        supported.filter_missing(wanted),
        Some(DeviceFeatures { swapchain_maintenance1: true, ..Default::default() })
    );
    assert_eq!(supported.and(wanted), DeviceFeatures { synchronization2: true, ..Default::default() });
    assert_eq!(
        supported.or(wanted),
        DeviceFeatures { synchronization2: true, dynamic_rendering: true, swapchain_maintenance1: true }
    );
}

#[test]
fn filter_extension_required_drops_feature_without_extension() {
    let mut f = DeviceFeatures { swapchain_maintenance1: true, synchronization2: true, ..Default::default() };
    f.filter_extension_required(&DeviceExtensions::default());
    assert_eq!(f, DeviceFeatures { synchronization2: true, ..Default::default() });

    let mut g = DeviceFeatures { swapchain_maintenance1: true, ..Default::default() };
    g.filter_extension_required(&DeviceExtensions { swapchain_maintenance1: true, ..Default::default() });
    assert_eq!(g, DeviceFeatures { swapchain_maintenance1: true, ..Default::default() });
}

#[test]
fn feature_values_from_query() {
    let q = PhysicalDeviceFeatures::from_query(1, 0, Some(1));
    assert_eq!(q, PhysicalDeviceFeatures { synchronization2: 1, dynamic_rendering: 0, swapchain_maintenance1: true });
    assert!(!PhysicalDeviceFeatures::from_query(1, 1, None).swapchain_maintenance1);
    assert!(!PhysicalDeviceFeatures::from_query(1, 1, Some(0)).swapchain_maintenance1);
    let f = DeviceFeatures::from_full_physical_device_features(&q);
    assert_eq!(f, DeviceFeatures { synchronization2: true, dynamic_rendering: false, swapchain_maintenance1: true });
}

#[test]
fn feature_values_for_submission() {
    let f = DeviceFeatures { synchronization2: true, dynamic_rendering: false, swapchain_maintenance1: true };
    assert_eq!(
        f.to_full_physical_device_features(),
        SubmissionDeviceFeatures { synchronization2: 1, dynamic_rendering: 0, swapchain_maintenance1: Some(1) }
    );
    let g = DeviceFeatures { dynamic_rendering: true, ..Default::default() };
    assert_eq!(
        g.to_full_physical_device_features(),
        SubmissionDeviceFeatures { synchronization2: 0, dynamic_rendering: 1, swapchain_maintenance1: None }
    );
}

#[test]
fn plan_device_missing_required_extension() {
    let supported = DeviceExtensions { swapchain: true, ..Default::default() };
    let required = DeviceExtensions { swapchain: true, memory_priority: true, ..Default::default() };
    let r = plan_device_creation(
        supported,
        DeviceFeatures::default(),
        required,
        DeviceExtensions::default(),
        DeviceFeatures { synchronization2: true, ..Default::default() },
        DeviceFeatures::default(),
    );
    assert_eq!(
        r,
        Err(DeviceCreationError::RequiredExtensionsNotSupported(DeviceExtensions {
            memory_priority: true,
            ..Default::default()
        }))
    );
}

#[test]
fn plan_device_missing_required_feature() {
    let r = plan_device_creation(
        DeviceExtensions::default(),
        DeviceFeatures { dynamic_rendering: true, ..Default::default() },
        DeviceExtensions::default(),
        DeviceExtensions::default(),
        DeviceFeatures { synchronization2: true, dynamic_rendering: true, ..Default::default() },
        DeviceFeatures::default(),
    );
    assert_eq!(
        r,
        Err(DeviceCreationError::RequiredFeaturesNotSupported(DeviceFeatures {
            synchronization2: true,
            ..Default::default()
        }))
    );
}

#[test]
fn plan_device_enables_required_and_supported_optional() {
    let supported_e = DeviceExtensions {
        swapchain: true,
        memory_priority: true,
        pageable_device_local_memory: true,
        ..Default::default()
    };
    let supported_f = DeviceFeatures { synchronization2: true, swapchain_maintenance1: true, ..Default::default() };
    let (e, f) = plan_device_creation(
        supported_e,
        supported_f,
        DeviceExtensions { swapchain: true, ..Default::default() },
        DeviceExtensions {
            memory_priority: true,
            pageable_device_local_memory: true,
            swapchain_maintenance1: true,
            ..Default::default()
        },
        DeviceFeatures::default(),
        DeviceFeatures { synchronization2: true, swapchain_maintenance1: true, dynamic_rendering: true },
    )
    .unwrap();
    assert_eq!(e, supported_e);
    // swapchain_maintenance1 is supported but its extension is not enabled
    assert_eq!(f, DeviceFeatures { synchronization2: true, ..Default::default() });
}

#[test]
fn plan_device_required_feature_needs_its_extension() {
    let (e, f) = plan_device_creation(
        all_extensions(),
        DeviceFeatures { swapchain_maintenance1: true, ..Default::default() },
        DeviceExtensions::default(),
        DeviceExtensions::default(),
        DeviceFeatures { swapchain_maintenance1: true, ..Default::default() },
        DeviceFeatures::default(),
    )
    .unwrap();
    assert_eq!(e, DeviceExtensions::default());
    assert_eq!(f, DeviceFeatures::default());
}

#[test]
fn device_creation_error_codes() {
    assert_eq!(
        DeviceCreationError::from_result_code(ash::vk::Result::ERROR_OUT_OF_HOST_MEMORY.as_raw()),
        DeviceCreationError::OutOfMemory(OutOfMemoryError::OutOfHostMemory)
    );
    assert_eq!(
        DeviceCreationError::from_result_code(-2),
        DeviceCreationError::OutOfMemory(OutOfMemoryError::OutOfDeviceMemory)
    );
    assert_eq!(DeviceCreationError::from_result_code(-3), DeviceCreationError::VulkanInitializationFailed);
    assert_eq!(
        DeviceCreationError::from_result_code(ash::vk::Result::ERROR_DEVICE_LOST.as_raw()),
        DeviceCreationError::DeviceLost
    );
}

#[test]
fn filter_missing_agrees_with_and() {
    let a = DeviceExtensions { swapchain: true, memory_priority: true, ..Default::default() };
    let covered = DeviceExtensions { swapchain: true, ..Default::default() };
    let uncovered = DeviceExtensions { swapchain: true, swapchain_maintenance1: true, ..Default::default() };
    assert_eq!(a.filter_missing(covered).is_none(), a.and(covered) == covered);
    assert_eq!(a.filter_missing(uncovered).is_none(), a.and(uncovered) == uncovered);
    let missing = a.filter_missing(uncovered).unwrap();
    assert_eq!(a.or(missing).and(uncovered), uncovered);
}

#[test]
fn extension_list_has_no_duplicates() {
    let list = all_extensions().get_extension_list();
    for (i, x) in list.iter().enumerate() {
        for y in list.iter().skip(i + 1) {
            assert_ne!(x, y);
        }
    }
}
