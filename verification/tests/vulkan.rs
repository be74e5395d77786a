use wave_engine::graphics::vulkan::{
    check_extension_support, check_layer_support, load_layers, driver_version, is_device_suitable, max_msaa_count,
    pick_physical_device, pick_swap_extent, pick_swap_format, pick_swap_presentation_mode, query_queue_families,
    EnumVkError, VkQueueFamilyIndices, C_VK_PRESENT_MODE_FIFO, C_VK_PRESENT_MODE_IMMEDIATE, C_VK_PRESENT_MODE_MAILBOX,
};

#[test]
fn queue_families_and_devices() {
    assert_eq!(VkQueueFamilyIndices::default(), VkQueueFamilyIndices { m_graphics_family_index: None, m_present_family_index: None });
    assert_eq!(query_queue_families(&vec![], &vec![]), Err(EnumVkError::PhysicalDeviceError));
    let f = query_queue_families(&vec![true, false, true], &vec![true, true, false]);
    assert_eq!(f, Ok(VkQueueFamilyIndices { m_graphics_family_index: Some(2), m_present_family_index: Some(1) }));
    assert!(is_device_suitable(&f));
    let g = query_queue_families(&vec![false], &vec![true]);
    assert!(!is_device_suitable(&g));
    assert!(!is_device_suitable(&Err(EnumVkError::PhysicalDeviceError)));
    assert_eq!(pick_physical_device(&vec![false, true, true]), Ok(1));
    assert_eq!(pick_physical_device(&vec![false]), Err(EnumVkError::PhysicalDeviceError));
    assert_eq!(pick_physical_device(&vec![]), Err(EnumVkError::PhysicalDeviceError));
}

#[test]
fn swap_chain_choices() {
    assert_eq!(pick_swap_format(&vec![(44, 0), (50, 0)]), Ok((50, 0)));
    assert_eq!(pick_swap_format(&vec![(50, 1)]), Err(EnumVkError::SurfaceError));
    assert_eq!(pick_swap_presentation_mode(true, &vec![C_VK_PRESENT_MODE_FIFO, C_VK_PRESENT_MODE_MAILBOX]), C_VK_PRESENT_MODE_MAILBOX);
    assert_eq!(pick_swap_presentation_mode(true, &vec![C_VK_PRESENT_MODE_FIFO]), C_VK_PRESENT_MODE_FIFO);
    assert_eq!(pick_swap_presentation_mode(false, &vec![C_VK_PRESENT_MODE_MAILBOX]), C_VK_PRESENT_MODE_IMMEDIATE);
    assert_eq!(pick_swap_presentation_mode(true, &vec![]), C_VK_PRESENT_MODE_IMMEDIATE);
    assert_eq!(pick_swap_extent((800, 600), (1, 1), (4096, 4096), None, (0, 0)), Ok((800, 600)));
    assert_eq!(pick_swap_extent((u32::MAX, 0), (100, 100), (1000, 1000), Some([2000, 50]), (0, 0)), Ok((1000, 100)));
    assert_eq!(pick_swap_extent((u32::MAX, 0), (100, 100), (1000, 1000), None, (640, 2000)), Ok((640, 1000)));
    assert_eq!(pick_swap_extent((u32::MAX, 0), (100, 100), (1000, 1000), None, (-1, 10)), Ok((1000, 100)));
}

#[test]
fn sample_counts_and_driver_versions() {
    assert_eq!(max_msaa_count(0x7F, 0x0F), 8);
    assert_eq!(max_msaa_count(0x01, 0x7F), 1);
    assert_eq!(max_msaa_count(0x7F, 0x7F), 64);
    assert_eq!(max_msaa_count(0x06, 0x7F), 4);
    let nv: u32 = (535 << 22) | (113 << 14) | (1 << 6) | 2;
    assert_eq!(driver_version(nv, 0x10DE, false), "535.113.1.2");
    let other: u32 = (23 << 22) | (2 << 12) | 1;
    assert_eq!(driver_version(other, 0x1002, false), "23.2.1");
    assert_eq!(driver_version(0, 0x1002, true), "0.0.0");
    let intel: u32 = (101 << 14) | 4300;
    assert_eq!(driver_version(intel, 0x8086, true), "101.4300");
    assert_eq!(driver_version(other, 0x8086, false), "23.2.1");
}

#[test]
fn extension_and_layer_names() {
    let names = |v: &[&str]| v.iter().map(|n| n.to_string()).collect::<Vec<String>>();
    let available = names(&["VK_KHR_surface", "VK_KHR_xcb_surface", "VK_EXT_debug_utils"]);
    assert_eq!(check_extension_support(true, &available, &names(&["VK_EXT_debug_utils", "VK_KHR_surface"])), Ok(()));
    assert_eq!(check_extension_support(true, &available, &names(&["VK_KHR_surface", "VK_EXT_debug_utils"])), Ok(()));
    assert_eq!(check_extension_support(true, &available, &names(&["VK_KHR_swapchain"])), Err(EnumVkError::NotSupported));
    assert_eq!(check_extension_support(true, &available, &names(&["VK_KHR"])), Err(EnumVkError::NotSupported));
    assert_eq!(check_extension_support(false, &available, &vec![]), Err(EnumVkError::ExtensionError));
    let layers = names(&["VK_LAYER_KHRONOS_validation"]);
    assert_eq!(check_layer_support(true, &layers, &names(&["VK_LAYER_KHRONOS_validation"])), Ok(()));
    assert_eq!(check_layer_support(true, &layers, &names(&["VK_LAYER_LUNARG_api_dump"])), Err(EnumVkError::NotSupported));
    assert_eq!(check_layer_support(false, &layers, &names(&["VK_LAYER_KHRONOS_validation"])), Err(EnumVkError::ExtensionError));
}

#[test]
fn instance_layers() {
    assert_eq!(load_layers(None), Ok(vec!["VK_LAYER_KHRONOS_validation".to_string()]));
    assert_eq!(
        load_layers(Some(vec!["VK_LAYER_LUNARG_monitor"])),
        Ok(vec!["VK_LAYER_KHRONOS_validation".to_string(), "VK_LAYER_LUNARG_monitor".to_string()])
    );
}
