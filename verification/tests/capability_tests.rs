use vulkan_playground::capability::{
    derive_capabilities, swapchain_extension_name, DeviceType, RawPhysicalDevice, RawQueueFamily,
    DEVICE_TYPE_DISCRETE_CODE, DEVICE_TYPE_INTEGRATED_CODE, QUEUE_COMPUTE_BIT, QUEUE_GRAPHICS_BIT,
};
use vulkan_playground::errors::SelectionError;
use vulkan_playground::names::{bytes_eq, names_contain};

fn raw_device(handle: u64, type_code: u32, families: Vec<RawQueueFamily>) -> RawPhysicalDevice {
    RawPhysicalDevice {
        handle,
        device_type_code: type_code,
        queue_families: families,
        extension_names: Vec::new(),
        surface_format_count: 0,
        present_mode_count: 0,
    }
}

#[test]
fn empty_snapshot_reports_no_devices_found() {
    let raw: Vec<RawPhysicalDevice> = Vec::new();
    assert_eq!(derive_capabilities(&raw), Err(SelectionError::NoDevicesFound));
}

#[test]
fn queue_flags_derive_by_bitmask_intersection() {
    let raw = vec![raw_device(
        4,
        DEVICE_TYPE_DISCRETE_CODE,
        vec![
            RawQueueFamily { flags: QUEUE_GRAPHICS_BIT | QUEUE_COMPUTE_BIT, present: false },
            RawQueueFamily { flags: QUEUE_COMPUTE_BIT, present: true },
            RawQueueFamily { flags: 0x8, present: false },
        ],
    )];
    let caps = derive_capabilities(&raw).unwrap();
    assert_eq!(caps.len(), 1);
    let d = &caps[0];
    assert_eq!(d.handle, 4);
    assert_eq!(d.device_type, DeviceType::DiscreteGpu);
    assert_eq!(d.queue_families.len(), 3);
    assert!(d.queue_families[0].supports_graphics);
    assert!(d.queue_families[0].supports_compute);
    assert!(!d.queue_families[0].supports_present);
    assert!(!d.queue_families[1].supports_graphics);
    assert!(d.queue_families[1].supports_compute);
    assert!(d.queue_families[1].supports_present);
    assert!(!d.queue_families[2].supports_graphics);
    assert!(!d.queue_families[2].supports_compute);
    for (j, f) in d.queue_families.iter().enumerate() {
        assert_eq!(f.index as usize, j);
    }
}

#[test]
fn type_codes_map_to_device_classes() {
    let raw = vec![
        raw_device(1, DEVICE_TYPE_DISCRETE_CODE, Vec::new()),
        raw_device(2, DEVICE_TYPE_INTEGRATED_CODE, Vec::new()),
        raw_device(3, 0, Vec::new()),
        raw_device(4, 4, Vec::new()),
    ];
    let caps = derive_capabilities(&raw).unwrap();
    assert_eq!(caps[0].device_type, DeviceType::DiscreteGpu);
    assert_eq!(caps[1].device_type, DeviceType::IntegratedGpu);
    assert_eq!(caps[2].device_type, DeviceType::Other);
    assert_eq!(caps[3].device_type, DeviceType::Other);
}

#[test]
fn swapchain_support_needs_the_exact_extension_name() {
    let mut with_ext = raw_device(1, 0, Vec::new());
    with_ext.extension_names = vec![b"VK_KHR_maintenance1".to_vec(), b"VK_KHR_swapchain".to_vec()];
    let mut prefix_only = raw_device(2, 0, Vec::new());
    prefix_only.extension_names = vec![b"VK_KHR_swapchain_extra".to_vec()];
    let raw = vec![with_ext, prefix_only];
    let caps = derive_capabilities(&raw).unwrap();
    assert!(caps[0].supports_swapchain);
    assert!(!caps[1].supports_swapchain);
}

#[test]
fn surface_counts_become_availability_flags() {
    let mut d = raw_device(1, 0, Vec::new());
    d.surface_format_count = 3;
    d.present_mode_count = 0;
    let caps = derive_capabilities(&vec![d]).unwrap();
    assert!(caps[0].has_surface_formats);
    assert!(!caps[0].has_present_modes);
}

#[test]
fn capability_query_twice_yields_identical_sequences() {
    let mut a = raw_device(
        1,
        DEVICE_TYPE_DISCRETE_CODE,
        vec![
            RawQueueFamily { flags: QUEUE_GRAPHICS_BIT, present: true },
            RawQueueFamily { flags: QUEUE_COMPUTE_BIT, present: false },
        ],
    );
    a.extension_names = vec![b"VK_KHR_swapchain".to_vec()];
    a.surface_format_count = 2;
    a.present_mode_count = 1;
    let b = raw_device(2, DEVICE_TYPE_INTEGRATED_CODE, vec![RawQueueFamily {
        flags: QUEUE_COMPUTE_BIT,
        present: false,
    }]);
    let raw = vec![a, b];
    let first = derive_capabilities(&raw).unwrap();
    let second = derive_capabilities(&raw).unwrap();
    assert_eq!(first, second);
}

#[test]
fn swapchain_extension_name_spells_itself() {
    assert_eq!(swapchain_extension_name(), b"VK_KHR_swapchain".to_vec());
}

#[test]
fn byte_names_match_exactly_or_not_at_all() {
    assert!(bytes_eq(&b"VK_LAYER_KHRONOS_validation".to_vec(), &b"VK_LAYER_KHRONOS_validation".to_vec()));
    assert!(!bytes_eq(&b"VK_LAYER_KHRONOS_validation".to_vec(), &b"VK_LAYER_KHRONOS_validatio".to_vec()));
    assert!(!bytes_eq(&b"a".to_vec(), &b"b".to_vec()));
    let list = vec![b"alpha".to_vec(), b"beta".to_vec()];
    assert!(names_contain(&list, &b"beta".to_vec()));
    assert!(!names_contain(&list, &b"bet".to_vec()));
    assert!(!names_contain(&list, &b"gamma".to_vec()));
}
