use vulkan_playground::capability::{DeviceCapability, DeviceType, QueueFamilyCaps};
use vulkan_playground::errors::SelectionError;
use vulkan_playground::selector::{select_device, RequiredCaps, SelectionResult};

fn family(index: u32, graphics: bool, compute: bool, present: bool) -> QueueFamilyCaps {
    QueueFamilyCaps {
        index,
        supports_graphics: graphics,
        supports_compute: compute,
        supports_present: present,
    }
}

fn device(
    handle: u64,
    device_type: DeviceType,
    families: Vec<QueueFamilyCaps>,
) -> DeviceCapability {
    DeviceCapability {
        handle,
        device_type,
        queue_families: families,
        supports_swapchain: false,
        has_surface_formats: false,
        has_present_modes: false,
    }
}

fn presentable(
    handle: u64,
    device_type: DeviceType,
    families: Vec<QueueFamilyCaps>,
) -> DeviceCapability {
    DeviceCapability {
        handle,
        device_type,
        queue_families: families,
        supports_swapchain: true,
        has_surface_formats: true,
        has_present_modes: true,
    }
}

const GRAPHICS_ONLY: RequiredCaps =
    RequiredCaps { graphics: true, compute: false, present: false, swapchain: false };

const GRAPHICS_PRESENT: RequiredCaps =
    RequiredCaps { graphics: true, compute: false, present: true, swapchain: false };

#[test]
fn satisfying_device_is_returned() {
    let caps = vec![device(7, DeviceType::Other, vec![family(0, true, true, false)])];
    let r = select_device(&caps, GRAPHICS_ONLY).unwrap();
    assert_eq!(r.device_index, 0);
    assert_eq!(r.graphics_queue_index, 0);
    assert_eq!(r.present_queue_index, None);
}

#[test]
fn no_qualifying_device_is_a_selection_error() {
    let caps = vec![
        device(1, DeviceType::DiscreteGpu, vec![family(0, false, true, false)]),
        device(2, DeviceType::DiscreteGpu, vec![]),
    ];
    assert_eq!(select_device(&caps, GRAPHICS_ONLY), Err(SelectionError::NoSuitableDevice));
}

#[test]
fn empty_sequence_is_a_selection_error() {
    let caps: Vec<DeviceCapability> = Vec::new();
    assert_eq!(select_device(&caps, GRAPHICS_ONLY), Err(SelectionError::NoSuitableDevice));
}

#[test]
fn discrete_wins_when_listed_last() {
    let caps = vec![
        device(1, DeviceType::Other, vec![family(0, true, false, false)]),
        device(2, DeviceType::IntegratedGpu, vec![family(0, true, false, false)]),
        device(3, DeviceType::DiscreteGpu, vec![family(0, true, false, false)]),
    ];
    let r = select_device(&caps, GRAPHICS_ONLY).unwrap();
    assert_eq!(caps[r.device_index].handle, 3);
}

#[test]
fn discrete_wins_when_listed_first() {
    let caps = vec![
        device(3, DeviceType::DiscreteGpu, vec![family(0, true, false, false)]),
        device(2, DeviceType::IntegratedGpu, vec![family(0, true, false, false)]),
        device(1, DeviceType::Other, vec![family(0, true, false, false)]),
    ];
    let r = select_device(&caps, GRAPHICS_ONLY).unwrap();
    assert_eq!(caps[r.device_index].handle, 3);
}

#[test]
fn unqualified_discrete_loses_to_qualified_integrated() {
    let caps = vec![
        device(1, DeviceType::DiscreteGpu, vec![family(0, false, true, false)]),
        device(2, DeviceType::IntegratedGpu, vec![family(0, true, true, false)]),
    ];
    let r = select_device(&caps, GRAPHICS_ONLY).unwrap();
    assert_eq!(caps[r.device_index].handle, 2);
}

#[test]
fn rank_tie_goes_to_first_encountered() {
    let caps = vec![
        device(10, DeviceType::DiscreteGpu, vec![family(0, true, false, false)]),
        device(11, DeviceType::DiscreteGpu, vec![family(0, true, false, false)]),
    ];
    let r = select_device(&caps, GRAPHICS_ONLY).unwrap();
    assert_eq!(caps[r.device_index].handle, 10);
}

#[test]
fn single_family_serving_both_roles_is_used_for_both() {
    let caps = vec![presentable(
        5,
        DeviceType::DiscreteGpu,
        vec![
            family(0, true, false, false),
            family(1, true, true, true),
            family(2, false, false, true),
        ],
    )];
    let r = select_device(&caps, GRAPHICS_PRESENT).unwrap();
    assert_eq!(r.graphics_queue_index, 1);
    assert_eq!(r.present_queue_index, Some(1));
}

#[test]
fn split_roles_take_first_family_of_each() {
    let caps = vec![presentable(
        5,
        DeviceType::DiscreteGpu,
        vec![
            family(0, false, true, false),
            family(1, true, false, false),
            family(2, false, false, true),
            family(3, false, false, true),
        ],
    )];
    let r = select_device(&caps, GRAPHICS_PRESENT).unwrap();
    assert_eq!(r.graphics_queue_index, 1);
    assert_eq!(r.present_queue_index, Some(2));
}

#[test]
fn presentation_needs_surface_formats_and_modes() {
    let mut d = presentable(5, DeviceType::DiscreteGpu, vec![family(0, true, true, true)]);
    d.has_surface_formats = false;
    let caps = vec![d];
    assert_eq!(select_device(&caps, GRAPHICS_PRESENT), Err(SelectionError::NoSuitableDevice));
}

#[test]
fn swapchain_requirement_filters_devices() {
    let req = RequiredCaps { graphics: true, compute: false, present: false, swapchain: true };
    let mut with_ext = device(8, DeviceType::IntegratedGpu, vec![family(0, true, false, false)]);
    with_ext.supports_swapchain = true;
    let without_ext = device(9, DeviceType::DiscreteGpu, vec![family(0, true, false, false)]);
    let caps = vec![without_ext, with_ext];
    let r = select_device(&caps, req).unwrap();
    assert_eq!(caps[r.device_index].handle, 8);
}

#[test]
fn compute_requirement_picks_a_compute_family() {
    let req = RequiredCaps { graphics: false, compute: true, present: false, swapchain: false };
    let caps = vec![device(
        6,
        DeviceType::IntegratedGpu,
        vec![family(0, true, false, false), family(1, false, true, false)],
    )];
    let r = select_device(&caps, req).unwrap();
    assert_eq!(r.graphics_queue_index, 1);
    assert_eq!(r.present_queue_index, None);
}

#[test]
fn same_sequence_selects_the_same_result() {
    let caps = vec![
        device(1, DeviceType::IntegratedGpu, vec![family(0, true, true, false)]),
        device(2, DeviceType::DiscreteGpu, vec![family(0, false, true, false)]),
    ];
    let a: SelectionResult = select_device(&caps, GRAPHICS_ONLY).unwrap();
    let b: SelectionResult = select_device(&caps, GRAPHICS_ONLY).unwrap();
    assert_eq!(a, b);
}
