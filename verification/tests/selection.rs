use rsvd::error::BootstrapError;
use rsvd::selection::DeviceType;
use rsvd::selection::PhysicalDeviceCandidate;
use rsvd::selection::QueueFamilyInfo;
use rsvd::selection::is_device_suitable;
use rsvd::selection::is_queue_family_suitable;
use rsvd::selection::pick_physical_device_and_index;
use rsvd::selection::pick_queue_family_index;

fn family(graphics: bool, present: bool) -> QueueFamilyInfo {
    QueueFamilyInfo { supports_graphics: graphics, supports_present: present }
}

fn candidate(
    name: &str,
    device_type: DeviceType,
    geometry_shader: bool,
    families: Vec<QueueFamilyInfo>,
) -> PhysicalDeviceCandidate {
    PhysicalDeviceCandidate {
        name: name.to_string(),
        device_type,
        geometry_shader,
        queue_families: families,
    }
}

#[test]
fn zero_qualifying_devices_is_no_suitable_device() {
    let devices = vec![
        candidate("integrated", DeviceType::IntegratedGpu, true, vec![family(true, true)]),
        candidate("no-geometry", DeviceType::DiscreteGpu, false, vec![family(true, true)]),
        candidate("no-queues", DeviceType::DiscreteGpu, true, vec![]),
    ];
    assert_eq!(pick_physical_device_and_index(&devices), Err(BootstrapError::NoSuitableDevice));
}

#[test]
fn empty_candidate_list_is_no_suitable_device() {
    let devices: Vec<PhysicalDeviceCandidate> = vec![];
    assert_eq!(pick_physical_device_and_index(&devices), Err(BootstrapError::NoSuitableDevice));
}

#[test]
fn first_match_wins_after_disqualified_candidates() {
    // Two disqualified candidates, then the first qualifying one, then a
    // candidate that would score at least as well: the scan must stop at
    // position 2 and never look at position 3.
    let devices = vec![
        candidate("integrated", DeviceType::IntegratedGpu, true, vec![family(true, true)]),
        candidate("no-geometry", DeviceType::DiscreteGpu, false, vec![family(true, true)]),
        candidate(
            "qualifying",
            DeviceType::DiscreteGpu,
            true,
            vec![family(false, false), family(true, true)],
        ),
        candidate("better-later", DeviceType::DiscreteGpu, true, vec![family(true, true)]),
    ];
    assert_eq!(pick_physical_device_and_index(&devices), Ok((2, 1)));
}

#[test]
fn integrated_is_skipped_for_discrete() {
    // Device A: integrated GPU, geometry shaders, graphics+present at 0.
    // Device B: discrete GPU, geometry shaders, graphics+present at 1.
    // Selection must return B with queue family index 1.
    let devices = vec![
        candidate("a", DeviceType::IntegratedGpu, true, vec![family(true, true)]),
        candidate("b", DeviceType::DiscreteGpu, true, vec![family(false, false), family(true, true)]),
    ];
    assert_eq!(pick_physical_device_and_index(&devices), Ok((1, 1)));
}

#[test]
fn no_combining_across_queue_families() {
    // Graphics-capable family at index 2 without presentation, and a
    // presentation-capable family at index 3 without graphics: the device is
    // rejected entirely, never patched together from two families.
    let devices = vec![candidate(
        "split-queues",
        DeviceType::DiscreteGpu,
        true,
        vec![family(false, false), family(false, false), family(true, false), family(false, true)],
    )];
    assert_eq!(pick_physical_device_and_index(&devices), Err(BootstrapError::NoSuitableDevice));
}

#[test]
fn queue_family_pick_takes_first_graphics_index() {
    let device = candidate(
        "d",
        DeviceType::DiscreteGpu,
        true,
        vec![family(false, true), family(false, false), family(true, false), family(true, true)],
    );
    assert_eq!(pick_queue_family_index(&device), Ok(2));
}

#[test]
fn queue_family_missing_is_a_named_failure() {
    let device = candidate("d", DeviceType::DiscreteGpu, true, vec![family(false, true)]);
    assert_eq!(pick_queue_family_index(&device), Err(BootstrapError::NoSuitableQueueFamily));
}

#[test]
fn queue_family_suitability_reads_graphics_flag() {
    assert!(is_queue_family_suitable(&family(true, false)));
    assert!(!is_queue_family_suitable(&family(false, true)));
}

#[test]
fn device_suitability_needs_discrete_and_geometry() {
    assert!(is_device_suitable(&candidate("d", DeviceType::DiscreteGpu, true, vec![])));
    assert!(!is_device_suitable(&candidate("d", DeviceType::DiscreteGpu, false, vec![])));
    assert!(!is_device_suitable(&candidate("d", DeviceType::IntegratedGpu, true, vec![])));
    assert!(!is_device_suitable(&candidate("d", DeviceType::Cpu, true, vec![])));
}
