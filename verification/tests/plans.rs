use rsvd::device::create_device_plan;
use rsvd::device::default_device_extension_names;
use rsvd::diagnostics::DiagnosticsSink;
use rsvd::diagnostics::create_debug_info;
use rsvd::error::BootstrapError;
use rsvd::extensions::ExtensionNameSet;
use rsvd::extensions::instance_extension_names;
use rsvd::extensions::name_is_valid;
use rsvd::instance::create_instance_plan;
use rsvd::instance::validation_layer_names;
use rsvd::surface::COLOR_SPACE_SRGB_NONLINEAR;
use rsvd::surface::FORMAT_R8G8B8A8_SRGB;
use rsvd::surface::SurfaceFormat;
use rsvd::surface::pick_surface_format;
use rsvd::version::make_version;

fn names(set: ExtensionNameSet) -> Vec<String> {
    set.into_names()
}

#[test]
fn extension_union_with_diagnostics_enabled() {
    // The windowing collaborator reports two required extensions; with
    // diagnostics enabled the resulting set must equal the union with the
    // diagnostics extension, compared order-independently.
    let required = ExtensionNameSet::new(vec![
        "ext.surface".to_string(),
        "ext.platform_surface".to_string(),
    ])
    .unwrap();
    let set = instance_extension_names(required, true, "ext.debug_utils").unwrap();
    let mut got = names(set);
    got.sort();
    let mut expected = vec![
        "ext.surface".to_string(),
        "ext.platform_surface".to_string(),
        "ext.debug_utils".to_string(),
    ];
    expected.sort();
    assert_eq!(got, expected);
}

#[test]
fn extension_union_without_diagnostics() {
    let required = ExtensionNameSet::new(vec!["ext.surface".to_string()]).unwrap();
    let set = instance_extension_names(required, false, "ext.debug_utils").unwrap();
    assert_eq!(names(set), vec!["ext.surface".to_string()]);
}

#[test]
fn duplicate_names_are_harmless_and_kept_in_order() {
    let set = ExtensionNameSet::new(vec![
        "ext.surface".to_string(),
        "ext.surface".to_string(),
        "ext.other".to_string(),
    ])
    .unwrap();
    assert_eq!(set.len(), 3);
    assert_eq!(set.name_at(0), "ext.surface");
    assert_eq!(set.name_at(1), "ext.surface");
    assert_eq!(set.name_at(2), "ext.other");
}

#[test]
fn embedded_null_in_extension_name_is_rejected() {
    let result = ExtensionNameSet::new(vec!["fine".to_string(), "bad\0name".to_string()]);
    assert!(matches!(result, Err(BootstrapError::InvalidName)));
}

#[test]
fn push_of_invalid_name_leaves_set_unchanged() {
    let mut set = ExtensionNameSet::new(vec!["fine".to_string()]).unwrap();
    assert_eq!(set.push_name("bad\0name"), Err(BootstrapError::InvalidName));
    assert_eq!(set.len(), 1);
    assert_eq!(set.name_at(0), "fine");
    assert_eq!(set.push_name("also_fine"), Ok(()));
    assert_eq!(set.len(), 2);
}

#[test]
fn name_validity_check() {
    assert!(name_is_valid("VK_KHR_surface"));
    assert!(name_is_valid(""));
    assert!(!name_is_valid("\0"));
    assert!(!name_is_valid("a\0b"));
}

#[test]
fn instance_plan_uses_driver_diagnostics_extension() {
    // Would fail if the trusted wrapper around the driver's debug-utils
    // extension name handed back anything but the documented constant.
    let required = ExtensionNameSet::new(vec!["VK_KHR_surface".to_string()]).unwrap();
    let plan = create_instance_plan("rsvd", (0, 1, 0), (1, 2, 0), required, true).unwrap();
    assert_eq!(
        names(plan.extension_names),
        vec!["VK_KHR_surface".to_string(), "VK_EXT_debug_utils".to_string()]
    );
    assert_eq!(plan.layer_names, vec!["VK_LAYER_KHRONOS_validation".to_string()]);
    assert!(plan.chain_debug_messenger);
    assert_eq!(plan.application_name, "rsvd");
    assert_eq!(plan.application_version, 4096);
    assert_eq!(plan.api_version, 4202496);
}

#[test]
fn instance_plan_without_diagnostics_adds_nothing() {
    let required = ExtensionNameSet::new(vec!["VK_KHR_surface".to_string()]).unwrap();
    let plan = create_instance_plan("app", (0, 0, 0), (1, 0, 0), required, false).unwrap();
    assert_eq!(names(plan.extension_names), vec!["VK_KHR_surface".to_string()]);
    assert!(!plan.chain_debug_messenger);
    assert_eq!(plan.application_version, 0);
    assert_eq!(plan.api_version, 4194304);
}

#[test]
fn instance_plan_rejects_null_in_application_name() {
    let required = ExtensionNameSet::new(vec![]).unwrap();
    let result = create_instance_plan("bad\0app", (0, 1, 0), (1, 0, 0), required, true);
    assert!(matches!(result, Err(BootstrapError::InvalidName)));
}

#[test]
fn validation_layer_is_always_named() {
    let layers = validation_layer_names();
    assert_eq!(layers, vec!["VK_LAYER_KHRONOS_validation".to_string()]);
}

#[test]
fn version_packing_exact_values() {
    assert_eq!(make_version(0, 0, 0), 0);
    assert_eq!(make_version(0, 1, 0), 0x1000);
    assert_eq!(make_version(1, 0, 0), 0x40_0000);
    assert_eq!(make_version(1, 2, 0), 0x40_2000);
    assert_eq!(make_version(1023, 1023, 4095), u32::MAX);
}

#[test]
fn device_plan_requests_one_queue_and_swapchain() {
    let plan = create_device_plan(7, default_device_extension_names());
    assert_eq!(plan.queue_family_index, 7);
    assert_eq!(plan.queue_count, 1);
    assert!(!plan.enables_any_feature);
    // Would fail if the trusted wrapper around the driver's swapchain
    // extension name handed back anything but the documented constant.
    assert_eq!(names(plan.extension_names), vec!["VK_KHR_swapchain".to_string()]);
}

#[test]
fn debug_subscription_configuration() {
    let config = create_debug_info();
    assert!(config.severity_error);
    assert!(config.severity_warning);
    assert!(config.severity_info);
    assert!(!config.severity_verbose);
    assert!(config.all_message_types);
}

#[test]
fn diagnostics_sink_counts_and_never_aborts() {
    let mut sink = DiagnosticsSink::attach();
    assert_eq!(sink.messages_seen(), 0);
    assert!(!sink.on_message());
    assert!(!sink.on_message());
    assert_eq!(sink.messages_seen(), 2);
}

#[test]
fn surface_format_preference() {
    let preferred = SurfaceFormat { format: FORMAT_R8G8B8A8_SRGB, color_space: COLOR_SPACE_SRGB_NONLINEAR };
    let other = SurfaceFormat { format: 44, color_space: 0 };
    let wrong_space = SurfaceFormat { format: FORMAT_R8G8B8A8_SRGB, color_space: 1 };
    assert_eq!(pick_surface_format(&vec![other, wrong_space, preferred]), Some(preferred));
    assert_eq!(pick_surface_format(&vec![other, wrong_space]), None);
    assert_eq!(pick_surface_format(&vec![]), None);
}
