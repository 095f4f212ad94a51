use ash::vk;
use vulkan_bootstrap::debug::{
    build_debug_config, observe, DebugMessengerConfiguration, DebugOptions, MessageCategory,
    Severity,
};

fn options(capture_verbose: bool, capture_info: bool) -> DebugOptions {
    DebugOptions { capture_verbose, capture_info }
}

#[test]
fn warnings_and_errors_are_always_captured() {
    for capture_verbose in [false, true] {
        for capture_info in [false, true] {
            let config = build_debug_config(options(capture_verbose, capture_info));
            assert!(config.captures(Severity::Warning));
            assert!(config.captures(Severity::Error));
            assert_eq!(config.captures(Severity::Info), capture_info);
            assert_eq!(config.captures(Severity::Verbose), capture_verbose);
        }
    }
}

#[test]
fn severity_masks_have_the_exact_bits() {
    assert_eq!(build_debug_config(options(false, false)).severity_mask(), 0x1100);
    assert_eq!(build_debug_config(options(false, true)).severity_mask(), 0x1110);
    assert_eq!(build_debug_config(options(true, false)).severity_mask(), 0x1101);
    assert_eq!(build_debug_config(options(true, true)).severity_mask(), 0x1111);
}

#[test]
fn all_three_categories_are_covered() {
    let config = build_debug_config(options(false, false));
    assert_eq!(config.category_mask(), 0x7);
    assert!(config.covers(MessageCategory::General));
    assert!(config.covers(MessageCategory::Validation));
    assert!(config.covers(MessageCategory::Performance));
}

#[test]
fn masks_agree_with_the_bindings() {
    let config = build_debug_config(options(false, false));
    let severity = vk::DebugUtilsMessageSeverityFlagsEXT::WARNING
        | vk::DebugUtilsMessageSeverityFlagsEXT::ERROR;
    let category = vk::DebugUtilsMessageTypeFlagsEXT::GENERAL
        | vk::DebugUtilsMessageTypeFlagsEXT::VALIDATION
        | vk::DebugUtilsMessageTypeFlagsEXT::PERFORMANCE;
    assert_eq!(config.severity_mask(), severity.as_raw());
    assert_eq!(config.category_mask(), category.as_raw());
    let config = build_debug_config(options(true, true));
    let severity = severity
        | vk::DebugUtilsMessageSeverityFlagsEXT::INFO
        | vk::DebugUtilsMessageSeverityFlagsEXT::VERBOSE;
    assert_eq!(config.severity_mask(), severity.as_raw());
}

#[test]
fn built_masks_are_never_empty() {
    for capture_verbose in [false, true] {
        for capture_info in [false, true] {
            let config = build_debug_config(options(capture_verbose, capture_info));
            assert_ne!(config.severity_mask(), 0);
            assert_ne!(config.category_mask(), 0);
        }
    }
}

#[test]
fn severity_bits_are_those_of_the_bindings() {
    assert_eq!(Severity::Verbose.bit(), 0x0001);
    assert_eq!(Severity::Info.bit(), 0x0010);
    assert_eq!(Severity::Warning.bit(), 0x0100);
    assert_eq!(Severity::Error.bit(), 0x1000);
    assert_eq!(Severity::Error.bit(), vk::DebugUtilsMessageSeverityFlagsEXT::ERROR.as_raw());
}

#[test]
fn category_bits_are_those_of_the_bindings() {
    assert_eq!(MessageCategory::General.bit(), 0x1);
    assert_eq!(MessageCategory::Validation.bit(), 0x2);
    assert_eq!(MessageCategory::Performance.bit(), 0x4);
    assert_eq!(
        MessageCategory::Performance.bit(),
        vk::DebugUtilsMessageTypeFlagsEXT::PERFORMANCE.as_raw()
    );
}

#[test]
fn severity_is_decoded_from_a_single_bit_only() {
    assert_eq!(Severity::from_bits(0x0001), Some(Severity::Verbose));
    assert_eq!(Severity::from_bits(0x0010), Some(Severity::Info));
    assert_eq!(Severity::from_bits(0x0100), Some(Severity::Warning));
    assert_eq!(Severity::from_bits(0x1000), Some(Severity::Error));
    assert_eq!(Severity::from_bits(0), None);
    assert_eq!(Severity::from_bits(0x1100), None);
    assert_eq!(Severity::from_bits(0x0002), None);
    assert_eq!(Severity::from_bits(u32::MAX), None);
    for level in [Severity::Verbose, Severity::Info, Severity::Warning, Severity::Error] {
        assert_eq!(Severity::from_bits(level.bit()), Some(level));
    }
}

#[test]
fn a_configuration_that_reports_nothing_is_refused() {
    assert!(DebugMessengerConfiguration::new(0, 0x7).is_none());
    assert!(DebugMessengerConfiguration::new(0x1100, 0).is_none());
    assert!(DebugMessengerConfiguration::new(0, 0).is_none());
    let config = DebugMessengerConfiguration::new(0x0100, 0x2).expect("both masks are set");
    assert_eq!(config.severity_mask(), 0x0100);
    assert_eq!(config.category_mask(), 0x2);
    assert!(config.captures(Severity::Warning));
    assert!(!config.captures(Severity::Error));
    assert!(config.covers(MessageCategory::Validation));
    assert!(!config.covers(MessageCategory::General));
}

#[test]
fn the_callback_only_observes() {
    let seen = observe(0x1000, 0x2, "vkCreateInstance: invalid extension".to_string());
    assert_eq!(seen.level, Some(Severity::Error));
    assert_eq!(seen.category, 0x2);
    assert_eq!(seen.text, "vkCreateInstance: invalid extension");
    assert!(!seen.abort_call);
    let seen = observe(0x0100, 0x4, String::new());
    assert_eq!(seen.level, Some(Severity::Warning));
    assert_eq!(seen.text, "");
    assert!(!seen.abort_call);
    let seen = observe(0x0110, 0x1, "two levels at once".to_string());
    assert_eq!(seen.level, None);
    assert_eq!(seen.category, 0x1);
    assert!(!seen.abort_call);
}
