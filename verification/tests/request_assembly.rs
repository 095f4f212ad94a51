use vulkan_bootstrap::config::PlatformCapabilities;
use vulkan_bootstrap::debug::DebugOptions;
use vulkan_bootstrap::descriptor::build_application_descriptor;
use vulkan_bootstrap::extensions::resolve_extensions;
use vulkan_bootstrap::request::{assemble_request, InstanceRequest};

fn names(list: &[&str]) -> Vec<String> {
    list.iter().map(|name| name.to_string()).collect()
}

fn assembled(validation_enabled: bool, portability_subset: bool, verbose: bool) -> InstanceRequest {
    let options = DebugOptions { capture_verbose: verbose, capture_info: false };
    let platform = PlatformCapabilities { portability_subset };
    let extensions = resolve_extensions(
        Ok(names(&["VK_KHR_surface", "VK_KHR_wayland_surface"])),
        validation_enabled,
        platform,
    )
    .expect("a reported list is always resolved");
    assert_eq!(extensions.validation_enabled(), validation_enabled);
    assert_eq!(extensions.portability_subset(), portability_subset);
    assemble_request(options, build_application_descriptor(), extensions)
}

#[test]
fn validation_attaches_layers_and_debug_configuration() {
    let request = assembled(true, false, false);
    assert_eq!(request.layers(), &names(&["VK_LAYER_KHRONOS_validation"]));
    let debug = request.debug().expect("validation chains the debug configuration");
    assert_eq!(debug.severity_mask(), 0x1100);
    assert_eq!(debug.category_mask(), 0x7);
    assert_eq!(
        request.extensions().names(),
        &names(&["VK_KHR_surface", "VK_KHR_wayland_surface", "VK_EXT_debug_utils"])
    );
}

#[test]
fn without_validation_nothing_is_attached() {
    for verbose in [false, true] {
        let request = assembled(false, false, verbose);
        assert!(request.layers().is_empty());
        assert!(request.debug().is_none());
        assert_eq!(
            request.extensions().names(),
            &names(&["VK_KHR_surface", "VK_KHR_wayland_surface"])
        );
    }
}

#[test]
fn attached_debug_configuration_is_never_empty() {
    for verbose in [false, true] {
        let request = assembled(true, false, verbose);
        let debug = request.debug().expect("validation chains the debug configuration");
        assert_ne!(debug.severity_mask(), 0);
        assert_ne!(debug.category_mask(), 0);
        assert_eq!(debug.severity_mask(), if verbose { 0x1101 } else { 0x1100 });
    }
}

#[test]
fn debug_configuration_comes_with_the_debug_utilities() {
    for portability in [false, true] {
        let request = assembled(true, portability, false);
        assert!(request.debug().is_some());
        assert!(request.extensions().contains(&"VK_EXT_debug_utils".to_string()));
        let request = assembled(false, portability, false);
        assert!(request.debug().is_none());
        assert!(!request.extensions().contains(&"VK_EXT_debug_utils".to_string()));
    }
}

#[test]
fn portability_flag_mirrors_the_portability_extensions() {
    for validation in [false, true] {
        let request = assembled(validation, true, false);
        assert_eq!(request.flags(), 0x1);
        assert!(request.enumerates_portability());
        assert!(request.extensions().contains(&"VK_KHR_portability_enumeration".to_string()));
        assert!(request
            .extensions()
            .contains(&"VK_KHR_get_physical_device_properties2".to_string()));

        let request = assembled(validation, false, false);
        assert_eq!(request.flags(), 0);
        assert!(!request.enumerates_portability());
        assert!(!request.extensions().contains(&"VK_KHR_portability_enumeration".to_string()));
    }
}

#[test]
fn request_carries_the_application_descriptor() {
    let request = assembled(true, true, true);
    let application = request.application();
    assert_eq!(application.name(), "Vulkan Application");
    assert_eq!(application.version(), 4096);
    assert_eq!(application.engine_name(), "No Engine");
    assert_eq!(application.engine_version(), 4096);
    assert_eq!(application.api_version(), 4194304);
}
