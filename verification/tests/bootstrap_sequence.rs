use vulkan_bootstrap::bootstrap::{BootstrapAction, BootstrapEvent, Bootstrapper, InstanceHandle};
use vulkan_bootstrap::config::{BootstrapConfig, PlatformCapabilities};
use vulkan_bootstrap::debug::{DebugOptions, Severity};
use vulkan_bootstrap::error::{
    BootstrapError, BootstrapStep, DisplayBackendUnavailable, EntryLoadError,
};
use vulkan_bootstrap::request::InstanceRequest;

const VALIDATION_LAYER: &str = "VK_LAYER_KHRONOS_validation";
const DEBUG_UTILS: &str = "VK_EXT_debug_utils";
const PORTABILITY_ENUMERATION: &str = "VK_KHR_portability_enumeration";
const PHYSICAL_DEVICE_PROPERTIES2: &str = "VK_KHR_get_physical_device_properties2";

fn names(list: &[&str]) -> Vec<String> {
    list.iter().map(|name| name.to_string()).collect()
}

fn config(validation_enabled: bool) -> BootstrapConfig {
    BootstrapConfig {
        validation_enabled,
        debug: DebugOptions { capture_verbose: false, capture_info: false },
    }
}

fn desktop() -> PlatformCapabilities {
    PlatformCapabilities { portability_subset: false }
}

fn portability() -> PlatformCapabilities {
    PlatformCapabilities { portability_subset: true }
}

/// The outside services, played by fixed answers. Every call is counted and
/// every request that reaches the creation call is kept.
struct Services {
    entry: Result<(), EntryLoadError>,
    required: Result<Vec<String>, DisplayBackendUnavailable>,
    installed: Vec<String>,
    creation: Result<InstanceHandle, i32>,
    extension_queries: usize,
    layer_enumerations: usize,
    creation_calls: usize,
    requests: Vec<InstanceRequest>,
}

impl Services {
    fn answering(
        required: Result<Vec<String>, DisplayBackendUnavailable>,
        installed: &[&str],
        creation: Result<InstanceHandle, i32>,
    ) -> Services {
        Services {
            entry: Ok(()),
            required,
            installed: names(installed),
            creation,
            extension_queries: 0,
            layer_enumerations: 0,
            creation_calls: 0,
            requests: Vec::new(),
        }
    }
}

/// Runs a bootstrap against `services` as an application would: it does
/// what each action asks and reports the answer, until the machine
/// finishes or aborts.
fn run(
    config: BootstrapConfig,
    platform: PlatformCapabilities,
    services: &mut Services,
) -> (Bootstrapper, Result<InstanceHandle, BootstrapError>) {
    let mut machine = Bootstrapper::new(config, platform);
    let mut event = BootstrapEvent::EntryLoaded(services.entry);
    for _ in 0..8 {
        let (next, action) = machine.step(event);
        machine = next;
        event = match action {
            BootstrapAction::QueryRequiredExtensions => {
                services.extension_queries += 1;
                BootstrapEvent::RequiredExtensions(services.required.clone())
            }
            BootstrapAction::EnumerateLayers => {
                services.layer_enumerations += 1;
                BootstrapEvent::InstalledLayers(services.installed.clone())
            }
            BootstrapAction::CreateInstance(request) => {
                services.creation_calls += 1;
                services.requests.push(request);
                BootstrapEvent::InstanceCreation(services.creation)
            }
            BootstrapAction::Finish(instance) => return (machine, Ok(instance)),
            BootstrapAction::Abort(error) => return (machine, Err(error)),
            BootstrapAction::DestroyInstance(_) | BootstrapAction::Ignore => {
                panic!("the machine asked for nothing although the bootstrap is under way")
            }
        };
    }
    panic!("the bootstrap did not end");
}

#[test]
fn validation_with_all_layers_present_creates_the_instance() {
    let mut services = Services::answering(
        Ok(names(&["VK_KHR_surface", "VK_KHR_xlib_surface"])),
        &["VK_LAYER_MESA_overlay", VALIDATION_LAYER],
        Ok(InstanceHandle { raw: 0x1234 }),
    );
    let (machine, outcome) = run(config(true), desktop(), &mut services);
    assert_eq!(outcome, Ok(InstanceHandle { raw: 0x1234 }));
    assert_eq!(machine.outcome(), Some(Ok(InstanceHandle { raw: 0x1234 })));
    assert_eq!(services.extension_queries, 1);
    assert_eq!(services.layer_enumerations, 1);
    assert_eq!(services.creation_calls, 1);
    let request = &services.requests[0];
    assert_eq!(request.extensions().len(), 3);
    assert_eq!(
        request.extensions().names(),
        &names(&["VK_KHR_surface", "VK_KHR_xlib_surface", DEBUG_UTILS])
    );
    assert_eq!(request.layers(), &names(&[VALIDATION_LAYER]));
    let debug = request.debug().expect("validation chains the debug configuration");
    assert_eq!(debug.severity_mask(), 0x1100);
    assert_eq!(debug.category_mask(), 0x7);
    assert_eq!(request.flags(), 0);
    assert!(!request.enumerates_portability());
    assert_eq!(request.application().name(), "Vulkan Application");
    assert_eq!(request.application().api_version(), 4194304);
}

#[test]
fn a_missing_layer_stops_the_bootstrap_before_creation() {
    let mut services = Services::answering(
        Ok(names(&["VK_KHR_surface", "VK_KHR_xlib_surface"])),
        &["VK_LAYER_MESA_overlay", "VK_LAYER_LUNARG_monitor"],
        Ok(InstanceHandle { raw: 1 }),
    );
    let (machine, outcome) = run(config(true), desktop(), &mut services);
    assert_eq!(outcome, Err(BootstrapError::ValidationLayerUnavailable));
    assert_eq!(machine.outcome(), Some(Err(BootstrapError::ValidationLayerUnavailable)));
    assert_eq!(services.layer_enumerations, 1);
    assert_eq!(services.creation_calls, 0);
    assert!(services.requests.is_empty());
}

#[test]
fn no_installed_layers_at_all_stops_the_bootstrap() {
    let mut services =
        Services::answering(Ok(names(&["VK_KHR_surface"])), &[], Ok(InstanceHandle { raw: 1 }));
    let (_, outcome) = run(config(true), desktop(), &mut services);
    assert_eq!(outcome, Err(BootstrapError::ValidationLayerUnavailable));
    assert_eq!(services.creation_calls, 0);
}

#[test]
fn a_failed_extension_query_stops_the_bootstrap() {
    for validation in [false, true] {
        let mut services = Services::answering(
            Err(DisplayBackendUnavailable),
            &[VALIDATION_LAYER],
            Ok(InstanceHandle { raw: 1 }),
        );
        let (machine, outcome) = run(config(validation), desktop(), &mut services);
        assert_eq!(outcome, Err(BootstrapError::DisplayBackendUnavailable));
        assert_eq!(services.extension_queries, 1);
        assert_eq!(services.layer_enumerations, 0);
        assert_eq!(services.creation_calls, 0);

        // The exit is final: whatever is reported afterwards changes nothing.
        let (machine, action) =
            machine.step(BootstrapEvent::RequiredExtensions(Ok(names(&["VK_KHR_surface"]))));
        assert!(matches!(action, BootstrapAction::Ignore));
        let (machine, action) = machine.step(BootstrapEvent::EntryLoaded(Ok(())));
        assert!(matches!(action, BootstrapAction::Ignore));
        let (machine, action) =
            machine.step(BootstrapEvent::InstanceCreation(Ok(InstanceHandle { raw: 9 })));
        assert!(matches!(action, BootstrapAction::Ignore));
        assert_eq!(machine.outcome(), Some(Err(BootstrapError::DisplayBackendUnavailable)));
    }
}

#[test]
fn without_validation_no_layer_is_checked_and_nothing_is_chained() {
    let mut services = Services::answering(
        Ok(names(&["VK_KHR_surface", "VK_KHR_win32_surface"])),
        &[],
        Ok(InstanceHandle { raw: 77 }),
    );
    let (machine, outcome) = run(config(false), desktop(), &mut services);
    assert_eq!(outcome, Ok(InstanceHandle { raw: 77 }));
    assert_eq!(machine.outcome(), Some(Ok(InstanceHandle { raw: 77 })));
    assert_eq!(services.layer_enumerations, 0);
    assert_eq!(services.creation_calls, 1);
    let request = &services.requests[0];
    assert_eq!(
        request.extensions().names(),
        &names(&["VK_KHR_surface", "VK_KHR_win32_surface"])
    );
    assert!(!request.extensions().contains(&DEBUG_UTILS.to_string()));
    assert!(request.layers().is_empty());
    assert!(request.debug().is_none());
}

#[test]
fn a_refused_creation_keeps_the_native_code() {
    let mut services = Services::answering(
        Ok(names(&["VK_KHR_surface"])),
        &[VALIDATION_LAYER],
        Err(ash::vk::Result::ERROR_EXTENSION_NOT_PRESENT.as_raw()),
    );
    let (machine, outcome) = run(config(true), desktop(), &mut services);
    assert_eq!(outcome, Err(BootstrapError::InstanceCreationFailed(-7)));
    assert_eq!(machine.outcome(), Some(Err(BootstrapError::InstanceCreationFailed(-7))));
    assert_eq!(services.creation_calls, 1);
    let error = outcome.unwrap_err();
    assert_eq!(error.failed_step(), BootstrapStep::CreateInstance);
    assert_eq!(error.native_code(), Some(-7));
}

#[test]
fn creation_is_not_retried() {
    let mut services = Services::answering(
        Ok(names(&["VK_KHR_surface"])),
        &[],
        Err(ash::vk::Result::ERROR_INCOMPATIBLE_DRIVER.as_raw()),
    );
    let (machine, outcome) = run(config(false), desktop(), &mut services);
    assert_eq!(outcome, Err(BootstrapError::InstanceCreationFailed(-9)));
    let (machine, action) =
        machine.step(BootstrapEvent::InstanceCreation(Ok(InstanceHandle { raw: 5 })));
    assert!(matches!(action, BootstrapAction::Ignore));
    assert_eq!(machine.outcome(), Some(Err(BootstrapError::InstanceCreationFailed(-9))));
    assert_eq!(services.creation_calls, 1);
}

#[test]
fn an_unloadable_runtime_stops_the_bootstrap_at_once() {
    let mut services =
        Services::answering(Ok(names(&["VK_KHR_surface"])), &[], Ok(InstanceHandle { raw: 1 }));
    services.entry = Err(EntryLoadError);
    let (machine, outcome) = run(config(true), desktop(), &mut services);
    assert_eq!(outcome, Err(BootstrapError::EntryLoad));
    assert_eq!(machine.outcome(), Some(Err(BootstrapError::EntryLoad)));
    assert_eq!(services.extension_queries, 0);
    assert_eq!(services.layer_enumerations, 0);
    assert_eq!(services.creation_calls, 0);
}

#[test]
fn portability_flag_and_extensions_travel_together() {
    for validation in [false, true] {
        let mut services = Services::answering(
            Ok(names(&["VK_KHR_surface", "VK_EXT_metal_surface"])),
            &[VALIDATION_LAYER],
            Ok(InstanceHandle { raw: 3 }),
        );
        let (_, outcome) = run(config(validation), portability(), &mut services);
        assert_eq!(outcome, Ok(InstanceHandle { raw: 3 }));
        let request = &services.requests[0];
        assert!(request.enumerates_portability());
        assert_eq!(
            request.flags(),
            ash::vk::InstanceCreateFlags::ENUMERATE_PORTABILITY_KHR.as_raw()
        );
        assert!(request.extensions().contains(&PORTABILITY_ENUMERATION.to_string()));
        assert!(request.extensions().contains(&PHYSICAL_DEVICE_PROPERTIES2.to_string()));

        let mut services = Services::answering(
            Ok(names(&["VK_KHR_surface", "VK_KHR_xcb_surface"])),
            &[VALIDATION_LAYER],
            Ok(InstanceHandle { raw: 3 }),
        );
        let (_, outcome) = run(config(validation), desktop(), &mut services);
        assert_eq!(outcome, Ok(InstanceHandle { raw: 3 }));
        let request = &services.requests[0];
        assert!(!request.enumerates_portability());
        assert_eq!(request.flags(), ash::vk::InstanceCreateFlags::default().as_raw());
        assert!(!request.extensions().contains(&PORTABILITY_ENUMERATION.to_string()));
        assert!(!request.extensions().contains(&PHYSICAL_DEVICE_PROPERTIES2.to_string()));
    }
}

#[test]
fn chained_debug_configuration_follows_the_options() {
    let mut services = Services::answering(
        Ok(names(&["VK_KHR_surface"])),
        &[VALIDATION_LAYER],
        Ok(InstanceHandle { raw: 3 }),
    );
    let chatty = BootstrapConfig {
        validation_enabled: true,
        debug: DebugOptions { capture_verbose: true, capture_info: true },
    };
    let (_, outcome) = run(chatty, desktop(), &mut services);
    assert!(outcome.is_ok());
    let debug = services.requests[0].debug().expect("validation chains the debug configuration");
    assert_eq!(debug.severity_mask(), 0x1111);
    assert!(debug.captures(Severity::Verbose));
    assert!(debug.captures(Severity::Info));
}

#[test]
fn steps_come_in_order() {
    let machine = Bootstrapper::new(config(true), desktop());
    assert_eq!(machine.config(), config(true));
    assert_eq!(machine.platform(), desktop());
    assert_eq!(machine.outcome(), None);

    let (machine, action) = machine.step(BootstrapEvent::EntryLoaded(Ok(())));
    assert!(matches!(action, BootstrapAction::QueryRequiredExtensions));
    assert_eq!(machine.outcome(), None);

    let (machine, action) =
        machine.step(BootstrapEvent::RequiredExtensions(Ok(names(&["VK_KHR_surface"]))));
    assert!(matches!(action, BootstrapAction::EnumerateLayers));

    let (machine, action) =
        machine.step(BootstrapEvent::InstalledLayers(names(&[VALIDATION_LAYER])));
    assert!(matches!(action, BootstrapAction::CreateInstance(_)));
    assert_eq!(machine.outcome(), None);

    let (machine, action) =
        machine.step(BootstrapEvent::InstanceCreation(Ok(InstanceHandle { raw: 11 })));
    assert!(matches!(action, BootstrapAction::Finish(InstanceHandle { raw: 11 })));
    assert_eq!(machine.outcome(), Some(Ok(InstanceHandle { raw: 11 })));
    assert_eq!(machine.config(), config(true));
}

#[test]
fn events_out_of_turn_are_ignored() {
    let machine = Bootstrapper::new(config(true), desktop());
    let (machine, action) =
        machine.step(BootstrapEvent::InstalledLayers(names(&[VALIDATION_LAYER])));
    assert!(matches!(action, BootstrapAction::Ignore));
    let (machine, action) =
        machine.step(BootstrapEvent::InstanceCreation(Ok(InstanceHandle { raw: 1 })));
    assert!(matches!(action, BootstrapAction::Ignore));
    let (machine, action) = machine.step(BootstrapEvent::Shutdown);
    assert!(matches!(action, BootstrapAction::Ignore));
    assert_eq!(machine.outcome(), None);

    // The machine still stands where it stood: the entry is awaited.
    let (machine, action) = machine.step(BootstrapEvent::EntryLoaded(Ok(())));
    assert!(matches!(action, BootstrapAction::QueryRequiredExtensions));
    let (machine, action) = machine.step(BootstrapEvent::EntryLoaded(Ok(())));
    assert!(matches!(action, BootstrapAction::Ignore));
    let (machine, action) =
        machine.step(BootstrapEvent::InstalledLayers(names(&[VALIDATION_LAYER])));
    assert!(matches!(action, BootstrapAction::Ignore));
    let (_, action) =
        machine.step(BootstrapEvent::RequiredExtensions(Ok(names(&["VK_KHR_surface"]))));
    assert!(matches!(action, BootstrapAction::EnumerateLayers));
}

#[test]
fn shutdown_hands_the_instance_back_once() {
    let mut services = Services::answering(
        Ok(names(&["VK_KHR_surface"])),
        &[VALIDATION_LAYER],
        Ok(InstanceHandle { raw: 21 }),
    );
    let (machine, outcome) = run(config(true), desktop(), &mut services);
    assert_eq!(outcome, Ok(InstanceHandle { raw: 21 }));
    let (machine, action) = machine.step(BootstrapEvent::Shutdown);
    assert!(matches!(action, BootstrapAction::DestroyInstance(InstanceHandle { raw: 21 })));
    assert_eq!(machine.outcome(), None);
    let (machine, action) = machine.step(BootstrapEvent::Shutdown);
    assert!(matches!(action, BootstrapAction::Ignore));
    let (_, action) = machine.step(BootstrapEvent::EntryLoaded(Ok(())));
    assert!(matches!(action, BootstrapAction::Ignore));
}
