//! What the caller decides before startup: whether validation is on and what
//! the debug messenger captures; and what the platform requires.

use vstd::prelude::*;
use crate::debug::DebugOptions;

verus! {

/// The settings of one bootstrap.
#[derive(Clone, Copy, Debug, PartialEq, Eq, Structural)]
pub struct BootstrapConfig {
    /// Whether validation layers and the debug messenger are requested.
    pub validation_enabled: bool,
    /// Which optional severities the debug messenger captures.
    pub debug: DebugOptions,
}

impl Default for BootstrapConfig {
    /// Validation on; warnings and errors captured, nothing below them.
    fn default() -> (config: Self)
        ensures
            config.validation_enabled,
            !config.debug.capture_verbose,
            !config.debug.capture_info,
    {
        BootstrapConfig {
            validation_enabled: true,
            debug: DebugOptions { capture_verbose: false, capture_info: false },
        }
    }
}

/// The operating system the program runs on.
#[derive(Clone, Copy, Debug, PartialEq, Eq, Structural)]
pub enum TargetOs {
    Windows,
    Linux,
    Android,
    MacOs,
    Ios,
    Other,
}

/// What the platform demands of an instance.
#[derive(Clone, Copy, Debug, PartialEq, Eq, Structural)]
pub struct PlatformCapabilities {
    /// Whether Vulkan is provided here by a layer over another graphics API,
    /// so that only the portability subset is available.
    pub portability_subset: bool,
}

impl PlatformCapabilities {
    /// Whether `os` offers Vulkan only as a portability subset: so it is on
    /// macOS and iOS, and nowhere else.
    pub open spec fn needs_portability(os: TargetOs) -> bool {
        os is MacOs || os is Ios
    }

    /// The capabilities of `os`.
    pub fn of_target(os: TargetOs) -> (platform: Self)
        ensures
            platform.portability_subset == Self::needs_portability(os),
    {
        let portability_subset = match os {
            TargetOs::MacOs | TargetOs::Ios => true,
            _ => false,
        };
        PlatformCapabilities { portability_subset }
    }
}

} // verus!
