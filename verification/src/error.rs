//! The ways in which startup fails. Each of them is final: nothing is
//! retried and no reduced setup is attempted.

use vstd::prelude::*;

verus! {

/// The Vulkan runtime could not be located or loaded.
#[derive(Clone, Copy, Debug, PartialEq, Eq, Structural)]
pub struct EntryLoadError;

/// The windowing system could not say which instance extensions its
/// surfaces need on this platform.
#[derive(Clone, Copy, Debug, PartialEq, Eq, Structural)]
pub struct DisplayBackendUnavailable;

/// Why the bootstrap stopped.
#[derive(Clone, Copy, Debug, PartialEq, Eq, Structural)]
pub enum BootstrapError {
    /// The Vulkan runtime could not be loaded.
    EntryLoad,
    /// The windowing system could not report its required extensions.
    DisplayBackendUnavailable,
    /// A requested validation layer is not installed.
    ValidationLayerUnavailable,
    /// The native creation call refused the request, with this status code.
    InstanceCreationFailed(i32),
}

/// The steps of the bootstrap that can fail.
#[derive(Clone, Copy, Debug, PartialEq, Eq, Structural)]
pub enum BootstrapStep {
    LoadEntry,
    ResolveExtensions,
    CheckValidationLayers,
    CreateInstance,
}

impl BootstrapError {
    /// The step at which this error arises.
    pub open spec fn step(self) -> BootstrapStep {
        match self {
            BootstrapError::EntryLoad => BootstrapStep::LoadEntry,
            BootstrapError::DisplayBackendUnavailable => BootstrapStep::ResolveExtensions,
            BootstrapError::ValidationLayerUnavailable => BootstrapStep::CheckValidationLayers,
            BootstrapError::InstanceCreationFailed(_) => BootstrapStep::CreateInstance,
        }
    }

    /// The native status code that came with this error, where there is one.
    pub open spec fn code(self) -> Option<i32> {
        match self {
            BootstrapError::InstanceCreationFailed(code) => Some(code),
            _ => None,
        }
    }

    /// The step that failed, for the diagnostic.
    pub fn failed_step(&self) -> (step: BootstrapStep)
        ensures
            step == self.step(),
    {
        match self {
            BootstrapError::EntryLoad => BootstrapStep::LoadEntry,
            BootstrapError::DisplayBackendUnavailable => BootstrapStep::ResolveExtensions,
            BootstrapError::ValidationLayerUnavailable => BootstrapStep::CheckValidationLayers,
            BootstrapError::InstanceCreationFailed(_) => BootstrapStep::CreateInstance,
        }
    }

    /// The native status code, for the diagnostic: present exactly for a
    /// refused creation call.
    pub fn native_code(&self) -> (code: Option<i32>)
        ensures
            code == self.code(),
    {
        match self {
            BootstrapError::InstanceCreationFailed(code) => Some(*code),
            _ => None,
        }
    }
}

} // verus!
