//! The bootstrap sequence as a state machine.
//!
//! The machine never touches the outside world. Each call of
//! [`Bootstrapper::step`] takes the answer to the last request and returns
//! the next thing for the caller to do. In order: load the Vulkan entry
//! points; ask the windowing system for its required extensions; if
//! validation is enabled, enumerate the installed layers; create the
//! instance. The first failure ends the sequence.

use vstd::prelude::*;
use crate::config::{BootstrapConfig, PlatformCapabilities};
use crate::descriptor::{
    build_application_descriptor, standard_descriptor, ApplicationDescriptor,
    ApplicationDescriptorView,
};
use crate::error::{BootstrapError, DisplayBackendUnavailable, EntryLoadError};
use crate::debug::reports_something;
use crate::extensions::{
    has_portability_pair, resolution, resolution_is_well_formed, resolve_extensions,
    ResolvedExtensions, ResolvedExtensionsView,
};
use crate::layers::{all_installed, layers_supported, requested_layer_names, requested_layers};
use crate::names::names_of;
use crate::vulkan::debug_utils_extension;
use crate::request::{
    assemble_request, lemma_request_of, request_of, InstanceRequest, InstanceRequestView,
};

verus! {

/// The raw value of a created instance's handle. The instance itself stays
/// with the caller.
#[derive(Clone, Copy, Debug, PartialEq, Eq, Structural)]
pub struct InstanceHandle {
    pub raw: u64,
}

/// What the caller reports back to the machine.
#[derive(Debug)]
pub enum BootstrapEvent {
    /// The attempt to load the Vulkan entry points has ended.
    EntryLoaded(Result<(), EntryLoadError>),
    /// The windowing system has answered the query for the extensions it
    /// requires.
    RequiredExtensions(Result<Vec<String>, DisplayBackendUnavailable>),
    /// The layers installed on the system have been enumerated.
    InstalledLayers(Vec<String>),
    /// The native creation call has returned: the new instance, or the
    /// status code of the refusal.
    InstanceCreation(Result<InstanceHandle, i32>),
    /// The application is closing.
    Shutdown,
}

/// A [`BootstrapEvent`], with names as plain values.
pub enum EventView {
    EntryLoaded(Result<(), EntryLoadError>),
    RequiredExtensions(Result<Seq<Seq<char>>, DisplayBackendUnavailable>),
    InstalledLayers(Seq<Seq<char>>),
    InstanceCreation(Result<InstanceHandle, i32>),
    Shutdown,
}

impl View for BootstrapEvent {
    type V = EventView;

    open spec fn view(&self) -> EventView {
        match self {
            BootstrapEvent::EntryLoaded(outcome) => EventView::EntryLoaded(*outcome),
            BootstrapEvent::RequiredExtensions(Ok(names)) => EventView::RequiredExtensions(
                Ok(names_of(names@)),
            ),
            BootstrapEvent::RequiredExtensions(Err(e)) => EventView::RequiredExtensions(Err(*e)),
            BootstrapEvent::InstalledLayers(names) => EventView::InstalledLayers(
                names_of(names@),
            ),
            BootstrapEvent::InstanceCreation(outcome) => EventView::InstanceCreation(*outcome),
            BootstrapEvent::Shutdown => EventView::Shutdown,
        }
    }
}

/// What the machine asks of the caller.
#[derive(Debug)]
pub enum BootstrapAction {
    /// Ask the windowing system which extensions it requires, and report
    /// the answer as [`BootstrapEvent::RequiredExtensions`].
    QueryRequiredExtensions,
    /// Enumerate the installed layers, and report them as
    /// [`BootstrapEvent::InstalledLayers`].
    EnumerateLayers,
    /// Make the native creation call with this request, and report how it
    /// ended as [`BootstrapEvent::InstanceCreation`].
    CreateInstance(InstanceRequest),
    /// The bootstrap has succeeded: the instance is the caller's.
    Finish(InstanceHandle),
    /// The bootstrap has failed: end startup with this error.
    Abort(BootstrapError),
    /// Destroy the instance; nothing else of the bootstrap is left to
    /// release.
    DestroyInstance(InstanceHandle),
    /// The event answers no open request: there is nothing to do.
    Ignore,
}

/// A [`BootstrapAction`], with the request as plain values.
pub enum ActionView {
    QueryRequiredExtensions,
    EnumerateLayers,
    CreateInstance(InstanceRequestView),
    Finish(InstanceHandle),
    Abort(BootstrapError),
    DestroyInstance(InstanceHandle),
    Ignore,
}

impl View for BootstrapAction {
    type V = ActionView;

    open spec fn view(&self) -> ActionView {
        match self {
            BootstrapAction::QueryRequiredExtensions => ActionView::QueryRequiredExtensions,
            BootstrapAction::EnumerateLayers => ActionView::EnumerateLayers,
            BootstrapAction::CreateInstance(request) => ActionView::CreateInstance(request@),
            BootstrapAction::Finish(instance) => ActionView::Finish(*instance),
            BootstrapAction::Abort(error) => ActionView::Abort(*error),
            BootstrapAction::DestroyInstance(instance) => ActionView::DestroyInstance(*instance),
            BootstrapAction::Ignore => ActionView::Ignore,
        }
    }
}

/// Where the bootstrap stands.
pub enum PhaseView {
    /// Waiting to hear whether the entry points could be loaded.
    AwaitingEntry,
    /// The descriptor is built; waiting for the windowing system's answer.
    AwaitingExtensions { application: ApplicationDescriptorView },
    /// The extensions are settled; waiting for the installed layers.
    AwaitingLayers { application: ApplicationDescriptorView, extensions: ResolvedExtensionsView },
    /// The request is out; waiting for the creation call to return.
    AwaitingInstance,
    /// The instance exists.
    Ready { instance: InstanceHandle },
    /// The bootstrap has failed. Nothing follows.
    Failed { error: BootstrapError },
    /// The instance has been handed back for destruction. Nothing follows.
    Closed,
}

/// A [`Bootstrapper`], as plain values.
pub struct BootstrapperView {
    pub config: BootstrapConfig,
    pub platform: PlatformCapabilities,
    pub phase: PhaseView,
}

impl BootstrapperView {
    /// The state before anything has been reported.
    pub open spec fn initial(config: BootstrapConfig, platform: PlatformCapabilities) -> Self {
        BootstrapperView { config, platform, phase: PhaseView::AwaitingEntry }
    }

    /// Layers are only awaited where validation is enabled, and then the
    /// extensions that were settled are well formed and were settled for
    /// the settings and the platform of this bootstrap.
    pub open spec fn well_formed(self) -> bool {
        self.phase matches PhaseView::AwaitingLayers { extensions, .. } ==> {
            &&& self.config.validation_enabled
            &&& extensions.well_formed()
            &&& extensions.validation_enabled == self.config.validation_enabled
            &&& extensions.portability_subset == self.platform.portability_subset
        }
    }

    /// This state, failed with `error`, and the action that tells the
    /// caller so.
    pub open spec fn fail(self, error: BootstrapError) -> (BootstrapperView, ActionView) {
        (
            BootstrapperView { phase: PhaseView::Failed { error }, ..self },
            ActionView::Abort(error),
        )
    }

    /// This state with the request for the given extensions sent out.
    pub open spec fn send_request(
        self,
        application: ApplicationDescriptorView,
        extensions: ResolvedExtensionsView,
    ) -> (BootstrapperView, ActionView) {
        (
            BootstrapperView { phase: PhaseView::AwaitingInstance, ..self },
            ActionView::CreateInstance(request_of(self.config.debug, application, extensions)),
        )
    }

    /// The state after `event` and the action that `event` calls for.
    ///
    /// An event that does not answer the open request changes nothing and
    /// calls for nothing.
    pub open spec fn step(self, event: EventView) -> (BootstrapperView, ActionView) {
        match (self.phase, event) {
            (PhaseView::AwaitingEntry, EventView::EntryLoaded(Ok(_))) => (
                BootstrapperView {
                    phase: PhaseView::AwaitingExtensions { application: standard_descriptor() },
                    ..self
                },
                ActionView::QueryRequiredExtensions,
            ),
            (PhaseView::AwaitingEntry, EventView::EntryLoaded(Err(_))) => self.fail(
                BootstrapError::EntryLoad,
            ),
            (
                PhaseView::AwaitingExtensions { application },
                EventView::RequiredExtensions(Ok(required)),
            ) => {
                let extensions = resolution(
                    required,
                    self.config.validation_enabled,
                    self.platform.portability_subset,
                );
                if self.config.validation_enabled {
                    (
                        BootstrapperView {
                            phase: PhaseView::AwaitingLayers { application, extensions },
                            ..self
                        },
                        ActionView::EnumerateLayers,
                    )
                } else {
                    self.send_request(application, extensions)
                }
            },
            (PhaseView::AwaitingExtensions { .. }, EventView::RequiredExtensions(Err(_))) => {
                self.fail(BootstrapError::DisplayBackendUnavailable)
            },
            (
                PhaseView::AwaitingLayers { application, extensions },
                EventView::InstalledLayers(installed),
            ) => {
                if all_installed(requested_layer_names(), installed) {
                    self.send_request(application, extensions)
                } else {
                    self.fail(BootstrapError::ValidationLayerUnavailable)
                }
            },
            (PhaseView::AwaitingInstance, EventView::InstanceCreation(Ok(instance))) => (
                BootstrapperView { phase: PhaseView::Ready { instance }, ..self },
                ActionView::Finish(instance),
            ),
            (PhaseView::AwaitingInstance, EventView::InstanceCreation(Err(code))) => self.fail(
                BootstrapError::InstanceCreationFailed(code),
            ),
            (PhaseView::Ready { instance }, EventView::Shutdown) => (
                BootstrapperView { phase: PhaseView::Closed, ..self },
                ActionView::DestroyInstance(instance),
            ),
            _ => (self, ActionView::Ignore),
        }
    }

    /// How the bootstrap has ended, if it has: with the instance, or with
    /// the error that stopped it.
    pub open spec fn outcome(self) -> Option<Result<InstanceHandle, BootstrapError>> {
        match self.phase {
            PhaseView::Ready { instance } => Some(Ok(instance)),
            PhaseView::Failed { error } => Some(Err(error)),
            _ => None,
        }
    }
}

/// A step changes neither the settings nor the platform, and leaves a well
/// formed state well formed.
pub proof fn step_keeps_state_sound(state: BootstrapperView, event: EventView)
    requires
        state.well_formed(),
    ensures
        state.step(event).0.config == state.config,
        state.step(event).0.platform == state.platform,
        state.step(event).0.well_formed(),
{
    if let (PhaseView::AwaitingExtensions { .. }, EventView::RequiredExtensions(Ok(required))) = (
        state.phase,
        event,
    ) {
        resolution_is_well_formed(
            required,
            state.config.validation_enabled,
            state.platform.portability_subset,
        );
    }
}

/// Every creation request that the machine sends is well formed. Layers and
/// debug configuration are attached to it together, exactly if validation
/// is enabled; an attached configuration reports something and comes with
/// the debug utilities. Its portability flag is set exactly on a
/// portability platform, and then comes with the portability pair.
pub proof fn sent_requests_are_sound(state: BootstrapperView, event: EventView)
    requires
        state.well_formed(),
    ensures
        state.step(event).1 matches ActionView::CreateInstance(request) ==> {
            &&& request.well_formed()
            &&& request.debug is Some <==> state.config.validation_enabled
            &&& request.layers.len() > 0 <==> state.config.validation_enabled
            &&& request.debug matches Some(masks) ==> reports_something(masks)
            &&& request.debug is Some ==> request.extensions.contains(debug_utils_extension())
            &&& request.enumerates_portability() <==> state.platform.portability_subset
            &&& request.enumerates_portability() ==> has_portability_pair(request.extensions)
        },
{
    match (state.phase, event) {
        (
            PhaseView::AwaitingExtensions { application },
            EventView::RequiredExtensions(Ok(required)),
        ) => {
            let extensions = resolution(
                required,
                state.config.validation_enabled,
                state.platform.portability_subset,
            );
            resolution_is_well_formed(
                required,
                state.config.validation_enabled,
                state.platform.portability_subset,
            );
            lemma_request_of(state.config.debug, application, extensions);
        },
        (PhaseView::AwaitingLayers { application, extensions }, _) => {
            lemma_request_of(state.config.debug, application, extensions);
        },
        _ => {},
    }
}

/// With validation enabled, the creation call is requested only in answer
/// to an enumeration that shows every requested layer installed. Without
/// validation, no enumeration of layers is ever requested.
pub proof fn creation_waits_for_layer_check(state: BootstrapperView, event: EventView)
    requires
        state.well_formed(),
    ensures
        state.step(event).1 is EnumerateLayers ==> state.config.validation_enabled,
        state.step(event).1 is CreateInstance && state.config.validation_enabled ==> {
            &&& state.phase is AwaitingLayers
            &&& event matches EventView::InstalledLayers(installed)
            &&& all_installed(requested_layer_names(), installed)
        },
        state.step(event).1 is CreateInstance && !state.config.validation_enabled ==> {
            &&& state.phase is AwaitingExtensions
            &&& event matches EventView::RequiredExtensions(Ok(_))
        },
{
}

/// A failure is reported at the step at which it arises and is recorded as
/// the outcome; success is reported with the instance and recorded
/// likewise.
pub proof fn reported_end_is_recorded(state: BootstrapperView, event: EventView)
    ensures
        state.step(event).1 matches ActionView::Abort(error) ==> state.step(event).0.outcome()
            == Some(Err::<InstanceHandle, BootstrapError>(error)),
        state.step(event).1 matches ActionView::Finish(instance) ==> state.step(event).0.outcome()
            == Some(Ok::<InstanceHandle, BootstrapError>(instance)),
        state.step(event).1 is CreateInstance ==> state.step(event).0.phase is AwaitingInstance,
{
}

/// Once the bootstrap has failed, or the instance has been handed back,
/// every event is ignored: there is no retry and no second instance.
pub proof fn ended_bootstrap_stays_ended(state: BootstrapperView, event: EventView)
    requires
        state.phase is Failed || state.phase is Closed,
    ensures
        state.step(event) == (state, ActionView::Ignore),
{
}

/// What the outside services answer in the course of one bootstrap.
pub struct Answers {
    /// Whether the entry points could be loaded.
    pub entry: Result<(), EntryLoadError>,
    /// What the windowing system says it requires.
    pub required: Result<Seq<Seq<char>>, DisplayBackendUnavailable>,
    /// The layers that are installed.
    pub installed: Seq<Seq<char>>,
    /// How the native creation call ends.
    pub creation: Result<InstanceHandle, i32>,
}

impl Answers {
    /// The event with which a caller answers `action`, for the three
    /// actions that ask for an outside call.
    pub open spec fn reply(self, action: ActionView) -> Option<EventView> {
        match action {
            ActionView::QueryRequiredExtensions => Some(
                EventView::RequiredExtensions(self.required),
            ),
            ActionView::EnumerateLayers => Some(EventView::InstalledLayers(self.installed)),
            ActionView::CreateInstance(_) => Some(EventView::InstanceCreation(self.creation)),
            _ => None,
        }
    }

    /// How a bootstrap under `config` has to end on these answers: with the
    /// error of the first step that fails, in the order entry, extensions,
    /// layers (checked only if validation is enabled), creation; with the
    /// created instance if none fails.
    pub open spec fn verdict(self, config: BootstrapConfig) -> Result<
        InstanceHandle,
        BootstrapError,
    > {
        if self.entry is Err {
            Err(BootstrapError::EntryLoad)
        } else if self.required is Err {
            Err(BootstrapError::DisplayBackendUnavailable)
        } else if config.validation_enabled && !all_installed(
            requested_layer_names(),
            self.installed,
        ) {
            Err(BootstrapError::ValidationLayerUnavailable)
        } else {
            match self.creation {
                Ok(instance) => Ok(instance),
                Err(code) => Err(BootstrapError::InstanceCreationFailed(code)),
            }
        }
    }
}

/// The state reached from `state` by reporting `event` and then answering,
/// from `answers`, up to `rounds` of the requests that follow.
pub open spec fn drive(
    state: BootstrapperView,
    event: EventView,
    answers: Answers,
    rounds: nat,
) -> BootstrapperView
    decreases rounds,
{
    let (next, action) = state.step(event);
    if rounds > 0 && answers.reply(action) is Some {
        drive(next, answers.reply(action).unwrap(), answers, (rounds - 1) as nat)
    } else {
        next
    }
}

/// A bootstrap whose requests are answered faithfully ends, after at most
/// three requests, as [`Answers::verdict`] says: each failure stops it at
/// its step, and only a bootstrap in which nothing fails yields the
/// instance.
pub proof fn faithful_bootstrap_ends_with_verdict(
    config: BootstrapConfig,
    platform: PlatformCapabilities,
    answers: Answers,
)
    ensures
        drive(
            BootstrapperView::initial(config, platform),
            EventView::EntryLoaded(answers.entry),
            answers,
            3,
        ).outcome() == Some(answers.verdict(config)),
{
    reveal_with_fuel(drive, 4);
}

#[derive(Debug)]
enum Phase {
    AwaitingEntry,
    AwaitingExtensions { application: ApplicationDescriptor },
    AwaitingLayers { application: ApplicationDescriptor, extensions: ResolvedExtensions },
    AwaitingInstance,
    Ready { instance: InstanceHandle },
    Failed { error: BootstrapError },
    Closed,
}

impl View for Phase {
    type V = PhaseView;

    closed spec fn view(&self) -> PhaseView {
        match self {
            Phase::AwaitingEntry => PhaseView::AwaitingEntry,
            Phase::AwaitingExtensions { application } => PhaseView::AwaitingExtensions {
                application: application@,
            },
            Phase::AwaitingLayers { application, extensions } => PhaseView::AwaitingLayers {
                application: application@,
                extensions: extensions@,
            },
            Phase::AwaitingInstance => PhaseView::AwaitingInstance,
            Phase::Ready { instance } => PhaseView::Ready { instance: *instance },
            Phase::Failed { error } => PhaseView::Failed { error: *error },
            Phase::Closed => PhaseView::Closed,
        }
    }
}

/// The bootstrap of one instance: its settings and how far it has come.
#[derive(Debug)]
pub struct Bootstrapper {
    config: BootstrapConfig,
    platform: PlatformCapabilities,
    phase: Phase,
}

impl View for Bootstrapper {
    type V = BootstrapperView;

    closed spec fn view(&self) -> BootstrapperView {
        BootstrapperView { config: self.config, platform: self.platform, phase: self.phase@ }
    }
}

impl Bootstrapper {
    /// The state obeys [`BootstrapperView::well_formed`]. This holds of
    /// every bootstrapper.
    #[verifier::type_invariant]
    pub open spec fn sound(self) -> bool {
        self@.well_formed()
    }

    /// A bootstrap that has not begun. The caller starts it by trying to
    /// load the Vulkan entry points and reporting
    /// [`BootstrapEvent::EntryLoaded`].
    pub fn new(config: BootstrapConfig, platform: PlatformCapabilities) -> (machine: Self)
        ensures
            machine@ == BootstrapperView::initial(config, platform),
    {
        Bootstrapper { config, platform, phase: Phase::AwaitingEntry }
    }

    /// The settings of this bootstrap.
    pub fn config(&self) -> (config: BootstrapConfig)
        ensures
            config == self@.config,
    {
        self.config
    }

    /// The platform of this bootstrap.
    pub fn platform(&self) -> (platform: PlatformCapabilities)
        ensures
            platform == self@.platform,
    {
        self.platform
    }

    /// How the bootstrap has ended, if it has.
    pub fn outcome(&self) -> (outcome: Option<Result<InstanceHandle, BootstrapError>>)
        ensures
            outcome == self@.outcome(),
    {
        match &self.phase {
            Phase::Ready { instance } => Some(Ok(*instance)),
            Phase::Failed { error } => Some(Err(*error)),
            _ => None,
        }
    }

    /// Takes in `event` and returns the state that follows together with
    /// what the caller is to do next, as [`BootstrapperView::step`] lays
    /// down.
    pub fn step(self, event: BootstrapEvent) -> (next: (Bootstrapper, BootstrapAction))
        ensures
            (next.0@, next.1@) == self@.step(event@),
    {
        proof {
            use_type_invariant(&self);
        }
        let Bootstrapper { config, platform, phase } = self;
        match phase {
            Phase::AwaitingEntry => match event {
                BootstrapEvent::EntryLoaded(Ok(_)) => {
                    let application = build_application_descriptor();
                    (
                        Bootstrapper {
                            config,
                            platform,
                            phase: Phase::AwaitingExtensions { application },
                        },
                        BootstrapAction::QueryRequiredExtensions,
                    )
                },
                BootstrapEvent::EntryLoaded(Err(_)) => Self::failed(
                    config,
                    platform,
                    BootstrapError::EntryLoad,
                ),
                _ => (
                    Bootstrapper { config, platform, phase: Phase::AwaitingEntry },
                    BootstrapAction::Ignore,
                ),
            },
            Phase::AwaitingExtensions { application } => match event {
                BootstrapEvent::RequiredExtensions(reported) => {
                    match resolve_extensions(reported, config.validation_enabled, platform) {
                        Err(error) => Self::failed(config, platform, error),
                        Ok(extensions) => {
                            if config.validation_enabled {
                                (
                                    Bootstrapper {
                                        config,
                                        platform,
                                        phase: Phase::AwaitingLayers { application, extensions },
                                    },
                                    BootstrapAction::EnumerateLayers,
                                )
                            } else {
                                Self::request_sent(config, platform, application, extensions)
                            }
                        },
                    }
                },
                _ => (
                    Bootstrapper {
                        config,
                        platform,
                        phase: Phase::AwaitingExtensions { application },
                    },
                    BootstrapAction::Ignore,
                ),
            },
            Phase::AwaitingLayers { application, extensions } => match event {
                BootstrapEvent::InstalledLayers(installed) => {
                    let requested = requested_layers();
                    if layers_supported(&requested, &installed) {
                        Self::request_sent(config, platform, application, extensions)
                    } else {
                        Self::failed(
                            config,
                            platform,
                            BootstrapError::ValidationLayerUnavailable,
                        )
                    }
                },
                _ => (
                    Bootstrapper {
                        config,
                        platform,
                        phase: Phase::AwaitingLayers { application, extensions },
                    },
                    BootstrapAction::Ignore,
                ),
            },
            Phase::AwaitingInstance => match event {
                BootstrapEvent::InstanceCreation(Ok(instance)) => (
                    Bootstrapper { config, platform, phase: Phase::Ready { instance } },
                    BootstrapAction::Finish(instance),
                ),
                BootstrapEvent::InstanceCreation(Err(code)) => Self::failed(
                    config,
                    platform,
                    BootstrapError::InstanceCreationFailed(code),
                ),
                _ => (
                    Bootstrapper { config, platform, phase: Phase::AwaitingInstance },
                    BootstrapAction::Ignore,
                ),
            },
            Phase::Ready { instance } => match event {
                BootstrapEvent::Shutdown => (
                    Bootstrapper { config, platform, phase: Phase::Closed },
                    BootstrapAction::DestroyInstance(instance),
                ),
                _ => (
                    Bootstrapper { config, platform, phase: Phase::Ready { instance } },
                    BootstrapAction::Ignore,
                ),
            },
            Phase::Failed { error } => (
                Bootstrapper { config, platform, phase: Phase::Failed { error } },
                BootstrapAction::Ignore,
            ),
            Phase::Closed => (
                Bootstrapper { config, platform, phase: Phase::Closed },
                BootstrapAction::Ignore,
            ),
        }
    }

    fn failed(
        config: BootstrapConfig,
        platform: PlatformCapabilities,
        error: BootstrapError,
    ) -> (next: (Bootstrapper, BootstrapAction))
        ensures
            next.0@ == (BootstrapperView { config, platform, phase: PhaseView::Failed { error } }),
            next.1@ == ActionView::Abort(error),
    {
        (
            Bootstrapper { config, platform, phase: Phase::Failed { error } },
            BootstrapAction::Abort(error),
        )
    }

    fn request_sent(
        config: BootstrapConfig,
        platform: PlatformCapabilities,
        application: ApplicationDescriptor,
        extensions: ResolvedExtensions,
    ) -> (next: (Bootstrapper, BootstrapAction))
        ensures
            next.0@ == (BootstrapperView { config, platform, phase: PhaseView::AwaitingInstance }),
            next.1@ == ActionView::CreateInstance(
                request_of(config.debug, application@, extensions@),
            ),
    {
        let request = assemble_request(config.debug, application, extensions);
        (
            Bootstrapper { config, platform, phase: Phase::AwaitingInstance },
            BootstrapAction::CreateInstance(request),
        )
    }
}

} // verus!
