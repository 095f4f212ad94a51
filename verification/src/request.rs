//! The instance-creation request: everything the native creation call is
//! given.

use vstd::prelude::*;
use crate::debug::{
    build_debug_config, debug_masks, lemma_debug_masks, reports_something, DebugMasks,
    DebugMessengerConfiguration, DebugOptions,
};
use crate::descriptor::{ApplicationDescriptor, ApplicationDescriptorView};
use crate::extensions::{
    has_portability_pair, ExtensionNameSet, ResolvedExtensions, ResolvedExtensionsView,
};
use crate::layers::{requested_layer_names, requested_layers};
use crate::names::names_of;
use crate::vulkan::{
    debug_utils_extension, default_instance_create_bits, enumerate_portability_bits,
};

verus! {

/// The creation flag that asks for portability implementations to be
/// enumerated.
pub open spec fn enumerate_portability_flag() -> u32 {
    0x1
}

/// What an [`InstanceRequest`] holds, as plain values.
pub struct InstanceRequestView {
    pub application: ApplicationDescriptorView,
    pub extensions: Seq<Seq<char>>,
    pub layers: Seq<Seq<char>>,
    pub debug: Option<DebugMasks>,
    pub flags: u32,
}

impl InstanceRequestView {
    /// Whether the request asks for portability implementations to be
    /// enumerated.
    pub open spec fn enumerates_portability(self) -> bool {
        self.flags & enumerate_portability_flag() != 0
    }

    /// The rules that every request obeys: no extension is named twice; a
    /// debug configuration is attached only together with layers and with
    /// the debug utilities, and it reports something; the portability flag
    /// is never set without both portability extensions.
    pub open spec fn well_formed(self) -> bool {
        &&& self.extensions.no_duplicates()
        &&& self.debug is Some <==> self.layers.len() > 0
        &&& self.debug matches Some(masks) ==> reports_something(masks)
        &&& self.debug is Some ==> self.extensions.contains(debug_utils_extension())
        &&& self.enumerates_portability() ==> has_portability_pair(self.extensions)
    }
}

/// The creation flags: the portability flag where the extensions were
/// resolved for a portability platform, none elsewhere.
pub open spec fn creation_flags(portability_subset: bool) -> u32 {
    if portability_subset {
        enumerate_portability_flag()
    } else {
        0
    }
}

/// The request made of the given parts. The requested layers and the debug
/// configuration chosen by `options` are attached exactly if the extensions
/// were resolved with validation enabled.
pub open spec fn request_of(
    options: DebugOptions,
    application: ApplicationDescriptorView,
    extensions: ResolvedExtensionsView,
) -> InstanceRequestView {
    InstanceRequestView {
        application,
        extensions: extensions.names,
        layers: if extensions.validation_enabled {
            requested_layer_names()
        } else {
            Seq::empty()
        },
        debug: if extensions.validation_enabled {
            Some(debug_masks(options))
        } else {
            None
        },
        flags: creation_flags(extensions.portability_subset),
    }
}

/// What holds of every request made by [`request_of`]: layers and debug
/// configuration are attached together, exactly if the extensions were
/// resolved with validation enabled; an attached configuration reports
/// something; the portability flag is set exactly if the extensions were
/// resolved for a portability platform; and the request is well formed
/// wherever its extensions are.
pub proof fn lemma_request_of(
    options: DebugOptions,
    application: ApplicationDescriptorView,
    extensions: ResolvedExtensionsView,
)
    ensures
        ({
            let request = request_of(options, application, extensions);
            &&& request.debug is Some <==> extensions.validation_enabled
            &&& request.layers.len() > 0 <==> extensions.validation_enabled
            &&& request.debug matches Some(masks) ==> reports_something(masks)
            &&& request.enumerates_portability() <==> extensions.portability_subset
            &&& extensions.well_formed() ==> request.well_formed()
        }),
{
    lemma_debug_masks(options);
    assert(0u32 & 0x1u32 == 0) by (bit_vector);
    assert(0x1u32 & 0x1u32 != 0) by (bit_vector);
}

/// A request for the creation of an instance.
///
/// The debug configuration travels inside the request, so that the runtime
/// can report what goes wrong during the creation itself.
#[derive(Debug)]
pub struct InstanceRequest {
    application: ApplicationDescriptor,
    extensions: ExtensionNameSet,
    layers: Vec<String>,
    debug: Option<DebugMessengerConfiguration>,
    flags: u32,
}

impl View for InstanceRequest {
    type V = InstanceRequestView;

    closed spec fn view(&self) -> InstanceRequestView {
        InstanceRequestView {
            application: self.application@,
            extensions: self.extensions@,
            layers: names_of(self.layers@),
            debug: match self.debug {
                Some(config) => Some(config@),
                None => None,
            },
            flags: self.flags,
        }
    }
}

impl InstanceRequest {
    /// The request obeys the rules of [`InstanceRequestView::well_formed`].
    /// This holds of every request.
    #[verifier::type_invariant]
    pub open spec fn paired(self) -> bool {
        self@.well_formed()
    }

    /// The application descriptor.
    pub fn application(&self) -> (application: &ApplicationDescriptor)
        ensures
            application@ == self@.application,
    {
        &self.application
    }

    /// The extensions to enable.
    pub fn extensions(&self) -> (extensions: &ExtensionNameSet)
        ensures
            extensions@ == self@.extensions,
    {
        &self.extensions
    }

    /// The layers to enable: none unless validation is enabled.
    pub fn layers(&self) -> (layers: &Vec<String>)
        ensures
            names_of(layers@) == self@.layers,
    {
        &self.layers
    }

    /// The debug configuration that is chained into the creation call, if
    /// any. Where there is one, it reports something, and the debug
    /// utilities are among the extensions.
    pub fn debug(&self) -> (debug: Option<DebugMessengerConfiguration>)
        ensures
            debug is Some <==> self@.debug is Some,
            debug matches Some(config) ==> self@.debug == Some(config@) && reports_something(
                config@,
            ),
            debug is Some ==> self@.extensions.contains(debug_utils_extension()),
    {
        proof {
            use_type_invariant(self);
        }
        self.debug
    }

    /// The creation flags.
    pub fn flags(&self) -> (flags: u32)
        ensures
            flags == self@.flags,
    {
        self.flags
    }

    /// Whether the request asks for portability implementations to be
    /// enumerated. Where it does, both portability extensions are among its
    /// extensions.
    pub fn enumerates_portability(&self) -> (set: bool)
        ensures
            set == self@.enumerates_portability(),
            set ==> has_portability_pair(self@.extensions),
    {
        proof {
            use_type_invariant(self);
        }
        self.flags & enumerate_portability_bits() != 0
    }
}

/// Puts the request together: the descriptor, the resolved extensions, the
/// creation flags that go with them and, if the extensions were resolved
/// with validation enabled, the requested layers and the debug
/// configuration chosen by `options`.
///
/// The debug configuration is computed in any case and attached only under
/// validation.
pub fn assemble_request(
    options: DebugOptions,
    application: ApplicationDescriptor,
    extensions: ResolvedExtensions,
) -> (request: InstanceRequest)
    ensures
        request@ == request_of(options, application@, extensions@),
        request@.well_formed(),
{
    let built = build_debug_config(options);
    let (layers, debug) = if extensions.validation_enabled() {
        (requested_layers(), Some(built))
    } else {
        (Vec::new(), None)
    };
    let flags = if extensions.portability_subset() {
        enumerate_portability_bits()
    } else {
        default_instance_create_bits()
    };
    proof {
        assert(names_of(Seq::<String>::empty()) =~= Seq::<Seq<char>>::empty());
        use_type_invariant(&extensions);
        lemma_request_of(options, application@, extensions@);
    }
    InstanceRequest { application, extensions: extensions.into_names(), layers, debug, flags }
}

} // verus!
