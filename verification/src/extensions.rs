//! The instance extensions to enable: what the windowing system requires,
//! then the debug utilities where validation is on, then the portability
//! pair where the platform calls for it, each name once.

use vstd::prelude::*;
use crate::config::PlatformCapabilities;
use crate::error::{BootstrapError, DisplayBackendUnavailable};
use crate::names::{
    contains_name, first_occurrences, is_prefix_of, lemma_first_occurrences_distinct,
    lemma_first_occurrences_extends, lemma_first_occurrences_len,
    lemma_first_occurrences_members, lemma_first_occurrences_of_distinct,
    lemma_first_occurrences_push, lemma_push_members, names_of,
};
use crate::vulkan::{
    debug_utils_extension, debug_utils_extension_name, lemma_extension_names_differ,
    physical_device_properties2_extension, physical_device_properties2_extension_name,
    portability_enumeration_extension, portability_enumeration_extension_name,
};

verus! {

/// An ordered list of extension names in which no name occurs twice.
#[derive(Debug)]
pub struct ExtensionNameSet {
    names: Vec<String>,
}

impl View for ExtensionNameSet {
    type V = Seq<Seq<char>>;

    closed spec fn view(&self) -> Seq<Seq<char>> {
        names_of(self.names@)
    }
}

impl ExtensionNameSet {
    /// No name occurs twice. This holds of every list.
    #[verifier::type_invariant]
    pub open spec fn distinct(self) -> bool {
        self@.no_duplicates()
    }

    /// The empty list.
    pub fn new() -> (set: Self)
        ensures
            set@ == Seq::<Seq<char>>::empty(),
    {
        let set = ExtensionNameSet { names: Vec::new() };
        assert(set@ =~= Seq::<Seq<char>>::empty());
        set
    }

    /// Appends `name` unless the list already holds it; says whether it was
    /// appended. The names already held keep their places.
    pub fn insert(&mut self, name: String) -> (added: bool)
        ensures
            added == !old(self)@.contains(name@),
            final(self)@ == if added {
                old(self)@.push(name@)
            } else {
                old(self)@
            },
    {
        proof {
            use_type_invariant(&*self);
        }
        if contains_name(&self.names, &name) {
            false
        } else {
            let mut names: Vec<String> = Vec::new();
            core::mem::swap(&mut self.names, &mut names);
            let ghost before = names@;
            names.push(name);
            assert(names_of(names@) =~= names_of(before).push(name@));
            self.names = names;
            true
        }
    }

    /// Whether `name` is in the list.
    pub fn contains(&self, name: &String) -> (found: bool)
        ensures
            found == self@.contains(name@),
    {
        contains_name(&self.names, name)
    }

    /// How many names the list holds.
    pub fn len(&self) -> (count: usize)
        ensures
            count == self@.len(),
    {
        self.names.len()
    }

    /// The names in order. No two of them are equal.
    pub fn names(&self) -> (names: &Vec<String>)
        ensures
            names_of(names@) == self@,
            self@.no_duplicates(),
    {
        proof {
            use_type_invariant(self);
        }
        &self.names
    }

    /// The list of the names in `candidates`, each at the place where it
    /// first occurs.
    pub fn from_candidates(candidates: &Vec<String>) -> (set: Self)
        ensures
            set@ == first_occurrences(names_of(candidates@)),
    {
        let mut set = ExtensionNameSet::new();
        let mut i: usize = 0;
        assert(names_of(candidates@).take(0) =~= Seq::<Seq<char>>::empty());
        while i < candidates.len()
            invariant
                i <= candidates.len(),
                set@ == first_occurrences(names_of(candidates@).take(i as int)),
            decreases candidates.len() - i,
        {
            let name = candidates[i].clone();
            proof {
                let all = names_of(candidates@);
                assert(all.take(i + 1) =~= all.take(i as int).push(name@));
                lemma_first_occurrences_push(all.take(i as int), name@);
            }
            set.insert(name);
            i += 1;
        }
        assert(names_of(candidates@).take(i as int) =~= names_of(candidates@));
        set
    }
}

/// Both names of the portability pair are among `extensions`.
pub open spec fn has_portability_pair(extensions: Seq<Seq<char>>) -> bool {
    extensions.contains(portability_enumeration_extension()) && extensions.contains(
        physical_device_properties2_extension(),
    )
}

/// What a [`ResolvedExtensions`] holds, as plain values.
pub struct ResolvedExtensionsView {
    pub names: Seq<Seq<char>>,
    pub validation_enabled: bool,
    pub portability_subset: bool,
}

impl ResolvedExtensionsView {
    /// No name occurs twice; names resolved with validation enabled hold
    /// the debug utilities; names resolved for a portability platform hold
    /// the portability pair.
    pub open spec fn well_formed(self) -> bool {
        &&& self.names.no_duplicates()
        &&& self.validation_enabled ==> self.names.contains(debug_utils_extension())
        &&& self.portability_subset ==> has_portability_pair(self.names)
    }
}

/// The extensions settled for an instance, together with the settings they
/// were settled for. The three stay together so that, in a request, the
/// debug configuration can never part from the debug utilities, nor the
/// portability flag from the portability extensions.
#[derive(Debug)]
pub struct ResolvedExtensions {
    names: ExtensionNameSet,
    validation_enabled: bool,
    portability_subset: bool,
}

impl View for ResolvedExtensions {
    type V = ResolvedExtensionsView;

    closed spec fn view(&self) -> ResolvedExtensionsView {
        ResolvedExtensionsView {
            names: self.names@,
            validation_enabled: self.validation_enabled,
            portability_subset: self.portability_subset,
        }
    }
}

impl ResolvedExtensions {
    /// The value obeys [`ResolvedExtensionsView::well_formed`]. This holds
    /// of every value.
    #[verifier::type_invariant]
    pub open spec fn paired(self) -> bool {
        self@.well_formed()
    }

    /// The names, in order.
    pub fn names(&self) -> (names: &ExtensionNameSet)
        ensures
            names@ == self@.names,
    {
        &self.names
    }

    /// Whether the names were resolved with validation enabled. Where they
    /// were, the debug utilities are among them.
    pub fn validation_enabled(&self) -> (validation: bool)
        ensures
            validation == self@.validation_enabled,
            validation ==> self@.names.contains(debug_utils_extension()),
    {
        proof {
            use_type_invariant(self);
        }
        self.validation_enabled
    }

    /// Whether the names were resolved for a portability platform. Where
    /// they were, both portability names are among them.
    pub fn portability_subset(&self) -> (portability: bool)
        ensures
            portability == self@.portability_subset,
            portability ==> has_portability_pair(self@.names),
    {
        proof {
            use_type_invariant(self);
        }
        self.portability_subset
    }

    /// Gives up the names.
    pub fn into_names(self) -> (names: ExtensionNameSet)
        ensures
            names@ == self@.names,
    {
        self.names
    }
}

/// The names considered for an instance, in the order of consideration:
/// those that the windowing system requires; the debug utilities if
/// validation is enabled; the portability enumeration and the extension it
/// presupposes if the platform offers the portability subset.
pub open spec fn extension_candidates(
    required: Seq<Seq<char>>,
    validation_enabled: bool,
    portability_subset: bool,
) -> Seq<Seq<char>> {
    let with_debug = if validation_enabled {
        required.push(debug_utils_extension())
    } else {
        required
    };
    if portability_subset {
        with_debug.push(portability_enumeration_extension()).push(
            physical_device_properties2_extension(),
        )
    } else {
        with_debug
    }
}

/// The extensions to enable: the candidates, each once, at the place where
/// it first occurs among them.
pub open spec fn resolved_extensions(
    required: Seq<Seq<char>>,
    validation_enabled: bool,
    portability_subset: bool,
) -> Seq<Seq<char>> {
    first_occurrences(extension_candidates(required, validation_enabled, portability_subset))
}

/// How many names are added to those that the windowing system requires.
pub open spec fn added_count(validation_enabled: bool, portability_subset: bool) -> nat {
    (if validation_enabled {
        1nat
    } else {
        0nat
    }) + (if portability_subset {
        2nat
    } else {
        0nat
    })
}

/// The candidates are the required names followed by the added ones.
pub proof fn lemma_candidates(
    required: Seq<Seq<char>>,
    validation_enabled: bool,
    portability_subset: bool,
)
    ensures
        ({
            let candidates = extension_candidates(
                required,
                validation_enabled,
                portability_subset,
            );
            &&& candidates.len() == required.len() + added_count(
                validation_enabled,
                portability_subset,
            )
            &&& candidates.take(required.len() as int) == required
            &&& forall|name: Seq<char>| #[trigger]
                candidates.contains(name) <==> {
                    ||| required.contains(name)
                    ||| validation_enabled && name == debug_utils_extension()
                    ||| portability_subset && name == portability_enumeration_extension()
                    ||| portability_subset && name == physical_device_properties2_extension()
                }
        }),
{
    let with_debug = extension_candidates(required, validation_enabled, false);
    let candidates = extension_candidates(required, validation_enabled, portability_subset);
    lemma_push_members(required, debug_utils_extension());
    lemma_push_members(with_debug, portability_enumeration_extension());
    lemma_push_members(
        with_debug.push(portability_enumeration_extension()),
        physical_device_properties2_extension(),
    );
    assert(candidates.take(required.len() as int) =~= required);
}

/// Resolution is a function of its inputs: equal required names, under the
/// same validation setting and on the same platform, give the same
/// extensions in the same order.
pub proof fn resolution_is_deterministic(
    first: Seq<Seq<char>>,
    second: Seq<Seq<char>>,
    validation_enabled: bool,
    portability_subset: bool,
)
    requires
        first =~= second,
    ensures
        resolved_extensions(first, validation_enabled, portability_subset) == resolved_extensions(
            second,
            validation_enabled,
            portability_subset,
        ),
{
}

/// No name occurs twice among the resolved extensions, and there are at most
/// as many of them as there were candidates.
pub proof fn resolution_has_no_repeats(
    required: Seq<Seq<char>>,
    validation_enabled: bool,
    portability_subset: bool,
)
    ensures
        resolved_extensions(required, validation_enabled, portability_subset).no_duplicates(),
        resolved_extensions(required, validation_enabled, portability_subset).len()
            <= required.len() + added_count(validation_enabled, portability_subset),
{
    let candidates = extension_candidates(required, validation_enabled, portability_subset);
    lemma_candidates(required, validation_enabled, portability_subset);
    lemma_first_occurrences_distinct(candidates);
    lemma_first_occurrences_len(candidates);
}

/// A name is among the resolved extensions exactly if the windowing system
/// requires it, or it is the debug utilities and validation is enabled, or
/// it is one of the portability pair and the platform offers the
/// portability subset.
pub proof fn resolution_members(
    required: Seq<Seq<char>>,
    validation_enabled: bool,
    portability_subset: bool,
    name: Seq<char>,
)
    ensures
        resolved_extensions(required, validation_enabled, portability_subset).contains(name) <==> {
            ||| required.contains(name)
            ||| validation_enabled && name == debug_utils_extension()
            ||| portability_subset && name == portability_enumeration_extension()
            ||| portability_subset && name == physical_device_properties2_extension()
        },
{
    let candidates = extension_candidates(required, validation_enabled, portability_subset);
    lemma_candidates(required, validation_enabled, portability_subset);
    lemma_first_occurrences_members(candidates);
    assert(first_occurrences(candidates).contains(name) <==> candidates.contains(name));
}

/// Unless the windowing system itself requires the debug utilities, they are
/// among the resolved extensions exactly if validation is enabled.
pub proof fn resolution_adds_debug_utils_for_validation(
    required: Seq<Seq<char>>,
    validation_enabled: bool,
    portability_subset: bool,
)
    requires
        !required.contains(debug_utils_extension()),
    ensures
        resolved_extensions(required, validation_enabled, portability_subset).contains(
            debug_utils_extension(),
        ) <==> validation_enabled,
{
    lemma_extension_names_differ();
    resolution_members(required, validation_enabled, portability_subset, debug_utils_extension());
}

/// On a portability platform the resolved extensions hold the portability
/// enumeration and the extension it presupposes, both: never one without
/// the other.
pub proof fn resolution_pairs_portability(required: Seq<Seq<char>>, validation_enabled: bool)
    ensures
        resolved_extensions(required, validation_enabled, true).contains(
            portability_enumeration_extension(),
        ),
        resolved_extensions(required, validation_enabled, true).contains(
            physical_device_properties2_extension(),
        ),
        resolved_extensions(required, validation_enabled, true).contains(
            portability_enumeration_extension(),
        ) <==> resolved_extensions(required, validation_enabled, true).contains(
            physical_device_properties2_extension(),
        ),
{
    resolution_members(required, validation_enabled, true, portability_enumeration_extension());
    resolution_members(
        required,
        validation_enabled,
        true,
        physical_device_properties2_extension(),
    );
}

/// The required names keep their order and stay in front: what is added
/// comes behind them.
pub proof fn resolution_keeps_required_first(
    required: Seq<Seq<char>>,
    validation_enabled: bool,
    portability_subset: bool,
)
    ensures
        is_prefix_of(
            first_occurrences(required),
            resolved_extensions(required, validation_enabled, portability_subset),
        ),
{
    let candidates = extension_candidates(required, validation_enabled, portability_subset);
    lemma_candidates(required, validation_enabled, portability_subset);
    let added = candidates.skip(required.len() as int);
    assert(candidates =~= required + added);
    lemma_first_occurrences_extends(required, added);
}

/// Where no candidate repeats, nothing is dropped: the resolved extensions
/// are the required names followed by the added ones.
pub proof fn resolution_of_distinct_candidates(
    required: Seq<Seq<char>>,
    validation_enabled: bool,
    portability_subset: bool,
)
    requires
        extension_candidates(required, validation_enabled, portability_subset).no_duplicates(),
    ensures
        resolved_extensions(required, validation_enabled, portability_subset)
            == extension_candidates(required, validation_enabled, portability_subset),
        resolved_extensions(required, validation_enabled, portability_subset).len()
            == required.len() + added_count(validation_enabled, portability_subset),
{
    lemma_candidates(required, validation_enabled, portability_subset);
    lemma_first_occurrences_of_distinct(
        extension_candidates(required, validation_enabled, portability_subset),
    );
}

/// Resolving what was resolved changes nothing.
pub proof fn resolution_is_stable(
    required: Seq<Seq<char>>,
    validation_enabled: bool,
    portability_subset: bool,
)
    ensures
        resolved_extensions(
            resolved_extensions(required, validation_enabled, portability_subset),
            validation_enabled,
            portability_subset,
        ) == resolved_extensions(required, validation_enabled, portability_subset),
{
    let resolved = resolved_extensions(required, validation_enabled, portability_subset);
    resolution_has_no_repeats(required, validation_enabled, portability_subset);
    resolution_members(required, validation_enabled, portability_subset, debug_utils_extension());
    resolution_members(
        required,
        validation_enabled,
        portability_subset,
        portability_enumeration_extension(),
    );
    resolution_members(
        required,
        validation_enabled,
        portability_subset,
        physical_device_properties2_extension(),
    );
    lemma_first_occurrences_of_distinct(resolved);
    let with_debug = extension_candidates(resolved, validation_enabled, false);
    lemma_first_occurrences_push(resolved, debug_utils_extension());
    lemma_first_occurrences_push(with_debug, portability_enumeration_extension());
    lemma_first_occurrences_push(
        with_debug.push(portability_enumeration_extension()),
        physical_device_properties2_extension(),
    );
}

/// What [`resolve_extensions`] makes of the names that the windowing system
/// reported.
pub open spec fn resolution(
    required: Seq<Seq<char>>,
    validation_enabled: bool,
    portability_subset: bool,
) -> ResolvedExtensionsView {
    ResolvedExtensionsView {
        names: resolved_extensions(required, validation_enabled, portability_subset),
        validation_enabled,
        portability_subset,
    }
}

/// Every resolution is well formed.
pub proof fn resolution_is_well_formed(
    required: Seq<Seq<char>>,
    validation_enabled: bool,
    portability_subset: bool,
)
    ensures
        resolution(required, validation_enabled, portability_subset).well_formed(),
{
    resolution_has_no_repeats(required, validation_enabled, portability_subset);
    resolution_members(required, validation_enabled, portability_subset, debug_utils_extension());
    if portability_subset {
        resolution_pairs_portability(required, validation_enabled);
    }
}

/// Settles the extensions of an instance from what the windowing system
/// reported.
///
/// A failed report is passed on as
/// [`BootstrapError::DisplayBackendUnavailable`]; no list is made up in its
/// place. Otherwise the names are [`resolved_extensions`] of the reported
/// ones: free of repeats, with validation enabled holding the debug
/// utilities, and on a portability platform holding both portability names.
pub fn resolve_extensions(
    reported: Result<Vec<String>, DisplayBackendUnavailable>,
    validation_enabled: bool,
    platform: PlatformCapabilities,
) -> (resolved: Result<ResolvedExtensions, BootstrapError>)
    ensures
        reported is Err ==> resolved == Err::<ResolvedExtensions, BootstrapError>(
            BootstrapError::DisplayBackendUnavailable,
        ),
        reported matches Ok(required) ==> {
            &&& resolved matches Ok(extensions)
            &&& extensions@ == resolution(
                names_of(required@),
                validation_enabled,
                platform.portability_subset,
            )
            &&& extensions@.names.no_duplicates()
            &&& validation_enabled ==> extensions@.names.contains(debug_utils_extension())
            &&& platform.portability_subset ==> has_portability_pair(extensions@.names)
        },
{
    match reported {
        Err(_) => Err(BootstrapError::DisplayBackendUnavailable),
        Ok(required) => {
            let mut names = ExtensionNameSet::from_candidates(&required);
            let ghost base = names_of(required@);
            if validation_enabled {
                proof {
                    lemma_first_occurrences_push(base, debug_utils_extension());
                }
                names.insert(debug_utils_extension_name());
            }
            if platform.portability_subset {
                let ghost with_debug = extension_candidates(base, validation_enabled, false);
                proof {
                    lemma_first_occurrences_push(with_debug, portability_enumeration_extension());
                    lemma_first_occurrences_push(
                        with_debug.push(portability_enumeration_extension()),
                        physical_device_properties2_extension(),
                    );
                }
                names.insert(portability_enumeration_extension_name());
                names.insert(physical_device_properties2_extension_name());
            }
            proof {
                resolution_is_well_formed(base, validation_enabled, platform.portability_subset);
            }
            Ok(
                ResolvedExtensions {
                    names,
                    validation_enabled,
                    portability_subset: platform.portability_subset,
                },
            )
        },
    }
}

} // verus!
