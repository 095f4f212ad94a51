//! Validation layers: which are requested, and whether the system has them.

use vstd::prelude::*;
use crate::names::{contains_name, names_of};

verus! {

/// Name of the standard validation layer.
pub open spec fn validation_layer() -> Seq<char> {
    "VK_LAYER_KHRONOS_validation"@
}

/// The layers requested when validation is enabled.
pub open spec fn requested_layer_names() -> Seq<Seq<char>> {
    seq![validation_layer()]
}

/// Every requested name is among the installed ones.
pub open spec fn all_installed(requested: Seq<Seq<char>>, installed: Seq<Seq<char>>) -> bool {
    requested.to_set().subset_of(installed.to_set())
}

/// `index` is the place of the first requested name that is not installed.
pub open spec fn is_first_missing(
    requested: Seq<Seq<char>>,
    installed: Seq<Seq<char>>,
    index: int,
) -> bool {
    &&& 0 <= index < requested.len()
    &&& !installed.contains(requested[index])
    &&& forall|k: int| 0 <= k < index ==> installed.contains(#[trigger] requested[k])
}

/// The requested names, one by one, are installed exactly if, as a set, they
/// are part of the installed set.
pub proof fn lemma_all_installed(requested: Seq<Seq<char>>, installed: Seq<Seq<char>>)
    ensures
        all_installed(requested, installed) <==> forall|k: int|
            0 <= k < requested.len() ==> installed.contains(#[trigger] requested[k]),
{
    if all_installed(requested, installed) {
        assert forall|k: int| 0 <= k < requested.len() implies installed.contains(
            #[trigger] requested[k],
        ) by {
            assert(requested.contains(requested[k]));
            assert(requested.to_set().contains(requested[k]));
            assert(installed.to_set().contains(requested[k]));
        }
    }
    if forall|k: int| 0 <= k < requested.len() ==> installed.contains(#[trigger] requested[k]) {
        assert forall|name: Seq<char>|
            requested.to_set().contains(name) implies installed.to_set().contains(name) by {
            assert(requested.contains(name));
            let k = choose|k: int| 0 <= k < requested.len() && requested[k] == name;
            assert(installed.contains(requested[k]));
        }
    }
}

/// The layers to request when validation is enabled: the standard validation
/// layer and no other.
pub fn requested_layers() -> (layers: Vec<String>)
    ensures
        names_of(layers@) == requested_layer_names(),
{
    let mut layers: Vec<String> = Vec::new();
    layers.push("VK_LAYER_KHRONOS_validation".to_owned());
    assert(names_of(layers@) =~= requested_layer_names());
    layers
}

/// The place in `requested` of the first layer that `installed` lacks, if
/// there is one. Names are compared exactly.
pub fn first_unsupported_layer(requested: &Vec<String>, installed: &Vec<String>) -> (missing:
    Option<usize>)
    ensures
        missing is None <==> all_installed(names_of(requested@), names_of(installed@)),
        missing matches Some(index) ==> is_first_missing(
            names_of(requested@),
            names_of(installed@),
            index as int,
        ),
{
    let mut i: usize = 0;
    while i < requested.len()
        invariant
            i <= requested.len(),
            forall|k: int|
                0 <= k < i ==> names_of(installed@).contains(#[trigger] names_of(requested@)[k]),
        decreases requested.len() - i,
    {
        if !contains_name(installed, &requested[i]) {
            proof {
                lemma_all_installed(names_of(requested@), names_of(installed@));
                assert(!names_of(installed@).contains(names_of(requested@)[i as int]));
            }
            return Some(i);
        }
        assert(names_of(requested@)[i as int] == requested[i as int]@);
        i += 1;
    }
    proof {
        lemma_all_installed(names_of(requested@), names_of(installed@));
    }
    None
}

/// Whether the system has every requested layer: true exactly if the
/// requested names form a subset of the installed ones.
pub fn layers_supported(requested: &Vec<String>, installed: &Vec<String>) -> (supported: bool)
    ensures
        supported == all_installed(names_of(requested@), names_of(installed@)),
{
    first_unsupported_layer(requested, installed).is_none()
}

} // verus!
