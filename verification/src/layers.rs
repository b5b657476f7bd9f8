//! Choice of the validation layers to enable.

use vstd::prelude::*;
use vstd::string::StringExecFns;

verus! {

/// A layer name is wanted when it is one of the two validation layers:
/// the older combined one or the current one.
pub open spec fn is_wanted(name: Seq<char>) -> bool {
    name == "VK_LAYER_LUNARG_standard_validation"@ || name == "VK_LAYER_KHRONOS_validation"@
}

/// The names behind a list of strings.
pub open spec fn names_of(layers: Seq<String>) -> Seq<Seq<char>> {
    layers.map_values(|s: String| s@)
}

/// The wanted names among `available`, in the order they are listed, each
/// as often as it is listed.
pub open spec fn wanted_among(available: Seq<Seq<char>>) -> Seq<Seq<char>> {
    available.filter(|name: Seq<char>| is_wanted(name))
}

/// Tells whether `name` is a validation layer that should be enabled.
pub fn is_validation_layer(name: &String) -> (wanted: bool)
    ensures
        wanted == is_wanted(name@),
{
    let older = String::from_str("VK_LAYER_LUNARG_standard_validation");
    let current = String::from_str("VK_LAYER_KHRONOS_validation");
    *name == older || *name == current
}

/// Keeps, of the layers the system offers, those that should be enabled.
pub fn enabled_layers(available: &Vec<String>) -> (enabled: Vec<String>)
    ensures
        names_of(enabled@) == wanted_among(names_of(available@)),
{
    let ghost pred = |name: Seq<char>| is_wanted(name);
    let mut enabled: Vec<String> = Vec::new();
    let mut i: usize = 0;
    proof {
        reveal(Seq::filter);
    }
    while i < available.len()
        invariant
            i <= available.len(),
            pred == (|name: Seq<char>| is_wanted(name)),
            names_of(enabled@) == names_of(available@).subrange(0, i as int).filter(pred),
        decreases available.len() - i,
    {
        let ghost before = names_of(available@).subrange(0, i as int);
        if is_validation_layer(&available[i]) {
            let name = available[i].clone();
            enabled.push(name);
        }
        proof {
            let after = names_of(available@).subrange(0, i + 1);
            assert(after.drop_last() =~= before);
            reveal(Seq::filter);
        }
        i += 1;
    }
    assert(names_of(available@).subrange(0, i as int) =~= names_of(available@));
    enabled
}

} // verus!
