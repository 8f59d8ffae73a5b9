//! The factory name set: the functions whose calls make a declaration worth
//! a debug label.

use vstd::prelude::*;

verus! {

/// The factory names, in their fixed order.
pub open spec fn atom_imports() -> Seq<Seq<char>> {
    seq![
        "atom"@,
        "atomFamily"@,
        "atomWithDefault"@,
        "atomWithObservable"@,
        "atomWithReducer"@,
        "atomWithReset"@,
        "atomWithStorage"@,
        "freezeAtom"@,
        "loadable"@,
        "selectAtom"@,
        "splitAtom"@,
    ]
}

/// Whether `name` is one of the factory names.
pub fn is_atom_import(name: &str) -> (found: bool)
    ensures
        found == atom_imports().contains(name@),
{
    let names: [&str; 11] = [
        "atom",
        "atomFamily",
        "atomWithDefault",
        "atomWithObservable",
        "atomWithReducer",
        "atomWithReset",
        "atomWithStorage",
        "freezeAtom",
        "loadable",
        "selectAtom",
        "splitAtom",
    ];
    assert(names@.map_values(|s: &str| s@) =~= atom_imports());
    let wanted = name.to_owned();
    let mut i: usize = 0;
    while i < 11
        invariant
            0 <= i <= 11,
            wanted@ == name@,
            names@.map_values(|s: &str| s@) == atom_imports(),
            forall|j: int| 0 <= j < i ==> atom_imports()[j] != name@,
        decreases 11 - i,
    {
        let candidate = names[i].to_owned();
        if candidate == wanted {
            assert(atom_imports()[i as int] == name@);
            return true;
        }
        i += 1;
    }
    false
}

} // verus!
