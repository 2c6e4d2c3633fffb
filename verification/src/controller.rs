use vstd::prelude::*;
use vstd::hash_set::StringHashSet;
use vstd::string::*;

pub mod pod;

verus! {

/// Name of the controller that keeps pod labels in line with node topology.
pub const POD_LOCALITY: &'static str = "podLocality";

/// Requested name that stands for every controller.
pub const WILDCARD: &'static str = "*";

/// What precedes a controller's name to exclude it.
pub const EXCLUSION_PREFIX: &'static str = "-";

/// A list of names, each by its view.
pub open spec fn names_view(names: Seq<String>) -> Seq<Seq<char>> {
    Seq::new(names.len(), |i: int| names[i]@)
}

/// The names of the controllers that exist, in the order of the table.
pub open spec fn registry() -> Seq<Seq<char>> {
    seq![POD_LOCALITY@]
}

/// Whether the set of requested names selects the controller `name`: it is
/// asked for, as itself or by the wildcard, and not excluded.
pub open spec fn is_enabled(requested: Set<Seq<char>>, name: Seq<char>) -> bool {
    (requested.contains(WILDCARD@) || requested.contains(name)) && !requested.contains(
        EXCLUSION_PREFIX@ + name,
    )
}

/// [`is_enabled`] for a fixed set of requested names, as a predicate on a name.
pub open spec fn enabled_by(requested: Set<Seq<char>>) -> spec_fn(Seq<char>) -> bool {
    |name: Seq<char>| is_enabled(requested, name)
}

/// The set of the names in a list.
pub open spec fn name_set(names: Seq<String>) -> Set<Seq<char>> {
    names_view(names).to_set()
}

/// The table of the controllers that exist: their names.
pub fn all_controllers() -> (names: Vec<String>)
    ensures
        names_view(names@) == registry(),
{
    let mut names: Vec<String> = Vec::new();
    names.push(String::from_str(POD_LOCALITY));
    names
}

/// Collects the requested names into a set.
fn requested_ids(names: &Vec<String>) -> (ids: StringHashSet)
    ensures
        ids@ == name_set(names@),
{
    let mut ids = StringHashSet::new();
    let mut i: usize = 0;
    while i < names.len()
        invariant
            i <= names.len(),
            ids@ =~= names_view(names@).take(i as int).to_set(),
        decreases names.len() - i,
    {
        ids.insert(names[i].clone());
        proof {
            let before = names_view(names@).take(i as int);
            let after = names_view(names@).take(i + 1);
            assert(after =~= before.push(names[i as int]@));
            assert forall|name: Seq<char>|
                after.contains(name) <==> before.contains(name) || name == names[i as int]@ by {
                if before.contains(name) {
                    let j = choose|j: int| 0 <= j < before.len() && before[j] == name;
                    assert(after[j] == name);
                }
                if name == names[i as int]@ {
                    assert(after[i as int] == name);
                }
            }
        }
        i += 1;
    }
    assert(names_view(names@).take(i as int) =~= names_view(names@));
    ids
}

/// Whether a set of requested names selects the controller `name`.
fn enabled_in(ids: &StringHashSet, name: &String) -> (enabled: bool)
    ensures
        enabled == is_enabled(ids@, name@),
{
    let excluded = String::from_str(EXCLUSION_PREFIX).concat(name.as_str());
    (ids.contains(WILDCARD) || ids.contains(name.as_str())) && !ids.contains(excluded.as_str())
}

/// Whether the requested names select the controller `name`.
pub fn controller_enabled(requested: &Vec<String>, name: &String) -> (enabled: bool)
    ensures
        enabled == is_enabled(name_set(requested@), name@),
{
    let ids = requested_ids(requested);
    enabled_in(&ids, name)
}

/// The controllers of `table` that the requested names select, in the table's
/// order.
pub fn select_controllers(table: &Vec<String>, requested: &Vec<String>) -> (selected: Vec<String>)
    ensures
        names_view(selected@) == names_view(table@).filter(enabled_by(name_set(requested@))),
{
    let ids = requested_ids(requested);
    let ghost pred = enabled_by(name_set(requested@));
    let mut selected: Vec<String> = Vec::new();
    let mut i: usize = 0;
    proof {
        reveal(Seq::filter);
    }
    while i < table.len()
        invariant
            i <= table.len(),
            ids@ == name_set(requested@),
            pred == enabled_by(name_set(requested@)),
            names_view(selected@) == names_view(table@).take(i as int).filter(pred),
        decreases table.len() - i,
    {
        if enabled_in(&ids, &table[i]) {
            selected.push(table[i].clone());
        }
        proof {
            reveal(Seq::filter);
            let next = names_view(table@).take(i + 1);
            assert(next.drop_last() =~= names_view(table@).take(i as int));
        }
        i += 1;
    }
    assert(names_view(table@).take(i as int) =~= names_view(table@));
    selected
}

/// The controllers to launch for the requested names: those of the table that
/// the names select.
pub fn enabled_controllers(enabled_controllers_name: &Vec<String>) -> (enabled: Vec<String>)
    ensures
        names_view(enabled@) == registry().filter(
            enabled_by(name_set(enabled_controllers_name@)),
        ),
{
    let table = all_controllers();
    select_controllers(&table, enabled_controllers_name)
}

/// A controller of a table is selected exactly when the table holds it and the
/// requested names enable it: an exclusion wins over the wildcard and over the
/// name itself.
pub proof fn selected_iff_enabled(
    table: Seq<Seq<char>>,
    requested: Set<Seq<char>>,
    name: Seq<char>,
)
    ensures
        table.filter(enabled_by(requested)).contains(name) <==> table.contains(name) && is_enabled(
            requested,
            name,
        ),
    decreases table.len(),
{
    reveal(Seq::filter);
    if table.len() > 0 {
        let pred = enabled_by(requested);
        let kept = table.filter(pred);
        let rest = table.drop_last();
        let kept_rest = rest.filter(pred);
        selected_iff_enabled(rest, requested, name);
        if kept.contains(name) {
            // Either the rest of the table gave it, or it is the last entry.
            let i = choose|i: int| 0 <= i < kept.len() && kept[i] == name;
            if i < kept_rest.len() {
                assert(kept_rest.contains(name));
                let j = choose|j: int| 0 <= j < rest.len() && rest[j] == name;
                assert(table[j] == name);
            } else {
                assert(table.last() == name);
            }
        }
        if table.contains(name) && is_enabled(requested, name) {
            let j = choose|j: int| 0 <= j < table.len() && table[j] == name;
            if j < rest.len() {
                assert(rest[j] == name);
                let i = choose|i: int| 0 <= i < kept_rest.len() && kept_rest[i] == name;
                assert(kept[i] == name);
            } else {
                assert(kept.last() == name);
            }
        }
    }
}

/// The controller that keeps pod labels in line is launched exactly when the
/// requested names enable it, and nothing else is ever launched.
pub proof fn launched_iff_enabled(requested: Set<Seq<char>>, name: Seq<char>)
    ensures
        registry().filter(enabled_by(requested)).contains(name) <==> name == POD_LOCALITY@
            && is_enabled(requested, name),
{
    selected_iff_enabled(registry(), requested, name);
    assert(registry()[0] == POD_LOCALITY@);
}

} // verus!
