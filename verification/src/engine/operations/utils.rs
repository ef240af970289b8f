use super::common::UpdateOneDelta;
use crate::public::board::{counts_positive, system_views, StarSystem, StarSystemView};
use crate::public::common::Count;
use std::collections::hash_map::Entry;
use std::hash::Hash;
use vstd::prelude::*;
use vstd::std_specs::hash::{EntrySpecFns, OccupiedEntrySpecFns};

verus! {

broadcast use vstd::std_specs::hash::group_hash_axioms;

/// The count that a ledger slot holds after one update, `None` standing for
/// an absent key: adding to an absent key gives one, adding to 255 changes
/// nothing, removing from one removes the key, removing from an absent key
/// changes nothing.
pub open spec fn updated_count(count: Option<nat>, delta: UpdateOneDelta) -> Option<nat> {
    match (delta, count) {
        (UpdateOneDelta::AddOne, None) => Some(1),
        (UpdateOneDelta::AddOne, Some(n)) => if n < 255 {
            Some(n + 1)
        } else {
            Some(n)
        },
        (UpdateOneDelta::RemoveOne, None) => None,
        (UpdateOneDelta::RemoveOne, Some(n)) => if n > 1 {
            Some((n - 1) as nat)
        } else {
            None
        },
    }
}

/// Whether one update of a ledger slot is refused: adding to a count of 255
/// overflows, and nothing can be removed from an absent key.
pub open spec fn update_refused(count: Option<nat>, delta: UpdateOneDelta) -> bool {
    match delta {
        UpdateOneDelta::AddOne => count == Some(255nat),
        UpdateOneDelta::RemoveOne => count is None,
    }
}

/// The ledger after one update at `key`: the count of `key` is updated, a
/// key whose count would be zero is removed, and no other key changes.
pub open spec fn updated_ledger<K>(ledger: Map<K, nat>, key: K, delta: UpdateOneDelta) -> Map<
    K,
    nat,
> {
    match updated_count(ledger.get(key), delta) {
        Some(count) => ledger.insert(key, count),
        None => ledger.remove(key),
    }
}

/// The ledger after a sequence of updates, each given by its key and its
/// direction, applied from the first to the last.
pub open spec fn ledger_after<K>(ledger: Map<K, nat>, updates: Seq<(K, UpdateOneDelta)>) -> Map<
    K,
    nat,
>
    decreases updates.len(),
{
    if updates.len() == 0 {
        ledger
    } else {
        updated_ledger(
            ledger_after(ledger, updates.drop_last()),
            updates.last().0,
            updates.last().1,
        )
    }
}

/// One update keeps every count of a ledger between 1 and 255, and an update
/// that is refused changes nothing.
pub proof fn lemma_update_keeps_counts_positive<K>(
    ledger: Map<K, nat>,
    key: K,
    delta: UpdateOneDelta,
)
    requires
        counts_positive(ledger),
    ensures
        counts_positive(updated_ledger(ledger, key, delta)),
        update_refused(ledger.get(key), delta) ==> updated_ledger(ledger, key, delta) == ledger,
{
    let after = updated_ledger(ledger, key, delta);
    assert forall|other: K| #[trigger] after.contains_key(other) implies 1 <= after[other]
        <= 255 by {
        if other != key {
            assert(ledger.contains_key(other));
        } else if ledger.contains_key(key) {
            assert(1 <= ledger[key] <= 255);
        }
    }
    if update_refused(ledger.get(key), delta) {
        assert(after =~= ledger);
    }
}

/// Whatever updates a ledger goes through, no key is ever present with a
/// count of zero, and none with a count above 255.
pub proof fn lemma_updates_keep_counts_positive<K>(
    ledger: Map<K, nat>,
    updates: Seq<(K, UpdateOneDelta)>,
)
    requires
        counts_positive(ledger),
    ensures
        counts_positive(ledger_after(ledger, updates)),
    decreases updates.len(),
{
    if updates.len() > 0 {
        lemma_updates_keep_counts_positive(ledger, updates.drop_last());
        lemma_update_keeps_counts_positive(
            ledger_after(ledger, updates.drop_last()),
            updates.last().0,
            updates.last().1,
        );
    }
}

/// Removing one from a key whose count is one removes the key, and leaves
/// every other key as it was.
pub proof fn lemma_removing_the_last_removes_the_key<K>(ledger: Map<K, nat>, key: K)
    requires
        ledger.get(key) == Some(1nat),
    ensures
        !update_refused(ledger.get(key), UpdateOneDelta::RemoveOne),
        updated_ledger(ledger, key, UpdateOneDelta::RemoveOne) == ledger.remove(key),
        !updated_ledger(ledger, key, UpdateOneDelta::RemoveOne).contains_key(key),
{
}

/// Adding one to a key that a ledger lacks, `times` times over, is accepted
/// each time and leaves the key with the count `times`, up to 255; the next
/// addition is then refused and leaves the count at 255.
pub proof fn lemma_adding_fills_up_to_255<K>(ledger: Map<K, nat>, key: K, times: nat)
    requires
        !ledger.contains_key(key),
        1 <= times <= 255,
    ensures
        ledger_after(ledger, Seq::new(times, |i: int| (key, UpdateOneDelta::AddOne)))
            == ledger.insert(key, times),
        update_refused(ledger.insert(key, times).get(key), UpdateOneDelta::AddOne) <==> times
            == 255,
        times == 255 ==> updated_ledger(ledger.insert(key, times), key, UpdateOneDelta::AddOne)
            == ledger.insert(key, times),
    decreases times,
{
    let updates = Seq::new(times, |i: int| (key, UpdateOneDelta::AddOne));
    let before = Seq::new((times - 1) as nat, |i: int| (key, UpdateOneDelta::AddOne));
    assert(updates.drop_last() =~= before);
    if times == 1 {
        assert(ledger_after(ledger, before) == ledger);
    } else {
        lemma_adding_fills_up_to_255(ledger, key, (times - 1) as nat);
    }
    assert(ledger_after(ledger, updates) =~= ledger.insert(key, times));
    if times == 255 {
        assert(updated_ledger(ledger.insert(key, times), key, UpdateOneDelta::AddOne)
            =~= ledger.insert(key, times));
    }
}

/// The number that an optional count stands for.
pub open spec fn count_view(count: Option<Count>) -> Option<nat> {
    match count {
        Some(c) => Some(c@),
        None => None,
    }
}

/// Adds one to, or removes one from, the count in a ledger slot. An absent
/// key gets the count one; a count of one that loses one removes the key.
/// Adding to a count of 255 returns `overflow_error`, removing from an
/// absent key returns `not_found_error`, and both leave the slot as it was.
pub fn update_hashmap_count<K, E>(
    entry: Entry<K, Count>,
    delta: UpdateOneDelta,
    overflow_error: E,
    not_found_error: E,
) -> (result: Result<(), E>) where K: Eq + Hash
    ensures
        count_view(entry.final_value()) == updated_count(count_view(entry.value()), delta),
        update_refused(count_view(entry.value()), delta) ==> entry.final_value() == entry.value(),
        result == if !update_refused(count_view(entry.value()), delta) {
            Ok::<(), E>(())
        } else if delta == UpdateOneDelta::AddOne {
            Err::<(), E>(overflow_error)
        } else {
            Err::<(), E>(not_found_error)
        },
{
    match delta {
        UpdateOneDelta::AddOne => match entry {
            Entry::Occupied(mut e) => {
                match e.get().checked_add(1) {
                    Some(count) => {
                        e.insert(count);
                    },
                    None => {
                        proof {
                            Count::lemma_view(e.value(), e.value());
                        }
                        return Err(overflow_error);
                    },
                }
            },
            Entry::Vacant(e) => {
                e.insert(Count::one());
            },
        },
        UpdateOneDelta::RemoveOne => match entry {
            Entry::Occupied(mut e) => {
                match e.get().checked_pred() {
                    Some(count) => {
                        e.insert(count);
                    },
                    None => {
                        e.remove();
                    },
                }
            },
            Entry::Vacant(_) => {
                return Err(not_found_error);
            },
        },
    }
    Ok(())
}

/// Whether `index` is the place of the first system of the list that is
/// called `name`.
pub open spec fn is_first_named(systems: Seq<StarSystemView>, name: Seq<char>, index: int) -> bool {
    &&& 0 <= index < systems.len()
    &&& systems[index].name == name
    &&& forall|j: int| 0 <= j < index ==> (#[trigger] systems[j]).name != name
}

/// Whether a system of the list is called `name`.
pub open spec fn has_name(systems: Seq<StarSystemView>, name: Seq<char>) -> bool {
    exists|i: int| 0 <= i < systems.len() && (#[trigger] systems[i]).name == name
}

/// Whether no two systems of the list have the same name.
pub open spec fn names_distinct(systems: Seq<StarSystemView>) -> bool {
    forall|i: int, j: int|
        0 <= i < j < systems.len() ==> (#[trigger] systems[i]).name != (#[trigger] systems[j]).name
}

/// The place of the first system of the list that is called `name`.
pub open spec fn first_named(systems: Seq<StarSystemView>, name: Seq<char>) -> Option<int> {
    if exists|i: int| is_first_named(systems, name, i) {
        Some(choose|i: int| is_first_named(systems, name, i))
    } else {
        None
    }
}

/// The first system called `name` stands at one place only.
pub proof fn lemma_first_named_is(systems: Seq<StarSystemView>, name: Seq<char>, index: int)
    requires
        is_first_named(systems, name, index),
    ensures
        first_named(systems, name) == Some(index),
        has_name(systems, name),
{
    let chosen = choose|i: int| is_first_named(systems, name, i);
    assert(is_first_named(systems, name, chosen));
    if chosen < index {
        assert(systems[chosen].name != name);
    } else if index < chosen {
        assert(systems[index].name != name);
    }
}

/// A name has a first place in the list exactly if a system has the name.
pub proof fn lemma_first_named_some(systems: Seq<StarSystemView>, name: Seq<char>)
    ensures
        first_named(systems, name) is Some <==> has_name(systems, name),
        first_named(systems, name) is Some ==> is_first_named(
            systems,
            name,
            first_named(systems, name)->0,
        ),
{
    if has_name(systems, name) {
        let i = choose|i: int| 0 <= i < systems.len() && (#[trigger] systems[i]).name == name;
        lemma_least_named(systems, name, i);
    }
    if first_named(systems, name) is Some {
        let i = choose|i: int| is_first_named(systems, name, i);
        assert(systems[i].name == name);
    }
}

proof fn lemma_least_named(systems: Seq<StarSystemView>, name: Seq<char>, bound: int)
    requires
        0 <= bound < systems.len(),
        systems[bound].name == name,
    ensures
        exists|i: int| is_first_named(systems, name, i),
    decreases bound,
{
    if exists|j: int| 0 <= j < bound && (#[trigger] systems[j]).name == name {
        let j = choose|j: int| 0 <= j < bound && (#[trigger] systems[j]).name == name;
        lemma_least_named(systems, name, j);
    } else {
        assert(is_first_named(systems, name, bound));
    }
}

/// Looks a system up by its name: the place of the first system of the list
/// that is called `name`, or `None` where no system is.
pub fn find_system(systems: &Vec<StarSystem>, name: &String) -> (found: Option<usize>)
    ensures
        match found {
            Some(index) => first_named(system_views(systems@), name@) == Some(index as int)
                && index < systems.len() && systems[index as int].name@ == name@,
            None => first_named(system_views(systems@), name@) is None,
        },
        found is Some <==> has_name(system_views(systems@), name@),
{
    let ghost views = system_views(systems@);
    let mut index: usize = 0;
    while index < systems.len()
        invariant
            index <= systems.len(),
            views == system_views(systems@),
            forall|j: int| 0 <= j < index ==> (#[trigger] views[j]).name != name@,
        decreases systems.len() - index,
    {
        if systems[index].name == *name {
            proof {
                assert(views[index as int].name == name@);
                lemma_first_named_is(views, name@, index as int);
            }
            return Some(index);
        }
        assert(views[index as int].name != name@);
        index += 1;
    }
    proof {
        lemma_first_named_some(views, name@);
    }
    None
}

} // verus!
