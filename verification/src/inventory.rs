//! The inventory listing: what is listed of each resource, and the summary
//! of a listing.

use crate::cleanup::Tag;
use crate::text::{lowercased, same_text, to_lowercase};
use crate::time::Timestamp;
use vstd::prelude::*;

verus! {

/// What a listing shows of one resource.
#[derive(Clone, Debug, PartialEq, Eq)]
pub struct ResourceSummary {
    pub id: String,
    pub name: String,
    pub resource_type: String,
    pub region: String,
    pub state: String,
    pub creation_date: Option<Timestamp>,
    pub tags: Vec<Tag>,
    pub additional_info: Vec<Tag>,
}

/// How many resources of one kind a listing holds.
#[derive(Clone, Debug, PartialEq, Eq)]
pub struct TypeCount {
    pub resource_type: String,
    pub count: usize,
}

/// The summary of a listing.
#[derive(Clone, Debug, PartialEq, Eq)]
pub struct InventorySummary {
    pub total: usize,
    /// Resources whose state reads "running" or "active", whatever the case.
    pub running: usize,
    /// Resources whose state reads "stopped" or "terminated", whatever the
    /// case.
    pub stopped: usize,
    /// The kinds of resource in the order in which they first occur, each
    /// with the number of resources of that kind.
    pub by_type: Vec<TypeCount>,
}

/// A state that counts as running.
pub open spec fn running_state(state: Seq<char>) -> bool {
    lowercased(state) == "running"@ || lowercased(state) == "active"@
}

/// A state that counts as stopped.
pub open spec fn stopped_state(state: Seq<char>) -> bool {
    lowercased(state) == "stopped"@ || lowercased(state) == "terminated"@
}

/// The states of the resources of a listing.
pub open spec fn states(resources: Seq<ResourceSummary>) -> Seq<Seq<char>> {
    resources.map_values(|resource: ResourceSummary| resource.state@)
}

/// The kinds of the resources of a listing.
pub open spec fn kinds(resources: Seq<ResourceSummary>) -> Seq<Seq<char>> {
    resources.map_values(|resource: ResourceSummary| resource.resource_type@)
}

/// How many of `items` satisfy `accepts`.
pub open spec fn count_where(items: Seq<Seq<char>>, accepts: spec_fn(Seq<char>) -> bool) -> nat
    decreases items.len(),
{
    if items.len() == 0 {
        0
    } else {
        count_where(items.drop_last(), accepts) + if accepts(items.last()) {
            1nat
        } else {
            0nat
        }
    }
}

/// How often `kind` occurs in `items`.
pub open spec fn occurrences(items: Seq<Seq<char>>, kind: Seq<char>) -> nat {
    count_where(items, |item: Seq<char>| item == kind)
}

/// The different values of `items`, in the order in which they first occur.
pub open spec fn first_occurrences(items: Seq<Seq<char>>) -> Seq<Seq<char>>
    decreases items.len(),
{
    if items.len() == 0 {
        Seq::empty()
    } else {
        let before = first_occurrences(items.drop_last());
        if before.contains(items.last()) {
            before
        } else {
            before.push(items.last())
        }
    }
}

/// Whether a state, already in lower case, counts as running.
pub fn is_running_word(word: &str) -> (r: bool)
    ensures
        r == (word@ == "running"@ || word@ == "active"@),
{
    same_text(word, "running") || same_text(word, "active")
}

/// Whether a state, already in lower case, counts as stopped.
pub fn is_stopped_word(word: &str) -> (r: bool)
    ensures
        r == (word@ == "stopped"@ || word@ == "terminated"@),
{
    same_text(word, "stopped") || same_text(word, "terminated")
}

/// The kinds that occur among `resources`, in the order in which they first
/// occur, each with the number of resources of that kind.
pub fn count_by_type(resources: &[ResourceSummary]) -> (by_type: Vec<TypeCount>)
    ensures
        by_type@.map_values(|entry: TypeCount| entry.resource_type@) == first_occurrences(
            kinds(resources@),
        ),
        forall|k: int|
            0 <= k < by_type.len() ==> (#[trigger] by_type[k]).count == occurrences(
                kinds(resources@),
                by_type[k].resource_type@,
            ),
{
    let ghost all = kinds(resources@);
    let mut names: Vec<String> = Vec::new();
    let mut counts: Vec<usize> = Vec::new();
    let mut i: usize = 0;
    while i < resources.len()
        invariant
            i <= resources.len(),
            all == kinds(resources@),
            names.len() == counts.len(),
            names@.map_values(|name: String| name@) == first_occurrences(all.take(i as int)),
            forall|k: int|
                0 <= k < counts.len() ==> #[trigger] counts[k] == occurrences(
                    all.take(i as int),
                    names[k]@,
                ),
            forall|k: int| 0 <= k < counts.len() ==> #[trigger] counts[k] <= i,
        decreases resources.len() - i,
    {
        let ghost seen = all.take(i as int);
        let ghost next = all.take(i + 1);
        let ghost kind = resources[i as int].resource_type@;
        let ghost known = names@.map_values(|name: String| name@);
        proof {
            assert(next.drop_last() =~= seen);
            assert(next.last() == kind);
        }
        let mut found: Option<usize> = None;
        let mut j: usize = 0;
        while j < names.len()
            invariant
                j <= names.len(),
                kind == resources[i as int].resource_type@,
                i < resources.len(),
                match found {
                    Some(at) => at < names.len() && names[at as int]@ == kind,
                    None => forall|k: int| 0 <= k < j ==> names[k]@ != kind,
                },
            decreases names.len() - j,
        {
            if found.is_none() && same_text(
                names[j].as_str(),
                resources[i].resource_type.as_str(),
            ) {
                found = Some(j);
            }
            j += 1;
        }
        match found {
            Some(at) => {
                let count = counts[at];
                counts.set(at, count + 1);
                proof {
                    assert(known[at as int] == kind);
                    assert(known.contains(kind));
                    lemma_first_occurrences_distinct(seen);
                    assert forall|k: int| 0 <= k < counts.len() implies #[trigger] counts[k]
                        == occurrences(next, names[k]@) by {
                        assert(known[k] == names[k]@);
                        if k != at {
                            assert(known[k] != known[at as int]);
                        }
                    }
                }
            },
            None => {
                proof {
                    lemma_absent_kind(seen, kind);
                    assert(!known.contains(kind)) by {
                        if known.contains(kind) {
                            let k = choose|k: int| 0 <= k < known.len() && known[k] == kind;
                            assert(names[k]@ == kind);
                        }
                    }
                }
                names.push(resources[i].resource_type.clone());
                counts.push(1);
                proof {
                    assert(names@.map_values(|name: String| name@) =~= known.push(kind));
                }
            },
        }
        i += 1;
    }
    assert(all.take(i as int) =~= all);
    let mut by_type: Vec<TypeCount> = Vec::new();
    let mut k: usize = 0;
    while k < names.len()
        invariant
            k <= names.len(),
            names.len() == counts.len(),
            by_type.len() == k,
            forall|m: int|
                0 <= m < k ==> (#[trigger] by_type[m]).resource_type@ == names[m]@ && by_type[m].count
                    == counts[m],
        decreases names.len() - k,
    {
        by_type.push(TypeCount { resource_type: names[k].clone(), count: counts[k] });
        k += 1;
    }
    proof {
        assert(by_type@.map_values(|entry: TypeCount| entry.resource_type@) =~= names@.map_values(
            |name: String| name@,
        ));
        assert forall|m: int| 0 <= m < by_type.len() implies (#[trigger] by_type[m]).count
            == occurrences(all, by_type[m].resource_type@) by {
            assert(counts[m] == occurrences(all, names[m]@));
        }
    }
    by_type
}

/// No value is among the first occurrences twice.
proof fn lemma_first_occurrences_distinct(items: Seq<Seq<char>>)
    ensures
        first_occurrences(items).no_duplicates(),
    decreases items.len(),
{
    if items.len() > 0 {
        lemma_first_occurrences_distinct(items.drop_last());
    }
}

/// A kind that is not among the first occurrences does not occur.
proof fn lemma_absent_kind(items: Seq<Seq<char>>, kind: Seq<char>)
    ensures
        first_occurrences(items).contains(kind) <==> occurrences(items, kind) > 0,
    decreases items.len(),
{
    if items.len() > 0 {
        let before = first_occurrences(items.drop_last());
        lemma_absent_kind(items.drop_last(), kind);
        if before.contains(items.last()) {
        } else {
            let after = before.push(items.last());
            assert(after[before.len() as int] == items.last());
            if before.contains(kind) {
                let k = choose|k: int| 0 <= k < before.len() && before[k] == kind;
                assert(after[k] == kind);
            }
            if after.contains(kind) && kind != items.last() {
                let k = choose|k: int| 0 <= k < after.len() && after[k] == kind;
                assert(before[k] == kind);
            }
        }
    }
}

/// Summarizes a listing: how many resources it holds, how many of them are
/// running and how many stopped, and how many there are of each kind.
pub fn summarize(resources: &[ResourceSummary]) -> (summary: InventorySummary)
    ensures
        summary.total == resources@.len(),
        summary.running == count_where(states(resources@), |state: Seq<char>| running_state(state)),
        summary.stopped == count_where(states(resources@), |state: Seq<char>| stopped_state(state)),
        summary.by_type@.map_values(|entry: TypeCount| entry.resource_type@) == first_occurrences(
            kinds(resources@),
        ),
        forall|k: int|
            0 <= k < summary.by_type.len() ==> (#[trigger] summary.by_type[k]).count == occurrences(
                kinds(resources@),
                summary.by_type[k].resource_type@,
            ),
{
    let ghost all = states(resources@);
    let ghost runs = |state: Seq<char>| running_state(state);
    let ghost stops = |state: Seq<char>| stopped_state(state);
    let mut running: usize = 0;
    let mut stopped: usize = 0;
    let mut i: usize = 0;
    while i < resources.len()
        invariant
            i <= resources.len(),
            all == states(resources@),
            runs == |state: Seq<char>| running_state(state),
            stops == |state: Seq<char>| stopped_state(state),
            running == count_where(all.take(i as int), runs),
            stopped == count_where(all.take(i as int), stops),
            running <= i,
            stopped <= i,
        decreases resources.len() - i,
    {
        proof {
            assert(all.take(i + 1).drop_last() =~= all.take(i as int));
            assert(all.take(i + 1).last() == resources[i as int].state@);
        }
        let state = to_lowercase(resources[i].state.as_str());
        if is_running_word(state.as_str()) {
            running += 1;
        }
        if is_stopped_word(state.as_str()) {
            stopped += 1;
        }
        i += 1;
    }
    assert(all.take(i as int) =~= all);
    InventorySummary { total: resources.len(), running, stopped, by_type: count_by_type(resources) }
}

} // verus!
