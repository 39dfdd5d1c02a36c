//! The last action taken on each resource, and the rule that keeps a second
//! action from following it too soon. The state belongs to the caller, who
//! keeps it between runs; the evaluator only reads it.

use crate::policy::{ScalingPolicy, ScalingRules};
use crate::scaling::ScalingDirection;
use crate::time::{elapsed_nanos, Timestamp, NANOS_PER_SECOND};
use vstd::prelude::*;

verus! {

/// The most recent action recorded for a resource.
#[derive(Clone, Copy, Debug, PartialEq, Eq, Structural)]
pub struct LastAction {
    pub direction: ScalingDirection,
    pub at: Timestamp,
}

/// The cooldown, in seconds, that an action in `direction` has to wait out.
pub open spec fn cooldown_seconds(rules: ScalingRules, direction: ScalingDirection) -> int {
    match direction {
        ScalingDirection::ScaleUp => rules.scale_up_cooldown,
        ScalingDirection::ScaleDown => rules.scale_down_cooldown,
    }
}

/// An action in `direction` at `now` falls into the cooldown window: an
/// action is on record, and fewer seconds than the cooldown of `direction`
/// have passed since.
pub open spec fn cooling_down(
    rules: ScalingRules,
    direction: ScalingDirection,
    last: Option<LastAction>,
    now: Timestamp,
) -> bool {
    match last {
        Some(action) => elapsed_nanos(now, action.at) < cooldown_seconds(rules, direction) * (
        NANOS_PER_SECOND as int),
        None => false,
    }
}

/// Whether an action in `direction` at `now` is held back by the cooldown.
pub fn cooldown_active(
    policy: &ScalingPolicy,
    direction: ScalingDirection,
    last: Option<LastAction>,
    now: Timestamp,
) -> (active: bool)
    ensures
        active == cooling_down(policy@, direction, last, now),
{
    match last {
        None => false,
        Some(action) => {
            let cooldown: i32 = match direction {
                ScalingDirection::ScaleUp => policy.scale_up_cooldown(),
                ScalingDirection::ScaleDown => policy.scale_down_cooldown(),
            };
            let seconds: i128 = now.secs() as i128 - action.at.secs() as i128;
            let elapsed: i128 = seconds * 1_000_000_000 + (now.nanos() as i128
                - action.at.nanos() as i128);
            let window: i128 = cooldown as i128 * 1_000_000_000;
            elapsed < window
        },
    }
}

/// One resource's entry in the cooldown state.
struct CooldownEntry {
    resource_id: String,
    last: LastAction,
}

/// For each resource id, the last action recorded for it.
pub struct CooldownState {
    entries: Vec<CooldownEntry>,
}

impl CooldownState {
    spec fn holds(self, id: Seq<char>, i: int) -> bool {
        0 <= i < self.entries.len() && self.entries[i].resource_id@ == id
    }

    spec fn distinct_ids(self) -> bool {
        forall|i: int, j: int|
            0 <= i < self.entries.len() && 0 <= j < self.entries.len() && i != j
                ==> self.entries[i].resource_id@ != self.entries[j].resource_id@
    }

    #[verifier::type_invariant]
    spec fn ids_occur_once(self) -> bool {
        self.distinct_ids()
    }
}

impl View for CooldownState {
    type V = Map<Seq<char>, LastAction>;

    closed spec fn view(&self) -> Map<Seq<char>, LastAction> {
        Map::new(
            |id: Seq<char>| exists|i: int| self.holds(id, i),
            |id: Seq<char>| self.entries[choose|i: int| self.holds(id, i)].last,
        )
    }
}

impl CooldownState {
    /// The state in which no action is on record.
    pub fn new() -> (state: CooldownState)
        ensures
            state@ == Map::<Seq<char>, LastAction>::empty(),
    {
        let state = CooldownState { entries: Vec::new() };
        assert(state@ =~= Map::<Seq<char>, LastAction>::empty());
        state
    }

    /// The position of `id` among the entries, if it has one.
    fn position(&self, id: &String) -> (r: Option<usize>)
        ensures
            match r {
                Some(i) => self.holds(id@, i as int),
                None => forall|i: int| !self.holds(id@, i),
            },
    {
        let mut i: usize = 0;
        while i < self.entries.len()
            invariant
                i <= self.entries.len(),
                forall|j: int| 0 <= j < i ==> self.entries[j].resource_id@ != id@,
            decreases self.entries.len() - i,
        {
            if self.entries[i].resource_id == *id {
                return Some(i);
            }
            i += 1;
        }
        None
    }

    /// The last action recorded for `resource_id`, if any.
    pub fn last_action(&self, resource_id: &str) -> (r: Option<LastAction>)
        ensures
            r == if self@.contains_key(resource_id@) {
                Some(self@[resource_id@])
            } else {
                None
            },
    {
        proof {
            use_type_invariant(self);
        }
        let id = resource_id.to_owned();
        match self.position(&id) {
            Some(i) => {
                assert(self.holds(id@, i as int));
                Some(self.entries[i].last)
            },
            None => None,
        }
    }

    /// The state in which `resource_id` was last scaled in `direction` at
    /// `at`, whatever was on record for it before; every other resource keeps
    /// its entry. Call it once the action is known to have been taken.
    pub fn record(self, resource_id: &str, direction: ScalingDirection, at: Timestamp) -> (after:
        CooldownState)
        ensures
            after@ == self@.insert(resource_id@, LastAction { direction, at }),
    {
        proof {
            use_type_invariant(&self);
        }
        let id = resource_id.to_owned();
        let last = LastAction { direction, at };
        let found = self.position(&id);
        let CooldownState { entries } = self;
        let mut entries = entries;
        match found {
            Some(i) => {
                entries.set(i, CooldownEntry { resource_id: id, last });
                let after = CooldownState { entries };
                proof {
                    assert forall|k: Seq<char>, j: int| after.holds(k, j) == self.holds(k, j) by {}
                    assert(after.holds(resource_id@, i as int));
                    assert(after@ =~= self@.insert(resource_id@, last));
                }
                after
            },
            None => {
                entries.push(CooldownEntry { resource_id: id, last });
                proof {
                    let n = self.entries.len() as int;
                    assert forall|i: int, j: int|
                        0 <= i < entries.len() && 0 <= j < entries.len() && i != j implies entries[i].resource_id@
                        != entries[j].resource_id@ by {
                        if i == n {
                            assert(!self.holds(resource_id@, j));
                        } else if j == n {
                            assert(!self.holds(resource_id@, i));
                        } else {
                            assert(entries[i] == self.entries[i]);
                            assert(entries[j] == self.entries[j]);
                        }
                    }
                }
                let after = CooldownState { entries };
                proof {
                    let n = self.entries.len() as int;
                    assert(after.holds(resource_id@, n));
                    assert forall|k: Seq<char>, j: int| self.holds(k, j) implies after.holds(k, j)
                        && after.entries[j] == self.entries[j] by {}
                    assert forall|k: Seq<char>| #[trigger]
                        after@.contains_key(k) == self@.insert(resource_id@, last).contains_key(
                            k,
                        ) by {
                        if after@.contains_key(k) {
                            let j = choose|j: int| after.holds(k, j);
                            if j < n {
                                assert(self.holds(k, j));
                            }
                        }
                        if self@.contains_key(k) {
                            let j = choose|j: int| self.holds(k, j);
                            assert(after.holds(k, j));
                        }
                    }
                    assert(after@ =~= self@.insert(resource_id@, last));
                }
                after
            },
        }
    }

    /// The number of resources with an action on record.
    pub fn len(&self) -> (n: usize)
        ensures
            n == self@.dom().len(),
            self@.dom().finite(),
    {
        proof {
            use_type_invariant(self);
            self.lemma_domain_size();
        }
        self.entries.len()
    }

    proof fn lemma_domain_size(self)
        requires
            self.distinct_ids(),
        ensures
            self@.dom().finite(),
            self@.dom().len() == self.entries.len(),
    {
        let ids = self.entries@.map_values(|e: CooldownEntry| e.resource_id@);
        assert(ids.no_duplicates());
        ids.unique_seq_to_set();
        assert(self@.dom() =~= ids.to_set()) by {
            assert forall|k: Seq<char>| self@.dom().contains(k) == ids.to_set().contains(k) by {
                if self@.dom().contains(k) {
                    let j = choose|j: int| self.holds(k, j);
                    assert(ids[j] == k);
                }
                if ids.to_set().contains(k) {
                    let j = choose|j: int| 0 <= j < ids.len() && ids[j] == k;
                    assert(self.holds(k, j));
                }
            }
        }
    }
}

} // verus!
