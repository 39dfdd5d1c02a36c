//! The evaluation of a whole fleet: every group that the command looks at is
//! evaluated on its own, and the proposals come out in the order of the
//! groups. A group whose metrics are missing is skipped and reported, never
//! evaluated on a made-up value.

use crate::cooldown::{CooldownState, LastAction};
use crate::policy::{ScalingPolicy, ScalingRules};
use crate::scaling::{evaluate, evaluation, ScalingAction, ScalingProposal};
use crate::time::Timestamp;
use crate::units::Percent;
use vstd::prelude::*;

verus! {

/// What was observed of one scaling group.
#[derive(Clone, Debug, PartialEq, Eq)]
pub struct GroupObservation {
    pub name: Option<String>,
    pub desired_capacity: Option<i32>,
    pub cpu_utilization: Option<Percent>,
    pub memory_utilization: Option<Percent>,
}

/// An observation as mathematical values.
pub struct GroupReading {
    pub name: Option<Seq<char>>,
    pub desired_capacity: Option<int>,
    pub cpu_utilization: Option<Percent>,
    pub memory_utilization: Option<Percent>,
}

impl View for GroupObservation {
    type V = GroupReading;

    open spec fn view(&self) -> GroupReading {
        GroupReading {
            name: match self.name {
                Some(name) => Some(name@),
                None => None,
            },
            desired_capacity: match self.desired_capacity {
                Some(capacity) => Some(capacity as int),
                None => None,
            },
            cpu_utilization: self.cpu_utilization,
            memory_utilization: self.memory_utilization,
        }
    }
}

impl GroupReading {
    /// The id under which the group is reported: its name, or the empty
    /// string where it has none.
    pub open spec fn id(self) -> Seq<char> {
        match self.name {
            Some(name) => name,
            None => Seq::empty(),
        }
    }

    /// The group's current capacity; a group that reports none counts as
    /// having no instance.
    pub open spec fn capacity(self) -> int {
        match self.desired_capacity {
            Some(capacity) => capacity,
            None => 0,
        }
    }

    /// The command looks at this group: it was asked for every group, or
    /// for the group of this name.
    pub open spec fn selected(self, only: Option<Seq<char>>) -> bool {
        match only {
            Some(wanted) => self.name == Some(wanted),
            None => true,
        }
    }
}

/// The last action on record for `id`, if any.
pub open spec fn on_record(cooldowns: Map<Seq<char>, LastAction>, id: Seq<char>) -> Option<
    LastAction,
> {
    if cooldowns.contains_key(id) {
        Some(cooldowns[id])
    } else {
        None
    }
}

/// The action proposed for `group`, if it is looked at, its metrics are
/// there, and the evaluation proposes one.
pub open spec fn group_proposal(
    group: GroupReading,
    rules: ScalingRules,
    cooldowns: Map<Seq<char>, LastAction>,
    only: Option<Seq<char>>,
    now: Timestamp,
) -> Option<ScalingProposal> {
    if group.selected(only) {
        match evaluation(
            group.id(),
            group.capacity(),
            group.cpu_utilization,
            group.memory_utilization,
            rules,
            on_record(cooldowns, group.id()),
            now,
        ) {
            Ok(proposed) => proposed,
            Err(_) => None,
        }
    } else {
        None
    }
}

/// The id of `group` if it is looked at and a metric of it is missing.
pub open spec fn group_skipped(group: GroupReading, only: Option<Seq<char>>) -> Option<Seq<char>> {
    if group.selected(only) && (group.cpu_utilization is None || group.memory_utilization
        is None) {
        Some(group.id())
    } else {
        None
    }
}

/// What the evaluation of a fleet yields.
#[derive(Clone, Debug, PartialEq, Eq)]
pub struct ScalingPlan {
    /// The proposed actions, in the order of the groups.
    pub actions: Vec<ScalingAction>,
    /// The ids of the groups that could not be evaluated for want of a
    /// metric, in the order of the groups.
    pub skipped: Vec<String>,
}

/// A plan as mathematical values.
pub struct PlanView {
    pub actions: Seq<ScalingProposal>,
    pub skipped: Seq<Seq<char>>,
}

impl View for ScalingPlan {
    type V = PlanView;

    open spec fn view(&self) -> PlanView {
        PlanView {
            actions: self.actions@.map_values(|action: ScalingAction| action@),
            skipped: self.skipped@.map_values(|id: String| id@),
        }
    }
}

/// The mathematical values of a list of observations.
pub open spec fn readings(groups: Seq<GroupObservation>) -> Seq<GroupReading> {
    groups.map_values(|group: GroupObservation| group@)
}

/// The plan for a fleet: the proposals of its groups and the ids of the
/// groups skipped, both in the order of the groups.
pub open spec fn fleet_plan(
    groups: Seq<GroupReading>,
    rules: ScalingRules,
    cooldowns: Map<Seq<char>, LastAction>,
    only: Option<Seq<char>>,
    now: Timestamp,
) -> PlanView {
    PlanView {
        actions: groups.filter_map(
            |group: GroupReading| group_proposal(group, rules, cooldowns, only, now),
        ),
        skipped: groups.filter_map(|group: GroupReading| group_skipped(group, only)),
    }
}

/// The mathematical value of an optional name.
pub open spec fn name_view(name: Option<String>) -> Option<Seq<char>> {
    match name {
        Some(name) => Some(name@),
        None => None,
    }
}

/// Whether the command looks at `group`.
pub fn is_selected(group: &GroupObservation, resource_group: &Option<String>) -> (r: bool)
    ensures
        r == group@.selected(name_view(*resource_group)),
{
    match resource_group {
        None => true,
        Some(wanted) => match &group.name {
            Some(name) => *name == *wanted,
            None => false,
        },
    }
}

/// Evaluates every group of `groups` that the command looks at: all of
/// them, or the one named by `resource_group`.
pub fn analyze_scaling(
    groups: &[GroupObservation],
    policy: &ScalingPolicy,
    cooldowns: &CooldownState,
    resource_group: &Option<String>,
    now: Timestamp,
) -> (plan: ScalingPlan)
    ensures
        plan@ == fleet_plan(
            readings(groups@),
            policy@,
            cooldowns@,
            name_view(*resource_group),
            now,
        ),
        plan.actions.len() + plan.skipped.len() <= groups.len(),
{
    let ghost all = readings(groups@);
    let ghost only = name_view(*resource_group);
    let ghost propose = |group: GroupReading|
        group_proposal(group, policy@, cooldowns@, only, now);
    let ghost skip = |group: GroupReading| group_skipped(group, only);
    let mut actions: Vec<ScalingAction> = Vec::new();
    let mut skipped: Vec<String> = Vec::new();
    let mut i: usize = 0;
    while i < groups.len()
        invariant
            i <= groups.len(),
            all == readings(groups@),
            only == name_view(*resource_group),
            propose == |group: GroupReading| group_proposal(group, policy@, cooldowns@, only, now),
            skip == |group: GroupReading| group_skipped(group, only),
            actions@.map_values(|action: ScalingAction| action@) == all.take(i as int).filter_map(
                propose,
            ),
            skipped@.map_values(|id: String| id@) == all.take(i as int).filter_map(skip),
            actions.len() + skipped.len() <= i,
        decreases groups.len() - i,
    {
        let group = &groups[i];
        proof {
            all.lemma_filter_map_take_succ(propose, i as int);
            all.lemma_filter_map_take_succ(skip, i as int);
            assert(all[i as int] == group@);
        }
        if is_selected(group, resource_group) {
            let id: String = match &group.name {
                Some(name) => name.clone(),
                None => String::new(),
            };
            let current: i32 = match group.desired_capacity {
                Some(capacity) => capacity,
                None => 0,
            };
            let last = cooldowns.last_action(id.as_str());
            let evaluated = evaluate(
                id.as_str(),
                current,
                group.cpu_utilization,
                group.memory_utilization,
                policy,
                last,
                now,
            );
            match evaluated {
                Ok(Some(action)) => {
                    let ghost before = actions@;
                    actions.push(action);
                    assert(actions@.map_values(|action: ScalingAction| action@)
                        =~= before.map_values(|action: ScalingAction| action@) + seq![action@]);
                },
                Ok(None) => {},
                Err(failure) => {
                    let ghost before = skipped@;
                    skipped.push(failure.resource_id);
                    assert(skipped@.map_values(|id: String| id@) =~= before.map_values(
                        |id: String| id@,
                    ) + seq![failure.resource_id@]);
                },
            }
        }
        i += 1;
    }
    assert(all.take(i as int) =~= all);
    ScalingPlan { actions, skipped }
}

/// Each group is evaluated on its own: the plan for two fleets put together
/// is the plan for the first followed by that for the second. A fleet may
/// therefore be evaluated in parts, as long as the parts' plans are joined in
/// the order of the parts.
pub proof fn lemma_fleet_plan_distributes(
    first: Seq<GroupReading>,
    second: Seq<GroupReading>,
    rules: ScalingRules,
    cooldowns: Map<Seq<char>, LastAction>,
    only: Option<Seq<char>>,
    now: Timestamp,
)
    ensures
        fleet_plan(first + second, rules, cooldowns, only, now).actions == fleet_plan(
            first,
            rules,
            cooldowns,
            only,
            now,
        ).actions + fleet_plan(second, rules, cooldowns, only, now).actions,
        fleet_plan(first + second, rules, cooldowns, only, now).skipped == fleet_plan(
            first,
            rules,
            cooldowns,
            only,
            now,
        ).skipped + fleet_plan(second, rules, cooldowns, only, now).skipped,
    decreases second.len(),
{
    let whole = fleet_plan(first + second, rules, cooldowns, only, now);
    let head = fleet_plan(first, rules, cooldowns, only, now);
    let tail = fleet_plan(second, rules, cooldowns, only, now);
    if second.len() == 0 {
        assert(first + second =~= first);
        assert(head.actions + tail.actions =~= head.actions);
        assert(head.skipped + tail.skipped =~= head.skipped);
    } else {
        lemma_fleet_plan_distributes(first, second.drop_last(), rules, cooldowns, only, now);
        assert((first + second).drop_last() =~= first + second.drop_last());
        assert((first + second).last() == second.last());
        assert(whole.actions =~= head.actions + tail.actions);
        assert(whole.skipped =~= head.skipped + tail.skipped);
    }
}

/// A group that is not looked at, and a group whose metrics are missing,
/// contributes no action; a group is skipped only for want of a metric.
pub proof fn lemma_skipped_groups_propose_nothing(
    group: GroupReading,
    rules: ScalingRules,
    cooldowns: Map<Seq<char>, LastAction>,
    only: Option<Seq<char>>,
    now: Timestamp,
)
    ensures
        !group.selected(only) ==> group_proposal(group, rules, cooldowns, only, now) is None
            && group_skipped(group, only) is None,
        group_skipped(group, only) is Some ==> group_proposal(group, rules, cooldowns, only, now)
            is None,
        group_skipped(group, only) is Some <==> group.selected(only) && (group.cpu_utilization
            is None || group.memory_utilization is None),
{
}

} // verus!
