//! The cleanup eligibility analyzer: from resource descriptors and the
//! configured thresholds to the list of resources proposed for removal, in
//! the order in which the resources were given.

use crate::policy::{CleanupPolicy, CleanupRules};
use crate::text::{append_decimal, decimal};
use crate::time::{age_in_days, whole_days_between, Timestamp};
use crate::units::{Money, Percent};
use vstd::prelude::*;
use vstd::string::StringExecFns;

verus! {

/// One tag of a resource.
#[derive(Clone, Debug, PartialEq, Eq)]
pub struct Tag {
    pub key: String,
    pub value: String,
}

/// A snapshot of one resource, as the inventory reported it.
#[derive(Clone, Debug, PartialEq, Eq)]
pub struct ResourceInfo {
    pub id: String,
    pub name: String,
    pub resource_type: String,
    pub region: String,
    pub state: String,
    pub creation_date: Option<Timestamp>,
    pub last_used: Option<Timestamp>,
    pub utilization: Percent,
    pub estimated_cost: Money,
    pub tags: Vec<Tag>,
}

/// A resource descriptor as mathematical values.
pub struct ResourceDescriptor {
    pub id: Seq<char>,
    pub name: Seq<char>,
    pub resource_type: Seq<char>,
    pub region: Seq<char>,
    pub state: Seq<char>,
    pub creation_date: Option<Timestamp>,
    pub last_used: Option<Timestamp>,
    pub utilization: Percent,
    pub estimated_cost: Money,
    pub tags: Seq<(Seq<char>, Seq<char>)>,
}

impl View for Tag {
    type V = (Seq<char>, Seq<char>);

    open spec fn view(&self) -> (Seq<char>, Seq<char>) {
        (self.key@, self.value@)
    }
}

impl View for ResourceInfo {
    type V = ResourceDescriptor;

    open spec fn view(&self) -> ResourceDescriptor {
        ResourceDescriptor {
            id: self.id@,
            name: self.name@,
            resource_type: self.resource_type@,
            region: self.region@,
            state: self.state@,
            creation_date: self.creation_date,
            last_used: self.last_used,
            utilization: self.utilization,
            estimated_cost: self.estimated_cost,
            tags: self.tags@.map_values(|tag: Tag| tag@),
        }
    }
}

/// The proposal to remove one resource.
#[derive(Clone, Debug, PartialEq, Eq)]
pub struct CleanupAction {
    pub action_type: String,
    pub resource: ResourceInfo,
    pub reason: String,
    pub estimated_savings: Money,
}

/// A cleanup action as mathematical values.
pub struct CleanupProposal {
    pub action_type: Seq<char>,
    pub resource: ResourceDescriptor,
    pub reason: Seq<char>,
    pub estimated_savings: Money,
}

impl View for CleanupAction {
    type V = CleanupProposal;

    open spec fn view(&self) -> CleanupProposal {
        CleanupProposal {
            action_type: self.action_type@,
            resource: self.resource@,
            reason: self.reason@,
            estimated_savings: self.estimated_savings,
        }
    }
}

/// The mathematical values of a list of actions.
pub open spec fn proposals(actions: Seq<CleanupAction>) -> Seq<CleanupProposal> {
    actions.map_values(|action: CleanupAction| action@)
}

/// The mathematical values of a list of resources.
pub open spec fn descriptors(resources: Seq<ResourceInfo>) -> Seq<ResourceDescriptor> {
    resources.map_values(|resource: ResourceInfo| resource@)
}

/// Why a resource is proposed for removal.
pub enum Finding {
    /// Its utilization is below the threshold.
    LowUtilization,
    /// It was created more than the threshold's number of days ago.
    Old { days: int },
}

/// The first rule under which `resource` is eligible for cleanup, if any:
/// utilization below the threshold, else a known creation date more than the
/// threshold's number of whole days before `now`.
pub open spec fn finding(resource: ResourceDescriptor, rules: CleanupRules, now: Timestamp)
    -> Option<Finding> {
    if resource.utilization.tenths < rules.utilization_threshold.tenths {
        Some(Finding::LowUtilization)
    } else {
        match resource.creation_date {
            Some(created) => if whole_days_between(now, created) > rules.age_threshold_days {
                Some(Finding::Old { days: whole_days_between(now, created) })
            } else {
                None
            },
            None => None,
        }
    }
}

/// The reason given for a finding.
pub open spec fn cleanup_reason(found: Finding, resource: ResourceDescriptor) -> Seq<char> {
    match found {
        Finding::LowUtilization => "Low utilization ("@ + resource.utilization.text() + "%)"@,
        Finding::Old { days } => "Old resource ("@ + decimal(days as nat) + " days)"@,
    }
}

/// The action proposed for `resource`, if it is eligible: a deletion that
/// carries the resource unchanged, the reason of the finding, and the
/// resource's estimated cost as savings.
pub open spec fn cleanup_proposal(resource: ResourceDescriptor, rules: CleanupRules, now: Timestamp)
    -> Option<CleanupProposal> {
    match finding(resource, rules, now) {
        Some(found) => Some(
            CleanupProposal {
                action_type: "DELETE"@,
                resource,
                reason: cleanup_reason(found, resource),
                estimated_savings: resource.estimated_cost,
            },
        ),
        None => None,
    }
}

/// The analysis of a list of resources: the proposals for the eligible ones,
/// in the order of the list.
pub open spec fn analysis(resources: Seq<ResourceDescriptor>, rules: CleanupRules, now: Timestamp)
    -> Seq<CleanupProposal> {
    resources.filter_map(|resource: ResourceDescriptor| cleanup_proposal(resource, rules, now))
}

/// The sum of the estimated savings of a list of proposals, in cents.
pub open spec fn total_cents(actions: Seq<CleanupProposal>) -> nat
    decreases actions.len(),
{
    if actions.len() == 0 {
        0
    } else {
        total_cents(actions.drop_last()) + actions.last().estimated_savings.cents as nat
    }
}

/// A copy of a string.
fn copy_string(s: &String) -> (r: String)
    ensures
        r@ == s@,
{
    s.clone()
}

/// A copy of a list of tags.
fn copy_tags(tags: &Vec<Tag>) -> (r: Vec<Tag>)
    ensures
        r@.map_values(|tag: Tag| tag@) == tags@.map_values(|tag: Tag| tag@),
{
    let mut r: Vec<Tag> = Vec::new();
    let mut i: usize = 0;
    while i < tags.len()
        invariant
            i <= tags.len(),
            r.len() == i,
            forall|j: int| 0 <= j < i ==> r[j]@ == tags[j]@,
        decreases tags.len() - i,
    {
        r.push(Tag { key: copy_string(&tags[i].key), value: copy_string(&tags[i].value) });
        i += 1;
    }
    assert(r@.map_values(|tag: Tag| tag@) =~= tags@.map_values(|tag: Tag| tag@));
    r
}

impl ResourceInfo {
    /// A copy of the descriptor, equal to it in every field.
    pub fn snapshot(&self) -> (r: ResourceInfo)
        ensures
            r@ == self@,
    {
        ResourceInfo {
            id: copy_string(&self.id),
            name: copy_string(&self.name),
            resource_type: copy_string(&self.resource_type),
            region: copy_string(&self.region),
            state: copy_string(&self.state),
            creation_date: self.creation_date,
            last_used: self.last_used,
            utilization: self.utilization,
            estimated_cost: self.estimated_cost,
            tags: copy_tags(&self.tags),
        }
    }
}

/// Decides whether `resource` is proposed for removal.
pub fn analyze_resource(resource: &ResourceInfo, policy: &CleanupPolicy, now: Timestamp) -> (r:
    Option<CleanupAction>)
    ensures
        match r {
            Some(action) => cleanup_proposal(resource@, policy@, now) == Some(action@),
            None => cleanup_proposal(resource@, policy@, now) is None,
        },
        r matches Some(action) ==> action.estimated_savings == resource.estimated_cost
            && action.resource@ == resource@,
{
    if resource.utilization.tenths < policy.utilization_threshold().tenths {
        let mut reason = String::from_str("Low utilization (");
        resource.utilization.append_to(&mut reason);
        reason.append("%)");
        assert(reason@ =~= cleanup_reason(Finding::LowUtilization, resource@));
        return Some(
            CleanupAction {
                action_type: String::from_str("DELETE"),
                resource: resource.snapshot(),
                reason,
                estimated_savings: resource.estimated_cost,
            },
        );
    }
    match resource.creation_date {
        Some(created) => {
            let days = age_in_days(now, created);
            if days > policy.age_threshold_days() as i64 {
                let mut reason = String::from_str("Old resource (");
                append_decimal(&mut reason, days as u64);
                reason.append(" days)");
                assert(reason@ =~= cleanup_reason(Finding::Old { days: days as int }, resource@));
                Some(
                    CleanupAction {
                        action_type: String::from_str("DELETE"),
                        resource: resource.snapshot(),
                        reason,
                        estimated_savings: resource.estimated_cost,
                    },
                )
            } else {
                None
            }
        },
        None => None,
    }
}

/// Proposes the removal of every eligible resource, in the order of
/// `resources`. Nothing is deleted here.
pub fn analyze_cleanup_actions(resources: &[ResourceInfo], policy: &CleanupPolicy, now: Timestamp)
    -> (actions: Vec<CleanupAction>)
    ensures
        proposals(actions@) == analysis(descriptors(resources@), policy@, now),
        actions.len() <= resources.len(),
{
    let ghost rules = policy@;
    let ghost all = descriptors(resources@);
    let ghost rule = |resource: ResourceDescriptor| cleanup_proposal(resource, rules, now);
    let mut actions: Vec<CleanupAction> = Vec::new();
    let mut i: usize = 0;
    while i < resources.len()
        invariant
            i <= resources.len(),
            rules == policy@,
            all == descriptors(resources@),
            rule == |resource: ResourceDescriptor| cleanup_proposal(resource, rules, now),
            proposals(actions@) == all.take(i as int).filter_map(rule),
            actions.len() <= i,
        decreases resources.len() - i,
    {
        let found = analyze_resource(&resources[i], policy, now);
        proof {
            all.lemma_filter_map_take_succ(rule, i as int);
            assert(all[i as int] == resources[i as int]@);
        }
        match found {
            Some(action) => {
                let ghost before = actions@;
                actions.push(action);
                assert(proposals(actions@) =~= proposals(before) + seq![action@]);
            },
            None => {},
        }
        i += 1;
    }
    assert(all.take(i as int) =~= all);
    actions
}

/// The total of the estimated savings of `actions`, in cents.
pub fn total_savings(actions: &[CleanupAction]) -> (total: u128)
    ensures
        total == total_cents(proposals(actions@)),
{
    let ghost all = proposals(actions@);
    let mut total: u128 = 0;
    let mut i: usize = 0;
    while i < actions.len()
        invariant
            i <= actions.len(),
            all == proposals(actions@),
            total == total_cents(all.take(i as int)),
            total <= i * u64::MAX,
        decreases actions.len() - i,
    {
        proof {
            assert(all.take(i + 1).drop_last() =~= all.take(i as int));
            assert(all.take(i + 1).last() == actions[i as int]@);
            assert((i + 1) * u64::MAX == i * u64::MAX + u64::MAX) by (nonlinear_arith);
            assert(i * u64::MAX + u64::MAX <= u128::MAX) by (nonlinear_arith)
                requires
                    i < usize::MAX,
                    usize::MAX <= u64::MAX,
            ;
        }
        total = total + actions[i].estimated_savings.cents as u128;
        i += 1;
    }
    assert(all.take(i as int) =~= all);
    total
}

/// The positions, in `resources`, of the resources that are proposed for
/// removal, in increasing order.
pub open spec fn proposed_positions(
    resources: Seq<ResourceDescriptor>,
    rules: CleanupRules,
    now: Timestamp,
) -> Seq<int>
    decreases resources.len(),
{
    if resources.len() == 0 {
        Seq::empty()
    } else {
        let rest = proposed_positions(resources.drop_last(), rules, now);
        if cleanup_proposal(resources.last(), rules, now) is Some {
            rest.push(resources.len() - 1)
        } else {
            rest
        }
    }
}

/// The analysis keeps the order of its input: the proposals are those of the
/// eligible resources, each carrying its resource unchanged, and a proposal
/// that comes earlier in the output belongs to a resource that comes earlier
/// in the input.
pub proof fn lemma_analysis_preserves_order(
    resources: Seq<ResourceDescriptor>,
    rules: CleanupRules,
    now: Timestamp,
)
    ensures
        proposed_positions(resources, rules, now).len() == analysis(resources, rules, now).len(),
        forall|k: int|
            0 <= k < analysis(resources, rules, now).len() ==> {
                let at = #[trigger] proposed_positions(resources, rules, now)[k];
                &&& 0 <= at < resources.len()
                &&& cleanup_proposal(resources[at], rules, now) == Some(
                    analysis(resources, rules, now)[k],
                )
                &&& analysis(resources, rules, now)[k].resource == resources[at]
            },
        forall|k: int, l: int|
            0 <= k < l < analysis(resources, rules, now).len() ==> proposed_positions(
                resources,
                rules,
                now,
            )[k] < proposed_positions(resources, rules, now)[l],
    decreases resources.len(),
{
    if resources.len() > 0 {
        lemma_analysis_preserves_order(resources.drop_last(), rules, now);
        let rest = resources.drop_last();
        assert forall|k: int| 0 <= k < rest.len() implies rest[k] == resources[k] by {}
    }
}

/// Every resource that a rule makes eligible is proposed, and no other.
pub proof fn lemma_analysis_complete(
    resources: Seq<ResourceDescriptor>,
    rules: CleanupRules,
    now: Timestamp,
    at: int,
)
    requires
        0 <= at < resources.len(),
    ensures
        proposed_positions(resources, rules, now).contains(at) <==> finding(
            resources[at],
            rules,
            now,
        ) is Some,
    decreases resources.len(),
{
    let rest = resources.drop_last();
    let positions = proposed_positions(resources, rules, now);
    let before = proposed_positions(rest, rules, now);
    lemma_analysis_preserves_order(rest, rules, now);
    if at < resources.len() - 1 {
        lemma_analysis_complete(rest, rules, now, at);
        assert(rest[at] == resources[at]);
        if before.contains(at) {
            let k = choose|k: int| 0 <= k < before.len() && before[k] == at;
            assert(positions[k] == at);
        }
        if positions.contains(at) {
            let k = choose|k: int| 0 <= k < positions.len() && positions[k] == at;
            assert(before[k] == at);
        }
    } else {
        if cleanup_proposal(resources.last(), rules, now) is Some {
            assert(positions[before.len() as int] == at);
        } else {
            if positions.contains(at) {
                let k = choose|k: int| 0 <= k < positions.len() && positions[k] == at;
                assert(before[k] < rest.len());
            }
        }
    }
}

/// The analysis depends on nothing but the values handed in: two lists of
/// resources that hold the same values give the same proposals in the same
/// order, and so do two runs on one list.
pub proof fn lemma_analysis_repeatable(
    first_run: Seq<CleanupAction>,
    second_run: Seq<CleanupAction>,
    first_input: Seq<ResourceInfo>,
    second_input: Seq<ResourceInfo>,
    rules: CleanupRules,
    now: Timestamp,
)
    requires
        descriptors(first_input) == descriptors(second_input),
        proposals(first_run) == analysis(descriptors(first_input), rules, now),
        proposals(second_run) == analysis(descriptors(second_input), rules, now),
    ensures
        proposals(first_run) == proposals(second_run),
        first_run.len() == second_run.len(),
        forall|k: int| 0 <= k < first_run.len() ==> first_run[k]@ == second_run[k]@,
{
    assert(proposals(first_run).len() == first_run.len());
    assert(proposals(second_run).len() == second_run.len());
    assert forall|k: int| 0 <= k < first_run.len() implies first_run[k]@ == second_run[k]@ by {
        assert(proposals(first_run)[k] == first_run[k]@);
        assert(proposals(second_run)[k] == second_run[k]@);
    }
}

/// The resources that a list of proposals carries.
pub open spec fn proposed_resources(actions: Seq<CleanupProposal>) -> Seq<ResourceDescriptor> {
    actions.map_values(|action: CleanupProposal| action.resource)
}

/// Analyzing what an analysis proposed changes nothing: every resource it
/// carries is proposed again, for the same reason and the same savings.
pub proof fn lemma_analysis_idempotent(
    resources: Seq<ResourceDescriptor>,
    rules: CleanupRules,
    now: Timestamp,
)
    ensures
        analysis(proposed_resources(analysis(resources, rules, now)), rules, now) == analysis(
            resources,
            rules,
            now,
        ),
    decreases resources.len(),
{
    let rule = |resource: ResourceDescriptor| cleanup_proposal(resource, rules, now);
    if resources.len() == 0 {
        assert(proposed_resources(analysis(resources, rules, now)) =~= Seq::empty());
    } else {
        let rest = resources.drop_last();
        lemma_analysis_idempotent(rest, rules, now);
        match cleanup_proposal(resources.last(), rules, now) {
            Some(action) => {
                let carried = proposed_resources(analysis(rest, rules, now));
                let all = proposed_resources(analysis(resources, rules, now));
                assert(all =~= carried.push(resources.last()));
                assert(all.drop_last() =~= carried);
                assert(analysis(all, rules, now) =~= analysis(resources, rules, now));
            },
            None => {},
        }
    }
}

/// Every proposal saves exactly what its resource is estimated to cost.
pub proof fn lemma_savings_equal_cost(
    resources: Seq<ResourceDescriptor>,
    rules: CleanupRules,
    now: Timestamp,
    k: int,
)
    requires
        0 <= k < analysis(resources, rules, now).len(),
    ensures
        analysis(resources, rules, now)[k].estimated_savings == analysis(
            resources,
            rules,
            now,
        )[k].resource.estimated_cost,
{
    lemma_analysis_preserves_order(resources, rules, now);
    let at = proposed_positions(resources, rules, now)[k];
    assert(cleanup_proposal(resources[at], rules, now) == Some(analysis(resources, rules, now)[k]));
}

/// Each resource is judged on its own: the analysis of two lists put
/// together is the analysis of the first followed by that of the second. A
/// list may therefore be analyzed in parts, as long as the parts' proposals
/// are joined in the order of the parts.
pub proof fn lemma_analysis_distributes(
    first: Seq<ResourceDescriptor>,
    second: Seq<ResourceDescriptor>,
    rules: CleanupRules,
    now: Timestamp,
)
    ensures
        analysis(first + second, rules, now) == analysis(first, rules, now) + analysis(
            second,
            rules,
            now,
        ),
    decreases second.len(),
{
    if second.len() == 0 {
        assert(first + second =~= first);
        assert(analysis(first, rules, now) + analysis(second, rules, now) =~= analysis(
            first,
            rules,
            now,
        ));
    } else {
        lemma_analysis_distributes(first, second.drop_last(), rules, now);
        assert((first + second).drop_last() =~= first + second.drop_last());
        assert((first + second).last() == second.last());
        assert(analysis(first + second, rules, now) =~= analysis(first, rules, now) + analysis(
            second,
            rules,
            now,
        ));
    }
}

/// The total of two lists of proposals put together is the sum of their
/// totals.
pub proof fn lemma_total_distributes(first: Seq<CleanupProposal>, second: Seq<CleanupProposal>)
    ensures
        total_cents(first + second) == total_cents(first) + total_cents(second),
    decreases second.len(),
{
    if second.len() == 0 {
        assert(first + second =~= first);
    } else {
        lemma_total_distributes(first, second.drop_last());
        assert((first + second).drop_last() =~= first + second.drop_last());
        assert((first + second).last() == second.last());
    }
}

} // verus!
