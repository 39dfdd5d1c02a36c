//! The scaling policy evaluator: from a fleet's current capacity, its
//! observed utilization, the configured policy and the last action on record
//! to at most one scaling action.
//!
//! Capacity moves one instance at a time, never leaves the configured bounds,
//! and stays put in the band between half a threshold and the threshold.

use crate::cooldown::{cooldown_active, cooling_down, LastAction};
use crate::policy::{ScalingPolicy, ScalingRules};
use crate::cooldown::cooldown_seconds;
use crate::time::{elapsed_nanos, Timestamp, NANOS_PER_SECOND};
use crate::units::Percent;
use vstd::prelude::*;
use vstd::string::StringExecFns;

verus! {

/// The way a fleet's capacity is to change.
#[derive(Clone, Copy, Debug, PartialEq, Eq, Structural)]
pub enum ScalingDirection {
    ScaleUp,
    ScaleDown,
}

impl ScalingDirection {
    /// The tag under which an action in this direction is reported.
    pub open spec fn tag(self) -> Seq<char> {
        match self {
            ScalingDirection::ScaleUp => "SCALE_UP"@,
            ScalingDirection::ScaleDown => "SCALE_DOWN"@,
        }
    }

    /// The tag under which an action in this direction is reported.
    pub fn action_type(&self) -> (s: String)
        ensures
            s@ == self.tag(),
    {
        match self {
            ScalingDirection::ScaleUp => String::from_str("SCALE_UP"),
            ScalingDirection::ScaleDown => String::from_str("SCALE_DOWN"),
        }
    }
}

/// The utilization that a decision was taken on.
#[derive(Clone, Copy, Debug, PartialEq, Eq, Structural)]
pub struct MetricsSnapshot {
    pub cpu_utilization: Percent,
    pub memory_utilization: Percent,
}

/// A proposed change of a fleet's capacity.
#[derive(Clone, Debug, PartialEq, Eq)]
pub struct ScalingAction {
    pub direction: ScalingDirection,
    pub resource_id: String,
    pub current_instances: i32,
    pub target_instances: i32,
    pub reason: String,
    pub metrics: MetricsSnapshot,
}

/// A scaling action as mathematical values.
pub struct ScalingProposal {
    pub direction: ScalingDirection,
    pub resource_id: Seq<char>,
    pub current_instances: int,
    pub target_instances: int,
    pub reason: Seq<char>,
    pub metrics: MetricsSnapshot,
}

impl View for ScalingAction {
    type V = ScalingProposal;

    open spec fn view(&self) -> ScalingProposal {
        ScalingProposal {
            direction: self.direction,
            resource_id: self.resource_id@,
            current_instances: self.current_instances as int,
            target_instances: self.target_instances as int,
            reason: self.reason@,
            metrics: self.metrics,
        }
    }
}

/// The evaluation of a resource failed because a metric it needs was not
/// available. No default stands in for a missing metric.
#[derive(Clone, Debug, PartialEq, Eq)]
pub struct MetricsUnavailable {
    pub resource_id: String,
}

/// A direction and the capacity to reach.
pub struct Verdict {
    pub direction: ScalingDirection,
    pub target: int,
}

/// CPU or memory is above its threshold.
pub open spec fn scale_up_due(metrics: MetricsSnapshot, rules: ScalingRules) -> bool {
    metrics.cpu_utilization.tenths > rules.cpu_threshold.tenths || metrics.memory_utilization.tenths
        > rules.memory_threshold.tenths
}

/// CPU and memory are both below half their threshold.
pub open spec fn scale_down_due(metrics: MetricsSnapshot, rules: ScalingRules) -> bool {
    2 * metrics.cpu_utilization.tenths < rules.cpu_threshold.tenths && 2
        * metrics.memory_utilization.tenths < rules.memory_threshold.tenths
}

pub open spec fn lesser(a: int, b: int) -> int {
    if a <= b {
        a
    } else {
        b
    }
}

pub open spec fn greater(a: int, b: int) -> int {
    if a >= b {
        a
    } else {
        b
    }
}

/// What the thresholds ask for, before the cooldown is looked at: one
/// instance more, capped at the maximum, when a threshold is exceeded; one
/// instance less, floored at the minimum, when both metrics are below half
/// their threshold; nothing in between, and nothing where the capacity would
/// not change.
pub open spec fn candidate(current: int, metrics: MetricsSnapshot, rules: ScalingRules) -> Option<
    Verdict,
> {
    if scale_up_due(metrics, rules) {
        let target = lesser(current + 1, rules.max_instances);
        if target != current {
            Some(Verdict { direction: ScalingDirection::ScaleUp, target })
        } else {
            None
        }
    } else if scale_down_due(metrics, rules) {
        let target = greater(current - 1, rules.min_instances);
        if target != current {
            Some(Verdict { direction: ScalingDirection::ScaleDown, target })
        } else {
            None
        }
    } else {
        None
    }
}

/// The candidate, unless the cooldown of its direction has not yet passed
/// since the last action on record.
pub open spec fn decision(
    current: int,
    metrics: MetricsSnapshot,
    rules: ScalingRules,
    last: Option<LastAction>,
    now: Timestamp,
) -> Option<Verdict> {
    match candidate(current, metrics, rules) {
        Some(verdict) => if cooling_down(rules, verdict.direction, last, now) {
            None
        } else {
            Some(verdict)
        },
        None => None,
    }
}

/// The reason given for an action: which way utilization points, and both
/// observed percentages.
pub open spec fn scaling_reason(direction: ScalingDirection, metrics: MetricsSnapshot) -> Seq<char> {
    (match direction {
        ScalingDirection::ScaleUp => "High utilization (CPU: "@,
        ScalingDirection::ScaleDown => "Low utilization (CPU: "@,
    }) + metrics.cpu_utilization.text() + "%, Memory: "@ + metrics.memory_utilization.text()
        + "%)"@
}

/// The action that is proposed for a resource, if any.
pub open spec fn proposal(
    resource_id: Seq<char>,
    current: int,
    metrics: MetricsSnapshot,
    rules: ScalingRules,
    last: Option<LastAction>,
    now: Timestamp,
) -> Option<ScalingProposal> {
    match decision(current, metrics, rules, last, now) {
        Some(verdict) => Some(
            ScalingProposal {
                direction: verdict.direction,
                resource_id,
                current_instances: current,
                target_instances: verdict.target,
                reason: scaling_reason(verdict.direction, metrics),
                metrics,
            },
        ),
        None => None,
    }
}

/// What an evaluation returns: a failure when a metric is missing, else the
/// proposal for the observed metrics.
pub open spec fn evaluation(
    resource_id: Seq<char>,
    current: int,
    cpu_utilization: Option<Percent>,
    memory_utilization: Option<Percent>,
    rules: ScalingRules,
    last: Option<LastAction>,
    now: Timestamp,
) -> Result<Option<ScalingProposal>, Seq<char>> {
    match (cpu_utilization, memory_utilization) {
        (Some(cpu), Some(memory)) => Ok(
            proposal(
                resource_id,
                current,
                MetricsSnapshot { cpu_utilization: cpu, memory_utilization: memory },
                rules,
                last,
                now,
            ),
        ),
        _ => Err(resource_id),
    }
}

/// The mathematical value of what [`evaluate`] hands back.
pub open spec fn evaluation_view(r: Result<Option<ScalingAction>, MetricsUnavailable>) -> Result<
    Option<ScalingProposal>,
    Seq<char>,
> {
    match r {
        Ok(Some(action)) => Ok(Some(action@)),
        Ok(None) => Ok(None),
        Err(failure) => Err(failure.resource_id@),
    }
}

/// The text of the reason for an action in `direction` taken on `metrics`.
pub fn reason_for(direction: ScalingDirection, metrics: MetricsSnapshot) -> (reason: String)
    ensures
        reason@ == scaling_reason(direction, metrics),
{
    let mut reason = match direction {
        ScalingDirection::ScaleUp => String::from_str("High utilization (CPU: "),
        ScalingDirection::ScaleDown => String::from_str("Low utilization (CPU: "),
    };
    metrics.cpu_utilization.append_to(&mut reason);
    reason.append("%, Memory: ");
    metrics.memory_utilization.append_to(&mut reason);
    reason.append("%)");
    assert(reason@ =~= scaling_reason(direction, metrics));
    reason
}

/// The direction and target that the thresholds ask for, before the cooldown
/// is looked at.
pub fn candidate_for(current_instances: i32, metrics: MetricsSnapshot, policy: &ScalingPolicy) -> (r:
    Option<(ScalingDirection, i32)>)
    ensures
        match r {
            Some((direction, target)) => candidate(current_instances as int, metrics, policy@)
                == Some(Verdict { direction, target: target as int }),
            None => candidate(current_instances as int, metrics, policy@) is None,
        },
{
    let max_instances = policy.max_instances();
    let min_instances = policy.min_instances();
    if metrics.cpu_utilization.exceeds(policy.cpu_threshold())
        || metrics.memory_utilization.exceeds(policy.memory_threshold()) {
        let target = if current_instances < max_instances {
            current_instances + 1
        } else {
            max_instances
        };
        if target != current_instances {
            Some((ScalingDirection::ScaleUp, target))
        } else {
            None
        }
    } else if metrics.cpu_utilization.below_half_of(policy.cpu_threshold())
        && metrics.memory_utilization.below_half_of(policy.memory_threshold()) {
        let target = if current_instances > min_instances {
            current_instances - 1
        } else {
            min_instances
        };
        if target != current_instances {
            Some((ScalingDirection::ScaleDown, target))
        } else {
            None
        }
    } else {
        None
    }
}

/// Decides whether the capacity of `resource_id` should change.
///
/// Fails when either metric is missing. Otherwise proposes at most one
/// action, one instance up or down and within the policy's bounds, and none
/// while the cooldown of that direction has not passed since `last_action`.
pub fn evaluate(
    resource_id: &str,
    current_instances: i32,
    cpu_utilization: Option<Percent>,
    memory_utilization: Option<Percent>,
    policy: &ScalingPolicy,
    last_action: Option<LastAction>,
    now: Timestamp,
) -> (r: Result<Option<ScalingAction>, MetricsUnavailable>)
    ensures
        evaluation_view(r) == evaluation(
            resource_id@,
            current_instances as int,
            cpu_utilization,
            memory_utilization,
            policy@,
            last_action,
            now,
        ),
        r is Err <==> (cpu_utilization is None || memory_utilization is None),
        r matches Ok(Some(action)) ==> action.target_instances != current_instances,
        r matches Ok(Some(action)) ==> (policy@.min_instances <= current_instances
            <= policy@.max_instances ==> policy@.min_instances <= action.target_instances
            <= policy@.max_instances),
{
    let (cpu, memory) = match (cpu_utilization, memory_utilization) {
        (Some(cpu), Some(memory)) => (cpu, memory),
        _ => {
            return Err(MetricsUnavailable { resource_id: resource_id.to_owned() });
        },
    };
    let metrics = MetricsSnapshot { cpu_utilization: cpu, memory_utilization: memory };
    match candidate_for(current_instances, metrics, policy) {
        None => Ok(None),
        Some((direction, target)) => {
            if cooldown_active(policy, direction, last_action, now) {
                Ok(None)
            } else {
                Ok(
                    Some(
                        ScalingAction {
                            direction,
                            resource_id: resource_id.to_owned(),
                            current_instances,
                            target_instances: target,
                            reason: reason_for(direction, metrics),
                            metrics,
                        },
                    ),
                )
            }
        },
    }
}

/// From a capacity within the bounds the evaluator never proposes a target
/// outside them, whatever the utilization, the thresholds and the cooldown
/// state.
pub proof fn lemma_target_within_bounds(
    current: int,
    metrics: MetricsSnapshot,
    rules: ScalingRules,
    last: Option<LastAction>,
    now: Timestamp,
)
    requires
        rules.min_instances <= current <= rules.max_instances,
    ensures
        candidate(current, metrics, rules) matches Some(verdict) ==> rules.min_instances
            <= verdict.target <= rules.max_instances,
        decision(current, metrics, rules, last, now) matches Some(verdict) ==> rules.min_instances
            <= verdict.target <= rules.max_instances,
{
}

/// From any capacity, a scale-up never proposes more than the maximum and a
/// scale-down never less than the minimum.
pub proof fn lemma_target_capped(current: int, metrics: MetricsSnapshot, rules: ScalingRules)
    ensures
        candidate(current, metrics, rules) matches Some(verdict) ==> match verdict.direction {
            ScalingDirection::ScaleUp => verdict.target <= rules.max_instances,
            ScalingDirection::ScaleDown => verdict.target >= rules.min_instances,
        },
{
}

/// From a capacity within the bounds every proposed action moves exactly one
/// instance, however far utilization is from the threshold.
pub proof fn lemma_step_is_one_instance(
    current: int,
    metrics: MetricsSnapshot,
    rules: ScalingRules,
    last: Option<LastAction>,
    now: Timestamp,
)
    requires
        rules.min_instances <= current <= rules.max_instances,
    ensures
        decision(current, metrics, rules, last, now) matches Some(verdict) ==> verdict.target
            == match verdict.direction {
            ScalingDirection::ScaleUp => current + 1,
            ScalingDirection::ScaleDown => current - 1,
        },
{
}

/// An action that the thresholds ask for is suppressed while the cooldown of
/// its direction has not passed since the last action recorded for the
/// resource.
pub proof fn lemma_cooldown_suppresses(
    resource_id: Seq<char>,
    current: int,
    metrics: MetricsSnapshot,
    rules: ScalingRules,
    last: LastAction,
    now: Timestamp,
)
    requires
        candidate(current, metrics, rules) matches Some(verdict) && elapsed_nanos(now, last.at)
            < cooldown_seconds(rules, verdict.direction) * (NANOS_PER_SECOND as int),
    ensures
        decision(current, metrics, rules, Some(last), now) is None,
        proposal(resource_id, current, metrics, rules, Some(last), now) is None,
{
}

/// Once the cooldown has passed, or where no action is on record, the
/// cooldown changes nothing: the evaluator proposes what the thresholds ask
/// for.
pub proof fn lemma_cooldown_passes(
    current: int,
    metrics: MetricsSnapshot,
    rules: ScalingRules,
    last: Option<LastAction>,
    now: Timestamp,
)
    requires
        last matches Some(action) ==> forall|direction: ScalingDirection|
            elapsed_nanos(now, action.at) >= #[trigger] cooldown_seconds(rules, direction) * (
            NANOS_PER_SECOND as int),
    ensures
        decision(current, metrics, rules, last, now) == candidate(current, metrics, rules),
{
    match candidate(current, metrics, rules) {
        Some(verdict) => {
            match last {
                Some(action) => {
                    assert(elapsed_nanos(now, action.at) >= cooldown_seconds(
                        rules,
                        verdict.direction,
                    ) * (NANOS_PER_SECOND as int));
                },
                None => {},
            }
        },
        None => {},
    }
}

/// With a metric above its threshold and no cooldown in the way, the
/// evaluator proposes to scale up to one instance more, or to the maximum
/// where that is less; it proposes nothing only where this is the current
/// capacity.
pub proof fn lemma_over_threshold_scales_up(
    current: int,
    metrics: MetricsSnapshot,
    rules: ScalingRules,
    last: Option<LastAction>,
    now: Timestamp,
)
    requires
        scale_up_due(metrics, rules),
        !cooling_down(rules, ScalingDirection::ScaleUp, last, now),
    ensures
        decision(current, metrics, rules, last, now) == if lesser(current + 1, rules.max_instances)
            != current {
            Some(
                Verdict {
                    direction: ScalingDirection::ScaleUp,
                    target: lesser(current + 1, rules.max_instances),
                },
            )
        } else {
            None
        },
{
}

/// With both metrics below half their threshold and no cooldown in the way,
/// the evaluator proposes to scale down to one instance less, or to the
/// minimum where that is more; it proposes nothing only where this is the
/// current capacity.
pub proof fn lemma_under_half_scales_down(
    current: int,
    metrics: MetricsSnapshot,
    rules: ScalingRules,
    last: Option<LastAction>,
    now: Timestamp,
)
    requires
        scale_down_due(metrics, rules),
        !cooling_down(rules, ScalingDirection::ScaleDown, last, now),
    ensures
        decision(current, metrics, rules, last, now) == if greater(
            current - 1,
            rules.min_instances,
        ) != current {
            Some(
                Verdict {
                    direction: ScalingDirection::ScaleDown,
                    target: greater(current - 1, rules.min_instances),
                },
            )
        } else {
            None
        },
{
}

/// Between half a threshold and the threshold nothing is proposed: with
/// neither metric above its threshold and at least one of them at or above
/// half of it, the capacity stays as it is.
pub proof fn lemma_dead_zone(
    current: int,
    metrics: MetricsSnapshot,
    rules: ScalingRules,
    last: Option<LastAction>,
    now: Timestamp,
)
    requires
        metrics.cpu_utilization.tenths <= rules.cpu_threshold.tenths,
        metrics.memory_utilization.tenths <= rules.memory_threshold.tenths,
        2 * metrics.cpu_utilization.tenths >= rules.cpu_threshold.tenths || 2
            * metrics.memory_utilization.tenths >= rules.memory_threshold.tenths,
    ensures
        candidate(current, metrics, rules) is None,
        decision(current, metrics, rules, last, now) is None,
{
}

/// No observation asks for more and for less capacity at once.
pub proof fn lemma_directions_exclusive(metrics: MetricsSnapshot, rules: ScalingRules)
    ensures
        !(scale_up_due(metrics, rules) && scale_down_due(metrics, rules)),
{
}

/// At the maximum nothing is added, at the minimum nothing is removed.
pub proof fn lemma_clamped_at_bounds(
    current: int,
    metrics: MetricsSnapshot,
    rules: ScalingRules,
    last: Option<LastAction>,
    now: Timestamp,
)
    requires
        rules.min_instances <= rules.max_instances,
    ensures
        current == rules.max_instances && scale_up_due(metrics, rules) ==> decision(
            current,
            metrics,
            rules,
            last,
            now,
        ) is None,
        current == rules.min_instances && scale_down_due(metrics, rules) ==> decision(
            current,
            metrics,
            rules,
            last,
            now,
        ) is None,
{
}

} // verus!
