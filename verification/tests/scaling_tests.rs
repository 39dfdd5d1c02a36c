use actlog::cooldown::{cooldown_active, CooldownState, LastAction};
use actlog::policy::{PolicyViolation, ScalingPolicy};
use actlog::scaling::{
    candidate_for, evaluate, reason_for, MetricsSnapshot, MetricsUnavailable, ScalingAction,
    ScalingDirection,
};
use actlog::time::Timestamp;
use actlog::units::Percent;

fn pct(tenths: u32) -> Percent {
    Percent::from_tenths(tenths)
}

fn at(secs: i64) -> Timestamp {
    Timestamp::new(secs, 0).expect("timestamp in range")
}

fn policy(min: i32, max: i32) -> ScalingPolicy {
    ScalingPolicy::new(min, max, pct(700), pct(800), 300, 600).expect("valid policy")
}

fn decide(current: i32, cpu: u32, memory: u32, policy: &ScalingPolicy) -> Option<ScalingAction> {
    evaluate("web", current, Some(pct(cpu)), Some(pct(memory)), policy, None, at(1_000_000))
        .expect("metrics are there")
}

#[test]
fn high_cpu_scales_up_by_one() {
    let action = decide(3, 900, 500, &policy(1, 10)).expect("an action");
    assert_eq!(
        action,
        ScalingAction {
            direction: ScalingDirection::ScaleUp,
            resource_id: "web".to_string(),
            current_instances: 3,
            target_instances: 4,
            reason: "High utilization (CPU: 90.0%, Memory: 50.0%)".to_string(),
            metrics: MetricsSnapshot { cpu_utilization: pct(900), memory_utilization: pct(500) },
        }
    );
    assert_eq!(action.direction.action_type(), "SCALE_UP");
}

#[test]
fn high_memory_alone_scales_up() {
    let action = decide(3, 100, 801, &policy(1, 10)).expect("an action");
    assert_eq!(action.direction, ScalingDirection::ScaleUp);
    assert_eq!(action.target_instances, 4);
    assert_eq!(action.reason, "High utilization (CPU: 10.0%, Memory: 80.1%)");
}

#[test]
fn scale_up_target_is_capped_at_the_maximum() {
    let action = decide(9, 900, 500, &policy(1, 10)).expect("an action");
    assert_eq!(action.target_instances, 10);
    assert!(decide(10, 900, 500, &policy(1, 10)).is_none());
}

#[test]
fn low_utilization_scales_down_by_one() {
    let action = decide(3, 100, 100, &policy(1, 10)).expect("an action");
    assert_eq!(
        action,
        ScalingAction {
            direction: ScalingDirection::ScaleDown,
            resource_id: "web".to_string(),
            current_instances: 3,
            target_instances: 2,
            reason: "Low utilization (CPU: 10.0%, Memory: 10.0%)".to_string(),
            metrics: MetricsSnapshot { cpu_utilization: pct(100), memory_utilization: pct(100) },
        }
    );
    assert_eq!(action.direction.action_type(), "SCALE_DOWN");
}

#[test]
fn scale_down_target_is_floored_at_the_minimum() {
    let action = decide(2, 100, 100, &policy(1, 10)).expect("an action");
    assert_eq!(action.target_instances, 1);
    assert!(decide(1, 100, 100, &policy(1, 10)).is_none());
}

#[test]
fn dead_zone_proposes_nothing() {
    assert!(decide(3, 500, 500, &policy(1, 10)).is_none());
    assert!(decide(3, 700, 800, &policy(1, 10)).is_none());
    assert!(decide(3, 350, 100, &policy(1, 10)).is_none());
    assert!(decide(3, 100, 400, &policy(1, 10)).is_none());
    assert!(decide(3, 349, 399, &policy(1, 10)).is_some());
}

#[test]
fn at_the_maximum_high_cpu_proposes_nothing() {
    assert!(decide(10, 900, 500, &policy(1, 10)).is_none());
    assert!(decide(5, 1000, 1000, &policy(5, 5)).is_none());
    assert!(decide(5, 0, 0, &policy(5, 5)).is_none());
}

#[test]
fn targets_stay_within_bounds_for_every_capacity_within_bounds() {
    let policy = policy(2, 6);
    for current in 2..=6 {
        for cpu in [0u32, 100, 349, 350, 699, 700, 701, 1000, 5000] {
            for memory in [0u32, 100, 399, 400, 800, 801, 1000] {
                if let Some(action) = decide(current, cpu, memory, &policy) {
                    assert!(2 <= action.target_instances && action.target_instances <= 6);
                    assert_eq!((action.target_instances - current).abs(), 1);
                    assert_eq!(action.current_instances, current);
                }
            }
        }
    }
}

#[test]
fn capacity_outside_the_bounds_is_brought_toward_them() {
    let policy = policy(2, 6);
    let over = decide(9, 900, 500, &policy).expect("an action");
    assert_eq!((over.direction, over.target_instances), (ScalingDirection::ScaleUp, 6));
    let under = decide(0, 100, 100, &policy).expect("an action");
    assert_eq!((under.direction, under.target_instances), (ScalingDirection::ScaleDown, 2));
    let extreme = decide(i32::MAX, 900, 500, &policy).expect("an action");
    assert_eq!(extreme.target_instances, 6);
    let lowest = decide(i32::MIN, 100, 100, &policy).expect("an action");
    assert_eq!(lowest.target_instances, 2);
}

#[test]
fn missing_metric_fails_the_evaluation() {
    let policy = policy(1, 10);
    let now = at(1_000_000);
    let expected = Err(MetricsUnavailable { resource_id: "web".to_string() });
    assert_eq!(evaluate("web", 3, None, Some(pct(100)), &policy, None, now), expected);
    assert_eq!(evaluate("web", 3, Some(pct(900)), None, &policy, None, now), expected);
    assert_eq!(evaluate("web", 3, None, None, &policy, None, now), expected);
}

#[test]
fn cooldown_suppresses_an_action_that_would_fire() {
    let policy = policy(1, 10);
    let last = LastAction { direction: ScalingDirection::ScaleUp, at: at(1_000_000) };
    let fire = |secs: i64, cpu: u32, memory: u32| {
        evaluate("web", 3, Some(pct(cpu)), Some(pct(memory)), &policy, Some(last), at(secs))
            .expect("metrics are there")
    };
    assert!(fire(1_000_000, 900, 500).is_none());
    assert!(fire(1_000_299, 900, 500).is_none());
    assert!(fire(1_000_300, 900, 500).is_some());
    assert!(fire(1_000_599, 100, 100).is_none());
    assert!(fire(1_000_600, 100, 100).is_some());
    assert!(fire(999_000, 900, 500).is_none());
}

#[test]
fn cooldown_counts_nanoseconds() {
    let policy = policy(1, 10);
    let last = LastAction {
        direction: ScalingDirection::ScaleDown,
        at: Timestamp::new(1_000_000, 1).expect("in range"),
    };
    assert!(cooldown_active(&policy, ScalingDirection::ScaleUp, Some(last), at(1_000_300)));
    let later = Timestamp::new(1_000_300, 1).expect("in range");
    assert!(!cooldown_active(&policy, ScalingDirection::ScaleUp, Some(last), later));
    assert!(cooldown_active(&policy, ScalingDirection::ScaleDown, Some(last), later));
    assert!(!cooldown_active(&policy, ScalingDirection::ScaleUp, None, later));
}

#[test]
fn zero_cooldown_never_suppresses_at_or_after_the_last_action() {
    let policy = ScalingPolicy::new(1, 10, pct(700), pct(800), 0, 0).expect("valid policy");
    let last = LastAction { direction: ScalingDirection::ScaleUp, at: at(1_000_000) };
    assert!(!cooldown_active(&policy, ScalingDirection::ScaleUp, Some(last), at(1_000_000)));
    assert!(cooldown_active(&policy, ScalingDirection::ScaleUp, Some(last), at(999_999)));
}

#[test]
fn candidate_ignores_the_cooldown() {
    let policy = policy(1, 10);
    let hot = MetricsSnapshot { cpu_utilization: pct(900), memory_utilization: pct(500) };
    assert_eq!(candidate_for(3, hot, &policy), Some((ScalingDirection::ScaleUp, 4)));
    let idle = MetricsSnapshot { cpu_utilization: pct(0), memory_utilization: pct(0) };
    assert_eq!(candidate_for(3, idle, &policy), Some((ScalingDirection::ScaleDown, 2)));
    let calm = MetricsSnapshot { cpu_utilization: pct(500), memory_utilization: pct(500) };
    assert_eq!(candidate_for(3, calm, &policy), None);
}

#[test]
fn reasons_state_both_percentages() {
    let metrics = MetricsSnapshot { cpu_utilization: pct(855), memory_utilization: pct(7) };
    assert_eq!(
        reason_for(ScalingDirection::ScaleUp, metrics),
        "High utilization (CPU: 85.5%, Memory: 0.7%)"
    );
    assert_eq!(
        reason_for(ScalingDirection::ScaleDown, metrics),
        "Low utilization (CPU: 85.5%, Memory: 0.7%)"
    );
}

#[test]
fn policy_is_validated_at_construction() {
    let ok = pct(700);
    assert_eq!(
        ScalingPolicy::new(-1, 10, ok, ok, 0, 0).err(),
        Some(PolicyViolation::NegativeMinimum)
    );
    assert_eq!(
        ScalingPolicy::new(5, 4, ok, ok, 0, 0).err(),
        Some(PolicyViolation::MinimumExceedsMaximum)
    );
    assert_eq!(
        ScalingPolicy::new(1, 4, pct(1001), ok, 0, 0).err(),
        Some(PolicyViolation::CpuThresholdOutOfRange)
    );
    assert_eq!(
        ScalingPolicy::new(1, 4, ok, pct(1001), 0, 0).err(),
        Some(PolicyViolation::MemoryThresholdOutOfRange)
    );
    assert_eq!(
        ScalingPolicy::new(1, 4, ok, ok, -1, 0).err(),
        Some(PolicyViolation::NegativeScaleUpCooldown)
    );
    assert_eq!(
        ScalingPolicy::new(1, 4, ok, ok, 0, -1).err(),
        Some(PolicyViolation::NegativeScaleDownCooldown)
    );
    assert_eq!(
        ScalingPolicy::new(-1, -2, pct(2000), pct(2000), -1, -1).err(),
        Some(PolicyViolation::NegativeMinimum)
    );
    assert!(ScalingPolicy::new(0, 0, pct(0), pct(1000), 0, 0).is_ok());
    assert!(ScalingPolicy::new(4, 4, pct(1000), pct(0), i32::MAX, i32::MAX).is_ok());
}

#[test]
fn policy_getters_return_what_was_given() {
    let policy = ScalingPolicy::new(2, 9, pct(650), pct(820), 30, 90).expect("valid policy");
    assert_eq!(policy.min_instances(), 2);
    assert_eq!(policy.max_instances(), 9);
    assert_eq!(policy.cpu_threshold(), pct(650));
    assert_eq!(policy.memory_threshold(), pct(820));
    assert_eq!(policy.scale_up_cooldown(), 30);
    assert_eq!(policy.scale_down_cooldown(), 90);
    let defaults = ScalingPolicy::with_default_cooldowns(1, 10, pct(700), pct(800))
        .expect("valid policy");
    assert_eq!(defaults.scale_up_cooldown(), 300);
    assert_eq!(defaults.scale_down_cooldown(), 600);
    assert_eq!(
        ScalingPolicy::with_default_cooldowns(3, 2, pct(700), pct(800)).err(),
        Some(PolicyViolation::MinimumExceedsMaximum)
    );
}

#[test]
fn violations_are_described() {
    assert_eq!(
        PolicyViolation::MinimumExceedsMaximum.describe(),
        "min_instances must not exceed max_instances"
    );
    assert_eq!(PolicyViolation::NegativeMinimum.describe(), "min_instances must not be negative");
    assert_eq!(
        PolicyViolation::CpuThresholdOutOfRange.describe(),
        "cpu_threshold must lie between 0 and 100"
    );
    assert_eq!(
        PolicyViolation::MemoryThresholdOutOfRange.describe(),
        "memory_threshold must lie between 0 and 100"
    );
    assert_eq!(
        PolicyViolation::NegativeScaleUpCooldown.describe(),
        "scale_up_cooldown must not be negative"
    );
    assert_eq!(
        PolicyViolation::NegativeScaleDownCooldown.describe(),
        "scale_down_cooldown must not be negative"
    );
    assert_eq!(
        PolicyViolation::UtilizationThresholdOutOfRange.describe(),
        "utilization_threshold must lie between 0 and 100"
    );
}

#[test]
fn cooldown_state_keeps_the_last_action_of_each_resource() {
    let state = CooldownState::new();
    assert_eq!(state.len(), 0);
    assert_eq!(state.last_action("web"), None);
    let state = state.record("web", ScalingDirection::ScaleUp, at(100));
    let state = state.record("db", ScalingDirection::ScaleDown, at(200));
    assert_eq!(state.len(), 2);
    assert_eq!(
        state.last_action("web"),
        Some(LastAction { direction: ScalingDirection::ScaleUp, at: at(100) })
    );
    assert_eq!(
        state.last_action("db"),
        Some(LastAction { direction: ScalingDirection::ScaleDown, at: at(200) })
    );
    let state = state.record("web", ScalingDirection::ScaleDown, at(300));
    assert_eq!(state.len(), 2);
    assert_eq!(
        state.last_action("web"),
        Some(LastAction { direction: ScalingDirection::ScaleDown, at: at(300) })
    );
    assert_eq!(
        state.last_action("db"),
        Some(LastAction { direction: ScalingDirection::ScaleDown, at: at(200) })
    );
    assert_eq!(state.last_action("Web"), None);
    assert_eq!(state.last_action(""), None);
}
