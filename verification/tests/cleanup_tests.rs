use actlog::cleanup::{
    analyze_cleanup_actions, analyze_resource, total_savings, CleanupAction, ResourceInfo, Tag,
};
use actlog::policy::{CleanupPolicy, PolicyViolation};
use actlog::time::Timestamp;
use actlog::units::{Money, Percent};

const DAY: i64 = 86_400;
const NOW: i64 = 1_700_000_000;

fn now() -> Timestamp {
    Timestamp::new(NOW, 0).expect("in range")
}

fn days_ago(days: i64) -> Option<Timestamp> {
    Some(Timestamp::new(NOW - days * DAY, 0).expect("in range"))
}

fn resource(id: &str, utilization: u32, cost: u64, created: Option<Timestamp>) -> ResourceInfo {
    ResourceInfo {
        id: id.to_string(),
        name: format!("{id}-name"),
        resource_type: "Compute Instance".to_string(),
        region: "us-central1".to_string(),
        state: "TERMINATED".to_string(),
        creation_date: created,
        last_used: None,
        utilization: Percent::from_tenths(utilization),
        estimated_cost: Money::from_cents(cost),
        tags: vec![Tag { key: "team".to_string(), value: id.to_string() }],
    }
}

fn policy(age: u32, utilization: u32) -> CleanupPolicy {
    CleanupPolicy::new(age, Percent::from_tenths(utilization)).expect("valid policy")
}

#[test]
fn low_utilization_is_proposed_with_cost_as_savings() {
    let idle = resource("a", 50, 2500, days_ago(1));
    let action = analyze_resource(&idle, &policy(30, 100), now()).expect("an action");
    assert!(action.reason.contains("Low utilization"));
    assert_eq!(action.reason, "Low utilization (5.0%)");
    assert_eq!(action.estimated_savings, idle.estimated_cost);
    assert_eq!(action.estimated_savings, Money::from_cents(2500));
    assert_eq!(action.action_type, "DELETE");
    assert_eq!(action.resource, idle);
}

#[test]
fn old_resource_is_proposed_with_its_age() {
    let old = resource("b", 500, 3000, days_ago(45));
    let action = analyze_resource(&old, &policy(30, 100), now()).expect("an action");
    assert_eq!(action.reason, "Old resource (45 days)");
    assert_eq!(action.estimated_savings, Money::from_cents(3000));
    assert_eq!(action.resource, old);
}

#[test]
fn low_utilization_wins_over_age() {
    let both = resource("c", 99, 100, days_ago(400));
    let action = analyze_resource(&both, &policy(30, 100), now()).expect("an action");
    assert_eq!(action.reason, "Low utilization (9.9%)");
}

#[test]
fn thresholds_are_strict() {
    let policy = policy(30, 100);
    assert!(analyze_resource(&resource("d", 100, 1, days_ago(30)), &policy, now()).is_none());
    assert!(analyze_resource(&resource("d", 100, 1, days_ago(31)), &policy, now()).is_some());
    assert!(analyze_resource(&resource("d", 99, 1, None), &policy, now()).is_some());
    assert!(analyze_resource(&resource("d", 100, 1, None), &policy, now()).is_none());
    let almost = Some(Timestamp::new(NOW - 31 * DAY + 1, 0).expect("in range"));
    assert!(analyze_resource(&resource("d", 100, 1, almost), &policy, now()).is_none());
}

#[test]
fn resources_created_in_the_future_are_not_old() {
    let policy = policy(0, 0);
    let future = Some(Timestamp::new(NOW + 90 * DAY, 0).expect("in range"));
    assert!(analyze_resource(&resource("e", 0, 1, future), &policy, now()).is_none());
    assert!(analyze_resource(&resource("e", 0, 1, days_ago(0)), &policy, now()).is_none());
    let one = analyze_resource(&resource("e", 0, 1, days_ago(1)), &policy, now());
    assert_eq!(one.expect("an action").reason, "Old resource (1 days)");
}

#[test]
fn analysis_keeps_the_order_of_the_input() {
    let resources = vec![
        resource("r1", 500, 10, days_ago(45)),
        resource("r2", 500, 20, days_ago(2)),
        resource("r3", 30, 30, None),
        resource("r4", 900, 40, None),
        resource("r5", 0, 50, days_ago(100)),
    ];
    let actions = analyze_cleanup_actions(&resources, &policy(30, 100), now());
    let ids: Vec<&str> = actions.iter().map(|a| a.resource.id.as_str()).collect();
    assert_eq!(ids, vec!["r1", "r3", "r5"]);
    let reasons: Vec<&str> = actions.iter().map(|a| a.reason.as_str()).collect();
    assert_eq!(
        reasons,
        vec!["Old resource (45 days)", "Low utilization (3.0%)", "Low utilization (0.0%)"]
    );
    assert_eq!(actions[0].resource, resources[0]);
    assert_eq!(actions[1].resource, resources[2]);
    assert_eq!(actions[2].resource, resources[4]);
}

#[test]
fn analysis_is_repeatable() {
    let resources = vec![
        resource("r1", 500, 10, days_ago(45)),
        resource("r2", 500, 20, days_ago(2)),
        resource("r3", 30, 30, None),
    ];
    let policy = policy(30, 100);
    let first = analyze_cleanup_actions(&resources, &policy, now());
    let second = analyze_cleanup_actions(&resources, &policy, now());
    assert_eq!(first, second);
    let carried: Vec<ResourceInfo> = first.iter().map(|a| a.resource.clone()).collect();
    let again = analyze_cleanup_actions(&carried, &policy, now());
    assert_eq!(again, first);
}

#[test]
fn analysis_of_nothing_proposes_nothing() {
    let none: Vec<ResourceInfo> = Vec::new();
    assert!(analyze_cleanup_actions(&none, &policy(30, 100), now()).is_empty());
    let busy = vec![resource("r", 900, 10, days_ago(1))];
    assert!(analyze_cleanup_actions(&busy, &policy(30, 100), now()).is_empty());
}

#[test]
fn total_savings_is_the_sum() {
    let resources = vec![
        resource("r1", 0, 2500, None),
        resource("r2", 0, 3000, None),
        resource("r3", 900, 999, None),
        resource("r4", 0, 1, None),
    ];
    let actions = analyze_cleanup_actions(&resources, &policy(30, 100), now());
    assert_eq!(total_savings(&actions), 5501);
    let none: Vec<CleanupAction> = Vec::new();
    assert_eq!(total_savings(&none), 0);
}

#[test]
fn total_savings_does_not_overflow() {
    let resources = vec![resource("r1", 0, u64::MAX, None), resource("r2", 0, u64::MAX, None)];
    let actions = analyze_cleanup_actions(&resources, &policy(30, 100), now());
    assert_eq!(total_savings(&actions), 2 * (u64::MAX as u128));
}

#[test]
fn snapshot_copies_every_field() {
    let mut source = resource("r1", 12, 34, days_ago(5));
    source.last_used = days_ago(2);
    source.tags.push(Tag { key: "env".to_string(), value: "prod".to_string() });
    assert_eq!(source.snapshot(), source);
}

#[test]
fn cleanup_policy_is_validated() {
    assert_eq!(
        CleanupPolicy::new(30, Percent::from_tenths(1001)).err(),
        Some(PolicyViolation::UtilizationThresholdOutOfRange)
    );
    let policy = CleanupPolicy::new(30, Percent::from_tenths(1000)).expect("valid policy");
    assert_eq!(policy.age_threshold_days(), 30);
    assert_eq!(policy.utilization_threshold(), Percent::from_tenths(1000));
}
