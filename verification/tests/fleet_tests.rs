use actlog::confirmation::{is_affirmative, is_consent};
use actlog::text::same_text;
use actlog::cooldown::CooldownState;
use actlog::discovery::{
    bucket_candidate, instant_or, removal_for, stopped_instance_candidate, Removal,
};
use actlog::fleet::{analyze_scaling, is_selected, GroupObservation};
use actlog::metrics::{comes_not_after, latest_position, latest_reading, Datapoint};
use actlog::policy::ScalingPolicy;
use actlog::scaling::ScalingDirection;
use actlog::time::{RawInstant, Timestamp};
use actlog::units::{Money, Percent};
use actlog::workflow::{Event, Outcome, Phase, Workflow};

fn pct(tenths: u32) -> Percent {
    Percent::from_tenths(tenths)
}

fn at(secs: i64) -> Timestamp {
    Timestamp::new(secs, 0).expect("timestamp in range")
}

fn group(name: &str, capacity: i32, cpu: Option<u32>, memory: Option<u32>) -> GroupObservation {
    GroupObservation {
        name: Some(name.to_string()),
        desired_capacity: Some(capacity),
        cpu_utilization: cpu.map(pct),
        memory_utilization: memory.map(pct),
    }
}

fn policy() -> ScalingPolicy {
    ScalingPolicy::new(1, 10, pct(700), pct(800), 300, 600).expect("valid policy")
}

#[test]
fn fleet_is_evaluated_group_by_group_in_order() {
    let groups = vec![
        group("a", 3, Some(900), Some(700)),
        group("b", 3, Some(500), Some(700)),
        group("c", 3, None, Some(700)),
        group("d", 3, Some(100), Some(100)),
        group("e", 10, Some(900), Some(700)),
        group("f", 3, Some(900), None),
    ];
    let plan = analyze_scaling(&groups, &policy(), &CooldownState::new(), &None, at(1_000));
    let proposed: Vec<(&str, ScalingDirection, i32, i32)> = plan
        .actions
        .iter()
        .map(|a| (a.resource_id.as_str(), a.direction, a.current_instances, a.target_instances))
        .collect();
    assert_eq!(
        proposed,
        vec![("a", ScalingDirection::ScaleUp, 3, 4), ("d", ScalingDirection::ScaleDown, 3, 2)]
    );
    assert_eq!(plan.skipped, vec!["c".to_string(), "f".to_string()]);
    assert_eq!(plan.actions[0].reason, "High utilization (CPU: 90.0%, Memory: 70.0%)");
}

#[test]
fn fleet_can_be_narrowed_to_one_group() {
    let groups = vec![
        group("a", 3, Some(900), Some(700)),
        group("b", 3, Some(900), Some(700)),
        group("c", 3, None, None),
    ];
    let only = Some("b".to_string());
    let plan = analyze_scaling(&groups, &policy(), &CooldownState::new(), &only, at(1_000));
    assert_eq!(plan.actions.len(), 1);
    assert_eq!(plan.actions[0].resource_id, "b");
    assert!(plan.skipped.is_empty());
    let missing = Some("zzz".to_string());
    let plan = analyze_scaling(&groups, &policy(), &CooldownState::new(), &missing, at(1_000));
    assert!(plan.actions.is_empty() && plan.skipped.is_empty());
}

#[test]
fn fleet_reads_the_cooldown_state_per_group() {
    let groups = vec![group("a", 3, Some(900), Some(700)), group("b", 3, Some(900), Some(700))];
    let cooldowns = CooldownState::new().record("a", ScalingDirection::ScaleUp, at(900));
    let plan = analyze_scaling(&groups, &policy(), &cooldowns, &None, at(1_000));
    assert_eq!(plan.actions.len(), 1);
    assert_eq!(plan.actions[0].resource_id, "b");
    let plan = analyze_scaling(&groups, &policy(), &cooldowns, &None, at(1_200));
    assert_eq!(plan.actions.len(), 2);
}

#[test]
fn group_without_name_or_capacity() {
    let anonymous = GroupObservation {
        name: None,
        desired_capacity: None,
        cpu_utilization: Some(pct(900)),
        memory_utilization: Some(pct(100)),
    };
    assert!(is_selected(&anonymous, &None));
    assert!(!is_selected(&anonymous, &Some(String::new())));
    assert!(is_selected(&group("a", 1, None, None), &Some("a".to_string())));
    assert!(!is_selected(&group("a", 1, None, None), &Some("A".to_string())));
    let plan =
        analyze_scaling(&[anonymous], &policy(), &CooldownState::new(), &None, at(1_000));
    assert_eq!(plan.actions.len(), 1);
    assert_eq!(plan.actions[0].resource_id, "");
    assert_eq!(plan.actions[0].current_instances, 0);
    assert_eq!(plan.actions[0].target_instances, 1);
}

fn sample(secs: Option<i64>, average: Option<u32>) -> Datapoint {
    Datapoint { timestamp: secs.map(at), average: average.map(pct) }
}

#[test]
fn reading_is_the_latest_sample() {
    let window = vec![
        sample(Some(300), Some(400)),
        sample(Some(600), Some(855)),
        sample(Some(0), Some(100)),
    ];
    assert_eq!(latest_position(&window), Some(1));
    assert_eq!(latest_reading(&window), Some(pct(855)));
}

#[test]
fn reading_of_equally_late_samples_is_the_last() {
    let window = vec![
        sample(Some(600), Some(1)),
        sample(Some(600), Some(2)),
        sample(Some(10), Some(3)),
    ];
    assert_eq!(latest_position(&window), Some(1));
    assert_eq!(latest_reading(&window), Some(pct(2)));
    let untimed = vec![sample(None, Some(1)), sample(None, Some(2))];
    assert_eq!(latest_position(&untimed), Some(1));
    let mixed = vec![sample(Some(-5), Some(1)), sample(None, Some(2))];
    assert_eq!(latest_position(&mixed), Some(0));
}

#[test]
fn reading_is_unavailable_without_a_value() {
    let empty: Vec<Datapoint> = Vec::new();
    assert_eq!(latest_position(&empty), None);
    assert_eq!(latest_reading(&empty), None);
    let hollow = vec![sample(Some(0), Some(100)), sample(Some(600), None)];
    assert_eq!(latest_reading(&hollow), None);
}

#[test]
fn samples_are_ordered_by_nanoseconds_too() {
    let a = Timestamp::new(10, 5).expect("in range");
    let b = Timestamp::new(10, 6).expect("in range");
    assert!(comes_not_after(Some(a), Some(b)));
    assert!(!comes_not_after(Some(b), Some(a)));
    assert!(comes_not_after(Some(a), Some(a)));
    assert!(comes_not_after(None, Some(a)));
    assert!(!comes_not_after(Some(a), None));
    assert!(comes_not_after(None, None));
    assert!(comes_not_after(Some(Timestamp::new(9, 999).expect("in range")), Some(a)));
}

const DAY: i64 = 86_400;

#[test]
fn stopped_instances_older_than_the_threshold_are_candidates() {
    let now = at(100 * DAY);
    let launch = Some(RawInstant { secs: 60 * DAY, subsec_nanos: 0 });
    let id = Some("i-123".to_string());
    let found = stopped_instance_candidate(&id, "Stopped", launch, 30, now).expect("a candidate");
    assert_eq!(found.id, "i-123");
    assert_eq!(found.name, "i-123");
    assert_eq!(found.resource_type, "EC2 Instance");
    assert_eq!(found.region, "us-east-1");
    assert_eq!(found.state, "Stopped");
    assert_eq!(found.creation_date, Some(at(60 * DAY)));
    assert_eq!(found.last_used, None);
    assert_eq!(found.utilization, pct(0));
    assert_eq!(found.estimated_cost, Money::from_cents(0));
    assert!(found.tags.is_empty());
    assert!(stopped_instance_candidate(&id, "Running", launch, 30, now).is_none());
    assert!(stopped_instance_candidate(&id, "stopped", launch, 30, now).is_none());
    assert!(stopped_instance_candidate(&id, "Stopped", None, 30, now).is_none());
    assert!(stopped_instance_candidate(&id, "Stopped", launch, 40, now).is_none());
    assert!(stopped_instance_candidate(&id, "Stopped", launch, 39, now).is_some());
    let unnamed = stopped_instance_candidate(&None, "Stopped", launch, 30, now);
    assert_eq!(unnamed.expect("a candidate").id, "");
}

#[test]
fn unrepresentable_launch_time_counts_as_now() {
    let now = at(100 * DAY);
    let odd = RawInstant { secs: i64::MIN, subsec_nanos: 0 };
    assert_eq!(instant_or(odd, now), now);
    assert_eq!(instant_or(RawInstant { secs: 5, subsec_nanos: 1_000_000_000 }, now), now);
    assert_eq!(
        instant_or(RawInstant { secs: 5, subsec_nanos: 7 }, now),
        Timestamp::new(5, 7).expect("in range")
    );
    let id = Some("i-1".to_string());
    assert!(stopped_instance_candidate(&id, "Stopped", Some(odd), 0, now).is_none());
}

#[test]
fn buckets_older_than_the_threshold_are_candidates() {
    let now = at(100 * DAY);
    let created = Some(RawInstant { secs: 10 * DAY, subsec_nanos: 0 });
    let name = Some("logs".to_string());
    let found = bucket_candidate(&name, created, 30, now).expect("a candidate");
    assert_eq!(found.id, "logs");
    assert_eq!(found.name, "logs");
    assert_eq!(found.resource_type, "S3 Bucket");
    assert_eq!(found.state, "active");
    assert_eq!(found.creation_date, Some(at(10 * DAY)));
    assert!(bucket_candidate(&name, created, 90, now).is_none());
    assert!(bucket_candidate(&name, None, 30, now).is_none());
    assert_eq!(removal_for(&found), Removal::DeleteBucket);
}

#[test]
fn removal_goes_by_the_kind_of_resource() {
    let now = at(100 * DAY);
    let launch = Some(RawInstant { secs: 0, subsec_nanos: 0 });
    let mut found = stopped_instance_candidate(&None, "Stopped", launch, 30, now).expect("one");
    assert_eq!(removal_for(&found), Removal::TerminateInstance);
    found.resource_type = "Compute Instance".to_string();
    assert_eq!(removal_for(&found), Removal::Unsupported);
    found.resource_type = "s3 bucket".to_string();
    assert_eq!(removal_for(&found), Removal::Unsupported);
}

#[test]
fn consent_is_y_or_yes_in_any_case() {
    for answer in ["y", "Y", "yes", "YES", "Yes", " y ", "yes\n", "\tyEs\r\n", "\u{a0}y"] {
        assert!(is_affirmative(answer), "{answer:?}");
    }
    for answer in ["", "n", "no", "yess", "ye", "y es", "ok", "1", "yes.", "да"] {
        assert!(!is_affirmative(answer), "{answer:?}");
    }
}

#[test]
fn consent_of_a_normalized_word() {
    assert!(is_consent("y"));
    assert!(is_consent("yes"));
    assert!(!is_consent("Y"));
    assert!(!is_consent(" yes"));
    assert!(!is_consent(""));
    assert!(same_text("abc", "abc"));
    assert!(!same_text("abc", "abd"));
    assert!(!same_text("abc", "ab"));
}

#[test]
fn workflow_reports_its_progress() {
    let (workflow, _) = Workflow::start(false, false);
    assert_eq!(workflow.phase(), Phase::Discover);
    assert_eq!(workflow.outcome(), None);
    let (workflow, _) = workflow.step(Event::InventoryFetched { resources: 3 });
    let (workflow, _) = workflow.step(Event::Analyzed { actions: 3 });
    assert_eq!(workflow.phase(), Phase::Propose);
    assert_eq!(workflow.proposed(), 3);
    let (workflow, _) = workflow.step(Event::ProposalShown);
    let (workflow, _) = workflow.step(Event::Applied { success: true });
    let (workflow, _) = workflow.step(Event::Applied { success: false });
    assert_eq!(workflow.phase(), Phase::Execute);
    assert_eq!(workflow.tally(), (1, 1));
    assert_eq!(workflow.applied(0), Some(true));
    assert_eq!(workflow.applied(1), Some(false));
    assert_eq!(workflow.applied(2), None);
    let (workflow, _) = workflow.step(Event::Applied { success: true });
    assert_eq!(workflow.phase(), Phase::Report);
    assert_eq!(workflow.tally(), (2, 1));
    let (workflow, _) = workflow.step(Event::ReportShown);
    assert_eq!(workflow.phase(), Phase::Done);
    assert_eq!(workflow.outcome(), Some(Outcome::Completed));
    assert_eq!(workflow.tally(), (2, 1));
}

#[test]
fn only_a_failed_retrieval_fails_the_command() {
    assert!(Outcome::RetrievalFailed.is_failure());
    for outcome in [
        Outcome::NothingFound,
        Outcome::NothingProposed,
        Outcome::DryRun,
        Outcome::Aborted,
        Outcome::Completed,
    ] {
        assert!(!outcome.is_failure());
    }
}
