//! What the inventory of a provider contributes to a cleanup: which of the
//! instances and buckets it lists are candidates at all, how each is
//! described, and how a proposed removal is carried out.

use crate::cleanup::{ResourceDescriptor, ResourceInfo};
use crate::text::same_text;
use crate::time::{age_in_days, whole_days_between, RawInstant, Timestamp};
use crate::units::{Money, Percent};
use vstd::prelude::*;
use vstd::string::StringExecFns;

verus! {

/// The instant that `raw` reports, or `now` where `raw` cannot be
/// represented.
pub open spec fn instant_of(raw: RawInstant, now: Timestamp) -> Timestamp {
    if raw.representable() {
        Timestamp::from_parts(raw.secs, raw.subsec_nanos)
    } else {
        now
    }
}

/// The text of an optional id; a missing id reads as the empty string.
pub open spec fn id_text(id: Option<String>) -> Seq<char> {
    match id {
        Some(id) => id@,
        None => Seq::empty(),
    }
}

/// How a candidate is described: under `id` as both id and name, created at
/// `creation`, never used, idle and without an estimated cost or tags.
pub open spec fn candidate_descriptor(
    id: Seq<char>,
    resource_type: Seq<char>,
    state: Seq<char>,
    creation: Timestamp,
) -> ResourceDescriptor {
    ResourceDescriptor {
        id,
        name: id,
        resource_type,
        region: "us-east-1"@,
        state,
        creation_date: Some(creation),
        last_used: None,
        utilization: Percent { tenths: 0 },
        estimated_cost: Money { cents: 0 },
        tags: Seq::empty(),
    }
}

/// The instant that `raw` reports, or `now` where it cannot be represented.
pub fn instant_or(raw: RawInstant, now: Timestamp) -> (creation: Timestamp)
    ensures
        creation == instant_of(raw, now),
{
    match Timestamp::new(raw.secs, raw.subsec_nanos) {
        Some(instant) => instant,
        None => now,
    }
}

/// The descriptor of an optional resource.
pub open spec fn descriptor_of(resource: Option<ResourceInfo>) -> Option<ResourceDescriptor> {
    match resource {
        Some(resource) => Some(resource@),
        None => None,
    }
}

/// The candidate that a listed compute instance makes, if any: it is
/// stopped, its launch time is known, and it was launched more than
/// `age_threshold_days` whole days before `now`.
pub open spec fn instance_candidate(
    id: Seq<char>,
    state: Seq<char>,
    launch_time: Option<RawInstant>,
    age_threshold_days: int,
    now: Timestamp,
) -> Option<ResourceDescriptor> {
    match launch_time {
        Some(raw) => if state == "Stopped"@ && whole_days_between(now, instant_of(raw, now))
            > age_threshold_days {
            Some(candidate_descriptor(id, "EC2 Instance"@, state, instant_of(raw, now)))
        } else {
            None
        },
        None => None,
    }
}

/// The candidate that a listed bucket makes, if any: its creation date is
/// known and lies more than `age_threshold_days` whole days before `now`.
pub open spec fn bucket_candidate_of(
    name: Seq<char>,
    creation_date: Option<RawInstant>,
    age_threshold_days: int,
    now: Timestamp,
) -> Option<ResourceDescriptor> {
    match creation_date {
        Some(raw) => if whole_days_between(now, instant_of(raw, now)) > age_threshold_days {
            Some(candidate_descriptor(name, "S3 Bucket"@, "active"@, instant_of(raw, now)))
        } else {
            None
        },
        None => None,
    }
}

/// A copy of an optional id; a missing id reads as the empty string.
fn id_or_empty(id: &Option<String>) -> (r: String)
    ensures
        r@ == id_text(*id),
{
    match id {
        Some(id) => id.clone(),
        None => String::new(),
    }
}

/// Describes a candidate of the given kind.
fn describe(id: &Option<String>, resource_type: &str, state: &str, creation: Timestamp) -> (r:
    ResourceInfo)
    ensures
        r@ == candidate_descriptor(id_text(*id), resource_type@, state@, creation),
{
    let r = ResourceInfo {
        id: id_or_empty(id),
        name: id_or_empty(id),
        resource_type: String::from_str(resource_type),
        region: String::from_str("us-east-1"),
        state: String::from_str(state),
        creation_date: Some(creation),
        last_used: None,
        utilization: Percent::from_tenths(0),
        estimated_cost: Money::from_cents(0),
        tags: Vec::new(),
    };
    assert(r@.tags =~= Seq::empty());
    r
}

/// Decides whether a listed compute instance is a candidate for cleanup,
/// and describes it if it is.
pub fn stopped_instance_candidate(
    instance_id: &Option<String>,
    state_name: &str,
    launch_time: Option<RawInstant>,
    age_threshold_days: u32,
    now: Timestamp,
) -> (r: Option<ResourceInfo>)
    ensures
        descriptor_of(r) == instance_candidate(
            id_text(*instance_id),
            state_name@,
            launch_time,
            age_threshold_days as int,
            now,
        ),
{
    if !same_text(state_name, "Stopped") {
        return None;
    }
    match launch_time {
        None => None,
        Some(raw) => {
            let creation = instant_or(raw, now);
            if age_in_days(now, creation) > age_threshold_days as i64 {
                Some(describe(instance_id, "EC2 Instance", state_name, creation))
            } else {
                None
            }
        },
    }
}

/// Decides whether a listed bucket is a candidate for cleanup, and describes
/// it if it is.
pub fn bucket_candidate(
    bucket_name: &Option<String>,
    creation_date: Option<RawInstant>,
    age_threshold_days: u32,
    now: Timestamp,
) -> (r: Option<ResourceInfo>)
    ensures
        descriptor_of(r) == bucket_candidate_of(
            id_text(*bucket_name),
            creation_date,
            age_threshold_days as int,
            now,
        ),
{
    match creation_date {
        None => None,
        Some(raw) => {
            let creation = instant_or(raw, now);
            if age_in_days(now, creation) > age_threshold_days as i64 {
                Some(describe(bucket_name, "S3 Bucket", "active", creation))
            } else {
                None
            }
        },
    }
}

/// How a resource of a given kind is removed.
#[derive(Clone, Copy, Debug, PartialEq, Eq, Structural)]
pub enum Removal {
    TerminateInstance,
    DeleteBucket,
    /// No removal is known for the kind; nothing is done.
    Unsupported,
}

/// The removal that belongs to a kind of resource.
pub open spec fn removal_of(resource_type: Seq<char>) -> Removal {
    if resource_type == "EC2 Instance"@ {
        Removal::TerminateInstance
    } else if resource_type == "S3 Bucket"@ {
        Removal::DeleteBucket
    } else {
        Removal::Unsupported
    }
}

/// How `resource` is to be removed.
pub fn removal_for(resource: &ResourceInfo) -> (r: Removal)
    ensures
        r == removal_of(resource@.resource_type),
{
    if same_text(resource.resource_type.as_str(), "EC2 Instance") {
        Removal::TerminateInstance
    } else if same_text(resource.resource_type.as_str(), "S3 Bucket") {
        Removal::DeleteBucket
    } else {
        Removal::Unsupported
    }
}

} // verus!
