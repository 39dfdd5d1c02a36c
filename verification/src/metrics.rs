//! The reading of a metric: the latest sample of a trailing window.

use crate::time::Timestamp;
use crate::units::Percent;
use vstd::prelude::*;

verus! {

/// Seconds that the window reaches back from the moment of the query.
pub const LOOKBACK_SECONDS: i64 = 600;

/// Seconds that one sample covers.
pub const PERIOD_SECONDS: i32 = 300;

/// One sample of a metric, as the metrics source reported it. Either part
/// may be missing.
#[derive(Clone, Copy, Debug, PartialEq, Eq, Structural)]
pub struct Datapoint {
    pub timestamp: Option<Timestamp>,
    pub average: Option<Percent>,
}

/// The order of the samples in time. A sample without a timestamp comes
/// before every sample with one.
pub open spec fn not_after(a: Option<Timestamp>, b: Option<Timestamp>) -> bool {
    match (a, b) {
        (None, _) => true,
        (Some(_), None) => false,
        (Some(x), Some(y)) => x.nanos_since_epoch() <= y.nanos_since_epoch(),
    }
}

/// `at` is the position of the latest sample: no sample is later, and of
/// several that are equally late it is the last.
pub open spec fn is_latest(datapoints: Seq<Datapoint>, at: int) -> bool {
    &&& 0 <= at < datapoints.len()
    &&& forall|i: int|
        0 <= i < datapoints.len() ==> not_after(
            (#[trigger] datapoints[i]).timestamp,
            datapoints[at].timestamp,
        )
    &&& forall|i: int|
        at < i < datapoints.len() ==> !not_after(
            datapoints[at].timestamp,
            (#[trigger] datapoints[i]).timestamp,
        )
}

/// The reading that a window of samples gives: the average of the latest
/// sample. There is none when the window is empty or the latest sample has
/// no average.
pub open spec fn reading(datapoints: Seq<Datapoint>) -> Option<Percent> {
    if exists|at: int| is_latest(datapoints, at) {
        datapoints[choose|at: int| is_latest(datapoints, at)].average
    } else {
        None
    }
}

/// Whether `a` is not later than `b`.
pub fn comes_not_after(a: Option<Timestamp>, b: Option<Timestamp>) -> (r: bool)
    ensures
        r == not_after(a, b),
{
    match (a, b) {
        (None, _) => true,
        (Some(_), None) => false,
        (Some(x), Some(y)) => {
            let (xs, ys) = (x.secs(), y.secs());
            let (xn, yn) = (x.nanos(), y.nanos());
            xs < ys || (xs == ys && xn <= yn)
        },
    }
}

/// The position of the latest sample, or `None` for an empty window.
pub fn latest_position(datapoints: &[Datapoint]) -> (r: Option<usize>)
    ensures
        match r {
            Some(at) => is_latest(datapoints@, at as int),
            None => datapoints@.len() == 0,
        },
{
    if datapoints.len() == 0 {
        return None;
    }
    let mut best: usize = 0;
    let mut i: usize = 1;
    while i < datapoints.len()
        invariant
            1 <= i <= datapoints.len(),
            best < i,
            is_latest(datapoints@.take(i as int), best as int),
        decreases datapoints.len() - i,
    {
        let ghost seen = datapoints@.take(i as int);
        let ghost next = datapoints@.take(i + 1);
        proof {
            assert forall|j: int| 0 <= j < i implies next[j] == seen[j] by {}
            assert(next[i as int] == datapoints@[i as int]);
        }
        if comes_not_after(datapoints[best].timestamp, datapoints[i].timestamp) {
            proof {
                assert forall|j: int| 0 <= j < next.len() implies not_after(
                    (#[trigger] next[j]).timestamp,
                    next[i as int].timestamp,
                ) by {
                    if j < i {
                        assert(not_after(seen[j].timestamp, seen[best as int].timestamp));
                    }
                }
            }
            best = i;
        } else {
            proof {
                assert forall|j: int| best < j < next.len() implies !not_after(
                    next[best as int].timestamp,
                    (#[trigger] next[j]).timestamp,
                ) by {
                    if j < i {
                        assert(!not_after(seen[best as int].timestamp, seen[j].timestamp));
                    }
                }
                assert forall|j: int| 0 <= j < next.len() implies not_after(
                    (#[trigger] next[j]).timestamp,
                    next[best as int].timestamp,
                ) by {
                    if j < i {
                        assert(not_after(seen[j].timestamp, seen[best as int].timestamp));
                    }
                }
            }
        }
        i += 1;
    }
    assert(datapoints@.take(i as int) =~= datapoints@);
    Some(best)
}

/// The utilization that a window of samples reports: the average of the
/// latest sample. No default stands in for a missing sample or average.
pub fn latest_reading(datapoints: &[Datapoint]) -> (r: Option<Percent>)
    ensures
        r == reading(datapoints@),
        datapoints@.len() == 0 ==> r is None,
{
    match latest_position(datapoints) {
        Some(at) => {
            proof {
                lemma_latest_unique(datapoints@, at as int, choose|k: int| is_latest(datapoints@, k));
            }
            datapoints[at].average
        },
        None => None,
    }
}

/// A window has at most one latest sample.
pub proof fn lemma_latest_unique(datapoints: Seq<Datapoint>, a: int, b: int)
    requires
        is_latest(datapoints, a),
        is_latest(datapoints, b),
    ensures
        a == b,
{
    if a < b {
        assert(not_after(datapoints[a].timestamp, datapoints[b].timestamp));
        assert(!not_after(datapoints[a].timestamp, datapoints[b].timestamp));
    } else if b < a {
        assert(not_after(datapoints[b].timestamp, datapoints[a].timestamp));
        assert(!not_after(datapoints[b].timestamp, datapoints[a].timestamp));
    }
}

} // verus!
