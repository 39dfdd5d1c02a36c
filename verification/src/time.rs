//! Instants and the whole-unit differences between them.

use chrono::DateTime;
use chrono::Utc;
use vstd::prelude::*;

verus! {

/// Earliest representable second: midnight of January 1 of the year -262143.
pub const MIN_SECONDS: i64 = -8_334_601_228_800;

/// Latest representable second: the last second of the year 262142.
pub const MAX_SECONDS: i64 = 8_210_266_876_799;

pub const NANOS_PER_SECOND: u32 = 1_000_000_000;

pub const SECONDS_PER_DAY: i64 = 86_400;

/// Quotient of `a` by a positive `b`, rounded toward zero.
pub open spec fn truncated_quotient(a: int, b: int) -> int
    recommends
        b > 0,
{
    if a >= 0 {
        a / b
    } else {
        -((-a) / b)
    }
}

/// An instant on the UTC time line: whole seconds since the Unix epoch and the
/// nanoseconds into that second. Leap seconds are not represented.
#[derive(Clone, Copy, Debug, PartialEq, Eq, Structural)]
pub struct Timestamp {
    secs: i64,
    nanos: u32,
}

impl Timestamp {
    pub closed spec fn seconds(self) -> int {
        self.secs as int
    }

    pub closed spec fn subsec_nanos(self) -> int {
        self.nanos as int
    }

    /// The instant `secs` seconds and `nanos` nanoseconds after the epoch.
    pub closed spec fn from_parts(secs: i64, nanos: u32) -> Timestamp {
        Timestamp { secs, nanos }
    }

    /// The instant lies in the supported range of years.
    pub open spec fn in_range(self) -> bool {
        &&& MIN_SECONDS <= self.seconds() <= MAX_SECONDS
        &&& 0 <= self.subsec_nanos() < NANOS_PER_SECOND
    }

    #[verifier::type_invariant]
    spec fn range_invariant(self) -> bool {
        self.in_range()
    }

    /// Nanoseconds since the Unix epoch.
    pub open spec fn nanos_since_epoch(self) -> int {
        self.seconds() * (NANOS_PER_SECOND as int) + self.subsec_nanos()
    }

    /// The instant `secs` seconds and `nanos` nanoseconds after the epoch, or
    /// `None` when that lies outside the supported range.
    pub fn new(secs: i64, nanos: u32) -> (r: Option<Timestamp>)
        ensures
            r is Some <==> (MIN_SECONDS <= secs <= MAX_SECONDS && nanos < NANOS_PER_SECOND),
            r matches Some(t) ==> t == Timestamp::from_parts(secs, nanos) && t.seconds() == secs
                && t.subsec_nanos() == nanos && t.in_range(),
    {
        if MIN_SECONDS <= secs && secs <= MAX_SECONDS && nanos < NANOS_PER_SECOND {
            Some(Timestamp { secs, nanos })
        } else {
            None
        }
    }

    pub fn secs(&self) -> (s: i64)
        ensures
            s == self.seconds(),
            self.in_range(),
    {
        proof {
            use_type_invariant(self);
        }
        self.secs
    }

    pub fn nanos(&self) -> (n: u32)
        ensures
            n == self.subsec_nanos(),
            self.in_range(),
    {
        proof {
            use_type_invariant(self);
        }
        self.nanos
    }
}

/// A point in time as an outside source reports it: seconds since the epoch
/// and nanoseconds into the second, not yet checked against the supported
/// range.
#[derive(Clone, Copy, Debug, PartialEq, Eq, Structural)]
pub struct RawInstant {
    pub secs: i64,
    pub subsec_nanos: u32,
}

impl RawInstant {
    /// The instant is one that [`Timestamp`] can hold.
    pub open spec fn representable(self) -> bool {
        MIN_SECONDS <= self.secs <= MAX_SECONDS && self.subsec_nanos < NANOS_PER_SECOND
    }

    /// The instant as a [`Timestamp`], where it can hold it.
    pub open spec fn instant(self) -> Option<Timestamp> {
        if self.representable() {
            Some(Timestamp::from_parts(self.secs, self.subsec_nanos))
        } else {
            None
        }
    }

    /// The instant as a [`Timestamp`], or `None` where it cannot hold it.
    pub fn to_timestamp(&self) -> (r: Option<Timestamp>)
        ensures
            r == self.instant(),
    {
        Timestamp::new(self.secs, self.subsec_nanos)
    }
}

/// An instant is the one that its two parts make.
pub proof fn lemma_parts_determine_instant(secs: i64, nanos: u32)
    ensures
        Timestamp::from_parts(secs, nanos).seconds() == secs,
        Timestamp::from_parts(secs, nanos).subsec_nanos() == nanos,
        forall|t: Timestamp| #[trigger]
            t.seconds() == secs && t.subsec_nanos() == nanos ==> t == Timestamp::from_parts(
                secs,
                nanos,
            ),
{
}

/// Signed nanoseconds from `earlier` to `later`.
pub open spec fn elapsed_nanos(later: Timestamp, earlier: Timestamp) -> int {
    later.nanos_since_epoch() - earlier.nanos_since_epoch()
}

/// Whole seconds from `earlier` to `later`, rounded toward zero.
pub open spec fn whole_seconds_between(later: Timestamp, earlier: Timestamp) -> int {
    truncated_quotient(elapsed_nanos(later, earlier), NANOS_PER_SECOND as int)
}

/// Whole days from `earlier` to `later`, rounded toward zero.
pub open spec fn whole_days_between(later: Timestamp, earlier: Timestamp) -> int {
    truncated_quotient(whole_seconds_between(later, earlier), SECONDS_PER_DAY as int)
}

/// Calls `chrono::DateTime::signed_duration_since` on the two instants and
/// `chrono::TimeDelta::num_days` on the difference. The contract claims that
/// chrono subtracts exactly, rounds the difference toward zero to whole
/// seconds, and rounds those toward zero to days of 86 400 seconds. Both
/// instants are in range, so `DateTime::from_timestamp` accepts them.
#[verifier::external_body]
fn chrono_whole_days(later: Timestamp, earlier: Timestamp) -> (days: i64)
    requires
        later.in_range(),
        earlier.in_range(),
    ensures
        days == whole_days_between(later, earlier),
{
    let later_utc: DateTime<Utc> = DateTime::from_timestamp(later.secs, later.nanos).unwrap();
    let earlier_utc: DateTime<Utc> = DateTime::from_timestamp(earlier.secs, earlier.nanos).unwrap();
    later_utc.signed_duration_since(earlier_utc).num_days()
}

/// Whole days from `earlier` to `later`, negative when `later` comes first.
pub fn age_in_days(later: Timestamp, earlier: Timestamp) -> (days: i64)
    ensures
        days == whole_days_between(later, earlier),
{
    proof {
        use_type_invariant(later);
        use_type_invariant(earlier);
    }
    chrono_whole_days(later, earlier)
}

/// The date, in UTC, of the instant `secs` seconds and `nanos` nanoseconds
/// after the epoch, written as year, month and day in the way of `chrono`'s
/// format "%Y-%m-%d".
pub uninterp spec fn day_text(secs: int, nanos: int) -> Seq<char>;

/// Calls `chrono::DateTime::format` with "%Y-%m-%d" on the instant and
/// `to_string` on what it returns. The contract only names that result. The
/// instant is in range, so `DateTime::from_timestamp` accepts it.
#[verifier::external_body]
fn format_day(instant: Timestamp) -> (r: String)
    requires
        instant.in_range(),
    ensures
        r@ == day_text(instant.seconds(), instant.subsec_nanos()),
{
    let utc: DateTime<Utc> = DateTime::from_timestamp(instant.secs, instant.nanos).unwrap();
    utc.format("%Y-%m-%d").to_string()
}

impl Timestamp {
    /// The date of the instant in UTC, as it is written.
    pub open spec fn day(self) -> Seq<char> {
        day_text(self.seconds(), self.subsec_nanos())
    }
}

/// The date of `instant` in UTC, such as "2024-03-01".
pub fn day_of(instant: Timestamp) -> (r: String)
    ensures
        r@ == instant.day(),
{
    proof {
        use_type_invariant(instant);
    }
    format_day(instant)
}

} // verus!
