//! Dates given as text: the period of a cost report and the expiry of a
//! stored token.

use crate::time::{RawInstant, Timestamp, MIN_SECONDS, SECONDS_PER_DAY};
use chrono::DateTime;
use vstd::prelude::*;
use vstd::string::StringExecFns;

verus! {

/// Days that a report reaches back from its end where no start is given.
pub const DEFAULT_PERIOD_DAYS: i64 = 30;

/// The instant that `text` denotes when read as an RFC 3339 date and time,
/// as `chrono::DateTime::parse_from_rfc3339` reads it: seconds since the
/// epoch and nanoseconds into the second. `None` where it rejects the text.
pub uninterp spec fn rfc3339_instant(text: Seq<char>) -> Option<(i64, u32)>;

/// Calls `chrono::DateTime::parse_from_rfc3339` and, where it accepts the
/// text, `DateTime::timestamp` and `DateTime::timestamp_subsec_nanos` on what
/// it returns. The contract only names that result.
#[verifier::external_body]
fn parse_rfc3339(text: &str) -> (r: Option<(i64, u32)>)
    ensures
        r == rfc3339_instant(text@),
{
    match DateTime::parse_from_rfc3339(text) {
        Ok(parsed) => Some((parsed.timestamp(), parsed.timestamp_subsec_nanos())),
        Err(_) => None,
    }
}

/// The instant that `text` denotes when read as an RFC 3339 date and time.
pub open spec fn denoted_instant(text: Seq<char>) -> Option<RawInstant> {
    match rfc3339_instant(text) {
        Some((secs, subsec_nanos)) => Some(RawInstant { secs, subsec_nanos }),
        None => None,
    }
}

/// Reads `text` as an RFC 3339 date and time, such as
/// "2024-03-01T12:00:00+02:00".
pub fn parse_instant(text: &str) -> (r: Option<RawInstant>)
    ensures
        r == denoted_instant(text@),
{
    match parse_rfc3339(text) {
        Some((secs, subsec_nanos)) => Some(RawInstant { secs, subsec_nanos }),
        None => None,
    }
}

/// Why a period could not be determined.
#[derive(Clone, Debug, PartialEq, Eq)]
pub enum DateRangeError {
    /// The end date, given here, is not a date.
    InvalidEndDate(String),
    /// The start date, given here, is not a date.
    InvalidStartDate(String),
    /// No start was given and the default lies before the supported range.
    StartOutOfRange,
}

/// An error as mathematical values.
pub enum DateRangeFault {
    InvalidEndDate(Seq<char>),
    InvalidStartDate(Seq<char>),
    StartOutOfRange,
}

impl View for DateRangeError {
    type V = DateRangeFault;

    open spec fn view(&self) -> DateRangeFault {
        match self {
            DateRangeError::InvalidEndDate(text) => DateRangeFault::InvalidEndDate(text@),
            DateRangeError::InvalidStartDate(text) => DateRangeFault::InvalidStartDate(text@),
            DateRangeError::StartOutOfRange => DateRangeFault::StartOutOfRange,
        }
    }
}

impl DateRangeFault {
    /// The sentence that tells the user what is wrong.
    pub open spec fn message(self) -> Seq<char> {
        match self {
            DateRangeFault::InvalidEndDate(text) => "Invalid end date: "@ + text,
            DateRangeFault::InvalidStartDate(text) => "Invalid start date: "@ + text,
            DateRangeFault::StartOutOfRange => "Start date out of range"@,
        }
    }
}

impl DateRangeError {
    /// The sentence that tells the user what is wrong.
    pub fn describe(&self) -> (s: String)
        ensures
            s@ == self@.message(),
    {
        match self {
            DateRangeError::InvalidEndDate(text) => {
                String::from_str("Invalid end date: ").concat(text.as_str())
            },
            DateRangeError::InvalidStartDate(text) => {
                String::from_str("Invalid start date: ").concat(text.as_str())
            },
            DateRangeError::StartOutOfRange => String::from_str("Start date out of range"),
        }
    }
}

/// The instant at which the day written as `day` begins in UTC: what the
/// text followed by "T00:00:00Z" denotes, where that is a date and time
/// within the supported range.
pub open spec fn start_of_day(day: Seq<char>) -> Option<Timestamp> {
    match denoted_instant(day + "T00:00:00Z"@) {
        Some(raw) => raw.instant(),
        None => None,
    }
}

/// The instant at which the day written as `day`, such as "2024-03-01",
/// begins in UTC.
pub fn parse_day(day: &str) -> (r: Option<Timestamp>)
    ensures
        r == start_of_day(day@),
{
    let text = String::from_str(day).concat("T00:00:00Z");
    match parse_instant(text.as_str()) {
        Some(raw) => raw.to_timestamp(),
        None => None,
    }
}

/// The instant `DEFAULT_PERIOD_DAYS` days before `end`, where the supported
/// range reaches that far back.
pub open spec fn default_start(end: Timestamp) -> Option<Timestamp> {
    if end.seconds() - DEFAULT_PERIOD_DAYS * SECONDS_PER_DAY >= MIN_SECONDS {
        Some(
            Timestamp::from_parts(
                (end.seconds() - DEFAULT_PERIOD_DAYS * SECONDS_PER_DAY) as i64,
                end.subsec_nanos() as u32,
            ),
        )
    } else {
        None
    }
}

/// The period between two optional bounds: it ends at `end`, or at `now`
/// where no end is given, and starts at `start`, or thirty days before its
/// end where no start is given.
pub open spec fn period(start: Option<Timestamp>, end: Option<Timestamp>, now: Timestamp) -> Option<
    (Timestamp, Timestamp),
> {
    let last = match end {
        Some(end) => end,
        None => now,
    };
    match start {
        Some(start) => Some((start, last)),
        None => match default_start(last) {
            Some(first) => Some((first, last)),
            None => None,
        },
    }
}

/// The period between two optional bounds, or `None` where no start is given
/// and the default start lies before the supported range.
pub fn period_between(start: Option<Timestamp>, end: Option<Timestamp>, now: Timestamp) -> (r:
    Option<(Timestamp, Timestamp)>)
    ensures
        r == period(start, end, now),
{
    let last = match end {
        Some(end) => end,
        None => now,
    };
    match start {
        Some(start) => Some((start, last)),
        None => {
            let secs = last.secs() - DEFAULT_PERIOD_DAYS * SECONDS_PER_DAY;
            match Timestamp::new(secs, last.nanos()) {
                Some(first) => Some((first, last)),
                None => None,
            }
        },
    }
}

/// The period that two optional dates describe.
pub open spec fn date_range(
    start_date: Option<Seq<char>>,
    end_date: Option<Seq<char>>,
    now: Timestamp,
) -> Result<(Timestamp, Timestamp), DateRangeFault> {
    if end_date is Some && start_of_day(end_date->0) is None {
        Err(DateRangeFault::InvalidEndDate(end_date->0))
    } else if start_date is Some && start_of_day(start_date->0) is None {
        Err(DateRangeFault::InvalidStartDate(start_date->0))
    } else {
        match period(
            match start_date {
                Some(day) => start_of_day(day),
                None => None,
            },
            match end_date {
                Some(day) => start_of_day(day),
                None => None,
            },
            now,
        ) {
            Some(range) => Ok(range),
            None => Err(DateRangeFault::StartOutOfRange),
        }
    }
}

/// The mathematical value of an optional text.
pub open spec fn text_view(text: Option<String>) -> Option<Seq<char>> {
    match text {
        Some(text) => Some(text@),
        None => None,
    }
}

/// The mathematical value of what [`determine_date_range`] hands back.
pub open spec fn date_range_view(r: Result<(Timestamp, Timestamp), DateRangeError>) -> Result<
    (Timestamp, Timestamp),
    DateRangeFault,
> {
    match r {
        Ok(range) => Ok(range),
        Err(error) => Err(error@),
    }
}

/// Determines the period of a report from two optional dates, each written
/// like "2024-03-01". The end defaults to `now`, the start to thirty days
/// before the end. A date that cannot be read is an error; the end date is
/// looked at first.
pub fn determine_date_range(
    start_date: &Option<String>,
    end_date: &Option<String>,
    now: Timestamp,
) -> (r: Result<(Timestamp, Timestamp), DateRangeError>)
    ensures
        date_range_view(r) == date_range(text_view(*start_date), text_view(*end_date), now),
{
    let end = match end_date {
        Some(day) => match parse_day(day.as_str()) {
            Some(end) => Some(end),
            None => {
                return Err(DateRangeError::InvalidEndDate(day.clone()));
            },
        },
        None => None,
    };
    let start = match start_date {
        Some(day) => match parse_day(day.as_str()) {
            Some(start) => Some(start),
            None => {
                return Err(DateRangeError::InvalidStartDate(day.clone()));
            },
        },
        None => None,
    };
    match period_between(start, end, now) {
        Some(range) => Ok(range),
        None => Err(DateRangeError::StartOutOfRange),
    }
}

/// `now` is later than `instant`.
pub open spec fn later_than(now: Timestamp, instant: RawInstant) -> bool {
    now.seconds() > instant.secs || (now.seconds() == instant.secs && now.subsec_nanos()
        > instant.subsec_nanos)
}

/// Whether `now` is later than `instant`.
pub fn is_later_than(now: Timestamp, instant: RawInstant) -> (r: bool)
    ensures
        r == later_than(now, instant),
{
    let secs = now.secs();
    secs > instant.secs || (secs == instant.secs && now.nanos() > instant.subsec_nanos)
}

/// A token has expired at `now` when it has an expiry, the expiry is a date
/// and time, and `now` is later.
pub open spec fn token_expired(expires_at: Option<Seq<char>>, now: Timestamp) -> bool {
    match expires_at {
        Some(text) => match denoted_instant(text) {
            Some(expiry) => later_than(now, expiry),
            None => false,
        },
        None => false,
    }
}

/// Whether a token with this expiry has expired at `now`. A token without an
/// expiry, or with one that cannot be read, never expires.
pub fn is_token_expired(expires_at: &Option<String>, now: Timestamp) -> (r: bool)
    ensures
        r == token_expired(text_view(*expires_at), now),
{
    match expires_at {
        Some(text) => match parse_instant(text.as_str()) {
            Some(expiry) => is_later_than(now, expiry),
            None => false,
        },
        None => false,
    }
}

/// Whether stored credentials still stand: they hold a token, and it has not
/// expired at `now`.
pub fn is_authenticated(has_token: bool, expires_at: &Option<String>, now: Timestamp) -> (r: bool)
    ensures
        r == (has_token && !token_expired(text_view(*expires_at), now)),
{
    has_token && !is_token_expired(expires_at, now)
}

} // verus!
