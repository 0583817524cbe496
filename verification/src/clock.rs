//! Points in time and the distance between them, computed by `chrono`.

use vstd::prelude::*;

verus! {

/// A point in time: whole seconds since the Unix epoch and the nanoseconds
/// since the last whole second (above 999,999,999 only within a leap second).
#[derive(Clone, Copy, Debug, PartialEq, Eq, Structural)]
pub struct Instant {
    pub secs: i64,
    pub nanos: u32,
}

/// What `chrono` reads from an RFC 3339 text: the seconds and nanoseconds of
/// the instant it denotes, or `None` where the text is not a valid date-time.
pub uninterp spec fn rfc3339_instant(text: Seq<char>) -> Option<(i64, u32)>;

/// The whole minutes from `earlier` to `later` as `chrono` counts them
/// (negative when `later` lies before `earlier`), or `None` where one of the
/// two is outside the range of dates that `chrono` represents.
pub uninterp spec fn whole_minutes_between(
    later_secs: i64,
    later_nanos: u32,
    earlier_secs: i64,
    earlier_nanos: u32,
) -> Option<i64>;

/// Seconds and nanoseconds as an [`Instant`].
pub open spec fn as_instant(parts: Option<(i64, u32)>) -> Option<Instant> {
    match parts {
        Some(p) => Some(Instant { secs: p.0, nanos: p.1 }),
        None => None,
    }
}

/// The instant that an RFC 3339 text denotes, if it is one.
pub open spec fn instant_of_text(text: Seq<char>) -> Option<Instant> {
    as_instant(rfc3339_instant(text))
}

/// The whole minutes left at `now` until `arrival`.
pub open spec fn minutes_until(arrival: Instant, now: Instant) -> Option<i64> {
    whole_minutes_between(arrival.secs, arrival.nanos, now.secs, now.nanos)
}

/// Calls `chrono::DateTime::parse_from_rfc3339`. Trusted: the outcome depends
/// on the text alone; it is named [`rfc3339_instant`], and a parse error
/// becomes `None`.
#[verifier::external_body]
pub(crate) fn parse_rfc3339(text: &str) -> (parsed: Option<Instant>)
    ensures
        parsed == as_instant(rfc3339_instant(text@)),
{
    match chrono::DateTime::parse_from_rfc3339(text) {
        Ok(moment) => Some(
            Instant { secs: moment.timestamp(), nanos: moment.timestamp_subsec_nanos() },
        ),
        Err(_) => None,
    }
}

/// Calls `chrono::Utc::now`. Nothing is promised of the result: it is the
/// reading of the system clock, which must not stand before the Unix epoch.
#[verifier::external_body]
pub(crate) fn current_instant() -> (now: Instant) {
    let moment = chrono::Utc::now();
    Instant { secs: moment.timestamp(), nanos: moment.timestamp_subsec_nanos() }
}

/// Calls `chrono::DateTime::signed_duration_since` and
/// `chrono::TimeDelta::num_minutes` on the two instants. Trusted: the outcome
/// depends on the two instants alone; it is named [`whole_minutes_between`].
#[verifier::external_body]
pub(crate) fn whole_minutes(later: Instant, earlier: Instant) -> (minutes: Option<i64>)
    ensures
        minutes == whole_minutes_between(later.secs, later.nanos, earlier.secs, earlier.nanos),
{
    match (
        chrono::DateTime::from_timestamp(later.secs, later.nanos),
        chrono::DateTime::from_timestamp(earlier.secs, earlier.nanos),
    ) {
        (Some(end), Some(start)) => Some(end.signed_duration_since(start).num_minutes()),
        _ => None,
    }
}

} // verus!
