//! Points in time as plain numbers, and the calendar work done by `chrono`.

use vstd::prelude::*;

verus! {

/// A point in time: whole seconds since the Unix epoch and the nanoseconds
/// into that second. During a leap second `nanos` runs from 1_000_000_000
/// up to 1_999_999_999, as in `chrono`.
#[derive(Clone, Copy, Debug, PartialEq, Eq, Structural)]
pub struct Instant {
    pub secs: i64,
    pub nanos: u32,
}

impl Instant {
    /// The instant as a pair of mathematical integers.
    pub open spec fn pair(self) -> (int, int) {
        (self.secs as int, self.nanos as int)
    }

    /// `self` lies strictly after `other`.
    pub open spec fn is_after(self, other: Instant) -> bool {
        self.secs > other.secs || (self.secs == other.secs && self.nanos > other.nanos)
    }

    /// Tells whether `self` lies strictly after `other`.
    pub fn after(&self, other: &Instant) -> (r: bool)
        ensures
            r == self.is_after(*other),
    {
        self.secs > other.secs || (self.secs == other.secs && self.nanos > other.nanos)
    }
}

/// What `chrono::DateTime::parse_from_rfc3339` makes of a text: the instant it
/// denotes, as seconds and nanoseconds, or `None` where the text is refused.
pub uninterp spec fn rfc3339_instant(text: Seq<char>) -> Option<(int, int)>;

/// Reads the clock through `chrono::Utc::now`. Nothing is claimed of the
/// value beyond what the system clock can give: the second count is not
/// negative and the nanoseconds stay below one second.
#[verifier::external_body]
pub(crate) fn now_utc() -> (r: Instant)
    ensures
        r.secs >= 0,
        r.nanos < 1_000_000_000,
{
    let now = chrono::Utc::now();
    Instant { secs: now.timestamp(), nanos: now.timestamp_subsec_nanos() }
}

/// Parses RFC 3339 text with `chrono::DateTime::parse_from_rfc3339`. The
/// result is the named value `rfc3339_instant` of the text; an empty text is
/// always refused.
#[verifier::external_body]
pub(crate) fn parse_rfc3339(text: &str) -> (r: Option<Instant>)
    ensures
        r.is_some() == rfc3339_instant(text@).is_some(),
        r matches Some(t) ==> rfc3339_instant(text@) == Some(t.pair()),
        text@.len() == 0 ==> r.is_none(),
{
    match chrono::DateTime::parse_from_rfc3339(text) {
        Ok(t) => Some(Instant { secs: t.timestamp(), nanos: t.timestamp_subsec_nanos() }),
        Err(_) => None,
    }
}

/// What `chrono::DateTime::checked_add_signed` gives when a whole number of
/// seconds is added to an instant: the later instant, or `None` where either
/// instant or the span lies outside what `chrono` can represent.
pub uninterp spec fn shifted_instant(secs: int, nanos: int, seconds: int) -> Option<(int, int)>;

/// What `chrono::DateTime::to_rfc3339` writes for an instant in UTC, or `None`
/// where `chrono` cannot represent the instant.
pub uninterp spec fn rfc3339_text(secs: int, nanos: int) -> Option<Seq<char>>;

/// Adds `seconds` to `t` with `chrono::DateTime::checked_add_signed`, on a
/// `chrono::TimeDelta` of whole seconds. The result is the named value
/// `shifted_instant`; where it exists and `t` is no leap second, it is `t`
/// with its second count moved by `seconds` and its nanoseconds kept.
#[verifier::external_body]
pub(crate) fn plus_seconds(t: Instant, seconds: i64) -> (r: Option<Instant>)
    ensures
        r.is_some() == shifted_instant(t.secs as int, t.nanos as int, seconds as int).is_some(),
        r matches Some(u) ==> shifted_instant(t.secs as int, t.nanos as int, seconds as int)
            == Some(u.pair()),
        r matches Some(u) ==> (t.nanos < 1_000_000_000 ==> u.secs == t.secs + seconds && u.nanos
            == t.nanos),
{
    let start = chrono::DateTime::from_timestamp(t.secs, t.nanos)?;
    let span = chrono::TimeDelta::try_seconds(seconds)?;
    let end = start.checked_add_signed(span)?;
    Some(Instant { secs: end.timestamp(), nanos: end.timestamp_subsec_nanos() })
}

/// Writes `t` as RFC 3339 text in UTC with `chrono::DateTime::to_rfc3339`.
/// The result is the named value `rfc3339_text`.
#[verifier::external_body]
pub(crate) fn to_rfc3339(t: Instant) -> (r: Option<String>)
    ensures
        r.is_some() == rfc3339_text(t.secs as int, t.nanos as int).is_some(),
        r matches Some(s) ==> rfc3339_text(t.secs as int, t.nanos as int) == Some(s@),
{
    match chrono::DateTime::from_timestamp(t.secs, t.nanos) {
        Some(moment) => Some(moment.to_rfc3339()),
        None => None,
    }
}

} // verus!
