//! Instants of UTC time, as the calendar library reads and writes them.

use chrono::{DateTime, TimeDelta, Utc};
use vstd::prelude::*;

verus! {

/// Whether the calendar library can hold the instant `secs` whole seconds and
/// `nanos` nanoseconds after the Unix epoch.
pub uninterp spec fn chrono_accepts(secs: int, nanos: int) -> bool;

/// The RFC 3339 text of an instant, as the calendar library writes it.
pub uninterp spec fn rfc3339_text(secs: int, nanos: int) -> Seq<char>;

/// The text of an instant as year, month, day, hour, minute and second in a
/// row: `YYYYMMDDhhmmss`.
pub uninterp spec fn compact_stamp(secs: int, nanos: int) -> Seq<char>;

/// The instant that a text denotes, as seconds and nanoseconds after the Unix
/// epoch, or `None` where the calendar library rejects the text.
pub uninterp spec fn parsed_instant(text: Seq<char>) -> Option<(i64, u32)>;

/// The instant that strict RFC 3339 text denotes, as seconds and nanoseconds
/// after the Unix epoch, or `None` where the text is not RFC 3339.
pub uninterp spec fn parsed_rfc3339(text: Seq<char>) -> Option<(i64, u32)>;

/// The instant that lies `days` days after an instant, as the calendar library
/// adds them, or `None` where it cannot hold the span or the sum.
pub uninterp spec fn days_after(secs: int, nanos: int, days: int) -> Option<(i64, u32)>;

/// Calls `chrono::DateTime::from_timestamp` and reports whether it gave a value.
/// `chrono_accepts` is the name of that answer.
#[verifier::external_body]
fn chrono_can_hold(secs: i64, nanos: u32) -> (ok: bool)
    ensures
        ok == chrono_accepts(secs as int, nanos as int),
{
    DateTime::from_timestamp(secs, nanos).is_some()
}

/// Calls `chrono::DateTime::to_rfc3339` on the instant that
/// `DateTime::from_timestamp` builds. `rfc3339_text` is the name of its result.
#[verifier::external_body]
fn chrono_rfc3339(secs: i64, nanos: u32) -> (text: String)
    requires
        chrono_accepts(secs as int, nanos as int),
    ensures
        text@ == rfc3339_text(secs as int, nanos as int),
{
    DateTime::from_timestamp(secs, nanos).unwrap_or_default().to_rfc3339()
}

/// Calls `chrono::DateTime::format` with the pattern `%Y%m%d%H%M%S` on the
/// instant that `DateTime::from_timestamp` builds. `compact_stamp` is the name
/// of its result.
#[verifier::external_body]
fn chrono_compact(secs: i64, nanos: u32) -> (text: String)
    requires
        chrono_accepts(secs as int, nanos as int),
    ensures
        text@ == compact_stamp(secs as int, nanos as int),
{
    DateTime::from_timestamp(secs, nanos).unwrap_or_default().format("%Y%m%d%H%M%S").to_string()
}

/// Calls `str::parse::<chrono::DateTime<Utc>>`. `parsed_instant` is the name of
/// its result. The second clause claims what the calendar library documents of
/// `timestamp` and `timestamp_subsec_nanos`: that `from_timestamp` takes them
/// back.
#[verifier::external_body]
fn chrono_parse(text: &str) -> (parsed: Option<(i64, u32)>)
    ensures
        parsed == parsed_instant(text@),
        parsed matches Some(p) ==> chrono_accepts(p.0 as int, p.1 as int),
{
    match text.parse::<DateTime<Utc>>() {
        Ok(at) => Some((at.timestamp(), at.timestamp_subsec_nanos())),
        Err(_) => None,
    }
}

/// Calls `chrono::DateTime::parse_from_rfc3339`. `parsed_rfc3339` is the name of
/// its result, taken as an instant of UTC. The second clause claims what the
/// calendar library documents of `timestamp` and `timestamp_subsec_nanos`:
/// that `from_timestamp` takes them back.
#[verifier::external_body]
fn chrono_parse_rfc3339(text: &str) -> (parsed: Option<(i64, u32)>)
    ensures
        parsed == parsed_rfc3339(text@),
        parsed matches Some(p) ==> chrono_accepts(p.0 as int, p.1 as int),
{
    match DateTime::parse_from_rfc3339(text) {
        Ok(at) => Some((at.timestamp(), at.timestamp_subsec_nanos())),
        Err(_) => None,
    }
}

/// Calls `chrono::DateTime::checked_add_signed` on the instant that
/// `DateTime::from_timestamp` builds, with the span that `TimeDelta::try_days`
/// makes of `days`. `days_after` is the name of its result. The second clause
/// claims what the calendar library documents of `timestamp` and
/// `timestamp_subsec_nanos`: that `from_timestamp` takes them back.
#[verifier::external_body]
fn chrono_plus_days(secs: i64, nanos: u32, days: i64) -> (end: Option<(i64, u32)>)
    requires
        chrono_accepts(secs as int, nanos as int),
    ensures
        end == days_after(secs as int, nanos as int, days as int),
        end matches Some(p) ==> chrono_accepts(p.0 as int, p.1 as int),
{
    let start = DateTime::from_timestamp(secs, nanos).unwrap_or_default();
    match TimeDelta::try_days(days) {
        Some(span) => match start.checked_add_signed(span) {
            Some(end) => Some((end.timestamp(), end.timestamp_subsec_nanos())),
            None => None,
        },
        None => None,
    }
}

/// Calls `chrono::Utc::now`. Nothing is claimed of the instant but that
/// `from_timestamp` takes it back, as the calendar library documents.
#[verifier::external_body]
fn chrono_now() -> (at: (i64, u32))
    ensures
        chrono_accepts(at.0 as int, at.1 as int),
{
    let now = Utc::now();
    (now.timestamp(), now.timestamp_subsec_nanos())
}

/// An instant as a pair: whole seconds after the Unix epoch, then nanoseconds
/// into that second.
pub type Instant = (int, int);

/// Whether instant `a` lies strictly before instant `b`.
pub open spec fn instant_lt(a: Instant, b: Instant) -> bool {
    a.0 < b.0 || (a.0 == b.0 && a.1 < b.1)
}

/// The later of two instants.
pub open spec fn later_of(a: Instant, b: Instant) -> Instant {
    if instant_lt(a, b) {
        b
    } else {
        a
    }
}

/// An instant of UTC time that the calendar library can hold.
#[derive(Clone, Copy, Debug, PartialEq, Eq, Structural)]
pub struct Timestamp {
    secs: i64,
    nanos: u32,
}

impl View for Timestamp {
    type V = Instant;

    closed spec fn view(&self) -> Instant {
        (self.secs as int, self.nanos as int)
    }
}

impl Timestamp {
    #[verifier::type_invariant]
    spec fn held_by_chrono(self) -> bool {
        chrono_accepts(self.secs as int, self.nanos as int)
    }

    /// The text of this instant in RFC 3339 form.
    pub open spec fn rfc3339(self) -> Seq<char> {
        rfc3339_text(self@.0, self@.1)
    }

    /// The instant `secs` seconds and `nanos` nanoseconds after the Unix epoch,
    /// where the calendar library can hold it.
    pub fn from_unix(secs: i64, nanos: u32) -> (made: Option<Timestamp>)
        ensures
            made is Some <==> chrono_accepts(secs as int, nanos as int),
            made matches Some(t) ==> t@ == (secs as int, nanos as int),
    {
        if chrono_can_hold(secs, nanos) {
            Some(Timestamp { secs, nanos })
        } else {
            None
        }
    }

    /// Reads an instant from RFC 3339 text, read leniently: a space may stand
    /// for the `T`.
    pub fn parse(text: &str) -> (read: Option<Timestamp>)
        ensures
            match read {
                Some(t) => parsed_instant(text@) matches Some(p) && t@ == (p.0 as int, p.1 as int),
                None => parsed_instant(text@) is None,
            },
    {
        match chrono_parse(text) {
            Some((secs, nanos)) => Some(Timestamp { secs, nanos }),
            None => None,
        }
    }

    /// Reads an instant from text that must be RFC 3339 to the letter.
    pub fn parse_rfc3339(text: &str) -> (read: Option<Timestamp>)
        ensures
            match read {
                Some(t) => parsed_rfc3339(text@) matches Some(p) && t@ == (p.0 as int, p.1 as int),
                None => parsed_rfc3339(text@) is None,
            },
    {
        match chrono_parse_rfc3339(text) {
            Some((secs, nanos)) => Some(Timestamp { secs, nanos }),
            None => None,
        }
    }

    /// The current instant. Which one it is depends on the clock alone; whatever
    /// it is, the calendar library can hold it, so that it can be written as
    /// text and read back from its seconds and nanoseconds.
    pub fn now() -> (now: Timestamp)
        ensures
            chrono_accepts(now@.0, now@.1),
    {
        let (secs, nanos) = chrono_now();
        Timestamp { secs, nanos }
    }

    /// Whole seconds after the Unix epoch.
    pub fn unix_seconds(&self) -> (secs: i64)
        ensures
            secs == self@.0,
    {
        self.secs
    }

    /// Nanoseconds into the second.
    pub fn subsec_nanos(&self) -> (nanos: u32)
        ensures
            nanos == self@.1,
    {
        self.nanos
    }

    /// Whether this instant lies strictly before `other`.
    pub fn is_before(&self, other: &Timestamp) -> (before: bool)
        ensures
            before == instant_lt(self@, other@),
    {
        self.secs < other.secs || (self.secs == other.secs && self.nanos < other.nanos)
    }

    /// The later of this instant and `other`.
    pub fn later_of(&self, other: &Timestamp) -> (later: Timestamp)
        ensures
            later@ == later_of(self@, other@),
    {
        if self.is_before(other) {
            *other
        } else {
            *self
        }
    }

    /// The instant `days` days after this one, where the calendar library has
    /// one.
    pub fn plus_days(&self, days: i64) -> (end: Option<Timestamp>)
        ensures
            match end {
                Some(t) => days_after(self@.0, self@.1, days as int) matches Some(p) && t@ == (
                    p.0 as int,
                    p.1 as int,
                ),
                None => days_after(self@.0, self@.1, days as int) is None,
            },
    {
        proof {
            use_type_invariant(self);
        }
        match chrono_plus_days(self.secs, self.nanos, days) {
            Some((secs, nanos)) => Some(Timestamp { secs, nanos }),
            None => None,
        }
    }

    /// Writes this instant as RFC 3339 text.
    pub fn to_rfc3339(&self) -> (text: String)
        ensures
            text@ == self.rfc3339(),
    {
        proof {
            use_type_invariant(self);
        }
        chrono_rfc3339(self.secs, self.nanos)
    }

    /// Writes this instant as `YYYYMMDDhhmmss`.
    pub fn to_compact(&self) -> (text: String)
        ensures
            text@ == compact_stamp(self@.0, self@.1),
    {
        proof {
            use_type_invariant(self);
        }
        chrono_compact(self.secs, self.nanos)
    }
}

} // verus!
