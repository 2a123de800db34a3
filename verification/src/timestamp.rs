//! Points in time (UTC), held as whole seconds since the Unix epoch plus a
//! nanosecond part, with the calendar work done by `chrono`.
use vstd::prelude::*;

verus! {

/// Whether `chrono::DateTime::<Utc>::from_timestamp(secs, nanos)` gives a
/// date-time (it gives `None` outside chrono's calendar range).
pub uninterp spec fn chrono_accepts(secs: int, nanos: int) -> bool;

/// The text `chrono`'s `DateTime::<Utc>::to_rfc3339` writes for the instant
/// `(secs, nanos)`.
pub uninterp spec fn chrono_rfc3339(secs: int, nanos: int) -> Seq<char>;

/// The text `chrono` writes for the instant `(secs, nanos)` with the pattern
/// `"%Y-%m-%d"`.
pub uninterp spec fn chrono_ymd(secs: int, nanos: int) -> Seq<char>;

/// What `text.parse::<DateTime<Utc>>()` gives, as `(timestamp, subsec nanos)`.
pub uninterp spec fn chrono_parsed(text: Seq<char>) -> Option<(i64, u32)>;

/// Calls `chrono::DateTime::<Utc>::from_timestamp(secs, nanos)` and reports
/// whether it gave a date-time. Its source turns any second count from the
/// epoch up to the end of year 9999 with a sub-second part below one second
/// into a date-time (chrono's calendar reaches year 262142), which the
/// second clause states.
#[verifier::external_body]
fn chrono_check(secs: i64, nanos: u32) -> (r: bool)
    ensures
        r == chrono_accepts(secs as int, nanos as int),
        0 <= secs <= 253402300799 && nanos < 1_000_000_000 ==> r,
{
    chrono::DateTime::<chrono::Utc>::from_timestamp(secs, nanos).is_some()
}

/// Calls `chrono`'s `DateTime::to_rfc3339` on the instant `(secs, nanos)`.
/// The result is only named: its text is chrono's to write.
#[verifier::external_body]
fn chrono_to_rfc3339(secs: i64, nanos: u32) -> (r: String)
    requires
        chrono_accepts(secs as int, nanos as int),
    ensures
        r@ == chrono_rfc3339(secs as int, nanos as int),
{
    chrono::DateTime::<chrono::Utc>::from_timestamp(secs, nanos).unwrap().to_rfc3339()
}

/// Calls `chrono`'s `DateTime::format("%Y-%m-%d")` on the instant
/// `(secs, nanos)` and renders it to a string.
#[verifier::external_body]
fn chrono_format_ymd(secs: i64, nanos: u32) -> (r: String)
    requires
        chrono_accepts(secs as int, nanos as int),
    ensures
        r@ == chrono_ymd(secs as int, nanos as int),
{
    chrono::DateTime::<chrono::Utc>::from_timestamp(secs, nanos).unwrap().format("%Y-%m-%d").to_string()
}

/// Calls `str::parse::<chrono::DateTime<Utc>>` (a relaxed RFC 3339 reader).
/// What it accepts is only named; chrono documents that `timestamp()` and
/// `timestamp_subsec_nanos()` of a date-time are taken back by
/// `from_timestamp`, which the second clause states.
#[verifier::external_body]
fn chrono_parse(text: &str) -> (r: Option<(i64, u32)>)
    ensures
        r == chrono_parsed(text@),
        r matches Some(p) ==> chrono_accepts(p.0 as int, p.1 as int),
{
    text.parse::<chrono::DateTime<chrono::Utc>>().ok().map(|d| (d.timestamp(), d.timestamp_subsec_nanos()))
}

/// Calls `chrono::Utc::now()`. Its source reads the system clock as a
/// duration since the Unix epoch (so whole seconds from zero up and a
/// sub-second part below one second) and turns it into a date-time with
/// `from_timestamp`, which takes it back. Which instant it is depends on the
/// clock and is not stated; a clock set before 1970 makes chrono panic.
#[verifier::external_body]
fn chrono_now() -> (r: (i64, u32))
    ensures
        chrono_accepts(r.0 as int, r.1 as int),
        r.0 >= 0,
        r.1 < 1_000_000_000,
{
    let d = chrono::Utc::now();
    (d.timestamp(), d.timestamp_subsec_nanos())
}

/// Calls `DateTime::<Utc>::default()`, which chrono documents as
/// 1970-01-01T00:00:00 UTC, the Unix epoch.
#[verifier::external_body]
fn chrono_default() -> (r: (i64, u32))
    ensures
        r.0 == 0 && r.1 == 0,
        chrono_accepts(r.0 as int, r.1 as int),
{
    let d = chrono::DateTime::<chrono::Utc>::default();
    (d.timestamp(), d.timestamp_subsec_nanos())
}

/// An instant in UTC: whole seconds since 1970-01-01T00:00:00Z and the
/// nanoseconds past that second.
#[derive(Debug, Clone, Copy, PartialEq, Eq)]
pub struct Timestamp {
    secs: i64,
    nanos: u32,
}

impl Timestamp {
    /// Every timestamp is one that chrono can turn into a date-time.
    #[verifier::type_invariant]
    spec fn well_formed(self) -> bool {
        chrono_accepts(self.secs as int, self.nanos as int)
    }

    /// Seconds since the Unix epoch.
    pub closed spec fn spec_secs(self) -> int {
        self.secs as int
    }

    /// Nanoseconds past the second.
    pub closed spec fn spec_nanos(self) -> int {
        self.nanos as int
    }

    /// The instant `(secs, nanos)`, or `None` when chrono cannot represent it.
    pub fn from_unix(secs: i64, nanos: u32) -> (r: Option<Timestamp>)
        ensures
            r is Some <==> chrono_accepts(secs as int, nanos as int),
            0 <= secs <= 253402300799 && nanos < 1_000_000_000 ==> r is Some,
            r matches Some(t) ==> t.spec_secs() == secs && t.spec_nanos() == nanos,
    {
        if chrono_check(secs, nanos) {
            Some(Timestamp { secs, nanos })
        } else {
            None
        }
    }

    /// Reads an RFC 3339 date-time the way `text.parse::<DateTime<Utc>>()` does.
    pub fn parse_rfc3339(text: &str) -> (r: Option<Timestamp>)
        ensures
            r is Some <==> chrono_parsed(text@) is Some,
            r matches Some(t) ==> chrono_parsed(text@) matches Some(p) && t.spec_secs() == p.0 && t.spec_nanos() == p.1,
    {
        match chrono_parse(text) {
            Some(p) => Some(Timestamp { secs: p.0, nanos: p.1 }),
            None => None,
        }
    }

    /// The default date-time, 1970-01-01T00:00:00Z.
    pub fn unix_epoch() -> (r: Timestamp)
        ensures
            r.spec_secs() == 0 && r.spec_nanos() == 0,
    {
        let p = chrono_default();
        Timestamp { secs: p.0, nanos: p.1 }
    }

    /// The current instant according to the system clock: at or after the
    /// Unix epoch, with a sub-second part below one second, and one chrono
    /// can represent.
    pub fn now() -> (r: Timestamp)
        ensures
            r.spec_secs() >= 0,
            r.spec_nanos() < 1_000_000_000,
            chrono_accepts(r.spec_secs(), r.spec_nanos()),
    {
        let p = chrono_now();
        Timestamp { secs: p.0, nanos: p.1 }
    }

    /// Seconds since the Unix epoch.
    pub fn secs(&self) -> (r: i64)
        ensures
            r == self.spec_secs(),
    {
        self.secs
    }

    /// Nanoseconds past the second.
    pub fn nanos(&self) -> (r: u32)
        ensures
            r == self.spec_nanos(),
    {
        self.nanos
    }

    /// The RFC 3339 text of this instant, as chrono's `to_rfc3339` writes it.
    pub fn to_rfc3339(&self) -> (r: String)
        ensures
            r@ == chrono_rfc3339(self.spec_secs(), self.spec_nanos()),
    {
        proof { use_type_invariant(self); }
        chrono_to_rfc3339(self.secs, self.nanos)
    }

    /// The calendar date of this instant, as `format("%Y-%m-%d")` writes it.
    pub fn date_ymd(&self) -> (r: String)
        ensures
            r@ == chrono_ymd(self.spec_secs(), self.spec_nanos()),
    {
        proof { use_type_invariant(self); }
        chrono_format_ymd(self.secs, self.nanos)
    }
}

} // verus!
