//! Points in time (UTC). A [`Timestamp`] holds what the view logic reads of
//! a `chrono::DateTime<Utc>`: the seconds since the Unix epoch and the
//! nanoseconds within the second. `chrono` reads the clock, formats and
//! parses.

use vstd::prelude::*;
use chrono::{DateTime, NaiveDate, Utc};

verus! {

/// Whether `chrono` can represent the instant `secs` seconds and `nanos`
/// nanoseconds after the Unix epoch (what `DateTime::from_timestamp` accepts).
pub uninterp spec fn chrono_representable(secs: i64, nanos: u32) -> bool;

/// What `DateTime::to_rfc3339` writes for the instant.
pub uninterp spec fn rfc3339_text(secs: i64, nanos: u32) -> Seq<char>;

/// What `format("%Y-%m-%d")` writes for the instant.
pub uninterp spec fn day_text(secs: i64, nanos: u32) -> Seq<char>;

/// What `format("%Y-%m-%d %H:%M")` writes for the instant.
pub uninterp spec fn minute_text(secs: i64, nanos: u32) -> Seq<char>;

/// What `s.parse::<DateTime<Utc>>()` yields, as seconds and nanoseconds.
pub uninterp spec fn parsed_datetime(s: Seq<char>) -> Option<(i64, u32)>;

/// What `s.parse::<NaiveDate>()` yields, as the seconds and nanoseconds of
/// midnight UTC of that date.
pub uninterp spec fn parsed_date_midnight(s: Seq<char>) -> Option<(i64, u32)>;

/// Calls `DateTime::from_timestamp` and reports whether it succeeds.
#[verifier::external_body]
fn representable(secs: i64, nanos: u32) -> (r: bool)
    ensures
        r == chrono_representable(secs, nanos),
{
    DateTime::from_timestamp(secs, nanos).is_some()
}

/// Calls `Utc::now()` and returns its seconds and nanoseconds. The reading
/// depends on the clock; the contract claims only that `chrono` can
/// represent it, since it came from a `DateTime`.
#[verifier::external_body]
fn clock_now() -> (r: (i64, u32))
    ensures
        chrono_representable(r.0, r.1),
{
    let d = Utc::now();
    (d.timestamp(), d.timestamp_subsec_nanos())
}

/// Calls `DateTime::to_rfc3339` on the instant.
#[verifier::external_body]
fn rfc3339_of(secs: i64, nanos: u32) -> (r: String)
    requires
        chrono_representable(secs, nanos),
    ensures
        r@ == rfc3339_text(secs, nanos),
{
    match DateTime::from_timestamp(secs, nanos) {
        Some(d) => d.to_rfc3339(),
        None => String::new(),
    }
}

/// Calls `format("%Y-%m-%d")` on the instant and writes it out.
#[verifier::external_body]
fn day_of(secs: i64, nanos: u32) -> (r: String)
    requires
        chrono_representable(secs, nanos),
    ensures
        r@ == day_text(secs, nanos),
{
    match DateTime::from_timestamp(secs, nanos) {
        Some(d) => d.format("%Y-%m-%d").to_string(),
        None => String::new(),
    }
}

/// Calls `format("%Y-%m-%d %H:%M")` on the instant and writes it out.
#[verifier::external_body]
fn minute_of(secs: i64, nanos: u32) -> (r: String)
    requires
        chrono_representable(secs, nanos),
    ensures
        r@ == minute_text(secs, nanos),
{
    match DateTime::from_timestamp(secs, nanos) {
        Some(d) => d.format("%Y-%m-%d %H:%M").to_string(),
        None => String::new(),
    }
}

/// The message `chrono`'s `ParseError` displays when `s.parse::<DateTime<Utc>>()` fails.
pub uninterp spec fn datetime_parse_error_text(s: Seq<char>) -> Seq<char>;

/// Calls `s.parse::<DateTime<Utc>>()` (a relaxed RFC 3339 parser); on
/// failure returns the error's message.
#[verifier::external_body]
fn parse_datetime(s: &str) -> (r: Result<(i64, u32), String>)
    ensures
        match r {
            Ok(p) => parsed_datetime(s@) == Some(p) && chrono_representable(p.0, p.1),
            Err(m) => parsed_datetime(s@) is None && m@ == datetime_parse_error_text(s@),
        },
{
    match s.parse::<DateTime<Utc>>() {
        Ok(d) => Ok((d.timestamp(), d.timestamp_subsec_nanos())),
        Err(e) => Err(e.to_string()),
    }
}

/// Calls `s.parse::<NaiveDate>()` and, on success, `and_hms_opt(0, 0, 0)`
/// and `and_utc()`, returning midnight UTC of the date. (`and_hms_opt` with
/// zeros succeeds on every date.)
#[verifier::external_body]
fn parse_date_midnight(s: &str) -> (r: Option<(i64, u32)>)
    ensures
        r == parsed_date_midnight(s@),
        r matches Some(p) ==> chrono_representable(p.0, p.1),
{
    match s.parse::<NaiveDate>().ok().and_then(|d| d.and_hms_opt(0, 0, 0)) {
        Some(ndt) => {
            let d = ndt.and_utc();
            Some((d.timestamp(), d.timestamp_subsec_nanos()))
        },
        None => None,
    }
}

/// An instant in UTC, as seconds since the Unix epoch and nanoseconds within
/// the second (1,000,000,000 and above during a leap second).
#[derive(Debug, Clone, Copy, PartialEq, Eq, Hash, Structural)]
pub struct Timestamp {
    secs: i64,
    nanos: u32,
}

impl Timestamp {
    #[verifier::type_invariant]
    spec fn representable(self) -> bool {
        chrono_representable(self.secs, self.nanos)
    }

    /// Seconds since the Unix epoch.
    pub closed spec fn spec_secs(self) -> i64 {
        self.secs
    }

    /// Nanoseconds within the second.
    pub closed spec fn spec_nanos(self) -> u32 {
        self.nanos
    }

    /// The current time.
    pub fn now() -> (r: Self) {
        let (secs, nanos) = clock_now();
        Timestamp { secs, nanos }
    }

    /// The instant with the given parts, if `chrono` can represent it.
    pub fn from_parts(secs: i64, nanos: u32) -> (r: Option<Self>)
        ensures
            r is Some <==> chrono_representable(secs, nanos),
            r matches Some(t) ==> t.spec_secs() == secs && t.spec_nanos() == nanos,
    {
        if representable(secs, nanos) {
            Some(Timestamp { secs, nanos })
        } else {
            None
        }
    }

    /// Seconds since the Unix epoch.
    pub fn secs(&self) -> (r: i64)
        ensures
            r == self.spec_secs(),
    {
        self.secs
    }

    /// Nanoseconds within the second.
    pub fn nanos(&self) -> (r: u32)
        ensures
            r == self.spec_nanos(),
    {
        self.nanos
    }

    /// The RFC 3339 text of the instant.
    pub fn to_rfc3339(&self) -> (r: String)
        ensures
            r@ == rfc3339_text(self.spec_secs(), self.spec_nanos()),
    {
        proof {
            use_type_invariant(self);
        }
        rfc3339_of(self.secs, self.nanos)
    }

    /// The calendar day of the instant, `YYYY-MM-DD`.
    pub fn day(&self) -> (r: String)
        ensures
            r@ == day_text(self.spec_secs(), self.spec_nanos()),
    {
        proof {
            use_type_invariant(self);
        }
        day_of(self.secs, self.nanos)
    }

    /// The minute of the instant, `YYYY-MM-DD HH:MM`.
    pub fn minute(&self) -> (r: String)
        ensures
            r@ == minute_text(self.spec_secs(), self.spec_nanos()),
    {
        proof {
            use_type_invariant(self);
        }
        minute_of(self.secs, self.nanos)
    }

    /// Parses a date-time as `DateTime<Utc>` does; on failure returns the
    /// parser's message.
    pub fn parse_rfc3339(s: &str) -> (r: Result<Self, String>)
        ensures
            match r {
                Ok(t) => parsed_datetime(s@) == Some((t.spec_secs(), t.spec_nanos())),
                Err(m) => parsed_datetime(s@) is None && m@ == datetime_parse_error_text(s@),
            },
    {
        match parse_datetime(s) {
            Ok((secs, nanos)) => Ok(Timestamp { secs, nanos }),
            Err(m) => Err(m),
        }
    }

    /// Parses a date-time as `DateTime<Utc>` does, or failing that a date
    /// `YYYY-MM-DD`, taken at midnight UTC.
    pub fn parse_datetime_or_date(s: &str) -> (r: Option<Self>)
        ensures
            r is Some <==> parsed_datetime_or_date(s@) is Some,
            r matches Some(t) ==> parsed_datetime_or_date(s@) == Some((t.spec_secs(), t.spec_nanos())),
    {
        match parse_datetime(s) {
            Ok((secs, nanos)) => Some(Timestamp { secs, nanos }),
            Err(_) => match parse_date_midnight(s) {
                Some((secs, nanos)) => Some(Timestamp { secs, nanos }),
                None => None,
            },
        }
    }
}

/// A date-time as `DateTime<Utc>` parses it, or else a date at midnight UTC.
pub open spec fn parsed_datetime_or_date(s: Seq<char>) -> Option<(i64, u32)> {
    match parsed_datetime(s) {
        Some(p) => Some(p),
        None => parsed_date_midnight(s),
    }
}

/// The order of instants in time: by seconds, then by nanoseconds.
pub open spec fn ts_lt(a: Timestamp, b: Timestamp) -> bool {
    a.spec_secs() < b.spec_secs() || (a.spec_secs() == b.spec_secs() && a.spec_nanos()
        < b.spec_nanos())
}

/// Whether `a` is earlier than `b`.
pub fn timestamp_lt(a: &Timestamp, b: &Timestamp) -> (r: bool)
    ensures
        r == ts_lt(*a, *b),
{
    a.secs() < b.secs() || (a.secs() == b.secs() && a.nanos() < b.nanos())
}

} // verus!
