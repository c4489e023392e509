//! Points in time, held as seconds and nanoseconds since the Unix epoch (UTC).

use vstd::prelude::*;

verus! {

/// First second of the year 0000, UTC.
pub const MIN_SECS: i64 = -62167219200;

/// Last second of the year 9999, UTC.
pub const MAX_SECS: i64 = 253402300799;

pub const NANOS_PER_SEC: u32 = 1_000_000_000;

pub const SECS_PER_DAY: i64 = 86400;

/// An instant in UTC with nanosecond precision, restricted to the years
/// 0000 to 9999 so that it has an RFC 3339 text form.
#[derive(Clone, Copy, Debug, PartialEq, Eq, Structural)]
pub struct Timestamp {
    pub secs: i64,
    pub nanos: u32,
}

/// What chrono's RFC 3339 parser yields for a text, as seconds and
/// nanoseconds since the epoch, or `None` where the text is no RFC 3339 date.
pub uninterp spec fn rfc3339_value(s: Seq<char>) -> Option<(i64, u32)>;

/// The RFC 3339 text that chrono writes for an instant.
pub uninterp spec fn rfc3339_text(secs: i64, nanos: u32) -> Seq<char>;

/// The timestamp that an RFC 3339 text denotes, if it is one and in range.
pub open spec fn timestamp_of(s: Seq<char>) -> Option<Timestamp> {
    match rfc3339_value(s) {
        Some(v) => if MIN_SECS <= v.0 <= MAX_SECS && v.1 < NANOS_PER_SEC {
            Some(Timestamp { secs: v.0, nanos: v.1 })
        } else {
            None
        },
        None => None,
    }
}

impl Timestamp {
    pub open spec fn wf(self) -> bool {
        MIN_SECS <= self.secs <= MAX_SECS && self.nanos < NANOS_PER_SEC
    }

    /// `self` lies strictly after `other`.
    pub open spec fn is_after(self, other: Timestamp) -> bool {
        self.secs > other.secs || (self.secs == other.secs && self.nanos > other.nanos)
    }

    /// The instant `days` whole days before `self`.
    pub open spec fn days_before(self, days: u32) -> Timestamp {
        Timestamp { secs: (self.secs - days * SECS_PER_DAY) as i64, nanos: self.nanos }
    }

    /// Builds a timestamp from seconds and nanoseconds, if they are in range.
    pub fn from_parts(secs: i64, nanos: u32) -> (r: Option<Timestamp>)
        ensures
            r == (if MIN_SECS <= secs <= MAX_SECS && nanos < NANOS_PER_SEC {
                Some(Timestamp { secs, nanos })
            } else {
                None
            }),
    {
        if MIN_SECS <= secs && secs <= MAX_SECS && nanos < NANOS_PER_SEC {
            Some(Timestamp { secs, nanos })
        } else {
            None
        }
    }

    /// The timestamp lies in the supported range.
    pub fn in_range(&self) -> (r: bool)
        ensures
            r == self.wf(),
    {
        MIN_SECS <= self.secs && self.secs <= MAX_SECS && self.nanos < NANOS_PER_SEC
    }

    /// A clock reading, as seconds and nanoseconds since the epoch, clamped
    /// into the supported range; a clock before the epoch reads as the epoch.
    pub open spec fn clamped(raw: Option<(u64, u32)>) -> Timestamp {
        match raw {
            Some(v) => Timestamp {
                secs: if v.0 > MAX_SECS as u64 { MAX_SECS } else { v.0 as i64 },
                nanos: if v.1 < NANOS_PER_SEC { v.1 } else { (NANOS_PER_SEC - 1) as u32 },
            },
            None => Timestamp { secs: 0, nanos: 0 },
        }
    }

    /// The timestamp of a clock reading, clamped into the supported range.
    pub fn from_clock(raw: Option<(u64, u32)>) -> (r: Timestamp)
        ensures
            r == Timestamp::clamped(raw),
            r.wf(),
    {
        match raw {
            Some((secs, nanos)) => {
                let s = if secs > MAX_SECS as u64 { MAX_SECS } else { secs as i64 };
                let n = if nanos < NANOS_PER_SEC { nanos } else { NANOS_PER_SEC - 1 };
                Timestamp { secs: s, nanos: n }
            },
            None => Timestamp { secs: 0, nanos: 0 },
        }
    }

    /// The current time, clamped into the supported range.
    pub fn now() -> (r: Timestamp)
        ensures
            r.wf(),
    {
        Timestamp::from_clock(clock_now())
    }

    /// `self` lies strictly after `other`.
    pub fn after(&self, other: &Timestamp) -> (r: bool)
        ensures
            r == self.is_after(*other),
    {
        self.secs > other.secs || (self.secs == other.secs && self.nanos > other.nanos)
    }

    /// The instant `days` whole days before `self`.
    pub fn minus_days(&self, days: u32) -> (r: Timestamp)
        requires
            self.wf(),
        ensures
            r == self.days_before(days),
    {
        let delta: i64 = (days as i64) * SECS_PER_DAY;
        Timestamp { secs: self.secs - delta, nanos: self.nanos }
    }

    /// The RFC 3339 text of this instant; parsing it gives the instant back.
    pub fn to_rfc3339(&self) -> (r: String)
        requires
            self.wf(),
        ensures
            r@ == rfc3339_text(self.secs, self.nanos),
            rfc3339_value(r@) == Some((self.secs, self.nanos)),
            timestamp_of(r@) == Some(*self),
    {
        format_rfc3339(self.secs, self.nanos)
    }

    /// Parses an RFC 3339 text; `None` where it is no date or lies out of range.
    pub fn parse_rfc3339(s: &str) -> (r: Option<Timestamp>)
        ensures
            r == timestamp_of(s@),
    {
        match parse_rfc3339_parts(s) {
            Some((secs, nanos)) => Timestamp::from_parts(secs, nanos),
            None => None,
        }
    }
}

/// Relies on std::time::SystemTime::now and `duration_since(UNIX_EPOCH)`,
/// read as seconds and nanoseconds; `None` when the clock is before the
/// epoch. Nothing is known of the value: it comes from the system clock.
#[verifier::external_body]
fn clock_now() -> (r: Option<(u64, u32)>) {
    std::time::SystemTime::now()
        .duration_since(std::time::UNIX_EPOCH)
        .ok()
        .map(|d| (d.as_secs(), d.subsec_nanos()))
}

/// Relies on chrono::DateTime::from_timestamp, which accepts every second of
/// the years 0000 to 9999 with nanoseconds below one second, and on
/// chrono::DateTime::to_rfc3339, which writes the offset `+00:00` and as many
/// fraction digits as the nanoseconds need, so chrono's parser reads the same
/// instant back.
#[verifier::external_body]
fn format_rfc3339(secs: i64, nanos: u32) -> (r: String)
    requires
        MIN_SECS <= secs <= MAX_SECS,
        nanos < NANOS_PER_SEC,
    ensures
        r@ == rfc3339_text(secs, nanos),
        rfc3339_value(r@) == Some((secs, nanos)),
{
    chrono::DateTime::from_timestamp(secs, nanos).unwrap().to_rfc3339()
}

/// Relies on chrono::DateTime::parse_from_rfc3339, with the parsed instant
/// read in UTC as seconds and nanoseconds since the epoch.
#[verifier::external_body]
fn parse_rfc3339_parts(s: &str) -> (r: Option<(i64, u32)>)
    ensures
        r == rfc3339_value(s@),
{
    match chrono::DateTime::parse_from_rfc3339(s) {
        Ok(t) => Some((t.timestamp(), t.timestamp_subsec_nanos())),
        Err(_) => None,
    }
}

} // verus!
