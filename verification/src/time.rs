//! Points in time, in UTC.

use vstd::prelude::*;

use crate::text::{digit, digit_char};

verus! {

broadcast use vstd::string::group_string_axioms;

/// Seconds from 1 January 1970 to the first day of the calendar.
pub const FIRST_SECOND: i64 = -8334601228800;

/// Seconds from 1 January 1970 to the last second of the calendar.
pub const LAST_SECOND: i64 = 8210266876799;

/// A point in time: seconds from the start of 1 January 1970 in UTC, and the
/// nanoseconds that have passed since.
#[derive(Clone, Copy, Debug, PartialEq, Eq, Structural)]
pub struct Timestamp {
    secs: i64,
    nanos: u32,
}

/// The instants that the calendar covers.
pub open spec fn in_calendar(secs: int, nanos: int) -> bool {
    FIRST_SECOND <= secs <= LAST_SECOND && 0 <= nanos < 1_000_000_000
}

/// Two decimal digits for a number under one hundred.
pub open spec fn two_digits(n: int) -> Seq<char> {
    seq![digit(n / 10), digit(n % 10)]
}

/// The time of day, as `HH:MM:SS`.
pub open spec fn clock_text(secs: int) -> Seq<char> {
    let s = secs % 86400;
    two_digits(s / 3600) + seq![':'] + two_digits(s / 60 % 60) + seq![':'] + two_digits(s % 60)
}

/// What the calendar writes for an instant in the pattern `pattern`.
pub uninterp spec fn calendar_text(secs: i64, nanos: u32, pattern: Seq<char>) -> Seq<char>;

/// Writes an instant in one of three patterns: `%Y-%m-%d` for the day,
/// `%Y-%m-%d %H:%M:%S` for the day and the time of day, and `%+` for both with
/// the fraction of a second and the offset from UTC, as RFC 3339 has it.
///
/// Calls `chrono::DateTime::from_timestamp` and `chrono::DateTime::format`.
/// Claimed: an instant within the calendar has a text, and which text that is
/// depends on the instant and the pattern alone.
#[verifier::external_body]
fn write_calendar(secs: i64, nanos: u32, pattern: &str) -> (r: String)
    requires
        in_calendar(secs as int, nanos as int),
        pattern@ == "%Y-%m-%d"@ || pattern@ == "%Y-%m-%d %H:%M:%S"@ || pattern@ == "%+"@,
    ensures
        r@ == calendar_text(secs, nanos, pattern@),
{
    let instant = chrono::DateTime::from_timestamp(secs, nanos).unwrap_or_default();
    instant.format(pattern).to_string()
}

impl Timestamp {
    /// Every instant lies within the calendar.
    #[verifier::type_invariant]
    spec fn inv(self) -> bool {
        in_calendar(self.secs as int, self.nanos as int)
    }

    /// Whole seconds since the start of 1970.
    pub closed spec fn unix_secs(&self) -> i64 {
        self.secs
    }

    /// Nanoseconds since the last whole second.
    pub closed spec fn sub_nanos(&self) -> u32 {
        self.nanos
    }

    /// `self` lies before `other`.
    pub open spec fn earlier(&self, other: Timestamp) -> bool {
        self.unix_secs() < other.unix_secs() || (self.unix_secs() == other.unix_secs()
            && self.sub_nanos() < other.sub_nanos())
    }

    /// Whole seconds from `start` to `self`, rounded towards zero.
    pub open spec fn seconds_from(&self, start: Timestamp) -> int {
        let d = self.unix_secs() - start.unix_secs();
        if d > 0 && self.sub_nanos() < start.sub_nanos() {
            d - 1
        } else if d < 0 && self.sub_nanos() > start.sub_nanos() {
            d + 1
        } else {
            d
        }
    }

    /// Instants are ordered: neither before itself, transitively, and two of
    /// which neither is before the other are the same.
    pub proof fn earlier_is_an_order()
        ensures
            forall|a: Timestamp| !a.earlier(a),
            forall|a: Timestamp, b: Timestamp, c: Timestamp|
                #![trigger a.earlier(b), b.earlier(c)]
                a.earlier(b) && b.earlier(c) ==> a.earlier(c),
            forall|a: Timestamp, b: Timestamp|
                #![trigger a.earlier(b)]
                a.earlier(b) || b.earlier(a) || a == b,
    {
    }

    /// The instant `nanos` nanoseconds after second `secs`, where the calendar
    /// covers it.
    pub fn new(secs: i64, nanos: u32) -> (r: Option<Timestamp>)
        ensures
            r is Some <==> in_calendar(secs as int, nanos as int),
            r matches Some(t) ==> t.unix_secs() == secs && t.sub_nanos() == nanos,
    {
        if FIRST_SECOND <= secs && secs <= LAST_SECOND && nanos < 1_000_000_000 {
            Some(Timestamp { secs, nanos })
        } else {
            None
        }
    }

    /// Whole seconds since the start of 1970.
    pub fn secs(&self) -> (r: i64)
        ensures
            r == self.unix_secs(),
    {
        self.secs
    }

    /// Nanoseconds since the last whole second.
    pub fn nanos(&self) -> (r: u32)
        ensures
            r == self.sub_nanos(),
    {
        self.nanos
    }

    /// Whether `self` lies before `other`.
    pub fn is_before(&self, other: &Timestamp) -> (r: bool)
        ensures
            r == self.earlier(*other),
    {
        self.secs < other.secs || (self.secs == other.secs && self.nanos < other.nanos)
    }

    /// Whole seconds from `start` to `self`, rounded towards zero.
    pub fn seconds_since(&self, start: &Timestamp) -> (r: i64)
        ensures
            r == self.seconds_from(*start),
    {
        proof {
            use_type_invariant(self);
            use_type_invariant(start);
        }
        let d: i64 = self.secs - start.secs;
        if d > 0 && self.nanos < start.nanos {
            d - 1
        } else if d < 0 && self.nanos > start.nanos {
            d + 1
        } else {
            d
        }
    }

    /// The time of day, as `HH:MM:SS`.
    pub fn clock(&self) -> (r: String)
        ensures
            r@ == clock_text(self.unix_secs() as int),
    {
        let secs = self.secs;
        proof {
            use_type_invariant(self);
        }
        let s: u64 = if secs >= 0 {
            (secs as u64) % 86400
        } else {
            86399 - ((-(secs + 1)) as u64) % 86400
        };
        assert(s == secs as int % 86400);
        let mut r = String::new();
        r.push(digit_char(s / 3600 / 10));
        r.push(digit_char(s / 3600 % 10));
        r.push(':');
        r.push(digit_char(s / 60 % 60 / 10));
        r.push(digit_char(s / 60 % 60 % 10));
        r.push(':');
        r.push(digit_char(s % 60 / 10));
        r.push(digit_char(s % 60 % 10));
        proof {
            assert(r@ =~= clock_text(secs as int));
        }
        r
    }

    /// The day, as `YYYY-MM-DD`.
    pub fn date(&self) -> (r: String)
        ensures
            r@ == calendar_text(self.unix_secs(), self.sub_nanos(), "%Y-%m-%d"@),
    {
        proof {
            use_type_invariant(self);
        }
        write_calendar(self.secs, self.nanos, "%Y-%m-%d")
    }

    /// The day and the time of day, as `YYYY-MM-DD HH:MM:SS`.
    pub fn date_and_clock(&self) -> (r: String)
        ensures
            r@ == calendar_text(self.unix_secs(), self.sub_nanos(), "%Y-%m-%d %H:%M:%S"@),
    {
        proof {
            use_type_invariant(self);
        }
        write_calendar(self.secs, self.nanos, "%Y-%m-%d %H:%M:%S")
    }

    /// The instant as RFC 3339 writes it.
    pub fn rfc3339(&self) -> (r: String)
        ensures
            r@ == calendar_text(self.unix_secs(), self.sub_nanos(), "%+"@),
    {
        proof {
            use_type_invariant(self);
        }
        write_calendar(self.secs, self.nanos, "%+")
    }
}

} // verus!
