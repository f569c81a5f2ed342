//! Points in time and spans of time, as whole seconds and nanoseconds.

use chrono::{DateTime, Utc};
use vstd::prelude::*;

verus! {

/// What `chrono` reads from `text` as a date and time in ISO 8601 or RFC 3339
/// form (its format `%+`) with an offset from UTC, which it applies: the
/// instant that the text names, as the seconds since the Unix epoch in UTC
/// and the nanoseconds into that second. Where it rejects the text, the
/// words in which it says why.
pub uninterp spec fn chrono_parse_utc(text: Seq<char>) -> Result<(i64, u32), Seq<char>>;

/// Calls `chrono::DateTime::parse_from_str` with the format `%+`, and reads
/// the instant it found with `timestamp` and `timestamp_subsec_nanos`, which
/// count in UTC whatever the offset in the text; an error is handed on as
/// its `Display` text.
/// Not proved: that the outcome is the one named [`chrono_parse_utc`], and
/// that what `chrono` accepts is an instant: its years end at 262142, and it
/// counts nanoseconds past a full second only in a leap second, which it
/// takes after the 59th second of a minute alone; an offset is of whole
/// minutes and leaves the second of the minute as it is.
#[verifier::external_body]
fn parse_utc(text: &str) -> (parsed: Result<(i64, u32), String>)
    ensures
        match parsed {
            Ok(found) => chrono_parse_utc(text@) == Ok::<(i64, u32), Seq<char>>(found)
                && is_instant(found.0 as int, found.1 as int),
            Err(reason) => chrono_parse_utc(text@) == Err::<(i64, u32), Seq<char>>(reason@),
        },
{
    match DateTime::parse_from_str(text, "%+") {
        Ok(found) => Ok((found.timestamp(), found.timestamp_subsec_nanos())),
        Err(error) => Err(error.to_string()),
    }
}

/// Calls `chrono::Utc::now` and reads the seconds and nanoseconds of what it
/// returns. Not proved: that the system clock's time is an instant after the
/// epoch and outside a leap second. `chrono` takes it from a
/// `std::time::Duration` since the epoch, and stops the program where the
/// clock stands before the epoch or beyond the year 262142.
#[verifier::external_body]
fn utc_now() -> (now: (i64, u32))
    ensures
        is_instant(now.0 as int, now.1 as int),
        0 <= now.0,
        now.1 < NANOS_PER_SEC,
{
    let now = Utc::now();
    (now.timestamp(), now.timestamp_subsec_nanos())
}

/// Nanoseconds in a second.
pub const NANOS_PER_SEC: u32 = 1_000_000_000;

/// The largest distance from the Unix epoch, in seconds, that a [`Timestamp`]
/// holds. It is a little over 316,000 years, which leaves room for every
/// date that `chrono` can hold (years -262143 to 262142).
pub const MAX_ABS_SECS: i64 = 10_000_000_000_000;

/// What a [`Timestamp`] stands for: `secs` whole seconds after the Unix
/// epoch (before it, if negative) and `nanos` nanoseconds into that second.
/// During a leap second `nanos` runs on from 1,000,000,000 to 1,999,999,999.
pub struct Instant {
    pub secs: int,
    pub nanos: int,
}

/// Whether `secs` and `nanos` name an instant that a [`Timestamp`] can hold.
/// A leap second can only follow the 59th second of a minute.
pub open spec fn is_instant(secs: int, nanos: int) -> bool {
    &&& -MAX_ABS_SECS <= secs <= MAX_ABS_SECS
    &&& 0 <= nanos < 2 * NANOS_PER_SEC
    &&& nanos >= NANOS_PER_SEC ==> secs % 60 == 59
}

/// What a leap second adds to the seconds between two instants. The only
/// leap seconds known are those that one of the two stands in. The one that
/// `earlier` stands in counts where `later` is at a later second of its
/// day; the one that `later` stands in is taken off where `earlier` is at
/// a later second of its day. This is the reckoning of `chrono`.
pub open spec fn leap_correction(later: Instant, earlier: Instant) -> int {
    let later_in_day = later.secs % 86_400;
    let earlier_in_day = earlier.secs % 86_400;
    if later_in_day > earlier_in_day && earlier.nanos >= NANOS_PER_SEC {
        1
    } else if later_in_day < earlier_in_day && later.nanos >= NANOS_PER_SEC {
        -1
    } else {
        0
    }
}

/// The nanoseconds from `earlier` to `later`; negative where `later` comes
/// first.
pub open spec fn nanos_between(later: Instant, earlier: Instant) -> int {
    (later.secs - earlier.secs + leap_correction(later, earlier)) * NANOS_PER_SEC
        + (later.nanos - earlier.nanos)
}

/// Whether `one` comes before `other` in the order of instants: at an
/// earlier second, or earlier within the same second.
pub open spec fn is_before(one: Instant, other: Instant) -> bool {
    one.secs < other.secs || (one.secs == other.secs && one.nanos < other.nanos)
}

/// Whether `earlier` stands in a leap second that ends its day, and `later`
/// in the second that begins the next day, no further into it than
/// `earlier` is into the leap second. Between two such instants the
/// reckoning of [`nanos_between`] loses the leap second.
pub open spec fn straddles_leap_midnight(earlier: Instant, later: Instant) -> bool {
    &&& earlier.nanos >= NANOS_PER_SEC
    &&& earlier.secs % 86_400 == 86_399
    &&& later.secs == earlier.secs + 1
    &&& later.nanos + NANOS_PER_SEC <= earlier.nanos
}

/// A point in time, in UTC.
#[derive(Clone, Copy, Debug)]
pub struct Timestamp {
    secs: i64,
    nanos: u32,
}

impl View for Timestamp {
    type V = Instant;

    closed spec fn view(&self) -> Instant {
        Instant { secs: self.secs as int, nanos: self.nanos as int }
    }
}

impl Timestamp {
    #[verifier::type_invariant]
    spec fn well_formed(self) -> bool {
        is_instant(self.secs as int, self.nanos as int)
    }

    /// The timestamp `secs` seconds and `nanos` nanoseconds after the Unix
    /// epoch, or `None` where the two do not name an instant.
    pub fn new(secs: i64, nanos: u32) -> (result: Option<Timestamp>)
        ensures
            result is Some <==> is_instant(secs as int, nanos as int),
            result matches Some(t) ==> t@ == (Instant { secs: secs as int, nanos: nanos as int }),
    {
        if secs < -MAX_ABS_SECS || secs > MAX_ABS_SECS || nanos >= 2 * NANOS_PER_SEC {
            return None;
        }
        if nanos >= NANOS_PER_SEC {
            let second_of_minute: Option<i64> = secs.checked_rem_euclid(60);
            if second_of_minute != Some(59) {
                return None;
            }
        }
        Some(Timestamp { secs, nanos })
    }

    /// The time that the system clock shows: an instant at or after the
    /// epoch and outside a leap second.
    pub fn now() -> (now: Timestamp)
        ensures
            is_instant(now@.secs, now@.nanos),
            0 <= now@.secs,
            now@.nanos < NANOS_PER_SEC,
    {
        let (secs, nanos) = utc_now();
        Timestamp { secs, nanos }
    }

    /// Reads `text` as a date and time in ISO 8601 or RFC 3339 form, in UTC.
    /// Where the text is no date and time, the error says why.
    pub fn parse(text: &str) -> (parsed: Result<Timestamp, String>)
        ensures
            match parsed {
                Ok(timestamp) => chrono_parse_utc(text@) matches Ok(found) && timestamp@ == (Instant {
                    secs: found.0 as int,
                    nanos: found.1 as int,
                }),
                Err(reason) => chrono_parse_utc(text@) matches Err(why) && reason@ == why,
            },
    {
        match parse_utc(text) {
            Ok((secs, nanos)) => Ok(Timestamp { secs, nanos }),
            Err(reason) => Err(reason),
        }
    }

    /// Whole seconds since the Unix epoch.
    pub fn secs(&self) -> (secs: i64)
        ensures
            secs == self@.secs,
            is_instant(self@.secs, self@.nanos),
    {
        proof {
            use_type_invariant(self);
        }
        self.secs
    }

    /// Nanoseconds into the second.
    pub fn nanos(&self) -> (nanos: u32)
        ensures
            nanos == self@.nanos,
    {
        self.nanos
    }

    /// The nanoseconds from `earlier` to this timestamp; negative where
    /// this timestamp comes first. They are the time that `chrono` counts
    /// between the two.
    pub fn nanos_since(&self, earlier: &Timestamp) -> (nanos: i128)
        ensures
            nanos == nanos_between(self@, earlier@),
    {
        proof {
            use_type_invariant(self);
            use_type_invariant(earlier);
        }
        let later_in_day: i64 = second_of_day(self.secs);
        let earlier_in_day: i64 = second_of_day(earlier.secs);
        let correction: i64 = if later_in_day > earlier_in_day && earlier.nanos >= NANOS_PER_SEC {
            1
        } else if later_in_day < earlier_in_day && self.nanos >= NANOS_PER_SEC {
            -1
        } else {
            0
        };
        let apart: i64 = self.secs - earlier.secs + correction;
        apart as i128 * 1_000_000_000 + (self.nanos as i128 - earlier.nanos as i128)
    }
}

/// A span of time, to the nanosecond.
#[derive(Clone, Copy, Debug)]
pub struct TimeSpan {
    secs: u64,
    nanos: u32,
}

impl View for TimeSpan {
    type V = nat;

    /// The span in nanoseconds.
    closed spec fn view(&self) -> nat {
        (self.secs * NANOS_PER_SEC + self.nanos) as nat
    }
}

impl TimeSpan {
    #[verifier::type_invariant]
    spec fn well_formed(self) -> bool {
        self.nanos < NANOS_PER_SEC
    }

    /// The span of `secs` seconds and `nanos` nanoseconds, or `None` where
    /// the nanoseconds make up a second or more.
    pub fn new(secs: u64, nanos: u32) -> (result: Option<TimeSpan>)
        ensures
            result is Some <==> nanos < NANOS_PER_SEC,
            result matches Some(span) ==> span@ == secs * NANOS_PER_SEC + nanos,
    {
        if nanos < NANOS_PER_SEC {
            Some(TimeSpan { secs, nanos })
        } else {
            None
        }
    }

    /// The span of `secs` whole seconds.
    pub fn from_secs(secs: u64) -> (span: TimeSpan)
        ensures
            span@ == secs * NANOS_PER_SEC,
    {
        TimeSpan { secs, nanos: 0 }
    }

    /// The whole seconds in the span.
    pub fn as_secs(&self) -> (secs: u64)
        ensures
            secs == self@ / (NANOS_PER_SEC as nat),
    {
        proof {
            use_type_invariant(self);
            vstd::arithmetic::div_mod::lemma_fundamental_div_mod_converse(
                self@ as int,
                NANOS_PER_SEC as int,
                self.secs as int,
                self.nanos as int,
            );
        }
        self.secs
    }

    /// The nanoseconds of the span beyond its whole seconds.
    pub fn subsec_nanos(&self) -> (nanos: u32)
        ensures
            nanos == self@ % (NANOS_PER_SEC as nat),
    {
        proof {
            use_type_invariant(self);
            vstd::arithmetic::div_mod::lemma_fundamental_div_mod_converse(
                self@ as int,
                NANOS_PER_SEC as int,
                self.secs as int,
                self.nanos as int,
            );
        }
        self.nanos
    }

    /// The whole milliseconds in the span.
    pub fn as_millis(&self) -> (millis: u128)
        ensures
            millis == self@ / 1_000_000,
    {
        proof {
            use_type_invariant(self);
        }
        let sub_millis: u32 = self.nanos / 1_000_000;
        let millis: u128 = self.secs as u128 * 1_000 + sub_millis as u128;
        proof {
            let rest: int = self.nanos as int % 1_000_000;
            vstd::arithmetic::div_mod::lemma_fundamental_div_mod_converse(
                self@ as int,
                1_000_000,
                millis as int,
                rest,
            );
        }
        millis
    }

    /// Nine tenths of the span, rounded down to the nanosecond.
    pub fn nine_tenths(&self) -> (span: TimeSpan)
        ensures
            span@ == self@ * 9 / 10,
    {
        proof {
            use_type_invariant(self);
        }
        // Nine tenths of the seconds, then of the nanoseconds, with the
        // tenths of a second that the first division leaves.
        let tens: u64 = self.secs / 10;
        let units: u64 = self.secs % 10;
        let left: u64 = units * 9_000_000_000 + self.nanos as u64 * 9;
        let small: u64 = left / 10;
        let secs: u64 = tens * 9 + small / 1_000_000_000;
        let nanos: u32 = (small % 1_000_000_000) as u32;
        proof {
            let rest: int = left as int % 10;
            let total: int = self@ as int * 9;
            vstd::arithmetic::div_mod::lemma_fundamental_div_mod_converse(
                total,
                10,
                secs * NANOS_PER_SEC + nanos,
                rest,
            );
        }
        TimeSpan { secs, nanos }
    }
}

/// The second of its day, counted from midnight, that `secs` seconds after
/// the epoch fall in.
fn second_of_day(secs: i64) -> (second: i64)
    ensures
        second == secs % 86_400,
        0 <= second < 86_400,
{
    match secs.checked_rem_euclid(86_400) {
        Some(second) => second,
        None => 0,
    }
}

/// The time from one instant to another is the time back, turned round.
pub proof fn lemma_nanos_between_turns_round(one: Instant, other: Instant)
    ensures
        nanos_between(one, other) == -nanos_between(other, one),
{
}

/// An instant that comes before another lies a time below zero from it, and
/// the other a time above zero from the first. The one exception is a leap
/// second at the end of a day, seen from the first second of the next day.
pub proof fn lemma_before_is_negative(earlier: Instant, later: Instant)
    requires
        is_instant(earlier.secs, earlier.nanos),
        is_instant(later.secs, later.nanos),
        is_before(earlier, later),
        !straddles_leap_midnight(earlier, later),
    ensures
        nanos_between(earlier, later) < 0,
        nanos_between(later, earlier) > 0,
{
    lemma_nanos_between_turns_round(earlier, later);
}

/// Between two instants outside a leap second the time is the plain
/// difference, and it is below zero exactly where the first comes before
/// the second.
pub proof fn lemma_nanos_between_plain(one: Instant, other: Instant)
    requires
        one.nanos < NANOS_PER_SEC,
        other.nanos < NANOS_PER_SEC,
    ensures
        nanos_between(one, other) == (one.secs - other.secs) * NANOS_PER_SEC + (one.nanos
            - other.nanos),
        0 <= one.nanos && 0 <= other.nanos ==> (nanos_between(one, other) < 0 <==> is_before(
            one,
            other,
        )),
{
}

} // verus!
