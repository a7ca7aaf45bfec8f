//! Points in time as the library holds them, and their text.

use crate::text::opt_text;
use vstd::prelude::*;

verus! {

/// A point in time: whole seconds since the start of 1970 in UTC, and the
/// nanoseconds since the last whole second.
#[derive(Debug, Clone, Copy, PartialEq, Eq, Structural)]
pub struct Timestamp {
    pub secs: i64,
    pub nanos: u32,
}

/// Seconds in a day.
pub const SECONDS_PER_DAY: i64 = 86_400;

/// The RFC 3339 text of a point in time, where the calendar can hold it.
pub uninterp spec fn rfc3339_text(secs: i64, nanos: u32) -> Option<Seq<char>>;

/// The number that the calendar gives the day on which 1970 begins.
pub const EPOCH_DAY: i64 = 719_163;

/// The seconds that the calendar can give for a point in time. It counts
/// days in a signed number of 32 bits and the seconds into the day in an
/// unsigned one, and gives the days since 1970 in seconds plus the seconds
/// into the day.
pub open spec fn in_calendar(secs: i64) -> bool {
    (i32::MIN - EPOCH_DAY) * SECONDS_PER_DAY <= secs <= (i32::MAX - EPOCH_DAY) * SECONDS_PER_DAY
        + u32::MAX
}

/// `chrono::Utc::now`, read through `timestamp` and
/// `timestamp_subsec_nanos`. The value depends on the clock. What holds of
/// every outcome: it is a time of the calendar, so `from_timestamp` makes
/// the same time of it again and it has an RFC 3339 text; and `timestamp`
/// computes its seconds from a day number of 32 bits and seconds into the
/// day of 32 bits, so they lie in the range that these allow.
#[verifier::external_body]
fn utc_now() -> (now: Timestamp)
    ensures
        rfc3339_text(now.secs, now.nanos) is Some,
        in_calendar(now.secs),
{
    let now = chrono::Utc::now();
    Timestamp { secs: now.timestamp(), nanos: now.timestamp_subsec_nanos() }
}

/// `chrono::DateTime::to_rfc3339` on the time that
/// `chrono::DateTime::from_timestamp` makes of the two numbers; `None`
/// where it makes none. The text is a function of the two numbers alone.
#[verifier::external_body]
fn format_rfc3339(secs: i64, nanos: u32) -> (text: Option<String>)
    ensures
        opt_text(text) == rfc3339_text(secs, nanos),
{
    match chrono::DateTime::from_timestamp(secs, nanos) {
        Some(time) => Some(time.to_rfc3339()),
        None => None,
    }
}

impl Timestamp {
    /// What holds of every time that the clock gives: the calendar can hold
    /// it, so it has an RFC 3339 text and its seconds are in the calendar's
    /// range.
    pub open spec fn from_clock(self) -> bool {
        rfc3339_text(self.secs, self.nanos) is Some && in_calendar(self.secs)
    }

    /// The current time.
    pub fn now() -> (now: Self)
        ensures
            now.from_clock(),
    {
        utc_now()
    }

    /// The RFC 3339 text of this time; `None` where the calendar cannot
    /// hold it.
    pub fn to_rfc3339(&self) -> (text: Option<String>)
        ensures
            opt_text(text) == rfc3339_text(self.secs, self.nanos),
    {
        format_rfc3339(self.secs, self.nanos)
    }

    /// The RFC 3339 text of a time that is known to have one.
    pub fn to_text(&self) -> (text: String)
        requires
            rfc3339_text(self.secs, self.nanos) is Some,
        ensures
            Some(text@) == rfc3339_text(self.secs, self.nanos),
    {
        match format_rfc3339(self.secs, self.nanos) {
            Some(text) => text,
            None => String::new(),
        }
    }

    /// The start of the day that this time lies in.
    pub open spec fn day_start(self) -> int {
        self.secs - (self.secs as int) % (SECONDS_PER_DAY as int)
    }

    /// Midnight at the start of the day that this time lies in.
    pub fn start_of_day(&self) -> (start: Self)
        requires
            self.secs >= i64::MIN + SECONDS_PER_DAY,
        ensures
            start.secs == self.day_start(),
            start.nanos == 0,
            start.secs <= self.secs < start.secs + SECONDS_PER_DAY,
            (start.secs as int) % (SECONDS_PER_DAY as int) == 0,
    {
        let into_day: i64 = if self.secs >= 0 {
            self.secs % SECONDS_PER_DAY
        } else {
            let before: i64 = -(self.secs + 1);
            SECONDS_PER_DAY - 1 - before % SECONDS_PER_DAY
        };
        assert(into_day == (self.secs as int) % (SECONDS_PER_DAY as int)) by {
            if self.secs < 0 {
                let k = -(self.secs + 1) as int;
                let q = k / 86400;
                let m = k % 86400;
                assert(self.secs as int == (-q - 1) * 86400 + (86399 - m)) by (nonlinear_arith)
                    requires
                        k == q * 86400 + m,
                        self.secs as int == -k - 1,
                ;
                vstd::arithmetic::div_mod::lemma_fundamental_div_mod_converse(
                    self.secs as int,
                    86400,
                    -q - 1,
                    86399 - m,
                );
            }
        }
        Timestamp { secs: self.secs - into_day, nanos: 0 }
    }
}

/// The current time as RFC 3339 text.
pub fn now_rfc3339() -> (now: String)
    ensures
        exists|secs: i64, nanos: u32| rfc3339_text(secs, nanos) == Some(now@),
{
    let time = Timestamp::now();
    let now = time.to_text();
    assert(rfc3339_text(time.secs, time.nanos) == Some(now@));
    now
}

} // verus!
