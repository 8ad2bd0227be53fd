//! Client-side access to three remote services: block data, currency rates
//! and market tickers.
//!
//! The library holds what is decided on the way from a service to a caller:
//! when to retry a connection and what handle readers see
//! ([`supervisor`]), what a reply to a fetch stands for ([`fetch`]), and how
//! wire messages and domain records map onto each other ([`blockslib`],
//! [`currency`], [`kraken`]). Dialing, awaiting and sleeping are left to
//! whoever drives it.

use crate::instant::{formatted_text, write_formatted, Timestamp};
use vstd::prelude::*;

pub mod blockslib;
pub mod currency;
pub mod fetch;
pub mod instant;
pub mod kraken;
pub mod number;
pub mod supervisor;

verus! {

/// Seconds in a day.
pub const DAY_SECS: i64 = 86_400;

/// The pattern after which a time is written to the minute: date, hour and
/// minute.
pub open spec fn minute_pattern() -> Seq<char> {
    "%Y-%m-%d %H:%M"@
}

/// The text of the instant `unix_time` seconds after the epoch, written to
/// the minute in UTC.
pub open spec fn minute_text(unix_time: int) -> Seq<char> {
    formatted_text(Timestamp { secs: unix_time as i64, nanos: 0 }, minute_pattern())
}

/// Writes a Unix time as date, hour and minute in UTC.
pub fn unix_to_str(unix_time: i32) -> (text: String)
    ensures
        text@ == minute_text(unix_time as int),
{
    let at = Timestamp { secs: unix_time as i64, nanos: 0 };
    write_formatted(at, "%Y-%m-%d %H:%M")
}

/// The first instant of the UTC day that `secs` falls in.
pub open spec fn day_start(secs: int) -> int {
    secs - secs % (DAY_SECS as int)
}

/// Moves an instant back to the midnight that begins its UTC day. Hour,
/// minute and second become zero; the nanosecond part is kept as it is, so
/// an instant within a leap second keeps a nanosecond part of a full second
/// or more. The result can be moved again, and then stays where it is.
pub fn get_midnight(dt: Timestamp) -> (midnight: Timestamp)
    requires
        dt.on_calendar(),
    ensures
        midnight.secs == day_start(dt.secs as int),
        midnight.nanos == dt.nanos,
        (midnight.secs as int) % (DAY_SECS as int) == 0,
        midnight.secs <= dt.secs < midnight.secs + DAY_SECS,
        midnight.on_calendar(),
        midnight.in_range() <==> dt.nanos < 1_000_000_000,
{
    let rem: i64 = dt.secs % DAY_SECS;
    let into_day: i64 = if rem < 0 {
        rem + DAY_SECS
    } else {
        rem
    };
    assert(into_day == (dt.secs as int) % 86_400);
    let secs: i64 = dt.secs - into_day;
    // The earliest second on the calendar begins a day, so no day on it
    // starts before that second; and a day starts on a full minute.
    assert(secs % 86_400 == 0 && secs % 60 == 0 && secs >= crate::instant::MIN_SECS) by {
        let s = dt.secs as int;
        let day = s / 86_400;
        assert(s == 86_400 * day + s % 86_400);
        assert(secs == 86_400 * day);
        assert(crate::instant::MIN_SECS == 86_400 * (-96_465_292));
        assert(day >= -96_465_292);
        assert((86_400 * day) % 86_400 == 0) by (nonlinear_arith);
        assert(86_400 * day == 60 * (1440 * day));
        assert((60 * (1440 * day)) % 60 == 0) by (nonlinear_arith);
    }
    Timestamp { secs, nanos: dt.nanos }
}

/// The start of a day is its own start: moving an instant to midnight twice
/// is moving it once.
pub proof fn lemma_day_start_idempotent(secs: int)
    ensures
        day_start(day_start(secs)) == day_start(secs),
        day_start(secs) <= secs < day_start(secs) + DAY_SECS,
        day_start(secs) % (DAY_SECS as int) == 0,
{
    let day = secs / 86_400;
    assert(secs == 86_400 * day + secs % 86_400);
    assert(day_start(secs) == 86_400 * day);
    assert((86_400 * day) % 86_400 == 0) by (nonlinear_arith);
}

} // verus!
