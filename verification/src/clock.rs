//! Instants and durations.
//!
//! An instant is an `i64`: the microseconds since 1970-01-01T00:00:00Z, leap
//! seconds not counted. Durations that the rules name are minutes or seconds.

use vstd::prelude::*;

verus! {

/// Microseconds in one second.
pub const MICROS_PER_SECOND: i64 = 1_000_000;

/// Microseconds in one minute.
pub const MICROS_PER_MINUTE: i64 = 60_000_000;

/// No reading of the system clock lies after this instant (the first
/// microsecond of the year 262143).
pub const MAX_CLOCK_MICROS: i64 = 8_210_266_876_800_000_000;

/// The instant `minutes` minutes after `start`.
pub open spec fn after_minutes(start: int, minutes: int) -> int {
    start + minutes * 60_000_000
}

/// The instant `seconds` seconds after `start`.
pub open spec fn after_seconds(start: int, seconds: int) -> int {
    start + seconds * 1_000_000
}

/// Whether the system clock could have shown `now`.
pub open spec fn clock_reading(now: int) -> bool {
    0 <= now <= 8_210_266_876_800_000_000
}

/// The time that has passed at `now` since `stamp`; nothing where the clock
/// has gone backwards in between.
pub open spec fn elapsed_since(stamp: int, now: int) -> int {
    if now >= stamp {
        now - stamp
    } else {
        0
    }
}

/// Adds whole minutes to an instant.
pub fn add_minutes(start: i64, minutes: u32) -> (end: i64)
    requires
        after_minutes(start as int, minutes as int) <= i64::MAX,
    ensures
        end == after_minutes(start as int, minutes as int),
{
    let span: i64 = (minutes as i64) * MICROS_PER_MINUTE;
    start + span
}

/// Adds whole minutes to an instant, or gives `None` where the sum is no
/// instant that an `i64` holds.
pub fn checked_add_minutes(start: i64, minutes: u32) -> (end: Option<i64>)
    ensures
        end == if after_minutes(start as int, minutes as int) <= i64::MAX {
            Some(after_minutes(start as int, minutes as int) as i64)
        } else {
            None::<i64>
        },
{
    let span: i64 = (minutes as i64) * MICROS_PER_MINUTE;
    if start <= i64::MAX - span {
        Some(start + span)
    } else {
        None
    }
}

/// Whether less than `window_seconds` have passed at `now` since `stamp`.
pub fn within_window(stamp: i64, now: i64, window_seconds: u32) -> (fresh: bool)
    ensures
        fresh == (elapsed_since(stamp as int, now as int) < window_seconds * 1_000_000),
{
    if now < stamp {
        window_seconds > 0
    } else {
        let age: i128 = (now as i128) - (stamp as i128);
        age < (window_seconds as i128) * 1_000_000
    }
}

/// Reads the system clock through `chrono::Utc::now` and gives the instant in
/// microseconds, as `DateTime::timestamp_micros` counts them. Nothing is
/// known of the reading but its range: `Utc::now` yields no instant before
/// the epoch, and none after the last day that a `chrono` date can hold.
#[verifier::external_body]
pub(crate) fn utc_now() -> (now: i64)
    ensures
        clock_reading(now as int),
{
    chrono::Utc::now().timestamp_micros()
}

} // verus!
