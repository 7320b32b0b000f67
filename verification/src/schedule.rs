//! Time math for the periodic job scheduler: the next mark at a fixed
//! offset into the hour or the minute, and the delay until it.
//!
//! The sleep-until-mark loop itself is plumbing around these functions;
//! they pin down exactly when a task fires next.

use vstd::prelude::*;

verus! {

pub const MILLIS_PER_SECOND: i64 = 1_000;

pub const MILLIS_PER_MINUTE: i64 = 60_000;

pub const MILLIS_PER_HOUR: i64 = 3_600_000;

/// The earliest instant strictly after `now` that lies `offset`
/// milliseconds past a boundary of `period`.
pub open spec fn spec_next_mark(now: int, period: int, offset: int) -> int {
    let candidate = now - (now % period) + offset;
    if candidate > now {
        candidate
    } else {
        candidate + period
    }
}

/// The next instant after `now` that lands on the given minute and second
/// offset into an hour: for example, offsets 15 and 30 name XX:15:30,
/// this hour if that is still ahead, else the next.
pub fn next_scheduled_hour_mark(now: i64, minute_offset: u32, second_offset: u32) -> (r: i64)
    requires
        0 <= now,
        minute_offset < 60,
        second_offset < 60,
        now + 2 * MILLIS_PER_HOUR <= i64::MAX,
    ensures
        r == spec_next_mark(
            now as int,
            MILLIS_PER_HOUR as int,
            minute_offset * MILLIS_PER_MINUTE + second_offset * MILLIS_PER_SECOND,
        ),
        now < r <= now + MILLIS_PER_HOUR,
        r % MILLIS_PER_HOUR == minute_offset * MILLIS_PER_MINUTE + second_offset
            * MILLIS_PER_SECOND,
{
    let offset: i64 = (minute_offset as i64) * MILLIS_PER_MINUTE + (second_offset as i64)
        * MILLIS_PER_SECOND;
    let truncated_to_hour = now - (now % MILLIS_PER_HOUR);
    let candidate = truncated_to_hour + offset;
    if candidate > now {
        candidate
    } else {
        candidate + MILLIS_PER_HOUR
    }
}

/// How long until the next hourly mark, together with the mark itself.
/// The delay is positive: the mark lies strictly ahead of `now`.
pub fn next_scheduled_hourly_delay(now: i64, minute_offset: u32, second_offset: u32) -> (r: (
    i64,
    i64,
))
    requires
        0 <= now,
        minute_offset < 60,
        second_offset < 60,
        now + 2 * MILLIS_PER_HOUR <= i64::MAX,
    ensures
        r.1 == spec_next_mark(
            now as int,
            MILLIS_PER_HOUR as int,
            minute_offset * MILLIS_PER_MINUTE + second_offset * MILLIS_PER_SECOND,
        ),
        r.0 == r.1 - now,
        0 < r.0 <= MILLIS_PER_HOUR,
{
    let mark = next_scheduled_hour_mark(now, minute_offset, second_offset);
    (mark - now, mark)
}

/// The next instant after `now` that lands on the given second and
/// millisecond offset into a minute: for example, offsets 30 and 500 name
/// XX:YY:30.500, this minute if that is still ahead, else the next.
pub fn next_scheduled_mark(now: i64, second_offset: u32, millisecond_offset: u32) -> (r: i64)
    requires
        0 <= now,
        second_offset < 60,
        millisecond_offset < 1000,
        now + 2 * MILLIS_PER_MINUTE <= i64::MAX,
    ensures
        r == spec_next_mark(
            now as int,
            MILLIS_PER_MINUTE as int,
            second_offset * MILLIS_PER_SECOND + millisecond_offset,
        ),
        now < r <= now + MILLIS_PER_MINUTE,
        r % MILLIS_PER_MINUTE == second_offset * MILLIS_PER_SECOND + millisecond_offset,
{
    let offset: i64 = (second_offset as i64) * MILLIS_PER_SECOND + (millisecond_offset as i64);
    let truncated_to_minute = now - (now % MILLIS_PER_MINUTE);
    let candidate = truncated_to_minute + offset;
    if candidate > now {
        candidate
    } else {
        candidate + MILLIS_PER_MINUTE
    }
}

/// How long until the next minutely mark, together with the mark itself.
/// The delay is positive: the mark lies strictly ahead of `now`.
pub fn next_scheduled_delay(now: i64, second_offset: u32, millisecond_offset: u32) -> (r: (
    i64,
    i64,
))
    requires
        0 <= now,
        second_offset < 60,
        millisecond_offset < 1000,
        now + 2 * MILLIS_PER_MINUTE <= i64::MAX,
    ensures
        r.1 == spec_next_mark(
            now as int,
            MILLIS_PER_MINUTE as int,
            second_offset * MILLIS_PER_SECOND + millisecond_offset,
        ),
        r.0 == r.1 - now,
        0 < r.0 <= MILLIS_PER_MINUTE,
{
    let mark = next_scheduled_mark(now, second_offset, millisecond_offset);
    (mark - now, mark)
}

} // verus!
