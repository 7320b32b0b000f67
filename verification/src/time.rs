//! Timekeeping: reading the clock, and rendering durations and timestamp
//! differences as human-readable strings.
//!
//! Durations and timestamps are plain milliseconds; the formatters are
//! fully verified down to the exact character sequence they produce.

use vstd::prelude::*;
use vstd::string::StringExecFns;

use crate::text::i64_to_string;
use crate::text::spec_i64_string;
use crate::text::spec_join;
use crate::text::spec_u64_string;
use crate::text::u64_to_string;
use crate::text::JoinedParts;

verus! {

pub const SECONDS_PER_MINUTE: u64 = 60;

pub const SECONDS_PER_HOUR: u64 = 3_600;

pub const SECONDS_PER_DAY: u64 = 86_400;

pub const SECONDS_PER_YEAR: u64 = 31_536_000;

#[verifier::external_type_specification]
#[verifier::external_body]
pub struct ExInstant(std::time::Instant);

/// Relies on std::time::Instant::now: an opaque monotonic timestamp for
/// measuring elapsed time. Nothing is promised of the value.
#[verifier::external_body]
pub fn std_now() -> std::time::Instant {
    std::time::Instant::now()
}

/// Relies on std::time::SystemTime::now and duration_since: the wall
/// clock as milliseconds since the Unix epoch, clamped into the
/// non-negative range of the result type.
#[verifier::external_body]
pub fn now_millis() -> (r: i64)
    ensures
        0 <= r,
{
    match std::time::SystemTime::now().duration_since(std::time::UNIX_EPOCH) {
        Ok(elapsed) => i64::try_from(elapsed.as_millis()).unwrap_or(i64::MAX),
        Err(_) => 0,
    }
}

/// A count with its unit, pluralized: `"3 days"`, `"1 hour"`.
pub open spec fn spec_count_part(n: nat, unit: Seq<char>) -> Seq<char> {
    spec_u64_string(n) + unit + (if n == 1 {
        Seq::<char>::empty()
    } else {
        "s"@
    })
}

/// The part for one unit of a duration, present only when its count is
/// non-zero.
pub open spec fn spec_opt_part(n: nat, unit: Seq<char>) -> Seq<Seq<char>> {
    if n > 0 {
        seq![spec_count_part(n, unit)]
    } else {
        Seq::empty()
    }
}

/// The non-zero parts of a duration, largest unit first: years, days,
/// hours, minutes, seconds, milliseconds.
pub open spec fn spec_duration_parts(total_secs: nat, millis: nat) -> Seq<Seq<char>> {
    let years = total_secs / 31_536_000;
    let after_years = total_secs % 31_536_000;
    let days = after_years / 86_400;
    let after_days = after_years % 86_400;
    let hours = after_days / 3_600;
    let after_hours = after_days % 3_600;
    let minutes = after_hours / 60;
    let seconds = after_hours % 60;
    spec_opt_part(years, " year"@) + spec_opt_part(days, " day"@) + spec_opt_part(hours, " hour"@)
        + spec_opt_part(minutes, " minute"@) + spec_opt_part(seconds, " second"@) + spec_opt_part(
        millis,
        " millisecond"@,
    )
}

/// A duration rendered as its non-zero parts joined by commas, or
/// `"0 milliseconds"` when every part is zero.
pub open spec fn spec_format_duration(total_secs: nat, millis: nat) -> Seq<char> {
    let parts = spec_duration_parts(total_secs, millis);
    if parts.len() == 0 {
        "0 milliseconds"@
    } else {
        spec_join(parts, ", "@)
    }
}

fn count_part(n: u64, unit: &str) -> (r: String)
    ensures
        r@ == spec_count_part(n as nat, unit@),
{
    let mut r = u64_to_string(n);
    r.append(unit);
    if n != 1 {
        proof {
            reveal_strlit("s");
        }
        r.append("s");
    }
    r
}

/// Renders a duration, given as whole seconds plus the sub-second
/// milliseconds, as its non-zero parts joined by commas: for instance
/// `"1 day, 2 hours, 5 seconds"`; `"0 milliseconds"` when everything is
/// zero.
pub fn format_duration(total_secs: u64, subsec_millis: u32) -> (r: String)
    ensures
        r@ == spec_format_duration(total_secs as nat, subsec_millis as nat),
{
    let millis = subsec_millis as u64;

    let years = total_secs / SECONDS_PER_YEAR;
    let after_years = total_secs % SECONDS_PER_YEAR;
    let days = after_years / SECONDS_PER_DAY;
    let after_days = after_years % SECONDS_PER_DAY;
    let hours = after_days / SECONDS_PER_HOUR;
    let after_hours = after_days % SECONDS_PER_HOUR;
    let minutes = after_hours / SECONDS_PER_MINUTE;
    let seconds = after_hours % SECONDS_PER_MINUTE;

    let ghost y = years as nat;
    let ghost d = days as nat;
    let ghost h = hours as nat;
    let ghost mi = minutes as nat;
    let ghost s = seconds as nat;
    let ghost ms = millis as nat;

    let mut parts = JoinedParts::new();
    if years > 0 {
        let part = count_part(years, " year");
        parts.push(part.as_str());
    }
    proof {
        reveal_strlit(" year");
        assert(parts.parts() =~= spec_opt_part(y, " year"@));
    }
    if days > 0 {
        let part = count_part(days, " day");
        parts.push(part.as_str());
    }
    proof {
        reveal_strlit(" day");
        assert(parts.parts() =~= spec_opt_part(y, " year"@) + spec_opt_part(d, " day"@));
    }
    if hours > 0 {
        let part = count_part(hours, " hour");
        parts.push(part.as_str());
    }
    proof {
        reveal_strlit(" hour");
        assert(parts.parts() =~= spec_opt_part(y, " year"@) + spec_opt_part(d, " day"@)
            + spec_opt_part(h, " hour"@));
    }
    if minutes > 0 {
        let part = count_part(minutes, " minute");
        parts.push(part.as_str());
    }
    proof {
        reveal_strlit(" minute");
        assert(parts.parts() =~= spec_opt_part(y, " year"@) + spec_opt_part(d, " day"@)
            + spec_opt_part(h, " hour"@) + spec_opt_part(mi, " minute"@));
    }
    if seconds > 0 {
        let part = count_part(seconds, " second");
        parts.push(part.as_str());
    }
    proof {
        reveal_strlit(" second");
        assert(parts.parts() =~= spec_opt_part(y, " year"@) + spec_opt_part(d, " day"@)
            + spec_opt_part(h, " hour"@) + spec_opt_part(mi, " minute"@) + spec_opt_part(
            s,
            " second"@,
        ));
    }
    if millis > 0 {
        let part = count_part(millis, " millisecond");
        parts.push(part.as_str());
    }
    proof {
        reveal_strlit(" millisecond");
        assert(parts.parts() =~= spec_duration_parts(total_secs as nat, subsec_millis as nat));
    }

    if parts.is_empty() {
        proof {
            reveal_strlit("0 milliseconds");
        }
        "0 milliseconds".to_owned()
    } else {
        parts.into_string()
    }
}

/// One component of a timestamp difference: the magnitude with the
/// difference's sign, as truncating division and remainder would render
/// it. A zero component never carries a sign.
pub open spec fn spec_signed_component(negative: bool, magnitude: nat) -> Seq<char> {
    if negative {
        spec_i64_string(-(magnitude as int))
    } else {
        spec_i64_string(magnitude as int)
    }
}

/// The difference of two timestamps rendered with every unit present:
/// whole days, then the hour, minute, second and millisecond remainders,
/// each negative when the difference runs backwards.
pub open spec fn spec_format_dt_difference(delta_ms: int) -> Seq<char> {
    let negative = delta_ms < 0;
    let m = (if delta_ms < 0 {
        -delta_ms
    } else {
        delta_ms
    }) as nat;
    spec_signed_component(negative, m / 86_400_000) + " days, "@ + spec_signed_component(
        negative,
        (m / 3_600_000) % 24,
    ) + " hours, "@ + spec_signed_component(negative, (m / 60_000) % 60) + " minutes, "@
        + spec_signed_component(negative, (m / 1_000) % 60) + " seconds, "@
        + spec_signed_component(negative, m % 1_000) + " milliseconds"@
}

fn signed_component(negative: bool, magnitude: u64) -> (r: String)
    requires
        magnitude <= i64::MAX,
    ensures
        r@ == spec_signed_component(negative, magnitude as nat),
{
    if negative {
        i64_to_string(-(magnitude as i64))
    } else {
        i64_to_string(magnitude as i64)
    }
}

/// Renders the difference between two timestamps; when the second lies
/// before the first, the components come out negative, as truncating
/// arithmetic gives them.
pub fn format_dt_difference(start_ms: i64, end_ms: i64) -> (r: String)
    ensures
        r@ == spec_format_dt_difference(end_ms - start_ms),
{
    let wide: i128 = (end_ms as i128) - (start_ms as i128);
    let negative = wide < 0;
    let delta: u64 = if negative {
        (-wide) as u64
    } else {
        wide as u64
    };
    proof {
        reveal_strlit(" days, ");
        reveal_strlit(" hours, ");
        reveal_strlit(" minutes, ");
        reveal_strlit(" seconds, ");
        reveal_strlit(" milliseconds");
    }
    let mut r = signed_component(negative, delta / 86_400_000);
    r.append(" days, ");
    r.append(signed_component(negative, (delta / 3_600_000) % 24).as_str());
    r.append(" hours, ");
    r.append(signed_component(negative, (delta / 60_000) % 60).as_str());
    r.append(" minutes, ");
    r.append(signed_component(negative, (delta / 1_000) % 60).as_str());
    r.append(" seconds, ");
    r.append(signed_component(negative, delta % 1_000).as_str());
    r.append(" milliseconds");
    r
}

} // verus!
