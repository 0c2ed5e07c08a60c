//! Rendering an elapsed time as "N units ago", and the display line the
//! currently-playing widget derives from a resolved track.
//!
//! The derivation is pure and recomputed on every render: it is a function
//! of the clock reading and the track's timestamp alone, independent of any
//! cache freshness.

use crate::song::Song;
use crate::text::{spec_dec, u64_to_string};
use vstd::string::StringExecFns;
use vstd::prelude::*;

verus! {

pub const WEEK_SECS: u64 = 604800;

pub const DAY_SECS: u64 = 86400;

pub const HOUR_SECS: u64 = 3600;

pub const MINUTE_SECS: u64 = 60;

/// The amount shown for an elapsed time of `secs` seconds: the count of the
/// largest unit among week, day, hour and minute that fits at least once,
/// or the seconds themselves.
pub open spec fn spec_delta_amount(secs: int) -> int {
    if secs / (WEEK_SECS as int) > 0 {
        secs / (WEEK_SECS as int)
    } else if secs / (DAY_SECS as int) > 0 {
        secs / (DAY_SECS as int)
    } else if secs / (HOUR_SECS as int) > 0 {
        secs / (HOUR_SECS as int)
    } else if secs / (MINUTE_SECS as int) > 0 {
        secs / (MINUTE_SECS as int)
    } else {
        secs
    }
}

/// The unit name that goes with [`spec_delta_amount`].
pub open spec fn spec_delta_unit(secs: int) -> Seq<char> {
    if secs / (WEEK_SECS as int) > 0 {
        "week"@
    } else if secs / (DAY_SECS as int) > 0 {
        "day"@
    } else if secs / (HOUR_SECS as int) > 0 {
        "hour"@
    } else if secs / (MINUTE_SECS as int) > 0 {
        "minute"@
    } else {
        "second"@
    }
}

/// The rendered elapsed time: the amount, a space, the unit — pluralized
/// exactly when the amount is not one — and " ago".
pub open spec fn spec_format_delta(secs: int) -> Seq<char> {
    spec_dec(spec_delta_amount(secs)) + " "@ + spec_delta_unit(secs) + (if spec_delta_amount(secs)
        == 1 {
        " ago"@
    } else {
        "s ago"@
    })
}

/// Renders an elapsed time in seconds, e.g. "3 hours ago" or "1 week ago".
pub fn format_time_delta(secs: u64) -> (r: String)
    ensures
        r@ == spec_format_delta(secs as int),
{
    let (amount, unit): (u64, &str) = if secs / WEEK_SECS > 0 {
        (secs / WEEK_SECS, "week")
    } else if secs / DAY_SECS > 0 {
        (secs / DAY_SECS, "day")
    } else if secs / HOUR_SECS > 0 {
        (secs / HOUR_SECS, "hour")
    } else if secs / MINUTE_SECS > 0 {
        (secs / MINUTE_SECS, "minute")
    } else {
        (secs, "second")
    };
    let mut out = u64_to_string(amount);
    out.append(" ");
    out.append(unit);
    if amount == 1 {
        out.append(" ago");
    } else {
        out.append("s ago");
    }
    out
}

/// The display line for a resolved track: a playing track reads "now"; a
/// past play reads as the elapsed time since its timestamp, both clock
/// readings in seconds since the Unix epoch.
pub open spec fn spec_song_display_time(song: Song, now: i64) -> Seq<char> {
    match song {
        Song::Now(_) => "now"@,
        Song::Previous(t) => spec_format_delta(
            if now - t.played_at >= 0 {
                now - t.played_at
            } else {
                t.played_at - now
            },
        ),
    }
}

/// Derives the widget's time line from a resolved track.
pub fn song_display_time(song: &Song, now: i64) -> (r: String)
    ensures
        r@ == spec_song_display_time(*song, now),
{
    match song {
        Song::Now(_) => "now".to_owned(),
        Song::Previous(t) => {
            let wide = (now as i128) - (t.played_at as i128);
            let magnitude = if wide >= 0 {
                wide
            } else {
                -wide
            };
            format_time_delta(magnitude as u64)
        },
    }
}

/// Elapsed-time formatting picks the largest non-zero unit among week, day,
/// hour, minute and second, and pluralizes exactly when the amount is not
/// one: an amount of one renders as "1 <unit> ago", any other amount as
/// "<amount> <unit>s ago".
pub proof fn lemma_elapsed_formatting(secs: int)
    requires
        0 <= secs,
    ensures
        WEEK_SECS <= secs ==> spec_delta_amount(secs) == secs / (WEEK_SECS as int)
            && spec_delta_unit(secs) == "week"@,
        DAY_SECS <= secs < WEEK_SECS ==> spec_delta_amount(secs) == secs / (DAY_SECS as int)
            && spec_delta_unit(secs) == "day"@,
        HOUR_SECS <= secs < DAY_SECS ==> spec_delta_amount(secs) == secs / (HOUR_SECS as int)
            && spec_delta_unit(secs) == "hour"@,
        MINUTE_SECS <= secs < HOUR_SECS ==> spec_delta_amount(secs) == secs / (MINUTE_SECS as int)
            && spec_delta_unit(secs) == "minute"@,
        secs < MINUTE_SECS ==> spec_delta_amount(secs) == secs && spec_delta_unit(secs)
            == "second"@,
        spec_delta_amount(secs) == 1 ==> spec_format_delta(secs) == spec_dec(1) + " "@
            + spec_delta_unit(secs) + " ago"@,
        spec_delta_amount(secs) != 1 ==> spec_format_delta(secs) == spec_dec(
            spec_delta_amount(secs),
        ) + " "@ + spec_delta_unit(secs) + "s ago"@,
{
}

} // verus!
