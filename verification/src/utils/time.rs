//! Durations shown to the user, and conversions between Jellyfin's ticks and milliseconds.
use vstd::prelude::*;
use crate::ui::theme::wallpaper_monitor::duration_nanos_of;
use crate::text::{decimal, i64_text, signed_decimal, u64_text};

verus! {

/// A span of time as the `chrono` crate represents it.
#[verifier::external_type_specification]
#[verifier::external_body]
pub struct ExTimeDelta(chrono::TimeDelta);

/// How a (possibly negative) number of seconds is shown: seconds under a minute, then
/// minutes and seconds, hours, minutes and seconds, or days and hours, leaving out
/// trailing zero units.
pub open spec fn duration_text(total: int) -> Seq<char> {
    if total < 60 {
        signed_decimal(total) + "s"@
    } else if total < 3600 {
        let minutes = (total / 60) as nat;
        let seconds = (total % 60) as nat;
        if seconds == 0 {
            decimal(minutes) + "m"@
        } else {
            decimal(minutes) + "m "@ + decimal(seconds) + "s"@
        }
    } else if total < 86400 {
        let hours = (total / 3600) as nat;
        let rest = total % 3600;
        let minutes = (rest / 60) as nat;
        let seconds = (rest % 60) as nat;
        if minutes == 0 && seconds == 0 {
            decimal(hours) + "h"@
        } else if seconds == 0 {
            decimal(hours) + "h "@ + decimal(minutes) + "m"@
        } else {
            decimal(hours) + "h "@ + decimal(minutes) + "m "@ + decimal(seconds) + "s"@
        }
    } else {
        let days = (total / 86400) as nat;
        let hours = ((total % 86400) / 3600) as nat;
        if hours == 0 {
            decimal(days) + "d"@
        } else {
            decimal(days) + "d "@ + decimal(hours) + "h"@
        }
    }
}

/// A span of seconds is shown in its two or three largest units, each count being how
/// many whole units of it there are: writing it as `days * 86400 + hours * 3600 +
/// minutes * 60 + seconds` (hours under 24, minutes and seconds under 60), spans under a
/// minute show their seconds, spans under an hour their minutes and seconds, spans under
/// a day their hours, minutes and seconds, and longer ones their days and hours, leaving
/// out units that are zero at the end.
pub proof fn law_duration_text_units(total: int, days: nat, hours: nat, minutes: nat, seconds: nat)
    requires
        hours < 24,
        minutes < 60,
        seconds < 60,
        total == days * 86400 + hours * 3600 + minutes * 60 + seconds,
    ensures
        total < 60 ==> duration_text(total) == decimal(seconds) + "s"@,
        60 <= total < 3600 ==> duration_text(total) == if seconds == 0 {
            decimal(minutes) + "m"@
        } else {
            decimal(minutes) + "m "@ + decimal(seconds) + "s"@
        },
        3600 <= total < 86400 ==> duration_text(total) == if minutes == 0 && seconds == 0 {
            decimal(hours) + "h"@
        } else if seconds == 0 {
            decimal(hours) + "h "@ + decimal(minutes) + "m"@
        } else {
            decimal(hours) + "h "@ + decimal(minutes) + "m "@ + decimal(seconds) + "s"@
        },
        total >= 86400 ==> duration_text(total) == if hours == 0 {
            decimal(days) + "d"@
        } else {
            decimal(days) + "d "@ + decimal(hours) + "h"@
        },
{
    let ms = minutes * 60 + seconds;
    let hms = hours * 3600 + ms;
    assert(ms < 3600 && hms < 86400) by (nonlinear_arith)
        requires
            hours < 24,
            minutes < 60,
            seconds < 60,
            ms == minutes * 60 + seconds,
            hms == hours * 3600 + ms,
    ;
    vstd::arithmetic::div_mod::lemma_fundamental_div_mod_converse(total, 86400, days as int, hms as int);
    vstd::arithmetic::div_mod::lemma_fundamental_div_mod_converse(hms as int, 3600, hours as int, ms as int);
    vstd::arithmetic::div_mod::lemma_fundamental_div_mod_converse(ms as int, 60, minutes as int, seconds as int);
    if total < 86400 {
        assert(days == 0);
        assert(total == hms);
        if total < 3600 {
            assert(hours == 0);
            assert(total == ms);
            if total < 60 {
                assert(minutes == 0);
                reveal(signed_decimal);
            }
        }
    }
}

/// Shows a number of seconds in the largest fitting units.
pub fn format_seconds(total: i64) -> (s: String)
    ensures
        s@ == duration_text(total as int),
{
    if total < 60 {
        let mut s = i64_text(total);
        s.append("s");
        s
    } else if total < 3600 {
        let minutes = (total / 60) as u64;
        let seconds = (total % 60) as u64;
        let mut s = u64_text(minutes);
        if seconds == 0 {
            s.append("m");
        } else {
            s.append("m ");
            s.append(u64_text(seconds).as_str());
            s.append("s");
        }
        s
    } else if total < 86400 {
        let hours = (total / 3600) as u64;
        let rest = total % 3600;
        let minutes = (rest / 60) as u64;
        let seconds = (rest % 60) as u64;
        let mut s = u64_text(hours);
        if minutes == 0 && seconds == 0 {
            s.append("h");
        } else if seconds == 0 {
            s.append("h ");
            s.append(u64_text(minutes).as_str());
            s.append("m");
        } else {
            s.append("h ");
            s.append(u64_text(minutes).as_str());
            s.append("m ");
            s.append(u64_text(seconds).as_str());
            s.append("s");
        }
        s
    } else {
        let days = (total / 86400) as u64;
        let hours = ((total % 86400) / 3600) as u64;
        let mut s = u64_text(days);
        if hours == 0 {
            s.append("d");
        } else {
            s.append("d ");
            s.append(u64_text(hours).as_str());
            s.append("h");
        }
        s
    }
}

/// The whole seconds of a time span, rounded toward zero (what `TimeDelta::num_seconds`
/// returns for it).
pub uninterp spec fn delta_seconds(d: chrono::TimeDelta) -> i64;

/// The whole seconds of a time span, rounded toward zero (`TimeDelta::num_seconds`).
#[verifier::external_body]
fn whole_seconds(duration: &chrono::TimeDelta) -> (s: i64)
    ensures
        s == delta_seconds(*duration),
{
    duration.num_seconds()
}

/// Formats a duration in a human-readable way, such as `1h 1m 1s` or `2d 3h`: its whole
/// seconds, rounded toward zero, shown by `duration_text`.
pub fn format_duration(duration: chrono::TimeDelta) -> (s: String)
    ensures
        s@ == duration_text(delta_seconds(duration) as int),
{
    format_seconds(whole_seconds(&duration))
}

/// Whole seconds of a number of milliseconds, rounded toward zero.
pub open spec fn millis_to_whole_seconds(ms: int) -> int {
    if ms >= 0 { ms / 1000 } else { -((-ms) / 1000) }
}

/// The whole seconds of the time span of `milliseconds` milliseconds, rounded toward zero
/// as the span's own second count is.
#[verifier::external_body]
fn seconds_of_millis(milliseconds: i64) -> (s: i64)
    requires
        milliseconds != i64::MIN,
    ensures
        s == millis_to_whole_seconds(milliseconds as int),
{
    chrono::TimeDelta::milliseconds(milliseconds).num_seconds()
}

/// The signed value of a number of milliseconds, wrapping as a two's-complement cast does.
pub open spec fn signed_millis(ms: u64) -> i64 {
    ms as i64
}

/// Formats a duration given in milliseconds.
pub fn format_duration_ms(milliseconds: u64) -> (s: String)
    requires
        milliseconds != 9223372036854775808u64,
    ensures
        s@ == duration_text(millis_to_whole_seconds(signed_millis(milliseconds) as int)),
{
    let signed = milliseconds as i64;
    proof {
        assert(signed != i64::MIN) by (bit_vector)
            requires
                signed == milliseconds as i64,
                milliseconds != 9223372036854775808u64;
    }
    format_seconds(seconds_of_millis(signed))
}

/// Formats a duration given in ticks (100-nanosecond intervals).
pub fn format_duration_ticks(ticks: u64) -> (s: String)
    ensures
        s@ == duration_text(millis_to_whole_seconds(signed_millis(ticks / 10000) as int)),
{
    format_duration_ms(ticks / 10_000)
}

/// Converts ticks to milliseconds (10,000 ticks per millisecond), rounding down.
pub fn ticks_to_milliseconds(ticks: u64) -> (ms: u64)
    ensures
        ms == ticks / 10000,
{
    ticks / 10_000
}

/// Converts milliseconds to ticks (10,000 ticks per millisecond).
pub fn milliseconds_to_ticks(milliseconds: u64) -> (ticks: u64)
    requires
        milliseconds * 10000 <= u64::MAX,
    ensures
        ticks == milliseconds * 10000,
{
    milliseconds * 10_000
}

/// Milliseconds and ticks convert back: converting milliseconds to ticks and back gives
/// the milliseconds one started with.
pub proof fn law_ticks_round_trip(milliseconds: u64)
    requires
        milliseconds * 10000 <= u64::MAX,
    ensures
        ((milliseconds * 10000) as u64) / 10000 == milliseconds,
{
}


/// The first second that `chrono` can represent in UTC (the start of year -262143), as
/// seconds since the Unix epoch.
pub const MIN_UTC_SECONDS: i64 = -8334601228800;

/// The last second that `chrono` can represent in UTC (the end of year 262142), as
/// seconds since the Unix epoch.
pub const MAX_UTC_SECONDS: i64 = 8210266876799;

/// The largest number of whole seconds a `chrono` time delta can hold either way.
pub const MAX_DELTA_SECONDS: i64 = 9223372036854775;

/// An instant in UTC, as `chrono` represents one: whole seconds since the Unix epoch and
/// the nanoseconds into that second.
#[derive(Debug, Clone, Copy, PartialEq, Eq, Structural)]
pub struct UtcTime {
    pub seconds: i64,
    pub nanos: u32,
}

impl UtcTime {
    /// Whether the instant is one `chrono` can represent and not inside a leap second.
    pub open spec fn valid(self) -> bool {
        MIN_UTC_SECONDS <= self.seconds <= MAX_UTC_SECONDS && self.nanos < 1_000_000_000
    }

    /// Whether this instant comes after `other`.
    pub open spec fn later(self, other: UtcTime) -> bool {
        self.seconds > other.seconds || (self.seconds == other.seconds && self.nanos > other.nanos)
    }

    /// Whether `secs` seconds can be added to this instant: the delta is one `chrono` can
    /// hold and the sum stays in range.
    pub open spec fn can_shift(self, secs: int) -> bool {
        -MAX_DELTA_SECONDS <= secs <= MAX_DELTA_SECONDS && MIN_UTC_SECONDS <= self.seconds + secs
            <= MAX_UTC_SECONDS
    }

    /// This instant moved by `secs` seconds.
    pub open spec fn shifted(self, secs: int) -> UtcTime {
        UtcTime { seconds: (self.seconds + secs) as i64, nanos: self.nanos }
    }

    /// Whether this instant comes after `other`.
    pub fn is_after(&self, other: &UtcTime) -> (b: bool)
        ensures
            b == self.later(*other),
    {
        self.seconds > other.seconds || (self.seconds == other.seconds && self.nanos > other.nanos)
    }

    /// This instant moved by `secs` seconds (`DateTime + TimeDelta::seconds(secs)`).
    pub fn plus_seconds(&self, secs: i64) -> (t: UtcTime)
        requires
            self.valid(),
            self.can_shift(secs as int),
        ensures
            t == self.shifted(secs as int),
            t.valid(),
    {
        UtcTime { seconds: self.seconds + secs, nanos: self.nanos }
    }
}

/// The instant that a clock reading names, given whether it lies at or after the Unix
/// epoch and how many nanoseconds away from it, held to the range `chrono` can represent.
pub open spec fn instant_of_offset(after: bool, total: int) -> UtcTime {
    let secs = total / 1_000_000_000;
    let sub = total % 1_000_000_000;
    if after {
        if secs > MAX_UTC_SECONDS {
            UtcTime { seconds: MAX_UTC_SECONDS, nanos: 999_999_999 }
        } else {
            UtcTime { seconds: secs as i64, nanos: sub as u32 }
        }
    } else if sub == 0 {
        if -secs < MIN_UTC_SECONDS {
            UtcTime { seconds: MIN_UTC_SECONDS, nanos: 0 }
        } else {
            UtcTime { seconds: (-secs) as i64, nanos: 0 }
        }
    } else if -secs - 1 < MIN_UTC_SECONDS {
        UtcTime { seconds: MIN_UTC_SECONDS, nanos: 0 }
    } else {
        UtcTime { seconds: (-secs - 1) as i64, nanos: (1_000_000_000 - sub) as u32 }
    }
}

/// The instant of a clock reading given by its distance from the Unix epoch (`Ok` when
/// at or after it, `Err` when before), held to the range `chrono` can represent.
pub fn utc_of_offset(offset: Result<std::time::Duration, std::time::Duration>) -> (t: UtcTime)
    ensures
        t == match offset {
            Ok(d) => instant_of_offset(true, duration_nanos_of(d) as int),
            Err(d) => instant_of_offset(false, duration_nanos_of(d) as int),
        },
        t.valid(),
{
    match offset {
        Ok(d) => {
            let secs = crate::utils::duration_whole_seconds(&d);
            let nanos = crate::utils::duration_subsec_nanos(&d);
            if secs > MAX_UTC_SECONDS as u64 {
                UtcTime { seconds: MAX_UTC_SECONDS, nanos: 999_999_999 }
            } else {
                UtcTime { seconds: secs as i64, nanos }
            }
        },
        Err(d) => {
            let secs = crate::utils::duration_whole_seconds(&d);
            let nanos = crate::utils::duration_subsec_nanos(&d);
            let limit: u64 = 8334601228800;
            if nanos == 0 {
                if secs > limit {
                    UtcTime { seconds: MIN_UTC_SECONDS, nanos: 0 }
                } else {
                    UtcTime { seconds: 0 - (secs as i64), nanos: 0 }
                }
            } else if secs >= limit {
                UtcTime { seconds: MIN_UTC_SECONDS, nanos: 0 }
            } else {
                UtcTime { seconds: 0 - (secs as i64) - 1, nanos: 1_000_000_000 - nanos }
            }
        },
    }
}

/// The current time in UTC, read from the system clock: the instant its reading names
/// (`utc_of_offset`). A reading before 1970 gives the instant before the epoch that it is;
/// a reading beyond what `chrono` can represent is held to its range. Nothing else is
/// stated of the time the clock reads.
pub fn now_utc() -> (t: UtcTime)
    ensures
        t.valid(),
{
    let now = crate::utils::system_time_now();
    utc_of_offset(crate::utils::offset_from_epoch(&now))
}

/// Seconds in a day.
pub const SECONDS_PER_DAY: i64 = 86400;

/// The largest number of whole days a `chrono` time delta can hold either way.
pub const MAX_DELTA_DAYS: i64 = 106751991167;

/// The instant `timestamp` seconds after the Unix epoch, when `chrono` can represent it
/// (as `DateTime::from_timestamp(timestamp, 0)` gives it).
pub fn unix_timestamp_to_utc(timestamp: i64) -> (r: Option<UtcTime>)
    ensures
        r == if MIN_UTC_SECONDS <= timestamp <= MAX_UTC_SECONDS {
            Some(UtcTime { seconds: timestamp, nanos: 0 })
        } else {
            None
        },
        r matches Some(t) ==> t.valid(),
{
    if MIN_UTC_SECONDS <= timestamp && timestamp <= MAX_UTC_SECONDS {
        Some(UtcTime { seconds: timestamp, nanos: 0 })
    } else {
        None
    }
}

/// The whole seconds since the Unix epoch of an instant.
pub fn datetime_to_unix_timestamp(datetime: UtcTime) -> (t: i64)
    ensures
        t == datetime.seconds,
{
    datetime.seconds
}

/// The RFC 3339 text that `chrono` writes for an instant (`DateTime::to_rfc3339`).
pub uninterp spec fn rfc3339_text(seconds: i64, nanos: u32) -> Seq<char>;

/// Writes an instant as RFC 3339 / ISO 8601 text (`DateTime::to_rfc3339`), such as
/// `2015-05-15T00:00:00+00:00`.
#[verifier::external_body]
pub fn format_iso8601(datetime: UtcTime) -> (s: String)
    requires
        datetime.valid(),
    ensures
        s@ == rfc3339_text(datetime.seconds, datetime.nanos),
{
    chrono::DateTime::from_timestamp(datetime.seconds, datetime.nanos).unwrap().to_rfc3339()
}

/// The instant that `chrono` reads from an RFC 3339 text, in UTC, as whole seconds and
/// nanoseconds (`DateTime::parse_from_rfc3339`); `None` when it reads none.
pub uninterp spec fn rfc3339_instant(text: Seq<char>) -> Option<(i64, u32)>;

/// Reads an RFC 3339 / ISO 8601 text as an instant in UTC
/// (`DateTime::parse_from_rfc3339`). An instant read is one `chrono` can represent; its
/// nanoseconds pass a billion only inside a leap second.
#[verifier::external_body]
pub fn parse_iso8601(datetime_str: &str) -> (r: Option<UtcTime>)
    ensures
        match rfc3339_instant(datetime_str@) {
            Some((seconds, nanos)) => r == Some(UtcTime { seconds, nanos }) && MIN_UTC_SECONDS <= seconds
                <= MAX_UTC_SECONDS && nanos < 2_000_000_000,
            None => r is None,
        },
{
    chrono::DateTime::parse_from_rfc3339(datetime_str).ok().map(
        |dt| UtcTime { seconds: dt.timestamp(), nanos: dt.timestamp_subsec_nanos() },
    )
}

/// Whether `datetime` comes after the instant `days` days before `now`.
pub fn is_within_days_at(datetime: UtcTime, days: i64, now: UtcTime) -> (b: bool)
    requires
        now.valid(),
        -MAX_DELTA_DAYS <= days <= MAX_DELTA_DAYS,
        now.can_shift(-(days * SECONDS_PER_DAY)),
    ensures
        b == datetime.later(now.shifted(-(days * SECONDS_PER_DAY))),
{
    assert(-9223372036854775807 <= days * 86400 <= 9223372036854775807) by (nonlinear_arith)
        requires
            -106751991167 <= days <= 106751991167,
    ;
    let threshold = now.plus_seconds(-(days * SECONDS_PER_DAY));
    datetime.is_after(&threshold)
}

/// Whether `t` comes after the instant `secs` seconds and `nanos` nanoseconds from the
/// Unix epoch (an instant that need not be one `chrono` can represent).
pub open spec fn after_instant(t: UtcTime, secs: int, nanos: int) -> bool {
    t.seconds > secs || (t.seconds == secs && t.nanos > nanos)
}

/// Whether `datetime` comes after the instant `days` days before now, by the system
/// clock. Where that instant lies outside the range `chrono` can represent, the answer is
/// still whether `datetime` comes after it.
pub fn is_within_days(datetime: UtcTime, days: i64) -> (b: bool)
    requires
        -MAX_DELTA_DAYS <= days <= MAX_DELTA_DAYS,
    ensures
        exists|now: UtcTime| now.valid() && b == after_instant(datetime, now.seconds - days * SECONDS_PER_DAY, now.nanos as int),
{
    let now = now_utc();
    let threshold: i128 = (now.seconds as i128) - (days as i128) * 86400;
    let seconds: i128 = datetime.seconds as i128;
    let b = seconds > threshold || (seconds == threshold && datetime.nanos > now.nanos);
    assert(now.valid() && b == after_instant(datetime, now.seconds - days * SECONDS_PER_DAY, now.nanos as int));
    b
}

/// How long ago something happened, in words, given the whole seconds since: `Just now`
/// under a minute, then minutes, hours, days (`Yesterday` for one) and weeks; `None` from
/// four weeks on, when the date itself is shown instead.
pub open spec fn relative_text(elapsed: int) -> Option<Seq<char>> {
    let minutes = elapsed / 60;
    if elapsed < 60 {
        Some("Just now"@)
    } else if elapsed < 3600 {
        if minutes == 1 { Some("1 minute ago"@) } else { Some(decimal(minutes as nat) + " minutes ago"@) }
    } else if elapsed < 86400 {
        let hours = elapsed / 3600;
        if hours == 1 { Some("1 hour ago"@) } else { Some(decimal(hours as nat) + " hours ago"@) }
    } else if elapsed < 604800 {
        let days = elapsed / 86400;
        if days == 1 { Some("Yesterday"@) } else { Some(decimal(days as nat) + " days ago"@) }
    } else if elapsed < 2419200 {
        let weeks = elapsed / 604800;
        if weeks == 1 { Some("1 week ago"@) } else { Some(decimal(weeks as nat) + " weeks ago"@) }
    } else {
        None
    }
}

/// How long ago something happened is counted in the largest unit (minute, hour, day,
/// week) that has passed, the count being how many whole units have passed, which is at
/// least one: under a minute is "Just now", and from four weeks on there are no words.
pub proof fn law_relative_text_counts(elapsed: int, n: int)
    ensures
        elapsed < 60 ==> relative_text(elapsed) == Some("Just now"@),
        60 <= elapsed < 3600 && 60 * n <= elapsed < 60 * (n + 1) ==> n >= 1 && relative_text(elapsed) == Some(
            if n == 1 { "1 minute ago"@ } else { decimal(n as nat) + " minutes ago"@ },
        ),
        3600 <= elapsed < 86400 && 3600 * n <= elapsed < 3600 * (n + 1) ==> n >= 1 && relative_text(elapsed) == Some(
            if n == 1 { "1 hour ago"@ } else { decimal(n as nat) + " hours ago"@ },
        ),
        86400 <= elapsed < 604800 && 86400 * n <= elapsed < 86400 * (n + 1) ==> n >= 1 && relative_text(elapsed)
            == Some(if n == 1 { "Yesterday"@ } else { decimal(n as nat) + " days ago"@ }),
        604800 <= elapsed < 2419200 && 604800 * n <= elapsed < 604800 * (n + 1) ==> n >= 1 && relative_text(elapsed)
            == Some(if n == 1 { "1 week ago"@ } else { decimal(n as nat) + " weeks ago"@ }),
        elapsed >= 2419200 ==> relative_text(elapsed) is None,
{
    if 60 <= elapsed && 60 * n <= elapsed < 60 * (n + 1) {
        vstd::arithmetic::div_mod::lemma_fundamental_div_mod_converse(elapsed, 60, n, elapsed - 60 * n);
    }
    if 3600 <= elapsed && 3600 * n <= elapsed < 3600 * (n + 1) {
        vstd::arithmetic::div_mod::lemma_fundamental_div_mod_converse(elapsed, 3600, n, elapsed - 3600 * n);
    }
    if 86400 <= elapsed && 86400 * n <= elapsed < 86400 * (n + 1) {
        vstd::arithmetic::div_mod::lemma_fundamental_div_mod_converse(elapsed, 86400, n, elapsed - 86400 * n);
    }
    if 604800 <= elapsed && 604800 * n <= elapsed < 604800 * (n + 1) {
        vstd::arithmetic::div_mod::lemma_fundamental_div_mod_converse(elapsed, 604800, n, elapsed - 604800 * n);
    }
}

/// How long ago something happened, in words (the choice `format_timestamp` makes before
/// it falls back to the date), given the whole seconds since.
pub fn relative_time(elapsed_seconds: i64) -> (r: Option<String>)
    ensures
        match relative_text(elapsed_seconds as int) {
            Some(t) => r matches Some(s) && s@ == t,
            None => r is None,
        },
{
    if elapsed_seconds < 60 {
        Some(String::from_str("Just now"))
    } else if elapsed_seconds < 3600 {
        let minutes = elapsed_seconds / 60;
        if minutes == 1 {
            Some(String::from_str("1 minute ago"))
        } else {
            let m = u64_text(minutes as u64);
            Some(crate::text::concat(m.as_str(), " minutes ago"))
        }
    } else if elapsed_seconds < 86400 {
        let hours = elapsed_seconds / 3600;
        if hours == 1 {
            Some(String::from_str("1 hour ago"))
        } else {
            let h = u64_text(hours as u64);
            Some(crate::text::concat(h.as_str(), " hours ago"))
        }
    } else if elapsed_seconds < 604800 {
        let days = elapsed_seconds / 86400;
        if days == 1 {
            Some(String::from_str("Yesterday"))
        } else {
            let d = u64_text(days as u64);
            Some(crate::text::concat(d.as_str(), " days ago"))
        }
    } else if elapsed_seconds < 2419200 {
        let weeks = elapsed_seconds / 604800;
        if weeks == 1 {
            Some(String::from_str("1 week ago"))
        } else {
            let w = u64_text(weeks as u64);
            Some(crate::text::concat(w.as_str(), " weeks ago"))
        }
    } else {
        None
    }
}

} // verus!
