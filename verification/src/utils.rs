//! Small helpers: durations and sizes for display, file names, URLs and the clock.
use vstd::prelude::*;
use crate::ui::theme::wallpaper_monitor::duration_nanos_of;
use crate::text::{concat, concat3, decimal, ends_with_char, has_prefix, starts_with, trim_end_char, trim_end_matches_char, u64_text};

pub mod error;
pub mod logging;
pub mod time;

verus! {

/// How a number of seconds is shown: `1h 23m 45s`, `2m 5s` or `7s`.
pub open spec fn hms_text(total: nat) -> Seq<char> {
    let hours = total / 3600;
    let minutes = (total % 3600) / 60;
    let seconds = total % 60;
    if hours > 0 {
        decimal(hours) + "h "@ + decimal(minutes) + "m "@ + decimal(seconds) + "s"@
    } else if minutes > 0 {
        decimal(minutes) + "m "@ + decimal(seconds) + "s"@
    } else {
        decimal(seconds) + "s"@
    }
}

/// A number of seconds shows every second of it: writing it as `hours * 3600 + minutes * 60
/// + seconds` with minutes and seconds under 60, the text shows those three counts,
/// leaving out leading zero units.
pub proof fn law_hms_text_accounts_all_seconds(total: nat, hours: nat, minutes: nat, seconds: nat)
    requires
        minutes < 60,
        seconds < 60,
        hours * 3600 + minutes * 60 + seconds == total,
    ensures
        hours > 0 ==> hms_text(total) == decimal(hours) + "h "@ + decimal(minutes) + "m "@ + decimal(seconds) + "s"@,
        hours == 0 && minutes > 0 ==> hms_text(total) == decimal(minutes) + "m "@ + decimal(seconds) + "s"@,
        hours == 0 && minutes == 0 ==> hms_text(total) == decimal(seconds) + "s"@,
{
    let rest = minutes * 60 + seconds;
    assert(rest < 3600) by (nonlinear_arith)
        requires
            minutes < 60,
            seconds < 60,
            rest == minutes * 60 + seconds,
    ;
    vstd::arithmetic::div_mod::lemma_fundamental_div_mod_converse(total as int, 3600, hours as int, rest as int);
    vstd::arithmetic::div_mod::lemma_fundamental_div_mod_converse(rest as int, 60, minutes as int, seconds as int);
    assert(total % 60 == seconds) by (nonlinear_arith)
        requires
            total == hours * 3600 + minutes * 60 + seconds,
            seconds < 60,
    {
        vstd::arithmetic::div_mod::lemma_fundamental_div_mod_converse(
            total as int,
            60,
            (hours * 60 + minutes) as int,
            seconds as int,
        );
    }
}

/// Shows a number of seconds as hours, minutes and seconds, leaving out leading zero units.
pub fn format_seconds(total: u64) -> (s: String)
    ensures
        s@ == hms_text(total as nat),
{
    let hours = total / 3600;
    let minutes = (total % 3600) / 60;
    let seconds = total % 60;
    if hours > 0 {
        let mut s = u64_text(hours);
        s.append("h ");
        s.append(u64_text(minutes).as_str());
        s.append("m ");
        s.append(u64_text(seconds).as_str());
        s.append("s");
        s
    } else if minutes > 0 {
        let mut s = u64_text(minutes);
        s.append("m ");
        s.append(u64_text(seconds).as_str());
        s.append("s");
        s
    } else {
        let mut s = u64_text(seconds);
        s.append("s");
        s
    }
}

/// The whole seconds of a duration (`Duration::as_secs`): its nanoseconds divided by a
/// billion, rounded down.
#[verifier::external_body]
pub(crate) fn duration_whole_seconds(duration: &std::time::Duration) -> (s: u64)
    ensures
        s == duration_nanos_of(*duration) / 1_000_000_000,
{
    duration.as_secs()
}

/// The nanoseconds past the whole seconds of a duration (`Duration::subsec_nanos`).
#[verifier::external_body]
pub(crate) fn duration_subsec_nanos(duration: &std::time::Duration) -> (n: u32)
    ensures
        n == duration_nanos_of(*duration) % 1_000_000_000,
{
    duration.subsec_nanos()
}

/// Formats a duration as a human-readable string such as `1h 23m 45s`: its whole seconds
/// as hours, minutes and seconds.
pub fn format_duration(duration: std::time::Duration) -> (s: String)
    ensures
        s@ == hms_text((duration_nanos_of(duration) / 1_000_000_000) as nat),
{
    format_seconds(duration_whole_seconds(&duration))
}

#[verifier::external_type_specification]
#[verifier::external_body]
pub struct ExSystemTime(std::time::SystemTime);

/// What the system clock reads (`SystemTime::now`); nothing is stated of it.
#[verifier::external_body]
pub(crate) fn system_time_now() -> std::time::SystemTime {
    std::time::SystemTime::now()
}

/// How far a clock reading lies from the Unix epoch (`SystemTime::duration_since` with
/// `UNIX_EPOCH`): `Ok` with the distance when the reading is at or after the epoch, `Err`
/// with the distance (`SystemTimeError::duration`) when it is before. Nothing is stated of
/// the distance, which is the clock's.
#[verifier::external_body]
pub(crate) fn offset_from_epoch(t: &std::time::SystemTime) -> Result<std::time::Duration, std::time::Duration> {
    t.duration_since(std::time::UNIX_EPOCH).map_err(|e| e.duration())
}

/// The Unix epoch seconds of a clock reading given by its distance from the epoch: the
/// whole seconds when it is at or after the epoch (cast to `i64`), 0 when it is before.
pub fn timestamp_of(offset: Result<std::time::Duration, std::time::Duration>) -> (t: i64)
    ensures
        t == match offset {
            Ok(d) => ((duration_nanos_of(d) / 1_000_000_000) as u64) as i64,
            Err(_) => 0,
        },
{
    match offset {
        Ok(d) => {
            let s = duration_whole_seconds(&d);
            #[verifier::truncate] (s as i64)
        },
        Err(_) => 0,
    }
}

/// The current time as Unix epoch seconds (`timestamp_of` the clock's reading), or 0 when
/// the clock reads before the epoch.
///
/// The value comes from the system clock; nothing is promised of it.
pub fn current_timestamp() -> (t: i64) {
    let now = system_time_now();
    timestamp_of(offset_from_epoch(&now))
}

/// Characters that are not allowed in file names.
pub open spec fn is_forbidden_in_file_name(c: char) -> bool {
    c == '<' || c == '>' || c == ':' || c == '"' || c == '/' || c == '\\' || c == '|' || c == '?' || c == '*'
}

/// `name` with each forbidden character replaced by `_`.
pub open spec fn sanitized(name: Seq<char>) -> Seq<char> {
    name.map_values(|c: char| if is_forbidden_in_file_name(c) { '_' } else { c })
}

/// Replaces each character that is not allowed in file names by `_`.
pub fn sanitize_filename(filename: &str) -> (s: String)
    ensures
        s@ == sanitized(filename@),
{
    let n = filename.unicode_len();
    let mut s = String::new();
    let mut i: usize = 0;
    while i < n
        invariant
            n == filename@.len(),
            i <= n,
            s@ == sanitized(filename@.take(i as int)),
        decreases n - i,
    {
        let c = filename.get_char(i);
        let out = if c == '<' || c == '>' || c == ':' || c == '"' || c == '/' || c == '\\' || c == '|'
            || c == '?' || c == '*' {
            '_'
        } else {
            c
        };
        crate::text::push_char(&mut s, out);
        proof {
            assert(filename@.take(i + 1) =~= filename@.take(i as int).push(c));
            assert(sanitized(filename@.take(i + 1)) =~= sanitized(filename@.take(i as int)).push(out));
        }
        i = i + 1;
    }
    proof {
        assert(filename@.take(n as int) =~= filename@);
    }
    s
}

/// Which unit a file size is shown in: `B`, `KB`, `MB`, `GB` or `TB` (0 to 4), the
/// largest whose size of 1024 to the power of its number is at most `bytes`.
pub open spec fn file_size_unit_of(bytes: nat) -> nat {
    if bytes < 0x400 {
        0
    } else if bytes < 0x10_0000 {
        1
    } else if bytes < 0x4000_0000 {
        2
    } else if bytes < 0x100_0000_0000 {
        3
    } else {
        4
    }
}

/// The unit chosen for a file size is the largest of the five whose size (1024 to the power
/// of its number) the file reaches: the file holds at least one whole unit, and under 1024
/// of them unless the unit is the largest, TB.
pub proof fn law_file_size_unit_fits(bytes: nat)
    ensures
        file_size_unit_of(bytes) <= 4,
        file_size_unit_of(bytes) == 1 ==> 0x400 <= bytes < 0x400 * 0x400,
        file_size_unit_of(bytes) == 2 ==> 0x400 * 0x400 <= bytes < 0x400 * 0x400 * 0x400,
        file_size_unit_of(bytes) == 3 ==> 0x400 * 0x400 * 0x400 <= bytes < 0x400 * 0x400 * 0x400 * 0x400,
        file_size_unit_of(bytes) == 4 ==> 0x400 * 0x400 * 0x400 * 0x400 <= bytes,
        file_size_unit_of(bytes) == 0 ==> bytes < 0x400,
{
}

/// The unit a file size is shown in: the number of times 1024 divides into it, at most 4.
pub fn file_size_unit(bytes: u64) -> (unit: usize)
    ensures
        unit == file_size_unit_of(bytes as nat),
        unit <= 4,
{
    let mut size: u64 = bytes;
    let mut unit: usize = 0;
    while size >= 1024 && unit < 4
        invariant
            unit <= 4,
            unit == 0 ==> size == bytes,
            unit == 1 ==> size == bytes / 0x400 && bytes >= 0x400,
            unit == 2 ==> size == bytes / 0x10_0000 && bytes >= 0x10_0000,
            unit == 3 ==> size == bytes / 0x4000_0000 && bytes >= 0x4000_0000,
            unit == 4 ==> bytes >= 0x100_0000_0000,
        decreases 4 - unit,
    {
        size = size / 1024;
        unit = unit + 1;
    }
    unit
}

/// The name of a file size unit (0 to 4).
pub fn file_size_unit_name(unit: usize) -> (name: &'static str)
    requires
        unit <= 4,
    ensures
        name@ == (if unit == 0 { "B"@ } else if unit == 1 { "KB"@ } else if unit == 2 { "MB"@ } else if unit == 3 { "GB"@ } else { "TB"@ }),
{
    if unit == 0 {
        "B"
    } else if unit == 1 {
        "KB"
    } else if unit == 2 {
        "MB"
    } else if unit == 3 {
        "GB"
    } else {
        "TB"
    }
}

/// Whether a URL starts with `http://` or `https://`.
pub open spec fn is_http_url(url: Seq<char>) -> bool {
    has_prefix(url, "http://"@) || has_prefix(url, "https://"@)
}

/// Whether a URL starts with `http://` or `https://`.
pub fn is_valid_url(url: &str) -> (b: bool)
    ensures
        b == is_http_url(url@),
{
    starts_with(url, "http://") || starts_with(url, "https://")
}

/// A URL without its trailing slashes.
pub fn normalize_url(url: &str) -> (s: String)
    ensures
        s@ == trim_end_char(url@, '/'),
{
    trim_end_matches_char(url, '/')
}

/// `base` followed by the relative path `name`, with one `/` between them unless
/// `base` is empty or already ends with `/` (how a relative component is joined to a
/// path on Unix).
pub open spec fn path_joined(base: Seq<char>, name: Seq<char>) -> Seq<char> {
    if base.len() == 0 {
        name
    } else if base.last() == '/' {
        base + name
    } else {
        base + seq!['/'] + name
    }
}

/// Joins the relative path `name` to `base`.
pub fn join_path(base: &str, name: &str) -> (p: String)
    ensures
        p@ == path_joined(base@, name@),
{
    if base.unicode_len() == 0 {
        String::from_str(name)
    } else if ends_with_char(base, '/') {
        concat(base, name)
    } else {
        proof {
            reveal_strlit("/");
        }
        concat3(base, "/", name)
    }
}

/// Where the application keeps its data on Linux: under `$XDG_DATA_HOME`, else under
/// `$HOME/.local/share`, else under the working directory.
pub open spec fn app_data_dir_path(xdg_data_home: Option<Seq<char>>, home: Option<Seq<char>>) -> Seq<char> {
    match xdg_data_home {
        Some(x) => path_joined(x, "crabfin"@),
        None => match home {
            Some(h) => path_joined(path_joined(path_joined(h, ".local"@), "share"@), "crabfin"@),
            None => path_joined("."@, "crabfin"@),
        },
    }
}

/// Where the application keeps its cache on Linux: under `$XDG_CACHE_HOME`, else under
/// `$HOME/.cache`, else in `cache` under the working directory's `crabfin`.
pub open spec fn app_cache_dir_path(xdg_cache_home: Option<Seq<char>>, home: Option<Seq<char>>) -> Seq<char> {
    match xdg_cache_home {
        Some(x) => path_joined(x, "crabfin"@),
        None => match home {
            Some(h) => path_joined(path_joined(h, ".cache"@), "crabfin"@),
            None => path_joined(path_joined("."@, "crabfin"@), "cache"@),
        },
    }
}

/// The data directory, from the values of `XDG_DATA_HOME` and `HOME` (`None` where unset).
pub fn app_data_dir_from(xdg_data_home: Option<&str>, home: Option<&str>) -> (p: String)
    ensures
        p@ == app_data_dir_path(
            match xdg_data_home { Some(x) => Some(x@), None => None },
            match home { Some(h) => Some(h@), None => None },
        ),
{
    match xdg_data_home {
        Some(x) => join_path(x, "crabfin"),
        None => match home {
            Some(h) => {
                let local = join_path(h, ".local");
                let share = join_path(local.as_str(), "share");
                join_path(share.as_str(), "crabfin")
            },
            None => join_path(".", "crabfin"),
        },
    }
}

/// The cache directory, from the values of `XDG_CACHE_HOME` and `HOME` (`None` where unset).
pub fn app_cache_dir_from(xdg_cache_home: Option<&str>, home: Option<&str>) -> (p: String)
    ensures
        p@ == app_cache_dir_path(
            match xdg_cache_home { Some(x) => Some(x@), None => None },
            match home { Some(h) => Some(h@), None => None },
        ),
{
    match xdg_cache_home {
        Some(x) => join_path(x, "crabfin"),
        None => match home {
            Some(h) => {
                let cache = join_path(h, ".cache");
                join_path(cache.as_str(), "crabfin")
            },
            None => {
                let base = join_path(".", "crabfin");
                join_path(base.as_str(), "cache")
            },
        },
    }
}


/// Normalizing a URL twice is normalizing it once: no trailing slash is left.
pub proof fn law_normalize_url_idempotent(url: Seq<char>)
    ensures
        trim_end_char(trim_end_char(url, '/'), '/') == trim_end_char(url, '/'),
        trim_end_char(url, '/').len() == 0 || trim_end_char(url, '/').last() != '/',
{
    crate::text::lemma_trim_end_result(url, '/');
}

/// A sanitized file name holds none of the characters file systems refuse, and is as
/// long as the name it came from.
pub proof fn law_sanitized_is_safe(name: Seq<char>)
    ensures
        sanitized(name).len() == name.len(),
        forall|i: int| 0 <= i < name.len() ==> !is_forbidden_in_file_name(#[trigger] sanitized(name)[i]),
{
}
} // verus!
