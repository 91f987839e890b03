//! Finding the wallpaper a dynamic theme is drawn from: reading the wallpaper's path out
//! of what the desktop reports or keeps in its configuration files.
//!
//! Asking the desktop, reading the files, checking which paths exist and analysing the
//! image are the application's part; it hands the texts to the readers here.
use vstd::prelude::*;
use crate::models::query::texts;
use crate::text::{find_from, first_at, has_prefix, starts_with, substring, trim, trim_end_char,
    trim_end_matches_char, trim_start_char, trim_start_matches_char, trim_white};

verus! {

/// Extracts dominant colors from the system wallpaper.
#[derive(Debug, Clone, Copy)]
pub struct ColorExtractor;

impl ColorExtractor {
    /// The extractor.
    pub fn new() -> (e: ColorExtractor) {
        ColorExtractor
    }
}

impl Default for ColorExtractor {
    /// The extractor.
    fn default() -> (e: ColorExtractor) {
        ColorExtractor
    }
}

/// The characters after the last line feed of `s` (all of `s` when it has none).
pub open spec fn tail_line(s: Seq<char>) -> Seq<char>
    decreases s.len(),
{
    if s.len() == 0 {
        s
    } else if s.last() == '\n' {
        Seq::empty()
    } else {
        tail_line(s.drop_last()).push(s.last())
    }
}

/// A line without the carriage return that ended it, if one did.
pub open spec fn strip_cr(line: Seq<char>) -> Seq<char> {
    if line.len() > 0 && line.last() == '\r' {
        line.drop_last()
    } else {
        line
    }
}

/// The lines of `s` that a line feed ends, each without its line ending.
pub open spec fn ended_lines(s: Seq<char>) -> Seq<Seq<char>>
    decreases s.len(),
{
    if s.len() == 0 {
        Seq::empty()
    } else if s.last() == '\n' {
        ended_lines(s.drop_last()).push(strip_cr(tail_line(s.drop_last())))
    } else {
        ended_lines(s.drop_last())
    }
}

/// The lines of a text as `str::lines` gives them: split at each line feed, a carriage
/// return just before it dropped, and no empty last line after a final line feed.
pub open spec fn text_lines(s: Seq<char>) -> Seq<Seq<char>> {
    if tail_line(s).len() > 0 {
        ended_lines(s).push(tail_line(s))
    } else {
        ended_lines(s)
    }
}

/// A line without the carriage return that ended it, if one did.
fn without_cr(line: String) -> (r: String)
    ensures
        r@ == strip_cr(line@),
{
    let n = line.as_str().unicode_len();
    if n > 0 && line.as_str().get_char(n - 1) == '\r' {
        substring(line.as_str(), 0, n - 1)
    } else {
        line
    }
}

/// The lines of a text, as `str::lines` gives them.
pub fn split_lines(s: &str) -> (r: Vec<String>)
    ensures
        texts(r@) == text_lines(s@),
{
    let n = s.unicode_len();
    let mut r: Vec<String> = Vec::new();
    let mut start: usize = 0;
    let mut i: usize = 0;
    while i < n
        invariant
            n == s@.len(),
            start <= i <= n,
            tail_line(s@.take(i as int)) == s@.subrange(start as int, i as int),
            texts(r@) == ended_lines(s@.take(i as int)),
        decreases n - i,
    {
        let c = s.get_char(i);
        proof {
            assert(s@.take(i + 1).drop_last() =~= s@.take(i as int));
            assert(s@.take(i + 1).last() == c);
        }
        if c == '\n' {
            let line = without_cr(substring(s, start, i));
            let ghost before = r@;
            r.push(line);
            proof {
                assert(texts(r@) =~= texts(before).push(line@));
            }
            start = i + 1;
            proof {
                assert(s@.subrange(start as int, i + 1) =~= Seq::<char>::empty());
            }
        } else {
            proof {
                assert(s@.subrange(start as int, i + 1) =~= s@.subrange(start as int, i as int).push(c));
            }
        }
        i = i + 1;
    }
    proof {
        assert(s@.take(n as int) =~= s@);
    }
    if start < n {
        let last = substring(s, start, n);
        let ghost before = r@;
        r.push(last);
        proof {
            assert(texts(r@) =~= texts(before).push(last@));
        }
    }
    r
}

/// `s` without the character `c` at either end.
pub open spec fn trim_both(s: Seq<char>, c: char) -> Seq<char> {
    trim_end_char(trim_start_char(s, c), c)
}

/// The path in what GNOME reports as the background's picture URI: the report without
/// surrounding white space, single quotes and double quotes, when it is a `file://` URI.
pub open spec fn gnome_path(report: Seq<char>) -> Option<Seq<char>> {
    let uri = trim_both(trim_both(trim_white(report), '\''), '"');
    if has_prefix(uri, "file://"@) {
        Some(uri.skip(7))
    } else {
        None
    }
}

/// The wallpaper path in what GNOME reports as the background's picture URI (the output
/// of `gsettings get org.gnome.desktop.background picture-uri`), if it names a file.
pub fn gnome_wallpaper_path(report: &str) -> (r: Option<String>)
    ensures
        match gnome_path(report@) {
            Some(p) => r matches Some(x) && x@ == p,
            None => r is None,
        },
{
    let t = trim(report);
    let t = trim_end_matches_char(trim_start_matches_char(t.as_str(), '\'').as_str(), '\'');
    let t = trim_end_matches_char(trim_start_matches_char(t.as_str(), '"').as_str(), '"');
    proof {
        reveal_strlit("file://");
    }
    if starts_with(t.as_str(), "file://") {
        let n = t.as_str().unicode_len();
        Some(substring(t.as_str(), 7, n))
    } else {
        None
    }
}

/// The key that marks an image in KDE Plasma's desktop configuration.
pub open spec fn image_key() -> Seq<char> {
    "Image="@
}

/// The path a line of KDE Plasma's desktop configuration names: when the line holds
/// `Image=`, the text after its first `Image=` up to the next one (or the end), without
/// surrounding white space, if that is not empty.
pub open spec fn kde_line_path(line: Seq<char>) -> Option<Seq<char>> {
    match first_at(line, image_key(), 0) {
        Some(i) => {
            let start = i + 6;
            let end = match first_at(line, image_key(), start) {
                Some(j) => j,
                None => line.len() as int,
            };
            let path = trim_white(line.subrange(start, end));
            if path.len() > 0 {
                Some(path)
            } else {
                None
            }
        },
        None => None,
    }
}

/// The paths the lines name, in order of the lines.
pub open spec fn kde_paths(lines: Seq<Seq<char>>) -> Seq<Seq<char>>
    decreases lines.len(),
{
    if lines.len() == 0 {
        Seq::empty()
    } else {
        let rest = kde_paths(lines.drop_last());
        match kde_line_path(lines.last()) {
            Some(p) => rest.push(p),
            None => rest,
        }
    }
}

/// The path a line of KDE Plasma's desktop configuration names, if any.
fn kde_path_of_line(line: &str) -> (r: Option<String>)
    ensures
        match kde_line_path(line@) {
            Some(p) => r matches Some(x) && x@ == p,
            None => r is None,
        },
{
    proof {
        reveal_strlit("Image=");
        assert("Image="@.len() == 6);
        assert(image_key() == "Image="@);
    }
    let n = line.unicode_len();
    let key = "Image=";
    proof {
        reveal_strlit("Image=");
        assert(key@.len() == 6);
        assert(key@ == image_key());
    }
    match find_from(line, key, 0) {
        Some(i) => {
            let start = i + 6;
            let end = match find_from(line, key, start) {
                Some(j) => j,
                None => n,
            };
            let piece = substring(line, start, end);
            let path = trim(piece.as_str());

            if path.as_str().unicode_len() > 0 {
                Some(path)
            } else {
                None
            }
        },
        None => None,
    }
}

/// The wallpaper paths named in KDE Plasma's desktop configuration, in the order of their
/// lines; the first that exists is the wallpaper.
pub fn kde_wallpaper_candidates(config: &str) -> (r: Vec<String>)
    ensures
        texts(r@) == kde_paths(text_lines(config@)),
{
    let lines = split_lines(config);
    let ghost ls = texts(lines@);
    let mut r: Vec<String> = Vec::new();
    let mut i: usize = 0;
    while i < lines.len()
        invariant
            ls == texts(lines@),
            ls == text_lines(config@),
            i <= lines@.len(),
            texts(r@) == kde_paths(ls.take(i as int)),
        decreases lines@.len() - i,
    {
        proof {
            assert(ls.take(i + 1).drop_last() =~= ls.take(i as int));
            assert(ls.take(i + 1).last() == lines@[i as int]@);
        }
        match kde_path_of_line(lines[i].as_str()) {
            Some(p) => {
                let ghost before = r@;
                r.push(p);
                proof {
                    assert(texts(r@) =~= texts(before).push(p@));
                }
            },
            None => {},
        }
        i = i + 1;
    }
    proof {
        assert(ls.take(lines@.len() as int) =~= ls);
    }
    r
}

/// The wallpaper path that nitrogen's saved background configuration names: the rest of
/// its first line that begins with `file=`.
pub open spec fn nitrogen_path(lines: Seq<Seq<char>>) -> Option<Seq<char>>
    decreases lines.len(),
{
    if lines.len() == 0 {
        None
    } else {
        match nitrogen_path(lines.drop_last()) {
            Some(p) => Some(p),
            None => if has_prefix(lines.last(), "file="@) {
                Some(lines.last().skip(5))
            } else {
                None
            },
        }
    }
}

/// The wallpaper path named in nitrogen's saved background configuration, if any.
pub fn nitrogen_wallpaper_path(config: &str) -> (r: Option<String>)
    ensures
        match nitrogen_path(text_lines(config@)) {
            Some(p) => r matches Some(x) && x@ == p,
            None => r is None,
        },
{
    proof {
        reveal_strlit("file=");
        assert("file="@.len() == 5);
    }
    let lines = split_lines(config);
    let ghost ls = texts(lines@);
    let mut i: usize = 0;
    while i < lines.len()
        invariant
            ls == texts(lines@),
            ls == text_lines(config@),
            i <= lines@.len(),
            nitrogen_path(ls.take(i as int)) is None,
        decreases lines@.len() - i,
    {
        proof {
            assert(ls.take(i + 1).drop_last() =~= ls.take(i as int));
            assert(ls.take(i + 1).last() == lines@[i as int]@);
        }
        let prefix = "file=";
        proof {
            reveal_strlit("file=");
            assert(prefix@.len() == 5);
        }
        if starts_with(lines[i].as_str(), prefix) {
            let n = lines[i].as_str().unicode_len();
            let p = substring(lines[i].as_str(), 5, n);
            proof {
                lemma_nitrogen_prefix(ls, i as int + 1);
            }
            return Some(p);
        }
        i = i + 1;
    }
    proof {
        assert(ls.take(lines@.len() as int) =~= ls);
    }
    None
}

proof fn lemma_nitrogen_prefix(ls: Seq<Seq<char>>, k: int)
    requires
        0 < k <= ls.len(),
        nitrogen_path(ls.take(k)) is Some,
    ensures
        nitrogen_path(ls) == nitrogen_path(ls.take(k)),
    decreases ls.len() - k,
{
    if k < ls.len() {
        assert(ls.take(k + 1).drop_last() =~= ls.take(k));
        lemma_nitrogen_prefix(ls, k + 1);
    } else {
        assert(ls.take(k) =~= ls);
    }
}

} // verus!
