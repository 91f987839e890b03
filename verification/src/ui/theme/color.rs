//! Colours written as hexadecimal text (`#RRGGBB`): reading the three 8-bit channels out of
//! such a text and writing them back. (The colour type itself holds its channels as
//! floating-point fractions and is kept by the application, which divides by and
//! multiplies with 255.)
use vstd::prelude::*;
use crate::text::{trim_start_char, trim_start_matches_char};

verus! {

/// The error of a text that is no hexadecimal colour.
#[derive(Debug, Clone, Copy, PartialEq, Eq, Structural)]
pub enum ColorError {
    InvalidHexFormat,
}

impl ColorError {
    /// The text of the error.
    pub open spec fn text(self) -> Seq<char> {
        "Invalid hex color format"@
    }

    /// The text of the error.
    pub fn to_string(&self) -> (s: String)
        ensures
            s@ == self.text(),
    {
        String::from_str("Invalid hex color format")
    }
}

/// The number of bytes of a character in UTF-8.
pub open spec fn char_width(c: char) -> nat {
    if (c as u32) < 0x80 {
        1
    } else if (c as u32) < 0x800 {
        2
    } else if (c as u32) < 0x10000 {
        3
    } else {
        4
    }
}

/// The number of bytes of a text in UTF-8.
pub open spec fn utf8_len(s: Seq<char>) -> nat
    decreases s.len(),
{
    if s.len() == 0 {
        0
    } else {
        utf8_len(s.drop_last()) + char_width(s.last())
    }
}

/// Whether every character of a text is ASCII.
pub open spec fn all_ascii(s: Seq<char>) -> bool {
    forall|i: int| 0 <= i < s.len() ==> (#[trigger] s[i] as u32) < 0x80
}

/// Whether byte offset `b` of a text falls between two characters.
pub open spec fn byte_boundary(s: Seq<char>, b: nat) -> bool {
    exists|k: int| 0 <= k <= s.len() && #[trigger] utf8_len(s.take(k)) == b
}

/// The value of a hexadecimal digit, if the character is one.
pub open spec fn hex_digit(c: char) -> Option<nat> {
    if '0' <= c && c <= '9' {
        Some((c as u32 - '0' as u32) as nat)
    } else if 'a' <= c && c <= 'f' {
        Some((c as u32 - 'a' as u32 + 10) as nat)
    } else if 'A' <= c && c <= 'F' {
        Some((c as u32 - 'A' as u32 + 10) as nat)
    } else {
        None
    }
}

/// The byte that two characters spell in base 16 the way `u8::from_str_radix` reads
/// them: two digits, or a plus sign and one digit.
pub open spec fn hex_pair(a: char, b: char) -> Option<u8> {
    match (hex_digit(a), hex_digit(b)) {
        (Some(x), Some(y)) => Some((16 * x + y) as u8),
        (None, Some(y)) => if a == '+' {
            Some(y as u8)
        } else {
            None
        },
        _ => None,
    }
}

/// The channels a colour text gives: after any leading `#`, exactly six bytes that read
/// as three bytes in base 16; `None` for any other text.
pub open spec fn hex_channels(hex: Seq<char>) -> Option<(u8, u8, u8)> {
    let h = trim_start_char(hex, '#');
    if utf8_len(h) == 6 && all_ascii(h) && h.len() == 6 {
        match (hex_pair(h[0], h[1]), hex_pair(h[2], h[3]), hex_pair(h[4], h[5])) {
            (Some(r), Some(g), Some(b)) => Some((r, g, b)),
            _ => None,
        }
    } else {
        None
    }
}

/// Whether reading the channels of a text can go ahead: when its digits (after any `#`)
/// take six bytes and are not all ASCII, the two-byte pieces they are cut into must not
/// split a character.
pub open spec fn hex_readable(hex: Seq<char>) -> bool {
    let h = trim_start_char(hex, '#');
    utf8_len(h) == 6 && !all_ascii(h) ==> byte_boundary(h, 2) && byte_boundary(h, 4)
}

proof fn lemma_ascii_len(s: Seq<char>)
    requires
        all_ascii(s),
    ensures
        utf8_len(s) == s.len(),
    decreases s.len(),
{
    if s.len() > 0 {
        assert(all_ascii(s.drop_last())) by {
            assert forall|i: int| 0 <= i < s.drop_last().len() implies (#[trigger] s.drop_last()[i] as u32) < 0x80 by {
                assert(s.drop_last()[i] == s[i]);
            }
        }
        lemma_ascii_len(s.drop_last());
        assert((s[s.len() - 1] as u32) < 0x80);
    }
}

/// The value of a hexadecimal digit, if the character is one.
fn hex_digit_value(c: char) -> (r: Option<u8>)
    ensures
        match hex_digit(c) {
            Some(v) => r == Some(v as u8),
            None => r is None,
        },
{
    if '0' <= c && c <= '9' {
        Some((c as u32 - '0' as u32) as u8)
    } else if 'a' <= c && c <= 'f' {
        Some((c as u32 - 'a' as u32 + 10) as u8)
    } else if 'A' <= c && c <= 'F' {
        Some((c as u32 - 'A' as u32 + 10) as u8)
    } else {
        None
    }
}

/// The byte two characters spell in base 16.
fn read_pair(a: char, b: char) -> (r: Option<u8>)
    ensures
        r == hex_pair(a, b),
{
    match (hex_digit_value(a), hex_digit_value(b)) {
        (Some(x), Some(y)) => Some(16 * x + y),
        (None, Some(y)) => if a == '+' {
            Some(y)
        } else {
            None
        },
        _ => None,
    }
}

/// The three 8-bit channels of a colour text such as `#FF0000` or `ff0000` (the reading
/// of `Color::from_hex` before it scales each channel to a fraction).
pub fn hex_to_rgb8(hex: &str) -> (r: Result<(u8, u8, u8), ColorError>)
    requires
        hex_readable(hex@),
    ensures
        match hex_channels(hex@) {
            Some(c) => r == Ok::<(u8, u8, u8), ColorError>(c),
            None => r == Err::<(u8, u8, u8), ColorError>(ColorError::InvalidHexFormat),
        },
{
    let h = trim_start_matches_char(hex, '#');
    let n = h.unicode_len();
    let mut width: usize = 0;
    let mut ascii = true;
    let mut i: usize = 0;
    while i < n
        invariant
            n == h@.len(),
            i <= n,
            width <= 7,
            width < 7 ==> width == utf8_len(h@.take(i as int)),
            width == 7 ==> utf8_len(h@.take(i as int)) > 6,
            ascii == all_ascii(h@.take(i as int)),
        decreases n - i,
    {
        let c = h.get_char(i);
        let w: usize = if (c as u32) < 0x80 {
            1
        } else if (c as u32) < 0x800 {
            2
        } else if (c as u32) < 0x10000 {
            3
        } else {
            4
        };
        proof {
            assert(h@.take(i + 1).drop_last() =~= h@.take(i as int));
            assert(h@.take(i + 1).last() == c);
            assert(w == char_width(c));
            assert(all_ascii(h@.take(i + 1)) == (all_ascii(h@.take(i as int)) && (c as u32) < 0x80)) by {
                if all_ascii(h@.take(i as int)) && (c as u32) < 0x80 {
                    assert forall|j: int| 0 <= j < h@.take(i + 1).len() implies (#[trigger] h@.take(i + 1)[j] as u32)
                        < 0x80 by {
                        if j < i {
                            assert(h@.take(i + 1)[j] == h@.take(i as int)[j]);
                        }
                    }
                }
                if all_ascii(h@.take(i + 1)) {
                    assert(h@.take(i + 1)[i as int] == c);
                    assert forall|j: int| 0 <= j < h@.take(i as int).len() implies (#[trigger] h@.take(i as int)[j]
                        as u32) < 0x80 by {
                        assert(h@.take(i + 1)[j] == h@.take(i as int)[j]);
                    }
                }
            }
        }
        if width + w > 6 {
            width = 7;
        } else {
            width = width + w;
        }
        ascii = ascii && (c as u32) < 0x80;
        i = i + 1;
    }
    proof {
        assert(h@.take(n as int) =~= h@);
    }
    if width != 6 || !ascii {
        return Err(ColorError::InvalidHexFormat);
    }
    proof {
        lemma_ascii_len(h@);
    }
    let r = read_pair(h.get_char(0), h.get_char(1));
    let g = read_pair(h.get_char(2), h.get_char(3));
    let b = read_pair(h.get_char(4), h.get_char(5));
    match (r, g, b) {
        (Some(r), Some(g), Some(b)) => Ok((r, g, b)),
        _ => Err(ColorError::InvalidHexFormat),
    }
}

/// The uppercase hexadecimal digit of a value below sixteen.
pub open spec fn hex_char(v: nat) -> char {
    if v == 0 { '0' }
    else if v == 1 { '1' }
    else if v == 2 { '2' }
    else if v == 3 { '3' }
    else if v == 4 { '4' }
    else if v == 5 { '5' }
    else if v == 6 { '6' }
    else if v == 7 { '7' }
    else if v == 8 { '8' }
    else if v == 9 { '9' }
    else if v == 10 { 'A' }
    else if v == 11 { 'B' }
    else if v == 12 { 'C' }
    else if v == 13 { 'D' }
    else if v == 14 { 'E' }
    else { 'F' }
}

proof fn lemma_hex_char(v: nat)
    requires
        v < 16,
    ensures
        hex_digit(hex_char(v)) == Some(v),
        (hex_char(v) as u32) < 0x80,
        hex_char(v) != '#',
{
}

/// A byte as two uppercase hexadecimal digits.
pub open spec fn byte_hex(b: u8) -> Seq<char> {
    seq![hex_char(b as nat / 16), hex_char(b as nat % 16)]
}

/// The text of three channels: `#` and each channel as two uppercase hexadecimal digits.
pub open spec fn rgb8_text(r: u8, g: u8, b: u8) -> Seq<char> {
    seq!['#'] + byte_hex(r) + byte_hex(g) + byte_hex(b)
}

/// The uppercase hexadecimal digit of a value below sixteen.
fn hex_digit_char(v: u8) -> (c: char)
    requires
        v < 16,
    ensures
        c == hex_char(v as nat),
{
    let digits: [char; 16] = ['0', '1', '2', '3', '4', '5', '6', '7', '8', '9', 'A', 'B', 'C', 'D', 'E', 'F'];
    let c = digits[v as usize];
    proof {
        assert(v == 0 || v == 1 || v == 2 || v == 3 || v == 4 || v == 5 || v == 6 || v == 7 || v == 8 || v == 9 || v
            == 10 || v == 11 || v == 12 || v == 13 || v == 14 || v == 15);
    }
    c
}

/// Writes the text of three channels, such as `#FF0000` (the writing of `Color::to_hex`
/// once each fraction is scaled to a byte).
pub fn rgb8_to_hex(r: u8, g: u8, b: u8) -> (s: String)
    ensures
        s@ == rgb8_text(r, g, b),
{
    let mut s = String::from_str("#");
    crate::text::push_char(&mut s, hex_digit_char(r / 16));
    crate::text::push_char(&mut s, hex_digit_char(r % 16));
    crate::text::push_char(&mut s, hex_digit_char(g / 16));
    crate::text::push_char(&mut s, hex_digit_char(g % 16));
    crate::text::push_char(&mut s, hex_digit_char(b / 16));
    crate::text::push_char(&mut s, hex_digit_char(b % 16));
    proof {
        reveal_strlit("#");
        assert(s@ =~= rgb8_text(r, g, b));
    }
    s
}

/// Writing three channels and reading them back gives the same channels.
pub proof fn law_hex_round_trip(r: u8, g: u8, b: u8)
    ensures
        hex_readable(rgb8_text(r, g, b)),
        hex_channels(rgb8_text(r, g, b)) == Some((r, g, b)),
{
    let t = rgb8_text(r, g, b);
    let h = t.drop_first();
    let ds = seq![r as nat / 16, r as nat % 16, g as nat / 16, g as nat % 16, b as nat / 16, b as nat % 16];
    assert forall|i: int| 0 <= i < 6 implies #[trigger] h[i] == hex_char(ds[i]) && ds[i] < 16 by {}
    assert forall|i: int| 0 <= i < 6 implies hex_digit(#[trigger] h[i]) == Some(ds[i]) && (h[i] as u32) < 0x80 && h[i]
        != '#' by {
        lemma_hex_char(ds[i]);
    }
    assert(h.len() == 6);
    assert(trim_start_char(h, '#') == h);
    assert(trim_start_char(t, '#') == trim_start_char(h, '#'));
    assert(all_ascii(h));
    lemma_ascii_len(h);
    assert(hex_pair(h[0], h[1]) == Some(r)) by {
        assert(16 * (r as nat / 16) + r as nat % 16 == r);
    }
    assert(hex_pair(h[2], h[3]) == Some(g)) by {
        assert(16 * (g as nat / 16) + g as nat % 16 == g);
    }
    assert(hex_pair(h[4], h[5]) == Some(b)) by {
        assert(16 * (b as nat / 16) + b as nat % 16 == b);
    }
}

} // verus!
