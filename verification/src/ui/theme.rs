//! Colour themes: three built in, and files that override the colours of
//! the first.
use vstd::prelude::*;

use crate::text::{
    byte_len, byte_offset, char_at_byte, char_index_at, chars_of, copy_range, on_boundary, owned,
    strip_prefix_all, strip_prefix_all_str, to_lowercase, unsigned_digits, utf8_width, char_utf8_width, lowercase,
};

verus! {

/// A colour: red, green and blue, or the terminal's own.
#[derive(Debug, Clone, Copy, PartialEq, Eq, Structural)]
pub enum Color {
    Rgb(u8, u8, u8),
    Reset,
}

/// A theme file: each colour, when present, as `#rrggbb`.
#[derive(Debug, Clone)]
pub struct ThemeFile {
    pub name: Option<String>,
    pub bg: Option<String>,
    pub fg: Option<String>,
    pub accent: Option<String>,
    pub surface: Option<String>,
    pub surface_light: Option<String>,
    pub success: Option<String>,
    pub warning: Option<String>,
    pub error: Option<String>,
    pub info: Option<String>,
    pub latency_low: Option<String>,
    pub latency_mid: Option<String>,
    pub latency_high: Option<String>,
    pub latency_offline: Option<String>,
    pub tab_active: Option<String>,
    pub tab_inactive: Option<String>,
}

/// Colour theme for the terminal client.
#[derive(Debug, Clone)]
pub struct Theme {
    pub name: String,
    pub bg: Color,
    pub fg: Color,
    pub accent: Color,
    pub surface: Color,
    pub surface_light: Color,
    pub success: Color,
    pub warning: Color,
    pub error: Color,
    pub info: Color,
    pub latency_low: Color,
    pub latency_mid: Color,
    pub latency_high: Color,
    pub latency_offline: Color,
    pub tab_active: Color,
    pub tab_inactive: Color,
}

/// The built-in `tokyo-night` theme.
pub open spec fn is_tokyo_night(t: Theme) -> bool {
    &&& t.name@ == "tokyo-night"@
    &&& t.bg == Color::Rgb(0x1a, 0x1b, 0x26)
    &&& t.fg == Color::Rgb(0xc0, 0xca, 0xf5)
    &&& t.accent == Color::Rgb(0x7a, 0xa2, 0xf7)
    &&& t.surface == Color::Rgb(0x24, 0x28, 0x3b)
    &&& t.surface_light == Color::Rgb(0x41, 0x48, 0x68)
    &&& t.success == Color::Rgb(0x9e, 0xce, 0x6a)
    &&& t.warning == Color::Rgb(0xe0, 0xaf, 0x68)
    &&& t.error == Color::Rgb(0xf7, 0x76, 0x8e)
    &&& t.info == Color::Rgb(0x7d, 0xcf, 0xff)
    &&& t.latency_low == Color::Rgb(0x9e, 0xce, 0x6a)
    &&& t.latency_mid == Color::Rgb(0xe0, 0xaf, 0x68)
    &&& t.latency_high == Color::Rgb(0xf7, 0x76, 0x8e)
    &&& t.latency_offline == Color::Rgb(0x56, 0x5f, 0x89)
    &&& t.tab_active == Color::Rgb(0x7a, 0xa2, 0xf7)
    &&& t.tab_inactive == Color::Rgb(0x56, 0x5f, 0x89)
}

/// The built-in `catppuccin` theme.
pub open spec fn is_catppuccin(t: Theme) -> bool {
    &&& t.name@ == "catppuccin"@
    &&& t.bg == Color::Rgb(0x1e, 0x1e, 0x2e)
    &&& t.fg == Color::Rgb(0xcd, 0xd6, 0xf4)
    &&& t.accent == Color::Rgb(0xcb, 0xa6, 0xf7)
    &&& t.surface == Color::Rgb(0x31, 0x32, 0x44)
    &&& t.surface_light == Color::Rgb(0x45, 0x47, 0x5a)
    &&& t.success == Color::Rgb(0xa6, 0xe3, 0xa1)
    &&& t.warning == Color::Rgb(0xf9, 0xe2, 0xaf)
    &&& t.error == Color::Rgb(0xf3, 0x8b, 0xa8)
    &&& t.info == Color::Rgb(0x89, 0xdc, 0xeb)
    &&& t.latency_low == Color::Rgb(0xa6, 0xe3, 0xa1)
    &&& t.latency_mid == Color::Rgb(0xf9, 0xe2, 0xaf)
    &&& t.latency_high == Color::Rgb(0xf3, 0x8b, 0xa8)
    &&& t.latency_offline == Color::Rgb(0x58, 0x5b, 0x70)
    &&& t.tab_active == Color::Rgb(0xcb, 0xa6, 0xf7)
    &&& t.tab_inactive == Color::Rgb(0x58, 0x5b, 0x70)
}

/// The built-in `gruvbox` theme.
pub open spec fn is_gruvbox(t: Theme) -> bool {
    &&& t.name@ == "gruvbox"@
    &&& t.bg == Color::Rgb(0x28, 0x28, 0x28)
    &&& t.fg == Color::Rgb(0xeb, 0xdb, 0xb2)
    &&& t.accent == Color::Rgb(0xfa, 0xbd, 0x2f)
    &&& t.surface == Color::Rgb(0x3c, 0x38, 0x36)
    &&& t.surface_light == Color::Rgb(0x50, 0x49, 0x45)
    &&& t.success == Color::Rgb(0xb8, 0xbb, 0x26)
    &&& t.warning == Color::Rgb(0xfa, 0xbd, 0x2f)
    &&& t.error == Color::Rgb(0xfb, 0x49, 0x34)
    &&& t.info == Color::Rgb(0x83, 0xa5, 0x98)
    &&& t.latency_low == Color::Rgb(0xb8, 0xbb, 0x26)
    &&& t.latency_mid == Color::Rgb(0xfa, 0xbd, 0x2f)
    &&& t.latency_high == Color::Rgb(0xfb, 0x49, 0x34)
    &&& t.latency_offline == Color::Rgb(0x66, 0x5c, 0x54)
    &&& t.tab_active == Color::Rgb(0xfa, 0xbd, 0x2f)
    &&& t.tab_inactive == Color::Rgb(0x66, 0x5c, 0x54)
}

/// The value of a sequence of hexadecimal digits.
pub open spec fn hex_digits_value(s: Seq<char>) -> nat
    decreases s.len(),
{
    if s.len() == 0 {
        0
    } else {
        hex_digits_value(s.drop_last()) * 16 + hex_digit_value(s.last())
    }
}

/// `c` is an ASCII hexadecimal digit.
pub open spec fn is_hex_digit(c: char) -> bool {
    ('0' <= c <= '9') || ('a' <= c <= 'f') || ('A' <= c <= 'F')
}

/// The value of the hexadecimal digit `c`.
pub open spec fn hex_digit_value(c: char) -> nat {
    if '0' <= c <= '9' {
        (c as int - '0' as int) as nat
    } else if 'a' <= c <= 'f' {
        (c as int - 'a' as int + 10) as nat
    } else {
        (c as int - 'A' as int + 10) as nat
    }
}

/// `u8::from_str_radix(s, 16)`: an optional `+`, then one or more
/// hexadecimal digits whose value fits in a `u8`.
pub open spec fn from_hex_u8(s: Seq<char>) -> Option<u8> {
    let d = unsigned_digits(s);
    if d.len() > 0 && all_hex(d) && hex_digits_value(d) <= 255 {
        Some(hex_digits_value(d) as u8)
    } else {
        None
    }
}

/// Every char of `d` is a hexadecimal digit.
pub open spec fn all_hex(d: Seq<char>) -> bool {
    forall|i: int| 0 <= i < d.len() ==> is_hex_digit(#[trigger] d[i])
}

/// A parsed channel, 0 when it does not parse.
pub open spec fn channel(s: Seq<char>) -> u8 {
    match from_hex_u8(s) {
        Some(v) => v,
        None => 0,
    }
}

/// `s` without its leading `#`s.
pub open spec fn hex_body(s: Seq<char>) -> Seq<char> {
    strip_prefix_all(s, seq!['#'])
}

/// The colour `#rrggbb` names: after the leading `#`s, six bytes are three
/// channels of two bytes each (a channel that does not parse is 0); any
/// other length is `Color::Reset`.
pub open spec fn hex_color(s: Seq<char>) -> Color {
    let t = hex_body(s);
    if byte_len(t) == 6 {
        let a = char_index_at(t, 2);
        let b = char_index_at(t, 4);
        Color::Rgb(
            channel(t.subrange(0, a)),
            channel(t.subrange(a, b)),
            channel(t.subrange(b, t.len() as int)),
        )
    } else {
        Color::Reset
    }
}

/// `hex` cuts `s` only between characters: when the body is six bytes long,
/// bytes 2 and 4 start characters (else slicing the string panics).
pub open spec fn hex_safe(s: Seq<char>) -> bool {
    let t = hex_body(s);
    byte_len(t) == 6 ==> on_boundary(t, 2) && on_boundary(t, 4)
}

/// The colour a file entry gives, or `d` when it has none.
pub open spec fn color_or(entry: Option<String>, d: Color) -> Color {
    match entry {
        Some(s) => hex_color(s@),
        None => d,
    }
}

/// The entry is absent or safe to read.
pub open spec fn entry_safe(entry: Option<String>) -> bool {
    match entry {
        Some(s) => hex_safe(s@),
        None => true,
    }
}

impl ThemeFile {
    /// Every colour entry can be read without cutting a character.
    pub open spec fn safe(&self) -> bool {
        &&& entry_safe(self.bg)
        &&& entry_safe(self.fg)
        &&& entry_safe(self.accent)
        &&& entry_safe(self.surface)
        &&& entry_safe(self.surface_light)
        &&& entry_safe(self.success)
        &&& entry_safe(self.warning)
        &&& entry_safe(self.error)
        &&& entry_safe(self.info)
        &&& entry_safe(self.latency_low)
        &&& entry_safe(self.latency_mid)
        &&& entry_safe(self.latency_high)
        &&& entry_safe(self.latency_offline)
        &&& entry_safe(self.tab_active)
        &&& entry_safe(self.tab_inactive)
    }
}

/// The theme a file gives under `name`: its own name if it has one, else
/// `name`; each colour from the file when present, else from `tokyo-night`.
pub open spec fn is_from_file(t: Theme, name: Seq<char>, f: ThemeFile) -> bool {
    &&& t.name@ == (match f.name {
        Some(n) => n@,
        None => name,
    })
    &&& t.bg == color_or(f.bg, Color::Rgb(0x1a, 0x1b, 0x26))
    &&& t.fg == color_or(f.fg, Color::Rgb(0xc0, 0xca, 0xf5))
    &&& t.accent == color_or(f.accent, Color::Rgb(0x7a, 0xa2, 0xf7))
    &&& t.surface == color_or(f.surface, Color::Rgb(0x24, 0x28, 0x3b))
    &&& t.surface_light == color_or(f.surface_light, Color::Rgb(0x41, 0x48, 0x68))
    &&& t.success == color_or(f.success, Color::Rgb(0x9e, 0xce, 0x6a))
    &&& t.warning == color_or(f.warning, Color::Rgb(0xe0, 0xaf, 0x68))
    &&& t.error == color_or(f.error, Color::Rgb(0xf7, 0x76, 0x8e))
    &&& t.info == color_or(f.info, Color::Rgb(0x7d, 0xcf, 0xff))
    &&& t.latency_low == color_or(f.latency_low, Color::Rgb(0x9e, 0xce, 0x6a))
    &&& t.latency_mid == color_or(f.latency_mid, Color::Rgb(0xe0, 0xaf, 0x68))
    &&& t.latency_high == color_or(f.latency_high, Color::Rgb(0xf7, 0x76, 0x8e))
    &&& t.latency_offline == color_or(f.latency_offline, Color::Rgb(0x56, 0x5f, 0x89))
    &&& t.tab_active == color_or(f.tab_active, Color::Rgb(0x7a, 0xa2, 0xf7))
    &&& t.tab_inactive == color_or(f.tab_inactive, Color::Rgb(0x56, 0x5f, 0x89))
}

/// The built-in theme a name selects, compared in lower case:
/// `tokyo-night` or `tokyo_night`, `catppuccin`, `gruvbox`; any other name
/// falls back to `tokyo-night`.
pub open spec fn is_builtin_for(t: Theme, lowered: Seq<char>) -> bool {
    if lowered == "catppuccin"@ {
        is_catppuccin(t)
    } else if lowered == "gruvbox"@ {
        is_gruvbox(t)
    } else {
        is_tokyo_night(t)
    }
}

/// The hexadecimal digit `c`, if it is one.
fn hex_digit(c: char) -> (r: Option<u8>)
    ensures
        r matches Some(v) ==> is_hex_digit(c) && v as nat == hex_digit_value(c),
        r is None ==> !is_hex_digit(c),
{
    if '0' <= c && c <= '9' {
        Some(((c as u32) - ('0' as u32)) as u8)
    } else if 'a' <= c && c <= 'f' {
        Some(((c as u32) - ('a' as u32) + 10) as u8)
    } else if 'A' <= c && c <= 'F' {
        Some(((c as u32) - ('A' as u32) + 10) as u8)
    } else {
        None
    }
}

proof fn lemma_hex_value_mono(s: Seq<char>, k: int)
    requires
        0 <= k <= s.len(),
    ensures
        hex_digits_value(s.subrange(0, k)) <= hex_digits_value(s),
    decreases s.len() - k,
{
    if k < s.len() {
        let t = s.drop_last();
        assert(t.subrange(0, k) =~= s.subrange(0, k));
        lemma_hex_value_mono(t, k);
    } else {
        assert(s.subrange(0, k) =~= s);
    }
}

/// `u8::from_str_radix(s, 16)` (see `from_hex_u8`).
pub fn parse_hex_u8(s: &[char]) -> (r: Option<u8>)
    ensures
        r == from_hex_u8(s@),
{
    let start: usize = if s.len() > 0 && s[0] == '+' {
        1
    } else {
        0
    };
    let ghost d = unsigned_digits(s@);
    assert(d =~= s@.subrange(start as int, s@.len() as int));
    if start >= s.len() {
        return None;
    }
    let mut v: u16 = 0;
    let mut i: usize = start;
    assert(s@.subrange(start as int, start as int) =~= Seq::<char>::empty());
    while i < s.len()
        invariant
            start <= i <= s@.len(),
            d == s@.subrange(start as int, s@.len() as int),
            d == unsigned_digits(s@),
            v as nat == hex_digits_value(s@.subrange(start as int, i as int)),
            v <= 255,
            forall|j: int| start <= j < i ==> is_hex_digit(#[trigger] s@[j]),
        decreases s.len() - i,
    {
        let c = s[i];
        let dv = match hex_digit(c) {
            Some(x) => x,
            None => {
                assert(d[i - start] == c);
                assert(!is_hex_digit(d[i - start]));
                return None;
            },
        };
        let ghost p = s@.subrange(start as int, i as int + 1);
        assert(p.drop_last() =~= s@.subrange(start as int, i as int));
        let nv: u16 = v * 16 + dv as u16;
        assert(p.last() == c);
        assert(hex_digits_value(p) == nv);
        if nv > 255 {
            proof {
                assert(p =~= d.subrange(0, i - start + 1));
                lemma_hex_value_mono(d, i - start + 1);
            }
            return None;
        }
        v = nv;
        i = i + 1;
    }
    assert(s@.subrange(start as int, i as int) =~= d);
    Some(v as u8)
}

/// Whether the UTF-8 form of `s` is exactly `n` bytes long.
fn byte_len_is(s: &[char], n: usize) -> (r: bool)
    requires
        n <= 64,
    ensures
        r == (byte_len(s@) == n),
{
    let mut acc: usize = 0;
    let mut i: usize = 0;
    assert(s@.subrange(0, 0) =~= Seq::<char>::empty());
    while i < s.len()
        invariant
            0 <= i <= s@.len(),
            n <= 64,
            acc as nat == byte_offset(s@, i as int),
            acc <= n,
        decreases s.len() - i,
    {
        let w = char_utf8_width(s[i]);
        proof {
            assert(s@.subrange(0, i as int + 1).drop_last() =~= s@.subrange(0, i as int));
        }
        acc = acc + w;
        if acc > n {
            proof {
                if i + 1 < s@.len() {
                    crate::text::lemma_byte_offset_strict(s@, i as int + 1, s@.len() as int);
                }
                assert(s@.subrange(0, s@.len() as int) =~= s@);
            }
            return false;
        }
        i = i + 1;
    }
    assert(s@.subrange(0, s@.len() as int) =~= s@);
    acc == n
}

/// The cut points of a six-byte body: the char indices where bytes 2 and
/// 4 start.
fn channel_cuts(t: &[char]) -> (r: (usize, usize))
    requires
        byte_len(t@) == 6,
        on_boundary(t@, 2),
        on_boundary(t@, 4),
    ensures
        r.0 == char_index_at(t@, 2),
        r.1 == char_index_at(t@, 4),
        0 <= r.0 <= r.1 <= t@.len(),
{
    let a = char_at_byte(t, 2);
    let b = char_at_byte(t, 4);
    match (a, b) {
        (Some(a), Some(b)) => {
            proof {
                crate::text::lemma_char_index_at(t@, a as int);
                crate::text::lemma_char_index_at(t@, b as int);
                if b < a {
                    crate::text::lemma_byte_offset_strict(t@, b as int, a as int);
                }
            }
            (a, b)
        },
        _ => (0, 0),
    }
}

/// The body of `#rrggbb` text: the chars after the leading `#`s.
fn hex_body_of(s: &str) -> (r: Vec<char>)
    ensures
        r@ == hex_body(s@),
{
    let cs = chars_of(s);
    proof {
        reveal_strlit("#");
        assert("#"@ =~= seq!['#']);
    }
    strip_prefix_all_str(cs.as_slice(), "#")
}

/// Reads `#rrggbb` (see `hex_color`).
pub fn hex(s: &str) -> (r: Color)
    requires
        hex_safe(s@),
    ensures
        r == hex_color(s@),
{
    let t = hex_body_of(s);
    if !byte_len_is(t.as_slice(), 6) {
        return Color::Reset;
    }
    let (a, b) = channel_cuts(t.as_slice());
    let red = copy_range(t.as_slice(), 0, a);
    let green = copy_range(t.as_slice(), a, b);
    let blue = copy_range(t.as_slice(), b, t.len());
    Color::Rgb(
        parse_hex_u8(red.as_slice()).unwrap_or(0),
        parse_hex_u8(green.as_slice()).unwrap_or(0),
        parse_hex_u8(blue.as_slice()).unwrap_or(0),
    )
}

/// Whether `hex` may read `s` (see `hex_safe`).
pub fn hex_is_safe(s: &str) -> (r: bool)
    ensures
        r == hex_safe(s@),
{
    let t = hex_body_of(s);
    if !byte_len_is(t.as_slice(), 6) {
        return true;
    }
    char_at_byte(t.as_slice(), 2).is_some() && char_at_byte(t.as_slice(), 4).is_some()
}

/// The colour of a file entry, or `d` when it has none.
fn entry_color(entry: Option<String>, d: Color) -> (r: Color)
    requires
        entry_safe(entry),
    ensures
        r == color_or(entry, d),
{
    match entry {
        Some(s) => hex(s.as_str()),
        None => d,
    }
}

/// Whether a file entry is absent or safe to read.
fn entry_is_safe(entry: &Option<String>) -> (r: bool)
    ensures
        r == entry_safe(*entry),
{
    match entry {
        Some(s) => hex_is_safe(s.as_str()),
        None => true,
    }
}

impl Theme {
    /// The `tokyo-night` theme.
    pub fn tokyo_night() -> (r: Self)
        ensures
            is_tokyo_night(r),
    {
        proof {
            reveal_strlit("tokyo-night");
        }
        Theme {
            name: owned("tokyo-night"),
            bg: Color::Rgb(0x1a, 0x1b, 0x26),
            fg: Color::Rgb(0xc0, 0xca, 0xf5),
            accent: Color::Rgb(0x7a, 0xa2, 0xf7),
            surface: Color::Rgb(0x24, 0x28, 0x3b),
            surface_light: Color::Rgb(0x41, 0x48, 0x68),
            success: Color::Rgb(0x9e, 0xce, 0x6a),
            warning: Color::Rgb(0xe0, 0xaf, 0x68),
            error: Color::Rgb(0xf7, 0x76, 0x8e),
            info: Color::Rgb(0x7d, 0xcf, 0xff),
            latency_low: Color::Rgb(0x9e, 0xce, 0x6a),
            latency_mid: Color::Rgb(0xe0, 0xaf, 0x68),
            latency_high: Color::Rgb(0xf7, 0x76, 0x8e),
            latency_offline: Color::Rgb(0x56, 0x5f, 0x89),
            tab_active: Color::Rgb(0x7a, 0xa2, 0xf7),
            tab_inactive: Color::Rgb(0x56, 0x5f, 0x89),
        }
    }

    /// The `catppuccin` theme.
    pub fn catppuccin() -> (r: Self)
        ensures
            is_catppuccin(r),
    {
        proof {
            reveal_strlit("catppuccin");
        }
        Theme {
            name: owned("catppuccin"),
            bg: Color::Rgb(0x1e, 0x1e, 0x2e),
            fg: Color::Rgb(0xcd, 0xd6, 0xf4),
            accent: Color::Rgb(0xcb, 0xa6, 0xf7),
            surface: Color::Rgb(0x31, 0x32, 0x44),
            surface_light: Color::Rgb(0x45, 0x47, 0x5a),
            success: Color::Rgb(0xa6, 0xe3, 0xa1),
            warning: Color::Rgb(0xf9, 0xe2, 0xaf),
            error: Color::Rgb(0xf3, 0x8b, 0xa8),
            info: Color::Rgb(0x89, 0xdc, 0xeb),
            latency_low: Color::Rgb(0xa6, 0xe3, 0xa1),
            latency_mid: Color::Rgb(0xf9, 0xe2, 0xaf),
            latency_high: Color::Rgb(0xf3, 0x8b, 0xa8),
            latency_offline: Color::Rgb(0x58, 0x5b, 0x70),
            tab_active: Color::Rgb(0xcb, 0xa6, 0xf7),
            tab_inactive: Color::Rgb(0x58, 0x5b, 0x70),
        }
    }

    /// The `gruvbox` theme.
    pub fn gruvbox() -> (r: Self)
        ensures
            is_gruvbox(r),
    {
        proof {
            reveal_strlit("gruvbox");
        }
        Theme {
            name: owned("gruvbox"),
            bg: Color::Rgb(0x28, 0x28, 0x28),
            fg: Color::Rgb(0xeb, 0xdb, 0xb2),
            accent: Color::Rgb(0xfa, 0xbd, 0x2f),
            surface: Color::Rgb(0x3c, 0x38, 0x36),
            surface_light: Color::Rgb(0x50, 0x49, 0x45),
            success: Color::Rgb(0xb8, 0xbb, 0x26),
            warning: Color::Rgb(0xfa, 0xbd, 0x2f),
            error: Color::Rgb(0xfb, 0x49, 0x34),
            info: Color::Rgb(0x83, 0xa5, 0x98),
            latency_low: Color::Rgb(0xb8, 0xbb, 0x26),
            latency_mid: Color::Rgb(0xfa, 0xbd, 0x2f),
            latency_high: Color::Rgb(0xfb, 0x49, 0x34),
            latency_offline: Color::Rgb(0x66, 0x5c, 0x54),
            tab_active: Color::Rgb(0xfa, 0xbd, 0x2f),
            tab_inactive: Color::Rgb(0x66, 0x5c, 0x54),
        }
    }

    /// The theme a file gives (see `is_from_file`).
    pub fn from_file(name: &str, file: ThemeFile) -> (r: Self)
        requires
            file.safe(),
        ensures
            is_from_file(r, name@, file),
    {
        let base = Theme::tokyo_night();
        let ThemeFile {
            name: file_name,
            bg,
            fg,
            accent,
            surface,
            surface_light,
            success,
            warning,
            error,
            info,
            latency_low,
            latency_mid,
            latency_high,
            latency_offline,
            tab_active,
            tab_inactive,
        } = file;
        Theme {
            name: match file_name {
                Some(n) => n,
                None => owned(name),
            },
            bg: entry_color(bg, base.bg),
            fg: entry_color(fg, base.fg),
            accent: entry_color(accent, base.accent),
            surface: entry_color(surface, base.surface),
            surface_light: entry_color(surface_light, base.surface_light),
            success: entry_color(success, base.success),
            warning: entry_color(warning, base.warning),
            error: entry_color(error, base.error),
            info: entry_color(info, base.info),
            latency_low: entry_color(latency_low, base.latency_low),
            latency_mid: entry_color(latency_mid, base.latency_mid),
            latency_high: entry_color(latency_high, base.latency_high),
            latency_offline: entry_color(latency_offline, base.latency_offline),
            tab_active: entry_color(tab_active, base.tab_active),
            tab_inactive: entry_color(tab_inactive, base.tab_inactive),
        }
    }
}


impl ThemeFile {
    /// Whether every colour entry can be read (see `safe`).
    pub fn is_safe(&self) -> (r: bool)
        ensures
            r == self.safe(),
    {
        entry_is_safe(&self.bg)
            && entry_is_safe(&self.fg)
            && entry_is_safe(&self.accent)
            && entry_is_safe(&self.surface)
            && entry_is_safe(&self.surface_light)
            && entry_is_safe(&self.success)
            && entry_is_safe(&self.warning)
            && entry_is_safe(&self.error)
            && entry_is_safe(&self.info)
            && entry_is_safe(&self.latency_low)
            && entry_is_safe(&self.latency_mid)
            && entry_is_safe(&self.latency_high)
            && entry_is_safe(&self.latency_offline)
            && entry_is_safe(&self.tab_active)
            && entry_is_safe(&self.tab_inactive)
    }
}

impl Theme {
    /// The theme called `name`. `file` is what reading `<name>.toml` in the
    /// themes directory gave: `None` when there is no such file, else the
    /// parsed file or the error that reading or parsing it met, which is
    /// handed back. Without a file the built-in theme of that name is
    /// taken, compared in lower case, with `tokyo-night` for unknown names.
    pub fn load(name: &str, file: Option<Result<ThemeFile, String>>) -> (r: Result<Theme, String>)
        requires
            file matches Some(Ok(f)) ==> f.safe(),
        ensures
            file matches Some(Ok(f)) ==> (r matches Ok(t) && is_from_file(t, name@, f)),
            file matches Some(Err(e)) ==> r == Err::<Theme, String>(e),
            file is None ==> (r matches Ok(t) && is_builtin_for(t, lowercase(name@))),
            file is None && crate::text::all_ascii(name@) ==> (r matches Ok(t) && is_builtin_for(
                t,
                crate::text::ascii_lowered(name@),
            )),
    {
        match file {
            Some(Ok(f)) => Ok(Theme::from_file(name, f)),
            Some(Err(e)) => Err(e),
            None => {
                let lowered = to_lowercase(name);
                let l = chars_of(lowered.as_str());
                if crate::text::chars_eq_str(l.as_slice(), "catppuccin") {
                    Ok(Theme::catppuccin())
                } else if crate::text::chars_eq_str(l.as_slice(), "gruvbox") {
                    Ok(Theme::gruvbox())
                } else {
                    Ok(Theme::tokyo_night())
                }
            },
        }
    }
}

} // verus!
