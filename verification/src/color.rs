//! Colors: the sixteen terminal colors and 24-bit RGB, their names in a
//! template, and their ANSI parameter codes.

use vstd::prelude::*;
use crate::error::CompileError;
use crate::text::{decimal, push_decimal, range_is, to_chars};

verus! {

/// Which color: one of the eight base colors, one of their eight bright
/// variants, or a 24-bit RGB triple.
#[derive(Clone, Copy, Debug, PartialEq, Eq, Structural, Hash)]
pub enum Tint {
    Black,
    Red,
    Green,
    Yellow,
    Blue,
    Magenta,
    Cyan,
    White,
    BrightBlack,
    BrightRed,
    BrightGreen,
    BrightYellow,
    BrightBlue,
    BrightMagenta,
    BrightCyan,
    BrightWhite,
    TrueColor { r: u8, g: u8, b: u8 },
}

/// A resolved color. Two colors are equal when their tints are.
#[derive(Clone, Copy, Debug, PartialEq, Eq, Structural, Hash)]
pub struct Color(pub Tint);

/// The value of a hexadecimal digit, in either case.
pub open spec fn hex_value(c: char) -> Option<nat> {
    if '0' <= c && c <= '9' {
        Some((c as nat - '0' as nat) as nat)
    } else if 'a' <= c && c <= 'f' {
        Some((c as nat - 'a' as nat + 10) as nat)
    } else if 'A' <= c && c <= 'F' {
        Some((c as nat - 'A' as nat + 10) as nat)
    } else {
        None
    }
}

/// The byte that two hexadecimal digits spell, high digit first.
pub open spec fn hex_byte(hi: char, lo: char) -> Option<u8> {
    match (hex_value(hi), hex_value(lo)) {
        (Some(h), Some(l)) => Some((h * 16 + l) as u8),
        _ => None,
    }
}

/// The color that a name stands for. Names are matched exactly, in lower case;
/// `purple` is another name for magenta.
pub open spec fn named_color(text: Seq<char>) -> Option<Color> {
    if text == "black"@ {
        Some(Color(Tint::Black))
    } else if text == "red"@ {
        Some(Color(Tint::Red))
    } else if text == "green"@ {
        Some(Color(Tint::Green))
    } else if text == "yellow"@ {
        Some(Color(Tint::Yellow))
    } else if text == "blue"@ {
        Some(Color(Tint::Blue))
    } else if text == "magenta"@ {
        Some(Color(Tint::Magenta))
    } else if text == "purple"@ {
        Some(Color(Tint::Magenta))
    } else if text == "cyan"@ {
        Some(Color(Tint::Cyan))
    } else if text == "white"@ {
        Some(Color(Tint::White))
    } else if text == "bright black"@ {
        Some(Color(Tint::BrightBlack))
    } else if text == "bright red"@ {
        Some(Color(Tint::BrightRed))
    } else if text == "bright green"@ {
        Some(Color(Tint::BrightGreen))
    } else if text == "bright yellow"@ {
        Some(Color(Tint::BrightYellow))
    } else if text == "bright blue"@ {
        Some(Color(Tint::BrightBlue))
    } else if text == "bright magenta"@ {
        Some(Color(Tint::BrightMagenta))
    } else if text == "bright cyan"@ {
        Some(Color(Tint::BrightCyan))
    } else if text == "bright white"@ {
        Some(Color(Tint::BrightWhite))
    } else {
        None
    }
}

/// The color that a specifier stands for: `#` followed by exactly six
/// hexadecimal digits is RGB, anything else must be a name.
pub open spec fn color_of(text: Seq<char>) -> Option<Color> {
    if text.len() > 0 && text[0] == '#' {
        if text.len() == 7 {
            match (
                hex_byte(text[1], text[2]),
                hex_byte(text[3], text[4]),
                hex_byte(text[5], text[6]),
            ) {
                (Some(r), Some(g), Some(b)) => Some(Color(Tint::TrueColor { r, g, b })),
                _ => None,
            }
        } else {
            None
        }
    } else {
        named_color(text)
    }
}

/// The first index at or after `pos` that holds `ch`, or the length of `s`
/// when there is none.
pub open spec fn find_char(s: Seq<char>, pos: int, ch: char) -> int
    decreases s.len() - pos,
{
    if pos < 0 || pos >= s.len() {
        s.len() as int
    } else if s[pos] == ch {
        pos
    } else {
        find_char(s, pos + 1, ch)
    }
}

pub proof fn lemma_find_char_bounds(s: Seq<char>, pos: int, ch: char)
    requires
        0 <= pos <= s.len(),
    ensures
        pos <= find_char(s, pos, ch) <= s.len(),
        find_char(s, pos, ch) < s.len() ==> s[find_char(s, pos, ch)] == ch,
    decreases s.len() - pos,
{
    if pos < s.len() && s[pos] != ch {
        lemma_find_char_bounds(s, pos + 1, ch);
    }
}

/// The index of the first `ch` in `s[pos..]`, or `s.len()`.
pub fn scan_to(s: &Vec<char>, pos: usize, ch: char) -> (end: usize)
    requires
        pos <= s.len(),
    ensures
        end == find_char(s@, pos as int, ch),
        pos <= end <= s.len(),
{
    let mut i: usize = pos;
    while i < s.len() && s[i] != ch
        invariant
            pos <= i <= s.len(),
            find_char(s@, pos as int, ch) == find_char(s@, i as int, ch),
        decreases s.len() - i,
    {
        i += 1;
    }
    i
}

fn hex_digit(c: char) -> (v: Option<u8>)
    ensures
        v is Some == hex_value(c) is Some,
        v is Some ==> v->0 == hex_value(c)->0 && v->0 < 16,
{
    if '0' <= c && c <= '9' {
        Some((c as u32 - '0' as u32) as u8)
    } else if 'a' <= c && c <= 'f' {
        Some((c as u32 - 'a' as u32 + 10) as u8)
    } else if 'A' <= c && c <= 'F' {
        Some((c as u32 - 'A' as u32 + 10) as u8)
    } else {
        None
    }
}

fn hex_pair(hi: char, lo: char) -> (v: Option<u8>)
    ensures
        v == hex_byte(hi, lo),
{
    match (hex_digit(hi), hex_digit(lo)) {
        (Some(h), Some(l)) => Some(h * 16 + l),
        _ => None,
    }
}

impl Tint {
    /// The distance of a named tint's foreground code from 30: 0 to 7 for
    /// the base colors, 60 to 67 for the bright ones.
    pub open spec fn spec_offset(self) -> nat {
        match self {
            Tint::Black => 0,
            Tint::Red => 1,
            Tint::Green => 2,
            Tint::Yellow => 3,
            Tint::Blue => 4,
            Tint::Magenta => 5,
            Tint::Cyan => 6,
            Tint::White => 7,
            Tint::BrightBlack => 60,
            Tint::BrightRed => 61,
            Tint::BrightGreen => 62,
            Tint::BrightYellow => 63,
            Tint::BrightBlue => 64,
            Tint::BrightMagenta => 65,
            Tint::BrightCyan => 66,
            Tint::BrightWhite => 67,
            Tint::TrueColor { .. } => 0,
        }
    }

    pub fn offset(self) -> (n: u32)
        ensures
            n == self.spec_offset(),
    {
        match self {
            Tint::Black => 0,
            Tint::Red => 1,
            Tint::Green => 2,
            Tint::Yellow => 3,
            Tint::Blue => 4,
            Tint::Magenta => 5,
            Tint::Cyan => 6,
            Tint::White => 7,
            Tint::BrightBlack => 60,
            Tint::BrightRed => 61,
            Tint::BrightGreen => 62,
            Tint::BrightYellow => 63,
            Tint::BrightBlue => 64,
            Tint::BrightMagenta => 65,
            Tint::BrightCyan => 66,
            Tint::BrightWhite => 67,
            Tint::TrueColor { .. } => 0,
        }
    }
}

impl Color {
    /// The ANSI parameter that selects this color, as the foreground color or
    /// as the background color. The base code is 30 for the foreground and
    /// 40 for the background. A named color is the base plus its offset; RGB
    /// is the base plus 8, then `2` and the three components, separated by
    /// semicolons.
    pub open spec fn spec_code(self, foreground: bool) -> Seq<char> {
        let base: nat = if foreground {
            30
        } else {
            40
        };
        match self.0 {
            Tint::TrueColor { r, g, b } => decimal(base + 8) + seq![';', '2', ';'] + decimal(
                r as nat,
            ) + seq![';'] + decimal(g as nat) + seq![';'] + decimal(b as nat),
            t => decimal(base + t.spec_offset()),
        }
    }

    /// Appends this color's ANSI parameter to `out`.
    pub fn push_code(&self, out: &mut String, foreground: bool)
        ensures
            final(out)@ == old(out)@ + self.spec_code(foreground),
    {
        let base: u32 = if foreground {
            30
        } else {
            40
        };
        match self.0 {
            Tint::TrueColor { r, g, b } => {
                push_decimal(out, base + 8);
                out.push(';');
                out.push('2');
                out.push(';');
                push_decimal(out, r as u32);
                out.push(';');
                push_decimal(out, g as u32);
                out.push(';');
                push_decimal(out, b as u32);
                assert(out@ =~= old(out)@ + self.spec_code(foreground));
            },
            t => {
                push_decimal(out, base + t.offset());
            },
        }
    }

    /// Reads the color that `s[from..to]` spells.
    pub fn from_chars(s: &Vec<char>, from: usize, to: usize) -> (r: Result<Color, CompileError>)
        requires
            from <= to <= s.len(),
        ensures
            r == color_result(s@.subrange(from as int, to as int)),
    {
        let ghost text = s@.subrange(from as int, to as int);
        if to > from && s[from] == '#' {
            assert(text[0] == '#');
            if to - from != 7 {
                return Err(CompileError::InvalidColor);
            }
            assert(text[1] == s@[from + 1] && text[2] == s@[from + 2] && text[3] == s@[from + 3]
                && text[4] == s@[from + 4] && text[5] == s@[from + 5] && text[6] == s@[from + 6]);
            let r = hex_pair(s[from + 1], s[from + 2]);
            let g = hex_pair(s[from + 3], s[from + 4]);
            let b = hex_pair(s[from + 5], s[from + 6]);
            return match (r, g, b) {
                (Some(r), Some(g), Some(b)) => Ok(Color(Tint::TrueColor { r, g, b })),
                _ => Err(CompileError::InvalidColor),
            };
        }
        assert(!(text.len() > 0 && text[0] == '#')) by {
            if text.len() > 0 {
                assert(text[0] == s@[from as int]);
            }
        }
        if range_is(s, from, to, "black") {
            Ok(Color(Tint::Black))
        } else if range_is(s, from, to, "red") {
            Ok(Color(Tint::Red))
        } else if range_is(s, from, to, "green") {
            Ok(Color(Tint::Green))
        } else if range_is(s, from, to, "yellow") {
            Ok(Color(Tint::Yellow))
        } else if range_is(s, from, to, "blue") {
            Ok(Color(Tint::Blue))
        } else if range_is(s, from, to, "magenta") {
            Ok(Color(Tint::Magenta))
        } else if range_is(s, from, to, "purple") {
            Ok(Color(Tint::Magenta))
        } else if range_is(s, from, to, "cyan") {
            Ok(Color(Tint::Cyan))
        } else if range_is(s, from, to, "white") {
            Ok(Color(Tint::White))
        } else if range_is(s, from, to, "bright black") {
            Ok(Color(Tint::BrightBlack))
        } else if range_is(s, from, to, "bright red") {
            Ok(Color(Tint::BrightRed))
        } else if range_is(s, from, to, "bright green") {
            Ok(Color(Tint::BrightGreen))
        } else if range_is(s, from, to, "bright yellow") {
            Ok(Color(Tint::BrightYellow))
        } else if range_is(s, from, to, "bright blue") {
            Ok(Color(Tint::BrightBlue))
        } else if range_is(s, from, to, "bright magenta") {
            Ok(Color(Tint::BrightMagenta))
        } else if range_is(s, from, to, "bright cyan") {
            Ok(Color(Tint::BrightCyan))
        } else if range_is(s, from, to, "bright white") {
            Ok(Color(Tint::BrightWhite))
        } else {
            Err(CompileError::InvalidColor)
        }
    }

    /// Reads a color specifier: `#RRGGBB` or one of the color names.
    pub fn from_str(s: &str) -> (r: Result<Color, CompileError>)
        ensures
            r == color_result(s@),
    {
        let chars = to_chars(s);
        assert(chars@.subrange(0, chars@.len() as int) =~= s@);
        Color::from_chars(&chars, 0, chars.len())
    }

    /// Reads the color specifier that runs from `pos` up to the next `ch`
    /// and steps over that `ch`: on success the second component is the
    /// position just behind it. Fails with `UnexpectedEnd` when the text ends
    /// before `ch` is met, and with `InvalidColor` when the specifier names
    /// no color.
    pub fn parse_until(s: &Vec<char>, pos: usize, ch: char) -> (r: Result<
        (Color, usize),
        CompileError,
    >)
        ensures
            match r {
                Ok((c, next)) => spec_parse_until(s@, pos as int, ch) == Ok::<
                    (Color, int),
                    CompileError,
                >((c, next as int)) && pos < next <= s.len(),
                Err(e) => spec_parse_until(s@, pos as int, ch) == Err::<(Color, int), CompileError>(
                    e,
                ),
            },
    {
        if pos >= s.len() {
            return Err(CompileError::UnexpectedEnd);
        }
        let end = scan_to(s, pos, ch);
        if end >= s.len() {
            return Err(CompileError::UnexpectedEnd);
        }
        match Color::from_chars(s, pos, end) {
            Ok(c) => Ok((c, end + 1)),
            Err(e) => Err(e),
        }
    }
}

/// What reading a color specifier gives: the color, or `InvalidColor`.
pub open spec fn color_result(text: Seq<char>) -> Result<Color, CompileError> {
    match color_of(text) {
        Some(c) => Ok(c),
        None => Err(CompileError::InvalidColor),
    }
}

/// What `Color::parse_until` returns: the color spelled by the text between
/// `pos` and the next `ch`, with the position behind that `ch`.
pub open spec fn spec_parse_until(s: Seq<char>, pos: int, ch: char) -> Result<
    (Color, int),
    CompileError,
> {
    let end = find_char(s, pos, ch);
    if end >= s.len() {
        Err(CompileError::UnexpectedEnd)
    } else {
        match color_of(s.subrange(pos, end)) {
            Some(c) => Ok((c, end + 1)),
            None => Err(CompileError::InvalidColor),
        }
    }
}

} // verus!
