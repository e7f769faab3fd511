//! The style context of a render pass and the ANSI escape sequences that
//! put it on a terminal.

use vstd::prelude::*;
use vstd::string::StringExecFns;
use crate::color::Color;

verus! {

/// The active style: an optional foreground and background color and six
/// independent flags. An unset color means the terminal's default.
#[derive(Clone, Copy, Debug, PartialEq, Eq)]
pub struct Style {
    pub fg: Option<Color>,
    pub bg: Option<Color>,
    pub bold: bool,
    pub dim: bool,
    pub italic: bool,
    pub reverse: bool,
    pub underline: bool,
    pub strikethrough: bool,
}

/// The escape character that opens an ANSI sequence.
pub open spec fn esc() -> char {
    '\u{1b}'
}

/// The sequence that switches every attribute off: `ESC [ 0 m`.
pub open spec fn reset_sequence() -> Seq<char> {
    seq![esc(), '[', '0', 'm']
}

/// `params` with `code` added behind a semicolon, or `code` alone when
/// `params` is still empty; `params` unchanged when `on` is false.
pub open spec fn with_param(params: Seq<char>, on: bool, code: Seq<char>) -> Seq<char> {
    if !on {
        params
    } else if params.len() == 0 {
        code
    } else {
        params + seq![';'] + code
    }
}

fn add_flag(params: &mut String, on: bool, code: char)
    ensures
        final(params)@ == with_param(old(params)@, on, seq![code]),
{
    if on {
        if !params.as_str().is_empty() {
            params.push(';');
        }
        params.push(code);
        assert(params@ =~= with_param(old(params)@, on, seq![code]));
    }
}

fn add_color(params: &mut String, color: Color, foreground: bool)
    ensures
        final(params)@ == with_param(old(params)@, true, color.spec_code(foreground)),
{
    if !params.as_str().is_empty() {
        params.push(';');
    }
    color.push_code(params, foreground);
    assert(params@ =~= with_param(old(params)@, true, color.spec_code(foreground)));
}

impl Style {
    /// The style with nothing set.
    pub open spec fn spec_neutral() -> Style {
        Style {
            fg: None,
            bg: None,
            bold: false,
            dim: false,
            italic: false,
            reverse: false,
            underline: false,
            strikethrough: false,
        }
    }

    /// The style with nothing set.
    pub fn neutral() -> (s: Style)
        ensures
            s == Style::spec_neutral(),
    {
        Style {
            fg: None,
            bg: None,
            bold: false,
            dim: false,
            italic: false,
            reverse: false,
            underline: false,
            strikethrough: false,
        }
    }

    /// Whether nothing is set.
    pub open spec fn spec_is_neutral(self) -> bool {
        self == Style::spec_neutral()
    }

    /// Whether nothing is set.
    pub fn is_neutral(&self) -> (r: bool)
        ensures
            r == self.spec_is_neutral(),
    {
        self.fg.is_none() && self.bg.is_none() && !self.bold && !self.dim && !self.italic
            && !self.reverse && !self.underline && !self.strikethrough
    }

    /// The parameters of the sequence that switches this style on, joined by
    /// semicolons: the flags that are set (bold 1, dim 2, underline 4,
    /// reverse 7, italic 3, strikethrough 9, in that order), then the
    /// background color, then the foreground color.
    pub open spec fn spec_params(self) -> Seq<char> {
        let p = with_param(Seq::empty(), self.bold, seq!['1']);
        let p = with_param(p, self.dim, seq!['2']);
        let p = with_param(p, self.underline, seq!['4']);
        let p = with_param(p, self.reverse, seq!['7']);
        let p = with_param(p, self.italic, seq!['3']);
        let p = with_param(p, self.strikethrough, seq!['9']);
        let p = match self.bg {
            Some(c) => with_param(p, true, c.spec_code(false)),
            None => p,
        };
        match self.fg {
            Some(c) => with_param(p, true, c.spec_code(true)),
            None => p,
        }
    }

    /// `text` as it is written under this style. With colors off, under the
    /// neutral style, or for an empty text, that is `text` itself. Otherwise
    /// it is `ESC [ params m`, the text, and the reset sequence.
    pub open spec fn spec_paint(self, text: Seq<char>, colorize: bool) -> Seq<char> {
        if !colorize || self.spec_is_neutral() || text.len() == 0 {
            text
        } else {
            seq![esc(), '['] + self.spec_params() + seq!['m'] + text + reset_sequence()
        }
    }

    /// The parameters of the sequence that switches this style on.
    pub fn params(&self) -> (p: String)
        ensures
            p@ == self.spec_params(),
    {
        let mut p = String::new();
        add_flag(&mut p, self.bold, '1');
        add_flag(&mut p, self.dim, '2');
        add_flag(&mut p, self.underline, '4');
        add_flag(&mut p, self.reverse, '7');
        add_flag(&mut p, self.italic, '3');
        add_flag(&mut p, self.strikethrough, '9');
        match self.bg {
            Some(c) => add_color(&mut p, c, false),
            None => {},
        }
        match self.fg {
            Some(c) => add_color(&mut p, c, true),
            None => {},
        }
        p
    }

    /// Appends `text` to `out` as it is written under this style.
    pub fn paint(&self, out: &mut String, text: &str, colorize: bool)
        ensures
            final(out)@ == old(out)@ + self.spec_paint(text@, colorize),
    {
        if !colorize || self.is_neutral() || text.is_empty() {
            out.append(text);
        } else {
            out.push('\u{1b}');
            out.push('[');
            let params = self.params();
            out.append(params.as_str());
            out.push('m');
            out.append(text);
            out.push('\u{1b}');
            out.push('[');
            out.push('0');
            out.push('m');
            assert(out@ =~= old(out)@ + self.spec_paint(text@, colorize));
        }
    }
}

impl Default for Style {
    fn default() -> (s: Style)
        ensures
            s == Style::spec_neutral(),
    {
        Style::neutral()
    }
}

} // verus!
