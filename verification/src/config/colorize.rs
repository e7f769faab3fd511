//! When to colorize the output.

use vstd::prelude::*;
use crate::config::output::Output;
use crate::error::InvalidWord;
use crate::text::{range_is, to_chars};

verus! {

/// Colorize the output
#[derive(Clone, Copy, Debug, PartialEq, Eq, Structural, PartialOrd, Ord)]
pub enum Colorize {
    /// Never colorize.
    Off,
    /// Detect by the output target.
    Auto,
    /// Always colorize.
    On,
}

/// The setting that a word names.
pub open spec fn colorize_of(text: Seq<char>) -> Option<Colorize> {
    if text == "off"@ || text == "Off"@ || text == "OFF"@ || text == "false"@ || text == "False"@ || text == "FALSE"@ {
        Some(Colorize::Off)
    } else if text == "auto"@ || text == "Auto"@ || text == "AUTO"@ {
        Some(Colorize::Auto)
    } else if text == "on"@ || text == "On"@ || text == "ON"@ || text == "true"@ || text == "True"@ || text == "TRUE"@ {
        Some(Colorize::On)
    } else {
        None
    }
}

impl Colorize {
    /// The name of the setting.
    pub open spec fn spec_name(self) -> Seq<char> {
        match self {
            Colorize::Off => "off"@,
            Colorize::Auto => "auto"@,
            Colorize::On => "on"@,
        }
    }

    /// The name of the setting.
    pub fn to_string(&self) -> (s: String)
        ensures
            s@ == self.spec_name(),
    {
        match self {
            Colorize::Off => "off".to_owned(),
            Colorize::Auto => "auto".to_owned(),
            Colorize::On => "on".to_owned(),
        }
    }

    /// Reads a setting from its name. Succeeds exactly on the words that
    /// `colorize_of` knows.
    pub fn from_str(s: &str) -> (r: Result<Colorize, InvalidWord>)
        ensures
            match r {
                Ok(c) => colorize_of(s@) == Some(c),
                Err(_) => colorize_of(s@) is None,
            },
    {
        let chars = to_chars(s);
        let n: usize = chars.len();
        assert(chars@.subrange(0, n as int) =~= s@);
        if range_is(&chars, 0, n, "off") || range_is(&chars, 0, n, "Off") || range_is(&chars, 0, n, "OFF") || range_is(&chars, 0, n, "false") || range_is(&chars, 0, n, "False") || range_is(&chars, 0, n, "FALSE") {
            Ok(Colorize::Off)
        } else if range_is(&chars, 0, n, "auto") || range_is(&chars, 0, n, "Auto") || range_is(&chars, 0, n, "AUTO") {
            Ok(Colorize::Auto)
        } else if range_is(&chars, 0, n, "on") || range_is(&chars, 0, n, "On") || range_is(&chars, 0, n, "ON") || range_is(&chars, 0, n, "true") || range_is(&chars, 0, n, "True") || range_is(&chars, 0, n, "TRUE") {
            Ok(Colorize::On)
        } else {
            Err(InvalidWord)
        }
    }

    /// `On` for `true`, `Off` for `false`.
    pub fn from_bool(b: bool) -> (c: Colorize)
        ensures
            c == if b {
                Colorize::On
            } else {
                Colorize::Off
            },
    {
        if b {
            Colorize::On
        } else {
            Colorize::Off
        }
    }

    /// Whether output to `output` is colorized under this setting.
    pub open spec fn spec_colorize(self, output: Output) -> bool {
        match self {
            Colorize::Off => false,
            Colorize::Auto => output is Stdout || output is Stderr,
            Colorize::On => true,
        }
    }

    /// Whether output to `output` is colorized under this setting: never
    /// when off, always when on, and for the two standard streams when
    /// automatic.
    pub fn colorize(&self, output: &Output) -> (r: bool)
        ensures
            r == self.spec_colorize(*output),
    {
        match self {
            Colorize::Off => false,
            Colorize::Auto => match output {
                Output::Stdout => true,
                Output::Stderr => true,
                Output::File(_) => false,
            },
            Colorize::On => true,
        }
    }
}

impl Default for Colorize {
    fn default() -> (c: Colorize)
        ensures
            c == Colorize::Auto,
    {
        Colorize::Auto
    }
}

} // verus!
