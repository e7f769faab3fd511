//! Severity of an event and the threshold that gates it.

use vstd::prelude::*;
use crate::error::InvalidWord;
use crate::text::{range_is, to_chars};

verus! {

/// The severity carried by a log event, most severe first.
#[derive(Clone, Copy, Debug, PartialEq, Eq, Structural, Hash)]
pub enum Severity {
    Error,
    Warn,
    Info,
    Debug,
    Trace,
}

/// The threshold of a logger: `Off` lets nothing through, `Trace` everything.
#[derive(Clone, Copy, Debug, PartialEq, Eq, Structural, PartialOrd, Ord, Hash)]
pub enum Level {
    Off,
    Error,
    Warn,
    Info,
    Debug,
    Trace,
}

impl Severity {
    /// Position in the order `Error < Warn < Info < Debug < Trace`, counted from one.
    pub open spec fn spec_rank(self) -> nat {
        match self {
            Severity::Error => 1,
            Severity::Warn => 2,
            Severity::Info => 3,
            Severity::Debug => 4,
            Severity::Trace => 5,
        }
    }

    pub fn rank(self) -> (r: u8)
        ensures
            r == self.spec_rank(),
    {
        match self {
            Severity::Error => 1,
            Severity::Warn => 2,
            Severity::Info => 3,
            Severity::Debug => 4,
            Severity::Trace => 5,
        }
    }

    /// The upper-case name, as `%L` prints it.
    pub open spec fn spec_upper(self) -> Seq<char> {
        match self {
            Severity::Error => seq!['E', 'R', 'R', 'O', 'R'],
            Severity::Warn => seq!['W', 'A', 'R', 'N'],
            Severity::Info => seq!['I', 'N', 'F', 'O'],
            Severity::Debug => seq!['D', 'E', 'B', 'U', 'G'],
            Severity::Trace => seq!['T', 'R', 'A', 'C', 'E'],
        }
    }

    /// The lower-case name, as `%l` prints it.
    pub open spec fn spec_lower(self) -> Seq<char> {
        match self {
            Severity::Error => seq!['e', 'r', 'r', 'o', 'r'],
            Severity::Warn => seq!['w', 'a', 'r', 'n'],
            Severity::Info => seq!['i', 'n', 'f', 'o'],
            Severity::Debug => seq!['d', 'e', 'b', 'u', 'g'],
            Severity::Trace => seq!['t', 'r', 'a', 'c', 'e'],
        }
    }

    pub fn upper(self) -> (s: &'static str)
        ensures
            s@ == self.spec_upper(),
    {
        proof {
            reveal_strlit("ERROR");
            reveal_strlit("WARN");
            reveal_strlit("INFO");
            reveal_strlit("DEBUG");
            reveal_strlit("TRACE");
        }
        let s = match self {
            Severity::Error => "ERROR",
            Severity::Warn => "WARN",
            Severity::Info => "INFO",
            Severity::Debug => "DEBUG",
            Severity::Trace => "TRACE",
        };
        assert(s@ =~= self.spec_upper());
        s
    }

    pub fn lower(self) -> (s: &'static str)
        ensures
            s@ == self.spec_lower(),
    {
        proof {
            reveal_strlit("error");
            reveal_strlit("warn");
            reveal_strlit("info");
            reveal_strlit("debug");
            reveal_strlit("trace");
        }
        let s = match self {
            Severity::Error => "error",
            Severity::Warn => "warn",
            Severity::Info => "info",
            Severity::Debug => "debug",
            Severity::Trace => "trace",
        };
        assert(s@ =~= self.spec_lower());
        s
    }
}

/// The lower-case form of an ASCII capital; every other character is itself.
pub open spec fn ascii_lower(c: char) -> char {
    if 'A' <= c && c <= 'Z' {
        ((c as u8) + 32) as char
    } else {
        c
    }
}

/// Lower-casing the upper-case name of a severity, letter by letter, gives
/// its lower-case name.
pub proof fn lemma_lower_is_lowercased_upper(level: Severity)
    ensures
        level.spec_lower() == level.spec_upper().map_values(|c: char| ascii_lower(c)),
{
    assert(level.spec_lower() =~= level.spec_upper().map_values(|c: char| ascii_lower(c)));
}

impl Level {
    /// Position in the order `Off < Error < Warn < Info < Debug < Trace`, counted from zero.
    pub open spec fn spec_rank(self) -> nat {
        match self {
            Level::Off => 0,
            Level::Error => 1,
            Level::Warn => 2,
            Level::Info => 3,
            Level::Debug => 4,
            Level::Trace => 5,
        }
    }

    pub fn rank(self) -> (r: u8)
        ensures
            r == self.spec_rank(),
    {
        match self {
            Level::Off => 0,
            Level::Error => 1,
            Level::Warn => 2,
            Level::Info => 3,
            Level::Debug => 4,
            Level::Trace => 5,
        }
    }

    /// The most verbose threshold.
    pub fn max() -> (r: Level)
        ensures
            r == Level::Trace,
            forall|l: Level| l.spec_rank() <= r.spec_rank(),
    {
        Level::Trace
    }

    /// Whether an event of severity `severity` passes this threshold: it
    /// does when it is at least as severe as the threshold names.
    pub open spec fn spec_admits(self, severity: Severity) -> bool {
        severity.spec_rank() <= self.spec_rank()
    }

    #[verifier::when_used_as_spec(spec_admits)]
    pub fn admits(self, severity: Severity) -> (r: bool)
        ensures
            r == self.spec_admits(severity),
    {
        severity.rank() <= self.rank()
    }
}

impl Default for Level {
    fn default() -> (r: Level)
        ensures
            r == Level::Info,
    {
        Level::Info
    }
}

/// The threshold that a word names: a level name or `max`, in lower case,
/// capitalized or in upper case.
pub open spec fn level_of(text: Seq<char>) -> Option<Level> {
    if text == "off"@ || text == "Off"@ || text == "OFF"@ {
        Some(Level::Off)
    } else if text == "error"@ || text == "Error"@ || text == "ERROR"@ {
        Some(Level::Error)
    } else if text == "warn"@ || text == "Warn"@ || text == "WARN"@ {
        Some(Level::Warn)
    } else if text == "info"@ || text == "Info"@ || text == "INFO"@ {
        Some(Level::Info)
    } else if text == "debug"@ || text == "Debug"@ || text == "DEBUG"@ {
        Some(Level::Debug)
    } else if text == "trace"@ || text == "Trace"@ || text == "TRACE"@ {
        Some(Level::Trace)
    } else if text == "max"@ || text == "Max"@ || text == "MAX"@ {
        Some(Level::Trace)
    } else {
        None
    }
}

impl Level {
    /// The name of the threshold, in lower case.
    pub open spec fn spec_name(self) -> Seq<char> {
        match self {
            Level::Off => "off"@,
            Level::Error => "error"@,
            Level::Warn => "warn"@,
            Level::Info => "info"@,
            Level::Debug => "debug"@,
            Level::Trace => "trace"@,
        }
    }

    /// The name of the threshold, in lower case.
    pub fn to_string(&self) -> (s: String)
        ensures
            s@ == self.spec_name(),
    {
        match self {
            Level::Off => "off".to_owned(),
            Level::Error => "error".to_owned(),
            Level::Warn => "warn".to_owned(),
            Level::Info => "info".to_owned(),
            Level::Debug => "debug".to_owned(),
            Level::Trace => "trace".to_owned(),
        }
    }

    /// Reads a threshold from its name. Succeeds exactly on the words that
    /// `level_of` knows.
    pub fn from_str(s: &str) -> (r: Result<Level, InvalidWord>)
        ensures
            match r {
                Ok(l) => level_of(s@) == Some(l),
                Err(_) => level_of(s@) is None,
            },
    {
        let chars = to_chars(s);
        let n: usize = chars.len();
        assert(chars@.subrange(0, n as int) =~= s@);
        if range_is(&chars, 0, n, "off") || range_is(&chars, 0, n, "Off") || range_is(&chars, 0, n, "OFF") {
            Ok(Level::Off)
        } else if range_is(&chars, 0, n, "error") || range_is(&chars, 0, n, "Error") || range_is(&chars, 0, n, "ERROR") {
            Ok(Level::Error)
        } else if range_is(&chars, 0, n, "warn") || range_is(&chars, 0, n, "Warn") || range_is(&chars, 0, n, "WARN") {
            Ok(Level::Warn)
        } else if range_is(&chars, 0, n, "info") || range_is(&chars, 0, n, "Info") || range_is(&chars, 0, n, "INFO") {
            Ok(Level::Info)
        } else if range_is(&chars, 0, n, "debug") || range_is(&chars, 0, n, "Debug") || range_is(&chars, 0, n, "DEBUG") {
            Ok(Level::Debug)
        } else if range_is(&chars, 0, n, "trace") || range_is(&chars, 0, n, "Trace") || range_is(&chars, 0, n, "TRACE") {
            Ok(Level::Trace)
        } else if range_is(&chars, 0, n, "max") || range_is(&chars, 0, n, "Max") || range_is(&chars, 0, n, "MAX") {
            Ok(Level::Trace)
        } else {
            Err(InvalidWord)
        }
    }

    /// The threshold that admits exactly the events at least as severe as `severity`.
    pub fn from_severity(severity: Severity) -> (r: Level)
        ensures
            r.spec_rank() == severity.spec_rank(),
    {
        match severity {
            Severity::Error => Level::Error,
            Severity::Warn => Level::Warn,
            Severity::Info => Level::Info,
            Severity::Debug => Level::Debug,
            Severity::Trace => Level::Trace,
        }
    }
}

/// A threshold that admits an event admits every event that is at least as
/// severe.
pub proof fn lemma_admits_more_severe(threshold: Level, worse: Severity, milder: Severity)
    requires
        worse.spec_rank() <= milder.spec_rank(),
        threshold.spec_admits(milder),
    ensures
        threshold.spec_admits(worse),
{
}

/// A more verbose threshold admits whatever a less verbose one admits.
pub proof fn lemma_admits_widens(narrow: Level, wide: Level, severity: Severity)
    requires
        narrow.spec_rank() <= wide.spec_rank(),
        narrow.spec_admits(severity),
    ensures
        wide.spec_admits(severity),
{
}

} // verus!
