//! The event that a template is rendered against.

use vstd::prelude::*;
use crate::level::Severity;

verus! {

/// The instant of an event: seconds and nanoseconds since the Unix epoch,
/// and the local zone's offset from UTC in seconds, east positive.
#[derive(Clone, Copy, Debug, PartialEq, Eq, Structural)]
pub struct Timestamp {
    pub secs: i64,
    pub nanos: u32,
    pub offset: i32,
}

/// One log event.
#[derive(Clone, Debug, PartialEq, Eq)]
pub struct Event {
    pub level: Severity,
    pub target: String,
    pub module: Option<String>,
    pub file: Option<String>,
    pub line: Option<u32>,
    pub message: String,
    pub time: Timestamp,
}

/// An event as contracts see it: every text as a sequence of characters.
pub struct EventView {
    pub level: Severity,
    pub target: Seq<char>,
    pub module: Option<Seq<char>>,
    pub file: Option<Seq<char>>,
    pub line: Option<u32>,
    pub message: Seq<char>,
    pub time: Timestamp,
}

/// The characters of an optional text.
pub open spec fn text_of(s: Option<String>) -> Option<Seq<char>> {
    match s {
        Some(t) => Some(t@),
        None => None,
    }
}

impl View for Event {
    type V = EventView;

    open spec fn view(&self) -> EventView {
        EventView {
            level: self.level,
            target: self.target@,
            module: text_of(self.module),
            file: text_of(self.file),
            line: self.line,
            message: self.message@,
            time: self.time,
        }
    }
}

} // verus!
