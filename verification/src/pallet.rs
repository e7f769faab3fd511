//! One color per severity.

use vstd::prelude::*;
use crate::color::Color;
use crate::level::Severity;

verus! {

/// Five colors, one for each severity.
#[derive(Clone, Copy, Debug, PartialEq, Eq, Structural)]
pub struct Pallet {
    pub error: Color,
    pub warn: Color,
    pub info: Color,
    pub debug: Color,
    pub trace: Color,
}

impl Pallet {
    /// The color for `level`.
    pub open spec fn spec_select(self, level: Severity) -> Color {
        match level {
            Severity::Error => self.error,
            Severity::Warn => self.warn,
            Severity::Info => self.info,
            Severity::Debug => self.debug,
            Severity::Trace => self.trace,
        }
    }

    /// The color for `level`.
    pub fn select(&self, level: Severity) -> (c: Color)
        ensures
            c == self.spec_select(level),
    {
        match level {
            Severity::Error => self.error,
            Severity::Warn => self.warn,
            Severity::Info => self.info,
            Severity::Debug => self.debug,
            Severity::Trace => self.trace,
        }
    }
}

} // verus!
