//! The dispatcher: decides for each event whether it is rendered, and
//! renders it once for every output.

use vstd::prelude::*;
use crate::config::output::Output;
use crate::config::Config;
use crate::error::CompileError;
use crate::event::{Event, EventView};
use crate::format::compile::compile;
use crate::format::render::render;
use crate::format::{ElementView, Format};
use crate::level::{Level, Severity};
use crate::module::{allows, filter_of, minimal, texts, Modules};

verus! {

/// The dispatcher. It owns the compiled template, the threshold, the module
/// filter, and the outputs, each with the decision whether it is colorized.
#[derive(Debug)]
pub struct Logger {
    pub format: Format,
    pub level: Level,
    pub modules: Modules,
    pub streams: Vec<(Output, bool)>,
}

impl Logger {
    /// Whether the logger renders events of this severity from this module:
    /// the severity passes the threshold and the module filter lets the
    /// module through.
    pub open spec fn spec_enabled(&self, level: Severity, module: Seq<char>) -> bool {
        self.level.spec_admits(level) && allows(self.modules@, module)
    }

    /// Whether the logger renders `e`: its severity passes the threshold
    /// and, where it names a module, the module filter lets that module
    /// through.
    pub open spec fn spec_accepts(&self, e: EventView) -> bool {
        self.level.spec_admits(e.level) && match e.module {
            Some(m) => allows(self.modules@, m),
            None => true,
        }
    }

    /// Builds the logger that `config` describes. Fails exactly when the
    /// format string does not compile; there is no logger then.
    pub fn new(config: Config) -> (r: Result<Logger, CompileError>)
        ensures
            match r {
                Ok(l) => {
                    &&& compile(config.format@) == Ok::<Seq<ElementView>, CompileError>(l.format@)
                    &&& l.level == config.level
                    &&& l.modules@ == filter_of(texts(config.modules@))
                    &&& minimal(l.modules@)
                    &&& l.streams@.len() == config.output@.len()
                    &&& forall|i: int|
                        0 <= i < l.streams@.len() ==> (#[trigger] l.streams@[i]).0@
                            == config.output@[i]@ && l.streams@[i].1
                            == config.colorize.spec_colorize(config.output@[i])
                },
                Err(e) => compile(config.format@) == Err::<Seq<ElementView>, CompileError>(e),
            },
    {
        let format = match Format::new(config.format.as_str()) {
            Ok(f) => f,
            Err(e) => {
                return Err(e);
            },
        };
        let modules = Modules::from_list(&config.modules);
        let mut streams: Vec<(Output, bool)> = Vec::new();
        let mut i: usize = 0;
        while i < config.output.len()
            invariant
                i <= config.output.len(),
                streams@.len() == i,
                forall|j: int|
                    0 <= j < i ==> (#[trigger] streams@[j]).0@ == config.output@[j]@
                        && streams@[j].1 == config.colorize.spec_colorize(config.output@[j]),
            decreases config.output.len() - i,
        {
            let output = config.output[i].duplicate();
            let colorize = config.colorize.colorize(&config.output[i]);
            streams.push((output, colorize));
            i += 1;
        }
        Ok(Logger { format, level: config.level, modules, streams })
    }

    /// Whether the logger renders events of severity `level` from `module`.
    pub fn enabled(&self, level: Severity, module: &str) -> (r: bool)
        ensures
            r == self.spec_enabled(level, module@),
    {
        self.level.admits(level) && self.modules.contains(module)
    }

    /// Whether the logger renders `event`.
    pub fn accepts(&self, event: &Event) -> (r: bool)
        ensures
            r == self.spec_accepts(event@),
    {
        if !self.level.admits(event.level) {
            return false;
        }
        match &event.module {
            Some(m) => self.modules.contains(m.as_str()),
            None => true,
        }
    }

    /// Renders `event` for every output: the texts to write, in the order of
    /// the outputs, each colorized as its output asks. An event that the
    /// logger does not accept is not rendered at all, and nothing is to be
    /// written.
    pub fn log(&self, event: &Event) -> (out: Vec<String>)
        ensures
            !self.spec_accepts(event@) ==> out@.len() == 0,
            self.spec_accepts(event@) ==> out@.len() == self.streams@.len(),
            forall|i: int|
                0 <= i < out@.len() ==> (#[trigger] out@[i])@ == render(
                    self.format@,
                    event@,
                    self.streams@[i].1,
                ),
    {
        let mut out: Vec<String> = Vec::new();
        if !self.accepts(event) {
            return out;
        }
        let mut i: usize = 0;
        while i < self.streams.len()
            invariant
                i <= self.streams.len(),
                out@.len() == i,
                forall|j: int|
                    0 <= j < i ==> (#[trigger] out@[j])@ == render(
                        self.format@,
                        event@,
                        self.streams@[j].1,
                    ),
            decreases self.streams.len() - i,
        {
            let text = self.format.to_str(event, self.streams[i].1);
            out.push(text);
            i += 1;
        }
        out
    }
}

/// Under the threshold `Info` and an empty module filter, the events of
/// severity `Error`, `Warn` and `Info` are enabled for every module, and
/// those of severity `Debug` and `Trace` for none.
pub proof fn lemma_info_threshold(logger: Logger, module: Seq<char>)
    requires
        logger.level == Level::Info,
        logger.modules@.len() == 0,
    ensures
        logger.spec_enabled(Severity::Error, module),
        logger.spec_enabled(Severity::Warn, module),
        logger.spec_enabled(Severity::Info, module),
        !logger.spec_enabled(Severity::Debug, module),
        !logger.spec_enabled(Severity::Trace, module),
{
}

} // verus!
