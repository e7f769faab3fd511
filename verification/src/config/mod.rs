//! The logger settings.

pub mod colorize;
pub mod output;

use vstd::prelude::*;
use crate::config::colorize::Colorize;
use crate::config::output::Output;
use crate::formats::DETAIL1;
use crate::level::Level;

verus! {

/// The logger settings.
#[derive(Clone, Debug, PartialEq, Eq)]
pub struct Config {
    pub colorize: Colorize,
    pub format: String,
    pub level: Level,
    pub modules: Vec<String>,
    pub output: Vec<Output>,
}

impl Default for Config {
    /// Automatic colors, the detailed format, the threshold `Info`, no
    /// module filter, and the standard error as the one output.
    fn default() -> (c: Config)
        ensures
            c.colorize == Colorize::Auto,
            c.format@ == DETAIL1@,
            c.level == Level::Info,
            c.modules@.len() == 0,
            c.output@ == seq![Output::Stderr],
    {
        let mut output: Vec<Output> = Vec::new();
        output.push(Output::Stderr);
        assert(output@ =~= seq![Output::Stderr]);
        Config {
            colorize: Colorize::Auto,
            format: DETAIL1.to_owned(),
            level: Level::Info,
            modules: Vec::new(),
            output,
        }
    }
}

impl Config {
    /// Create a new instance, with the default settings.
    pub fn new() -> (c: Config)
        ensures
            c.colorize == Colorize::Auto,
            c.format@ == DETAIL1@,
            c.level == Level::Info,
            c.modules@.len() == 0,
            c.output@ == seq![Output::Stderr],
    {
        Config::default()
    }

    /// Colorize the log.
    pub fn colorize(self, colorize: Colorize) -> (c: Config)
        ensures
            c == (Config { colorize, ..self }),
    {
        let mut c = self;
        c.colorize = colorize;
        c
    }

    /// Set the format string.
    pub fn format(self, format: &str) -> (c: Config)
        ensures
            c.format@ == format@,
            c.colorize == self.colorize,
            c.level == self.level,
            c.modules == self.modules,
            c.output == self.output,
    {
        let mut c = self;
        c.format = format.to_owned();
        c
    }

    /// Set the log level.
    pub fn level(self, level: Level) -> (c: Config)
        ensures
            c == (Config { level, ..self }),
    {
        let mut c = self;
        c.level = level;
        c
    }

    /// Set modules that enable the logger.
    pub fn modules(self, modules: Vec<String>) -> (c: Config)
        ensures
            c == (Config { modules, ..self }),
    {
        let mut c = self;
        c.modules = modules;
        c
    }

    /// Add a module that enables the logger.
    pub fn module(self, module: &str) -> (c: Config)
        ensures
            c.modules@.len() == self.modules@.len() + 1,
            c.modules@.drop_last() == self.modules@,
            c.modules@.last()@ == module@,
            c.colorize == self.colorize,
            c.format == self.format,
            c.level == self.level,
            c.output == self.output,
    {
        let mut c = self;
        let ghost before = c.modules@;
        c.modules.push(module.to_owned());
        assert(c.modules@.drop_last() =~= before);
        c
    }

    /// Set the output stream: it becomes the only one.
    pub fn output(self, output: Output) -> (c: Config)
        ensures
            c.output@ == seq![output],
            c.colorize == self.colorize,
            c.format == self.format,
            c.level == self.level,
            c.modules == self.modules,
    {
        let mut c = self;
        let mut list: Vec<Output> = Vec::new();
        list.push(output);
        assert(list@ =~= seq![output]);
        c.output = list;
        c
    }

    /// Append the output stream.
    pub fn add_output(self, output: Output) -> (c: Config)
        ensures
            c.output@ == self.output@.push(output),
            c.colorize == self.colorize,
            c.format == self.format,
            c.level == self.level,
            c.modules == self.modules,
    {
        let mut c = self;
        c.output.push(output);
        c
    }

    /// Set the output streams.
    pub fn outputs(self, outputs: Vec<Output>) -> (c: Config)
        ensures
            c == (Config { output: outputs, ..self }),
    {
        let mut c = self;
        c.output = outputs;
        c
    }
}

} // verus!
