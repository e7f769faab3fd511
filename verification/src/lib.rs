//! A configurable log formatter: templates compiled from a small `%`-code
//! language, rendered against log events with optional ANSI styling, and a
//! dispatcher that filters events by level and by module.
//!
//! ## Format Specification
//! The format string is basically a string, but the following specifiers
//! are converted into another string.
//!
//! | Spec. | Example | Description |
//! |-------|---------|-------------|
//! | `%%` | | Literal `%`. |
//! | `%}` | | Literal `}`. (use in `{}`.) |
//! | `%N` | `hyper` | The target of the log. |
//! | `%m` | `hyper::client` | The module path of the log. |
//! | `%f` | `main.rs` | The file that the log defined. |
//! | `%S` | `main.rs:15` | The file and line that the log defined. |
//! | `%M` | `An error has occured.` | The log message. |
//! | `%l` | `info` | The log level. (lowercase) |
//! | `%L` | `INFO` | The log level. (uppercase) |
//! | `%T(<format>)` | `%T(%D %T)` -> `01/01/21 12:00:00` | The local time, in a `chrono` time format. |
//! | `%U(<format>)` | `%U(%D %T)` -> `01/01/21 12:00:00` | The UTC time, in a `chrono` time format. |
//! | `%F(<color>){...}` | | Set the foreground color. |
//! | `%F(<error>,<warn>,<info>,<debug>,<trace>){...}` | | Set the foreground color. (Branch by the log level.) |
//! | `%B(<color>){...}` | | Set the background color. |
//! | `%B(<error>,<warn>,<info>,<debug>,<trace>){...}` | | Set the background color. (Branch by the log level.) |
//! | `%b{...}` | | Bold the text. |
//! | `%d{...}` | | Dim the text color. |
//! | `%i{...}` | | Print the text in italics. |
//! | `%r{...}` | | Reverse the foreground and background color. |
//! | `%u{...}` | | Underline the text. |
//! | `%s{...}` | | Strikethrough the text. |
//!
//! ### Supported Color
//! `black`, `red`, `green`, `yellow`, `blue`, `magenta` (= `purple`), `cyan`,
//! `white`, each of them also with `bright ` in front (`bright red`), and
//! `#ffffff` (hexadecimal RGB). Names are written in lower case.
//!
//! ## What is proved
//! `format::compile::compile` says which template a format string compiles
//! to, and `format::render::render` what a template writes for an event;
//! `Format::new` and `Format::to_str` are proved to compute exactly these.
//! The text of a time field is `chrono`'s: the contracts name it and say
//! nothing of what it holds.

pub mod text;
pub mod error;
pub mod level;
pub mod color;
pub mod pallet;
pub mod style;
pub mod event;
pub mod clock;
pub mod format;
pub mod module;
pub mod formats;
pub mod config;
pub mod logger;
pub mod default_format;

pub use crate::color::{Color, Tint};
pub use crate::config::colorize::Colorize;
pub use crate::config::output::Output;
pub use crate::config::Config;
pub use crate::error::{CompileError, InvalidWord};
pub use crate::event::{Event, Timestamp};
pub use crate::format::{Effect, Element, Format};
pub use crate::level::{Level, Severity};
pub use crate::logger::Logger;
pub use crate::module::{Module, Modules};
pub use crate::pallet::Pallet;
pub use crate::style::Style;

use vstd::prelude::*;
use crate::config::output::OutputView;
use crate::format::compile::compile;
use crate::format::ElementView;
use crate::default_format::lemma_default_format_compiles;
use crate::formats::DETAIL1;

verus! {

/// Create a logger by default settings: the detailed format, the threshold
/// `Info`, no module filter, and the standard error, colorized, as the one
/// output.
pub fn default() -> (l: Logger)
    ensures
        compile(DETAIL1@) == Ok::<Seq<ElementView>, CompileError>(l.format@),
        l.level == Level::Info,
        l.modules@.len() == 0,
        l.streams@.len() == 1,
        l.streams@[0].0@ == OutputView::Stderr,
        l.streams@[0].1,
{
    let config = Config::default();
    proof {
        lemma_default_format_compiles();
        assert(crate::module::texts(config.modules@) =~= Seq::empty());
    }
    match Logger::new(config) {
        Ok(l) => l,
        Err(_) => unreached(),
    }
}

/// Create a logger by custom settings. Fails exactly when the format string
/// of `config` does not compile.
pub fn new(config: Config) -> (r: Result<Logger, CompileError>)
    ensures
        match r {
            Ok(l) => compile(config.format@) == Ok::<Seq<ElementView>, CompileError>(l.format@),
            Err(e) => compile(config.format@) == Err::<Seq<ElementView>, CompileError>(e),
        },
{
    Logger::new(config)
}

} // verus!
