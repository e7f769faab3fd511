//! Format templates: the compiled form of a format string.

pub mod compile;
pub mod render;
pub mod samples;

use vstd::prelude::*;
use crate::color::Color;
use crate::pallet::Pallet;

verus! {

/// What a styled block does to the style context while its body is rendered.
#[derive(Clone, Copy, Debug, PartialEq, Eq, Structural)]
pub enum Effect {
    FgColor(Color),
    FgColorBranch(Pallet),
    BgColor(Color),
    BgColorBranch(Pallet),
    Bold,
    Dimmed,
    Italic,
    Reversed,
    Underline,
    StrikeThrough,
}

/// One element of a template.
#[derive(Debug, PartialEq, Eq)]
pub enum Element {
    /// Verbatim text.
    Const(String),
    /// `%%`: a percent sign.
    Percent,
    /// `%}`: a closing brace.
    Close,
    /// `%N`: the target of the event.
    Name,
    /// `%f`: the source file.
    SourceFile,
    /// `%S`: the source file and line.
    SourceFileWithLine,
    /// `%m`: the module path.
    Module,
    /// `%M`: the message.
    Message,
    /// `%l`: the level in lower case.
    LogLevelLower,
    /// `%L`: the level in upper case.
    LogLevelUpper,
    /// `%T(..)`: the event's time in the local zone, in the given time format.
    Time(String),
    /// `%U(..)`: the event's time in UTC, in the given time format.
    UtcTime(String),
    /// A styled block: an effect and the body that it wraps.
    Styled(Effect, Format),
}

/// A compiled template: its elements in order.
#[derive(Debug, PartialEq, Eq)]
pub struct Format(pub Vec<Element>);

/// An element as contracts see it.
pub enum ElementView {
    Const(Seq<char>),
    Percent,
    Close,
    Name,
    SourceFile,
    SourceFileWithLine,
    Module,
    Message,
    LogLevelLower,
    LogLevelUpper,
    Time(Seq<char>),
    UtcTime(Seq<char>),
    Styled(Effect, Seq<ElementView>),
}

impl Element {
    /// The element with every text as a sequence of characters.
    pub open spec fn view(&self) -> ElementView
        decreases self,
    {
        match self {
            Element::Const(s) => ElementView::Const(s@),
            Element::Percent => ElementView::Percent,
            Element::Close => ElementView::Close,
            Element::Name => ElementView::Name,
            Element::SourceFile => ElementView::SourceFile,
            Element::SourceFileWithLine => ElementView::SourceFileWithLine,
            Element::Module => ElementView::Module,
            Element::Message => ElementView::Message,
            Element::LogLevelLower => ElementView::LogLevelLower,
            Element::LogLevelUpper => ElementView::LogLevelUpper,
            Element::Time(s) => ElementView::Time(s@),
            Element::UtcTime(s) => ElementView::UtcTime(s@),
            Element::Styled(e, f) => ElementView::Styled(*e, f.view()),
        }
    }
}

impl Format {
    /// The views of the elements, in order. (The closure is only ever
    /// asked for an index in range; the test in it serves the termination
    /// measure.)
    pub open spec fn view(&self) -> Seq<ElementView>
        decreases self,
    {
        Seq::new(
            self.0.len() as nat,
            |i: int|
                if 0 <= i < self.0.len() {
                    self.0[i].view()
                } else {
                    ElementView::Percent
                },
        )
    }
}

} // verus!
