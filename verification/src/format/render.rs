//! The template renderer: what a template writes for an event.

use vstd::prelude::*;
use vstd::string::StringExecFns;
use crate::clock::{format_utc, format_zoned, utc_time_text, zoned_time_text};
use crate::event::{Event, EventView};
use crate::format::compile::{
    compile, has_no_percent, lemma_percent_escape, lemma_text_without_codes,
};
use crate::format::{Effect, Element, ElementView, Format};
use crate::level::{ascii_lower, lemma_lower_is_lowercased_upper, Severity};
use crate::color::Color;
use crate::style::{esc, reset_sequence, Style};
use crate::text::{decimal, push_decimal};

verus! {

/// What a render pass has produced: the text written, and the style context
/// that it leaves behind.
pub struct Rendered {
    pub text: Seq<char>,
    pub style: Style,
}

/// An optional text, empty when absent.
pub open spec fn or_empty(t: Option<Seq<char>>) -> Seq<char> {
    match t {
        Some(s) => s,
        None => Seq::empty(),
    }
}

/// The source file and line of an event: the file, a colon and the line in
/// decimal; the file alone when the line is unknown; nothing when the file
/// is unknown.
pub open spec fn file_line_text(e: EventView) -> Seq<char> {
    match e.file {
        Some(f) => match e.line {
            Some(l) => f + seq![':'] + decimal(l as nat),
            None => f,
        },
        None => Seq::empty(),
    }
}

/// The text that an element other than a styled block stands for.
pub open spec fn leaf_text(el: ElementView, e: EventView) -> Seq<char> {
    match el {
        ElementView::Const(t) => t,
        ElementView::Percent => seq!['%'],
        ElementView::Close => seq!['}'],
        ElementView::Name => e.target,
        ElementView::SourceFile => or_empty(e.file),
        ElementView::SourceFileWithLine => file_line_text(e),
        ElementView::Module => or_empty(e.module),
        ElementView::Message => e.message,
        ElementView::LogLevelLower => e.level.spec_lower(),
        ElementView::LogLevelUpper => e.level.spec_upper(),
        ElementView::Time(format) => zoned_time_text(
            e.time.secs as int,
            e.time.nanos as int,
            e.time.offset as int,
            format,
        ),
        ElementView::UtcTime(format) => utc_time_text(
            e.time.secs as int,
            e.time.nanos as int,
            format,
        ),
        ElementView::Styled(_, _) => Seq::empty(),
    }
}

impl Effect {
    /// The style context while the body of a block with this effect is
    /// rendered for an event of severity `level`: the effect's channel is
    /// set, every other channel is as it was.
    pub open spec fn spec_apply(self, style: Style, level: Severity) -> Style {
        match self {
            Effect::FgColor(c) => Style { fg: Some(c), ..style },
            Effect::FgColorBranch(p) => Style { fg: Some(p.spec_select(level)), ..style },
            Effect::BgColor(c) => Style { bg: Some(c), ..style },
            Effect::BgColorBranch(p) => Style { bg: Some(p.spec_select(level)), ..style },
            Effect::Bold => Style { bold: true, ..style },
            Effect::Dimmed => Style { dim: true, ..style },
            Effect::Italic => Style { italic: true, ..style },
            Effect::Reversed => Style { reverse: true, ..style },
            Effect::Underline => Style { underline: true, ..style },
            Effect::StrikeThrough => Style { strikethrough: true, ..style },
        }
    }

    /// The style context behind a block with this effect: the effect's
    /// channel is cleared, whatever it held before the block.
    pub open spec fn spec_clear(self, style: Style) -> Style {
        match self {
            Effect::FgColor(_) => Style { fg: None, ..style },
            Effect::FgColorBranch(_) => Style { fg: None, ..style },
            Effect::BgColor(_) => Style { bg: None, ..style },
            Effect::BgColorBranch(_) => Style { bg: None, ..style },
            Effect::Bold => Style { bold: false, ..style },
            Effect::Dimmed => Style { dim: false, ..style },
            Effect::Italic => Style { italic: false, ..style },
            Effect::Reversed => Style { reverse: false, ..style },
            Effect::Underline => Style { underline: false, ..style },
            Effect::StrikeThrough => Style { strikethrough: false, ..style },
        }
    }

    /// Sets this effect's channel in `style`.
    pub fn apply(&self, style: &mut Style, level: Severity)
        ensures
            *final(style) == self.spec_apply(*old(style), level),
    {
        match self {
            Effect::FgColor(c) => {
                style.fg = Some(*c);
            },
            Effect::FgColorBranch(p) => {
                style.fg = Some(p.select(level));
            },
            Effect::BgColor(c) => {
                style.bg = Some(*c);
            },
            Effect::BgColorBranch(p) => {
                style.bg = Some(p.select(level));
            },
            Effect::Bold => {
                style.bold = true;
            },
            Effect::Dimmed => {
                style.dim = true;
            },
            Effect::Italic => {
                style.italic = true;
            },
            Effect::Reversed => {
                style.reverse = true;
            },
            Effect::Underline => {
                style.underline = true;
            },
            Effect::StrikeThrough => {
                style.strikethrough = true;
            },
        }
    }

    /// Clears this effect's channel in `style`.
    pub fn clear(&self, style: &mut Style)
        ensures
            *final(style) == self.spec_clear(*old(style)),
    {
        match self {
            Effect::FgColor(_) => {
                style.fg = None;
            },
            Effect::FgColorBranch(_) => {
                style.fg = None;
            },
            Effect::BgColor(_) => {
                style.bg = None;
            },
            Effect::BgColorBranch(_) => {
                style.bg = None;
            },
            Effect::Bold => {
                style.bold = false;
            },
            Effect::Dimmed => {
                style.dim = false;
            },
            Effect::Italic => {
                style.italic = false;
            },
            Effect::Reversed => {
                style.reverse = false;
            },
            Effect::Underline => {
                style.underline = false;
            },
            Effect::StrikeThrough => {
                style.strikethrough = false;
            },
        }
    }
}

/// What rendering `els` in order writes for the event `e`, starting under
/// the style context `style`.
pub open spec fn render_elements(
    els: Seq<ElementView>,
    e: EventView,
    style: Style,
    colorize: bool,
) -> Rendered
    decreases els,
{
    if els.len() == 0 {
        Rendered { text: Seq::empty(), style }
    } else {
        let before = render_elements(els.drop_last(), e, style, colorize);
        let last = render_element(els.last(), e, before.style, colorize);
        Rendered { text: before.text + last.text, style: last.style }
    }
}

/// What rendering one element writes. A styled block sets its channel of
/// the one style context, renders its body, and clears that channel behind
/// it: the context is not a stack, so a block inside another overwrites and
/// then clears what the outer one had set. Any other element writes its
/// text, painted in the style that is current.
pub open spec fn render_element(el: ElementView, e: EventView, style: Style, colorize: bool) -> Rendered
    decreases el,
{
    match el {
        ElementView::Styled(effect, body) => {
            let inner = render_elements(body, e, effect.spec_apply(style, e.level), colorize);
            Rendered { text: inner.text, style: effect.spec_clear(inner.style) }
        },
        _ => Rendered { text: style.spec_paint(leaf_text(el, e), colorize), style },
    }
}

/// The text that a template writes for one event. Every event starts under
/// the neutral style.
pub open spec fn render(template: Seq<ElementView>, e: EventView, colorize: bool) -> Seq<char> {
    render_elements(template, e, Style::spec_neutral(), colorize).text
}

fn file_line(event: &Event) -> (t: String)
    ensures
        t@ == file_line_text(event@),
{
    let mut t = String::new();
    match &event.file {
        Some(f) => {
            t.append(f.as_str());
            match event.line {
                Some(l) => {
                    t.push(':');
                    push_decimal(&mut t, l);
                    assert(t@ =~= f@ + seq![':'] + decimal(l as nat));
                },
                None => {
                    assert(t@ =~= f@);
                },
            }
        },
        None => {},
    }
    t
}

impl Element {
    /// Appends to `out` what this element writes for `event` under the
    /// style context `style`, and leaves in `style` the context behind it.
    pub fn write(&self, out: &mut String, event: &Event, style: &mut Style, colorize: bool)
        ensures
            final(out)@ == old(out)@ + render_element(self@, event@, *old(style), colorize).text,
            *final(style) == render_element(self@, event@, *old(style), colorize).style,
        decreases self,
    {
        proof {
            reveal_strlit("%");
            reveal_strlit("}");
            reveal_strlit("");
        }
        match self {
            Element::Const(t) => style.paint(out, t.as_str(), colorize),
            Element::Percent => {
                assert("%"@ =~= seq!['%']);
                style.paint(out, "%", colorize)
            },
            Element::Close => {
                assert("}"@ =~= seq!['}']);
                style.paint(out, "}", colorize)
            },
            Element::Name => style.paint(out, event.target.as_str(), colorize),
            Element::SourceFile => match &event.file {
                Some(f) => style.paint(out, f.as_str(), colorize),
                None => {
                    assert(""@ =~= Seq::<char>::empty());
                    style.paint(out, "", colorize)
                },
            },
            Element::SourceFileWithLine => {
                let t = file_line(event);
                style.paint(out, t.as_str(), colorize)
            },
            Element::Module => match &event.module {
                Some(m) => style.paint(out, m.as_str(), colorize),
                None => {
                    assert(""@ =~= Seq::<char>::empty());
                    style.paint(out, "", colorize)
                },
            },
            Element::Message => style.paint(out, event.message.as_str(), colorize),
            Element::LogLevelLower => style.paint(out, event.level.lower(), colorize),
            Element::LogLevelUpper => style.paint(out, event.level.upper(), colorize),
            Element::Time(format) => {
                let t = format_zoned(
                    event.time.secs,
                    event.time.nanos,
                    event.time.offset,
                    format.as_str(),
                );
                style.paint(out, t.as_str(), colorize)
            },
            Element::UtcTime(format) => {
                let t = format_utc(event.time.secs, event.time.nanos, format.as_str());
                style.paint(out, t.as_str(), colorize)
            },
            Element::Styled(effect, body) => {
                effect.apply(style, event.level);
                body.write(out, event, style, colorize);
                effect.clear(style);
            },
        }
    }
}

impl Format {
    /// Appends to `out` what this template writes for `event`, starting
    /// under the style context `style`, and leaves in `style` the context
    /// behind it.
    pub fn write(&self, out: &mut String, event: &Event, style: &mut Style, colorize: bool)
        ensures
            final(out)@ == old(out)@ + render_elements(self@, event@, *old(style), colorize).text,
            *final(style) == render_elements(self@, event@, *old(style), colorize).style,
        decreases self,
    {
        let n: usize = self.0.len();
        let mut i: usize = 0;
        assert(self@.take(0) =~= Seq::empty());
        assert(out@ =~= old(out)@ + Seq::<char>::empty());
        while i < n
            invariant
                n == self.0.len(),
                i <= n,
                out@ == old(out)@ + render_elements(
                    self@.take(i as int),
                    event@,
                    *old(style),
                    colorize,
                ).text,
                *style == render_elements(self@.take(i as int), event@, *old(style), colorize).style,
            decreases n - i,
        {
            let ghost before = render_elements(self@.take(i as int), event@, *old(style), colorize);
            let ghost last = render_element(self.0[i as int]@, event@, before.style, colorize);
            proof {
                let upto = self@.take(i + 1);
                assert(upto.drop_last() =~= self@.take(i as int));
                assert(upto.last() == self.0[i as int]@);
            }
            self.0[i].write(out, event, style, colorize);
            assert(out@ =~= old(out)@ + (before.text + last.text));
            i += 1;
        }
        assert(self@.take(n as int) =~= self@);
    }

    /// The text that this template writes for `event`, rendered under a
    /// fresh, neutral style context.
    pub fn to_str(&self, event: &Event, colorize: bool) -> (out: String)
        ensures
            out@ == render(self@, event@, colorize),
    {
        let mut out = String::new();
        let mut style = Style::neutral();
        self.write(&mut out, event, &mut style, colorize);
        assert(out@ =~= render(self@, event@, colorize));
        out
    }
}

/// What a template writes when nothing is painted: the texts of its
/// elements one after another, the bodies of styled blocks included.
pub open spec fn plain_text(els: Seq<ElementView>, e: EventView) -> Seq<char>
    decreases els,
{
    if els.len() == 0 {
        Seq::empty()
    } else {
        plain_text(els.drop_last(), e) + element_text(els.last(), e)
    }
}

/// What one element writes when nothing is painted.
pub open spec fn element_text(el: ElementView, e: EventView) -> Seq<char>
    decreases el,
{
    match el {
        ElementView::Styled(_, body) => plain_text(body, e),
        _ => leaf_text(el, e),
    }
}

/// With colors off a template writes its plain text, whatever its styled
/// blocks ask for and whatever style context it starts under: no escape
/// sequence is written.
pub proof fn lemma_colors_off_is_plain_text(els: Seq<ElementView>, e: EventView, style: Style)
    ensures
        render_elements(els, e, style, false).text == plain_text(els, e),
    decreases els,
{
    if els.len() > 0 {
        lemma_colors_off_is_plain_text(els.drop_last(), e, style);
        let before = render_elements(els.drop_last(), e, style, false);
        lemma_colors_off_element(els.last(), e, before.style);
    }
}

/// With colors off an element writes its plain text.
pub proof fn lemma_colors_off_element(el: ElementView, e: EventView, style: Style)
    ensures
        render_element(el, e, style, false).text == element_text(el, e),
    decreases el,
{
    match el {
        ElementView::Styled(effect, body) => {
            lemma_colors_off_is_plain_text(body, e, effect.spec_apply(style, e.level));
        },
        _ => {},
    }
}

/// Whether every channel of `after` is unset or as it is in `before`.
pub open spec fn fades_from(after: Style, before: Style) -> bool {
    &&& after.fg is None || after.fg == before.fg
    &&& after.bg is None || after.bg == before.bg
    &&& after.bold ==> before.bold
    &&& after.dim ==> before.dim
    &&& after.italic ==> before.italic
    &&& after.reverse ==> before.reverse
    &&& after.underline ==> before.underline
    &&& after.strikethrough ==> before.strikethrough
}

/// Rendering never leaves a channel set that was not set before: behind a
/// run of elements every channel is unset or as it was in front of it.
pub proof fn lemma_style_fades(els: Seq<ElementView>, e: EventView, style: Style, colorize: bool)
    ensures
        fades_from(render_elements(els, e, style, colorize).style, style),
    decreases els,
{
    if els.len() > 0 {
        lemma_style_fades(els.drop_last(), e, style, colorize);
        let before = render_elements(els.drop_last(), e, style, colorize);
        lemma_style_fades_element(els.last(), e, before.style, colorize);
    }
}

/// Behind one element every channel is unset or as it was in front of it.
pub proof fn lemma_style_fades_element(el: ElementView, e: EventView, style: Style, colorize: bool)
    ensures
        fades_from(render_element(el, e, style, colorize).style, style),
    decreases el,
{
    match el {
        ElementView::Styled(effect, body) => {
            lemma_style_fades(body, e, effect.spec_apply(style, e.level), colorize);
        },
        _ => {},
    }
}

/// A render pass that starts under the neutral style ends under it: no
/// color or flag leaks from one event into the next.
pub proof fn lemma_render_ends_neutral(template: Seq<ElementView>, e: EventView, colorize: bool)
    ensures
        render_elements(template, e, Style::spec_neutral(), colorize).style
            == Style::spec_neutral(),
{
    lemma_style_fades(template, e, Style::spec_neutral(), colorize);
}

/// Whether a template holds neither styled blocks nor time fields.
pub open spec fn is_plain(template: Seq<ElementView>) -> bool {
    forall|i: int|
        0 <= i < template.len() ==> !(#[trigger] template[i] is Styled || template[i] is Time
            || template[i] is UtcTime)
}

/// Whether two events agree in everything but their time.
pub open spec fn same_but_time(a: EventView, b: EventView) -> bool {
    &&& a.level == b.level
    &&& a.target == b.target
    &&& a.module == b.module
    &&& a.file == b.file
    &&& a.line == b.line
    &&& a.message == b.message
}

/// A template without styled blocks and time fields writes its plain text.
pub proof fn lemma_plain_template(template: Seq<ElementView>, e: EventView, colorize: bool)
    requires
        is_plain(template),
    ensures
        render_elements(template, e, Style::spec_neutral(), colorize).text == plain_text(
            template,
            e,
        ),
        render_elements(template, e, Style::spec_neutral(), colorize).style
            == Style::spec_neutral(),
    decreases template.len(),
{
    if template.len() > 0 {
        let front = template.drop_last();
        assert(is_plain(front)) by {
            assert forall|i: int| 0 <= i < front.len() implies !(#[trigger] front[i] is Styled
                || front[i] is Time || front[i] is UtcTime) by {
                assert(front[i] == template[i]);
            }
        }
        lemma_plain_template(front, e, colorize);
        let last = template.last();
        assert(last == template[template.len() - 1]);
        assert(!(last is Styled));
        let before = render_elements(front, e, Style::spec_neutral(), colorize);
        assert(before.style == Style::spec_neutral());
        assert(render_element(last, e, before.style, colorize).style == before.style);
        assert(render_element(last, e, before.style, colorize).text == leaf_text(last, e));
        assert(element_text(last, e) == leaf_text(last, e));
    }
}

/// The plain text of a template without time fields at its top level does
/// not depend on the time of the event.
pub proof fn lemma_plain_text_ignores_time(template: Seq<ElementView>, a: EventView, b: EventView)
    requires
        is_plain(template),
        same_but_time(a, b),
    ensures
        plain_text(template, a) == plain_text(template, b),
    decreases template.len(),
{
    if template.len() > 0 {
        let front = template.drop_last();
        assert(is_plain(front)) by {
            assert forall|i: int| 0 <= i < front.len() implies !(#[trigger] front[i] is Styled
                || front[i] is Time || front[i] is UtcTime) by {
                assert(front[i] == template[i]);
            }
        }
        lemma_plain_text_ignores_time(front, a, b);
        let last = template.last();
        assert(last == template[template.len() - 1]);
        assert(!(last is Styled || last is Time || last is UtcTime));
        assert(element_text(last, a) == leaf_text(last, a));
        assert(element_text(last, b) == leaf_text(last, b));
    }
}

/// Rendering is repeatable: a template without styled blocks and time
/// fields writes the same text for the same event every time, whenever the
/// event is rendered and whether colors are on or off.
pub proof fn lemma_plain_template_is_repeatable(
    template: Seq<ElementView>,
    first: EventView,
    second: EventView,
    first_colorize: bool,
    second_colorize: bool,
)
    requires
        is_plain(template),
        same_but_time(first, second),
    ensures
        render(template, first, first_colorize) == render(template, second, second_colorize),
{
    lemma_plain_template(template, first, first_colorize);
    lemma_plain_template(template, second, second_colorize);
    lemma_plain_text_ignores_time(template, first, second);
}

/// The level in lower case is the level in upper case, lower-cased letter
/// by letter.
pub proof fn lemma_level_cases_agree(e: EventView)
    ensures
        leaf_text(ElementView::LogLevelLower, e) == leaf_text(
            ElementView::LogLevelUpper,
            e,
        ).map_values(|c: char| ascii_lower(c)),
{
    lemma_lower_is_lowercased_upper(e.level);
}

/// The format string `%%` renders as one percent sign, whatever the event
/// and whether colors are on or off.
pub proof fn lemma_percent_renders_percent(e: EventView, colorize: bool)
    ensures
        compile("%%"@) is Ok,
        render(compile("%%"@)->Ok_0, e, colorize) == seq!['%'],
{
    lemma_percent_escape();
    let template = seq![ElementView::Percent];
    assert(is_plain(template));
    lemma_plain_template(template, e, colorize);
    assert(template.drop_last() =~= Seq::<ElementView>::empty());
    reveal_with_fuel(plain_text, 2);
    assert(plain_text(template, e) =~= seq!['%']);
}

/// With colors off, a block that colors the level by severity writes just
/// the level name, whatever the five colors are.
pub proof fn lemma_branch_without_colors(effect: Effect, e: EventView)
    ensures
        render(seq![ElementView::Styled(effect, seq![ElementView::LogLevelUpper])], e, false)
            == e.level.spec_upper(),
{
    let body = seq![ElementView::LogLevelUpper];
    let template = seq![ElementView::Styled(effect, body)];
    lemma_colors_off_is_plain_text(template, e, Style::spec_neutral());
    assert(template.drop_last() =~= Seq::<ElementView>::empty());
    assert(body.drop_last() =~= Seq::<ElementView>::empty());
    reveal_with_fuel(plain_text, 2);
    assert(plain_text(body, e) =~= e.level.spec_upper());
    assert(plain_text(template, e) =~= e.level.spec_upper());
}

/// With colors on, a foreground block around the message writes the
/// message between the sequence that selects the color and the reset
/// sequence; with colors off it writes the message alone.
pub proof fn lemma_foreground_wraps_message(color: Color, e: EventView)
    requires
        e.message.len() > 0,
    ensures
        render(seq![ElementView::Styled(Effect::FgColor(color), seq![ElementView::Message])], e, true)
            == seq![esc(), '['] + color.spec_code(true) + seq!['m'] + e.message
            + reset_sequence(),
        render(
            seq![ElementView::Styled(Effect::FgColor(color), seq![ElementView::Message])],
            e,
            false,
        ) == e.message,
{
    let effect = Effect::FgColor(color);
    let body = seq![ElementView::Message];
    let template = seq![ElementView::Styled(effect, body)];
    let inside = effect.spec_apply(Style::spec_neutral(), e.level);
    assert(template.drop_last() =~= Seq::<ElementView>::empty());
    assert(body.drop_last() =~= Seq::<ElementView>::empty());
    reveal_with_fuel(render_elements, 2);
    assert(inside.spec_params() =~= color.spec_code(true));
    assert(render_elements(body, e, inside, true).text =~= inside.spec_paint(e.message, true));
    assert(render_elements(body, e, inside, false).text =~= e.message);
    assert(render(template, e, true) =~= inside.spec_paint(e.message, true));
    assert(render(template, e, false) =~= e.message);
}

/// A format string without `%` renders as itself, whatever the event and
/// whether colors are on or off.
pub proof fn lemma_text_without_codes_renders_as_itself(
    text: Seq<char>,
    e: EventView,
    colorize: bool,
)
    requires
        has_no_percent(text),
    ensures
        compile(text) is Ok,
        render(compile(text)->Ok_0, e, colorize) == text,
{
    lemma_text_without_codes(text);
    let template = compile(text)->Ok_0;
    assert(is_plain(template));
    lemma_plain_template(template, e, colorize);
    if text.len() > 0 {
        assert(template.drop_last() =~= Seq::<ElementView>::empty());
        reveal_with_fuel(plain_text, 2);
        assert(plain_text(template, e) =~= text);
    } else {
        assert(plain_text(template, e) =~= text);
    }
}

} // verus!
