//! The template compiler: a recursive descent over the characters of a
//! format string.

use vstd::prelude::*;
use crate::color::{color_of, find_char, lemma_find_char_bounds, scan_to, spec_parse_until, Color};
use crate::error::CompileError;
use crate::format::{Effect, Element, ElementView, Format};
use crate::pallet::Pallet;
use crate::text::{range_to_string, to_chars};

verus! {

/// The views of a run of elements.
pub open spec fn views(v: Seq<Element>) -> Seq<ElementView> {
    Seq::new(v.len(), |i: int| v[i].view())
}

/// Where the literal run that holds `pos` ends: at the next `%`, at the next
/// `}` when inside a body, or at the end of the text.
pub open spec fn literal_end(s: Seq<char>, pos: int, nested: bool) -> int
    decreases s.len() - pos,
{
    if pos < 0 || pos >= s.len() {
        s.len() as int
    } else if s[pos] == '%' || (nested && s[pos] == '}') {
        pos
    } else {
        literal_end(s, pos + 1, nested)
    }
}

pub proof fn lemma_literal_end_bounds(s: Seq<char>, pos: int, nested: bool)
    requires
        0 <= pos <= s.len(),
    ensures
        pos <= literal_end(s, pos, nested) <= s.len(),
    decreases s.len() - pos,
{
    if pos < s.len() && !(s[pos] == '%' || (nested && s[pos] == '}')) {
        lemma_literal_end_bounds(s, pos + 1, nested);
    }
}

/// The first index at or after `pos` that holds `)` or `,`, or the length
/// of `s` when there is none.
pub open spec fn find_color_end(s: Seq<char>, pos: int) -> int
    decreases s.len() - pos,
{
    if pos < 0 || pos >= s.len() {
        s.len() as int
    } else if s[pos] == ')' || s[pos] == ',' {
        pos
    } else {
        find_color_end(s, pos + 1)
    }
}

pub proof fn lemma_find_color_end_bounds(s: Seq<char>, pos: int)
    requires
        0 <= pos <= s.len(),
    ensures
        pos <= find_color_end(s, pos) <= s.len(),
    decreases s.len() - pos,
{
    if pos < s.len() && !(s[pos] == ')' || s[pos] == ',') {
        lemma_find_color_end_bounds(s, pos + 1);
    }
}

/// What parsing gives: the value and the position behind what was read, or
/// the first error.
pub type Parsed<T> = Result<(T, int), CompileError>;

/// `rest` with `el` put in front of its elements.
pub open spec fn prepend(el: ElementView, rest: Parsed<Seq<ElementView>>) -> Parsed<
    Seq<ElementView>,
> {
    match rest {
        Ok((els, end)) => Ok((seq![el] + els, end)),
        Err(e) => Err(e),
    }
}

/// `rest` with all of `acc` put in front of its elements.
pub open spec fn prepend_all(acc: Seq<ElementView>, rest: Parsed<Seq<ElementView>>) -> Parsed<
    Seq<ElementView>,
> {
    match rest {
        Ok((els, end)) => Ok((acc + els, end)),
        Err(e) => Err(e),
    }
}

/// The effect of a code that takes a body and no argument.
pub open spec fn flag_effect(c: char) -> Option<Effect> {
    if c == 'b' {
        Some(Effect::Bold)
    } else if c == 'd' {
        Some(Effect::Dimmed)
    } else if c == 'i' {
        Some(Effect::Italic)
    } else if c == 'r' {
        Some(Effect::Reversed)
    } else if c == 'u' {
        Some(Effect::Underline)
    } else if c == 's' {
        Some(Effect::StrikeThrough)
    } else {
        None
    }
}

/// The element of a code that takes neither argument nor body.
pub open spec fn plain_code(c: char) -> Option<ElementView> {
    if c == '%' {
        Some(ElementView::Percent)
    } else if c == '}' {
        Some(ElementView::Close)
    } else if c == 'N' {
        Some(ElementView::Name)
    } else if c == 'f' {
        Some(ElementView::SourceFile)
    } else if c == 'S' {
        Some(ElementView::SourceFileWithLine)
    } else if c == 'm' {
        Some(ElementView::Module)
    } else if c == 'M' {
        Some(ElementView::Message)
    } else if c == 'l' {
        Some(ElementView::LogLevelLower)
    } else if c == 'L' {
        Some(ElementView::LogLevelUpper)
    } else {
        None
    }
}

/// The time field whose `(` is expected at `pos`: the time format runs up to
/// the next `)` and is taken as it stands.
pub open spec fn parse_time(s: Seq<char>, pos: int, utc: bool) -> Parsed<ElementView> {
    if pos < 0 || pos >= s.len() || s[pos] != '(' {
        Err(CompileError::MissingArgument)
    } else {
        let close = find_char(s, pos + 1, ')');
        if close >= s.len() {
            Err(CompileError::UnexpectedEnd)
        } else if utc {
            Ok((ElementView::UtcTime(s.subrange(pos + 1, close)), close + 1))
        } else {
            Ok((ElementView::Time(s.subrange(pos + 1, close)), close + 1))
        }
    }
}

/// The effect of one color on the foreground or on the background.
pub open spec fn color_effect(fg: bool, color: Color) -> Effect {
    if fg {
        Effect::FgColor(color)
    } else {
        Effect::BgColor(color)
    }
}

/// The effect of one color per severity on the foreground or on the background.
pub open spec fn branch_effect(fg: bool, pallet: Pallet) -> Effect {
    if fg {
        Effect::FgColorBranch(pallet)
    } else {
        Effect::BgColorBranch(pallet)
    }
}

/// The four colors that follow the first comma of a five-color argument:
/// three closed by a comma each, the last by `)`.
pub open spec fn parse_branch(s: Seq<char>, pos: int, fg: bool, error: Color) -> Parsed<Effect> {
    match spec_parse_until(s, pos, ',') {
        Err(e) => Err(e),
        Ok((warn, at_info)) => match spec_parse_until(s, at_info, ',') {
            Err(e) => Err(e),
            Ok((info, at_debug)) => match spec_parse_until(s, at_debug, ',') {
                Err(e) => Err(e),
                Ok((debug, at_trace)) => match spec_parse_until(s, at_trace, ')') {
                    Err(e) => Err(e),
                    Ok((trace, behind)) => Ok(
                        (branch_effect(fg, Pallet { error, warn, info, debug, trace }), behind),
                    ),
                },
            },
        },
    }
}

/// The color argument whose `(` is expected at `pos`: one color, or five
/// separated by commas, in the order error, warn, info, debug, trace.
pub open spec fn parse_colors(s: Seq<char>, pos: int, fg: bool) -> Parsed<Effect> {
    if pos < 0 || pos >= s.len() || s[pos] != '(' {
        Err(CompileError::MissingArgument)
    } else {
        let end = find_color_end(s, pos + 1);
        if end >= s.len() {
            Err(CompileError::UnexpectedEnd)
        } else {
            match color_of(s.subrange(pos + 1, end)) {
                None => Err(CompileError::InvalidColor),
                Some(first) => if s[end] == ')' {
                    Ok((color_effect(fg, first), end + 1))
                } else {
                    parse_branch(s, end + 1, fg, first)
                },
            }
        }
    }
}

pub proof fn lemma_parse_colors_bounds(s: Seq<char>, pos: int, fg: bool)
    requires
        0 <= pos <= s.len(),
    ensures
        parse_colors(s, pos, fg) is Ok ==> pos < parse_colors(s, pos, fg)->Ok_0.1 <= s.len(),
{
    if pos < s.len() && s[pos] == '(' {
        let end = find_color_end(s, pos + 1);
        lemma_find_color_end_bounds(s, pos + 1);
        if end < s.len() && color_of(s.subrange(pos + 1, end)) is Some && s[end] != ')' {
            let at_warn = end + 1;
            lemma_find_char_bounds(s, at_warn, ',');
            if spec_parse_until(s, at_warn, ',') is Ok {
                let at_info = spec_parse_until(s, at_warn, ',')->Ok_0.1;
                lemma_find_char_bounds(s, at_info, ',');
                if spec_parse_until(s, at_info, ',') is Ok {
                    let at_debug = spec_parse_until(s, at_info, ',')->Ok_0.1;
                    lemma_find_char_bounds(s, at_debug, ',');
                    if spec_parse_until(s, at_debug, ',') is Ok {
                        let at_trace = spec_parse_until(s, at_debug, ',')->Ok_0.1;
                        lemma_find_char_bounds(s, at_trace, ')');
                    }
                }
            }
        }
    }
}

/// The elements that start at `pos`. At the top level (`nested` false) they
/// run to the end of the text. Inside a body they run to the closing `}`,
/// which is stepped over; the text ending first is an error. A `%`
/// introduces a code; every other character is literal text, and a run of
/// them is one `Const`.
///
/// The test on `next` only serves the termination measure: by
/// `lemma_special_advances` a code always ends behind its `%` and within
/// the text.
pub open spec fn parse_elements(s: Seq<char>, pos: int, nested: bool) -> Parsed<Seq<ElementView>>
    decreases s.len() - pos,
{
    if pos < 0 || pos >= s.len() {
        if nested {
            Err(CompileError::UnexpectedEnd)
        } else {
            Ok((Seq::empty(), pos))
        }
    } else if s[pos] == '%' {
        match parse_special(s, pos + 1) {
            Err(e) => Err(e),
            Ok((el, next)) => if pos < next <= s.len() {
                prepend(el, parse_elements(s, next, nested))
            } else {
                Err(CompileError::UnexpectedEnd)
            },
        }
    } else if nested && s[pos] == '}' {
        Ok((Seq::empty(), pos + 1))
    } else {
        let end = literal_end(s, pos + 1, nested);
        proof {
            lemma_literal_end_bounds(s, pos + 1, nested);
        }
        prepend(ElementView::Const(s.subrange(pos, end)), parse_elements(s, end, nested))
    }
}

/// The code whose character stands at `pos`, just behind a `%`.
pub open spec fn parse_special(s: Seq<char>, pos: int) -> Parsed<ElementView>
    decreases s.len() - pos,
{
    if pos < 0 || pos >= s.len() {
        Err(CompileError::UnexpectedEnd)
    } else {
        let c = s[pos];
        if plain_code(c) is Some {
            Ok((plain_code(c)->0, pos + 1))
        } else if c == 'T' {
            parse_time(s, pos + 1, false)
        } else if c == 'U' {
            parse_time(s, pos + 1, true)
        } else if c == 'F' || c == 'B' {
            match parse_colors(s, pos + 1, c == 'F') {
                Err(e) => Err(e),
                Ok((effect, open)) => {
                    proof {
                        lemma_parse_colors_bounds(s, pos + 1, c == 'F');
                    }
                    parse_block(s, open, effect)
                },
            }
        } else if flag_effect(c) is Some {
            parse_block(s, pos + 1, flag_effect(c)->0)
        } else {
            Err(CompileError::UnknownSpecifier(c))
        }
    }
}

/// The styled block whose `{` is expected at `open`.
pub open spec fn parse_block(s: Seq<char>, open: int, effect: Effect) -> Parsed<ElementView>
    decreases s.len() - open,
{
    if open < 0 || open >= s.len() || s[open] != '{' {
        Err(CompileError::MissingBody)
    } else {
        match parse_elements(s, open + 1, true) {
            Ok((body, end)) => Ok((ElementView::Styled(effect, body), end)),
            Err(e) => Err(e),
        }
    }
}

/// The template that a format string compiles to, or why it is rejected.
pub open spec fn compile(text: Seq<char>) -> Result<Seq<ElementView>, CompileError> {
    match parse_elements(text, 0, false) {
        Ok((els, _)) => Ok(els),
        Err(e) => Err(e),
    }
}

/// Whether what the compiler returned for an element is what `m` says.
pub open spec fn element_parsed(r: Result<(Element, usize), CompileError>, m: Parsed<ElementView>) -> bool {
    match r {
        Ok((el, next)) => m == Ok::<(ElementView, int), CompileError>((el@, next as int)),
        Err(e) => m == Err::<(ElementView, int), CompileError>(e),
    }
}

/// Whether what the compiler returned for a run of elements is what `m` says.
pub open spec fn format_parsed(
    r: Result<(Format, usize), CompileError>,
    m: Parsed<Seq<ElementView>>,
) -> bool {
    match r {
        Ok((f, next)) => m == Ok::<(Seq<ElementView>, int), CompileError>((f@, next as int)),
        Err(e) => m == Err::<(Seq<ElementView>, int), CompileError>(e),
    }
}

/// Whether what the compiler returned for a color argument is what `m` says.
pub open spec fn effect_parsed(r: Result<(Effect, usize), CompileError>, m: Parsed<Effect>) -> bool {
    match r {
        Ok((effect, next)) => m == Ok::<(Effect, int), CompileError>((effect, next as int)),
        Err(e) => m == Err::<(Effect, int), CompileError>(e),
    }
}

proof fn lemma_prepend_push(acc: Seq<ElementView>, el: ElementView, rest: Parsed<Seq<ElementView>>)
    ensures
        prepend_all(acc, prepend(el, rest)) == prepend_all(acc.push(el), rest),
{
    match rest {
        Ok((els, end)) => {
            assert(acc + (seq![el] + els) =~= acc.push(el) + els);
        },
        Err(e) => {},
    }
}

proof fn lemma_views_push(v: Seq<Element>, el: Element)
    ensures
        views(v.push(el)) == views(v).push(el@),
{
    assert(views(v.push(el)) =~= views(v).push(el@));
}

proof fn lemma_format_view(f: Format)
    ensures
        f@ == views(f.0@),
{
    assert(f@ =~= views(f.0@));
}

fn scan_literal(s: &Vec<char>, pos: usize, nested: bool) -> (end: usize)
    requires
        pos <= s.len(),
    ensures
        end == literal_end(s@, pos as int, nested),
        pos <= end <= s.len(),
{
    let mut i: usize = pos;
    while i < s.len() && !(s[i] == '%' || (nested && s[i] == '}'))
        invariant
            pos <= i <= s.len(),
            literal_end(s@, pos as int, nested) == literal_end(s@, i as int, nested),
        decreases s.len() - i,
    {
        i += 1;
    }
    i
}

fn scan_color_end(s: &Vec<char>, pos: usize) -> (end: usize)
    requires
        pos <= s.len(),
    ensures
        end == find_color_end(s@, pos as int),
        pos <= end <= s.len(),
{
    let mut i: usize = pos;
    while i < s.len() && !(s[i] == ')' || s[i] == ',')
        invariant
            pos <= i <= s.len(),
            find_color_end(s@, pos as int) == find_color_end(s@, i as int),
        decreases s.len() - i,
    {
        i += 1;
    }
    i
}

fn plain_element(c: char) -> (r: Option<Element>)
    ensures
        match r {
            Some(el) => plain_code(c) == Some(el@),
            None => plain_code(c) is None,
        },
{
    if c == '%' {
        Some(Element::Percent)
    } else if c == '}' {
        Some(Element::Close)
    } else if c == 'N' {
        Some(Element::Name)
    } else if c == 'f' {
        Some(Element::SourceFile)
    } else if c == 'S' {
        Some(Element::SourceFileWithLine)
    } else if c == 'm' {
        Some(Element::Module)
    } else if c == 'M' {
        Some(Element::Message)
    } else if c == 'l' {
        Some(Element::LogLevelLower)
    } else if c == 'L' {
        Some(Element::LogLevelUpper)
    } else {
        None
    }
}

fn flag(c: char) -> (r: Option<Effect>)
    ensures
        r == flag_effect(c),
{
    if c == 'b' {
        Some(Effect::Bold)
    } else if c == 'd' {
        Some(Effect::Dimmed)
    } else if c == 'i' {
        Some(Effect::Italic)
    } else if c == 'r' {
        Some(Effect::Reversed)
    } else if c == 'u' {
        Some(Effect::Underline)
    } else if c == 's' {
        Some(Effect::StrikeThrough)
    } else {
        None
    }
}

fn time_element(s: &Vec<char>, pos: usize, utc: bool) -> (r: Result<(Element, usize), CompileError>)
    requires
        pos <= s.len(),
    ensures
        element_parsed(r, parse_time(s@, pos as int, utc)),
        r is Ok ==> pos < r->Ok_0.1 <= s.len(),
{
    if pos >= s.len() || s[pos] != '(' {
        return Err(CompileError::MissingArgument);
    }
    let close = scan_to(s, pos + 1, ')');
    if close >= s.len() {
        return Err(CompileError::UnexpectedEnd);
    }
    let format = range_to_string(s, pos + 1, close);
    if utc {
        Ok((Element::UtcTime(format), close + 1))
    } else {
        Ok((Element::Time(format), close + 1))
    }
}

fn branch(s: &Vec<char>, pos: usize, fg: bool, error: Color) -> (r: Result<
    (Effect, usize),
    CompileError,
>)
    requires
        pos <= s.len(),
    ensures
        effect_parsed(r, parse_branch(s@, pos as int, fg, error)),
        r is Ok ==> pos < r->Ok_0.1 <= s.len(),
{
    let (warn, at_info) = match Color::parse_until(s, pos, ',') {
        Ok(found) => found,
        Err(e) => return Err(e),
    };
    let (info, at_debug) = match Color::parse_until(s, at_info, ',') {
        Ok(found) => found,
        Err(e) => return Err(e),
    };
    let (debug, at_trace) = match Color::parse_until(s, at_debug, ',') {
        Ok(found) => found,
        Err(e) => return Err(e),
    };
    let (trace, behind) = match Color::parse_until(s, at_trace, ')') {
        Ok(found) => found,
        Err(e) => return Err(e),
    };
    let pallet = Pallet { error, warn, info, debug, trace };
    if fg {
        Ok((Effect::FgColorBranch(pallet), behind))
    } else {
        Ok((Effect::BgColorBranch(pallet), behind))
    }
}

fn colors(s: &Vec<char>, pos: usize, fg: bool) -> (r: Result<(Effect, usize), CompileError>)
    requires
        pos <= s.len(),
    ensures
        effect_parsed(r, parse_colors(s@, pos as int, fg)),
        r is Ok ==> pos < r->Ok_0.1 <= s.len(),
{
    if pos >= s.len() || s[pos] != '(' {
        return Err(CompileError::MissingArgument);
    }
    let end = scan_color_end(s, pos + 1);
    if end >= s.len() {
        return Err(CompileError::UnexpectedEnd);
    }
    let first = match Color::from_chars(s, pos + 1, end) {
        Ok(c) => c,
        Err(e) => return Err(e),
    };
    if s[end] == ')' {
        if fg {
            Ok((Effect::FgColor(first), end + 1))
        } else {
            Ok((Effect::BgColor(first), end + 1))
        }
    } else {
        branch(s, end + 1, fg, first)
    }
}

fn block(s: &Vec<char>, open: usize, effect: Effect) -> (r: Result<(Element, usize), CompileError>)
    requires
        open <= s.len(),
    ensures
        element_parsed(r, parse_block(s@, open as int, effect)),
        r is Ok ==> open < r->Ok_0.1 <= s.len(),
    decreases s.len() - open,
{
    if open >= s.len() || s[open] != '{' {
        return Err(CompileError::MissingBody);
    }
    match run(s, open + 1, true) {
        Ok((body, end)) => Ok((Element::Styled(effect, body), end)),
        Err(e) => Err(e),
    }
}

fn run(s: &Vec<char>, start: usize, nested: bool) -> (r: Result<(Format, usize), CompileError>)
    requires
        start <= s.len(),
    ensures
        format_parsed(r, parse_elements(s@, start as int, nested)),
        r is Ok ==> start <= r->Ok_0.1 <= s.len(),
        r is Ok && nested ==> start < r->Ok_0.1,
    decreases s.len() - start,
{
    let mut res: Vec<Element> = Vec::new();
    let mut pos: usize = start;
    assert(views(res@) =~= Seq::empty());
    assert(prepend_all(views(res@), parse_elements(s@, pos as int, nested)) == parse_elements(
        s@,
        start as int,
        nested,
    )) by {
        match parse_elements(s@, pos as int, nested) {
            Ok((els, end)) => {
                assert(Seq::<ElementView>::empty() + els =~= els);
            },
            Err(e) => {},
        }
    }
    loop
        invariant
            start <= pos <= s.len(),
            parse_elements(s@, start as int, nested) == prepend_all(
                views(res@),
                parse_elements(s@, pos as int, nested),
            ),
        decreases s.len() - pos,
    {
        if pos >= s.len() {
            if nested {
                return Err(CompileError::UnexpectedEnd);
            }
            proof {
                lemma_format_view(Format(res));
                assert(views(res@) + Seq::<ElementView>::empty() =~= views(res@));
            }
            return Ok((Format(res), pos));
        }
        let c = s[pos];
        if c == '%' {
            match Element::parse(s, pos + 1) {
                Err(e) => {
                    return Err(e);
                },
                Ok((el, next)) => {
                    proof {
                        lemma_prepend_push(
                            views(res@),
                            el@,
                            parse_elements(s@, next as int, nested),
                        );
                        lemma_views_push(res@, el);
                    }
                    res.push(el);
                    pos = next;
                },
            }
        } else if nested && c == '}' {
            proof {
                lemma_format_view(Format(res));
                assert(views(res@) + Seq::<ElementView>::empty() =~= views(res@));
            }
            return Ok((Format(res), pos + 1));
        } else {
            let end = scan_literal(s, pos + 1, nested);
            let el = Element::Const(range_to_string(s, pos, end));
            proof {
                lemma_prepend_push(views(res@), el@, parse_elements(s@, end as int, nested));
                lemma_views_push(res@, el);
            }
            res.push(el);
            pos = end;
        }
    }
}

impl Element {
    /// Compiles the code whose character stands at `pos`, just behind a `%`.
    /// Returns the element and the position behind the code.
    pub fn parse(s: &Vec<char>, pos: usize) -> (r: Result<(Element, usize), CompileError>)
        ensures
            element_parsed(r, parse_special(s@, pos as int)),
            r is Ok ==> pos < r->Ok_0.1 <= s.len(),
        decreases s.len() - pos,
    {
        if pos >= s.len() {
            return Err(CompileError::UnexpectedEnd);
        }
        let c = s[pos];
        match plain_element(c) {
            Some(el) => {
                return Ok((el, pos + 1));
            },
            None => {},
        }
        if c == 'T' {
            time_element(s, pos + 1, false)
        } else if c == 'U' {
            time_element(s, pos + 1, true)
        } else if c == 'F' || c == 'B' {
            match colors(s, pos + 1, c == 'F') {
                Err(e) => Err(e),
                Ok((effect, open)) => block(s, open, effect),
            }
        } else {
            match flag(c) {
                Some(effect) => block(s, pos + 1, effect),
                None => Err(CompileError::UnknownSpecifier(c)),
            }
        }
    }
}

impl Format {
    /// Compiles the body of a styled block that starts at `pos`, up to and
    /// including its closing `}`. Returns the body and the position behind
    /// the brace.
    pub fn parse_until(s: &Vec<char>, pos: usize) -> (r: Result<(Format, usize), CompileError>)
        ensures
            format_parsed(r, parse_elements(s@, pos as int, true)),
            r is Ok ==> pos < r->Ok_0.1 <= s.len(),
    {
        if pos >= s.len() {
            return Err(CompileError::UnexpectedEnd);
        }
        run(s, pos, true)
    }

    /// Compiles a whole template from its characters.
    pub fn parse(s: &Vec<char>) -> (r: Result<Format, CompileError>)
        ensures
            match r {
                Ok(f) => compile(s@) == Ok::<Seq<ElementView>, CompileError>(f@),
                Err(e) => compile(s@) == Err::<Seq<ElementView>, CompileError>(e),
            },
    {
        match run(s, 0, false) {
            Ok((f, _)) => Ok(f),
            Err(e) => Err(e),
        }
    }

    /// Compiles a format string. The whole string is accepted or rejected:
    /// the result is the template that `compile` describes, or its error.
    pub fn new(s: &str) -> (r: Result<Format, CompileError>)
        ensures
            match r {
                Ok(f) => compile(s@) == Ok::<Seq<ElementView>, CompileError>(f@),
                Err(e) => compile(s@) == Err::<Seq<ElementView>, CompileError>(e),
            },
    {
        let chars = to_chars(s);
        Format::parse(&chars)
    }
}

/// A run of elements is accepted only as a whole. At the top level it ends
/// with the text: nothing is left over. A body ends just behind a `}`: a
/// body that is never closed is rejected, not cut short.
pub proof fn lemma_elements_end(s: Seq<char>, pos: int, nested: bool)
    requires
        0 <= pos <= s.len(),
    ensures
        match parse_elements(s, pos, nested) {
            Ok((_, end)) => if nested {
                pos < end <= s.len() && s[end - 1] == '}'
            } else {
                end == s.len()
            },
            Err(_) => true,
        },
    decreases s.len() - pos,
{
    if pos < s.len() {
        if s[pos] == '%' {
            match parse_special(s, pos + 1) {
                Ok((_, next)) => {
                    if pos < next <= s.len() {
                        lemma_elements_end(s, next, nested);
                    }
                },
                Err(_) => {},
            }
        } else if !(nested && s[pos] == '}') {
            lemma_literal_end_bounds(s, pos + 1, nested);
            lemma_elements_end(s, literal_end(s, pos + 1, nested), nested);
        }
    }
}

/// A code ends behind its first character and within the text.
pub proof fn lemma_special_advances(s: Seq<char>, pos: int)
    requires
        0 <= pos <= s.len(),
    ensures
        match parse_special(s, pos) {
            Ok((_, next)) => pos < next <= s.len(),
            Err(_) => true,
        },
{
    if pos < s.len() {
        let c = s[pos];
        if plain_code(c) is Some {
        } else if c == 'T' || c == 'U' {
            if pos + 1 < s.len() {
                lemma_find_char_bounds(s, pos + 2, ')');
            }
        } else if c == 'F' || c == 'B' {
            lemma_parse_colors_bounds(s, pos + 1, c == 'F');
            match parse_colors(s, pos + 1, c == 'F') {
                Ok((_, open)) => {
                    if open < s.len() {
                        lemma_elements_end(s, open + 1, true);
                    }
                },
                Err(_) => {},
            }
        } else if flag_effect(c) is Some {
            if pos + 1 < s.len() {
                lemma_elements_end(s, pos + 2, true);
            }
        }
    }
}

/// A template that compiles has used up its whole format string.
pub proof fn lemma_compile_reads_everything(text: Seq<char>)
    ensures
        compile(text) is Ok ==> parse_elements(text, 0, false) is Ok && parse_elements(
            text,
            0,
            false,
        )->Ok_0.1 == text.len(),
{
    lemma_elements_end(text, 0, false);
}

/// The format string `%%` compiles to the one element that stands for a
/// percent sign.
pub proof fn lemma_percent_escape()
    ensures
        compile("%%"@) == Ok::<Seq<ElementView>, CompileError>(seq![ElementView::Percent]),
{
    reveal_strlit("%%");
    let s = "%%"@;
    reveal_with_fuel(parse_elements, 3);
    assert(parse_special(s, 1) == Ok::<(ElementView, int), CompileError>(
        (ElementView::Percent, 2),
    ));
    assert(parse_elements(s, 2, false) == Ok::<(Seq<ElementView>, int), CompileError>(
        (Seq::empty(), 2),
    ));
    assert(seq![ElementView::Percent] + Seq::<ElementView>::empty() =~= seq![
        ElementView::Percent,
    ]);
}

/// Whether a text holds no `%`.
pub open spec fn has_no_percent(text: Seq<char>) -> bool {
    forall|i: int| 0 <= i < text.len() ==> text[i] != '%'
}

proof fn lemma_literal_runs_to_the_end(s: Seq<char>, pos: int)
    requires
        has_no_percent(s),
        0 <= pos <= s.len(),
    ensures
        literal_end(s, pos, false) == s.len(),
    decreases s.len() - pos,
{
    if pos < s.len() {
        lemma_literal_runs_to_the_end(s, pos + 1);
    }
}

/// A format string without `%` compiles to itself as one piece of literal
/// text, and the empty string to the empty template.
pub proof fn lemma_text_without_codes(text: Seq<char>)
    requires
        has_no_percent(text),
    ensures
        compile(text) == Ok::<Seq<ElementView>, CompileError>(
            if text.len() == 0 {
                Seq::empty()
            } else {
                seq![ElementView::Const(text)]
            },
        ),
{
    if text.len() > 0 {
        let n = text.len() as int;
        lemma_literal_runs_to_the_end(text, 1);
        assert(text[0] != '%');
        assert(text.subrange(0, n) =~= text);
        assert(parse_elements(text, n, false) == Ok::<(Seq<ElementView>, int), CompileError>(
            (Seq::empty(), n),
        ));
        assert(parse_elements(text, 0, false) == prepend(
            ElementView::Const(text.subrange(0, n)),
            parse_elements(text, n, false),
        ));
        assert(seq![ElementView::Const(text)] + Seq::<ElementView>::empty() =~= seq![
            ElementView::Const(text),
        ]);
    }
}

} // verus!
