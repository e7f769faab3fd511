//! A few format strings worked out in full: what they compile to and what
//! they write, for every event.

use vstd::prelude::*;
use crate::color::{color_of, find_char, hex_byte, hex_value, spec_parse_until, Color, Tint};
use crate::error::CompileError;
use crate::event::EventView;
use crate::format::compile::{
    compile, find_color_end, literal_end, parse_block, parse_colors, parse_elements,
    parse_special,
};
use crate::format::render::{
    is_plain, lemma_branch_without_colors, lemma_foreground_wraps_message, lemma_plain_template,
    plain_text, render,
};
use crate::format::{Effect, ElementView};
use crate::pallet::Pallet;
use crate::style::{esc, reset_sequence};
use crate::text::decimal;

verus! {

/// `[%L] %M` and a line feed writes the upper-case level in brackets, a
/// space, the message, and a line feed.
pub proof fn lemma_bracketed_level_and_message(e: EventView, colorize: bool)
    ensures
        compile("[%L] %M\n"@) is Ok,
        render(compile("[%L] %M\n"@)->Ok_0, e, colorize) == seq!['['] + e.level.spec_upper()
            + seq![']', ' '] + e.message + seq!['\n'],
{
    reveal_strlit("[%L] %M\n");
    let s = "[%L] %M\n"@;
    let template = seq![
        ElementView::Const(seq!['[']),
        ElementView::LogLevelUpper,
        ElementView::Const(seq![']', ' ']),
        ElementView::Message,
        ElementView::Const(seq!['\n']),
    ];
    reveal_with_fuel(literal_end, 3);
    assert(parse_elements(s, 8, false) == Ok::<(Seq<ElementView>, int), CompileError>(
        (Seq::empty(), 8),
    ));
    assert(s.subrange(7, 8) =~= seq!['\n']);
    assert(parse_elements(s, 7, false) == Ok::<(Seq<ElementView>, int), CompileError>(
        (template.subrange(4, 5), 8),
    )) by {
        assert(seq![ElementView::Const(seq!['\n'])] + Seq::<ElementView>::empty()
            =~= template.subrange(4, 5));
    }
    assert(parse_special(s, 6) == Ok::<(ElementView, int), CompileError>(
        (ElementView::Message, 7),
    ));
    assert(parse_elements(s, 5, false) == Ok::<(Seq<ElementView>, int), CompileError>(
        (template.subrange(3, 5), 8),
    )) by {
        assert(seq![ElementView::Message] + template.subrange(4, 5) =~= template.subrange(3, 5));
    }
    assert(s.subrange(3, 5) =~= seq![']', ' ']);
    assert(parse_elements(s, 3, false) == Ok::<(Seq<ElementView>, int), CompileError>(
        (template.subrange(2, 5), 8),
    )) by {
        assert(seq![ElementView::Const(seq![']', ' '])] + template.subrange(3, 5)
            =~= template.subrange(2, 5));
    }
    assert(parse_special(s, 2) == Ok::<(ElementView, int), CompileError>(
        (ElementView::LogLevelUpper, 3),
    ));
    assert(parse_elements(s, 1, false) == Ok::<(Seq<ElementView>, int), CompileError>(
        (template.subrange(1, 5), 8),
    )) by {
        assert(seq![ElementView::LogLevelUpper] + template.subrange(2, 5) =~= template.subrange(
            1,
            5,
        ));
    }
    assert(s.subrange(0, 1) =~= seq!['[']);
    assert(parse_elements(s, 0, false) == Ok::<(Seq<ElementView>, int), CompileError>(
        (template, 8),
    )) by {
        assert(seq![ElementView::Const(seq!['['])] + template.subrange(1, 5) =~= template);
    }
    assert(is_plain(template));
    lemma_plain_template(template, e, colorize);
    let t4 = template.drop_last();
    let t3 = t4.drop_last();
    let t2 = t3.drop_last();
    let t1 = t2.drop_last();
    assert(t1.drop_last() =~= Seq::<ElementView>::empty());
    reveal_with_fuel(plain_text, 6);
    assert(plain_text(t1, e) =~= seq!['[']);
    assert(plain_text(t2, e) =~= seq!['['] + e.level.spec_upper());
    assert(plain_text(t3, e) =~= seq!['['] + e.level.spec_upper() + seq![']', ' ']);
    assert(plain_text(t4, e) =~= seq!['['] + e.level.spec_upper() + seq![']', ' '] + e.message);
    assert(plain_text(template, e) =~= seq!['['] + e.level.spec_upper() + seq![']', ' ']
        + e.message + seq!['\n']);
}

/// The five colors of the format string below.
pub open spec fn level_colors() -> Pallet {
    Pallet {
        error: Color(Tint::Red),
        warn: Color(Tint::Yellow),
        info: Color(Tint::Green),
        debug: Color(Tint::Cyan),
        trace: Color(Tint::Blue),
    }
}

proof fn lemma_level_color_names(s: Seq<char>)
    requires
        s == "%F(red,yellow,green,cyan,blue){%L}"@,
    ensures
        color_of(s.subrange(3, 6)) == Some(Color(Tint::Red)),
        color_of(s.subrange(7, 13)) == Some(Color(Tint::Yellow)),
        color_of(s.subrange(14, 19)) == Some(Color(Tint::Green)),
        color_of(s.subrange(20, 24)) == Some(Color(Tint::Cyan)),
        color_of(s.subrange(25, 29)) == Some(Color(Tint::Blue)),
{
    reveal_strlit("%F(red,yellow,green,cyan,blue){%L}");
    reveal_strlit("black");
    reveal_strlit("red");
    reveal_strlit("green");
    reveal_strlit("yellow");
    reveal_strlit("blue");
    reveal_strlit("magenta");
    reveal_strlit("purple");
    reveal_strlit("cyan");
    assert(s.subrange(3, 6) =~= "red"@);
    assert(s.subrange(7, 13) =~= "yellow"@);
    assert(s.subrange(14, 19) =~= "green"@);
    assert(s.subrange(20, 24) =~= "cyan"@);
    assert(s.subrange(25, 29) =~= "blue"@);
    assert("green"@[0] != "black"@[0]);
    assert("cyan"@[0] != "blue"@[0]);
}

proof fn lemma_level_color_argument(s: Seq<char>)
    requires
        s == "%F(red,yellow,green,cyan,blue){%L}"@,
    ensures
        parse_colors(s, 2, true) == Ok::<(Effect, int), CompileError>(
            (Effect::FgColorBranch(level_colors()), 30),
        ),
{
    reveal_strlit("%F(red,yellow,green,cyan,blue){%L}");
    lemma_level_color_names(s);
    reveal_with_fuel(find_color_end, 5);
    reveal_with_fuel(find_char, 8);
    assert(find_color_end(s, 3) == 6);
    assert(find_char(s, 7, ',') == 13);
    assert(find_char(s, 14, ',') == 19);
    assert(find_char(s, 20, ',') == 24);
    assert(find_char(s, 25, ')') == 29);
    assert(spec_parse_until(s, 7, ',') == Ok::<(Color, int), CompileError>(
        (Color(Tint::Yellow), 14),
    ));
    assert(spec_parse_until(s, 14, ',') == Ok::<(Color, int), CompileError>(
        (Color(Tint::Green), 20),
    ));
    assert(spec_parse_until(s, 20, ',') == Ok::<(Color, int), CompileError>(
        (Color(Tint::Cyan), 25),
    ));
    assert(spec_parse_until(s, 25, ')') == Ok::<(Color, int), CompileError>(
        (Color(Tint::Blue), 30),
    ));
}

/// With colors off, a level colored by severity is written as the level
/// name alone, for every severity.
pub proof fn lemma_colored_level_without_colors(e: EventView)
    ensures
        compile("%F(red,yellow,green,cyan,blue){%L}"@) == Ok::<Seq<ElementView>, CompileError>(
            seq![
                ElementView::Styled(
                    Effect::FgColorBranch(level_colors()),
                    seq![ElementView::LogLevelUpper],
                ),
            ],
        ),
        render(compile("%F(red,yellow,green,cyan,blue){%L}"@)->Ok_0, e, false)
            == e.level.spec_upper(),
{
    reveal_strlit("%F(red,yellow,green,cyan,blue){%L}");
    let s = "%F(red,yellow,green,cyan,blue){%L}"@;
    lemma_level_color_argument(s);
    let effect = Effect::FgColorBranch(level_colors());
    let body = seq![ElementView::LogLevelUpper];
    assert(parse_elements(s, 33, true) == Ok::<(Seq<ElementView>, int), CompileError>(
        (Seq::empty(), 34),
    ));
    assert(parse_special(s, 32) == Ok::<(ElementView, int), CompileError>(
        (ElementView::LogLevelUpper, 33),
    ));
    assert(parse_elements(s, 31, true) == Ok::<(Seq<ElementView>, int), CompileError>(
        (body, 34),
    )) by {
        assert(seq![ElementView::LogLevelUpper] + Seq::<ElementView>::empty() =~= body);
    }
    let block = ElementView::Styled(effect, body);
    assert(parse_block(s, 30, effect) == Ok::<(ElementView, int), CompileError>((block, 34)));
    assert(parse_special(s, 1) == Ok::<(ElementView, int), CompileError>((block, 34)));
    assert(parse_elements(s, 34, false) == Ok::<(Seq<ElementView>, int), CompileError>(
        (Seq::empty(), 34),
    ));
    assert(parse_elements(s, 0, false) == Ok::<(Seq<ElementView>, int), CompileError>(
        (seq![block], 34),
    )) by {
        assert(seq![block] + Seq::<ElementView>::empty() =~= seq![block]);
    }
    lemma_branch_without_colors(effect, e);
}

/// With colors on, `%F(#ff0000){%M}` writes the message between the
/// sequence for the foreground color RGB (255, 0, 0) and the reset
/// sequence; with colors off it writes the message alone.
pub proof fn lemma_red_message(e: EventView)
    requires
        e.message.len() > 0,
    ensures
        compile("%F(#ff0000){%M}"@) is Ok,
        render(compile("%F(#ff0000){%M}"@)->Ok_0, e, true) == seq![
            esc(),
            '[',
            '3',
            '8',
            ';',
            '2',
            ';',
            '2',
            '5',
            '5',
            ';',
            '0',
            ';',
            '0',
            'm',
        ] + e.message + reset_sequence(),
        render(compile("%F(#ff0000){%M}"@)->Ok_0, e, false) == e.message,
{
    reveal_strlit("%F(#ff0000){%M}");
    let s = "%F(#ff0000){%M}"@;
    let text = s.subrange(3, 10);
    let red = Color(Tint::TrueColor { r: 255, g: 0, b: 0 });
    assert(text.len() == 7 && text[0] == '#' && text[1] == 'f' && text[2] == 'f' && text[3] == '0'
        && text[4] == '0' && text[5] == '0' && text[6] == '0');
    assert(hex_value('f') == Some(15nat));
    assert(hex_value('0') == Some(0nat));
    assert(hex_byte('f', 'f') == Some(255u8));
    assert(hex_byte('0', '0') == Some(0u8));
    assert(color_of(text) == Some(red));
    reveal_with_fuel(find_color_end, 8);
    assert(find_color_end(s, 3) == 10);
    let effect = Effect::FgColor(red);
    assert(parse_colors(s, 2, true) == Ok::<(Effect, int), CompileError>((effect, 11)));
    let body = seq![ElementView::Message];
    assert(parse_elements(s, 14, true) == Ok::<(Seq<ElementView>, int), CompileError>(
        (Seq::empty(), 15),
    ));
    assert(parse_elements(s, 12, true) == Ok::<(Seq<ElementView>, int), CompileError>(
        (body, 15),
    )) by {
        assert(seq![ElementView::Message] + Seq::<ElementView>::empty() =~= body);
    }
    let block = ElementView::Styled(effect, body);
    assert(parse_block(s, 11, effect) == Ok::<(ElementView, int), CompileError>((block, 15)));
    assert(parse_special(s, 1) == Ok::<(ElementView, int), CompileError>((block, 15)));
    assert(parse_elements(s, 15, false) == Ok::<(Seq<ElementView>, int), CompileError>(
        (Seq::empty(), 15),
    ));
    assert(parse_elements(s, 0, false) == Ok::<(Seq<ElementView>, int), CompileError>(
        (seq![block], 15),
    )) by {
        assert(seq![block] + Seq::<ElementView>::empty() =~= seq![block]);
    }
    lemma_foreground_wraps_message(red, e);
    reveal_with_fuel(decimal, 4);
    assert(decimal(38) =~= seq!['3', '8']);
    assert(decimal(255) =~= seq!['2', '5', '5']);
    assert(decimal(0) =~= seq!['0']);
    assert(red.spec_code(true) =~= seq!['3', '8', ';', '2', ';', '2', '5', '5', ';', '0', ';', '0']);
    assert(seq![esc(), '['] + red.spec_code(true) + seq!['m'] + e.message + reset_sequence()
        =~= seq![esc(), '[', '3', '8', ';', '2', ';', '2', '5', '5', ';', '0', ';', '0', 'm']
        + e.message + reset_sequence());
}

/// A block that is never closed is rejected: `%F(red){%M` does not compile.
pub proof fn lemma_unclosed_block_is_rejected()
    ensures
        compile("%F(red){%M"@) == Err::<Seq<ElementView>, CompileError>(
            CompileError::UnexpectedEnd,
        ),
{
    reveal_strlit("%F(red){%M");
    reveal_strlit("black");
    reveal_strlit("red");
    let s = "%F(red){%M"@;
    assert(s.subrange(3, 6) =~= "red"@);
    reveal_with_fuel(find_color_end, 5);
    assert(find_color_end(s, 3) == 6);
    let effect = Effect::FgColor(Color(Tint::Red));
    assert(parse_colors(s, 2, true) == Ok::<(Effect, int), CompileError>((effect, 7)));
    assert(parse_elements(s, 10, true) == Err::<(Seq<ElementView>, int), CompileError>(
        CompileError::UnexpectedEnd,
    ));
    assert(parse_special(s, 9) == Ok::<(ElementView, int), CompileError>(
        (ElementView::Message, 10),
    ));
    assert(parse_elements(s, 8, true) == Err::<(Seq<ElementView>, int), CompileError>(
        CompileError::UnexpectedEnd,
    ));
    assert(parse_block(s, 7, effect) == Err::<(ElementView, int), CompileError>(
        CompileError::UnexpectedEnd,
    ));
    assert(parse_special(s, 1) == Err::<(ElementView, int), CompileError>(
        CompileError::UnexpectedEnd,
    ));
}

} // verus!
