//! The default format is a valid template.

use vstd::prelude::*;
use crate::color::{color_of, find_char, spec_parse_until, Color, Tint};
use crate::error::CompileError;
use crate::format::compile::{
    compile, find_color_end, literal_end, parse_block, parse_colors, parse_elements,
    parse_special, parse_time,
};
use crate::format::{Effect, ElementView};
use crate::formats::DETAIL1;

verus! {

proof fn lemma_default_colors(s: Seq<char>)
    requires
        s == DETAIL1@,
    ensures
        color_of(s.subrange(24, 27)) == Some(Color(Tint::Red)),
        color_of(s.subrange(28, 34)) == Some(Color(Tint::Yellow)),
        color_of(s.subrange(35, 40)) == Some(Color(Tint::Green)),
        color_of(s.subrange(41, 47)) == Some(Color(Tint::Magenta)),
        color_of(s.subrange(48, 52)) == Some(Color(Tint::Blue)),
{
    reveal_strlit("[%T(%Y/%m/%d %T) %N] %F(red,yellow,green,purple,blue){%b{%L}}: %M\n");
    reveal_strlit("black");
    reveal_strlit("red");
    reveal_strlit("green");
    reveal_strlit("yellow");
    reveal_strlit("blue");
    reveal_strlit("magenta");
    reveal_strlit("purple");
    assert(s.subrange(24, 27) =~= "red"@);
    assert(s.subrange(28, 34) =~= "yellow"@);
    assert(s.subrange(35, 40) =~= "green"@);
    assert(s.subrange(41, 47) =~= "purple"@);
    assert(s.subrange(48, 52) =~= "blue"@);
    assert("green"@[0] != "black"@[0]);
    assert("purple"@[0] != "yellow"@[0]);
}

proof fn lemma_default_color_argument(s: Seq<char>)
    requires
        s == DETAIL1@,
    ensures
        parse_colors(s, 23, true) is Ok,
        parse_colors(s, 23, true)->Ok_0.1 == 53,
{
    reveal_strlit("[%T(%Y/%m/%d %T) %N] %F(red,yellow,green,purple,blue){%b{%L}}: %M\n");
    lemma_default_colors(s);
    reveal_with_fuel(find_color_end, 5);
    reveal_with_fuel(find_char, 8);
    assert(find_color_end(s, 24) == 27);
    assert(find_char(s, 28, ',') == 34);
    assert(find_char(s, 35, ',') == 40);
    assert(find_char(s, 41, ',') == 47);
    assert(find_char(s, 48, ')') == 52);
    assert(spec_parse_until(s, 28, ',') == Ok::<(Color, int), CompileError>(
        (Color(Tint::Yellow), 35),
    ));
    assert(spec_parse_until(s, 35, ',') == Ok::<(Color, int), CompileError>(
        (Color(Tint::Green), 41),
    ));
    assert(spec_parse_until(s, 41, ',') == Ok::<(Color, int), CompileError>(
        (Color(Tint::Magenta), 48),
    ));
    assert(spec_parse_until(s, 48, ')') == Ok::<(Color, int), CompileError>(
        (Color(Tint::Blue), 53),
    ));
}

proof fn lemma_default_tail(s: Seq<char>)
    requires
        s == DETAIL1@,
    ensures
        parse_elements(s, 61, false) is Ok,
{
    reveal_strlit("[%T(%Y/%m/%d %T) %N] %F(red,yellow,green,purple,blue){%b{%L}}: %M\n");
    reveal_with_fuel(literal_end, 3);
    assert(parse_elements(s, 66, false) is Ok);
    assert(literal_end(s, 66, false) == 66);
    assert(parse_elements(s, 65, false) is Ok);
    assert(parse_special(s, 64) == Ok::<(ElementView, int), CompileError>(
        (ElementView::Message, 65),
    ));
    assert(parse_elements(s, 63, false) is Ok);
    assert(literal_end(s, 62, false) == 63);
}

proof fn lemma_default_block(s: Seq<char>, effect: Effect)
    requires
        s == DETAIL1@,
    ensures
        parse_block(s, 53, effect) is Ok,
        parse_block(s, 53, effect)->Ok_0.1 == 61,
{
    reveal_strlit("[%T(%Y/%m/%d %T) %N] %F(red,yellow,green,purple,blue){%b{%L}}: %M\n");
    assert(parse_elements(s, 59, true) == Ok::<(Seq<ElementView>, int), CompileError>(
        (Seq::empty(), 60),
    ));
    assert(parse_special(s, 58) == Ok::<(ElementView, int), CompileError>(
        (ElementView::LogLevelUpper, 59),
    ));
    assert(parse_elements(s, 57, true) is Ok && parse_elements(s, 57, true)->Ok_0.1 == 60);
    assert(parse_block(s, 56, Effect::Bold) is Ok && parse_block(s, 56, Effect::Bold)->Ok_0.1
        == 60);
    assert(parse_special(s, 55) is Ok && parse_special(s, 55)->Ok_0.1 == 60);
    assert(parse_elements(s, 60, true) == Ok::<(Seq<ElementView>, int), CompileError>(
        (Seq::empty(), 61),
    ));
    assert(parse_elements(s, 54, true) is Ok && parse_elements(s, 54, true)->Ok_0.1 == 61);
}

proof fn lemma_default_head(s: Seq<char>)
    requires
        s == DETAIL1@,
        parse_elements(s, 21, false) is Ok,
    ensures
        parse_elements(s, 0, false) is Ok,
{
    reveal_strlit("[%T(%Y/%m/%d %T) %N] %F(red,yellow,green,purple,blue){%b{%L}}: %M\n");
    reveal_with_fuel(literal_end, 3);
    reveal_with_fuel(find_char, 13);
    assert(literal_end(s, 20, false) == 21);
    assert(parse_elements(s, 19, false) is Ok);
    assert(parse_special(s, 18) == Ok::<(ElementView, int), CompileError>(
        (ElementView::Name, 19),
    ));
    assert(parse_elements(s, 17, false) is Ok);
    assert(literal_end(s, 17, false) == 17);
    assert(parse_elements(s, 16, false) is Ok);
    assert(find_char(s, 4, ')') == 15);
    assert(parse_time(s, 3, false) is Ok && parse_time(s, 3, false)->Ok_0.1 == 16);
    assert(parse_special(s, 2) is Ok && parse_special(s, 2)->Ok_0.1 == 16);
    assert(parse_elements(s, 1, false) is Ok);
    assert(literal_end(s, 1, false) == 1);
}

/// The detailed format, which is the default, compiles.
pub proof fn lemma_default_format_compiles()
    ensures
        compile(DETAIL1@) is Ok,
{
    let s = DETAIL1@;
    reveal_strlit("[%T(%Y/%m/%d %T) %N] %F(red,yellow,green,purple,blue){%b{%L}}: %M\n");
    lemma_default_color_argument(s);
    let effect = parse_colors(s, 23, true)->Ok_0.0;
    lemma_default_block(s, effect);
    lemma_default_tail(s);
    assert(parse_special(s, 22) is Ok && parse_special(s, 22)->Ok_0.1 == 61);
    assert(parse_elements(s, 21, false) is Ok);
    lemma_default_head(s);
}

} // verus!
