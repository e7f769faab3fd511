use fmtlog::formats;
use fmtlog::{Color, CompileError, Effect, Element, Format, Pallet, Tint};

fn rejected(template: &str) -> CompileError {
    match Format::new(template) {
        Ok(f) => panic!("accepted: {:?}", f),
        Err(e) => e,
    }
}

#[test]
fn unclosed_body_is_rejected() {
    assert_eq!(rejected("%F(red){%M"), CompileError::UnexpectedEnd);
    assert_eq!(rejected("%b{text"), CompileError::UnexpectedEnd);
    assert_eq!(rejected("%b{%i{text}"), CompileError::UnexpectedEnd);
}

#[test]
fn text_ending_behind_a_percent_is_rejected() {
    assert_eq!(rejected("%"), CompileError::UnexpectedEnd);
    assert_eq!(rejected("abc%"), CompileError::UnexpectedEnd);
}

#[test]
fn unclosed_argument_is_rejected() {
    assert_eq!(rejected("%T(%Y"), CompileError::UnexpectedEnd);
    assert_eq!(rejected("%F(red"), CompileError::UnexpectedEnd);
    assert_eq!(rejected("%F(red,yellow"), CompileError::UnexpectedEnd);
    assert_eq!(rejected("%F(red,yellow,green,cyan,blue"), CompileError::UnexpectedEnd);
    assert_eq!(rejected("%F(red,yellow,green,cyan){x}"), CompileError::UnexpectedEnd);
}

#[test]
fn missing_argument_is_rejected() {
    assert_eq!(rejected("%T"), CompileError::MissingArgument);
    assert_eq!(rejected("%U{x}"), CompileError::MissingArgument);
    assert_eq!(rejected("%F{x}"), CompileError::MissingArgument);
    assert_eq!(rejected("%B"), CompileError::MissingArgument);
}

#[test]
fn missing_body_is_rejected() {
    assert_eq!(rejected("%b"), CompileError::MissingBody);
    assert_eq!(rejected("%bx"), CompileError::MissingBody);
    assert_eq!(rejected("%F(red)x"), CompileError::MissingBody);
    assert_eq!(rejected("%B(red,yellow,green,cyan,blue)"), CompileError::MissingBody);
}

#[test]
fn unknown_code_is_rejected_with_its_character() {
    assert_eq!(rejected("%q"), CompileError::UnknownSpecifier('q'));
    assert_eq!(rejected("ab %Z cd"), CompileError::UnknownSpecifier('Z'));
    assert_eq!(rejected("%b{%é}"), CompileError::UnknownSpecifier('é'));
}

#[test]
fn invalid_color_is_rejected() {
    assert_eq!(rejected("%F(nope){x}"), CompileError::InvalidColor);
    assert_eq!(rejected("%F(Red){x}"), CompileError::InvalidColor);
    assert_eq!(rejected("%F(#12345){x}"), CompileError::InvalidColor);
    assert_eq!(rejected("%F(#gggggg){x}"), CompileError::InvalidColor);
    assert_eq!(rejected("%F(#+f0000){x}"), CompileError::InvalidColor);
    assert_eq!(rejected("%F(red,yellow,green,cyan,){x}"), CompileError::InvalidColor);
    assert_eq!(rejected("%F(red,yellow,green,cyan),{x}"), CompileError::InvalidColor);
    assert_eq!(rejected("%F(red,yellow,green,cyan,blue,white){x}"), CompileError::InvalidColor);
    assert_eq!(rejected("%F(){x}"), CompileError::InvalidColor);
}

#[test]
fn first_error_wins() {
    assert_eq!(rejected("%F(nope){%q"), CompileError::InvalidColor);
    assert_eq!(rejected("%q%F(nope){"), CompileError::UnknownSpecifier('q'));
}

#[test]
fn error_messages() {
    assert_eq!(CompileError::UnexpectedEnd.message(), "Unexpected end.");
    assert_eq!(CompileError::MissingArgument.message(), "Missing argument.");
    assert_eq!(CompileError::MissingBody.message(), "Missing the body.");
    assert_eq!(CompileError::UnknownSpecifier('x').message(), "Invalid specifier.");
    assert_eq!(CompileError::InvalidColor.message(), "Invalid color.");
}

#[test]
fn literal_runs_and_codes_in_order() {
    let f = Format::new("[%L] %M\n").unwrap();
    assert_eq!(
        f,
        Format(vec![
            Element::Const(String::from("[")),
            Element::LogLevelUpper,
            Element::Const(String::from("] ")),
            Element::Message,
            Element::Const(String::from("\n")),
        ])
    );
    assert_eq!(Format::new("").unwrap(), Format(vec![]));
    assert_eq!(
        Format::new("%%%}%N%f%S%m%M%l%L").unwrap(),
        Format(vec![
            Element::Percent,
            Element::Close,
            Element::Name,
            Element::SourceFile,
            Element::SourceFileWithLine,
            Element::Module,
            Element::Message,
            Element::LogLevelLower,
            Element::LogLevelUpper,
        ])
    );
}

#[test]
fn time_formats_are_taken_verbatim() {
    assert_eq!(
        Format::new("%T(%Y/%m/%d %T)%U()").unwrap(),
        Format(vec![
            Element::Time(String::from("%Y/%m/%d %T")),
            Element::UtcTime(String::new()),
        ])
    );
}

#[test]
fn styled_blocks_nest() {
    let red = Color(Tint::Red);
    assert_eq!(
        Format::new("%F(red){a%b{%M}}z").unwrap(),
        Format(vec![
            Element::Styled(
                Effect::FgColor(red),
                Format(vec![
                    Element::Const(String::from("a")),
                    Element::Styled(Effect::Bold, Format(vec![Element::Message])),
                ]),
            ),
            Element::Const(String::from("z")),
        ])
    );
}

#[test]
fn five_colors_make_a_pallet() {
    let pallet = Pallet {
        error: Color(Tint::Red),
        warn: Color(Tint::Yellow),
        info: Color(Tint::TrueColor { r: 0, g: 255, b: 16 }),
        debug: Color(Tint::Magenta),
        trace: Color(Tint::BrightBlue),
    };
    assert_eq!(
        Format::new("%B(red,yellow,#00ff10,purple,bright blue){}").unwrap(),
        Format(vec![Element::Styled(Effect::BgColorBranch(pallet), Format(vec![]))])
    );
    assert_eq!(
        Format::new("%F(red,yellow,#00FF10,magenta,bright blue){}").unwrap(),
        Format(vec![Element::Styled(Effect::FgColorBranch(pallet), Format(vec![]))])
    );
}

#[test]
fn all_flags_compile() {
    let body = || Format(vec![Element::Const(String::from("x"))]);
    assert_eq!(
        Format::new("%b{x}%d{x}%i{x}%r{x}%u{x}%s{x}").unwrap(),
        Format(vec![
            Element::Styled(Effect::Bold, body()),
            Element::Styled(Effect::Dimmed, body()),
            Element::Styled(Effect::Italic, body()),
            Element::Styled(Effect::Reversed, body()),
            Element::Styled(Effect::Underline, body()),
            Element::Styled(Effect::StrikeThrough, body()),
        ])
    );
}

#[test]
fn multibyte_text_is_kept() {
    let f = Format::new("héllo → %M ✓").unwrap();
    assert_eq!(
        f,
        Format(vec![
            Element::Const(String::from("héllo → ")),
            Element::Message,
            Element::Const(String::from(" ✓")),
        ])
    );
}

#[test]
fn parse_until_stops_behind_the_brace() {
    let chars: Vec<char> = "ab}cd".chars().collect();
    let (body, next) = Format::parse_until(&chars, 0).unwrap();
    assert_eq!(body, Format(vec![Element::Const(String::from("ab"))]));
    assert_eq!(next, 3);
    assert_eq!(Format::parse_until(&chars, 3), Err(CompileError::UnexpectedEnd));
}

#[test]
fn element_parse_reads_one_code() {
    let chars: Vec<char> = "%L!".chars().collect();
    assert_eq!(Element::parse(&chars, 1), Ok((Element::LogLevelUpper, 2)));
    assert_eq!(Element::parse(&chars, 2), Err(CompileError::UnknownSpecifier('!')));
    assert_eq!(Element::parse(&chars, 3), Err(CompileError::UnexpectedEnd));
}

#[test]
fn stock_formats_compile() {
    let all = [
        formats::TOML,
        formats::YAML,
        formats::SIMPLE1,
        formats::SIMPLE1_LOWER,
        formats::SIMPLE2,
        formats::SIMPLE2_LOWER,
        formats::DETAIL1,
        formats::DETAIL1_LOWER,
        formats::DETAIL2,
        formats::DETAIL2_LOWER,
        formats::DEBUG1,
        formats::DEBUG1_LOWER,
        formats::DEBUG2,
        formats::DEBUG2_LOWER,
        formats::PRETTY_ENV_LOGGER,
        formats::FLEXI_LOGGER,
        formats::STDERRLOG,
        formats::ENV_LOGGER,
        formats::FLEXI_LOGGER2,
        formats::SIMPLE_LOGGER,
        formats::SIMPLELOG,
        formats::STDERRLOG2,
    ];
    for f in all {
        assert!(Format::new(f).is_ok(), "{}", f);
    }
}

#[test]
fn cursor_beyond_the_text() {
    let chars: Vec<char> = "ab}".chars().collect();
    assert_eq!(Format::parse_until(&chars, 99), Err(CompileError::UnexpectedEnd));
    assert_eq!(Element::parse(&chars, 99), Err(CompileError::UnexpectedEnd));
    assert_eq!(Format::parse(&chars), Ok(Format(vec![Element::Const(String::from("ab}"))])));
}
