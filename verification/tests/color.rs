use colored::Colorize;
use fmtlog::{Color, CompileError, Pallet, Severity, Style, Tint};

fn painted(style: &Style, text: &str) -> String {
    let mut out = String::new();
    style.paint(&mut out, text, true);
    out
}

#[test]
fn names_of_the_sixteen_colors() {
    let table = [
        ("black", Tint::Black),
        ("red", Tint::Red),
        ("green", Tint::Green),
        ("yellow", Tint::Yellow),
        ("blue", Tint::Blue),
        ("magenta", Tint::Magenta),
        ("purple", Tint::Magenta),
        ("cyan", Tint::Cyan),
        ("white", Tint::White),
        ("bright black", Tint::BrightBlack),
        ("bright red", Tint::BrightRed),
        ("bright green", Tint::BrightGreen),
        ("bright yellow", Tint::BrightYellow),
        ("bright blue", Tint::BrightBlue),
        ("bright magenta", Tint::BrightMagenta),
        ("bright cyan", Tint::BrightCyan),
        ("bright white", Tint::BrightWhite),
    ];
    for (name, tint) in table {
        assert_eq!(Color::from_str(name), Ok(Color(tint)));
    }
}

#[test]
fn names_are_case_sensitive() {
    assert_eq!(Color::from_str("Red"), Err(CompileError::InvalidColor));
    assert_eq!(Color::from_str("RED"), Err(CompileError::InvalidColor));
    assert_eq!(Color::from_str(" red"), Err(CompileError::InvalidColor));
    assert_eq!(Color::from_str("brightred"), Err(CompileError::InvalidColor));
    assert_eq!(Color::from_str(""), Err(CompileError::InvalidColor));
}

#[test]
fn hex_colors() {
    assert_eq!(Color::from_str("#ff0000"), Ok(Color(Tint::TrueColor { r: 255, g: 0, b: 0 })));
    assert_eq!(Color::from_str("#0a1B2c"), Ok(Color(Tint::TrueColor { r: 10, g: 27, b: 44 })));
    assert_eq!(Color::from_str("#FFFFFF"), Ok(Color(Tint::TrueColor { r: 255, g: 255, b: 255 })));
    assert_eq!(Color::from_str("#000000"), Ok(Color(Tint::TrueColor { r: 0, g: 0, b: 0 })));
}

#[test]
fn malformed_hex_colors() {
    for bad in ["#", "#fff", "#ff00000", "#ff000", "#ff00zz", "#+f0000", "#ff 000", "ff0000"] {
        assert_eq!(Color::from_str(bad), Err(CompileError::InvalidColor), "{}", bad);
    }
}

#[test]
fn parse_until_reads_up_to_the_stop() {
    let chars: Vec<char> = "red,#102030)x".chars().collect();
    assert_eq!(Color::parse_until(&chars, 0, ','), Ok((Color(Tint::Red), 4)));
    assert_eq!(
        Color::parse_until(&chars, 4, ')'),
        Ok((Color(Tint::TrueColor { r: 16, g: 32, b: 48 }), 12))
    );
    assert_eq!(Color::parse_until(&chars, 0, ')'), Err(CompileError::InvalidColor));
    assert_eq!(Color::parse_until(&chars, 12, ','), Err(CompileError::UnexpectedEnd));
    assert_eq!(Color::parse_until(&chars, 13, ','), Err(CompileError::UnexpectedEnd));
}

#[test]
fn pallet_selects_by_level() {
    let pallet = Pallet {
        error: Color(Tint::Red),
        warn: Color(Tint::Yellow),
        info: Color(Tint::Green),
        debug: Color(Tint::Cyan),
        trace: Color(Tint::Blue),
    };
    assert_eq!(pallet.select(Severity::Error), Color(Tint::Red));
    assert_eq!(pallet.select(Severity::Warn), Color(Tint::Yellow));
    assert_eq!(pallet.select(Severity::Info), Color(Tint::Green));
    assert_eq!(pallet.select(Severity::Debug), Color(Tint::Cyan));
    assert_eq!(pallet.select(Severity::Trace), Color(Tint::Blue));
}

#[test]
fn neutral_style_paints_nothing() {
    let style = Style::neutral();
    assert!(style.is_neutral());
    assert_eq!(style, Style::default());
    assert_eq!(painted(&style, "text"), "text");
    assert_eq!(style.params(), "");
}

#[test]
fn colors_off_paints_nothing() {
    let mut style = Style::neutral();
    style.fg = Some(Color(Tint::Red));
    style.bold = true;
    assert!(!style.is_neutral());
    let mut out = String::from("a");
    style.paint(&mut out, "b", false);
    assert_eq!(out, "ab");
}

#[test]
fn style_parameters_in_order() {
    let mut style = Style::neutral();
    style.fg = Some(Color(Tint::Blue));
    style.bg = Some(Color(Tint::BrightWhite));
    style.bold = true;
    style.dim = true;
    style.italic = true;
    style.reverse = true;
    style.underline = true;
    style.strikethrough = true;
    assert_eq!(style.params(), "1;2;4;7;3;9;107;34");
    assert_eq!(painted(&style, "x"), "\x1b[1;2;4;7;3;9;107;34mx\x1b[0m");
}

#[test]
fn rgb_parameters() {
    let mut style = Style::neutral();
    style.fg = Some(Color(Tint::TrueColor { r: 1, g: 20, b: 255 }));
    assert_eq!(style.params(), "38;2;1;20;255");
    style.bg = Some(Color(Tint::TrueColor { r: 0, g: 100, b: 9 }));
    assert_eq!(style.params(), "48;2;0;100;9;38;2;1;20;255");
}

#[test]
fn named_colors_agree_with_the_colored_crate() {
    colored::control::set_override(true);
    let table = [
        (Tint::Black, colored::Color::Black),
        (Tint::Red, colored::Color::Red),
        (Tint::Green, colored::Color::Green),
        (Tint::Yellow, colored::Color::Yellow),
        (Tint::Blue, colored::Color::Blue),
        (Tint::Magenta, colored::Color::Magenta),
        (Tint::Cyan, colored::Color::Cyan),
        (Tint::White, colored::Color::White),
        (Tint::BrightBlack, colored::Color::BrightBlack),
        (Tint::BrightRed, colored::Color::BrightRed),
        (Tint::BrightGreen, colored::Color::BrightGreen),
        (Tint::BrightYellow, colored::Color::BrightYellow),
        (Tint::BrightBlue, colored::Color::BrightBlue),
        (Tint::BrightMagenta, colored::Color::BrightMagenta),
        (Tint::BrightCyan, colored::Color::BrightCyan),
        (Tint::BrightWhite, colored::Color::BrightWhite),
    ];
    for (tint, theirs) in table {
        let mut style = Style::neutral();
        style.fg = Some(Color(tint));
        assert_eq!(painted(&style, "text"), "text".color(theirs).to_string());
        let mut style = Style::neutral();
        style.bg = Some(Color(tint));
        assert_eq!(painted(&style, "text"), "text".on_color(theirs).to_string());
    }
}

#[test]
fn flags_agree_with_the_colored_crate() {
    colored::control::set_override(true);
    let mut style = Style::neutral();
    style.bold = true;
    assert_eq!(painted(&style, "t"), "t".bold().to_string());
    style.fg = Some(Color(Tint::Blue));
    style.bg = Some(Color(Tint::Blue));
    assert_eq!(painted(&style, "t"), "t".blue().bold().on_blue().to_string());
    let mut style = Style::neutral();
    style.dim = true;
    style.underline = true;
    style.italic = true;
    style.reverse = true;
    style.strikethrough = true;
    assert_eq!(
        painted(&style, "t"),
        "t".dimmed().underline().italic().reversed().strikethrough().to_string()
    );
}

#[test]
fn parse_until_beyond_the_text() {
    let chars: Vec<char> = "red,".chars().collect();
    assert_eq!(Color::parse_until(&chars, 99, ','), Err(CompileError::UnexpectedEnd));
    assert_eq!(Color::parse_until(&chars, 0, ','), Ok((Color(Tint::Red), 4)));
}
