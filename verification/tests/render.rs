use fmtlog::{Event, Format, Severity, Style, Timestamp};

fn event(level: Severity, message: &str) -> Event {
    Event {
        level,
        target: String::from("app::db"),
        module: Some(String::from("app::db")),
        file: Some(String::from("src/main.rs")),
        line: Some(15),
        message: String::from(message),
        time: Timestamp { secs: 0, nanos: 0, offset: 0 },
    }
}

fn render(template: &str, e: &Event, colorize: bool) -> String {
    Format::new(template).unwrap().to_str(e, colorize)
}

const LEVELS: [Severity; 5] =
    [Severity::Error, Severity::Warn, Severity::Info, Severity::Debug, Severity::Trace];

#[test]
fn bracketed_level_and_message() {
    let e = event(Severity::Error, "boom");
    assert_eq!(render("[%L] %M\n", &e, false), "[ERROR] boom\n");
    assert_eq!(render("[%L] %M\n", &e, true), "[ERROR] boom\n");
}

#[test]
fn rgb_foreground_wraps_the_message() {
    let e = event(Severity::Info, "x");
    assert_eq!(render("%F(#ff0000){%M}", &e, true), "\x1b[38;2;255;0;0mx\x1b[0m");
    assert_eq!(render("%F(#ff0000){%M}", &e, false), "x");
}

#[test]
fn percent_escape_is_one_percent_sign() {
    for level in LEVELS {
        let e = event(level, "anything at all");
        assert_eq!(render("%%", &e, false), "%");
        assert_eq!(render("%%", &e, true), "%");
    }
}

#[test]
fn brace_escape_inside_a_body() {
    let e = event(Severity::Info, "m");
    assert_eq!(render("%b{{%}}", &e, false), "{}");
    assert_eq!(render("a}b", &e, false), "a}b");
}

#[test]
fn lower_level_is_lowercased_upper_level() {
    for level in LEVELS {
        let e = event(level, "m");
        let upper = render("%L", &e, false);
        let lower = render("%l", &e, false);
        assert_eq!(lower, upper.to_lowercase());
    }
    assert_eq!(render("%L %l", &event(Severity::Warn, ""), false), "WARN warn");
    assert_eq!(render("%L %l", &event(Severity::Trace, ""), false), "TRACE trace");
    assert_eq!(render("%L %l", &event(Severity::Debug, ""), false), "DEBUG debug");
    assert_eq!(render("%L %l", &event(Severity::Info, ""), false), "INFO info");
}

#[test]
fn branch_without_colors_is_the_level_name() {
    let names = ["ERROR", "WARN", "INFO", "DEBUG", "TRACE"];
    for (level, name) in LEVELS.iter().zip(names.iter()) {
        let e = event(*level, "m");
        let out = render("%F(red,yellow,green,cyan,blue){%L}", &e, false);
        assert_eq!(out, *name);
        assert!(!out.contains('\x1b'));
    }
}

#[test]
fn branch_with_colors_picks_the_color_of_the_level() {
    let codes = ["31", "33", "32", "36", "34"];
    let names = ["ERROR", "WARN", "INFO", "DEBUG", "TRACE"];
    for i in 0..5 {
        let e = event(LEVELS[i], "m");
        let out = render("%F(red,yellow,green,cyan,blue){%L}", &e, true);
        assert_eq!(out, format!("\x1b[{}m{}\x1b[0m", codes[i], names[i]));
        let out = render("%B(red,yellow,green,cyan,blue){%L}", &e, true);
        let back = 10 + codes[i].parse::<u32>().unwrap();
        assert_eq!(out, format!("\x1b[{}m{}\x1b[0m", back, names[i]));
    }
}

#[test]
fn plain_template_renders_the_same_twice() {
    let template = Format::new("[%N %S] %l: %M (%f, %m)%%\n").unwrap();
    let e = event(Severity::Debug, "twice");
    let first = template.to_str(&e, true);
    let second = template.to_str(&e, false);
    assert_eq!(first, second);
    assert_eq!(first, "[app::db src/main.rs:15] debug: twice (src/main.rs, app::db)%\n");
    let mut later = e.clone();
    later.time = Timestamp { secs: 86_400, nanos: 5, offset: 3600 };
    assert_eq!(template.to_str(&later, true), first);
}

#[test]
fn source_fields_when_absent() {
    let mut e = event(Severity::Info, "m");
    e.line = None;
    assert_eq!(render("<%S>", &e, false), "<src/main.rs>");
    e.file = None;
    e.line = Some(3);
    assert_eq!(render("<%S|%f>", &e, false), "<|>");
    e.module = None;
    assert_eq!(render("<%m>", &e, false), "<>");
    assert_eq!(render("<%m>", &e, true), "<>");
}

#[test]
fn line_numbers_in_decimal() {
    let mut e = event(Severity::Info, "m");
    e.line = Some(0);
    assert_eq!(render("%S", &e, false), "src/main.rs:0");
    e.line = Some(4_294_967_295);
    assert_eq!(render("%S", &e, false), "src/main.rs:4294967295");
    e.line = Some(1000);
    assert_eq!(render("%S", &e, false), "src/main.rs:1000");
}

#[test]
fn style_flags_have_their_codes() {
    let e = event(Severity::Info, "m");
    assert_eq!(render("%b{t}", &e, true), "\x1b[1mt\x1b[0m");
    assert_eq!(render("%d{t}", &e, true), "\x1b[2mt\x1b[0m");
    assert_eq!(render("%i{t}", &e, true), "\x1b[3mt\x1b[0m");
    assert_eq!(render("%u{t}", &e, true), "\x1b[4mt\x1b[0m");
    assert_eq!(render("%r{t}", &e, true), "\x1b[7mt\x1b[0m");
    assert_eq!(render("%s{t}", &e, true), "\x1b[9mt\x1b[0m");
    assert_eq!(render("%b{%d{%i{%u{%r{%s{t}}}}}}", &e, false), "t");
}

#[test]
fn nested_blocks_share_one_context() {
    let e = event(Severity::Info, "m");
    // The inner block overwrites the foreground and clears it behind itself:
    // the text that follows is no longer red.
    assert_eq!(
        render("%F(red){a%F(blue){b}c}d", &e, true),
        "\x1b[31ma\x1b[0m\x1b[34mb\x1b[0mcd"
    );
    // Different channels add up while both blocks are open.
    assert_eq!(
        render("%F(blue){%b{%B(blue){x}y}z}", &e, true),
        "\x1b[1;44;34mx\x1b[0m\x1b[1;34my\x1b[0m\x1b[34mz\x1b[0m"
    );
}

#[test]
fn write_reports_the_style_left_behind() {
    let e = event(Severity::Info, "m");
    let template = Format::new("%F(red){%b{a}}").unwrap();
    let mut out = String::from(">");
    let mut style = Style::neutral();
    style.underline = true;
    template.write(&mut out, &e, &mut style, true);
    assert_eq!(out, ">\x1b[1;4;31ma\x1b[0m");
    let mut expected = Style::neutral();
    expected.underline = true;
    assert_eq!(style, expected);
}

#[test]
fn empty_text_is_never_painted() {
    let mut e = event(Severity::Info, "");
    e.file = None;
    assert_eq!(render("%F(red){%M%f}", &e, true), "");
}

#[test]
fn utc_time_field() {
    let mut e = event(Severity::Info, "m");
    e.time = Timestamp { secs: 1_431_648_000, nanos: 0, offset: 3600 };
    assert_eq!(render("%U(%Y-%m-%d %H:%M:%S)", &e, false), "2015-05-15 00:00:00");
    assert_eq!(render("%U(%Y)|%M", &e, false), "2015|m");
}

#[test]
fn local_time_field_uses_the_offset() {
    let mut e = event(Severity::Info, "m");
    e.time = Timestamp { secs: 1_431_648_000, nanos: 0, offset: 3600 };
    assert_eq!(render("%T(%Y-%m-%d %H:%M:%S %z)", &e, false), "2015-05-15 01:00:00 +0100");
    e.time.offset = -5 * 3600;
    assert_eq!(render("%T(%H:%M)", &e, false), "19:00");
}

#[test]
fn time_field_is_painted_like_any_text() {
    let mut e = event(Severity::Info, "m");
    e.time = Timestamp { secs: 0, nanos: 0, offset: 0 };
    assert_eq!(render("%F(green){%U(%Y)}", &e, true), "\x1b[32m1970\x1b[0m");
}

#[test]
fn bad_time_format_does_not_abort() {
    let mut e = event(Severity::Info, "m");
    e.time = Timestamp { secs: 0, nanos: 0, offset: 0 };
    let out = render("[%U(%Q%Y)]%M", &e, false);
    assert!(out.starts_with('['));
    assert!(out.ends_with("]m"));
    e.time.offset = 1_000_000;
    assert_eq!(render("[%T(%Y)]", &e, false), "[]");
}

#[test]
fn time_fields_format_the_instant_of_the_event() {
    let mut e = event(Severity::Info, "m");
    e.time = Timestamp { secs: 0, nanos: 500_000_000, offset: 7200 };
    assert_eq!(render("%U(%Y/%m/%d %T)", &e, false), "1970/01/01 00:00:00");
    assert_eq!(render("%T(%H)", &e, false), "02");
    assert_eq!(render("%T(%S%.3f)", &e, false), "00.500");
    e.time = Timestamp { secs: 86_400, nanos: 0, offset: 0 };
    assert_eq!(render("%U(%d)", &e, false), "02");
}
