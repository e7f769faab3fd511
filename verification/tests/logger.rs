use fmtlog::{
    Colorize, CompileError, Config, Event, Level, Logger, Output, Severity, Timestamp,
};

fn event(level: Severity, module: Option<&str>, message: &str) -> Event {
    Event {
        level,
        target: String::from("target"),
        module: module.map(String::from),
        file: None,
        line: None,
        message: String::from(message),
        time: Timestamp { secs: 0, nanos: 0, offset: 0 },
    }
}

#[test]
fn info_threshold_gates_by_level() {
    let logger = Logger::new(Config::new().level(Level::Info)).unwrap();
    for module in ["", "app", "any::module"] {
        assert!(logger.enabled(Severity::Error, module));
        assert!(logger.enabled(Severity::Warn, module));
        assert!(logger.enabled(Severity::Info, module));
        assert!(!logger.enabled(Severity::Debug, module));
        assert!(!logger.enabled(Severity::Trace, module));
    }
}

#[test]
fn off_admits_nothing_and_trace_everything() {
    let all = [Severity::Error, Severity::Warn, Severity::Info, Severity::Debug, Severity::Trace];
    for s in all {
        assert!(!Level::Off.admits(s));
        assert!(Level::Trace.admits(s));
        assert!(Level::from_severity(s).admits(s));
    }
    assert!(Level::Warn.admits(Severity::Error));
    assert!(!Level::Warn.admits(Severity::Info));
    assert_eq!(Level::max(), Level::Trace);
    assert_eq!(Level::default(), Level::Info);
    assert_eq!(Severity::Error.rank(), 1);
    assert_eq!(Severity::Trace.rank(), 5);
    assert_eq!(Level::Off.rank(), 0);
    assert_eq!(Level::Trace.rank(), 5);
}

#[test]
fn enabled_needs_the_module_too() {
    let config = Config::new().level(Level::Trace).module("app").module("lib::net");
    let logger = Logger::new(config).unwrap();
    assert!(logger.enabled(Severity::Trace, "app::db"));
    assert!(logger.enabled(Severity::Error, "lib::net"));
    assert!(!logger.enabled(Severity::Error, "lib"));
    assert!(!logger.enabled(Severity::Error, "other"));
}

#[test]
fn bad_format_makes_no_logger() {
    let config = Config::new().format("%F(red){%M");
    assert_eq!(Logger::new(config).err(), Some(CompileError::UnexpectedEnd));
    assert_eq!(
        fmtlog::new(Config::new().format("%x")).err(),
        Some(CompileError::UnknownSpecifier('x'))
    );
}

#[test]
fn default_logger() {
    let logger = fmtlog::default();
    assert_eq!(logger.level, Level::Info);
    assert!(logger.modules.0.is_empty());
    assert_eq!(logger.streams, vec![(Output::Stderr, true)]);
}

#[test]
fn log_renders_once_per_output() {
    let config = Config::new()
        .format("%F(red){%L}: %M\n")
        .colorize(Colorize::Auto)
        .outputs(vec![Output::Stdout, Output::file("log.txt"), Output::Stderr]);
    let logger = Logger::new(config).unwrap();
    assert_eq!(
        logger.streams,
        vec![
            (Output::Stdout, true),
            (Output::File(String::from("log.txt")), false),
            (Output::Stderr, true),
        ]
    );
    let out = logger.log(&event(Severity::Warn, Some("app"), "careful"));
    assert_eq!(
        out,
        vec![
            String::from("\x1b[31mWARN\x1b[0m: careful\n"),
            String::from("WARN: careful\n"),
            String::from("\x1b[31mWARN\x1b[0m: careful\n"),
        ]
    );
}

#[test]
fn filtered_events_are_not_rendered() {
    let config = Config::new().format("%M").level(Level::Warn).module("app");
    let logger = Logger::new(config).unwrap();
    assert!(logger.log(&event(Severity::Info, Some("app"), "quiet")).is_empty());
    assert!(logger.log(&event(Severity::Error, Some("other"), "elsewhere")).is_empty());
    assert!(!logger.accepts(&event(Severity::Error, Some("other"), "elsewhere")));
    assert_eq!(logger.log(&event(Severity::Error, Some("app::x"), "here")), vec!["here"]);
    // An event that names no module is not held back by the module filter.
    assert_eq!(logger.log(&event(Severity::Error, None, "nowhere")), vec!["nowhere"]);
}

#[test]
fn no_outputs_nothing_to_write() {
    let logger = Logger::new(Config::new().format("%M").outputs(vec![])).unwrap();
    assert!(logger.accepts(&event(Severity::Error, None, "m")));
    assert!(logger.log(&event(Severity::Error, None, "m")).is_empty());
}
