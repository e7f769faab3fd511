use fmtlog::{Colorize, Config, InvalidWord, Level, Output};

#[test]
fn default_settings() {
    let c = Config::new();
    assert_eq!(c, Config::default());
    assert_eq!(c.colorize, Colorize::Auto);
    assert_eq!(c.format, fmtlog::formats::DETAIL1);
    assert_eq!(c.level, Level::Info);
    assert!(c.modules.is_empty());
    assert_eq!(c.output, vec![Output::Stderr]);
}

#[test]
fn builders_change_one_setting() {
    assert_ne!(Config::new(), Config::new().colorize(Colorize::Off));
    assert_ne!(Config::new(), Config::new().format("[%L] %M\n"));
    assert_eq!(Config::new(), Config::new().level(Level::Info));
    assert_ne!(Config::new(), Config::new().output(Output::file("log.txt")));
    assert_eq!(
        Config::new(),
        Config::new().outputs(Vec::<Output>::new()).add_output(Output::Stderr)
    );
    assert_eq!(Config::new(), Config::new().outputs(vec![Output::Stderr]));

    let c = Config::new().format("%M").level(Level::Trace).colorize(Colorize::On);
    assert_eq!(c.format, "%M");
    assert_eq!(c.level, Level::Trace);
    assert_eq!(c.colorize, Colorize::On);
    assert_eq!(c.output, vec![Output::Stderr]);
}

#[test]
fn module_builders() {
    let c = Config::new().module("a").module("b::c");
    assert_eq!(c.modules, vec!["a", "b::c"]);
    let c = c.modules(vec![String::from("z")]);
    assert_eq!(c.modules, vec!["z"]);
    assert_eq!(c.level, Level::Info);
}

#[test]
fn output_builders() {
    let c = Config::new().add_output(Output::Stdout);
    assert_eq!(c.output, vec![Output::Stderr, Output::Stdout]);
    let c = c.output(Output::file("x.log"));
    assert_eq!(c.output, vec![Output::File(String::from("x.log"))]);
}

#[test]
fn level_names() {
    for (word, level) in [
        ("off", Level::Off),
        ("Error", Level::Error),
        ("WARN", Level::Warn),
        ("info", Level::Info),
        ("INFO", Level::Info),
        ("Debug", Level::Debug),
        ("trace", Level::Trace),
        ("max", Level::Trace),
        ("MAX", Level::Trace),
    ] {
        assert_eq!(Level::from_str(word), Ok(level));
    }
    assert_eq!(Level::from_str("verbose"), Err(InvalidWord));
    assert_eq!(Level::from_str("iNFO"), Err(InvalidWord));
    assert_eq!(Level::from_str(""), Err(InvalidWord));
    assert_eq!(Level::Off.to_string(), "off");
    assert_eq!(Level::Error.to_string(), "error");
    assert_eq!(Level::Warn.to_string(), "warn");
    assert_eq!(Level::Info.to_string(), "info");
    assert_eq!(Level::Debug.to_string(), "debug");
    assert_eq!(Level::Trace.to_string(), "trace");
    assert!(Level::Off < Level::Error && Level::Info < Level::Debug && Level::Debug < Level::Trace);
}

#[test]
fn colorize_names() {
    for word in ["off", "Off", "OFF", "false", "False", "FALSE"] {
        assert_eq!(Colorize::from_str(word), Ok(Colorize::Off));
    }
    for word in ["auto", "Auto", "AUTO"] {
        assert_eq!(Colorize::from_str(word), Ok(Colorize::Auto));
    }
    for word in ["on", "On", "ON", "true", "True", "TRUE"] {
        assert_eq!(Colorize::from_str(word), Ok(Colorize::On));
    }
    assert_eq!(Colorize::from_str("maybe"), Err(InvalidWord));
    assert_eq!(Colorize::Off.to_string(), "off");
    assert_eq!(Colorize::Auto.to_string(), "auto");
    assert_eq!(Colorize::On.to_string(), "on");
    assert_eq!(Colorize::from_bool(true), Colorize::On);
    assert_eq!(Colorize::from_bool(false), Colorize::Off);
    assert_eq!(Colorize::default(), Colorize::Auto);
}

#[test]
fn colorize_by_output() {
    let file = Output::file("log.txt");
    assert!(!Colorize::Off.colorize(&Output::Stdout));
    assert!(!Colorize::Off.colorize(&file));
    assert!(Colorize::Auto.colorize(&Output::Stdout));
    assert!(Colorize::Auto.colorize(&Output::Stderr));
    assert!(!Colorize::Auto.colorize(&file));
    assert!(Colorize::On.colorize(&Output::Stderr));
    assert!(Colorize::On.colorize(&file));
}

#[test]
fn output_names() {
    for word in ["stdout", "Stdout", "StdOut", "STDOUT", "<stdout>"] {
        assert_eq!(Output::from_str(word), Ok(Output::Stdout));
    }
    for word in ["stderr", "Stderr", "StdErr", "STDERR", "<stderr>"] {
        assert_eq!(Output::from_str(word), Ok(Output::Stderr));
    }
    assert_eq!(Output::from_str("log.txt"), Ok(Output::File(String::from("log.txt"))));
    assert_eq!(Output::from_str("stdOut"), Ok(Output::File(String::from("stdOut"))));
    assert_eq!(Output::Stdout.to_string(), "<stdout>");
    assert_eq!(Output::Stderr.to_string(), "<stderr>");
    assert_eq!(Output::file("a/b.log").to_string(), "a/b.log");
    assert_eq!(Output::default(), Output::Stderr);
    assert_eq!(Output::file("p").duplicate(), Output::file("p"));
}
