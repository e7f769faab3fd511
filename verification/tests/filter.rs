use fmtlog::{Module, Modules};

fn filter(paths: &[&str]) -> Modules {
    let mut m = Modules::new();
    for p in paths {
        m = m.append(Module::new(p));
    }
    m
}

fn entries(m: &Modules) -> Vec<String> {
    m.0.iter().map(|e| e.to_string()).collect()
}

#[test]
fn parent_then_child_keeps_the_parent() {
    let m = filter(&["app", "app::db"]);
    assert_eq!(entries(&m), vec!["app"]);
    assert!(m.contains("app::db::pool"));
    assert!(m.contains("app::db"));
    assert!(m.contains("app"));
    assert!(!m.contains("other"));
}

#[test]
fn child_then_parent_keeps_the_parent() {
    let m = filter(&["app::db", "app"]);
    assert_eq!(entries(&m), vec!["app"]);
    assert!(m.contains("app::db::pool"));
    assert!(!m.contains("other"));
}

#[test]
fn empty_filter_allows_everything() {
    let m = Modules::new();
    assert!(entries(&m).is_empty());
    for s in ["", "app", "app::db", "::", "anything at all", "é"] {
        assert!(m.contains(s));
    }
}

#[test]
fn prefix_needs_the_separator() {
    let m = filter(&["net"]);
    assert!(m.contains("net"));
    assert!(m.contains("net::tcp"));
    assert!(!m.contains("network"));
    assert!(!m.contains("net:tcp"));
    assert!(!m.contains("net:"));
    assert!(!m.contains("ne"));
    assert!(!m.contains("xnet::tcp"));
}

#[test]
fn unrelated_entries_stay_in_order() {
    let m = filter(&["b::x", "a", "b::y", "c", "b"]);
    assert_eq!(entries(&m), vec!["a", "c", "b"]);
    let m = filter(&["a", "b", "a"]);
    assert_eq!(entries(&m), vec!["a", "b"]);
}

#[test]
fn module_relations() {
    let app = Module::new("app");
    let db = Module::new("app::db");
    let apple = Module::new("apple");
    assert!(app.is_parent(&db));
    assert!(app.is_parent(&app));
    assert!(!db.is_parent(&app));
    assert!(!app.is_parent(&apple));
    assert!(db.is_child(&app));
    assert!(!app.is_child(&db));
    assert_eq!(db.to_string(), "app::db");
    assert_eq!(db.duplicate(), db);
}

#[test]
fn filter_from_a_list() {
    let list = vec![String::from("x::y"), String::from("z"), String::from("x")];
    let m = Modules::from_list(&list);
    assert_eq!(entries(&m), vec!["z", "x"]);
}
