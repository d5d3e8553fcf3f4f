use cxon::paths::{add_extension_str, extension_str, join_str, normalize_path, set_extension_str};
use cxon::strutil::{eq_ignore_case, prefix_each, split_ws, str_eq};

#[test]
fn extension_of_simple_file() {
    assert_eq!(extension_str("/proj/src/a.c").as_deref(), Some("c"));
    assert_eq!(extension_str("archive.tar.gz").as_deref(), Some("gz"));
}

#[test]
fn extension_of_dotless_and_hidden_files() {
    assert_eq!(extension_str("/proj/Makefile"), None);
    assert_eq!(extension_str("/proj/.hidden"), None);
    assert_eq!(extension_str("dir.with.dots/file"), None);
}

#[test]
fn set_extension_replaces_or_appends() {
    assert_eq!(set_extension_str("/b/src/a.c", "o"), "/b/src/a.o");
    assert_eq!(set_extension_str("/out/demo", "a"), "/out/demo.a");
    assert_eq!(set_extension_str("/b/a.cpp", ""), "/b/a");
}

#[test]
fn add_extension_appends_after_existing() {
    assert_eq!(add_extension_str("/out/demo", "exe"), "/out/demo.exe");
    assert_eq!(add_extension_str("/out/demo.1", "exe"), "/out/demo.1.exe");
    assert_eq!(add_extension_str("/out/demo", ""), "/out/demo");
}

#[test]
fn join_inserts_one_separator() {
    assert_eq!(join_str("/out", "demo"), "/out/demo");
    assert_eq!(join_str("/out/", "demo"), "/out/demo");
    assert_eq!(join_str("", "demo"), "demo");
    assert_eq!(join_str("/out", "/abs/demo"), "/abs/demo");
}

#[test]
fn normalize_strips_verbatim_prefix() {
    assert_eq!(normalize_path("\\\\?\\C:\\x\\y"), "C:\\x\\y");
    assert_eq!(normalize_path("/plain/path"), "/plain/path");
    assert_eq!(normalize_path("\\\\x"), "\\\\x");
}

#[test]
fn split_on_spaces() {
    let parts = split_ws("-shared -fPIC -o");
    assert_eq!(parts, vec!["-shared", "-fPIC", "-o"]);
    assert_eq!(split_ws("rcs"), vec!["rcs"]);
    assert_eq!(split_ws(""), vec![""]);
    assert_eq!(split_ws("a  b"), vec!["a", "", "b"]);
}

#[test]
fn string_equality_helpers() {
    assert!(str_eq("gnu", "gnu"));
    assert!(!str_eq("gnu", "gnU"));
    assert!(eq_ignore_case("EXEcutable", "executable"));
    assert!(eq_ignore_case("Static_Lib", "static_lib"));
    assert!(!eq_ignore_case("llvm", "msvc"));
}

#[test]
fn prefix_each_glues_prefix_onto_items() {
    let items = vec!["FOO".to_string(), "BAR=1".to_string()];
    assert_eq!(prefix_each("-D", &items), vec!["-DFOO", "-DBAR=1"]);
    let none: Vec<String> = Vec::new();
    assert_eq!(prefix_each("-I", &none), Vec::<String>::new());
}
