use syan::walk::is_source_extension;
use syan::{visit, Visit};

#[test]
fn source_files_are_parsed() {
    assert_eq!(visit(true, Some("c"), false), Visit::Parse);
}

#[test]
fn directories_are_gone_through() {
    assert_eq!(visit(false, None, true), Visit::Descend);
    assert_eq!(visit(false, Some("c"), true), Visit::Descend);
    assert_eq!(visit(false, Some("d"), true), Visit::Descend);
}

#[test]
fn the_rest_is_passed_by() {
    assert_eq!(visit(true, None, false), Visit::Skip);
    assert_eq!(visit(true, Some("h"), false), Visit::Skip);
    assert_eq!(visit(true, Some("C"), false), Visit::Skip);
    assert_eq!(visit(true, Some("cc"), false), Visit::Skip);
    assert_eq!(visit(true, Some(""), false), Visit::Skip);
    assert_eq!(visit(false, Some("c"), false), Visit::Skip);
    assert_eq!(visit(false, None, false), Visit::Skip);
}

#[test]
fn the_extension_of_source_files() {
    assert!(is_source_extension("c"));
    assert!(!is_source_extension("sy"));
    assert!(!is_source_extension(""));
    assert!(!is_source_extension("c "));
}
