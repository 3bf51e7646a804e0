use nativeclient::configuration::error::Diagnostic;
use nativeclient::configuration::search_path::{
    _expand_relative_root, _expand_relative_root_with, elements_from, Element, RawElement,
    SimpleElement, SimpleRawElement,
};

fn as_it_is(path: &str) -> Option<String> {
    Some(path.to_string())
}

fn nowhere(_path: &str) -> Option<String> {
    None
}

fn element(root: &str) -> SimpleRawElement {
    SimpleRawElement { root: root.to_string() }
}

#[test]
fn relative_root_leaves_the_global_marker_for_later() {
    assert_eq!(_expand_relative_root_with("//x", "/root", &nowhere).expect("unchanged"), "//x");
    assert_eq!(_expand_relative_root_with("x", "/root", &as_it_is).expect("expanded"), "/root/x");
    assert_eq!(_expand_relative_root_with("/x", "/root", &as_it_is).expect("expanded"), "/x");
    assert_eq!(_expand_relative_root_with("x", "/root", &nowhere).expect_err("failure").path, "/root/x");
    assert_eq!(_expand_relative_root("//x", "/root").expect("unchanged"), "//x");
    assert_eq!(_expand_relative_root(".", "/").expect("expanded"), "/");
}

#[test]
fn elements_expand_their_roots() {
    let expanded = element("//sub/dir").expand_global_root_with("/proj", &as_it_is);
    assert_eq!(expanded.expect("expanded"), element("/proj/sub/dir"));
    let unchanged = element("rel/dir").expand_global_root_with("/proj", &nowhere);
    assert_eq!(unchanged.expect("unchanged"), element("rel/dir"));
    let unchanged = element("rel/dir").expand_global_root("/proj");
    assert_eq!(unchanged.expect("unchanged"), element("rel/dir"));
    let expanded = element("rel").expand_relative_root_with("/root", &as_it_is);
    assert_eq!(expanded.expect("expanded"), element("/root/rel"));
    let unchanged = element("//rel").expand_relative_root_with("/root", &nowhere);
    assert_eq!(unchanged.expect("unchanged"), element("//rel"));
    let unchanged = element("//rel").expand_relative_root("/root");
    assert_eq!(unchanged.expect("unchanged"), element("//rel"));
    let failure = element("//rel").expand_global_root_with("/proj", &nowhere);
    assert_eq!(failure.expect_err("failure").path, "/proj/rel");
}

#[test]
fn elements_give_their_path() {
    let expanded: SimpleElement = element("/a/b").to_element();
    assert_eq!(expanded.path(), "/a/b");
    assert_eq!(expanded.command_line_argument(), "/a/b");
    assert_eq!(
        elements_from(vec![String::from("a"), String::from("b")]),
        vec![element("a"), element("b")]
    );
}

#[test]
fn matches_come_out_sorted() {
    let matches = Some(vec![
        Some(String::from("/lib/b")),
        None,
        Some(String::from("/lib/a")),
        Some(String::from("/lib/a-z")),
    ]);
    let (elements, warnings) = SimpleRawElement::from_matches("/lib/*", matches);
    assert_eq!(elements, vec![element("/lib/a"), element("/lib/a-z"), element("/lib/b")]);
    assert!(warnings.is_empty());
}

#[test]
fn no_match_gives_a_warning() {
    let (elements, warnings) = SimpleRawElement::from_matches("/lib/*", Some(Vec::new()));
    assert!(elements.is_empty());
    assert_eq!(warnings, vec![Diagnostic::NoMatch { pattern: String::from("/lib/*") }]);
    let (elements, warnings) = SimpleRawElement::from_matches("/lib/*", Some(vec![None]));
    assert!(elements.is_empty());
    assert_eq!(warnings, vec![Diagnostic::NoMatch { pattern: String::from("/lib/*") }]);
    let (elements, warnings) = SimpleRawElement::from_matches("[", None);
    assert!(elements.is_empty());
    assert_eq!(warnings, vec![Diagnostic::NoMatch { pattern: String::from("[") }]);
}

#[test]
fn patterns_are_expanded_on_disk() {
    let (elements, warnings) = element("/etc/passw?").expand_glob();
    assert_eq!(elements, vec![element("/etc/passwd")]);
    assert!(warnings.is_empty());
    let (elements, warnings) = element("/no-such-directory-b1946ac9/*").expand_glob();
    assert!(elements.is_empty());
    assert_eq!(
        warnings,
        vec![Diagnostic::NoMatch { pattern: String::from("/no-such-directory-b1946ac9/*") }]
    );
}
