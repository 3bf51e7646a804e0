use nativeclient::filesystem::{
    expand_global_root, expand_global_root_with, expand_relative_path, expand_relative_path_with,
    expansion_target_of,
};
use nativeclient::paths::{
    ancestors_of, join_paths, parent_of, path_is_absolute, relative_path,
};
use nativeclient::text::{
    comes_before, parse_i32, sort_strings, split_on, starts_with, str_equal,
};

fn as_it_is(path: &str) -> Option<String> {
    Some(path.to_string())
}

fn nowhere(_path: &str) -> Option<String> {
    None
}

fn strings(items: &[&str]) -> Vec<String> {
    items.iter().map(|item| item.to_string()).collect()
}

#[test]
fn absolute_paths_start_at_the_root() {
    assert!(path_is_absolute("/"));
    assert!(path_is_absolute("/a/b"));
    assert!(!path_is_absolute("a/b"));
    assert!(!path_is_absolute(""));
}

#[test]
fn parents_follow_the_components() {
    assert_eq!(parent_of("/a/b/c"), Some(String::from("/a/b")));
    assert_eq!(parent_of("/a"), Some(String::from("/")));
    assert_eq!(parent_of("/"), None);
    assert_eq!(parent_of(""), None);
    assert_eq!(parent_of("a/b"), Some(String::from("a")));
    assert_eq!(parent_of("a"), Some(String::from("")));
    assert_eq!(parent_of("/a/b/"), Some(String::from("/a")));
    assert_eq!(parent_of("a//b"), Some(String::from("a")));
    assert_eq!(parent_of("//"), None);
}

#[test]
fn ancestors_run_up_to_the_root() {
    assert_eq!(ancestors_of("/a/b/c"), strings(&["/a/b/c", "/a/b", "/a", "/"]));
    assert_eq!(ancestors_of("a/b"), strings(&["a/b", "a", ""]));
    assert_eq!(ancestors_of("/"), strings(&["/"]));
    assert_eq!(ancestors_of(""), strings(&[""]));
}

#[test]
fn joining_places_a_name_inside_a_directory() {
    assert_eq!(join_paths("/a", "b"), "/a/b");
    assert_eq!(join_paths("/a/", "b"), "/a/b");
    assert_eq!(join_paths("/", "b"), "/b");
    assert_eq!(join_paths("", "b"), "b");
    assert_eq!(join_paths("/a", "/b"), "/b");
    assert_eq!(join_paths("a", "b/c"), "a/b/c");
}

#[test]
fn relative_paths_are_taken_by_whole_components() {
    assert_eq!(relative_path("/a/b", "/a"), Some(String::from("b")));
    assert_eq!(relative_path("/a/b/c", "/a"), Some(String::from("b/c")));
    assert_eq!(relative_path("/a", "/a"), Some(String::from("")));
    assert_eq!(relative_path("/a/bc", "/a/b"), None);
    assert_eq!(relative_path("/a", "/"), Some(String::from("a")));
    assert_eq!(relative_path("/x/y", "/a"), None);
    assert_eq!(relative_path("a/b", ""), Some(String::from("a/b")));
    assert_eq!(relative_path("/a/b", ""), None);
    assert_eq!(relative_path("/a/b", "/a/"), Some(String::from("b")));
}

#[test]
fn texts_compare_by_their_characters() {
    assert!(str_equal("abc", "abc"));
    assert!(!str_equal("abc", "abd"));
    assert!(starts_with("//x", "//"));
    assert!(!starts_with("/x", "//"));
    assert!(starts_with("x", ""));
    assert!(comes_before("a", "b"));
    assert!(comes_before("a", "a"));
    assert!(comes_before("a", "ab"));
    assert!(!comes_before("ab", "a"));
    assert!(comes_before("a-b", "a/b"));
    assert!(comes_before("", "a"));
}

#[test]
fn sorting_orders_texts_as_a_dictionary_does() {
    let sorted = sort_strings(&strings(&["b", "a/b", "a-b", "a", "b", ""]));
    assert_eq!(sorted, strings(&["", "a", "a-b", "a/b", "b", "b"]));
    assert_eq!(sort_strings(&Vec::new()), Vec::<String>::new());
}

#[test]
fn integers_are_read_in_decimal() {
    assert_eq!(parse_i32("0"), Some(0));
    assert_eq!(parse_i32("42"), Some(42));
    assert_eq!(parse_i32("+7"), Some(7));
    assert_eq!(parse_i32("-7"), Some(-7));
    assert_eq!(parse_i32("007"), Some(7));
    assert_eq!(parse_i32("2147483647"), Some(2147483647));
    assert_eq!(parse_i32("2147483648"), None);
    assert_eq!(parse_i32("-2147483648"), Some(-2147483648));
    assert_eq!(parse_i32("-2147483649"), None);
    assert_eq!(parse_i32("99999999999999999999999"), None);
    assert_eq!(parse_i32(""), None);
    assert_eq!(parse_i32("-"), None);
    assert_eq!(parse_i32("+"), None);
    assert_eq!(parse_i32("1a"), None);
    assert_eq!(parse_i32(" 1"), None);
    assert_eq!(parse_i32("1.5"), None);
}

#[test]
fn splitting_keeps_empty_parts() {
    assert_eq!(split_on("3.8.10", '.'), strings(&["3", "8", "10"]));
    assert_eq!(split_on("3", '.'), strings(&["3"]));
    assert_eq!(split_on("", '.'), strings(&[""]));
    assert_eq!(split_on("3.", '.'), strings(&["3", ""]));
    assert_eq!(split_on(".3", '.'), strings(&["", "3"]));
    assert_eq!(split_on("a..b", '.'), strings(&["a", "", "b"]));
}

#[test]
fn expansion_targets_ignore_the_root_for_absolute_paths() {
    assert_eq!(expansion_target_of("/root", "/abs/path"), "/abs/path");
    assert_eq!(expansion_target_of("/other", "/abs/path"), "/abs/path");
    assert_eq!(expansion_target_of("/root", "rel/path"), "/root/rel/path");
}

#[test]
fn absolute_paths_expand_to_their_resolution_whatever_the_root() {
    let first = expand_relative_path_with("/root", "/abs/path", &as_it_is).expect("resolved");
    let second = expand_relative_path_with("/elsewhere", "/abs/path", &as_it_is).expect("resolved");
    assert_eq!(first, "/abs/path");
    assert_eq!(second, "/abs/path");
}

#[test]
fn relative_paths_expand_to_absolute_paths_and_stay_there() {
    let expanded = expand_relative_path_with("/root", "sub/file", &as_it_is).expect("resolved");
    assert_eq!(expanded, "/root/sub/file");
    assert!(path_is_absolute(&expanded));
    let again = expand_relative_path_with("/any/other", &expanded, &as_it_is).expect("resolved");
    assert_eq!(again, expanded);
}

#[test]
fn expansion_fails_with_the_path_that_could_not_be_resolved() {
    let failure = expand_relative_path_with("/root", "sub", &nowhere).expect_err("unresolved");
    assert_eq!(failure.path, "/root/sub");
    let relative = |_path: &str| Some(String::from("not/absolute"));
    let failure = expand_relative_path_with("/root", "sub", &relative).expect_err("unresolved");
    assert_eq!(failure.path, "/root/sub");
}

#[test]
fn global_root_marker_is_expanded_against_the_global_root() {
    let expanded = expand_global_root_with("//sub/dir", "/proj", &as_it_is).expect("resolved");
    assert_eq!(expanded, "/proj/sub/dir");
}

#[test]
fn paths_without_the_marker_are_left_alone() {
    let unchanged = expand_global_root("rel/dir", "/proj").expect("unchanged");
    assert_eq!(unchanged, "rel/dir");
    let unchanged = expand_global_root_with("rel/dir", "/proj", &nowhere).expect("unchanged");
    assert_eq!(unchanged, "rel/dir");
    let unchanged = expand_global_root_with("/abs/dir", "/proj", &nowhere).expect("unchanged");
    assert_eq!(unchanged, "/abs/dir");
}

#[test]
fn expansion_on_disk_canonicalizes() {
    assert_eq!(expand_relative_path("/", ".").expect("the root exists"), "/");
    assert_eq!(expand_relative_path("/nowhere", "/").expect("the root exists"), "/");
    let failure = expand_relative_path("/", "no-such-directory-b1946ac9/x").expect_err("missing");
    assert_eq!(failure.path, "/no-such-directory-b1946ac9/x");
    let expanded = expand_global_root("//.", "/").expect("the root exists");
    assert_eq!(expanded, "/");
}
