use nativeclient::find_directories::{
    _find_parent_directory_containing, find_global_and_local_root,
    find_global_and_local_root_with, find_parent_directory_containing_file,
    get_relative_local_root, lies_strictly_below, FoundRoot, CONFIGURATION_FILE,
    LOCAL_CONFIGURATION_FILE, LOG_DIRECTORY,
};

#[test]
fn discovery_reports_global_and_local_root() {
    let present = |path: &str| {
        path == "/a/.pyre_configuration" || path == "/a/b/.pyre_configuration.local"
    };
    let found = find_global_and_local_root_with("/a/b/c", &present).expect("a global root");
    assert_eq!(found.global_root, "/a");
    assert_eq!(found.local_root, Some(String::from("/a/b")));
}

#[test]
fn discovery_drops_local_root_above_global_root() {
    let present = |path: &str| {
        path == "/a/b/.pyre_configuration" || path == "/a/.pyre_configuration.local"
    };
    let found = find_global_and_local_root_with("/a/b/c", &present).expect("a global root");
    assert_eq!(found.global_root, "/a/b");
    assert_eq!(found.local_root, None);
}

#[test]
fn discovery_drops_local_root_beside_global_configuration() {
    let present = |path: &str| {
        path == "/a/.pyre_configuration" || path == "/a/.pyre_configuration.local"
    };
    let found = find_global_and_local_root_with("/a/b", &present).expect("a global root");
    assert_eq!(found.global_root, "/a");
    assert_eq!(found.local_root, None);
}

#[test]
fn discovery_finds_nothing_without_global_configuration() {
    let present = |path: &str| path == "/a/b/.pyre_configuration.local";
    assert!(find_global_and_local_root_with("/a/b/c", &present).is_none());
}

#[test]
fn discovery_reports_global_root_alone() {
    let present = |path: &str| path == "/.pyre_configuration";
    let found = find_global_and_local_root_with("/a/b", &present).expect("a global root");
    assert_eq!(found.global_root, "/");
    assert_eq!(found.local_root, None);
}

#[test]
fn nearest_directory_wins() {
    let present = |path: &str| path == "/a/target" || path == "/a/b/target";
    assert_eq!(
        _find_parent_directory_containing("/a/b/c", "target", &present, None),
        Some(String::from("/a/b"))
    );
    assert_eq!(
        _find_parent_directory_containing("/a/b", "target", &present, None),
        Some(String::from("/a/b"))
    );
    assert_eq!(_find_parent_directory_containing("/x/y", "target", &present, None), None);
}

#[test]
fn search_stops_after_the_bound() {
    let present = |path: &str| path == "/a/target";
    assert_eq!(
        _find_parent_directory_containing("/a/b/c", "target", &present, Some(2)),
        Some(String::from("/a"))
    );
    assert_eq!(_find_parent_directory_containing("/a/b/c", "target", &present, Some(1)), None);
    assert_eq!(_find_parent_directory_containing("/a/b/c", "target", &present, Some(0)), None);
    let here = |path: &str| path == "/a/b/c/target";
    assert_eq!(
        _find_parent_directory_containing("/a/b/c", "target", &here, Some(0)),
        Some(String::from("/a/b/c"))
    );
    assert_eq!(
        _find_parent_directory_containing("/a/b/c", "target", &present, Some(-1)),
        Some(String::from("/a"))
    );
    assert_eq!(
        _find_parent_directory_containing("/a/b/c", "target", &present, Some(100)),
        Some(String::from("/a"))
    );
}

#[test]
fn relative_search_reaches_the_empty_path() {
    let present = |path: &str| path == "target";
    assert_eq!(
        _find_parent_directory_containing("a/b", "target", &present, None),
        Some(String::from(""))
    );
}

#[test]
fn roots_keep_a_local_root_only_strictly_below() {
    let roots = FoundRoot::new(String::from("/a"), Some(String::from("/a/b")));
    assert_eq!(roots.local_root, Some(String::from("/a/b")));
    let roots = FoundRoot::new(String::from("/a"), Some(String::from("/a")));
    assert_eq!(roots.local_root, None);
    let roots = FoundRoot::new(String::from("/a/b"), Some(String::from("/a")));
    assert_eq!(roots.local_root, None);
    let roots = FoundRoot::new(String::from("/a"), Some(String::from("/b/c")));
    assert_eq!(roots.local_root, None);
    let roots = FoundRoot::new(String::from("/a"), None);
    assert_eq!(roots.global_root, "/a");
    assert_eq!(roots.local_root, None);
    assert!(lies_strictly_below("/a/b/c", "/a"));
    assert!(lies_strictly_below("/a", "/"));
    assert!(!lies_strictly_below("/a", "/a"));
    assert!(!lies_strictly_below("/ab", "/a"));
}

#[test]
fn relative_local_root_is_seen_from_the_global_root() {
    assert_eq!(
        get_relative_local_root("/a", &Some(String::from("/a/b"))),
        Some(String::from("b"))
    );
    assert_eq!(
        get_relative_local_root("/a", &Some(String::from("/a/b/c"))),
        Some(String::from("b/c"))
    );
    assert_eq!(get_relative_local_root("/a", &None), None);
    assert_eq!(get_relative_local_root("/a/b", &Some(String::from("/a"))), None);
    assert_eq!(get_relative_local_root("/a", &Some(String::from("/x/y"))), None);
}

#[test]
fn discovery_constants_name_the_files() {
    assert_eq!(CONFIGURATION_FILE, ".pyre_configuration");
    assert_eq!(LOCAL_CONFIGURATION_FILE, ".pyre_configuration.local");
    assert_eq!(LOG_DIRECTORY, ".pyre");
}

#[test]
fn search_on_disk_finds_regular_files() {
    assert_eq!(
        find_parent_directory_containing_file("/etc", "passwd", None),
        Some(String::from("/etc"))
    );
    assert_eq!(
        find_parent_directory_containing_file("/etc/no-such-directory-b1946ac9", "passwd", None),
        Some(String::from("/etc"))
    );
    assert_eq!(
        find_parent_directory_containing_file("/etc", "no-such-file-b1946ac9", None),
        None
    );
    assert_eq!(find_parent_directory_containing_file("/", "etc", None), None);
    assert!(find_global_and_local_root("/no-such-directory-b1946ac9/x").is_none());
}
