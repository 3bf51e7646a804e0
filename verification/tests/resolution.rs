use nativeclient::command_arguments::{CheckArgs, CommandArguments, Commands};
use nativeclient::configuration::create::{
    check_local_configuration, create_configuration, create_configuration_from,
    create_configuration_with, layer_from_file, layer_from_text, search_base_of,
};
use nativeclient::configuration::error::{ConfigurationError, Diagnostic, ExpectedType};
use nativeclient::configuration::python_version::PythonVersion;
use nativeclient::configuration::search_path::SimpleRawElement;
use nativeclient::find_directories::FoundRoot;

const GLOBAL: &str = r#"{
    "binary": "bin/pyre",
    "strict": false,
    "workers": 2,
    "exclude": ["generated"],
    "do_not_ignore_errors_in": ["global"],
    "search_path": ["stubs", "//shared"],
    "targets": ["//global:target"],
    "surprise": 1
}"#;

const LOCAL: &str = r#"{
    "workers": 8,
    "do_not_ignore_errors_in": ["here"],
    "source_directories": ["."],
    "do_not_check": []
}"#;

fn as_it_is(path: &str) -> Option<String> {
    Some(path.to_string())
}

fn project_files(path: &str) -> bool {
    path == "/proj/.pyre_configuration" || path == "/proj/local/.pyre_configuration.local"
}

fn global_only(path: &str) -> bool {
    path == "/proj/.pyre_configuration"
}

fn no_files(_path: &str) -> bool {
    false
}

fn project_texts(path: &str) -> Option<String> {
    if path == "/proj/.pyre_configuration" {
        Some(GLOBAL.to_string())
    } else if path == "/proj/local/.pyre_configuration.local" {
        Some(LOCAL.to_string())
    } else {
        None
    }
}

fn unreadable(_path: &str) -> Option<String> {
    None
}

fn strings(items: &[&str]) -> Vec<String> {
    items.iter().map(|item| item.to_string()).collect()
}

fn arguments() -> CommandArguments {
    CommandArguments::new(Commands::Check(CheckArgs::new()))
}

#[test]
fn layers_are_laid_global_then_local_then_command_line() {
    let mut given = arguments();
    given.strict = true;
    given.do_not_ignore_errors_in = strings(&["cli"]);
    given.python_version = Some(String::from("3.9"));
    let (configuration, warnings) = create_configuration_with(
        given,
        "/proj/local/deep",
        "/cwd",
        &project_files,
        &project_texts,
        &as_it_is,
    )
    .expect("a configuration");
    assert_eq!(configuration.project_root, "/proj");
    assert_eq!(configuration.relative_local_root, Some(String::from("local")));
    assert_eq!(configuration.dot_pyre_directory, "/proj/.pyre");
    assert_eq!(configuration.binary, Some(String::from("/proj/bin/pyre")));
    assert!(configuration.strict);
    assert_eq!(configuration.number_of_workers, Some(8));
    assert_eq!(configuration.excludes, strings(&["generated"]));
    assert_eq!(
        configuration.do_not_ignore_errors_in,
        strings(&["/proj/global", "/proj/local/here", "/cwd/cli"])
    );
    assert_eq!(configuration.search_path, strings(&["/proj/stubs", "/proj/shared"]));
    assert_eq!(configuration.source_directories, Some(strings(&["/proj/local/."])));
    assert_eq!(configuration.targets, Some(strings(&["//global:target"])));
    assert_eq!(configuration.python_version, Some(PythonVersion { major: 3, minor: 9, micro: 0 }));
    assert_eq!(
        warnings,
        vec![
            Diagnostic::UnrecognizedItem { key: String::from("surprise") },
            Diagnostic::DeprecatedItem {
                key: String::from("do_not_check"),
                replacement: String::from("ignore_all_errors"),
            },
        ]
    );
}

#[test]
fn global_configuration_alone_is_enough() {
    let mut given = arguments();
    given.targets = strings(&["//cli:target"]);
    let (configuration, warnings) = create_configuration_with(
        given,
        "/proj/sub",
        "/cwd",
        &global_only,
        &project_texts,
        &as_it_is,
    )
    .expect("a configuration");
    assert_eq!(configuration.project_root, "/proj");
    assert_eq!(configuration.relative_local_root, None);
    assert!(!configuration.strict);
    assert_eq!(configuration.number_of_workers, Some(2));
    assert_eq!(configuration.targets, Some(strings(&["//cli:target"])));
    assert_eq!(configuration.do_not_ignore_errors_in, strings(&["/proj/global"]));
    assert_eq!(warnings, vec![Diagnostic::UnrecognizedItem { key: String::from("surprise") }]);
}

#[test]
fn without_a_project_the_current_directory_is_the_root() {
    let mut given = arguments();
    given.binary = Some(String::from("tool"));
    given.search_path = strings(&["//stubs", "lib"]);
    let (configuration, warnings) = create_configuration_with(
        given,
        "/somewhere",
        "/cwd",
        &no_files,
        &unreadable,
        &as_it_is,
    )
    .expect("a configuration");
    assert_eq!(configuration.project_root, "/cwd");
    assert_eq!(configuration.dot_pyre_directory, "/cwd/.pyre");
    assert_eq!(configuration.relative_local_root, None);
    assert_eq!(configuration.binary, Some(String::from("/cwd/tool")));
    assert_eq!(configuration.search_path, strings(&["/cwd/stubs", "/cwd/lib"]));
    assert!(warnings.is_empty());
}

#[test]
fn requested_local_configuration_is_found_below_the_base() {
    let mut given = arguments();
    given.local_configuration = Some(String::from("local"));
    let (configuration, _) = create_configuration_with(
        given,
        "/proj",
        "/cwd",
        &project_files,
        &project_texts,
        &as_it_is,
    )
    .expect("a configuration");
    assert_eq!(configuration.project_root, "/proj");
    assert_eq!(configuration.relative_local_root, Some(String::from("local")));
    assert_eq!(configuration.number_of_workers, Some(8));
}

#[test]
fn missing_local_configuration_is_fatal_when_requested() {
    let mut given = arguments();
    given.local_configuration = Some(String::from("other"));
    let failure = create_configuration_with(
        given,
        "/proj",
        "/cwd",
        &project_files,
        &project_texts,
        &as_it_is,
    )
    .expect_err("a failure");
    match failure {
        ConfigurationError::MissingLocalConfiguration { file_name, search_base } => {
            assert_eq!(file_name, ".pyre_configuration.local");
            assert_eq!(search_base, "/proj/other");
        }
        other => panic!("expected a missing local configuration, got {:?}", other),
    }
    let mut given = arguments();
    given.local_configuration = Some(String::from("local"));
    let failure = create_configuration_with(
        given,
        "/elsewhere",
        "/cwd",
        &project_files,
        &project_texts,
        &as_it_is,
    )
    .expect_err("a failure");
    match failure {
        ConfigurationError::MissingLocalConfiguration { file_name, search_base } => {
            assert_eq!(file_name, ".pyre_configuration");
            assert_eq!(search_base, "/elsewhere/local");
        }
        other => panic!("expected a missing configuration, got {:?}", other),
    }
}

#[test]
fn failures_of_a_layer_end_the_resolution() {
    let broken = |path: &str| {
        if path == "/proj/.pyre_configuration" {
            Some(String::from(r#"{"workers": "four"}"#))
        } else {
            None
        }
    };
    let failure = create_configuration_with(
        arguments(),
        "/proj",
        "/cwd",
        &global_only,
        &broken,
        &as_it_is,
    )
    .expect_err("a failure");
    match failure {
        ConfigurationError::InvalidField { field, expected, .. } => {
            assert_eq!(field, "workers");
            assert_eq!(expected, ExpectedType::Integer);
        }
        other => panic!("expected an invalid field, got {:?}", other),
    }
    let failure = create_configuration_with(
        arguments(),
        "/proj",
        "/cwd",
        &global_only,
        &unreadable,
        &as_it_is,
    )
    .expect_err("a failure");
    match failure {
        ConfigurationError::UnreadableFile { file } => {
            assert_eq!(file, "/proj/.pyre_configuration")
        }
        other => panic!("expected an unreadable file, got {:?}", other),
    }
    let failure = create_configuration_with(
        arguments(),
        "/proj/local",
        "/cwd",
        &project_files,
        &project_texts,
        &|path: &str| if path.starts_with("/proj/local") { None } else { Some(path.to_string()) },
    )
    .expect_err("a failure");
    match failure {
        ConfigurationError::UnresolvablePath { path } => assert_eq!(path.path, "/proj/local/here"),
        other => panic!("expected an unresolvable path, got {:?}", other),
    }
    let mut given = arguments();
    given.python_version = Some(String::from("x"));
    let failure = create_configuration_with(
        given,
        "/proj",
        "/cwd",
        &project_files,
        &project_texts,
        &as_it_is,
    )
    .expect_err("a failure");
    assert!(matches!(failure, ConfigurationError::InvalidPythonVersion { .. }));
}

#[test]
fn search_base_follows_the_requested_local_configuration() {
    assert_eq!(search_base_of("/base", &None), "/base");
    assert_eq!(search_base_of("/base", &Some(String::from("sub/dir"))), "/base/sub/dir");
    assert_eq!(search_base_of("/base", &Some(String::from("/abs"))), "/abs");
}

#[test]
fn local_configuration_is_checked_only_when_requested() {
    let both = Some(FoundRoot::new(String::from("/a"), Some(String::from("/a/b"))));
    let global = Some(FoundRoot::new(String::from("/a"), None));
    assert!(check_local_configuration(false, &None, "/a").is_ok());
    assert!(check_local_configuration(false, &global, "/a").is_ok());
    assert!(check_local_configuration(true, &both, "/a/b").is_ok());
    assert!(check_local_configuration(true, &global, "/a").is_err());
    assert!(check_local_configuration(true, &None, "/a").is_err());
}

#[test]
fn layers_of_files_are_expanded_against_their_directory() {
    let (layer, warnings) =
        layer_from_text(r#"{"binary": "bin", "nonsense": 1}"#, "/dir", &as_it_is).expect("a layer");
    assert_eq!(layer.binary, Some(String::from("/dir/bin")));
    assert_eq!(warnings, vec![Diagnostic::UnrecognizedItem { key: String::from("nonsense") }]);
    let (layer, _) = layer_from_file(
        "/proj/local/.pyre_configuration.local",
        "/proj/local",
        &project_texts,
        &as_it_is,
    )
    .expect("a layer");
    assert_eq!(layer.source_directories, Some(vec![SimpleRawElement { root: String::from("/proj/local/.") }]));
    let failure = layer_from_file("/nowhere", "/", &project_texts, &as_it_is).expect_err("failure");
    assert!(matches!(failure, ConfigurationError::UnreadableFile { .. }));
    let failure = layer_from_text("{", "/", &as_it_is).expect_err("failure");
    assert!(matches!(failure, ConfigurationError::InvalidJson));
}

#[test]
fn resolution_from_given_roots_skips_discovery() {
    let roots = Some(FoundRoot::new(String::from("/proj"), None));
    let (configuration, _) = create_configuration_from(
        arguments(),
        "/proj",
        "/cwd",
        roots,
        &project_texts,
        &as_it_is,
    )
    .expect("a configuration");
    assert_eq!(configuration.project_root, "/proj");
    assert_eq!(configuration.number_of_workers, Some(2));
}

#[test]
fn resolution_on_disk_falls_back_to_the_current_directory() {
    let mut given = arguments();
    given.strict = true;
    let (configuration, warnings) =
        create_configuration(given, "/no-such-directory-b1946ac9", "/", &unreadable)
            .expect("a configuration");
    assert_eq!(configuration.project_root, "/");
    assert_eq!(configuration.dot_pyre_directory, "/.pyre");
    assert!(configuration.strict);
    assert!(warnings.is_empty());
}
