use nativeclient::configuration::configuration::PartialConfiguration;
use nativeclient::configuration::error::{ConfigurationError, Diagnostic, ExpectedType};
use nativeclient::configuration::extension::ExtensionElement;
use nativeclient::configuration::ide_features::IdeFeatures;
use nativeclient::configuration::platform_aware::PlatformAware;
use nativeclient::configuration::python_version::{
    PythonVersion, FORM_FAILURE, PARSE_FAILURE,
};
use nativeclient::configuration::search_path::SimpleRawElement;
use nativeclient::configuration::shared_memory::SharedMemory;
use nativeclient::configuration::site_packages::SearchStrategy;
use nativeclient::configuration::unwatched::{
    path_stays_below, UnwatchedDependency, UnwatchedFiles,
};
use nativeclient::json::JsonValue;

fn decode(text: &str) -> (PartialConfiguration, Vec<Diagnostic>) {
    PartialConfiguration::from_string(text).expect("a layer")
}

fn failure(text: &str) -> ConfigurationError {
    PartialConfiguration::from_string(text).expect_err("a failure")
}

fn invalid_field(text: &str) -> (String, ExpectedType, JsonValue) {
    match failure(text) {
        ConfigurationError::InvalidField { field, expected, actual } => (field, expected, actual),
        other => panic!("expected an invalid field, got {:?}", other),
    }
}

fn strings(items: &[&str]) -> Vec<String> {
    items.iter().map(|item| item.to_string()).collect()
}

fn elements(items: &[&str]) -> Vec<SimpleRawElement> {
    items.iter().map(|item| SimpleRawElement { root: item.to_string() }).collect()
}

#[test]
fn workers_must_be_an_integer() {
    let (field, expected, actual) = invalid_field(r#"{"workers": "four"}"#);
    assert_eq!(field, "workers");
    assert_eq!(expected, ExpectedType::Integer);
    assert!(matches!(actual, JsonValue::String(ref text) if text == "four"));
}

#[test]
fn deprecated_item_is_reported_and_not_migrated() {
    let (layer, warnings) = decode(r#"{"do_not_check": ["x"]}"#);
    assert_eq!(
        warnings,
        vec![Diagnostic::DeprecatedItem {
            key: String::from("do_not_check"),
            replacement: String::from("ignore_all_errors"),
        }]
    );
    assert!(layer.ignore_all_errors.is_empty());
}

#[test]
fn empty_object_sets_nothing() {
    let (layer, warnings) = decode("{}");
    assert!(warnings.is_empty());
    assert_eq!(layer.binary, None);
    assert_eq!(layer.buck_mode, None);
    assert!(layer.do_not_ignore_errors_in.is_empty());
    assert_eq!(layer.dot_pyre_directory, None);
    assert!(layer.excludes.is_empty());
    assert!(layer.extensions.is_empty());
    assert_eq!(layer.ide_features, None);
    assert!(layer.ignore_all_errors.is_empty());
    assert_eq!(layer.isolation_prefix, None);
    assert_eq!(layer.logger, None);
    assert_eq!(layer.number_of_workers, None);
    assert_eq!(layer.oncall, None);
    assert!(layer.other_critical_files.is_empty());
    assert_eq!(layer.pysa_version_hash, None);
    assert_eq!(layer.python_version, None);
    assert!(layer.search_path.is_empty());
    assert_eq!(
        layer.shared_memory,
        SharedMemory { heap_size: None, dependency_table_power: None, hash_table_power: None }
    );
    assert_eq!(layer.site_package_search_strategy, None);
    assert_eq!(layer.site_roots, None);
    assert_eq!(layer.source_directories, None);
    assert_eq!(layer.strict, None);
    assert!(layer.taint_models_path.is_empty());
    assert_eq!(layer.targets, None);
    assert_eq!(layer.typeshed, None);
    assert_eq!(layer.unwatched_dependency, None);
    assert_eq!(layer.use_buck2, None);
    assert_eq!(layer.version_hash, None);
}

#[test]
fn every_item_is_decoded() {
    let text = r#"{
        "binary": "bin/pyre",
        "buck_mode": "opt",
        "do_not_ignore_errors_in": ["a", "b"],
        "dot_pyre_directory": ".state",
        "exclude": "*.generated",
        "extensions": [{"suffix": ".pyi", "include_suffix_in_module_qualifier": true}, {"suffix": ".thrift"}],
        "ide_features": {"hover_enabled": true, "find_symbols_enabled": false},
        "ignore_all_errors": ["vendor"],
        "isolation_prefix": "iso",
        "logger": "log",
        "workers": 4,
        "oncall": "team",
        "critical_files": ["setup.py"],
        "pysa_version": "abc",
        "python_version": "3.8.10",
        "search_path": ["stubs", "//third-party"],
        "shared_memory": {"heap_size": 1024, "hash_table_power": 20},
        "site_package_search_strategy": "pep561",
        "site_roots": ["/site"],
        "source_directories": ["src"],
        "strict": true,
        "taint_models_path": ["taint"],
        "targets": ["//a:b"],
        "typeshed": "typeshed",
        "unwatched_dependency": {"change_indicator": "lock", "files": {"root": "deps", "checksum_path": "sums.json"}},
        "use_buck2": false,
        "version": "deadbeef"
    }"#;
    let (layer, warnings) = decode(text);
    assert!(warnings.is_empty());
    assert_eq!(layer.binary, Some(String::from("bin/pyre")));
    assert_eq!(layer.buck_mode, Some(PlatformAware::Single(String::from("opt"))));
    assert_eq!(layer.do_not_ignore_errors_in, strings(&["a", "b"]));
    assert_eq!(layer.dot_pyre_directory, Some(String::from(".state")));
    assert_eq!(layer.excludes, strings(&["*.generated"]));
    assert_eq!(
        layer.extensions,
        vec![
            ExtensionElement {
                suffix: String::from(".pyi"),
                include_suffix_in_module_qualifier: true,
            },
            ExtensionElement {
                suffix: String::from(".thrift"),
                include_suffix_in_module_qualifier: false,
            },
        ]
    );
    assert_eq!(
        layer.ide_features,
        Some(IdeFeatures {
            hover_enabled: Some(true),
            go_to_definition_enabled: None,
            find_symbols_enabled: Some(false),
            find_all_references_enabled: None,
        })
    );
    assert_eq!(layer.ignore_all_errors, strings(&["vendor"]));
    assert_eq!(layer.isolation_prefix, Some(String::from("iso")));
    assert_eq!(layer.logger, Some(String::from("log")));
    assert_eq!(layer.number_of_workers, Some(4));
    assert_eq!(layer.oncall, Some(String::from("team")));
    assert_eq!(layer.other_critical_files, strings(&["setup.py"]));
    assert_eq!(layer.pysa_version_hash, Some(String::from("abc")));
    assert_eq!(layer.python_version, Some(PythonVersion { major: 3, minor: 8, micro: 10 }));
    assert_eq!(layer.search_path, elements(&["stubs", "//third-party"]));
    assert_eq!(
        layer.shared_memory,
        SharedMemory {
            heap_size: Some(1024),
            dependency_table_power: None,
            hash_table_power: Some(20),
        }
    );
    assert_eq!(layer.site_package_search_strategy, Some(SearchStrategy::PEP561));
    assert_eq!(layer.site_roots, Some(strings(&["/site"])));
    assert_eq!(layer.source_directories, Some(elements(&["src"])));
    assert_eq!(layer.strict, Some(true));
    assert_eq!(layer.taint_models_path, strings(&["taint"]));
    assert_eq!(layer.targets, Some(strings(&["//a:b"])));
    assert_eq!(layer.typeshed, Some(String::from("typeshed")));
    assert_eq!(
        layer.unwatched_dependency,
        Some(UnwatchedDependency {
            change_indicator: String::from("lock"),
            files: UnwatchedFiles {
                root: String::from("deps"),
                checksum_path: String::from("sums.json"),
            },
        })
    );
    assert_eq!(layer.use_buck2, Some(false));
    assert_eq!(layer.version_hash, Some(String::from("deadbeef")));
}

#[test]
fn null_leaves_an_option_open() {
    let (layer, warnings) = decode(r#"{"binary": null, "strict": null, "workers": null, "targets": null}"#);
    assert!(warnings.is_empty());
    assert_eq!(layer.binary, None);
    assert_eq!(layer.strict, None);
    assert_eq!(layer.number_of_workers, None);
    assert_eq!(layer.targets, None);
}

#[test]
fn single_string_stands_for_a_list_where_allowed() {
    let (layer, _) = decode(r#"{"exclude": "a", "taint_models_path": "t", "search_path": "s"}"#);
    assert_eq!(layer.excludes, strings(&["a"]));
    assert_eq!(layer.taint_models_path, strings(&["t"]));
    assert_eq!(layer.search_path, elements(&["s"]));
    let (field, expected, actual) = invalid_field(r#"{"ignore_all_errors": "a"}"#);
    assert_eq!(field, "ignore_all_errors");
    assert_eq!(expected, ExpectedType::StringList);
    assert!(matches!(actual, JsonValue::String(ref text) if text == "a"));
    let (field, _, _) = invalid_field(r#"{"do_not_ignore_errors_in": "a"}"#);
    assert_eq!(field, "do_not_ignore_errors_in");
    let (field, _, _) = invalid_field(r#"{"critical_files": "a"}"#);
    assert_eq!(field, "critical_files");
}

#[test]
fn buck_mode_may_be_given_platform_by_platform() {
    let (layer, _) = decode(r#"{"buck_mode": {"linux": "opt", "macos": "dev"}}"#);
    assert_eq!(
        layer.buck_mode,
        Some(PlatformAware::PerPlatform(vec![
            (String::from("linux"), String::from("opt")),
            (String::from("macos"), String::from("dev")),
        ]))
    );
    let (field, expected, _) = invalid_field(r#"{"buck_mode": {"linux": 1}}"#);
    assert_eq!(field, "buck_mode");
    assert_eq!(expected, ExpectedType::StringOrStringDict);
    let (field, expected, _) = invalid_field(r#"{"buck_mode": 3}"#);
    assert_eq!(field, "buck_mode");
    assert_eq!(expected, ExpectedType::StringOrStringDict);
}

#[test]
fn ill_typed_items_fail_with_their_expected_type() {
    let (field, expected, actual) = invalid_field(r#"{"binary": 1}"#);
    assert_eq!((field.as_str(), expected), ("binary", ExpectedType::String));
    assert!(matches!(actual, JsonValue::Integer(1)));
    let (field, expected, actual) = invalid_field(r#"{"strict": "yes"}"#);
    assert_eq!((field.as_str(), expected), ("strict", ExpectedType::Bool));
    assert!(matches!(actual, JsonValue::String(ref text) if text == "yes"));
    let (field, expected, _) = invalid_field(r#"{"use_buck2": 0}"#);
    assert_eq!((field.as_str(), expected), ("use_buck2", ExpectedType::Bool));
    let (field, expected, _) = invalid_field(r#"{"targets": ["a", 1]}"#);
    assert_eq!((field.as_str(), expected), ("targets", ExpectedType::StringList));
    let (field, expected, _) = invalid_field(r#"{"site_roots": "a"}"#);
    assert_eq!((field.as_str(), expected), ("site_roots", ExpectedType::StringList));
    let (field, expected, _) = invalid_field(r#"{"extensions": {"suffix": ".x"}}"#);
    assert_eq!((field.as_str(), expected), ("extensions", ExpectedType::List));
    let (field, expected, _) = invalid_field(r#"{"extensions": [".x"]}"#);
    assert_eq!((field.as_str(), expected), ("extensions", ExpectedType::Object));
    let (field, expected, _) = invalid_field(r#"{"extensions": [{"suffix": 1}]}"#);
    assert_eq!((field.as_str(), expected), ("suffix", ExpectedType::String));
    let (field, expected, actual) = invalid_field(r#"{"extensions": [{}]}"#);
    assert_eq!((field.as_str(), expected), ("suffix", ExpectedType::String));
    assert!(matches!(actual, JsonValue::Null));
    let (field, expected, _) = invalid_field(r#"{"ide_features": true}"#);
    assert_eq!((field.as_str(), expected), ("ide_features", ExpectedType::Object));
    let (field, expected, _) = invalid_field(r#"{"ide_features": {"hover_enabled": 1}}"#);
    assert_eq!((field.as_str(), expected), ("hover_enabled", ExpectedType::Bool));
    let (field, expected, _) = invalid_field(r#"{"shared_memory": {"heap_size": "big"}}"#);
    assert_eq!((field.as_str(), expected), ("heap_size", ExpectedType::Integer));
    let (field, expected, _) = invalid_field(r#"{"workers": 2147483648}"#);
    assert_eq!((field.as_str(), expected), ("workers", ExpectedType::Integer));
    let (field, expected, _) = invalid_field(r#"{"workers": 1.5}"#);
    assert_eq!((field.as_str(), expected), ("workers", ExpectedType::Integer));
    let (field, expected, actual) = invalid_field(r#"{"site_package_search_strategy": "some"}"#);
    assert_eq!(
        (field.as_str(), expected),
        ("site_package_search_strategy", ExpectedType::SearchStrategy)
    );
    assert!(matches!(actual, JsonValue::String(ref text) if text == "some"));
}

#[test]
fn first_ill_typed_item_fails_the_decoding() {
    let (field, _, _) = invalid_field(r#"{"version": 1, "strict": "no", "binary": 7}"#);
    assert_eq!(field, "binary");
    let (field, _, _) = invalid_field(r#"{"version": 1, "strict": "no"}"#);
    assert_eq!(field, "strict");
}

#[test]
fn unwatched_dependency_must_be_complete_and_stay_below_its_root() {
    let (field, expected, _) = invalid_field(r#"{"unwatched_dependency": {"files": {}}}"#);
    assert_eq!((field.as_str(), expected), ("change_indicator", ExpectedType::String));
    let (field, expected, _) = invalid_field(r#"{"unwatched_dependency": {"change_indicator": "c"}}"#);
    assert_eq!((field.as_str(), expected), ("files", ExpectedType::Object));
    let (field, expected, _) = invalid_field(
        r#"{"unwatched_dependency": {"change_indicator": "c", "files": {"root": "r"}}}"#,
    );
    assert_eq!((field.as_str(), expected), ("checksum_path", ExpectedType::String));
    let (field, expected, actual) = invalid_field(
        r#"{"unwatched_dependency": {"change_indicator": "c", "files": {"root": "r", "checksum_path": "/abs"}}}"#,
    );
    assert_eq!((field.as_str(), expected), ("checksum_path", ExpectedType::RelativePath));
    assert!(matches!(actual, JsonValue::String(ref text) if text == "/abs"));
    let (field, expected, _) = invalid_field(
        r#"{"unwatched_dependency": {"change_indicator": "c", "files": {"root": "r", "checksum_path": "a/../../b"}}}"#,
    );
    assert_eq!((field.as_str(), expected), ("checksum_path", ExpectedType::RelativePath));
    assert!(path_stays_below("a/b.json"));
    assert!(path_stays_below("..a/b"));
    assert!(!path_stays_below("../b"));
    assert!(!path_stays_below("/b"));
}

#[test]
fn python_version_must_name_a_version() {
    match failure(r#"{"python_version": "3.x"}"#) {
        ConfigurationError::InvalidPythonVersion { version } => {
            assert_eq!(version.msg, PARSE_FAILURE)
        }
        other => panic!("expected an invalid version, got {:?}", other),
    }
    match failure(r#"{"python_version": "1.2.3.4"}"#) {
        ConfigurationError::InvalidPythonVersion { version } => {
            assert_eq!(version.msg, format!("{}1.2.3.4", FORM_FAILURE))
        }
        other => panic!("expected an invalid version, got {:?}", other),
    }
    let (field, expected, _) = invalid_field(r#"{"python_version": 3}"#);
    assert_eq!((field.as_str(), expected), ("python_version", ExpectedType::String));
}

#[test]
fn python_versions_have_one_to_three_parts() {
    let version = PythonVersion::new("3").expect("a version");
    assert_eq!(version, PythonVersion { major: 3, minor: 0, micro: 0 });
    let version = PythonVersion::new("3.9").expect("a version");
    assert_eq!(version, PythonVersion { major: 3, minor: 9, micro: 0 });
    let version = PythonVersion::new("3.9.1").expect("a version");
    assert_eq!(version, PythonVersion { major: 3, minor: 9, micro: 1 });
    let error = PythonVersion::new("").expect_err("no version");
    assert_eq!(error.msg, "Int parse error");
    let error = PythonVersion::new("3..1").expect_err("no version");
    assert_eq!(error.msg, "Int parse error");
    let error = PythonVersion::new("a.b.c.d").expect_err("no version");
    assert_eq!(
        error.msg,
        "Version string is expected to have the form of 'X.Y.Z' but got a.b.c.d"
    );
}

#[test]
fn unrecognized_items_are_reported_in_order() {
    let (layer, warnings) = decode(r#"{"zebra": 1, "strict": true, "apple": [], "saved_state": {}}"#);
    assert_eq!(layer.strict, Some(true));
    assert_eq!(
        warnings,
        vec![
            Diagnostic::UnrecognizedItem { key: String::from("apple") },
            Diagnostic::UnrecognizedItem { key: String::from("zebra") },
        ]
    );
}

#[test]
fn extra_items_are_accepted_in_silence() {
    let (_, warnings) = decode(
        r#"{"create_open_source_configuration": 1, "saved_state": 2, "stable_client": 3, "unstable_client": 4}"#,
    );
    assert!(warnings.is_empty());
}

#[test]
fn deprecation_comes_before_unrecognized_items() {
    let (_, warnings) = decode(r#"{"aaa": 1, "do_not_check": []}"#);
    assert_eq!(
        warnings,
        vec![
            Diagnostic::DeprecatedItem {
                key: String::from("do_not_check"),
                replacement: String::from("ignore_all_errors"),
            },
            Diagnostic::UnrecognizedItem { key: String::from("aaa") },
        ]
    );
}

#[test]
fn text_must_be_a_json_object() {
    assert!(matches!(failure("{"), ConfigurationError::InvalidJson));
    assert!(matches!(failure(""), ConfigurationError::InvalidJson));
    assert!(matches!(failure("not json"), ConfigurationError::InvalidJson));
    assert!(matches!(
        failure("[1]"),
        ConfigurationError::NotAnObject { actual: JsonValue::Array(_) }
    ));
    assert!(matches!(
        failure("3"),
        ConfigurationError::NotAnObject { actual: JsonValue::Integer(3) }
    ));
}

#[test]
fn documents_are_decoded_as_they_are_given() {
    let document = JsonValue::Object(vec![
        (String::from("strict"), JsonValue::Bool(true)),
        (String::from("workers"), JsonValue::Integer(8)),
        (String::from("mystery"), JsonValue::Null),
    ]);
    let (layer, warnings) = PartialConfiguration::from_json(&document).expect("a layer");
    assert_eq!(layer.strict, Some(true));
    assert_eq!(layer.number_of_workers, Some(8));
    assert_eq!(warnings, vec![Diagnostic::UnrecognizedItem { key: String::from("mystery") }]);
    let copy = document.duplicate();
    assert_eq!(copy, document);
}

#[test]
fn keys_of_the_schema_are_listed() {
    assert_eq!(
        PartialConfiguration::_get_depreacted_map(),
        vec![("do_not_check", "ignore_all_errors")]
    );
    assert_eq!(
        PartialConfiguration::_get_extra_keys(),
        vec![
            "create_open_source_configuration",
            "saved_state",
            "stable_client",
            "taint_models_path",
            "unstable_client",
        ]
    );
}

#[test]
fn search_strategies_have_names() {
    assert_eq!(SearchStrategy::from_string("none"), Some(SearchStrategy::NONE));
    assert_eq!(SearchStrategy::from_string("all"), Some(SearchStrategy::ALL));
    assert_eq!(SearchStrategy::from_string("pep561"), Some(SearchStrategy::PEP561));
    assert_eq!(SearchStrategy::from_string("PEP561"), None);
    assert_eq!(SearchStrategy::from_string(""), None);
    assert_eq!(SearchStrategy::default(), SearchStrategy::NONE);
    assert_eq!(SearchStrategy::ALL.name(), "all");
    assert_eq!(SearchStrategy::NONE.name(), "none");
    assert_eq!(SearchStrategy::PEP561.name(), "pep561");
}

#[test]
fn ide_features_default_to_off() {
    let features = IdeFeatures {
        hover_enabled: Some(true),
        go_to_definition_enabled: None,
        find_symbols_enabled: Some(false),
        find_all_references_enabled: None,
    };
    assert!(features.is_hover_enabled());
    assert!(!features.is_go_to_definition_enabled());
    assert!(!features.is_find_symbols_enabled());
    assert!(!features.is_find_all_references_enabled());
}
