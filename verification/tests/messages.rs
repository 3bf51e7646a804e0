use nativeclient::configuration::error::{ConfigurationError, Diagnostic, ExpectedType};
use nativeclient::configuration::configuration::PartialConfiguration;
use nativeclient::configuration::python_version::PythonVersion;
use nativeclient::configuration::unwatched::{UnwatchedDependency, UnwatchedFiles};
use nativeclient::filesystem::PathError;
use nativeclient::json::JsonValue;
use nativeclient::text::{write_integer, write_natural};

#[test]
fn integers_are_written_in_decimal() {
    assert_eq!(write_natural(0), "0");
    assert_eq!(write_natural(7), "7");
    assert_eq!(write_natural(10), "10");
    assert_eq!(write_natural(1234567890), "1234567890");
    assert_eq!(write_natural(u64::MAX), "18446744073709551615");
    assert_eq!(write_integer(0), "0");
    assert_eq!(write_integer(-1), "-1");
    assert_eq!(write_integer(42), "42");
    assert_eq!(write_integer(i64::MAX), "9223372036854775807");
    assert_eq!(write_integer(i64::MIN), "-9223372036854775808");
}

#[test]
fn versions_are_written_and_read_back() {
    let version = PythonVersion { major: 3, minor: 10, micro: 2 };
    assert_eq!(version.to_string(), "3.10.2");
    assert_eq!(PythonVersion::new(&version.to_string()).expect("a version"), version);
    let version = PythonVersion { major: -1, minor: 0, micro: 2147483647 };
    assert_eq!(version.to_string(), "-1.0.2147483647");
    assert_eq!(PythonVersion::new(&version.to_string()).expect("a version"), version);
}

#[test]
fn values_are_shown_by_what_they_hold() {
    assert_eq!(JsonValue::Null.show(), "null");
    assert_eq!(JsonValue::Bool(true).show(), "true");
    assert_eq!(JsonValue::Bool(false).show(), "false");
    assert_eq!(JsonValue::Integer(-12).show(), "-12");
    assert_eq!(JsonValue::Decimal(String::from("1.5")).show(), "1.5");
    assert_eq!(JsonValue::String(String::from("four")).show(), "\"four\"");
    assert_eq!(JsonValue::Array(Vec::new()).show(), "a list");
    assert_eq!(JsonValue::Object(Vec::new()).show(), "an object");
}

#[test]
fn failures_say_what_went_wrong() {
    let failure = PartialConfiguration::from_string(r#"{"workers": "four"}"#).expect_err("failure");
    assert_eq!(
        failure.message(),
        "Configuration field `workers` is expected to be an integer but got `\"four\"`."
    );
    assert_eq!(
        ConfigurationError::InvalidJson.message(),
        "Configuration file is not valid JSON."
    );
    assert_eq!(
        ConfigurationError::NotAnObject { actual: JsonValue::Integer(3) }.message(),
        "Configuration file is expected to hold an object but got `3`."
    );
    assert_eq!(
        ConfigurationError::MissingLocalConfiguration {
            file_name: String::from(".pyre_configuration.local"),
            search_base: String::from("/a/b"),
        }
        .message(),
        "A local configuration path was explicitly specified, but no .pyre_configuration.local file was found in /a/b or its parents."
    );
    assert_eq!(
        ConfigurationError::UnresolvablePath { path: PathError { path: String::from("/x") } }
            .message(),
        "Cannot resolve the path `/x`."
    );
    assert_eq!(
        ConfigurationError::UnreadableFile { file: String::from("/x") }.message(),
        "Cannot read the configuration file `/x`."
    );
    let failure = PythonVersion::new("1.2.3.4").expect_err("failure");
    assert_eq!(
        ConfigurationError::InvalidPythonVersion { version: failure }.message(),
        "Version string is expected to have the form of 'X.Y.Z' but got 1.2.3.4"
    );
    assert_eq!(ExpectedType::String.description(), "a string");
    assert_eq!(ExpectedType::Bool.description(), "a boolean");
    assert_eq!(ExpectedType::List.description(), "a list");
    assert_eq!(ExpectedType::StringList.description(), "a list of strings");
    assert_eq!(ExpectedType::StringOrStringDict.description(), "a string or a dict of strings");
    assert_eq!(ExpectedType::Object.description(), "an object");
}

#[test]
fn warnings_say_what_was_met() {
    assert_eq!(
        Diagnostic::DeprecatedItem {
            key: String::from("do_not_check"),
            replacement: String::from("ignore_all_errors"),
        }
        .message(),
        "Configuration file uses deprecated item `do_not_check`. Please migrate to its replacement `ignore_all_errors`"
    );
    assert_eq!(
        Diagnostic::UnrecognizedItem { key: String::from("zebra") }.message(),
        "Unrecognized configuration item: zebra"
    );
    assert_eq!(
        Diagnostic::NoMatch { pattern: String::from("/lib/*") }.message(),
        "'/lib/*' does not match any paths."
    );
}

#[test]
fn unwatched_dependencies_are_written_and_read_back() {
    let dependency = UnwatchedDependency {
        change_indicator: String::from("lock"),
        files: UnwatchedFiles {
            root: String::from("deps"),
            checksum_path: String::from("sums.json"),
        },
    };
    let document = dependency.to_json();
    assert_eq!(
        document,
        JsonValue::Object(vec![
            (String::from("change_indicator"), JsonValue::String(String::from("lock"))),
            (
                String::from("files"),
                JsonValue::Object(vec![
                    (String::from("root"), JsonValue::String(String::from("deps"))),
                    (String::from("checksum_path"), JsonValue::String(String::from("sums.json"))),
                ]),
            ),
        ])
    );
    assert_eq!(UnwatchedDependency::from_json(&document).expect("a dependency"), dependency);
    assert_eq!(
        UnwatchedFiles::from_json(&dependency.files.to_json()).expect("files"),
        dependency.files
    );
    assert!(UnwatchedDependency::from_json(&JsonValue::Null).is_err());
    assert!(UnwatchedFiles::from_json(&JsonValue::Array(Vec::new())).is_err());
}
