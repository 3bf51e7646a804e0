//! What can go wrong while a configuration is resolved, and the
//! warnings that are collected along the way.

use vstd::prelude::*;
use vstd::string::*;
use crate::configuration::python_version::InvalidPythonVersionError;
use crate::filesystem::PathError;
use crate::json::{shown, JsonValue, JsonView};

verus! {

/// The type that a configuration item is expected to have.
#[derive(Clone, Copy, Debug, PartialEq, Eq, Structural)]
pub enum ExpectedType {
    String,
    Bool,
    Integer,
    List,
    StringList,
    StringOrStringDict,
    Object,
    SearchStrategy,
    RelativePath,
}

/// A failure that ends the resolution of a configuration.
#[derive(Debug)]
pub enum ConfigurationError {
    /// The text of a configuration file is not JSON.
    InvalidJson,
    /// A configuration file holds something other than an object.
    NotAnObject { actual: JsonValue },
    /// An item of a configuration file does not have the type that is
    /// expected of it.
    InvalidField { field: String, expected: ExpectedType, actual: JsonValue },
    /// A Python version is not of the form `X.Y.Z`.
    InvalidPythonVersion { version: InvalidPythonVersionError },
    /// A path could not be resolved.
    UnresolvablePath { path: PathError },
    /// A local configuration was asked for and none was found.
    MissingLocalConfiguration { file_name: String, search_base: String },
    /// A configuration file could not be read.
    UnreadableFile { file: String },
}

/// The plain form of a [`ConfigurationError`].
pub enum ConfigurationErrorView {
    InvalidJson,
    NotAnObject { actual: JsonView },
    InvalidField { field: Seq<char>, expected: ExpectedType, actual: JsonView },
    InvalidPythonVersion { message: Seq<char> },
    UnresolvablePath { path: Seq<char> },
    MissingLocalConfiguration { file_name: Seq<char>, search_base: Seq<char> },
    UnreadableFile { file: Seq<char> },
}

impl DeepView for ConfigurationError {
    type V = ConfigurationErrorView;

    open spec fn deep_view(&self) -> ConfigurationErrorView {
        match self {
            ConfigurationError::InvalidJson => ConfigurationErrorView::InvalidJson,
            ConfigurationError::NotAnObject { actual } => ConfigurationErrorView::NotAnObject {
                actual: actual@,
            },
            ConfigurationError::InvalidField {
                field,
                expected,
                actual,
            } => ConfigurationErrorView::InvalidField {
                field: field@,
                expected: *expected,
                actual: actual@,
            },
            ConfigurationError::InvalidPythonVersion {
                version,
            } => ConfigurationErrorView::InvalidPythonVersion { message: version@ },
            ConfigurationError::UnresolvablePath {
                path,
            } => ConfigurationErrorView::UnresolvablePath { path: path@ },
            ConfigurationError::MissingLocalConfiguration {
                file_name,
                search_base,
            } => ConfigurationErrorView::MissingLocalConfiguration {
                file_name: file_name@,
                search_base: search_base@,
            },
            ConfigurationError::UnreadableFile { file } => ConfigurationErrorView::UnreadableFile {
                file: file@,
            },
        }
    }
}

impl View for ConfigurationError {
    type V = ConfigurationErrorView;

    open spec fn view(&self) -> ConfigurationErrorView {
        self.deep_view()
    }
}

/// The plain form of a result.
pub open spec fn result_view<T: DeepView, E: DeepView>(result: Result<T, E>) -> Result<T::V, E::V> {
    match result {
        Ok(value) => Ok(value.deep_view()),
        Err(error) => Err(error.deep_view()),
    }
}

/// A warning: something worth telling the user that does not end the
/// resolution.
#[derive(Debug, PartialEq, Eq)]
pub enum Diagnostic {
    /// A configuration file uses an item that has a replacement.
    DeprecatedItem { key: String, replacement: String },
    /// A configuration file holds an item that means nothing.
    UnrecognizedItem { key: String },
    /// A pattern matches no path.
    NoMatch { pattern: String },
}

/// The plain form of a [`Diagnostic`].
pub enum DiagnosticView {
    DeprecatedItem { key: Seq<char>, replacement: Seq<char> },
    UnrecognizedItem { key: Seq<char> },
    NoMatch { pattern: Seq<char> },
}

impl DeepView for Diagnostic {
    type V = DiagnosticView;

    open spec fn deep_view(&self) -> DiagnosticView {
        match self {
            Diagnostic::DeprecatedItem { key, replacement } => DiagnosticView::DeprecatedItem {
                key: key@,
                replacement: replacement@,
            },
            Diagnostic::UnrecognizedItem { key } => DiagnosticView::UnrecognizedItem { key: key@ },
            Diagnostic::NoMatch { pattern } => DiagnosticView::NoMatch { pattern: pattern@ },
        }
    }
}

impl View for Diagnostic {
    type V = DiagnosticView;

    open spec fn view(&self) -> DiagnosticView {
        self.deep_view()
    }
}

/// How an expected type is named to the user.
pub open spec fn type_description(expected: ExpectedType) -> Seq<char> {
    match expected {
        ExpectedType::String => "a string"@,
        ExpectedType::Bool => "a boolean"@,
        ExpectedType::Integer => "an integer"@,
        ExpectedType::List => "a list"@,
        ExpectedType::StringList => "a list of strings"@,
        ExpectedType::StringOrStringDict => "a string or a dict of strings"@,
        ExpectedType::Object => "an object"@,
        ExpectedType::SearchStrategy => "one of `none`, `all` and `pep561`"@,
        ExpectedType::RelativePath => "a relative path that stays below its root"@,
    }
}

/// What a failure says to the user.
pub open spec fn failure_message(error: ConfigurationErrorView) -> Seq<char> {
    match error {
        ConfigurationErrorView::InvalidJson => "Configuration file is not valid JSON."@,
        ConfigurationErrorView::NotAnObject {
            actual,
        } => "Configuration file is expected to hold an object but got `"@ + shown(actual) + "`."@,
        ConfigurationErrorView::InvalidField {
            field,
            expected,
            actual,
        } => "Configuration field `"@ + field + "` is expected to be "@ + type_description(
            expected,
        ) + " but got `"@ + shown(actual) + "`."@,
        ConfigurationErrorView::InvalidPythonVersion { message } => message,
        ConfigurationErrorView::UnresolvablePath {
            path,
        } => "Cannot resolve the path `"@ + path + "`."@,
        ConfigurationErrorView::MissingLocalConfiguration {
            file_name,
            search_base,
        } => "A local configuration path was explicitly specified, but no "@ + file_name
            + " file was found in "@ + search_base + " or its parents."@,
        ConfigurationErrorView::UnreadableFile {
            file,
        } => "Cannot read the configuration file `"@ + file + "`."@,
    }
}

/// What a warning says to the user.
pub open spec fn warning_message(warning: DiagnosticView) -> Seq<char> {
    match warning {
        DiagnosticView::DeprecatedItem {
            key,
            replacement,
        } => "Configuration file uses deprecated item `"@ + key
            + "`. Please migrate to its replacement `"@ + replacement + "`"@,
        DiagnosticView::UnrecognizedItem { key } => "Unrecognized configuration item: "@ + key,
        DiagnosticView::NoMatch { pattern } => "'"@ + pattern + "' does not match any paths."@,
    }
}

impl ExpectedType {
    /// How the type is named to the user.
    pub fn description(&self) -> (text: &'static str)
        ensures
            text@ == type_description(*self),
    {
        match self {
            ExpectedType::String => "a string",
            ExpectedType::Bool => "a boolean",
            ExpectedType::Integer => "an integer",
            ExpectedType::List => "a list",
            ExpectedType::StringList => "a list of strings",
            ExpectedType::StringOrStringDict => "a string or a dict of strings",
            ExpectedType::Object => "an object",
            ExpectedType::SearchStrategy => "one of `none`, `all` and `pep561`",
            ExpectedType::RelativePath => "a relative path that stays below its root",
        }
    }
}

impl ConfigurationError {
    /// What the failure says to the user.
    pub fn message(&self) -> (text: String)
        ensures
            text@ == failure_message(self@),
    {
        match self {
            ConfigurationError::InvalidJson => "Configuration file is not valid JSON.".to_owned(),
            ConfigurationError::NotAnObject { actual } => {
                let mut text = "Configuration file is expected to hold an object but got `".to_owned();
                text.append(actual.show().as_str());
                text.append("`.");
                text
            },
            ConfigurationError::InvalidField { field, expected, actual } => {
                let mut text = "Configuration field `".to_owned();
                text.append(field.as_str());
                text.append("` is expected to be ");
                text.append(expected.description());
                text.append(" but got `");
                text.append(actual.show().as_str());
                text.append("`.");
                text
            },
            ConfigurationError::InvalidPythonVersion { version } => version.msg.clone(),
            ConfigurationError::UnresolvablePath { path } => {
                let mut text = "Cannot resolve the path `".to_owned();
                text.append(path.path.as_str());
                text.append("`.");
                text
            },
            ConfigurationError::MissingLocalConfiguration { file_name, search_base } => {
                let mut text =
                    "A local configuration path was explicitly specified, but no ".to_owned();
                text.append(file_name.as_str());
                text.append(" file was found in ");
                text.append(search_base.as_str());
                text.append(" or its parents.");
                text
            },
            ConfigurationError::UnreadableFile { file } => {
                let mut text = "Cannot read the configuration file `".to_owned();
                text.append(file.as_str());
                text.append("`.");
                text
            },
        }
    }
}

impl Diagnostic {
    /// What the warning says to the user.
    pub fn message(&self) -> (text: String)
        ensures
            text@ == warning_message(self@),
    {
        match self {
            Diagnostic::DeprecatedItem { key, replacement } => {
                let mut text = "Configuration file uses deprecated item `".to_owned();
                text.append(key.as_str());
                text.append("`. Please migrate to its replacement `");
                text.append(replacement.as_str());
                text.append("`");
                text
            },
            Diagnostic::UnrecognizedItem { key } => {
                let mut text = "Unrecognized configuration item: ".to_owned();
                text.append(key.as_str());
                text
            },
            Diagnostic::NoMatch { pattern } => {
                let mut text = "'".to_owned();
                text.append(pattern.as_str());
                text.append("' does not match any paths.");
                text
            },
        }
    }
}

} // verus!
