//! Decoding a layer of configuration from the text of a configuration
//! file.

use vstd::prelude::*;
use vstd::string::*;
use crate::configuration::configuration::{PartialConfiguration, PartialConfigurationView};
use crate::configuration::error::{
    result_view, ConfigurationError, ConfigurationErrorView, Diagnostic, DiagnosticView,
    ExpectedType,
};
use crate::configuration::extension::{extension_of, ExtensionElement, ExtensionElementView};
use crate::configuration::fields::{
    invalid_field, list, mismatch, optional_bool, optional_integer,
    optional_object, optional_string, optional_string_list, optional_string_or_string_dict,
    read_list, read_optional_bool, read_optional_integer, read_optional_object,
    read_optional_string, read_optional_string_list, read_optional_string_or_string_dict,
    read_string_list, string_list, Decoded, Entries,
};
use crate::configuration::ide_features::{ide_features_of, IdeFeatures};
use crate::configuration::python_version::{
    version_of, InvalidPythonVersionError, PythonVersion,
};
use crate::configuration::search_path::elements_from;
use crate::configuration::shared_memory::{shared_memory_of, unset, SharedMemory};
use crate::configuration::site_packages::{strategy_named, SearchStrategy};
use crate::configuration::unwatched::{
    unwatched_dependency_of, UnwatchedDependency, UnwatchedDependencyView,
};
use crate::json::{
    entries_view, has_key, items_view, lemma_object_view, parse_document, parsed_document,
    JsonValue, JsonView,
};
use crate::text::str_equal;

verus! {

/// The extensions that a list of values describes: every value read in
/// turn, the first that fails ending the reading.
pub open spec fn extensions_from(items: Seq<JsonView>) -> Decoded<Seq<ExtensionElementView>>
    decreases items.len(),
{
    if items.len() == 0 {
        Ok(Seq::empty())
    } else {
        match extensions_from(items.drop_last()) {
            Err(error) => Err(error),
            Ok(front) => match extension_of(items.last()) {
                Err(error) => Err(error),
                Ok(extension) => Ok(front.push(extension)),
            },
        }
    }
}

/// The item `extensions`: a list of extensions.
pub open spec fn extensions_field(entries: Entries) -> Decoded<Seq<ExtensionElementView>> {
    match list(entries, "extensions"@) {
        Err(error) => Err(error),
        Ok(items) => extensions_from(items),
    }
}

/// The item `ide_features`: an optional object of switches.
pub open spec fn ide_features_field(entries: Entries) -> Decoded<Option<IdeFeatures>> {
    match optional_object(entries, "ide_features"@) {
        Err(error) => Err(error),
        Ok(None) => Ok(None),
        Ok(Some(inner)) => match ide_features_of(inner) {
            Err(error) => Err(error),
            Ok(features) => Ok(Some(features)),
        },
    }
}

/// The item `python_version`: an optional string that names a version.
pub open spec fn python_version_field(entries: Entries) -> Decoded<Option<PythonVersion>> {
    match optional_string(entries, "python_version"@) {
        Err(error) => Err(error),
        Ok(None) => Ok(None),
        Ok(Some(text)) => match version_of(text) {
            Err(message) => Err(ConfigurationErrorView::InvalidPythonVersion { message }),
            Ok(version) => Ok(Some(version)),
        },
    }
}

/// The item `shared_memory`: an optional object of sizes, none of them
/// set when it is absent.
pub open spec fn shared_memory_field(entries: Entries) -> Decoded<SharedMemory> {
    match optional_object(entries, "shared_memory"@) {
        Err(error) => Err(error),
        Ok(None) => Ok(unset()),
        Ok(Some(inner)) => shared_memory_of(inner),
    }
}

/// The item `site_package_search_strategy`: an optional string that
/// names a strategy.
pub open spec fn search_strategy_field(entries: Entries) -> Decoded<Option<SearchStrategy>> {
    match optional_string(entries, "site_package_search_strategy"@) {
        Err(error) => Err(error),
        Ok(None) => Ok(None),
        Ok(Some(name)) => match strategy_named(name) {
            Some(strategy) => Ok(Some(strategy)),
            None => Err(
                mismatch(
                    "site_package_search_strategy"@,
                    ExpectedType::SearchStrategy,
                    JsonView::String(name),
                ),
            ),
        },
    }
}

/// The item `unwatched_dependency`: an optional object that describes a
/// dependency.
pub open spec fn unwatched_dependency_field(entries: Entries) -> Decoded<
    Option<UnwatchedDependencyView>,
> {
    match optional_object(entries, "unwatched_dependency"@) {
        Err(error) => Err(error),
        Ok(None) => Ok(None),
        Ok(Some(inner)) => match unwatched_dependency_of(inner) {
            Err(error) => Err(error),
            Ok(dependency) => Ok(Some(dependency)),
        },
    }
}

/// The layer that the entries of a configuration object set. The items
/// are read in the order of the fields of the layer, and the first that
/// does not have its expected type ends the decoding.
pub open spec fn layer_of(entries: Entries) -> Decoded<PartialConfigurationView> {
    let binary = optional_string(entries, "binary"@);
    let buck_mode = optional_string_or_string_dict(entries, "buck_mode"@);
    let do_not_ignore_errors_in = string_list(entries, "do_not_ignore_errors_in"@, false);
    let dot_pyre_directory = optional_string(entries, "dot_pyre_directory"@);
    let excludes = string_list(entries, "exclude"@, true);
    let extensions = extensions_field(entries);
    let ide_features = ide_features_field(entries);
    let ignore_all_errors = string_list(entries, "ignore_all_errors"@, false);
    let isolation_prefix = optional_string(entries, "isolation_prefix"@);
    let logger = optional_string(entries, "logger"@);
    let number_of_workers = optional_integer(entries, "workers"@);
    let oncall = optional_string(entries, "oncall"@);
    let other_critical_files = string_list(entries, "critical_files"@, false);
    let pysa_version_hash = optional_string(entries, "pysa_version"@);
    let python_version = python_version_field(entries);
    let search_path = string_list(entries, "search_path"@, true);
    let shared_memory = shared_memory_field(entries);
    let site_package_search_strategy = search_strategy_field(entries);
    let site_roots = optional_string_list(entries, "site_roots"@);
    let source_directories = optional_string_list(entries, "source_directories"@);
    let strict = optional_bool(entries, "strict"@);
    let taint_models_path = string_list(entries, "taint_models_path"@, true);
    let targets = optional_string_list(entries, "targets"@);
    let typeshed = optional_string(entries, "typeshed"@);
    let unwatched_dependency = unwatched_dependency_field(entries);
    let use_buck2 = optional_bool(entries, "use_buck2"@);
    let version_hash = optional_string(entries, "version"@);
    if binary is Err {
        Err(binary->Err_0)
    } else if buck_mode is Err {
        Err(buck_mode->Err_0)
    } else if do_not_ignore_errors_in is Err {
        Err(do_not_ignore_errors_in->Err_0)
    } else if dot_pyre_directory is Err {
        Err(dot_pyre_directory->Err_0)
    } else if excludes is Err {
        Err(excludes->Err_0)
    } else if extensions is Err {
        Err(extensions->Err_0)
    } else if ide_features is Err {
        Err(ide_features->Err_0)
    } else if ignore_all_errors is Err {
        Err(ignore_all_errors->Err_0)
    } else if isolation_prefix is Err {
        Err(isolation_prefix->Err_0)
    } else if logger is Err {
        Err(logger->Err_0)
    } else if number_of_workers is Err {
        Err(number_of_workers->Err_0)
    } else if oncall is Err {
        Err(oncall->Err_0)
    } else if other_critical_files is Err {
        Err(other_critical_files->Err_0)
    } else if pysa_version_hash is Err {
        Err(pysa_version_hash->Err_0)
    } else if python_version is Err {
        Err(python_version->Err_0)
    } else if search_path is Err {
        Err(search_path->Err_0)
    } else if shared_memory is Err {
        Err(shared_memory->Err_0)
    } else if site_package_search_strategy is Err {
        Err(site_package_search_strategy->Err_0)
    } else if site_roots is Err {
        Err(site_roots->Err_0)
    } else if source_directories is Err {
        Err(source_directories->Err_0)
    } else if strict is Err {
        Err(strict->Err_0)
    } else if taint_models_path is Err {
        Err(taint_models_path->Err_0)
    } else if targets is Err {
        Err(targets->Err_0)
    } else if typeshed is Err {
        Err(typeshed->Err_0)
    } else if unwatched_dependency is Err {
        Err(unwatched_dependency->Err_0)
    } else if use_buck2 is Err {
        Err(use_buck2->Err_0)
    } else if version_hash is Err {
        Err(version_hash->Err_0)
    } else {
        Ok(
            PartialConfigurationView {
                binary: binary->Ok_0,
                buck_mode: buck_mode->Ok_0,
                do_not_ignore_errors_in: do_not_ignore_errors_in->Ok_0,
                dot_pyre_directory: dot_pyre_directory->Ok_0,
                excludes: excludes->Ok_0,
                extensions: extensions->Ok_0,
                ide_features: ide_features->Ok_0,
                ignore_all_errors: ignore_all_errors->Ok_0,
                isolation_prefix: isolation_prefix->Ok_0,
                logger: logger->Ok_0,
                number_of_workers: number_of_workers->Ok_0,
                oncall: oncall->Ok_0,
                other_critical_files: other_critical_files->Ok_0,
                pysa_version_hash: pysa_version_hash->Ok_0,
                python_version: python_version->Ok_0,
                search_path: search_path->Ok_0,
                shared_memory: shared_memory->Ok_0,
                site_package_search_strategy: site_package_search_strategy->Ok_0,
                site_roots: site_roots->Ok_0,
                source_directories: source_directories->Ok_0,
                strict: strict->Ok_0,
                taint_models_path: taint_models_path->Ok_0,
                targets: targets->Ok_0,
                typeshed: typeshed->Ok_0,
                unwatched_dependency: unwatched_dependency->Ok_0,
                use_buck2: use_buck2->Ok_0,
                version_hash: version_hash->Ok_0,
            },
        )
    }
}

/// Reads the extensions that a list of values describes.
pub fn read_extensions(items: &Vec<JsonValue>) -> (result: Result<
    Vec<ExtensionElement>,
    ConfigurationError,
>)
    ensures
        result_view(result) == extensions_from(items_view(items@)),
{
    let ghost all = items_view(items@);
    let mut extensions: Vec<ExtensionElement> = Vec::new();
    let mut i: usize = 0;
    proof {
        assert(all.take(0) =~= Seq::<JsonView>::empty());
        assert(extensions.deep_view() =~= Seq::<ExtensionElementView>::empty());
    }
    while i < items.len()
        invariant
            i <= items.len(),
            all == items_view(items@),
            extensions_from(all.take(i as int)) == Ok::<
                Seq<ExtensionElementView>,
                ConfigurationErrorView,
            >(extensions.deep_view()),
        decreases items.len() - i,
    {
        let ghost front = extensions.deep_view();
        proof {
            assert(all.take(i + 1).drop_last() =~= all.take(i as int));
            assert(all.take(i + 1).last() == items[i as int]@);
        }
        match ExtensionElement::from_json(&items[i]) {
            Ok(extension) => {
                extensions.push(extension);
                proof {
                    assert(extensions.deep_view() =~= front.push(extension@));
                }
            },
            Err(error) => {
                proof {
                    lemma_extensions_fail_for_good(all, i + 1);
                }
                return Err(error);
            },
        }
        i += 1;
    }
    proof {
        assert(all.take(items.len() as int) =~= all);
    }
    Ok(extensions)
}

/// Once a front of a list has failed to give extensions, the whole list
/// fails in the same way.
pub proof fn lemma_extensions_fail_for_good(items: Seq<JsonView>, count: int)
    requires
        0 <= count <= items.len(),
        extensions_from(items.take(count)) is Err,
    ensures
        extensions_from(items) == extensions_from(items.take(count)),
    decreases items.len() - count,
{
    if count == items.len() {
        assert(items.take(count) =~= items);
    } else {
        assert(items.take(count + 1).drop_last() =~= items.take(count));
        lemma_extensions_fail_for_good(items, count + 1);
    }
}

/// Reads the item `extensions`.
fn read_extensions_field(entries: &Vec<(String, JsonValue)>) -> (result: Result<
    Vec<ExtensionElement>,
    ConfigurationError,
>)
    ensures
        result_view(result) == extensions_field(entries_view(entries@)),
{
    let nothing: Vec<JsonValue> = Vec::new();
    match read_list(entries, "extensions", &nothing) {
        Ok(items) => read_extensions(items),
        Err(error) => Err(error),
    }
}

/// Reads the item `ide_features`.
fn read_ide_features_field(entries: &Vec<(String, JsonValue)>) -> (result: Result<
    Option<IdeFeatures>,
    ConfigurationError,
>)
    ensures
        result_view(result) == ide_features_field(entries_view(entries@)),
{
    match read_optional_object(entries, "ide_features") {
        Err(error) => Err(error),
        Ok(None) => Ok(None),
        Ok(Some(inner)) => match IdeFeatures::from_entries(inner) {
            Err(error) => Err(error),
            Ok(features) => Ok(Some(features)),
        },
    }
}

/// The failure of a text that does not name a Python version.
pub fn invalid_version(version: InvalidPythonVersionError) -> (error: ConfigurationError)
    ensures
        error@ == (ConfigurationErrorView::InvalidPythonVersion { message: version@ }),
{
    ConfigurationError::InvalidPythonVersion { version }
}

/// Reads the item `python_version`.
fn read_python_version_field(entries: &Vec<(String, JsonValue)>) -> (result: Result<
    Option<PythonVersion>,
    ConfigurationError,
>)
    ensures
        result_view(result) == python_version_field(entries_view(entries@)),
{
    match read_optional_string(entries, "python_version") {
        Err(error) => Err(error),
        Ok(None) => Ok(None),
        Ok(Some(text)) => match PythonVersion::new(text.as_str()) {
            Err(version) => Err(invalid_version(version)),
            Ok(version) => Ok(Some(version)),
        },
    }
}

/// Reads the item `shared_memory`.
fn read_shared_memory_field(entries: &Vec<(String, JsonValue)>) -> (result: Result<
    SharedMemory,
    ConfigurationError,
>)
    ensures
        result_view(result) == shared_memory_field(entries_view(entries@)),
{
    match read_optional_object(entries, "shared_memory") {
        Err(error) => Err(error),
        Ok(None) => Ok(SharedMemory::default()),
        Ok(Some(inner)) => SharedMemory::from_entries(inner),
    }
}

/// Reads the item `site_package_search_strategy`.
fn read_search_strategy_field(entries: &Vec<(String, JsonValue)>) -> (result: Result<
    Option<SearchStrategy>,
    ConfigurationError,
>)
    ensures
        result_view(result) == search_strategy_field(entries_view(entries@)),
{
    match read_optional_string(entries, "site_package_search_strategy") {
        Err(error) => Err(error),
        Ok(None) => Ok(None),
        Ok(Some(name)) => match SearchStrategy::from_string(name.as_str()) {
            Some(strategy) => Ok(Some(strategy)),
            None => {
                let actual = JsonValue::String(name);
                Err(
                    invalid_field(
                        "site_package_search_strategy",
                        ExpectedType::SearchStrategy,
                        &actual,
                    ),
                )
            },
        },
    }
}

/// Reads the item `unwatched_dependency`.
fn read_unwatched_dependency_field(entries: &Vec<(String, JsonValue)>) -> (result: Result<
    Option<UnwatchedDependency>,
    ConfigurationError,
>)
    ensures
        result_view(result) == unwatched_dependency_field(entries_view(entries@)),
        result matches Ok(Some(dependency)) ==> dependency@.well_formed(),
{
    match read_optional_object(entries, "unwatched_dependency") {
        Err(error) => Err(error),
        Ok(None) => Ok(None),
        Ok(Some(inner)) => match UnwatchedDependency::from_entries(inner) {
            Err(error) => Err(error),
            Ok(dependency) => Ok(Some(dependency)),
        },
    }
}

/// Reads the layer that the entries of a configuration object set.
pub fn read_layer(entries: &Vec<(String, JsonValue)>) -> (result: Result<
    PartialConfiguration,
    ConfigurationError,
>)
    ensures
        result_view(result) == layer_of(entries_view(entries@)),
        result matches Ok(layer) ==> layer@.well_formed(),
{
    let binary = read_optional_string(entries, "binary")?;
    let buck_mode = read_optional_string_or_string_dict(entries, "buck_mode")?;
    let do_not_ignore_errors_in = read_string_list(entries, "do_not_ignore_errors_in", false)?;
    let dot_pyre_directory = read_optional_string(entries, "dot_pyre_directory")?;
    let excludes = read_string_list(entries, "exclude", true)?;
    let extensions = read_extensions_field(entries)?;
    let ide_features = read_ide_features_field(entries)?;
    let ignore_all_errors = read_string_list(entries, "ignore_all_errors", false)?;
    let isolation_prefix = read_optional_string(entries, "isolation_prefix")?;
    let logger = read_optional_string(entries, "logger")?;
    let number_of_workers = read_optional_integer(entries, "workers")?;
    let oncall = read_optional_string(entries, "oncall")?;
    let other_critical_files = read_string_list(entries, "critical_files", false)?;
    let pysa_version_hash = read_optional_string(entries, "pysa_version")?;
    let python_version = read_python_version_field(entries)?;
    let search_path = read_string_list(entries, "search_path", true)?;
    let shared_memory = read_shared_memory_field(entries)?;
    let site_package_search_strategy = read_search_strategy_field(entries)?;
    let site_roots = read_optional_string_list(entries, "site_roots")?;
    let source_directories = read_optional_string_list(entries, "source_directories")?;
    let strict = read_optional_bool(entries, "strict")?;
    let taint_models_path = read_string_list(entries, "taint_models_path", true)?;
    let targets = read_optional_string_list(entries, "targets")?;
    let typeshed = read_optional_string(entries, "typeshed")?;
    let unwatched_dependency = read_unwatched_dependency_field(entries)?;
    let use_buck2 = read_optional_bool(entries, "use_buck2")?;
    let version_hash = read_optional_string(entries, "version")?;
    let layer = PartialConfiguration {
        binary,
        buck_mode,
        do_not_ignore_errors_in,
        dot_pyre_directory,
        excludes,
        extensions,
        ide_features,
        ignore_all_errors,
        isolation_prefix,
        logger,
        number_of_workers,
        oncall,
        other_critical_files,
        pysa_version_hash,
        python_version,
        search_path: elements_from(search_path),
        shared_memory,
        site_package_search_strategy,
        site_roots,
        source_directories: match source_directories {
            Some(directories) => Some(elements_from(directories)),
            None => None,
        },
        strict,
        taint_models_path,
        targets,
        typeshed,
        unwatched_dependency,
        use_buck2,
        version_hash,
    };
    assert(layer@ =~~= layer_of(entries_view(entries@))->Ok_0);
    Ok(layer)
}

/// The items that have a replacement, each with its replacement.
pub open spec fn deprecated_items() -> Seq<(Seq<char>, Seq<char>)> {
    seq![("do_not_check"@, "ignore_all_errors"@)]
}

/// The items that are accepted without being read.
pub open spec fn extra_keys() -> Seq<Seq<char>> {
    seq![
        "create_open_source_configuration"@,
        "saved_state"@,
        "stable_client"@,
        "taint_models_path"@,
        "unstable_client"@,
    ]
}

/// The items that a layer is read from.
pub open spec fn recognized_keys() -> Seq<Seq<char>> {
    seq![
        "binary"@,
        "buck_mode"@,
        "do_not_ignore_errors_in"@,
        "dot_pyre_directory"@,
        "exclude"@,
        "extensions"@,
        "ide_features"@,
        "ignore_all_errors"@,
        "isolation_prefix"@,
        "logger"@,
        "workers"@,
        "oncall"@,
        "critical_files"@,
        "pysa_version"@,
        "python_version"@,
        "search_path"@,
        "shared_memory"@,
        "site_package_search_strategy"@,
        "site_roots"@,
        "source_directories"@,
        "strict"@,
        "taint_models_path"@,
        "targets"@,
        "typeshed"@,
        "unwatched_dependency"@,
        "use_buck2"@,
        "version"@,
    ]
}

/// Whether one of the deprecated items is named `key`.
pub open spec fn is_deprecated(key: Seq<char>) -> bool {
    exists|i: int|
        0 <= i < deprecated_items().len() && (#[trigger] deprecated_items()[i]).0 == key
}

/// Whether `key` names an item that is read, accepted or deprecated.
pub open spec fn is_known(key: Seq<char>) -> bool {
    recognized_keys().contains(key) || extra_keys().contains(key) || is_deprecated(key)
}

/// The warnings for the first `count` deprecated items: one for each
/// that the object holds, in the order of the items.
pub open spec fn deprecation_warnings(entries: Entries, count: nat) -> Seq<DiagnosticView>
    decreases count,
{
    if count == 0 || count > deprecated_items().len() {
        Seq::empty()
    } else {
        let front = deprecation_warnings(entries, (count - 1) as nat);
        let item = deprecated_items()[count - 1];
        if has_key(entries, item.0) {
            front.push(DiagnosticView::DeprecatedItem { key: item.0, replacement: item.1 })
        } else {
            front
        }
    }
}

/// The warnings for the entries of an object that mean nothing: one for
/// each entry whose name is not known, in the order of the entries.
pub open spec fn unrecognized_warnings(entries: Entries) -> Seq<DiagnosticView>
    decreases entries.len(),
{
    if entries.len() == 0 {
        Seq::empty()
    } else {
        let front = unrecognized_warnings(entries.drop_last());
        let key = entries.last().0;
        if is_known(key) {
            front
        } else {
            front.push(DiagnosticView::UnrecognizedItem { key })
        }
    }
}

/// The warnings that a configuration object gives rise to: those for
/// its deprecated items, then those for its unrecognized ones.
pub open spec fn warnings_of(entries: Entries) -> Seq<DiagnosticView> {
    deprecation_warnings(entries, deprecated_items().len()) + unrecognized_warnings(entries)
}

/// What decoding a document gives: for an object, the layer it sets
/// together with its warnings, or the failure of its first ill-typed
/// item; for anything else, a failure.
pub open spec fn decoding(document: JsonView) -> Decoded<
    (PartialConfigurationView, Seq<DiagnosticView>),
> {
    match document {
        JsonView::Object(entries) => match layer_of(entries) {
            Ok(layer) => Ok((layer, warnings_of(entries))),
            Err(error) => Err(error),
        },
        other => Err(ConfigurationErrorView::NotAnObject { actual: other }),
    }
}

/// What decoding a text gives: the decoding of the document that the
/// parser reads from it, or a failure where it is not JSON.
pub open spec fn decoding_of_text(text: Seq<char>) -> Decoded<
    (PartialConfigurationView, Seq<DiagnosticView>),
> {
    match parsed_document(text) {
        Some(document) => decoding(document),
        None => Err(ConfigurationErrorView::InvalidJson),
    }
}

/// Whether one of `names` is `key`.
pub fn is_among(names: &Vec<&'static str>, key: &str) -> (found: bool)
    ensures
        found == names.deep_view().contains(key@),
{
    let mut i: usize = 0;
    while i < names.len()
        invariant
            i <= names.len(),
            forall|j: int| 0 <= j < i ==> names.deep_view()[j] != key@,
        decreases names.len() - i,
    {
        assert(names.deep_view()[i as int] == names[i as int]@);
        if str_equal(names[i], key) {
            return true;
        }
        i += 1;
    }
    false
}

/// Whether one of the deprecated items is named `key`.
fn is_deprecated_key(items: &Vec<(&'static str, &'static str)>, key: &str) -> (found: bool)
    requires
        items.deep_view() == deprecated_items(),
    ensures
        found == is_deprecated(key@),
{
    let mut i: usize = 0;
    while i < items.len()
        invariant
            i <= items.len(),
            items.deep_view() == deprecated_items(),
            forall|j: int| 0 <= j < i ==> (#[trigger] deprecated_items()[j]).0 != key@,
        decreases items.len() - i,
    {
        assert(items.deep_view()[i as int] == (items[i as int].0@, items[i as int].1@));
        if str_equal(items[i].0, key) {
            return true;
        }
        i += 1;
    }
    false
}

/// The items that a layer is read from.
fn recognized_names() -> (names: Vec<&'static str>)
    ensures
        names.deep_view() == recognized_keys(),
{
    let mut names: Vec<&'static str> = Vec::new();
    names.push("binary");
    names.push("buck_mode");
    names.push("do_not_ignore_errors_in");
    names.push("dot_pyre_directory");
    names.push("exclude");
    names.push("extensions");
    names.push("ide_features");
    names.push("ignore_all_errors");
    names.push("isolation_prefix");
    names.push("logger");
    names.push("workers");
    names.push("oncall");
    names.push("critical_files");
    names.push("pysa_version");
    names.push("python_version");
    names.push("search_path");
    names.push("shared_memory");
    names.push("site_package_search_strategy");
    names.push("site_roots");
    names.push("source_directories");
    names.push("strict");
    names.push("taint_models_path");
    names.push("targets");
    names.push("typeshed");
    names.push("unwatched_dependency");
    names.push("use_buck2");
    names.push("version");
    assert(names.deep_view() =~= recognized_keys());
    names
}

impl PartialConfiguration {
    /// The items that have a replacement, each with its replacement.
    pub fn _get_depreacted_map() -> (items: Vec<(&'static str, &'static str)>)
        ensures
            items.deep_view() == deprecated_items(),
    {
        let mut items: Vec<(&'static str, &'static str)> = Vec::new();
        items.push(("do_not_check", "ignore_all_errors"));
        assert(items.deep_view() =~= deprecated_items());
        items
    }

    /// The items that are accepted without being read.
    pub fn _get_extra_keys() -> (names: Vec<&'static str>)
        ensures
            names.deep_view() == extra_keys(),
    {
        let mut names: Vec<&'static str> = Vec::new();
        names.push("create_open_source_configuration");
        names.push("saved_state");
        names.push("stable_client");
        names.push("taint_models_path");
        names.push("unstable_client");
        assert(names.deep_view() =~= extra_keys());
        names
    }

    /// The warnings that the entries of a configuration object give rise
    /// to.
    pub fn warnings(entries: &Vec<(String, JsonValue)>) -> (warnings: Vec<Diagnostic>)
        ensures
            warnings.deep_view() == warnings_of(entries_view(entries@)),
    {
        let ghost all = entries_view(entries@);
        let deprecated = Self::_get_depreacted_map();
        let extra = Self::_get_extra_keys();
        let recognized = recognized_names();
        let mut warnings: Vec<Diagnostic> = Vec::new();
        let mut i: usize = 0;
        proof {
            assert(warnings.deep_view() =~= deprecation_warnings(all, 0));
        }
        while i < deprecated.len()
            invariant
                i <= deprecated.len(),
                all == entries_view(entries@),
                deprecated.deep_view() == deprecated_items(),
                warnings.deep_view() == deprecation_warnings(all, i as nat),
            decreases deprecated.len() - i,
        {
            let ghost front = warnings.deep_view();
            assert(deprecated.deep_view()[i as int] == (
                deprecated[i as int].0@,
                deprecated[i as int].1@,
            ));
            if crate::json::find_entry(entries, deprecated[i].0).is_some() {
                let warning = Diagnostic::DeprecatedItem {
                    key: deprecated[i].0.to_owned(),
                    replacement: deprecated[i].1.to_owned(),
                };
                warnings.push(warning);
                proof {
                    assert(warnings.deep_view() =~= front.push(warning@));
                }
            }
            i += 1;
        }
        let ghost first = warnings.deep_view();
        let mut k: usize = 0;
        proof {
            assert(all.take(0) =~= Seq::<(Seq<char>, JsonView)>::empty());
            assert(first + unrecognized_warnings(all.take(0)) =~= first);
        }
        while k < entries.len()
            invariant
                k <= entries.len(),
                all == entries_view(entries@),
                deprecated.deep_view() == deprecated_items(),
                extra.deep_view() == extra_keys(),
                recognized.deep_view() == recognized_keys(),
                warnings.deep_view() == first + unrecognized_warnings(all.take(k as int)),
            decreases entries.len() - k,
        {
            let ghost before = warnings.deep_view();
            let key = entries[k].0.as_str();
            proof {
                assert(all.take(k + 1).drop_last() =~= all.take(k as int));
                assert(all.take(k + 1).last().0 == key@);
            }
            let known = is_among(&recognized, key) || is_among(&extra, key) || is_deprecated_key(
                &deprecated,
                key,
            );
            if !known {
                let warning = Diagnostic::UnrecognizedItem { key: key.to_owned() };
                warnings.push(warning);
                proof {
                    assert(warnings.deep_view() =~= before.push(warning@));
                    assert(before.push(warning@) =~= first + unrecognized_warnings(
                        all.take(k as int),
                    ).push(warning@));
                }
            }
            k += 1;
        }
        proof {
            assert(all.take(entries.len() as int) =~= all);
        }
        warnings
    }

    /// Decodes a layer from a document.
    pub fn from_json(document: &JsonValue) -> (result: Result<
        (PartialConfiguration, Vec<Diagnostic>),
        ConfigurationError,
    >)
        ensures
            result_view(result) == decoding(document@),
            result matches Ok(decoded) ==> decoded.0@.well_formed(),
    {
        match document {
            JsonValue::Object(entries) => {
                proof {
                    lemma_object_view(*entries);
                }
                let layer = read_layer(entries)?;
                let warnings = Self::warnings(entries);
                Ok((layer, warnings))
            },
            other => Err(ConfigurationError::NotAnObject { actual: other.duplicate() }),
        }
    }

    /// Decodes a layer from the text of a configuration file.
    pub fn from_string(contents: &str) -> (result: Result<
        (PartialConfiguration, Vec<Diagnostic>),
        ConfigurationError,
    >)
        ensures
            result_view(result) == decoding_of_text(contents@),
            result matches Ok(decoded) ==> decoded.0@.well_formed(),
    {
        match parse_document(contents) {
            Some(document) => Self::from_json(&document),
            None => Err(ConfigurationError::InvalidJson),
        }
    }
}

/// A deprecated item is reported and not migrated: a configuration
/// object that holds `do_not_check` gives the warning of its deprecation
/// before every other warning, and the directories in which all errors
/// are ignored are those of `ignore_all_errors` alone, none where that
/// item is absent.
pub proof fn lemma_deprecated_item_is_reported(entries: Entries)
    requires
        has_key(entries, "do_not_check"@),
    ensures
        warnings_of(entries).len() > 0,
        warnings_of(entries)[0] == (DiagnosticView::DeprecatedItem {
            key: "do_not_check"@,
            replacement: "ignore_all_errors"@,
        }),
        layer_of(entries) matches Ok(layer) ==> layer.ignore_all_errors == string_list(
            entries,
            "ignore_all_errors"@,
            false,
        )->Ok_0,
        layer_of(entries) matches Ok(layer) ==> (!has_key(entries, "ignore_all_errors"@)
            ==> layer.ignore_all_errors.len() == 0),
{
    reveal_with_fuel(deprecation_warnings, 2);
    assert(deprecation_warnings(entries, 0) =~= Seq::<DiagnosticView>::empty());
}

} // verus!
