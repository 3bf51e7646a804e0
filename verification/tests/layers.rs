use nativeclient::command_arguments::{
    AnalysisArgs, CheckArgs, CommandArguments, Commands,
};
use nativeclient::configuration::configuration::{
    merge_partial_configurations, PartialConfiguration,
};
use nativeclient::configuration::error::ConfigurationError;
use nativeclient::configuration::extension::ExtensionElement;
use nativeclient::configuration::ide_features::IdeFeatures;
use nativeclient::configuration::platform_aware::PlatformAware;
use nativeclient::configuration::python_version::PythonVersion;
use nativeclient::configuration::resolved::Configuration;
use nativeclient::configuration::search_path::SimpleRawElement;
use nativeclient::configuration::shared_memory::SharedMemory;
use nativeclient::configuration::site_packages::SearchStrategy;
use nativeclient::configuration::unwatched::{UnwatchedDependency, UnwatchedFiles};

fn as_it_is(path: &str) -> Option<String> {
    Some(path.to_string())
}

fn only_below_root(path: &str) -> Option<String> {
    if path.starts_with("/root/") {
        Some(path.to_string())
    } else {
        None
    }
}

fn strings(items: &[&str]) -> Vec<String> {
    items.iter().map(|item| item.to_string()).collect()
}

fn elements(items: &[&str]) -> Vec<SimpleRawElement> {
    items.iter().map(|item| SimpleRawElement { root: item.to_string() }).collect()
}

fn arguments() -> CommandArguments {
    CommandArguments::new(Commands::Check(CheckArgs::new()))
}

#[test]
fn merge_inherits_what_is_unset_and_overrides_with_an_empty_list() {
    let mut base = PartialConfiguration::empty();
    base.strict = Some(true);
    base.targets = Some(strings(&["t1"]));
    let mut overwrite = PartialConfiguration::empty();
    overwrite.strict = None;
    overwrite.targets = Some(Vec::new());
    let merged = PartialConfiguration::merge(base, overwrite);
    assert_eq!(merged.strict, Some(true));
    assert_eq!(merged.targets, Some(Vec::new()));
}

#[test]
fn merge_lets_the_upper_layer_win() {
    let mut base = PartialConfiguration::empty();
    base.binary = Some(String::from("low"));
    base.logger = Some(String::from("low-logger"));
    base.strict = Some(true);
    base.number_of_workers = Some(2);
    base.excludes = strings(&["low"]);
    base.search_path = elements(&["low-path"]);
    base.ignore_all_errors = strings(&["low-ignored"]);
    base.source_directories = Some(elements(&["low-src"]));
    base.python_version = Some(PythonVersion { major: 3, minor: 7, micro: 0 });
    base.site_package_search_strategy = Some(SearchStrategy::ALL);
    let mut overwrite = PartialConfiguration::empty();
    overwrite.binary = Some(String::from("high"));
    overwrite.strict = Some(false);
    overwrite.excludes = strings(&["high"]);
    overwrite.source_directories = Some(elements(&["high-src"]));
    overwrite.buck_mode = Some(PlatformAware::Single(String::from("opt")));
    let merged = merge_partial_configurations(base, overwrite);
    assert_eq!(merged.binary, Some(String::from("high")));
    assert_eq!(merged.logger, Some(String::from("low-logger")));
    assert_eq!(merged.strict, Some(false));
    assert_eq!(merged.number_of_workers, Some(2));
    assert_eq!(merged.excludes, strings(&["high"]));
    assert_eq!(merged.search_path, elements(&["low-path"]));
    assert_eq!(merged.ignore_all_errors, strings(&["low-ignored"]));
    assert_eq!(merged.source_directories, Some(elements(&["high-src"])));
    assert_eq!(merged.python_version, Some(PythonVersion { major: 3, minor: 7, micro: 0 }));
    assert_eq!(merged.site_package_search_strategy, Some(SearchStrategy::ALL));
    assert_eq!(merged.buck_mode, Some(PlatformAware::Single(String::from("opt"))));
}

#[test]
fn merge_accumulates_unignored_directories_and_critical_files() {
    let mut base = PartialConfiguration::empty();
    base.do_not_ignore_errors_in = strings(&["a"]);
    base.other_critical_files = strings(&["x"]);
    let mut overwrite = PartialConfiguration::empty();
    overwrite.do_not_ignore_errors_in = strings(&["b", "c"]);
    overwrite.other_critical_files = strings(&["y"]);
    let merged = PartialConfiguration::merge(base, overwrite);
    assert_eq!(merged.do_not_ignore_errors_in, strings(&["a", "b", "c"]));
    assert_eq!(merged.other_critical_files, strings(&["x", "y"]));
}

#[test]
fn merge_combines_shared_memory_size_by_size() {
    let mut base = PartialConfiguration::empty();
    base.shared_memory =
        SharedMemory { heap_size: Some(1), dependency_table_power: Some(2), hash_table_power: None };
    let mut overwrite = PartialConfiguration::empty();
    overwrite.shared_memory =
        SharedMemory { heap_size: Some(10), dependency_table_power: None, hash_table_power: None };
    let merged = PartialConfiguration::merge(base, overwrite);
    assert_eq!(
        merged.shared_memory,
        SharedMemory { heap_size: Some(10), dependency_table_power: Some(2), hash_table_power: None }
    );
}

#[test]
fn merge_with_the_empty_layer_changes_nothing() {
    let mut layer = PartialConfiguration::empty();
    layer.binary = Some(String::from("bin"));
    layer.excludes = strings(&["e"]);
    layer.do_not_ignore_errors_in = strings(&["d"]);
    layer.targets = Some(strings(&["t"]));
    let merged = PartialConfiguration::merge(layer, PartialConfiguration::empty());
    assert_eq!(merged.binary, Some(String::from("bin")));
    assert_eq!(merged.excludes, strings(&["e"]));
    assert_eq!(merged.do_not_ignore_errors_in, strings(&["d"]));
    assert_eq!(merged.targets, Some(strings(&["t"])));
    let merged = PartialConfiguration::merge(PartialConfiguration::empty(), merged);
    assert_eq!(merged.binary, Some(String::from("bin")));
    assert_eq!(merged.excludes, strings(&["e"]));
    assert_eq!(merged.do_not_ignore_errors_in, strings(&["d"]));
    assert_eq!(merged.targets, Some(strings(&["t"])));
}

#[test]
fn command_line_sets_only_what_is_given() {
    let layer = PartialConfiguration::from_command_arguments(arguments()).expect("a layer");
    assert_eq!(layer.strict, None);
    assert_eq!(layer.targets, None);
    assert_eq!(layer.source_directories, None);
    assert_eq!(layer.ide_features, None);
    assert_eq!(layer.buck_mode, None);
    assert_eq!(layer.binary, None);
    assert_eq!(layer.python_version, None);
    assert!(layer.search_path.is_empty());
    assert!(layer.excludes.is_empty());
    assert!(layer.extensions.is_empty());
    assert_eq!(
        layer.shared_memory,
        SharedMemory { heap_size: None, dependency_table_power: None, hash_table_power: None }
    );
    assert_eq!(layer.use_buck2, None);
    assert_eq!(layer.unwatched_dependency, None);
}

#[test]
fn command_line_is_projected_item_by_item() {
    let mut given = CommandArguments::new(Commands::Analysis(AnalysisArgs));
    given.strict = true;
    given.targets = strings(&["//a:b"]);
    given.source_directories = strings(&["src"]);
    given.search_path = strings(&["stubs"]);
    given.exclude = strings(&["gen"]);
    given.do_not_ignore_errors_in = strings(&["keep"]);
    given.binary = Some(String::from("bin"));
    given.buck_mode = Some(String::from("opt"));
    given.typeshed = Some(String::from("ts"));
    given.logger = Some(String::from("log"));
    given.dot_pyre_directory = Some(String::from(".state"));
    given.isolation_prefix = Some(String::from("iso"));
    given.python_version = Some(String::from("3.10"));
    given.shared_memory_heap_size = Some(5);
    given.shared_memory_hash_table_power = Some(7);
    given.number_of_workers = Some(3);
    given.enable_find_all_references = Some(true);
    given.use_buck2 = Some(true);
    let layer = PartialConfiguration::from_command_arguments(given).expect("a layer");
    assert_eq!(layer.strict, Some(true));
    assert_eq!(layer.targets, Some(strings(&["//a:b"])));
    assert_eq!(layer.source_directories, Some(elements(&["src"])));
    assert_eq!(layer.search_path, elements(&["stubs"]));
    assert_eq!(layer.excludes, strings(&["gen"]));
    assert_eq!(layer.do_not_ignore_errors_in, strings(&["keep"]));
    assert_eq!(layer.binary, Some(String::from("bin")));
    assert_eq!(layer.buck_mode, Some(PlatformAware::Single(String::from("opt"))));
    assert_eq!(layer.typeshed, Some(String::from("ts")));
    assert_eq!(layer.logger, Some(String::from("log")));
    assert_eq!(layer.dot_pyre_directory, Some(String::from(".state")));
    assert_eq!(layer.isolation_prefix, Some(String::from("iso")));
    assert_eq!(layer.python_version, Some(PythonVersion { major: 3, minor: 10, micro: 0 }));
    assert_eq!(
        layer.shared_memory,
        SharedMemory { heap_size: Some(5), dependency_table_power: None, hash_table_power: Some(7) }
    );
    assert_eq!(layer.number_of_workers, Some(3));
    assert_eq!(
        layer.ide_features,
        Some(IdeFeatures {
            hover_enabled: None,
            go_to_definition_enabled: None,
            find_symbols_enabled: None,
            find_all_references_enabled: Some(true),
        })
    );
    assert_eq!(layer.use_buck2, Some(true));
    assert_eq!(layer.oncall, None);
    assert_eq!(layer.site_roots, None);
    assert_eq!(layer.version_hash, None);
}

#[test]
fn command_line_with_an_ill_formed_version_fails() {
    let mut given = arguments();
    given.python_version = Some(String::from("three"));
    match PartialConfiguration::from_command_arguments(given) {
        Err(ConfigurationError::InvalidPythonVersion { version }) => {
            assert_eq!(version.msg, "Int parse error")
        }
        other => panic!("expected an invalid version, got {:?}", other),
    }
}

#[test]
fn expansion_makes_every_path_absolute() {
    let mut layer = PartialConfiguration::empty();
    layer.binary = Some(String::from("bin/pyre"));
    layer.logger = Some(String::from("/abs/logger"));
    layer.typeshed = Some(String::from("typeshed"));
    layer.do_not_ignore_errors_in = strings(&["a", "/b"]);
    layer.ignore_all_errors = strings(&["ignored"]);
    layer.other_critical_files = strings(&["critical"]);
    layer.taint_models_path = strings(&["taint"]);
    layer.search_path = elements(&["stubs", "//global", "/abs"]);
    layer.source_directories = Some(elements(&["src", "//src"]));
    layer.unwatched_dependency = Some(UnwatchedDependency {
        change_indicator: String::from("lock"),
        files: UnwatchedFiles { root: String::from("deps"), checksum_path: String::from("sums") },
    });
    layer.dot_pyre_directory = Some(String::from("state"));
    layer.excludes = strings(&["pattern"]);
    layer.site_roots = Some(strings(&["site"]));
    layer.targets = Some(strings(&["//t"]));
    layer.strict = Some(true);
    let expanded = layer.expand_relative_paths_with("/root", &as_it_is).expect("expanded");
    assert_eq!(expanded.binary, Some(String::from("/root/bin/pyre")));
    assert_eq!(expanded.logger, Some(String::from("/abs/logger")));
    assert_eq!(expanded.typeshed, Some(String::from("/root/typeshed")));
    assert_eq!(expanded.do_not_ignore_errors_in, strings(&["/root/a", "/b"]));
    assert_eq!(expanded.ignore_all_errors, strings(&["/root/ignored"]));
    assert_eq!(expanded.other_critical_files, strings(&["/root/critical"]));
    assert_eq!(expanded.taint_models_path, strings(&["/root/taint"]));
    assert_eq!(expanded.search_path, elements(&["/root/stubs", "//global", "/abs"]));
    assert_eq!(expanded.source_directories, Some(elements(&["/root/src", "//src"])));
    assert_eq!(
        expanded.unwatched_dependency,
        Some(UnwatchedDependency {
            change_indicator: String::from("lock"),
            files: UnwatchedFiles {
                root: String::from("/root/deps"),
                checksum_path: String::from("sums"),
            },
        })
    );
    assert_eq!(expanded.dot_pyre_directory, Some(String::from("state")));
    assert_eq!(expanded.excludes, strings(&["pattern"]));
    assert_eq!(expanded.site_roots, Some(strings(&["site"])));
    assert_eq!(expanded.targets, Some(strings(&["//t"])));
    assert_eq!(expanded.strict, Some(true));
    let again = expanded.expand_relative_paths_with("/elsewhere", &as_it_is).expect("expanded");
    assert_eq!(again.binary, Some(String::from("/root/bin/pyre")));
    assert_eq!(again.do_not_ignore_errors_in, strings(&["/root/a", "/b"]));
    assert_eq!(again.search_path, elements(&["/root/stubs", "//global", "/abs"]));
    assert_eq!(again.source_directories, Some(elements(&["/root/src", "//src"])));
}

#[test]
fn expansion_fails_with_the_first_unresolved_path() {
    let mut layer = PartialConfiguration::empty();
    layer.binary = Some(String::from("bin"));
    layer.typeshed = Some(String::from("/outside/typeshed"));
    let failure = layer.expand_relative_paths_with("/root", &only_below_root).expect_err("failure");
    assert_eq!(failure.path, "/outside/typeshed");
}

#[test]
fn expansion_on_disk_succeeds_without_paths() {
    let mut layer = PartialConfiguration::empty();
    layer.strict = Some(true);
    layer.search_path = elements(&["//later"]);
    let expanded = layer.expand_relative_paths("/no-such-directory-b1946ac9").expect("expanded");
    assert_eq!(expanded.strict, Some(true));
    assert_eq!(expanded.search_path, elements(&["//later"]));
    let mut layer = PartialConfiguration::empty();
    layer.binary = Some(String::from("."));
    let expanded = layer.expand_relative_paths("/").expect("expanded");
    assert_eq!(expanded.binary, Some(String::from("/")));
}

#[test]
fn assembly_fills_in_the_defaults() {
    let configuration = Configuration::from_partial_configuration_with(
        "/proj",
        None,
        PartialConfiguration::empty(),
        &as_it_is,
    )
    .expect("a configuration");
    assert_eq!(configuration.project_root, "/proj");
    assert_eq!(configuration.dot_pyre_directory, "/proj/.pyre");
    assert_eq!(configuration.relative_local_root, None);
    assert!(!configuration.strict);
    assert!(!configuration.use_buck2);
    assert_eq!(configuration.site_package_search_strategy, SearchStrategy::NONE);
    assert!(configuration.search_path.is_empty());
    assert_eq!(configuration.binary, None);
    assert_eq!(configuration.source_directories, None);
}

#[test]
fn assembly_keeps_what_the_layer_sets() {
    let mut layer = PartialConfiguration::empty();
    layer.dot_pyre_directory = Some(String::from("/state"));
    layer.strict = Some(true);
    layer.use_buck2 = Some(true);
    layer.site_package_search_strategy = Some(SearchStrategy::ALL);
    layer.search_path = elements(&["/stubs", "//third-party", "relative"]);
    layer.source_directories = Some(elements(&["/proj/src"]));
    layer.extensions = vec![ExtensionElement {
        suffix: String::from(".pyi"),
        include_suffix_in_module_qualifier: true,
    }];
    layer.number_of_workers = Some(9);
    let configuration = Configuration::from_partial_configuration_with(
        "/proj",
        Some(String::from("local")),
        layer,
        &as_it_is,
    )
    .expect("a configuration");
    assert_eq!(configuration.dot_pyre_directory, "/state");
    assert_eq!(configuration.relative_local_root, Some(String::from("local")));
    assert!(configuration.strict);
    assert!(configuration.use_buck2);
    assert_eq!(configuration.site_package_search_strategy, SearchStrategy::ALL);
    assert_eq!(configuration.search_path, strings(&["/stubs", "/proj/third-party", "relative"]));
    assert_eq!(configuration.source_directories, Some(strings(&["/proj/src"])));
    assert_eq!(configuration.extensions.len(), 1);
    assert_eq!(configuration.number_of_workers, Some(9));
}

#[test]
fn assembly_fails_where_the_search_path_cannot_be_resolved() {
    let mut layer = PartialConfiguration::empty();
    layer.search_path = elements(&["//missing"]);
    let failure = Configuration::from_partial_configuration_with(
        "/proj",
        None,
        layer,
        &only_below_root,
    )
    .expect_err("a failure");
    assert_eq!(failure.path, "/proj/missing");
}

#[test]
fn assembly_on_disk_leaves_plain_entries_alone() {
    let mut layer = PartialConfiguration::empty();
    layer.search_path = elements(&["plain", "//."]);
    let configuration =
        Configuration::from_partial_configuration("/", None, layer).expect("a configuration");
    assert_eq!(configuration.search_path, strings(&["plain", "/"]));
    assert_eq!(configuration.dot_pyre_directory, "/.pyre");
}
