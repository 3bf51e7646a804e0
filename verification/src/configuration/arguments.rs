//! The layer of configuration that the command line sets.

use vstd::prelude::*;
use vstd::string::*;
use crate::command_arguments::CommandArguments;
use crate::configuration::configuration::{PartialConfiguration, PartialConfigurationView};
use crate::configuration::decode::invalid_version;
use crate::configuration::search_path::elements_from;
use crate::configuration::error::{result_view, ConfigurationError, ConfigurationErrorView};
use crate::configuration::ide_features::IdeFeatures;
use crate::configuration::platform_aware::{PlatformAware, PlatformAwareView};
use crate::configuration::python_version::{version_of, PythonVersion};
use crate::configuration::shared_memory::SharedMemory;

verus! {

/// The version of Python that the command line asks for.
pub open spec fn version_argument(arguments: CommandArguments) -> Result<
    Option<PythonVersion>,
    ConfigurationErrorView,
> {
    match arguments.python_version {
        None => Ok(None),
        Some(text) => match version_of(text@) {
            Ok(version) => Ok(Some(version)),
            Err(message) => Err(ConfigurationErrorView::InvalidPythonVersion { message }),
        },
    }
}

/// The switches for an editor that the command line sets: a group where
/// at least one of the four is given, otherwise nothing.
pub open spec fn ide_features_argument(arguments: CommandArguments) -> Option<IdeFeatures> {
    if arguments.enable_hover is Some || arguments.enable_go_to_definition is Some
        || arguments.enable_find_symbols is Some || arguments.enable_find_all_references
        is Some {
        Some(
            IdeFeatures {
                hover_enabled: arguments.enable_hover,
                go_to_definition_enabled: arguments.enable_go_to_definition,
                find_symbols_enabled: arguments.enable_find_symbols,
                find_all_references_enabled: arguments.enable_find_all_references,
            },
        )
    } else {
        None
    }
}

/// A list of the command line as an optional setting: absent when the
/// list is empty, so that it overrides nothing.
pub open spec fn given_list(list: Seq<Seq<char>>) -> Option<Seq<Seq<char>>> {
    if list.len() > 0 {
        Some(list)
    } else {
        None
    }
}

/// The layer that the command line sets, item by item. Strictness is set
/// only where it is asked for; targets and source directories are set
/// only where some are given; what the command line has no argument for
/// is left open.
pub open spec fn layer_of_arguments(arguments: CommandArguments) -> Result<
    PartialConfigurationView,
    ConfigurationErrorView,
> {
    match version_argument(arguments) {
        Err(error) => Err(error),
        Ok(python_version) => Ok(
            PartialConfigurationView {
                binary: arguments.binary.deep_view(),
                buck_mode: match arguments.buck_mode {
                    Some(mode) => Some(PlatformAwareView::Single(mode@)),
                    None => None,
                },
                do_not_ignore_errors_in: arguments.do_not_ignore_errors_in.deep_view(),
                dot_pyre_directory: arguments.dot_pyre_directory.deep_view(),
                excludes: arguments.exclude.deep_view(),
                extensions: Seq::empty(),
                ide_features: ide_features_argument(arguments),
                ignore_all_errors: Seq::empty(),
                isolation_prefix: arguments.isolation_prefix.deep_view(),
                logger: arguments.logger.deep_view(),
                number_of_workers: arguments.number_of_workers,
                oncall: None,
                other_critical_files: Seq::empty(),
                pysa_version_hash: None,
                python_version,
                search_path: arguments.search_path.deep_view(),
                shared_memory: SharedMemory {
                    heap_size: arguments.shared_memory_heap_size,
                    dependency_table_power: arguments.shared_memory_dependency_table_power,
                    hash_table_power: arguments.shared_memory_hash_table_power,
                },
                site_package_search_strategy: None,
                site_roots: None,
                source_directories: given_list(arguments.source_directories.deep_view()),
                strict: if arguments.strict {
                    Some(true)
                } else {
                    None
                },
                taint_models_path: Seq::empty(),
                targets: given_list(arguments.targets.deep_view()),
                typeshed: arguments.typeshed.deep_view(),
                unwatched_dependency: None,
                use_buck2: arguments.use_buck2,
                version_hash: None,
            },
        ),
    }
}

impl PartialConfiguration {
    /// The layer that the command line sets.
    pub fn from_command_arguments(arguments: CommandArguments) -> (result: Result<
        PartialConfiguration,
        ConfigurationError,
    >)
        ensures
            result_view(result) == layer_of_arguments(arguments),
            result matches Ok(layer) ==> layer@.well_formed(),
    {
        let python_version = match &arguments.python_version {
            None => None,
            Some(text) => match PythonVersion::new(text.as_str()) {
                Ok(version) => Some(version),
                Err(version) => {
                    return Err(invalid_version(version));
                },
            },
        };
        let strict: Option<bool> = if arguments.strict {
            Some(true)
        } else {
            None
        };
        let source_directories = if arguments.source_directories.len() > 0 {
            Some(elements_from(arguments.source_directories))
        } else {
            None
        };
        let targets = if arguments.targets.len() > 0 {
            Some(arguments.targets)
        } else {
            None
        };
        let ide_features = if arguments.enable_hover.is_some()
            || arguments.enable_go_to_definition.is_some() || arguments.enable_find_symbols.is_some()
            || arguments.enable_find_all_references.is_some() {
            Some(
                IdeFeatures {
                    hover_enabled: arguments.enable_hover,
                    go_to_definition_enabled: arguments.enable_go_to_definition,
                    find_symbols_enabled: arguments.enable_find_symbols,
                    find_all_references_enabled: arguments.enable_find_all_references,
                },
            )
        } else {
            None
        };
        let layer = PartialConfiguration {
            binary: arguments.binary,
            buck_mode: match arguments.buck_mode {
                Some(mode) => Some(PlatformAware::Single(mode)),
                None => None,
            },
            do_not_ignore_errors_in: arguments.do_not_ignore_errors_in,
            dot_pyre_directory: arguments.dot_pyre_directory,
            excludes: arguments.exclude,
            extensions: Vec::new(),
            ide_features,
            ignore_all_errors: Vec::new(),
            isolation_prefix: arguments.isolation_prefix,
            logger: arguments.logger,
            number_of_workers: arguments.number_of_workers,
            oncall: None,
            other_critical_files: Vec::new(),
            pysa_version_hash: None,
            python_version,
            search_path: elements_from(arguments.search_path),
            shared_memory: SharedMemory {
                heap_size: arguments.shared_memory_heap_size,
                dependency_table_power: arguments.shared_memory_dependency_table_power,
                hash_table_power: arguments.shared_memory_hash_table_power,
            },
            site_package_search_strategy: None,
            site_roots: None,
            source_directories,
            strict,
            taint_models_path: Vec::new(),
            targets,
            typeshed: arguments.typeshed,
            unwatched_dependency: None,
            use_buck2: arguments.use_buck2,
            version_hash: None,
        };
        assert(layer@ =~~= layer_of_arguments(arguments)->Ok_0);
        Ok(layer)
    }
}

} // verus!
