//! The resolved configuration that the layers give once they are merged.

use vstd::prelude::*;
use vstd::string::*;
use crate::configuration::configuration::{PartialConfiguration, PartialConfigurationView};
use crate::configuration::extension::{ExtensionElement, ExtensionElementView};
use crate::configuration::ide_features::IdeFeatures;
use crate::configuration::platform_aware::{PlatformAware, PlatformAwareView};
use crate::configuration::python_version::PythonVersion;
use crate::configuration::search_path::SimpleRawElement;
use crate::configuration::shared_memory::SharedMemory;
use crate::configuration::site_packages::SearchStrategy;
use crate::configuration::unwatched::{UnwatchedDependency, UnwatchedDependencyView};
use crate::filesystem::{
    accepts_every_path, expand_global_root_with, global_root_expansion, is_global_root_relative,
    resolve_on_disk, PathError,
};
use crate::find_directories::LOG_DIRECTORY;
use crate::paths::{is_absolute, join, join_paths};

verus! {

/// The configuration that the client runs with.
#[derive(Debug)]
pub struct Configuration {
    pub project_root: String,
    pub dot_pyre_directory: String,
    pub binary: Option<String>,
    pub buck_mode: Option<PlatformAware>,
    pub do_not_ignore_errors_in: Vec<String>,
    pub excludes: Vec<String>,
    pub extensions: Vec<ExtensionElement>,
    pub ide_features: Option<IdeFeatures>,
    pub ignore_all_errors: Vec<String>,
    pub isolation_prefix: Option<String>,
    pub logger: Option<String>,
    pub number_of_workers: Option<i32>,
    pub oncall: Option<String>,
    pub other_critical_files: Vec<String>,
    pub pysa_version_hash: Option<String>,
    pub python_version: Option<PythonVersion>,
    pub relative_local_root: Option<String>,
    pub search_path: Vec<String>,
    pub shared_memory: SharedMemory,
    pub site_package_search_strategy: SearchStrategy,
    pub site_roots: Option<Vec<String>>,
    pub source_directories: Option<Vec<String>>,
    pub strict: bool,
    pub taint_models_path: Vec<String>,
    pub targets: Option<Vec<String>>,
    pub typeshed: Option<String>,
    pub unwatched_dependency: Option<UnwatchedDependency>,
    pub use_buck2: bool,
    pub version_hash: Option<String>,
}

/// The plain form of a [`Configuration`].
#[verifier::ext_equal]
pub struct ConfigurationView {
    pub project_root: Seq<char>,
    pub dot_pyre_directory: Seq<char>,
    pub binary: Option<Seq<char>>,
    pub buck_mode: Option<PlatformAwareView>,
    pub do_not_ignore_errors_in: Seq<Seq<char>>,
    pub excludes: Seq<Seq<char>>,
    pub extensions: Seq<ExtensionElementView>,
    pub ide_features: Option<IdeFeatures>,
    pub ignore_all_errors: Seq<Seq<char>>,
    pub isolation_prefix: Option<Seq<char>>,
    pub logger: Option<Seq<char>>,
    pub number_of_workers: Option<i32>,
    pub oncall: Option<Seq<char>>,
    pub other_critical_files: Seq<Seq<char>>,
    pub pysa_version_hash: Option<Seq<char>>,
    pub python_version: Option<PythonVersion>,
    pub relative_local_root: Option<Seq<char>>,
    pub search_path: Seq<Seq<char>>,
    pub shared_memory: SharedMemory,
    pub site_package_search_strategy: SearchStrategy,
    pub site_roots: Option<Seq<Seq<char>>>,
    pub source_directories: Option<Seq<Seq<char>>>,
    pub strict: bool,
    pub taint_models_path: Seq<Seq<char>>,
    pub targets: Option<Seq<Seq<char>>>,
    pub typeshed: Option<Seq<char>>,
    pub unwatched_dependency: Option<UnwatchedDependencyView>,
    pub use_buck2: bool,
    pub version_hash: Option<Seq<char>>,
}

impl DeepView for Configuration {
    type V = ConfigurationView;

    open spec fn deep_view(&self) -> ConfigurationView {
        ConfigurationView {
            project_root: self.project_root@,
            dot_pyre_directory: self.dot_pyre_directory@,
            binary: self.binary.deep_view(),
            buck_mode: self.buck_mode.deep_view(),
            do_not_ignore_errors_in: self.do_not_ignore_errors_in.deep_view(),
            excludes: self.excludes.deep_view(),
            extensions: self.extensions.deep_view(),
            ide_features: self.ide_features,
            ignore_all_errors: self.ignore_all_errors.deep_view(),
            isolation_prefix: self.isolation_prefix.deep_view(),
            logger: self.logger.deep_view(),
            number_of_workers: self.number_of_workers,
            oncall: self.oncall.deep_view(),
            other_critical_files: self.other_critical_files.deep_view(),
            pysa_version_hash: self.pysa_version_hash.deep_view(),
            python_version: self.python_version,
            relative_local_root: self.relative_local_root.deep_view(),
            search_path: self.search_path.deep_view(),
            shared_memory: self.shared_memory,
            site_package_search_strategy: self.site_package_search_strategy,
            site_roots: self.site_roots.deep_view(),
            source_directories: self.source_directories.deep_view(),
            strict: self.strict,
            taint_models_path: self.taint_models_path.deep_view(),
            targets: self.targets.deep_view(),
            typeshed: self.typeshed.deep_view(),
            unwatched_dependency: self.unwatched_dependency.deep_view(),
            use_buck2: self.use_buck2,
            version_hash: self.version_hash.deep_view(),
        }
    }
}

impl View for Configuration {
    type V = ConfigurationView;

    open spec fn view(&self) -> ConfigurationView {
        self.deep_view()
    }
}

impl ConfigurationView {
    /// The unwatched dependency of the configuration, when it names one,
    /// is well formed.
    pub open spec fn well_formed(self) -> bool {
        self.unwatched_dependency matches Some(dependency) ==> dependency.well_formed()
    }
}

/// The directory of the tool's private state: the one that is set, or
/// the directory `.pyre` of the project root.
pub open spec fn state_directory(project_root: Seq<char>, chosen: Option<Seq<char>>) -> Seq<char> {
    match chosen {
        Some(directory) => directory,
        None => join(project_root, LOG_DIRECTORY@),
    }
}

/// The configuration that a merged layer gives for a project root and a
/// search path: every item of the layer as it is, with strictness and the
/// use of the second build system off unless set, no search of installed
/// packages unless set, and the directory of private state defaulted.
pub open spec fn assembled(
    project_root: Seq<char>,
    relative_local_root: Option<Seq<char>>,
    layer: PartialConfigurationView,
    search_path: Seq<Seq<char>>,
) -> ConfigurationView {
    ConfigurationView {
        project_root,
        dot_pyre_directory: state_directory(project_root, layer.dot_pyre_directory),
        binary: layer.binary,
        buck_mode: layer.buck_mode,
        do_not_ignore_errors_in: layer.do_not_ignore_errors_in,
        excludes: layer.excludes,
        extensions: layer.extensions,
        ide_features: layer.ide_features,
        ignore_all_errors: layer.ignore_all_errors,
        isolation_prefix: layer.isolation_prefix,
        logger: layer.logger,
        number_of_workers: layer.number_of_workers,
        oncall: layer.oncall,
        other_critical_files: layer.other_critical_files,
        pysa_version_hash: layer.pysa_version_hash,
        python_version: layer.python_version,
        relative_local_root,
        search_path,
        shared_memory: layer.shared_memory,
        site_package_search_strategy: match layer.site_package_search_strategy {
            Some(strategy) => strategy,
            None => SearchStrategy::NONE,
        },
        site_roots: layer.site_roots,
        source_directories: layer.source_directories,
        strict: match layer.strict {
            Some(flag) => flag,
            None => false,
        },
        taint_models_path: layer.taint_models_path,
        targets: layer.targets,
        typeshed: layer.typeshed,
        unwatched_dependency: layer.unwatched_dependency,
        use_buck2: match layer.use_buck2 {
            Some(flag) => flag,
            None => false,
        },
        version_hash: layer.version_hash,
    }
}

/// A search path and what its global-root markers may expand to, entry
/// by entry.
pub open spec fn search_path_expansion<F: Fn(&str) -> Option<String>>(
    resolver: &F,
    global_root: Seq<char>,
    before: Seq<Seq<char>>,
    after: Seq<Seq<char>>,
) -> bool {
    after.len() == before.len() && forall|i: int|
        0 <= i < before.len() ==> global_root_expansion(
            resolver,
            before[i],
            global_root,
            Ok(#[trigger] after[i]),
        )
}

/// A search path and the failure that the expansion of its global-root
/// markers may end in: that of one of its entries.
pub open spec fn search_path_failure<F: Fn(&str) -> Option<String>>(
    resolver: &F,
    global_root: Seq<char>,
    before: Seq<Seq<char>>,
    failure: Seq<char>,
) -> bool {
    exists|i: int|
        0 <= i < before.len() && global_root_expansion(
            resolver,
            #[trigger] before[i],
            global_root,
            Err(failure),
        )
}

/// What assembling a configuration may come to: the configuration that
/// the layer gives with its search path expanded against the project
/// root, or the failure of one of the entries of the search path.
pub open spec fn assembly<F: Fn(&str) -> Option<String>>(
    resolver: &F,
    project_root: Seq<char>,
    relative_local_root: Option<Seq<char>>,
    layer: PartialConfigurationView,
    outcome: Result<ConfigurationView, Seq<char>>,
) -> bool {
    match outcome {
        Ok(configuration) => {
            &&& configuration == assembled(
                project_root,
                relative_local_root,
                layer,
                configuration.search_path,
            )
            &&& search_path_expansion(
                resolver,
                project_root,
                layer.search_path,
                configuration.search_path,
            )
        },
        Err(failure) => search_path_failure(resolver, project_root, layer.search_path, failure),
    }
}

/// The plain form of the result of assembling a configuration.
pub open spec fn configuration_outcome_view(outcome: Result<Configuration, PathError>) -> Result<
    ConfigurationView,
    Seq<char>,
> {
    match outcome {
        Ok(configuration) => Ok(configuration@),
        Err(error) => Err(error@),
    }
}

/// Expands the global-root markers of a search path.
fn expand_search_path_with<F: Fn(&str) -> Option<String>>(
    global_root: &str,
    elements: Vec<SimpleRawElement>,
    resolver: &F,
) -> (outcome: Result<Vec<String>, PathError>)
    requires
        accepts_every_path(resolver),
    ensures
        match outcome {
            Ok(after) => search_path_expansion(
                resolver,
                global_root@,
                elements.deep_view(),
                after.deep_view(),
            ),
            Err(error) => search_path_failure(resolver, global_root@, elements.deep_view(), error@),
        },
{
    let ghost before = elements.deep_view();
    let mut expanded: Vec<String> = Vec::new();
    let mut i: usize = 0;
    while i < elements.len()
        invariant
            i <= elements.len(),
            before == elements.deep_view(),
            accepts_every_path(resolver),
            expanded.len() == i,
            forall|j: int|
                0 <= j < i ==> global_root_expansion(
                    resolver,
                    before[j],
                    global_root@,
                    Ok(#[trigger] expanded[j]@),
                ),
        decreases elements.len() - i,
    {
        assert(before[i as int] == elements[i as int]@);
        match expand_global_root_with(elements[i].root.as_str(), global_root, resolver) {
            Ok(resolved) => {
                expanded.push(resolved);
            },
            Err(error) => {
                assert(global_root_expansion(resolver, before[i as int], global_root@, Err(error@)));
                return Err(error);
            },
        }
        i += 1;
    }
    proof {
        let after = expanded.deep_view();
        assert forall|j: int| 0 <= j < before.len() implies global_root_expansion(
            resolver,
            before[j],
            global_root@,
            Ok(#[trigger] after[j]),
        ) by {
            assert(after[j] == expanded[j]@);
        }
    }
    Ok(expanded)
}

/// The paths at which the entries of a search path stand.
fn roots_of(elements: Vec<SimpleRawElement>) -> (roots: Vec<String>)
    ensures
        roots.deep_view() == elements.deep_view(),
{
    let mut roots: Vec<String> = Vec::new();
    let mut i: usize = 0;
    while i < elements.len()
        invariant
            i <= elements.len(),
            roots.len() == i,
            forall|j: int| 0 <= j < i ==> roots[j]@ == elements[j]@,
        decreases elements.len() - i,
    {
        roots.push(elements[i].root.clone());
        i += 1;
    }
    assert(roots.deep_view() =~= elements.deep_view());
    roots
}

impl Configuration {
    /// The configuration that a merged layer gives for a project root,
    /// the global-root markers of its search path being expanded by the
    /// given resolver.
    pub fn from_partial_configuration_with<F: Fn(&str) -> Option<String>>(
        project_root: &str,
        relative_local_root: Option<String>,
        partial_configuration: PartialConfiguration,
        resolver: &F,
    ) -> (outcome: Result<Configuration, PathError>)
        requires
            accepts_every_path(resolver),
        ensures
            assembly(
                resolver,
                project_root@,
                relative_local_root.deep_view(),
                partial_configuration@,
                configuration_outcome_view(outcome),
            ),
            outcome matches Ok(configuration) ==> (partial_configuration@.well_formed()
                ==> configuration@.well_formed()),
    {
        let search_path = expand_search_path_with(
            project_root,
            partial_configuration.search_path,
            resolver,
        )?;
        let dot_pyre_directory = match partial_configuration.dot_pyre_directory {
            Some(directory) => directory,
            None => join_paths(project_root, LOG_DIRECTORY),
        };
        let configuration = Configuration {
            project_root: project_root.to_owned(),
            dot_pyre_directory,
            binary: partial_configuration.binary,
            buck_mode: partial_configuration.buck_mode,
            do_not_ignore_errors_in: partial_configuration.do_not_ignore_errors_in,
            excludes: partial_configuration.excludes,
            extensions: partial_configuration.extensions,
            ide_features: partial_configuration.ide_features,
            ignore_all_errors: partial_configuration.ignore_all_errors,
            isolation_prefix: partial_configuration.isolation_prefix,
            logger: partial_configuration.logger,
            number_of_workers: partial_configuration.number_of_workers,
            oncall: partial_configuration.oncall,
            other_critical_files: partial_configuration.other_critical_files,
            pysa_version_hash: partial_configuration.pysa_version_hash,
            python_version: partial_configuration.python_version,
            relative_local_root,
            search_path,
            shared_memory: partial_configuration.shared_memory,
            site_package_search_strategy: match partial_configuration.site_package_search_strategy {
                Some(strategy) => strategy,
                None => SearchStrategy::NONE,
            },
            site_roots: partial_configuration.site_roots,
            source_directories: match partial_configuration.source_directories {
                Some(directories) => Some(roots_of(directories)),
                None => None,
            },
            strict: match partial_configuration.strict {
                Some(flag) => flag,
                None => false,
            },
            taint_models_path: partial_configuration.taint_models_path,
            targets: partial_configuration.targets,
            typeshed: partial_configuration.typeshed,
            unwatched_dependency: partial_configuration.unwatched_dependency,
            use_buck2: match partial_configuration.use_buck2 {
                Some(flag) => flag,
                None => false,
            },
            version_hash: partial_configuration.version_hash,
        };
        assert(configuration@ =~~= assembled(
            project_root@,
            relative_local_root.deep_view(),
            partial_configuration@,
            configuration@.search_path,
        ));
        Ok(configuration)
    }

    /// The configuration that a merged layer gives for a project root,
    /// the global-root markers of its search path being expanded on disk.
    /// Whatever the disk holds, a configuration that is returned is the
    /// one that the layer gives for the search path it carries; every
    /// entry of that search path which was written relative to the global
    /// root is absolute, and every other is as it was.
    pub fn from_partial_configuration(
        project_root: &str,
        relative_local_root: Option<String>,
        partial_configuration: PartialConfiguration,
    ) -> (outcome: Result<Configuration, PathError>)
        ensures
            outcome matches Ok(configuration) ==> {
                &&& configuration@ == assembled(
                    project_root@,
                    relative_local_root.deep_view(),
                    partial_configuration@,
                    configuration@.search_path,
                )
                &&& partial_configuration@.well_formed() ==> configuration@.well_formed()
                &&& configuration@.search_path.len() == partial_configuration@.search_path.len()
                &&& forall|i: int|
                    0 <= i < configuration@.search_path.len() ==> if is_global_root_relative(
                        partial_configuration@.search_path[i],
                    ) {
                        is_absolute(#[trigger] configuration@.search_path[i])
                    } else {
                        configuration@.search_path[i] == partial_configuration@.search_path[i]
                    }
            },
            (forall|i: int|
                0 <= i < partial_configuration@.search_path.len() ==> !is_global_root_relative(
                    #[trigger] partial_configuration@.search_path[i],
                )) ==> outcome is Ok,
    {
        let resolver = |target: &str| -> (answer: Option<String>) { resolve_on_disk(target) };
        let ghost layer = partial_configuration@;
        let outcome = Self::from_partial_configuration_with(
            project_root,
            relative_local_root,
            partial_configuration,
            &resolver,
        );
        proof {
            if outcome is Ok {
                let after = outcome->Ok_0@.search_path;
                assert forall|i: int| 0 <= i < after.len() implies if is_global_root_relative(
                    layer.search_path[i],
                ) {
                    is_absolute(#[trigger] after[i])
                } else {
                    after[i] == layer.search_path[i]
                } by {
                    assert(global_root_expansion(
                        &resolver,
                        layer.search_path[i],
                        project_root@,
                        Ok(after[i]),
                    ));
                }
            } else {
                let failure = outcome->Err_0@;
                let i = choose|i: int|
                    0 <= i < layer.search_path.len() && global_root_expansion(
                        &resolver,
                        #[trigger] layer.search_path[i],
                        project_root@,
                        Err(failure),
                    );
                assert(is_global_root_relative(layer.search_path[i]));
            }
        }
        outcome
    }
}

} // verus!
