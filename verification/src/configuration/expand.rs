//! Expansion of the paths that a layer of configuration names against
//! the directory the layer comes from.

use vstd::prelude::*;
use vstd::string::*;
use crate::configuration::configuration::{PartialConfiguration, PartialConfigurationView};
use crate::configuration::search_path::{relative_root_expansion, SimpleRawElement};
use crate::configuration::unwatched::{
    UnwatchedDependency, UnwatchedDependencyView, UnwatchedFiles,
};
use crate::filesystem::{
    accepts_every_path, answers_itself, expand_relative_path_with, expansion,
    is_global_root_relative, lemma_expansion_is_idempotent, resolve_on_disk, PathError,
};
use crate::paths::is_absolute;

verus! {

/// An optional path and what it may expand to.
pub open spec fn optional_expansion<F: Fn(&str) -> Option<String>>(
    resolver: &F,
    root: Seq<char>,
    before: Option<Seq<char>>,
    after: Option<Seq<char>>,
) -> bool {
    match before {
        None => after is None,
        Some(path) => after is Some && expansion(resolver, root, path, Ok(after->0)),
    }
}

/// An optional path and the failure its expansion may end in.
pub open spec fn optional_failure<F: Fn(&str) -> Option<String>>(
    resolver: &F,
    root: Seq<char>,
    before: Option<Seq<char>>,
    failure: Seq<char>,
) -> bool {
    before is Some && expansion(resolver, root, before->0, Err(failure))
}

/// A list of paths and what it may expand to, path by path.
pub open spec fn list_expansion<F: Fn(&str) -> Option<String>>(
    resolver: &F,
    root: Seq<char>,
    before: Seq<Seq<char>>,
    after: Seq<Seq<char>>,
) -> bool {
    after.len() == before.len() && forall|i: int|
        0 <= i < before.len() ==> expansion(resolver, root, before[i], Ok(#[trigger] after[i]))
}

/// A list of paths and the failure its expansion may end in: that of one
/// of its paths.
pub open spec fn list_failure<F: Fn(&str) -> Option<String>>(
    resolver: &F,
    root: Seq<char>,
    before: Seq<Seq<char>>,
    failure: Seq<char>,
) -> bool {
    exists|i: int|
        0 <= i < before.len() && expansion(resolver, root, #[trigger] before[i], Err(failure))
}

/// The entries of a search path and what they may expand to, entry by
/// entry; an entry written relative to the global root stays as it is.
pub open spec fn elements_expansion<F: Fn(&str) -> Option<String>>(
    resolver: &F,
    root: Seq<char>,
    before: Seq<Seq<char>>,
    after: Seq<Seq<char>>,
) -> bool {
    after.len() == before.len() && forall|i: int|
        0 <= i < before.len() ==> relative_root_expansion(
            resolver,
            before[i],
            root,
            Ok(#[trigger] after[i]),
        )
}

/// The entries of a search path and the failure their expansion may end
/// in: that of one of them.
pub open spec fn elements_failure<F: Fn(&str) -> Option<String>>(
    resolver: &F,
    root: Seq<char>,
    before: Seq<Seq<char>>,
    failure: Seq<char>,
) -> bool {
    exists|i: int|
        0 <= i < before.len() && relative_root_expansion(
            resolver,
            #[trigger] before[i],
            root,
            Err(failure),
        )
}

/// Optional entries of a search path and what they may expand to.
pub open spec fn optional_elements_expansion<F: Fn(&str) -> Option<String>>(
    resolver: &F,
    root: Seq<char>,
    before: Option<Seq<Seq<char>>>,
    after: Option<Seq<Seq<char>>>,
) -> bool {
    match before {
        None => after is None,
        Some(elements) => after is Some && elements_expansion(resolver, root, elements, after->0),
    }
}

/// Optional entries of a search path and the failure their expansion may
/// end in.
pub open spec fn optional_elements_failure<F: Fn(&str) -> Option<String>>(
    resolver: &F,
    root: Seq<char>,
    before: Option<Seq<Seq<char>>>,
    failure: Seq<char>,
) -> bool {
    before is Some && elements_failure(resolver, root, before->0, failure)
}

/// An optional unwatched dependency and what it may expand to: the root
/// of its files is expanded, the rest is kept.
pub open spec fn unwatched_expansion<F: Fn(&str) -> Option<String>>(
    resolver: &F,
    root: Seq<char>,
    before: Option<UnwatchedDependencyView>,
    after: Option<UnwatchedDependencyView>,
) -> bool {
    match before {
        None => after is None,
        Some(dependency) => {
            &&& after is Some
            &&& after->0.change_indicator == dependency.change_indicator
            &&& after->0.files.checksum_path == dependency.files.checksum_path
            &&& expansion(resolver, root, dependency.files.root, Ok(after->0.files.root))
        },
    }
}

/// An optional unwatched dependency and the failure its expansion may
/// end in.
pub open spec fn unwatched_failure<F: Fn(&str) -> Option<String>>(
    resolver: &F,
    root: Seq<char>,
    before: Option<UnwatchedDependencyView>,
    failure: Seq<char>,
) -> bool {
    before is Some && expansion(resolver, root, before->0.files.root, Err(failure))
}

/// A layer and what it may expand to against `root`: every path it names
/// is expanded and everything else is kept. The paths are the binary, the
/// logger, the typeshed, the source directories, the search path, the
/// directories in which errors are or are not ignored, the critical
/// files, the paths of taint models and the root of the unwatched files.
pub open spec fn layer_expansion<F: Fn(&str) -> Option<String>>(
    resolver: &F,
    root: Seq<char>,
    before: PartialConfigurationView,
    after: PartialConfigurationView,
) -> bool {
    &&& optional_expansion(resolver, root, before.binary, after.binary)
    &&& after.buck_mode == before.buck_mode
    &&& list_expansion(
        resolver,
        root,
        before.do_not_ignore_errors_in,
        after.do_not_ignore_errors_in,
    )
    &&& after.dot_pyre_directory == before.dot_pyre_directory
    &&& after.excludes == before.excludes
    &&& after.extensions == before.extensions
    &&& after.ide_features == before.ide_features
    &&& list_expansion(resolver, root, before.ignore_all_errors, after.ignore_all_errors)
    &&& after.isolation_prefix == before.isolation_prefix
    &&& optional_expansion(resolver, root, before.logger, after.logger)
    &&& after.number_of_workers == before.number_of_workers
    &&& after.oncall == before.oncall
    &&& list_expansion(resolver, root, before.other_critical_files, after.other_critical_files)
    &&& after.pysa_version_hash == before.pysa_version_hash
    &&& after.python_version == before.python_version
    &&& elements_expansion(resolver, root, before.search_path, after.search_path)
    &&& after.shared_memory == before.shared_memory
    &&& after.site_package_search_strategy == before.site_package_search_strategy
    &&& after.site_roots == before.site_roots
    &&& optional_elements_expansion(
        resolver,
        root,
        before.source_directories,
        after.source_directories,
    )
    &&& after.strict == before.strict
    &&& list_expansion(resolver, root, before.taint_models_path, after.taint_models_path)
    &&& after.targets == before.targets
    &&& optional_expansion(resolver, root, before.typeshed, after.typeshed)
    &&& unwatched_expansion(
        resolver,
        root,
        before.unwatched_dependency,
        after.unwatched_dependency,
    )
    &&& after.use_buck2 == before.use_buck2
    &&& after.version_hash == before.version_hash
}

/// A layer and the failure its expansion may end in: that of one of the
/// paths it names.
pub open spec fn layer_failure<F: Fn(&str) -> Option<String>>(
    resolver: &F,
    root: Seq<char>,
    before: PartialConfigurationView,
    failure: Seq<char>,
) -> bool {
    ||| optional_failure(resolver, root, before.binary, failure)
    ||| list_failure(resolver, root, before.do_not_ignore_errors_in, failure)
    ||| list_failure(resolver, root, before.ignore_all_errors, failure)
    ||| optional_failure(resolver, root, before.logger, failure)
    ||| list_failure(resolver, root, before.other_critical_files, failure)
    ||| elements_failure(resolver, root, before.search_path, failure)
    ||| optional_elements_failure(resolver, root, before.source_directories, failure)
    ||| list_failure(resolver, root, before.taint_models_path, failure)
    ||| optional_failure(resolver, root, before.typeshed, failure)
    ||| unwatched_failure(resolver, root, before.unwatched_dependency, failure)
}

/// What expanding a layer against `root` may come to.
pub open spec fn expanded_layer<F: Fn(&str) -> Option<String>>(
    resolver: &F,
    root: Seq<char>,
    before: PartialConfigurationView,
    outcome: Result<PartialConfigurationView, Seq<char>>,
) -> bool {
    match outcome {
        Ok(after) => layer_expansion(resolver, root, before, after),
        Err(failure) => layer_failure(resolver, root, before, failure),
    }
}

/// Expands an optional path.
fn expand_optional_with<F: Fn(&str) -> Option<String>>(
    root: &str,
    path: Option<String>,
    resolver: &F,
) -> (outcome: Result<Option<String>, PathError>)
    requires
        accepts_every_path(resolver),
    ensures
        match outcome {
            Ok(after) => optional_expansion(resolver, root@, path.deep_view(), after.deep_view()),
            Err(error) => optional_failure(resolver, root@, path.deep_view(), error@),
        },
{
    match path {
        None => Ok(None),
        Some(given) => match expand_relative_path_with(root, given.as_str(), resolver) {
            Ok(resolved) => Ok(Some(resolved)),
            Err(error) => Err(error),
        },
    }
}

/// Expands a list of paths.
fn expand_list_with<F: Fn(&str) -> Option<String>>(
    root: &str,
    paths: Vec<String>,
    resolver: &F,
) -> (outcome: Result<Vec<String>, PathError>)
    requires
        accepts_every_path(resolver),
    ensures
        match outcome {
            Ok(after) => list_expansion(resolver, root@, paths.deep_view(), after.deep_view()),
            Err(error) => list_failure(resolver, root@, paths.deep_view(), error@),
        },
{
    let ghost before = paths.deep_view();
    let mut expanded: Vec<String> = Vec::new();
    let mut i: usize = 0;
    while i < paths.len()
        invariant
            i <= paths.len(),
            before == paths.deep_view(),
            accepts_every_path(resolver),
            expanded.len() == i,
            forall|j: int|
                0 <= j < i ==> expansion(resolver, root@, before[j], Ok(#[trigger] expanded[j]@)),
        decreases paths.len() - i,
    {
        assert(before[i as int] == paths[i as int]@);
        match expand_relative_path_with(root, paths[i].as_str(), resolver) {
            Ok(resolved) => {
                expanded.push(resolved);
            },
            Err(error) => {
                assert(expansion(resolver, root@, before[i as int], Err(error@)));
                return Err(error);
            },
        }
        i += 1;
    }
    proof {
        let after = expanded.deep_view();
        assert forall|j: int| 0 <= j < before.len() implies expansion(
            resolver,
            root@,
            before[j],
            Ok(#[trigger] after[j]),
        ) by {
            assert(after[j] == expanded[j]@);
        }
    }
    Ok(expanded)
}

/// Expands the entries of a search path.
fn expand_elements_with<F: Fn(&str) -> Option<String>>(
    root: &str,
    elements: Vec<SimpleRawElement>,
    resolver: &F,
) -> (outcome: Result<Vec<SimpleRawElement>, PathError>)
    requires
        accepts_every_path(resolver),
    ensures
        match outcome {
            Ok(after) => elements_expansion(
                resolver,
                root@,
                elements.deep_view(),
                after.deep_view(),
            ),
            Err(error) => elements_failure(resolver, root@, elements.deep_view(), error@),
        },
{
    let ghost before = elements.deep_view();
    let mut expanded: Vec<SimpleRawElement> = Vec::new();
    let mut i: usize = 0;
    while i < elements.len()
        invariant
            i <= elements.len(),
            before == elements.deep_view(),
            accepts_every_path(resolver),
            expanded.len() == i,
            forall|j: int|
                0 <= j < i ==> relative_root_expansion(
                    resolver,
                    before[j],
                    root@,
                    Ok(#[trigger] expanded[j]@),
                ),
        decreases elements.len() - i,
    {
        assert(before[i as int] == elements[i as int]@);
        match crate::configuration::search_path::_expand_relative_root_with(
            elements[i].root.as_str(),
            root,
            resolver,
        ) {
            Ok(resolved) => {
                expanded.push(SimpleRawElement { root: resolved });
            },
            Err(error) => {
                assert(relative_root_expansion(resolver, before[i as int], root@, Err(error@)));
                return Err(error);
            },
        }
        i += 1;
    }
    proof {
        let after = expanded.deep_view();
        assert forall|j: int| 0 <= j < before.len() implies relative_root_expansion(
            resolver,
            before[j],
            root@,
            Ok(#[trigger] after[j]),
        ) by {
            assert(after[j] == expanded[j]@);
        }
    }
    Ok(expanded)
}

/// Expands optional entries of a search path.
fn expand_optional_elements_with<F: Fn(&str) -> Option<String>>(
    root: &str,
    elements: Option<Vec<SimpleRawElement>>,
    resolver: &F,
) -> (outcome: Result<Option<Vec<SimpleRawElement>>, PathError>)
    requires
        accepts_every_path(resolver),
    ensures
        match outcome {
            Ok(after) => optional_elements_expansion(
                resolver,
                root@,
                elements.deep_view(),
                after.deep_view(),
            ),
            Err(error) => optional_elements_failure(resolver, root@, elements.deep_view(), error@),
        },
{
    match elements {
        None => Ok(None),
        Some(given) => match expand_elements_with(root, given, resolver) {
            Ok(expanded) => Ok(Some(expanded)),
            Err(error) => Err(error),
        },
    }
}

/// Expands the root of the files of an optional unwatched dependency.
fn expand_unwatched_with<F: Fn(&str) -> Option<String>>(
    root: &str,
    dependency: Option<UnwatchedDependency>,
    resolver: &F,
) -> (outcome: Result<Option<UnwatchedDependency>, PathError>)
    requires
        accepts_every_path(resolver),
    ensures
        match outcome {
            Ok(after) => unwatched_expansion(
                resolver,
                root@,
                dependency.deep_view(),
                after.deep_view(),
            ),
            Err(error) => unwatched_failure(resolver, root@, dependency.deep_view(), error@),
        },
{
    match dependency {
        None => Ok(None),
        Some(given) => match expand_relative_path_with(root, given.files.root.as_str(), resolver) {
            Ok(resolved) => Ok(
                Some(
                    UnwatchedDependency {
                        change_indicator: given.change_indicator,
                        files: UnwatchedFiles {
                            root: resolved,
                            checksum_path: given.files.checksum_path,
                        },
                    },
                ),
            ),
            Err(error) => Err(error),
        },
    }
}

/// The plain form of the result of expanding a layer.
pub open spec fn layer_outcome_view(outcome: Result<PartialConfiguration, PathError>) -> Result<
    PartialConfigurationView,
    Seq<char>,
> {
    match outcome {
        Ok(layer) => Ok(layer@),
        Err(error) => Err(error@),
    }
}

impl PartialConfiguration {
    /// This layer with every path it names expanded against `root` by the
    /// given resolver.
    pub fn expand_relative_paths_with<F: Fn(&str) -> Option<String>>(
        self,
        root: &str,
        resolver: &F,
    ) -> (outcome: Result<PartialConfiguration, PathError>)
        requires
            accepts_every_path(resolver),
        ensures
            expanded_layer(resolver, root@, self@, layer_outcome_view(outcome)),
            outcome matches Ok(after) ==> (self@.well_formed() ==> after@.well_formed()),
    {
        let binary = expand_optional_with(root, self.binary, resolver)?;
        let do_not_ignore_errors_in = expand_list_with(root, self.do_not_ignore_errors_in, resolver)?;
        let ignore_all_errors = expand_list_with(root, self.ignore_all_errors, resolver)?;
        let logger = expand_optional_with(root, self.logger, resolver)?;
        let other_critical_files = expand_list_with(root, self.other_critical_files, resolver)?;
        let search_path = expand_elements_with(root, self.search_path, resolver)?;
        let source_directories = expand_optional_elements_with(
            root,
            self.source_directories,
            resolver,
        )?;
        let taint_models_path = expand_list_with(root, self.taint_models_path, resolver)?;
        let typeshed = expand_optional_with(root, self.typeshed, resolver)?;
        let unwatched_dependency = expand_unwatched_with(root, self.unwatched_dependency, resolver)?;
        Ok(
            PartialConfiguration {
                binary,
                buck_mode: self.buck_mode,
                do_not_ignore_errors_in,
                dot_pyre_directory: self.dot_pyre_directory,
                excludes: self.excludes,
                extensions: self.extensions,
                ide_features: self.ide_features,
                ignore_all_errors,
                isolation_prefix: self.isolation_prefix,
                logger,
                number_of_workers: self.number_of_workers,
                oncall: self.oncall,
                other_critical_files,
                pysa_version_hash: self.pysa_version_hash,
                python_version: self.python_version,
                search_path,
                shared_memory: self.shared_memory,
                site_package_search_strategy: self.site_package_search_strategy,
                site_roots: self.site_roots,
                source_directories,
                strict: self.strict,
                taint_models_path,
                targets: self.targets,
                typeshed,
                unwatched_dependency,
                use_buck2: self.use_buck2,
                version_hash: self.version_hash,
            },
        )
    }
}

/// An optional path is kept or dropped as it was, and is absolute where
/// it is kept.
pub open spec fn optional_path_expanded(before: Option<Seq<char>>, after: Option<Seq<char>>)
    -> bool {
    (before is Some <==> after is Some) && (after is Some ==> is_absolute(after->0))
}

/// A list of paths keeps its length and holds absolute paths only.
pub open spec fn paths_expanded(before: Seq<Seq<char>>, after: Seq<Seq<char>>) -> bool {
    after.len() == before.len() && forall|i: int|
        0 <= i < after.len() ==> is_absolute(#[trigger] after[i])
}

/// The entries of a search path keep their number; an entry written
/// relative to the global root is as it was, every other is absolute.
pub open spec fn elements_expanded(before: Seq<Seq<char>>, after: Seq<Seq<char>>) -> bool {
    after.len() == before.len() && forall|i: int|
        0 <= i < after.len() ==> if is_global_root_relative(before[i]) {
            #[trigger] after[i] == before[i]
        } else {
            is_absolute(after[i])
        }
}

/// What holds of a layer and any expansion of it, whatever the paths
/// resolve to: every item that is no path is as it was, every path is
/// absolute unless it is written relative to the global root, and no item
/// has been added or dropped.
pub open spec fn in_expanded_form(before: PartialConfigurationView, after: PartialConfigurationView)
    -> bool {
    &&& optional_path_expanded(before.binary, after.binary)
    &&& after.buck_mode == before.buck_mode
    &&& paths_expanded(before.do_not_ignore_errors_in, after.do_not_ignore_errors_in)
    &&& after.dot_pyre_directory == before.dot_pyre_directory
    &&& after.excludes == before.excludes
    &&& after.extensions == before.extensions
    &&& after.ide_features == before.ide_features
    &&& paths_expanded(before.ignore_all_errors, after.ignore_all_errors)
    &&& after.isolation_prefix == before.isolation_prefix
    &&& optional_path_expanded(before.logger, after.logger)
    &&& after.number_of_workers == before.number_of_workers
    &&& after.oncall == before.oncall
    &&& paths_expanded(before.other_critical_files, after.other_critical_files)
    &&& after.pysa_version_hash == before.pysa_version_hash
    &&& after.python_version == before.python_version
    &&& elements_expanded(before.search_path, after.search_path)
    &&& after.shared_memory == before.shared_memory
    &&& after.site_package_search_strategy == before.site_package_search_strategy
    &&& after.site_roots == before.site_roots
    &&& (before.source_directories is Some <==> after.source_directories is Some)
    &&& after.source_directories is Some ==> elements_expanded(
        before.source_directories->0,
        after.source_directories->0,
    )
    &&& after.strict == before.strict
    &&& paths_expanded(before.taint_models_path, after.taint_models_path)
    &&& after.targets == before.targets
    &&& optional_path_expanded(before.typeshed, after.typeshed)
    &&& (before.unwatched_dependency is Some <==> after.unwatched_dependency is Some)
    &&& after.unwatched_dependency is Some ==> {
        &&& after.unwatched_dependency->0.change_indicator
            == before.unwatched_dependency->0.change_indicator
        &&& after.unwatched_dependency->0.files.checksum_path
            == before.unwatched_dependency->0.files.checksum_path
        &&& is_absolute(after.unwatched_dependency->0.files.root)
    }
    &&& after.use_buck2 == before.use_buck2
    &&& after.version_hash == before.version_hash
}

/// Every expansion of a layer is in expanded form, whatever the resolver
/// answers, and is well formed where the layer was.
pub proof fn lemma_expansion_gives_expanded_form<F: Fn(&str) -> Option<String>>(
    resolver: &F,
    root: Seq<char>,
    before: PartialConfigurationView,
    after: PartialConfigurationView,
)
    requires
        layer_expansion(resolver, root, before, after),
    ensures
        in_expanded_form(before, after),
        before.well_formed() ==> after.well_formed(),
{
    assert(paths_expanded(before.do_not_ignore_errors_in, after.do_not_ignore_errors_in)) by {
        lemma_list_expansion_is_absolute(
            resolver,
            root,
            before.do_not_ignore_errors_in,
            after.do_not_ignore_errors_in,
        );
    }
    assert(paths_expanded(before.ignore_all_errors, after.ignore_all_errors)) by {
        lemma_list_expansion_is_absolute(
            resolver,
            root,
            before.ignore_all_errors,
            after.ignore_all_errors,
        );
    }
    assert(paths_expanded(before.other_critical_files, after.other_critical_files)) by {
        lemma_list_expansion_is_absolute(
            resolver,
            root,
            before.other_critical_files,
            after.other_critical_files,
        );
    }
    assert(paths_expanded(before.taint_models_path, after.taint_models_path)) by {
        lemma_list_expansion_is_absolute(
            resolver,
            root,
            before.taint_models_path,
            after.taint_models_path,
        );
    }
    assert(elements_expanded(before.search_path, after.search_path)) by {
        lemma_elements_expansion_is_absolute(resolver, root, before.search_path, after.search_path);
    }
    if after.source_directories is Some {
        lemma_elements_expansion_is_absolute(
            resolver,
            root,
            before.source_directories->0,
            after.source_directories->0,
        );
    }
}

/// Every path of an expanded list is absolute.
pub proof fn lemma_list_expansion_is_absolute<F: Fn(&str) -> Option<String>>(
    resolver: &F,
    root: Seq<char>,
    before: Seq<Seq<char>>,
    after: Seq<Seq<char>>,
)
    requires
        list_expansion(resolver, root, before, after),
    ensures
        paths_expanded(before, after),
{
    assert forall|i: int| 0 <= i < after.len() implies is_absolute(#[trigger] after[i]) by {
        assert(expansion(resolver, root, before[i], Ok(after[i])));
    }
}

/// Every entry of an expanded search path is absolute or was left for the
/// global root.
pub proof fn lemma_elements_expansion_is_absolute<F: Fn(&str) -> Option<String>>(
    resolver: &F,
    root: Seq<char>,
    before: Seq<Seq<char>>,
    after: Seq<Seq<char>>,
)
    requires
        elements_expansion(resolver, root, before, after),
    ensures
        elements_expanded(before, after),
{
    assert forall|i: int| 0 <= i < after.len() implies if is_global_root_relative(before[i]) {
        #[trigger] after[i] == before[i]
    } else {
        is_absolute(after[i])
    } by {
        assert(relative_root_expansion(resolver, before[i], root, Ok(after[i])));
    }
}

/// Whether a layer names no path that expansion would have to resolve.
pub open spec fn names_no_path(layer: PartialConfigurationView) -> bool {
    &&& layer.binary is None
    &&& layer.do_not_ignore_errors_in.len() == 0
    &&& layer.ignore_all_errors.len() == 0
    &&& layer.logger is None
    &&& layer.other_critical_files.len() == 0
    &&& forall|i: int|
        0 <= i < layer.search_path.len() ==> is_global_root_relative(
            #[trigger] layer.search_path[i],
        )
    &&& layer.source_directories matches Some(directories) ==> forall|i: int|
        0 <= i < directories.len() ==> is_global_root_relative(#[trigger] directories[i])
    &&& layer.taint_models_path.len() == 0
    &&& layer.typeshed is None
    &&& layer.unwatched_dependency is None
}

/// Expanding a layer that names no path to resolve cannot fail.
pub proof fn lemma_nothing_to_resolve<F: Fn(&str) -> Option<String>>(
    resolver: &F,
    root: Seq<char>,
    before: PartialConfigurationView,
    failure: Seq<char>,
)
    requires
        names_no_path(before),
    ensures
        !layer_failure(resolver, root, before, failure),
{
    if elements_failure(resolver, root, before.search_path, failure) {
        let i = choose|i: int|
            0 <= i < before.search_path.len() && relative_root_expansion(
                resolver,
                #[trigger] before.search_path[i],
                root,
                Err(failure),
            );
        assert(is_global_root_relative(before.search_path[i]));
    }
    if optional_elements_failure(resolver, root, before.source_directories, failure) {
        let directories = before.source_directories->0;
        let i = choose|i: int|
            0 <= i < directories.len() && relative_root_expansion(
                resolver,
                #[trigger] directories[i],
                root,
                Err(failure),
            );
        assert(is_global_root_relative(directories[i]));
    }
}

impl PartialConfiguration {
    /// This layer with every path it names expanded against `root` on
    /// disk. The result is in expanded form; a failure names the path
    /// that could not be resolved, and there is none where the layer
    /// names no path to resolve.
    pub fn expand_relative_paths(self, root: &str) -> (outcome: Result<
        PartialConfiguration,
        PathError,
    >)
        ensures
            outcome matches Ok(after) ==> in_expanded_form(self@, after@),
            outcome matches Ok(after) ==> (self@.well_formed() ==> after@.well_formed()),
            names_no_path(self@) ==> outcome is Ok,
    {
        let resolver = |target: &str| -> (answer: Option<String>) { resolve_on_disk(target) };
        let ghost before = self@;
        let outcome = self.expand_relative_paths_with(root, &resolver);
        proof {
            if outcome is Ok {
                lemma_expansion_gives_expanded_form(&resolver, root@, before, outcome->Ok_0@);
            } else if names_no_path(before) {
                lemma_nothing_to_resolve(&resolver, root@, before, outcome->Err_0@);
            }
        }
        outcome
    }
}

/// An expanded list of paths expands to itself and cannot fail to.
pub proof fn lemma_list_expansion_is_idempotent<F: Fn(&str) -> Option<String>>(
    resolver: &F,
    root: Seq<char>,
    before: Seq<Seq<char>>,
    after: Seq<Seq<char>>,
    other_root: Seq<char>,
)
    requires
        answers_itself(resolver),
        list_expansion(resolver, root, before, after),
    ensures
        forall|again: Seq<Seq<char>>|
            list_expansion(resolver, other_root, after, again) ==> again == after,
        forall|failure: Seq<char>| !list_failure(resolver, other_root, after, failure),
{
    assert forall|again: Seq<Seq<char>>|
        list_expansion(resolver, other_root, after, again) implies again == after by {
        assert forall|i: int| 0 <= i < after.len() implies again[i] == after[i] by {
            assert(expansion(resolver, root, before[i], Ok(after[i])));
            assert(expansion(resolver, other_root, after[i], Ok(again[i])));
            lemma_expansion_is_idempotent(
                resolver,
                root,
                before[i],
                after[i],
                other_root,
                Ok(again[i]),
            );
        }
        assert(again =~= after);
    }
    assert forall|failure: Seq<char>| !list_failure(resolver, other_root, after, failure) by {
        if list_failure(resolver, other_root, after, failure) {
            let i = choose|i: int|
                0 <= i < after.len() && expansion(
                    resolver,
                    other_root,
                    #[trigger] after[i],
                    Err(failure),
                );
            assert(expansion(resolver, root, before[i], Ok(after[i])));
            lemma_expansion_is_idempotent(
                resolver,
                root,
                before[i],
                after[i],
                other_root,
                Err(failure),
            );
        }
    }
}

/// The expanded entries of a search path expand to themselves and cannot
/// fail to.
pub proof fn lemma_elements_expansion_is_idempotent<F: Fn(&str) -> Option<String>>(
    resolver: &F,
    root: Seq<char>,
    before: Seq<Seq<char>>,
    after: Seq<Seq<char>>,
    other_root: Seq<char>,
)
    requires
        answers_itself(resolver),
        elements_expansion(resolver, root, before, after),
    ensures
        forall|again: Seq<Seq<char>>|
            elements_expansion(resolver, other_root, after, again) ==> again == after,
        forall|failure: Seq<char>| !elements_failure(resolver, other_root, after, failure),
{
    assert forall|again: Seq<Seq<char>>|
        elements_expansion(resolver, other_root, after, again) implies again == after by {
        assert forall|i: int| 0 <= i < after.len() implies again[i] == after[i] by {
            assert(relative_root_expansion(resolver, before[i], root, Ok(after[i])));
            assert(relative_root_expansion(resolver, after[i], other_root, Ok(again[i])));
            if !is_global_root_relative(after[i]) {
                lemma_expansion_is_idempotent(
                    resolver,
                    root,
                    before[i],
                    after[i],
                    other_root,
                    Ok(again[i]),
                );
            }
        }
        assert(again =~= after);
    }
    assert forall|failure: Seq<char>| !elements_failure(resolver, other_root, after, failure) by {
        if elements_failure(resolver, other_root, after, failure) {
            let i = choose|i: int|
                0 <= i < after.len() && relative_root_expansion(
                    resolver,
                    #[trigger] after[i],
                    other_root,
                    Err(failure),
                );
            assert(relative_root_expansion(resolver, before[i], root, Ok(after[i])));
            if !is_global_root_relative(after[i]) {
                lemma_expansion_is_idempotent(
                    resolver,
                    root,
                    before[i],
                    after[i],
                    other_root,
                    Err(failure),
                );
            }
        }
    }
}

/// Expanding a layer is idempotent for a resolver that answers its own
/// answers with themselves: a layer that has been expanded expands to
/// itself, against any root, and cannot fail to.
pub proof fn lemma_layer_expansion_is_idempotent<F: Fn(&str) -> Option<String>>(
    resolver: &F,
    root: Seq<char>,
    before: PartialConfigurationView,
    after: PartialConfigurationView,
    other_root: Seq<char>,
    again: Result<PartialConfigurationView, Seq<char>>,
)
    requires
        answers_itself(resolver),
        layer_expansion(resolver, root, before, after),
        expanded_layer(resolver, other_root, after, again),
    ensures
        again == Ok::<PartialConfigurationView, Seq<char>>(after),
{
    lemma_list_expansion_is_idempotent(
        resolver,
        root,
        before.do_not_ignore_errors_in,
        after.do_not_ignore_errors_in,
        other_root,
    );
    lemma_list_expansion_is_idempotent(
        resolver,
        root,
        before.ignore_all_errors,
        after.ignore_all_errors,
        other_root,
    );
    lemma_list_expansion_is_idempotent(
        resolver,
        root,
        before.other_critical_files,
        after.other_critical_files,
        other_root,
    );
    lemma_list_expansion_is_idempotent(
        resolver,
        root,
        before.taint_models_path,
        after.taint_models_path,
        other_root,
    );
    lemma_elements_expansion_is_idempotent(
        resolver,
        root,
        before.search_path,
        after.search_path,
        other_root,
    );
    if before.source_directories is Some {
        lemma_elements_expansion_is_idempotent(
            resolver,
            root,
            before.source_directories->0,
            after.source_directories->0,
            other_root,
        );
    }
    match again {
        Ok(second) => {
            if before.binary is Some {
                lemma_expansion_is_idempotent(
                    resolver,
                    root,
                    before.binary->0,
                    after.binary->0,
                    other_root,
                    Ok(second.binary->0),
                );
            }
            if before.logger is Some {
                lemma_expansion_is_idempotent(
                    resolver,
                    root,
                    before.logger->0,
                    after.logger->0,
                    other_root,
                    Ok(second.logger->0),
                );
            }
            if before.typeshed is Some {
                lemma_expansion_is_idempotent(
                    resolver,
                    root,
                    before.typeshed->0,
                    after.typeshed->0,
                    other_root,
                    Ok(second.typeshed->0),
                );
            }
            if before.unwatched_dependency is Some {
                lemma_expansion_is_idempotent(
                    resolver,
                    root,
                    before.unwatched_dependency->0.files.root,
                    after.unwatched_dependency->0.files.root,
                    other_root,
                    Ok(second.unwatched_dependency->0.files.root),
                );
            }
            assert(second =~~= after);
        },
        Err(failure) => {
            if before.binary is Some {
                if optional_failure(resolver, other_root, after.binary, failure) {
                    lemma_expansion_is_idempotent(
                        resolver,
                        root,
                        before.binary->0,
                        after.binary->0,
                        other_root,
                        Err(failure),
                    );
                }
            }
            if before.logger is Some {
                if optional_failure(resolver, other_root, after.logger, failure) {
                    lemma_expansion_is_idempotent(
                        resolver,
                        root,
                        before.logger->0,
                        after.logger->0,
                        other_root,
                        Err(failure),
                    );
                }
            }
            if before.typeshed is Some {
                if optional_failure(resolver, other_root, after.typeshed, failure) {
                    lemma_expansion_is_idempotent(
                        resolver,
                        root,
                        before.typeshed->0,
                        after.typeshed->0,
                        other_root,
                        Err(failure),
                    );
                }
            }
            if before.unwatched_dependency is Some {
                if unwatched_failure(resolver, other_root, after.unwatched_dependency, failure) {
                    lemma_expansion_is_idempotent(
                        resolver,
                        root,
                        before.unwatched_dependency->0.files.root,
                        after.unwatched_dependency->0.files.root,
                        other_root,
                        Err(failure),
                    );
                }
            }
        },
    }
}

} // verus!
