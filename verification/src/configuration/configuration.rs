//! The layers of a configuration and how one is laid over another.

use vstd::prelude::*;
use vstd::string::*;
use crate::configuration::extension::{ExtensionElement, ExtensionElementView};
use crate::configuration::ide_features::IdeFeatures;
use crate::configuration::platform_aware::{PlatformAware, PlatformAwareView};
use crate::configuration::python_version::PythonVersion;
use crate::configuration::search_path::SimpleRawElement;
use crate::configuration::shared_memory::{merged, SharedMemory};
use crate::configuration::site_packages::SearchStrategy;
use crate::configuration::unwatched::{UnwatchedDependency, UnwatchedDependencyView};

verus! {

/// One layer of a configuration: what a configuration file or the command
/// line sets. An absent option and an empty list say that the layer leaves
/// the item to the layers below it; among the lists that are options, an
/// empty list that is present is a setting like any other.
#[derive(Debug)]
pub struct PartialConfiguration {
    pub binary: Option<String>,
    pub buck_mode: Option<PlatformAware>,
    pub do_not_ignore_errors_in: Vec<String>,
    pub dot_pyre_directory: Option<String>,
    pub excludes: Vec<String>,
    pub extensions: Vec<ExtensionElement>,
    pub ide_features: Option<IdeFeatures>,
    pub ignore_all_errors: Vec<String>,
    pub isolation_prefix: Option<String>,
    pub logger: Option<String>,
    pub number_of_workers: Option<i32>,
    pub oncall: Option<String>,
    pub other_critical_files: Vec<String>,
    pub pysa_version_hash: Option<String>,
    pub python_version: Option<PythonVersion>,
    pub search_path: Vec<SimpleRawElement>,
    pub shared_memory: SharedMemory,
    pub site_package_search_strategy: Option<SearchStrategy>,
    pub site_roots: Option<Vec<String>>,
    pub source_directories: Option<Vec<SimpleRawElement>>,
    pub strict: Option<bool>,
    pub taint_models_path: Vec<String>,
    pub targets: Option<Vec<String>>,
    pub typeshed: Option<String>,
    pub unwatched_dependency: Option<UnwatchedDependency>,
    pub use_buck2: Option<bool>,
    pub version_hash: Option<String>,
}

/// The plain form of a [`PartialConfiguration`].
#[verifier::ext_equal]
pub struct PartialConfigurationView {
    pub binary: Option<Seq<char>>,
    pub buck_mode: Option<PlatformAwareView>,
    pub do_not_ignore_errors_in: Seq<Seq<char>>,
    pub dot_pyre_directory: Option<Seq<char>>,
    pub excludes: Seq<Seq<char>>,
    pub extensions: Seq<ExtensionElementView>,
    pub ide_features: Option<IdeFeatures>,
    pub ignore_all_errors: Seq<Seq<char>>,
    pub isolation_prefix: Option<Seq<char>>,
    pub logger: Option<Seq<char>>,
    pub number_of_workers: Option<i32>,
    pub oncall: Option<Seq<char>>,
    pub other_critical_files: Seq<Seq<char>>,
    pub pysa_version_hash: Option<Seq<char>>,
    pub python_version: Option<PythonVersion>,
    pub search_path: Seq<Seq<char>>,
    pub shared_memory: SharedMemory,
    pub site_package_search_strategy: Option<SearchStrategy>,
    pub site_roots: Option<Seq<Seq<char>>>,
    pub source_directories: Option<Seq<Seq<char>>>,
    pub strict: Option<bool>,
    pub taint_models_path: Seq<Seq<char>>,
    pub targets: Option<Seq<Seq<char>>>,
    pub typeshed: Option<Seq<char>>,
    pub unwatched_dependency: Option<UnwatchedDependencyView>,
    pub use_buck2: Option<bool>,
    pub version_hash: Option<Seq<char>>,
}

impl DeepView for PartialConfiguration {
    type V = PartialConfigurationView;

    open spec fn deep_view(&self) -> PartialConfigurationView {
        PartialConfigurationView {
            binary: self.binary.deep_view(),
            buck_mode: self.buck_mode.deep_view(),
            do_not_ignore_errors_in: self.do_not_ignore_errors_in.deep_view(),
            dot_pyre_directory: self.dot_pyre_directory.deep_view(),
            excludes: self.excludes.deep_view(),
            extensions: self.extensions.deep_view(),
            ide_features: self.ide_features,
            ignore_all_errors: self.ignore_all_errors.deep_view(),
            isolation_prefix: self.isolation_prefix.deep_view(),
            logger: self.logger.deep_view(),
            number_of_workers: self.number_of_workers,
            oncall: self.oncall.deep_view(),
            other_critical_files: self.other_critical_files.deep_view(),
            pysa_version_hash: self.pysa_version_hash.deep_view(),
            python_version: self.python_version,
            search_path: self.search_path.deep_view(),
            shared_memory: self.shared_memory,
            site_package_search_strategy: self.site_package_search_strategy,
            site_roots: self.site_roots.deep_view(),
            source_directories: self.source_directories.deep_view(),
            strict: self.strict,
            taint_models_path: self.taint_models_path.deep_view(),
            targets: self.targets.deep_view(),
            typeshed: self.typeshed.deep_view(),
            unwatched_dependency: self.unwatched_dependency.deep_view(),
            use_buck2: self.use_buck2,
            version_hash: self.version_hash.deep_view(),
        }
    }
}

impl View for PartialConfiguration {
    type V = PartialConfigurationView;

    open spec fn view(&self) -> PartialConfigurationView {
        self.deep_view()
    }
}

impl PartialConfigurationView {
    /// The unwatched dependency of the layer, when it names one, is well
    /// formed.
    pub open spec fn well_formed(self) -> bool {
        self.unwatched_dependency matches Some(dependency) ==> dependency.well_formed()
    }
}

/// The layer that sets nothing.
pub open spec fn empty_layer() -> PartialConfigurationView {
    PartialConfigurationView {
        binary: None,
        buck_mode: None,
        do_not_ignore_errors_in: Seq::empty(),
        dot_pyre_directory: None,
        excludes: Seq::empty(),
        extensions: Seq::empty(),
        ide_features: None,
        ignore_all_errors: Seq::empty(),
        isolation_prefix: None,
        logger: None,
        number_of_workers: None,
        oncall: None,
        other_critical_files: Seq::empty(),
        pysa_version_hash: None,
        python_version: None,
        search_path: Seq::empty(),
        shared_memory: crate::configuration::shared_memory::unset(),
        site_package_search_strategy: None,
        site_roots: None,
        source_directories: None,
        strict: None,
        taint_models_path: Seq::empty(),
        targets: None,
        typeshed: None,
        unwatched_dependency: None,
        use_buck2: None,
        version_hash: None,
    }
}

/// An optional item of two layers: what the upper layer sets, otherwise
/// what the lower one has.
pub open spec fn overriding<T>(base: Option<T>, overwrite: Option<T>) -> Option<T> {
    if overwrite is Some {
        overwrite
    } else {
        base
    }
}

/// A list of two layers that is replaced: the list of the upper layer
/// where it is not empty, otherwise that of the lower one.
pub open spec fn replacing<T>(base: Seq<T>, overwrite: Seq<T>) -> Seq<T> {
    if overwrite.len() > 0 {
        overwrite
    } else {
        base
    }
}

/// A list of two layers that accumulates: the items of the lower layer
/// followed by those of the upper one.
pub open spec fn accumulating<T>(base: Seq<T>, overwrite: Seq<T>) -> Seq<T> {
    base + overwrite
}

/// The layer `overwrite` laid over the layer `base`. Every optional item
/// is overridden; the directories in which errors are not ignored and the
/// critical files accumulate; every other list is replaced.
pub open spec fn merge_layers(base: PartialConfigurationView, overwrite: PartialConfigurationView)
    -> PartialConfigurationView {
    PartialConfigurationView {
        binary: overriding(base.binary, overwrite.binary),
        buck_mode: overriding(base.buck_mode, overwrite.buck_mode),
        do_not_ignore_errors_in: accumulating(
            base.do_not_ignore_errors_in,
            overwrite.do_not_ignore_errors_in,
        ),
        dot_pyre_directory: overriding(base.dot_pyre_directory, overwrite.dot_pyre_directory),
        excludes: replacing(base.excludes, overwrite.excludes),
        extensions: replacing(base.extensions, overwrite.extensions),
        ide_features: overriding(base.ide_features, overwrite.ide_features),
        ignore_all_errors: replacing(base.ignore_all_errors, overwrite.ignore_all_errors),
        isolation_prefix: overriding(base.isolation_prefix, overwrite.isolation_prefix),
        logger: overriding(base.logger, overwrite.logger),
        number_of_workers: overriding(base.number_of_workers, overwrite.number_of_workers),
        oncall: overriding(base.oncall, overwrite.oncall),
        other_critical_files: accumulating(
            base.other_critical_files,
            overwrite.other_critical_files,
        ),
        pysa_version_hash: overriding(base.pysa_version_hash, overwrite.pysa_version_hash),
        python_version: overriding(base.python_version, overwrite.python_version),
        search_path: replacing(base.search_path, overwrite.search_path),
        shared_memory: merged(base.shared_memory, overwrite.shared_memory),
        site_package_search_strategy: overriding(
            base.site_package_search_strategy,
            overwrite.site_package_search_strategy,
        ),
        site_roots: overriding(base.site_roots, overwrite.site_roots),
        source_directories: overriding(base.source_directories, overwrite.source_directories),
        strict: overriding(base.strict, overwrite.strict),
        taint_models_path: replacing(base.taint_models_path, overwrite.taint_models_path),
        targets: overriding(base.targets, overwrite.targets),
        typeshed: overriding(base.typeshed, overwrite.typeshed),
        unwatched_dependency: overriding(base.unwatched_dependency, overwrite.unwatched_dependency),
        use_buck2: overriding(base.use_buck2, overwrite.use_buck2),
        version_hash: overriding(base.version_hash, overwrite.version_hash),
    }
}

/// An optional item of two layers.
fn override_with<T>(base: Option<T>, overwrite: Option<T>) -> (chosen: Option<T>)
    ensures
        chosen == overriding(base, overwrite),
{
    if overwrite.is_some() {
        overwrite
    } else {
        base
    }
}

/// A list of two layers that is replaced.
fn replace_with<T>(base: Vec<T>, overwrite: Vec<T>) -> (chosen: Vec<T>)
    ensures
        chosen == (if overwrite@.len() > 0 {
            overwrite
        } else {
            base
        }),
{
    if overwrite.len() > 0 {
        overwrite
    } else {
        base
    }
}

/// A list of two layers that accumulates.
fn accumulate(base: Vec<String>, overwrite: Vec<String>) -> (all: Vec<String>)
    ensures
        all.deep_view() == accumulating(base.deep_view(), overwrite.deep_view()),
{
    let mut all = base;
    let mut added = overwrite;
    let ghost first = all.deep_view();
    let ghost second = added.deep_view();
    let ghost lower = all@;
    let ghost upper = added@;
    all.append(&mut added);
    proof {
        assert(all@ == lower + upper);
        assert forall|i: int| 0 <= i < all@.len() implies all.deep_view()[i] == (first + second)[i] by {
            if i < lower.len() {
                assert(all@[i] == lower[i]);
            } else {
                assert(all@[i] == upper[i - lower.len()]);
            }
        }
        assert(all.deep_view() =~= first + second);
    }
    all
}

impl Default for PartialConfiguration {
    fn default() -> (layer: PartialConfiguration)
        ensures
            layer@ == empty_layer(),
    {
        PartialConfiguration::empty()
    }
}

impl PartialConfiguration {
    /// The layer that sets nothing.
    pub fn empty() -> (layer: PartialConfiguration)
        ensures
            layer@ == empty_layer(),
    {
        let layer = PartialConfiguration {
            binary: None,
            buck_mode: None,
            do_not_ignore_errors_in: Vec::new(),
            dot_pyre_directory: None,
            excludes: Vec::new(),
            extensions: Vec::new(),
            ide_features: None,
            ignore_all_errors: Vec::new(),
            isolation_prefix: None,
            logger: None,
            number_of_workers: None,
            oncall: None,
            other_critical_files: Vec::new(),
            pysa_version_hash: None,
            python_version: None,
            search_path: Vec::new(),
            shared_memory: SharedMemory::default(),
            site_package_search_strategy: None,
            site_roots: None,
            source_directories: None,
            strict: None,
            taint_models_path: Vec::new(),
            targets: None,
            typeshed: None,
            unwatched_dependency: None,
            use_buck2: None,
            version_hash: None,
        };
        assert(layer@ =~~= empty_layer());
        layer
    }

    /// The layer `overwrite` laid over the layer `base`.
    pub fn merge(base: PartialConfiguration, overwrite: PartialConfiguration) -> (layer:
        PartialConfiguration)
        ensures
            layer@ == merge_layers(base@, overwrite@),
            base@.well_formed() && overwrite@.well_formed() ==> layer@.well_formed(),
    {
        let layer = PartialConfiguration {
            binary: override_with(base.binary, overwrite.binary),
            buck_mode: override_with(base.buck_mode, overwrite.buck_mode),
            do_not_ignore_errors_in: accumulate(
                base.do_not_ignore_errors_in,
                overwrite.do_not_ignore_errors_in,
            ),
            dot_pyre_directory: override_with(base.dot_pyre_directory, overwrite.dot_pyre_directory),
            excludes: replace_with(base.excludes, overwrite.excludes),
            extensions: replace_with(base.extensions, overwrite.extensions),
            ide_features: override_with(base.ide_features, overwrite.ide_features),
            ignore_all_errors: replace_with(base.ignore_all_errors, overwrite.ignore_all_errors),
            isolation_prefix: override_with(base.isolation_prefix, overwrite.isolation_prefix),
            logger: override_with(base.logger, overwrite.logger),
            number_of_workers: override_with(base.number_of_workers, overwrite.number_of_workers),
            oncall: override_with(base.oncall, overwrite.oncall),
            other_critical_files: accumulate(
                base.other_critical_files,
                overwrite.other_critical_files,
            ),
            pysa_version_hash: override_with(base.pysa_version_hash, overwrite.pysa_version_hash),
            python_version: override_with(base.python_version, overwrite.python_version),
            search_path: replace_with(base.search_path, overwrite.search_path),
            shared_memory: base.shared_memory.merge(overwrite.shared_memory),
            site_package_search_strategy: override_with(
                base.site_package_search_strategy,
                overwrite.site_package_search_strategy,
            ),
            site_roots: override_with(base.site_roots, overwrite.site_roots),
            source_directories: override_with(base.source_directories, overwrite.source_directories),
            strict: override_with(base.strict, overwrite.strict),
            taint_models_path: replace_with(base.taint_models_path, overwrite.taint_models_path),
            targets: override_with(base.targets, overwrite.targets),
            typeshed: override_with(base.typeshed, overwrite.typeshed),
            unwatched_dependency: override_with(
                base.unwatched_dependency,
                overwrite.unwatched_dependency,
            ),
            use_buck2: override_with(base.use_buck2, overwrite.use_buck2),
            version_hash: override_with(base.version_hash, overwrite.version_hash),
        };
        assert(layer@ =~~= merge_layers(base@, overwrite@));
        layer
    }
}

/// The layer `overwrite` laid over the layer `base`.
pub fn merge_partial_configurations(base: PartialConfiguration, overwrite: PartialConfiguration)
    -> (layer: PartialConfiguration)
    ensures
        layer@ == merge_layers(base@, overwrite@),
        base@.well_formed() && overwrite@.well_formed() ==> layer@.well_formed(),
{
    PartialConfiguration::merge(base, overwrite)
}

/// Laying the layer that sets nothing over a layer, or a layer over the
/// layer that sets nothing, gives the layer itself.
pub proof fn lemma_merge_with_empty_layer(layer: PartialConfigurationView)
    ensures
        merge_layers(layer, empty_layer()) == layer,
        merge_layers(empty_layer(), layer) == layer,
{
    assert(merge_layers(layer, empty_layer()) =~~= layer);
    assert(merge_layers(empty_layer(), layer) =~~= layer);
}

/// Three layers laid over one another give the same layer whichever two
/// are merged first.
pub proof fn lemma_merge_is_associative(
    lower: PartialConfigurationView,
    middle: PartialConfigurationView,
    upper: PartialConfigurationView,
)
    ensures
        merge_layers(merge_layers(lower, middle), upper) == merge_layers(
            lower,
            merge_layers(middle, upper),
        ),
{
    assert(merge_layers(merge_layers(lower, middle), upper) =~~= merge_layers(
        lower,
        merge_layers(middle, upper),
    ));
}

/// What the upper layer sets is what the merged layer has: an option
/// that is present, and a replaced list that is not empty, come out as
/// the upper layer has them, and what the upper layer leaves open comes
/// out as the lower layer has it.
pub proof fn lemma_upper_layer_wins(base: PartialConfigurationView, overwrite: PartialConfigurationView)
    ensures
        overwrite.strict is Some ==> merge_layers(base, overwrite).strict == overwrite.strict,
        overwrite.strict is None ==> merge_layers(base, overwrite).strict == base.strict,
        overwrite.targets is Some ==> merge_layers(base, overwrite).targets == overwrite.targets,
        overwrite.targets is None ==> merge_layers(base, overwrite).targets == base.targets,
        overwrite.search_path.len() > 0 ==> merge_layers(base, overwrite).search_path
            == overwrite.search_path,
        overwrite.search_path.len() == 0 ==> merge_layers(base, overwrite).search_path
            == base.search_path,
        merge_layers(base, overwrite).do_not_ignore_errors_in == base.do_not_ignore_errors_in
            + overwrite.do_not_ignore_errors_in,
        merge_layers(base, overwrite).other_critical_files == base.other_critical_files
            + overwrite.other_critical_files,
        base.well_formed() && overwrite.well_formed() ==> merge_layers(base, overwrite).well_formed(),
{
}

} // verus!
