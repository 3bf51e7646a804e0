//! The resolution of a configuration from the command line and the
//! configuration files that discovery finds.

use vstd::prelude::*;
use vstd::string::*;
use crate::command_arguments::CommandArguments;
use crate::configuration::arguments::layer_of_arguments;
use crate::configuration::configuration::{
    merge_layers, merge_partial_configurations, PartialConfiguration, PartialConfigurationView,
};
use crate::configuration::decode::decoding_of_text;
use crate::configuration::error::{
    result_view, ConfigurationError, ConfigurationErrorView, Diagnostic, DiagnosticView,
};
use crate::configuration::expand::{expanded_layer, layer_expansion, layer_failure};
use crate::configuration::resolved::{assembly, Configuration, ConfigurationView};
use crate::filesystem::{accepts_every_path, resolve_on_disk, resolves, PathError};
use crate::find_directories::{
    discovery, find_global_and_local_root_with, found_view, get_relative_local_root,
    is_regular_file, FoundRoot, FoundRootView, CONFIGURATION_FILE, LOCAL_CONFIGURATION_FILE,
};
use crate::paths::{join, join_paths, relative_to};

verus! {

/// What resolving a configuration gives: a configuration with the
/// warnings met on the way, or the failure that ended the resolution.
pub type Resolution = Result<(ConfigurationView, Seq<DiagnosticView>), ConfigurationErrorView>;

/// What reading a layer from a file gives.
pub type LayerRead = Result<(PartialConfigurationView, Seq<DiagnosticView>), ConfigurationErrorView>;

/// The directory from which discovery starts: the base directory, or the
/// local configuration that is asked for, taken inside it.
pub open spec fn search_base(base_directory: Seq<char>, local_configuration: Option<Seq<char>>)
    -> Seq<char> {
    match local_configuration {
        Some(local) => join(base_directory, local),
        None => base_directory,
    }
}

/// The failure that ends the resolution where a local configuration is
/// asked for and discovery finds no global configuration, or a global one
/// without a local one below it.
pub open spec fn missing_configuration(
    requested: bool,
    found: Option<FoundRootView>,
    search_base: Seq<char>,
) -> Option<ConfigurationErrorView> {
    if !requested {
        None
    } else {
        match found {
            None => Some(
                ConfigurationErrorView::MissingLocalConfiguration {
                    file_name: CONFIGURATION_FILE@,
                    search_base,
                },
            ),
            Some(roots) => if roots.local_root is None {
                Some(
                    ConfigurationErrorView::MissingLocalConfiguration {
                        file_name: LOCAL_CONFIGURATION_FILE@,
                        search_base,
                    },
                )
            } else {
                None
            },
        }
    }
}

/// `text` is something the reader may give for the file at `file`.
pub open spec fn reads<R: Fn(&str) -> Option<String>>(
    reader: &R,
    file: Seq<char>,
    text: Option<Seq<char>>,
) -> bool {
    resolves(reader, file, text)
}

/// What the layer of a configuration file may come to, given its text:
/// the failure of its decoding; or the layer it sets, expanded against
/// the directory of the file, with its warnings; or the failure of one of
/// its paths.
pub open spec fn file_layer<F: Fn(&str) -> Option<String>>(
    resolver: &F,
    text: Seq<char>,
    root: Seq<char>,
    outcome: LayerRead,
) -> bool {
    match decoding_of_text(text) {
        Err(error) => outcome == Err::<
            (PartialConfigurationView, Seq<DiagnosticView>),
            ConfigurationErrorView,
        >(error),
        Ok(decoded) => match outcome {
            Ok(read) => read.1 == decoded.1 && layer_expansion(resolver, root, decoded.0, read.0),
            Err(error) => error is UnresolvablePath && layer_failure(
                resolver,
                root,
                decoded.0,
                error->UnresolvablePath_path,
            ),
        },
    }
}

/// What the layer of the configuration file at `file` may come to: a
/// failure where the file cannot be read, otherwise what its text gives.
pub open spec fn file_layer_read<R: Fn(&str) -> Option<String>, F: Fn(&str) -> Option<String>>(
    reader: &R,
    resolver: &F,
    file: Seq<char>,
    root: Seq<char>,
    outcome: LayerRead,
) -> bool {
    exists|text: Option<Seq<char>>| #[trigger]
        reads(reader, file, text) && match text {
            None => outcome == Err::<
                (PartialConfigurationView, Seq<DiagnosticView>),
                ConfigurationErrorView,
            >(ConfigurationErrorView::UnreadableFile { file }),
            Some(contents) => file_layer(resolver, contents, root, outcome),
        }
}

/// What assembling the merged layer may come to: the configuration with
/// the warnings collected so far, or the failure of an entry of the
/// search path.
pub open spec fn finishing<F: Fn(&str) -> Option<String>>(
    resolver: &F,
    project_root: Seq<char>,
    relative_local_root: Option<Seq<char>>,
    layer: PartialConfigurationView,
    warnings: Seq<DiagnosticView>,
    outcome: Resolution,
) -> bool {
    match outcome {
        Ok(resolved) => resolved.1 == warnings && assembly(
            resolver,
            project_root,
            relative_local_root,
            layer,
            Ok(resolved.0),
        ),
        Err(error) => error is UnresolvablePath && assembly(
            resolver,
            project_root,
            relative_local_root,
            layer,
            Err(error->UnresolvablePath_path),
        ),
    }
}

/// What laying the layers over one another may come to. Without a
/// project, the current directory is the project root and the layer of
/// the command line stands alone. With one, the layer of the global file
/// comes first, that of the local file is laid over it where there is a
/// local root, and the layer of the command line is laid over both.
pub open spec fn layering<R: Fn(&str) -> Option<String>, F: Fn(&str) -> Option<String>>(
    reader: &R,
    resolver: &F,
    current_directory: Seq<char>,
    found: Option<FoundRootView>,
    command_layer: PartialConfigurationView,
    outcome: Resolution,
) -> bool {
    match found {
        None => finishing(
            resolver,
            current_directory,
            None,
            command_layer,
            Seq::empty(),
            outcome,
        ),
        Some(roots) => exists|global: LayerRead| #[trigger]
            file_layer_read(
                reader,
                resolver,
                join(roots.global_root, CONFIGURATION_FILE@),
                roots.global_root,
                global,
            ) && match global {
                Err(error) => outcome == Err::<
                    (ConfigurationView, Seq<DiagnosticView>),
                    ConfigurationErrorView,
                >(error),
                Ok(global_read) => local_layering(
                    reader,
                    resolver,
                    roots,
                    global_read,
                    command_layer,
                    outcome,
                ),
            },
    }
}

/// What laying the local and the command-line layer over the global one
/// may come to.
pub open spec fn local_layering<R: Fn(&str) -> Option<String>, F: Fn(&str) -> Option<String>>(
    reader: &R,
    resolver: &F,
    roots: FoundRootView,
    global_read: (PartialConfigurationView, Seq<DiagnosticView>),
    command_layer: PartialConfigurationView,
    outcome: Resolution,
) -> bool {
    match roots.local_root {
        None => finishing(
            resolver,
            roots.global_root,
            None,
            merge_layers(global_read.0, command_layer),
            global_read.1,
            outcome,
        ),
        Some(local_root) => exists|local: LayerRead| #[trigger]
            file_layer_read(
                reader,
                resolver,
                join(local_root, LOCAL_CONFIGURATION_FILE@),
                local_root,
                local,
            ) && match local {
                Err(error) => outcome == Err::<
                    (ConfigurationView, Seq<DiagnosticView>),
                    ConfigurationErrorView,
                >(error),
                Ok(local_read) => finishing(
                    resolver,
                    roots.global_root,
                    relative_to(local_root, roots.global_root),
                    merge_layers(merge_layers(global_read.0, local_read.0), command_layer),
                    global_read.1 + local_read.1,
                    outcome,
                ),
            },
    }
}

/// What resolving a configuration may come to once discovery has given
/// `found`: the failure of a local configuration that is asked for and
/// missing; the failure of the command line; the failure of a path of the
/// command line; or what laying the layers over one another comes to.
pub open spec fn creation_from<R: Fn(&str) -> Option<String>, F: Fn(&str) -> Option<String>>(
    reader: &R,
    resolver: &F,
    arguments: CommandArguments,
    start: Seq<char>,
    current_directory: Seq<char>,
    found: Option<FoundRootView>,
    outcome: Resolution,
) -> bool {
    match missing_configuration(arguments.local_configuration is Some, found, start) {
        Some(error) => outcome == Err::<
            (ConfigurationView, Seq<DiagnosticView>),
            ConfigurationErrorView,
        >(error),
        None => match layer_of_arguments(arguments) {
            Err(error) => outcome == Err::<
                (ConfigurationView, Seq<DiagnosticView>),
                ConfigurationErrorView,
            >(error),
            Ok(given) => exists|expanded: Result<PartialConfigurationView, Seq<char>>| #[trigger]
                expanded_layer(resolver, current_directory, given, expanded) && match expanded {
                    Err(failure) => outcome == Err::<
                        (ConfigurationView, Seq<DiagnosticView>),
                        ConfigurationErrorView,
                    >(ConfigurationErrorView::UnresolvablePath { path: failure }),
                    Ok(command_layer) => layering(
                        reader,
                        resolver,
                        current_directory,
                        found,
                        command_layer,
                        outcome,
                    ),
                },
        },
    }
}

/// What resolving a configuration may come to: discovery from the search
/// base, then what follows from the roots it gives.
pub open spec fn creation<
    P: Fn(&str) -> bool,
    R: Fn(&str) -> Option<String>,
    F: Fn(&str) -> Option<String>,
>(
    predicate: &P,
    reader: &R,
    resolver: &F,
    arguments: CommandArguments,
    base_directory: Seq<char>,
    current_directory: Seq<char>,
    outcome: Resolution,
) -> bool {
    let start = search_base(base_directory, arguments.local_configuration.deep_view());
    exists|found: Option<FoundRootView>| #[trigger]
        discovery(predicate, start, found) && creation_from(
            reader,
            resolver,
            arguments,
            start,
            current_directory,
            found,
            outcome,
        )
}

/// The failure of a path that could not be resolved.
pub fn unresolvable(path: PathError) -> (error: ConfigurationError)
    ensures
        error@ == (ConfigurationErrorView::UnresolvablePath { path: path@ }),
{
    ConfigurationError::UnresolvablePath { path }
}

/// The directory from which discovery starts.
pub fn search_base_of(base_directory: &str, local_configuration: &Option<String>) -> (start: String)
    ensures
        start@ == search_base(base_directory@, local_configuration.deep_view()),
{
    match local_configuration {
        Some(local) => join_paths(base_directory, local.as_str()),
        None => base_directory.to_owned(),
    }
}

/// Fails where a local configuration is asked for and discovery has not
/// found one.
pub fn check_local_configuration(requested: bool, found: &Option<FoundRoot>, start: &str) -> (result:
    Result<(), ConfigurationError>)
    ensures
        match missing_configuration(requested, found_view(*found), start@) {
            Some(error) => result matches Err(failure) && failure@ == error,
            None => result is Ok,
        },
{
    if !requested {
        return Ok(());
    }
    match found {
        None => Err(
            ConfigurationError::MissingLocalConfiguration {
                file_name: CONFIGURATION_FILE.to_owned(),
                search_base: start.to_owned(),
            },
        ),
        Some(roots) => {
            if roots.local_root.is_none() {
                Err(
                    ConfigurationError::MissingLocalConfiguration {
                        file_name: LOCAL_CONFIGURATION_FILE.to_owned(),
                        search_base: start.to_owned(),
                    },
                )
            } else {
                Ok(())
            }
        },
    }
}

/// The layer that the text of a configuration file sets, expanded
/// against the directory `root` of the file.
pub fn layer_from_text<F: Fn(&str) -> Option<String>>(text: &str, root: &str, resolver: &F) -> (result:
    Result<(PartialConfiguration, Vec<Diagnostic>), ConfigurationError>)
    requires
        accepts_every_path(resolver),
    ensures
        file_layer(resolver, text@, root@, result_view(result)),
        result matches Ok(read) ==> read.0@.well_formed(),
{
    let (layer, warnings) = PartialConfiguration::from_string(text)?;
    match layer.expand_relative_paths_with(root, resolver) {
        Ok(expanded) => Ok((expanded, warnings)),
        Err(path) => Err(unresolvable(path)),
    }
}

/// The layer of the configuration file at `file`, expanded against the
/// directory `root` of the file.
pub fn layer_from_file<R: Fn(&str) -> Option<String>, F: Fn(&str) -> Option<String>>(
    file: &str,
    root: &str,
    reader: &R,
    resolver: &F,
) -> (result: Result<(PartialConfiguration, Vec<Diagnostic>), ConfigurationError>)
    requires
        accepts_every_path(reader),
        accepts_every_path(resolver),
    ensures
        file_layer_read(reader, resolver, file@, root@, result_view(result)),
        result matches Ok(read) ==> read.0@.well_formed(),
{
    let text = reader(file);
    assert(reads(reader, file@, text.deep_view()));
    match text {
        None => Err(ConfigurationError::UnreadableFile { file: file.to_owned() }),
        Some(contents) => layer_from_text(contents.as_str(), root, resolver),
    }
}

/// Assembles the configuration from the merged layer.
fn finish<F: Fn(&str) -> Option<String>>(
    project_root: &str,
    relative_local_root: Option<String>,
    layer: PartialConfiguration,
    warnings: Vec<Diagnostic>,
    resolver: &F,
) -> (result: Result<(Configuration, Vec<Diagnostic>), ConfigurationError>)
    requires
        accepts_every_path(resolver),
    ensures
        finishing(
            resolver,
            project_root@,
            relative_local_root.deep_view(),
            layer@,
            warnings.deep_view(),
            result_view(result),
        ),
        result matches Ok(resolved) ==> (layer@.well_formed() ==> resolved.0@.well_formed()),
{
    match Configuration::from_partial_configuration_with(
        project_root,
        relative_local_root,
        layer,
        resolver,
    ) {
        Ok(configuration) => Ok((configuration, warnings)),
        Err(path) => Err(unresolvable(path)),
    }
}

/// The warnings of two layers, one after the other.
fn join_warnings(first: Vec<Diagnostic>, second: Vec<Diagnostic>) -> (all: Vec<Diagnostic>)
    ensures
        all.deep_view() == first.deep_view() + second.deep_view(),
{
    let mut all = first;
    let mut added = second;
    let ghost lower = all@;
    let ghost upper = added@;
    all.append(&mut added);
    proof {
        assert forall|i: int| 0 <= i < all@.len() implies all.deep_view()[i] == (first.deep_view()
            + second.deep_view())[i] by {
            if i < lower.len() {
                assert(all@[i] == lower[i]);
            } else {
                assert(all@[i] == upper[i - lower.len()]);
            }
        }
        assert(all.deep_view() =~= first.deep_view() + second.deep_view());
    }
    all
}

/// Lays the local and the command-line layer over the global one.
fn lay_local<R: Fn(&str) -> Option<String>, F: Fn(&str) -> Option<String>>(
    roots: FoundRoot,
    global_layer: PartialConfiguration,
    global_warnings: Vec<Diagnostic>,
    command_layer: PartialConfiguration,
    reader: &R,
    resolver: &F,
) -> (result: Result<(Configuration, Vec<Diagnostic>), ConfigurationError>)
    requires
        accepts_every_path(reader),
        accepts_every_path(resolver),
        global_layer@.well_formed(),
        command_layer@.well_formed(),
    ensures
        local_layering(
            reader,
            resolver,
            roots@,
            (global_layer@, global_warnings.deep_view()),
            command_layer@,
            result_view(result),
        ),
        result matches Ok(resolved) ==> resolved.0@.well_formed(),
{
    match &roots.local_root {
        None => {
            let layer = merge_partial_configurations(global_layer, command_layer);
            finish(roots.global_root.as_str(), None, layer, global_warnings, resolver)
        },
        Some(local_root) => {
            let file = join_paths(local_root.as_str(), LOCAL_CONFIGURATION_FILE);
            let local = layer_from_file(file.as_str(), local_root.as_str(), reader, resolver);
            let ghost seen = result_view(local);
            assert(file_layer_read(
                reader,
                resolver,
                join(local_root@, LOCAL_CONFIGURATION_FILE@),
                local_root@,
                seen,
            ));
            match local {
                Err(error) => Err(error),
                Ok((local_layer, local_warnings)) => {
                    let relative = get_relative_local_root(
                        roots.global_root.as_str(),
                        &roots.local_root,
                    );
                    let layer = merge_partial_configurations(
                        merge_partial_configurations(global_layer, local_layer),
                        command_layer,
                    );
                    let warnings = join_warnings(global_warnings, local_warnings);
                    finish(roots.global_root.as_str(), relative, layer, warnings, resolver)
                },
            }
        },
    }
}

/// Lays the layers over one another and assembles the configuration.
fn lay_layers<R: Fn(&str) -> Option<String>, F: Fn(&str) -> Option<String>>(
    current_directory: &str,
    found: Option<FoundRoot>,
    command_layer: PartialConfiguration,
    reader: &R,
    resolver: &F,
) -> (result: Result<(Configuration, Vec<Diagnostic>), ConfigurationError>)
    requires
        accepts_every_path(reader),
        accepts_every_path(resolver),
        command_layer@.well_formed(),
    ensures
        layering(
            reader,
            resolver,
            current_directory@,
            found_view(found),
            command_layer@,
            result_view(result),
        ),
        result matches Ok(resolved) ==> resolved.0@.well_formed(),
{
    match found {
        None => {
            let warnings: Vec<Diagnostic> = Vec::new();
            assert(warnings.deep_view() =~= Seq::<DiagnosticView>::empty());
            finish(current_directory, None, command_layer, warnings, resolver)
        },
        Some(roots) => {
            let ghost places = roots@;
            let file = join_paths(roots.global_root.as_str(), CONFIGURATION_FILE);
            let global = layer_from_file(
                file.as_str(),
                roots.global_root.as_str(),
                reader,
                resolver,
            );
            let ghost seen = result_view(global);
            let result = match global {
                Err(error) => Err(error),
                Ok((global_layer, global_warnings)) => lay_local(
                    roots,
                    global_layer,
                    global_warnings,
                    command_layer,
                    reader,
                    resolver,
                ),
            };
            assert(file_layer_read(
                reader,
                resolver,
                join(places.global_root, CONFIGURATION_FILE@),
                places.global_root,
                seen,
            ) && match seen {
                Err(error) => result_view(result) == Err::<
                    (ConfigurationView, Seq<DiagnosticView>),
                    ConfigurationErrorView,
                >(error),
                Ok(global_read) => local_layering(
                    reader,
                    resolver,
                    places,
                    global_read,
                    command_layer@,
                    result_view(result),
                ),
            });
            result
        },
    }
}

/// Resolves the configuration from the roots that discovery has given.
pub fn create_configuration_from<R: Fn(&str) -> Option<String>, F: Fn(&str) -> Option<String>>(
    arguments: CommandArguments,
    start: &str,
    current_directory: &str,
    found: Option<FoundRoot>,
    reader: &R,
    resolver: &F,
) -> (result: Result<(Configuration, Vec<Diagnostic>), ConfigurationError>)
    requires
        accepts_every_path(reader),
        accepts_every_path(resolver),
    ensures
        creation_from(
            reader,
            resolver,
            arguments,
            start@,
            current_directory@,
            found_view(found),
            result_view(result),
        ),
        result matches Ok(resolved) ==> resolved.0@.well_formed(),
{
    check_local_configuration(arguments.local_configuration.is_some(), &found, start)?;
    let ghost given = layer_of_arguments(arguments);
    let command_layer = PartialConfiguration::from_command_arguments(arguments)?;
    let expanded = command_layer.expand_relative_paths_with(current_directory, resolver);
    let ghost seen = crate::configuration::expand::layer_outcome_view(expanded);
    assert(expanded_layer(resolver, current_directory@, given->Ok_0, seen));
    match expanded {
        Err(path) => Err(unresolvable(path)),
        Ok(layer) => lay_layers(current_directory, found, layer, reader, resolver),
    }
}

/// Resolves the configuration for the given command line: discovers the
/// configuration files upwards from the base directory, decodes them,
/// lays the layer of the local file over that of the global one and the
/// layer of the command line over both, and assembles the result. The
/// predicate tells where files are, the reader gives their text, and the
/// resolver makes paths absolute.
pub fn create_configuration_with<
    P: Fn(&str) -> bool,
    R: Fn(&str) -> Option<String>,
    F: Fn(&str) -> Option<String>,
>(
    arguments: CommandArguments,
    base_directory: &str,
    current_directory: &str,
    predicate: &P,
    reader: &R,
    resolver: &F,
) -> (result: Result<(Configuration, Vec<Diagnostic>), ConfigurationError>)
    requires
        forall|path: &str| predicate.requires((path,)),
        accepts_every_path(reader),
        accepts_every_path(resolver),
    ensures
        creation(
            predicate,
            reader,
            resolver,
            arguments,
            base_directory@,
            current_directory@,
            result_view(result),
        ),
        result matches Ok(resolved) ==> resolved.0@.well_formed(),
{
    let start = search_base_of(base_directory, &arguments.local_configuration);
    let found = find_global_and_local_root_with(start.as_str(), predicate);
    let ghost seen = found_view(found);
    assert(discovery(predicate, start@, seen));
    create_configuration_from(
        arguments,
        start.as_str(),
        current_directory,
        found,
        reader,
        resolver,
    )
}

/// What every resolution has of the command line and of discovery,
/// whatever the files hold and whatever the paths resolve to. Without a
/// request for a local configuration, a command line that cannot be read
/// as a layer fails the resolution with its own failure. A configuration
/// that is resolved is strict where the command line asks for
/// strictness, and its project root is the current directory or one of
/// the directories from the search base upwards.
pub proof fn lemma_resolution_follows_command_line<
    P: Fn(&str) -> bool,
    R: Fn(&str) -> Option<String>,
    F: Fn(&str) -> Option<String>,
>(
    predicate: &P,
    reader: &R,
    resolver: &F,
    arguments: CommandArguments,
    base_directory: Seq<char>,
    current_directory: Seq<char>,
    outcome: Resolution,
)
    requires
        creation(
            predicate,
            reader,
            resolver,
            arguments,
            base_directory,
            current_directory,
            outcome,
        ),
    ensures
        arguments.local_configuration is None && layer_of_arguments(arguments) is Err ==> outcome
            == Err::<(ConfigurationView, Seq<DiagnosticView>), ConfigurationErrorView>(
            layer_of_arguments(arguments)->Err_0,
        ),
        outcome is Ok && arguments.strict ==> outcome->Ok_0.0.strict,
        outcome is Ok ==> outcome->Ok_0.0.project_root == current_directory
            || crate::paths::ancestors(
            search_base(base_directory, arguments.local_configuration.deep_view()),
        ).contains(outcome->Ok_0.0.project_root),
{
    let start = search_base(base_directory, arguments.local_configuration.deep_view());
    let found = choose|found: Option<FoundRootView>| #[trigger]
        discovery(predicate, start, found) && creation_from(
            reader,
            resolver,
            arguments,
            start,
            current_directory,
            found,
            outcome,
        );
    if outcome is Ok {
        let given = layer_of_arguments(arguments)->Ok_0;
        let expanded = choose|expanded: Result<PartialConfigurationView, Seq<char>>| #[trigger]
            expanded_layer(resolver, current_directory, given, expanded) && match expanded {
                Err(failure) => outcome == Err::<
                    (ConfigurationView, Seq<DiagnosticView>),
                    ConfigurationErrorView,
                >(ConfigurationErrorView::UnresolvablePath { path: failure }),
                Ok(command_layer) => layering(
                    reader,
                    resolver,
                    current_directory,
                    found,
                    command_layer,
                    outcome,
                ),
            };
        let command_layer = expanded->Ok_0;
        assert(command_layer.strict == given.strict);
        match found {
            None => {},
            Some(roots) => {
                let chain = crate::paths::ancestors(start);
                assert(chain.contains(roots.global_root));
                let global = choose|global: LayerRead| #[trigger]
                    file_layer_read(
                        reader,
                        resolver,
                        join(roots.global_root, CONFIGURATION_FILE@),
                        roots.global_root,
                        global,
                    ) && match global {
                        Err(error) => outcome == Err::<
                            (ConfigurationView, Seq<DiagnosticView>),
                            ConfigurationErrorView,
                        >(error),
                        Ok(global_read) => local_layering(
                            reader,
                            resolver,
                            roots,
                            global_read,
                            command_layer,
                            outcome,
                        ),
                    };
                let global_read = global->Ok_0;
                match roots.local_root {
                    None => {},
                    Some(local_root) => {
                        let local = choose|local: LayerRead| #[trigger]
                            file_layer_read(
                                reader,
                                resolver,
                                join(local_root, LOCAL_CONFIGURATION_FILE@),
                                local_root,
                                local,
                            ) && match local {
                                Err(error) => outcome == Err::<
                                    (ConfigurationView, Seq<DiagnosticView>),
                                    ConfigurationErrorView,
                                >(error),
                                Ok(local_read) => finishing(
                                    resolver,
                                    roots.global_root,
                                    relative_to(local_root, roots.global_root),
                                    merge_layers(
                                        merge_layers(global_read.0, local_read.0),
                                        command_layer,
                                    ),
                                    global_read.1 + local_read.1,
                                    outcome,
                                ),
                            };
                    },
                }
            },
        }
    }
}

/// Resolves the configuration for the given command line against the
/// disk: files are looked for and paths are made absolute on disk, and
/// `reader` gives the text of a configuration file, or nothing where it
/// cannot be read. What the result owes to the disk is not stated; what
/// it owes to the command line is.
pub fn create_configuration<R: Fn(&str) -> Option<String>>(
    arguments: CommandArguments,
    base_directory: &str,
    current_directory: &str,
    reader: &R,
) -> (result: Result<(Configuration, Vec<Diagnostic>), ConfigurationError>)
    requires
        accepts_every_path(reader),
    ensures
        arguments.local_configuration is None && layer_of_arguments(arguments) is Err
            ==> result_view(result) == Err::<
            (ConfigurationView, Seq<DiagnosticView>),
            ConfigurationErrorView,
        >(layer_of_arguments(arguments)->Err_0),
        result matches Ok(resolved) ==> resolved.0@.well_formed(),
        result matches Ok(resolved) ==> (arguments.strict ==> resolved.0.strict),
        result matches Ok(resolved) ==> resolved.0.project_root@ == current_directory@
            || crate::paths::ancestors(
            search_base(base_directory@, arguments.local_configuration.deep_view()),
        ).contains(resolved.0.project_root@),
{
    let predicate = |path: &str| -> (present: bool) { is_regular_file(path) };
    let resolver = |target: &str| -> (answer: Option<String>) { resolve_on_disk(target) };
    let result = create_configuration_with(
        arguments,
        base_directory,
        current_directory,
        &predicate,
        reader,
        &resolver,
    );
    proof {
        lemma_resolution_follows_command_line(
            &predicate,
            reader,
            &resolver,
            arguments,
            base_directory@,
            current_directory@,
            result_view(result),
        );
    }
    result
}

} // verus!
