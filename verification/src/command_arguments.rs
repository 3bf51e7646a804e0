//! The arguments of the command line, as plain values.

use vstd::prelude::*;

verus! {

/// The arguments that every command takes.
#[derive(Debug)]
pub struct CommandArguments {
    pub local_configuration: Option<String>,
    pub version: bool,
    pub debug: bool,
    pub sequential: bool,
    pub strict: bool,
    pub show_error_traces: bool,
    pub output: String,
    pub enable_profiling: bool,
    pub enable_memory_profiling: bool,
    pub noninteractive: bool,
    pub logging_sections: Option<String>,
    pub log_identifier: Option<String>,
    pub logger: Option<String>,
    pub targets: Vec<String>,
    pub source_directories: Vec<String>,
    pub do_not_ignore_errors_in: Vec<String>,
    pub buck_mode: Option<String>,
    pub no_saved_state: bool,
    pub search_path: Vec<String>,
    pub binary: Option<String>,
    pub exclude: Vec<String>,
    pub typeshed: Option<String>,
    pub save_initial_state_to: Option<String>,
    pub load_initial_state_from: Option<String>,
    pub changed_files_path: Option<String>,
    pub saved_state_project: Option<String>,
    pub dot_pyre_directory: Option<String>,
    pub isolation_prefix: Option<String>,
    pub python_version: Option<String>,
    pub shared_memory_heap_size: Option<i32>,
    pub shared_memory_dependency_table_power: Option<i32>,
    pub shared_memory_hash_table_power: Option<i32>,
    pub number_of_workers: Option<i32>,
    pub enable_hover: Option<bool>,
    pub enable_go_to_definition: Option<bool>,
    pub enable_find_symbols: Option<bool>,
    pub enable_find_all_references: Option<bool>,
    pub use_buck2: Option<bool>,
    pub command: Commands,
}

/// The arguments of the analysis command: it takes none of its own.
#[derive(Clone, Copy, Debug, PartialEq, Eq)]
pub struct AnalysisArgs;

/// The arguments of the check command.
#[derive(Debug, PartialEq, Eq)]
pub struct CheckArgs {
    pub debug: bool,
    pub enable_memory_profiling: bool,
    pub enable_profiling: bool,
    pub log_identifier: Option<String>,
    pub logging_sections: Option<String>,
    pub noninteractive: bool,
    pub output: Option<String>,
    pub sequential: bool,
    pub show_error_traces: bool,
}

/// The commands of the client.
#[derive(Debug, PartialEq, Eq)]
pub enum Commands {
    Analysis(AnalysisArgs),
    Check(CheckArgs),
}

impl CheckArgs {
    /// The arguments of a check with nothing switched on.
    pub fn new() -> (arguments: CheckArgs)
        ensures
            !arguments.debug,
            !arguments.enable_memory_profiling,
            !arguments.enable_profiling,
            arguments.log_identifier is None,
            arguments.logging_sections is None,
            !arguments.noninteractive,
            arguments.output is None,
            !arguments.sequential,
            !arguments.show_error_traces,
    {
        CheckArgs {
            debug: false,
            enable_memory_profiling: false,
            enable_profiling: false,
            log_identifier: None,
            logging_sections: None,
            noninteractive: false,
            output: None,
            sequential: false,
            show_error_traces: false,
        }
    }
}

impl CommandArguments {
    /// The arguments of `command` with nothing else given: every switch
    /// off, every list empty, every option absent, and the output as text.
    pub fn new(command: Commands) -> (arguments: CommandArguments)
        ensures
            arguments.command == command,
            arguments.local_configuration is None,
            !arguments.version,
            !arguments.debug,
            !arguments.sequential,
            !arguments.strict,
            !arguments.show_error_traces,
            arguments.output@ == "text"@,
            !arguments.enable_profiling,
            !arguments.enable_memory_profiling,
            !arguments.noninteractive,
            arguments.logging_sections is None,
            arguments.log_identifier is None,
            arguments.logger is None,
            arguments.targets@.len() == 0,
            arguments.source_directories@.len() == 0,
            arguments.do_not_ignore_errors_in@.len() == 0,
            arguments.buck_mode is None,
            !arguments.no_saved_state,
            arguments.search_path@.len() == 0,
            arguments.binary is None,
            arguments.exclude@.len() == 0,
            arguments.typeshed is None,
            arguments.save_initial_state_to is None,
            arguments.load_initial_state_from is None,
            arguments.changed_files_path is None,
            arguments.saved_state_project is None,
            arguments.dot_pyre_directory is None,
            arguments.isolation_prefix is None,
            arguments.python_version is None,
            arguments.shared_memory_heap_size is None,
            arguments.shared_memory_dependency_table_power is None,
            arguments.shared_memory_hash_table_power is None,
            arguments.number_of_workers is None,
            arguments.enable_hover is None,
            arguments.enable_go_to_definition is None,
            arguments.enable_find_symbols is None,
            arguments.enable_find_all_references is None,
            arguments.use_buck2 is None,
    {
        CommandArguments {
            local_configuration: None,
            version: false,
            debug: false,
            sequential: false,
            strict: false,
            show_error_traces: false,
            output: "text".to_owned(),
            enable_profiling: false,
            enable_memory_profiling: false,
            noninteractive: false,
            logging_sections: None,
            log_identifier: None,
            logger: None,
            targets: Vec::new(),
            source_directories: Vec::new(),
            do_not_ignore_errors_in: Vec::new(),
            buck_mode: None,
            no_saved_state: false,
            search_path: Vec::new(),
            binary: None,
            exclude: Vec::new(),
            typeshed: None,
            save_initial_state_to: None,
            load_initial_state_from: None,
            changed_files_path: None,
            saved_state_project: None,
            dot_pyre_directory: None,
            isolation_prefix: None,
            python_version: None,
            shared_memory_heap_size: None,
            shared_memory_dependency_table_power: None,
            shared_memory_hash_table_power: None,
            number_of_workers: None,
            enable_hover: None,
            enable_go_to_definition: None,
            enable_find_symbols: None,
            enable_find_all_references: None,
            use_buck2: None,
            command,
        }
    }
}

} // verus!
