//! Resolution of the effective configuration of a type-checker client:
//! discovery of configuration files, decoding of partial configurations,
//! layering, and normalisation of path-valued settings.

pub mod text;
pub mod paths;
pub mod json;
pub mod filesystem;
pub mod find_directories;
pub mod configuration;
pub mod command_arguments;
pub mod check;
