//! The configuration of the client: its layers, how they are decoded,
//! merged and expanded, and the resolved configuration they give.

pub mod arguments;
pub mod configuration;
pub mod create;
pub mod decode;
pub mod error;
pub mod expand;
pub mod extension;
pub mod fields;
pub mod ide_features;
pub mod platform_aware;
pub mod python_version;
pub mod resolved;
pub mod search_path;
pub mod shared_memory;
pub mod site_packages;
pub mod unwatched;
