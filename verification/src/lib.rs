//! Building and managing Blender extensions: configuration and manifest
//! models, version handling, and the decisions behind the commands.

pub mod text;
pub mod version;
pub mod toml_doc;
pub mod manifests;
pub mod paths;
pub mod ops;
pub mod core_utils;
pub mod cli;
