//! The operations behind the commands: validating the extension, finding
//! files, glob patterns, archives, Blender's data directories and links.

pub mod archive_ops;
pub mod blender_data;
pub mod extension_validation;
pub mod find_files;
pub mod glob_ops;
pub mod link;
pub mod link_ops;
