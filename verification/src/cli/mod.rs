//! The commands of the `bext` tool: their arguments, errors and results, and
//! the decisions each command takes between its reads and writes.

use vstd::prelude::*;

use crate::manifests::bext_config::BextConfig;
use crate::paths::{path_join, path_join_spec};
use crate::version::{duplicate_all, versions_view, SemVersion};

pub mod build_cmd;
pub mod clean_cmd;
pub mod init_cmd;
pub mod link_cmd;
pub mod unlink_cmd;

verus! {

/// The subcommands.
#[derive(Debug, Clone)]
pub enum Commands {
    /// Link the source directory into each Blender version's extensions
    /// directory; `replace` replaces what is already there.
    Link { replace: bool },
    /// Remove those links.
    Unlink,
    /// Delete the files that the exclude patterns match.
    Clean,
    /// Pack the extension into a ZIP archive.
    Build,
    /// Write a `bext.toml` for the extension found below the current
    /// directory.
    Init,
}

/// The command line.
#[derive(Debug, Clone)]
pub struct Args {
    pub command: Commands,
}

/// The Blender versions a configuration targets, when it names at least one.
pub fn configured_versions(config: &BextConfig) -> (r: Option<Vec<SemVersion>>)
    ensures
        match config.blender_versions {
            Some(vs) => if vs@.len() > 0 {
                r matches Some(out) && versions_view(out@) == versions_view(vs@)
            } else {
                r is None
            },
            None => r is None,
        },
{
    match &config.blender_versions {
        Some(vs) => {
            if vs.len() > 0 {
                Some(duplicate_all(vs))
            } else {
                None
            }
        },
        None => None,
    }
}

/// The source directory of a configuration, taken from the directory the
/// command runs in.
pub fn source_path(current_dir: &str, config: &BextConfig) -> (r: String)
    ensures
        r@ == path_join_spec(current_dir@, config.source_dir@),
{
    path_join(current_dir, config.source_dir.as_str())
}

} // verus!
