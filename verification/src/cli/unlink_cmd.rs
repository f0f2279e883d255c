//! `bext unlink`: the links made by `bext link` removed again.

use vstd::prelude::*;

use crate::cli::configured_versions;
use crate::cli::link_cmd::link_path_spec;
use crate::manifests::bext_config::{BextConfig, BextConfigError};
use crate::ops::blender_data::BlenderDataError;
use crate::ops::link_ops::LinkError;
use crate::paths::{path_file_name, path_file_name_spec, path_join, path_join_spec};
use crate::version::{versions_view, SemVersion};

verus! {

/// Why `bext unlink` stopped.
#[derive(Debug)]
pub enum UnlinkCommandError {
    /// The current directory could not be read.
    CurrentDirError(String),
    /// The configuration could not be found or read.
    BextConfigError(BextConfigError),
    /// The configuration names no Blender version.
    NoBlenderVersions,
    /// A version's extensions directory was not found.
    BlenderDataError(BlenderDataError),
    /// The source path has no final component to name the link after.
    InvalidSourcePath(String),
    /// Removing a link failed.
    LinkError(LinkError),
}

impl UnlinkCommandError {
    /// The error's message.
    pub open spec fn message_spec(&self) -> Seq<char> {
        match self {
            UnlinkCommandError::CurrentDirError(_) => "Unable to determine current directory"@,
            UnlinkCommandError::BextConfigError(e) => "Bext configuration error: "@ + e.message_spec(),
            UnlinkCommandError::NoBlenderVersions => "No Blender versions specified in configuration"@,
            UnlinkCommandError::BlenderDataError(e) => "Blender data error: "@ + e.message_spec(),
            UnlinkCommandError::InvalidSourcePath(p) => "Invalid source path: "@ + p@,
            UnlinkCommandError::LinkError(e) => "Link error: "@ + e.message_spec(),
        }
    }

    /// The error's message, as it is shown to the user.
    pub fn message(&self) -> (r: String)
        ensures
            r@ == self.message_spec(),
    {
        let mut s = String::new();
        match self {
            UnlinkCommandError::CurrentDirError(_) => {
                s.append("Unable to determine current directory");
            },
            UnlinkCommandError::BextConfigError(e) => {
                s.append("Bext configuration error: ");
                let m = e.message();
                s.append(m.as_str());
            },
            UnlinkCommandError::NoBlenderVersions => {
                s.append("No Blender versions specified in configuration");
            },
            UnlinkCommandError::BlenderDataError(e) => {
                s.append("Blender data error: ");
                let m = e.message();
                s.append(m.as_str());
            },
            UnlinkCommandError::InvalidSourcePath(p) => {
                s.append("Invalid source path: ");
                s.append(p.as_str());
            },
            UnlinkCommandError::LinkError(e) => {
                s.append("Link error: ");
                let m = e.message();
                s.append(m.as_str());
            },
        }
        s
    }
}

/// The links removed, and the paths where there was nothing to remove.
#[derive(Debug)]
pub struct UnlinkResult {
    pub removed: Vec<String>,
    pub not_found: Vec<String>,
}

impl UnlinkResult {
    /// Nothing removed, nothing missing.
    pub fn new() -> (r: UnlinkResult)
        ensures
            r.removed@.len() == 0,
            r.not_found@.len() == 0,
    {
        UnlinkResult { removed: Vec::new(), not_found: Vec::new() }
    }
}

/// The Blender versions to unlink from: those of the configuration, or
/// `NoBlenderVersions` when it names none.
pub fn unlink_versions(config: &BextConfig) -> (r: Result<Vec<SemVersion>, UnlinkCommandError>)
    ensures
        match config.blender_versions {
            Some(vs) => if vs@.len() > 0 {
                r matches Ok(out) && versions_view(out@) == versions_view(vs@)
            } else {
                r matches Err(UnlinkCommandError::NoBlenderVersions)
            },
            None => r matches Err(UnlinkCommandError::NoBlenderVersions),
        },
{
    match configured_versions(config) {
        Some(vs) => Ok(vs),
        None => Err(UnlinkCommandError::NoBlenderVersions),
    }
}

/// The name the links carry: the source directory's own name, or
/// `InvalidSourcePath` when the source path has no final component.
pub fn link_name(source_path: &str) -> (r: Result<String, UnlinkCommandError>)
    ensures
        match path_file_name_spec(source_path@) {
            Some(name) => r matches Ok(n) && n@ == name,
            None => r matches Err(UnlinkCommandError::InvalidSourcePath(p)) && p@ == source_path@,
        },
{
    match path_file_name(source_path) {
        Some(name) => Ok(name),
        None => Err(UnlinkCommandError::InvalidSourcePath(source_path.to_owned())),
    }
}

/// The link's path in an extensions directory.
pub fn unlink_target(ext_dir: &str, name: &str) -> (r: String)
    ensures
        r@ == path_join_spec(ext_dir@, name@),
{
    path_join(ext_dir, name)
}

/// Unlinking looks for each link where linking made it: the link's name
/// (`link_name`) joined to an extensions directory (`unlink_target`) is the
/// path `bext link` links at (`link_target`).
pub proof fn lemma_unlink_finds_link(ext_dir: Seq<char>, source_path: Seq<char>)
    requires
        path_file_name_spec(source_path) is Some,
    ensures
        link_path_spec(ext_dir, source_path) == Some(
            path_join_spec(ext_dir, path_file_name_spec(source_path)->0),
        ),
{
}

/// Records what removing the link at `target` came to: a removed link is
/// listed as removed, a missing one as not found; any other failure stops
/// the command.
pub fn record_unlink_outcome(result: &mut UnlinkResult, target: String, outcome: Result<(), LinkError>) -> (r:
    Result<(), UnlinkCommandError>)
    ensures
        match outcome {
            Ok(()) => r is Ok && final(result).removed@ == old(result).removed@.push(target)
                && final(result).not_found@ == old(result).not_found@,
            Err(LinkError::PathNotFound(_)) => r is Ok && final(result).not_found@ == old(
                result,
            ).not_found@.push(target) && final(result).removed@ == old(result).removed@,
            Err(e) => r == Err::<(), UnlinkCommandError>(UnlinkCommandError::LinkError(e))
                && final(result).removed@ == old(result).removed@ && final(result).not_found@ == old(
                result,
            ).not_found@,
        },
{
    match outcome {
        Ok(()) => {
            result.removed.push(target);
            Ok(())
        },
        Err(LinkError::PathNotFound(p)) => {
            result.not_found.push(target);
            Ok(())
        },
        Err(e) => Err(UnlinkCommandError::LinkError(e)),
    }
}

} // verus!
