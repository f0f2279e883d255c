//! `bext link`: the source directory linked into the extensions directory of
//! each configured Blender version.

use vstd::prelude::*;

use crate::cli::configured_versions;
use crate::manifests::bext_config::{BextConfig, BextConfigError};
use crate::ops::blender_data::BlenderDataError;
use crate::ops::extension_validation::ExtensionValidationError;
use crate::ops::link_ops::LinkError;
use crate::paths::{path_file_name, path_file_name_spec, path_join, path_join_spec};
use crate::version::{versions_view, SemVersion};

verus! {

/// Why `bext link` stopped.
#[derive(Debug)]
pub enum LinkCommandError {
    /// The current directory could not be read.
    CurrentDirError(String),
    /// The configuration could not be found or read.
    BextConfigError(BextConfigError),
    /// The configuration names no Blender version.
    NoBlenderVersions,
    /// A version's extensions directory was not found.
    BlenderDataError(BlenderDataError),
    /// The source directory is not an extension.
    ExtensionValidationError(ExtensionValidationError),
    /// The source path has no final component to name the link after.
    InvalidSourcePath(String),
    /// Making a link failed.
    LinkError(LinkError),
}

impl LinkCommandError {
    /// The error's message.
    pub open spec fn message_spec(&self) -> Seq<char> {
        match self {
            LinkCommandError::CurrentDirError(_) => "Unable to determine current directory"@,
            LinkCommandError::BextConfigError(e) => "Bext configuration error: "@ + e.message_spec(),
            LinkCommandError::NoBlenderVersions => "No Blender versions specified in configuration"@,
            LinkCommandError::BlenderDataError(e) => "Blender data error: "@ + e.message_spec(),
            LinkCommandError::ExtensionValidationError(e) => "Extension validation error: "@
                + e.message_spec(),
            LinkCommandError::InvalidSourcePath(p) => "Source path is not valid: "@ + p@,
            LinkCommandError::LinkError(e) => "Link error: "@ + e.message_spec(),
        }
    }

    /// The error's message, as it is shown to the user.
    pub fn message(&self) -> (r: String)
        ensures
            r@ == self.message_spec(),
    {
        let mut s = String::new();
        match self {
            LinkCommandError::CurrentDirError(_) => {
                s.append("Unable to determine current directory");
            },
            LinkCommandError::BextConfigError(e) => {
                s.append("Bext configuration error: ");
                let m = e.message();
                s.append(m.as_str());
            },
            LinkCommandError::NoBlenderVersions => {
                s.append("No Blender versions specified in configuration");
            },
            LinkCommandError::BlenderDataError(e) => {
                s.append("Blender data error: ");
                let m = e.message();
                s.append(m.as_str());
            },
            LinkCommandError::ExtensionValidationError(e) => {
                s.append("Extension validation error: ");
                let m = e.message();
                s.append(m.as_str());
            },
            LinkCommandError::InvalidSourcePath(p) => {
                s.append("Source path is not valid: ");
                s.append(p.as_str());
            },
            LinkCommandError::LinkError(e) => {
                s.append("Link error: ");
                let m = e.message();
                s.append(m.as_str());
            },
        }
        s
    }
}

/// The links made, and the paths left alone because something was there.
#[derive(Debug)]
pub struct LinkResult {
    pub linked: Vec<String>,
    pub skipped: Vec<String>,
}

impl LinkResult {
    /// No link made, none skipped.
    pub fn new() -> (r: LinkResult)
        ensures
            r.linked@.len() == 0,
            r.skipped@.len() == 0,
    {
        LinkResult { linked: Vec::new(), skipped: Vec::new() }
    }
}

/// The Blender versions to link into: those of the configuration, or
/// `NoBlenderVersions` when it names none.
pub fn link_versions(config: &BextConfig) -> (r: Result<Vec<SemVersion>, LinkCommandError>)
    ensures
        match config.blender_versions {
            Some(vs) => if vs@.len() > 0 {
                r matches Ok(out) && versions_view(out@) == versions_view(vs@)
            } else {
                r matches Err(LinkCommandError::NoBlenderVersions)
            },
            None => r matches Err(LinkCommandError::NoBlenderVersions),
        },
{
    match configured_versions(config) {
        Some(vs) => Ok(vs),
        None => Err(LinkCommandError::NoBlenderVersions),
    }
}

/// The path of the link in an extensions directory: the directory joined
/// with the source directory's own name, `None` when the source path has no
/// final component.
pub open spec fn link_path_spec(ext_dir: Seq<char>, source_path: Seq<char>) -> Option<Seq<char>> {
    match path_file_name_spec(source_path) {
        Some(name) => Some(path_join_spec(ext_dir, name)),
        None => None,
    }
}

/// Where the link goes in an extensions directory: under the source
/// directory's own name, or `InvalidSourcePath` when the source path has no
/// final component.
pub fn link_target(ext_dir: &str, source_path: &str) -> (r: Result<String, LinkCommandError>)
    ensures
        match link_path_spec(ext_dir@, source_path@) {
            Some(path) => r matches Ok(t) && t@ == path,
            None => r matches Err(LinkCommandError::InvalidSourcePath(p)) && p@ == source_path@,
        },
{
    match path_file_name(source_path) {
        Some(name) => Ok(path_join(ext_dir, name.as_str())),
        None => Err(LinkCommandError::InvalidSourcePath(source_path.to_owned())),
    }
}

/// Records what making the link at `target` came to: a made link is listed
/// as linked, one refused because the path exists as skipped; any other
/// failure stops the command.
pub fn record_link_outcome(result: &mut LinkResult, target: String, outcome: Result<(), LinkError>) -> (r:
    Result<(), LinkCommandError>)
    ensures
        match outcome {
            Ok(()) => r is Ok && final(result).linked@ == old(result).linked@.push(target)
                && final(result).skipped@ == old(result).skipped@,
            Err(LinkError::PathExists(_)) => r is Ok && final(result).skipped@ == old(
                result,
            ).skipped@.push(target) && final(result).linked@ == old(result).linked@,
            Err(e) => r == Err::<(), LinkCommandError>(LinkCommandError::LinkError(e))
                && final(result).linked@ == old(result).linked@ && final(result).skipped@ == old(
                result,
            ).skipped@,
        },
{
    match outcome {
        Ok(()) => {
            result.linked.push(target);
            Ok(())
        },
        Err(LinkError::PathExists(p)) => {
            result.skipped.push(target);
            Ok(())
        },
        Err(e) => Err(LinkCommandError::LinkError(e)),
    }
}

} // verus!
