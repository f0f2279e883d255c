//! `bext build`: the extension packed into a ZIP archive in the output
//! directory, named after the configuration's package-name template.

use vstd::prelude::*;

use crate::cli::source_path;
use crate::manifests::bext_config::{package_name_spec, BextConfig, BextConfigError};
use crate::manifests::blender_manifest::{BlenderManifest, BlenderManifestError};
use crate::ops::archive_ops::ArchiveOpsError;
use crate::ops::extension_validation::{answered, manifest_path_spec, ExtensionValidationError};
use crate::ops::glob_ops::{compile_string_globs, glob_valid, patterns_view, GlobDeleteError, GlobPattern};
use crate::paths::{path_join, path_join_spec};
use crate::toml_doc::opt_view;
use crate::version::version_text;

verus! {

/// Why `bext build` stopped.
#[derive(Debug)]
pub enum BuildCommandError {
    /// Writing the archive failed.
    ArchiveError(ArchiveOpsError),
    /// Compiling the exclude patterns failed.
    GlobError(GlobDeleteError),
    /// The current directory could not be read, or the output directory not
    /// made.
    CurrentDirError(String),
    /// The configuration could not be found or read.
    BextConfigError(BextConfigError),
    /// The configuration names no output directory.
    NoOutputDirectory,
    /// The extension's manifest could not be read.
    BlenderManifestError(BlenderManifestError),
    /// The source directory does not exist or is not a directory.
    InvalidSourcePath(String),
    /// The output path exists and is not a directory.
    InvalidOutputPath(String),
    /// The source directory is not an extension.
    ExtensionValidationError(ExtensionValidationError),
}

impl BuildCommandError {
    /// The error's message.
    pub open spec fn message_spec(&self) -> Seq<char> {
        match self {
            BuildCommandError::ArchiveError(e) => "Archive error: "@ + e.message_spec(),
            BuildCommandError::GlobError(e) => "Glob error: "@ + e.message_spec(),
            BuildCommandError::CurrentDirError(_) => "Unable to determine current directory"@,
            BuildCommandError::BextConfigError(e) => "Bext configuration error: "@ + e.message_spec(),
            BuildCommandError::NoOutputDirectory => "No output directory specified in configuration"@,
            BuildCommandError::BlenderManifestError(e) => "Blender manifest error: "@ + e.message_spec(),
            BuildCommandError::InvalidSourcePath(p) => "Source path does not exist or is not a directory: "@
                + p@,
            BuildCommandError::InvalidOutputPath(p) => "Output path exists but is not a directory: "@ + p@,
            BuildCommandError::ExtensionValidationError(e) => "Extension validation error: "@
                + e.message_spec(),
        }
    }

    /// The error's message, as it is shown to the user.
    pub fn message(&self) -> (r: String)
        ensures
            r@ == self.message_spec(),
    {
        let mut s = String::new();
        match self {
            BuildCommandError::ArchiveError(e) => {
                s.append("Archive error: ");
                let m = e.message();
                s.append(m.as_str());
            },
            BuildCommandError::GlobError(e) => {
                s.append("Glob error: ");
                let m = e.message();
                s.append(m.as_str());
            },
            BuildCommandError::CurrentDirError(_) => {
                s.append("Unable to determine current directory");
            },
            BuildCommandError::BextConfigError(e) => {
                s.append("Bext configuration error: ");
                let m = e.message();
                s.append(m.as_str());
            },
            BuildCommandError::NoOutputDirectory => {
                s.append("No output directory specified in configuration");
            },
            BuildCommandError::BlenderManifestError(e) => {
                s.append("Blender manifest error: ");
                let m = e.message();
                s.append(m.as_str());
            },
            BuildCommandError::InvalidSourcePath(p) => {
                s.append("Source path does not exist or is not a directory: ");
                s.append(p.as_str());
            },
            BuildCommandError::InvalidOutputPath(p) => {
                s.append("Output path exists but is not a directory: ");
                s.append(p.as_str());
            },
            BuildCommandError::ExtensionValidationError(e) => {
                s.append("Extension validation error: ");
                let m = e.message();
                s.append(m.as_str());
            },
        }
        s
    }
}

/// The source directory to pack: the configured one, taken from the current
/// directory, which must exist and be a directory.
pub fn build_source_dir<F: Fn(&str) -> bool, G: Fn(&str) -> bool>(
    current_dir: &str,
    config: &BextConfig,
    path_exists: F,
    path_is_dir: G,
) -> (r: Result<String, BuildCommandError>)
    requires
        forall|p: &str| path_exists.requires((p,)),
        forall|p: &str| path_is_dir.requires((p,)),
    ensures
        ({
            let src = path_join_spec(current_dir@, config.source_dir@);
            match r {
                Ok(d) => d@ == src && answered(path_exists, src, true) && answered(path_is_dir, src, true),
                Err(BuildCommandError::InvalidSourcePath(d)) => d@ == src && (answered(
                    path_exists,
                    src,
                    false,
                ) || answered(path_is_dir, src, false)),
                Err(_) => false,
            }
        }),
{
    let src = source_path(current_dir, config);
    if !path_exists(src.as_str()) || !path_is_dir(src.as_str()) {
        return Err(BuildCommandError::InvalidSourcePath(src));
    }
    Ok(src)
}

/// The path of the extension's manifest in the source directory.
pub fn manifest_file(src_dir: &str) -> (r: String)
    ensures
        r@ == manifest_path_spec(src_dir@),
{
    path_join(src_dir, "blender_manifest.toml")
}

/// Where the output directory is, and whether it has to be made.
#[derive(Debug)]
pub struct OutputDir {
    pub path: String,
    pub create: bool,
}

/// The output directory, taken from the current directory: `NoOutputDirectory`
/// when the configuration names none (or an empty one); to be made when
/// nothing is at its path; `InvalidOutputPath` when something other than a
/// directory is.
pub fn build_output_dir<F: Fn(&str) -> bool, G: Fn(&str) -> bool>(
    current_dir: &str,
    config: &BextConfig,
    path_exists: F,
    path_is_dir: G,
) -> (r: Result<OutputDir, BuildCommandError>)
    requires
        forall|p: &str| path_exists.requires((p,)),
        forall|p: &str| path_is_dir.requires((p,)),
    ensures
        match opt_view(config.output_dir) {
            Some(dir) => if dir.len() > 0 {
                let full = path_join_spec(current_dir@, dir);
                match r {
                    Ok(o) => o.path@ == full && if o.create {
                        answered(path_exists, full, false)
                    } else {
                        answered(path_exists, full, true) && answered(path_is_dir, full, true)
                    },
                    Err(BuildCommandError::InvalidOutputPath(p)) => p@ == full && answered(
                        path_exists,
                        full,
                        true,
                    ) && answered(path_is_dir, full, false),
                    Err(_) => false,
                }
            } else {
                r matches Err(BuildCommandError::NoOutputDirectory)
            },
            None => r matches Err(BuildCommandError::NoOutputDirectory),
        },
{
    match &config.output_dir {
        Some(dir) => {
            if dir.as_str().unicode_len() == 0 {
                return Err(BuildCommandError::NoOutputDirectory);
            }
            let full = path_join(current_dir, dir.as_str());
            if !path_exists(full.as_str()) {
                Ok(OutputDir { path: full, create: true })
            } else if !path_is_dir(full.as_str()) {
                Err(BuildCommandError::InvalidOutputPath(full))
            } else {
                Ok(OutputDir { path: full, create: false })
            }
        },
        None => Err(BuildCommandError::NoOutputDirectory),
    }
}

/// The archive's path: the package name with `.zip`, in the output
/// directory.
pub fn archive_path(out_dir: &str, config: &BextConfig, manifest: &BlenderManifest) -> (r: String)
    ensures
        r@ == path_join_spec(
            out_dir@,
            package_name_spec(
                opt_view(config.package_name),
                manifest.id@,
                manifest.name@,
                version_text(manifest.version@),
                manifest.maintainer@,
            ) + ".zip"@,
        ),
{
    let mut name = config.resolve_package_name(manifest);
    name.append(".zip");
    path_join(out_dir, name.as_str())
}

/// The patterns the archive leaves out: those of the configuration that
/// compile; none when it names none.
pub fn build_exclude_patterns(config: &BextConfig) -> (r: Result<Vec<GlobPattern>, BuildCommandError>)
    ensures
        match config.exclude_globs {
            Some(gs) => r matches Ok(ps) && patterns_view(ps@) == gs.deep_view().filter(
                |g: Seq<char>| glob_valid(g),
            ),
            None => r matches Ok(ps) && ps@.len() == 0,
        },
{
    match &config.exclude_globs {
        Some(gs) => {
            if gs.len() > 0 {
                match compile_string_globs(gs) {
                    Ok(ps) => Ok(ps),
                    Err(e) => Err(BuildCommandError::GlobError(e)),
                }
            } else {
                proof {
                    assert(gs.deep_view() =~= Seq::<Seq<char>>::empty());
                    assert(gs.deep_view().filter(|g: Seq<char>| glob_valid(g)) =~= Seq::<Seq<char>>::empty());
                }
                Ok(Vec::new())
            }
        },
        None => Ok(Vec::new()),
    }
}

} // verus!
