//! `bext init`: a `bext.toml` written for the extension found below the
//! current directory.

use vstd::prelude::*;

use crate::manifests::bext_config::{BextConfig, BextConfigError, ConfigModel};
use crate::manifests::blender_manifest::BlenderManifestError;
use crate::ops::extension_validation::answered;
use crate::toml_doc::toml_prints_back;
use crate::version::{versions_view, VersionModel};
use crate::paths::{
    path_join, path_join_spec, path_parent, path_parent_spec, path_strip_prefix, path_strip_prefix_spec,
};

verus! {

/// Why `bext init` stopped.
#[derive(Debug)]
pub enum InitCommandError {
    /// The current directory could not be read.
    CurrentDirError(String),
    /// A `bext.toml` is already there.
    ConfigAlreadyExists(String),
    /// No `blender_manifest.toml` in the current directory or below it.
    ManifestNotFound,
    /// The extension's manifest could not be read.
    BlenderManifestError(BlenderManifestError),
    /// The configuration could not be written.
    BextConfigError(BextConfigError),
}

impl InitCommandError {
    /// The error's message.
    pub open spec fn message_spec(&self) -> Seq<char> {
        match self {
            InitCommandError::CurrentDirError(_) => "Unable to determine current directory"@,
            InitCommandError::ConfigAlreadyExists(p) => "Bext configuration already exists at "@ + p@,
            InitCommandError::ManifestNotFound => "Extension manifest not found in current directory or any subdirectories"@,
            InitCommandError::BlenderManifestError(e) => "Blender manifest error: "@ + e.message_spec(),
            InitCommandError::BextConfigError(e) => "Bext configuration error: "@ + e.message_spec(),
        }
    }

    /// The error's message, as it is shown to the user.
    pub fn message(&self) -> (r: String)
        ensures
            r@ == self.message_spec(),
    {
        let mut s = String::new();
        match self {
            InitCommandError::CurrentDirError(_) => {
                s.append("Unable to determine current directory");
            },
            InitCommandError::ConfigAlreadyExists(p) => {
                s.append("Bext configuration already exists at ");
                s.append(p.as_str());
            },
            InitCommandError::ManifestNotFound => {
                s.append("Extension manifest not found in current directory or any subdirectories");
            },
            InitCommandError::BlenderManifestError(e) => {
                s.append("Blender manifest error: ");
                let m = e.message();
                s.append(m.as_str());
            },
            InitCommandError::BextConfigError(e) => {
                s.append("Bext configuration error: ");
                let m = e.message();
                s.append(m.as_str());
            },
        }
        s
    }
}

/// The path `bext init` writes the configuration to.
pub fn init_config_path(current_dir: &str) -> (r: String)
    ensures
        r@ == path_join_spec(current_dir@, "bext.toml"@),
{
    path_join(current_dir, "bext.toml")
}

/// Refuses to write over a configuration: `ConfigAlreadyExists` with the
/// path when `path_exists` answers that something is at `config_path`.
pub fn check_no_config<F: Fn(&str) -> bool>(config_path: &str, path_exists: F) -> (r: Result<
    (),
    InitCommandError,
>)
    requires
        forall|p: &str| path_exists.requires((p,)),
    ensures
        match r {
            Ok(()) => answered(path_exists, config_path@, false),
            Err(InitCommandError::ConfigAlreadyExists(p)) => p@ == config_path@ && answered(
                path_exists,
                config_path@,
                true,
            ),
            Err(_) => false,
        },
{
    if path_exists(config_path) {
        Err(InitCommandError::ConfigAlreadyExists(config_path.to_owned()))
    } else {
        Ok(())
    }
}

/// The source directory to configure, relative to the current directory:
/// the directory holding the manifest found, or `.` where that directory is
/// not below the current one.
pub open spec fn init_source_dir_spec(manifest_path: Seq<char>, current_dir: Seq<char>) -> Seq<char> {
    match path_parent_spec(manifest_path) {
        Some(parent) => match path_strip_prefix_spec(parent, current_dir) {
            Some(rel) => rel,
            None => "."@,
        },
        None => "."@,
    }
}

/// The source directory to configure for the manifest found.
pub fn init_source_dir(manifest_path: &str, current_dir: &str) -> (r: String)
    ensures
        r@ == init_source_dir_spec(manifest_path@, current_dir@),
        path_parent_spec(manifest_path@) matches Some(parent) ==> match path_strip_prefix_spec(
            parent,
            current_dir@,
        ) {
            Some(rel) => r@ == rel,
            None => r@ == "."@,
        },
        path_parent_spec(manifest_path@) is None ==> r@ == "."@,
{
    match path_parent(manifest_path) {
        Some(parent) => match path_strip_prefix(parent.as_str(), current_dir) {
            Some(rel) => rel,
            None => ".".to_owned(),
        },
        None => ".".to_owned(),
    }
}

/// The source directory `bext init` writes is the manifest's directory with
/// the current directory stripped from its front, the whole remaining path
/// and not a part of it; `.` only when the manifest has no parent or that
/// parent does not lie below the current directory.
pub proof fn lemma_init_source_dir_is_relative_parent(manifest_path: Seq<char>, current_dir: Seq<char>)
    ensures
        path_parent_spec(manifest_path) matches Some(parent) ==> match path_strip_prefix_spec(
            parent,
            current_dir,
        ) {
            Some(rel) => init_source_dir_spec(manifest_path, current_dir) == rel,
            None => init_source_dir_spec(manifest_path, current_dir) == "."@,
        },
        path_parent_spec(manifest_path) is None ==> init_source_dir_spec(manifest_path, current_dir) == "."@,
{
}

/// The configuration `bext init` writes: the source directory, the exclude
/// patterns `**/__pycache__/**` and `**/*.pyc`, an empty list of Blender
/// versions, the output directory `dist` and the package name
/// `{name} ({version})`, over an empty document.
pub fn init_config(source_dir: String) -> (r: BextConfig)
    ensures
        r@ == (ConfigModel {
            exclude_globs: Some(seq!["**/__pycache__/**"@, "**/*.pyc"@]),
            blender_versions: Some(Seq::empty()),
            source_dir: source_dir@,
            output_dir: Some("dist"@),
            package_name: Some("{name} ({version})"@),
        }),
        r.entries().dom() == Set::<Seq<char>>::empty(),
        toml_prints_back(r.doc),
{
    let mut config = BextConfig::new(source_dir);
    let mut globs: Vec<String> = Vec::new();
    globs.push("**/__pycache__/**".to_owned());
    globs.push("**/*.pyc".to_owned());
    config.exclude_globs = Some(globs);
    config.blender_versions = Some(Vec::new());
    config.output_dir = Some("dist".to_owned());
    config.package_name = Some("{name} ({version})".to_owned());
    proof {
        assert(config.exclude_globs->0.deep_view() =~= seq!["**/__pycache__/**"@, "**/*.pyc"@]);
        assert(versions_view(config.blender_versions->0@) =~= Seq::<VersionModel>::empty());
    }
    config
}

} // verus!
