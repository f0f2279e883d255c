//! Checking that the source directory holds an extension.

use vstd::prelude::*;

use crate::paths::{path_join, path_join_spec};

verus! {

/// Why a source directory is not an extension.
#[derive(Debug)]
pub enum ExtensionValidationError {
    /// The directory does not exist.
    DirectoryNotFound(String),
    /// The directory holds no `blender_manifest.toml`.
    NoManifestFile(String),
}

/// Whether the query answered `answer` for a path with the given text.
pub open spec fn answered<F: Fn(&str) -> bool>(query: F, path: Seq<char>, answer: bool) -> bool {
    exists|p: &str| p@ == path && #[trigger] query.ensures((p,), answer)
}

/// The manifest's path in a source directory.
pub open spec fn manifest_path_spec(source_dir: Seq<char>) -> Seq<char> {
    path_join_spec(source_dir, "blender_manifest.toml"@)
}

/// Checks that `source_dir` exists and holds `blender_manifest.toml`, asking
/// `path_exists` whether a path exists.
pub fn validate_extension<F: Fn(&str) -> bool>(source_dir: &str, path_exists: F) -> (r: Result<
    (),
    ExtensionValidationError,
>)
    requires
        forall|p: &str| path_exists.requires((p,)),
    ensures
        match r {
            Ok(()) => answered(path_exists, source_dir@, true) && answered(
                path_exists,
                manifest_path_spec(source_dir@),
                true,
            ),
            Err(ExtensionValidationError::DirectoryNotFound(d)) => d@ == source_dir@ && answered(
                path_exists,
                source_dir@,
                false,
            ),
            Err(ExtensionValidationError::NoManifestFile(d)) => d@ == source_dir@ && answered(
                path_exists,
                source_dir@,
                true,
            ) && answered(path_exists, manifest_path_spec(source_dir@), false),
        },
{
    if !path_exists(source_dir) {
        return Err(ExtensionValidationError::DirectoryNotFound(source_dir.to_owned()));
    }
    let manifest_path = path_join(source_dir, "blender_manifest.toml");
    if !path_exists(manifest_path.as_str()) {
        return Err(ExtensionValidationError::NoManifestFile(source_dir.to_owned()));
    }
    Ok(())
}

impl ExtensionValidationError {
    /// The error's message.
    pub open spec fn message_spec(&self) -> Seq<char> {
        match self {
            ExtensionValidationError::DirectoryNotFound(d) => "Directory does not exist: "@ + d@,
            ExtensionValidationError::NoManifestFile(d) => "No blender_manifest.toml file found in source directory "@
                + d@,
        }
    }

    /// The error's message, as it is shown to the user.
    pub fn message(&self) -> (r: String)
        ensures
            r@ == self.message_spec(),
    {
        let mut s = String::new();
        match self {
            ExtensionValidationError::DirectoryNotFound(d) => {
                s.append("Directory does not exist: ");
                s.append(d.as_str());
            },
            ExtensionValidationError::NoManifestFile(d) => {
                s.append("No blender_manifest.toml file found in source directory ");
                s.append(d.as_str());
            },
        }
        s
    }
}

} // verus!
