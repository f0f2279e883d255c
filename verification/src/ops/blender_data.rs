//! Blender's per-version data directories, where extensions are installed.

use vstd::prelude::*;

use crate::ops::extension_validation::answered;
use crate::paths::{path_join, path_join_spec};
use crate::text::decimal;
use crate::version::{major_minor_text, version_text, SemVersion};

verus! {

/// Why the extensions directory of a Blender version was not found.
#[derive(Debug)]
pub enum BlenderDataError {
    /// The user's data directory is unknown.
    DataDirNotFound,
    /// No `Blender Foundation/Blender` directory in it.
    BlenderDataDirNotFound(String),
    /// No directory for this Blender version.
    BlenderVersionNotFound(SemVersion),
    /// No `extensions/user_default` directory for this version.
    BlenderExtensionsDirNotFound(String),
}

/// `<data>/Blender Foundation/Blender`.
pub open spec fn blender_dir_spec(data_dir: Seq<char>) -> Seq<char> {
    path_join_spec(path_join_spec(data_dir, "Blender Foundation"@), "Blender"@)
}

/// `<data>/Blender Foundation/Blender/<major>.<minor>`.
pub open spec fn version_dir_spec(data_dir: Seq<char>, version: Seq<char>) -> Seq<char> {
    path_join_spec(blender_dir_spec(data_dir), version)
}

/// `<data>/Blender Foundation/Blender/<major>.<minor>/extensions/user_default`.
pub open spec fn extensions_dir_spec(data_dir: Seq<char>, version: Seq<char>) -> Seq<char> {
    path_join_spec(path_join_spec(version_dir_spec(data_dir, version), "extensions"@), "user_default"@)
}

/// The directory Blender of the given version installs the user's
/// extensions in, under the user's data directory (`None` when it is
/// unknown); `path_exists` tells whether a path exists. Each directory on
/// the way must exist.
pub fn get_blender_extension_dir<F: Fn(&str) -> bool>(
    version: &SemVersion,
    data_dir: Option<&str>,
    path_exists: F,
) -> (r: Result<String, BlenderDataError>)
    requires
        forall|p: &str| path_exists.requires((p,)),
    ensures
        match r {
            Err(BlenderDataError::DataDirNotFound) => data_dir is None,
            Err(BlenderDataError::BlenderDataDirNotFound(d)) => data_dir matches Some(data) && d@
                == blender_dir_spec(data@) && answered(path_exists, d@, false),
            Err(BlenderDataError::BlenderVersionNotFound(v)) => data_dir matches Some(data) && v@
                == version@ && answered(path_exists, blender_dir_spec(data@), true) && answered(
                path_exists,
                version_dir_spec(data@, major_minor_text(version@)),
                false,
            ),
            Err(BlenderDataError::BlenderExtensionsDirNotFound(p)) => data_dir matches Some(data)
                && p@ == extensions_dir_spec(data@, major_minor_text(version@)) && answered(
                path_exists,
                blender_dir_spec(data@),
                true,
            ) && answered(path_exists, version_dir_spec(data@, major_minor_text(version@)), true)
                && answered(path_exists, p@, false),
            Ok(p) => data_dir matches Some(data) && p@ == extensions_dir_spec(
                data@,
                major_minor_text(version@),
            ) && answered(path_exists, blender_dir_spec(data@), true) && answered(
                path_exists,
                version_dir_spec(data@, major_minor_text(version@)),
                true,
            ) && answered(path_exists, p@, true),
        },
        r matches Ok(p) ==> data_dir matches Some(data) && p@ == path_join_spec(
            path_join_spec(
                path_join_spec(
                    path_join_spec(path_join_spec(data@, "Blender Foundation"@), "Blender"@),
                    decimal(version.major as nat) + seq!['.'] + decimal(version.minor as nat),
                ),
                "extensions"@,
            ),
            "user_default"@,
        ),
{
    let data = match data_dir {
        Some(d) => d,
        None => {
            return Err(BlenderDataError::DataDirNotFound);
        },
    };
    let foundation = path_join(data, "Blender Foundation");
    let blender_dir = path_join(foundation.as_str(), "Blender");
    if !path_exists(blender_dir.as_str()) {
        return Err(BlenderDataError::BlenderDataDirNotFound(blender_dir));
    }
    let version_string = version.major_minor();
    let version_dir = path_join(blender_dir.as_str(), version_string.as_str());
    if !path_exists(version_dir.as_str()) {
        return Err(BlenderDataError::BlenderVersionNotFound(version.duplicate()));
    }
    let extensions = path_join(version_dir.as_str(), "extensions");
    let path = path_join(extensions.as_str(), "user_default");
    if !path_exists(path.as_str()) {
        return Err(BlenderDataError::BlenderExtensionsDirNotFound(path));
    }
    Ok(path)
}

impl BlenderDataError {
    /// The error's message.
    pub open spec fn message_spec(&self) -> Seq<char> {
        match self {
            BlenderDataError::DataDirNotFound => "Unable to determine data directory"@,
            BlenderDataError::BlenderDataDirNotFound(d) => "Blender data directory not found: "@ + d@,
            BlenderDataError::BlenderVersionNotFound(v) => "Blender data directory not found for version "@
                + version_text(v@),
            BlenderDataError::BlenderExtensionsDirNotFound(d) => "Blender extensions directory not found: "@
                + d@,
        }
    }

    /// The error's message, as it is shown to the user.
    pub fn message(&self) -> (r: String)
        ensures
            r@ == self.message_spec(),
    {
        let mut s = String::new();
        match self {
            BlenderDataError::DataDirNotFound => {
                s.append("Unable to determine data directory");
            },
            BlenderDataError::BlenderDataDirNotFound(d) => {
                s.append("Blender data directory not found: ");
                s.append(d.as_str());
            },
            BlenderDataError::BlenderVersionNotFound(v) => {
                s.append("Blender data directory not found for version ");
                let text = v.to_string();
                s.append(text.as_str());
            },
            BlenderDataError::BlenderExtensionsDirNotFound(d) => {
                s.append("Blender extensions directory not found: ");
                s.append(d.as_str());
            },
        }
        s
    }
}

} // verus!
