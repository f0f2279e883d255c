//! `bext clean`: the files and directories that the exclude patterns match
//! deleted from the source tree.

use vstd::prelude::*;

use crate::manifests::bext_config::{BextConfig, BextConfigError};
use crate::ops::extension_validation::ExtensionValidationError;
use crate::ops::glob_ops::{compile_string_globs, glob_valid, patterns_view, GlobDeleteError, GlobPattern};
use crate::text::{decimal, decimal_string};

verus! {

/// Why `bext clean` stopped.
#[derive(Debug)]
pub enum CleanCommandError {
    /// The current directory could not be read.
    CurrentDirError(String),
    /// The configuration could not be found or read.
    BextConfigError(BextConfigError),
    /// The configuration names no exclude pattern.
    NoExcludePatterns,
    /// The source directory is not an extension.
    ExtensionValidationError(ExtensionValidationError),
    /// Compiling the patterns or deleting failed.
    GlobDeleteError(GlobDeleteError),
}

impl CleanCommandError {
    /// The error's message.
    pub open spec fn message_spec(&self) -> Seq<char> {
        match self {
            CleanCommandError::CurrentDirError(_) => "Unable to determine current directory"@,
            CleanCommandError::BextConfigError(e) => "Bext configuration error: "@ + e.message_spec(),
            CleanCommandError::NoExcludePatterns => "No exclude patterns specified in configuration"@,
            CleanCommandError::ExtensionValidationError(e) => "Extension validation error: "@
                + e.message_spec(),
            CleanCommandError::GlobDeleteError(e) => "Glob delete error: "@ + e.message_spec(),
        }
    }

    /// The error's message, as it is shown to the user.
    pub fn message(&self) -> (r: String)
        ensures
            r@ == self.message_spec(),
    {
        let mut s = String::new();
        match self {
            CleanCommandError::CurrentDirError(_) => {
                s.append("Unable to determine current directory");
            },
            CleanCommandError::BextConfigError(e) => {
                s.append("Bext configuration error: ");
                let m = e.message();
                s.append(m.as_str());
            },
            CleanCommandError::NoExcludePatterns => {
                s.append("No exclude patterns specified in configuration");
            },
            CleanCommandError::ExtensionValidationError(e) => {
                s.append("Extension validation error: ");
                let m = e.message();
                s.append(m.as_str());
            },
            CleanCommandError::GlobDeleteError(e) => {
                s.append("Glob delete error: ");
                let m = e.message();
                s.append(m.as_str());
            },
        }
        s
    }
}

/// The patterns `bext clean` deletes by: those of the configuration that
/// compile, or `NoExcludePatterns` when it names none.
pub fn clean_patterns(config: &BextConfig) -> (r: Result<Vec<GlobPattern>, CleanCommandError>)
    ensures
        match config.exclude_globs {
            Some(gs) => if gs@.len() > 0 {
                r matches Ok(ps) && patterns_view(ps@) == gs.deep_view().filter(
                    |g: Seq<char>| glob_valid(g),
                )
            } else {
                r matches Err(CleanCommandError::NoExcludePatterns)
            },
            None => r matches Err(CleanCommandError::NoExcludePatterns),
        },
{
    match &config.exclude_globs {
        Some(gs) => {
            if gs.len() > 0 {
                match compile_string_globs(gs) {
                    Ok(ps) => Ok(ps),
                    Err(e) => Err(CleanCommandError::GlobDeleteError(e)),
                }
            } else {
                Err(CleanCommandError::NoExcludePatterns)
            }
        },
        None => Err(CleanCommandError::NoExcludePatterns),
    }
}

/// The line `bext clean` ends with.
pub fn clean_report(deleted: u64) -> (r: String)
    ensures
        r@ == "Deleted "@ + decimal(deleted as nat) + " items based on exclude patterns."@,
{
    let mut s = String::new();
    s.append("Deleted ");
    let n = decimal_string(deleted);
    s.append(n.as_str());
    s.append(" items based on exclude patterns.");
    s
}

} // verus!
