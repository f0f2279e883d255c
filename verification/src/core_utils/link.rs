//! Making a link, with the errors of this simpler variant.

use vstd::prelude::*;

use crate::ops::link::{LinkCommand, Platform};

verus! {

/// Errors in making a link.
#[derive(Debug)]
pub enum LinkError {
    /// The file system or the process failed.
    IoError(String),
    /// Links are not made on this platform.
    UnsupportedPlatform,
    /// `mklink` failed.
    JunctionCreationFailed,
}

/// The command that links `link` to `source`: a symbolic link on Unix,
/// `cmd /C mklink /J <link> <source>` on Windows.
pub fn create_link(source: &str, link: &str, platform: Platform) -> (r: LinkCommand)
    ensures
        match platform {
            Platform::Unix => r matches LinkCommand::Symlink { source: s, link: l } && s@ == source@ && l@
                == link@,
            Platform::Windows => r matches LinkCommand::Run { program, args } && program@ == "cmd"@
                && args.deep_view() == seq!["/C"@, "mklink"@, "/J"@, link@, source@],
        },
{
    crate::ops::link::create_link(source, link, platform)
}

/// The outcome of the `mklink` run.
pub fn junction_outcome(success: bool) -> (r: Result<(), LinkError>)
    ensures
        success <==> r is Ok,
        !success ==> r matches Err(LinkError::JunctionCreationFailed),
{
    if success {
        Ok(())
    } else {
        Err(LinkError::JunctionCreationFailed)
    }
}

impl LinkError {
    /// The error's message.
    pub open spec fn message_spec(&self) -> Seq<char> {
        match self {
            LinkError::IoError(d) => "I/O error: "@ + d@,
            LinkError::UnsupportedPlatform => "Unsupported platform"@,
            LinkError::JunctionCreationFailed => "Failed to create Junction via cmd"@,
        }
    }

    /// The error's message, as it is shown to the user.
    pub fn message(&self) -> (r: String)
        ensures
            r@ == self.message_spec(),
    {
        let mut s = String::new();
        match self {
            LinkError::IoError(d) => {
                s.append("I/O error: ");
                s.append(d.as_str());
            },
            LinkError::UnsupportedPlatform => {
                s.append("Unsupported platform");
            },
            LinkError::JunctionCreationFailed => {
                s.append("Failed to create Junction via cmd");
            },
        }
        s
    }
}

} // verus!
