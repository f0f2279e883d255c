//! Linking the source directory into Blender's extensions directory: the
//! commands that make and remove the link on each platform.

use vstd::prelude::*;

verus! {

/// The platform a link is made on.
#[derive(Debug, Clone, Copy, PartialEq, Eq)]
pub enum Platform {
    /// A symbolic link.
    Unix,
    /// A directory junction, made with `cmd /C mklink /J`.
    Windows,
}

/// What to run to make or remove a link.
#[derive(Debug)]
pub enum LinkCommand {
    /// Make a symbolic link at `link` to `source`.
    Symlink { source: String, link: String },
    /// Remove the file (the symbolic link) at `path`.
    RemoveFile { path: String },
    /// Run a program with these arguments; it succeeds when it exits with
    /// success.
    Run { program: String, args: Vec<String> },
}

/// Errors in making or removing a link.
#[derive(Debug)]
pub enum LinkError {
    /// The file system or the process failed.
    IoError(String),
    /// Links are not made on this platform.
    UnsupportedPlatform,
    /// A path is not valid UTF-8, so it cannot be passed to `cmd`.
    InvalidPath(String),
    /// `mklink` failed.
    JunctionCreationFailed,
    /// `rmdir` failed.
    JunctionRemovalFailed,
}

/// A list of strings from literals.
fn strings(parts: &[&str]) -> (r: Vec<String>)
    ensures
        r.deep_view() == parts@.map_values(|s: &str| s@),
{
    let mut out: Vec<String> = Vec::new();
    let mut i: usize = 0;
    while i < parts.len()
        invariant
            i <= parts@.len(),
            out@.len() == i,
            forall|j: int| 0 <= j < i ==> (#[trigger] out@[j])@ == parts@[j]@,
        decreases parts@.len() - i,
    {
        out.push(parts[i].to_owned());
        i = i + 1;
    }
    assert(out.deep_view() =~= parts@.map_values(|s: &str| s@));
    out
}

/// The command that links `link` to `source`: a symbolic link on Unix,
/// `cmd /C mklink /J <link> <source>` on Windows.
pub fn create_link(source: &str, link: &str, platform: Platform) -> (r: LinkCommand)
    ensures
        match platform {
            Platform::Unix => r matches LinkCommand::Symlink { source: s, link: l } && s@ == source@ && l@
                == link@,
            Platform::Windows => r matches LinkCommand::Run { program, args } && program@ == "cmd"@
                && args.deep_view() == seq!["/C"@, "mklink"@, "/J"@, link@, source@],
        },
{
    match platform {
        Platform::Unix => LinkCommand::Symlink { source: source.to_owned(), link: link.to_owned() },
        Platform::Windows => {
            let args = strings(&["/C", "mklink", "/J", link, source]);
            assert(args.deep_view() =~= seq!["/C"@, "mklink"@, "/J"@, link@, source@]);
            LinkCommand::Run { program: "cmd".to_owned(), args }
        },
    }
}

/// The command that removes the link at `link`: the file on Unix,
/// `cmd /C rmdir <link>` on Windows.
pub fn remove_link(link: &str, platform: Platform) -> (r: LinkCommand)
    ensures
        match platform {
            Platform::Unix => r matches LinkCommand::RemoveFile { path } && path@ == link@,
            Platform::Windows => r matches LinkCommand::Run { program, args } && program@ == "cmd"@
                && args.deep_view() == seq!["/C"@, "rmdir"@, link@],
        },
{
    match platform {
        Platform::Unix => LinkCommand::RemoveFile { path: link.to_owned() },
        Platform::Windows => {
            let args = strings(&["/C", "rmdir", link]);
            assert(args.deep_view() =~= seq!["/C"@, "rmdir"@, link@]);
            LinkCommand::Run { program: "cmd".to_owned(), args }
        },
    }
}

/// The outcome of a `cmd` run: success, or the failure of making
/// (`removing == false`) or removing the junction.
pub fn junction_outcome(success: bool, removing: bool) -> (r: Result<(), LinkError>)
    ensures
        success ==> r is Ok,
        !success && !removing ==> r matches Err(LinkError::JunctionCreationFailed),
        !success && removing ==> r matches Err(LinkError::JunctionRemovalFailed),
{
    if success {
        Ok(())
    } else if removing {
        Err(LinkError::JunctionRemovalFailed)
    } else {
        Err(LinkError::JunctionCreationFailed)
    }
}

impl LinkError {
    /// The error's message.
    pub open spec fn message_spec(&self) -> Seq<char> {
        match self {
            LinkError::IoError(d) => "I/O error: "@ + d@,
            LinkError::UnsupportedPlatform => "Unsupported platform"@,
            LinkError::InvalidPath(d) => "Path contains invalid UTF-8: "@ + d@,
            LinkError::JunctionCreationFailed => "Failed to create Junction via cmd"@,
            LinkError::JunctionRemovalFailed => "Failed to remove Junction via cmd"@,
        }
    }

    /// The error's message, as it is shown to the user.
    pub fn message(&self) -> (r: String)
        ensures
            r@ == self.message_spec(),
    {
        let mut s = String::new();
        match self {
            LinkError::IoError(d) => {
                s.append("I/O error: ");
                s.append(d.as_str());
            },
            LinkError::UnsupportedPlatform => {
                s.append("Unsupported platform");
            },
            LinkError::InvalidPath(d) => {
                s.append("Path contains invalid UTF-8: ");
                s.append(d.as_str());
            },
            LinkError::JunctionCreationFailed => {
                s.append("Failed to create Junction via cmd");
            },
            LinkError::JunctionRemovalFailed => {
                s.append("Failed to remove Junction via cmd");
            },
        }
        s
    }
}

} // verus!
