//! Making and removing links with a choice about what is already at the
//! link's path.

use vstd::prelude::*;

verus! {

/// Errors in making or removing a link.
#[derive(Debug)]
pub enum LinkError {
    /// The file system failed.
    IoError(String),
    /// Something is at the link's path and replacing was not asked for.
    PathExists(String),
    /// Nothing is at the path to remove.
    PathNotFound(String),
}

/// What to clear away before the link is made.
#[derive(Debug, Clone, Copy, PartialEq, Eq)]
pub enum ClearPlan {
    /// Nothing is at the link's path.
    Nothing,
    /// Remove the directory there and all it holds.
    RemoveDirAll,
    /// Remove the file there.
    RemoveFile,
}

/// The choice before linking: given whether something exists at `link`
/// (and whether it is a directory), clear it away when replacing is asked
/// for, and refuse otherwise.
pub fn plan_create_link(link: &str, link_exists: bool, link_is_dir: bool, replace_existing: bool) -> (r: Result<
    ClearPlan,
    LinkError,
>)
    ensures
        !link_exists ==> r == Ok::<ClearPlan, LinkError>(ClearPlan::Nothing),
        link_exists && !replace_existing ==> (r matches Err(LinkError::PathExists(p)) && p@ == link@),
        link_exists && replace_existing && link_is_dir ==> r == Ok::<ClearPlan, LinkError>(
            ClearPlan::RemoveDirAll,
        ),
        link_exists && replace_existing && !link_is_dir ==> r == Ok::<ClearPlan, LinkError>(
            ClearPlan::RemoveFile,
        ),
{
    if link_exists {
        if replace_existing {
            if link_is_dir {
                Ok(ClearPlan::RemoveDirAll)
            } else {
                Ok(ClearPlan::RemoveFile)
            }
        } else {
            Err(LinkError::PathExists(link.to_owned()))
        }
    } else {
        Ok(ClearPlan::Nothing)
    }
}

/// How to remove what is at a link's path.
#[derive(Debug, Clone, Copy, PartialEq, Eq)]
pub enum RemovePlan {
    /// Remove the directory and all it holds.
    RemoveDirAll,
    /// Remove the file.
    RemoveFile,
}

/// The choice before unlinking: nothing there is an error; a directory is
/// removed with all it holds, anything else as a file.
pub fn plan_remove_link(link: &str, link_exists: bool, link_is_dir: bool) -> (r: Result<RemovePlan, LinkError>)
    ensures
        !link_exists ==> (r matches Err(LinkError::PathNotFound(p)) && p@ == link@),
        link_exists && link_is_dir ==> r == Ok::<RemovePlan, LinkError>(RemovePlan::RemoveDirAll),
        link_exists && !link_is_dir ==> r == Ok::<RemovePlan, LinkError>(RemovePlan::RemoveFile),
{
    if !link_exists {
        return Err(LinkError::PathNotFound(link.to_owned()));
    }
    if link_is_dir {
        Ok(RemovePlan::RemoveDirAll)
    } else {
        Ok(RemovePlan::RemoveFile)
    }
}

impl LinkError {
    /// The error's message.
    pub open spec fn message_spec(&self) -> Seq<char> {
        match self {
            LinkError::IoError(d) => "I/O error: "@ + d@,
            LinkError::PathExists(d) => "Path exists: "@ + d@,
            LinkError::PathNotFound(d) => "Path does not exist: "@ + d@,
        }
    }

    /// The error's message, as it is shown to the user.
    pub fn message(&self) -> (r: String)
        ensures
            r@ == self.message_spec(),
    {
        let mut s = String::new();
        match self {
            LinkError::IoError(d) => {
                s.append("I/O error: ");
                s.append(d.as_str());
            },
            LinkError::PathExists(d) => {
                s.append("Path exists: ");
                s.append(d.as_str());
            },
            LinkError::PathNotFound(d) => {
                s.append("Path does not exist: ");
                s.append(d.as_str());
            },
        }
        s
    }
}

} // verus!
