//! The choices behind packing the source tree into a ZIP archive: which
//! entries go in, and under which name.

use vstd::prelude::*;

use crate::ops::glob_ops::{any_match, glob_match, lemma_any_match, matches_any, patterns_view, GlobPattern};
use crate::text::{replace_all, replace_spec};

verus! {

/// Errors in building the archive.
#[derive(Debug)]
pub enum ArchiveOpsError {
    /// Reading a file or writing the archive failed.
    IoError(String),
    /// Walking the source tree failed.
    WalkDirError(String),
    /// The ZIP writer failed.
    ZipError(String),
    /// An entry lay outside the source directory.
    PathError(String),
}

/// Whether the walk keeps an entry (and, for a directory, descends into it),
/// given its path relative to the source directory (`None` when that path
/// is not UTF-8, which no pattern matches): the source directory itself and
/// every entry no pattern matches.
pub open spec fn keep_entry_spec(rel_path: Option<Seq<char>>, patterns: Seq<Seq<char>>) -> bool {
    match rel_path {
        Some(p) => p.len() == 0 || !any_match(patterns, p),
        None => true,
    }
}

/// Whether the walk keeps the entry.
pub fn keep_entry(rel_path: Option<&str>, patterns: &Vec<GlobPattern>) -> (r: bool)
    ensures
        r == keep_entry_spec(
            match rel_path {
                Some(p) => Some(p@),
                None => None,
            },
            patterns_view(patterns@),
        ),
        rel_path is None ==> r,
        rel_path matches Some(p) ==> (r <==> (p@.len() == 0 || forall|i: int|
            0 <= i < patterns@.len() ==> !glob_match(#[trigger] patterns@[i]@, p@))),
{
    proof {
        if let Some(p) = rel_path {
            lemma_any_match(patterns@, p@);
        }
    }
    match rel_path {
        Some(p) => p.unicode_len() == 0 || !matches_any(patterns, p),
        None => true,
    }
}

/// The archive leaves out every entry below the source directory that some
/// exclude pattern matches, and keeps every other one: an entry with a
/// non-empty relative path is kept exactly when no pattern of the list
/// matches that path; the source directory itself, and an entry whose
/// relative path is not UTF-8 (which no pattern matches), are kept.
pub proof fn lemma_keep_entry_excludes_matches(rel_path: Option<Seq<char>>, ps: Seq<Seq<char>>)
    ensures
        rel_path is None ==> keep_entry_spec(rel_path, ps),
        rel_path matches Some(p) ==> (keep_entry_spec(rel_path, ps) <==> (p.len() == 0 || forall|i: int|
            0 <= i < ps.len() ==> !glob_match(#[trigger] ps[i], p))),
{
}

/// What goes into the archive for one entry of the walk.
#[derive(Debug)]
pub enum ArchiveEntry {
    /// Nothing (the source directory itself, or neither file nor directory).
    Skip,
    /// A file, under this name.
    File(String),
    /// A directory, under this name.
    Directory(String),
}

/// The entry's name in the archive: its relative path with every `\`
/// written as `/`.
pub open spec fn archive_name_spec(rel_path: Seq<char>) -> Seq<char> {
    replace_spec(rel_path, seq!['\\'], seq!['/'])
}

/// The archive entry for a walked entry, given its relative path (as
/// `to_string_lossy` gives it) and whether it is a file or a directory.
pub fn archive_entry(rel_path: &str, is_file: bool, is_dir: bool) -> (r: ArchiveEntry)
    ensures
        rel_path@.len() == 0 ==> r is Skip,
        rel_path@.len() > 0 ==> match r {
            ArchiveEntry::File(n) => is_file && n@ == archive_name_spec(rel_path@),
            ArchiveEntry::Directory(n) => !is_file && is_dir && n@ == archive_name_spec(rel_path@),
            ArchiveEntry::Skip => !is_file && !is_dir,
        },
{
    if rel_path.unicode_len() == 0 {
        return ArchiveEntry::Skip;
    }
    proof {
        reveal_strlit("\\");
        reveal_strlit("/");
        assert("\\"@ =~= seq!['\\']);
        assert("/"@ =~= seq!['/']);
    }
    let name = replace_all(rel_path, "\\", "/");
    if is_file {
        ArchiveEntry::File(name)
    } else if is_dir {
        ArchiveEntry::Directory(name)
    } else {
        ArchiveEntry::Skip
    }
}

impl ArchiveOpsError {
    /// The error's message.
    pub open spec fn message_spec(&self) -> Seq<char> {
        match self {
            ArchiveOpsError::IoError(d) => "I/O error: "@ + d@,
            ArchiveOpsError::WalkDirError(d) => "WalkDir error: "@ + d@,
            ArchiveOpsError::ZipError(d) => "Zip error: "@ + d@,
            ArchiveOpsError::PathError(d) => "Path error: "@ + d@,
        }
    }

    /// The error's message, as it is shown to the user.
    pub fn message(&self) -> (r: String)
        ensures
            r@ == self.message_spec(),
    {
        let mut s = String::new();
        match self {
            ArchiveOpsError::IoError(d) => {
                s.append("I/O error: ");
                s.append(d.as_str());
            },
            ArchiveOpsError::WalkDirError(d) => {
                s.append("WalkDir error: ");
                s.append(d.as_str());
            },
            ArchiveOpsError::ZipError(d) => {
                s.append("Zip error: ");
                s.append(d.as_str());
            },
            ArchiveOpsError::PathError(d) => {
                s.append("Path error: ");
                s.append(d.as_str());
            },
        }
        s
    }
}

} // verus!
