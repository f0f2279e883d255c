//! Looking for a file in a directory and the directories above it, or in
//! the tree below it.

use vstd::prelude::*;

use crate::paths::{path_parent, path_parent_spec};

verus! {

/// The `k`-th directory up from `start` (`start` itself for `0`), `None`
/// once the chain of parents has ended.
pub open spec fn ancestor(start: Seq<char>, k: nat) -> Option<Seq<char>>
    decreases k,
{
    if k == 0 {
        Some(start)
    } else {
        match ancestor(start, (k - 1) as nat) {
            Some(d) => path_parent_spec(d),
            None => None,
        }
    }
}

/// Whether the search of the directory with the given text for `name`
/// answered `result`.
pub open spec fn searched<F: Fn(&str, &str) -> Option<String>>(
    search_dir: F,
    dir: Seq<char>,
    name: &str,
    result: Option<String>,
) -> bool {
    exists|d: &str| d@ == dir && #[trigger] search_dir.ensures((d, name), result)
}

/// The file was found as `found` in the `k`-th directory up, and the search
/// of each directory below it found nothing.
pub open spec fn found_at<F: Fn(&str, &str) -> Option<String>>(
    search_dir: F,
    start: Seq<char>,
    name: &str,
    k: nat,
    found: String,
) -> bool {
    &&& ancestor(start, k) matches Some(d) && searched(search_dir, d, name, Some(found))
    &&& forall|j: nat|
        j < k ==> (#[trigger] ancestor(start, j) matches Some(dj) && searched(search_dir, dj, name, None))
}

/// The search goes up one parent at a time with no bound on the depth: the
/// first directory searched is the start, and the one after the `k`-th is
/// the `k`-th one's parent, for as long as there is a parent.
pub proof fn lemma_ancestor_is_parent_chain(start: Seq<char>, k: nat)
    ensures
        ancestor(start, 0) == Some(start),
        ancestor(start, k + 1) == match ancestor(start, k) {
            Some(d) => path_parent_spec(d),
            None => None,
        },
{
}

/// Past the end of the chain of parents there is no directory.
proof fn lemma_ancestor_ended(start: Seq<char>, k: nat, j: nat)
    requires
        ancestor(start, k) is None,
        k <= j,
    ensures
        ancestor(start, j) is None,
    decreases j - k,
{
    if k < j {
        lemma_ancestor_ended(start, k, (j - 1) as nat);
    }
}

/// Looks for `file_name` in `start` and then in each parent directory in
/// turn, asking `search_dir` to look in one directory; returns what the first
/// successful search found, or `None` when none did.
pub fn search_up_for_file<F: Fn(&str, &str) -> Option<String>>(
    start: &str,
    file_name: &str,
    search_dir: F,
) -> (r: Option<String>)
    requires
        forall|d: &str, n: &str| search_dir.requires((d, n)),
    ensures
        match r {
            Some(found) => exists|k: nat| found_at(search_dir, start@, file_name, k, found),
            None => forall|k: nat|
                #[trigger] ancestor(start@, k) is Some ==> searched(
                    search_dir,
                    ancestor(start@, k)->0,
                    file_name,
                    None,
                ),
        },
{
    let mut current: String = start.to_owned();
    let ghost mut k: nat = 0;
    loop
        invariant
            forall|d: &str, n: &str| search_dir.requires((d, n)),
            ancestor(start@, k) == Some(current@),
            forall|j: nat|
                j < k ==> (#[trigger] ancestor(start@, j) matches Some(dj) && searched(
                    search_dir,
                    dj,
                    file_name,
                    None,
                )),
        decreases current@.len(),
    {
        let found = search_dir(current.as_str(), file_name);
        match found {
            Some(path) => {
                assert(searched(search_dir, current@, file_name, Some(path)));
                assert(found_at(search_dir, start@, file_name, k, path));
                return Some(path);
            },
            None => {
                assert(searched(search_dir, current@, file_name, None));
            },
        }
        match path_parent(current.as_str()) {
            Some(parent) => {
                proof {
                    k = k + 1;
                }
                current = parent;
            },
            None => {
                proof {
                    assert(ancestor(start@, k + 1) is None);
                    assert forall|j: nat| #[trigger]
                        ancestor(start@, j) is Some implies searched(
                        search_dir,
                        ancestor(start@, j)->0,
                        file_name,
                        None,
                    ) by {
                        if j > k {
                            lemma_ancestor_ended(start@, k + 1, j);
                        }
                    }
                }
                return None;
            },
        }
    }
}

/// One entry of a walk over a directory tree, in the order the walk gave
/// it: its path and its file name.
#[derive(Debug, Clone)]
pub struct WalkEntry {
    pub path: String,
    pub file_name: String,
}

/// The file is named `name` at position `i` of the walk, and at no position
/// before it.
pub open spec fn first_named(entries: Seq<WalkEntry>, name: Seq<char>, i: int) -> bool {
    &&& 0 <= i < entries.len()
    &&& entries[i].file_name@ == name
    &&& forall|j: int| 0 <= j < i ==> (#[trigger] entries[j]).file_name@ != name
}

/// The path of the first entry of the walk named `file_name`, or `None`
/// when no entry has that name.
pub fn search_down_for_file(entries: &Vec<WalkEntry>, file_name: &str) -> (r: Option<String>)
    ensures
        match r {
            Some(p) => exists|i: int| first_named(entries@, file_name@, i) && p@ == (#[trigger] entries@[i]).path@,
            None => forall|i: int| 0 <= i < entries@.len() ==> (#[trigger] entries@[i]).file_name@ != file_name@,
        },
{
    let target = file_name.to_owned();
    let mut i: usize = 0;
    while i < entries.len()
        invariant
            i <= entries@.len(),
            target@ == file_name@,
            forall|j: int| 0 <= j < i ==> (#[trigger] entries@[j]).file_name@ != file_name@,
        decreases entries@.len() - i,
    {
        if entries[i].file_name == target {
            let p = entries[i].path.clone();
            assert(first_named(entries@, file_name@, i as int));
            return Some(p);
        }
        i = i + 1;
    }
    None
}

/// One entry of a directory listing, in the order the listing gave it.
#[derive(Debug, Clone)]
pub enum Listed {
    /// The listing could not read this entry.
    Unreadable,
    /// An entry: its path, whether it is a regular file, and its file name
    /// (`None` when it has none or the name is not UTF-8).
    Item { path: String, is_file: bool, file_name: Option<String> },
}

/// What looking through a listing from position `i` on gives: the path of
/// the first regular file named `name`; the look ends with nothing at an
/// unreadable entry, at a regular file without a UTF-8 name, or at the end.
pub open spec fn pick_from(entries: Seq<Listed>, name: Seq<char>, i: int) -> Option<Seq<char>>
    decreases entries.len() - i,
{
    if i < 0 || i >= entries.len() {
        None
    } else {
        match entries[i] {
            Listed::Unreadable => None,
            Listed::Item { path, is_file, file_name } => if !is_file {
                pick_from(entries, name, i + 1)
            } else {
                match file_name {
                    None => None,
                    Some(n) => if n@ == name {
                        Some(path@)
                    } else {
                        pick_from(entries, name, i + 1)
                    },
                }
            },
        }
    }
}

/// The file named `file_name` in a directory, from its listing: the first
/// regular file with that name, looking no further than an unreadable entry
/// or a regular file whose name is not UTF-8.
pub fn search_dir_for(entries: &Vec<Listed>, file_name: &str) -> (r: Option<String>)
    ensures
        match r {
            Some(p) => pick_from(entries@, file_name@, 0) == Some(p@),
            None => pick_from(entries@, file_name@, 0) is None,
        },
{
    let target = file_name.to_owned();
    let mut i: usize = 0;
    while i < entries.len()
        invariant
            i <= entries@.len(),
            target@ == file_name@,
            pick_from(entries@, file_name@, 0) == pick_from(entries@, file_name@, i as int),
        decreases entries@.len() - i,
    {
        match &entries[i] {
            Listed::Unreadable => {
                return None;
            },
            Listed::Item { path, is_file, file_name: name } => {
                if *is_file {
                    match name {
                        None => {
                            return None;
                        },
                        Some(n) => {
                            if *n == target {
                                return Some(path.clone());
                            }
                        },
                    }
                }
            },
        }
        i = i + 1;
    }
    None
}

} // verus!
