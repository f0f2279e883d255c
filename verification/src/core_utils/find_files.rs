//! Looking for a file upward from the directory the tool runs in.

use vstd::prelude::*;

use crate::ops::find_files::{ancestor, found_at, searched};

verus! {

/// Looks for `file_name` in `current_dir` (the directory the tool runs in)
/// and then in each parent directory in turn, asking `search_dir` to look
/// in one directory; returns what the first successful search found.
pub fn search_up_for_file<F: Fn(&str, &str) -> Option<String>>(
    current_dir: &str,
    file_name: &str,
    search_dir: F,
) -> (r: Option<String>)
    requires
        forall|d: &str, n: &str| search_dir.requires((d, n)),
    ensures
        match r {
            Some(found) => exists|k: nat| found_at(search_dir, current_dir@, file_name, k, found),
            None => forall|k: nat|
                #[trigger] ancestor(current_dir@, k) is Some ==> searched(
                    search_dir,
                    ancestor(current_dir@, k)->0,
                    file_name,
                    None,
                ),
        },
{
    crate::ops::find_files::search_up_for_file(current_dir, file_name, search_dir)
}

} // verus!
