//! Paths, held as their text: joining, taking the parent or the file name
//! and stripping a prefix go through `std::path`.

use vstd::prelude::*;

verus! {

/// The text of `Path::new(base).join(name)`.
pub uninterp spec fn path_join_spec(base: Seq<char>, name: Seq<char>) -> Seq<char>;

/// The text of `Path::new(path).parent()`, `None` where the path ends in a
/// root or prefix or is empty.
pub uninterp spec fn path_parent_spec(path: Seq<char>) -> Option<Seq<char>>;

/// `Path::join`, read back as text (both parts are UTF-8, so the result is
/// too). Claimed: the result is `path_join_spec` of the two texts.
#[verifier::external_body]
pub(crate) fn path_join(base: &str, name: &str) -> (r: String)
    ensures
        r@ == path_join_spec(base@, name@),
{
    std::path::Path::new(base).join(name).to_string_lossy().into_owned()
}

/// `Path::parent`, read back as text. Claimed: the result is
/// `path_parent_spec` of the text, and a parent is shorter than the path
/// (the path without its final component).
#[verifier::external_body]
pub(crate) fn path_parent(path: &str) -> (r: Option<String>)
    ensures
        match r {
            Some(p) => path_parent_spec(path@) == Some(p@) && p@.len() < path@.len(),
            None => path_parent_spec(path@) is None,
        },
{
    std::path::Path::new(path).parent().map(|p| p.to_string_lossy().into_owned())
}

/// The text of `Path::new(path).file_name()`, `None` where the path ends
/// in `..` or has no final component.
pub uninterp spec fn path_file_name_spec(path: Seq<char>) -> Option<Seq<char>>;

/// The text of `Path::new(path).strip_prefix(base)`, `None` where `base` is
/// not a prefix of the path.
pub uninterp spec fn path_strip_prefix_spec(path: Seq<char>, base: Seq<char>) -> Option<Seq<char>>;

/// `Path::file_name`, read back as text. Claimed: the result is
/// `path_file_name_spec` of the text.
#[verifier::external_body]
pub(crate) fn path_file_name(path: &str) -> (r: Option<String>)
    ensures
        match r {
            Some(n) => path_file_name_spec(path@) == Some(n@),
            None => path_file_name_spec(path@) is None,
        },
{
    std::path::Path::new(path).file_name().map(|n| n.to_string_lossy().into_owned())
}

/// `Path::strip_prefix`, read back as text. Claimed: the result is
/// `path_strip_prefix_spec` of the two texts.
#[verifier::external_body]
pub(crate) fn path_strip_prefix(path: &str, base: &str) -> (r: Option<String>)
    ensures
        match r {
            Some(p) => path_strip_prefix_spec(path@, base@) == Some(p@),
            None => path_strip_prefix_spec(path@, base@) is None,
        },
{
    std::path::Path::new(path).strip_prefix(base).ok().map(|p| p.to_string_lossy().into_owned())
}

} // verus!
