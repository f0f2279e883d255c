//! Setting or removing an optional top-level entry.

use vstd::prelude::*;

use crate::toml_doc::{
    doc_remove, doc_set_list, doc_set_text, toml_entries, toml_prints_back, TomlEntries, TomlNode,
};

verus! {

/// The entries after an optional string is written: set when present,
/// removed when absent.
pub open spec fn set_opt_text(e: TomlEntries, key: Seq<char>, val: Option<Seq<char>>) -> TomlEntries {
    match val {
        Some(t) => e.insert(key, TomlNode::Text(t)),
        None => e.remove(key),
    }
}

/// The entries after an optional list of strings is written.
pub open spec fn set_opt_list(e: TomlEntries, key: Seq<char>, val: Option<Seq<Seq<char>>>) -> TomlEntries {
    match val {
        Some(ts) => e.insert(key, TomlNode::List(ts.map_values(|t: Seq<char>| Some(t)))),
        None => e.remove(key),
    }
}

/// The view of an optional string slice.
pub open spec fn opt_str_view(o: Option<&str>) -> Option<Seq<char>> {
    match o {
        Some(s) => Some(s@),
        None => None,
    }
}

/// Sets `key` to the string when there is one, and removes it otherwise.
pub fn set_optional(doc: &mut toml_edit::DocumentMut, key: &str, val: Option<&str>)
    ensures
        toml_entries(*final(doc)) == set_opt_text(toml_entries(*old(doc)), key@, opt_str_view(val)),
        toml_prints_back(*old(doc)) ==> toml_prints_back(*final(doc)),
{
    match val {
        Some(v) => doc_set_text(doc, key, v),
        None => doc_remove(doc, key),
    }
}

/// Sets `key` to the array of strings when there is one, and removes it
/// otherwise.
pub fn set_optional_list(doc: &mut toml_edit::DocumentMut, key: &str, val: Option<&Vec<String>>)
    ensures
        toml_entries(*final(doc)) == set_opt_list(
            toml_entries(*old(doc)),
            key@,
            match val {
                Some(v) => Some(v.deep_view()),
                None => None,
            },
        ),
        toml_prints_back(*old(doc)) ==> toml_prints_back(*final(doc)),
{
    match val {
        Some(v) => {
            doc_set_list(doc, key, v);
            assert(v@.map_values(|s: String| Some(s@)) =~= v.deep_view().map_values(
                |t: Seq<char>| Some(t),
            ));
        },
        None => doc_remove(doc, key),
    }
}

} // verus!
