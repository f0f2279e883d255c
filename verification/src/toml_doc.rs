//! TOML documents (`toml_edit::DocumentMut`) as the library reads and edits
//! them: the top-level entries, seen through `TomlNode`, and the field
//! readers the manifests are built from.

use vstd::prelude::*;

verus! {

/// What the library sees of a top-level TOML item.
pub enum TomlNode {
    /// A string value.
    Text(Seq<char>),
    /// An inline array; `Some` for each string element, `None` for any other.
    List(Seq<Option<Seq<char>>>),
    /// A table or inline table; each key with `Some` text for a string value,
    /// `None` for any other value.
    Table(Map<Seq<char>, Option<Seq<char>>>),
    /// Any other item (numbers, booleans, dates, arrays of tables).
    Other,
}

/// The top-level keys of a TOML document, each with what the library sees of
/// its item.
pub type TomlEntries = Map<Seq<char>, TomlNode>;

#[verifier::external_type_specification]
#[verifier::external_body]
pub struct ExDocumentMut(toml_edit::DocumentMut);

/// The top-level entries of a document.
pub uninterp spec fn toml_entries(doc: toml_edit::DocumentMut) -> TomlEntries;

/// Whether the document's printed text stands for exactly its entries: it
/// nests no deeper than `toml_edit`'s parser accepts (a fixed limit on
/// nested arrays, inline tables and dotted-key parts), it holds no empty
/// implicit table (which `Display` leaves out), and its decoration is either
/// what the parser read or the default (`Decor::set_prefix` and the like can
/// put arbitrary raw text into the output).
pub uninterp spec fn toml_prints_back(doc: toml_edit::DocumentMut) -> bool;

/// What parsing a text as a TOML document gives: its top-level entries, or
/// `None` where `toml_edit` reports a syntax error.
pub uninterp spec fn toml_parse(text: Seq<char>) -> Option<TomlEntries>;

/// The map of an inline table built from key/value pairs in order (a later
/// pair replaces an earlier one with the same key).
pub open spec fn pairs_table(pairs: Seq<(Seq<char>, Seq<char>)>) -> Map<Seq<char>, Option<Seq<char>>>
    decreases pairs.len(),
{
    if pairs.len() == 0 {
        Map::empty()
    } else {
        pairs_table(pairs.drop_last()).insert(pairs.last().0, Some(pairs.last().1))
    }
}

/// The views of key/value string pairs.
pub open spec fn pair_views(pairs: Seq<(String, String)>) -> Seq<(Seq<char>, Seq<char>)> {
    pairs.map_values(|p: (String, String)| (p.0@, p.1@))
}

/// `DocumentMut::new`. Claimed: the new document has no entries, no table
/// and no decoration but the default, so it prints back.
#[verifier::external_body]
pub(crate) fn doc_new() -> (r: toml_edit::DocumentMut)
    ensures
        toml_entries(r).dom() == Set::<Seq<char>>::empty(),
        toml_prints_back(r),
{
    toml_edit::DocumentMut::new()
}

/// `str::parse::<DocumentMut>`. Claimed: success and the entries follow
/// `toml_parse`, and a parsed document prints back: it nests within the
/// parser's limit (the parser refuses anything deeper), an implicit table it
/// makes holds the tables under it, and its decoration is what it read. The
/// error is the `TomlError`'s text, of which nothing is stated.
#[verifier::external_body]
pub(crate) fn doc_parse(text: &str) -> (r: Result<toml_edit::DocumentMut, String>)
    ensures
        r is Ok <==> toml_parse(text@) is Some,
        r matches Ok(d) ==> toml_parse(text@) == Some(toml_entries(d)) && toml_prints_back(d),
{
    text.parse::<toml_edit::DocumentMut>().map_err(|e| e.to_string())
}

/// `DocumentMut`'s `to_string`. Claimed: for a document that prints back
/// (`toml_prints_back`), the text parses to the document's entries. Nothing
/// is claimed of other documents (an empty implicit table is left out of the
/// text, raw decoration is written as it stands). Not stated: the text
/// itself, which follows the document's layout (comments, spacing, order)
/// and not its entries alone.
#[verifier::external_body]
pub(crate) fn doc_render(doc: &toml_edit::DocumentMut) -> (r: String)
    ensures
        toml_prints_back(*doc) ==> toml_parse(r@) == Some(toml_entries(*doc)),
{
    doc.to_string()
}

/// `DocumentMut::clone`. Claimed: the copy has the same entries, and prints
/// back when the original does (the derived clone copies every table and
/// decoration).
pub assume_specification[ <toml_edit::DocumentMut as Clone>::clone ](doc: &toml_edit::DocumentMut) -> (r: toml_edit::DocumentMut)
    ensures
        toml_entries(r) == toml_entries(*doc),
        toml_prints_back(r) == toml_prints_back(*doc),
;

/// The string an optional `String` holds, borrowed.
pub fn opt_as_str(o: &Option<String>) -> (r: Option<&str>)
    ensures
        match r {
            Some(s) => o matches Some(t) && s@ == t@,
            None => o is None,
        },
{
    match o {
        Some(t) => Some(t.as_str()),
        None => None,
    }
}

/// `Table::contains_key` on the document's root table. Claimed: true
/// exactly when the key is among the entries.
#[verifier::external_body]
pub(crate) fn doc_has(doc: &toml_edit::DocumentMut, key: &str) -> (r: bool)
    ensures
        r == toml_entries(*doc).contains_key(key@),
{
    doc.contains_key(key)
}

/// `doc.get(key)` then `Item::as_str`. Claimed: the text when the entry is
/// a string, `None` otherwise.
#[verifier::external_body]
pub(crate) fn doc_get_text(doc: &toml_edit::DocumentMut, key: &str) -> (r: Option<String>)
    ensures
        match toml_entries(*doc).get(key@) {
            Some(TomlNode::Text(t)) => r matches Some(s) && s@ == t,
            _ => r is None,
        },
{
    doc.get(key).and_then(|item| item.as_str()).map(|s| s.to_string())
}

/// `doc.get(key)`, `Item::as_array`, `Array::len`. Claimed: the number of
/// elements when the entry is an inline array, `None` otherwise.
#[verifier::external_body]
pub(crate) fn doc_list_len(doc: &toml_edit::DocumentMut, key: &str) -> (r: Option<usize>)
    ensures
        match toml_entries(*doc).get(key@) {
            Some(TomlNode::List(items)) => r matches Some(n) && n == items.len(),
            _ => r is None,
        },
{
    doc.get(key).and_then(|item| item.as_array()).map(|a| a.len())
}

/// `doc.get(key)`, `Item::as_array`, `Array::get(i)`, `Value::as_str`.
/// Claimed: the text of element `i` when the entry is an inline array whose
/// element `i` is a string, `None` otherwise.
#[verifier::external_body]
pub(crate) fn doc_list_text(doc: &toml_edit::DocumentMut, key: &str, i: usize) -> (r: Option<String>)
    ensures
        match toml_entries(*doc).get(key@) {
            Some(TomlNode::List(items)) => if i < items.len() {
                match items[i as int] {
                    Some(t) => r matches Some(s) && s@ == t,
                    None => r is None,
                }
            } else {
                r is None
            },
            _ => r is None,
        },
{
    doc.get(key).and_then(|item| item.as_array()).and_then(|a| a.get(i)).and_then(|v| v.as_str()).map(
        |s| s.to_string(),
    )
}

/// `doc.get(key)` then `Item::is_table_like`. Claimed: true exactly when
/// the entry is a table or an inline table.
#[verifier::external_body]
pub(crate) fn doc_is_table(doc: &toml_edit::DocumentMut, key: &str) -> (r: bool)
    ensures
        r == (toml_entries(*doc).get(key@) matches Some(TomlNode::Table(_))),
{
    doc.get(key).map_or(false, |item| item.is_table_like())
}

/// `doc.get(table)` then `Item::get(key)`. Claimed: true exactly when the
/// entry is a table that holds the key.
#[verifier::external_body]
pub(crate) fn doc_table_has(doc: &toml_edit::DocumentMut, table: &str, key: &str) -> (r: bool)
    ensures
        r == (toml_entries(*doc).get(table@) matches Some(TomlNode::Table(m)) && m.contains_key(
            key@,
        )),
{
    doc.get(table).and_then(|t| t.get(key)).is_some()
}

/// `doc.get(table)`, `Item::get(key)`, `Item::as_str`. Claimed: the text of
/// the key's value when the entry is a table and that value a string, `None`
/// otherwise.
#[verifier::external_body]
pub(crate) fn doc_table_text(doc: &toml_edit::DocumentMut, table: &str, key: &str) -> (r: Option<String>)
    ensures
        match toml_entries(*doc).get(table@) {
            Some(TomlNode::Table(m)) => match m.get(key@) {
                Some(Some(t)) => r matches Some(s) && s@ == t,
                _ => r is None,
            },
            _ => r is None,
        },
{
    doc.get(table).and_then(|t| t.get(key)).and_then(|item| item.as_str()).map(|s| s.to_string())
}

/// `doc[key] = value(text)`. Claimed: the entry becomes that string and no
/// other entry changes; a flat string with default decoration keeps a
/// document printing back.
#[verifier::external_body]
pub(crate) fn doc_set_text(doc: &mut toml_edit::DocumentMut, key: &str, text: &str)
    ensures
        toml_entries(*final(doc)) == toml_entries(*old(doc)).insert(key@, TomlNode::Text(text@)),
        toml_prints_back(*old(doc)) ==> toml_prints_back(*final(doc)),
{
    doc[key] = toml_edit::value(text);
}

/// `doc[key] = value(array of the texts)`. Claimed: the entry becomes an
/// inline array of those strings, in order, and no other entry changes; an
/// array of strings with default decoration keeps a document printing back.
#[verifier::external_body]
pub(crate) fn doc_set_list(doc: &mut toml_edit::DocumentMut, key: &str, texts: &Vec<String>)
    ensures
        toml_entries(*final(doc)) == toml_entries(*old(doc)).insert(
            key@,
            TomlNode::List(texts@.map_values(|s: String| Some(s@))),
        ),
        toml_prints_back(*old(doc)) ==> toml_prints_back(*final(doc)),
{
    doc[key] = toml_edit::value(texts.iter().collect::<toml_edit::Array>());
}

/// `doc[key] = value(inline table of the pairs)`. Claimed: the entry becomes
/// a table of the pairs (a later pair replacing an earlier one with the same
/// key) and no other entry changes; an inline table of strings with default
/// decoration keeps a document printing back.
#[verifier::external_body]
pub(crate) fn doc_set_inline_table(doc: &mut toml_edit::DocumentMut, key: &str, pairs: &Vec<(String, String)>)
    ensures
        toml_entries(*final(doc)) == toml_entries(*old(doc)).insert(
            key@,
            TomlNode::Table(pairs_table(pair_views(pairs@))),
        ),
        toml_prints_back(*old(doc)) ==> toml_prints_back(*final(doc)),
{
    doc[key] = toml_edit::value(
        pairs.iter().map(|(k, v)| (k.as_str(), v.as_str())).collect::<toml_edit::InlineTable>(),
    );
}

/// `doc[table][key] = value(text)`. `toml_edit` panics when `table` holds an
/// item that is not a table, so that case is excluded. Claimed: the key of
/// the table (a new, empty one where the entry was absent) becomes that
/// string, its other keys stay, and no other entry changes; the string,
/// one level down with default decoration, keeps a document printing back
/// (an implicit table that gets a value is printed with its header).
#[verifier::external_body]
pub(crate) fn doc_set_table_text(doc: &mut toml_edit::DocumentMut, table: &str, key: &str, text: &str)
    requires
        match toml_entries(*old(doc)).get(table@) {
            Some(TomlNode::Table(_)) => true,
            None => true,
            _ => false,
        },
    ensures
        toml_entries(*final(doc)) == toml_entries(*old(doc)).insert(
            table@,
            TomlNode::Table(
                match toml_entries(*old(doc)).get(table@) {
                    Some(TomlNode::Table(m)) => m,
                    _ => Map::empty(),
                }.insert(key@, Some(text@)),
            ),
        ),
        toml_prints_back(*old(doc)) ==> toml_prints_back(*final(doc)),
{
    doc[table][key] = toml_edit::value(text);
}

/// `Table::remove` on the document's root table. Claimed: the entry is
/// gone and no other entry changes; removing a top-level item keeps a
/// document printing back.
#[verifier::external_body]
pub(crate) fn doc_remove(doc: &mut toml_edit::DocumentMut, key: &str)
    ensures
        toml_entries(*final(doc)) == toml_entries(*old(doc)).remove(key@),
        toml_prints_back(*old(doc)) ==> toml_prints_back(*final(doc)),
{
    doc.remove(key);
}

/// An optional string field as a deserializer reads it: `Some(None)` when the
/// key is absent, `Some(Some(text))` for a string, `None` (an error) for any
/// other value.
pub open spec fn read_text_spec(e: TomlEntries, key: Seq<char>) -> Option<Option<Seq<char>>> {
    match e.get(key) {
        None => Some(None),
        Some(TomlNode::Text(t)) => Some(Some(t)),
        _ => None,
    }
}

/// An optional array-of-strings field: absent, a list of strings, or an
/// error for anything else (including a list holding a non-string).
pub open spec fn read_text_list_spec(e: TomlEntries, key: Seq<char>) -> Option<Option<Seq<Seq<char>>>> {
    match e.get(key) {
        None => Some(None),
        Some(TomlNode::List(items)) => if forall|i: int| 0 <= i < items.len() ==> (#[trigger] items[i]) is Some {
            Some(Some(items.map_values(|o: Option<Seq<char>>| o->0)))
        } else {
            None
        },
        _ => None,
    }
}

/// An optional string field of a table entry: absent, a string, or an error
/// for any other value.
pub open spec fn read_table_text_spec(m: Map<Seq<char>, Option<Seq<char>>>, key: Seq<char>) -> Option<Option<Seq<char>>> {
    match m.get(key) {
        None => Some(None),
        Some(Some(t)) => Some(Some(t)),
        Some(None) => None,
    }
}

/// The views of an optional string.
pub open spec fn opt_view(o: Option<String>) -> Option<Seq<char>> {
    match o {
        Some(s) => Some(s@),
        None => None,
    }
}

/// The views of an optional list of strings.
pub open spec fn opt_list_view(o: Option<Vec<String>>) -> Option<Seq<Seq<char>>> {
    match o {
        Some(v) => Some(v.deep_view()),
        None => None,
    }
}

/// A required string field: its text, or `None` (an error) when it is
/// absent or not a string.
pub open spec fn required_text_spec(e: TomlEntries, key: Seq<char>) -> Option<Seq<char>> {
    match e.get(key) {
        Some(TomlNode::Text(t)) => Some(t),
        _ => None,
    }
}

/// Reads a required string field; the error names the field.
pub fn read_required_text(doc: &toml_edit::DocumentMut, key: &str) -> (r: Result<String, String>)
    ensures
        r is Ok <==> required_text_spec(toml_entries(*doc), key@) is Some,
        r matches Ok(s) ==> required_text_spec(toml_entries(*doc), key@) == Some(s@),
{
    match doc_get_text(doc, key) {
        Some(s) => Ok(s),
        None => {
            if doc_has(doc, key) {
                Err(invalid_type_message(key))
            } else {
                Err(missing_field_message(key))
            }
        },
    }
}

/// `missing field `<key>``.
pub fn missing_field_message(key: &str) -> (r: String)
    ensures
        r@ == "missing field `"@ + key@ + "`"@,
{
    let mut s = String::new();
    s.append("missing field `");
    s.append(key);
    s.append("`");
    s
}

/// Reads an optional string field; the error names the field.
pub fn read_text(doc: &toml_edit::DocumentMut, key: &str) -> (r: Result<Option<String>, String>)
    ensures
        r is Err <==> read_text_spec(toml_entries(*doc), key@) is None,
        r matches Ok(o) ==> read_text_spec(toml_entries(*doc), key@) == Some(opt_view(o)),
{
    if !doc_has(doc, key) {
        return Ok(None);
    }
    match doc_get_text(doc, key) {
        Some(s) => Ok(Some(s)),
        None => Err(invalid_type_message(key)),
    }
}

/// Reads an optional array-of-strings field; the error names the field.
pub fn read_text_list(doc: &toml_edit::DocumentMut, key: &str) -> (r: Result<Option<Vec<String>>, String>)
    ensures
        r is Err <==> read_text_list_spec(toml_entries(*doc), key@) is None,
        r matches Ok(o) ==> read_text_list_spec(toml_entries(*doc), key@) == Some(opt_list_view(o)),
{
    if !doc_has(doc, key) {
        return Ok(None);
    }
    let n = match doc_list_len(doc, key) {
        Some(n) => n,
        None => {
            return Err(invalid_type_message(key));
        },
    };
    let ghost items = match toml_entries(*doc).get(key@) {
        Some(TomlNode::List(items)) => items,
        _ => Seq::empty(),
    };
    let mut out: Vec<String> = Vec::new();
    let mut i: usize = 0;
    while i < n
        invariant
            toml_entries(*doc).get(key@) == Some(TomlNode::List(items)),
            n == items.len(),
            i <= n,
            out@.len() == i,
            forall|j: int| 0 <= j < i ==> (#[trigger] items[j]) == Some(out@[j]@),
        decreases n - i,
    {
        match doc_list_text(doc, key, i) {
            Some(s) => {
                out.push(s);
            },
            None => {
                return Err(invalid_type_message(key));
            },
        }
        i = i + 1;
    }
    assert(out.deep_view() =~= items.map_values(|o: Option<Seq<char>>| o->0));
    Ok(Some(out))
}

/// Reads an optional string field of a table entry that holds a table.
pub(crate) fn read_table_text(doc: &toml_edit::DocumentMut, table: &str, key: &str) -> (r: Result<Option<String>, String>)
    requires
        toml_entries(*doc).get(table@) matches Some(TomlNode::Table(_)),
    ensures
        r is Err <==> read_table_text_spec(toml_entries(*doc).get(table@)->Some_0->Table_0, key@) is None,
        r matches Ok(o) ==> read_table_text_spec(toml_entries(*doc).get(table@)->Some_0->Table_0, key@)
            == Some(opt_view(o)),
{
    if !doc_table_has(doc, table, key) {
        return Ok(None);
    }
    match doc_table_text(doc, table, key) {
        Some(s) => Ok(Some(s)),
        None => Err(invalid_type_message(key)),
    }
}

/// `invalid type for field `<key>``.
pub fn invalid_type_message(key: &str) -> (r: String)
    ensures
        r@ == "invalid type for field `"@ + key@ + "`"@,
{
    let mut s = String::new();
    s.append("invalid type for field `");
    s.append(key);
    s.append("`");
    s
}

} // verus!
