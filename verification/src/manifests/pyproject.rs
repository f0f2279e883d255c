//! `pyproject.toml`: the Python project's name and version.

use vstd::prelude::*;

use crate::toml_doc::{
    toml_prints_back,
    doc_has, doc_is_table, doc_parse, doc_render, doc_set_table_text, invalid_type_message,
    missing_field_message, read_table_text, read_table_text_spec, toml_entries, toml_parse, TomlEntries,
    TomlNode,
};

verus! {

/// Errors in reading or writing `pyproject.toml`.
#[derive(Debug)]
pub enum PyProjectError {
    /// The text is not TOML, or its entries do not make a project.
    DeserializeError(String),
    /// The text is not TOML (kept for the document parser's own errors).
    ParseError(String),
    /// Reading or writing the file failed.
    IoError(String),
}

/// The normal form `pep440_rs` gives a version text (the text of the
/// `pep440_rs::Version` it parses to), or `None` where it is no PEP 440
/// version.
pub uninterp spec fn pep440_normal_form(text: Seq<char>) -> Option<Seq<char>>;

/// Parses a text with `pep440_rs::Version::from_str` and prints the version
/// back (`to_string`), the normal form. Claimed: success and the text follow
/// `pep440_normal_form`, and the normal form is its own normal form (the
/// crate's `Display` "shows normalized version", which parses back to the
/// same version); nothing is stated of the error's text.
#[verifier::external_body]
fn normalize_pep440(text: &str) -> (r: Result<String, String>)
    ensures
        r is Ok <==> pep440_normal_form(text@) is Some,
        r matches Ok(s) ==> pep440_normal_form(text@) == Some(s@) && pep440_normal_form(s@) == Some(s@),
{
    text.parse::<pep440_rs::Version>().map(|v| v.to_string()).map_err(|e| e.to_string())
}

/// A Python package version (PEP 440), kept in its normal form.
#[derive(Debug, PartialEq, Eq)]
pub struct PyVersion {
    text: String,
}

impl View for PyVersion {
    type V = Seq<char>;

    closed spec fn view(&self) -> Seq<char> {
        self.text@
    }
}

impl PyVersion {
    /// The text is a version in its normal form.
    #[verifier::type_invariant]
    spec fn normal(self) -> bool {
        pep440_normal_form(self.text@) == Some(self.text@)
    }

    /// Parses a version; it is kept in the normal form.
    pub fn parse(text: &str) -> (r: Result<PyVersion, String>)
        ensures
            r is Ok <==> pep440_normal_form(text@) is Some,
            r matches Ok(v) ==> pep440_normal_form(text@) == Some(v@),
    {
        match normalize_pep440(text) {
            Ok(s) => Ok(PyVersion { text: s }),
            Err(m) => Err(m),
        }
    }

    /// The version's text, which is in normal form.
    pub fn as_str(&self) -> (r: &str)
        ensures
            r@ == self@,
            pep440_normal_form(r@) == Some(r@),
    {
        proof {
            use_type_invariant(self);
        }
        self.text.as_str()
    }
}

impl Clone for PyVersion {
    fn clone(&self) -> (r: PyVersion)
        ensures
            r@ == self@,
    {
        proof {
            use_type_invariant(self);
        }
        PyVersion { text: self.text.clone() }
    }
}

/// The `[project]` table: the package's name and version.
#[derive(Debug, Clone)]
pub struct Project {
    pub name: String,
    pub version: PyVersion,
}

/// The project file, with the document it was read from so that writing it
/// back keeps every other entry of the file.
#[derive(Debug, Clone)]
pub struct PyProject {
    pub project: Project,
    /// The document the project was read from; writing changes only the name
    /// and version in `project` and leaves its layout to `toml_edit`.
    pub doc: toml_edit::DocumentMut,
}

impl View for PyProject {
    type V = (Seq<char>, Seq<char>);

    open spec fn view(&self) -> (Seq<char>, Seq<char>) {
        (self.project.name@, self.project.version@)
    }
}

/// The project's name and version the entries make: `project` must be a
/// table with a string `name` and a string `version` that is a PEP 440
/// version (kept in its normal form). `None` where any of this fails.
pub open spec fn project_from_entries(e: TomlEntries) -> Option<(Seq<char>, Seq<char>)> {
    match e.get("project"@) {
        Some(TomlNode::Table(m)) => match (read_table_text_spec(m, "name"@), read_table_text_spec(m, "version"@)) {
            (Some(Some(name)), Some(Some(version))) => match pep440_normal_form(version) {
                Some(v) => Some((name, v)),
                None => None,
            },
            _ => None,
        },
        _ => None,
    }
}

/// Whether `project` can be written into: a table, or absent.
pub open spec fn project_writable(e: TomlEntries) -> bool {
    match e.get("project"@) {
        Some(TomlNode::Table(_)) => true,
        None => true,
        _ => false,
    }
}

/// The table `project` holds (empty when absent).
pub open spec fn project_table(e: TomlEntries) -> Map<Seq<char>, Option<Seq<char>>> {
    match e.get("project"@) {
        Some(TomlNode::Table(m)) => m,
        _ => Map::empty(),
    }
}

/// The entries after the name and version are written into `project`;
/// every other entry, and every other key of the table, kept.
pub open spec fn project_to_entries(m: (Seq<char>, Seq<char>), e: TomlEntries) -> TomlEntries {
    e.insert(
        "project"@,
        TomlNode::Table(project_table(e).insert("name"@, Some(m.0)).insert("version"@, Some(m.1))),
    )
}

fn read_required_table_text(doc: &toml_edit::DocumentMut, table: &str, key: &str) -> (r: Result<String, String>)
    requires
        toml_entries(*doc).get(table@) matches Some(TomlNode::Table(_)),
    ensures
        r is Ok <==> read_table_text_spec(toml_entries(*doc).get(table@)->Some_0->Table_0, key@) matches Some(Some(_)),
        r matches Ok(s) ==> read_table_text_spec(toml_entries(*doc).get(table@)->Some_0->Table_0, key@)
            == Some(Some(s@)),
{
    match read_table_text(doc, table, key) {
        Ok(Some(s)) => Ok(s),
        Ok(None) => Err(missing_field_message(key)),
        Err(m) => Err(m),
    }
}

impl PyProject {
    /// The entries of the document the project keeps.
    pub open spec fn entries(&self) -> TomlEntries {
        toml_entries(self.doc)
    }

    /// Reads the project from a parsed document, which it keeps.
    pub(crate) fn from_document(doc: toml_edit::DocumentMut) -> (r: Result<PyProject, PyProjectError>)
        ensures
            r is Ok <==> project_from_entries(toml_entries(doc)) is Some,
            r matches Ok(p) ==> project_from_entries(toml_entries(doc)) == Some(p@) && p.entries()
                == toml_entries(doc),
            r matches Ok(p) ==> p.doc == doc,
            r matches Err(e) ==> e is DeserializeError,
    {
        if !doc_has(&doc, "project") {
            return Err(PyProjectError::DeserializeError(missing_field_message("project")));
        }
        if !doc_is_table(&doc, "project") {
            return Err(PyProjectError::DeserializeError(invalid_type_message("project")));
        }
        let name = match read_required_table_text(&doc, "project", "name") {
            Ok(s) => s,
            Err(m) => {
                return Err(PyProjectError::DeserializeError(m));
            },
        };
        let version_text = match read_required_table_text(&doc, "project", "version") {
            Ok(s) => s,
            Err(m) => {
                return Err(PyProjectError::DeserializeError(m));
            },
        };
        let version = match PyVersion::parse(version_text.as_str()) {
            Ok(v) => v,
            Err(m) => {
                return Err(PyProjectError::DeserializeError(m));
            },
        };
        Ok(PyProject { project: Project { name, version }, doc })
    }

    /// Reads the project from the text of `pyproject.toml`.
    pub fn from_toml(content: &str) -> (r: Result<PyProject, PyProjectError>)
        ensures
            r is Ok <==> (toml_parse(content@) matches Some(e) && project_from_entries(e) is Some),
            r matches Ok(p) ==> toml_parse(content@) == Some(p.entries()) && project_from_entries(
                p.entries(),
            ) == Some(p@),
            r matches Ok(p) ==> toml_prints_back(p.doc),
            r matches Err(e) ==> e is DeserializeError,
    {
        match doc_parse(content) {
            Ok(doc) => PyProject::from_document(doc),
            Err(m) => Err(PyProjectError::DeserializeError(m)),
        }
    }

    /// Whether the name and version can be written into the document: its
    /// `project` entry is a table or absent.
    pub fn is_writable(&self) -> (r: bool)
        ensures
            r == project_writable(self.entries()),
    {
        !doc_has(&self.doc, "project") || doc_is_table(&self.doc, "project")
    }

    /// The document with the name and version written into `project`.
    pub fn to_document(&self) -> (r: toml_edit::DocumentMut)
        requires
            project_writable(self.entries()),
        ensures
            toml_entries(r) == project_to_entries(self@, self.entries()),
            toml_prints_back(self.doc) ==> toml_prints_back(r),
    {
        let mut doc = self.doc.clone();
        doc_set_table_text(&mut doc, "project", "name", self.project.name.as_str());
        doc_set_table_text(&mut doc, "project", "version", self.project.version.as_str());
        doc
    }

    /// The text of `pyproject.toml` for this project. Always `Ok`; the text is
    /// the document of `to_document` as `toml_edit` prints it. When the kept
    /// document prints back (as every document read from a file or made new
    /// does), reading the text gives that document's entries, which make
    /// this project again.
    pub fn to_string(&self) -> (r: Result<String, PyProjectError>)
        requires
            project_writable(self.entries()),
        ensures
            r is Ok,
            r matches Ok(t) && (toml_prints_back(self.doc) ==> toml_parse(t@) == Some(
                project_to_entries(self@, self.entries()),
            ) && project_from_entries(project_to_entries(self@, self.entries())) == Some(self@)),
    {
        let doc = self.to_document();
        proof {
            use_type_invariant(&self.project.version);
            lemma_project_roundtrip(self@, self.entries());
        }
        Ok(doc_render(&doc))
    }
}

/// A project read from a document can be written back into it.
pub proof fn lemma_read_project_writable(e: TomlEntries)
    requires
        project_from_entries(e) is Some,
    ensures
        project_writable(e),
{
}

/// Writing the name and version into any writable document and reading the
/// entries back gives them again, provided the version is in normal form (as
/// every version read from a file is).
pub proof fn lemma_project_roundtrip(m: (Seq<char>, Seq<char>), e: TomlEntries)
    requires
        project_writable(e),
        pep440_normal_form(m.1) == Some(m.1),
    ensures
        project_from_entries(project_to_entries(m, e)) == Some(m),
{
    reveal_strlit("name");
    reveal_strlit("version");
    assert("name"@[0] == 'n' && "version"@[0] == 'v');
}

impl std::str::FromStr for PyProject {
    type Err = PyProjectError;

    fn from_str(content: &str) -> (r: Result<PyProject, PyProjectError>)
        ensures
            r is Ok <==> (toml_parse(content@) matches Some(e) && project_from_entries(e) is Some),
            r matches Ok(p) ==> toml_parse(content@) == Some(p.entries()) && project_from_entries(
                p.entries(),
            ) == Some(p@),
            r matches Ok(p) ==> toml_prints_back(p.doc),
            r matches Err(e) ==> e is DeserializeError,
    {
        PyProject::from_toml(content)
    }
}

impl PyProjectError {
    /// The error's message.
    pub open spec fn message_spec(&self) -> Seq<char> {
        match self {
            PyProjectError::DeserializeError(d) => "TOML deserialization error: "@ + d@,
            PyProjectError::ParseError(d) => "TOML parse error: "@ + d@,
            PyProjectError::IoError(d) => "I/O error: "@ + d@,
        }
    }

    /// The error's message, as it is shown to the user.
    pub fn message(&self) -> (r: String)
        ensures
            r@ == self.message_spec(),
    {
        let mut s = String::new();
        match self {
            PyProjectError::DeserializeError(d) => {
                s.append("TOML deserialization error: ");
                s.append(d.as_str());
            },
            PyProjectError::ParseError(d) => {
                s.append("TOML parse error: ");
                s.append(d.as_str());
            },
            PyProjectError::IoError(d) => {
                s.append("I/O error: ");
                s.append(d.as_str());
            },
        }
        s
    }
}

} // verus!
