//! `bext.toml`: the project's configuration.

use vstd::prelude::*;

use crate::manifests::blender_manifest::BlenderManifest;
use crate::ops::find_files::{ancestor, found_at, search_up_for_file, searched};
use crate::manifests::utility::{set_opt_list, set_opt_text, set_optional, set_optional_list};
use crate::text::{lemma_replace_absent, lemma_replace_whole, replace_all, replace_spec};
use crate::toml_doc::{
    toml_prints_back,
    opt_as_str, doc_new, doc_parse, doc_render, doc_set_text, read_text, read_text_list,
    read_text_list_spec, read_text_spec, missing_field_message, toml_entries, toml_parse, opt_list_view, opt_view,
    TomlEntries, TomlNode,
};
use crate::version::{
    lenient_parse, semver_parse,
    duplicate_all, lenient_parse_all, parse_lenient_all, version_text, versions_text,
    versions_to_strings, versions_view, SemVersion, VersionModel,
};

verus! {

/// Errors in reading or writing the configuration.
#[derive(Debug)]
pub enum BextConfigError {
    /// The text is not TOML, or its entries do not make a configuration.
    DeserializeError(String),
    /// The text is not TOML (kept for the document parser's own errors).
    ParseError(String),
    /// Reading or writing the file failed.
    IoError(String),
    /// No `bext.toml` in the directory tree above the given directory.
    ConfigNotFound(String),
}

/// The plain values of a configuration.
pub struct ConfigModel {
    pub exclude_globs: Option<Seq<Seq<char>>>,
    pub blender_versions: Option<Seq<VersionModel>>,
    pub source_dir: Seq<char>,
    pub output_dir: Option<Seq<char>>,
    pub package_name: Option<Seq<char>>,
}

/// The project's configuration, with the document it was read from so that
/// writing it back keeps every other entry of the file.
#[derive(Debug, Clone)]
pub struct BextConfig {
    pub exclude_globs: Option<Vec<String>>,
    pub blender_versions: Option<Vec<SemVersion>>,
    pub source_dir: String,
    pub output_dir: Option<String>,
    pub package_name: Option<String>,
    /// The document the configuration was read from (empty for a new one);
    /// writing keeps its other entries (`lemma_config_keeps_other_entries`)
    /// and leaves its layout to `toml_edit`.
    pub doc: toml_edit::DocumentMut,
}

impl View for BextConfig {
    type V = ConfigModel;

    open spec fn view(&self) -> ConfigModel {
        ConfigModel {
            exclude_globs: opt_list_view(self.exclude_globs),
            blender_versions: match self.blender_versions {
                Some(v) => Some(versions_view(v@)),
                None => None,
            },
            source_dir: self.source_dir@,
            output_dir: opt_view(self.output_dir),
            package_name: opt_view(self.package_name),
        }
    }
}

/// Whether reading the file with the given path answered `result`.
pub open spec fn file_read<G: Fn(&str) -> Result<String, String>>(
    read_file: G,
    path: Seq<char>,
    result: Result<String, String>,
) -> bool {
    exists|p: &str| p@ == path && #[trigger] read_file.ensures((p,), result)
}

/// The configuration the entries of a document make, as a deserializer reads
/// it: `source_dir` is a required string; `output_dir` and `package_name`
/// optional strings; `exclude_globs` an optional list of strings;
/// `blender_versions` an optional list of strings, each read as a version
/// leniently; other keys are ignored. `None` where any of this fails.
pub open spec fn config_from_entries(e: TomlEntries) -> Option<ConfigModel> {
    let globs = read_text_list_spec(e, "exclude_globs"@);
    let versions = read_text_list_spec(e, "blender_versions"@);
    let source = read_text_spec(e, "source_dir"@);
    let output = read_text_spec(e, "output_dir"@);
    let package = read_text_spec(e, "package_name"@);
    if globs is None || versions is None || source is None || output is None || package is None {
        None
    } else if source->0 is None {
        None
    } else {
        let parsed: Option<Option<Seq<VersionModel>>> = match versions->0 {
            None => Some(None),
            Some(texts) => match lenient_parse_all(texts) {
                Some(vs) => Some(Some(vs)),
                None => None,
            },
        };
        match parsed {
            None => None,
            Some(vs) => Some(
                ConfigModel {
                    exclude_globs: globs->0,
                    blender_versions: vs,
                    source_dir: source->0->0,
                    output_dir: output->0,
                    package_name: package->0,
                },
            ),
        }
    }
}

/// The entries after a configuration is written over a document: each
/// optional field set or removed, `source_dir` set, versions written as
/// their full text; every other entry kept.
pub open spec fn config_to_entries(m: ConfigModel, e: TomlEntries) -> TomlEntries {
    let e1 = set_opt_list(e, "exclude_globs"@, m.exclude_globs);
    let e2 = set_opt_list(
        e1,
        "blender_versions"@,
        match m.blender_versions {
            Some(vs) => Some(versions_text(vs)),
            None => None,
        },
    );
    let e3 = set_opt_text(e2, "output_dir"@, m.output_dir);
    let e4 = set_opt_text(e3, "package_name"@, m.package_name);
    e4.insert("source_dir"@, TomlNode::Text(m.source_dir))
}

/// The package file name for a template (`{name}` when there is none): each
/// of `{id}`, `{name}`, `{version}`, `{maintainer}` replaced in that order.
pub open spec fn package_name_spec(
    template: Option<Seq<char>>,
    id: Seq<char>,
    name: Seq<char>,
    version: Seq<char>,
    maintainer: Seq<char>,
) -> Seq<char> {
    let t = match template {
        Some(t) => t,
        None => "{name}"@,
    };
    replace_spec(
        replace_spec(replace_spec(replace_spec(t, "{id}"@, id), "{name}"@, name), "{version}"@, version),
        "{maintainer}"@,
        maintainer,
    )
}

impl BextConfig {
    /// The entries of the document the configuration keeps.
    pub open spec fn entries(&self) -> TomlEntries {
        toml_entries(self.doc)
    }

    /// A configuration for `source_dir` with no optional field, over an empty
    /// document.
    pub fn new(source_dir: String) -> (r: BextConfig)
        ensures
            r@ == (ConfigModel {
                exclude_globs: None,
                blender_versions: None,
                source_dir: source_dir@,
                output_dir: None,
                package_name: None,
            }),
            r.entries().dom() == Set::<Seq<char>>::empty(),
            toml_prints_back(r.doc),
    {
        BextConfig {
            exclude_globs: None,
            blender_versions: None,
            source_dir,
            output_dir: None,
            package_name: None,
            doc: doc_new(),
        }
    }

    /// Reads the configuration from a parsed document, which it keeps.
    pub(crate) fn from_document(doc: toml_edit::DocumentMut) -> (r: Result<BextConfig, BextConfigError>)
        ensures
            r is Ok <==> config_from_entries(toml_entries(doc)) is Some,
            r matches Ok(c) ==> config_from_entries(toml_entries(doc)) == Some(c@) && c.entries()
                == toml_entries(doc),
            r matches Ok(c) ==> versions_read_back(c@),
            r matches Ok(c) ==> c.doc == doc,
            r matches Err(e) ==> e is DeserializeError,
    {
        let exclude_globs = match read_text_list(&doc, "exclude_globs") {
            Ok(v) => v,
            Err(m) => {
                return Err(BextConfigError::DeserializeError(m));
            },
        };
        let version_texts = match read_text_list(&doc, "blender_versions") {
            Ok(v) => v,
            Err(m) => {
                return Err(BextConfigError::DeserializeError(m));
            },
        };
        let source_dir = match read_text(&doc, "source_dir") {
            Ok(Some(s)) => s,
            Ok(None) => {
                return Err(BextConfigError::DeserializeError(missing_field_message("source_dir")));
            },
            Err(m) => {
                return Err(BextConfigError::DeserializeError(m));
            },
        };
        let output_dir = match read_text(&doc, "output_dir") {
            Ok(v) => v,
            Err(m) => {
                return Err(BextConfigError::DeserializeError(m));
            },
        };
        let package_name = match read_text(&doc, "package_name") {
            Ok(v) => v,
            Err(m) => {
                return Err(BextConfigError::DeserializeError(m));
            },
        };
        let blender_versions = match version_texts {
            None => None,
            Some(texts) => match parse_lenient_all(&texts) {
                Ok(vs) => Some(vs),
                Err(m) => {
                    return Err(BextConfigError::DeserializeError(m));
                },
            },
        };
        Ok(BextConfig { exclude_globs, blender_versions, source_dir, output_dir, package_name, doc })
    }

    /// Reads the configuration from the text of `bext.toml`.
    pub fn from_toml(content: &str) -> (r: Result<BextConfig, BextConfigError>)
        ensures
            r is Ok <==> (toml_parse(content@) matches Some(e) && config_from_entries(e) is Some),
            r matches Ok(c) ==> toml_parse(content@) == Some(c.entries()) && config_from_entries(
                c.entries(),
            ) == Some(c@),
            r matches Ok(c) ==> versions_read_back(c@),
            r matches Ok(c) ==> toml_prints_back(c.doc),
            r matches Err(e) ==> e is DeserializeError,
    {
        match doc_parse(content) {
            Ok(doc) => BextConfig::from_document(doc),
            Err(m) => Err(BextConfigError::DeserializeError(m)),
        }
    }

    /// Finds `bext.toml` in `search_start` or the nearest directory above it
    /// (asking `search_dir` to look in one directory), reads it with
    /// `read_file` and parses it; `ConfigNotFound` with the start directory
    /// when no directory up the tree holds one.
    pub fn from_config_search<F: Fn(&str, &str) -> Option<String>, G: Fn(&str) -> Result<String, String>>(
        search_start: &str,
        search_dir: F,
        read_file: G,
    ) -> (r: Result<BextConfig, BextConfigError>)
        requires
            forall|d: &str, n: &str| search_dir.requires((d, n)),
            forall|p: &str| read_file.requires((p,)),
        ensures
            match r {
                Err(BextConfigError::ConfigNotFound(s)) => s@ == search_start@ && forall|k: nat|
                    #[trigger] ancestor(search_start@, k) is Some ==> searched(
                        search_dir,
                        ancestor(search_start@, k)->0,
                        "bext.toml",
                        None,
                    ),
                Err(BextConfigError::IoError(m)) => exists|k: nat, path: String|
                    #[trigger] found_at(search_dir, search_start@, "bext.toml", k, path) && file_read(
                        read_file,
                        path@,
                        Err(m),
                    ),
                Err(BextConfigError::DeserializeError(_)) => exists|k: nat, path: String, content: String|
                    #![trigger found_at(search_dir, search_start@, "bext.toml", k, path), file_read(read_file, path@, Ok(content))]
                    found_at(search_dir, search_start@, "bext.toml", k, path) && file_read(
                        read_file,
                        path@,
                        Ok(content),
                    ) && !(toml_parse(content@) matches Some(e) && config_from_entries(e) is Some),
                Err(BextConfigError::ParseError(_)) => false,
                Ok(c) => exists|k: nat, path: String, content: String|
                    #![trigger found_at(search_dir, search_start@, "bext.toml", k, path), file_read(read_file, path@, Ok(content))]
                    found_at(search_dir, search_start@, "bext.toml", k, path) && file_read(
                        read_file,
                        path@,
                        Ok(content),
                    ) && toml_parse(content@) == Some(c.entries()) && config_from_entries(c.entries())
                        == Some(c@),
            },
    {
        match search_up_for_file(search_start, "bext.toml", search_dir) {
            Some(path) => {
                let ghost k = choose|k: nat| found_at(search_dir, search_start@, "bext.toml", k, path);
                let read = read_file(path.as_str());
                assert(file_read(read_file, path@, read));
                match read {
                    Ok(content) => {
                        let parsed = BextConfig::from_toml(content.as_str());
                        assert(found_at(search_dir, search_start@, "bext.toml", k, path));
                        parsed
                    },
                    Err(m) => {
                        assert(found_at(search_dir, search_start@, "bext.toml", k, path));
                        Err(BextConfigError::IoError(m))
                    },
                }
            },
            None => Err(BextConfigError::ConfigNotFound(search_start.to_owned())),
        }
    }

    /// The document with the configuration written over it.
    pub fn to_document(&self) -> (r: toml_edit::DocumentMut)
        ensures
            toml_entries(r) == config_to_entries(self@, self.entries()),
            toml_prints_back(self.doc) ==> toml_prints_back(r),
    {
        let mut doc = self.doc.clone();
        set_optional_list(&mut doc, "exclude_globs", self.exclude_globs.as_ref());
        let version_texts: Option<Vec<String>> = match &self.blender_versions {
            Some(vs) => Some(versions_to_strings(vs)),
            None => None,
        };
        set_optional_list(&mut doc, "blender_versions", version_texts.as_ref());
        set_optional(&mut doc, "output_dir", opt_as_str(&self.output_dir));
        set_optional(&mut doc, "package_name", opt_as_str(&self.package_name));
        doc_set_text(&mut doc, "source_dir", self.source_dir.as_str());
        doc
    }

    /// The text of `bext.toml` for this configuration. Always `Ok`; the text is
    /// the document of `to_document` as `toml_edit` prints it. When the kept
    /// document prints back (as every document read from a file or made new
    /// does), reading the text gives that document's entries, which make
    /// this configuration again when its versions read back to themselves.
    pub fn to_string(&self) -> (r: Result<String, BextConfigError>)
        ensures
            r is Ok,
            r matches Ok(t) && (toml_prints_back(self.doc) ==> toml_parse(t@) == Some(
                config_to_entries(self@, self.entries()),
            ) && (versions_read_back(self@) ==> config_from_entries(config_to_entries(self@, self.entries())) == Some(self@))),
    {
        let doc = self.to_document();
        proof {
            if versions_read_back(self@) {
                lemma_config_roundtrip(self@, self.entries());
            }
        }
        Ok(doc_render(&doc))
    }

    /// The name of the package file: the `package_name` template (`{name}`
    /// when there is none) with the manifest's id, name, version and
    /// maintainer put in place of `{id}`, `{name}`, `{version}` and
    /// `{maintainer}`, in that order.
    pub fn resolve_package_name(&self, blender_manifest: &BlenderManifest) -> (r: String)
        ensures
            r@ == package_name_spec(
                opt_view(self.package_name),
                blender_manifest.id@,
                blender_manifest.name@,
                version_text(blender_manifest.version@),
                blender_manifest.maintainer@,
            ),
    {
        proof {
            reveal_strlit("{id}");
            reveal_strlit("{name}");
            reveal_strlit("{version}");
            reveal_strlit("{maintainer}");
        }
        let template: &str = match &self.package_name {
            Some(t) => t.as_str(),
            None => "{name}",
        };
        let s1 = replace_all(template, "{id}", blender_manifest.id.as_str());
        let s2 = replace_all(s1.as_str(), "{name}", blender_manifest.name.as_str());
        let version = blender_manifest.version.to_string();
        let s3 = replace_all(s2.as_str(), "{version}", version.as_str());
        replace_all(s3.as_str(), "{maintainer}", blender_manifest.maintainer.as_str())
    }
}

/// The keys a configuration is written to.
pub open spec fn config_keys() -> Set<Seq<char>> {
    set!["exclude_globs"@, "blender_versions"@, "source_dir"@, "output_dir"@, "package_name"@]
}

/// Whether every Blender version of the configuration reads back to itself
/// from its text (true of every version that was read from a text).
pub open spec fn versions_read_back(m: ConfigModel) -> bool {
    m.blender_versions matches Some(vs) ==> forall|i: int|
        0 <= i < vs.len() ==> semver_parse(version_text(#[trigger] vs[i])) == Some(vs[i])
}

/// Reading the configuration's own list of versions back from their texts
/// gives the list.
proof fn lemma_versions_read_back(vs: Seq<VersionModel>)
    requires
        forall|i: int| 0 <= i < vs.len() ==> semver_parse(version_text(#[trigger] vs[i])) == Some(vs[i]),
    ensures
        lenient_parse_all(versions_text(vs)) == Some(vs),
{
    let ts = versions_text(vs);
    assert forall|i: int| 0 <= i < ts.len() implies (#[trigger] lenient_parse(ts[i])) is Some by {
        assert(ts[i] == version_text(vs[i]));
    }
    assert(ts.map_values(|t: Seq<char>| lenient_parse(t)->0) =~= vs);
}

/// Writing a configuration over any document and reading the entries back
/// gives the same configuration, provided each of its Blender versions reads
/// back to itself (as every version read from a file does).
pub proof fn lemma_config_roundtrip(m: ConfigModel, e: TomlEntries)
    requires
        versions_read_back(m),
    ensures
        config_from_entries(config_to_entries(m, e)) == Some(m),
{
    reveal_strlit("exclude_globs");
    reveal_strlit("blender_versions");
    reveal_strlit("source_dir");
    reveal_strlit("output_dir");
    reveal_strlit("package_name");
    assert("exclude_globs"@[0] == 'e' && "blender_versions"@[0] == 'b' && "output_dir"@[0] == 'o'
        && "package_name"@[0] == 'p' && "source_dir"@[0] == 's');
    assert("exclude_globs"@ != "blender_versions"@ && "exclude_globs"@ != "output_dir"@
        && "exclude_globs"@ != "package_name"@ && "exclude_globs"@ != "source_dir"@);
    assert("blender_versions"@ != "output_dir"@ && "blender_versions"@ != "package_name"@
        && "blender_versions"@ != "source_dir"@);
    assert("output_dir"@ != "package_name"@ && "output_dir"@ != "source_dir"@);
    assert("package_name"@ != "source_dir"@);
    let out = config_to_entries(m, e);
    match m.exclude_globs {
        Some(gs) => {
            assert(out.get("exclude_globs"@) == Some(
                TomlNode::List(gs.map_values(|t: Seq<char>| Some(t))),
            ));
            assert(gs.map_values(|t: Seq<char>| Some(t)).map_values(|o: Option<Seq<char>>| o->0)
                =~= gs);
        },
        None => {
            assert(out.get("exclude_globs"@) is None);
        },
    }
    match m.blender_versions {
        Some(vs) => {
            lemma_versions_read_back(vs);
            let ts = versions_text(vs);
            assert(out.get("blender_versions"@) == Some(
                TomlNode::List(ts.map_values(|t: Seq<char>| Some(t))),
            ));
            assert(ts.map_values(|t: Seq<char>| Some(t)).map_values(|o: Option<Seq<char>>| o->0)
                =~= ts);
        },
        None => {
            assert(out.get("blender_versions"@) is None);
        },
    }
}

/// Writing a configuration changes no entry but the five it writes.
pub proof fn lemma_config_keeps_other_entries(m: ConfigModel, e: TomlEntries)
    ensures
        config_to_entries(m, e).remove_keys(config_keys()) == e.remove_keys(config_keys()),
{
    assert(config_to_entries(m, e).remove_keys(config_keys()) =~= e.remove_keys(config_keys()));
}

/// A package-name template with no `{` names the package as it stands.
pub proof fn lemma_template_without_placeholders(
    t: Seq<char>,
    id: Seq<char>,
    name: Seq<char>,
    version: Seq<char>,
    maintainer: Seq<char>,
)
    requires
        !t.contains('{'),
    ensures
        package_name_spec(Some(t), id, name, version, maintainer) == t,
{
    reveal_strlit("{id}");
    reveal_strlit("{name}");
    reveal_strlit("{version}");
    reveal_strlit("{maintainer}");
    lemma_replace_absent(t, "{id}"@, id);
    lemma_replace_absent(t, "{name}"@, name);
    lemma_replace_absent(t, "{version}"@, version);
    lemma_replace_absent(t, "{maintainer}"@, maintainer);
}

/// Without a template the package is named after the extension's name (when
/// the name holds no `{`).
pub proof fn lemma_default_package_name(
    id: Seq<char>,
    name: Seq<char>,
    version: Seq<char>,
    maintainer: Seq<char>,
)
    requires
        !name.contains('{'),
    ensures
        package_name_spec(None, id, name, version, maintainer) == name,
{
    reveal_strlit("{id}");
    reveal_strlit("{name}");
    reveal_strlit("{version}");
    reveal_strlit("{maintainer}");
    let t = "{name}"@;
    let tail = t.skip(1);
    assert(t.take(4)[1] != "{id}"@[1]);
    assert forall|c: char| tail.contains(c) implies c != '{' by {
        let k = choose|k: int| 0 <= k < tail.len() && tail[k] == c;
        assert(tail[k] == t[k + 1]);
    }
    lemma_replace_absent(tail, "{id}"@, id);
    assert(seq![t[0]] + tail =~= t);
    assert(replace_spec(t, "{id}"@, id) == t);
    lemma_replace_whole(t, name);
    lemma_replace_absent(name, "{version}"@, version);
    lemma_replace_absent(name, "{maintainer}"@, maintainer);
}

impl std::str::FromStr for BextConfig {
    type Err = BextConfigError;

    fn from_str(content: &str) -> (r: Result<BextConfig, BextConfigError>)
        ensures
            r is Ok <==> (toml_parse(content@) matches Some(e) && config_from_entries(e) is Some),
            r matches Ok(c) ==> toml_parse(content@) == Some(c.entries()) && config_from_entries(
                c.entries(),
            ) == Some(c@),
            r matches Ok(c) ==> versions_read_back(c@),
            r matches Ok(c) ==> toml_prints_back(c.doc),
            r matches Err(e) ==> e is DeserializeError,
    {
        BextConfig::from_toml(content)
    }
}

impl BextConfigError {
    /// The error's message.
    pub open spec fn message_spec(&self) -> Seq<char> {
        match self {
            BextConfigError::DeserializeError(d) => "TOML deserialization error: "@ + d@,
            BextConfigError::ParseError(d) => "TOML parse error: "@ + d@,
            BextConfigError::IoError(d) => "I/O error: "@ + d@,
            BextConfigError::ConfigNotFound(d) => "Config file not found in directory tree starting from: "@ + d@,
        }
    }

    /// The error's message, as it is shown to the user.
    pub fn message(&self) -> (r: String)
        ensures
            r@ == self.message_spec(),
    {
        let mut s = String::new();
        match self {
            BextConfigError::DeserializeError(d) => {
                s.append("TOML deserialization error: ");
                s.append(d.as_str());
            },
            BextConfigError::ParseError(d) => {
                s.append("TOML parse error: ");
                s.append(d.as_str());
            },
            BextConfigError::IoError(d) => {
                s.append("I/O error: ");
                s.append(d.as_str());
            },
            BextConfigError::ConfigNotFound(d) => {
                s.append("Config file not found in directory tree starting from: ");
                s.append(d.as_str());
            },
        }
        s
    }
}

} // verus!
