//! `blender_manifest.toml`: the extension's manifest.

use vstd::prelude::*;

use crate::manifests::utility::{set_opt_list, set_opt_text, set_optional, set_optional_list};
use crate::toml_doc::{
    toml_prints_back,
    doc_is_table, doc_has, doc_parse, doc_remove, doc_render, doc_set_inline_table, doc_set_text,
    invalid_type_message, opt_as_str, opt_list_view, opt_view, pair_views, pairs_table,
    read_required_text, read_table_text, read_table_text_spec, read_text, read_text_list,
    read_text_list_spec, read_text_spec, required_text_spec, toml_entries, toml_parse, TomlEntries,
    TomlNode,
};
use crate::version::{semver_parse, version_text, SemVersion, VersionModel};

verus! {

/// Errors in reading or writing the manifest.
#[derive(Debug)]
pub enum BlenderManifestError {
    /// The text is not TOML, or its entries do not make a manifest.
    DeserializeError(String),
    /// The text is not TOML (kept for the document parser's own errors).
    ParseError(String),
    /// Reading or writing the file failed.
    IoError(String),
}

/// The plain values of the permissions: files, network, clipboard, camera,
/// microphone.
pub type PermissionsModel = (
    Option<Seq<char>>,
    Option<Seq<char>>,
    Option<Seq<char>>,
    Option<Seq<char>>,
    Option<Seq<char>>,
);

/// What the extension asks leave to use, each with the reason given.
#[derive(Debug, Clone)]
pub struct Permissions {
    pub files: Option<String>,
    pub network: Option<String>,
    pub clipboard: Option<String>,
    pub camera: Option<String>,
    pub microphone: Option<String>,
}

impl View for Permissions {
    type V = PermissionsModel;

    open spec fn view(&self) -> PermissionsModel {
        (
            opt_view(self.files),
            opt_view(self.network),
            opt_view(self.clipboard),
            opt_view(self.camera),
            opt_view(self.microphone),
        )
    }
}

/// Appends a key/value pair when the value is present.
pub open spec fn push_opt(s: Seq<(Seq<char>, Seq<char>)>, key: Seq<char>, o: Option<Seq<char>>) -> Seq<(Seq<char>, Seq<char>)> {
    match o {
        Some(t) => s.push((key, t)),
        None => s,
    }
}

/// The entries of the permissions' inline table: the present ones, in the
/// order files, network, clipboard, camera, microphone.
pub open spec fn permissions_pairs(p: PermissionsModel) -> Seq<(Seq<char>, Seq<char>)> {
    push_opt(
        push_opt(
            push_opt(push_opt(push_opt(Seq::empty(), "files"@, p.0), "network"@, p.1), "clipboard"@, p.2),
            "camera"@,
            p.3,
        ),
        "microphone"@,
        p.4,
    )
}

/// The permissions a table holds: each of the five keys absent or a string;
/// `None` (an error) when one of them holds anything else.
pub open spec fn permissions_from_table(m: Map<Seq<char>, Option<Seq<char>>>) -> Option<PermissionsModel> {
    let f = read_table_text_spec(m, "files"@);
    let n = read_table_text_spec(m, "network"@);
    let c = read_table_text_spec(m, "clipboard"@);
    let a = read_table_text_spec(m, "camera"@);
    let i = read_table_text_spec(m, "microphone"@);
    if f is Some && n is Some && c is Some && a is Some && i is Some {
        Some((f->0, n->0, c->0, a->0, i->0))
    } else {
        None
    }
}

fn push_pair(out: &mut Vec<(String, String)>, key: &str, val: &Option<String>)
    ensures
        pair_views(final(out)@) == push_opt(pair_views(old(out)@), key@, opt_view(*val)),
{
    match val {
        Some(v) => {
            out.push((key.to_owned(), v.clone()));
            assert(pair_views(out@) =~= pair_views(old(out)@).push((key@, v@)));
        },
        None => {},
    }
}

impl Permissions {
    /// The entries of the permissions' inline table, in the order files,
    /// network, clipboard, camera, microphone, leaving out the absent ones.
    pub fn inline_table_entries(&self) -> (r: Vec<(String, String)>)
        ensures
            pair_views(r@) == permissions_pairs(self@),
    {
        let mut out: Vec<(String, String)> = Vec::new();
        assert(pair_views(out@) =~= Seq::<(Seq<char>, Seq<char>)>::empty());
        push_pair(&mut out, "files", &self.files);
        push_pair(&mut out, "network", &self.network);
        push_pair(&mut out, "clipboard", &self.clipboard);
        push_pair(&mut out, "camera", &self.camera);
        push_pair(&mut out, "microphone", &self.microphone);
        out
    }
}

/// The kind of extension.
#[derive(Debug, Clone, Copy, PartialEq, Eq)]
pub enum ExtensionType {
    AddOn,
    Theme,
}

/// The text of an extension kind in the manifest.
pub open spec fn type_text(t: ExtensionType) -> Seq<char> {
    match t {
        ExtensionType::AddOn => "add-on"@,
        ExtensionType::Theme => "theme"@,
    }
}

/// The extension kind a text names, if any.
pub open spec fn type_from_text(s: Seq<char>) -> Option<ExtensionType> {
    if s == "add-on"@ {
        Some(ExtensionType::AddOn)
    } else if s == "theme"@ {
        Some(ExtensionType::Theme)
    } else {
        None
    }
}

impl ExtensionType {
    /// `add-on` or `theme`.
    pub fn as_str(&self) -> (r: &'static str)
        ensures
            r@ == type_text(*self),
    {
        match self {
            ExtensionType::AddOn => "add-on",
            ExtensionType::Theme => "theme",
        }
    }

    /// The extension kind a text names, if any.
    pub fn from_text(s: &str) -> (r: Option<ExtensionType>)
        ensures
            r == type_from_text(s@),
    {
        let owned = s.to_owned();
        if owned == "add-on".to_owned() {
            Some(ExtensionType::AddOn)
        } else if owned == "theme".to_owned() {
            Some(ExtensionType::Theme)
        } else {
            None
        }
    }
}

/// The plain values of a manifest.
pub struct ManifestModel {
    pub id: Seq<char>,
    pub version: VersionModel,
    pub name: Seq<char>,
    pub maintainer: Seq<char>,
    pub extension_type: ExtensionType,
    pub website: Option<Seq<char>>,
    pub tags: Option<Seq<Seq<char>>>,
    pub blender_version_min: Option<VersionModel>,
    pub blender_version_max: Option<VersionModel>,
    pub wheels: Option<Seq<Seq<char>>>,
    pub permissions: Option<PermissionsModel>,
}

/// The extension's manifest, with the document it was read from so that
/// writing it back keeps every other entry of the file.
#[derive(Debug, Clone)]
pub struct BlenderManifest {
    pub id: String,
    pub version: SemVersion,
    pub name: String,
    pub maintainer: String,
    pub extension_type: ExtensionType,
    pub website: Option<String>,
    pub tags: Option<Vec<String>>,
    pub blender_version_min: Option<SemVersion>,
    pub blender_version_max: Option<SemVersion>,
    pub wheels: Option<Vec<String>>,
    pub permissions: Option<Permissions>,
    /// The document the manifest was read from; writing keeps its other
    /// entries (`lemma_manifest_keeps_other_entries`) and leaves its layout to
    /// `toml_edit`.
    pub doc: toml_edit::DocumentMut,
}

/// The plain values of an optional version.
pub open spec fn opt_version_view(o: Option<SemVersion>) -> Option<VersionModel> {
    match o {
        Some(v) => Some(v@),
        None => None,
    }
}

/// The text of an optional version.
pub open spec fn opt_version_text(o: Option<VersionModel>) -> Option<Seq<char>> {
    match o {
        Some(v) => Some(version_text(v)),
        None => None,
    }
}

impl View for BlenderManifest {
    type V = ManifestModel;

    open spec fn view(&self) -> ManifestModel {
        ManifestModel {
            id: self.id@,
            version: self.version@,
            name: self.name@,
            maintainer: self.maintainer@,
            extension_type: self.extension_type,
            website: opt_view(self.website),
            tags: opt_list_view(self.tags),
            blender_version_min: opt_version_view(self.blender_version_min),
            blender_version_max: opt_version_view(self.blender_version_max),
            wheels: opt_list_view(self.wheels),
            permissions: match self.permissions {
                Some(p) => Some(p@),
                None => None,
            },
        }
    }
}

/// A required version field, read strictly.
pub open spec fn required_version_spec(e: TomlEntries, key: Seq<char>) -> Option<VersionModel> {
    match required_text_spec(e, key) {
        Some(t) => semver_parse(t),
        None => None,
    }
}

/// An optional version field, read strictly: absent, a version, or `None`
/// (an error).
pub open spec fn optional_version_spec(e: TomlEntries, key: Seq<char>) -> Option<Option<VersionModel>> {
    match read_text_spec(e, key) {
        None => None,
        Some(None) => Some(None),
        Some(Some(t)) => match semver_parse(t) {
            Some(v) => Some(Some(v)),
            None => None,
        },
    }
}

/// The optional permissions table: absent, a table of permissions, or
/// `None` (an error).
pub open spec fn read_permissions_spec(e: TomlEntries) -> Option<Option<PermissionsModel>> {
    match e.get("permissions"@) {
        None => Some(None),
        Some(TomlNode::Table(m)) => match permissions_from_table(m) {
            Some(p) => Some(Some(p)),
            None => None,
        },
        Some(_) => None,
    }
}

/// The manifest the entries of a document make, as a deserializer reads it:
/// `id`, `name`, `maintainer` required strings; `version` a required version;
/// `type` `add-on` or `theme`; `website` an optional string; `tags` and
/// `wheels` optional lists of strings; `blender_version_min`/`_max` optional
/// versions; `permissions` an optional table of optional strings; other keys
/// ignored. `None` where any of this fails.
pub open spec fn manifest_from_entries(e: TomlEntries) -> Option<ManifestModel> {
    let id = required_text_spec(e, "id"@);
    let version = required_version_spec(e, "version"@);
    let name = required_text_spec(e, "name"@);
    let maintainer = required_text_spec(e, "maintainer"@);
    let ty = match required_text_spec(e, "type"@) {
        Some(t) => type_from_text(t),
        None => None,
    };
    let website = read_text_spec(e, "website"@);
    let tags = read_text_list_spec(e, "tags"@);
    let min = optional_version_spec(e, "blender_version_min"@);
    let max = optional_version_spec(e, "blender_version_max"@);
    let wheels = read_text_list_spec(e, "wheels"@);
    let permissions = read_permissions_spec(e);
    if id is Some && version is Some && name is Some && maintainer is Some && ty is Some && website is Some
        && tags is Some && min is Some && max is Some && wheels is Some && permissions is Some {
        Some(
            ManifestModel {
                id: id->0,
                version: version->0,
                name: name->0,
                maintainer: maintainer->0,
                extension_type: ty->0,
                website: website->0,
                tags: tags->0,
                blender_version_min: min->0,
                blender_version_max: max->0,
                wheels: wheels->0,
                permissions: permissions->0,
            },
        )
    } else {
        None
    }
}

/// The entries after a manifest is written over a document: the required
/// fields set, each optional one set or removed, versions written as their
/// text, permissions as an inline table of the present ones; every other
/// entry kept.
pub open spec fn manifest_to_entries(m: ManifestModel, e: TomlEntries) -> TomlEntries {
    let e1 = e.insert("id"@, TomlNode::Text(m.id)).insert("version"@, TomlNode::Text(version_text(m.version)));
    let e2 = e1.insert("name"@, TomlNode::Text(m.name)).insert("maintainer"@, TomlNode::Text(m.maintainer));
    let e3 = e2.insert("type"@, TomlNode::Text(type_text(m.extension_type)));
    let e4 = set_opt_list(set_opt_text(e3, "website"@, m.website), "tags"@, m.tags);
    let e5 = set_opt_text(
        set_opt_text(e4, "blender_version_min"@, opt_version_text(m.blender_version_min)),
        "blender_version_max"@,
        opt_version_text(m.blender_version_max),
    );
    let e6 = set_opt_list(e5, "wheels"@, m.wheels);
    match m.permissions {
        Some(p) => e6.insert("permissions"@, TomlNode::Table(pairs_table(permissions_pairs(p)))),
        None => e6.remove("permissions"@),
    }
}

fn read_optional_version(doc: &toml_edit::DocumentMut, key: &str) -> (r: Result<Option<SemVersion>, String>)
    ensures
        r is Ok <==> optional_version_spec(toml_entries(*doc), key@) is Some,
        r matches Ok(o) ==> optional_version_spec(toml_entries(*doc), key@) == Some(opt_version_view(o)),
        r matches Ok(Some(v)) ==> semver_parse(version_text(v@)) == Some(v@),
{
    match read_text(doc, key) {
        Ok(None) => Ok(None),
        Ok(Some(t)) => match SemVersion::parse(t.as_str()) {
            Ok(v) => Ok(Some(v)),
            Err(m) => Err(m),
        },
        Err(m) => Err(m),
    }
}

fn read_permissions(doc: &toml_edit::DocumentMut) -> (r: Result<Option<Permissions>, String>)
    ensures
        r is Ok <==> read_permissions_spec(toml_entries(*doc)) is Some,
        r matches Ok(o) ==> read_permissions_spec(toml_entries(*doc)) == Some(
            match o {
                Some(p) => Some(p@),
                None => None,
            },
        ),
{
    if !doc_has(doc, "permissions") {
        return Ok(None);
    }
    if !doc_is_table(doc, "permissions") {
        return Err(invalid_type_message("permissions"));
    }
    let files = read_table_text(doc, "permissions", "files")?;
    let network = read_table_text(doc, "permissions", "network")?;
    let clipboard = read_table_text(doc, "permissions", "clipboard")?;
    let camera = read_table_text(doc, "permissions", "camera")?;
    let microphone = read_table_text(doc, "permissions", "microphone")?;
    Ok(Some(Permissions { files, network, clipboard, camera, microphone }))
}

fn map_err_deserialize<T>(r: Result<T, String>) -> (out: Result<T, BlenderManifestError>)
    ensures
        r is Ok <==> out is Ok,
        r matches Ok(v) ==> out == Ok::<T, BlenderManifestError>(v),
        out matches Err(e) ==> e is DeserializeError,
{
    match r {
        Ok(v) => Ok(v),
        Err(m) => Err(BlenderManifestError::DeserializeError(m)),
    }
}

impl BlenderManifest {
    /// The entries of the document the manifest keeps.
    pub open spec fn entries(&self) -> TomlEntries {
        toml_entries(self.doc)
    }

    /// Reads the manifest from a parsed document, which it keeps.
    pub(crate) fn from_document(doc: toml_edit::DocumentMut) -> (r: Result<BlenderManifest, BlenderManifestError>)
        ensures
            r is Ok <==> manifest_from_entries(toml_entries(doc)) is Some,
            r matches Ok(b) ==> manifest_from_entries(toml_entries(doc)) == Some(b@) && b.entries()
                == toml_entries(doc),
            r matches Ok(b) ==> manifest_versions_read_back(b@),
            r matches Ok(b) ==> b.doc == doc,
            r matches Err(e) ==> e is DeserializeError,
    {
        let id = map_err_deserialize(read_required_text(&doc, "id"))?;
        let version_text = map_err_deserialize(read_required_text(&doc, "version"))?;
        let version = map_err_deserialize(SemVersion::parse(version_text.as_str()))?;
        let name = map_err_deserialize(read_required_text(&doc, "name"))?;
        let maintainer = map_err_deserialize(read_required_text(&doc, "maintainer"))?;
        let type_text = map_err_deserialize(read_required_text(&doc, "type"))?;
        let extension_type = match ExtensionType::from_text(type_text.as_str()) {
            Some(t) => t,
            None => {
                return Err(BlenderManifestError::DeserializeError(invalid_type_message("type")));
            },
        };
        let website = map_err_deserialize(read_text(&doc, "website"))?;
        let tags = map_err_deserialize(read_text_list(&doc, "tags"))?;
        let blender_version_min = map_err_deserialize(read_optional_version(&doc, "blender_version_min"))?;
        let blender_version_max = map_err_deserialize(read_optional_version(&doc, "blender_version_max"))?;
        let wheels = map_err_deserialize(read_text_list(&doc, "wheels"))?;
        let permissions = map_err_deserialize(read_permissions(&doc))?;
        Ok(
            BlenderManifest {
                id,
                version,
                name,
                maintainer,
                extension_type,
                website,
                tags,
                blender_version_min,
                blender_version_max,
                wheels,
                permissions,
                doc,
            },
        )
    }

    /// Reads the manifest from the text of `blender_manifest.toml`.
    pub fn from_toml(content: &str) -> (r: Result<BlenderManifest, BlenderManifestError>)
        ensures
            r is Ok <==> (toml_parse(content@) matches Some(e) && manifest_from_entries(e) is Some),
            r matches Ok(b) ==> toml_parse(content@) == Some(b.entries()) && manifest_from_entries(
                b.entries(),
            ) == Some(b@),
            r matches Ok(b) ==> manifest_versions_read_back(b@),
            r matches Ok(b) ==> toml_prints_back(b.doc),
            r matches Err(e) ==> e is DeserializeError,
    {
        match doc_parse(content) {
            Ok(doc) => BlenderManifest::from_document(doc),
            Err(m) => Err(BlenderManifestError::DeserializeError(m)),
        }
    }

    /// The document with the manifest written over it.
    pub fn to_document(&self) -> (r: toml_edit::DocumentMut)
        ensures
            toml_entries(r) == manifest_to_entries(self@, self.entries()),
            toml_prints_back(self.doc) ==> toml_prints_back(r),
    {
        let mut doc = self.doc.clone();
        doc_set_text(&mut doc, "id", self.id.as_str());
        let version = self.version.to_string();
        doc_set_text(&mut doc, "version", version.as_str());
        doc_set_text(&mut doc, "name", self.name.as_str());
        doc_set_text(&mut doc, "maintainer", self.maintainer.as_str());
        doc_set_text(&mut doc, "type", self.extension_type.as_str());
        set_optional(&mut doc, "website", opt_as_str(&self.website));
        set_optional_list(&mut doc, "tags", self.tags.as_ref());
        let min: Option<String> = match &self.blender_version_min {
            Some(v) => Some(v.to_string()),
            None => None,
        };
        set_optional(&mut doc, "blender_version_min", opt_as_str(&min));
        let max: Option<String> = match &self.blender_version_max {
            Some(v) => Some(v.to_string()),
            None => None,
        };
        set_optional(&mut doc, "blender_version_max", opt_as_str(&max));
        set_optional_list(&mut doc, "wheels", self.wheels.as_ref());
        match &self.permissions {
            Some(p) => {
                let pairs = p.inline_table_entries();
                doc_set_inline_table(&mut doc, "permissions", &pairs);
            },
            None => doc_remove(&mut doc, "permissions"),
        }
        doc
    }

    /// The text of `blender_manifest.toml` for this manifest. Always `Ok`; the text is
    /// the document of `to_document` as `toml_edit` prints it. When the kept
    /// document prints back (as every document read from a file or made new
    /// does), reading the text gives that document's entries, which make
    /// this manifest again when its versions read back to themselves.
    pub fn to_string(&self) -> (r: Result<String, BlenderManifestError>)
        ensures
            r is Ok,
            r matches Ok(t) && (toml_prints_back(self.doc) ==> toml_parse(t@) == Some(
                manifest_to_entries(self@, self.entries()),
            ) && (manifest_versions_read_back(self@) ==> manifest_from_entries(manifest_to_entries(self@, self.entries())) == Some(self@))),
    {
        let doc = self.to_document();
        proof {
            if manifest_versions_read_back(self@) {
                lemma_manifest_roundtrip(self@, self.entries());
            }
        }
        Ok(doc_render(&doc))
    }
}

/// The keys a manifest is written to.
pub open spec fn manifest_keys() -> Set<Seq<char>> {
    set![
        "id"@,
        "version"@,
        "name"@,
        "maintainer"@,
        "type"@,
        "website"@,
        "tags"@,
        "blender_version_min"@,
        "blender_version_max"@,
        "wheels"@,
        "permissions"@,
    ]
}

/// Whether the manifest's versions each read back to themselves from their
/// text (true of every version that was read from a text).
pub open spec fn manifest_versions_read_back(m: ManifestModel) -> bool {
    &&& semver_parse(version_text(m.version)) == Some(m.version)
    &&& m.blender_version_min matches Some(v) ==> semver_parse(version_text(v)) == Some(v)
    &&& m.blender_version_max matches Some(v) ==> semver_parse(version_text(v)) == Some(v)
}

/// The table of a pair list grown by an optional pair.
proof fn lemma_pairs_table_push_opt(s: Seq<(Seq<char>, Seq<char>)>, key: Seq<char>, o: Option<Seq<char>>)
    ensures
        pairs_table(push_opt(s, key, o)) == match o {
            Some(t) => pairs_table(s).insert(key, Some(t)),
            None => pairs_table(s),
        },
{
    match o {
        Some(t) => {
            assert(s.push((key, t)).drop_last() =~= s);
        },
        None => {},
    }
}

/// The permissions read back from the inline table they are written as.
pub proof fn lemma_permissions_roundtrip(p: PermissionsModel)
    ensures
        permissions_from_table(pairs_table(permissions_pairs(p))) == Some(p),
{
    reveal_strlit("files");
    reveal_strlit("network");
    reveal_strlit("clipboard");
    reveal_strlit("camera");
    reveal_strlit("microphone");
    assert("files"@[0] == 'f' && "network"@[0] == 'n' && "clipboard"@[1] == 'l' && "camera"@[1] == 'a'
        && "microphone"@[0] == 'm' && "clipboard"@[0] == 'c' && "camera"@[0] == 'c');
    let s0 = Seq::<(Seq<char>, Seq<char>)>::empty();
    let s1 = push_opt(s0, "files"@, p.0);
    let s2 = push_opt(s1, "network"@, p.1);
    let s3 = push_opt(s2, "clipboard"@, p.2);
    let s4 = push_opt(s3, "camera"@, p.3);
    lemma_pairs_table_push_opt(s0, "files"@, p.0);
    lemma_pairs_table_push_opt(s1, "network"@, p.1);
    lemma_pairs_table_push_opt(s2, "clipboard"@, p.2);
    lemma_pairs_table_push_opt(s3, "camera"@, p.3);
    lemma_pairs_table_push_opt(s4, "microphone"@, p.4);
}

/// Writing a manifest over any document and reading the entries back gives
/// the same manifest, provided its versions read back to themselves (as
/// every version read from a file does).
pub proof fn lemma_manifest_roundtrip(m: ManifestModel, e: TomlEntries)
    requires
        manifest_versions_read_back(m),
    ensures
        manifest_from_entries(manifest_to_entries(m, e)) == Some(m),
{
    reveal_strlit("id");
    reveal_strlit("version");
    reveal_strlit("name");
    reveal_strlit("maintainer");
    reveal_strlit("type");
    reveal_strlit("website");
    reveal_strlit("tags");
    reveal_strlit("blender_version_min");
    reveal_strlit("blender_version_max");
    reveal_strlit("wheels");
    reveal_strlit("permissions");
    reveal_strlit("add-on");
    reveal_strlit("theme");
    assert("id"@[0] == 'i' && "version"@[0] == 'v' && "name"@[0] == 'n' && "maintainer"@[0] == 'm'
        && "type"@[0] == 't' && "type"@[1] == 'y' && "website"@[0] == 'w' && "website"@[1] == 'e'
        && "tags"@[0] == 't' && "tags"@[1] == 'a' && "blender_version_min"@[0] == 'b'
        && "blender_version_min"@[17] == 'i' && "blender_version_max"@[17] == 'a'
        && "blender_version_max"@[0] == 'b' && "wheels"@[0] == 'w' && "wheels"@[1] == 'h'
        && "permissions"@[0] == 'p');
    assert("add-on"@[0] == 'a' && "theme"@[0] == 't');
    let out = manifest_to_entries(m, e);
    match m.tags {
        Some(ts) => {
            assert(out.get("tags"@) == Some(TomlNode::List(ts.map_values(|t: Seq<char>| Some(t)))));
            assert(ts.map_values(|t: Seq<char>| Some(t)).map_values(|o: Option<Seq<char>>| o->0) =~= ts);
        },
        None => {
            assert(out.get("tags"@) is None);
        },
    }
    match m.wheels {
        Some(ts) => {
            assert(out.get("wheels"@) == Some(TomlNode::List(ts.map_values(|t: Seq<char>| Some(t)))));
            assert(ts.map_values(|t: Seq<char>| Some(t)).map_values(|o: Option<Seq<char>>| o->0) =~= ts);
        },
        None => {
            assert(out.get("wheels"@) is None);
        },
    }
    match m.permissions {
        Some(p) => {
            lemma_permissions_roundtrip(p);
            assert(out.get("permissions"@) == Some(TomlNode::Table(pairs_table(permissions_pairs(p)))));
        },
        None => {
            assert(out.get("permissions"@) is None);
        },
    }
    assert(type_from_text(type_text(m.extension_type)) == Some(m.extension_type));
    let r = manifest_from_entries(out)->0;
    assert(r.tags == m.tags);
    assert(r.wheels == m.wheels);
    assert(r.permissions == m.permissions);
}

/// Writing a manifest changes no entry but the ones it writes.
pub proof fn lemma_manifest_keeps_other_entries(m: ManifestModel, e: TomlEntries)
    ensures
        manifest_to_entries(m, e).remove_keys(manifest_keys()) == e.remove_keys(manifest_keys()),
{
    assert(manifest_to_entries(m, e).remove_keys(manifest_keys()) =~= e.remove_keys(manifest_keys()));
}

impl std::str::FromStr for BlenderManifest {
    type Err = BlenderManifestError;

    fn from_str(content: &str) -> (r: Result<BlenderManifest, BlenderManifestError>)
        ensures
            r is Ok <==> (toml_parse(content@) matches Some(e) && manifest_from_entries(e) is Some),
            r matches Ok(b) ==> toml_parse(content@) == Some(b.entries()) && manifest_from_entries(
                b.entries(),
            ) == Some(b@),
            r matches Ok(b) ==> manifest_versions_read_back(b@),
            r matches Ok(b) ==> toml_prints_back(b.doc),
            r matches Err(e) ==> e is DeserializeError,
    {
        BlenderManifest::from_toml(content)
    }
}

impl BlenderManifestError {
    /// The error's message.
    pub open spec fn message_spec(&self) -> Seq<char> {
        match self {
            BlenderManifestError::DeserializeError(d) => "TOML deserialization error: "@ + d@,
            BlenderManifestError::ParseError(d) => "TOML parse error: "@ + d@,
            BlenderManifestError::IoError(d) => "I/O error: "@ + d@,
        }
    }

    /// The error's message, as it is shown to the user.
    pub fn message(&self) -> (r: String)
        ensures
            r@ == self.message_spec(),
    {
        let mut s = String::new();
        match self {
            BlenderManifestError::DeserializeError(d) => {
                s.append("TOML deserialization error: ");
                s.append(d.as_str());
            },
            BlenderManifestError::ParseError(d) => {
                s.append("TOML parse error: ");
                s.append(d.as_str());
            },
            BlenderManifestError::IoError(d) => {
                s.append("I/O error: ");
                s.append(d.as_str());
            },
        }
        s
    }
}

} // verus!
