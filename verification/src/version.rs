//! Semantic versions: the library's own record of a `semver::Version`,
//! parsing through the `semver` crate, the lenient parsing used for Blender
//! versions, and the textual form.

use vstd::prelude::*;

use crate::text::{decimal, decimal_string, push_char};

verus! {

/// The plain values of a version: major, minor, patch, pre-release and build
/// metadata (the last two as their text, empty when absent).
pub type VersionModel = (u64, u64, u64, Seq<char>, Seq<char>);

/// A semantic version, holding the fields of `semver::Version`.
#[derive(Debug, Clone, PartialEq, Eq)]
pub struct SemVersion {
    pub major: u64,
    pub minor: u64,
    pub patch: u64,
    pub pre: String,
    pub build: String,
}

impl View for SemVersion {
    type V = VersionModel;

    open spec fn view(&self) -> VersionModel {
        (self.major, self.minor, self.patch, self.pre@, self.build@)
    }
}

/// The text of a version as `semver::Version`'s `Display` writes it:
/// `major.minor.patch`, then `-pre` and `+build` when they are not empty.
pub open spec fn version_text(v: VersionModel) -> Seq<char> {
    decimal(v.0 as nat) + seq!['.'] + decimal(v.1 as nat) + seq!['.'] + decimal(v.2 as nat) + (if v.3.len()
        == 0 {
        Seq::empty()
    } else {
        seq!['-'] + v.3
    }) + (if v.4.len() == 0 {
        Seq::empty()
    } else {
        seq!['+'] + v.4
    })
}

/// `major.minor`, the name Blender gives the data directory of a release.
pub open spec fn major_minor_text(v: VersionModel) -> Seq<char> {
    decimal(v.0 as nat) + seq!['.'] + decimal(v.1 as nat)
}

/// What `semver::Version::parse` gives for a text: the version's plain
/// values, or `None` where it reports an error.
pub uninterp spec fn semver_parse(text: Seq<char>) -> Option<VersionModel>;

/// Calls `semver::Version::parse` and copies the fields of the result.
/// Claimed: success and the fields follow `semver_parse`; a parsed version
/// prints back to exactly the text it was parsed from (the parser rejects
/// leading zeros and keeps the pre-release and build identifiers as written,
/// and `Display` writes them back in the same places). The error message is
/// the `semver::Error`'s text, of which nothing is stated.
#[verifier::external_body]
fn parse_semver(text: &str) -> (r: Result<SemVersion, String>)
    ensures
        r is Ok <==> semver_parse(text@) is Some,
        r matches Ok(v) ==> semver_parse(text@) == Some(v@) && version_text(v@) == text@,
{
    match semver::Version::parse(text) {
        Ok(v) => Ok(
            SemVersion {
                major: v.major,
                minor: v.minor,
                patch: v.patch,
                pre: v.pre.as_str().to_string(),
                build: v.build.as_str().to_string(),
            },
        ),
        Err(e) => Err(e.to_string()),
    }
}

/// The version read leniently: as it stands, else with `.0` appended, else
/// with `.0.0` appended, so that `4.2` and `4` are read as `4.2.0` and `4.0.0`.
pub open spec fn lenient_parse(text: Seq<char>) -> Option<VersionModel> {
    if semver_parse(text) is Some {
        semver_parse(text)
    } else if semver_parse(text + seq!['.', '0']) is Some {
        semver_parse(text + seq!['.', '0'])
    } else {
        semver_parse(text + seq!['.', '0', '.', '0'])
    }
}

impl SemVersion {
    /// Parses a version strictly (`semver::Version::parse`).
    pub fn parse(text: &str) -> (r: Result<SemVersion, String>)
        ensures
            r is Ok <==> semver_parse(text@) is Some,
            r matches Ok(v) ==> semver_parse(text@) == Some(v@) && version_text(v@) == text@,
    {
        parse_semver(text)
    }

    /// Parses a version leniently (see `lenient_parse`); on failure the
    /// error is that of the last attempt.
    pub fn parse_lenient(text: &str) -> (r: Result<SemVersion, String>)
        ensures
            r is Ok <==> lenient_parse(text@) is Some,
            r matches Ok(v) ==> lenient_parse(text@) == Some(v@) && semver_parse(version_text(v@))
                == Some(v@),
    {
        let first = parse_semver(text);
        if first.is_ok() {
            return first;
        }
        let mut with_minor = text.to_owned();
        push_char(&mut with_minor, '.');
        push_char(&mut with_minor, '0');
        assert(with_minor@ == text@ + seq!['.', '0']);
        let second = parse_semver(with_minor.as_str());
        if second.is_ok() {
            return second;
        }
        push_char(&mut with_minor, '.');
        push_char(&mut with_minor, '0');
        assert(with_minor@ == text@ + seq!['.', '0', '.', '0']);
        parse_semver(with_minor.as_str())
    }

    /// A field-by-field copy.
    pub fn duplicate(&self) -> (r: SemVersion)
        ensures
            r@ == self@,
    {
        SemVersion {
            major: self.major,
            minor: self.minor,
            patch: self.patch,
            pre: self.pre.clone(),
            build: self.build.clone(),
        }
    }

    /// The version's text, as `semver::Version`'s `to_string` gives it.
    pub fn to_string(&self) -> (r: String)
        ensures
            r@ == version_text(self@),
    {
        let mut s = decimal_string(self.major);
        push_char(&mut s, '.');
        s.append(decimal_string(self.minor).as_str());
        push_char(&mut s, '.');
        s.append(decimal_string(self.patch).as_str());
        let ghost numbers = s@;
        if self.pre.as_str().unicode_len() > 0 {
            push_char(&mut s, '-');
            s.append(self.pre.as_str());
        }
        let ghost with_pre = s@;
        if self.build.as_str().unicode_len() > 0 {
            push_char(&mut s, '+');
            s.append(self.build.as_str());
        }
        assert(s@ =~= version_text(self@));
        s
    }

    /// `major.minor`, as in `format!("{}.{}", major, minor)`.
    pub fn major_minor(&self) -> (r: String)
        ensures
            r@ == major_minor_text(self@),
            r@ == decimal(self.major as nat) + seq!['.'] + decimal(self.minor as nat),
    {
        let mut s = decimal_string(self.major);
        push_char(&mut s, '.');
        s.append(decimal_string(self.minor).as_str());
        s
    }
}


/// The versions of a list of texts, each read leniently; `None` when any of
/// them cannot be read.
pub open spec fn lenient_parse_all(texts: Seq<Seq<char>>) -> Option<Seq<VersionModel>> {
    if forall|i: int| 0 <= i < texts.len() ==> (#[trigger] lenient_parse(texts[i])) is Some {
        Some(texts.map_values(|t: Seq<char>| lenient_parse(t)->0))
    } else {
        None
    }
}

/// The plain values of a list of versions.
pub open spec fn versions_view(v: Seq<SemVersion>) -> Seq<VersionModel> {
    v.map_values(|x: SemVersion| x@)
}

/// The texts of a list of versions.
pub open spec fn versions_text(v: Seq<VersionModel>) -> Seq<Seq<char>> {
    v.map_values(|x: VersionModel| version_text(x))
}

/// Reads every text leniently, as a list of Blender versions is read; the
/// error is that of the first text that cannot be read.
pub fn parse_lenient_all(texts: &Vec<String>) -> (r: Result<Vec<SemVersion>, String>)
    ensures
        r is Ok <==> lenient_parse_all(texts.deep_view()) is Some,
        r matches Ok(v) ==> lenient_parse_all(texts.deep_view()) == Some(versions_view(v@)),
        r matches Ok(v) ==> forall|i: int|
            0 <= i < v@.len() ==> semver_parse(version_text(#[trigger] v@[i]@)) == Some(v@[i]@),
{
    let mut out: Vec<SemVersion> = Vec::new();
    let mut i: usize = 0;
    while i < texts.len()
        invariant
            i <= texts.len(),
            out@.len() == i,
            forall|j: int| 0 <= j < i ==> lenient_parse(#[trigger] texts.deep_view()[j]) == Some(out@[j]@),
            forall|j: int| 0 <= j < i ==> semver_parse(version_text(#[trigger] out@[j]@)) == Some(out@[j]@),
        decreases texts.len() - i,
    {
        match SemVersion::parse_lenient(texts[i].as_str()) {
            Ok(v) => {
                out.push(v);
            },
            Err(e) => {
                assert(lenient_parse(texts.deep_view()[i as int]) is None);
                return Err(e);
            },
        }
        i = i + 1;
    }
    assert(versions_view(out@) =~= texts.deep_view().map_values(|t: Seq<char>| lenient_parse(t)->0));
    Ok(out)
}

/// The texts of the versions, in order.
pub fn versions_to_strings(v: &Vec<SemVersion>) -> (r: Vec<String>)
    ensures
        r.deep_view() == versions_text(versions_view(v@)),
{
    let mut out: Vec<String> = Vec::new();
    let mut i: usize = 0;
    while i < v.len()
        invariant
            i <= v.len(),
            out@.len() == i,
            forall|j: int| 0 <= j < i ==> (#[trigger] out@[j])@ == version_text(v@[j]@),
        decreases v.len() - i,
    {
        out.push(v[i].to_string());
        i = i + 1;
    }
    assert(out.deep_view() =~= versions_text(versions_view(v@)));
    out
}

/// Copies a list of versions field by field.
pub fn duplicate_all(v: &Vec<SemVersion>) -> (r: Vec<SemVersion>)
    ensures
        versions_view(r@) == versions_view(v@),
{
    let mut out: Vec<SemVersion> = Vec::new();
    let mut i: usize = 0;
    while i < v.len()
        invariant
            i <= v.len(),
            out@.len() == i,
            forall|j: int| 0 <= j < i ==> (#[trigger] out@[j])@ == v@[j]@,
        decreases v.len() - i,
    {
        out.push(v[i].duplicate());
        i = i + 1;
    }
    assert(versions_view(out@) =~= versions_view(v@));
    out
}

/// Blender's directory for a release is named by the major and minor
/// numbers in decimal with a dot between them, for every minor number (`5.0`
/// for 5.0.x, not `5`).
pub proof fn lemma_major_minor_text(v: VersionModel)
    ensures
        major_minor_text(v) == decimal(v.0 as nat) + seq!['.'] + decimal(v.1 as nat),
{
}

} // verus!
