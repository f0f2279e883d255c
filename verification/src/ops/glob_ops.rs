//! Glob patterns (through the `glob` crate) and the choice of what
//! `bext clean` deletes.

use vstd::prelude::*;

verus! {

/// Errors of compiling patterns and deleting files.
#[derive(Debug)]
pub enum GlobDeleteError {
    /// Deleting a file or directory failed.
    IoError(String),
    /// A pattern did not compile.
    GlobError(String),
}

/// Whether `glob::Pattern::new` accepts the text.
pub uninterp spec fn glob_valid(pattern: Seq<char>) -> bool;

/// Whether the pattern compiled from the first text matches the second
/// (`glob::Pattern::matches`, default options).
pub uninterp spec fn glob_match(pattern: Seq<char>, candidate: Seq<char>) -> bool;

/// `glob::Pattern::new(pattern).is_ok()`. Claimed: the result is
/// `glob_valid` of the text.
#[verifier::external_body]
fn glob_compiles(pattern: &str) -> (r: bool)
    ensures
        r == glob_valid(pattern@),
{
    glob::Pattern::new(pattern).is_ok()
}

/// `glob::Pattern::matches` on the pattern compiled from the text (which
/// compiles, so the fallback `false` is never taken). Claimed: the result is
/// `glob_match` of the two texts.
#[verifier::external_body]
fn glob_matches(pattern: &str, candidate: &str) -> (r: bool)
    requires
        glob_valid(pattern@),
    ensures
        r == glob_match(pattern@, candidate@),
{
    glob::Pattern::new(pattern).map_or(false, |p| p.matches(candidate))
}

/// A glob pattern that compiles.
#[derive(Debug)]
pub struct GlobPattern {
    source: String,
}

impl View for GlobPattern {
    type V = Seq<char>;

    closed spec fn view(&self) -> Seq<char> {
        self.source@
    }
}

impl GlobPattern {
    #[verifier::type_invariant]
    spec fn compiles(self) -> bool {
        glob_valid(self.source@)
    }

    /// The pattern of a text, when it compiles.
    pub fn new(pattern: &str) -> (r: Option<GlobPattern>)
        ensures
            r is Some <==> glob_valid(pattern@),
            r matches Some(p) ==> p@ == pattern@,
    {
        if glob_compiles(pattern) {
            Some(GlobPattern { source: pattern.to_owned() })
        } else {
            None
        }
    }

    /// The text the pattern was compiled from.
    pub fn as_str(&self) -> (r: &str)
        ensures
            r@ == self@,
            glob_valid(r@),
    {
        proof {
            use_type_invariant(self);
        }
        self.source.as_str()
    }

    /// Whether the pattern matches the text.
    pub fn matches(&self, candidate: &str) -> (r: bool)
        ensures
            r == glob_match(self@, candidate@),
    {
        proof {
            use_type_invariant(self);
        }
        glob_matches(self.source.as_str(), candidate)
    }
}

/// The texts of a list of patterns.
pub open spec fn patterns_view(ps: Seq<GlobPattern>) -> Seq<Seq<char>> {
    ps.map_values(|p: GlobPattern| p@)
}

/// Whether some pattern of the list matches the text.
pub open spec fn any_match(ps: Seq<Seq<char>>, candidate: Seq<char>) -> bool {
    exists|i: int| 0 <= i < ps.len() && glob_match(#[trigger] ps[i], candidate)
}

/// Compiles the patterns, leaving out those that do not compile; never
/// fails.
pub fn compile_string_globs(globs: &Vec<String>) -> (r: Result<Vec<GlobPattern>, GlobDeleteError>)
    ensures
        r matches Ok(ps) && patterns_view(ps@) == globs.deep_view().filter(|g: Seq<char>| glob_valid(g)),
{
    let ghost pred = |g: Seq<char>| glob_valid(g);
    let mut out: Vec<GlobPattern> = Vec::new();
    let mut i: usize = 0;
    while i < globs.len()
        invariant
            i <= globs.len(),
            pred == (|g: Seq<char>| glob_valid(g)),
            patterns_view(out@) == globs.deep_view().take(i as int).filter(pred),
        decreases globs.len() - i,
    {
        proof {
            reveal_with_fuel(Seq::<_>::filter, 1);
            assert(globs.deep_view().take(i + 1).drop_last() =~= globs.deep_view().take(i as int));
        }
        match GlobPattern::new(globs[i].as_str()) {
            Some(p) => {
                out.push(p);
                assert(patterns_view(out@) =~= globs.deep_view().take(i as int).filter(pred).push(
                    globs.deep_view()[i as int],
                ));
            },
            None => {},
        }
        i = i + 1;
    }
    assert(globs.deep_view().take(globs.len() as int) =~= globs.deep_view());
    Ok(out)
}

/// Whether some pattern matches the text.
pub fn matches_any(patterns: &Vec<GlobPattern>, candidate: &str) -> (r: bool)
    ensures
        r == any_match(patterns_view(patterns@), candidate@),
        r <==> exists|i: int| 0 <= i < patterns@.len() && glob_match(#[trigger] patterns@[i]@, candidate@),
{
    let mut i: usize = 0;
    while i < patterns.len()
        invariant
            i <= patterns.len(),
            forall|j: int| 0 <= j < i ==> !glob_match(#[trigger] patterns_view(patterns@)[j], candidate@),
        decreases patterns.len() - i,
    {
        if patterns[i].matches(candidate) {
            assert(glob_match(patterns_view(patterns@)[i as int], candidate@));
            assert(glob_match(patterns@[i as int]@, candidate@));
            return true;
        }
        i = i + 1;
    }
    proof {
        lemma_any_match(patterns@, candidate@);
    }
    false
}

/// Some pattern of a list matches a text exactly when the pattern at some
/// position of the list does.
pub proof fn lemma_any_match(ps: Seq<GlobPattern>, candidate: Seq<char>)
    ensures
        any_match(patterns_view(ps), candidate) <==> exists|i: int|
            0 <= i < ps.len() && glob_match(#[trigger] ps[i]@, candidate),
{
    if any_match(patterns_view(ps), candidate) {
        let i = choose|i: int| 0 <= i < patterns_view(ps).len() && glob_match(patterns_view(ps)[i], candidate);
        assert(glob_match(ps[i]@, candidate));
    }
    if exists|i: int| 0 <= i < ps.len() && glob_match(#[trigger] ps[i]@, candidate) {
        let i = choose|i: int| 0 <= i < ps.len() && glob_match(#[trigger] ps[i]@, candidate);
        assert(patterns_view(ps)[i] == ps[i]@);
    }
}

/// What `bext clean` does with one entry of the source tree.
#[derive(Debug, Clone, Copy, PartialEq, Eq)]
pub enum DeleteAction {
    /// Delete the file.
    RemoveFile,
    /// Delete the directory and all it holds.
    RemoveDirAll,
    /// Leave it.
    Keep,
}

/// The action for an entry, given its file name (`None` when it has none or
/// it is not UTF-8) and whether it is a file or a directory: an entry whose
/// name some pattern matches is deleted.
pub open spec fn delete_action_spec(
    file_name: Option<Seq<char>>,
    is_file: bool,
    is_dir: bool,
    patterns: Seq<Seq<char>>,
) -> DeleteAction {
    match file_name {
        Some(n) => if any_match(patterns, n) {
            if is_file {
                DeleteAction::RemoveFile
            } else if is_dir {
                DeleteAction::RemoveDirAll
            } else {
                DeleteAction::Keep
            }
        } else {
            DeleteAction::Keep
        },
        None => DeleteAction::Keep,
    }
}

/// The action for one entry of the walk over the source tree.
pub fn glob_delete_action(file_name: Option<&str>, is_file: bool, is_dir: bool, patterns: &Vec<GlobPattern>) -> (r: DeleteAction)
    ensures
        r == delete_action_spec(
            match file_name {
                Some(n) => Some(n@),
                None => None,
            },
            is_file,
            is_dir,
            patterns_view(patterns@),
        ),
        r != DeleteAction::Keep ==> (file_name matches Some(n) && exists|i: int|
            0 <= i < patterns@.len() && glob_match(#[trigger] patterns@[i]@, n@)),
        (file_name matches Some(n) && exists|i: int|
            0 <= i < patterns@.len() && glob_match(#[trigger] patterns@[i]@, n@)) ==> (if is_file {
            r == DeleteAction::RemoveFile
        } else if is_dir {
            r == DeleteAction::RemoveDirAll
        } else {
            r == DeleteAction::Keep
        }),
{
    proof {
        if let Some(n) = file_name {
            lemma_any_match(patterns@, n@);
        }
    }
    match file_name {
        Some(name) => {
            if matches_any(patterns, name) {
                if is_file {
                    DeleteAction::RemoveFile
                } else if is_dir {
                    DeleteAction::RemoveDirAll
                } else {
                    DeleteAction::Keep
                }
            } else {
                DeleteAction::Keep
            }
        },
        None => DeleteAction::Keep,
    }
}

impl GlobDeleteError {
    /// The error's message.
    pub open spec fn message_spec(&self) -> Seq<char> {
        match self {
            GlobDeleteError::IoError(d) => "I/O error: "@ + d@,
            GlobDeleteError::GlobError(d) => "Glob pattern error: "@ + d@,
        }
    }

    /// The error's message, as it is shown to the user.
    pub fn message(&self) -> (r: String)
        ensures
            r@ == self.message_spec(),
    {
        let mut s = String::new();
        match self {
            GlobDeleteError::IoError(d) => {
                s.append("I/O error: ");
                s.append(d.as_str());
            },
            GlobDeleteError::GlobError(d) => {
                s.append("Glob pattern error: ");
                s.append(d.as_str());
            },
        }
        s
    }
}

/// `bext clean` deletes an entry only when some pattern matches its name,
/// and then deletes it as a file or as a directory, whichever it is; an
/// entry with no UTF-8 name, or whose name no pattern matches, is kept.
pub proof fn lemma_delete_only_matching(
    name: Option<Seq<char>>,
    is_file: bool,
    is_dir: bool,
    ps: Seq<Seq<char>>,
)
    ensures
        delete_action_spec(name, is_file, is_dir, ps) != DeleteAction::Keep ==> (name matches Some(n)
            && exists|i: int| 0 <= i < ps.len() && glob_match(#[trigger] ps[i], n)),
        (name matches Some(n) && exists|i: int| 0 <= i < ps.len() && glob_match(#[trigger] ps[i], n)) ==> (
        if is_file {
            delete_action_spec(name, is_file, is_dir, ps) == DeleteAction::RemoveFile
        } else if is_dir {
            delete_action_spec(name, is_file, is_dir, ps) == DeleteAction::RemoveDirAll
        } else {
            delete_action_spec(name, is_file, is_dir, ps) == DeleteAction::Keep
        }),
{
}

} // verus!
