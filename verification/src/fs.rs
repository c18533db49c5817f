//! Workspace boundary policy for filesystem tools.
//!
//! Paths are plain strings (Unix paths).  Canonicalisation touches the disk, so
//! the caller performs it and hands the outcome to the policy, which decides.
use vstd::prelude::*;

use crate::text::{chars_vec, push_char, push_str};
use crate::tools::{annotations, declares, make_definition, prefixed_error, tool_error, ToolDefinition, ToolError};
use crate::edit::{render_hashed_content, rendered_content};

verus! {

/// Whether `p` is absolute: on Unix, whether it starts with the root `/`.
pub open spec fn is_absolute(p: Seq<char>) -> bool {
    p.len() > 0 && p[0] == '/'
}

/// `base.join(p)`: `p` itself when absolute, otherwise `p` appended to `base`
/// with one separator unless `base` is empty or already ends with one.
pub open spec fn join_path(base: Seq<char>, p: Seq<char>) -> Seq<char> {
    if is_absolute(p) {
        p
    } else if base.len() == 0 || base.last() == '/' {
        base + p
    } else {
        base + seq!['/'] + p
    }
}

/// Joins `p` onto `base` as `Path::join` does.
pub fn join(base: &str, p: &str) -> (r: String)
    ensures
        r@ == join_path(base@, p@),
{
    let pc = chars_vec(p);
    if pc.len() > 0 && pc[0] == '/' {
        return p.to_owned();
    }
    let bc = chars_vec(base);
    let mut r = base.to_owned();
    if bc.len() > 0 && bc[bc.len() - 1] != '/' {
        push_char(&mut r, '/');
    }
    push_str(&mut r, p);
    r
}

/// Whether `base` is a prefix of `path` by whole components (`Path::starts_with`).
pub uninterp spec fn path_starts_with(path: Seq<char>, base: Seq<char>) -> bool;

/// The parent of `path` (`Path::parent`).
pub uninterp spec fn path_parent(path: Seq<char>) -> Option<Seq<char>>;

/// The final component of `path`, when it is a normal name (`Path::file_name`).
pub uninterp spec fn path_file_name(path: Seq<char>) -> Option<Seq<char>>;

/// `Path::starts_with` of std.  Trusted: the answer is named
/// `path_starts_with`; what it is on given paths is not stated here.
#[verifier::external_body]
pub(crate) fn starts_with_components(path: &str, base: &str) -> (r: bool)
    ensures
        r == path_starts_with(path@, base@),
{
    std::path::Path::new(path).starts_with(base)
}

/// `Path::parent` of std, rendered back to a string.  Trusted: the answer is
/// named `path_parent`.
#[verifier::external_body]
pub(crate) fn parent_of(path: &str) -> (r: Option<String>)
    ensures
        match r {
            Some(s) => path_parent(path@) == Some(s@),
            None => path_parent(path@) is None,
        },
{
    std::path::Path::new(path).parent().map(|p| p.to_string_lossy().into_owned())
}

/// `Path::file_name` of std, rendered back to a string.  Trusted: the answer
/// is named `path_file_name`.
#[verifier::external_body]
pub(crate) fn file_name_of(path: &str) -> (r: Option<String>)
    ensures
        match r {
            Some(s) => path_file_name(path@) == Some(s@),
            None => path_file_name(path@) is None,
        },
{
    std::path::Path::new(path).file_name().map(|n| n.to_string_lossy().into_owned())
}

/// Confines filesystem access to a workspace root.
pub struct FsPolicy {
    pub workspace_root: String,
}

/// Why a path was refused.
pub enum FsPolicyError {
    /// The path has no parent directory.
    InvalidPath(String),
    /// Canonicalising `path` failed with `message`.
    Io { path: String, message: String },
    /// The canonical path lies outside the canonical workspace root.
    EscapesWorkspace { path: String, root: String },
}

impl FsPolicyError {
    /// The message shown for this error.
    pub open spec fn message(&self) -> Seq<char> {
        match self {
            FsPolicyError::InvalidPath(p) => "invalid path: "@ + p@,
            FsPolicyError::Io { path, message } => "filesystem IO error on "@ + path@ + ": "@ + message@,
            FsPolicyError::EscapesWorkspace { path, root } => "path "@ + path@ + " escapes workspace root "@ + root@,
        }
    }

    /// Renders the error as its message.
    pub fn to_string(&self) -> (s: String)
        ensures
            s@ == self.message(),
    {
        match self {
            FsPolicyError::InvalidPath(p) => {
                let mut s = "invalid path: ".to_owned();
                push_str(&mut s, p.as_str());
                s
            },
            FsPolicyError::Io { path, message } => {
                let mut s = "filesystem IO error on ".to_owned();
                push_str(&mut s, path.as_str());
                push_str(&mut s, ": ");
                push_str(&mut s, message.as_str());
                s
            },
            FsPolicyError::EscapesWorkspace { path, root } => {
                let mut s = "path ".to_owned();
                push_str(&mut s, path.as_str());
                push_str(&mut s, " escapes workspace root ");
                push_str(&mut s, root.as_str());
                s
            },
        }
    }
}

/// `r` is the error `Io` for `path` and `message`.
pub open spec fn is_io_error(r: FsPolicyError, path: Seq<char>, message: Seq<char>) -> bool {
    r matches FsPolicyError::Io { path: p, message: m } && p@ == path && m@ == message
}

/// `r` is the error `EscapesWorkspace` for `path` under `root`.
pub open spec fn is_escape_error(r: FsPolicyError, path: Seq<char>, root: Seq<char>) -> bool {
    r matches FsPolicyError::EscapesWorkspace { path: p, root: q } && p@ == path && q@ == root
}

/// The outcome of canonicalising a path: the canonical path or an error text.
pub open spec fn outcome_view(o: Result<String, String>) -> Result<Seq<char>, Seq<char>> {
    match o {
        Ok(s) => Ok(s@),
        Err(e) => Err(e@),
    }
}

impl FsPolicy {
    pub fn new(workspace_root: String) -> (p: Self)
        ensures
            p.workspace_root@ == workspace_root@,
    {
        FsPolicy { workspace_root }
    }

    /// The candidate as it is looked up: itself when absolute, otherwise
    /// joined onto the workspace root.
    pub open spec fn joined_spec(&self, candidate: Seq<char>) -> Seq<char> {
        join_path(self.workspace_root@, candidate)
    }

    /// The path to canonicalise for `candidate`.
    pub fn joined(&self, candidate: &str) -> (r: String)
        ensures
            r@ == self.joined_spec(candidate@),
    {
        join(self.workspace_root.as_str(), candidate)
    }

    /// Checks that an already canonical `candidate` lies under the workspace
    /// root, given the outcome of canonicalising the root.
    pub fn ensure_within_root(&self, candidate: &str, canonical_root: &Result<String, String>) -> (r: Result<(), FsPolicyError>)
        ensures
            match outcome_view(*canonical_root) {
                Err(e) => r matches Err(x) && is_io_error(x, self.workspace_root@, e),
                Ok(root) => if path_starts_with(candidate@, root) {
                    r is Ok
                } else {
                    r matches Err(x) && is_escape_error(x, candidate@, root)
                },
            },
    {
        match canonical_root {
            Err(e) => Err(FsPolicyError::Io { path: self.workspace_root.clone(), message: e.clone() }),
            Ok(root) => {
                if starts_with_components(candidate, root.as_str()) {
                    Ok(())
                } else {
                    Err(FsPolicyError::EscapesWorkspace { path: candidate.to_owned(), root: root.clone() })
                }
            },
        }
    }

    /// Resolves an existing path: `canonical` is the outcome of canonicalising
    /// `self.joined(candidate)`, `canonical_root` that of the workspace root.
    /// The canonical path is returned when it lies under the canonical root.
    pub fn resolve_existing(
        &self,
        candidate: &str,
        canonical: &Result<String, String>,
        canonical_root: &Result<String, String>,
    ) -> (r: Result<String, FsPolicyError>)
        ensures
            match outcome_view(*canonical) {
                Err(e) => r matches Err(x) && is_io_error(x, self.joined_spec(candidate@), e),
                Ok(c) => match outcome_view(*canonical_root) {
                    Err(e) => r matches Err(x) && is_io_error(x, self.workspace_root@, e),
                    Ok(root) => if path_starts_with(c, root) {
                        r matches Ok(s) && s@ == c
                    } else {
                        r matches Err(x) && is_escape_error(x, c, root)
                    },
                },
            },
    {
        match canonical {
            Err(e) => Err(FsPolicyError::Io { path: self.joined(candidate), message: e.clone() }),
            Ok(c) => {
                match self.ensure_within_root(c.as_str(), canonical_root) {
                    Ok(()) => Ok(c.clone()),
                    Err(x) => Err(x),
                }
            },
        }
    }

    /// The directory to canonicalise before a write to `candidate`: the parent
    /// of the joined path, or `InvalidPath` when it has none.
    pub fn write_parent(&self, candidate: &str) -> (r: Result<String, FsPolicyError>)
        ensures
            match path_parent(self.joined_spec(candidate@)) {
                Some(p) => r matches Ok(s) && s@ == p,
                None => r matches Err(FsPolicyError::InvalidPath(s)) && s@ == self.joined_spec(candidate@),
            },
    {
        let joined = self.joined(candidate);
        match parent_of(joined.as_str()) {
            Some(p) => Ok(p),
            None => Err(FsPolicyError::InvalidPath(joined)),
        }
    }

    /// What a write resolution returns: `InvalidPath` without a parent, the
    /// canonicalisation error of the parent or the root, `EscapesWorkspace`
    /// outside the root, and otherwise the canonical parent joined with the
    /// candidate's file name.
    pub open spec fn write_resolution(
        &self,
        candidate: Seq<char>,
        canonical_parent: Result<String, String>,
        canonical_root: Result<String, String>,
        r: Result<String, FsPolicyError>,
    ) -> bool {
        match path_parent(self.joined_spec(candidate)) {
            None => r matches Err(FsPolicyError::InvalidPath(s)) && s@ == self.joined_spec(candidate),
            Some(parent) => match outcome_view(canonical_parent) {
                Err(e) => r matches Err(x) && is_io_error(x, parent, e),
                Ok(cp) => match outcome_view(canonical_root) {
                    Err(e) => r matches Err(x) && is_io_error(x, self.workspace_root@, e),
                    Ok(root) => if path_starts_with(cp, root) {
                        r matches Ok(s) && s@ == join_path(cp, path_file_name(self.joined_spec(candidate))->0)
                    } else {
                        r matches Err(x) && is_escape_error(x, cp, root)
                    },
                },
            },
        }
    }

    /// Resolves a path to be written: `canonical_parent` is the outcome of
    /// canonicalising `self.write_parent(candidate)`, `canonical_root` that of
    /// the workspace root.  The result is the canonical parent joined with the
    /// file name of the candidate.  A candidate whose joined path ends in `..`
    /// has no file name and is refused by the precondition (taking its
    /// file name would panic).
    pub fn resolve_for_write(
        &self,
        candidate: &str,
        canonical_parent: &Result<String, String>,
        canonical_root: &Result<String, String>,
    ) -> (r: Result<String, FsPolicyError>)
        requires
            path_parent(self.joined_spec(candidate@)) is Some && outcome_view(*canonical_parent) is Ok
                && outcome_view(*canonical_root) is Ok
                && path_starts_with(outcome_view(*canonical_parent)->Ok_0, outcome_view(*canonical_root)->Ok_0)
                ==> path_file_name(self.joined_spec(candidate@)) is Some,
        ensures
            self.write_resolution(candidate@, *canonical_parent, *canonical_root, r),
    {
        let joined = self.joined(candidate);
        let parent = match parent_of(joined.as_str()) {
            Some(p) => p,
            None => return Err(FsPolicyError::InvalidPath(joined)),
        };
        let cp = match canonical_parent {
            Err(e) => return Err(FsPolicyError::Io { path: parent, message: e.clone() }),
            Ok(cp) => cp,
        };
        match self.ensure_within_root(cp.as_str(), canonical_root) {
            Err(x) => return Err(x),
            Ok(()) => {},
        }
        let name = match file_name_of(joined.as_str()) {
            Some(n) => n,
            None => {
                assert(false);
                return Err(FsPolicyError::InvalidPath(joined));
            },
        };
        Ok(join(cp.as_str(), name.as_str()))
    }

    /// Whether a write resolution would take the file name of a joined
    /// candidate that has none: the parent and the root canonicalise, the
    /// parent lies within the root, and the joined path ends in `..`.
    pub open spec fn write_lacks_name(
        &self,
        candidate: Seq<char>,
        canonical_parent: Result<String, String>,
        canonical_root: Result<String, String>,
    ) -> bool {
        &&& path_parent(self.joined_spec(candidate)) is Some
        &&& outcome_view(canonical_parent) is Ok
        &&& outcome_view(canonical_root) is Ok
        &&& path_starts_with(outcome_view(canonical_parent)->Ok_0, outcome_view(canonical_root)->Ok_0)
        &&& path_file_name(self.joined_spec(candidate)) is None
    }

    /// Resolves a path to be written, or `None` exactly where the resolution
    /// would reach a joined candidate without a file name (one ending in
    /// `..` whose parent lies within the root).
    pub fn try_resolve_for_write(
        &self,
        candidate: &str,
        canonical_parent: &Result<String, String>,
        canonical_root: &Result<String, String>,
    ) -> (r: Option<Result<String, FsPolicyError>>)
        ensures
            self.write_lacks_name(candidate@, *canonical_parent, *canonical_root) <==> r is None,
            r matches Some(x) ==> self.write_resolution(candidate@, *canonical_parent, *canonical_root, x),
    {
        let joined = self.joined(candidate);
        let named = match file_name_of(joined.as_str()) {
            Some(_) => true,
            None => false,
        };
        let has_parent = match parent_of(joined.as_str()) {
            Some(_) => true,
            None => false,
        };
        let lacks = if named || !has_parent {
            false
        } else {
            match (canonical_parent, canonical_root) {
                (Ok(cp), Ok(root)) => starts_with_components(cp.as_str(), root.as_str()),
                _ => false,
            }
        };
        if lacks {
            None
        } else {
            Some(self.resolve_for_write(candidate, canonical_parent, canonical_root))
        }
    }
}

/// `path` with the leading components `base` removed (`Path::strip_prefix`),
/// or `None` when `base` is not a component prefix of it.
pub uninterp spec fn path_strip_prefix(path: Seq<char>, base: Seq<char>) -> Option<Seq<char>>;

/// `Path::strip_prefix` of std, rendered back to a string.  Trusted: the
/// answer is named `path_strip_prefix`.
#[verifier::external_body]
pub(crate) fn strip_prefix_of(path: &str, base: &str) -> (r: Option<String>)
    ensures
        match r {
            Some(s) => path_strip_prefix(path@, base@) == Some(s@),
            None => path_strip_prefix(path@, base@) is None,
        },
{
    std::path::Path::new(path).strip_prefix(base).ok().map(|p| p.display().to_string())
}

impl FsPolicy {
    /// `resolve_existing` for tool `tool`: a refusal becomes the tool's
    /// error carrying the refusal's message.
    pub fn resolve_existing_for(
        &self,
        tool: &str,
        candidate: &str,
        canonical: &Result<String, String>,
        canonical_root: &Result<String, String>,
    ) -> (r: Result<String, ToolError>)
        ensures
            match outcome_view(*canonical) {
                Err(e) => r matches Err(x) && x.tool_name@ == tool@
                    && x.message@ == "filesystem IO error on "@ + self.joined_spec(candidate@) + ": "@ + e,
                Ok(c) => match outcome_view(*canonical_root) {
                    Err(e) => r matches Err(x) && x.tool_name@ == tool@
                        && x.message@ == "filesystem IO error on "@ + self.workspace_root@ + ": "@ + e,
                    Ok(root) => if path_starts_with(c, root) {
                        r matches Ok(s) && s@ == c
                    } else {
                        r matches Err(x) && x.tool_name@ == tool@
                            && x.message@ == "path "@ + c + " escapes workspace root "@ + root
                    },
                },
            },
    {
        match self.resolve_existing(candidate, canonical, canonical_root) {
            Ok(p) => Ok(p),
            Err(e) => Err(tool_error(tool, e.to_string())),
        }
    }
}

/// Reads a file inside the workspace and returns it with line tags.
pub struct ReadFileTool {
    pub policy: FsPolicy,
}

impl ReadFileTool {
    pub fn new(policy: FsPolicy) -> (t: Self)
        ensures
            t.policy == policy,
    {
        ReadFileTool { policy }
    }

    pub fn definition(&self) -> (d: ToolDefinition)
        ensures
            declares(d, "read_file"@,
                "Reads a file from the filesystem. Returns content with line numbers and hashes for editing."@,
                "{\"type\":\"object\",\"properties\":{\"path\":{\"type\":\"string\",\"description\":\"Path to the file\"}},\"required\":[\"path\"]}"@,
                "Read File"@, (true, false, true, false, false), "filesystem"@, ("fs"@, "read"@), 30),
    {
        make_definition("read_file",
            "Reads a file from the filesystem. Returns content with line numbers and hashes for editing.",
            "{\"type\":\"object\",\"properties\":{\"path\":{\"type\":\"string\",\"description\":\"Path to the file\"}},\"required\":[\"path\"]}",
            "Read File", annotations(true, false, true, false, false), "filesystem", "fs", "read", 30)
    }

    /// The tool's answer once the resolved file was read: its content with
    /// line tags, or the read error.
    pub fn render(&self, read: Result<String, String>) -> (r: Result<String, ToolError>)
        ensures
            match read {
                Ok(c) => r matches Ok(s) && s@ == rendered_content(c@),
                Err(e) => r matches Err(x) && x.tool_name@ == "read_file"@ && x.message@ == "Failed to read file: "@ + e@,
            },
    {
        match read {
            Ok(c) => Ok(render_hashed_content(c.as_str())),
            Err(e) => Err(prefixed_error("read_file", "Failed to read file: ", e.as_str())),
        }
    }
}

/// Writes a whole file inside the workspace.
pub struct WriteFileTool {
    pub policy: FsPolicy,
}

impl WriteFileTool {
    pub fn new(policy: FsPolicy) -> (t: Self)
        ensures
            t.policy == policy,
    {
        WriteFileTool { policy }
    }

    pub fn definition(&self) -> (d: ToolDefinition)
        ensures
            declares(d, "write_file"@, "Writes content to a file, overwriting it completely."@,
                "{\"type\":\"object\",\"properties\":{\"path\":{\"type\":\"string\",\"description\":\"Path to the file\"},\"content\":{\"type\":\"string\",\"description\":\"Content to write\"}},\"required\":[\"path\",\"content\"]}"@,
                "Write File"@, (false, true, false, false, false), "filesystem"@, ("fs"@, "write"@), 30),
    {
        make_definition("write_file", "Writes content to a file, overwriting it completely.",
            "{\"type\":\"object\",\"properties\":{\"path\":{\"type\":\"string\",\"description\":\"Path to the file\"},\"content\":{\"type\":\"string\",\"description\":\"Content to write\"}},\"required\":[\"path\",\"content\"]}",
            "Write File", annotations(false, true, false, false, false), "filesystem", "fs", "write", 30)
    }
}

/// Lists a directory inside the workspace.
pub struct ListDirTool {
    pub policy: FsPolicy,
}

impl ListDirTool {
    pub fn new(policy: FsPolicy) -> (t: Self)
        ensures
            t.policy == policy,
    {
        ListDirTool { policy }
    }

    pub fn definition(&self) -> (d: ToolDefinition)
        ensures
            declares(d, "list_dir"@, "Lists contents of a directory."@,
                "{\"type\":\"object\",\"properties\":{\"path\":{\"type\":\"string\",\"description\":\"Path to the directory\"}},\"required\":[\"path\"]}"@,
                "List Directory"@, (true, false, true, false, false), "filesystem"@, ("fs"@, "list"@), 30),
    {
        make_definition("list_dir", "Lists contents of a directory.",
            "{\"type\":\"object\",\"properties\":{\"path\":{\"type\":\"string\",\"description\":\"Path to the directory\"}},\"required\":[\"path\"]}",
            "List Directory", annotations(true, false, true, false, false), "filesystem", "fs", "list", 30)
    }

    /// The kind reported for an entry.
    pub fn entry_kind(is_dir: bool) -> (k: &'static str)
        ensures
            k@ == (if is_dir { "dir"@ } else { "file"@ }),
    {
        if is_dir { "dir" } else { "file" }
    }
}

/// A search path as reported: relative to the workspace root when it lies
/// under it, otherwise the path itself.
pub open spec fn reported_path(root: Seq<char>, path: Seq<char>) -> Seq<char> {
    match path_strip_prefix(path, root) {
        Some(rel) => rel,
        None => path,
    }
}

/// Finds files by glob pattern inside the workspace.
pub struct GlobTool {
    pub policy: FsPolicy,
}

impl GlobTool {
    pub fn new(policy: FsPolicy) -> (t: Self)
        ensures
            t.policy == policy,
    {
        GlobTool { policy }
    }

    pub fn definition(&self) -> (d: ToolDefinition)
        ensures
            declares(d, "glob"@, "Search for files matching a glob pattern within the workspace."@,
                "{\"type\":\"object\",\"properties\":{\"pattern\":{\"type\":\"string\",\"description\":\"Glob pattern (e.g. **/*.rs)\"},\"path\":{\"type\":\"string\",\"description\":\"Base directory (optional, defaults to workspace root)\"}},\"required\":[\"pattern\"]}"@,
                "Glob Search"@, (true, false, true, false, false), "filesystem"@, ("fs"@, "search"@), 30),
    {
        make_definition("glob", "Search for files matching a glob pattern within the workspace.",
            "{\"type\":\"object\",\"properties\":{\"pattern\":{\"type\":\"string\",\"description\":\"Glob pattern (e.g. **/*.rs)\"},\"path\":{\"type\":\"string\",\"description\":\"Base directory (optional, defaults to workspace root)\"}},\"required\":[\"pattern\"]}",
            "Glob Search", annotations(true, false, true, false, false), "filesystem", "fs", "search", 30)
    }

    /// The directory searched: the `path` argument, or the workspace root.
    pub fn base_dir(&self, path: Option<&str>) -> (r: String)
        ensures
            r@ == (match path { Some(p) => p@, None => self.policy.workspace_root@ }),
    {
        match path {
            Some(p) => p.to_owned(),
            None => self.policy.workspace_root.clone(),
        }
    }

    /// The pattern handed to the glob walker: the pattern joined onto the
    /// resolved base directory.
    pub fn full_pattern(base_dir: &str, pattern: &str) -> (r: String)
        ensures
            r@ == join_path(base_dir@, pattern@),
    {
        join(base_dir, pattern)
    }

    /// A match as reported.
    pub fn report(&self, path: &str) -> (r: String)
        ensures
            r@ == reported_path(self.policy.workspace_root@, path@),
    {
        match strip_prefix_of(path, self.policy.workspace_root.as_str()) {
            Some(rel) => rel,
            None => path.to_owned(),
        }
    }
}

#[verifier::external_type_specification]
#[verifier::external_body]
pub struct ExRegex(regex::Regex);

#[verifier::external_type_specification]
#[verifier::external_body]
pub struct ExGlobPattern(glob::Pattern);

/// The error text of compiling `pattern` as a regular expression
/// (`regex::Regex::new`), or `None` when it compiles.
pub uninterp spec fn regex_error(pattern: Seq<char>) -> Option<Seq<char>>;

/// Whether the regular expression `pattern` matches somewhere in `haystack`
/// (`regex::Regex::is_match`).
pub uninterp spec fn regex_matches(pattern: Seq<char>, haystack: Seq<char>) -> bool;

/// The error text of compiling `pattern` as a glob (`glob::Pattern::new`),
/// or `None` when it compiles.
pub uninterp spec fn glob_error(pattern: Seq<char>) -> Option<Seq<char>>;

/// Whether the glob `pattern` matches `name` (`glob::Pattern::matches`).
pub uninterp spec fn glob_matches(pattern: Seq<char>, name: Seq<char>) -> bool;

/// A compiled regular expression together with its source.  Only
/// `compile_regex` builds one.
pub struct LineMatcher {
    source: String,
    compiled: regex::Regex,
}

impl LineMatcher {
    /// The pattern this matcher was compiled from.
    pub closed spec fn pattern(&self) -> Seq<char> {
        self.source@
    }
}

/// `regex::Regex::new`.  Trusted: compilation fails exactly when
/// `regex_error` names an error, whose text is returned; the matcher keeps
/// the pattern it was compiled from.  Which patterns compile is not stated.
#[verifier::external_body]
pub(crate) fn compile_regex(pattern: &str) -> (r: Result<LineMatcher, String>)
    ensures
        match regex_error(pattern@) {
            Some(e) => r matches Err(m) && m@ == e,
            None => r matches Ok(m) && m.pattern() == pattern@,
        },
{
    match regex::Regex::new(pattern) {
        Ok(compiled) => Ok(LineMatcher { source: pattern.to_owned(), compiled }),
        Err(e) => Err(e.to_string()),
    }
}

/// `regex::Regex::is_match`.  Trusted: the answer is named `regex_matches`
/// of the matcher's pattern and the line.
#[verifier::external_body]
pub(crate) fn regex_is_match(m: &LineMatcher, line: &str) -> (r: bool)
    ensures
        r == regex_matches(m.pattern(), line@),
{
    m.compiled.is_match(line)
}

/// A compiled glob together with its source.  Only `compile_glob` builds one.
pub struct NameFilter {
    source: String,
    compiled: glob::Pattern,
}

impl NameFilter {
    /// The glob this filter was compiled from.
    pub closed spec fn pattern(&self) -> Seq<char> {
        self.source@
    }
}

/// `glob::Pattern::new`.  Trusted: compilation fails exactly when
/// `glob_error` names an error, whose text is returned.
#[verifier::external_body]
pub(crate) fn compile_glob(pattern: &str) -> (r: Result<NameFilter, String>)
    ensures
        match glob_error(pattern@) {
            Some(e) => r matches Err(m) && m@ == e,
            None => r matches Ok(f) && f.pattern() == pattern@,
        },
{
    match glob::Pattern::new(pattern) {
        Ok(compiled) => Ok(NameFilter { source: pattern.to_owned(), compiled }),
        Err(e) => Err(e.to_string()),
    }
}

/// `glob::Pattern::matches`.  Trusted: the answer is named `glob_matches`.
#[verifier::external_body]
pub(crate) fn glob_is_match(f: &NameFilter, name: &str) -> (r: bool)
    ensures
        r == glob_matches(f.pattern(), name@),
{
    f.compiled.matches(name)
}

/// Files larger than this many bytes are not searched.
pub const GREP_MAX_FILE_BYTES: u64 = 10485760;

/// One matching line: the reported file, the 1-based line number, the text.
pub struct GrepMatch {
    pub file: String,
    pub line: usize,
    pub text: String,
}

/// A match as plain values.
pub open spec fn match_view(m: GrepMatch) -> (Seq<char>, nat, Seq<char>) {
    (m.file@, m.line as nat, m.text@)
}

/// The matches collected so far, as plain values.
pub open spec fn matches_view(v: Seq<GrepMatch>) -> Seq<(Seq<char>, nat, Seq<char>)> {
    v.map_values(|m: GrepMatch| match_view(m))
}

/// Scanning the lines of `file` from line index `start`, with `acc` found so
/// far: each readable line that `pattern` matches is added, and the scan
/// stops once `max` matches have been found (at once when there already
/// are that many).
pub open spec fn scan_lines(
    pattern: Seq<char>,
    file: Seq<char>,
    lines: Seq<Option<Seq<char>>>,
    start: nat,
    acc: Seq<(Seq<char>, nat, Seq<char>)>,
    max: nat,
) -> Seq<(Seq<char>, nat, Seq<char>)>
    decreases lines.len() - start,
{
    if start >= lines.len() || acc.len() >= max {
        acc
    } else {
        match lines[start as int] {
            Some(text) => if regex_matches(pattern, text) {
                scan_lines(pattern, file, lines, start + 1, acc.push((file, start + 1, text)), max)
            } else {
                scan_lines(pattern, file, lines, start + 1, acc, max)
            },
            None => scan_lines(pattern, file, lines, start + 1, acc, max),
        }
    }
}

/// A scan never drops what was found and never goes past the cap.
pub proof fn lemma_scan_lines_cap(
    pattern: Seq<char>,
    file: Seq<char>,
    lines: Seq<Option<Seq<char>>>,
    start: nat,
    acc: Seq<(Seq<char>, nat, Seq<char>)>,
    max: nat,
)
    ensures
        scan_lines(pattern, file, lines, start, acc, max).len() >= acc.len(),
        acc.len() <= max ==> scan_lines(pattern, file, lines, start, acc, max).len() <= max,
        acc.len() >= max ==> scan_lines(pattern, file, lines, start, acc, max) == acc,
    decreases lines.len() - start,
{
    if start < lines.len() && acc.len() < max {
        match lines[start as int] {
            Some(text) => if regex_matches(pattern, text) {
                lemma_scan_lines_cap(pattern, file, lines, start + 1, acc.push((file, start + 1, text)), max);
            } else {
                lemma_scan_lines_cap(pattern, file, lines, start + 1, acc, max);
            },
            None => lemma_scan_lines_cap(pattern, file, lines, start + 1, acc, max),
        }
    }
}

/// The views of a list of possibly unreadable lines.
pub open spec fn line_views(v: Seq<Option<String>>) -> Seq<Option<Seq<char>>> {
    v.map_values(|l: Option<String>| match l { Some(s) => Some(s@), None => None })
}

/// The state of a grep run: the cap and the matches found so far.
pub struct GrepSearch {
    pub max_matches: usize,
    pub matches: Vec<GrepMatch>,
}

impl GrepSearch {
    /// A search that keeps at most `max_matches` matches.
    pub fn new(max_matches: usize) -> (g: Self)
        ensures
            g.max_matches == max_matches,
            g.matches@.len() == 0,
    {
        GrepSearch { max_matches, matches: Vec::new() }
    }

    /// Whether the walk stops after the file just scanned.
    pub fn finished(&self) -> (b: bool)
        ensures
            b == (self.matches@.len() >= self.max_matches),
    {
        self.matches.len() >= self.max_matches
    }

    /// Scans the lines of one file (`None` for a line that could not be
    /// read), adding its matches under the name `file`.
    pub fn scan_file(&mut self, matcher: &LineMatcher, file: &str, lines: &Vec<Option<String>>)
        ensures
            final(self).max_matches == old(self).max_matches,
            matches_view(final(self).matches@) == scan_lines(
                matcher.pattern(), file@, line_views(lines@), 0, matches_view(old(self).matches@), old(self).max_matches as nat),
            final(self).matches@.len() >= old(self).matches@.len(),
            old(self).matches@.len() <= old(self).max_matches ==> final(self).matches@.len() <= old(self).max_matches,
    {
        proof {
            lemma_scan_lines_cap(matcher.pattern(), file@, line_views(lines@), 0, matches_view(old(self).matches@), old(self).max_matches as nat);
        }
        let ghost pat = matcher.pattern();
        let ghost lv = line_views(lines@);
        let ghost max = self.max_matches as nat;
        let mut i: usize = 0;
        while i < lines.len()
            invariant
                i <= lines@.len(),
                lv == line_views(lines@),
                max == self.max_matches as nat,
                pat == matcher.pattern(),
                self.max_matches == old(self).max_matches,
                scan_lines(pat, file@, lv, i as nat, matches_view(self.matches@), max)
                    == scan_lines(pat, file@, lv, 0, matches_view(old(self).matches@), max),
                scan_lines(pat, file@, lv, 0, matches_view(old(self).matches@), max).len() >= old(self).matches@.len(),
                old(self).matches@.len() <= max ==> scan_lines(pat, file@, lv, 0, matches_view(old(self).matches@), max).len() <= max,
            decreases lines.len() - i,
        {
            if self.matches.len() >= self.max_matches {
                return;
            }
            match &lines[i] {
                Some(text) => {
                    if regex_is_match(matcher, text.as_str()) {
                        let ghost before = self.matches@;
                        self.matches.push(GrepMatch { file: file.to_owned(), line: i + 1, text: text.clone() });
                        assert(matches_view(self.matches@) == matches_view(before).push((file@, (i + 1) as nat, text@)));
                    }
                },
                None => {},
            }
            i = i + 1;
        }
    }
}

/// Searches file contents by regular expression inside the workspace.
pub struct GrepTool {
    pub policy: FsPolicy,
}

impl GrepTool {
    pub fn new(policy: FsPolicy) -> (t: Self)
        ensures
            t.policy == policy,
    {
        GrepTool { policy }
    }

    pub fn definition(&self) -> (d: ToolDefinition)
        ensures
            declares(d, "grep"@, "Search file contents for a regex pattern within the workspace."@,
                "{\"type\":\"object\",\"properties\":{\"pattern\":{\"type\":\"string\",\"description\":\"Regex pattern to search for\"},\"path\":{\"type\":\"string\",\"description\":\"Directory to search (optional, defaults to workspace root)\"},\"glob\":{\"type\":\"string\",\"description\":\"File glob filter (e.g. *.rs)\"},\"max_matches\":{\"type\":\"integer\",\"description\":\"Maximum number of matches to return (default 100)\"}},\"required\":[\"pattern\"]}"@,
                "Grep Search"@, (true, false, true, false, false), "filesystem"@, ("fs"@, "search"@), 60),
    {
        make_definition("grep", "Search file contents for a regex pattern within the workspace.",
            "{\"type\":\"object\",\"properties\":{\"pattern\":{\"type\":\"string\",\"description\":\"Regex pattern to search for\"},\"path\":{\"type\":\"string\",\"description\":\"Directory to search (optional, defaults to workspace root)\"},\"glob\":{\"type\":\"string\",\"description\":\"File glob filter (e.g. *.rs)\"},\"max_matches\":{\"type\":\"integer\",\"description\":\"Maximum number of matches to return (default 100)\"}},\"required\":[\"pattern\"]}",
            "Grep Search", annotations(true, false, true, false, false), "filesystem", "fs", "search", 60)
    }

    /// Compiles the search pattern; a bad pattern is the tool's error.
    pub fn matcher(pattern: &str) -> (r: Result<LineMatcher, ToolError>)
        ensures
            match regex_error(pattern@) {
                Some(e) => r matches Err(x) && x.tool_name@ == "grep"@ && x.message@ == "Invalid regex pattern: "@ + e,
                None => r matches Ok(m) && m.pattern() == pattern@,
            },
    {
        match compile_regex(pattern) {
            Ok(m) => Ok(m),
            Err(e) => Err(prefixed_error("grep", "Invalid regex pattern: ", e.as_str())),
        }
    }

    /// The directory searched: the `path` argument, or the workspace root.
    pub fn base_dir(&self, path: Option<&str>) -> (r: String)
        ensures
            r@ == (match path { Some(p) => p@, None => self.policy.workspace_root@ }),
    {
        match path {
            Some(p) => p.to_owned(),
            None => self.policy.workspace_root.clone(),
        }
    }

    /// The cap on matches: the `max_matches` argument, 100 by default.
    pub fn max_matches(arg: Option<u64>) -> (m: usize)
        ensures
            m == (match arg { Some(n) => n, None => 100u64 }) as usize,
    {
        match arg {
            Some(n) => n as usize,
            None => 100,
        }
    }

    /// Whether a file is searched: its name must match the glob filter when
    /// one is given (a bad filter is the tool's error), and its size, when
    /// known, must not exceed 10 MiB.
    pub fn keep_file(glob: Option<&str>, file_name: &str, size: Option<u64>) -> (r: Result<bool, ToolError>)
        ensures
            match glob {
                Some(g) => match glob_error(g@) {
                    Some(e) => r matches Err(x) && x.tool_name@ == "grep"@ && x.message@ == "Invalid glob filter: "@ + e,
                    None => r matches Ok(b) && b == (glob_matches(g@, file_name@)
                        && !(size matches Some(n) && n > GREP_MAX_FILE_BYTES)),
                },
                None => r matches Ok(b) && b == !(size matches Some(n) && n > GREP_MAX_FILE_BYTES),
            },
    {
        match glob {
            Some(g) => {
                let f = match compile_glob(g) {
                    Ok(f) => f,
                    Err(e) => return Err(prefixed_error("grep", "Invalid glob filter: ", e.as_str())),
                };
                if !glob_is_match(&f, file_name) {
                    return Ok(false);
                }
            },
            None => {},
        }
        match size {
            Some(n) => Ok(n <= GREP_MAX_FILE_BYTES),
            None => Ok(true),
        }
    }

    /// A file as reported in matches.
    pub fn report(&self, path: &str) -> (r: String)
        ensures
            r@ == reported_path(self.policy.workspace_root@, path@),
    {
        match strip_prefix_of(path, self.policy.workspace_root.as_str()) {
            Some(rel) => rel,
            None => path.to_owned(),
        }
    }
}

} // verus!
