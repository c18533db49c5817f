//! Agent skills: `SKILL.md` files made of a YAML front matter block and a
//! markdown body, kept in a registry ordered by name.
//!
//! Walking skill directories, reading files and parsing the YAML block are
//! the caller's part; this module splits a file into its parts, checks the
//! required fields and keeps the registry.
use vstd::prelude::*;

use crate::fs::{path_parent, parent_of};
use crate::text::{chars_vec, join_strings, join_with, lemma_text_lt_total, lemma_text_lt_trans, push_str, str_eq, str_lt, string_from_chars, text_lt, views};

verus! {

/// Why a skill could not be loaded.
pub enum SkillError {
    MissingFrontmatter,
    YamlParse(String),
    MissingField(String),
    Io { path: String, message: String },
}

impl SkillError {
    /// The message shown for this error.
    pub open spec fn message(&self) -> Seq<char> {
        match self {
            SkillError::MissingFrontmatter => "SKILL.md missing YAML frontmatter (must start and end with ---)"@,
            SkillError::YamlParse(m) => "YAML parse error: "@ + m@,
            SkillError::MissingField(f) => "missing required field: "@ + f@,
            SkillError::Io { path, message } => "IO error reading "@ + path@ + ": "@ + message@,
        }
    }

    /// Renders the error as its message.
    pub fn to_string(&self) -> (s: String)
        ensures
            s@ == self.message(),
    {
        match self {
            SkillError::MissingFrontmatter => "SKILL.md missing YAML frontmatter (must start and end with ---)".to_owned(),
            SkillError::YamlParse(m) => {
                let mut s = "YAML parse error: ".to_owned();
                push_str(&mut s, m.as_str());
                s
            },
            SkillError::MissingField(f) => {
                let mut s = "missing required field: ".to_owned();
                push_str(&mut s, f.as_str());
                s
            },
            SkillError::Io { path, message } => {
                let mut s = "IO error reading ".to_owned();
                push_str(&mut s, path.as_str());
                push_str(&mut s, ": ");
                push_str(&mut s, message.as_str());
                s
            },
        }
    }
}

/// What a skill's front matter declares.  `metadata` holds the other keys
/// with their YAML values as text.
pub struct SkillMetadata {
    pub name: String,
    pub description: String,
    pub license: Option<String>,
    pub compatibility: Option<String>,
    pub tags: Vec<String>,
    pub allowed_tools: Option<Vec<String>>,
    pub user_invocable: Option<bool>,
    pub disable_model_invocation: Option<bool>,
    pub metadata: Vec<(String, String)>,
}

/// A loaded skill: its declaration, body and directory.
pub struct LoadedSkill {
    pub meta: SkillMetadata,
    pub body: String,
    pub root_dir: String,
}

/// Whether `c` is white space in the Unicode sense (`char::is_whitespace`).
pub uninterp spec fn is_whitespace(c: char) -> bool;

/// `char::is_whitespace` of std.  Trusted: the answer is named
/// `is_whitespace`; which characters those are is not stated here.
#[verifier::external_body]
pub(crate) fn char_is_whitespace(c: char) -> (b: bool)
    ensures
        b == is_whitespace(c),
{
    c.is_whitespace()
}

/// `s` without leading and trailing white space (`str::trim`).
pub open spec fn trim(s: Seq<char>) -> Seq<char> {
    trim_end(trim_start(s))
}

/// `s` without leading white space.
pub open spec fn trim_start(s: Seq<char>) -> Seq<char>
    decreases s.len(),
{
    if s.len() > 0 && is_whitespace(s[0]) { trim_start(s.drop_first()) } else { s }
}

/// `s` without trailing white space.
pub open spec fn trim_end(s: Seq<char>) -> Seq<char>
    decreases s.len(),
{
    if s.len() > 0 && is_whitespace(s.last()) { trim_end(s.drop_last()) } else { s }
}

/// Trims white space from both ends of `cs[from..to]`.
fn trim_range(cs: &Vec<char>, from: usize, to: usize) -> (r: String)
    requires
        from <= to <= cs@.len(),
    ensures
        r@ == trim(cs@.subrange(from as int, to as int)),
{
    let mut a = from;
    while a < to && char_is_whitespace(cs[a])
        invariant
            from <= a <= to <= cs@.len(),
            trim_start(cs@.subrange(from as int, to as int)) == trim_start(cs@.subrange(a as int, to as int)),
        decreases to - a,
    {
        assert(cs@.subrange(a as int, to as int).drop_first() == cs@.subrange(a + 1, to as int));
        a = a + 1;
    }
    let mut b = to;
    assert(a == to || !is_whitespace(cs@[a as int]));
    assert(trim_start(cs@.subrange(a as int, to as int)) == cs@.subrange(a as int, to as int));
    while b > a && char_is_whitespace(cs[b - 1])
        invariant
            a <= b <= to,
            to <= cs@.len(),
            trim_end(cs@.subrange(a as int, to as int)) == trim_end(cs@.subrange(a as int, b as int)),
        decreases b,
    {
        assert(cs@.subrange(a as int, b as int).drop_last() == cs@.subrange(a as int, b - 1));
        b = b - 1;
    }
    string_from_chars(cs.as_slice(), a, b)
}

/// The position of the first `"\n---"` in `s` at or after `from`.
pub open spec fn find_delimiter(s: Seq<char>, from: int) -> Option<int>
    decreases s.len() - from,
{
    if from < 0 || from + 4 > s.len() {
        None
    } else if s[from] == '\n' && s[from + 1] == '-' && s[from + 2] == '-' && s[from + 3] == '-' {
        Some(from)
    } else {
        find_delimiter(s, from + 1)
    }
}

/// How a `SKILL.md` file splits: after trimming, it must open with `---`;
/// the front matter runs to the next line starting `---` and is trimmed;
/// the body is what follows that delimiter, trimmed.
pub open spec fn frontmatter_split(content: Seq<char>) -> Option<(Seq<char>, Seq<char>)> {
    let t = trim(content);
    if !(t.len() >= 3 && t[0] == '-' && t[1] == '-' && t[2] == '-') {
        None
    } else {
        match find_delimiter(t, 3) {
            None => None,
            Some(d) => Some((
                trim(t.subrange(3, d)),
                if d + 4 < t.len() { trim(t.subrange(d + 4, t.len() as int)) } else { Seq::empty() },
            )),
        }
    }
}

/// Splits a `SKILL.md` file into its front matter and body.
pub fn split_frontmatter(content: &str) -> (r: Result<(String, String), SkillError>)
    ensures
        match frontmatter_split(content@) {
            None => r matches Err(SkillError::MissingFrontmatter),
            Some((y, b)) => r matches Ok((yy, bb)) && yy@ == y && bb@ == b,
        },
{
    let raw = chars_vec(content);
    let trimmed = trim_range(&raw, 0, raw.len());
    assert(raw@.subrange(0, raw@.len() as int) == raw@);
    let t = chars_vec(trimmed.as_str());
    let n = t.len();
    if !(n >= 3 && t[0] == '-' && t[1] == '-' && t[2] == '-') {
        return Err(SkillError::MissingFrontmatter);
    }
    let mut d: usize = 3;
    let mut found = false;
    while !found && n - d >= 4
        invariant
            3 <= d <= n,
            n == t@.len(),
            found ==> n - d >= 4 && find_delimiter(t@, 3) == Some(d as int),
            !found ==> find_delimiter(t@, 3) == find_delimiter(t@, d as int),
        decreases n - d + (if found { 0int } else { 1int }),
    {
        if t[d] == '\n' && t[d + 1] == '-' && t[d + 2] == '-' && t[d + 3] == '-' {
            found = true;
        } else {
            d = d + 1;
        }
    }
    if !found {
        return Err(SkillError::MissingFrontmatter);
    }
    let yaml = trim_range(&t, 3, d);
    let body = if d + 4 < n { trim_range(&t, d + 4, n) } else { String::new() };
    Ok((yaml, body))
}

/// Checks the required fields of a parsed front matter: a name, then a
/// description.
pub fn validate_metadata(meta: &SkillMetadata) -> (r: Result<(), SkillError>)
    ensures
        meta.name@.len() == 0 ==> (r matches Err(SkillError::MissingField(f)) && f@ == "name"@),
        meta.name@.len() > 0 && meta.description@.len() == 0 ==> (r matches Err(SkillError::MissingField(f)) && f@ == "description"@),
        meta.name@.len() > 0 && meta.description@.len() > 0 ==> r is Ok,
{
    if meta.name.as_str().as_bytes().len() == 0 {
        return Err(SkillError::MissingField("name".to_owned()));
    }
    if meta.description.as_str().as_bytes().len() == 0 {
        return Err(SkillError::MissingField("description".to_owned()));
    }
    Ok(())
}

/// Whether a file name is `SKILL.md` in any ASCII case.
pub open spec fn is_skill_file_name(name: Seq<char>) -> bool {
    name.len() == 8 && forall|i: int| 0 <= i < 8 ==> #[trigger] ascii_lower(name[i]) == ascii_lower("SKILL.md"@[i])
}

/// The ASCII lower case of `c`.
pub open spec fn ascii_lower(c: char) -> char {
    if 'A' <= c && c <= 'Z' { ((c as u32) + 32) as char } else { c }
}

fn ascii_lower_of(c: char) -> (r: char)
    ensures
        r == ascii_lower(c),
{
    if 'A' <= c && c <= 'Z' {
        let b: u32 = c as u32;
        let lower: u8 = (b + 32) as u8;
        lower as char
    } else {
        c
    }
}

/// Whether a file is a skill file.
pub fn is_skill_file(name: &str) -> (b: bool)
    ensures
        b == is_skill_file_name(name@),
{
    proof {
        reveal_strlit("SKILL.md");
    }
    let cs = chars_vec(name);
    let want = chars_vec("SKILL.md");
    if cs.len() != 8 {
        return false;
    }
    let mut i: usize = 0;
    while i < 8
        invariant
            cs@.len() == 8,
            want@.len() == 8,
            want@ == "SKILL.md"@,
            cs@ == name@,
            i <= 8,
            forall|k: int| 0 <= k < i ==> #[trigger] ascii_lower(cs@[k]) == ascii_lower(want@[k]),
        decreases 8 - i,
    {
        if ascii_lower_of(cs[i]) != ascii_lower_of(want[i]) {
            return false;
        }
        i = i + 1;
    }
    true
}

/// A skill's directory: the directory of its file, or `.`.
pub fn skill_root_dir(path: &str) -> (r: String)
    ensures
        r@ == (match path_parent(path@) { Some(p) => p, None => "."@ }),
{
    match parent_of(path) {
        Some(p) => p,
        None => ".".to_owned(),
    }
}

/// The names of `v`, in order.
pub open spec fn names_of(v: Seq<(String, LoadedSkill)>) -> Seq<Seq<char>> {
    v.map_values(|e: (String, LoadedSkill)| e.0@)
}

/// The skills known to an agent, by name.
pub struct SkillRegistry {
    skills: Vec<(String, LoadedSkill)>,
}

impl SkillRegistry {
    /// The entries held: each name with its skill, in order.
    pub closed spec fn entries(&self) -> Seq<(String, LoadedSkill)> {
        self.skills@
    }

    /// The names held, in order.
    pub open spec fn names(&self) -> Seq<Seq<char>> {
        names_of(self.entries())
    }

    /// Names are strictly increasing, and each entry is filed under its
    /// skill's name.
    pub open spec fn wf(&self) -> bool {
        &&& forall|i: int, j: int| 0 <= i < j < self.entries().len() ==> text_lt(#[trigger] self.entries()[i].0@, #[trigger] self.entries()[j].0@)
        &&& forall|i: int| 0 <= i < self.entries().len() ==> #[trigger] self.entries()[i].0@ == self.entries()[i].1.meta.name@
    }

    /// An empty registry.
    pub fn new() -> (r: Self)
        ensures
            r.wf(),
            r.names().len() == 0,
    {
        SkillRegistry { skills: Vec::new() }
    }

    /// How many skills are held.
    pub fn count(&self) -> (n: usize)
        ensures
            n == self.names().len(),
    {
        self.skills.len()
    }

    /// The names, in order.
    pub fn skill_names(&self) -> (v: Vec<String>)
        ensures
            views(v@) == self.names(),
    {
        let mut v: Vec<String> = Vec::new();
        let mut i: usize = 0;
        while i < self.skills.len()
            invariant
                i <= self.skills@.len(),
                views(v@) == names_of(self.skills@.take(i as int)),
            decreases self.skills.len() - i,
        {
            let ghost before = v@;
            v.push(self.skills[i].0.clone());
            assert(views(v@) == views(before).push(self.skills@[i as int].0@));
            assert(names_of(self.skills@.take(i + 1)) == names_of(self.skills@.take(i as int)).push(self.skills@[i as int].0@));
            i = i + 1;
        }
        assert(self.skills@.take(self.skills@.len() as int) == self.skills@);
        v
    }

    /// Where `name` is, if held.
    fn position(&self, name: &str) -> (r: Option<usize>)
        ensures
            match r {
                Some(i) => i < self.names().len() && self.names()[i as int] == name@,
                None => !self.names().contains(name@),
            },
    {
        let mut i: usize = 0;
        while i < self.skills.len()
            invariant
                i <= self.skills@.len(),
                forall|k: int| 0 <= k < i ==> #[trigger] self.skills@[k].0@ != name@,
            decreases self.skills.len() - i,
        {
            if str_eq(self.skills[i].0.as_str(), name) {
                return Some(i);
            }
            i = i + 1;
        }
        assert forall|k: int| 0 <= k < self.names().len() implies self.names()[k] != name@ by {
            assert(self.names()[k] == self.skills@[k].0@);
        }
        None
    }

    /// The skill held under `name`, if any.
    pub fn activate(&self, name: &str) -> (r: Option<&LoadedSkill>)
        ensures
            r is Some <==> self.names().contains(name@),
            self.wf() ==> forall|i: int| 0 <= i < self.names().len() && #[trigger] self.names()[i] == name@
                ==> r == Some(&self.entries()[i].1),
    {
        match self.position(name) {
            Some(i) => {
                assert(self.names()[i as int] == self.skills@[i as int].0@);
                proof {
                    if self.wf() {
                        assert forall|k: int| 0 <= k < self.names().len() && #[trigger] self.names()[k] == name@ implies k == i by {
                            if k < i {
                                assert(text_lt(self.skills@[k].0@, self.skills@[i as int].0@));
                                lemma_text_lt_total(name@, name@);
                            } else if k > i {
                                assert(text_lt(self.skills@[i as int].0@, self.skills@[k].0@));
                                lemma_text_lt_total(name@, name@);
                            }
                        }
                    }
                }
                Some(&self.skills[i].1)
            },
            None => None,
        }
    }

    /// The tools the skill under `name` is restricted to, when it is.
    pub fn allowed_tools(&self, name: &str) -> (r: Option<&[String]>)
        ensures
            !self.names().contains(name@) ==> r is None,
            self.wf() ==> forall|i: int| 0 <= i < self.names().len() && #[trigger] self.names()[i] == name@
                ==> match self.entries()[i].1.meta.allowed_tools {
                    Some(t) => r matches Some(s) && s@ == t@,
                    None => r is None,
                },
    {
        match self.activate(name) {
            Some(skill) => match &skill.meta.allowed_tools {
                Some(t) => Some(t.as_slice()),
                None => None,
            },
            None => None,
        }
    }

    /// Adds a skill under its name, replacing one of the same name; the
    /// names stay in order.
    pub fn insert(&mut self, skill: LoadedSkill)
        requires
            old(self).wf(),
        ensures
            final(self).wf(),
            final(self).names().to_set() == old(self).names().to_set().insert(skill.meta.name@),
            exists|k: int| 0 <= k < final(self).entries().len() && (#[trigger] final(self).entries()[k]).1 == skill,
            forall|j: int| 0 <= j < old(self).entries().len() && (#[trigger] old(self).entries()[j]).0@ != skill.meta.name@
                ==> final(self).entries().contains(old(self).entries()[j]),
    {
        let ghost old_names = self.names();
        let ghost old_entries = self.skills@;
        let mut i: usize = 0;
        while i < self.skills.len() && str_lt(self.skills[i].0.as_str(), skill.meta.name.as_str())
            invariant
                i <= self.skills@.len(),
                self.wf(),
                forall|k: int| 0 <= k < i ==> text_lt(#[trigger] self.skills@[k].0@, skill.meta.name@),
            decreases self.skills.len() - i,
        {
            i = i + 1;
        }
        let name = skill.meta.name.clone();
        if i < self.skills.len() && str_eq(self.skills[i].0.as_str(), skill.meta.name.as_str()) {
            self.skills.set(i, (name, skill));
            assert forall|j: int| 0 <= j < old_entries.len() && (#[trigger] old_entries[j]).0@ != skill.meta.name@
                implies self.skills@.contains(old_entries[j]) by {
                assert(j != i);
                assert(self.skills@[j] == old_entries[j]);
            }
            assert(self.names() =~= old_names.update(i as int, self.skills@[i as int].0@));
            assert(self.names().to_set() =~= old_names.to_set().insert(skill.meta.name@)) by {
                assert(old_names[i as int] == skill.meta.name@);
                assert forall|x: Seq<char>| self.names().to_set().contains(x) <==> old_names.to_set().insert(skill.meta.name@).contains(x) by {
                    if self.names().contains(x) {
                        let k = choose|k: int| 0 <= k < self.names().len() && self.names()[k] == x;
                        if k != i {
                            assert(old_names[k] == x);
                        }
                    }
                    if old_names.contains(x) {
                        let k = choose|k: int| 0 <= k < old_names.len() && old_names[k] == x;
                        if k != i {
                            assert(self.names()[k] == x);
                        } else {
                            assert(self.names()[k] == x);
                        }
                    }
                    if x == skill.meta.name@ {
                        assert(self.names()[i as int] == x);
                    }
                }
            }
        } else {
            proof {
                assert(i < self.skills@.len() ==> text_lt(skill.meta.name@, self.skills@[i as int].0@)) by {
                    if i < self.skills@.len() {
                        lemma_text_lt_total(skill.meta.name@, self.skills@[i as int].0@);
                    }
                };
            }
            let ghost before = self.skills@;
            self.skills.insert(i, (name, skill));
            assert forall|j: int| 0 <= j < old_entries.len() && (#[trigger] old_entries[j]).0@ != skill.meta.name@
                implies self.skills@.contains(old_entries[j]) by {
                if j < i {
                    assert(self.skills@[j] == old_entries[j]);
                } else {
                    assert(self.skills@[j + 1] == old_entries[j]);
                }
            }
            assert forall|a: int, b: int| 0 <= a < b < self.skills@.len() implies text_lt(#[trigger] self.skills@[a].0@, #[trigger] self.skills@[b].0@) by {
                if a < i && b == i {
                } else if a == i && b > i {
                    if b - 1 > i {
                        lemma_text_lt_trans(self.skills@[a].0@, before[i as int].0@, before[b - 1].0@);
                    }
                } else if a < i && b > i {
                } else {
                }
            }
            assert(self.names() =~= old_names.insert(i as int, self.skills@[i as int].0@));
            assert(self.names().to_set() =~= old_names.to_set().insert(self.skills@[i as int].0@)) by {
                assert forall|x: Seq<char>| self.names().to_set().contains(x) <==> old_names.to_set().insert(self.skills@[i as int].0@).contains(x) by {
                    if self.names().contains(x) {
                        let k = choose|k: int| 0 <= k < self.names().len() && self.names()[k] == x;
                        if k < i {
                            assert(old_names[k] == x);
                        } else if k > i {
                            assert(old_names[k - 1] == x);
                        }
                    }
                    if old_names.contains(x) {
                        let k = choose|k: int| 0 <= k < old_names.len() && old_names[k] == x;
                        if k < i {
                            assert(self.names()[k] == x);
                        } else {
                            assert(self.names()[k + 1] == x);
                        }
                    }
                    if x == self.skills@[i as int].0@ {
                        assert(self.names()[i as int] == x);
                    }
                }
            }
        }
    }

    /// The skills catalogue for the system prompt: a heading, then one
    /// line per skill, in name order, marking user-invocable ones; empty
    /// without skills.
    pub fn system_prompt_catalog(&self) -> (s: String)
        ensures
            self.names().len() == 0 ==> s@.len() == 0,
            self.names().len() > 0 ==> s@ == join_with(seq!["Available skills:"@] + catalog_lines(self.entries()), seq!['\n']),
    {
        if self.skills.len() == 0 {
            return String::new();
        }
        let mut lines: Vec<String> = Vec::new();
        lines.push("Available skills:".to_owned());
        let mut i: usize = 0;
        while i < self.skills.len()
            invariant
                i <= self.skills@.len(),
                views(lines@) == seq!["Available skills:"@] + catalog_lines(self.skills@.take(i as int)),
            decreases self.skills.len() - i,
        {
            let meta = &self.skills[i].1.meta;
            let mut line = "- ".to_owned();
            push_str(&mut line, meta.name.as_str());
            push_str(&mut line, ": ");
            push_str(&mut line, meta.description.as_str());
            if meta.user_invocable == Some(true) {
                push_str(&mut line, " [user-invocable]");
            }
            let ghost before = lines@;
            lines.push(line);
            assert(views(lines@) == views(before).push(catalog_line(self.skills@[i as int].1)));
            assert(self.skills@.take(i + 1).drop_last() == self.skills@.take(i as int));
            i = i + 1;
        }
        assert(self.skills@.take(self.skills@.len() as int) == self.skills@);
        proof {
            reveal_strlit("\n");
        }
        let nl = chars_vec("\n");
        let sep = string_from_chars(nl.as_slice(), 0, 1);
        assert(sep@ == seq!['\n']);
        join_strings(&lines, sep.as_str())
    }
}

/// A skill's catalogue line.
pub open spec fn catalog_line(s: LoadedSkill) -> Seq<char> {
    "- "@ + s.meta.name@ + ": "@ + s.meta.description@ + if s.meta.user_invocable == Some(true) { " [user-invocable]"@ } else { Seq::empty() }
}

/// The catalogue lines of a list of skills.
pub open spec fn catalog_lines(v: Seq<(String, LoadedSkill)>) -> Seq<Seq<char>>
    decreases v.len(),
{
    if v.len() == 0 {
        Seq::empty()
    } else {
        catalog_lines(v.drop_last()).push(catalog_line(v.last().1))
    }
}

} // verus!
