//! Hashline editing: every line of a file is tagged with a short content hash
//! of its line number and text, and edits address lines by those tags.  A tag
//! that no longer matches the current content is stale and the edit fails.
use vstd::prelude::*;

use crate::fs::FsPolicy;
use crate::tools::{annotations, declares, make_definition, prefixed_error, ToolDefinition, ToolError};
use crate::text::{
    chars_vec, decimal, join_strings, join_with, pad_left, pad_left_string, push_char, push_str,
    str_eq, string_from_chars, u64_to_decimal, views,
};

verus! {

// ---------------------------------------------------------------------------
// Line splitting (the semantics of `str::lines`)
// ---------------------------------------------------------------------------

/// A line with its trailing carriage return (if any) removed.
pub open spec fn strip_cr(line: Seq<char>) -> Seq<char> {
    if line.len() > 0 && line.last() == '\r' {
        line.drop_last()
    } else {
        line
    }
}

/// Scanning `s` from the left: the lines already ended by a `'\n'`, and the
/// characters of the line still open.
pub open spec fn scan_lines(s: Seq<char>) -> (Seq<Seq<char>>, Seq<char>)
    decreases s.len(),
{
    if s.len() == 0 {
        (Seq::empty(), Seq::empty())
    } else {
        let (done, open) = scan_lines(s.drop_last());
        if s.last() == '\n' {
            (done.push(strip_cr(open)), Seq::empty())
        } else {
            (done, open.push(s.last()))
        }
    }
}

/// The lines of `s`: split at `'\n'`, a `'\r'` before the `'\n'` dropped, and
/// no empty line after a final `'\n'`.
pub open spec fn lines_of(s: Seq<char>) -> Seq<Seq<char>> {
    let (done, open) = scan_lines(s);
    if open.len() > 0 {
        done.push(open)
    } else {
        done
    }
}

/// Splits `content` into its lines (what `content.lines()` yields).
pub fn split_lines(content: &str) -> (v: Vec<String>)
    ensures
        views(v@) == lines_of(content@),
{
    let cs = chars_vec(content);
    let mut done: Vec<String> = Vec::new();
    let mut start: usize = 0;
    let mut i: usize = 0;
    while i < cs.len()
        invariant
            start <= i <= cs@.len(),
            cs@ == content@,
            scan_lines(cs@.take(i as int)) == (views(done@), cs@.subrange(start as int, i as int)),
        decreases cs.len() - i,
    {
        let ghost before = cs@.take(i as int);
        assert(cs@.take(i + 1).drop_last() == before);
        if cs[i] == '\n' {
            let end = if i > start && cs[i - 1] == '\r' {
                i - 1
            } else {
                i
            };
            let line = string_from_chars(cs.as_slice(), start, end);
            proof {
                let open = cs@.subrange(start as int, i as int);
                if i > start && cs@[i - 1] == '\r' {
                    assert(open.drop_last() == cs@.subrange(start as int, end as int));
                }
                assert(line@ == strip_cr(open));
            }
            done.push(line);
            assert(views(done@) == views(done@.drop_last()).push(done@.last()@));
            start = i + 1;
        } else {
            assert(cs@.subrange(start as int, i + 1) == cs@.subrange(start as int, i as int).push(cs@[i as int]));
        }
        i = i + 1;
    }
    assert(cs@.take(cs@.len() as int) == cs@);
    if start < cs.len() {
        let line = string_from_chars(cs.as_slice(), start, cs.len());
        done.push(line);
        assert(views(done@) == views(done@.drop_last()).push(done@.last()@));
    }
    done
}

// ---------------------------------------------------------------------------
// Line tags
// ---------------------------------------------------------------------------

/// The BLAKE3 digest of `data` (32 bytes).
pub uninterp spec fn blake3_digest(data: Seq<u8>) -> Seq<u8>;

/// The lowercase hexadecimal digit for `d` (`0 <= d < 16`).
pub open spec fn hex_digit(d: nat) -> char {
    if d < 10 {
        crate::text::digit_char(d)
    } else if d == 10 {
        'a'
    } else if d == 11 {
        'b'
    } else if d == 12 {
        'c'
    } else if d == 13 {
        'd'
    } else if d == 14 {
        'e'
    } else {
        'f'
    }
}

/// Lowercase hexadecimal encoding, two digits per byte, high nibble first.
pub open spec fn lower_hex(bytes: Seq<u8>) -> Seq<char>
    decreases bytes.len(),
{
    if bytes.len() == 0 {
        Seq::empty()
    } else {
        lower_hex(bytes.drop_last()) + seq![
            hex_digit((bytes.last() / 16) as nat),
            hex_digit((bytes.last() % 16) as nat),
        ]
    }
}

proof fn lemma_lower_hex_len(bytes: Seq<u8>)
    ensures
        lower_hex(bytes).len() == 2 * bytes.len(),
    decreases bytes.len(),
{
    if bytes.len() > 0 {
        lemma_lower_hex_len(bytes.drop_last());
    }
}

/// Hex digest of `data` through `blake3::Hasher` (`update`, `finalize`,
/// `to_hex`).  Trusted: the digest is named `blake3_digest`, is 32 bytes long,
/// and `to_hex` spells it in lowercase, high nibble first, as its source does.
#[verifier::external_body]
fn blake3_hex(data: &[u8]) -> (h: String)
    ensures
        h@ == lower_hex(blake3_digest(data@)),
        h@.len() == 64,
{
    let mut hasher = blake3::Hasher::new();
    hasher.update(data);
    hasher.finalize().to_hex().to_string()
}

/// The bytes that are hashed for a line: its number in decimal, a colon, and
/// its text, all in UTF-8.
pub open spec fn tag_input(line_no: nat, text: Seq<char>) -> Seq<u8> {
    vstd::utf8::encode_utf8(decimal(line_no)) + seq![58u8] + vstd::utf8::encode_utf8(text)
}

/// The tag of a line: the first eight hex digits of the BLAKE3 digest of its
/// number and text.
pub open spec fn line_tag_spec(line_no: nat, text: Seq<char>) -> Seq<char> {
    lower_hex(blake3_digest(tag_input(line_no, text))).take(8)
}

fn append_bytes(v: &mut Vec<u8>, b: &[u8])
    ensures
        final(v)@ == old(v)@ + b@,
{
    let mut i: usize = 0;
    while i < b.len()
        invariant
            i <= b@.len(),
            v@ == old(v)@ + b@.take(i as int),
        decreases b.len() - i,
    {
        v.push(b[i]);
        assert(b@.take(i + 1) == b@.take(i as int).push(b@[i as int]));
        i = i + 1;
    }
    assert(b@.take(b@.len() as int) == b@);
}

/// The tag of line number `line_no` holding `text`.
pub fn line_tag(line_no: usize, text: &str) -> (tag: String)
    ensures
        tag@ == line_tag_spec(line_no as nat, text@),
        tag@.len() == 8,
        blake3_digest(tag_input(line_no as nat, text@)).len() == 32,
{
    let num = u64_to_decimal(line_no as u64);
    let mut data: Vec<u8> = Vec::new();
    append_bytes(&mut data, num.as_str().as_bytes());
    data.push(58u8);
    append_bytes(&mut data, text.as_bytes());
    assert(data@ == tag_input(line_no as nat, text@));
    let hex = blake3_hex(data.as_slice());
    proof {
        lemma_lower_hex_len(blake3_digest(data@));
    }
    let cs = chars_vec(hex.as_str());
    string_from_chars(cs.as_slice(), 0, 8)
}

// ---------------------------------------------------------------------------
// Hashed lines
// ---------------------------------------------------------------------------

/// A line of content with its 1-based number and its tag.
pub struct HashedLine {
    pub line_no: usize,
    pub tag: String,
    pub text: String,
}

/// `lines` is the tagging of `content`: one entry per line, numbered from 1,
/// carrying the line's text and tag.
pub open spec fn hashes_lines_of(lines: Seq<HashedLine>, content: Seq<char>) -> bool {
    &&& lines.len() == lines_of(content).len()
    &&& forall|i: int|
        0 <= i < lines.len() ==> {
            &&& #[trigger] lines[i].line_no == i + 1
            &&& lines[i].text@ == lines_of(content)[i]
            &&& lines[i].tag@ == line_tag_spec((i + 1) as nat, lines_of(content)[i])
        }
}

/// Tags every line of `content`.
pub fn hash_lines(content: &str) -> (lines: Vec<HashedLine>)
    ensures
        hashes_lines_of(lines@, content@),
{
    let texts = split_lines(content);
    let mut lines: Vec<HashedLine> = Vec::new();
    let mut i: usize = 0;
    while i < texts.len()
        invariant
            i <= texts@.len(),
            views(texts@) == lines_of(content@),
            lines@.len() == i,
            forall|k: int|
                0 <= k < i ==> {
                    &&& #[trigger] lines@[k].line_no == k + 1
                    &&& lines@[k].text@ == lines_of(content@)[k]
                    &&& lines@[k].tag@ == line_tag_spec((k + 1) as nat, lines_of(content@)[k])
                },
        decreases texts.len() - i,
    {
        assert(views(texts@)[i as int] == texts@[i as int]@);
        let tag = line_tag(i + 1, texts[i].as_str());
        let text = texts[i].clone();
        lines.push(HashedLine { line_no: i + 1, tag, text });
        i = i + 1;
    }
    lines
}

/// One rendered line: the number right-aligned in four columns, the tag, a
/// bar, and the text.
pub open spec fn render_line(line_no: nat, tag: Seq<char>, text: Seq<char>) -> Seq<char> {
    pad_left(decimal(line_no), 4) + seq![' '] + tag + seq![' ', '|', ' '] + text
}

/// The rendered form of every line of `content`.
pub open spec fn rendered_lines(content: Seq<char>) -> Seq<Seq<char>> {
    Seq::new(
        lines_of(content).len(),
        |i: int|
            render_line(
                (i + 1) as nat,
                line_tag_spec((i + 1) as nat, lines_of(content)[i]),
                lines_of(content)[i],
            ),
    )
}

fn render_one(line: &HashedLine) -> (r: String)
    ensures
        r@ == render_line(line.line_no as nat, line.tag@, line.text@),
{
    let num = u64_to_decimal(line.line_no as u64);
    let mut r = pad_left_string(num.as_str(), 4);
    push_char(&mut r, ' ');
    push_str(&mut r, line.tag.as_str());
    push_char(&mut r, ' ');
    push_char(&mut r, '|');
    push_char(&mut r, ' ');
    push_str(&mut r, line.text.as_str());
    r
}

/// `content` with line numbers and tags, one rendered line per line, joined
/// by `'\n'`.
pub open spec fn rendered_content(content: Seq<char>) -> Seq<char> {
    join_with(rendered_lines(content), seq!['\n'])
}

/// Renders `content` with line numbers and tags, one line per line of content,
/// joined by `'\n'`.
pub fn render_hashed_content(content: &str) -> (r: String)
    ensures
        r@ == rendered_content(content@),
{
    let lines = hash_lines(content);
    let mut out: Vec<String> = Vec::new();
    let mut i: usize = 0;
    while i < lines.len()
        invariant
            i <= lines@.len(),
            hashes_lines_of(lines@, content@),
            views(out@) == rendered_lines(content@).take(i as int),
        decreases lines.len() - i,
    {
        let r = render_one(&lines[i]);
        out.push(r);
        assert(views(out@) == views(out@.drop_last()).push(out@.last()@));
        assert(rendered_lines(content@).take(i + 1) == rendered_lines(content@).take(i as int).push(rendered_lines(content@)[i as int]));
        i = i + 1;
    }
    assert(rendered_lines(content@).take(lines@.len() as int) == rendered_lines(content@));
    let nl = chars_vec("\n");
    proof {
        reveal_strlit("\n");
    }
    let sep = string_from_chars(nl.as_slice(), 0, 1);
    assert(sep@ == seq!['\n']);
    join_strings(&out, sep.as_str())
}

// ---------------------------------------------------------------------------
// Tagged edits
// ---------------------------------------------------------------------------

/// An edit addressed by line tag.
pub enum TaggedEditOp {
    ReplaceLine { tag: String, new_text: String },
    InsertAfterTag { tag: String, new_text: String },
    DeleteLine { tag: String },
}

/// Why a tagged edit failed.
pub enum EditError {
    /// The content has no lines, so no tag can match.
    EmptyContent,
    /// No line of the current content carries the tag.
    StaleTag(String),
}

impl EditError {
    /// The error message.
    pub fn to_string(&self) -> (s: String)
        ensures
            s@ == self.message(),
    {
        match self {
            EditError::EmptyContent => "input content is empty; tags are required before edit".to_owned(),
            EditError::StaleTag(tag) => {
                let mut s = "tag is stale or missing in current content: ".to_owned();
                push_str(&mut s, tag.as_str());
                s
            },
        }
    }

    pub open spec fn message(&self) -> Seq<char> {
        match self {
            EditError::EmptyContent => "input content is empty; tags are required before edit"@,
            EditError::StaleTag(tag) => "tag is stale or missing in current content: "@ + tag@,
        }
    }
}

/// A line under edit: its anchor tag (lines present before the edit only) and its text.
pub type EditLine = (Option<Seq<char>>, Seq<char>);

/// The first line whose anchor is `tag`, if any.
pub open spec fn anchor_index(lines: Seq<EditLine>, tag: Seq<char>) -> Option<nat>
    decreases lines.len(),
{
    if lines.len() == 0 {
        None
    } else {
        match anchor_index(lines.drop_last(), tag) {
            Some(i) => Some(i),
            None => if lines.last().0 == Some(tag) {
                Some((lines.len() - 1) as nat)
            } else {
                None
            },
        }
    }
}

/// The tag an operation addresses.
pub open spec fn op_tag(op: TaggedEditOp) -> Seq<char> {
    match op {
        TaggedEditOp::ReplaceLine { tag, .. } => tag@,
        TaggedEditOp::InsertAfterTag { tag, .. } => tag@,
        TaggedEditOp::DeleteLine { tag } => tag@,
    }
}

/// One operation applied to the lines under edit: `Err(tag)` when the tag is
/// stale.  Replacement keeps the anchor; an inserted line has none.
pub open spec fn apply_op(lines: Seq<EditLine>, op: TaggedEditOp) -> Result<Seq<EditLine>, Seq<char>> {
    match anchor_index(lines, op_tag(op)) {
        None => Err(op_tag(op)),
        Some(i) => match op {
            TaggedEditOp::ReplaceLine { new_text, .. } => Ok(
                lines.update(i as int, (lines[i as int].0, new_text@)),
            ),
            TaggedEditOp::InsertAfterTag { new_text, .. } => Ok(
                lines.insert((i + 1) as int, (None, new_text@)),
            ),
            TaggedEditOp::DeleteLine { .. } => Ok(lines.remove(i as int)),
        },
    }
}

/// The operations applied in order, stopping at the first stale tag.
pub open spec fn apply_ops(lines: Seq<EditLine>, ops: Seq<TaggedEditOp>) -> Result<Seq<EditLine>, Seq<char>>
    decreases ops.len(),
{
    if ops.len() == 0 {
        Ok(lines)
    } else {
        match apply_ops(lines, ops.drop_last()) {
            Err(tag) => Err(tag),
            Ok(mid) => apply_op(mid, ops.last()),
        }
    }
}

/// The lines of `content` before any edit, each anchored by its tag.
pub open spec fn initial_edit_lines(content: Seq<char>) -> Seq<EditLine> {
    Seq::new(
        lines_of(content).len(),
        |i: int| (Some(line_tag_spec((i + 1) as nat, lines_of(content)[i])), lines_of(content)[i]),
    )
}

/// The texts of the lines under edit.
pub open spec fn edit_texts(lines: Seq<EditLine>) -> Seq<Seq<char>> {
    lines.map_values(|l: EditLine| l.1)
}

struct EditableLine {
    anchor_tag: Option<String>,
    text: String,
}

spec fn edit_line_view(l: EditableLine) -> EditLine {
    (
        match l.anchor_tag {
            Some(t) => Some(t@),
            None => None,
        },
        l.text@,
    )
}

spec fn edit_lines_view(v: Seq<EditableLine>) -> Seq<EditLine> {
    v.map_values(|l: EditableLine| edit_line_view(l))
}

/// The index of the first line anchored by `tag`.
fn find_anchor_index(lines: &Vec<EditableLine>, tag: &str) -> (r: Result<usize, EditError>)
    ensures
        match anchor_index(edit_lines_view(lines@), tag@) {
            Some(i) => r matches Ok(k) && k == i,
            None => r matches Err(EditError::StaleTag(t)) && t@ == tag@,
        },
{
    let ghost ls = edit_lines_view(lines@);
    let mut i: usize = 0;
    while i < lines.len()
        invariant
            i <= lines@.len(),
            ls == edit_lines_view(lines@),
            anchor_index(ls.take(i as int), tag@) is None,
        decreases lines.len() - i,
    {
        assert(ls.take(i + 1).drop_last() == ls.take(i as int));
        let hit = match &lines[i].anchor_tag {
            Some(t) => str_eq(t.as_str(), tag),
            None => false,
        };
        if hit {
            proof {
                assert(ls.take(i + 1).last() == ls[i as int]);
                lemma_anchor_index_prefix(ls, tag@, (i + 1) as int);
            }
            return Ok(i);
        }
        i = i + 1;
    }
    assert(ls.take(lines@.len() as int) == ls);
    Err(EditError::StaleTag(tag.to_owned()))
}

/// `anchor_index` finds the first line anchored by the tag, and finds nothing
/// exactly when no line is anchored by it.
pub proof fn lemma_anchor_index(ls: Seq<EditLine>, tag: Seq<char>)
    ensures
        match anchor_index(ls, tag) {
            Some(i) => i < ls.len() && ls[i as int].0 == Some(tag) && forall|j: int|
                0 <= j < i ==> ls[j].0 != Some(tag),
            None => forall|j: int| 0 <= j < ls.len() ==> ls[j].0 != Some(tag),
        },
    decreases ls.len(),
{
    if ls.len() > 0 {
        let init = ls.drop_last();
        lemma_anchor_index(init, tag);
        assert forall|j: int| 0 <= j < init.len() implies init[j] == ls[j] by {}
    }
}

/// The first anchor of a sequence is found in any prefix that reaches it.
proof fn lemma_anchor_index_prefix(ls: Seq<EditLine>, tag: Seq<char>, n: int)
    requires
        0 < n <= ls.len(),
        anchor_index(ls.take(n), tag) is Some,
    ensures
        anchor_index(ls, tag) == anchor_index(ls.take(n), tag),
    decreases ls.len(),
{
    if n < ls.len() {
        assert(ls.drop_last().take(n) == ls.take(n));
        lemma_anchor_index_prefix(ls.drop_last(), tag, n);
    } else {
        assert(ls.take(n) == ls);
    }
}

/// Applies `ops` in order to the tagged lines of `content` and joins the
/// resulting lines with `'\n'`.  Fails with `EmptyContent` when `content` has
/// no lines and there is an operation, and with `StaleTag` at the first
/// operation whose tag no current line carries.
pub fn apply_tagged_edits(content: &str, ops: &[TaggedEditOp]) -> (r: Result<String, EditError>)
    ensures
        lines_of(content@).len() == 0 && ops@.len() > 0 ==> r matches Err(EditError::EmptyContent),
        !(lines_of(content@).len() == 0 && ops@.len() > 0) ==> match apply_ops(initial_edit_lines(content@), ops@) {
            Ok(ls) => r matches Ok(s) && s@ == join_with(edit_texts(ls), seq!['\n']),
            Err(tag) => r matches Err(EditError::StaleTag(t)) && t@ == tag,
        },
{
    let initial = hash_lines(content);
    assert(initial@.len() == lines_of(content@).len());
    if initial.len() == 0 && ops.len() > 0 {
        return Err(EditError::EmptyContent);
    }
    let mut editable: Vec<EditableLine> = Vec::new();
    let mut k: usize = 0;
    while k < initial.len()
        invariant
            k <= initial@.len(),
            hashes_lines_of(initial@, content@),
            edit_lines_view(editable@) == initial_edit_lines(content@).take(k as int),
        decreases initial.len() - k,
    {
        assert(initial@[k as int].line_no == k + 1);
        editable.push(EditableLine { anchor_tag: Some(initial[k].tag.clone()), text: initial[k].text.clone() });
        assert(edit_lines_view(editable@) == edit_lines_view(editable@.drop_last()).push(edit_line_view(editable@.last())));
        assert(initial_edit_lines(content@).take(k + 1) == initial_edit_lines(content@).take(k as int).push(initial_edit_lines(content@)[k as int]));
        k = k + 1;
    }
    assert(initial_edit_lines(content@).take(initial@.len() as int) == initial_edit_lines(content@));
    let ghost start = initial_edit_lines(content@);
    let mut j: usize = 0;
    while j < ops.len()
        invariant
            j <= ops@.len(),
            start == initial_edit_lines(content@),
            !(lines_of(content@).len() == 0 && ops@.len() > 0),
            apply_ops(start, ops@.take(j as int)) == Ok::<Seq<EditLine>, Seq<char>>(edit_lines_view(editable@)),
        decreases ops.len() - j,
    {
        let ghost before = edit_lines_view(editable@);
        assert(ops@.take(j + 1).drop_last() == ops@.take(j as int));
        assert(ops@.take(j + 1).last() == ops@[j as int]);
        match &ops[j] {
            TaggedEditOp::ReplaceLine { tag, new_text } => {
                proof { lemma_anchor_index(before, tag@); }
                let idx = match find_anchor_index(&editable, tag.as_str()) {
                    Ok(i) => i,
                    Err(e) => {
                        proof { lemma_apply_ops_stale(start, ops@, (j + 1) as int); }
                        return Err(e);
                    },
                };
                let anchor = match &editable[idx].anchor_tag {
                    Some(t) => Some(t.clone()),
                    None => None,
                };
                editable.set(idx, EditableLine { anchor_tag: anchor, text: new_text.clone() });
                assert(edit_lines_view(editable@) == before.update(idx as int, (before[idx as int].0, new_text@)));
                assert(apply_op(before, ops@[j as int]) == Ok::<Seq<EditLine>, Seq<char>>(edit_lines_view(editable@)));
            },
            TaggedEditOp::InsertAfterTag { tag, new_text } => {
                proof { lemma_anchor_index(before, tag@); }
                let idx = match find_anchor_index(&editable, tag.as_str()) {
                    Ok(i) => i,
                    Err(e) => {
                        proof { lemma_apply_ops_stale(start, ops@, (j + 1) as int); }
                        return Err(e);
                    },
                };
                let len = editable.len();
                assert(idx < len);
                editable.insert(idx + 1, EditableLine { anchor_tag: None, text: new_text.clone() });
                assert(edit_lines_view(editable@) == before.insert(idx + 1, (None::<Seq<char>>, new_text@)));
                assert(apply_op(before, ops@[j as int]) == Ok::<Seq<EditLine>, Seq<char>>(edit_lines_view(editable@)));
            },
            TaggedEditOp::DeleteLine { tag } => {
                proof { lemma_anchor_index(before, tag@); }
                let idx = match find_anchor_index(&editable, tag.as_str()) {
                    Ok(i) => i,
                    Err(e) => {
                        proof { lemma_apply_ops_stale(start, ops@, (j + 1) as int); }
                        return Err(e);
                    },
                };
                editable.remove(idx);
                assert(edit_lines_view(editable@) == before.remove(idx as int));
                assert(apply_op(before, ops@[j as int]) == Ok::<Seq<EditLine>, Seq<char>>(edit_lines_view(editable@)));
            },
        }
        j = j + 1;
    }
    assert(ops@.take(ops@.len() as int) == ops@);
    let mut texts: Vec<String> = Vec::new();
    let mut m: usize = 0;
    while m < editable.len()
        invariant
            m <= editable@.len(),
            !(lines_of(content@).len() == 0 && ops@.len() > 0),
            apply_ops(start, ops@) == Ok::<Seq<EditLine>, Seq<char>>(edit_lines_view(editable@)),
            start == initial_edit_lines(content@),
            views(texts@) == edit_texts(edit_lines_view(editable@)).take(m as int),
        decreases editable.len() - m,
    {
        texts.push(editable[m].text.clone());
        assert(views(texts@) == views(texts@.drop_last()).push(texts@.last()@));
        assert(edit_texts(edit_lines_view(editable@)).take(m + 1) == edit_texts(edit_lines_view(editable@)).take(m as int).push(editable@[m as int].text@));
        m = m + 1;
    }
    assert(edit_texts(edit_lines_view(editable@)).take(editable@.len() as int) == edit_texts(edit_lines_view(editable@)));
    let nl = chars_vec("\n");
    proof {
        reveal_strlit("\n");
    }
    let sep = string_from_chars(nl.as_slice(), 0, 1);
    assert(sep@ == seq!['\n']);
    Ok(join_strings(&texts, sep.as_str()))
}

/// Once an operation meets a stale tag, the whole sequence reports it.
proof fn lemma_apply_ops_stale(lines: Seq<EditLine>, ops: Seq<TaggedEditOp>, n: int)
    requires
        0 < n <= ops.len(),
        apply_ops(lines, ops.take(n)) is Err,
    ensures
        apply_ops(lines, ops) == apply_ops(lines, ops.take(n)),
    decreases ops.len(),
{
    if n < ops.len() {
        assert(ops.drop_last().take(n) == ops.take(n));
        lemma_apply_ops_stale(lines, ops.drop_last(), n);
    } else {
        assert(ops.take(n) == ops);
    }
}

// ---------------------------------------------------------------------------
// Laws
// ---------------------------------------------------------------------------

proof fn lemma_scan_lines_join(s: Seq<char>)
    requires
        forall|i: int| 0 <= i < s.len() ==> s[i] != '\r',
    ensures
        ({
            let (done, open) = scan_lines(s);
            &&& done.len() == 0 ==> s == open
            &&& done.len() > 0 ==> s == join_with(done, seq!['\n']) + seq!['\n'] + open
            &&& (s.len() > 0 && open.len() == 0) ==> s.last() == '\n'
            &&& forall|i: int| 0 <= i < open.len() ==> open[i] != '\r'
        }),
    decreases s.len(),
{
    if s.len() > 0 {
        let init = s.drop_last();
        assert forall|i: int| 0 <= i < init.len() implies init[i] != '\r' by {
            assert(init[i] == s[i]);
        }
        lemma_scan_lines_join(init);
        let (done, open) = scan_lines(init);
        assert(s == init.push(s.last()));
        if s.last() == '\n' {
            assert(strip_cr(open) == open);
            let nd = done.push(open);
            assert(nd.drop_last() == done);
            if done.len() == 0 {
                assert(join_with(nd, seq!['\n']) == open);
            }
            assert(s == join_with(nd, seq!['\n']) + seq!['\n'] + Seq::<char>::empty());
        } else {
            let no = open.push(s.last());
            if done.len() == 0 {
                assert(s == no);
            } else {
                assert(s == join_with(done, seq!['\n']) + seq!['\n'] + no);
            }
        }
    }
}

/// Splitting into lines and joining them again with `'\n'` gives back the
/// content, when it has no carriage return and does not end with a line end.
pub proof fn lemma_lines_join_roundtrip(s: Seq<char>)
    requires
        forall|i: int| 0 <= i < s.len() ==> s[i] != '\r',
        s.len() == 0 || s.last() != '\n',
    ensures
        join_with(lines_of(s), seq!['\n']) == s,
{
    lemma_scan_lines_join(s);
    let (done, open) = scan_lines(s);
    if open.len() > 0 {
        let l = done.push(open);
        assert(l.drop_last() == done);
        if done.len() == 0 {
            assert(join_with(l, seq!['\n']) == open);
        }
    } else {
        assert(s.len() == 0);
    }
}

/// A content that ends with a line end has the same lines as the content
/// without it (the final line end is optional).
pub proof fn lemma_final_line_end_optional(s: Seq<char>)
    requires
        s.len() > 0,
        s.last() != '\n',
        s.last() != '\r',
    ensures
        lines_of(s.push('\n')) == lines_of(s),
{
    let t = s.push('\n');
    assert(t.drop_last() == s);
    let (done, open) = scan_lines(s);
    assert(open.len() > 0) by {
        assert(s == s.drop_last().push(s.last()));
    }
    assert(open.last() == s.last()) by {
        assert(s == s.drop_last().push(s.last()));
    }
    assert(strip_cr(open) == open);
}

/// With no operations, an edit of non-empty content gives back its lines
/// joined by `'\n'` (the content itself when it has no `'\r'` and no final
/// line end).
pub proof fn lemma_no_ops_identity(content: Seq<char>)
    ensures
        apply_ops(initial_edit_lines(content), Seq::empty()) == Ok::<Seq<EditLine>, Seq<char>>(initial_edit_lines(content)),
        edit_texts(initial_edit_lines(content)) == lines_of(content),
        (forall|i: int| 0 <= i < content.len() ==> content[i] != '\r') && (content.len() == 0 || content.last() != '\n')
            ==> join_with(edit_texts(initial_edit_lines(content)), seq!['\n']) == content,
{
    assert(edit_texts(initial_edit_lines(content)) =~= lines_of(content));
    if (forall|i: int| 0 <= i < content.len() ==> content[i] != '\r') && (content.len() == 0 || content.last() != '\n') {
        lemma_lines_join_roundtrip(content);
    }
}

/// The anchors of the lines under edit.
pub open spec fn anchors(lines: Seq<EditLine>) -> Seq<Option<Seq<char>>> {
    lines.map_values(|l: EditLine| l.0)
}

/// The shape of one successful operation: a replacement keeps every anchor
/// and the line count and changes one text; an insertion adds one unanchored
/// line right after the addressed line; a deletion removes the addressed line.
/// Lines other than the addressed one keep their text and anchor.
pub proof fn lemma_apply_op_shape(lines: Seq<EditLine>, op: TaggedEditOp)
    requires
        apply_op(lines, op) is Ok,
    ensures
        ({
            let i = anchor_index(lines, op_tag(op))->0 as int;
            let out = apply_op(lines, op)->Ok_0;
            &&& 0 <= i < lines.len()
            &&& lines[i].0 == Some(op_tag(op))
            &&& match op {
                TaggedEditOp::ReplaceLine { new_text, .. } => {
                    &&& anchors(out) == anchors(lines)
                    &&& out.len() == lines.len()
                    &&& out[i].1 == new_text@
                    &&& forall|k: int| 0 <= k < lines.len() && k != i ==> out[k] == lines[k]
                },
                TaggedEditOp::InsertAfterTag { new_text, .. } => {
                    &&& out.len() == lines.len() + 1
                    &&& out[i + 1] == (None::<Seq<char>>, new_text@)
                    &&& forall|k: int| 0 <= k <= i ==> out[k] == lines[k]
                    &&& forall|k: int| i < k < lines.len() ==> out[k + 1] == lines[k]
                },
                TaggedEditOp::DeleteLine { .. } => {
                    &&& out.len() + 1 == lines.len()
                    &&& forall|k: int| 0 <= k < i ==> out[k] == lines[k]
                    &&& forall|k: int| i < k < lines.len() ==> out[k - 1] == lines[k]
                },
            }
        }),
{
    lemma_anchor_index(lines, op_tag(op));
    let i = anchor_index(lines, op_tag(op))->0 as int;
    let out = apply_op(lines, op)->Ok_0;
    match op {
        TaggedEditOp::ReplaceLine { new_text, .. } => {
            assert(anchors(out) =~= anchors(lines));
        },
        _ => {},
    }
}

/// Replacements never invalidate a tag: after any number of successful
/// replacements the anchors are those of the lines before the edit, so every
/// initial tag still addresses its line.
pub proof fn lemma_replacements_keep_anchors(lines: Seq<EditLine>, ops: Seq<TaggedEditOp>)
    requires
        forall|k: int| 0 <= k < ops.len() ==> ops[k] is ReplaceLine,
        apply_ops(lines, ops) is Ok,
    ensures
        anchors(apply_ops(lines, ops)->Ok_0) == anchors(lines),
    decreases ops.len(),
{
    if ops.len() > 0 {
        let init = ops.drop_last();
        assert forall|k: int| 0 <= k < init.len() implies init[k] is ReplaceLine by {
            assert(init[k] == ops[k]);
        }
        if apply_ops(lines, init) is Ok {
            lemma_replacements_keep_anchors(lines, init);
            let mid = apply_ops(lines, init)->Ok_0;
            assert(ops.last() is ReplaceLine);
            lemma_apply_op_shape(mid, ops.last());
        }
    }
}

/// No two lines under edit carry the same anchor (as after `hash_lines`
/// with distinct tags).
pub open spec fn distinct_anchors(lines: Seq<EditLine>) -> bool {
    forall|i: int, j: int| 0 <= i < lines.len() && 0 <= j < lines.len() && i != j && (#[trigger] lines[i]).0 is Some
        ==> lines[i].0 != (#[trigger] lines[j]).0
}

/// Lines with the same anchors have the same first anchored line for any tag.
proof fn lemma_anchor_index_by_anchors(a: Seq<EditLine>, b: Seq<EditLine>, tag: Seq<char>)
    requires
        anchors(a) == anchors(b),
    ensures
        anchor_index(a, tag) == anchor_index(b, tag),
{
    lemma_anchor_index(a, tag);
    lemma_anchor_index(b, tag);
    assert(a.len() == anchors(a).len() && b.len() == anchors(b).len());
    assert forall|k: int| 0 <= k < a.len() implies a[k].0 == b[k].0 by {
        assert(anchors(a)[k] == a[k].0);
        assert(anchors(b)[k] == b[k].0);
    }
    match anchor_index(a, tag) {
        Some(i) => {
            match anchor_index(b, tag) {
                Some(j) => {
                    if i < j { assert(b[i as int].0 == Some(tag)); }
                    if j < i { assert(a[j as int].0 == Some(tag)); }
                },
                None => { assert(b[i as int].0 == Some(tag)); },
            }
        },
        None => {
            if let Some(j) = anchor_index(b, tag) {
                assert(a[j as int].0 == Some(tag));
            }
        },
    }
}

/// Deleting a tagged line twice fails on the second deletion with the tag
/// (the line and its tag are gone); replacing a tagged line twice is the
/// same as replacing it once with the second text.  Tags are unique here.
pub proof fn lemma_repeated_tag_edits(lines: Seq<EditLine>, tag: String, x: String, y: String)
    requires
        distinct_anchors(lines),
        anchor_index(lines, tag@) is Some,
    ensures
        apply_ops(lines, seq![TaggedEditOp::DeleteLine { tag }, TaggedEditOp::DeleteLine { tag }]) == Err::<Seq<EditLine>, Seq<char>>(tag@),
        apply_ops(lines, seq![TaggedEditOp::ReplaceLine { tag, new_text: x }, TaggedEditOp::ReplaceLine { tag, new_text: y }])
            == apply_ops(lines, seq![TaggedEditOp::ReplaceLine { tag, new_text: y }]),
{
    lemma_anchor_index(lines, tag@);
    let i = anchor_index(lines, tag@)->0 as int;
    let d = TaggedEditOp::DeleteLine { tag };
    let rx = TaggedEditOp::ReplaceLine { tag, new_text: x };
    let ry = TaggedEditOp::ReplaceLine { tag, new_text: y };
    // deletions
    let del = seq![d, d];
    assert(del.drop_last() == seq![d]);
    assert(seq![d].drop_last() == Seq::<TaggedEditOp>::empty());
    assert(apply_ops(lines, Seq::<TaggedEditOp>::empty()) == Ok::<Seq<EditLine>, Seq<char>>(lines));
    assert(seq![d].last() == d && del.last() == d);
    assert(apply_ops(lines, seq![d]) == apply_op(lines, d));
    let out = lines.remove(i);
    assert(apply_op(lines, d) == Ok::<Seq<EditLine>, Seq<char>>(out));
    assert forall|k: int| 0 <= k < out.len() implies out[k].0 != Some(tag@) by {
        if k < i {
            assert(out[k] == lines[k]);
        } else {
            assert(out[k] == lines[k + 1]);
        }
    }
    lemma_anchor_index(out, tag@);
    assert(apply_ops(lines, del) == apply_op(out, d));
    // replacements
    let rep = seq![rx, ry];
    assert(rep.drop_last() == seq![rx]);
    assert(seq![rx].drop_last() == Seq::<TaggedEditOp>::empty());
    assert(seq![ry].drop_last() == Seq::<TaggedEditOp>::empty());
    assert(seq![rx].last() == rx && seq![ry].last() == ry && rep.last() == ry);
    assert(apply_ops(lines, seq![rx]) == apply_op(lines, rx));
    assert(apply_ops(lines, seq![ry]) == apply_op(lines, ry));
    let mid = lines.update(i, (lines[i].0, x@));
    assert(anchors(mid) =~= anchors(lines));
    lemma_anchor_index_by_anchors(mid, lines, tag@);
    assert(apply_ops(lines, rep) == apply_op(mid, ry));
    assert(mid.update(i, (mid[i].0, y@)) =~= lines.update(i, (lines[i].0, y@)));
}

/// The tag shown on a rendered line is the tag that line is tagged with:
/// for any tagging `lines` of `content` (as `hash_lines` gives), rendered
/// line `i` shows line number `i + 1`, the tag of `lines[i]` (hashed from
/// that line number and the line's text), and the text, and the line under
/// edit `i` is anchored by that same tag.  So replacing,
/// inserting after, or deleting by the tag displayed on any line finds a
/// line: it is never refused as stale.
pub proof fn lemma_displayed_tags_are_accepted(content: Seq<char>, lines: Seq<HashedLine>, i: int, t: String, x: String)
    requires
        hashes_lines_of(lines, content),
        0 <= i < lines.len(),
        t@ == lines[i].tag@,
    ensures
        rendered_lines(content)[i] == render_line(lines[i].line_no as nat, lines[i].tag@, lines[i].text@),
        lines[i].line_no == i + 1,
        lines[i].tag@ == line_tag_spec(lines[i].line_no as nat, lines[i].text@),
        lines[i].text@ == lines_of(content)[i],
        initial_edit_lines(content)[i] == (Some(lines[i].tag@), lines[i].text@),
        apply_op(initial_edit_lines(content), TaggedEditOp::ReplaceLine { tag: t, new_text: x }) is Ok,
        apply_op(initial_edit_lines(content), TaggedEditOp::InsertAfterTag { tag: t, new_text: x }) is Ok,
        apply_op(initial_edit_lines(content), TaggedEditOp::DeleteLine { tag: t }) is Ok,
{
    let ls = initial_edit_lines(content);
    assert(lines[i].line_no == i + 1);
    assert(ls[i] == (Some(lines[i].tag@), lines[i].text@));
    lemma_anchor_index(ls, t@);
    if anchor_index(ls, t@) is None {
        assert(ls[i].0 == Some(t@));
        assert(false);
    }
}

/// One edit addressed by the tag of line `i` of `content` (no earlier line
/// carrying the same tag) acts on that line and no other: a replacement
/// changes exactly that line's text, an insertion puts the new line right
/// after it, and a deletion removes exactly it; the result is the lines
/// joined by `'\n'`.
pub proof fn lemma_single_edit_effects(content: Seq<char>, i: int, t: String, x: String)
    requires
        0 <= i < lines_of(content).len(),
        t@ == line_tag_spec((i + 1) as nat, lines_of(content)[i]),
        forall|j: int| 0 <= j < i ==> line_tag_spec((j + 1) as nat, lines_of(content)[j]) != t@,
    ensures
        edit_outcome(content, seq![TaggedEditOp::ReplaceLine { tag: t, new_text: x }])
            == Ok::<Seq<char>, Seq<char>>(join_with(lines_of(content).update(i, x@), seq!['\n'])),
        edit_outcome(content, seq![TaggedEditOp::InsertAfterTag { tag: t, new_text: x }])
            == Ok::<Seq<char>, Seq<char>>(join_with(lines_of(content).insert(i + 1, x@), seq!['\n'])),
        edit_outcome(content, seq![TaggedEditOp::DeleteLine { tag: t }])
            == Ok::<Seq<char>, Seq<char>>(join_with(lines_of(content).remove(i), seq!['\n'])),
{
    let ls = initial_edit_lines(content);
    lemma_anchor_index(ls, t@);
    assert(ls[i].0 == Some(t@));
    match anchor_index(ls, t@) {
        Some(a) => {
            if (a as int) < i {
                assert(ls[a as int].0 == Some(line_tag_spec((a + 1) as nat, lines_of(content)[a as int])));
            }
            assert(a as int == i);
        },
        None => {},
    }
    let texts = lines_of(content);
    assert(edit_texts(ls) =~= texts);
    let r = TaggedEditOp::ReplaceLine { tag: t, new_text: x };
    let n = TaggedEditOp::InsertAfterTag { tag: t, new_text: x };
    let d = TaggedEditOp::DeleteLine { tag: t };
    assert(seq![r].drop_last() == Seq::<TaggedEditOp>::empty() && seq![r].last() == r);
    assert(seq![n].drop_last() == Seq::<TaggedEditOp>::empty() && seq![n].last() == n);
    assert(seq![d].drop_last() == Seq::<TaggedEditOp>::empty() && seq![d].last() == d);
    assert(apply_ops(ls, Seq::<TaggedEditOp>::empty()) == Ok::<Seq<EditLine>, Seq<char>>(ls));
    assert(edit_texts(ls.update(i, (ls[i].0, x@))) =~= texts.update(i, x@));
    assert(edit_texts(ls.insert(i + 1, (None, x@))) =~= texts.insert(i + 1, x@));
    assert(edit_texts(ls.remove(i)) =~= texts.remove(i));
}

/// What editing `content` with `ops` yields: the new content, or the
/// message of the edit error.
pub open spec fn edit_outcome(content: Seq<char>, ops: Seq<TaggedEditOp>) -> Result<Seq<char>, Seq<char>> {
    if lines_of(content).len() == 0 && ops.len() > 0 {
        Err(EditError::EmptyContent.message())
    } else {
        match apply_ops(initial_edit_lines(content), ops) {
            Ok(ls) => Ok(join_with(edit_texts(ls), seq!['\n'])),
            Err(tag) => Err("tag is stale or missing in current content: "@ + tag),
        }
    }
}

/// Edits a file inside the workspace by line tags.
pub struct EditFileTool {
    pub policy: FsPolicy,
}

/// The result of an edit: the content to write back and its tagged rendering.
pub struct EditedFile {
    pub new_content: String,
    pub rendered: String,
}

impl EditFileTool {
    pub fn new(policy: FsPolicy) -> (t: Self)
        ensures
            t.policy == policy,
    {
        EditFileTool { policy }
    }

    pub fn definition(&self) -> (d: ToolDefinition)
        ensures
            declares(d, "edit_file"@,
                "Edits a file using line tags. Operations: replace_line, insert_after_tag, delete_line."@,
                "{\"type\":\"object\",\"properties\":{\"path\":{\"type\":\"string\",\"description\":\"Path to the file\"},\"ops\":{\"type\":\"array\",\"items\":{\"type\":\"object\",\"oneOf\":[{\"properties\":{\"op\":{\"const\":\"replace_line\"},\"tag\":{\"type\":\"string\"},\"new_text\":{\"type\":\"string\"}},\"required\":[\"op\",\"tag\",\"new_text\"]},{\"properties\":{\"op\":{\"const\":\"insert_after_tag\"},\"tag\":{\"type\":\"string\"},\"new_text\":{\"type\":\"string\"}},\"required\":[\"op\",\"tag\",\"new_text\"]},{\"properties\":{\"op\":{\"const\":\"delete_line\"},\"tag\":{\"type\":\"string\"}},\"required\":[\"op\",\"tag\"]}]}}},\"required\":[\"path\",\"ops\"]}"@,
                "Edit File"@, (false, true, false, false, false), "filesystem"@, ("fs"@, "edit"@), 30),
    {
        make_definition("edit_file",
            "Edits a file using line tags. Operations: replace_line, insert_after_tag, delete_line.",
            "{\"type\":\"object\",\"properties\":{\"path\":{\"type\":\"string\",\"description\":\"Path to the file\"},\"ops\":{\"type\":\"array\",\"items\":{\"type\":\"object\",\"oneOf\":[{\"properties\":{\"op\":{\"const\":\"replace_line\"},\"tag\":{\"type\":\"string\"},\"new_text\":{\"type\":\"string\"}},\"required\":[\"op\",\"tag\",\"new_text\"]},{\"properties\":{\"op\":{\"const\":\"insert_after_tag\"},\"tag\":{\"type\":\"string\"},\"new_text\":{\"type\":\"string\"}},\"required\":[\"op\",\"tag\",\"new_text\"]},{\"properties\":{\"op\":{\"const\":\"delete_line\"},\"tag\":{\"type\":\"string\"}},\"required\":[\"op\",\"tag\"]}]}}},\"required\":[\"path\",\"ops\"]}",
            "Edit File", annotations(false, true, false, false, false), "filesystem", "fs", "edit", 30)
    }

    /// Edits the content just read (or reports the read error): the new
    /// content to write back, with its tagged rendering for the answer.
    pub fn edit(&self, read: Result<String, String>, ops: &[TaggedEditOp]) -> (r: Result<EditedFile, ToolError>)
        ensures
            match read {
                Err(e) => r matches Err(x) && x.tool_name@ == "edit_file"@ && x.message@ == "Failed to read file: "@ + e@,
                Ok(c) => match edit_outcome(c@, ops@) {
                    Err(m) => r matches Err(x) && x.tool_name@ == "edit_file"@ && x.message@ == "Edit failed: "@ + m,
                    Ok(n) => r matches Ok(f) && f.new_content@ == n && f.rendered@ == rendered_content(n),
                },
            },
    {
        let content = match read {
            Err(e) => return Err(prefixed_error("edit_file", "Failed to read file: ", e.as_str())),
            Ok(c) => c,
        };
        match apply_tagged_edits(content.as_str(), ops) {
            Err(e) => {
                let m = e.to_string();
                Err(prefixed_error("edit_file", "Edit failed: ", m.as_str()))
            },
            Ok(n) => {
                let rendered = render_hashed_content(n.as_str());
                Ok(EditedFile { new_content: n, rendered })
            },
        }
    }
}

} // verus!
