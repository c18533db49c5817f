//! JSON documents carried as text, read and built through `serde_json`.
use vstd::prelude::*;

use crate::text::views;

verus! {

/// The string at `key` of the JSON object in `text`, when `text` parses as
/// an object whose `key` holds a string.
pub uninterp spec fn json_string_field(text: Seq<char>, key: Seq<char>) -> Option<Seq<char>>;

/// The unsigned integer at `key` of the JSON object in `text`, when `text`
/// parses as an object whose `key` holds a number representable as `u64`.
pub uninterp spec fn json_u64_field(text: Seq<char>, key: Seq<char>) -> Option<u64>;

/// The items of the array at `key` of the JSON object in `text`, each
/// written back as compact JSON text, when `text` parses as an object whose
/// `key` holds an array.
pub uninterp spec fn json_array_field(text: Seq<char>, key: Seq<char>) -> Option<Seq<Seq<char>>>;

/// The JSON string literal of `s`: quoted, with the characters JSON
/// requires escaped.
pub uninterp spec fn json_quoted(s: Seq<char>) -> Seq<char>;

/// A member value of a JSON object: a string, an unsigned number, an
/// array of strings, a boolean, or `null`.
pub enum JsonScalar {
    Str(String),
    Num(u64),
    Strs(Vec<String>),
    Bool(bool),
    Null,
}

/// A member value as plain values.
pub enum JsonScalarV {
    Str(Seq<char>),
    Num(u64),
    Strs(Seq<Seq<char>>),
    Bool(bool),
    Null,
}

/// The plain values of an object's members.
pub open spec fn members_view(v: Seq<(String, JsonScalar)>) -> Seq<(Seq<char>, JsonScalarV)> {
    v.map_values(|m: (String, JsonScalar)| (m.0@, match m.1 {
        JsonScalar::Str(s) => JsonScalarV::Str(s@),
        JsonScalar::Num(n) => JsonScalarV::Num(n),
        JsonScalar::Strs(v) => JsonScalarV::Strs(views(v@)),
        JsonScalar::Bool(b) => JsonScalarV::Bool(b),
        JsonScalar::Null => JsonScalarV::Null,
    }))
}

/// The compact text `serde_json` writes for the object with these members.
pub uninterp spec fn json_object_text(members: Seq<(Seq<char>, JsonScalarV)>) -> Seq<char>;

/// No other member of `members` has the key of member `i`.
pub open spec fn key_unique(members: Seq<(Seq<char>, JsonScalarV)>, i: int) -> bool {
    forall|j: int| 0 <= j < members.len() && j != i ==> #[trigger] members[j].0 != members[i].0
}

/// Reading the member's key of the JSON object `text` gives the member's
/// value (nothing is read back of a boolean or `null` member).
pub open spec fn reads_back(text: Seq<char>, member: (Seq<char>, JsonScalarV)) -> bool {
    match member.1 {
        JsonScalarV::Str(s) => json_string_field(text, member.0) == Some(s),
        JsonScalarV::Num(n) => json_u64_field(text, member.0) == Some(n),
        JsonScalarV::Strs(items) => json_array_field(text, member.0) == Some(items.map_values(|x: Seq<char>| json_quoted(x))),
        JsonScalarV::Bool(_) => true,
        JsonScalarV::Null => true,
    }
}

/// `serde_json::to_string` of the object with the given members (each a
/// `Value::String`, a `Value::Number`, a `Value::Array` of strings, a
/// `Value::Bool`, or `Value::Null`).  Trusted: the text is named
/// `json_object_text`; parsing it back, a member whose key occurs once
/// reads as the value written (serde_json writes and reads strings and
/// `u64` numbers exactly; an array's items read back as quoted strings).
#[verifier::external_body]
pub(crate) fn json_object(members: &Vec<(String, JsonScalar)>) -> (r: String)
    ensures
        r@ == json_object_text(members_view(members@)),
        forall|i: int| 0 <= i < members@.len() && key_unique(members_view(members@), i)
            ==> #[trigger] reads_back(r@, members_view(members@)[i]),
{
    serde_json::Value::Object(members.iter().map(|(k, v)| (k.clone(), match v {
        JsonScalar::Str(s) => serde_json::Value::String(s.clone()),
        JsonScalar::Num(n) => serde_json::Value::from(*n),
        JsonScalar::Strs(v) => v.iter().map(|x| serde_json::Value::String(x.clone())).collect(),
        JsonScalar::Bool(b) => serde_json::Value::Bool(*b),
        JsonScalar::Null => serde_json::Value::Null,
    })).collect()).to_string()
}

/// The text of the JSON object `{"error": error}`.
pub open spec fn error_object_json(error: Seq<char>) -> Seq<char> {
    json_object_text(seq![("error"@, JsonScalarV::Str(error))])
}

/// The text of the JSON object with the four counts of a context
/// compaction.
pub open spec fn compaction_json(iteration: u32, dropped: usize, before: usize, after: usize) -> Seq<char> {
    json_object_text(seq![
        ("iteration"@, JsonScalarV::Num(iteration as u64)),
        ("dropped_count"@, JsonScalarV::Num(dropped as u64)),
        ("tokens_before"@, JsonScalarV::Num(before as u64)),
        ("tokens_after"@, JsonScalarV::Num(after as u64)),
    ])
}

/// `serde_json::from_str`, then `Value::get` and `Value::as_str`.  Trusted:
/// the answer is named `json_string_field`.
#[verifier::external_body]
pub(crate) fn json_str_field(text: &str, key: &str) -> (r: Option<String>)
    ensures
        match r {
            Some(s) => json_string_field(text@, key@) == Some(s@),
            None => json_string_field(text@, key@) is None,
        },
{
    serde_json::from_str::<serde_json::Value>(text).ok().and_then(|v| v.get(key).and_then(|f| f.as_str().map(|s| s.to_owned())))
}

/// `serde_json::from_str`, then `Value::get` and `Value::as_u64`.  Trusted:
/// the answer is named `json_u64_field`.
#[verifier::external_body]
pub(crate) fn json_u64_field_of(text: &str, key: &str) -> (r: Option<u64>)
    ensures
        r == json_u64_field(text@, key@),
{
    serde_json::from_str::<serde_json::Value>(text).ok().and_then(|v| v.get(key).and_then(|f| f.as_u64()))
}

/// `serde_json::from_str`, then `Value::get`, `Value::as_array`, and
/// `Value::to_string` of each item.  Trusted: the answer is named
/// `json_array_field`.
#[verifier::external_body]
pub(crate) fn json_array_items(text: &str, key: &str) -> (r: Option<Vec<String>>)
    ensures
        match r {
            Some(v) => json_array_field(text@, key@) == Some(views(v@)),
            None => json_array_field(text@, key@) is None,
        },
{
    serde_json::from_str::<serde_json::Value>(text).ok().and_then(|v| v.get(key).and_then(|a| a.as_array().map(|items| items.iter().map(|i| i.to_string()).collect())))
}

/// Whether the JSON object in `text` has a member `key` (of any value),
/// when `text` parses as an object.
pub uninterp spec fn json_field_present(text: Seq<char>, key: Seq<char>) -> bool;

/// `serde_json::from_str`, then `Value::get` and `Option::is_some`.
/// Trusted: the answer is named `json_field_present`; a member holding a
/// string is present.
#[verifier::external_body]
pub(crate) fn json_has_field(text: &str, key: &str) -> (b: bool)
    ensures
        b == json_field_present(text@, key@),
        json_string_field(text@, key@) is Some ==> b,
{
    serde_json::from_str::<serde_json::Value>(text).ok().map_or(false, |v| v.get(key).is_some())
}

/// `serde_json::to_string` of a JSON string.  Trusted: the text is named
/// `json_quoted`.
#[verifier::external_body]
pub(crate) fn quote_json(s: &str) -> (r: String)
    ensures
        r@ == json_quoted(s@),
{
    serde_json::Value::String(s.to_owned()).to_string()
}

/// The object `{"error": error}`; its `error` reads back as `error`.
pub(crate) fn error_json(error: &str) -> (r: String)
    ensures
        r@ == error_object_json(error@),
        json_string_field(r@, "error"@) == Some(error@),
{
    let mut members: Vec<(String, JsonScalar)> = Vec::new();
    members.push(("error".to_owned(), JsonScalar::Str(error.to_owned())));
    let r = json_object(&members);
    assert(members_view(members@) == seq![("error"@, JsonScalarV::Str(error@))]);
    assert(key_unique(members_view(members@), 0));
    assert(reads_back(r@, members_view(members@)[0]));
    r
}

/// The object of a compaction's counts; each reads back as written.
pub(crate) fn compaction_data_json(iteration: u32, dropped: usize, before: usize, after: usize) -> (r: String)
    ensures
        r@ == compaction_json(iteration, dropped, before, after),
        json_u64_field(r@, "iteration"@) == Some(iteration as u64),
        json_u64_field(r@, "dropped_count"@) == Some(dropped as u64),
        json_u64_field(r@, "tokens_before"@) == Some(before as u64),
        json_u64_field(r@, "tokens_after"@) == Some(after as u64),
{
    let mut members: Vec<(String, JsonScalar)> = Vec::new();
    members.push(("iteration".to_owned(), JsonScalar::Num(iteration as u64)));
    members.push(("dropped_count".to_owned(), JsonScalar::Num(dropped as u64)));
    members.push(("tokens_before".to_owned(), JsonScalar::Num(before as u64)));
    members.push(("tokens_after".to_owned(), JsonScalar::Num(after as u64)));
    let r = json_object(&members);
    let ghost mv = members_view(members@);
    proof {
        reveal_strlit("iteration");
        reveal_strlit("dropped_count");
        reveal_strlit("tokens_before");
        reveal_strlit("tokens_after");
        assert(mv == seq![
            ("iteration"@, JsonScalarV::Num(iteration as u64)),
            ("dropped_count"@, JsonScalarV::Num(dropped as u64)),
            ("tokens_before"@, JsonScalarV::Num(before as u64)),
            ("tokens_after"@, JsonScalarV::Num(after as u64)),
        ]);
        assert("iteration"@ != "dropped_count"@) by { assert("iteration"@.len() != "dropped_count"@.len()); }
        assert("iteration"@ != "tokens_before"@) by { assert("iteration"@.len() != "tokens_before"@.len()); }
        assert("iteration"@ != "tokens_after"@) by { assert("iteration"@.len() != "tokens_after"@.len()); }
        assert("dropped_count"@ != "tokens_before"@) by { assert("dropped_count"@[0] != "tokens_before"@[0]); }
        assert("dropped_count"@ != "tokens_after"@) by { assert("dropped_count"@.len() != "tokens_after"@.len()); }
        assert("tokens_before"@ != "tokens_after"@) by { assert("tokens_before"@.len() != "tokens_after"@.len()); }
        assert(key_unique(mv, 0));
        assert(key_unique(mv, 1));
        assert(key_unique(mv, 2));
        assert(key_unique(mv, 3));
        assert(reads_back(r@, mv[0]));
        assert(reads_back(r@, mv[1]));
        assert(reads_back(r@, mv[2]));
        assert(reads_back(r@, mv[3]));
    }
    r
}

/// The text of the JSON object `{"text": text}`.
pub open spec fn text_object(text: Seq<char>) -> Seq<char> {
    json_object_text(seq![("text"@, JsonScalarV::Str(text))])
}

/// The object `{"text": text}`; its `text` reads back as `text`.
pub(crate) fn text_object_json(text: &str) -> (r: String)
    ensures
        r@ == text_object(text@),
        json_string_field(r@, "text"@) == Some(text@),
{
    let mut members: Vec<(String, JsonScalar)> = Vec::new();
    members.push(("text".to_owned(), JsonScalar::Str(text.to_owned())));
    let r = json_object(&members);
    assert(members_view(members@) == seq![("text"@, JsonScalarV::Str(text@))]);
    assert(key_unique(members_view(members@), 0));
    assert(reads_back(r@, members_view(members@)[0]));
    r
}

} // verus!
