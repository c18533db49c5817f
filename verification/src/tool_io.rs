//! How the workspace tools read their arguments from a call's JSON input and
//! which JSON documents they answer with.
use vstd::prelude::*;

use crate::json::{json_object, json_object_text, json_str_field, json_string_field, json_u64_field, json_u64_field_of, key_unique, members_view, reads_back, JsonScalar, JsonScalarV};
use crate::text::views;
use crate::tools::{missing_arg_message, require_arg, ToolError};

verus! {

/// A required string argument of a call: the string at `arg` of the JSON
/// object `input`, or the tool's error naming the argument when it is
/// missing or not a string.
pub fn input_arg(tool: &str, input: &str, arg: &str) -> (r: Result<String, ToolError>)
    ensures
        match json_string_field(input@, arg@) {
            Some(v) => r matches Ok(s) && s@ == v,
            None => r matches Err(e) && e.tool_name@ == tool@ && e.message@ == missing_arg_message(arg@),
        },
{
    match json_str_field(input, arg) {
        Some(v) => require_arg(tool, arg, Some(v.as_str())),
        None => require_arg(tool, arg, None),
    }
}

/// An optional string argument of a call: the string at `arg` of the JSON
/// object `input`, when there is one.
pub fn optional_input_arg(input: &str, arg: &str) -> (r: Option<String>)
    ensures
        match json_string_field(input@, arg@) {
            Some(v) => r matches Some(s) && s@ == v,
            None => r is None,
        },
{
    json_str_field(input, arg)
}

/// An optional unsigned argument of a call: the number at `arg` of the
/// JSON object `input`, when it is one that fits `u64`.
pub fn optional_u64_arg(input: &str, arg: &str) -> (r: Option<u64>)
    ensures
        r == json_u64_field(input@, arg@),
{
    json_u64_field_of(input, arg)
}

/// `{"content": content, "path": path}`.
pub open spec fn content_json(content: Seq<char>, path: Seq<char>) -> Seq<char> {
    json_object_text(seq![("content"@, JsonScalarV::Str(content)), ("path"@, JsonScalarV::Str(path))])
}

/// `{"success": true, "path": path}`.
pub open spec fn written_json(path: Seq<char>) -> Seq<char> {
    json_object_text(seq![("success"@, JsonScalarV::Bool(true)), ("path"@, JsonScalarV::Str(path))])
}

/// `{"success": true, "content": content, "path": path}`.
pub open spec fn edited_json(content: Seq<char>, path: Seq<char>) -> Seq<char> {
    json_object_text(seq![
        ("success"@, JsonScalarV::Bool(true)),
        ("content"@, JsonScalarV::Str(content)),
        ("path"@, JsonScalarV::Str(path)),
    ])
}

/// `{"content": content, "exists": true, "path": path}` for a memory that
/// exists, `{"content": null, "exists": false, "path": path}` otherwise.
pub open spec fn memory_json(content: Option<Seq<char>>, path: Seq<char>) -> Seq<char> {
    json_object_text(seq![
        ("content"@, match content { Some(c) => JsonScalarV::Str(c), None => JsonScalarV::Null }),
        ("exists"@, JsonScalarV::Bool(content is Some)),
        ("path"@, JsonScalarV::Str(path)),
    ])
}

/// `{"matches": matches, "count": n}` with `n` the number of matches.
pub open spec fn path_matches_json(matches: Seq<Seq<char>>) -> Seq<char> {
    json_object_text(seq![("matches"@, JsonScalarV::Strs(matches)), ("count"@, JsonScalarV::Num(matches.len() as u64))])
}

/// The answer of `read_file`: the rendered content and the resolved path.
pub fn content_output(content: &str, path: &str) -> (r: String)
    ensures
        r@ == content_json(content@, path@),
        json_string_field(r@, "content"@) == Some(content@),
        json_string_field(r@, "path"@) == Some(path@),
{
    let mut members: Vec<(String, JsonScalar)> = Vec::new();
    members.push(("content".to_owned(), JsonScalar::Str(content.to_owned())));
    members.push(("path".to_owned(), JsonScalar::Str(path.to_owned())));
    let r = json_object(&members);
    proof {
        let m = members_view(members@);
        reveal_strlit("content");
        reveal_strlit("path");
        assert(m == seq![("content"@, JsonScalarV::Str(content@)), ("path"@, JsonScalarV::Str(path@))]);
        assert("content"@ != "path"@) by { assert("content"@[0] != "path"@[0]); }
        assert(key_unique(m, 0));
        assert(key_unique(m, 1));
        assert(reads_back(r@, m[0]));
        assert(reads_back(r@, m[1]));
    }
    r
}

/// The answer of `write_file` and `write_memory`: success and the path
/// written.
pub fn written_output(path: &str) -> (r: String)
    ensures
        r@ == written_json(path@),
        json_string_field(r@, "path"@) == Some(path@),
{
    let mut members: Vec<(String, JsonScalar)> = Vec::new();
    members.push(("success".to_owned(), JsonScalar::Bool(true)));
    members.push(("path".to_owned(), JsonScalar::Str(path.to_owned())));
    let r = json_object(&members);
    proof {
        let m = members_view(members@);
        reveal_strlit("success");
        reveal_strlit("path");
        assert(m == seq![("success"@, JsonScalarV::Bool(true)), ("path"@, JsonScalarV::Str(path@))]);
        assert("success"@ != "path"@) by { assert("success"@[0] != "path"@[0]); }
        assert(key_unique(m, 1));
        assert(reads_back(r@, m[1]));
    }
    r
}

/// The answer of `edit_file`: success, the rendered new content and the
/// path written.
pub fn edited_output(content: &str, path: &str) -> (r: String)
    ensures
        r@ == edited_json(content@, path@),
        json_string_field(r@, "content"@) == Some(content@),
        json_string_field(r@, "path"@) == Some(path@),
{
    let mut members: Vec<(String, JsonScalar)> = Vec::new();
    members.push(("success".to_owned(), JsonScalar::Bool(true)));
    members.push(("content".to_owned(), JsonScalar::Str(content.to_owned())));
    members.push(("path".to_owned(), JsonScalar::Str(path.to_owned())));
    let r = json_object(&members);
    proof {
        let m = members_view(members@);
        reveal_strlit("success");
        reveal_strlit("content");
        reveal_strlit("path");
        assert(m == seq![
            ("success"@, JsonScalarV::Bool(true)),
            ("content"@, JsonScalarV::Str(content@)),
            ("path"@, JsonScalarV::Str(path@)),
        ]);
        assert("success"@ != "path"@) by { assert("success"@[0] != "path"@[0]); }
        assert("success"@ != "content"@) by { assert("success"@[0] != "content"@[0]); }
        assert("content"@ != "path"@) by { assert("content"@[0] != "path"@[0]); }
        assert(key_unique(m, 1));
        assert(key_unique(m, 2));
        assert(reads_back(r@, m[1]));
        assert(reads_back(r@, m[2]));
    }
    r
}

/// The answer of `read_memory`: the memory's content when it exists, and
/// the path of its file.
pub fn memory_output(content: Option<&str>, path: &str) -> (r: String)
    ensures
        r@ == memory_json(match content { Some(c) => Some(c@), None => None }, path@),
        json_string_field(r@, "path"@) == Some(path@),
        content matches Some(c) ==> json_string_field(r@, "content"@) == Some(c@),
{
    let mut members: Vec<(String, JsonScalar)> = Vec::new();
    let value = match content {
        Some(c) => JsonScalar::Str(c.to_owned()),
        None => JsonScalar::Null,
    };
    let exists = match content {
        Some(_) => true,
        None => false,
    };
    members.push(("content".to_owned(), value));
    members.push(("exists".to_owned(), JsonScalar::Bool(exists)));
    members.push(("path".to_owned(), JsonScalar::Str(path.to_owned())));
    let r = json_object(&members);
    proof {
        let m = members_view(members@);
        let cv = match content { Some(c) => Some(c@), None => None };
        reveal_strlit("content");
        reveal_strlit("exists");
        reveal_strlit("path");
        assert(m == seq![
            ("content"@, match cv { Some(c) => JsonScalarV::Str(c), None => JsonScalarV::Null }),
            ("exists"@, JsonScalarV::Bool(cv is Some)),
            ("path"@, JsonScalarV::Str(path@)),
        ]);
        assert("content"@ != "exists"@) by { assert("content"@[0] != "exists"@[0]); }
        assert("content"@ != "path"@) by { assert("content"@[0] != "path"@[0]); }
        assert("exists"@ != "path"@) by { assert("exists"@[0] != "path"@[0]); }
        assert(key_unique(m, 0));
        assert(key_unique(m, 2));
        assert(reads_back(r@, m[0]));
        assert(reads_back(r@, m[2]));
    }
    r
}

/// The answer of `glob`: the matching paths and how many there are.
pub fn path_matches_output(matches: &Vec<String>) -> (r: String)
    ensures
        r@ == path_matches_json(views(matches@)),
{
    let mut items: Vec<String> = Vec::new();
    let mut i: usize = 0;
    while i < matches.len()
        invariant
            i <= matches@.len(),
            views(items@) == views(matches@).take(i as int),
        decreases matches.len() - i,
    {
        items.push(matches[i].clone());
        assert(views(items@) == views(matches@).take(i as int).push(matches@[i as int]@));
        assert(views(matches@).take(i + 1) == views(matches@).take(i as int).push(matches@[i as int]@));
        i = i + 1;
    }
    assert(views(matches@).take(matches@.len() as int) == views(matches@));
    let mut members: Vec<(String, JsonScalar)> = Vec::new();
    members.push(("matches".to_owned(), JsonScalar::Strs(items)));
    members.push(("count".to_owned(), JsonScalar::Num(matches.len() as u64)));
    let r = json_object(&members);
    assert(members_view(members@) == seq![("matches"@, JsonScalarV::Strs(views(matches@))), ("count"@, JsonScalarV::Num(matches@.len() as u64))]);
    r
}

} // verus!
