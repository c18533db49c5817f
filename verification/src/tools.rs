//! What a tool declares about itself, and the errors tools report.
use vstd::prelude::*;

use crate::text::push_str;

verus! {

/// Behavioural hints a tool declares (all off unless stated).
#[derive(Clone, Copy)]
pub struct ToolAnnotations {
    pub read_only: bool,
    pub destructive: bool,
    pub idempotent: bool,
    pub open_world: bool,
    pub requires_confirmation: bool,
}

/// A tool's declaration: its name, description, JSON input schema (as JSON
/// text), title, output schema, hints, category, tags and time limit in
/// seconds.
pub struct ToolDefinition {
    pub name: String,
    pub description: String,
    pub input_schema: String,
    pub title: Option<String>,
    pub output_schema: Option<String>,
    pub annotations: Option<ToolAnnotations>,
    pub category: Option<String>,
    pub tags: Vec<String>,
    pub timeout_secs: Option<u64>,
}

/// A tool failed: which tool, and why.
pub struct ToolError {
    pub tool_name: String,
    pub message: String,
}

/// The hints as a tuple (read-only, destructive, idempotent, open-world,
/// requires-confirmation).
pub open spec fn hints(a: ToolAnnotations) -> (bool, bool, bool, bool, bool) {
    (a.read_only, a.destructive, a.idempotent, a.open_world, a.requires_confirmation)
}

/// `d` declares the given name, description, schema, title, hints,
/// category, two tags and time limit.
pub open spec fn declares(
    d: ToolDefinition,
    name: Seq<char>,
    description: Seq<char>,
    schema: Seq<char>,
    title: Seq<char>,
    ann: (bool, bool, bool, bool, bool),
    category: Seq<char>,
    tags: (Seq<char>, Seq<char>),
    timeout: u64,
) -> bool {
    &&& d.name@ == name
    &&& d.description@ == description
    &&& d.input_schema@ == schema
    &&& d.title matches Some(t) && t@ == title
    &&& d.output_schema is None
    &&& d.annotations matches Some(a) && hints(a) == ann
    &&& d.category matches Some(c) && c@ == category
    &&& d.tags@.len() == 2 && d.tags@[0]@ == tags.0 && d.tags@[1]@ == tags.1
    &&& d.timeout_secs == Some(timeout)
}

/// Builds a declaration from its parts.
pub fn make_definition(
    name: &str,
    description: &str,
    schema: &str,
    title: &str,
    ann: ToolAnnotations,
    category: &str,
    tag0: &str,
    tag1: &str,
    timeout: u64,
) -> (d: ToolDefinition)
    ensures
        declares(d, name@, description@, schema@, title@, hints(ann), category@, (tag0@, tag1@), timeout),
{
    let mut tags: Vec<String> = Vec::new();
    tags.push(tag0.to_owned());
    tags.push(tag1.to_owned());
    ToolDefinition {
        name: name.to_owned(),
        description: description.to_owned(),
        input_schema: schema.to_owned(),
        title: Some(title.to_owned()),
        output_schema: None,
        annotations: Some(ann),
        category: Some(category.to_owned()),
        tags,
        timeout_secs: Some(timeout),
    }
}

/// The hints with the given flags set.
pub fn annotations(read_only: bool, destructive: bool, idempotent: bool, open_world: bool, requires_confirmation: bool) -> (a: ToolAnnotations)
    ensures
        hints(a) == (read_only, destructive, idempotent, open_world, requires_confirmation),
{
    ToolAnnotations { read_only, destructive, idempotent, open_world, requires_confirmation }
}

/// The error of tool `tool` with `message`.
pub fn tool_error(tool: &str, message: String) -> (e: ToolError)
    ensures
        e.tool_name@ == tool@,
        e.message@ == message@,
{
    ToolError { tool_name: tool.to_owned(), message }
}

/// The message for a missing or non-string argument `arg`.
pub open spec fn missing_arg_message(arg: Seq<char>) -> Seq<char> {
    "Missing or invalid '"@ + arg + "' argument"@
}

/// A required string argument: its value, or the tool's error naming it.
pub fn require_arg(tool: &str, arg: &str, value: Option<&str>) -> (r: Result<String, ToolError>)
    ensures
        match value {
            Some(v) => r matches Ok(s) && s@ == v@,
            None => r matches Err(e) && e.tool_name@ == tool@ && e.message@ == missing_arg_message(arg@),
        },
{
    match value {
        Some(v) => Ok(v.to_owned()),
        None => {
            let mut m = "Missing or invalid '".to_owned();
            push_str(&mut m, arg);
            push_str(&mut m, "' argument");
            Err(tool_error(tool, m))
        },
    }
}

/// `prefix` followed by `detail`, as a tool error of `tool`.
pub fn prefixed_error(tool: &str, prefix: &str, detail: &str) -> (e: ToolError)
    ensures
        e.tool_name@ == tool@,
        e.message@ == prefix@ + detail@,
{
    let mut m = prefix.to_owned();
    push_str(&mut m, detail);
    tool_error(tool, m)
}

} // verus!
