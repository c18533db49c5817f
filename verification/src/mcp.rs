//! Tools served by MCP (Model Context Protocol) servers, seen as agent
//! tools.  Connecting to a server and calling it is the caller's part; this
//! module names the tools, carries their declarations over and turns a call
//! result into a tool result.
use vstd::prelude::*;

use crate::json::{text_object, text_object_json};
use crate::text::{join_strings, join_with, push_str, views};
use crate::tools::{hints, ToolAnnotations, ToolDefinition};

verus! {

/// How an MCP server is reached.
pub enum McpTransport {
    /// A child process speaking over standard input and output.
    Stdio { command: String, args: Vec<String> },
}

/// An MCP server: its name and transport.
pub struct McpServerConfig {
    pub name: String,
    pub transport: McpTransport,
}

/// Why talking to an MCP server failed.
pub enum McpError {
    Connection(String),
    Initialize(String),
    ListTools(String),
}

impl McpError {
    /// The message shown for this error.
    pub open spec fn message(&self) -> Seq<char> {
        match self {
            McpError::Connection(m) => "MCP connection failed: "@ + m@,
            McpError::Initialize(m) => "MCP initialization failed: "@ + m@,
            McpError::ListTools(m) => "MCP tools/list failed: "@ + m@,
        }
    }

    /// Renders the error as its message.
    pub fn to_string(&self) -> (s: String)
        ensures
            s@ == self.message(),
    {
        let (prefix, m) = match self {
            McpError::Connection(m) => ("MCP connection failed: ", m),
            McpError::Initialize(m) => ("MCP initialization failed: ", m),
            McpError::ListTools(m) => ("MCP tools/list failed: ", m),
        };
        let mut s = prefix.to_owned();
        push_str(&mut s, m.as_str());
        s
    }
}

/// The hints an MCP server declares for a tool (each may be absent).
pub struct McpToolAnnotations {
    pub title: Option<String>,
    pub read_only_hint: Option<bool>,
    pub destructive_hint: Option<bool>,
    pub idempotent_hint: Option<bool>,
    pub open_world_hint: Option<bool>,
}

/// A tool as an MCP server lists it.
pub struct McpToolInfo {
    pub name: String,
    pub title: Option<String>,
    pub description: Option<String>,
    pub input_schema: String,
    pub output_schema: Option<String>,
    pub annotations: Option<McpToolAnnotations>,
}

/// `o`, or `d` when absent.
pub open spec fn flag_or(o: Option<bool>, d: bool) -> bool {
    match o {
        Some(b) => b,
        None => d,
    }
}

/// An optional string as plain text.
pub open spec fn text_opt(o: Option<String>) -> Option<Seq<char>> {
    match o {
        Some(s) => Some(s@),
        None => None,
    }
}

fn copy_opt(o: &Option<String>) -> (r: Option<String>)
    ensures
        text_opt(r) == text_opt(*o),
{
    match o {
        Some(s) => Some(s.clone()),
        None => None,
    }
}

/// The agent tool for an MCP tool of server `server`: named
/// `mcp_<server>_<tool>`, its description (empty when absent), schemas and
/// title (the tool's, else the hints'), its hints with MCP's defaults
/// (not read-only, destructive, not idempotent, open-world; never asking
/// for confirmation), category `mcp`, tags `mcp` and the server, 60 s.  The
/// second part is the tool's name on the server.
pub fn mcp_tool_to_arcan(server_name: &str, tool: &McpToolInfo) -> (r: (ToolDefinition, String))
    ensures
        r.0.name@ == "mcp_"@ + server_name@ + "_"@ + tool.name@,
        r.1@ == tool.name@,
        r.0.description@ == (match tool.description { Some(d) => d@, None => Seq::empty() }),
        r.0.input_schema@ == tool.input_schema@,
        text_opt(r.0.output_schema) == text_opt(tool.output_schema),
        text_opt(r.0.title) == (match tool.title {
            Some(t) => Some(t@),
            None => match tool.annotations { Some(a) => text_opt(a.title), None => None },
        }),
        match tool.annotations {
            Some(a) => r.0.annotations matches Some(x) && hints(x) == (flag_or(a.read_only_hint, false), flag_or(a.destructive_hint, true),
                flag_or(a.idempotent_hint, false), flag_or(a.open_world_hint, true), false),
            None => r.0.annotations is None,
        },
        r.0.category matches Some(c) && c@ == "mcp"@,
        views(r.0.tags@) == seq!["mcp"@, server_name@],
        r.0.timeout_secs == Some(60u64),
{
    let mut name = "mcp_".to_owned();
    push_str(&mut name, server_name);
    push_str(&mut name, "_");
    push_str(&mut name, tool.name.as_str());
    let annotations = match &tool.annotations {
        Some(a) => Some(ToolAnnotations {
            read_only: match a.read_only_hint { Some(b) => b, None => false },
            destructive: match a.destructive_hint { Some(b) => b, None => true },
            idempotent: match a.idempotent_hint { Some(b) => b, None => false },
            open_world: match a.open_world_hint { Some(b) => b, None => true },
            requires_confirmation: false,
        }),
        None => None,
    };
    let title = match &tool.title {
        Some(t) => Some(t.clone()),
        None => match &tool.annotations {
            Some(a) => copy_opt(&a.title),
            None => None,
        },
    };
    let description = match &tool.description {
        Some(d) => d.clone(),
        None => String::new(),
    };
    let mut tags: Vec<String> = Vec::new();
    tags.push("mcp".to_owned());
    tags.push(server_name.to_owned());
    assert(views(tags@) =~= seq!["mcp"@, server_name@]);
    let def = ToolDefinition {
        name,
        description,
        input_schema: tool.input_schema.clone(),
        title,
        output_schema: copy_opt(&tool.output_schema),
        annotations,
        category: Some("mcp".to_owned()),
        tags,
        timeout_secs: Some(60),
    };
    (def, tool.name.clone())
}

/// One piece of an MCP call's content.
pub enum McpContent {
    Text(String),
    Image { data: String, mime_type: String },
    /// Another kind (audio, resources, links), not carried over.
    Other,
}

/// What an MCP tool call returned.
pub struct McpCallResult {
    pub content: Vec<McpContent>,
    /// The structured result document, when the server gave one.
    pub structured_content: Option<String>,
    pub is_error: Option<bool>,
}

/// A piece of tool content.
pub enum ToolContent {
    Text { text: String },
    Image { data: String, mime_type: String },
}

/// What a tool call produced: the output document, the content pieces
/// (none when empty) and whether it is an error.
pub struct ToolResult {
    pub call_id: String,
    pub tool_name: String,
    pub output: String,
    pub content: Option<Vec<ToolContent>>,
    pub is_error: bool,
}

/// The texts of the text pieces, in order.
pub open spec fn texts_of(c: Seq<McpContent>) -> Seq<Seq<char>>
    decreases c.len(),
{
    if c.len() == 0 {
        Seq::empty()
    } else {
        let prev = texts_of(c.drop_last());
        match c.last() {
            McpContent::Text(t) => prev.push(t@),
            _ => prev,
        }
    }
}

/// A piece of tool content as plain values.
pub enum ToolContentV {
    Text(Seq<char>),
    Image(Seq<char>, Seq<char>),
}

/// The plain values of a piece of tool content.
pub open spec fn tool_content_view(c: ToolContent) -> ToolContentV {
    match c {
        ToolContent::Text { text } => ToolContentV::Text(text@),
        ToolContent::Image { data, mime_type } => ToolContentV::Image(data@, mime_type@),
    }
}

/// The pieces carried over, in order: texts and images.
pub open spec fn carried(c: Seq<McpContent>) -> Seq<ToolContentV>
    decreases c.len(),
{
    if c.len() == 0 {
        Seq::empty()
    } else {
        let prev = carried(c.drop_last());
        match c.last() {
            McpContent::Text(t) => prev.push(ToolContentV::Text(t@)),
            McpContent::Image { data, mime_type } => prev.push(ToolContentV::Image(data@, mime_type@)),
            McpContent::Other => prev,
        }
    }
}

/// The tool result of an MCP call: the structured document when given,
/// else `{"text": <the text pieces joined by newlines>}`; the text and
/// image pieces (none when there are none); an error only when the server
/// says so.
pub fn mcp_result_to_tool_result(call_id: &str, tool_name: &str, result: &McpCallResult) -> (r: ToolResult)
    ensures
        r.call_id@ == call_id@,
        r.tool_name@ == tool_name@,
        r.output@ == (match result.structured_content {
            Some(s) => s@,
            None => text_object(join_with(texts_of(result.content@), seq!['\n'])),
        }),
        carried(result.content@).len() == 0 ==> r.content is None,
        carried(result.content@).len() > 0 ==> (r.content matches Some(v)
            && v@.map_values(|x: ToolContent| tool_content_view(x)) == carried(result.content@)),
        r.is_error == flag_or(result.is_error, false),
{
    let mut content: Vec<ToolContent> = Vec::new();
    let mut texts: Vec<String> = Vec::new();
    let mut i: usize = 0;
    while i < result.content.len()
        invariant
            i <= result.content@.len(),
            content@.map_values(|x: ToolContent| tool_content_view(x)) == carried(result.content@.take(i as int)),
            views(texts@) == texts_of(result.content@.take(i as int)),
        decreases result.content.len() - i,
    {
        assert(result.content@.take(i + 1).drop_last() == result.content@.take(i as int));
        let ghost cbefore = content@;
        match &result.content[i] {
            McpContent::Text(t) => {
                content.push(ToolContent::Text { text: t.clone() });
                assert(content@.map_values(|x: ToolContent| tool_content_view(x))
                    == cbefore.map_values(|x: ToolContent| tool_content_view(x)).push(ToolContentV::Text(t@)));
                let ghost before = texts@;
                texts.push(t.clone());
                assert(views(texts@) == views(before).push(t@));
            },
            McpContent::Image { data, mime_type } => {
                content.push(ToolContent::Image { data: data.clone(), mime_type: mime_type.clone() });
                assert(content@.map_values(|x: ToolContent| tool_content_view(x))
                    == cbefore.map_values(|x: ToolContent| tool_content_view(x)).push(ToolContentV::Image(data@, mime_type@)));
            },
            McpContent::Other => {},
        }
        i = i + 1;
    }
    assert(result.content@.take(result.content@.len() as int) == result.content@);
    let output = match &result.structured_content {
        Some(s) => s.clone(),
        None => {
            proof {
                reveal_strlit("\n");
            }
            let nl = crate::text::chars_vec("\n");
            let sep = crate::text::string_from_chars(nl.as_slice(), 0, 1);
            assert(sep@ == seq!['\n']);
            let joined = join_strings(&texts, sep.as_str());
            text_object_json(joined.as_str())
        },
    };
    ToolResult {
        call_id: call_id.to_owned(),
        tool_name: tool_name.to_owned(),
        output,
        content: if content.len() == 0 { None } else { Some(content) },
        is_error: match result.is_error { Some(b) => b, None => false },
    }
}

/// The tool error of a failed MCP call.
pub fn call_failed_message(detail: &str) -> (m: String)
    ensures
        m@ == "MCP call_tool failed: "@ + detail@,
{
    let mut m = "MCP call_tool failed: ".to_owned();
    push_str(&mut m, detail);
    m
}

} // verus!
