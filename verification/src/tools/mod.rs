//! Shared tool types: outputs, argument schemas and path resolution.

use vstd::prelude::*;
use crate::events::{AgentEvent, EventView, event_views};
use crate::text::{chars_of, copy_str, same_text};

pub mod bash;
pub mod edit;
pub mod find;
pub mod grep;
pub mod listing;
pub mod ls;
pub mod read;
pub mod search;
pub mod write;

verus! {

/// What a tool hands back to the agent loop.
#[derive(Debug)]
pub struct ToolOutput {
    pub content: String,
    pub is_error: bool,
    pub events: Vec<AgentEvent>,
}

pub struct ToolOutputView {
    pub content: Seq<char>,
    pub is_error: bool,
    pub events: Seq<EventView>,
}

impl View for ToolOutput {
    type V = ToolOutputView;

    open spec fn view(&self) -> ToolOutputView {
        ToolOutputView { content: self.content@, is_error: self.is_error, events: event_views(self.events@) }
    }
}

/// A successful output without events.
pub fn success(content: String) -> (r: ToolOutput)
    ensures
        r@ == (ToolOutputView { content: content@, is_error: false, events: Seq::empty() }),
{
    let events: Vec<AgentEvent> = Vec::new();
    assert(event_views(events@) =~= Seq::<EventView>::empty());
    ToolOutput { content, is_error: false, events }
}

/// A failed output carrying `message`.
pub fn failure(message: String) -> (r: ToolOutput)
    ensures
        r@ == (ToolOutputView { content: message@, is_error: true, events: Seq::empty() }),
{
    let events: Vec<AgentEvent> = Vec::new();
    assert(event_views(events@) =~= Seq::<EventView>::empty());
    ToolOutput { content: message, is_error: true, events }
}

/// `path` resolved against `cwd` the way `Path::join` does on Unix: an absolute
/// `path` stands alone; otherwise a `/` separates the two unless `cwd` is empty
/// or already ends in `/`.
pub open spec fn join_path_spec(cwd: Seq<char>, path: Seq<char>) -> Seq<char> {
    if path.len() > 0 && path[0] == '/' {
        path
    } else if cwd.len() == 0 || cwd.last() == '/' {
        cwd + path
    } else {
        cwd + seq!['/'] + path
    }
}

/// Resolves a tool's path argument against the working directory.
pub fn resolve_path(cwd: &str, path: &str) -> (r: String)
    ensures
        r@ == join_path_spec(cwd@, path@),
{
    let p = chars_of(path);
    if p.len() > 0 && p[0] == '/' {
        return copy_str(path);
    }
    let c = chars_of(cwd);
    let mut r = copy_str(cwd);
    if c.len() > 0 && c[c.len() - 1] != '/' {
        r.push('/');
    }
    r.push_str(path);
    r
}


/// The JSON type of a tool parameter.
#[derive(Debug, Clone, Copy, PartialEq, Eq, Structural)]
pub enum ParamKind {
    Str,
    Int,
}

/// One property of a tool's argument object.
#[derive(Debug, Clone)]
pub struct ParamSpec {
    pub name: &'static str,
    pub kind: ParamKind,
    pub description: &'static str,
    pub minimum: Option<u64>,
    pub maximum: Option<u64>,
}

/// The JSON schema of a tool's arguments: an object with these properties,
/// the listed ones required, and no others allowed.
#[derive(Debug, Clone)]
pub struct ObjectSchema {
    pub properties: Vec<ParamSpec>,
    pub required: Vec<&'static str>,
}

/// A tool as offered to the model.
#[derive(Debug, Clone)]
pub struct ToolSpec {
    pub name: &'static str,
    pub description: &'static str,
    pub parameters: ObjectSchema,
}

/// A string parameter.
pub fn string_param(name: &'static str, description: &'static str) -> (p: ParamSpec)
    ensures
        p.name == name,
        p.description == description,
        p.kind == ParamKind::Str,
        p.minimum is None,
        p.maximum is None,
{
    ParamSpec { name, kind: ParamKind::Str, description, minimum: None, maximum: None }
}

/// An integer parameter.
pub fn integer_param(name: &'static str, description: &'static str) -> (p: ParamSpec)
    ensures
        p.name == name,
        p.description == description,
        p.kind == ParamKind::Int,
        p.minimum is None,
        p.maximum is None,
{
    ParamSpec { name, kind: ParamKind::Int, description, minimum: None, maximum: None }
}

/// An object schema over `properties` with `required` names.
pub fn object_schema(properties: Vec<ParamSpec>, required: Vec<&'static str>) -> (s: ObjectSchema)
    ensures
        s.properties@ == properties@,
        s.required@ == required@,
{
    ObjectSchema { properties, required }
}

/// The names of `tools`, in order.
pub open spec fn tool_names(tools: Seq<ToolSpec>) -> Seq<Seq<char>> {
    tools.map_values(|t: ToolSpec| t.name@)
}

/// The names of the built-in tools, in the order they are offered.
pub open spec fn builtin_tool_names() -> Seq<Seq<char>> {
    seq!["read"@, "write"@, "edit"@, "bash"@, "ls"@, "grep"@, "find"@, "web_search"@, "exa_search"@]
}

/// The built-in tools offered to the model.
pub fn builtin_tool_specs() -> (r: Vec<ToolSpec>)
    ensures
        tool_names(r@) == builtin_tool_names(),
{
    let mut r: Vec<ToolSpec> = Vec::new();
    r.push(read::spec());
    r.push(write::spec());
    r.push(edit::spec());
    r.push(bash::spec());
    r.push(ls::spec());
    r.push(grep::spec());
    r.push(find::spec());
    r.push(search::web_search_spec());
    r.push(search::exa_search_spec());
    assert(tool_names(r@) =~= builtin_tool_names());
    r
}

/// Which built-in tool a call names.
#[derive(Debug, Clone, Copy, PartialEq, Eq, Structural)]
pub enum ToolKind {
    Read,
    Write,
    Edit,
    Bash,
    Ls,
    Grep,
    Find,
    WebSearch,
    ExaSearch,
}

pub open spec fn tool_kind_spec(name: Seq<char>) -> Option<ToolKind> {
    if name == "read"@ {
        Some(ToolKind::Read)
    } else if name == "write"@ {
        Some(ToolKind::Write)
    } else if name == "edit"@ {
        Some(ToolKind::Edit)
    } else if name == "bash"@ {
        Some(ToolKind::Bash)
    } else if name == "ls"@ {
        Some(ToolKind::Ls)
    } else if name == "grep"@ {
        Some(ToolKind::Grep)
    } else if name == "find"@ {
        Some(ToolKind::Find)
    } else if name == "web_search"@ {
        Some(ToolKind::WebSearch)
    } else if name == "exa_search"@ {
        Some(ToolKind::ExaSearch)
    } else {
        None
    }
}

/// The tool that a call by `name` runs, or `None` for an unknown name.
pub fn tool_kind(name: &str) -> (r: Option<ToolKind>)
    ensures
        r == tool_kind_spec(name@),
{
    if same_text(name, "read") {
        Some(ToolKind::Read)
    } else if same_text(name, "write") {
        Some(ToolKind::Write)
    } else if same_text(name, "edit") {
        Some(ToolKind::Edit)
    } else if same_text(name, "bash") {
        Some(ToolKind::Bash)
    } else if same_text(name, "ls") {
        Some(ToolKind::Ls)
    } else if same_text(name, "grep") {
        Some(ToolKind::Grep)
    } else if same_text(name, "find") {
        Some(ToolKind::Find)
    } else if same_text(name, "web_search") {
        Some(ToolKind::WebSearch)
    } else if same_text(name, "exa_search") {
        Some(ToolKind::ExaSearch)
    } else {
        None
    }
}

/// The failed output of a call to a tool that does not exist.
pub fn unknown_tool(name: &str) -> (r: ToolOutput)
    ensures
        r@ == (ToolOutputView { content: "unknown tool: "@ + name@, is_error: true, events: Seq::empty() }),
{
    let mut msg = copy_str("unknown tool: ");
    msg.push_str(name);
    failure(msg)
}

/// Every tool offered to the model is one that a call can run.
pub proof fn offered_tools_are_runnable(i: int)
    requires
        0 <= i < builtin_tool_names().len(),
    ensures
        tool_kind_spec(builtin_tool_names()[i]) is Some,
{
}

} // verus!
