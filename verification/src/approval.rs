//! The tool approval policy shared by frontends.

use vstd::prelude::*;
use crate::json::{json_compact, json_compact_text, json_parses, json_str_field, json_string_field};
use crate::text::{copy_str, same_text};

verus! {

/// How risky a tool is to run.
#[derive(Debug, Clone, Copy, PartialEq, Eq, Structural)]
pub enum ToolRiskLevel {
    ReadOnly,
    ExternalNetwork,
    FileMutation,
    Shell,
}

/// The risk of the tool named `name`.
pub open spec fn risk_level_spec(name: Seq<char>) -> ToolRiskLevel {
    if name == "bash"@ {
        ToolRiskLevel::Shell
    } else if name == "write"@ || name == "edit"@ {
        ToolRiskLevel::FileMutation
    } else if name == "web_search"@ || name == "exa_search"@ {
        ToolRiskLevel::ExternalNetwork
    } else {
        ToolRiskLevel::ReadOnly
    }
}

/// Whether a tool of this risk must be approved before it runs.
pub open spec fn approval_required_spec(risk: ToolRiskLevel) -> bool {
    risk == ToolRiskLevel::FileMutation || risk == ToolRiskLevel::Shell
}

pub fn risk_level_for(name: &str) -> (r: ToolRiskLevel)
    ensures
        r == risk_level_spec(name@),
{
    if same_text(name, "bash") {
        ToolRiskLevel::Shell
    } else if same_text(name, "write") || same_text(name, "edit") {
        ToolRiskLevel::FileMutation
    } else if same_text(name, "web_search") || same_text(name, "exa_search") {
        ToolRiskLevel::ExternalNetwork
    } else {
        ToolRiskLevel::ReadOnly
    }
}

pub fn approval_required_for(risk_level: ToolRiskLevel) -> (b: bool)
    ensures
        b == approval_required_spec(risk_level),
{
    match risk_level {
        ToolRiskLevel::FileMutation | ToolRiskLevel::Shell => true,
        _ => false,
    }
}

/// Exactly the file-mutating tools and the shell need approval.
pub fn tool_requires_approval(name: &str) -> (b: bool)
    ensures
        b == approval_required_spec(risk_level_spec(name@)),
        b <==> (name@ == "write"@ || name@ == "edit"@ || name@ == "bash"@),
{
    approval_required_for(risk_level_for(name))
}

/// `format!("{:?}", s)` for a string: `s` quoted, with `Debug` escapes.
pub uninterp spec fn debug_str(s: Seq<char>) -> Seq<char>;

/// True when `s` holds only printable ASCII other than `"` and `\`.
pub open spec fn plain_ascii(s: Seq<char>) -> bool {
    forall|i: int| 0 <= i < s.len() ==> {
        let u = #[trigger] s[i] as u32;
        0x20 <= u && u <= 0x7e && u != 0x22 && u != 0x5c
    }
}

/// Formats `s` with `str`'s `Debug` (`format!("{:?}", s)`); the result is
/// named `debug_str(s)`. As `str::escape_debug` documents, printable ASCII other
/// than `"` and `\` is kept as is, so such a string comes out only quoted.
#[verifier::external_body]
fn debug_quote(s: &str) -> (r: String)
    ensures
        r@ == debug_str(s@),
        plain_ascii(s@) ==> r@ == seq!['"'] + s@ + seq!['"'],
{
    format!("{:?}", s)
}

/// The JSON arguments as shown when no field is picked out: their compact
/// serialization, or the text itself when it is not JSON.
pub open spec fn args_display(args: Seq<char>) -> Seq<char> {
    if json_parses(args) {
        json_compact(args)
    } else {
        args
    }
}

/// `prefix=` followed by the quoted string field `key` of `args`, or the
/// whole arguments when there is no such field.
pub open spec fn field_summary(prefix: Seq<char>, args: Seq<char>, key: Seq<char>) -> Seq<char> {
    match json_string_field(args, key) {
        Some(v) => prefix + debug_str(v),
        None => args_display(args),
    }
}

/// The short description of a tool call shown when asking for approval.
pub open spec fn approval_summary_spec(name: Seq<char>, args: Seq<char>) -> Seq<char> {
    if name == "bash"@ {
        field_summary("command="@, args, "command"@)
    } else if name == "write"@ || name == "edit"@ {
        field_summary("path="@, args, "path"@)
    } else {
        args_display(args)
    }
}

fn args_display_text(args: &str) -> (r: String)
    ensures
        r@ == args_display(args@),
{
    match json_compact_text(args) {
        Some(s) => s,
        None => copy_str(args),
    }
}

fn field_summary_text(prefix: &str, args: &str, key: &str) -> (r: String)
    ensures
        r@ == field_summary(prefix@, args@, key@),
{
    match json_str_field(args, key) {
        Some(v) => {
            let mut r = copy_str(prefix);
            let q = debug_quote(v.as_str());
            r.push_str(q.as_str());
            r
        },
        None => args_display_text(args),
    }
}

/// Summarizes a tool call for an approval prompt: the shell command for
/// `bash`, the path for `write` and `edit`, the arguments otherwise.
/// `args` is the call's JSON argument text.
pub fn approval_summary(name: &str, args: &str) -> (r: String)
    ensures
        r@ == approval_summary_spec(name@, args@),
{
    if same_text(name, "bash") {
        field_summary_text("command=", args, "command")
    } else if same_text(name, "write") || same_text(name, "edit") {
        field_summary_text("path=", args, "path")
    } else {
        args_display_text(args)
    }
}

/// A tool call awaiting a decision, with what a frontend needs to show it.
#[derive(Debug, Clone, PartialEq, Eq)]
pub struct ToolApprovalRequest {
    pub id: String,
    pub name: String,
    /// The call's JSON argument text.
    pub args: String,
    pub risk_level: ToolRiskLevel,
    pub approval_required: bool,
    pub summary: String,
}

impl ToolApprovalRequest {
    pub fn new(id: &str, name: &str, args: &str) -> (r: ToolApprovalRequest)
        ensures
            r.id@ == id@,
            r.name@ == name@,
            r.args@ == args@,
            r.risk_level == risk_level_spec(name@),
            r.approval_required == approval_required_spec(risk_level_spec(name@)),
            r.summary@ == approval_summary_spec(name@, args@),
    {
        let risk_level = risk_level_for(name);
        ToolApprovalRequest {
            id: copy_str(id),
            summary: approval_summary(name, args),
            approval_required: approval_required_for(risk_level),
            risk_level,
            name: copy_str(name),
            args: copy_str(args),
        }
    }
}

} // verus!
