//! The bash tool: the text a finished shell command reports.

use vstd::prelude::*;
use crate::text::{blank, copy_str, is_blank};
use crate::tools::{integer_param, object_schema, string_param, ParamSpec, ToolSpec};

verus! {

/// The tool as offered to the model.
pub fn spec() -> (t: ToolSpec)
    ensures
        t.name == "bash",
        t.description == "Run a shell command in the current working directory and return combined stdout/stderr.",
        t.parameters.required@ == seq!["command"],
        t.parameters.properties@.len() == 2,
        t.parameters.properties@[0].name == "command",
        t.parameters.properties@[1].name == "timeout",
{
    let mut props: Vec<ParamSpec> = Vec::new();
    props.push(string_param("command", "Shell command to run"));
    props.push(integer_param("timeout", "Timeout in seconds"));
    let mut required: Vec<&'static str> = Vec::new();
    required.push("command");
    assert(required@ =~= seq!["command"]);
    ToolSpec {
        name: "bash",
        description: "Run a shell command in the current working directory and return combined stdout/stderr.",
        parameters: object_schema(props, required),
    }
}

/// Standard output, then standard error on a new line when both are present.
pub open spec fn combined_output(stdout: Seq<char>, stderr: Seq<char>) -> Seq<char> {
    if stderr.len() == 0 {
        stdout
    } else if stdout.len() == 0 {
        stderr
    } else {
        stdout + "\n"@ + stderr
    }
}

/// What the bash tool reports: the combined output followed by the exit
/// status, or only the status when there was no visible output. `status` is
/// the `Display` text of the process's exit status.
pub open spec fn command_report_spec(stdout: Seq<char>, stderr: Seq<char>, status: Seq<char>) -> Seq<char> {
    let text = combined_output(stdout, stderr);
    if is_blank(text) {
        "exit status: "@ + status
    } else {
        text + "\n\n[exit status: "@ + status + "]"@
    }
}

pub fn command_report(stdout: &str, stderr: &str, status: &str) -> (r: String)
    ensures
        r@ == command_report_spec(stdout@, stderr@, status@),
{
    let mut text = copy_str(stdout);
    if !stderr.is_empty() {
        if !stdout.is_empty() {
            text.push_str("\n");
        }
        text.push_str(stderr);
    }
    assert(text@ =~= combined_output(stdout@, stderr@));
    if blank(text.as_str()) {
        let mut r = copy_str("exit status: ");
        r.push_str(status);
        r
    } else {
        text.push_str("\n\n[exit status: ");
        text.push_str(status);
        text.push_str("]");
        text
    }
}

/// The failure when the command outlives its timeout.
pub open spec fn timeout_message_spec(seconds: u64) -> Seq<char> {
    "command timed out after "@ + crate::text::decimal_spec(seconds as nat) + "s"@
}

pub fn timeout_message(seconds: u64) -> (r: String)
    ensures
        r@ == timeout_message_spec(seconds),
{
    let mut r = copy_str("command timed out after ");
    crate::text::push_decimal(&mut r, seconds);
    r.push_str("s");
    r
}

/// The arguments of a bash call: the command and an optional timeout in
/// seconds.
#[derive(Debug, Clone)]
pub struct BashArgs {
    pub command: String,
    pub timeout: Option<u64>,
}

} // verus!
