//! The find tool: what a finished `fd` run reports.

use vstd::prelude::*;
use crate::text::{copy_str, lines_spec};
use crate::tools::listing::{capped_listing, capped_lines, truncation_suffix};
use crate::tools::{integer_param, object_schema, string_param, ParamSpec, ToolSpec};

verus! {

/// The tool as offered to the model.
pub fn spec() -> (t: ToolSpec)
    ensures
        t.name == "find",
        t.description == "Find files by name pattern using fd. Prefer this over bash find.",
        t.parameters.required@.len() == 0,
        t.parameters.properties@.len() == 3,
        t.parameters.properties@[0].name == "pattern",
        t.parameters.properties@[1].name == "path",
        t.parameters.properties@[2].name == "limit",
{
    let mut props: Vec<ParamSpec> = Vec::new();
    props.push(string_param("pattern", "Name pattern to search for. Defaults to all files."));
    props.push(string_param("path", "Directory to search. Defaults to current working directory."));
    props.push(integer_param("limit", "Maximum number of paths to return. Defaults to 200."));
    let required: Vec<&'static str> = Vec::new();
    ToolSpec {
        name: "find",
        description: "Find files by name pattern using fd. Prefer this over bash find.",
        parameters: object_schema(props, required),
    }
}

/// The path cap; defaults to 200.
pub open spec fn find_limit(limit: Option<usize>) -> nat {
    match limit {
        Some(l) => l as nat,
        None => 200,
    }
}

/// What a find reports for an `fd` run: an error with `fd`'s standard error
/// when it failed; `no files found` when no path is shown; otherwise the
/// paths, capped.
pub open spec fn find_result_spec(success: bool, stdout: Seq<char>, stderr: Seq<char>, limit: Option<usize>) -> Result<Seq<char>, Seq<char>> {
    let ls = lines_spec(stdout);
    let cap = find_limit(limit);
    if !success {
        Err("fd failed: "@ + stderr)
    } else if (if cap < ls.len() { cap } else { ls.len() }) == 0 {
        Ok("no files found"@)
    } else {
        Ok(capped_lines(ls, cap) + truncation_suffix(cap, ls.len(), "paths"@))
    }
}

pub fn find_result(success: bool, stdout: &str, stderr: &str, limit: Option<usize>) -> (r: Result<String, String>)
    ensures
        match r {
            Ok(s) => find_result_spec(success, stdout@, stderr@, limit) == Ok::<Seq<char>, Seq<char>>(s@),
            Err(s) => find_result_spec(success, stdout@, stderr@, limit) == Err::<Seq<char>, Seq<char>>(s@),
        },
{
    if !success {
        let mut e = copy_str("fd failed: ");
        e.push_str(stderr);
        return Err(e);
    }
    let l = match limit {
        Some(l) => l,
        None => 200,
    };
    let (text, empty) = capped_listing(stdout, l, "paths");
    if empty {
        return Ok(copy_str("no files found"));
    }
    Ok(text)
}

/// The arguments of a find call.
#[derive(Debug, Clone)]
pub struct FindArgs {
    pub pattern: Option<String>,
    pub path: Option<String>,
    pub limit: Option<usize>,
}

/// The `fd` command line of a find call: the pattern and the path, each `.`
/// by default.
pub fn fd_arguments(args: &FindArgs) -> (r: Vec<String>)
    ensures
        crate::text::views(r@) == seq![
            match args.pattern { Some(p) => p@, None => "."@ },
            match args.path { Some(p) => p@, None => "."@ },
        ],
{
    let mut r: Vec<String> = Vec::new();
    match &args.pattern {
        Some(p) => r.push(p.clone()),
        None => r.push(copy_str(".")),
    }
    match &args.path {
        Some(p) => r.push(p.clone()),
        None => r.push(copy_str(".")),
    }
    assert(crate::text::views(r@) =~= seq![
        match args.pattern { Some(p) => p@, None => "."@ },
        match args.path { Some(p) => p@, None => "."@ },
    ]);
    r
}

} // verus!
