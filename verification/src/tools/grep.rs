//! The grep tool: what a finished `rg` run reports.

use vstd::prelude::*;
use crate::text::{copy_str, lines_spec};
use crate::tools::listing::{capped_listing, capped_lines, truncation_suffix};
use crate::tools::{integer_param, object_schema, string_param, ParamSpec, ToolSpec};

verus! {

/// The tool as offered to the model.
pub fn spec() -> (t: ToolSpec)
    ensures
        t.name == "grep",
        t.description == "Search file contents using ripgrep. Prefer this over bash grep or rg.",
        t.parameters.required@ == seq!["pattern"],
        t.parameters.properties@.len() == 4,
        t.parameters.properties@[0].name == "pattern",
        t.parameters.properties@[1].name == "path",
        t.parameters.properties@[2].name == "include",
        t.parameters.properties@[3].name == "limit",
{
    let mut props: Vec<ParamSpec> = Vec::new();
    props.push(string_param("pattern", "Regular expression to search for"));
    props.push(string_param("path", "Directory or file to search. Defaults to current working directory."));
    props.push(string_param("include", "Glob of files to include, such as *.rs"));
    props.push(integer_param("limit", "Maximum number of matching lines to return. Defaults to 200."));
    let mut required: Vec<&'static str> = Vec::new();
    required.push("pattern");
    assert(required@ =~= seq!["pattern"]);
    ToolSpec {
        name: "grep",
        description: "Search file contents using ripgrep. Prefer this over bash grep or rg.",
        parameters: object_schema(props, required),
    }
}

/// The match cap; defaults to 200.
pub open spec fn grep_limit(limit: Option<usize>) -> nat {
    match limit {
        Some(l) => l as nat,
        None => 200,
    }
}

/// What a grep reports for an `rg` run that ended with `exit_code` (`None`
/// when killed by a signal): exit code 1 means no match; another failure is
/// an error with `rg`'s standard error; otherwise the matching lines, capped.
pub open spec fn grep_result_spec(
    exit_code: Option<i32>,
    success: bool,
    stdout: Seq<char>,
    stderr: Seq<char>,
    limit: Option<usize>,
) -> Result<Seq<char>, Seq<char>> {
    if exit_code == Some(1i32) {
        Ok("no matches found"@)
    } else if !success {
        Err("rg failed: "@ + stderr)
    } else {
        let ls = lines_spec(stdout);
        Ok(capped_lines(ls, grep_limit(limit)) + truncation_suffix(grep_limit(limit), ls.len(), "matches"@))
    }
}

pub fn grep_result(exit_code: Option<i32>, success: bool, stdout: &str, stderr: &str, limit: Option<usize>) -> (r: Result<String, String>)
    ensures
        match r {
            Ok(s) => grep_result_spec(exit_code, success, stdout@, stderr@, limit) == Ok::<Seq<char>, Seq<char>>(s@),
            Err(s) => grep_result_spec(exit_code, success, stdout@, stderr@, limit) == Err::<Seq<char>, Seq<char>>(s@),
        },
{
    if exit_code == Some(1i32) {
        return Ok(copy_str("no matches found"));
    }
    if !success {
        let mut e = copy_str("rg failed: ");
        e.push_str(stderr);
        return Err(e);
    }
    let l = match limit {
        Some(l) => l,
        None => 200,
    };
    let (text, _) = capped_listing(stdout, l, "matches");
    Ok(text)
}

/// The arguments of a grep call.
#[derive(Debug, Clone)]
pub struct GrepArgs {
    pub pattern: String,
    pub path: Option<String>,
    /// The glob of the files searched.
    pub glob: Option<String>,
    pub limit: Option<usize>,
}

/// The `rg` command line of a grep call: line numbers, no colour, the file glob
/// if any, then the pattern and the path (default `.`).
pub open spec fn rg_arguments_spec(pattern: Seq<char>, path: Option<Seq<char>>, glob: Option<Seq<char>>) -> Seq<Seq<char>> {
    seq!["--line-number"@, "--color=never"@] + match glob {
        Some(g) => seq!["--glob"@, g],
        None => Seq::<Seq<char>>::empty(),
    } + seq![pattern, match path { Some(p) => p, None => "."@ }]
}

pub fn rg_arguments(args: &GrepArgs) -> (r: Vec<String>)
    ensures
        crate::text::views(r@) == rg_arguments_spec(args.pattern@,
            match args.path { Some(p) => Some(p@), None => None },
            match args.glob { Some(g) => Some(g@), None => None }),
{
    let mut r: Vec<String> = Vec::new();
    r.push(copy_str("--line-number"));
    r.push(copy_str("--color=never"));
    match &args.glob {
        Some(g) => {
            r.push(copy_str("--glob"));
            r.push(g.clone());
        },
        None => {},
    }
    r.push(args.pattern.clone());
    match &args.path {
        Some(p) => r.push(p.clone()),
        None => r.push(copy_str(".")),
    }
    assert(crate::text::views(r@) =~= rg_arguments_spec(args.pattern@,
        match args.path { Some(p) => Some(p@), None => None },
        match args.glob { Some(g) => Some(g@), None => None }));
    r
}

} // verus!
