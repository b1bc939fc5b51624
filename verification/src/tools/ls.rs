//! The ls tool: a sorted listing of a directory's entries.

use vstd::prelude::*;
use crate::text::{copy_str, join, join_spec, sort_strings, texts_sorted, views};
use crate::tools::{object_schema, string_param, ParamSpec, ToolSpec};

verus! {

/// The tool as offered to the model.
pub fn spec() -> (t: ToolSpec)
    ensures
        t.name == "ls",
        t.description == "List files and directories in a directory. Prefer this over bash ls.",
        t.parameters.required@.len() == 0,
        t.parameters.properties@.len() == 1,
        t.parameters.properties@[0].name == "path",
{
    let mut props: Vec<ParamSpec> = Vec::new();
    props.push(string_param("path", "Directory path to list. Defaults to current working directory."));
    let required: Vec<&'static str> = Vec::new();
    ToolSpec {
        name: "ls",
        description: "List files and directories in a directory. Prefer this over bash ls.",
        parameters: object_schema(props, required),
    }
}

/// An entry's name as listed: directories end with `/`.
pub open spec fn entry_label(name: Seq<char>, is_dir: bool) -> Seq<char> {
    if is_dir {
        name.push('/')
    } else {
        name
    }
}

pub fn entry_name(name: &str, is_dir: bool) -> (r: String)
    ensures
        r@ == entry_label(name@, is_dir),
{
    let mut r = copy_str(name);
    if is_dir {
        r.push('/');
    }
    r
}

/// Lists the entries of the directory shown as `display_path`: their labels
/// sorted and one per line, or a note that the directory is empty.
pub fn listing(display_path: &str, names: Vec<String>) -> (r: String)
    ensures
        names@.len() == 0 ==> r@ == display_path@ + " is empty"@,
        names@.len() > 0 ==> exists|sorted: Seq<Seq<char>>|
            #![trigger join_spec(sorted, "\n"@)]
            texts_sorted(sorted) && sorted.to_multiset() == views(names@).to_multiset()
                && r@ == join_spec(sorted, "\n"@),
{
    if names.len() == 0 {
        let mut r = copy_str(display_path);
        r.push_str(" is empty");
        return r;
    }
    let sorted = sort_strings(names);
    let r = join(sorted.as_slice(), "\n");
    assert(texts_sorted(views(sorted@)));
    r
}

/// The arguments of an ls call.
#[derive(Debug, Clone)]
pub struct LsArgs {
    pub path: Option<String>,
}

/// The directory an ls call lists: its path (default `.`) resolved against
/// `cwd`.
pub fn listed_dir(cwd: &str, args: &LsArgs) -> (r: String)
    ensures
        r@ == crate::tools::join_path_spec(cwd@, match args.path { Some(p) => p@, None => "."@ }),
{
    match &args.path {
        Some(p) => crate::tools::resolve_path(cwd, p.as_str()),
        None => crate::tools::resolve_path(cwd, "."),
    }
}

} // verus!
