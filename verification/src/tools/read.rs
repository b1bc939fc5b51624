//! The read tool: a numbered window of a text file's lines.

use vstd::prelude::*;
use crate::text::{decimal_spec, lines, lines_spec, push_decimal, views};
use crate::tools::{integer_param, object_schema, string_param, ParamSpec, ToolSpec};

verus! {

/// The tool as offered to the model.
pub fn spec() -> (t: ToolSpec)
    ensures
        t.name == "read",
        t.description == "Read a UTF-8 text file. Supports optional 1-indexed offset and line limit.",
        t.parameters.required@ == seq!["path"],
        t.parameters.properties@.len() == 3,
        t.parameters.properties@[0].name == "path",
        t.parameters.properties@[1].name == "offset",
        t.parameters.properties@[2].name == "limit",
{
    let mut props: Vec<ParamSpec> = Vec::new();
    props.push(string_param("path", "Path to the file to read"));
    props.push(integer_param("offset", "1-indexed line number to start from"));
    props.push(integer_param("limit", "Maximum number of lines to return"));
    let mut required: Vec<&'static str> = Vec::new();
    required.push("path");
    assert(required@ =~= seq!["path"]);
    ToolSpec {
        name: "read",
        description: "Read a UTF-8 text file. Supports optional 1-indexed offset and line limit.",
        parameters: object_schema(props, required),
    }
}

/// The first line shown: `offset` is 1-indexed and defaults to 1.
pub open spec fn window_start(offset: Option<usize>) -> nat {
    let o = match offset {
        Some(o) => o as nat,
        None => 1nat,
    };
    if o == 0 {
        0
    } else {
        (o - 1) as nat
    }
}

/// The number of lines shown at most; defaults to 200.
pub open spec fn window_limit(limit: Option<usize>) -> nat {
    match limit {
        Some(l) => l as nat,
        None => 200nat,
    }
}

/// Lines `start..end` of `ls`, each as `{number}: {line}\n`, numbered from 1.
pub open spec fn numbered_lines(ls: Seq<Seq<char>>, start: nat, end: nat) -> Seq<char>
    decreases end,
{
    if end <= start {
        Seq::empty()
    } else {
        numbered_lines(ls, start, (end - 1) as nat) + decimal_spec(end) + ": "@ + ls[end - 1] + "\n"@
    }
}

/// What the read tool shows of `content`.
pub open spec fn read_window_spec(content: Seq<char>, offset: Option<usize>, limit: Option<usize>) -> Seq<char> {
    let ls = lines_spec(content);
    let start = window_start(offset);
    let end = if start + window_limit(limit) < ls.len() { start + window_limit(limit) } else { ls.len() };
    if start >= ls.len() {
        Seq::empty()
    } else {
        numbered_lines(ls, start, end) + if end < ls.len() {
            "\n[truncated: showing lines "@ + decimal_spec(start + 1) + "-"@ + decimal_spec(end)
                + " of "@ + decimal_spec(ls.len()) + "]"@
        } else {
            Seq::empty()
        }
    }
}

/// Formats the window of `content` that a read with these arguments shows.
pub fn read_window(content: &str, offset: Option<usize>, limit: Option<usize>) -> (r: String)
    requires
        window_start(offset) + window_limit(limit) <= usize::MAX,
    ensures
        r@ == read_window_spec(content@, offset, limit),
{
    let ls = lines(content);
    let ghost all = views(ls@);
    let n = ls.len();
    let start: usize = match offset {
        Some(o) => if o == 0 { 0 } else { o - 1 },
        None => 0,
    };
    let lim: usize = match limit {
        Some(l) => l,
        None => 200,
    };
    let end: usize = if start + lim < n { start + lim } else { n };
    if start >= n {
        return String::new();
    }
    let mut out = String::new();
    let mut i: usize = start;
    while i < end
        invariant
            start <= i <= end <= n == ls@.len(),
            all == views(ls@),
            out@ == numbered_lines(all, start as nat, i as nat),
        decreases end - i,
    {
        let ghost before = out@;
        push_decimal(&mut out, (i + 1) as u64);
        out.push_str(": ");
        out.push_str(ls[i].as_str());
        out.push_str("\n");
        assert(out@ =~= before + decimal_spec((i + 1) as nat) + ": "@ + all[i as int] + "\n"@);
        assert(numbered_lines(all, start as nat, (i + 1) as nat) == numbered_lines(all, start as nat, i as nat)
            + decimal_spec((i + 1) as nat) + ": "@ + all[i as int] + "\n"@);
        i += 1;
    }
    if end < n {
        let note = truncation_note(start + 1, end, n);
        out.push_str(note.as_str());
    }
    out
}

/// `\n[truncated: showing lines {first}-{last} of {total}]`
fn truncation_note(first: usize, last: usize, total: usize) -> (r: String)
    ensures
        r@ == "\n[truncated: showing lines "@ + decimal_spec(first as nat) + "-"@ + decimal_spec(last as nat)
            + " of "@ + decimal_spec(total as nat) + "]"@,
{
    let mut out = String::new();
    out.push_str("\n[truncated: showing lines ");
    push_decimal(&mut out, first as u64);
    out.push_str("-");
    push_decimal(&mut out, last as u64);
    out.push_str(" of ");
    push_decimal(&mut out, total as u64);
    out.push_str("]");
    assert(out@ =~= "\n[truncated: showing lines "@ + decimal_spec(first as nat) + "-"@ + decimal_spec(last as nat)
            + " of "@ + decimal_spec(total as nat) + "]"@);
    out
}

/// A window that ends before the file's last line ends with the truncation
/// note naming the lines shown and the total, whether or not an offset was
/// given; a window starting past the end is empty.
pub proof fn early_window_notes_truncation(content: Seq<char>, offset: Option<usize>, limit: Option<usize>)
    ensures
        ({
            let n = lines_spec(content).len();
            let start: nat = match offset {
                Some(o) => if o == 0 { 0 } else { (o - 1) as nat },
                None => 0,
            };
            let lim: nat = match limit {
                Some(l) => l as nat,
                None => 200,
            };
            let note = "\n[truncated: showing lines "@ + decimal_spec(start + 1) + "-"@ + decimal_spec(start + lim)
                + " of "@ + decimal_spec(n) + "]"@;
            let r = read_window_spec(content, offset, limit);
            &&& start < n && start + lim < n ==> r.len() >= note.len()
                && r.subrange(r.len() - note.len(), r.len() as int) == note
            &&& start >= n ==> r.len() == 0
        }),
{
    let n = lines_spec(content).len();
    let start = window_start(offset);
    let lim = window_limit(limit);
    if start < n && start + lim < n {
        let note = "\n[truncated: showing lines "@ + decimal_spec(start + 1) + "-"@ + decimal_spec(start + lim)
            + " of "@ + decimal_spec(n) + "]"@;
        let body = numbered_lines(lines_spec(content), start, start + lim);
        let r = read_window_spec(content, offset, limit);
        assert(r == body + note);
        assert(r.subrange(r.len() - note.len(), r.len() as int) =~= note);
    }
}

/// The arguments of a read call.
#[derive(Debug, Clone)]
pub struct ReadArgs {
    pub path: String,
    pub offset: Option<usize>,
    pub limit: Option<usize>,
}

/// Whether the window asked for fits in memory indices: the first line shown
/// plus the line limit must not overflow.
pub fn window_fits(offset: Option<usize>, limit: Option<usize>) -> (b: bool)
    ensures
        b == (window_start(offset) + window_limit(limit) <= usize::MAX),
{
    let start: usize = match offset {
        Some(o) => if o == 0 { 0 } else { o - 1 },
        None => 0,
    };
    let l: usize = match limit {
        Some(l) => l,
        None => 200,
    };
    start <= usize::MAX - l
}

} // verus!
