//! The system prompt: the tools on offer, guidelines that follow from them,
//! the project's `AGENTS.md`, the skills the model may suggest, the date and
//! the working directory.

use vstd::prelude::*;
use crate::skills::{format_available, format_available_spec, skill_views, Skill, SkillView};
use crate::text::{chars_of, copy_str, decimal, decimal_spec, join, join_spec, replace_all,
    replace_all_spec, same_text, trim, trim_spec, views};
use crate::tools::{tool_names, ToolSpec};

verus! {

/// A calendar date (UTC).
#[derive(Debug, Clone, Copy)]
pub struct PromptDate {
    pub year: u32,
    pub month: u8,
    pub day: u8,
}

/// What the prompt is built from. `agents_md` is the content of the
/// project's `AGENTS.md`, or `None` when it is missing or unreadable.
pub struct BuildOptions<'a> {
    pub cwd: &'a str,
    pub tools: &'a [ToolSpec],
    pub skills: &'a [Skill],
    pub date: PromptDate,
    pub agents_md: Option<&'a str>,
}

/// The decimal digits of `n`, padded on the left with zeros to `width`.
pub open spec fn padded_spec(n: nat, width: nat) -> Seq<char> {
    let d = decimal_spec(n);
    if d.len() < width {
        Seq::new((width - d.len()) as nat, |i: int| '0') + d
    } else {
        d
    }
}

fn push_padded(out: &mut String, n: u64, width: usize)
    ensures
        final(out)@ == old(out)@ + padded_spec(n as nat, width as nat),
{
    let d = decimal(n);
    let len = d.as_str().unicode_len();
    if len < width {
        let mut k: usize = 0;
        while k < width - len
            invariant
                k <= width - len,
                len == d@.len(),
                len < width,
                out@ == old(out)@ + Seq::new(k as nat, |i: int| '0'),
            decreases width - len - k,
        {
            let ghost before = out@;
            out.push('0');
            assert(Seq::new((k + 1) as nat, |i: int| '0') =~= Seq::new(k as nat, |i: int| '0').push('0'));
            k += 1;
        }
    }
    out.push_str(d.as_str());
    assert(out@ =~= old(out)@ + padded_spec(n as nat, width as nat));
}

/// `YYYY-MM-DD`.
pub open spec fn date_spec(d: PromptDate) -> Seq<char> {
    padded_spec(d.year as nat, 4) + "-"@ + padded_spec(d.month as nat, 2) + "-"@ + padded_spec(d.day as nat, 2)
}

pub fn date_text(d: PromptDate) -> (r: String)
    ensures
        r@ == date_spec(d),
{
    let mut r = String::new();
    push_padded(&mut r, d.year as u64, 4);
    r.push_str("-");
    push_padded(&mut r, d.month as u64, 2);
    r.push_str("-");
    push_padded(&mut r, d.day as u64, 2);
    r
}

/// The line for one tool.
pub open spec fn tool_line(t: ToolSpec) -> Seq<char> {
    "- "@ + t.name@ + ": "@ + t.description@
}

/// The tool list: one line per tool, or `(none)`.
pub open spec fn tools_list_spec(tools: Seq<ToolSpec>) -> Seq<char> {
    if tools.len() == 0 {
        "(none)"@
    } else {
        join_spec(Seq::new(tools.len(), |i: int| tool_line(tools[i])), "\n"@)
    }
}

fn tools_list(tools: &[ToolSpec]) -> (r: String)
    ensures
        r@ == tools_list_spec(tools@),
{
    if tools.len() == 0 {
        return copy_str("(none)");
    }
    let ghost want = Seq::new(tools@.len(), |i: int| tool_line(tools@[i]));
    let mut lines: Vec<String> = Vec::new();
    let mut i: usize = 0;
    while i < tools.len()
        invariant
            i <= tools@.len(),
            want == Seq::new(tools@.len(), |i: int| tool_line(tools@[i])),
            views(lines@) == want.take(i as int),
        decreases tools@.len() - i,
    {
        let mut line = copy_str("- ");
        line.push_str(tools[i].name);
        line.push_str(": ");
        line.push_str(tools[i].description);
        let ghost before = views(lines@);
        lines.push(line);
        assert(views(lines@) =~= before.push(line@));
        assert(want.take(i + 1) =~= want.take(i as int).push(tool_line(tools@[i as int])));
        i += 1;
    }
    assert(want.take(tools@.len() as int) =~= want);
    join(lines.as_slice(), "\n")
}

/// The guidelines: how to explore files given the tools on offer, then two
/// standing ones.
pub open spec fn guidelines_spec(names: Seq<Seq<char>>) -> Seq<Seq<char>> {
    let bash = names.contains("bash"@);
    let other = names.contains("grep"@) || names.contains("find"@) || names.contains("ls"@);
    (if bash && !other {
        seq!["Use bash for file operations like ls, rg, find"@]
    } else if bash && other {
        seq!["Prefer grep/find/ls tools over bash for file exploration (faster, respects .gitignore)"@]
    } else {
        Seq::<Seq<char>>::empty()
    }) + seq!["Be concise in your responses"@, "Show file paths clearly when working with files"@]
}

pub open spec fn guidelines_text_spec(names: Seq<Seq<char>>) -> Seq<char> {
    let g = guidelines_spec(names);
    join_spec(Seq::new(g.len(), |i: int| "- "@ + g[i]), "\n"@)
}

fn has_tool(tools: &[ToolSpec], name: &str) -> (b: bool)
    ensures
        b == tool_names(tools@).contains(name@),
{
    let mut i: usize = 0;
    while i < tools.len()
        invariant
            i <= tools@.len(),
            forall|j: int| 0 <= j < i ==> tool_names(tools@)[j] != name@,
        decreases tools@.len() - i,
    {
        if same_text(tools[i].name, name) {
            assert(tool_names(tools@)[i as int] == name@);
            return true;
        }
        i += 1;
    }
    false
}

fn guideline_line(g: &str) -> (r: String)
    ensures
        r@ == "- "@ + g@,
{
    let mut r = copy_str("- ");
    r.push_str(g);
    r
}

fn guidelines_text(tools: &[ToolSpec]) -> (r: String)
    ensures
        r@ == guidelines_text_spec(tool_names(tools@)),
{
    let bash = has_tool(tools, "bash");
    let other = has_tool(tools, "grep") || has_tool(tools, "find") || has_tool(tools, "ls");
    let mut lines: Vec<String> = Vec::new();
    if bash && !other {
        lines.push(guideline_line("Use bash for file operations like ls, rg, find"));
    } else if bash && other {
        lines.push(guideline_line("Prefer grep/find/ls tools over bash for file exploration (faster, respects .gitignore)"));
    }
    lines.push(guideline_line("Be concise in your responses"));
    lines.push(guideline_line("Show file paths clearly when working with files"));
    let ghost g = guidelines_spec(tool_names(tools@));
    assert(views(lines@) =~= Seq::new(g.len(), |i: int| "- "@ + g[i]));
    join(lines.as_slice(), "\n")
}

/// The project context section for the trimmed `AGENTS.md` content `t`.
pub open spec fn context_section_spec(agents_md: Option<Seq<char>>) -> Seq<char> {
    match agents_md {
        Some(raw) => "\n\n<project_context>\n\n"@ + "Project-specific instructions and guidelines:\n\n"@
            + "<project_instructions path=\"AGENTS.md\">\n"@ + trim_spec(raw) + "\n</project_instructions>\n"@
            + "</project_context>"@,
        None => Seq::empty(),
    }
}

/// The skills section: empty unless some skill may be suggested.
pub open spec fn skills_section_spec(skills: Seq<SkillView>) -> Seq<char> {
    let a = format_available_spec(skills);
    if a.len() == 0 {
        Seq::empty()
    } else {
        "\n\n"@ + a
    }
}

/// The system prompt.
pub open spec fn build_spec(
    cwd: Seq<char>,
    tools: Seq<ToolSpec>,
    skills: Seq<SkillView>,
    date: PromptDate,
    agents_md: Option<Seq<char>>,
) -> Seq<char> {
    "You are Sabi, an expert coding assistant. You help users by reading files, executing commands, editing code, and writing new files.\n\nAvailable tools:\n"@
        + tools_list_spec(tools) + "\n\nGuidelines:\n"@ + guidelines_text_spec(tool_names(tools))
        + context_section_spec(agents_md) + skills_section_spec(skills) + "\n\nCurrent date: "@
        + date_spec(date) + "\nCurrent working directory: "@ + replace_all_spec(cwd, seq!['\\'], seq!['/'])
}

/// Builds the system prompt.
pub fn build(options: BuildOptions) -> (r: String)
    ensures
        r@ == build_spec(options.cwd@, options.tools@, skill_views(options.skills@), options.date,
            match options.agents_md { Some(a) => Some(a@), None => None }),
{
    let mut r = copy_str("You are Sabi, an expert coding assistant. You help users by reading files, executing commands, editing code, and writing new files.\n\nAvailable tools:\n");
    r.push_str(tools_list(options.tools).as_str());
    r.push_str("\n\nGuidelines:\n");
    r.push_str(guidelines_text(options.tools).as_str());
    match options.agents_md {
        Some(raw) => {
            r.push_str("\n\n<project_context>\n\n");
            r.push_str("Project-specific instructions and guidelines:\n\n");
            r.push_str("<project_instructions path=\"AGENTS.md\">\n");
            r.push_str(trim(raw).as_str());
            r.push_str("\n</project_instructions>\n");
            r.push_str("</project_context>");
        },
        None => {},
    }
    let available = format_available(options.skills);
    if available.as_str().unicode_len() > 0 {
        r.push_str("\n\n");
        r.push_str(available.as_str());
    }
    r.push_str("\n\nCurrent date: ");
    r.push_str(date_text(options.date).as_str());
    r.push_str("\nCurrent working directory: ");
    let cwd_chars = chars_of(options.cwd);
    let slash = chars_of("\\");
    proof {
        reveal_strlit("\\");
        reveal_strlit("/");
        assert("/"@ =~= seq!['/']);
        assert(slash@ =~= seq!['\\']);
    }
    r.push_str(replace_all(cwd_chars.as_slice(), slash.as_slice(), "/").as_str());
    assert(r@ =~= build_spec(options.cwd@, options.tools@, skill_views(options.skills@), options.date,
        match options.agents_md { Some(a) => Some(a@), None => None }));
    r
}

} // verus!
