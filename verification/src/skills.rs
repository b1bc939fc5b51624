//! Skills: prompt resources with a name and description, built in or read
//! from `SKILL.md` files with frontmatter.

use vstd::prelude::*;
use crate::text::{join_spec, lemma_replace_all_is_split_join, split_spec, chars_of, contains, contains_spec, lemma_trim_idempotent, copy_str, find_from, find_spec, index_of_spec,
    lemma_find_spec, lemma_index_of, lemma_text_less_irreflexive, lemma_text_less_total,
    lemma_text_less_transitive, lines, lines_spec, matches_at, replace_all, replace_all_spec,
    same_text, starts_with, starts_with_spec, str_less, string_of_range, text_less, trim, trim_end_spec, trim_spec, trim_start_spec,
    views};

verus! {

/// A skill: instructions the user can invoke with `/skill:name`.
#[derive(Debug)]
pub struct Skill {
    pub name: String,
    pub description: String,
    pub file_path: String,
    pub content: String,
    pub disable_model_invocation: bool,
}

pub struct SkillView {
    pub name: Seq<char>,
    pub description: Seq<char>,
    pub file_path: Seq<char>,
    pub content: Seq<char>,
    pub disable_model_invocation: bool,
}

impl View for Skill {
    type V = SkillView;

    open spec fn view(&self) -> SkillView {
        SkillView {
            name: self.name@,
            description: self.description@,
            file_path: self.file_path@,
            content: self.content@,
            disable_model_invocation: self.disable_model_invocation,
        }
    }
}

pub open spec fn skill_views(s: Seq<Skill>) -> Seq<SkillView> {
    s.map_values(|x: Skill| x@)
}

impl Skill {
    /// A copy of this skill.
    pub fn duplicate(&self) -> (r: Skill)
        ensures
            r@ == self@,
    {
        Skill {
            name: self.name.clone(),
            description: self.description.clone(),
            file_path: self.file_path.clone(),
            content: self.content.clone(),
            disable_model_invocation: self.disable_model_invocation,
        }
    }
}

pub const INIT_SKILL: &'static str = r#"Create or update `AGENTS.md` for this repository.

The goal is a compact instruction file that helps future OpenCode sessions avoid mistakes and ramp up quickly. Every line should answer: "Would an agent likely miss this without help?" If not, leave it out.

User-provided focus or constraints (honor these):
$ARGUMENTS

## How to investigate

Read the highest-value sources first:
- `README*`, root manifests, workspace config, lockfiles
- build, test, lint, formatter, typecheck, and codegen config
- CI workflows and pre-commit / task runner config
- existing instruction files (`AGENTS.md`, `.cursor/rules/`, `.cursorrules`, `.github/copilot-instructions.md`)
- repo-local OpenCode config such as `opencode.json`

If architecture is still unclear after reading config and docs, inspect a small number of representative code files to find the real entrypoints, package boundaries, and execution flow. Prefer reading the files that explain how the system is wired together over random leaf files.

Prefer executable sources of truth over prose. If docs conflict with config or scripts, trust the executable source and only keep what you can verify.

## What to extract

Look for the highest-signal facts for an agent working in this repo:
- exact developer commands, especially non-obvious ones
- how to run a single test, a single package, or a focused verification step
- required command order when it matters, such as `lint -> typecheck -> test`
- monorepo or multi-package boundaries, ownership of major directories, and the real app/library entrypoints
- framework or toolchain quirks: generated code, migrations, codegen, build artifacts, special env loading, dev servers, infra deploy flow
- repo-specific style or workflow conventions that differ from defaults
- testing quirks: fixtures, integration test prerequisites, snapshot workflows, required services, flaky or expensive suites
- important constraints from existing instruction files worth preserving

Good `AGENTS.md` content is usually hard-earned context that took reading multiple files to infer.

## Questions

Only ask the user questions if the repo cannot answer something important. Use the `question` tool for one short batch at most.

Good questions:
- undocumented team conventions
- branch / PR / release expectations
- missing setup or test prerequisites that are known but not written down

Do not ask about anything the repo already makes clear.

## Writing rules

Include only high-signal, repo-specific guidance such as:
- exact commands and shortcuts the agent would otherwise guess wrong
- architecture notes that are not obvious from filenames
- conventions that differ from language or framework defaults
- setup requirements, environment quirks, and operational gotchas
- references to existing instruction sources that matter

Exclude:
- generic software advice
- long tutorials or exhaustive file trees
- obvious language conventions
- speculative claims or anything you could not verify
- content better stored in another file referenced via `opencode.json` `instructions`

When in doubt, omit.

Prefer short sections and bullets. If the repo is simple, keep the file simple. If the repo is large, summarize the few structural facts that actually change how an agent should work.

If `AGENTS.md` already exists at the target path, improve it in place rather than rewriting blindly. Preserve verified useful guidance, delete fluff or stale claims, and reconcile it with the current codebase."#;

pub const REVIEW_SKILL: &'static str = r#"You are an experienced code review specialist. Your job is to review code changes and provide actionable feedback.

---

Input: $ARGUMENTS

---

## Determining What to Review

Based on the input provided, determine which type of review to perform:

1. **No arguments (default)**: Review all uncommitted changes
   - Run: `git diff` for unstaged changes
   - Run: `git diff --cached` for staged changes
   - Run: `git status --short` to identify untracked (net new) files

2. **Commit hash** (40-char SHA or short hash): Review that specific commit
   - Run: `git show $ARGUMENTS`

3. **Branch name**: Compare current branch to the specified branch
   - Run: `git diff $ARGUMENTS...HEAD`

4. **PR URL or number** (contains "github.com" or "pull" or looks like a PR number): Review the pull request
   - Run: `gh pr view $ARGUMENTS` to get PR context
   - Run: `gh pr diff $ARGUMENTS` to get the diff

Use best judgement when processing input.

---

## Gathering Context

**Diffs alone are not enough.** After getting the diff, read the entire file(s) being modified to understand the full context. Code that looks wrong in isolation may be correct given surrounding logic—and vice versa.

- Use the diff to identify which files changed
- Use `git status --short` to identify untracked files, then read their full contents
- Read the full file to understand existing patterns, control flow, and error handling
- Check for existing style guide or conventions files (CONVENTIONS.md, AGENTS.md, .editorconfig, etc.)

---

## What to Look For

**Bugs** - Your primary focus.
- Logic errors, off-by-one mistakes, incorrect conditionals
- If-else guards: missing guards, incorrect branching, unreachable code paths
- Edge cases: null/empty/undefined inputs, error conditions, race conditions
- Security issues: injection, auth bypass, data exposure
- Broken error handling that swallows failures, throws unexpectedly or returns error types that are not caught.

**Structure** - Does the code fit the codebase?
- Does it follow existing patterns and conventions?
- Are there established abstractions it should use but doesn't?
- Excessive nesting that could be flattened with early returns or extraction

**Performance** - Only flag if obviously problematic.
- O(n²) on unbounded data, N+1 queries, blocking I/O on hot paths

**Behavior Changes** - If a behavioral change is introduced, raise it (especially if it's possibly unintentional).

---

## Before You Flag Something

**Be certain.** If you're going to call something a bug, you need to be confident it actually is one.

- Only review the changes - do not review pre-existing code that wasn't modified
- Don't flag something as a bug if you're unsure - investigate first
- Don't invent hypothetical problems - if an edge case matters, explain the realistic scenario where it breaks
- If you need more context to be sure, use the tools below to get it

**Don't be a zealot about style.** When checking code against conventions:

- Verify the code is *actually* in violation. Don't complain about else statements if early returns are already being used correctly.
- Some "violations" are acceptable when they're the simplest option. A `let` statement is fine if the alternative is convoluted.
- Excessive nesting is a legitimate concern regardless of other style choices.
- Don't flag style preferences as issues unless they clearly violate established project conventions.

---

## Tools

Use these to inform your review:

- **Explore agent** - Find how existing code handles similar problems. Check patterns, conventions, and prior art before claiming something doesn't fit.
- **Exa Code Context** - Verify correct usage of libraries/APIs before flagging something as wrong.
- **Web Search** - Research best practices if you're unsure about a pattern.

If you're uncertain about something and can't verify it with these tools, say "I'm not sure about X" rather than flagging it as a definite issue.

---

## Output

1. If there is a bug, be direct and clear about why it is a bug.
2. Clearly communicate severity of issues. Do not overstate severity.
3. Critiques should clearly and explicitly communicate the scenarios, environments, or inputs that are necessary for the bug to arise. The comment should immediately indicate that the issue's severity depends on these factors.
4. Your tone should be matter-of-fact and not accusatory or overly positive. It should read as a helpful AI assistant suggestion without sounding too much like a human critic.
5. Write so the reader can quickly understand the issue without reading too closely.
6. AVOID flattery, do not give any comments that are not helpful to the reader. Avoid phrasing like "Great job ...", "Thanks for ..."."#;

/// The built-in `init` skill.
pub open spec fn init_skill_spec() -> SkillView {
    SkillView {
        name: "init"@,
        description: "Create or update a compact repository AGENTS.md instruction file."@,
        file_path: "<built-in>/init"@,
        content: trim_spec(INIT_SKILL@),
        disable_model_invocation: false,
    }
}

/// The built-in `review` skill.
pub open spec fn review_skill_spec() -> SkillView {
    SkillView {
        name: "review"@,
        description: "Review code changes and provide actionable feedback."@,
        file_path: "<built-in>/review"@,
        content: trim_spec(REVIEW_SKILL@),
        disable_model_invocation: false,
    }
}

pub fn builtin_init_skill() -> (s: Skill)
    ensures
        s@ == init_skill_spec(),
{
    Skill {
        name: copy_str("init"),
        description: copy_str("Create or update a compact repository AGENTS.md instruction file."),
        file_path: copy_str("<built-in>/init"),
        content: trim(INIT_SKILL),
        disable_model_invocation: false,
    }
}

pub fn builtin_review_skill() -> (s: Skill)
    ensures
        s@ == review_skill_spec(),
{
    Skill {
        name: copy_str("review"),
        description: copy_str("Review code changes and provide actionable feedback."),
        file_path: copy_str("<built-in>/review"),
        content: trim(REVIEW_SKILL),
        disable_model_invocation: false,
    }
}

// ---------------------------------------------------------------------------
// Formatting
// ---------------------------------------------------------------------------

/// The skill text before `$ARGUMENTS` is filled in.
pub open spec fn invocation_base(s: SkillView) -> Seq<char> {
    "Use the following skill instructions.\n\n# Skill: "@ + s.name + "\n\nDescription: "@
        + s.description + "\n\n"@ + s.content
}

/// The prompt that invokes skill `s` with the user's extra text: every
/// `$ARGUMENTS` becomes the trimmed extra text, which is appended as
/// additional instructions when it does not appear otherwise.
pub open spec fn format_invocation_spec(s: SkillView, extra: Seq<char>) -> Seq<char> {
    let e = trim_spec(extra);
    if e.len() > 0 {
        let p = replace_all_spec(invocation_base(s), "$ARGUMENTS"@, e);
        if contains_spec(p, e) {
            p
        } else {
            p + "\n\nAdditional user instructions:\n"@ + e
        }
    } else {
        replace_all_spec(invocation_base(s), "$ARGUMENTS"@, Seq::empty())
    }
}

pub fn format_invocation(skill: &Skill, extra: &str) -> (r: String)
    ensures
        r@ == format_invocation_spec(skill@, extra@),
{
    let mut base = copy_str("Use the following skill instructions.\n\n# Skill: ");
    base.push_str(skill.name.as_str());
    base.push_str("\n\nDescription: ");
    base.push_str(skill.description.as_str());
    base.push_str("\n\n");
    base.push_str(skill.content.as_str());
    assert(base@ =~= invocation_base(skill@));
    let v = chars_of(base.as_str());
    let pat = chars_of("$ARGUMENTS");
    proof {
        reveal_strlit("$ARGUMENTS");
        reveal_strlit("");
    }
    let e = trim(extra);
    if !e.as_str().is_empty() {
        let mut prompt = replace_all(v.as_slice(), pat.as_slice(), e.as_str());
        if !contains(prompt.as_str(), e.as_str()) {
            prompt.push_str("\n\nAdditional user instructions:\n");
            prompt.push_str(e.as_str());
            assert(prompt@ =~= replace_all_spec(invocation_base(skill@), "$ARGUMENTS"@, e@)
                + "\n\nAdditional user instructions:\n"@ + e@);
        }
        prompt
    } else {
        let r = replace_all(v.as_slice(), pat.as_slice(), "");
        assert(""@ =~= Seq::<char>::empty());
        r
    }
}

/// The list line for one skill.
pub open spec fn skill_line(s: SkillView) -> Seq<char> {
    "- "@ + s.name + ": "@ + s.description + "\n"@
}

/// The list lines of the skills the model may suggest, in order.
pub open spec fn skill_lines(s: Seq<SkillView>) -> Seq<char>
    decreases s.len(),
{
    if s.len() == 0 {
        Seq::empty()
    } else {
        skill_lines(s.drop_last()) + if s.last().disable_model_invocation {
            Seq::empty()
        } else {
            skill_line(s.last())
        }
    }
}

/// True when some skill may be suggested by the model.
pub open spec fn any_invocable(s: Seq<SkillView>) -> bool {
    exists|i: int| 0 <= i < s.len() && !(#[trigger] s[i]).disable_model_invocation
}

pub open spec fn skills_header() -> Seq<char> {
    "Available skills. Invoke one by asking the user to run `/skill:name` when it is relevant:\n"@
}

/// The summary of available skills for prompts; empty when none may be suggested.
pub open spec fn format_available_spec(s: Seq<SkillView>) -> Seq<char> {
    if any_invocable(s) {
        skills_header() + skill_lines(s)
    } else {
        Seq::empty()
    }
}

/// Appends the list lines of `skills` to `out`; reports whether any was written.
pub fn push_skill_lines(out: &mut String, skills: &[Skill]) -> (any: bool)
    ensures
        final(out)@ == old(out)@ + skill_lines(skill_views(skills@)),
        any == any_invocable(skill_views(skills@)),
{
    let mut any = false;
    let mut i: usize = 0;
    while i < skills.len()
        invariant
            i <= skills@.len(),
            out@ == old(out)@ + skill_lines(skill_views(skills@).take(i as int)),
            any == any_invocable(skill_views(skills@).take(i as int)),
        decreases skills@.len() - i,
    {
        let s = &skills[i];
        let ghost before = skill_views(skills@).take(i as int);
        let ghost after = skill_views(skills@).take(i + 1);
        proof {
            assert(after.drop_last() =~= before);
            assert(after.last() == s@);
        }
        if !s.disable_model_invocation {
            out.push_str("- ");
            out.push_str(s.name.as_str());
            out.push_str(": ");
            out.push_str(s.description.as_str());
            out.push_str("\n");
            any = true;
            assert(!after[i as int].disable_model_invocation);
        } else {
            assert(any_invocable(after) == any_invocable(before)) by {
                if any_invocable(after) {
                    let j = choose|j: int| 0 <= j < after.len() && !(#[trigger] after[j]).disable_model_invocation;
                    assert(before[j] == after[j]);
                }
                if any_invocable(before) {
                    let j = choose|j: int| 0 <= j < before.len() && !(#[trigger] before[j]).disable_model_invocation;
                    assert(before[j] == after[j]);
                }
            }
        }
        proof {
            if !s.disable_model_invocation {
                assert(any_invocable(after));
            }
        }
        i += 1;
    }
    assert(skill_views(skills@).take(skills@.len() as int) =~= skill_views(skills@));
    any
}

/// Lists the skills the model may suggest, with the `/skill:name` hint.
pub fn format_available(skills: &[Skill]) -> (r: String)
    ensures
        r@ == format_available_spec(skill_views(skills@)),
{
    let mut lines = String::new();
    let any = push_skill_lines(&mut lines, skills);
    if !any {
        return String::new();
    }
    let mut text = copy_str("Available skills. Invoke one by asking the user to run `/skill:name` when it is relevant:\n");
    text.push_str(lines.as_str());
    text
}


// ---------------------------------------------------------------------------
// SKILL.md parsing
// ---------------------------------------------------------------------------

/// Splits `s` at the first occurrence of `sep`: the text before and after it.
pub open spec fn split_once_spec(s: Seq<char>, sep: Seq<char>) -> Option<(Seq<char>, Seq<char>)> {
    let k = find_spec(s, sep);
    if k < 0 {
        None
    } else {
        Some((s.take(k), s.skip(k + sep.len())))
    }
}

/// The frontmatter and body of a `SKILL.md` text: it must open with a `---`
/// line, and the frontmatter ends at the next `---` line (a CRLF-delimited
/// one is looked for first).
pub open spec fn split_frontmatter_spec(content: Seq<char>) -> Option<(Seq<char>, Seq<char>)> {
    let rest = if starts_with_spec(content, "---\r\n"@) {
        Some(content.skip(5))
    } else if starts_with_spec(content, "---\n"@) {
        Some(content.skip(4))
    } else {
        None
    };
    match rest {
        None => None,
        Some(r) => match split_once_spec(r, "\r\n---\r\n"@) {
            Some(p) => Some(p),
            None => split_once_spec(r, "\n---\n"@),
        },
    }
}

fn split_once_chars(v: &[char], start: usize, sep: &str) -> (r: Option<(String, String)>)
    requires
        start <= v@.len(),
    ensures
        match r {
            Some((a, b)) => split_once_spec(v@.skip(start as int), sep@) == Some((a@, b@)),
            None => split_once_spec(v@.skip(start as int), sep@) is None,
        },
{
    let p = chars_of(sep);
    match find_from(v, p.as_slice(), start) {
        None => None,
        Some(k) => {
            let ghost t = v@.skip(start as int);
            proof {
                lemma_find_spec(t, sep@);
                assert(matches_at(t, sep@, k - start));
            }
            let n = v.len();
            let end = k + p.len();
            let a = string_of_range(v, start, k);
            let b = string_of_range(v, end, n);
            assert(t.take(k - start) =~= v@.subrange(start as int, k as int));
            assert(t.skip(k - start + sep@.len()) =~= v@.subrange(end as int, n as int));
            Some((a, b))
        },
    }
}

/// Splits a `SKILL.md` text into frontmatter and body.
pub fn split_frontmatter(content: &str) -> (r: Option<(String, String)>)
    ensures
        match r {
            Some((a, b)) => split_frontmatter_spec(content@) == Some((a@, b@)),
            None => split_frontmatter_spec(content@) is None,
        },
{
    proof {
        reveal_strlit("---\r\n");
        reveal_strlit("---\n");
    }
    let v = chars_of(content);
    let start: usize = if starts_with(content, "---\r\n") {
        5
    } else if starts_with(content, "---\n") {
        4
    } else {
        return None;
    };
    match split_once_chars(v.as_slice(), start, "\r\n---\r\n") {
        Some(p) => Some(p),
        None => split_once_chars(v.as_slice(), start, "\n---\n"),
    }
}

/// `v` without one pair of surrounding double quotes.
pub open spec fn unquote(v: Seq<char>) -> Seq<char> {
    if v.len() >= 2 && v[0] == '"' && v.last() == '"' {
        v.subrange(1, v.len() - 1)
    } else {
        v
    }
}

/// The value a frontmatter line gives `key`: the line is `key: value`, the key
/// and value are trimmed, and surrounding quotes are dropped.
pub open spec fn line_value(line: Seq<char>, key: Seq<char>) -> Option<Seq<char>> {
    let k = index_of_spec(line, ':');
    if k < 0 {
        None
    } else if trim_spec(line.take(k)) == key {
        Some(unquote(trim_spec(line.skip(k + 1))))
    } else {
        None
    }
}

/// The value of the first of `ls` that sets `key`.
pub open spec fn value_in_lines(ls: Seq<Seq<char>>, key: Seq<char>) -> Option<Seq<char>>
    decreases ls.len(),
{
    if ls.len() == 0 {
        None
    } else {
        match line_value(ls[0], key) {
            Some(v) => Some(v),
            None => value_in_lines(ls.drop_first(), key),
        }
    }
}

/// The value of `key` in `frontmatter`.
pub open spec fn frontmatter_value_spec(frontmatter: Seq<char>, key: Seq<char>) -> Option<Seq<char>> {
    value_in_lines(lines_spec(frontmatter), key)
}

fn unquoted(s: &str) -> (r: String)
    ensures
        r@ == unquote(s@),
{
    let v = chars_of(s);
    let n = v.len();
    if n >= 2 && v[0] == '"' && v[n - 1] == '"' {
        string_of_range(v.as_slice(), 1, n - 1)
    } else {
        copy_str(s)
    }
}

fn value_of_line(line: &str, key: &str) -> (r: Option<String>)
    ensures
        match r {
            Some(x) => line_value(line@, key@) == Some(x@),
            None => line_value(line@, key@) is None,
        },
{
    let v = chars_of(line);
    let n = v.len();
    let mut i: usize = 0;
    while i < n && v[i] != ':'
        invariant
            i <= n == v@.len(),
            v@ == line@,
            forall|j: int| 0 <= j < i ==> v@[j] != ':',
        decreases n - i,
    {
        i += 1;
    }
    proof {
        lemma_index_of(line@, ':');
        let k = index_of_spec(line@, ':');
        if i < n {
            assert(k == i) by {
                if k >= 0 && k < i {
                    assert(line@[k] == ':');
                }
                if k < 0 {
                    assert(line@[i as int] == ':');
                }
            }
        } else {
            assert(k < 0) by {
                if k >= 0 {
                    assert(line@[k] == ':');
                }
            }
        }
    }
    if i == n {
        return None;
    }
    let raw_key = string_of_range(v.as_slice(), 0, i);
    let line_key = trim(raw_key.as_str());
    assert(line@.take(i as int) =~= v@.subrange(0, i as int));
    if !same_text(line_key.as_str(), key) {
        return None;
    }
    let raw_value = string_of_range(v.as_slice(), i + 1, n);
    assert(line@.skip(i + 1) =~= v@.subrange(i + 1, n as int));
    let value = trim(raw_value.as_str());
    Some(unquoted(value.as_str()))
}

/// The value of `key` in a skill's frontmatter.
pub fn frontmatter_value(frontmatter: &str, key: &str) -> (r: Option<String>)
    ensures
        match r {
            Some(x) => frontmatter_value_spec(frontmatter@, key@) == Some(x@),
            None => frontmatter_value_spec(frontmatter@, key@) is None,
        },
{
    let ls = lines(frontmatter);
    let ghost all = views(ls@);
    let mut i: usize = 0;
    assert(all.skip(0) =~= all);
    while i < ls.len()
        invariant
            i <= ls@.len(),
            all == views(ls@),
            all == lines_spec(frontmatter@),
            value_in_lines(all, key@) == value_in_lines(all.skip(i as int), key@),
        decreases ls@.len() - i,
    {
        assert(all.skip(i as int)[0] == ls@[i as int]@);
        assert(all.skip(i as int).drop_first() =~= all.skip(i + 1));
        match value_of_line(ls[i].as_str(), key) {
            Some(x) => {
                return Some(x);
            },
            None => {},
        }
        i += 1;
    }
    None
}

/// Why a `SKILL.md` file was skipped.
#[derive(Debug, Clone, Copy, PartialEq, Eq, Structural)]
pub enum SkillError {
    MissingFrontmatter,
    MissingName,
    MissingDescription,
}

/// The message shown for a skipped skill.
pub open spec fn skill_error_message(e: SkillError) -> Seq<char> {
    match e {
        SkillError::MissingFrontmatter => "missing YAML frontmatter"@,
        SkillError::MissingName => "missing name"@,
        SkillError::MissingDescription => "missing description"@,
    }
}

impl SkillError {
    pub fn message(&self) -> (s: String)
        ensures
            s@ == skill_error_message(*self),
    {
        match self {
            SkillError::MissingFrontmatter => copy_str("missing YAML frontmatter"),
            SkillError::MissingName => copy_str("missing name"),
            SkillError::MissingDescription => copy_str("missing description"),
        }
    }
}

/// The skill a `SKILL.md` text at `path` defines: frontmatter with `name` and
/// `description` (and optionally `disable-model-invocation: true`), then the body.
pub open spec fn parse_skill_spec(path: Seq<char>, content: Seq<char>) -> Result<SkillView, SkillError> {
    match split_frontmatter_spec(content) {
        None => Err(SkillError::MissingFrontmatter),
        Some((fm, body)) => match frontmatter_value_spec(fm, "name"@) {
            None => Err(SkillError::MissingName),
            Some(name) => match frontmatter_value_spec(fm, "description"@) {
                None => Err(SkillError::MissingDescription),
                Some(description) => Ok(SkillView {
                    name,
                    description,
                    file_path: path,
                    content: trim_spec(body),
                    disable_model_invocation: frontmatter_value_spec(fm, "disable-model-invocation"@)
                        == Some("true"@),
                }),
            },
        },
    }
}

/// Reads a skill from the text of its `SKILL.md` file at `path`.
pub fn parse_skill(path: &str, content: &str) -> (r: Result<Skill, SkillError>)
    ensures
        match r {
            Ok(s) => parse_skill_spec(path@, content@) == Ok::<SkillView, SkillError>(s@),
            Err(e) => parse_skill_spec(path@, content@) == Err::<SkillView, SkillError>(e),
        },
{
    let (frontmatter, body) = match split_frontmatter(content) {
        Some(p) => p,
        None => return Err(SkillError::MissingFrontmatter),
    };
    let name = match frontmatter_value(frontmatter.as_str(), "name") {
        Some(n) => n,
        None => return Err(SkillError::MissingName),
    };
    let description = match frontmatter_value(frontmatter.as_str(), "description") {
        Some(d) => d,
        None => return Err(SkillError::MissingDescription),
    };
    let disable_model_invocation = match frontmatter_value(frontmatter.as_str(), "disable-model-invocation") {
        Some(v) => same_text(v.as_str(), "true"),
        None => false,
    };
    Ok(Skill {
        name,
        description,
        file_path: copy_str(path),
        content: trim(body.as_str()),
        disable_model_invocation,
    })
}


// ---------------------------------------------------------------------------
// The skill list
// ---------------------------------------------------------------------------

/// Names strictly increase along `r` (so no name repeats).
pub open spec fn names_sorted(r: Seq<SkillView>) -> bool {
    forall|i: int, j: int| 0 <= i < j < r.len() ==> text_less(#[trigger] r[i].name, #[trigger] r[j].name)
}

/// Some skill of `r` is named `name`.
pub open spec fn has_name(r: Seq<SkillView>, name: Seq<char>) -> bool {
    exists|p: int| 0 <= p < r.len() && (#[trigger] r[p]).name == name
}

/// `a[j]` is the first skill of `a` with its name.
pub open spec fn first_with_name(a: Seq<SkillView>, j: int) -> bool {
    forall|k: int| 0 <= k < j ==> (#[trigger] a[k]).name != a[j].name
}

/// `x` is a skill of `a[..n]` that comes first with its name.
pub open spec fn drawn_first(a: Seq<SkillView>, n: int, x: SkillView) -> bool {
    exists|j: int| 0 <= j < n && #[trigger] a[j] == x && first_with_name(a, j)
}

/// `r` is `a` sorted by name with only the first skill of each name kept, as a
/// stable sort by name followed by removing repeated names gives it.
pub open spec fn sorted_first_by_name(a: Seq<SkillView>, r: Seq<SkillView>) -> bool {
    &&& names_sorted(r)
    &&& forall|j: int| 0 <= j < a.len() ==> has_name(r, #[trigger] a[j].name)
    &&& forall|p: int| 0 <= p < r.len() ==> drawn_first(a, a.len() as int, #[trigger] r[p])
}

proof fn lemma_insert_keeps(a: Seq<SkillView>, i: int, r: Seq<SkillView>, q: int, x: SkillView)
    requires
        0 <= i < a.len(),
        x == a[i],
        0 <= q <= r.len(),
        names_sorted(r),
        forall|j: int| 0 <= j < i ==> has_name(r, #[trigger] a[j].name),
        forall|p: int| 0 <= p < r.len() ==> drawn_first(a, i, #[trigger] r[p]),
        forall|p: int| 0 <= p < q ==> text_less((#[trigger] r[p]).name, x.name),
        q < r.len() ==> text_less(x.name, r[q].name),
    ensures
        names_sorted(r.insert(q, x)),
        forall|j: int| 0 <= j < i + 1 ==> has_name(r.insert(q, x), #[trigger] a[j].name),
        forall|p: int| 0 <= p < r.len() + 1 ==> drawn_first(a, i + 1, #[trigger] r.insert(q, x)[p]),
{
    let r2 = r.insert(q, x);
    assert forall|p1: int, p2: int| 0 <= p1 < p2 < r2.len() implies text_less(#[trigger] r2[p1].name, #[trigger] r2[p2].name) by {
        if p1 < q && p2 < q {
            assert(r2[p1] == r[p1] && r2[p2] == r[p2]);
        } else if p1 < q && p2 == q {
        } else if p1 < q {
            assert(r2[p2] == r[p2 - 1]);
            if p2 - 1 == q {
                lemma_text_less_transitive(r[p1].name, x.name, r[q].name);
            } else {
                assert(text_less(r[q].name, r[p2 - 1].name));
                lemma_text_less_transitive(x.name, r[q].name, r[p2 - 1].name);
                lemma_text_less_transitive(r[p1].name, x.name, r[p2 - 1].name);
            }
        } else if p1 == q {
            assert(r2[p2] == r[p2 - 1]);
            if p2 - 1 > q {
                lemma_text_less_transitive(x.name, r[q].name, r[p2 - 1].name);
            }
        } else {
            assert(r2[p1] == r[p1 - 1] && r2[p2] == r[p2 - 1]);
        }
    }
    // no skill of r has x's name
    assert forall|p: int| 0 <= p < r.len() implies (#[trigger] r[p]).name != x.name by {
        if p < q {
            lemma_text_less_irreflexive(x.name);
        } else {
            if p > q {
                lemma_text_less_transitive(x.name, r[q].name, r[p].name);
            }
            lemma_text_less_irreflexive(x.name);
        }
    }
    assert forall|j: int| 0 <= j < i + 1 implies has_name(r2, #[trigger] a[j].name) by {
        if j < i {
            let p = choose|p: int| 0 <= p < r.len() && (#[trigger] r[p]).name == a[j].name;
            if p < q {
                assert(r2[p] == r[p]);
            } else {
                assert(r2[p + 1] == r[p]);
            }
        } else {
            assert(r2[q] == x);
        }
    }
    assert(first_with_name(a, i)) by {
        assert forall|k: int| 0 <= k < i implies (#[trigger] a[k]).name != a[i].name by {
            if a[k].name == a[i].name {
                assert(has_name(r, a[k].name));
                let p = choose|p: int| 0 <= p < r.len() && (#[trigger] r[p]).name == a[k].name;
            }
        }
    }
    assert forall|p: int| 0 <= p < r.len() + 1 implies drawn_first(a, i + 1, #[trigger] r2[p]) by {
        if p < q {
            assert(r2[p] == r[p]);
            assert(drawn_first(a, i, r[p]));
            let j = choose|j: int| 0 <= j < i && #[trigger] a[j] == r[p] && first_with_name(a, j);
        } else if p == q {
            assert(r2[p] == a[i]);
        } else {
            assert(r2[p] == r[p - 1]);
            assert(drawn_first(a, i, r[p - 1]));
            let j = choose|j: int| 0 <= j < i && #[trigger] a[j] == r[p - 1] && first_with_name(a, j);
        }
    }
}

/// Sorts `all` by name, keeping only the first skill of each name.
pub fn sorted_unique_skills(all: Vec<Skill>) -> (r: Vec<Skill>)
    ensures
        sorted_first_by_name(skill_views(all@), skill_views(r@)),
{
    let ghost a = skill_views(all@);
    let mut r: Vec<Skill> = Vec::new();
    let mut i: usize = 0;
    while i < all.len()
        invariant
            i <= all@.len(),
            a == skill_views(all@),
            names_sorted(skill_views(r@)),
            forall|j: int| 0 <= j < i ==> has_name(skill_views(r@), #[trigger] a[j].name),
            forall|p: int| 0 <= p < r@.len() ==> drawn_first(a, i as int, #[trigger] skill_views(r@)[p]),
        decreases all@.len() - i,
    {
        let x = &all[i];
        let ghost rv = skill_views(r@);
        let mut q: usize = 0;
        while q < r.len() && str_less(r[q].name.as_str(), x.name.as_str())
            invariant
                q <= r@.len(),
                rv == skill_views(r@),
                forall|p: int| 0 <= p < q ==> text_less((#[trigger] rv[p]).name, x@.name),
            decreases r@.len() - q,
        {
            q += 1;
        }
        if q < r.len() && same_text(r[q].name.as_str(), x.name.as_str()) {
            proof {
                assert forall|j: int| 0 <= j < i + 1 implies has_name(rv, #[trigger] a[j].name) by {
                    if j == i {
                        assert(rv[q as int].name == a[j].name);
                    }
                }
                assert forall|p: int| 0 <= p < rv.len() implies drawn_first(a, i + 1, #[trigger] rv[p]) by {
                    assert(drawn_first(a, i as int, rv[p]));
                    let j = choose|j: int| 0 <= j < i && #[trigger] a[j] == rv[p] && first_with_name(a, j);
                }
            }
        } else {
            proof {
                if q < rv.len() {
                    lemma_text_less_total(rv[q as int].name, x@.name);
                }
                lemma_insert_keeps(a, i as int, rv, q as int, x@);
            }
            let s = x.duplicate();
            r.insert(q, s);
            assert(skill_views(r@) =~= rv.insert(q as int, x@));
        }
        i += 1;
    }
    r
}

/// The skills available in a workspace: the built-in `init` and `review`
/// skills followed by those `found` on disk, sorted by name with only the
/// first skill of each name kept (so a built-in wins over a file of its name).
pub fn collect_skills(found: Vec<Skill>) -> (r: Vec<Skill>)
    ensures
        sorted_first_by_name(seq![init_skill_spec(), review_skill_spec()] + skill_views(found@), skill_views(r@)),
        has_name(skill_views(r@), "init"@),
        has_name(skill_views(r@), "review"@),
{
    let mut all: Vec<Skill> = Vec::new();
    all.push(builtin_init_skill());
    all.push(builtin_review_skill());
    let mut found = found;
    let ghost f = skill_views(found@);
    all.append(&mut found);
    let ghost a = seq![init_skill_spec(), review_skill_spec()] + f;
    assert(skill_views(all@) =~= a);
    let r = sorted_unique_skills(all);
    assert(a[0].name == "init"@);
    assert(a[1].name == "review"@);
    r
}

/// Where skills are looked for: the workspace's `.sabi/skills`, then the
/// user's `~/.sabi/skills` when the home directory is known.
pub open spec fn skill_roots_spec(cwd: Seq<char>, home: Option<Seq<char>>) -> Seq<Seq<char>> {
    match home {
        Some(h) => seq![crate::tools::join_path_spec(cwd, ".sabi/skills"@), crate::tools::join_path_spec(h, ".sabi/skills"@)],
        None => seq![crate::tools::join_path_spec(cwd, ".sabi/skills"@)],
    }
}

pub fn skill_roots(cwd: &str, home: Option<&str>) -> (r: Vec<String>)
    ensures
        views(r@) == skill_roots_spec(cwd@, match home { Some(h) => Some(h@), None => None }),
{
    let mut roots: Vec<String> = Vec::new();
    roots.push(crate::tools::resolve_path(cwd, ".sabi/skills"));
    if let Some(h) = home {
        roots.push(crate::tools::resolve_path(h, ".sabi/skills"));
    }
    assert(views(roots@) =~= skill_roots_spec(cwd@, match home { Some(h) => Some(h@), None => None }));
    roots
}

/// Only the trimmed extra text of an invocation matters: blank extra text
/// gives the plain invocation, and any other extra text appears in the prompt.
pub proof fn invocation_uses_trimmed_extra(s: SkillView, extra: Seq<char>)
    ensures
        format_invocation_spec(s, extra) == format_invocation_spec(s, trim_spec(extra)),
        trim_spec(extra).len() == 0 ==> format_invocation_spec(s, extra) == format_invocation_spec(s, Seq::empty()),
        trim_spec(extra).len() > 0 ==> contains_spec(format_invocation_spec(s, extra), trim_spec(extra)),
{
    lemma_trim_idempotent(extra);
    let e = trim_spec(extra);
    let empty = Seq::<char>::empty();
    assert(trim_start_spec(empty) == empty);
    assert(trim_end_spec(empty) == empty);
    if e.len() > 0 {
        let p = replace_all_spec(invocation_base(s), "$ARGUMENTS"@, e);
        if !contains_spec(p, e) {
            let x = p + "\n\nAdditional user instructions:\n"@ + e;
            lemma_find_spec(x, e);
            assert(x.subrange(x.len() - e.len(), x.len() as int) =~= e);
            assert(matches_at(x, e, x.len() - e.len()));
        }
    }
}

/// An invocation fills every `$ARGUMENTS` of the skill text: the text is cut
/// at each occurrence (pieces that hold none of it, which joined again with
/// `$ARGUMENTS` give the text back) and the pieces are joined with the trimmed
/// extra text. The extra text is appended as further instructions only when
/// it does not appear in the filled text.
pub proof fn invocation_fills_every_placeholder(s: SkillView, extra: Seq<char>)
    ensures
        ({
            let e = trim_spec(extra);
            let pieces = split_spec(invocation_base(s), "$ARGUMENTS"@);
            let filled = join_spec(pieces, e);
            &&& join_spec(pieces, "$ARGUMENTS"@) == invocation_base(s)
            &&& forall|i: int| 0 <= i < pieces.len() ==> !contains_spec(#[trigger] pieces[i], "$ARGUMENTS"@)
            &&& (e.len() == 0 || contains_spec(filled, e)) ==> format_invocation_spec(s, extra) == filled
            &&& (e.len() > 0 && !contains_spec(filled, e)) ==> format_invocation_spec(s, extra)
                == filled + "\n\nAdditional user instructions:\n"@ + e
        }),
{
    reveal_strlit("$ARGUMENTS");
    let e = trim_spec(extra);
    lemma_replace_all_is_split_join(invocation_base(s), "$ARGUMENTS"@, e);
    if e.len() == 0 {
        assert(e =~= Seq::<char>::empty());
    }
}

} // verus!
