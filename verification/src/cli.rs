//! The interactive terminal: what is printed for each agent event, what a
//! slash command does, and when a risky tool asks for approval.

use vstd::prelude::*;
use crate::approval::{approval_required_spec, approval_summary, approval_summary_spec, risk_level_spec, tool_requires_approval};
use crate::events::{AgentEvent, EventView};
use crate::json::{json_compact, json_compact_text, json_parses};
use crate::session::SessionStore;
use crate::skills::{format_invocation, format_invocation_spec, skill_views, Skill, SkillView};
use crate::slash::{SlashCommand, SlashView};
use crate::text::{copy_str, decimal, decimal_spec, join, join_spec, lines, lines_spec, same_text, trim, trim_spec, views};

verus! {

/// The most lines of a tool's output shown at once.
pub const MAX_PREVIEW_LINES: usize = 80;

/// What is shown of a tool's output: all of it up to the line limit, else the
/// first lines and a note.
pub open spec fn preview_spec(output: Seq<char>) -> Seq<char> {
    let ls = lines_spec(output);
    if ls.len() <= MAX_PREVIEW_LINES {
        output
    } else {
        join_spec(ls.take(MAX_PREVIEW_LINES as int), "\n"@) + "\n[tool output preview truncated: showing "@
            + decimal_spec(MAX_PREVIEW_LINES as nat) + " of "@ + decimal_spec(ls.len()) + " lines]"@
    }
}

pub fn preview_tool_output(output: &str) -> (r: String)
    ensures
        r@ == preview_spec(output@),
{
    let ls = lines(output);
    if ls.len() <= MAX_PREVIEW_LINES {
        return copy_str(output);
    }
    let mut preview = join(&ls.as_slice()[0..MAX_PREVIEW_LINES], "\n");
    proof {
        assert(views(ls@.subrange(0, MAX_PREVIEW_LINES as int)) =~= views(ls@).take(MAX_PREVIEW_LINES as int));
    }
    preview.push_str("\n[tool output preview truncated: showing ");
    preview.push_str(decimal(MAX_PREVIEW_LINES as u64).as_str());
    preview.push_str(" of ");
    preview.push_str(decimal(ls.len() as u64).as_str());
    preview.push_str(" lines]");
    preview
}

/// The JSON arguments as printed: compact when they parse.
pub open spec fn args_shown(args: Seq<char>) -> Seq<char> {
    if json_parses(args) { json_compact(args) } else { args }
}

/// What the terminal prints for an event.
pub open spec fn render_spec(e: EventView) -> Seq<char> {
    match e {
        EventView::AssistantText { text } => "\n"@ + text + "\n"@,
        EventView::ToolStarted { name, args, .. } => "tool: "@ + name + " "@ + args_shown(args),
        EventView::ToolFinished { output, is_error, .. } => if is_error {
            "tool error: "@ + output
        } else {
            "tool result:\n"@ + preview_spec(output)
        },
        EventView::DiffReady { path, rendered, .. } => "diff: "@ + path + "\n"@ + rendered,
        EventView::FileChanged { path } => "file changed: "@ + path,
        EventView::Error { message } => "error: "@ + message,
    }
}

fn labelled(label: &str, text: &str) -> (r: String)
    ensures
        r@ == label@ + text@,
{
    let mut r = copy_str(label);
    r.push_str(text);
    r
}

/// The text printed (as one `println!`) for an event.
pub fn render_event(event: &AgentEvent) -> (r: String)
    ensures
        r@ == render_spec(event@),
{
    match event {
        AgentEvent::AssistantText { text } => {
            let mut r = labelled("\n", text.as_str());
            r.push_str("\n");
            r
        },
        AgentEvent::ToolStarted { name, args, .. } => {
            let mut r = labelled("tool: ", name.as_str());
            r.push_str(" ");
            match json_compact_text(args.as_str()) {
                Some(c) => r.push_str(c.as_str()),
                None => r.push_str(args.as_str()),
            }
            r
        },
        AgentEvent::ToolFinished { output, is_error, .. } => {
            if *is_error {
                labelled("tool error: ", output.as_str())
            } else {
                labelled("tool result:\n", preview_tool_output(output.as_str()).as_str())
            }
        },
        AgentEvent::DiffReady { path, rendered, .. } => {
            let mut r = labelled("diff: ", path.as_str());
            r.push_str("\n");
            r.push_str(rendered.as_str());
            r
        },
        AgentEvent::FileChanged { path } => labelled("file changed: ", path.as_str()),
        AgentEvent::Error { message } => labelled("error: ", message.as_str()),
    }
}

/// The tools that need the user's approval: the file-mutating ones and the
/// shell.
pub fn is_risky_tool(name: &str) -> (b: bool)
    ensures
        b <==> (name@ == "write"@ || name@ == "edit"@ || name@ == "bash"@),
{
    tool_requires_approval(name)
}

/// Whether a call must ask the user: a risky tool outside FIWB mode.
pub fn needs_approval(name: &str, fiwb_mode: bool) -> (b: bool)
    ensures
        b <==> (approval_required_spec(risk_level_spec(name@)) && !fiwb_mode),
{
    tool_requires_approval(name) && !fiwb_mode
}

/// The line asking for approval.
pub fn approval_prompt(name: &str, args: &str) -> (r: String)
    ensures
        r@ == "approval required: "@ + name@ + " "@ + approval_summary_spec(name@, args@),
{
    let mut r = labelled("approval required: ", name);
    r.push_str(" ");
    r.push_str(approval_summary(name, args).as_str());
    r
}

/// Only `y`, `Y`, `yes` or `YES` (around whitespace) approves.
pub fn is_affirmative(answer: &str) -> (b: bool)
    ensures
        b <==> (trim_spec(answer@) == "y"@ || trim_spec(answer@) == "Y"@ || trim_spec(answer@) == "yes"@
            || trim_spec(answer@) == "YES"@),
{
    let t = trim(answer);
    same_text(t.as_str(), "y") || same_text(t.as_str(), "Y") || same_text(t.as_str(), "yes")
        || same_text(t.as_str(), "YES")
}

/// What the terminal does for a slash command, in order.
#[derive(Debug)]
pub enum CommandAction {
    /// Print this line.
    Print(String),
    /// Leave the interactive loop.
    Quit,
    /// Clear the conversation in memory and put the system prompt back.
    ClearConversation,
    /// Clear the conversation and continue in a new session file.
    StartNewSession,
    /// Load the latest previous session of this directory and rediscover skills.
    ReloadPreviousSession,
    /// Run an agent turn with this prompt.
    RunPrompt(String),
}

pub enum ActionView {
    Print(Seq<char>),
    Quit,
    ClearConversation,
    StartNewSession,
    ReloadPreviousSession,
    RunPrompt(Seq<char>),
}

impl View for CommandAction {
    type V = ActionView;

    open spec fn view(&self) -> ActionView {
        match self {
            CommandAction::Print(s) => ActionView::Print(s@),
            CommandAction::Quit => ActionView::Quit,
            CommandAction::ClearConversation => ActionView::ClearConversation,
            CommandAction::StartNewSession => ActionView::StartNewSession,
            CommandAction::ReloadPreviousSession => ActionView::ReloadPreviousSession,
            CommandAction::RunPrompt(s) => ActionView::RunPrompt(s@),
        }
    }
}

pub open spec fn action_views(a: Seq<CommandAction>) -> Seq<ActionView> {
    a.map_values(|x: CommandAction| x@)
}

pub open spec fn help_text() -> Seq<char> {
    "commands: /help, /clear, /new, /session, /reload, /fiwb, /yolo, /quit"@
}

pub open spec fn fiwb_on_text() -> Seq<char> {
    "FIWB mode enabled for this process only. Risky tools will run without approval until restart or /fiwb."@
}

pub open spec fn fiwb_off_text() -> Seq<char> {
    "FIWB mode disabled. Risky tools require approval again."@
}

/// The index of the first skill named `name`, if any.
pub open spec fn skill_named(skills: Seq<SkillView>, name: Seq<char>) -> Option<int> {
    if exists|k: int| 0 <= k < skills.len() && (#[trigger] skills[k]).name == name {
        Some(choose|k: int| 0 <= k < skills.len() && (#[trigger] skills[k]).name == name
            && forall|j: int| 0 <= j < k ==> (#[trigger] skills[j]).name != name)
    } else {
        None
    }
}

/// What a `/skill:name extra` line does with the loaded `skills`.
pub open spec fn skill_actions(skills: Seq<SkillView>, name: Seq<char>, extra: Seq<char>) -> Seq<ActionView> {
    match skill_named(skills, name) {
        None => seq![ActionView::Print("unknown skill: "@ + name)],
        Some(k) => if skills[k].disable_model_invocation {
            seq![ActionView::Print("skill cannot be invoked directly: "@ + name)]
        } else {
            seq![ActionView::RunPrompt(format_invocation_spec(skills[k], extra))]
        },
    }
}

/// The lines of `/session`.
pub open spec fn session_lines(messages_len: nat, id: Seq<char>, path: Seq<char>, skills_len: nat, fiwb: bool) -> Seq<ActionView> {
    seq![
        ActionView::Print("messages in memory: "@ + decimal_spec(messages_len)),
        ActionView::Print("session id: "@ + id),
        ActionView::Print("session file: "@ + path),
        ActionView::Print("skills loaded: "@ + decimal_spec(skills_len)),
        ActionView::Print("fiwb mode: "@ + if fiwb { "on"@ } else { "off"@ }),
    ]
}

/// What a slash command does, and the FIWB mode after it.
pub open spec fn command_spec(
    c: SlashView,
    messages_len: nat,
    id: Seq<char>,
    path: Seq<char>,
    skills: Seq<SkillView>,
    fiwb: bool,
) -> (Seq<ActionView>, bool) {
    match c {
        SlashView::Help => (seq![ActionView::Print(help_text())], fiwb),
        SlashView::Quit => (seq![ActionView::Quit], fiwb),
        SlashView::Clear => (seq![ActionView::ClearConversation, ActionView::Print("conversation cleared"@)], fiwb),
        SlashView::New => (seq![ActionView::StartNewSession], fiwb),
        SlashView::Session => (session_lines(messages_len, id, path, skills.len(), fiwb), fiwb),
        SlashView::Reload => (seq![ActionView::ReloadPreviousSession], fiwb),
        SlashView::Fiwb => (seq![ActionView::Print(if !fiwb { fiwb_on_text() } else { fiwb_off_text() })], !fiwb),
        SlashView::Skill { name, extra } => (skill_actions(skills, name, extra), fiwb),
        SlashView::Unknown(s) => (seq![ActionView::Print("unknown command: "@ + s)], fiwb),
    }
}

fn print_line(label: &str, text: &str) -> (a: CommandAction)
    ensures
        a@ == ActionView::Print(label@ + text@),
{
    CommandAction::Print(labelled(label, text))
}

proof fn lemma_first_skill(skills: Seq<SkillView>, name: Seq<char>, k: int)
    requires
        0 <= k < skills.len(),
        skills[k].name == name,
        forall|j: int| 0 <= j < k ==> (#[trigger] skills[j]).name != name,
    ensures
        skill_named(skills, name) == Some(k),
{
    let c = choose|c: int| 0 <= c < skills.len() && (#[trigger] skills[c]).name == name
        && forall|j: int| 0 <= j < c ==> (#[trigger] skills[j]).name != name;
    assert(0 <= c < skills.len() && skills[c].name == name && forall|j: int| 0 <= j < c ==> (#[trigger] skills[j]).name != name);
    if c < k {
        assert(skills[c].name != name);
    }
    if k < c {
        assert(skills[k].name != name);
    }
}

fn skill_command_actions(skills: &[Skill], name: &str, extra: &str) -> (r: Vec<CommandAction>)
    ensures
        action_views(r@) == skill_actions(skill_views(skills@), name@, extra@),
{
    let ghost sv = skill_views(skills@);
    let mut k: usize = 0;
    while k < skills.len() && !same_text(skills[k].name.as_str(), name)
        invariant
            k <= skills@.len(),
            sv == skill_views(skills@),
            forall|j: int| 0 <= j < k ==> (#[trigger] sv[j]).name != name@,
        decreases skills@.len() - k,
    {
        k += 1;
    }
    let mut r: Vec<CommandAction> = Vec::new();
    if k == skills.len() {
        assert(skill_named(sv, name@) is None);
        r.push(print_line("unknown skill: ", name));
    } else {
        proof {
            lemma_first_skill(sv, name@, k as int);
        }
        if skills[k].disable_model_invocation {
            r.push(print_line("skill cannot be invoked directly: ", name));
        } else {
            r.push(CommandAction::RunPrompt(format_invocation(&skills[k], extra)));
        }
    }
    assert(action_views(r@) =~= skill_actions(sv, name@, extra@));
    r
}

/// Carries out the in-memory part of a slash command and says what the
/// terminal does next; `fiwb_mode` is the approval bypass of this process.
pub fn handle_command(
    command: SlashCommand,
    messages_len: usize,
    session: &SessionStore,
    skills: &[Skill],
    fiwb_mode: &mut bool,
) -> (r: Vec<CommandAction>)
    ensures
        (action_views(r@), *final(fiwb_mode)) == command_spec(command@, messages_len as nat, session.id@,
            session.path@, skill_views(skills@), *old(fiwb_mode)),
{
    let mut r: Vec<CommandAction> = Vec::new();
    match command {
        SlashCommand::Help => {
            r.push(CommandAction::Print(copy_str("commands: /help, /clear, /new, /session, /reload, /fiwb, /yolo, /quit")));
        },
        SlashCommand::Quit => {
            r.push(CommandAction::Quit);
        },
        SlashCommand::Clear => {
            r.push(CommandAction::ClearConversation);
            r.push(CommandAction::Print(copy_str("conversation cleared")));
        },
        SlashCommand::New => {
            r.push(CommandAction::StartNewSession);
        },
        SlashCommand::Session => {
            r.push(print_line("messages in memory: ", decimal(messages_len as u64).as_str()));
            r.push(print_line("session id: ", session.id.as_str()));
            r.push(print_line("session file: ", session.path.as_str()));
            r.push(print_line("skills loaded: ", decimal(skills.len() as u64).as_str()));
            r.push(print_line("fiwb mode: ", if *fiwb_mode { "on" } else { "off" }));
        },
        SlashCommand::Reload => {
            r.push(CommandAction::ReloadPreviousSession);
        },
        SlashCommand::Fiwb => {
            *fiwb_mode = !*fiwb_mode;
            if *fiwb_mode {
                r.push(CommandAction::Print(copy_str("FIWB mode enabled for this process only. Risky tools will run without approval until restart or /fiwb.")));
            } else {
                r.push(CommandAction::Print(copy_str("FIWB mode disabled. Risky tools require approval again.")));
            }
        },
        SlashCommand::Skill { name, extra } => {
            r = skill_command_actions(skills, name.as_str(), extra.as_str());
        },
        SlashCommand::Unknown(text) => {
            r.push(print_line("unknown command: ", text.as_str()));
        },
    }
    assert(action_views(r@) =~= command_spec(command@, messages_len as nat, session.id@, session.path@,
        skill_views(skills@), *old(fiwb_mode)).0);
    r
}

pub open spec fn new_session_line(path: Seq<char>) -> Seq<char> {
    "new session: "@ + path
}

/// The line printed once a new session file is created.
pub fn new_session_text(path: &str) -> (r: String)
    ensures
        r@ == new_session_line(path@),
{
    labelled("new session: ", path)
}

pub open spec fn reload_line(loaded: Option<(nat, Seq<char>)>) -> Seq<char> {
    match loaded {
        None => "no previous session found"@,
        Some((count, path)) => "loaded "@ + decimal_spec(count) + " messages from "@ + path,
    }
}

/// The line printed after `/reload`: how many messages came from which file,
/// or that there was no previous session.
pub fn reload_text(loaded: Option<(usize, &str)>) -> (r: String)
    ensures
        r@ == reload_line(match loaded { Some((n, p)) => Some((n as nat, p@)), None => None }),
{
    match loaded {
        None => copy_str("no previous session found"),
        Some((count, path)) => {
            let mut r = labelled("loaded ", decimal(count as u64).as_str());
            r.push_str(" messages from ");
            r.push_str(path);
            r
        },
    }
}

/// Toggling FIWB mode twice leaves it as it was, and each toggle says which
/// way it went.
pub proof fn fiwb_toggles(messages_len: nat, id: Seq<char>, path: Seq<char>, skills: Seq<SkillView>, fiwb: bool)
    ensures
        ({
            let (a1, f1) = command_spec(SlashView::Fiwb, messages_len, id, path, skills, fiwb);
            let (a2, f2) = command_spec(SlashView::Fiwb, messages_len, id, path, skills, f1);
            &&& f1 == !fiwb
            &&& f2 == fiwb
            &&& a1 == seq![ActionView::Print(if f1 { fiwb_on_text() } else { fiwb_off_text() })]
        }),
{
}

/// Commands other than `/fiwb` leave the FIWB mode alone.
pub proof fn only_fiwb_changes_mode(c: SlashView, messages_len: nat, id: Seq<char>, path: Seq<char>, skills: Seq<SkillView>, fiwb: bool)
    requires
        !(c is Fiwb),
    ensures
        command_spec(c, messages_len, id, path, skills, fiwb).1 == fiwb,
{
}

} // verus!
