use sabi_agent::cli::{approval_prompt, handle_command, is_affirmative, is_risky_tool, needs_approval, new_session_text,
    preview_tool_output, reload_text, render_event, CommandAction};
use sabi_agent::events::AgentEvent;
use sabi_agent::session::SessionStore;
use sabi_agent::skills::{collect_skills, Skill};
use sabi_agent::slash::SlashCommand;

fn store() -> SessionStore {
    SessionStore { id: "sid".to_string(), path: "/s/sid.jsonl".to_string() }
}

fn printed(actions: &[CommandAction]) -> Vec<String> {
    actions
        .iter()
        .filter_map(|a| match a {
            CommandAction::Print(s) => Some(s.clone()),
            _ => None,
        })
        .collect()
}

#[test]
fn events_render_as_lines() {
    assert_eq!(render_event(&AgentEvent::AssistantText { text: "hi".to_string() }), "\nhi\n");
    assert_eq!(
        render_event(&AgentEvent::ToolStarted { id: "1".to_string(), name: "read".to_string(), args: "{ \"path\": \"a\" }".to_string() }),
        "tool: read {\"path\":\"a\"}"
    );
    assert_eq!(
        render_event(&AgentEvent::ToolFinished { id: "1".to_string(), name: "read".to_string(), output: "bad".to_string(), is_error: true }),
        "tool error: bad"
    );
    assert_eq!(
        render_event(&AgentEvent::ToolFinished { id: "1".to_string(), name: "read".to_string(), output: "ok".to_string(), is_error: false }),
        "tool result:\nok"
    );
    assert_eq!(render_event(&AgentEvent::FileChanged { path: "a".to_string() }), "file changed: a");
    assert_eq!(render_event(&AgentEvent::Error { message: "e".to_string() }), "error: e");
    assert_eq!(
        render_event(&AgentEvent::DiffReady { path: "a".to_string(), patch: "p".to_string(), rendered: "+x\n".to_string() }),
        "diff: a\n+x\n"
    );
}

#[test]
fn long_tool_output_is_previewed() {
    let text: Vec<String> = (1..=85).map(|i| format!("line {i}")).collect();
    let output = text.join("\n");
    let preview = preview_tool_output(&output);
    assert!(preview.starts_with("line 1\nline 2\n"));
    assert!(preview.contains("line 80\n[tool output preview truncated: showing 80 of 85 lines]"));
    assert!(!preview.contains("line 81"));
    assert_eq!(preview_tool_output("a\nb\n"), "a\nb\n");
}

#[test]
fn approvals_follow_risk_and_fiwb_mode() {
    assert!(is_risky_tool("bash"));
    assert!(!is_risky_tool("read"));
    assert!(needs_approval("edit", false));
    assert!(!needs_approval("edit", true));
    assert!(!needs_approval("grep", false));
    assert_eq!(approval_prompt("edit", "{\"path\":\"src/lib.rs\"}"), "approval required: edit path=\"src/lib.rs\"");
    for yes in ["y", "Y", "yes", "YES", " yes\n"] {
        assert!(is_affirmative(yes));
    }
    for no in ["", "n", "Yes", "yep", "no"] {
        assert!(!is_affirmative(no));
    }
}

#[test]
fn fiwb_toggles_and_reports() {
    let mut fiwb = false;
    let a = handle_command(SlashCommand::Fiwb, 0, &store(), &[], &mut fiwb);
    assert!(fiwb);
    assert_eq!(printed(&a), vec!["FIWB mode enabled for this process only. Risky tools will run without approval until restart or /fiwb."]);
    let a = handle_command(SlashCommand::Fiwb, 0, &store(), &[], &mut fiwb);
    assert!(!fiwb);
    assert_eq!(printed(&a), vec!["FIWB mode disabled. Risky tools require approval again."]);
}

#[test]
fn session_command_reports_state() {
    let mut fiwb = true;
    let skills = collect_skills(vec![]);
    let a = handle_command(SlashCommand::Session, 3, &store(), &skills, &mut fiwb);
    assert_eq!(
        printed(&a),
        vec!["messages in memory: 3", "session id: sid", "session file: /s/sid.jsonl", "skills loaded: 2", "fiwb mode: on"]
    );
}

#[test]
fn commands_map_to_actions() {
    let mut fiwb = false;
    assert!(matches!(handle_command(SlashCommand::Quit, 0, &store(), &[], &mut fiwb)[0], CommandAction::Quit));
    let a = handle_command(SlashCommand::Clear, 0, &store(), &[], &mut fiwb);
    assert!(matches!(a[0], CommandAction::ClearConversation));
    assert_eq!(printed(&a), vec!["conversation cleared"]);
    assert!(matches!(handle_command(SlashCommand::New, 0, &store(), &[], &mut fiwb)[0], CommandAction::StartNewSession));
    assert!(matches!(handle_command(SlashCommand::Reload, 0, &store(), &[], &mut fiwb)[0], CommandAction::ReloadPreviousSession));
    let a = handle_command(SlashCommand::Unknown("/x".to_string()), 0, &store(), &[], &mut fiwb);
    assert_eq!(printed(&a), vec!["unknown command: /x"]);
    let a = handle_command(SlashCommand::Help, 0, &store(), &[], &mut fiwb);
    assert_eq!(printed(&a), vec!["commands: /help, /clear, /new, /session, /reload, /fiwb, /yolo, /quit"]);
    assert!(!fiwb);
}

#[test]
fn skill_commands_run_invocable_skills() {
    let mut fiwb = false;
    let hidden = Skill {
        name: "hidden".to_string(),
        description: "h".to_string(),
        file_path: "p".to_string(),
        content: "c".to_string(),
        disable_model_invocation: true,
    };
    let mut skills = collect_skills(vec![]);
    skills.push(hidden);
    let a = handle_command(SlashCommand::Skill { name: "review".to_string(), extra: "tests".to_string() }, 0, &store(), &skills, &mut fiwb);
    assert!(matches!(&a[0], CommandAction::RunPrompt(p) if p.starts_with("Use the following skill instructions.\n\n# Skill: review")));
    let a = handle_command(SlashCommand::Skill { name: "hidden".to_string(), extra: String::new() }, 0, &store(), &skills, &mut fiwb);
    assert_eq!(printed(&a), vec!["skill cannot be invoked directly: hidden"]);
    let a = handle_command(SlashCommand::Skill { name: "nope".to_string(), extra: String::new() }, 0, &store(), &skills, &mut fiwb);
    assert_eq!(printed(&a), vec!["unknown skill: nope"]);
}

#[test]
fn session_switch_lines() {
    assert_eq!(new_session_text("/s/a.jsonl"), "new session: /s/a.jsonl");
    assert_eq!(reload_text(None), "no previous session found");
    assert_eq!(reload_text(Some((4, "/s/b.jsonl"))), "loaded 4 messages from /s/b.jsonl");
}
