use sabi_agent::agent::{first_line, AgentState, AgentTurn, TurnAction, TurnInput, TurnPhase, MAX_TOOL_ROUNDS};
use sabi_agent::events::AgentEvent;
use sabi_agent::messages::{Message, ToolCall};
use sabi_agent::tools::success;

fn call(id: &str, name: &str, args: &str) -> ToolCall {
    ToolCall { id: id.to_string(), name: name.to_string(), arguments: args.to_string() }
}

#[test]
fn first_line_of_text() {
    assert_eq!(first_line("one\ntwo"), "one");
    assert_eq!(first_line("only"), "only");
    assert_eq!(first_line(""), "");
    assert_eq!(AgentState::default().messages_len, 0);
}

#[test]
fn a_reply_without_tool_calls_finishes_the_turn() {
    let (mut turn, actions) = AgentTurn::start("hi");
    assert!(matches!(&actions[0], TurnAction::Record(Message::User { content }) if content == "hi"));
    assert!(matches!(actions[1], TurnAction::CallModel));
    let actions = turn.step(TurnInput::ModelReply(Message::assistant_with_tool_calls("hello".to_string(), vec![])));
    assert_eq!(actions.len(), 3);
    assert!(matches!(&actions[0], TurnAction::Emit(AgentEvent::AssistantText { text }) if text == "hello"));
    assert!(matches!(&actions[1], TurnAction::Record(Message::Assistant { .. })));
    assert!(matches!(&actions[2], TurnAction::Finish(t) if t == "hello"));
    assert_eq!(turn.phase, TurnPhase::Done);
}

#[test]
fn a_tool_call_is_approved_run_and_recorded() {
    let (mut turn, _) = AgentTurn::start("list");
    let reply = Message::assistant_with_tool_calls(String::new(), vec![call("c1", "ls", "{}")]);
    let actions = turn.step(TurnInput::ModelReply(reply));
    assert!(matches!(&actions[0], TurnAction::Record(_)));
    assert!(matches!(&actions[1], TurnAction::Emit(AgentEvent::ToolStarted { name, .. }) if name == "ls"));
    assert!(matches!(&actions[2], TurnAction::AskApproval { name, .. } if name == "ls"));
    let actions = turn.step(TurnInput::Approval(true));
    assert!(matches!(&actions[0], TurnAction::RunTool { name, args } if name == "ls" && args == "{}"));
    let actions = turn.step(TurnInput::ToolResult(success("a\nb".to_string())));
    assert!(matches!(&actions[0], TurnAction::Emit(AgentEvent::ToolFinished { output, is_error: false, .. }) if output == "a\nb"));
    assert!(matches!(&actions[1], TurnAction::Record(Message::ToolResult { tool_call_id, .. }) if tool_call_id == "c1"));
    assert!(matches!(actions[2], TurnAction::CallModel));
    assert_eq!(turn.rounds, 2);
}

#[test]
fn a_denied_tool_call_records_the_denial() {
    let (mut turn, _) = AgentTurn::start("rm");
    turn.step(TurnInput::ModelReply(Message::assistant_with_tool_calls(String::new(), vec![call("c1", "bash", "{\"command\":\"rm -rf x\"}")])));
    let actions = turn.step(TurnInput::Approval(false));
    assert!(actions.iter().all(|a| !matches!(a, TurnAction::RunTool { .. })));
    assert!(actions.iter().any(|a| matches!(a, TurnAction::Record(Message::ToolResult { content, .. }) if content == "tool execution denied by user: bash")));
}

#[test]
fn invalid_tool_arguments_fail_the_turn() {
    let (mut turn, _) = AgentTurn::start("x");
    let actions = turn.step(TurnInput::ModelReply(Message::assistant_with_tool_calls(String::new(), vec![call("c1", "read", "{not json")])));
    assert!(matches!(actions.last(), Some(TurnAction::Fail(m)) if m == "invalid JSON arguments for read"));
}

#[test]
fn the_turn_stops_after_the_round_limit() {
    let (mut turn, _) = AgentTurn::start("loop");
    let mut last = Vec::new();
    for i in 0..MAX_TOOL_ROUNDS {
        let id = format!("c{i}");
        turn.step(TurnInput::ModelReply(Message::assistant_with_tool_calls(String::new(), vec![call(&id, "ls", "{}")])));
        turn.step(TurnInput::Approval(true));
        last = turn.step(TurnInput::ToolResult(success(String::new())));
    }
    assert!(matches!(last.last(), Some(TurnAction::Fail(m)) if m == "agent stopped after 8 tool rounds to avoid an infinite loop"));
    assert_eq!(turn.rounds, MAX_TOOL_ROUNDS);
}
