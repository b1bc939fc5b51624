use sabi_agent::config::{AppConfig, ConfigSources};
use sabi_agent::desktop::{build_system_prompt, inject_system_prompt, session_info_from_summary, DesktopAgent,
    DesktopOptions, DesktopSessionInfo};
use sabi_agent::llm::ModelConfig;
use sabi_agent::messages::Message;
use sabi_agent::session::{is_latest_candidate, new_header, pick_latest, SessionStore, SessionSummary, StoredEntry};
use sabi_agent::skills::collect_skills;
use sabi_agent::system_prompt::PromptDate;

fn info(id: &str) -> DesktopSessionInfo {
    DesktopSessionInfo {
        id: id.to_string(),
        path: format!("/s/{id}.jsonl"),
        cwd: "/w".to_string(),
        message_count: 0,
        created_at: 1,
        modified_at: 2,
    }
}

fn options() -> DesktopOptions {
    DesktopOptions {
        cwd: "/w".to_string(),
        model: ModelConfig {
            model: "test-model".to_string(),
            base_url: "http://localhost/v1".to_string(),
            api_key: "test-key".to_string(),
        },
    }
}

fn store(id: &str) -> SessionStore {
    SessionStore { id: id.to_string(), path: format!("/s/{id}.jsonl") }
}

fn date() -> PromptDate {
    PromptDate { year: 2025, month: 1, day: 2 }
}

#[test]
fn injection_replaces_or_prepends_the_system_prompt() {
    let mut m = vec![Message::user("hi")];
    inject_system_prompt(&mut m, "P1");
    assert_eq!(m.len(), 2);
    assert!(matches!(&m[0], Message::System { content } if content == "P1"));
    inject_system_prompt(&mut m, "P2");
    assert_eq!(m.len(), 2);
    assert!(matches!(&m[0], Message::System { content } if content == "P2"));
    assert!(matches!(&m[1], Message::User { content } if content == "hi"));
}

#[test]
fn start_new_injects_system_prompt_and_reports_state() {
    let skills = collect_skills(vec![]);
    let prompt = build_system_prompt("/w", &skills, date(), None);
    let agent = DesktopAgent::assemble(options(), prompt, skills, vec![], store("a"), info("a"));
    let state = agent.state();
    assert!(matches!(agent.messages().first(), Some(Message::System { .. })));
    assert_eq!(state.session.message_count, 0);
    assert_eq!(state.messages_len, 1);
    assert!(state.skills.iter().any(|skill| skill.name == "init"));
    assert!(state.skills.iter().any(|skill| skill.name == "review"));
}

#[test]
fn session_info_counts_non_system_messages() {
    let mut agent = DesktopAgent::assemble(options(), "P".to_string(), vec![], vec![Message::user("u")], store("a"), info("a"));
    agent.record_message(Message::assistant_with_tool_calls("r".to_string(), vec![]));
    assert_eq!(agent.session_info().message_count, 2);
    assert_eq!(agent.state().messages_len, 3);
    agent.clear_conversation();
    assert_eq!(agent.messages().len(), 1);
    assert_eq!(agent.session_info().message_count, 0);
    assert_eq!(agent.session().id, "a");
}

#[test]
fn reload_previous_session_excludes_current_session() {
    let mut agent = DesktopAgent::assemble(options(), "P".to_string(), vec![], vec![], store("current"), info("current"));
    let header = |id: &str| new_header(id.to_string(), "/w", 0);
    let with_message = |id: &str| Some(vec![StoredEntry::Header(header(id)), StoredEntry::Message(Message::user("m"))]);
    let current_path = agent.session().path.clone();
    let mut candidates = Vec::new();
    for (id, modified) in [("current", 9i128), ("previous", 5)] {
        let path = format!("/s/{id}.jsonl");
        if is_latest_candidate(&path, Some(&current_path), &with_message(id), "/w") {
            candidates.push((path, modified));
        }
    }
    let previous = pick_latest(&candidates).unwrap();
    assert_eq!(previous.id, "previous");
    agent.switch_to_loaded_session(store("previous"), vec![Message::user("previous")], info("previous"));
    assert_eq!(agent.session().id, "previous");
    assert!(agent.messages().iter().any(|message| matches!(message, Message::User { content } if content == "previous")));
    assert!(matches!(&agent.messages()[0], Message::System { content } if content == "P"));
}

#[test]
fn resume_session_loads_requested_session_by_id() {
    let agent = DesktopAgent::assemble(options(), "P".to_string(), vec![], vec![Message::user("specific")], store("id-1"), info("id-1"));
    assert_eq!(agent.session().id, "id-1");
    assert!(agent.messages().iter().any(|message| matches!(message, Message::User { content } if content == "specific")));
}

#[test]
fn new_session_clears_the_conversation() {
    let mut agent = DesktopAgent::assemble(options(), "P".to_string(), vec![], vec![Message::user("x")], store("a"), info("a"));
    agent.switch_to_new_session(store("b"), info("b"));
    assert_eq!(agent.messages().len(), 1);
    assert_eq!(agent.session().id, "b");
    agent.refresh_skills(collect_skills(vec![]), "Q".to_string());
    assert!(matches!(&agent.messages()[0], Message::System { content } if content == "Q"));
    assert_eq!(agent.skill_info().len(), 2);
}

#[test]
fn session_info_comes_from_the_summary() {
    let summary = SessionSummary {
        id: "s".to_string(),
        path: "/s/s.jsonl".to_string(),
        header: new_header("s".to_string(), "/stored", 7),
        message_count: 3,
        modified_at: 9,
    };
    let copy = SessionSummary {
        id: "s".to_string(),
        path: "/s/s.jsonl".to_string(),
        header: new_header("s".to_string(), "/stored", 7),
        message_count: 3,
        modified_at: 9,
    };
    let direct = DesktopSessionInfo::from(copy);
    assert_eq!(direct.cwd, "/stored");
    assert_eq!(direct.id, "s");
    let i = session_info_from_summary(Some(summary), "/s/s.jsonl", "/w").unwrap();
    assert_eq!(i.cwd, "/w");
    assert_eq!(i.message_count, 3);
    assert_eq!(i.created_at, 7);
    assert_eq!(i.modified_at, 9);
    assert_eq!(session_info_from_summary(None, "/s/x.jsonl", "/w").unwrap_err(), "session /s/x.jsonl has no header");
}

#[test]
fn options_come_from_the_configuration() {
    let sources = ConfigSources {
        auth: None,
        user: None,
        project: None,
        env_openai_api_key: Some("k".to_string()),
        env_exa_api_key: None,
        env_model: Some("m".to_string()),
        env_base_url: None,
    };
    let o = DesktopOptions::load("/w".to_string(), &sources).unwrap();
    assert_eq!(o.cwd, "/w");
    assert_eq!(o.model.model, "m");
    assert_eq!(o.model.api_key, "k");
    let c = AppConfig::load_for_cwd("/w".to_string(), &sources).unwrap();
    let o2 = DesktopOptions::from_app_config(c);
    assert_eq!(o2.model.base_url, "https://api.avemujica.moe/v1");
}
