use sabi_agent::messages::Message;
use sabi_agent::session::{has_message_entries, is_latest_candidate, is_session_file, is_session_id, load_messages,
    matches_cwd, new_header, new_session_id, pick_latest, select_sessions, session_dir, session_id_of, session_path,
    summarize_session, SessionHeader, SessionStore, SessionSummary, StoredEntry};

fn header(cwd: &str) -> SessionHeader {
    new_header("0190a4c2-6f1e-7c3a-9b2d-1234567890ab".to_string(), cwd, 0)
}

fn summary(id: &str, cwd: &str, count: usize, modified: i128) -> SessionSummary {
    SessionSummary {
        id: id.to_string(),
        path: format!("/s/{id}.jsonl"),
        header: new_header(id.to_string(), cwd, 0),
        message_count: count,
        modified_at: modified,
    }
}

#[test]
fn session_ids_are_uuids() {
    let id = new_session_id();
    assert!(is_session_id(&id));
    assert!(!is_session_id("../etc/passwd"));
    assert!(!is_session_id(""));
}

#[test]
fn session_files_are_grouped_by_workspace_name() {
    assert_eq!(session_dir(Some("/h/.sabi/sessions"), "/code/project").unwrap(), "/h/.sabi/sessions/project");
    assert_eq!(session_dir(Some("/s"), "/").unwrap(), "/s/workspace");
    assert_eq!(session_dir(None, "/code").unwrap_err(), "failed to resolve session directory");
    assert_eq!(session_path("/s/p", "abc"), "/s/p/abc.jsonl");
    assert!(is_session_file("/s/p/abc.jsonl"));
    assert!(!is_session_file("/s/p/abc.json"));
    assert_eq!(session_id_of("/s/p/abc.jsonl"), "abc");
}

#[test]
fn new_headers_name_kind_version_and_cwd() {
    let h = header("/w");
    assert_eq!(h.kind, "sabi-agent-session");
    assert_eq!(h.version, 1);
    assert_eq!(h.cwd, "/w");
}

#[test]
fn stored_entries_load_back_in_order() {
    let entries = vec![
        StoredEntry::Header(header("/w")),
        StoredEntry::Message(Message::user("first")),
        StoredEntry::Message(Message::assistant_with_tool_calls("second".to_string(), vec![])),
    ];
    let loaded = load_messages(&entries).unwrap();
    assert_eq!(loaded.len(), 2);
    assert_eq!(loaded[0].content(), "first");
    assert_eq!(loaded[1].content(), "second");
    assert_eq!(matches_cwd(&entries, "/w"), Ok(true));
    assert_eq!(matches_cwd(&entries, "/other"), Ok(false));
    assert_eq!(has_message_entries(&entries), Ok(true));
}

#[test]
fn an_invalid_line_is_reported_with_its_number() {
    let entries = vec![
        StoredEntry::Header(header("/w")),
        StoredEntry::Message(Message::user("a")),
        StoredEntry::Invalid("expected value at line 1 column 1".to_string()),
    ];
    assert_eq!(load_messages(&entries).unwrap_err(), "invalid JSONL entry on line 3: expected value at line 1 column 1");
    assert_eq!(matches_cwd(&entries, "/w"), Ok(true));
    let broken_first = vec![StoredEntry::Invalid("bad".to_string()), StoredEntry::Header(header("/w"))];
    assert_eq!(matches_cwd(&broken_first, "/w"), Err("bad".to_string()));
    assert!(summarize_session("/s/x.jsonl", &entries, 5).is_err());
}

#[test]
fn summaries_count_messages_under_the_last_header() {
    let entries = vec![StoredEntry::Header(header("/w")), StoredEntry::Message(Message::user("a"))];
    let s = summarize_session("/s/abc.jsonl", &entries, 42).unwrap().unwrap();
    assert_eq!(s.id, "abc");
    assert_eq!(s.message_count, 1);
    assert_eq!(s.modified_at, 42);
    assert_eq!(s.header.cwd, "/w");
    assert!(summarize_session("/s/abc.jsonl", &[StoredEntry::Message(Message::user("a"))], 1).unwrap().is_none());
}

#[test]
fn listed_sessions_are_non_empty_of_the_cwd_newest_first() {
    let found = vec![
        Ok(Some(summary("old", "/w", 1, 10))),
        Ok(Some(summary("empty", "/w", 0, 50))),
        Ok(Some(summary("other", "/x", 3, 60))),
        Err("unreadable".to_string()),
        Ok(None),
        Ok(Some(summary("new", "/w", 2, 30))),
    ];
    let listed = select_sessions(&found, "/w");
    let ids: Vec<&str> = listed.iter().map(|s| s.id.as_str()).collect();
    assert_eq!(ids, vec!["new", "old"]);
}

#[test]
fn the_latest_candidate_wins_and_ties_keep_the_first() {
    let c = vec![("/s/a.jsonl".to_string(), 5i128), ("/s/b.jsonl".to_string(), 9), ("/s/c.jsonl".to_string(), 9)];
    let latest = pick_latest(&c).unwrap();
    assert_eq!(latest.id, "b");
    assert_eq!(latest.path, "/s/b.jsonl");
    assert!(pick_latest(&vec![]).is_none());
}

#[test]
fn latest_candidates_exclude_the_current_and_empty_sessions() {
    let with_message = Some(vec![StoredEntry::Header(header("/w")), StoredEntry::Message(Message::user("m"))]);
    let header_only = Some(vec![StoredEntry::Header(header("/w"))]);
    assert!(is_latest_candidate("/s/a.jsonl", None, &with_message, "/w"));
    assert!(!is_latest_candidate("/s/a.jsonl", Some("/s/a.jsonl"), &with_message, "/w"));
    assert!(!is_latest_candidate("/s/a.jsonl", None, &header_only, "/w"));
    assert!(!is_latest_candidate("/s/a.jsonl", None, &with_message, "/elsewhere"));
    assert!(!is_latest_candidate("/s/a.txt", None, &with_message, "/w"));
    assert!(!is_latest_candidate("/s/a.jsonl", None, &None, "/w"));
}

#[test]
fn sessions_open_only_for_valid_ids_of_the_cwd() {
    let id = new_session_id();
    let entries = Some(vec![StoredEntry::Header(new_header(id.clone(), "/w", 1))]);
    let opened = SessionStore::open_checked(&id, format!("/s/{id}.jsonl"), true, &entries, "/w").unwrap();
    assert_eq!(opened.id, id);
    assert!(SessionStore::open_checked(&id, "p".to_string(), false, &entries, "/w").is_none());
    assert!(SessionStore::open_checked("not-a-uuid", "p".to_string(), true, &entries, "/w").is_none());
    assert!(SessionStore::open_checked(&id, "p".to_string(), true, &entries, "/x").is_none());
}

#[test]
fn list_sessions_returns_non_empty_sessions_newest_first() {
    let found = vec![
        Ok(Some(summary("empty", "/w", 0, 1))),
        Ok(Some(summary("first", "/w", 1, 2))),
        Ok(Some(summary("second", "/w", 1, 3))),
    ];
    let sessions = select_sessions(&found, "/w");
    assert_eq!(sessions.len(), 2);
    assert_eq!(sessions[0].id, "second");
    assert_eq!(sessions[1].id, "first");
    assert!(sessions.iter().all(|session| session.id != "empty"));
    assert_eq!(sessions[0].message_count, 1);
}
