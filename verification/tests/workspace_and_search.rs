use sabi_agent::tools::search::{answer_reply, answer_text, build_code_query, exa_api_error, format_citations,
    format_search_results, require_exa_key, search_output, search_request, Citation, SearchHit};
use sabi_agent::workspace::{should_skip_entry, sort_suggestions, walk_dir_path, FileSuggestion, WorkspaceWalk, MAX_FILE_SUGGESTIONS};

#[test]
fn hidden_and_build_entries_are_skipped() {
    for name in [".git", "node_modules", "target", "dist", ".next", ".cache", ".env"] {
        assert!(should_skip_entry(name));
    }
    assert!(!should_skip_entry("src"));
    assert!(!should_skip_entry("a.git"));
}

#[test]
fn the_walk_matches_sorts_and_descends() {
    let mut walk = WorkspaceWalk::new(Some("RS"));
    assert_eq!(walk.next_dir().as_deref(), Some(""));
    assert!(!walk.add_entry("src", true));
    assert!(!walk.add_entry("README.md", false));
    assert!(!walk.add_entry("build.rs", false));
    assert_eq!(walk.next_dir().as_deref(), Some("src"));
    assert!(!walk.add_entry("lib.rs", false));
    assert!(!walk.add_entry("rs_dir", true));
    assert_eq!(walk.next_dir().as_deref(), Some("src/rs_dir"));
    assert_eq!(walk.next_dir(), None);
    let found = walk.finish();
    let paths: Vec<(&str, bool)> = found.iter().map(|s| (s.path.as_str(), s.is_dir)).collect();
    assert_eq!(paths, vec![("src/rs_dir", true), ("build.rs", false), ("src/lib.rs", false)]);
    assert_eq!(walk_dir_path("/w", ""), "/w");
    assert_eq!(walk_dir_path("/w", "src/a"), "/w/src/a");
}

#[test]
fn skipped_entries_are_never_suggested_or_walked() {
    let mut walk = WorkspaceWalk::new(Some(".git"));
    assert_eq!(walk.next_dir().as_deref(), Some(""));
    assert!(!walk.add_entry(".git", true));
    assert!(!walk.add_entry("node_modules", true));
    assert!(!walk.add_entry("a.git", false));
    assert_eq!(walk.next_dir(), None);
    let found = walk.finish();
    let paths: Vec<&str> = found.iter().map(|s| s.path.as_str()).collect();
    assert_eq!(paths, vec!["a.git"]);
}

#[test]
fn without_a_query_every_entry_matches() {
    let mut walk = WorkspaceWalk::new(None);
    walk.next_dir();
    walk.add_entry("x", false);
    walk.add_entry("Y", true);
    assert_eq!(walk.finish().len(), 2);
}

#[test]
fn the_walk_stops_when_full() {
    let mut walk = WorkspaceWalk::new(None);
    walk.next_dir();
    let mut stopped = false;
    for i in 0..MAX_FILE_SUGGESTIONS {
        stopped = walk.add_entry(&format!("f{i}"), false);
    }
    assert!(stopped);
    assert_eq!(walk.next_dir(), None);
    assert_eq!(walk.finish().len(), MAX_FILE_SUGGESTIONS);
}

#[test]
fn suggestions_sort_directories_first_then_by_path() {
    let s = |p: &str, d: bool| FileSuggestion { path: p.to_string(), name: p.to_string(), is_dir: d };
    let sorted = sort_suggestions(&vec![s("b", false), s("z", true), s("a", false), s("c", true)]);
    let paths: Vec<&str> = sorted.iter().map(|x| x.path.as_str()).collect();
    assert_eq!(paths, vec!["c", "z", "a", "b"]);
}

#[test]
fn search_arguments_and_keys() {
    assert_eq!(search_request("{\"query\":\"rust\",\"num_results\":3}", 5).unwrap(), ("rust".to_string(), 3));
    assert_eq!(search_request("{\"query\":\"rust\"}", 10).unwrap(), ("rust".to_string(), 10));
    assert_eq!(search_request("{\"query\":\"rust\",\"num_results\":50}", 5).unwrap(), ("rust".to_string(), 20));
    assert_eq!(search_request("{\"query\":\"rust\",\"num_results\":20}", 10).unwrap(), ("rust".to_string(), 20));
    assert_eq!(search_request("{}", 5).unwrap_err(), "missing query");
    assert_eq!(
        require_exa_key(None).unwrap_err(),
        "EXA_API_KEY not found. Add exa_api_key to ~/.sabi/auth.toml or set it in your environment"
    );
    assert_eq!(require_exa_key(Some("k".to_string())).unwrap(), "k");
    let out = search_output(Err("Exa API error: nope".to_string()));
    assert!(out.is_error);
    assert_eq!(out.content, "Search error: Exa API error: nope");
    assert_eq!(exa_api_error("nope"), "Exa API error: nope");
}

#[test]
fn code_queries_get_code_words_unless_present() {
    assert_eq!(build_code_query("tokio spawn"), "tokio spawn code examples documentation GitHub");
    assert_eq!(build_code_query("reqwest API json"), "reqwest API json");
    assert_eq!(build_code_query("GitHub actions"), "GitHub actions");
}

#[test]
fn search_results_and_citations_format() {
    let hits = vec![
        SearchHit { title: Some("T".to_string()), url: Some("u".to_string()), text: Some("  body text  ".to_string()), highlights: vec![] },
        SearchHit { title: None, url: None, text: None, highlights: vec![Some("h1".to_string()), None, Some("h2".to_string())] },
    ];
    assert_eq!(format_search_results(&hits), "1. T\n   URL: u\n   body text\n\n2. Untitled\n   URL: \n   h1 h2\n");
    assert_eq!(format_search_results(&vec![]), "No results found.");
    let long = "x".repeat(1500);
    let hit = SearchHit { title: None, url: None, text: Some(long), highlights: vec![] };
    assert_eq!(format_search_results(&vec![hit]).matches('x').count(), 1000);
    let c = Some(vec![Citation { url: Some("u".to_string()), title: None }]);
    assert_eq!(format_citations(&c), "Sources:\n1. Untitled (u)");
    assert_eq!(format_citations(&Some(vec![])), "");
    assert_eq!(format_citations(&None), "");
    assert_eq!(answer_text("A", &c), "A\n\nSources:\n1. Untitled (u)");
    assert_eq!(answer_reply(None, &c), None);
    assert_eq!(answer_reply(Some("A".to_string()), &None).as_deref(), Some("A\n\n"));
}
