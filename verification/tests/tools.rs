use sabi_agent::tools::find::{fd_arguments, FindArgs};
use sabi_agent::tools::grep::{rg_arguments, GrepArgs};
use sabi_agent::tools::ls::{listed_dir, LsArgs};
use sabi_agent::tools::read::window_fits;
use sabi_agent::tools::bash::{command_report, timeout_message};
use sabi_agent::tools::edit::{apply_edit, check_edit_request, edited_output, EditError};
use sabi_agent::tools::find::find_result;
use sabi_agent::tools::grep::grep_result;
use sabi_agent::tools::listing::capped_listing;
use sabi_agent::tools::ls::{entry_name, listing};
use sabi_agent::tools::read::read_window;
use sabi_agent::tools::write::written_output;
use sabi_agent::tools::{builtin_tool_specs, failure, resolve_path, success, tool_kind, unknown_tool, ToolKind};
use sabi_agent::events::AgentEvent;

#[test]
fn builtin_tools_are_offered_in_order() {
    let names: Vec<&str> = builtin_tool_specs().iter().map(|t| t.name).collect();
    assert_eq!(names, vec!["read", "write", "edit", "bash", "ls", "grep", "find", "web_search", "exa_search"]);
    for name in names {
        assert!(tool_kind(name).is_some());
    }
}

#[test]
fn tool_kinds_resolve_by_exact_name() {
    assert_eq!(tool_kind("read"), Some(ToolKind::Read));
    assert_eq!(tool_kind("exa_search"), Some(ToolKind::ExaSearch));
    assert_eq!(tool_kind("Read"), None);
    assert_eq!(tool_kind(""), None);
}

#[test]
fn unknown_tool_is_an_error_output() {
    let out = unknown_tool("frobnicate");
    assert_eq!(out.content, "unknown tool: frobnicate");
    assert!(out.is_error);
    assert!(out.events.is_empty());
    assert!(!success("ok".to_string()).is_error);
    assert!(failure("bad".to_string()).is_error);
}

#[test]
fn paths_resolve_against_cwd() {
    assert_eq!(resolve_path("/work", "src/lib.rs"), "/work/src/lib.rs");
    assert_eq!(resolve_path("/work/", "a"), "/work/a");
    assert_eq!(resolve_path("/work", "/etc/hosts"), "/etc/hosts");
    assert_eq!(resolve_path("", "a"), "a");
}

#[test]
fn read_window_numbers_lines_and_notes_truncation() {
    assert_eq!(read_window("a\nb\nc\n", None, None), "1: a\n2: b\n3: c\n");
    assert_eq!(read_window("a\nb\nc", Some(2), Some(1)), "2: b\n\n[truncated: showing lines 2-2 of 3]");
    assert_eq!(read_window("a\nb", Some(5), None), "");
    assert_eq!(read_window("a\r\nb", Some(0), None), "1: a\n2: b\n");
    assert_eq!(read_window("", None, None), "");
}

#[test]
fn edit_replaces_exactly_one_occurrence() {
    assert_eq!(apply_edit("f.rs", "let a = 1;\nlet b = 2;\n", "b = 2", "b = 3").unwrap(), "let a = 1;\nlet b = 3;\n");
}

#[test]
fn edit_errors_carry_their_messages() {
    assert_eq!(check_edit_request("", "x").unwrap_err().message(), "old_text must not be empty");
    assert_eq!(check_edit_request("x", "x").unwrap_err().message(), "old_text and new_text are identical");
    let e = apply_edit("f.rs", "abc", "zzz", "y").unwrap_err();
    assert!(matches!(e, EditError::NotFound { .. }));
    assert_eq!(e.message(), "old_text was not found in f.rs");
    let e = apply_edit("f.rs", "x x x", "x", "y").unwrap_err();
    assert_eq!(e.message(), "old_text appears 3 times in f.rs; make it unique");
}

#[test]
fn edit_then_reverse_edit_restores_content() {
    let source = "fn main() {\n    println!(\"hi\");\n}\n";
    let edited = apply_edit("m.rs", source, "hi", "hello").unwrap();
    let restored = apply_edit("m.rs", &edited, "hello", "hi").unwrap();
    assert_eq!(restored, source);
}

#[test]
fn edited_output_reports_diff_and_change() {
    let out = edited_output("a.txt", "a.txt", "one\n", "two\n");
    assert!(!out.is_error);
    assert_eq!(out.content, "edited a.txt");
    assert_eq!(out.events.len(), 2);
    assert!(matches!(&out.events[0], AgentEvent::DiffReady { path, .. } if path == "a.txt"));
    assert!(matches!(&out.events[1], AgentEvent::FileChanged { path } if path == "a.txt"));
}

#[test]
fn write_reports_diff_only_for_changed_existing_files() {
    let fresh = written_output("n.txt", "n.txt", None, "x");
    assert_eq!(fresh.content, "wrote n.txt");
    assert_eq!(fresh.events.len(), 1);
    let same = written_output("n.txt", "n.txt", Some("x"), "x");
    assert_eq!(same.events.len(), 1);
    let changed = written_output("n.txt", "n.txt", Some("x\n"), "y\n");
    assert_eq!(changed.events.len(), 2);
    assert!(matches!(&changed.events[0], AgentEvent::DiffReady { rendered, .. } if rendered == "-x\n+y\n"));
}

#[test]
fn bash_report_combines_streams_and_status() {
    assert_eq!(command_report("out", "err", "exit status: 0"), "out\nerr\n\n[exit status: exit status: 0]");
    assert_eq!(command_report("", "", "exit status: 1"), "exit status: exit status: 1");
    assert_eq!(command_report("  \n", "", "0"), "exit status: 0");
    assert_eq!(command_report("", "oops", "2"), "oops\n\n[exit status: 2]");
    assert_eq!(timeout_message(30), "command timed out after 30s");
}

#[test]
fn ls_lists_sorted_labels() {
    assert_eq!(entry_name("src", true), "src/");
    assert_eq!(entry_name("a.rs", false), "a.rs");
    assert_eq!(listing("dir", vec![]), "dir is empty");
    assert_eq!(listing(".", vec!["b".to_string(), "a/".to_string(), "C".to_string()]), "C\na/\nb");
}

#[test]
fn capped_listing_truncates_with_a_note() {
    let (text, empty) = capped_listing("a\nb\nc\n", 2, "paths");
    assert_eq!(text, "a\nb\n\n[truncated: showing 2 of 3 paths]");
    assert!(!empty);
    let (text, empty) = capped_listing("", 5, "paths");
    assert_eq!(text, "");
    assert!(empty);
}

#[test]
fn grep_and_find_outcomes() {
    assert_eq!(grep_result(Some(1), false, "", "", None).unwrap(), "no matches found");
    assert_eq!(grep_result(Some(2), false, "", "bad regex", None).unwrap_err(), "rg failed: bad regex");
    assert_eq!(grep_result(Some(0), true, "a:1:x\nb:2:y\n", "", Some(1)).unwrap(), "a:1:x\n\n[truncated: showing 1 of 2 matches]");
    assert_eq!(find_result(false, "", "no fd", None).unwrap_err(), "fd failed: no fd");
    assert_eq!(find_result(true, "", "", None).unwrap(), "no files found");
    assert_eq!(find_result(true, "x.rs\ny.rs\n", "", None).unwrap(), "x.rs\ny.rs");
}

#[test]
fn tool_command_lines_and_defaults() {
    let g = GrepArgs { pattern: "fn main".to_string(), path: None, glob: Some("*.rs".to_string()), limit: None };
    assert_eq!(rg_arguments(&g), vec!["--line-number", "--color=never", "--glob", "*.rs", "fn main", "."]);
    let g = GrepArgs { pattern: "x".to_string(), path: Some("src".to_string()), glob: None, limit: Some(3) };
    assert_eq!(rg_arguments(&g), vec!["--line-number", "--color=never", "x", "src"]);
    assert_eq!(fd_arguments(&FindArgs { pattern: None, path: None, limit: None }), vec![".", "."]);
    assert_eq!(fd_arguments(&FindArgs { pattern: Some("rs$".to_string()), path: Some("src".to_string()), limit: None }), vec!["rs$", "src"]);
    assert_eq!(listed_dir("/w", &LsArgs { path: None }), "/w/.");
    assert_eq!(listed_dir("/w", &LsArgs { path: Some("/etc".to_string()) }), "/etc");
    assert!(window_fits(None, None));
    assert!(!window_fits(Some(2), Some(usize::MAX)));
    assert!(window_fits(Some(1), Some(usize::MAX)));
}
