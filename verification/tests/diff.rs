use sabi_agent::diff::{render_terminal_diff, unified_patch};

#[test]
fn unified_patch_contains_header_and_changes() {
    let old = "line one\nline two\n";
    let new = "line one\nline two modified\n";
    let patch = unified_patch("file.txt", old, new);
    assert!(patch.contains("--- a/file.txt"));
    assert!(patch.contains("+++ b/file.txt"));
    assert!(patch.contains("-line two\n"));
    assert!(patch.contains("+line two modified\n"));
}

#[test]
fn render_terminal_diff_shows_plus_and_minus() {
    let old = "keep\nremove\n";
    let new = "keep\nadd\n";
    let rendered = render_terminal_diff(old, new);
    assert!(rendered.contains("-remove\n"));
    assert!(rendered.contains("+add\n"));
    assert!(rendered.contains(" keep\n"));
}

#[test]
fn render_terminal_diff_empty_when_identical() {
    let text = "same\nlines\n";
    let rendered = render_terminal_diff(text, text);
    assert!(rendered.contains(" same\n"));
    assert!(rendered.contains(" lines\n"));
    assert!(!rendered.contains('+'));
    assert!(!rendered.contains('-'));
}

#[test]
fn identical_texts_render_every_line_unchanged() {
    assert_eq!(render_terminal_diff("a\nb\n", "a\nb\n"), " a\n b\n");
    assert!(unified_patch("f", "x\n", "y\n").starts_with("--- a/f\n+++ b/f\n"));
}
