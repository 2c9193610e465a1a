//! The config-file mutation protocol on concrete file contents.

use lmtt::inject::{inject_content, marker_end_str, marker_start_str, remove_content};

const LINE: &str = "@import url('../matugen/lmtt-colors.css');";

#[test]
fn inject_prepends_marked_block() {
    let original = "window {\n  color: red;\n}\n";
    let injected = inject_content(original, LINE);
    let expected = format!(
        "{}\n{}\n{}\n\n{}",
        marker_start_str(),
        LINE,
        marker_end_str(),
        original
    );
    assert_eq!(injected, expected);
}

#[test]
fn inject_is_idempotent_on_content() {
    let original = "window {\n  color: red;\n}\n";
    let once = inject_content(original, LINE);
    let twice = inject_content(&once, LINE);
    assert_eq!(once, twice);
}

#[test]
fn inject_leaves_content_with_line_alone() {
    let original = format!("{}\nwindow {{}}\n", LINE);
    let injected = inject_content(&original, LINE);
    assert_eq!(injected, original);
}

#[test]
fn remove_undoes_inject() {
    let original = "window {\n  color: red;\n}\n";
    let injected = inject_content(original, LINE);
    let removed = remove_content(&injected, LINE);
    assert_eq!(removed, original);
}

#[test]
fn remove_undoes_inject_on_empty_file() {
    let injected = inject_content("", LINE);
    let removed = remove_content(&injected, LINE);
    assert_eq!(removed, "");
}

#[test]
fn remove_undoes_inject_on_indented_content() {
    // Only the blank lines the removal itself leaves are trimmed; content
    // that begins with indentation comes back byte-identical.
    let original = "  indented first line\nrest\n";
    let injected = inject_content(original, LINE);
    let removed = remove_content(&injected, LINE);
    assert_eq!(removed, original);
}

#[test]
fn remove_falls_back_to_bare_line() {
    let content = format!("a\n{}\nb\n", LINE);
    let removed = remove_content(&content, LINE);
    assert_eq!(removed, "a\nb\n");
}

#[test]
fn remove_fallback_takes_a_single_line() {
    // Two hand-pasted copies: removal is of just the one line, so the
    // second copy stays.
    let content = format!("{}\nmiddle\n{}\nend\n", LINE, LINE);
    let removed = remove_content(&content, LINE);
    assert_eq!(removed, format!("middle\n{}\nend\n", LINE));
}

#[test]
fn remove_without_line_or_markers_is_a_no_op() {
    let content = "plain file\n";
    let removed = remove_content(content, LINE);
    assert_eq!(removed, content);
}

#[test]
fn remove_trims_blank_lines_left_by_the_block() {
    let content = format!(
        "{}\n{}\n{}\n\n\nrest\n",
        marker_start_str(),
        LINE,
        marker_end_str()
    );
    let removed = remove_content(&content, LINE);
    assert_eq!(removed, "rest\n");
}

#[test]
fn remove_keeps_line_without_trailing_newline() {
    // The fallback removes `line + newline`; a line at the very end of the
    // file has no trailing newline and stays.
    let content = format!("a\n{}", LINE);
    let removed = remove_content(&content, LINE);
    assert_eq!(removed, content);
}
