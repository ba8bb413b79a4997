use tui_clap::output::CommandOutputState;
use tui_clap::text::split_spaces;

fn collect(lines: &[String]) -> Vec<&str> {
    lines.iter().map(|l| l.as_str()).collect()
}

#[test]
fn wrap_then_window_reconstructs_long_line() {
    let mut out = CommandOutputState::default();
    let stored = "abcdefghijklmnopqrstuvwxy";
    assert_eq!(stored.len(), 25);
    out.append_text(stored);
    let visible = out.visible_lines(10, 3);
    assert_eq!(collect(&visible), vec!["abcdefghij", "klmnopqrst", "uvwxy"]);
    for segment in &visible {
        assert!(segment.len() <= 10);
    }
    let rebuilt: String = visible.iter().map(|s| s.as_str()).collect::<Vec<_>>().join("");
    assert_eq!(rebuilt.as_str(), stored);
}

#[test]
fn wrap_is_stable_for_any_height_at_least_three() {
    let mut out = CommandOutputState::default();
    out.append_text("abcdefghijklmnopqrstuvwxy");
    assert_eq!(out.visible_lines(10, 3), out.visible_lines(10, 5));
    assert_eq!(out.visible_lines(10, 3), out.visible_lines(10, 100));
}

#[test]
fn windowing_keeps_last_lines_in_order() {
    let mut out = CommandOutputState::default();
    for line in ["l1", "l2", "l3", "l4", "l5"] {
        out.append_text(line);
    }
    let visible = out.visible_lines(80, 3);
    assert_eq!(collect(&visible), vec!["l3", "l4", "l5"]);
}

#[test]
fn wrapping_happens_before_windowing() {
    let mut out = CommandOutputState::default();
    out.append_text("short");
    out.append_text("abcdefghijklmnopqrstuvwxy");
    let tall = out.visible_lines(10, 4);
    assert_eq!(collect(&tall), vec!["short", "abcdefghij", "klmnopqrst", "uvwxy"]);
    let low = out.visible_lines(10, 2);
    assert_eq!(collect(&low), vec!["klmnopqrst", "uvwxy"]);
}

#[test]
fn append_text_splits_lines() {
    let mut out = CommandOutputState::default();
    out.append_text("x\ny\r\nz\n");
    assert_eq!(out.len(), 3);
    assert_eq!(out.line_at(0).as_str(), "x");
    assert_eq!(out.line_at(1).as_str(), "y");
    assert_eq!(out.line_at(2).as_str(), "z");
}

#[test]
fn append_text_keeps_lone_carriage_returns() {
    let mut out = CommandOutputState::default();
    out.append_text("a\rb");
    assert_eq!(out.len(), 1);
    assert_eq!(out.line_at(0).as_str(), "a\rb");
    out.append_text("abc\r");
    assert_eq!(out.len(), 2);
    assert_eq!(out.line_at(1).as_str(), "abc\r");
}

#[test]
fn append_text_of_empty_string_appends_nothing() {
    let mut out = CommandOutputState::default();
    out.append_text("");
    assert_eq!(out.len(), 0);
}

#[test]
fn append_text_of_single_newline_appends_one_empty_line() {
    let mut out = CommandOutputState::default();
    out.append_text("\n");
    assert_eq!(out.len(), 1);
    assert_eq!(out.line_at(0).as_str(), "");
}

#[test]
fn empty_stored_line_stays_one_blank_visible_line() {
    let mut out = CommandOutputState::default();
    out.push_line(String::new());
    let visible = out.visible_lines(10, 5);
    assert_eq!(collect(&visible), vec![""]);
}

#[test]
fn zero_height_window_is_empty() {
    let mut out = CommandOutputState::default();
    out.append_text("something");
    let visible = out.visible_lines(10, 0);
    assert!(visible.is_empty());
}

#[test]
fn push_lines_appends_verbatim_in_order() {
    let mut out = CommandOutputState::default();
    let lines = vec![String::from("one"), String::from("two")];
    out.push_lines(&lines);
    assert_eq!(out.len(), 2);
    assert_eq!(out.line_at(0).as_str(), "one");
    assert_eq!(out.line_at(1).as_str(), "two");
}

#[test]
fn exact_multiple_of_width_leaves_no_empty_segment() {
    let mut out = CommandOutputState::default();
    out.append_text("abcdefghijklmnopqrst");
    let visible = out.visible_lines(10, 10);
    assert_eq!(collect(&visible), vec!["abcdefghij", "klmnopqrst"]);
}

#[test]
fn split_spaces_keeps_empty_tokens() {
    let tokens = split_spaces("a b");
    assert_eq!(collect(&tokens), vec!["a", "b"]);
    let tokens = split_spaces("");
    assert_eq!(collect(&tokens), vec![""]);
    let tokens = split_spaces("a  b");
    assert_eq!(collect(&tokens), vec!["a", "", "b"]);
    let tokens = split_spaces("trailing ");
    assert_eq!(collect(&tokens), vec!["trailing", ""]);
}
