use ax::tui::tokens::{
    done_line_total, extract_done_line_total, parse_agent_tokens, read_marks,
};

#[test]
fn parse_agent_tokens_extracts_directional_counts_and_cost() {
    let capture = "some unrelated line\n⏺ agent status: ↑ 12.3k tokens ↓ 45.6k tokens · $1.23\nnext line\n";
    let t = parse_agent_tokens("alpha", capture);
    assert_eq!(t.up, "12.3k");
    assert_eq!(t.down, "45.6k");
    assert_eq!(t.cost, "$1.23");
    assert_eq!(t.total, "");
}

#[test]
fn parse_agent_tokens_falls_back_to_done_line_total() {
    let capture = "⏺ Done (16 tool uses · 93.9k tokens · 59s)\n";
    let t = parse_agent_tokens("alpha", capture);
    assert_eq!(t.up, "");
    assert_eq!(t.down, "");
    assert_eq!(t.total, "93.9k");
}

#[test]
fn parse_agent_tokens_empty_when_capture_has_no_markers() {
    let t = parse_agent_tokens("alpha", "nothing tokeny here\n");
    assert!(t.is_empty());
}

#[test]
fn extract_done_line_total_picks_last_tokens_number() {
    let line = "⏺ Done (16 tool uses · 93.9k tokens · 59s)";
    assert_eq!(extract_done_line_total(line), Some("93.9k".into()));
    assert_eq!(extract_done_line_total("no done marker"), None);
}

#[test]
fn the_last_count_of_a_done_line_is_its_total() {
    let counts = vec!["1k".to_owned(), "2k".to_owned()];
    assert_eq!(done_line_total(true, &counts).as_deref(), Some("2k"));
    assert_eq!(done_line_total(false, &counts), None);
    assert_eq!(done_line_total(true, &vec![]), None);
}

#[test]
fn a_line_without_marks_has_none() {
    let marks = read_marks("plain text");
    assert!(marks.up.is_none());
    assert!(marks.down.is_none());
    let marks = read_marks("↑ 3 tokens");
    assert_eq!(marks.up.as_deref(), Some("3"));
    assert!(marks.down.is_none());
}
