use ax::proto::types::HistoryEntry;
use ax::time::Timestamp;
use ax::tui::stream::{history_lines, history_parse_error, keep_newest, tab_index, StreamView};

fn entry(secs: i64, content: &str) -> HistoryEntry {
    HistoryEntry {
        timestamp: Timestamp::new(secs, 0).unwrap(),
        from: "a".into(),
        to: "b".into(),
        content: content.into(),
        task_id: String::new(),
    }
}

#[test]
fn read_history_returns_empty_when_file_is_missing() {
    assert!(keep_newest(Vec::new(), 50).is_empty());
    assert!(history_lines("").is_empty());
}

#[test]
fn read_history_keeps_tail_when_file_exceeds_limit() {
    let mut all = Vec::new();
    for i in 0..10 {
        all.push(entry(1_700_000_000 + i, &format!("msg {i}")));
    }
    let got = keep_newest(all, 3);
    assert_eq!(got.len(), 3);
    assert_eq!(got[0].content, "msg 7");
    assert_eq!(got[2].content, "msg 9");
}

#[test]
fn read_history_snapshot_distinguishes_missing_and_malformed_files() {
    let lines = history_lines("{not json}\n");
    assert_eq!(lines.len(), 1);
    assert_eq!(lines[0].text, "{not json}");
    let message = history_parse_error("/tmp/history.jsonl", lines[0].number, "bad");
    assert!(message.contains("line 1"));
    assert_eq!(message, "history snapshot parse /tmp/history.jsonl line 1: bad");
}

#[test]
fn empty_lines_of_the_history_are_skipped_but_counted() {
    let lines = history_lines("a\n\nb\n");
    assert_eq!(lines.len(), 2);
    assert_eq!(lines[1].text, "b");
    assert_eq!(lines[1].number, 3);
}

#[test]
fn stream_view_tabs_hide_stream_until_pinned() {
    assert_eq!(
        StreamView::tabs(false),
        vec![
            StreamView::Agents,
            StreamView::Messages,
            StreamView::Tasks,
            StreamView::Tokens,
        ]
    );
    assert_eq!(
        StreamView::tabs(true),
        vec![
            StreamView::Agents,
            StreamView::Messages,
            StreamView::Tasks,
            StreamView::Tokens,
            StreamView::Stream,
        ]
    );
}

#[test]
fn a_tab_stands_where_its_index_says() {
    let tabs = StreamView::tabs(true);
    for view in tabs.iter() {
        assert_eq!(tabs[tab_index(*view)], *view);
    }
}
