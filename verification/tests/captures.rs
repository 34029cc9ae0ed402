use ax::tmux::sessions::SessionInfo;
use ax::tui::captures::{
    recent_lines, recent_wrapped_lines, sanitize_capture_line, strip_csi_sequences, CaptureCache,
    CaptureEntry, Captured, BACKGROUND_MAX_AGE,
};

fn session(name: &str) -> SessionInfo {
    SessionInfo {
        name: format!("ax-{name}"),
        workspace: name.into(),
        attached: false,
        windows: 1,
    }
}

fn entry(content: &str, at: u64) -> CaptureEntry {
    CaptureEntry { content: content.into(), captured_at: at, last_changed_at: at }
}

#[test]
fn recent_lines_skips_trailing_blanks_but_keeps_middle_whitespace() {
    let capture = "first\nsecond\n\nthird\n\n\n";
    assert_eq!(
        recent_lines(capture, 4),
        vec!["first", "second", "", "third"]
    );
    assert_eq!(recent_lines(capture, 2), vec!["", "third"]);
}

#[test]
fn recent_lines_handles_short_captures() {
    assert!(recent_lines("", 3).is_empty());
    assert_eq!(recent_lines("hello\nworld", 10), vec!["hello", "world"]);
}

#[test]
fn recent_wrapped_lines_wraps_to_panel_width_before_tailing() {
    let capture = "abcdefghij\nkl\n";
    assert_eq!(
        recent_wrapped_lines(capture, 3, 4),
        vec!["efgh", "ij", "kl"]
    );
}

#[test]
fn recent_wrapped_lines_skips_trailing_padding_but_keeps_internal_blank_rows() {
    let capture = "line1\n\nline2\n\n\n";
    assert_eq!(
        recent_wrapped_lines(capture, 4, 16),
        vec!["line1", "", "line2"]
    );
}

#[test]
fn recent_wrapped_lines_sanitizes_controls_and_expands_tabs() {
    let capture = "ab\tcd\x1b[31m\n";
    assert_eq!(recent_wrapped_lines(capture, 4, 4), vec!["ab  ", "cd"]);
}

#[test]
fn recent_wrapped_lines_strips_sgr_and_other_csi_sequences() {
    let capture = "plain \x1b[31mred\x1b[0m\nnext\x1b[2K line\n";
    assert_eq!(
        recent_wrapped_lines(capture, 4, 32),
        vec!["plain red", "next line"]
    );
}

#[test]
fn prune_drops_workspaces_that_no_longer_exist() {
    let mut cache = CaptureCache::default();
    cache.entries.insert("alpha".into(), entry("x", 0));
    cache.entries.insert("beta".into(), entry("y", 0));
    cache.prune(&vec![session("alpha")]);
    assert!(cache.entries.contains_key("alpha"));
    assert!(!cache.entries.contains_key("beta"));
}

#[test]
fn refresh_round_robins_background_sessions() {
    let sessions = vec![session("a"), session("b"), session("c"), session("d")];
    let mut cache = CaptureCache::default();
    for s in &sessions {
        cache.entries.insert(s.workspace.clone(), entry("", 5000));
    }
    let refreshed = cache.refresh(&sessions, None, 5000);
    assert!(refreshed.is_empty());
}

#[test]
fn everyone_who_is_due_gets_a_turn() {
    let sessions = vec![session("a"), session("b"), session("c")];
    let mut cache = CaptureCache::default();
    assert_eq!(cache.refresh(&sessions, None, 0), vec!["a", "b"]);
    assert_eq!(cache.refresh(&sessions, None, 0), vec!["c", "a"]);
    assert_eq!(cache.refresh(&sessions, Some("b"), 0)[0], "b");
}

#[test]
fn a_capture_ages_and_remembers_its_last_change() {
    let mut cache = CaptureCache::default();
    cache.capture_into("a", "x".into(), 1000);
    cache.capture_into("a", "x".into(), 4000);
    let kept = cache.entries.get("a").unwrap();
    assert_eq!(kept.last_changed_at, 1000);
    assert_eq!(kept.captured_at, 4000);
    assert!(!cache.is_recently_active("a", 4500));
    cache.capture_into("a", "y".into(), 4500);
    assert!(cache.is_recently_active("a", 4600));
    let sessions = vec![session("a")];
    assert!(cache.refresh(&sessions, None, 4500 + BACKGROUND_MAX_AGE - 1).is_empty());
    assert_eq!(cache.refresh(&sessions, None, 4500 + BACKGROUND_MAX_AGE), vec!["a"]);
}

#[test]
fn a_sanitized_line_holds_no_control_code() {
    assert_eq!(strip_csi_sequences("a\x1bXb"), "aXb");
    assert_eq!(sanitize_capture_line("a\x07b\tc"), "ab  c");
}

#[test]
fn a_failed_capture_leaves_the_former_one() {
    let mut cache = CaptureCache::default();
    cache.capture_into("b", "old".into(), 1000);
    let taken = |workspace: &str, content: Option<&str>| Captured {
        workspace: workspace.into(),
        content: content.map(|s| s.to_owned()),
    };
    let refreshed =
        cache.take_captures(vec![taken("a", Some("new")), taken("b", None), taken("c", None)], 2000);
    assert_eq!(refreshed, vec!["a"]);
    assert_eq!(cache.entries.get("a").unwrap().content, "new");
    assert_eq!(cache.entries.get("b").unwrap().captured_at, 1000);
    assert!(cache.entries.get("c").is_none());
}
