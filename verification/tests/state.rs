use ax::proto::types::{HistoryEntry, Task, TaskStartMode, TaskStatus};
use ax::proto::usage::{Tokens, WorkspaceTrend};
use ax::time::Timestamp;
use ax::tmux::sessions::SessionInfo;
use ax::tui::state::{selectable_entry_positions, App, PaneCursor};

fn now() -> Timestamp {
    Timestamp::new(1_700_000_000, 0).unwrap()
}


#[test]
fn move_task_selection_clamps_and_no_op_on_empty() {
    let mut app = App::new();
    app.move_task_selection(5, now());
    assert_eq!(app.task_cursor.index, 0);
    app.tasks = vec![mock_task(), mock_task(), mock_task()];
    app.move_task_selection(10, now());
    assert_eq!(app.task_cursor.index, 2);
    app.move_task_selection(-10, now());
    assert_eq!(app.task_cursor.index, 0);
}

#[test]
fn clamp_task_selection_snaps_back_when_tasks_shrink() {
    let mut app = App::new();
    app.tasks = vec![mock_task(), mock_task(), mock_task()];
    app.task_cursor.index = 2;
    app.tasks.truncate(1);
    app.clamp_task_selection(now());
    assert_eq!(app.task_cursor.index, 0);
}

fn mock_task() -> Task {
    let now = now();
    Task {
        id: "abc".into(),
        title: "t".into(),
        description: String::new(),
        assignee: "alpha".into(),
        created_by: "orch".into(),
        parent_task_id: String::new(),
        child_task_ids: Vec::new(),
        version: 1,
        status: TaskStatus::Pending,
        start_mode: TaskStartMode::Default,
        workflow_mode: None,
        priority: None,
        stale_after_seconds: 0,
        dispatch_message: String::new(),
        dispatch_config_path: String::new(),
        dispatch_count: 0,
        attempt_count: 0,
        last_dispatch_at: None,
        last_attempt_at: None,
        next_retry_at: None,
        claimed_at: None,
        claimed_by: String::new(),
        claim_source: String::new(),
        result: String::new(),
        logs: Vec::new(),
        rollup: None,
        sequence: None,
        stale_info: None,
        removed_at: None,
        removed_by: String::new(),
        remove_reason: String::new(),
        created_at: now,
        updated_at: now,
    }
}

#[test]
fn pane_cursor_primitive_clamps_floor_and_obeys_ceiling() {
    let mut c = PaneCursor::default();
    c.shift(5);
    assert_eq!(c.index, 5);
    c.shift(-100);
    assert_eq!(c.index, 0, "floor clamps at zero");
    c.jump_to(12);
    assert_eq!(c.index, 12, "ceiling is set verbatim (render clamps)");
    c.clamp(7);
    assert_eq!(c.index, 7, "clamp snaps down when ceiling shrinks");
    c.clamp(20);
    assert_eq!(c.index, 7, "clamp is a no-op when already under ceiling");
    c.reset();
    assert_eq!(c.index, 0);
}

#[test]
fn scroll_messages_moves_absolute_cursor_and_toggles_follow_tail() {
    let mut app = App::new();
    app.messages = vec![mock_history(); 5];
    // Set the cursor at the tail so the test reflects the state
    // after a normal refresh tick (follow-tail default).
    app.reconcile_message_cursor();
    assert_eq!(app.messages_cursor.index, 4);
    assert!(app.messages_follow_tail);

    // ↑ (delta = -1) walks one step older and breaks follow-tail.
    app.scroll_messages(-1);
    assert_eq!(app.messages_cursor.index, 3);
    assert!(
        !app.messages_follow_tail,
        "moving off the tail parks the cursor"
    );

    // ↓ back to the tail re-engages follow-tail.
    app.scroll_messages(1);
    assert_eq!(app.messages_cursor.index, 4);
    assert!(app.messages_follow_tail);

    // Clamp at both ends — no under/overflow.
    app.scroll_messages(-100);
    assert_eq!(app.messages_cursor.index, 0);
    app.scroll_messages(100);
    assert_eq!(app.messages_cursor.index, 4);
}

#[test]
fn messages_to_head_and_tail_flip_follow_mode() {
    let mut app = App::new();
    app.messages = vec![mock_history(); 3];
    app.messages_to_head();
    assert_eq!(app.messages_cursor.index, 0);
    assert!(!app.messages_follow_tail, "head parks the cursor");
    app.messages_to_tail();
    assert_eq!(app.messages_cursor.index, 2);
    assert!(app.messages_follow_tail, "tail re-engages follow-mode");
}

#[test]
fn reconcile_message_cursor_auto_bumps_tail_but_clamps_parked() {
    let mut app = App::new();
    app.messages = vec![mock_history(); 3];
    app.reconcile_message_cursor();
    assert_eq!(app.messages_cursor.index, 2);

    // New message arrives while follow-tail is on → cursor slides
    // forward so the operator keeps seeing the latest entry.
    app.messages.push(mock_history());
    app.reconcile_message_cursor();
    assert_eq!(app.messages_cursor.index, 3);
    assert!(app.messages_follow_tail);

    // Walk back; subsequent new messages must NOT steal the
    // selection — operators mid-history shouldn't lose their place.
    app.scroll_messages(-2);
    let parked = app.messages_cursor.index;
    app.messages.push(mock_history());
    app.reconcile_message_cursor();
    assert_eq!(app.messages_cursor.index, parked);

    // If the buffer shrinks under a parked cursor, clamp down.
    app.messages.truncate(2);
    app.reconcile_message_cursor();
    assert_eq!(app.messages_cursor.index, 1);
}

#[test]
fn scroll_tokens_walks_and_snaps() {
    let mut app = App::new();
    let trend = mock_trend("a");
    app.usage_trends.insert("a".into(), trend.clone());
    app.usage_trends.insert("b".into(), mock_trend("b"));

    app.scroll_tokens(3);
    assert_eq!(app.tokens_cursor.index, 3);
    app.scroll_tokens(-10);
    assert_eq!(app.tokens_cursor.index, 0, "floor clamps at top");

    app.tokens_to_tail();
    assert_eq!(app.tokens_cursor.index, 2, "tail = row count");
    app.tokens_to_head();
    assert_eq!(app.tokens_cursor.index, 0);
}

fn mock_history() -> HistoryEntry {
    HistoryEntry {
        timestamp: now(),
        from: "alpha".into(),
        to: "orch".into(),
        content: "hello".into(),
        task_id: String::new(),
    }
}

fn mock_trend(name: &str) -> WorkspaceTrend {
    WorkspaceTrend {
        workspace: name.into(),
        available: true,
        total: Tokens {
            input: 10,
            output: 10,
            cache_read: 0,
            cache_creation: 0,
        },
        ..WorkspaceTrend::default()
    }
}

#[test]
fn move_selection_clamps_to_selectable_agent_entries() {
    let mut app = App::new();
    app.sessions = vec![mock_session("a"), mock_session("b"), mock_session("c")];
    app.rebuild_agents();
    let selectable = selectable_entry_positions(&app.agent_entries);
    assert!(!selectable.is_empty());
    app.selected_entry = selectable[0];
    app.move_selection(10);
    assert_eq!(app.selected_entry, *selectable.last().unwrap());
    app.move_selection(-10);
    assert_eq!(app.selected_entry, selectable[0]);
}

fn mock_session(name: &str) -> SessionInfo {
    SessionInfo {
        name: format!("ax-{name}"),
        workspace: name.into(),
        attached: false,
        windows: 1,
    }
}

