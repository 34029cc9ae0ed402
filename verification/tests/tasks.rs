use ax::proto::types::{HistoryEntry, Task, TaskLog, TaskPriority, TaskStartMode, TaskStatus};
use ax::time::Timestamp;
use ax::tui::state::App;
use ax::tui::tasks::{
    build_task_activity, filter_tasks, format_task_age, format_task_summary, related_task_messages,
    short_task_id, sort_tasks_for_display, summarize_tasks, task_is_stale, tasks_snapshot, truncate,
    older_tasks_file, SnapshotRead, TaskActivityKind, TaskFilterMode, TaskSummary,
    LEGACY_TASKS_FILE_NAME, TASKS_FILE_NAME,
};

fn at(secs: i64) -> Timestamp {
    Timestamp::new(secs, 0).unwrap()
}

fn now() -> Timestamp {
    at(1_800_000_000)
}

fn task(id: &str, status: TaskStatus, priority: Option<TaskPriority>) -> Task {
    let now = now();
    Task {
        id: id.into(),
        title: id.into(),
        description: String::new(),
        assignee: "alpha".into(),
        created_by: "orch".into(),
        parent_task_id: String::new(),
        child_task_ids: Vec::new(),
        version: 1,
        status,
        start_mode: TaskStartMode::Default,
        workflow_mode: None,
        priority,
        stale_after_seconds: 0,
        dispatch_message: String::new(),
        dispatch_config_path: String::new(),
        dispatch_count: 0,
        attempt_count: 0,
        last_dispatch_at: None,
        last_attempt_at: None,
        next_retry_at: None,
        claimed_at: None,
        claimed_by: String::new(),
        claim_source: String::new(),
        result: String::new(),
        logs: Vec::new(),
        rollup: None,
        sequence: None,
        stale_info: None,
        removed_at: None,
        removed_by: String::new(),
        remove_reason: String::new(),
        created_at: at(1_700_000_000),
        updated_at: now,
    }
}

#[test]
fn summarize_counts_by_status_and_priority() {
    let tasks = vec![
        task("a", TaskStatus::Pending, Some(TaskPriority::High)),
        task("b", TaskStatus::InProgress, None),
        task("c", TaskStatus::Completed, None),
        task("d", TaskStatus::Blocked, Some(TaskPriority::Urgent)),
    ];
    let s = summarize_tasks(&tasks, now());
    assert_eq!(s.total, 4);
    assert_eq!(s.pending, 1);
    assert_eq!(s.in_progress, 1);
    assert_eq!(s.blocked, 1);
    assert_eq!(s.completed, 1);
    assert_eq!(s.urgent_or_high, 2);
}

#[test]
fn format_task_summary_emits_canonical_shape() {
    let s = TaskSummary {
        total: 3,
        pending: 1,
        in_progress: 1,
        blocked: 1,
        completed: 1,
        urgent_or_high: 1,
        ..TaskSummary::default()
    };
    assert_eq!(
        format_task_summary(&s),
        "total=3  pending=1  in_progress=1  blocked=1  stale=0  diverged=0  queued_msgs=0  high_pri=1"
    );
}

#[test]
fn truncate_adds_ellipsis_past_budget() {
    assert_eq!(truncate("hello", 3), "he…");
    assert_eq!(truncate("hi", 5), "hi");
    assert_eq!(truncate("hello", 0), "");
}

#[test]
fn short_task_id_clips_at_8_chars() {
    assert_eq!(short_task_id("01234567"), "01234567");
    assert_eq!(short_task_id("0123456789"), "01234567");
}

#[test]
fn filter_mode_cycles_active_stale_done_all() {
    assert_eq!(TaskFilterMode::Active.next(), TaskFilterMode::Stale);
    assert_eq!(TaskFilterMode::Stale.next(), TaskFilterMode::Done);
    assert_eq!(TaskFilterMode::Done.next(), TaskFilterMode::All);
    assert_eq!(TaskFilterMode::All.next(), TaskFilterMode::Active);
}

#[test]
fn filter_tasks_returns_only_active_by_default() {
    let tasks = vec![
        task("a", TaskStatus::Pending, None),
        task("b", TaskStatus::Completed, None),
        task("c", TaskStatus::Failed, None),
        task("d", TaskStatus::Blocked, None),
    ];
    assert_eq!(
        filter_tasks(&tasks, TaskFilterMode::Active, now())
            .iter()
            .map(|t| t.id.clone())
            .collect::<Vec<_>>(),
        vec!["a".to_owned(), "d".to_owned()]
    );
    assert_eq!(
        filter_tasks(&tasks, TaskFilterMode::Done, now())
            .iter()
            .map(|t| t.id.clone())
            .collect::<Vec<_>>(),
        vec!["c".to_owned(), "b".to_owned()]
    );
    assert_eq!(filter_tasks(&tasks, TaskFilterMode::All, now()).len(), 4);
}

#[test]
fn sort_tasks_places_blocked_before_terminal_states() {
    let mut tasks = vec![
        task("done", TaskStatus::Completed, None),
        task("blocked", TaskStatus::Blocked, None),
        task("failed", TaskStatus::Failed, None),
        task("pending", TaskStatus::Pending, None),
    ];
    sort_tasks_for_display(&mut tasks);
    assert_eq!(
        tasks.iter().map(|t| t.id.as_str()).collect::<Vec<_>>(),
        vec!["pending", "blocked", "failed", "done"]
    );
}

#[test]
fn build_task_activity_joins_logs_and_related_messages() {
    let mut t = task("abc", TaskStatus::InProgress, None);
    t.logs.push(TaskLog {
        timestamp: at(1_700_000_500),
        workspace: "alpha".into(),
        message: "started".into(),
    });
    let history = vec![
        HistoryEntry {
            timestamp: at(1_700_000_600),
            from: "orch".into(),
            to: "alpha".into(),
            content: "please do abc".into(),
            task_id: String::new(),
        },
        HistoryEntry {
            timestamp: at(1_700_000_700),
            from: "unrelated".into(),
            to: "other".into(),
            content: "nothing here".into(),
            task_id: String::new(),
        },
    ];
    let entries = build_task_activity(&t, &history, 0);
    // created_task + log(started) + in-progress lifecycle + 1 related msg
    assert_eq!(entries.len(), 4);
    // sorted ascending by timestamp
    for pair in entries.windows(2) {
        assert!(!pair[1].timestamp.is_before(&pair[0].timestamp));
    }
    assert!(entries.iter().any(|e| e.kind == TaskActivityKind::Message));
}

#[test]
fn build_task_activity_limit_drops_oldest_entries_first() {
    // Pending status has no extra lifecycle entry beyond "created
    // task", so we can assert that the limited tail preserves the
    // newest logs without racing against `updated_at = Utc::now()`.
    let mut t = task("abc", TaskStatus::Pending, None);
    t.created_at = at(1_699_999_900);
    t.updated_at = t.created_at;
    for i in 0..5 {
        t.logs.push(TaskLog {
            timestamp: at(1_700_000_000 + i),
            workspace: "alpha".into(),
            message: format!("log {i}"),
        });
    }
    let entries = build_task_activity(&t, &vec![], 3);
    assert_eq!(entries.len(), 3);
    assert!(entries.last().unwrap().summary.contains("log 4"));
}

#[test]
fn read_tasks_parses_and_sorts_array_payload() {
    let tasks = vec![
        task("a", TaskStatus::Completed, None),
        task("b", TaskStatus::InProgress, Some(TaskPriority::Urgent)),
    ];
    let got = match tasks_snapshot("/state/tasks-state.json", Ok(tasks)) {
        SnapshotRead::Loaded(tasks) => tasks,
        other => panic!("{other:?}"),
    };
    assert_eq!(got.len(), 2);
    assert_eq!(got[0].id, "b");
    assert_eq!(got[1].id, "a");
}

#[test]
fn refresh_tasks_preserves_last_good_rows_on_malformed_snapshot() {
    let mut app = App::new();
    app.take_tasks(
        SnapshotRead::Loaded(vec![task("good", TaskStatus::Pending, None)]),
        now(),
    );
    assert_eq!(app.tasks.len(), 1);
    assert!(app.task_snapshot_error.is_none());
    app.take_tasks(SnapshotRead::Error("parse: bad".into()), now());
    assert_eq!(app.tasks.len(), 1);
    assert_eq!(app.tasks[0].id, "good");
    assert!(app.task_snapshot_error.is_some());
    app.take_tasks(SnapshotRead::Missing, now());
    assert!(app.tasks.is_empty());
    assert!(app.task_snapshot_error.is_none());
}

#[test]
fn refresh_messages_preserves_last_good_rows_on_malformed_snapshot() {
    let mut app = App::new();
    let entry = HistoryEntry {
        timestamp: now(),
        from: "a".into(),
        to: "b".into(),
        content: "good".into(),
        task_id: String::new(),
    };
    app.take_messages(SnapshotRead::Loaded(vec![entry]));
    app.take_messages(SnapshotRead::Error("line 1".into()));
    assert_eq!(app.messages.len(), 1);
    assert_eq!(app.messages[0].content, "good");
    assert_eq!(app.messages_snapshot_error.as_deref(), Some("line 1"));
}

#[test]
fn a_task_goes_stale_after_its_time() {
    let mut t = task("abc", TaskStatus::InProgress, None);
    t.stale_after_seconds = 60;
    t.updated_at = at(1_800_000_000 - 59);
    assert!(!task_is_stale(&t, now()));
    t.updated_at = at(1_800_000_000 - 61);
    assert!(task_is_stale(&t, now()));
    t.status = TaskStatus::Completed;
    assert!(!task_is_stale(&t, now()));
    t.updated_at = at(1_800_000_000 - 125);
    assert_eq!(format_task_age(&t, now()), "2m");
}

#[test]
fn a_message_is_related_by_mark_or_mention() {
    let t = task("abc", TaskStatus::Pending, None);
    let mut marked = HistoryEntry {
        timestamp: now(),
        from: "x".into(),
        to: "y".into(),
        content: "nothing".into(),
        task_id: "abc".into(),
    };
    let history = vec![marked.clone()];
    assert_eq!(related_task_messages(&t, &history).len(), 1);
    marked.task_id = String::new();
    let history = vec![marked];
    assert_eq!(related_task_messages(&t, &history).len(), 0);
}

#[test]
fn every_task_counts_under_one_status() {
    let tasks = vec![
        task("a", TaskStatus::Pending, None),
        task("b", TaskStatus::Cancelled, None),
        task("c", TaskStatus::Failed, None),
    ];
    let s = summarize_tasks(&tasks, now());
    assert_eq!(
        s.pending + s.in_progress + s.blocked + s.completed + s.failed + s.cancelled,
        s.total
    );
}

#[test]
fn read_tasks_snapshot_falls_back_to_legacy_file_when_primary_is_missing() {
    assert_eq!(older_tasks_file(TASKS_FILE_NAME), Some(LEGACY_TASKS_FILE_NAME));
    assert_eq!(older_tasks_file("missing.json"), None);
    assert_eq!(older_tasks_file(LEGACY_TASKS_FILE_NAME), None);
}

#[test]
fn read_tasks_snapshot_distinguishes_missing_and_malformed_files() {
    match tasks_snapshot("/state/tasks.json", Err("expected value".into())) {
        SnapshotRead::Error(message) => {
            assert!(message.contains("parse"));
            assert_eq!(message, "tasks snapshot parse /state/tasks.json: expected value");
        }
        other => panic!("{other:?}"),
    }
}
