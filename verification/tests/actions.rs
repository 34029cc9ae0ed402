use ax::proto::types::{Task, TaskStartMode, TaskStatus};
use ax::time::Timestamp;
use ax::tui::actions::{
    apply_lifecycle, apply_outcomes, contextual_actions, default_actions, interrupt_outcomes,
    move_overlay_selection, run_selected, task_actions, ActionOutcome, QuickActionId,
    QuickActionState,
};
use ax::tui::state::App;
use ax::tui::stream::StreamView;

fn open_state(id: QuickActionId) -> QuickActionState {
    let mut state = QuickActionState::new();
    state.open = true;
    state.actions = default_actions();
    state.selected = state
        .actions
        .iter()
        .position(|a| a.id == id)
        .expect("action present");
    state
}

fn mock_task(status: TaskStatus) -> Task {
    let now = Timestamp::new(1_700_000_000, 0).unwrap();
    Task {
        id: "task123".into(),
        title: "task".into(),
        description: String::new(),
        assignee: "alpha".into(),
        created_by: "orch".into(),
        parent_task_id: String::new(),
        child_task_ids: Vec::new(),
        version: 1,
        status,
        start_mode: TaskStartMode::Default,
        workflow_mode: None,
        priority: None,
        stale_after_seconds: 0,
        dispatch_message: String::new(),
        dispatch_config_path: String::new(),
        dispatch_count: 0,
        attempt_count: 0,
        last_dispatch_at: None,
        last_attempt_at: None,
        next_retry_at: None,
        claimed_at: None,
        claimed_by: String::new(),
        claim_source: String::new(),
        result: String::new(),
        logs: Vec::new(),
        rollup: None,
        sequence: None,
        stale_info: None,
        removed_at: None,
        removed_by: String::new(),
        remove_reason: String::new(),
        created_at: now,
        updated_at: now,
    }
}

#[test]
fn run_selected_for_stream_switches_view_and_closes() {
    let state = open_state(QuickActionId::ShowMessages);
    let outcomes = run_selected(&state, "alpha");
    assert_eq!(
        outcomes,
        vec![
            ActionOutcome::ChangeStream(StreamView::Messages),
            ActionOutcome::Close
        ]
    );
}

#[test]
fn run_selected_for_stream_flips_tab_and_sets_mirror_target() {
    let state = open_state(QuickActionId::StreamTmux);
    let outcomes = run_selected(&state, "alpha");
    assert_eq!(
        outcomes,
        vec![
            ActionOutcome::ChangeStream(StreamView::Stream),
            ActionOutcome::StartStreaming("alpha".into()),
            ActionOutcome::Close,
        ]
    );
}

#[test]
fn change_stream_preserves_mirror_target_so_users_can_tab_away() {
    let mut app = App::new();
    app.streamed_workspace = Some("alpha".into());
    app.stream = StreamView::Stream;
    apply_outcomes(
        &mut app,
        vec![ActionOutcome::ChangeStream(StreamView::Tasks)],
        0,
    );
    assert_eq!(app.stream, StreamView::Tasks);
    assert_eq!(app.streamed_workspace.as_deref(), Some("alpha"));
}

#[test]
fn run_selected_requires_confirmation_for_stop_and_restart() {
    let state = open_state(QuickActionId::Stop);
    let outcomes = run_selected(&state, "alpha");
    assert_eq!(outcomes, vec![ActionOutcome::NeedsConfirm]);

    let mut confirmed = open_state(QuickActionId::Stop);
    confirmed.confirm = true;
    let outcomes = run_selected(&confirmed, "alpha");
    assert!(matches!(
        outcomes[0],
        ActionOutcome::Notice { error: true, .. }
    ));
}

#[test]
fn move_overlay_selection_clamps_to_bounds() {
    let mut state = open_state(QuickActionId::ShowTasks);
    move_overlay_selection(&mut state, 100);
    assert_eq!(state.selected, state.actions.len() - 1);
    move_overlay_selection(&mut state, -100);
    assert_eq!(state.selected, 0);
}

#[test]
fn labels_cover_every_variant() {
    for id in [
        QuickActionId::ShowTasks,
        QuickActionId::ShowMessages,
        QuickActionId::Interrupt,
        QuickActionId::Restart,
        QuickActionId::Stop,
        QuickActionId::TaskWake,
        QuickActionId::TaskInterrupt,
        QuickActionId::TaskRetry,
        QuickActionId::TaskCancel,
    ] {
        assert!(!id.label().is_empty());
    }
}

#[test]
fn contextual_actions_hide_session_only_actions_without_session() {
    let ids: Vec<_> = contextual_actions(false)
        .into_iter()
        .map(|a| a.id)
        .collect();
    assert!(!ids.contains(&QuickActionId::StreamTmux));
    assert!(!ids.contains(&QuickActionId::Interrupt));
    assert!(!ids.contains(&QuickActionId::Stop));
    assert!(ids.contains(&QuickActionId::Restart));
    assert!(ids.contains(&QuickActionId::ShowTasks));
}

#[test]
fn task_actions_only_include_active_task_remediation() {
    let mut task = mock_task(TaskStatus::InProgress);
    let ids: Vec<_> = task_actions(&task).into_iter().map(|a| a.id).collect();
    assert!(ids.contains(&QuickActionId::TaskWake));
    assert!(ids.contains(&QuickActionId::TaskInterrupt));
    assert!(ids.contains(&QuickActionId::TaskRetry));
    assert!(ids.contains(&QuickActionId::TaskCancel));

    task.status = TaskStatus::Completed;
    assert!(task_actions(&task).is_empty());
}

#[test]
fn confirm_prompt_names_target_workspace() {
    assert_eq!(
        QuickActionId::Restart.confirm_prompt("alpha"),
        "confirm restart alpha?"
    );
    assert_eq!(
        QuickActionId::Stop.confirm_prompt("alpha"),
        "confirm stop alpha?"
    );
}

#[test]
fn a_question_comes_exactly_before_the_actions_that_need_one() {
    for action in default_actions() {
        let prompt = action.id.confirm_prompt("alpha");
        assert_eq!(action.id.requires_confirmation(), !prompt.is_empty());
    }
}

#[test]
fn an_interrupt_that_fails_is_told_as_an_error() {
    let failed = interrupt_outcomes("alpha", Err("gone".into()));
    assert!(matches!(&failed[0], ActionOutcome::Notice { error: true, text } if text.contains("gone")));
    let done = interrupt_outcomes("alpha", Ok(()));
    assert!(matches!(&done[0], ActionOutcome::Notice { error: false, .. }));
    let refused = apply_lifecycle(QuickActionId::Restart, Err("no".into()));
    assert!(matches!(&refused[0], ActionOutcome::Notice { error: true, text } if text.contains("no")));
}
