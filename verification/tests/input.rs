use ax::proto::types::{HistoryEntry, Task, TaskStartMode, TaskStatus};
use ax::proto::usage::{Tokens, WorkspaceTrend};
use ax::time::Timestamp;
use ax::tui::actions::QuickActionId;
use ax::tui::input::{handle_key, handle_scroll, KeyCode, KeyEvent, KeyModifiers, Now};
use ax::tui::sidebar::AgentEntry;
use ax::tui::state::{AgentDetailTab, App, Focus};
use ax::tui::stream::StreamView;

fn now() -> Now {
    Now { ticks: 1000, utc: Timestamp::new(1_700_000_000, 0).unwrap() }
}

fn press(code: KeyCode) -> KeyEvent {
    KeyEvent::new(code, KeyModifiers::none())
}

fn mock_history() -> HistoryEntry {
    HistoryEntry {
        timestamp: now().utc,
        from: "alpha".into(),
        to: "orch".into(),
        content: "hi".into(),
        task_id: String::new(),
    }
}

fn mock_trend(name: &str) -> WorkspaceTrend {
    WorkspaceTrend {
        workspace: name.into(),
        available: true,
        total: Tokens {
            input: 10,
            output: 10,
            cache_read: 0,
            cache_creation: 0,
        },
        ..WorkspaceTrend::default()
    }
}

fn mock_task(id: &str, status: TaskStatus) -> Task {
    let now = now().utc;
    Task {
        id: id.into(),
        title: "task".into(),
        description: String::new(),
        assignee: "alpha".into(),
        created_by: "orch".into(),
        parent_task_id: String::new(),
        child_task_ids: Vec::new(),
        version: 7,
        status,
        start_mode: TaskStartMode::Default,
        workflow_mode: None,
        priority: None,
        stale_after_seconds: 0,
        dispatch_message: String::new(),
        dispatch_config_path: String::new(),
        dispatch_count: 0,
        attempt_count: 0,
        last_dispatch_at: None,
        last_attempt_at: None,
        next_retry_at: None,
        claimed_at: None,
        claimed_by: String::new(),
        claim_source: String::new(),
        result: String::new(),
        logs: Vec::new(),
        rollup: None,
        sequence: None,
        stale_info: None,
        removed_at: None,
        removed_by: String::new(),
        remove_reason: String::new(),
        created_at: now,
        updated_at: now,
    }
}

#[test]
fn enter_opens_overlay_when_workspace_selected() {
    let mut app = App::new();
    // No agents panel = no workspace → enter is a no-op.
    handle_key(&mut app, press(KeyCode::Enter), now());
    assert!(!app.quick_actions.open);
    assert!(app.quick_notice.is_some());

    app.agent_entries = vec![AgentEntry {
        label: "alpha".into(),
        workspace: "alpha".into(),
        session_index: Some(0),
        level: 0,
        group: false,
        reconcile: String::new(),
    }];
    app.selected_entry = 0;
    handle_key(&mut app, press(KeyCode::Enter), now());
    assert!(app.quick_actions.open);
    assert!(!app.quick_actions.actions.is_empty());
}

#[test]
fn enter_on_offline_workspace_hides_session_only_actions() {
    let mut app = App::new();
    app.agent_entries = vec![AgentEntry {
        label: "alpha".into(),
        workspace: "alpha".into(),
        session_index: None,
        level: 0,
        group: false,
        reconcile: String::new(),
    }];
    handle_key(&mut app, press(KeyCode::Enter), now());
    let actions: Vec<_> = app.quick_actions.actions.iter().map(|a| a.id).collect();
    assert!(!actions.contains(&QuickActionId::StreamTmux));
    assert!(!actions.contains(&QuickActionId::Interrupt));
    assert!(!actions.contains(&QuickActionId::Stop));
    assert!(actions.contains(&QuickActionId::Restart));
}

#[test]
fn enter_on_task_opens_remediation_overlay_and_queues_confirmed_action() {
    let mut app = App::new();
    app.stream = StreamView::Tasks;
    app.tasks = vec![mock_task("abcdef123456", TaskStatus::InProgress)];

    handle_key(&mut app, press(KeyCode::Enter), now());
    assert!(app.quick_actions.open);
    assert_eq!(app.quick_actions.target_task_id, "abcdef123456");
    let ids: Vec<_> = app.quick_actions.actions.iter().map(|a| a.id).collect();
    assert!(ids.contains(&QuickActionId::TaskWake));
    assert!(ids.contains(&QuickActionId::TaskInterrupt));
    assert!(ids.contains(&QuickActionId::TaskRetry));
    assert!(ids.contains(&QuickActionId::TaskCancel));

    app.quick_actions.selected = app
        .quick_actions
        .actions
        .iter()
        .position(|a| a.id == QuickActionId::TaskCancel)
        .expect("cancel action");
    handle_key(&mut app, press(KeyCode::Enter), now());
    assert!(app.quick_actions.confirm);
    assert!(app.pending_task_action.is_none());

    handle_key(&mut app, press(KeyCode::Enter), now());
    let pending = app.pending_task_action.expect("queued task action");
    assert_eq!(pending.action, QuickActionId::TaskCancel);
    assert_eq!(pending.task_id, "abcdef123456");
    assert_eq!(pending.expected_version, 7);
    assert!(!app.quick_actions.open);
}

#[test]
fn n_on_tasks_opens_create_form_and_enter_queues_create() {
    let mut app = App::new();
    app.stream = StreamView::Tasks;
    app.workspace_dirs
        .insert("alpha".into(), "/tmp/alpha".into());

    handle_key(&mut app, press(KeyCode::Char('n')), now());
    assert!(app.create_task_form.is_some());
    assert_eq!(
        app.create_task_form.as_ref().unwrap().assignee,
        "alpha",
        "configured workspace should prefill assignee"
    );

    for c in "Build queue".chars() {
        handle_key(&mut app, press(KeyCode::Char(c)), now());
    }
    handle_key(&mut app, press(KeyCode::Tab), now());
    for c in "Wire top create form".chars() {
        handle_key(&mut app, press(KeyCode::Char(c)), now());
    }
    handle_key(&mut app, press(KeyCode::Enter), now());

    let pending = app.pending_task_create.expect("create queued");
    assert_eq!(pending.draft.assignee, "alpha");
    assert_eq!(pending.draft.title, "Build queue");
    assert_eq!(pending.draft.description, "Wire top create form");
    assert!(app.create_task_form.as_ref().unwrap().submitting);
}

#[test]
fn m_opens_orchestrator_message_form_and_enter_queues_send() {
    let mut app = App::new();

    handle_key(&mut app, press(KeyCode::Char('m')), now());
    assert!(app.orchestrator_message_form.is_some());

    for c in "Check queue health".chars() {
        handle_key(&mut app, press(KeyCode::Char(c)), now());
    }
    handle_key(&mut app, press(KeyCode::Enter), now());

    let pending = app
        .pending_orchestrator_message
        .expect("message send queued");
    assert_eq!(pending.message, "Check queue health");
    assert!(app.orchestrator_message_form.as_ref().unwrap().submitting);
}

#[test]
fn orchestrator_message_form_swallow_plain_q_but_ctrl_c_still_quits() {
    let mut app = App::new();
    app.open_orchestrator_message_form();

    handle_key(&mut app, press(KeyCode::Char('q')), now());
    assert!(!app.quit);
    assert_eq!(app.orchestrator_message_form.as_ref().unwrap().message, "q");

    let event = KeyEvent::new(KeyCode::Char('c'), KeyModifiers::control());
    handle_key(&mut app, event, now());
    assert!(app.quit);
}

#[test]
fn task_create_form_swallow_plain_q_but_ctrl_c_still_quits() {
    let mut app = App::new();
    app.stream = StreamView::Tasks;
    app.open_create_task_form();

    handle_key(&mut app, press(KeyCode::Char('q')), now());
    assert!(!app.quit);
    assert_eq!(app.create_task_form.as_ref().unwrap().title, "q");

    let event = KeyEvent::new(KeyCode::Char('c'), KeyModifiers::control());
    handle_key(&mut app, event, now());
    assert!(app.quit);
}

#[test]
fn overlay_enter_on_restart_sets_needs_confirm_then_queues_lifecycle() {
    let mut app = App::new();
    app.agent_entries = vec![AgentEntry {
        label: "alpha".into(),
        workspace: "alpha".into(),
        session_index: Some(0),
        level: 0,
        group: false,
        reconcile: String::new(),
    }];
    app.selected_entry = 0;
    handle_key(&mut app, press(KeyCode::Enter), now());
    // jump selection to Restart.
    let restart_idx = app
        .quick_actions
        .actions
        .iter()
        .position(|a| a.id == QuickActionId::Restart)
        .unwrap();
    app.quick_actions.selected = restart_idx;

    handle_key(&mut app, press(KeyCode::Enter), now());
    assert!(app.quick_actions.confirm);
    assert!(app.pending_lifecycle.is_none());

    handle_key(&mut app, press(KeyCode::Enter), now());
    let pending = app.pending_lifecycle.clone().expect("queued");
    assert_eq!(pending.action, QuickActionId::Restart);
    assert_eq!(pending.workspace, "alpha");
    // Overlay closed so next paint shows the regular footer.
    assert!(!app.quick_actions.open);
}

#[test]
fn q_sets_quit() {
    let mut app = App::new();
    handle_key(&mut app, press(KeyCode::Char('q')), now());
    assert!(app.quit);
}

#[test]
fn ctrl_c_sets_quit() {
    let mut app = App::new();
    let event = KeyEvent::new(KeyCode::Char('c'), KeyModifiers::control());
    handle_key(&mut app, event, now());
    assert!(app.quit);
}

#[test]
fn r_requests_immediate_refresh() {
    let mut app = App::new();
    handle_key(&mut app, press(KeyCode::Char('r')), now());
    assert!(app.force_refresh);
    assert!(app
        .quick_notice
        .as_ref()
        .is_some_and(|notice| notice.text.contains("refresh")));
}

#[test]
fn tab_and_backtab_toggle_focus_between_panels() {
    let mut app = App::new();
    assert_eq!(app.stream, StreamView::Agents);
    assert_eq!(app.focus, Focus::List);
    handle_key(&mut app, press(KeyCode::Tab), now());
    assert_eq!(app.focus, Focus::Detail);
    assert_eq!(
        app.stream,
        StreamView::Agents,
        "Tab moves focus without switching top-level tabs"
    );
    handle_key(&mut app, press(KeyCode::Tab), now());
    assert_eq!(app.focus, Focus::List);
    handle_key(&mut app, press(KeyCode::BackTab), now());
    assert_eq!(app.focus, Focus::Detail);
    assert_eq!(
        app.stream,
        StreamView::Agents,
        "Shift-Tab moves focus backward without switching top-level tabs"
    );
    handle_key(&mut app, press(KeyCode::BackTab), now());
    assert_eq!(app.focus, Focus::List);
}

#[test]
fn bracket_keys_cycle_tabs_from_any_focus() {
    let mut app = App::new();
    // Default is Agents; ] walks to Messages without stealing
    // the List↔Detail focus so operators can peek at other tabs.
    assert_eq!(app.stream, StreamView::Agents);
    handle_key(&mut app, press(KeyCode::Char(']')), now());
    assert_eq!(app.stream, StreamView::Messages);
    assert_eq!(app.focus, Focus::List);

    app.focus = Focus::Detail;
    handle_key(&mut app, press(KeyCode::Char('[')), now());
    assert_eq!(app.stream, StreamView::Agents);
    assert_eq!(app.focus, Focus::Detail);
}

#[test]
fn bracket_keys_prefer_focused_agent_detail_tabs() {
    let mut app = App::new();
    app.stream = StreamView::Agents;
    app.focus = Focus::Detail;
    assert_eq!(app.agent_detail_tab, AgentDetailTab::Overview);

    handle_key(&mut app, press(KeyCode::Char(']')), now());
    assert_eq!(app.stream, StreamView::Agents);
    assert_eq!(app.agent_detail_tab, AgentDetailTab::Tasks);

    handle_key(&mut app, press(KeyCode::Char('[')), now());
    assert_eq!(app.stream, StreamView::Agents);
    assert_eq!(app.agent_detail_tab, AgentDetailTab::Overview);
}

#[test]
fn bracket_keys_switch_top_level_tabs_when_detail_has_no_local_tabs() {
    let mut app = App::new();
    app.stream = StreamView::Tasks;
    app.focus = Focus::Detail;
    app.agent_detail_tab = AgentDetailTab::Messages;

    handle_key(&mut app, press(KeyCode::Char(']')), now());
    assert_eq!(app.stream, StreamView::Tokens);
    assert_eq!(
        app.agent_detail_tab,
        AgentDetailTab::Messages,
        "non-agent detail panes do not consume bracket keys"
    );
}

#[test]
fn agent_detail_h_l_cycles_local_tabs_only_in_agents_detail_focus() {
    let mut app = App::new();
    app.focus = Focus::Detail;
    assert_eq!(app.agent_detail_tab, AgentDetailTab::Overview);

    handle_key(&mut app, press(KeyCode::Char('l')), now());
    assert_eq!(app.stream, StreamView::Agents);
    assert_eq!(app.agent_detail_tab, AgentDetailTab::Tasks);
    assert_eq!(app.focus, Focus::Detail);

    handle_key(&mut app, press(KeyCode::Char('h')), now());
    assert_eq!(app.agent_detail_tab, AgentDetailTab::Overview);

    app.focus = Focus::List;
    handle_key(&mut app, press(KeyCode::Char('l')), now());
    assert_eq!(
        app.agent_detail_tab,
        AgentDetailTab::Overview,
        "list focus does not switch local detail tabs"
    );

    app.focus = Focus::Detail;
    app.stream = StreamView::Messages;
    handle_key(&mut app, press(KeyCode::Char('l')), now());
    assert_eq!(
        app.agent_detail_tab,
        AgentDetailTab::Overview,
        "non-agents detail panes do not consume agent local tab keys"
    );
}

#[test]
fn agent_detail_time_tabs_use_sticky_tail_until_user_scrolls_away() {
    let mut app = App::new();
    app.focus = Focus::Detail;
    app.stream = StreamView::Agents;
    app.agent_detail_tab = AgentDetailTab::Messages;
    app.detail_scroll.index = 5;
    app.agent_detail_follow_tail = true;

    handle_key(&mut app, press(KeyCode::Up), now());
    assert!(!app.agent_detail_follow_tail);
    assert_eq!(app.detail_scroll.index, 4);

    handle_key(&mut app, press(KeyCode::Char('G')), now());
    assert!(app.agent_detail_follow_tail);

    app.agent_detail_tab = AgentDetailTab::Activity;
    handle_key(&mut app, press(KeyCode::Char('g')), now());
    assert!(!app.agent_detail_follow_tail);
    assert_eq!(app.detail_scroll.index, 0);
}

#[test]
fn arrow_keys_stay_inside_focused_panel() {
    let mut app = App::new();
    app.agent_entries = vec![
        AgentEntry {
            label: "alpha".into(),
            workspace: "alpha".into(),
            session_index: Some(0),
            level: 0,
            group: false,
            reconcile: String::new(),
        },
        AgentEntry {
            label: "beta".into(),
            workspace: "beta".into(),
            session_index: Some(1),
            level: 0,
            group: false,
            reconcile: String::new(),
        },
    ];
    app.selected_entry = 0;

    // Agents focus: Down moves the cursor.
    handle_key(&mut app, press(KeyCode::Down), now());
    assert_eq!(app.selected_entry, 1);

    // Body focus: Down/Up must not leak back into Agents.
    app.focus = Focus::Detail;
    let before = app.selected_entry;
    handle_key(&mut app, press(KeyCode::Up), now());
    assert_eq!(app.focus, Focus::Detail, "Up stays inside Body");
    assert_eq!(app.selected_entry, before, "Body arrows don't touch Agents");

    // Body Left/Right no longer cycle tabs — they're no-ops so the
    // tab strip isn't an accidental target.
    let stream_before = app.stream;
    handle_key(&mut app, press(KeyCode::Right), now());
    assert_eq!(app.stream, stream_before);
}

#[test]
fn digit_keys_jump_tab_without_changing_focus() {
    let mut app = App::new();
    assert_eq!(app.focus, Focus::List);
    // `4` is Tokens (Agents=1, Messages=2, Tasks=3, Tokens=4).
    // Stream is hidden until a workspace is pinned, so `5` is
    // ignored on a cold start.
    handle_key(&mut app, press(KeyCode::Char('4')), now());
    assert_eq!(app.stream, StreamView::Tokens);
    assert_eq!(app.focus, Focus::List, "digit keys preserve current focus");
    handle_key(&mut app, press(KeyCode::Char('5')), now());
    assert_eq!(app.stream, StreamView::Tokens);

    // Once a workspace is pinned, the contextual Stream view
    // becomes visible as the 5th slot.
    app.streamed_workspace = Some("alpha".into());
    handle_key(&mut app, press(KeyCode::Char('5')), now());
    assert_eq!(app.stream, StreamView::Stream);
}

#[test]
fn esc_returns_from_body_to_agents() {
    let mut app = App::new();
    app.focus = Focus::Detail;
    handle_key(&mut app, press(KeyCode::Esc), now());
    assert_eq!(app.focus, Focus::List);
}

#[test]
fn mouse_wheel_routes_by_focus_and_tab() {
    let mut app = App::new();
    app.agent_entries = vec![
        AgentEntry {
            label: "alpha".into(),
            workspace: "alpha".into(),
            session_index: Some(0),
            level: 0,
            group: false,
            reconcile: String::new(),
        },
        AgentEntry {
            label: "beta".into(),
            workspace: "beta".into(),
            session_index: Some(1),
            level: 0,
            group: false,
            reconcile: String::new(),
        },
    ];
    app.selected_entry = 0;
    assert_eq!(app.focus, Focus::List);
    assert_eq!(app.stream, StreamView::Agents);

    // List + Agents: wheel-down advances the agent cursor.
    handle_scroll(&mut app, 1, now().utc);
    assert_eq!(app.selected_entry, 1);
    handle_scroll(&mut app, -1, now().utc);
    assert_eq!(app.selected_entry, 0);

    // List + Messages: populate a tail-selected cursor, then
    // wheel-up (direction=-1) walks one message older. The cursor
    // is an absolute index now, so direction feeds through
    // without inversion.
    app.stream = StreamView::Messages;
    app.messages = vec![mock_history(); 3];
    app.reconcile_message_cursor();
    assert_eq!(app.messages_cursor.index, 2, "tail-selected by default");
    handle_scroll(&mut app, -1, now().utc);
    assert_eq!(app.messages_cursor.index, 1);
    handle_scroll(&mut app, 1, now().utc);
    assert_eq!(app.messages_cursor.index, 2);

    // List + Tokens: wheel-down moves selection toward the last row.
    app.stream = StreamView::Tokens;
    app.usage_trends.insert("a".into(), mock_trend("a"));
    app.usage_trends.insert("b".into(), mock_trend("b"));
    handle_scroll(&mut app, 1, now().utc);
    assert_eq!(app.tokens_cursor.index, 1);

    // Detail focus routes the wheel to `detail_scroll` regardless
    // of which tab is active — a single shared cursor for every
    // detail pane.
    app.focus = Focus::Detail;
    app.stream = StreamView::Agents;
    handle_scroll(&mut app, 1, now().utc);
    assert_eq!(app.detail_scroll.index, 1);
    handle_scroll(&mut app, 1, now().utc);
    assert_eq!(app.detail_scroll.index, 2);
}

#[test]
fn question_mark_toggles_help_overlay() {
    let mut app = App::new();
    assert!(!app.help_open);
    handle_key(&mut app, press(KeyCode::Char('?')), now());
    assert!(app.help_open);
    // Arrow keys are swallowed while help is open so the panel
    // behind the overlay doesn't drift.
    app.agent_entries = vec![AgentEntry {
        label: "alpha".into(),
        workspace: "alpha".into(),
        session_index: Some(0),
        level: 0,
        group: false,
        reconcile: String::new(),
    }];
    app.selected_entry = 0;
    handle_key(&mut app, press(KeyCode::Down), now());
    assert_eq!(app.selected_entry, 0, "arrows swallowed under help");
    handle_key(&mut app, press(KeyCode::Char('?')), now());
    assert!(!app.help_open);
    handle_key(&mut app, press(KeyCode::Char('?')), now());
    assert!(app.help_open);
    handle_key(&mut app, press(KeyCode::Esc), now());
    assert!(!app.help_open, "esc also closes help");
}

#[test]
fn mouse_wheel_is_ignored_while_overlay_is_open() {
    let mut app = App::new();
    app.agent_entries = vec![AgentEntry {
        label: "alpha".into(),
        workspace: "alpha".into(),
        session_index: Some(0),
        level: 0,
        group: false,
        reconcile: String::new(),
    }];
    app.selected_entry = 0;
    handle_key(&mut app, press(KeyCode::Enter), now());
    assert!(app.quick_actions.open);
    let before = app.quick_actions.selected;
    handle_scroll(&mut app, 1, now().utc);
    assert_eq!(app.quick_actions.selected, before, "overlay swallows wheel");
}

#[test]
fn stream_keys_scroll_and_restore_follow_tail() {
    let mut app = App::new();
    app.stream = StreamView::Stream;
    app.streamed_workspace = Some("alpha".into());
    app.stream_cursor.index = 20;
    assert!(app.stream_follow_tail);

    handle_key(&mut app, press(KeyCode::Up), now());
    assert_eq!(app.stream_cursor.index, 19);
    assert!(!app.stream_follow_tail);

    handle_key(&mut app, press(KeyCode::Char('G')), now());
    assert!(app.stream_follow_tail);
    assert_eq!(app.stream_cursor.index, 0);
}

