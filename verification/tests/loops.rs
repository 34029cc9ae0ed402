use ax::config::{ProjectNode, WorkspaceRef};
use ax::keyed::TextMap;
use ax::mcp::memory_scope::needs_config;
use ax::mcp::team::tree_disables_root;
use ax::mcp::waiting::went_out;
use ax::proto::responses::InterveneTaskResponse;
use ax::proto::types::{
    team_overlay_is_empty, AgentStatus, Task, TaskStartMode, TaskStatus, TeamOverlay,
    WorkspaceInfo,
};
use ax::proto::usage::{Tokens, WorkspaceTrend};
use ax::time::Timestamp;
use ax::tmux::sessions::SessionInfo;
use ax::tui::actions::Notice;
use ax::tui::agents_view::{
    metric_cells, metric_source, metric_sources, token_cell, MetricSource,
};
use ax::tui::app::{
    build_desired_set, format_cancel_notice, format_intervention_notice, ConfigRead,
};
use ax::tui::frame_view::focus_border_style;
use ax::tui::state::{App, Focus, RefreshNoticeSource};
use ax::tui::tasks_view::build_detail_lines;
use ax::tui::theme::focus_border;
use ax::tui::tokens::AgentTokens;
use ax::tui::tokens_view::token_counts;

fn now() -> Timestamp {
    Timestamp::new(1_800_000_000, 0).unwrap()
}

fn session(name: &str) -> SessionInfo {
    SessionInfo {
        name: format!("ax-{name}"),
        workspace: name.into(),
        attached: false,
        windows: 1,
    }
}

fn info(name: &str, text: &str) -> WorkspaceInfo {
    WorkspaceInfo {
        name: name.into(),
        dir: String::new(),
        description: String::new(),
        status: AgentStatus::Online,
        status_text: text.into(),
        git_status: None,
        connected_at: None,
        last_activity_at: None,
        active_task_count: 0,
        current_task_id: None,
    }
}

fn project(prefix: &str, workspaces: Vec<&str>, children: Vec<ProjectNode>) -> ProjectNode {
    ProjectNode {
        name: "p".into(),
        alias: String::new(),
        prefix: prefix.into(),
        dir: String::new(),
        orchestrator_runtime: String::new(),
        disable_root_orchestrator: false,
        workspaces: workspaces
            .into_iter()
            .map(|name| WorkspaceRef {
                name: name.into(),
                merged_name: name.into(),
                runtime: String::new(),
                description: String::new(),
                instructions: String::new(),
            })
            .collect(),
        children,
    }
}

fn task(id: &str) -> Task {
    Task {
        id: id.into(),
        title: "task title".into(),
        description: String::new(),
        assignee: "alpha".into(),
        created_by: "orch".into(),
        parent_task_id: String::new(),
        child_task_ids: Vec::new(),
        version: 1,
        status: TaskStatus::Cancelled,
        start_mode: TaskStartMode::Default,
        workflow_mode: None,
        priority: None,
        stale_after_seconds: 0,
        dispatch_message: String::new(),
        dispatch_config_path: String::new(),
        dispatch_count: 0,
        attempt_count: 0,
        last_dispatch_at: None,
        last_attempt_at: None,
        next_retry_at: None,
        claimed_at: None,
        claimed_by: String::new(),
        claim_source: String::new(),
        result: String::new(),
        logs: Vec::new(),
        rollup: None,
        sequence: None,
        stale_info: None,
        removed_at: None,
        removed_by: String::new(),
        remove_reason: String::new(),
        created_at: now(),
        updated_at: now(),
    }
}

fn trend(name: &str, input: i64) -> WorkspaceTrend {
    WorkspaceTrend {
        workspace: name.into(),
        available: true,
        total: Tokens { input, output: 2, cache_read: 30, cache_creation: 400 },
        ..WorkspaceTrend::default()
    }
}

#[test]
fn sessions_stay_when_tmux_fails() {
    let mut app = App::new();
    app.take_sessions(Ok(vec![session("alpha")]));
    assert_eq!(app.sessions.len(), 1);
    app.take_sessions(Err("no server".into()));
    assert_eq!(app.sessions.len(), 1);
    let notice = app.notice.as_ref().unwrap();
    assert_eq!(notice.source, RefreshNoticeSource::Tmux);
    assert_eq!(notice.text, "tmux list-sessions: no server");
    app.take_sessions(Ok(vec![]));
    assert!(app.sessions.is_empty() && app.notice.is_none());
}

#[test]
fn workspaces_go_with_the_connection() {
    let mut app = App::new();
    app.take_workspaces(Some(Ok(vec![info("beta", "b"), info("alpha", "1"), info("alpha", "2")])));
    assert!(app.daemon_running);
    assert_eq!(app.workspace_infos.keys, ["alpha", "beta"]);
    assert_eq!(app.workspace_infos.get("alpha").unwrap().status_text, "2");
    app.take_workspaces(Some(Err("busy".into())));
    assert_eq!(app.workspace_infos.len(), 2);
    assert_eq!(app.notice.as_ref().unwrap().text, "daemon: busy");
    app.take_workspaces(None);
    assert!(!app.daemon_running && app.workspace_infos.is_empty());
}

#[test]
fn configuration_gives_desired_agents_and_directories() {
    let tree = || project("", vec!["alpha"], vec![project("team", vec!["team.worker"], vec![])]);
    let names = ["alpha", "orchestrator", "team.orchestrator", "team.worker"];
    let desired = build_desired_set(&tree(), true);
    assert_eq!(desired.keys, names);
    assert_eq!(desired.values, [true; 4]);
    assert!(build_desired_set(&tree(), false).is_empty());

    let mut dirs = TextMap::new();
    dirs.insert("alpha".to_owned(), "/p/alpha".to_owned());
    let mut app = App::new();
    app.take_config(Some(ConfigRead {
        tree: Some(tree()),
        reconfigure_enabled: true,
        workspace_dirs: dirs,
    }));
    assert_eq!(app.desired.keys, names);
    assert!(app.reconfigure_enabled && app.tree.is_some());

    assert!(app.usage_request(0).is_none());
    app.take_workspaces(Some(Ok(vec![])));
    let asked = app.usage_request(0).unwrap();
    assert_eq!((asked[0].workspace.as_str(), asked[0].cwd.as_str()), ("alpha", "/p/alpha"));

    app.take_usage(Ok(vec![trend("alpha", 1)]), 1000);
    assert_eq!(app.usage_trends.get("alpha").unwrap().total.input, 1);
    assert!(app.usage_request(5999).is_none());
    assert!(app.usage_request(6000).is_some());
    app.take_usage(Err("slow".into()), 6000);
    assert_eq!(app.notice.as_ref().unwrap().text, "usage_trends: slow");
    assert!(app.usage_request(6000).is_some());

    app.take_config(None);
    assert!(app.tree.is_none() && app.desired.is_empty() && app.workspace_dirs.is_empty());
    assert!(!app.reconfigure_enabled);
    assert!(!tree_disables_root(&tree()));
}

#[test]
fn data_is_asked_for_four_times_a_second() {
    let mut app = App::new();
    assert!(app.refresh_due(0));
    app.refreshed(1000);
    assert!(!app.refresh_due(1249));
    assert!(app.refresh_due(1250));
    app.put_force_refresh();
    assert!(app.refresh_due(1001));
}

#[test]
fn mirrored_terminal_is_captured_first() {
    let mut app = App::new();
    assert_eq!(app.capture_focus(), None);
    app.take_sessions(Ok(vec![session("alpha")]));
    app.rebuild_agents();
    assert_eq!(app.capture_focus().as_deref(), Some("alpha"));
    app.put_streamed("beta".into());
    assert_eq!(app.capture_focus().as_deref(), Some("beta"));
}

#[test]
fn notices_pass() {
    let mut app = App::new();
    app.put_notice(Some(Notice::new("hello".into(), false, 100)));
    app.expire_notice(3099);
    assert!(app.quick_notice.is_some());
    app.expire_notice(3100);
    assert!(app.quick_notice.is_none());
}

#[test]
fn task_actions_are_reported() {
    let mut app = App::new();
    app.finish_task_action(Ok("done".into()), 5);
    let notice = app.quick_notice.as_ref().unwrap();
    assert_eq!((notice.text.as_str(), notice.error), ("done", false));
    app.finish_task_action(Err("gone".into()), 5);
    let notice = app.quick_notice.as_ref().unwrap();
    assert_eq!((notice.text.as_str(), notice.error), ("task action failed: gone", true));

    let mut response = InterveneTaskResponse {
        task: task("0123456789abcdef"),
        action: "wake".into(),
        status: "queued".into(),
        message_id: String::new(),
    };
    assert_eq!(format_intervention_notice(&response), "wake task 01234567 · queued");
    response.message_id = "m-1".into();
    assert_eq!(
        format_intervention_notice(&response),
        "wake task 01234567 · queued · message queued"
    );
    assert_eq!(
        format_cancel_notice(&task("0123456789abcdef"), now()),
        "cancelled task 01234567 · cancelled"
    );
}

#[test]
fn new_task_closes_its_form() {
    let mut app = App::new();
    app.open_create_task_form();
    app.finish_task_create(Err("daemon error: no".into()), 7);
    let form = app.create_task_form.as_ref().unwrap();
    assert_eq!(form.error.as_deref(), Some("daemon error: no"));
    assert!(!form.submitting && app.quick_notice.is_none());
    app.finish_task_create(Ok("0123456789abcdef".into()), 7);
    assert!(app.create_task_form.is_none());
    assert_eq!(app.quick_notice.as_ref().unwrap().text, "created task 01234567");
}

#[test]
fn sent_message_closes_its_form() {
    let mut app = App::new();
    app.open_orchestrator_message_form();
    app.finish_orchestrator_message(Some("daemon error: no".into()), 7);
    let form = app.orchestrator_message_form.as_ref().unwrap();
    assert_eq!(form.error.as_deref(), Some("daemon error: no"));
    app.finish_orchestrator_message(None, 7);
    assert!(app.orchestrator_message_form.is_none());
    assert_eq!(app.quick_notice.as_ref().unwrap().text, "message sent to orchestrator");
}

#[test]
fn live_counts_go_before_added_up_ones() {
    let live = AgentTokens { up: "1k".into(), ..AgentTokens::default() };
    let added = trend("alpha", 1);
    assert!(matches!(
        metric_source(&live, Some(&added)),
        MetricSource::Live { up, cost, .. } if up == "1k" && cost == "-"
    ));
    assert!(matches!(
        metric_source(&AgentTokens::default(), Some(&added)),
        MetricSource::Trend { input: 1, output: 2, total: 431 }
    ));
    assert!(matches!(metric_source(&AgentTokens::default(), None), MetricSource::Absent));
    assert_eq!(token_cell("", '↑', "0"), "-");
    assert_eq!(token_cell("1k", '↑', "1.0k"), "↑1.0k");
    let counts = token_counts(&added);
    assert_eq!((counts.cache, counts.total), (430, 433));
}

#[test]
fn detail_of_a_task_is_cut_to_its_height() {
    let whole = build_detail_lines(&task("t-1"), &vec![], 60, usize::MAX, now());
    assert!(whole.len() > 2);
    let two = build_detail_lines(&task("t-1"), &vec![], 60, 2, now());
    assert_eq!(two.len(), 2);
    assert_eq!(two.lines[1].text(), whole.lines[1].text());
}

#[test]
fn half_in_focus_has_its_own_border() {
    let mut app = App::new();
    assert_eq!(focus_border_style(&app, Focus::Detail), focus_border(false));
    app.put_focus(Focus::Detail);
    assert_eq!(focus_border_style(&app, Focus::Detail), focus_border(true));
}

#[test]
fn only_the_project_scope_needs_the_configuration() {
    assert!(needs_config(" Project "));
    assert!(!needs_config("project:alpha"));
    assert!(!needs_config("workspace"));
}

#[test]
fn overlay_without_changes_is_empty() {
    let mut overlay = TeamOverlay {
        disable_root_orchestrator: None,
        added_workspaces: TextMap::new(),
        removed_workspaces: TextMap::new(),
        disabled_workspaces: TextMap::new(),
        added_children: TextMap::new(),
        removed_children: TextMap::new(),
        disabled_children: TextMap::new(),
    };
    assert!(team_overlay_is_empty(&overlay));
    overlay.removed_children.insert("a".to_owned(), false);
    assert!(!team_overlay_is_empty(&overlay));
}

#[test]
fn each_row_has_its_own_counts() {
    let mut app = App::new();
    app.take_sessions(Ok(vec![session("alpha"), session("beta"), session("gamma")]));
    app.rebuild_agents();
    app.captures.capture_into("alpha", "↑ 1.5k tokens ↓ 2k tokens · $0.42".into(), 0);
    app.take_usage(Ok(vec![trend("alpha", 5), trend("beta", 7)]), 0);
    let sources = metric_sources(&app);
    assert_eq!(sources.len(), 3);
    assert!(matches!(
        &sources[0],
        MetricSource::Live { up, down, cost } if up == "1.5k" && down == "2k" && cost == "$0.42"
    ));
    assert!(matches!(sources[1], MetricSource::Trend { input: 7, output: 2, total: 437 }));
    assert!(matches!(sources[2], MetricSource::Absent));
}

#[test]
fn cells_carry_arrows_and_sums() {
    let shown = |source: &MetricSource| {
        let cells = metric_cells(source, "1.5k", "2.0k", "3.5k");
        (cells.up, cells.down, cells.cost)
    };
    let texts = |up: &str, down: &str, cost: &str| (up.to_owned(), down.to_owned(), cost.to_owned());
    let live = MetricSource::Live { up: "1500".into(), down: String::new(), cost: "$0.42".into() };
    assert_eq!(shown(&live), texts("↑1.5k", "-", "$0.42"));
    let added = MetricSource::Trend { input: 1500, output: 2000, total: 3500 };
    assert_eq!(shown(&added), texts("↑1.5k", "↓2.0k", "Σ3.5k"));
    assert_eq!(shown(&MetricSource::Absent), texts("-", "-", "-"));
}

#[test]
fn a_message_without_identifier_did_not_go_out() {
    assert!(went_out("m-1"));
    assert!(!went_out(""));
}

#[test]
fn a_closed_menu_is_left_behind() {
    let mut app = App::new();
    assert!(!app.quick_actions.open && app.quick_actions.target_workspace.is_empty());
    let mut menu = app.take_menu();
    menu.open = true;
    menu.target_workspace = "alpha".into();
    menu.target_task_version = 3;
    app.put_menu(menu);
    let taken = app.take_menu();
    assert!(taken.open && taken.target_workspace == "alpha");
    assert!(!app.quick_actions.open && !app.quick_actions.confirm);
    assert!(app.quick_actions.target_workspace.is_empty());
    assert_eq!(app.quick_actions.target_task_version, 0);
}
