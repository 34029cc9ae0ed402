use ax::config::{ProjectNode, WorkspaceRef};
use ax::keyed::TextMap;
use ax::mcp::agents::{
    build_usage_trend_requests, instruction_preview, interrupt_failed, interrupt_sent, keys_failed,
    keys_sent, not_running, resolve_project_dir, usage_requests_from_config, AgentsConfig,
    ConfiguredAgent, UsageSources,
};
use ax::mcp::client::{
    request_outcome, DaemonClient, DaemonClientError, Delivery, Incoming, Waited,
};
use ax::mcp::errors::ErrorKind;
use ax::mcp::memory_scope::{
    normalize_scope, project_scope, resolve, resolve_many, workspace_scope, FoundConfig,
};
use ax::mcp::planner::{
    plan_initial_team, plan_team_reconfigure, ChildEntry, DirListing, SurveyedWorkspace,
};
use ax::mcp::requests::{
    AgentNameRequest, BroadcastRequest, ControlTaskRequest, CreateTaskRequest,
    GetSharedValueRequest, InspectAgentRequest, InterruptAgentRequest, InterveneTaskRequest,
    ListAgentsRequest, ListTasksRequest, ListWorkspaceTasksRequest, MemoryQueryRequest,
    ReadMessagesRequest, RememberMemoryRequest, ReportTaskBlockedRequest,
    ReportTaskCompletionRequest, ReportTaskFailedRequest, ReportTaskProgressRequest,
    RequestMessageRequest, SendKeysRequest, SendMessageRequest, SetSharedValueRequest,
    SetStatusRequest, StartTaskRequest, SupersedeMemoryRequest, TaskIdRequest,
    TeamChildSpecInput, TeamReconfigureChangeInput, TeamReconfigureRequest,
    TeamWorkspaceSpecInput, UpdateTaskRequest, UsageTrendsRequest,
};
use ax::mcp::server::{broadcast_sent, message_sent, read_out_messages, Server};
use ax::mcp::tasks::{
    parse_list_status, parse_update_status, status_rename, tasks_listed, TaskListing,
    WorkspaceView,
};
use ax::mcp::team::{
    convert_change, finalize_failed, finish_team, reconcile_action_kind, reconcile_failed,
    reconcile_limits, reconcile_path, team_actions_from_reconcile_report, team_outcome,
    ReconcileAction, ReconcileReport,
};
use ax::mcp::telemetry::{
    activity_payload, call_tool, call_tool_result_error_text, mcp_error_kind,
    sanitize_mcp_activity_field, McpErrorCode, TelemetrySink, ToolOutcome,
};
use ax::mcp::waiting::{
    inspection_suppressed, reply_timeout, request_suppressed, request_timed_out, send_failed,
    Inspection, ReplyWait, WaitStep, DEFAULT_INSPECT_QUESTION,
};
use ax::proto::envelope::MessageType;
use ax::proto::types::{
    AgentStatus, LifecycleAction, McpToolActivityStatus, Message, Task, TaskStartMode, TaskStatus,
    TeamApplyTicket, TeamChangeOp, TeamConfiguredState, TeamEntryKind, TeamOverlay,
    TeamReconcileMode, TeamReconfigurePlan, TeamReconfigureState, WorkspaceInfo,
};
use ax::time::Timestamp;

fn at(secs: i64) -> Timestamp {
    Timestamp::new(secs, 0).unwrap()
}

fn server(workspace: &str) -> Server {
    Server::new(DaemonClient::builder("/tmp/ax.sock".into(), workspace.into()).connected())
}

fn task(id: &str) -> Task {
    Task {
        id: id.into(),
        title: "t".into(),
        description: String::new(),
        assignee: "worker".into(),
        created_by: "orch".into(),
        parent_task_id: String::new(),
        child_task_ids: Vec::new(),
        version: 1,
        status: TaskStatus::Pending,
        start_mode: TaskStartMode::Default,
        workflow_mode: None,
        priority: None,
        stale_after_seconds: 0,
        dispatch_message: String::new(),
        dispatch_config_path: String::new(),
        dispatch_count: 0,
        attempt_count: 0,
        last_dispatch_at: None,
        last_attempt_at: None,
        next_retry_at: None,
        claimed_at: None,
        claimed_by: String::new(),
        claim_source: String::new(),
        result: String::new(),
        logs: Vec::new(),
        rollup: None,
        sequence: None,
        stale_info: None,
        removed_at: None,
        removed_by: String::new(),
        remove_reason: String::new(),
        created_at: at(0),
        updated_at: at(0),
    }
}

fn info(name: &str, dir: &str) -> WorkspaceInfo {
    WorkspaceInfo {
        name: name.into(),
        dir: dir.into(),
        description: String::new(),
        status: AgentStatus::Online,
        status_text: String::new(),
        git_status: None,
        connected_at: None,
        last_activity_at: None,
        active_task_count: 0,
        current_task_id: None,
    }
}

fn agent(dir: &str, description: &str, command: &str) -> ConfiguredAgent {
    ConfiguredAgent {
        dir: dir.into(),
        description: description.into(),
        agent: command.into(),
        runtime: "codex".into(),
        known_runtime: Some("codex".into()),
        instruction_file: Some("AGENTS.md".into()),
        instructions: String::new(),
    }
}

fn config() -> AgentsConfig {
    let mut workspaces = TextMap::new();
    workspaces.insert("alpha".into(), agent("/tmp/alpha", "cli workspace", ""));
    workspaces.insert("beta".into(), agent("/tmp/beta", "other workspace", "none"));
    workspaces.insert("worker".into(), agent("/tmp/worker", "reply target", "none"));
    AgentsConfig { project: "demo".into(), workspaces }
}

fn remember(content: &str, scope: Option<&str>) -> RememberMemoryRequest {
    RememberMemoryRequest {
        content: content.into(),
        scope: scope.map(|s| s.to_owned()),
        kind: None,
        subject: Some("api-key".into()),
        tags: vec!["ops".into(), "security".into()],
        supersedes_ids: vec![],
    }
}

fn query(scopes: Vec<&str>) -> MemoryQueryRequest {
    MemoryQueryRequest {
        scopes: scopes.into_iter().map(|s| s.to_owned()).collect(),
        kind: None,
        tags: vec![],
        include_superseded: false,
        limit: 10,
    }
}

#[test]
fn remember_and_recall_default_to_workspace_scope() {
    let orch = server("orch");
    let p = orch.remember_memory(remember("rotate monthly", None), &FoundConfig::Missing).unwrap();
    assert_eq!(p.scope, "workspace:orch");
    assert_eq!(p.subject, "api-key");
    let p = orch.list_memories(query(vec!["workspace"]), &FoundConfig::Missing).unwrap();
    assert_eq!(p.scopes, vec!["workspace:orch".to_owned()]);
}

#[test]
fn supersede_memory_requires_supersedes_ids() {
    let err = server("orch")
        .supersede_memory(
            SupersedeMemoryRequest {
                content: "new".into(),
                supersedes_ids: vec![],
                scope: None,
                kind: None,
                subject: None,
                tags: vec![],
            },
            &FoundConfig::Missing,
        )
        .unwrap_err();
    assert!(err.message.contains("supersedes_ids"));
    assert_eq!(err.kind, ErrorKind::InvalidParams);
}

#[test]
fn memory_scope_rejects_unknown_alias() {
    let err = server("orch")
        .remember_memory(remember("x", Some("nonsense")), &FoundConfig::Missing)
        .unwrap_err();
    assert!(err.message.contains("invalid memory scope"));
    assert!(err.message.contains("\"nonsense\""));
}

#[test]
fn a_project_scope_comes_from_the_tree() {
    let tree = ProjectNode {
        name: "root".into(),
        alias: String::new(),
        prefix: String::new(),
        dir: String::new(),
        orchestrator_runtime: String::new(),
        disable_root_orchestrator: false,
        workspaces: vec![],
        children: vec![ProjectNode {
            name: "team".into(),
            alias: String::new(),
            prefix: "team".into(),
            dir: String::new(),
            orchestrator_runtime: String::new(),
            disable_root_orchestrator: false,
            workspaces: vec![WorkspaceRef {
                name: "api".into(),
                merged_name: "team.api".into(),
                runtime: String::new(),
                description: String::new(),
                instructions: String::new(),
            }],
            children: vec![],
        }],
    };
    let found = FoundConfig::Loaded { path: "/c.yaml".into(), tree };
    assert_eq!(resolve("project", "team.api", &found).unwrap(), project_scope("team"));
    let lost = resolve("project", "ghost", &found).unwrap_err().text();
    assert!(lost.contains("ghost") && lost.contains("/c.yaml"));
    let missing = resolve("project", "team.api", &FoundConfig::Missing).unwrap_err().text();
    assert!(!missing.is_empty());
    let bad = FoundConfig::Unreadable { path: "/c.yaml".into(), error: "no yaml".into() };
    assert!(resolve("project", "team.api", &bad).unwrap_err().text().contains("no yaml"));
    let all = resolve_many(&vec![], "team.api", &found).unwrap();
    assert_eq!(all.len(), 3);
    let twice = vec!["global".to_owned(), "Global".to_owned()];
    assert_eq!(resolve_many(&twice, "team.api", &found).unwrap().len(), 1);
    assert_eq!(workspace_scope(" team.api "), "workspace:team.api");
    let once = normalize_scope(" Workspace:x ");
    assert_eq!(normalize_scope(&once), once);
}

#[test]
fn send_and_read_messages_roundtrip() {
    let orch = server("orch");
    let p = orch.send_message(&SendMessageRequest {
        to: "worker".into(),
        message: "please review PR".into(),
    });
    assert_eq!(p.to, "worker");
    assert_eq!(p.message, "please review PR");
    assert!(message_sent("worker", "m-1").starts_with("Message sent to \"worker\" (id:"));

    let got = vec![Message {
        id: "m-1".into(),
        from: "orch".into(),
        to: "worker".into(),
        content: "please review PR".into(),
        task_id: String::new(),
        created_at: at(3661),
    }];
    let body = read_out_messages(&got);
    assert!(body.contains("1 message(s):"), "body: {body}");
    assert!(body.contains("From: orch"));
    assert!(body.contains("Time: 01:01:01"));
    assert!(body.contains("please review PR"));
    assert!(read_out_messages(&vec![]).contains("No pending messages."));
    let p = orch.read_messages(ReadMessagesRequest { limit: None, from: None });
    assert_eq!(p.limit, 10);
    assert_eq!(p.from, "");
}

#[test]
fn broadcast_reports_recipient_names() {
    let body = broadcast_sent(&vec!["a".to_owned(), "b".to_owned()]);
    assert_eq!(body, "Broadcast sent to 2 workspace(s): a, b");
    let p = server("orch")
        .with_config_path("/c.yaml".into())
        .broadcast_message(BroadcastRequest { message: "rollout today".into() });
    assert_eq!(p.message, "rollout today");
    assert_eq!(p.config_path, "/c.yaml");
}

#[test]
fn broadcast_returns_no_recipients_message_when_alone() {
    assert!(broadcast_sent(&vec![]).contains("No other workspaces"));
}

#[test]
fn shared_values_are_passed_on_as_they_are() {
    let orch = server("orch");
    let p = orch.set_shared_value(SetSharedValueRequest {
        key: "endpoint".into(),
        value: "https://api.example.com".into(),
    });
    assert_eq!(p.key, "endpoint");
    assert_eq!(p.value, "https://api.example.com");
    assert_eq!(orch.get_shared_value(GetSharedValueRequest { key: "k".into() }).key, "k");
    assert_eq!(orch.set_status(SetStatusRequest { status: "coordinating".into() }).status, "coordinating");
}

fn file(name: &str) -> ChildEntry {
    ChildEntry { name: name.into(), is_file: true }
}

fn role_project() -> Vec<DirListing> {
    vec![
        DirListing { name: "frontend".into(), is_dir: true, children: vec![file("package.json")] },
        DirListing { name: "backend".into(), is_dir: true, children: vec![file("go.mod")] },
        DirListing { name: "infra".into(), is_dir: true, children: vec![file("main.tf")] },
        DirListing { name: "README.md".into(), is_dir: false, children: vec![] },
    ]
}

#[test]
fn plan_initial_team_returns_axis_and_toplevel_dirs() {
    let dir = resolve_project_dir(Some("/work/project"), None, "/cwd").unwrap();
    let plan =
        plan_initial_team(&dir, &role_project(), Some("# demo\n\nWeb stack split by layer.\n"));
    assert_eq!(plan.suggested_axis, "role");
    let names: Vec<_> = plan.toplevel_dirs.iter().map(|d| d.name.clone()).collect();
    assert!(names.contains(&"frontend".to_owned()));
    assert!(names.contains(&"backend".to_owned()));
    assert!(names.contains(&"infra".to_owned()));
}

#[test]
fn plan_team_reconfigure_surfaces_orphans_and_empty_workspaces() {
    let config = "# axis: role\n# rationale: layer split.\nproject: demo\nworkspaces:\n  frontend:\n    dir: ./frontend\n    description: UI layer\n    runtime: codex\n  stale_removed:\n    dir: ./gone\n    description: removed long ago\n    runtime: codex\n";
    let workspaces = vec![
        SurveyedWorkspace {
            name: "frontend".into(),
            dir: "./frontend".into(),
            description: "UI layer".into(),
            exists: true,
            entries: vec!["package.json".into()],
        },
        SurveyedWorkspace {
            name: "stale_removed".into(),
            dir: "./gone".into(),
            description: "removed long ago".into(),
            exists: false,
            entries: vec![],
        },
    ];
    let plan = plan_team_reconfigure("/work/project", config, &workspaces, &role_project());
    assert_eq!(plan.current_axis.as_deref(), Some("role"));
    assert!(plan.orphan_dirs.contains(&"backend".to_owned()));
    assert!(plan.orphan_dirs.contains(&"infra".to_owned()));
    assert!(plan.empty_workspaces.contains(&"stale_removed".to_owned()));
}

#[test]
fn a_project_is_named_absolutely_or_not_at_all() {
    let err = resolve_project_dir(Some("rel/path"), Some("/root"), "/cwd").unwrap_err();
    assert_eq!(err, "project_dir must be absolute, got \"rel/path\"");
    assert_eq!(resolve_project_dir(None, Some("/root"), "/cwd").unwrap(), "/root");
    assert_eq!(resolve_project_dir(None, None, "/cwd").unwrap(), "/cwd");
}

fn create(priority: Option<&str>) -> CreateTaskRequest {
    CreateTaskRequest {
        title: "fix flaky test".into(),
        description: Some("investigate the retry logic".into()),
        assignee: "worker".into(),
        parent_task_id: None,
        start_mode: None,
        workflow_mode: None,
        priority: priority.map(|s| s.to_owned()),
        stale_after_seconds: None,
    }
}

fn update(status: Option<&str>, log: Option<&str>) -> UpdateTaskRequest {
    UpdateTaskRequest {
        id: "t-1".into(),
        status: status.map(|s| s.to_owned()),
        result: None,
        log: log.map(|s| s.to_owned()),
        confirm: None,
    }
}

fn no_filter() -> ListTasksRequest {
    ListTasksRequest { assignee: None, created_by: None, status: None }
}

#[test]
fn create_get_update_and_list_cycle() {
    let orch = server("orch");
    let p = orch.create_task(create(Some("high"))).unwrap();
    assert_eq!(p.title, "fix flaky test");
    assert_eq!(p.description, "investigate the retry logic");
    assert_eq!(p.assignee, "worker");
    assert_eq!(p.priority, "high");
    assert_eq!(orch.get_task(TaskIdRequest { id: "t-1".into() }).id, "t-1");
    let p = orch.update_task(update(Some("in_progress"), Some("starting"))).unwrap();
    assert_eq!(p.status, Some(TaskStatus::InProgress));
    assert_eq!(p.log.as_deref(), Some("starting"));
    let p = orch
        .list_tasks(ListTasksRequest {
            assignee: Some("worker".into()),
            created_by: None,
            status: None,
        })
        .unwrap();
    assert_eq!(p.assignee, "worker");
    assert!(p.status.is_none());
    match tasks_listed(vec![task("t-1")]) {
        TaskListing::Tasks(block) => assert_eq!(block.count, 1),
        TaskListing::Nothing(text) => panic!("{text}"),
    }
}

#[test]
fn list_tasks_returns_no_tasks_friendly_when_empty() {
    assert!(server("orch").list_tasks(no_filter()).is_ok());
    match tasks_listed(vec![]) {
        TaskListing::Nothing(text) => assert!(text.contains("No tasks found.")),
        TaskListing::Tasks(_) => panic!("nothing was found"),
    }
}

#[test]
fn list_workspace_tasks_both_view_aggregates_assigned_and_created() {
    let query = server("orch")
        .list_workspace_tasks(&ListWorkspaceTasksRequest {
            workspace: "worker".into(),
            view: None,
            status: None,
        })
        .unwrap();
    assert_eq!(query.view, WorkspaceView::Both);
    let (assigned, created) = query.requests();
    assert_eq!(assigned.unwrap().assignee, "worker");
    assert_eq!(created.unwrap().created_by, "worker");
    let body = query.answer(Some(vec![task("t1")]), Some(vec![task("t2")]));
    assert_eq!(body.view, "both");
    assert_eq!(body.unique_task_count, 2);
    assert_eq!(body.assigned.unwrap().count, 1);
    assert_eq!(body.created.unwrap().count, 1);
}

#[test]
fn a_task_in_both_lists_counts_once() {
    let query = server("orch")
        .list_workspace_tasks(&ListWorkspaceTasksRequest {
            workspace: " worker ".into(),
            view: Some("assigned".into()),
            status: Some("failed".into()),
        })
        .unwrap();
    let (assigned, created) = query.requests();
    assert!(assigned.is_some() && created.is_none());
    let body = query.answer(Some(vec![task("a"), task("b"), task("a")]), None);
    assert_eq!(body.unique_task_count, 2);
    assert_eq!(body.workspace, "worker");
    assert_eq!(body.status.as_deref(), Some("failed"));
    assert!(body.created.is_none());
}

#[test]
fn cancel_and_remove_task_flow() {
    let orch = server("orch");
    let p = orch.cancel_task(ControlTaskRequest {
        id: "t-1".into(),
        reason: Some("scope cut".into()),
        expected_version: Some(3),
    });
    assert_eq!(p.reason, "scope cut");
    assert_eq!(p.expected_version, Some(3));
    let p = orch.remove_task(ControlTaskRequest {
        id: "t-1".into(),
        reason: None,
        expected_version: None,
    });
    assert_eq!(p.id, "t-1");
    assert_eq!(p.reason, "");
    let p = orch.intervene_task(InterveneTaskRequest {
        id: "t-1".into(),
        action: "wake".into(),
        note: None,
        expected_version: None,
    });
    assert_eq!(p.action, "wake");
}

#[test]
fn update_task_rejects_unknown_status_value() {
    let err = server("orch").update_task(update(Some("nope"), None)).unwrap_err();
    assert!(err.message.contains("invalid status"));
    assert!(err.message.contains("\"nope\""));
    assert!(parse_update_status("cancelled").is_err());
    assert_eq!(parse_list_status(Some(" cancelled ")).unwrap(), Some(TaskStatus::Cancelled));
    assert_eq!(parse_list_status(Some("")).unwrap(), None);
    assert_eq!(parse_list_status(Some("x")).unwrap_err(), "invalid status filter \"x\"");
    assert_eq!(status_rename(TaskStatus::InProgress), "in_progress");
}

#[test]
fn list_workspace_tasks_rejects_invalid_view() {
    let orch = server("orch");
    let err = orch
        .list_workspace_tasks(&ListWorkspaceTasksRequest {
            workspace: "worker".into(),
            view: Some("random".into()),
            status: None,
        })
        .unwrap_err();
    assert!(err.message.contains("invalid view"));
    let err = orch
        .list_workspace_tasks(&ListWorkspaceTasksRequest {
            workspace: "  ".into(),
            view: None,
            status: None,
        })
        .unwrap_err();
    assert_eq!(err.message, "workspace is required");
}

#[test]
fn task_options_are_looked_at_one_after_the_other() {
    let orch = server("orch");
    let bad = |start: &str, flow: &str, priority: &str, stale: i64| StartTaskRequest {
        title: "go".into(),
        message: "please do the thing".into(),
        description: None,
        assignee: "worker".into(),
        parent_task_id: None,
        start_mode: Some(start.into()),
        workflow_mode: Some(flow.into()),
        priority: Some(priority.into()),
        stale_after_seconds: Some(stale),
    };
    let message = |req: StartTaskRequest| orch.start_task(req).unwrap_err().message;
    assert_eq!(message(bad("x", "x", "x", -1)), "stale_after_seconds must be >= 0");
    assert_eq!(message(bad("x", "x", "x", 0)), "invalid start_mode \"x\" (must be default or fresh)");
    assert_eq!(
        message(bad("fresh", "x", "x", 0)),
        "invalid workflow_mode \"x\" (must be parallel or serial)"
    );
    assert_eq!(
        message(bad("", "serial", "x", 0)),
        "invalid priority \"x\" (must be low, normal, high, or urgent)"
    );
    let p = orch.start_task(bad("default", "parallel", "urgent", 5)).unwrap();
    assert_eq!(p.message, "please do the thing");
    assert_eq!(p.stale_after_seconds, 5);
}

#[test]
fn start_task_queues_dispatch_message() {
    let p = server("orch")
        .start_task(StartTaskRequest {
            title: "go".into(),
            message: "please do the thing".into(),
            description: None,
            assignee: "worker".into(),
            parent_task_id: None,
            start_mode: None,
            workflow_mode: None,
            priority: None,
            stale_after_seconds: None,
        })
        .unwrap();
    assert_eq!(p.assignee, "worker");
    assert_eq!(p.title, "go");
    assert_eq!(p.message, "please do the thing");
}

#[test]
fn report_task_failed_transitions_and_notifies_creator() {
    let p = server("worker")
        .report_task_failed(ReportTaskFailedRequest {
            id: "t-1".into(),
            reason: "upstream API returned 503 repeatedly".into(),
        })
        .unwrap();
    assert_eq!(p.status, Some(TaskStatus::Failed));
    assert!(p.result.unwrap().contains("503"));
}

#[test]
fn report_task_failed_rejects_empty_reason() {
    let err = server("worker")
        .report_task_failed(ReportTaskFailedRequest {
            id: "t-anything".into(),
            reason: "   ".into(),
        })
        .unwrap_err();
    assert!(err.message.contains("reason"));
}

#[test]
fn report_task_blocked_transitions_and_notifies_creator() {
    let worker = server("worker");
    let req = ReportTaskBlockedRequest {
        id: "t-1".into(),
        reason: "missing auth credential".into(),
        needs_help_from: None,
    };
    let p = worker.report_task_blocked(&req).unwrap();
    assert_eq!(p.status, Some(TaskStatus::Blocked));
    assert!(worker.help_request(&req).is_none());
}

#[test]
fn report_task_blocked_sends_help_request_to_named_peer() {
    let req = ReportTaskBlockedRequest {
        id: "t-1".into(),
        reason: "need the latest API spec".into(),
        needs_help_from: Some("helper".into()),
    };
    let body = server("worker").help_request(&req).unwrap();
    assert_eq!(body.to, "helper");
    assert!(body.message.contains("[task-blocked-help]"));
    assert!(body.message.contains("need the latest API spec"));
}

#[test]
fn report_task_blocked_rejects_empty_reason() {
    let err = server("worker")
        .report_task_blocked(&ReportTaskBlockedRequest {
            id: "t-anything".into(),
            reason: "   ".into(),
            needs_help_from: None,
        })
        .unwrap_err();
    assert!(err.message.contains("reason"));
}

#[test]
fn report_task_progress_promotes_pending_to_in_progress() {
    let p = server("worker")
        .report_task_progress(ReportTaskProgressRequest {
            id: "t-1".into(),
            note: "reading source files".into(),
        })
        .unwrap();
    assert_eq!(p.status, Some(TaskStatus::InProgress));
    assert!(p.log.unwrap().contains("reading source files"));
}

#[test]
fn report_task_progress_rejects_empty_note() {
    let err = server("worker")
        .report_task_progress(ReportTaskProgressRequest {
            id: "t-anything".into(),
            note: "   ".into(),
        })
        .unwrap_err();
    assert!(err.message.contains("note"));
}

fn completion(summary: &str, dirty: Vec<&str>, residual: Option<&str>) -> ReportTaskCompletionRequest {
    ReportTaskCompletionRequest {
        id: "t-1".into(),
        summary: summary.into(),
        dirty_files: dirty.into_iter().map(|s| s.to_owned()).collect(),
        residual_scope: residual.map(|s| s.to_owned()),
    }
}

#[test]
fn report_task_completion_marks_completed_when_clean() {
    let p = server("worker")
        .report_task_completion(completion("shipped feature X and added tests", vec![], None))
        .unwrap();
    assert_eq!(p.status, Some(TaskStatus::Completed));
    assert_eq!(p.confirm, Some(true));
    assert_eq!(
        p.result.unwrap(),
        "shipped feature X and added tests\n\nremaining owned dirty files=<none>"
    );
}

#[test]
fn report_task_completion_rejects_dirty_files_without_residual_scope() {
    let err = server("worker")
        .report_task_completion(completion("partial work", vec!["src/foo.rs"], None))
        .unwrap_err();
    assert!(err.message.contains("residual_scope"));
    let err = server("worker").report_task_completion(completion(" ", vec![], None)).unwrap_err();
    assert_eq!(err.message, "summary is required");
}

#[test]
fn report_task_completion_packages_residual_scope_into_marker() {
    let p = server("worker")
        .report_task_completion(completion(
            "shipped phase 1",
            vec!["src/foo.rs", "  ", "src/bar.rs"],
            Some("phase 2 integration pending"),
        ))
        .unwrap();
    let result = p.result.unwrap();
    assert!(result.contains("remaining owned dirty files=src/foo.rs, src/bar.rs"));
    assert!(result.contains("residual scope=phase 2 integration pending"));
}

fn usage(workspace: Option<&str>) -> UsageTrendsRequest {
    UsageTrendsRequest {
        workspace: workspace.map(|s| s.to_owned()),
        since_minutes: None,
        bucket_minutes: Some(0),
    }
}

#[test]
fn get_usage_trends_lists_active_workspaces_with_defaults() {
    let query = server("orch").get_usage_trends(&usage(None));
    assert_eq!(query.since_minutes, 180);
    assert_eq!(query.bucket_minutes, 5);
    let active = vec![
        info("orch", "/tmp/orch"),
        info("alpha", " /tmp/alpha "),
        info("alpha", "/tmp/other"),
        info("blank", "  "),
    ];
    match build_usage_trend_requests(&active, &query.workspace) {
        UsageSources::Known(sources) => {
            let got: Vec<_> =
                sources.iter().map(|s| (s.workspace.as_str(), s.cwd.as_str())).collect();
            assert_eq!(got, vec![("alpha", "/tmp/alpha"), ("orch", "/tmp/orch")]);
            let p = query.payload(sources);
            assert_eq!(p.workspaces.len(), 2);
        }
        UsageSources::AskConfig => panic!("the registry knows"),
    }
}

#[test]
fn get_usage_trends_falls_back_to_config_for_inactive_workspace() {
    let query = server("orch").get_usage_trends(&usage(Some(" beta ")));
    assert_eq!(query.workspace, "beta");
    assert!(matches!(
        build_usage_trend_requests(&vec![info("orch", "/tmp/orch")], "beta"),
        UsageSources::AskConfig
    ));
    let sources = usage_requests_from_config("beta", &config(), "/c.yaml").unwrap();
    assert_eq!(sources[0].cwd, "/tmp/beta");
}

#[test]
fn get_usage_trends_errors_for_unknown_workspace() {
    let err = usage_requests_from_config("ghost", &config(), "/c.yaml").unwrap_err();
    assert_eq!(err, "workspace \"ghost\" not found in active registry or /c.yaml");
}

fn inspect(name: &str, question: Option<&str>, timeout: Option<i64>) -> InspectAgentRequest {
    InspectAgentRequest {
        name: name.into(),
        question: question.map(|s| s.to_owned()),
        timeout,
    }
}

#[test]
fn inspect_agent_rejects_unknown_name() {
    let err = server("orch")
        .inspect_agent(&inspect("ghost", None, None), &config(), "/c.yaml", &vec![])
        .unwrap_err();
    assert!(err.message.contains("ghost"));
    assert_eq!(err.kind, ErrorKind::InvalidParams);
}

#[test]
fn inspect_agent_fails_fast_when_target_not_registered() {
    let got = server("orch")
        .inspect_agent(
            &inspect("worker", Some("are you alive?"), Some(60)),
            &config(),
            "/c.yaml",
            &vec![info("orch", "/tmp/orch")],
        )
        .unwrap();
    match got {
        Inspection::Absent(why) => assert!(why.contains("not currently registered")),
        Inspection::Ask { .. } => panic!("nobody is there"),
    }
}

#[test]
fn inspect_agent_timeout_returns_tool_error_result() {
    let got = server("orch")
        .inspect_agent(
            &inspect("worker", Some("status?"), Some(1)),
            &config(),
            "/c.yaml",
            &vec![info("worker", "/tmp/worker")],
        )
        .unwrap();
    match got {
        Inspection::Ask { inquiry, question, description } => {
            assert_eq!(question, "status?");
            assert_eq!(description, "reply target");
            assert!(inquiry.message.message.starts_with("status?\n\n[ax] "));
            assert!(inquiry.message.message.contains("send_message(to=\"orch\")"));
            let wait = ReplyWait::start("worker", inquiry.timeout, 5000);
            assert!(matches!(wait.look(5999), WaitStep::Read(p) if p.limit == 10));
            match wait.look(6000) {
                WaitStep::GaveUp(why) => {
                    assert_eq!(why, "Timeout: no reply from \"worker\" within 1s")
                }
                other => panic!("{other:?}"),
            }
        }
        Inspection::Absent(why) => panic!("{why}"),
    }
    assert!(inspection_suppressed("worker").contains("duplicate"));
    assert_eq!(send_failed("gone"), "Failed to send message: gone");
}

#[test]
fn an_agent_is_asked_something_even_without_a_question() {
    let got = server("orch")
        .inspect_agent(
            &inspect("worker", Some("  "), None),
            &config(),
            "/c.yaml",
            &vec![info("worker", "/tmp/worker")],
        )
        .unwrap();
    match got {
        Inspection::Ask { inquiry, question, .. } => {
            assert_eq!(question, DEFAULT_INSPECT_QUESTION);
            assert_eq!(inquiry.timeout, 120);
        }
        Inspection::Absent(why) => panic!("{why}"),
    }
    assert_eq!(reply_timeout(Some(-5)), 1);
}

#[test]
fn request_message_timeout_includes_target_last_activity_hint() {
    let mut worker = info("worker", "/tmp/worker");
    worker.last_activity_at = Some(at(1_700_000_000));
    let text = request_timed_out("Timeout: no reply", "worker", &vec![worker]);
    assert!(text.to_lowercase().contains("timeout"));
    assert!(text.contains("target last active at"));
    assert!(text.ends_with("2023-11-14T22:13:20+00:00"));
}

#[test]
fn request_message_timeout_flags_unregistered_target() {
    let text = request_timed_out("Timeout: no reply", "worker", &vec![]);
    assert!(text.contains("not currently registered"));
}

#[test]
fn request_message_times_out_when_reply_never_arrives() {
    let inquiry = server("orch").request_message(
        &RequestMessageRequest {
            to: "worker".into(),
            message: "please review PR".into(),
            timeout: Some(1),
        },
        "/c.yaml",
    );
    assert!(inquiry.message.message.starts_with("please review PR\n\n[ax/request] "));
    assert_eq!(inquiry.message.config_path, "/c.yaml");
    let wait = ReplyWait::start("worker", inquiry.timeout, 0);
    assert!(matches!(wait.found(&vec![]), WaitStep::Sleep(3000)));
    match wait.look(1000) {
        WaitStep::GaveUp(why) => assert!(why.to_lowercase().contains("timeout")),
        other => panic!("{other:?}"),
    }
    assert!(request_suppressed("worker").contains("\"worker\""));
}

#[test]
fn a_reply_is_all_that_was_said() {
    let say = |content: &str| Message {
        id: String::new(),
        from: "worker".into(),
        to: "orch".into(),
        content: content.into(),
        task_id: String::new(),
        created_at: at(0),
    };
    let wait = ReplyWait::start("worker", 5, 0);
    match wait.found(&vec![say(" one"), say("two ")]) {
        WaitStep::Answered(text) => assert_eq!(text, "one\ntwo"),
        other => panic!("{other:?}"),
    }
    assert!(matches!(wait.unreadable("x"), WaitStep::Failed(why) if why == "read_messages: x"));
}

#[test]
fn agents_are_listed_by_name_with_what_is_known() {
    let mut cfg = config();
    let mut custom = agent("/tmp/gamma", "", "my-agent --fast");
    custom.instructions = "  one two\nthree ".into();
    cfg.workspaces.insert("gamma".into(), custom);
    let mut alpha = info("alpha", "/tmp/alpha");
    alpha.status_text = "Busy Bee".into();
    alpha.connected_at = Some(at(0));
    let list = |query: Option<&str>, active_only: bool| {
        server("orch").list_agents(
            &ListAgentsRequest { query: query.map(|s| s.to_owned()), active_only },
            &cfg,
            "/c.yaml",
            &vec![alpha.clone()],
            &vec!["alpha".to_owned()],
        )
    };
    let all = list(None, false);
    let names: Vec<_> = all.agents.iter().map(|a| a.name.as_str()).collect();
    assert_eq!(names, vec!["alpha", "beta", "gamma", "worker"]);
    assert_eq!(all.agent_count, 4);
    assert_eq!(all.active_count, 1);
    assert_eq!(all.project, "demo");
    let a = &all.agents[0];
    assert_eq!(a.launch_mode, "runtime");
    assert_eq!(a.runtime.as_deref(), Some("codex"));
    assert_eq!(a.state, "idle");
    assert_eq!(a.status, Some("online"));
    assert_eq!(a.connected_at.as_deref(), Some("1970-01-01T00:00:00+00:00"));
    assert_eq!(a.instruction_file.as_deref(), Some("AGENTS.md"));
    assert_eq!(all.agents[1].launch_mode, "manual");
    assert_eq!(all.agents[1].state, "offline");
    assert_eq!(all.agents[2].launch_mode, "custom");
    assert_eq!(all.agents[2].command.as_deref(), Some("my-agent --fast"));
    assert_eq!(all.agents[2].instructions_preview.as_deref(), Some("one two three"));
    assert_eq!(list(None, true).agent_count, 1);
    assert_eq!(list(Some(" MY-AGENT "), false).agents[0].name, "gamma");
    assert_eq!(list(Some("two three"), false).agents[0].name, "gamma");
    for unsearched in ["busy", "/tmp", "idle"] {
        assert_eq!(list(Some(unsearched), false).agent_count, 0);
    }
    assert_eq!(list(Some("reply"), false).agents[0].name, "worker");
    assert_eq!(list(Some("nothing like it"), false).agent_count, 0);
}

#[test]
fn a_preview_stops_after_two_dozen_words() {
    let long: Vec<String> = (0..30).map(|i| format!("w{i}")).collect();
    let preview = instruction_preview(&long.join(" "));
    assert!(preview.ends_with("w23"));
    assert_eq!(preview.split(' ').count(), 24);
}

#[test]
fn agents_are_steered_by_name() {
    let orch = server("orch");
    let name = || AgentNameRequest { name: "alpha".into() };
    assert_eq!(orch.start_agent(name(), "/c").action, LifecycleAction::Start);
    assert_eq!(orch.stop_agent(name(), "/c").action, LifecycleAction::Stop);
    let p = orch.restart_agent(name(), "/c");
    assert_eq!(p.action, LifecycleAction::Restart);
    assert_eq!(p.config_path, "/c");
    let err = orch.interrupt_agent(&InterruptAgentRequest { name: " ".into() }).unwrap_err();
    assert_eq!(err.message, "name is required");
    assert_eq!(orch.interrupt_agent(&InterruptAgentRequest { name: " a ".into() }).unwrap(), "a");
    assert_eq!(not_running("a").message, "Workspace \"a\" is not running");
    assert_eq!(interrupt_failed("a", "e").message, "Failed to interrupt \"a\": e");
    assert_eq!(interrupt_sent("a"), "Interrupt sent to \"a\"");
    let keys = |ws: &str, keys: Vec<&str>| SendKeysRequest {
        workspace: ws.into(),
        keys: keys.into_iter().map(|s| s.to_owned()).collect(),
    };
    assert_eq!(orch.send_keys(&keys("", vec!["1"])).unwrap_err().message, "workspace is required");
    assert_eq!(
        orch.send_keys(&keys("a", vec![])).unwrap_err().message,
        "keys must contain at least one entry"
    );
    assert_eq!(orch.send_keys(&keys(" a", vec!["2", "Enter"])).unwrap(), "a");
    assert_eq!(
        keys_sent("a", &vec!["2".to_owned(), "Enter".to_owned()]),
        "Sent 2 key(s) to \"a\": 2 Enter"
    );
    assert_eq!(keys_failed("a", "e").message, "Failed to send keys to \"a\": e");
    assert_eq!(orch.resolve_tool_config_path("/b".into(), Some((true, "/e"))), "/e");
    assert_eq!(orch.resolve_tool_config_path("/b".into(), Some((true, " "))), "/b");
    assert_eq!(orch.resolve_tool_config_path("/b".into(), Some((false, "/e"))), "/b");
    assert_eq!(orch.resolve_tool_config_path("/b".into(), None), "/b");
}

fn change(op: &str, kind: &str) -> TeamReconfigureChangeInput {
    TeamReconfigureChangeInput {
        op: op.into(),
        kind: kind.into(),
        name: Some("api".into()),
        workspace: Some(TeamWorkspaceSpecInput {
            dir: "./api".into(),
            description: Some("API".into()),
            shell: None,
            runtime: None,
            codex_model_reasoning_effort: None,
            agent: None,
            instructions: None,
            env: None,
        }),
        child: Some(TeamChildSpecInput { dir: "./sub".into(), prefix: None }),
    }
}

fn team(changes: Vec<TeamReconfigureChangeInput>, mode: Option<&str>) -> TeamReconfigureRequest {
    TeamReconfigureRequest {
        expected_revision: Some(4),
        changes,
        reconcile_mode: mode.map(|s| s.to_owned()),
    }
}

#[test]
fn a_change_of_the_team_is_checked_before_it_is_sent() {
    let orch = server("orch").with_config_path("/c.yaml".into());
    let err = orch.apply_team_reconfigure(team(vec![], None), None).unwrap_err();
    assert_eq!(err.message, "changes must contain at least one entry");
    let err = orch
        .apply_team_reconfigure(team(vec![change("add", "workspace")], Some("often")), None)
        .unwrap_err();
    assert_eq!(
        err.message,
        "invalid reconcile_mode \"often\" (must be artifacts_only or start_missing)"
    );
    let err = orch
        .dry_run_team_reconfigure(team(vec![change("add", "workspace"), change("move", "x")], None), None)
        .unwrap_err();
    assert_eq!(err.message, "invalid change op \"move\"");
    assert_eq!(convert_change(change("add", "x")).unwrap_err(), "invalid change kind \"x\"");
    let p = orch
        .apply_team_reconfigure(team(vec![change(" add ", "workspace")], None), None)
        .unwrap();
    assert_eq!(p.config_path, "/c.yaml");
    assert_eq!(p.expected_revision, Some(4));
    assert_eq!(p.reconcile_mode, Some(TeamReconcileMode::ArtifactsOnly));
    assert_eq!(p.changes[0].op, TeamChangeOp::Add);
    assert_eq!(p.changes[0].kind, TeamEntryKind::Workspace);
    assert_eq!(p.changes[0].workspace.as_ref().unwrap().description, "API");
    assert_eq!(p.changes[0].workspace.as_ref().unwrap().shell, "");
    assert_eq!(p.changes[0].child.as_ref().unwrap().dir, "./sub");
    let p = orch
        .dry_run_team_reconfigure(team(vec![change("remove", "child")], Some("x")), None)
        .unwrap();
    assert!(p.reconcile_mode.is_none());
    let nowhere = server("orch").get_team_state(None).unwrap_err();
    assert_eq!(nowhere.message, "ax config file not found");
    assert_eq!(nowhere.kind, ErrorKind::Internal);
    assert_eq!(server("orch").get_team_state(Some("/f.yaml")).unwrap().config_path, "/f.yaml");
}

fn ticket(effective: &str, base: &str) -> TeamApplyTicket {
    TeamApplyTicket {
        token: "tok".into(),
        plan: TeamReconfigurePlan {
            state: TeamReconfigureState {
                team_id: String::new(),
                base_config_path: base.into(),
                effective_config_path: effective.into(),
                feature_enabled: true,
                revision: 1,
                overlay: TeamOverlay {
                    disable_root_orchestrator: None,
                    added_workspaces: TextMap::new(),
                    removed_workspaces: TextMap::new(),
                    disabled_workspaces: TextMap::new(),
                    added_children: TextMap::new(),
                    removed_children: TextMap::new(),
                    disabled_children: TextMap::new(),
                },
                desired: TeamConfiguredState {
                    root_orchestrator_enabled: true,
                    workspaces: vec![],
                    children: vec![],
                    orchestrators: vec![],
                },
                last_apply: None,
            },
            expected_revision: 1,
            changes: vec![],
            actions: vec![],
            warnings: vec![],
        },
        reconcile_mode: TeamReconcileMode::StartMissing,
    }
}

#[test]
fn what_was_done_to_the_team_is_reported() {
    let report = ReconcileReport {
        actions: vec![
            ReconcileAction {
                kind: " workspace ".into(),
                name: "api".into(),
                operation: "start".into(),
                details: "new".into(),
            },
            ReconcileAction {
                kind: "daemon".into(),
                name: "x".into(),
                operation: "skip".into(),
                details: String::new(),
            },
        ],
        root_manual_restart_required: true,
        root_manual_restart_reasons: vec!["a".into(), "b".into()],
    };
    let actions = team_actions_from_reconcile_report(&report);
    assert_eq!(actions.len(), 2);
    assert_eq!(actions[0].action, "start");
    assert_eq!(actions[1].action, "manual_restart_required");
    assert_eq!(actions[1].detail, "a; b");
    assert_eq!(reconcile_action_kind("orchestrator"), Some(TeamEntryKind::RootOrchestrator));
    assert_eq!(reconcile_action_kind("child"), None);
    let done = finish_team(&ticket("", ""), &Ok(report));
    assert!(done.success && done.error.is_empty());
    assert_eq!(done.actions.len(), 2);
    let failed = finish_team(&ticket("", ""), &Err("boom".into()));
    assert!(!failed.success && failed.actions.is_empty());
    assert_eq!(failed.error, "boom");
    assert_eq!(reconcile_path(&ticket(" /e ", "/b")).unwrap(), "/e");
    assert_eq!(reconcile_path(&ticket("", "/b")).unwrap(), "/b");
    assert_eq!(
        reconcile_path(&ticket(" ", " ")).unwrap_err(),
        "team apply ticket is missing an effective config path"
    );
    assert!(reconcile_limits(TeamReconcileMode::StartMissing).daemon_running);
    assert!(!reconcile_limits(TeamReconcileMode::ArtifactsOnly).allow_disruptive_changes);
    assert_eq!(
        reconcile_failed("tok", "boom", None).message,
        "Team reconfiguration \"tok\" failed during reconcile: boom"
    );
    assert_eq!(
        reconcile_failed("tok", "boom", Some("gone")).message,
        "Team reconfiguration \"tok\" failed during reconcile: boom (finalize error: gone)"
    );
    assert_eq!(
        finalize_failed("tok", "gone").message,
        "Failed to finalize team reconfiguration \"tok\": gone"
    );
}

#[test]
fn a_team_change_succeeds_when_done_and_told() {
    let t = ticket("/e", "");
    let done = Ok(ReconcileReport {
        actions: vec![],
        root_manual_restart_required: false,
        root_manual_restart_reasons: vec![],
    });
    assert!(team_outcome(&t, &done, None).is_ok());
    let e = team_outcome(&t, &done, Some("gone")).unwrap_err();
    assert_eq!(e.message, finalize_failed(&t.token, "gone").message);
    let undone = Err("boom".to_owned());
    let e = team_outcome(&t, &undone, None).unwrap_err();
    assert_eq!(e.message, reconcile_failed(&t.token, "boom", None).message);
    let e = team_outcome(&t, &undone, Some("gone")).unwrap_err();
    assert_eq!(e.message, reconcile_failed(&t.token, "boom", Some("gone")).message);
}

#[test]
fn failing_tool_records_error_kind() {
    let refused = ToolOutcome::Refused {
        code: McpErrorCode::InvalidParams,
        message: "missing field `key`".into(),
    };
    let (ok, told_file, told_daemon) = call_tool(&refused);
    assert!(!ok);
    assert!(!told_file.is_empty());
    assert_eq!(told_daemon, "INVALID_PARAMS");
    let p = activity_payload("get_shared_value", ok, 7, &told_daemon);
    assert_eq!(p.tool, "get_shared_value");
    assert_eq!(p.task_id, "");
    assert_eq!(p.status, McpToolActivityStatus::Failed);
    assert_eq!(p.error_kind, "INVALID_PARAMS");
    assert_eq!(p.duration_ms, 7);
    assert!(!p.error_kind.contains("key"));
}

#[test]
fn call_tool_via_mcp_transport_records_telemetry_and_activity() {
    let (ok, told_file, told_daemon) = call_tool(&ToolOutcome::Done);
    assert!(ok && told_file.is_empty() && told_daemon.is_empty());
    let alpha = server("alpha").with_telemetry(TelemetrySink::new("/t/tool_calls.jsonl".into()));
    let event = alpha.record_tool_call(at(0), "list_shared_values", ok, 12, &told_file);
    let event = event.unwrap();
    assert_eq!(event.tool, "list_shared_values");
    assert_eq!(event.workspace, "alpha");
    assert!(event.ok);
}

#[test]
fn what_a_tool_says_of_its_failure_is_kept_short() {
    assert_eq!(call_tool_result_error_text(&vec![" ".into()]), "tool returned isError=true");
    assert_eq!(call_tool_result_error_text(&vec!["a".into(), "b".into()]), "a\nb");
    assert!(sanitize_mcp_activity_field(&"x".repeat(1000)).chars().count() < 1000);
    assert_eq!(sanitize_mcp_activity_field(" a\nb "), "a b");
    assert_eq!(mcp_error_kind(McpErrorCode::Other(-7)), "ERROR_CODE_-7");
}

#[test]
fn an_answer_goes_to_who_waits_for_it_and_only_once() {
    let mut client = DaemonClient::builder("/s".into(), "w".into()).connected();
    client.sent("1".into());
    client.sent("2".into());
    assert!(matches!(client.received(Incoming::Answer("1".into())), Delivery::To(id) if id == "1"));
    assert!(matches!(client.received(Incoming::Answer("1".into())), Delivery::Nowhere));
    client.give_up("2");
    assert!(matches!(client.received(Incoming::Answer("2".into())), Delivery::Nowhere));
    client.received(Incoming::Push(Some(Message {
        id: "m".into(),
        from: "a".into(),
        to: "w".into(),
        content: "hi".into(),
        task_id: String::new(),
        created_at: at(0),
    })));
    assert_eq!(client.take_push_messages().len(), 1);
    assert!(client.take_push_messages().is_empty());
    client.sent("3".into());
    assert_eq!(client.close(), vec!["3".to_owned()]);
    assert!(client.pending.is_empty());
    assert!(!client.workspace().is_empty() && !client.socket_path().is_empty());
    assert!(client.request_timeout > 0);
}

#[test]
fn what_was_waited_for_decides_the_answer() {
    assert_eq!(
        request_outcome(MessageType::GetTask, Waited::Response("{}".into())).unwrap(),
        "{}"
    );
    let refused = request_outcome(MessageType::GetTask, Waited::Refused("no".into())).unwrap_err();
    assert_eq!(refused.text(), "daemon error: no");
    let late = request_outcome(MessageType::GetTask, Waited::TooLong("20ms".into())).unwrap_err();
    assert!(late.text().contains("GetTask") && late.text().contains("20ms"));
    let gone = request_outcome(MessageType::GetTask, Waited::Disconnected).unwrap_err();
    assert!(matches!(gone, DaemonClientError::Disconnected));
}

#[test]
fn a_connection_says_who_it_is() {
    let b = DaemonClient::builder("/s".into(), "alpha".into())
        .description("d".into())
        .config_path("/c".into())
        .idle_timeout(2500)
        .request_timeout(20);
    let p = b.register_payload("/cwd");
    assert_eq!(p.workspace, "alpha");
    assert_eq!(p.dir, "/cwd");
    assert_eq!(p.description, "d");
    assert_eq!(p.config_path, "/c");
    assert_eq!(p.idle_timeout_seconds, 2);
    let c = b.dir("/d".into()).connected();
    assert_eq!(c.request_timeout, 20);
    assert_eq!(c.socket_path(), "/s");
    assert_eq!(c.workspace(), "alpha");
}
