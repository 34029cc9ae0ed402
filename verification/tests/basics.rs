use ax::config::{config_orchestrator_name, is_in_tree, root_orchestrator_visible, ProjectNode};
use ax::keyed::TextMap;
use ax::proto::envelope::{Envelope, MessageType};
use ax::proto::helpers::{is_false, is_zero_i64};
use ax::text::{
    decimal_of, has, is_before, join_all, lines_of, number_of, padded, replace_text, split_text,
    strip_prefixes, to_lower, trimmed, words_of,
};
use ax::time::Timestamp;
use ax::tmux::keys::{resolve_key_token, ResolvedKey};
use ax::tmux::sessions::{
    attach_op, attach_outcome, decode_workspace_name, encode_workspace_name, session_name,
    TmuxError,
};
use ax::tui::actions::QuickActionId;
use ax::tui::app::{due, run_pending_task_action, RunError, TaskRequest};
use ax::tui::daemon::{Client, DaemonClientError, Reply};
use ax::tui::state::PendingTaskAction;

fn node(prefix: &str, hidden: bool, children: Vec<ProjectNode>) -> ProjectNode {
    ProjectNode {
        name: "n".into(),
        alias: String::new(),
        prefix: prefix.into(),
        dir: String::new(),
        orchestrator_runtime: String::new(),
        disable_root_orchestrator: hidden,
        workspaces: vec![],
        children,
    }
}

#[test]
fn texts_are_cut_and_joined_as_std_does_it() {
    for s in ["", "  a b ", "\u{3000}x\u{2003}", "a\r\nb\n\nc", "tab\tand\u{85}nel"] {
        assert_eq!(trimmed(s), s.trim());
        assert_eq!(to_lower(s), s.to_ascii_lowercase());
        let words: Vec<&str> = s.split_whitespace().collect();
        assert_eq!(words_of(s), words);
        let lines: Vec<&str> = s.lines().collect();
        assert_eq!(lines_of(s), lines);
        let parts: Vec<&str> = s.split('b').collect();
        assert_eq!(split_text(s, 'b'), parts);
    }
    assert_eq!(replace_text("aXXbXX", "XX", "-"), "aXXbXX".replace("XX", "-"));
    assert_eq!(strip_prefixes("././x", "./"), "././x".trim_start_matches("./"));
    assert_eq!(join_all(&vec!["a".to_owned(), "b".to_owned()], ", "), "a, b");
    assert_eq!(padded("é", 3), format!("{:<3}", "é"));
    assert_eq!(number_of(-120), "-120");
    assert_eq!(decimal_of(u128::from(u64::MAX)), "18446744073709551615");
    assert!(has("haystack", "st") && !has("haystack", "ts"));
    assert!(is_before("a", "b") && !is_before("b", "a") && is_before("a", "ab"));
}

#[test]
fn a_map_is_walked_in_the_order_of_its_keys() {
    let mut map = TextMap::new();
    map.insert("b".into(), 2);
    map.insert("a".into(), 1);
    map.insert("b".into(), 3);
    assert_eq!(map.keys, vec!["a", "b"]);
    assert_eq!(map.values, vec![1, 3]);
    assert_eq!(map.get("b"), Some(&3));
    assert!(map.contains_key("a") && !map.contains_key("c"));
    map.remove_at(0);
    assert_eq!(map.len(), 1);
    map.clear();
    assert!(map.is_empty());
}

#[test]
fn instants_are_written_by_the_calendar() {
    let t = Timestamp::new(1_700_000_000, 0).unwrap();
    assert_eq!(t.date(), "2023-11-14");
    assert_eq!(t.date_and_clock(), "2023-11-14 22:13:20");
    assert_eq!(t.clock(), "22:13:20");
    assert_eq!(t.rfc3339(), "2023-11-14T22:13:20+00:00");
    let u = Timestamp::new(-1, 500_000_000).unwrap();
    assert_eq!(u.clock(), "23:59:59");
    assert_eq!(u.rfc3339(), "1969-12-31T23:59:59.500+00:00");
    assert_eq!(t.seconds_since(&u), 1_700_000_000);
    assert!(u.is_before(&t));
    assert!(Timestamp::new(0, 1_000_000_000).is_none());
    assert!(Timestamp::new(i64::MAX, 0).is_none());
    for secs in [ax::time::FIRST_SECOND, ax::time::LAST_SECOND] {
        let edge = Timestamp::new(secs, 0).unwrap();
        let outside = chrono::DateTime::from_timestamp(secs, 0).unwrap();
        assert_eq!(edge.rfc3339(), outside.to_rfc3339());
    }
    assert!(chrono::DateTime::from_timestamp(ax::time::FIRST_SECOND - 1, 0).is_none());
    assert!(chrono::DateTime::from_timestamp(ax::time::LAST_SECOND + 1, 0).is_none());
}

#[test]
fn an_envelope_takes_json_only() {
    let e = Envelope::new("1".into(), MessageType::GetTask, " {\"id\": 1} ".into()).unwrap();
    assert_eq!(e.payload, "{\"id\": 1}");
    assert_eq!(e.kind, MessageType::GetTask);
    assert!(Envelope::new("1".into(), MessageType::GetTask, "{id".into()).is_err());
    assert!(Envelope::new("1".into(), MessageType::GetTask, "1 2".into()).is_err());
    assert!(is_zero_i64(&0) && !is_zero_i64(&1));
    assert!(is_false(&false) && !is_false(&true));
}

#[test]
fn sessions_are_named_after_their_workspaces() {
    assert_eq!(session_name("team.api"), "ax-team_api");
    assert_eq!(decode_workspace_name(&encode_workspace_name("team.api")), "team.api");
    assert_eq!(
        TmuxError::SessionNotFound { workspace: "a".into() }.text(),
        "tmux session for workspace \"a\" not found"
    );
    let failed = TmuxError::Command { op: "attach-session".into(), message: "exit".into() };
    assert_eq!(failed.text(), "tmux attach-session: exit");
    assert_eq!(TmuxError::Parse("x".into()).text(), "parse tmux output: x");
    assert_eq!(TmuxError::Io("x".into()).text(), "tmux exec: x");
    assert_eq!(RunError::Tmux(failed).text(), "tmux: tmux attach-session: exit");
    assert_eq!(RunError::Input("x".into()).text(), "input: x");
}

#[test]
fn keys_are_known_by_name_or_typed() {
    assert_eq!(resolve_key_token("Return"), ResolvedKey::Special("Enter"));
    assert_eq!(resolve_key_token("Ctrl-C"), ResolvedKey::Special("C-c"));
    assert_eq!(resolve_key_token("PageDown"), ResolvedKey::Special("NPage"));
    assert_eq!(resolve_key_token("enter"), ResolvedKey::Literal("enter".into()));
}

#[test]
fn a_tree_knows_its_orchestrators() {
    let child = node("team", true, vec![]);
    let root = node("", true, vec![child]);
    assert!(!root_orchestrator_visible(&root));
    assert!(root_orchestrator_visible(&root.children[0]));
    assert_eq!(config_orchestrator_name("team"), "team.orchestrator");
    assert!(is_in_tree(&root, "team.orchestrator"));
    assert!(!is_in_tree(&root, "orchestrator"));
}

#[test]
fn create_task_sends_wire_payload_and_decodes_response() {
    let register = Client::register("_cli", "/cwd");
    assert_eq!(register.workspace, "_cli");
    let p = Client::create_task("Ship top task creation", "from tui test", "alpha");
    assert_eq!(p.title, "Ship top task creation");
    assert_eq!(p.description, "from tui test");
    assert_eq!(p.assignee, "alpha");
    assert!(p.priority.is_empty());
    assert!(p.start_mode.is_empty());
    assert!(p.workflow_mode.is_empty());
    let mut client = Client::new();
    assert_eq!(client.next_request(), "watch-1");
    let id = client.next_request();
    assert_eq!(id, "watch-2");
    assert!(matches!(Client::sort_reply(&id, "watch-1", MessageType::Response), Reply::Skip));
    assert!(matches!(Client::sort_reply(&id, &id, MessageType::Response), Reply::Data));
    assert!(matches!(Client::sort_reply(&id, &id, MessageType::Error), Reply::Failure));
    match Client::sort_reply(&id, &id, MessageType::GetTask) {
        Reply::Unexpected(e) => assert_eq!(e.text(), "daemon error: unexpected envelope GetTask"),
        other => panic!("{other:?}"),
    }
}

#[test]
fn send_message_sends_plain_wire_payload_and_decodes_response() {
    let p = Client::send_message("orchestrator", "check queue health", Some("/tmp/ax.yaml"));
    assert_eq!(p.to, "orchestrator");
    assert_eq!(p.message, "check queue health");
    assert_eq!(p.config_path, "/tmp/ax.yaml");
    assert_eq!(Client::send_message("a", "b", None).config_path, "");
    assert_eq!(Client::cancel_task("t", "r", Some(2)).expected_version, Some(2));
    assert_eq!(Client::intervene_task("t", "wake", "n", None).action, "wake");
    let p = Client::usage_trends(&vec![("a".into(), "/a".into())], 60, 5);
    assert_eq!(p.workspaces[0].cwd, "/a");
    assert_eq!(
        DaemonClientError::Connect { path: "/s".into(), source: "no".into() }.text(),
        "connect /s: no"
    );
    assert_eq!(DaemonClientError::Closed.text(), "connection closed before response arrived");
    assert_eq!(DaemonClientError::Decode("x".into()).text(), "decode response: x");
}

#[test]
fn an_action_on_a_task_becomes_a_request() {
    let pending = |action, version| PendingTaskAction {
        action,
        task_id: "t".into(),
        expected_version: version,
    };
    match run_pending_task_action(&pending(QuickActionId::TaskWake, 7)) {
        TaskRequest::Intervene { action, expected_version, .. } => {
            assert_eq!(action, "wake");
            assert_eq!(expected_version, Some(7));
        }
        other => panic!("{other:?}"),
    }
    assert!(matches!(
        run_pending_task_action(&pending(QuickActionId::TaskCancel, 0)),
        TaskRequest::Cancel { expected_version: None, .. }
    ));
    assert!(matches!(
        run_pending_task_action(&pending(QuickActionId::ShowTasks, 1)),
        TaskRequest::Ignored
    ));
    assert!(due(None, 0, 10) && due(Some(5), 15, 10) && !due(Some(6), 15, 10));
}

#[test]
fn attaching_within_tmux_switches_the_client() {
    assert_eq!(attach_op(true), "switch-client");
    assert_eq!(attach_op(false), "attach-session");
    assert!(attach_outcome(true, true, "exit status: 0").is_ok());
    let e = attach_outcome(false, false, "exit status: 1").unwrap_err();
    assert_eq!(e.text(), "tmux attach-session: exit status exit status: 1");
}
