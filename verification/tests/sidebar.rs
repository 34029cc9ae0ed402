use ax::config::{ProjectNode, WorkspaceRef};
use ax::keyed::TextMap;
use ax::tmux::sessions::SessionInfo;
use ax::tui::sidebar::{build_entries, build_fallback, build_from_tree, reconfigure_sidebar_state};

fn session(workspace: &str) -> SessionInfo {
    SessionInfo {
        name: format!("ax-{workspace}"),
        workspace: workspace.to_owned(),
        attached: false,
        windows: 1,
    }
}

fn project(prefix: &str, workspaces: Vec<&str>, children: Vec<ProjectNode>) -> ProjectNode {
    ProjectNode {
        name: if prefix.is_empty() {
            "root".into()
        } else {
            prefix.into()
        },
        alias: String::new(),
        prefix: prefix.into(),
        dir: String::new(),
        orchestrator_runtime: String::new(),
        disable_root_orchestrator: false,
        workspaces: workspaces
            .into_iter()
            .map(|name| WorkspaceRef {
                name: name.into(),
                merged_name: if prefix.is_empty() {
                    name.into()
                } else {
                    format!("{prefix}.{name}")
                },
                runtime: String::new(),
                description: String::new(),
                instructions: String::new(),
            })
            .collect(),
        children,
    }
}

#[test]
fn fallback_splits_dotted_workspace_names_into_nested_groups() {
    let entries = build_fallback(&vec![session("team.backend"), session("team.frontend")]);
    let labels: Vec<&str> = entries.iter().map(|e| e.label.as_str()).collect();
    assert_eq!(labels, vec!["▾ team", "backend", "frontend"]);
    assert!(!entries[0].group || entries[0].session_index.is_none());
    assert_eq!(entries[1].session_index, Some(0));
    assert_eq!(entries[2].session_index, Some(1));
}

#[test]
fn tree_renders_orchestrator_then_workspaces_then_children() {
    let child = project("team", vec!["worker"], vec![]);
    let root = project("", vec!["alpha"], vec![child]);
    let sessions = vec![session("orchestrator"), session("alpha")];
    let entries = build_from_tree(&root, &sessions, false, &TextMap::new());
    let labels: Vec<&str> = entries.iter().map(|e| e.label.as_str()).collect();
    assert_eq!(
        labels,
        vec![
            "▾ root",
            "◆ orchestrator",
            "alpha",
            "▾ team",
            "◆ orchestrator",
            "worker",
        ]
    );
    assert_eq!(entries[1].session_index, Some(0));
    assert_eq!(entries[2].session_index, Some(1));
    assert_eq!(entries[4].session_index, None);
    assert_eq!(entries[5].session_index, None);
}

#[test]
fn tree_appends_unregistered_sessions_under_runtime_only_group() {
    let root = project("", vec!["alpha"], vec![]);
    let sessions = vec![session("alpha"), session("ghost")];
    let entries = build_from_tree(&root, &sessions, false, &TextMap::new());
    let last = entries.last().unwrap();
    assert_eq!(last.workspace, "ghost");
    assert_eq!(last.session_index, Some(1));
    assert!(entries
        .iter()
        .any(|e| e.label.starts_with("▾ unregistered")));
}

#[test]
fn reconfigure_state_flags_desired_only_and_runtime_only() {
    let mut desired = TextMap::new();
    desired.insert("alpha".to_owned(), true);
    desired.insert("beta".to_owned(), true);
    assert_eq!(
        reconfigure_sidebar_state("alpha", &desired, false, false),
        "desired"
    );
    assert_eq!(
        reconfigure_sidebar_state("alpha", &desired, true, false),
        ""
    );
    assert_eq!(
        reconfigure_sidebar_state("ghost", &desired, true, false),
        "runtime-only"
    );
    assert_eq!(reconfigure_sidebar_state("_cli", &desired, true, false), "");
}

#[test]
fn without_a_tree_the_rows_come_from_the_sessions() {
    let sessions = vec![session("solo")];
    let entries = build_entries(&sessions, &None, false, &TextMap::new());
    assert_eq!(entries.len(), 1);
    assert_eq!(entries[0].workspace, "solo");
    let root = project("", vec![], vec![]);
    let entries = build_entries(&sessions, &Some(root), false, &TextMap::new());
    assert_eq!(entries[0].label, "▾ root");
}

#[test]
fn names_without_dots_split_at_underscores() {
    let entries = build_entries(&vec![session("team_api")], &None, false, &TextMap::new());
    assert_eq!(entries.len(), 2);
    assert_eq!((entries[0].label.as_str(), entries[0].level), ("▾ team", 0));
    assert!(entries[0].group);
    assert_eq!((entries[1].label.as_str(), entries[1].level), ("api", 1));
    assert_eq!(entries[1].session_index, Some(0));

    let entries = build_entries(&vec![session("a.b_c")], &None, false, &TextMap::new());
    let labels: Vec<&str> = entries.iter().map(|e| e.label.as_str()).collect();
    assert_eq!(labels, ["▾ a", "b_c"]);
}
