use ax::mcp::planner::{
    directory_non_empty, first_path_component, infer_axis, parse_axis_headers, plan_initial_team,
    plan_team_reconfigure, read_excerpt, resolve_workspace_dir, scan_toplevel, summarize_dir,
    ChildEntry, DirListing, DirSummary, SurveyedWorkspace,
};

fn file(name: &str) -> ChildEntry {
    ChildEntry { name: name.into(), is_file: true }
}

fn dir(name: &str, children: Vec<ChildEntry>) -> DirListing {
    DirListing { name: name.into(), is_dir: true, children }
}

fn plain_file(name: &str) -> DirListing {
    DirListing { name: name.into(), is_dir: false, children: vec![] }
}

#[test]
fn scan_toplevel_filters_ignored_and_dotdirs() {
    let found = vec![
        dir("frontend", vec![file("package.json")]),
        dir("backend", vec![file("go.mod")]),
        dir(".git", vec![]),
        dir("node_modules", vec![]),
        dir("target", vec![]),
    ];
    let dirs = scan_toplevel(&found);
    let names: Vec<_> = dirs.iter().map(|d| d.name.as_str()).collect();
    assert_eq!(names, vec!["backend", "frontend"]);
    let fe = dirs.iter().find(|d| d.name == "frontend").unwrap();
    assert!(fe.manifests.contains(&"package.json".to_owned()));
    assert!(fe.looks_role_like);
}

#[test]
fn infer_axis_picks_role_when_dirs_match_known_labels() {
    let dirs = vec![
        DirSummary {
            name: "frontend".into(),
            file_count: 1,
            manifests: vec!["package.json".into()],
            has_readme: false,
            looks_role_like: true,
        },
        DirSummary {
            name: "backend".into(),
            file_count: 1,
            manifests: vec!["go.mod".into()],
            has_readme: false,
            looks_role_like: true,
        },
    ];
    let (axis, signals) = infer_axis(&dirs);
    assert_eq!(axis, "role");
    assert!(!signals.is_empty());
}

#[test]
fn infer_axis_picks_domain_when_bounded_context_shaped() {
    let dirs = vec![
        DirSummary {
            name: "users".into(),
            file_count: 2,
            manifests: vec![],
            has_readme: true,
            looks_role_like: false,
        },
        DirSummary {
            name: "orders".into(),
            file_count: 2,
            manifests: vec![],
            has_readme: true,
            looks_role_like: false,
        },
        DirSummary {
            name: "inventory".into(),
            file_count: 2,
            manifests: vec![],
            has_readme: true,
            looks_role_like: false,
        },
    ];
    let (axis, _) = infer_axis(&dirs);
    assert_eq!(axis, "domain");
}

#[test]
fn infer_axis_picks_hybrid_on_mixed_layout() {
    let dirs = vec![
        DirSummary {
            name: "platform".into(),
            file_count: 1,
            manifests: vec![],
            has_readme: false,
            looks_role_like: true,
        },
        DirSummary {
            name: "users".into(),
            file_count: 1,
            manifests: vec![],
            has_readme: false,
            looks_role_like: false,
        },
        DirSummary {
            name: "billing".into(),
            file_count: 1,
            manifests: vec![],
            has_readme: false,
            looks_role_like: false,
        },
    ];
    let (axis, _) = infer_axis(&dirs);
    assert_eq!(axis, "hybrid");
}

#[test]
fn plan_initial_team_surfaces_axis_and_readme_excerpt() {
    let found = vec![
        dir("frontend", vec![file("package.json")]),
        dir("backend", vec![file("go.mod")]),
        plain_file("README.md"),
    ];
    let plan =
        plan_initial_team("/work/demo", &found, Some("# demo\n\nA monorepo split by layer.\n"));
    assert_eq!(plan.suggested_axis, "role");
    assert!(plan.readme_excerpt.as_deref().unwrap().contains("monorepo"));
    assert_eq!(plan.toplevel_dirs.len(), 2);
    assert_eq!(plan.project_dir, "/work/demo");
}

#[test]
fn parse_axis_headers_reads_both_comments() {
    let yaml = "# axis: domain\n# rationale: bounded contexts per service\nproject: shop\n";
    let (axis, rat) = parse_axis_headers(yaml);
    assert_eq!(axis.as_deref(), Some("domain"));
    assert_eq!(rat.as_deref(), Some("bounded contexts per service"));
}

#[test]
fn plan_team_reconfigure_reports_orphan_and_empty_workspaces() {
    let found = vec![
        dir("frontend", vec![file("package.json")]),
        dir("backend", vec![file("go.mod")]),
        dir("infra", vec![file("main.tf")]),
        dir(".ax", vec![file("config.yaml")]),
    ];
    let config = "# axis: role\n# rationale: split by layer.\nproject: shop\nworkspaces:\n  frontend:\n    dir: ./frontend\n    description: UI layer\n    runtime: codex\n  empty_legacy:\n    dir: ./gone\n    description: removed\n    runtime: codex\n";
    let workspaces = vec![
        SurveyedWorkspace {
            name: "empty_legacy".into(),
            dir: "./gone".into(),
            description: "removed".into(),
            exists: false,
            entries: vec![],
        },
        SurveyedWorkspace {
            name: "frontend".into(),
            dir: "./frontend".into(),
            description: "UI layer".into(),
            exists: true,
            entries: vec!["package.json".into()],
        },
    ];
    let plan = plan_team_reconfigure("/work/shop", config, &workspaces, &found);
    assert_eq!(plan.current_axis.as_deref(), Some("role"));
    assert!(plan.orphan_dirs.contains(&"backend".to_owned()));
    assert!(plan.orphan_dirs.contains(&"infra".to_owned()));
    assert!(plan.empty_workspaces.contains(&"empty_legacy".to_owned()));
    assert!(!plan.orphan_dirs.contains(&"frontend".to_owned()));
    assert!(!plan.empty_workspaces.contains(&"frontend".to_owned()));
}

#[test]
fn workspace_directories_are_taken_from_the_project() {
    assert_eq!(resolve_workspace_dir("/work", " ./ui "), "/work/./ui");
    assert_eq!(resolve_workspace_dir("/work/", "ui"), "/work/ui");
    assert_eq!(resolve_workspace_dir("/work", "/other"), "/other");
    assert_eq!(resolve_workspace_dir("/work", "  "), "/work");
    assert_eq!(first_path_component("./ui/src").as_deref(), Some("ui"));
    assert_eq!(first_path_component("."), None);
}

#[test]
fn an_excerpt_is_cut_at_its_limit() {
    assert_eq!(read_excerpt("   \n", 10), None);
    assert_eq!(read_excerpt(" abc \n", 10).as_deref(), Some("abc"));
    let long = read_excerpt("abcdefghij", 4).unwrap();
    assert!(long.starts_with("abcd"));
    assert_ne!(long, "abcdefghij");
}

#[test]
fn a_directory_tells_what_it_is_built_with() {
    let summary = summarize_dir(&dir("api", vec![file("Cargo.toml"), file("README.md")]));
    assert_eq!(summary.manifests, vec!["Cargo.toml".to_owned()]);
    assert!(summary.has_readme);
    assert_eq!(summary.file_count, 2);
    assert!(directory_non_empty(&vec!["a".to_owned()]));
    assert!(!directory_non_empty(&vec![]));
}

#[test]
fn only_the_comments_of_the_head_say_something() {
    let yaml = "project: x\n#  AXIS:  By-Layer now \n axis: no\n# Rationale:  Why Not? \r\nfoo\n";
    let kept = "#  AXIS:  By-Layer now \n# Rationale:  Why Not? \r\n";
    let said = (Some("by-layer".to_owned()), Some("Why Not?".to_owned()));
    assert_eq!(parse_axis_headers(yaml), said);
    assert_eq!(parse_axis_headers(kept), said);
    let late = format!("{}# axis: role\n", "x: y\n".repeat(15));
    assert_eq!(parse_axis_headers(&late), (None, None));
    assert_eq!(parse_axis_headers("# axis:\n# rationale:  \n"), (None, None));
}
