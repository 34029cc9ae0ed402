use ax::config::{ProjectNode, WorkspaceRef};
use ax::proto::types::{
    AgentStatus, HistoryEntry, Task, TaskLog, TaskStartMode, TaskStatus, WorkspaceGitStatus,
    WorkspaceInfo,
};
use ax::proto::usage::{Tokens, UsageBucket, WorkspaceTrend};
use ax::time::Timestamp;
use ax::tui::agents_view::{
    format_git_status_detail, format_git_status_inline, group_git_summary, MetricCells,
};
use ax::tui::cells::push_padded_split_span;
use ax::tui::detail_view::{
    agent_activity_line, agent_mcp_activity_entries, agent_related_messages, agent_related_tasks,
    draw_agents_detail, draw_stream_detail, find_agent_config_detail, UsageTexts,
};
use ax::tui::frame_view::{
    detail_title, draw_agents_list, draw_footer, draw_header, draw_help, draw_quick_actions,
    draw_stream, focus_footer_hint, place_detail, tabs_title,
};
use ax::tui::layout::{
    split_body_inner, viewport_range, viewport_scrollbar_position, Rect, Viewport,
};
use ax::tui::lines::{Line, Page, Span};
use ax::tui::messages_view::{draw_messages, draw_messages_detail, message_list_line};
use ax::tui::pane::Pane;
use ax::tui::sidebar::AgentEntry;
use ax::tui::state::{AgentDetailTab, App, Focus};
use ax::tui::stream::StreamView;
use ax::tui::tasks::TaskSummary;
use ax::tui::tasks_view::{
    draw_task_detail, draw_tasks_list, format_task_row, format_task_state,
    format_task_summary_compact, format_task_summary_line,
};
use ax::tui::theme::{plain, severity, Severity, Style};
use ax::tui::tokens_view::{
    draw_tokens, draw_tokens_detail, short_model, token_trend_style, usage_rows_of, TokenCells,
};
use ratatui::widgets::StatefulWidget;

const FULL: char = '█';

fn at(secs: i64) -> Timestamp {
    Timestamp::new(secs, 0).unwrap()
}

fn now() -> Timestamp {
    at(1_800_000_000)
}

fn rect(x: u16, y: u16, width: u16, height: u16) -> Rect {
    Rect { x, y, width, height }
}

/// What is on the screen: a character and its style for each cell.
struct Screen {
    width: u16,
    cells: Vec<(char, Style)>,
}

impl Screen {
    fn new(width: u16, height: u16) -> Screen {
        Screen { width, cells: vec![(' ', plain()); width as usize * height as usize] }
    }

    fn at(&self, x: u16, y: u16) -> (char, Style) {
        self.cells[y as usize * self.width as usize + x as usize]
    }

    fn put(&mut self, area: Rect, x: u16, y: u16, c: char, style: Style) {
        if x < area.x + area.width && y < area.y + area.height {
            self.cells[y as usize * self.width as usize + x as usize] = (c, style);
        }
    }

    fn line(&mut self, area: Rect, row: u16, line: &Line) {
        let mut x = area.x;
        for span in &line.spans {
            for c in span.content.chars() {
                self.put(area, x, area.y + row, c, span.style);
                x += 1;
            }
        }
    }

    fn lines(&mut self, area: Rect, lines: &[Line]) {
        for (i, line) in lines.iter().enumerate() {
            self.line(area, i as u16, line);
        }
    }

    fn pane(&mut self, pane: &Pane) {
        self.lines(pane.head_area, &pane.head.lines);
        self.lines(pane.rows_area, &pane.rows.lines);
        self.scrollbar(pane.list_area, pane.viewport);
    }

    fn scrollbar(&mut self, area: Rect, viewport: Viewport) {
        if !viewport.shows_scrollbar(area) {
            return;
        }
        let whole = ratatui::layout::Rect::new(0, 0, area.width, area.height);
        let mut buffer = ratatui::buffer::Buffer::empty(whole);
        let mut state = ratatui::widgets::ScrollbarState::new(viewport.total)
            .position(viewport.scrollbar_position())
            .viewport_content_length(viewport.visible);
        ratatui::widgets::Scrollbar::new(ratatui::widgets::ScrollbarOrientation::VerticalRight)
            .begin_symbol(None)
            .end_symbol(None)
            .render(whole, &mut buffer, &mut state);
        for y in 0..area.height {
            let c = buffer[(area.width - 1, y)].symbol().chars().next().unwrap_or(' ');
            self.put(area, area.x + area.width - 1, area.y + y, c, plain());
        }
    }

    fn row(&self, y: u16) -> String {
        let from = y as usize * self.width as usize;
        self.cells[from..from + self.width as usize].iter().map(|cell| cell.0).collect()
    }

    fn text(&self) -> String {
        let mut out = String::new();
        for y in 0..(self.cells.len() / self.width as usize) as u16 {
            out.push_str(&self.row(y));
            out.push('\n');
        }
        out
    }

    fn find_on(&self, y: u16, needle: &str) -> Option<u16> {
        let row = self.row(y);
        let at = row.find(needle)?;
        Some(row[..at].chars().count() as u16)
    }

    fn find(&self, needle: &str) -> Option<(u16, u16)> {
        for y in 0..(self.cells.len() / self.width as usize) as u16 {
            if let Some(x) = self.find_on(y, needle) {
                return Some((x, y));
            }
        }
        None
    }

    fn non_space_after(&self, y: u16, start: u16) -> Option<u16> {
        (start..self.width).find(|x| self.at(*x, y).0 != ' ')
    }
}

fn no_usage() -> UsageTexts {
    UsageTexts { input: "0".into(), output: "0".into(), all: "0".into() }
}

fn token_cells(app: &App) -> Vec<TokenCells> {
    usage_rows_of(app)
        .iter()
        .map(|t| TokenCells {
            input: format!("{}", t.total.input),
            output: format!("{}", t.total.output),
            cache: "0".into(),
            cache_read: "0".into(),
            cache_creation: "0".into(),
            total: format!("{}", t.total.input + t.total.output),
        })
        .collect()
}

fn metric_cells(app: &App) -> Vec<MetricCells> {
    app.agent_entries
        .iter()
        .map(|_| MetricCells { up: String::new(), down: String::new(), cost: String::new() })
        .collect()
}

fn render_app(app: &mut App, width: u16, height: u16) -> Screen {
    app.ensure_stream_view_visible();
    let mut screen = Screen::new(width, height);
    let header = Line { spans: vec![Span { content: draw_header(app), style: plain() }] };
    screen.line(rect(0, 0, width, 1), 0, &header);
    let body = rect(0, 1, width, height - 2);
    screen.line(rect(1, 1, width - 2, 1), 0, &tabs_title(app));
    let (list, detail) = split_body_inner(body);
    match app.stream {
        StreamView::Agents => {
            let pane = draw_agents_list(app, list, "*", &metric_cells(app), 0);
            screen.pane(&pane);
        }
        StreamView::Messages => screen.pane(&draw_messages(app, list)),
        StreamView::Tasks => screen.pane(&draw_tasks_list(app, list, now())),
        StreamView::Tokens => {
            let pane = draw_tokens(app, list, &token_cells(app), now());
            screen.lines(pane.head_area, &pane.head.lines);
            for (i, row) in pane.rows.iter().enumerate() {
                screen.line(pane.text_area, i as u16, &row.line);
                if row.is_flat() {
                    let flat =
                        Line { spans: vec![Span { content: "(flat)".into(), style: row.style }] };
                    screen.line(pane.series_area, i as u16, &flat);
                } else {
                    let bars: String = row.series.iter().map(|_| '▂').collect();
                    let spark = Line { spans: vec![Span { content: bars, style: row.style }] };
                    screen.line(pane.series_area, i as u16, &spark);
                }
            }
            screen.scrollbar(pane.list_area, pane.viewport);
        }
        StreamView::Stream => {
            let mirror = draw_stream(app, list);
            screen.lines(list, &mirror.caption.lines);
            screen.lines(mirror.rows_area, &mirror.rows.lines);
        }
    }
    if detail.width > 0 && detail.height > 1 {
        screen.line(detail, 0, &detail_title(app, detail.width));
        let inner = rect(detail.x, detail.y + 1, detail.width, detail.height - 1);
        let page: Page = match app.stream {
            StreamView::Agents => draw_agents_detail(app, inner, &no_usage(), now()),
            StreamView::Messages => draw_messages_detail(app),
            StreamView::Tasks => draw_task_detail(app, inner.width as usize, now()),
            StreamView::Tokens => draw_tokens_detail(app, &token_cells(app), now()),
            StreamView::Stream => draw_stream_detail(app),
        };
        let (from, to) = place_detail(app, inner, page.lines.len());
        screen.lines(inner, &page.lines[from..to]);
    }
    screen.line(rect(0, height - 1, width, 1), 0, &draw_footer(app));
    screen
}

fn render_app_to_string(app: &mut App, width: u16, height: u16) -> String {
    render_app(app, width, height).text()
}

fn span_text(spans: &[Span]) -> String {
    spans.iter().map(|span| span.content.as_str()).collect()
}

fn workspace_info(name: &str, git_status: WorkspaceGitStatus) -> WorkspaceInfo {
    WorkspaceInfo {
        name: name.into(),
        dir: String::new(),
        description: String::new(),
        status: AgentStatus::Online,
        status_text: String::new(),
        git_status: Some(git_status),
        connected_at: None,
        last_activity_at: None,
        active_task_count: 0,
        current_task_id: None,
    }
}

fn token_trend(name: &str, input: i64) -> WorkspaceTrend {
    WorkspaceTrend {
        workspace: name.into(),
        available: true,
        total: Tokens {
            input,
            output: 1,
            cache_read: 0,
            cache_creation: 0,
        },
        latest_model: "gpt-test".into(),
        ..WorkspaceTrend::default()
    }
}

fn token_trend_with_series(name: &str, series: &[i64]) -> WorkspaceTrend {
    let mut trend = token_trend(name, series.iter().sum::<i64>().max(1));
    trend.buckets = series
        .iter()
        .map(|total| UsageBucket {
            totals: Tokens {
                input: *total,
                output: 0,
                cache_read: 0,
                cache_creation: 0,
            },
            ..UsageBucket::default()
        })
        .collect();
    trend
}

fn mock_task() -> Task {
    let now = now();
    Task {
        id: "abc".into(),
        title: "task title".into(),
        description: String::new(),
        assignee: "alpha".into(),
        created_by: "orch".into(),
        parent_task_id: String::new(),
        child_task_ids: Vec::new(),
        version: 1,
        status: TaskStatus::Pending,
        start_mode: TaskStartMode::Default,
        workflow_mode: None,
        priority: None,
        stale_after_seconds: 0,
        dispatch_message: String::new(),
        dispatch_config_path: String::new(),
        dispatch_count: 0,
        attempt_count: 0,
        last_dispatch_at: None,
        last_attempt_at: None,
        next_retry_at: None,
        claimed_at: None,
        claimed_by: String::new(),
        claim_source: String::new(),
        result: String::new(),
        logs: Vec::new(),
        rollup: None,
        sequence: None,
        stale_info: None,
        removed_at: None,
        removed_by: String::new(),
        remove_reason: String::new(),
        created_at: now,
        updated_at: now,
    }
}

#[test]
fn viewport_range_handles_empty_and_small_windows() {
    assert_eq!(viewport_range(0, 0, 5), (0, 0));
    assert_eq!(viewport_range(10, 3, 0), (0, 0));
}

#[test]
fn viewport_range_scrolls_so_selected_stays_in_view() {
    assert_eq!(viewport_range(20, 0, 5), (0, 5));
    assert_eq!(viewport_range(20, 4, 5), (0, 5));
    assert_eq!(viewport_range(20, 5, 5), (1, 6));
    assert_eq!(viewport_range(20, 19, 5), (15, 20));
}

#[test]
fn viewport_scrollbar_position_maps_bottom_window_to_track_end() {
    assert_eq!(viewport_scrollbar_position(20, 0, 5), 0);
    assert_eq!(viewport_scrollbar_position(20, 4, 5), 0);
    assert_eq!(viewport_scrollbar_position(20, 19, 5), 19);
}

#[test]
fn compact_task_summary_prioritizes_short_labels() {
    let summary = TaskSummary {
        total: 12,
        pending: 3,
        in_progress: 2,
        completed: 4,
        failed: 1,
        blocked: 1,
        stale: 2,
        diverged: 1,
        queued_messages: 9,
        urgent_or_high: 2,
        ..TaskSummary::default()
    };
    assert_eq!(
        format_task_summary_compact(&summary),
        "tot 12 · run 2 · pend 3 · stale 2 · block 1 · fail 1 · done 4 · msg 9 · div 1 · hi 2"
    );
}

#[test]
fn compact_task_state_marks_active_stale_tasks() {
    let mut task = mock_task();
    task.status = TaskStatus::InProgress;
    task.stale_after_seconds = 1;
    task.updated_at = at(1_800_000_000 - 5);
    assert_eq!(format_task_state(&task, now()), "running stale");
}

#[test]
fn footer_hint_only_advertises_stream_shortcut_when_pinned() {
    let mut app = App::new();
    let hint = focus_footer_hint(&app);
    assert!(hint.contains("Tab/1-4 view"));
    assert!(!hint.contains("Tab/1-5 view"));

    app.streamed_workspace = Some("alpha".into());
    let hint = focus_footer_hint(&app);
    assert!(hint.contains("Tab/1-5 view"));
}

#[test]
fn footer_hint_advertises_agent_detail_tabs_only_in_agents_detail() {
    let mut app = App::new();
    app.focus = Focus::Detail;
    app.stream = StreamView::Agents;
    assert!(focus_footer_hint(&app).contains("h/l detail tab"));

    app.stream = StreamView::Tasks;
    assert!(!focus_footer_hint(&app).contains("h/l detail tab"));
}

#[test]
fn agent_detail_title_marks_local_tab_context() {
    let mut app = App::new();
    app.agent_entries = vec![AgentEntry {
        label: "alpha".into(),
        workspace: "alpha".into(),
        session_index: Some(0),
        level: 0,
        group: false,
        reconcile: String::new(),
    }];
    app.selected_entry = 0;
    app.focus = Focus::Detail;
    app.agent_detail_tab = AgentDetailTab::Messages;

    let line = detail_title(&app, 120);
    let rendered: String = line
        .spans
        .iter()
        .map(|span| span.content.as_str())
        .collect();
    assert!(rendered.contains("agent detail"));
    assert!(rendered.contains("alpha"));
    assert!(rendered.contains("messages"));
}

#[test]
fn agent_task_filter_covers_safe_relation_fields() {
    let mut assigned = mock_task();
    assigned.id = "assigned".into();
    assigned.assignee = "alpha".into();

    let mut created = mock_task();
    created.id = "created".into();
    created.assignee = "beta".into();
    created.created_by = "alpha".into();

    let mut claimed = mock_task();
    claimed.id = "claimed".into();
    claimed.assignee = "beta".into();
    claimed.created_by = "orch".into();
    claimed.claimed_by = "alpha".into();

    let mut logged = mock_task();
    logged.id = "logged".into();
    logged.assignee = "beta".into();
    logged.created_by = "orch".into();
    logged.logs.push(TaskLog {
        timestamp: now(),
        workspace: "alpha".into(),
        message: "progress".into(),
    });

    let mut other = mock_task();
    other.id = "other".into();
    other.assignee = "beta".into();
    other.created_by = "orch".into();

    let tasks = vec![assigned, created, claimed, logged, other];
    let ids: Vec<&str> = agent_related_tasks(&tasks, "alpha")
        .into_iter()
        .map(|task| task.id.as_str())
        .collect();
    assert_eq!(ids, vec!["assigned", "created", "claimed", "logged"]);
}

#[test]
fn agent_message_and_activity_filters_use_loaded_history_tail() {
    let base = now();
    let messages = vec![
        HistoryEntry {
            timestamp: base,
            from: "alpha".into(),
            to: "orch".into(),
            content: "hello".into(),
            task_id: String::new(),
        },
        HistoryEntry {
            timestamp: base,
            from: "beta".into(),
            to: "alpha".into(),
            content: "reply".into(),
            task_id: String::new(),
        },
        HistoryEntry {
            timestamp: base,
            from: "alpha".into(),
            to: "ax.daemon".into(),
            content: "mcp tool list_tasks ok duration_ms=3".into(),
            task_id: String::new(),
        },
        HistoryEntry {
            timestamp: base,
            from: "beta".into(),
            to: "ax.daemon".into(),
            content: "mcp tool read_messages ok".into(),
            task_id: String::new(),
        },
    ];

    assert_eq!(agent_related_messages(&messages, "alpha").len(), 3);
    let activity = agent_mcp_activity_entries(&messages, "alpha");
    assert_eq!(activity.len(), 1);
    assert!(activity[0].content.contains("list_tasks"));

    let rendered = span_text(&agent_activity_line(activity[0], 96).spans);
    assert!(rendered.contains("alpha used list_tasks: ok duration_ms=3"));
    assert!(!rendered.contains("alpha → ax.daemon"));
}

#[test]
fn agent_config_lookup_reads_workspace_and_orchestrator_config_fields() {
    let tree = Some(ProjectNode {
        name: "root".into(),
        alias: String::new(),
        prefix: String::new(),
        dir: "/repo".into(),
        orchestrator_runtime: "codex".into(),
        disable_root_orchestrator: false,
        workspaces: vec![WorkspaceRef {
            name: "cli".into(),
            merged_name: "ax.cli".into(),
            runtime: "codex".into(),
            description: "CLI owner".into(),
            instructions: "Own ax-tui".into(),
        }],
        children: Vec::new(),
    });

    let workspace = find_agent_config_detail(&tree, "ax.cli").expect("workspace config");
    assert_eq!(workspace.kind, "workspace");
    assert_eq!(workspace.description, "CLI owner");
    assert_eq!(workspace.instructions, "Own ax-tui");

    let orchestrator =
        find_agent_config_detail(&tree, "orchestrator").expect("orchestrator config");
    assert_eq!(orchestrator.kind, "orchestrator");
    assert_eq!(orchestrator.runtime, "codex");
    assert!(orchestrator.instructions.is_empty());
}

#[test]
fn draw_renders_selected_agent_local_tab_content() {
    let mut app = App::new();
    app.agent_entries = vec![AgentEntry {
        label: "alpha".into(),
        workspace: "alpha".into(),
        session_index: Some(0),
        level: 0,
        group: false,
        reconcile: String::new(),
    }];
    app.selected_entry = 0;
    app.focus = Focus::Detail;
    app.agent_detail_tab = AgentDetailTab::Messages;
    app.messages = vec![HistoryEntry {
        timestamp: now(),
        from: "alpha".into(),
        to: "orchestrator".into(),
        content: "hello from alpha".into(),
        task_id: String::new(),
    }];

    let rendered = render_app_to_string(&mut app, 120, 34);
    assert!(rendered.contains("agent messages"));
    assert!(rendered.contains("hello from alpha"));

    app.agent_detail_tab = AgentDetailTab::Instructions;
    app.tree = Some(ProjectNode {
        name: "root".into(),
        alias: String::new(),
        prefix: String::new(),
        dir: "/repo".into(),
        orchestrator_runtime: String::new(),
        disable_root_orchestrator: false,
        workspaces: vec![WorkspaceRef {
            name: "alpha".into(),
            merged_name: "alpha".into(),
            runtime: "codex".into(),
            description: "Alpha worker".into(),
            instructions: "Handle alpha tasks".into(),
        }],
        children: Vec::new(),
    });

    let rendered = render_app_to_string(&mut app, 120, 34);
    assert!(rendered.contains("agent config"));
    assert!(rendered.contains("Handle alpha tasks"));
}

#[test]
fn agents_panel_scrollbar_reaches_bottom_when_last_agent_visible() {
    let mut app = App::new();
    app.stream = StreamView::Agents;
    app.focus = Focus::List;
    app.agent_entries = (0..12)
        .map(|idx| AgentEntry {
            label: format!("agent-{idx:02}"),
            workspace: format!("agent-{idx:02}"),
            session_index: Some(idx),
            level: 0,
            group: false,
            reconcile: String::new(),
        })
        .collect();
    app.selected_entry = app.agent_entries.len() - 1;

    let width = 100;
    let height = 20;
    let screen = render_app(&mut app, width, height);
    let body_area = rect(0, 1, width, height - 2);
    let (pane_area, _) = split_body_inner(body_area);
    let rows_area = rect(
        pane_area.x,
        pane_area.y + 1,
        pane_area.width,
        pane_area.height.saturating_sub(1),
    );
    let scrollbar_x = (rows_area.x + rows_area.width).saturating_sub(1);
    let bottom_y = (rows_area.y + rows_area.height).saturating_sub(1);

    let (_, selected_y) =
        screen.find("agent-11").expect("last agent visible");
    assert_eq!(
        selected_y, bottom_y,
        "selected last agent should sit on the final visible row"
    );
    assert_eq!(
        screen.at(scrollbar_x, bottom_y).0,
        FULL,
        "bottom-scrolled agents scrollbar thumb reaches the track end"
    );
}

#[test]
fn draw_tail_follows_agent_message_detail_until_user_scrolls_away() {
    let mut app = App::new();
    app.agent_entries = vec![AgentEntry {
        label: "alpha".into(),
        workspace: "alpha".into(),
        session_index: Some(0),
        level: 0,
        group: false,
        reconcile: String::new(),
    }];
    app.selected_entry = 0;
    app.focus = Focus::Detail;
    app.agent_detail_tab = AgentDetailTab::Messages;
    app.messages = (0..16)
        .map(|idx| HistoryEntry {
            timestamp: at(1_800_000_000 + idx),
            from: "alpha".into(),
            to: "orchestrator".into(),
            content: format!("message {idx:02}"),
            task_id: String::new(),
        })
        .collect();

    let rendered = render_app_to_string(&mut app, 120, 18);
    assert!(app.agent_detail_follow_tail);
    assert!(app.detail_scroll.index > 0, "initial render snaps to tail");
    assert!(rendered.contains("message 15"));
    assert!(!rendered.contains("message 00"));

    let parked = app.detail_scroll.index.saturating_sub(2);
    app.agent_detail_follow_tail = false;
    app.detail_scroll.index = parked;
    app.messages.push(HistoryEntry {
        timestamp: at(1_800_000_000 + 99),
        from: "alpha".into(),
        to: "orchestrator".into(),
        content: "message 99".into(),
        task_id: String::new(),
    });

    let _ = render_app_to_string(&mut app, 120, 18);
    assert_eq!(
        app.detail_scroll.index, parked,
        "parked local message detail does not auto-steal the cursor"
    );
    assert!(!app.agent_detail_follow_tail);
}

#[test]
fn tokens_panel_highlights_selected_usage_row() {
    let mut app = App::new();
    app.stream = StreamView::Tokens;
    app.focus = Focus::List;
    app.usage_trends
        .insert("alpha".into(), token_trend("alpha", 10));
    app.usage_trends
        .insert("beta".into(), token_trend("beta", 20));
    app.tokens_cursor.index = 1;

    let screen = render_app(&mut app, 120, 24);
    let (x, y) = screen.find("beta").expect("selected row visible");
    assert!(
        screen.at(x, y).1.reversed,
        "selected token row is highlighted"
    );
    let trend_x = screen.find_on(y, "(flat)").expect("selected trend cell visible");
    assert!(
        !screen.at(trend_x, y).1.reversed,
        "selected token trend stays foreground-only"
    );
}

#[test]
fn tokens_panel_scrolls_selected_usage_row_into_view() {
    let mut app = App::new();
    app.stream = StreamView::Tokens;
    app.focus = Focus::List;
    for name in [
        "alpha", "bravo", "charlie", "delta", "echo", "foxtrot", "golf", "hotel",
    ] {
        app.usage_trends.insert(name.into(), token_trend(name, 10));
    }
    app.tokens_cursor.index = 7;

    let screen = render_app(&mut app, 96, 14);
    let (x, y) = screen.find("hotel").expect("selected row visible");
    assert!(
        screen.at(x, y).1.reversed,
        "viewport follows the selected token row"
    );
}

#[test]
fn tokens_panel_selected_sparkline_uses_foreground_only_style() {
    let mut app = App::new();
    app.stream = StreamView::Tokens;
    app.focus = Focus::List;
    app.usage_trends.insert(
        "alpha".into(),
        token_trend_with_series("alpha", &[1, 4, 2, 8]),
    );
    app.tokens_cursor.index = 0;

    let screen = render_app(&mut app, 120, 24);
    let (_, y) = screen.find("alpha").expect("selected row visible");
    let spark_x = screen.non_space_after(y, 92).expect("sparkline cell visible");
    assert!(
        !screen.at(spark_x, y).1.reversed,
        "selected sparkline is not inverse/reversed"
    );
    assert!(
        screen.at(spark_x, y).1.fg.is_some(),
        "colored terminals get foreground trend color"
    );
}

#[test]
fn token_trend_style_uses_plain_foreground_semantics() {
    let rising = token_trend_style(&vec![1, 2, 4]);
    let falling = token_trend_style(&vec![4, 2, 1]);
    let neutral = token_trend_style(&vec![3, 3, 3]);
    let flat = token_trend_style(&vec![]);

    for style in [rising, falling, neutral, flat] {
        assert!(!style.reversed);
    }
    assert_ne!(rising.fg, falling.fg);
    assert_ne!(rising.fg, neutral.fg);
}

#[test]
fn group_git_summary_rolls_up_identical_child_statuses() {
    let git = WorkspaceGitStatus {
        state: "dirty".into(),
        modified: 2,
        untracked: 1,
        ..WorkspaceGitStatus::default()
    };
    let mut app = App::new();
    app.agent_entries = vec![
        AgentEntry {
            label: "▾ ax".into(),
            workspace: String::new(),
            session_index: None,
            level: 0,
            group: true,
            reconcile: String::new(),
        },
        AgentEntry {
            label: "orchestrator".into(),
            workspace: "orchestrator".into(),
            session_index: Some(0),
            level: 1,
            group: false,
            reconcile: String::new(),
        },
        AgentEntry {
            label: "cli".into(),
            workspace: "cli".into(),
            session_index: Some(1),
            level: 1,
            group: false,
            reconcile: String::new(),
        },
    ];
    app.workspace_infos.insert(
        "orchestrator".into(),
        workspace_info("orchestrator", git.clone()),
    );
    app.workspace_infos
        .insert("cli".into(), workspace_info("cli", git));

    let (summary, _) = group_git_summary(0, &app, true).expect("group git summary");
    assert_eq!(summary, "changed:2 ?1");
}

#[test]
fn agents_panel_places_group_git_summary_next_to_name_once() {
    let git = WorkspaceGitStatus {
        state: "dirty".into(),
        modified: 2,
        untracked: 1,
        ..WorkspaceGitStatus::default()
    };
    let mut app = App::new();
    app.agent_entries = vec![
        AgentEntry {
            label: "▾ ax".into(),
            workspace: String::new(),
            session_index: None,
            level: 0,
            group: true,
            reconcile: String::new(),
        },
        AgentEntry {
            label: "orchestrator".into(),
            workspace: "orchestrator".into(),
            session_index: Some(0),
            level: 1,
            group: false,
            reconcile: String::new(),
        },
        AgentEntry {
            label: "cli".into(),
            workspace: "cli".into(),
            session_index: Some(1),
            level: 1,
            group: false,
            reconcile: String::new(),
        },
    ];
    app.workspace_infos.insert(
        "orchestrator".into(),
        workspace_info("orchestrator", git.clone()),
    );
    app.workspace_infos
        .insert("cli".into(), workspace_info("cli", git));

    let rendered = render_app_to_string(&mut app, 120, 18);
    assert!(rendered.contains("▾ ax git changed:2 ?1"));
    assert_eq!(rendered.matches("git changed:2 ?1").count(), 1);
}

#[test]
fn group_git_summary_marks_mixed_child_statuses() {
    let dirty = WorkspaceGitStatus {
        state: "dirty".into(),
        modified: 2,
        untracked: 1,
        ..WorkspaceGitStatus::default()
    };
    let clean = WorkspaceGitStatus {
        state: "clean".into(),
        ..WorkspaceGitStatus::default()
    };
    let mut app = App::new();
    app.agent_entries = vec![
        AgentEntry {
            label: "▾ ax".into(),
            workspace: String::new(),
            session_index: None,
            level: 0,
            group: true,
            reconcile: String::new(),
        },
        AgentEntry {
            label: "orchestrator".into(),
            workspace: "orchestrator".into(),
            session_index: Some(0),
            level: 1,
            group: false,
            reconcile: String::new(),
        },
        AgentEntry {
            label: "cli".into(),
            workspace: "cli".into(),
            session_index: Some(1),
            level: 1,
            group: false,
            reconcile: String::new(),
        },
    ];
    app.workspace_infos
        .insert("orchestrator".into(), workspace_info("orchestrator", dirty));
    app.workspace_infos
        .insert("cli".into(), workspace_info("cli", clean));

    let (summary, _) = group_git_summary(0, &app, true).expect("group git summary");
    assert_eq!(summary, "mixed");

    let rendered = render_app_to_string(&mut app, 120, 18);
    assert!(rendered.contains("▾ ax git mixed"));
}

#[test]
fn git_summary_suffix_truncates_inside_name_column() {
    let mut line = Line::new();
    push_padded_split_span(
        &mut line,
        "▾ very-long-project-name",
        " git mixed",
        20,
        plain(),
        severity(Severity::Warning),
    );

    let rendered = span_text(&line.spans);
    assert_eq!(rendered.chars().count(), 20);
    assert!(rendered.ends_with(" git mixed"));
}

#[test]
fn group_git_summary_does_not_duplicate_nested_group_statuses() {
    let git = WorkspaceGitStatus {
        state: "dirty".into(),
        modified: 2,
        untracked: 1,
        ..WorkspaceGitStatus::default()
    };
    let mut app = App::new();
    app.agent_entries = vec![
        AgentEntry {
            label: "▾ ax".into(),
            workspace: String::new(),
            session_index: None,
            level: 0,
            group: true,
            reconcile: String::new(),
        },
        AgentEntry {
            label: "▾ child".into(),
            workspace: String::new(),
            session_index: None,
            level: 1,
            group: true,
            reconcile: String::new(),
        },
        AgentEntry {
            label: "worker".into(),
            workspace: "child.worker".into(),
            session_index: Some(0),
            level: 2,
            group: false,
            reconcile: String::new(),
        },
    ];
    app.workspace_infos
        .insert("child.worker".into(), workspace_info("child.worker", git));

    assert!(group_git_summary(0, &app, true).is_none());
    let (summary, _) = group_git_summary(1, &app, true).expect("child group git summary");
    assert_eq!(summary, "changed:2 ?1");
}

#[test]
fn task_row_uses_column_spans_for_scanability() {
    let mut task = mock_task();
    task.status = TaskStatus::Failed;
    task.assignee = "ax.cli".into();

    let line = format_task_row(&task, 80, false, true, now());
    assert!(line.spans.len() >= 7);
    assert_eq!(line.spans[0].content.trim(), "abc");
    assert_eq!(line.spans[2].content.trim(), "failed");
    assert_eq!(line.spans[4].content.trim(), "ax.cli");
    assert!(line.spans[2].style.bold);
}

#[test]
fn message_line_splits_time_sender_task_and_body_spans() {
    let entry = HistoryEntry {
        timestamp: at(1_776_744_000),
        from: "ax.orchestrator".into(),
        to: "ax.cli".into(),
        content: "blocked on review".into(),
        task_id: "abcdef123456".into(),
    };

    let line = message_list_line(&entry, 96, false, true);
    let rendered: String = line
        .spans
        .iter()
        .map(|span| span.content.as_str())
        .collect();
    assert!(rendered.contains("04:00:00"));
    assert!(rendered.contains("ax.orchestrator"));
    assert!(rendered.contains("ax.orchestrator → ax.cli"));
    assert!(rendered.contains("[abcdef12]"));
    assert!(rendered.contains("blocked on review"));
}

#[test]
fn message_line_labels_mcp_tool_activity_without_message_arrow() {
    let entry = HistoryEntry {
        timestamp: at(1_776_744_000),
        from: "alpha".into(),
        to: "ax.daemon".into(),
        content: "mcp tool start_task error duration_ms=34 error_kind=TOOL_ERROR".into(),
        task_id: "abcdef123456".into(),
    };

    let line = message_list_line(&entry, 120, false, true);
    let rendered = span_text(&line.spans);
    assert!(rendered.contains("04:00:00"));
    assert!(rendered.contains("alpha used start_task [abcdef12]: error duration_ms=34"));
    assert!(rendered.contains("error_kind=TOOL_ERROR"));
    assert!(!rendered.contains("alpha → ax.daemon"));
    assert!(!rendered.contains("mcp tool"));
}

#[test]
fn git_status_inline_includes_changed_and_untracked_counts() {
    let git = WorkspaceGitStatus {
        state: "dirty".into(),
        modified: 2,
        added: 1,
        deleted: 0,
        untracked: 3,
        files_changed: 4,
        insertions: 10,
        deletions: 2,
        message: String::new(),
    };

    assert_eq!(format_git_status_inline(&git, true), "changed:3 ?3");
    assert_eq!(format_git_status_inline(&git, false), "~3 ?3");
    assert_eq!(
        format_git_status_detail(&git),
        "dirty · modified 2 · added 1 · deleted 0 · untracked 3 · diff 4 files +10 -2"
    );
}

#[test]
fn git_status_inline_handles_unavailable_states() {
    let git = WorkspaceGitStatus {
        state: "inaccessible".into(),
        message: "permission denied".into(),
        ..WorkspaceGitStatus::default()
    };

    assert_eq!(format_git_status_inline(&git, true), "no access");
    assert_eq!(
        format_git_status_detail(&git),
        "inaccessible: permission denied"
    );
}

#[test]
fn git_status_inline_marks_clean_repos() {
    let git = WorkspaceGitStatus {
        state: "clean".into(),
        ..WorkspaceGitStatus::default()
    };

    assert_eq!(format_git_status_inline(&git, true), "clean");
    assert_eq!(format_git_status_inline(&git, false), "clean");
}


#[test]
fn popups_name_what_they_are_for() {
    let mut app = App::new();
    app.agent_entries = vec![AgentEntry {
        label: "alpha".into(),
        workspace: "alpha".into(),
        session_index: Some(0),
        level: 0,
        group: false,
        reconcile: String::new(),
    }];
    let frame = rect(0, 0, 100, 30);
    let help = draw_help(&app, frame);
    assert!(help.lines.lines.iter().any(|l| span_text(&l.spans).contains("quit")));
    ax::tui::input::open_overlay(&mut app, 0);
    let menu = draw_quick_actions(&app, frame, rect(1, 2, 98, 10), now());
    assert!(menu.area.width > 0 && menu.area.height > 0);
    assert_eq!(
        menu.lines.lines.iter().filter(|l| span_text(&l.spans).contains("Restart")
            || span_text(&l.spans).contains("restart")).count(),
        1
    );
}

#[test]
fn a_summary_leaves_out_what_does_not_fit() {
    let summary = TaskSummary { total: 2, pending: 2, ..TaskSummary::default() };
    let wide = span_text(&format_task_summary_line(&summary, 80).spans);
    assert_eq!(wide, "tot 2 · run 0 · pend 2 · stale 0");
    let narrow = span_text(&format_task_summary_line(&summary, 13).spans);
    assert_eq!(narrow, "tot 2 · run 0");
}

#[test]
fn a_model_goes_without_its_vendor() {
    assert_eq!(short_model("anthropic/model-x"), "model-x");
    assert_eq!(short_model("gpt-test"), "gpt-test");
}

#[test]
fn the_selected_row_is_on_the_screen() {
    for selected in 0..20 {
        let (start, end) = viewport_range(20, selected, 7);
        assert!(start <= selected && selected < end && end <= 20);
        assert_eq!(end - start, 7);
    }
}
