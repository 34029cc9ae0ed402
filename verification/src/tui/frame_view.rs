//! The frame round the two halves of the body, and what stands over it.

use vstd::prelude::*;

use crate::proto::types::{AgentStatus, Task, TaskStatus, WorkspaceInfo};
use crate::text::{count_of, decimal, pad, padded, texts};
use crate::time::Timestamp;
use crate::tui::actions::{confirm_text, selected_action, QuickAction};
use crate::tui::agents_view::{
    agent_line, agent_row, agents_head, agents_header, heading_line, AgentColumns, MetricCells,
};
use crate::tui::captures::{wrapped_capture, wrapped_lines};
use crate::tui::detail_view::{capture_of, capture_text, plain_lines, plain_page};
use crate::tui::layout::{
    add16, apply_detail_scroll, centered_loading_area, compute_viewport, detail_window, follow_tail,
    followed, further, help_area, help_rect, least, less, loading_area, menu_area, menu_rect, sub16,
    viewport, Rect,
};
use crate::tui::lines::{one, span, span_if, two, Line, Page, SpanView};
use crate::tui::pane::{no_viewport, Pane, PaneView};
use crate::tui::state::{
    app_tasks, detail_tabs, model_fields, workspace_selected, AgentDetailTab, App, AppModel, Focus,
    PaneCursor,
};
use crate::tui::stream::{tab_views, StreamView};
use crate::tui::tasks::{is_open, one_if, short_id, short_task_id, with_status};
use crate::tui::theme::{
    accent_bold, active_label, disabled, focus_border, muted, notice, plain, selection,
    severity_bold, strong, Severity, Style,
};

verus! {

broadcast use vstd::string::group_string_axioms;

/// How many workspaces are online.
pub open spec fn online_count(infos: Seq<WorkspaceInfo>) -> int
    decreases infos.len(),
{
    if infos.len() == 0 {
        0
    } else {
        online_count(infos.drop_last()) + one_if(infos.last().status == AgentStatus::Online)
    }
}

fn count_online(infos: &Vec<WorkspaceInfo>) -> (r: usize)
    ensures
        r == online_count(infos@),
{
    let mut n: usize = 0;
    let mut i: usize = 0;
    while i < infos.len()
        invariant
            n <= i <= infos@.len(),
            n == online_count(infos@.take(i as int)),
        decreases infos@.len() - i,
    {
        proof {
            assert(infos@.take(i + 1).drop_last() =~= infos@.take(i as int));
        }
        if infos[i].status == AgentStatus::Online {
            n = n + 1;
        }
        i = i + 1;
    }
    proof {
        assert(infos@.take(infos@.len() as int) =~= infos@);
    }
    n
}

/// How many tasks are still to be done.
pub open spec fn open_count(tasks: Seq<Task>) -> int
    decreases tasks.len(),
{
    if tasks.len() == 0 {
        0
    } else {
        open_count(tasks.drop_last()) + one_if(is_open(tasks.last().status))
    }
}

/// How many tasks are still to be done, and how many of them are blocked.
fn count_open(tasks: &Vec<Task>) -> (r: (usize, usize))
    ensures
        r.0 == open_count(tasks@),
        r.1 == with_status(tasks@, TaskStatus::Blocked),
{
    let mut open: usize = 0;
    let mut blocked: usize = 0;
    let mut i: usize = 0;
    while i < tasks.len()
        invariant
            open <= i <= tasks@.len(),
            blocked <= i,
            open == open_count(tasks@.take(i as int)),
            blocked == with_status(tasks@.take(i as int), TaskStatus::Blocked),
        decreases tasks@.len() - i,
    {
        proof {
            assert(tasks@.take(i + 1).drop_last() =~= tasks@.take(i as int));
        }
        match tasks[i].status {
            TaskStatus::Pending | TaskStatus::InProgress => {
                open = open + 1;
            },
            TaskStatus::Blocked => {
                open = open + 1;
                blocked = blocked + 1;
            },
            _ => {},
        }
        i = i + 1;
    }
    proof {
        assert(tasks@.take(tasks@.len() as int) =~= tasks@);
    }
    (open, blocked)
}

/// The line at the top of the screen.
pub open spec fn header_text(s: AppModel) -> Seq<char> {
    let blocked = with_status(s.tasks, TaskStatus::Blocked);
    "ax · daemon: "@ + (if s.daemon_running { "running"@ } else { "stopped"@ }) + " · agents: "@
        + decimal(online_count(s.workspace_infos.values@) as nat) + "/"@ + decimal(
        s.workspace_infos.values@.len(),
    ) + " · tasks: "@ + decimal(open_count(s.tasks) as nat) + " active / "@ + decimal(s.tasks.len())
        + (if blocked > 0 {
        " · blocked: "@ + decimal(blocked as nat)
    } else {
        Seq::empty()
    }) + " · sessions: "@ + decimal(s.sessions.len()) + " · filter: "@ + s.task_filter.label()@
}

/// The line at the top of the screen.
pub fn draw_header(app: &App) -> (r: String)
    ensures
        r@ == header_text(app@),
{
    proof {
        model_fields(*app);
    }
    let daemon = if app.daemon_running {
        "running"
    } else {
        "stopped"
    };
    let online = count_online(&app.workspace_infos.values);
    let (open, blocked) = count_open(&app.tasks);
    let blocked_part = if blocked > 0 {
        " · blocked: ".to_owned().concat(count_of(blocked).as_str())
    } else {
        String::new()
    };
    "ax · daemon: ".to_owned().concat(daemon).concat(" · agents: ").concat(
        count_of(online).as_str(),
    ).concat("/").concat(count_of(app.workspace_infos.values.len()).as_str()).concat(
        " · tasks: ",
    ).concat(count_of(open).as_str()).concat(" active / ").concat(
        count_of(app.tasks.len()).as_str(),
    ).concat(blocked_part.as_str()).concat(" · sessions: ").concat(
        count_of(app.sessions.len()).as_str(),
    ).concat(" · filter: ").concat(app.task_filter.label())
}

/// The keys that do something in the pane that has the keyboard.
pub open spec fn scoped_hint(s: AppModel) -> Seq<char> {
    match s.focus {
        Focus::List => match s.stream {
            StreamView::Agents => "↑↓/jk agent · enter actions"@,
            StreamView::Tasks => "↑↓/jk task"@,
            StreamView::Messages | StreamView::Tokens => "↑↓/jk scroll · g/G head/tail"@,
            StreamView::Stream => if s.stream_follow_tail {
                "↑↓/jk freeze scroll · g/G top/follow"@
            } else {
                "↑↓/jk scroll · G follow tail"@
            },
        },
        Focus::Detail => if s.stream == StreamView::Agents {
            if s.agent_detail_tab == AgentDetailTab::Messages || s.agent_detail_tab
                == AgentDetailTab::Activity {
                "h/l detail tab · ↑↓/jk scroll · g/G head/tail · esc list"@
            } else {
                "h/l detail tab · ↑↓/jk scroll · g reset · esc list"@
            }
        } else {
            "↑↓/jk scroll · g reset · esc list"@
        },
    }
}

/// The keys that do something right now.
pub open spec fn footer_hint(s: AppModel) -> Seq<char> {
    "["@ + s.focus.label()@ + "] "@ + scoped_hint(s) + " · [/] pane · Tab/"@ + (
    if s.streamed_workspace is Some {
        "1-5"@
    } else {
        "1-4"@
    }) + " view · f filter · ? help · q quit"@
}

/// The keys that do something right now.
pub fn focus_footer_hint(app: &App) -> (r: String)
    ensures
        r@ == footer_hint(app@),
{
    proof {
        model_fields(*app);
    }
    let range = if app.streamed_workspace.is_some() {
        "1-5"
    } else {
        "1-4"
    };
    let scoped = match app.focus {
        Focus::List => match app.stream {
            StreamView::Agents => "↑↓/jk agent · enter actions",
            StreamView::Tasks => "↑↓/jk task",
            StreamView::Messages | StreamView::Tokens => "↑↓/jk scroll · g/G head/tail",
            StreamView::Stream => if app.stream_follow_tail {
                "↑↓/jk freeze scroll · g/G top/follow"
            } else {
                "↑↓/jk scroll · G follow tail"
            },
        },
        Focus::Detail => if app.stream == StreamView::Agents {
            match app.agent_detail_tab {
                AgentDetailTab::Messages | AgentDetailTab::Activity => {
                    "h/l detail tab · ↑↓/jk scroll · g/G head/tail · esc list"
                },
                _ => "h/l detail tab · ↑↓/jk scroll · g reset · esc list",
            }
        } else {
            "↑↓/jk scroll · g reset · esc list"
        },
    };
    "[".to_owned().concat(app.focus.label()).concat("] ").concat(scoped).concat(
        " · [/] pane · Tab/",
    ).concat(range).concat(" view · f filter · ? help · q quit")
}

/// The line at the foot of the screen: a notice, where there is one, else the
/// keys that do something.
pub open spec fn footer(s: AppModel) -> Seq<SpanView> {
    match s.quick_notice {
        Some(n) => one(n.text, notice(n.error)),
        None => match s.notice {
            Some(n) => one(n.text, muted()),
            None => if s.quick_actions.open {
                one("↑↓ action · enter run · esc close · q quit"@, muted())
            } else {
                one(footer_hint(s), muted())
            },
        },
    }
}

/// The line at the foot of the screen.
pub fn draw_footer(app: &App) -> (r: Line)
    ensures
        r@ == footer(app@),
{
    proof {
        model_fields(*app);
    }
    if let Some(n) = &app.quick_notice {
        return Line::one(n.text.clone(), notice(n.error));
    }
    if let Some(n) = &app.notice {
        return Line::one(n.text.clone(), muted());
    }
    if app.quick_actions.open {
        return Line::one("↑↓ action · enter run · esc close · q quit".to_owned(), muted());
    }
    Line::one(focus_footer_hint(app), muted())
}

/// The edge of a half of the body shows whether it has the keyboard.
pub fn focus_border_style(app: &App, panel: Focus) -> (r: Style)
    ensures
        r == focus_border(app@.focus == panel),
{
    proof {
        model_fields(*app);
    }
    focus_border(app.focus == panel)
}

/// The style of the title of the detail.
#[verifier::allow_in_spec]
pub fn title_style(focused: bool) -> Style
    returns
        (if focused {
            accent_bold()
        } else {
            muted()
        }),
{
    if focused {
        accent_bold()
    } else {
        muted()
    }
}

/// The style of a label in a row of labels.
#[verifier::allow_in_spec]
pub fn label_style(selected: bool, focused: bool) -> Style
    returns
        (if selected {
            active_label(focused)
        } else if focused {
            disabled()
        } else {
            muted()
        }),
{
    if selected {
        active_label(focused)
    } else if focused {
        disabled()
    } else {
        muted()
    }
}

/// The first `n` tabs of the detail of an agent.
pub open spec fn detail_tab_spans(s: AppModel, narrow: bool, n: int) -> Seq<SpanView>
    decreases n,
{
    if n <= 0 {
        Seq::empty()
    } else {
        let tab = detail_tabs()[n - 1];
        (detail_tab_spans(s, narrow, n - 1) + span_if(n > 1, " "@, muted())).push(
            span(
                " "@ + (if narrow { tab.short_label()@ } else { tab.label()@ }) + " "@,
                label_style(tab == s.agent_detail_tab, s.focus == Focus::Detail),
            ),
        )
    }
}

/// The title of the detail of an agent: its name, and the tabs.
pub open spec fn agent_title(s: AppModel, width: int) -> Seq<SpanView> {
    let focused = s.focus == Focus::Detail;
    match workspace_selected(s) {
        None => one(" agent detail "@, title_style(focused)),
        Some(workspace) => one(
            " agent detail · "@ + workspace + " · "@,
            title_style(focused),
        ) + detail_tab_spans(s, width < 88, 5),
    }
}

/// The title of the detail of an agent.
#[verifier::loop_isolation(false)]
pub fn agent_detail_title(app: &App, width: u16) -> (r: Line)
    ensures
        r@ == agent_title(app@, width as int),
{
    proof {
        model_fields(*app);
    }
    let focused = app.focus == Focus::Detail;
    let narrow = width < 88;
    match app.selected_workspace() {
        None => Line::one(" agent detail ".to_owned(), title_style(focused)),
        Some(workspace) => {
            let mut line = Line::one(
                " agent detail · ".to_owned().concat(workspace).concat(" · "),
                title_style(focused),
            );
            let ghost top = line@;
            let tabs = AgentDetailTab::all();
            let mut i: usize = 0;
            proof {
                assert(line@ =~= top + detail_tab_spans(app@, narrow, 0));
            }
            while i < tabs.len()
                invariant
                    i <= tabs@.len(),
                    tabs@ == detail_tabs(),
                    line@ == top + detail_tab_spans(app@, narrow, i as int),
                decreases tabs@.len() - i,
            {
                let tab = tabs[i];
                let label = if narrow {
                    tab.short_label()
                } else {
                    tab.label()
                };
                line.add_if(i > 0, " ".to_owned(), muted());
                line.add(
                    " ".to_owned().concat(label).concat(" "),
                    label_style(tab == app.agent_detail_tab, focused),
                );
                proof {
                    assert(line@ =~= top + detail_tab_spans(app@, narrow, i + 1));
                }
                i = i + 1;
            }
            line
        },
    }
}

/// The title of the detail.
pub open spec fn detail_title_shown(s: AppModel, width: int) -> Seq<SpanView> {
    let style = title_style(s.focus == Focus::Detail);
    match s.stream {
        StreamView::Agents => agent_title(s, width),
        StreamView::Messages => one(" message detail "@, style),
        StreamView::Tasks => one(" task detail "@, style),
        StreamView::Tokens => one(" token detail "@, style),
        StreamView::Stream => match s.streamed_workspace {
            Some(w) => one(" stream · "@ + w + " "@, style),
            None => one(" stream detail "@, style),
        },
    }
}

/// The title of the detail.
pub fn detail_title(app: &App, width: u16) -> (r: Line)
    ensures
        r@ == detail_title_shown(app@, width as int),
{
    proof {
        model_fields(*app);
    }
    let style = title_style(app.focus == Focus::Detail);
    match app.stream {
        StreamView::Agents => agent_detail_title(app, width),
        StreamView::Messages => Line::one(" message detail ".to_owned(), style),
        StreamView::Tasks => Line::one(" task detail ".to_owned(), style),
        StreamView::Tokens => Line::one(" token detail ".to_owned(), style),
        StreamView::Stream => match &app.streamed_workspace {
            Some(w) => Line::one(" stream · ".to_owned().concat(w.as_str()).concat(" "), style),
            None => Line::one(" stream detail ".to_owned(), style),
        },
    }
}

/// The first `n` tabs of the body, numbered.
pub open spec fn tab_spans(s: AppModel, n: int) -> Seq<SpanView>
    decreases n,
{
    if n <= 0 {
        Seq::empty()
    } else {
        let view = tab_views(s.streamed_workspace is Some)[n - 1];
        (tab_spans(s, n - 1) + span_if(n > 1, " ─ "@, muted())).push(
            span(
                " "@ + decimal(n as nat) + "·"@ + view.tab_label()@ + " "@,
                label_style(view == s.stream, s.focus == Focus::Detail),
            ),
        )
    }
}

/// The tabs of the body.
pub fn tabs_title(app: &App) -> (r: Line)
    ensures
        r@ == tab_spans(app@, tab_views(app@.streamed_workspace is Some).len() as int),
{
    proof {
        model_fields(*app);
    }
    let focused = app.focus == Focus::Detail;
    let views = app.stream_tab_views();
    let mut line = Line::new();
    let mut i: usize = 0;
    while i < views.len()
        invariant
            i <= views@.len(),
            views@ == tab_views(app@.streamed_workspace is Some),
            focused == (app@.focus == Focus::Detail),
            app@.stream == app.stream,
            line@ == tab_spans(app@, i as int),
        decreases views@.len() - i,
    {
        let view = views[i];
        line.add_if(i > 0, " ─ ".to_owned(), muted());
        line.add(
            " ".to_owned().concat(count_of(i + 1).as_str()).concat("·").concat(
                view.tab_label(),
            ).concat(" "),
            label_style(view == app.stream, focused),
        );
        i = i + 1;
    }
    line
}

/// The title of a group of keys.
pub open spec fn key_group(title: Seq<char>) -> Seq<SpanView> {
    one(" "@ + title, accent_bold())
}

/// What a key does.
pub open spec fn key_line(key: Seq<char>, does: Seq<char>) -> Seq<SpanView> {
    two("  "@ + pad(key, 18), strong(), does, plain())
}

/// The space between two groups of keys.
pub open spec fn key_space() -> Seq<SpanView> {
    one(""@, plain())
}

fn add_group(page: &mut Page, title: &str)
    ensures
        final(page)@ == old(page)@.push(key_group(title@)),
{
    page.push_one(" ".to_owned().concat(title), accent_bold());
}

fn add_key(page: &mut Page, key: &str, does: &str)
    ensures
        final(page)@ == old(page)@.push(key_line(key@, does@)),
{
    page.push(
        Line::two(
            "  ".to_owned().concat(padded(key, 18).as_str()),
            strong(),
            does.to_owned(),
            plain(),
        ),
    );
}

fn add_space(page: &mut Page)
    ensures
        final(page)@ == old(page)@.push(key_space()),
{
    page.push_str("", plain());
}

/// The keys that do something everywhere, and in the lists.
pub open spec fn keys_of_lists(pinned: bool) -> Seq<Seq<SpanView>> {
    Seq::<Seq<SpanView>>::empty().push(key_group("global"@)).push(
        key_line("?"@, "toggle this help"@),
    ).push(key_line("q / ctrl-c"@, "quit"@)).push(
        key_line("[ / ]"@, "switch pane (list ↔ detail)"@),
    ).push(key_line("Tab / Shift-Tab"@, "cycle visible tab"@)).push(
        if pinned {
            key_line("1-5"@, "agents · messages · tasks · tokens · stream"@)
        } else {
            key_line("1-4"@, "agents · messages · tasks · tokens"@)
        },
    ).push(key_line("f"@, "cycle task filter"@)).push(key_space()).push(
        key_group("list · agents"@),
    ).push(key_line("↑ ↓ / j k"@, "move agent cursor"@)).push(
        key_line("Enter"@, "open action menu"@),
    ).push(key_line("wheel"@, "scroll list"@)).push(key_space()).push(
        key_group("list · tasks"@),
    ).push(key_line("↑ ↓ / j k"@, "move selected task"@)).push(
        key_line("wheel"@, "scroll list"@),
    ).push(key_space()).push(key_group("list · messages / tokens"@)).push(
        key_line("↑ ↓ / j k"@, "scroll"@),
    ).push(key_line("PgUp / PgDn"@, "scroll by page"@)).push(
        key_line("g / G"@, "head / tail"@),
    ).push(key_line("wheel"@, "scroll"@)).push(key_space())
}

/// The keys that do something while a terminal is mirrored.
pub open spec fn keys_of_stream() -> Seq<Seq<SpanView>> {
    Seq::<Seq<SpanView>>::empty().push(key_group("list · stream"@)).push(
        key_line("↑ ↓ / j k"@, "scroll / freeze"@),
    ).push(key_line("PgUp / PgDn"@, "scroll by page"@)).push(
        key_line("g / G"@, "top / follow tail"@),
    ).push(key_space())
}

/// The keys that do something in the detail and in the menu.
pub open spec fn keys_of_detail() -> Seq<Seq<SpanView>> {
    Seq::<Seq<SpanView>>::empty().push(key_group("detail"@)).push(
        key_line("↑ ↓ / j k"@, "scroll detail"@),
    ).push(key_line("h / l"@, "cycle agent detail tab (agents only)"@)).push(
        key_line("PgUp / PgDn"@, "scroll by page"@),
    ).push(key_line("g"@, "top"@)).push(key_line("Esc"@, "back to list"@)).push(
        key_space(),
    ).push(key_group("action menu"@)).push(key_line("↑ ↓"@, "select action"@)).push(
        key_line("Enter"@, "run (re-press to confirm destructive ops)"@),
    ).push(key_line("Esc"@, "close"@))
}

/// All keys, group by group.
pub open spec fn help_lines(pinned: bool) -> Seq<Seq<SpanView>> {
    keys_of_lists(pinned) + (if pinned { keys_of_stream() } else { Seq::empty() })
        + keys_of_detail()
}

fn page_of_lists(pinned: bool) -> (r: Page)
    ensures
        r@ == keys_of_lists(pinned),
        r@.len() == 23,
{
    let mut page = Page::new();
    add_group(&mut page, "global");
    add_key(&mut page, "?", "toggle this help");
    add_key(&mut page, "q / ctrl-c", "quit");
    add_key(&mut page, "[ / ]", "switch pane (list ↔ detail)");
    add_key(&mut page, "Tab / Shift-Tab", "cycle visible tab");
    if pinned {
        add_key(&mut page, "1-5", "agents · messages · tasks · tokens · stream");
    } else {
        add_key(&mut page, "1-4", "agents · messages · tasks · tokens");
    }
    add_key(&mut page, "f", "cycle task filter");
    add_space(&mut page);
    add_group(&mut page, "list · agents");
    add_key(&mut page, "↑ ↓ / j k", "move agent cursor");
    add_key(&mut page, "Enter", "open action menu");
    add_key(&mut page, "wheel", "scroll list");
    add_space(&mut page);
    add_group(&mut page, "list · tasks");
    add_key(&mut page, "↑ ↓ / j k", "move selected task");
    add_key(&mut page, "wheel", "scroll list");
    add_space(&mut page);
    add_group(&mut page, "list · messages / tokens");
    add_key(&mut page, "↑ ↓ / j k", "scroll");
    add_key(&mut page, "PgUp / PgDn", "scroll by page");
    add_key(&mut page, "g / G", "head / tail");
    add_key(&mut page, "wheel", "scroll");
    add_space(&mut page);
    page
}

fn page_of_stream(pinned: bool) -> (r: Page)
    ensures
        r@ == if pinned { keys_of_stream() } else { Seq::empty() },
        r@.len() <= 5,
{
    let mut page = Page::new();
    if pinned {
        add_group(&mut page, "list · stream");
        add_key(&mut page, "↑ ↓ / j k", "scroll / freeze");
        add_key(&mut page, "PgUp / PgDn", "scroll by page");
        add_key(&mut page, "g / G", "top / follow tail");
        add_space(&mut page);
    }
    page
}

fn page_of_detail() -> (r: Page)
    ensures
        r@ == keys_of_detail(),
        r@.len() == 11,
{
    let mut page = Page::new();
    add_group(&mut page, "detail");
    add_key(&mut page, "↑ ↓ / j k", "scroll detail");
    add_key(&mut page, "h / l", "cycle agent detail tab (agents only)");
    add_key(&mut page, "PgUp / PgDn", "scroll by page");
    add_key(&mut page, "g", "top");
    add_key(&mut page, "Esc", "back to list");
    add_space(&mut page);
    add_group(&mut page, "action menu");
    add_key(&mut page, "↑ ↓", "select action");
    add_key(&mut page, "Enter", "run (re-press to confirm destructive ops)");
    add_key(&mut page, "Esc", "close");
    page
}

/// A framed box over the body.
#[derive(Debug, Clone)]
pub struct Popup {
    pub title: String,
    pub area: Rect,
    pub lines: Page,
}

/// What a box shows, and where.
pub struct PopupView {
    pub title: Seq<char>,
    pub area: Rect,
    pub lines: Seq<Seq<SpanView>>,
}

impl View for Popup {
    type V = PopupView;

    open spec fn view(&self) -> PopupView {
        PopupView { title: self.title@, area: self.area, lines: self.lines@ }
    }
}

/// As many lines as fit; where some do not, a hint takes the place of the last
/// one that does.
pub open spec fn help_window(all: Seq<Seq<SpanView>>, height: int) -> Seq<Seq<SpanView>> {
    if all.len() <= height {
        all
    } else {
        all.take(height - 1).push(one("  ... resize terminal for more help"@, muted()))
    }
}

/// The help over a screen.
pub open spec fn help_shown(s: AppModel, frame: Rect) -> PopupView {
    let all = help_lines(s.streamed_workspace is Some);
    let area = help_area(frame, all.len() as int);
    PopupView {
        title: " help · ? or esc to close "@,
        area,
        lines: help_window(all, area.height - 2),
    }
}

/// The help over a screen.
pub fn draw_help(app: &App, frame: Rect) -> (r: Popup)
    ensures
        r@ == help_shown(app@, frame),
{
    proof {
        model_fields(*app);
    }
    let pinned = app.streamed_workspace.is_some();
    let mut lines = page_of_lists(pinned);
    lines.append(page_of_stream(pinned));
    lines.append(page_of_detail());
    let total = lines.len();
    let area = help_rect(frame, total as u16);
    let height: usize = area.height as usize - 2;
    if total > height {
        lines.truncate(height - 1);
        lines.push_str("  ... resize terminal for more help", muted());
    }
    Popup { title: " help · ? or esc to close ".to_owned(), area, lines }
}

/// What the menu acts on.
pub open spec fn menu_target(s: AppModel) -> Seq<char> {
    if s.quick_actions.target_task_id.len() > 0 {
        short_id(s.quick_actions.target_task_id)
    } else if s.quick_actions.target_workspace.len() > 0 {
        s.quick_actions.target_workspace
    } else {
        match workspace_selected(s) {
            Some(w) => w,
            None => Seq::empty(),
        }
    }
}

fn target_of_menu(app: &App) -> (r: String)
    ensures
        r@ == menu_target(app@),
{
    proof {
        model_fields(*app);
    }
    let menu = &app.quick_actions;
    if !menu.target_task_id.as_str().is_empty() {
        short_task_id(menu.target_task_id.as_str())
    } else if !menu.target_workspace.as_str().is_empty() {
        menu.target_workspace.clone()
    } else {
        match app.selected_workspace() {
            Some(w) => w.to_owned(),
            None => String::new(),
        }
    }
}

/// The row of the screen of what the menu acts on.
pub open spec fn menu_row(s: AppModel, list: Rect, now: Timestamp) -> int {
    if s.quick_actions.target_task_id.len() == 0 {
        let v = viewport(
            s.agent_entries.len() as int,
            s.selected_entry as int,
            less(list.height as int, 1),
        );
        further(
            further(list.y as int, 1),
            least(less(s.selected_entry as int, v.start as int), 0xFFFF),
        )
    } else {
        let top = least(list.height as int, 3);
        let n = app_tasks(s, now).len() as int;
        let selected = least(s.task_cursor.index as int, less(n, 1));
        let v = viewport(n, selected, less(list.height as int, top));
        further(
            further(list.y as int, top),
            least(less(selected, v.start as int), 0xFFFF),
        )
    }
}

/// A distance on the screen.
fn distance(a: usize, b: usize) -> (r: u16)
    ensures
        r == least(less(a as int, b as int), 0xFFFF),
{
    if a > b {
        if a - b < 0xFFFF {
            (a - b) as u16
        } else {
            0xFFFF
        }
    } else {
        0
    }
}

fn row_of_menu(app: &App, list: Rect, now: Timestamp) -> (r: u16)
    ensures
        r == menu_row(app@, list, now),
{
    proof {
        model_fields(*app);
    }
    if app.quick_actions.target_task_id.as_str().is_empty() {
        let v = compute_viewport(
            app.agent_entries.len(),
            app.selected_entry,
            sub16(list.height, 1) as usize,
        );
        add16(add16(list.y, 1), distance(app.selected_entry, v.start))
    } else {
        let top: u16 = if list.height < 3 {
            list.height
        } else {
            3
        };
        let n = app.filtered_tasks(now).len();
        let last: usize = if n > 0 {
            n - 1
        } else {
            0
        };
        let selected = if app.task_cursor.index < last {
            app.task_cursor.index
        } else {
            last
        };
        let v = compute_viewport(n, selected, sub16(list.height, top) as usize);
        add16(add16(list.y, top), distance(selected, v.start))
    }
}

/// The line of an action.
pub open spec fn action_line(a: QuickAction, selected: bool) -> Seq<SpanView> {
    one(
        (if selected { "▸ "@ } else { "  "@ }) + a.id.label()@,
        if selected { selection(true) } else { plain() },
    )
}

/// The lines of the menu: the actions, or the question whether to run one.
pub open spec fn menu_lines(s: AppModel) -> Seq<Seq<SpanView>> {
    let menu = s.quick_actions;
    if menu.confirm {
        let prompt = match selected_action(menu) {
            Some(a) => confirm_text(a.id, menu_target(s)),
            None => Seq::empty(),
        };
        Seq::<Seq<SpanView>>::empty().push(one(prompt, severity_bold(Severity::Warning))).push(
            one("enter to confirm · esc to cancel"@, muted()),
        )
    } else {
        Seq::new(
            menu.actions.len(),
            |i: int| action_line(menu.actions[i], i == menu.selected),
        ).push(one("enter to run · esc to close"@, muted()))
    }
}

#[verifier::loop_isolation(false)]
fn lines_of_menu(app: &App, target: &str) -> (r: Page)
    requires
        target@ == menu_target(app@),
    ensures
        r@ == menu_lines(app@),
{
    proof {
        model_fields(*app);
    }
    let menu = &app.quick_actions;
    let mut page = Page::new();
    if menu.confirm {
        let prompt = match menu.current() {
            Some(a) => a.id.confirm_prompt(target),
            None => String::new(),
        };
        page.push_one(prompt, severity_bold(Severity::Warning));
        page.push_str("enter to confirm · esc to cancel", muted());
        return page;
    }
    let ghost line_at = |i: int|
        action_line(app@.quick_actions.actions[i], i == app@.quick_actions.selected);
    let mut i: usize = 0;
    proof {
        assert(page@ =~= Seq::new(0, line_at));
    }
    while i < menu.actions.len()
        invariant
            i <= menu.actions@.len(),
            page@ == Seq::new(i as nat, line_at),
        decreases menu.actions@.len() - i,
    {
        let selected = i == menu.selected;
        let cursor = if selected {
            "▸ "
        } else {
            "  "
        };
        page.push_one(
            cursor.to_owned().concat(menu.actions[i].id.label()),
            if selected {
                selection(true)
            } else {
                plain()
            },
        );
        proof {
            assert(page@ =~= Seq::new((i + 1) as nat, line_at));
        }
        i = i + 1;
    }
    page.push_str("enter to run · esc to close", muted());
    page
}

/// The menu of actions over a screen, below the row that it acts on.
pub open spec fn menu_shown(s: AppModel, frame: Rect, list: Rect, now: Timestamp) -> PopupView {
    let lines = menu_lines(s);
    PopupView {
        title: " "@ + menu_target(s) + " actions "@,
        area: menu_area(
            frame,
            list,
            menu_row(s, list, now),
            least(lines.len() as int, 0xFFFF),
        ),
        lines,
    }
}

/// The menu of actions over a screen.
pub fn draw_quick_actions(app: &App, frame: Rect, list: Rect, now: Timestamp) -> (r: Popup)
    ensures
        r@ == menu_shown(app@, frame, list, now),
{
    let target = target_of_menu(app);
    let lines = lines_of_menu(app, target.as_str());
    let rows = distance(lines.len(), 0);
    let area = menu_rect(frame, list, row_of_menu(app, list, now), rows);
    Popup { title: " ".to_owned().concat(target.as_str()).concat(" actions "), area, lines }
}

/// The list of agents. What their rows show of tokens and money is given as
/// `cells`, one for each row.
pub open spec fn agents_shown(
    s: AppModel,
    area: Rect,
    spinner: Seq<char>,
    cells: Seq<MetricCells>,
    now: u64,
) -> PaneView {
    let nothing = Rect { height: 0, ..area };
    if area.width == 0 || area.height == 0 {
        PaneView {
            head: Seq::empty(),
            head_area: nothing,
            rows: Seq::empty(),
            rows_area: nothing,
            list_area: nothing,
            viewport: no_viewport(),
        }
    } else if s.agent_entries.len() == 0 {
        PaneView {
            head: Seq::empty(),
            head_area: nothing,
            rows: Seq::<Seq<SpanView>>::empty().push(
                one(
                    "No active agents. Run `ax up` in a project directory with .ax/config.yaml."@,
                    plain(),
                ),
            ),
            rows_area: area,
            list_area: area,
            viewport: no_viewport(),
        }
    } else {
        let cols = AgentColumns::of_width(area.width as int);
        let list = Rect {
            y: further(area.y as int, 1) as u16,
            height: less(area.height as int, 1) as u16,
            ..area
        };
        let v = viewport(
            s.agent_entries.len() as int,
            s.selected_entry as int,
            list.height as int,
        );
        PaneView {
            head: Seq::<Seq<SpanView>>::empty().push(agents_head(cols)),
            head_area: Rect { height: 1, ..area },
            rows: Seq::new(
                v.visible as nat,
                |i: int|
                    {
                        let row = s.agent_entries[v.start + i];
                        let shown = cells[v.start + i];
                        if row.group {
                            heading_line(s, v.start + i, row, cols)
                        } else {
                            agent_line(
                                s,
                                v.start + i,
                                row,
                                cols,
                                spinner,
                                shown.up@,
                                shown.down@,
                                shown.cost@,
                                now,
                            )
                        }
                    },
            ),
            rows_area: v.beside_scrollbar(list),
            list_area: list,
            viewport: v,
        }
    }
}

/// The list of agents.
#[verifier::loop_isolation(false)]
pub fn draw_agents_list(
    app: &App,
    area: Rect,
    spinner: &str,
    cells: &Vec<MetricCells>,
    now: u64,
) -> (r: Pane)
    requires
        app@.wf(),
        cells@.len() == app@.agent_entries.len(),
    ensures
        r@ == agents_shown(app@, area, spinner@, cells@, now),
{
    proof {
        model_fields(*app);
    }
    let nothing = Rect { x: area.x, y: area.y, width: area.width, height: 0 };
    let mut head = Page::new();
    let mut rows = Page::new();
    if area.width == 0 || area.height == 0 {
        return Pane {
            head,
            head_area: nothing,
            rows,
            rows_area: nothing,
            list_area: nothing,
            viewport: no_viewport(),
        };
    }
    if app.agent_entries.len() == 0 {
        rows.push_str(
            "No active agents. Run `ax up` in a project directory with .ax/config.yaml.",
            plain(),
        );
        return Pane {
            head,
            head_area: nothing,
            rows,
            rows_area: area,
            list_area: area,
            viewport: no_viewport(),
        };
    }
    let cols = AgentColumns::fit(area.width);
    head.push(agents_header(&cols));
    let list = Rect {
        x: area.x,
        y: add16(area.y, 1),
        width: area.width,
        height: sub16(area.height, 1),
    };
    let v = compute_viewport(app.agent_entries.len(), app.selected_entry, list.height as usize);
    let ghost line_at = |i: int|
        {
            let row = app@.agent_entries[v.start + i];
            let shown = cells@[v.start + i];
            if row.group {
                heading_line(app@, v.start + i, row, cols)
            } else {
                agent_line(
                    app@,
                    v.start + i,
                    row,
                    cols,
                    spinner@,
                    shown.up@,
                    shown.down@,
                    shown.cost@,
                    now,
                )
            }
        };
    let mut i: usize = v.start;
    proof {
        assert(rows@ =~= Seq::new(0, line_at));
    }
    while i < v.end
        invariant
            v.start <= i <= v.end <= app.agent_entries@.len(),
            rows@ == Seq::new((i - v.start) as nat, line_at),
        decreases v.end - i,
    {
        let entry = &app.agent_entries[i];
        proof {
            assert(app@.agent_entries[i as int] == entry@);
        }
        rows.push(agent_row(i, entry, app, &cols, spinner, &cells[i], now));
        proof {
            assert(rows@ =~= Seq::new((i + 1 - v.start) as nat, line_at));
        }
        i = i + 1;
    }
    Pane {
        head,
        head_area: Rect { x: area.x, y: area.y, width: area.width, height: 1 },
        rows,
        rows_area: v.content_area(list),
        list_area: list,
        viewport: v,
    }
}

/// The mirrored terminal.
#[derive(Debug, Clone)]
pub struct Mirror {
    pub caption: Page,
    pub waiting: bool,
    pub rows: Page,
    pub rows_area: Rect,
}

/// What a mirror shows, and where.
pub struct MirrorView {
    pub caption: Seq<Seq<SpanView>>,
    pub waiting: bool,
    pub rows: Seq<Seq<SpanView>>,
    pub rows_area: Rect,
}

impl View for Mirror {
    type V = MirrorView;

    open spec fn view(&self) -> MirrorView {
        MirrorView {
            caption: self.caption@,
            waiting: self.waiting,
            rows: self.rows@,
            rows_area: self.rows_area,
        }
    }
}

/// The area below the caption of the mirror.
pub open spec fn below_caption(area: Rect) -> Rect {
    Rect {
        y: further(area.y as int, 1) as u16,
        height: less(area.height as int, 1) as u16,
        ..area
    }
}

/// The terminal is shown, and not a hint in its place.
pub open spec fn is_mirrored(s: AppModel, area: Rect) -> bool {
    s.streamed_workspace matches Some(w) && area.width > 0 && area.height > 1 && capture_of(
        s,
        w,
    ).len() > 0
}

/// Where the mirrored terminal is scrolled to when it is drawn, and whether its
/// end is followed.
pub open spec fn mirror_place(s: AppModel, area: Rect) -> (int, bool) {
    let all = wrapped_capture(capture_of(s, s.streamed_workspace->0), area.width as int);
    followed(
        all.len() as int,
        area.height - 1,
        s.stream_cursor.index as int,
        s.stream_follow_tail,
    )
}

/// The state after the mirrored terminal was drawn.
pub open spec fn after_stream_drawn(s: AppModel, area: Rect) -> AppModel {
    if is_mirrored(s, area) {
        AppModel {
            stream_cursor: PaneCursor { index: mirror_place(s, area).0 as usize },
            stream_follow_tail: mirror_place(s, area).1,
            ..s
        }
    } else {
        s
    }
}

/// The mirrored terminal.
pub open spec fn stream_shown(s: AppModel, area: Rect) -> MirrorView {
    let nothing = Seq::<Seq<SpanView>>::empty();
    match s.streamed_workspace {
        None => MirrorView {
            caption: nothing,
            waiting: false,
            rows: nothing.push(
                one(
                    "  (no workspace streaming — focus an agent and hit enter → Stream tmux)"@,
                    muted(),
                ),
            ),
            rows_area: area,
        },
        Some(workspace) => if area.width == 0 || area.height == 0 {
            MirrorView { caption: nothing, waiting: false, rows: nothing, rows_area: area }
        } else if capture_of(s, workspace).len() == 0 {
            MirrorView {
                caption: nothing,
                waiting: true,
                rows: nothing.push(
                    one("waiting for tmux capture of "@ + workspace + "…"@, muted()),
                ),
                rows_area: loading_area(area),
            }
        } else {
            let all = wrapped_capture(capture_of(s, workspace), area.width as int);
            let body = below_caption(area);
            let visible = least(body.height as int, all.len() as int);
            let start = mirror_place(s, area).0;
            MirrorView {
                caption: nothing.push(
                    one(
                        "  "@ + workspace + " · tmux mirror · "@ + (if s.stream_follow_tail {
                            "follow"@
                        } else {
                            "frozen"@
                        }),
                        accent_bold(),
                    ),
                ),
                waiting: false,
                rows: if body.height == 0 {
                    nothing
                } else {
                    plain_lines(all.subrange(start, start + visible))
                },
                rows_area: body,
            }
        },
    }
}

/// The mirrored terminal. Drawing keeps its place within what is shown.
pub fn draw_stream(app: &mut App, area: Rect) -> (r: Mirror)
    requires
        old(app)@.wf(),
    ensures
        final(app)@ == after_stream_drawn(old(app)@, area),
        r@ == stream_shown(old(app)@, area),
{
    proof {
        model_fields(*app);
    }
    let mut caption = Page::new();
    let mut rows = Page::new();
    let workspace = match &app.streamed_workspace {
        None => {
            rows.push_str(
                "  (no workspace streaming — focus an agent and hit enter → Stream tmux)",
                muted(),
            );
            return Mirror { caption, waiting: false, rows, rows_area: area };
        },
        Some(w) => w.clone(),
    };
    if area.width == 0 || area.height == 0 {
        return Mirror { caption, waiting: false, rows, rows_area: area };
    }
    let capture = capture_text(app, workspace.as_str());
    if capture.is_empty() {
        rows.push_one(
            "waiting for tmux capture of ".to_owned().concat(workspace.as_str()).concat("…"),
            muted(),
        );
        return Mirror { caption, waiting: true, rows, rows_area: centered_loading_area(area) };
    }
    let mode = if app.stream_follow_tail {
        "follow"
    } else {
        "frozen"
    };
    caption.push_one(
        "  ".to_owned().concat(workspace.as_str()).concat(" · tmux mirror · ").concat(mode),
        accent_bold(),
    );
    let body = Rect {
        x: area.x,
        y: add16(area.y, 1),
        width: area.width,
        height: sub16(area.height, 1),
    };
    if body.height == 0 {
        return Mirror { caption, waiting: false, rows, rows_area: body };
    }
    let all = wrapped_lines(capture, area.width as usize);
    let (start, follow) = follow_tail(
        all.len(),
        body.height as usize,
        app.stream_cursor.index,
        app.stream_follow_tail,
    );
    let visible: usize = if (body.height as usize) < all.len() {
        body.height as usize
    } else {
        all.len()
    };
    let ghost told = texts(all@);
    let mut shown: Vec<String> = Vec::new();
    let mut i: usize = start;
    let end = start + visible;
    proof {
        assert(texts(shown@) =~= told.subrange(start as int, start as int));
    }
    while i < end
        invariant
            start <= i <= end <= all@.len(),
            told == texts(all@),
            texts(shown@) == told.subrange(start as int, i as int),
        decreases end - i,
    {
        let ghost pre = shown@;
        shown.push(all[i].clone());
        proof {
            assert(told[i as int] == all@[i as int]@);
            assert(texts(shown@) =~= texts(pre).push(all@[i as int]@));
            assert(texts(shown@) =~= told.subrange(start as int, i + 1));
        }
        i = i + 1;
    }
    rows = plain_page(&shown);
    app.put_stream_place(start, follow);
    Mirror { caption, waiting: false, rows, rows_area: body }
}

/// The tab of the detail shows a text whose end can be followed.
pub open spec fn follows_detail(s: AppModel) -> bool {
    s.stream == StreamView::Agents && workspace_selected(s) is Some && (s.agent_detail_tab
        == AgentDetailTab::Messages || s.agent_detail_tab == AgentDetailTab::Activity)
}

/// The state after a detail of `total` lines was drawn.
pub open spec fn after_detail_drawn(s: AppModel, area: Rect, total: int) -> AppModel {
    if area.width == 0 || area.height == 0 || !follows_detail(s) {
        s
    } else {
        let place = followed(
            total,
            area.height as int,
            s.detail_scroll.index as int,
            s.agent_detail_follow_tail,
        );
        AppModel {
            detail_scroll: PaneCursor { index: place.0 as usize },
            agent_detail_follow_tail: place.1,
            ..s
        }
    }
}

/// The first and the last line of a detail of `total` lines that is on the
/// screen. Drawing keeps the place of a text whose end can be followed within it.
pub fn place_detail(app: &mut App, area: Rect, total: usize) -> (r: (usize, usize))
    ensures
        final(app)@ == after_detail_drawn(old(app)@, area, total as int),
        r.0 <= r.1 <= total,
        area.width == 0 || area.height == 0 ==> r.0 == r.1,
        area.width > 0 && area.height > 0 ==> {
            let window = detail_window(
                total as int,
                area.height as int,
                final(app)@.detail_scroll.index as int,
            );
            r.0 == window.0 && r.1 - r.0 == window.1
        },
{
    proof {
        model_fields(*app);
    }
    if area.width == 0 || area.height == 0 {
        return (0, 0);
    }
    let followable = match app.agent_detail_tab {
        AgentDetailTab::Messages | AgentDetailTab::Activity => true,
        _ => false,
    };
    if app.stream == StreamView::Agents && app.selected_workspace().is_some() && followable {
        let (index, follow) = follow_tail(
            total,
            area.height as usize,
            app.detail_scroll.index,
            app.agent_detail_follow_tail,
        );
        app.put_detail_scroll(index);
        app.put_detail_follow(follow);
        proof {
            model_fields(*app);
        }
    }
    apply_detail_scroll(total, area.height as usize, app.detail_scroll.index)
}

} // verus!
