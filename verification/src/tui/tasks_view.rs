//! Tasks as they are drawn.

use vstd::prelude::*;

use crate::proto::types::{HistoryEntry, Task, TaskLog, TaskPriority, TaskStatus};
use crate::text::{
    char_count, count_of, decimal, join, join_all, number, number_of, pad, padded, texts,
};
use crate::time::{calendar_text, clock_text, Timestamp};
use crate::tui::agents_view::unless_selected;
use crate::tui::cells::{
    column, gap, labelled, push_detail_kv, push_detail_kv_if, push_gap, push_gap_with,
    push_padded_span,
};
use crate::tui::layout::{add16, compute_viewport, further, least, less, most, viewport, Rect};
use crate::tui::lines::{line_if, one, span, span_if, Line, Page, SpanView};
use crate::tui::messages_view::{body_style, message_body_style, selected_style};
use crate::tui::pane::{no_viewport, Pane, PaneView};
use crate::tui::state::{app_tasks, model_fields, task_selected, App, AppModel, Focus};
use crate::tui::tasks::{
    activities, age_text, build_task_activity, clipped, diverged_count, format_task_age,
    larger, last_items, queued_messages, referred, short_id, short_task_id, stale, stale_count,
    status_label, summarize_tasks, task_is_stale, task_priority_label, task_status_label,
    timeline, truncate, urgent_or_high_count, with_status, Activity, TaskSummary,
};
use crate::tui::theme::{
    active_label, assignee, bold, column_header, info, muted, plain, priority, selection, sender,
    severity, severity_bold, strong, task_id, task_status, task_title, timestamp, Severity, Style,
};

verus! {

broadcast use vstd::string::group_string_axioms;

/// The name of a status in the list of tasks.
#[verifier::allow_in_spec]
pub fn status_word(status: TaskStatus) -> &'static str
    returns
        (match status {
            TaskStatus::Pending => "pending",
            TaskStatus::InProgress => "running",
            TaskStatus::Blocked => "blocked",
            TaskStatus::Completed => "done",
            TaskStatus::Failed => "failed",
            TaskStatus::Cancelled => "cancelled",
        }),
{
    match status {
        TaskStatus::Pending => "pending",
        TaskStatus::InProgress => "running",
        TaskStatus::Blocked => "blocked",
        TaskStatus::Completed => "done",
        TaskStatus::Failed => "failed",
        TaskStatus::Cancelled => "cancelled",
    }
}

/// The status of a task, marked where a task that waits or runs makes no
/// progress.
pub open spec fn task_state(task: Task, now: Timestamp) -> Seq<char> {
    if stale(task, now) && (task.status == TaskStatus::Pending || task.status
        == TaskStatus::InProgress) {
        status_word(task.status)@ + " stale"@
    } else {
        status_word(task.status)@
    }
}

/// The status of a task in a few characters.
pub fn format_task_state(task: &Task, now: Timestamp) -> (r: String)
    ensures
        r@ == task_state(*task, now),
{
    let base = status_word(task.status).to_owned();
    let open = match task.status {
        TaskStatus::Pending | TaskStatus::InProgress => true,
        _ => false,
    };
    if task_is_stale(task, now) && open {
        base.concat(" stale")
    } else {
        base
    }
}

/// The row of a task: identity, status, owner, title. A narrow pane shows them in
/// one style, cut off.
pub open spec fn task_row(task: Task, width: int, sel: Option<Style>, now: Timestamp) -> Seq<
    SpanView,
> {
    let id = short_id(task.id@);
    let state = task_state(task, now);
    let state_style = unless_selected(sel, task_status(task.status, stale(task, now)));
    if width <= 36 {
        one(
            clipped(
                pad(id, 8) + " "@ + pad(clipped(state, 13), 13) + " "@ + pad(
                    clipped(task.assignee@, 12),
                    12,
                ) + " "@ + task.title@,
                most(width, 1),
            ),
            state_style,
        )
    } else {
        let between = gap(unless_selected(sel, plain()));
        Seq::<SpanView>::empty().push(column(id, 8, unless_selected(sel, task_id()))).push(
            between,
        ).push(column(state, 13, state_style)).push(between).push(
            column(task.assignee@, 12, unless_selected(sel, assignee())),
        ).push(between).push(
            column(
                task.title@,
                width - 36,
                unless_selected(sel, task_title(task.status)),
            ),
        )
    }
}

fn pick(selected: Option<Style>, style: Style) -> (r: Style)
    ensures
        r == unless_selected(selected, style),
{
    match selected {
        Some(s) => s,
        None => style,
    }
}

/// The row of a task.
pub fn format_task_row(task: &Task, width: usize, selected: bool, focused: bool, now: Timestamp) -> (
r: Line)
    ensures
        r@ == task_row(*task, width as int, selected_style(selected, focused), now),
{
    let sel = if selected {
        Some(selection(focused))
    } else {
        None
    };
    let id = short_task_id(task.id.as_str());
    let state = format_task_state(task, now);
    let state_style = pick(sel, task_status(task.status, task_is_stale(task, now)));
    if width <= 36 {
        let row = padded(id.as_str(), 8).concat(" ").concat(
            padded(truncate(state.as_str(), 13).as_str(), 13).as_str(),
        ).concat(" ").concat(
            padded(truncate(task.assignee.as_str(), 12).as_str(), 12).as_str(),
        ).concat(" ").concat(task.title.as_str());
        let least_width: usize = if width > 1 {
            width
        } else {
            1
        };
        return Line::one(truncate(row.as_str(), least_width), state_style);
    }
    let gap_style = pick(sel, plain());
    let mut line = Line::new();
    push_padded_span(&mut line, id.as_str(), 8, pick(sel, task_id()));
    push_gap_with(&mut line, gap_style);
    push_padded_span(&mut line, state.as_str(), 13, state_style);
    push_gap_with(&mut line, gap_style);
    push_padded_span(&mut line, task.assignee.as_str(), 12, pick(sel, assignee()));
    push_gap_with(&mut line, gap_style);
    push_padded_span(
        &mut line,
        task.title.as_str(),
        width - 36,
        pick(sel, task_title(task.status)),
    );
    line
}

/// The head of the list of tasks.
pub open spec fn task_head(width: int) -> Seq<SpanView> {
    if width <= 36 {
        one(clipped("ID       STATE         OWNER        TITLE"@, width), column_header())
    } else {
        Seq::<SpanView>::empty().push(column("ID"@, 8, column_header())).push(gap(plain())).push(
            column("STATE"@, 13, column_header()),
        ).push(gap(plain())).push(column("OWNER"@, 12, column_header())).push(gap(plain())).push(
            column("TITLE"@, width - 36, column_header()),
        )
    }
}

/// The head of the list of tasks.
pub fn task_header_line(width: usize) -> (r: Line)
    ensures
        r@ == task_head(width as int),
{
    if width <= 36 {
        return Line::one(
            truncate("ID       STATE         OWNER        TITLE", width),
            column_header(),
        );
    }
    let mut line = Line::new();
    push_padded_span(&mut line, "ID", 8, column_header());
    push_gap(&mut line);
    push_padded_span(&mut line, "STATE", 13, column_header());
    push_gap(&mut line);
    push_padded_span(&mut line, "OWNER", 12, column_header());
    push_gap(&mut line);
    push_padded_span(&mut line, "TITLE", width - 36, column_header());
    line
}

/// A name and a count.
pub open spec fn counted(name: Seq<char>, n: usize) -> Seq<char> {
    name + decimal(n as nat)
}

fn count_text(name: &str, n: usize) -> (r: String)
    ensures
        r@ == counted(name@, n),
{
    name.to_owned().concat(count_of(n).as_str())
}

/// The counts of tasks, each with its style. The first four are always there,
/// the others only where they are not zero.
pub open spec fn summary_parts(s: TaskSummary) -> Seq<SpanView> {
    Seq::<SpanView>::empty().push(span(counted("tot "@, s.total), strong())).push(
        span(counted("run "@, s.in_progress), task_status(TaskStatus::InProgress, false)),
    ).push(span(counted("pend "@, s.pending), task_status(TaskStatus::Pending, false))).push(
        span(counted("stale "@, s.stale), severity(Severity::Warning)),
    ) + span_if(
        s.blocked != 0,
        counted("block "@, s.blocked),
        task_status(TaskStatus::Blocked, false),
    ) + span_if(
        s.failed != 0,
        counted("fail "@, s.failed),
        task_status(TaskStatus::Failed, false),
    ) + span_if(
        s.completed != 0,
        counted("done "@, s.completed),
        task_status(TaskStatus::Completed, false),
    ) + span_if(s.queued_messages != 0, "msg "@ + number(s.queued_messages as int), task_id())
        + span_if(s.diverged != 0, counted("div "@, s.diverged), severity(Severity::Warning))
        + span_if(
        s.urgent_or_high != 0,
        counted("hi "@, s.urgent_or_high),
        priority(Some(TaskPriority::High)),
    ) + span_if(
        s.cancelled != 0,
        counted("cancel "@, s.cancelled),
        task_status(TaskStatus::Cancelled, false),
    )
}

/// The counts of tasks, each with its style.
fn parts_of_summary(s: &TaskSummary) -> (r: Line)
    ensures
        r@ == summary_parts(*s),
{
    let mut line = Line::new();
    line.add(count_text("tot ", s.total), strong());
    line.add(count_text("run ", s.in_progress), task_status(TaskStatus::InProgress, false));
    line.add(count_text("pend ", s.pending), task_status(TaskStatus::Pending, false));
    line.add(count_text("stale ", s.stale), severity(Severity::Warning));
    line.add_if(
        s.blocked != 0,
        count_text("block ", s.blocked),
        task_status(TaskStatus::Blocked, false),
    );
    line.add_if(
        s.failed != 0,
        count_text("fail ", s.failed),
        task_status(TaskStatus::Failed, false),
    );
    line.add_if(
        s.completed != 0,
        count_text("done ", s.completed),
        task_status(TaskStatus::Completed, false),
    );
    line.add_if(
        s.queued_messages != 0,
        "msg ".to_owned().concat(number_of(s.queued_messages).as_str()),
        task_id(),
    );
    line.add_if(s.diverged != 0, count_text("div ", s.diverged), severity(Severity::Warning));
    line.add_if(
        s.urgent_or_high != 0,
        count_text("hi ", s.urgent_or_high),
        priority(Some(TaskPriority::High)),
    );
    line.add_if(
        s.cancelled != 0,
        count_text("cancel ", s.cancelled),
        task_status(TaskStatus::Cancelled, false),
    );
    line
}

/// How many characters the first `n` parts take with a dot between neighbours.
pub open spec fn joined_width(parts: Seq<SpanView>, n: int) -> int
    decreases n,
{
    if n <= 0 {
        0
    } else {
        joined_width(parts, n - 1) + (if n > 1 { 3int } else { 0 }) + parts[n - 1].content.len()
    }
}

/// The first `n` parts with a dot between neighbours.
pub open spec fn joined_parts(parts: Seq<SpanView>, n: int) -> Seq<SpanView>
    decreases n,
{
    if n <= 0 {
        Seq::empty()
    } else {
        (joined_parts(parts, n - 1) + span_if(n > 1, " · "@, muted())).push(parts[n - 1])
    }
}

/// `n`, or the number of leading parts that fit where more do.
pub open spec fn fitting(parts: Seq<SpanView>, n: int, width: int) -> int
    decreases parts.len() - n,
{
    if n >= parts.len() || joined_width(parts, n + 1) > width {
        n
    } else {
        fitting(parts, n + 1, width)
    }
}

/// A part that is only there under a condition.
pub open spec fn text_if(cond: bool, text: Seq<char>) -> Seq<Seq<char>> {
    if cond {
        seq![text]
    } else {
        Seq::empty()
    }
}

/// The counts of tasks in one text.
pub open spec fn compact_summary(s: TaskSummary) -> Seq<char> {
    join(
        seq![
            counted("tot "@, s.total),
            counted("run "@, s.in_progress),
            counted("pend "@, s.pending),
            counted("stale "@, s.stale),
        ] + text_if(s.blocked > 0, counted("block "@, s.blocked)) + text_if(
            s.failed > 0,
            counted("fail "@, s.failed),
        ) + text_if(s.completed > 0, counted("done "@, s.completed)) + text_if(
            s.queued_messages > 0,
            "msg "@ + number(s.queued_messages as int),
        ) + text_if(s.diverged > 0, counted("div "@, s.diverged)) + text_if(
            s.urgent_or_high > 0,
            counted("hi "@, s.urgent_or_high),
        ) + text_if(s.cancelled > 0, counted("cancel "@, s.cancelled)),
        " · "@,
    )
}

fn push_text_if(v: &mut Vec<String>, cond: bool, text: String)
    ensures
        texts(final(v)@) == texts(old(v)@) + text_if(cond, text@),
{
    let ghost pre = v@;
    if cond {
        v.push(text);
    }
    proof {
        assert(texts(v@) =~= texts(pre) + text_if(cond, text@));
    }
}

/// The counts of tasks in one text.
pub fn format_task_summary_compact(s: &TaskSummary) -> (r: String)
    ensures
        r@ == compact_summary(*s),
{
    let mut parts: Vec<String> = Vec::new();
    parts.push(count_text("tot ", s.total));
    parts.push(count_text("run ", s.in_progress));
    parts.push(count_text("pend ", s.pending));
    parts.push(count_text("stale ", s.stale));
    proof {
        assert(texts(parts@) =~= seq![
            counted("tot "@, s.total),
            counted("run "@, s.in_progress),
            counted("pend "@, s.pending),
            counted("stale "@, s.stale),
        ]);
    }
    push_text_if(&mut parts, s.blocked > 0, count_text("block ", s.blocked));
    push_text_if(&mut parts, s.failed > 0, count_text("fail ", s.failed));
    push_text_if(&mut parts, s.completed > 0, count_text("done ", s.completed));
    push_text_if(
        &mut parts,
        s.queued_messages > 0,
        "msg ".to_owned().concat(number_of(s.queued_messages).as_str()),
    );
    push_text_if(&mut parts, s.diverged > 0, count_text("div ", s.diverged));
    push_text_if(&mut parts, s.urgent_or_high > 0, count_text("hi ", s.urgent_or_high));
    push_text_if(&mut parts, s.cancelled > 0, count_text("cancel ", s.cancelled));
    join_all(&parts, " · ")
}

/// The line of counts: as many leading ones as fit, or, where not even one does,
/// all of them cut off.
pub open spec fn summary_line(s: TaskSummary, width: int) -> Seq<SpanView> {
    let parts = summary_parts(s);
    let n = fitting(parts, 0, width);
    if n == 0 {
        one(clipped(compact_summary(s), width), strong())
    } else {
        joined_parts(parts, n)
    }
}

/// The line of counts.
pub fn format_task_summary_line(s: &TaskSummary, width: usize) -> (r: Line)
    ensures
        r@ == summary_line(*s, width as int),
{
    let parts = parts_of_summary(s);
    let ghost all = parts@;
    let mut line = Line::new();
    let mut used: usize = 0;
    let mut i: usize = 0;
    while i < parts.spans.len()
        invariant_except_break
            fitting(all, i as int, width as int) == fitting(all, 0, width as int),
        invariant
            i <= parts.spans@.len(),
            all == parts@,
            all.len() == parts.spans@.len(),
            used == joined_width(all, i as int),
            used <= width,
            line@ == joined_parts(all, i as int),
        ensures
            i == fitting(all, 0, width as int),
        decreases parts.spans@.len() - i,
    {
        let text = parts.spans[i].content.as_str();
        let sep: usize = if i > 0 {
            3
        } else {
            0
        };
        let n = char_count(text);
        let room = width - used;
        proof {
            assert(all[i as int] == parts.spans@[i as int]@);
        }
        if n > room || sep > room - n {
            break;
        }
        line.add_if(i > 0, " · ".to_owned(), muted());
        line.add_str(text, parts.spans[i].style);
        used = used + sep + n;
        i = i + 1;
    }
    if i == 0 {
        return Line::one(truncate(format_task_summary_compact(s).as_str(), width), strong());
    }
    line
}

/// The counts of the tasks.
pub open spec fn summary_of(tasks: Seq<Task>, now: Timestamp) -> TaskSummary {
    TaskSummary {
        total: tasks.len() as usize,
        pending: with_status(tasks, TaskStatus::Pending) as usize,
        in_progress: with_status(tasks, TaskStatus::InProgress) as usize,
        blocked: with_status(tasks, TaskStatus::Blocked) as usize,
        completed: with_status(tasks, TaskStatus::Completed) as usize,
        failed: with_status(tasks, TaskStatus::Failed) as usize,
        cancelled: with_status(tasks, TaskStatus::Cancelled) as usize,
        stale: stale_count(tasks, now) as usize,
        diverged: diverged_count(tasks) as usize,
        queued_messages: queued_messages(tasks) as i128,
        urgent_or_high: urgent_or_high_count(tasks) as usize,
    }
}

/// The three lines above the list of tasks: which are listed, the counts of all
/// of them or what went wrong in reading them, and the names of the columns.
pub open spec fn tasks_head(s: AppModel, width: int, now: Timestamp) -> Seq<Seq<SpanView>> {
    let n = app_tasks(s, now).len() as int;
    let wide = most(width, 1);
    let title = "tasks · "@ + s.task_filter.label()@ + " · "@ + decimal(
        least(n, s.task_cursor.index + 1) as nat,
    ) + "/"@ + decimal(n as nat);
    Seq::<Seq<SpanView>>::empty().push(
        one(clipped(title, wide), active_label(s.focus == Focus::List)),
    ).push(
        match s.task_snapshot_error {
            Some(error) => one(
                clipped("snapshot error: "@ + error, wide),
                severity(Severity::Danger),
            ),
            None => summary_line(summary_of(s.tasks, now), wide),
        },
    ).push(task_head(wide))
}

/// The list of tasks.
pub open spec fn tasks_shown(s: AppModel, area: Rect, now: Timestamp) -> PaneView {
    let nothing = Rect { height: 0, ..area };
    if s.tasks.len() == 0 {
        PaneView {
            head: Seq::empty(),
            head_area: nothing,
            rows: Seq::<Seq<SpanView>>::empty().push(
                match s.task_snapshot_error {
                    Some(error) => one(
                        clipped("  snapshot error: "@ + error, area.width as int),
                        severity(Severity::Danger),
                    ),
                    None => one("  (no tasks yet)"@, muted()),
                },
            ),
            rows_area: area,
            list_area: area,
            viewport: no_viewport(),
        }
    } else if area.width == 0 || area.height == 0 {
        PaneView {
            head: Seq::empty(),
            head_area: nothing,
            rows: Seq::empty(),
            rows_area: nothing,
            list_area: nothing,
            viewport: no_viewport(),
        }
    } else {
        let tasks = app_tasks(s, now);
        let top = least(area.height as int, 3);
        let body = Rect {
            y: further(area.y as int, top) as u16,
            height: less(area.height as int, top) as u16,
            ..area
        };
        let head = tasks_head(s, area.width as int, now).take(top);
        let head_area = Rect { height: top as u16, ..area };
        if tasks.len() == 0 {
            PaneView {
                head,
                head_area,
                rows: line_if(
                    body.height > 0,
                    one("  (no tasks match current filter — press f to cycle)"@, muted()),
                ),
                rows_area: body,
                list_area: body,
                viewport: no_viewport(),
            }
        } else {
            let v = viewport(tasks.len() as int, s.task_cursor.index as int, body.height as int);
            let content = v.beside_scrollbar(body);
            PaneView {
                head,
                head_area,
                rows: Seq::new(
                    v.visible as nat,
                    |i: int|
                        task_row(
                            tasks[v.start + i],
                            content.width as int,
                            selected_style(
                                v.start + i == s.task_cursor.index,
                                s.focus == Focus::List,
                            ),
                            now,
                        ),
                ),
                rows_area: content,
                list_area: body,
                viewport: v,
            }
        }
    }
}

/// The three lines above the list of tasks.
fn head_of_tasks(app: &App, listed: usize, width: usize, now: Timestamp) -> (r: Page)
    requires
        listed == app_tasks(app@, now).len(),
    ensures
        r@ == tasks_head(app@, width as int, now),
{
    proof {
        model_fields(*app);
    }
    let wide: usize = if width > 1 {
        width
    } else {
        1
    };
    let at: usize = if app.task_cursor.index < listed {
        app.task_cursor.index + 1
    } else {
        listed
    };
    let title = "tasks · ".to_owned().concat(app.task_filter.label()).concat(" · ").concat(
        count_of(at).as_str(),
    ).concat("/").concat(count_of(listed).as_str());
    let mut page = Page::new();
    page.push_one(truncate(title.as_str(), wide), active_label(app.focus == Focus::List));
    match &app.task_snapshot_error {
        Some(error) => {
            let text = "snapshot error: ".to_owned().concat(error.as_str());
            page.push_one(truncate(text.as_str(), wide), severity(Severity::Danger));
        },
        None => {
            let summary = summarize_tasks(&app.tasks, now);
            proof {
                assert(summary == summary_of(app.tasks@, now));
            }
            page.push(format_task_summary_line(&summary, wide));
        },
    }
    page.push(task_header_line(wide));
    page
}

/// The list of tasks.
#[verifier::loop_isolation(false)]
pub fn draw_tasks_list(app: &App, area: Rect, now: Timestamp) -> (r: Pane)
    ensures
        r@ == tasks_shown(app@, area, now),
{
    proof {
        model_fields(*app);
    }
    let nothing = Rect { x: area.x, y: area.y, width: area.width, height: 0 };
    let mut rows = Page::new();
    if app.tasks.len() == 0 {
        match &app.task_snapshot_error {
            Some(error) => {
                let text = "  snapshot error: ".to_owned().concat(error.as_str());
                rows.push_one(
                    truncate(text.as_str(), area.width as usize),
                    severity(Severity::Danger),
                );
            },
            None => {
                rows.push_str("  (no tasks yet)", muted());
            },
        }
        return Pane {
            head: Page::new(),
            head_area: nothing,
            rows,
            rows_area: area,
            list_area: area,
            viewport: no_viewport(),
        };
    }
    if area.width == 0 || area.height == 0 {
        return Pane {
            head: Page::new(),
            head_area: nothing,
            rows,
            rows_area: nothing,
            list_area: nothing,
            viewport: no_viewport(),
        };
    }
    let tasks = app.filtered_tasks(now);
    let ghost listed = app_tasks(app@, now);
    let top: u16 = if area.height < 3 {
        area.height
    } else {
        3
    };
    let body = Rect {
        x: area.x,
        y: add16(area.y, top),
        width: area.width,
        height: area.height - top,
    };
    let mut head = head_of_tasks(app, tasks.len(), area.width as usize, now);
    head.truncate(top as usize);
    proof {
        let all = tasks_head(app@, area.width as int, now);
        assert(all.len() == 3);
        assert(head@ =~= all.take(top as int));
    }
    let head_area = Rect { x: area.x, y: area.y, width: area.width, height: top };
    if tasks.len() == 0 {
        rows.push_if(
            body.height > 0,
            Line::one(
                "  (no tasks match current filter — press f to cycle)".to_owned(),
                muted(),
            ),
        );
        proof {
            let told = line_if(
                body.height > 0,
                one("  (no tasks match current filter — press f to cycle)"@, muted()),
            );
            assert(Seq::<Seq<SpanView>>::empty() + told =~= told);
        }
        return Pane {
            head,
            head_area,
            rows,
            rows_area: body,
            list_area: body,
            viewport: no_viewport(),
        };
    }
    let v = compute_viewport(tasks.len(), app.task_cursor.index, body.height as usize);
    let content = v.content_area(body);
    let width: usize = content.width as usize;
    let focused = app.focus == Focus::List;
    let ghost line_at = |i: int|
        task_row(
            listed[v.start + i],
            content.width as int,
            selected_style(v.start + i == app@.task_cursor.index, app@.focus == Focus::List),
            now,
        );
    let mut i: usize = v.start;
    proof {
        assert(rows@ =~= Seq::new(0, line_at));
    }
    while i < v.end
        invariant
            v.start <= i <= v.end <= tasks@.len(),
            rows@ == Seq::new((i - v.start) as nat, line_at),
        decreases v.end - i,
    {
        proof {
            assert(referred(tasks@)[i as int] == *tasks@[i as int]);
        }
        rows.push(format_task_row(tasks[i], width, i == app.task_cursor.index, focused, now));
        proof {
            assert(rows@ =~= Seq::new((i + 1 - v.start) as nat, line_at));
        }
        i = i + 1;
    }
    Pane { head, head_area, rows, rows_area: content, list_area: body, viewport: v }
}

/// The lines of a removed task.
pub open spec fn removal_lines(task: Task, width: int) -> Seq<Seq<SpanView>> {
    match task.removed_at {
        Some(ts) => Seq::<Seq<SpanView>>::empty().push(
            labelled(
                "removed"@,
                calendar_text(ts.unix_secs(), ts.sub_nanos(), "%Y-%m-%d %H:%M:%S"@),
                timestamp(),
                width,
            ),
        ) + line_if(
            task.removed_by@.len() > 0,
            labelled("removed_by"@, task.removed_by@, sender(), width),
        ),
        None => Seq::empty(),
    }
}

fn lines_of_removal(task: &Task, width: usize) -> (r: Page)
    ensures
        r@ == removal_lines(*task, width as int),
{
    let mut page = Page::new();
    if let Some(ts) = &task.removed_at {
        push_detail_kv(&mut page, "removed", ts.date_and_clock().as_str(), timestamp(), width);
        push_detail_kv_if(
            &mut page,
            !task.removed_by.as_str().is_empty(),
            "removed_by",
            task.removed_by.as_str(),
            sender(),
            width,
        );
    }
    page
}

/// A text under its label after an empty line, where there is one.
pub open spec fn text_lines(label: Seq<char>, text: Seq<char>, style: Style, width: int) -> Seq<
    Seq<SpanView>,
> {
    if text.len() == 0 {
        Seq::empty()
    } else {
        Seq::<Seq<SpanView>>::empty().push(Seq::<SpanView>::empty()).push(
            labelled(label, text, style, width),
        )
    }
}

fn lines_of_text(label: &str, text: &str, style: Style, width: usize) -> (r: Page)
    ensures
        r@ == text_lines(label@, text@, style, width as int),
{
    let mut page = Page::new();
    if !text.is_empty() {
        page.push_blank();
        push_detail_kv(&mut page, label, text, style, width);
    }
    page
}

/// What is known of a task that makes no progress.
pub open spec fn stale_lines(task: Task, width: int) -> Seq<Seq<SpanView>> {
    match task.stale_info {
        Some(known) => Seq::<Seq<SpanView>>::empty().push(Seq::<SpanView>::empty()).push(
            one("stale_info:"@, severity_bold(Severity::Warning)),
        ) + line_if(
            known.reason@.len() > 0,
            labelled("  reason"@, known.reason@, severity(Severity::Warning), width),
        ) + line_if(
            known.recommended_action@.len() > 0,
            labelled("  action"@, known.recommended_action@, info(), width),
        ) + line_if(
            known.pending_messages > 0,
            labelled(
                "  pending_messages"@,
                number(known.pending_messages as int),
                task_id(),
                width,
            ),
        ) + line_if(
            known.wake_pending,
            labelled(
                "  wake_attempts"@,
                number(known.wake_attempts as int),
                severity(Severity::Warning),
                width,
            ),
        ) + line_if(
            known.state_divergence,
            labelled(
                "  divergence"@,
                known.state_divergence_note@,
                severity(Severity::Warning),
                width,
            ),
        ),
        None => Seq::empty(),
    }
}

fn lines_of_staleness(task: &Task, width: usize) -> (r: Page)
    ensures
        r@ == stale_lines(*task, width as int),
{
    let mut page = Page::new();
    if let Some(known) = &task.stale_info {
        page.push_blank();
        page.push_str("stale_info:", severity_bold(Severity::Warning));
        push_detail_kv_if(
            &mut page,
            !known.reason.as_str().is_empty(),
            "  reason",
            known.reason.as_str(),
            severity(Severity::Warning),
            width,
        );
        push_detail_kv_if(
            &mut page,
            !known.recommended_action.as_str().is_empty(),
            "  action",
            known.recommended_action.as_str(),
            info(),
            width,
        );
        push_detail_kv_if(
            &mut page,
            known.pending_messages > 0,
            "  pending_messages",
            number_of(known.pending_messages as i128).as_str(),
            task_id(),
            width,
        );
        push_detail_kv_if(
            &mut page,
            known.wake_pending,
            "  wake_attempts",
            number_of(known.wake_attempts as i128).as_str(),
            severity(Severity::Warning),
            width,
        );
        push_detail_kv_if(
            &mut page,
            known.state_divergence,
            "  divergence",
            known.state_divergence_note.as_str(),
            severity(Severity::Warning),
            width,
        );
    }
    page
}

/// The line of an entry of a task's log.
pub open spec fn log_line(log: TaskLog, width: int) -> Seq<SpanView> {
    Seq::<SpanView>::empty().push(
        span("  "@ + clock_text(log.timestamp.unix_secs() as int) + " "@, timestamp()),
    ).push(span(log.workspace@, assignee())).push(span(": "@, muted())).push(
        span(clipped(log.message@, most(less(width, 13), 1)), body_style(log.message@)),
    )
}

/// `a - b`, but at least one.
fn left_of(a: usize, b: usize) -> (r: usize)
    ensures
        r == most(less(a as int, b as int), 1),
{
    if a > b && a - b > 1 {
        a - b
    } else {
        1
    }
}

/// The last entries of a task's log.
pub open spec fn recent_logs(task: Task, width: int) -> Seq<Seq<SpanView>> {
    if task.logs@.len() == 0 {
        Seq::empty()
    } else {
        Seq::<Seq<SpanView>>::empty().push(Seq::<SpanView>::empty()).push(
            one("recent logs:"@, strong()),
        ) + last_items(task.logs@, 3).map_values(|log: TaskLog| log_line(log, width))
    }
}

#[verifier::loop_isolation(false)]
fn lines_of_logs(task: &Task, width: usize) -> (r: Page)
    ensures
        r@ == recent_logs(*task, width as int),
{
    let mut page = Page::new();
    let n = task.logs.len();
    if n == 0 {
        return page;
    }
    page.push_blank();
    page.push_str("recent logs:", strong());
    let start: usize = if n > 3 {
        n - 3
    } else {
        0
    };
    let ghost top = page@;
    let ghost shown = last_items(task.logs@, 3);
    let ghost line_of = |log: TaskLog| log_line(log, width as int);
    let mut i: usize = start;
    proof {
        assert(shown =~= task.logs@.skip(start as int));
        assert(page@ =~= top + shown.take(0).map_values(line_of));
    }
    while i < n
        invariant
            start <= i <= n,
            page@ == top + shown.take(i - start).map_values(line_of),
        decreases n - i,
    {
        let log = &task.logs[i];
        let mut line = Line::new();
        line.add("  ".to_owned().concat(log.timestamp.clock().as_str()).concat(" "), timestamp());
        line.add_str(log.workspace.as_str(), assignee());
        line.add_str(": ", muted());
        line.add(
            truncate(log.message.as_str(), left_of(width, 13)),
            message_body_style(log.message.as_str()),
        );
        page.push(line);
        proof {
            assert(shown[i - start] == task.logs@[i as int]);
            assert(page@ =~= top + shown.take(i + 1 - start).map_values(line_of));
        }
        i = i + 1;
    }
    proof {
        assert(shown.take(shown.len() as int) =~= shown);
    }
    page
}

/// The line of an entry of a task's timeline.
pub open spec fn activity_line(a: Activity, width: int) -> Seq<SpanView> {
    Seq::<SpanView>::empty().push(
        span("  "@ + clock_text(a.timestamp.unix_secs() as int) + " "@, timestamp()),
    ).push(span(pad(a.kind.label()@, 9) + " "@, info())).push(
        span(clipped(a.summary, most(less(width, 20), 1)), body_style(a.summary)),
    )
}

/// The end of a task's timeline.
pub open spec fn activity_lines(task: Task, history: Seq<HistoryEntry>, width: int) -> Seq<
    Seq<SpanView>,
> {
    let shown = timeline(task, history, 4);
    if shown.len() == 0 {
        Seq::empty()
    } else {
        Seq::<Seq<SpanView>>::empty().push(Seq::<SpanView>::empty()).push(
            one("activity:"@, strong()),
        ) + shown.map_values(|a: Activity| activity_line(a, width))
    }
}

#[verifier::loop_isolation(false)]
fn lines_of_activity(task: &Task, history: &Vec<HistoryEntry>, width: usize) -> (r: Page)
    ensures
        r@ == activity_lines(*task, history@, width as int),
{
    let mut page = Page::new();
    let entries = build_task_activity(task, history, 4);
    let ghost shown = timeline(*task, history@, 4);
    if entries.len() == 0 {
        return page;
    }
    page.push_blank();
    page.push_str("activity:", strong());
    let ghost top = page@;
    let ghost line_of = |a: Activity| activity_line(a, width as int);
    let mut i: usize = 0;
    proof {
        assert(page@ =~= top + shown.take(0).map_values(line_of));
    }
    while i < entries.len()
        invariant
            i <= entries@.len(),
            activities(entries@) == shown,
            page@ == top + shown.take(i as int).map_values(line_of),
        decreases entries@.len() - i,
    {
        let entry = &entries[i];
        let mut line = Line::new();
        line.add(
            "  ".to_owned().concat(entry.timestamp.clock().as_str()).concat(" "),
            timestamp(),
        );
        line.add(padded(entry.kind.label(), 9).concat(" "), info());
        line.add(
            truncate(entry.summary.as_str(), left_of(width, 20)),
            message_body_style(entry.summary.as_str()),
        );
        page.push(line);
        proof {
            assert(shown[i as int] == entry@);
            assert(page@ =~= top + shown.take(i + 1).map_values(line_of));
        }
        i = i + 1;
    }
    proof {
        assert(shown.take(shown.len() as int) =~= shown);
    }
    page
}

/// What stands first in the detail of a task.
pub open spec fn facts_of_task(task: Task, width: int, now: Timestamp) -> Seq<Seq<SpanView>> {
    let wide = most(width, 1);
    let is_stale = stale(task, now);
    Seq::<Seq<SpanView>>::empty().push(
        one(clipped(task.title@, wide), bold(task_title(task.status))),
    ).push(
        one(
            clipped("status: "@ + status_label(task, now), wide),
            task_status(task.status, is_stale),
        ),
    ).push(labelled("version"@, number(task.version as int), muted(), width)).push(
        labelled("assignee"@, task.assignee@, assignee(), width),
    ).push(labelled("created_by"@, task.created_by@, sender(), width)).push(
        labelled(
            "priority"@,
            task_priority_label(task.priority)@,
            priority(task.priority),
            width,
        ),
    ).push(
        labelled(
            "updated"@,
            age_text(larger(now.seconds_from(task.updated_at), 0)) + " ago"@,
            timestamp(),
            width,
        ),
    ).push(
        labelled(
            "stale"@,
            if is_stale { "yes"@ } else { "no"@ },
            if is_stale { severity(Severity::Warning) } else { muted() },
            width,
        ),
    ) + line_if(
        task.stale_after_seconds > 0,
        labelled(
            "stale_after"@,
            number(task.stale_after_seconds as int) + "s"@,
            timestamp(),
            width,
        ),
    )
}

fn page_of_facts(task: &Task, width: usize, now: Timestamp) -> (r: Page)
    ensures
        r@ == facts_of_task(*task, width as int, now),
{
    let wide: usize = if width > 1 {
        width
    } else {
        1
    };
    let is_stale = task_is_stale(task, now);
    let mut page = Page::new();
    page.push_one(truncate(task.title.as_str(), wide), bold(task_title(task.status)));
    let status = "status: ".to_owned().concat(task_status_label(task, now).as_str());
    page.push_one(truncate(status.as_str(), wide), task_status(task.status, is_stale));
    push_detail_kv(
        &mut page,
        "version",
        number_of(task.version as i128).as_str(),
        muted(),
        width,
    );
    push_detail_kv(&mut page, "assignee", task.assignee.as_str(), assignee(), width);
    push_detail_kv(&mut page, "created_by", task.created_by.as_str(), sender(), width);
    push_detail_kv(
        &mut page,
        "priority",
        task_priority_label(task.priority),
        priority(task.priority),
        width,
    );
    push_detail_kv(
        &mut page,
        "updated",
        format_task_age(task, now).concat(" ago").as_str(),
        timestamp(),
        width,
    );
    push_detail_kv(
        &mut page,
        "stale",
        if is_stale {
            "yes"
        } else {
            "no"
        },
        if is_stale {
            severity(Severity::Warning)
        } else {
            muted()
        },
        width,
    );
    push_detail_kv_if(
        &mut page,
        task.stale_after_seconds > 0,
        "stale_after",
        number_of(task.stale_after_seconds as i128).concat("s").as_str(),
        timestamp(),
        width,
    );
    page
}

/// The whole detail of a task.
pub open spec fn task_detail(
    task: Task,
    history: Seq<HistoryEntry>,
    width: int,
    now: Timestamp,
) -> Seq<Seq<SpanView>> {
    facts_of_task(task, width, now) + removal_lines(task, width) + text_lines(
        "desc"@,
        task.description@,
        plain(),
        width,
    ) + text_lines("result"@, task.result@, task_status(task.status, false), width) + stale_lines(
        task,
        width,
    ) + recent_logs(task, width) + activity_lines(task, history, width)
}

/// The whole detail of a task.
fn detail_page(task: &Task, history: &Vec<HistoryEntry>, width: usize, now: Timestamp) -> (r: Page)
    ensures
        r@ == task_detail(*task, history@, width as int, now),
{
    let mut page = page_of_facts(task, width, now);
    page.append(lines_of_removal(task, width));
    page.append(lines_of_text("desc", task.description.as_str(), plain(), width));
    page.append(
        lines_of_text("result", task.result.as_str(), task_status(task.status, false), width),
    );
    page.append(lines_of_staleness(task, width));
    page.append(lines_of_logs(task, width));
    page.append(lines_of_activity(task, history, width));
    page
}

/// The detail of a task, at most `height` lines of it.
pub fn build_detail_lines(
    task: &Task,
    history: &Vec<HistoryEntry>,
    width: usize,
    height: usize,
    now: Timestamp,
) -> (r: Page)
    ensures
        ({
            let whole = task_detail(*task, history@, width as int, now);
            r@ == if whole.len() > height {
                whole.take(height as int)
            } else {
                whole
            }
        }),
{
    let mut page = detail_page(task, history, width, now);
    page.truncate(height);
    page
}

/// The detail half of the body while tasks are listed.
pub open spec fn task_detail_shown(s: AppModel, width: int, now: Timestamp) -> Seq<Seq<SpanView>> {
    match task_selected(s, now) {
        Some(task) => task_detail(task, s.messages, width, now),
        None => Seq::<Seq<SpanView>>::empty().push(one("  (no task selected)"@, muted())),
    }
}

/// The detail half of the body while tasks are listed.
pub fn draw_task_detail(app: &App, width: usize, now: Timestamp) -> (r: Page)
    ensures
        r@ == task_detail_shown(app@, width as int, now),
{
    proof {
        model_fields(*app);
    }
    match app.selected_task(now) {
        Some(task) => detail_page(task, &app.messages, width, now),
        None => {
            let mut page = Page::new();
            page.push_str("  (no task selected)", muted());
            page
        },
    }
}

} // verus!
