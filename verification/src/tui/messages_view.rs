//! Messages as they are drawn.

use vstd::prelude::*;

use crate::proto::types::HistoryEntry;
use crate::text::{
    begins, char_count, chars_of, contains, has, join, join_range, lines, lines_of, lower,
    one_line, same, string_of, texts, to_lower, to_one_line, trim, trimmed, words, words_of,
};
use crate::time::{calendar_text, clock_text};
use crate::tui::agents_view::unless_selected;
use crate::tui::layout::{
    add16, compute_viewport, further, least, less, most, sub16, viewport, Rect,
};
use crate::tui::lines::{line_if, one, span, span_if, two, Line, Page, SpanView};
use crate::tui::pane::{no_viewport, Pane, PaneView};
use crate::tui::state::{model_fields, App, AppModel, Focus};
use crate::tui::tasks::{clipped, short_id, short_task_id, truncate};
use crate::tui::theme::{
    assignee, info, muted, plain, selection, sender, severity, task_id, timestamp, Severity, Style,
};

verus! {

broadcast use vstd::string::group_string_axioms;

/// The use of a tool that a message tells of.
#[derive(Debug, Clone)]
pub struct McpToolActivity {
    pub tool: String,
    pub status: String,
    pub detail: String,
}

/// The use of a tool: which, how it went, and what else is told.
pub struct ToolUse {
    pub tool: Seq<char>,
    pub status: Seq<char>,
    pub detail: Seq<char>,
}

impl View for McpToolActivity {
    type V = ToolUse;

    open spec fn view(&self) -> ToolUse {
        ToolUse { tool: self.tool@, status: self.status@, detail: self.detail@ }
    }
}

/// A word that tells how the use of a tool went.
pub open spec fn is_verdict(word: Seq<char>) -> bool {
    word == "ok"@ || word == "error"@
}

/// The place of the first word from `i` on that tells how it went, or the number
/// of words.
pub open spec fn verdict_place(parts: Seq<Seq<char>>, i: int) -> int
    decreases parts.len() - i,
{
    if i < 0 || i >= parts.len() {
        parts.len() as int
    } else if is_verdict(parts[i]) {
        i
    } else {
        verdict_place(parts, i + 1)
    }
}

/// The use of a tool that a message tells of: `mcp tool`, the tool, `ok` or
/// `error`, and what else is told.
pub open spec fn tool_use(content: Seq<char>) -> Option<ToolUse> {
    let body = one_line(trim(content));
    if "mcp tool "@.is_prefix_of(body) {
        let parts = words(body.skip("mcp tool "@.len() as int));
        let at = verdict_place(parts, 0);
        if at == 0 || at == parts.len() {
            None
        } else {
            Some(
                ToolUse {
                    tool: join(parts.take(at), " "@),
                    status: parts[at],
                    detail: join(parts.skip(at + 1), " "@),
                },
            )
        }
    } else {
        None
    }
}

/// What an optional use of a tool is.
pub open spec fn opt_tool_use(a: Option<McpToolActivity>) -> Option<ToolUse> {
    match a {
        Some(a) => Some(a@),
        None => None,
    }
}

/// The use of a tool that a message tells of.
pub fn mcp_tool_activity(entry: &HistoryEntry) -> (r: Option<McpToolActivity>)
    ensures
        opt_tool_use(r) == tool_use(entry.content@),
{
    let body = to_one_line(trimmed(entry.content.as_str()).as_str());
    if !begins(body.as_str(), "mcp tool ") {
        return None;
    }
    let chars = chars_of(body.as_str());
    let prefix = char_count("mcp tool ");
    let rest = string_of(&chars, prefix, chars.len());
    let parts = words_of(rest.as_str());
    let ghost told = texts(parts@);
    proof {
        assert(rest@ =~= body@.skip("mcp tool "@.len() as int));
    }
    let mut at: usize = 0;
    while at < parts.len()
        invariant_except_break
            verdict_place(told, at as int) == verdict_place(told, 0),
        invariant
            told == texts(parts@),
            at <= parts@.len(),
        ensures
            at == verdict_place(told, 0),
        decreases parts@.len() - at,
    {
        proof {
            assert(told[at as int] == parts@[at as int]@);
        }
        if same(parts[at].as_str(), "ok") || same(parts[at].as_str(), "error") {
            break;
        }
        at = at + 1;
    }
    if at == 0 || at == parts.len() {
        return None;
    }
    let tool = join_range(&parts, 0, at, " ");
    let detail = join_range(&parts, at + 1, parts.len(), " ");
    let status = parts[at].clone();
    proof {
        assert(texts(parts@.subrange(0, at as int)) =~= told.take(at as int));
        assert(texts(parts@.subrange(at + 1, parts@.len() as int)) =~= told.skip(at + 1));
        assert(told[at as int] == parts@[at as int]@);
    }
    Some(McpToolActivity { tool, status, detail })
}

/// The text holds one of these words, in capitals or not.
pub open spec fn tells_of_trouble(text: Seq<char>) -> bool {
    contains(lower(text), "error"@) || contains(lower(text), "failed"@) || contains(
        lower(text),
        "failure"@,
    ) || contains(lower(text), "panic"@)
}

/// The text holds one of these words, in capitals or not.
pub open spec fn tells_of_delay(text: Seq<char>) -> bool {
    contains(lower(text), "blocked"@) || contains(lower(text), "blocker"@) || contains(
        lower(text),
        "warning"@,
    ) || contains(lower(text), "stale"@) || contains(lower(text), "wake"@)
}

/// The text holds one of these words, in capitals or not.
pub open spec fn tells_of_success(text: Seq<char>) -> bool {
    contains(lower(text), "completed"@) || contains(lower(text), "success"@) || contains(
        lower(text),
        "done"@,
    ) || contains(lower(text), "remaining owned dirty files=<none>"@)
}

/// The style of a message by what it tells of. Trouble goes before delay, and
/// delay before success.
pub open spec fn body_style(text: Seq<char>) -> Style {
    if tells_of_trouble(text) {
        severity(Severity::Danger)
    } else if tells_of_delay(text) {
        severity(Severity::Warning)
    } else if tells_of_success(text) {
        severity(Severity::Success)
    } else {
        plain()
    }
}

/// The style of a message by what it tells of.
pub fn message_body_style(text: &str) -> (r: Style)
    ensures
        r == body_style(text@),
{
    let low = to_lower(text);
    let lower = low.as_str();
    if has(lower, "error") || has(lower, "failed") || has(lower, "failure") || has(lower, "panic") {
        severity(Severity::Danger)
    } else if has(lower, "blocked") || has(lower, "blocker") || has(lower, "warning") || has(
        lower,
        "stale",
    ) || has(lower, "wake") {
        severity(Severity::Warning)
    } else if has(lower, "completed") || has(lower, "success") || has(lower, "done") || has(
        lower,
        "remaining owned dirty files=<none>",
    ) {
        severity(Severity::Success)
    } else {
        plain()
    }
}

/// The mark of the task that a message belongs to.
pub open spec fn task_mark(id: Seq<char>) -> Seq<char> {
    if id.len() == 0 {
        Seq::empty()
    } else {
        " ["@ + short_id(id) + "]"@
    }
}

/// The mark of the task that a message belongs to.
fn mark_of_task(id: &str) -> (r: String)
    ensures
        r@ == task_mark(id@),
{
    if id.is_empty() {
        String::new()
    } else {
        " [".to_owned().concat(short_task_id(id).as_str()).concat("]")
    }
}

/// The style of a selected line.
pub open spec fn selected_style(selected: bool, focused: bool) -> Option<Style> {
    if selected {
        Some(selection(focused))
    } else {
        None
    }
}

fn style_of_selection(selected: bool, focused: bool) -> (r: Option<Style>)
    ensures
        r == selected_style(selected, focused),
{
    if selected {
        Some(selection(focused))
    } else {
        None
    }
}

fn pick(selected: Option<Style>, style: Style) -> (r: Style)
    ensures
        r == unless_selected(selected, style),
{
    match selected {
        Some(s) => s,
        None => style,
    }
}

/// The line of a message that tells of the use of a tool. Where the head alone
/// does not fit, only the head is shown, cut off.
pub open spec fn tool_line(
    entry: HistoryEntry,
    told: ToolUse,
    width: int,
    sel: Option<Style>,
) -> Seq<SpanView> {
    let time = " "@ + clock_text(entry.timestamp.unix_secs() as int);
    let mark = task_mark(entry.task_id@);
    let head = time + " "@ + entry.from@ + " used "@ + told.tool + mark + ": "@;
    let detail = if told.detail.len() == 0 {
        told.status
    } else {
        told.status + " "@ + told.detail
    };
    if head.len() >= width {
        one(clipped(head, width), unless_selected(sel, timestamp()))
    } else {
        (Seq::<SpanView>::empty().push(span(time, unless_selected(sel, timestamp()))).push(
            span(" "@, unless_selected(sel, muted())),
        ).push(span(entry.from@, unless_selected(sel, sender()))).push(
            span(" used "@, unless_selected(sel, muted())),
        ).push(span(told.tool, unless_selected(sel, info()))) + span_if(
            mark.len() > 0,
            mark,
            unless_selected(sel, task_id()),
        )).push(span(": "@, unless_selected(sel, muted()))).push(
            span(
                clipped(detail, width - head.len()),
                unless_selected(sel, body_style(entry.content@)),
            ),
        )
    }
}

/// The line of a message that tells of the use of a tool.
pub fn mcp_tool_activity_line(
    entry: &HistoryEntry,
    activity: &McpToolActivity,
    width: usize,
    selected: bool,
    focused: bool,
) -> (r: Line)
    ensures
        r@ == tool_line(*entry, activity@, width as int, selected_style(selected, focused)),
{
    let sel = style_of_selection(selected, focused);
    let time = " ".to_owned().concat(entry.timestamp.clock().as_str());
    let mark = mark_of_task(entry.task_id.as_str());
    let has_mark = !mark.as_str().is_empty();
    let detail = if activity.detail.as_str().is_empty() {
        activity.status.clone()
    } else {
        activity.status.clone().concat(" ").concat(activity.detail.as_str())
    };
    let head = time.clone().concat(" ").concat(entry.from.as_str()).concat(" used ").concat(
        activity.tool.as_str(),
    ).concat(mark.as_str()).concat(": ");
    let n = char_count(head.as_str());
    if n >= width {
        return Line::one(truncate(head.as_str(), width), pick(sel, timestamp()));
    }
    let shown = truncate(detail.as_str(), width - n);
    let quiet = pick(sel, muted());
    let mut line = Line::new();
    line.add(time, pick(sel, timestamp()));
    line.add_str(" ", quiet);
    line.add_str(entry.from.as_str(), pick(sel, sender()));
    line.add_str(" used ", quiet);
    line.add_str(activity.tool.as_str(), pick(sel, info()));
    line.add_if(has_mark, mark, pick(sel, task_id()));
    line.add_str(": ", quiet);
    line.add(shown, pick(sel, message_body_style(entry.content.as_str())));
    line
}

/// The line of a message from one to another. Where the head alone does not fit,
/// only the head is shown, cut off.
pub open spec fn letter_line(entry: HistoryEntry, width: int, sel: Option<Style>) -> Seq<SpanView> {
    let time = " "@ + clock_text(entry.timestamp.unix_secs() as int);
    let mark = task_mark(entry.task_id@);
    let head = time + " "@ + entry.from@ + " → "@ + entry.to@ + mark + ": "@;
    if head.len() >= width {
        one(clipped(head, width), unless_selected(sel, timestamp()))
    } else {
        (Seq::<SpanView>::empty().push(span(time, unless_selected(sel, timestamp()))).push(
            span(" "@, unless_selected(sel, muted())),
        ).push(span(entry.from@, unless_selected(sel, sender()))).push(
            span(" → "@, unless_selected(sel, muted())),
        ).push(span(entry.to@, unless_selected(sel, assignee()))) + span_if(
            mark.len() > 0,
            mark,
            unless_selected(sel, task_id()),
        )).push(span(": "@, unless_selected(sel, muted()))).push(
            span(
                clipped(one_line(entry.content@), width - head.len()),
                unless_selected(sel, body_style(entry.content@)),
            ),
        )
    }
}

/// The line of a message in a list.
pub open spec fn message_line(entry: HistoryEntry, width: int, sel: Option<Style>) -> Seq<SpanView> {
    match tool_use(entry.content@) {
        Some(told) => tool_line(entry, told, width, sel),
        None => letter_line(entry, width, sel),
    }
}

/// The line of a message in a list.
pub fn message_list_line(entry: &HistoryEntry, width: usize, selected: bool, focused: bool) -> (r:
    Line)
    ensures
        r@ == message_line(*entry, width as int, selected_style(selected, focused)),
{
    let told = mcp_tool_activity(entry);
    if let Some(activity) = &told {
        return mcp_tool_activity_line(entry, activity, width, selected, focused);
    }
    let sel = style_of_selection(selected, focused);
    let time = " ".to_owned().concat(entry.timestamp.clock().as_str());
    let mark = mark_of_task(entry.task_id.as_str());
    let has_mark = !mark.as_str().is_empty();
    let head = time.clone().concat(" ").concat(entry.from.as_str()).concat(" → ").concat(
        entry.to.as_str(),
    ).concat(mark.as_str()).concat(": ");
    let n = char_count(head.as_str());
    if n >= width {
        return Line::one(truncate(head.as_str(), width), pick(sel, timestamp()));
    }
    let shown = truncate(to_one_line(entry.content.as_str()).as_str(), width - n);
    let quiet = pick(sel, muted());
    let mut line = Line::new();
    line.add(time, pick(sel, timestamp()));
    line.add_str(" ", quiet);
    line.add_str(entry.from.as_str(), pick(sel, sender()));
    line.add_str(" → ", quiet);
    line.add_str(entry.to.as_str(), pick(sel, assignee()));
    line.add_if(has_mark, mark, pick(sel, task_id()));
    line.add_str(": ", quiet);
    line.add(shown, pick(sel, message_body_style(entry.content.as_str())));
    line
}

/// The list of messages: above it what went wrong in reading them, if anything
/// did.
pub open spec fn messages_shown(s: AppModel, area: Rect) -> PaneView {
    let list = match s.messages_snapshot_error {
        Some(_) => Rect {
            y: further(area.y as int, 1) as u16,
            height: less(area.height as int, 1) as u16,
            ..area
        },
        None => area,
    };
    let head = match s.messages_snapshot_error {
        Some(error) => Seq::<Seq<SpanView>>::empty().push(
            one(
                clipped("  snapshot error: "@ + error, area.width as int),
                severity(Severity::Danger),
            ),
        ),
        None => Seq::empty(),
    };
    let head_area = Rect {
        height: match s.messages_snapshot_error {
            Some(_) => least(area.height as int, 1) as u16,
            None => 0,
        },
        ..area
    };
    let n = s.messages.len() as int;
    if n == 0 {
        PaneView {
            head,
            head_area,
            rows: line_if(
                s.messages_snapshot_error is None,
                one("  (no messages yet)"@, muted()),
            ),
            rows_area: list,
            list_area: list,
            viewport: no_viewport(),
        }
    } else {
        let cursor = least(s.messages_cursor.index as int, n - 1);
        let v = viewport(n, cursor, list.height as int);
        let content = v.beside_scrollbar(list);
        PaneView {
            head,
            head_area,
            rows: Seq::new(
                v.visible as nat,
                |i: int|
                    message_line(
                        s.messages[v.start + i],
                        most(content.width as int, 1),
                        selected_style(v.start + i == cursor, s.focus == Focus::List),
                    ),
            ),
            rows_area: content,
            list_area: list,
            viewport: v,
        }
    }
}

/// The list of messages.
#[verifier::loop_isolation(false)]
pub fn draw_messages(app: &App, area: Rect) -> (r: Pane)
    ensures
        r@ == messages_shown(app@, area),
{
    proof {
        model_fields(*app);
    }
    let mut head = Page::new();
    let mut head_area = Rect { x: area.x, y: area.y, width: area.width, height: 0 };
    let mut list = area;
    if let Some(error) = &app.messages_snapshot_error {
        let text = "  snapshot error: ".to_owned().concat(error.as_str());
        head.push_one(truncate(text.as_str(), area.width as usize), severity(Severity::Danger));
        head_area =
        Rect {
            x: area.x,
            y: area.y,
            width: area.width,
            height: if area.height < 1 {
                area.height
            } else {
                1
            },
        };
        list =
        Rect {
            x: area.x,
            y: add16(area.y, 1),
            width: area.width,
            height: sub16(area.height, 1),
        };
    }
    let n = app.messages.len();
    let mut rows = Page::new();
    if n == 0 {
        rows.push_if(
            app.messages_snapshot_error.is_none(),
            Line::one("  (no messages yet)".to_owned(), muted()),
        );
        proof {
            let cond = app@.messages_snapshot_error is None;
            let told = one("  (no messages yet)"@, muted());
            assert(Seq::<Seq<SpanView>>::empty() + line_if(cond, told) =~= line_if(cond, told));
        }
        return Pane {
            head,
            head_area,
            rows,
            rows_area: list,
            list_area: list,
            viewport: no_viewport(),
        };
    }
    let cursor = if app.messages_cursor.index < n - 1 {
        app.messages_cursor.index
    } else {
        n - 1
    };
    let v = compute_viewport(n, cursor, list.height as usize);
    let content = v.content_area(list);
    let width: usize = if content.width > 1 {
        content.width as usize
    } else {
        1
    };
    let focused = app.focus == Focus::List;
    let ghost line_at = |i: int|
        message_line(
            app@.messages[v.start + i],
            most(content.width as int, 1),
            selected_style(v.start + i == cursor, app@.focus == Focus::List),
        );
    let mut i: usize = v.start;
    proof {
        assert(rows@ =~= Seq::new(0, line_at));
    }
    while i < v.end
        invariant
            v.start <= i <= v.end <= n,
            n == app.messages@.len(),
            rows@ == Seq::new((i - v.start) as nat, line_at),
        decreases v.end - i,
    {
        rows.push(message_list_line(&app.messages[i], width, i == cursor, focused));
        proof {
            assert(rows@ =~= Seq::new((i + 1 - v.start) as nat, line_at));
        }
        i = i + 1;
    }
    Pane { head, head_area, rows, rows_area: content, list_area: list, viewport: v }
}

/// The detail of the selected message.
pub open spec fn message_shown(entry: HistoryEntry) -> Seq<Seq<SpanView>> {
    (Seq::<Seq<SpanView>>::empty().push(
        two(
            "time   "@,
            muted(),
            calendar_text(
                entry.timestamp.unix_secs(),
                entry.timestamp.sub_nanos(),
                "%Y-%m-%d %H:%M:%S"@,
            ),
            timestamp(),
        ),
    ).push(
        Seq::<SpanView>::empty().push(span("from   "@, muted())).push(
            span(entry.from@, sender()),
        ).push(span("  →  "@, muted())).push(span(entry.to@, assignee())),
    ) + line_if(
        entry.task_id@.len() > 0,
        two("task   "@, muted(), entry.task_id@, task_id()),
    )).push(Seq::<SpanView>::empty()) + lines(entry.content@).map_values(
        |raw: Seq<char>| one(raw, body_style(raw)),
    )
}

/// The detail of a message.
#[verifier::loop_isolation(false)]
fn message_detail(entry: &HistoryEntry) -> (r: Page)
    ensures
        r@ == message_shown(*entry),
{
    let mut page = Page::new();
    page.push_two("time   ", muted(), entry.timestamp.date_and_clock(), timestamp());
    let mut route = Line::new();
    route.add_str("from   ", muted());
    route.add_str(entry.from.as_str(), sender());
    route.add_str("  →  ", muted());
    route.add_str(entry.to.as_str(), assignee());
    page.push(route);
    page.push_if(
        !entry.task_id.as_str().is_empty(),
        Line::two("task   ".to_owned(), muted(), entry.task_id.clone(), task_id()),
    );
    page.push_blank();
    let told = lines_of(entry.content.as_str());
    let ghost all = lines(entry.content@);
    let ghost line_of = |raw: Seq<char>| one(raw, body_style(raw));
    let ghost top = page@;
    let mut i: usize = 0;
    proof {
        assert(page@ =~= top + all.take(0).map_values(line_of));
    }
    while i < told.len()
        invariant
            i <= told@.len(),
            texts(told@) == all,
            page@ == top + all.take(i as int).map_values(line_of),
        decreases told@.len() - i,
    {
        let raw = told[i].as_str();
        page.push_str(raw, message_body_style(raw));
        proof {
            assert(raw@ == all[i as int]);
            assert(page@ =~= top + all.take(i + 1).map_values(line_of));
        }
        i = i + 1;
    }
    proof {
        assert(all.take(all.len() as int) =~= all);
    }
    page
}

/// The detail half of the body while messages are listed.
pub open spec fn messages_detail_shown(s: AppModel) -> Seq<Seq<SpanView>> {
    if s.messages.len() == 0 {
        Seq::<Seq<SpanView>>::empty().push(one("  (no messages yet)"@, muted()))
    } else {
        message_shown(
            s.messages[least(s.messages_cursor.index as int, s.messages.len() - 1)],
        )
    }
}

/// The detail half of the body while messages are listed.
pub fn draw_messages_detail(app: &App) -> (r: Page)
    ensures
        r@ == messages_detail_shown(app@),
{
    proof {
        model_fields(*app);
    }
    let n = app.messages.len();
    if n == 0 {
        let mut page = Page::new();
        page.push_str("  (no messages yet)", muted());
        return page;
    }
    let idx = if app.messages_cursor.index < n - 1 {
        app.messages_cursor.index
    } else {
        n - 1
    };
    message_detail(&app.messages[idx])
}

} // verus!
