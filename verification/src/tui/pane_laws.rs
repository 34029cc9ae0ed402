//! What holds of areas, columns, lists of usage and what is asked of the daemon.

use vstd::prelude::*;

use crate::order::sorting_only_moves;
use crate::proto::responses::InterveneTaskResponse;
use crate::proto::usage::{AgentTrend, UsageBucket, WorkspaceTrend};
use crate::text::{before, before_is_an_order, number, pad, without_prefixes};
use crate::text_laws::prefixes_go;
use crate::time::{calendar_text, Timestamp};
use crate::tui::actions::QuickActionId;
use crate::tui::app::{
    after_message_sent, after_task_created, asked_of_daemon, intervention_text, is_due,
    without_notice_of, AskedOfDaemon,
};
use crate::tui::cells::{column, fitted, fitted_width, split_column};
use crate::tui::layout::{
    body_halves, detail_window, followed, further, help_area, least, less, loading_area, menu_area,
    most, viewport, Rect, Viewport,
};
use crate::tui::state::{AppModel, PendingTaskAction, RefreshNoticeSource};
use crate::tui::tasks::{clipped, clipped_text, short_id};
use crate::tui::theme::{Color, Style};
use crate::tui::tokens_view::{
    bucket_count, bucket_turns, first_count, first_model, largest_total, last_count, last_seen,
    model_name, model_of_trend, no_usage_hint, token_row_style, token_row_text, trend_style,
    turns_text, usage_listed, used, TokenCells,
};

verus! {

/// The smaller, the larger, the difference that is not negative, and the sum on a
/// screen.
pub proof fn small_numbers(a: int, b: int)
    ensures
        least(a, b) <= a && least(a, b) <= b && (least(a, b) == a || least(a, b) == b),
        most(a, b) >= a && most(a, b) >= b && (most(a, b) == a || most(a, b) == b),
        a >= b ==> less(a, b) == a - b,
        a <= b ==> less(a, b) == 0,
        a + b <= 0xFFFF ==> further(a, b) == a + b,
        a + b > 0xFFFF ==> further(a, b) == 0xFFFF,
{
}

/// On a body that is high enough both halves have at least three rows, the list
/// has no more than the detail but for rounding, and both stand within the frame.
pub proof fn list_leaves_room_for_the_detail(body: Rect)
    requires
        body.x + body.width <= 0xFFFF,
        body.y + body.height <= 0xFFFF,
        body.height >= 8,
        body.width >= 2,
    ensures
        ({
            let (list, detail) = body_halves(body);
            let inside = body.height - 2;
            &&& list.height >= 3
            &&& detail.height >= 3
            &&& inside >= 7 ==> 100 * list.height <= 45 * inside && 45 * inside < 100 * (
            list.height + 1) || list.height == 3
            &&& list.x == body.x + 1 && detail.x == body.x + 1
            &&& list.y == body.y + 1
            &&& detail.y == list.y + list.height
            &&& list.width == body.width - 2 && detail.width == body.width - 2
        }),
{
}

/// The mark of waiting, the help and the menu stand within the screen, where that
/// is wide and high enough.
pub proof fn what_is_opened_stands_within(frame: Rect, list: Rect, row: int, rows: int)
    requires
        frame.x + frame.width <= 0xFFFF,
        frame.y + frame.height <= 0xFFFF,
        frame.width >= 4,
        frame.height >= 8,
        0 <= row <= 0xFFFF,
        0 <= rows <= 0xFFFF,
    ensures
        ({
            let wait = loading_area(frame);
            let help = help_area(frame, rows);
            let menu = menu_area(frame, list, row, rows);
            &&& frame.x <= wait.x && wait.x + wait.width <= frame.x + frame.width
            &&& frame.y <= wait.y < frame.y + frame.height && wait.height == 1 && wait.width <= 36
            &&& frame.x <= help.x && help.x + help.width <= frame.x + frame.width
            &&& frame.y <= help.y && help.y + help.height <= frame.y + frame.height
            &&& help.width <= 56
            &&& frame.x <= menu.x && menu.x + menu.width <= frame.x + frame.width
            &&& menu.width <= 42
            &&& frame.y <= menu.y
            &&& row + 1 + menu.height <= frame.y + frame.height && row + 1 >= frame.y ==> menu.y
                == row + 1
        }),
{
}

/// As few rows are passed over as possible: a list that fits, and one whose
/// selected row is among the first that fit, is shown from its top.
pub proof fn few_rows_are_passed_over(total: int, selected: int, budget: int)
    requires
        0 <= selected < total <= usize::MAX,
        0 < budget <= usize::MAX,
    ensures
        ({
            let v = viewport(total, selected, budget);
            &&& total <= budget ==> v.start == 0 && v.visible == total
            &&& selected < budget ==> v.start == 0
            &&& selected >= budget ==> v.end == selected + 1
            &&& v.total == total
            &&& v.is_scrollable() <==> total > budget
        }),
{
}

/// A scroll bar takes one column, and only where some rows are not shown and there
/// is room for it.
pub proof fn scroll_bar_takes_one_column(v: Viewport, area: Rect)
    ensures
        v.total > v.visible && v.visible > 0 && area.height > 0 && area.width > 2
            ==> v.beside_scrollbar(area).width == area.width - 1,
        !(v.total > v.visible && v.visible > 0 && area.height > 0 && area.width > 2)
            ==> v.beside_scrollbar(area) == area,
        v.beside_scrollbar(area).height == area.height,
        v.beside_scrollbar(area).x == area.x,
        v.beside_scrollbar(area).y == area.y,
{
}

/// As much of a detail is shown as fits, from where it is scrolled to, but not
/// beyond its end; a followed end is shown, and reaching the end follows it again.
pub proof fn end_is_shown_where_it_is_followed(total: int, height: int, scroll: int, follow: bool)
    requires
        0 <= total,
        0 <= height,
        0 <= scroll,
    ensures
        ({
            let (start, visible) = detail_window(total, height, scroll);
            let (place, still) = followed(total, height, scroll, follow);
            &&& visible == if total <= height {
                total
            } else {
                height
            }
            &&& 0 <= start && start + visible <= total
            &&& scroll + visible <= total ==> start == scroll
            &&& scroll + visible > total ==> start + visible == total
            &&& follow ==> still && place + visible == total
            &&& !follow ==> place == start
            &&& !follow ==> (still <==> start + visible == total)
        }),
{
}

/// A column is as wide as asked for; a text that fits stands at its start.
pub proof fn columns_hold_what_fits(text: Seq<char>, width: int, style: Style)
    requires
        width >= 0,
    ensures
        column(text, width, style).content.len() == width,
        column(text, width, style).style == style,
        text.len() <= width ==> text.is_prefix_of(fitted(text, width)),
        text.len() > width > 0 ==> fitted(text, width).last() == '…' && fitted(
            text,
            width,
        ).drop_last() == text.take(width - 1),
{
    fitted_width(text, width);
    clipped_text(text, width);
    if text.len() <= width {
        assert(text =~= fitted(text, width).subrange(0, text.len() as int));
    }
}

/// Where a label and its suffix share a column, the suffix is kept whole, unless
/// it alone fills the column.
pub proof fn suffix_is_kept(
    label: Seq<char>,
    suffix: Seq<char>,
    width: int,
    label_style: Style,
    suffix_style: Style,
)
    requires
        0 <= suffix.len() < width,
    ensures
        ({
            let r = split_column(label, suffix, width, label_style, suffix_style);
            &&& r.len() >= 2
            &&& r[1].content == suffix
            &&& r[1].style == suffix_style
            &&& r[0].style == label_style
            &&& label.len() + suffix.len() <= width ==> r[0].content == label
        }),
{
}

/// One more workspace is listed exactly where it has usage.
pub proof fn one_more_workspace_with_usage(trends: Seq<WorkspaceTrend>, t: WorkspaceTrend)
    ensures
        t.available && t.total.input + t.total.output + t.total.cache_read + t.total.cache_creation
            > 0 ==> used(trends.push(t)) == used(trends).push(t),
        !(t.available && t.total.input + t.total.output + t.total.cache_read
            + t.total.cache_creation > 0) ==> used(trends.push(t)) == used(trends),
        used(Seq::empty()).len() == 0,
{
    assert(trends.push(t).drop_last() =~= trends);
    assert(trends.push(t).last() == t);
}

/// Usage is listed by the names of the workspaces, and nothing is lost.
pub proof fn usage_goes_by_name(s: AppModel, i: int, j: int)
    requires
        0 <= i < j < used(s.usage_trends.values@).len(),
    ensures
        usage_listed(s).len() == used(s.usage_trends.values@).len(),
        usage_listed(s)[i].workspace@ == usage_listed(s)[j].workspace@ || before(
            usage_listed(s)[i].workspace@,
            usage_listed(s)[j].workspace@,
        ),
{
    let order = sorting_only_moves(used(s.usage_trends.values@));
    before_is_an_order();
    let a = usage_listed(s)[i].workspace@;
    let b = usage_listed(s)[j].workspace@;
    assert(before(a, b) || before(b, a) || a == b);
}

/// What happened less than a minute ago is told in seconds, less than an hour ago
/// in minutes, and less than a day ago in hours, each rounded down.
pub proof fn ages_are_rounded_down(now: Timestamp, ts: Timestamp)
    ensures
        ({
            let secs = now.seconds_from(ts);
            &&& secs < 0 ==> last_seen(now, ts) == "just now"@
            &&& 0 <= secs < 60 ==> last_seen(now, ts) == number(secs) + "s ago"@
            &&& 60 <= secs < 3600 ==> exists|m: int|
                60 * m <= secs < 60 * (m + 1) && last_seen(now, ts) == #[trigger] number(m)
                    + "m ago"@
            &&& 3600 <= secs < 86400 ==> exists|h: int|
                3600 * h <= secs < 3600 * (h + 1) && last_seen(now, ts) == #[trigger] number(h)
                    + "h ago"@
        }),
{
    let secs = now.seconds_from(ts);
    if 60 <= secs < 3600 {
        let m = secs / 60;
        assert(last_seen(now, ts) == number(m) + "m ago"@);
    }
    if 3600 <= secs < 86400 {
        let h = secs / 3600;
        assert(last_seen(now, ts) == number(h) + "h ago"@);
    }
}

proof fn counts_are_found(series: Seq<u64>)
    ensures
        first_count(series) is Some <==> exists|i: int| 0 <= i < series.len() && #[trigger] series[i]
            > 0,
        last_count(series) is Some <==> exists|i: int| 0 <= i < series.len() && #[trigger] series[i]
            > 0,
    decreases series.len(),
{
    if series.len() > 0 {
        counts_are_found_first(series);
        counts_are_found_last(series);
    }
}

proof fn counts_are_found_first(series: Seq<u64>)
    ensures
        first_count(series) is Some <==> exists|i: int| 0 <= i < series.len() && #[trigger] series[i]
            > 0,
    decreases series.len(),
{
    if series.len() > 0 {
        let rest = series.drop_first();
        counts_are_found_first(rest);
        if series[0] == 0 {
            if exists|i: int| 0 <= i < series.len() && #[trigger] series[i] > 0 {
                let i = choose|i: int| 0 <= i < series.len() && #[trigger] series[i] > 0;
                assert(rest[i - 1] > 0);
            }
            if exists|i: int| 0 <= i < rest.len() && #[trigger] rest[i] > 0 {
                let i = choose|i: int| 0 <= i < rest.len() && #[trigger] rest[i] > 0;
                assert(series[i + 1] > 0);
            }
        }
    }
}

proof fn counts_are_found_last(series: Seq<u64>)
    ensures
        last_count(series) is Some <==> exists|i: int| 0 <= i < series.len() && #[trigger] series[i]
            > 0,
    decreases series.len(),
{
    if series.len() > 0 {
        let front = series.drop_last();
        counts_are_found_last(front);
        if series.last() > 0 {
            assert(series[series.len() - 1] > 0);
        } else {
            if exists|i: int| 0 <= i < series.len() && #[trigger] series[i] > 0 {
                let i = choose|i: int| 0 <= i < series.len() && #[trigger] series[i] > 0;
                assert(front[i] > 0);
            }
            if exists|i: int| 0 <= i < front.len() && #[trigger] front[i] > 0 {
                let i = choose|i: int| 0 <= i < front.len() && #[trigger] front[i] > 0;
                assert(series[i] > 0);
            }
        }
    }
}

/// A series is yellow where its last count that is not zero is larger than its
/// first, green where it is smaller, cyan where they are the same, and grey where
/// there is none.
pub proof fn growing_usage_is_a_warning(series: Seq<u64>)
    ensures
        trend_style(series).fg == Some(Color::Gray) <==> forall|i: int|
            0 <= i < series.len() ==> #[trigger] series[i] == 0,
        series.len() > 0 && series[0] > 0 && series.last() > 0 ==> {
            &&& trend_style(series).fg == Some(Color::Yellow) <==> series.last() > series[0]
            &&& trend_style(series).fg == Some(Color::Green) <==> series.last() < series[0]
            &&& trend_style(series).fg == Some(Color::Cyan) <==> series.last() == series[0]
        },
        series.len() > 0 && series[0] == 0 ==> first_count(series) == first_count(
            series.drop_first(),
        ),
        series.len() > 0 && series.last() == 0 ==> last_count(series) == last_count(
            series.drop_last(),
        ),
{
    counts_are_found(series);
    counts_are_found_first(series);
    counts_are_found_last(series);
    if exists|i: int| 0 <= i < series.len() && #[trigger] series[i] > 0 {
        let i = choose|i: int| 0 <= i < series.len() && #[trigger] series[i] > 0;
        assert(series[i] != 0);
    }
    if !(forall|i: int| 0 <= i < series.len() ==> #[trigger] series[i] == 0) {
        let i = choose|i: int| 0 <= i < series.len() && #[trigger] series[i] != 0;
        assert(series[i] > 0);
    }
}

/// A stretch of time counts all kinds of tokens together, nothing below zero and
/// nothing beyond what can be drawn.
pub proof fn stretches_count_all_tokens(b: UsageBucket)
    ensures
        ({
            let sum = b.totals.input + b.totals.output + b.totals.cache_read
                + b.totals.cache_creation;
            &&& 0 <= sum <= u64::MAX ==> bucket_count(b) == sum
            &&& sum < 0 ==> bucket_count(b) == 0
            &&& sum > u64::MAX ==> bucket_count(b) == u64::MAX
        }),
{
}

/// One more stretch of time adds its turns, where that does not go beyond what can
/// be counted; no turns are shown as none.
pub proof fn turns_add_up(start: i64, buckets: Seq<UsageBucket>, b: UsageBucket)
    ensures
        i64::MIN <= bucket_turns(start, buckets) + b.turns <= i64::MAX ==> bucket_turns(
            start,
            buckets.push(b),
        ) == bucket_turns(start, buckets) + b.turns,
        bucket_turns(start, Seq::empty()) == start,
        turns_text(Seq::empty()) == "-"@,
{
    assert(buckets.push(b).drop_last() =~= buckets);
    assert(buckets.push(b).last() == b);
}

/// The model of a workspace is the one it used last, else that of its first agent
/// that names one.
pub proof fn workspace_model_comes_first(trend: WorkspaceTrend, agents: Seq<AgentTrend>)
    ensures
        trend.latest_model@.len() > 0 ==> model_of_trend(trend) == trend.latest_model@,
        trend.latest_model@.len() == 0 ==> model_of_trend(trend) == first_model(trend.agents@),
        agents.len() == 0 ==> first_model(agents) == "-"@,
        agents.len() > 0 && agents[0].latest_model@.len() > 0 ==> first_model(agents)
            == agents[0].latest_model@,
        agents.len() > 0 && agents[0].latest_model@.len() == 0 ==> first_model(agents)
            == first_model(agents.drop_first()),
{
}

/// No total is larger than the largest, and the largest is one of them, or zero.
pub proof fn largest_total_is_the_largest(rows: Seq<WorkspaceTrend>)
    ensures
        forall|i: int|
            0 <= i < rows.len() ==> (#[trigger] rows[i]).total.sum() <= largest_total(rows),
        largest_total(rows) >= 0,
        largest_total(rows) > 0 ==> exists|i: int|
            0 <= i < rows.len() && (#[trigger] rows[i]).total.sum() == largest_total(rows),
    decreases rows.len(),
{
    if rows.len() > 0 {
        let front = rows.drop_last();
        largest_total_is_the_largest(front);
        assert forall|i: int| 0 <= i < rows.len() implies (#[trigger] rows[i]).total.sum()
            <= largest_total(rows) by {
            if i < front.len() {
                assert(front[i] == rows[i]);
            }
        }
        if rows.last().total.sum() > largest_total(front) {
            assert(rows[rows.len() - 1].total.sum() == largest_total(rows));
        } else if largest_total(rows) > 0 {
            let i = choose|i: int|
                0 <= i < front.len() && (#[trigger] front[i]).total.sum() == largest_total(front);
            assert(rows[i].total.sum() == largest_total(rows));
        }
    }
}

/// A workspace that used at least four fifths of what the largest used is yellow;
/// one that is selected is shown as such.
pub proof fn heavy_usage_is_a_warning(
    trend: WorkspaceTrend,
    largest: int,
    selected: bool,
    focused: bool,
)
    ensures
        !selected ==> (token_row_style(trend, largest, selected, focused).fg == Some(Color::Yellow)
            <==> largest > 0 && 5 * trend.total.sum() >= 4 * largest),
        token_row_style(trend, largest, selected, focused).reversed <==> selected,
{
}

/// That no usage is listed is put down to the daemon, the configuration, or that
/// nothing was read or used yet, in this order.
pub proof fn missing_usage_is_explained(s: AppModel)
    ensures
        !s.daemon_running ==> no_usage_hint(s) == "  (daemon offline — start it with `ax up`)"@,
        s.daemon_running && s.workspace_dirs.keys@.len() == 0 ==> no_usage_hint(s)
            == "  (no workspaces in config — add one to .ax/config.yaml)"@,
        s.daemon_running && s.workspace_dirs.keys@.len() > 0 && s.last_usage_refresh is None
            ==> no_usage_hint(s) == "  (collecting usage…)"@,
        s.daemon_running && s.workspace_dirs.keys@.len() > 0 && s.last_usage_refresh is Some
            ==> no_usage_hint(s)
            == "  (no token usage recorded yet — run an agent to produce a transcript)"@,
{
}

/// Something is due where it was never done, and where as much time has gone by as
/// it asks for.
pub proof fn due_after_the_interval(last: Option<u64>, now: u64, interval: u64)
    ensures
        last is None ==> is_due(last, now, interval),
        last is Some && interval > 0 ==> (is_due(last, now, interval) <==> now >= last->0
            + interval),
{
}

/// An action on a task asks the daemon for what it is called, about that task, and
/// holds a positive version against it; nothing else is asked.
pub proof fn task_actions_ask_for_what_they_are(pending: PendingTaskAction)
    ensures
        ({
            let asked = asked_of_daemon(pending);
            let version = if pending.expected_version > 0 {
                Some(pending.expected_version)
            } else {
                None
            };
            &&& pending.action == QuickActionId::TaskCancel <==> asked is Cancel
            &&& (pending.action == QuickActionId::TaskWake || pending.action
                == QuickActionId::TaskInterrupt || pending.action == QuickActionId::TaskRetry)
                <==> asked is Intervene
            &&& asked matches AskedOfDaemon::Cancel { task_id, reason, expected_version }
                ==> task_id == pending.task_id@ && expected_version == version
            &&& asked matches AskedOfDaemon::Intervene { task_id, action, note, expected_version }
                ==> task_id == pending.task_id@ && expected_version == version && (pending.action
                == QuickActionId::TaskWake ==> action == "wake"@) && (pending.action
                == QuickActionId::TaskInterrupt ==> action == "interrupt"@) && (pending.action
                == QuickActionId::TaskRetry ==> action == "retry"@)
        }),
{
}

/// What an intervention did is told with the task and its status, and with the
/// message exactly where one was sent.
pub proof fn queued_message_is_told(response: InterveneTaskResponse)
    ensures
        ({
            let told = response.action@ + " task "@ + short_id(response.task.id@) + " · "@
                + response.status@;
            &&& response.message_id@.len() == 0 ==> intervention_text(response) == told
            &&& response.message_id@.len() > 0 ==> intervention_text(response) == told
                + " · message queued"@
        }),
{
}

/// A word about a source is taken back once that source is fine again, and no
/// other word is.
pub proof fn notices_are_taken_back_by_their_source(s: AppModel, source: RefreshNoticeSource)
    ensures
        s.notice is Some && s.notice->0.source == source ==> without_notice_of(
            s,
            source,
        ).notice is None,
        s.notice is None || s.notice->0.source != source ==> without_notice_of(s, source) == s,
{
}

/// A task that was created closes its form; one that was not leaves it open, ready
/// to be handed in again, and says why. So it is with a message.
pub proof fn failed_forms_stay_open(
    s: AppModel,
    created: Result<Seq<char>, Seq<char>>,
    problem: Option<Seq<char>>,
    now: u64,
)
    ensures
        created is Ok ==> after_task_created(s, created, now).create_task_form is None
            && after_task_created(s, created, now).quick_notice is Some && !after_task_created(
            s,
            created,
            now,
        ).quick_notice->0.error,
        created is Err && s.create_task_form is Some ==> {
            let form = after_task_created(s, created, now).create_task_form;
            &&& form is Some
            &&& form->0.error == Some(created->Err_0)
            &&& !form->0.submitting
            &&& form->0.title == s.create_task_form->0.title
            &&& form->0.assignee == s.create_task_form->0.assignee
            &&& form->0.description == s.create_task_form->0.description
        },
        problem is None ==> after_message_sent(s, problem, now).orchestrator_message_form is None
            && after_message_sent(s, problem, now).quick_notice is Some && !after_message_sent(
            s,
            problem,
            now,
        ).quick_notice->0.error,
        problem is Some && s.orchestrator_message_form is Some ==> {
            let form = after_message_sent(s, problem, now).orchestrator_message_form;
            &&& form is Some
            &&& form->0.error == problem
            &&& !form->0.submitting
            &&& form->0.message == s.orchestrator_message_form->0.message
        },
{
}

/// A row of the list of usage begins with the name of the workspace, cut after
/// twenty-four characters, and ends with when it was last active.
pub proof fn usage_rows_begin_with_the_name(
    trend: WorkspaceTrend,
    cells: TokenCells,
    narrow: bool,
    now: Timestamp,
)
    ensures
        ({
            let row = token_row_text(trend, cells, narrow, now);
            let last = if trend.last_activity is Some {
                last_seen(now, trend.last_activity->0)
            } else {
                "-"@
            };
            &&& (" "@ + pad(clipped(trend.workspace@, 24), 24)).is_prefix_of(row)
            &&& pad(last, 12).is_suffix_of(row)
            &&& narrow ==> row == " "@ + pad(clipped(trend.workspace@, 24), 24) + " "@ + pad(
                cells.total@,
                9,
            ) + " "@ + pad(last, 12)
        }),
{
    let row = token_row_text(trend, cells, narrow, now);
    let last = match trend.last_activity {
        Some(ts) => last_seen(now, ts),
        None => "-"@,
    };
    let head = " "@ + pad(clipped(trend.workspace@, 24), 24);
    assert(head =~= row.subrange(0, head.len() as int));
    let tail = pad(last, 12);
    assert(tail =~= row.subrange(row.len() - tail.len(), row.len() as int));
}

/// The name of a model is shown without that of its vendor, and otherwise as it is.
pub proof fn vendors_are_left_out(model: Seq<char>)
    ensures
        !"anthropic/"@.is_prefix_of(model) && !"openai/"@.is_prefix_of(model) ==> model_name(model)
            == model,
        model_name(model).is_suffix_of(model),
        !"openai/"@.is_prefix_of(model_name(model)),
        model_name("anthropic/"@ + model) == model_name(model),
{
    reveal_strlit("anthropic/");
    reveal_strlit("openai/");
    assert("anthropic/"@.len() == 10 && "openai/"@.len() == 7);
    prefixes_go(model, "anthropic/"@);
    let once = without_prefixes(model, "anthropic/"@);
    prefixes_go(once, "openai/"@);
    let r = model_name(model);
    assert(r =~= model.subrange(model.len() - r.len(), model.len() as int));
}

/// What happened a day ago or longer is told by its day.
pub proof fn old_activity_is_told_by_its_day(now: Timestamp, ts: Timestamp)
    requires
        now.seconds_from(ts) >= 86400,
    ensures
        last_seen(now, ts) == calendar_text(
            ts.unix_secs(),
            ts.sub_nanos(),
            "%Y-%m-%d"@,
        ),
{
}

/// The help and the menu are as high as their rows with the frame, where the screen
/// is high enough, and as wide as they may be, where it is wide enough.
pub proof fn what_is_opened_fits_its_rows(frame: Rect, list: Rect, row: int, rows: int)
    requires
        frame.width >= 58,
        4 <= rows,
        rows + 4 <= frame.height,
    ensures
        help_area(frame, rows).height == rows + 2,
        help_area(frame, rows).width == 56,
        menu_area(frame, list, row, rows).height == rows + 2,
        menu_area(frame, list, row, rows).width == 42,
        loading_area(frame).width == 36,
{
}

/// The help and the mark of waiting stand in the middle, but for rounding.
pub proof fn what_is_opened_stands_in_the_middle(frame: Rect, rows: int)
    requires
        frame.x + frame.width <= 0xFFFF,
        frame.y + frame.height <= 0xFFFF,
        frame.width >= 4,
        frame.height >= 8,
        0 <= rows <= 0xFFFF,
    ensures
        ({
            let help = help_area(frame, rows);
            let wait = loading_area(frame);
            let above = help.y - frame.y;
            let below = frame.y + frame.height - help.y - help.height;
            let left = help.x - frame.x;
            let right = frame.x + frame.width - help.x - help.width;
            &&& above <= below <= above + 1
            &&& left <= right <= left + 1
            &&& wait.x - frame.x <= frame.x + frame.width - wait.x - wait.width <= wait.x - frame.x
                + 1
            &&& wait.y - frame.y <= frame.y + frame.height - wait.y - 1 <= wait.y - frame.y + 1
            &&& frame.width <= 38 ==> wait.width == frame.width - 2
        }),
{
}

} // verus!
