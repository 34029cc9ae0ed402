//! What holds of the rows of tasks and agents and of what is told of them.

use vstd::prelude::*;

use crate::order::{sorted, sorting_only_moves};
use crate::proto::types::{AgentStatus, HistoryEntry, Task, TaskLog, TaskStatus, WorkspaceGitStatus};
use crate::proto::usage::WorkspaceTrend;
use crate::text::{contains, decimal, number, trim};
use crate::time::{clock_text, Timestamp};
use crate::tui::agents_view::{
    agent_line, all_equal, cells_of, child_statuses, git_detail, git_equal, git_inline,
    git_state_text, git_summary, info_style, info_text, name_style, name_text, source_of,
    state_style, state_text, AgentColumns, SourceView,
};
use crate::tui::cells::fitted;
use crate::tui::layout::Rect;
use crate::tui::lines::SpanView;
use crate::tui::messages_view::{body_style, selected_style};
use crate::tui::pane_laws::columns_hold_what_fits;
use crate::tui::sidebar::Row;
use crate::tui::state::{app_tasks, AppModel, Focus};
use crate::tui::task_laws::{fractions_of_seconds, nanos_between};
use crate::tui::tasks::{
    age_text, clipped, last_items, log_activity, message_activity, related_messages, removal,
    short_id, stale, status_activity, status_label, status_words, summary_text, task_activity,
    task_priority_label, timeline, TaskActivityKind, TaskSummary,
};
use crate::tui::tasks_view::{
    facts_of_task, fitting, joined_parts, joined_width, log_line, recent_logs, stale_lines,
    status_word, summary_line, summary_of, summary_parts, task_row, task_state, tasks_head,
    tasks_shown,
};
use crate::tui::theme::{plain, Color, Style};
use crate::tui::tokens::TokensShown;

verus! {

/// What happened to a task stands in order of time; of what happened at once, what
/// became of the task comes before its log, and the log before messages.
pub proof fn history_goes_by_time(task: Task, history: Seq<HistoryEntry>, i: int, j: int)
    requires
        0 <= i < j < task_activity(task, history).len(),
        fractions_of_seconds(
            sorted(task_activity(task, history))[i].timestamp,
            sorted(task_activity(task, history))[j].timestamp,
        ),
    ensures
        ({
            let former = sorted(task_activity(task, history))[i];
            let latter = sorted(task_activity(task, history))[j];
            &&& nanos_between(former.timestamp, latter.timestamp) >= 0
            &&& nanos_between(former.timestamp, latter.timestamp) == 0 && former.kind
                == TaskActivityKind::Message ==> latter.kind == TaskActivityKind::Message
            &&& nanos_between(former.timestamp, latter.timestamp) == 0 && latter.kind
                == TaskActivityKind::Lifecycle ==> former.kind == TaskActivityKind::Lifecycle
        }),
{
    let order = sorting_only_moves(task_activity(task, history));
    let former = sorted(task_activity(task, history))[i];
    let latter = sorted(task_activity(task, history))[j];
    Timestamp::earlier_is_an_order();
    assert(former.timestamp.earlier(latter.timestamp) || latter.timestamp.earlier(former.timestamp)
        || former.timestamp == latter.timestamp);
}

/// The end of the history is shown: the last of it, as many as asked for, or all.
pub proof fn end_of_the_history_is_shown(task: Task, history: Seq<HistoryEntry>, limit: int)
    requires
        limit >= 0,
    ensures
        timeline(task, history, limit).is_suffix_of(sorted(task_activity(task, history))),
        limit == 0 || task_activity(task, history).len() <= limit ==> timeline(
            task,
            history,
            limit,
        ).len() == task_activity(task, history).len(),
        0 < limit < task_activity(task, history).len() ==> timeline(task, history, limit).len()
            == limit,
{
    let order = sorting_only_moves(task_activity(task, history));
    let all = sorted(task_activity(task, history));
    let r = timeline(task, history, limit);
    assert(r =~= all.subrange(all.len() - r.len(), all.len() as int));
}

/// The history of a task holds its creation, by whom and for whom, each line of
/// its log, each message that has to do with it, and what else is told, and
/// nothing more.
pub proof fn history_holds_everything(task: Task, history: Seq<HistoryEntry>, log: TaskLog)
    ensures
        task_activity(task, history).len() == 1 + status_activity(task).len() + (
        if task.removed_at is Some {
            1int
        } else {
            0
        }) + task.logs@.len() + related_messages(task, history).len(),
        task_activity(task, history)[0].timestamp == task.created_at,
        task_activity(task, history)[0].actor == task.created_by@,
        task_activity(task, history)[0].summary == "created task for "@ + task.assignee@,
        task_activity(task, history)[0].kind == TaskActivityKind::Lifecycle,
        log_activity(log).timestamp == log.timestamp,
        log_activity(log).actor == log.workspace@,
        log_activity(log).summary == log.message@,
        log_activity(log).kind == TaskActivityKind::Log,
{
}

/// One message more is part of a task's history exactly where it names the task or
/// comes from or goes to its assignee or creator.
pub proof fn related_messages_are_told(
    task: Task,
    history: Seq<HistoryEntry>,
    entry: HistoryEntry,
)
    ensures
        ({
            let related = entry.task_id@ == task.id@ || contains(entry.content@, task.id@)
                || entry.from@ == task.assignee@ || entry.to@ == task.assignee@ || entry.from@
                == task.created_by@ || entry.to@ == task.created_by@;
            &&& related ==> related_messages(task, history.push(entry)) == related_messages(
                task,
                history,
            ).push(entry)
            &&& !related ==> related_messages(task, history.push(entry)) == related_messages(
                task,
                history,
            )
            &&& related_messages(task, Seq::empty()).len() == 0
            &&& message_activity(task, entry).timestamp == entry.timestamp
            &&& message_activity(task, entry).actor == entry.from@ + "->"@ + entry.to@
            &&& message_activity(task, entry).kind == TaskActivityKind::Message
        }),
{
    assert(history.push(entry).drop_last() =~= history);
    assert(history.push(entry).last() == entry);
}

/// That a task ended is told with its result, and that it runs in any case, by the
/// name of its status; of one that waits or is blocked nothing is told.
pub proof fn ends_are_told_by_status(task: Task)
    ensures
        status_words(task) == Some("completed task"@) <== task.status == TaskStatus::Completed
            && task.result@.len() > 0,
        status_words(task) == Some("failed task"@) <== task.status == TaskStatus::Failed
            && task.result@.len() > 0,
        status_words(task) == Some("cancelled task"@) <== task.status == TaskStatus::Cancelled
            && task.result@.len() > 0,
        status_words(task) == Some("task in progress"@) <== task.status == TaskStatus::InProgress,
        status_words(task) is None <==> task.status == TaskStatus::Pending || task.status
            == TaskStatus::Blocked || (task.status != TaskStatus::InProgress && task.result@.len()
            == 0),
        status_activity(task).len() == 1 ==> status_activity(task)[0].timestamp == task.updated_at
            && status_activity(task)[0].actor == task.assignee@,
{
}

/// A short identifier is the start of the long one, eight characters of it at
/// most.
pub proof fn short_ids_are_starts(id: Seq<char>)
    ensures
        short_id(id).is_prefix_of(id),
        id.len() <= 8 ==> short_id(id) == id,
        id.len() > 8 ==> short_id(id).len() == 8,
{
    assert(short_id(id) =~= id.subrange(0, short_id(id).len() as int));
}

/// A stretch of time is told in its largest unit that has gone by in full, rounded
/// down.
pub proof fn ages_have_one_unit(secs: int)
    requires
        secs >= 0,
    ensures
        secs < 60 ==> age_text(secs) == decimal(secs as nat) + "s"@,
        60 <= secs < 3600 ==> exists|n: nat|
            60 * n <= secs < 60 * (n + 1) && age_text(secs) == #[trigger] decimal(n) + "m"@,
        3600 <= secs < 86400 ==> exists|n: nat|
            3600 * n <= secs < 3600 * (n + 1) && age_text(secs) == #[trigger] decimal(n) + "h"@,
        86400 <= secs ==> exists|n: nat|
            86400 * n <= secs < 86400 * (n + 1) && age_text(secs) == #[trigger] decimal(n) + "d"@,
{
    if 60 <= secs < 3600 {
        assert(age_text(secs) == decimal((secs / 60) as nat) + "m"@);
    }
    if 3600 <= secs < 86400 {
        assert(age_text(secs) == decimal((secs / 3600) as nat) + "h"@);
    }
    if 86400 <= secs {
        assert(age_text(secs) == decimal((secs / 86400) as nat) + "d"@);
    }
}

/// The row of a task tells its status by a word, marked where it waits or runs
/// without progress.
pub proof fn rows_tell_the_status(task: Task, now: Timestamp)
    ensures
        status_word(TaskStatus::Pending)@ == "pending"@,
        status_word(TaskStatus::InProgress)@ == "running"@,
        status_word(TaskStatus::Blocked)@ == "blocked"@,
        status_word(TaskStatus::Completed)@ == "done"@,
        status_word(TaskStatus::Failed)@ == "failed"@,
        status_word(TaskStatus::Cancelled)@ == "cancelled"@,
        task_state(task, now) == status_word(task.status)@ + " stale"@ <==> stale(task, now) && (
        task.status == TaskStatus::Pending || task.status == TaskStatus::InProgress),
        task_state(task, now) == status_word(task.status)@ <==> !(stale(task, now) && (task.status
            == TaskStatus::Pending || task.status == TaskStatus::InProgress)),
{
    reveal_strlit(" stale");
    assert(" stale"@.len() == 6);
    assert((status_word(task.status)@ + " stale"@).len() > status_word(task.status)@.len());
}

/// A row of a wide list of tasks shows the start of the identifier, the status, the
/// assignee and the title, in this order, and is as wide as the list.
pub proof fn rows_have_four_columns(task: Task, width: int, sel: Option<Style>, now: Timestamp)
    requires
        width > 36,
    ensures
        ({
            let row = task_row(task, width, sel, now);
            &&& row.len() == 7
            &&& row[0].content.len() == 8
            &&& row[2].content.len() == 13
            &&& row[4].content.len() == 12
            &&& row[6].content.len() == width - 36
            &&& short_id(task.id@).is_prefix_of(row[0].content)
            &&& task_state(task, now).len() <= 13 ==> task_state(task, now).is_prefix_of(
                row[2].content,
            )
            &&& task.assignee@.len() <= 12 ==> task.assignee@.is_prefix_of(row[4].content)
            &&& task.title@.len() <= width - 36 ==> task.title@.is_prefix_of(row[6].content)
            &&& sel is Some ==> row[0].style == sel->0 && row[6].style == sel->0
        }),
{
    let style = plain();
    short_ids_are_starts(task.id@);
    columns_hold_what_fits(short_id(task.id@), 8, style);
    columns_hold_what_fits(task_state(task, now), 13, style);
    columns_hold_what_fits(task.assignee@, 12, style);
    columns_hold_what_fits(task.title@, width - 36, style);
}

/// Of the counts of tasks as many leading ones are shown as fit, and no more would.
pub proof fn counts_are_shown_while_they_fit(s: TaskSummary, n: int, width: int)
    requires
        0 <= n <= summary_parts(s).len(),
        n > 0 ==> joined_width(summary_parts(s), n) <= width,
    ensures
        ({
            let k = fitting(summary_parts(s), n, width);
            &&& n <= k <= summary_parts(s).len()
            &&& k > 0 ==> joined_width(summary_parts(s), k) <= width
            &&& k < summary_parts(s).len() ==> joined_width(summary_parts(s), k + 1) > width
        }),
    decreases summary_parts(s).len() - n,
{
    if n < summary_parts(s).len() && joined_width(summary_parts(s), n + 1) <= width {
        counts_are_shown_while_they_fit(s, n + 1, width);
    }
}

/// All tasks, those that run, those that wait and those without progress are
/// always counted, in this order.
pub proof fn four_counts_are_always_there(s: TaskSummary)
    ensures
        summary_parts(s).len() >= 4,
        summary_parts(s)[0].content == "tot "@ + decimal(s.total as nat),
        summary_parts(s)[1].content == "run "@ + decimal(s.in_progress as nat),
        summary_parts(s)[2].content == "pend "@ + decimal(s.pending as nat),
        summary_parts(s)[3].content == "stale "@ + decimal(s.stale as nat),
        s.blocked == 0 && s.failed == 0 && s.completed == 0 && s.queued_messages == 0 && s.diverged
            == 0 && s.urgent_or_high == 0 && s.cancelled == 0 <==> summary_parts(s).len() == 4,
        s.blocked > 0 ==> summary_parts(s)[4].content == "block "@ + decimal(s.blocked as nat),
        s.blocked == 0 && s.failed > 0 ==> summary_parts(s)[4].content == "fail "@ + decimal(
            s.failed as nat,
        ),
        s.blocked == 0 && s.failed == 0 && s.completed > 0 ==> summary_parts(s)[4].content
            == "done "@ + decimal(s.completed as nat),
{
}

/// A repository is in the state that was told, else dirty where something is
/// changed or untracked, and else clean.
pub proof fn untold_repositories_are_clean_or_dirty(git: WorkspaceGitStatus)
    ensures
        trim(git.state@).len() > 0 ==> git_state_text(git) == trim(git.state@),
        trim(git.state@).len() == 0 && git.modified + git.added + git.deleted + git.untracked > 0
            ==> git_state_text(git) == "dirty"@,
        trim(git.state@).len() == 0 && git.modified + git.added + git.deleted + git.untracked <= 0
            ==> git_state_text(git) == "clean"@,
        git_state_text(git) == "clean"@ && git.modified + git.added + git.deleted == 0
            && git.untracked == 0 ==> git_inline(git, true) == "clean"@ && git_inline(git, false)
            == "clean"@,
        git_state_text(git) == "dirty"@ ==> git_inline(git, true) == "changed:"@ + number(
            git.modified + git.added + git.deleted,
        ) + " ?"@ + number(git.untracked as int),
        git_state_text(git) == "dirty"@ ==> git_inline(git, false) == "~"@ + number(
            git.modified + git.added + git.deleted,
        ) + " ?"@ + number(git.untracked as int),
        git_state_text(git) == "non_git"@ ==> git_inline(git, true) == "non-git"@,
        git_state_text(git) == "inaccessible"@ ==> git_inline(git, true) == "no access"@,
        git_state_text(git) == "error"@ ==> git_inline(git, true) == "git err"@,
{
    reveal_strlit("clean");
    reveal_strlit("dirty");
    reveal_strlit("error");
    reveal_strlit("inaccessible");
    reveal_strlit("non_git");
    assert("clean"@.len() == 5 && "dirty"@.len() == 5 && "error"@.len() == 5);
    assert("clean"@[0] == 'c' && "dirty"@[0] == 'd' && "error"@[0] == 'e');
    assert("inaccessible"@.len() == 12 && "non_git"@.len() == 7);
}

/// Counts come from the agent's terminal where it shows any, else from the daemon
/// where it knows of usage, and else there are none.
pub proof fn live_counts_come_first(live: TokensShown, trend: Option<WorkspaceTrend>)
    ensures
        ({
            let shows = live.up.len() > 0 || live.down.len() > 0 || live.total.len() > 0
                || live.cost.len() > 0;
            let known = trend is Some && trend->0.available && trend->0.total.input
                + trend->0.total.output + trend->0.total.cache_read + trend->0.total.cache_creation
                > 0;
            let source = source_of(live, trend);
            &&& source is Live <==> shows
            &&& source is Trend <==> !shows && known
            &&& source is Absent <==> !shows && !known
            &&& source matches SourceView::Live { up, down, cost } ==> up == live.up && down
                == live.down && (live.cost.len() > 0 ==> cost == live.cost) && (live.cost.len() == 0
                ==> cost == "-"@)
            &&& source matches SourceView::Trend { input, output, total } ==> input
                == trend->0.total.input && output == trend->0.total.output && total
                == trend->0.total.input + trend->0.total.cache_read
                + trend->0.total.cache_creation
        }),
{
}

/// What was sent has an arrow up and what was received one down; a dash stands
/// where nothing is known.
pub proof fn arrows_show_the_direction(
    source: SourceView,
    up: Seq<char>,
    down: Seq<char>,
    total: Seq<char>,
)
    ensures
        source is Trend ==> cells_of(source, up, down, total).up == "↑"@ + up && cells_of(
            source,
            up,
            down,
            total,
        ).down == "↓"@ + down && cells_of(source, up, down, total).cost == "Σ"@ + total,
        source is Absent ==> cells_of(source, up, down, total).up == "-"@ && cells_of(
            source,
            up,
            down,
            total,
        ).down == "-"@ && cells_of(source, up, down, total).cost == "-"@,
        source matches SourceView::Live { up: sent, down: received, cost } ==> {
            let cells = cells_of(source, up, down, total);
            &&& cells.cost == cost
            &&& sent.len() == 0 ==> cells.up == "-"@
            &&& sent.len() > 0 ==> cells.up == seq!['↑'] + up
            &&& received.len() == 0 ==> cells.down == "-"@
            &&& received.len() > 0 ==> cells.down == seq!['↓'] + down
        },
{
}

/// An agent with a session is at work where its terminal changed a short while ago
/// and idle otherwise; one without is told as the daemon knows it, and offline
/// where that does not know it.
pub proof fn busy_terminals_are_at_work(s: AppModel, row: Row, spinner: Seq<char>, now: u64)
    ensures
        row.session_index is Some && s.captures.recently_active(row.workspace, now) ==> state_text(
            s,
            row,
            spinner,
            now,
        ) == spinner + " running"@,
        row.session_index is Some && !s.captures.recently_active(row.workspace, now) ==> state_text(
            s,
            row,
            spinner,
            now,
        ) == "idle"@,
        row.session_index is None && s.workspace_infos.lookup(row.workspace) is None ==> state_text(
            s,
            row,
            spinner,
            now,
        ) == "offline"@,
        row.session_index is None && s.workspace_infos.lookup(row.workspace) is Some ==> {
            let status = s.workspace_infos.lookup(row.workspace)->0.status;
            &&& status == AgentStatus::Online ==> state_text(s, row, spinner, now) == "online"@
            &&& status == AgentStatus::Offline ==> state_text(s, row, spinner, now) == "offline"@
            &&& status == AgentStatus::Disconnected ==> state_text(s, row, spinner, now)
                == "disconnected"@
        },
        state_style(s, row, now).fg == Some(Color::Cyan) <==> row.session_index is Some
            && s.captures.recently_active(row.workspace, now),
{
}

/// What is said of an agent is how it differs from the configuration, where it
/// does, in yellow, and else what it says itself.
pub proof fn differences_are_told_first(s: AppModel, row: Row)
    ensures
        row.reconcile.len() > 0 ==> info_text(s, row) == row.reconcile && info_style(s, row).fg
            == Some(Color::Yellow),
        row.reconcile.len() == 0 && s.workspace_infos.lookup(row.workspace) is Some ==> info_text(
            s,
            row,
        ) == s.workspace_infos.lookup(row.workspace)->0.status_text@,
        row.reconcile.len() == 0 && s.workspace_infos.lookup(row.workspace) is None ==> info_text(
            s,
            row,
        ).len() == 0,
        row.reconcile.len() == 0 ==> info_style(s, row).fg != Some(Color::Yellow),
{
}

/// The selected agent has a mark before its name and a running one a full dot; the
/// name is set in by two for each level.
pub proof fn names_are_marked(selected: bool, row: Row)
    requires
        row.level >= 0,
    ensures
        ({
            let name = name_text(selected, row);
            &&& name.len() == 4 + 2 * row.level + row.label.len()
            &&& name[0] == '▸' <==> selected
            &&& name[2 + 2 * row.level] == '●' <==> row.session_index is Some
            &&& name[2 + 2 * row.level] == '○' <==> row.session_index is None
            &&& row.label.is_suffix_of(name)
            &&& name_style(row).dim <==> row.session_index is None
        }),
{
    reveal_strlit("▸");
    reveal_strlit(" ");
    reveal_strlit("●");
    reveal_strlit("○");
    let name = name_text(selected, row);
    assert(row.label =~= name.subrange(name.len() - row.label.len(), name.len() as int));
}

/// The row of the selected agent, and no other, is shown as selected, in each of
/// its columns; the columns hold the name, the state, what was sent, what was
/// received, the cost and what is said, in this order.
pub proof fn selected_agent_is_shown_as_such(
    s: AppModel,
    idx: int,
    row: Row,
    cols: AgentColumns,
    spinner: Seq<char>,
    up: Seq<char>,
    down: Seq<char>,
    money: Seq<char>,
    now: u64,
)
    ensures
        ({
            let line = agent_line(s, idx, row, cols, spinner, up, down, money, now);
            &&& line.len() == 11
            &&& line[0].style.reversed <==> idx == s.selected_entry
            &&& line[2].style.reversed <==> idx == s.selected_entry
            &&& line[10].style.reversed <==> idx == s.selected_entry
            &&& line[0].content == fitted(
                name_text(idx == s.selected_entry, row),
                cols.name as int,
            )
            &&& line[2].content == fitted(
                state_text(s, row, spinner, now),
                cols.state as int,
            )
            &&& line[4].content == fitted(up, cols.up as int)
            &&& line[6].content == fitted(down, cols.down as int)
            &&& line[8].content == fitted(money, cols.cost as int)
            &&& line[10].content == fitted(info_text(s, row), cols.info as int)
        }),
{
}

/// The columns fill the pane where it is wide enough, and the last keeps at least
/// twelve characters.
pub proof fn columns_fill_the_pane(width: int)
    requires
        0 <= width <= 0xFFFF,
    ensures
        ({
            let cols = AgentColumns::of_width(width);
            let all = cols.name + cols.state + cols.up + cols.down + cols.cost + cols.info + 5;
            &&& cols.info >= 12
            &&& width >= 75 && width < 104 ==> all == width
            &&& width >= 104 ==> all == width
            &&& cols.up == cols.down
        }),
{
}

/// A heading tells the state of the repositories below it where they share it and
/// that they differ otherwise; anything else tells nothing.
pub proof fn differing_repositories_are_mixed(s: AppModel, idx: int, wide: bool)
    ensures
        ({
            let below = child_statuses(
                s.agent_entries,
                s.workspace_infos,
                s.agent_entries[idx].level,
                idx + 1,
            );
            let heading = 0 <= idx < s.agent_entries.len() && s.agent_entries[idx].group;
            &&& git_summary(s, idx, wide) is Some <==> heading && below.len() > 0
            &&& heading && below.len() > 0 && !all_equal(below) ==> (git_summary(s, idx, wide)->0).0
                == "mixed"@
            &&& heading && below.len() > 0 && all_equal(below) ==> (git_summary(s, idx, wide)->0).0
                == git_inline(below[0], wide)
        }),
{
}

/// The list of tasks has a row for each task that the pane has room for, and the
/// selected one, and no other, is shown as such; a list without tasks says so.
pub proof fn selected_task_is_shown_as_such(
    s: AppModel,
    area: Rect,
    now: Timestamp,
    i: int,
)
    requires
        area.width > 2,
        area.height > 3,
        s.tasks.len() > 0,
        0 < app_tasks(s, now).len() <= usize::MAX,
        s.task_cursor.index < app_tasks(s, now).len(),
    ensures
        ({
            let pane = tasks_shown(s, area, now);
            let v = pane.viewport;
            let tasks = app_tasks(s, now);
            &&& pane.head.len() == 3
            &&& pane.rows.len() == if tasks.len() <= area.height - 3 {
                tasks.len() as int
            } else {
                area.height - 3
            }
            &&& v.start <= s.task_cursor.index < v.start + pane.rows.len()
            &&& 0 <= i < pane.rows.len() ==> pane.rows[i] == task_row(
                tasks[v.start + i],
                pane.rows_area.width as int,
                selected_style(
                    v.start + i == s.task_cursor.index,
                    s.focus == Focus::List,
                ),
                now,
            )
        }),
{
}

/// Of a task's log the last three entries are told, or all where they are fewer.
pub proof fn last_three_logs_are_told(task: Task, width: int)
    ensures
        task.logs@.len() == 0 ==> recent_logs(task, width).len() == 0,
        0 < task.logs@.len() <= 3 ==> recent_logs(task, width).len() == 2 + task.logs@.len(),
        task.logs@.len() > 3 ==> recent_logs(task, width).len() == 5,
        last_items(task.logs@, 3).is_suffix_of(task.logs@),
{
    let r = last_items(task.logs@, 3);
    let all = task.logs@;
    assert(r =~= all.subrange(all.len() - r.len(), all.len() as int));
}

/// The state of a repository is told with each count under its own name, and with
/// the lines that changed exactly where some did.
pub proof fn repositories_are_told_in_full(git: WorkspaceGitStatus)
    requires
        git_state_text(git) == "dirty"@ || git_state_text(git) == "clean"@,
    ensures
        ({
            let counts = git_state_text(git) + " · modified "@ + number(git.modified as int)
                + " · added "@ + number(git.added as int) + " · deleted "@ + number(
                git.deleted as int,
            ) + " · untracked "@ + number(git.untracked as int);
            let changed = git.files_changed > 0 || git.insertions > 0 || git.deletions > 0;
            &&& !changed ==> git_detail(git) == counts
            &&& changed ==> git_detail(git) == counts + " · diff "@ + number(
                git.files_changed as int,
            ) + " files +"@ + number(git.insertions as int) + " -"@ + number(git.deletions as int)
        }),
{
    reveal_strlit("clean");
    reveal_strlit("dirty");
    reveal_strlit("error");
    reveal_strlit("inaccessible");
    reveal_strlit("non_git");
    assert("clean"@.len() == 5 && "dirty"@.len() == 5 && "error"@.len() == 5);
    assert("clean"@[0] == 'c' && "dirty"@[0] == 'd' && "error"@[0] == 'e');
    assert("inaccessible"@.len() == 12 && "non_git"@.len() == 7);
}

/// Two repositories are in the same state exactly where everything that is told of
/// them is the same.
pub proof fn same_state_means_same_everything(a: WorkspaceGitStatus, b: WorkspaceGitStatus)
    ensures
        git_equal(a, b) <==> a.state@ == b.state@ && a.modified == b.modified && a.added == b.added
            && a.deleted == b.deleted && a.untracked == b.untracked && a.files_changed
            == b.files_changed && a.insertions == b.insertions && a.deletions == b.deletions
            && a.message@ == b.message@,
        git_equal(a, b) ==> git_inline(a, true) == git_inline(b, true) && git_detail(a)
            == git_detail(b),
{
}

/// The counts of tasks begin with all of them and end with those of high priority,
/// where there are some.
pub proof fn summary_counts_everything(s: TaskSummary)
    ensures
        ("total="@ + decimal(s.total as nat) + "  pending="@ + decimal(s.pending as nat)
            + "  in_progress="@ + decimal(s.in_progress as nat) + "  blocked="@ + decimal(
            s.blocked as nat,
        ) + "  stale="@ + decimal(s.stale as nat)).is_prefix_of(summary_text(s)),
        s.urgent_or_high > 0 ==> ("  high_pri="@ + decimal(s.urgent_or_high as nat)).is_suffix_of(
            summary_text(s),
        ),
        s.urgent_or_high == 0 && s.cancelled > 0 ==> ("  cancelled="@ + decimal(
            s.cancelled as nat,
        )).is_suffix_of(summary_text(s)),
{
    let t = summary_text(s);
    let head = "total="@ + decimal(s.total as nat) + "  pending="@ + decimal(s.pending as nat)
        + "  in_progress="@ + decimal(s.in_progress as nat) + "  blocked="@ + decimal(
        s.blocked as nat,
    ) + "  stale="@ + decimal(s.stale as nat);
    assert(head =~= t.subrange(0, head.len() as int));
    if s.urgent_or_high > 0 {
        let tail = "  high_pri="@ + decimal(s.urgent_or_high as nat);
        assert(tail =~= t.subrange(t.len() - tail.len(), t.len() as int));
    } else if s.cancelled > 0 {
        let tail = "  cancelled="@ + decimal(s.cancelled as nat);
        assert(tail =~= t.subrange(t.len() - tail.len(), t.len() as int));
    }
}

/// The detail of a task begins with its title, its status, its version, its
/// assignee, its creator, its priority, how long ago it changed and whether it is
/// without progress, in this order.
pub proof fn task_detail_begins_with_the_facts(task: Task, width: int, now: Timestamp)
    requires
        width >= 40,
    ensures
        ({
            let facts = facts_of_task(task, width, now);
            &&& facts.len() == if task.stale_after_seconds > 0 {
                9int
            } else {
                8
            }
            &&& facts[0][0].content == clipped(task.title@, width)
            &&& facts[1][0].content == clipped(
                "status: "@ + status_label(task, now),
                width,
            )
            &&& facts[2][0].content == "version"@ + ": "@
            &&& facts[3][0].content == "assignee"@ + ": "@
            &&& task.assignee@.len() <= 20 ==> facts[3][1].content == task.assignee@
            &&& facts[4][0].content == "created_by"@ + ": "@
            &&& task.created_by@.len() <= 20 ==> facts[4][1].content == task.created_by@
            &&& facts[5][0].content == "priority"@ + ": "@
            &&& facts[5][1].content == task_priority_label(task.priority)@
            &&& facts[6][0].content == "updated"@ + ": "@
            &&& facts[7][0].content == "stale"@ + ": "@
            &&& stale(task, now) ==> facts[7][1].content == "yes"@
            &&& !stale(task, now) ==> facts[7][1].content == "no"@
        }),
{
    reveal_strlit("assignee");
    reveal_strlit("created_by");
    reveal_strlit("priority");
    reveal_strlit("stale");
    reveal_strlit(": ");
    reveal_strlit("urgent");
    reveal_strlit("high");
    reveal_strlit("normal");
    reveal_strlit("low");
    reveal_strlit("yes");
    reveal_strlit("no");
    assert("assignee"@.len() == 8 && "created_by"@.len() == 10 && "priority"@.len() == 8);
    assert("stale"@.len() == 5 && ": "@.len() == 2 && "yes"@.len() == 3 && "no"@.len() == 2);
    assert("urgent"@.len() == 6 && "high"@.len() == 4 && "normal"@.len() == 6 && "low"@.len() == 3);
}

/// One more count stands after a dot, and takes as many characters more as it has
/// with the dot.
pub proof fn counts_stand_between_dots(parts: Seq<SpanView>, n: int)
    requires
        0 < n <= parts.len(),
    ensures
        joined_parts(parts, n).last() == parts[n - 1],
        joined_parts(parts, n).len() == joined_parts(parts, n - 1).len() + if n > 1 {
            2int
        } else {
            1
        },
        n > 1 ==> joined_parts(parts, n)[joined_parts(parts, n).len() - 2].content == " · "@,
        joined_width(parts, n) == joined_width(parts, n - 1) + parts[n - 1].content.len()
            + if n > 1 {
            3int
        } else {
            0
        },
        joined_parts(parts, 0).len() == 0,
        joined_width(parts, 0) == 0,
{
}

/// Above the list of tasks stand the filter, the place of the selected task and how
/// many there are, then the counts, or what is wrong with the tasks.
pub proof fn head_tells_the_filter(s: AppModel, width: int, now: Timestamp)
    requires
        width > 0,
        s.task_cursor.index < app_tasks(s, now).len(),
    ensures
        ({
            let head = tasks_head(s, width, now);
            &&& head.len() == 3
            &&& head[0][0].content == clipped(
                "tasks · "@ + s.task_filter.label()@ + " · "@ + decimal(
                    (s.task_cursor.index + 1) as nat,
                ) + "/"@ + decimal(app_tasks(s, now).len()),
                width,
            )
            &&& s.task_snapshot_error is Some ==> head[1][0].content == clipped(
                "snapshot error: "@ + s.task_snapshot_error->0,
                width,
            ) && head[1][0].style.fg == Some(Color::Red)
            &&& s.task_snapshot_error is None ==> head[1] == summary_line(
                summary_of(s.tasks, now),
                width,
            )
        }),
{
}

/// What is known of a task without progress is told line by line, each exactly
/// where there is something to tell.
pub proof fn known_staleness_is_told(task: Task, width: int)
    ensures
        task.stale_info is None ==> stale_lines(task, width).len() == 0,
        task.stale_info is Some ==> ({
            let known = task.stale_info->0;
            stale_lines(task, width).len() == 2 + (if known.reason@.len() > 0 {
                1int
            } else {
                0
            }) + (if known.recommended_action@.len() > 0 {
                1int
            } else {
                0
            }) + (if known.pending_messages > 0 {
                1int
            } else {
                0
            }) + (if known.wake_pending {
                1int
            } else {
                0
            }) + (if known.state_divergence {
                1int
            } else {
                0
            })
        }),
{
}

/// A line of a log shows the time of day, who wrote it and what was written.
pub proof fn log_lines_show_who_wrote(log: TaskLog, width: int)
    requires
        log.message@.len() + 13 <= width,
        log.message@.len() > 0,
    ensures
        log_line(log, width).len() == 4,
        log_line(log, width)[0].content == "  "@ + clock_text(log.timestamp.unix_secs() as int)
            + " "@,
        log_line(log, width)[1].content == log.workspace@,
        log_line(log, width)[3].content == log.message@,
        log_line(log, width)[3].style == body_style(log.message@),
{
}

/// That a task was removed is told with the time and with who did it: whoever is
/// named, else its creator.
pub proof fn removal_names_who_did_it(task: Task)
    ensures
        task.removed_at is None ==> removal(task).len() == 0,
        task.removed_at is Some ==> ({
            let told = removal(task);
            &&& told.len() == 1
            &&& told[0].timestamp == task.removed_at->0
            &&& told[0].summary == "removed task"@
            &&& told[0].kind == TaskActivityKind::Lifecycle
            &&& task.removed_by@.len() > 0 ==> told[0].actor == task.removed_by@
            &&& task.removed_by@.len() == 0 ==> told[0].actor == task.created_by@
        }),
{
}

/// A list of tasks without rows says why: that they could not be read, that there
/// are none, or that none passes the filter.
pub proof fn empty_lists_say_why(s: AppModel, area: Rect, now: Timestamp)
    requires
        area.width > 2,
        area.height > 3,
    ensures
        ({
            let pane = tasks_shown(s, area, now);
            &&& s.tasks.len() == 0 && s.task_snapshot_error is None ==> pane.rows.len() == 1
                && pane.rows[0][0].content == "  (no tasks yet)"@
            &&& s.tasks.len() == 0 && s.task_snapshot_error is Some ==> pane.rows.len() == 1
                && pane.rows[0][0].content == clipped(
                "  snapshot error: "@ + s.task_snapshot_error->0,
                area.width as int,
            )
            &&& s.tasks.len() > 0 && app_tasks(s, now).len() == 0 ==> pane.rows.len() == 1
                && pane.rows[0][0].content
                == "  (no tasks match current filter — press f to cycle)"@
        }),
{
}

} // verus!
