//! What holds of every list of tasks that is shown, and of its counts.

use vstd::prelude::*;

use crate::order::{filter_keeps_the_picked, sorted, sorting_only_moves};
use crate::proto::types::{Task, TaskPriority, TaskStatus};
use crate::text::{before, before_is_an_order};
use crate::time::Timestamp;
use crate::tui::tasks::{
    listed_tasks, shown_tasks, stale, stale_count, status_label, summarizes, task_priority_label,
    task_status_str, with_status, TaskFilterMode, TaskSummary,
};

verus! {

/// The nanoseconds from `start` to `end`.
pub open spec fn nanos_between(start: Timestamp, end: Timestamp) -> int {
    1_000_000_000 * (end.unix_secs() - start.unix_secs()) + (end.sub_nanos() - start.sub_nanos())
}

/// Both instants give less than a second in nanoseconds.
pub open spec fn fractions_of_seconds(a: Timestamp, b: Timestamp) -> bool {
    a.sub_nanos() < 1_000_000_000 && b.sub_nanos() < 1_000_000_000
}

/// However tasks stand before they are sorted, afterwards those that run stand
/// above those that wait, those above the blocked ones, those above the failed
/// ones, those above the cancelled ones, and the completed ones stand last.
pub proof fn running_tasks_stand_first(tasks: Seq<Task>, i: int, j: int)
    requires
        0 <= i < j < tasks.len(),
    ensures
        ({
            let above = sorted(tasks)[i].status;
            let below = sorted(tasks)[j].status;
            &&& below == TaskStatus::InProgress ==> above == TaskStatus::InProgress
            &&& below == TaskStatus::Pending ==> above == TaskStatus::InProgress || above
                == TaskStatus::Pending
            &&& above == TaskStatus::Failed ==> below == TaskStatus::Failed || below
                == TaskStatus::Cancelled || below == TaskStatus::Completed
            &&& below == TaskStatus::Failed ==> above != TaskStatus::Cancelled && above
                != TaskStatus::Completed
            &&& above == TaskStatus::Cancelled ==> below == TaskStatus::Cancelled || below
                == TaskStatus::Completed
            &&& above == TaskStatus::Completed ==> below == TaskStatus::Completed
        }),
{
    let order = sorting_only_moves(tasks);
}

/// Among sorted tasks of one status an urgent one never stands below one that is
/// not urgent, one of high priority only below urgent ones and its like, and one
/// of low priority never above one that is not. A task without a priority counts
/// like one of normal priority.
pub proof fn pressing_tasks_stand_higher(tasks: Seq<Task>, i: int, j: int)
    requires
        0 <= i < j < tasks.len(),
        sorted(tasks)[i].status == sorted(tasks)[j].status,
    ensures
        ({
            let above = sorted(tasks)[i].priority;
            let below = sorted(tasks)[j].priority;
            &&& below == Some(TaskPriority::Urgent) ==> above == Some(TaskPriority::Urgent)
            &&& below == Some(TaskPriority::High) ==> above == Some(TaskPriority::Urgent) || above
                == Some(TaskPriority::High)
            &&& (below == Some(TaskPriority::Normal) || below is None) ==> above
                != Some(TaskPriority::Low)
            &&& above == Some(TaskPriority::Low) ==> below == Some(TaskPriority::Low)
        }),
{
    let order = sorting_only_moves(tasks);
}

/// Two priorities that move a task equally far up: the same, or none and normal.
pub open spec fn equally_pressing(a: Option<TaskPriority>, b: Option<TaskPriority>) -> bool {
    a == b || ((a is None || a == Some(TaskPriority::Normal)) && (b is None || b
        == Some(TaskPriority::Normal)))
}

/// Among sorted tasks of one status that are equally pressing, one that was
/// changed later never stands below one that was changed earlier; where that does
/// not tell them apart the one created later stands above, and where not even
/// that does, the identifiers ascend.
pub proof fn fresh_tasks_stand_higher(tasks: Seq<Task>, i: int, j: int)
    requires
        0 <= i < j < tasks.len(),
        sorted(tasks)[i].status == sorted(tasks)[j].status,
        equally_pressing(sorted(tasks)[i].priority, sorted(tasks)[j].priority),
        fractions_of_seconds(sorted(tasks)[i].updated_at, sorted(tasks)[j].updated_at),
        fractions_of_seconds(sorted(tasks)[i].created_at, sorted(tasks)[j].created_at),
    ensures
        ({
            let above = sorted(tasks)[i];
            let below = sorted(tasks)[j];
            &&& nanos_between(below.updated_at, above.updated_at) >= 0
            &&& nanos_between(below.updated_at, above.updated_at) == 0 ==> nanos_between(
                below.created_at,
                above.created_at,
            ) >= 0
            &&& nanos_between(below.updated_at, above.updated_at) == 0 && nanos_between(
                below.created_at,
                above.created_at,
            ) == 0 ==> above.id@ == below.id@ || before(above.id@, below.id@)
        }),
{
    let order = sorting_only_moves(tasks);
    Timestamp::earlier_is_an_order();
    before_is_an_order();
    let above = sorted(tasks)[i];
    let below = sorted(tasks)[j];
    assert(above.updated_at.earlier(below.updated_at) || below.updated_at.earlier(above.updated_at)
        || above.updated_at == below.updated_at);
    assert(above.created_at.earlier(below.created_at) || below.created_at.earlier(above.created_at)
        || above.created_at == below.created_at);
    assert(before(above.id@, below.id@) || before(below.id@, above.id@) || above.id@ == below.id@);
}

/// A task is without progress exactly where the daemon says so, or where it waits
/// or runs, may stand still for a positive number of seconds only, and at least
/// that much time has gone by since it was changed.
pub proof fn stale_means_untouched_for_too_long(task: Task, now: Timestamp)
    requires
        fractions_of_seconds(task.updated_at, now),
    ensures
        stale(task, now) <==> (task.stale_info is Some && task.stale_info->0.is_stale) || ((
        task.status == TaskStatus::Pending || task.status == TaskStatus::InProgress)
            && task.stale_after_seconds > 0 && nanos_between(task.updated_at, now)
            >= 1_000_000_000 * task.stale_after_seconds),
{
}

/// A task without progress stays one as time goes by, while nobody touches it.
pub proof fn stale_stays_stale(task: Task, now: Timestamp, later: Timestamp)
    requires
        stale(task, now),
        fractions_of_seconds(now, later),
        task.updated_at.sub_nanos() < 1_000_000_000,
        nanos_between(now, later) >= 0,
    ensures
        stale(task, later),
{
}

/// A filter lets through what it picks, and keeps the order.
proof fn listing_is_filtering(
    tasks: Seq<Task>,
    mode: TaskFilterMode,
    now: Timestamp,
    picks: spec_fn(Task) -> bool,
)
    requires
        forall|t: Task|
            #[trigger] picks(t) <==> match mode {
                TaskFilterMode::Active => t.status == TaskStatus::Pending || t.status
                    == TaskStatus::InProgress || t.status == TaskStatus::Blocked,
                TaskFilterMode::Stale => stale(t, now),
                TaskFilterMode::Done => t.status == TaskStatus::Completed || t.status
                    == TaskStatus::Failed || t.status == TaskStatus::Cancelled,
                TaskFilterMode::All => true,
            },
    ensures
        listed_tasks(tasks, mode, now) == tasks.filter(picks),
    decreases tasks.len(),
{
    reveal(Seq::filter);
    if tasks.len() > 0 {
        listing_is_filtering(tasks.drop_last(), mode, now, picks);
        assert(picks(tasks.last()) || !picks(tasks.last()));
    }
}

/// What is shown are, each once, the tasks that the filter picks: no other, and
/// none is missing.
proof fn shown_are_the_picked(
    tasks: Seq<Task>,
    mode: TaskFilterMode,
    now: Timestamp,
    picks: spec_fn(Task) -> bool,
)
    requires
        listed_tasks(tasks, mode, now) == tasks.filter(picks),
    ensures
        shown_tasks(tasks, mode, now).len() == tasks.filter(picks).len(),
        forall|t: Task| #[trigger]
            shown_tasks(tasks, mode, now).contains(t) <==> tasks.contains(t) && picks(t),
{
    let kept = tasks.filter(picks);
    let order = sorting_only_moves(kept);
    filter_keeps_the_picked(tasks, picks);
    assert forall|t: Task| #[trigger]
        shown_tasks(tasks, mode, now).contains(t) <==> tasks.contains(t) && picks(t) by {
        assert(sorted(kept).contains(t) <==> kept.contains(t));
    }
}

/// Under the filter for open tasks exactly those are shown that wait, run or are
/// blocked.
pub proof fn active_are_the_open(tasks: Seq<Task>, now: Timestamp)
    ensures
        ({
            let picks = |t: Task|
                t.status == TaskStatus::Pending || t.status == TaskStatus::InProgress || t.status
                    == TaskStatus::Blocked;
            let shown = shown_tasks(tasks, TaskFilterMode::Active, now);
            &&& shown.len() == tasks.filter(picks).len()
            &&& forall|t: Task| #[trigger] shown.contains(t) <==> tasks.contains(t) && picks(t)
        }),
{
    let picks = |t: Task|
        t.status == TaskStatus::Pending || t.status == TaskStatus::InProgress || t.status
            == TaskStatus::Blocked;
    listing_is_filtering(tasks, TaskFilterMode::Active, now, picks);
    shown_are_the_picked(tasks, TaskFilterMode::Active, now, picks);
}

/// Under the filter for finished tasks exactly those are shown that are
/// completed, failed or cancelled.
pub proof fn done_are_the_finished(tasks: Seq<Task>, now: Timestamp)
    ensures
        ({
            let picks = |t: Task|
                t.status == TaskStatus::Completed || t.status == TaskStatus::Failed || t.status
                    == TaskStatus::Cancelled;
            let shown = shown_tasks(tasks, TaskFilterMode::Done, now);
            &&& shown.len() == tasks.filter(picks).len()
            &&& forall|t: Task| #[trigger] shown.contains(t) <==> tasks.contains(t) && picks(t)
        }),
{
    let picks = |t: Task|
        t.status == TaskStatus::Completed || t.status == TaskStatus::Failed || t.status
            == TaskStatus::Cancelled;
    listing_is_filtering(tasks, TaskFilterMode::Done, now, picks);
    shown_are_the_picked(tasks, TaskFilterMode::Done, now, picks);
}

/// Under the filter for tasks without progress exactly those are shown, finished
/// or not.
pub proof fn stale_are_those_without_progress(tasks: Seq<Task>, now: Timestamp)
    ensures
        ({
            let picks = |t: Task| stale(t, now);
            let shown = shown_tasks(tasks, TaskFilterMode::Stale, now);
            &&& shown.len() == tasks.filter(picks).len()
            &&& forall|t: Task| #[trigger] shown.contains(t) <==> tasks.contains(t) && picks(t)
        }),
{
    let picks = |t: Task| stale(t, now);
    listing_is_filtering(tasks, TaskFilterMode::Stale, now, picks);
    shown_are_the_picked(tasks, TaskFilterMode::Stale, now, picks);
}

/// Without a filter every task is shown, as often as it is there.
pub proof fn all_are_shown(tasks: Seq<Task>, now: Timestamp)
    ensures
        shown_tasks(tasks, TaskFilterMode::All, now) == sorted(tasks),
        shown_tasks(tasks, TaskFilterMode::All, now).len() == tasks.len(),
    decreases tasks.len(),
{
    nothing_is_left_out(tasks, now);
    let order = sorting_only_moves(tasks);
}

proof fn nothing_is_left_out(tasks: Seq<Task>, now: Timestamp)
    ensures
        listed_tasks(tasks, TaskFilterMode::All, now) == tasks,
    decreases tasks.len(),
{
    if tasks.len() > 0 {
        nothing_is_left_out(tasks.drop_last(), now);
        assert(tasks.drop_last().push(tasks.last()) =~= tasks);
    }
}

/// Every task is shown under exactly one of the filters for open and for finished
/// tasks.
pub proof fn open_and_finished_make_all(tasks: Seq<Task>, now: Timestamp)
    ensures
        shown_tasks(tasks, TaskFilterMode::Active, now).len() + shown_tasks(
            tasks,
            TaskFilterMode::Done,
            now,
        ).len() == tasks.len(),
    decreases tasks.len(),
{
    if tasks.len() > 0 {
        open_and_finished_make_all(tasks.drop_last(), now);
    }
    let a = sorting_only_moves(listed_tasks(tasks, TaskFilterMode::Active, now));
    let b = sorting_only_moves(listed_tasks(tasks, TaskFilterMode::Done, now));
    let c = sorting_only_moves(listed_tasks(tasks.drop_last(), TaskFilterMode::Active, now));
    let d = sorting_only_moves(listed_tasks(tasks.drop_last(), TaskFilterMode::Done, now));
}

/// What is shown under any filter stands in the same order as any sorted tasks: by
/// status, and within a status by priority.
pub proof fn shown_tasks_stand_in_order(
    tasks: Seq<Task>,
    mode: TaskFilterMode,
    now: Timestamp,
    i: int,
    j: int,
)
    requires
        0 <= i < j < shown_tasks(tasks, mode, now).len(),
    ensures
        ({
            let above = shown_tasks(tasks, mode, now)[i];
            let below = shown_tasks(tasks, mode, now)[j];
            let same = above.status == below.status;
            &&& below.status == TaskStatus::InProgress ==> above.status == TaskStatus::InProgress
            &&& below.status == TaskStatus::Pending ==> above.status == TaskStatus::InProgress
                || above.status == TaskStatus::Pending
            &&& above.status == TaskStatus::Failed ==> below.status == TaskStatus::Failed
                || below.status == TaskStatus::Cancelled || below.status == TaskStatus::Completed
            &&& above.status == TaskStatus::Cancelled ==> below.status == TaskStatus::Cancelled
                || below.status == TaskStatus::Completed
            &&& above.status == TaskStatus::Completed ==> below.status == TaskStatus::Completed
            &&& same && below.priority == Some(TaskPriority::Urgent) ==> above.priority == Some(
                TaskPriority::Urgent,
            )
            &&& same && below.priority == Some(TaskPriority::High) ==> above.priority == Some(
                TaskPriority::Urgent,
            ) || above.priority == Some(TaskPriority::High)
            &&& same && above.priority == Some(TaskPriority::Low) ==> below.priority == Some(
                TaskPriority::Low,
            )
        }),
{
    let kept = listed_tasks(tasks, mode, now);
    let order = sorting_only_moves(kept);
    running_tasks_stand_first(kept, i, j);
    if sorted(kept)[i].status == sorted(kept)[j].status {
        pressing_tasks_stand_higher(kept, i, j);
    }
}

/// One where `b` holds, else nothing.
pub open spec fn counted(b: bool) -> int {
    if b {
        1
    } else {
        0
    }
}

/// Of no tasks every count is zero, and one task more raises exactly the counts
/// that it falls under: that of its status, that of the tasks without progress,
/// that of those whose record has come apart, that of the urgent and high ones,
/// and the waiting messages by as many as wait for it.
pub proof fn one_more_task_is_counted(
    less: TaskSummary,
    more: TaskSummary,
    tasks: Seq<Task>,
    task: Task,
    now: Timestamp,
)
    requires
        summarizes(less, tasks, now),
        summarizes(more, tasks.push(task), now),
    ensures
        more.pending - less.pending == counted(task.status == TaskStatus::Pending),
        more.in_progress - less.in_progress == counted(task.status == TaskStatus::InProgress),
        more.blocked - less.blocked == counted(task.status == TaskStatus::Blocked),
        more.completed - less.completed == counted(task.status == TaskStatus::Completed),
        more.failed - less.failed == counted(task.status == TaskStatus::Failed),
        more.cancelled - less.cancelled == counted(task.status == TaskStatus::Cancelled),
        more.stale - less.stale == counted(stale(task, now)),
        more.diverged - less.diverged == counted(
            task.stale_info is Some && task.stale_info->0.state_divergence,
        ),
        more.urgent_or_high - less.urgent_or_high == counted(
            task.priority == Some(TaskPriority::Urgent) || task.priority == Some(TaskPriority::High),
        ),
        more.queued_messages - less.queued_messages == if task.stale_info is Some {
            task.stale_info->0.pending_messages as int
        } else {
            0
        },
        tasks.len() == 0 ==> less.pending == 0 && less.in_progress == 0 && less.blocked == 0
            && less.completed == 0 && less.failed == 0 && less.cancelled == 0 && less.stale == 0
            && less.diverged == 0 && less.urgent_or_high == 0 && less.queued_messages == 0,
{
    assert(tasks.push(task).drop_last() =~= tasks);
    assert(tasks.push(task).last() == task);
}

/// As many tasks are counted as without progress as the filter for them shows,
/// and as many under the open statuses as the filter for open tasks shows.
pub proof fn counts_agree_with_filters(s: TaskSummary, tasks: Seq<Task>, now: Timestamp)
    requires
        summarizes(s, tasks, now),
    ensures
        s.stale == shown_tasks(tasks, TaskFilterMode::Stale, now).len(),
        s.pending + s.in_progress + s.blocked == shown_tasks(
            tasks,
            TaskFilterMode::Active,
            now,
        ).len(),
        s.completed + s.failed + s.cancelled == shown_tasks(tasks, TaskFilterMode::Done, now).len(),
{
    listed_are_counted(tasks, now);
    let a = sorting_only_moves(listed_tasks(tasks, TaskFilterMode::Active, now));
    let b = sorting_only_moves(listed_tasks(tasks, TaskFilterMode::Done, now));
    let c = sorting_only_moves(listed_tasks(tasks, TaskFilterMode::Stale, now));
}

proof fn listed_are_counted(tasks: Seq<Task>, now: Timestamp)
    ensures
        stale_count(tasks, now) == listed_tasks(
            tasks,
            TaskFilterMode::Stale,
            now,
        ).len(),
        with_status(tasks, TaskStatus::Pending)
            + with_status(tasks, TaskStatus::InProgress)
            + with_status(tasks, TaskStatus::Blocked) == listed_tasks(
            tasks,
            TaskFilterMode::Active,
            now,
        ).len(),
        with_status(tasks, TaskStatus::Completed)
            + with_status(tasks, TaskStatus::Failed)
            + with_status(tasks, TaskStatus::Cancelled) == listed_tasks(
            tasks,
            TaskFilterMode::Done,
            now,
        ).len(),
    decreases tasks.len(),
{
    if tasks.len() > 0 {
        listed_are_counted(tasks.drop_last(), now);
    }
}

/// Different statuses have different names, and so have different priorities; a
/// task without one is shown like one of normal priority.
pub proof fn names_tell_apart(s: TaskStatus, t: TaskStatus, p: TaskPriority, q: TaskPriority)
    ensures
        task_status_str(s)@ == task_status_str(t)@ ==> s == t,
        task_priority_label(Some(p))@ == task_priority_label(Some(q))@ ==> p == q,
        task_priority_label(None)@ == "normal"@,
        task_status_str(s)@ == "pending"@ <==> s == TaskStatus::Pending,
        task_status_str(s)@ == "in_progress"@ <==> s == TaskStatus::InProgress,
        task_status_str(s)@ == "blocked"@ <==> s == TaskStatus::Blocked,
        task_status_str(s)@ == "completed"@ <==> s == TaskStatus::Completed,
        task_status_str(s)@ == "failed"@ <==> s == TaskStatus::Failed,
        task_status_str(s)@ == "cancelled"@ <==> s == TaskStatus::Cancelled,
        task_priority_label(Some(p))@ == "urgent"@ <==> p == TaskPriority::Urgent,
        task_priority_label(Some(p))@ == "high"@ <==> p == TaskPriority::High,
        task_priority_label(Some(p))@ == "normal"@ <==> p == TaskPriority::Normal,
        task_priority_label(Some(p))@ == "low"@ <==> p == TaskPriority::Low,
{
    reveal_strlit("pending");
    reveal_strlit("in_progress");
    reveal_strlit("blocked");
    reveal_strlit("completed");
    reveal_strlit("failed");
    reveal_strlit("cancelled");
    reveal_strlit("urgent");
    reveal_strlit("high");
    reveal_strlit("normal");
    reveal_strlit("low");
    assert("pending"@.len() == 7 && "in_progress"@.len() == 11 && "blocked"@.len() == 7);
    assert("completed"@.len() == 9 && "failed"@.len() == 6 && "cancelled"@.len() == 9);
    assert("pending"@[0] == 'p' && "blocked"@[0] == 'b');
    assert("completed"@[1] == 'o' && "cancelled"@[1] == 'a');
    assert("urgent"@.len() == 6 && "high"@.len() == 4 && "normal"@.len() == 6 && "low"@.len() == 3);
    assert("urgent"@[0] == 'u' && "normal"@[0] == 'n');
}

/// A finished task is never marked as being without progress, and an open one is
/// exactly where it is.
pub proof fn only_open_tasks_are_marked(task: Task, now: Timestamp)
    ensures
        (task.status == TaskStatus::Completed || task.status == TaskStatus::Failed || task.status
            == TaskStatus::Cancelled) ==> status_label(task, now) == task_status_str(task.status)@,
        (task.status == TaskStatus::Pending || task.status == TaskStatus::InProgress || task.status
            == TaskStatus::Blocked) ==> (status_label(task, now) == task_status_str(task.status)@
            + " stale"@ <==> stale(task, now)) && (status_label(task, now) == task_status_str(
            task.status,
        )@ <==> !stale(task, now)),
{
    reveal_strlit(" stale");
    assert((task_status_str(task.status)@ + " stale"@).len() > task_status_str(task.status)@.len());
}

} // verus!
