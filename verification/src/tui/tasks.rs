//! Tasks as the view lists and describes them.

use vstd::prelude::*;

use crate::order::{
    arranged, comes_earlier, is_stable_order, is_stable_sort, sort_stably, sorted,
    sorting_only_moves, stable_sort_is_sorted, Ranked, Rule,
};
use crate::proto::types::{HistoryEntry, Task, TaskLog, TaskPriority, TaskStatus};
use crate::text::{
    before, before_is_an_order, contains, count_of, decimal, has, is_before, number, number_of,
    replace, replace_all, replace_char, replace_text, same, chars_of, string_of,
};
use crate::time::Timestamp;

verus! {

broadcast use {vstd::seq_lib::group_seq_properties, vstd::string::group_string_axioms};

/// What reading a file of the daemon gave.
#[derive(Debug, Clone, PartialEq, Eq)]
pub enum SnapshotRead<T> {
    Loaded(T),
    Missing,
    Error(String),
}

/// The file in which the daemon keeps its tasks.
pub const TASKS_FILE_NAME: &'static str = "tasks-state.json";

/// The file in which the daemon kept its tasks of old.
pub const LEGACY_TASKS_FILE_NAME: &'static str = "tasks.json";

/// The file that stands in for a file of tasks that is missing.
pub fn older_tasks_file(file_name: &str) -> (r: Option<&'static str>)
    ensures
        match r {
            Some(older) => file_name@ == TASKS_FILE_NAME@ && older@ == LEGACY_TASKS_FILE_NAME@,
            None => file_name@ != TASKS_FILE_NAME@,
        },
{
    if same(file_name, TASKS_FILE_NAME) {
        Some(LEGACY_TASKS_FILE_NAME)
    } else {
        None
    }
}

/// What reading the tasks gave: tasks in the order in which they are listed, or
/// why they could not be made out.
pub fn tasks_snapshot(path: &str, parsed: Result<Vec<Task>, String>) -> (r: SnapshotRead<Vec<Task>>)
    ensures
        match parsed {
            Ok(tasks) => r matches SnapshotRead::Loaded(v) && v@ == sorted(tasks@),
            Err(error) => r matches SnapshotRead::Error(e) && e@ == "tasks snapshot parse "@ + path@
                + ": "@ + error@,
        },
{
    match parsed {
        Ok(tasks) => {
            let mut tasks = tasks;
            sort_tasks_for_display(&mut tasks);
            SnapshotRead::Loaded(tasks)
        },
        Err(error) => SnapshotRead::Error(
            "tasks snapshot parse ".to_owned().concat(path).concat(": ").concat(error.as_str()),
        ),
    }
}

/// Which tasks are listed.
#[derive(Debug, Clone, Copy, PartialEq, Eq, Structural)]
pub enum TaskFilterMode {
    Active,
    Stale,
    Done,
    All,
}

impl TaskFilterMode {
    /// The name of the filter.
    #[verifier::allow_in_spec]
    pub fn label(self) -> &'static str
        returns
            (match self {
                TaskFilterMode::Active => "active",
                TaskFilterMode::Stale => "stale",
                TaskFilterMode::Done => "done",
                TaskFilterMode::All => "all",
            }),
    {
        match self {
            TaskFilterMode::Active => "active",
            TaskFilterMode::Stale => "stale",
            TaskFilterMode::Done => "done",
            TaskFilterMode::All => "all",
        }
    }

    /// The filter that the filter key turns to.
    #[verifier::allow_in_spec]
    pub fn next(self) -> TaskFilterMode
        returns
            (match self {
                TaskFilterMode::Active => TaskFilterMode::Stale,
                TaskFilterMode::Stale => TaskFilterMode::Done,
                TaskFilterMode::Done => TaskFilterMode::All,
                TaskFilterMode::All => TaskFilterMode::Active,
            }),
    {
        match self {
            TaskFilterMode::Active => TaskFilterMode::Stale,
            TaskFilterMode::Stale => TaskFilterMode::Done,
            TaskFilterMode::Done => TaskFilterMode::All,
            TaskFilterMode::All => TaskFilterMode::Active,
        }
    }

    /// The filter key leads through every filter and back.
    pub proof fn four_steps_lead_back(self, m: TaskFilterMode)
        ensures
            self.next().next().next().next() == self,
            m == self || m == self.next() || m == self.next().next() || m
                == self.next().next().next(),
    {
    }
}

/// A task that is still to be done.
pub open spec fn is_open(status: TaskStatus) -> bool {
    status == TaskStatus::Pending || status == TaskStatus::InProgress || status
        == TaskStatus::Blocked
}

/// A task without progress: the daemon says so, or it is waiting or running and
/// was not touched for as long as it may be.
pub open spec fn stale(task: Task, now: Timestamp) -> bool {
    ||| (task.stale_info matches Some(info) && info.is_stale)
    ||| (task.status == TaskStatus::Pending || task.status == TaskStatus::InProgress)
        && task.stale_after_seconds > 0 && now.seconds_from(task.updated_at)
        >= task.stale_after_seconds
}

/// Whether a task is without progress at the time `now`.
pub fn task_is_stale(task: &Task, now: Timestamp) -> (r: bool)
    ensures
        r == stale(*task, now),
{
    if let Some(info) = &task.stale_info {
        if info.is_stale {
            return true;
        }
    }
    if task.status != TaskStatus::Pending && task.status != TaskStatus::InProgress {
        return false;
    }
    if task.stale_after_seconds <= 0 {
        return false;
    }
    now.seconds_since(&task.updated_at) >= task.stale_after_seconds
}

/// A task that the filter lets through.
pub open spec fn listed(task: Task, mode: TaskFilterMode, now: Timestamp) -> bool {
    match mode {
        TaskFilterMode::Active => is_open(task.status),
        TaskFilterMode::Stale => stale(task, now),
        TaskFilterMode::Done => !is_open(task.status),
        TaskFilterMode::All => true,
    }
}

/// Whether the filter lets a task through.
pub fn is_listed(task: &Task, mode: TaskFilterMode, now: Timestamp) -> (r: bool)
    ensures
        r == listed(*task, mode, now),
{
    let open = task.status == TaskStatus::Pending || task.status == TaskStatus::InProgress
        || task.status == TaskStatus::Blocked;
    match mode {
        TaskFilterMode::Active => open,
        TaskFilterMode::Stale => task_is_stale(task, now),
        TaskFilterMode::Done => !open,
        TaskFilterMode::All => true,
    }
}

/// The tasks that the filter lets through, in their former order.
pub open spec fn listed_tasks(tasks: Seq<Task>, mode: TaskFilterMode, now: Timestamp) -> Seq<Task>
    decreases tasks.len(),
{
    if tasks.len() == 0 {
        Seq::empty()
    } else {
        let front = listed_tasks(tasks.drop_last(), mode, now);
        if listed(tasks.last(), mode, now) {
            front.push(tasks.last())
        } else {
            front
        }
    }
}

/// How far up a priority moves a task; lower is further up.
#[verifier::allow_in_spec]
pub fn task_priority_order(priority: Option<TaskPriority>) -> i32
    returns
        (match priority {
            Some(TaskPriority::Urgent) => 0i32,
            Some(TaskPriority::High) => 1i32,
            Some(TaskPriority::Normal) => 2i32,
            None => 2i32,
            Some(TaskPriority::Low) => 3i32,
        }),
{
    match priority {
        Some(TaskPriority::Urgent) => 0,
        Some(TaskPriority::High) => 1,
        Some(TaskPriority::Normal) => 2,
        None => 2,
        Some(TaskPriority::Low) => 3,
    }
}

/// How far up a status moves a task; lower is further up.
#[verifier::allow_in_spec]
pub fn task_sort_order(status: TaskStatus) -> i32
    returns
        (match status {
            TaskStatus::InProgress => 0i32,
            TaskStatus::Pending => 1i32,
            TaskStatus::Blocked => 2i32,
            TaskStatus::Failed => 3i32,
            TaskStatus::Cancelled => 4i32,
            TaskStatus::Completed => 5i32,
        }),
{
    match status {
        TaskStatus::InProgress => 0,
        TaskStatus::Pending => 1,
        TaskStatus::Blocked => 2,
        TaskStatus::Failed => 3,
        TaskStatus::Cancelled => 4,
        TaskStatus::Completed => 5,
    }
}

/// Tasks are listed by status, then by priority, then the one changed last
/// first, then the one created last first, then by identifier.
impl Rule for Task {
    open spec fn goes_before(&self, other: &Self) -> bool {
        let (s, t) = (task_sort_order(self.status), task_sort_order(other.status));
        let (p, q) = (task_priority_order(self.priority), task_priority_order(other.priority));
        if s != t {
            s < t
        } else if p != q {
            p < q
        } else if self.updated_at != other.updated_at {
            other.updated_at.earlier(self.updated_at)
        } else if self.created_at != other.created_at {
            other.created_at.earlier(self.created_at)
        } else {
            before(self.id@, other.id@)
        }
    }

    proof fn rule_is_strict_weak_order() {
        Timestamp::earlier_is_an_order();
        before_is_an_order();
        assert forall|a: Self, b: Self, c: Self|
            #![trigger a.goes_before(&c), a.goes_before(&b)]
            a.goes_before(&c) implies a.goes_before(&b) || b.goes_before(&c) by {
            assert(before(a.id@, b.id@) || before(b.id@, a.id@) || a.id@ == b.id@);
            assert(before(b.id@, c.id@) || before(c.id@, b.id@) || c.id@ == b.id@);
            assert(a.updated_at.earlier(b.updated_at) || b.updated_at.earlier(a.updated_at)
                || a.updated_at == b.updated_at);
            assert(a.created_at.earlier(b.created_at) || b.created_at.earlier(a.created_at)
                || a.created_at == b.created_at);
            assert(c.updated_at.earlier(b.updated_at) || b.updated_at.earlier(c.updated_at)
                || c.updated_at == b.updated_at);
            assert(c.created_at.earlier(b.created_at) || b.created_at.earlier(c.created_at)
                || c.created_at == b.created_at);
        }
    }
}

impl Ranked for Task {
    fn is_ahead_of(&self, other: &Self) -> bool {
        let s = task_sort_order(self.status);
        let t = task_sort_order(other.status);
        if s != t {
            return s < t;
        }
        let p = task_priority_order(self.priority);
        let q = task_priority_order(other.priority);
        if p != q {
            return p < q;
        }
        if self.updated_at != other.updated_at {
            return other.updated_at.is_before(&self.updated_at);
        }
        if self.created_at != other.created_at {
            return other.created_at.is_before(&self.created_at);
        }
        is_before(self.id.as_str(), other.id.as_str())
    }
}

/// Brings tasks into the order in which they are listed.
pub fn sort_tasks_for_display(tasks: &mut Vec<Task>)
    ensures
        final(tasks)@ == sorted(old(tasks)@),
        forall|i: int, j: int|
            #![trigger final(tasks)@[i], final(tasks)@[j]]
            0 <= i < j < final(tasks)@.len() && final(tasks)@[i].status == final(tasks)@[j].status
                ==> task_priority_order(final(tasks)@[i].priority) <= task_priority_order(
                final(tasks)@[j].priority,
            ),
{
    sort_stably(tasks);
    proof {
        let order = sorting_only_moves(old(tasks)@);
    }
}

/// What the references refer to.
pub open spec fn referred<T>(refs: Seq<&T>) -> Seq<T> {
    refs.map_values(|t: &T| *t)
}

/// Sorted references refer to sorted values.
pub proof fn sorted_references<T: Rule>(s: Seq<&T>, refs: Seq<&T>)
    requires
        is_stable_sort(s, refs),
    ensures
        is_stable_sort(referred(s), referred(refs)),
{
    let order = choose|order: Seq<int>|
        is_stable_order(order, refs) && s == #[trigger] arranged(refs, order);
    let items = referred(refs);
    assert forall|i: int, j: int| 0 <= i < j < order.len() implies comes_earlier(
        items,
        #[trigger] order[i],
        #[trigger] order[j],
    ) by {
        assert(comes_earlier(refs, order[i], order[j]));
        assert(refs[order[i]].goes_before(&refs[order[j]]) == items[order[i]].goes_before(
            &items[order[j]],
        ));
        assert(refs[order[j]].goes_before(&refs[order[i]]) == items[order[j]].goes_before(
            &items[order[i]],
        ));
    }
    assert(is_stable_order(order, items));
    assert(referred(s) =~= arranged(items, order));
}

/// The tasks that the filter lets through, in the order in which they are
/// listed.
pub open spec fn shown_tasks(tasks: Seq<Task>, mode: TaskFilterMode, now: Timestamp) -> Seq<Task> {
    sorted(listed_tasks(tasks, mode, now))
}

/// The tasks that the filter lets through, in the order in which they are
/// listed.
pub fn filter_tasks<'a>(tasks: &'a Vec<Task>, mode: TaskFilterMode, now: Timestamp) -> (r: Vec<
    &'a Task,
>)
    ensures
        referred(r@) == shown_tasks(tasks@, mode, now),
        forall|i: int, j: int|
            #![trigger r@[i], r@[j]]
            0 <= i < j < r@.len() && r@[i].status == r@[j].status ==> task_priority_order(
                r@[i].priority,
            ) <= task_priority_order(r@[j].priority),
{
    let mut out: Vec<&Task> = Vec::new();
    let mut i: usize = 0;
    proof {
        assert(referred(out@) =~= listed_tasks(tasks@.take(0), mode, now));
    }
    while i < tasks.len()
        invariant
            i <= tasks@.len(),
            referred(out@) == listed_tasks(tasks@.take(i as int), mode, now),
        decreases tasks@.len() - i,
    {
        let task = &tasks[i];
        proof {
            assert(tasks@.take(i + 1).drop_last() =~= tasks@.take(i as int));
            assert(referred(out@.push(task)) =~= referred(out@).push(*task));
        }
        if is_listed(task, mode, now) {
            out.push(task);
        }
        i = i + 1;
    }
    let ghost unsorted = out@;
    sort_stably(&mut out);
    proof {
        assert(tasks@.take(tasks@.len() as int) =~= tasks@);
        sorted_references(out@, unsorted);
        stable_sort_is_sorted(referred(out@), referred(unsorted));
        let order = sorting_only_moves(referred(unsorted));
        assert forall|i: int, j: int|
            #![trigger out@[i], out@[j]]
            0 <= i < j < out@.len() && out@[i].status == out@[j].status implies task_priority_order(
            out@[i].priority,
        ) <= task_priority_order(out@[j].priority) by {
            assert(!referred(out@)[j].goes_before(&referred(out@)[i]));
        }
    }
    out
}

/// Counts for the head of the list of tasks.
#[derive(Debug, Clone, Copy, Default)]
pub struct TaskSummary {
    pub total: usize,
    pub pending: usize,
    pub in_progress: usize,
    pub blocked: usize,
    pub completed: usize,
    pub failed: usize,
    pub cancelled: usize,
    pub stale: usize,
    pub diverged: usize,
    pub queued_messages: i128,
    pub urgent_or_high: usize,
}

/// A task whose record has come apart from the state of its assignee.
pub open spec fn diverged(task: Task) -> bool {
    task.stale_info matches Some(info) && info.state_divergence
}

/// A task of high priority.
pub open spec fn is_urgent_or_high(task: Task) -> bool {
    task.priority == Some(TaskPriority::Urgent) || task.priority == Some(TaskPriority::High)
}

/// The messages that wait for the assignee of a task.
pub open spec fn waiting_messages(task: Task) -> int {
    match task.stale_info {
        Some(info) => info.pending_messages as int,
        None => 0,
    }
}

/// One where `b` holds.
pub open spec fn one_if(b: bool) -> int {
    if b { 1 } else { 0 }
}

/// How many tasks have the status.
pub open spec fn with_status(tasks: Seq<Task>, status: TaskStatus) -> int
    decreases tasks.len(),
{
    if tasks.len() == 0 {
        0
    } else {
        with_status(tasks.drop_last(), status) + one_if(tasks.last().status == status)
    }
}

/// How many tasks are without progress.
pub open spec fn stale_count(tasks: Seq<Task>, now: Timestamp) -> int
    decreases tasks.len(),
{
    if tasks.len() == 0 {
        0
    } else {
        stale_count(tasks.drop_last(), now) + one_if(stale(tasks.last(), now))
    }
}

/// How many tasks have come apart from the state of their assignee.
pub open spec fn diverged_count(tasks: Seq<Task>) -> int
    decreases tasks.len(),
{
    if tasks.len() == 0 {
        0
    } else {
        diverged_count(tasks.drop_last()) + one_if(diverged(tasks.last()))
    }
}

/// How many tasks are of high priority.
pub open spec fn urgent_or_high_count(tasks: Seq<Task>) -> int
    decreases tasks.len(),
{
    if tasks.len() == 0 {
        0
    } else {
        urgent_or_high_count(tasks.drop_last()) + one_if(is_urgent_or_high(tasks.last()))
    }
}

/// The messages that wait for the assignees of all tasks.
pub open spec fn queued_messages(tasks: Seq<Task>) -> int
    decreases tasks.len(),
{
    if tasks.len() == 0 {
        0
    } else {
        queued_messages(tasks.drop_last()) + waiting_messages(tasks.last())
    }
}

/// `s` counts `tasks`.
pub open spec fn summarizes(s: TaskSummary, tasks: Seq<Task>, now: Timestamp) -> bool {
    &&& s.pending == with_status(tasks, TaskStatus::Pending)
    &&& s.in_progress == with_status(tasks, TaskStatus::InProgress)
    &&& s.blocked == with_status(tasks, TaskStatus::Blocked)
    &&& s.completed == with_status(tasks, TaskStatus::Completed)
    &&& s.failed == with_status(tasks, TaskStatus::Failed)
    &&& s.cancelled == with_status(tasks, TaskStatus::Cancelled)
    &&& s.stale == stale_count(tasks, now)
    &&& s.diverged == diverged_count(tasks)
    &&& s.queued_messages == queued_messages(tasks)
    &&& s.urgent_or_high == urgent_or_high_count(tasks)
}

/// Every task is counted under exactly one status.
pub proof fn statuses_add_up(tasks: Seq<Task>)
    ensures
        with_status(tasks, TaskStatus::Pending) + with_status(tasks, TaskStatus::InProgress)
            + with_status(tasks, TaskStatus::Blocked) + with_status(tasks, TaskStatus::Completed)
            + with_status(tasks, TaskStatus::Failed) + with_status(tasks, TaskStatus::Cancelled)
            == tasks.len(),
    decreases tasks.len(),
{
    if tasks.len() > 0 {
        statuses_add_up(tasks.drop_last());
    }
}

/// Counts tasks.
pub fn summarize_tasks(tasks: &Vec<Task>, now: Timestamp) -> (s: TaskSummary)
    ensures
        s.total == tasks@.len(),
        summarizes(s, tasks@, now),
{
    let n = tasks.len();
    let mut s = TaskSummary {
        total: n,
        pending: 0,
        in_progress: 0,
        blocked: 0,
        completed: 0,
        failed: 0,
        cancelled: 0,
        stale: 0,
        diverged: 0,
        queued_messages: 0,
        urgent_or_high: 0,
    };
    let mut i: usize = 0;
    while i < n
        invariant
            i <= n == tasks@.len(),
            s.total == n,
            summarizes(s, tasks@.take(i as int), now),
            s.pending <= i,
            s.in_progress <= i,
            s.blocked <= i,
            s.completed <= i,
            s.failed <= i,
            s.cancelled <= i,
            s.stale <= i,
            s.diverged <= i,
            s.urgent_or_high <= i,
            -0x8000_0000_0000_0000 * i <= s.queued_messages <= 0x8000_0000_0000_0000 * i,
        decreases n - i,
    {
        let task = &tasks[i];
        proof {
            assert(tasks@.take(i + 1).drop_last() =~= tasks@.take(i as int));
        }
        match task.status {
            TaskStatus::Pending => s.pending = s.pending + 1,
            TaskStatus::InProgress => s.in_progress = s.in_progress + 1,
            TaskStatus::Blocked => s.blocked = s.blocked + 1,
            TaskStatus::Completed => s.completed = s.completed + 1,
            TaskStatus::Failed => s.failed = s.failed + 1,
            TaskStatus::Cancelled => s.cancelled = s.cancelled + 1,
        }
        match task.priority {
            Some(TaskPriority::Urgent) => s.urgent_or_high = s.urgent_or_high + 1,
            Some(TaskPriority::High) => s.urgent_or_high = s.urgent_or_high + 1,
            _ => {},
        }
        if task_is_stale(task, now) {
            s.stale = s.stale + 1;
        }
        if let Some(info) = &task.stale_info {
            s.queued_messages = s.queued_messages + info.pending_messages as i128;
            if info.state_divergence {
                s.diverged = s.diverged + 1;
            }
        }
        i = i + 1;
    }
    proof {
        assert(tasks@.take(n as int) =~= tasks@);
    }
    s
}

/// The counts as `name=count` pairs; the last two only where they are not zero.
pub open spec fn summary_text(s: TaskSummary) -> Seq<char> {
    let all = "total="@ + decimal(s.total as nat) + "  pending="@ + decimal(s.pending as nat)
        + "  in_progress="@ + decimal(s.in_progress as nat) + "  blocked="@ + decimal(
        s.blocked as nat,
    ) + "  stale="@ + decimal(s.stale as nat) + "  diverged="@ + decimal(s.diverged as nat)
        + "  queued_msgs="@ + number(s.queued_messages as int);
    let with_cancelled = if s.cancelled > 0 {
        all + "  cancelled="@ + decimal(s.cancelled as nat)
    } else {
        all
    };
    if s.urgent_or_high > 0 {
        with_cancelled + "  high_pri="@ + decimal(s.urgent_or_high as nat)
    } else {
        with_cancelled
    }
}

/// The counts as one line of text.
pub fn format_task_summary(s: &TaskSummary) -> (r: String)
    ensures
        r@ == summary_text(*s),
{
    let mut out = "total=".to_owned().concat(count_of(s.total).as_str()).concat("  pending=").concat(
        count_of(s.pending).as_str(),
    ).concat("  in_progress=").concat(count_of(s.in_progress).as_str()).concat(
        "  blocked=",
    ).concat(count_of(s.blocked).as_str()).concat("  stale=").concat(
        count_of(s.stale).as_str(),
    ).concat("  diverged=").concat(count_of(s.diverged).as_str()).concat(
        "  queued_msgs=",
    ).concat(number_of(s.queued_messages).as_str());
    if s.cancelled > 0 {
        out.append("  cancelled=");
        out.append(count_of(s.cancelled).as_str());
    }
    if s.urgent_or_high > 0 {
        out.append("  high_pri=");
        out.append(count_of(s.urgent_or_high).as_str());
    }
    out
}

/// The name of a status.
#[verifier::allow_in_spec]
pub fn task_status_str(status: TaskStatus) -> &'static str
    returns
        (match status {
            TaskStatus::Pending => "pending",
            TaskStatus::InProgress => "in_progress",
            TaskStatus::Blocked => "blocked",
            TaskStatus::Completed => "completed",
            TaskStatus::Failed => "failed",
            TaskStatus::Cancelled => "cancelled",
        }),
{
    match status {
        TaskStatus::Pending => "pending",
        TaskStatus::InProgress => "in_progress",
        TaskStatus::Blocked => "blocked",
        TaskStatus::Completed => "completed",
        TaskStatus::Failed => "failed",
        TaskStatus::Cancelled => "cancelled",
    }
}

/// The status of a task, marked where an open task is without progress.
pub open spec fn status_label(task: Task, now: Timestamp) -> Seq<char> {
    if stale(task, now) && is_open(task.status) {
        task_status_str(task.status)@ + " stale"@
    } else {
        task_status_str(task.status)@
    }
}

/// The status of a task in words.
pub fn task_status_label(task: &Task, now: Timestamp) -> (r: String)
    ensures
        r@ == status_label(*task, now),
{
    let base = task_status_str(task.status);
    let open = task.status != TaskStatus::Completed && task.status != TaskStatus::Failed
        && task.status != TaskStatus::Cancelled;
    if task_is_stale(task, now) && open {
        base.to_owned().concat(" stale")
    } else {
        base.to_owned()
    }
}

/// The name of a priority.
#[verifier::allow_in_spec]
pub fn task_priority_label(priority: Option<TaskPriority>) -> &'static str
    returns
        (match priority {
            Some(TaskPriority::Urgent) => "urgent",
            Some(TaskPriority::High) => "high",
            Some(TaskPriority::Low) => "low",
            Some(TaskPriority::Normal) => "normal",
            None => "normal",
        }),
{
    match priority {
        Some(TaskPriority::Urgent) => "urgent",
        Some(TaskPriority::High) => "high",
        Some(TaskPriority::Low) => "low",
        Some(TaskPriority::Normal) => "normal",
        None => "normal",
    }
}

/// At most the first eight characters of an identifier.
pub open spec fn short_id(id: Seq<char>) -> Seq<char> {
    if id.len() > 8 {
        id.take(8)
    } else {
        id
    }
}

/// The short form of a task's identifier.
pub fn short_task_id(id: &str) -> (r: String)
    ensures
        r@ == short_id(id@),
{
    let v = chars_of(id);
    if v.len() > 8 {
        string_of(&v, 0, 8)
    } else {
        id.to_owned()
    }
}

/// A stretch of time in its largest full unit.
pub open spec fn age_text(secs: int) -> Seq<char> {
    if secs < 60 {
        decimal(secs as nat) + "s"@
    } else if secs < 3600 {
        decimal((secs / 60) as nat) + "m"@
    } else if secs < 86400 {
        decimal((secs / 3600) as nat) + "h"@
    } else {
        decimal((secs / 86400) as nat) + "d"@
    }
}

/// The larger of two numbers.
pub open spec fn larger(a: int, b: int) -> int {
    if a > b { a } else { b }
}

/// How long ago a task was changed; a change in the future counts as now.
pub fn format_task_age(task: &Task, now: Timestamp) -> (r: String)
    ensures
        r@ == age_text(larger(now.seconds_from(task.updated_at), 0)),
{
    let d = now.seconds_since(&task.updated_at);
    let secs: u64 = if d > 0 {
        d as u64
    } else {
        0
    };
    if secs < 60 {
        number_of(secs as i128).concat("s")
    } else if secs < 3600 {
        number_of((secs / 60) as i128).concat("m")
    } else if secs < 86400 {
        number_of((secs / 3600) as i128).concat("h")
    } else {
        number_of((secs / 86400) as i128).concat("d")
    }
}

/// What an entry of a task's timeline is about.
#[derive(Debug, Clone, Copy, PartialEq, Eq, Structural)]
pub enum TaskActivityKind {
    Lifecycle,
    Log,
    Message,
}

impl TaskActivityKind {
    /// The name of the kind.
    #[verifier::allow_in_spec]
    pub fn label(self) -> &'static str
        returns
            (match self {
                TaskActivityKind::Lifecycle => "lifecycle",
                TaskActivityKind::Log => "log",
                TaskActivityKind::Message => "message",
            }),
    {
        match self {
            TaskActivityKind::Lifecycle => "lifecycle",
            TaskActivityKind::Log => "log",
            TaskActivityKind::Message => "message",
        }
    }

    /// The place of the kind among entries of the same time.
    #[verifier::allow_in_spec]
    pub fn rank(self) -> u8
        returns
            (match self {
                TaskActivityKind::Lifecycle => 0u8,
                TaskActivityKind::Log => 1u8,
                TaskActivityKind::Message => 2u8,
            }),
    {
        match self {
            TaskActivityKind::Lifecycle => 0,
            TaskActivityKind::Log => 1,
            TaskActivityKind::Message => 2,
        }
    }
}

/// One entry of a task's timeline.
#[derive(Debug, Clone)]
pub struct TaskActivityEntry {
    pub timestamp: Timestamp,
    pub kind: TaskActivityKind,
    pub actor: String,
    pub summary: String,
}

/// What an entry says.
pub struct Activity {
    pub timestamp: Timestamp,
    pub kind: TaskActivityKind,
    pub actor: Seq<char>,
    pub summary: Seq<char>,
}

impl View for TaskActivityEntry {
    type V = Activity;

    open spec fn view(&self) -> Activity {
        Activity {
            timestamp: self.timestamp,
            kind: self.kind,
            actor: self.actor@,
            summary: self.summary@,
        }
    }
}

/// What entries say.
pub open spec fn activities(entries: Seq<TaskActivityEntry>) -> Seq<Activity> {
    entries.map_values(|e: TaskActivityEntry| e@)
}

/// Entries go by time, and by kind within the same time.
impl Rule for Activity {
    open spec fn goes_before(&self, other: &Self) -> bool {
        self.timestamp.earlier(other.timestamp) || (self.timestamp == other.timestamp
            && self.kind.rank() < other.kind.rank())
    }

    proof fn rule_is_strict_weak_order() {
        Timestamp::earlier_is_an_order();
        assert forall|a: Self, b: Self, c: Self|
            #![trigger a.goes_before(&c), a.goes_before(&b)]
            a.goes_before(&c) implies a.goes_before(&b) || b.goes_before(&c) by {
            assert(a.timestamp.earlier(b.timestamp) || b.timestamp.earlier(a.timestamp)
                || a.timestamp == b.timestamp);
            assert(c.timestamp.earlier(b.timestamp) || b.timestamp.earlier(c.timestamp)
                || c.timestamp == b.timestamp);
        }
    }
}

impl Rule for TaskActivityEntry {
    open spec fn goes_before(&self, other: &Self) -> bool {
        self@.goes_before(&other@)
    }

    proof fn rule_is_strict_weak_order() {
        Activity::rule_is_strict_weak_order();
        assert forall|a: Self, b: Self, c: Self|
            #![trigger a.goes_before(&c), a.goes_before(&b)]
            a.goes_before(&c) implies a.goes_before(&b) || b.goes_before(&c) by {
            assert(a@.goes_before(&c@));
            assert(a@.goes_before(&b@) || b@.goes_before(&c@));
        }
    }
}

impl Ranked for TaskActivityEntry {
    fn is_ahead_of(&self, other: &Self) -> bool {
        self.timestamp.is_before(&other.timestamp) || (self.timestamp == other.timestamp
            && self.kind.rank() < other.kind.rank())
    }
}

/// Sorted entries say what sorted activities say.
proof fn sorted_activities(s: Seq<TaskActivityEntry>, entries: Seq<TaskActivityEntry>)
    requires
        is_stable_sort(s, entries),
    ensures
        is_stable_sort(activities(s), activities(entries)),
{
    let order = choose|order: Seq<int>|
        is_stable_order(order, entries) && s == #[trigger] arranged(entries, order);
    let items = activities(entries);
    assert forall|i: int, j: int| 0 <= i < j < order.len() implies comes_earlier(
        items,
        #[trigger] order[i],
        #[trigger] order[j],
    ) by {
        assert(comes_earlier(entries, order[i], order[j]));
    }
    assert(is_stable_order(order, items));
    assert(activities(s) =~= arranged(items, order));
}

/// A message that has to do with a task: it names the task, or it comes from or
/// goes to the assignee or the creator of the task.
pub open spec fn is_related(task: Task, entry: HistoryEntry) -> bool {
    ||| entry.task_id@ == task.id@
    ||| contains(entry.content@, task.id@)
    ||| entry.from@ == task.assignee@
    ||| entry.to@ == task.assignee@
    ||| entry.from@ == task.created_by@
    ||| entry.to@ == task.created_by@
}

/// The messages that have to do with a task.
pub open spec fn related_messages(task: Task, history: Seq<HistoryEntry>) -> Seq<HistoryEntry>
    decreases history.len(),
{
    if history.len() == 0 {
        Seq::empty()
    } else {
        let front = related_messages(task, history.drop_last());
        if is_related(task, history.last()) {
            front.push(history.last())
        } else {
            front
        }
    }
}

/// The messages that have to do with a task.
pub fn related_task_messages<'a>(task: &Task, history: &'a Vec<HistoryEntry>) -> (r: Vec<
    &'a HistoryEntry,
>)
    ensures
        referred(r@) == related_messages(*task, history@),
{
    let mut out: Vec<&HistoryEntry> = Vec::new();
    let mut i: usize = 0;
    proof {
        assert(referred(out@) =~= related_messages(*task, history@.take(0)));
    }
    while i < history.len()
        invariant
            i <= history@.len(),
            referred(out@) == related_messages(*task, history@.take(i as int)),
        decreases history@.len() - i,
    {
        let entry = &history[i];
        proof {
            assert(history@.take(i + 1).drop_last() =~= history@.take(i as int));
            assert(referred(out@.push(entry)) =~= referred(out@).push(*entry));
        }
        if entry.task_id == task.id || has(entry.content.as_str(), task.id.as_str()) || entry.from
            == task.assignee || entry.to == task.assignee || entry.from == task.created_by
            || entry.to == task.created_by {
            out.push(entry);
        }
        i = i + 1;
    }
    proof {
        assert(history@.take(history@.len() as int) =~= history@);
    }
    out
}

/// That a task was created.
pub open spec fn creation(task: Task) -> Activity {
    Activity {
        timestamp: task.created_at,
        kind: TaskActivityKind::Lifecycle,
        actor: task.created_by@,
        summary: "created task for "@ + task.assignee@,
    }
}

/// What the status of a task says of its last change; an end only counts with a
/// result.
pub open spec fn status_words(task: Task) -> Option<Seq<char>> {
    match task.status {
        TaskStatus::Completed => if task.result@.len() > 0 { Some("completed task"@) } else { None },
        TaskStatus::Failed => if task.result@.len() > 0 { Some("failed task"@) } else { None },
        TaskStatus::Cancelled => if task.result@.len() > 0 { Some("cancelled task"@) } else { None },
        TaskStatus::InProgress => Some("task in progress"@),
        TaskStatus::Pending => None,
        TaskStatus::Blocked => None,
    }
}

/// The last change of a task as its status tells it.
pub open spec fn status_activity(task: Task) -> Seq<Activity> {
    match status_words(task) {
        Some(summary) => Seq::empty().push(
            Activity {
                timestamp: task.updated_at,
                kind: TaskActivityKind::Lifecycle,
                actor: task.assignee@,
                summary,
            },
        ),
        None => Seq::empty(),
    }
}

/// That a task was removed, by its creator where nobody else is named.
pub open spec fn removal(task: Task) -> Seq<Activity> {
    match task.removed_at {
        Some(timestamp) => Seq::empty().push(
            Activity {
                timestamp,
                kind: TaskActivityKind::Lifecycle,
                actor: if task.removed_by@.len() == 0 { task.created_by@ } else { task.removed_by@ },
                summary: "removed task"@,
            },
        ),
        None => Seq::empty(),
    }
}

/// A line of the log.
pub open spec fn log_activity(log: TaskLog) -> Activity {
    Activity {
        timestamp: log.timestamp,
        kind: TaskActivityKind::Log,
        actor: log.workspace@,
        summary: log.message@,
    }
}

/// A message, on one line and with the short form of the task's identifier.
pub open spec fn message_activity(task: Task, entry: HistoryEntry) -> Activity {
    Activity {
        timestamp: entry.timestamp,
        kind: TaskActivityKind::Message,
        actor: entry.from@ + "->"@ + entry.to@,
        summary: replace_all(
            replace(entry.content@, |c: char| c == '\n', ' '),
            task.id@,
            short_id(task.id@),
        ),
    }
}

/// Everything that happened to a task: its creation, what its status says, its
/// removal, its log and the messages that have to do with it.
pub open spec fn task_activity(task: Task, history: Seq<HistoryEntry>) -> Seq<Activity> {
    Seq::empty().push(creation(task)) + status_activity(task) + removal(task)
        + task.logs@.map_values(|l: TaskLog| log_activity(l)) + related_messages(
        task,
        history,
    ).map_values(|e: HistoryEntry| message_activity(task, e))
}

/// The last `limit` items, or all of them where `limit` is zero.
pub open spec fn last_items<T>(s: Seq<T>, limit: int) -> Seq<T> {
    if limit > 0 && s.len() > limit {
        s.skip(s.len() - limit)
    } else {
        s
    }
}

/// The end of what happened to a task, in order of time.
pub open spec fn timeline(task: Task, history: Seq<HistoryEntry>, limit: int) -> Seq<Activity> {
    last_items(sorted(task_activity(task, history)), limit)
}

/// Adds an entry, and tells what the entries say afterwards.
fn add_entry(
    entries: &mut Vec<TaskActivityEntry>,
    timestamp: Timestamp,
    kind: TaskActivityKind,
    actor: String,
    summary: String,
)
    ensures
        activities(final(entries)@) == activities(old(entries)@).push(
            Activity { timestamp, kind, actor: actor@, summary: summary@ },
        ),
{
    let ghost pre = entries@;
    let entry = TaskActivityEntry { timestamp, kind, actor, summary };
    entries.push(entry);
    proof {
        assert(activities(entries@) =~= activities(pre).push(entry@));
    }
}

/// The timeline of a task; with a `limit` other than zero the oldest entries go
/// until `limit` are left.
pub fn build_task_activity(task: &Task, history: &Vec<HistoryEntry>, limit: usize) -> (r: Vec<
    TaskActivityEntry,
>)
    ensures
        activities(r@) == timeline(*task, history@, limit as int),
{
    let mut entries: Vec<TaskActivityEntry> = Vec::new();
    proof {
        assert(activities(entries@) =~= Seq::empty());
    }
    add_entry(
        &mut entries,
        task.created_at,
        TaskActivityKind::Lifecycle,
        task.created_by.clone(),
        "created task for ".to_owned().concat(task.assignee.as_str()),
    );
    let words: Option<&'static str> = match task.status {
        TaskStatus::Completed => if !task.result.as_str().is_empty() {
            Some("completed task")
        } else {
            None
        },
        TaskStatus::Failed => if !task.result.as_str().is_empty() {
            Some("failed task")
        } else {
            None
        },
        TaskStatus::Cancelled => if !task.result.as_str().is_empty() {
            Some("cancelled task")
        } else {
            None
        },
        TaskStatus::InProgress => Some("task in progress"),
        TaskStatus::Pending => None,
        TaskStatus::Blocked => None,
    };
    if let Some(summary) = words {
        add_entry(
            &mut entries,
            task.updated_at,
            TaskActivityKind::Lifecycle,
            task.assignee.clone(),
            summary.to_owned(),
        );
    }
    let ghost first = Seq::empty().push(creation(*task)) + status_activity(*task);
    proof {
        assert(activities(entries@) =~= first);
    }
    if let Some(timestamp) = task.removed_at {
        let actor = if task.removed_by.as_str().is_empty() {
            task.created_by.clone()
        } else {
            task.removed_by.clone()
        };
        add_entry(
            &mut entries,
            timestamp,
            TaskActivityKind::Lifecycle,
            actor,
            "removed task".to_owned(),
        );
    }
    let ghost second = first + removal(*task);
    let ghost logged = |l: TaskLog| log_activity(l);
    proof {
        assert(activities(entries@) =~= second);
        assert(second + task.logs@.take(0).map_values(logged) =~= second);
    }
    let mut i: usize = 0;
    while i < task.logs.len()
        invariant
            i <= task.logs@.len(),
            logged == (|l: TaskLog| log_activity(l)),
            activities(entries@) == second + task.logs@.take(i as int).map_values(logged),
        decreases task.logs@.len() - i,
    {
        let log = &task.logs[i];
        proof {
            assert(second + task.logs@.take(i + 1).map_values(logged) =~= (second
                + task.logs@.take(i as int).map_values(logged)).push(log_activity(*log)));
        }
        add_entry(
            &mut entries,
            log.timestamp,
            TaskActivityKind::Log,
            log.workspace.clone(),
            log.message.clone(),
        );
        i = i + 1;
    }
    let ghost third = second + task.logs@.map_values(logged);
    let messages = related_task_messages(task, history);
    let ghost told = |e: HistoryEntry| message_activity(*task, e);
    proof {
        assert(task.logs@.take(task.logs@.len() as int) =~= task.logs@);
        assert(third + referred(messages@).take(0).map_values(told) =~= third);
    }
    let mut j: usize = 0;
    while j < messages.len()
        invariant
            j <= messages@.len(),
            told == (|e: HistoryEntry| message_activity(*task, e)),
            activities(entries@) == third + referred(messages@).take(j as int).map_values(told),
        decreases messages@.len() - j,
    {
        let entry = messages[j];
        let line = replace_char(entry.content.as_str(), '\n', ' ');
        let summary = replace_text(
            line.as_str(),
            task.id.as_str(),
            short_task_id(task.id.as_str()).as_str(),
        );
        proof {
            assert(third + referred(messages@).take(j + 1).map_values(told) =~= (third
                + referred(messages@).take(j as int).map_values(told)).push(
                message_activity(*task, *entry),
            ));
        }
        add_entry(
            &mut entries,
            entry.timestamp,
            TaskActivityKind::Message,
            entry.from.clone().concat("->").concat(entry.to.as_str()),
            summary,
        );
        j = j + 1;
    }
    proof {
        assert(referred(messages@).take(messages@.len() as int) =~= referred(messages@));
        assert(activities(entries@) == task_activity(*task, history@));
    }
    let ghost unsorted = entries@;
    sort_stably(&mut entries);
    let ghost all = activities(entries@);
    proof {
        sorted_activities(entries@, unsorted);
        stable_sort_is_sorted(all, activities(unsorted));
    }
    if limit > 0 && entries.len() > limit {
        let tail = entries.split_off(entries.len() - limit);
        proof {
            assert(activities(tail@) =~= last_items(all, limit as int));
        }
        tail
    } else {
        entries
    }
}

/// At most `limit` characters of `s`; an ellipsis stands for what was cut off.
pub open spec fn clipped(s: Seq<char>, limit: int) -> Seq<char> {
    if limit <= 0 {
        Seq::empty()
    } else if s.len() <= limit {
        s
    } else {
        s.take(limit - 1).push('…')
    }
}

/// Cuts a text to `limit` characters.
pub fn truncate(s: &str, limit: usize) -> (r: String)
    ensures
        r@ == clipped(s@, limit as int),
{
    if limit == 0 {
        return String::new();
    }
    let v = chars_of(s);
    if v.len() <= limit {
        return s.to_owned();
    }
    let mut out = string_of(&v, 0, limit - 1);
    out.push('…');
    out
}

/// A cut text keeps to its limit, keeps the start of the text, and shows where
/// it was cut.
pub proof fn clipped_text(s: Seq<char>, limit: int)
    requires
        limit >= 0,
    ensures
        clipped(s, limit).len() <= limit,
        s.len() <= limit ==> clipped(s, limit) == s,
        0 < limit < s.len() ==> clipped(s, limit).last() == '…' && clipped(s, limit).drop_last()
            == s.take(limit - 1),
{
    if 0 < limit < s.len() {
        assert(clipped(s, limit).drop_last() =~= s.take(limit - 1));
    }
}

} // verus!
