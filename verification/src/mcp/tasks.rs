//! The tools that deal with tasks.

use vstd::prelude::*;

use crate::mcp::errors::{about, invalid, or_empty, quoted, text_or_empty, Refusal, ToolError};
use crate::mcp::requests::{
    ControlTaskRequest, CreateTaskRequest, InterveneTaskRequest, ListTasksRequest,
    ListWorkspaceTasksRequest, ReportTaskBlockedRequest, ReportTaskCompletionRequest,
    ReportTaskFailedRequest, ReportTaskProgressRequest, StartTaskRequest, TaskIdRequest,
    UpdateTaskRequest,
};
use crate::mcp::server::Server;
use crate::proto::payloads::{
    CancelTaskPayload, CreateTaskPayload, GetTaskPayload, InterveneTaskPayload, ListTasksPayload,
    RemoveTaskPayload, SendMessagePayload, StartTaskPayload, UpdateTaskPayload,
};
use crate::proto::types::{Task, TaskStatus};
use crate::text::{is_one_of, join, join_all, same, texts, trim, trimmed};

verus! {

broadcast use vstd::string::group_string_axioms;

/// A text without white space around it, if there is one.
pub open spec fn trim_of(text: Option<&str>) -> Option<Seq<char>> {
    match text {
        Some(t) => Some(trim(t@)),
        None => None,
    }
}

/// What is wrong with the options of a task, if anything is; the first that is
/// found counts.
pub open spec fn option_problem(
    start_mode: Option<Seq<char>>,
    workflow_mode: Option<Seq<char>>,
    priority: Option<Seq<char>>,
    stale_after_seconds: Option<i64>,
) -> Option<Seq<char>> {
    if stale_after_seconds matches Some(s) && s < 0 {
        Some("stale_after_seconds must be >= 0"@)
    } else if start_mode matches Some(v) && !(v.len() == 0 || v == "default"@ || v == "fresh"@) {
        Some(
            "invalid start_mode "@ + quoted(start_mode->0) + " (must be default or fresh)"@,
        )
    } else if workflow_mode matches Some(v) && !(v.len() == 0 || v == "parallel"@ || v
        == "serial"@) {
        Some(
            "invalid workflow_mode "@ + quoted(workflow_mode->0) + " (must be parallel or serial)"@,
        )
    } else if priority matches Some(v) && !(v.len() == 0 || v == "low"@ || v == "normal"@ || v
        == "high"@ || v == "urgent"@) {
        Some(
            "invalid priority "@ + quoted(priority->0)
                + " (must be low, normal, high, or urgent)"@,
        )
    } else {
        None
    }
}

/// What is wrong with the options of a task.
pub fn validate_lifecycle_options(
    start_mode: Option<&str>,
    workflow_mode: Option<&str>,
    priority: Option<&str>,
    stale_after_seconds: Option<i64>,
) -> (r: Result<(), ToolError>)
    ensures
        match option_problem(
            trim_of(start_mode),
            trim_of(workflow_mode),
            trim_of(priority),
            stale_after_seconds,
        ) {
            Some(problem) => r matches Err(e) && e@ == invalid(problem),
            None => r is Ok,
        },
{
    if let Some(s) = stale_after_seconds {
        if s < 0 {
            return Err(ToolError::invalid_params_str("stale_after_seconds must be >= 0"));
        }
    }
    if let Some(raw) = start_mode {
        let text = trimmed(raw);
        let v = text.as_str();
        if !(v.is_empty() || same(v, "default") || same(v, "fresh")) {
            return Err(
                ToolError::invalid_params(
                    about("invalid start_mode ", v, " (must be default or fresh)"),
                ),
            );
        }
    }
    if let Some(raw) = workflow_mode {
        let text = trimmed(raw);
        let v = text.as_str();
        if !(v.is_empty() || same(v, "parallel") || same(v, "serial")) {
            return Err(
                ToolError::invalid_params(
                    about("invalid workflow_mode ", v, " (must be parallel or serial)"),
                ),
            );
        }
    }
    if let Some(raw) = priority {
        let text = trimmed(raw);
        let v = text.as_str();
        if !(v.is_empty() || same(v, "low") || same(v, "normal") || same(v, "high") || same(
            v,
            "urgent",
        )) {
            return Err(
                ToolError::invalid_params(
                    about("invalid priority ", v, " (must be low, normal, high, or urgent)"),
                ),
            );
        }
    }
    Ok(())
}

fn as_opt_str(s: &Option<String>) -> (r: Option<&str>)
    ensures
        match r {
            Some(t) => *s matches Some(u) && t@ == u@,
            None => *s is None,
        },
{
    match s {
        Some(t) => Some(t.as_str()),
        None => None,
    }
}

/// A text without white space around it, if there is one.
pub open spec fn trim_in(text: Option<String>) -> Option<Seq<char>> {
    match text {
        Some(t) => Some(trim(t@)),
        None => None,
    }
}

/// A number, or zero where there is none.
pub open spec fn or_zero(n: Option<i64>) -> i64 {
    match n {
        Some(v) => v,
        None => 0,
    }
}

fn number_or_zero(n: Option<i64>) -> (r: i64)
    ensures
        r == or_zero(n),
{
    match n {
        Some(v) => v,
        None => 0,
    }
}

/// A status that a worker may set.
pub open spec fn update_status(raw: Seq<char>) -> Option<TaskStatus> {
    if raw == "pending"@ {
        Some(TaskStatus::Pending)
    } else if raw == "in_progress"@ {
        Some(TaskStatus::InProgress)
    } else if raw == "completed"@ {
        Some(TaskStatus::Completed)
    } else if raw == "failed"@ {
        Some(TaskStatus::Failed)
    } else {
        None
    }
}

/// A status that a worker may set.
pub fn parse_update_status(raw: &str) -> (r: Result<TaskStatus, String>)
    ensures
        match update_status(raw@) {
            Some(status) => r == Ok::<TaskStatus, String>(status),
            None => r matches Err(e) && e@ == "invalid status "@ + quoted(raw@)
                + " (must be pending, in_progress, completed, or failed)"@,
        },
        r matches Ok(status) ==> status_rename(status)@ == raw@,
{
    if same(raw, "pending") {
        Ok(TaskStatus::Pending)
    } else if same(raw, "in_progress") {
        Ok(TaskStatus::InProgress)
    } else if same(raw, "completed") {
        Ok(TaskStatus::Completed)
    } else if same(raw, "failed") {
        Ok(TaskStatus::Failed)
    } else {
        Err(
            about(
                "invalid status ",
                raw,
                " (must be pending, in_progress, completed, or failed)",
            ),
        )
    }
}

/// A status that tasks can be listed by.
pub open spec fn list_status(raw: Seq<char>) -> Option<TaskStatus> {
    if raw == "cancelled"@ {
        Some(TaskStatus::Cancelled)
    } else {
        update_status(raw)
    }
}

/// The status that tasks are listed by: none where none is given.
pub open spec fn status_filter(raw: Option<Seq<char>>) -> Result<Option<TaskStatus>, Seq<char>> {
    match raw {
        None => Ok(None),
        Some(v) => if v.len() == 0 {
            Ok(None)
        } else {
            match list_status(v) {
                Some(status) => Ok(Some(status)),
                None => Err("invalid status filter "@ + quoted(v)),
            }
        },
    }
}

/// A filter, or what is wrong with it.
pub open spec fn filter_view(r: Result<Option<TaskStatus>, String>) -> Result<
    Option<TaskStatus>,
    Seq<char>,
> {
    match r {
        Ok(s) => Ok(s),
        Err(e) => Err(e@),
    }
}

/// The status that tasks are listed by.
pub fn parse_list_status(raw: Option<&str>) -> (r: Result<Option<TaskStatus>, String>)
    ensures
        filter_view(r) == status_filter(trim_of(raw)),
        r matches Ok(Some(status)) ==> raw is Some && status_rename(status)@ == trim(raw->0@),
{
    match raw {
        None => Ok(None),
        Some(given) => {
            let text = trimmed(given);
            let v = text.as_str();
            if v.is_empty() {
                Ok(None)
            } else if same(v, "cancelled") {
                Ok(Some(TaskStatus::Cancelled))
            } else if same(v, "pending") {
                Ok(Some(TaskStatus::Pending))
            } else if same(v, "in_progress") {
                Ok(Some(TaskStatus::InProgress))
            } else if same(v, "completed") {
                Ok(Some(TaskStatus::Completed))
            } else if same(v, "failed") {
                Ok(Some(TaskStatus::Failed))
            } else {
                proof {
                    reveal_strlit("");
                }
                let e = about("invalid status filter ", v, "");
                proof {
                    assert(e@ =~= "invalid status filter "@ + quoted(v@));
                }
                Err(e)
            }
        },
    }
}

/// The name of a status.
#[verifier::allow_in_spec]
pub fn status_rename(status: TaskStatus) -> &'static str
    returns
        (match status {
            TaskStatus::Pending => "pending",
            TaskStatus::InProgress => "in_progress",
            TaskStatus::Blocked => "blocked",
            TaskStatus::Completed => "completed",
            TaskStatus::Failed => "failed",
            TaskStatus::Cancelled => "cancelled",
        }),
{
    match status {
        TaskStatus::Pending => "pending",
        TaskStatus::InProgress => "in_progress",
        TaskStatus::Blocked => "blocked",
        TaskStatus::Completed => "completed",
        TaskStatus::Failed => "failed",
        TaskStatus::Cancelled => "cancelled",
    }
}

/// Which tasks of a workspace are listed.
#[derive(Debug, Clone, Copy, PartialEq, Eq, Structural)]
pub enum WorkspaceView {
    Assigned,
    Created,
    Both,
}

impl WorkspaceView {
    /// The name of the view.
    #[verifier::allow_in_spec]
    pub fn as_str(self) -> &'static str
        returns
            (match self {
                WorkspaceView::Assigned => "assigned",
                WorkspaceView::Created => "created",
                WorkspaceView::Both => "both",
            }),
    {
        match self {
            WorkspaceView::Assigned => "assigned",
            WorkspaceView::Created => "created",
            WorkspaceView::Both => "both",
        }
    }
}

/// Which tasks of a workspace are listed: both where nothing is said.
pub open spec fn view_wanted(raw: Option<Seq<char>>) -> Result<WorkspaceView, Seq<char>> {
    match raw {
        None => Ok(WorkspaceView::Both),
        Some(v) => if v.len() == 0 || v == "both"@ {
            Ok(WorkspaceView::Both)
        } else if v == "assigned"@ {
            Ok(WorkspaceView::Assigned)
        } else if v == "created"@ {
            Ok(WorkspaceView::Created)
        } else {
            Err("invalid view "@ + quoted(v) + " (must be assigned, created, or both)"@)
        },
    }
}

/// A view, or what is wrong with it.
pub open spec fn view_view(r: Result<WorkspaceView, String>) -> Result<WorkspaceView, Seq<char>> {
    match r {
        Ok(v) => Ok(v),
        Err(e) => Err(e@),
    }
}

/// Which tasks of a workspace are listed.
pub fn parse_workspace_view(raw: Option<&str>) -> (r: Result<WorkspaceView, String>)
    ensures
        view_view(r) == view_wanted(trim_of(raw)),
{
    match raw {
        None => Ok(WorkspaceView::Both),
        Some(given) => {
            let text = trimmed(given);
            let v = text.as_str();
            if v.is_empty() || same(v, "both") {
                Ok(WorkspaceView::Both)
            } else if same(v, "assigned") {
                Ok(WorkspaceView::Assigned)
            } else if same(v, "created") {
                Ok(WorkspaceView::Created)
            } else {
                Err(about("invalid view ", v, " (must be assigned, created, or both)"))
            }
        },
    }
}

/// A text that says something, if there is one.
pub open spec fn said(text: Option<String>) -> Option<Seq<char>> {
    match text {
        Some(t) => if t@.len() > 0 {
            Some(t@)
        } else {
            None
        },
        None => None,
    }
}

/// The text of an optional string.
pub open spec fn opt(s: Option<String>) -> Option<Seq<char>> {
    match s {
        Some(t) => Some(t@),
        None => None,
    }
}

fn if_said(text: Option<String>) -> (r: Option<String>)
    ensures
        opt(r) == said(text),
{
    match text {
        Some(t) => if t.as_str().is_empty() {
            None
        } else {
            Some(t)
        },
        None => None,
    }
}

/// What the daemon is told of a task.
pub struct TaskUpdate {
    pub id: Seq<char>,
    pub status: Option<TaskStatus>,
    pub result: Option<Seq<char>>,
    pub log: Option<Seq<char>>,
    pub confirm: Option<bool>,
}

/// What the daemon is told of a task.
pub open spec fn update_of(p: UpdateTaskPayload) -> TaskUpdate {
    TaskUpdate {
        id: p.id@,
        status: p.status,
        result: opt(p.result),
        log: opt(p.log),
        confirm: p.confirm,
    }
}

/// What the daemon is told of a task, or why it is not told.
pub open spec fn update_view(r: Result<UpdateTaskPayload, ToolError>) -> Result<
    TaskUpdate,
    Refusal,
> {
    match r {
        Ok(p) => Ok(update_of(p)),
        Err(e) => Err(e@),
    }
}

/// What an update tells the daemon. An empty status, result or log is none.
pub open spec fn wanted_update(req: UpdateTaskRequest) -> Result<TaskUpdate, Refusal> {
    let raw = trim_in(req.status);
    let told = TaskUpdate {
        id: req.id@,
        status: None,
        result: said(req.result),
        log: said(req.log),
        confirm: req.confirm,
    };
    if raw is None || raw->0.len() == 0 {
        Ok(told)
    } else {
        match update_status(raw->0) {
            Some(status) => Ok(TaskUpdate { status: Some(status), ..told }),
            None => Err(
                invalid(
                    "invalid status "@ + quoted(raw->0)
                        + " (must be pending, in_progress, completed, or failed)"@,
                ),
            ),
        }
    }
}

/// The files that are named.
pub open spec fn named_files(files: Seq<Seq<char>>) -> Seq<Seq<char>>
    decreases files.len(),
{
    if files.len() == 0 {
        Seq::empty()
    } else if trim(files.last()).len() == 0 {
        named_files(files.drop_last())
    } else {
        named_files(files.drop_last()).push(trim(files.last()))
    }
}

fn keep_named(files: &Vec<String>) -> (r: Vec<String>)
    ensures
        texts(r@) == named_files(texts(files@)),
{
    let ghost all = texts(files@);
    let mut out: Vec<String> = Vec::new();
    let mut i: usize = 0;
    proof {
        assert(texts(out@) =~= Seq::empty());
    }
    while i < files.len()
        invariant
            i <= files@.len(),
            all == texts(files@),
            texts(out@) == named_files(all.take(i as int)),
        decreases files@.len() - i,
    {
        let name = trimmed(files[i].as_str());
        proof {
            assert(all.take(i + 1).drop_last() =~= all.take(i as int));
            assert(all.take(i + 1).last() == files@[i as int]@);
        }
        if !name.as_str().is_empty() {
            let ghost pre = out@;
            out.push(name);
            proof {
                assert(texts(out@) =~= texts(pre).push(name@));
            }
        }
        i = i + 1;
    }
    proof {
        assert(all.take(all.len() as int) =~= all);
    }
    out
}

/// What stands under the summary of a task that is done: that nothing is left
/// over, or what is. Who leaves files over has to say what is still to be done.
pub open spec fn leftover_mark(files: Seq<Seq<char>>, residual: Option<Seq<char>>) -> Result<
    Seq<char>,
    Refusal,
> {
    if files.len() == 0 {
        Ok("remaining owned dirty files=<none>"@)
    } else if residual is None || residual->0.len() == 0 {
        Err(invalid("residual_scope is required when dirty_files is non-empty"@))
    } else {
        Ok(
            "remaining owned dirty files="@ + join(files, ", "@) + "; residual scope="@
                + residual->0,
        )
    }
}

/// What the report that a task is done tells the daemon.
pub open spec fn completion(req: ReportTaskCompletionRequest) -> Result<TaskUpdate, Refusal> {
    if trim(req.summary@).len() == 0 {
        Err(invalid("summary is required"@))
    } else {
        match leftover_mark(named_files(texts(req.dirty_files@)), trim_in(req.residual_scope)) {
            Err(e) => Err(e),
            Ok(mark) => Ok(
                TaskUpdate {
                    id: req.id@,
                    status: Some(TaskStatus::Completed),
                    result: Some(trim(req.summary@) + "\n\n"@ + mark),
                    log: None,
                    confirm: Some(true),
                },
            ),
        }
    }
}

/// What the report that a task failed tells the daemon.
pub open spec fn failure(req: ReportTaskFailedRequest) -> Result<TaskUpdate, Refusal> {
    if trim(req.reason@).len() == 0 {
        Err(invalid("reason is required"@))
    } else {
        Ok(
            TaskUpdate {
                id: req.id@,
                status: Some(TaskStatus::Failed),
                result: Some(trim(req.reason@)),
                log: None,
                confirm: None,
            },
        )
    }
}

/// What the report that a task is blocked tells the daemon.
pub open spec fn blockage(req: ReportTaskBlockedRequest) -> Result<TaskUpdate, Refusal> {
    if trim(req.reason@).len() == 0 {
        Err(invalid("reason is required"@))
    } else {
        Ok(
            TaskUpdate {
                id: req.id@,
                status: Some(TaskStatus::Blocked),
                result: Some(trim(req.reason@)),
                log: None,
                confirm: None,
            },
        )
    }
}

/// What the report of progress tells the daemon.
pub open spec fn progress(req: ReportTaskProgressRequest) -> Result<TaskUpdate, Refusal> {
    if trim(req.note@).len() == 0 {
        Err(invalid("note is required"@))
    } else {
        Ok(
            TaskUpdate {
                id: req.id@,
                status: Some(TaskStatus::InProgress),
                result: None,
                log: Some(trim(req.note@)),
                confirm: None,
            },
        )
    }
}

/// The tasks that the daemon is asked for.
pub struct TaskFilter {
    pub assignee: Seq<char>,
    pub created_by: Seq<char>,
    pub status: Option<TaskStatus>,
}

/// The tasks that the daemon is asked for.
pub open spec fn filter_of(p: ListTasksPayload) -> TaskFilter {
    TaskFilter { assignee: p.assignee@, created_by: p.created_by@, status: p.status }
}

/// The tasks that the daemon is asked for, if it is.
pub open spec fn opt_filter(p: Option<ListTasksPayload>) -> Option<TaskFilter> {
    match p {
        Some(p) => Some(filter_of(p)),
        None => None,
    }
}

/// What is asked of a workspace's tasks.
#[derive(Debug, Clone)]
pub struct WorkspaceTasksQuery {
    pub workspace: String,
    pub view: WorkspaceView,
    pub status: Option<TaskStatus>,
}

/// What is asked of a workspace's tasks, as a value.
pub struct WorkspaceTasksAsked {
    pub workspace: Seq<char>,
    pub view: WorkspaceView,
    pub status: Option<TaskStatus>,
}

impl View for WorkspaceTasksQuery {
    type V = WorkspaceTasksAsked;

    open spec fn view(&self) -> WorkspaceTasksAsked {
        WorkspaceTasksAsked { workspace: self.workspace@, view: self.view, status: self.status }
    }
}

/// What is asked of a workspace's tasks, or what is wrong with the question.
pub open spec fn workspace_tasks_asked(req: ListWorkspaceTasksRequest) -> Result<
    WorkspaceTasksAsked,
    Refusal,
> {
    if trim(req.workspace@).len() == 0 {
        Err(invalid("workspace is required"@))
    } else {
        match view_wanted(trim_in(req.view)) {
            Err(e) => Err(invalid(e)),
            Ok(view) => match status_filter(trim_in(req.status)) {
                Err(e) => Err(invalid(e)),
                Ok(status) => Ok(
                    WorkspaceTasksAsked { workspace: trim(req.workspace@), view, status },
                ),
            },
        }
    }
}

/// A question, or what is wrong with it.
pub open spec fn asked_view(r: Result<WorkspaceTasksQuery, ToolError>) -> Result<
    WorkspaceTasksAsked,
    Refusal,
> {
    match r {
        Ok(q) => Ok(q@),
        Err(e) => Err(e@),
    }
}

/// Some tasks of a workspace.
#[derive(Debug, Clone)]
pub struct TaskBlock {
    pub count: usize,
    pub tasks: Vec<Task>,
}

/// The tasks of a workspace.
#[derive(Debug, Clone)]
pub struct WorkspaceTasks {
    pub workspace: String,
    pub view: &'static str,
    pub unique_task_count: usize,
    pub status: Option<String>,
    pub assigned: Option<TaskBlock>,
    pub created: Option<TaskBlock>,
}

/// The identifiers of tasks.
pub open spec fn task_ids(tasks: Seq<Task>) -> Set<Seq<char>> {
    tasks.map_values(|t: Task| t.id@).to_set()
}

/// The identifiers of tasks that were asked for.
pub open spec fn ids_among(tasks: Option<Vec<Task>>) -> Set<Seq<char>> {
    match tasks {
        Some(v) => task_ids(v@),
        None => Set::empty(),
    }
}

/// The tasks within a block.
pub open spec fn block_holds(block: Option<TaskBlock>, tasks: Option<Vec<Task>>) -> bool {
    match tasks {
        Some(v) => block matches Some(b) && b.tasks == v && b.count == v@.len(),
        None => block is None,
    }
}

impl WorkspaceTasksQuery {
    /// What the daemon is asked: for the tasks that the workspace is to do, for
    /// those that it created, or for both.
    pub fn requests(&self) -> (r: (Option<ListTasksPayload>, Option<ListTasksPayload>))
        ensures
            opt_filter(r.0) == if self.view == WorkspaceView::Created {
                None
            } else {
                Some(
                    (TaskFilter {
                        assignee: self.workspace@,
                        created_by: Seq::empty(),
                        status: self.status,
                    }),
                )
            },
            opt_filter(r.1) == if self.view == WorkspaceView::Assigned {
                None
            } else {
                Some(
                    (TaskFilter {
                        assignee: Seq::empty(),
                        created_by: self.workspace@,
                        status: self.status,
                    }),
                )
            },
    {
        let assigned = match self.view {
            WorkspaceView::Assigned | WorkspaceView::Both => Some(
                ListTasksPayload {
                    assignee: self.workspace.clone(),
                    created_by: String::new(),
                    status: self.status,
                },
            ),
            WorkspaceView::Created => None,
        };
        let created = match self.view {
            WorkspaceView::Created | WorkspaceView::Both => Some(
                ListTasksPayload {
                    assignee: String::new(),
                    created_by: self.workspace.clone(),
                    status: self.status,
                },
            ),
            WorkspaceView::Assigned => None,
        };
        (assigned, created)
    }

    /// The tasks of the workspace, from what the daemon gave. A task that stands
    /// in both lists counts once.
    pub fn answer(self, assigned: Option<Vec<Task>>, created: Option<Vec<Task>>) -> (r:
        WorkspaceTasks)
        ensures
            r.workspace == self.workspace,
            r.view@ == self.view.as_str()@,
            r.unique_task_count == (ids_among(assigned) + ids_among(created)).len(),
            opt(r.status) == match self.status {
                Some(s) => Some(status_rename(s)@),
                None => None,
            },
            block_holds(r.assigned, assigned),
            block_holds(r.created, created),
    {
        let mut ids: Vec<String> = Vec::new();
        proof {
            assert(texts(ids@).to_set() =~= Set::<Seq<char>>::empty());
        }
        if let Some(tasks) = &assigned {
            add_ids(&mut ids, tasks);
        }
        if let Some(tasks) = &created {
            add_ids(&mut ids, tasks);
        }
        proof {
            assert(texts(ids@).to_set() =~= ids_among(assigned) + ids_among(created));
            texts(ids@).unique_seq_to_set();
        }
        WorkspaceTasks {
            workspace: self.workspace,
            view: self.view.as_str(),
            unique_task_count: ids.len(),
            status: match self.status {
                Some(s) => Some(status_rename(s).to_owned()),
                None => None,
            },
            assigned: block_of(assigned),
            created: block_of(created),
        }
    }
}

fn block_of(tasks: Option<Vec<Task>>) -> (r: Option<TaskBlock>)
    ensures
        block_holds(r, tasks),
{
    match tasks {
        Some(tasks) => Some(TaskBlock { count: tasks.len(), tasks }),
        None => None,
    }
}

/// Adds the identifiers of tasks, each once.
fn add_ids(ids: &mut Vec<String>, tasks: &Vec<Task>)
    requires
        texts(old(ids)@).no_duplicates(),
    ensures
        texts(final(ids)@).no_duplicates(),
        texts(final(ids)@).to_set() == texts(old(ids)@).to_set() + task_ids(tasks@),
{
    let ghost first = texts(ids@).to_set();
    let ghost all = tasks@.map_values(|t: Task| t.id@);
    let mut i: usize = 0;
    proof {
        assert(first + all.take(0).to_set() =~= first);
    }
    while i < tasks.len()
        invariant
            i <= tasks@.len(),
            all == tasks@.map_values(|t: Task| t.id@),
            texts(ids@).no_duplicates(),
            texts(ids@).to_set() == first + all.take(i as int).to_set(),
        decreases tasks@.len() - i,
    {
        let id = tasks[i].id.as_str();
        let ghost before = texts(ids@);
        let ghost seen = all.take(i as int);
        let ghost now = all.take(i + 1);
        proof {
            assert(now =~= seen.push(id@));
            assert(now.to_set() =~= seen.to_set().insert(id@)) by {
                assert forall|x: Seq<char>| now.to_set().contains(x) implies seen.to_set().insert(
                    id@,
                ).contains(x) by {
                    let j = choose|j: int| 0 <= j < now.len() && now[j] == x;
                    if j < i {
                        assert(seen[j] == x);
                    }
                }
                assert forall|x: Seq<char>|
                    seen.to_set().insert(id@).contains(x) implies now.to_set().contains(x) by {
                    if x == id@ {
                        assert(now[i as int] == x);
                    } else {
                        let j = choose|j: int| 0 <= j < seen.len() && seen[j] == x;
                        assert(now[j] == x);
                    }
                }
            }
        }
        if !is_one_of(id, ids) {
            let ghost pre = ids@;
            ids.push(id.to_owned());
            proof {
                let after = texts(ids@);
                assert(after =~= before.push(id@));
                assert(after.to_set() =~= before.to_set().insert(id@)) by {
                    assert forall|x: Seq<char>|
                        after.to_set().contains(x) implies before.to_set().insert(id@).contains(
                        x,
                    ) by {
                        let j = choose|j: int| 0 <= j < after.len() && after[j] == x;
                        if j < before.len() {
                            assert(before[j] == x);
                        }
                    }
                    assert forall|x: Seq<char>|
                        before.to_set().insert(id@).contains(x) implies after.to_set().contains(
                        x,
                    ) by {
                        if x == id@ {
                            assert(after[before.len() as int] == x);
                        } else {
                            let j = choose|j: int| 0 <= j < before.len() && before[j] == x;
                            assert(after[j] == x);
                        }
                    }
                }
                assert(texts(ids@).to_set() =~= first + now.to_set());
            }
        } else {
            proof {
                assert(before.to_set().contains(id@));
                assert(texts(ids@).to_set() =~= first + now.to_set());
            }
        }
        i = i + 1;
    }
    proof {
        assert(all.take(all.len() as int) =~= all);
    }
}

/// What is said of listed tasks.
#[derive(Debug, Clone)]
pub enum TaskListing {
    Nothing(&'static str),
    Tasks(TaskBlock),
}

/// What is said of listed tasks.
pub fn tasks_listed(tasks: Vec<Task>) -> (r: TaskListing)
    ensures
        tasks@.len() == 0 ==> (r matches TaskListing::Nothing(text) && text@ == "No tasks found."@),
        tasks@.len() > 0 ==> (r matches TaskListing::Tasks(b) && b.tasks == tasks && b.count
            == tasks@.len()),
{
    if tasks.len() == 0 {
        TaskListing::Nothing("No tasks found.")
    } else {
        TaskListing::Tasks(TaskBlock { count: tasks.len(), tasks })
    }
}

impl Server {
    /// Records a task.
    pub fn create_task(&self, req: CreateTaskRequest) -> (r: Result<CreateTaskPayload, ToolError>)
        ensures
            match option_problem(
                trim_in(req.start_mode),
                trim_in(req.workflow_mode),
                trim_in(req.priority),
                req.stale_after_seconds,
            ) {
                Some(problem) => r matches Err(e) && e@ == invalid(problem),
                None => r matches Ok(p) && {
                    &&& p.title == req.title
                    &&& p.description@ == or_empty(req.description)
                    &&& p.assignee == req.assignee
                    &&& p.parent_task_id@ == or_empty(req.parent_task_id)
                    &&& p.start_mode@ == or_empty(req.start_mode)
                    &&& p.workflow_mode@ == or_empty(req.workflow_mode)
                    &&& p.priority@ == or_empty(req.priority)
                    &&& p.stale_after_seconds == or_zero(req.stale_after_seconds)
                },
            },
    {
        match validate_lifecycle_options(
            as_opt_str(&req.start_mode),
            as_opt_str(&req.workflow_mode),
            as_opt_str(&req.priority),
            req.stale_after_seconds,
        ) {
            Err(e) => Err(e),
            Ok(()) => Ok(
                CreateTaskPayload {
                    title: req.title,
                    description: text_or_empty(req.description),
                    assignee: req.assignee,
                    parent_task_id: text_or_empty(req.parent_task_id),
                    start_mode: text_or_empty(req.start_mode),
                    workflow_mode: text_or_empty(req.workflow_mode),
                    priority: text_or_empty(req.priority),
                    stale_after_seconds: number_or_zero(req.stale_after_seconds),
                },
            ),
        }
    }

    /// Records a task and hands it out.
    pub fn start_task(&self, req: StartTaskRequest) -> (r: Result<StartTaskPayload, ToolError>)
        ensures
            match option_problem(
                trim_in(req.start_mode),
                trim_in(req.workflow_mode),
                trim_in(req.priority),
                req.stale_after_seconds,
            ) {
                Some(problem) => r matches Err(e) && e@ == invalid(problem),
                None => r matches Ok(p) && {
                    &&& p.title == req.title
                    &&& p.description@ == or_empty(req.description)
                    &&& p.message == req.message
                    &&& p.assignee == req.assignee
                    &&& p.parent_task_id@ == or_empty(req.parent_task_id)
                    &&& p.start_mode@ == or_empty(req.start_mode)
                    &&& p.workflow_mode@ == or_empty(req.workflow_mode)
                    &&& p.priority@ == or_empty(req.priority)
                    &&& p.stale_after_seconds == or_zero(req.stale_after_seconds)
                },
            },
    {
        match validate_lifecycle_options(
            as_opt_str(&req.start_mode),
            as_opt_str(&req.workflow_mode),
            as_opt_str(&req.priority),
            req.stale_after_seconds,
        ) {
            Err(e) => Err(e),
            Ok(()) => Ok(
                StartTaskPayload {
                    title: req.title,
                    description: text_or_empty(req.description),
                    message: req.message,
                    assignee: req.assignee,
                    parent_task_id: text_or_empty(req.parent_task_id),
                    start_mode: text_or_empty(req.start_mode),
                    workflow_mode: text_or_empty(req.workflow_mode),
                    priority: text_or_empty(req.priority),
                    stale_after_seconds: number_or_zero(req.stale_after_seconds),
                },
            ),
        }
    }

    /// Says what has become of a task.
    pub fn update_task(&self, req: UpdateTaskRequest) -> (r: Result<UpdateTaskPayload, ToolError>)
        ensures
            update_view(r) == wanted_update(req),
    {
        let mut status: Option<TaskStatus> = None;
        if let Some(raw) = &req.status {
            let text = trimmed(raw.as_str());
            if !text.as_str().is_empty() {
                match parse_update_status(text.as_str()) {
                    Ok(s) => {
                        status = Some(s);
                    },
                    Err(e) => return Err(ToolError::invalid_params(e)),
                }
            }
        }
        Ok(
            UpdateTaskPayload {
                id: req.id,
                status,
                result: if_said(req.result),
                log: if_said(req.log),
                confirm: req.confirm,
            },
        )
    }

    /// Reports that a task is done.
    pub fn report_task_completion(&self, req: ReportTaskCompletionRequest) -> (r: Result<
        UpdateTaskPayload,
        ToolError,
    >)
        ensures
            update_view(r) == completion(req),
    {
        let summary = trimmed(req.summary.as_str());
        if summary.as_str().is_empty() {
            return Err(ToolError::invalid_params_str("summary is required"));
        }
        let files = keep_named(&req.dirty_files);
        let mark = if files.len() == 0 {
            "remaining owned dirty files=<none>".to_owned()
        } else {
            let residual = match &req.residual_scope {
                Some(s) => trimmed(s.as_str()),
                None => String::new(),
            };
            if residual.as_str().is_empty() {
                return Err(
                    ToolError::invalid_params_str(
                        "residual_scope is required when dirty_files is non-empty",
                    ),
                );
            }
            "remaining owned dirty files=".to_owned().concat(
                join_all(&files, ", ").as_str(),
            ).concat("; residual scope=").concat(residual.as_str())
        };
        Ok(
            UpdateTaskPayload {
                id: req.id,
                status: Some(TaskStatus::Completed),
                result: Some(summary.concat("\n\n").concat(mark.as_str())),
                log: None,
                confirm: Some(true),
            },
        )
    }

    /// Reports that a task failed.
    pub fn report_task_failed(&self, req: ReportTaskFailedRequest) -> (r: Result<
        UpdateTaskPayload,
        ToolError,
    >)
        ensures
            update_view(r) == failure(req),
    {
        let reason = trimmed(req.reason.as_str());
        if reason.as_str().is_empty() {
            return Err(ToolError::invalid_params_str("reason is required"));
        }
        Ok(
            UpdateTaskPayload {
                id: req.id,
                status: Some(TaskStatus::Failed),
                result: Some(reason),
                log: None,
                confirm: None,
            },
        )
    }

    /// Reports that a task is blocked.
    pub fn report_task_blocked(&self, req: &ReportTaskBlockedRequest) -> (r: Result<
        UpdateTaskPayload,
        ToolError,
    >)
        ensures
            update_view(r) == blockage(*req),
    {
        let reason = trimmed(req.reason.as_str());
        if reason.as_str().is_empty() {
            return Err(ToolError::invalid_params_str("reason is required"));
        }
        Ok(
            UpdateTaskPayload {
                id: req.id.clone(),
                status: Some(TaskStatus::Blocked),
                result: Some(reason),
                log: None,
                confirm: None,
            },
        )
    }

    /// The request for help that goes with the report of a blocked task, where it
    /// names someone who could help.
    pub fn help_request(&self, req: &ReportTaskBlockedRequest) -> (r: Option<SendMessagePayload>)
        ensures
            match trim_in(req.needs_help_from) {
                Some(peer) => if peer.len() > 0 {
                    r matches Some(p) && p.to@ == peer && p.message@ == "[task-blocked-help] task "@
                        + req.id@ + ": "@ + trim(req.reason@) && p.config_path@
                        == self.dispatch_path()
                } else {
                    r is None
                },
                None => r is None,
            },
    {
        let peer = match &req.needs_help_from {
            Some(s) => trimmed(s.as_str()),
            None => return None,
        };
        if peer.as_str().is_empty() {
            return None;
        }
        let config_path = match &self.config_path {
            Some(p) => p.clone(),
            None => String::new(),
        };
        Some(
            SendMessagePayload {
                to: peer,
                message: "[task-blocked-help] task ".to_owned().concat(req.id.as_str()).concat(
                    ": ",
                ).concat(trimmed(req.reason.as_str()).as_str()),
                config_path,
            },
        )
    }

    /// Reports how far a task has come.
    pub fn report_task_progress(&self, req: ReportTaskProgressRequest) -> (r: Result<
        UpdateTaskPayload,
        ToolError,
    >)
        ensures
            update_view(r) == progress(req),
    {
        let note = trimmed(req.note.as_str());
        if note.as_str().is_empty() {
            return Err(ToolError::invalid_params_str("note is required"));
        }
        Ok(
            UpdateTaskPayload {
                id: req.id,
                status: Some(TaskStatus::InProgress),
                result: None,
                log: Some(note),
                confirm: None,
            },
        )
    }

    /// Looks a task up.
    pub fn get_task(&self, req: TaskIdRequest) -> (r: GetTaskPayload)
        ensures
            r.id == req.id,
    {
        GetTaskPayload { id: req.id }
    }

    /// Lists tasks.
    pub fn list_tasks(&self, req: ListTasksRequest) -> (r: Result<ListTasksPayload, ToolError>)
        ensures
            match status_filter(trim_in(req.status)) {
                Err(e) => r matches Err(f) && f@ == invalid(e),
                Ok(status) => r matches Ok(p) && filter_of(p) == (TaskFilter {
                    assignee: or_empty(req.assignee),
                    created_by: or_empty(req.created_by),
                    status,
                }),
            },
    {
        match parse_list_status(as_opt_str(&req.status)) {
            Err(e) => Err(ToolError::invalid_params(e)),
            Ok(status) => Ok(
                ListTasksPayload {
                    assignee: text_or_empty(req.assignee),
                    created_by: text_or_empty(req.created_by),
                    status,
                },
            ),
        }
    }

    /// Lists the tasks of a workspace.
    pub fn list_workspace_tasks(&self, req: &ListWorkspaceTasksRequest) -> (r: Result<
        WorkspaceTasksQuery,
        ToolError,
    >)
        ensures
            asked_view(r) == workspace_tasks_asked(*req),
    {
        let workspace = trimmed(req.workspace.as_str());
        if workspace.as_str().is_empty() {
            return Err(ToolError::invalid_params_str("workspace is required"));
        }
        let view = match parse_workspace_view(as_opt_str(&req.view)) {
            Ok(v) => v,
            Err(e) => return Err(ToolError::invalid_params(e)),
        };
        let status = match parse_list_status(as_opt_str(&req.status)) {
            Ok(s) => s,
            Err(e) => return Err(ToolError::invalid_params(e)),
        };
        Ok(WorkspaceTasksQuery { workspace, view, status })
    }

    /// Cancels a task.
    pub fn cancel_task(&self, req: ControlTaskRequest) -> (r: CancelTaskPayload)
        ensures
            r.id == req.id,
            r.reason@ == or_empty(req.reason),
            r.expected_version == req.expected_version,
    {
        CancelTaskPayload {
            id: req.id,
            reason: text_or_empty(req.reason),
            expected_version: req.expected_version,
        }
    }

    /// Removes a task.
    pub fn remove_task(&self, req: ControlTaskRequest) -> (r: RemoveTaskPayload)
        ensures
            r.id == req.id,
            r.reason@ == or_empty(req.reason),
            r.expected_version == req.expected_version,
    {
        RemoveTaskPayload {
            id: req.id,
            reason: text_or_empty(req.reason),
            expected_version: req.expected_version,
        }
    }

    /// Brings a stuck task on.
    pub fn intervene_task(&self, req: InterveneTaskRequest) -> (r: InterveneTaskPayload)
        ensures
            r.id == req.id,
            r.action == req.action,
            r.note@ == or_empty(req.note),
            r.expected_version == req.expected_version,
    {
        InterveneTaskPayload {
            id: req.id,
            action: req.action,
            note: text_or_empty(req.note),
            expected_version: req.expected_version,
        }
    }
}

/// A task that is reported as done always says what is left over: nothing, or
/// which files and what is still to be done about them.
pub proof fn completion_says_what_is_left(req: ReportTaskCompletionRequest)
    ensures
        completion(req) matches Ok(u) ==> {
            let files = named_files(texts(req.dirty_files@));
            &&& u.status == Some(TaskStatus::Completed)
            &&& u.confirm == Some(true)
            &&& u.result == Some(
                trim(req.summary@) + "\n\n"@ + (if files.len() == 0 {
                    "remaining owned dirty files=<none>"@
                } else {
                    "remaining owned dirty files="@ + join(files, ", "@) + "; residual scope="@
                        + trim(req.residual_scope->0@)
                }),
            )
        },
{
}

} // verus!
