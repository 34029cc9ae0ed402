//! What holds of everything that is said of tasks.

use vstd::prelude::*;

use crate::mcp::errors::{invalid, quoted, ErrorKind};
use crate::mcp::requests::{
    ListWorkspaceTasksRequest, ReportTaskBlockedRequest, ReportTaskCompletionRequest,
    ReportTaskFailedRequest, ReportTaskProgressRequest, UpdateTaskRequest,
};
use crate::mcp::tasks::{
    blockage, completion, failure, filter_of, list_status, named_files, option_problem, progress,
    status_filter, status_rename, task_ids, trim_in, update_of, update_status, view_wanted,
    wanted_update, workspace_tasks_asked, WorkspaceView,
};
use crate::proto::payloads::{ListTasksPayload, UpdateTaskPayload};
use crate::proto::types::{Task, TaskStatus};
use crate::text::{join, texts, trim};

verus! {

/// The names of statuses differ from each other and say something.
proof fn status_names_differ()
    ensures
        "pending"@.len() == 7,
        "in_progress"@.len() == 11,
        "blocked"@.len() == 7,
        "completed"@.len() == 9,
        "failed"@.len() == 6,
        "cancelled"@.len() == 9,
        "pending"@ != "blocked"@,
        "completed"@ != "cancelled"@,
{
    reveal_strlit("pending");
    reveal_strlit("in_progress");
    reveal_strlit("blocked");
    reveal_strlit("completed");
    reveal_strlit("failed");
    reveal_strlit("cancelled");
    assert("pending"@[0] == 'p' && "blocked"@[0] == 'b');
    assert("completed"@[1] == 'o' && "cancelled"@[1] == 'a');
}

/// Each status has its own name.
pub proof fn statuses_have_names(status: TaskStatus)
    ensures
        status_rename(status)@ == "pending"@ <==> status == TaskStatus::Pending,
        status_rename(status)@ == "in_progress"@ <==> status == TaskStatus::InProgress,
        status_rename(status)@ == "blocked"@ <==> status == TaskStatus::Blocked,
        status_rename(status)@ == "completed"@ <==> status == TaskStatus::Completed,
        status_rename(status)@ == "failed"@ <==> status == TaskStatus::Failed,
        status_rename(status)@ == "cancelled"@ <==> status == TaskStatus::Cancelled,
{
    status_names_differ();
}

/// A status that a worker sets is the one whose name was given, and every status
/// but the blocked and the cancelled one can be set by its name.
pub proof fn update_sets_the_named_status(raw: Seq<char>, status: TaskStatus)
    ensures
        update_status(raw) == Some(status) ==> status_rename(status)@ == raw,
        update_status(raw) == Some(status) ==> status != TaskStatus::Blocked && status
            != TaskStatus::Cancelled,
        status != TaskStatus::Blocked && status != TaskStatus::Cancelled ==> update_status(
            status_rename(status)@,
        ) == Some(status),
        update_status(raw) is None <==> raw != "pending"@ && raw != "in_progress"@ && raw
            != "completed"@ && raw != "failed"@,
{
    status_names_differ();
}

/// A status that tasks are listed by is the one whose name was given, and every
/// status but the blocked one can be asked for by its name.
pub proof fn list_asks_for_the_named_status(raw: Seq<char>, status: TaskStatus)
    ensures
        list_status(raw) == Some(status) ==> status_rename(status)@ == raw,
        list_status(raw) == Some(status) ==> status != TaskStatus::Blocked,
        status != TaskStatus::Blocked ==> list_status(status_rename(status)@) == Some(status),
{
    status_names_differ();
}

/// A filter for tasks is the status whose name was given; there is none exactly
/// where nothing was given, and anything else is refused.
pub proof fn filter_is_the_named_status(raw: Option<Seq<char>>, status: TaskStatus)
    ensures
        status_filter(raw) == Ok::<Option<TaskStatus>, Seq<char>>(Some(status)) ==> raw is Some
            && status_rename(status)@ == raw->0,
        status_filter(raw) == Ok::<Option<TaskStatus>, Seq<char>>(None) <==> raw is None
            || raw->0.len() == 0,
        status != TaskStatus::Blocked ==> status_filter(Some(status_rename(status)@)) == Ok::<
            Option<TaskStatus>,
            Seq<char>,
        >(Some(status)),
        status_filter(raw) is Err <==> raw is Some && raw->0.len() > 0 && raw->0 != "pending"@
            && raw->0 != "in_progress"@ && raw->0 != "completed"@ && raw->0 != "failed"@ && raw->0
            != "cancelled"@,
{
    status_names_differ();
}

/// The tasks of a workspace that are listed are those whose name was given; both
/// where nothing was.
pub proof fn view_is_the_named_one(raw: Seq<char>, view: WorkspaceView)
    ensures
        view_wanted(None) == Ok::<WorkspaceView, Seq<char>>(WorkspaceView::Both),
        raw.len() == 0 ==> view_wanted(Some(raw)) == Ok::<WorkspaceView, Seq<char>>(
            WorkspaceView::Both,
        ),
        raw.len() > 0 ==> (view_wanted(Some(raw)) == Ok::<WorkspaceView, Seq<char>>(view)
            <==> view.as_str()@ == raw),
        view.as_str()@ == "assigned"@ <==> view == WorkspaceView::Assigned,
        view.as_str()@ == "created"@ <==> view == WorkspaceView::Created,
        view.as_str()@ == "both"@ <==> view == WorkspaceView::Both,
{
    reveal_strlit("assigned");
    reveal_strlit("created");
    reveal_strlit("both");
    assert("assigned"@.len() == 8 && "created"@.len() == 7 && "both"@.len() == 4);
}

/// The options of a task are accepted exactly where the time it may stand still
/// is not negative and each of the others is one of its known words, or empty, or
/// not given.
pub proof fn options_are_known_words(
    start_mode: Option<Seq<char>>,
    workflow_mode: Option<Seq<char>>,
    priority: Option<Seq<char>>,
    stale_after_seconds: Option<i64>,
)
    ensures
        option_problem(start_mode, workflow_mode, priority, stale_after_seconds) is None <==> (
        stale_after_seconds is None || stale_after_seconds->0 >= 0) && (start_mode is None
            || start_mode->0.len() == 0 || start_mode->0 == "default"@ || start_mode->0
            == "fresh"@) && (workflow_mode is None || workflow_mode->0.len() == 0
            || workflow_mode->0 == "parallel"@ || workflow_mode->0 == "serial"@) && (
        priority is None || priority->0.len() == 0 || priority->0 == "low"@ || priority->0
            == "normal"@ || priority->0 == "high"@ || priority->0 == "urgent"@),
{
}

/// An update sets a status exactly where one is named, and that one; it is refused
/// exactly where what is named cannot be set. The identifier and the confirmation
/// go through, and so do a result and a log that say something.
pub proof fn update_says_what_was_said(req: UpdateTaskRequest)
    ensures
        ({
            let named = if req.status is Some {
                trim(req.status->0@)
            } else {
                Seq::empty()
            };
            let wanted = wanted_update(req);
            &&& wanted is Err <==> named.len() > 0 && named != "pending"@ && named
                != "in_progress"@ && named != "completed"@ && named != "failed"@
            &&& wanted is Err ==> wanted->Err_0.kind == ErrorKind::InvalidParams
            &&& wanted is Ok ==> {
                &&& wanted->Ok_0.id == req.id@
                &&& wanted->Ok_0.confirm == req.confirm
                &&& wanted->Ok_0.status is None <==> named.len() == 0
                &&& wanted->Ok_0.status is Some ==> status_rename(wanted->Ok_0.status->0)@ == named
                &&& wanted->Ok_0.result is Some <==> req.result is Some && req.result->0@.len() > 0
                &&& wanted->Ok_0.result is Some ==> wanted->Ok_0.result->0 == req.result->0@
                &&& wanted->Ok_0.log is Some <==> req.log is Some && req.log->0@.len() > 0
                &&& wanted->Ok_0.log is Some ==> wanted->Ok_0.log->0 == req.log->0@
            }
        }),
{
    status_names_differ();
}

/// Each report sets its own status: a failed task is failed, a blocked one
/// blocked, one with progress runs, and a finished one is completed. It is refused
/// exactly where it says nothing.
pub proof fn reports_set_their_status(
    failed: ReportTaskFailedRequest,
    blocked: ReportTaskBlockedRequest,
    moved: ReportTaskProgressRequest,
    done: ReportTaskCompletionRequest,
)
    ensures
        failure(failed) is Err <==> trim(failed.reason@).len() == 0,
        failure(failed) is Ok ==> failure(failed)->Ok_0.status == Some(TaskStatus::Failed)
            && failure(failed)->Ok_0.id == failed.id@ && failure(failed)->Ok_0.result == Some(
            trim(failed.reason@),
        ) && failure(failed)->Ok_0.log is None && failure(failed)->Ok_0.confirm is None,
        blockage(blocked) is Err <==> trim(blocked.reason@).len() == 0,
        blockage(blocked) is Ok ==> blockage(blocked)->Ok_0.status == Some(TaskStatus::Blocked)
            && blockage(blocked)->Ok_0.id == blocked.id@ && blockage(blocked)->Ok_0.result == Some(
            trim(blocked.reason@),
        ) && blockage(blocked)->Ok_0.log is None && blockage(blocked)->Ok_0.confirm is None,
        progress(moved) is Err <==> trim(moved.note@).len() == 0,
        progress(moved) is Ok ==> progress(moved)->Ok_0.status == Some(TaskStatus::InProgress)
            && progress(moved)->Ok_0.id == moved.id@ && progress(moved)->Ok_0.log == Some(
            trim(moved.note@),
        ) && progress(moved)->Ok_0.result is None && progress(moved)->Ok_0.confirm is None,
        completion(done) is Ok ==> completion(done)->Ok_0.status == Some(TaskStatus::Completed)
            && completion(done)->Ok_0.id == done.id@ && completion(done)->Ok_0.confirm == Some(
            true,
        ) && completion(done)->Ok_0.log is None && completion(done)->Ok_0.result is Some && trim(
            done.summary@,
        ).is_prefix_of(completion(done)->Ok_0.result->0),
{
    if completion(done) is Ok {
        let said = completion(done)->Ok_0.result->0;
        let summary = trim(done.summary@);
        assert(summary =~= said.subrange(0, summary.len() as int));
    }
}

/// A file counts as left over exactly where its name says something, without the
/// white space around it, and in the order in which it was named.
pub proof fn blank_names_are_no_files(files: Seq<Seq<char>>, file: Seq<char>)
    ensures
        trim(file).len() == 0 ==> named_files(files.push(file)) == named_files(files),
        trim(file).len() > 0 ==> named_files(files.push(file)) == named_files(files).push(
            trim(file),
        ),
        named_files(Seq::empty()).len() == 0,
{
    assert(files.push(file).drop_last() =~= files);
    assert(files.push(file).last() == file);
}

/// A finished task needs a summary, and where files are left over it needs to say
/// what is still to be done; then, and only then, the report is refused.
pub proof fn leftovers_need_an_explanation(done: ReportTaskCompletionRequest)
    ensures
        completion(done) is Err <==> trim(done.summary@).len() == 0 || (named_files(
            texts(done.dirty_files@),
        ).len() > 0 && (done.residual_scope is None || trim(done.residual_scope->0@).len() == 0)),
        completion(done) is Err ==> completion(done)->Err_0.kind == ErrorKind::InvalidParams,
        completion(done) is Ok && named_files(texts(done.dirty_files@)).len() == 0
            ==> completion(done)->Ok_0.result->0 == trim(done.summary@) + "\n\n"@
            + "remaining owned dirty files=<none>"@,
        completion(done) is Ok && named_files(texts(done.dirty_files@)).len() > 0
            ==> completion(done)->Ok_0.result->0 == trim(done.summary@) + "\n\n"@ + (
        "remaining owned dirty files="@ + join(named_files(texts(done.dirty_files@)), ", "@)
            + "; residual scope="@ + trim(done.residual_scope->0@)),
{
}

/// What is asked of a workspace's tasks is about the workspace that was named, in
/// the view and with the status that were named; it is refused exactly where one
/// of them makes no sense.
pub proof fn workspace_question_is_the_asked_one(req: ListWorkspaceTasksRequest)
    ensures
        workspace_tasks_asked(req) is Err <==> trim(req.workspace@).len() == 0 || view_wanted(
            trim_in(req.view),
        ) is Err || status_filter(trim_in(req.status)) is Err,
        workspace_tasks_asked(req) is Ok ==> {
            let asked = workspace_tasks_asked(req)->Ok_0;
            &&& asked.workspace == trim(req.workspace@)
            &&& req.view is Some && trim(req.view->0@).len() > 0 ==> asked.view.as_str()@ == trim(
                req.view->0@,
            )
            &&& req.view is None || trim(req.view->0@).len() == 0 ==> asked.view
                == WorkspaceView::Both
            &&& asked.status is Some <==> req.status is Some && trim(req.status->0@).len() > 0
            &&& asked.status is Some ==> status_rename(asked.status->0)@ == trim(req.status->0@)
        },
{
    status_names_differ();
}

/// What the daemon is told of a task, and which tasks it is asked for, is what
/// stands in the payload.
pub proof fn payloads_say_what_they_hold(u: UpdateTaskPayload, l: ListTasksPayload)
    ensures
        update_of(u).id == u.id@,
        update_of(u).status == u.status,
        update_of(u).confirm == u.confirm,
        update_of(u).result is Some <==> u.result is Some,
        u.result is Some ==> update_of(u).result->0 == u.result->0@,
        update_of(u).log is Some <==> u.log is Some,
        u.log is Some ==> update_of(u).log->0 == u.log->0@,
        filter_of(l).assignee == l.assignee@,
        filter_of(l).created_by == l.created_by@,
        filter_of(l).status == l.status,
{
}

/// A task is counted once, however often it is listed: by its identifier.
pub proof fn tasks_are_counted_once(tasks: Seq<Task>, i: int)
    requires
        0 <= i < tasks.len(),
    ensures
        task_ids(tasks).contains(tasks[i].id@),
        task_ids(tasks).len() <= tasks.len(),
        forall|id: Seq<char>| #[trigger] task_ids(tasks).contains(id) ==> exists|k: int|
            0 <= k < tasks.len() && (#[trigger] tasks[k]).id@ == id,
{
    let ids = tasks.map_values(|t: Task| t.id@);
    assert(ids[i] == tasks[i].id@);
    assert(ids.contains(tasks[i].id@));
    ids.lemma_cardinality_of_set();
    assert forall|id: Seq<char>| #[trigger] task_ids(tasks).contains(id) implies exists|k: int|
        0 <= k < tasks.len() && (#[trigger] tasks[k]).id@ == id by {
        let k = choose|k: int| 0 <= k < ids.len() && ids[k] == id;
        assert(tasks[k].id@ == id);
    }
}

/// A report that says nothing is refused with what is missing.
pub proof fn refusals_name_what_is_missing(
    failed: ReportTaskFailedRequest,
    blocked: ReportTaskBlockedRequest,
    moved: ReportTaskProgressRequest,
    done: ReportTaskCompletionRequest,
)
    ensures
        failure(failed) is Err ==> failure(failed)->Err_0 == invalid("reason is required"@),
        blockage(blocked) is Err ==> blockage(blocked)->Err_0 == invalid("reason is required"@),
        progress(moved) is Err ==> progress(moved)->Err_0 == invalid("note is required"@),
        trim(done.summary@).len() == 0 ==> completion(done)->Err_0 == invalid(
            "summary is required"@,
        ),
        trim(done.summary@).len() > 0 && completion(done) is Err ==> completion(done)->Err_0
            == invalid("residual_scope is required when dirty_files is non-empty"@),
{
}

/// Options that are refused are refused by name, with what was given and what would
/// be known; the time comes first, then the start, the way of working and the
/// priority.
pub proof fn refused_options_are_named(
    start_mode: Option<Seq<char>>,
    workflow_mode: Option<Seq<char>>,
    priority: Option<Seq<char>>,
    stale_after_seconds: Option<i64>,
)
    ensures
        stale_after_seconds is Some && stale_after_seconds->0 < 0 ==> option_problem(
            start_mode,
            workflow_mode,
            priority,
            stale_after_seconds,
        ) == Some("stale_after_seconds must be >= 0"@),
        start_mode is Some && start_mode->0.len() > 0 && start_mode->0 != "default"@
            && start_mode->0 != "fresh"@ && stale_after_seconds is None ==> option_problem(
            start_mode,
            workflow_mode,
            priority,
            stale_after_seconds,
        ) == Some("invalid start_mode "@ + quoted(start_mode->0) + " (must be default or fresh)"@),
        start_mode is None && stale_after_seconds is None && workflow_mode is Some
            && workflow_mode->0.len() > 0 && workflow_mode->0 != "parallel"@ && workflow_mode->0
            != "serial"@ ==> option_problem(
            start_mode,
            workflow_mode,
            priority,
            stale_after_seconds,
        ) == Some(
            "invalid workflow_mode "@ + quoted(workflow_mode->0)
                + " (must be parallel or serial)"@,
        ),
        start_mode is None && stale_after_seconds is None && workflow_mode is None
            && priority is Some && priority->0.len() > 0 && priority->0 != "low"@ && priority->0
            != "normal"@ && priority->0 != "high"@ && priority->0 != "urgent"@ ==> option_problem(
            start_mode,
            workflow_mode,
            priority,
            stale_after_seconds,
        ) == Some(
            "invalid priority "@ + quoted(priority->0)
                + " (must be low, normal, high, or urgent)"@,
        ),
{
}

/// A status, a filter and a view that are not known are refused with what was
/// given.
pub proof fn refused_words_are_named(req: UpdateTaskRequest, raw: Seq<char>)
    ensures
        wanted_update(req) is Err ==> wanted_update(req)->Err_0 == invalid(
            "invalid status "@ + quoted(trim(req.status->0@))
                + " (must be pending, in_progress, completed, or failed)"@,
        ),
        status_filter(Some(raw)) is Err ==> status_filter(Some(raw))->Err_0
            == "invalid status filter "@ + quoted(raw),
        view_wanted(Some(raw)) is Err ==> view_wanted(Some(raw))->Err_0 == "invalid view "@ + quoted(
            raw,
        ) + " (must be assigned, created, or both)"@,
{
}

} // verus!
