//! What holds of every list, cursor and form of the view.

use vstd::prelude::*;

use crate::proto::types::{HistoryEntry, Task};
use crate::proto::usage::WorkspaceTrend;
use crate::text::trim;
use crate::time::Timestamp;
use crate::tui::sidebar::Row;
use crate::tui::state::{
    active_text, agent_places, app_tabs, app_tasks, clamped, cycled_focus, cycled_task_filter,
    detail_tabs, former_field, has_usage, messages_at_head, messages_at_tail, moved_selection,
    moved_task_selection, next_field, opened_message_form, opened_task_form, place_in, round,
    scrolled_messages, scrolled_stream, selectable, selected_stream, shifted, stepped_detail_tab,
    stepped_stream, submitted_message_form, submitted_task_form, tab_place, task_of_form,
    task_selected, top, usage_rows, with_active_text, with_message_cursor_in_list, with_messages,
    with_selectable_entry, with_task_cursor_in_list, with_tasks, with_visible_view,
    workspace_selected, AgentDetailTab, AppModel, CreateTaskField, Focus, PaneCursor, TaskForm,
};
use crate::tui::stream::StreamView;
use crate::tui::tasks::{SnapshotRead, TaskFilterMode};

verus! {

/// A cursor goes as far as told and not above the top; it is kept above a last row
/// only where it stands below it.
pub proof fn cursors_move_as_told(c: PaneCursor, delta: int, ceiling: usize)
    ensures
        0 <= c.index + delta <= usize::MAX ==> shifted(c, delta).index == c.index + delta,
        c.index + delta < 0 ==> shifted(c, delta).index == 0,
        c.index + delta > usize::MAX ==> shifted(c, delta).index == usize::MAX,
        c.index <= ceiling ==> clamped(c, ceiling) == c,
        c.index > ceiling ==> clamped(c, ceiling).index == ceiling,
        top().index == 0,
{
}

/// The tabs of the detail of an agent stand in this order.
pub proof fn detail_tabs_stand_in_order(tab: AgentDetailTab)
    ensures
        detail_tabs().len() == 5,
        detail_tabs()[0] == AgentDetailTab::Overview,
        detail_tabs()[1] == AgentDetailTab::Tasks,
        detail_tabs()[2] == AgentDetailTab::Messages,
        detail_tabs()[3] == AgentDetailTab::Instructions,
        detail_tabs()[4] == AgentDetailTab::Activity,
        detail_tabs()[tab.index() as int] == tab,
{
}

/// A step to the next detail tab goes to the one after, and from the last to the
/// first; a step back undoes it. The tab is then shown from its top.
pub proof fn next_detail_tab_is_the_one_after(s: AppModel)
    ensures
        ({
            let next = stepped_detail_tab(s, 1);
            let back = stepped_detail_tab(s, -1);
            &&& s.agent_detail_tab == AgentDetailTab::Overview ==> next.agent_detail_tab
                == AgentDetailTab::Tasks && back.agent_detail_tab == AgentDetailTab::Activity
            &&& s.agent_detail_tab == AgentDetailTab::Tasks ==> next.agent_detail_tab
                == AgentDetailTab::Messages && back.agent_detail_tab == AgentDetailTab::Overview
            &&& s.agent_detail_tab == AgentDetailTab::Messages ==> next.agent_detail_tab
                == AgentDetailTab::Instructions && back.agent_detail_tab == AgentDetailTab::Tasks
            &&& s.agent_detail_tab == AgentDetailTab::Instructions ==> next.agent_detail_tab
                == AgentDetailTab::Activity && back.agent_detail_tab == AgentDetailTab::Messages
            &&& s.agent_detail_tab == AgentDetailTab::Activity ==> next.agent_detail_tab
                == AgentDetailTab::Overview && back.agent_detail_tab
                == AgentDetailTab::Instructions
            &&& next.detail_scroll.index == 0
            &&& next.agent_detail_follow_tail
        }),
{
    let i = s.agent_detail_tab.index() as int;
    assert(round(i, 1, 5) == (i + 1) % 5);
    assert(round(i, -1, 5) == (i - 1) % 5);
}

/// A step to the next view goes from the agents to the messages, the tasks, the
/// tokens and, where a terminal is mirrored, to that, and from the last to the
/// agents.
pub proof fn next_view_is_the_one_after(s: AppModel, now: Timestamp)
    requires
        s.stream == StreamView::Stream ==> s.streamed_workspace is Some,
    ensures
        ({
            let next = stepped_stream(s, 1, now);
            let back = stepped_stream(s, -1, now);
            let mirrored = s.streamed_workspace is Some;
            &&& s.stream == StreamView::Agents ==> next.stream == StreamView::Messages
            &&& s.stream == StreamView::Messages ==> next.stream == StreamView::Tasks
                && back.stream == StreamView::Agents
            &&& s.stream == StreamView::Tasks ==> next.stream == StreamView::Tokens && back.stream
                == StreamView::Messages
            &&& s.stream == StreamView::Tokens ==> back.stream == StreamView::Tasks
            &&& s.stream == StreamView::Tokens && mirrored ==> next.stream == StreamView::Stream
            &&& s.stream == StreamView::Tokens && !mirrored ==> next.stream == StreamView::Agents
            &&& s.stream == StreamView::Stream ==> next.stream == StreamView::Agents && back.stream
                == StreamView::Tokens
            &&& s.stream == StreamView::Agents && mirrored ==> back.stream == StreamView::Stream
            &&& s.stream == StreamView::Agents && !mirrored ==> back.stream == StreamView::Tokens
        }),
{
    let n = app_tabs(s).len() as int;
    let i = tab_place(s);
    assert(n == 4 || n == 5);
    assert(round(i, 1, n) == (i + 1) % n);
    assert(round(i, -1, n) == (i - 1) % n);
}

/// A number key shows the view of that tab where there is one, from its top, and
/// does nothing otherwise.
pub proof fn tabs_are_shown_by_number(s: AppModel, idx: int)
    ensures
        idx == 0 ==> selected_stream(s, idx).stream == StreamView::Agents,
        idx == 1 ==> selected_stream(s, idx).stream == StreamView::Messages,
        idx == 2 ==> selected_stream(s, idx).stream == StreamView::Tasks,
        idx == 3 ==> selected_stream(s, idx).stream == StreamView::Tokens,
        idx == 4 && s.streamed_workspace is Some ==> selected_stream(s, idx).stream
            == StreamView::Stream,
        idx == 4 && s.streamed_workspace is None ==> selected_stream(s, idx) == s,
        idx < 0 || idx > 4 ==> selected_stream(s, idx) == s,
        0 <= idx <= 3 ==> selected_stream(s, idx).detail_scroll.index == 0,
{
}

/// The view of a mirrored terminal is left where none is mirrored any more, and
/// only then.
pub proof fn only_mirrored_terminals_are_shown(s: AppModel)
    ensures
        s.stream == StreamView::Stream && s.streamed_workspace is None ==> with_visible_view(
            s,
        ).stream == StreamView::Agents,
        s.stream != StreamView::Stream || s.streamed_workspace is Some ==> with_visible_view(s)
            == s,
{
}

/// The focus goes to the other half with each step.
pub proof fn focus_goes_to_the_other_half(s: AppModel, delta: int)
    ensures
        delta % 2 == 0 ==> cycled_focus(s, delta).focus == s.focus,
        delta % 2 != 0 && s.focus == Focus::List ==> cycled_focus(s, delta).focus
            == Focus::Detail,
        delta % 2 != 0 && s.focus == Focus::Detail ==> cycled_focus(s, delta).focus
            == Focus::List,
{
}

/// The selection in the list of tasks goes as far as told and no further than the
/// first and the last task.
pub proof fn task_selection_moves_as_told(s: AppModel, delta: int, now: Timestamp)
    requires
        0 < app_tasks(s, now).len() <= usize::MAX,
        s.task_cursor.index < app_tasks(s, now).len(),
    ensures
        ({
            let n = app_tasks(s, now).len();
            let i = s.task_cursor.index + delta;
            let r = moved_task_selection(s, delta, now);
            &&& 0 <= i < n ==> r.task_cursor.index == i
            &&& i < 0 ==> r.task_cursor.index == 0
            &&& i >= n ==> r.task_cursor.index == n - 1
            &&& task_selected(r, now) == Some(app_tasks(s, now)[r.task_cursor.index as int])
        }),
{
}

/// The filter of the list of tasks goes from the open to those without progress,
/// to the finished, to all and back; the tasks themselves stay.
pub proof fn next_filter_is_the_one_after(s: AppModel, now: Timestamp)
    ensures
        s.task_filter == TaskFilterMode::Active ==> cycled_task_filter(s, now).task_filter
            == TaskFilterMode::Stale,
        s.task_filter == TaskFilterMode::Stale ==> cycled_task_filter(s, now).task_filter
            == TaskFilterMode::Done,
        s.task_filter == TaskFilterMode::Done ==> cycled_task_filter(s, now).task_filter
            == TaskFilterMode::All,
        s.task_filter == TaskFilterMode::All ==> cycled_task_filter(s, now).task_filter
            == TaskFilterMode::Active,
        cycled_task_filter(s, now).tasks == s.tasks,
        s.task_filter.label()@ == "active"@ <== s.task_filter == TaskFilterMode::Active,
        s.task_filter.label()@ == "stale"@ <== s.task_filter == TaskFilterMode::Stale,
        s.task_filter.label()@ == "done"@ <== s.task_filter == TaskFilterMode::Done,
        s.task_filter.label()@ == "all"@ <== s.task_filter == TaskFilterMode::All,
{
}

/// A cursor that stands within the list of tasks stays; one below it goes to the
/// last task, and in an empty list to the top.
pub proof fn cursor_stays_where_it_can(s: AppModel, now: Timestamp)
    requires
        app_tasks(s, now).len() <= usize::MAX,
    ensures
        ({
            let n = app_tasks(s, now).len();
            let r = with_task_cursor_in_list(s, now);
            &&& s.task_cursor.index < n ==> r == s
            &&& s.task_cursor.index >= n && n > 0 ==> r.task_cursor.index == n - 1
            &&& n == 0 ==> r.task_cursor.index == 0
        }),
{
}

/// The selection in the list of messages goes as far as told and no further than
/// the ends; the newest message is followed exactly where it is selected.
pub proof fn message_selection_moves_as_told(s: AppModel, delta: int)
    requires
        0 < s.messages.len() <= usize::MAX,
    ensures
        ({
            let n = s.messages.len();
            let i = s.messages_cursor.index + delta;
            let r = scrolled_messages(s, delta);
            &&& 0 <= i < n ==> r.messages_cursor.index == i
            &&& i < 0 ==> r.messages_cursor.index == 0
            &&& i >= n ==> r.messages_cursor.index == n - 1
            &&& r.messages_follow_tail <==> r.messages_cursor.index == n - 1
            &&& r.messages == s.messages
        }),
{
}

/// The tail of the messages is the newest and is followed, the head is the oldest
/// and is not; while the newest is followed the cursor goes with it, and otherwise
/// it stays.
pub proof fn newest_message_is_followed(s: AppModel)
    requires
        0 < s.messages.len() <= usize::MAX,
    ensures
        messages_at_tail(s).messages_follow_tail,
        messages_at_tail(s).messages_cursor.index == s.messages.len() - 1,
        !messages_at_head(s).messages_follow_tail,
        messages_at_head(s).messages_cursor.index == 0,
        s.messages_follow_tail ==> with_message_cursor_in_list(s).messages_cursor.index
            == s.messages.len() - 1,
        !s.messages_follow_tail && s.messages_cursor.index < s.messages.len()
            ==> with_message_cursor_in_list(s).messages_cursor == s.messages_cursor,
        with_message_cursor_in_list(s).messages_follow_tail == s.messages_follow_tail,
{
}

/// Usage is listed exactly where it could be read and something was used, whatever
/// kind it was of; one such workspace more is one row more.
pub proof fn only_used_tokens_are_listed(trends: Seq<WorkspaceTrend>, n: int)
    requires
        0 < n <= trends.len(),
    ensures
        ({
            let t = trends[n - 1];
            let used = t.total.input + t.total.output + t.total.cache_read
                + t.total.cache_creation;
            &&& has_usage(t) <==> t.available && used > 0
            &&& usage_rows(trends, n) - usage_rows(trends, n - 1) == if t.available && used > 0 {
                1int
            } else {
                0
            }
            &&& usage_rows(trends, 0) == 0
        }),
{
}

/// Scrolling a mirrored terminal back stops following its end; scrolling on does
/// not start it.
pub proof fn scrolling_back_stops_following(s: AppModel, delta: int)
    ensures
        delta < 0 ==> !scrolled_stream(s, delta).stream_follow_tail,
        delta >= 0 ==> scrolled_stream(s, delta).stream_follow_tail == s.stream_follow_tail,
        0 <= s.stream_cursor.index + delta <= usize::MAX ==> scrolled_stream(
            s,
            delta,
        ).stream_cursor.index == s.stream_cursor.index + delta,
{
}

/// The rows that can be selected are, in order, all that are no headings.
pub proof fn headings_cannot_be_selected(all: Seq<Row>, n: int, i: int)
    requires
        0 <= n <= all.len() <= usize::MAX,
    ensures
        agent_places(all, n).contains(i as usize) && 0 <= i <= usize::MAX <==> 0 <= i < n
            && !all[i].group,
        forall|k: int, l: int|
            #![trigger agent_places(all, n)[k], agent_places(all, n)[l]]
            0 <= k < l < agent_places(all, n).len() ==> agent_places(all, n)[k] < agent_places(
                all,
                n,
            )[l],
        forall|k: int|
            0 <= k < agent_places(all, n).len() ==> (#[trigger] agent_places(all, n)[k]) < n,
    decreases n,
{
    if n > 0 {
        headings_cannot_be_selected(all, n - 1, i);
        let old = agent_places(all, n - 1);
        let new = agent_places(all, n);
        if !all[n - 1].group {
            assert(new[old.len() as int] == n - 1);
            if old.contains(i as usize) {
                let k = choose|k: int| 0 <= k < old.len() && old[k] == i as usize;
                assert(new[k] == i as usize);
            }
            if new.contains(i as usize) && 0 <= i <= usize::MAX {
                let k = choose|k: int| 0 <= k < new.len() && new[k] == i as usize;
                if k < old.len() {
                    assert(old[k] == i as usize);
                }
            }
            assert forall|k: int, l: int|
                #![trigger new[k], new[l]]
                0 <= k < l < new.len() implies new[k] < new[l] by {
                if l < old.len() {
                    assert(old[k] < old[l]);
                } else {
                    assert(old[k] < n - 1);
                }
            }
            assert forall|k: int| 0 <= k < new.len() implies (#[trigger] new[k]) < n by {
                if k < old.len() {
                    assert(old[k] < n - 1);
                }
            }
        } else {
            assert forall|k: int| 0 <= k < new.len() implies (#[trigger] new[k]) < n by {
                assert(old[k] < n - 1);
            }
        }
    }
}

/// The selection in the list of agents goes as many agents on as told, past
/// headings, and no further than the first and the last.
pub proof fn agent_selection_moves_as_told(s: AppModel, k: int, delta: int)
    requires
        s.agent_entries.len() <= usize::MAX,
        0 <= k < selectable(s.agent_entries).len(),
        selectable(s.agent_entries)[k] == s.selected_entry,
    ensures
        ({
            let v = selectable(s.agent_entries);
            let r = moved_selection(s, delta).selected_entry;
            &&& 0 <= k + delta < v.len() ==> r == v[k + delta]
            &&& k + delta < 0 ==> r == v[0]
            &&& k + delta >= v.len() ==> r == v[v.len() - 1]
            &&& moved_selection(s, delta).agent_entries == s.agent_entries
        }),
{
    let all = s.agent_entries;
    headings_cannot_be_selected(all, all.len() as int, 0);
    place_is_found(selectable(all), k);
}

proof fn place_is_found(v: Seq<usize>, k: int)
    requires
        0 <= k < v.len(),
        forall|i: int, j: int| #![trigger v[i], v[j]] 0 <= i < j < v.len() ==> v[i] < v[j],
    ensures
        place_in(v, v[k]) == k,
    decreases v.len(),
{
    let front = v.drop_last();
    if k < v.len() - 1 {
        assert(front[k] == v[k]);
        assert forall|i: int, j: int|
            #![trigger front[i], front[j]]
            0 <= i < j < front.len() implies front[i] < front[j] by {
            assert(v[i] < v[j]);
        }
        place_is_found(front, k);
    } else if front.contains(v[k]) {
        let i = choose|i: int| 0 <= i < front.len() && front[i] == v[k];
        assert(v[i] < v[k]);
    }
}

/// A selection that is an agent stays; one that is not goes to the first agent.
pub proof fn lost_selection_goes_to_the_first(s: AppModel)
    ensures
        ({
            let v = selectable(s.agent_entries);
            let r = with_selectable_entry(s);
            &&& v.contains(s.selected_entry) ==> r == s
            &&& !v.contains(s.selected_entry) && v.len() > 0 ==> r.selected_entry == v[0]
            &&& v.len() == 0 ==> r.selected_entry == 0
        }),
{
    let v = selectable(s.agent_entries);
    if v.contains(s.selected_entry) {
        let i = choose|i: int| 0 <= i < v.len() && v[i] == s.selected_entry;
        assert(v.len() > 0);
    }
}

/// What is selected is the workspace of the selected row, unless that is a heading
/// or there is no such row.
pub proof fn selected_row_names_the_workspace(s: AppModel)
    ensures
        workspace_selected(s) is Some <==> s.selected_entry < s.agent_entries.len()
            && !s.agent_entries[s.selected_entry as int].group,
        workspace_selected(s) is Some ==> workspace_selected(s)->0
            == s.agent_entries[s.selected_entry as int].workspace,
{
}

/// The fields of the form for a task follow each other in this order, and a step
/// back undoes a step on.
pub proof fn fields_follow_each_other(field: CreateTaskField)
    ensures
        next_field(CreateTaskField::Assignee) == CreateTaskField::Title,
        next_field(CreateTaskField::Title) == CreateTaskField::Description,
        next_field(CreateTaskField::Description) == CreateTaskField::Assignee,
        former_field(next_field(field)) == field,
        next_field(former_field(field)) == field,
{
}

/// What is written goes into the active field and into no other, and takes an
/// error back.
pub proof fn text_goes_into_the_active_field(form: TaskForm, text: Seq<char>)
    ensures
        active_text(with_active_text(form, text)) == text,
        with_active_text(form, text).error is None,
        with_active_text(form, text).field == form.field,
        form.field != CreateTaskField::Assignee ==> with_active_text(form, text).assignee
            == form.assignee,
        form.field != CreateTaskField::Title ==> with_active_text(form, text).title == form.title,
        form.field != CreateTaskField::Description ==> with_active_text(form, text).description
            == form.description,
        form.field == CreateTaskField::Assignee ==> with_active_text(form, text).assignee == text,
        form.field == CreateTaskField::Title ==> with_active_text(form, text).title == text,
        form.field == CreateTaskField::Description ==> with_active_text(form, text).description
            == text,
{
}

/// A new form for a task is empty but for the assignee, who is the first workspace
/// that is configured, and it starts with the title.
pub proof fn new_task_form_is_empty(s: AppModel)
    ensures
        ({
            let form = opened_task_form(s).create_task_form;
            &&& form is Some
            &&& form->0.title.len() == 0
            &&& form->0.description.len() == 0
            &&& form->0.field == CreateTaskField::Title
            &&& form->0.error is None
            &&& !form->0.submitting
            &&& s.workspace_dirs.keys@.len() > 0 ==> form->0.assignee
                == s.workspace_dirs.keys@[0]@
            &&& s.workspace_dirs.keys@.len() == 0 ==> form->0.assignee.len() == 0
        }),
{
}

/// A form for a task is complete exactly where the title and the assignee say
/// something, and asks for what stands in it, without white space around it;
/// otherwise what is missing is told, the title first, and nothing is asked for.
pub proof fn task_form_needs_title_and_assignee(s: AppModel, form: TaskForm)
    requires
        s.create_task_form == Some(form),
    ensures
        ({
            let complete = trim(form.title).len() > 0 && trim(form.assignee).len() > 0;
            let r = submitted_task_form(s);
            let shown = r.create_task_form->0;
            &&& r.create_task_form is Some
            &&& task_of_form(form) is Some <==> complete
            &&& complete ==> shown.submitting && shown.error is None
            &&& complete ==> r.pending_task_create is Some && r.pending_task_create->0.title
                == trim(form.title) && r.pending_task_create->0.assignee == trim(form.assignee)
                && r.pending_task_create->0.description == trim(form.description)
            &&& !complete ==> r.pending_task_create == s.pending_task_create && shown.submitting
                == form.submitting
            &&& trim(form.title).len() == 0 ==> shown.error == Some("title is required"@)
            &&& trim(form.title).len() > 0 && trim(form.assignee).len() == 0 ==> shown.error
                == Some("assignee is required"@)
            &&& shown.title == form.title && shown.assignee == form.assignee && shown.description
                == form.description
        }),
{
}

/// A message goes out exactly where it says something, without white space around
/// it; an empty one is told to be missing.
pub proof fn message_form_needs_a_message(s: AppModel)
    requires
        s.orchestrator_message_form is Some,
    ensures
        ({
            let message = trim(s.orchestrator_message_form->0.message);
            let r = submitted_message_form(s);
            let shown = r.orchestrator_message_form->0;
            &&& r.orchestrator_message_form is Some
            &&& message.len() > 0 ==> r.pending_orchestrator_message == Some(message)
                && shown.submitting && shown.error is None
            &&& message.len() == 0 ==> r.pending_orchestrator_message
                == s.pending_orchestrator_message && shown.error == Some("message is required"@)
            &&& shown.message == s.orchestrator_message_form->0.message
            &&& opened_message_form(s).orchestrator_message_form->0.message.len() == 0
            &&& !opened_message_form(s).orchestrator_message_form->0.submitting
        }),
{
}

/// What was read is shown and takes an error back; a file that is not there is
/// read as empty.
pub proof fn reading_replaces_what_was_read(
    s: AppModel,
    tasks: Vec<Task>,
    messages: Vec<HistoryEntry>,
)
    ensures
        with_tasks(s, SnapshotRead::Loaded(tasks)).tasks == tasks@,
        with_tasks(s, SnapshotRead::Loaded(tasks)).task_snapshot_error is None,
        with_tasks(s, SnapshotRead::Missing).tasks.len() == 0,
        with_tasks(s, SnapshotRead::Missing).task_snapshot_error is None,
        with_messages(s, SnapshotRead::Loaded(messages)).messages == messages@,
        with_messages(s, SnapshotRead::Loaded(messages)).messages_snapshot_error is None,
        with_messages(s, SnapshotRead::Missing).messages.len() == 0,
        with_messages(s, SnapshotRead::Missing).messages_snapshot_error is None,
{
}

} // verus!
