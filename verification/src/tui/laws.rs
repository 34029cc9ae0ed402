//! What holds of the view whatever is pressed.

use vstd::prelude::*;

use crate::order::sorted_is_a_stable_sort;
use crate::proto::types::Task;
use crate::time::Timestamp;
use crate::tui::actions::{
    after_each, after_outcome, after_outcomes, moved, selected_action, Outcome,
};
use crate::tui::input::{
    after_activation, after_agents_key, after_body_key, after_bracket, after_detail_key,
    after_global_key, after_key, after_lifecycle_action, after_list_key, after_menu_key,
    after_message_form_key, after_messages_key, after_plain_detail_key, after_scroll,
    after_stream_key, after_task_action, after_task_form_key, after_tasks_key, after_timeline_key,
    after_tokens_key, opened_agent_menu, opened_task_menu, KeyCode, KeyEvent, KeyEventKind, Now,
};
use crate::tui::state::{
    active_text, agent_places, app_tabs, app_tasks, cycled_focus, cycled_task_filter, last_row,
    missing_in_task_form, moved_selection, moved_task_selection, place_in, rebuilt_agents,
    scrolled_messages, selectable, stepped_detail_tab, stepped_stream, submitted_task_form,
    task_of_form, task_selected, with_active_text, with_message_cursor_in_list, with_messages,
    with_task_cursor_in_list, with_tasks, workspace_selected, AppModel, MessageForm, TaskForm,
};
use crate::tui::sidebar::Row;
use crate::tui::stream::tab_index;
use crate::tui::tasks::{listed_tasks, SnapshotRead, TaskFilterMode};

verus! {

/// What is listed, and what is selected in each list, is the same.
pub open spec fn same_lists(a: AppModel, b: AppModel) -> bool {
    &&& a.agent_entries == b.agent_entries
    &&& a.selected_entry == b.selected_entry
    &&& a.tasks == b.tasks
    &&& a.task_filter == b.task_filter
    &&& a.task_cursor == b.task_cursor
    &&& a.messages == b.messages
    &&& a.messages_cursor == b.messages_cursor
    &&& a.usage_trends == b.usage_trends
    &&& a.tokens_cursor == b.tokens_cursor
}

/// A form is open.
pub open spec fn form_open(s: AppModel) -> bool {
    s.create_task_form is Some || s.orchestrator_message_form is Some
}

/// A key that ends the view wherever it is pressed.
pub open spec fn is_control_c(event: KeyEvent) -> bool {
    event.kind != KeyEventKind::Release && event.code == KeyCode::Char('c')
        && event.modifiers.control
}

/// A key that ends the view where no form is open.
pub open spec fn is_q(event: KeyEvent) -> bool {
    event.kind != KeyEventKind::Release && event.code == KeyCode::Char('q')
}

/// A key that goes up does nothing.
pub proof fn released_key_does_nothing(s: AppModel, event: KeyEvent, now: Now)
    requires
        event.kind == KeyEventKind::Release,
    ensures
        after_key(s, event, now) == s,
{
}

/// Control and C end the view, whatever is open.
pub proof fn control_c_always_quits(s: AppModel, event: KeyEvent, now: Now)
    requires
        is_control_c(event),
    ensures
        after_key(s, event, now) == (AppModel { quit: true, ..s }),
{
}

/// The outcomes of an action on an agent touch neither the lists nor what waits
/// to be carried out by others, and never end the view.
pub proof fn outcomes_keep_the_rest(s: AppModel, all: Seq<Outcome>, now: u64)
    ensures
        same_lists(s, after_outcomes(s, all, now)),
        after_outcomes(s, all, now).quit == s.quit,
        after_outcomes(s, all, now).pending_lifecycle == s.pending_lifecycle,
        after_outcomes(s, all, now).pending_task_action == s.pending_task_action,
        after_outcomes(s, all, now).help_open == s.help_open,
{
    each_keeps_the_rest(s, all, now);
}

proof fn each_keeps_the_rest(s: AppModel, all: Seq<Outcome>, now: u64)
    ensures
        same_lists(s, after_each(s, all, now)),
        after_each(s, all, now).quit == s.quit,
        after_each(s, all, now).pending_lifecycle == s.pending_lifecycle,
        after_each(s, all, now).pending_task_action == s.pending_task_action,
        after_each(s, all, now).help_open == s.help_open,
    decreases all.len(),
{
    if all.len() > 0 {
        each_keeps_the_rest(s, all.drop_last(), now);
        reveal(after_outcome);
    }
}

/// While the menu is open no key moves a selection below it or ends the view,
/// and nothing that needs a question is done before it was asked.
pub proof fn menu_shields_the_lists(s: AppModel, event: KeyEvent, now: u64)
    ensures
        same_lists(s, after_menu_key(s, event, now)),
        after_menu_key(s, event, now).quit == s.quit,
        after_menu_key(s, event, now).help_open == s.help_open,
        !s.quick_actions.confirm ==> after_menu_key(s, event, now).pending_lifecycle
            == s.pending_lifecycle,
        !s.quick_actions.confirm ==> {
            let waiting = after_menu_key(s, event, now).pending_task_action;
            waiting == s.pending_task_action || (waiting matches Some(w)
                && !w.action.requires_confirmation())
        },
{
    reveal(after_menu_key);
    reveal(after_activation);
    reveal(after_task_action);
    reveal(after_lifecycle_action);
    match selected_action(s.quick_actions) {
        Some(action) => match workspace_selected(s) {
            Some(target) => {
                outcomes_keep_the_rest(
                    s,
                    crate::tui::actions::selected_outcomes(s.quick_actions, target),
                    now,
                );
            },
            None => {},
        },
        None => {},
    }
}

/// Where the detail has the focus, its keys never change what is selected in a
/// list.
pub proof fn detail_keys_keep_the_lists(s: AppModel, code: KeyCode)
    ensures
        same_lists(s, after_detail_key(s, code)),
        after_detail_key(s, code).quit == s.quit,
        after_detail_key(s, code).stream == s.stream,
{
    reveal(after_detail_key);
    reveal(after_timeline_key);
    reveal(after_plain_detail_key);
}

/// While the help is open every key but those that end the view leaves
/// everything below it as it is.
pub proof fn help_shields_the_rest(s: AppModel, event: KeyEvent, now: Now)
    requires
        s.help_open,
        !form_open(s),
        !is_control_c(event),
        !is_q(event),
    ensures
        after_key(s, event, now) == s || after_key(s, event, now) == (AppModel {
            help_open: false,
            ..s
        }),
{
}

/// A letter goes into the form for a message, even one that means something
/// elsewhere.
pub proof fn letters_go_into_the_message(s: AppModel, event: KeyEvent, now: Now, c: char)
    requires
        event.kind != KeyEventKind::Release,
        event.code == KeyCode::Char(c),
        !event.modifiers.control,
        !event.modifiers.alt,
        s.orchestrator_message_form matches Some(form) && !form.submitting,
    ensures
        after_key(s, event, now) == (AppModel {
            orchestrator_message_form: Some(
                MessageForm {
                    message: s.orchestrator_message_form->0.message.push(c),
                    error: None,
                    ..s.orchestrator_message_form->0
                },
            ),
            ..s
        }),
{
    reveal(after_message_form_key);
}

/// A letter goes into the form for a new task, even one that means something
/// elsewhere.
pub proof fn letters_go_into_the_task(s: AppModel, event: KeyEvent, now: Now, c: char)
    requires
        event.kind != KeyEventKind::Release,
        event.code == KeyCode::Char(c),
        !event.modifiers.control,
        !event.modifiers.alt,
        s.orchestrator_message_form is None,
        s.create_task_form matches Some(form) && !form.submitting,
    ensures
        after_key(s, event, now) == (AppModel {
            create_task_form: Some(
                with_active_text(
                    s.create_task_form->0,
                    active_text(s.create_task_form->0).push(c),
                ),
            ),
            ..s
        }),
{
    reveal(after_task_form_key);
}

/// A form that waits for its answer takes no more keys.
pub proof fn waiting_form_takes_no_keys(s: AppModel, event: KeyEvent, now: Now)
    requires
        !is_control_c(event),
        match s.orchestrator_message_form {
            Some(form) => form.submitting,
            None => s.create_task_form matches Some(form) && form.submitting,
        },
    ensures
        after_key(s, event, now) == s,
{
    reveal(after_message_form_key);
    reveal(after_task_form_key);
}

/// Only Control and C, or Q where no form is open, end the view.
pub proof fn only_quit_keys_quit(s: AppModel, event: KeyEvent, now: Now)
    requires
        !s.quit,
        after_key(s, event, now).quit,
    ensures
        is_control_c(event) || (is_q(event) && !form_open(s)),
{
    reveal(after_message_form_key);
    reveal(after_task_form_key);
    menu_shields_the_lists(s, event, now.ticks);
    body_key_never_quits(s, event.code, now);
}

proof fn body_key_never_quits(s: AppModel, code: KeyCode, now: Now)
    ensures
        after_body_key(s, code, now).quit == s.quit,
        after_body_key(s, code, now).pending_lifecycle == s.pending_lifecycle,
        after_body_key(s, code, now).pending_task_action == s.pending_task_action,
{
    reveal(after_body_key);
    reveal(after_global_key);
    reveal(after_bracket);
    reveal(after_list_key);
    reveal(after_agents_key);
    reveal(after_tasks_key);
    reveal(after_messages_key);
    reveal(after_tokens_key);
    reveal(after_stream_key);
    reveal(after_detail_key);
    reveal(after_timeline_key);
    reveal(after_plain_detail_key);
    reveal(opened_agent_menu);
    reveal(opened_task_menu);
}

/// An agent is restarted or stopped, and a task cancelled, only after the
/// question was put and answered in the menu.
pub proof fn nothing_drastic_without_a_question(s: AppModel, event: KeyEvent, now: Now)
    requires
        !(s.quick_actions.open && s.quick_actions.confirm),
    ensures
        after_key(s, event, now).pending_lifecycle == s.pending_lifecycle,
        ({
            let waiting = after_key(s, event, now).pending_task_action;
            waiting == s.pending_task_action || (waiting matches Some(w)
                && !w.action.requires_confirmation())
        }),
{
    reveal(after_message_form_key);
    reveal(after_task_form_key);
    if s.quick_actions.open {
        menu_shields_the_lists(s, event, now.ticks);
    }
    body_key_never_quits(s, event.code, now);
}

proof fn places_are_agents(rows: Seq<Row>, n: int, x: usize)
    requires
        0 <= n <= rows.len(),
        rows.len() <= usize::MAX,
        agent_places(rows, n).contains(x),
    ensures
        x < n,
        !rows[x as int].group,
    decreases n,
{
    if n > 0 {
        let now = agent_places(rows, n);
        let earlier = agent_places(rows, n - 1);
        let j = choose|j: int| 0 <= j < now.len() && now[j] == x;
        if j < earlier.len() {
            assert(earlier[j] == x);
            places_are_agents(rows, n - 1, x);
        }
    }
}

/// What is selected is an agent and no heading, as long as there is an agent at
/// all: after the rows were built anew, and wherever the selection is moved.
pub proof fn selection_is_an_agent(s: AppModel, delta: int)
    requires
        s.agent_entries.len() <= usize::MAX,
        rebuilt_agents(s).agent_entries.len() <= usize::MAX,
    ensures
        selectable(s.agent_entries).len() > 0 ==> workspace_selected(moved_selection(s, delta))
            is Some,
        selectable(rebuilt_agents(s).agent_entries).len() > 0 ==> workspace_selected(
            rebuilt_agents(s),
        ) is Some,
{
    let v = selectable(s.agent_entries);
    if v.len() > 0 {
        place_in_range(v, s.selected_entry);
        let x = v[moved(place_in(v, s.selected_entry), delta, v.len() - 1)];
        assert(v.contains(x));
        places_are_agents(s.agent_entries, s.agent_entries.len() as int, x);
    }
    let t = rebuilt_agents(s);
    let w = selectable(t.agent_entries);
    if w.len() > 0 {
        assert(w.contains(w[0]));
        assert(w.contains(t.selected_entry));
        places_are_agents(t.agent_entries, t.agent_entries.len() as int, t.selected_entry);
    }
}

proof fn place_in_range(v: Seq<usize>, x: usize)
    requires
        v.len() > 0,
    ensures
        0 <= place_in(v, x) < v.len(),
    decreases v.len(),
{
    if v.drop_last().contains(x) {
        place_in_range(v.drop_last(), x);
    }
}

/// The cursor of the list of tasks is on a task, as long as one is listed: after
/// the selection moved, after another filter was chosen, and after the list was
/// read anew.
pub proof fn task_cursor_is_on_a_task(s: AppModel, delta: int, now: Timestamp)
    requires
        s.tasks.len() <= usize::MAX,
    ensures
        app_tasks(s, now).len() > 0 ==> task_selected(moved_task_selection(s, delta, now), now)
            is Some,
        app_tasks(s, now).len() > 0 ==> task_selected(with_task_cursor_in_list(s, now), now)
            is Some,
        app_tasks(cycled_task_filter(s, now), now).len() > 0 ==> task_selected(
            cycled_task_filter(s, now),
            now,
        ) is Some,
{
    no_more_listed_than_there_are(s.tasks, s.task_filter, now);
    no_more_listed_than_there_are(s.tasks, s.task_filter.next(), now);
    sorted_is_a_stable_sort(listed_tasks(s.tasks, s.task_filter, now));
    sorted_is_a_stable_sort(listed_tasks(s.tasks, s.task_filter.next(), now));
}

/// A filter lists no more tasks than there are.
pub proof fn no_more_listed_than_there_are(tasks: Seq<Task>, mode: TaskFilterMode, now: Timestamp)
    ensures
        listed_tasks(tasks, mode, now).len() <= tasks.len(),
    decreases tasks.len(),
{
    if tasks.len() > 0 {
        no_more_listed_than_there_are(tasks.drop_last(), mode, now);
    }
}

/// The cursor of the list of messages is on a message, as long as there is one,
/// and the newest message is followed exactly while it is selected.
pub proof fn message_cursor_is_on_a_message(s: AppModel, delta: int)
    requires
        0 < s.messages.len() <= usize::MAX,
    ensures
        scrolled_messages(s, delta).messages_cursor.index < s.messages.len(),
        scrolled_messages(s, delta).messages_follow_tail
            == (scrolled_messages(s, delta).messages_cursor == last_row(s.messages.len() as int)),
        with_message_cursor_in_list(s).messages_cursor.index < s.messages.len(),
        s.messages_follow_tail ==> with_message_cursor_in_list(s).messages_cursor == last_row(
            s.messages.len() as int,
        ),
{
}

proof fn on_and_back(i: int, n: int)
    requires
        0 <= i < n,
    ensures
        ((i + 1) % n - 1) % n == i,
        ((i - 1) % n + 1) % n == i,
{
    if i + 1 == n {
        assert((i + 1) % n == 0) by (nonlinear_arith)
            requires
                i + 1 == n,
                n > 0,
        ;
        assert((0 - 1) % n == n - 1) by (nonlinear_arith)
            requires
                n > 0,
        ;
    } else {
        vstd::arithmetic::div_mod::lemma_small_mod((i + 1) as nat, n as nat);
    }
    vstd::arithmetic::div_mod::lemma_small_mod(i as nat, n as nat);
    if i == 0 {
        assert((0 - 1) % n == n - 1) by (nonlinear_arith)
            requires
                n > 0,
        ;
        assert(((n - 1) + 1) % n == 0) by (nonlinear_arith)
            requires
                n > 0,
        ;
    } else {
        vstd::arithmetic::div_mod::lemma_small_mod((i - 1) as nat, n as nat);
    }
}

/// One view on and one view back leads to where it started, in either order.
pub proof fn views_go_round(s: AppModel, now: Timestamp)
    requires
        app_tabs(s).contains(s.stream),
    ensures
        stepped_stream(stepped_stream(s, 1, now), -1, now).stream == s.stream,
        stepped_stream(stepped_stream(s, -1, now), 1, now).stream == s.stream,
        app_tabs(s).contains(stepped_stream(s, 1, now).stream),
        app_tabs(s).contains(stepped_stream(s, -1, now).stream),
{
    let tabs = app_tabs(s);
    let n = tabs.len() as int;
    assert(n == 4 || n == 5);
    let i = tab_index(s.stream) as int;
    assert(tabs[i] == s.stream) by {
        let j = choose|j: int| 0 <= j < tabs.len() && tabs[j] == s.stream;
        assert(tab_index(tabs[j]) == j);
    }
    assert(0 <= i < n);
    assert(tabs.contains(tabs[(i + 1) % n]));
    assert(tabs.contains(tabs[(i - 1) % n]));
    assert(tab_index(tabs[(i + 1) % n]) == (i + 1) % n);
    assert(tab_index(tabs[(i - 1) % n]) == (i - 1) % n);
    on_and_back(i, n);
}

/// One tab of the detail on and one back leads to where it started, in either
/// order.
pub proof fn detail_tabs_go_round(s: AppModel)
    ensures
        stepped_detail_tab(stepped_detail_tab(s, 1), -1).agent_detail_tab == s.agent_detail_tab,
        stepped_detail_tab(stepped_detail_tab(s, -1), 1).agent_detail_tab == s.agent_detail_tab,
{
}

/// The key for the focus leads to the other half and back.
pub proof fn focus_goes_to_and_fro(s: AppModel)
    ensures
        cycled_focus(s, 1).focus != s.focus,
        cycled_focus(cycled_focus(s, 1), 1).focus == s.focus,
        cycled_focus(s, -1).focus == cycled_focus(s, 1).focus,
{
}

/// What was read last stays when it cannot be read anew, and the reason is told.
pub proof fn unreadable_keeps_what_was_read(s: AppModel, why: String)
    ensures
        with_tasks(s, SnapshotRead::Error(why)).tasks == s.tasks,
        with_tasks(s, SnapshotRead::Error(why)).task_snapshot_error == Some(why@),
        with_messages(s, SnapshotRead::Error(why)).messages == s.messages,
        with_messages(s, SnapshotRead::Error(why)).messages_snapshot_error == Some(why@),
{
}

/// A new task is asked for exactly when the form lacks nothing, and the form
/// stays open until the answer comes.
pub proof fn task_is_asked_for_when_complete(s: AppModel, form: TaskForm)
    requires
        s.create_task_form == Some(form),
        s.pending_task_create is None,
    ensures
        submitted_task_form(s).create_task_form is Some,
        (submitted_task_form(s).pending_task_create is Some) == (missing_in_task_form(form)
            is None),
        submitted_task_form(s).pending_task_create == task_of_form(form),
{
}

/// The mouse wheel moves nothing while the menu or the help is open.
pub proof fn wheel_respects_what_is_open(s: AppModel, direction: int, now: Timestamp)
    requires
        s.quick_actions.open || s.help_open,
    ensures
        after_scroll(s, direction, now) == s,
{
    reveal(after_scroll);
}

} // verus!
