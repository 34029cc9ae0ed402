//! What each key does.

use vstd::prelude::*;

use crate::proto::types::TaskStatus;
use crate::time::Timestamp;
use crate::tui::actions::QuickActionId;
use crate::tui::input::{
    after_activation, after_agents_key, after_body_key, after_bracket, after_detail_key,
    after_global_key, after_key, after_lifecycle_action, after_list_key, after_menu_key,
    after_message_form_key, after_messages_key, after_plain_detail_key, after_scroll,
    after_stream_key, after_task_action, after_task_form_key, after_tasks_key, after_timeline_key,
    after_tokens_key, edited, is_down, is_end, is_home, is_up, opened_agent_menu, opened_task_menu,
    scroll_step, selected_has_session, KeyCode, KeyEvent, KeyEventKind, Now,
};
use crate::tui::state::{
    cycled_focus, cycled_task_filter, messages_at_head, messages_at_tail, moved_selection,
    moved_task_selection, next_field, opened_message_form, opened_task_form, scrolled_messages,
    scrolled_stream, selected_stream, shifted, stepped_detail_tab, stepped_stream,
    submitted_message_form, submitted_task_form, task_selected, with_visible_view,
    workspace_selected, AgentDetailTab, AppModel, Focus, TaskForm,
};
use crate::tui::stream::StreamView;
use crate::tui::tasks::short_id;

verus! {

/// A key that scrolls goes one line up or down, or ten for a page.
pub proof fn scrolling_keys_go_one_line_or_ten(code: KeyCode)
    ensures
        scroll_step(code) == Some(-1int) <==> code == KeyCode::Up || code == KeyCode::Char('k'),
        scroll_step(code) == Some(1int) <==> code == KeyCode::Down || code == KeyCode::Char('j'),
        scroll_step(code) == Some(-10int) <==> code == KeyCode::PageUp,
        scroll_step(code) == Some(10int) <==> code == KeyCode::PageDown,
        is_home(code) <==> code == KeyCode::Home || code == KeyCode::Char('g'),
        is_end(code) <==> code == KeyCode::End || code == KeyCode::Char('G'),
        scroll_step(code) is Some <==> is_up(code) || is_down(code) || code == KeyCode::PageUp
            || code == KeyCode::PageDown,
{
}

/// A letter is written at the end of a text, backspace takes the last character
/// away, and delete and control with `u` everything; no other key edits.
pub proof fn letters_are_written_at_the_end(text: Seq<char>, event: KeyEvent, c: char)
    ensures
        event.code == KeyCode::Char(c) && !event.modifiers.control && !event.modifiers.alt
            ==> edited(text, event) == Some(text.push(c)),
        event.code == KeyCode::Backspace && text.len() > 0 ==> edited(text, event) == Some(
            text.drop_last(),
        ),
        event.code == KeyCode::Backspace && text.len() == 0 ==> edited(text, event) == Some(text),
        event.code == KeyCode::Delete ==> edited(text, event) is Some && edited(
            text,
            event,
        )->0.len() == 0,
        event.code == KeyCode::Char('u') && event.modifiers.control ==> edited(text, event) is Some
            && edited(text, event)->0.len() == 0,
        event.code == KeyCode::Char(c) && c != 'u' && (event.modifiers.control
            || event.modifiers.alt) ==> edited(text, event) is None,
        !(event.code is Char) && event.code != KeyCode::Backspace && event.code != KeyCode::Delete
            ==> edited(text, event) is None,
{
}

/// In the form for a task tab and down go to the next field, the other way round
/// back, escape leaves the form, and enter hands it in.
pub proof fn task_form_keys(s: AppModel, form: TaskForm, event: KeyEvent)
    requires
        s.create_task_form == Some(form),
        !form.submitting,
    ensures
        event.code == KeyCode::Esc ==> after_task_form_key(s, event).create_task_form is None,
        event.code == KeyCode::Enter ==> after_task_form_key(s, event) == submitted_task_form(s),
        event.code == KeyCode::Tab || event.code == KeyCode::Down ==> after_task_form_key(
            s,
            event,
        ).create_task_form is Some && next_field(form.field) == after_task_form_key(
            s,
            event,
        ).create_task_form->0.field,
        event.code == KeyCode::BackTab || event.code == KeyCode::Up ==> after_task_form_key(
            s,
            event,
        ).create_task_form is Some && next_field(
            after_task_form_key(s, event).create_task_form->0.field,
        ) == form.field,
        event.code != KeyCode::Enter ==> after_task_form_key(s, event).pending_task_create
            == s.pending_task_create,
{
    reveal(after_task_form_key);
}

/// In the form for a message escape leaves it and enter hands it in; nothing is
/// sent by any other key.
pub proof fn message_form_keys(s: AppModel, event: KeyEvent)
    requires
        s.orchestrator_message_form is Some,
        !s.orchestrator_message_form->0.submitting,
    ensures
        event.code == KeyCode::Esc ==> after_message_form_key(
            s,
            event,
        ).orchestrator_message_form is None,
        event.code == KeyCode::Enter ==> after_message_form_key(s, event)
            == submitted_message_form(s),
        event.code != KeyCode::Enter ==> after_message_form_key(
            s,
            event,
        ).pending_orchestrator_message == s.pending_orchestrator_message,
        event.code != KeyCode::Enter && event.code != KeyCode::Esc ==> after_message_form_key(
            s,
            event,
        ).orchestrator_message_form is Some,
{
    reveal(after_message_form_key);
}

/// The menu of an agent is about the selected workspace and starts at its top;
/// where none is selected an error is told and no menu opens.
pub proof fn agent_menu_is_about_the_selected(s: AppModel, now: u64)
    ensures
        ({
            let r = opened_agent_menu(s, now);
            &&& workspace_selected(s) is Some ==> r.quick_actions.open
                && r.quick_actions.target_workspace == workspace_selected(s)->0
                && r.quick_actions.selected == 0 && !r.quick_actions.confirm
                && r.quick_actions.target_task_id.len() == 0 && r.quick_notice is None
            &&& workspace_selected(s) is None ==> r.quick_actions == s.quick_actions
                && r.quick_notice is Some && r.quick_notice->0.error
            &&& selected_has_session(s) <==> s.selected_entry < s.agent_entries.len()
                && s.agent_entries[s.selected_entry as int].session_index is Some
            &&& workspace_selected(s) is Some ==> (r.quick_actions.actions.len() == 6
                <==> selected_has_session(s))
        }),
{
    reveal(opened_agent_menu);
}

/// The menu of a task is about the selected task and the version of it that is
/// shown; none opens for a task that is finished or where none is selected.
pub proof fn task_menu_is_about_the_selected(s: AppModel, now: Now)
    ensures
        ({
            let r = opened_task_menu(s, now);
            let task = task_selected(s, now.utc);
            let open = task is Some && (task->0.status == TaskStatus::Pending || task->0.status
                == TaskStatus::InProgress || task->0.status == TaskStatus::Blocked);
            &&& open ==> r.quick_actions.open && r.quick_actions.target_task_id == task->0.id@
                && r.quick_actions.target_task_version == task->0.version
                && r.quick_actions.selected == 0 && !r.quick_actions.confirm && r.quick_notice is None
            &&& !open ==> r.quick_actions == s.quick_actions && r.quick_notice is Some
                && r.quick_notice->0.error
        }),
{
    reveal(opened_task_menu);
}

/// An action on a task waits to be carried out on the task that the menu is about,
/// once it needs no question or that was answered; until then only the question is
/// put.
pub proof fn task_actions_are_about_the_menus_task(s: AppModel, id: QuickActionId, now: u64)
    ensures
        ({
            let r = after_task_action(s, id, now);
            let asks = id.requires_confirmation() && !s.quick_actions.confirm;
            let about = s.quick_actions.target_task_id.len() > 0;
            &&& asks ==> r.quick_actions.confirm && r.pending_task_action == s.pending_task_action
                && r.quick_actions.open == s.quick_actions.open
            &&& !asks && about ==> r.pending_task_action is Some && r.pending_task_action->0.action
                == id && r.pending_task_action->0.task_id == s.quick_actions.target_task_id
                && r.pending_task_action->0.expected_version == s.quick_actions.target_task_version
            &&& !asks ==> !r.quick_actions.open
            &&& !asks && !about ==> r.pending_task_action == s.pending_task_action
            &&& !asks && about ==> r.quick_notice is Some && !r.quick_notice->0.error
                && !r.quick_actions.confirm
        }),
{
    reveal(after_task_action);
}

/// A restart or stop waits to be carried out on the workspace that is meant, once
/// the question before it was answered.
pub proof fn lifecycle_needs_an_answer(
    s: AppModel,
    id: QuickActionId,
    target: Seq<char>,
    now: u64,
)
    ensures
        ({
            let r = after_lifecycle_action(s, id, target, now);
            &&& !s.quick_actions.confirm ==> r.quick_actions.confirm && r.pending_lifecycle
                == s.pending_lifecycle
            &&& s.quick_actions.confirm ==> r.pending_lifecycle is Some
                && r.pending_lifecycle->0.action == id && r.pending_lifecycle->0.workspace == target
                && !r.quick_actions.open && !r.quick_actions.confirm && r.quick_notice is Some
                && !r.quick_notice->0.error
        }),
{
    reveal(after_lifecycle_action);
}

/// In a menu escape closes it and takes a question back, the arrows move by one,
/// enter chooses, and no other key does anything.
pub proof fn menu_keys(s: AppModel, event: KeyEvent, now: u64)
    requires
        0 < s.quick_actions.actions.len() <= usize::MAX,
        s.quick_actions.selected < s.quick_actions.actions.len(),
    ensures
        ({
            let r = after_menu_key(s, event, now);
            let at = s.quick_actions.selected;
            &&& event.code == KeyCode::Esc ==> !r.quick_actions.open && !r.quick_actions.confirm
            &&& is_up(event.code) ==> r.quick_actions.selected == if at > 0 {
                at - 1
            } else {
                0
            }
            &&& is_down(event.code) ==> r.quick_actions.selected == if at + 1
                < s.quick_actions.actions.len() {
                at + 1
            } else {
                at as int
            }
            &&& is_up(event.code) || is_down(event.code) ==> r.quick_actions.open
                == s.quick_actions.open && !r.quick_actions.confirm
            &&& event.code == KeyCode::Enter ==> r == after_activation(s, now)
            &&& event.code != KeyCode::Esc && event.code != KeyCode::Enter && !is_up(event.code)
                && !is_down(event.code) ==> r == s
        }),
{
    reveal(after_menu_key);
}

/// Enter in a menu leads to the selected action: to one on a task, to a restart or
/// stop of the selected workspace, or to what else is chosen for it.
pub proof fn enter_chooses_the_selected(s: AppModel, now: u64)
    requires
        s.quick_actions.selected < s.quick_actions.actions.len(),
    ensures
        ({
            let id = s.quick_actions.actions[s.quick_actions.selected as int].id;
            let r = after_activation(s, now);
            &&& (id == QuickActionId::TaskWake || id == QuickActionId::TaskInterrupt || id
                == QuickActionId::TaskRetry || id == QuickActionId::TaskCancel) ==> r
                == after_task_action(s, id, now)
            &&& (id == QuickActionId::Restart || id == QuickActionId::Stop) && workspace_selected(
                s,
            ) is Some ==> r == after_lifecycle_action(s, id, workspace_selected(s)->0, now)
            &&& !id.is_task_action() && workspace_selected(s) is None ==> !r.quick_actions.open
                && r.pending_lifecycle == s.pending_lifecycle && r.pending_interrupt
                == s.pending_interrupt
        }),
{
    reveal(after_activation);
}

/// A bracket turns to another tab of an agent's detail where that has the focus,
/// and else to another view.
pub proof fn brackets_turn_tabs(s: AppModel, delta: int, now: Timestamp)
    ensures
        s.focus == Focus::Detail && s.stream == StreamView::Agents ==> after_bracket(s, delta, now)
            == stepped_detail_tab(s, delta),
        s.focus == Focus::List || s.stream != StreamView::Agents ==> after_bracket(s, delta, now)
            == stepped_stream(s, delta, now),
{
    reveal(after_bracket);
}

/// The arrows move the selection of the list that is shown by one, in its
/// direction; enter opens the menu of what is selected, and `n` among the tasks a
/// form for a new one.
pub proof fn list_keys_move_the_shown_list(s: AppModel, code: KeyCode, now: Now)
    ensures
        ({
            let r = after_list_key(s, code, now);
            let up = code == KeyCode::Up || code == KeyCode::Char('k');
            let down = code == KeyCode::Down || code == KeyCode::Char('j');
            &&& s.stream == StreamView::Agents && up ==> r == moved_selection(s, -1)
            &&& s.stream == StreamView::Agents && down ==> r == moved_selection(s, 1)
            &&& s.stream == StreamView::Agents && code == KeyCode::Enter ==> r == opened_agent_menu(
                s,
                now.ticks,
            )
            &&& s.stream == StreamView::Tasks && up ==> r == moved_task_selection(s, -1, now.utc)
            &&& s.stream == StreamView::Tasks && down ==> r == moved_task_selection(s, 1, now.utc)
            &&& s.stream == StreamView::Tasks && code == KeyCode::Enter ==> r == opened_task_menu(
                s,
                now,
            )
            &&& s.stream == StreamView::Tasks && code == KeyCode::Char('n') ==> r
                == opened_task_form(s)
            &&& s.stream == StreamView::Messages && up ==> r == scrolled_messages(s, -1)
            &&& s.stream == StreamView::Messages && down ==> r == scrolled_messages(s, 1)
            &&& s.stream == StreamView::Messages && code == KeyCode::PageUp ==> r
                == scrolled_messages(s, -10)
            &&& s.stream == StreamView::Messages && code == KeyCode::PageDown ==> r
                == scrolled_messages(s, 10)
            &&& s.stream == StreamView::Messages && is_home(code) ==> r == messages_at_head(s)
            &&& s.stream == StreamView::Messages && is_end(code) ==> r == messages_at_tail(s)
            &&& s.stream == StreamView::Tokens && up ==> r.tokens_cursor == shifted(
                s.tokens_cursor,
                -1,
            )
            &&& s.stream == StreamView::Tokens && down ==> r.tokens_cursor == shifted(
                s.tokens_cursor,
                1,
            )
            &&& s.stream == StreamView::Tokens && is_home(code) ==> r.tokens_cursor.index == 0
            &&& s.stream == StreamView::Stream && up ==> r == scrolled_stream(s, -1)
            &&& s.stream == StreamView::Stream && down ==> r == scrolled_stream(s, 1)
            &&& s.stream == StreamView::Stream && is_home(code) ==> !r.stream_follow_tail
            &&& s.stream == StreamView::Stream && is_end(code) ==> r.stream_follow_tail
        }),
{
    reveal(after_list_key);
    reveal(after_agents_key);
    reveal(after_tasks_key);
    reveal(after_messages_key);
    reveal(after_tokens_key);
    reveal(after_stream_key);
}

/// In the detail the arrows scroll by one and pages by ten, `h` and `l` turn to
/// the tab before and after, and escape gives the focus back to the list. Going up
/// stops following the end of messages and activity, and going to the end starts
/// it.
pub proof fn detail_keys_scroll_the_detail(s: AppModel, code: KeyCode)
    ensures
        ({
            let r = after_detail_key(s, code);
            let agents = s.stream == StreamView::Agents;
            let timeline = agents && (s.agent_detail_tab == AgentDetailTab::Messages
                || s.agent_detail_tab == AgentDetailTab::Activity);
            &&& agents && code == KeyCode::Char('h') ==> r == stepped_detail_tab(s, -1)
            &&& agents && code == KeyCode::Char('l') ==> r == stepped_detail_tab(s, 1)
            &&& is_up(code) ==> r.detail_scroll == shifted(s.detail_scroll, -1)
            &&& is_down(code) ==> r.detail_scroll == shifted(s.detail_scroll, 1)
            &&& code == KeyCode::PageUp ==> r.detail_scroll == shifted(s.detail_scroll, -10)
            &&& code == KeyCode::PageDown ==> r.detail_scroll == shifted(s.detail_scroll, 10)
            &&& is_home(code) ==> r.detail_scroll.index == 0
            &&& code == KeyCode::Esc ==> r.focus == Focus::List
            &&& timeline && (is_up(code) || code == KeyCode::PageUp || is_home(code))
                ==> !r.agent_detail_follow_tail
            &&& timeline && (is_down(code) || code == KeyCode::PageDown)
                ==> r.agent_detail_follow_tail == s.agent_detail_follow_tail
            &&& timeline && is_end(code) ==> r.agent_detail_follow_tail
            &&& !timeline && !(agents && (code == KeyCode::Char('h') || code == KeyCode::Char(
                'l',
            ))) ==> r.agent_detail_follow_tail == s.agent_detail_follow_tail
        }),
{
    reveal(after_detail_key);
    reveal(after_timeline_key);
    reveal(after_plain_detail_key);
}

/// Everywhere in the body a question mark opens the help, tab turns the focus, the
/// digits show the views, brackets turn tabs, `f` turns the filter of tasks, `m`
/// opens a form for a message and `r` reads everything anew; no other key means
/// the same everywhere.
pub proof fn global_keys(s: AppModel, code: KeyCode, now: Now)
    ensures
        ({
            let r = after_global_key(s, code, now);
            &&& code == KeyCode::Char('?') ==> r is Some && r->0.help_open
            &&& code == KeyCode::Tab ==> r == Some(cycled_focus(s, 1))
            &&& code == KeyCode::BackTab ==> r == Some(cycled_focus(s, -1))
            &&& code == KeyCode::Char('[') ==> r == Some(after_bracket(s, -1, now.utc))
            &&& code == KeyCode::Char(']') ==> r == Some(after_bracket(s, 1, now.utc))
            &&& code == KeyCode::Char('1') ==> r == Some(selected_stream(s, 0))
            &&& code == KeyCode::Char('2') ==> r == Some(selected_stream(s, 1))
            &&& code == KeyCode::Char('3') ==> r == Some(selected_stream(s, 2))
            &&& code == KeyCode::Char('4') ==> r == Some(selected_stream(s, 3))
            &&& code == KeyCode::Char('5') ==> r == Some(selected_stream(s, 4))
            &&& code == KeyCode::Char('f') ==> r == Some(cycled_task_filter(s, now.utc))
            &&& code == KeyCode::Char('m') ==> r == Some(opened_message_form(s))
            &&& code == KeyCode::Char('r') ==> r is Some && r->0.force_refresh
                && r->0.quick_notice is Some && !r->0.quick_notice->0.error
            &&& r is Some ==> code == KeyCode::Char('?') || code == KeyCode::Tab || code
                == KeyCode::BackTab || code == KeyCode::Char('[') || code == KeyCode::Char(']')
                || code == KeyCode::Char('1') || code == KeyCode::Char('2') || code
                == KeyCode::Char('3') || code == KeyCode::Char('4') || code == KeyCode::Char('5')
                || code == KeyCode::Char('f') || code == KeyCode::Char('m') || code
                == KeyCode::Char('r')
        }),
{
    reveal(after_global_key);
}

/// A key that does not mean the same everywhere goes to the half of the body that
/// has the focus.
pub proof fn focus_gets_the_key(s: AppModel, code: KeyCode, now: Now)
    requires
        with_visible_view(s) == s,
        after_global_key(s, code, now) is None,
    ensures
        s.focus == Focus::List ==> after_body_key(s, code, now) == after_list_key(s, code, now),
        s.focus == Focus::Detail ==> after_body_key(s, code, now) == after_detail_key(s, code),
{
    reveal(after_body_key);
}

/// While no form is open, the help is closed by the key that opened it or by
/// escape, and by no other; an open menu gets the keys, and else the body.
pub proof fn what_is_open_gets_the_key(s: AppModel, event: KeyEvent, now: Now)
    requires
        event.kind != KeyEventKind::Release,
        s.orchestrator_message_form is None,
        s.create_task_form is None,
        event.code != KeyCode::Char('q'),
        !(event.code == KeyCode::Char('c') && event.modifiers.control),
    ensures
        s.help_open ==> (after_key(s, event, now).help_open <==> event.code != KeyCode::Char('?')
            && event.code != KeyCode::Esc),
        !s.help_open && s.quick_actions.open ==> after_key(s, event, now) == after_menu_key(
            s,
            event,
            now.ticks,
        ),
        !s.help_open && !s.quick_actions.open ==> after_key(s, event, now) == after_body_key(
            s,
            event.code,
            now,
        ),
{
}

/// The wheel moves what the arrows move, in the same direction.
pub proof fn wheel_moves_like_the_arrows(s: AppModel, now: Now)
    requires
        with_visible_view(s) == s,
        !s.quick_actions.open,
        !s.help_open,
        s.focus == Focus::List,
    ensures
        after_scroll(s, -1, now.utc) == after_list_key(s, KeyCode::Up, now),
        after_scroll(s, 1, now.utc) == after_list_key(s, KeyCode::Down, now),
{
    reveal(after_scroll);
    reveal(after_list_key);
    reveal(after_agents_key);
    reveal(after_tasks_key);
    reveal(after_messages_key);
    reveal(after_tokens_key);
    reveal(after_stream_key);
}

/// What is told after a key names what it is about.
pub proof fn notices_name_what_they_are_about(
    s: AppModel,
    id: QuickActionId,
    target: Seq<char>,
    now: Now,
)
    ensures
        workspace_selected(s) is None ==> opened_agent_menu(s, now.ticks).quick_notice->0.text
            == "No workspace selected"@,
        task_selected(s, now.utc) is None ==> opened_task_menu(s, now).quick_notice->0.text
            == "No task selected"@,
        task_selected(s, now.utc) is Some && (task_selected(s, now.utc)->0.status
            == TaskStatus::Completed || task_selected(s, now.utc)->0.status == TaskStatus::Failed
            || task_selected(s, now.utc)->0.status == TaskStatus::Cancelled) ==> opened_task_menu(
            s,
            now,
        ).quick_notice->0.text == "No remediation actions for task "@ + short_id(
            task_selected(s, now.utc)->0.id@,
        ),
        s.quick_actions.confirm ==> after_lifecycle_action(
            s,
            id,
            target,
            now.ticks,
        ).quick_notice->0.text == id.label()@ + " requested for "@ + target,
        s.quick_actions.confirm && s.quick_actions.target_task_id.len() > 0 ==> after_task_action(
            s,
            id,
            now.ticks,
        ).quick_notice->0.text == id.label()@ + " requested for "@ + short_id(
            s.quick_actions.target_task_id,
        ),
        after_global_key(s, KeyCode::Char('r'), now)->0.quick_notice->0.text
            == "refresh requested"@,
{
    reveal(opened_agent_menu);
    reveal(opened_task_menu);
    reveal(after_lifecycle_action);
    reveal(after_task_action);
    reveal(after_global_key);
}

} // verus!
