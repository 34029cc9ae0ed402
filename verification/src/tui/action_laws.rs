//! What holds of every menu and of what its actions do.

use vstd::prelude::*;

use crate::proto::types::{AgentStatus, TaskPriority, TaskStatus};
use crate::text::trim;
use crate::tui::actions::{
    actions_on_task, after_each, after_outcome, after_outcomes, agent_actions, closed_menu,
    confirm_text, menu_moved, moved, notice, selected_outcomes, tried_lifecycle, Menu, Outcome,
    QuickAction, QuickActionId,
};
use crate::tui::state::AppModel;
use crate::tui::stream::{newest, numbered_lines, tab_views, StreamView};
use crate::tui::theme::{self, git_state_style, Color, Severity, Style};

verus! {

/// The menu holds the action.
pub open spec fn offers(actions: Seq<QuickAction>, id: QuickActionId) -> bool {
    exists|i: int| 0 <= i < actions.len() && (#[trigger] actions[i]).id == id
}

/// On an agent with a session everything can be done that concerns a session; on
/// one without, its tasks and messages can be shown and it can be restarted. No
/// action of a task is among them.
pub proof fn sessions_open_up_actions(has_session: bool)
    ensures
        offers(agent_actions(has_session), QuickActionId::ShowTasks),
        offers(agent_actions(has_session), QuickActionId::ShowMessages),
        offers(agent_actions(has_session), QuickActionId::Restart),
        offers(agent_actions(has_session), QuickActionId::StreamTmux) <==> has_session,
        offers(agent_actions(has_session), QuickActionId::Interrupt) <==> has_session,
        offers(agent_actions(has_session), QuickActionId::Stop) <==> has_session,
        !offers(agent_actions(has_session), QuickActionId::TaskWake),
        !offers(agent_actions(has_session), QuickActionId::TaskInterrupt),
        !offers(agent_actions(has_session), QuickActionId::TaskRetry),
        !offers(agent_actions(has_session), QuickActionId::TaskCancel),
{
    let all = agent_actions(has_session);
    if has_session {
        assert(all[0].id == QuickActionId::StreamTmux && all[1].id == QuickActionId::ShowTasks);
        assert(all[2].id == QuickActionId::ShowMessages && all[3].id == QuickActionId::Interrupt);
        assert(all[4].id == QuickActionId::Restart && all[5].id == QuickActionId::Stop);
    } else {
        assert(all[0].id == QuickActionId::ShowTasks && all[1].id == QuickActionId::ShowMessages);
        assert(all[2].id == QuickActionId::Restart);
    }
}

/// Only a task that waits, runs or is blocked can be woken, retried and cancelled;
/// its assignee can be interrupted where it has one. A finished task offers
/// nothing.
pub proof fn finished_tasks_offer_nothing(status: TaskStatus, assignee: Seq<char>)
    ensures
        ({
            let all = actions_on_task(status, assignee);
            let open = status == TaskStatus::Pending || status == TaskStatus::InProgress || status
                == TaskStatus::Blocked;
            &&& !open ==> all.len() == 0
            &&& offers(all, QuickActionId::TaskWake) <==> open
            &&& offers(all, QuickActionId::TaskRetry) <==> open
            &&& offers(all, QuickActionId::TaskCancel) <==> open
            &&& offers(all, QuickActionId::TaskInterrupt) <==> open && assignee.len() > 0
            &&& !offers(all, QuickActionId::Stop)
            &&& !offers(all, QuickActionId::Restart)
            &&& !offers(all, QuickActionId::Interrupt)
        }),
{
    let all = actions_on_task(status, assignee);
    if all.len() > 0 {
        assert(all[0].id == QuickActionId::TaskWake);
        if assignee.len() > 0 {
            assert(all[1].id == QuickActionId::TaskInterrupt && all[2].id
                == QuickActionId::TaskRetry && all[3].id == QuickActionId::TaskCancel);
        } else {
            assert(all[1].id == QuickActionId::TaskRetry && all[2].id == QuickActionId::TaskCancel);
        }
    }
}

/// Each action is called what it does.
pub proof fn actions_are_called_what_they_do(id: QuickActionId)
    ensures
        id == QuickActionId::StreamTmux ==> id.label()@ == "Stream tmux"@,
        id == QuickActionId::ShowTasks ==> id.label()@ == "Open tasks"@,
        id == QuickActionId::ShowMessages ==> id.label()@ == "Open messages"@,
        id == QuickActionId::Interrupt ==> id.label()@ == "Interrupt"@,
        id == QuickActionId::Restart ==> id.label()@ == "Restart"@,
        id == QuickActionId::Stop ==> id.label()@ == "Stop"@,
        id == QuickActionId::TaskWake ==> id.label()@ == "Wake task"@,
        id == QuickActionId::TaskInterrupt ==> id.label()@ == "Interrupt assignee"@,
        id == QuickActionId::TaskRetry ==> id.label()@ == "Retry task"@,
        id == QuickActionId::TaskCancel ==> id.label()@ == "Cancel task"@,
        id.is_task_action() <==> id == QuickActionId::TaskWake || id
            == QuickActionId::TaskInterrupt || id == QuickActionId::TaskRetry || id
            == QuickActionId::TaskCancel,
{
}

/// Before a restart, a stop and the cancelling of a task, and before nothing else,
/// a question is asked; it names what is to be done and to what.
pub proof fn drastic_actions_are_asked_about(id: QuickActionId, target: Seq<char>)
    ensures
        id.requires_confirmation() <==> id == QuickActionId::Restart || id == QuickActionId::Stop
            || id == QuickActionId::TaskCancel,
        id == QuickActionId::Restart ==> confirm_text(id, target) == "confirm restart "@ + target
            + "?"@,
        id == QuickActionId::Stop ==> confirm_text(id, target) == "confirm stop "@ + target + "?"@,
        id == QuickActionId::TaskCancel ==> confirm_text(id, target) == "confirm cancel task "@
            + target + "?"@,
{
}

/// What the selected action leads to is what it is called, on the workspace that
/// was meant; a drastic one leads to nothing but a question as long as that was
/// not answered.
pub proof fn actions_lead_where_they_say(menu: Menu, target: Seq<char>)
    ensures
        menu.selected >= menu.actions.len() ==> selected_outcomes(menu, target) == seq![
            Outcome::Close,
        ],
        menu.selected < menu.actions.len() ==> {
            let id = menu.actions[menu.selected as int].id;
            let led = selected_outcomes(menu, target);
            &&& led.contains(Outcome::NeedsConfirm) <==> !menu.confirm && (id
                == QuickActionId::Restart || id == QuickActionId::Stop || id
                == QuickActionId::TaskCancel)
            &&& led.contains(Outcome::NeedsConfirm) ==> led.len() == 1
            &&& led.contains(Outcome::Interrupt(target)) <==> id == QuickActionId::Interrupt
            &&& led.contains(Outcome::StartStreaming(target)) <==> id == QuickActionId::StreamTmux
            &&& led.contains(Outcome::ChangeStream(StreamView::Stream)) <==> id
                == QuickActionId::StreamTmux
            &&& led.contains(Outcome::ChangeStream(StreamView::Tasks)) <==> id
                == QuickActionId::ShowTasks
            &&& led.contains(Outcome::ChangeStream(StreamView::Messages)) <==> id
                == QuickActionId::ShowMessages
            &&& (id == QuickActionId::StreamTmux || id == QuickActionId::ShowTasks || id
                == QuickActionId::ShowMessages || id == QuickActionId::TaskWake || id
                == QuickActionId::TaskInterrupt || id == QuickActionId::TaskRetry)
                ==> led.last() == Outcome::Close
        },
{
    if menu.selected < menu.actions.len() {
        let id = menu.actions[menu.selected as int].id;
        let led = selected_outcomes(menu, target);
        assert(led[0] == led[0]);
        assert(led[led.len() - 1] == led.last());
        if id == QuickActionId::StreamTmux {
            assert(led[1] == Outcome::StartStreaming(target));
        }
    }
}

/// A restart or stop that worked is told as such and closes the menu; one that
/// failed is told as an error and leaves it open. No other action is told.
pub proof fn failed_lifecycle_stays_open(
    id: QuickActionId,
    result: Result<Seq<char>, Seq<char>>,
)
    ensures
        ({
            let led = tried_lifecycle(id, result);
            let about = id == QuickActionId::Restart || id == QuickActionId::Stop;
            &&& led.contains(Outcome::Close) <==> !about || result is Ok
            &&& !about ==> led.len() == 1
            &&& about && result is Ok ==> led.len() == 2 && led[0] is Notice && !led[0]->error
                && result->Ok_0.is_suffix_of(led[0]->text)
            &&& id == QuickActionId::Restart && result is Ok ==> led[0]->text
                == "Restart requested for "@ + result->Ok_0
            &&& id == QuickActionId::Stop && result is Ok ==> led[0]->text == "Stopped "@
                + result->Ok_0
            &&& about && result is Err ==> led == seq![
                Outcome::Notice { text: result->Err_0, error: true },
            ]
        }),
{
    let led = tried_lifecycle(id, result);
    assert(led[led.len() - 1] == led.last());
    if result is Ok && (id == QuickActionId::Restart || id == QuickActionId::Stop) {
        let text = led[0]->text;
        let name = result->Ok_0;
        assert(name =~= text.subrange(text.len() - name.len(), text.len() as int));
    }
}

/// A place that is moved goes as far as told, and no further than the ends.
pub proof fn moving_stops_at_the_ends(index: int, delta: int, max: int)
    requires
        max >= 0,
    ensures
        0 <= moved(index, delta, max) <= max,
        0 <= index + delta <= max ==> moved(index, delta, max) == index + delta,
        index + delta > max ==> moved(index, delta, max) == max,
        index + delta < 0 ==> moved(index, delta, max) == 0,
        0 <= index <= max && delta > 0 ==> moved(index, delta, max) >= index,
        0 <= index <= max && delta < 0 ==> moved(index, delta, max) <= index,
{
}

/// Moving within a menu selects another entry and takes a question back; nothing
/// else of the menu changes.
pub proof fn moving_takes_the_question_back(menu: Menu, delta: int)
    requires
        menu.actions.len() <= usize::MAX,
    ensures
        menu_moved(menu, delta).actions == menu.actions,
        menu_moved(menu, delta).open == menu.open,
        menu_moved(menu, delta).target_workspace == menu.target_workspace,
        menu_moved(menu, delta).target_task_id == menu.target_task_id,
        menu_moved(menu, delta).target_task_version == menu.target_task_version,
        menu.actions.len() > 0 ==> !menu_moved(menu, delta).confirm,
        menu.actions.len() > 0 ==> menu_moved(menu, delta).selected < menu.actions.len(),
        0 <= menu.selected + delta < menu.actions.len() ==> menu_moved(menu, delta).selected
            == menu.selected + delta,
        menu.selected + delta >= menu.actions.len() > 0 ==> menu_moved(menu, delta).selected
            == menu.actions.len() - 1,
        menu.selected + delta < 0 ==> menu_moved(menu, delta).selected == 0,
{
}

/// A notice is shown for three seconds, or until the clock ends.
pub proof fn notices_last_three_seconds(text: Seq<char>, error: bool, now: u64)
    ensures
        notice(text, error, now).text == text,
        notice(text, error, now).error == error,
        now + 3000 <= u64::MAX ==> notice(text, error, now).expires_at == now + 3000,
        now + 3000 > u64::MAX ==> notice(text, error, now).expires_at == u64::MAX,
{
}

/// A menu that is closed is about nothing and asks nothing.
pub proof fn closed_menus_are_about_nothing(menu: Menu)
    ensures
        !closed_menu(menu).open,
        !closed_menu(menu).confirm,
        closed_menu(menu).selected == 0,
        closed_menu(menu).target_workspace.len() == 0,
        closed_menu(menu).target_task_id.len() == 0,
        closed_menu(menu).target_task_version == 0,
{
}

/// Each outcome does to the view what it says.
pub proof fn outcomes_do_what_they_say(s: AppModel, outcome: Outcome, now: u64)
    ensures
        outcome matches Outcome::ChangeStream(view) ==> after_outcome(s, outcome, now).stream
            == view,
        !(outcome is ChangeStream) ==> after_outcome(s, outcome, now).stream == s.stream,
        outcome matches Outcome::StartStreaming(workspace) ==> after_outcome(
            s,
            outcome,
            now,
        ).streamed_workspace == Some(workspace),
        !(outcome is StartStreaming) ==> after_outcome(s, outcome, now).streamed_workspace
            == s.streamed_workspace,
        outcome matches Outcome::Interrupt(workspace) ==> after_outcome(
            s,
            outcome,
            now,
        ).pending_interrupt == Some(workspace),
        !(outcome is Interrupt) ==> after_outcome(s, outcome, now).pending_interrupt
            == s.pending_interrupt,
        outcome matches Outcome::Notice { text, error } ==> after_outcome(
            s,
            outcome,
            now,
        ).quick_notice is Some && after_outcome(s, outcome, now).quick_notice->0.text == text
            && after_outcome(s, outcome, now).quick_notice->0.error == error,
        !(outcome is Notice) ==> after_outcome(s, outcome, now).quick_notice == s.quick_notice,
        outcome is Close ==> !after_outcome(s, outcome, now).quick_actions.open,
        !(outcome is Close) ==> after_outcome(s, outcome, now).quick_actions == s.quick_actions,
        after_outcomes(s, seq![outcome], now).quick_actions.confirm <==> outcome is NeedsConfirm || (
        !(outcome is Close) && s.quick_actions.confirm),
{
    reveal(after_outcome);
    let all = seq![outcome];
    assert(all.drop_last() =~= Seq::empty());
    assert(all.last() == outcome);
    assert(after_each(s, all.drop_last(), now) == s);
    assert(all[0] == outcome);
    if all.contains(Outcome::NeedsConfirm) {
        assert(outcome == Outcome::NeedsConfirm);
    }
}

/// The tabs are those of the agents, the messages, the tasks and the tokens, in
/// this order, and last the mirrored terminal, exactly where one is mirrored.
pub proof fn mirrored_terminal_has_the_last_tab(pinned: bool)
    ensures
        tab_views(pinned).len() == if pinned {
            5int
        } else {
            4
        },
        tab_views(pinned)[0] == StreamView::Agents,
        tab_views(pinned)[1] == StreamView::Messages,
        tab_views(pinned)[2] == StreamView::Tasks,
        tab_views(pinned)[3] == StreamView::Tokens,
        tab_views(pinned).contains(StreamView::Stream) <==> pinned,
        pinned ==> tab_views(pinned)[4] == StreamView::Stream,
{
    if pinned {
        assert(tab_views(pinned)[4] == StreamView::Stream);
    }
}

/// A line of a file is numbered from one, and an empty one is left out.
pub proof fn lines_are_numbered_from_one(all: Seq<Seq<char>>, n: int)
    requires
        0 < n <= all.len(),
    ensures
        all[n - 1].len() > 0 ==> numbered_lines(all, n) == numbered_lines(all, n - 1).push(
            (n, all[n - 1]),
        ),
        all[n - 1].len() == 0 ==> numbered_lines(all, n) == numbered_lines(all, n - 1),
        numbered_lines(all, 0).len() == 0,
{
}

/// The newest entries are the last ones, as many as are kept.
pub proof fn newest_are_the_last<T>(entries: Seq<T>, max: int)
    requires
        max >= 0,
    ensures
        newest(entries, max).is_suffix_of(entries),
        entries.len() <= max ==> newest(entries, max) == entries,
        entries.len() > max ==> newest(entries, max).len() == max,
{
    let r = newest(entries, max);
    assert(r =~= entries.subrange(entries.len() - r.len(), entries.len() as int));
}

/// Ordinary text in the colour.
pub open spec fn is_colored(style: Style, color: Color) -> bool {
    style.fg == Some(color) && !style.dim && !style.reversed
}

/// What is good is green, what needs a look is yellow, what is bad is red.
pub proof fn colors_warn(kind: Severity, error: bool)
    ensures
        is_colored(theme::severity(Severity::Success), Color::Green),
        is_colored(theme::severity(Severity::Warning), Color::Yellow),
        is_colored(theme::severity(Severity::Danger), Color::Red),
        !theme::severity(kind).bold,
        theme::severity_bold(kind).bold,
        theme::severity_bold(kind).fg == theme::severity(kind).fg,
        error ==> theme::notice(error).fg == Some(Color::Red),
        !error ==> theme::notice(error).fg == Some(Color::Green),
{
}

/// An agent that is connected is green, one that lost its connection yellow, and
/// one that is not there dim.
pub proof fn connection_has_a_color(status: AgentStatus)
    ensures
        theme::agent_status(status).fg == Some(Color::Green) <==> status == AgentStatus::Online,
        theme::agent_status(status).fg == Some(Color::Yellow) <==> status
            == AgentStatus::Disconnected,
        theme::agent_status(status).dim <==> status == AgentStatus::Offline,
{
}

/// Urgent tasks are red, those of high priority yellow, both in bold type, and
/// those of low priority grey; no other has a colour.
pub proof fn priority_has_a_color(priority: Option<TaskPriority>)
    ensures
        theme::priority(priority).fg == Some(Color::Red) <==> priority == Some(
            TaskPriority::Urgent,
        ),
        theme::priority(priority).fg == Some(Color::Yellow) <==> priority == Some(
            TaskPriority::High,
        ),
        theme::priority(priority).fg == Some(Color::Gray) <==> priority == Some(TaskPriority::Low),
        theme::priority(priority).fg is None <==> priority is None || priority == Some(
            TaskPriority::Normal,
        ),
        theme::priority(priority).bold <==> priority == Some(TaskPriority::Urgent) || priority
            == Some(TaskPriority::High),
{
}

/// A failed task is red and a completed one green; yellow is a blocked one and one
/// that waits or runs without progress; of the others one that runs is cyan and a
/// cancelled one grey.
pub proof fn status_has_a_color(status: TaskStatus, stale: bool)
    ensures
        ({
            let style = theme::task_status(status, stale);
            let open = status == TaskStatus::Pending || status == TaskStatus::InProgress;
            &&& style.fg == Some(Color::Red) <==> status == TaskStatus::Failed
            &&& style.fg == Some(Color::Green) <==> status == TaskStatus::Completed
            &&& style.fg == Some(Color::Yellow) <==> status == TaskStatus::Blocked || (stale
                && open)
            &&& style.fg == Some(Color::Cyan) <==> status == TaskStatus::InProgress && !stale
            &&& style.fg == Some(Color::Gray) <==> status == TaskStatus::Cancelled
            &&& style.fg is None <==> status == TaskStatus::Pending && !stale
            &&& theme::task_title(status).fg == Some(Color::Red) <==> status == TaskStatus::Failed
            &&& theme::task_title(status).fg == Some(Color::Gray) <==> status
                == TaskStatus::Completed || status == TaskStatus::Cancelled
        }),
{
}

/// A clean repository is green, a dirty or inaccessible one yellow, one in error
/// red, and what is none grey.
pub proof fn repository_has_a_color(state: Seq<char>)
    ensures
        git_state_style(state).fg == Some(Color::Green) <==> trim(state) == "clean"@,
        git_state_style(state).fg == Some(Color::Yellow) <==> trim(state) == "dirty"@ || trim(state)
            == "inaccessible"@,
        git_state_style(state).fg == Some(Color::Red) <==> trim(state) == "error"@,
        git_state_style(state).fg == Some(Color::Gray) <==> trim(state) == "non_git"@,
{
    reveal_strlit("clean");
    reveal_strlit("dirty");
    reveal_strlit("error");
    reveal_strlit("inaccessible");
    reveal_strlit("non_git");
    assert("clean"@.len() == 5 && "dirty"@.len() == 5 && "error"@.len() == 5);
    assert("clean"@[0] == 'c' && "dirty"@[0] == 'd' && "error"@[0] == 'e');
    assert("inaccessible"@.len() == 12 && "non_git"@.len() == 7);
}

/// What is selected is shown reversed; in the half that has the focus it has the
/// colour of the focus, and so has the border of that half.
pub proof fn focus_has_a_color(focused: bool, depth: usize)
    ensures
        theme::selection(focused).reversed,
        theme::selection(focused).fg == Some(Color::Cyan) <==> focused,
        theme::focus_border(focused).fg == Some(Color::Cyan) <==> focused,
        theme::active_label(focused).fg == Some(Color::Cyan) <==> focused,
        theme::active_label(focused).bold,
        theme::workspace(depth).fg == Some(Color::Cyan) <==> depth == 0,
        theme::workspace(depth).bold <==> depth == 0,
{
}

/// Colours are shown unless one of the two switches turns them off.
pub proof fn colors_can_be_turned_off(no_color: bool, ax_tui_no_color: bool)
    ensures
        theme::colors_enabled_for(no_color, ax_tui_no_color) <==> !(no_color || ax_tui_no_color),
{
}

} // verus!
