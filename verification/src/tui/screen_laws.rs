//! What holds of the details, the frame, the menu and the mirrored terminal.

use vstd::prelude::*;

use crate::config::{
    forest_names, orchestrator_of, shown_name, tree_names, ProjectNode, WorkspaceRef,
};
use crate::keyed::last_keyed;
use crate::proto::types::{AgentStatus, HistoryEntry, Task, TaskStatus, WorkspaceInfo};
use crate::proto::usage::WorkspaceTrend;
use crate::text::{decimal, lines, lower, trim};
use crate::text_laws::decimal_has_its_value;
use crate::time::Timestamp;
use crate::tmux::sessions::SessionInfo;
use crate::tui::actions::{confirm_text, selected_action};
use crate::tui::agents_view::{agent_status_str, MetricCells};
use crate::tui::app::{
    is_due, last_info, last_trend, run_problem, REFRESH_INTERVAL, USAGE_REFRESH_INTERVAL,
};
use crate::tui::app::RunError::{Input, Render, Terminal};
use crate::tui::captures::wrapped_capture;
use crate::tui::daemon::question_id;
use crate::tui::detail_view::{
    activity_tab, agent_activity, agent_detail_shown, agent_messages, agent_task_row, agent_tasks,
    capture_of, config_found, config_in_forest, config_in_tree, config_of_workspace, config_tab,
    first_session, instruction_lines, known_usage, messages_tab, overview, plural, task_roles,
    tasks_tab, wrote_log, AgentConfig, UsageTexts,
};
use crate::tui::frame_view::{
    after_detail_drawn, after_stream_drawn, agents_shown, detail_title_shown, footer, footer_hint,
    header_text, help_lines, help_window, is_mirrored, label_style, menu_lines, menu_target,
    mirror_place, online_count, open_count, scoped_hint, stream_shown, tab_spans, title_style,
};
use crate::tui::layout::Rect;
use crate::tui::lines::SpanView;
use crate::tui::messages_view::{
    message_line, message_shown, messages_detail_shown, messages_shown, selected_style,
};
use crate::tui::state::{app_tabs, workspace_selected, AgentDetailTab, AppModel, Focus};
use crate::tui::stream::StreamView;
use crate::tui::tasks::{short_id, with_status, TaskActivityKind};
use crate::tui::theme::Color;

verus! {

/// Of several sessions of a workspace the first is told, and none where it has
/// none.
pub proof fn first_session_is_told(sessions: Seq<SessionInfo>, workspace: Seq<char>)
    ensures
        sessions.len() == 0 ==> first_session(sessions, workspace) is None,
        sessions.len() > 0 && sessions[0].workspace@ == workspace ==> first_session(
            sessions,
            workspace,
        ) == Some(sessions[0]),
        sessions.len() > 0 && sessions[0].workspace@ != workspace ==> first_session(
            sessions,
            workspace,
        ) == first_session(sessions.drop_first(), workspace),
        first_session(sessions, workspace) is Some ==> first_session(
            sessions,
            workspace,
        )->0.workspace@ == workspace,
    decreases sessions.len(),
{
    if sessions.len() > 0 {
        first_session_is_told(sessions.drop_first(), workspace);
    }
}

/// One task more is an agent's exactly where the agent is to do it, created it,
/// claimed it, or wrote into its log.
pub proof fn one_more_task_of_an_agent(tasks: Seq<Task>, task: Task, workspace: Seq<char>)
    ensures
        ({
            let concerned = task.assignee@ == workspace || task.created_by@ == workspace
                || task.claimed_by@ == workspace || exists|i: int|
                0 <= i < task.logs@.len() && (#[trigger] task.logs@[i]).workspace@ == workspace;
            &&& concerned ==> agent_tasks(tasks.push(task), workspace) == agent_tasks(
                tasks,
                workspace,
            ).push(task)
            &&& !concerned ==> agent_tasks(tasks.push(task), workspace) == agent_tasks(
                tasks,
                workspace,
            )
            &&& agent_tasks(Seq::empty(), workspace).len() == 0
        }),
{
    assert(tasks.push(task).drop_last() =~= tasks);
    assert(tasks.push(task).last() == task);
}

/// One message more is an agent's exactly where it comes from it or goes to it, and
/// tells of its tools exactly where it comes from it and goes to the daemon or says
/// so.
pub proof fn one_more_message_of_an_agent(
    messages: Seq<HistoryEntry>,
    entry: HistoryEntry,
    workspace: Seq<char>,
)
    ensures
        ({
            let own = entry.from@ == workspace || entry.to@ == workspace;
            let told = entry.from@ == workspace && (entry.to@ == "ax.daemon"@
                || "mcp tool "@.is_prefix_of(lower(entry.content@)));
            &&& own ==> agent_messages(messages.push(entry), workspace) == agent_messages(
                messages,
                workspace,
            ).push(entry)
            &&& !own ==> agent_messages(messages.push(entry), workspace) == agent_messages(
                messages,
                workspace,
            )
            &&& told ==> agent_activity(messages.push(entry), workspace) == agent_activity(
                messages,
                workspace,
            ).push(entry)
            &&& !told ==> agent_activity(messages.push(entry), workspace) == agent_activity(
                messages,
                workspace,
            )
            &&& agent_messages(Seq::empty(), workspace).len() == 0
            &&& agent_activity(Seq::empty(), workspace).len() == 0
        }),
{
    assert(messages.push(entry).drop_last() =~= messages);
    assert(messages.push(entry).last() == entry);
}

/// What an agent has to do with a task is told by one word, where it is one thing.
pub proof fn roles_are_told(task: Task, workspace: Seq<char>)
    ensures
        ({
            let assigned = task.assignee@ == workspace;
            let created = task.created_by@ == workspace;
            let claimed = task.claimed_by@ == workspace;
            let logged = wrote_log(task.logs@, workspace);
            &&& assigned && !created && !claimed && !logged ==> task_roles(task, workspace)
                == "assignee"@
            &&& !assigned && created && !claimed && !logged ==> task_roles(task, workspace)
                == "created"@
            &&& !assigned && !created && claimed && !logged ==> task_roles(task, workspace)
                == "claimed"@
            &&& !assigned && !created && !claimed && logged ==> task_roles(task, workspace)
                == "log"@
            &&& !assigned && !created && !claimed && !logged ==> task_roles(task, workspace).len()
                == 0
        }),
{
}

/// The usage of a workspace is known exactly where the daemon has it and could
/// read it; what its terminal showed last is that of its last capture.
pub proof fn unread_usage_is_not_known(s: AppModel, workspace: Seq<char>)
    ensures
        known_usage(s, workspace) is Some <==> s.usage_trends.lookup(workspace) is Some
            && s.usage_trends.lookup(workspace)->0.available,
        known_usage(s, workspace) is Some ==> known_usage(s, workspace)
            == s.usage_trends.lookup(workspace),
        s.captures.entries.lookup(workspace) is Some ==> capture_of(s, workspace)
            == s.captures.entries.lookup(workspace)->0.content@,
        s.captures.entries.lookup(workspace) is None ==> capture_of(s, workspace).len() == 0,
{
}

/// The configuration of a workspace is that of its project's first of this name;
/// an orchestrator is told by its project, unless that turned it off.
pub proof fn configuration_is_that_of_the_name(
    node: ProjectNode,
    workspaces: Seq<WorkspaceRef>,
    workspace: Seq<char>,
)
    ensures
        workspaces.len() > 0 && workspaces[0].merged_name@ == workspace ==> ({
            let found = config_of_workspace(node, workspaces, workspace);
            &&& found is Some
            &&& found->0.kind == "workspace"@
            &&& found->0.project == shown_name(node)
            &&& found->0.dir == node.dir@
            &&& found->0.runtime == workspaces[0].runtime@
            &&& found->0.description == workspaces[0].description@
            &&& found->0.instructions == workspaces[0].instructions@
        }),
        workspaces.len() > 0 && workspaces[0].merged_name@ != workspace ==> config_of_workspace(
            node,
            workspaces,
            workspace,
        ) == config_of_workspace(node, workspaces.drop_first(), workspace),
        workspaces.len() == 0 ==> config_of_workspace(node, workspaces, workspace) is None,
        !node.disable_root_orchestrator && workspace == orchestrator_of(node.prefix@) ==> ({
            let found = config_in_tree(node, workspace);
            &&& found is Some
            &&& found->0.kind == "orchestrator"@
            &&& found->0.project == shown_name(node)
            &&& found->0.runtime == node.orchestrator_runtime@
            &&& found->0.instructions.len() == 0
        }),
        config_found(None, workspace) is None,
        config_found(Some(node), workspace) == config_in_tree(node, workspace),
{
}

/// Instructions are told line by line; where there are none, that is told.
pub proof fn missing_instructions_are_told(config: AgentConfig, width: int)
    ensures
        trim(config.instructions).len() == 0 ==> instruction_lines(config, width).len() == 1,
        trim(config.instructions).len() == 0 && config.kind == "orchestrator"@
            ==> instruction_lines(config, width)[0][0].content
            == "(generated orchestrator prompt is not displayed in the MVP)"@,
        trim(config.instructions).len() == 0 && config.kind != "orchestrator"@
            ==> instruction_lines(config, width)[0][0].content
            == "(no config instructions for this workspace)"@,
        trim(config.instructions).len() > 0 ==> instruction_lines(config, width).len() == lines(
            trim(config.instructions),
        ).len(),
{
}

/// The detail of an agent shows the tab that is chosen, of the workspace that is
/// selected.
pub proof fn chosen_tab_is_shown(s: AppModel, area: Rect, usage: UsageTexts, now: Timestamp)
    requires
        workspace_selected(s) is Some,
    ensures
        ({
            let shown = agent_detail_shown(s, area, usage, now);
            let workspace = workspace_selected(s)->0;
            &&& s.agent_detail_tab == AgentDetailTab::Overview ==> shown == overview(
                s,
                workspace,
                area,
                usage,
            )
            &&& s.agent_detail_tab == AgentDetailTab::Tasks ==> shown == tasks_tab(
                s,
                workspace,
                area.width as int,
                now,
            )
            &&& s.agent_detail_tab == AgentDetailTab::Messages ==> shown == messages_tab(
                s,
                workspace,
                area.width as int,
            )
            &&& s.agent_detail_tab == AgentDetailTab::Instructions ==> shown == config_tab(
                s,
                workspace,
                area.width as int,
            )
            &&& s.agent_detail_tab == AgentDetailTab::Activity ==> shown == activity_tab(
                s,
                workspace,
                area.width as int,
            )
        }),
{
}

/// One thing is told in the singular and any other number in the plural.
pub proof fn only_one_is_singular(n: usize)
    ensures
        n == 1 <==> plural(n)@.len() == 0,
        n != 1 ==> plural(n)@ == "s"@,
{
    reveal_strlit("");
    reveal_strlit("s");
    assert("s"@.len() == 1 && ""@.len() == 0);
}

/// One workspace more is counted as online exactly where it is, and one task more
/// as active exactly where it waits, runs or is blocked.
pub proof fn one_more_is_counted(
    infos: Seq<WorkspaceInfo>,
    info: WorkspaceInfo,
    tasks: Seq<Task>,
    task: Task,
)
    ensures
        online_count(infos.push(info)) - online_count(infos) == if info.status
            == AgentStatus::Online {
            1int
        } else {
            0
        },
        open_count(tasks.push(task)) - open_count(tasks) == if task.status == TaskStatus::Pending
            || task.status == TaskStatus::InProgress || task.status == TaskStatus::Blocked {
            1int
        } else {
            0
        },
        online_count(Seq::empty()) == 0,
        open_count(Seq::empty()) == 0,
{
    assert(infos.push(info).drop_last() =~= infos);
    assert(infos.push(info).last() == info);
    assert(tasks.push(task).drop_last() =~= tasks);
    assert(tasks.push(task).last() == task);
}

/// The line at the top begins with whether the daemon runs and ends with the
/// filter of the list of tasks.
pub proof fn header_tells_of_the_daemon(s: AppModel)
    ensures
        s.daemon_running ==> ("ax · daemon: "@ + "running"@).is_prefix_of(header_text(s)),
        !s.daemon_running ==> ("ax · daemon: "@ + "stopped"@).is_prefix_of(header_text(s)),
        (" · sessions: "@ + decimal(s.sessions.len()) + " · filter: "@
            + s.task_filter.label()@).is_suffix_of(header_text(s)),
{
    let t = header_text(s);
    let on = "ax · daemon: "@ + "running"@;
    let off = "ax · daemon: "@ + "stopped"@;
    let tail = " · sessions: "@ + decimal(s.sessions.len()) + " · filter: "@
        + s.task_filter.label()@;
    if s.daemon_running {
        assert(on =~= t.subrange(0, on.len() as int));
    } else {
        assert(off =~= t.subrange(0, off.len() as int));
    }
    assert(tail =~= t.subrange(t.len() - tail.len(), t.len() as int));
}

/// The line at the foot shows what came of an action, else what is wrong with a
/// source, else the keys of the menu, where it is open, and else those of the view.
pub proof fn notices_go_before_keys(s: AppModel)
    ensures
        footer(s).len() == 1,
        s.quick_notice is Some ==> footer(s)[0].content == s.quick_notice->0.text,
        s.quick_notice is Some && s.quick_notice->0.error ==> footer(s)[0].style.fg == Some(
            Color::Red,
        ),
        s.quick_notice is Some && !s.quick_notice->0.error ==> footer(s)[0].style.fg == Some(
            Color::Green,
        ),
        s.quick_notice is None && s.notice is Some ==> footer(s)[0].content == s.notice->0.text,
        s.quick_notice is None && s.notice is None && s.quick_actions.open ==> footer(s)[0].content
            == "↑↓ action · enter run · esc close · q quit"@,
        s.quick_notice is None && s.notice is None && !s.quick_actions.open ==> footer(
            s,
        )[0].content == footer_hint(s),
{
}

/// The tab that is shown has the colour of the focus where its half has it, and
/// white otherwise; no other tab stands out.
pub proof fn chosen_tabs_stand_out(selected: bool, focused: bool)
    ensures
        label_style(selected, focused).bold <==> selected,
        label_style(selected, focused).fg == Some(Color::Cyan) <==> selected && focused,
        label_style(selected, focused).fg == Some(Color::White) <==> selected && !focused,
        title_style(focused).bold <==> focused,
{
}

/// The menu acts on its task, else on its workspace, else on the selected one.
pub proof fn menu_acts_on_its_target(s: AppModel)
    ensures
        s.quick_actions.target_task_id.len() > 0 ==> menu_target(s) == short_id(
            s.quick_actions.target_task_id,
        ),
        s.quick_actions.target_task_id.len() == 0 && s.quick_actions.target_workspace.len() > 0
            ==> menu_target(s) == s.quick_actions.target_workspace,
        s.quick_actions.target_task_id.len() == 0 && s.quick_actions.target_workspace.len() == 0
            && workspace_selected(s) is Some ==> menu_target(s) == workspace_selected(s)->0,
{
}

/// An open menu lists each action by what it is called, with a mark before the
/// selected one and no other; while it asks, it shows the question instead.
pub proof fn menu_lists_its_actions(s: AppModel, i: int)
    ensures
        !s.quick_actions.confirm ==> menu_lines(s).len() == s.quick_actions.actions.len() + 1,
        !s.quick_actions.confirm && 0 <= i < s.quick_actions.actions.len() ==> ({
            let shown = menu_lines(s)[i][0];
            let label = s.quick_actions.actions[i].id.label()@;
            &&& i == s.quick_actions.selected ==> shown.content == "▸ "@ + label
                && shown.style.reversed
            &&& i != s.quick_actions.selected ==> shown.content == "  "@ + label
                && !shown.style.reversed
        }),
        s.quick_actions.confirm ==> menu_lines(s).len() == 2,
        s.quick_actions.confirm && selected_action(s.quick_actions) is Some ==> menu_lines(
            s,
        )[0][0].content == confirm_text(selected_action(s.quick_actions)->0.id, menu_target(s)),
{
}

/// As many lines of the help are shown as fit, and where some do not, a hint takes
/// the last place.
pub proof fn help_shows_what_fits(all: Seq<Seq<SpanView>>, height: int)
    requires
        height >= 1,
    ensures
        all.len() <= height ==> help_window(all, height) == all,
        all.len() > height ==> help_window(all, height).len() == height && help_window(
            all,
            height,
        ).drop_last() == all.take(height - 1),
        help_lines(false).len() < help_lines(true).len(),
{
    if all.len() > height {
        assert(help_window(all, height).drop_last() =~= all.take(height - 1));
    }
}

/// The tabs are numbered from one, with a line between neighbours.
pub proof fn tabs_are_numbered(s: AppModel, n: int)
    requires
        0 < n <= 4,
    ensures
        tab_spans(s, n).last().content == " "@ + decimal(n as nat) + "·"@
            + app_tabs(s)[n - 1].tab_label()@ + " "@,
        tab_spans(s, n).last().style.bold <==> app_tabs(s)[n - 1] == s.stream,
        tab_spans(s, n).len() == tab_spans(s, n - 1).len() + if n > 1 {
            2int
        } else {
            1
        },
        tab_spans(s, 0).len() == 0,
{
}

/// A terminal is mirrored where one is chosen, was captured, and there is room;
/// what is shown of it is then its end while it is followed, and scrolling down to
/// the end follows it again.
pub proof fn mirror_follows_the_end(s: AppModel, area: Rect)
    requires
        is_mirrored(s, area),
        wrapped_capture(
            capture_of(s, s.streamed_workspace->0),
            area.width as int,
        ).len() <= usize::MAX,
    ensures
        ({
            let r = after_stream_drawn(s, area);
            let all = wrapped_capture(
                capture_of(s, s.streamed_workspace->0),
                area.width as int,
            ).len() as int;
            let room = area.height - 1;
            let start = mirror_place(s, area).0;
            &&& s.stream_follow_tail && all > room ==> start == all - room
            &&& all <= room ==> start == 0
            &&& r.stream_cursor.index == start
            &&& s.stream_follow_tail ==> r.stream_follow_tail
            &&& !s.stream_follow_tail ==> (r.stream_follow_tail <==> s.stream_cursor.index + room
                >= all || all <= room)
            &&& stream_shown(s, area).rows.len() == if all <= room {
                all
            } else {
                room
            }
            &&& !stream_shown(s, area).waiting
        }),
{
}

/// A detail of messages or activity shows its end while that is followed; any other
/// stays where it is.
pub proof fn detail_follows_the_end(s: AppModel, area: Rect, total: int)
    requires
        0 <= total <= usize::MAX,
        area.width > 0,
        area.height > 0,
    ensures
        ({
            let r = after_detail_drawn(s, area, total);
            let timeline = s.stream == StreamView::Agents && workspace_selected(s) is Some && (
            s.agent_detail_tab == AgentDetailTab::Messages || s.agent_detail_tab
                == AgentDetailTab::Activity);
            &&& !timeline ==> r == s
            &&& timeline && s.agent_detail_follow_tail && total > area.height
                ==> r.detail_scroll.index == total - area.height && r.agent_detail_follow_tail
            &&& timeline && total <= area.height ==> r.detail_scroll.index == 0
            &&& timeline && !s.agent_detail_follow_tail && s.detail_scroll.index + area.height
                <= total ==> r.detail_scroll.index == s.detail_scroll.index
        }),
{
}

/// The list of messages has a row for each that there is room for, among them the
/// selected one, which alone is shown as such; the detail is that of the selected
/// message.
pub proof fn selected_message_is_shown_as_such(s: AppModel, area: Rect, i: int)
    requires
        area.width > 2,
        area.height > 1,
        s.messages_snapshot_error is None,
        0 < s.messages.len() <= usize::MAX,
        s.messages_cursor.index < s.messages.len(),
    ensures
        ({
            let pane = messages_shown(s, area);
            let start = pane.viewport.start as int;
            &&& pane.rows.len() == if s.messages.len() <= area.height {
                s.messages.len() as int
            } else {
                area.height as int
            }
            &&& start <= s.messages_cursor.index < start + pane.rows.len()
            &&& 0 <= i < pane.rows.len() ==> pane.rows[i] == message_line(
                s.messages[start + i],
                pane.rows_area.width as int,
                selected_style(start + i == s.messages_cursor.index, s.focus == Focus::List),
            )
            &&& messages_detail_shown(s) == message_shown(
                s.messages[s.messages_cursor.index as int],
            )
            &&& selected_style(true, true) is Some && selected_style(false, true) is None
        }),
{
}

/// The list of agents has a row for each entry that there is room for, among them
/// the selected one.
pub proof fn selected_agent_is_on_the_screen(
    s: AppModel,
    area: Rect,
    spinner: Seq<char>,
    cells: Seq<MetricCells>,
    now: u64,
)
    requires
        area.width > 0,
        area.height > 1,
        s.selected_entry < s.agent_entries.len() <= usize::MAX,
    ensures
        ({
            let pane = agents_shown(s, area, spinner, cells, now);
            &&& pane.head.len() == 1
            &&& pane.rows.len() == if s.agent_entries.len() <= area.height - 1 {
                s.agent_entries.len() as int
            } else {
                area.height - 1
            }
            &&& pane.viewport.start <= s.selected_entry < pane.viewport.start + pane.rows.len()
        }),
{
}

/// Views, tabs, halves and kinds of events are called by their own names.
pub proof fn everything_has_its_name(
    view: StreamView,
    tab: AgentDetailTab,
    focus: Focus,
    kind: TaskActivityKind,
    status: AgentStatus,
)
    ensures
        view == StreamView::Agents ==> view.tab_label()@ == "agents"@,
        view == StreamView::Messages ==> view.tab_label()@ == "messages"@,
        view == StreamView::Tasks ==> view.tab_label()@ == "tasks"@,
        view == StreamView::Tokens ==> view.tab_label()@ == "tokens"@,
        view == StreamView::Stream ==> view.tab_label()@ == "stream"@,
        tab == AgentDetailTab::Overview ==> tab.label()@ == "overview"@ && tab.short_label()@
            == "over"@,
        tab == AgentDetailTab::Tasks ==> tab.label()@ == "tasks"@ && tab.short_label()@ == "tasks"@,
        tab == AgentDetailTab::Messages ==> tab.label()@ == "messages"@ && tab.short_label()@
            == "msgs"@,
        tab == AgentDetailTab::Instructions ==> tab.label()@ == "instructions"@
            && tab.short_label()@ == "instr"@,
        tab == AgentDetailTab::Activity ==> tab.label()@ == "activity"@ && tab.short_label()@
            == "act"@,
        focus == Focus::List ==> focus.label()@ == "list"@,
        focus == Focus::Detail ==> focus.label()@ == "detail"@,
        kind == TaskActivityKind::Lifecycle ==> kind.label()@ == "lifecycle"@,
        kind == TaskActivityKind::Log ==> kind.label()@ == "log"@,
        kind == TaskActivityKind::Message ==> kind.label()@ == "message"@,
        status == AgentStatus::Online ==> agent_status_str(status)@ == "online"@,
        status == AgentStatus::Offline ==> agent_status_str(status)@ == "offline"@,
        status == AgentStatus::Disconnected ==> agent_status_str(status)@ == "disconnected"@,
{
}

/// The view is read anew where that was asked for and every quarter of a second,
/// and the usage every five seconds.
pub proof fn views_are_read_anew(last: u64, now: u64)
    ensures
        is_due(Some(last), now, REFRESH_INTERVAL) <==> now >= last + 250,
        is_due(Some(last), now, USAGE_REFRESH_INTERVAL) <==> now >= last + 5000,
{
}

/// Of several items with a key the last counts.
pub proof fn last_item_counts<V>(items: Seq<V>, item: V, key: spec_fn(V) -> Seq<char>, k: Seq<char>)
    ensures
        key(item) == k ==> last_keyed(items.push(item), key, k) == Some(item),
        key(item) != k ==> last_keyed(items.push(item), key, k) == last_keyed(items, key, k),
        last_keyed(Seq::<V>::empty(), key, k) is None,
{
    assert(items.push(item).drop_last() =~= items);
    assert(items.push(item).last() == item);
}

/// The tasks of an agent are listed each on its own row, at the end; where there
/// are none, that is told.
pub proof fn agents_tasks_are_listed(
    s: AppModel,
    workspace: Seq<char>,
    width: int,
    now: Timestamp,
    i: int,
)
    ensures
        ({
            let tab = tasks_tab(s, workspace, width, now);
            let tasks = agent_tasks(s.tasks, workspace);
            let error = if s.task_snapshot_error is Some {
                1int
            } else {
                0
            };
            &&& tab[0][0].content == "agent tasks · "@ + workspace
            &&& tasks.len() == 0 ==> tab.len() == 5 + error
            &&& tasks.len() > 0 ==> tab.len() == 6 + error + tasks.len()
            &&& tasks.len() > 0 && 0 <= i < tasks.len() ==> tab[6 + error + i] == agent_task_row(
                tasks[i],
                workspace,
                width,
                now,
            )
        }),
{
}

/// The messages and the activity of an agent are listed each on its own row, at the
/// end; where there are none, that is told.
pub proof fn agents_messages_are_listed(s: AppModel, workspace: Seq<char>, width: int, i: int)
    ensures
        ({
            let tab = messages_tab(s, workspace, width);
            let entries = agent_messages(s.messages, workspace);
            let error = if s.messages_snapshot_error is Some {
                1int
            } else {
                0
            };
            &&& tab.len() == 5 + error + entries.len()
            &&& 0 <= i < entries.len() ==> tab[5 + error + i] == message_line(
                entries[i],
                width,
                None,
            )
        }),
        ({
            let tab = activity_tab(s, workspace, width);
            let entries = agent_activity(s.messages, workspace);
            &&& entries.len() == 0 ==> tab.len() == 5
            &&& entries.len() > 0 ==> tab.len() == 4 + entries.len()
        }),
{
}

/// Of several projects that know an agent the first counts.
pub proof fn first_configuration_counts(
    nodes: Seq<ProjectNode>,
    node: ProjectNode,
    workspace: Seq<char>,
)
    ensures
        config_in_forest(nodes, workspace) is Some ==> config_in_forest(
            nodes.push(node),
            workspace,
        ) == config_in_forest(nodes, workspace),
        config_in_forest(nodes, workspace) is None ==> config_in_forest(
            nodes.push(node),
            workspace,
        ) == config_in_tree(node, workspace),
        config_in_forest(Seq::empty(), workspace) is None,
{
    assert(nodes.push(node).drop_last() =~= nodes);
    assert(nodes.push(node).last() == node);
}

/// A tree names a workspace or an orchestrator exactly where one of its projects
/// does.
pub proof fn one_more_project_is_named(
    nodes: Seq<ProjectNode>,
    node: ProjectNode,
    name: Seq<char>,
)
    ensures
        forest_names(nodes.push(node), name) <==> forest_names(nodes, name) || tree_names(
            node,
            name,
        ),
        !forest_names(Seq::empty(), name),
        forest_names(node.children@, name) ==> tree_names(node, name),
{
    assert(nodes.push(node).drop_last() =~= nodes);
    assert(nodes.push(node).last() == node);
}

/// The overview of an agent begins with its name and how it is connected.
pub proof fn overview_begins_with_the_name(
    s: AppModel,
    workspace: Seq<char>,
    area: Rect,
    usage: UsageTexts,
)
    ensures
        ({
            let shown = overview(s, workspace, area, usage);
            let known = s.workspace_infos.lookup(workspace);
            &&& shown.len() >= 2
            &&& shown[0][1].content == workspace
            &&& known is None ==> shown[1][1].content == "offline"@
            &&& known is Some && known->0.status == AgentStatus::Online ==> shown[1][1].content
                == "online"@
            &&& known is Some && known->0.status == AgentStatus::Disconnected
                ==> shown[1][1].content == "disconnected"@
        }),
{
}

/// Of several answers about a workspace the last counts.
pub proof fn last_answer_counts(
    infos: Seq<WorkspaceInfo>,
    info: WorkspaceInfo,
    trends: Seq<WorkspaceTrend>,
    trend: WorkspaceTrend,
    name: Seq<char>,
)
    ensures
        last_info(infos.push(info), name) == if info.name@ == name {
            Some(info)
        } else {
            last_info(infos, name)
        },
        last_trend(trends.push(trend), name) == if trend.workspace@ == name {
            Some(trend)
        } else {
            last_trend(trends, name)
        },
        last_info(Seq::empty(), name) is None,
        last_trend(Seq::empty(), name) is None,
{
    last_item_counts(infos, info, |item: WorkspaceInfo| item.name@, name);
    last_item_counts(trends, trend, |item: WorkspaceTrend| item.workspace@, name);
}

/// The keys that are offered are those of the half that has the focus.
pub proof fn offered_keys_go_with_the_focus(s: AppModel)
    ensures
        ("["@ + s.focus.label()@ + "] "@).is_prefix_of(footer_hint(s)),
        s.focus == Focus::List && s.stream == StreamView::Agents
            ==> scoped_hint(s) == "↑↓/jk agent · enter actions"@,
        s.focus == Focus::List && s.stream == StreamView::Tasks
            ==> scoped_hint(s) == "↑↓/jk task"@,
        s.focus == Focus::List && (s.stream == StreamView::Messages || s.stream
            == StreamView::Tokens) ==> scoped_hint(s)
            == "↑↓/jk scroll · g/G head/tail"@,
        s.focus == Focus::List && s.stream == StreamView::Stream && s.stream_follow_tail
            ==> scoped_hint(s) == "↑↓/jk freeze scroll · g/G top/follow"@,
        s.focus == Focus::List && s.stream == StreamView::Stream && !s.stream_follow_tail
            ==> scoped_hint(s) == "↑↓/jk scroll · G follow tail"@,
        s.focus == Focus::Detail && s.stream != StreamView::Agents
            ==> scoped_hint(s) == "↑↓/jk scroll · g reset · esc list"@,
        s.streamed_workspace is Some ==> footer_hint(s) == "["@ + s.focus.label()@ + "] "@
            + scoped_hint(s) + " · [/] pane · Tab/"@ + "1-5"@
            + " view · f filter · ? help · q quit"@,
        s.streamed_workspace is None ==> footer_hint(s) == "["@ + s.focus.label()@ + "] "@
            + scoped_hint(s) + " · [/] pane · Tab/"@ + "1-4"@
            + " view · f filter · ? help · q quit"@,
{
    let head = "["@ + s.focus.label()@ + "] "@;
    assert(head =~= footer_hint(s).subrange(0, head.len() as int));
}

/// The detail is titled by what it is the detail of.
pub proof fn details_are_titled(s: AppModel, width: int)
    ensures
        ({
            let title = detail_title_shown(s, width);
            &&& s.stream == StreamView::Messages ==> title[0].content == " message detail "@
            &&& s.stream == StreamView::Tasks ==> title[0].content == " task detail "@
            &&& s.stream == StreamView::Tokens ==> title[0].content == " token detail "@
            &&& s.stream == StreamView::Agents && workspace_selected(s) is None ==> title[0].content
                == " agent detail "@
            &&& s.stream == StreamView::Agents && workspace_selected(s) is Some ==> title[0].content
                == " agent detail · "@ + workspace_selected(s)->0 + " · "@
            &&& s.stream == StreamView::Stream && s.streamed_workspace is Some ==> title[0].content
                == " stream · "@ + s.streamed_workspace->0 + " "@
        }),
{
}

/// What ends the view before its time is told with what it was about; each question
/// to the daemon has an identifier of its own.
pub proof fn questions_differ(a: u64, b: u64, text: String)
    ensures
        question_id(a) == question_id(b) ==> a == b,
        "watch-"@.is_prefix_of(question_id(a)),
        run_problem(Terminal(text))
            == "terminal setup: "@ + text@,
        run_problem(Render(text)) == "render: "@
            + text@,
        run_problem(Input(text)) == "input: "@ + text@,
{
    decimal_has_its_value(a as nat);
    decimal_has_its_value(b as nat);
    let x = question_id(a);
    let y = question_id(b);
    let n = "watch-"@.len() as int;
    assert("watch-"@ =~= x.subrange(0, n));
    assert(x.skip(n) =~= decimal(a as nat));
    assert(y.skip(n) =~= decimal(b as nat));
}

/// The directory of an agent is told as the workspace has it, where that is known,
/// and else as its project does.
pub proof fn workspace_directory_comes_first(s: AppModel, workspace: Seq<char>, width: int)
    requires
        config_found(s.tree, workspace) is Some,
        width >= 80,
    ensures
        ({
            let tab = config_tab(s, workspace, width);
            let config = config_found(s.tree, workspace)->0;
            let own = s.workspace_dirs.lookup(workspace);
            &&& tab.len() >= 7
            &&& own is Some && own->0@.len() <= 40 ==> tab[3][1].content == own->0@
            &&& own is None && config.dir.len() <= 40 ==> tab[3][1].content == config.dir
            &&& config.runtime.len() == 0 ==> tab[4][1].content == "(default)"@
            &&& 0 < config.runtime.len() <= 40 ==> tab[4][1].content == config.runtime
        }),
{
    reveal_strlit("dir");
    reveal_strlit("runtime");
    reveal_strlit(": ");
    reveal_strlit("(default)");
    assert("dir"@.len() == 3 && "runtime"@.len() == 7 && ": "@.len() == 2 && "(default)"@.len()
        == 9);
}

/// The line at the top counts the agents that are online, the tasks that are open
/// and, where there are some, the blocked ones, and the sessions.
pub proof fn header_counts(s: AppModel)
    requires
        s.daemon_running,
    ensures
        ({
            let blocked = with_status(s.tasks, TaskStatus::Blocked);
            let head = "ax · daemon: "@ + "running"@ + " · agents: "@ + decimal(
                online_count(s.workspace_infos.values@) as nat,
            ) + "/"@ + decimal(s.workspace_infos.values@.len()) + " · tasks: "@ + decimal(
                open_count(s.tasks) as nat,
            ) + " active / "@ + decimal(s.tasks.len());
            let tail = " · sessions: "@ + decimal(s.sessions.len()) + " · filter: "@
                + s.task_filter.label()@;
            &&& blocked == 0 ==> header_text(s) == head + tail
            &&& blocked > 0 ==> header_text(s) == head + (" · blocked: "@ + decimal(
                blocked as nat,
            )) + tail
        }),
{
    let blocked = with_status(s.tasks, TaskStatus::Blocked);
    let head = "ax · daemon: "@ + "running"@ + " · agents: "@ + decimal(
        online_count(s.workspace_infos.values@) as nat,
    ) + "/"@ + decimal(s.workspace_infos.values@.len()) + " · tasks: "@ + decimal(
        open_count(s.tasks) as nat,
    ) + " active / "@ + decimal(s.tasks.len());
    let tail = " · sessions: "@ + decimal(s.sessions.len()) + " · filter: "@
        + s.task_filter.label()@;
    if blocked == 0 {
        assert(header_text(s) =~= head + tail);
    }
    if blocked > 0 {
        assert(header_text(s) =~= head + (" · blocked: "@ + decimal(blocked as nat)) + tail);
    }
}

/// Above a mirrored terminal stands whose it is and whether its end is followed;
/// while nothing was captured, that is told instead.
pub proof fn mirror_tells_whether_it_follows(s: AppModel, area: Rect)
    requires
        s.streamed_workspace is Some,
        area.width > 0,
        area.height > 0,
    ensures
        ({
            let shown = stream_shown(s, area);
            let workspace = s.streamed_workspace->0;
            let captured = capture_of(s, workspace).len() > 0;
            &&& shown.waiting <==> !captured
            &&& captured && s.stream_follow_tail ==> shown.caption[0][0].content == "  "@
                + workspace + " · tmux mirror · "@ + "follow"@
            &&& captured && !s.stream_follow_tail ==> shown.caption[0][0].content == "  "@
                + workspace + " · tmux mirror · "@ + "frozen"@
            &&& !captured ==> shown.rows[0][0].content == "waiting for tmux capture of "@
                + workspace + "…"@
        }),
{
}

/// A menu says under its actions how to run and how to close it, and under its
/// question how to answer it.
pub proof fn menu_says_how_to_answer(s: AppModel)
    ensures
        s.quick_actions.confirm ==> menu_lines(s).last()[0].content
            == "enter to confirm · esc to cancel"@,
        !s.quick_actions.confirm ==> menu_lines(s).last()[0].content
            == "enter to run · esc to close"@,
{
}

} // verus!
