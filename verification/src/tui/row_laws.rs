//! What holds of the rows of agents and of the lines of messages.

use vstd::prelude::*;

use crate::config::{has_orchestrator, orchestrator_of, shown_name, tree_names, ProjectNode};
use crate::keyed::TextMap;
use crate::proto::types::HistoryEntry;
use crate::text::{contains, join, lower, one_line, split, trim, words};
use crate::text_laws::{clock_gives_the_seconds_of_the_day, splitting_is_undone_by_joining};
use crate::time::clock_text;
use crate::tmux::sessions::SessionInfo;
use crate::tui::messages_view::{
    body_style, letter_line, message_line, task_mark, tool_line, tool_use, verdict_place, ToolUse,
};
use crate::tui::sidebar::{
    deeper, entry_rows, fallback_rows, forest_rows, name_rows, orchestrator_row, own_rows,
    part_rows, path_parts, project_rows, reconcile_state, session_at, session_of, strays, Path,
};
use crate::tui::tasks::short_id;
use crate::tui::theme::{Color, Style};

verus! {

/// An agent is missed exactly where it is asked for and neither has a session nor
/// runs, and is surplus exactly where it is not asked for and does, unless its
/// name is one of the program's own; nothing is said where no agents are asked
/// for at all.
pub proof fn missing_and_surplus_agents_are_told(
    name: Seq<char>,
    desired: TextMap<bool>,
    has_session: bool,
    has_agent: bool,
)
    ensures
        ({
            let state = reconcile_state(name, desired, has_session, has_agent);
            let there = has_session || has_agent;
            let own = name.len() > 0 && name[0] == '_';
            &&& state == "desired"@ <==> desired.keys@.len() > 0 && desired.has(name) && !there
            &&& state == "runtime-only"@ <==> desired.keys@.len() > 0 && !desired.has(name) && there
                && !own
            &&& state.len() == 0 <==> desired.keys@.len() == 0 || (desired.has(name) && there) || (
            !desired.has(name) && (!there || own))
        }),
{
    reveal_strlit("desired");
    reveal_strlit("runtime-only");
    assert("desired"@.len() == 7 && "runtime-only"@.len() == 12);
}

/// A workspace has a session exactly where one of the sessions is its own, and of
/// several the last counts.
pub proof fn last_session_counts(sessions: Seq<SessionInfo>, workspace: Seq<char>)
    requires
        sessions.len() <= usize::MAX,
    ensures
        session_of(sessions, workspace) is Some <==> exists|i: int|
            0 <= i < sessions.len() && (#[trigger] sessions[i]).workspace@ == workspace,
        session_of(sessions, workspace) is Some ==> {
            let i = session_of(sessions, workspace)->0 as int;
            &&& 0 <= i < sessions.len()
            &&& sessions[i].workspace@ == workspace
            &&& forall|j: int|
                i < j < sessions.len() ==> (#[trigger] sessions[j]).workspace@ != workspace
        },
    decreases sessions.len(),
{
    if sessions.len() > 0 {
        let front = sessions.drop_last();
        let last = sessions.len() - 1;
        last_session_counts(front, workspace);
        if sessions[last].workspace@ == workspace {
            assert(session_of(sessions, workspace) == Some(last as usize));
        } else {
            assert forall|i: int| 0 <= i < front.len() implies #[trigger] front[i]
                == sessions[i] by {}
            if session_of(front, workspace) is Some {
                let i = session_of(front, workspace)->0 as int;
                assert(sessions[i].workspace@ == workspace);
                assert forall|j: int| i < j < sessions.len() implies (
                #[trigger] sessions[j]).workspace@ != workspace by {
                    if j < last {
                        assert(front[j] == sessions[j]);
                    }
                }
            } else {
                assert forall|i: int| 0 <= i < sessions.len() implies (
                #[trigger] sessions[i]).workspace@ != workspace by {
                    if i < last {
                        assert(front[i] == sessions[i]);
                    }
                }
            }
        }
    }
}

/// The rows of a project are its heading, which cannot be selected, its
/// orchestrator, where it has one, and each of its workspaces in order, one level
/// deeper, under their own names.
pub proof fn project_lists_its_workspaces(
    node: ProjectNode,
    level: int,
    sessions: Seq<SessionInfo>,
    desired: TextMap<bool>,
    i: int,
)
    ensures
        ({
            let all = own_rows(node, level, sessions, desired);
            let first = if has_orchestrator(node) {
                2int
            } else {
                1
            };
            &&& all.len() == first + node.workspaces@.len()
            &&& all[0].group && all[0].level == level && all[0].label == "▾ "@ + shown_name(node)
            &&& has_orchestrator(node) ==> !all[1].group && all[1].level == level + 1
                && all[1].workspace == orchestrator_of(node.prefix@) && all[1].label
                == "◆ orchestrator"@ && all[1].session_index == session_of(
                sessions,
                orchestrator_of(node.prefix@),
            )
            &&& 0 <= i < node.workspaces@.len() ==> {
                let row = all[first + i];
                &&& !row.group
                &&& row.level == level + 1
                &&& row.label == node.workspaces@[i].name@
                &&& row.workspace == node.workspaces@[i].merged_name@
                &&& row.session_index == session_of(sessions, row.workspace)
                &&& row.reconcile == reconcile_state(
                    row.workspace,
                    desired,
                    row.session_index is Some,
                    false,
                )
            }
        }),
{
}

/// The orchestrator of the root is never missed; any other is where it is asked
/// for and does not run.
pub proof fn root_orchestrator_is_not_missed(
    node: ProjectNode,
    level: int,
    sessions: Seq<SessionInfo>,
    desired: TextMap<bool>,
)
    ensures
        node.prefix@.len() == 0 ==> orchestrator_row(node, level, sessions, desired).reconcile
            != "desired"@,
        node.prefix@.len() > 0 ==> orchestrator_row(node, level, sessions, desired).reconcile
            == reconcile_state(
            orchestrator_of(node.prefix@),
            desired,
            session_of(sessions, orchestrator_of(node.prefix@)) is Some,
            false,
        ),
{
    missing_and_surplus_agents_are_told(orchestrator_of(node.prefix@), desired, true, false);
    reveal_strlit("desired");
    assert("desired"@.len() == 7);
}

/// A project comes before its children, and those stand one level deeper; one more
/// child comes last.
pub proof fn children_stand_below_their_project(
    node: ProjectNode,
    nodes: Seq<ProjectNode>,
    level: int,
    sessions: Seq<SessionInfo>,
    desired: TextMap<bool>,
)
    ensures
        project_rows(node, level, sessions, desired) == own_rows(node, level, sessions, desired)
            + forest_rows(node.children@, level + 1, sessions, desired),
        forest_rows(nodes.push(node), level, sessions, desired)
            == forest_rows(nodes, level, sessions, desired) + project_rows(
            node,
            level,
            sessions,
            desired,
        ),
{
    assert(nodes.push(node).drop_last() =~= nodes);
    assert(nodes.push(node).last() == node);
}

/// A session is a stray exactly where the tree does not name its workspace.
pub proof fn strays_are_not_in_the_tree(
    sessions: Seq<SessionInfo>,
    root: ProjectNode,
    n: int,
    i: usize,
)
    requires
        0 <= n <= sessions.len() <= usize::MAX,
    ensures
        strays(sessions, root, n).contains(i) <==> i < n && !tree_names(
            root,
            sessions[i as int].workspace@,
        ),
    decreases n,
{
    if n > 0 {
        strays_are_not_in_the_tree(sessions, root, n - 1, i);
        let old = strays(sessions, root, n - 1);
        let new = strays(sessions, root, n);
        if !tree_names(root, sessions[n - 1].workspace@) {
            assert(new[old.len() as int] == (n - 1) as usize);
            if old.contains(i) {
                let k = choose|k: int| 0 <= k < old.len() && old[k] == i;
                assert(new[k] == i);
            }
            if new.contains(i) {
                let k = choose|k: int| 0 <= k < new.len() && new[k] == i;
                if k < old.len() {
                    assert(old[k] == i);
                }
            }
        }
    }
}

/// With a tree the projects come first and, where sessions are left over, a heading
/// and each of them; without one the rows follow from the names alone.
pub proof fn leftover_sessions_come_last(
    root: ProjectNode,
    sessions: Seq<SessionInfo>,
    enabled: bool,
    desired: TextMap<bool>,
)
    ensures
        ({
            let all = entry_rows(sessions, Some(root), enabled, desired);
            let projects = project_rows(root, 0, sessions, desired);
            let rest = strays(sessions, root, sessions.len() as int);
            &&& projects.is_prefix_of(all)
            &&& rest.len() == 0 ==> all == projects
            &&& rest.len() > 0 ==> all.len() == projects.len() + 1 + rest.len()
                && all[projects.len() as int].group
            &&& rest.len() > 0 && enabled ==> all[projects.len() as int].label
                == "▾ runtime-only (not in config tree)"@
            &&& rest.len() > 0 && !enabled ==> all[projects.len() as int].label
                == "▾ unregistered (not in config tree)"@
            &&& rest.len() > 0 ==> forall|k: int|
                0 <= k < rest.len() ==> {
                    let row = #[trigger] all[projects.len() + 1 + k];
                    &&& !row.group
                    &&& row.session_index == Some(rest[k])
                    &&& row.workspace == sessions[rest[k] as int].workspace@
                    &&& row.label == row.workspace
                }
            &&& entry_rows(sessions, None, enabled, desired) == fallback_rows(sessions)
        }),
{
    let all = entry_rows(sessions, Some(root), enabled, desired);
    let projects = project_rows(root, 0, sessions, desired);
    assert(projects =~= all.subrange(0, projects.len() as int));
}

/// The parts of a workspace's name, joined again, are the name: with dots where it
/// has some, else with underscores where it has some, and else there is one part.
pub proof fn name_parts_make_the_name(workspace: Seq<char>)
    ensures
        workspace.contains('.') ==> join(path_parts(workspace), seq!['.']) == workspace
            && path_parts(workspace).len() > 1,
        !workspace.contains('.') && workspace.contains('_') ==> join(
            path_parts(workspace),
            seq!['_'],
        ) == workspace && path_parts(workspace).len() > 1,
        !workspace.contains('.') && !workspace.contains('_') ==> path_parts(workspace) == seq![
            workspace,
        ],
        path_parts(workspace).len() > 0,
{
    splitting_is_undone_by_joining(workspace, '.');
    splitting_is_undone_by_joining(workspace, '_');
    if split(workspace, '.').len() == 1 {
        assert(!split(workspace, '.')[0].contains('.'));
    }
    if split(workspace, '_').len() == 1 {
        assert(!split(workspace, '_')[0].contains('_'));
    }
}

/// One more name goes on below a part exactly where it begins with it and has more
/// parts, and is the part's own session exactly where it has no more.
pub proof fn one_more_name_goes_below_its_part(all: Seq<Path>, path: Path, part: Seq<char>)
    ensures
        path.parts[0] == part && path.parts.len() > 1 ==> deeper(all.push(path), part).len()
            == deeper(all, part).len() + 1 && deeper(all.push(path), part).last().parts
            == path.parts.drop_first() && deeper(all.push(path), part).last().session
            == path.session,
        path.parts[0] != part || path.parts.len() <= 1 ==> deeper(all.push(path), part) == deeper(
            all,
            part,
        ),
        path.parts[0] == part && path.parts.len() == 1 ==> session_at(all.push(path), part) == Some(
            path.session,
        ),
        path.parts[0] != part || path.parts.len() != 1 ==> session_at(all.push(path), part)
            == session_at(all, part),
        deeper(Seq::empty(), part).len() == 0,
        session_at(Seq::empty(), part) is None,
{
    assert(all.push(path).drop_last() =~= all);
    assert(all.push(path).last() == path);
}

/// A message that tells of an error, a failure or a panic is red, one that tells of
/// a block, a warning or a delay and of none of those is yellow, and one that only
/// tells of success green, whatever is written in capitals.
pub proof fn trouble_goes_before_success(text: Seq<char>)
    ensures
        ({
            let t = lower(text);
            let bad = contains(t, "error"@) || contains(t, "failed"@) || contains(t, "failure"@)
                || contains(t, "panic"@);
            let slow = contains(t, "blocked"@) || contains(t, "blocker"@) || contains(t, "warning"@)
                || contains(t, "stale"@) || contains(t, "wake"@);
            let good = contains(t, "completed"@) || contains(t, "success"@) || contains(t, "done"@)
                || contains(t, "remaining owned dirty files=<none>"@);
            &&& body_style(text).fg == Some(Color::Red) <==> bad
            &&& body_style(text).fg == Some(Color::Yellow) <==> slow && !bad
            &&& body_style(text).fg == Some(Color::Green) <==> good && !bad && !slow
            &&& body_style(text).fg is None <==> !bad && !slow && !good
        }),
{
}

proof fn verdict_is_the_first(parts: Seq<Seq<char>>, i: int)
    requires
        0 <= i <= parts.len(),
    ensures
        i <= verdict_place(parts, i) <= parts.len(),
        verdict_place(parts, i) < parts.len() ==> parts[verdict_place(parts, i)] == "ok"@
            || parts[verdict_place(parts, i)] == "error"@,
        forall|k: int|
            i <= k < verdict_place(parts, i) ==> #[trigger] parts[k] != "ok"@ && parts[k]
                != "error"@,
    decreases parts.len() - i,
{
    if i < parts.len() && parts[i] != "ok"@ && parts[i] != "error"@ {
        verdict_is_the_first(parts, i + 1);
    }
}

/// A message tells of the use of a tool exactly where it begins with `mcp tool`,
/// names a tool, and says after it that it went well or not; the first such word
/// counts, what stands before it is the tool, and what stands after it the rest.
pub proof fn tool_use_is_told_by_a_verdict(content: Seq<char>)
    ensures
        ({
            let body = one_line(trim(content));
            let parts = words(body.skip("mcp tool "@.len() as int));
            let told = tool_use(content);
            &&& told is Some <==> "mcp tool "@.is_prefix_of(body) && exists|k: int|
                0 < k < parts.len() && (#[trigger] parts[k] == "ok"@ || parts[k] == "error"@)
                    && forall|j: int|
                    0 <= j < k ==> #[trigger] parts[j] != "ok"@ && parts[j] != "error"@
            &&& told is Some ==> exists|k: int|
                0 < k < parts.len() && told->0.status == #[trigger] parts[k] && told->0.tool == join(
                    parts.take(k),
                    " "@,
                ) && told->0.detail == join(parts.skip(k + 1), " "@)
            &&& told is Some ==> told->0.status == "ok"@ || told->0.status == "error"@
        }),
{
    let body = one_line(trim(content));
    let parts = words(body.skip("mcp tool "@.len() as int));
    verdict_is_the_first(parts, 0);
    let at = verdict_place(parts, 0);
    if tool_use(content) is Some {
        assert(parts[at] == "ok"@ || parts[at] == "error"@);
    }
    if exists|k: int|
        0 < k < parts.len() && (#[trigger] parts[k] == "ok"@ || parts[k] == "error"@) && forall|
            j: int,
        |
            0 <= j < k ==> #[trigger] parts[j] != "ok"@ && parts[j] != "error"@ {
        let k = choose|k: int|
            0 < k < parts.len() && (#[trigger] parts[k] == "ok"@ || parts[k] == "error"@) && forall|
                j: int,
            |
                0 <= j < k ==> #[trigger] parts[j] != "ok"@ && parts[j] != "error"@;
        assert(parts[k] == "ok"@ || parts[k] == "error"@);
        assert(at <= k);
        if at == 0 {
            assert(parts[0] == "ok"@ || parts[0] == "error"@);
        }
    }
}

/// A message that tells of the use of a tool is shown as such, and any other as
/// one from someone to someone; only a message of a task carries its mark.
pub proof fn messages_are_shown_by_kind(entry: HistoryEntry, width: int, sel: Option<Style>)
    ensures
        tool_use(entry.content@) is Some ==> message_line(entry, width, sel) == tool_line(
            entry,
            tool_use(entry.content@)->0,
            width,
            sel,
        ),
        tool_use(entry.content@) is None ==> message_line(entry, width, sel) == letter_line(
            entry,
            width,
            sel,
        ),
        task_mark(entry.task_id@).len() == 0 <==> entry.task_id@.len() == 0,
        entry.task_id@.len() > 0 ==> task_mark(entry.task_id@) == " ["@ + short_id(entry.task_id@)
            + "]"@,
{
    reveal_strlit(" [");
    assert(" ["@.len() == 2);
}

/// For one more part, its heading comes where names go on below it, then the
/// session of that very name, and then the names below, one level deeper.
pub proof fn one_more_part_comes_last(
    all: Seq<Path>,
    keys: Seq<Seq<char>>,
    part: Seq<char>,
    height: nat,
    level: int,
)
    requires
        height > 0,
    ensures
        ({
            let former = part_rows(all, keys, height, level);
            let rows = part_rows(all, keys.push(part), height, level);
            let below = deeper(all, part);
            let own = session_at(all, part);
            let first = former.len() as int;
            &&& former.is_prefix_of(rows)
            &&& below.len() > 0 ==> rows[first].group && rows[first].label == "▾ "@ + part
                && rows[first].level == level
            &&& below.len() == 0 && own is Some ==> !rows[first].group && rows[first].label == part
                && rows[first].session_index == own && rows[first].level == level
            &&& below.len() > 0 && own is Some ==> !rows[first + 1].group && rows[first + 1].label
                == part && rows[first + 1].session_index == own && rows[first + 1].level == level
            &&& name_rows(below, (height - 1) as nat, level + 1).is_suffix_of(rows)
            &&& rows.len() == former.len() + (if below.len() > 0 {
                1int
            } else {
                0
            }) + (if own is Some {
                1int
            } else {
                0
            }) + name_rows(below, (height - 1) as nat, level + 1).len()
        }),
{
    assert(keys.push(part).drop_last() =~= keys);
    assert(keys.push(part).last() == part);
    let former = part_rows(all, keys, height, level);
    let rows = part_rows(all, keys.push(part), height, level);
    let tail = name_rows(deeper(all, part), (height - 1) as nat, level + 1);
    assert(former =~= rows.subrange(0, former.len() as int));
    assert(tail =~= rows.subrange(rows.len() - tail.len(), rows.len() as int));
}

/// Where its head fits, a message from one to another shows the time, who sent it,
/// to whom, and then as much of it as fits, on one line.
pub proof fn letters_show_sender_and_receiver(entry: HistoryEntry, width: int, sel: Option<Style>)
    requires
        width > 4 + 16 + entry.from@.len() + 3 + entry.to@.len() + task_mark(entry.task_id@).len()
            + 2,
    ensures
        ({
            let line = letter_line(entry, width, sel);
            &&& line.len() == 7 || line.len() == 8
            &&& line[0].content == " "@ + clock_text(entry.timestamp.unix_secs() as int)
            &&& line[2].content == entry.from@
            &&& line[3].content == " → "@
            &&& line[4].content == entry.to@
            &&& entry.task_id@.len() > 0 ==> line[5].content == task_mark(entry.task_id@)
            &&& entry.task_id@.len() == 0 <==> line.len() == 7
            &&& one_line(entry.content@).len() == 0 ==> line.last().content.len() == 0
            &&& sel is Some ==> line[0].style == sel->0 && line.last().style == sel->0
            &&& sel is None ==> line.last().style == body_style(entry.content@)
        }),
{
    reveal_strlit(" ");
    reveal_strlit(" → ");
    reveal_strlit(": ");
    reveal_strlit(" [");
    assert(" "@.len() == 1 && " → "@.len() == 3 && ": "@.len() == 2 && " ["@.len() == 2);
    clock_gives_the_seconds_of_the_day(entry.timestamp.unix_secs() as int);
}

/// Where its head fits, a message about a tool shows the time, who used which tool,
/// how it went, and the rest.
pub proof fn tool_lines_show_the_tool(
    entry: HistoryEntry,
    told: ToolUse,
    width: int,
    sel: Option<Style>,
)
    requires
        width > 4 + 16 + entry.from@.len() + 6 + told.tool.len() + task_mark(entry.task_id@).len()
            + 2 + told.status.len() + 1 + told.detail.len(),
        told.status.len() > 0,
    ensures
        ({
            let line = tool_line(entry, told, width, sel);
            &&& entry.task_id@.len() == 0 <==> line.len() == 7
            &&& line[0].content == " "@ + clock_text(entry.timestamp.unix_secs() as int)
            &&& line[2].content == entry.from@
            &&& line[3].content == " used "@
            &&& line[4].content == told.tool
            &&& told.detail.len() == 0 ==> line.last().content == told.status
            &&& told.detail.len() > 0 ==> line.last().content == told.status + " "@ + told.detail
        }),
{
    reveal_strlit(" ");
    reveal_strlit(" used ");
    reveal_strlit(": ");
    reveal_strlit(" [");
    assert(" "@.len() == 1 && " used "@.len() == 6 && ": "@.len() == 2 && " ["@.len() == 2);
    clock_gives_the_seconds_of_the_day(entry.timestamp.unix_secs() as int);
}

} // verus!
