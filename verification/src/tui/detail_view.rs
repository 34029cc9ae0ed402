//! The detail of an agent as it is drawn.

use vstd::prelude::*;

use crate::config::{config_orchestrator_name, orchestrator_of, shown_name, ProjectNode, WorkspaceRef};
use crate::proto::types::{HistoryEntry, Task, TaskLog};
use crate::proto::usage::WorkspaceTrend;
use crate::text::{
    begins, count_of, decimal, join, join_all, lines, lines_of, lower, one_line, pad, padded, same,
    texts, to_lower, to_one_line, trim, trimmed,
};
use crate::time::{clock_text, Timestamp};
use crate::tmux::sessions::SessionInfo;
use crate::tui::agents_view::{
    agent_status_str, format_git_status_detail, git_detail, git_state_text, normalized_git_state,
};
use crate::tui::captures::{last_rows, recent_wrapped_lines, wrapped_capture};
use crate::tui::cells::{labelled, push_detail_kv, push_detail_kv_if};
use crate::tui::layout::{less, most, Rect};
use crate::tui::lines::{line_if, one, two, Line, Page, SpanView};
use crate::tui::messages_view::{
    body_style, mcp_tool_activity, mcp_tool_activity_line, message_body_style, message_line,
    message_list_line, task_mark, tool_line, tool_use,
};
use crate::tui::state::{model_fields, workspace_selected, AgentDetailTab, App, AppModel};
use crate::tui::tasks::{
    clipped, referred, short_id, short_task_id, stale, task_is_stale, truncate,
};
use crate::tui::tasks_view::{format_task_state, task_state, text_if};
use crate::tui::theme::{
    agent_status, column_header, disabled, git_state, git_state_style, info, muted, plain, severity,
    strong, task_status, Severity,
};

verus! {

broadcast use vstd::string::group_string_axioms;

/// The ending of a noun after a number.
#[verifier::allow_in_spec]
pub fn plural(n: usize) -> &'static str
    returns
        (if n == 1 {
            ""
        } else {
            "s"
        }),
{
    if n == 1 {
        ""
    } else {
        "s"
    }
}

/// The first session of a workspace.
pub open spec fn first_session(sessions: Seq<SessionInfo>, workspace: Seq<char>) -> Option<
    SessionInfo,
>
    decreases sessions.len(),
{
    if sessions.len() == 0 {
        None
    } else if sessions[0].workspace@ == workspace {
        Some(sessions[0])
    } else {
        first_session(sessions.drop_first(), workspace)
    }
}

fn session_of_workspace<'a>(sessions: &'a Vec<SessionInfo>, workspace: &str) -> (r: Option<
    &'a SessionInfo,
>)
    ensures
        match r {
            Some(s) => first_session(sessions@, workspace@) == Some(*s),
            None => first_session(sessions@, workspace@) is None,
        },
{
    let mut i: usize = 0;
    proof {
        assert(sessions@.skip(0) =~= sessions@);
    }
    while i < sessions.len()
        invariant
            i <= sessions@.len(),
            first_session(sessions@, workspace@) == first_session(
                sessions@.skip(i as int),
                workspace@,
            ),
        decreases sessions@.len() - i,
    {
        if same(sessions[i].workspace.as_str(), workspace) {
            return Some(&sessions[i]);
        }
        proof {
            assert(sessions@.skip(i as int).drop_first() =~= sessions@.skip(i + 1));
        }
        i = i + 1;
    }
    None
}

/// A session in a few words.
pub open spec fn session_text(s: SessionInfo) -> Seq<char> {
    s.name@ + " · "@ + decimal(s.windows as nat) + " window"@ + plural(s.windows)@
}

fn text_of_session(s: &SessionInfo) -> (r: String)
    ensures
        r@ == session_text(*s),
{
    s.name.clone().concat(" · ").concat(count_of(s.windows).as_str()).concat(" window").concat(
        plural(s.windows),
    )
}

/// The line of a session, where there is one.
pub open spec fn session_lines(
    s: AppModel,
    label: Seq<char>,
    workspace: Seq<char>,
) -> Seq<Seq<SpanView>> {
    match first_session(s.sessions, workspace) {
        Some(session) => Seq::<Seq<SpanView>>::empty().push(
            two(label, muted(), session_text(session), plain()),
        ),
        None => Seq::empty(),
    }
}

fn lines_of_session(app: &App, label: &str, workspace: &str) -> (r: Page)
    ensures
        r@ == session_lines(app@, label@, workspace@),
{
    proof {
        model_fields(*app);
    }
    let mut page = Page::new();
    if let Some(session) = session_of_workspace(&app.sessions, workspace) {
        page.push_two(label, muted(), text_of_session(session), plain());
    }
    page
}

/// The line of the state of a workspace.
pub open spec fn status_line(s: AppModel, workspace: Seq<char>) -> Seq<SpanView> {
    match s.workspace_infos.lookup(workspace) {
        Some(w) => two("status     "@, muted(), agent_status_str(w.status)@, agent_status(w.status)),
        None => two("status     "@, muted(), "offline"@, disabled()),
    }
}

/// The lines of what a workspace says of itself.
pub open spec fn told_lines(s: AppModel, workspace: Seq<char>) -> Seq<Seq<SpanView>> {
    match s.workspace_infos.lookup(workspace) {
        Some(w) => (match w.git_status {
            Some(git) => Seq::<Seq<SpanView>>::empty().push(
                two("git        "@, muted(), git_detail(git), git_state_style(git_state_text(git))),
            ),
            None => Seq::<Seq<SpanView>>::empty(),
        }) + line_if(
            w.status_text@.len() > 0,
            two("note       "@, muted(), w.status_text@, plain()),
        ),
        None => Seq::empty(),
    }
}

fn lines_told(app: &App, workspace: &str) -> (r: Page)
    requires
        app@.wf(),
    ensures
        r@ == told_lines(app@, workspace@),
{
    proof {
        model_fields(*app);
    }
    let mut page = Page::new();
    if let Some(w) = app.workspace_infos.get(workspace) {
        if let Some(git) = &w.git_status {
            let state = normalized_git_state(git);
            page.push_two(
                "git        ",
                muted(),
                format_git_status_detail(git),
                git_state(state.as_str()),
            );
        }
        page.push_if(
            !w.status_text.as_str().is_empty(),
            Line::two("note       ".to_owned(), muted(), w.status_text.clone(), plain()),
        );
    }
    page
}

/// The counts of an agent's detail as they are shown.
#[derive(Debug, Clone)]
pub struct UsageTexts {
    pub input: String,
    pub output: String,
    pub all: String,
}

/// The counts of an agent's detail.
#[derive(Debug, Clone, Copy, PartialEq, Eq, Structural)]
pub struct UsageCounts {
    pub input: i64,
    pub output: i64,
    pub all: i128,
}

/// The usage of a workspace, where the daemon knows it.
pub open spec fn known_usage(s: AppModel, workspace: Seq<char>) -> Option<WorkspaceTrend> {
    match s.usage_trends.lookup(workspace) {
        Some(t) => if t.available {
            Some(t)
        } else {
            None
        },
        None => None,
    }
}

/// The counts of an agent's detail, where the daemon knows them.
pub fn usage_counts(app: &App, workspace: &str) -> (r: Option<UsageCounts>)
    requires
        app@.wf(),
    ensures
        match known_usage(app@, workspace@) {
            Some(t) => r == Some(
                (UsageCounts {
                    input: t.total.input,
                    output: t.total.output,
                    all: (t.total.cache_read + t.total.cache_creation + t.total.input) as i128,
                }),
            ),
            None => r is None,
        },
{
    proof {
        model_fields(*app);
    }
    match app.usage_trends.get(workspace) {
        Some(t) => if t.available {
            Some(
                UsageCounts {
                    input: t.total.input,
                    output: t.total.output,
                    all: t.total.cache_read as i128 + t.total.cache_creation as i128
                        + t.total.input as i128,
                },
            )
        } else {
            None
        },
        None => None,
    }
}

/// The line of the usage of a workspace, where the daemon knows it.
pub open spec fn usage_lines(s: AppModel, workspace: Seq<char>, usage: UsageTexts) -> Seq<
    Seq<SpanView>,
> {
    line_if(
        known_usage(s, workspace) is Some,
        two(
            "tokens     "@,
            muted(),
            "↑"@ + usage.input@ + " · ↓"@ + usage.output@ + " · Σ"@ + usage.all@,
            plain(),
        ),
    )
}

/// What the terminal of a workspace showed last.
pub open spec fn capture_of(s: AppModel, workspace: Seq<char>) -> Seq<char> {
    match s.captures.entries.lookup(workspace) {
        Some(e) => e.content@,
        None => Seq::empty(),
    }
}

/// What the terminal of a workspace showed last.
pub fn capture_text<'a>(app: &'a App, workspace: &str) -> (r: &'a str)
    requires
        app@.wf(),
    ensures
        r@ == capture_of(app@, workspace@),
{
    proof {
        model_fields(*app);
    }
    match app.captures.entries.get(workspace) {
        Some(e) => e.content.as_str(),
        None => {
            proof {
                reveal_strlit("");
                assert(""@ =~= Seq::empty());
            }
            ""
        },
    }
}

/// Plain lines.
pub open spec fn plain_lines(all: Seq<Seq<char>>) -> Seq<Seq<SpanView>> {
    all.map_values(|l: Seq<char>| one(l, plain()))
}

/// A page of plain lines.
pub fn plain_page(all: &Vec<String>) -> (r: Page)
    ensures
        r@ == plain_lines(texts(all@)),
{
    let mut page = Page::new();
    let ghost told = texts(all@);
    let mut i: usize = 0;
    proof {
        assert(page@ =~= plain_lines(told.take(0)));
    }
    while i < all.len()
        invariant
            i <= all@.len(),
            told == texts(all@),
            page@ == plain_lines(told.take(i as int)),
        decreases all@.len() - i,
    {
        page.push_str(all[i].as_str(), plain());
        proof {
            assert(told[i as int] == all@[i as int]@);
            assert(page@ =~= plain_lines(told.take(i + 1)));
        }
        i = i + 1;
    }
    proof {
        assert(told.take(told.len() as int) =~= told);
    }
    page
}

/// The overview of an agent above what its terminal shows.
pub open spec fn overview_facts(s: AppModel, workspace: Seq<char>, usage: UsageTexts) -> Seq<
    Seq<SpanView>,
> {
    Seq::<Seq<SpanView>>::empty().push(two("workspace  "@, muted(), workspace, strong())).push(
        status_line(s, workspace),
    ) + told_lines(s, workspace) + session_lines(s, "tmux       "@, workspace) + usage_lines(
        s,
        workspace,
        usage,
    )
}

/// The overview of an agent: what is known of it, and below that as much of the
/// end of its terminal as fits.
pub open spec fn overview(
    s: AppModel,
    workspace: Seq<char>,
    area: Rect,
    usage: UsageTexts,
) -> Seq<Seq<SpanView>> {
    let facts = overview_facts(s, workspace, usage);
    let capture = capture_of(s, workspace);
    if capture.len() == 0 {
        facts
    } else {
        let top = facts.push(Seq::<SpanView>::empty()).push(one("recent tmux:"@, muted()));
        let room = less(less(area.height as int, top.len() as int), 1);
        if room > 0 {
            top + plain_lines(last_rows(wrapped_capture(capture, area.width as int), room))
        } else {
            top
        }
    }
}

/// The overview of an agent.
pub fn agent_overview(app: &App, workspace: &str, area: Rect, usage: &UsageTexts) -> (r: Page)
    requires
        app@.wf(),
    ensures
        r@ == overview(app@, workspace@, area, *usage),
{
    proof {
        model_fields(*app);
    }
    let mut page = Page::new();
    page.push_two("workspace  ", muted(), workspace.to_owned(), strong());
    match app.workspace_infos.get(workspace) {
        Some(w) => page.push_two(
            "status     ",
            muted(),
            agent_status_str(w.status).to_owned(),
            agent_status(w.status),
        ),
        None => page.push_two("status     ", muted(), "offline".to_owned(), disabled()),
    }
    page.append(lines_told(app, workspace));
    page.append(lines_of_session(app, "tmux       ", workspace));
    let known = usage_counts(app, workspace);
    page.push_if(
        known.is_some(),
        Line::two(
            "tokens     ".to_owned(),
            muted(),
            "↑".to_owned().concat(usage.input.as_str()).concat(" · ↓").concat(
                usage.output.as_str(),
            ).concat(" · Σ").concat(usage.all.as_str()),
            plain(),
        ),
    );
    let capture = capture_text(app, workspace);
    if capture.is_empty() {
        return page;
    }
    page.push_blank();
    page.push_str("recent tmux:", muted());
    let height: usize = area.height as usize;
    let top = page.len();
    if height > top && height - top > 1 {
        let shown = recent_wrapped_lines(capture, height - top - 1, area.width as usize);
        page.append(plain_page(&shown));
    }
    page
}

/// The task has to do with the agent.
pub open spec fn wrote_log(logs: Seq<TaskLog>, workspace: Seq<char>) -> bool {
    exists|i: int| 0 <= i < logs.len() && (#[trigger] logs[i]).workspace@ == workspace
}

fn has_written_log(logs: &Vec<TaskLog>, workspace: &str) -> (r: bool)
    ensures
        r == wrote_log(logs@, workspace@),
{
    let mut i: usize = 0;
    while i < logs.len()
        invariant
            i <= logs@.len(),
            forall|j: int| 0 <= j < i ==> (#[trigger] logs@[j]).workspace@ != workspace@,
        decreases logs@.len() - i,
    {
        if same(logs[i].workspace.as_str(), workspace) {
            return true;
        }
        i = i + 1;
    }
    false
}

/// The task has to do with the agent: it is the agent's, the agent created or
/// claimed it, or the agent wrote into its log.
pub open spec fn concerns_agent(task: Task, workspace: Seq<char>) -> bool {
    task.assignee@ == workspace || task.created_by@ == workspace || task.claimed_by@ == workspace
        || wrote_log(task.logs@, workspace)
}

/// Whether the task has to do with the agent.
pub fn task_related_to_agent(task: &Task, workspace: &str) -> (r: bool)
    ensures
        r == concerns_agent(*task, workspace@),
{
    same(task.assignee.as_str(), workspace) || same(task.created_by.as_str(), workspace) || same(
        task.claimed_by.as_str(),
        workspace,
    ) || has_written_log(&task.logs, workspace)
}

/// The tasks that have to do with the agent.
pub open spec fn agent_tasks(tasks: Seq<Task>, workspace: Seq<char>) -> Seq<Task>
    decreases tasks.len(),
{
    if tasks.len() == 0 {
        Seq::empty()
    } else if concerns_agent(tasks.last(), workspace) {
        agent_tasks(tasks.drop_last(), workspace).push(tasks.last())
    } else {
        agent_tasks(tasks.drop_last(), workspace)
    }
}

/// The tasks that have to do with the agent.
pub fn agent_related_tasks<'a>(tasks: &'a Vec<Task>, workspace: &str) -> (r: Vec<&'a Task>)
    ensures
        referred(r@) == agent_tasks(tasks@, workspace@),
        r@.len() == agent_tasks(tasks@, workspace@).len(),
{
    let mut out: Vec<&Task> = Vec::new();
    let mut i: usize = 0;
    proof {
        assert(referred(out@) =~= agent_tasks(tasks@.take(0), workspace@));
    }
    while i < tasks.len()
        invariant
            i <= tasks@.len(),
            referred(out@) == agent_tasks(tasks@.take(i as int), workspace@),
        decreases tasks@.len() - i,
    {
        let task = &tasks[i];
        proof {
            assert(tasks@.take(i + 1).drop_last() =~= tasks@.take(i as int));
            assert(referred(out@.push(task)) =~= referred(out@).push(*task));
        }
        if task_related_to_agent(task, workspace) {
            out.push(task);
        }
        i = i + 1;
    }
    proof {
        assert(tasks@.take(tasks@.len() as int) =~= tasks@);
    }
    out
}

/// What the agent has to do with a task.
pub open spec fn task_roles(task: Task, workspace: Seq<char>) -> Seq<char> {
    join(
        text_if(task.assignee@ == workspace, "assignee"@) + text_if(
            task.created_by@ == workspace,
            "created"@,
        ) + text_if(task.claimed_by@ == workspace, "claimed"@) + text_if(
            wrote_log(task.logs@, workspace),
            "log"@,
        ),
        "+"@,
    )
}

fn add_role(roles: &mut Vec<String>, cond: bool, role: &str)
    ensures
        texts(final(roles)@) == texts(old(roles)@) + text_if(cond, role@),
{
    let ghost pre = roles@;
    if cond {
        roles.push(role.to_owned());
    }
    proof {
        assert(texts(roles@) =~= texts(pre) + text_if(cond, role@));
    }
}

/// What the agent has to do with a task.
pub fn agent_task_roles(task: &Task, workspace: &str) -> (r: String)
    ensures
        r@ == task_roles(*task, workspace@),
{
    let mut roles: Vec<String> = Vec::new();
    add_role(&mut roles, same(task.assignee.as_str(), workspace), "assignee");
    add_role(&mut roles, same(task.created_by.as_str(), workspace), "created");
    add_role(&mut roles, same(task.claimed_by.as_str(), workspace), "claimed");
    add_role(&mut roles, has_written_log(&task.logs, workspace), "log");
    proof {
        let first = text_if(task.assignee@ == workspace@, "assignee"@);
        assert(Seq::<Seq<char>>::empty() + first =~= first);
        assert(texts(Seq::<String>::empty()) =~= Seq::<Seq<char>>::empty());
    }
    join_all(&roles, "+")
}

/// The head of the list of an agent's tasks.
pub fn agent_task_header_line(width: usize) -> (r: Line)
    ensures
        r@ == one(
            clipped("ID       STATE         RELATION       TITLE"@, most(width as int, 1)),
            column_header(),
        ),
{
    let wide: usize = if width > 1 {
        width
    } else {
        1
    };
    Line::one(truncate("ID       STATE         RELATION       TITLE", wide), column_header())
}

/// The row of a task in the list of an agent's tasks.
pub open spec fn agent_task_row(task: Task, workspace: Seq<char>, width: int, now: Timestamp) -> Seq<
    SpanView,
> {
    one(
        clipped(
            pad(short_id(task.id@), 8) + " "@ + pad(clipped(task_state(task, now), 13), 13) + " "@
                + pad(clipped(task_roles(task, workspace), 14), 14) + " "@ + task.title@,
            most(width, 1),
        ),
        task_status(task.status, stale(task, now)),
    )
}

/// The row of a task in the list of an agent's tasks.
pub fn agent_task_line(task: &Task, workspace: &str, width: usize, now: Timestamp) -> (r: Line)
    ensures
        r@ == agent_task_row(*task, workspace@, width as int, now),
{
    let wide: usize = if width > 1 {
        width
    } else {
        1
    };
    let row = padded(short_task_id(task.id.as_str()).as_str(), 8).concat(" ").concat(
        padded(truncate(format_task_state(task, now).as_str(), 13).as_str(), 13).as_str(),
    ).concat(" ").concat(
        padded(truncate(agent_task_roles(task, workspace).as_str(), 14).as_str(), 14).as_str(),
    ).concat(" ").concat(task.title.as_str());
    Line::one(truncate(row.as_str(), wide), task_status(task.status, task_is_stale(task, now)))
}

/// The line of what went wrong in reading a file, if anything did.
pub open spec fn error_lines(error: Option<Seq<char>>, width: int) -> Seq<Seq<SpanView>> {
    match error {
        Some(e) => Seq::<Seq<SpanView>>::empty().push(
            labelled("snapshot"@, e, severity(Severity::Danger), width),
        ),
        None => Seq::empty(),
    }
}

fn lines_of_error(error: &Option<String>, width: usize) -> (r: Page)
    ensures
        r@ == error_lines(
            match *error {
                Some(e) => Some(e@),
                None => None,
            },
            width as int,
        ),
{
    let mut page = Page::new();
    if let Some(e) = error {
        push_detail_kv(&mut page, "snapshot", e.as_str(), severity(Severity::Danger), width);
    }
    page
}

/// The tasks that have to do with an agent.
pub open spec fn tasks_tab(s: AppModel, workspace: Seq<char>, width: int, now: Timestamp) -> Seq<
    Seq<SpanView>,
> {
    let tasks = agent_tasks(s.tasks, workspace);
    let top = Seq::<Seq<SpanView>>::empty().push(
        one("agent tasks · "@ + workspace, strong()),
    ).push(
        labelled(
            "policy"@,
            "assignee / created_by / claimed_by / task log workspace"@,
            muted(),
            width,
        ),
    ).push(labelled("source"@, "tasks-state snapshot"@, muted(), width)) + error_lines(
        s.task_snapshot_error,
        width,
    );
    if tasks.len() == 0 {
        top.push(Seq::<SpanView>::empty()).push(
            one(
                "(no tasks for "@ + workspace + " in the loaded task snapshot)"@,
                muted(),
            ),
        )
    } else {
        top.push(Seq::<SpanView>::empty()).push(
            one(
                decimal(tasks.len()) + " matching task"@ + plural(tasks.len() as usize)@,
                muted(),
            ),
        ).push(
            one(
                clipped("ID       STATE         RELATION       TITLE"@, most(width, 1)),
                column_header(),
            ),
        ) + tasks.map_values(|t: Task| agent_task_row(t, workspace, width, now))
    }
}

/// The tasks that have to do with an agent.
#[verifier::loop_isolation(false)]
pub fn agent_tasks_detail(app: &App, workspace: &str, width: usize, now: Timestamp) -> (r: Page)
    ensures
        r@ == tasks_tab(app@, workspace@, width as int, now),
{
    proof {
        model_fields(*app);
    }
    let tasks = agent_related_tasks(&app.tasks, workspace);
    let ghost all = agent_tasks(app@.tasks, workspace@);
    let mut page = Page::new();
    page.push_one("agent tasks · ".to_owned().concat(workspace), strong());
    push_detail_kv(
        &mut page,
        "policy",
        "assignee / created_by / claimed_by / task log workspace",
        muted(),
        width,
    );
    push_detail_kv(&mut page, "source", "tasks-state snapshot", muted(), width);
    page.append(lines_of_error(&app.task_snapshot_error, width));
    page.push_blank();
    if tasks.len() == 0 {
        page.push_one(
            "(no tasks for ".to_owned().concat(workspace).concat(
                " in the loaded task snapshot)",
            ),
            muted(),
        );
        return page;
    }
    page.push_one(
        count_of(tasks.len()).concat(" matching task").concat(plural(tasks.len())),
        muted(),
    );
    page.push(agent_task_header_line(width));
    let ghost top = page@;
    let ghost row_of = |t: Task| agent_task_row(t, workspace@, width as int, now);
    let mut i: usize = 0;
    proof {
        assert(page@ =~= top + all.take(0).map_values(row_of));
    }
    while i < tasks.len()
        invariant
            i <= tasks@.len(),
            page@ == top + all.take(i as int).map_values(row_of),
        decreases tasks@.len() - i,
    {
        page.push(agent_task_line(tasks[i], workspace, width, now));
        proof {
            assert(referred(tasks@)[i as int] == *tasks@[i as int]);
            assert(page@ =~= top + all.take(i + 1).map_values(row_of));
        }
        i = i + 1;
    }
    proof {
        assert(all.take(all.len() as int) =~= all);
    }
    page
}

/// The messages from or to an agent.
pub open spec fn agent_messages(messages: Seq<HistoryEntry>, workspace: Seq<char>) -> Seq<
    HistoryEntry,
>
    decreases messages.len(),
{
    if messages.len() == 0 {
        Seq::empty()
    } else if messages.last().from@ == workspace || messages.last().to@ == workspace {
        agent_messages(messages.drop_last(), workspace).push(messages.last())
    } else {
        agent_messages(messages.drop_last(), workspace)
    }
}

/// The messages from or to an agent.
pub fn agent_related_messages<'a>(messages: &'a Vec<HistoryEntry>, workspace: &str) -> (r: Vec<
    &'a HistoryEntry,
>)
    ensures
        referred(r@) == agent_messages(messages@, workspace@),
        r@.len() == agent_messages(messages@, workspace@).len(),
{
    let mut out: Vec<&HistoryEntry> = Vec::new();
    let mut i: usize = 0;
    proof {
        assert(referred(out@) =~= agent_messages(messages@.take(0), workspace@));
    }
    while i < messages.len()
        invariant
            i <= messages@.len(),
            referred(out@) == agent_messages(messages@.take(i as int), workspace@),
        decreases messages@.len() - i,
    {
        let entry = &messages[i];
        proof {
            assert(messages@.take(i + 1).drop_last() =~= messages@.take(i as int));
            assert(referred(out@.push(entry)) =~= referred(out@).push(*entry));
        }
        if same(entry.from.as_str(), workspace) || same(entry.to.as_str(), workspace) {
            out.push(entry);
        }
        i = i + 1;
    }
    proof {
        assert(messages@.take(messages@.len() as int) =~= messages@);
    }
    out
}

/// The messages from or to an agent.
pub open spec fn messages_tab(s: AppModel, workspace: Seq<char>, width: int) -> Seq<Seq<SpanView>> {
    let entries = agent_messages(s.messages, workspace);
    let top = (Seq::<Seq<SpanView>>::empty().push(
        one("agent messages · "@ + workspace, strong()),
    ).push(labelled("policy"@, "message from/to selected workspace"@, muted(), width)).push(
        labelled("source"@, "message_history loaded tail (max 500 rows)"@, muted(), width),
    ) + error_lines(s.messages_snapshot_error, width)).push(Seq::<SpanView>::empty());
    if entries.len() == 0 {
        top.push(
            one(
                if s.messages.len() == 0 {
                    "(no message history rows loaded yet)"@
                } else {
                    "(no messages for this workspace in the loaded message tail)"@
                },
                muted(),
            ),
        )
    } else {
        top.push(
            one(
                decimal(entries.len()) + " matching message"@ + plural(entries.len() as usize)@
                    + " in loaded tail; older rows may be absent"@,
                muted(),
            ),
        ) + entries.map_values(|e: HistoryEntry| message_line(e, width, None))
    }
}

/// The messages from or to an agent.
#[verifier::loop_isolation(false)]
pub fn agent_messages_detail(app: &App, workspace: &str, width: usize) -> (r: Page)
    ensures
        r@ == messages_tab(app@, workspace@, width as int),
{
    proof {
        model_fields(*app);
    }
    let entries = agent_related_messages(&app.messages, workspace);
    let ghost all = agent_messages(app@.messages, workspace@);
    let mut page = Page::new();
    page.push_one("agent messages · ".to_owned().concat(workspace), strong());
    push_detail_kv(&mut page, "policy", "message from/to selected workspace", muted(), width);
    push_detail_kv(
        &mut page,
        "source",
        "message_history loaded tail (max 500 rows)",
        muted(),
        width,
    );
    page.append(lines_of_error(&app.messages_snapshot_error, width));
    page.push_blank();
    if entries.len() == 0 {
        if app.messages.len() == 0 {
            page.push_str("(no message history rows loaded yet)", muted());
        } else {
            page.push_str("(no messages for this workspace in the loaded message tail)", muted());
        }
        return page;
    }
    page.push_one(
        count_of(entries.len()).concat(" matching message").concat(plural(entries.len())).concat(
            " in loaded tail; older rows may be absent",
        ),
        muted(),
    );
    let ghost top = page@;
    let ghost line_of = |e: HistoryEntry| message_line(e, width as int, None);
    let mut i: usize = 0;
    proof {
        assert(page@ =~= top + all.take(0).map_values(line_of));
    }
    while i < entries.len()
        invariant
            i <= entries@.len(),
            page@ == top + all.take(i as int).map_values(line_of),
        decreases entries@.len() - i,
    {
        page.push(message_list_line(entries[i], width, false, false));
        proof {
            assert(referred(entries@)[i as int] == *entries@[i as int]);
            assert(page@ =~= top + all.take(i + 1).map_values(line_of));
        }
        i = i + 1;
    }
    proof {
        assert(all.take(all.len() as int) =~= all);
    }
    page
}

/// The message tells what the agent did with a tool: it goes to the daemon, or
/// it says so.
pub open spec fn tells_of_agent(entry: HistoryEntry, workspace: Seq<char>) -> bool {
    entry.from@ == workspace && (entry.to@ == "ax.daemon"@ || "mcp tool "@.is_prefix_of(
        lower(entry.content@),
    ))
}

/// The messages that tell what the agent did with tools.
pub open spec fn agent_activity(messages: Seq<HistoryEntry>, workspace: Seq<char>) -> Seq<
    HistoryEntry,
>
    decreases messages.len(),
{
    if messages.len() == 0 {
        Seq::empty()
    } else if tells_of_agent(messages.last(), workspace) {
        agent_activity(messages.drop_last(), workspace).push(messages.last())
    } else {
        agent_activity(messages.drop_last(), workspace)
    }
}

/// The messages that tell what the agent did with tools.
pub fn agent_mcp_activity_entries<'a>(messages: &'a Vec<HistoryEntry>, workspace: &str) -> (r: Vec<
    &'a HistoryEntry,
>)
    ensures
        referred(r@) == agent_activity(messages@, workspace@),
        r@.len() == agent_activity(messages@, workspace@).len(),
{
    let mut out: Vec<&HistoryEntry> = Vec::new();
    let mut i: usize = 0;
    proof {
        assert(referred(out@) =~= agent_activity(messages@.take(0), workspace@));
    }
    while i < messages.len()
        invariant
            i <= messages@.len(),
            referred(out@) == agent_activity(messages@.take(i as int), workspace@),
        decreases messages@.len() - i,
    {
        let entry = &messages[i];
        proof {
            assert(messages@.take(i + 1).drop_last() =~= messages@.take(i as int));
            assert(referred(out@.push(entry)) =~= referred(out@).push(*entry));
        }
        if same(entry.from.as_str(), workspace) && (same(entry.to.as_str(), "ax.daemon") || begins(
            to_lower(entry.content.as_str()).as_str(),
            "mcp tool ",
        )) {
            out.push(entry);
        }
        i = i + 1;
    }
    proof {
        assert(messages@.take(messages@.len() as int) =~= messages@);
    }
    out
}

/// The line of what an agent did.
pub open spec fn did_line(entry: HistoryEntry, width: int) -> Seq<SpanView> {
    match tool_use(entry.content@) {
        Some(told) => tool_line(entry, told, width, None),
        None => one(
            clipped(
                " "@ + clock_text(entry.timestamp.unix_secs() as int) + task_mark(entry.task_id@)
                    + ": "@ + one_line(entry.content@),
                most(width, 1),
            ),
            body_style(entry.content@),
        ),
    }
}

/// The line of what an agent did.
pub fn agent_activity_line(entry: &HistoryEntry, width: usize) -> (r: Line)
    ensures
        r@ == did_line(*entry, width as int),
{
    let told = mcp_tool_activity(entry);
    if let Some(activity) = &told {
        return mcp_tool_activity_line(entry, activity, width, false, false);
    }
    let wide: usize = if width > 1 {
        width
    } else {
        1
    };
    let mark = if entry.task_id.as_str().is_empty() {
        String::new()
    } else {
        " [".to_owned().concat(short_task_id(entry.task_id.as_str()).as_str()).concat("]")
    };
    let raw = " ".to_owned().concat(entry.timestamp.clock().as_str()).concat(
        mark.as_str(),
    ).concat(": ").concat(to_one_line(entry.content.as_str()).as_str());
    Line::one(truncate(raw.as_str(), wide), message_body_style(entry.content.as_str()))
}

/// What an agent did with tools.
pub open spec fn activity_tab(s: AppModel, workspace: Seq<char>, width: int) -> Seq<Seq<SpanView>> {
    let entries = agent_activity(s.messages, workspace);
    let top = Seq::<Seq<SpanView>>::empty().push(
        one("agent activity · "@ + workspace, strong()),
    ).push(
        labelled("policy"@, "MCP tool activity text from message history"@, muted(), width),
    ).push(
        labelled(
            "source"@,
            "message_history loaded tail; structured telemetry is non-MVP"@,
            muted(),
            width,
        ),
    ).push(Seq::<SpanView>::empty());
    if entries.len() == 0 {
        top.push(
            one("(no MCP activity for this workspace in the loaded message tail)"@, muted()),
        )
    } else {
        top + entries.map_values(|e: HistoryEntry| did_line(e, width))
    }
}

/// What an agent did with tools.
#[verifier::loop_isolation(false)]
pub fn agent_activity_detail(app: &App, workspace: &str, width: usize) -> (r: Page)
    ensures
        r@ == activity_tab(app@, workspace@, width as int),
{
    proof {
        model_fields(*app);
    }
    let entries = agent_mcp_activity_entries(&app.messages, workspace);
    let ghost all = agent_activity(app@.messages, workspace@);
    let mut page = Page::new();
    page.push_one("agent activity · ".to_owned().concat(workspace), strong());
    push_detail_kv(
        &mut page,
        "policy",
        "MCP tool activity text from message history",
        muted(),
        width,
    );
    push_detail_kv(
        &mut page,
        "source",
        "message_history loaded tail; structured telemetry is non-MVP",
        muted(),
        width,
    );
    page.push_blank();
    if entries.len() == 0 {
        page.push_str("(no MCP activity for this workspace in the loaded message tail)", muted());
        return page;
    }
    let ghost top = page@;
    let ghost line_of = |e: HistoryEntry| did_line(e, width as int);
    let mut i: usize = 0;
    proof {
        assert(page@ =~= top + all.take(0).map_values(line_of));
    }
    while i < entries.len()
        invariant
            i <= entries@.len(),
            page@ == top + all.take(i as int).map_values(line_of),
        decreases entries@.len() - i,
    {
        page.push(agent_activity_line(entries[i], width));
        proof {
            assert(referred(entries@)[i as int] == *entries@[i as int]);
            assert(page@ =~= top + all.take(i + 1).map_values(line_of));
        }
        i = i + 1;
    }
    proof {
        assert(all.take(all.len() as int) =~= all);
    }
    page
}

/// What the configuration says of an agent.
#[derive(Debug, Clone)]
pub struct AgentConfigDetail {
    pub kind: String,
    pub project: String,
    pub dir: String,
    pub runtime: String,
    pub description: String,
    pub instructions: String,
}

/// What the configuration says of an agent.
pub struct AgentConfig {
    pub kind: Seq<char>,
    pub project: Seq<char>,
    pub dir: Seq<char>,
    pub runtime: Seq<char>,
    pub description: Seq<char>,
    pub instructions: Seq<char>,
}

impl View for AgentConfigDetail {
    type V = AgentConfig;

    open spec fn view(&self) -> AgentConfig {
        AgentConfig {
            kind: self.kind@,
            project: self.project@,
            dir: self.dir@,
            runtime: self.runtime@,
            description: self.description@,
            instructions: self.instructions@,
        }
    }
}

/// What is said of an agent, if anything is.
pub open spec fn opt_config(d: Option<AgentConfigDetail>) -> Option<AgentConfig> {
    match d {
        Some(d) => Some(d@),
        None => None,
    }
}

/// What a project says of the first of its workspaces with that name.
pub open spec fn config_of_workspace(
    node: ProjectNode,
    workspaces: Seq<WorkspaceRef>,
    workspace: Seq<char>,
) -> Option<AgentConfig>
    decreases workspaces.len(),
{
    if workspaces.len() == 0 {
        None
    } else if workspaces[0].merged_name@ == workspace {
        Some(
            AgentConfig {
                kind: "workspace"@,
                project: shown_name(node),
                dir: node.dir@,
                runtime: workspaces[0].runtime@,
                description: workspaces[0].description@,
                instructions: workspaces[0].instructions@,
            },
        )
    } else {
        config_of_workspace(node, workspaces.drop_first(), workspace)
    }
}

/// What a project says of its orchestrator.
pub open spec fn config_of_orchestrator(node: ProjectNode) -> AgentConfig {
    AgentConfig {
        kind: "orchestrator"@,
        project: shown_name(node),
        dir: node.dir@,
        runtime: node.orchestrator_runtime@,
        description: Seq::empty(),
        instructions: Seq::empty(),
    }
}

/// What a project, or else one of the projects below it, says of an agent.
pub open spec fn config_in_tree(node: ProjectNode, workspace: Seq<char>) -> Option<AgentConfig>
    decreases node,
{
    if !node.disable_root_orchestrator && workspace == orchestrator_of(node.prefix@) {
        Some(config_of_orchestrator(node))
    } else {
        match config_of_workspace(node, node.workspaces@, workspace) {
            Some(c) => Some(c),
            None => config_in_forest(node.children@, workspace),
        }
    }
}

/// What the first of the projects that knows an agent says of it.
pub open spec fn config_in_forest(nodes: Seq<ProjectNode>, workspace: Seq<char>) -> Option<
    AgentConfig,
>
    decreases nodes,
{
    if nodes.len() == 0 {
        None
    } else {
        match config_in_forest(nodes.drop_last(), workspace) {
            Some(c) => Some(c),
            None => config_in_tree(nodes.last(), workspace),
        }
    }
}

proof fn found_in_part(nodes: Seq<ProjectNode>, n: int, workspace: Seq<char>)
    requires
        0 <= n <= nodes.len(),
        config_in_forest(nodes.take(n), workspace) is Some,
    ensures
        config_in_forest(nodes, workspace) == config_in_forest(nodes.take(n), workspace),
    decreases nodes.len() - n,
{
    if n < nodes.len() {
        assert(nodes.take(n + 1).drop_last() =~= nodes.take(n));
        found_in_part(nodes, n + 1, workspace);
    } else {
        assert(nodes.take(n) =~= nodes);
    }
}

/// What a project says of the first of its workspaces with that name.
fn workspace_config(node: &ProjectNode, workspace: &str) -> (r: Option<AgentConfigDetail>)
    ensures
        opt_config(r) == config_of_workspace(*node, node.workspaces@, workspace@),
{
    let mut i: usize = 0;
    proof {
        assert(node.workspaces@.skip(0) =~= node.workspaces@);
    }
    while i < node.workspaces.len()
        invariant
            i <= node.workspaces@.len(),
            config_of_workspace(*node, node.workspaces@, workspace@) == config_of_workspace(
                *node,
                node.workspaces@.skip(i as int),
                workspace@,
            ),
        decreases node.workspaces@.len() - i,
    {
        let ws = &node.workspaces[i];
        if same(ws.merged_name.as_str(), workspace) {
            return Some(
                AgentConfigDetail {
                    kind: "workspace".to_owned(),
                    project: node.display_name(),
                    dir: node.dir.clone(),
                    runtime: ws.runtime.clone(),
                    description: ws.description.clone(),
                    instructions: ws.instructions.clone(),
                },
            );
        }
        proof {
            assert(node.workspaces@.skip(i as int).drop_first() =~= node.workspaces@.skip(i + 1));
        }
        i = i + 1;
    }
    None
}

/// What a project, or else one of the projects below it, says of an agent.
pub fn find_agent_config_in_node(node: &ProjectNode, workspace: &str) -> (r: Option<
    AgentConfigDetail,
>)
    ensures
        opt_config(r) == config_in_tree(*node, workspace@),
    decreases *node,
{
    let orchestrator = config_orchestrator_name(node.prefix.as_str());
    if !node.disable_root_orchestrator && same(workspace, orchestrator.as_str()) {
        return Some(
            AgentConfigDetail {
                kind: "orchestrator".to_owned(),
                project: node.display_name(),
                dir: node.dir.clone(),
                runtime: node.orchestrator_runtime.clone(),
                description: String::new(),
                instructions: String::new(),
            },
        );
    }
    let own = workspace_config(node, workspace);
    if own.is_some() {
        return own;
    }
    let mut k: usize = 0;
    while k < node.children.len()
        invariant
            k <= node.children@.len(),
            config_in_forest(node.children@.take(k as int), workspace@) is None,
            config_in_tree(*node, workspace@) == config_in_forest(node.children@, workspace@),
        decreases node.children@.len() - k,
    {
        proof {
            assert(node.children@.take(k + 1).drop_last() =~= node.children@.take(k as int));
        }
        let found = find_agent_config_in_node(&node.children[k], workspace);
        if found.is_some() {
            proof {
                found_in_part(node.children@, k + 1, workspace@);
            }
            return found;
        }
        k = k + 1;
    }
    proof {
        assert(node.children@.take(node.children@.len() as int) =~= node.children@);
    }
    None
}

/// What the configuration says of an agent.
pub open spec fn config_found(tree: Option<ProjectNode>, workspace: Seq<char>) -> Option<
    AgentConfig,
> {
    match tree {
        Some(node) => config_in_tree(node, workspace),
        None => None,
    }
}

/// What the configuration says of an agent.
pub fn find_agent_config_detail(tree: &Option<ProjectNode>, workspace: &str) -> (r: Option<
    AgentConfigDetail,
>)
    ensures
        opt_config(r) == config_found(*tree, workspace@),
{
    match tree {
        Some(node) => find_agent_config_in_node(node, workspace),
        None => None,
    }
}

/// The instructions of an agent, line by line.
pub open spec fn instruction_lines(config: AgentConfig, width: int) -> Seq<Seq<SpanView>> {
    if trim(config.instructions).len() == 0 {
        Seq::<Seq<SpanView>>::empty().push(
            one(
                if config.kind == "orchestrator"@ {
                    "(generated orchestrator prompt is not displayed in the MVP)"@
                } else {
                    "(no config instructions for this workspace)"@
                },
                muted(),
            ),
        )
    } else {
        lines(trim(config.instructions)).map_values(
            |raw: Seq<char>| one(clipped(raw, width), plain()),
        )
    }
}

#[verifier::loop_isolation(false)]
fn lines_of_instructions(config: &AgentConfigDetail, width: usize) -> (r: Page)
    ensures
        r@ == instruction_lines(config@, width as int),
{
    let mut page = Page::new();
    let text = trimmed(config.instructions.as_str());
    if text.as_str().is_empty() {
        if same(config.kind.as_str(), "orchestrator") {
            page.push_str("(generated orchestrator prompt is not displayed in the MVP)", muted());
        } else {
            page.push_str("(no config instructions for this workspace)", muted());
        }
        return page;
    }
    let told = lines_of(text.as_str());
    let ghost all = lines(text@);
    let ghost line_of = |raw: Seq<char>| one(clipped(raw, width as int), plain());
    let mut i: usize = 0;
    proof {
        assert(page@ =~= all.take(0).map_values(line_of));
    }
    while i < told.len()
        invariant
            i <= told@.len(),
            texts(told@) == all,
            page@ == all.take(i as int).map_values(line_of),
        decreases told@.len() - i,
    {
        let raw = told[i].as_str();
        page.push_one(truncate(raw, width), plain());
        proof {
            assert(raw@ == all[i as int]);
            assert(page@ =~= all.take(i + 1).map_values(line_of));
        }
        i = i + 1;
    }
    proof {
        assert(all.take(all.len() as int) =~= all);
    }
    page
}

/// What the configuration says of an agent. The directory is that of the
/// workspace, where it is known, else that of the project.
pub open spec fn config_tab(s: AppModel, workspace: Seq<char>, width: int) -> Seq<Seq<SpanView>> {
    let top = Seq::<Seq<SpanView>>::empty().push(one("agent config · "@ + workspace, strong()));
    match config_found(s.tree, workspace) {
        None => top.push(Seq::<SpanView>::empty()).push(
            one("(selected workspace is not present in the loaded config tree)"@, muted()),
        ).push(one("exact generated orchestrator prompt display is non-MVP"@, muted())),
        Some(config) => {
            let dir = match s.workspace_dirs.lookup(workspace) {
                Some(d) => d@,
                None => config.dir,
            };
            (top.push(labelled("kind"@, config.kind, info(), width)).push(
                labelled("project"@, config.project, muted(), width),
            ).push(labelled("dir"@, dir, muted(), width)).push(
                labelled(
                    "runtime"@,
                    if config.runtime.len() == 0 { "(default)"@ } else { config.runtime },
                    muted(),
                    width,
                ),
            ) + line_if(
                config.description.len() > 0,
                labelled("description"@, config.description, info(), width),
            )).push(Seq::<SpanView>::empty()).push(one("instructions:"@, strong()))
                + instruction_lines(config, width)
        },
    }
}

/// What the configuration says of an agent.
pub fn agent_instructions_detail(app: &App, workspace: &str, width: usize) -> (r: Page)
    requires
        app@.wf(),
    ensures
        r@ == config_tab(app@, workspace@, width as int),
{
    proof {
        model_fields(*app);
    }
    let mut page = Page::new();
    page.push_one("agent config · ".to_owned().concat(workspace), strong());
    let found = find_agent_config_detail(&app.tree, workspace);
    match &found {
        None => {
            page.push_blank();
            page.push_str("(selected workspace is not present in the loaded config tree)", muted());
            page.push_str("exact generated orchestrator prompt display is non-MVP", muted());
        },
        Some(config) => {
            let dir = match app.workspace_dirs.get(workspace) {
                Some(d) => d.as_str(),
                None => config.dir.as_str(),
            };
            push_detail_kv(&mut page, "kind", config.kind.as_str(), info(), width);
            push_detail_kv(&mut page, "project", config.project.as_str(), muted(), width);
            push_detail_kv(&mut page, "dir", dir, muted(), width);
            push_detail_kv(
                &mut page,
                "runtime",
                if config.runtime.as_str().is_empty() {
                    "(default)"
                } else {
                    config.runtime.as_str()
                },
                muted(),
                width,
            );
            push_detail_kv_if(
                &mut page,
                !config.description.as_str().is_empty(),
                "description",
                config.description.as_str(),
                info(),
                width,
            );
            page.push_blank();
            page.push_str("instructions:", strong());
            page.append(lines_of_instructions(config, width));
        },
    }
    page
}

/// The detail half of the body while agents are listed.
pub open spec fn agent_detail_shown(
    s: AppModel,
    area: Rect,
    usage: UsageTexts,
    now: Timestamp,
) -> Seq<Seq<SpanView>> {
    let width = area.width as int;
    match workspace_selected(s) {
        None => Seq::<Seq<SpanView>>::empty().push(
            one("  (select an agent with ↑/↓ to see its detail)"@, muted()),
        ),
        Some(workspace) => match s.agent_detail_tab {
            AgentDetailTab::Overview => overview(s, workspace, area, usage),
            AgentDetailTab::Tasks => tasks_tab(s, workspace, width, now),
            AgentDetailTab::Messages => messages_tab(s, workspace, width),
            AgentDetailTab::Instructions => config_tab(s, workspace, width),
            AgentDetailTab::Activity => activity_tab(s, workspace, width),
        },
    }
}

/// The detail half of the body while agents are listed.
pub fn draw_agents_detail(app: &App, area: Rect, usage: &UsageTexts, now: Timestamp) -> (r: Page)
    requires
        app@.wf(),
    ensures
        r@ == agent_detail_shown(app@, area, *usage, now),
{
    proof {
        model_fields(*app);
    }
    let width: usize = area.width as usize;
    match app.selected_workspace() {
        None => {
            let mut page = Page::new();
            page.push_str("  (select an agent with ↑/↓ to see its detail)", muted());
            page
        },
        Some(workspace) => match app.agent_detail_tab {
            AgentDetailTab::Overview => agent_overview(app, workspace, area, usage),
            AgentDetailTab::Tasks => agent_tasks_detail(app, workspace, width, now),
            AgentDetailTab::Messages => agent_messages_detail(app, workspace, width),
            AgentDetailTab::Instructions => agent_instructions_detail(app, workspace, width),
            AgentDetailTab::Activity => agent_activity_detail(app, workspace, width),
        },
    }
}

/// The detail half of the body while a terminal is mirrored.
pub open spec fn stream_detail_shown(s: AppModel) -> Seq<Seq<SpanView>> {
    match s.streamed_workspace {
        None => Seq::<Seq<SpanView>>::empty().push(
            one(
                "  (no workspace streaming yet — open the agents tab, press Enter → Stream tmux)"@,
                muted(),
            ),
        ),
        Some(workspace) => Seq::<Seq<SpanView>>::empty().push(
            two("mirroring  "@, muted(), workspace, strong()),
        ) + (match s.workspace_infos.lookup(workspace) {
            Some(w) => Seq::<Seq<SpanView>>::empty().push(
                two(
                    "status     "@,
                    muted(),
                    agent_status_str(w.status)@,
                    agent_status(w.status),
                ),
            ) + line_if(
                w.status_text@.len() > 0,
                two("note       "@, muted(), w.status_text@, plain()),
            ),
            None => Seq::empty(),
        }) + session_lines(s, "session    "@, workspace),
    }
}

/// The detail half of the body while a terminal is mirrored.
pub fn draw_stream_detail(app: &App) -> (r: Page)
    requires
        app@.wf(),
    ensures
        r@ == stream_detail_shown(app@),
{
    proof {
        model_fields(*app);
    }
    let mut page = Page::new();
    match &app.streamed_workspace {
        None => {
            page.push_str(
                "  (no workspace streaming yet — open the agents tab, press Enter → Stream tmux)",
                muted(),
            );
        },
        Some(workspace) => {
            page.push_two("mirroring  ", muted(), workspace.clone(), strong());
            let mut told = Page::new();
            if let Some(w) = app.workspace_infos.get(workspace.as_str()) {
                told.push_two(
                    "status     ",
                    muted(),
                    agent_status_str(w.status).to_owned(),
                    agent_status(w.status),
                );
                told.push_if(
                    !w.status_text.as_str().is_empty(),
                    Line::two("note       ".to_owned(), muted(), w.status_text.clone(), plain()),
                );
            }
            page.append(told);
            page.append(lines_of_session(app, "session    ", workspace.as_str()));
        },
    }
    page
}

} // verus!
