//! What holds of scopes, waiting, messages and reports of tools.

use vstd::prelude::*;

use crate::config::ProjectNode;
use crate::keyed::TextMap;
use crate::mcp::agents::{registered, ConfiguredAgent};
use crate::mcp::client::{
    after_received, client_error_text, receiver, DaemonClientError, Incoming, Traffic,
};
use crate::mcp::errors::{ErrorKind, Refusal};
use crate::mcp::memory_scope::{
    prefix_in_forest, prefix_in_tree, problem_text, project_resolved, resolved, resolved_all,
    resolved_first, scope_of_project, FoundConfig, ScopeProblem,
};
use crate::mcp::requests::{InspectAgentRequest, MemoryQueryRequest};
use crate::mcp::server::{
    broadcast_text, each_message_read, memories_wanted, memory_wanted, message_read, messages_read,
    wanted_scope, Remembered, Server,
};
use crate::mcp::telemetry::{activity_field, code_name, recorded, McpErrorCode, ToolOutcome};
use crate::mcp::waiting::{
    absence_hint, contents, gives_up_at, inspected, message_to_answer, patience, question_of,
    question_to_answer, Inspected, NextStep, ReplyWait, DEFAULT_INSPECT_QUESTION,
};
use crate::proto::envelope::MessageType;
use crate::proto::types::{Message, WorkspaceInfo};
use crate::text::{
    decimal, join, lower, lower_char, number, quoted, texts, trim, trim_is_trim, trim_keeps,
};

verus! {

/// A selector that says nothing or `workspace`, in capitals or not, means the
/// scope of the workspace; `global` means everyone's; `project` what the project
/// is found to be.
pub proof fn short_selectors_mean_their_scope(
    raw: Seq<char>,
    workspace: Seq<char>,
    config: FoundConfig,
)
    ensures
        trim(raw).len() == 0 ==> resolved(raw, workspace, config) == Ok::<Seq<char>, ScopeProblem>(
            "workspace:"@ + trim(workspace),
        ),
        lower(trim(raw)) == "workspace"@ ==> resolved(raw, workspace, config) == Ok::<
            Seq<char>,
            ScopeProblem,
        >("workspace:"@ + trim(workspace)),
        lower(trim(raw)) == "global"@ ==> resolved(raw, workspace, config) == Ok::<
            Seq<char>,
            ScopeProblem,
        >("global"@),
        lower(trim(raw)) == "project"@ ==> resolved(raw, workspace, config) == project_resolved(
            workspace,
            config,
        ),
{
    reveal_strlit("workspace");
    reveal_strlit("global");
    reveal_strlit("project");
    assert("workspace"@.len() == 9 && "global"@.len() == 6 && "project"@.len() == 7);
    assert(lower(trim(raw)).len() == trim(raw).len());
}

/// A selector that names a kind and a value, the kind in capitals or not, means
/// that value of that kind. A project without a value is the root; a workspace or
/// a task without one is refused.
pub proof fn long_selectors_keep_their_kind(
    raw: Seq<char>,
    value: Seq<char>,
    workspace: Seq<char>,
    config: FoundConfig,
)
    requires
        value == trim(value),
    ensures
        value.len() > 0 && trim(raw) == "workspace:"@ + value ==> resolved(raw, workspace, config)
            == Ok::<Seq<char>, ScopeProblem>("workspace:"@ + value),
        value.len() > 0 && trim(raw) == "project:"@ + value ==> resolved(raw, workspace, config)
            == Ok::<Seq<char>, ScopeProblem>("project:"@ + value),
        value.len() > 0 && trim(raw) == "task:"@ + value ==> resolved(raw, workspace, config)
            == Ok::<Seq<char>, ScopeProblem>("task:"@ + value),
        trim(raw) == "project:"@ ==> resolved(raw, workspace, config) == Ok::<
            Seq<char>,
            ScopeProblem,
        >("project:root"@),
        trim(raw) == "workspace:"@ || trim(raw) == "task:"@ ==> resolved(raw, workspace, config)
            == Err::<Seq<char>, ScopeProblem>(ScopeProblem::Invalid(raw)),
{
    reveal_strlit("workspace:");
    reveal_strlit("project:");
    reveal_strlit("task:");
    reveal_strlit("project:root");
    reveal_strlit("root");
    reveal_strlit("global");
    reveal_strlit("workspace");
    reveal_strlit("project");
    let s = trim(raw);
    trim_is_trim(raw);
    trim_keeps(s);
    assert("workspace:"@.len() == 10 && "project:"@.len() == 8 && "task:"@.len() == 5);
    assert("global"@.len() == 6 && "workspace"@.len() == 9 && "project"@.len() == 7);
    assert("root"@.len() == 4 && "project:root"@.len() == 12);
    assert(lower("workspace:"@) =~= "workspace:"@);
    assert(lower("project:"@) =~= "project:"@);
    assert(lower("task:"@) =~= "task:"@);
    assert("project:root"@ =~= "project:"@ + "root"@);
    labelled("workspace:"@, value);
    labelled("project:"@, value);
    labelled("task:"@, value);
    labelled("project:"@, Seq::empty());
    labelled("workspace:"@, Seq::empty());
    labelled("task:"@, Seq::empty());
    assert("workspace:"@ + Seq::<char>::empty() =~= "workspace:"@);
    assert("project:"@ + Seq::<char>::empty() =~= "project:"@);
    assert("task:"@ + Seq::<char>::empty() =~= "task:"@);
    assert("workspace:"@[0] == 'w' && "project:"@[0] == 'p' && "task:"@[0] == 't');
    assert("global"@[0] == 'g' && "workspace"@[0] == 'w' && "project"@[0] == 'p');
    assert("workspace:"@[9] == ':' && "project:"@[7] == ':' && "task:"@[4] == ':');
    assert(lower(s).len() == s.len());
    if s.len() > 0 {
        assert(lower(s)[0] == lower_char(s[0]));
    }
}

proof fn labelled(prefix: Seq<char>, value: Seq<char>)
    requires
        lower(prefix) == prefix,
        trim(value) == value,
    ensures
        prefix.is_prefix_of(lower(prefix + value)),
        prefix.is_prefix_of(prefix + value),
        trim((prefix + value).skip(prefix.len() as int)) == value,
        (prefix + value).len() == prefix.len() + value.len(),
{
    let s = prefix + value;
    assert(s.skip(prefix.len() as int) =~= value);
    assert forall|i: int| 0 <= i < prefix.len() implies #[trigger] lower(s)[i] == prefix[i] by {
        assert(lower(prefix)[i] == lower(s)[i]);
    }
    assert(prefix =~= lower(s).subrange(0, prefix.len() as int));
    assert(prefix =~= s.subrange(0, prefix.len() as int));
}

/// Without selectors, what everyone, the project and the workspace share is
/// looked at.
pub proof fn everything_shared_is_the_default(workspace: Seq<char>, config: FoundConfig)
    ensures
        resolved_all(Seq::empty(), workspace, config) == resolved_all(
            seq!["global"@, "project"@, "workspace"@],
            workspace,
            config,
        ),
{
}

/// One more selector adds what it means at the end, unless that is there already;
/// it is refused where one of them is, and the first such refusal is told.
pub proof fn one_more_selector_adds_its_scope(
    selectors: Seq<Seq<char>>,
    n: int,
    workspace: Seq<char>,
    config: FoundConfig,
)
    requires
        0 < n <= selectors.len(),
    ensures
        ({
            let fewer = resolved_first(selectors, n - 1, workspace, config);
            let all = resolved_first(selectors, n, workspace, config);
            let scope = resolved(selectors[n - 1], workspace, config);
            &&& all is Err <==> fewer is Err || scope is Err
            &&& fewer is Err ==> all->Err_0 == fewer->Err_0
            &&& fewer is Ok && scope is Err ==> all->Err_0 == scope->Err_0
            &&& all is Ok ==> fewer->Ok_0.is_prefix_of(all->Ok_0) && all->Ok_0.contains(
                scope->Ok_0,
            )
            &&& all is Ok && fewer->Ok_0.contains(scope->Ok_0) ==> all->Ok_0 == fewer->Ok_0
            &&& all is Ok && !fewer->Ok_0.contains(scope->Ok_0) ==> all->Ok_0 == fewer->Ok_0.push(
                scope->Ok_0,
            )
        }),
{
    let fewer = resolved_first(selectors, n - 1, workspace, config);
    let all = resolved_first(selectors, n, workspace, config);
    let scope = resolved(selectors[n - 1], workspace, config);
    if all is Ok {
        let k = fewer->Ok_0.len() as int;
        assert(fewer->Ok_0 =~= all->Ok_0.subrange(0, k));
        if !fewer->Ok_0.contains(scope->Ok_0) {
            assert(all->Ok_0[k] == scope->Ok_0);
        }
    }
}

/// A project without a prefix is the root, and any other goes by its prefix.
pub proof fn projects_go_by_prefix(prefix: Seq<char>)
    ensures
        trim(prefix).len() == 0 ==> scope_of_project(prefix) == "project:root"@,
        trim(prefix).len() > 0 ==> scope_of_project(prefix) == "project:"@ + trim(prefix),
{
}

/// A workspace belongs to the project that lists it, and an orchestrator to the
/// project whose prefix it carries.
pub proof fn workspaces_belong_to_their_project(node: ProjectNode, i: int)
    ensures
        0 <= i < node.workspaces@.len() ==> prefix_in_tree(node, node.workspaces@[i].merged_name@)
            == Some(node.prefix@),
        node.prefix@.len() == 0 ==> prefix_in_tree(node, "orchestrator"@) == Some(node.prefix@),
        node.prefix@.len() > 0 ==> prefix_in_tree(node, node.prefix@ + ".orchestrator"@) == Some(
            node.prefix@,
        ),
{
    if 0 <= i < node.workspaces@.len() {
        assert(node.workspaces@[i].merged_name@ == node.workspaces@[i].merged_name@);
    }
}

/// The project of a workspace is found exactly where the configuration was read
/// and the workspace is in it; what is wrong otherwise is told.
pub proof fn project_needs_a_configuration(workspace: Seq<char>, config: FoundConfig)
    ensures
        config is Missing ==> project_resolved(workspace, config) == Err::<
            Seq<char>,
            ScopeProblem,
        >(ScopeProblem::ConfigNotFound),
        config is Unreadable ==> project_resolved(workspace, config) is Err && project_resolved(
            workspace,
            config,
        )->Err_0 is LoadTree,
        config matches FoundConfig::Loaded { path, tree } ==> (project_resolved(
            workspace,
            config,
        ) is Ok <==> prefix_in_tree(tree, workspace) is Some),
        config matches FoundConfig::Loaded { path, tree } ==> (project_resolved(
            workspace,
            config,
        ) is Err ==> project_resolved(workspace, config)->Err_0 is WorkspaceNotInTree),
{
}

/// A memory is kept for the workspace, unless a scope is given.
pub proof fn memories_stay_with_the_workspace(scope: Option<String>)
    ensures
        scope is None ==> wanted_scope(scope) == "workspace"@,
        scope is Some ==> wanted_scope(scope) == scope->0@,
{
}

/// A tool waits two minutes where nothing is said, as long as is said otherwise,
/// and a second at least; it gives up as many thousandths after it started.
pub proof fn tools_wait_as_long_as_told(timeout: Option<i64>, now: u64)
    ensures
        timeout is None ==> patience(timeout) == 120,
        timeout is Some && timeout->0 >= 1 ==> patience(timeout) == timeout->0,
        timeout is Some && timeout->0 < 1 ==> patience(timeout) == 1,
        gives_up_at(now, patience(timeout)) == now + 1000 * patience(timeout),
        gives_up_at(now, patience(timeout)) >= now + 1000,
{
}

/// A tool that waits looks for ten messages of the one it asked until its time is
/// up, pauses for three seconds after each look that finds nothing, and is
/// answered as soon as it finds something.
pub proof fn waiting_ends_with_an_answer_or_in_time(
    w: ReplyWait,
    now: u64,
    messages: Seq<Message>,
)
    ensures
        w.before_look(now) is GaveUp <==> now >= w.deadline,
        now < w.deadline ==> w.before_look(now) == (NextStep::Read { limit: 10, from: w.from@ }),
        messages.len() == 0 <==> w.after_look(messages) == NextStep::Sleep(3000),
        messages.len() > 0 <==> w.after_look(messages) is Answered,
        messages.len() == 1 ==> w.after_look(messages) == NextStep::Answered(
            trim(messages[0].content@ + "\n"@),
        ),
{
    if messages.len() == 1 {
        assert(contents(messages.drop_last()) =~= Seq::empty());
        assert(contents(messages) =~= messages[0].content@ + "\n"@);
    }
}

/// What several messages say is said in their order, each on its own line.
pub proof fn one_more_message_is_read_last(messages: Seq<Message>, m: Message)
    ensures
        contents(messages.push(m)) == contents(messages) + m.content@ + "\n"@,
        each_message_read(messages.push(m)) == each_message_read(messages) + message_read(m),
        contents(Seq::empty()).len() == 0,
        each_message_read(Seq::empty()).len() == 0,
{
    assert(messages.push(m).drop_last() =~= messages);
    assert(messages.push(m).last() == m);
}

/// An agent is asked how it is doing exactly where it is configured and
/// registered; one that is not configured is refused, and one that is not
/// registered is told to be absent.
pub proof fn only_present_agents_are_asked(
    req: InspectAgentRequest,
    workspaces: TextMap<ConfiguredAgent>,
    config_path: Seq<char>,
    active: Seq<WorkspaceInfo>,
    caller: Seq<char>,
)
    ensures
        ({
            let r = inspected(req, workspaces, config_path, active, caller);
            let configured = workspaces.lookup(req.name@) is Some;
            let present = registered(active, req.name@) is Some;
            &&& r is Err <==> !configured
            &&& r is Err ==> r->Err_0.kind == ErrorKind::InvalidParams
            &&& r is Ok ==> (r->Ok_0 is Absent <==> !present)
            &&& r is Ok ==> (r->Ok_0 is Ask <==> present)
            &&& r matches Ok(Inspected::Ask { asked, question, description }) ==> {
                &&& asked.to == req.name@
                &&& asked.config_path == config_path
                &&& asked.timeout == patience(req.timeout)
                &&& question.is_prefix_of(asked.message)
                &&& req.question is Some && trim(req.question->0@).len() > 0 ==> question == trim(
                    req.question->0@,
                )
                &&& req.question is None || trim(req.question->0@).len() == 0 ==> question
                    == DEFAULT_INSPECT_QUESTION@
                &&& description == workspaces.lookup(req.name@)->0.description@
            }
        }),
{
    let q = question_of(req.question);
    let m = question_to_answer(q, caller);
    assert(q =~= m.subrange(0, q.len() as int));
}

/// A message that asks for an answer says the message first, and is longer for
/// naming who waits, twice.
pub proof fn question_comes_first(message: Seq<char>, caller: Seq<char>)
    ensures
        message.is_prefix_of(message_to_answer(message, caller)),
        message.is_prefix_of(question_to_answer(message, caller)),
        message_to_answer(message, caller).len() >= message.len() + 2 * caller.len(),
        question_to_answer(message, caller).len() >= message.len() + caller.len(),
{
    assert(message =~= message_to_answer(message, caller).subrange(0, message.len() as int));
    assert(message =~= question_to_answer(message, caller).subrange(0, message.len() as int));
}

/// Someone who did not reply is told not to be registered exactly where they are
/// not.
pub proof fn absence_is_told(target: Option<WorkspaceInfo>)
    ensures
        absence_hint(target) == "; target is not currently registered"@ ==> target is None,
        target is None ==> absence_hint(target) == "; target is not currently registered"@,
        target is Some && target->0.last_activity_at is None ==> absence_hint(target)
            == "; target has no recorded activity"@,
        target is Some && target->0.last_activity_at is Some ==> (
        "; target last active at "@).is_prefix_of(absence_hint(target)),
{
    reveal_strlit("; target is not currently registered");
    reveal_strlit("; target has no recorded activity");
    reveal_strlit("; target last active at ");
    assert("; target is not currently registered"@[9] == 'i');
    assert("; target has no recorded activity"@[9] == 'h');
    assert("; target last active at "@[9] == 'l' && "; target last active at "@.len() == 24);
    if target is Some && target->0.last_activity_at is Some {
        assert("; target last active at "@ =~= absence_hint(target).subrange(0, 24));
        assert(absence_hint(target)[9] == 'l');
    }
}

/// A configuration that was given is used, whatever was found; one that was found
/// is used where none was given; and it is an error, not the caller's, where there
/// is neither.
pub proof fn given_configuration_comes_first(server: Server, found: Option<Seq<char>>)
    ensures
        server.config_path is Some ==> server.base_config(found) == Ok::<
            Seq<char>,
            Refusal,
        >(server.config_path->0@),
        server.config_path is None && found is Some ==> server.base_config(found) == Ok::<
            Seq<char>,
            Refusal,
        >(found->0),
        server.base_config(found) is Err <==> server.config_path is None && found is None,
        server.base_config(found) is Err ==> server.base_config(found)->Err_0.kind
            == ErrorKind::Internal,
{
}

/// What is read out says how many messages there are, and then each of them, by
/// whom it was sent and what it says.
pub proof fn messages_are_read_out(messages: Seq<Message>, m: Message)
    ensures
        messages.len() == 0 ==> messages_read(messages) == "No pending messages."@,
        messages.len() > 0 ==> messages_read(messages) == decimal(messages.len())
            + " message(s):\n\n"@ + each_message_read(messages),
        ("From: "@ + m.from@).is_prefix_of(message_read(m)),
        (m.content@ + "\n\n---\n\n"@).is_suffix_of(message_read(m)),
{
    let r = message_read(m);
    let head = "From: "@ + m.from@;
    let tail = m.content@ + "\n\n---\n\n"@;
    assert(head =~= r.subrange(0, head.len() as int));
    assert(tail =~= r.subrange(r.len() - tail.len(), r.len() as int));
}

/// A message to all names everyone it reached, and how many they are.
pub proof fn broadcast_names_everyone(recipients: Seq<Seq<char>>)
    ensures
        recipients.len() == 0 <==> broadcast_text(recipients)
            == "No other workspaces to broadcast to."@,
        recipients.len() > 0 ==> broadcast_text(recipients) == "Broadcast sent to "@ + decimal(
            recipients.len(),
        ) + " workspace(s): "@ + join(recipients, ", "@),
{
    reveal_strlit("No other workspaces to broadcast to.");
    reveal_strlit("Broadcast sent to ");
    assert("No other workspaces to broadcast to."@[0] == 'N');
    assert("Broadcast sent to "@[0] == 'B' && "Broadcast sent to "@.len() == 18);
    if recipients.len() > 0 {
        assert(broadcast_text(recipients)[0] == 'B');
    }
}

/// A tool that did its work is recorded as such, without a word; one that failed
/// is recorded with what it said, and the daemon learns the kind alone.
pub proof fn failures_are_recorded(outcome: ToolOutcome)
    ensures
        recorded(outcome).ok <==> outcome is Done,
        recorded(outcome).ok ==> recorded(outcome).told_file.len() == 0 && recorded(
            outcome,
        ).told_daemon.len() == 0,
        outcome matches ToolOutcome::Failed(said) ==> recorded(outcome).told_daemon == "TOOL_ERROR"@
            && (trim(join(texts(said@), "\n"@)).len() > 0 ==> recorded(outcome).told_file == join(
            texts(said@),
            "\n"@,
        )) && (trim(join(texts(said@), "\n"@)).len() == 0 ==> recorded(outcome).told_file
            == "tool returned isError=true"@),
        outcome matches ToolOutcome::Refused { code, message } ==> recorded(outcome).told_file
            == message@ && recorded(outcome).told_daemon == code_name(code),
{
}

/// Each kind of error has a name of its own.
pub proof fn error_kinds_have_names(code: McpErrorCode)
    ensures
        code == McpErrorCode::ResourceNotFound ==> code_name(code) == "RESOURCE_NOT_FOUND"@,
        code == McpErrorCode::InvalidRequest ==> code_name(code) == "INVALID_REQUEST"@,
        code == McpErrorCode::MethodNotFound ==> code_name(code) == "METHOD_NOT_FOUND"@,
        code == McpErrorCode::InvalidParams ==> code_name(code) == "INVALID_PARAMS"@,
        code == McpErrorCode::InternalError ==> code_name(code) == "INTERNAL_ERROR"@,
        code == McpErrorCode::ParseError ==> code_name(code) == "PARSE_ERROR"@,
        code == McpErrorCode::UrlElicitationRequired ==> code_name(code)
            == "URL_ELICITATION_REQUIRED"@,
        code is Other ==> "ERROR_CODE_"@.is_prefix_of(code_name(code)),
{
    if code is Other {
        assert("ERROR_CODE_"@ =~= code_name(code).subrange(0, "ERROR_CODE_"@.len() as int));
    }
}

/// A field of a record stands on one line and is cut after two hundred and forty
/// characters, where it is longer; what is not cut is the text without white space
/// around it, with a space for each line end.
pub proof fn fields_stand_on_one_line(raw: Seq<char>, i: int)
    ensures
        trim(raw).len() <= 240 ==> activity_field(raw).len() == trim(raw).len(),
        trim(raw).len() > 240 ==> activity_field(raw).len() == 243,
        0 <= i < trim(raw).len() && i < 240 ==> activity_field(raw)[i] == if trim(raw)[i] == '\n'
            || trim(raw)[i] == '\r' {
            ' '
        } else {
            trim(raw)[i]
        },
{
    reveal_strlit("...");
    assert("..."@.len() == 3);
}

/// An envelope that came unasked is kept, as the last one, where it could be read;
/// an answer is kept by nobody, and whatever else came changes nothing.
pub proof fn pushes_are_kept_in_order(t: Traffic, incoming: Incoming)
    ensures
        incoming matches Incoming::Push(Some(m)) ==> after_received(t, incoming).pushes
            == t.pushes.push(m) && after_received(t, incoming).pending == t.pending,
        incoming matches Incoming::Push(None) ==> after_received(t, incoming) == t,
        incoming is Other ==> after_received(t, incoming) == t,
        incoming is Answer ==> after_received(t, incoming).pushes == t.pushes,
        !(incoming is Answer) ==> receiver(t, incoming) is None,
        incoming matches Incoming::Answer(id) ==> (receiver(t, incoming) is Some
            <==> t.pending.contains(id@)),
{
}

/// Each kind of envelope is called by its own name.
pub proof fn envelopes_have_names(kind: MessageType)
    ensures
        kind == MessageType::Register ==> kind.name()@ == "Register"@,
        kind == MessageType::Unregister ==> kind.name()@ == "Unregister"@,
        kind == MessageType::SendMessage ==> kind.name()@ == "SendMessage"@,
        kind == MessageType::Broadcast ==> kind.name()@ == "Broadcast"@,
        kind == MessageType::ReadMessages ==> kind.name()@ == "ReadMessages"@,
        kind == MessageType::ListWorkspaces ==> kind.name()@ == "ListWorkspaces"@,
        kind == MessageType::SetStatus ==> kind.name()@ == "SetStatus"@,
        kind == MessageType::RecordMcpToolActivity ==> kind.name()@ == "RecordMcpToolActivity"@,
        kind == MessageType::ControlLifecycle ==> kind.name()@ == "ControlLifecycle"@,
        kind == MessageType::AgentLifecycle ==> kind.name()@ == "AgentLifecycle"@,
        kind == MessageType::SetShared ==> kind.name()@ == "SetShared"@,
        kind == MessageType::GetShared ==> kind.name()@ == "GetShared"@,
        kind == MessageType::ListShared ==> kind.name()@ == "ListShared"@,
        kind == MessageType::RememberMemory ==> kind.name()@ == "RememberMemory"@,
        kind == MessageType::RecallMemories ==> kind.name()@ == "RecallMemories"@,
        kind == MessageType::UsageTrends ==> kind.name()@ == "UsageTrends"@,
        kind == MessageType::CreateTask ==> kind.name()@ == "CreateTask"@,
        kind == MessageType::StartTask ==> kind.name()@ == "StartTask"@,
        kind == MessageType::UpdateTask ==> kind.name()@ == "UpdateTask"@,
        kind == MessageType::GetTask ==> kind.name()@ == "GetTask"@,
        kind == MessageType::ListTasks ==> kind.name()@ == "ListTasks"@,
        kind == MessageType::CancelTask ==> kind.name()@ == "CancelTask"@,
        kind == MessageType::RemoveTask ==> kind.name()@ == "RemoveTask"@,
        kind == MessageType::InterveneTask ==> kind.name()@ == "InterveneTask"@,
        kind == MessageType::GetTeamState ==> kind.name()@ == "GetTeamState"@,
        kind == MessageType::DryRunTeam ==> kind.name()@ == "DryRunTeam"@,
        kind == MessageType::ApplyTeam ==> kind.name()@ == "ApplyTeam"@,
        kind == MessageType::FinishTeam ==> kind.name()@ == "FinishTeam"@,
        kind == MessageType::PushMessage ==> kind.name()@ == "PushMessage"@,
        kind == MessageType::Response ==> kind.name()@ == "Response"@,
        kind == MessageType::Error ==> kind.name()@ == "Error"@,
{
}

/// What is said of a request without an answer tells what went wrong, and ends
/// with what the other side said.
pub proof fn failed_requests_tell_why(text: String)
    ensures
        client_error_text(DaemonClientError::Daemon(text)) == "daemon error: "@ + text@,
        client_error_text(DaemonClientError::Encode(text)) == "encode envelope: "@ + text@,
        client_error_text(DaemonClientError::Write(text)) == "write envelope: "@ + text@,
        client_error_text(DaemonClientError::Register(text)) == "register: "@ + text@,
        client_error_text(DaemonClientError::Disconnected) == "daemon connection closed"@,
{
}

/// A memory is kept as it was given, in the scope that the selector means; it is
/// refused, as the caller's fault, exactly where that means none.
pub proof fn memories_are_kept_in_their_scope(
    workspace: Seq<char>,
    config: FoundConfig,
    scope: Option<String>,
    wanted: Remembered,
)
    ensures
        ({
            let meant = resolved(wanted_scope(scope), workspace, config);
            let r = memory_wanted(workspace, config, scope, wanted);
            &&& r is Ok <==> meant is Ok
            &&& r is Ok ==> r->Ok_0.scope == meant->Ok_0 && r->Ok_0.kind == wanted.kind
                && r->Ok_0.subject == wanted.subject && r->Ok_0.content == wanted.content
                && r->Ok_0.tags == wanted.tags && r->Ok_0.supersedes == wanted.supersedes
            &&& r is Err ==> r->Err_0.kind == ErrorKind::InvalidParams && r->Err_0.message
                == problem_text(meant->Err_0)
        }),
{
}

/// Memories are asked for in the scopes that the selectors mean, with the tags, the
/// limit and everything else as it was given.
pub proof fn memories_are_asked_for_as_given(
    workspace: Seq<char>,
    config: FoundConfig,
    req: MemoryQueryRequest,
)
    ensures
        ({
            let meant = resolved_all(texts(req.scopes@), workspace, config);
            let r = memories_wanted(workspace, config, req);
            &&& r is Ok <==> meant is Ok
            &&& r is Ok ==> r->Ok_0.scopes == meant->Ok_0 && r->Ok_0.tags == texts(req.tags@)
                && r->Ok_0.include_superseded == req.include_superseded && r->Ok_0.limit
                == req.limit
            &&& r is Ok && req.kind is Some ==> r->Ok_0.kind == req.kind->0@
            &&& r is Ok && req.kind is None ==> r->Ok_0.kind.len() == 0
            &&& r is Err ==> r->Err_0.kind == ErrorKind::InvalidParams
        }),
{
}

/// A configuration that was given is passed on to the daemon, and else none.
pub proof fn given_configuration_is_passed_on(server: Server)
    ensures
        server.config_path is Some ==> server.dispatch_path() == server.config_path->0@,
        server.config_path is None ==> server.dispatch_path().len() == 0,
{
}

/// Of several projects that know a workspace the first counts; those that do not
/// change nothing.
pub proof fn first_project_that_knows_counts(
    nodes: Seq<ProjectNode>,
    node: ProjectNode,
    target: Seq<char>,
)
    ensures
        prefix_in_forest(nodes, target) is Some ==> prefix_in_forest(nodes.push(node), target)
            == prefix_in_forest(nodes, target),
        prefix_in_forest(nodes, target) is None ==> prefix_in_forest(nodes.push(node), target)
            == prefix_in_tree(node, target),
        prefix_in_forest(Seq::empty(), target) is None,
{
    assert(nodes.push(node).drop_last() =~= nodes);
    assert(nodes.push(node).last() == node);
}

/// An agent that cannot be asked is told by name, with why it cannot.
pub proof fn absent_agents_are_named(
    req: InspectAgentRequest,
    workspaces: TextMap<ConfiguredAgent>,
    config_path: Seq<char>,
    active: Seq<WorkspaceInfo>,
    caller: Seq<char>,
)
    ensures
        ({
            let r = inspected(req, workspaces, config_path, active, caller);
            &&& r is Err ==> r->Err_0.message == "Agent "@ + quoted(req.name@)
                + " is not defined in "@ + config_path
            &&& r matches Ok(Inspected::Absent(why)) ==> why == "Agent "@ + quoted(req.name@)
                + " is not currently registered"@
        }),
{
}

/// That a reply did not come in time is told with whose it was and how long was
/// waited.
pub proof fn timeouts_name_who_was_asked(w: ReplyWait, now: u64)
    requires
        now >= w.deadline,
    ensures
        w.before_look(now) == NextStep::GaveUp(
            "Timeout: no reply from "@ + quoted(w.from@) + " within "@ + number(w.timeout as int)
                + "s"@,
        ),
{
}

/// A scope that could not be made out is told with what was given or with what is
/// missing.
pub proof fn unknown_scopes_are_named(raw: Seq<char>, path: Seq<char>)
    ensures
        problem_text(ScopeProblem::Invalid(raw)) == "invalid memory scope "@ + quoted(raw)
            + "; use `workspace`, `project`, `global`, or an explicit selector"@,
        problem_text(ScopeProblem::ConfigNotFound)
            == "config file not found when resolving project scope"@,
        problem_text(ScopeProblem::LoadTree { path, source: raw }) == "load config tree "@ + path
            + ": "@ + raw,
        problem_text(ScopeProblem::WorkspaceNotInTree { workspace: raw, path }) == "workspace "@
            + quoted(raw) + " not found in config tree "@ + path,
{
}

} // verus!
