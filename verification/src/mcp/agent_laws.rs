//! What holds of every list of agents and of what is asked about their usage.

use vstd::prelude::*;

use crate::keyed::TextMap;
use crate::mcp::agents::{
    agent_facts, agents_wanted, each_source, facts_at, is_wanted, minutes_or, named_source,
    names_of, preview_of, registered, wanted_agents, AgentFacts, AgentsWanted, ConfiguredAgent,
};
use crate::mcp::requests::ListAgentsRequest;
use crate::order::{filter_keeps_the_picked, sorted, sorting_only_moves};
use crate::proto::types::{AgentStatus, WorkspaceInfo};
use crate::text::{before, before_is_an_order, contains, join, lower, trim, words};

verus! {

/// The words for the state of an agent differ from each other.
proof fn states_differ()
    ensures
        "offline"@ != "idle"@,
        "offline"@ != "running"@,
        "idle"@ != "running"@,
{
    reveal_strlit("offline");
    reveal_strlit("idle");
    reveal_strlit("running");
    assert("offline"@.len() == 7 && "idle"@.len() == 4 && "running"@.len() == 7);
    assert("offline"@[0] == 'o' && "running"@[0] == 'r');
}

/// An agent is offline exactly where it is not registered, idle exactly where it
/// is registered and among the idle ones, and running exactly where it is
/// registered and not among them.
pub proof fn state_tells_what_an_agent_does(
    name: Seq<char>,
    ws: ConfiguredAgent,
    active: Option<WorkspaceInfo>,
    idle: bool,
)
    ensures
        agent_facts(name, ws, active, idle).state == "offline"@ <==> active is None,
        agent_facts(name, ws, active, idle).state == "idle"@ <==> active is Some && idle,
        agent_facts(name, ws, active, idle).state == "running"@ <==> active is Some && !idle,
        agent_facts(name, ws, active, idle).active <==> active is Some,
{
    states_differ();
}

/// What the daemon knows of an agent is told exactly where it is registered, and
/// as the daemon has it.
pub proof fn only_registered_agents_have_a_status(
    name: Seq<char>,
    ws: ConfiguredAgent,
    active: Option<WorkspaceInfo>,
    idle: bool,
)
    ensures
        ({
            let a = agent_facts(name, ws, active, idle);
            &&& a.name == name
            &&& a.dir == ws.dir@
            &&& a.status is Some <==> active is Some
            &&& active is Some ==> (a.status == Some("online"@) <==> active->0.status
                == AgentStatus::Online)
            &&& active is Some ==> (a.status == Some("offline"@) <==> active->0.status
                == AgentStatus::Offline)
            &&& active is Some ==> (a.status == Some("disconnected"@) <==> active->0.status
                == AgentStatus::Disconnected)
            &&& a.status_text is Some <==> active is Some && active->0.status_text@.len() > 0
            &&& a.status_text is Some ==> a.status_text->0 == active->0.status_text@
            &&& a.connected_at is Some <==> active is Some && active->0.connected_at is Some
            &&& a.description is Some <==> ws.description@.len() > 0
            &&& a.description is Some ==> a.description->0 == ws.description@
        }),
{
    reveal_strlit("online");
    reveal_strlit("offline");
    reveal_strlit("disconnected");
    assert("online"@.len() == 6 && "offline"@.len() == 7 && "disconnected"@.len() == 12);
}

/// An agent is run by hand where it is to run nothing, by its own command where
/// it has one, and by a runtime otherwise; only the last has a runtime and a file
/// of instructions, and only the second a command.
pub proof fn agents_run_one_way(
    name: Seq<char>,
    ws: ConfiguredAgent,
    active: Option<WorkspaceInfo>,
    idle: bool,
)
    ensures
        ({
            let a = agent_facts(name, ws, active, idle);
            &&& a.launch_mode == "manual"@ <==> ws.agent@ == "none"@
            &&& a.launch_mode == "custom"@ <==> ws.agent@ != "none"@ && trim(ws.agent@).len() > 0
            &&& a.launch_mode == "runtime"@ <==> ws.agent@ != "none"@ && trim(ws.agent@).len() == 0
            &&& a.command is Some <==> a.launch_mode == "custom"@
            &&& a.command is Some ==> a.command->0 == ws.agent@
            &&& a.runtime is Some <==> a.launch_mode == "runtime"@
            &&& a.runtime is Some && ws.known_runtime is Some ==> a.runtime->0
                == ws.known_runtime->0@
            &&& a.runtime is Some && ws.known_runtime is None ==> a.runtime->0 == ws.runtime@
            &&& a.instruction_file is Some <==> a.launch_mode == "runtime"@
                && ws.instruction_file is Some
            &&& a.instruction_file is Some ==> a.instruction_file->0 == ws.instruction_file->0@
        }),
{
    reveal_strlit("manual");
    reveal_strlit("custom");
    reveal_strlit("runtime");
    assert("manual"@.len() == 6 && "custom"@.len() == 6 && "runtime"@.len() == 7);
    assert("manual"@[0] == 'm' && "custom"@[0] == 'c');
}

/// A name is found among the registered workspaces exactly where one of them has
/// it, and of several the last is found.
pub proof fn last_registration_counts(active: Seq<WorkspaceInfo>, name: Seq<char>)
    ensures
        registered(active, name) is Some <==> exists|i: int|
            0 <= i < active.len() && (#[trigger] active[i]).name@ == name,
        registered(active, name) is Some ==> exists|i: int|
            0 <= i < active.len() && active[i] == registered(active, name)->0 && (
            #[trigger] active[i]).name@ == name && forall|j: int|
                i < j < active.len() ==> (#[trigger] active[j]).name@ != name,
    decreases active.len(),
{
    if active.len() > 0 {
        let front = active.drop_last();
        last_registration_counts(front, name);
        let last = active.len() - 1;
        if active[last].name@ == name {
            assert(active[last] == registered(active, name)->0);
        } else {
            assert forall|i: int| 0 <= i < front.len() implies #[trigger] front[i]
                == active[i] by {}
            if registered(front, name) is Some {
                let i = choose|i: int|
                    0 <= i < front.len() && front[i] == registered(front, name)->0 && (
                    #[trigger] front[i]).name@ == name && forall|j: int|
                        i < j < front.len() ==> (#[trigger] front[j]).name@ != name;
                assert(active[i].name@ == name);
                assert forall|j: int| i < j < active.len() implies (#[trigger] active[j]).name@
                    != name by {
                    if j < last {
                        assert(front[j] == active[j]);
                    }
                }
            } else {
                assert forall|i: int| 0 <= i < active.len() implies (#[trigger] active[i]).name@
                    != name by {
                    if i < last {
                        assert(front[i] == active[i]);
                    }
                }
            }
        }
    }
}

/// What is known of the agents of a configuration.
pub open spec fn all_agents(
    workspaces: TextMap<ConfiguredAgent>,
    active: Seq<WorkspaceInfo>,
    idle: Seq<Seq<char>>,
    n: nat,
) -> Seq<AgentFacts> {
    Seq::new(n, |i: int| facts_at(workspaces, active, idle, i))
}

/// The list holds exactly the agents that are wanted, in the order of the
/// configuration.
pub proof fn list_holds_the_wanted(
    workspaces: TextMap<ConfiguredAgent>,
    active: Seq<WorkspaceInfo>,
    idle: Seq<Seq<char>>,
    w: AgentsWanted,
    n: nat,
)
    ensures
        wanted_agents(workspaces, active, idle, w, n as int) == all_agents(
            workspaces,
            active,
            idle,
            n,
        ).filter(|a: AgentFacts| is_wanted(a, w)),
    decreases n,
{
    let all = all_agents(workspaces, active, idle, n);
    reveal(Seq::filter);
    if n > 0 {
        list_holds_the_wanted(workspaces, active, idle, w, (n - 1) as nat);
        assert(all.drop_last() =~= all_agents(workspaces, active, idle, (n - 1) as nat));
        assert(all.last() == facts_at(workspaces, active, idle, n - 1));
    }
}

/// An agent is wanted unless it is not registered and only registered ones are
/// asked for, or none of its name, description, runtime, command and the start of
/// its instructions holds, in small letters, what is looked for.
pub proof fn wanted_means_found(a: AgentFacts, req: ListAgentsRequest)
    ensures
        ({
            let q = if req.query is Some {
                lower(trim(req.query->0@))
            } else {
                Seq::empty()
            };
            is_wanted(a, agents_wanted(req)) <==> (a.active || !req.active_only) && (q.len() == 0
                || contains(lower(a.name), q) || (a.description is Some && contains(
                lower(a.description->0),
                q,
            )) || (a.runtime is Some && contains(lower(a.runtime->0), q)) || (a.command is Some
                && contains(lower(a.command->0), q)) || (a.instructions_preview is Some && contains(
                lower(a.instructions_preview->0),
                q,
            )))
        }),
{
}

/// Every agent in the list is configured under its name, and its state follows
/// from whether that name is registered and whether it is among the idle ones.
pub proof fn listed_agents_are_as_they_are(
    workspaces: TextMap<ConfiguredAgent>,
    active: Seq<WorkspaceInfo>,
    idle: Seq<Seq<char>>,
    w: AgentsWanted,
    a: AgentFacts,
)
    requires
        wanted_agents(workspaces, active, idle, w, workspaces.keys@.len() as int).contains(a),
    ensures
        exists|i: int| 0 <= i < workspaces.keys@.len() && (#[trigger] workspaces.keys@[i])@ == a.name,
        a.state == "offline"@ <==> !exists|i: int|
            0 <= i < active.len() && (#[trigger] active[i]).name@ == a.name,
        a.state == "idle"@ <==> idle.contains(a.name) && exists|i: int|
            0 <= i < active.len() && (#[trigger] active[i]).name@ == a.name,
        a.state == "running"@ <==> !idle.contains(a.name) && exists|i: int|
            0 <= i < active.len() && (#[trigger] active[i]).name@ == a.name,
{
    let n = workspaces.keys@.len();
    let picks = |a: AgentFacts| is_wanted(a, w);
    list_holds_the_wanted(workspaces, active, idle, w, n);
    let all = all_agents(workspaces, active, idle, n);
    filter_keeps_the_picked(all, picks);
    assert(all.contains(a));
    let i = choose|i: int| 0 <= i < all.len() && all[i] == a;
    assert(a == facts_at(workspaces, active, idle, i));
    assert(workspaces.keys@[i]@ == a.name);
    last_registration_counts(active, a.name);
    state_tells_what_an_agent_does(
        a.name,
        workspaces.values@[i],
        registered(active, a.name),
        idle.contains(a.name),
    );
}

/// The start of instructions is made of their first words, of twenty-four at most.
pub proof fn preview_holds_the_first_words(instructions: Seq<char>)
    ensures
        words(trim(instructions)).len() <= 24 ==> preview_of(instructions) == join(
            words(trim(instructions)),
            " "@,
        ),
        words(trim(instructions)).len() > 24 ==> preview_of(instructions) == join(
            words(trim(instructions)).subrange(0, 24),
            " "@,
        ),
{
    assert(words(trim(instructions)).len() > 24 ==> words(trim(instructions)).take(24) =~= words(
        trim(instructions),
    ).subrange(0, 24));
}

/// One more workspace in the registry is looked at too, in its directory, unless
/// its name came before or it has no directory; what was looked at before stays.
pub proof fn each_name_is_looked_for_once(active: Seq<WorkspaceInfo>, ws: WorkspaceInfo)
    ensures
        ({
            let known = exists|j: int|
                0 <= j < active.len() && (#[trigger] active[j]).name@ == ws.name@;
            let more = each_source(active.push(ws));
            &&& known || trim(ws.dir@).len() == 0 ==> more == each_source(active)
            &&& !known && trim(ws.dir@).len() > 0 ==> more.len() == each_source(active).len() + 1
                && more.drop_last() == each_source(active) && more.last().workspace == ws.name@
                && more.last().cwd == trim(ws.dir@)
            &&& each_source(Seq::empty()).len() == 0
        }),
{
    assert(active.push(ws).drop_last() =~= active);
    assert(active.push(ws).last() == ws);
    let names = names_of(active);
    if names.contains(ws.name@) {
        let j = choose|j: int| 0 <= j < names.len() && names[j] == ws.name@;
        assert(active[j].name@ == ws.name@);
    } else {
        assert forall|j: int| 0 <= j < active.len() implies (#[trigger] active[j]).name@
            != ws.name@ by {
            assert(names[j] == active[j].name@);
        }
        let more = each_source(active.push(ws));
        if trim(ws.dir@).len() > 0 {
            assert(more.drop_last() =~= each_source(active));
        }
    }
}

/// The usage of one workspace is looked for in the directory that was registered
/// last under its name, where that names one.
pub proof fn one_name_is_looked_for_where_it_is(active: Seq<WorkspaceInfo>, name: Seq<char>)
    ensures
        named_source(active, name) is Some <==> registered(active, name) is Some && trim(
            registered(active, name)->0.dir@,
        ).len() > 0,
        named_source(active, name) is Some ==> named_source(active, name)->0.workspace == name
            && named_source(active, name)->0.cwd == trim(registered(active, name)->0.dir@),
{
}

/// Where usage is looked for stands by the names of the workspaces.
pub proof fn usage_goes_by_name(active: Seq<WorkspaceInfo>, i: int, j: int)
    requires
        0 <= i < j < each_source(active).len(),
    ensures
        sorted(each_source(active)).len() == each_source(active).len(),
        before(
            sorted(each_source(active))[i].workspace,
            sorted(each_source(active))[j].workspace,
        ) || sorted(each_source(active))[i].workspace == sorted(each_source(active))[j].workspace,
{
    let order = sorting_only_moves(each_source(active));
    before_is_an_order();
    let a = sorted(each_source(active))[i].workspace;
    let b = sorted(each_source(active))[j].workspace;
    assert(before(a, b) || before(b, a) || a == b);
}

/// A number of minutes is the one that is given where it is positive, and else the
/// usual one.
pub proof fn minutes_are_positive(minutes: Option<i64>, usual: i64)
    ensures
        minutes is Some && minutes->0 > 0 ==> minutes_or(minutes, usual) == minutes->0,
        minutes is None || minutes->0 <= 0 ==> minutes_or(minutes, usual) == usual,
{
}

} // verus!
