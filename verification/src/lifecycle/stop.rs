//! `down`: the stop of a queue's supervisors, and what becomes of their
//! workspaces.

use crate::json;
use crate::json::{Fields, Json};
use crate::lifecycle::agent::{DownOptions, SupervisorMode};
use crate::lifecycle::supervisors::{label, labelled, SupervisorRegistration};
use crate::text;
use vstd::prelude::*;
use vstd::string::*;

verus! {

/// The launchd agent as unloading it found it.
#[derive(Debug, Clone, Copy, PartialEq, Eq, Structural)]
pub struct AgentState {
    pub loaded: bool,
    /// Its process, to which the unload delivered a SIGTERM.
    pub pid: Option<u32>,
}

/// The signal a supervisor is asked to stop with.
#[derive(Debug, Clone, Copy, PartialEq, Eq, Structural)]
pub enum Signal {
    /// SIGINT, the signal its terminal would send.
    Interrupt,
    /// SIGTERM.
    Terminate,
    /// launchd signalled it, or may have.
    Nothing,
}

/// The signal a live supervisor gets.
pub open spec fn signal_for(r: SupervisorRegistration, agent: AgentState) -> Signal {
    if r.mode == Some(SupervisorMode::InCmux) {
        Signal::Interrupt
    } else if (!agent.loaded || agent.pid is Some) && agent.pid != Some(r.pid) {
        Signal::Terminate
    } else {
        Signal::Nothing
    }
}

/// The signal a live supervisor gets. The unload delivers the SIGTERM to the
/// agent's own process; a supervisor started by hand gets it from here. A
/// second SIGTERM would end a draining supervisor at once, so when the agent
/// is loaded but its process is unknown nothing is signalled.
pub fn stop_signal(r: &SupervisorRegistration, agent: AgentState) -> (s: Signal)
    ensures
        s == signal_for(*r, agent),
{
    if let Some(SupervisorMode::InCmux) = r.mode {
        return Signal::Interrupt;
    }
    let own = match agent.pid {
        Some(pid) => pid == r.pid,
        None => false,
    };
    if (!agent.loaded || agent.pid.is_some()) && !own {
        Signal::Terminate
    } else {
        Signal::Nothing
    }
}

/// A supervisor that launchd's unload signalled, or may have, is not sent a
/// second SIGTERM, which would end its drain.
pub proof fn no_second_sigterm(r: SupervisorRegistration, agent: AgentState)
    requires
        agent.pid == Some(r.pid) || (agent.loaded && agent.pid is None),
    ensures
        signal_for(r, agent) != Signal::Terminate,
{
}

/// Something `down` does.
pub enum DownAction {
    Interrupt(u32),
    Terminate(u32),
    Kill(u32),
    /// Drop the registration with this token.
    Deregister(String),
    /// Wait until every live supervisor's registration is gone or its process
    /// died.
    WaitGone,
}

/// How a `down` ends.
#[derive(Debug, Clone, Copy, PartialEq, Eq, Structural)]
pub enum DownOutcome {
    NotRunning,
    Killed,
    Stopped,
    Draining,
}

impl DownOutcome {
    /// Its name in the report.
    pub open spec fn name(self) -> Seq<char> {
        match self {
            DownOutcome::NotRunning => "not_running"@,
            DownOutcome::Killed => "killed"@,
            DownOutcome::Stopped => "stopped"@,
            DownOutcome::Draining => "draining"@,
        }
    }

    /// Its name in the report.
    pub fn as_str(self) -> (r: &'static str)
        ensures
            r@ == self.name(),
    {
        match self {
            DownOutcome::NotRunning => "not_running",
            DownOutcome::Killed => "killed",
            DownOutcome::Stopped => "stopped",
            DownOutcome::Draining => "draining",
        }
    }
}

/// Whether a `down` saw the stop through, which decides what may be done to an
/// in-cmux supervisor's workspace.
#[derive(Debug, Clone, Copy, PartialEq, Eq, Structural)]
pub enum Stop {
    /// The supervisor is not going to do any more work, so its workspace is
    /// closed whatever its process still looks like.
    SeenThrough,
    /// The `down` returns while the supervisor drains. Closing the workspace
    /// would end that drain, so only that of one that had already exited is
    /// closed.
    Pending,
}

/// Whether one of the registrations is alive.
pub open spec fn some_alive(all: Seq<SupervisorRegistration>) -> bool {
    exists|i: int| 0 <= i < all.len() && (#[trigger] all[i]).alive
}

/// How the `down` ends.
pub open spec fn down_outcome(
    all: Seq<SupervisorRegistration>,
    options: DownOptions,
) -> DownOutcome {
    if !some_alive(all) {
        DownOutcome::NotRunning
    } else if options.force {
        DownOutcome::Killed
    } else if options.wait {
        DownOutcome::Stopped
    } else {
        DownOutcome::Draining
    }
}

/// The signals to those alive among the first `n` registrations.
pub open spec fn signals(
    all: Seq<SupervisorRegistration>,
    agent: AgentState,
    n: int,
) -> Seq<DownAction>
    decreases n,
{
    if n <= 0 {
        Seq::empty()
    } else {
        let before = signals(all, agent, n - 1);
        let r = all[n - 1];
        if !r.alive {
            before
        } else {
            match signal_for(r, agent) {
                Signal::Interrupt => before.push(DownAction::Interrupt(r.pid)),
                Signal::Terminate => before.push(DownAction::Terminate(r.pid)),
                Signal::Nothing => before,
            }
        }
    }
}

/// The kills of those alive among the first `n` registrations, each followed
/// by the end of its registration.
pub open spec fn kills(all: Seq<SupervisorRegistration>, n: int) -> Seq<DownAction>
    decreases n,
{
    if n <= 0 {
        Seq::empty()
    } else {
        let before = kills(all, n - 1);
        if all[n - 1].alive {
            before.push(DownAction::Kill(all[n - 1].pid)).push(
                DownAction::Deregister(all[n - 1].token),
            )
        } else {
            before
        }
    }
}

/// The ends of the registrations of those gone among the first `n`.
pub open spec fn drops(all: Seq<SupervisorRegistration>, n: int) -> Seq<DownAction>
    decreases n,
{
    if n <= 0 {
        Seq::empty()
    } else {
        let before = drops(all, n - 1);
        if !all[n - 1].alive {
            before.push(DownAction::Deregister(all[n - 1].token))
        } else {
            before
        }
    }
}

/// What the `down` does, in order.
pub open spec fn down_actions(
    all: Seq<SupervisorRegistration>,
    agent: AgentState,
    options: DownOptions,
) -> Seq<DownAction> {
    let n = all.len() as int;
    match down_outcome(all, options) {
        DownOutcome::NotRunning => if options.force {
            drops(all, n)
        } else {
            Seq::empty()
        },
        DownOutcome::Killed => signals(all, agent, n) + kills(all, n) + drops(all, n),
        DownOutcome::Stopped => signals(all, agent, n).push(DownAction::WaitGone),
        DownOutcome::Draining => signals(all, agent, n),
    }
}

/// What a `down` comes to.
pub struct Down {
    pub outcome: DownOutcome,
    pub actions: Vec<DownAction>,
    /// What may be done to the workspaces afterwards.
    pub stop: Stop,
}

/// Whether one of the registrations is alive.
fn any_alive(all: &Vec<SupervisorRegistration>) -> (r: bool)
    ensures
        r == some_alive(all@),
{
    let mut i: usize = 0;
    while i < all.len()
        invariant
            i <= all@.len(),
            forall|j: int| 0 <= j < i ==> !(#[trigger] all@[j]).alive,
        decreases all@.len() - i,
    {
        if all[i].alive {
            return true;
        }
        i += 1;
    }
    false
}

/// Add the ends of the registrations of those gone.
fn drop_dead(all: &Vec<SupervisorRegistration>, actions: &mut Vec<DownAction>)
    ensures
        final(actions)@ == old(actions)@ + drops(all@, all@.len() as int),
{
    let ghost had = actions@;
    let mut i: usize = 0;
    assert(actions@ =~= had + drops(all@, 0));
    while i < all.len()
        invariant
            i <= all@.len(),
            actions@ == had + drops(all@, i as int),
        decreases all@.len() - i,
    {
        if !all[i].alive {
            actions.push(DownAction::Deregister(all[i].token.clone()));
            assert(actions@ =~= had + drops(all@, i + 1));
        }
        i += 1;
    }
}

/// Stop the queue's supervisors, whichever mode started them, once the launchd
/// agent was unloaded: every live one is signalled, killed with `force`, or
/// waited for with `wait`. The registrations of those gone go too with
/// `force`, so no row is left pointing at a workspace that is closed.
pub fn down(
    all: &Vec<SupervisorRegistration>,
    agent: AgentState,
    options: DownOptions,
) -> (r: Down)
    ensures
        r.outcome == down_outcome(all@, options),
        r.actions@ == down_actions(all@, agent, options),
        r.stop == (if r.outcome == DownOutcome::Draining {
            Stop::Pending
        } else {
            Stop::SeenThrough
        }),
{
    let mut actions: Vec<DownAction> = Vec::new();
    if !any_alive(all) {
        if options.force {
            drop_dead(all, &mut actions);
        }
        assert(actions@ =~= down_actions(all@, agent, options));
        return Down { outcome: DownOutcome::NotRunning, actions, stop: Stop::SeenThrough };
    }
    let mut i: usize = 0;
    assert(actions@ =~= signals(all@, agent, 0));
    while i < all.len()
        invariant
            i <= all@.len(),
            actions@ == signals(all@, agent, i as int),
        decreases all@.len() - i,
    {
        if all[i].alive {
            match stop_signal(&all[i], agent) {
                Signal::Interrupt => actions.push(DownAction::Interrupt(all[i].pid)),
                Signal::Terminate => actions.push(DownAction::Terminate(all[i].pid)),
                Signal::Nothing => {},
            }
        }
        i += 1;
    }
    if options.force {
        let ghost had = actions@;
        let mut k: usize = 0;
        assert(actions@ =~= had + kills(all@, 0));
        while k < all.len()
            invariant
                k <= all@.len(),
                actions@ == had + kills(all@, k as int),
            decreases all@.len() - k,
        {
            if all[k].alive {
                actions.push(DownAction::Kill(all[k].pid));
                actions.push(DownAction::Deregister(all[k].token.clone()));
                assert(actions@ =~= had + kills(all@, k + 1));
            }
            k += 1;
        }
        drop_dead(all, &mut actions);
        return Down { outcome: DownOutcome::Killed, actions, stop: Stop::SeenThrough };
    }
    if options.wait {
        actions.push(DownAction::WaitGone);
        return Down { outcome: DownOutcome::Stopped, actions, stop: Stop::SeenThrough };
    }
    Down { outcome: DownOutcome::Draining, actions, stop: Stop::Pending }
}

/// Whether a registration with this token is among `live`.
pub open spec fn is_among(live: Seq<SupervisorRegistration>, token: Seq<char>) -> bool {
    exists|i: int| 0 <= i < live.len() && (#[trigger] live[i]).token@ == token
}

/// Those among the first `n` registrations that are of `live` and whose
/// process is alive, by name.
pub open spec fn remaining_labels(
    live: Seq<SupervisorRegistration>,
    all: Seq<SupervisorRegistration>,
    n: int,
) -> Seq<Seq<char>>
    decreases n,
{
    if n <= 0 {
        Seq::empty()
    } else {
        let before = remaining_labels(live, all, n - 1);
        if is_among(live, all[n - 1].token@) && all[n - 1].alive {
            before.push(label(all[n - 1]))
        } else {
            before
        }
    }
}

/// Whether a registration with this token is among `live`.
pub fn among(live: &Vec<SupervisorRegistration>, token: &str) -> (r: bool)
    ensures
        r == is_among(live@, token@),
{
    let mut i: usize = 0;
    while i < live.len()
        invariant
            i <= live@.len(),
            forall|j: int| 0 <= j < i ==> (#[trigger] live@[j]).token@ != token@,
        decreases live@.len() - i,
    {
        if text::same(live[i].token.as_str(), token) {
            return true;
        }
        i += 1;
    }
    false
}

/// The supervisors a stop still waits for: those of `live` that are still
/// registered with a process that is alive. The stop is over when there is
/// none.
pub fn remaining(
    live: &Vec<SupervisorRegistration>,
    all: &Vec<SupervisorRegistration>,
) -> (r: Vec<String>)
    ensures
        text::views(r@) == remaining_labels(live@, all@, all@.len() as int),
{
    let mut out: Vec<String> = Vec::new();
    let mut i: usize = 0;
    assert(text::views(out@) =~= Seq::empty());
    while i < all.len()
        invariant
            i <= all@.len(),
            text::views(out@) == remaining_labels(live@, all@, i as int),
        decreases all@.len() - i,
    {
        if among(live, all[i].token.as_str()) && all[i].alive {
            let ghost had = text::views(out@);
            let name = labelled(&all[i]);
            let ghost said = name@;
            out.push(name);
            assert(text::views(out@) =~= had.push(said));
        }
        i += 1;
    }
    out
}

/// What is done about a supervisor's workspace.
pub enum Closing {
    /// It is left to a running drain, and reported so.
    LeftOpen { report: Json },
    Close { id: String },
}

/// The report of a workspace left to a running drain.
pub open spec fn left_open_value(id: Seq<char>, pid: u32) -> json::Value {
    json::Value::Object(
        json::none().push(("workspace_id"@, json::Value::Text(id))).push(
            ("outcome"@, json::Value::Text("left_open"@)),
        ).push(
            (
                "reason"@,
                json::Value::Text(
                    "supervisor pid "@ + text::decimal(pid as nat)
                        + " is still draining; `down --wait` closes it"@,
                ),
            ),
        ),
    )
}

/// Whether a registration has a workspace to close.
pub open spec fn has_workspace(r: SupervisorRegistration) -> bool {
    r.mode == Some(SupervisorMode::InCmux) && r.workspace_id is Some
}

/// What is done about the workspace of a registration that has one.
pub open spec fn closes(r: SupervisorRegistration, stop: Stop, c: Closing) -> bool {
    if stop == Stop::Pending && r.alive {
        c matches Closing::LeftOpen { report } && report@ == left_open_value(
            r.workspace_id->0@,
            r.pid,
        )
    } else {
        c == (Closing::Close { id: r.workspace_id->0 })
    }
}

/// The places among the first `n` registrations of those with a workspace.
pub open spec fn workspace_places(all: Seq<SupervisorRegistration>, n: int) -> Seq<int>
    decreases n,
{
    if n <= 0 {
        Seq::empty()
    } else if has_workspace(all[n - 1]) {
        workspace_places(all, n - 1).push(n - 1)
    } else {
        workspace_places(all, n - 1)
    }
}

/// What is done about the workspace of every in-cmux registration a stop is
/// done with. Liveness is consulted only while the stop is pending, as it was
/// before anything was signalled: a killed process still looks alive until it
/// is reaped.
pub fn close_supervisor_workspaces(all: &Vec<SupervisorRegistration>, stop: Stop) -> (r: Vec<
    Closing,
>)
    ensures
        r@.len() == workspace_places(all@, all@.len() as int).len(),
        forall|k: int|
            0 <= k < r@.len() ==> closes(
                all@[workspace_places(all@, all@.len() as int)[k]],
                stop,
                #[trigger] r@[k],
            ),
{
    let mut out: Vec<Closing> = Vec::new();
    let mut i: usize = 0;
    while i < all.len()
        invariant
            i <= all@.len(),
            out@.len() == workspace_places(all@, i as int).len(),
            forall|k: int|
                0 <= k < out@.len() ==> closes(
                    all@[workspace_places(all@, i as int)[k]],
                    stop,
                    #[trigger] out@[k],
                ),
        decreases all@.len() - i,
    {
        let ghost before = workspace_places(all@, i as int);
        if let (Some(SupervisorMode::InCmux), Some(id)) = (all[i].mode, &all[i].workspace_id) {
            assert(workspace_places(all@, i + 1) =~= before.push(i as int));
            let closing = if stop == Stop::Pending && all[i].alive {
                let pid = text::number(all[i].pid as u64);
                let reason = "supervisor pid ".to_owned().concat(pid.as_str()).concat(
                    " is still draining; `down --wait` closes it",
                );
                let report = Fields::new().text("workspace_id", id.as_str()).text(
                    "outcome",
                    "left_open",
                ).text("reason", reason.as_str()).done();
                Closing::LeftOpen { report }
            } else {
                Closing::Close { id: id.clone() }
            };
            out.push(closing);
        }
        i += 1;
    }
    out
}

/// A `down` that returns while supervisors drain closes no workspace of one
/// that was alive when it looked.
pub proof fn a_drain_is_not_cut_short(r: SupervisorRegistration, c: Closing)
    requires
        has_workspace(r),
        r.alive,
        closes(r, Stop::Pending, c),
    ensures
        c is LeftOpen,
{
}

/// The report of a workspace that was to be closed. A close that is refused is
/// reported, not raised: the supervisor is already stopped, which is what
/// `down` was asked to do.
pub fn closing_report(id: &str, result: &Result<(), String>) -> (r: Json)
    ensures
        r@ == json::Value::Object(
            match *result {
                Ok(_) => json::none().push(("workspace_id"@, json::Value::Text(id@))).push(
                    ("outcome"@, json::Value::Text("closed"@)),
                ),
                Err(error) => json::none().push(("workspace_id"@, json::Value::Text(id@))).push(
                    ("outcome"@, json::Value::Text("close_failed"@)),
                ).push(("reason"@, json::Value::Text(error@))),
            },
        ),
{
    match result {
        Ok(_) => Fields::new().text("workspace_id", id).text("outcome", "closed").done(),
        Err(error) => Fields::new().text("workspace_id", id).text("outcome", "close_failed").text(
            "reason",
            error.as_str(),
        ).done(),
    }
}

/// The reports of the registrations that are dropped: of those gone among the
/// first `n`.
pub open spec fn pruned_values(all: Seq<SupervisorRegistration>, n: int) -> Seq<json::Value>
    decreases n,
{
    if n <= 0 {
        Seq::empty()
    } else {
        let before = pruned_values(all, n - 1);
        if !all[n - 1].alive {
            before.push(
                json::Value::Object(
                    json::none().push(("token"@, json::Value::Text(all[n - 1].token@))).push(
                        ("pid"@, json::Value::Int(all[n - 1].pid as int)),
                    ),
                ),
            )
        } else {
            before
        }
    }
}

/// The reports of the registrations that are dropped since their process is
/// gone.
pub fn pruned(all: &Vec<SupervisorRegistration>) -> (r: Vec<Json>)
    ensures
        json::items_view(r@) == pruned_values(all@, all@.len() as int),
{
    let mut out: Vec<Json> = Vec::new();
    let mut i: usize = 0;
    while i < all.len()
        invariant
            i <= all@.len(),
            json::items_view(out@) == pruned_values(all@, i as int),
        decreases all@.len() - i,
    {
        if !all[i].alive {
            let ghost had = out@;
            let report = Fields::new().text("token", all[i].token.as_str()).number(
                "pid",
                all[i].pid as i128,
            ).done();
            out.push(report);
            assert(out@.drop_last() =~= had);
        }
        i += 1;
    }
    out
}

/// The processes of those alive among the first `n` registrations.
pub open spec fn live_pids(all: Seq<SupervisorRegistration>, n: int) -> Seq<json::Value>
    decreases n,
{
    if n <= 0 {
        Seq::empty()
    } else if all[n - 1].alive {
        live_pids(all, n - 1).push(json::Value::Int(all[n - 1].pid as int))
    } else {
        live_pids(all, n - 1)
    }
}

/// What a `down` reports.
pub open spec fn down_value(
    all: Seq<SupervisorRegistration>,
    agent: AgentState,
    options: DownOptions,
    workspaces: Seq<json::Value>,
) -> Seq<(Seq<char>, json::Value)> {
    let n = all.len() as int;
    let outcome = down_outcome(all, options);
    let pids = live_pids(all, n);
    let named = json::none().push(("outcome"@, json::Value::Text(outcome.name())));
    let running = if outcome == DownOutcome::NotRunning {
        named
    } else {
        named.push(("pid"@, pids[0])).push(("pids"@, json::Value::List(pids)))
    };
    let unloaded = running.push(("launch_agent_unloaded"@, json::Value::Bool(agent.loaded)));
    let dropped = match outcome {
        DownOutcome::NotRunning => unloaded.push(
            (
                "pruned_supervisors"@,
                json::Value::List(
                    if options.force {
                        pruned_values(all, n)
                    } else {
                        Seq::empty()
                    },
                ),
            ),
        ),
        DownOutcome::Killed => unloaded.push(
            ("pruned_supervisors"@, json::Value::List(pruned_values(all, n))),
        ),
        _ => unloaded,
    };
    dropped.push(("supervisor_workspaces"@, json::Value::List(workspaces)))
}

/// What a `down` reports; `workspaces` are the reports of the workspaces.
pub fn down_report(
    all: &Vec<SupervisorRegistration>,
    agent: AgentState,
    options: DownOptions,
    workspaces: Vec<Json>,
) -> (r: Json)
    ensures
        r@ == json::Value::Object(
            down_value(all@, agent, options, json::items_view(workspaces@)),
        ),
{
    let mut pids: Vec<Json> = Vec::new();
    let mut first: Option<u32> = None;
    let mut i: usize = 0;
    while i < all.len()
        invariant
            i <= all@.len(),
            json::items_view(pids@) == live_pids(all@, i as int),
            match first {
                Some(pid) => live_pids(all@, i as int).len() > 0 && live_pids(all@, i as int)[0]
                    == json::Value::Int(pid as int) && some_alive(all@),
                None => live_pids(all@, i as int).len() == 0 && forall|j: int|
                    0 <= j < i ==> !(#[trigger] all@[j]).alive,
            },
        decreases all@.len() - i,
    {
        if all[i].alive {
            let ghost had = pids@;
            pids.push(Json::Int(all[i].pid as i128));
            assert(pids@.drop_last() =~= had);
            assert(pids@.last().view() == json::Value::Int(all@[i as int].pid as int));
            if first.is_none() {
                first = Some(all[i].pid);
            }
        }
        i += 1;
    }
    let pid = match first {
        Some(pid) => pid,
        None => {
            let dropped = if options.force {
                pruned(all)
            } else {
                Vec::new()
            };
            return Fields::new().text("outcome", DownOutcome::NotRunning.as_str()).flag(
                "launch_agent_unloaded",
                agent.loaded,
            ).with("pruned_supervisors", Json::List(dropped)).with(
                "supervisor_workspaces",
                Json::List(workspaces),
            ).done();
        },
    };
    let outcome = if options.force {
        DownOutcome::Killed
    } else if options.wait {
        DownOutcome::Stopped
    } else {
        DownOutcome::Draining
    };
    let fields = Fields::new().text("outcome", outcome.as_str()).number("pid", pid as i128).with(
        "pids",
        Json::List(pids),
    ).flag("launch_agent_unloaded", agent.loaded);
    let fields = if options.force {
        fields.with("pruned_supervisors", Json::List(pruned(all)))
    } else {
        fields
    };
    fields.with("supervisor_workspaces", Json::List(workspaces)).done()
}

/// A supervisor in a workspace is interrupted there; one that launchd stops by
/// itself gets no second signal; any other is asked to terminate.
pub proof fn a_supervisor_is_stopped_where_it_runs(
    r: &SupervisorRegistration,
    agent: AgentState,
    s: Signal,
)
    requires
        call_ensures(stop_signal, (r, agent), s),
    ensures
        s == Signal::Interrupt <==> r.mode == Some(SupervisorMode::InCmux),
        r.mode != Some(SupervisorMode::InCmux) && agent.pid == Some(r.pid) ==> s == Signal::Nothing,
        r.mode != Some(SupervisorMode::InCmux) && agent.loaded && agent.pid is None ==> s
            == Signal::Nothing,
        r.mode != Some(SupervisorMode::InCmux) && !agent.loaded && agent.pid is None ==> s
            == Signal::Terminate,
        r.mode != Some(SupervisorMode::InCmux) && agent.pid is Some && agent.pid->0 != r.pid ==> s
            == Signal::Terminate,
{
}

/// What the stop comes to: nothing runs where no process lives; else force
/// kills, waiting sees it through, and without either it drains on its own.
pub proof fn a_stop_comes_to_what_was_asked(
    all: &Vec<SupervisorRegistration>,
    agent: AgentState,
    options: DownOptions,
    r: Down,
)
    requires
        call_ensures(down, (all, agent, options), r),
    ensures
        r.outcome == DownOutcome::NotRunning <==> forall|i: int|
            0 <= i < all@.len() ==> !(#[trigger] all@[i]).alive,
        r.outcome == DownOutcome::Killed ==> options.force,
        r.outcome == DownOutcome::Stopped ==> options.wait && !options.force,
        r.outcome == DownOutcome::Draining ==> !options.wait && !options.force,
        r.stop == Stop::Pending <==> r.outcome == DownOutcome::Draining,
        r.outcome == DownOutcome::NotRunning && !options.force ==> r.actions@.len() == 0,
        r.actions@.contains(DownAction::WaitGone) <==> r.outcome == DownOutcome::Stopped,
{
    let n = all@.len() as int;
    signals_are_of_the_living(all@, agent, n);
    kills_are_of_the_living(all@, n);
    drops_are_of_the_dead(all@, n);
    if r.outcome == DownOutcome::Stopped {
        assert(r.actions@.last() == DownAction::WaitGone);
    }
    if r.actions@.contains(DownAction::WaitGone) && r.outcome != DownOutcome::Stopped {
        let k = choose|k: int|
            0 <= k < r.actions@.len() && r.actions@[k] == DownAction::WaitGone;
        let a = signals(all@, agent, n);
        let b = kills(all@, n);
        let c = drops(all@, n);
        if r.outcome == DownOutcome::Killed {
            if k < a.len() {
                assert(a[k] is WaitGone);
            } else if k < a.len() + b.len() {
                assert(b[k - a.len()] is WaitGone);
            } else {
                assert(c[k - a.len() - b.len()] is WaitGone);
            }
        } else if r.outcome == DownOutcome::Draining {
            assert(a[k] is WaitGone);
        } else if options.force {
            assert(c[k] is WaitGone);
        }
    }
}

/// Signals go to live supervisors alone, each the one that fits it.
proof fn signals_are_of_the_living(
    all: Seq<SupervisorRegistration>,
    agent: AgentState,
    n: int,
)
    requires
        0 <= n <= all.len(),
    ensures
        forall|k: int|
            #![trigger signals(all, agent, n)[k]]
            0 <= k < signals(all, agent, n).len() ==> match signals(all, agent, n)[k] {
                DownAction::Interrupt(pid) => exists|i: int|
                    0 <= i < n && (#[trigger] all[i]).alive && all[i].pid == pid && all[i].mode
                        == Some(SupervisorMode::InCmux),
                DownAction::Terminate(pid) => exists|i: int|
                    0 <= i < n && (#[trigger] all[i]).alive && all[i].pid == pid && all[i].mode
                        != Some(SupervisorMode::InCmux) && agent.pid != Some(pid) && !(agent.loaded
                        && agent.pid is None),
                _ => false,
            },
        forall|i: int|
            0 <= i < n && (#[trigger] all[i]).alive && all[i].mode == Some(SupervisorMode::InCmux)
                ==> signals(all, agent, n).contains(DownAction::Interrupt(all[i].pid)),
        forall|i: int|
            0 <= i < n && (#[trigger] all[i]).alive && all[i].mode != Some(SupervisorMode::InCmux)
                && agent.pid != Some(all[i].pid) && !(agent.loaded && agent.pid is None) ==> signals(
                all,
                agent,
                n,
            ).contains(DownAction::Terminate(all[i].pid)),
    decreases n,
{
    if n > 0 {
        signals_are_of_the_living(all, agent, n - 1);
        let before = signals(all, agent, n - 1);
        let after = signals(all, agent, n);
        assert forall|k: int|
            #![trigger after[k]]
            0 <= k < after.len() implies match after[k] {
            DownAction::Interrupt(pid) => exists|i: int|
                0 <= i < n && (#[trigger] all[i]).alive && all[i].pid == pid && all[i].mode == Some(
                    SupervisorMode::InCmux,
                ),
            DownAction::Terminate(pid) => exists|i: int|
                0 <= i < n && (#[trigger] all[i]).alive && all[i].pid == pid && all[i].mode != Some(
                    SupervisorMode::InCmux,
                ) && agent.pid != Some(pid) && !(agent.loaded && agent.pid is None),
            _ => false,
        } by {
            if k < before.len() {
                assert(after[k] == before[k]);
            } else {
                assert(all[n - 1].alive);
            }
        }
        assert forall|what: DownAction| before.contains(what) implies after.contains(what) by {
            let k = choose|k: int| 0 <= k < before.len() && before[k] == what;
            assert(after[k] == what);
        }
        if all[n - 1].alive && after.len() > before.len() {
            assert(after.contains(after[before.len() as int]));
        }
    }
}

/// Kills go to live supervisors alone and to each of them, and so does the end
/// of its registration.
proof fn kills_are_of_the_living(all: Seq<SupervisorRegistration>, n: int)
    requires
        0 <= n <= all.len(),
    ensures
        forall|k: int|
            #![trigger kills(all, n)[k]]
            0 <= k < kills(all, n).len() ==> match kills(all, n)[k] {
                DownAction::Kill(pid) => exists|i: int|
                    0 <= i < n && (#[trigger] all[i]).alive && all[i].pid == pid,
                DownAction::Deregister(token) => exists|i: int|
                    0 <= i < n && (#[trigger] all[i]).alive && all[i].token == token,
                _ => false,
            },
        forall|i: int|
            0 <= i < n && (#[trigger] all[i]).alive ==> kills(all, n).contains(
                DownAction::Kill(all[i].pid),
            ) && kills(all, n).contains(DownAction::Deregister(all[i].token)),
    decreases n,
{
    if n > 0 {
        kills_are_of_the_living(all, n - 1);
        let before = kills(all, n - 1);
        let after = kills(all, n);
        assert forall|k: int|
            #![trigger after[k]]
            0 <= k < after.len() implies match after[k] {
            DownAction::Kill(pid) => exists|i: int|
                0 <= i < n && (#[trigger] all[i]).alive && all[i].pid == pid,
            DownAction::Deregister(token) => exists|i: int|
                0 <= i < n && (#[trigger] all[i]).alive && all[i].token == token,
            _ => false,
        } by {
            if k < before.len() {
                assert(after[k] == before[k]);
            } else {
                assert(all[n - 1].alive);
            }
        }
        assert forall|what: DownAction| before.contains(what) implies after.contains(what) by {
            let k = choose|k: int| 0 <= k < before.len() && before[k] == what;
            assert(after[k] == what);
        }
        if all[n - 1].alive {
            assert(after.contains(after[before.len() as int]));
            assert(after.contains(after[before.len() as int + 1]));
        }
    }
}

/// Only registrations of the dead are dropped, and all of those.
proof fn drops_are_of_the_dead(all: Seq<SupervisorRegistration>, n: int)
    requires
        0 <= n <= all.len(),
    ensures
        forall|k: int|
            #![trigger drops(all, n)[k]]
            0 <= k < drops(all, n).len() ==> (drops(all, n)[k] matches DownAction::Deregister(token)
                && exists|i: int|
                0 <= i < n && !(#[trigger] all[i]).alive && all[i].token == token),
        forall|i: int|
            0 <= i < n && !(#[trigger] all[i]).alive ==> drops(all, n).contains(
                DownAction::Deregister(all[i].token),
            ),
    decreases n,
{
    if n > 0 {
        drops_are_of_the_dead(all, n - 1);
        let before = drops(all, n - 1);
        let after = drops(all, n);
        assert forall|k: int|
            #![trigger after[k]]
            0 <= k < after.len() implies (after[k] matches DownAction::Deregister(token) && exists|
            i: int,
        |
            0 <= i < n && !(#[trigger] all[i]).alive && all[i].token == token) by {
            if k < before.len() {
                assert(after[k] == before[k]);
            } else {
                assert(!all[n - 1].alive);
            }
        }
        assert forall|what: DownAction| before.contains(what) implies after.contains(what) by {
            let k = choose|k: int| 0 <= k < before.len() && before[k] == what;
            assert(after[k] == what);
        }
        if !all[n - 1].alive {
            assert(after.contains(after[before.len() as int]));
        }
    }
}

/// A stop signals only live supervisors, each the way it runs, and kills only
/// where it is forced, and then every live one; a registration ends only where
/// the stop is forced.
pub proof fn a_stop_touches_only_what_it_should(
    all: &Vec<SupervisorRegistration>,
    agent: AgentState,
    options: DownOptions,
    r: Down,
    k: int,
)
    requires
        call_ensures(down, (all, agent, options), r),
        0 <= k < r.actions@.len(),
    ensures
        match r.actions@[k] {
            DownAction::Interrupt(pid) => exists|i: int|
                0 <= i < all@.len() && (#[trigger] all@[i]).alive && all@[i].pid == pid
                    && all@[i].mode == Some(SupervisorMode::InCmux),
            DownAction::Terminate(pid) => agent.pid != Some(pid) && !(agent.loaded && agent.pid
                is None) && exists|i: int|
                0 <= i < all@.len() && (#[trigger] all@[i]).alive && all@[i].pid == pid
                    && all@[i].mode != Some(SupervisorMode::InCmux),
            DownAction::Kill(pid) => options.force && exists|i: int|
                0 <= i < all@.len() && (#[trigger] all@[i]).alive && all@[i].pid == pid,
            DownAction::Deregister(token) => options.force && exists|i: int|
                0 <= i < all@.len() && (#[trigger] all@[i]).token == token,
            DownAction::WaitGone => options.wait && !options.force,
        },
{
    let n = all@.len() as int;
    signals_are_of_the_living(all@, agent, n);
    kills_are_of_the_living(all@, n);
    drops_are_of_the_dead(all@, n);
    let a = signals(all@, agent, n);
    let b = kills(all@, n);
    let c = drops(all@, n);
    match r.outcome {
        DownOutcome::NotRunning => {
            if options.force {
                assert(r.actions@[k] == c[k]);
            }
        },
        DownOutcome::Killed => {
            if k < a.len() {
                assert(r.actions@[k] == a[k]);
            } else if k < a.len() + b.len() {
                assert(r.actions@[k] == b[k - a.len()]);
            } else {
                assert(r.actions@[k] == c[k - a.len() - b.len()]);
            }
        },
        DownOutcome::Stopped => {
            if k < a.len() {
                assert(r.actions@[k] == a[k]);
            }
        },
        DownOutcome::Draining => {
            assert(r.actions@[k] == a[k]);
        },
    }
}

/// A stop leaves out none: every live supervisor gets the signal that fits it,
/// and a forced one kills it and ends its registration, as it ends those of the
/// dead.
pub proof fn a_stop_leaves_out_none(
    all: &Vec<SupervisorRegistration>,
    agent: AgentState,
    options: DownOptions,
    r: Down,
    i: int,
)
    requires
        call_ensures(down, (all, agent, options), r),
        0 <= i < all@.len(),
    ensures
        all@[i].alive && all@[i].mode == Some(SupervisorMode::InCmux) ==> r.actions@.contains(
            DownAction::Interrupt(all@[i].pid),
        ),
        all@[i].alive && all@[i].mode != Some(SupervisorMode::InCmux) && agent.pid != Some(
            all@[i].pid,
        ) && !(agent.loaded && agent.pid is None) ==> r.actions@.contains(
            DownAction::Terminate(all@[i].pid),
        ),
        options.force ==> r.actions@.contains(DownAction::Deregister(all@[i].token)),
        options.force && all@[i].alive ==> r.actions@.contains(DownAction::Kill(all@[i].pid)),
{
    let n = all@.len() as int;
    signals_are_of_the_living(all@, agent, n);
    kills_are_of_the_living(all@, n);
    drops_are_of_the_dead(all@, n);
    let a = signals(all@, agent, n);
    let b = kills(all@, n);
    let c = drops(all@, n);
    assert forall|what: DownAction|
        a.contains(what) && r.outcome != DownOutcome::NotRunning implies r.actions@.contains(
        what,
    ) by {
        let k = choose|k: int| 0 <= k < a.len() && a[k] == what;
        assert(r.actions@[k] == what);
    }
    assert forall|what: DownAction|
        b.contains(what) && r.outcome == DownOutcome::Killed implies r.actions@.contains(what) by {
        let k = choose|k: int| 0 <= k < b.len() && b[k] == what;
        assert(r.actions@[a.len() + k] == what);
    }
    assert forall|what: DownAction|
        c.contains(what) && options.force implies r.actions@.contains(what) by {
        let k = choose|k: int| 0 <= k < c.len() && c[k] == what;
        if r.outcome == DownOutcome::Killed {
            assert(r.actions@[a.len() + b.len() + k] == what);
        } else {
            assert(r.actions@[k] == what);
        }
    }
}

/// A supervisor still remains exactly while one of those asked to stop is
/// registered and lives.
pub proof fn what_remains_still_lives(
    live: Seq<SupervisorRegistration>,
    all: Seq<SupervisorRegistration>,
    n: int,
)
    requires
        0 <= n <= all.len(),
    ensures
        remaining_labels(live, all, n).len() > 0 <==> exists|i: int, j: int|
            0 <= i < n && 0 <= j < live.len() && (#[trigger] all[i]).alive && all[i].token@ == (
            #[trigger] live[j]).token@,
        remaining_labels(live, all, n).len() <= n,
    decreases n,
{
    if n > 0 {
        what_remains_still_lives(live, all, n - 1);
        if is_among(live, all[n - 1].token@) && all[n - 1].alive {
            let j = choose|j: int|
                0 <= j < live.len() && (#[trigger] live[j]).token@ == all[n - 1].token@;
            assert(all[n - 1].alive && all[n - 1].token@ == live[j].token@);
        }
    }
}

/// The places of workspaces are those of the supervisors that have one.
proof fn workspaces_have_places(all: Seq<SupervisorRegistration>, n: int)
    requires
        0 <= n <= all.len(),
    ensures
        forall|k: int|
            0 <= k < workspace_places(all, n).len() ==> 0 <= #[trigger] workspace_places(all, n)[k]
                < n && all[workspace_places(all, n)[k]].mode == Some(SupervisorMode::InCmux)
                && all[workspace_places(all, n)[k]].workspace_id is Some,
        forall|i: int|
            0 <= i < n && (#[trigger] all[i]).mode == Some(SupervisorMode::InCmux)
                && all[i].workspace_id is Some ==> workspace_places(all, n).contains(i),
    decreases n,
{
    if n > 0 {
        workspaces_have_places(all, n - 1);
        let before = workspace_places(all, n - 1);
        let after = workspace_places(all, n);
        assert forall|k: int| 0 <= k < after.len() implies 0 <= #[trigger] after[k] < n
            && all[after[k]].mode == Some(SupervisorMode::InCmux) && all[after[k]].workspace_id
            is Some by {
            if k < before.len() {
                assert(after[k] == before[k]);
            }
        }
        assert forall|i: int|
            0 <= i < n && (#[trigger] all[i]).mode == Some(SupervisorMode::InCmux)
                && all[i].workspace_id is Some implies after.contains(i) by {
            if i < n - 1 {
                let k = choose|k: int| 0 <= k < before.len() && before[k] == i;
                assert(after[k] == i);
            } else {
                assert(after[before.len() as int] == i);
            }
        }
    }
}

/// Each workspace of a supervisor is closed once its stop was seen through, and
/// left open while it still drains; no other workspace is touched.
pub proof fn a_workspace_closes_after_its_supervisor(
    all: &Vec<SupervisorRegistration>,
    stop: Stop,
    r: Vec<Closing>,
)
    requires
        call_ensures(close_supervisor_workspaces, (all, stop), r),
    ensures
        forall|k: int|
            #![trigger r@[k]]
            0 <= k < r@.len() ==> match r@[k] {
                Closing::Close { id } => exists|i: int|
                    0 <= i < all@.len() && (#[trigger] all@[i]).workspace_id == Some(id)
                        && all@[i].mode == Some(SupervisorMode::InCmux) && (stop
                        == Stop::SeenThrough || !all@[i].alive),
                Closing::LeftOpen { report } => stop == Stop::Pending && exists|i: int|
                    0 <= i < all@.len() && (#[trigger] all@[i]).alive && all@[i].mode == Some(
                        SupervisorMode::InCmux,
                    ) && all@[i].workspace_id is Some && report@ is Object
                        && report@->Object_0[0] == (
                        "workspace_id"@,
                        json::Value::Text(all@[i].workspace_id->0@),
                    ) && report@->Object_0[1] == ("outcome"@, json::Value::Text("left_open"@)),
            },
        forall|i: int|
            0 <= i < all@.len() && (#[trigger] all@[i]).mode == Some(SupervisorMode::InCmux)
                && all@[i].workspace_id is Some && (stop == Stop::SeenThrough || !all@[i].alive)
                ==> exists|k: int|
                0 <= k < r@.len() && (#[trigger] r@[k] matches Closing::Close { id } && Some(id)
                    == all@[i].workspace_id),
{
    let n = all@.len() as int;
    workspaces_have_places(all@, n);
    let at = workspace_places(all@, n);
    assert forall|k: int|
        #![trigger r@[k]]
        0 <= k < r@.len() implies match r@[k] {
        Closing::Close { id } => exists|i: int|
            0 <= i < all@.len() && (#[trigger] all@[i]).workspace_id == Some(id) && all@[i].mode
                == Some(SupervisorMode::InCmux) && (stop == Stop::SeenThrough || !all@[i].alive),
        Closing::LeftOpen { report } => stop == Stop::Pending && exists|i: int|
            0 <= i < all@.len() && (#[trigger] all@[i]).alive && all@[i].mode == Some(
                SupervisorMode::InCmux,
            ) && all@[i].workspace_id is Some && report@ is Object && report@->Object_0[0] == (
                "workspace_id"@,
                json::Value::Text(all@[i].workspace_id->0@),
            ) && report@->Object_0[1] == ("outcome"@, json::Value::Text("left_open"@)),
    } by {
        assert(closes(all@[at[k]], stop, r@[k]));
        assert(0 <= at[k] < n);
    }
    assert forall|i: int|
        0 <= i < all@.len() && (#[trigger] all@[i]).mode == Some(SupervisorMode::InCmux)
            && all@[i].workspace_id is Some && (stop == Stop::SeenThrough
            || !all@[i].alive) implies exists|k: int|
        0 <= k < r@.len() && (#[trigger] r@[k] matches Closing::Close { id } && Some(id)
            == all@[i].workspace_id) by {
        let k = choose|k: int| 0 <= k < at.len() && at[k] == i;
        assert(closes(all@[at[k]], stop, r@[k]));
    }
}

/// What closing a workspace came to is reported as it went.
pub proof fn a_closing_is_reported_as_it_went(id: &str, result: &Result<(), String>, r: Json)
    requires
        call_ensures(closing_report, (id, result), r),
    ensures
        r@ is Object && r@->Object_0[0] == ("workspace_id"@, json::Value::Text(id@)),
        *result is Ok ==> r@->Object_0.len() == 2 && r@->Object_0[1] == (
            "outcome"@,
            json::Value::Text("closed"@),
        ),
        *result is Err ==> r@->Object_0.len() == 3 && r@->Object_0[1] == (
            "outcome"@,
            json::Value::Text("close_failed"@),
        ) && r@->Object_0[2] == ("reason"@, json::Value::Text(result->Err_0@)),
{
}

/// Reported as pruned are the dead registrations, each with its token.
proof fn the_pruned_are_dead(all: Seq<SupervisorRegistration>, n: int)
    requires
        0 <= n <= all.len(),
    ensures
        forall|k: int|
            0 <= k < pruned_values(all, n).len() ==> exists|i: int|
                0 <= i < n && !(#[trigger] all[i]).alive && (#[trigger] pruned_values(all, n)[k])
                    is Object && pruned_values(all, n)[k]->Object_0[0] == (
                    "token"@,
                    json::Value::Text(all[i].token@),
                ),
        forall|i: int|
            0 <= i < n && !(#[trigger] all[i]).alive ==> exists|k: int|
                0 <= k < pruned_values(all, n).len() && (#[trigger] pruned_values(all, n)[k])
                    is Object && pruned_values(all, n)[k]->Object_0[0] == (
                    "token"@,
                    json::Value::Text(all[i].token@),
                ),
    decreases n,
{
    if n > 0 {
        the_pruned_are_dead(all, n - 1);
        let before = pruned_values(all, n - 1);
        let after = pruned_values(all, n);
        assert forall|k: int| 0 <= k < after.len() implies exists|i: int|
            0 <= i < n && !(#[trigger] all[i]).alive && (#[trigger] after[k]) is Object
                && after[k]->Object_0[0] == ("token"@, json::Value::Text(all[i].token@)) by {
            if k < before.len() {
                assert(after[k] == before[k]);
            } else {
                assert(!all[n - 1].alive);
            }
        }
        assert forall|i: int| 0 <= i < n && !(#[trigger] all[i]).alive implies exists|k: int|
            0 <= k < after.len() && (#[trigger] after[k]) is Object && after[k]->Object_0[0] == (
                "token"@,
                json::Value::Text(all[i].token@),
            ) by {
            if i < n - 1 {
                let k = choose|k: int|
                    0 <= k < before.len() && (#[trigger] before[k]) is Object
                        && before[k]->Object_0[0] == ("token"@, json::Value::Text(all[i].token@));
                assert(after[k] == before[k]);
            } else {
                assert(after[before.len() as int] is Object);
            }
        }
    }
}

/// A registration is reported as pruned exactly where its process is gone.
pub proof fn only_the_dead_are_pruned(all: &Vec<SupervisorRegistration>, r: Vec<Json>)
    requires
        call_ensures(pruned, (all,), r),
    ensures
        forall|k: int|
            0 <= k < r@.len() ==> exists|i: int|
                0 <= i < all@.len() && !(#[trigger] all@[i]).alive && (#[trigger] r@[k])@ is Object
                    && r@[k]@->Object_0[0] == ("token"@, json::Value::Text(all@[i].token@)),
        forall|i: int|
            0 <= i < all@.len() && !(#[trigger] all@[i]).alive ==> exists|k: int|
                0 <= k < r@.len() && (#[trigger] r@[k])@ is Object && r@[k]@->Object_0[0] == (
                    "token"@,
                    json::Value::Text(all@[i].token@),
                ),
{
    the_pruned_are_dead(all@, all@.len() as int);
    json::items_viewed(r@);
    let values = pruned_values(all@, all@.len() as int);
    assert forall|k: int| 0 <= k < r@.len() implies exists|i: int|
        0 <= i < all@.len() && !(#[trigger] all@[i]).alive && (#[trigger] r@[k])@ is Object
            && r@[k]@->Object_0[0] == ("token"@, json::Value::Text(all@[i].token@)) by {
        assert(values[k] == r@[k]@);
    }
    assert forall|i: int| 0 <= i < all@.len() && !(#[trigger] all@[i]).alive implies exists|k: int|
        0 <= k < r@.len() && (#[trigger] r@[k])@ is Object && r@[k]@->Object_0[0] == (
            "token"@,
            json::Value::Text(all@[i].token@),
        ) by {
        let k = choose|k: int|
            0 <= k < values.len() && (#[trigger] values[k]) is Object && values[k]->Object_0[0] == (
                "token"@,
                json::Value::Text(all@[i].token@),
            );
        assert(values[k] == r@[k]@);
    }
}

/// The report of a stop names what it came to, the process it found first among
/// the live ones, whether an agent was unloaded, and what became of the
/// workspaces.
pub proof fn a_stop_is_reported_as_it_went(
    all: &Vec<SupervisorRegistration>,
    agent: AgentState,
    options: DownOptions,
    workspaces: Vec<Json>,
    r: Json,
)
    requires
        call_ensures(down_report, (all, agent, options, workspaces), r),
    ensures
        r@ is Object,
        r@->Object_0[0].0 == "outcome"@,
        !some_alive(all@) ==> r@->Object_0[0].1 == json::Value::Text("not_running"@),
        some_alive(all@) && options.force ==> r@->Object_0[0].1 == json::Value::Text("killed"@),
        some_alive(all@) && !options.force && options.wait ==> r@->Object_0[0].1
            == json::Value::Text("stopped"@),
        some_alive(all@) && !options.force && !options.wait ==> r@->Object_0[0].1
            == json::Value::Text("draining"@),
        some_alive(all@) ==> r@->Object_0[1].0 == "pid"@ && r@->Object_0[2].0 == "pids"@
            && r@->Object_0[3] == ("launch_agent_unloaded"@, json::Value::Bool(agent.loaded)),
        some_alive(all@) ==> exists|i: int|
            0 <= i < all@.len() && (#[trigger] all@[i]).alive && r@->Object_0[1].1
                == json::Value::Int(all@[i].pid as int) && forall|j: int|
                0 <= j < i ==> !(#[trigger] all@[j]).alive,
        !some_alive(all@) ==> r@->Object_0[1] == (
            "launch_agent_unloaded"@,
            json::Value::Bool(agent.loaded),
        ),
        r@->Object_0.last() == (
            "supervisor_workspaces"@,
            json::Value::List(json::items_view(workspaces@)),
        ),
{
    if some_alive(all@) {
        the_first_pid_is_of_the_first_alive(all@, all@.len() as int);
    }
}

/// The first process listed is that of the first live supervisor.
proof fn the_first_pid_is_of_the_first_alive(all: Seq<SupervisorRegistration>, n: int)
    requires
        0 <= n <= all.len(),
        exists|i: int| 0 <= i < n && (#[trigger] all[i]).alive,
    ensures
        live_pids(all, n).len() > 0,
        exists|i: int|
            0 <= i < n && (#[trigger] all[i]).alive && live_pids(all, n)[0] == json::Value::Int(
                all[i].pid as int,
            ) && forall|j: int| 0 <= j < i ==> !(#[trigger] all[j]).alive,
    decreases n,
{
    if exists|i: int| 0 <= i < n - 1 && (#[trigger] all[i]).alive {
        the_first_pid_is_of_the_first_alive(all, n - 1);
    } else {
        no_pid_of_the_dead(all, n - 1);
        assert(all[n - 1].alive);
    }
}

/// No process is listed where none lives.
proof fn no_pid_of_the_dead(all: Seq<SupervisorRegistration>, n: int)
    requires
        n <= all.len(),
        forall|i: int| 0 <= i < n ==> !(#[trigger] all[i]).alive,
    ensures
        live_pids(all, n).len() == 0,
    decreases n,
{
    if n > 0 {
        no_pid_of_the_dead(all, n - 1);
    }
}

} // verus!
