//! The replacement of live supervisors of another build: drained, then one of
//! this build started in their place.

use crate::json;
use crate::json::Json;
use crate::lifecycle::agent::{SupervisorMode, UpOptions};
use crate::lifecycle::stop::{remaining, remaining_labels, AgentState};
use crate::lifecycle::supervisors::{
    previous_version, replaced, replaced_value, replaced_version, SupervisorRegistration,
};
use crate::text;
use vstd::prelude::*;
use vstd::string::*;

verus! {

/// What has been done and observed of a replacement so far.
#[derive(Default)]
pub struct Seen {
    /// The runs in flight; read before anything is signalled.
    pub in_flight: Option<Vec<String>>,
    /// The queue's recorded supervisor workspace, where it is still open.
    pub recorded: Option<Option<String>>,
    /// cmux admits a process with the agent's environment.
    pub detached_proven: bool,
    pub agent: Option<AgentState>,
    /// Every live supervisor was signalled.
    pub signalled: bool,
    /// The registrations as they were last read.
    pub registered: Option<Vec<SupervisorRegistration>>,
    /// A bounded drain took too long.
    pub overdue: bool,
    /// The registrations after the drain, and those it left were dropped.
    pub after: Option<Vec<SupervisorRegistration>>,
    pub dropped: bool,
    /// The reports of the workspaces of the replaced supervisors.
    pub workspaces: Option<Vec<Json>>,
    /// The new supervisor.
    pub started: Option<Json>,
}

/// What a replacement does or looks at next, or what it came to.
pub enum Step {
    ActiveRuns,
    RecordedWorkspace,
    ProveDetached,
    UnloadAgent,
    SignalAll,
    Registrations,
    /// Look at the registrations again a little later.
    Wait,
    RegistrationsAfter,
    Drop { tokens: Vec<String> },
    CloseWorkspaces,
    Start,
    Refused(String),
    Restarted(Json),
}

/// Where a replacement stands.
pub ghost enum Stage {
    NeedRuns,
    RunsInFlight,
    NeedRecorded,
    WorkspaceTaken,
    NeedProof,
    NeedUnload,
    NeedSignals,
    NeedRegistrations,
    Overdue,
    Draining,
    NeedAfter,
    NeedDrop,
    NeedClose,
    NeedStart,
    Restarted,
}

/// Whether the recorded supervisor workspace is one the replacement will
/// close.
pub open spec fn is_drained_with(live: Seq<SupervisorRegistration>, id: Seq<char>) -> bool {
    exists|i: int|
        0 <= i < live.len() && (#[trigger] live[i]).mode == Some(SupervisorMode::InCmux)
            && text::opt_view(live[i].workspace_id) == Some(id)
}

/// Where the replacement stands: the first thing that is to do or wrong.
/// Whatever can refuse the new supervisor is settled before the old one is
/// touched.
pub open spec fn stage(
    live: Seq<SupervisorRegistration>,
    options: UpOptions,
    seen: Seen,
) -> Stage {
    if options.no_wait && seen.in_flight is None {
        Stage::NeedRuns
    } else if options.no_wait && seen.in_flight->0@.len() > 0 {
        Stage::RunsInFlight
    } else if options.in_cmux && seen.recorded is None {
        Stage::NeedRecorded
    } else if options.in_cmux && (seen.recorded matches Some(Some(id)) && !is_drained_with(
        live,
        id@,
    )) {
        Stage::WorkspaceTaken
    } else if !options.in_cmux && !seen.detached_proven {
        Stage::NeedProof
    } else if seen.agent is None {
        Stage::NeedUnload
    } else if !seen.signalled {
        Stage::NeedSignals
    } else if seen.registered is None {
        Stage::NeedRegistrations
    } else if remaining_labels(live, seen.registered->0@, seen.registered->0@.len() as int).len()
        > 0 {
        if options.no_wait && seen.overdue {
            Stage::Overdue
        } else {
            Stage::Draining
        }
    } else if seen.after is None {
        Stage::NeedAfter
    } else if !seen.dropped {
        Stage::NeedDrop
    } else if seen.workspaces is None {
        Stage::NeedClose
    } else if seen.started is None {
        Stage::NeedStart
    } else {
        Stage::Restarted
    }
}

/// The tokens of the replaced supervisors whose registration outlived the
/// drain, among the first `n`.
pub open spec fn survivors(
    live: Seq<SupervisorRegistration>,
    after: Seq<SupervisorRegistration>,
    n: int,
) -> Seq<Seq<char>>
    decreases n,
{
    if n <= 0 {
        Seq::empty()
    } else {
        let before = survivors(live, after, n - 1);
        if crate::lifecycle::stop::is_among(after, live[n - 1].token@) {
            before.push(live[n - 1].token@)
        } else {
            before
        }
    }
}

/// The reports of the replaced supervisors, the first `n` of them.
pub open spec fn replaced_values(live: Seq<SupervisorRegistration>, n: int) -> Seq<json::Value>
    decreases n,
{
    if n <= 0 {
        Seq::empty()
    } else {
        replaced_values(live, n - 1).push(replaced_value(live[n - 1].token@, live[n - 1]))
    }
}

/// A version in words.
pub open spec fn version_or(v: Option<Seq<char>>) -> Seq<char> {
    match v {
        Some(version) => version,
        None => "(unrecorded)"@,
    }
}

/// The report of the new supervisor, once the old ones are replaced.
pub open spec fn restarted_value(
    live: Seq<SupervisorRegistration>,
    version: Seq<char>,
    started: json::Value,
    workspaces: Seq<json::Value>,
) -> json::Value {
    json::put(
        json::put(
            json::put(
                json::put(started, "outcome"@, json::Value::Text("restarted"@)),
                "previous_version"@,
                json::text_or_null(replaced_version(live, version)),
            ),
            "replaced"@,
            json::Value::List(replaced_values(live, live.len() as int)),
        ),
        "supervisor_workspaces"@,
        json::Value::List(workspaces),
    )
}

/// What the replacement comes to where it stands at `stage`.
pub open spec fn replaces(
    live: Seq<SupervisorRegistration>,
    version: Seq<char>,
    options: UpOptions,
    seen: Seen,
    stage: Stage,
    r: Step,
) -> bool {
    match stage {
        Stage::NeedRuns => r is ActiveRuns,
        Stage::RunsInFlight => r matches Step::Refused(why) && why@
            == "refusing to replace the supervisor of version "@ + version_or(
            replaced_version(live, version),
        ) + " with "@ + version + " without waiting: "@ + text::decimal(
            seen.in_flight->0@.len(),
        ) + " run(s) are still in flight ("@ + text::joined(
            text::views(seen.in_flight->0@),
            ", "@,
        )
            + "); run `up` without --no-wait to drain them, or wait for them to finish"@,
        Stage::NeedRecorded => r is RecordedWorkspace,
        Stage::WorkspaceTaken => r matches Step::Refused(why) && why@ == taken_message(
            seen.recorded->0->0@,
        ),
        Stage::NeedProof => r is ProveDetached,
        Stage::NeedUnload => r is UnloadAgent,
        Stage::NeedSignals => r is SignalAll,
        Stage::NeedRegistrations => r is Registrations,
        Stage::Overdue => r matches Step::Refused(why) && why@
            == "--no-wait: the supervisor did not stop within "@ + text::decimal(
            options.startup_timeout as nat,
        ) + "s of the signal; still registered: "@ + text::joined(
            remaining_labels(live, seen.registered->0@, seen.registered->0@.len() as int),
            ", "@,
        )
            + ". It has been asked to drain and its LaunchAgent is unloaded, so run `up` again once `status` shows it gone"@,
        Stage::Draining => r is Wait,
        Stage::NeedAfter => r is RegistrationsAfter,
        Stage::NeedDrop => r matches Step::Drop { tokens } && text::views(tokens@) == survivors(
            live,
            seen.after->0@,
            live.len() as int,
        ),
        Stage::NeedClose => r is CloseWorkspaces,
        Stage::NeedStart => r is Start,
        Stage::Restarted => r matches Step::Restarted(report) && report@ == restarted_value(
            live,
            version,
            seen.started->0@,
            json::items_view(seen.workspaces->0@),
        ),
    }
}

/// Why a recorded supervisor workspace stops a replacement.
pub open spec fn taken_message(id: Seq<char>) -> Seq<char> {
    "cmux workspace "@ + id
        + ", recorded as this queue's supervisor workspace, is still open but belongs to no supervisor this `up` would drain, so the replacement could not open its own; read its screen, then close it (`cmux workspace close "@
        + id + "`) and run `up --in-cmux` again"@
}

/// Refuse, before anything is stopped, when the queue's recorded supervisor
/// workspace is still open and this replacement will not close it: finding
/// that only after the drain would cost a working supervisor and leave the
/// queue with nothing serving it.
pub fn ensure_supervisor_workspace_free(
    live: &Vec<SupervisorRegistration>,
    open: &Option<String>,
) -> (r: Option<String>)
    ensures
        match *open {
            Some(id) => if is_drained_with(live@, id@) {
                r is None
            } else {
                r matches Some(why) && why@ == taken_message(id@)
            },
            None => r is None,
        },
{
    let id = match open {
        Some(id) => id,
        None => return None,
    };
    let mut i: usize = 0;
    while i < live.len()
        invariant
            i <= live@.len(),
            *open == Some(*id),
            forall|j: int|
                0 <= j < i ==> (#[trigger] live@[j]).mode != Some(SupervisorMode::InCmux)
                    || text::opt_view(live@[j].workspace_id) != Some(id@),
        decreases live@.len() - i,
    {
        if let Some(SupervisorMode::InCmux) = live[i].mode {
            if text::is_text(&live[i].workspace_id, id.as_str()) {
                assert(live@[i as int].mode == Some(SupervisorMode::InCmux));
                return None;
            }
        }
        i += 1;
    }
    Some(
        "cmux workspace ".to_owned().concat(id.as_str()).concat(
            ", recorded as this queue's supervisor workspace, is still open but belongs to no supervisor this `up` would drain, so the replacement could not open its own; read its screen, then close it (`cmux workspace close ",
        ).concat(id.as_str()).concat("`) and run `up --in-cmux` again"),
    )
}

/// The tokens of the replaced supervisors whose registration outlived the
/// drain.
fn surviving(live: &Vec<SupervisorRegistration>, after: &Vec<SupervisorRegistration>) -> (r: Vec<
    String,
>)
    ensures
        text::views(r@) == survivors(live@, after@, live@.len() as int),
{
    let mut out: Vec<String> = Vec::new();
    let mut i: usize = 0;
    assert(text::views(out@) =~= Seq::empty());
    while i < live.len()
        invariant
            i <= live@.len(),
            text::views(out@) == survivors(live@, after@, i as int),
        decreases live@.len() - i,
    {
        if crate::lifecycle::stop::among(after, live[i].token.as_str()) {
            let ghost had = text::views(out@);
            out.push(live[i].token.clone());
            assert(text::views(out@) =~= had.push(live@[i as int].token@));
        }
        i += 1;
    }
    out
}

/// The reports of the replaced supervisors.
fn replaced_all(live: &Vec<SupervisorRegistration>) -> (r: Vec<Json>)
    ensures
        json::items_view(r@) == replaced_values(live@, live@.len() as int),
{
    let mut out: Vec<Json> = Vec::new();
    let mut i: usize = 0;
    while i < live.len()
        invariant
            i <= live@.len(),
            json::items_view(out@) == replaced_values(live@, i as int),
        decreases live@.len() - i,
    {
        let ghost had = out@;
        let report = replaced(live[i].token.as_str(), &live[i]);
        out.push(report);
        assert(out@.drop_last() =~= had);
        i += 1;
    }
    out
}

/// A list of equal values.
fn copy_all(list: &Vec<Json>) -> (r: Vec<Json>)
    ensures
        json::items_view(r@) == json::items_view(list@),
{
    let mut out: Vec<Json> = Vec::new();
    let mut i: usize = 0;
    while i < list.len()
        invariant
            i <= list@.len(),
            json::items_view(out@) == json::items_view(list@.take(i as int)),
        decreases list@.len() - i,
    {
        let ghost had = out@;
        let item = list[i].copy();
        out.push(item);
        assert(out@.drop_last() =~= had);
        assert(list@.take(i + 1).drop_last() =~= list@.take(i as int));
        i += 1;
    }
    assert(list@.take(i as int) =~= list@);
    out
}

/// An optional text as a value.
fn text_or_null(o: &Option<String>) -> (r: Json)
    ensures
        r@ == json::text_or_null(text::opt_view(*o)),
{
    match o {
        Some(s) => Json::Text(s.clone()),
        None => Json::Null,
    }
}

/// Drain every live supervisor of another build and start one of this
/// binary's version in its place, so that updating the binary is `up` and
/// nothing else. The drain is unbounded because a run is a session:
/// `no_wait` asks for the replacement only if nothing is in flight, and
/// bounds the drain too.
pub fn replace_supervisors(
    live: &Vec<SupervisorRegistration>,
    version: &str,
    options: &UpOptions,
    seen: &Seen,
) -> (r: Step)
    ensures
        replaces(live@, version@, *options, *seen, stage(live@, *options, *seen), r),
{
    let previous = previous_version(live, version);
    if options.no_wait {
        let in_flight = match &seen.in_flight {
            Some(in_flight) => in_flight,
            None => return Step::ActiveRuns,
        };
        if in_flight.len() > 0 {
            let was: &str = match &previous {
                Some(previous) => previous.as_str(),
                None => "(unrecorded)",
            };
            let count = text::number(in_flight.len() as u64);
            let list = text::join(in_flight, ", ");
            return Step::Refused(
                "refusing to replace the supervisor of version ".to_owned().concat(was).concat(
                    " with ",
                ).concat(version).concat(" without waiting: ").concat(count.as_str()).concat(
                    " run(s) are still in flight (",
                ).concat(list.as_str()).concat(
                    "); run `up` without --no-wait to drain them, or wait for them to finish",
                ),
            );
        }
    }
    if options.in_cmux {
        let recorded = match &seen.recorded {
            Some(recorded) => recorded,
            None => return Step::RecordedWorkspace,
        };
        if let Some(why) = ensure_supervisor_workspace_free(live, recorded) {
            return Step::Refused(why);
        }
    } else if !seen.detached_proven {
        return Step::ProveDetached;
    }
    if seen.agent.is_none() {
        return Step::UnloadAgent;
    }
    if !seen.signalled {
        return Step::SignalAll;
    }
    let registered = match &seen.registered {
        Some(registered) => registered,
        None => return Step::Registrations,
    };
    let left = remaining(live, registered);
    assert(text::views(left@).len() == left@.len());
    if left.len() > 0 {
        if options.no_wait && seen.overdue {
            let secs = text::number(options.startup_timeout);
            let list = text::join(&left, ", ");
            return Step::Refused(
                "--no-wait: the supervisor did not stop within ".to_owned().concat(
                    secs.as_str(),
                ).concat("s of the signal; still registered: ").concat(list.as_str()).concat(
                    ". It has been asked to drain and its LaunchAgent is unloaded, so run `up` again once `status` shows it gone",
                ),
            );
        }
        return Step::Wait;
    }
    let after = match &seen.after {
        Some(after) => after,
        None => return Step::RegistrationsAfter,
    };
    if !seen.dropped {
        return Step::Drop { tokens: surviving(live, after) };
    }
    let workspaces = match &seen.workspaces {
        Some(workspaces) => workspaces,
        None => return Step::CloseWorkspaces,
    };
    let started = match &seen.started {
        Some(started) => started,
        None => return Step::Start,
    };
    let report = started.copy().with("outcome", Json::Text("restarted".to_owned())).with(
        "previous_version",
        text_or_null(&previous),
    ).with("replaced", Json::List(replaced_all(live))).with(
        "supervisor_workspaces",
        Json::List(copy_all(workspaces)),
    );
    Step::Restarted(report)
}

/// Nothing of a working supervisor is touched before everything that could
/// refuse its replacement is settled.
pub proof fn nothing_is_stopped_before_it_can_be_replaced(
    live: Seq<SupervisorRegistration>,
    options: UpOptions,
    seen: Seen,
)
    requires
        stage(live, options, seen) == Stage::NeedUnload || stage(live, options, seen)
            == Stage::NeedSignals,
    ensures
        options.no_wait ==> (seen.in_flight matches Some(runs) && runs@.len() == 0),
        options.in_cmux ==> (seen.recorded matches Some(open) && (open matches Some(id)
            ==> is_drained_with(live, id@))),
        !options.in_cmux ==> seen.detached_proven,
{
}

/// The new supervisor is started only once none of the old ones is both
/// registered and alive.
pub proof fn starts_only_after_the_drain(
    live: Seq<SupervisorRegistration>,
    options: UpOptions,
    seen: Seen,
    i: int,
)
    requires
        stage(live, options, seen) == Stage::NeedStart,
        0 <= i < seen.registered->0@.len(),
        crate::lifecycle::stop::is_among(live, seen.registered->0@[i].token@),
    ensures
        !seen.registered->0@[i].alive,
{
    if seen.registered->0@[i].alive {
        counted_if_remaining(live, seen.registered->0@, seen.registered->0@.len() as int, i);
    }
}

/// A supervisor that is still there is counted.
proof fn counted_if_remaining(
    live: Seq<SupervisorRegistration>,
    all: Seq<SupervisorRegistration>,
    n: int,
    i: int,
)
    requires
        0 <= i < n <= all.len(),
        crate::lifecycle::stop::is_among(live, all[i].token@),
        all[i].alive,
    ensures
        remaining_labels(live, all, n).len() > 0,
    decreases n,
{
    if i < n - 1 {
        counted_if_remaining(live, all, n - 1, i);
    }
}

/// A supervisor is replaced without waiting only where no run is in flight, and
/// nothing else refuses it for that.
pub proof fn runs_in_flight_refuse_a_hasty_replacement(
    live: Seq<SupervisorRegistration>,
    version: Seq<char>,
    options: UpOptions,
    seen: Seen,
    r: Step,
)
    requires
        replaces(live, version, options, seen, stage(live, options, seen), r),
    ensures
        options.no_wait && seen.in_flight is Some && seen.in_flight->0@.len() > 0 ==> r is Refused,
        r is ActiveRuns <==> options.no_wait && seen.in_flight is None,
        r !is ActiveRuns && r !is Refused && options.no_wait ==> seen.in_flight is Some
            && seen.in_flight->0@.len() == 0,
        r is Refused && !options.in_cmux && !options.no_wait ==> false,
{
}

/// The steps of a replacement come in order, each only once those before it
/// were done: nothing is unloaded before the replacement can run, no supervisor
/// signalled before its agent is unloaded, and none started before the old ones
/// are gone and their registrations dropped.
pub proof fn a_replacement_goes_step_by_step(
    live: Seq<SupervisorRegistration>,
    version: Seq<char>,
    options: UpOptions,
    seen: Seen,
    r: Step,
)
    requires
        replaces(live, version, options, seen, stage(live, options, seen), r),
    ensures
        r is RecordedWorkspace ==> options.in_cmux && seen.recorded is None,
        r is ProveDetached ==> !options.in_cmux && !seen.detached_proven,
        r is UnloadAgent ==> (if options.in_cmux {
            seen.recorded is Some
        } else {
            seen.detached_proven
        }) && seen.agent is None,
        r is SignalAll ==> seen.agent is Some && !seen.signalled,
        r is Registrations ==> seen.agent is Some && seen.signalled && seen.registered is None,
        r is Wait ==> seen.signalled && seen.registered is Some,
        r is RegistrationsAfter ==> seen.signalled && seen.registered is Some && seen.after is None,
        r is Drop ==> seen.after is Some && !seen.dropped,
        r is CloseWorkspaces ==> seen.dropped && seen.workspaces is None,
        r is Start ==> seen.agent is Some && seen.signalled && seen.registered is Some && seen.after
            is Some && seen.dropped && seen.workspaces is Some && seen.started is None,
        r is Restarted ==> seen.signalled && seen.registered is Some && seen.dropped
            && seen.workspaces is Some && seen.started is Some,
{
}

/// A replacement is waited for while one of the old supervisors is registered
/// and lives, whatever else is known; without waiting, the time allowed ends
/// that with a refusal.
pub proof fn a_replacement_waits_for_the_old_ones(
    live: Seq<SupervisorRegistration>,
    version: Seq<char>,
    options: UpOptions,
    seen: Seen,
    r: Step,
    i: int,
    j: int,
)
    requires
        replaces(live, version, options, seen, stage(live, options, seen), r),
        seen.registered is Some,
        0 <= i < seen.registered->0@.len(),
        0 <= j < live.len(),
        seen.registered->0@[i].alive,
        seen.registered->0@[i].token@ == live[j].token@,
    ensures
        r !is RegistrationsAfter && r !is Drop && r !is CloseWorkspaces && r !is Start
            && r !is Restarted,
        r is Wait ==> !(options.no_wait && seen.overdue),
{
    assert(live[j].token@ == seen.registered->0@[i].token@);
    counted_if_remaining(live, seen.registered->0@, seen.registered->0@.len() as int, i);
}

/// A workspace stands in the way only where no supervisor that is drained holds
/// it in cmux.
pub proof fn a_workspace_is_free_when_its_supervisor_drains(
    live: &Vec<SupervisorRegistration>,
    open: &Option<String>,
    r: Option<String>,
)
    requires
        call_ensures(ensure_supervisor_workspace_free, (live, open), r),
    ensures
        *open is None ==> r is None,
        *open is Some && r is None ==> exists|i: int|
            0 <= i < live@.len() && (#[trigger] live@[i]).mode == Some(SupervisorMode::InCmux)
                && live@[i].workspace_id is Some && live@[i].workspace_id->0@ == open->0@,
        forall|i: int|
            *open is Some && 0 <= i < live@.len() && (#[trigger] live@[i]).mode == Some(
                SupervisorMode::InCmux,
            ) && live@[i].workspace_id is Some && live@[i].workspace_id->0@ == open->0@ ==> r
                is None,
        r is Some ==> text::has_prefix(r->0@, "cmux workspace "@ + open->0@),
{
    if *open is Some && r is None {
        let i = choose|i: int|
            0 <= i < live@.len() && (#[trigger] live@[i]).mode == Some(SupervisorMode::InCmux)
                && text::opt_view(live@[i].workspace_id) == Some(open->0@);
        assert(live@[i].workspace_id is Some);
    }
    if r is Some {
        let head = "cmux workspace "@ + open->0@;
        assert(r->0@.subrange(0, head.len() as int) =~= head);
    }
}

/// A workspace that no drained supervisor holds refuses a replacement in cmux.
pub proof fn a_taken_workspace_refuses(
    live: Seq<SupervisorRegistration>,
    version: Seq<char>,
    options: UpOptions,
    seen: Seen,
    r: Step,
)
    requires
        replaces(live, version, options, seen, stage(live, options, seen), r),
        options.in_cmux,
        seen.recorded is Some && seen.recorded->0 is Some,
        forall|i: int|
            0 <= i < live.len() ==> (#[trigger] live[i]).mode != Some(SupervisorMode::InCmux)
                || live[i].workspace_id is None || live[i].workspace_id->0@
                != seen.recorded->0->0@,
    ensures
        r is Refused || r is ActiveRuns,
{
}

/// The registrations dropped are those of old supervisors that are still there.
proof fn survivors_are_old_and_there(
    live: Seq<SupervisorRegistration>,
    after: Seq<SupervisorRegistration>,
    n: int,
    token: Seq<char>,
)
    requires
        0 <= n <= live.len(),
    ensures
        survivors(live, after, n).contains(token) <==> (exists|i: int|
            0 <= i < n && (#[trigger] live[i]).token@ == token) && (exists|j: int|
            0 <= j < after.len() && (#[trigger] after[j]).token@ == token),
    decreases n,
{
    if n > 0 {
        survivors_are_old_and_there(live, after, n - 1, token);
        let before = survivors(live, after, n - 1);
        let now = survivors(live, after, n);
        if now.contains(token) {
            let k = choose|k: int| 0 <= k < now.len() && now[k] == token;
            if k < before.len() {
                assert(before[k] == token);
            } else {
                assert(live[n - 1].token@ == token);
            }
        }
        if before.contains(token) {
            let k = choose|k: int| 0 <= k < before.len() && before[k] == token;
            assert(now[k] == token);
        }
        if live[n - 1].token@ == token && crate::lifecycle::stop::is_among(after, token) {
            assert(now[before.len() as int] == token);
        }
    }
}

/// What is dropped is every registration of an old supervisor that is still
/// there, and no other.
pub proof fn only_old_registrations_are_dropped(
    live: Seq<SupervisorRegistration>,
    version: Seq<char>,
    options: UpOptions,
    seen: Seen,
    r: Step,
    token: Seq<char>,
)
    requires
        replaces(live, version, options, seen, stage(live, options, seen), r),
        r is Drop,
    ensures
        (exists|k: int| 0 <= k < r->tokens@.len() && (#[trigger] r->tokens@[k])@ == token) <==> (
        exists|i: int| 0 <= i < live.len() && (#[trigger] live[i]).token@ == token) && (exists|
            j: int,
        |
            0 <= j < seen.after->0@.len() && (#[trigger] seen.after->0@[j]).token@ == token),
{
    let all = survivors(live, seen.after->0@, live.len() as int);
    survivors_are_old_and_there(live, seen.after->0@, live.len() as int, token);
    assert(text::views(r->tokens@) == all);
    if exists|k: int| 0 <= k < r->tokens@.len() && (#[trigger] r->tokens@[k])@ == token {
        let k = choose|k: int| 0 <= k < r->tokens@.len() && (#[trigger] r->tokens@[k])@ == token;
        assert(all[k] == token);
    }
    if all.contains(token) {
        let k = choose|k: int| 0 <= k < all.len() && all[k] == token;
        assert(r->tokens@[k]@ == token);
    }
}

/// Each supervisor that was replaced is reported, in order.
proof fn each_replaced_one_is_reported(live: Seq<SupervisorRegistration>, n: int)
    requires
        0 <= n <= live.len(),
    ensures
        replaced_values(live, n).len() == n,
        forall|i: int|
            0 <= i < n ==> #[trigger] replaced_values(live, n)[i] == replaced_value(
                live[i].token@,
                live[i],
            ),
    decreases n,
{
    if n > 0 {
        each_replaced_one_is_reported(live, n - 1);
    }
}

/// The report of a replacement is that of the start, as a restart, with the
/// version before, every supervisor replaced and what became of the workspaces.
pub proof fn a_restart_reports_what_it_replaced(
    live: Seq<SupervisorRegistration>,
    version: Seq<char>,
    options: UpOptions,
    seen: Seen,
    r: Step,
)
    requires
        replaces(live, version, options, seen, stage(live, options, seen), r),
        r is Restarted,
        seen.started is Some && seen.started->0@ is Object,
    ensures
        json::at(r->Restarted_0@, "outcome"@) == json::Value::Text("restarted"@),
        json::at(r->Restarted_0@, "replaced"@) is List,
        json::at(r->Restarted_0@, "replaced"@)->List_0.len() == live.len(),
        json::at(r->Restarted_0@, "supervisor_workspaces"@) == json::Value::List(
            json::items_view(seen.workspaces->0@),
        ),
        json::at(r->Restarted_0@, "token"@) == json::at(seen.started->0@, "token"@),
        json::at(r->Restarted_0@, "pid"@) == json::at(seen.started->0@, "pid"@),
{
    reveal_strlit("outcome");
    reveal_strlit("previous_version");
    reveal_strlit("replaced");
    reveal_strlit("supervisor_workspaces");
    reveal_strlit("token");
    reveal_strlit("pid");
    assert("outcome"@.len() == 7 && "previous_version"@.len() == 16 && "replaced"@.len() == 8
        && "supervisor_workspaces"@.len() == 21 && "token"@.len() == 5 && "pid"@.len() == 3);
    each_replaced_one_is_reported(live, live.len() as int);
    let m0 = seen.started->0@->Object_0;
    let v1 = json::Value::Text("restarted"@);
    let m1 = json::placed(m0, "outcome"@, v1);
    let v2 = json::text_or_null(replaced_version(live, version));
    let m2 = json::placed(m1, "previous_version"@, v2);
    let v3 = json::Value::List(replaced_values(live, live.len() as int));
    let m3 = json::placed(m2, "replaced"@, v3);
    let v4 = json::Value::List(json::items_view(seen.workspaces->0@));
    json::put_reads_back(m3, "supervisor_workspaces"@, v4, "outcome"@);
    json::put_reads_back(m3, "supervisor_workspaces"@, v4, "replaced"@);
    json::put_reads_back(m3, "supervisor_workspaces"@, v4, "token"@);
    json::put_reads_back(m3, "supervisor_workspaces"@, v4, "pid"@);
    json::put_reads_back(m2, "replaced"@, v3, "outcome"@);
    json::put_reads_back(m2, "replaced"@, v3, "token"@);
    json::put_reads_back(m2, "replaced"@, v3, "pid"@);
    json::put_reads_back(m1, "previous_version"@, v2, "outcome"@);
    json::put_reads_back(m1, "previous_version"@, v2, "token"@);
    json::put_reads_back(m1, "previous_version"@, v2, "pid"@);
    json::put_reads_back(m0, "outcome"@, v1, "token"@);
    json::put_reads_back(m0, "outcome"@, v1, "pid"@);
}

} // verus!
