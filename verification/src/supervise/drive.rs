//! The loop: how a supervisor registers, what a pass does and in what order,
//! and how the loop ends.

use crate::domain::{Agent, Failing, ReasonCode, TaskRun};
use crate::json;
use crate::json::{Fields, Json};
use crate::lifecycle::agent::SupervisorMode;
use crate::path;
use crate::supervise::disk::HoldChange;
use crate::text;
use vstd::prelude::*;
use vstd::string::*;

verus! {

/// Where the supervisor works and what it starts.
pub struct Layout {
    /// The queue database, canonical.
    pub db: String,
    /// Where the run directories are made.
    pub runs_dir: String,
    /// The external ID of the queue's workspace group.
    pub queue_hash: String,
    /// The checkout the supervisor was given, and its Git common directory.
    pub repo_root: String,
    pub common_dir: String,
    /// The agent the run sessions start, and its executable.
    pub agent: Agent,
    pub claude: String,
    /// The runtime binary the sessions and the observer run.
    pub runner: String,
    /// This process and its binary's version.
    pub pid: u32,
    pub version: String,
    /// The role and queue of a worker's workspace.
    pub worker_env: Vec<(String, String)>,
    /// The role and queue of a headless job.
    pub job_env: Vec<(String, String)>,
    /// Variables the observer's process does not inherit.
    pub observer_env_remove: Vec<String>,
    pub planners_dir: String,
    pub plugin_dir: Option<String>,
    /// One directory per plan review job.
    pub plan_reviews_dir: String,
}

/// How the loop is started.
pub struct StartSettings {
    /// Upper bound on runs executing at once.
    pub parallel: usize,
    /// Upper bound on the runs waiting for a person outside the slots.
    pub max_waiting: usize,
    /// The token of the supervisor this process continues.
    pub handoff_token: Option<String>,
    /// How `up` started this process.
    pub mode: Option<SupervisorMode>,
    /// Whether the registration asks for the automatic update.
    pub register_update: bool,
}

/// What a registration says of itself.
pub struct Registered {
    pub mode: Option<SupervisorMode>,
    pub auto_update: bool,
    pub binary_version: Option<String>,
}

/// What has been done and observed of a start.
#[derive(Default)]
pub struct StartSeen {
    pub cmux_checked: bool,
    pub agent_checked: bool,
    pub bound: bool,
    /// The registration of the token that is continued.
    pub continued: Option<Option<Registered>>,
    /// The token of this supervisor.
    pub token: Option<String>,
    /// The registration was made, or taken over.
    pub registered: bool,
    pub accepts_handoff: bool,
    pub update_set: bool,
    pub max_waiting_set: bool,
    pub config_recorded: bool,
    /// The registration as it is then.
    pub registration: Option<Option<Registered>>,
    pub start_recorded: bool,
}

/// What a start does or looks at next, or what it came to.
pub enum StartStep {
    Refused(String),
    PreflightCmux,
    PreflightAgent,
    Bind { common_dir: String },
    FindRegistration { token: String },
    ResumeRegistration { token: String, pid: u32, version: String },
    NewToken,
    Register { token: String, pid: u32, parallel: u32, version: String },
    AcceptHandoff { token: String },
    SetAutoUpdate { token: String },
    SetMaxWaiting { token: String, max: u32 },
    /// Record the thresholds of the stalled-session checks, with the token as
    /// their `supervisor`.
    RecordStallConfig { token: String },
    RecordStarted { payload: Json },
    /// Run the loop, rebuilding the runs of the supervisor it continues first.
    Run { token: String, rebuild: bool },
}

/// The token a start goes on with.
pub open spec fn token_of(settings: StartSettings, seen: StartSeen) -> String {
    match settings.handoff_token {
        Some(token) => token,
        None => seen.token->0,
    }
}

/// The version the supervisor that is continued ran.
pub open spec fn previous_of(settings: StartSettings, seen: StartSeen) -> Option<Seq<char>> {
    match settings.handoff_token {
        Some(_) => match seen.continued->0 {
            Some(registered) => text::opt_view(registered.binary_version),
            None => None,
        },
        None => None,
    }
}

/// What the mark of a start records.
pub open spec fn started_payload(
    layout: Layout,
    settings: StartSettings,
    seen: StartSeen,
) -> json::Value {
    let mode = match settings.mode {
        Some(mode) => Some(mode),
        None => match seen.registration->0 {
            Some(registered) => registered.mode,
            None => None,
        },
    };
    json::Value::Object(
        json::none().push(
            ("supervisor"@, json::Value::Text(token_of(settings, seen)@)),
        ).push(("dagq_version"@, json::Value::Text(layout.version@))).push(
            ("parallel"@, json::Value::Int(settings.parallel as int)),
        ).push(
            (
                "mode"@,
                match mode {
                    Some(mode) => json::Value::Text(mode.name()),
                    None => json::Value::Null,
                },
            ),
        ).push(
            (
                "auto_update"@,
                json::Value::Bool(
                    seen.registration->0 matches Some(registered) && registered.auto_update,
                ),
            ),
        ).push(("handoff"@, json::Value::Bool(settings.handoff_token is Some))).push(
            ("previous_version"@, json::text_or_null(previous_of(settings, seen))),
        ),
    )
}

/// What a start comes to.
pub open spec fn starts(
    layout: Layout,
    settings: StartSettings,
    seen: StartSeen,
    r: StartStep,
) -> bool {
    let token = token_of(settings, seen);
    if settings.parallel < 1 {
        r matches StartStep::Refused(why) && why@ == "parallel must be at least 1"@
    } else if path::is_within(layout.db@, layout.repo_root@) && !path::is_within(
        layout.db@,
        layout.common_dir@,
    ) {
        r matches StartStep::Refused(why) && why@
            == "keep the queue outside the worktree or under its Git common directory"@
    } else if !seen.cmux_checked {
        r is PreflightCmux
    } else if !seen.agent_checked {
        r is PreflightAgent
    } else if !seen.bound {
        r == (StartStep::Bind { common_dir: layout.common_dir })
    } else if settings.parallel > u32::MAX {
        r matches StartStep::Refused(why) && why@ == "parallel does not fit a registration"@
    } else if settings.handoff_token is Some && seen.continued is None {
        r == (StartStep::FindRegistration { token })
    } else if settings.handoff_token is Some && !seen.registered {
        r == (StartStep::ResumeRegistration {
            token,
            pid: layout.pid,
            version: layout.version,
        })
    } else if settings.handoff_token is None && seen.token is None {
        r is NewToken
    } else if settings.handoff_token is None && !seen.registered {
        r == (StartStep::Register {
            token,
            pid: layout.pid,
            parallel: settings.parallel as u32,
            version: layout.version,
        })
    } else if settings.handoff_token is None && !seen.accepts_handoff {
        r == (StartStep::AcceptHandoff { token })
    } else if settings.handoff_token is None && settings.register_update && !seen.update_set {
        r == (StartStep::SetAutoUpdate { token })
    } else if settings.max_waiting > u32::MAX {
        r matches StartStep::Refused(why) && why@ == "max-waiting does not fit a registration"@
    } else if !seen.max_waiting_set {
        r == (StartStep::SetMaxWaiting { token, max: settings.max_waiting as u32 })
    } else if !seen.config_recorded {
        r == (StartStep::RecordStallConfig { token })
    } else if seen.registration is None {
        r == (StartStep::FindRegistration { token })
    } else if !seen.start_recorded {
        r matches StartStep::RecordStarted { payload } && payload@ == started_payload(
            layout,
            settings,
            seen,
        )
    } else {
        r == (StartStep::Run { token, rebuild: settings.handoff_token is Some })
    }
}

/// The mark of a start.
fn start_mark(
    layout: &Layout,
    settings: &StartSettings,
    seen: &StartSeen,
    token: &String,
    registration: &Option<Registered>,
) -> (r: Json)
    requires
        seen.registration == Some(*registration),
        *token == token_of(*settings, *seen),
        settings.handoff_token is Some ==> seen.continued is Some,
    ensures
        r@ == started_payload(*layout, *settings, *seen),
{
    let mode = match settings.mode {
        Some(mode) => Some(mode),
        None => match registration {
            Some(registered) => registered.mode,
            None => None,
        },
    };
    let mode = match mode {
        Some(mode) => Some(mode.as_str().to_owned()),
        None => None,
    };
    let auto_update = match registration {
        Some(registered) => registered.auto_update,
        None => false,
    };
    let mut previous: Option<String> = None;
    if settings.handoff_token.is_some() {
        if let Some(Some(registered)) = &seen.continued {
            previous = crate::domain::same_text(&registered.binary_version);
        }
    }
    Fields::new().text("supervisor", token.as_str()).text(
        "dagq_version",
        layout.version.as_str(),
    ).number("parallel", settings.parallel as i128).opt_text("mode", &mode).flag(
        "auto_update",
        auto_update,
    ).flag("handoff", settings.handoff_token.is_some()).opt_text(
        "previous_version",
        &previous,
    ).done()
}

/// Start the supervisor: refuse what cannot work, check what it starts, bind
/// the repository, and register before the first heartbeat so that the loop is
/// visible from its first second. A process that continues one keeps its
/// registration: the same token, mode and leases.
pub fn supervise(layout: &Layout, settings: &StartSettings, seen: &StartSeen) -> (r: StartStep)
    ensures
        starts(*layout, *settings, *seen, r),
{
    if settings.parallel < 1 {
        return StartStep::Refused("parallel must be at least 1".to_owned());
    }
    if path::within(layout.db.as_str(), layout.repo_root.as_str()) && !path::within(
        layout.db.as_str(),
        layout.common_dir.as_str(),
    ) {
        return StartStep::Refused(
            "keep the queue outside the worktree or under its Git common directory".to_owned(),
        );
    }
    if !seen.cmux_checked {
        return StartStep::PreflightCmux;
    }
    if !seen.agent_checked {
        return StartStep::PreflightAgent;
    }
    if !seen.bound {
        return StartStep::Bind { common_dir: layout.common_dir.clone() };
    }
    if settings.parallel as u128 > u32::MAX as u128 {
        return StartStep::Refused("parallel does not fit a registration".to_owned());
    }
    let token = match &settings.handoff_token {
        Some(token) => {
            if seen.continued.is_none() {
                return StartStep::FindRegistration { token: token.clone() };
            }
            if !seen.registered {
                return StartStep::ResumeRegistration {
                    token: token.clone(),
                    pid: layout.pid,
                    version: layout.version.clone(),
                };
            }
            token
        },
        None => {
            let token = match &seen.token {
                None => return StartStep::NewToken,
                Some(token) => token,
            };
            if !seen.registered {
                return StartStep::Register {
                    token: token.clone(),
                    pid: layout.pid,
                    parallel: settings.parallel as u32,
                    version: layout.version.clone(),
                };
            }
            if !seen.accepts_handoff {
                return StartStep::AcceptHandoff { token: token.clone() };
            }
            if settings.register_update && !seen.update_set {
                return StartStep::SetAutoUpdate { token: token.clone() };
            }
            token
        },
    };
    if settings.max_waiting as u128 > u32::MAX as u128 {
        return StartStep::Refused("max-waiting does not fit a registration".to_owned());
    }
    if !seen.max_waiting_set {
        return StartStep::SetMaxWaiting {
            token: token.clone(),
            max: settings.max_waiting as u32,
        };
    }
    if !seen.config_recorded {
        return StartStep::RecordStallConfig { token: token.clone() };
    }
    let registration = match &seen.registration {
        None => return StartStep::FindRegistration { token: token.clone() },
        Some(registration) => registration,
    };
    if !seen.start_recorded {
        return StartStep::RecordStarted {
            payload: start_mark(layout, settings, seen, token, registration),
        };
    }
    StartStep::Run { token: token.clone(), rebuild: settings.handoff_token.is_some() }
}

/// The loop as it is now.
pub struct LoopState {
    /// Whether the slots are all at a point the next process rebuilds them
    /// from.
    pub rebuildable: bool,
    /// How many slots there are.
    pub slots: usize,
    pub claiming: bool,
    /// The binary a handoff asked this process to run.
    pub handoff: Option<String>,
    /// An observer, a plan review, a landing recheck or a cleanup runs.
    pub observer: bool,
    pub plan_review: bool,
    pub recheck: bool,
    pub cleanup: bool,
    /// The cleanup frees disk space.
    pub cleanup_for_disk: bool,
    /// A triage or a resume waits for a cleanup.
    pub cleanup_deferred: bool,
    /// End when nothing is active or claimable.
    pub once: bool,
}

/// What has been done and observed in a pass.
#[derive(Default)]
pub struct PassSeen {
    /// Why the heartbeat failed, if it did.
    pub heartbeat: Option<Option<String>>,
    /// How many slots that was noted on.
    pub noted: usize,
    /// Whether this pass found the stop switch set.
    pub stopping: bool,
    pub cleanup_polled: bool,
    pub env_checked: bool,
    pub env_marked: bool,
    pub disk_checked: bool,
    pub waiting_returned: bool,
    /// The handoff was asked for.
    pub handoff_asked: bool,
    /// The recheck pass ran, and whether it applied one.
    pub rechecked: Option<bool>,
    /// How many runs were prepared to be handed over.
    pub prepared: Option<usize>,
    pub observer_polled: bool,
    pub filled: bool,
    pub turns_recorded: bool,
    pub observer_started: bool,
    pub updated: bool,
    /// The plan review pass ran, and whether it readied tasks.
    pub planned: Option<bool>,
    pub ticked: bool,
}

/// What a pass does next, or what it came to.
pub enum PassStep {
    CheckHeartbeat,
    /// Note the error on the run of a slot, as a lost lease.
    NoteLost { slot: usize, error: String },
    /// The loop fails; leases and registration are kept.
    Failed(String),
    /// Poll the cleanup job, ending it after its current worktree.
    PollCleanup { end: bool },
    CheckRunEnv,
    MarkRunEnv,
    CheckDisk,
    ReturnWaiting,
    AskHandoff,
    Recheck,
    PrepareHandoff,
    /// The loop ended for a handoff to this binary.
    HandedOff { binary: String, runs: usize },
    FillSlots,
    PollObserver,
    RecordTurns,
    StartObserver,
    AutoUpdate,
    PlanReview { start: bool },
    /// Step the slots; only those a handoff waits for.
    Tick { unsettled_only: bool },
    /// The pass is over; the next one follows after the tick, or after the
    /// idle poll.
    Sleep { idle: bool },
    /// The loop is over.
    Break,
}

/// Whether work in progress keeps an empty loop going.
pub open spec fn job_runs(state: LoopState, seen: PassSeen) -> bool {
    state.observer || state.plan_review || state.recheck || state.cleanup_for_disk
        || state.cleanup_deferred || seen.rechecked == Some(true)
}

/// Whether a pass drains: no new work starts.
pub open spec fn drains(state: LoopState, seen: PassSeen) -> bool {
    seen.stopping || !state.claiming || state.handoff is Some
}

/// What a pass that waits for a handoff comes to.
pub open spec fn hands_off(state: LoopState, seen: PassSeen, r: PassStep) -> bool {
    if seen.rechecked is None {
        r is Recheck
    } else if !state.recheck && !state.cleanup && state.rebuildable && !seen.ticked {
        match seen.prepared {
            None => r is PrepareHandoff,
            Some(runs) => r == (PassStep::HandedOff { binary: state.handoff->0, runs }),
        }
    } else if !seen.observer_polled {
        r is PollObserver
    } else if !seen.ticked {
        r == (PassStep::Tick { unsettled_only: true })
    } else {
        r == (PassStep::Sleep { idle: false })
    }
}

/// What a pass comes to.
pub open spec fn passes(state: LoopState, seen: PassSeen, r: PassStep) -> bool {
    if seen.heartbeat is None {
        r is CheckHeartbeat
    } else if seen.heartbeat->0 is Some {
        if seen.noted < state.slots {
            r == (PassStep::NoteLost { slot: seen.noted, error: seen.heartbeat->0->0 })
        } else {
            r == PassStep::Failed(seen.heartbeat->0->0)
        }
    } else if !seen.cleanup_polled {
        r == (PassStep::PollCleanup { end: seen.stopping || state.handoff is Some })
    } else if !seen.env_checked {
        r is CheckRunEnv
    } else if !seen.env_marked {
        r is MarkRunEnv
    } else if !seen.disk_checked {
        r is CheckDisk
    } else if !seen.waiting_returned {
        r is ReturnWaiting
    } else if !seen.stopping && state.handoff is None && !seen.handoff_asked {
        r is AskHandoff
    } else if !seen.stopping && state.handoff is Some {
        hands_off(state, seen, r)
    } else if state.claiming && !seen.stopping && !seen.filled {
        r is FillSlots
    } else if !seen.observer_polled {
        r is PollObserver
    } else if !seen.turns_recorded {
        r is RecordTurns
    } else if seen.rechecked is None {
        r is Recheck
    } else if !seen.stopping && state.claiming && !seen.observer_started {
        r is StartObserver
    } else if !seen.stopping && state.claiming && !seen.updated {
        r is AutoUpdate
    } else if seen.planned is None {
        r == (PassStep::PlanReview { start: !seen.stopping && state.claiming })
    } else if state.slots == 0 && !seen.ticked {
        let job = job_runs(state, seen);
        if !job && !seen.planned->0 && (state.once || seen.stopping || !state.claiming) {
            r is Break
        } else {
            r == (PassStep::Sleep { idle: !job })
        }
    } else if !seen.ticked {
        r == (PassStep::Tick { unsettled_only: false })
    } else {
        r == (PassStep::Sleep { idle: false })
    }
}

/// A pass while a handoff is asked for. A landing recheck and a cleanup in
/// progress are waited for, and so is every slot the next process could not
/// rebuild.
fn hand_off(state: &LoopState, seen: &PassSeen, binary: &String) -> (r: PassStep)
    requires
        state.handoff == Some(*binary),
    ensures
        hands_off(*state, *seen, r),
{
    if seen.rechecked.is_none() {
        return PassStep::Recheck;
    }
    if !state.recheck && !state.cleanup && state.rebuildable && !seen.ticked {
        return match seen.prepared {
            None => PassStep::PrepareHandoff,
            Some(runs) => PassStep::HandedOff { binary: binary.clone(), runs },
        };
    }
    if !seen.observer_polled {
        return PassStep::PollObserver;
    }
    if !seen.ticked {
        return PassStep::Tick { unsettled_only: true };
    }
    PassStep::Sleep { idle: false }
}

/// One pass of the loop. A failed heartbeat is noted on every run and ends the
/// loop; leases and registration go stale with this process. A stop wins over
/// a handoff. A supervisor that stopped claiming drains: it neither observes
/// nor starts plan reviews nor updates itself. With no slot, a job in progress
/// is waited for like a run.
pub fn drive(state: &LoopState, seen: &PassSeen) -> (r: PassStep)
    ensures
        passes(*state, *seen, r),
{
    match &seen.heartbeat {
        None => return PassStep::CheckHeartbeat,
        Some(Some(error)) => {
            return if seen.noted < state.slots {
                PassStep::NoteLost { slot: seen.noted, error: error.clone() }
            } else {
                PassStep::Failed(error.clone())
            };
        },
        Some(None) => {},
    }
    if !seen.cleanup_polled {
        return PassStep::PollCleanup { end: seen.stopping || state.handoff.is_some() };
    }
    if !seen.env_checked {
        return PassStep::CheckRunEnv;
    }
    if !seen.env_marked {
        return PassStep::MarkRunEnv;
    }
    if !seen.disk_checked {
        return PassStep::CheckDisk;
    }
    if !seen.waiting_returned {
        return PassStep::ReturnWaiting;
    }
    if !seen.stopping {
        match &state.handoff {
            None => if !seen.handoff_asked {
                return PassStep::AskHandoff;
            },
            Some(binary) => return hand_off(state, seen, binary),
        }
    }
    if state.claiming && !seen.stopping && !seen.filled {
        return PassStep::FillSlots;
    }
    if !seen.observer_polled {
        return PassStep::PollObserver;
    }
    if !seen.turns_recorded {
        return PassStep::RecordTurns;
    }
    let rechecked = match seen.rechecked {
        None => return PassStep::Recheck,
        Some(rechecked) => rechecked,
    };
    if !seen.stopping && state.claiming && !seen.observer_started {
        return PassStep::StartObserver;
    }
    if !seen.stopping && state.claiming && !seen.updated {
        return PassStep::AutoUpdate;
    }
    let progressed = match seen.planned {
        None => return PassStep::PlanReview { start: !seen.stopping && state.claiming },
        Some(progressed) => progressed,
    };
    if state.slots == 0 && !seen.ticked {
        let job = state.observer || state.plan_review || state.recheck || state.cleanup_for_disk
            || state.cleanup_deferred || rechecked;
        return if !job && !progressed && (state.once || seen.stopping || !state.claiming) {
            PassStep::Break
        } else {
            PassStep::Sleep { idle: !job }
        };
    }
    if !seen.ticked {
        return PassStep::Tick { unsettled_only: false };
    }
    PassStep::Sleep { idle: false }
}

/// The loop ends by itself only with no slot left, no job in progress and no
/// plan review that just readied tasks, and only where it is to end then.
pub proof fn the_loop_ends_at_rest(state: LoopState, seen: PassSeen, r: PassStep)
    requires
        passes(state, seen, r),
        r is Break,
    ensures
        state.slots == 0,
        !job_runs(state, seen),
        seen.planned == Some(false),
        state.once || drains(state, seen),
{
}

/// While a pass drains, no slot is filled, nothing is observed or updated, and
/// no plan review starts.
pub proof fn a_draining_pass_starts_nothing(state: LoopState, seen: PassSeen, r: PassStep)
    requires
        passes(state, seen, r),
        drains(state, seen),
    ensures
        r !is FillSlots,
        r !is StartObserver,
        r !is AutoUpdate,
        !(r matches PassStep::PlanReview { start } && start),
{
}

/// A handoff happens only while no stop was asked for, with every slot at a
/// point the next process rebuilds it from and no recheck or cleanup running.
pub proof fn a_handoff_waits_for_the_slots(state: LoopState, seen: PassSeen, r: PassStep)
    requires
        passes(state, seen, r),
        r is HandedOff,
    ensures
        !seen.stopping,
        state.rebuildable,
        !state.recheck,
        !state.cleanup,
        state.handoff == Some(r->binary),
{
}

/// How the loop ended.
pub open spec fn loop_end(
    provisioning_error: Option<Seq<char>>,
    finished: int,
    stopped: bool,
) -> Result<Seq<char>, Seq<char>> {
    match provisioning_error {
        Some(message) => Err(
            message + "; claiming stopped and "@ + text::decimal(finished as nat)
                + " active run(s) were drained; inspect doctor before recovery"@,
        ),
        None => Ok(
            if stopped {
                "stopped"@
            } else {
                "finished"@
            },
        ),
    }
}

/// The outcome of a loop that broke off, or its provisioning failure.
pub fn end_of_loop(
    provisioning_error: &Option<String>,
    finished: usize,
    stopped: bool,
) -> (r: Result<&'static str, String>)
    ensures
        match r {
            Ok(outcome) => loop_end(
                text::opt_view(*provisioning_error),
                finished as int,
                stopped,
            ) == Ok::<Seq<char>, Seq<char>>(outcome@),
            Err(error) => loop_end(
                text::opt_view(*provisioning_error),
                finished as int,
                stopped,
            ) == Err::<Seq<char>, Seq<char>>(error@),
        },
{
    if let Some(message) = provisioning_error {
        let count = text::number(finished as u64);
        return Err(
            message.clone().concat("; claiming stopped and ").concat(count.as_str()).concat(
                " active run(s) were drained; inspect doctor before recovery",
            ),
        );
    }
    Ok(
        if stopped {
            "stopped"
        } else {
            "finished"
        },
    )
}

/// What has been done and observed after the loop.
#[derive(Default)]
pub struct EndSeen {
    /// The loop ended with an error.
    pub failed: bool,
    /// The loop ended for a handoff.
    pub handed_off: bool,
    pub cleanup_ended: bool,
    pub cleanup_finished: bool,
    pub heartbeat_ok: bool,
    pub stop_recorded: bool,
    pub deregistered: bool,
}

/// What the end of the process does next.
pub enum EndStep {
    EndCleanup,
    FinishCleanup,
    RecordStopped { payload: Json },
    Deregister,
    Ended,
}

/// What the end of the process comes to.
pub open spec fn ends(token: Seq<char>, version: Seq<char>, seen: EndSeen, r: EndStep) -> bool {
    if seen.failed && !seen.cleanup_ended {
        r is EndCleanup
    } else if seen.failed && !seen.cleanup_finished {
        r is FinishCleanup
    } else if !seen.handed_off && seen.heartbeat_ok && !seen.stop_recorded {
        r matches EndStep::RecordStopped { payload } && payload@ == json::Value::Object(
            json::none().push(("supervisor"@, json::Value::Text(token))).push(
                ("dagq_version"@, json::Value::Text(version)),
            ).push(
                (
                    "outcome"@,
                    json::Value::Text(
                        if seen.failed {
                            "failed"@
                        } else {
                            "stopped"@
                        },
                    ),
                ),
            ),
        )
    } else if !seen.handed_off && seen.heartbeat_ok && !seen.deregistered {
        r is Deregister
    } else {
        r is Ended
    }
}

/// After the loop: a cleanup job ends after its current worktree where the loop
/// failed, and the registration goes, with the mark of the stop. Only a failed
/// heartbeat keeps the registration, and a handoff, which leaves it to the
/// next process.
pub fn run_loop(token: &str, version: &str, seen: &EndSeen) -> (r: EndStep)
    ensures
        ends(token@, version@, *seen, r),
{
    if seen.failed && !seen.cleanup_ended {
        return EndStep::EndCleanup;
    }
    if seen.failed && !seen.cleanup_finished {
        return EndStep::FinishCleanup;
    }
    if !seen.handed_off && seen.heartbeat_ok {
        if !seen.stop_recorded {
            let outcome = if seen.failed {
                "failed"
            } else {
                "stopped"
            };
            let payload = Fields::new().text("supervisor", token).text(
                "dagq_version",
                version,
            ).text("outcome", outcome).done();
            return EndStep::RecordStopped { payload };
        }
        if !seen.deregistered {
            return EndStep::Deregister;
        }
    }
    EndStep::Ended
}

/// The parts of filling the slots, in their order.
#[derive(Debug, Clone, Copy, PartialEq, Eq, Default, Structural)]
pub enum Fill {
    #[default]
    Nothing,
    Adopt,
    RecoverDead,
    LandingAnswers,
    TriageAnswers,
    ResumeParked,
    Triage,
    Sweep,
    Hold,
}

impl Fill {
    /// Its place in the order.
    pub open spec fn rank(self) -> int {
        match self {
            Fill::Nothing => 0,
            Fill::Adopt => 1,
            Fill::RecoverDead => 2,
            Fill::LandingAnswers => 3,
            Fill::TriageAnswers => 4,
            Fill::ResumeParked => 5,
            Fill::Triage => 6,
            Fill::Sweep => 7,
            Fill::Hold => 8,
        }
    }

    fn place(self) -> (r: u8)
        ensures
            r == self.rank(),
    {
        match self {
            Fill::Nothing => 0,
            Fill::Adopt => 1,
            Fill::RecoverDead => 2,
            Fill::LandingAnswers => 3,
            Fill::TriageAnswers => 4,
            Fill::ResumeParked => 5,
            Fill::Triage => 6,
            Fill::Sweep => 7,
            Fill::Hold => 8,
        }
    }
}

/// What has been done and observed of filling the slots.
#[derive(Default)]
pub struct FillSeen {
    /// The last part that was done.
    pub done: Fill,
    /// Whether new claims are held, once that was judged.
    pub held: bool,
    /// Of the claim in progress: whether something can be claimed, the main it
    /// starts from, whether the host's versions are known, the run that was
    /// claimed (or none), what provisioning it gave, and the run as it is then.
    pub claimable: Option<bool>,
    pub main: Option<String>,
    pub host_read: bool,
    pub claimed: Option<Option<TaskRun>>,
    pub provisioned: Option<Result<(), String>>,
    pub reread: Option<TaskRun>,
    pub abandoned: bool,
}

/// What filling the slots does next.
pub enum FillStep {
    Part(Fill),
    /// Which candidates can be claimed, in their order.
    Candidates,
    MainHead,
    ReadHost,
    Claim { main: String },
    /// The claim counts, and its work interval starts: provision the run.
    Provision { run: TaskRun },
    ReadRun { id: String },
    /// The run takes a slot; the next claim follows.
    Take { run: TaskRun },
    /// Give the run up with the message, and claim nothing more.
    StopClaiming { id: String, message: String, fallback: ReasonCode },
    /// Every slot that can be is filled.
    Filled,
}

/// What the claims come to.
pub open spec fn claims(used: int, parallel: int, seen: FillSeen, r: FillStep) -> bool {
    if seen.claimed is None && used >= parallel {
        r is Filled
    } else if seen.claimable is None {
        r is Candidates
    } else if !seen.claimable->0 {
        r is Filled
    } else if seen.main is None {
        r is MainHead
    } else if !seen.host_read {
        r is ReadHost
    } else if seen.claimed is None {
        r == (FillStep::Claim { main: seen.main->0 })
    } else if seen.claimed->0 is None {
        r is Filled
    } else {
        let run = seen.claimed->0->0;
        match seen.provisioned {
            None => r == (FillStep::Provision { run }),
            Some(Ok(_)) => match seen.reread {
                None => r == (FillStep::ReadRun { id: run.id }),
                Some(run) => r == (FillStep::Take { run }),
            },
            Some(Err(error)) => if !seen.abandoned {
                r matches FillStep::StopClaiming { id, message, fallback } && id == run.id
                    && message@ == "run "@ + run.id@ + " provisioning failed: "@ + error@
                    && fallback == Failing::Abandon.code()
            } else {
                r is Filled
            },
        }
    }
}

/// What filling the slots comes to.
pub open spec fn fills(
    used: int,
    parallel: int,
    run_env_missing: bool,
    seen: FillSeen,
    r: FillStep,
) -> bool {
    let done = seen.done.rank();
    let room = used < parallel;
    if done < Fill::Adopt.rank() {
        r == FillStep::Part(Fill::Adopt)
    } else if done < Fill::RecoverDead.rank() {
        r == FillStep::Part(Fill::RecoverDead)
    } else if done < Fill::LandingAnswers.rank() && room {
        r == FillStep::Part(Fill::LandingAnswers)
    } else if done < Fill::TriageAnswers.rank() {
        r == FillStep::Part(Fill::TriageAnswers)
    } else if done < Fill::ResumeParked.rank() && room {
        r == FillStep::Part(Fill::ResumeParked)
    } else if done < Fill::Triage.rank() && room {
        r == FillStep::Part(Fill::Triage)
    } else if done < Fill::Sweep.rank() {
        r == FillStep::Part(Fill::Sweep)
    } else if run_env_missing {
        r is Filled
    } else if done < Fill::Hold.rank() {
        r == FillStep::Part(Fill::Hold)
    } else if seen.held {
        r is Filled
    } else {
        claims(used, parallel, seen, r)
    }
}

/// Claim and provision candidates until every slot is taken or nothing is
/// claimable; main is read again for each, so that a task released by a
/// landing starts from the main that holds its predecessor. A provisioning
/// failure stops claiming, so that an unavailable backend does not burn
/// through every candidate.
fn claim(used: usize, parallel: usize, seen: &FillSeen) -> (r: FillStep)
    ensures
        claims(used as int, parallel as int, *seen, r),
{
    if seen.claimed.is_none() && used >= parallel {
        return FillStep::Filled;
    }
    match seen.claimable {
        None => return FillStep::Candidates,
        Some(any) => if !any {
            return FillStep::Filled;
        },
    }
    let main = match &seen.main {
        None => return FillStep::MainHead,
        Some(main) => main,
    };
    if !seen.host_read {
        return FillStep::ReadHost;
    }
    let run = match &seen.claimed {
        None => return FillStep::Claim { main: main.clone() },
        Some(None) => return FillStep::Filled,
        Some(Some(run)) => run,
    };
    match &seen.provisioned {
        None => FillStep::Provision { run: run.copy() },
        Some(Ok(_)) => match &seen.reread {
            None => FillStep::ReadRun { id: run.id.clone() },
            Some(run) => FillStep::Take { run: run.copy() },
        },
        Some(Err(error)) => if !seen.abandoned {
            let message = "run ".to_owned().concat(run.id.as_str()).concat(
                " provisioning failed: ",
            ).concat(error.as_str());
            FillStep::StopClaiming {
                id: run.id.clone(),
                message,
                fallback: Failing::Abandon.fallback(),
            }
        } else {
            FillStep::Filled
        },
    }
}

/// Fill the slots: adopt the runs other supervisors left behind, then take up
/// what was answered, parked and failed while there is room, sweep what ended
/// runs left, and claim. `used` is how many slots are in use now.
pub fn fill_slots(
    used: usize,
    parallel: usize,
    run_env_missing: bool,
    seen: &FillSeen,
) -> (r: FillStep)
    ensures
        fills(used as int, parallel as int, run_env_missing, *seen, r),
{
    let done: u8 = seen.done.place();
    let room = used < parallel;
    if done < Fill::Adopt.place() {
        return FillStep::Part(Fill::Adopt);
    }
    if done < Fill::RecoverDead.place() {
        return FillStep::Part(Fill::RecoverDead);
    }
    if done < Fill::LandingAnswers.place() && room {
        return FillStep::Part(Fill::LandingAnswers);
    }
    if done < Fill::TriageAnswers.place() {
        return FillStep::Part(Fill::TriageAnswers);
    }
    if done < Fill::ResumeParked.place() && room {
        return FillStep::Part(Fill::ResumeParked);
    }
    if done < Fill::Triage.place() && room {
        return FillStep::Part(Fill::Triage);
    }
    if done < Fill::Sweep.place() {
        return FillStep::Part(Fill::Sweep);
    }
    if run_env_missing {
        return FillStep::Filled;
    }
    if done < Fill::Hold.place() {
        return FillStep::Part(Fill::Hold);
    }
    if seen.held {
        return FillStep::Filled;
    }
    claim(used, parallel, seen)
}

/// A task is claimed only where a slot is free, no program is missing and no
/// hold is in place, after everything that comes before claims was done.
pub proof fn claims_come_last(
    used: int,
    parallel: int,
    run_env_missing: bool,
    seen: FillSeen,
    r: FillStep,
)
    requires
        fills(used, parallel, run_env_missing, seen, r),
        r is Claim,
    ensures
        used < parallel,
        !run_env_missing,
        seen.done == Fill::Hold,
        !seen.held,
        seen.claimable == Some(true),
{
}

/// What has been observed of what holds new claims.
#[derive(Debug, Clone, Copy, PartialEq, Eq, Default, Structural)]
pub struct ClaimsSeen {
    /// What a claim needs, where it is known.
    pub needed: Option<Option<u64>>,
    /// The load and the disk space hold them.
    pub judged: Option<bool>,
    /// The hold was recorded where it changed; whether it holds.
    pub recorded: Option<bool>,
}

/// What judging the hold of new claims does next, or whether they are held.
#[derive(Debug, Clone, Copy, PartialEq, Eq, Structural)]
pub enum HoldStep {
    ReadNeeds,
    /// Judge the hold by the load and by these bytes.
    Judge { free: Option<u64>, needed: Option<u64> },
    /// Record whether they are held.
    Record { held: bool },
    Held(bool),
}

/// Whether there is less than what is needed, as far as both are known.
pub open spec fn is_short(free: Option<u64>, need: Option<u64>) -> bool {
    free is Some && need is Some && free->0 < need->0
}

/// Whether there is less than what is needed, as far as both are known.
pub fn short(free: Option<u64>, need: Option<u64>) -> (r: bool)
    ensures
        r == is_short(free, need),
{
    match (free, need) {
        (Some(free), Some(need)) => free < need,
        _ => false,
    }
}

/// Judge whether new claims are held, by the free disk space and by the load,
/// and record a change of the hold. Short of disk space while a cleanup for room
/// runs, claims wait for it without a hold.
pub fn hold_claims(cleaning: bool, free: Option<u64>, seen: ClaimsSeen) -> (r: HoldStep)
    ensures
        r == (match seen.needed {
            None => HoldStep::ReadNeeds,
            Some(needed) => if cleaning && is_short(free, needed) {
                HoldStep::Held(true)
            } else if seen.judged is None {
                HoldStep::Judge { free, needed }
            } else if seen.recorded is None {
                HoldStep::Record { held: seen.judged->0 }
            } else {
                HoldStep::Held(seen.recorded->0)
            },
        }),
{
    let needed = match seen.needed {
        None => return HoldStep::ReadNeeds,
        Some(needed) => needed,
    };
    if cleaning && short(free, needed) {
        return HoldStep::Held(true);
    }
    match (seen.judged, seen.recorded) {
        (None, _) => HoldStep::Judge { free, needed },
        (Some(held), None) => HoldStep::Record { held },
        (Some(_), Some(held)) => HoldStep::Held(held),
    }
}

/// What has been observed of the programs that the runs need.
#[derive(Default)]
pub struct ProgramsSeen {
    /// The programs that are missing; none where that could not be looked at.
    pub missing: Option<Option<Vec<String>>>,
    /// How that differs from the latest answer on the queue, if it does.
    pub change: Option<Option<HoldChange>>,
    pub recorded: bool,
}

/// What checking the programs that the runs need does next.
pub enum ProgramsStep {
    Look,
    /// Hold what was found against the latest answer on the queue.
    Transition,
    Record { kind: String, payload: Json },
    /// Whether a program is missing.
    Done { missing: bool },
}

/// What checking the programs that the runs need comes to. `last` is the answer
/// so far.
pub open spec fn checks_programs(
    last: bool,
    supervisor: Seq<char>,
    seen: ProgramsSeen,
    r: ProgramsStep,
) -> bool {
    match seen.missing {
        None => r is Look,
        Some(None) => r == (ProgramsStep::Done { missing: last }),
        Some(Some(missing)) => match seen.change {
            None => r is Transition,
            Some(Some(change)) if !seen.recorded => r matches ProgramsStep::Record { kind, payload }
                && kind@ == change.kind@ && payload@ == json::put(
                change.payload@,
                "supervisor"@,
                json::Value::Text(supervisor),
            ),
            Some(_) => r == (ProgramsStep::Done { missing: missing@.len() > 0 }),
        },
    }
}

/// Check the programs that the runs need, and record an answer that differs from
/// the latest one on the queue, so that a restarted supervisor does not repeat
/// it. A look that failed leaves the last answer.
pub fn check_run_env_programs(last: bool, supervisor: &str, seen: &ProgramsSeen) -> (r:
    ProgramsStep)
    ensures
        checks_programs(last, supervisor@, *seen, r),
{
    let missing = match &seen.missing {
        None => return ProgramsStep::Look,
        Some(None) => return ProgramsStep::Done { missing: last },
        Some(Some(missing)) => missing.len() > 0,
    };
    match &seen.change {
        None => ProgramsStep::Transition,
        Some(None) => ProgramsStep::Done { missing },
        Some(Some(change)) => if seen.recorded {
            ProgramsStep::Done { missing }
        } else {
            ProgramsStep::Record {
                kind: change.kind.clone(),
                payload: marked(change.payload.copy(), supervisor),
            }
        },
    }
}

/// A mark of a change as the supervisor records it.
pub fn marked(payload: Json, supervisor: &str) -> (r: Json)
    ensures
        r@ == json::put(payload@, "supervisor"@, json::Value::Text(supervisor@)),
{
    payload.with("supervisor", Json::Text(supervisor.to_owned()))
}

/// What has been observed of the environment that the runs get.
#[derive(Default)]
pub struct RunEnvSeen {
    /// The table could be read and is there; the salt of its hashes could be
    /// read.
    pub table: Option<bool>,
    pub salt: Option<bool>,
    /// What changed since the latest mark, if anything.
    pub change: Option<Option<Json>>,
    pub recorded: bool,
}

/// What marking a change of the environment does next.
pub enum RunEnvStep {
    ReadTable,
    ReadSalt,
    /// Hold its hashes against the latest mark.
    Hold,
    Record { payload: Json },
    Done,
}

/// Mark a change of the environment that the runs get, once: where its hashes
/// differ from the latest mark. One that cannot be read marks nothing.
pub fn mark_run_env_change(supervisor: &str, seen: &RunEnvSeen) -> (r: RunEnvStep)
    ensures
        match (seen.table, seen.salt, seen.change) {
            (None, _, _) => r is ReadTable,
            (Some(false), _, _) => r is Done,
            (Some(true), None, _) => r is ReadSalt,
            (Some(true), Some(false), _) => r is Done,
            (Some(true), Some(true), None) => r is Hold,
            (Some(true), Some(true), Some(None)) => r is Done,
            (Some(true), Some(true), Some(Some(change))) => if seen.recorded {
                r is Done
            } else {
                r matches RunEnvStep::Record { payload } && payload@ == json::put(
                    change@,
                    "supervisor"@,
                    json::Value::Text(supervisor@),
                )
            },
        },
{
    match seen.table {
        None => return RunEnvStep::ReadTable,
        Some(read) => if !read {
            return RunEnvStep::Done;
        },
    }
    match seen.salt {
        None => return RunEnvStep::ReadSalt,
        Some(read) => if !read {
            return RunEnvStep::Done;
        },
    }
    match &seen.change {
        None => RunEnvStep::Hold,
        Some(None) => RunEnvStep::Done,
        Some(Some(change)) => if seen.recorded {
            RunEnvStep::Done
        } else {
            RunEnvStep::Record { payload: marked(change.copy(), supervisor) }
        },
    }
}

/// A supervisor starts only with a slot to run and a queue that is outside the
/// worktree or under its Git directory; it checks its programs, binds and
/// registers before it records that it started, and runs last, under the token
/// it was handed or the new one.
pub proof fn a_start_registers_before_it_runs(
    layout: Layout,
    settings: StartSettings,
    seen: StartSeen,
    r: StartStep,
)
    requires
        starts(layout, settings, seen, r),
    ensures
        settings.parallel == 0 ==> r is Refused,
        settings.max_waiting > u32::MAX ==> r !is Run,
        path::is_within(layout.db@, layout.repo_root@) && !path::is_within(
            layout.db@,
            layout.common_dir@,
        ) ==> r is Refused,
        r matches StartStep::Run { token, rebuild } ==> {
            &&& seen.cmux_checked && seen.agent_checked && seen.bound
            &&& settings.handoff_token matches Some(handed) ==> token@ == handed@ && seen.registered
                && rebuild
            &&& settings.handoff_token is None ==> seen.token == Some(token) && seen.registered
                && seen.accepts_handoff && !rebuild
            &&& settings.handoff_token is None && settings.register_update ==> seen.update_set
            &&& seen.max_waiting_set && seen.config_recorded && seen.start_recorded
        },
        settings.parallel > 0 && settings.parallel <= u32::MAX && settings.max_waiting <= u32::MAX
            && (path::is_within(layout.db@, layout.repo_root@) ==> path::is_within(
            layout.db@,
            layout.common_dir@,
        )) ==> r !is Refused,
        r matches StartStep::Register { token, pid, parallel, version } ==> {
            &&& settings.handoff_token is None
            &&& seen.token == Some(token)
            &&& pid == layout.pid
            &&& parallel == settings.parallel
            &&& version@ == layout.version@
        },
        r matches StartStep::ResumeRegistration { token, pid, version } ==> {
            &&& settings.handoff_token == Some(token)
            &&& pid == layout.pid
            &&& version@ == layout.version@
        },
        r matches StartStep::SetMaxWaiting { token, max } ==> max == settings.max_waiting && (
        settings.handoff_token matches Some(handed) ==> token@ == handed@),
        r matches StartStep::Bind { common_dir } ==> common_dir@ == layout.common_dir@,
        r is SetAutoUpdate ==> settings.handoff_token is None && settings.register_update,
{
}

/// A pass of the loop looks after its heartbeat, the cleanup, the environment
/// and the disk before it takes anything, in that order; runs are taken only
/// while claiming and neither stopping nor handing over, and the slots are
/// ticked once in a pass.
pub proof fn a_pass_keeps_its_order(state: LoopState, seen: PassSeen, r: PassStep)
    requires
        passes(state, seen, r),
    ensures
        r is CheckHeartbeat <==> seen.heartbeat is None,
        seen.heartbeat matches Some(Some(lost)) ==> (match r {
            PassStep::NoteLost { slot, error } => slot == seen.noted && slot < state.slots && error@
                == lost@,
            PassStep::Failed(error) => seen.noted >= state.slots && error@ == lost@,
            _ => false,
        }),
        r is Failed || r is NoteLost ==> (seen.heartbeat matches Some(Some(_))),
        seen.heartbeat matches Some(None) ==> {
            &&& r is PollCleanup <==> !seen.cleanup_polled
            &&& r is CheckRunEnv <==> seen.cleanup_polled && !seen.env_checked
            &&& r is MarkRunEnv <==> seen.cleanup_polled && seen.env_checked && !seen.env_marked
            &&& r is CheckDisk <==> seen.cleanup_polled && seen.env_checked && seen.env_marked
                && !seen.disk_checked
            &&& r is ReturnWaiting <==> seen.cleanup_polled && seen.env_checked && seen.env_marked
                && seen.disk_checked && !seen.waiting_returned
        },
        r matches PassStep::PollCleanup { end } ==> (end <==> seen.stopping || state.handoff
            is Some),
        (seen.heartbeat matches Some(None)) && seen.cleanup_polled && seen.env_checked
            && seen.env_marked && seen.disk_checked && seen.waiting_returned ==> {
            &&& r is AskHandoff <==> !seen.stopping && state.handoff is None && !seen.handoff_asked
            &&& r is FillSlots <==> !seen.stopping && state.claiming && state.handoff is None
                && seen.handoff_asked && !seen.filled
            &&& r is StartObserver ==> !seen.stopping && state.claiming && state.handoff is None
                && seen.filled && !seen.observer_started
            &&& r is AutoUpdate ==> !seen.stopping && state.claiming && state.handoff is None
                && seen.filled && seen.observer_started && !seen.updated
            &&& r matches PassStep::PlanReview { start } ==> seen.planned is None && (start
                <==> !seen.stopping && state.claiming)
            &&& r is HandedOff <==> !seen.stopping && state.handoff is Some && seen.rechecked
                is Some && !state.recheck && !state.cleanup && state.rebuildable && !seen.ticked
                && seen.prepared is Some
            &&& r matches PassStep::HandedOff { binary, runs } ==> state.handoff == Some(binary)
                && seen.prepared == Some(runs)
            &&& r is Break <==> (seen.stopping || state.handoff is None && seen.handoff_asked) && (
            state.claiming && !seen.stopping ==> seen.filled && seen.observer_started
                && seen.updated) && seen.observer_polled && seen.turns_recorded && seen.rechecked
                is Some && seen.planned is Some && state.slots == 0 && !seen.ticked
                && !seen.planned->0 && !state.observer && !state.plan_review && !state.recheck
                && !state.cleanup_for_disk && !state.cleanup_deferred && !seen.rechecked->0 && (
            state.once || seen.stopping || !state.claiming)
        },
        r matches PassStep::Tick { unsettled_only } ==> !seen.ticked && (unsettled_only <==> (
        state.handoff is Some && !seen.stopping)) && (!unsettled_only ==> state.slots > 0),
        r matches PassStep::Sleep { idle } ==> (idle ==> state.slots == 0 && !state.observer
            && !state.plan_review && !state.recheck && !state.cleanup_for_disk
            && !state.cleanup_deferred),
{
}

/// The loop ends with an error exactly where a run could not be provisioned;
/// without one it says whether it was stopped or finished.
pub proof fn a_provisioning_error_ends_in_one(
    provisioning_error: &Option<String>,
    finished: usize,
    stopped: bool,
    r: Result<&'static str, String>,
)
    requires
        call_ensures(end_of_loop, (provisioning_error, finished, stopped), r),
    ensures
        r is Err <==> provisioning_error is Some,
        r matches Ok(outcome) ==> (stopped ==> outcome@ == "stopped"@) && (!stopped ==> outcome@
            == "finished"@),
        r matches Err(error) ==> error@.len() >= provisioning_error->0@.len() && error@.take(
            provisioning_error->0@.len() as int,
        ) == provisioning_error->0@,
{
    if let Err(error) = r {
        let message = provisioning_error->0@;
        assert(error@.take(message.len() as int) =~= message);
    }
}

/// A supervisor that hands over, or whose registration is lost, leaves the
/// registration alone; any other records how it stopped before it goes.
pub proof fn an_end_is_recorded_before_it_deregisters(
    token: Seq<char>,
    version: Seq<char>,
    seen: EndSeen,
    r: EndStep,
)
    requires
        ends(token, version, seen, r),
    ensures
        r is EndCleanup <==> seen.failed && !seen.cleanup_ended,
        r is FinishCleanup <==> seen.failed && seen.cleanup_ended && !seen.cleanup_finished,
        r is RecordStopped || r is Deregister ==> !seen.handed_off && seen.heartbeat_ok && (
        seen.failed ==> seen.cleanup_ended && seen.cleanup_finished),
        r is Deregister ==> seen.stop_recorded,
        r is Ended ==> seen.handed_off || !seen.heartbeat_ok || (seen.stop_recorded
            && seen.deregistered),
        r matches EndStep::RecordStopped { payload } ==> payload@ is Object
            && payload@->Object_0.len() == 3 && payload@->Object_0[2] == (
            "outcome"@,
            json::Value::Text(
                if seen.failed {
                    "failed"@
                } else {
                    "stopped"@
                },
            ),
        ),
{
}

/// The slots are filled in order: what is under way is taken up again, then
/// what was answered, parked or ended, then new tasks; what needs a slot is
/// passed over where none is free.
pub proof fn slots_are_filled_in_order(
    used: int,
    parallel: int,
    run_env_missing: bool,
    seen: FillSeen,
    r: FillStep,
)
    requires
        fills(used, parallel, run_env_missing, seen, r),
    ensures
        r == FillStep::Part(Fill::Adopt) <==> seen.done == Fill::Nothing,
        r == FillStep::Part(Fill::RecoverDead) <==> seen.done == Fill::Adopt,
        r == FillStep::Part(Fill::LandingAnswers) <==> seen.done == Fill::RecoverDead && used
            < parallel,
        r == FillStep::Part(Fill::TriageAnswers) <==> seen.done == Fill::LandingAnswers || (
        seen.done == Fill::RecoverDead && used >= parallel),
        r == FillStep::Part(Fill::ResumeParked) <==> seen.done == Fill::TriageAnswers && used
            < parallel,
        r == FillStep::Part(Fill::Triage) <==> seen.done == Fill::ResumeParked && used < parallel,
        r == FillStep::Part(Fill::Sweep) <==> seen.done == Fill::Triage || (used >= parallel && (
        seen.done == Fill::TriageAnswers || seen.done == Fill::ResumeParked)),
        r == FillStep::Part(Fill::Hold) <==> seen.done == Fill::Sweep && !run_env_missing,
        r is Part || r is Filled || (seen.done == Fill::Hold && !run_env_missing && !seen.held),
        r != FillStep::Part(Fill::Nothing),
{
}

/// A claimed run is provisioned, read again and taken into a slot; the round
/// ends after a claim that gave a run only once that run could not be
/// provisioned and was given up.
pub proof fn a_claimed_run_is_taken(
    used: int,
    parallel: int,
    run_env_missing: bool,
    seen: FillSeen,
    r: FillStep,
)
    requires
        fills(used, parallel, run_env_missing, seen, r),
    ensures
        r is Take <==> seen.done == Fill::Hold && !run_env_missing && !seen.held && seen.claimable
            is Some && seen.claimable->0 && seen.main is Some && seen.host_read && (
        seen.claimed matches Some(Some(_))) && (seen.provisioned matches Some(Ok(_)))
            && seen.reread is Some,
        r matches FillStep::Take { run } ==> seen.reread == Some(run),
        r is Claim <==> seen.done == Fill::Hold && !run_env_missing && !seen.held && used < parallel
            && seen.claimable is Some && seen.claimable->0 && seen.main is Some && seen.host_read
            && seen.claimed is None,
        r matches FillStep::Claim { main } ==> seen.main == Some(main),
        r is Provision <==> seen.done == Fill::Hold && !run_env_missing && !seen.held
            && seen.claimable is Some && seen.claimable->0 && seen.main is Some && seen.host_read
            && (seen.claimed matches Some(Some(_))) && seen.provisioned is None,
        r matches FillStep::Provision { run } ==> seen.claimed == Some(Some(run)),
        r matches FillStep::ReadRun { id } ==> (seen.claimed matches Some(Some(run)) && run.id@
            == id@) && (seen.provisioned matches Some(Ok(_))) && seen.reread is None,
        r is StopClaiming <==> seen.done == Fill::Hold && !run_env_missing && !seen.held
            && seen.claimable is Some && seen.claimable->0 && seen.main is Some && seen.host_read
            && (seen.claimed matches Some(Some(_))) && (seen.provisioned matches Some(Err(_)))
            && !seen.abandoned,
        r matches FillStep::StopClaiming { id, .. } ==> (seen.claimed matches Some(Some(run))
            && run.id@ == id@),
        r is Filled ==> {
            ||| run_env_missing
            ||| seen.held
            ||| seen.claimed is None && used >= parallel
            ||| seen.claimable is Some && !seen.claimable->0
            ||| (seen.claimed matches Some(None))
            ||| (seen.provisioned matches Some(Err(_))) && seen.abandoned
        },
{
}

/// Tasks are held while the disk is being cleaned for want of room, and after
/// that as was judged and recorded of the room there is and the room needed.
pub proof fn claims_are_held_as_judged(
    cleaning: bool,
    free: Option<u64>,
    seen: ClaimsSeen,
    r: HoldStep,
)
    requires
        call_ensures(hold_claims, (cleaning, free, seen), r),
    ensures
        r is ReadNeeds <==> seen.needed is None,
        seen.needed matches Some(Some(needed)) && cleaning && free is Some && free->0 < needed ==> r
            == HoldStep::Held(true),
        seen.needed is Some && (!cleaning || free is None || seen.needed->0 is None || free->0
            >= seen.needed->0->0) ==> (match (seen.judged, seen.recorded) {
            (None, _) => r == (HoldStep::Judge { free, needed: seen.needed->0 }),
            (Some(judged), None) => r == (HoldStep::Record { held: judged }),
            (Some(_), Some(recorded)) => r == HoldStep::Held(recorded),
        }),
{
}

/// Programs are missing exactly where the look named one; a look that failed
/// changes nothing, and a change is recorded before anything else.
pub proof fn missing_programs_are_those_looked_at(
    last: bool,
    supervisor: Seq<char>,
    seen: ProgramsSeen,
    r: ProgramsStep,
)
    requires
        checks_programs(last, supervisor, seen, r),
    ensures
        r is Look <==> seen.missing is None,
        seen.missing matches Some(None) ==> r == (ProgramsStep::Done { missing: last }),
        seen.missing matches Some(Some(missing)) ==> {
            &&& r is Transition <==> seen.change is None
            &&& r is Record <==> (seen.change matches Some(Some(_))) && !seen.recorded
            &&& r matches ProgramsStep::Done { missing: is_missing } ==> (is_missing
                <==> missing@.len() > 0)
        },
        r matches ProgramsStep::Record { kind, .. } ==> (seen.change matches Some(Some(change))
            && kind@ == change.kind@),
{
}

/// A change of the runs' environment is recorded once, and only where there is
/// a table to hold it in and a salt to compare it by.
pub proof fn an_environment_change_is_recorded_once(
    supervisor: &str,
    seen: &RunEnvSeen,
    r: RunEnvStep,
)
    requires
        call_ensures(mark_run_env_change, (supervisor, seen), r),
    ensures
        r is ReadTable <==> seen.table is None,
        r is ReadSalt <==> seen.table is Some && seen.table->0 && seen.salt is None,
        r is Hold <==> seen.table is Some && seen.table->0 && seen.salt is Some && seen.salt->0
            && seen.change is None,
        r is Record <==> seen.table is Some && seen.table->0 && seen.salt is Some && seen.salt->0
            && (seen.change matches Some(Some(_))) && !seen.recorded,
{
}

} // verus!
