//! What the loop does with the end of a slot's step, and the small judgements
//! around it: the observer's schedule, a resume given up, whether a session
//! lives, and the record of a validation.

use crate::domain::{
    EvidenceCheck, Failing, ReasonCode, RunEvent, RunProcess, RunStatus, Task, TaskRun,
};
use crate::integrate::receipt::{same_checks, Checked};
use crate::json;
use crate::json::{Fields, Json};
use crate::supervise::clock::{secs, whole_secs};
use crate::supervise::drive::Layout;
use crate::supervise::slot::RunError;
use crate::supervise::sweep::WorkspaceCloser;
use crate::text;
use vstd::prelude::*;
use vstd::string::*;

verus! {

/// Seconds between two records of the finished transcript turns of the session
/// spans still open.
pub const SESSION_TURNS_INTERVAL: u64 = 600;

/// How far back the daily observation reads, in seconds.
pub const DAILY_WINDOW_SECS: i64 = 86400;

/// The two observations: the hourly one reads what finished since the last
/// one, the daily one the last 24 hours for trends.
#[derive(Debug, Clone, Copy, PartialEq, Eq, Structural)]
pub enum ObserveMode {
    Hourly,
    Daily,
}

impl ObserveMode {
    /// Its name on the queue.
    pub open spec fn name(self) -> Seq<char> {
        match self {
            ObserveMode::Hourly => "hourly"@,
            ObserveMode::Daily => "daily"@,
        }
    }

    /// Its name on the queue.
    pub fn as_str(self) -> (r: &'static str)
        ensures
            r@ == self.name(),
    {
        match self {
            ObserveMode::Hourly => "hourly",
            ObserveMode::Daily => "daily",
        }
    }
}

/// The phase a slot is in, as far as giving it up depends on it.
#[derive(Debug, Clone, Copy, PartialEq, Eq, Structural)]
pub enum PhaseKind {
    Session,
    /// Whether the validation's thread still runs.
    Validating { running: bool },
    Review,
    Revise,
    Exiting,
    Resume,
    AwaitingSlot,
    Landing,
    Recovery,
}

/// The headless jobs of a slot that are stopped: its own (a review or the
/// recovery of an ended run), the recovery job of its watch, and that of its
/// live session.
#[derive(Debug, Clone, Copy, PartialEq, Eq, Structural)]
pub struct Jobs {
    pub own: bool,
    pub watch: bool,
    pub live: bool,
}

/// The recovery jobs of a live session's alert that a phase runs.
pub open spec fn recovery_jobs(kind: PhaseKind) -> Jobs {
    Jobs {
        own: false,
        watch: kind is Session || kind is Exiting || kind is Resume,
        live: kind is Resume || kind is Revise,
    }
}

/// Every job a phase runs.
pub open spec fn all_jobs(kind: PhaseKind) -> Jobs {
    if kind is Review || kind is Recovery {
        Jobs { own: true, watch: false, live: false }
    } else {
        recovery_jobs(kind)
    }
}

/// The recovery jobs of a live session's alert that a phase runs.
pub fn stop_recovery(kind: PhaseKind) -> (r: Jobs)
    ensures
        r == recovery_jobs(kind),
{
    match kind {
        PhaseKind::Session | PhaseKind::Exiting => Jobs { own: false, watch: true, live: false },
        PhaseKind::Resume => Jobs { own: false, watch: true, live: true },
        PhaseKind::Revise => Jobs { own: false, watch: false, live: true },
        _ => Jobs { own: false, watch: false, live: false },
    }
}

/// The jobs to stop of a slot that is not watched any more.
pub fn stop_job(kind: PhaseKind) -> (r: Jobs)
    ensures
        r == all_jobs(kind),
{
    match kind {
        PhaseKind::Review | PhaseKind::Recovery => Jobs { own: true, watch: false, live: false },
        _ => stop_recovery(kind),
    }
}

/// How the step of a slot ended.
pub enum Stepped {
    Continue,
    Done(TaskRun),
    Triaged(TaskRun),
    Disowned,
    Failed(String),
}

/// What the loop does with a slot after its step.
pub enum Settled {
    /// Look whether this process holds the run's lease.
    HoldsLease,
    Keep,
    /// The run rests: check the runs that wait to land against the main it
    /// moved, close its workspaces where a closer is named, and clean its
    /// task's worktrees.
    Finished { note_landed: bool, closer: Option<WorkspaceCloser> },
    Triaged,
    /// Another process holds the lease; nothing is written about the run.
    Disowned { stop: Jobs, error: RunError },
    /// Record the failed recovery; the run counts as triaged.
    RecoveryFailed { stop: Jobs, message: String },
    /// Only the lease kept for the landing goes.
    NotLanding { error: RunError },
    ResumeGivenUp { stop: Jobs, message: String },
    /// Disown the run with the error, whose reason falls back to this code;
    /// delete nothing.
    Abandoned { stop: Jobs, error: RunError, fallback: ReasonCode },
}

/// The message of a run that another process holds.
pub open spec fn disowned_message(run: Seq<char>, kind: PhaseKind) -> Seq<char> {
    let base = "lease of run "@ + run
        + " is held by another process; this supervisor stopped watching it"@;
    if kind == (PhaseKind::Validating { running: true }) {
        base + "; a validation already in progress runs to completion unrecorded"@
    } else {
        base
    }
}

/// Whether an error names the run with this message.
pub open spec fn is_error(e: RunError, run: TaskRun, message: Seq<char>) -> bool {
    e.run_id == run.id && e.task_id == run.task_id && e.message@ == message
}

/// No job.
pub open spec fn no_jobs() -> Jobs {
    Jobs { own: false, watch: false, live: false }
}

/// What the loop does with a slot after its step. `holds` is whether this
/// process holds the lease, once that was looked up: unreadable counts as held.
pub open spec fn settles(
    run: TaskRun,
    kind: PhaseKind,
    stepped: Stepped,
    holds: Option<Option<bool>>,
    r: Settled,
) -> bool {
    match stepped {
        Stepped::Continue => r is Keep,
        Stepped::Done(ended) => r == (Settled::Finished {
            note_landed: ended.status == RunStatus::Integrated,
            closer: if ended.status == RunStatus::Integrated || ended.status
                == RunStatus::Succeeded {
                Some(WorkspaceCloser::Supervisor)
            } else {
                None
            },
        }),
        Stepped::Triaged(_) => r is Triaged,
        Stepped::Disowned => r matches Settled::Disowned { stop, error } && stop == all_jobs(kind)
            && is_error(error, run, disowned_message(run.id@, kind)),
        Stepped::Failed(why) => if holds is None {
            r is HoldsLease
        } else if holds->0 == Some(false) {
            r matches Settled::Disowned { stop, error } && stop == no_jobs() && is_error(
                error,
                run,
                disowned_message(run.id@, kind),
            )
        } else if kind is Recovery {
            r == (Settled::RecoveryFailed { stop: all_jobs(kind), message: why })
        } else if kind is AwaitingSlot {
            r matches Settled::NotLanding { error } && is_error(
                error,
                run,
                "landing could not start: "@ + why@,
            )
        } else if kind is Resume {
            r == (Settled::ResumeGivenUp { stop: recovery_jobs(kind), message: why })
        } else {
            r matches Settled::Abandoned { stop, error, fallback } && stop == all_jobs(kind)
                && is_error(error, run, why@) && fallback == Failing::Abandon.code()
        },
    }
}

/// An error of a run.
fn run_error(run: &TaskRun, message: String) -> (r: RunError)
    ensures
        is_error(r, *run, message@),
{
    RunError { run_id: run.id.clone(), task_id: run.task_id, message }
}

/// Drop a slot whose lease another process holds now: its record is the
/// record.
fn disown(run: &TaskRun, kind: PhaseKind) -> (r: RunError)
    ensures
        is_error(r, *run, disowned_message(run.id@, kind)),
{
    let mut message = "lease of run ".to_owned().concat(run.id.as_str()).concat(
        " is held by another process; this supervisor stopped watching it",
    );
    if let PhaseKind::Validating { running } = kind {
        if running {
            message = message.concat(
                "; a validation already in progress runs to completion unrecorded",
            );
        }
    }
    run_error(run, message)
}

/// What the loop does with a slot after its step: a failure is the run's own
/// and isolated from the other slots; one under a lease that changed hands is
/// the other owner's run to describe.
pub fn tick(
    run: &TaskRun,
    kind: PhaseKind,
    stepped: &Stepped,
    holds: Option<Option<bool>>,
) -> (r: Settled)
    ensures
        settles(*run, kind, *stepped, holds, r),
{
    let why = match stepped {
        Stepped::Continue => return Settled::Keep,
        Stepped::Done(ended) => {
            let landed = ended.status == RunStatus::Integrated;
            return Settled::Finished {
                note_landed: landed,
                closer: if landed || ended.status == RunStatus::Succeeded {
                    Some(WorkspaceCloser::Supervisor)
                } else {
                    None
                },
            };
        },
        Stepped::Triaged(_) => return Settled::Triaged,
        Stepped::Disowned => {
            return Settled::Disowned { stop: stop_job(kind), error: disown(run, kind) };
        },
        Stepped::Failed(why) => why,
    };
    match holds {
        None => return Settled::HoldsLease,
        Some(Some(holds)) => if !holds {
            return Settled::Disowned {
                stop: Jobs { own: false, watch: false, live: false },
                error: disown(run, kind),
            };
        },
        Some(None) => {},
    }
    match kind {
        PhaseKind::Recovery => Settled::RecoveryFailed {
            stop: stop_job(kind),
            message: why.clone(),
        },
        PhaseKind::AwaitingSlot => Settled::NotLanding {
            error: run_error(
                run,
                "landing could not start: ".to_owned().concat(why.as_str()),
            ),
        },
        PhaseKind::Resume => Settled::ResumeGivenUp {
            stop: stop_recovery(kind),
            message: why.clone(),
        },
        _ => Settled::Abandoned {
            stop: stop_job(kind),
            error: run_error(run, why.clone()),
            fallback: Failing::Abandon.fallback(),
        },
    }
}

/// A slot that is not kept leaves no headless job running that belongs to it,
/// but where the lease was found lost after a failed step.
pub proof fn a_slot_given_up_stops_its_jobs(
    run: TaskRun,
    kind: PhaseKind,
    stepped: Stepped,
    holds: Option<Option<bool>>,
    r: Settled,
)
    requires
        settles(run, kind, stepped, holds, r),
        r is Abandoned || r is RecoveryFailed || r is ResumeGivenUp || (r is Disowned
            && stepped is Disowned),
    ensures
        match r {
            Settled::Abandoned { stop, .. } => stop == all_jobs(kind),
            Settled::RecoveryFailed { stop, .. } => stop == all_jobs(kind),
            Settled::ResumeGivenUp { stop, .. } => stop == all_jobs(kind),
            Settled::Disowned { stop, .. } => stop == all_jobs(kind),
            _ => false,
        },
{
}

/// A slot as a pass looks at it.
#[derive(Debug, Clone, Copy, PartialEq, Eq, Structural)]
pub struct SlotLook {
    /// Another supervisor could rebuild it: a handoff does not wait for it.
    pub rebuildable: bool,
    /// Its run waits for a person and takes no slot.
    pub waiting: bool,
}

/// What has been done in a pass over the slots.
#[derive(Debug, Clone, Copy, PartialEq, Eq, Default, Structural)]
pub struct SlotsSeen {
    pub load_sampled: bool,
    pub waits_started: bool,
    /// The first of the slots that was not looked at: the one after a slot that
    /// was kept, or the one in the place of a slot that was not.
    pub next: usize,
}

/// What a pass over the slots does next.
#[derive(Debug, Clone, Copy, PartialEq, Eq, Structural)]
pub enum SlotsStep {
    SampleLoad,
    /// Take the runs that wait for a person out of their slots.
    StartWaits,
    /// Look after a run that waits for a person.
    Watch { index: usize },
    Step { index: usize },
    Done,
}

/// The first of the slots, from `from` on, that a pass looks at.
pub open spec fn slot_from(slots: Seq<SlotLook>, unsettled_only: bool, from: int) -> Option<int>
    decreases slots.len() - from,
{
    if from < 0 || from >= slots.len() {
        None
    } else if unsettled_only && slots[from].rebuildable {
        slot_from(slots, unsettled_only, from + 1)
    } else {
        Some(from)
    }
}

/// What a pass over the slots comes to.
pub open spec fn passes_slots(
    slots: Seq<SlotLook>,
    unsettled_only: bool,
    seen: SlotsSeen,
) -> SlotsStep {
    if !seen.load_sampled {
        SlotsStep::SampleLoad
    } else if !unsettled_only && !seen.waits_started {
        SlotsStep::StartWaits
    } else {
        match slot_from(slots, unsettled_only, seen.next as int) {
            None => SlotsStep::Done,
            Some(i) => if slots[i].waiting {
                SlotsStep::Watch { index: i as usize }
            } else {
                SlotsStep::Step { index: i as usize }
            },
        }
    }
}

/// One pass over the slots; with `unsettled_only`, over the slots a handoff
/// waits for only. `slots` are those there are now.
pub fn tick_slots(slots: &Vec<SlotLook>, unsettled_only: bool, seen: SlotsSeen) -> (r: SlotsStep)
    ensures
        r == passes_slots(slots@, unsettled_only, seen),
{
    if !seen.load_sampled {
        return SlotsStep::SampleLoad;
    }
    if !unsettled_only && !seen.waits_started {
        return SlotsStep::StartWaits;
    }
    let mut i: usize = seen.next;
    while i < slots.len()
        invariant
            seen.load_sampled,
            unsettled_only || seen.waits_started,
            slot_from(slots@, unsettled_only, seen.next as int) == slot_from(
                slots@,
                unsettled_only,
                i as int,
            ),
        decreases slots@.len() - i,
    {
        if !unsettled_only || !slots[i].rebuildable {
            return if slots[i].waiting {
                SlotsStep::Watch { index: i }
            } else {
                SlotsStep::Step { index: i }
            };
        }
        i += 1;
    }
    SlotsStep::Done
}

/// While a handoff waits, no slot that it does not wait for is looked at, and
/// no wait starts; a slot is stepped only where its run takes one.
pub proof fn a_handoff_touches_only_what_it_waits_for(
    slots: Seq<SlotLook>,
    unsettled_only: bool,
    seen: SlotsSeen,
)
    requires
        slots.len() <= usize::MAX,
    ensures
        unsettled_only ==> passes_slots(slots, unsettled_only, seen) !is StartWaits,
        match passes_slots(slots, unsettled_only, seen) {
            SlotsStep::Step { index } => index < slots.len() && !slots[index as int].waiting && (
            unsettled_only ==> !slots[index as int].rebuildable),
            SlotsStep::Watch { index } => index < slots.len() && slots[index as int].waiting && (
            unsettled_only ==> !slots[index as int].rebuildable),
            _ => true,
        },
{
    slot_is_one_of_them(slots, unsettled_only, seen.next as int);
}

/// The slot that a pass looks at is one of the slots, and one that it is about.
proof fn slot_is_one_of_them(slots: Seq<SlotLook>, unsettled_only: bool, from: int)
    ensures
        slot_from(slots, unsettled_only, from) matches Some(i) ==> 0 <= i < slots.len() && (
        unsettled_only ==> !slots[i].rebuildable),
    decreases slots.len() - from,
{
    if 0 <= from < slots.len() {
        slot_is_one_of_them(slots, unsettled_only, from + 1);
    }
}

/// Whether an observation is due: it was neither recorded nor launched within
/// its interval.
pub open spec fn is_due(
    mode: ObserveMode,
    every: int,
    now: int,
    last: Option<i64>,
    launched: Seq<(ObserveMode, u64)>,
) -> bool {
    &&& !(last is Some && now - last->0 < every)
    &&& forall|i: int|
        0 <= i < launched.len() && (#[trigger] launched[i]).0 == mode ==> launched[i].1 >= every
}

/// Whether an observation is due.
fn due(
    mode: ObserveMode,
    every: i64,
    now: i64,
    last: Option<i64>,
    launched: &Vec<(ObserveMode, u64)>,
) -> (r: bool)
    requires
        every >= 0,
    ensures
        r == is_due(mode, every as int, now as int, last, launched@),
{
    if let Some(last) = last {
        if (now as i128) - (last as i128) < every as i128 {
            return false;
        }
    }
    let mut i: usize = 0;
    while i < launched.len()
        invariant
            i <= launched@.len(),
            every >= 0,
            forall|j: int|
                0 <= j < i && (#[trigger] launched@[j]).0 == mode ==> launched@[j].1 >= every,
        decreases launched@.len() - i,
    {
        if launched[i].0 == mode && launched[i].1 < every as u64 {
            assert(launched@[i as int].0 == mode);
            return false;
        }
        i += 1;
    }
    true
}

/// The observation due now, if any: the daily one when it has not run for 24
/// hours, else the hourly one when its interval passed since the last one was
/// recorded (whichever supervisor ran it) and since this process last launched
/// it (`launched`, with the seconds since). An interval of no time at all means
/// no observer; one whose whole seconds fit no time is an error.
pub fn due_observation(
    interval: u128,
    daily: bool,
    now: i64,
    last_hourly: Option<i64>,
    last_daily: Option<i64>,
    launched: &Vec<(ObserveMode, u64)>,
) -> (r: Result<Option<ObserveMode>, ()>)
    ensures
        r is Err <==> whole_secs(interval) > i64::MAX,
        r is Ok ==> r->Ok_0 == (if interval == 0 {
            None
        } else if daily && is_due(
            ObserveMode::Daily,
            DAILY_WINDOW_SECS as int,
            now as int,
            last_daily,
            launched@,
        ) {
            Some(ObserveMode::Daily)
        } else if is_due(
            ObserveMode::Hourly,
            whole_secs(interval),
            now as int,
            last_hourly,
            launched@,
        ) {
            Some(ObserveMode::Hourly)
        } else {
            None
        }),
{
    if interval == 0 {
        return Ok(None);
    }
    let every: u128 = secs(interval);
    if every > i64::MAX as u128 {
        return Err(());
    }
    if daily && due(ObserveMode::Daily, DAILY_WINDOW_SECS, now, last_daily, launched) {
        return Ok(Some(ObserveMode::Daily));
    }
    if due(ObserveMode::Hourly, every as i64, now, last_hourly, launched) {
        return Ok(Some(ObserveMode::Hourly));
    }
    Ok(None)
}

/// The words of the observer's command.
pub open spec fn observer_words(layout: Layout, mode: ObserveMode) -> Seq<Seq<char>> {
    let base = seq![
        layout.runner@,
        "--db"@,
        layout.db@,
        "observe"@,
        layout.agent.flag(),
        layout.claude@,
    ];
    match mode {
        ObserveMode::Daily => base.push("--daily"@),
        ObserveMode::Hourly => base,
    }
}

/// Add a word to a list of them.
fn word(list: &mut Vec<String>, what: &str)
    ensures
        text::views(final(list)@) == text::views(old(list)@).push(what@),
{
    let ghost had = list@;
    list.push(what.to_owned());
    assert(text::views(list@) =~= text::views(had).push(what@));
}

/// What has been done of starting an observer.
#[derive(Default)]
pub struct ObserverSeen {
    /// The observation that is due, if one is, or why that cannot be told.
    pub due: Option<Result<Option<ObserveMode>, String>>,
    pub turns_recorded: bool,
    /// The launch is noted, whatever comes of it.
    pub noted: bool,
    /// The process was started, or why it was not.
    pub spawned: Option<Result<(), String>>,
}

/// What starting an observer does next, or what it came to.
pub enum ObserverStep {
    Nothing,
    Due,
    /// Record the transcript turns of the open spans now.
    RecordTurns,
    /// Note that an observation of this mode was launched now, in place of an
    /// earlier one.
    NoteLaunch { mode: ObserveMode },
    /// Run this in the checkout, without these variables.
    Spawn { argv: Vec<String>, dir: String, env_remove: Vec<String> },
    /// The observer of this mode runs.
    Started { mode: ObserveMode },
}

/// What starting an observer comes to.
pub open spec fn observes(
    layout: Layout,
    running: bool,
    seen: ObserverSeen,
    r: ObserverStep,
) -> bool {
    if running {
        r is Nothing
    } else {
        match seen.due {
            None => r is Due,
            Some(Ok(Some(mode))) => if !seen.turns_recorded {
                r is RecordTurns
            } else if !seen.noted {
                r == (ObserverStep::NoteLaunch { mode })
            } else {
                match seen.spawned {
                    None => r matches ObserverStep::Spawn { argv, dir, env_remove } && {
                        &&& text::views(argv@) == observer_words(layout, mode)
                        &&& dir@ == layout.repo_root@
                        &&& text::views(env_remove@) == text::views(layout.observer_env_remove@)
                    },
                    Some(Ok(_)) => r == (ObserverStep::Started { mode }),
                    Some(Err(_)) => r is Nothing,
                }
            },
            Some(_) => r is Nothing,
        }
    }
}

/// Start the observation that is due, when none is running; it runs in the
/// checkout without the variables of the supervisor's role. The transcript
/// turns of the open spans are recorded first, since it reads them. A launch
/// that fails is tried again after the interval.
pub fn start_observer_when_due(layout: &Layout, running: bool, seen: &ObserverSeen) -> (r:
    ObserverStep)
    ensures
        observes(*layout, running, *seen, r),
{
    if running {
        return ObserverStep::Nothing;
    }
    let mode = match &seen.due {
        None => return ObserverStep::Due,
        Some(Ok(Some(mode))) => *mode,
        Some(_) => return ObserverStep::Nothing,
    };
    if !seen.turns_recorded {
        return ObserverStep::RecordTurns;
    }
    if !seen.noted {
        return ObserverStep::NoteLaunch { mode };
    }
    match &seen.spawned {
        None => ObserverStep::Spawn {
            argv: observer_command(layout, mode),
            dir: layout.repo_root.clone(),
            env_remove: text::copied(&layout.observer_env_remove),
        },
        Some(Ok(_)) => ObserverStep::Started { mode },
        Some(Err(_)) => ObserverStep::Nothing,
    }
}

/// The observer's command.
fn observer_command(layout: &Layout, mode: ObserveMode) -> (r: Vec<String>)
    ensures
        text::views(r@) == observer_words(*layout, mode),
{
    let mut argv: Vec<String> = Vec::new();
    assert(text::views(argv@) =~= Seq::empty());
    word(&mut argv, layout.runner.as_str());
    word(&mut argv, "--db");
    word(&mut argv, layout.db.as_str());
    word(&mut argv, "observe");
    let flag = layout.agent.option();
    word(&mut argv, flag.as_str());
    word(&mut argv, layout.claude.as_str());
    if mode == ObserveMode::Daily {
        word(&mut argv, "--daily");
    }
    argv
}

/// The first `n` launches without those of the mode. Each is with the reading of
/// the monotonic clock.
pub open spec fn launches_but(
    launches: Seq<(ObserveMode, u128)>,
    mode: ObserveMode,
    n: int,
) -> Seq<(ObserveMode, u128)>
    decreases n,
{
    if n <= 0 || n > launches.len() {
        Seq::empty()
    } else if launches[n - 1].0 == mode {
        launches_but(launches, mode, n - 1)
    } else {
        launches_but(launches, mode, n - 1).push(launches[n - 1])
    }
}

/// Note that an observation was launched now, in place of its earlier launches.
pub fn note_launch(launches: &mut Vec<(ObserveMode, u128)>, mode: ObserveMode, at: u128)
    ensures
        final(launches)@ == launches_but(
            old(launches)@,
            mode,
            old(launches)@.len() as int,
        ).push((mode, at)),
{
    let mut out: Vec<(ObserveMode, u128)> = Vec::new();
    let mut i: usize = 0;
    while i < launches.len()
        invariant
            i <= launches@.len(),
            launches@ == old(launches)@,
            out@ == launches_but(launches@, mode, i as int),
        decreases launches@.len() - i,
    {
        let launch = launches[i];
        if launch.0 != mode {
            out.push(launch);
        }
        i += 1;
    }
    out.push((mode, at));
    *launches = out;
}

/// What polling the observer does next.
#[derive(Debug, Clone, Copy, PartialEq, Eq, Structural)]
pub enum ReapStep {
    Nothing,
    TryWait,
    /// It exited, or cannot be waited for: forget it. Its own record is the
    /// record.
    Forget,
}

/// Reap the observer once it exited. `waited` is whether it has, or why that
/// cannot be told.
pub fn poll_observer(running: bool, waited: &Option<Result<bool, String>>) -> (r: ReapStep)
    ensures
        r == (if !running {
            ReapStep::Nothing
        } else {
            match *waited {
                None => ReapStep::TryWait,
                Some(Ok(false)) => ReapStep::Nothing,
                Some(_) => ReapStep::Forget,
            }
        }),
{
    if !running {
        return ReapStep::Nothing;
    }
    match waited {
        None => ReapStep::TryWait,
        Some(Ok(exited)) => if *exited {
            ReapStep::Forget
        } else {
            ReapStep::Nothing
        },
        Some(Err(_)) => ReapStep::Forget,
    }
}

/// Whether the transcript turns of the open spans are recorded in this pass:
/// at once with `now`, else when the interval passed since the last time.
pub fn record_session_turns(now: bool, last_secs: Option<u64>) -> (r: bool)
    ensures
        r == (now || !(last_secs is Some && last_secs->0 < SESSION_TURNS_INTERVAL)),
{
    if now {
        return true;
    }
    match last_secs {
        Some(secs) => secs >= SESSION_TURNS_INTERVAL,
        None => true,
    }
}

/// Whether the run's resumes are used up; unreadable counts as used up.
pub fn resumes_exhausted(counted: Option<bool>) -> (r: bool)
    ensures
        r == (counted != Some(false)),
{
    match counted {
        Some(exhausted) => exhausted,
        None => true,
    }
}

/// Whether a session wrapper is registered that has not recorded its exit.
pub open spec fn may_live(processes: Seq<RunProcess>) -> bool {
    exists|i: int|
        0 <= i < processes.len() && (#[trigger] processes[i]).is_wrapper()
            && processes[i].exited_at is None
}

/// Whether a session wrapper is registered that has not recorded its exit.
fn session_may_live(processes: &Vec<RunProcess>) -> (r: bool)
    ensures
        r == may_live(processes@),
{
    let mut i: usize = 0;
    while i < processes.len()
        invariant
            i <= processes@.len(),
            forall|j: int|
                0 <= j < i ==> !((#[trigger] processes@[j]).is_wrapper()
                    && processes@[j].exited_at is None),
        decreases processes@.len() - i,
    {
        if text::same(processes[i].role.as_str(), "wrapper") && processes[i].exited_at.is_none() {
            assert(processes@[i as int].is_wrapper());
            return true;
        }
        i += 1;
    }
    false
}

/// What has been done and observed of a resume that is given up.
#[derive(Default)]
pub struct GiveUpSeen {
    pub finished: bool,
    /// The run's processes; none where they could not be read.
    pub processes: Option<Option<Vec<RunProcess>>>,
    pub closed: bool,
}

/// What giving a resume up does next.
pub enum GiveUpStep {
    /// Record `resume_finished` with the payload and the reason of the error,
    /// of this code where it has none of its own, and give the lease back.
    Finish { payload: Json, fallback: ReasonCode },
    Processes,
    Close { workspace: String },
    GivenUp(RunError),
}

/// What `resume_finished` records of a resume that failed in itself.
pub open spec fn give_up_payload(
    attempt: usize,
    message: Seq<char>,
    workspace: Option<Seq<char>>,
    exhausted: bool,
) -> json::Value {
    json::Value::Object(
        json::none().push(("attempt"@, json::Value::Int(attempt as int))).push(
            ("outcome"@, json::Value::Text("error"@)),
        ).push(("error"@, json::Value::Text(message))).push(
            ("workspace_id"@, json::text_or_null(workspace)),
        ).push(("exhausted"@, json::Value::Bool(exhausted))),
    )
}

/// A resume that failed in itself: it is recorded with outcome `error` and the
/// lease given back; the run stays parked with its reason, and the attempt
/// counts. Its workspace is closed only where no session of this resume can be
/// alive.
pub fn give_up_resume(
    run: &TaskRun,
    attempt: usize,
    workspace: &Option<String>,
    message: &String,
    exhausted: bool,
    seen: &GiveUpSeen,
) -> (r: GiveUpStep)
    ensures
        if !seen.finished {
            r matches GiveUpStep::Finish { payload, fallback } && payload@ == give_up_payload(
                attempt,
                message@,
                text::opt_view(*workspace),
                exhausted,
            ) && fallback == Failing::Resume.code()
        } else if seen.processes is None {
            r is Processes
        } else if workspace is Some && seen.processes->0 is Some && !may_live(
            seen.processes->0->0@,
        ) && !seen.closed {
            r == (GiveUpStep::Close { workspace: workspace->0 })
        } else {
            r matches GiveUpStep::GivenUp(error) && is_error(error, *run, message@)
        },
{
    if !seen.finished {
        let payload = Fields::new().number("attempt", attempt as i128).text(
            "outcome",
            "error",
        ).text("error", message.as_str()).opt_text("workspace_id", workspace).flag(
            "exhausted",
            exhausted,
        ).done();
        return GiveUpStep::Finish { payload, fallback: Failing::Resume.fallback() };
    }
    let processes = match &seen.processes {
        None => return GiveUpStep::Processes,
        Some(processes) => processes,
    };
    let live = match processes {
        Some(processes) => session_may_live(processes),
        None => true,
    };
    if let Some(workspace) = workspace {
        if !live && !seen.closed {
            return GiveUpStep::Close { workspace: workspace.clone() };
        }
    }
    GiveUpStep::GivenUp(run_error(run, message.clone()))
}

/// Whether a wrapper that has not recorded its exit died: its heartbeat is
/// older than the timeout and its process is gone.
pub open spec fn is_dead(wrapper: RunProcess, alive: bool, now: int, timeout: int) -> bool {
    now - wrapper.heartbeat_at > timeout && !alive
}

/// Whether a wrapper that has not recorded its exit died.
pub fn wrapper_dead(wrapper: &RunProcess, alive: bool, now: i64, timeout: i64) -> (r: bool)
    ensures
        r == is_dead(*wrapper, alive, now as int, timeout as int),
{
    (now as i128) - (wrapper.heartbeat_at as i128) > timeout as i128 && !alive
}

/// Whether the session of these processes lives: a wrapper is registered that
/// has not exited and has not died without recording it.
pub open spec fn lives(
    processes: Seq<RunProcess>,
    alive: Seq<bool>,
    now: int,
    timeout: int,
) -> bool {
    exists|i: int|
        0 <= i < processes.len() && (#[trigger] processes[i]).is_wrapper()
            && processes[i].exited_at is None && !is_dead(processes[i], alive[i], now, timeout)
}

/// Whether the run's session lives. `alive` is whether each process is there.
pub fn session_alive(
    processes: &Vec<RunProcess>,
    alive: &Vec<bool>,
    now: i64,
    timeout: i64,
) -> (r: bool)
    requires
        processes@.len() == alive@.len(),
    ensures
        r == lives(processes@, alive@, now as int, timeout as int),
{
    let mut i: usize = 0;
    while i < processes.len()
        invariant
            i <= processes@.len(),
            processes@.len() == alive@.len(),
            forall|j: int|
                0 <= j < i ==> !((#[trigger] processes@[j]).is_wrapper()
                    && processes@[j].exited_at is None && !is_dead(
                    processes@[j],
                    alive@[j],
                    now as int,
                    timeout as int,
                )),
        decreases processes@.len() - i,
    {
        if text::same(processes[i].role.as_str(), "wrapper") && processes[i].exited_at.is_none()
            && !wrapper_dead(&processes[i], alive[i], now, timeout) {
            assert(processes@[i as int].is_wrapper());
            return true;
        }
        i += 1;
    }
    false
}

/// Whether an event tells how a review ended.
pub open spec fn ends_review(event: RunEvent) -> bool {
    event.is_kind("review_finished"@) || event.is_kind("review_failed"@)
}

/// The latest of the first `n` events that tells how a review ended.
pub open spec fn latest_review(events: Seq<RunEvent>, n: int) -> Option<RunEvent>
    decreases n,
{
    if n <= 0 || n > events.len() {
        None
    } else if ends_review(events[n - 1]) {
        Some(events[n - 1])
    } else {
        latest_review(events, n - 1)
    }
}

/// The reasons an end of a review gives.
pub open spec fn review_reasons(event: Option<RunEvent>) -> Seq<Seq<char>> {
    match event {
        None => Seq::empty(),
        Some(event) => if event.is_kind("review_failed"@) {
            match json::text_of(json::at(event.payload@, "error"@)) {
                Some(error) => seq!["the headless review failed: "@ + error],
                None => Seq::empty(),
            }
        } else {
            match json::texts_of(json::at(event.payload@, "reasons"@)) {
                Some(reasons) => reasons,
                None => Seq::empty(),
            }
        },
    }
}

/// The reasons of the run's latest review: those of a `review_finished`, or
/// the error of a `review_failed` after it.
pub fn latest_review_reasons(events: &Vec<RunEvent>) -> (r: Vec<String>)
    ensures
        text::views(r@) == review_reasons(latest_review(events@, events@.len() as int)),
{
    let none: Vec<String> = Vec::new();
    assert(text::views(none@) =~= Seq::empty());
    let mut n: usize = events.len();
    while n > 0
        invariant
            n <= events@.len(),
            latest_review(events@, events@.len() as int) == latest_review(events@, n as int),
            text::views(none@) == Seq::<Seq<char>>::empty(),
        decreases n,
    {
        let event = &events[n - 1];
        if event.of_kind("review_failed") {
            return match event.payload.text("error") {
                Some(error) => {
                    let said = "the headless review failed: ".to_owned().concat(error.as_str());
                    let mut out: Vec<String> = Vec::new();
                    assert(text::views(out@) =~= Seq::empty());
                    word(&mut out, said.as_str());
                    assert(text::views(out@) =~= seq![said@]);
                    out
                },
                None => none,
            };
        }
        if event.of_kind("review_finished") {
            assert("review_finished"@ != "review_failed"@) by {
                reveal_strlit("review_finished");
                reveal_strlit("review_failed");
                assert("review_finished"@.len() != "review_failed"@.len());
            }
            return match event.payload.texts("reasons") {
                Some(reasons) => reasons,
                None => none,
            };
        }
        n -= 1;
    }
    none
}

/// What a validation records of a run.
pub struct Validation {
    pub accepted: bool,
    pub result_commit: Option<String>,
    pub reason: Option<String>,
    pub code: Option<ReasonCode>,
    /// The receipt, where there is one.
    pub receipt: Json,
    pub evidence_missing: Vec<EvidenceCheck>,
    pub scope_violation: Vec<String>,
    /// The paths the task allows, where a run went outside them.
    pub allowed_paths: Vec<String>,
}

/// What a ruling on a receipt is recorded as.
pub open spec fn is_validation(task: Task, checked: Checked, v: Validation) -> bool {
    match checked {
        Checked::Accepted { receipt, commit } => {
            &&& v.accepted
            &&& v.result_commit == Some(commit)
            &&& v.reason is None
            &&& v.code is None
            &&& v.receipt@ == receipt.document@
            &&& v.evidence_missing@.len() == 0
            &&& v.scope_violation@.len() == 0
            &&& v.allowed_paths@.len() == 0
        },
        Checked::Rejected(rejection) => {
            &&& !v.accepted
            &&& v.result_commit == rejection.commit
            &&& v.reason == Some(rejection.reason)
            &&& v.code == Some(rejection.code)
            &&& v.receipt@ == (match rejection.receipt {
                Some(receipt) => receipt.document@,
                None => json::Value::Null,
            })
            &&& v.evidence_missing@ == rejection.evidence_missing@
            &&& text::views(v.scope_violation@) == text::views(rejection.scope_violation@)
            &&& text::views(v.allowed_paths@) == (if rejection.scope_violation@.len() == 0 {
                Seq::empty()
            } else {
                text::views(task.paths@)
            })
        },
        _ => false,
    }
}

/// The record of a receipt's ruling. A rejection becomes a validation that is
/// not accepted; a check that is not done, or that failed in itself, is none.
pub fn spawn_validation(task: &Task, checked: &Checked) -> (r: Option<Validation>)
    ensures
        r is Some <==> (checked is Accepted || checked is Rejected),
        r is Some ==> is_validation(*task, *checked, r->0),
{
    match checked {
        Checked::Accepted { receipt, commit } => Some(
            Validation {
                accepted: true,
                result_commit: Some(commit.clone()),
                reason: None,
                code: None,
                receipt: receipt.document.copy(),
                evidence_missing: Vec::new(),
                scope_violation: Vec::new(),
                allowed_paths: Vec::new(),
            },
        ),
        Checked::Rejected(rejection) => {
            let allowed_paths = if rejection.scope_violation.len() == 0 {
                let none: Vec<String> = Vec::new();
                assert(text::views(none@) =~= Seq::empty());
                none
            } else {
                text::copied(&task.paths)
            };
            Some(
                Validation {
                    accepted: false,
                    result_commit: crate::domain::same_text(&rejection.commit),
                    reason: Some(rejection.reason.clone()),
                    code: Some(rejection.code),
                    receipt: match &rejection.receipt {
                        Some(receipt) => receipt.document.copy(),
                        None => Json::Null,
                    },
                    evidence_missing: same_checks(&rejection.evidence_missing),
                    scope_violation: text::copied(&rejection.scope_violation),
                    allowed_paths,
                },
            )
        },
        _ => None,
    }
}

/// What closing the workspace of an accepted run does next.
pub enum CloseStep {
    Failed(String),
    Close { workspace: String },
    /// The workspace is closed.
    Closed,
    /// The failure is recorded; the run's status does not change, and nothing
    /// treats the workspace as cleaned. Its reason is the error's, of this code
    /// where the error has none of its own.
    CleanupFailed { message: String, fallback: ReasonCode },
}

/// Close the workspace of an accepted run; the worktree and branch stay until
/// integration. `closed` is what closing it gave.
pub fn close_workspace(run: &TaskRun, closed: &Option<Result<(), String>>) -> (r: CloseStep)
    ensures
        match run.workspace_id {
            None => r matches CloseStep::Failed(why) && why@ == "missing workspace"@,
            Some(workspace) => match *closed {
                None => r == (CloseStep::Close { workspace }),
                Some(Ok(_)) => r is Closed,
                Some(Err(error)) => r matches CloseStep::CleanupFailed { message, fallback }
                    && message@ == "workspace "@ + workspace@ + " could not be closed: "@ + error@
                    && fallback == Failing::AcceptedWorkspace.code(),
            },
        },
{
    let workspace = match &run.workspace_id {
        None => return CloseStep::Failed("missing workspace".to_owned()),
        Some(workspace) => workspace,
    };
    match closed {
        None => CloseStep::Close { workspace: workspace.clone() },
        Some(Ok(_)) => CloseStep::Closed,
        Some(Err(error)) => CloseStep::CleanupFailed {
            message: "workspace ".to_owned().concat(workspace.as_str()).concat(
                " could not be closed: ",
            ).concat(error.as_str()),
            fallback: Failing::AcceptedWorkspace.fallback(),
        },
    }
}

/// A phase stops the jobs it has, and only those: a review and a recovery
/// their own, a session, an exit and a resume the recovery watched beside
/// them, a resume and a revise the live one.
pub proof fn a_phase_stops_its_own_jobs(kind: PhaseKind)
    ensures
        all_jobs(kind).own <==> kind is Review || kind is Recovery,
        all_jobs(kind).watch <==> kind is Session || kind is Exiting || kind is Resume,
        all_jobs(kind).live <==> kind is Resume || kind is Revise,
        !recovery_jobs(kind).own,
        recovery_jobs(kind).watch == all_jobs(kind).watch,
        recovery_jobs(kind).live == all_jobs(kind).live,
{
}

/// A step that goes on keeps its slot; a run that is done leaves it, and its
/// workspaces are closed where it landed or succeeded; a failed step gives the
/// run up in the way of its phase, and a run that is no longer held is let go.
pub proof fn a_step_settles_its_slot(
    run: TaskRun,
    kind: PhaseKind,
    stepped: Stepped,
    holds: Option<Option<bool>>,
    r: Settled,
)
    requires
        settles(run, kind, stepped, holds, r),
    ensures
        r is Keep <==> stepped is Continue,
        r is Finished <==> stepped is Done,
        r is Triaged <==> stepped is Triaged,
        r matches Settled::Finished { note_landed, closer } ==> (stepped matches Stepped::Done(ended)
            && (note_landed <==> ended.status == RunStatus::Integrated) && (closer is Some <==> (
        ended.status == RunStatus::Integrated || ended.status == RunStatus::Succeeded))),
        r is HoldsLease <==> stepped is Failed && holds is None,
        r is Disowned <==> stepped is Disowned || (stepped is Failed && (holds matches Some(
            Some(held),
        ) && !held)),
        stepped is Failed && holds is Some && !(holds matches Some(Some(held)) && !held) ==> {
            &&& r is RecoveryFailed <==> kind is Recovery
            &&& r is NotLanding <==> kind is AwaitingSlot
            &&& r is ResumeGivenUp <==> kind is Resume
            &&& r is Abandoned <==> kind !is Recovery && kind !is AwaitingSlot && kind !is Resume
        },
        r matches Settled::Abandoned { error, .. } ==> error.run_id@ == run.id@ && error.task_id
            == run.task_id && (stepped matches Stepped::Failed(why) && error.message@ == why@),
        r matches Settled::ResumeGivenUp { message, .. } ==> (stepped matches Stepped::Failed(why)
            && message@ == why@),
        r matches Settled::RecoveryFailed { message, .. } ==> (stepped matches Stepped::Failed(why)
            && message@ == why@),
        r matches Settled::Disowned { error, .. } ==> error.run_id@ == run.id@ && error.task_id
            == run.task_id,
{
}

/// The slots are stepped in order, each once in a pass, after the load was
/// sampled; while handing over, those that can be rebuilt are left alone.
pub proof fn slots_are_stepped_in_order(
    slots: Seq<SlotLook>,
    unsettled_only: bool,
    seen: SlotsSeen,
    r: SlotsStep,
)
    requires
        r == passes_slots(slots, unsettled_only, seen),
        slots.len() <= usize::MAX,
    ensures
        r is SampleLoad <==> !seen.load_sampled,
        r is StartWaits <==> seen.load_sampled && !unsettled_only && !seen.waits_started,
        r matches SlotsStep::Step { index } ==> seen.next <= index < slots.len()
            && !slots[index as int].waiting && (!unsettled_only ==> index == seen.next) && forall|
            i: int,
        |
            seen.next <= i < index ==> (#[trigger] slots[i]).rebuildable,
        r matches SlotsStep::Watch { index } ==> seen.next <= index < slots.len()
            && slots[index as int].waiting && (!unsettled_only ==> index == seen.next) && forall|
            i: int,
        |
            seen.next <= i < index ==> (#[trigger] slots[i]).rebuildable,
        r is Done ==> forall|i: int|
            seen.next <= i < slots.len() ==> unsettled_only && (#[trigger] slots[i]).rebuildable,
{
    first_slot(slots, unsettled_only, seen.next as int);
}

proof fn first_slot(slots: Seq<SlotLook>, unsettled_only: bool, from: int)
    requires
        0 <= from,
    ensures
        match slot_from(slots, unsettled_only, from) {
            Some(at) => from <= at < slots.len() && (!unsettled_only ==> at == from) && (
            unsettled_only ==> !slots[at].rebuildable) && forall|i: int|
                from <= i < at ==> (#[trigger] slots[i]).rebuildable,
            None => forall|i: int|
                from <= i < slots.len() ==> unsettled_only && (#[trigger] slots[i]).rebuildable,
        },
    decreases slots.len() - from,
{
    if from < slots.len() && unsettled_only && slots[from].rebuildable {
        first_slot(slots, unsettled_only, from + 1);
    }
}

/// An observation is due where none was recorded or launched within its
/// interval; a daily one goes first, and none is where observing is off.
pub proof fn an_observation_is_due_after_its_interval(
    interval: u128,
    daily: bool,
    now: i64,
    last_hourly: Option<i64>,
    last_daily: Option<i64>,
    launched: &Vec<(ObserveMode, u64)>,
    r: Result<Option<ObserveMode>, ()>,
)
    requires
        call_ensures(
            due_observation,
            (interval, daily, now, last_hourly, last_daily, launched),
            r,
        ),
        r is Ok,
    ensures
        interval == 0 ==> r->Ok_0 is None,
        r->Ok_0 == Some(ObserveMode::Daily) ==> daily && interval > 0 && (
        last_daily matches Some(last) ==> now - last >= 86400) && forall|i: int|
            0 <= i < launched@.len() && (#[trigger] launched@[i]).0 == ObserveMode::Daily
                ==> launched@[i].1 >= 86400,
        r->Ok_0 == Some(ObserveMode::Hourly) ==> interval > 0 && (last_hourly matches Some(last)
            ==> (now - last + 1) * 1_000_000_000 > interval) && forall|i: int|
            0 <= i < launched@.len() && (#[trigger] launched@[i]).0 == ObserveMode::Hourly ==> (
            launched@[i].1 + 1) * 1_000_000_000 > interval,
        interval > 0 && daily && last_daily is None && (forall|i: int|
            0 <= i < launched@.len() ==> (#[trigger] launched@[i]).0 != ObserveMode::Daily)
            ==> r->Ok_0 == Some(ObserveMode::Daily),
        interval > 0 && !daily && last_hourly is None && (forall|i: int|
            0 <= i < launched@.len() ==> (#[trigger] launched@[i]).0 != ObserveMode::Hourly)
            ==> r->Ok_0 == Some(ObserveMode::Hourly),
        !daily ==> r->Ok_0 != Some(ObserveMode::Daily),
{
    let secs = whole_secs(interval);
    assert(interval < (secs + 1) * 1_000_000_000);
}

/// An observer is started only where none runs and one is due, after the turns
/// and the launch were recorded, with the mode that is due.
pub proof fn an_observer_starts_when_due(
    layout: Layout,
    running: bool,
    seen: ObserverSeen,
    r: ObserverStep,
)
    requires
        observes(layout, running, seen, r),
    ensures
        running ==> r is Nothing,
        r is Due <==> !running && seen.due is None,
        r is Spawn <==> !running && (seen.due matches Some(Ok(Some(_)))) && seen.turns_recorded
            && seen.noted && seen.spawned is None,
        r matches ObserverStep::NoteLaunch { mode } ==> seen.due == Some(
            Ok::<Option<ObserveMode>, String>(Some(mode)),
        ) && seen.turns_recorded && !seen.noted,
        r matches ObserverStep::Started { mode } ==> seen.due == Some(
            Ok::<Option<ObserveMode>, String>(Some(mode)),
        ) && (seen.spawned matches Some(Ok(_))),
        r matches ObserverStep::Spawn { argv, .. } ==> argv@.len() >= 6 && argv@[0]@
            == layout.runner@ && argv@[2]@ == layout.db@ && argv@[3]@ == "observe"@ && (
        argv@.len() == 7 <==> seen.due->0->Ok_0 == Some(ObserveMode::Daily)),
{
    if let ObserverStep::Spawn { argv, .. } = r {
        let words = text::views(argv@);
        assert(words.len() == argv@.len());
        assert(words[0] == argv@[0]@);
        assert(words[2] == argv@[2]@);
        assert(words[3] == argv@[3]@);
    }
}

/// A launch replaces the one before of its mode, and leaves the other mode's.
pub proof fn a_launch_replaces_its_own_mode(
    launches: Seq<(ObserveMode, u128)>,
    mode: ObserveMode,
    n: int,
)
    requires
        0 <= n <= launches.len(),
    ensures
        forall|i: int|
            0 <= i < launches_but(launches, mode, n).len() ==> (#[trigger] launches_but(
                launches,
                mode,
                n,
            )[i]).0 != mode,
        forall|i: int|
            0 <= i < n && (#[trigger] launches[i]).0 != mode ==> launches_but(
                launches,
                mode,
                n,
            ).contains(launches[i]),
    decreases n,
{
    if n > 0 {
        a_launch_replaces_its_own_mode(launches, mode, n - 1);
        let before = launches_but(launches, mode, n - 1);
        let after = launches_but(launches, mode, n);
        assert forall|i: int| 0 <= i < n && (#[trigger] launches[i]).0 != mode implies after.contains(
            launches[i],
        ) by {
            if i < n - 1 {
                let k = choose|k: int| 0 <= k < before.len() && before[k] == launches[i];
                assert(after[k] == launches[i]);
            } else {
                assert(after[before.len() as int] == launches[i]);
            }
        }
    }
}

/// An observer that ended, or cannot be waited for, is forgotten; one that
/// runs is let run.
pub proof fn an_ended_observer_is_forgotten(
    running: bool,
    waited: &Option<Result<bool, String>>,
    r: ReapStep,
)
    requires
        call_ensures(poll_observer, (running, waited), r),
    ensures
        r == ReapStep::TryWait <==> running && *waited is None,
        r == ReapStep::Forget <==> running && *waited is Some && !(*waited matches Some(Ok(ended))
            && !ended),
{
}

/// Sessions' turns are recorded when asked for, and else once the interval is
/// over.
pub proof fn turns_are_recorded_after_the_interval(now: bool, last_secs: Option<u64>, r: bool)
    requires
        call_ensures(record_session_turns, (now, last_secs), r),
    ensures
        now || last_secs is None ==> r,
        !now && last_secs is Some ==> (r <==> last_secs->0 >= 600),
{
}

/// Resumes count as used up unless they were counted and some are left.
pub proof fn uncounted_resumes_are_used_up(counted: Option<bool>, r: bool)
    requires
        call_ensures(resumes_exhausted, (counted,), r),
    ensures
        !r <==> counted is Some && !counted->0,
{
}

/// A resume that is given up is recorded first, and its workspace is closed
/// only where none of its wrappers may still live.
pub proof fn a_given_up_resume_closes_no_live_session(
    run: &TaskRun,
    attempt: usize,
    workspace: &Option<String>,
    message: &String,
    exhausted: bool,
    seen: &GiveUpSeen,
    r: GiveUpStep,
)
    requires
        call_ensures(give_up_resume, (run, attempt, workspace, message, exhausted, seen), r),
    ensures
        r is Finish <==> !seen.finished,
        r matches GiveUpStep::Close { workspace: of } ==> *workspace == Some(of) && !seen.closed && (
        seen.processes matches Some(Some(processes)) && forall|i: int|
            0 <= i < processes@.len() && (#[trigger] processes@[i]).is_wrapper()
                ==> processes@[i].exited_at is Some),
        r matches GiveUpStep::GivenUp(error) ==> error.run_id@ == run.id@ && error.message@
            == message@ && seen.finished,
{
    if let GiveUpStep::Close { workspace: of } = r {
        let processes = seen.processes->0->0@;
        assert forall|i: int| 0 <= i < processes.len() && (#[trigger] processes[i]).is_wrapper() implies processes[i].exited_at
            is Some by {
            assert(!may_live(processes));
        }
    }
}

/// A wrapper died where its heartbeat is too old and its process gone; a
/// session is alive while one of its wrappers has neither exited nor died.
pub proof fn a_session_lives_with_a_wrapper(
    processes: Seq<RunProcess>,
    alive: Seq<bool>,
    now: int,
    timeout: int,
    i: int,
)
    requires
        0 <= i < processes.len(),
    ensures
        is_dead(processes[i], alive[i], now, timeout) <==> !alive[i] && now
            - processes[i].heartbeat_at > timeout,
        processes[i].is_wrapper() && processes[i].exited_at is None && (alive[i] || now
            - processes[i].heartbeat_at <= timeout) ==> lives(processes, alive, now, timeout),
        lives(processes, alive, now, timeout) ==> exists|j: int|
            0 <= j < processes.len() && (#[trigger] processes[j]).is_wrapper()
                && processes[j].exited_at is None && (alive[j] || now - processes[j].heartbeat_at
                <= timeout),
{
    if lives(processes, alive, now, timeout) {
        let j = choose|j: int|
            0 <= j < processes.len() && (#[trigger] processes[j]).is_wrapper()
                && processes[j].exited_at is None && !is_dead(processes[j], alive[j], now, timeout);
        assert(processes[j].is_wrapper());
    }
}

/// A validation says what was checked: accepted with its commit and receipt,
/// or rejected with the reason, the code and what was missing or outside.
pub proof fn a_validation_says_what_was_checked(task: Task, checked: Checked, v: Validation)
    requires
        is_validation(task, checked, v),
    ensures
        v.accepted <==> checked is Accepted,
        checked matches Checked::Accepted { receipt, commit } ==> v.result_commit == Some(commit)
            && v.reason is None && v.code is None && v.receipt@ == receipt.document@,
        checked matches Checked::Rejected(rejection) ==> (v.reason matches Some(why) && why@
            == rejection.reason@) && v.code == Some(rejection.code) && v.evidence_missing@
            == rejection.evidence_missing@ && v.scope_violation@.len()
            == rejection.scope_violation@.len(),
{
    if let Checked::Rejected(rejection) = checked {
        assert(text::views(v.scope_violation@).len() == v.scope_violation@.len());
        assert(text::views(rejection.scope_violation@).len() == rejection.scope_violation@.len());
    }
}

/// A run's workspace is closed where it has one, and a close that failed is
/// told with the error.
pub proof fn a_workspace_is_closed_as_it_went(
    run: &TaskRun,
    closed: &Option<Result<(), String>>,
    r: CloseStep,
)
    requires
        call_ensures(close_workspace, (run, closed), r),
    ensures
        r is Failed <==> run.workspace_id is None,
        r matches CloseStep::Close { workspace } ==> run.workspace_id == Some(workspace) && *closed
            is None,
        r is Closed <==> run.workspace_id is Some && (*closed matches Some(Ok(_))),
        r is CleanupFailed <==> run.workspace_id is Some && (*closed matches Some(Err(_))),
{
}

/// A launch that is noted is the latest of its mode, and the only one.
pub proof fn a_noted_launch_is_the_only_one_of_its_mode(
    launches: &mut Vec<(ObserveMode, u128)>,
    mode: ObserveMode,
    at: u128,
    r: (),
)
    requires
        call_ensures(note_launch, (launches, mode, at), r),
    ensures
        final(launches)@.last() == (mode, at),
        forall|k: int|
            0 <= k < final(launches)@.len() - 1 ==> (#[trigger] final(launches)@[k]).0 != mode,
{
    none_of_the_mode_is_left(old(launches)@, mode, old(launches)@.len() as int);
}

/// None of the mode is left.
proof fn none_of_the_mode_is_left(
    launches: Seq<(ObserveMode, u128)>,
    mode: ObserveMode,
    n: int,
)
    requires
        0 <= n <= launches.len(),
    ensures
        forall|k: int|
            0 <= k < launches_but(launches, mode, n).len() ==> (#[trigger] launches_but(
                launches,
                mode,
                n,
            )[k]).0 != mode,
    decreases n,
{
    if n > 0 {
        none_of_the_mode_is_left(launches, mode, n - 1);
        let before = launches_but(launches, mode, n - 1);
        let after = launches_but(launches, mode, n);
        assert forall|k: int| 0 <= k < after.len() implies (#[trigger] after[k]).0 != mode by {
            if k < before.len() {
                assert(after[k] == before[k]);
            }
        }
    }
}

/// The reasons of the last review are those of the latest event that ended one:
/// of one that finished its own reasons, of one that failed its error.
pub proof fn the_latest_review_gives_the_reasons(events: &Vec<RunEvent>, r: Vec<String>, i: int)
    requires
        call_ensures(latest_review_reasons, (events,), r),
        0 <= i < events@.len(),
        events@[i].kind@ == "review_finished"@ || events@[i].kind@ == "review_failed"@,
        forall|j: int|
            i < j < events@.len() ==> (#[trigger] events@[j]).kind@ != "review_finished"@
                && events@[j].kind@ != "review_failed"@,
    ensures
        events@[i].kind@ == "review_failed"@ && json::at(events@[i].payload@, "error"@) is Text
            ==> r@.len() == 1 && r@[0]@ == "the headless review failed: "@ + json::at(
            events@[i].payload@,
            "error"@,
        )->Text_0,
        events@[i].kind@ == "review_finished"@ && json::texts_of(
            json::at(events@[i].payload@, "reasons"@),
        ) is Some ==> text::views(r@) == json::texts_of(
            json::at(events@[i].payload@, "reasons"@),
        )->0,
{
    let n = events@.len() as int;
    the_last_review_is_latest(events@, n);
    assert(ends_review(events@[i]));
    let event = latest_review(events@, n)->0;
    let k = choose|k: int|
        0 <= k < n && #[trigger] events@[k] == event && ends_review(event) && forall|j: int|
            k < j < n ==> !ends_review(#[trigger] events@[j]);
    if i < k {
        assert(events@[k].kind@ != "review_finished"@);
    }
    if k < i {
        assert(!ends_review(events@[i]));
    }
    assert(text::views(r@).len() == r@.len());
    if r@.len() == 1 {
        assert(text::views(r@)[0] == r@[0]@);
    }
    reveal_strlit("review_finished");
    reveal_strlit("review_failed");
    assert("review_finished"@.len() == 15 && "review_failed"@.len() == 13);
}

/// The latest review is the last event that ended one.
proof fn the_last_review_is_latest(events: Seq<RunEvent>, n: int)
    requires
        0 <= n <= events.len(),
    ensures
        match latest_review(events, n) {
            Some(event) => exists|i: int|
                0 <= i < n && #[trigger] events[i] == event && ends_review(event) && forall|j: int|
                    i < j < n ==> !ends_review(#[trigger] events[j]),
            None => forall|i: int| 0 <= i < n ==> !ends_review(#[trigger] events[i]),
        },
    decreases n,
{
    if n > 0 {
        if ends_review(events[n - 1]) {
            assert(events[n - 1] == latest_review(events, n)->0);
        } else {
            the_last_review_is_latest(events, n - 1);
        }
    }
}

} // verus!
