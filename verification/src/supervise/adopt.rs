//! Adoption: runs whose supervisor died while their session lives on are taken
//! over, each in the phase it was in.

use crate::domain::{
    age, elapsed, heartbeat_stale, is_stale, Failing, ReasonCode, RunEvent, RunProcess, RunStatus,
    TaskRun,
};
use crate::json;
use crate::json::{Fields, Json};
use crate::supervise::exit::{find_latest, latest_of, ExitWatch};
use crate::supervise::resume::{
    find_since, has_since, in_progress, is_resume_event, last_resume_event, resume_in_progress,
    session_runs, still_runs,
};
use crate::supervise::slot::{AfterExit, ReviewDecision, ReviewVerdict, SessionRef};
use crate::text;
use vstd::prelude::*;
use vstd::string::*;

verus! {

/// Whether a lease no longer has a working process behind it: its process is
/// gone, or its heartbeat is older than `timeout`.
pub fn lease_stale(alive: bool, heartbeat_at: i64, now: i64, timeout: i64) -> (r: bool)
    ensures
        r == is_stale(alive, elapsed(heartbeat_at as int, now as int), timeout as int),
{
    heartbeat_stale(alive, age(heartbeat_at, now), timeout)
}

/// Whether a wrapper that has not reported its exit is alive; nothing where
/// there is none, or it reported its exit.
pub open spec fn alive_of(wrapper: Option<RunProcess>, alive: bool, now: int, timeout: int) -> Option<
    bool,
> {
    match wrapper {
        Some(wrapper) => if wrapper.exited_at is None {
            Some(alive && elapsed(wrapper.heartbeat_at as int, now) <= timeout)
        } else {
            None
        },
        None => None,
    }
}

/// Whether a wrapper that has not reported its exit is alive: its process is
/// there, and its heartbeat is not older than `timeout`.
pub fn wrapper_alive(wrapper: &Option<RunProcess>, alive: bool, now: i64, timeout: i64) -> (r:
    Option<bool>)
    ensures
        r == alive_of(*wrapper, alive, now as int, timeout as int),
{
    match wrapper {
        Some(wrapper) => if wrapper.exited_at.is_none() {
            Some(alive && age(wrapper.heartbeat_at, now) <= timeout)
        } else {
            None
        },
        None => None,
    }
}

/// Whether the last resume event moved the run on without a session.
pub open spec fn was_skipped(events: Seq<RunEvent>) -> bool {
    match last_resume_event(events, events.len() as int) {
        Some(i) => events[i].is_kind("resume_skipped"@),
        None => false,
    }
}

/// The place of the last event that begins or ends a resume.
fn find_resume_event(events: &Vec<RunEvent>) -> (r: Option<usize>)
    ensures
        match r {
            Some(i) => i < events@.len() && last_resume_event(events@, events@.len() as int)
                == Some(i as int) && is_resume_event(events@[i as int]),
            None => last_resume_event(events@, events@.len() as int) is None,
        },
{
    let mut n: usize = events.len();
    while n > 0
        invariant
            n <= events@.len(),
            last_resume_event(events@, events@.len() as int) == last_resume_event(
                events@,
                n as int,
            ),
        decreases n,
    {
        n -= 1;
        if events[n].of_kind("resume_started") || events[n].of_kind("resume_finished")
            || events[n].of_kind("resume_skipped") {
            return Some(n);
        }
    }
    None
}

/// Whether the run's last resume event is `resume_skipped`: it was moved on
/// without a session, and no resume opened one since.
pub fn skipped_resume(events: &Vec<RunEvent>) -> (r: bool)
    ensures
        r == was_skipped(events@),
{
    match find_resume_event(events) {
        Some(i) => events[i].of_kind("resume_skipped"),
        None => false,
    }
}

/// Whether a run whose lease went stale is taken over.
pub open spec fn is_adoptable(
    status: RunStatus,
    wrapper: Option<RunProcess>,
    alive: bool,
    now: int,
    timeout: int,
    events: Seq<RunEvent>,
) -> bool {
    match status {
        RunStatus::NeedsSession => still_runs(wrapper, alive) && in_progress(events) is Some,
        RunStatus::AwaitingIntegration => true,
        RunStatus::Running | RunStatus::Validating => was_skipped(events) || (wrapper is Some
            && alive_of(wrapper, alive, now, timeout) != Some(false)),
        _ => false,
    }
}

/// Whether a run whose lease went stale is taken over rather than recovered:
/// one that awaits integration always, since its review is headless; one that
/// was moved on without a session; otherwise only one whose wrapper is alive or
/// has reported its exit. A run that needs a session is taken over only in a
/// resume whose session lives on, however silent. `alive` is whether the
/// wrapper's process is there.
pub fn adoptable(
    status: RunStatus,
    wrapper: &Option<RunProcess>,
    alive: bool,
    now: i64,
    timeout: i64,
    events: &Vec<RunEvent>,
) -> (r: bool)
    ensures
        r == is_adoptable(status, *wrapper, alive, now as int, timeout as int, events@),
{
    if status == RunStatus::NeedsSession {
        return session_runs(wrapper, alive) && resume_in_progress(events).is_some();
    }
    if status == RunStatus::AwaitingIntegration {
        return true;
    }
    if status != RunStatus::Running && status != RunStatus::Validating {
        return false;
    }
    if skipped_resume(events) {
        return true;
    }
    match wrapper_alive(wrapper, alive, now, timeout) {
        Some(alive) => alive,
        None => wrapper.is_some(),
    }
}

/// A run that is claimed or starting is never adopted: it needs the token that
/// claimed it.
pub proof fn only_a_run_past_its_start_is_adopted(
    status: RunStatus,
    wrapper: Option<RunProcess>,
    alive: bool,
    now: int,
    timeout: int,
    events: Seq<RunEvent>,
)
    requires
        is_adoptable(status, wrapper, alive, now, timeout, events),
    ensures
        status == RunStatus::NeedsSession || status == RunStatus::AwaitingIntegration || status
            == RunStatus::Running || status == RunStatus::Validating,
{
}

/// What has been done and observed of a run that another supervisor leases.
#[derive(Default)]
pub struct StaleSeen {
    /// Its lease is stale; it is taken over rather than recovered.
    pub stale: bool,
    pub adoptable: bool,
    /// It waits for a person and needs no free slot.
    pub as_waiting: Option<bool>,
    /// The run once its lease was taken; none where that changed meanwhile.
    pub adopted: Option<Option<TaskRun>>,
    /// What rebuilding its phase gave.
    pub rebuilt: Option<Result<(), String>>,
    /// It is recorded, or was tried, that its resume is watched on.
    pub noted: bool,
}

/// What taking over a run does next.
pub enum StaleStep {
    Next,
    AsWaiting,
    /// Take the lease, with what was observed of the wrapper.
    Adopt { observed: Json },
    /// Rebuild the review of a run that awaits integration.
    AdoptReview,
    /// Rebuild the watch of a resumed session.
    AdoptResume,
    /// Record what [`note_resume_adopted`] says of its resume; a record that
    /// fails is only noted.
    NoteResume,
    /// Start its validation again, with the session of [`session_of`].
    Validate,
    /// Rebuild the watch of its session: [`adopt_session`].
    Resume,
    /// The run takes a slot, waiting where it waited.
    Take { as_waiting: bool },
    /// The lease is given up, so that the run can be judged.
    Abandon { message: String, fallback: ReasonCode },
}

/// What was observed of the wrapper of a run that is taken over.
pub open spec fn observed_of(
    wrapper: Option<RunProcess>,
    alive: bool,
    now: int,
    timeout: int,
) -> json::Value {
    match wrapper {
        Some(process) => json::Value::Object(
            json::none().push(("pid"@, json::Value::Int(process.pid as int))).push(
                (
                    "alive"@,
                    match alive_of(wrapper, alive, now, timeout) {
                        Some(alive) => json::Value::Bool(alive),
                        None => json::Value::Null,
                    },
                ),
            ).push(
                (
                    "exited_at"@,
                    match process.exited_at {
                        Some(at) => json::Value::Int(at as int),
                        None => json::Value::Null,
                    },
                ),
            ),
        ),
        None => json::Value::Null,
    }
}

/// What was observed of the wrapper of a run that is taken over.
fn observe(wrapper: &Option<RunProcess>, alive: bool, now: i64, timeout: i64) -> (r: Json)
    ensures
        r@ == observed_of(*wrapper, alive, now as int, timeout as int),
{
    let lives = wrapper_alive(wrapper, alive, now, timeout);
    match wrapper {
        Some(process) => {
            let lives = match lives {
                Some(alive) => Json::Bool(alive),
                None => Json::Null,
            };
            let exited = match process.exited_at {
                Some(at) => Json::Int(at as i128),
                None => Json::Null,
            };
            Fields::new().number("pid", process.pid as i128).with("alive", lives).with(
                "exited_at",
                exited,
            ).done()
        },
        None => Json::Null,
    }
}

/// What taking over a run comes to.
pub open spec fn takes_over(
    wrapper: Option<RunProcess>,
    alive: bool,
    now: int,
    timeout: int,
    room: bool,
    seen: StaleSeen,
    r: StaleStep,
) -> bool {
    if !seen.stale || !seen.adoptable {
        r is Next
    } else if seen.as_waiting is None {
        r is AsWaiting
    } else if !seen.as_waiting->0 && !room {
        r is Next
    } else {
        match seen.adopted {
            None => r matches StaleStep::Adopt { observed } && observed@ == observed_of(
                wrapper,
                alive,
                now,
                timeout,
            ),
            Some(None) => r is Next,
            Some(Some(run)) => match seen.rebuilt {
                None => match run.status {
                    RunStatus::AwaitingIntegration => r is AdoptReview,
                    RunStatus::NeedsSession => r is AdoptResume,
                    RunStatus::Validating => r is Validate,
                    _ => r is Resume,
                },
                Some(Ok(_)) => if run.status == RunStatus::NeedsSession && !seen.noted {
                    r is NoteResume
                } else {
                    r == (StaleStep::Take { as_waiting: seen.as_waiting->0 })
                },
                Some(Err(error)) => r matches StaleStep::Abandon { message, fallback } && message@
                    == "run "@ + run.id@ + " could not be resumed: "@ + error@ && fallback
                    == Failing::Abandon.code(),
            },
        }
    }
}

/// Take over a run whose lease went stale under another supervisor, each in the
/// phase it was in. One that waits for a person needs no free slot. A phase
/// that cannot be rebuilt gives the lease up like any other error, so that the
/// run can be judged.
pub fn adopt_stale_run(
    wrapper: &Option<RunProcess>,
    alive: bool,
    now: i64,
    timeout: i64,
    room: bool,
    seen: &StaleSeen,
) -> (r: StaleStep)
    ensures
        takes_over(*wrapper, alive, now as int, timeout as int, room, *seen, r),
{
    if !seen.stale || !seen.adoptable {
        return StaleStep::Next;
    }
    let as_waiting = match seen.as_waiting {
        None => return StaleStep::AsWaiting,
        Some(as_waiting) => as_waiting,
    };
    if !as_waiting && !room {
        return StaleStep::Next;
    }
    let run = match &seen.adopted {
        None => return StaleStep::Adopt { observed: observe(wrapper, alive, now, timeout) },
        Some(None) => return StaleStep::Next,
        Some(Some(run)) => run,
    };
    match &seen.rebuilt {
        None => if run.status == RunStatus::AwaitingIntegration {
            StaleStep::AdoptReview
        } else if run.status == RunStatus::NeedsSession {
            StaleStep::AdoptResume
        } else if run.status == RunStatus::Validating {
            StaleStep::Validate
        } else {
            StaleStep::Resume
        },
        Some(Ok(_)) => if run.status == RunStatus::NeedsSession && !seen.noted {
            StaleStep::NoteResume
        } else {
            StaleStep::Take { as_waiting }
        },
        Some(Err(error)) => StaleStep::Abandon {
            message: "run ".to_owned().concat(run.id.as_str()).concat(
                " could not be resumed: ",
            ).concat(error.as_str()),
            fallback: Failing::Abandon.fallback(),
        },
    }
}

/// A lease that is not stale is never taken.
pub proof fn a_live_lease_is_not_taken(
    wrapper: Option<RunProcess>,
    alive: bool,
    now: int,
    timeout: int,
    room: bool,
    seen: StaleSeen,
    r: StaleStep,
)
    requires
        takes_over(wrapper, alive, now, timeout, room, seen, r),
        r is Adopt,
    ensures
        seen.stale,
        seen.adoptable,
        seen.as_waiting->0 || room,
{
}

/// A version that a process was replaced from, where it is known.
pub struct Handoff {
    pub previous_version: Option<String>,
}

/// What `auto_repaired` records of a resumed session that is watched on rather
/// than resumed again: whether by a process that replaced its supervisor, with
/// the version it came from, or by an adopter.
pub fn note_resume_adopted(
    workspace: &str,
    attempt: usize,
    request_sent: bool,
    version: &str,
    handoff: &Option<Handoff>,
) -> (r: Json)
    ensures
        r@ == json::Value::Object(
            json::none().push(("layer"@, json::Value::Text("runtime"@))).push(
                ("repair"@, json::Value::Text("resume_adopted"@)),
            ).push(
                (
                    "conditions"@,
                    json::Value::Object(
                        json::none().push(("handoff"@, json::Value::Bool(handoff is Some))).push(
                            ("attempt"@, json::Value::Int(attempt as int)),
                        ).push(("request_sent"@, json::Value::Bool(request_sent))),
                    ),
                ),
            ).push(
                (
                    "detail"@,
                    json::Value::Object(
                        {
                            let base = json::none().push(
                                ("workspace_id"@, json::Value::Text(workspace@)),
                            ).push(("version"@, json::Value::Text(version@)));
                            match *handoff {
                                Some(from) => base.push(
                                    (
                                        "previous_version"@,
                                        json::text_or_null(text::opt_view(from.previous_version)),
                                    ),
                                ),
                                None => base,
                            }
                        },
                    ),
                ),
            ),
        ),
{
    let conditions = Fields::new().flag("handoff", handoff.is_some()).number(
        "attempt",
        attempt as i128,
    ).flag("request_sent", request_sent).done();
    let base = Fields::new().text("workspace_id", workspace).text("version", version);
    let detail = match handoff {
        Some(from) => base.opt_text("previous_version", &from.previous_version).done(),
        None => base.done(),
    };
    Fields::new().text("layer", "runtime").text("repair", "resume_adopted").with(
        "conditions",
        conditions,
    ).with("detail", detail).done()
}

/// Whether an event tells of a dialog or of the receipt.
pub open spec fn is_screen_event(event: RunEvent) -> bool {
    event.is_kind("prompt_waiting"@) || event.is_kind("prompt_cleared"@) || event.is_kind(
        "receipt_observed"@,
    )
}

/// The screen of the dialog that the first `n` events leave recorded.
pub open spec fn recorded_screen(events: Seq<RunEvent>, n: int) -> Option<Seq<char>>
    decreases n,
{
    if n <= 0 || n > events.len() {
        None
    } else if is_screen_event(events[n - 1]) {
        if events[n - 1].is_kind("prompt_waiting"@) {
            json::text_of(json::at(events[n - 1].payload@, "screen_hash"@))
        } else {
            None
        }
    } else {
        recorded_screen(events, n - 1)
    }
}

/// The screen of the dialog that the events leave recorded.
fn find_screen(events: &Vec<RunEvent>) -> (r: Option<String>)
    ensures
        text::opt_view(r) == recorded_screen(events@, events@.len() as int),
{
    let mut n: usize = events.len();
    while n > 0
        invariant
            n <= events@.len(),
            recorded_screen(events@, events@.len() as int) == recorded_screen(events@, n as int),
        decreases n,
    {
        n -= 1;
        if events[n].of_kind("prompt_waiting") {
            return events[n].payload.text("screen_hash");
        }
        if events[n].of_kind("prompt_cleared") || events[n].of_kind("receipt_observed") {
            return None;
        }
    }
    None
}

/// What the watch of an adopted session starts from.
pub struct AdoptedSession {
    pub workspace: String,
    pub run_dir: String,
    pub receipt_path: String,
    pub receipt_seen: bool,
    /// A `/exit` was requested: it is never sent twice, and its timeout restarts.
    pub exit_requested: bool,
    pub exit_timed_out: bool,
    pub first_commit_seen: bool,
    /// The dialog that was recorded, which is not recorded again.
    pub prompt_hash: Option<String>,
    /// No ask of the exit timeout is due.
    pub exit_asked: bool,
}

/// Whether an event of the kind was recorded.
pub open spec fn recorded(events: Seq<RunEvent>, kind: Seq<char>) -> bool {
    latest_of(events, kind, events.len() as int) is Some
}

/// Whether an event of the kind was recorded.
pub fn has_event(events: &Vec<RunEvent>, kind: &str) -> (r: bool)
    ensures
        r == recorded(events@, kind@),
{
    find_latest(events, kind).is_some()
}

/// Rebuild the watch of an adopted session from what the queue and the run
/// directory hold. A timeout recorded without its ask still gets one; one asked
/// before is not asked again. `receipt_there` is whether the receipt is on
/// disk, `stuck_asked` whether the run has a `stuck_exit` ask.
pub fn adopt_session(
    run: &TaskRun,
    events: &Vec<RunEvent>,
    receipt_there: bool,
    stuck_asked: bool,
) -> (r: Result<AdoptedSession, String>)
    ensures
        if run.receipt_path is None {
            r matches Err(why) && why@ == "missing receipt path"@
        } else if run.workspace_id is None {
            r matches Err(why) && why@ == "adopted run has no workspace"@
        } else if run.run_dir is None {
            r matches Err(why) && why@ == "missing run directory"@
        } else {
            r matches Ok(session) && {
                &&& session.workspace == run.workspace_id->0
                &&& session.run_dir == run.run_dir->0
                &&& session.receipt_path == run.receipt_path->0
                &&& session.receipt_seen == (receipt_there && recorded(
                    events@,
                    "receipt_observed"@,
                ))
                &&& session.exit_requested == recorded(events@, "exit_requested"@)
                &&& session.exit_timed_out == recorded(events@, "exit_request_timed_out"@)
                &&& session.first_commit_seen == recorded(events@, "first_commit_observed"@)
                &&& text::opt_view(session.prompt_hash) == recorded_screen(
                    events@,
                    events@.len() as int,
                )
                &&& session.exit_asked == (!session.exit_timed_out || stuck_asked)
            }
        },
{
    let receipt_path = match &run.receipt_path {
        None => return Err("missing receipt path".to_owned()),
        Some(path) => path.clone(),
    };
    let workspace = match &run.workspace_id {
        None => return Err("adopted run has no workspace".to_owned()),
        Some(workspace) => workspace.clone(),
    };
    let run_dir = match &run.run_dir {
        None => return Err("missing run directory".to_owned()),
        Some(dir) => dir.clone(),
    };
    let exit_timed_out = has_event(events, "exit_request_timed_out");
    Ok(
        AdoptedSession {
            workspace,
            run_dir,
            receipt_path,
            receipt_seen: receipt_there && has_event(events, "receipt_observed"),
            exit_requested: has_event(events, "exit_requested"),
            exit_timed_out,
            first_commit_seen: has_event(events, "first_commit_observed"),
            prompt_hash: find_screen(events),
            exit_asked: !exit_timed_out || stuck_asked,
        },
    )
}

/// Whether the workspace was closed after the event `started`.
pub open spec fn closed_since(events: Seq<RunEvent>, started: i64, workspace: Seq<char>) -> bool {
    exists|i: int|
        0 <= i < events.len() && (#[trigger] events[i]).id > started && events[i].is_kind(
            "workspace_closed"@,
        ) && json::at(events[i].payload@, "workspace_id"@) == json::Value::Text(workspace)
}

/// Whether the workspace was closed after the event `started`.
fn find_closed(events: &Vec<RunEvent>, started: i64, workspace: &str) -> (r: bool)
    ensures
        r == closed_since(events@, started, workspace@),
{
    let mut i: usize = 0;
    while i < events.len()
        invariant
            i <= events@.len(),
            forall|j: int|
                0 <= j < i ==> !((#[trigger] events@[j]).id > started && events@[j].is_kind(
                    "workspace_closed"@,
                ) && json::at(events@[j].payload@, "workspace_id"@) == json::Value::Text(
                    workspace@,
                )),
        decreases events@.len() - i,
    {
        if events[i].id > started && events[i].of_kind("workspace_closed")
            && events[i].payload.says("workspace_id", workspace) {
            assert(events@[i as int].is_kind("workspace_closed"@));
            return true;
        }
        i += 1;
    }
    false
}

/// The session an accepted run keeps open.
pub open spec fn is_session(run: TaskRun, events: Seq<RunEvent>, r: Option<SessionRef>) -> bool {
    match last_resume_event(events, events.len() as int) {
        Some(i) => {
            let event = events[i];
            let workspace = json::text_of(json::at(event.payload@, "workspace_id"@));
            let attempt = json::nat_of(json::at(event.payload@, "attempt"@));
            if event.is_kind("resume_finished"@) && json::at(event.payload@, "status"@)
                == json::Value::Text(RunStatus::Validating.name()) && workspace is Some
                && attempt is Some && !closed_since(events, event.id, workspace->0) {
                r matches Some(session) && session.workspace@ == workspace->0 && (session.resume
                    matches Some(n) && n == attempt->0 as usize)
            } else {
                r is None
            }
        },
        None => if run.workspace_id is Some && !run.workspace_closed {
            r == Some(SessionRef { workspace: run.workspace_id->0, resume: None })
        } else {
            r is None
        },
    }
}

/// The session an accepted run keeps open: the workspace of the resume that
/// handed its live session to validation unless it was closed since, else the
/// worker's own while it is not closed. A run moved on without a session has
/// none open.
pub fn session_of(run: &TaskRun, events: &Vec<RunEvent>) -> (r: Option<SessionRef>)
    ensures
        is_session(*run, events@, r),
{
    match find_resume_event(events) {
        Some(i) => {
            let event = &events[i];
            if !event.of_kind("resume_finished") || !event.payload.says(
                "status",
                RunStatus::Validating.as_str(),
            ) {
                return None;
            }
            let workspace = match event.payload.text("workspace_id") {
                Some(workspace) => workspace,
                None => return None,
            };
            let attempt: u64 = match event.payload.natural("attempt") {
                Some(attempt) => attempt,
                None => return None,
            };
            if find_closed(events, event.id, workspace.as_str()) {
                return None;
            }
            Some(SessionRef { workspace, resume: Some(attempt as usize) })
        },
        None => match &run.workspace_id {
            Some(workspace) => if run.workspace_closed {
                None
            } else {
                Some(SessionRef { workspace: workspace.clone(), resume: None })
            },
            None => None,
        },
    }
}

/// The decision of this name.
pub open spec fn decision_of(name: Seq<char>) -> Option<ReviewDecision> {
    if name == "pass"@ {
        Some(ReviewDecision::Pass)
    } else if name == "concern"@ {
        Some(ReviewDecision::Concern)
    } else if name == "revise"@ {
        Some(ReviewDecision::Revise)
    } else {
        None
    }
}

/// Whether a verdict is the one that a payload records.
pub open spec fn records(payload: json::Value, r: Option<ReviewVerdict>) -> bool {
    let name = json::text_of(json::at(payload, "verdict"@));
    let reasons = json::texts_of(json::at(payload, "reasons"@));
    let summary = json::text_of(json::at(payload, "summary"@));
    if name is Some && decision_of(name->0) is Some && reasons is Some && summary is Some {
        r matches Some(verdict) && Some(verdict.verdict) == decision_of(name->0) && text::views(
            verdict.reasons@,
        ) == reasons->0 && verdict.summary@ == summary->0
    } else {
        r is None
    }
}

/// The verdict that a payload records, where it records one.
pub fn recorded_verdict(payload: &Json) -> (r: Option<ReviewVerdict>)
    ensures
        records(payload@, r),
{
    let name = match payload.text("verdict") {
        Some(name) => name,
        None => return None,
    };
    let verdict = if text::same(name.as_str(), "pass") {
        ReviewDecision::Pass
    } else if text::same(name.as_str(), "concern") {
        ReviewDecision::Concern
    } else if text::same(name.as_str(), "revise") {
        ReviewDecision::Revise
    } else {
        return None;
    };
    let reasons = match payload.texts("reasons") {
        Some(reasons) => reasons,
        None => return None,
    };
    match payload.text("summary") {
        Some(summary) => Some(ReviewVerdict { verdict, reasons, summary }),
        None => None,
    }
}

/// The place of the last of the first `n` events that ended a review before the
/// event `before`.
pub open spec fn review_before(events: Seq<RunEvent>, before: i64, n: int) -> Option<int>
    decreases n,
{
    if n <= 0 || n > events.len() {
        None
    } else if events[n - 1].id < before && events[n - 1].is_kind("review_finished"@) {
        Some(n - 1)
    } else {
        review_before(events, before, n - 1)
    }
}

/// Whether a verdict is that of the last review before the event `before`.
pub open spec fn is_passed(events: Seq<RunEvent>, before: i64, r: Option<ReviewVerdict>) -> bool {
    match review_before(events, before, events.len() as int) {
        Some(i) => records(events[i].payload@, r),
        None => r is None,
    }
}

/// The verdict of the last review before the event `before`: the pass a
/// conflict check followed, or the revise that could not be sent.
pub fn passed_before(events: &Vec<RunEvent>, before: i64) -> (r: Option<ReviewVerdict>)
    ensures
        is_passed(events@, before, r),
{
    let mut n: usize = events.len();
    while n > 0
        invariant
            n <= events@.len(),
            review_before(events@, before, events@.len() as int) == review_before(
                events@,
                before,
                n as int,
            ),
        decreases n,
    {
        n -= 1;
        if events[n].id < before && events[n].of_kind("review_finished") {
            return recorded_verdict(&events[n].payload);
        }
    }
    None
}

/// Whether an event opened an `approve_landing` ask of the supervisor after the
/// event `anchor`.
pub open spec fn opens_landing_ask(event: RunEvent, anchor: i64) -> bool {
    event.id > anchor && event.is_kind("ask_opened"@) && json::at(event.payload@, "kind"@)
        == json::Value::Text("approve_landing"@) && json::at(event.payload@, "asked_by"@)
        == json::Value::Text("supervisor"@)
}

/// The place of the last of the first `n` events that opened a landing ask.
pub open spec fn landing_event(events: Seq<RunEvent>, anchor: i64, n: int) -> Option<int>
    decreases n,
{
    if n <= 0 || n > events.len() {
        None
    } else if opens_landing_ask(events[n - 1], anchor) {
        Some(n - 1)
    } else {
        landing_event(events, anchor, n - 1)
    }
}

/// The last `approve_landing` ask that the supervisor opened after the event
/// `anchor`.
pub open spec fn landing_ask(events: Seq<RunEvent>, anchor: i64) -> Option<int> {
    match landing_event(events, anchor, events.len() as int) {
        Some(i) => json::int_of(json::at(events[i].payload@, "ask_id"@)),
        None => None,
    }
}

/// The last `approve_landing` ask that the supervisor opened after the event
/// `anchor`: the ask of the step the anchor led to.
pub fn landing_ask_after(events: &Vec<RunEvent>, anchor: i64) -> (r: Option<i64>)
    ensures
        match r {
            Some(id) => landing_ask(events@, anchor) == Some(id as int),
            None => landing_ask(events@, anchor) is None,
        },
{
    let mut n: usize = events.len();
    while n > 0
        invariant
            n <= events@.len(),
            landing_event(events@, anchor, events@.len() as int) == landing_event(
                events@,
                anchor,
                n as int,
            ),
        decreases n,
    {
        n -= 1;
        let event = &events[n];
        if event.id > anchor && event.of_kind("ask_opened") && event.payload.says(
            "kind",
            "approve_landing",
        ) && event.payload.says("asked_by", "supervisor") {
            return event.payload.integer("ask_id");
        }
    }
    None
}

/// An ask as it was read.
pub struct ReadAsk {
    pub id: i64,
    pub question: String,
    pub closed: bool,
}

/// What has been done and observed of a review that is adopted.
#[derive(Default)]
pub struct ReviewSeen {
    /// The landing ask that the anchor led to.
    pub ask: Option<ReadAsk>,
    pub failure_recorded: bool,
    pub session_alive: Option<bool>,
    /// An `approve_landing` ask of the run is not closed.
    pub approve_asked: Option<bool>,
    /// The run has a `stuck_exit` ask.
    pub stuck_asked: Option<bool>,
}

/// What follows the exit of an adopted review's session.
pub enum AdoptedNext {
    Land,
    Ask { why: Option<String>, verdict: ReviewVerdict },
    /// A conflict past its limit asks a person.
    AskConflict { because: String, passed: ReviewVerdict },
    /// The run waits for the ask that is open.
    Rest,
}

/// What a live session was asked to fix.
pub enum AdoptedFix {
    Revise(Vec<String>),
    Conflict(ReviewVerdict),
}

/// What adopting a review does next, or the phase it came to.
pub enum ReviewStep {
    StartReview,
    ReadAsk { id: i64 },
    RecordReviewFailed { payload: Json },
    SessionAlive,
    ApproveAsked,
    StuckAsked,
    /// The request that was sent waits for the live session again.
    Revise { live: SessionRef, attempt: u64, fix: AdoptedFix, sent_at: u64 },
    /// The pass is checked for conflicts again, as main may have moved.
    Precheck { verdict: ReviewVerdict },
    /// The session is followed to its exit.
    Exiting { next: AdoptedNext, requested: bool, timed_out: bool, exit_asked: bool },
}

/// A number of a payload, else another.
pub open spec fn number_or(payload: json::Value, key: Seq<char>, other: int) -> int {
    match json::nat_of(json::at(payload, key)) {
        Some(n) => n,
        None => other,
    }
}

/// A number of a payload, else another.
fn number_at(payload: &Json, key: &str, other: u64) -> (r: u64)
    ensures
        r == number_or(payload@, key@, other as int),
{
    match payload.natural(key) {
        Some(n) => n,
        None => other,
    }
}

/// Following the session to its exit: never a second `/exit`, and an ask of its
/// timeout only where none was made.
pub open spec fn exits(
    events: Seq<RunEvent>,
    anchor: i64,
    stuck_asked: Option<bool>,
    r: ReviewStep,
) -> bool {
    let timed_out = has_since(events, anchor, "exit_request_timed_out"@);
    if timed_out && stuck_asked is None {
        r is StuckAsked
    } else {
        r matches ReviewStep::Exiting { next: _, requested, timed_out: late, exit_asked } && requested
            == has_since(events, anchor, "exit_requested"@) && late == timed_out && exit_asked == (
        !timed_out || stuck_asked->0)
    }
}

/// Follow the session to its exit.
fn exiting(
    events: &Vec<RunEvent>,
    anchor: i64,
    stuck_asked: Option<bool>,
    next: AdoptedNext,
) -> (r: ReviewStep)
    ensures
        exits(events@, anchor, stuck_asked, r),
        r is Exiting ==> r->next == next,
{
    let timed_out = find_since(events, anchor, "exit_request_timed_out");
    let exit_asked = if timed_out {
        match stuck_asked {
            None => return ReviewStep::StuckAsked,
            Some(asked) => asked,
        }
    } else {
        true
    };
    ReviewStep::Exiting {
        next,
        requested: find_since(events, anchor, "exit_requested"),
        timed_out,
        exit_asked,
    }
}

/// The failure that a failed review's ask tells in its first line.
pub open spec fn told_failure(ask: ReadAsk, attempt: int) -> Seq<char> {
    let told = match text::first_line_of(ask.question@) {
        Some(line) => text::cut(line, "): "@),
        None => None,
    };
    match told {
        Some((_, error)) => error,
        None => "review "@ + text::decimal(attempt as nat) + " failed and ask "@ + text::signed(
            ask.id as int,
        ) + " was opened for it before the supervisor stopped"@,
    }
}

/// What `review_failed` records of an adopted review.
pub open spec fn failed_payload(run: TaskRun, started: RunEvent, ask: ReadAsk) -> json::Value {
    let attempt = number_or(started.payload@, "attempt"@, 1);
    json::Value::Object(
        json::none().push(("code"@, json::Value::Text(ReasonCode::JobFailed.name()))).push(
            ("attempt"@, json::Value::Int(attempt)),
        ).push(("error"@, json::Value::Text(told_failure(ask, attempt)))).push(
            ("status"@, json::Value::Text(run.status.name())),
        ).push(("ask_id"@, json::Value::Int(ask.id as int))).push(
            ("adopted"@, json::Value::Bool(true)),
        ),
    )
}

/// What `review_failed` records of an adopted review.
fn failed_record(run: &TaskRun, started: &RunEvent, ask: &ReadAsk) -> (r: Json)
    ensures
        r@ == failed_payload(*run, *started, *ask),
{
    let attempt: u64 = number_at(&started.payload, "attempt", 1);
    let told = match text::first_line(ask.question.as_str()) {
        Some(line) => text::split_once(line.as_str(), "): "),
        None => None,
    };
    let error = match told {
        Some((_, error)) => error,
        None => {
            let n = text::number(attempt);
            let id = text::integer(ask.id);
            "review ".to_owned().concat(n.as_str()).concat(" failed and ask ").concat(
                id.as_str(),
            ).concat(" was opened for it before the supervisor stopped")
        },
    };
    Fields::new().text("code", ReasonCode::JobFailed.as_str()).number(
        "attempt",
        attempt as i128,
    ).text("error", error.as_str()).text("status", run.status.as_str()).number(
        "ask_id",
        ask.id as i128,
    ).flag("adopted", true).done()
}

/// What a failed review that waits for its ask comes to: its failure is
/// recorded if it was not, and the run rests on the ask.
pub open spec fn rests_on_failure(
    run: TaskRun,
    events: Seq<RunEvent>,
    started: RunEvent,
    seen: ReviewSeen,
    r: ReviewStep,
) -> bool {
    if !has_since(events, started.id, "review_failed"@) && !seen.failure_recorded {
        r matches ReviewStep::RecordReviewFailed { payload } && payload@ == failed_payload(
            run,
            started,
            seen.ask->0,
        )
    } else {
        exits(events, started.id, seen.stuck_asked, r) && (r is Exiting ==> r->next is Rest)
    }
}

/// What a question for a person comes to: where one was opened for it before,
/// the run waits for that one rather than asking again.
pub open spec fn asks_once(
    events: Seq<RunEvent>,
    anchor: i64,
    seen: ReviewSeen,
    r: ReviewStep,
) -> bool {
    if landing_ask(events, anchor) is Some && seen.ask is None {
        r matches ReviewStep::ReadAsk { id } && Some(id as int) == landing_ask(events, anchor)
    } else {
        exits(events, anchor, seen.stuck_asked, r)
    }
}

/// Whether the run waits for the landing ask that the anchor led to.
pub open spec fn is_asked(events: Seq<RunEvent>, anchor: i64, ask: Option<ReadAsk>) -> bool {
    landing_ask(events, anchor) is Some && ask is Some && !ask->0.closed
}

/// Put a question to a person, unless one was opened for it before.
fn ask_once(
    events: &Vec<RunEvent>,
    anchor: i64,
    seen: &ReviewSeen,
    next: AdoptedNext,
) -> (r: ReviewStep)
    ensures
        asks_once(events@, anchor, *seen, r),
        r is Exiting && is_asked(events@, anchor, seen.ask) ==> r->next is Rest,
        r is Exiting && !is_asked(events@, anchor, seen.ask) ==> r->next == next,
{
    if let Some(id) = landing_ask_after(events, anchor) {
        match &seen.ask {
            None => return ReviewStep::ReadAsk { id },
            Some(ask) => if !ask.closed {
                return exiting(events, anchor, seen.stuck_asked, AdoptedNext::Rest);
            },
        }
    }
    exiting(events, anchor, seen.stuck_asked, next)
}

/// The question that a verdict becomes where the session is followed to its
/// exit.
pub open spec fn is_question(
    events: Seq<RunEvent>,
    anchor: i64,
    seen: ReviewSeen,
    payload: json::Value,
    why: Option<Seq<char>>,
    r: ReviewStep,
) -> bool {
    asks_once(events, anchor, seen, r) && (r matches ReviewStep::Exiting { next, .. } ==> if is_asked(
        events,
        anchor,
        seen.ask,
    ) {
        next is Rest
    } else {
        next matches AdoptedNext::Ask { why: because, verdict } && text::opt_view(because) == why
            && records(payload, Some(verdict))
    })
}

/// A live session that was asked to fix something is waited for again, once it
/// is known to live.
pub open spec fn waits_for_fix(
    session: Option<SessionRef>,
    anchor: RunEvent,
    seen: ReviewSeen,
    r: ReviewStep,
) -> bool {
    if session is None {
        r is StartReview
    } else if seen.session_alive is None {
        r is SessionAlive
    } else if !seen.session_alive->0 {
        r is StartReview
    } else {
        r matches ReviewStep::Revise { live, attempt, fix: _, sent_at } && live == session->0
            && attempt == number_or(anchor.payload@, "attempt"@, 1) && sent_at == number_or(
            anchor.payload@,
            "sent_at"@,
            0,
        )
    }
}

/// What a recorded verdict comes to.
pub open spec fn goes_on_from_verdict(
    events: Seq<RunEvent>,
    anchor: RunEvent,
    seen: ReviewSeen,
    r: ReviewStep,
) -> bool {
    let name = json::text_of(json::at(anchor.payload@, "verdict"@));
    if records(anchor.payload@, None) {
        r is StartReview
    } else if name == Some("pass"@) {
        if !has_since(events, anchor.id, "exit_requested"@) {
            r matches ReviewStep::Precheck { verdict } && records(anchor.payload@, Some(verdict))
        } else {
            exits(events, anchor.id, seen.stuck_asked, r) && (r is Exiting ==> r->next is Land)
        }
    } else {
        is_question(
            events,
            anchor.id,
            seen,
            anchor.payload@,
            if name == Some("revise"@) {
                Some("the revise could not go on when the supervisor was replaced"@)
            } else {
                None
            },
            r,
        )
    }
}

/// What a conflict check that sent nothing comes to.
pub open spec fn goes_on_from_check(
    events: Seq<RunEvent>,
    anchor: RunEvent,
    seen: ReviewSeen,
    r: ReviewStep,
) -> bool {
    let why = json::text_of(json::at(anchor.payload@, "asked"@));
    if is_passed(events, anchor.id, None) {
        r is StartReview
    } else if !has_since(events, anchor.id, "exit_requested"@) {
        r matches ReviewStep::Precheck { verdict } && is_passed(events, anchor.id, Some(verdict))
    } else if why is None {
        exits(events, anchor.id, seen.stuck_asked, r) && (r is Exiting ==> r->next is Land)
    } else {
        asks_once(events, anchor.id, seen, r) && (r matches ReviewStep::Exiting { next, .. } ==> if is_asked(
            events,
            anchor.id,
            seen.ask,
        ) {
            next is Rest
        } else {
            next matches AdoptedNext::AskConflict { because, passed } && because@ == why->0
                && is_passed(events, anchor.id, Some(passed))
        })
    }
}

/// What an adopted review comes to.
pub open spec fn adopts_review(
    run: TaskRun,
    events: Seq<RunEvent>,
    anchor: Option<usize>,
    parked_by_recheck: bool,
    session: Option<SessionRef>,
    seen: ReviewSeen,
    r: ReviewStep,
) -> bool {
    match anchor {
        None => r is StartReview,
        Some(at) => {
            let anchor = events[at as int];
            if anchor.is_kind("review_started"@) {
                match landing_ask(events, anchor.id) {
                    None => r is StartReview,
                    Some(id) => match seen.ask {
                        None => r matches ReviewStep::ReadAsk { id: n } && n == id,
                        Some(ask) => if ask.closed {
                            r is StartReview
                        } else {
                            rests_on_failure(run, events, anchor, seen, r)
                        },
                    },
                }
            } else if anchor.is_kind("revise_requested"@) {
                waits_for_fix(session, anchor, seen, r) && (r matches ReviewStep::Revise { fix, .. }
                    ==> fix matches AdoptedFix::Revise(reasons) && text::views(reasons@) == (
                match json::texts_of(json::at(anchor.payload@, "reasons"@)) {
                    Some(reasons) => reasons,
                    None => Seq::empty(),
                }))
            } else if anchor.is_kind("conflict_precheck"@) {
                if json::at(anchor.payload@, "requested"@) == json::Value::Bool(true) {
                    if is_passed(events, anchor.id, None) {
                        r is StartReview
                    } else {
                        waits_for_fix(session, anchor, seen, r) && (r matches ReviewStep::Revise {
                            fix,
                            ..
                        } ==> fix matches AdoptedFix::Conflict(verdict) && is_passed(
                            events,
                            anchor.id,
                            Some(verdict),
                        ))
                    }
                } else {
                    goes_on_from_check(events, anchor, seen, r)
                }
            } else if anchor.is_kind("revise_unsent"@) {
                match review_before(events, anchor.id, events.len() as int) {
                    None => r is StartReview,
                    Some(i) => if records(events[i].payload@, None) {
                        r is StartReview
                    } else {
                        is_question(
                            events,
                            anchor.id,
                            seen,
                            events[i].payload@,
                            json::text_of(json::at(anchor.payload@, "error"@)),
                            r,
                        )
                    },
                }
            } else if anchor.is_kind("review_finished"@) {
                goes_on_from_verdict(events, anchor, seen, r)
            } else if anchor.is_kind("validation_finished"@) {
                if recorded(events, "integration_approved"@) {
                    exits(events, anchor.id, seen.stuck_asked, r) && (r is Exiting ==> r->next
                        is Land)
                } else if !parked_by_recheck {
                    r is StartReview
                } else if seen.approve_asked is None {
                    r is ApproveAsked
                } else if !seen.approve_asked->0 {
                    r is StartReview
                } else {
                    exits(events, anchor.id, seen.stuck_asked, r) && (r is Exiting ==> r->next
                        is Rest)
                }
            } else {
                r is StartReview
            }
        },
    }
}

/// Wait again for a live session that was asked to fix something.
fn wait_for_fix(
    session: &Option<SessionRef>,
    anchor: &RunEvent,
    seen: &ReviewSeen,
    fix: AdoptedFix,
) -> (r: ReviewStep)
    ensures
        waits_for_fix(*session, *anchor, *seen, r),
        r is Revise ==> r->fix == fix,
{
    let session = match session {
        None => return ReviewStep::StartReview,
        Some(session) => session,
    };
    match seen.session_alive {
        None => ReviewStep::SessionAlive,
        Some(alive) => if alive {
            ReviewStep::Revise {
                live: SessionRef { workspace: session.workspace.clone(), resume: session.resume },
                attempt: number_at(&anchor.payload, "attempt", 1),
                fix,
                sent_at: number_at(&anchor.payload, "sent_at", 0),
            }
        } else {
            ReviewStep::StartReview
        },
    }
}

/// Go on from a recorded verdict.
fn go_on_from_verdict(events: &Vec<RunEvent>, anchor: &RunEvent, seen: &ReviewSeen) -> (r:
    ReviewStep)
    ensures
        goes_on_from_verdict(events@, *anchor, *seen, r),
{
    proof {
        reveal_strlit("pass");
        reveal_strlit("concern");
        reveal_strlit("revise");
        assert("pass"@.len() != "revise"@.len());
        assert("pass"@.len() != "concern"@.len());
        assert("concern"@.len() != "revise"@.len());
    }
    let verdict = match recorded_verdict(&anchor.payload) {
        None => return ReviewStep::StartReview,
        Some(verdict) => verdict,
    };
    if verdict.verdict == ReviewDecision::Pass {
        if !find_since(events, anchor.id, "exit_requested") {
            return ReviewStep::Precheck { verdict };
        }
        return exiting(events, anchor.id, seen.stuck_asked, AdoptedNext::Land);
    }
    let why = if verdict.verdict == ReviewDecision::Revise {
        Some("the revise could not go on when the supervisor was replaced".to_owned())
    } else {
        None
    };
    ask_once(events, anchor.id, seen, AdoptedNext::Ask { why, verdict })
}

/// Go on from a conflict check that sent nothing.
fn go_on_from_check(events: &Vec<RunEvent>, anchor: &RunEvent, seen: &ReviewSeen) -> (r: ReviewStep)
    ensures
        goes_on_from_check(events@, *anchor, *seen, r),
{
    let passed = match passed_before(events, anchor.id) {
        None => return ReviewStep::StartReview,
        Some(passed) => passed,
    };
    if !find_since(events, anchor.id, "exit_requested") {
        return ReviewStep::Precheck { verdict: passed };
    }
    match anchor.payload.text("asked") {
        Some(because) => ask_once(
            events,
            anchor.id,
            seen,
            AdoptedNext::AskConflict { because, passed },
        ),
        None => exiting(events, anchor.id, seen.stuck_asked, AdoptedNext::Land),
    }
}

/// A failed review whose ask was opened before the supervisor died.
fn adopt_failed_review_ask(
    run: &TaskRun,
    events: &Vec<RunEvent>,
    started: &RunEvent,
    seen: &ReviewSeen,
    ask: &ReadAsk,
) -> (r: ReviewStep)
    requires
        seen.ask == Some(*ask),
    ensures
        rests_on_failure(*run, events@, *started, *seen, r),
{
    if !find_since(events, started.id, "review_failed") && !seen.failure_recorded {
        return ReviewStep::RecordReviewFailed { payload: failed_record(run, started, ask) };
    }
    exiting(events, started.id, seen.stuck_asked, AdoptedNext::Rest)
}

/// Rebuild an adopted run under review from its events. A request to the live
/// session with nothing after it waits for that session again; one that could
/// not be sent asks a person; a verdict already recorded, or an approved run not
/// reviewed since its validation, goes on to its `/exit` without a second
/// review and without a second `/exit`; a failed review with its ask open
/// waits for that ask; anything else is reviewed from the start. `anchor` is
/// the event that the review stands at.
pub fn adopt_review(
    run: &TaskRun,
    events: &Vec<RunEvent>,
    anchor: Option<usize>,
    parked_by_recheck: bool,
    session: &Option<SessionRef>,
    seen: &ReviewSeen,
) -> (r: ReviewStep)
    requires
        anchor is Some ==> anchor->0 < events@.len(),
    ensures
        adopts_review(*run, events@, anchor, parked_by_recheck, *session, *seen, r),
{
    let anchor = match anchor {
        None => return ReviewStep::StartReview,
        Some(at) => &events[at],
    };
    if anchor.of_kind("review_started") {
        return match landing_ask_after(events, anchor.id) {
            None => ReviewStep::StartReview,
            Some(id) => match &seen.ask {
                None => ReviewStep::ReadAsk { id },
                Some(ask) => if ask.closed {
                    ReviewStep::StartReview
                } else {
                    adopt_failed_review_ask(run, events, anchor, seen, ask)
                },
            },
        };
    }
    if anchor.of_kind("revise_requested") {
        let reasons: Vec<String> = match anchor.payload.texts("reasons") {
            Some(reasons) => reasons,
            None => Vec::new(),
        };
        assert(json::texts_of(json::at(anchor.payload@, "reasons"@)) is None ==> text::views(
            reasons@,
        ) =~= Seq::empty());
        return wait_for_fix(session, anchor, seen, AdoptedFix::Revise(reasons));
    }
    if anchor.of_kind("conflict_precheck") {
        if anchor.payload.is_true("requested") {
            return match passed_before(events, anchor.id) {
                None => ReviewStep::StartReview,
                Some(passed) => wait_for_fix(session, anchor, seen, AdoptedFix::Conflict(passed)),
            };
        }
        return go_on_from_check(events, anchor, seen);
    }
    if anchor.of_kind("revise_unsent") {
        return match passed_before(events, anchor.id) {
            None => ReviewStep::StartReview,
            Some(verdict) => {
                let why = anchor.payload.text("error");
                ask_once(events, anchor.id, seen, AdoptedNext::Ask { why, verdict })
            },
        };
    }
    if anchor.of_kind("review_finished") {
        return go_on_from_verdict(events, anchor, seen);
    }
    if anchor.of_kind("validation_finished") {
        if has_event(events, "integration_approved") {
            return exiting(events, anchor.id, seen.stuck_asked, AdoptedNext::Land);
        }
        if parked_by_recheck {
            return match seen.approve_asked {
                None => ReviewStep::ApproveAsked,
                Some(asked) => if asked {
                    exiting(events, anchor.id, seen.stuck_asked, AdoptedNext::Rest)
                } else {
                    ReviewStep::StartReview
                },
            };
        }
    }
    ReviewStep::StartReview
}

/// The watch of an adopted session's exit. An exit that was requested is never
/// sent again; its timeout restarts now.
pub fn exit_watch(
    session: Option<SessionRef>,
    next: AfterExit,
    requested: bool,
    timed_out: bool,
    exit_asked: bool,
    now: u128,
) -> (r: ExitWatch)
    ensures
        r == (ExitWatch {
            session,
            since: now,
            requested: if requested {
                Some(now)
            } else {
                None
            },
            timed_out,
            exit_asked,
            silent: false,
            exit_for_silence: false,
            unsent: None,
            next,
        }),
{
    let mut watch = ExitWatch::new(session, next, now);
    if requested {
        watch.requested = Some(now);
    }
    watch.timed_out = timed_out;
    watch.exit_asked = exit_asked;
    watch
}

/// An adopted run never gets a second `/exit` for the step it stands at.
pub proof fn an_adopted_exit_is_not_asked_again(
    run: TaskRun,
    events: Seq<RunEvent>,
    at: usize,
    parked_by_recheck: bool,
    session: Option<SessionRef>,
    seen: ReviewSeen,
    r: ReviewStep,
)
    requires
        adopts_review(run, events, Some(at), parked_by_recheck, session, seen, r),
        has_since(events, events[at as int].id, "exit_requested"@),
        r is Exiting,
    ensures
        r->requested,
{
}

/// A person is not asked twice: where the ask that the anchor led to is open,
/// an adopted run that would ask waits for it.
pub proof fn an_open_ask_is_not_asked_again(
    run: TaskRun,
    events: Seq<RunEvent>,
    at: usize,
    parked_by_recheck: bool,
    session: Option<SessionRef>,
    seen: ReviewSeen,
    r: ReviewStep,
)
    requires
        adopts_review(run, events, Some(at), parked_by_recheck, session, seen, r),
        is_asked(events, events[at as int].id, seen.ask),
        r is Exiting,
    ensures
        r->next is Rest || r->next is Land,
{
}

/// A pass is landed only after its exit was requested; until then it is checked
/// for conflicts again.
pub proof fn a_pass_is_checked_until_its_exit(
    run: TaskRun,
    events: Seq<RunEvent>,
    at: usize,
    parked_by_recheck: bool,
    session: Option<SessionRef>,
    seen: ReviewSeen,
    r: ReviewStep,
)
    requires
        adopts_review(run, events, Some(at), parked_by_recheck, session, seen, r),
        events[at as int].is_kind("review_finished"@),
        !has_since(events, events[at as int].id, "exit_requested"@),
    ensures
        !(r is Exiting && r->next is Land),
{
    reveal_strlit("review_started");
    reveal_strlit("conflict_precheck");
    reveal_strlit("review_finished");
}

/// A lease is stale whose holder is gone or has not beaten within the timeout.
pub proof fn a_lease_is_stale_without_its_holder(
    alive: bool,
    heartbeat_at: i64,
    now: i64,
    timeout: i64,
    r: bool,
)
    requires
        call_ensures(lease_stale, (alive, heartbeat_at, now, timeout), r),
        i64::MIN <= now - heartbeat_at <= i64::MAX,
    ensures
        r <==> !alive || now - heartbeat_at > timeout,
{
}

/// A wrapper that has not recorded its exit is alive where its process is and
/// its heartbeat is within the timeout; of one that has, or of none, nothing
/// is said.
pub proof fn a_wrapper_is_alive_while_it_beats(
    wrapper: &Option<RunProcess>,
    alive: bool,
    now: i64,
    timeout: i64,
    r: Option<bool>,
)
    requires
        call_ensures(wrapper_alive, (wrapper, alive, now, timeout), r),
        *wrapper matches Some(process) ==> i64::MIN <= now - process.heartbeat_at <= i64::MAX,
    ensures
        r is Some <==> (*wrapper matches Some(process) && process.exited_at is None),
        r is Some && r->0 <==> alive && (*wrapper matches Some(process) && process.exited_at is None
            && now - process.heartbeat_at <= timeout),
{
}

/// The last resume event is the last of its kinds.
proof fn last_resume_is_last(events: Seq<RunEvent>, n: int)
    requires
        0 <= n <= events.len(),
    ensures
        match last_resume_event(events, n) {
            Some(at) => 0 <= at < n && is_resume_event(events[at]) && forall|i: int|
                at < i < n ==> !is_resume_event(#[trigger] events[i]),
            None => forall|i: int| 0 <= i < n ==> !is_resume_event(#[trigger] events[i]),
        },
    decreases n,
{
    if n > 0 && !is_resume_event(events[n - 1]) {
        last_resume_is_last(events, n - 1);
    }
}

/// A run is taken over only past its start: one that needs a session while its
/// resume runs, one that waits to land always, and one at work unless its
/// wrapper is known to be dead and no resume of it was skipped.
pub proof fn a_run_is_taken_over_past_its_start(
    status: RunStatus,
    wrapper: Option<RunProcess>,
    alive: bool,
    now: i64,
    timeout: i64,
    events: Seq<RunEvent>,
)
    requires
        wrapper matches Some(process) ==> i64::MIN <= now - process.heartbeat_at <= i64::MAX,
    ensures
        status == RunStatus::AwaitingIntegration ==> is_adoptable(
            status,
            wrapper,
            alive,
            now as int,
            timeout as int,
            events,
        ),
        status == RunStatus::NeedsSession && is_adoptable(
            status,
            wrapper,
            alive,
            now as int,
            timeout as int,
            events,
        ) ==> alive && (wrapper matches Some(process) && process.exited_at is None) && in_progress(
            events,
        ) is Some,
        (status == RunStatus::Running || status == RunStatus::Validating) && is_adoptable(
            status,
            wrapper,
            alive,
            now as int,
            timeout as int,
            events,
        ) && (forall|i: int| 0 <= i < events.len() ==> !(#[trigger] events[i]).is_kind(
            "resume_skipped"@,
        )) ==> (wrapper matches Some(process) && (process.exited_at is Some || (alive && now
            - process.heartbeat_at <= timeout))),
        (status == RunStatus::Running || status == RunStatus::Validating) && (
        wrapper matches Some(process) && (process.exited_at is Some || (alive && now
            - process.heartbeat_at <= timeout))) ==> is_adoptable(
            status,
            wrapper,
            alive,
            now as int,
            timeout as int,
            events,
        ),
        status != RunStatus::NeedsSession && status != RunStatus::AwaitingIntegration && status
            != RunStatus::Running && status != RunStatus::Validating ==> !is_adoptable(
            status,
            wrapper,
            alive,
            now as int,
            timeout as int,
            events,
        ),
{
    last_resume_is_last(events, events.len() as int);
}

/// A stale run that can be taken over is, where there is room or it only
/// waits; it goes on with what its status asks for, and is given up where it
/// could not be rebuilt.
pub proof fn a_stale_run_goes_on_where_it_was(
    wrapper: Option<RunProcess>,
    alive: bool,
    now: int,
    timeout: int,
    room: bool,
    seen: StaleSeen,
    r: StaleStep,
)
    requires
        takes_over(wrapper, alive, now, timeout, room, seen, r),
    ensures
        !seen.stale || !seen.adoptable ==> r is Next,
        r is Adopt <==> seen.stale && seen.adoptable && seen.as_waiting is Some && (
        seen.as_waiting->0 || room) && seen.adopted is None,
        r is AdoptReview || r is AdoptResume || r is Validate || r is Resume ==> seen.stale
            && seen.adoptable && seen.rebuilt is None && (seen.adopted matches Some(Some(run)) && (r
            is AdoptReview <==> run.status == RunStatus::AwaitingIntegration) && (r is AdoptResume
            <==> run.status == RunStatus::NeedsSession) && (r is Validate <==> run.status
            == RunStatus::Validating)),
        r matches StaleStep::Take { as_waiting } ==> seen.as_waiting == Some(as_waiting) && (
        seen.rebuilt matches Some(Ok(_))) && (seen.adopted matches Some(Some(run)) && (run.status
            == RunStatus::NeedsSession ==> seen.noted)),
        r is Abandon <==> seen.stale && seen.adoptable && seen.as_waiting is Some && (
        seen.as_waiting->0 || room) && (seen.adopted matches Some(Some(_))) && (
        seen.rebuilt matches Some(Err(_))),
{
}

/// A session is taken over with what its events recorded; a run that lacks its
/// receipt path, its workspace or its directory is not.
pub proof fn a_session_is_taken_over_as_recorded(
    run: &TaskRun,
    events: &Vec<RunEvent>,
    receipt_there: bool,
    stuck_asked: bool,
    r: Result<AdoptedSession, String>,
)
    requires
        call_ensures(adopt_session, (run, events, receipt_there, stuck_asked), r),
    ensures
        r is Ok <==> run.receipt_path is Some && run.workspace_id is Some && run.run_dir is Some,
        r matches Ok(session) ==> {
            &&& session.workspace@ == run.workspace_id->0@
            &&& session.run_dir@ == run.run_dir->0@
            &&& session.receipt_path@ == run.receipt_path->0@
            &&& session.receipt_seen ==> receipt_there
            &&& session.exit_requested <==> exists|i: int|
                0 <= i < events@.len() && (#[trigger] events@[i]).is_kind("exit_requested"@)
            &&& session.exit_timed_out <==> exists|i: int|
                0 <= i < events@.len() && (#[trigger] events@[i]).is_kind(
                    "exit_request_timed_out"@,
                )
            &&& session.exit_timed_out ==> session.exit_asked == stuck_asked
        },
{
    if r is Ok {
        crate::supervise::exit::the_latest_is_last(
            events@,
            "exit_requested"@,
            events@.len() as int,
        );
        crate::supervise::exit::the_latest_is_last(
            events@,
            "exit_request_timed_out"@,
            events@.len() as int,
        );
    }
}

/// A verdict is read back from its record as it was: a decision that is known,
/// its reasons and its summary, and nothing where one of them is not there.
pub proof fn a_recorded_verdict_is_read_back(payload: json::Value, r: Option<ReviewVerdict>)
    requires
        records(payload, r),
    ensures
        r matches Some(verdict) ==> {
            &&& json::at(payload, "verdict"@) == json::Value::Text(verdict.verdict.name())
            &&& json::at(payload, "summary"@) == json::Value::Text(verdict.summary@)
        },
        json::at(payload, "verdict"@) == json::Value::Text("pass"@) && json::texts_of(
            json::at(payload, "reasons"@),
        ) is Some && json::at(payload, "summary"@) is Text ==> (r matches Some(verdict)
            && verdict.verdict == ReviewDecision::Pass),
        json::at(payload, "verdict"@) == json::Value::Text("concern"@) && json::texts_of(
            json::at(payload, "reasons"@),
        ) is Some && json::at(payload, "summary"@) is Text ==> (r matches Some(verdict)
            && verdict.verdict == ReviewDecision::Concern),
        json::at(payload, "verdict"@) == json::Value::Text("revise"@) && json::texts_of(
            json::at(payload, "reasons"@),
        ) is Some && json::at(payload, "summary"@) is Text ==> (r matches Some(verdict)
            && verdict.verdict == ReviewDecision::Revise),
{
    reveal_strlit("pass");
    reveal_strlit("concern");
    reveal_strlit("revise");
    assert("pass"@.len() == 4);
    assert("concern"@.len() == 7);
    assert("revise"@.len() == 6);
}

/// A run taken over in its review lands only where it was approved, or where
/// its review passed, its conflicts were looked at without a question and its
/// session was asked to exit already; it is reviewed anew where nothing of its
/// review was recorded.
pub proof fn an_adopted_run_lands_only_after_a_pass(
    run: TaskRun,
    events: Seq<RunEvent>,
    at: usize,
    parked_by_recheck: bool,
    session: Option<SessionRef>,
    seen: ReviewSeen,
    r: ReviewStep,
)
    requires
        adopts_review(run, events, Some(at), parked_by_recheck, session, seen, r),
        at < events.len(),
        r is Exiting && r->next is Land,
    ensures
        ({
            ||| events[at as int].is_kind("validation_finished"@) && exists|i: int|
                0 <= i < events.len() && (#[trigger] events[i]).is_kind("integration_approved"@)
            ||| (events[at as int].is_kind("review_finished"@) || events[at as int].is_kind(
                "conflict_precheck"@,
            )) && exists|i: int|
                0 <= i < events.len() && (#[trigger] events[i]).id > events[at as int].id
                    && events[i].is_kind("exit_requested"@)
        }),
        events[at as int].is_kind("conflict_precheck"@) ==> json::at(
            events[at as int].payload@,
            "requested"@,
        ) != json::Value::Bool(true) && json::at(events[at as int].payload@, "asked"@) !is Text,
{
    reveal_strlit("validation_finished");
    reveal_strlit("review_finished");
    reveal_strlit("conflict_precheck");
    reveal_strlit("review_started");
    reveal_strlit("revise_requested");
    reveal_strlit("revise_unsent");
    crate::supervise::exit::the_latest_is_last(
        events,
        "integration_approved"@,
        events.len() as int,
    );
}

/// A review without a record, or one that had begun and not ended with a
/// question, is started anew; a fix is waited for only in a session that is
/// alive.
pub proof fn an_unrecorded_review_starts_anew(
    run: TaskRun,
    events: Seq<RunEvent>,
    anchor: Option<usize>,
    parked_by_recheck: bool,
    session: Option<SessionRef>,
    seen: ReviewSeen,
    r: ReviewStep,
)
    requires
        adopts_review(run, events, anchor, parked_by_recheck, session, seen, r),
    ensures
        anchor is None ==> r is StartReview,
        anchor is Some && events[anchor->0 as int].is_kind("review_started"@) && landing_ask(
            events,
            events[anchor->0 as int].id,
        ) is None ==> r is StartReview,
        r matches ReviewStep::Revise { live, .. } ==> session == Some(live) && seen.session_alive
            is Some && seen.session_alive->0,
        r matches ReviewStep::ReadAsk { id } ==> anchor is Some && landing_ask(
            events,
            events[anchor->0 as int].id,
        ) == Some(id as int) && seen.ask is None,
        r matches ReviewStep::Exiting { timed_out, exit_asked, .. } ==> (timed_out ==> seen.stuck_asked
            is Some && exit_asked == seen.stuck_asked->0) && (!timed_out ==> exit_asked),
{
}

/// A workspace counts as closed only by an event after its start that names it.
proof fn a_closing_names_its_workspace(
    events: Seq<RunEvent>,
    started: i64,
    workspace: Seq<char>,
    i: int,
)
    requires
        0 <= i < events.len(),
        events[i].id > started,
        events[i].kind@ == "workspace_closed"@,
        json::at(events[i].payload@, "workspace_id"@) == json::Value::Text(workspace),
    ensures
        closed_since(events, started, workspace),
{
    assert(events[i].is_kind("workspace_closed"@));
}

/// The session of a run is that of its last resume, where that ended in
/// validation and its workspace was not closed since, and its own workspace,
/// unless it is closed, where it was never resumed.
pub proof fn a_runs_session_is_its_latest(
    run: &TaskRun,
    events: &Vec<RunEvent>,
    r: Option<SessionRef>,
)
    requires
        call_ensures(session_of, (run, events), r),
    ensures
        last_resume_event(events@, events@.len() as int) is None ==> (r is Some
            <==> run.workspace_id is Some && !run.workspace_closed) && (r is Some
            ==> r->0.workspace == run.workspace_id->0 && r->0.resume is None),
        last_resume_event(events@, events@.len() as int) matches Some(i) ==> (r is Some ==> {
            &&& events@[i].kind@ == "resume_finished"@
            &&& json::at(events@[i].payload@, "workspace_id"@) == json::Value::Text(
                r->0.workspace@,
            )
            &&& r->0.resume is Some
            &&& forall|j: int|
                0 <= j < events@.len() && (#[trigger] events@[j]).id > events@[i].id
                    && events@[j].kind@ == "workspace_closed"@ ==> json::at(
                    events@[j].payload@,
                    "workspace_id"@,
                ) != json::Value::Text(r->0.workspace@)
        }),
{
    if let Some(i) = last_resume_event(events@, events@.len() as int) {
        if r is Some {
            assert forall|j: int|
                0 <= j < events@.len() && (#[trigger] events@[j]).id > events@[i].id
                    && events@[j].kind@ == "workspace_closed"@ implies json::at(
                events@[j].payload@,
                "workspace_id"@,
            ) != json::Value::Text(r->0.workspace@) by {
                if json::at(events@[j].payload@, "workspace_id"@) == json::Value::Text(
                    r->0.workspace@,
                ) {
                    a_closing_names_its_workspace(
                        events@,
                        events@[i].id,
                        r->0.workspace@,
                        j,
                    );
                }
            }
        }
    }
}

/// An adopted resume is recorded as the runtime's repair, with its attempt,
/// whether its request was sent, its workspace and the versions.
pub proof fn an_adopted_resume_is_recorded(
    workspace: &str,
    attempt: usize,
    request_sent: bool,
    version: &str,
    handoff: &Option<Handoff>,
    r: Json,
)
    requires
        call_ensures(note_resume_adopted, (workspace, attempt, request_sent, version, handoff), r),
    ensures
        r@ is Object && r@->Object_0.len() == 4,
        r@->Object_0[0] == ("layer"@, json::Value::Text("runtime"@)),
        r@->Object_0[1] == ("repair"@, json::Value::Text("resume_adopted"@)),
        r@->Object_0[2].0 == "conditions"@ && r@->Object_0[2].1 is Object,
        r@->Object_0[2].1->Object_0[0] == ("handoff"@, json::Value::Bool(*handoff is Some)),
        r@->Object_0[2].1->Object_0[1] == ("attempt"@, json::Value::Int(attempt as int)),
        r@->Object_0[2].1->Object_0[2] == ("request_sent"@, json::Value::Bool(request_sent)),
        r@->Object_0[3].0 == "detail"@ && r@->Object_0[3].1 is Object,
        r@->Object_0[3].1->Object_0[0] == ("workspace_id"@, json::Value::Text(workspace@)),
        r@->Object_0[3].1->Object_0[1] == ("version"@, json::Value::Text(version@)),
        *handoff is Some ==> r@->Object_0[3].1->Object_0.len() == 3,
        *handoff is None ==> r@->Object_0[3].1->Object_0.len() == 2,
{
}

} // verus!
