//! The recovery of failed and interrupted runs: dead runs recovered, the
//! recovery job of their alerts, its verdict, and the answers to the asks it
//! escalates to.

use crate::domain::{
    AskKind, Asker, NewAsk, ReasonCode, RunEvent, RunStatus, TaskRun, TaskStatus,
};
use crate::json;
use crate::json::{Fields, Json};
use crate::path;
use crate::supervise::exit::{find_latest, latest_of, merge_options, merged, Note};
use crate::supervise::recovery::{
    action_name, finished_base, int_or_null, job_failed, job_failed_payload, number_or_null, verdict_of,
    with_all, Confidence, Escalation, RecoveryAction, RecoveryAlert, RecoveryDecision, RecoveryVerdict,
};
use crate::supervise::resume::ResumeCount;
use crate::supervise::sweep::WorkspaceCloser;
use crate::text;
use vstd::prelude::*;
use vstd::string::*;

verus! {

/// A run that may have died.
#[derive(Debug, Clone, Copy, PartialEq, Eq, Structural)]
pub struct DeadLook {
    pub status: RunStatus,
    /// It has a lease; its process is there; another supervisor would adopt it.
    pub leased: bool,
    pub lease_alive: bool,
    pub adoptable: bool,
    /// No live process of it is left.
    pub recoverable: bool,
}

/// Whether a run is recovered: it does not land, nobody holds it or would take
/// it up, and nothing of it lives.
pub open spec fn is_dead(look: DeadLook) -> bool {
    look.status != RunStatus::Integrating && (!look.leased || (!look.lease_alive
        && !look.adoptable)) && look.recoverable
}

/// Recover an unfinished run whose wrapper exited or died and whose supervisor
/// is gone: what `run_recovered` records of its `health`; nothing where it is
/// not recovered. It goes to the triage, never straight to `ready`.
pub fn recover_dead_run(look: DeadLook, health: &Json) -> (r: Option<Json>)
    ensures
        match r {
            Some(report) => is_dead(look) && report@ == json::Value::Object(
                json::none().push(("run"@, health@)).push(
                    ("by"@, json::Value::Text("supervisor"@)),
                ),
            ),
            None => !is_dead(look),
        },
{
    if look.status == RunStatus::Integrating {
        return None;
    }
    if look.leased && (look.lease_alive || look.adoptable) {
        return None;
    }
    if !look.recoverable {
        return None;
    }
    Some(Fields::new().with("run", health.copy()).text("by", "supervisor").done())
}

/// An answered ask of a recovery job.
pub struct Answer {
    pub id: i64,
    pub run_id: Option<String>,
    pub answer: Option<String>,
    pub options: Vec<String>,
}

/// A run's task as its triage looks at it.
pub struct TaskState {
    pub status: TaskStatus,
    /// The task's latest run.
    pub latest: Option<String>,
}

/// Whether the task is still where the run left it.
pub open spec fn is_current(run: Seq<char>, task: TaskState) -> bool {
    task.status == TaskStatus::InProgress && (task.latest is None || task.latest->0@ == run)
}

/// Whether the task is still where the run left it.
fn current(run: &str, task: &TaskState) -> (r: bool)
    ensures
        r == is_current(run@, *task),
{
    if task.status != TaskStatus::InProgress {
        return false;
    }
    match &task.latest {
        Some(latest) => text::same(latest.as_str(), run),
        None => true,
    }
}

/// The text that the latest event of the kind has at `key`.
pub open spec fn latest_text(events: Seq<RunEvent>, kind: Seq<char>, key: Seq<char>) -> Option<
    Seq<char>,
> {
    match latest_of(events, kind, events.len() as int) {
        Some(event) => json::text_of(json::at(event.payload@, key)),
        None => None,
    }
}

/// The text that the latest event of the kind has at `key`.
fn find_text(events: &Vec<RunEvent>, kind: &str, key: &str) -> (r: Option<String>)
    ensures
        text::opt_view(r) == latest_text(events@, kind@, key@),
{
    match find_latest(events, kind) {
        Some(i) => events[i].payload.text(key),
        None => None,
    }
}

/// The reason that the round which asked recorded.
pub fn round_reason(events: &Vec<RunEvent>) -> (r: Option<String>)
    ensures
        text::opt_view(r) == latest_text(events@, "triage_finished"@, "reason"@),
{
    find_text(events, "triage_finished", "reason")
}

/// The session id that the round recorded for its job.
pub fn round_session(events: &Vec<RunEvent>) -> (r: Option<String>)
    ensures
        text::opt_view(r) == latest_text(events@, "triage_started"@, "session_id"@),
{
    find_text(events, "triage_started", "session_id")
}

/// The facts that a job for a run that ended is given: those of the latest
/// request, else the alert alone.
pub fn ended_facts(events: &Vec<RunEvent>, alert: RecoveryAlert) -> (r: Json)
    ensures
        r@ == (match latest_of(events@, "recovery_requested"@, events@.len() as int) {
            Some(event) => event.payload@,
            None => json::Value::Object(
                json::none().push(("alert"@, json::Value::Text(alert.name()))),
            ),
        }),
{
    match find_latest(events, "recovery_requested") {
        Some(i) => events[i].payload.copy(),
        None => Fields::new().text("alert", alert.as_str()).done(),
    }
}

/// What a job for a run that ended is told in place of a screen.
pub const ENDED_SCREEN: &'static str = "(the session is gone: its final screen is above)";

/// What such a job is told in place of processes, where no worktree is there.
pub const ENDED_NO_WORKTREE: &'static str = "the run has no worktree";

/// Where a job for a run that ended works, and what it is told of what the run
/// had.
pub struct EndedPlace {
    pub dir: String,
    pub workspace: String,
    /// The worktree whose processes are listed, where it is there.
    pub worktree: Option<String>,
}

/// Where a job for a run that ended works: the run's directory, else that of
/// its id under `runs_dir`.
pub fn ended_place(run: &TaskRun, runs_dir: &str, worktree_there: bool) -> (r: EndedPlace)
    ensures
        r.dir@ == (match run.run_dir {
            Some(dir) => dir@,
            None => path::under(runs_dir@, run.id@),
        }),
        r.workspace@ == (match run.workspace_id {
            Some(id) => id@,
            None => "none"@,
        }),
        r.worktree == (if worktree_there {
            run.worktree_path
        } else {
            None
        }),
{
    EndedPlace {
        dir: match &run.run_dir {
            Some(dir) => dir.clone(),
            None => path::join_path(runs_dir, run.id.as_str()),
        },
        workspace: match &run.workspace_id {
            Some(id) => id.clone(),
            None => "none".to_owned(),
        },
        worktree: if worktree_there {
            crate::domain::same_text(&run.worktree_path)
        } else {
            None
        },
    }
}

/// What has been done and observed of an answered ask.
#[derive(Default)]
pub struct AnswerSeen {
    pub run: Option<TaskRun>,
    pub leased: Option<bool>,
    pub task: Option<TaskState>,
    pub closed: bool,
    /// The reason of the round that asked.
    pub reason: Option<Option<String>>,
    pub decided: bool,
}

/// What applying an answered ask does next.
pub enum AnswerStep {
    ReadRun { run: String },
    Leased,
    ShowTask,
    /// The task moved on without it.
    CloseAsk,
    RoundReason,
    /// Apply the answer with this reason; what it left is cleaned after.
    Decide { answer: String, reason: String },
    Next,
}

/// The answer a person gave.
pub open spec fn given(answer: Option<String>) -> Seq<char> {
    text::trimmed(
        match answer {
            Some(answer) => answer@,
            None => ""@,
        },
    )
}

/// The reason an answer is applied with.
pub open spec fn decided_reason(
    run: TaskRun,
    reason: Option<String>,
    answer: Seq<char>,
    ask: i64,
) -> Seq<char> {
    (match reason {
        Some(reason) => reason@,
        None => match run.last_error {
            Some(error) => error@,
            None => ""@,
        },
    }) + " (a person chose "@ + answer + " in ask "@ + text::signed(ask as int) + ")"@
}

/// What applying an answered ask comes to.
pub open spec fn answers(ask: Answer, seen: AnswerSeen, r: AnswerStep) -> bool {
    let answer = given(ask.answer);
    if ask.run_id is None {
        r is Next
    } else if seen.run is None {
        r == (AnswerStep::ReadRun { run: ask.run_id->0 })
    } else if !text::views(ask.options@).contains(answer) || (seen.run->0.status
        != RunStatus::Failed && seen.run->0.status != RunStatus::Interrupted) {
        r is Next
    } else if seen.leased is None {
        r is Leased
    } else if seen.leased->0 {
        r is Next
    } else if seen.task is None {
        r is ShowTask
    } else if !is_current(seen.run->0.id@, seen.task->0) {
        if !seen.closed {
            r is CloseAsk
        } else {
            r is Next
        }
    } else if seen.reason is None {
        r is RoundReason
    } else if !seen.decided {
        r matches AnswerStep::Decide { answer: said, reason } && said@ == answer && reason@
            == decided_reason(seen.run->0, seen.reason->0, answer, ask.id)
    } else {
        r is Next
    }
}

/// Apply an answered ask of the recovery job to its failed or interrupted run
/// that nobody leases: only an option the ask offered. One whose task moved on
/// has nothing left to apply and is closed. A free answer is a person's to
/// read.
pub fn apply_triage_answer(ask: &Answer, seen: &AnswerSeen) -> (r: AnswerStep)
    ensures
        answers(*ask, *seen, r),
{
    let run_id = match &ask.run_id {
        None => return AnswerStep::Next,
        Some(run_id) => run_id,
    };
    let run = match &seen.run {
        None => return AnswerStep::ReadRun { run: run_id.clone() },
        Some(run) => run,
    };
    let answer = match &ask.answer {
        Some(answer) => text::trim(answer.as_str()),
        None => text::trim(""),
    };
    if !text::lists(&ask.options, answer.as_str()) || (run.status != RunStatus::Failed && run.status
        != RunStatus::Interrupted) {
        return AnswerStep::Next;
    }
    match seen.leased {
        None => return AnswerStep::Leased,
        Some(leased) => if leased {
            return AnswerStep::Next;
        },
    }
    let task = match &seen.task {
        None => return AnswerStep::ShowTask,
        Some(task) => task,
    };
    if !current(run.id.as_str(), task) {
        return if !seen.closed {
            AnswerStep::CloseAsk
        } else {
            AnswerStep::Next
        };
    }
    let reason = match &seen.reason {
        None => return AnswerStep::RoundReason,
        Some(reason) => reason,
    };
    if seen.decided {
        return AnswerStep::Next;
    }
    let base = match reason {
        Some(reason) => reason.clone(),
        None => match &run.last_error {
            Some(error) => error.clone(),
            None => "".to_owned(),
        },
    };
    let id = text::integer(ask.id);
    let reason = base.concat(" (a person chose ").concat(answer.as_str()).concat(
        " in ask ",
    ).concat(id.as_str()).concat(")");
    AnswerStep::Decide { answer, reason }
}

/// An answer is applied only where the ask offered it, to a run that ended and
/// that nobody leases.
pub proof fn only_an_offered_answer_is_applied(ask: Answer, seen: AnswerSeen, r: AnswerStep)
    requires
        answers(ask, seen, r),
        r is Decide,
    ensures
        text::views(ask.options@).contains(r->answer@),
        seen.leased == Some(false),
        seen.run->0.status == RunStatus::Failed || seen.run->0.status == RunStatus::Interrupted,
        is_current(seen.run->0.id@, seen.task->0),
{
}

/// How a run's triage stands.
#[derive(Debug, Clone, Copy, PartialEq, Eq, Structural)]
pub enum TriageState {
    Pending,
    Waiting { until: i64 },
    Failed,
    Finished,
}

/// A run that may be triaged, as its events tell.
#[derive(Debug, Clone, Copy, PartialEq, Eq, Structural)]
pub struct TriageLook {
    pub state: TriageState,
    /// It has a lease that is not stale.
    pub leased: bool,
    /// A request is recorded that no round took.
    pub pending: bool,
    pub alert: RecoveryAlert,
    /// How many jobs the alert got.
    pub done: usize,
}

/// What has been done and observed of a run that is triaged.
#[derive(Default)]
pub struct TriageSeen {
    /// The cleanup job is to clear its worktree.
    pub cleaning: Option<bool>,
    /// The round, where it began.
    pub begun: Option<Option<usize>>,
    /// What putting a used-up alert to a person gave.
    pub escalated: Option<Result<(), String>>,
    pub spawned: Option<Result<(), String>>,
    pub failure_recorded: bool,
}

/// What triaging a run does next.
pub enum TriageStep {
    Next,
    /// No slot is free.
    Stop,
    Cleaning,
    /// Another pass takes it, once the cleanup is done.
    Defer,
    /// Begin a round; where none is pending and the alert has jobs left, the
    /// round records a request of its own for this attempt.
    Begin { request: Option<usize> },
    /// The alert got its jobs already: a person is asked.
    EscalateUsedUp { round: usize, used: usize },
    Spawn { round: usize, attempt: usize },
    FailRecovery { round: usize, attempt: usize, error: String },
    /// The run takes a slot.
    Take,
    NoteTriaged,
}

/// The attempt of a round.
pub open spec fn attempt_of(look: TriageLook) -> int {
    if look.pending {
        look.done as int
    } else {
        look.done + 1
    }
}

/// The attempt that a round's own request names, if it makes one.
pub open spec fn request_of(look: TriageLook, limit: usize) -> Option<int> {
    if look.pending || look.done >= limit {
        None
    } else {
        Some(look.done + 1)
    }
}

/// Whether a run is due for a round.
pub open spec fn is_due(look: TriageLook, now: i64) -> bool {
    match look.state {
        TriageState::Pending => true,
        TriageState::Waiting { until } => until <= now,
        _ => false,
    }
}

/// What triaging a run comes to.
pub open spec fn triages(
    look: TriageLook,
    room: bool,
    limit: usize,
    now: i64,
    seen: TriageSeen,
    r: TriageStep,
) -> bool {
    let attempt = attempt_of(look);
    if !room {
        r is Stop
    } else if !is_due(look, now) || look.leased {
        r is Next
    } else if seen.cleaning is None {
        r is Cleaning
    } else if seen.cleaning->0 {
        r is Defer
    } else if seen.begun is None {
        r matches TriageStep::Begin { request } && (match request {
            Some(n) => request_of(look, limit) == Some(n as int),
            None => request_of(look, limit) is None,
        })
    } else if seen.begun->0 is None {
        r is Next
    } else {
        let round = seen.begun->0->0;
        if attempt > limit {
            match seen.escalated {
                None => r matches TriageStep::EscalateUsedUp { round: n, used } && n == round && used
                    == attempt - 1,
                Some(Ok(_)) => r is NoteTriaged,
                Some(Err(error)) => if !seen.failure_recorded {
                    r matches TriageStep::FailRecovery { round: n, attempt: a, error: why } && n
                        == round && a == attempt - 1 && why == error
                } else {
                    r is NoteTriaged
                },
            }
        } else {
            match seen.spawned {
                None => r matches TriageStep::Spawn { round: n, attempt: a } && n == round && a
                    == attempt,
                Some(Ok(_)) => r is Take,
                Some(Err(error)) => if !seen.failure_recorded {
                    r matches TriageStep::FailRecovery { round: n, attempt: a, error: why } && n
                        == round && a == attempt && why@ == "the recovery job could not start: "@
                        + error@
                } else {
                    r is NoteTriaged
                },
            }
        }
    }
}

/// Start the recovery job of a failed or interrupted run that no round took
/// since its last resume, or whose round's `wait` is over. A run someone leases
/// waits. An alert that got its jobs is put to a person without one, and a job
/// that cannot even start fails its round right away.
pub fn triage_run(
    look: TriageLook,
    room: bool,
    limit: usize,
    now: i64,
    seen: &TriageSeen,
) -> (r: TriageStep)
    requires
        look.done < usize::MAX,
    ensures
        triages(look, room, limit, now, *seen, r),
{
    if !room {
        return TriageStep::Stop;
    }
    let due = match look.state {
        TriageState::Pending => true,
        TriageState::Waiting { until } => until <= now,
        TriageState::Failed => false,
        TriageState::Finished => false,
    };
    if !due || look.leased {
        return TriageStep::Next;
    }
    let attempt: usize = if look.pending {
        look.done
    } else {
        look.done + 1
    };
    match seen.cleaning {
        None => return TriageStep::Cleaning,
        Some(cleaning) => if cleaning {
            return TriageStep::Defer;
        },
    }
    let round: usize = match seen.begun {
        None => {
            let request: Option<usize> = if look.pending || look.done >= limit {
                None
            } else {
                Some(look.done + 1)
            };
            return TriageStep::Begin { request };
        },
        Some(None) => return TriageStep::Next,
        Some(Some(round)) => round,
    };
    if attempt > limit {
        return match &seen.escalated {
            None => TriageStep::EscalateUsedUp { round, used: attempt - 1 },
            Some(Ok(_)) => TriageStep::NoteTriaged,
            Some(Err(error)) => if !seen.failure_recorded {
                TriageStep::FailRecovery { round, attempt: attempt - 1, error: error.clone() }
            } else {
                TriageStep::NoteTriaged
            },
        };
    }
    match &seen.spawned {
        None => TriageStep::Spawn { round, attempt },
        Some(Ok(_)) => TriageStep::Take,
        Some(Err(error)) => if !seen.failure_recorded {
            TriageStep::FailRecovery {
                round,
                attempt,
                error: "the recovery job could not start: ".to_owned().concat(error.as_str()),
            }
        } else {
            TriageStep::NoteTriaged
        },
    }
}

/// An alert never gets more than its jobs: past them it goes to a person
/// without one.
pub proof fn a_used_up_alert_gets_no_job(
    look: TriageLook,
    room: bool,
    limit: usize,
    now: i64,
    seen: TriageSeen,
    r: TriageStep,
)
    requires
        triages(look, room, limit, now, seen, r),
        r is Spawn,
    ensures
        r->Spawn_attempt <= limit,
        is_due(look, now),
        !look.leased,
        seen.cleaning == Some(false),
{
}

/// The place of the last of the first `n` events whose payload has the status.
pub open spec fn last_status(events: Seq<RunEvent>, status: Seq<char>, n: int) -> Option<int>
    decreases n,
{
    if n <= 0 || n > events.len() {
        None
    } else if json::at(events[n - 1].payload@, "status"@) == json::Value::Text(status) {
        Some(n - 1)
    } else {
        last_status(events, status, n - 1)
    }
}

/// The place of a person's choice of one of the last job's own options, among
/// the first `n` events and after the last round began.
pub open spec fn last_choice(events: Seq<RunEvent>, recover_again: Seq<char>, n: int) -> Option<int>
    decreases n,
{
    if n <= 0 || n > events.len() || events[n - 1].is_kind("triage_started"@) {
        None
    } else if events[n - 1].is_kind("triage_decided"@) && json::at(
        events[n - 1].payload@,
        "action"@,
    ) == json::Value::Text(recover_again) {
        Some(n - 1)
    } else {
        last_choice(events, recover_again, n - 1)
    }
}

/// What a round's own request records.
pub open spec fn request_payload(
    alert: RecoveryAlert,
    attempt: usize,
    run: TaskRun,
    events: Seq<RunEvent>,
    recover_again: Seq<char>,
) -> json::Value {
    let n = events.len() as int;
    let base = json::none().push(("alert"@, json::Value::Text(alert.name()))).push(
        ("attempt"@, json::Value::Int(attempt as int)),
    ).push(("status"@, json::Value::Text(run.status.name()))).push(
        (
            "evidence"@,
            json::Value::List(
                match last_status(events, run.status.name(), n) {
                    Some(i) => seq![json::Value::Int(events[i].id as int)],
                    None => Seq::empty(),
                },
            ),
        ),
    ).push(("last_error"@, json::text_or_null(text::opt_view(run.last_error))));
    json::Value::Object(
        match last_choice(events, recover_again, n) {
            Some(i) => base.push(
                (
                    "person_answer"@,
                    json::Value::Object(
                        json::none().push(
                            ("ask_id"@, json::at(events[i].payload@, "ask_id"@)),
                        ).push(("answer"@, json::at(events[i].payload@, "answer"@))),
                    ),
                ),
            ),
            None => base,
        },
    )
}

/// The value of `key`, or nothing.
fn value_at(payload: &Json, key: &str) -> (r: Json)
    ensures
        r@ == json::at(payload@, key@),
{
    match payload.get(key) {
        Some(value) => value.copy(),
        None => Json::Null,
    }
}

/// What a round's own request records: the event that ended the run, and what
/// a person chose of the last job's own options. `recover_again` is the action
/// such a choice is recorded as.
pub fn round_request(
    alert: RecoveryAlert,
    attempt: usize,
    run: &TaskRun,
    events: &Vec<RunEvent>,
    recover_again: &str,
) -> (r: Json)
    ensures
        r@ == request_payload(alert, attempt, *run, events@, recover_again@),
{
    let mut ids: Vec<Json> = Vec::new();
    assert(json::items_view(ids@) =~= Seq::empty());
    let mut n: usize = events.len();
    let mut found = false;
    while n > 0 && !found
        invariant
            n <= events@.len(),
            found ==> n < events@.len() && last_status(
                events@,
                run.status.name(),
                events@.len() as int,
            ) == Some(n as int),
            !found ==> last_status(events@, run.status.name(), events@.len() as int) == last_status(
                events@,
                run.status.name(),
                n as int,
            ),
        decreases n,
    {
        n -= 1;
        found = events[n].payload.says("status", run.status.as_str());
    }
    if found {
        let id: i64 = events[n].id;
        let ghost had = ids@;
        ids.push(Json::Int(id as i128));
        assert(ids@.drop_last() =~= had);
        assert(ids@.last().view() == json::Value::Int(id as int));
        assert(json::items_view(ids@) =~= json::items_view(had).push(
            json::Value::Int(id as int),
        ));
        assert(json::items_view(ids@) =~= seq![json::Value::Int(id as int)]);
    }
    let base = Fields::new().text("alert", alert.as_str()).number(
        "attempt",
        attempt as i128,
    ).text("status", run.status.as_str()).with("evidence", Json::List(ids)).opt_text(
        "last_error",
        &run.last_error,
    );
    let mut n: usize = events.len();
    let mut chosen: Option<usize> = None;
    let mut over = false;
    while n > 0 && !over
        invariant
            n <= events@.len(),
            !over ==> chosen is None && last_choice(
                events@,
                recover_again@,
                events@.len() as int,
            ) == last_choice(events@, recover_again@, n as int),
            over ==> (match chosen {
                Some(i) => i < events@.len() && last_choice(
                    events@,
                    recover_again@,
                    events@.len() as int,
                ) == Some(i as int),
                None => last_choice(events@, recover_again@, events@.len() as int) is None,
            }),
        decreases n,
    {
        n -= 1;
        if events[n].of_kind("triage_started") {
            over = true;
        } else if events[n].of_kind("triage_decided") && events[n].payload.says(
            "action",
            recover_again,
        ) {
            chosen = Some(n);
            over = true;
        }
    }
    match chosen {
        Some(i) => {
            let answer = Fields::new().with("ask_id", value_at(&events[i].payload, "ask_id")).with(
                "answer",
                value_at(&events[i].payload, "answer"),
            ).done();
            base.with("person_answer", answer).done()
        },
        None => base.done(),
    }
}

/// What a recovery does to a run that ended.
pub enum TriageAction {
    Retry,
    RetryInherit { branch: Option<String>, head: String },
    Resume { instruction: String },
    Wait { recheck_at: i64 },
}

/// Whether a run of the status counts as a failure of its task.
pub open spec fn is_failure(status: RunStatus) -> bool {
    status == RunStatus::Failed || status == RunStatus::Interrupted
}

/// How many of a task's runs failed or were interrupted.
pub fn failures(runs: &Vec<RunStatus>) -> (r: usize)
    ensures
        r == runs@.filter(|status: RunStatus| is_failure(status)).len(),
{
    let mut count: usize = 0;
    let mut i: usize = 0;
    let ghost counts = |status: RunStatus| is_failure(status);
    assert(runs@.subrange(0, 0).filter(counts) =~= Seq::empty()) by {
        reveal(Seq::filter);
    }
    while i < runs.len()
        invariant
            i <= runs@.len(),
            count <= i,
            counts == (|status: RunStatus| is_failure(status)),
            count == runs@.subrange(0, i as int).filter(counts).len(),
        decreases runs@.len() - i,
    {
        assert(runs@.subrange(0, i + 1).drop_last() =~= runs@.subrange(0, i as int));
        assert(runs@.subrange(0, i + 1).last() == runs@[i as int]);
        reveal(Seq::filter);
        if runs[i] == RunStatus::Failed || runs[i] == RunStatus::Interrupted {
            count += 1;
        }
        i += 1;
    }
    assert(runs@.subrange(0, runs@.len() as int) =~= runs@);
    count
}

/// What has been observed of a run whose recovery is planned. What cannot be
/// read is said as it is.
#[derive(Default)]
pub struct PlanSeen {
    /// How many runs of the task failed or were interrupted.
    pub failures: Option<Result<usize, String>>,
    /// The run's branch holds commits of its own.
    pub own_commits: Option<Result<bool, String>>,
    /// The task was retried with a branch carried over before.
    pub inherited_before: Option<Result<bool, String>>,
    /// The commit a retry carries over.
    pub inherited: Option<Result<Option<String>, String>>,
    pub resumes: Option<Result<ResumeCount, String>>,
    /// The resumes are used up.
    pub exhausted: bool,
    /// The worktree is there.
    pub worktree_there: Option<bool>,
}

/// What planning a recovery does next, or what it came to.
pub enum PlanStep {
    Failures,
    OwnCommits,
    InheritedBefore,
    InheritedHead,
    Resumes,
    WorktreeThere { worktree: String },
    /// The action does not hold now.
    Refused(String),
    Planned { action: TriageAction, conditions: Json },
}

/// The planned retry from scratch.
pub open spec fn plans_retry(
    run: TaskRun,
    failure_limit: usize,
    seen: PlanSeen,
    r: PlanStep,
) -> bool {
    match seen.failures {
        None => r is Failures,
        Some(Err(error)) => r == PlanStep::Refused(error),
        Some(Ok(failures)) => if failures >= failure_limit {
            r matches PlanStep::Refused(why) && why@ == "task "@ + text::signed(
                run.task_id as int,
            ) + " has "@ + text::decimal(failures as nat)
                + " failed or interrupted runs, so it is not retried without a person"@
        } else {
            match seen.own_commits {
                None => r is OwnCommits,
                Some(Err(error)) => r matches PlanStep::Refused(why) && why@
                    == "whether its branch holds commits could not be read: "@ + error@,
                Some(Ok(true)) => r matches PlanStep::Refused(why) && why@
                    == "its branch holds commits of its own, which a retry from scratch would throw away (retry_inherit carries them over; throwing them away is a person's call)"@,
                Some(Ok(false)) => r matches PlanStep::Planned { action, conditions } && action
                    is Retry && conditions@ == json::Value::Object(
                    json::none().push(("failures"@, json::Value::Int(failures as int))).push(
                        ("own_commits"@, json::Value::Bool(false)),
                    ),
                ),
            }
        },
    }
}

/// The planned retry with the branch carried over.
pub open spec fn plans_inherit(run: TaskRun, seen: PlanSeen, r: PlanStep) -> bool {
    match seen.inherited_before {
        None => r is InheritedBefore,
        Some(Err(error)) => r == PlanStep::Refused(error),
        Some(Ok(true)) => r matches PlanStep::Refused(why) && why@ == "task "@ + text::signed(
            run.task_id as int,
        ) + " was retried with a branch carried over already (once per task)"@,
        Some(Ok(false)) => match seen.own_commits {
            None => r is OwnCommits,
            Some(Err(error)) => r matches PlanStep::Refused(why) && why@
                == "whether its branch holds commits could not be read: "@ + error@,
            Some(Ok(own)) => match seen.inherited {
                None => r is InheritedHead,
                Some(Err(error)) => r matches PlanStep::Refused(why) && why@
                    == "its branch could not be kept for a retry: "@ + error@,
                Some(Ok(head)) => if own && head is Some {
                    r matches PlanStep::Planned { action, conditions } && action
                        == (TriageAction::RetryInherit { branch: run.branch, head: head->0 })
                        && conditions@ == json::Value::Object(
                        json::none().push(("own_commits"@, json::Value::Bool(true))).push(
                            ("branch"@, json::text_or_null(text::opt_view(run.branch))),
                        ).push(("head"@, json::Value::Text(head->0@))).push(
                            ("first_in_task"@, json::Value::Bool(true)),
                        ),
                    )
                } else {
                    r matches PlanStep::Refused(why) && why@
                        == "its branch holds no commit of its own to carry over"@
                },
            },
        },
    }
}

/// The planned resume.
pub open spec fn plans_resume(
    run: TaskRun,
    verdict: RecoveryVerdict,
    instruction: Seq<char>,
    seen: PlanSeen,
    r: PlanStep,
) -> bool {
    match seen.resumes {
        None => r is Resumes,
        Some(Err(error)) => r == PlanStep::Refused(error),
        Some(Ok(resumes)) => if seen.exhausted {
            r matches PlanStep::Refused(why) && why@ == "its resumes are used up ("@
                + text::decimal(resumes.counted as nat) + " counted of at most "@ + text::decimal(
                resumes.counted_limit as nat,
            ) + ", "@ + text::decimal(resumes.conflict_only as nat) + " after conflicts only)"@
        } else if run.worktree_path is Some && seen.worktree_there is None {
            r == (PlanStep::WorktreeThere { worktree: run.worktree_path->0 })
        } else if run.worktree_path is None || !seen.worktree_there->0 || run.receipt_path is None {
            r matches PlanStep::Refused(why) && why@
                == "the run has no worktree a session could resume in"@
        } else {
            r matches PlanStep::Planned { action, conditions } && (action matches TriageAction::Resume {
                instruction: said,
            } && said@ == (if text::trimmed(instruction).len() == 0 {
                verdict.diagnosis@
            } else {
                text::trimmed(instruction)
            })) && conditions@ == json::Value::Object(
                json::none().push(
                    ("counted_resumes"@, json::Value::Int(resumes.counted as int)),
                ).push(
                    ("resumes"@, json::Value::Int(resumes.counted + resumes.conflict_only)),
                ).push(("worktree"@, json::Value::Bool(true))),
            )
        },
    }
}

/// The seconds a wait holds at most.
pub open spec fn wait_secs(asked: u64, most: u64) -> u64 {
    if asked < most {
        asked
    } else {
        most
    }
}

/// What a wait adds to the clock.
pub open spec fn wait_added(asked: u64, most: u64) -> int {
    if wait_secs(asked, most) <= i64::MAX {
        wait_secs(asked, most) as int
    } else {
        0
    }
}

/// Whether the end of a wait is in the clock's range.
pub open spec fn wait_in_range(verdict: RecoveryVerdict, most: u64, now: i64) -> bool {
    match verdict.actions@[0] {
        RecoveryAction::Wait { recheck_after_secs } => now + wait_added(recheck_after_secs, most)
            <= i64::MAX,
        _ => true,
    }
}

/// What planning a recovery comes to.
pub open spec fn plans(
    run: TaskRun,
    verdict: RecoveryVerdict,
    allowed: Seq<Seq<char>>,
    failure_limit: usize,
    most: u64,
    now: i64,
    seen: PlanSeen,
    r: PlanStep,
) -> bool {
    let actions = verdict.actions@;
    if actions.len() != 1 {
        r matches PlanStep::Refused(why) && why@ == "a run that ended takes exactly one action of "@
            + text::joined(allowed, ", "@) + ", not "@ + text::joined(
            Seq::new(actions.len(), |i: int| action_name(actions[i])),
            ", "@,
        )
    } else {
        match actions[0] {
            RecoveryAction::Retry => plans_retry(run, failure_limit, seen, r),
            RecoveryAction::RetryInherit => plans_inherit(run, seen, r),
            RecoveryAction::Resume { instruction } => plans_resume(
                run,
                verdict,
                instruction@,
                seen,
                r,
            ),
            RecoveryAction::Wait { recheck_after_secs } => {
                let secs = wait_secs(recheck_after_secs, most);
                r matches PlanStep::Planned { action, conditions } && (action matches TriageAction::Wait {
                    recheck_at,
                } && recheck_at == now + wait_added(recheck_after_secs, most)) && conditions@ == json::Value::Object(
                    json::none().push(("recheck_after_secs"@, json::Value::Int(secs as int))),
                )
            },
            _ => r matches PlanStep::Refused(why) && why@ == action_name(actions[0])
                + " does not apply to a run that ended: its session is gone (allowed: "@
                + text::joined(allowed, ", "@) + ")"@,
        }
    }
}

/// Plan a retry from scratch.
fn plan_retry(run: &TaskRun, failure_limit: usize, seen: &PlanSeen) -> (r: PlanStep)
    ensures
        plans_retry(*run, failure_limit, *seen, r),
{
    let failures: usize = match &seen.failures {
        None => return PlanStep::Failures,
        Some(Err(error)) => return PlanStep::Refused(error.clone()),
        Some(Ok(failures)) => *failures,
    };
    if failures >= failure_limit {
        let id = text::integer(run.task_id);
        let n = text::number(failures as u64);
        return PlanStep::Refused(
            "task ".to_owned().concat(id.as_str()).concat(" has ").concat(n.as_str()).concat(
                " failed or interrupted runs, so it is not retried without a person",
            ),
        );
    }
    match &seen.own_commits {
        None => PlanStep::OwnCommits,
        Some(Err(error)) => PlanStep::Refused(
            "whether its branch holds commits could not be read: ".to_owned().concat(
                error.as_str(),
            ),
        ),
        Some(Ok(own)) => if *own {
            PlanStep::Refused(
                "its branch holds commits of its own, which a retry from scratch would throw away (retry_inherit carries them over; throwing them away is a person's call)".to_owned(),
            )
        } else {
            PlanStep::Planned {
                action: TriageAction::Retry,
                conditions: Fields::new().number("failures", failures as i128).flag(
                    "own_commits",
                    false,
                ).done(),
            }
        },
    }
}

/// Plan a retry with the branch carried over.
fn plan_inherit(run: &TaskRun, seen: &PlanSeen) -> (r: PlanStep)
    ensures
        plans_inherit(*run, *seen, r),
{
    match &seen.inherited_before {
        None => return PlanStep::InheritedBefore,
        Some(Err(error)) => return PlanStep::Refused(error.clone()),
        Some(Ok(before)) => if *before {
            let id = text::integer(run.task_id);
            return PlanStep::Refused(
                "task ".to_owned().concat(id.as_str()).concat(
                    " was retried with a branch carried over already (once per task)",
                ),
            );
        },
    }
    let own = match &seen.own_commits {
        None => return PlanStep::OwnCommits,
        Some(Err(error)) => {
            return PlanStep::Refused(
                "whether its branch holds commits could not be read: ".to_owned().concat(
                    error.as_str(),
                ),
            );
        },
        Some(Ok(own)) => *own,
    };
    match &seen.inherited {
        None => PlanStep::InheritedHead,
        Some(Err(error)) => PlanStep::Refused(
            "its branch could not be kept for a retry: ".to_owned().concat(error.as_str()),
        ),
        Some(Ok(head)) => {
            if own {
                if let Some(head) = head {
                    let conditions = Fields::new().flag("own_commits", true).opt_text(
                        "branch",
                        &run.branch,
                    ).text("head", head.as_str()).flag("first_in_task", true).done();
                    return PlanStep::Planned {
                        action: TriageAction::RetryInherit {
                            branch: crate::domain::same_text(&run.branch),
                            head: head.clone(),
                        },
                        conditions,
                    };
                }
            }
            PlanStep::Refused("its branch holds no commit of its own to carry over".to_owned())
        },
    }
}

/// Plan a resume.
fn plan_resume(
    run: &TaskRun,
    verdict: &RecoveryVerdict,
    instruction: &str,
    seen: &PlanSeen,
) -> (r: PlanStep)
    ensures
        plans_resume(*run, *verdict, instruction@, *seen, r),
{
    let resumes: ResumeCount = match &seen.resumes {
        None => return PlanStep::Resumes,
        Some(Err(error)) => return PlanStep::Refused(error.clone()),
        Some(Ok(resumes)) => *resumes,
    };
    if seen.exhausted {
        let counted = text::number(resumes.counted as u64);
        let limit = text::number(resumes.counted_limit as u64);
        let conflicts = text::number(resumes.conflict_only as u64);
        return PlanStep::Refused(
            "its resumes are used up (".to_owned().concat(counted.as_str()).concat(
                " counted of at most ",
            ).concat(limit.as_str()).concat(", ").concat(conflicts.as_str()).concat(
                " after conflicts only)",
            ),
        );
    }
    let there = match &run.worktree_path {
        None => false,
        Some(worktree) => match seen.worktree_there {
            None => return PlanStep::WorktreeThere { worktree: worktree.clone() },
            Some(there) => there,
        },
    };
    if !there || run.receipt_path.is_none() {
        return PlanStep::Refused(
            "the run has no worktree a session could resume in".to_owned(),
        );
    }
    let said = if text::blank(instruction) {
        verdict.diagnosis.clone()
    } else {
        text::trim(instruction)
    };
    let conditions = Fields::new().number("counted_resumes", resumes.counted as i128).number(
        "resumes",
        resumes.counted as i128 + resumes.conflict_only as i128,
    ).flag("worktree", true).done();
    PlanStep::Planned { action: TriageAction::Resume { instruction: said }, conditions }
}

/// The names of the actions.
fn names(actions: &Vec<RecoveryAction>) -> (r: Vec<String>)
    ensures
        text::views(r@) == Seq::new(actions@.len(), |i: int| action_name(actions@[i])),
{
    let mut out: Vec<String> = Vec::new();
    let mut i: usize = 0;
    while i < actions.len()
        invariant
            i <= actions@.len(),
            out@.len() == i,
            forall|j: int| 0 <= j < i ==> (#[trigger] out@[j])@ == action_name(actions@[j]),
        decreases actions@.len() - i,
    {
        out.push(actions[i].name().to_owned());
        i += 1;
    }
    assert(text::views(out@) =~= Seq::new(actions@.len(), |i: int| action_name(actions@[i])));
    out
}

/// The action of a repair for a run that ended, once its preconditions hold
/// now, with the values checked: exactly one of those allowed; a retry only of
/// a run whose branch holds no commit of its own and a task that did not fail
/// too often, one with the branch carried over only with commits and once per
/// task, a resume only with resumes left and a worktree, a wait for at most
/// `most` seconds.
pub fn plan_ended(
    run: &TaskRun,
    verdict: &RecoveryVerdict,
    allowed: &Vec<String>,
    failure_limit: usize,
    most: u64,
    now: i64,
    seen: &PlanSeen,
) -> (r: PlanStep)
    requires
        verdict.actions@.len() == 1 ==> wait_in_range(*verdict, most, now),
    ensures
        plans(*run, *verdict, text::views(allowed@), failure_limit, most, now, *seen, r),
{
    if verdict.actions.len() != 1 {
        let all = text::join(allowed, ", ");
        let listed = names(&verdict.actions);
        let chosen = text::join(&listed, ", ");
        return PlanStep::Refused(
            "a run that ended takes exactly one action of ".to_owned().concat(
                all.as_str(),
            ).concat(", not ").concat(chosen.as_str()),
        );
    }
    match &verdict.actions[0] {
        RecoveryAction::Retry => plan_retry(run, failure_limit, seen),
        RecoveryAction::RetryInherit => plan_inherit(run, seen),
        RecoveryAction::Resume { instruction } => plan_resume(
            run,
            verdict,
            instruction.as_str(),
            seen,
        ),
        RecoveryAction::Wait { recheck_after_secs } => {
            let secs: u64 = if *recheck_after_secs < most {
                *recheck_after_secs
            } else {
                most
            };
            let added: i64 = if secs <= i64::MAX as u64 {
                secs as i64
            } else {
                0
            };
            let recheck_at: i64 = now + added;
            PlanStep::Planned {
                action: TriageAction::Wait { recheck_at },
                conditions: Fields::new().number("recheck_after_secs", secs as i128).done(),
            }
        },
        other => {
            let all = text::join(allowed, ", ");
            PlanStep::Refused(
                other.name().to_owned().concat(
                    " does not apply to a run that ended: its session is gone (allowed: ",
                ).concat(all.as_str()).concat(")"),
            )
        },
    }
}

/// No retry throws a run's own commits away: one from scratch is planned only
/// where its branch holds none, and one with the branch carried over only where
/// it holds some, kept.
pub proof fn no_retry_throws_commits_away(
    run: TaskRun,
    verdict: RecoveryVerdict,
    allowed: Seq<Seq<char>>,
    failure_limit: usize,
    most: u64,
    now: i64,
    seen: PlanSeen,
    r: PlanStep,
)
    requires
        plans(run, verdict, allowed, failure_limit, most, now, seen, r),
        r is Planned,
    ensures
        r->action is Retry ==> seen.own_commits == Some(Ok::<bool, String>(false)),
        r->action is RetryInherit ==> seen.own_commits == Some(Ok::<bool, String>(true))
            && seen.inherited == Some(Ok::<Option<String>, String>(Some(r->action->head))),
{
}

/// What has been observed of a run's commits.
#[derive(Default)]
pub struct CommitsSeen {
    pub worktree_there: Option<bool>,
    pub head: Option<String>,
    pub worktree_created: Option<bool>,
    /// The commit is on main.
    pub on_main: Option<bool>,
}

/// What looking for a run's own commits does next, or what it came to.
pub enum CommitsStep {
    WorktreeThere { worktree: String },
    Head { worktree: String },
    WorktreeCreated,
    OnMain { head: String },
    Failed(String),
    Own(bool),
}

/// Whether a commit is the run's own.
pub open spec fn is_own(head: String, seen: CommitsSeen, r: CommitsStep) -> bool {
    match seen.on_main {
        None => r == (CommitsStep::OnMain { head }),
        Some(on_main) => r == CommitsStep::Own(!on_main),
    }
}

/// Whether the run's branch holds commits of its own: its reviewed commit, else
/// its worktree's head, is not on main. A run that never got a worktree has
/// none; one whose worktree is gone without a reviewed commit cannot be told.
pub fn own_commits(run: &TaskRun, seen: &CommitsSeen) -> (r: CommitsStep)
    ensures
        match run.result_commit {
            Some(commit) => is_own(commit, *seen, r),
            None => if run.worktree_path is Some && seen.worktree_there is None {
                r == (CommitsStep::WorktreeThere { worktree: run.worktree_path->0 })
            } else if run.worktree_path is Some && seen.worktree_there->0 {
                match seen.head {
                    None => r == (CommitsStep::Head { worktree: run.worktree_path->0 }),
                    Some(head) => is_own(head, *seen, r),
                }
            } else {
                match seen.worktree_created {
                    None => r is WorktreeCreated,
                    Some(false) => r == CommitsStep::Own(false),
                    Some(true) => r matches CommitsStep::Failed(why) && why@
                        == "its worktree is gone and it has no reviewed commit"@,
                }
            },
        },
{
    let head = match &run.result_commit {
        Some(commit) => commit.clone(),
        None => {
            let mut found: Option<String> = None;
            if let Some(worktree) = &run.worktree_path {
                match seen.worktree_there {
                    None => {
                        return CommitsStep::WorktreeThere { worktree: worktree.clone() };
                    },
                    Some(there) => if there {
                        match &seen.head {
                            None => return CommitsStep::Head { worktree: worktree.clone() },
                            Some(head) => {
                                found = Some(head.clone());
                            },
                        }
                    },
                }
            }
            match found {
                Some(head) => head,
                None => {
                    return match seen.worktree_created {
                        None => CommitsStep::WorktreeCreated,
                        Some(created) => if created {
                            CommitsStep::Failed(
                                "its worktree is gone and it has no reviewed commit".to_owned(),
                            )
                        } else {
                            CommitsStep::Own(false)
                        },
                    };
                },
            }
        },
    };
    match seen.on_main {
        None => CommitsStep::OnMain { head },
        Some(on_main) => CommitsStep::Own(!on_main),
    }
}

/// What has been done and observed of a verdict on a run that ended.
#[derive(Default)]
pub struct ActSeen {
    pub holds: Option<bool>,
    /// What planning the repair came to: nothing, or why it is refused.
    pub planned: Option<Option<String>>,
    pub recorded: bool,
}

/// What acting on a verdict does next.
pub enum ActStep {
    HoldsLease,
    Failed(String),
    /// Put the verdict to a person, and why where its repair was refused.
    Escalate { why: Option<String> },
    Plan,
    /// Record the round's end and what goes with it.
    Finish { payload: Json, also: Vec<(&'static str, Json)> },
    /// Close what the run left open and give the lease back: [`end_round`].
    EndRound,
}

/// What the end of a round records.
pub open spec fn round_payload(
    round: usize,
    alert: RecoveryAlert,
    attempt: usize,
    verdict: RecoveryVerdict,
    duration_secs: u64,
) -> json::Value {
    json::Value::Object(
        json::none().push(("attempt"@, json::Value::Int(round as int))).push(
            ("alert"@, json::Value::Text(alert.name())),
        ).push(("recovery_attempt"@, json::Value::Int(attempt as int))).push(
            ("verdict"@, json::Value::Text(verdict.verdict.name())),
        ).push(("confidence"@, json::Value::Text(verdict.confidence.name()))).push(
            ("reason"@, json::Value::Text(verdict.diagnosis@)),
        ).push(("duration_secs"@, json::Value::Int(duration_secs as int))),
    )
}

/// What `auto_repaired` records of a repair of a run that ended.
pub open spec fn repaired_payload(
    alert: RecoveryAlert,
    attempt: usize,
    name: Seq<char>,
    conditions: json::Value,
) -> json::Value {
    json::Value::Object(
        json::none().push(("layer"@, json::Value::Text("recovery"@))).push(
            ("repair"@, json::Value::Text(name)),
        ).push(("alert"@, json::Value::Text(alert.name()))).push(
            ("attempt"@, json::Value::Int(attempt as int)),
        ).push(("conditions"@, conditions)),
    )
}

/// What `recovery_finished` records of a repair of a run that ended.
pub open spec fn finished_payload(
    alert: RecoveryAlert,
    attempt: usize,
    verdict: RecoveryVerdict,
    name: Seq<char>,
    action: TriageAction,
    duration_secs: u64,
) -> json::Value {
    json::Value::Object(
        json::none().push(("alert"@, json::Value::Text(alert.name()))).push(
            ("attempt"@, json::Value::Int(attempt as int)),
        ).push(("verdict"@, json::Value::Text(verdict.verdict.name()))).push(
            ("confidence"@, json::Value::Text(verdict.confidence.name())),
        ).push(("diagnosis"@, json::Value::Text(verdict.diagnosis@))).push(
            ("applied"@, json::list_of(seq![name])),
        ).push(("escalated"@, json::Value::Bool(false))).push(
            (
                "recheck_at"@,
                int_or_null(
                    match action {
                        TriageAction::Wait { recheck_at } => Some(recheck_at as int),
                        _ => None,
                    },
                ),
            ),
        ).push(("duration_secs"@, json::Value::Int(duration_secs as int))),
    )
}

/// What goes with the end of a round: the repair, but for a wait, and the end
/// of the recovery.
pub open spec fn is_also(
    alert: RecoveryAlert,
    attempt: usize,
    verdict: RecoveryVerdict,
    action: TriageAction,
    conditions: json::Value,
    duration_secs: u64,
    also: Seq<(&'static str, Json)>,
) -> bool {
    let name = action_name(verdict.actions@[0]);
    let n: int = if action is Wait {
        0
    } else {
        1
    };
    &&& also.len() == n + 1
    &&& action !is Wait ==> also[0].0@ == "auto_repaired"@ && also[0].1@ == repaired_payload(
        alert,
        attempt,
        name,
        conditions,
    )
    &&& also[n].0@ == "recovery_finished"@
    &&& also[n].1@ == finished_payload(alert, attempt, verdict, name, action, duration_secs)
}

/// What has been done of the end of a round.
#[derive(Clone, Copy, Default)]
pub struct RoundSeen {
    /// Closing what the run left open, and giving the lease back, were tried.
    pub closed: bool,
    pub released: bool,
}

/// What the end of a round does next.
#[derive(Clone, Copy)]
pub enum RoundStep {
    /// Close what the run left open, as this closer; one that fails is only
    /// noted.
    CloseWorkspaces { closer: WorkspaceCloser },
    /// Give the lease back; one that fails is only noted.
    ReleaseLease,
    /// Read the run as it is now.
    Ended,
}

/// End a round: the run's workspaces are closed before its lease is given back,
/// so that nobody takes it over with them open.
pub fn end_round(seen: RoundSeen) -> (r: RoundStep)
    ensures
        r == (if !seen.closed {
            RoundStep::CloseWorkspaces { closer: WorkspaceCloser::Triage }
        } else if !seen.released {
            RoundStep::ReleaseLease
        } else {
            RoundStep::Ended
        }),
{
    if !seen.closed {
        RoundStep::CloseWorkspaces { closer: WorkspaceCloser::Triage }
    } else if !seen.released {
        RoundStep::ReleaseLease
    } else {
        RoundStep::Ended
    }
}

/// Act on a verdict for a run that ended: a repair of high confidence whose one
/// action was planned is recorded; anything else is put to a person. `plan` is
/// the planned action with its conditions.
pub fn act_on_recovery(
    run: &TaskRun,
    round: usize,
    alert: RecoveryAlert,
    attempt: usize,
    duration_secs: u64,
    verdict: &RecoveryVerdict,
    plan: &Option<(TriageAction, Json)>,
    seen: &ActSeen,
) -> (r: ActStep)
    requires
        plan is Some ==> verdict.actions@.len() == 1,
    ensures
        if seen.holds is None {
            r is HoldsLease
        } else if !seen.holds->0 {
            r matches ActStep::Failed(why) && why@ == "the recovery job's lease of run "@ + run.id@
                + " was lost"@
        } else if !verdict.is_applied() {
            r == (ActStep::Escalate { why: None })
        } else {
            match (*plan, seen.planned) {
                (Some((action, conditions)), _) => if !seen.recorded {
                    r matches ActStep::Finish { payload, also } && payload@ == round_payload(
                        round,
                        alert,
                        attempt,
                        *verdict,
                        duration_secs,
                    ) && is_also(
                        alert,
                        attempt,
                        *verdict,
                        action,
                        conditions@,
                        duration_secs,
                        also@,
                    )
                } else {
                    r is EndRound
                },
                (None, Some(Some(why))) => r == (ActStep::Escalate { why: Some(why) }),
                (None, _) => r is Plan,
            }
        },
{
    match seen.holds {
        None => return ActStep::HoldsLease,
        Some(holds) => if !holds {
            return ActStep::Failed(
                "the recovery job's lease of run ".to_owned().concat(run.id.as_str()).concat(
                    " was lost",
                ),
            );
        },
    }
    if !verdict.applies() {
        return ActStep::Escalate { why: None };
    }
    let (action, conditions) = match plan {
        Some((action, conditions)) => (action, conditions),
        None => {
            return match &seen.planned {
                Some(Some(why)) => ActStep::Escalate { why: Some(why.clone()) },
                _ => ActStep::Plan,
            };
        },
    };
    if seen.recorded {
        return ActStep::EndRound;
    }
    let name = verdict.actions[0].name();
    let payload = Fields::new().number("attempt", round as i128).text(
        "alert",
        alert.as_str(),
    ).number("recovery_attempt", attempt as i128).text(
        "verdict",
        verdict.verdict.as_str(),
    ).text("confidence", verdict.confidence.as_str()).text(
        "reason",
        verdict.diagnosis.as_str(),
    ).number("duration_secs", duration_secs as i128).done();
    let mut also: Vec<(&'static str, Json)> = Vec::new();
    let recheck: Option<i64> = match action {
        TriageAction::Wait { recheck_at } => Some(*recheck_at),
        _ => {
            let repaired = Fields::new().text("layer", "recovery").text("repair", name).text(
                "alert",
                alert.as_str(),
            ).number("attempt", attempt as i128).with("conditions", conditions.copy()).done();
            also.push(("auto_repaired", repaired));
            None
        },
    };
    let mut applied: Vec<String> = Vec::new();
    applied.push(name.to_owned());
    assert(text::views(applied@) =~= seq![name@]);
    let finished = Fields::new().text("alert", alert.as_str()).number(
        "attempt",
        attempt as i128,
    ).text("verdict", verdict.verdict.as_str()).text(
        "confidence",
        verdict.confidence.as_str(),
    ).text("diagnosis", verdict.diagnosis.as_str()).texts("applied", &applied).flag(
        "escalated",
        false,
    ).with("recheck_at", number_or_null(recheck)).number(
        "duration_secs",
        duration_secs as i128,
    ).done();
    also.push(("recovery_finished", finished));
    ActStep::Finish { payload, also }
}

/// The question of a run that ended.
pub open spec fn ended_question(
    run: TaskRun,
    alert: RecoveryAlert,
    note: Note,
    exhausted: bool,
    last_error: Seq<char>,
) -> Seq<char> {
    "The supervisor's recovery job for run "@ + run.id@ + " (task "@ + text::signed(
        run.task_id as int,
    ) + ", "@ + run.status.name() + "; alert: "@ + alert.name() + ") did not move it on: "@
        + note.why@ + ".\n"@ + note.text@ + "\nLast error: "@ + last_error
        + "\nretry: make the task ready for a new run from scratch (this run's work is not carried over)."@
        + (if exhausted {
        ""@
    } else {
        " resume: resume the run's own session with the job's diagnosis."@
    }) + " cancel: cancel the task."@ + (if note.options@.len() == 0 {
        ""@
    } else {
        " Any other option goes back to the recovery job, which runs again with your choice."@
    })
}

/// The options of a run that ended: without `resume` once its resumes are used
/// up, and the job's.
pub open spec fn ended_options(exhausted: bool, note: Note) -> Seq<Seq<char>> {
    merged(
        if exhausted {
            seq!["retry"@, "cancel"@]
        } else {
            seq!["retry"@, "resume"@, "cancel"@]
        },
        text::views(note.options@),
        note.options@.len() as int,
    )
}

/// Whether it is the ask of a run that ended: the triage's, of the alert's kind,
/// about the run alone.
pub open spec fn asks_ended(
    run: TaskRun,
    alert: RecoveryAlert,
    note: Note,
    exhausted: bool,
    last_error: Seq<char>,
    ask: NewAsk,
) -> bool {
    &&& ask.kind == (AskKind::Ended { alert })
    &&& ask.task_id is None
    &&& text::opt_view(ask.run_id) == Some(run.id@)
    &&& ask.question@ == ended_question(run, alert, note, exhausted, last_error)
    &&& text::views(ask.options@) == ended_options(exhausted, note)
    &&& ask.asked_by == Asker::Triage
    &&& ask.category == note.category
    &&& ask.finding_id is None
}

/// The end of a run's last error that an ask shows; nothing where it has none.
pub fn last_error_shown(run: &TaskRun) -> (r: String)
    ensures
        r@ == text::tail_of(
            match run.last_error {
                Some(error) => error@,
                None => ""@,
            },
            500,
        ),
{
    match &run.last_error {
        Some(error) => text::tail(error.as_str(), 500),
        None => text::tail("", 500),
    }
}

/// The ask of a run that ended, with the job's note. `last_error` is what
/// `last_error_shown` gives, or that it has none.
pub fn ended_ask(
    run: &TaskRun,
    alert: RecoveryAlert,
    note: &Note,
    exhausted: bool,
    last_error: &str,
) -> (r: NewAsk)
    ensures
        asks_ended(*run, alert, *note, exhausted, last_error@, r),
{
    let mut base: Vec<String> = Vec::new();
    base.push("retry".to_owned());
    if exhausted {
        base.push("cancel".to_owned());
        assert(text::views(base@) =~= seq!["retry"@, "cancel"@]);
    } else {
        base.push("resume".to_owned());
        base.push("cancel".to_owned());
        assert(text::views(base@) =~= seq!["retry"@, "resume"@, "cancel"@]);
    }
    let resume = if exhausted {
        ""
    } else {
        " resume: resume the run's own session with the job's diagnosis."
    };
    let others = if note.options.len() == 0 {
        ""
    } else {
        " Any other option goes back to the recovery job, which runs again with your choice."
    };
    let id = text::integer(run.task_id);
    let question = "The supervisor's recovery job for run ".to_owned().concat(
        run.id.as_str(),
    ).concat(" (task ").concat(id.as_str()).concat(", ").concat(run.status.as_str()).concat(
        "; alert: ",
    ).concat(alert.as_str()).concat(") did not move it on: ").concat(note.why.as_str()).concat(
        ".\n",
    ).concat(note.text.as_str()).concat("\nLast error: ").concat(last_error).concat(
        "\nretry: make the task ready for a new run from scratch (this run's work is not carried over).",
    ).concat(resume).concat(" cancel: cancel the task.").concat(others);
    NewAsk {
        kind: AskKind::Ended { alert },
        task_id: None,
        run_id: Some(run.id.clone()),
        question,
        options: merge_options(base, &note.options),
        asked_by: Asker::Triage,
        category: note.category,
        finding_id: None,
    }
}

/// A person is offered to resume a run only while it has resumes left.
pub proof fn a_used_up_run_is_not_offered_a_resume(note: Note)
    requires
        !text::views(note.options@).contains("resume"@),
    ensures
        !ended_options(true, note).contains("resume"@),
{
    reveal_strlit("retry");
    reveal_strlit("cancel");
    reveal_strlit("resume");
    let base = seq!["retry"@, "cancel"@];
    assert("retry"@.len() != "resume"@.len());
    assert("cancel"@[0] != "resume"@[0]);
    assert(!base.contains("resume"@));
    merged_adds_only_more(base, text::views(note.options@), note.options@.len() as int, "resume"@);
}

/// A merged option is one of the two lists'.
proof fn merged_adds_only_more(
    base: Seq<Seq<char>>,
    more: Seq<Seq<char>>,
    n: int,
    option: Seq<char>,
)
    requires
        0 <= n <= more.len(),
        !base.contains(option),
        !more.contains(option),
    ensures
        !merged(base, more, n).contains(option),
    decreases n,
{
    if n > 0 {
        merged_adds_only_more(base, more, n - 1, option);
        let before = merged(base, more, n - 1);
        if !before.contains(more[n - 1]) {
            assert(more.contains(more[n - 1]));
            let longer = before.push(more[n - 1]);
            assert forall|i: int| 0 <= i < longer.len() implies #[trigger] longer[i] != option by {
                if i < before.len() {
                    assert(before.contains(before[i]));
                }
            }
        }
    }
}

/// What the end of a round that asks a person records.
pub open spec fn asked_payload(
    round: usize,
    alert: RecoveryAlert,
    attempt: usize,
    escalation: Escalation,
    why: Seq<char>,
    duration_secs: u64,
) -> json::Value {
    let verdict = verdict_of(escalation);
    json::Value::Object(
        json::none().push(("attempt"@, json::Value::Int(round as int))).push(
            ("alert"@, json::Value::Text(alert.name())),
        ).push(("recovery_attempt"@, json::Value::Int(attempt as int))).push(
            (
                "verdict"@,
                match verdict {
                    Some(verdict) => json::Value::Text(verdict.verdict.name()),
                    None => json::Value::Null,
                },
            ),
        ).push(
            (
                "confidence"@,
                match verdict {
                    Some(verdict) => json::Value::Text(verdict.confidence.name()),
                    None => json::Value::Null,
                },
            ),
        ).push(
            (
                "reason"@,
                json::Value::Text(
                    match verdict {
                        Some(verdict) => why + ": "@ + verdict.diagnosis@,
                        None => why,
                    },
                ),
            ),
        ).push(("duration_secs"@, json::Value::Int(duration_secs as int))),
    )
}

/// What the end of a round that asks a person records.
pub fn asked_record(
    round: usize,
    alert: RecoveryAlert,
    attempt: usize,
    escalation: &Escalation,
    note: &Note,
    duration_secs: u64,
) -> (r: Json)
    ensures
        r@ == asked_payload(round, alert, attempt, *escalation, note.why@, duration_secs),
{
    let (verdict, confidence, reason) = match escalation.verdict() {
        Some(verdict) => (
            Json::Text(verdict.verdict.as_str().to_owned()),
            Json::Text(verdict.confidence.as_str().to_owned()),
            note.why.clone().concat(": ").concat(verdict.diagnosis.as_str()),
        ),
        None => (Json::Null, Json::Null, note.why.clone()),
    };
    Fields::new().number("attempt", round as i128).text("alert", alert.as_str()).number(
        "recovery_attempt",
        attempt as i128,
    ).with("verdict", verdict).with("confidence", confidence).text(
        "reason",
        reason.as_str(),
    ).number("duration_secs", duration_secs as i128).done()
}

/// An ask that was opened, or that was open already.
#[derive(Debug, Clone, Copy, PartialEq, Eq, Structural)]
pub struct Opened {
    pub id: i64,
    pub created: bool,
}

/// What has been done and observed of putting a run that ended to a person.
#[derive(Default)]
pub struct PutSeen {
    pub opened: Option<Opened>,
    /// What recording the round's end gave.
    pub recorded: Option<Result<(), String>>,
    pub withdrawn: bool,
}

/// What putting a run that ended to a person does next, or what it came to.
pub enum PutStep {
    Open(NewAsk),
    /// Record the round's end with the ask, and the end of the recovery.
    Record { ask: i64, payload: Json, finished: Json },
    /// The ask this pass opened would ask a person twice.
    Withdraw { ask: i64, answer: String },
    Failed(String),
    EndRound,
}

/// What putting a run that ended to a person comes to.
pub open spec fn puts(
    run: TaskRun,
    round: usize,
    alert: RecoveryAlert,
    attempt: usize,
    escalation: Escalation,
    note: Note,
    exhausted: bool,
    last_error: Seq<char>,
    duration_secs: u64,
    seen: PutSeen,
    r: PutStep,
) -> bool {
    match seen.opened {
        None => r matches PutStep::Open(ask) && asks_ended(
            run,
            alert,
            note,
            exhausted,
            last_error,
            ask,
        ),
        Some(opened) => match seen.recorded {
            None => r matches PutStep::Record { ask, payload, finished } && ask == opened.id
                && payload@ == asked_payload(
                round,
                alert,
                attempt,
                escalation,
                note.why@,
                duration_secs,
            ) && finished@ == with_all(
                finished_base(escalation, alert, attempt, note.why@, note.category, Some(opened.id)),
                json::Value::Object(
                    json::none().push(("duration_secs"@, json::Value::Int(duration_secs as int))),
                ),
            ),
            Some(Ok(_)) => r is EndRound,
            Some(Err(error)) => if opened.created && !seen.withdrawn {
                r matches PutStep::Withdraw { ask, answer } && ask == opened.id && answer@
                    == "withdrawn: the recovery round could not be recorded"@
            } else {
                r == PutStep::Failed(error)
            },
        },
    }
}

/// Put the alert of a run that ended to a person: an ask with the job's
/// diagnosis and why a person is needed, then the round's end recorded with it.
/// Where that cannot be recorded, an ask opened for it is withdrawn and the
/// round fails.
pub fn escalate_ended(
    run: &TaskRun,
    round: usize,
    alert: RecoveryAlert,
    attempt: usize,
    escalation: &Escalation,
    note: &Note,
    exhausted: bool,
    last_error: &str,
    duration_secs: u64,
    seen: &PutSeen,
) -> (r: PutStep)
    ensures
        puts(
            *run,
            round,
            alert,
            attempt,
            *escalation,
            *note,
            exhausted,
            last_error@,
            duration_secs,
            *seen,
            r,
        ),
{
    let opened = match seen.opened {
        None => return PutStep::Open(ended_ask(run, alert, note, exhausted, last_error)),
        Some(opened) => opened,
    };
    match &seen.recorded {
        None => PutStep::Record {
            ask: opened.id,
            payload: asked_record(round, alert, attempt, escalation, note, duration_secs),
            finished: escalation.finished(
                alert,
                attempt,
                note,
                Some(opened.id),
                &Fields::new().number("duration_secs", duration_secs as i128).done(),
            ),
        },
        Some(Ok(_)) => PutStep::EndRound,
        Some(Err(error)) => if opened.created && !seen.withdrawn {
            PutStep::Withdraw {
                ask: opened.id,
                answer: "withdrawn: the recovery round could not be recorded".to_owned(),
            }
        } else {
            PutStep::Failed(error.clone())
        },
    }
}

/// A round that could not be recorded leaves no ask of its own behind.
pub proof fn a_failed_round_leaves_no_ask(
    run: TaskRun,
    round: usize,
    alert: RecoveryAlert,
    attempt: usize,
    escalation: Escalation,
    note: Note,
    exhausted: bool,
    last_error: Seq<char>,
    duration_secs: u64,
    seen: PutSeen,
    r: PutStep,
)
    requires
        puts(
            run,
            round,
            alert,
            attempt,
            escalation,
            note,
            exhausted,
            last_error,
            duration_secs,
            seen,
            r,
        ),
        r is Failed,
    ensures
        !seen.opened->0.created || seen.withdrawn,
{
}

/// What a failed round records: `triage_failed`, the attention a person
/// recovers the run from by hand, and `recovery_finished`. The run stays as it
/// is, and the lease is given back.
pub fn fail_recovery(
    run: &TaskRun,
    round: usize,
    alert: RecoveryAlert,
    attempt: usize,
    error: &str,
    duration_secs: u64,
) -> (r: (Json, Json))
    ensures
        r.0@ == json::Value::Object(
            json::none().push(("code"@, json::Value::Text(ReasonCode::JobFailed.name()))).push(
                ("attempt"@, json::Value::Int(round as int)),
            ).push(("alert"@, json::Value::Text(alert.name()))).push(
                ("recovery_attempt"@, json::Value::Int(attempt as int)),
            ).push(("error"@, json::Value::Text(error@))).push(
                ("duration_secs"@, json::Value::Int(duration_secs as int)),
            ).push(("status"@, json::Value::Text(run.status.name()))),
        ),
        r.1@ == job_failed_payload(alert, attempt, error@),
{
    let failed = Fields::new().text("code", ReasonCode::JobFailed.as_str()).number(
        "attempt",
        round as i128,
    ).text("alert", alert.as_str()).number("recovery_attempt", attempt as i128).text(
        "error",
        error,
    ).number("duration_secs", duration_secs as i128).text("status", run.status.as_str()).done();
    (failed, job_failed(alert, attempt, error))
}

/// What is reported of a run that was triaged.
pub fn note_triaged(run: &TaskRun) -> (r: Json)
    ensures
        r@ == json::Value::Object(
            json::none().push(("run_id"@, json::Value::Text(run.id@))).push(
                ("task_id"@, json::Value::Int(run.task_id as int)),
            ).push(("status"@, json::Value::Text(run.status.name()))),
        ),
{
    Fields::new().text("run_id", run.id.as_str()).number("task_id", run.task_id as i128).text(
        "status",
        run.status.as_str(),
    ).done()
}

/// A run is recovered as dead exactly when it is not being integrated, nobody
/// live or about to take it over holds it, and its health lets it be.
pub proof fn only_a_dead_run_is_recovered(look: DeadLook, health: &Json, r: Option<Json>)
    requires
        call_ensures(recover_dead_run, (look, health), r),
    ensures
        r is Some ==> look.status != RunStatus::Integrating && look.recoverable && (look.leased
            ==> !look.lease_alive && !look.adoptable),
        look.status != RunStatus::Integrating && look.recoverable && !look.leased ==> r is Some,
        look.status != RunStatus::Integrating && look.recoverable && !look.lease_alive
            && !look.adoptable ==> r is Some,
{
}

/// A person's answer is applied as it was given, to a run that failed or was
/// interrupted, that nobody holds and that is its task's own, and only where
/// it was offered; where the task went on without the run the ask is closed.
pub proof fn an_answer_goes_to_the_run_it_is_about(ask: Answer, seen: AnswerSeen, r: AnswerStep)
    requires
        answers(ask, seen, r),
    ensures
        r matches AnswerStep::Decide { answer, reason } ==> {
            &&& ask.run_id is Some
            &&& ask.answer is Some || answer@.len() == 0
            &&& ask.answer matches Some(given) ==> answer@ == text::trimmed(given@)
            &&& exists|i: int|
                0 <= i < ask.options@.len() && (#[trigger] ask.options@[i])@ == answer@
            &&& seen.run->0.status == RunStatus::Failed || seen.run->0.status
                == RunStatus::Interrupted
            &&& seen.leased is Some && !seen.leased->0
            &&& seen.task->0.status == TaskStatus::InProgress
            &&& seen.task->0.latest matches Some(latest) ==> latest@ == seen.run->0.id@
        },
        r is CloseAsk ==> seen.leased is Some && !seen.leased->0 && !seen.closed && (
        seen.task->0.status != TaskStatus::InProgress || (seen.task->0.latest matches Some(latest)
            && latest@ != seen.run->0.id@)),
        r matches AnswerStep::ReadRun { run } ==> ask.run_id == Some(run),
{
    reveal_strlit("");
    if r is Decide {
        let answer = given(ask.answer);
        let views = text::views(ask.options@);
        assert(views.contains(answer));
        let i = choose|i: int| 0 <= i < views.len() && views[i] == answer;
        assert(ask.options@[i]@ == answer);
        text::trimming_takes_only_outer_space(""@);
        assert(text::trimmed(""@).len() == 0) by {
            text::blank_is_all_space(""@);
        }
    }
}

/// An offered answer about a failed run of a task that still waits on it is
/// decided once everything was looked at.
pub proof fn an_offered_answer_is_applied(ask: Answer, seen: AnswerSeen, r: AnswerStep, i: int)
    requires
        answers(ask, seen, r),
        ask.run_id is Some,
        seen.run matches Some(run) && (run.status == RunStatus::Failed || run.status
            == RunStatus::Interrupted),
        ask.answer matches Some(given) && 0 <= i < ask.options@.len() && ask.options@[i]@
            == text::trimmed(given@),
        seen.leased is Some && !seen.leased->0,
        seen.task matches Some(task) && task.status == TaskStatus::InProgress && (
        task.latest matches Some(latest) ==> latest@ == seen.run->0.id@),
        seen.reason is Some,
        !seen.decided,
    ensures
        r matches AnswerStep::Decide { answer, .. } && answer@ == text::trimmed(ask.answer->0@),
{
    assert(text::views(ask.options@)[i] == text::trimmed(ask.answer->0@));
}

/// A run's recovery begins only where there is room, it is due, nobody holds
/// the run and its cleanup is over; each job is the alert's next one and none
/// is past the limit; only a job past the limit goes to a person unrun.
pub proof fn a_round_begins_only_when_due(
    look: TriageLook,
    room: bool,
    limit: usize,
    now: i64,
    seen: TriageSeen,
    r: TriageStep,
)
    requires
        triages(look, room, limit, now, seen, r),
        look.done < usize::MAX,
    ensures
        r is Stop <==> !room,
        r !is Stop && r !is Next ==> !look.leased && (look.state == TriageState::Pending || (
        look.state matches TriageState::Waiting { until } && until <= now)),
        r is Begin ==> seen.cleaning is Some && !seen.cleaning->0 && seen.begun is None,
        r is Defer <==> room && !look.leased && (look.state == TriageState::Pending || (
        look.state matches TriageState::Waiting { until } && until <= now)) && seen.cleaning is Some
            && seen.cleaning->0,
        r matches TriageStep::Begin { request } ==> (request is Some <==> !look.pending && look.done
            < limit) && (request matches Some(n) ==> n == look.done + 1),
        r matches TriageStep::Spawn { round, attempt } ==> seen.begun == Some(Some(round))
            && seen.spawned is None && attempt <= limit && (look.pending ==> attempt == look.done)
            && (!look.pending ==> attempt == look.done + 1),
        r matches TriageStep::EscalateUsedUp { round, used } ==> seen.begun == Some(Some(round))
            && seen.escalated is None && used >= limit && (look.pending ==> used + 1 == look.done)
            && (!look.pending ==> used == look.done),
        r is Take <==> room && !look.leased && (look.state == TriageState::Pending || (
        look.state matches TriageState::Waiting { until } && until <= now)) && seen.cleaning is Some
            && !seen.cleaning->0 && (seen.begun matches Some(Some(_))) && (if look.pending {
            look.done <= limit
        } else {
            look.done < limit
        }) && (seen.spawned matches Some(Ok(_))),
        r matches TriageStep::FailRecovery { round, error, .. } ==> seen.begun == Some(Some(round))
            && !seen.failure_recorded && ((seen.spawned matches Some(Err(why)) && error@
            == "the recovery job could not start: "@ + why@) || (seen.escalated matches Some(
            Err(why),
        ) && error@ == why@)),
{
}

/// A resume tells the session what the recovery job wrote for it, without the
/// white space around it; the job's diagnosis stands in only where it wrote
/// nothing.
pub proof fn a_resume_says_what_the_job_wrote(
    run: TaskRun,
    verdict: RecoveryVerdict,
    allowed: Seq<Seq<char>>,
    failure_limit: usize,
    most: u64,
    now: i64,
    seen: PlanSeen,
    r: PlanStep,
    instruction: String,
)
    requires
        plans(run, verdict, allowed, failure_limit, most, now, seen, r),
        verdict.actions@ == seq![RecoveryAction::Resume { instruction }],
        r is Planned,
    ensures
        r->action matches TriageAction::Resume { instruction: said } && (if text::is_blank(
            instruction@,
        ) {
            said@ == verdict.diagnosis@
        } else {
            said@ == text::trimmed(instruction@)
        }),
        seen.resumes matches Some(Ok(_)),
        !seen.exhausted,
        run.worktree_path is Some,
        seen.worktree_there is Some && seen.worktree_there->0,
        run.receipt_path is Some,
{
    text::blank_is_all_space(instruction@);
}

/// A recovery plans the one action its job chose, where what it needs holds:
/// a retry where the task has not failed too often and the branch holds no
/// commit, one with the branch carried over where it holds some and none was
/// before, a resume where one is left and the worktree is there, a wait for as
/// long as was asked and no longer than the most.
pub proof fn what_the_job_chose_is_planned(
    run: TaskRun,
    verdict: RecoveryVerdict,
    allowed: Seq<Seq<char>>,
    failure_limit: usize,
    most: u64,
    now: i64,
    seen: PlanSeen,
    r: PlanStep,
)
    requires
        plans(run, verdict, allowed, failure_limit, most, now, seen, r),
    ensures
        verdict.actions@.len() != 1 ==> r is Refused,
        r is Planned ==> verdict.actions@.len() == 1 && (match verdict.actions@[0] {
            RecoveryAction::Retry => r->action is Retry && (seen.failures matches Some(Ok(failures))
                && failures < failure_limit) && (seen.own_commits matches Some(Ok(own)) && !own),
            RecoveryAction::RetryInherit => r->action is RetryInherit && (
            seen.inherited_before matches Some(Ok(before)) && !before) && (
            seen.own_commits matches Some(Ok(own)) && own) && (seen.inherited matches Some(
                Ok(Some(head)),
            ) && r->action->RetryInherit_head@ == head@) && r->action->RetryInherit_branch
                == run.branch,
            RecoveryAction::Resume { .. } => r->action is Resume,
            RecoveryAction::Wait { recheck_after_secs } => r->action is Wait && now
                <= r->action->recheck_at && (most <= i64::MAX ==> r->action->recheck_at == now + (
            if recheck_after_secs <= most {
                recheck_after_secs
            } else {
                most
            })),
            _ => false,
        }),
        verdict.actions@ == seq![RecoveryAction::Retry] && (seen.failures matches Some(Ok(failures))
            && failures < failure_limit) && (seen.own_commits matches Some(Ok(own)) && !own)
            ==> r is Planned,
        verdict.actions@ == seq![RecoveryAction::RetryInherit] && (
        seen.inherited_before matches Some(Ok(before)) && !before) && (
        seen.own_commits matches Some(Ok(own)) && own) && (seen.inherited matches Some(
            Ok(Some(head)),
        )) ==> r is Planned,
        verdict.actions@.len() == 1 && verdict.actions@[0] is Resume && (
        seen.resumes matches Some(Ok(_))) && !seen.exhausted && run.worktree_path is Some
            && run.receipt_path is Some && seen.worktree_there is Some && seen.worktree_there->0
            ==> r is Planned,
        verdict.actions@.len() == 1 && verdict.actions@[0] is Wait ==> r is Planned,
        r matches PlanStep::WorktreeThere { worktree } ==> run.worktree_path == Some(worktree),
{
}

/// A run has commits of its own exactly where the head looked at (its reviewed
/// commit, or else its worktree's head) is not on main; one whose worktree was
/// never made has none, and one whose worktree is gone is not judged.
pub proof fn own_commits_are_those_not_on_main(run: &TaskRun, seen: &CommitsSeen, r: CommitsStep)
    requires
        call_ensures(own_commits, (run, seen), r),
    ensures
        r matches CommitsStep::Own(own) ==> (if run.result_commit is Some || (run.worktree_path
            is Some && seen.worktree_there is Some && seen.worktree_there->0) {
            seen.on_main is Some && own == !seen.on_main->0
        } else {
            !own && seen.worktree_created is Some && !seen.worktree_created->0
        }),
        r matches CommitsStep::OnMain { head } ==> (match run.result_commit {
            Some(commit) => head@ == commit@,
            None => seen.head matches Some(at) && head@ == at@,
        }),
        run.result_commit is Some && seen.on_main is Some ==> r is Own,
        r is Failed ==> run.result_commit is None && seen.worktree_created is Some
            && seen.worktree_created->0,
{
}

/// The workspaces are closed before the lease is released, and the round ends
/// after both.
pub proof fn a_round_ends_after_its_release(seen: RoundSeen, r: RoundStep)
    requires
        call_ensures(end_round, (seen,), r),
    ensures
        r is CloseWorkspaces <==> !seen.closed,
        r is ReleaseLease <==> seen.closed && !seen.released,
        r is Ended <==> seen.closed && seen.released,
{
}

/// Nothing is done for a lease that was lost; a verdict that is not to be
/// applied, or whose action was refused, goes to a person; a planned action is
/// recorded once before the round ends.
pub proof fn a_verdict_is_applied_or_put_to_a_person(
    run: &TaskRun,
    round: usize,
    alert: RecoveryAlert,
    attempt: usize,
    duration_secs: u64,
    verdict: &RecoveryVerdict,
    plan: &Option<(TriageAction, Json)>,
    seen: &ActSeen,
    r: ActStep,
)
    requires
        call_ensures(
            act_on_recovery,
            (run, round, alert, attempt, duration_secs, verdict, plan, seen),
            r,
        ),
    ensures
        r is HoldsLease <==> seen.holds is None,
        r is Failed <==> seen.holds is Some && !seen.holds->0,
        seen.holds is Some && seen.holds->0 ==> (r is Escalate <==> !(verdict.verdict == RecoveryDecision::Repair && verdict.confidence == Confidence::High) || (
        *plan is None && (seen.planned matches Some(Some(_))))),
        r is Plan ==> (verdict.verdict == RecoveryDecision::Repair && verdict.confidence == Confidence::High) && *plan is None,
        r is Finish ==> (verdict.verdict == RecoveryDecision::Repair && verdict.confidence == Confidence::High) && *plan is Some && !seen.recorded,
        r is EndRound <==> seen.holds is Some && seen.holds->0 && (verdict.verdict == RecoveryDecision::Repair && verdict.confidence == Confidence::High) && *plan
            is Some && seen.recorded,
        r matches ActStep::Finish { payload, also } ==> also@.len() > 0 && also@.last().0@
            == "recovery_finished"@ && (also@[0].0@ == "auto_repaired"@ || (plan->0).0 is Wait),
{
}

/// The question about a run that ended names that run and its alert, and
/// offers a retry and a cancel, and a resume exactly where one is left.
pub proof fn an_ended_run_is_asked_about(
    run: TaskRun,
    alert: RecoveryAlert,
    note: Note,
    exhausted: bool,
    last_error: Seq<char>,
    ask: NewAsk,
)
    requires
        asks_ended(run, alert, note, exhausted, last_error, ask),
        note.options@.len() == 0,
    ensures
        ask.kind == (AskKind::Ended { alert }),
        ask.run_id matches Some(id) && id@ == run.id@,
        ask.asked_by == Asker::Triage,
        ask.category == note.category,
        text::views(ask.options@) == (if exhausted {
            seq!["retry"@, "cancel"@]
        } else {
            seq!["retry"@, "resume"@, "cancel"@]
        }),
{
}

/// A round's question is opened once, recorded under the ask that was opened,
/// and withdrawn where it was opened anew and could not be recorded.
pub proof fn a_round_records_its_own_ask(
    run: TaskRun,
    round: usize,
    alert: RecoveryAlert,
    attempt: usize,
    escalation: Escalation,
    note: Note,
    exhausted: bool,
    last_error: Seq<char>,
    duration_secs: u64,
    seen: PutSeen,
    r: PutStep,
)
    requires
        puts(
            run,
            round,
            alert,
            attempt,
            escalation,
            note,
            exhausted,
            last_error,
            duration_secs,
            seen,
            r,
        ),
    ensures
        r is Open <==> seen.opened is None,
        r matches PutStep::Record { ask, .. } ==> seen.opened->0.id == ask && seen.recorded is None,
        seen.opened is Some && seen.recorded is None ==> r is Record,
        seen.opened is Some && (seen.recorded matches Some(Ok(_))) ==> r is EndRound,
        r is EndRound ==> (seen.recorded matches Some(Ok(_))),
        r matches PutStep::Withdraw { ask, .. } ==> ask == seen.opened->0.id
            && seen.opened->0.created && !seen.withdrawn && (seen.recorded matches Some(Err(_))),
        seen.opened is Some && seen.opened->0.created && !seen.withdrawn && (
        seen.recorded matches Some(Err(_))) ==> r is Withdraw,
{
}

/// The reason of a round is that of its latest end, and its session that of its
/// latest start.
pub proof fn a_round_is_told_by_its_latest_events(
    events: &Vec<RunEvent>,
    reason: Option<String>,
    session: Option<String>,
)
    requires
        call_ensures(round_reason, (events,), reason),
        call_ensures(round_session, (events,), session),
    ensures
        reason is Some ==> exists|i: int|
            0 <= i < events@.len() && (#[trigger] events@[i]).is_kind("triage_finished"@)
                && json::at(events@[i].payload@, "reason"@) == json::Value::Text(reason->0@)
                && forall|j: int|
                i < j < events@.len() ==> !(#[trigger] events@[j]).is_kind("triage_finished"@),
        session is Some ==> exists|i: int|
            0 <= i < events@.len() && (#[trigger] events@[i]).is_kind("triage_started"@)
                && json::at(events@[i].payload@, "session_id"@) == json::Value::Text(session->0@)
                && forall|j: int|
                i < j < events@.len() ==> !(#[trigger] events@[j]).is_kind("triage_started"@),
        (forall|j: int|
            0 <= j < events@.len() ==> !(#[trigger] events@[j]).is_kind("triage_finished"@))
            ==> reason is None,
        (forall|j: int|
            0 <= j < events@.len() ==> !(#[trigger] events@[j]).is_kind("triage_started"@))
            ==> session is None,
{
    crate::supervise::exit::the_latest_is_last(
        events@,
        "triage_finished"@,
        events@.len() as int,
    );
    crate::supervise::exit::the_latest_is_last(
        events@,
        "triage_started"@,
        events@.len() as int,
    );
}

} // verus!
