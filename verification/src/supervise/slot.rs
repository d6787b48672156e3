//! The state machine of one slot: a run between provisioning and rest.
//!
//! A step of a slot alternates looks at the queue, at its threads and at its
//! session with decisions. Each phase carries what its step has done and
//! observed so far; [`step`] says what comes next.

use crate::domain::{ReasonCode, RunStatus, TaskRun};
use crate::json;
use crate::json::{Fields, Json};
use crate::text;
use vstd::prelude::*;
use vstd::string::*;

verus! {

/// A run the supervisor gave up on; it keeps its status, lease-less, with the
/// message in `last_error`.
pub struct RunError {
    pub run_id: String,
    pub task_id: i64,
    pub message: String,
}

/// The session of a run that is kept open through validation, review and
/// revise: the worker's own workspace, or the one of the resume that reopened
/// the session.
pub struct SessionRef {
    pub workspace: String,
    /// The resume attempt that opened the workspace; none for the worker's.
    pub resume: Option<usize>,
}

/// What a review decided.
#[derive(Debug, Clone, Copy, PartialEq, Eq, Structural)]
pub enum ReviewDecision {
    Pass,
    Concern,
    Revise,
}

impl ReviewDecision {
    /// Its name on the queue.
    pub open spec fn name(self) -> Seq<char> {
        match self {
            ReviewDecision::Pass => "pass"@,
            ReviewDecision::Concern => "concern"@,
            ReviewDecision::Revise => "revise"@,
        }
    }

    /// Its name on the queue.
    pub fn as_str(self) -> (r: &'static str)
        ensures
            r@ == self.name(),
    {
        match self {
            ReviewDecision::Pass => "pass",
            ReviewDecision::Concern => "concern",
            ReviewDecision::Revise => "revise",
        }
    }
}

/// A review's verdict on a run.
pub struct ReviewVerdict {
    pub verdict: ReviewDecision,
    pub reasons: Vec<String>,
    pub summary: String,
}

/// What follows once the session exited and its workspace closed.
pub enum AfterExit {
    /// Wait for the integration slot and land.
    Land,
    /// Open the `approve_landing` ask and give the lease back.
    Ask {
        decision: ReviewDecision,
        reasons: Vec<String>,
        summary: String,
        /// Why a `revise` verdict became a question for a person.
        why: Option<String>,
    },
    /// Record `review_failed` and give the lease back.
    ReviewFailed {
        attempt: usize,
        error: String,
        duration_secs: u64,
        /// The attempt whose job ran and wrote its output.
        output: Option<usize>,
    },
    /// Give the lease back: a run parked for evidence closes its workspace, a
    /// failed one keeps it for inspection.
    Rest { close: bool },
}

/// How a thread beside the loop ended.
pub enum Joined {
    Done,
    Failed(String),
    Panicked,
}

/// How a headless review ended.
pub enum ReviewEnd {
    Verdict(ReviewVerdict),
    /// Its output holds no verdict that can be read.
    Unreadable(String),
    Failed(String),
}

/// What the live session was asked to fix.
#[derive(Debug, Clone, Copy, PartialEq, Eq, Structural)]
pub enum Fix {
    Revise,
    Conflict,
}

/// What came of asking the live session for a fix.
pub enum ReviseOutcome {
    /// It wrote its receipt again, for this head.
    Rewritten(String),
    /// Its receipt does not match what Git shows.
    Mismatch(ReasonCode, String),
    /// The session ended or fell silent.
    Ended(String),
}

/// A worker's session.
#[derive(Default)]
pub struct SessionSeen {
    pub workspace: String,
    /// The run once the session is over.
    pub ended: Option<TaskRun>,
    pub released: bool,
}

/// A validation off the loop.
#[derive(Default)]
pub struct ValidatingSeen {
    pub session: Option<SessionRef>,
    pub joined: Option<Joined>,
    /// The run once the validation is recorded.
    pub finished: Option<TaskRun>,
    /// `integrate` was called for it.
    pub approved: Option<bool>,
    /// A landing recheck parked it, and its `approve_landing` ask is not
    /// closed.
    pub parked_by_recheck: Option<bool>,
    pub unclosed_ask: Option<bool>,
}

/// A headless review.
#[derive(Default)]
pub struct ReviewSeen {
    pub attempt: usize,
    pub retried: bool,
    pub duration_secs: u64,
    pub end: Option<ReviewEnd>,
    pub run: Option<TaskRun>,
    pub recorded: bool,
    pub span_closed: bool,
}

/// A fix the live session works on.
pub struct ReviseSeen {
    pub attempt: usize,
    pub fix: Fix,
    /// How the attempt is named to people.
    pub label: String,
    /// The wait recorded the session's silence.
    pub silent: bool,
    pub outcome: Option<ReviseOutcome>,
    pub recorded: bool,
    /// The run once its validation starts again.
    pub restarted: Option<TaskRun>,
    /// What sending the request to fix the receipt gave.
    pub sent: Option<Result<(), String>>,
}

/// A session that is asked to exit.
pub struct ExitingSeen {
    pub session: Option<SessionRef>,
    pub after: AfterExit,
    pub ended: bool,
    pub run: Option<TaskRun>,
    /// The run once the session's workspace is closed.
    pub closed: Option<TaskRun>,
    pub queued: bool,
    /// The ask that was opened, or why it could not be.
    pub ask: Option<Result<i64, String>>,
    pub recorded: bool,
    pub released: bool,
    pub reread: Option<TaskRun>,
}

/// A run that waits for the integration slot.
#[derive(Default)]
pub struct AwaitingSeen {
    pub released: bool,
    pub integrating: Option<bool>,
    pub run: Option<TaskRun>,
    pub main: Option<String>,
    /// The run a landing recheck holds on this main, parked.
    pub parked: Option<Option<TaskRun>>,
    /// What taking the slot gave.
    pub begun: Option<Result<TaskRun, String>>,
    pub integrating_again: Option<bool>,
}

/// A landing off the loop.
#[derive(Default)]
pub struct LandingSeen {
    pub joined: Option<Joined>,
    pub noted: bool,
    pub run: Option<TaskRun>,
}

/// The recovery job of a run that ended.
#[derive(Default)]
pub struct RecoverySeen {
    /// Whether the job ended with a verdict, or why it has none.
    pub outcome: Option<Result<(), String>>,
    pub run: Option<TaskRun>,
    /// What acting on the verdict gave.
    pub acted: Option<Result<(), String>>,
    pub holds: Option<bool>,
    pub failed: bool,
    pub reread: Option<TaskRun>,
}

/// Where a slot is, with what the current step did and observed there.
pub enum Phase {
    Session(SessionSeen),
    /// The receipt's validation; the run's session stays open through it.
    Validating(ValidatingSeen),
    Review(ReviewSeen),
    /// The live session fixes what a `revise` verdict named.
    Revise(ReviseSeen),
    Exiting(ExitingSeen),
    /// A resumed session of a parked run, and whether it came to a verdict.
    Resume { decided: bool },
    /// A run to land waits for the single integration slot, leased.
    AwaitingSlot(AwaitingSeen),
    /// The run lands off the loop; the landing releases the lease itself.
    Landing(LandingSeen),
    Recovery(RecoverySeen),
}

/// What holds landings in this pass.
#[derive(Debug, Clone, Copy, PartialEq, Eq, Structural)]
pub struct Pass {
    /// A program `[run.env]` names does not resolve.
    pub run_env_missing: bool,
    /// The free disk space is short of what a landing needs.
    pub landing_short: bool,
    /// This pass drains: nothing may wait for either.
    pub draining: bool,
}

/// What a step does or looks at next, or what it came to.
pub enum Step {
    /// The slot stays as it is until the next pass.
    Continue,
    /// The run rests.
    Done(TaskRun),
    /// The triage of a run ended.
    Triaged(TaskRun),
    /// The lease carries another token: this process must not touch the run.
    Disowned,
    /// The step failed.
    Failed(String),
    HoldsLease,
    ReadRun,
    ReleaseLease,
    NoteError(RunError),
    Integrating,
    MainHead,
    ParkHeldByRecheck { main: String },
    BeginIntegration { main: String },
    /// Land off the loop; the slot is in its landing.
    Land { run: TaskRun, previous: RunStatus, main: String },
    ActOnRecovery,
    FailRecovery { error: String },
    /// Validate off the loop, keeping this session; the slot is validating.
    Validate { run: TaskRun, session: SessionKept },
    FinishValidation,
    Approved,
    ParkedByRecheck,
    UnclosedLandingAsk,
    StartReview { run: TaskRun },
    Record { kind: &'static str, payload: Json },
    ActOnVerdict { run: TaskRun },
    RetryReview { run: TaskRun, error: String },
    CloseReviewSpan,
    RestartValidation,
    SendFixRequest { code: ReasonCode, why: String },
    /// Ask the session to exit, then go on as said; the slot is exiting.
    Exit(AfterExit),
    /// Ask the session to exit, then ask a person about the fix.
    ExitAsking { why: String, summary: String, silent: bool },
    CloseSession,
    QueueLanding,
    /// The slot waits for the integration slot.
    Await { run: TaskRun },
    OpenLandingAsk,
    OpenFailedReviewAsk,
    FinishResumed,
}

/// The session a validation keeps open.
pub enum SessionKept {
    /// The worker's workspace, of no resume.
    Worker { workspace: String },
    /// The one the phase before had.
    Same,
}

/// The message of a thread that ended without a result.
pub open spec fn join_error(joined: Joined, panicked: Seq<char>) -> Option<Seq<char>> {
    match joined {
        Joined::Done => None,
        Joined::Failed(error) => Some(error@),
        Joined::Panicked => Some(panicked),
    }
}

/// The message of a thread that ended without a result.
fn error_of(joined: &Joined, panicked: &str) -> (r: Option<String>)
    ensures
        text::opt_view(r) == join_error(*joined, panicked@),
{
    match joined {
        Joined::Done => None,
        Joined::Failed(error) => Some(error.clone()),
        Joined::Panicked => Some(panicked.to_owned()),
    }
}

/// What a landing comes to.
pub open spec fn lands(run: TaskRun, seen: LandingSeen, r: Step) -> bool {
    if seen.joined is None {
        r is Continue
    } else {
        let error = join_error(seen.joined->0, "landing thread panicked"@);
        if error is Some && !seen.noted {
            r matches Step::NoteError(e) && e.run_id == run.id && e.task_id == run.task_id
                && e.message@ == "landing failed: "@ + error->0
        } else if seen.run is None {
            r is ReadRun
        } else {
            r == Step::Done(seen.run->0)
        }
    }
}

/// A landing releases the lease itself when it ends, so it is joined whoever
/// holds the lease.
fn step_landing(run: &TaskRun, seen: &LandingSeen) -> (r: Step)
    ensures
        lands(*run, *seen, r),
{
    let joined = match &seen.joined {
        Some(joined) => joined,
        None => return Step::Continue,
    };
    if let Some(error) = error_of(joined, "landing thread panicked") {
        if !seen.noted {
            return Step::NoteError(
                RunError {
                    run_id: run.id.clone(),
                    task_id: run.task_id,
                    message: "landing failed: ".to_owned().concat(error.as_str()),
                },
            );
        }
    }
    match &seen.run {
        None => Step::ReadRun,
        Some(run) => Step::Done(run.copy()),
    }
}

/// What waiting for the integration slot comes to.
pub open spec fn awaits(pass: Pass, seen: AwaitingSeen, r: Step) -> bool {
    if pass.run_env_missing || pass.landing_short {
        if !pass.draining {
            r is Continue
        } else if !seen.released {
            r is ReleaseLease
        } else if seen.run is None {
            r is ReadRun
        } else {
            r == Step::Done(seen.run->0)
        }
    } else if seen.integrating is None {
        r is Integrating
    } else if seen.integrating->0 {
        r is Continue
    } else if seen.run is None {
        r is ReadRun
    } else if seen.main is None {
        r is MainHead
    } else if seen.parked is None {
        r == (Step::ParkHeldByRecheck { main: seen.main->0 })
    } else if seen.parked->0 is Some {
        r == Step::Done(seen.parked->0->0)
    } else {
        match seen.begun {
            None => r == (Step::BeginIntegration { main: seen.main->0 }),
            Some(Ok(run)) => r == (Step::Land {
                run,
                previous: seen.run->0.status,
                main: seen.main->0,
            }),
            Some(Err(error)) => if seen.integrating_again is None {
                r is Integrating
            } else if seen.integrating_again->0 {
                r is Continue
            } else {
                r == Step::Failed(error)
            },
        }
    }
}

/// Verification would fail on a missing program or short of disk space: the
/// run stays awaiting integration, leased, and the slot stays free. A
/// supervisor that drains cannot wait: it gives the lease back and leaves the
/// run for a person. A head that a landing recheck found not landing on this
/// main is parked for a resume instead. A slot that was taken since the look
/// is tried again later.
fn step_awaiting(pass: Pass, seen: &AwaitingSeen) -> (r: Step)
    ensures
        awaits(pass, *seen, r),
{
    if pass.run_env_missing || pass.landing_short {
        if !pass.draining {
            return Step::Continue;
        }
        if !seen.released {
            return Step::ReleaseLease;
        }
        return match &seen.run {
            None => Step::ReadRun,
            Some(run) => Step::Done(run.copy()),
        };
    }
    match seen.integrating {
        None => return Step::Integrating,
        Some(busy) => if busy {
            return Step::Continue;
        },
    }
    let run = match &seen.run {
        None => return Step::ReadRun,
        Some(run) => run,
    };
    let main = match &seen.main {
        None => return Step::MainHead,
        Some(main) => main,
    };
    match &seen.parked {
        None => return Step::ParkHeldByRecheck { main: main.clone() },
        Some(Some(parked)) => return Step::Done(parked.copy()),
        Some(None) => {},
    }
    match &seen.begun {
        None => Step::BeginIntegration { main: main.clone() },
        Some(Ok(begun)) => Step::Land {
            run: begun.copy(),
            previous: run.status,
            main: main.clone(),
        },
        Some(Err(error)) => match seen.integrating_again {
            None => Step::Integrating,
            Some(busy) => if busy {
                Step::Continue
            } else {
                Step::Failed(error.clone())
            },
        },
    }
}

/// What a recovery job comes to.
pub open spec fn recovers(seen: RecoverySeen, r: Step) -> bool {
    if seen.outcome is None {
        r is Continue
    } else if seen.run is None {
        r is ReadRun
    } else if seen.outcome->0 is Ok && seen.acted is None {
        r is ActOnRecovery
    } else {
        let error = match seen.outcome->0 {
            Err(error) => Some(error),
            Ok(_) => match seen.acted->0 {
                Err(error) => Some(error),
                Ok(_) => None,
            },
        };
        if error is Some && seen.holds is None {
            r is HoldsLease
        } else if error is Some && !seen.holds->0 {
            r is Disowned
        } else if error is Some && !seen.failed {
            r == (Step::FailRecovery { error: error->0 })
        } else if seen.reread is None {
            r is ReadRun
        } else {
            r == Step::Triaged(seen.reread->0)
        }
    }
}

/// A verdict is acted on; a failed job, or a failed act, is recorded, unless
/// another process took the run's lease meanwhile: its round is the record.
fn step_recovery(seen: &RecoverySeen) -> (r: Step)
    ensures
        recovers(*seen, r),
{
    let outcome = match &seen.outcome {
        None => return Step::Continue,
        Some(outcome) => outcome,
    };
    if seen.run.is_none() {
        return Step::ReadRun;
    }
    let error = match outcome {
        Err(error) => Some(error.clone()),
        Ok(_) => match &seen.acted {
            None => return Step::ActOnRecovery,
            Some(Ok(_)) => None,
            Some(Err(error)) => Some(error.clone()),
        },
    };
    if let Some(error) = error {
        match seen.holds {
            None => return Step::HoldsLease,
            Some(holds) => if !holds {
                return Step::Disowned;
            },
        }
        if !seen.failed {
            return Step::FailRecovery { error };
        }
    }
    match &seen.reread {
        None => Step::ReadRun,
        Some(run) => Step::Triaged(run.copy()),
    }
}

/// What a worker's session comes to.
pub open spec fn works(seen: SessionSeen, r: Step) -> bool {
    match seen.ended {
        None => r is Continue,
        Some(run) => if run.status != RunStatus::Validating {
            if !seen.released {
                r is ReleaseLease
            } else {
                r == Step::Done(run)
            }
        } else {
            r == (Step::Validate {
                run,
                session: SessionKept::Worker { workspace: seen.workspace },
            })
        },
    }
}

/// A session that ended with a receipt is validated with its workspace kept;
/// any other end gives the lease back.
fn step_session(seen: &SessionSeen) -> (r: Step)
    ensures
        works(*seen, r),
{
    match &seen.ended {
        None => Step::Continue,
        Some(run) => if run.status != RunStatus::Validating {
            if !seen.released {
                Step::ReleaseLease
            } else {
                Step::Done(run.copy())
            }
        } else {
            Step::Validate {
                run: run.copy(),
                session: SessionKept::Worker { workspace: seen.workspace.clone() },
            }
        },
    }
}

/// What a validation comes to.
pub open spec fn validates(seen: ValidatingSeen, r: Step) -> bool {
    if seen.joined is None {
        r is Continue
    } else {
        let error = join_error(seen.joined->0, "validation thread panicked"@);
        if error is Some {
            r matches Step::Failed(why) && why@ == error->0
        } else if seen.finished is None {
            r is FinishValidation
        } else if seen.finished->0.status == RunStatus::AwaitingIntegration {
            if seen.approved is None {
                r is Approved
            } else if seen.approved->0 {
                r == Step::Exit(AfterExit::Land)
            } else if seen.parked_by_recheck is None {
                r is ParkedByRecheck
            } else if seen.parked_by_recheck->0 && seen.unclosed_ask is None {
                r is UnclosedLandingAsk
            } else if seen.parked_by_recheck->0 && seen.unclosed_ask->0 {
                r == Step::Exit(AfterExit::Rest { close: true })
            } else {
                r == (Step::StartReview { run: seen.finished->0 })
            }
        } else {
            r == Step::Exit(
                AfterExit::Rest { close: seen.finished->0.status == RunStatus::NeedsSession },
            )
        }
    }
}

/// An approved run lands without a review. One that a landing recheck resumed
/// before its `approve_landing` ask was answered waits for the answer instead
/// of a new review. A run parked for evidence gives up its workspace, since a
/// resume opens one of its own; a failed one keeps it for inspection.
fn step_validating(seen: &ValidatingSeen) -> (r: Step)
    ensures
        validates(*seen, r),
{
    let joined = match &seen.joined {
        None => return Step::Continue,
        Some(joined) => joined,
    };
    if let Some(error) = error_of(joined, "validation thread panicked") {
        return Step::Failed(error);
    }
    let run = match &seen.finished {
        None => return Step::FinishValidation,
        Some(run) => run,
    };
    if run.status == RunStatus::AwaitingIntegration {
        match seen.approved {
            None => return Step::Approved,
            Some(approved) => if approved {
                return Step::Exit(AfterExit::Land);
            },
        }
        match seen.parked_by_recheck {
            None => return Step::ParkedByRecheck,
            Some(parked) => if parked {
                match seen.unclosed_ask {
                    None => return Step::UnclosedLandingAsk,
                    Some(unclosed) => if unclosed {
                        return Step::Exit(AfterExit::Rest { close: true });
                    },
                }
            },
        }
        return Step::StartReview { run: run.copy() };
    }
    Step::Exit(AfterExit::Rest { close: run.status == RunStatus::NeedsSession })
}

/// What `review_finished` records.
pub open spec fn verdict_payload(seen: ReviewSeen, verdict: ReviewVerdict) -> json::Value {
    json::Value::Object(
        json::none().push(("verdict"@, json::Value::Text(verdict.verdict.name()))).push(
            ("reasons"@, json::list_of(text::views(verdict.reasons@))),
        ).push(("summary"@, json::Value::Text(verdict.summary@))).push(
            ("duration_secs"@, json::Value::Int(seen.duration_secs as int)),
        ).push(("attempt"@, json::Value::Int(seen.attempt as int))),
    )
}

/// What a review comes to.
pub open spec fn reviews(seen: ReviewSeen, r: Step) -> bool {
    if seen.end is None {
        r is Continue
    } else if seen.run is None {
        r is ReadRun
    } else {
        match seen.end->0 {
            ReviewEnd::Verdict(verdict) => if !seen.recorded {
                r matches Step::Record { kind, payload } && kind@ == "review_finished"@
                    && payload@ == verdict_payload(seen, verdict)
            } else {
                r == (Step::ActOnVerdict { run: seen.run->0 })
            },
            ReviewEnd::Unreadable(error) => if !seen.retried {
                r == (Step::RetryReview { run: seen.run->0, error })
            } else {
                fails_review(seen, error, r)
            },
            ReviewEnd::Failed(error) => fails_review(seen, error, r),
        }
    }
}

/// What a review that failed for good comes to: its span is closed first.
pub open spec fn fails_review(seen: ReviewSeen, error: String, r: Step) -> bool {
    if !seen.span_closed {
        r is CloseReviewSpan
    } else {
        r == Step::Exit(
            AfterExit::ReviewFailed {
                attempt: seen.attempt,
                error,
                duration_secs: seen.duration_secs,
                output: Some(seen.attempt),
            },
        )
    }
}

/// A verdict is recorded and acted on. Output without a readable verdict is
/// retried once; what failed then is put to a person once the session exited.
fn step_review(seen: &ReviewSeen) -> (r: Step)
    ensures
        reviews(*seen, r),
{
    let end = match &seen.end {
        None => return Step::Continue,
        Some(end) => end,
    };
    let run = match &seen.run {
        None => return Step::ReadRun,
        Some(run) => run,
    };
    let error = match end {
        ReviewEnd::Verdict(verdict) => {
            return if !seen.recorded {
                let payload = Fields::new().text("verdict", verdict.verdict.as_str()).texts(
                    "reasons",
                    &verdict.reasons,
                ).text("summary", verdict.summary.as_str()).number(
                    "duration_secs",
                    seen.duration_secs as i128,
                ).number("attempt", seen.attempt as i128).done();
                Step::Record { kind: "review_finished", payload }
            } else {
                Step::ActOnVerdict { run: run.copy() }
            };
        },
        ReviewEnd::Unreadable(error) => {
            if !seen.retried {
                return Step::RetryReview { run: run.copy(), error: error.clone() };
            }
            error
        },
        ReviewEnd::Failed(error) => error,
    };
    if !seen.span_closed {
        return Step::CloseReviewSpan;
    }
    Step::Exit(
        AfterExit::ReviewFailed {
            attempt: seen.attempt,
            error: error.clone(),
            duration_secs: seen.duration_secs,
            output: Some(seen.attempt),
        },
    )
}

/// What a fix of the live session comes to.
pub open spec fn revises(seen: ReviseSeen, r: Step) -> bool {
    match seen.outcome {
        None => r is Continue,
        Some(ReviseOutcome::Rewritten(head)) => if !seen.recorded {
            r matches Step::Record { kind, payload } && kind@ == (match seen.fix {
                Fix::Revise => "revise_finished"@,
                Fix::Conflict => "conflict_resolved"@,
            }) && payload@ == json::Value::Object(
                json::none().push(("attempt"@, json::Value::Int(seen.attempt as int))).push(
                    ("head"@, json::Value::Text(head@)),
                ),
            )
        } else {
            match seen.restarted {
                None => r is RestartValidation,
                Some(run) => r == (Step::Validate { run, session: SessionKept::Same }),
            }
        },
        Some(ReviseOutcome::Mismatch(code, why)) => match seen.sent {
            None => r == (Step::SendFixRequest { code, why }),
            Some(Ok(_)) => if !seen.recorded {
                r matches Step::Record { kind, payload } && kind@ == (match seen.fix {
                    Fix::Revise => "revise_receipt_rejected"@,
                    Fix::Conflict => "conflict_receipt_rejected"@,
                }) && payload@ == json::Value::Object(
                    json::none().push(("code"@, json::Value::Text(code.name()))).push(
                        ("attempt"@, json::Value::Int(seen.attempt as int)),
                    ).push(("reason"@, json::Value::Text(why@))),
                )
            } else {
                r is Continue
            },
            Some(Err(error)) => r matches Step::ExitAsking { why: said, summary, silent } && said@
                == why@ + ", and the request to fix it could not be sent: "@ + error@ && summary@
                == said@ && !silent,
        },
        Some(ReviseOutcome::Ended(why)) => r matches Step::ExitAsking {
            why: said,
            summary,
            silent,
        } && said@ == "the session "@ + why@ && summary@ == "the session "@ + why@ + " after "@
            + seen.label@ && silent == (seen.silent && text::has_prefix(why@, "went silent"@)),
    }
}

/// A rewritten receipt is validated again; one that does not match is sent
/// back to the session; a session that ended, or that the request could not be
/// sent to, exits and a person is asked. A silence the wait recorded is not
/// recorded twice.
fn step_revise(seen: &ReviseSeen) -> (r: Step)
    ensures
        revises(*seen, r),
{
    let outcome = match &seen.outcome {
        None => return Step::Continue,
        Some(outcome) => outcome,
    };
    match outcome {
        ReviseOutcome::Rewritten(head) => {
            if !seen.recorded {
                let kind = match seen.fix {
                    Fix::Revise => "revise_finished",
                    Fix::Conflict => "conflict_resolved",
                };
                let payload = Fields::new().number("attempt", seen.attempt as i128).text(
                    "head",
                    head.as_str(),
                ).done();
                return Step::Record { kind, payload };
            }
            match &seen.restarted {
                None => Step::RestartValidation,
                Some(run) => Step::Validate { run: run.copy(), session: SessionKept::Same },
            }
        },
        ReviseOutcome::Mismatch(code, why) => match &seen.sent {
            None => Step::SendFixRequest { code: *code, why: why.clone() },
            Some(Ok(_)) => {
                if !seen.recorded {
                    let kind = match seen.fix {
                        Fix::Revise => "revise_receipt_rejected",
                        Fix::Conflict => "conflict_receipt_rejected",
                    };
                    let payload = Fields::new().text("code", code.as_str()).number(
                        "attempt",
                        seen.attempt as i128,
                    ).text("reason", why.as_str()).done();
                    return Step::Record { kind, payload };
                }
                Step::Continue
            },
            Some(Err(error)) => {
                let said = why.clone().concat(
                    ", and the request to fix it could not be sent: ",
                ).concat(error.as_str());
                Step::ExitAsking { summary: said.clone(), why: said, silent: false }
            },
        },
        ReviseOutcome::Ended(why) => {
            let said = "the session ".to_owned().concat(why.as_str());
            let summary = said.clone().concat(" after ").concat(seen.label.as_str());
            let silent = seen.silent && text::starts_with(why.as_str(), "went silent");
            Step::ExitAsking { why: said, summary, silent }
        },
    }
}

/// The run an exit goes on with.
pub open spec fn exited(seen: ExitingSeen) -> TaskRun {
    if closes(seen) {
        seen.closed->0
    } else {
        seen.run->0
    }
}

/// Whether the session's workspace is closed: whatever follows, but for a run
/// that keeps it for inspection.
pub open spec fn closes(seen: ExitingSeen) -> bool {
    seen.session is Some && seen.after != (AfterExit::Rest { close: false })
}

/// What `review_failed` records.
pub open spec fn failed_payload(
    attempt: usize,
    error: String,
    duration_secs: u64,
    status: RunStatus,
    ask: Option<i64>,
) -> json::Value {
    let base = json::none().push(("code"@, json::Value::Text(ReasonCode::JobFailed.name()))).push(
        ("attempt"@, json::Value::Int(attempt as int)),
    ).push(("error"@, json::Value::Text(error@))).push(
        ("duration_secs"@, json::Value::Int(duration_secs as int)),
    ).push(("status"@, json::Value::Text(status.name())));
    json::Value::Object(
        match ask {
            Some(ask) => base.push(("ask_id"@, json::Value::Int(ask as int))),
            None => base,
        },
    )
}

/// Giving the lease back and resting.
pub open spec fn rests(seen: ExitingSeen, r: Step) -> bool {
    if !seen.released {
        r is ReleaseLease
    } else if seen.reread is None {
        r is ReadRun
    } else {
        r == Step::Done(seen.reread->0)
    }
}

/// What an exit comes to.
pub open spec fn exits(seen: ExitingSeen, r: Step) -> bool {
    if !seen.ended {
        r is Continue
    } else if seen.run is None {
        r is ReadRun
    } else if closes(seen) && seen.closed is None {
        r is CloseSession
    } else {
        match seen.after {
            AfterExit::Land => if !seen.queued {
                r is QueueLanding
            } else {
                r == (Step::Await { run: exited(seen) })
            },
            AfterExit::Ask { .. } => match seen.ask {
                None => r is OpenLandingAsk,
                Some(Err(error)) => r == Step::Failed(error),
                Some(Ok(_)) => rests(seen, r),
            },
            AfterExit::ReviewFailed { attempt, error, duration_secs, output: _ } => match seen.ask {
                None => r is OpenFailedReviewAsk,
                Some(opened) => if !seen.recorded {
                    r matches Step::Record { kind, payload } && kind@ == "review_failed"@
                        && payload@ == failed_payload(
                        attempt,
                        error,
                        duration_secs,
                        exited(seen).status,
                        match opened {
                            Ok(ask) => Some(ask),
                            Err(_) => None,
                        },
                    )
                } else {
                    rests(seen, r)
                },
            },
            AfterExit::Rest { .. } => if !seen.released {
                r is ReleaseLease
            } else {
                r == Step::Done(exited(seen))
            },
        }
    }
}

/// Give the lease back and rest.
fn rest(seen: &ExitingSeen) -> (r: Step)
    ensures
        rests(*seen, r),
{
    if !seen.released {
        return Step::ReleaseLease;
    }
    match &seen.reread {
        None => Step::ReadRun,
        Some(run) => Step::Done(run.copy()),
    }
}

/// Once the session exited its workspace is closed (kept where a run rests for
/// inspection), and the run goes on as its phase before said. The ask of a
/// failed review goes with the failure; where it cannot be opened the failure
/// is the attention.
fn step_exiting(seen: &ExitingSeen) -> (r: Step)
    ensures
        exits(*seen, r),
{
    if !seen.ended {
        return Step::Continue;
    }
    let current = match &seen.run {
        None => return Step::ReadRun,
        Some(run) => run,
    };
    let keep = match &seen.after {
        AfterExit::Rest { close } => !*close,
        _ => false,
    };
    let run = if !keep && seen.session.is_some() {
        match &seen.closed {
            None => return Step::CloseSession,
            Some(run) => run,
        }
    } else {
        current
    };
    match &seen.after {
        AfterExit::Land => if !seen.queued {
            Step::QueueLanding
        } else {
            Step::Await { run: run.copy() }
        },
        AfterExit::Ask { .. } => match &seen.ask {
            None => Step::OpenLandingAsk,
            Some(Err(error)) => Step::Failed(error.clone()),
            Some(Ok(_)) => rest(seen),
        },
        AfterExit::ReviewFailed { attempt, error, duration_secs, output: _ } => match &seen.ask {
            None => Step::OpenFailedReviewAsk,
            Some(opened) => {
                if !seen.recorded {
                    let mut fields = Fields::new().text(
                        "code",
                        ReasonCode::JobFailed.as_str(),
                    ).number("attempt", *attempt as i128).text("error", error.as_str()).number(
                        "duration_secs",
                        *duration_secs as i128,
                    ).text("status", run.status.as_str());
                    if let Ok(ask) = opened {
                        fields = fields.number("ask_id", *ask as i128);
                    }
                    return Step::Record { kind: "review_failed", payload: fields.done() };
                }
                rest(seen)
            },
        },
        AfterExit::Rest { .. } => if !seen.released {
            Step::ReleaseLease
        } else {
            Step::Done(run.copy())
        },
    }
}

/// What a step of a slot comes to.
pub open spec fn steps(
    run: TaskRun,
    pass: Pass,
    holds: Option<bool>,
    phase: Phase,
    r: Step,
) -> bool {
    if phase is Landing {
        lands(run, phase->Landing_0, r)
    } else if holds is None {
        r is HoldsLease
    } else if !holds->0 {
        r is Disowned
    } else {
        match phase {
            Phase::Landing(seen) => lands(run, seen, r),
            Phase::Resume { decided } => if decided {
                r is FinishResumed
            } else {
                r is Continue
            },
            Phase::AwaitingSlot(seen) => awaits(pass, seen, r),
            Phase::Recovery(seen) => recovers(seen, r),
            Phase::Session(seen) => works(seen, r),
            Phase::Validating(seen) => validates(seen, r),
            Phase::Review(seen) => reviews(seen, r),
            Phase::Revise(seen) => revises(seen, r),
            Phase::Exiting(seen) => exits(seen, r),
        }
    }
}

/// One step of a slot: a landing is joined first; any other phase goes on only
/// while this process holds the run's lease.
pub fn step(run: &TaskRun, pass: Pass, holds: Option<bool>, phase: &Phase) -> (r: Step)
    ensures
        steps(*run, pass, holds, *phase, r),
{
    if let Phase::Landing(seen) = phase {
        return step_landing(run, seen);
    }
    match holds {
        None => return Step::HoldsLease,
        Some(holds) => if !holds {
            return Step::Disowned;
        },
    }
    match phase {
        Phase::Landing(seen) => step_landing(run, seen),
        Phase::Resume { decided } => if *decided {
            Step::FinishResumed
        } else {
            Step::Continue
        },
        Phase::AwaitingSlot(seen) => step_awaiting(pass, seen),
        Phase::Recovery(seen) => step_recovery(seen),
        Phase::Session(seen) => step_session(seen),
        Phase::Validating(seen) => step_validating(seen),
        Phase::Review(seen) => step_review(seen),
        Phase::Revise(seen) => step_revise(seen),
        Phase::Exiting(seen) => step_exiting(seen),
    }
}

/// Whether a step writes to the queue, changes the run or starts work for it.
pub open spec fn touches(r: Step) -> bool {
    match r {
        Step::Continue | Step::Disowned | Step::HoldsLease | Step::Failed(_) => false,
        _ => true,
    }
}

/// A run whose lease another process holds is not touched, whatever its phase:
/// but for a landing, which gave the lease back itself, the step is to disown
/// it.
pub proof fn a_lost_run_is_not_touched(
    run: TaskRun,
    pass: Pass,
    holds: Option<bool>,
    phase: Phase,
    r: Step,
)
    requires
        steps(run, pass, holds, phase, r),
        phase !is Landing,
        holds != Some(true),
    ensures
        !touches(r),
        holds == Some(false) ==> r is Disowned,
{
}

/// A landing starts only from the wait for the integration slot, with no
/// landing in progress, nothing that holds landings back, the head not held by
/// a recheck, and the slot taken.
pub proof fn a_landing_starts_only_in_a_free_slot(
    run: TaskRun,
    pass: Pass,
    holds: Option<bool>,
    phase: Phase,
    r: Step,
)
    requires
        steps(run, pass, holds, phase, r),
        r is Land,
    ensures
        holds == Some(true),
        !pass.run_env_missing,
        !pass.landing_short,
        phase matches Phase::AwaitingSlot(seen) && {
            &&& seen.integrating == Some(false)
            &&& seen.parked == Some(None::<TaskRun>)
            &&& seen.begun == Some(Ok::<TaskRun, String>(r->Land_run))
        },
{
}

/// A validated run is reviewed or lands, and lands unreviewed only where its
/// landing was approved.
pub proof fn an_unapproved_run_is_reviewed(seen: ValidatingSeen, r: Step)
    requires
        validates(seen, r),
        r == Step::Exit(AfterExit::Land),
    ensures
        seen.finished->0.status == RunStatus::AwaitingIntegration,
        seen.approved == Some(true),
{
}

/// A run rests only once its lease was given back, or once a recheck parked
/// it, or once its landing ended.
pub proof fn a_run_rests_without_its_lease(
    run: TaskRun,
    pass: Pass,
    holds: Option<bool>,
    phase: Phase,
    r: Step,
)
    requires
        steps(run, pass, holds, phase, r),
        r is Done,
    ensures
        match phase {
            Phase::Session(seen) => seen.released,
            Phase::Exiting(seen) => seen.released,
            Phase::AwaitingSlot(seen) => seen.released || seen.parked == Some(Some(r->Done_0)),
            Phase::Landing(seen) => seen.joined is Some,
            _ => false,
        },
{
}

/// A run in any phase but its landing is asked first whether it is still held;
/// a lost one is disowned, and a held one goes on with its phase.
pub proof fn a_slot_is_held_before_it_works(
    run: TaskRun,
    pass: Pass,
    holds: Option<bool>,
    phase: Phase,
    r: Step,
)
    requires
        steps(run, pass, holds, phase, r),
    ensures
        phase !is Landing && holds is None ==> r is HoldsLease,
        phase !is Landing && holds is Some && !holds->0 ==> r is Disowned,
        phase !is Landing && phase !is Recovery ==> (r is HoldsLease <==> holds is None) && (r
            is Disowned <==> holds is Some && !holds->0),
        phase is Landing ==> r !is HoldsLease && r !is Disowned,
        holds is Some && holds->0 && phase is Resume ==> (phase->decided ==> r is FinishResumed)
            && (!phase->decided ==> r is Continue),
{
}

/// A landing is waited for, its error is noted once with the run it is of, and
/// the run is then read and done, whatever it came to and whoever holds it.
pub proof fn a_landing_is_followed_to_its_end(
    run: TaskRun,
    pass: Pass,
    holds: Option<bool>,
    seen: LandingSeen,
    r: Step,
)
    requires
        steps(run, pass, holds, Phase::Landing(seen), r),
    ensures
        r is Continue <==> seen.joined is None,
        r is NoteError <==> seen.joined is Some && seen.joined->0 !is Done && !seen.noted,
        r matches Step::NoteError(e) ==> e.run_id@ == run.id@ && e.task_id == run.task_id && (
        seen.joined->0 matches Joined::Failed(error) ==> e.message@ == "landing failed: "@
            + error@),
        r is ReadRun <==> seen.joined is Some && (seen.joined->0 is Done || seen.noted) && seen.run
            is None,
        r matches Step::Done(done) ==> seen.run == Some(done),
        seen.joined is Some && (seen.joined->0 is Done || seen.noted) && seen.run is Some ==> r
            is Done,
{
}

/// A run that waits to land begins as soon as nothing else integrates, its
/// environment is there and there is room; it gives its place up only where
/// the supervisor drains, and where a recheck parked it.
pub proof fn a_waiting_run_lands_when_free(
    run: TaskRun,
    pass: Pass,
    seen: AwaitingSeen,
    r: Step,
)
    requires
        steps(run, pass, Some(true), Phase::AwaitingSlot(seen), r),
    ensures
        pass.run_env_missing || pass.landing_short ==> {
            &&& r is Continue <==> !pass.draining
            &&& r is ReleaseLease <==> pass.draining && !seen.released
            &&& r is Done ==> pass.draining && seen.released
        },
        !pass.run_env_missing && !pass.landing_short ==> {
            &&& r is ReleaseLease ==> false
            &&& seen.integrating is Some && seen.integrating->0 ==> r is Continue
            &&& r is BeginIntegration <==> seen.integrating is Some && !seen.integrating->0
                && seen.run is Some && seen.main is Some && (seen.parked matches Some(None))
                && seen.begun is None
            &&& r is Land <==> seen.integrating is Some && !seen.integrating->0 && seen.run is Some
                && seen.main is Some && (seen.parked matches Some(None)) && (
            seen.begun matches Some(Ok(_)))
            &&& r is Failed ==> (seen.begun matches Some(Err(_))) && seen.integrating_again is Some
                && !seen.integrating_again->0
            &&& r is Done <==> seen.integrating is Some && !seen.integrating->0 && seen.run is Some
                && seen.main is Some && (seen.parked matches Some(Some(_)))
        },
        r matches Step::BeginIntegration { main } ==> seen.main == Some(main),
        r matches Step::ParkHeldByRecheck { main } ==> seen.main == Some(main) && seen.parked
            is None,
        r matches Step::Land { run: begun, previous, main } ==> seen.begun == Some(
            Ok::<TaskRun, String>(begun),
        ) && previous == seen.run->0.status && seen.main == Some(main),
        r matches Step::Done(done) ==> done == (if pass.run_env_missing || pass.landing_short {
            seen.run->0
        } else {
            seen.parked->0->0
        }),
{
}

/// A recovery job's verdict is acted on once; where that or the job failed,
/// the failure is recorded for a run that is still held, and the run goes on
/// to triage.
pub proof fn a_recovery_is_acted_on_or_failed(
    run: TaskRun,
    pass: Pass,
    seen: RecoverySeen,
    r: Step,
)
    requires
        steps(run, pass, Some(true), Phase::Recovery(seen), r),
    ensures
        r is Continue <==> seen.outcome is None,
        r is ActOnRecovery <==> (seen.outcome matches Some(Ok(_))) && seen.run is Some && seen.acted
            is None,
        r matches Step::FailRecovery { error } ==> seen.holds is Some && seen.holds->0
            && !seen.failed && ((seen.outcome matches Some(Err(why)) && why@ == error@) || (
        seen.acted matches Some(Err(why)) && why@ == error@)),
        r is Disowned ==> seen.holds is Some && !seen.holds->0 && ((seen.outcome matches Some(
            Err(_),
        )) || (seen.acted matches Some(Err(_)))),
        r is Triaged ==> ((seen.outcome matches Some(Ok(_))) && (seen.acted matches Some(Ok(_))))
            || (seen.failed && seen.holds is Some && seen.holds->0),
        r matches Step::Triaged(done) ==> seen.reread == Some(done),
{
}

/// A session's end hands a run to be validated on to its validation, with its
/// own workspace; a run that ended otherwise is released and done.
pub proof fn a_session_ends_in_validation(
    run: TaskRun,
    pass: Pass,
    seen: SessionSeen,
    r: Step,
)
    requires
        steps(run, pass, Some(true), Phase::Session(seen), r),
    ensures
        r is Continue <==> seen.ended is None,
        r is Validate <==> (seen.ended matches Some(ended) && ended.status
            == RunStatus::Validating),
        r matches Step::Validate { run: ended, session } ==> seen.ended == Some(ended) && (
        session matches SessionKept::Worker { workspace } && workspace@ == seen.workspace@),
        r is ReleaseLease <==> (seen.ended matches Some(ended) && ended.status
            != RunStatus::Validating) && !seen.released,
        r matches Step::Done(done) ==> seen.ended == Some(done) && seen.released,
{
}

/// A validated run goes on to land only where it is approved; one that is not
/// is reviewed, unless a recheck parked it and a person is asked about it; one
/// that did not pass rests, and its session is kept for it where it needs one
/// to come back to.
pub proof fn a_validated_run_is_reviewed_or_lands(
    run: TaskRun,
    pass: Pass,
    seen: ValidatingSeen,
    r: Step,
)
    requires
        steps(run, pass, Some(true), Phase::Validating(seen), r),
    ensures
        r is Continue <==> seen.joined is None,
        r is Failed <==> seen.joined is Some && seen.joined->0 !is Done,
        r is FinishValidation <==> seen.joined is Some && seen.joined->0 is Done && seen.finished
            is None,
        r == Step::Exit(AfterExit::Land) <==> seen.joined is Some && seen.joined->0 is Done && (
        seen.finished matches Some(finished) && finished.status == RunStatus::AwaitingIntegration)
            && seen.approved is Some && seen.approved->0,
        r is StartReview <==> seen.joined is Some && seen.joined->0 is Done && (
        seen.finished matches Some(finished) && finished.status == RunStatus::AwaitingIntegration)
            && seen.approved is Some && !seen.approved->0 && seen.parked_by_recheck is Some && (
        seen.parked_by_recheck->0 ==> seen.unclosed_ask is Some && !seen.unclosed_ask->0),
        r matches Step::StartReview { run: of } ==> seen.finished == Some(of),
        r matches Step::Exit(AfterExit::Rest { close }) ==> (seen.finished matches Some(finished)
            && (if finished.status == RunStatus::AwaitingIntegration {
            close && seen.approved is Some && !seen.approved->0 && seen.parked_by_recheck is Some
                && seen.parked_by_recheck->0 && seen.unclosed_ask is Some && seen.unclosed_ask->0
        } else {
            close <==> finished.status == RunStatus::NeedsSession
        })),
        r matches Step::Exit(after) ==> after is Land || after is Rest,
{
}

/// A review's verdict is recorded as it was given and then acted on; a verdict
/// that cannot be read is asked for once more, and a review that failed ends
/// as one, with its error.
pub proof fn a_review_is_acted_on_or_failed(run: TaskRun, pass: Pass, seen: ReviewSeen, r: Step)
    requires
        steps(run, pass, Some(true), Phase::Review(seen), r),
    ensures
        r is Continue <==> seen.end is None,
        r is ReadRun <==> seen.end is Some && seen.run is None,
        r is ActOnVerdict <==> (seen.end matches Some(ReviewEnd::Verdict(_))) && seen.run is Some
            && seen.recorded,
        r matches Step::ActOnVerdict { run: of } ==> seen.run == Some(of),
        r matches Step::Record { kind, payload } ==> (seen.end matches Some(
            ReviewEnd::Verdict(verdict),
        ) && !seen.recorded && kind@ == "review_finished"@ && payload@ is Object
            && payload@->Object_0[0] == ("verdict"@, json::Value::Text(verdict.verdict.name()))
            && payload@->Object_0[2] == ("summary"@, json::Value::Text(verdict.summary@))
            && payload@->Object_0[4] == ("attempt"@, json::Value::Int(seen.attempt as int))),
        r is RetryReview <==> (seen.end matches Some(ReviewEnd::Unreadable(_))) && seen.run is Some
            && !seen.retried,
        r matches Step::Exit(after) ==> (after matches AfterExit::ReviewFailed {
            attempt,
            error,
            duration_secs,
            output,
        } && attempt == seen.attempt && duration_secs == seen.duration_secs && output == Some(
            seen.attempt,
        ) && ((seen.end matches Some(ReviewEnd::Failed(why)) && why@ == error@) || (seen.retried
            && (seen.end matches Some(ReviewEnd::Unreadable(why)) && why@ == error@))))
            && seen.span_closed,
{
}

/// A receipt a session rewrote is recorded and validated anew in the same
/// session; one that does not fit is sent back to be fixed; a session that
/// ended, or could not be told, ends in a question.
pub proof fn a_rewritten_receipt_is_validated(run: TaskRun, pass: Pass, seen: ReviseSeen, r: Step)
    requires
        steps(run, pass, Some(true), Phase::Revise(seen), r),
    ensures
        seen.outcome is None ==> r is Continue,
        r is Validate <==> (seen.outcome matches Some(ReviseOutcome::Rewritten(_)))
            && seen.recorded && seen.restarted is Some,
        r matches Step::Validate { run: of, session } ==> seen.restarted == Some(of) && session
            is Same,
        r is RestartValidation <==> (seen.outcome matches Some(ReviseOutcome::Rewritten(_)))
            && seen.recorded && seen.restarted is None,
        r is SendFixRequest <==> (seen.outcome matches Some(ReviseOutcome::Mismatch(_, _)))
            && seen.sent is None,
        r matches Step::SendFixRequest { code, why } ==> (seen.outcome matches Some(
            ReviseOutcome::Mismatch(c, w),
        ) && c == code && w@ == why@),
        r matches Step::ExitAsking { silent, .. } ==> ((seen.outcome matches Some(
            ReviseOutcome::Ended(_),
        )) || ((seen.outcome matches Some(ReviseOutcome::Mismatch(_, _))) && (
        seen.sent matches Some(Err(_))))) && (silent ==> seen.silent),
        (seen.outcome matches Some(ReviseOutcome::Ended(_))) ==> r is ExitAsking,
        r matches Step::Record { kind, .. } ==> !seen.recorded && kind@ == (match (
            seen.outcome->0 is Rewritten,
            seen.fix,
        ) {
            (true, Fix::Revise) => "revise_finished"@,
            (true, Fix::Conflict) => "conflict_resolved"@,
            (false, Fix::Revise) => "revise_receipt_rejected"@,
            (false, Fix::Conflict) => "conflict_receipt_rejected"@,
        }),
{
}

/// What a session's exit is for is done after it: an approved run is queued to
/// land, a question is opened about one that is not, a failed review is
/// recorded with its question, and one that rests is released and done.
pub proof fn an_exit_ends_in_what_it_is_for(run: TaskRun, pass: Pass, seen: ExitingSeen, r: Step)
    requires
        steps(run, pass, Some(true), Phase::Exiting(seen), r),
    ensures
        r is Continue <==> !seen.ended,
        r is CloseSession <==> seen.ended && seen.run is Some && seen.session is Some && !(
        seen.after matches AfterExit::Rest { close } && !close) && seen.closed is None,
        r is QueueLanding || r is Await ==> seen.after is Land,
        r is OpenLandingAsk ==> seen.after is Ask && seen.ask is None,
        r is OpenFailedReviewAsk ==> seen.after is ReviewFailed && seen.ask is None,
        r is Await ==> seen.queued,
        r is Failed ==> seen.after is Ask && (seen.ask matches Some(Err(_))),
        r is ReleaseLease ==> seen.after !is Land && !seen.released,
        r is ReleaseLease && seen.after is Ask ==> (seen.ask matches Some(Ok(_))),
        r is ReleaseLease && seen.after is ReviewFailed ==> seen.recorded,
        r is Done ==> seen.after !is Land && seen.released,
        seen.ended && seen.run is Some && (seen.session is Some && !(seen.after matches AfterExit::Rest {
            close,
        } && !close) ==> seen.closed is Some) ==> {
            &&& seen.after is Land && !seen.queued ==> r is QueueLanding
            &&& seen.after is Land && seen.queued ==> r is Await
            &&& seen.after is Ask && seen.ask is None ==> r is OpenLandingAsk
            &&& seen.after is ReviewFailed && seen.ask is None ==> r is OpenFailedReviewAsk
            &&& seen.after is Rest && !seen.released ==> r is ReleaseLease
            &&& seen.after is Rest && seen.released ==> r is Done
        },
{
}

} // verus!
