//! The watch of one resumed session: its wrapper's registration, the
//! resolution request once its input box is ready, the rewritten receipt and
//! the idle marker, the single `/exit`, and the wrapper's exit.

use crate::domain::{Failing, ReasonCode, ReceiptResult, RunEvent, RunProcess, TaskRun};
use crate::json;
use crate::json::{Fields, Json};
use crate::path;
use crate::supervise::adopt::{has_event, recorded};
use crate::supervise::clock::{
    at_second, passed, second, secs, since, unix, unix_seconds, whole_secs, Timeouts,
};
use crate::supervise::exit::{
    led, stuck_exit_after, wrapper_from, wrapper_of, LiveStep, WrapperPulse,
};
use crate::supervise::resume::{adopt_resume, adopted, in_progress, AdoptedResume};
use crate::text;
use vstd::prelude::*;
use vstd::string::*;

verus! {

/// The one request of an attempt to rewrite a receipt for an older commit.
#[derive(Debug, Clone, Copy, PartialEq, Eq, Structural)]
pub struct StaleNudge {
    /// When it was typed, or its clock restarted.
    pub at: i128,
    /// How it ended is recorded.
    pub settled: bool,
}

/// When something was sent, on the monotonic clock and on the one that stamps
/// files.
#[derive(Debug, Clone, Copy, PartialEq, Eq, Structural)]
pub struct Sent {
    pub at: u128,
    pub wall: i128,
}

/// Watches one resumed session.
pub struct ResumeWatch {
    pub workspace: String,
    pub attempt: usize,
    pub run_dir: String,
    pub receipt_path: String,
    pub idle_marker: String,
    /// A receipt no newer than this is the one from before the resume.
    pub started_at: i128,
    pub startup: u128,
    /// The resolution request.
    pub message: String,
    pub agent_seen: Option<u128>,
    /// Since when every screen read showed the input box ready.
    pub ready_since: Option<u128>,
    /// The inbox was asked about an input box that is not ready.
    pub not_ready_asked: bool,
    /// When the request was sent, for its timeout and for the idle marker of
    /// the response to it.
    pub message_sent: Option<Sent>,
    pub exit_requested: Option<u128>,
    /// The `/exit` was typed: it is not typed over a dialog.
    pub exit_typed: bool,
    /// Its integrate was called: resolved, it exits and lands without a review.
    pub approved: bool,
    /// The wrapper's silence is recorded.
    pub silent: bool,
    /// The `/exit` was sent because of that silence.
    pub exit_for_silence: bool,
    pub stale: Option<StaleNudge>,
    /// When something was last typed into the session.
    pub input_at: Option<i128>,
}

/// A receipt as a resumed session left it.
pub struct ReceiptLook {
    pub run_id: String,
    pub result: ReceiptResult,
    pub commit: String,
    pub summary: String,
    /// It lacks evidence the task requires.
    pub evidence_missing: bool,
}

/// The receipt's file: when it was written, and the receipt it holds, as far
/// as either can be read.
pub struct ReceiptFile {
    pub modified: Option<i128>,
    pub receipt: Option<ReceiptLook>,
}

/// What a resumed session left behind.
pub enum ResumeOutcome {
    /// A rewritten `succeeded` receipt names the worktree head.
    Resolved,
    /// A rewritten receipt reports `failed`.
    Failed(String),
    /// Anything else: no rewritten receipt, or one for another commit.
    Unresolved,
}

/// How a resumed session ended.
pub struct ResumeVerdict {
    pub kind: ResumeOutcome,
    pub head: Option<String>,
    /// The session did not exit in time: it is let go, still running.
    pub exit_timed_out: bool,
    /// The session resolved the run and still runs, never asked to exit.
    pub live: bool,
}

/// The name of an outcome.
pub open spec fn outcome_name(kind: ResumeOutcome) -> Seq<char> {
    match kind {
        ResumeOutcome::Resolved => "resolved"@,
        ResumeOutcome::Failed(_) => "failed"@,
        ResumeOutcome::Unresolved => "unresolved"@,
    }
}

impl ResumeVerdict {
    /// Its outcome's name on the queue.
    pub fn outcome(&self) -> (r: &'static str)
        ensures
            r@ == outcome_name(self.kind),
    {
        match &self.kind {
            ResumeOutcome::Resolved => "resolved",
            ResumeOutcome::Failed(_) => "failed",
            ResumeOutcome::Unresolved => "unresolved",
        }
    }
}

/// The receipt a session rewrote after `started_at`, if any.
pub open spec fn rewritten(started_at: i128, file: ReceiptFile) -> Option<ReceiptLook> {
    if file.modified is Some && file.modified->0 > started_at {
        file.receipt
    } else {
        None
    }
}

/// Whether an outcome is the one that follows from a rewritten receipt and the
/// head of a clean worktree.
pub open spec fn is_outcome(
    run_id: Seq<char>,
    receipt: Option<ReceiptLook>,
    head: Option<Seq<char>>,
    kind: ResumeOutcome,
) -> bool {
    match receipt {
        None => kind is Unresolved,
        Some(receipt) => if receipt.run_id@ != run_id {
            kind is Unresolved
        } else if receipt.result == ReceiptResult::Failed {
            kind matches ResumeOutcome::Failed(why) && why@
                == "session reported the run as failed: "@ + receipt.summary@
        } else if head == Some(text::lowered(receipt.commit@)) && !receipt.evidence_missing {
            kind is Resolved
        } else {
            kind is Unresolved
        },
    }
}

impl ResumeWatch {
    /// The receipt the session rewrote during this resume, if any.
    pub fn rewritten_receipt<'a>(&self, file: &'a ReceiptFile) -> (r: Option<&'a ReceiptLook>)
        ensures
            match r {
                Some(look) => rewritten(self.started_at, *file) == Some(*look),
                None => rewritten(self.started_at, *file) is None,
            },
    {
        match file.modified {
            Some(modified) => if modified > self.started_at {
                match &file.receipt {
                    Some(look) => Some(look),
                    None => None,
                }
            } else {
                None
            },
            None => None,
        }
    }

    /// What the session left behind. `head` is the head of the worktree where
    /// that is clean: a resolving receipt must name a clean head.
    pub fn verdict(&self, run: &TaskRun, file: &ReceiptFile, head: &Option<String>) -> (r:
        ResumeOutcome)
        ensures
            is_outcome(
                run.id@,
                rewritten(self.started_at, *file),
                text::opt_view(*head),
                r,
            ),
    {
        let receipt = match self.rewritten_receipt(file) {
            None => return ResumeOutcome::Unresolved,
            Some(receipt) => receipt,
        };
        if !text::same(receipt.run_id.as_str(), run.id.as_str()) {
            return ResumeOutcome::Unresolved;
        }
        if receipt.result == ReceiptResult::Failed {
            return ResumeOutcome::Failed(
                "session reported the run as failed: ".to_owned().concat(
                    receipt.summary.as_str(),
                ),
            );
        }
        match head {
            None => ResumeOutcome::Unresolved,
            Some(head) => {
                let commit = text::ascii_lower(receipt.commit.as_str());
                if text::same(head.as_str(), commit.as_str()) && !receipt.evidence_missing {
                    ResumeOutcome::Resolved
                } else {
                    ResumeOutcome::Unresolved
                }
            },
        }
    }

    /// Start the stage's clocks again: the resume timeout of the request, or
    /// before it the wait for a ready input box, and the timeout of a request
    /// to rewrite a stale receipt that is not settled. `at` is the monotonic
    /// clock, `wall` the one that stamps files.
    pub fn restart_clocks(&mut self, at: u128, wall: i128)
        ensures
            *final(self) == restarted(*old(self), at, wall),
    {
        match self.message_sent {
            Some(sent) => {
                self.message_sent = Some(Sent { at, wall: sent.wall });
            },
            None => {
                if self.agent_seen.is_some() {
                    self.agent_seen = Some(at);
                }
                self.ready_since = None;
            },
        }
        if let Some(nudge) = self.stale {
            if !nudge.settled {
                self.stale = Some(StaleNudge { at: wall, settled: false });
            }
        }
    }

    /// An answer was typed: the session works again, from new clocks.
    pub fn answered(&mut self, typed: i128, at: u128, wall: i128)
        ensures
            *final(self) == restarted(
                ResumeWatch { input_at: Some(typed), ..*old(self) },
                at,
                wall,
            ),
    {
        self.input_at = Some(typed);
        self.restart_clocks(at, wall);
    }

    /// The screen showed a ready input box, or none: it is ready since the
    /// first of the screens that all showed it.
    pub fn box_seen(&mut self, ready: bool, at: u128)
        ensures
            *final(self) == (ResumeWatch {
                ready_since: if !ready {
                    None
                } else if old(self).ready_since is Some {
                    old(self).ready_since
                } else {
                    Some(at)
                },
                ..*old(self)
            }),
    {
        if !ready {
            self.ready_since = None;
        } else if self.ready_since.is_none() {
            self.ready_since = Some(at);
        }
    }

    /// The `/exit` was asked for now.
    pub fn exit_asked(&mut self, at: u128, typed: bool, for_silence: bool)
        ensures
            *final(self) == (ResumeWatch {
                exit_requested: Some(at),
                exit_typed: old(self).exit_typed || typed,
                exit_for_silence: old(self).exit_for_silence || for_silence,
                ..*old(self)
            }),
    {
        self.exit_requested = Some(at);
        self.exit_typed = self.exit_typed || typed;
        self.exit_for_silence = self.exit_for_silence || for_silence;
    }
}

/// The watch with its stage's clocks started again.
pub open spec fn restarted(watch: ResumeWatch, at: u128, wall: i128) -> ResumeWatch {
    ResumeWatch {
        message_sent: match watch.message_sent {
            Some(sent) => Some(Sent { at, wall: sent.wall }),
            None => None,
        },
        agent_seen: if watch.message_sent is None && watch.agent_seen is Some {
            Some(at)
        } else {
            watch.agent_seen
        },
        ready_since: if watch.message_sent is None {
            None
        } else {
            watch.ready_since
        },
        stale: match watch.stale {
            Some(nudge) => if nudge.settled {
                Some(nudge)
            } else {
                Some(StaleNudge { at: wall, settled: false })
            },
            None => None,
        },
        ..watch
    }
}

/// A later clock gives a stage more time: after a restart no timeout of the
/// stage has run.
pub proof fn a_restart_gives_the_whole_timeout(watch: ResumeWatch, at: u128, wall: i128)
    ensures
        restarted(watch, at, wall).message_sent is Some ==> passed(
            restarted(watch, at, wall).message_sent->0.at,
            at,
        ) == 0,
        restarted(watch, at, wall).message_sent is None && watch.agent_seen is Some ==> passed(
            restarted(watch, at, wall).agent_seen->0,
            at,
        ) == 0,
{
}

/// What has been done and observed in a poll of a resumed session.
#[derive(Default)]
pub struct ResumeSeen {
    pub processes: Option<Vec<RunProcess>>,
    // Of a session that exited, or is let go.
    /// Its recovery jobs are stopped and its dialog asks closed.
    pub ended: bool,
    pub stale_settled: bool,
    pub screen: Option<Result<String, String>>,
    pub screen_kept: bool,
    /// The head of the worktree, and whether it is clean, as far as they can
    /// be read.
    pub head: Option<Option<String>>,
    pub clean: Option<bool>,
    pub receipt: Option<ReceiptFile>,
    // Of a session that was asked to exit.
    pub pulse: Option<WrapperPulse>,
    pub dialog: Option<bool>,
    pub followed: Option<LiveStep>,
    pub exhausted: Option<bool>,
    /// The `stuck_exit` ask, or why it could not be opened.
    pub ask: Option<Result<i64, String>>,
    pub escalation_recorded: bool,
    // Of a session at work.
    /// When an answer was typed in this poll, if one was.
    pub delivered: Option<Option<i128>>,
    pub answer_noted: bool,
    pub prompt_watched: bool,
    pub start_polled: bool,
    pub question_open: Option<bool>,
    pub idle_watched: bool,
    /// When its last question was closed, in seconds since the epoch.
    pub last_closed: Option<Option<i64>>,
    pub input_moved: bool,
    /// An idle marker is there; it is after the receipt; it is since the last
    /// input.
    pub idle: Option<bool>,
    pub idle_after_receipt: Option<bool>,
    pub idle_since: Option<bool>,
    /// The receipt is one for an older commit, and the session was asked to
    /// rewrite it.
    pub stale_receipt: Option<bool>,
    pub nudged: Option<bool>,
    /// The request to rewrite it ran out of its own time.
    pub nudge_waited_out: Option<bool>,
    /// The receipt was rewritten after that request.
    pub nudge_rewritten: Option<bool>,
    pub live_ended: bool,
}

/// What a poll of a resumed session does next, or what it came to.
pub enum ResumeStep {
    /// Nothing more in this poll.
    Wait,
    Failed(String),
    Verdict(ResumeVerdict),
    Processes,
    /// Stop its recovery jobs with this outcome, forget its dialog and close
    /// what asked about it: the session exited.
    EndSession { outcome: &'static str },
    SettleStale { outcome: &'static str },
    Capture,
    WriteScreen { file: String },
    Record { kind: &'static str, payload: Json },
    /// Record it with the reason of the error, of this code where the error
    /// has none of its own.
    RecordFailure { kind: &'static str, payload: Json, fallback: ReasonCode },
    Head { worktree: String },
    Status { worktree: String },
    ReadReceipt,
    Pulse,
    /// The silence is over.
    ForgetSilence,
    /// Ask the session to exit, and type the `/exit` where `typed`.
    RequestExit { typed: bool, for_silence: bool },
    AnswerDialog { typed: bool },
    /// The session gets the exit timeout again.
    RestartExit,
    /// Follow the recovery job of the held `/exit`.
    Follow { facts: Json },
    Exhausted,
    AskStuckExit { attempt: usize, after: String },
    RecordEscalation { attempt: usize, ask: i64 },
    /// The agent is there: send the request once its input box is ready.
    SendWhenReady,
    DeliverAnswers,
    NoteAnswer { when: i128 },
    WatchPrompt,
    PollStart,
    QuestionOpen,
    WatchIdle,
    LastClosed,
    /// The last input is this one now; the clocks start again.
    MoveInput { at: i128 },
    IdleMarker,
    IdleAfterReceipt,
    IdleSince { at: i128 },
    StaleReceipt,
    /// Ask the session to rewrite its receipt for the head.
    Nudge,
    NudgeWaitedOut,
    NudgeRewritten,
    /// The stage ends: its dialog is cleared and its recovery job stopped with
    /// this outcome.
    EndLive { outcome: &'static str },
}

/// What `exit_requested` records.
pub open spec fn exit_payload(watch: ResumeWatch, timeouts: Timeouts) -> json::Value {
    json::Value::Object(
        json::none().push(("workspace_id"@, json::Value::Text(watch.workspace@))).push(
            ("timeout_secs"@, json::Value::Int(whole_secs(timeouts.exit))),
        ).push(("resume_attempt"@, json::Value::Int(watch.attempt as int))),
    )
}

/// What the exit of a resumed session comes to.
pub open spec fn session_exited(
    watch: ResumeWatch,
    run: TaskRun,
    worktree: String,
    seen: ResumeSeen,
    r: ResumeStep,
) -> bool {
    if !seen.ended {
        r matches ResumeStep::EndSession { outcome } && outcome@ == "session_ended"@
    } else if watch.stale is Some && !seen.stale_settled {
        r matches ResumeStep::SettleStale { outcome } && outcome@ == "run_ended"@
    } else if seen.screen is None {
        r is Capture
    } else if !seen.screen_kept {
        match seen.screen->0 {
            Ok(_) => r matches ResumeStep::WriteScreen { file } && file@ == path::under(
                watch.run_dir@,
                "terminal-resume-"@ + text::decimal(watch.attempt as nat) + ".txt"@,
            ),
            Err(error) => r matches ResumeStep::RecordFailure { kind, payload, fallback } && kind@
                == "screen_capture_failed"@ && payload@ == json::Value::Object(
                json::none().push(("error"@, json::Value::Text(error@))),
            ) && fallback == Failing::Screen.code(),
        }
    } else if seen.head is None {
        r == (ResumeStep::Head { worktree })
    } else if seen.clean is None {
        r == (ResumeStep::Status { worktree })
    } else if seen.receipt is None {
        r is ReadReceipt
    } else {
        r matches ResumeStep::Verdict(verdict) && {
            &&& is_outcome(
                run.id@,
                rewritten(watch.started_at, seen.receipt->0),
                if seen.clean->0 {
                    text::opt_view(seen.head->0)
                } else {
                    None
                },
                verdict.kind,
            )
            &&& verdict.head == seen.head->0
            &&& !verdict.exit_timed_out
            &&& !verdict.live
        }
    }
}

/// Letting a session go that held its `/exit` back.
pub open spec fn lets_go(worktree: String, seen: ResumeSeen, r: ResumeStep) -> bool {
    if seen.head is None {
        r == (ResumeStep::Head { worktree })
    } else {
        r matches ResumeStep::Verdict(verdict) && verdict.kind is Unresolved && verdict.head
            == seen.head->0 && verdict.exit_timed_out && !verdict.live
    }
}

/// What a resumed session that was asked to exit comes to.
pub open spec fn session_exiting(
    watch: ResumeWatch,
    worktree: String,
    timeouts: Timeouts,
    at: u128,
    seen: ResumeSeen,
    r: ResumeStep,
) -> bool {
    if passed(watch.exit_requested->0, at) < timeouts.exit {
        r is Wait
    } else if seen.dialog is None {
        r == (ResumeStep::AnswerDialog { typed: watch.exit_typed })
    } else if seen.dialog->0 {
        r is RestartExit
    } else {
        match seen.followed {
            None => r matches ResumeStep::Follow { facts } && facts@ == json::Value::Object(
                json::none().push(
                    ("timeout_secs"@, json::Value::Int(whole_secs(timeouts.exit))),
                ).push(("exit_typed"@, json::Value::Bool(watch.exit_typed))).push(
                    ("resume_attempt"@, json::Value::Int(watch.attempt as int)),
                ),
            ),
            Some(LiveStep::Pending) => r is Wait,
            Some(LiveStep::Repaired { closed: _, exit_again }) => if exit_again {
                r is RestartExit
            } else {
                r is Wait
            },
            Some(LiveStep::Failed) => lets_go(worktree, seen, r),
            Some(LiveStep::Escalate { attempt }) => if seen.exhausted is None {
                r is Exhausted
            } else {
                match seen.ask {
                    None => r matches ResumeStep::AskStuckExit { attempt: a, after } && a == attempt
                        && after@ == led(
                        watch.exit_for_silence,
                        if seen.exhausted->0 {
                            "The run stays needs_session after its last resume attempt, and goes to its recovery job once the session exits"@
                        } else {
                            "The run stays needs_session, and the supervisor resumes it again once the session exits"@
                        },
                    ),
                    Some(Ok(ask)) => if !seen.escalation_recorded {
                        r == (ResumeStep::RecordEscalation { attempt, ask })
                    } else {
                        lets_go(worktree, seen, r)
                    },
                    Some(Err(_)) => lets_go(worktree, seen, r),
                }
            },
        }
    }
}

/// Whether an agent is registered, and not exited where `live`.
pub open spec fn has_agent(processes: Seq<RunProcess>, live: bool) -> bool {
    exists|i: int|
        0 <= i < processes.len() && (#[trigger] processes[i]).role@ == "agent"@ && (!live
            || processes[i].exited_at is None)
}

/// When something was last typed, no earlier than the request.
pub open spec fn last_input(watch: ResumeWatch) -> i128 {
    let sent = watch.message_sent->0.wall;
    match watch.input_at {
        Some(input) => if input > sent {
            input
        } else {
            sent
        },
        None => sent,
    }
}

/// From when an idle marker answers the session's last turn.
pub open spec fn answered_from(watch: ResumeWatch) -> i128 {
    let input = last_input(watch);
    match watch.stale {
        Some(nudge) => if nudge.at > input {
            nudge.at
        } else {
            input
        },
        None => input,
    }
}

/// What asking a session that is at its end to exit comes to: how the request
/// to rewrite its receipt ended is recorded first.
pub open spec fn ends_turn(watch: ResumeWatch, seen: ResumeSeen, r: ResumeStep) -> bool {
    if settles_first(watch, seen, r) {
        true
    } else {
        settled(watch, seen) && r == (ResumeStep::RequestExit { typed: true, for_silence: false })
    }
}

/// How a request to rewrite a receipt ended is recorded, or there was none.
pub open spec fn settled(watch: ResumeWatch, seen: ResumeSeen) -> bool {
    watch.stale is None || (seen.nudge_rewritten is Some && seen.stale_settled)
}

/// Recording how a request to rewrite a receipt ended.
pub open spec fn settles_first(watch: ResumeWatch, seen: ResumeSeen, r: ResumeStep) -> bool {
    !settled(watch, seen) && (if seen.nudge_rewritten is None {
        r is NudgeRewritten
    } else {
        r matches ResumeStep::SettleStale { outcome } && outcome@ == (if seen.nudge_rewritten->0 {
            "rewritten"@
        } else {
            "unchanged"@
        })
    })
}

/// What a turn that did not come to a verdict comes to past its time.
pub open spec fn times_out(
    watch: ResumeWatch,
    timeouts: Timeouts,
    at: u128,
    seen: ResumeSeen,
    r: ResumeStep,
) -> bool {
    if passed(watch.message_sent->0.at, at) < timeouts.resume {
        r is Wait
    } else if watch.stale is Some && !watch.stale->0.settled && seen.nudge_waited_out is None {
        r is NudgeWaitedOut
    } else if watch.stale is Some && !watch.stale->0.settled && !seen.nudge_waited_out->0 {
        r is Wait
    } else {
        ends_turn(watch, seen, r)
    }
}

/// What the turn of a session at work comes to, by its outcome so far.
pub open spec fn turn(
    watch: ResumeWatch,
    timeouts: Timeouts,
    at: u128,
    kind: ResumeOutcome,
    seen: ResumeSeen,
    r: ResumeStep,
) -> bool {
    let idle = seen.idle->0;
    if kind !is Unresolved && idle && seen.idle_after_receipt is None {
        r is IdleAfterReceipt
    } else if kind !is Unresolved && idle && seen.idle_after_receipt->0 {
        if kind is Resolved && !watch.approved {
            if settles_first(watch, seen, r) {
                true
            } else {
                settled(watch, seen) && (if !seen.live_ended {
                    r matches ResumeStep::EndLive { outcome } && outcome@ == "session_ended"@
                } else {
                    r matches ResumeStep::Verdict(verdict) && verdict.kind is Resolved
                        && verdict.head == seen.head->0 && !verdict.exit_timed_out && verdict.live
                })
            }
        } else {
            ends_turn(watch, seen, r)
        }
    } else if kind is Unresolved && idle && seen.idle_since is None {
        r == (ResumeStep::IdleSince { at: answered_from(watch) })
    } else if kind is Unresolved && idle && seen.idle_since->0 {
        if watch.stale is None && seen.stale_receipt is None {
            r is StaleReceipt
        } else if watch.stale is None && seen.stale_receipt->0 && seen.nudged is None {
            r is Nudge
        } else if seen.nudged == Some(true) {
            r is Wait
        } else {
            ends_turn(watch, seen, r)
        }
    } else {
        times_out(watch, timeouts, at, seen, r)
    }
}

/// What a session at work comes to.
pub open spec fn session_works(
    watch: ResumeWatch,
    run: TaskRun,
    worktree: String,
    timeouts: Timeouts,
    at: u128,
    seen: ResumeSeen,
    r: ResumeStep,
) -> bool {
    let processes = seen.processes->0@;
    if watch.message_sent is None {
        if has_agent(processes, false) {
            r is SendWhenReady
        } else {
            r is Wait
        }
    } else if seen.delivered is None {
        r is DeliverAnswers
    } else if seen.delivered->0 is Some && !seen.answer_noted {
        r == (ResumeStep::NoteAnswer { when: seen.delivered->0->0 })
    } else if has_agent(processes, true) && !seen.prompt_watched {
        r is WatchPrompt
    } else if !seen.start_polled {
        r is PollStart
    } else if seen.question_open is None {
        r is QuestionOpen
    } else if seen.question_open->0 {
        r is Wait
    } else if !seen.idle_watched {
        r is WatchIdle
    } else if seen.last_closed is None {
        r is LastClosed
    } else if seen.last_closed->0 is Some && !seen.input_moved && seen.last_closed->0->0 > unix(
        match watch.input_at {
            Some(input) => input,
            None => watch.message_sent->0.wall,
        },
    ) {
        r matches ResumeStep::MoveInput { at: moved } && moved == at_second(
            seen.last_closed->0->0,
        )
    } else if seen.idle is None {
        r is IdleMarker
    } else if seen.head is None {
        r == (ResumeStep::Head { worktree })
    } else if seen.clean is None {
        r == (ResumeStep::Status { worktree })
    } else if seen.receipt is None {
        r is ReadReceipt
    } else {
        exists|kind: ResumeOutcome|
            #![trigger turn(watch, timeouts, at, kind, seen, r)]
            is_outcome(
                run.id@,
                rewritten(watch.started_at, seen.receipt->0),
                if seen.clean->0 {
                    text::opt_view(seen.head->0)
                } else {
                    None
                },
                kind,
            ) && turn(watch, timeouts, at, kind, seen, r)
    }
}

/// What a poll of a resumed session comes to.
pub open spec fn resume_polls(
    watch: ResumeWatch,
    run: TaskRun,
    timeouts: Timeouts,
    at: u128,
    seen: ResumeSeen,
    r: ResumeStep,
) -> bool {
    if seen.processes is None {
        r is Processes
    } else {
        let processes = seen.processes->0@;
        match wrapper_from(processes, 0) {
            None => if passed(watch.startup, at) < timeouts.registration {
                r is Wait
            } else {
                r matches ResumeStep::Failed(why) && why@
                    == "resumed session's wrapper did not register within "@ + text::decimal(
                    whole_secs(timeouts.registration) as nat,
                ) + " seconds"@
            },
            Some(i) => if run.worktree_path is None {
                r matches ResumeStep::Failed(why) && why@ == "missing worktree"@
            } else if processes[i].exited_at is Some {
                session_exited(watch, run, run.worktree_path->0, seen, r)
            } else {
                match seen.pulse {
                    None => r is Pulse,
                    Some(WrapperPulse::Exited) => r is Wait,
                    Some(pulse) => if watch.exit_requested is None && pulse == WrapperPulse::Fresh
                        && watch.silent {
                        r is ForgetSilence
                    } else if watch.exit_requested is None && pulse == WrapperPulse::Silent {
                        r == (ResumeStep::RequestExit { typed: true, for_silence: true })
                    } else if watch.exit_requested is Some {
                        session_exiting(watch, run.worktree_path->0, timeouts, at, seen, r)
                    } else {
                        session_works(watch, run, run.worktree_path->0, timeouts, at, seen, r)
                    },
                }
            },
        }
    }
}

/// Whether an agent is registered, and not exited where `live`.
fn find_agent(processes: &Vec<RunProcess>, live: bool) -> (r: bool)
    ensures
        r == has_agent(processes@, live),
{
    let mut i: usize = 0;
    while i < processes.len()
        invariant
            i <= processes@.len(),
            forall|j: int|
                0 <= j < i ==> !((#[trigger] processes@[j]).role@ == "agent"@ && (!live
                    || processes@[j].exited_at is None)),
        decreases processes@.len() - i,
    {
        if text::same(processes[i].role.as_str(), "agent") && (!live
            || processes[i].exited_at.is_none()) {
            assert(processes@[i as int].role@ == "agent"@);
            return true;
        }
        i += 1;
    }
    false
}

impl ResumeWatch {
    /// The session exited: its screen is kept, and it left what it left.
    fn exited(
        &self,
        run: &TaskRun,
        worktree: &String,
        seen: &ResumeSeen,
    ) -> (r: ResumeStep)
        ensures
            session_exited(*self, *run, *worktree, *seen, r),
    {
        if !seen.ended {
            return ResumeStep::EndSession { outcome: "session_ended" };
        }
        if self.stale.is_some() && !seen.stale_settled {
            return ResumeStep::SettleStale { outcome: "run_ended" };
        }
        let screen = match &seen.screen {
            None => return ResumeStep::Capture,
            Some(screen) => screen,
        };
        if !seen.screen_kept {
            return match screen {
                Ok(_) => {
                    let n = text::number(self.attempt as u64);
                    let name = "terminal-resume-".to_owned().concat(n.as_str()).concat(".txt");
                    ResumeStep::WriteScreen {
                        file: path::join_path(self.run_dir.as_str(), name.as_str()),
                    }
                },
                Err(error) => ResumeStep::RecordFailure {
                    kind: "screen_capture_failed",
                    payload: Fields::new().text("error", error.as_str()).done(),
                    fallback: Failing::Screen.fallback(),
                },
            };
        }
        let head = match &seen.head {
            None => return ResumeStep::Head { worktree: worktree.clone() },
            Some(head) => head,
        };
        let clean = match seen.clean {
            None => return ResumeStep::Status { worktree: worktree.clone() },
            Some(clean) => clean,
        };
        let file = match &seen.receipt {
            None => return ResumeStep::ReadReceipt,
            Some(file) => file,
        };
        let kind = if clean {
            self.verdict(run, file, head)
        } else {
            self.verdict(run, file, &None)
        };
        ResumeStep::Verdict(
            ResumeVerdict {
                kind,
                head: crate::domain::same_text(head),
                exit_timed_out: false,
                live: false,
            },
        )
    }

    /// The session is let go, still running.
    fn let_go(&self, worktree: &String, seen: &ResumeSeen) -> (r: ResumeStep)
        ensures
            lets_go(*worktree, *seen, r),
    {
        match &seen.head {
            None => ResumeStep::Head { worktree: worktree.clone() },
            Some(head) => ResumeStep::Verdict(
                ResumeVerdict {
                    kind: ResumeOutcome::Unresolved,
                    head: crate::domain::same_text(head),
                    exit_timed_out: true,
                    live: false,
                },
            ),
        }
    }

    /// The session was asked to exit. A known dialog answered by rule gets the
    /// exit timeout again; past it the recovery job looks first, and what it
    /// escalates is asked before the session is let go.
    fn exiting(
        &self,
        requested: u128,
        worktree: &String,
        timeouts: &Timeouts,
        at: u128,
        seen: &ResumeSeen,
    ) -> (r: ResumeStep)
        requires
            self.exit_requested == Some(requested),
        ensures
            session_exiting(*self, *worktree, *timeouts, at, *seen, r),
    {
        if since(requested, at) < timeouts.exit {
            return ResumeStep::Wait;
        }
        match seen.dialog {
            None => return ResumeStep::AnswerDialog { typed: self.exit_typed },
            Some(answered) => if answered {
                return ResumeStep::RestartExit;
            },
        }
        let followed = match seen.followed {
            None => {
                let facts = Fields::new().number(
                    "timeout_secs",
                    secs(timeouts.exit) as i128,
                ).flag("exit_typed", self.exit_typed).number(
                    "resume_attempt",
                    self.attempt as i128,
                ).done();
                return ResumeStep::Follow { facts };
            },
            Some(followed) => followed,
        };
        let attempt = match followed {
            LiveStep::Pending => return ResumeStep::Wait,
            LiveStep::Repaired { closed: _, exit_again } => {
                return if exit_again {
                    ResumeStep::RestartExit
                } else {
                    ResumeStep::Wait
                };
            },
            LiveStep::Failed => return self.let_go(worktree, seen),
            LiveStep::Escalate { attempt } => attempt,
        };
        let exhausted = match seen.exhausted {
            None => return ResumeStep::Exhausted,
            Some(exhausted) => exhausted,
        };
        match &seen.ask {
            None => {
                let after = if exhausted {
                    "The run stays needs_session after its last resume attempt, and goes to its recovery job once the session exits"
                } else {
                    "The run stays needs_session, and the supervisor resumes it again once the session exits"
                };
                ResumeStep::AskStuckExit {
                    attempt,
                    after: stuck_exit_after(self.exit_for_silence, after),
                }
            },
            Some(Ok(ask)) => if !seen.escalation_recorded {
                ResumeStep::RecordEscalation { attempt, ask: *ask }
            } else {
                self.let_go(worktree, seen)
            },
            Some(Err(_)) => self.let_go(worktree, seen),
        }
    }

    /// What `exit_requested` records.
    fn exit_record(&self, timeouts: &Timeouts) -> (r: Json)
        ensures
            r@ == exit_payload(*self, *timeouts),
    {
        Fields::new().text("workspace_id", self.workspace.as_str()).number(
            "timeout_secs",
            secs(timeouts.exit) as i128,
        ).number("resume_attempt", self.attempt as i128).done()
    }

    /// Record how a request to rewrite the receipt ended, where that is to be
    /// recorded yet.
    fn settle_stale(&self, seen: &ResumeSeen) -> (r: Option<ResumeStep>)
        ensures
            match r {
                Some(step) => settles_first(*self, *seen, step),
                None => settled(*self, *seen),
            },
    {
        if self.stale.is_none() {
            return None;
        }
        match seen.nudge_rewritten {
            None => Some(ResumeStep::NudgeRewritten),
            Some(rewritten) => if seen.stale_settled {
                None
            } else {
                Some(
                    ResumeStep::SettleStale {
                        outcome: if rewritten {
                            "rewritten"
                        } else {
                            "unchanged"
                        },
                    },
                )
            },
        }
    }

    /// Ask a session that is at its end to exit, once.
    fn end_turn(&self, seen: &ResumeSeen) -> (r: ResumeStep)
        ensures
            ends_turn(*self, *seen, r),
    {
        if let Some(step) = self.settle_stale(seen) {
            return step;
        }
        ResumeStep::RequestExit { typed: true, for_silence: false }
    }

    /// The turn of a session at work: resolved (or failed) and idle after the
    /// receipt; or idle after the request without one, which a session that
    /// could not resolve it never ends by itself; or not idle at all within
    /// the resume timeout. An unapproved resolved run keeps its session. A
    /// receipt for an older commit is asked to be rewritten once, with a
    /// timeout of its own.
    fn judge_turn(
        &self,
        sent: u128,
        timeouts: &Timeouts,
        at: u128,
        kind: &ResumeOutcome,
        idle: bool,
        seen: &ResumeSeen,
    ) -> (r: ResumeStep)
        requires
            seen.idle == Some(idle),
            self.message_sent is Some,
            self.message_sent->0.at == sent,
            seen.head is Some,
        ensures
            turn(*self, *timeouts, at, *kind, *seen, r),
    {
        let (resolved, unresolved) = match kind {
            ResumeOutcome::Resolved => (true, false),
            ResumeOutcome::Failed(_) => (false, false),
            ResumeOutcome::Unresolved => (false, true),
        };
        if !unresolved && idle {
            match seen.idle_after_receipt {
                None => return ResumeStep::IdleAfterReceipt,
                Some(after) => if after {
                    if resolved && !self.approved {
                        if let Some(step) = self.settle_stale(seen) {
                            return step;
                        }
                        if !seen.live_ended {
                            return ResumeStep::EndLive { outcome: "session_ended" };
                        }
                        let head = match &seen.head {
                            Some(head) => crate::domain::same_text(head),
                            None => None,
                        };
                        return ResumeStep::Verdict(
                            ResumeVerdict {
                                kind: ResumeOutcome::Resolved,
                                head,
                                exit_timed_out: false,
                                live: true,
                            },
                        );
                    }
                    return self.end_turn(seen);
                },
            }
        }
        if unresolved && idle {
            match seen.idle_since {
                None => {
                    let wall = self.message_sent.unwrap().wall;
                    let input = match self.input_at {
                        Some(input) => if input > wall {
                            input
                        } else {
                            wall
                        },
                        None => wall,
                    };
                    let from = match self.stale {
                        Some(nudge) => if nudge.at > input {
                            nudge.at
                        } else {
                            input
                        },
                        None => input,
                    };
                    return ResumeStep::IdleSince { at: from };
                },
                Some(answered) => if answered {
                    if self.stale.is_none() {
                        match seen.stale_receipt {
                            None => return ResumeStep::StaleReceipt,
                            Some(stale) => if stale && seen.nudged.is_none() {
                                return ResumeStep::Nudge;
                            },
                        }
                    }
                    if let Some(nudged) = seen.nudged {
                        if nudged {
                            return ResumeStep::Wait;
                        }
                    }
                    return self.end_turn(seen);
                },
            }
        }
        if since(sent, at) < timeouts.resume {
            return ResumeStep::Wait;
        }
        if let Some(nudge) = self.stale {
            if !nudge.settled {
                match seen.nudge_waited_out {
                    None => return ResumeStep::NudgeWaitedOut,
                    Some(over) => if !over {
                        return ResumeStep::Wait;
                    },
                }
            }
        }
        self.end_turn(seen)
    }

    /// The session is at work. A session stopped at its own question waits for
    /// its answer, however long a person takes. The idle marker is read before
    /// the receipt and the worktree: a receipt rewritten after this read is
    /// judged at the next poll, never as idle without it.
    fn works(
        &self,
        run: &TaskRun,
        worktree: &String,
        timeouts: &Timeouts,
        at: u128,
        processes: &Vec<RunProcess>,
        seen: &ResumeSeen,
    ) -> (r: ResumeStep)
        requires
            seen.processes == Some(*processes),
        ensures
            session_works(*self, *run, *worktree, *timeouts, at, *seen, r),
    {
        let (sent, wall) = match self.message_sent {
            None => {
                return if find_agent(processes, false) {
                    ResumeStep::SendWhenReady
                } else {
                    ResumeStep::Wait
                };
            },
            Some(sent) => (sent.at, sent.wall),
        };
        match seen.delivered {
            None => return ResumeStep::DeliverAnswers,
            Some(Some(typed)) => if !seen.answer_noted {
                return ResumeStep::NoteAnswer { when: typed };
            },
            Some(None) => {},
        }
        if find_agent(processes, true) && !seen.prompt_watched {
            return ResumeStep::WatchPrompt;
        }
        if !seen.start_polled {
            return ResumeStep::PollStart;
        }
        match seen.question_open {
            None => return ResumeStep::QuestionOpen,
            Some(open) => if open {
                return ResumeStep::Wait;
            },
        }
        if !seen.idle_watched {
            return ResumeStep::WatchIdle;
        }
        match seen.last_closed {
            None => return ResumeStep::LastClosed,
            Some(Some(closed)) => {
                let input = match self.input_at {
                    Some(input) => input,
                    None => wall,
                };
                if !seen.input_moved && closed as i128 > unix_seconds(input) {
                    return ResumeStep::MoveInput { at: second(closed) };
                }
            },
            Some(None) => {},
        }
        let idle = match seen.idle {
            None => return ResumeStep::IdleMarker,
            Some(idle) => idle,
        };
        let head = match &seen.head {
            None => return ResumeStep::Head { worktree: worktree.clone() },
            Some(head) => head,
        };
        let clean = match seen.clean {
            None => return ResumeStep::Status { worktree: worktree.clone() },
            Some(clean) => clean,
        };
        let file = match &seen.receipt {
            None => return ResumeStep::ReadReceipt,
            Some(file) => file,
        };
        let kind = if clean {
            self.verdict(run, file, head)
        } else {
            self.verdict(run, file, &None)
        };
        let step = self.judge_turn(sent, timeouts, at, &kind, idle, seen);
        assert(turn(*self, *timeouts, at, kind, *seen, step));
        step
    }

    /// One poll of the session; a verdict once it exited, was let go, or
    /// resolved the run. A wrapper that does not register in time fails the
    /// resume. A silence that ended before any `/exit` is over; one that lasts
    /// is asked to exit, once, the way a person would; no session is killed.
    pub fn poll(
        &self,
        run: &TaskRun,
        timeouts: &Timeouts,
        at: u128,
        seen: &ResumeSeen,
    ) -> (r: ResumeStep)
        requires
            whole_secs(timeouts.registration) <= u64::MAX,
        ensures
            resume_polls(*self, *run, *timeouts, at, *seen, r),
    {
        let processes = match &seen.processes {
            None => return ResumeStep::Processes,
            Some(processes) => processes,
        };
        let i = match wrapper_of(processes) {
            None => {
                if since(self.startup, at) < timeouts.registration {
                    return ResumeStep::Wait;
                }
                let n = text::number(secs(timeouts.registration) as u64);
                return ResumeStep::Failed(
                    "resumed session's wrapper did not register within ".to_owned().concat(
                        n.as_str(),
                    ).concat(" seconds"),
                );
            },
            Some(i) => i,
        };
        let worktree = match &run.worktree_path {
            None => return ResumeStep::Failed("missing worktree".to_owned()),
            Some(worktree) => worktree,
        };
        if processes[i].exited_at.is_some() {
            return self.exited(run, worktree, seen);
        }
        let pulse = match seen.pulse {
            None => return ResumeStep::Pulse,
            Some(pulse) => pulse,
        };
        if pulse == WrapperPulse::Exited {
            return ResumeStep::Wait;
        }
        match self.exit_requested {
            None => {
                if pulse == WrapperPulse::Fresh && self.silent {
                    return ResumeStep::ForgetSilence;
                }
                if pulse == WrapperPulse::Silent {
                    return ResumeStep::RequestExit { typed: true, for_silence: true };
                }
                self.works(run, worktree, timeouts, at, processes, seen)
            },
            Some(requested) => self.exiting(requested, worktree, timeouts, at, seen),
        }
    }
}

/// A resume counts as resolved only where a receipt was rewritten during it,
/// names this run and the head of a clean worktree, and lacks no evidence.
pub proof fn resolved_names_a_clean_head(
    watch: ResumeWatch,
    run: TaskRun,
    timeouts: Timeouts,
    at: u128,
    seen: ResumeSeen,
    r: ResumeStep,
)
    requires
        resume_polls(watch, run, timeouts, at, seen, r),
        r matches ResumeStep::Verdict(verdict) && verdict.kind is Resolved,
    ensures
        seen.clean == Some(true),
        rewritten(watch.started_at, seen.receipt->0) matches Some(receipt) && {
            &&& receipt.run_id@ == run.id@
            &&& receipt.result == ReceiptResult::Succeeded
            &&& !receipt.evidence_missing
            &&& text::opt_view(seen.head->0) == Some(text::lowered(receipt.commit@))
        },
{
}

/// What has been done of asking a resumed session to exit.
#[derive(Debug, Clone, Copy, PartialEq, Eq, Default, Structural)]
pub struct AskExitSeen {
    pub recorded: bool,
    /// The stage is ended.
    pub ended: bool,
    pub typed: bool,
}

/// What asking a resumed session to exit does next.
pub enum AskExitStep {
    Record { kind: &'static str, payload: Json },
    /// Clear the stage's dialog and stop its recovery job with this outcome:
    /// its answers are typed no more.
    EndLive { outcome: &'static str },
    Type { workspace: String },
    /// The session is asked: its exit timeout runs from now.
    Asked,
}

/// What asking a resumed session to exit comes to.
pub open spec fn asks_exit(
    watch: ResumeWatch,
    timeouts: Timeouts,
    typed: bool,
    seen: AskExitSeen,
    r: AskExitStep,
) -> bool {
    if !seen.recorded {
        r matches AskExitStep::Record { kind, payload } && kind@ == "exit_requested"@ && payload@
            == exit_payload(watch, timeouts)
    } else if !seen.ended {
        r matches AskExitStep::EndLive { outcome } && outcome@ == "session_ended"@
    } else if typed && !seen.typed {
        r == (AskExitStep::Type { workspace: watch.workspace })
    } else {
        r is Asked
    }
}

impl ResumeWatch {
    /// Ask the session to exit: record `exit_requested`, since the session may
    /// be gone before the typing returns, end the stage, and type the `/exit`
    /// unless a dialog is up.
    pub fn request_exit(&self, timeouts: &Timeouts, typed: bool, seen: AskExitSeen) -> (r:
        AskExitStep)
        ensures
            asks_exit(*self, *timeouts, typed, seen, r),
    {
        if !seen.recorded {
            AskExitStep::Record { kind: "exit_requested", payload: self.exit_record(timeouts) }
        } else if !seen.ended {
            AskExitStep::EndLive { outcome: "session_ended" }
        } else if typed && !seen.typed {
            AskExitStep::Type { workspace: self.workspace.clone() }
        } else {
            AskExitStep::Asked
        }
    }
}

/// A `/exit` is recorded before it is typed, and typed once, after the stage
/// ended, and never over a dialog.
pub proof fn a_resumes_exit_is_recorded_first(
    watch: ResumeWatch,
    timeouts: Timeouts,
    typed: bool,
    seen: AskExitSeen,
    r: AskExitStep,
)
    requires
        asks_exit(watch, timeouts, typed, seen, r),
    ensures
        r is Type ==> typed && seen.recorded && seen.ended && !seen.typed,
        r is Asked ==> seen.recorded && seen.ended && (typed ==> seen.typed),
{
}

/// No `/exit` is asked for a second time.
pub proof fn resume_exit_is_asked_once(
    watch: ResumeWatch,
    run: TaskRun,
    timeouts: Timeouts,
    at: u128,
    seen: ResumeSeen,
    r: ResumeStep,
)
    requires
        resume_polls(watch, run, timeouts, at, seen, r),
        r is RequestExit,
    ensures
        watch.exit_requested is None,
{
}

/// What has been done and observed of sending the resolution request.
#[derive(Default)]
pub struct SendSeen {
    /// The screen, or why it could not be read.
    pub screen: Option<Result<String, String>>,
    /// A dialog that the screen shows.
    pub dialog: Option<Option<String>>,
    /// The screen shows a ready input box.
    pub ready: Option<bool>,
    /// The lines of the screen an ask shows.
    pub excerpt: String,
    pub not_ready_recorded: bool,
    pub asks_closed: bool,
    pub sent: bool,
    /// What recording the send came to does not matter: it was tried.
    pub send_recorded: bool,
}

/// What sending the resolution request does next.
pub enum SendStep {
    /// Nothing more in this poll.
    Wait,
    Capture,
    Dialog,
    Ready,
    /// The resume timeout passed: ask the session to exit, typed where no
    /// dialog is up.
    RequestExit { typed: bool },
    /// Record that the box is not ready.
    Record { kind: &'static str, payload: Json },
    Ask { situation: String },
    /// The box is ready from now on.
    ReadyNow,
    /// The ask about a box that was not ready is answered by its getting
    /// ready.
    CloseAsks,
    Send { message: String },
    RecordSent,
    Sent,
}

/// What `input_not_ready` records.
pub open spec fn not_ready_payload(
    watch: ResumeWatch,
    timeouts: Timeouts,
    dialog: Option<String>,
    excerpt: Seq<char>,
) -> json::Value {
    json::Value::Object(
        json::none().push(("workspace_id"@, json::Value::Text(watch.workspace@))).push(
            ("waited_secs"@, json::Value::Int(whole_secs(timeouts.registration))),
        ).push(("prompt"@, json::text_or_null(text::opt_view(dialog)))).push(
            ("excerpt"@, json::Value::Text(excerpt)),
        ),
    )
}

/// What the inbox is told of an input box that is not ready.
pub open spec fn situation_text(dialog: Option<String>, timeouts: Timeouts) -> Seq<char> {
    match dialog {
        Some(kind) => "a "@ + kind@
            + " dialog holds the resumed session, so the resolution request is not sent"@,
        None => "the resumed session's input box is not ready "@ + text::decimal(
            whole_secs(timeouts.registration) as nat,
        ) + "s after its agent registered, so the resolution request is not sent yet"@,
    }
}

/// What sending the resolution request comes to. The agent was seen at
/// `agent_seen`.
pub open spec fn sends(
    watch: ResumeWatch,
    agent_seen: u128,
    timeouts: Timeouts,
    at: u128,
    seen: SendSeen,
    r: SendStep,
) -> bool {
    let timed_out = passed(agent_seen, at) >= timeouts.resume;
    if seen.screen is None {
        r is Capture
    } else if timed_out {
        if seen.screen->0 is Ok && seen.dialog is None {
            r is Dialog
        } else {
            r == (SendStep::RequestExit {
                typed: seen.screen->0 is Err || seen.dialog->0 is None,
            })
        }
    } else if seen.screen->0 is Err {
        r is Wait
    } else if seen.ready is None {
        r is Ready
    } else if !seen.ready->0 {
        if watch.not_ready_asked || passed(agent_seen, at) < timeouts.registration {
            r is Wait
        } else if seen.dialog is None {
            r is Dialog
        } else if !seen.not_ready_recorded {
            r matches SendStep::Record { kind, payload } && kind@ == "input_not_ready"@ && payload@
                == not_ready_payload(watch, timeouts, seen.dialog->0, seen.excerpt@)
        } else {
            r matches SendStep::Ask { situation } && situation@ == situation_text(
                seen.dialog->0,
                timeouts,
            )
        }
    } else if watch.ready_since is None && timeouts.prompt_delay > 0 {
        r is ReadyNow
    } else if watch.ready_since is Some && passed(watch.ready_since->0, at)
        < timeouts.prompt_delay {
        r is Wait
    } else if watch.not_ready_asked && !seen.asks_closed {
        r is CloseAsks
    } else if !seen.sent {
        r == (SendStep::Send { message: watch.message })
    } else if !seen.send_recorded {
        r is RecordSent
    } else {
        r is Sent
    }
}

impl ResumeWatch {
    /// Send the resolution request once the agent's input box has shown ready
    /// on every screen read for the prompt delay: a request typed while the
    /// agent boots is lost. A box not ready within the registration timeout is
    /// raised to the inbox once; the request still goes when it gets ready,
    /// and past the resume timeout the session is asked to exit, without
    /// typing over a dialog, whose option the Enter would pick. A screen that
    /// cannot be read is read again, but past the resume timeout.
    pub fn send_when_ready(
        &self,
        agent_seen: u128,
        timeouts: &Timeouts,
        at: u128,
        seen: &SendSeen,
    ) -> (r: SendStep)
        requires
            whole_secs(timeouts.registration) <= u64::MAX,
        ensures
            sends(*self, agent_seen, *timeouts, at, *seen, r),
    {
        let waited = since(agent_seen, at);
        let readable = match &seen.screen {
            None => return SendStep::Capture,
            Some(Ok(_)) => true,
            Some(Err(_)) => false,
        };
        if waited >= timeouts.resume {
            if !readable {
                return SendStep::RequestExit { typed: true };
            }
            return match &seen.dialog {
                None => SendStep::Dialog,
                Some(dialog) => SendStep::RequestExit { typed: dialog.is_none() },
            };
        }
        if !readable {
            return SendStep::Wait;
        }
        let ready = match seen.ready {
            None => return SendStep::Ready,
            Some(ready) => ready,
        };
        if !ready {
            if self.not_ready_asked || waited < timeouts.registration {
                return SendStep::Wait;
            }
            let dialog = match &seen.dialog {
                None => return SendStep::Dialog,
                Some(dialog) => dialog,
            };
            if !seen.not_ready_recorded {
                let payload = Fields::new().text("workspace_id", self.workspace.as_str()).number(
                    "waited_secs",
                    secs(timeouts.registration) as i128,
                ).opt_text("prompt", dialog).text("excerpt", seen.excerpt.as_str()).done();
                return SendStep::Record { kind: "input_not_ready", payload };
            }
            let situation = match dialog {
                Some(kind) => "a ".to_owned().concat(kind.as_str()).concat(
                    " dialog holds the resumed session, so the resolution request is not sent",
                ),
                None => {
                    let n = text::number(secs(timeouts.registration) as u64);
                    "the resumed session's input box is not ready ".to_owned().concat(
                        n.as_str(),
                    ).concat(
                        "s after its agent registered, so the resolution request is not sent yet",
                    )
                },
            };
            return SendStep::Ask { situation };
        }
        match self.ready_since {
            None => if timeouts.prompt_delay > 0 {
                return SendStep::ReadyNow;
            },
            Some(ready) => if since(ready, at) < timeouts.prompt_delay {
                return SendStep::Wait;
            },
        }
        if self.not_ready_asked && !seen.asks_closed {
            return SendStep::CloseAsks;
        }
        if !seen.sent {
            return SendStep::Send { message: self.message.clone() };
        }
        if !seen.send_recorded {
            return SendStep::RecordSent;
        }
        SendStep::Sent
    }
}

/// The request is typed only into an input box that showed ready for the whole
/// prompt delay.
pub proof fn the_request_waits_for_a_ready_box(
    watch: ResumeWatch,
    agent_seen: u128,
    timeouts: Timeouts,
    at: u128,
    seen: SendSeen,
    r: SendStep,
)
    requires
        sends(watch, agent_seen, timeouts, at, seen, r),
        r is Send,
    ensures
        seen.ready == Some(true),
        timeouts.prompt_delay == 0 || (watch.ready_since is Some && passed(
            watch.ready_since->0,
            at,
        ) >= timeouts.prompt_delay),
{
}

/// A resumed session that another process started, as it was left.
pub struct ResumeState {
    pub workspace: String,
    pub attempt: usize,
    pub started_at: i128,
    pub message: String,
    /// When the request was sent, where it was.
    pub message_sent_at: Option<i128>,
    pub not_ready_asked: bool,
    pub exit_requested: bool,
    pub exit_for_silence: bool,
    pub approved: bool,
}

/// When something that was sent at a wall-clock time was sent on the monotonic
/// clock, as far as that reaches back.
pub open spec fn sent_at(wall_then: i128, wall: i128, now: u128) -> int {
    let ago = if wall >= wall_then {
        wall - wall_then
    } else {
        0
    };
    if ago <= now {
        now - ago
    } else {
        now as int
    }
}

/// The watch that goes on from a state.
pub open spec fn is_rebuilt(
    run: TaskRun,
    state: ResumeState,
    idle_marker: String,
    stale: Option<StaleNudge>,
    now: u128,
    wall: i128,
    watch: ResumeWatch,
) -> bool {
    &&& watch.workspace == state.workspace
    &&& watch.attempt == state.attempt
    &&& Some(watch.run_dir) == run.run_dir
    &&& Some(watch.receipt_path) == run.receipt_path
    &&& watch.idle_marker == idle_marker
    &&& watch.started_at == state.started_at
    &&& watch.startup == now
    &&& watch.message == state.message
    &&& watch.agent_seen is None
    &&& watch.ready_since is None
    &&& watch.not_ready_asked == state.not_ready_asked
    &&& match state.message_sent_at {
        Some(at) => watch.message_sent matches Some(sent) && sent.wall == at && sent.at == sent_at(
            at,
            wall,
            now,
        ),
        None => watch.message_sent is None,
    }
    &&& watch.exit_requested == (if state.exit_requested {
        Some(now)
    } else {
        None
    })
    &&& !watch.exit_typed
    &&& watch.approved == state.approved
    &&& !watch.silent
    &&& watch.exit_for_silence == state.exit_for_silence
    &&& watch.stale == stale
    &&& watch.input_at is None
}

/// A watch that goes on watching a resumed session another process started.
/// Nothing is sent or asked twice: the request only where it was not sent,
/// never a second `/exit`, whose timeout restarts now. The resume timeout runs
/// from the send.
pub fn rebuilt_resume(
    run: &TaskRun,
    state: ResumeState,
    idle_marker: String,
    stale: Option<StaleNudge>,
    now: u128,
    wall: i128,
) -> (r: Result<ResumeWatch, String>)
    requires
        state.message_sent_at is Some ==> wall - state.message_sent_at->0 <= i128::MAX,
    ensures
        if run.run_dir is None {
            r matches Err(why) && why@ == "missing run directory"@
        } else if run.receipt_path is None {
            r matches Err(why) && why@ == "missing receipt path"@
        } else {
            r matches Ok(watch) && is_rebuilt(
                *run,
                state,
                idle_marker,
                stale,
                now,
                wall,
                watch,
            )
        },
{
    let run_dir = match &run.run_dir {
        None => return Err("missing run directory".to_owned()),
        Some(dir) => dir.clone(),
    };
    let receipt_path = match &run.receipt_path {
        None => return Err("missing receipt path".to_owned()),
        Some(path) => path.clone(),
    };
    let message_sent = match state.message_sent_at {
        Some(at) => {
            let ago: u128 = if wall >= at {
                (wall - at) as u128
            } else {
                0
            };
            Some(
                Sent {
                    at: if ago <= now {
                        now - ago
                    } else {
                        now
                    },
                    wall: at,
                },
            )
        },
        None => None,
    };
    Ok(
        ResumeWatch {
            workspace: state.workspace,
            attempt: state.attempt,
            run_dir,
            receipt_path,
            idle_marker,
            started_at: state.started_at,
            startup: now,
            message: state.message,
            agent_seen: None,
            ready_since: None,
            not_ready_asked: state.not_ready_asked,
            message_sent,
            exit_requested: if state.exit_requested {
                Some(now)
            } else {
                None
            },
            exit_typed: false,
            approved: state.approved,
            silent: false,
            exit_for_silence: state.exit_for_silence,
            stale,
            input_at: None,
        },
    )
}

/// What has been read of a resume that is adopted.
#[derive(Default)]
pub struct StateSeen {
    /// The text of its request, or why that cannot be read.
    pub message: Option<Result<String, String>>,
    /// When its request was written, or why that cannot be told.
    pub started_at: Option<Result<i128, String>>,
    /// When its request was sent, where the event of the send tells.
    pub sent_at: Option<Option<i128>>,
}

/// What reading a resume that is adopted does next, or what it came to.
pub enum StateStep {
    /// Read the text of the file.
    ReadRequest { file: String },
    /// Read when the file was written.
    Written { file: String },
    /// Read when the event of this place says that the request was sent.
    SentAt { index: usize },
    /// The watch goes on from here.
    GoOn(ResumeState),
    Failed(String),
}

/// The file that holds a resume's request.
pub open spec fn request_file(run_dir: Seq<char>, attempt: int) -> Seq<char> {
    path::under(run_dir, "resume-"@ + text::decimal(attempt as nat) + ".txt"@)
}

/// When a request was sent, no earlier than the epoch.
pub open spec fn sent_time(sent: Option<usize>, sent_at: Option<Option<i128>>) -> Option<i128> {
    match (sent, sent_at) {
        (Some(_), Some(Some(at))) => Some(
            if at < 0 {
                0i128
            } else {
                at
            },
        ),
        _ => None,
    }
}

/// The state of an adopted resume.
pub open spec fn is_adopted_state(
    events: Seq<RunEvent>,
    seen: StateSeen,
    resume: AdoptedResume,
    state: ResumeState,
) -> bool {
    &&& state.workspace == resume.workspace
    &&& state.attempt == resume.attempt as usize
    &&& seen.started_at == Some(Ok::<i128, String>(state.started_at))
    &&& seen.message == Some(Ok::<String, String>(state.message))
    &&& state.message_sent_at == sent_time(resume.sent, seen.sent_at)
    &&& state.not_ready_asked == resume.not_ready_asked
    &&& state.exit_requested == resume.exit_requested
    &&& state.exit_for_silence == resume.exit_for_silence
    &&& state.approved == recorded(events, "integration_approved"@)
}

/// Rebuild the resume of an adopted run from its events and its files: the
/// attempt of the last resume, its workspace, the request from its file, whose
/// time of writing stands for the start, and whether the request was sent, the
/// inbox asked about the input box and `/exit` requested since.
pub fn adopted_state(run: &TaskRun, events: &Vec<RunEvent>, seen: &StateSeen) -> (r: StateStep)
    ensures
        match in_progress(events@) {
            None => r matches StateStep::Failed(why) && why@
                == "adopted run has no resume in progress"@,
            Some((_, attempt, _)) => if run.run_dir is None {
                r matches StateStep::Failed(why) && why@ == "missing run directory"@
            } else {
                match (seen.message, seen.started_at) {
                    (None, _) => r matches StateStep::ReadRequest { file } && file@ == request_file(
                        run.run_dir->0@,
                        attempt,
                    ),
                    (Some(Err(error)), _) => r == StateStep::Failed(error),
                    (Some(Ok(_)), None) => r matches StateStep::Written { file } && file@
                        == request_file(run.run_dir->0@, attempt),
                    (Some(Ok(_)), Some(Err(error))) => r == StateStep::Failed(error),
                    (Some(Ok(_)), Some(Ok(_))) => exists|resume: AdoptedResume| #[trigger]
                        adopted(events@, resume) && (match r {
                            StateStep::SentAt { index } => resume.sent == Some(index)
                                && seen.sent_at is None,
                            StateStep::GoOn(state) => (resume.sent is None || seen.sent_at is Some)
                                && is_adopted_state(events@, *seen, resume, state),
                            _ => false,
                        }),
                }
            },
        },
{
    let resume = match adopt_resume(events) {
        None => return StateStep::Failed("adopted run has no resume in progress".to_owned()),
        Some(resume) => resume,
    };
    let run_dir = match &run.run_dir {
        None => return StateStep::Failed("missing run directory".to_owned()),
        Some(dir) => dir,
    };
    let n = text::number(resume.attempt);
    let name = "resume-".to_owned().concat(n.as_str()).concat(".txt");
    let file = path::join_path(run_dir.as_str(), name.as_str());
    let message = match &seen.message {
        None => return StateStep::ReadRequest { file },
        Some(Err(error)) => return StateStep::Failed(error.clone()),
        Some(Ok(message)) => message.clone(),
    };
    let started_at: i128 = match &seen.started_at {
        None => return StateStep::Written { file },
        Some(Err(error)) => return StateStep::Failed(error.clone()),
        Some(Ok(at)) => *at,
    };
    assert(adopted(events@, resume));
    let message_sent_at: Option<i128> = match resume.sent {
        None => None,
        Some(index) => match seen.sent_at {
            None => return StateStep::SentAt { index },
            Some(None) => None,
            Some(Some(at)) => Some(
                if at < 0 {
                    0
                } else {
                    at
                },
            ),
        },
    };
    let state = ResumeState {
        workspace: resume.workspace.clone(),
        attempt: resume.attempt as usize,
        started_at,
        message,
        message_sent_at,
        not_ready_asked: resume.not_ready_asked,
        exit_requested: resume.exit_requested,
        exit_for_silence: resume.exit_for_silence,
        approved: has_event(events, "integration_approved"),
    };
    assert(is_adopted_state(events@, *seen, resume, state));
    StateStep::GoOn(state)
}

/// A resume is resolved only by a receipt of the run's own that was written
/// after the resume started, reports a success with its evidence and names the
/// head of a clean worktree; it failed only where such a receipt says so; it is
/// unresolved otherwise.
pub proof fn a_resume_is_judged_by_its_receipt(
    watch: &ResumeWatch,
    run: &TaskRun,
    file: &ReceiptFile,
    head: &Option<String>,
    r: ResumeOutcome,
)
    requires
        call_ensures(ResumeWatch::verdict, (watch, run, file, head), r),
    ensures
        r is Resolved <==> {
            &&& file.modified matches Some(at)
            &&& at > watch.started_at
            &&& file.receipt matches Some(receipt)
            &&& receipt.run_id@ == run.id@
            &&& receipt.result == ReceiptResult::Succeeded
            &&& !receipt.evidence_missing
            &&& *head matches Some(at_head)
            &&& at_head@ == text::lowered(receipt.commit@)
        },
        r is Failed <==> {
            &&& file.modified matches Some(at)
            &&& at > watch.started_at
            &&& file.receipt matches Some(receipt)
            &&& receipt.run_id@ == run.id@
            &&& receipt.result == ReceiptResult::Failed
        },
        r matches ResumeOutcome::Failed(why) ==> why@ == "session reported the run as failed: "@
            + file.receipt->0.summary@,
{
}

/// A resume that polls its session ends only where the session exited, or gave
/// its answer and sits idle after it, or could not be made to exit: what it
/// comes to names the worktree's head, a resolved one a clean head that a
/// receipt of the run's own names, and only a resolved one leaves its session
/// live, to be reviewed.
pub proof fn a_resume_ends_with_its_session(
    watch: ResumeWatch,
    run: TaskRun,
    timeouts: Timeouts,
    at: u128,
    seen: ResumeSeen,
    r: ResumeStep,
)
    requires
        resume_polls(watch, run, timeouts, at, seen, r),
        r is Verdict,
    ensures
        seen.head matches Some(head) && head == r->Verdict_0.head,
        r->Verdict_0.kind is Resolved ==> {
            &&& seen.clean is Some && seen.clean->0
            &&& seen.receipt matches Some(file) && (file.modified matches Some(written) && written
                > watch.started_at) && (file.receipt matches Some(receipt) && receipt.run_id@
                == run.id@ && receipt.result == ReceiptResult::Succeeded
                && !receipt.evidence_missing && (seen.head->0 matches Some(head) && head@
                == text::lowered(receipt.commit@)))
        },
        r->Verdict_0.live ==> r->Verdict_0.kind is Resolved && !watch.approved && seen.live_ended
            && seen.idle is Some && seen.idle->0,
        r->Verdict_0.exit_timed_out ==> r->Verdict_0.kind is Unresolved && (
        watch.exit_requested matches Some(asked) && passed(asked, at) >= timeouts.exit),
{
}

/// A resumed session is let be while a question of its is open, and while it
/// is at work within its time; it is asked to exit only once, where its turn
/// ended, its wrapper fell silent, or its time ran out.
pub proof fn a_resumed_session_is_let_work(
    watch: ResumeWatch,
    run: TaskRun,
    timeouts: Timeouts,
    at: u128,
    seen: ResumeSeen,
    r: ResumeStep,
)
    requires
        resume_polls(watch, run, timeouts, at, seen, r),
    ensures
        r is Processes <==> seen.processes is None,
        r is SendWhenReady ==> watch.message_sent is None && watch.exit_requested is None && exists|
            i: int,
        |
            0 <= i < seen.processes->0@.len() && (#[trigger] seen.processes->0@[i]).role@
                == "agent"@,
        r is Nudge ==> watch.message_sent is Some && watch.stale is None && seen.question_open
            is Some && !seen.question_open->0 && seen.stale_receipt is Some
            && seen.stale_receipt->0 && seen.idle is Some && seen.idle->0,
        r matches ResumeStep::RequestExit { for_silence, .. } ==> watch.exit_requested is None && (
        for_silence <==> seen.pulse == Some(WrapperPulse::Silent)) && (!for_silence
            ==> seen.question_open is Some && !seen.question_open->0 && watch.message_sent is Some),
        r matches ResumeStep::RequestExit { for_silence, .. } ==> for_silence || (seen.idle is Some
            && seen.idle->0) || passed(watch.message_sent->0.at, at) >= timeouts.resume,
        r matches ResumeStep::Head { worktree } ==> run.worktree_path == Some(worktree),
        r matches ResumeStep::Status { worktree } ==> run.worktree_path == Some(worktree),
        r is RestartExit ==> watch.exit_requested is Some,
        r matches ResumeStep::AskStuckExit { attempt, .. } ==> watch.exit_requested is Some
            && seen.followed == Some(LiveStep::Escalate { attempt }) && seen.ask is None,
        r matches ResumeStep::RecordEscalation { attempt, ask } ==> seen.followed == Some(
            LiveStep::Escalate { attempt },
        ) && seen.ask == Some(Ok::<i64, String>(ask)),
        r matches ResumeStep::NoteAnswer { when } ==> seen.delivered == Some(Some(when)),
{
}

/// An exit is recorded, then what runs beside the session is ended, then it is
/// typed where it is to be, each once.
pub proof fn an_exit_request_goes_in_order(
    watch: ResumeWatch,
    timeouts: Timeouts,
    typed: bool,
    seen: AskExitSeen,
    r: AskExitStep,
)
    requires
        asks_exit(watch, timeouts, typed, seen, r),
    ensures
        r is Record <==> !seen.recorded,
        r is EndLive <==> seen.recorded && !seen.ended,
        r is Type <==> seen.recorded && seen.ended && typed && !seen.typed,
        r is Asked <==> seen.recorded && seen.ended && (typed ==> seen.typed),
        r matches AskExitStep::Type { workspace } ==> workspace@ == watch.workspace@,
        r matches AskExitStep::Record { payload, .. } ==> payload@ is Object && payload@->Object_0[0]
            == ("workspace_id"@, json::Value::Text(watch.workspace@)) && payload@->Object_0[2] == (
            "resume_attempt"@,
            json::Value::Int(watch.attempt as int),
        ),
{
}

/// A resume's request is typed as it is, into a box that has been ready for as
/// long as it must; a box that is not ready in time is asked about once, and a
/// session that is not for the whole time of a resume is asked to exit, typed
/// only where no dialog holds it.
pub proof fn a_request_is_typed_into_a_ready_box(
    watch: ResumeWatch,
    agent_seen: u128,
    timeouts: Timeouts,
    at: u128,
    seen: SendSeen,
    r: SendStep,
)
    requires
        sends(watch, agent_seen, timeouts, at, seen, r),
    ensures
        r is Capture <==> seen.screen is None,
        r matches SendStep::Send { message } ==> {
            &&& message@ == watch.message@
            &&& seen.screen matches Some(Ok(_))
            &&& seen.ready is Some && seen.ready->0
            &&& !seen.sent
            &&& watch.not_ready_asked ==> seen.asks_closed
            &&& passed(agent_seen, at) < timeouts.resume
        },
        r is Ask ==> seen.ready is Some && !seen.ready->0 && !watch.not_ready_asked && passed(
            agent_seen,
            at,
        ) >= timeouts.registration && seen.not_ready_recorded,
        r is RequestExit ==> passed(agent_seen, at) >= timeouts.resume,
        r matches SendStep::RequestExit { typed } ==> (typed <==> (seen.screen matches Some(Err(_)))
            || (seen.dialog matches Some(None))),
        r is Sent ==> seen.sent && seen.send_recorded,
        r is RecordSent <==> seen.sent && !seen.send_recorded && (seen.screen matches Some(Ok(_)))
            && passed(agent_seen, at) < timeouts.resume && seen.ready is Some && seen.ready->0 && !(
        watch.ready_since is None && timeouts.prompt_delay > 0) && !(watch.ready_since is Some
            && passed(watch.ready_since->0, at) < timeouts.prompt_delay) && !(watch.not_ready_asked
            && !seen.asks_closed),
{
}

/// A watch that is rebuilt follows the same session, attempt and request, and
/// counts the time of the request from when it was sent.
pub proof fn a_rebuilt_watch_goes_on(
    run: &TaskRun,
    state: ResumeState,
    idle_marker: String,
    stale: Option<StaleNudge>,
    now: u128,
    wall: i128,
    r: Result<ResumeWatch, String>,
)
    requires
        call_ensures(rebuilt_resume, (run, state, idle_marker, stale, now, wall), r),
    ensures
        r is Ok <==> run.run_dir is Some && run.receipt_path is Some,
        r matches Ok(watch) ==> {
            &&& watch.workspace@ == state.workspace@ && watch.attempt == state.attempt
                && watch.message@ == state.message@ && watch.started_at == state.started_at
            &&& watch.message_sent is Some <==> state.message_sent_at is Some
            &&& (state.message_sent_at matches Some(then) && then <= wall && wall - then
                <= now) ==> watch.message_sent->0.at == now - (wall - state.message_sent_at->0)
            &&& watch.exit_requested is Some <==> state.exit_requested
            &&& watch.approved == state.approved
            &&& watch.stale == stale
        },
{
}

/// A restart moves the clocks to now and changes nothing else: what was sent,
/// asked and seen stays.
pub proof fn a_restart_moves_only_the_clocks(watch: ResumeWatch, at: u128, wall: i128)
    ensures
        restarted(watch, at, wall).message_sent is Some <==> watch.message_sent is Some,
        watch.message_sent matches Some(sent) ==> restarted(watch, at, wall).message_sent->0.wall
            == sent.wall && restarted(watch, at, wall).message_sent->0.at == at,
        restarted(watch, at, wall).exit_requested == watch.exit_requested,
        restarted(watch, at, wall).started_at == watch.started_at,
        restarted(watch, at, wall).message == watch.message,
        restarted(watch, at, wall).approved == watch.approved,
        restarted(watch, at, wall).attempt == watch.attempt,
        restarted(watch, at, wall).workspace == watch.workspace,
        restarted(watch, at, wall).stale is Some <==> watch.stale is Some,
{
}

/// A resume goes on after a restart only with a request that could be read and
/// a start that is known, from the events that recorded it.
pub proof fn a_resume_goes_on_from_its_record(
    run: &TaskRun,
    events: &Vec<RunEvent>,
    seen: &StateSeen,
    r: StateStep,
)
    requires
        call_ensures(adopted_state, (run, events, seen), r),
    ensures
        in_progress(events@) is None || run.run_dir is None ==> r is Failed,
        r matches StateStep::GoOn(state) ==> (seen.message matches Some(Ok(message)) && state.message@
            == message@) && (seen.started_at matches Some(Ok(at)) && state.started_at == at) && (
        in_progress(events@) matches Some((_, _, workspace)) && state.workspace@ == workspace),
        r is Failed ==> in_progress(events@) is None || run.run_dir is None || (
        seen.message matches Some(Err(_))) || (seen.started_at matches Some(Err(_))),
{
}

/// A box counts as ready from when it was first seen ready without a break, and
/// no longer once it is seen otherwise.
pub proof fn a_box_is_ready_without_a_break(watch: &mut ResumeWatch, ready: bool, at: u128, r: ())
    requires
        call_ensures(ResumeWatch::box_seen, (watch, ready, at), r),
    ensures
        !ready ==> final(watch).ready_since is None,
        ready && old(watch).ready_since is None ==> final(watch).ready_since == Some(at),
        ready && old(watch).ready_since is Some ==> final(watch).ready_since == old(watch).ready_since,
        final(watch).message_sent == old(watch).message_sent && final(watch).exit_requested == old(watch).exit_requested && final(watch).started_at == old(watch).started_at,
{
}

/// An exit that was asked for is remembered with its time; that it was typed,
/// or asked for silence, is never forgotten again.
pub proof fn an_asked_exit_is_remembered(
    watch: &mut ResumeWatch,
    at: u128,
    typed: bool,
    for_silence: bool,
    r: (),
)
    requires
        call_ensures(ResumeWatch::exit_asked, (watch, at, typed, for_silence), r),
    ensures
        final(watch).exit_requested == Some(at),
        final(watch).exit_typed <==> old(watch).exit_typed || typed,
        final(watch).exit_for_silence <==> old(watch).exit_for_silence || for_silence,
        final(watch).message_sent == old(watch).message_sent && final(watch).started_at == old(watch).started_at,
{
}

/// An answer that was typed is remembered as the last input, and starts the
/// clocks anew.
pub proof fn a_typed_answer_starts_the_clocks_anew(
    watch: &mut ResumeWatch,
    typed: i128,
    at: u128,
    wall: i128,
    r: (),
)
    requires
        call_ensures(ResumeWatch::answered, (watch, typed, at, wall), r),
    ensures
        final(watch).input_at == Some(typed),
        old(watch).message_sent is Some ==> final(watch).message_sent is Some && final(watch).message_sent->0.at == at && final(watch).message_sent->0.wall == old(watch).message_sent->0.wall,
        old(watch).message_sent is None ==> final(watch).message_sent is None,
        final(watch).started_at == old(watch).started_at,
{
}

} // verus!
