//! Resumed sessions of parked runs: which runs to resume and why, the start of
//! a resumed session, and what its verdict makes of the run.

use crate::domain::{
    Failing, ReasonCode, ReceiptResult, RunEvent, RunProcess, RunStatus, TaskRun, TaskStatus,
};
use crate::json;
use crate::json::{Fields, Json};
use crate::lifecycle::sessions::{copy_variables, variables};
use crate::path;
use crate::supervise::drive::Layout;
use crate::supervise::exit::stuck_exit_closed;
use crate::supervise::resume_watch::{outcome_name, ResumeOutcome, ResumeVerdict};
use crate::supervise::sweep::WorkspaceCloser;
use crate::text;
use vstd::prelude::*;
use vstd::string::*;

verus! {

/// The event of a resolution request that was typed.
pub const RESUME_REQUEST_SENT: &'static str = "resume_request_sent";

/// How often a run was resumed: the resumes that count, and those for
/// conflicts only after its review passed, each with its limit.
#[derive(Debug, Clone, Copy, PartialEq, Eq, Structural)]
pub struct ResumeCount {
    pub counted: u32,
    pub counted_limit: u32,
    pub conflict_only: u32,
    pub conflict_only_limit: u32,
}

/// How often a run was resumed, as its reason says it.
pub open spec fn resumed(resumes: ResumeCount) -> Seq<char> {
    let counted = text::decimal(resumes.counted as nat);
    let limit = text::decimal(resumes.counted_limit as nat);
    if resumes.conflict_only == 0 {
        "resumed "@ + counted + " times (at most "@ + limit + ")"@
    } else {
        "resumed "@ + text::decimal((resumes.counted + resumes.conflict_only) as nat) + " times ("@
            + counted + " of at most "@ + limit + " counted, and "@ + text::decimal(
            resumes.conflict_only as nat,
        ) + " of at most "@ + text::decimal(resumes.conflict_only_limit as nat)
            + " for conflicts only after its review passed)"@
    }
}

/// How often a run was resumed, for its used-up reason and ask.
pub fn resumed_text(resumes: ResumeCount) -> (r: String)
    ensures
        r@ == resumed(resumes),
{
    let counted = text::number(resumes.counted as u64);
    let limit = text::number(resumes.counted_limit as u64);
    if resumes.conflict_only == 0 {
        "resumed ".to_owned().concat(counted.as_str()).concat(" times (at most ").concat(
            limit.as_str(),
        ).concat(")")
    } else {
        let total = text::number(resumes.counted as u64 + resumes.conflict_only as u64);
        let conflicts = text::number(resumes.conflict_only as u64);
        let conflict_limit = text::number(resumes.conflict_only_limit as u64);
        "resumed ".to_owned().concat(total.as_str()).concat(" times (").concat(
            counted.as_str(),
        ).concat(" of at most ").concat(limit.as_str()).concat(" counted, and ").concat(
            conflicts.as_str(),
        ).concat(" of at most ").concat(conflict_limit.as_str()).concat(
            " for conflicts only after its review passed)",
        )
    }
}

/// Whether the last session of a run still runs: its wrapper has not recorded
/// its exit and its process is there.
pub open spec fn still_runs(wrapper: Option<RunProcess>, alive: bool) -> bool {
    wrapper is Some && wrapper->0.exited_at is None && alive
}

/// Whether the last session of a run still runs.
pub fn session_runs(wrapper: &Option<RunProcess>, alive: bool) -> (r: bool)
    ensures
        r == still_runs(*wrapper, alive),
{
    match wrapper {
        Some(wrapper) => wrapper.exited_at.is_none() && alive,
        None => false,
    }
}

/// A parked run as it is looked at.
#[derive(Debug, Clone, Copy, PartialEq, Eq, Structural)]
pub struct Candidate {
    /// It has a lease that is not stale.
    pub leased: bool,
    /// Its last session still runs.
    pub session_runs: bool,
    /// Its resumes are used up.
    pub exhausted: bool,
}

/// What has been done and observed of a parked run.
#[derive(Default)]
pub struct ParkedSeen {
    pub exhaustion_tried: bool,
    pub workspaces_closed: bool,
    pub main: Option<String>,
    /// The head an earlier resume resolved it at, if one did.
    pub resolved: Option<Option<String>>,
    pub skipped: bool,
    /// The reason it waits for a session.
    pub reason: Option<Option<String>>,
    /// The cleanup job clears its worktree.
    pub cleaning: Option<bool>,
    /// The run and its attempt, where the resume began.
    pub begun: Option<Option<usize>>,
    /// What starting the session gave.
    pub started: Option<Result<(), String>>,
}

/// What resuming a parked run does next.
pub enum ParkedStep {
    /// Someone has the run, or nothing more is to be done for it.
    Next,
    /// No slot is free: no later run is looked at.
    Stop,
    /// Hand the run, out of attempts, on.
    Exhaust,
    CloseLeftWorkspaces,
    MainHead,
    ResolvedHead { main: String },
    /// Go on without a session.
    Skip { head: String, main: String },
    Reason,
    Cleaning,
    /// Another pass resumes it, once the cleanup is done.
    Defer,
    Begin { main: String, why: Option<String> },
    Start { attempt: usize, main: String, reason: String },
    /// The run takes a slot.
    Take,
    GiveUp { attempt: usize, message: String, fallback: ReasonCode },
}

/// What resuming a parked run comes to.
pub open spec fn parks(
    run: TaskRun,
    candidate: Candidate,
    room: bool,
    seen: ParkedSeen,
    r: ParkedStep,
) -> bool {
    if candidate.leased || candidate.session_runs {
        r is Next
    } else if candidate.exhausted {
        if !seen.exhaustion_tried {
            r is Exhaust
        } else {
            r is Next
        }
    } else if !room {
        r is Stop
    } else if !seen.workspaces_closed {
        r is CloseLeftWorkspaces
    } else if seen.main is None {
        r is MainHead
    } else if seen.resolved is None {
        r == (ParkedStep::ResolvedHead { main: seen.main->0 })
    } else if seen.resolved->0 is Some {
        if !seen.skipped {
            r == (ParkedStep::Skip { head: seen.resolved->0->0, main: seen.main->0 })
        } else {
            r is Next
        }
    } else if seen.reason is None {
        r is Reason
    } else if seen.cleaning is None {
        r is Cleaning
    } else if seen.cleaning->0 {
        r is Defer
    } else if seen.begun is None {
        r == (ParkedStep::Begin { main: seen.main->0, why: seen.reason->0 })
    } else if seen.begun->0 is None {
        r is Next
    } else {
        let attempt = seen.begun->0->0;
        match seen.started {
            None => r matches ParkedStep::Start { attempt: a, main, reason } && a == attempt && main
                == seen.main->0 && reason@ == (match seen.reason->0 {
                Some(reason) => reason@,
                None => "(no reason recorded)"@,
            }),
            Some(Ok(_)) => r is Take,
            Some(Err(error)) => r matches ParkedStep::GiveUp { attempt: a, message, fallback } && a
                == attempt && message@ == "run "@ + run.id@ + " could not be resumed: "@ + error@
                && fallback == Failing::Resume.code(),
        }
    }
}

/// Resume a parked run with attempts left: a run with a lease that is not
/// stale, or whose last session still runs, is someone's already; a second
/// session never joins one on the same worktree. Out of attempts, it is
/// handed on whether or not a slot is free.
pub fn resume_parked_run(
    run: &TaskRun,
    candidate: Candidate,
    room: bool,
    seen: &ParkedSeen,
) -> (r: ParkedStep)
    ensures
        parks(*run, candidate, room, *seen, r),
{
    if candidate.leased || candidate.session_runs {
        return ParkedStep::Next;
    }
    if candidate.exhausted {
        return if !seen.exhaustion_tried {
            ParkedStep::Exhaust
        } else {
            ParkedStep::Next
        };
    }
    if !room {
        return ParkedStep::Stop;
    }
    if !seen.workspaces_closed {
        return ParkedStep::CloseLeftWorkspaces;
    }
    let main = match &seen.main {
        None => return ParkedStep::MainHead,
        Some(main) => main,
    };
    match &seen.resolved {
        None => return ParkedStep::ResolvedHead { main: main.clone() },
        Some(Some(head)) => {
            return if !seen.skipped {
                ParkedStep::Skip { head: head.clone(), main: main.clone() }
            } else {
                ParkedStep::Next
            };
        },
        Some(None) => {},
    }
    let reason = match &seen.reason {
        None => return ParkedStep::Reason,
        Some(reason) => reason,
    };
    match seen.cleaning {
        None => return ParkedStep::Cleaning,
        Some(cleaning) => if cleaning {
            return ParkedStep::Defer;
        },
    }
    let attempt: usize = match seen.begun {
        None => {
            return ParkedStep::Begin {
                main: main.clone(),
                why: crate::domain::same_text(reason),
            };
        },
        Some(None) => return ParkedStep::Next,
        Some(Some(attempt)) => attempt,
    };
    match &seen.started {
        None => {
            let reason = match reason {
                Some(reason) => reason.clone(),
                None => "(no reason recorded)".to_owned(),
            };
            ParkedStep::Start { attempt, main: main.clone(), reason }
        },
        Some(Ok(_)) => ParkedStep::Take,
        Some(Err(error)) => ParkedStep::GiveUp {
            attempt,
            message: "run ".to_owned().concat(run.id.as_str()).concat(
                " could not be resumed: ",
            ).concat(error.as_str()),
            fallback: Failing::Resume.fallback(),
        },
    }
}

/// The first candidate from `from` on whose last session does not run.
pub open spec fn ended_from(candidates: Seq<Candidate>, from: int) -> Option<int>
    decreases candidates.len() - from,
{
    if from < 0 || from >= candidates.len() {
        None
    } else if !candidates[from].session_runs {
        Some(from)
    } else {
        ended_from(candidates, from + 1)
    }
}

/// What a pass over the parked runs did so far.
#[derive(Debug, Clone, Copy, PartialEq, Eq, Structural, Default)]
pub struct ParkedPassSeen {
    /// The `stuck_exit` asks of the candidates before this one are settled.
    pub asked: usize,
    /// The candidates before this one are resumed, or need not be.
    pub next: usize,
    /// A candidate found no free slot.
    pub stopped: bool,
}

/// What a pass over the parked runs does next.
#[derive(Debug, Clone, Copy, PartialEq, Eq)]
pub enum ParkedPassStep {
    /// Close the candidate's open `stuck_exit` asks with this answer.
    CloseStuckExit { index: usize, answer: &'static str },
    /// Resume the candidate: [`resume_parked_run`].
    Resume { index: usize },
    Done,
}

/// What a pass over the parked runs comes to.
pub open spec fn passes(
    candidates: Seq<Candidate>,
    seen: ParkedPassSeen,
    r: ParkedPassStep,
) -> bool {
    match ended_from(candidates, seen.asked as int) {
        Some(i) => r matches ParkedPassStep::CloseStuckExit { index, answer } && index == i
            && answer@ == "the session exited; closed by the runtime"@,
        None => if seen.stopped || seen.next >= candidates.len() {
            r is Done
        } else {
            r == (ParkedPassStep::Resume { index: seen.next })
        },
    }
}

/// A pass over the parked runs, oldest first. A resumed session that was let go
/// after the exit timeout raised a `stuck_exit` ask; once it ended nobody needs
/// to answer that, whether or not a slot is free: those asks are closed before
/// the first run is resumed. Then each run is, until no slot is free.
pub fn resume_parked_runs(candidates: &Vec<Candidate>, seen: ParkedPassSeen) -> (r: ParkedPassStep)
    ensures
        passes(candidates@, seen, r),
{
    let mut i: usize = seen.asked;
    while i < candidates.len()
        invariant
            seen.asked <= i,
            ended_from(candidates@, seen.asked as int) == ended_from(candidates@, i as int),
        decreases candidates@.len() - i,
    {
        if !candidates[i].session_runs {
            return ParkedPassStep::CloseStuckExit { index: i, answer: stuck_exit_closed() };
        }
        i += 1;
    }
    if seen.stopped || seen.next >= candidates.len() {
        ParkedPassStep::Done
    } else {
        ParkedPassStep::Resume { index: seen.next }
    }
}

/// A pass resumes a run, or ends, only once the `stuck_exit` asks of every
/// candidate whose session ended are closed.
pub proof fn ended_sessions_are_settled_first(
    candidates: Seq<Candidate>,
    seen: ParkedPassSeen,
    r: ParkedPassStep,
    i: int,
)
    requires
        passes(candidates, seen, r),
        !(r is CloseStuckExit),
        0 <= i < candidates.len(),
        !candidates[i].session_runs,
    ensures
        i < seen.asked,
{
    if i >= seen.asked {
        ended_is_found(candidates, seen.asked as int, i);
    }
}

/// A candidate whose session does not run is found from any place before it.
proof fn ended_is_found(candidates: Seq<Candidate>, from: int, i: int)
    requires
        0 <= from <= i < candidates.len(),
        !candidates[i].session_runs,
    ensures
        ended_from(candidates, from) is Some,
    decreases i - from,
{
    if from < i && candidates[from].session_runs {
        ended_is_found(candidates, from + 1, i);
    }
}

/// No session is started for a run that someone has: neither under a fresh
/// lease nor beside a session that still runs, nor while its worktree is
/// cleared.
pub proof fn no_second_resume(
    run: TaskRun,
    candidate: Candidate,
    room: bool,
    seen: ParkedSeen,
    r: ParkedStep,
)
    requires
        parks(run, candidate, room, seen, r),
        r is Begin || r is Start,
    ensures
        !candidate.leased,
        !candidate.session_runs,
        !candidate.exhausted,
        room,
        seen.cleaning == Some(false),
        seen.resolved == Some(None::<String>),
{
}

/// Whether an event parks a run.
pub open spec fn is_parking(event: RunEvent, recheck_kind: Seq<char>) -> bool {
    event.is_kind("integration_deferred"@) || event.is_kind("integration_error"@) || event.is_kind(
        "evidence_missing"@,
    ) || event.is_kind("scope_violation"@) || event.is_kind("landing_decided"@) || event.is_kind(
        recheck_kind,
    )
}

/// Whether an event parks a run.
fn parking(event: &RunEvent, recheck_kind: &str) -> (r: bool)
    ensures
        r == is_parking(*event, recheck_kind@),
{
    event.of_kind("integration_deferred") || event.of_kind("integration_error") || event.of_kind(
        "evidence_missing",
    ) || event.of_kind("scope_violation") || event.of_kind("landing_decided") || event.of_kind(
        recheck_kind,
    )
}

/// Whether an event parks a run or ends a resume.
pub open spec fn is_turning(event: RunEvent, recheck_kind: Seq<char>) -> bool {
    is_parking(event, recheck_kind) || event.is_kind("resume_finished"@) || event.is_kind(
        "resume_skipped"@,
    )
}

/// The place of the last of the first `n` events that parks.
pub open spec fn last_parking(events: Seq<RunEvent>, recheck_kind: Seq<char>, n: int) -> Option<int>
    decreases n,
{
    if n <= 0 || n > events.len() {
        None
    } else if is_parking(events[n - 1], recheck_kind) {
        Some(n - 1)
    } else {
        last_parking(events, recheck_kind, n - 1)
    }
}

/// The place of the last of the first `n` events that parks or ends a resume.
pub open spec fn last_turning(events: Seq<RunEvent>, recheck_kind: Seq<char>, n: int) -> Option<int>
    decreases n,
{
    if n <= 0 || n > events.len() {
        None
    } else if is_turning(events[n - 1], recheck_kind) {
        Some(n - 1)
    } else {
        last_turning(events, recheck_kind, n - 1)
    }
}

/// Whether the events allow a run to have been resolved by an earlier resume:
/// it was last parked by the landing or validation, not by a person, and the
/// last turn is a resume that ended unresolved.
pub open spec fn may_be_resolved(events: Seq<RunEvent>, recheck_kind: Seq<char>) -> bool {
    let n = events.len() as int;
    let parked = last_parking(events, recheck_kind, n);
    let last = last_turning(events, recheck_kind, n);
    &&& parked is Some
    &&& !events[parked->0].is_kind("landing_decided"@)
    &&& last is Some
    &&& events[last->0].is_kind("resume_finished"@)
    &&& json::at(events[last->0].payload@, "outcome"@) == json::Value::Text("unresolved"@)
}

/// Whether the events allow a run to have been resolved by an earlier resume.
fn may_have_resolved(events: &Vec<RunEvent>, recheck_kind: &str) -> (r: bool)
    ensures
        r == may_be_resolved(events@, recheck_kind@),
{
    let mut n: usize = events.len();
    let mut found: Option<usize> = None;
    while n > 0 && found.is_none()
        invariant
            n <= events@.len(),
            match found {
                None => last_parking(events@, recheck_kind@, events@.len() as int)
                    == last_parking(events@, recheck_kind@, n as int),
                Some(i) => i < events@.len() && last_parking(
                    events@,
                    recheck_kind@,
                    events@.len() as int,
                ) == Some(i as int),
            },
        decreases n,
    {
        n -= 1;
        if parking(&events[n], recheck_kind) {
            found = Some(n);
        }
    }
    match found {
        None => return false,
        Some(i) => if events[i].of_kind("landing_decided") {
            return false;
        },
    }
    let mut n: usize = events.len();
    while n > 0
        invariant
            n <= events@.len(),
            last_turning(events@, recheck_kind@, events@.len() as int) == last_turning(
                events@,
                recheck_kind@,
                n as int,
            ),
            last_parking(events@, recheck_kind@, events@.len() as int) is Some,
            !events@[last_parking(events@, recheck_kind@, events@.len() as int)->0].is_kind(
                "landing_decided"@,
            ),
        decreases n,
    {
        n -= 1;
        let event = &events[n];
        if parking(event, recheck_kind) || event.of_kind("resume_finished") || event.of_kind(
            "resume_skipped",
        ) {
            return event.of_kind("resume_finished") && event.payload.says("outcome", "unresolved");
        }
    }
    false
}

/// A receipt as an earlier resume may have left it.
pub struct LeftReceipt {
    pub run_id: String,
    pub result: ReceiptResult,
    pub commit: String,
    /// It lacks evidence the task requires.
    pub evidence_missing: bool,
}

/// What has been observed of a run an earlier resume may have resolved.
#[derive(Default)]
pub struct ResolvedSeen {
    /// The receipt, where one can be read.
    pub receipt: Option<Option<LeftReceipt>>,
    /// The head of the worktree, whether it is clean, and whether main is an
    /// ancestor of it, as far as they can be read.
    pub head: Option<Option<String>>,
    pub clean: Option<bool>,
    pub on_main: Option<bool>,
}

/// What looking for an earlier resume's result does next.
pub enum ResolvedStep {
    ReadReceipt { path: String },
    Head { worktree: String },
    Clean { worktree: String },
    OnMain { head: String },
    /// The head it was resolved at, if it was.
    Resolved(Option<String>),
}

/// Whether a receipt reports this run as done, with its evidence.
pub open spec fn is_done(receipt: LeftReceipt, run_id: Seq<char>) -> bool {
    receipt.run_id@ == run_id && receipt.result == ReceiptResult::Succeeded
        && !receipt.evidence_missing
}

/// What looking for an earlier resume's result comes to.
pub open spec fn resolves(
    run: TaskRun,
    main: Seq<char>,
    events: Seq<RunEvent>,
    recheck_kind: Seq<char>,
    seen: ResolvedSeen,
    r: ResolvedStep,
) -> bool {
    let none = ResolvedStep::Resolved(None);
    if !may_be_resolved(events, recheck_kind) || run.worktree_path is None || run.receipt_path
        is None {
        r == none
    } else if seen.receipt is None {
        r == (ResolvedStep::ReadReceipt { path: run.receipt_path->0 })
    } else if seen.receipt->0 is None || !is_done(seen.receipt->0->0, run.id@) {
        r == none
    } else if seen.head is None {
        r == (ResolvedStep::Head { worktree: run.worktree_path->0 })
    } else if seen.head->0 is None || seen.head->0->0@ != text::lowered(
        seen.receipt->0->0.commit@,
    ) || seen.head->0->0@ == main {
        r == none
    } else if seen.clean is None {
        r == (ResolvedStep::Clean { worktree: run.worktree_path->0 })
    } else if !seen.clean->0 {
        r == none
    } else if seen.on_main is None {
        r == (ResolvedStep::OnMain { head: seen.head->0->0 })
    } else if !seen.on_main->0 {
        r == none
    } else {
        r == ResolvedStep::Resolved(Some(seen.head->0->0))
    }
}

/// The worktree head of a parked run that an earlier resume already resolved
/// although it was not judged so. None whenever one of the conditions fails or
/// cannot be read; the run is resumed then. Back in its parked state after a
/// skip, however it got there, the run needs a resume first, so that a skip
/// never repeats without one.
pub fn resolved_head(
    run: &TaskRun,
    main: &str,
    events: &Vec<RunEvent>,
    recheck_kind: &str,
    seen: &ResolvedSeen,
) -> (r: ResolvedStep)
    ensures
        resolves(*run, main@, events@, recheck_kind@, *seen, r),
{
    if !may_have_resolved(events, recheck_kind) {
        return ResolvedStep::Resolved(None);
    }
    let worktree = match &run.worktree_path {
        None => return ResolvedStep::Resolved(None),
        Some(worktree) => worktree,
    };
    let receipt_path = match &run.receipt_path {
        None => return ResolvedStep::Resolved(None),
        Some(receipt_path) => receipt_path,
    };
    let receipt = match &seen.receipt {
        None => return ResolvedStep::ReadReceipt { path: receipt_path.clone() },
        Some(None) => return ResolvedStep::Resolved(None),
        Some(Some(receipt)) => receipt,
    };
    if !text::same(receipt.run_id.as_str(), run.id.as_str()) || receipt.result
        != ReceiptResult::Succeeded || receipt.evidence_missing {
        return ResolvedStep::Resolved(None);
    }
    let head = match &seen.head {
        None => return ResolvedStep::Head { worktree: worktree.clone() },
        Some(None) => return ResolvedStep::Resolved(None),
        Some(Some(head)) => head,
    };
    let commit = text::ascii_lower(receipt.commit.as_str());
    if !text::same(head.as_str(), commit.as_str()) || text::same(head.as_str(), main) {
        return ResolvedStep::Resolved(None);
    }
    match seen.clean {
        None => return ResolvedStep::Clean { worktree: worktree.clone() },
        Some(clean) => if !clean {
            return ResolvedStep::Resolved(None);
        },
    }
    match seen.on_main {
        None => return ResolvedStep::OnMain { head: head.clone() },
        Some(on_main) => if !on_main {
            return ResolvedStep::Resolved(None);
        },
    }
    ResolvedStep::Resolved(Some(head.clone()))
}

/// A skip does not repeat without a resume between: after a `resume_skipped`
/// no event but the end of a resume makes the run resolved again.
pub proof fn a_skip_needs_a_resume_first(
    events: Seq<RunEvent>,
    recheck_kind: Seq<char>,
    skipped: int,
)
    requires
        0 <= skipped < events.len(),
        events[skipped].is_kind("resume_skipped"@),
        forall|i: int|
            skipped < i < events.len() ==> !(#[trigger] events[i]).is_kind("resume_finished"@),
    ensures
        !may_be_resolved(events, recheck_kind),
{
    turning_is_late(events, recheck_kind, events.len() as int, skipped);
    assert("resume_skipped"@ != "resume_finished"@) by {
        reveal_strlit("resume_skipped");
        reveal_strlit("resume_finished");
        assert("resume_skipped"@.len() != "resume_finished"@.len());
    }
}

/// The last turn among the first `n` events is no earlier than any turn there.
proof fn turning_is_late(events: Seq<RunEvent>, recheck_kind: Seq<char>, n: int, at: int)
    requires
        0 <= at < n <= events.len(),
        is_turning(events[at], recheck_kind),
    ensures
        last_turning(events, recheck_kind, n) matches Some(i) && at <= i < n,
    decreases n,
{
    if !is_turning(events[n - 1], recheck_kind) {
        turning_is_late(events, recheck_kind, n - 1, at);
    }
}

/// What has been done and observed of a run that goes on without a session.
#[derive(Default)]
pub struct SkipSeen {
    pub approved: Option<bool>,
    /// The run once the skip is recorded; none where it is no longer parked.
    pub skipped: Option<Option<TaskRun>>,
    pub queued: bool,
}

/// What going on without a session does next.
pub enum SkipStep {
    Approved,
    Skip { head: String, main: String, approved: bool },
    QueueLanding { run: TaskRun },
    /// The run takes a slot that waits to land.
    Await { run: TaskRun },
    /// The run takes a slot that validates, with no session to keep.
    Validate { run: TaskRun },
    Nothing,
}

/// Move a run that was found resolved on without opening a session or using an
/// attempt: land it where its integrate was approved, or validate it.
pub fn skip_resume(head: &String, main: &String, seen: &SkipSeen) -> (r: SkipStep)
    ensures
        if seen.approved is None {
            r is Approved
        } else {
            match seen.skipped {
                None => r == (SkipStep::Skip {
                    head: *head,
                    main: *main,
                    approved: seen.approved->0,
                }),
                Some(None) => r is Nothing,
                Some(Some(run)) => if !seen.approved->0 {
                    r == (SkipStep::Validate { run })
                } else if !seen.queued {
                    r == (SkipStep::QueueLanding { run })
                } else {
                    r == (SkipStep::Await { run })
                },
            }
        },
{
    let approved = match seen.approved {
        None => return SkipStep::Approved,
        Some(approved) => approved,
    };
    match &seen.skipped {
        None => SkipStep::Skip { head: head.clone(), main: main.clone(), approved },
        Some(None) => SkipStep::Nothing,
        Some(Some(run)) => if !approved {
            SkipStep::Validate { run: run.copy() }
        } else if !seen.queued {
            SkipStep::QueueLanding { run: run.copy() }
        } else {
            SkipStep::Await { run: run.copy() }
        },
    }
}

/// What has been observed of the commit a retry carries over.
#[derive(Default)]
pub struct HeadSeen {
    pub worktree_there: Option<bool>,
    pub rebasing: Option<bool>,
    pub head: Option<String>,
    pub kept: bool,
}

/// What looking for the commit a retry carries over does next.
pub enum HeadStep {
    WorktreeThere { worktree: String },
    Rebasing { worktree: String },
    Head { worktree: String },
    /// Keep the commit under this reference, so that it outlives the branch.
    Keep { reference: String, head: String },
    /// The commit, if the branch holds one on top of the run's base.
    Inherited(Option<String>),
}

/// Keeping a commit that is carried over.
pub open spec fn keeps(run: TaskRun, head: String, seen: HeadSeen, r: HeadStep) -> bool {
    if head@ == run.base_commit@ {
        r == HeadStep::Inherited(None)
    } else if !seen.kept {
        r matches HeadStep::Keep { reference, head: h } && h == head && reference@
            == "refs/dagq/runs/"@ + run.id@
    } else {
        r == HeadStep::Inherited(Some(head))
    }
}

/// What looking for the commit a retry carries over comes to.
pub open spec fn inherits(run: TaskRun, seen: HeadSeen, r: HeadStep) -> bool {
    match run.result_commit {
        Some(commit) => keeps(run, commit, seen, r),
        None => match run.worktree_path {
            None => r == HeadStep::Inherited(None),
            Some(worktree) => if seen.worktree_there is None {
                r == (HeadStep::WorktreeThere { worktree })
            } else if !seen.worktree_there->0 {
                r == HeadStep::Inherited(None)
            } else if seen.rebasing is None {
                r == (HeadStep::Rebasing { worktree })
            } else if seen.rebasing->0 {
                r == HeadStep::Inherited(None)
            } else {
                match seen.head {
                    None => r == (HeadStep::Head { worktree }),
                    Some(head) => keeps(run, head, seen, r),
                }
            },
        },
    }
}

/// Keep a commit that is carried over.
fn keep_head(run: &TaskRun, head: &String, seen: &HeadSeen) -> (r: HeadStep)
    ensures
        keeps(*run, *head, *seen, r),
{
    if text::same(head.as_str(), run.base_commit.as_str()) {
        return HeadStep::Inherited(None);
    }
    if !seen.kept {
        return HeadStep::Keep {
            reference: "refs/dagq/runs/".to_owned().concat(run.id.as_str()),
            head: head.clone(),
        };
    }
    HeadStep::Inherited(Some(head.clone()))
}

/// The commit of the run's branch a retry carries over: its validated commit
/// (the one its review passed), or without one the head of its worktree, where
/// no rebase is stopped half way there.
pub fn inherited_head(run: &TaskRun, seen: &HeadSeen) -> (r: HeadStep)
    ensures
        inherits(*run, *seen, r),
{
    if let Some(commit) = &run.result_commit {
        return keep_head(run, commit, seen);
    }
    let worktree = match &run.worktree_path {
        None => return HeadStep::Inherited(None),
        Some(worktree) => worktree,
    };
    match seen.worktree_there {
        None => return HeadStep::WorktreeThere { worktree: worktree.clone() },
        Some(there) => if !there {
            return HeadStep::Inherited(None);
        },
    }
    match seen.rebasing {
        None => return HeadStep::Rebasing { worktree: worktree.clone() },
        Some(rebasing) => if rebasing {
            return HeadStep::Inherited(None);
        },
    }
    match &seen.head {
        None => HeadStep::Head { worktree: worktree.clone() },
        Some(head) => keep_head(run, head, seen),
    }
}

/// A run's task as its exhaustion looks at it.
pub struct TaskState {
    pub status: TaskStatus,
    /// The task's latest run.
    pub latest: Option<String>,
    /// The run's review passed and it waits only for a conflict, and no run of
    /// the task was retried so before.
    pub inherits: bool,
}

/// What has been done and observed of a run whose resumes are used up.
#[derive(Default)]
pub struct ExhaustSeen {
    pub task: Option<TaskState>,
    /// The commit a retry carries over, or why it could not be kept.
    pub inherited: Option<Result<Option<String>, String>>,
    /// The run once it is failed; none where the task moved on.
    pub failed: Option<Option<TaskRun>>,
    pub workspaces_closed: bool,
}

/// What a run whose resumes are used up does next.
pub enum ExhaustStep {
    ShowTask,
    InheritedHead,
    /// Fail the run and retry the task with its branch carried over.
    RetryInheriting { head: String, reason: String },
    /// Fail the run and hand it to the recovery job.
    Recover { reason: String },
    CloseWorkspaces { run: TaskRun, closer: WorkspaceCloser },
    /// The run counts as triaged.
    NoteTriaged { run: TaskRun },
    Done,
}

/// Why a run whose resumes are used up ends.
pub open spec fn exhausted_reason(run: TaskRun, resumes: ResumeCount) -> Seq<char> {
    resumed(resumes) + " and still needs a session: "@ + text::tail_of(
        match run.last_error {
            Some(error) => error@,
            None => ""@,
        },
        500,
    )
}

/// Whether a task is still where the run left it.
pub open spec fn is_current(run: TaskRun, task: TaskState) -> bool {
    task.status == TaskStatus::InProgress && (task.latest is None || task.latest->0@ == run.id@)
}

/// What a run whose resumes are used up comes to.
pub open spec fn exhausts(
    run: TaskRun,
    resumes: ResumeCount,
    seen: ExhaustSeen,
    r: ExhaustStep,
) -> bool {
    let reason = exhausted_reason(run, resumes);
    if seen.task is None {
        r is ShowTask
    } else if !is_current(run, seen.task->0) {
        r is Done
    } else if seen.task->0.inherits && seen.inherited is None {
        r is InheritedHead
    } else {
        let carried = seen.task->0.inherits && (seen.inherited->0 matches Ok(Some(_)));
        match seen.failed {
            None => if carried {
                r matches ExhaustStep::RetryInheriting { head, reason: why } && head
                    == seen.inherited->0->Ok_0->0 && why@ == reason
            } else {
                r matches ExhaustStep::Recover { reason: why } && why@ == reason
            },
            Some(None) => r is Done,
            Some(Some(failed)) => if !seen.workspaces_closed {
                r == (ExhaustStep::CloseWorkspaces { run: failed, closer: WorkspaceCloser::Triage })
            } else if carried {
                r == (ExhaustStep::NoteTriaged { run: failed })
            } else {
                r is Done
            },
        }
    }
}

/// End a parked run whose resumes are used up. A run whose review passed and
/// that waits only for a conflict with main is retried with its branch carried
/// over, once per task; any other becomes failed and its recovery job decides
/// what follows. A run of a task that moved on is left alone.
pub fn exhaust_resumes(run: &TaskRun, resumes: ResumeCount, seen: &ExhaustSeen) -> (r: ExhaustStep)
    ensures
        exhausts(*run, resumes, *seen, r),
{
    let task = match &seen.task {
        None => return ExhaustStep::ShowTask,
        Some(task) => task,
    };
    if task.status != TaskStatus::InProgress {
        return ExhaustStep::Done;
    }
    if let Some(latest) = &task.latest {
        if !text::same(latest.as_str(), run.id.as_str()) {
            return ExhaustStep::Done;
        }
    }
    let head = if task.inherits {
        match &seen.inherited {
            None => return ExhaustStep::InheritedHead,
            Some(Ok(Some(head))) => Some(head.clone()),
            Some(_) => None,
        }
    } else {
        None
    };
    match &seen.failed {
        None => {
            let resumed = resumed_text(resumes);
            let left = match &run.last_error {
                Some(error) => text::tail(error.as_str(), 500),
                None => text::tail("", 500),
            };
            let reason = resumed.concat(" and still needs a session: ").concat(left.as_str());
            match head {
                Some(head) => ExhaustStep::RetryInheriting { head, reason },
                None => ExhaustStep::Recover { reason },
            }
        },
        Some(None) => ExhaustStep::Done,
        Some(Some(failed)) => if !seen.workspaces_closed {
            ExhaustStep::CloseWorkspaces { run: failed.copy(), closer: WorkspaceCloser::Triage }
        } else if head.is_some() {
            ExhaustStep::NoteTriaged { run: failed.copy() }
        } else {
            ExhaustStep::Done
        },
    }
}

/// A workspace of a run.
pub struct RunWorkspace {
    pub workspace_id: String,
    /// The resume attempt that opened it; none for the worker's.
    pub resume_attempt: Option<usize>,
    pub closed: bool,
}

/// What closing a workspace that an earlier attempt left does next.
pub enum LeftStep {
    /// Not one of those, or closed.
    Next,
    Exists,
    Close,
    RecordClosed { payload: Json },
}

/// Close a resume workspace that an earlier attempt of the run left open, found
/// by its recorded ID, and record it. `exists`, `closed` and `recorded` are
/// what was observed and done.
pub fn close_left_resume_workspace(
    workspace: &RunWorkspace,
    exists: Option<bool>,
    closed: bool,
    recorded: bool,
) -> (r: LeftStep)
    ensures
        if workspace.resume_attempt is None || workspace.closed {
            r is Next
        } else if exists is None {
            r is Exists
        } else if !exists->0 {
            r is Next
        } else if !closed {
            r is Close
        } else if !recorded {
            r matches LeftStep::RecordClosed { payload } && payload@ == json::Value::Object(
                json::none().push(
                    ("resume_attempt"@, json::Value::Int(workspace.resume_attempt->0 as int)),
                ).push(("by"@, json::Value::Text("supervisor"@))),
            )
        } else {
            r is Next
        },
{
    let attempt = match workspace.resume_attempt {
        None => return LeftStep::Next,
        Some(attempt) => attempt,
    };
    if workspace.closed {
        return LeftStep::Next;
    }
    match exists {
        None => return LeftStep::Exists,
        Some(exists) => if !exists {
            return LeftStep::Next;
        },
    }
    if !closed {
        return LeftStep::Close;
    }
    if !recorded {
        return LeftStep::RecordClosed {
            payload: Fields::new().number("resume_attempt", attempt as i128).text(
                "by",
                "supervisor",
            ).done(),
        };
    }
    LeftStep::Next
}

/// What has been done and observed of starting a resumed session.
#[derive(Default)]
pub struct StartSeen {
    pub worktree_there: Option<bool>,
    pub request_written: bool,
    pub runner_copied: bool,
    pub workspace: Option<String>,
    pub recorded: bool,
}

/// What starting a resumed session does next.
pub enum StartStep {
    Failed(String),
    WorktreeThere { worktree: String },
    /// Write the resolution request to this file.
    WriteRequest { file: String, text: String },
    CopyRunner { from: String, to: String },
    /// Open the resume workspace with the worker's environment.
    Create { argv: Vec<String>, env: Vec<(String, String)> },
    Record { kind: &'static str, payload: Json },
    Started { workspace: String },
}

/// The words of a resumed session's command.
pub open spec fn session_words(
    layout: Layout,
    run: TaskRun,
    token: Seq<char>,
    run_dir: Seq<char>,
) -> Seq<Seq<char>> {
    seq![
        path::under(run_dir, "runner"@),
        "--db"@,
        layout.db@,
        "session"@,
        "--run"@,
        run.id@,
        "--lease"@,
        token,
        layout.agent.flag(),
        layout.claude@,
        "--resume"@,
    ]
}

/// What starting a resumed session comes to.
pub open spec fn starts(
    layout: Layout,
    run: TaskRun,
    token: Seq<char>,
    attempt: usize,
    request: Seq<char>,
    seen: StartSeen,
    r: StartStep,
) -> bool {
    if run.run_dir is None {
        r matches StartStep::Failed(why) && why@ == "missing run directory"@
    } else if run.worktree_path is None {
        r matches StartStep::Failed(why) && why@ == "missing worktree"@
    } else if seen.worktree_there is None {
        r == (StartStep::WorktreeThere { worktree: run.worktree_path->0 })
    } else if !seen.worktree_there->0 {
        r matches StartStep::Failed(why) && why@ == "worktree "@ + run.worktree_path->0@
            + " is missing"@
    } else if !seen.request_written {
        r matches StartStep::WriteRequest { file, text } && file@ == path::under(
            run.run_dir->0@,
            "resume-"@ + text::decimal(attempt as nat) + ".txt"@,
        ) && text@ == request
    } else if !seen.runner_copied {
        r matches StartStep::CopyRunner { from, to } && from == layout.runner && to@ == path::under(
            run.run_dir->0@,
            "runner"@,
        )
    } else if seen.workspace is None {
        r matches StartStep::Create { argv, env } && text::views(argv@) == session_words(
            layout,
            run,
            token,
            run.run_dir->0@,
        ) && variables(env@) == variables(layout.worker_env@)
    } else if !seen.recorded {
        r matches StartStep::Record { kind, payload } && kind@ == "workspace_created"@ && payload@
            == json::Value::Object(
            json::none().push(("workspace_id"@, json::Value::Text(seen.workspace->0@))).push(
                ("resume_attempt"@, json::Value::Int(attempt as int)),
            ),
        )
    } else if run.receipt_path is None {
        r matches StartStep::Failed(why) && why@ == "missing receipt path"@
    } else {
        r == (StartStep::Started { workspace: seen.workspace->0 })
    }
}

/// Add a word to a list of them.
fn word(list: &mut Vec<String>, what: &str)
    ensures
        text::views(final(list)@) == text::views(old(list)@).push(what@),
{
    let ghost had = list@;
    list.push(what.to_owned());
    assert(text::views(list@) =~= text::views(had).push(what@));
}

/// Write the resolution request, which `request` is, refresh the runtime
/// snapshot and open the resume workspace with the same wrapper and settings as the worker's. Every
/// workspace of the run is recorded, so that whatever ends the run finds this
/// one to close.
pub fn start_resume(
    layout: &Layout,
    run: &TaskRun,
    token: &str,
    attempt: usize,
    request: &str,
    seen: &StartSeen,
) -> (r: StartStep)
    ensures
        starts(*layout, *run, token@, attempt, request@, *seen, r),
{
    let run_dir = match &run.run_dir {
        None => return StartStep::Failed("missing run directory".to_owned()),
        Some(run_dir) => run_dir,
    };
    let worktree = match &run.worktree_path {
        None => return StartStep::Failed("missing worktree".to_owned()),
        Some(worktree) => worktree,
    };
    match seen.worktree_there {
        None => return StartStep::WorktreeThere { worktree: worktree.clone() },
        Some(there) => if !there {
            return StartStep::Failed(
                "worktree ".to_owned().concat(worktree.as_str()).concat(" is missing"),
            );
        },
    }
    if !seen.request_written {
        let n = text::number(attempt as u64);
        let name = "resume-".to_owned().concat(n.as_str()).concat(".txt");
        return StartStep::WriteRequest {
            file: path::join_path(run_dir.as_str(), name.as_str()),
            text: request.to_owned(),
        };
    }
    let runner = path::join_path(run_dir.as_str(), "runner");
    if !seen.runner_copied {
        return StartStep::CopyRunner { from: layout.runner.clone(), to: runner };
    }
    let workspace = match &seen.workspace {
        None => {
            let mut argv: Vec<String> = Vec::new();
            assert(text::views(argv@) =~= Seq::empty());
            word(&mut argv, runner.as_str());
            word(&mut argv, "--db");
            word(&mut argv, layout.db.as_str());
            word(&mut argv, "session");
            word(&mut argv, "--run");
            word(&mut argv, run.id.as_str());
            word(&mut argv, "--lease");
            word(&mut argv, token);
            let flag = layout.agent.option();
            word(&mut argv, flag.as_str());
            word(&mut argv, layout.claude.as_str());
            word(&mut argv, "--resume");
            assert(text::views(argv@) =~= session_words(*layout, *run, token@, run_dir@));
            return StartStep::Create { argv, env: copy_variables(&layout.worker_env) };
        },
        Some(workspace) => workspace,
    };
    if !seen.recorded {
        return StartStep::Record {
            kind: "workspace_created",
            payload: Fields::new().text("workspace_id", workspace.as_str()).number(
                "resume_attempt",
                attempt as i128,
            ).done(),
        };
    }
    if run.receipt_path.is_none() {
        return StartStep::Failed("missing receipt path".to_owned());
    }
    StartStep::Started { workspace: workspace.clone() }
}

/// Whether an event begins or ends a resume.
pub open spec fn is_resume_event(event: RunEvent) -> bool {
    event.is_kind("resume_started"@) || event.is_kind("resume_finished"@) || event.is_kind(
        "resume_skipped"@,
    )
}

/// The place of the last of the first `n` events that begins or ends a resume.
pub open spec fn last_resume_event(events: Seq<RunEvent>, n: int) -> Option<int>
    decreases n,
{
    if n <= 0 || n > events.len() {
        None
    } else if is_resume_event(events[n - 1]) {
        Some(n - 1)
    } else {
        last_resume_event(events, n - 1)
    }
}

/// The first event at or after `from` that records, after the event `started`,
/// the workspace of a resume attempt.
pub open spec fn workspace_event(
    events: Seq<RunEvent>,
    started: i64,
    attempt: int,
    from: int,
) -> Option<int>
    decreases events.len() - from,
{
    if from < 0 || from >= events.len() {
        None
    } else if events[from].id > started && events[from].is_kind("workspace_created"@)
        && json::nat_of(json::at(events[from].payload@, "resume_attempt"@)) == Some(attempt) {
        Some(from)
    } else {
        workspace_event(events, started, attempt, from + 1)
    }
}

/// The resume a run is in: the event that started it, the attempt, and its
/// workspace.
pub open spec fn in_progress(events: Seq<RunEvent>) -> Option<(i64, int, Seq<char>)> {
    match last_resume_event(events, events.len() as int) {
        None => None,
        Some(i) => if !events[i].is_kind("resume_started"@) {
            None
        } else {
            match json::nat_of(json::at(events[i].payload@, "attempt"@)) {
                None => None,
                Some(attempt) => match workspace_event(events, events[i].id, attempt, 0) {
                    None => None,
                    Some(j) => match json::text_of(
                        json::at(events[j].payload@, "workspace_id"@),
                    ) {
                        None => None,
                        Some(workspace) => Some((events[i].id, attempt, workspace)),
                    },
                },
            }
        },
    }
}

/// The resume a run is in, from its events: the last resume event started it,
/// and the workspace of its attempt was recorded since. Its event ID, attempt
/// and workspace.
pub fn resume_in_progress(events: &Vec<RunEvent>) -> (r: Option<(i64, u64, String)>)
    ensures
        match r {
            None => in_progress(events@) is None,
            Some((id, attempt, workspace)) => in_progress(events@) == Some(
                (id, attempt as int, workspace@),
            ),
        },
{
    let mut n: usize = events.len();
    let mut found: Option<usize> = None;
    while n > 0 && found.is_none()
        invariant
            n <= events@.len(),
            match found {
                None => last_resume_event(events@, events@.len() as int) == last_resume_event(
                    events@,
                    n as int,
                ),
                Some(i) => i < events@.len() && last_resume_event(events@, events@.len() as int)
                    == Some(i as int),
            },
        decreases n,
    {
        n -= 1;
        let event = &events[n];
        if event.of_kind("resume_started") || event.of_kind("resume_finished") || event.of_kind(
            "resume_skipped",
        ) {
            found = Some(n);
        }
    }
    let i = match found {
        None => return None,
        Some(i) => i,
    };
    if !events[i].of_kind("resume_started") {
        return None;
    }
    let started: i64 = events[i].id;
    let attempt: u64 = match events[i].payload.natural("attempt") {
        None => return None,
        Some(attempt) => attempt,
    };
    let mut j: usize = 0;
    while j < events.len()
        invariant
            j <= events@.len(),
            i < events@.len(),
            last_resume_event(events@, events@.len() as int) == Some(i as int),
            events@[i as int].is_kind("resume_started"@),
            started == events@[i as int].id,
            json::nat_of(json::at(events@[i as int].payload@, "attempt"@)) == Some(attempt as int),
            workspace_event(events@, started, attempt as int, 0) == workspace_event(
                events@,
                started,
                attempt as int,
                j as int,
            ),
        decreases events@.len() - j,
    {
        let event = &events[j];
        if event.id > started && event.of_kind("workspace_created") {
            if let Some(of) = event.payload.natural("resume_attempt") {
                if of == attempt {
                    return match event.payload.text("workspace_id") {
                        Some(workspace) => Some((started, attempt, workspace)),
                        None => None,
                    };
                }
            }
        }
        j += 1;
    }
    None
}

/// What an adopted resume goes on from.
pub struct AdoptedResume {
    pub attempt: u64,
    pub workspace: String,
    /// The place of the event that recorded the send of the request, if it was
    /// sent.
    pub sent: Option<usize>,
    /// The inbox was asked about the input box.
    pub not_ready_asked: bool,
    pub exit_requested: bool,
    /// The `/exit` was sent because the wrapper went silent.
    pub exit_for_silence: bool,
}

/// The first event at or after `from` of the kind and the attempt, after the
/// event `started`.
pub open spec fn of_attempt(
    events: Seq<RunEvent>,
    started: i64,
    kind: Seq<char>,
    attempt: int,
    from: int,
) -> Option<int>
    decreases events.len() - from,
{
    if from < 0 || from >= events.len() {
        None
    } else if events[from].id > started && events[from].is_kind(kind) && json::nat_of(
        json::at(events[from].payload@, "resume_attempt"@),
    ) == Some(attempt) {
        Some(from)
    } else {
        of_attempt(events, started, kind, attempt, from + 1)
    }
}

/// The first event of the kind and the attempt, after the event `started`.
fn find_of_attempt(events: &Vec<RunEvent>, started: i64, kind: &str, attempt: u64) -> (r: Option<
    usize,
>)
    ensures
        match r {
            None => of_attempt(events@, started, kind@, attempt as int, 0) is None,
            Some(i) => i < events@.len() && of_attempt(events@, started, kind@, attempt as int, 0)
                == Some(i as int),
        },
{
    let mut i: usize = 0;
    while i < events.len()
        invariant
            i <= events@.len(),
            of_attempt(events@, started, kind@, attempt as int, 0) == of_attempt(
                events@,
                started,
                kind@,
                attempt as int,
                i as int,
            ),
        decreases events@.len() - i,
    {
        let event = &events[i];
        if event.id > started && event.of_kind(kind) {
            if let Some(of) = event.payload.natural("resume_attempt") {
                if of == attempt {
                    return Some(i);
                }
            }
        }
        i += 1;
    }
    None
}

/// The place of the last of the first `n` events whose ID is between the two.
pub open spec fn last_between(events: Seq<RunEvent>, after: i64, before: i64, n: int) -> Option<int>
    decreases n,
{
    if n <= 0 || n > events.len() {
        None
    } else if after < events[n - 1].id && events[n - 1].id < before {
        Some(n - 1)
    } else {
        last_between(events, after, before, n - 1)
    }
}

/// Whether the last event between the two IDs is the expiry of the wrapper's
/// heartbeat.
pub open spec fn expired_before(events: Seq<RunEvent>, after: i64, before: i64) -> bool {
    match last_between(events, after, before, events.len() as int) {
        Some(i) => events[i].is_kind("wrapper_heartbeat_expired"@),
        None => false,
    }
}

/// Whether the last event between the two IDs is the expiry of the wrapper's
/// heartbeat.
fn expired(events: &Vec<RunEvent>, after: i64, before: i64) -> (r: bool)
    ensures
        r == expired_before(events@, after, before),
{
    let mut n: usize = events.len();
    while n > 0
        invariant
            n <= events@.len(),
            last_between(events@, after, before, events@.len() as int) == last_between(
                events@,
                after,
                before,
                n as int,
            ),
        decreases n,
    {
        n -= 1;
        if after < events[n].id && events[n].id < before {
            return events[n].of_kind("wrapper_heartbeat_expired");
        }
    }
    false
}

/// Whether an event of the kind is after the event `started`.
pub open spec fn has_since(events: Seq<RunEvent>, started: i64, kind: Seq<char>) -> bool {
    exists|i: int|
        0 <= i < events.len() && (#[trigger] events[i]).id > started && events[i].is_kind(kind)
}

/// Whether an event of the kind is after the event `started`.
pub fn find_since(events: &Vec<RunEvent>, started: i64, kind: &str) -> (r: bool)
    ensures
        r == has_since(events@, started, kind@),
{
    let mut i: usize = 0;
    while i < events.len()
        invariant
            i <= events@.len(),
            forall|j: int|
                0 <= j < i ==> !((#[trigger] events@[j]).id > started && events@[j].is_kind(kind@)),
        decreases events@.len() - i,
    {
        if events[i].id > started && events[i].of_kind(kind) {
            assert(events@[i as int].is_kind(kind@));
            return true;
        }
        i += 1;
    }
    false
}

/// What an adopted resume goes on from, by its events.
pub open spec fn adopted(events: Seq<RunEvent>, r: AdoptedResume) -> bool {
    let (started, attempt, workspace) = in_progress(events)->0;
    let exit = of_attempt(events, started, "exit_requested"@, attempt, 0);
    &&& r.attempt == attempt
    &&& r.workspace@ == workspace
    &&& match r.sent {
        Some(i) => of_attempt(events, started, RESUME_REQUEST_SENT@, attempt, 0) == Some(i as int),
        None => of_attempt(events, started, RESUME_REQUEST_SENT@, attempt, 0) is None,
    }
    &&& r.not_ready_asked == has_since(events, started, "input_not_ready"@)
    &&& r.exit_requested == (exit is Some)
    &&& r.exit_for_silence == (exit is Some && expired_before(events, started, events[exit->0].id))
}

/// What the resume of an adopted run goes on from, by the run's events: nothing
/// is sent or asked twice. A silent wrapper's `/exit` follows its expiry; a
/// silence that ended before an `/exit` for another reason does not make that
/// one a silent exit. None where no resume is in progress.
pub fn adopt_resume(events: &Vec<RunEvent>) -> (r: Option<AdoptedResume>)
    ensures
        r is Some <==> in_progress(events@) is Some,
        r is Some ==> adopted(events@, r->0),
{
    let (started, attempt, workspace) = match resume_in_progress(events) {
        None => return None,
        Some((started, attempt, workspace)) => (started, attempt, workspace),
    };
    let sent = find_of_attempt(events, started, RESUME_REQUEST_SENT, attempt);
    let exit = find_of_attempt(events, started, "exit_requested", attempt);
    let exit_for_silence = match exit {
        Some(i) => expired(events, started, events[i].id),
        None => false,
    };
    Some(
        AdoptedResume {
            attempt,
            workspace,
            sent,
            not_ready_asked: find_since(events, started, "input_not_ready"),
            exit_requested: exit.is_some(),
            exit_for_silence,
        },
    )
}

/// What has been done and observed of the end of a resumed session.
#[derive(Default)]
pub struct FinishSeen {
    pub approved: Option<bool>,
    /// Whether its workspace was closed, once that was tried.
    pub closed: Option<bool>,
    pub exhausted: Option<bool>,
    /// The run once the end is recorded.
    pub finished: Option<TaskRun>,
    pub queued: bool,
}

/// What the end of a resumed session does next.
pub enum FinishStep {
    Approved,
    Close,
    Exhausted,
    /// Record `resume_finished`: the status the run goes to, the error it
    /// fails with, whether the lease is kept, and the payload; a failed run's
    /// gets the code of a worker's failure.
    Finish {
        status: Option<RunStatus>,
        error: Option<String>,
        keep_lease: bool,
        payload: Json,
        code: Option<ReasonCode>,
    },
    QueueLanding { run: TaskRun },
    /// The slot waits to land.
    Await { run: TaskRun },
    /// The slot validates with the session open.
    Validate { run: TaskRun },
    Done { run: TaskRun },
}

/// Whether a resolved run goes on to validation and review.
pub open spec fn is_reviewed(verdict: ResumeVerdict, approved: bool) -> bool {
    verdict.kind is Resolved && !approved
}

/// What `resume_finished` records.
pub open spec fn finish_payload(
    attempt: usize,
    workspace: Seq<char>,
    verdict: ResumeVerdict,
    approved: bool,
    closed: bool,
    exhausted: Option<bool>,
) -> json::Value {
    let base = json::none().push(("attempt"@, json::Value::Int(attempt as int))).push(
        ("outcome"@, json::Value::Text(outcome_name(verdict.kind))),
    ).push(("head"@, json::text_or_null(text::opt_view(verdict.head)))).push(
        ("workspace_id"@, json::Value::Text(workspace)),
    ).push(("workspace_closed"@, json::Value::Bool(closed))).push(
        ("approved"@, json::Value::Bool(approved)),
    );
    let timed = if verdict.exit_timed_out {
        base.push(("exit_timed_out"@, json::Value::Bool(true)))
    } else {
        base
    };
    let live = if is_reviewed(verdict, approved) {
        timed.push(("session_live"@, json::Value::Bool(verdict.live)))
    } else {
        timed
    };
    json::Value::Object(
        if verdict.kind is Unresolved {
            live.push(("exhausted"@, json::Value::Bool(exhausted->0)))
        } else {
            live
        },
    )
}

/// What the end of a resumed session comes to.
pub open spec fn finishes(
    attempt: usize,
    workspace: Seq<char>,
    verdict: ResumeVerdict,
    seen: FinishSeen,
    r: FinishStep,
) -> bool {
    if seen.approved is None {
        r is Approved
    } else {
        let approved = seen.approved->0;
        let reviewed = is_reviewed(verdict, approved);
        let tries = !verdict.exit_timed_out && !reviewed;
        let closed = tries && seen.closed == Some(true);
        if tries && seen.closed is None {
            r is Close
        } else if verdict.kind is Unresolved && seen.exhausted is None {
            r is Exhausted
        } else {
            match seen.finished {
                None => r matches FinishStep::Finish { status, error, keep_lease, payload, code } && {
                    &&& payload@ == finish_payload(
                        attempt,
                        workspace,
                        verdict,
                        approved,
                        closed,
                        seen.exhausted,
                    )
                    &&& match verdict.kind {
                        ResumeOutcome::Resolved => status == (if approved {
                            None
                        } else {
                            Some(RunStatus::Validating)
                        }) && error is None && keep_lease && code is None,
                        ResumeOutcome::Failed(why) => status == Some(RunStatus::Failed) && error
                            == Some(why) && !keep_lease && code == Some(ReasonCode::WorkerFailed),
                        ResumeOutcome::Unresolved => status is None && error is None && !keep_lease
                            && code is None,
                    }
                },
                Some(run) => if verdict.kind is Resolved && approved {
                    if !seen.queued {
                        r == (FinishStep::QueueLanding { run })
                    } else {
                        r == (FinishStep::Await { run })
                    }
                } else if verdict.kind is Resolved {
                    r == (FinishStep::Validate { run })
                } else {
                    r == (FinishStep::Done { run })
                },
            }
        }
    }
}

/// What `resume_finished` records.
fn finish_record(
    attempt: usize,
    workspace: &str,
    verdict: &ResumeVerdict,
    approved: bool,
    closed: bool,
    exhausted: Option<bool>,
) -> (r: Json)
    requires
        verdict.kind is Unresolved ==> exhausted is Some,
    ensures
        r@ == finish_payload(attempt, workspace@, *verdict, approved, closed, exhausted),
{
    let mut fields = Fields::new().number("attempt", attempt as i128).text(
        "outcome",
        verdict.outcome(),
    ).opt_text("head", &verdict.head).text("workspace_id", workspace).flag(
        "workspace_closed",
        closed,
    ).flag("approved", approved);
    if verdict.exit_timed_out {
        fields = fields.flag("exit_timed_out", true);
    }
    match &verdict.kind {
        ResumeOutcome::Resolved => if !approved {
            fields = fields.flag("session_live", verdict.live);
        },
        ResumeOutcome::Failed(_) => {},
        ResumeOutcome::Unresolved => if let Some(exhausted) = exhausted {
            fields = fields.flag("exhausted", exhausted);
        },
    }
    fields.done()
}

/// The resumed session ended, or resolved the run. A resolved run whose
/// integrate was approved has exited: its workspace is closed, and it keeps
/// its lease and waits to land. An unapproved one keeps its session and lease
/// and goes through validation and review like the worker's; a failed receipt
/// ends the run; anything else leaves it parked for the next attempt, or for a
/// person after the last. A session let go after the exit timeout still runs,
/// so its workspace stays.
pub fn finish_resumed_session(
    attempt: usize,
    workspace: &str,
    verdict: &ResumeVerdict,
    seen: &FinishSeen,
) -> (r: FinishStep)
    ensures
        finishes(attempt, workspace@, *verdict, *seen, r),
{
    let approved = match seen.approved {
        None => return FinishStep::Approved,
        Some(approved) => approved,
    };
    let (resolved, unresolved) = match &verdict.kind {
        ResumeOutcome::Resolved => (true, false),
        ResumeOutcome::Failed(_) => (false, false),
        ResumeOutcome::Unresolved => (false, true),
    };
    let reviewed = resolved && !approved;
    let tries = !verdict.exit_timed_out && !reviewed;
    let closed = if tries {
        match seen.closed {
            None => return FinishStep::Close,
            Some(closed) => closed,
        }
    } else {
        false
    };
    if unresolved && seen.exhausted.is_none() {
        return FinishStep::Exhausted;
    }
    match &seen.finished {
        None => {
            let payload = finish_record(
                attempt,
                workspace,
                verdict,
                approved,
                closed,
                seen.exhausted,
            );
            match &verdict.kind {
                ResumeOutcome::Resolved => FinishStep::Finish {
                    status: if approved {
                        None
                    } else {
                        Some(RunStatus::Validating)
                    },
                    error: None,
                    keep_lease: true,
                    payload,
                    code: None,
                },
                ResumeOutcome::Failed(why) => FinishStep::Finish {
                    status: Some(RunStatus::Failed),
                    error: Some(why.clone()),
                    keep_lease: false,
                    payload,
                    code: Some(ReasonCode::WorkerFailed),
                },
                ResumeOutcome::Unresolved => FinishStep::Finish {
                    status: None,
                    error: None,
                    keep_lease: false,
                    payload,
                    code: None,
                },
            }
        },
        Some(run) => if resolved && approved {
            if !seen.queued {
                FinishStep::QueueLanding { run: run.copy() }
            } else {
                FinishStep::Await { run: run.copy() }
            }
        } else if resolved {
            FinishStep::Validate { run: run.copy() }
        } else {
            FinishStep::Done { run: run.copy() }
        },
    }
}

/// The lease is kept exactly where the resume resolved the run.
pub proof fn the_lease_is_kept_for_a_resolved_run(
    attempt: usize,
    workspace: Seq<char>,
    verdict: ResumeVerdict,
    seen: FinishSeen,
    r: FinishStep,
)
    requires
        finishes(attempt, workspace, verdict, seen, r),
        r is Finish,
    ensures
        r->keep_lease <==> verdict.kind is Resolved,
{
}

/// What kind of request a resume makes.
#[derive(Debug, Clone, Copy, PartialEq, Eq, Structural)]
pub enum ResumeKind {
    EvidenceMissing,
    ScopeViolation,
    /// A review sent the run back.
    SentBack,
    Triage,
    /// A landing recheck found that the run does not land.
    Recheck,
    Landing,
}

/// Whether an event is why a run waits for a session. `parks` is whether a
/// landing recheck parks it by this event.
pub open spec fn is_reason(event: RunEvent, parks: bool) -> bool {
    event.is_kind("integration_deferred"@) || event.is_kind("integration_error"@) || event.is_kind(
        "evidence_missing"@,
    ) || event.is_kind("scope_violation"@) || event.is_kind("landing_decided"@) || event.is_kind(
        "triage_finished"@,
    ) || event.is_kind("triage_decided"@) || parks
}

/// The place of the last of the first `n` events that is why a run waits.
pub open spec fn last_reason(events: Seq<RunEvent>, parks: Seq<bool>, n: int) -> Option<int>
    decreases n,
{
    if n <= 0 || n > events.len() {
        None
    } else if is_reason(events[n - 1], parks[n - 1]) {
        Some(n - 1)
    } else {
        last_reason(events, parks, n - 1)
    }
}

/// Whether an object has a member with the key.
pub open spec fn has_key(v: json::Value, key: Seq<char>) -> bool {
    v is Object && json::found(v->Object_0, key) is Some
}

/// The reason an event gives: the triage's resume asks for its instruction.
pub open spec fn given_reason(event: RunEvent) -> Option<Seq<char>> {
    json::text_of(
        json::at(
            event.payload@,
            if event.is_kind("triage_finished"@) {
                "instruction"@
            } else {
                "reason"@
            },
        ),
    )
}

/// The kind of request an event makes.
pub open spec fn kind_of(event: Option<RunEvent>, recheck_kind: Seq<char>) -> ResumeKind {
    match event {
        None => ResumeKind::Landing,
        Some(event) => if event.is_kind("evidence_missing"@) || has_key(
            event.payload@,
            "checks"@,
        ) {
            ResumeKind::EvidenceMissing
        } else if event.is_kind("scope_violation"@) || has_key(
            event.payload@,
            "scope_violation"@,
        ) {
            ResumeKind::ScopeViolation
        } else if event.is_kind("landing_decided"@) {
            ResumeKind::SentBack
        } else if text::has_prefix(event.kind@, "triage_"@) {
            ResumeKind::Triage
        } else if event.is_kind(recheck_kind) {
            ResumeKind::Recheck
        } else {
            ResumeKind::Landing
        },
    }
}

/// Why the run waits for a session, and what kind of request that makes: the
/// reason of its latest parking event (a runtime error since may have replaced
/// its last error), else its last error.
pub fn resume_reason(
    events: &Vec<RunEvent>,
    parks: &Vec<bool>,
    recheck_kind: &str,
    last_error: &Option<String>,
) -> (r: (Option<String>, ResumeKind))
    requires
        events@.len() == parks@.len(),
    ensures
        ({
            let at = last_reason(events@, parks@, events@.len() as int);
            let event = match at {
                Some(i) => Some(events@[i]),
                None => None,
            };
            &&& text::opt_view(r.0) == (match event {
                Some(event) => match given_reason(event) {
                    Some(reason) => Some(reason),
                    None => text::opt_view(*last_error),
                },
                None => text::opt_view(*last_error),
            })
            &&& r.1 == kind_of(event, recheck_kind@)
        }),
{
    let mut n: usize = events.len();
    while n > 0
        invariant
            n <= events@.len(),
            events@.len() == parks@.len(),
            last_reason(events@, parks@, events@.len() as int) == last_reason(
                events@,
                parks@,
                n as int,
            ),
        decreases n,
    {
        n -= 1;
        let event = &events[n];
        if event.of_kind("integration_deferred") || event.of_kind("integration_error")
            || event.of_kind("evidence_missing") || event.of_kind("scope_violation")
            || event.of_kind("landing_decided") || event.of_kind("triage_finished")
            || event.of_kind("triage_decided") || parks[n] {
            let given = if event.of_kind("triage_finished") {
                event.payload.text("instruction")
            } else {
                event.payload.text("reason")
            };
            let reason = match given {
                Some(reason) => Some(reason),
                None => crate::domain::same_text(last_error),
            };
            let kind = if event.of_kind("evidence_missing") || event.payload.get(
                "checks",
            ).is_some() {
                ResumeKind::EvidenceMissing
            } else if event.of_kind("scope_violation") || event.payload.get(
                "scope_violation",
            ).is_some() {
                ResumeKind::ScopeViolation
            } else if event.of_kind("landing_decided") {
                ResumeKind::SentBack
            } else if text::starts_with(event.kind.as_str(), "triage_") {
                ResumeKind::Triage
            } else if event.of_kind(recheck_kind) {
                ResumeKind::Recheck
            } else {
                ResumeKind::Landing
            };
            return (reason, kind);
        }
    }
    (crate::domain::same_text(last_error), ResumeKind::Landing)
}

/// The last of the first `n` runs that landed.
pub open spec fn last_integrated(runs: Seq<TaskRun>, n: int) -> Option<int>
    decreases n,
{
    if n <= 0 || n > runs.len() {
        None
    } else if runs[n - 1].status == RunStatus::Integrated {
        Some(n - 1)
    } else {
        last_integrated(runs, n - 1)
    }
}

/// The latest run of a task that landed, whose receipt tells a resumed session
/// what landed since its base.
pub fn landed_since(runs: &Vec<TaskRun>) -> (r: Option<usize>)
    ensures
        match r {
            Some(i) => i < runs@.len() && last_integrated(runs@, runs@.len() as int) == Some(
                i as int,
            ),
            None => last_integrated(runs@, runs@.len() as int) is None,
        },
{
    let mut n: usize = runs.len();
    while n > 0
        invariant
            n <= runs@.len(),
            last_integrated(runs@, runs@.len() as int) == last_integrated(runs@, n as int),
        decreases n,
    {
        n -= 1;
        if runs[n].status == RunStatus::Integrated {
            return Some(n);
        }
    }
    None
}

/// A parked run is resumed only where nobody holds it, no session of it runs,
/// resumes are left and there is room; one whose resumes are used up is given
/// up, one that resolved itself is skipped, and one whose start failed is given
/// back with the error.
pub proof fn a_parked_run_is_resumed_when_free(
    run: TaskRun,
    candidate: Candidate,
    room: bool,
    seen: ParkedSeen,
    r: ParkedStep,
)
    requires
        parks(run, candidate, room, seen, r),
    ensures
        candidate.leased || candidate.session_runs ==> r is Next,
        r is Exhaust <==> !candidate.leased && !candidate.session_runs && candidate.exhausted
            && !seen.exhaustion_tried,
        r is Stop <==> !candidate.leased && !candidate.session_runs && !candidate.exhausted
            && !room,
        r is Skip <==> !candidate.leased && !candidate.session_runs && !candidate.exhausted && room
            && seen.workspaces_closed && seen.main is Some && (seen.resolved matches Some(Some(_)))
            && !seen.skipped,
        r matches ParkedStep::Skip { head, main } ==> seen.resolved == Some(Some(head))
            && seen.main == Some(main),
        r is Begin <==> !candidate.leased && !candidate.session_runs && !candidate.exhausted && room
            && seen.workspaces_closed && seen.main is Some && (seen.resolved matches Some(None))
            && seen.reason is Some && seen.cleaning is Some && !seen.cleaning->0 && seen.begun
            is None,
        r matches ParkedStep::Begin { main, why } ==> seen.main == Some(main) && seen.reason
            == Some(why),
        r is Start <==> !candidate.leased && !candidate.session_runs && !candidate.exhausted && room
            && seen.workspaces_closed && seen.main is Some && (seen.resolved matches Some(None))
            && seen.reason is Some && seen.cleaning is Some && !seen.cleaning->0 && (
        seen.begun matches Some(Some(_))) && seen.started is None,
        r matches ParkedStep::Start { attempt, main, reason } ==> seen.begun == Some(Some(attempt))
            && seen.main == Some(main) && (seen.reason matches Some(Some(why)) ==> reason@
            == why@),
        r is Take <==> !candidate.leased && !candidate.session_runs && !candidate.exhausted && room
            && seen.workspaces_closed && seen.main is Some && (seen.resolved matches Some(None))
            && seen.reason is Some && seen.cleaning is Some && !seen.cleaning->0 && (
        seen.begun matches Some(Some(_))) && (seen.started matches Some(Ok(_))),
        r is GiveUp <==> !candidate.leased && !candidate.session_runs && !candidate.exhausted
            && room && seen.workspaces_closed && seen.main is Some && (
        seen.resolved matches Some(None)) && seen.reason is Some && seen.cleaning is Some
            && !seen.cleaning->0 && (seen.begun matches Some(Some(_))) && (
        seen.started matches Some(Err(_))),
        r matches ParkedStep::GiveUp { attempt, .. } ==> seen.begun == Some(Some(attempt)),
        r is Defer ==> seen.cleaning is Some && seen.cleaning->0,
{
}

/// A session still runs where its wrapper is recorded, has not exited and is
/// alive.
pub proof fn a_session_runs_while_its_wrapper_does(
    wrapper: &Option<RunProcess>,
    alive: bool,
    r: bool,
)
    requires
        call_ensures(session_runs, (wrapper, alive), r),
    ensures
        r <==> (*wrapper matches Some(process) && process.exited_at is None) && alive,
{
}

/// Of the parked runs each is tried once, in order, after the stuck exits of
/// all whose sessions ended were closed.
pub proof fn parked_runs_are_tried_in_order(
    candidates: Seq<Candidate>,
    seen: ParkedPassSeen,
    r: ParkedPassStep,
)
    requires
        passes(candidates, seen, r),
    ensures
        r matches ParkedPassStep::CloseStuckExit { index, .. } ==> seen.asked <= index
            < candidates.len() && !candidates[index as int].session_runs && forall|i: int|
            seen.asked <= i < index ==> (#[trigger] candidates[i]).session_runs,
        r matches ParkedPassStep::Resume { index } ==> index == seen.next && index
            < candidates.len() && !seen.stopped,
        r is Done ==> seen.stopped || seen.next >= candidates.len(),
{
    first_ended(candidates, seen.asked as int);
}

proof fn first_ended(candidates: Seq<Candidate>, from: int)
    requires
        0 <= from,
    ensures
        ended_from(candidates, from) matches Some(at) ==> from <= at < candidates.len()
            && !candidates[at].session_runs && forall|i: int|
            from <= i < at ==> (#[trigger] candidates[i]).session_runs,
    decreases candidates.len() - from,
{
    if from < candidates.len() && candidates[from].session_runs {
        first_ended(candidates, from + 1);
    }
}

/// A parked run counts as resolved only where its receipt is its own, reports
/// a success with its evidence and names the head of a clean worktree, which
/// is not main's but holds it.
pub proof fn a_resolved_run_has_a_sound_head(
    run: TaskRun,
    main: Seq<char>,
    events: Seq<RunEvent>,
    recheck_kind: Seq<char>,
    seen: ResolvedSeen,
    r: ResolvedStep,
)
    requires
        resolves(run, main, events, recheck_kind, seen, r),
    ensures
        r matches ResolvedStep::Resolved(Some(head)) ==> {
            &&& seen.receipt matches Some(Some(receipt)) && receipt.run_id@ == run.id@
                && receipt.result == ReceiptResult::Succeeded && !receipt.evidence_missing && head@
                == text::lowered(receipt.commit@)
            &&& seen.head == Some(Some(head))
            &&& head@ != main
            &&& seen.clean is Some && seen.clean->0
            &&& seen.on_main is Some && seen.on_main->0
            &&& run.worktree_path is Some && run.receipt_path is Some
            &&& may_be_resolved(events, recheck_kind)
        },
        may_be_resolved(events, recheck_kind) && run.worktree_path is Some && run.receipt_path
            is Some && (seen.receipt matches Some(Some(receipt)) && receipt.run_id@ == run.id@
            && receipt.result == ReceiptResult::Succeeded && !receipt.evidence_missing && (
        seen.head matches Some(Some(head)) && head@ == text::lowered(receipt.commit@) && head@
            != main)) && seen.clean is Some && seen.clean->0 && seen.on_main is Some
            && seen.on_main->0 ==> (r matches ResolvedStep::Resolved(Some(_))),
        r matches ResolvedStep::ReadReceipt { path } ==> run.receipt_path == Some(path),
        r matches ResolvedStep::Head { worktree } ==> run.worktree_path == Some(worktree),
        r matches ResolvedStep::Clean { worktree } ==> run.worktree_path == Some(worktree),
        r matches ResolvedStep::OnMain { head } ==> seen.head == Some(Some(head)),
{
}

/// Only a run whose last resume ended unresolved may have been resolved since,
/// and none that a person sent back.
pub proof fn only_an_unresolved_resume_may_be_resolved(
    events: Seq<RunEvent>,
    recheck_kind: Seq<char>,
)
    requires
        may_be_resolved(events, recheck_kind),
    ensures
        exists|i: int|
            0 <= i < events.len() && (#[trigger] events[i]).is_kind("resume_finished"@) && json::at(
                events[i].payload@,
                "outcome"@,
            ) == json::Value::Text("unresolved"@) && forall|j: int|
                i < j < events.len() ==> !(#[trigger] events[j]).is_kind("landing_decided"@)
                    && !events[j].is_kind("integration_deferred"@) && !events[j].is_kind(
                    "integration_error"@,
                ) && !events[j].is_kind("evidence_missing"@) && !events[j].is_kind(
                    "scope_violation"@,
                ) && !events[j].is_kind("resume_skipped"@) && !events[j].is_kind(
                    "resume_finished"@,
                ),
{
    last_turning_is_last(events, recheck_kind, events.len() as int);
    let i = last_turning(events, recheck_kind, events.len() as int)->0;
    assert forall|j: int| i < j < events.len() implies !(#[trigger] events[j]).is_kind(
        "landing_decided"@,
    ) && !events[j].is_kind("integration_deferred"@) && !events[j].is_kind("integration_error"@)
        && !events[j].is_kind("evidence_missing"@) && !events[j].is_kind("scope_violation"@)
        && !events[j].is_kind("resume_skipped"@) && !events[j].is_kind("resume_finished"@) by {
        assert(!is_turning(events[j], recheck_kind));
    }
}

proof fn last_turning_is_last(events: Seq<RunEvent>, recheck_kind: Seq<char>, n: int)
    requires
        0 <= n <= events.len(),
    ensures
        last_turning(events, recheck_kind, n) matches Some(at) ==> 0 <= at < n && is_turning(
            events[at],
            recheck_kind,
        ) && forall|i: int| at < i < n ==> !is_turning(#[trigger] events[i], recheck_kind),
    decreases n,
{
    if n > 0 && !is_turning(events[n - 1], recheck_kind) {
        last_turning_is_last(events, recheck_kind, n - 1);
    }
}

/// A resume that is skipped lands an approved run and validates any other.
pub proof fn a_skipped_resume_lands_or_validates(
    head: &String,
    main: &String,
    seen: &SkipSeen,
    r: SkipStep,
)
    requires
        call_ensures(skip_resume, (head, main, seen), r),
    ensures
        r is Approved <==> seen.approved is None,
        r matches SkipStep::Skip { head: h, main: m, approved } ==> h@ == head@ && m@ == main@
            && seen.approved == Some(approved) && seen.skipped is None,
        r matches SkipStep::Validate { run } ==> seen.skipped == Some(Some(run))
            && !seen.approved->0,
        r matches SkipStep::QueueLanding { run } ==> seen.skipped == Some(Some(run))
            && seen.approved->0 && !seen.queued,
        r matches SkipStep::Await { run } ==> seen.skipped == Some(Some(run)) && seen.approved->0
            && seen.queued,
        seen.approved is Some && (seen.skipped matches Some(Some(_))) ==> r !is Nothing,
        seen.approved is Some && (seen.skipped matches Some(None)) ==> r is Nothing,
{
}

/// What a retry carries over is the run's reviewed commit, or else the head of
/// a worktree that is there and not in the middle of a rebase; never the base
/// alone, and only once it is kept under the run's ref.
pub proof fn only_kept_work_is_inherited(run: TaskRun, seen: HeadSeen, r: HeadStep)
    requires
        inherits(run, seen, r),
    ensures
        r matches HeadStep::Inherited(Some(head)) ==> {
            &&& head@ != run.base_commit@
            &&& seen.kept
            &&& (match run.result_commit {
                Some(commit) => head@ == commit@,
                None => seen.head == Some(head) && run.worktree_path is Some && seen.worktree_there
                    is Some && seen.worktree_there->0 && seen.rebasing is Some
                    && !seen.rebasing->0,
            })
        },
        r matches HeadStep::Keep { reference, head } ==> reference@ == "refs/dagq/runs/"@ + run.id@
            && head@ != run.base_commit@ && !seen.kept && (match run.result_commit {
            Some(commit) => head@ == commit@,
            None => seen.head == Some(head),
        }),
        run.result_commit matches Some(commit) && commit@ != run.base_commit@ && seen.kept ==> (
        r matches HeadStep::Inherited(Some(_))),
{
}

/// A run whose resumes are used up is given up only while its task waits on
/// it: with its work carried over where the task takes it and there is some,
/// and to a recovery otherwise.
pub proof fn a_used_up_run_is_retried_or_recovered(
    run: TaskRun,
    resumes: ResumeCount,
    seen: ExhaustSeen,
    r: ExhaustStep,
)
    requires
        exhausts(run, resumes, seen, r),
    ensures
        r is ShowTask <==> seen.task is None,
        r is RetryInheriting || r is Recover ==> (seen.task matches Some(task) && task.status
            == TaskStatus::InProgress && (task.latest matches Some(latest) ==> latest@ == run.id@))
            && seen.failed is None,
        r matches ExhaustStep::RetryInheriting { head, .. } ==> seen.task->0.inherits
            && seen.inherited == Some(Ok::<Option<String>, String>(Some(head))),
        r is Recover ==> !seen.task->0.inherits || !(seen.inherited matches Some(Ok(Some(_)))),
        r matches ExhaustStep::CloseWorkspaces { run: of, .. } ==> seen.failed == Some(Some(of))
            && !seen.workspaces_closed,
        r matches ExhaustStep::NoteTriaged { run: of } ==> seen.failed == Some(Some(of))
            && seen.workspaces_closed && seen.task->0.inherits && (seen.inherited matches Some(
            Ok(Some(_)),
        )),
{
}

/// A resume's workspace that was left open is closed and recorded once; one
/// that is no resume's, is closed or is gone is let be.
pub proof fn a_left_workspace_is_closed(
    workspace: &RunWorkspace,
    exists: Option<bool>,
    closed: bool,
    recorded: bool,
    r: LeftStep,
)
    requires
        call_ensures(close_left_resume_workspace, (workspace, exists, closed, recorded), r),
    ensures
        r is Close <==> workspace.resume_attempt is Some && !workspace.closed && exists is Some
            && exists->0 && !closed,
        r is RecordClosed <==> workspace.resume_attempt is Some && !workspace.closed && exists
            is Some && exists->0 && closed && !recorded,
        r is Exists <==> workspace.resume_attempt is Some && !workspace.closed && exists is None,
{
}

/// A resume starts in the run's own worktree: its request is written as given,
/// the runner copied and the workspace made, in that order, before it is
/// recorded; a run that lacks what it needs fails.
pub proof fn a_resume_is_set_up_in_order(
    layout: Layout,
    run: TaskRun,
    token: Seq<char>,
    attempt: usize,
    request: Seq<char>,
    seen: StartSeen,
    r: StartStep,
)
    requires
        starts(layout, run, token, attempt, request, seen, r),
    ensures
        r is Failed <==> run.run_dir is None || run.worktree_path is None || (seen.worktree_there
            is Some && !seen.worktree_there->0) || (run.receipt_path is None && seen.worktree_there
            is Some && seen.request_written && seen.runner_copied && seen.workspace is Some
            && seen.recorded),
        r matches StartStep::WriteRequest { text, .. } ==> text@ == request && !seen.request_written,
        r matches StartStep::CopyRunner { from, .. } ==> from@ == layout.runner@
            && seen.request_written,
        r is Create ==> seen.request_written && seen.runner_copied && seen.workspace is None,
        r matches StartStep::Create { argv, env } ==> argv@.len() == 11 && argv@[2]@ == layout.db@
            && argv@[5]@ == run.id@ && argv@[7]@ == token && argv@[9]@ == layout.claude@
            && variables(env@) == variables(layout.worker_env@),
        r matches StartStep::Record { payload, .. } ==> payload@ is Object && payload@->Object_0[0]
            == ("workspace_id"@, json::Value::Text(seen.workspace->0@)) && payload@->Object_0[1]
            == ("resume_attempt"@, json::Value::Int(attempt as int)),
        r matches StartStep::Started { workspace } ==> seen.workspace == Some(workspace)
            && seen.recorded && seen.worktree_there is Some && seen.worktree_there->0,
{
    if let StartStep::Create { argv, env } = r {
        let words = text::views(argv@);
        assert(words.len() == argv@.len());
        assert(words[2] == argv@[2]@);
        assert(words[5] == argv@[5]@);
        assert(words[7] == argv@[7]@);
        assert(words[9] == argv@[9]@);
    }
}

/// A resume ends as its verdict says: a resolved run keeps its lease and lands
/// where it is approved and is validated otherwise, a failed one fails with
/// the reason, and an unresolved one is left as it was.
pub proof fn a_resume_ends_as_its_verdict_says(
    attempt: usize,
    workspace: Seq<char>,
    verdict: ResumeVerdict,
    seen: FinishSeen,
    r: FinishStep,
)
    requires
        finishes(attempt, workspace, verdict, seen, r),
    ensures
        r is Approved <==> seen.approved is None,
        r is Close <==> seen.approved is Some && !verdict.exit_timed_out && !(verdict.kind
            is Resolved && !seen.approved->0) && seen.closed is None,
        r is Exhausted ==> verdict.kind is Unresolved && seen.exhausted is None,
        r matches FinishStep::Finish { status, error, keep_lease, code, .. } ==> seen.finished
            is None && (match verdict.kind {
            ResumeOutcome::Resolved => keep_lease && error is None && code is None && (
            seen.approved->0 ==> status is None) && (!seen.approved->0 ==> status == Some(
                RunStatus::Validating,
            )),
            ResumeOutcome::Failed(why) => !keep_lease && status == Some(RunStatus::Failed) && (
            error matches Some(said) && said@ == why@) && code == Some(ReasonCode::WorkerFailed),
            ResumeOutcome::Unresolved => !keep_lease && status is None && error is None && code
                is None,
        }),
        r matches FinishStep::QueueLanding { run } ==> seen.finished == Some(run) && verdict.kind
            is Resolved && seen.approved->0 && !seen.queued,
        r matches FinishStep::Await { run } ==> seen.finished == Some(run) && verdict.kind
            is Resolved && seen.approved->0 && seen.queued,
        r matches FinishStep::Validate { run } ==> seen.finished == Some(run) && verdict.kind
            is Resolved && !seen.approved->0,
        r matches FinishStep::Done { run } ==> seen.finished == Some(run) && verdict.kind
            !is Resolved,
{
}

/// A run is resumed for the reason of its latest event that parked it or sent
/// it back, and for its last error where that gives none.
pub proof fn a_resume_is_for_the_latest_reason(
    events: &Vec<RunEvent>,
    parks: &Vec<bool>,
    recheck_kind: &str,
    last_error: &Option<String>,
    r: (Option<String>, ResumeKind),
    at: int,
)
    requires
        call_ensures(resume_reason, (events, parks, recheck_kind, last_error), r),
        events@.len() == parks@.len(),
        0 <= at < events@.len(),
        parks@[at] || events@[at].is_kind("integration_deferred"@) || events@[at].is_kind(
            "triage_finished"@,
        ) || events@[at].is_kind("landing_decided"@),
        forall|i: int|
            at < i < events@.len() ==> !parks@[i] && !(#[trigger] events@[i]).is_kind(
                "integration_deferred"@,
            ) && !events@[i].is_kind("integration_error"@) && !events@[i].is_kind(
                "evidence_missing"@,
            ) && !events@[i].is_kind("scope_violation"@) && !events@[i].is_kind("landing_decided"@)
                && !events@[i].is_kind("triage_finished"@) && !events@[i].is_kind("triage_decided"@),
    ensures
        !events@[at].is_kind("triage_finished"@) && json::at(events@[at].payload@, "reason"@)
            is Text ==> (r.0 matches Some(reason) && json::at(events@[at].payload@, "reason"@)
            == json::Value::Text(reason@)),
        events@[at].is_kind("triage_finished"@) && json::at(events@[at].payload@, "instruction"@)
            is Text ==> (r.0 matches Some(reason) && json::at(events@[at].payload@, "instruction"@)
            == json::Value::Text(reason@)),
{
    reason_is_last(events@, parks@, events@.len() as int, at);
}

proof fn reason_is_last(events: Seq<RunEvent>, parks: Seq<bool>, n: int, at: int)
    requires
        0 <= at < n <= events.len(),
        is_reason(events[at], parks[at]),
        forall|i: int| at < i < n ==> !is_reason(#[trigger] events[i], parks[i]),
    ensures
        last_reason(events, parks, n) == Some(at),
    decreases n,
{
    if at < n - 1 {
        assert(!is_reason(events[n - 1], parks[n - 1]));
        reason_is_last(events, parks, n - 1, at);
    }
}

/// The run a task landed with is the last that was integrated.
pub proof fn the_landed_run_is_the_last_integrated(runs: &Vec<TaskRun>, r: Option<usize>)
    requires
        call_ensures(landed_since, (runs,), r),
    ensures
        match r {
            Some(i) => i < runs@.len() && runs@[i as int].status == RunStatus::Integrated && forall|
                j: int,
            | i < j < runs@.len() ==> (#[trigger] runs@[j]).status != RunStatus::Integrated,
            None => forall|j: int|
                0 <= j < runs@.len() ==> (#[trigger] runs@[j]).status != RunStatus::Integrated,
        },
{
    the_last_integrated_is_last(runs@, runs@.len() as int);
}

/// None after the last integrated run was integrated.
proof fn the_last_integrated_is_last(runs: Seq<TaskRun>, n: int)
    requires
        0 <= n <= runs.len(),
    ensures
        match last_integrated(runs, n) {
            Some(i) => 0 <= i < n && runs[i].status == RunStatus::Integrated && forall|j: int|
                i < j < n ==> (#[trigger] runs[j]).status != RunStatus::Integrated,
            None => forall|j: int|
                0 <= j < n ==> (#[trigger] runs[j]).status != RunStatus::Integrated,
        },
    decreases n,
{
    if n > 0 && runs[n - 1].status != RunStatus::Integrated {
        the_last_integrated_is_last(runs, n - 1);
    }
}

} // verus!
