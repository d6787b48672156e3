//! The workspaces of ended runs: what the triage or a landing closes of a run's
//! workspaces, and the sweep that closes whatever is still listed of the runs
//! the triage never takes.

use crate::domain::{Failing, ReasonCode, RunStatus};
use crate::json;
use crate::json::{Fields, Json};
use crate::supervise::clock::{passed, since};
use crate::supervise::resume::RunWorkspace;
use crate::text;
use vstd::prelude::*;
use vstd::string::*;

verus! {

/// Who closes a run's workspaces: the triage of a run that ended, or the
/// supervisor once a run it landed ended.
#[derive(Debug, Clone, Copy, PartialEq, Eq, Structural)]
pub enum WorkspaceCloser {
    Triage,
    Supervisor,
}

impl WorkspaceCloser {
    /// Its name on the queue.
    pub open spec fn name(self) -> Seq<char> {
        match self {
            WorkspaceCloser::Triage => "triage"@,
            WorkspaceCloser::Supervisor => "supervisor"@,
        }
    }

    /// Its name on the queue.
    pub fn closed_by(self) -> (r: &'static str)
        ensures
            r@ == self.name(),
    {
        match self {
            WorkspaceCloser::Triage => "triage",
            WorkspaceCloser::Supervisor => "supervisor",
        }
    }

    /// What it answers the asks of the run's dialogs and stalls with.
    pub open spec fn said(self) -> Seq<char> {
        match self {
            WorkspaceCloser::Triage => "the run was triaged; closed by the runtime"@,
            WorkspaceCloser::Supervisor => "the run ended; closed by the runtime"@,
        }
    }

    /// What it answers the asks of the run's held `/exit` with.
    pub open spec fn exit_answer(self) -> Seq<char> {
        match self {
            WorkspaceCloser::Triage => "the triage closed the run's workspace"@,
            WorkspaceCloser::Supervisor => "the supervisor closed the run's workspace"@,
        }
    }

    /// What it answers the asks of the run's dialogs and stalls with.
    pub fn answer(self) -> (r: &'static str)
        ensures
            r@ == self.said(),
    {
        match self {
            WorkspaceCloser::Triage => "the run was triaged; closed by the runtime",
            WorkspaceCloser::Supervisor => "the run ended; closed by the runtime",
        }
    }

    /// What it answers the asks of the run's held `/exit` with.
    pub fn stuck_exit_answer(self) -> (r: &'static str)
        ensures
            r@ == self.exit_answer(),
    {
        match self {
            WorkspaceCloser::Triage => "the triage closed the run's workspace",
            WorkspaceCloser::Supervisor => "the supervisor closed the run's workspace",
        }
    }
}

/// Why the sweep closes a workspace of an ended run.
pub open spec fn swept_for(status: RunStatus) -> Seq<char> {
    match status {
        RunStatus::Failed | RunStatus::Interrupted => "superseded"@,
        _ => "ended"@,
    }
}

/// Why the sweep closes a workspace of an ended run: one that failed or was
/// interrupted was superseded; a landed one just ended.
pub fn sweep_reason(status: RunStatus) -> (r: &'static str)
    ensures
        r@ == swept_for(status),
{
    if status == RunStatus::Failed || status == RunStatus::Interrupted {
        "superseded"
    } else {
        "ended"
    }
}

/// What has been done and observed of a workspace that a run left open.
#[derive(Default)]
pub struct LeftSeen {
    /// It is listed.
    pub listed: Option<Result<bool, String>>,
    pub closed: Option<Result<(), String>>,
    pub recorded: bool,
}

/// What closing a workspace that a run left open does next.
pub enum LeftStep {
    Listed,
    Close,
    RecordClosed { payload: Json },
    RecordFailure { payload: Json, fallback: ReasonCode },
    /// Whether it was closed.
    Next { closed: bool },
}

/// What `workspace_closed` records.
pub open spec fn closed_payload(
    workspace: RunWorkspace,
    closer: WorkspaceCloser,
    status: RunStatus,
) -> json::Value {
    let base = json::none().push(("by"@, json::Value::Text(closer.name())));
    let told = match workspace.resume_attempt {
        Some(attempt) => base.push(("resume_attempt"@, json::Value::Int(attempt as int))),
        None => base,
    };
    json::Value::Object(
        if closer == WorkspaceCloser::Supervisor {
            told.push(("reason"@, json::Value::Text(swept_for(status))))
        } else {
            told
        },
    )
}

/// What `cleanup_failed` records of a workspace, to which the reason is added.
pub open spec fn failure_payload(
    workspace: Seq<char>,
    closer: WorkspaceCloser,
    error: Seq<char>,
) -> json::Value {
    json::Value::Object(
        json::none().push(("workspace_id"@, json::Value::Text(workspace))).push(
            (
                "message"@,
                json::Value::Text(
                    "workspace "@ + workspace + " could not be closed: "@ + error,
                ),
            ),
        ).push(("by"@, json::Value::Text(closer.name()))),
    )
}

/// What `cleanup_failed` records of a workspace that could not be closed, to
/// which the reason is added.
pub fn record_close_failure(workspace: &str, closer: WorkspaceCloser, error: &str) -> (r: Json)
    ensures
        r@ == failure_payload(workspace@, closer, error@),
{
    let message = "workspace ".to_owned().concat(workspace).concat(
        " could not be closed: ",
    ).concat(error);
    Fields::new().text("workspace_id", workspace).text("message", message.as_str()).text(
        "by",
        closer.closed_by(),
    ).done()
}

/// What closing a workspace that a run left open comes to.
pub open spec fn closes(
    workspace: RunWorkspace,
    closer: WorkspaceCloser,
    status: RunStatus,
    seen: LeftSeen,
    r: LeftStep,
) -> bool {
    if workspace.closed {
        r == (LeftStep::Next { closed: false })
    } else {
        match seen.listed {
            None => r is Listed,
            Some(Ok(false)) => r == (LeftStep::Next { closed: false }),
            Some(Ok(true)) => match seen.closed {
                None => r is Close,
                Some(Ok(_)) => if !seen.recorded {
                    r matches LeftStep::RecordClosed { payload } && payload@ == closed_payload(
                        workspace,
                        closer,
                        status,
                    )
                } else {
                    r == (LeftStep::Next { closed: true })
                },
                Some(Err(error)) => if !seen.recorded {
                    r matches LeftStep::RecordFailure { payload, fallback } && payload@ == failure_payload(
                        workspace.workspace_id@,
                        closer,
                        error@,
                    ) && fallback == Failing::LeftWorkspace.code()
                } else {
                    r == (LeftStep::Next { closed: false })
                },
            },
            Some(Err(error)) => if !seen.recorded {
                r matches LeftStep::RecordFailure { payload, fallback } && payload@ == failure_payload(
                    workspace.workspace_id@,
                    closer,
                    error@,
                ) && fallback == Failing::LeftWorkspace.code()
            } else {
                r == (LeftStep::Next { closed: false })
            },
        }
    }
}

/// Close a workspace that a run left open, only while it is listed. A failure
/// is recorded, and the others go on.
pub fn close_open_workspace(
    workspace: &RunWorkspace,
    closer: WorkspaceCloser,
    status: RunStatus,
    seen: &LeftSeen,
) -> (r: LeftStep)
    ensures
        closes(*workspace, closer, status, *seen, r),
{
    if workspace.closed {
        return LeftStep::Next { closed: false };
    }
    let failed = match &seen.listed {
        None => return LeftStep::Listed,
        Some(Ok(listed)) => {
            if !*listed {
                return LeftStep::Next { closed: false };
            }
            match &seen.closed {
                None => return LeftStep::Close,
                Some(Ok(_)) => {
                    if seen.recorded {
                        return LeftStep::Next { closed: true };
                    }
                    let fields = Fields::new().text("by", closer.closed_by());
                    let fields = match workspace.resume_attempt {
                        Some(attempt) => fields.number("resume_attempt", attempt as i128),
                        None => fields,
                    };
                    let fields = if closer == WorkspaceCloser::Supervisor {
                        fields.text("reason", sweep_reason(status))
                    } else {
                        fields
                    };
                    return LeftStep::RecordClosed { payload: fields.done() };
                },
                Some(Err(error)) => error,
            }
        },
        Some(Err(error)) => error,
    };
    if seen.recorded {
        LeftStep::Next { closed: false }
    } else {
        LeftStep::RecordFailure {
            payload: record_close_failure(workspace.workspace_id.as_str(), closer, failed.as_str()),
            fallback: Failing::LeftWorkspace.fallback(),
        }
    }
}

/// What closing the workspaces of a run does next; its open asks are closed with
/// the answer.
#[derive(Debug, Clone, Copy, PartialEq, Eq)]
pub enum CloseStep {
    Workspace { index: usize },
    CloseStuckExitAsks { answer: &'static str },
    CloseAnswerPromptAsks { answer: &'static str },
    CloseStalledAsks { answer: &'static str },
    Done,
}

/// What closing the workspaces of a run did so far.
#[derive(Debug, Clone, Copy, PartialEq, Eq, Structural, Default)]
pub struct CloseSeen {
    /// The workspaces before this one are handled.
    pub next: usize,
    /// One of them was closed.
    pub closed: bool,
    pub stuck_closed: bool,
    pub prompts_closed: bool,
    pub stalls_closed: bool,
}

/// What closing the workspaces of a run comes to.
pub open spec fn closes_all(
    workspaces: usize,
    closer: WorkspaceCloser,
    seen: CloseSeen,
    r: CloseStep,
) -> bool {
    if seen.next < workspaces {
        r == (CloseStep::Workspace { index: seen.next })
    } else if seen.closed && !seen.stuck_closed {
        r matches CloseStep::CloseStuckExitAsks { answer } && answer@ == closer.exit_answer()
    } else if !seen.prompts_closed {
        r matches CloseStep::CloseAnswerPromptAsks { answer } && answer@ == closer.said()
    } else if !seen.stalls_closed {
        r matches CloseStep::CloseStalledAsks { answer } && answer@ == closer.said()
    } else {
        r is Done
    }
}

/// Close the workspaces that a run left open; its `stuck_exit` asks are closed
/// with one, and its `answer_prompt` and `stalled` asks in any case: no dialog
/// of it waits any more, nor is its session stalled.
pub fn close_open_workspaces(
    workspaces: usize,
    closer: WorkspaceCloser,
    seen: CloseSeen,
) -> (r: CloseStep)
    ensures
        closes_all(workspaces, closer, seen, r),
{
    if seen.next < workspaces {
        CloseStep::Workspace { index: seen.next }
    } else if seen.closed && !seen.stuck_closed {
        CloseStep::CloseStuckExitAsks { answer: closer.stuck_exit_answer() }
    } else if !seen.prompts_closed {
        CloseStep::CloseAnswerPromptAsks { answer: closer.answer() }
    } else if !seen.stalls_closed {
        CloseStep::CloseStalledAsks { answer: closer.answer() }
    } else {
        CloseStep::Done
    }
}

/// Whether a sweep is due: at once on the first pass, then once per interval.
pub fn sweep_due(last: Option<u128>, now: u128, interval: u128) -> (r: bool)
    ensures
        r == (last is None || passed(last->0, now) >= interval),
{
    match last {
        Some(last) => since(last, now) >= interval,
        None => true,
    }
}

/// A workspace of an ended run.
pub struct EndedRunWorkspace {
    pub run_id: String,
    pub status: RunStatus,
    pub workspace_id: String,
}

/// The places of the first `n` workspaces whose run no slot holds.
pub open spec fn unheld(all: Seq<EndedRunWorkspace>, held: Seq<Seq<char>>, n: int) -> Seq<usize>
    decreases n,
{
    if n <= 0 || n > all.len() {
        Seq::empty()
    } else if held.contains(all[n - 1].run_id@) {
        unheld(all, held, n - 1)
    } else {
        unheld(all, held, n - 1).push((n - 1) as usize)
    }
}

/// The places of the workspaces that are swept: those whose run no slot holds.
pub fn sweep_candidates(all: &Vec<EndedRunWorkspace>, held: &Vec<String>) -> (r: Vec<usize>)
    ensures
        r@ == unheld(all@, text::views(held@), all@.len() as int),
{
    let mut out: Vec<usize> = Vec::new();
    let mut i: usize = 0;
    while i < all.len()
        invariant
            i <= all@.len(),
            out@ == unheld(all@, text::views(held@), i as int),
        decreases all@.len() - i,
    {
        if !text::lists(held, all[i].run_id.as_str()) {
            out.push(i);
        }
        i += 1;
    }
    out
}

/// Whether the workspace is among those listed, whatever the case of its
/// letters.
pub open spec fn is_listed(listed: Seq<Seq<char>>, workspace: Seq<char>) -> bool {
    exists|i: int|
        0 <= i < listed.len() && text::lowered(#[trigger] listed[i]) == text::lowered(workspace)
}

/// Whether the workspace is among those listed.
fn find_listed(listed: &Vec<String>, workspace: &str) -> (r: bool)
    ensures
        r == is_listed(text::views(listed@), workspace@),
{
    let wanted = text::ascii_lower(workspace);
    let mut i: usize = 0;
    while i < listed.len()
        invariant
            i <= listed@.len(),
            wanted@ == text::lowered(workspace@),
            forall|j: int|
                0 <= j < i ==> text::lowered(#[trigger] text::views(listed@)[j]) != wanted@,
        decreases listed@.len() - i,
    {
        let one = text::ascii_lower(listed[i].as_str());
        assert(text::views(listed@)[i as int] == listed@[i as int]@);
        if text::same(one.as_str(), wanted.as_str()) {
            return true;
        }
        i += 1;
    }
    false
}

/// What has been done and observed of a workspace that is swept.
#[derive(Default)]
pub struct SweepSeen {
    pub closed: Option<Result<(), String>>,
    /// A failure to close it was recorded before, by this process.
    pub failed_before: bool,
    pub recorded: bool,
}

/// What sweeping a workspace does next.
pub enum SweepStep {
    Close,
    RecordClosed { payload: Json },
    /// Note the failure, so that it is recorded once, and record it.
    RecordFailure { payload: Json, fallback: ReasonCode },
    /// Whether it was closed.
    Next { closed: bool },
}

/// What sweeping a workspace comes to.
pub open spec fn sweeps(
    candidate: EndedRunWorkspace,
    listed: Seq<Seq<char>>,
    seen: SweepSeen,
    r: SweepStep,
) -> bool {
    if !is_listed(listed, candidate.workspace_id@) {
        r == (SweepStep::Next { closed: false })
    } else {
        match seen.closed {
            None => r is Close,
            Some(Ok(_)) => if !seen.recorded {
                r matches SweepStep::RecordClosed { payload } && payload@ == json::Value::Object(
                    json::none().push(("by"@, json::Value::Text("supervisor"@))).push(
                        ("reason"@, json::Value::Text(swept_for(candidate.status))),
                    ),
                )
            } else {
                r == (SweepStep::Next { closed: true })
            },
            Some(Err(error)) => if !seen.failed_before && !seen.recorded {
                r matches SweepStep::RecordFailure { payload, fallback } && payload@ == failure_payload(
                    candidate.workspace_id@,
                    WorkspaceCloser::Supervisor,
                    error@,
                ) && fallback == Failing::LeftWorkspace.code()
            } else {
                r == (SweepStep::Next { closed: false })
            },
        }
    }
}

/// Close a workspace of an ended run that is still listed. The listing decides,
/// not the recorded closes. A failure is recorded once per workspace and
/// process; the close is retried on every sweep.
pub fn sweep_workspace(candidate: &EndedRunWorkspace, listed: &Vec<String>, seen: &SweepSeen) -> (r:
    SweepStep)
    ensures
        sweeps(*candidate, text::views(listed@), *seen, r),
{
    if !find_listed(listed, candidate.workspace_id.as_str()) {
        return SweepStep::Next { closed: false };
    }
    match &seen.closed {
        None => SweepStep::Close,
        Some(Ok(_)) => if !seen.recorded {
            SweepStep::RecordClosed {
                payload: Fields::new().text("by", "supervisor").text(
                    "reason",
                    sweep_reason(candidate.status),
                ).done(),
            }
        } else {
            SweepStep::Next { closed: true }
        },
        Some(Err(error)) => if !seen.failed_before && !seen.recorded {
            SweepStep::RecordFailure {
                payload: record_close_failure(
                    candidate.workspace_id.as_str(),
                    WorkspaceCloser::Supervisor,
                    error.as_str(),
                ),
                fallback: Failing::LeftWorkspace.fallback(),
            }
        } else {
            SweepStep::Next { closed: false }
        },
    }
}

/// A workspace that is not listed is neither closed nor recorded.
pub proof fn an_unlisted_workspace_is_left_alone(
    candidate: EndedRunWorkspace,
    listed: Seq<Seq<char>>,
    seen: SweepSeen,
    r: SweepStep,
)
    requires
        sweeps(candidate, listed, seen, r),
        !is_listed(listed, candidate.workspace_id@),
    ensures
        r == (SweepStep::Next { closed: false }),
{
}

/// What has been done and observed of a sweep of workspaces.
#[derive(Clone, Copy, Default)]
pub struct SweepPassSeen {
    /// The workspaces that are there could be listed.
    pub listed: Option<bool>,
    /// The candidates before this one are swept.
    pub next: usize,
    /// The runs whose asks are closed.
    pub asks_closed: usize,
}

/// What a sweep of workspaces does next.
#[derive(Clone, Copy)]
pub enum SweepPassStep {
    /// List the workspaces that are there.
    List,
    /// Sweep the candidate: [`sweep_workspace`].
    Workspace { index: usize },
    /// Close the `stuck_exit`, `answer_prompt` and `stalled` asks of the run
    /// with this answer, in this order.
    CloseAsks { index: usize, answer: &'static str },
    Done,
}

/// What a sweep of workspaces comes to.
pub open spec fn sweeps_all(
    candidates: int,
    closed: int,
    seen: SweepPassSeen,
    r: SweepPassStep,
) -> bool {
    if candidates == 0 {
        r is Done
    } else if seen.listed is None {
        r is List
    } else if !seen.listed->0 {
        r is Done
    } else if seen.next < candidates {
        r == (SweepPassStep::Workspace { index: seen.next })
    } else if seen.asks_closed < closed {
        r matches SweepPassStep::CloseAsks { index, answer } && index == seen.asks_closed
            && answer@ == "the run ended; the runtime closed its workspace"@
    } else {
        r is Done
    }
}

/// Sweep the workspaces of ended runs: nothing is listed where there is none to
/// sweep, and nothing is swept where they cannot be listed. The asks of the runs
/// of which a workspace was closed, `closed` of them, follow all of it.
pub fn sweep_ended_workspaces(candidates: usize, closed: usize, seen: SweepPassSeen) -> (r:
    SweepPassStep)
    ensures
        sweeps_all(candidates as int, closed as int, seen, r),
{
    if candidates == 0 {
        return SweepPassStep::Done;
    }
    match seen.listed {
        None => return SweepPassStep::List,
        Some(listed) => if !listed {
            return SweepPassStep::Done;
        },
    }
    if seen.next < candidates {
        SweepPassStep::Workspace { index: seen.next }
    } else if seen.asks_closed < closed {
        SweepPassStep::CloseAsks { index: seen.asks_closed, answer: swept_answer() }
    } else {
        SweepPassStep::Done
    }
}

/// No ask is closed before every workspace was swept.
pub proof fn asks_close_after_the_sweep(
    candidates: int,
    closed: int,
    seen: SweepPassSeen,
    r: SweepPassStep,
)
    requires
        sweeps_all(candidates, closed, seen, r),
        r is CloseAsks,
    ensures
        seen.listed == Some(true),
        seen.next >= candidates,
{
}

/// Add a text to a list that has it once; whether it was new.
pub fn add_once(list: &mut Vec<String>, what: &str) -> (r: bool)
    ensures
        r == !text::views(old(list)@).contains(what@),
        text::views(final(list)@) == (if r {
            text::views(old(list)@).push(what@)
        } else {
            text::views(old(list)@)
        }),
{
    if text::lists(list, what) {
        return false;
    }
    let ghost had = list@;
    list.push(what.to_owned());
    assert(text::views(list@) =~= text::views(had).push(what@));
    true
}

/// What the asks of a run whose workspace was swept are answered with.
pub fn swept_answer() -> (r: &'static str)
    ensures
        r@ == "the run ended; the runtime closed its workspace"@,
{
    "the run ended; the runtime closed its workspace"
}

/// A run's open workspace is closed where it is listed, and what came of it
/// recorded once: closed by whom, or failed with the error.
pub proof fn a_listed_workspace_is_closed(
    workspace: RunWorkspace,
    closer: WorkspaceCloser,
    status: RunStatus,
    seen: LeftSeen,
    r: LeftStep,
)
    requires
        closes(workspace, closer, status, seen, r),
    ensures
        r is Listed <==> !workspace.closed && seen.listed is None,
        r is Close <==> !workspace.closed && (seen.listed matches Some(Ok(listed)) && listed)
            && seen.closed is None,
        r is RecordClosed <==> !workspace.closed && (seen.listed matches Some(Ok(listed)) && listed)
            && (seen.closed matches Some(Ok(_))) && !seen.recorded,
        r is RecordFailure <==> !workspace.closed && ((seen.listed matches Some(Err(_))) || ((
        seen.listed matches Some(Ok(listed)) && listed) && (seen.closed matches Some(Err(_)))))
            && !seen.recorded,
        r matches LeftStep::Next { closed } ==> (closed <==> !workspace.closed && (
        seen.listed matches Some(Ok(listed)) && listed) && (seen.closed matches Some(Ok(_)))),
        r matches LeftStep::RecordClosed { payload } ==> payload@ is Object && payload@->Object_0[0]
            == ("by"@, json::Value::Text(closer.name())),
{
}

/// All workspaces of a run are looked at, then its asks are closed; those of a
/// stuck exit only where a workspace was.
pub proof fn asks_are_closed_after_the_workspaces(
    workspaces: usize,
    closer: WorkspaceCloser,
    seen: CloseSeen,
    r: CloseStep,
)
    requires
        closes_all(workspaces, closer, seen, r),
    ensures
        r matches CloseStep::Workspace { index } ==> index == seen.next && index < workspaces,
        r is Workspace <==> seen.next < workspaces,
        r is CloseStuckExitAsks <==> seen.next >= workspaces && seen.closed && !seen.stuck_closed,
        r is CloseAnswerPromptAsks <==> seen.next >= workspaces && (seen.closed
            ==> seen.stuck_closed) && !seen.prompts_closed,
        r is Done <==> seen.next >= workspaces && (seen.closed ==> seen.stuck_closed)
            && seen.prompts_closed && seen.stalls_closed,
{
}

/// A sweep is due where none was, and else once the interval is over.
pub proof fn a_sweep_is_due_after_its_interval(
    last: Option<u128>,
    now: u128,
    interval: u128,
    r: bool,
)
    requires
        call_ensures(sweep_due, (last, now, interval), r),
    ensures
        last is None ==> r,
        last is Some && last->0 <= now ==> (r <==> now - last->0 >= interval),
        last is Some && last->0 > now && interval > 0 ==> !r,
{
}

/// The workspaces swept are those of all ended runs but the held ones.
pub proof fn a_held_run_is_not_swept(
    all: Seq<EndedRunWorkspace>,
    held: Seq<Seq<char>>,
    n: int,
    i: int,
)
    requires
        0 <= i < n <= all.len() <= usize::MAX,
    ensures
        unheld(all, held, n).contains(i as usize) <==> !held.contains(all[i].run_id@),
    decreases n,
{
    let before = unheld(all, held, n - 1);
    let after = unheld(all, held, n);
    below(all, held, n - 1);
    if i < n - 1 {
        a_held_run_is_not_swept(all, held, n - 1, i);
        if before.contains(i as usize) {
            let k = choose|k: int| 0 <= k < before.len() && before[k] == i as usize;
            assert(after[k] == i as usize);
        }
        if after.contains(i as usize) {
            let k = choose|k: int| 0 <= k < after.len() && after[k] == i as usize;
            if k < before.len() {
                assert(before[k] == i as usize);
            }
        }
    } else if !held.contains(all[i].run_id@) {
        assert(after[before.len() as int] == i as usize);
    }
}

proof fn below(all: Seq<EndedRunWorkspace>, held: Seq<Seq<char>>, n: int)
    requires
        0 <= n <= all.len() <= usize::MAX,
    ensures
        forall|k: int| 0 <= k < unheld(all, held, n).len() ==> (#[trigger] unheld(all, held, n)[k]) < n,
    decreases n,
{
    if n > 0 {
        below(all, held, n - 1);
        let before = unheld(all, held, n - 1);
        let after = unheld(all, held, n);
        assert forall|k: int| 0 <= k < after.len() implies (#[trigger] after[k]) < n by {
            if k < before.len() {
                assert(after[k] == before[k]);
            }
        }
    }
}

/// A swept workspace is closed where it is listed; what came of it is recorded
/// once, and a failure that was recorded before is not again.
pub proof fn a_sweep_closes_and_records(
    candidate: EndedRunWorkspace,
    listed: Seq<Seq<char>>,
    seen: SweepSeen,
    r: SweepStep,
    i: int,
)
    requires
        sweeps(candidate, listed, seen, r),
        0 <= i < listed.len(),
        text::lowered(listed[i]) == text::lowered(candidate.workspace_id@),
    ensures
        r is Close <==> seen.closed is None,
        r is RecordClosed <==> (seen.closed matches Some(Ok(_))) && !seen.recorded,
        r is RecordFailure <==> (seen.closed matches Some(Err(_))) && !seen.failed_before
            && !seen.recorded,
        r matches SweepStep::Next { closed } ==> (closed <==> (seen.closed matches Some(Ok(_)))),
{
}

/// A sweep lists the workspaces once, looks at each candidate and then closes
/// the asks of those it closed; it does nothing without candidates or a list.
pub proof fn a_sweep_goes_through_its_candidates(
    candidates: int,
    closed: int,
    seen: SweepPassSeen,
    r: SweepPassStep,
)
    requires
        sweeps_all(candidates, closed, seen, r),
        candidates >= 0,
    ensures
        r is List <==> candidates > 0 && seen.listed is None,
        r matches SweepPassStep::Workspace { index } ==> index == seen.next && index < candidates,
        r is Workspace <==> candidates > 0 && seen.listed is Some && seen.listed->0 && seen.next
            < candidates,
        r matches SweepPassStep::CloseAsks { index, .. } ==> index == seen.asks_closed && index
            < closed && seen.next >= candidates,
        candidates > 0 && seen.listed is Some && seen.listed->0 && r is Done ==> seen.next
            >= candidates && seen.asks_closed >= closed,
{
}

/// A failed or interrupted run was superseded; any other ended.
pub proof fn a_sweep_says_why(status: RunStatus)
    ensures
        swept_for(status) == "superseded"@ || swept_for(status) == "ended"@,
        status == RunStatus::Failed || status == RunStatus::Interrupted ==> swept_for(status)
            == "superseded"@,
        status != RunStatus::Failed && status != RunStatus::Interrupted ==> swept_for(status)
            == "ended"@,
{
}

/// What is added once is there afterwards, and was new exactly where it was not
/// there before; nothing else changes.
pub proof fn adding_once_adds_once(list: &mut Vec<String>, what: &str, r: bool)
    requires
        call_ensures(add_once, (list, what), r),
    ensures
        r <==> !(exists|i: int| 0 <= i < old(list)@.len() && (#[trigger] old(list)@[i])@ == what@),
        final(list)@.len() == old(list)@.len() + (if r {
            1int
        } else {
            0
        }),
        r ==> final(list)@.last()@ == what@,
        forall|i: int|
            0 <= i < old(list)@.len() ==> (#[trigger] final(list)@[i])@ == old(list)@[i]@,
{
    let before = text::views(old(list)@);
    let after = text::views(final(list)@);
    assert(before.len() == old(list)@.len() && after.len() == final(list)@.len());
    if before.contains(what@) {
        let i = choose|i: int| 0 <= i < before.len() && before[i] == what@;
        assert(old(list)@[i]@ == what@);
    }
    if exists|i: int| 0 <= i < old(list)@.len() && (#[trigger] old(list)@[i])@ == what@ {
        let i = choose|i: int| 0 <= i < old(list)@.len() && (#[trigger] old(list)@[i])@ == what@;
        assert(before[i] == what@);
    }
    if r {
        assert(after.last() == what@);
        assert(final(list)@.last()@ == after.last());
    }
    assert forall|i: int| 0 <= i < old(list)@.len() implies (#[trigger] final(list)@[i])@ == old(list)@[i]@ by {
        assert(after[i] == before[i]);
    }
}

} // verus!
