//! The tasks, runs and events the decisions are about.

use crate::json::Json;
use crate::supervise::recovery::RecoveryAlert;
use crate::text;
use vstd::prelude::*;
use vstd::string::*;

verus! {

/// Where a run stands.
#[derive(Debug, Clone, Copy, PartialEq, Eq, Structural)]
pub enum RunStatus {
    Claimed,
    Starting,
    Running,
    Validating,
    AwaitingIntegration,
    NeedsSession,
    Integrating,
    Integrated,
    Succeeded,
    Failed,
    Interrupted,
}

impl RunStatus {
    /// Its name on the queue.
    pub open spec fn name(self) -> Seq<char> {
        match self {
            RunStatus::Claimed => "claimed"@,
            RunStatus::Starting => "starting"@,
            RunStatus::Running => "running"@,
            RunStatus::Validating => "validating"@,
            RunStatus::AwaitingIntegration => "awaiting_integration"@,
            RunStatus::NeedsSession => "needs_session"@,
            RunStatus::Integrating => "integrating"@,
            RunStatus::Integrated => "integrated"@,
            RunStatus::Succeeded => "succeeded"@,
            RunStatus::Failed => "failed"@,
            RunStatus::Interrupted => "interrupted"@,
        }
    }

    /// Its name on the queue.
    pub fn as_str(self) -> (r: &'static str)
        ensures
            r@ == self.name(),
    {
        match self {
            RunStatus::Claimed => "claimed",
            RunStatus::Starting => "starting",
            RunStatus::Running => "running",
            RunStatus::Validating => "validating",
            RunStatus::AwaitingIntegration => "awaiting_integration",
            RunStatus::NeedsSession => "needs_session",
            RunStatus::Integrating => "integrating",
            RunStatus::Integrated => "integrated",
            RunStatus::Succeeded => "succeeded",
            RunStatus::Failed => "failed",
            RunStatus::Interrupted => "interrupted",
        }
    }
}

/// Where a task stands.
#[derive(Debug, Clone, Copy, PartialEq, Eq, Structural)]
pub enum TaskStatus {
    Draft,
    Ready,
    InProgress,
    Completed,
    Canceled,
}

impl TaskStatus {
    /// Its name on the queue.
    pub open spec fn name(self) -> Seq<char> {
        match self {
            TaskStatus::Draft => "draft"@,
            TaskStatus::Ready => "ready"@,
            TaskStatus::InProgress => "in_progress"@,
            TaskStatus::Completed => "completed"@,
            TaskStatus::Canceled => "canceled"@,
        }
    }

    /// Its name on the queue.
    pub fn as_str(self) -> (r: &'static str)
        ensures
            r@ == self.name(),
    {
        match self {
            TaskStatus::Draft => "draft",
            TaskStatus::Ready => "ready",
            TaskStatus::InProgress => "in_progress",
            TaskStatus::Completed => "completed",
            TaskStatus::Canceled => "canceled",
        }
    }
}

/// Why something did not go on, as a code.
#[derive(Debug, Clone, Copy, PartialEq, Eq, Structural)]
pub enum ReasonCode {
    BackendFailed,
    BackendTimeout,
    CommitMismatch,
    EvidenceMissing,
    ExitTimeout,
    GitFailed,
    HeartbeatLost,
    JobFailed,
    LeaseLost,
    MigrationNumberTaken,
    Other,
    PushFailed,
    RebaseConflict,
    RebaseEmpty,
    RebaseInProgress,
    ReceiptMissing,
    ReceiptInvalid,
    ScopeViolation,
    VerificationFailed,
    WorkerFailed,
    WorktreeDirty,
}

impl ReasonCode {
    /// Its name on the queue.
    pub open spec fn name(self) -> Seq<char> {
        match self {
            ReasonCode::BackendFailed => "backend_failed"@,
            ReasonCode::BackendTimeout => "backend_timeout"@,
            ReasonCode::CommitMismatch => "commit_mismatch"@,
            ReasonCode::EvidenceMissing => "evidence_missing"@,
            ReasonCode::ExitTimeout => "exit_timeout"@,
            ReasonCode::GitFailed => "git_failed"@,
            ReasonCode::HeartbeatLost => "heartbeat_lost"@,
            ReasonCode::JobFailed => "job_failed"@,
            ReasonCode::LeaseLost => "lease_lost"@,
            ReasonCode::MigrationNumberTaken => "migration_number_taken"@,
            ReasonCode::Other => "other"@,
            ReasonCode::PushFailed => "push_failed"@,
            ReasonCode::RebaseConflict => "rebase_conflict"@,
            ReasonCode::RebaseEmpty => "rebase_empty"@,
            ReasonCode::RebaseInProgress => "rebase_in_progress"@,
            ReasonCode::ReceiptMissing => "receipt_missing"@,
            ReasonCode::ReceiptInvalid => "receipt_invalid"@,
            ReasonCode::ScopeViolation => "scope_violation"@,
            ReasonCode::VerificationFailed => "verification_failed"@,
            ReasonCode::WorkerFailed => "worker_failed"@,
            ReasonCode::WorktreeDirty => "worktree_dirty"@,
        }
    }

    /// Its name on the queue.
    pub fn as_str(self) -> (r: &'static str)
        ensures
            r@ == self.name(),
    {
        match self {
            ReasonCode::BackendFailed => "backend_failed",
            ReasonCode::BackendTimeout => "backend_timeout",
            ReasonCode::CommitMismatch => "commit_mismatch",
            ReasonCode::EvidenceMissing => "evidence_missing",
            ReasonCode::ExitTimeout => "exit_timeout",
            ReasonCode::GitFailed => "git_failed",
            ReasonCode::HeartbeatLost => "heartbeat_lost",
            ReasonCode::JobFailed => "job_failed",
            ReasonCode::LeaseLost => "lease_lost",
            ReasonCode::MigrationNumberTaken => "migration_number_taken",
            ReasonCode::Other => "other",
            ReasonCode::PushFailed => "push_failed",
            ReasonCode::RebaseConflict => "rebase_conflict",
            ReasonCode::RebaseEmpty => "rebase_empty",
            ReasonCode::RebaseInProgress => "rebase_in_progress",
            ReasonCode::ReceiptMissing => "receipt_missing",
            ReasonCode::ReceiptInvalid => "receipt_invalid",
            ReasonCode::ScopeViolation => "scope_violation",
            ReasonCode::VerificationFailed => "verification_failed",
            ReasonCode::WorkerFailed => "worker_failed",
            ReasonCode::WorktreeDirty => "worktree_dirty",
        }
    }
}

/// Why a person is asked.
#[derive(Debug, Clone, Copy, PartialEq, Eq, Structural)]
pub enum AskReason {
    Cost,
    Discard,
    RecoveryFailed,
    Scope,
}

impl AskReason {
    /// Its name on the queue.
    pub open spec fn name(self) -> Seq<char> {
        match self {
            AskReason::Cost => "cost"@,
            AskReason::Discard => "discard"@,
            AskReason::RecoveryFailed => "recovery_failed"@,
            AskReason::Scope => "scope"@,
        }
    }

    /// Its name on the queue.
    pub fn as_str(self) -> (r: &'static str)
        ensures
            r@ == self.name(),
    {
        match self {
            AskReason::Cost => "cost",
            AskReason::Discard => "discard",
            AskReason::RecoveryFailed => "recovery_failed",
            AskReason::Scope => "scope",
        }
    }
}

/// A check a task can require its receipt to back.
#[derive(Debug, Clone, Copy, PartialEq, Eq, Structural)]
pub enum EvidenceCheck {
    Tests,
    E2e,
    SubagentReview,
}

impl EvidenceCheck {
    /// Its name on the queue.
    pub open spec fn name(self) -> Seq<char> {
        match self {
            EvidenceCheck::Tests => "tests"@,
            EvidenceCheck::E2e => "e2e"@,
            EvidenceCheck::SubagentReview => "subagent_review"@,
        }
    }

    /// Its name on the queue.
    pub fn as_str(self) -> (r: &'static str)
        ensures
            r@ == self.name(),
    {
        match self {
            EvidenceCheck::Tests => "tests",
            EvidenceCheck::E2e => "e2e",
            EvidenceCheck::SubagentReview => "subagent_review",
        }
    }
}

/// What a receipt says of its run.
#[derive(Debug, Clone, Copy, PartialEq, Eq, Structural)]
pub enum ReceiptResult {
    Succeeded,
    Failed,
}

impl ReceiptResult {
    /// Its name on the queue.
    pub open spec fn name(self) -> Seq<char> {
        match self {
            ReceiptResult::Succeeded => "succeeded"@,
            ReceiptResult::Failed => "failed"@,
        }
    }

    /// Its name on the queue.
    pub fn as_str(self) -> (r: &'static str)
        ensures
            r@ == self.name(),
    {
        match self {
            ReceiptResult::Succeeded => "succeeded",
            ReceiptResult::Failed => "failed",
        }
    }
}

/// What failed of a run, as far as its record has a reason: the code of the
/// error, or [`Failing::code`] where the error has none of its own.
#[derive(Debug, Clone, Copy, PartialEq, Eq, Structural)]
pub enum Failing {
    /// The run is given up and its lease with it.
    Abandon,
    /// A resume failed in itself.
    Resume,
    /// A landing stopped before `main` moved.
    Landing,
    /// The workspace of an accepted run could not be closed.
    AcceptedWorkspace,
    /// A workspace an ended run left open could not be closed.
    LeftWorkspace,
    /// The worktree of an ended run could not be cleaned.
    Worktree,
    /// The final screen could not be read.
    Screen,
}

impl Failing {
    /// The code of an error that has none of its own.
    pub open spec fn code(self) -> ReasonCode {
        match self {
            Failing::AcceptedWorkspace | Failing::Screen => ReasonCode::BackendFailed,
            _ => ReasonCode::Other,
        }
    }

    /// The code of an error that has none of its own.
    pub fn fallback(self) -> (r: ReasonCode)
        ensures
            r == self.code(),
    {
        match self {
            Failing::AcceptedWorkspace | Failing::Screen => ReasonCode::BackendFailed,
            _ => ReasonCode::Other,
        }
    }
}

/// The coding agent that the sessions run, by its names.
pub struct Agent {
    /// What it is called.
    pub product: String,
    /// What its executable is called; the option that passes the executable is
    /// named after it.
    pub program: String,
}

impl Agent {
    /// The option that passes its executable.
    pub open spec fn flag(self) -> Seq<char> {
        "--"@ + self.program@
    }

    /// The option that passes its executable.
    pub fn option(&self) -> (r: String)
        ensures
            r@ == self.flag(),
    {
        "--".to_owned().concat(self.program.as_str())
    }
}

/// What a session reports of its run.
pub struct Receipt {
    pub result: ReceiptResult,
    /// The commit as the session wrote it.
    pub commit: String,
    pub summary: String,
    /// The follow-ups it proposes, if it has the field.
    pub follow_ups: Option<Json>,
    /// The whole of it, as it is recorded.
    pub document: Json,
}

impl Receipt {
    /// Whether both say the same.
    pub open spec fn same(self, other: Receipt) -> bool {
        &&& self.result == other.result
        &&& self.commit == other.commit
        &&& self.summary == other.summary
        &&& match self.follow_ups {
            Some(a) => other.follow_ups matches Some(b) && a@ == b@,
            None => other.follow_ups is None,
        }
        &&& self.document@ == other.document@
    }

    /// A receipt that says the same.
    pub fn copy(&self) -> (r: Receipt)
        ensures
            self.same(r),
    {
        Receipt {
            result: self.result,
            commit: self.commit.clone(),
            summary: self.summary.clone(),
            follow_ups: match &self.follow_ups {
                Some(follow_ups) => Some(follow_ups.copy()),
                None => None,
            },
            document: self.document.copy(),
        }
    }
}

/// A task of the queue.
pub struct Task {
    pub id: i64,
    pub title: String,
    pub status: TaskStatus,
    /// The paths its runs may change; none allows all.
    pub paths: Vec<String>,
    pub verification_commands: Vec<String>,
    pub goal_id: Option<i64>,
}

/// A run of a task.
pub struct TaskRun {
    pub id: String,
    pub task_id: i64,
    pub status: RunStatus,
    pub base_commit: String,
    pub branch: Option<String>,
    pub worktree_path: Option<String>,
    pub workspace_id: Option<String>,
    pub receipt_path: Option<String>,
    pub result_commit: Option<String>,
    pub run_dir: Option<String>,
    pub last_error: Option<String>,
    pub workspace_closed: bool,
}

impl TaskRun {
    /// An equal run.
    pub fn copy(&self) -> (r: TaskRun)
        ensures
            r == *self,
    {
        TaskRun {
            id: self.id.clone(),
            task_id: self.task_id,
            status: self.status,
            base_commit: self.base_commit.clone(),
            branch: same_text(&self.branch),
            worktree_path: same_text(&self.worktree_path),
            workspace_id: same_text(&self.workspace_id),
            receipt_path: same_text(&self.receipt_path),
            result_commit: same_text(&self.result_commit),
            run_dir: same_text(&self.run_dir),
            last_error: same_text(&self.last_error),
            workspace_closed: self.workspace_closed,
        }
    }
}

/// Something that was recorded of a run.
pub struct RunEvent {
    pub id: i64,
    pub kind: String,
    /// When it was recorded, in milliseconds since the epoch, where its time
    /// can be read.
    pub at_millis: Option<i64>,
    pub payload: Json,
}

impl RunEvent {
    /// Whether the event is of this kind.
    pub open spec fn is_kind(self, kind: Seq<char>) -> bool {
        self.kind@ == kind
    }

    /// Whether the event is of this kind.
    pub fn of_kind(&self, kind: &str) -> (r: bool)
        ensures
            r == self.is_kind(kind@),
    {
        text::same(self.kind.as_str(), kind)
    }
}

/// A process registered for a run.
pub struct RunProcess {
    pub role: String,
    pub pid: u32,
    pub heartbeat_at: i64,
    pub exited_at: Option<i64>,
}

impl RunProcess {
    /// Whether this is the run's session wrapper.
    pub open spec fn is_wrapper(self) -> bool {
        self.role@ == "wrapper"@
    }
}

/// An equal optional text.
pub fn same_text(o: &Option<String>) -> (r: Option<String>)
    ensures
        r == *o,
{
    match o {
        Some(s) => Some(s.clone()),
        None => None,
    }
}

/// Whether a heartbeat of this age shows no working process: the process is
/// gone, or the heartbeat is older than `timeout`.
pub open spec fn is_stale(alive: bool, age: int, timeout: int) -> bool {
    !alive || age > timeout
}

/// The seconds from `from` to `to`, within the range of the type.
pub open spec fn elapsed(from: int, to: int) -> int {
    if to - from > i64::MAX {
        i64::MAX as int
    } else if to - from < i64::MIN {
        i64::MIN as int
    } else {
        to - from
    }
}

/// The seconds from `from` to `to`.
pub fn age(from: i64, to: i64) -> (r: i64)
    ensures
        r == elapsed(from as int, to as int),
{
    let wide: i128 = to as i128 - from as i128;
    if wide > i64::MAX as i128 {
        i64::MAX
    } else if wide < i64::MIN as i128 {
        i64::MIN
    } else {
        wide as i64
    }
}

/// Whether a heartbeat shows no working process any more.
pub fn heartbeat_stale(alive: bool, age: i64, timeout: i64) -> (r: bool)
    ensures
        r == is_stale(alive, age as int, timeout as int),
{
    !alive || age > timeout
}

/// What an ask is for.
#[derive(Debug, Clone, Copy, PartialEq, Eq, Structural)]
pub enum AskKind {
    /// The dialog of a session that a person answers.
    AnswerPrompt,
    ApprovePlan,
    Stalled,
    StuckExit,
    /// What the recovery of a run that ended asks for this alert.
    Ended { alert: RecoveryAlert },
}

/// Who asks.
#[derive(Debug, Clone, Copy, PartialEq, Eq, Structural)]
pub enum Asker {
    Supervisor,
    Triage,
    PlanReview,
}

/// An ask to be opened.
pub struct NewAsk {
    pub kind: AskKind,
    pub task_id: Option<i64>,
    pub run_id: Option<String>,
    pub question: String,
    pub options: Vec<String>,
    pub asked_by: Asker,
    pub category: AskReason,
    /// The finding it is about.
    pub finding_id: Option<i64>,
}

impl NewAsk {
    /// Whether it is the supervisor's ask of this kind about the run and its
    /// task, and about no finding.
    pub open spec fn is_about(self, kind: AskKind, run: TaskRun) -> bool {
        &&& self.kind == kind
        &&& self.task_id == Some(run.task_id)
        &&& text::opt_view(self.run_id) == Some(run.id@)
        &&& self.asked_by == Asker::Supervisor
        &&& self.finding_id is None
    }

    /// The supervisor's ask about a run.
    pub fn about(
        kind: AskKind,
        run: &TaskRun,
        question: String,
        options: Vec<String>,
        category: AskReason,
    ) -> (r: NewAsk)
        ensures
            r.is_about(kind, *run),
            r.question == question,
            r.options == options,
            r.category == category,
    {
        NewAsk {
            kind,
            task_id: Some(run.task_id),
            run_id: Some(run.id.clone()),
            question,
            options,
            asked_by: Asker::Supervisor,
            category,
            finding_id: None,
        }
    }
}

/// A heartbeat shows a working process exactly while the process is there and
/// the heartbeat is no older than the timeout; an older one never shows more.
pub proof fn a_heartbeat_shows_life_until_the_timeout(
    alive: bool,
    age: int,
    later: int,
    timeout: int,
)
    requires
        age <= later,
    ensures
        !is_stale(alive, age, timeout) ==> alive && age <= timeout,
        alive && age <= timeout ==> !is_stale(alive, age, timeout),
        is_stale(alive, age, timeout) ==> is_stale(alive, later, timeout),
        is_stale(false, age, timeout),
{
}

/// The seconds between two times are their difference, where that fits.
pub proof fn elapsed_is_the_difference(from: i64, to: i64)
    ensures
        i64::MIN <= to - from <= i64::MAX ==> elapsed(from as int, to as int) == to - from,
        from <= to ==> elapsed(from as int, to as int) >= 0,
        from > to ==> elapsed(from as int, to as int) < 0,
{
}

/// The supervisor's ask about a run names that run and its task.
pub proof fn an_ask_about_a_run_names_it(ask: NewAsk, kind: AskKind, run: TaskRun)
    requires
        ask.is_about(kind, run),
    ensures
        ask.kind == kind,
        ask.task_id == Some(run.task_id),
        ask.run_id matches Some(id) && id@ == run.id@,
        ask.asked_by == Asker::Supervisor,
        ask.finding_id is None,
{
}

/// What is copied of a receipt is its result, its commit, its summary, what it
/// proposes and the whole of it.
pub proof fn the_same_receipt_says_the_same(a: Receipt, b: Receipt)
    requires
        a.same(b),
    ensures
        a.result == b.result,
        a.commit@ == b.commit@,
        a.summary@ == b.summary@,
        a.follow_ups is Some <==> b.follow_ups is Some,
        a.follow_ups is Some ==> a.follow_ups->0@ == b.follow_ups->0@,
        a.document@ == b.document@,
{
}

/// An error without a code of its own counts as one of the session's backend
/// where a workspace or a screen could not be used, and as no particular one
/// elsewhere.
pub proof fn only_backend_failures_blame_the_backend(failing: Failing)
    ensures
        failing.code() == ReasonCode::BackendFailed <==> failing == Failing::AcceptedWorkspace
            || failing == Failing::Screen,
        failing.code() == ReasonCode::BackendFailed || failing.code() == ReasonCode::Other,
{
}

} // verus!
