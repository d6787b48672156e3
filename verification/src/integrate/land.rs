//! The landing of one run: the rebase onto `main`, the re-validation, the
//! verification commands and the squash commit.
//!
//! [`land`] is a function of what has been done and observed so far: it
//! names the next thing to do, in order, until it can give its verdict.

use crate::domain::{EvidenceCheck, ReasonCode, ReceiptResult, Task, TaskRun};
use crate::integrate::logs;
use crate::integrate::receipt;
use crate::integrate::receipt::{Field, Outside, ReceiptRead};
use crate::json;
use crate::json::{Fields, Json};
use crate::text;
use vstd::prelude::*;
use vstd::string::*;

verus! {

/// How the rebase onto `main` ended.
pub enum Rebase {
    Done,
    /// It stopped, with what Git printed.
    Stopped { output: String },
}

/// What was done about the migration the run adds.
pub enum Renumbering {
    /// No migration the run adds has a number `main` has.
    Unchanged,
    /// The run's one migration moved to the next free number; its new head.
    Renumbered { head: String },
    /// A number is taken but cannot be moved mechanically; the reason for the
    /// session, with the numbers.
    Blocked { reason: String, detail: Json },
}

/// What kind of a failure a verification command had, as far as its tests go.
#[derive(Debug, Clone, Copy, PartialEq, Eq, Structural)]
pub enum FailureKind {
    /// Tests failed.
    TestFailure,
    /// It ran out of time.
    Timeout,
    Other,
}

/// Why a verification command failed, from its exit and its log.
pub struct Failure {
    pub kind: FailureKind,
    /// The class of the failure, and what shows it.
    pub class: String,
    pub evidence: String,
    /// The failure as recorded.
    pub report: Json,
    /// The tests its log names as failed, and how many more there are.
    pub tests: FailedTests,
}

impl Failure {
    /// Whether the tests its log names are recorded: tests failed, or it ran
    /// out of time.
    pub open spec fn counts_tests(self) -> bool {
        self.kind == FailureKind::TestFailure || self.kind == FailureKind::Timeout
    }
}

/// The tests a verification command names as failed.
pub struct FailedTests {
    pub names: Vec<String>,
    pub omitted: i64,
}

/// How a verification command ended.
pub struct CommandRun {
    /// Its exit code; none when a signal ended it.
    pub code: Option<i32>,
    pub signal: Option<i32>,
    /// Why it failed; read only where it did.
    pub failure: Failure,
    /// What it printed.
    pub output: String,
}

/// What has been done and observed of a landing so far.
#[derive(Default)]
pub struct Progress {
    pub is_dir: Option<bool>,
    pub repaired: bool,
    pub rebasing: Option<bool>,
    pub aborted: bool,
    pub abort_recorded: bool,
    pub branch: Option<Option<String>>,
    pub head: Option<String>,
    pub receipt: Option<ReceiptRead>,
    pub receipt_recorded: bool,
    pub status: Option<String>,
    pub rebase: Option<Rebase>,
    pub conflicts: Option<Vec<String>>,
    pub conflict_rebasing: Option<bool>,
    pub conflict_aborted: bool,
    pub rebased: Option<String>,
    pub rebase_recorded: bool,
    pub descends: Option<bool>,
    pub status_after: Option<String>,
    pub renumbering: Option<Renumbering>,
    /// The paths changed from main to what lands.
    pub changed: Option<Vec<String>>,
    pub outside: Option<Outside>,
    /// Why the programs of the run's environment cannot be run; `Some(None)`
    /// when they can.
    pub programs: Option<Option<String>>,
    pub environment: bool,
    pub attempt: Option<u32>,
    pub commands: Vec<CommandRun>,
    /// How many of `commands` are recorded.
    pub recorded: usize,
    pub tree: Option<String>,
    pub commit: Option<String>,
    pub history_kept: bool,
    pub advanced: bool,
}

/// What a landing does or looks at next.
pub enum Action {
    IsDir { worktree: String },
    /// Point the repository's record of a moved worktree at it again.
    RepairWorktree { worktree: String },
    RebaseInProgress { worktree: String },
    AbortRebase { worktree: String },
    /// Record an event of the run.
    Record { kind: &'static str, payload: Json },
    CurrentBranch { worktree: String },
    Head { worktree: String },
    ReadReceipt { path: String },
    Status { worktree: String },
    Rebase { worktree: String, onto: String },
    ConflictedFiles { worktree: String },
    Descends { ancestor: String, descendant: String },
    /// Renumber the migration the rebased run adds, where it must be.
    Renumber { main: String, rebased: String },
    ChangedPaths { from: String, to: String },
    /// Those of the changed paths that the allowed ones do not cover.
    Outside { allowed: Vec<String>, changed: Vec<String> },
    EnvironmentPrograms { run_dir: String },
    Environment { run_dir: String },
    /// The attempt the verification commands' logs are written under.
    NextAttempt { run_dir: String },
    RunCommand { command: String, log: String },
    Tree { commit: String },
    CommitTree { tree: String, parent: String, paragraphs: Vec<String> },
    UpdateRef { name: String, commit: String },
    AdvanceMain { from: String, to: String },
}

/// A run that waits for a session.
pub struct Deferral {
    pub reason: String,
    pub code: ReasonCode,
    /// The verification command that failed, from 1.
    pub index: Option<usize>,
    pub detail: Json,
}

/// A run that landed.
pub struct Landing {
    pub commit: String,
    pub source_commit: String,
    pub main_before: String,
    pub history_ref: String,
    pub message: String,
    pub verification_skipped: bool,
}

/// What a landing comes to with what has been done.
pub enum Step {
    Do(Action),
    /// The run lacks a field.
    Lacks(Field),
    /// The landing itself cannot go on; `main` has not moved.
    Stopped(String),
    /// Re-validation did not pass; the worktree is left for a session.
    Deferred(Deferral),
    /// The session's rewritten receipt reports `failed`.
    ReceiptFailed { reason: String, receipt: Json },
    /// It landed, with the follow-ups its receipt proposes.
    Landed { landing: Landing, follow_ups: Option<Json> },
}

/// Where a landing stands, without its texts.
pub ghost enum Stage {
    NoWorktree,
    NeedDir,
    WorktreeGone,
    NeedRepair,
    NoBranch,
    NoRunDir,
    NeedRebasing,
    NeedAbort,
    NeedAbortRecord,
    NeedBranch,
    OffBranch,
    NeedHead,
    NoReceiptPath,
    NeedReceipt,
    ReceiptUnread,
    ReceiptUnparsed,
    ReceiptMissing,
    ReceiptFailed,
    ReceiptFaulty,
    EvidenceMissing,
    NeedReceiptRecord,
    OtherHead,
    NeedStatus,
    Dirty,
    NeedRebase,
    NeedConflicts,
    NeedConflictRebasing,
    NeedConflictAbort,
    Conflicted,
    NeedRebased,
    NeedRebaseRecord,
    NothingLeft,
    NeedDescent,
    NotDescending,
    NeedStatusAfter,
    DirtyAfter,
    NeedRenumbering,
    Blocked,
    NeedChanged,
    NeedOutside,
    OutOfScope,
    NeedPrograms,
    ProgramMissing,
    NeedEnvironment,
    NeedAttempt,
    NeedCommandRecord,
    CommandFailed,
    NeedCommand,
    NeedTree,
    NeedCommit,
    NeedHistory,
    NeedAdvance,
    Landed,
}

/// The exit code a command's end counts as: that of a command a signal ended
/// is 128.
pub open spec fn exit_code(run: CommandRun) -> int {
    match run.code {
        Some(code) => code as int,
        None => 128,
    }
}

/// The head the run lands: the one the rebase gave, or the one its
/// migration's renumbering gave after that.
pub open spec fn landed_head(p: Progress) -> String {
    match p.renumbering {
        Some(Renumbering::Renumbered { head }) => head,
        _ => p.rebased->0,
    }
}

/// Where the landing stands: the first thing that is still to do or wrong, in
/// order.
pub open spec fn stage(task: Task, run: TaskRun, main: Seq<char>, p: Progress) -> Stage {
    if run.worktree_path is None {
        Stage::NoWorktree
    } else if p.is_dir is None {
        Stage::NeedDir
    } else if !p.is_dir->0 {
        Stage::WorktreeGone
    } else if !p.repaired {
        Stage::NeedRepair
    } else if run.branch is None {
        Stage::NoBranch
    } else if run.run_dir is None {
        Stage::NoRunDir
    } else if p.rebasing is None {
        Stage::NeedRebasing
    } else if p.rebasing->0 && !p.aborted {
        Stage::NeedAbort
    } else if p.rebasing->0 && !p.abort_recorded {
        Stage::NeedAbortRecord
    } else if p.branch is None {
        Stage::NeedBranch
    } else if !receipt::on_branch(p.branch->0, run.branch->0@) {
        Stage::OffBranch
    } else if p.head is None {
        Stage::NeedHead
    } else if run.receipt_path is None {
        Stage::NoReceiptPath
    } else if p.receipt is None {
        Stage::NeedReceipt
    } else {
        match p.receipt->0 {
            ReceiptRead::Missing => Stage::ReceiptMissing,
            ReceiptRead::Failed(_) => Stage::ReceiptUnread,
            ReceiptRead::Unparsed(_) => Stage::ReceiptUnparsed,
            ReceiptRead::Parsed(parsed) => if parsed.receipt.result == ReceiptResult::Failed {
                Stage::ReceiptFailed
            } else if parsed.fault is Some {
                Stage::ReceiptFaulty
            } else if parsed.missing@.len() > 0 {
                Stage::EvidenceMissing
            } else if !p.receipt_recorded {
                Stage::NeedReceiptRecord
            } else if p.head->0@ != text::lowered(parsed.receipt.commit@) {
                Stage::OtherHead
            } else if p.status is None {
                Stage::NeedStatus
            } else if receipt::is_dirty(p.status->0@) {
                Stage::Dirty
            } else {
                rebase_stage(task, main, p)
            },
        }
    }
}

/// Where a landing whose receipt holds stands.
pub open spec fn rebase_stage(task: Task, main: Seq<char>, p: Progress) -> Stage {
    if p.rebase is None {
        Stage::NeedRebase
    } else if p.rebase->0 is Stopped {
        if p.conflicts is None {
            Stage::NeedConflicts
        } else if p.conflict_rebasing is None {
            Stage::NeedConflictRebasing
        } else if p.conflict_rebasing->0 && !p.conflict_aborted {
            Stage::NeedConflictAbort
        } else {
            Stage::Conflicted
        }
    } else if p.rebased is None {
        Stage::NeedRebased
    } else if !p.rebase_recorded {
        Stage::NeedRebaseRecord
    } else if p.rebased->0@ == main {
        Stage::NothingLeft
    } else if p.descends is None {
        Stage::NeedDescent
    } else if !p.descends->0 {
        Stage::NotDescending
    } else if p.status_after is None {
        Stage::NeedStatusAfter
    } else if receipt::is_dirty(p.status_after->0@) {
        Stage::DirtyAfter
    } else if p.renumbering is None {
        Stage::NeedRenumbering
    } else if p.renumbering->0 is Blocked {
        Stage::Blocked
    } else if p.changed is None {
        Stage::NeedChanged
    } else if p.outside is None {
        Stage::NeedOutside
    } else if p.outside->0.paths@.len() > 0 {
        Stage::OutOfScope
    } else {
        verify_stage(task, p)
    }
}

/// Where a landing stands that has only its verification commands and its
/// commit left.
pub open spec fn verify_stage(task: Task, p: Progress) -> Stage {
    let commands = task.verification_commands@;
    let done = p.commands@;
    if commands.len() > 0 && p.programs is None {
        Stage::NeedPrograms
    } else if commands.len() > 0 && p.programs->0 is Some {
        Stage::ProgramMissing
    } else if commands.len() > 0 && !p.environment {
        Stage::NeedEnvironment
    } else if p.attempt is None {
        Stage::NeedAttempt
    } else if done.len() > p.recorded {
        Stage::NeedCommandRecord
    } else if done.len() > 0 && exit_code(done.last()) != 0 {
        Stage::CommandFailed
    } else if done.len() < commands.len() {
        Stage::NeedCommand
    } else if p.tree is None {
        Stage::NeedTree
    } else if p.commit is None {
        Stage::NeedCommit
    } else if !p.history_kept {
        Stage::NeedHistory
    } else if !p.advanced {
        Stage::NeedAdvance
    } else {
        Stage::Landed
    }
}

/// The files a rebase conflicted in, in words.
pub open spec fn conflict_names(conflicts: Seq<String>) -> Seq<char> {
    if conflicts.len() == 0 {
        "the run branch"@
    } else {
        text::joined(text::views(conflicts), ", "@)
    }
}

/// The ref a landed run's own history is kept under.
pub open spec fn history_ref(run: Seq<char>) -> Seq<char> {
    "refs/dagq/runs/"@ + run
}

/// The paragraphs of a landed run's commit: the title, the receipt's summary
/// where it has one, and the trailers that tie the commit to the queue.
pub open spec fn paragraphs(task: Task, run: TaskRun, summary: Seq<char>) -> Seq<Seq<char>> {
    let title = text::trimmed(task.title@);
    let trailers = "Dagq-Task: "@ + text::signed(task.id as int) + "\nDagq-Run: "@ + run.id@;
    if text::trimmed(summary).len() > 0 {
        seq![title, text::trimmed(summary), trailers]
    } else {
        seq![title, trailers]
    }
}

/// Title, the receipt's summary, and the trailers that tie the commit to the
/// queue, as paragraphs.
pub fn commit_message(task: &Task, run: &TaskRun, summary: &str) -> (r: Vec<String>)
    ensures
        text::views(r@) == paragraphs(*task, *run, summary@),
{
    let mut out: Vec<String> = Vec::new();
    let title = text::trim(task.title.as_str());
    out.push(title);
    let said = text::trim(summary);
    let id = text::integer(task.id);
    let trailers = "Dagq-Task: ".to_owned().concat(id.as_str()).concat("\nDagq-Run: ").concat(
        run.id.as_str(),
    );
    if !said.as_str().is_empty() {
        out.push(said);
    }
    out.push(trailers);
    assert(text::views(out@) =~= paragraphs(*task, *run, summary@));
    out
}

/// The names of the checks a receipt does not back.
pub open spec fn check_names(checks: Seq<EvidenceCheck>) -> Seq<Seq<char>> {
    checks.map_values(|c: EvidenceCheck| c.name())
}

/// The names of the checks a receipt does not back.
pub fn names_of(checks: &Vec<EvidenceCheck>) -> (r: Vec<String>)
    ensures
        text::views(r@) == check_names(checks@),
{
    let mut out: Vec<String> = Vec::new();
    let mut i: usize = 0;
    while i < checks.len()
        invariant
            i <= checks@.len(),
            text::views(out@) == check_names(checks@).take(i as int),
        decreases checks@.len() - i,
    {
        let ghost had = text::views(out@);
        out.push(checks[i].as_str().to_owned());
        assert(text::views(out@) =~= had.push(checks@[i as int].name()));
        assert(check_names(checks@).take(i + 1) =~= check_names(checks@).take(i as int).push(
            checks@[i as int].name(),
        ));
        i += 1;
    }
    assert(check_names(checks@).take(checks@.len() as int) =~= check_names(checks@));
    out
}

/// How a deferral's detail starts: the main it was held against and the head.
pub open spec fn held_at(main: Seq<char>, head: Seq<char>) -> Seq<(Seq<char>, json::Value)> {
    json::none().push(("main"@, json::Value::Text(main))).push(("head"@, json::Value::Text(head)))
}

/// An optional number as a value.
pub open spec fn int_or_null(o: Option<i32>) -> json::Value {
    match o {
        Some(n) => json::Value::Int(n as int),
        None => json::Value::Null,
    }
}

/// What is recorded of the tests that failed.
pub open spec fn tests_value(failure: Failure) -> json::Value {
    if failure.counts_tests() {
        json::list_of(text::views(failure.tests.names@))
    } else {
        json::Value::Null
    }
}

/// What is recorded of the failed tests that are not named.
pub open spec fn omitted_value(failure: Failure) -> json::Value {
    if failure.counts_tests() {
        json::Value::Int(failure.tests.omitted as int)
    } else {
        json::Value::Null
    }
}

/// The deferral of a landing that stands at `stage`.
pub open spec fn defers(
    task: Task,
    run: TaskRun,
    main: Seq<char>,
    p: Progress,
    stage: Stage,
    d: Deferral,
) -> bool {
    let read = p.receipt->0;
    let parsed = read->Parsed_0;
    let head = p.head->0@;
    let rebased = p.rebased->0@;
    let landed = landed_head(p)@;
    let only_head = json::none().push(("head"@, json::Value::Text(head)));
    &&& d.index == (if stage == Stage::CommandFailed {
        Some(p.commands@.len() as usize)
    } else {
        None
    })
    &&& match stage {
        Stage::OffBranch => d.code == ReasonCode::CommitMismatch && d.reason@
            == receipt::off_branch_reason(p.branch->0, run.branch->0@) && d.detail@
            == json::Value::Object(json::none()),
        Stage::ReceiptMissing => d.code == ReasonCode::ReceiptMissing && d.reason@
            == "receipt is missing at "@ + run.receipt_path->0@ && d.detail@ == json::Value::Object(
            json::none(),
        ),
        Stage::ReceiptUnparsed => d.code == read->Unparsed_0.code && d.reason
            == read->Unparsed_0.reason && d.detail@ == json::Value::Object(json::none()),
        Stage::ReceiptFaulty => d.code == parsed.fault->0.code && d.reason == parsed.fault->0.reason
            && d.detail@ == json::Value::Object(json::none()),
        Stage::EvidenceMissing => d.code == ReasonCode::EvidenceMissing && d.reason
            == parsed.missing_reason && d.detail@ == json::Value::Object(
            json::none().push(("checks"@, json::list_of(check_names(parsed.missing@)))),
        ),
        Stage::OtherHead => d.code == ReasonCode::CommitMismatch && d.reason@ == "receipt commit "@
            + parsed.receipt.commit@ + " is not the head of "@ + run.branch->0@ + " ("@ + head
            + "); rerun your checks and rewrite the receipt for the current head"@ && d.detail@
            == json::Value::Object(only_head),
        Stage::Dirty => d.code == ReasonCode::WorktreeDirty && d.reason@
            == "worktree is not clean:\n"@ + text::trimmed_end(p.status->0@) && d.detail@
            == json::Value::Object(only_head),
        Stage::Conflicted => d.code == ReasonCode::RebaseConflict && d.reason@
            == "rebase onto main "@ + main + " conflicted in "@ + conflict_names(p.conflicts->0@)
            + "; resolve it in the worktree (git rebase "@ + main
            + "), rerun your checks, and rewrite the receipt with the new head"@ && d.detail@
            == json::Value::Object(
            held_at(main, head).push(
                ("conflicts"@, json::list_of(text::views(p.conflicts->0@))),
            ).push(
                ("output_tail"@, json::Value::Text(text::tail_of(p.rebase->0->output@, 2000))),
            ).push(("aborted"@, json::Value::Bool(true))),
        ),
        Stage::NothingLeft => d.code == ReasonCode::RebaseEmpty && d.reason@
            == "no commit remains on top of main "@ + main
            + " after the rebase; if the change is no longer needed, write a failed receipt with the reason"@
            && d.detail@ == json::Value::Object(held_at(main, rebased)),
        Stage::DirtyAfter => d.code == ReasonCode::WorktreeDirty && d.reason@
            == "worktree is not clean after the rebase:\n"@ + text::trimmed_end(p.status_after->0@)
            && d.detail@ == json::Value::Object(held_at(main, rebased)),
        Stage::Blocked => d.code == ReasonCode::MigrationNumberTaken && d.reason
            == p.renumbering->0->reason && d.detail@ == p.renumbering->0->detail@,
        Stage::OutOfScope => d.code == ReasonCode::ScopeViolation && d.reason@
            == p.outside->0.reason@ + " after the rebase onto main "@ + main
            + "; take them out of the run branch (or ask for the task's --paths to be widened), commit, and rewrite the receipt with the new head"@
            && d.detail@ == json::Value::Object(
            held_at(main, landed).push(
                ("scope_violation"@, json::list_of(text::views(p.outside->0.paths@))),
            ).push(("allowed"@, json::list_of(text::views(task.paths@)))),
        ),
        Stage::CommandFailed => {
            let n = p.commands@.len() as int - 1;
            let ran = p.commands@[n];
            let command = task.verification_commands@[n]@;
            &&& d.code == ReasonCode::VerificationFailed
            &&& d.reason@ == "verification command "@ + text::debug_of(command) + " exited with "@
                + text::signed(exit_code(ran)) + " after the rebase onto "@ + main + " ("@
                + ran.failure.class@ + ": "@ + ran.failure.evidence@ + "); see "@ + log_path(
                run,
                p,
                n,
            )
            &&& d.detail@ == json::Value::Object(
                held_at(main, landed).push(("command"@, json::Value::Text(command))).push(
                    ("exit_code"@, json::Value::Int(exit_code(ran))),
                ).push(("signal"@, int_or_null(ran.signal))).push(
                    ("failure"@, ran.failure.report@),
                ).push(("failed_tests"@, tests_value(ran.failure))).push(
                    ("failed_tests_omitted"@, omitted_value(ran.failure)),
                ),
            )
        },
        _ => false,
    }
}

/// Where the log of command `n` (from 0) of this landing is written.
pub open spec fn log_path(run: TaskRun, p: Progress, n: int) -> Seq<char> {
    crate::path::under(run.run_dir->0@, logs::log_name(p.attempt->0 as nat, (n + 1) as nat))
}

/// What is recorded of the last verification command that ran, besides how
/// long it took and the load meanwhile.
pub open spec fn command_payload(task: Task, run: TaskRun, p: Progress) -> Seq<
    (Seq<char>, json::Value),
> {
    let n = p.commands@.len() as int - 1;
    let ran = p.commands@[n];
    let failed = exit_code(ran) != 0;
    json::none().push(("phase"@, json::Value::Text("integration"@))).push(
        ("attempt"@, json::Value::Int(p.attempt->0 as int)),
    ).push(("index"@, json::Value::Int(n + 1))).push(
        ("command"@, json::Value::Text(task.verification_commands@[n]@)),
    ).push(("exit_code"@, json::Value::Int(exit_code(ran)))).push(
        ("signal"@, int_or_null(ran.signal)),
    ).push(
        (
            "failure"@,
            if failed {
                ran.failure.report@
            } else {
                json::Value::Null
            },
        ),
    ).push(
        (
            "failed_tests"@,
            if failed {
                tests_value(ran.failure)
            } else {
                json::Value::Null
            },
        ),
    ).push(
        (
            "failed_tests_omitted"@,
            if failed {
                omitted_value(ran.failure)
            } else {
                json::Value::Null
            },
        ),
    ).push(("log_path"@, json::Value::Text(log_path(run, p, n)))).push(
        ("output_tail"@, json::Value::Text(text::tail_of(ran.output@, 2000))),
    )
}

/// What is done or looked at next in a landing that stands at `stage`.
pub open spec fn acts(
    task: Task,
    run: TaskRun,
    main: String,
    p: Progress,
    stage: Stage,
    a: Action,
) -> bool {
    let worktree = run.worktree_path->0;
    match stage {
        Stage::NeedDir => a == (Action::IsDir { worktree }),
        Stage::NeedRepair => a == (Action::RepairWorktree { worktree }),
        Stage::NeedRebasing | Stage::NeedConflictRebasing => a == (Action::RebaseInProgress {
            worktree,
        }),
        Stage::NeedAbort | Stage::NeedConflictAbort => a == (Action::AbortRebase { worktree }),
        Stage::NeedAbortRecord => a matches Action::Record { kind, payload } && kind@
            == "integration_rebase_aborted"@ && payload@ == json::Value::Object(
            json::none().push(
                ("code"@, json::Value::Text(ReasonCode::RebaseInProgress.name())),
            ).push(("reason"@, json::Value::Text("a rebase was left in progress"@))),
        ),
        Stage::NeedBranch => a == (Action::CurrentBranch { worktree }),
        Stage::NeedHead | Stage::NeedRebased => a == (Action::Head { worktree }),
        Stage::NeedReceipt => a == (Action::ReadReceipt { path: run.receipt_path->0 }),
        Stage::NeedReceiptRecord => a matches Action::Record { kind, payload } && kind@
            == "integration_receipt"@ && payload@ == json::Value::Object(
            json::none().push(("main"@, json::Value::Text(main@))).push(
                ("commit"@, json::Value::Text(p.receipt->0->Parsed_0.receipt.commit@)),
            ).push(("receipt"@, p.receipt->0->Parsed_0.receipt.document@)),
        ),
        Stage::NeedStatus | Stage::NeedStatusAfter => a == (Action::Status { worktree }),
        Stage::NeedRebase => a == (Action::Rebase { worktree, onto: main }),
        Stage::NeedConflicts => a == (Action::ConflictedFiles { worktree }),
        Stage::NeedRebaseRecord => a matches Action::Record { kind, payload } && kind@
            == "integration_rebased"@ && payload@ == json::Value::Object(
            json::none().push(("main"@, json::Value::Text(main@))).push(
                ("head_before"@, json::Value::Text(p.head->0@)),
            ).push(("head_after"@, json::Value::Text(p.rebased->0@))),
        ),
        Stage::NeedDescent => a == (Action::Descends { ancestor: main, descendant: p.rebased->0 }),
        Stage::NeedRenumbering => a == (Action::Renumber { main, rebased: p.rebased->0 }),
        Stage::NeedChanged => a == (Action::ChangedPaths { from: main, to: landed_head(p) }),
        Stage::NeedOutside => a matches Action::Outside { allowed, changed } && text::views(
            allowed@,
        ) == text::views(task.paths@) && text::views(changed@) == text::views(p.changed->0@),
        Stage::NeedPrograms => a == (Action::EnvironmentPrograms { run_dir: run.run_dir->0 }),
        Stage::NeedEnvironment => a == (Action::Environment { run_dir: run.run_dir->0 }),
        Stage::NeedAttempt => a == (Action::NextAttempt { run_dir: run.run_dir->0 }),
        Stage::NeedCommand => a matches Action::RunCommand { command, log } && command
            == task.verification_commands@[p.commands@.len() as int] && log@ == log_path(
            run,
            p,
            p.commands@.len() as int,
        ),
        Stage::NeedCommandRecord => a matches Action::Record { kind, payload } && kind@
            == "verification_command"@ && payload@ == json::Value::Object(
            command_payload(task, run, p),
        ),
        Stage::NeedTree => a == (Action::Tree { commit: landed_head(p) }),
        Stage::NeedCommit => a matches Action::CommitTree { tree, parent, paragraphs: said } && tree
            == p.tree->0 && parent == main && text::views(said@) == paragraphs(
            task,
            run,
            p.receipt->0->Parsed_0.receipt.summary@,
        ),
        Stage::NeedHistory => a matches Action::UpdateRef { name, commit } && name@ == history_ref(
            run.id@,
        ) && commit == landed_head(p),
        Stage::NeedAdvance => a == (Action::AdvanceMain { from: main, to: p.commit->0 }),
        _ => false,
    }
}

/// What the landing comes to where it stands at `stage`.
pub open spec fn lands(
    task: Task,
    run: TaskRun,
    main: String,
    p: Progress,
    stage: Stage,
    r: Step,
) -> bool {
    match stage {
        Stage::NoWorktree => r == Step::Lacks(Field::Worktree),
        Stage::NoBranch => r == Step::Lacks(Field::Branch),
        Stage::NoRunDir => r == Step::Lacks(Field::RunDirectory),
        Stage::NoReceiptPath => r == Step::Lacks(Field::ReceiptPath),
        Stage::WorktreeGone => r matches Step::Stopped(why) && why@ == "worktree "@
            + run.worktree_path->0@ + " is missing"@,
        Stage::NotDescending => r matches Step::Stopped(why) && why@ == "rebased head "@
            + p.rebased->0@ + " does not descend from main "@ + main@,
        Stage::ProgramMissing => r == Step::Stopped(p.programs->0->0),
        Stage::ReceiptUnread => r matches Step::Stopped(why) && why@ == "read receipt: "@
            + p.receipt->0->Failed_0@,
        Stage::ReceiptFailed => r matches Step::ReceiptFailed { reason, receipt } && reason@
            == "session reported the run as failed: "@ + p.receipt->0->Parsed_0.receipt.summary@
            && receipt@ == p.receipt->0->Parsed_0.receipt.document@,
        Stage::Landed => r matches Step::Landed { landing: l, follow_ups } && {
            &&& match p.receipt->0->Parsed_0.receipt.follow_ups {
                Some(proposed) => follow_ups matches Some(proposals) && proposals@ == proposed@,
                None => follow_ups is None,
            }
            &&& l.commit == p.commit->0
            &&& l.source_commit == landed_head(p)
            &&& l.main_before == main
            &&& l.history_ref@ == history_ref(run.id@)
            &&& l.message@ == text::joined(
                paragraphs(task, run, p.receipt->0->Parsed_0.receipt.summary@),
                "\n\n"@,
            )
            &&& !l.verification_skipped
        },
        Stage::OffBranch
        | Stage::ReceiptMissing
        | Stage::ReceiptUnparsed
        | Stage::ReceiptFaulty
        | Stage::EvidenceMissing
        | Stage::OtherHead
        | Stage::Dirty
        | Stage::Conflicted
        | Stage::NothingLeft
        | Stage::DirtyAfter
        | Stage::Blocked
        | Stage::OutOfScope
        | Stage::CommandFailed => r matches Step::Deferred(d) && defers(
            task,
            run,
            main@,
            p,
            stage,
            d,
        ),
        _ => r matches Step::Do(a) && acts(task, run, main, p, stage, a),
    }
}

impl Progress {
    /// Whether it has no more command ends than the task has commands.
    pub open spec fn fits(self, task: Task) -> bool {
        self.commands@.len() <= task.verification_commands@.len()
    }
}

/// A deferral without a failed command.
fn defer(code: ReasonCode, reason: String, detail: Json) -> (r: Step)
    ensures
        r is Deferred,
        r->Deferred_0.reason == reason,
        r->Deferred_0.code == code,
        r->Deferred_0.index is None,
        r->Deferred_0.detail == detail,
{
    Step::Deferred(Deferral { reason, code, index: None, detail })
}

/// The detail of a deferral held against `main` at `head`.
fn held(main: &str, head: &str) -> (r: Fields)
    ensures
        r@ == held_at(main@, head@),
{
    Fields::new().text("main", main).text("head", head)
}

/// Rebase, re-validate and land one run: the next thing to do, or the verdict
/// on the run. A deferral or a failed receipt is a verdict; a missing field or
/// a stop is a failure of the landing itself, before `main` moved.
pub fn land(task: &Task, run: &TaskRun, main: &String, p: &Progress) -> (r: Step)
    requires
        p.fits(*task),
    ensures
        lands(*task, *run, *main, *p, stage(*task, *run, main@, *p), r),
{
    let worktree = match &run.worktree_path {
        Some(worktree) => worktree,
        None => return Step::Lacks(Field::Worktree),
    };
    match p.is_dir {
        None => return Step::Do(Action::IsDir { worktree: worktree.clone() }),
        Some(is_dir) => if !is_dir {
            return Step::Stopped(
                "worktree ".to_owned().concat(worktree.as_str()).concat(" is missing"),
            );
        },
    }
    // A worktree whose queue directory moved is still found through its own
    // `.git` file, but the repository's record of it points at the old path
    // until repaired, and removing it after landing would fail.
    if !p.repaired {
        return Step::Do(Action::RepairWorktree { worktree: worktree.clone() });
    }
    let branch = match &run.branch {
        Some(branch) => branch,
        None => return Step::Lacks(Field::Branch),
    };
    if run.run_dir.is_none() {
        return Step::Lacks(Field::RunDirectory);
    }
    // A rebase left behind by a crashed landing or an unfinished session is
    // undone first.
    match p.rebasing {
        None => return Step::Do(Action::RebaseInProgress { worktree: worktree.clone() }),
        Some(rebasing) => if rebasing {
            if !p.aborted {
                return Step::Do(Action::AbortRebase { worktree: worktree.clone() });
            }
            if !p.abort_recorded {
                let payload = Fields::new().text(
                    "code",
                    ReasonCode::RebaseInProgress.as_str(),
                ).text("reason", "a rebase was left in progress").done();
                return Step::Do(Action::Record { kind: "integration_rebase_aborted", payload });
            }
        },
    }
    let current = match &p.branch {
        Some(current) => current,
        None => return Step::Do(Action::CurrentBranch { worktree: worktree.clone() }),
    };
    if let Some(why) = receipt::off_branch(current, branch.as_str()) {
        return defer(ReasonCode::CommitMismatch, why, Fields::new().done());
    }
    let head = match &p.head {
        Some(head) => head,
        None => return Step::Do(Action::Head { worktree: worktree.clone() }),
    };
    // The receipt must describe this head: the validated one for a fresh run,
    // the one the session rewrote after resolving otherwise.
    let receipt_path = match &run.receipt_path {
        Some(path) => path,
        None => return Step::Lacks(Field::ReceiptPath),
    };
    let read = match &p.receipt {
        Some(read) => read,
        None => return Step::Do(Action::ReadReceipt { path: receipt_path.clone() }),
    };
    let parsed = match read {
        ReceiptRead::Missing => {
            let reason = "receipt is missing at ".to_owned().concat(receipt_path.as_str());
            return defer(ReasonCode::ReceiptMissing, reason, Fields::new().done());
        },
        ReceiptRead::Failed(error) => {
            return Step::Stopped("read receipt: ".to_owned().concat(error.as_str()));
        },
        ReceiptRead::Unparsed(fault) => {
            return defer(fault.code, fault.reason.clone(), Fields::new().done());
        },
        ReceiptRead::Parsed(parsed) => parsed,
    };
    if parsed.receipt.result == ReceiptResult::Failed {
        let reason = "session reported the run as failed: ".to_owned().concat(
            parsed.receipt.summary.as_str(),
        );
        return Step::ReceiptFailed { reason, receipt: parsed.receipt.document.copy() };
    }
    if let Some(fault) = &parsed.fault {
        return defer(fault.code, fault.reason.clone(), Fields::new().done());
    }
    // A resumed session may have come back without the evidence it was asked
    // for; `checks` tells the next resume to ask for it again.
    if parsed.missing.len() > 0 {
        let names = names_of(&parsed.missing);
        let detail = Fields::new().texts("checks", &names).done();
        return defer(ReasonCode::EvidenceMissing, parsed.missing_reason.clone(), detail);
    }
    // The receipt read here is the one that lands, so it is recorded whatever
    // happens next.
    if !p.receipt_recorded {
        let payload = Fields::new().text("main", main.as_str()).text(
            "commit",
            parsed.receipt.commit.as_str(),
        ).with("receipt", parsed.receipt.document.copy()).done();
        return Step::Do(Action::Record { kind: "integration_receipt", payload });
    }
    let named = text::ascii_lower(parsed.receipt.commit.as_str());
    if !text::same(head.as_str(), named.as_str()) {
        let reason = "receipt commit ".to_owned().concat(parsed.receipt.commit.as_str()).concat(
            " is not the head of ",
        ).concat(branch.as_str()).concat(" (").concat(head.as_str()).concat(
            "); rerun your checks and rewrite the receipt for the current head",
        );
        let detail = Fields::new().text("head", head.as_str()).done();
        return defer(ReasonCode::CommitMismatch, reason, detail);
    }
    let status = match &p.status {
        Some(status) => status,
        None => return Step::Do(Action::Status { worktree: worktree.clone() }),
    };
    if !text::blank(status.as_str()) {
        let shown = text::trim_end(status.as_str());
        let reason = "worktree is not clean:\n".to_owned().concat(shown.as_str());
        let detail = Fields::new().text("head", head.as_str()).done();
        return defer(ReasonCode::WorktreeDirty, reason, detail);
    }
    land_rebased(task, run, main, p, worktree, head)
}

/// The part of a landing that starts with the rebase onto the current main, a
/// no-op when the run already sits on it.
fn land_rebased(
    task: &Task,
    run: &TaskRun,
    main: &String,
    p: &Progress,
    worktree: &String,
    head: &String,
) -> (r: Step)
    requires
        p.fits(*task),
        run.worktree_path == Some(*worktree),
        run.run_dir is Some,
        p.head == Some(*head),
        p.receipt is Some,
        p.receipt->0 is Parsed,
    ensures
        lands(*task, *run, *main, *p, rebase_stage(*task, main@, *p), r),
{
    match &p.rebase {
        None => {
            return Step::Do(Action::Rebase { worktree: worktree.clone(), onto: main.clone() });
        },
        Some(Rebase::Stopped { output }) => {
            let conflicts = match &p.conflicts {
                Some(conflicts) => conflicts,
                None => return Step::Do(Action::ConflictedFiles { worktree: worktree.clone() }),
            };
            match p.conflict_rebasing {
                None => {
                    return Step::Do(Action::RebaseInProgress { worktree: worktree.clone() });
                },
                Some(rebasing) => if rebasing && !p.conflict_aborted {
                    return Step::Do(Action::AbortRebase { worktree: worktree.clone() });
                },
            }
            let names = if conflicts.len() == 0 {
                "the run branch".to_owned()
            } else {
                text::join(conflicts, ", ")
            };
            let reason = "rebase onto main ".to_owned().concat(main.as_str()).concat(
                " conflicted in ",
            ).concat(names.as_str()).concat("; resolve it in the worktree (git rebase ").concat(
                main.as_str(),
            ).concat("), rerun your checks, and rewrite the receipt with the new head");
            let shown = text::tail(output.as_str(), 2000);
            let detail = held(main.as_str(), head.as_str()).texts("conflicts", conflicts).text(
                "output_tail",
                shown.as_str(),
            ).flag("aborted", true).done();
            return defer(ReasonCode::RebaseConflict, reason, detail);
        },
        Some(Rebase::Done) => {},
    }
    let rebased = match &p.rebased {
        Some(rebased) => rebased,
        None => return Step::Do(Action::Head { worktree: worktree.clone() }),
    };
    if !p.rebase_recorded {
        let payload = Fields::new().text("main", main.as_str()).text(
            "head_before",
            head.as_str(),
        ).text("head_after", rebased.as_str()).done();
        return Step::Do(Action::Record { kind: "integration_rebased", payload });
    }
    if text::same(rebased.as_str(), main.as_str()) {
        let reason = "no commit remains on top of main ".to_owned().concat(main.as_str()).concat(
            " after the rebase; if the change is no longer needed, write a failed receipt with the reason",
        );
        let detail = held(main.as_str(), rebased.as_str()).done();
        return defer(ReasonCode::RebaseEmpty, reason, detail);
    }
    match p.descends {
        None => {
            return Step::Do(
                Action::Descends { ancestor: main.clone(), descendant: rebased.clone() },
            );
        },
        Some(descends) => if !descends {
            return Step::Stopped(
                "rebased head ".to_owned().concat(rebased.as_str()).concat(
                    " does not descend from main ",
                ).concat(main.as_str()),
            );
        },
    }
    let status = match &p.status_after {
        Some(status) => status,
        None => return Step::Do(Action::Status { worktree: worktree.clone() }),
    };
    if !text::blank(status.as_str()) {
        let shown = text::trim_end(status.as_str());
        let reason = "worktree is not clean after the rebase:\n".to_owned().concat(shown.as_str());
        let detail = held(main.as_str(), rebased.as_str()).done();
        return defer(ReasonCode::WorktreeDirty, reason, detail);
    }
    // A migration the run adds under a number main took meanwhile would fail
    // the build with two files of one number.
    let landed = match &p.renumbering {
        None => {
            return Step::Do(Action::Renumber { main: main.clone(), rebased: rebased.clone() });
        },
        Some(Renumbering::Blocked { reason, detail }) => {
            return defer(ReasonCode::MigrationNumberTaken, reason.clone(), detail.copy());
        },
        Some(Renumbering::Renumbered { head }) => head,
        Some(Renumbering::Unchanged) => rebased,
    };
    // What lands is the squash of main..landed, so that is the diff held to
    // the task's paths: the rebase may have changed it since validation, and a
    // resumed session may have committed more.
    let changed = match &p.changed {
        Some(changed) => changed,
        None => {
            return Step::Do(Action::ChangedPaths { from: main.clone(), to: landed.clone() });
        },
    };
    let outside = match &p.outside {
        Some(outside) => outside,
        None => {
            return Step::Do(
                Action::Outside {
                    allowed: text::copied(&task.paths),
                    changed: text::copied(changed),
                },
            );
        },
    };
    if outside.paths.len() > 0 {
        let reason = outside.reason.clone().concat(" after the rebase onto main ").concat(
            main.as_str(),
        ).concat(
            "; take them out of the run branch (or ask for the task's --paths to be widened), commit, and rewrite the receipt with the new head",
        );
        let detail = held(main.as_str(), landed.as_str()).texts(
            "scope_violation",
            &outside.paths,
        ).texts("allowed", &task.paths).done();
        return defer(ReasonCode::ScopeViolation, reason, detail);
    }
    land_verified(task, run, main, p, landed)
}

/// The code a command's end counts as.
fn ended_with(run: &CommandRun) -> (r: i64)
    ensures
        r == exit_code(*run),
{
    match run.code {
        Some(code) => code as i64,
        None => 128,
    }
}

/// An optional number as a value.
fn number_or_null(o: &Option<i32>) -> (r: Json)
    ensures
        r@ == int_or_null(*o),
{
    match o {
        Some(n) => Json::Int(*n as i128),
        None => Json::Null,
    }
}

/// With what is recorded of the tests that failed.
fn with_tests(fields: Fields, failure: &Failure) -> (r: Fields)
    ensures
        r@ == fields@.push(("failed_tests"@, tests_value(*failure))).push(
            ("failed_tests_omitted"@, omitted_value(*failure)),
        ),
{
    if failure.kind == FailureKind::TestFailure || failure.kind == FailureKind::Timeout {
        fields.texts("failed_tests", &failure.tests.names).number(
            "failed_tests_omitted",
            failure.tests.omitted as i128,
        )
    } else {
        fields.with("failed_tests", Json::Null).with("failed_tests_omitted", Json::Null)
    }
}

/// The part of a landing that runs the task's verification commands on the
/// rebased tree, once per commit, and lands it.
fn land_verified(
    task: &Task,
    run: &TaskRun,
    main: &String,
    p: &Progress,
    landed: &String,
) -> (r: Step)
    requires
        p.fits(*task),
        run.run_dir is Some,
        p.receipt is Some,
        p.receipt->0 is Parsed,
        *landed == landed_head(*p),
    ensures
        lands(*task, *run, *main, *p, verify_stage(*task, *p), r),
{
    let run_dir = match &run.run_dir {
        Some(run_dir) => run_dir,
        None => return Step::Lacks(Field::RunDirectory),
    };
    let receipt = match &p.receipt {
        Some(ReceiptRead::Parsed(parsed)) => &parsed.receipt,
        _ => return Step::Lacks(Field::ReceiptPath),
    };
    if task.verification_commands.len() > 0 {
        // A program that cannot be executed would fail every command: stop
        // before them, so the run goes back without using a resume.
        match &p.programs {
            None => {
                return Step::Do(Action::EnvironmentPrograms { run_dir: run_dir.clone() });
            },
            Some(Some(message)) => return Step::Stopped(message.clone()),
            Some(None) => {},
        }
        if !p.environment {
            return Step::Do(Action::Environment { run_dir: run_dir.clone() });
        }
    }
    // Each attempt keeps its own logs, so a second landing of the run does not
    // overwrite why the first one failed.
    let attempt = match p.attempt {
        Some(attempt) => attempt,
        None => return Step::Do(Action::NextAttempt { run_dir: run_dir.clone() }),
    };
    let done = p.commands.len();
    if done > p.recorded {
        let ran = &p.commands[done - 1];
        let log = logs::integrate_verify_log(run_dir.as_str(), attempt, done);
        let shown = text::tail(ran.output.as_str(), 2000);
        let code = ended_with(ran);
        let fields = Fields::new().text("phase", "integration").number(
            "attempt",
            attempt as i128,
        ).number("index", done as i128).text(
            "command",
            task.verification_commands[done - 1].as_str(),
        ).number("exit_code", code as i128).with("signal", number_or_null(&ran.signal));
        let fields = if code != 0 {
            with_tests(fields.with("failure", ran.failure.report.copy()), &ran.failure)
        } else {
            fields.with("failure", Json::Null).with("failed_tests", Json::Null).with(
                "failed_tests_omitted",
                Json::Null,
            )
        };
        let payload = fields.text("log_path", log.as_str()).text(
            "output_tail",
            shown.as_str(),
        ).done();
        return Step::Do(Action::Record { kind: "verification_command", payload });
    }
    if done > 0 && ended_with(&p.commands[done - 1]) != 0 {
        let ran = &p.commands[done - 1];
        let command = &task.verification_commands[done - 1];
        let quoted = text::debug_text(command.as_str());
        let code = ended_with(ran);
        let shown = text::integer(code);
        let log = logs::integrate_verify_log(run_dir.as_str(), attempt, done);
        let reason = "verification command ".to_owned().concat(quoted.as_str()).concat(
            " exited with ",
        ).concat(shown.as_str()).concat(" after the rebase onto ").concat(main.as_str()).concat(
            " (",
        ).concat(ran.failure.class.as_str()).concat(": ").concat(
            ran.failure.evidence.as_str(),
        ).concat("); see ").concat(log.as_str());
        let fields = held(main.as_str(), landed.as_str()).text("command", command.as_str()).number(
            "exit_code",
            code as i128,
        ).with("signal", number_or_null(&ran.signal)).with("failure", ran.failure.report.copy());
        let detail = with_tests(fields, &ran.failure).done();
        return Step::Deferred(
            Deferral { reason, code: ReasonCode::VerificationFailed, index: Some(done), detail },
        );
    }
    if done < task.verification_commands.len() {
        let log = logs::integrate_verify_log(run_dir.as_str(), attempt, done + 1);
        return Step::Do(
            Action::RunCommand { command: task.verification_commands[done].clone(), log },
        );
    }
    // One commit on main with the rebased tree; the run's own history stays
    // reachable under its history ref.
    let tree = match &p.tree {
        Some(tree) => tree,
        None => return Step::Do(Action::Tree { commit: landed.clone() }),
    };
    let said = commit_message(task, run, receipt.summary.as_str());
    let commit = match &p.commit {
        Some(commit) => commit,
        None => {
            return Step::Do(
                Action::CommitTree { tree: tree.clone(), parent: main.clone(), paragraphs: said },
            );
        },
    };
    let history_ref = "refs/dagq/runs/".to_owned().concat(run.id.as_str());
    if !p.history_kept {
        return Step::Do(Action::UpdateRef { name: history_ref, commit: landed.clone() });
    }
    if !p.advanced {
        return Step::Do(Action::AdvanceMain { from: main.clone(), to: commit.clone() });
    }
    Step::Landed {
        landing: Landing {
            commit: commit.clone(),
            source_commit: landed.clone(),
            main_before: main.clone(),
            history_ref,
            message: text::join(&said, "\n\n"),
            verification_skipped: false,
        },
        follow_ups: match &receipt.follow_ups {
            Some(follow_ups) => Some(follow_ups.copy()),
            None => None,
        },
    }
}

/// Whether every command that ran passed, but for the last one, which may not
/// have.
pub open spec fn passed_but_last(p: Progress) -> bool {
    forall|i: int|
        0 <= i < p.commands@.len() as int - 1 ==> (#[trigger] p.commands@[i]).code == Some(0i32)
}

/// Whether the worktree is there, on the run's branch and with no rebase in
/// progress.
pub open spec fn worktree_stands(run: TaskRun, p: Progress) -> bool {
    &&& run.worktree_path is Some && run.branch is Some && run.run_dir is Some
    &&& p.is_dir == Some(true) && p.repaired
    &&& p.rebasing is Some && (p.rebasing->0 ==> p.aborted && p.abort_recorded)
    &&& p.branch matches Some(Some(current)) && current@ == "refs/heads/"@ + run.branch->0@
}

/// Whether the receipt is recorded and describes the clean head of a worktree
/// that stands.
pub open spec fn receipt_stands(run: TaskRun, p: Progress) -> bool {
    &&& worktree_stands(run, p)
    &&& run.receipt_path is Some
    &&& p.receipt matches Some(ReceiptRead::Parsed(parsed)) && parsed.receipt.result
        != ReceiptResult::Failed && parsed.fault is None && parsed.missing@.len() == 0 && (
    p.head matches Some(head) && head@ == text::lowered(parsed.receipt.commit@))
    &&& p.receipt_recorded
    &&& p.status matches Some(status) && text::is_blank(status@)
}

/// Whether the rebase gave a clean head with commits on `main` that are all
/// within the task's paths.
pub open spec fn rebase_stands(main: Seq<char>, p: Progress) -> bool {
    &&& p.rebase == Some(Rebase::Done)
    &&& p.rebased matches Some(rebased) && rebased@ != main
    &&& p.rebase_recorded
    &&& p.descends == Some(true)
    &&& p.status_after matches Some(status) && text::is_blank(status@)
    &&& p.renumbering is Some && p.renumbering->0 !is Blocked
    &&& p.changed is Some
    &&& p.outside matches Some(outside) && outside.paths@.len() == 0
}

/// Whether the verification commands can be run, or there are none.
pub open spec fn commands_can_run(task: Task, p: Progress) -> bool {
    &&& task.verification_commands@.len() > 0 ==> p.programs == Some(None::<String>)
        && p.environment
    &&& p.attempt is Some
}

/// Whether the last command that ran is recorded and exited with 0, or none
/// ran.
pub open spec fn last_passed(p: Progress) -> bool {
    &&& p.recorded >= p.commands@.len()
    &&& p.commands@.len() > 0 ==> p.commands@.last().code == Some(0i32)
}

/// A status report without a change is all white space.
proof fn clean_is_blank(s: Seq<char>)
    ensures
        receipt::is_dirty(s) <==> !text::is_blank(s),
{
    text::blank_is_all_space(s);
}

/// A landing runs its next command only after all before it exited with 0.
pub proof fn commands_run_while_they_pass(
    task: Task,
    run: TaskRun,
    main: String,
    before: Progress,
    r: Step,
    after: Progress,
)
    requires
        lands(task, run, main, before, stage(task, run, main@, before), r),
        r matches Step::Do(a) && a is RunCommand,
        passed_but_last(before),
        after.commands@.len() == before.commands@.len() + 1,
        after.commands@.drop_last() == before.commands@,
    ensures
        passed_but_last(after),
        forall|i: int|
            0 <= i < before.commands@.len() ==> (#[trigger] before.commands@[i]).code == Some(0i32),
{
    assert forall|i: int| 0 <= i < before.commands@.len() implies (
    #[trigger] before.commands@[i]).code == Some(0i32) by {
        if i == before.commands@.len() - 1 {
            assert(before.commands@[i] == before.commands@.last());
        }
    }
    assert forall|i: int| 0 <= i < after.commands@.len() as int - 1 implies (
    #[trigger] after.commands@[i]).code == Some(0i32) by {
        assert(after.commands@[i] == after.commands@.drop_last()[i]);
        assert(after.commands@[i] == before.commands@[i]);
    }
}

/// `main` moves only for a run whose receipt is sound, names the clean head of
/// its branch and does not report a failure, whose rebased head is clean,
/// descends from `main` and is not `main`, that changes nothing outside the
/// task's paths, and all of whose verification commands ran and exited with 0.
pub proof fn main_moves_only_for_a_verified_run(
    task: Task,
    run: TaskRun,
    main: Seq<char>,
    p: Progress,
)
    requires
        p.fits(task),
        passed_but_last(p),
        stage(task, run, main, p) == Stage::NeedAdvance || stage(task, run, main, p)
            == Stage::Landed,
    ensures
        receipt_stands(run, p),
        rebase_stands(main, p),
        commands_can_run(task, p),
        p.commands@.len() == task.verification_commands@.len(),
        p.recorded >= p.commands@.len(),
        forall|i: int|
            0 <= i < p.commands@.len() ==> (#[trigger] p.commands@[i]).code == Some(0i32),
        p.tree is Some,
        p.commit is Some,
        p.history_kept,
{
    clean_is_blank(p.status->0@);
    clean_is_blank(p.status_after->0@);
    assert forall|i: int| 0 <= i < p.commands@.len() implies (#[trigger] p.commands@[i]).code
        == Some(0i32) by {
        if i == p.commands@.len() - 1 {
            assert(p.commands@[i] == p.commands@.last());
        }
    }
}

/// What is done to a run's commits is done only when everything before it
/// holds, and then is done: the rebase onto `main` once the receipt stands,
/// the check of the paths once the rebase gave a clean head, each command once
/// the one before it exited with 0, the commit once all commands did, and
/// `main` moves from where it was to that commit.
pub proof fn each_step_waits_for_those_before(
    task: Task,
    run: TaskRun,
    main: String,
    p: Progress,
    r: Step,
)
    requires
        p.fits(task),
        lands(task, run, main, p, stage(task, run, main@, p), r),
    ensures
        (r matches Step::Do(a) && a is Rebase) <==> receipt_stands(run, p) && p.rebase is None,
        r matches Step::Do(Action::Rebase { worktree, onto }) ==> onto@ == main@ && worktree@
            == run.worktree_path->0@,
        (r matches Step::Do(a) && a is ConflictedFiles) <==> receipt_stands(run, p) && (
        p.rebase matches Some(Rebase::Stopped { .. })) && p.conflicts is None,
        (r matches Step::Do(a) && a is RunCommand) <==> receipt_stands(run, p) && rebase_stands(
            main@,
            p,
        ) && commands_can_run(task, p) && last_passed(p) && p.commands@.len()
            < task.verification_commands@.len(),
        r matches Step::Do(Action::RunCommand { command, log }) ==> command@
            == task.verification_commands@[p.commands@.len() as int]@,
        (r matches Step::Do(a) && a is Tree) <==> receipt_stands(run, p) && rebase_stands(main@, p)
            && commands_can_run(task, p) && last_passed(p) && p.commands@.len()
            == task.verification_commands@.len() && p.tree is None,
        (r matches Step::Do(a) && a is CommitTree) <==> receipt_stands(run, p) && rebase_stands(
            main@,
            p,
        ) && commands_can_run(task, p) && last_passed(p) && p.commands@.len()
            == task.verification_commands@.len() && p.tree is Some && p.commit is None,
        r matches Step::Do(Action::CommitTree { tree, parent, .. }) ==> tree == p.tree->0 && parent@
            == main@,
        (r matches Step::Do(a) && a is UpdateRef) <==> receipt_stands(run, p) && rebase_stands(
            main@,
            p,
        ) && commands_can_run(task, p) && last_passed(p) && p.commands@.len()
            == task.verification_commands@.len() && p.tree is Some && p.commit is Some
            && !p.history_kept,
        r matches Step::Do(Action::UpdateRef { name, .. }) ==> name@ == "refs/dagq/runs/"@ + run.id@,
        (r matches Step::Do(a) && a is AdvanceMain) <==> receipt_stands(run, p) && rebase_stands(
            main@,
            p,
        ) && commands_can_run(task, p) && last_passed(p) && p.commands@.len()
            == task.verification_commands@.len() && p.tree is Some && p.commit is Some
            && p.history_kept && !p.advanced,
        r matches Step::Do(Action::AdvanceMain { from, to }) ==> from@ == main@ && to@
            == p.commit->0@,
        r is Landed <==> receipt_stands(run, p) && rebase_stands(main@, p) && commands_can_run(
            task,
            p,
        ) && last_passed(p) && p.commands@.len() == task.verification_commands@.len() && p.tree
            is Some && p.commit is Some && p.history_kept && p.advanced,
        r matches Step::Landed { landing, follow_ups } ==> {
            &&& landing.commit@ == p.commit->0@
            &&& landing.main_before@ == main@
            &&& landing.history_ref@ == "refs/dagq/runs/"@ + run.id@
            &&& !landing.verification_skipped
            &&& (p.renumbering matches Some(Renumbering::Renumbered { head })
                ==> landing.source_commit@ == head@)
            &&& (p.renumbering matches Some(Renumbering::Unchanged) ==> landing.source_commit@
                == p.rebased->0@)
            &&& (follow_ups is Some <==> p.receipt->0->Parsed_0.receipt.follow_ups is Some)
            &&& (follow_ups is Some ==> follow_ups->0@
                == p.receipt->0->Parsed_0.receipt.follow_ups->0@)
        },
{
    clean_is_blank(p.status->0@);
    clean_is_blank(p.status_after->0@);
}

/// What is squashed, checked and kept is one head: the one the renumbering of
/// the migration gave, or else the one the rebase gave.
pub proof fn one_head_is_checked_and_landed(
    task: Task,
    run: TaskRun,
    main: String,
    p: Progress,
    r: Step,
    landed: String,
)
    requires
        lands(task, run, main, p, stage(task, run, main@, p), r),
        match p.renumbering {
            Some(Renumbering::Renumbered { head }) => landed == head,
            _ => p.rebased == Some(landed),
        },
    ensures
        r matches Step::Do(Action::ChangedPaths { from, to }) ==> from@ == main@ && to@ == landed@,
        r matches Step::Do(Action::Tree { commit }) ==> commit@ == landed@,
        r matches Step::Do(Action::UpdateRef { commit, .. }) ==> commit@ == landed@,
        r matches Step::Do(Action::Descends { ancestor, descendant }) ==> ancestor@ == main@
            && descendant@ == p.rebased->0@,
        r matches Step::Do(Action::Renumber { main: against, rebased }) ==> against@ == main@
            && rebased@ == p.rebased->0@,
        r matches Step::Do(Action::Outside { allowed, changed }) ==> text::views(allowed@)
            == text::views(task.paths@) && text::views(changed@) == text::views(p.changed->0@),
{
}

/// A command that exited with anything but 0, or that a signal ended, defers
/// the run: nothing more of it is run, and it is told which command it was.
pub proof fn a_failed_command_defers(
    task: Task,
    run: TaskRun,
    main: String,
    p: Progress,
    r: Step,
)
    requires
        p.fits(task),
        lands(task, run, main, p, stage(task, run, main@, p), r),
        receipt_stands(run, p),
        rebase_stands(main@, p),
        commands_can_run(task, p),
        p.recorded >= p.commands@.len(),
        p.commands@.len() > 0,
        p.commands@.last().code != Some(0i32),
    ensures
        r matches Step::Deferred(d) && d.code == ReasonCode::VerificationFailed && d.index == Some(
            p.commands@.len() as usize,
        ) && d.detail@ is Object && d.detail@->Object_0.len() == 8 && d.detail@->Object_0[2] == (
            "command"@,
            json::Value::Text(task.verification_commands@[p.commands@.len() - 1]@),
        ) && d.detail@->Object_0[3] == (
            "exit_code"@,
            json::Value::Int(
                match p.commands@.last().code {
                    Some(code) => code as int,
                    None => 128,
                },
            ),
        ) && d.detail@->Object_0[5] == ("failure"@, p.commands@.last().failure.report@),
{
    clean_is_blank(p.status->0@);
    clean_is_blank(p.status_after->0@);
}

/// Each command that ran is recorded before anything else is done, under its
/// place and with the code it exited with (128 where a signal ended it); a
/// failure is recorded with it exactly where that code is not 0.
pub proof fn a_command_is_recorded_as_it_ended(
    task: Task,
    run: TaskRun,
    main: String,
    p: Progress,
    r: Step,
)
    requires
        p.fits(task),
        lands(task, run, main, p, stage(task, run, main@, p), r),
        receipt_stands(run, p),
        rebase_stands(main@, p),
        commands_can_run(task, p),
        p.recorded < p.commands@.len(),
    ensures
        r matches Step::Do(Action::Record { kind, payload }) && kind@ == "verification_command"@
            && payload@ is Object && payload@->Object_0.len() == 11 && payload@->Object_0[1]
            == ("attempt"@, json::Value::Int(p.attempt->0 as int)) && payload@->Object_0[2] == (
            "index"@,
            json::Value::Int(p.commands@.len() as int),
        ) && payload@->Object_0[3] == (
            "command"@,
            json::Value::Text(task.verification_commands@[p.commands@.len() - 1]@),
        ) && payload@->Object_0[4] == (
            "exit_code"@,
            json::Value::Int(
                match p.commands@.last().code {
                    Some(code) => code as int,
                    None => 128,
                },
            ),
        ) && payload@->Object_0[5] == (
            "signal"@,
            match p.commands@.last().signal {
                Some(signal) => json::Value::Int(signal as int),
                None => json::Value::Null,
            },
        ) && payload@->Object_0[6] == (
            "failure"@,
            if p.commands@.last().code == Some(0i32) {
                json::Value::Null
            } else {
                p.commands@.last().failure.report@
            },
        ),
{
    clean_is_blank(p.status->0@);
    clean_is_blank(p.status_after->0@);
}

/// A run is deferred only for a cause that was observed, and the code names
/// it: each code comes with what was wrong, and what comes before it in the
/// landing was right.
pub proof fn a_deferral_names_its_cause(
    task: Task,
    run: TaskRun,
    main: String,
    p: Progress,
    r: Step,
)
    requires
        p.fits(task),
        lands(task, run, main, p, stage(task, run, main@, p), r),
        r is Deferred,
        p.receipt is None || p.receipt->0 is Missing || (p.receipt->0 matches ReceiptRead::Parsed(
            parsed,
        ) && (parsed.fault is None || parsed.receipt.result == ReceiptResult::Failed)),
    ensures
        match r->Deferred_0.code {
            ReasonCode::CommitMismatch => {
                ||| !worktree_stands(run, p) && (p.branch matches Some(current) && !(
                current matches Some(current) && current@ == "refs/heads/"@ + run.branch->0@))
                ||| worktree_stands(run, p) && (p.receipt matches Some(
                    ReceiptRead::Parsed(parsed),
                ) && p.head->0@ != text::lowered(parsed.receipt.commit@))
            },
            ReasonCode::ReceiptMissing => worktree_stands(run, p) && p.receipt == Some(
                ReceiptRead::Missing,
            ),
            ReasonCode::EvidenceMissing => worktree_stands(run, p) && (p.receipt matches Some(
                ReceiptRead::Parsed(parsed),
            ) && parsed.missing@.len() > 0),
            ReasonCode::WorktreeDirty => {
                ||| (p.status matches Some(status) && !text::is_blank(status@))
                ||| receipt_stands(run, p) && p.rebase == Some(Rebase::Done) && (
                p.status_after matches Some(status) && !text::is_blank(status@))
            },
            ReasonCode::RebaseConflict => receipt_stands(run, p) && (p.rebase matches Some(
                Rebase::Stopped { .. },
            )) && (p.conflict_rebasing is Some && (p.conflict_rebasing->0 ==> p.conflict_aborted)),
            ReasonCode::RebaseEmpty => receipt_stands(run, p) && p.rebase == Some(Rebase::Done)
                && p.rebased->0@ == main@,
            ReasonCode::MigrationNumberTaken => receipt_stands(run, p) && (
            p.renumbering matches Some(Renumbering::Blocked { .. })),
            ReasonCode::ScopeViolation => receipt_stands(run, p) && (p.outside matches Some(outside)
                && outside.paths@.len() > 0),
            ReasonCode::VerificationFailed => receipt_stands(run, p) && rebase_stands(main@, p)
                && p.commands@.len() > 0 && p.commands@.last().code != Some(0i32),
            _ => false,
        },
        r->Deferred_0.index is Some <==> r->Deferred_0.code == ReasonCode::VerificationFailed,
{
    clean_is_blank(p.status->0@);
    clean_is_blank(p.status_after->0@);
}

/// A worktree that is not as its receipt says is not landed: off its branch,
/// at another head, with a receipt that is missing, faulty, unbacked or
/// reports a failure, or with a change in it.
pub proof fn an_unsound_run_is_not_landed(
    task: Task,
    run: TaskRun,
    main: String,
    p: Progress,
    r: Step,
)
    requires
        p.fits(task),
        lands(task, run, main, p, stage(task, run, main@, p), r),
        worktree_stands(run, p),
        run.receipt_path is Some,
        p.head is Some,
    ensures
        p.receipt == Some(ReceiptRead::Missing) ==> (r matches Step::Deferred(d) && d.code
            == ReasonCode::ReceiptMissing),
        p.receipt matches Some(ReceiptRead::Failed(_)) ==> r is Stopped,
        p.receipt matches Some(ReceiptRead::Unparsed(fault)) ==> (r matches Step::Deferred(d)
            && d.code == fault.code && d.reason@ == fault.reason@),
        p.receipt matches Some(ReceiptRead::Parsed(parsed)) ==> {
            &&& r is ReceiptFailed <==> parsed.receipt.result == ReceiptResult::Failed
            &&& (parsed.receipt.result != ReceiptResult::Failed && parsed.fault is Some ==> (
            r matches Step::Deferred(d) && d.code == parsed.fault->0.code && d.reason@
                == parsed.fault->0.reason@))
            &&& (parsed.receipt.result != ReceiptResult::Failed && parsed.fault is None
                && parsed.missing@.len() > 0 ==> (r matches Step::Deferred(d) && d.code
                == ReasonCode::EvidenceMissing && d.reason@ == parsed.missing_reason@))
            &&& (parsed.receipt.result != ReceiptResult::Failed && parsed.fault is None
                && parsed.missing@.len() == 0 && p.receipt_recorded && p.head->0@ != text::lowered(
                parsed.receipt.commit@,
            ) ==> (r matches Step::Deferred(d) && d.code == ReasonCode::CommitMismatch))
        },
        r matches Step::ReceiptFailed { reason, receipt } ==> receipt@
            == p.receipt->0->Parsed_0.receipt.document@ && reason@
            == "session reported the run as failed: "@ + p.receipt->0->Parsed_0.receipt.summary@,
{
}

/// A landing stops before `main` moves where the worktree is gone, the receipt
/// cannot be read, what the rebase gave does not descend from `main` or a
/// program cannot be run, and nowhere else.
pub proof fn a_landing_stops_only_for_a_failure(
    task: Task,
    run: TaskRun,
    main: String,
    p: Progress,
    r: Step,
)
    requires
        lands(task, run, main, p, stage(task, run, main@, p), r),
        r is Stopped,
    ensures
        ({
            ||| p.is_dir == Some(false)
            ||| p.receipt matches Some(ReceiptRead::Failed(_))
            ||| receipt_stands(run, p) && p.descends == Some(false)
            ||| receipt_stands(run, p) && rebase_stands(main@, p)
                && task.verification_commands@.len() > 0 && (p.programs matches Some(Some(_)))
        }),
{
    clean_is_blank(p.status->0@);
    clean_is_blank(p.status_after->0@);
}

/// A commit's message is its title, its summary where it has one, and the
/// trailers that name the task and the run.
pub proof fn a_message_names_task_and_run(task: Task, run: TaskRun, summary: Seq<char>)
    ensures
        paragraphs(task, run, summary)[0] == text::trimmed(task.title@),
        paragraphs(task, run, summary).last() == "Dagq-Task: "@ + text::signed(task.id as int)
            + "\nDagq-Run: "@ + run.id@,
        paragraphs(task, run, summary).len() == (if text::is_blank(summary) {
            2int
        } else {
            3
        }),
        !text::is_blank(summary) ==> paragraphs(task, run, summary)[1] == text::trimmed(summary),
{
    text::blank_is_all_space(summary);
}

} // verus!
