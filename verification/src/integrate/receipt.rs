//! The cross-check of an agent's receipt against Git.
//!
//! [`check_receipt`] is a function of what has been observed so far: it asks
//! for the next observation it needs, in order, until it can rule on the run.

use crate::domain::{EvidenceCheck, ReasonCode, Receipt, Task, TaskRun};
use crate::text;
use vstd::prelude::*;
use vstd::string::*;

verus! {

/// Why validation did not accept a run's receipt, with what it could verify
/// on the way.
pub struct Rejection {
    pub reason: String,
    /// The code of `reason`.
    pub code: ReasonCode,
    pub commit: Option<String>,
    /// The receipt, where it could be read and parsed.
    pub receipt: Option<Receipt>,
    /// The task's required checks the receipt does not back, when that is
    /// all that is wrong: the run waits for a session instead of failing.
    pub evidence_missing: Vec<EvidenceCheck>,
    /// The changed paths outside the task's paths, when the run is otherwise
    /// sound: it waits for a session to take them out.
    pub scope_violation: Vec<String>,
}

/// What is wrong with a receipt in itself.
pub struct Fault {
    pub code: ReasonCode,
    pub reason: String,
}

/// A receipt that parsed, with how it stands against its run and the checks
/// its task requires.
pub struct Parsed {
    pub receipt: Receipt,
    /// Why it does not fit its run and the required checks, if it does not.
    pub fault: Option<Fault>,
    /// The required checks it does not back, and that as a sentence.
    pub missing: Vec<EvidenceCheck>,
    pub missing_reason: String,
}

/// What reading the receipt's file gave.
pub enum ReceiptRead {
    /// There is no such file.
    Missing,
    /// It could not be read.
    Failed(String),
    /// The file holds no receipt.
    Unparsed(Fault),
    Parsed(Parsed),
}

/// The changed paths outside the task's paths, and that as a sentence.
pub struct Outside {
    pub paths: Vec<String>,
    pub reason: String,
}

/// What has been observed of a run's receipt and worktree so far: what each
/// look gave, or why it failed.
#[derive(Default)]
pub struct Observed {
    pub receipt: Option<ReceiptRead>,
    /// The branch checked out in the worktree; none is a detached head.
    pub branch: Option<Result<Option<String>, String>>,
    pub head: Option<Result<String, String>>,
    /// Whether the head descends from the base commit.
    pub descends: Option<Result<bool, String>>,
    pub status: Option<Result<String, String>>,
    /// The head of main.
    pub main: Option<Result<String, String>>,
    /// Where the run's branch forked from main.
    pub fork: Option<Result<Option<String>, String>>,
    /// The paths the run changed since it forked from main.
    pub changed: Option<Result<Vec<String>, String>>,
    /// Those of them outside the task's paths.
    pub outside: Option<Outside>,
}

/// The next observation a check needs.
pub enum Question {
    ReadReceipt { path: String },
    CurrentBranch { worktree: String },
    Head { worktree: String },
    Descends { ancestor: String, descendant: String },
    Status { worktree: String },
    MainHead,
    MergeBase { main: String, commit: String },
    ChangedPaths { from: String, to: String },
    /// Those of the changed paths that the allowed ones do not cover.
    Outside { allowed: Vec<String>, changed: Vec<String> },
}

/// A field the run should have by now.
#[derive(Debug, Clone, Copy, PartialEq, Eq, Structural)]
pub enum Field {
    ReceiptPath,
    Worktree,
    Branch,
    RunDirectory,
}

impl Field {
    /// What is said of a run that lacks it.
    pub open spec fn missing(self) -> Seq<char> {
        match self {
            Field::ReceiptPath => "missing receipt path"@,
            Field::Worktree => "missing worktree"@,
            Field::Branch => "missing branch"@,
            Field::RunDirectory => "missing run directory"@,
        }
    }

    /// What is said of a run that lacks it.
    pub fn message(&self) -> (r: &'static str)
        ensures
            r@ == self.missing(),
    {
        match self {
            Field::ReceiptPath => "missing receipt path",
            Field::Worktree => "missing worktree",
            Field::Branch => "missing branch",
            Field::RunDirectory => "missing run directory",
        }
    }
}

/// What a check comes to with what has been observed.
pub enum Checked {
    Ask(Question),
    /// The run lacks a field: the check itself fails.
    Lacks(Field),
    /// A look failed, and so the check itself.
    Failed(String),
    Rejected(Rejection),
    /// The receipt names the clean head of the run branch.
    Accepted { receipt: Receipt, commit: String },
}

/// How a check stands, without its texts.
pub ghost enum Ruling {
    NoReceiptPath,
    NeedReceipt,
    ReceiptUnread,
    ReceiptMissing,
    ReceiptUnparsed,
    ReceiptFaulty,
    NoWorktree,
    NoBranch,
    NeedBranch,
    BranchUnread,
    OffBranch,
    NeedHead,
    HeadUnread,
    OtherHead,
    NothingNew,
    NeedDescent,
    DescentUnread,
    NotDescending,
    NeedStatus,
    StatusUnread,
    Dirty,
    NeedMain,
    MainUnread,
    NeedFork,
    ForkUnread,
    NoFork,
    NeedChanged,
    ChangedUnread,
    NeedOutside,
    OutOfScope,
    EvidenceMissing,
    Sound,
}

/// The full name of a branch.
pub open spec fn branch_ref(branch: Seq<char>) -> Seq<char> {
    "refs/heads/"@ + branch
}

/// Whether the worktree has the branch checked out.
pub open spec fn on_branch(current: Option<String>, branch: Seq<char>) -> bool {
    current matches Some(current) && current@ == branch_ref(branch)
}

/// Whether a status report names a change.
pub open spec fn is_dirty(status: Seq<char>) -> bool {
    text::trimmed(status).len() > 0
}

/// How the check of what a run changed stands; `Sound` where it is all within
/// the task's paths, or they allow all.
pub open spec fn scope_ruling(task: Task, seen: Observed) -> Ruling {
    if task.paths@.len() == 0 {
        Ruling::Sound
    } else if seen.main is None {
        Ruling::NeedMain
    } else if seen.main->0 is Err {
        Ruling::MainUnread
    } else if seen.fork is None {
        Ruling::NeedFork
    } else if seen.fork->0 is Err {
        Ruling::ForkUnread
    } else if seen.fork->0->Ok_0 is None {
        Ruling::NoFork
    } else if seen.changed is None {
        Ruling::NeedChanged
    } else if seen.changed->0 is Err {
        Ruling::ChangedUnread
    } else if seen.outside is None {
        Ruling::NeedOutside
    } else if seen.outside->0.paths@.len() > 0 {
        Ruling::OutOfScope
    } else {
        Ruling::Sound
    }
}

/// How the check of `run` stands: the first thing that is missing or wrong,
/// in the order they are looked at.
pub open spec fn ruling(task: Task, run: TaskRun, seen: Observed) -> Ruling {
    if run.receipt_path is None {
        Ruling::NoReceiptPath
    } else if seen.receipt is None {
        Ruling::NeedReceipt
    } else {
        match seen.receipt->0 {
            ReceiptRead::Missing => Ruling::ReceiptMissing,
            ReceiptRead::Failed(_) => Ruling::ReceiptUnread,
            ReceiptRead::Unparsed(_) => Ruling::ReceiptUnparsed,
            ReceiptRead::Parsed(parsed) => if parsed.fault is Some {
                Ruling::ReceiptFaulty
            } else if run.worktree_path is None {
                Ruling::NoWorktree
            } else if run.branch is None {
                Ruling::NoBranch
            } else if seen.branch is None {
                Ruling::NeedBranch
            } else if seen.branch->0 is Err {
                Ruling::BranchUnread
            } else if !on_branch(seen.branch->0->Ok_0, run.branch->0@) {
                Ruling::OffBranch
            } else if seen.head is None {
                Ruling::NeedHead
            } else if seen.head->0 is Err {
                Ruling::HeadUnread
            } else if seen.head->0->Ok_0@ != text::lowered(parsed.receipt.commit@) {
                Ruling::OtherHead
            } else if seen.head->0->Ok_0@ == run.base_commit@ {
                Ruling::NothingNew
            } else if seen.descends is None {
                Ruling::NeedDescent
            } else if seen.descends->0 is Err {
                Ruling::DescentUnread
            } else if !seen.descends->0->Ok_0 {
                Ruling::NotDescending
            } else if seen.status is None {
                Ruling::NeedStatus
            } else if seen.status->0 is Err {
                Ruling::StatusUnread
            } else if is_dirty(seen.status->0->Ok_0@) {
                Ruling::Dirty
            } else if scope_ruling(task, seen) != Ruling::Sound {
                scope_ruling(task, seen)
            } else if parsed.missing@.len() > 0 {
                Ruling::EvidenceMissing
            } else {
                Ruling::Sound
            },
        }
    }
}

/// Where the worktree is, in words.
pub open spec fn place(current: Option<String>) -> Seq<char> {
    match current {
        Some(current) => current@,
        None => "a detached HEAD"@,
    }
}

/// Why a worktree is not on its run's branch.
pub open spec fn off_branch_reason(current: Option<String>, branch: Seq<char>) -> Seq<char> {
    "worktree is on "@ + place(current) + " instead of "@ + branch_ref(branch)
}

/// The reason, code and commit of a rejection with this ruling.
pub open spec fn rejects(run: TaskRun, seen: Observed, ruling: Ruling, r: Rejection) -> bool {
    let read = seen.receipt->0;
    let parsed = read->Parsed_0;
    let head = seen.head->0->Ok_0;
    &&& if ruling == Ruling::ReceiptMissing || ruling == Ruling::ReceiptUnparsed {
        r.receipt is None
    } else {
        r.receipt matches Some(receipt) && parsed.receipt.same(receipt)
    }
    &&& r.evidence_missing@ == (if ruling == Ruling::EvidenceMissing {
        parsed.missing@
    } else {
        Seq::empty()
    })
    &&& r.scope_violation@ == (if ruling == Ruling::OutOfScope {
        seen.outside->0.paths@
    } else {
        Seq::empty()
    })
    &&& match ruling {
        Ruling::ReceiptMissing => r.code == ReasonCode::ReceiptMissing && r.commit is None
            && r.reason@ == "receipt was not submitted at "@ + run.receipt_path->0@,
        Ruling::ReceiptUnparsed => r.code == read->Unparsed_0.code && r.commit is None && r.reason
            == read->Unparsed_0.reason,
        Ruling::ReceiptFaulty => r.code == parsed.fault->0.code && r.commit is None && r.reason
            == parsed.fault->0.reason,
        Ruling::OffBranch => r.code == ReasonCode::CommitMismatch && r.commit is None && r.reason@
            == off_branch_reason(seen.branch->0->Ok_0, run.branch->0@),
        Ruling::OtherHead => r.code == ReasonCode::CommitMismatch && r.commit is None && r.reason@
            == "receipt commit "@ + parsed.receipt.commit@ + " is not the head of "@
            + run.branch->0@ + " ("@ + head@ + ")"@,
        Ruling::NothingNew => r.code == ReasonCode::CommitMismatch && r.commit == Some(head)
            && r.reason@ == "no commit was made on top of base "@ + run.base_commit@,
        Ruling::NotDescending => r.code == ReasonCode::CommitMismatch && r.commit == Some(head)
            && r.reason@ == "commit "@ + head@ + " does not descend from base "@ + run.base_commit@,
        Ruling::Dirty => r.code == ReasonCode::WorktreeDirty && r.commit == Some(head) && r.reason@
            == "worktree is not clean:\n"@ + text::trimmed_end(seen.status->0->Ok_0@),
        Ruling::OutOfScope => r.code == ReasonCode::ScopeViolation && r.commit == Some(head)
            && r.reason == seen.outside->0.reason,
        Ruling::EvidenceMissing => r.code == ReasonCode::EvidenceMissing && r.commit == Some(head)
            && r.reason == parsed.missing_reason,
        _ => false,
    }
}

/// Why a check that stands at `ruling` fails in itself, where a look failed.
pub open spec fn failure(seen: Observed, ruling: Ruling) -> Option<Seq<char>> {
    match ruling {
        Ruling::ReceiptUnread => Some("read receipt: "@ + seen.receipt->0->Failed_0@),
        Ruling::BranchUnread => Some(seen.branch->0->Err_0@),
        Ruling::HeadUnread => Some(seen.head->0->Err_0@),
        Ruling::DescentUnread => Some(seen.descends->0->Err_0@),
        Ruling::StatusUnread => Some(seen.status->0->Err_0@),
        Ruling::MainUnread => Some(seen.main->0->Err_0@),
        Ruling::ForkUnread => Some(seen.fork->0->Err_0@),
        Ruling::NoFork => Some("the run branch shares no history with main"@),
        Ruling::ChangedUnread => Some(seen.changed->0->Err_0@),
        _ => None,
    }
}

/// The observation a check that stands at `ruling` asks for.
pub open spec fn asks_for(
    task: Task,
    run: TaskRun,
    seen: Observed,
    ruling: Ruling,
    r: Question,
) -> bool {
    match ruling {
        Ruling::NeedReceipt => r == (Question::ReadReceipt { path: run.receipt_path->0 }),
        Ruling::NeedBranch => r == (Question::CurrentBranch { worktree: run.worktree_path->0 }),
        Ruling::NeedHead => r == (Question::Head { worktree: run.worktree_path->0 }),
        Ruling::NeedDescent => r == (Question::Descends {
            ancestor: run.base_commit,
            descendant: seen.head->0->Ok_0,
        }),
        Ruling::NeedStatus => r == (Question::Status { worktree: run.worktree_path->0 }),
        Ruling::NeedMain => r is MainHead,
        Ruling::NeedFork => r == (Question::MergeBase {
            main: seen.main->0->Ok_0,
            commit: seen.head->0->Ok_0,
        }),
        Ruling::NeedChanged => r == (Question::ChangedPaths {
            from: seen.fork->0->Ok_0->0,
            to: seen.head->0->Ok_0,
        }),
        Ruling::NeedOutside => r matches Question::Outside { allowed, changed } && text::views(
            allowed@,
        ) == text::views(task.paths@) && text::views(changed@) == text::views(
            seen.changed->0->Ok_0@,
        ),
        _ => false,
    }
}

/// What the check comes to where it stands at `ruling`.
pub open spec fn rules(
    task: Task,
    run: TaskRun,
    seen: Observed,
    ruling: Ruling,
    r: Checked,
) -> bool {
    if asks(ruling) {
        r matches Checked::Ask(question) && asks_for(task, run, seen, ruling, question)
    } else if failure(seen, ruling) is Some {
        r matches Checked::Failed(why) && why@ == failure(seen, ruling)->0
    } else {
        match ruling {
            Ruling::NoReceiptPath => r == Checked::Lacks(Field::ReceiptPath),
            Ruling::NoWorktree => r == Checked::Lacks(Field::Worktree),
            Ruling::NoBranch => r == Checked::Lacks(Field::Branch),
            Ruling::Sound => r matches Checked::Accepted { receipt, commit } && commit
                == seen.head->0->Ok_0 && seen.receipt->0->Parsed_0.receipt.same(receipt),
            _ => r matches Checked::Rejected(rejection) && rejects(run, seen, ruling, rejection),
        }
    }
}

/// The full name of a branch.
pub fn full_branch(branch: &str) -> (r: String)
    ensures
        r@ == branch_ref(branch@),
{
    "refs/heads/".to_owned().concat(branch)
}

/// Why a worktree is not on its run's branch; `None` when it is.
pub fn off_branch(current: &Option<String>, branch: &str) -> (r: Option<String>)
    ensures
        match r {
            Some(why) => !on_branch(*current, branch@) && why@ == off_branch_reason(
                *current,
                branch@,
            ),
            None => on_branch(*current, branch@),
        },
{
    let expected = full_branch(branch);
    let place: &str = match current {
        Some(current) => {
            if text::same(current.as_str(), expected.as_str()) {
                return None;
            }
            current.as_str()
        },
        None => "a detached HEAD",
    };
    Some("worktree is on ".to_owned().concat(place).concat(" instead of ").concat(expected.as_str()))
}

/// A rejection that leaves nothing for a session to add.
fn reject(
    code: ReasonCode,
    reason: String,
    commit: Option<String>,
    receipt: Option<Receipt>,
) -> (r: Checked)
    ensures
        r == Checked::Rejected(r->Rejected_0),
        r->Rejected_0.reason == reason,
        r->Rejected_0.code == code,
        r->Rejected_0.commit == commit,
        r->Rejected_0.receipt == receipt,
        r->Rejected_0.evidence_missing@ == Seq::<EvidenceCheck>::empty(),
        r->Rejected_0.scope_violation@ == Seq::<String>::empty(),
{
    Checked::Rejected(
        Rejection {
            reason,
            code,
            commit,
            receipt,
            evidence_missing: Vec::new(),
            scope_violation: Vec::new(),
        },
    )
}

/// An equal list of checks.
pub fn same_checks(list: &Vec<EvidenceCheck>) -> (r: Vec<EvidenceCheck>)
    ensures
        r@ == list@,
{
    let mut out: Vec<EvidenceCheck> = Vec::new();
    let mut i: usize = 0;
    while i < list.len()
        invariant
            i <= list@.len(),
            out@ == list@.take(i as int),
        decreases list@.len() - i,
    {
        out.push(list[i]);
        assert(list@.take(i + 1) =~= list@.take(i as int).push(list@[i as int]));
        i += 1;
    }
    assert(list@.take(list@.len() as int) =~= list@);
    out
}

/// What the check of what a run changed, since it forked from the current main,
/// comes to; none where it is all within the task's paths. A resumed session
/// that rebased carries what other tasks landed since the base commit, which is
/// not its change.
fn check_scope(
    task: &Task,
    run: &TaskRun,
    head: &String,
    receipt: &Receipt,
    seen: &Observed,
) -> (r: Option<Checked>)
    requires
        seen.head == Some(Ok::<String, String>(*head)),
        seen.receipt matches Some(ReceiptRead::Parsed(parsed)) && parsed.receipt == *receipt,
    ensures
        match r {
            Some(checked) => scope_ruling(*task, *seen) != Ruling::Sound && rules(
                *task,
                *run,
                *seen,
                scope_ruling(*task, *seen),
                checked,
            ),
            None => scope_ruling(*task, *seen) == Ruling::Sound,
        },
{
    if task.paths.len() == 0 {
        return None;
    }
    let main = match &seen.main {
        None => return Some(Checked::Ask(Question::MainHead)),
        Some(Err(error)) => return Some(Checked::Failed(error.clone())),
        Some(Ok(main)) => main,
    };
    let fork = match &seen.fork {
        None => {
            return Some(
                Checked::Ask(Question::MergeBase { main: main.clone(), commit: head.clone() }),
            );
        },
        Some(Err(error)) => return Some(Checked::Failed(error.clone())),
        Some(Ok(None)) => {
            return Some(Checked::Failed("the run branch shares no history with main".to_owned()));
        },
        Some(Ok(Some(fork))) => fork,
    };
    let changed = match &seen.changed {
        None => {
            return Some(
                Checked::Ask(Question::ChangedPaths { from: fork.clone(), to: head.clone() }),
            );
        },
        Some(Err(error)) => return Some(Checked::Failed(error.clone())),
        Some(Ok(changed)) => changed,
    };
    let outside = match &seen.outside {
        None => {
            return Some(
                Checked::Ask(
                    Question::Outside {
                        allowed: text::copied(&task.paths),
                        changed: text::copied(changed),
                    },
                ),
            );
        },
        Some(outside) => outside,
    };
    if outside.paths.len() == 0 {
        return None;
    }
    Some(
        Checked::Rejected(
            Rejection {
                reason: outside.reason.clone(),
                code: ReasonCode::ScopeViolation,
                commit: Some(head.clone()),
                receipt: Some(receipt.copy()),
                evidence_missing: Vec::new(),
                scope_violation: text::copied(&outside.paths),
            },
        ),
    )
}

/// Cross-check the agent's receipt against Git: the receipt names the clean
/// head of the run branch, new work on top of the base commit, within the
/// task's paths and with the task's required evidence.
pub fn check_receipt(task: &Task, run: &TaskRun, seen: &Observed) -> (r: Checked)
    ensures
        rules(*task, *run, *seen, ruling(*task, *run, *seen), r),
{
    let receipt_path = match &run.receipt_path {
        Some(path) => path,
        None => return Checked::Lacks(Field::ReceiptPath),
    };
    let parsed = match &seen.receipt {
        None => return Checked::Ask(Question::ReadReceipt { path: receipt_path.clone() }),
        Some(ReceiptRead::Missing) => {
            let reason = "receipt was not submitted at ".to_owned().concat(receipt_path.as_str());
            return reject(ReasonCode::ReceiptMissing, reason, None, None);
        },
        Some(ReceiptRead::Failed(error)) => {
            return Checked::Failed("read receipt: ".to_owned().concat(error.as_str()));
        },
        Some(ReceiptRead::Unparsed(fault)) => {
            return reject(fault.code, fault.reason.clone(), None, None);
        },
        Some(ReceiptRead::Parsed(parsed)) => parsed,
    };
    if let Some(fault) = &parsed.fault {
        return reject(fault.code, fault.reason.clone(), None, Some(parsed.receipt.copy()));
    }
    let worktree = match &run.worktree_path {
        Some(worktree) => worktree,
        None => return Checked::Lacks(Field::Worktree),
    };
    let branch = match &run.branch {
        Some(branch) => branch,
        None => return Checked::Lacks(Field::Branch),
    };
    let current = match &seen.branch {
        None => return Checked::Ask(Question::CurrentBranch { worktree: worktree.clone() }),
        Some(Err(error)) => return Checked::Failed(error.clone()),
        Some(Ok(current)) => current,
    };
    if let Some(why) = off_branch(current, branch.as_str()) {
        return reject(ReasonCode::CommitMismatch, why, None, Some(parsed.receipt.copy()));
    }
    let head = match &seen.head {
        None => return Checked::Ask(Question::Head { worktree: worktree.clone() }),
        Some(Err(error)) => return Checked::Failed(error.clone()),
        Some(Ok(head)) => head,
    };
    let named = text::ascii_lower(parsed.receipt.commit.as_str());
    if !text::same(head.as_str(), named.as_str()) {
        let reason = "receipt commit ".to_owned().concat(parsed.receipt.commit.as_str()).concat(
            " is not the head of ",
        ).concat(branch.as_str()).concat(" (").concat(head.as_str()).concat(")");
        return reject(ReasonCode::CommitMismatch, reason, None, Some(parsed.receipt.copy()));
    }
    let commit: Option<String> = Some(head.clone());
    if text::same(head.as_str(), run.base_commit.as_str()) {
        let reason = "no commit was made on top of base ".to_owned().concat(
            run.base_commit.as_str(),
        );
        return reject(ReasonCode::CommitMismatch, reason, commit, Some(parsed.receipt.copy()));
    }
    match &seen.descends {
        None => {
            return Checked::Ask(
                Question::Descends {
                    ancestor: run.base_commit.clone(),
                    descendant: head.clone(),
                },
            );
        },
        Some(Err(error)) => return Checked::Failed(error.clone()),
        Some(Ok(descends)) => if !*descends {
            let reason = "commit ".to_owned().concat(head.as_str()).concat(
                " does not descend from base ",
            ).concat(run.base_commit.as_str());
            return reject(ReasonCode::CommitMismatch, reason, commit, Some(parsed.receipt.copy()));
        },
    }
    let status = match &seen.status {
        None => return Checked::Ask(Question::Status { worktree: worktree.clone() }),
        Some(Err(error)) => return Checked::Failed(error.clone()),
        Some(Ok(status)) => status,
    };
    if !text::blank(status.as_str()) {
        let shown = text::trim_end(status.as_str());
        let reason = "worktree is not clean:\n".to_owned().concat(shown.as_str());
        return reject(ReasonCode::WorktreeDirty, reason, commit, Some(parsed.receipt.copy()));
    }
    // Looked at last, like the evidence below: only a run that is otherwise
    // sound waits for a session to take out what it changed elsewhere.
    if let Some(checked) = check_scope(task, run, head, &parsed.receipt, seen) {
        return checked;
    }
    if parsed.missing.len() > 0 {
        return Checked::Rejected(
            Rejection {
                reason: parsed.missing_reason.clone(),
                code: ReasonCode::EvidenceMissing,
                commit,
                receipt: Some(parsed.receipt.copy()),
                evidence_missing: same_checks(&parsed.missing),
                scope_violation: Vec::new(),
            },
        );
    }
    Checked::Accepted { receipt: parsed.receipt.copy(), commit: head.clone() }
}

/// A look that failed fails the check and rejects nothing: the run is not
/// ruled on.
pub proof fn a_failed_look_rejects_nothing(task: Task, run: TaskRun, seen: Observed, r: Checked)
    requires
        rules(task, run, seen, ruling(task, run, seen), r),
        failure(seen, ruling(task, run, seen)) is Some,
    ensures
        !(r is Rejected),
        !(r is Accepted),
{
}

/// Without paths of its own a task's run is not held against main: nothing is
/// asked of its fork, and nothing it changed is outside.
pub proof fn a_task_without_paths_allows_all(task: Task, run: TaskRun, seen: Observed, r: Checked)
    requires
        task.paths@.len() == 0,
        rules(task, run, seen, ruling(task, run, seen), r),
    ensures
        !(r matches Checked::Ask(Question::MainHead)),
        !(r matches Checked::Ask(Question::MergeBase { main: _, commit: _ })),
        !(r matches Checked::Ask(Question::ChangedPaths { from: _, to: _ })),
        !(r matches Checked::Ask(Question::Outside { allowed: _, changed: _ })),
        r is Rejected ==> r->Rejected_0.scope_violation@.len() == 0,
{
}

/// A receipt is accepted exactly when it parsed without a fault, its
/// worktree is on the run's branch at the commit it names, that commit is
/// new work on top of the base commit, the worktree is clean, nothing is
/// changed outside the task's paths and no required check is missing.
pub proof fn accepted_iff_sound(task: Task, run: TaskRun, seen: Observed)
    requires
        run.receipt_path is Some,
        run.worktree_path is Some,
        run.branch is Some,
    ensures
        ruling(task, run, seen) == Ruling::Sound <==> {
            &&& seen.receipt matches Some(ReceiptRead::Parsed(parsed))
            &&& parsed.fault is None
            &&& parsed.missing@.len() == 0
            &&& seen.branch matches Some(Ok(current))
            &&& on_branch(current, run.branch->0@)
            &&& seen.head matches Some(Ok(head))
            &&& head@ == text::lowered(parsed.receipt.commit@)
            &&& head@ != run.base_commit@
            &&& seen.descends == Some(Ok::<bool, String>(true))
            &&& seen.status matches Some(Ok(status))
            &&& !is_dirty(status@)
            &&& task.paths@.len() > 0 ==> {
                &&& seen.main matches Some(Ok(_))
                &&& seen.fork matches Some(Ok(Some(_)))
                &&& seen.changed matches Some(Ok(_))
                &&& seen.outside matches Some(outside)
                &&& outside.paths@.len() == 0
            }
        },
{
}

/// Whether every observation of `before` stands unchanged in `after`.
pub open spec fn extends(before: Observed, after: Observed) -> bool {
    &&& before.receipt is Some ==> after.receipt == before.receipt
    &&& before.branch is Some ==> after.branch == before.branch
    &&& before.head is Some ==> after.head == before.head
    &&& before.descends is Some ==> after.descends == before.descends
    &&& before.status is Some ==> after.status == before.status
    &&& before.main is Some ==> after.main == before.main
    &&& before.fork is Some ==> after.fork == before.fork
    &&& before.changed is Some ==> after.changed == before.changed
    &&& before.outside is Some ==> after.outside == before.outside
}

/// Whether a ruling asks for an observation.
pub open spec fn asks(ruling: Ruling) -> bool {
    match ruling {
        Ruling::NeedReceipt | Ruling::NeedBranch | Ruling::NeedHead | Ruling::NeedDescent => true,
        Ruling::NeedStatus | Ruling::NeedMain | Ruling::NeedFork | Ruling::NeedChanged => true,
        Ruling::NeedOutside => true,
        _ => false,
    }
}

/// A ruling that needs no further observation stands whatever is observed
/// beside.
pub proof fn ruling_is_final(task: Task, run: TaskRun, before: Observed, after: Observed)
    requires
        extends(before, after),
        !asks(ruling(task, run, before)),
    ensures
        ruling(task, run, after) == ruling(task, run, before),
{
}

/// A run is accepted exactly where everything holds of it: its receipt parsed
/// without a fault, names the clean head of its branch, which is new and
/// descends from its base, all it changed is within the task's paths, and no
/// evidence is missing; what is accepted is that receipt and that head.
pub proof fn only_a_sound_run_is_accepted(task: Task, run: TaskRun, seen: Observed, r: Checked)
    requires
        rules(task, run, seen, ruling(task, run, seen), r),
    ensures
        r is Accepted <==> {
            &&& run.receipt_path is Some && run.worktree_path is Some && run.branch is Some
            &&& seen.receipt matches Some(ReceiptRead::Parsed(parsed))
            &&& parsed.fault is None
            &&& parsed.missing@.len() == 0
            &&& seen.branch matches Some(Ok(Some(current)))
            &&& current@ == "refs/heads/"@ + run.branch->0@
            &&& seen.head matches Some(Ok(head))
            &&& head@ == text::lowered(parsed.receipt.commit@)
            &&& head@ != run.base_commit@
            &&& seen.descends matches Some(Ok(descends))
            &&& descends
            &&& seen.status matches Some(Ok(status))
            &&& text::is_blank(status@)
            &&& task.paths@.len() > 0 ==> {
                &&& seen.main matches Some(Ok(_))
                &&& seen.fork matches Some(Ok(Some(_)))
                &&& seen.changed matches Some(Ok(_))
                &&& seen.outside matches Some(outside)
                &&& outside.paths@.len() == 0
            }
        },
        r matches Checked::Accepted { receipt, commit } ==> seen.head == Some(
            Ok::<String, String>(commit),
        ) && receipt.commit@ == seen.receipt->0->Parsed_0.receipt.commit@ && receipt.result
            == seen.receipt->0->Parsed_0.receipt.result && receipt.summary@
            == seen.receipt->0->Parsed_0.receipt.summary@,
{
    if let Some(Ok(status)) = seen.status {
        text::blank_is_all_space(status@);
    }
}

/// A rejection has a code that says what was seen: each comes only with what
/// it names, and says the head it was found at where one was.
pub proof fn a_rejection_names_its_cause(task: Task, run: TaskRun, seen: Observed, r: Checked)
    requires
        rules(task, run, seen, ruling(task, run, seen), r),
        r is Rejected,
        seen.receipt is None || seen.receipt->0 is Missing || (
        seen.receipt->0 matches ReceiptRead::Parsed(parsed) && parsed.fault is None),
    ensures
        match r->Rejected_0.code {
            ReasonCode::ReceiptMissing => seen.receipt == Some(ReceiptRead::Missing),
            ReasonCode::CommitMismatch => {
                ||| !(seen.branch->0->Ok_0 matches Some(current) && current@ == "refs/heads/"@
                    + run.branch->0@)
                ||| seen.head->0->Ok_0@ != text::lowered(
                    seen.receipt->0->Parsed_0.receipt.commit@,
                )
                ||| seen.head->0->Ok_0@ == run.base_commit@
                ||| !seen.descends->0->Ok_0
            },
            ReasonCode::WorktreeDirty => seen.status matches Some(Ok(status)) && !text::is_blank(
                status@,
            ),
            ReasonCode::ScopeViolation => task.paths@.len() > 0 && (seen.outside matches Some(
                outside,
            ) && outside.paths@.len() > 0),
            ReasonCode::EvidenceMissing => seen.receipt->0->Parsed_0.missing@.len() > 0,
            _ => false,
        },
        r->Rejected_0.evidence_missing@.len() > 0 <==> r->Rejected_0.code
            == ReasonCode::EvidenceMissing,
        r->Rejected_0.scope_violation@.len() > 0 <==> r->Rejected_0.code
            == ReasonCode::ScopeViolation,
        r->Rejected_0.commit matches Some(commit) ==> seen.head == Some(
            Ok::<String, String>(commit),
        ),
{
    if let Some(Ok(status)) = seen.status {
        text::blank_is_all_space(status@);
    }
}

/// A receipt that is missing, cannot be parsed or is faulty is rejected as it
/// is, whatever else there is; a run off its branch, at another head or at its
/// base, and a dirty worktree, are rejected once seen.
pub proof fn an_unsound_run_is_rejected(task: Task, run: TaskRun, seen: Observed, r: Checked)
    requires
        rules(task, run, seen, ruling(task, run, seen), r),
        run.receipt_path is Some,
    ensures
        seen.receipt == Some(ReceiptRead::Missing) ==> (r matches Checked::Rejected(rejection)
            && rejection.code == ReasonCode::ReceiptMissing),
        seen.receipt matches Some(ReceiptRead::Failed(_)) ==> r is Failed,
        seen.receipt matches Some(ReceiptRead::Unparsed(fault)) ==> (r matches Checked::Rejected(
            rejection,
        ) && rejection.code == fault.code && rejection.reason@ == fault.reason@),
        seen.receipt matches Some(ReceiptRead::Parsed(parsed)) ==> {
            &&& parsed.fault matches Some(fault) ==> (r matches Checked::Rejected(rejection)
                && rejection.code == fault.code && rejection.reason@ == fault.reason@)
            &&& parsed.fault is None && run.worktree_path is Some && run.branch is Some && (
            seen.branch matches Some(Ok(current)) && !(current matches Some(current) && current@
                == "refs/heads/"@ + run.branch->0@)) ==> r is Rejected
            &&& parsed.fault is None && run.worktree_path is Some && run.branch is Some && (
            seen.branch matches Some(Ok(Some(current))) && current@ == "refs/heads/"@
                + run.branch->0@) && (seen.head matches Some(Ok(head)) && (head@
                != text::lowered(parsed.receipt.commit@) || head@ == run.base_commit@)) ==> r
                is Rejected
        },
        r is Failed ==> {
            ||| seen.receipt matches Some(ReceiptRead::Failed(_))
            ||| seen.branch matches Some(Err(_))
            ||| seen.head matches Some(Err(_))
            ||| seen.descends matches Some(Err(_))
            ||| seen.status matches Some(Err(_))
            ||| seen.main matches Some(Err(_))
            ||| seen.fork matches Some(Err(_))
            ||| seen.fork matches Some(Ok(None))
            ||| seen.changed matches Some(Err(_))
        },
{
}

/// What is asked about a run is asked of that run: its receipt, its worktree,
/// its base, and what it changed since it left main.
pub proof fn questions_are_about_the_run(task: Task, run: TaskRun, seen: Observed, r: Checked)
    requires
        rules(task, run, seen, ruling(task, run, seen), r),
    ensures
        r matches Checked::Ask(Question::ReadReceipt { path }) ==> run.receipt_path == Some(path),
        r matches Checked::Ask(Question::CurrentBranch { worktree }) ==> run.worktree_path == Some(
            worktree,
        ),
        r matches Checked::Ask(Question::Head { worktree }) ==> run.worktree_path == Some(worktree),
        r matches Checked::Ask(Question::Status { worktree }) ==> run.worktree_path == Some(
            worktree,
        ),
        r matches Checked::Ask(Question::Descends { ancestor, descendant }) ==> ancestor@
            == run.base_commit@ && seen.head == Some(Ok::<String, String>(descendant)),
        r matches Checked::Ask(Question::MergeBase { main, commit }) ==> seen.main == Some(
            Ok::<String, String>(main),
        ) && seen.head == Some(Ok::<String, String>(commit)),
        r matches Checked::Ask(Question::ChangedPaths { from, to }) ==> seen.fork == Some(
            Ok::<Option<String>, String>(Some(from)),
        ) && seen.head == Some(Ok::<String, String>(to)),
        r matches Checked::Ask(Question::Outside { allowed, changed }) ==> text::views(allowed@)
            == text::views(task.paths@) && (seen.changed matches Some(Ok(paths)) && text::views(
            changed@,
        ) == text::views(paths@)),
        r matches Checked::Lacks(Field::ReceiptPath) ==> run.receipt_path is None,
        r matches Checked::Lacks(Field::Worktree) ==> run.worktree_path is None,
        r matches Checked::Lacks(Field::Branch) ==> run.branch is None,
{
}

} // verus!
