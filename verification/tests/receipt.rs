//! The receipt check, the logs of the landing's verification, and the text
//! helpers they share.

use dagq::domain::{
    EvidenceCheck, ReasonCode, Receipt, ReceiptResult, RunStatus, Task, TaskRun, TaskStatus,
};
use dagq::integrate::land::commit_message;
use dagq::integrate::logs::{
    integrate_log_key, integrate_logs, integrate_verify_log, next_integrate_attempt,
};
use dagq::json::Fields;
use dagq::integrate::receipt::{
    check_receipt, Checked, Fault, Field, Observed, Outside, Parsed, Question, ReceiptRead,
    Rejection,
};
use dagq::text::tail;
use std::cell::RefCell;
use std::collections::BTreeMap;

const BASE: &str = "1111111111111111111111111111111111111111";
const HEAD: &str = "2222222222222222222222222222222222222222";
const MAIN: &str = "3333333333333333333333333333333333333333";
const FORK: &str = "4444444444444444444444444444444444444444";
const RUN: &str = "00000000-0000-4000-8000-000000000001";
const DIR: &str = "/runs/run";

/// A repository whose worktree is on `branch` at `head`, with `status`.
struct FakeRepository {
    branch: Option<String>,
    head: String,
    status: String,
    calls: RefCell<Vec<String>>,
}

impl FakeRepository {
    fn sound() -> Self {
        Self {
            branch: Some(format!("refs/heads/dagq/{RUN}")),
            head: HEAD.to_owned(),
            status: String::new(),
            calls: RefCell::default(),
        }
    }
    fn is_ancestor(&self, ancestor: &str, descendant: &str) -> bool {
        self.calls
            .borrow_mut()
            .push(format!("is_ancestor {ancestor} {descendant}"));
        ancestor == BASE
    }
    fn changed_paths(&self) -> Vec<String> {
        vec!["src/lib.rs".to_owned()]
    }
}

/// Files by their path.
#[derive(Default)]
struct MemoryFiles {
    files: RefCell<BTreeMap<String, String>>,
}

impl MemoryFiles {
    fn write(&self, path: &str, text: &str) {
        self.files.borrow_mut().insert(path.to_owned(), text.to_owned());
    }
    fn read(&self, path: &str) -> Option<String> {
        self.files.borrow().get(path).cloned()
    }
    /// The files directly in a directory; none where there is none.
    fn list(&self, dir: &str) -> Option<Vec<String>> {
        let inside: Vec<String> = self
            .files
            .borrow()
            .keys()
            .filter(|path| {
                path.strip_prefix(dir)
                    .and_then(|rest| rest.strip_prefix('/'))
                    .is_some_and(|name| !name.contains('/'))
            })
            .cloned()
            .collect();
        if inside.is_empty() {
            None
        } else {
            Some(inside)
        }
    }
}

fn task(paths: &[&str]) -> Task {
    Task {
        id: 7,
        title: "  land the change  ".to_owned(),
        status: TaskStatus::InProgress,
        paths: paths.iter().map(|p| (*p).to_owned()).collect(),
        verification_commands: Vec::new(),
        goal_id: None,
    }
}

fn run(dir: &str) -> TaskRun {
    TaskRun {
        id: RUN.to_owned(),
        task_id: 7,
        status: RunStatus::Validating,
        base_commit: BASE.to_owned(),
        branch: Some(format!("dagq/{RUN}")),
        worktree_path: Some(dir.to_owned()),
        workspace_id: None,
        receipt_path: Some(format!("{dir}/receipt.json")),
        result_commit: None,
        run_dir: Some(dir.to_owned()),
        last_error: None,
        workspace_closed: false,
    }
}

/// A receipt with its status of the tests, which the task requires.
fn write_receipt(files: &MemoryFiles, dir: &str, tests: &str) {
    files.write(&format!("{dir}/receipt.json"), tests);
}

fn receipt(commit: &str) -> Receipt {
    Receipt {
        result: ReceiptResult::Succeeded,
        commit: commit.to_owned(),
        summary: "  squash it  ".to_owned(),
        follow_ups: None,
        document: Fields::new().text("commit", commit).done(),
    }
}

fn parse(tests: &str) -> ReceiptRead {
    let missing = if tests == "passed" {
        Vec::new()
    } else {
        vec![EvidenceCheck::Tests]
    };
    ReceiptRead::Parsed(Parsed {
        receipt: receipt(HEAD),
        fault: None,
        missing,
        missing_reason: "tests are required".to_owned(),
    })
}

fn nothing() -> Observed {
    Observed {
        receipt: None,
        branch: None,
        head: None,
        descends: None,
        status: None,
        main: None,
        fork: None,
        changed: None,
        outside: None,
    }
}

/// Look at what the check asks for until it rules.
fn check(
    repository: &FakeRepository,
    files: &MemoryFiles,
    task: &Task,
    run: &TaskRun,
) -> (Checked, Observed) {
    let mut seen = nothing();
    loop {
        let question = match check_receipt(task, run, &seen) {
            Checked::Ask(question) => question,
            ruled => return (ruled, seen),
        };
        match question {
            Question::ReadReceipt { path } => {
                seen.receipt = Some(match files.read(&path) {
                    None => ReceiptRead::Missing,
                    Some(text) => parse(&text),
                });
            }
            Question::CurrentBranch { .. } => seen.branch = Some(Ok(repository.branch.clone())),
            Question::Head { .. } => seen.head = Some(Ok(repository.head.clone())),
            Question::Descends { ancestor, descendant } => {
                seen.descends = Some(Ok(repository.is_ancestor(&ancestor, &descendant)));
            }
            Question::Status { .. } => seen.status = Some(Ok(repository.status.clone())),
            Question::MainHead => seen.main = Some(Ok(MAIN.to_owned())),
            Question::MergeBase { main, commit } => {
                assert_eq!((main.as_str(), commit.as_str()), (MAIN, HEAD));
                seen.fork = Some(Ok(Some(FORK.to_owned())));
            }
            Question::ChangedPaths { from, to } => {
                assert_eq!((from.as_str(), to.as_str()), (FORK, HEAD));
                seen.changed = Some(Ok(repository.changed_paths()));
            }
            Question::Outside { allowed, changed } => {
                assert_eq!(allowed, task.paths);
                let outside: Vec<String> =
                    changed.into_iter().filter(|path| !path.starts_with("docs/")).collect();
                seen.outside = Some(Outside {
                    reason: format!("changed {} outside its paths", outside.join(", ")),
                    paths: outside,
                });
            }
        }
    }
}

#[test]
fn a_sound_receipt_is_accepted_through_the_repository_port() {
    let (files, dir) = (MemoryFiles::default(), DIR);
    write_receipt(&files, dir, "passed");
    let repository = FakeRepository::sound();
    let (ruled, _) = check(&repository, &files, &task(&[]), &run(dir));
    let (receipt, commit) = match ruled {
        Checked::Accepted { receipt, commit } => (receipt, commit),
        Checked::Rejected(rejection) => panic!("{}", rejection.reason),
        _ => panic!("not ruled"),
    };
    assert_eq!(commit, HEAD);
    assert_eq!(
        repository.calls.borrow().as_slice(),
        [format!("is_ancestor {BASE} {HEAD}")]
    );
    assert_eq!(
        commit_message(&task(&[]), &run(dir), &receipt.summary),
        [
            "land the change".to_owned(),
            "squash it".to_owned(),
            format!("Dagq-Task: 7\nDagq-Run: {RUN}"),
        ]
    );
}

#[test]
fn check_receipt_rejects_what_git_does_not_back() {
    let (files, dir) = (MemoryFiles::default(), DIR);
    let reason = |repository: &FakeRepository, task: &Task| -> Rejection {
        match check(repository, &files, task, &run(dir)).0 {
            Checked::Rejected(rejection) => rejection,
            _ => panic!("accepted"),
        }
    };
    let missing = reason(&FakeRepository::sound(), &task(&[]));
    assert!(missing.reason.starts_with("receipt was not submitted at "));
    assert!(missing.receipt.is_none());

    write_receipt(&files, dir, "passed");
    let detached = FakeRepository {
        branch: None,
        ..FakeRepository::sound()
    };
    assert_eq!(
        reason(&detached, &task(&[])).reason,
        format!("worktree is on a detached HEAD instead of refs/heads/dagq/{RUN}")
    );
    let dirty = FakeRepository {
        status: " M src/lib.rs\n".to_owned(),
        ..FakeRepository::sound()
    };
    let rejection = reason(&dirty, &task(&[]));
    assert_eq!(rejection.reason, "worktree is not clean:\n M src/lib.rs");
    assert_eq!(rejection.commit, Some(HEAD.to_owned()));
    assert_eq!(rejection.receipt.map(|receipt| receipt.commit), Some(HEAD.to_owned()));
    let outside = reason(&FakeRepository::sound(), &task(&["docs/**"]));
    assert_eq!(outside.scope_violation, ["src/lib.rs"]);

    write_receipt(&files, dir, "not_applicable");
    let evidence = reason(&FakeRepository::sound(), &task(&[]));
    assert_eq!(evidence.evidence_missing, [EvidenceCheck::Tests]);
}

#[test]
fn integrate_logs_are_read_through_the_run_files_port() {
    let (files, dir) = (MemoryFiles::default(), DIR);
    assert_eq!(next_integrate_attempt(&files.list(dir)), 1);
    for name in [
        "integrate-verify-1.log",
        "integrate-2-verify-2.log",
        "integrate-2-verify-1.log",
        "verify-1.log",
    ] {
        files.write(&format!("{dir}/{name}"), "");
    }
    files.write("/elsewhere/integrate-9-verify-1.log", "");
    assert_eq!(next_integrate_attempt(&files.list(dir)), 3);
    assert_eq!(
        integrate_logs(&files.list(dir)),
        (
            vec![
                format!("{dir}/integrate-2-verify-1.log"),
                format!("{dir}/integrate-2-verify-2.log")
            ],
            vec![format!("{dir}/integrate-verify-1.log")]
        )
    );
}

#[test]
fn tail_keeps_the_last_bytes_on_a_character_boundary() {
    assert_eq!(tail("abcdef", 3), "def");
    assert_eq!(tail("ab", 3), "ab");
    // A multi-byte character is not split.
    assert_eq!(tail("aé", 2), "é");
    assert_eq!(tail("aé", 1), "");
}

fn rejected(seen: &Observed) -> Rejection {
    match check_receipt(&task(&[]), &run(DIR), seen) {
        Checked::Rejected(rejection) => rejection,
        _ => panic!("not rejected"),
    }
}

/// What a sound run has observed of it.
fn sound() -> Observed {
    Observed {
        receipt: Some(parse("passed")),
        branch: Some(Ok(Some(format!("refs/heads/dagq/{RUN}")))),
        head: Some(Ok(HEAD.to_owned())),
        descends: Some(Ok(true)),
        status: Some(Ok(" \n".to_owned())),
        ..nothing()
    }
}

#[test]
fn each_way_to_be_rejected_has_its_code_and_reason() {
    let unparsed = rejected(&Observed {
        receipt: Some(ReceiptRead::Unparsed(Fault {
            code: ReasonCode::ReceiptInvalid,
            reason: "not JSON".to_owned(),
        })),
        ..nothing()
    });
    assert_eq!(unparsed.reason, "not JSON");
    assert!(unparsed.receipt.is_none());

    let other = rejected(&Observed {
        head: Some(Ok(BASE.to_owned())),
        ..sound()
    });
    assert_eq!(
        other.reason,
        format!("receipt commit {HEAD} is not the head of dagq/{RUN} ({BASE})")
    );
    assert!(other.code == ReasonCode::CommitMismatch && other.commit.is_none());

    let nothing_new = rejected(&Observed {
        receipt: Some(ReceiptRead::Parsed(Parsed {
            receipt: receipt(BASE),
            fault: None,
            missing: Vec::new(),
            missing_reason: String::new(),
        })),
        head: Some(Ok(BASE.to_owned())),
        ..sound()
    });
    assert_eq!(
        nothing_new.reason,
        format!("no commit was made on top of base {BASE}")
    );

    let apart = rejected(&Observed {
        descends: Some(Ok(false)),
        ..sound()
    });
    assert_eq!(
        apart.reason,
        format!("commit {HEAD} does not descend from base {BASE}")
    );
    assert_eq!(apart.commit, Some(HEAD.to_owned()));
}

#[test]
fn a_fault_of_the_receipt_is_its_rejection() {
    let faulty = rejected(&Observed {
        receipt: Some(ReceiptRead::Parsed(Parsed {
            receipt: receipt(HEAD),
            fault: Some(Fault {
                code: ReasonCode::ReceiptInvalid,
                reason: "it names another run".to_owned(),
            }),
            missing: vec![EvidenceCheck::Tests],
            missing_reason: String::new(),
        })),
        ..nothing()
    });
    assert_eq!(faulty.reason, "it names another run");
    assert_eq!(faulty.receipt.unwrap().document.text("commit"), Some(HEAD.to_owned()));
    assert!(faulty.evidence_missing.is_empty());
}

#[test]
fn a_run_without_its_fields_cannot_be_checked() {
    let without = |change: fn(&mut TaskRun)| {
        let mut run = run(DIR);
        change(&mut run);
        match check_receipt(&task(&[]), &run, &sound()) {
            Checked::Lacks(field) => field,
            _ => panic!("checked"),
        }
    };
    assert!(without(|run| run.receipt_path = None) == Field::ReceiptPath);
    assert!(without(|run| run.worktree_path = None) == Field::Worktree);
    assert!(without(|run| run.branch = None) == Field::Branch);
}

#[test]
fn the_receipts_commit_may_be_in_upper_case() {
    let upper = "ABCDEF0123456789ABCDEF0123456789ABCDEF01";
    let seen = Observed {
        receipt: Some(ReceiptRead::Parsed(Parsed {
            receipt: receipt(upper),
            fault: None,
            missing: Vec::new(),
            missing_reason: String::new(),
        })),
        head: Some(Ok(upper.to_lowercase())),
        ..sound()
    };
    match check_receipt(&task(&[]), &run(DIR), &seen) {
        Checked::Accepted { commit, .. } => assert_eq!(commit, upper.to_lowercase()),
        _ => panic!("not accepted"),
    }
}

#[test]
fn a_ruling_stands_whatever_is_observed_beside() {
    let mut seen = nothing();
    seen.receipt = Some(ReceiptRead::Missing);
    let before = rejected(&seen).reason;
    seen.head = Some(Ok(HEAD.to_owned()));
    seen.status = Some(Ok("?? x".to_owned()));
    assert_eq!(rejected(&seen).reason, before);
}

#[test]
fn a_log_is_found_under_the_name_it_was_written_under() {
    let path = integrate_verify_log("/runs/r", 12, 3);
    assert_eq!(path, "/runs/r/integrate-12-verify-3.log");
    assert_eq!(integrate_log_key("integrate-12-verify-3.log"), Some((12, 3)));
    assert_eq!(integrate_log_key("integrate-verify-4.log"), Some((0, 4)));
    assert_eq!(integrate_log_key("verify-1.log"), None);
    assert_eq!(integrate_log_key("integrate-x-verify-1.log"), None);
}

#[test]
fn logs_are_in_the_order_of_their_numbers() {
    let entries = Some(vec![
        "/r/integrate-2-verify-10.log".to_owned(),
        "/r/integrate-2-verify-9.log".to_owned(),
        "/r/integrate-1-verify-1.log".to_owned(),
    ]);
    let (latest, earlier) = integrate_logs(&entries);
    assert_eq!(
        latest,
        ["/r/integrate-2-verify-9.log", "/r/integrate-2-verify-10.log"]
    );
    assert_eq!(earlier, ["/r/integrate-1-verify-1.log"]);
    assert_eq!(integrate_logs(&None), (Vec::new(), Vec::new()));
}

fn failed(task: &Task, seen: &Observed) -> String {
    match check_receipt(task, &run(DIR), seen) {
        Checked::Failed(why) => why,
        _ => panic!("not failed"),
    }
}

#[test]
fn a_look_that_fails_fails_the_check() {
    let no = || Err("no".to_owned());
    let docs = task(&["docs/**"]);
    let unread = Observed {
        receipt: Some(ReceiptRead::Failed("permission denied".to_owned())),
        ..nothing()
    };
    assert_eq!(failed(&docs, &unread), "read receipt: permission denied");
    assert_eq!(failed(&docs, &Observed { branch: Some(Err("no".to_owned())), ..sound() }), "no");
    assert_eq!(failed(&docs, &Observed { head: Some(no()), ..sound() }), "no");
    assert_eq!(failed(&docs, &Observed { descends: Some(Err("no".to_owned())), ..sound() }), "no");
    assert_eq!(failed(&docs, &Observed { status: Some(no()), ..sound() }), "no");
    assert_eq!(failed(&docs, &Observed { main: Some(no()), ..sound() }), "no");
    let main = || Some(Ok(MAIN.to_owned()));
    let unforked = Observed { main: main(), fork: Some(Err("no".to_owned())), ..sound() };
    assert_eq!(failed(&docs, &unforked), "no");
    let apart = Observed { main: main(), fork: Some(Ok(None)), ..sound() };
    assert_eq!(failed(&docs, &apart), "the run branch shares no history with main");
    let unchanged = Observed {
        main: main(),
        fork: Some(Ok(Some(FORK.to_owned()))),
        changed: Some(Err("no".to_owned())),
        ..sound()
    };
    assert_eq!(failed(&docs, &unchanged), "no");
}

#[test]
fn a_task_without_paths_is_not_held_against_main() {
    let seen = Observed { main: Some(Err("no".to_owned())), fork: Some(Ok(None)), ..sound() };
    assert!(matches!(check_receipt(&task(&[]), &run(DIR), &seen), Checked::Accepted { .. }));
    assert!(matches!(
        check_receipt(&task(&["docs/**"]), &run(DIR), &sound()),
        Checked::Ask(Question::MainHead)
    ));
}
