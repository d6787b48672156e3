//! Landing a run: taking the slot, the landing itself, its migrations, its
//! follow-ups, and how it ends.

use dagq::domain::{ReasonCode, Receipt, ReceiptResult, RunEvent, RunStatus, Task, TaskRun, TaskStatus};
use dagq::integrate::begin::{begin, Begun, Call, IntegrateTarget, LeaseLook, Seen, Step, TaskLook};
use dagq::integrate::conclude::{
    after_landing, close_landing_asks, land_integrating, push_event, push_main,
    remove_landed_worktree, resume_attempts, Conclusion, LandedSeen, LandedStep, PushStep, Removal,
    Verdict,
};
use dagq::integrate::follow_ups::{
    register_entry, register_follow_ups, registered_indices, EntrySeen, EntryStep, FollowUp,
    RegisterStep, RegisteredFollowUp,
};
use dagq::integrate::land::{
    land, Action, CommandRun, Deferral, FailedTests, Failure, FailureKind, Landing, Progress, Rebase, Renumbering,
    Step as LandStep,
};
use dagq::integrate::migrations::{
    has_next_number, in_directory, other_changes, plan, renumber_migration, Digits, Migration,
    Plan, Seen as MigrationSeen, Step as MigrationStep,
};
use dagq::integrate::receipt::{Field, Outside, Parsed, ReceiptRead};
use dagq::json::{Fields, Json};
use dagq::supervise::draft_planner::DraftOrigin;

const MAIN: &str = "1111111111111111111111111111111111111111";
const HEAD: &str = "2222222222222222222222222222222222222222";
const REBASED: &str = "3333333333333333333333333333333333333333";
const COMMIT: &str = "4444444444444444444444444444444444444444";

/// A value as compact text.
fn show(value: &Json) -> String {
    match value {
        Json::Null => "null".to_owned(),
        Json::Bool(b) => b.to_string(),
        Json::Int(n) => n.to_string(),
        Json::Decimal(digits) => digits.clone(),
        Json::Text(s) => format!("{s:?}"),
        Json::List(items) => format!(
            "[{}]",
            items.iter().map(show).collect::<Vec<_>>().join(",")
        ),
        Json::Object(members) => format!(
            "{{{}}}",
            members
                .iter()
                .map(|m| format!("{:?}:{}", m.key, show(&m.value)))
                .collect::<Vec<_>>()
                .join(",")
        ),
    }
}

fn task(commands: &[&str]) -> Task {
    Task {
        id: 7,
        title: "land it".to_owned(),
        status: TaskStatus::InProgress,
        paths: Vec::new(),
        verification_commands: commands.iter().map(|c| (*c).to_owned()).collect(),
        goal_id: Some(3),
    }
}

fn run() -> TaskRun {
    TaskRun {
        id: "r1".to_owned(),
        task_id: 7,
        status: RunStatus::AwaitingIntegration,
        base_commit: "0000000000000000000000000000000000000000".to_owned(),
        branch: Some("dagq/r1".to_owned()),
        worktree_path: Some("/runs/r1/worktree".to_owned()),
        workspace_id: None,
        receipt_path: Some("/runs/r1/receipt.json".to_owned()),
        result_commit: Some(HEAD.to_owned()),
        run_dir: Some("/runs/r1".to_owned()),
        last_error: None,
        workspace_closed: false,
    }
}

fn parsed(result: ReceiptResult) -> ReceiptRead {
    ReceiptRead::Parsed(Parsed {
        receipt: Receipt {
            result,
            commit: HEAD.to_owned(),
            summary: "did it".to_owned(),
            follow_ups: Some(Json::List(Vec::new())),
            document: Fields::new()
                .text("summary", "did it")
                .with("hours", Json::Decimal("1.5".to_owned()))
                .done(),
        },
        fault: None,
        missing: Vec::new(),
        missing_reason: String::new(),
    })
}

fn nothing_done() -> Progress {
    Progress {
        is_dir: None,
        repaired: false,
        rebasing: None,
        aborted: false,
        abort_recorded: false,
        branch: None,
        head: None,
        receipt: None,
        receipt_recorded: false,
        status: None,
        rebase: None,
        conflicts: None,
        conflict_rebasing: None,
        conflict_aborted: false,
        rebased: None,
        rebase_recorded: false,
        descends: None,
        status_after: None,
        renumbering: None,
        changed: None,
        outside: None,
        programs: None,
        environment: false,
        attempt: None,
        commands: Vec::new(),
        recorded: 0,
        tree: None,
        commit: None,
        history_kept: false,
        advanced: false,
    }
}

fn failure(kind: FailureKind) -> Failure {
    Failure {
        kind,
        class: "test_failure".to_owned(),
        evidence: "assertion failed".to_owned(),
        report: Json::Null,
        tests: FailedTests { names: vec!["a::b".to_owned()], omitted: 4 },
    }
}

fn command(code: i32) -> CommandRun {
    CommandRun {
        code: Some(code),
        signal: None,
        failure: failure(FailureKind::TestFailure),
        output: "some output".to_owned(),
    }
}

/// What happens to a run that lands: the actions by name, and how it ended.
/// `codes` are what the verification commands exit with.
fn drive(task: &Task, run: &TaskRun, codes: &[i32], conflict: bool) -> (Vec<String>, LandStep) {
    let mut p = nothing_done();
    let mut done: Vec<String> = Vec::new();
    let main = MAIN.to_owned();
    loop {
        let action = match land(task, run, &main, &p) {
            LandStep::Do(action) => action,
            end => return (done, end),
        };
        let name = match action {
            Action::IsDir { .. } => {
                p.is_dir = Some(true);
                "is_dir".to_owned()
            }
            Action::RepairWorktree { .. } => {
                p.repaired = true;
                "repair".to_owned()
            }
            Action::RebaseInProgress { .. } => {
                if p.rebase.is_some() {
                    p.conflict_rebasing = Some(true);
                } else {
                    p.rebasing = Some(false);
                }
                "rebasing".to_owned()
            }
            Action::AbortRebase { .. } => {
                p.conflict_aborted = true;
                "abort".to_owned()
            }
            Action::Record { kind, payload } => {
                if kind == "integration_receipt" {
                    assert_eq!(
                        show(&payload),
                        format!(
                            "{{\"main\":{MAIN:?},\"commit\":{HEAD:?},\"receipt\":{{\"summary\":\"did it\",\"hours\":1.5}}}}"
                        )
                    );
                    p.receipt_recorded = true;
                } else if kind == "integration_rebased" {
                    p.rebase_recorded = true;
                } else {
                    p.recorded += 1;
                }
                format!("record {kind}")
            }
            Action::CurrentBranch { .. } => {
                p.branch = Some(Some("refs/heads/dagq/r1".to_owned()));
                "branch".to_owned()
            }
            Action::Head { .. } => {
                if p.rebase.is_some() {
                    p.rebased = Some(REBASED.to_owned());
                } else {
                    p.head = Some(HEAD.to_owned());
                }
                "head".to_owned()
            }
            Action::ReadReceipt { .. } => {
                p.receipt = Some(parsed(ReceiptResult::Succeeded));
                "receipt".to_owned()
            }
            Action::Status { .. } => {
                if p.rebased.is_some() {
                    p.status_after = Some(String::new());
                } else {
                    p.status = Some(String::new());
                }
                "status".to_owned()
            }
            Action::Rebase { onto, .. } => {
                assert_eq!(onto, MAIN);
                p.rebase = Some(if conflict {
                    Rebase::Stopped { output: "CONFLICT".to_owned() }
                } else {
                    Rebase::Done
                });
                "rebase".to_owned()
            }
            Action::ConflictedFiles { .. } => {
                p.conflicts = Some(vec!["src/a.rs".to_owned()]);
                "conflicts".to_owned()
            }
            Action::Descends { .. } => {
                p.descends = Some(true);
                "descends".to_owned()
            }
            Action::Renumber { .. } => {
                p.renumbering = Some(Renumbering::Unchanged);
                "renumber".to_owned()
            }
            Action::ChangedPaths { from, to } => {
                assert_eq!((from.as_str(), to.as_str()), (MAIN, REBASED));
                p.changed = Some(vec!["src/a.rs".to_owned()]);
                "changed".to_owned()
            }
            Action::Outside { changed, .. } => {
                assert_eq!(changed, ["src/a.rs"]);
                p.outside = Some(Outside {
                    paths: Vec::new(),
                    reason: String::new(),
                });
                "outside".to_owned()
            }
            Action::EnvironmentPrograms { .. } => {
                p.programs = Some(None);
                "programs".to_owned()
            }
            Action::Environment { .. } => {
                p.environment = true;
                "environment".to_owned()
            }
            Action::NextAttempt { .. } => {
                p.attempt = Some(2);
                "attempt".to_owned()
            }
            Action::RunCommand { command: line, log } => {
                let n = p.commands.len();
                assert_eq!(log, format!("/runs/r1/integrate-2-verify-{}.log", n + 1));
                p.commands.push(command(codes[n]));
                format!("run {line}")
            }
            Action::Tree { commit } => {
                assert_eq!(commit, REBASED);
                p.tree = Some("tree".to_owned());
                "tree".to_owned()
            }
            Action::CommitTree { parent, paragraphs, .. } => {
                assert_eq!(parent, MAIN);
                assert_eq!(paragraphs[0], "land it");
                p.commit = Some(COMMIT.to_owned());
                "commit".to_owned()
            }
            Action::UpdateRef { commit, .. } => {
                assert_eq!(commit, REBASED);
                p.history_kept = true;
                "keep history".to_owned()
            }
            Action::AdvanceMain { from, to } => {
                assert_eq!((from.as_str(), to.as_str()), (MAIN, COMMIT));
                p.advanced = true;
                "advance main".to_owned()
            }
        };
        done.push(name);
    }
}

#[test]
fn a_verified_run_lands_and_main_moves_last() {
    let (done, end) = drive(&task(&["cargo test", "cargo clippy"]), &run(), &[0, 0], false);
    let landing = match end {
        LandStep::Landed { landing, follow_ups } => {
            assert!(follow_ups.is_some());
            landing
        }
        _ => panic!("not landed after {done:?}"),
    };
    assert_eq!(landing.commit, COMMIT);
    assert_eq!(landing.main_before, MAIN);
    assert!(!landing.verification_skipped);
    assert_eq!(done.last().map(String::as_str), Some("advance main"));
    let at = |what: &str| done.iter().position(|d| d == what).unwrap();
    assert!(at("run cargo test") < at("run cargo clippy"));
    assert!(at("run cargo clippy") < at("commit"));
    assert!(at("keep history") < at("advance main"));
    assert!(at("record integration_receipt") < at("rebase"));
    assert!(at("changed") < at("outside"));
}

#[test]
fn a_failed_verification_defers_before_main_moves() {
    let (done, end) = drive(&task(&["cargo test", "never run"]), &run(), &[1, 0], false);
    match end {
        LandStep::Deferred(Deferral { code, index, .. }) => {
            assert!(code == ReasonCode::VerificationFailed);
            assert!(index.is_some());
        }
        _ => panic!("not deferred"),
    }
    assert!(done.iter().all(|d| d != "run never run"));
    assert!(done.iter().all(|d| d != "advance main"));
}

#[test]
fn a_conflict_defers_with_its_files() {
    let (done, end) = drive(&task(&[]), &run(), &[], true);
    match end {
        LandStep::Deferred(Deferral { code, detail, .. }) => {
            assert!(code == ReasonCode::RebaseConflict);
            assert!(show(&detail).contains("src/a.rs"));
        }
        _ => panic!("not deferred"),
    }
    assert!(done.contains(&"abort".to_owned()));
}

#[test]
fn a_landing_stops_where_the_run_is_not_ready() {
    let main = MAIN.to_owned();
    let gone = Progress { is_dir: Some(false), ..nothing_done() };
    match land(&task(&[]), &run(), &main, &gone) {
        LandStep::Stopped(why) => assert_eq!(why, "worktree /runs/r1/worktree is missing"),
        _ => panic!("not stopped"),
    }
    let without = TaskRun { run_dir: None, ..run() };
    let looked = Progress { is_dir: Some(true), repaired: true, ..nothing_done() };
    match land(&task(&[]), &without, &main, &looked) {
        LandStep::Lacks(field) => assert!(field == Field::RunDirectory),
        _ => panic!("no field is missing"),
    }
    let read = |receipt: ReceiptRead| Progress {
        is_dir: Some(true),
        repaired: true,
        rebasing: Some(false),
        branch: Some(Some("refs/heads/dagq/r1".to_owned())),
        head: Some(HEAD.to_owned()),
        receipt: Some(receipt),
        ..nothing_done()
    };
    match land(&task(&[]), &run(), &main, &read(parsed(ReceiptResult::Failed))) {
        LandStep::ReceiptFailed { reason, receipt } => {
            assert_eq!(show(&receipt), "{\"summary\":\"did it\",\"hours\":1.5}");
            assert_eq!(reason, "session reported the run as failed: did it");
        }
        _ => panic!("not failed"),
    }
    match land(&task(&[]), &run(), &main, &read(ReceiptRead::Failed("denied".to_owned()))) {
        LandStep::Stopped(why) => assert_eq!(why, "read receipt: denied"),
        _ => panic!("not stopped"),
    }
    match land(&task(&[]), &run(), &main, &read(ReceiptRead::Missing)) {
        LandStep::Deferred(d) => {
            assert_eq!(d.reason, "receipt is missing at /runs/r1/receipt.json");
        }
        _ => panic!("not deferred"),
    }
}

fn call(target: IntegrateTarget) -> Call {
    Call {
        target,
        repo: "/repo".to_owned(),
        common_dir: "/repo/.git".to_owned(),
        pid: 42,
        push: true,
        heartbeat_timeout: 60,
    }
}

fn unseen() -> Seen {
    Seen {
        bound: None,
        task: None,
        next: None,
        lease: None,
        approved: None,
        approval_recorded: false,
        token: None,
        main: None,
        begun: None,
    }
}

fn refused(step: Step) -> String {
    match step {
        Step::Refused(why) => why,
        _ => panic!("not refused"),
    }
}

#[test]
fn a_landing_begins_only_for_a_free_run_of_this_repository() {
    let mut seen = unseen();
    assert!(matches!(begin(&call(IntegrateTarget::Task(7)), &seen), Step::Binding));
    seen.bound = Some(None);
    assert_eq!(
        refused(begin(&call(IntegrateTarget::Task(7)), &seen)),
        "queue is not bound to a repository; no run was supervised"
    );
    seen.bound = Some(Some("/other/.git".to_owned()));
    assert_eq!(
        refused(begin(&call(IntegrateTarget::Task(7)), &seen)),
        "/repo belongs to /repo/.git, but the queue is bound to /other/.git"
    );
    seen.bound = Some(Some("/repo/.git".to_owned()));
    seen.task = Some(TaskLook {
        status: TaskStatus::InProgress,
        runs: vec![TaskRun { status: RunStatus::Integrating, ..run() }],
    });
    assert_eq!(
        refused(begin(&call(IntegrateTarget::Task(7)), &seen)),
        "run r1 of task 7 is already integrating (see doctor if it is stuck)"
    );
    seen.task = Some(TaskLook { status: TaskStatus::Ready, runs: Vec::new() });
    assert_eq!(
        refused(begin(&call(IntegrateTarget::Task(7)), &seen)),
        "task 7 (ready) has no run awaiting integration or a session"
    );
    seen.next = Some(None);
    assert!(matches!(begin(&call(IntegrateTarget::Next), &seen), Step::Nothing));
}

#[test]
fn a_landing_takes_the_slot_after_its_approval_and_the_main_head() {
    let mut seen = Seen {
        bound: Some(Some("/repo/.git".to_owned())),
        task: Some(TaskLook { status: TaskStatus::InProgress, runs: vec![run()] }),
        ..unseen()
    };
    let mut steps: Vec<String> = Vec::new();
    let begun: Begun = loop {
        match begin(&call(IntegrateTarget::Task(7)), &seen) {
            Step::Lease { .. } => {
                steps.push("lease".to_owned());
                seen.lease = Some(None);
            }
            Step::Approved { .. } => {
                steps.push("approved".to_owned());
                seen.approved = Some(false);
            }
            Step::Record { kind, .. } => {
                steps.push(kind.to_owned());
                seen.approval_recorded = true;
            }
            Step::NewToken => {
                steps.push("token".to_owned());
                seen.token = Some("t".to_owned());
            }
            Step::MainHead => {
                steps.push("main".to_owned());
                seen.main = Some(MAIN.to_owned());
            }
            Step::TakeSlot { run: id, token, main } => {
                steps.push("take".to_owned());
                assert_eq!((id.as_str(), token.as_str(), main.as_str()), ("r1", "t", MAIN));
                seen.begun = Some(TaskRun { status: RunStatus::Integrating, ..run() });
            }
            Step::Begun(begun) => break begun,
            _ => panic!("unexpected step after {steps:?}"),
        }
    };
    assert_eq!(
        steps,
        ["lease", "approved", "integration_approved", "token", "main", "take"]
    );
    assert!(begun.previous == RunStatus::AwaitingIntegration);
    assert_eq!(begun.main, MAIN);
    seen.lease = Some(Some(LeaseLook { alive: true, age: 1 }));
    seen.begun = None;
    assert!(matches!(begin(&call(IntegrateTarget::Task(7)), &seen), Step::Refused(_)));
}

fn migration(name: &str, number: u32) -> Migration {
    Migration { name: name.to_owned(), number }
}

#[test]
fn a_taken_migration_moves_behind_the_highest() {
    let added = vec![migration("0002_mine.sql", 2)];
    let tree = vec![
        migration("0001_a.sql", 1),
        migration("0002_theirs.sql", 2),
        migration("0002_mine.sql", 2),
        migration("0003_b.sql", 3),
    ];
    match plan(&added, &tree) {
        Plan::Move { name, number, next } => {
            assert_eq!((name.as_str(), number, next), ("0002_mine.sql", 2, 4));
        }
        _ => panic!("not moved"),
    }
    let free = vec![migration("0001_a.sql", 1), migration("0002_mine.sql", 2)];
    assert!(matches!(plan(&added, &free), Plan::Unchanged));
    let two = vec![migration("0002_mine.sql", 2), migration("0003_more.sql", 3)];
    assert!(matches!(plan(&two, &tree), Plan::Several { next: 4, .. }));
    let full = vec![migration("last.sql", u32::MAX), migration("0002_mine.sql", 2)];
    assert!(has_next_number(&added, &full));
    assert!(matches!(plan(&added, &full), Plan::Unchanged));
    let taken = vec![migration("last.sql", u32::MAX), migration("0002_theirs.sql", 2)];
    assert!(!has_next_number(&added, &taken));
    assert_eq!(
        in_directory("migrations/0001_a.sql", "migrations"),
        Some("0001_a.sql".to_owned())
    );
    assert_eq!(in_directory("src/0001_a.sql", "migrations"), None);
    let changed = vec!["a".to_owned(), "b".to_owned()];
    assert_eq!(other_changes(&changed, "a"), ["b"]);
}

#[test]
fn a_renumbered_migration_is_committed_and_recorded() {
    let mut seen = MigrationSeen {
        added: Some(vec![migration("0002_mine.sql", 2)]),
        tree: Some(vec![migration("0002_theirs.sql", 2), migration("0002_mine.sql", 2)]),
        digits: None,
        changed: None,
        referring: None,
        head: None,
        recorded: false,
    };
    let mut kinds: Vec<&str> = Vec::new();
    loop {
        match renumber_migration(MAIN, REBASED, "migrations", &seen) {
            MigrationStep::Write { number, next, .. } => {
                assert_eq!((number, next), (2, 3));
                seen.digits = Some(Digits {
                    old: "0002".to_owned(),
                    next: "0003".to_owned(),
                    renamed: "0003_mine.sql".to_owned(),
                });
            }
            MigrationStep::ChangedPaths => {
                seen.changed = Some(vec!["migrations/0002_mine.sql".to_owned(), "src/a".to_owned()]);
            }
            MigrationStep::PathsContaining { digits, among } => {
                assert_eq!((digits.as_str(), among), ("0002", vec!["src/a".to_owned()]));
                seen.referring = Some(Vec::new());
            }
            MigrationStep::RenameAndCommit { from, to, title, body } => {
                assert_eq!(from, "migrations/0002_mine.sql");
                assert_eq!(to, "migrations/0003_mine.sql");
                assert_eq!(title, "fix: renumber migration 0002 to 0003");
                assert!(body.starts_with(&format!("main {MAIN} took number 0002 while the run was open")));
                seen.head = Some(COMMIT.to_owned());
            }
            MigrationStep::Record { kind, payload } => {
                assert!(show(&payload).contains("\"new_number\":\"0003\""));
                kinds.push(kind);
                seen.recorded = true;
            }
            MigrationStep::Finished(Renumbering::Renumbered { head }) => {
                assert_eq!(head, COMMIT);
                break;
            }
            _ => panic!("unexpected"),
        }
    }
    assert_eq!(kinds, ["migration_renumbered"]);
    seen.head = None;
    seen.referring = Some(vec!["src/a".to_owned()]);
    match renumber_migration(MAIN, REBASED, "migrations", &seen) {
        MigrationStep::Finished(Renumbering::Blocked { reason, .. }) => {
            assert!(reason.contains("the run's other changes mention 0002 (src/a)"));
        }
        _ => panic!("not blocked"),
    }
}

fn follow_up(title: &str) -> Json {
    Fields::new()
        .text("title", title)
        .text("description", "why it matters")
        .done()
}

fn registered(id: i64, index: i128) -> RunEvent {
    RunEvent {
        id,
        kind: "follow_up_registered".to_owned(),
        at_millis: None,
        payload: Fields::new().number("index", index).done(),
    }
}

#[test]
fn follow_ups_are_registered_once() {
    let list = Some(Json::List(vec![follow_up("one"), follow_up("two")]));
    let read = |events: Vec<RunEvent>| Some(Ok(events));
    let first = planned(register_follow_ups(&task(&[]), "r1", &list, &read(Vec::new()), &OPEN, &FLAT, 5));
    assert_eq!(first.len(), 2);
    match &first[1] {
        FollowUp::Add { index, task } => {
            assert_eq!((*index, task.title.as_str()), (1, "two"));
            assert_eq!(task.goal_id, Some(3));
        }
        _ => panic!("skipped"),
    }
    let events = vec![registered(1, 0), registered(2, 1)];
    assert_eq!(registered_indices(&events), [0, 1]);
    let again = register_follow_ups(&task(&[]), "r1", &list, &read(events), &OPEN, &FLAT, 5);
    assert!(planned(again).is_empty());
}

/// The goal was read, and is open.
const OPEN: Option<Result<bool, String>> = Some(Ok(false));

/// The task is a person's own.
const FLAT: Option<Result<u32, String>> = Some(Ok(0));

fn lost_depth() -> Option<Result<u32, String>> {
    Some(Err("locked".to_owned()))
}

fn planned(step: RegisterStep) -> Vec<FollowUp> {
    match step {
        RegisterStep::Register { planned, .. } => planned,
        _ => panic!("nothing is registered"),
    }
}

#[test]
fn follow_ups_wait_for_what_they_take() {
    let list = Some(Json::List(vec![follow_up("one")]));
    let go = |follow_ups: &Option<Json>, events, closed| {
        register_follow_ups(&task(&[]), "r1", follow_ups, &events, &closed, &FLAT, 5)
    };
    let events = || Some(Ok(Vec::new()));
    let lost = || Some(Err("locked".to_owned()));
    assert!(matches!(go(&None, events(), OPEN), RegisterStep::Nothing));
    assert!(matches!(go(&Some(Json::Null), events(), OPEN), RegisterStep::Nothing));
    assert!(matches!(go(&list, None, None), RegisterStep::ReadEvents));
    assert!(matches!(go(&list, lost(), OPEN), RegisterStep::Nothing));
    assert!(matches!(go(&list, events(), None), RegisterStep::ReadGoal { goal: 3 }));
    assert!(matches!(go(&list, events(), Some(Err("gone".to_owned()))), RegisterStep::Nothing));
    match go(&list, events(), Some(Ok(true))) {
        RegisterStep::Register { planned, goal_closed, .. } => {
            assert!(goal_closed);
            match &planned[0] {
                FollowUp::Add { task, .. } => assert_eq!(task.goal_id, None),
                _ => panic!("skipped"),
            }
        }
        _ => panic!("not registered"),
    }
    let goalless = Task { goal_id: None, ..task(&[]) };
    match register_follow_ups(&goalless, "r1", &list, &events(), &None, &FLAT, 5) {
        RegisterStep::Register { goal_closed, depth, .. } => assert!(!goal_closed && depth == 1),
        _ => panic!("not registered"),
    }
    let deep = |depth| register_follow_ups(&goalless, "r1", &list, &events(), &None, &depth, 5);
    assert!(matches!(deep(None), RegisterStep::ReadDepth));
    assert!(matches!(deep(Some(Ok(2))), RegisterStep::Register { depth: 3, .. }));
    assert!(matches!(deep(lost_depth()), RegisterStep::Register { depth: 5, .. }));
}

#[test]
fn only_failed_or_timed_out_tests_are_counted() {
    let detail = |kind: FailureKind| {
        let ran = CommandRun { failure: failure(kind), ..command(1) };
        let progress = Progress {
            is_dir: Some(true),
            repaired: true,
            rebasing: Some(false),
            branch: Some(Some("refs/heads/dagq/r1".to_owned())),
            head: Some(HEAD.to_owned()),
            receipt: Some(parsed(ReceiptResult::Succeeded)),
            receipt_recorded: true,
            status: Some(String::new()),
            rebase: Some(Rebase::Done),
            rebased: Some(REBASED.to_owned()),
            rebase_recorded: true,
            descends: Some(true),
            status_after: Some(String::new()),
            renumbering: Some(Renumbering::Unchanged),
            changed: Some(Vec::new()),
            outside: Some(Outside { paths: Vec::new(), reason: String::new() }),
            programs: Some(None),
            environment: true,
            attempt: Some(1),
            commands: vec![ran],
            recorded: 1,
            ..nothing_done()
        };
        match land(&task(&["cargo test"]), &run(), &MAIN.to_owned(), &progress) {
            LandStep::Deferred(d) => show(&d.detail),
            _ => panic!("not deferred"),
        }
    };
    let counted = "\"failed_tests\":[\"a::b\"],\"failed_tests_omitted\":4";
    assert!(detail(FailureKind::TestFailure).contains(counted));
    assert!(detail(FailureKind::Timeout).contains(counted));
    assert!(detail(FailureKind::Other)
        .contains("\"failed_tests\":null,\"failed_tests_omitted\":null"));
}

#[test]
fn a_follow_up_is_added_then_placed_then_recorded() {
    let list = Some(Json::List(vec![follow_up("one"), Json::Null]));
    let read = Some(Ok(Vec::new()));
    let all = planned(register_follow_ups(&task(&[]), "r1", &list, &read, &OPEN, &FLAT, 5));
    let entry = |seen: &EntrySeen| register_entry(7, "r1", &all[0], true, 3, seen);
    let mut seen = EntrySeen::default();
    assert!(matches!(entry(&seen), EntryStep::Add));
    seen.added = Some(Err("locked".to_owned()));
    assert!(matches!(entry(&seen), EntryStep::Next { registered: None }));
    seen.added = Some(Ok(RegisteredFollowUp { task_id: 9, title: "one".to_owned() }));
    assert!(matches!(entry(&seen), EntryStep::SetDepth { task: 9, depth: 3 }));
    seen.depth_set = true;
    match entry(&seen) {
        EntryStep::SetOrigin { task, origin, material } => {
            assert!(task == 9 && origin == DraftOrigin::FollowUp);
            assert_eq!(
                show(&material),
                "{\"source_task_id\":7,\"source_run_id\":\"r1\",\"index\":0}"
            );
        }
        _ => panic!("no origin"),
    }
    seen.origin_set = true;
    match entry(&seen) {
        EntryStep::Record { kind, payload } => {
            assert_eq!(kind, "follow_up_registered");
            assert_eq!(
                show(&payload),
                "{\"task_id\":9,\"title\":\"one\",\"index\":0,\"goal_closed\":true}"
            );
        }
        _ => panic!("not recorded"),
    }
    seen.recorded = true;
    match entry(&seen) {
        EntryStep::Next { registered } => assert_eq!(registered.unwrap().title, "one"),
        _ => panic!("not done"),
    }
    let skipped = |recorded: bool| {
        let seen = EntrySeen { recorded, ..EntrySeen::default() };
        register_entry(7, "r1", &all[1], false, 3, &seen)
    };
    assert!(matches!(skipped(false), EntryStep::Record { kind: "follow_up_registered", .. }));
    assert!(matches!(skipped(true), EntryStep::Next { registered: None }));
}

#[test]
fn a_landing_ends_in_one_of_four_ways() {
    match land_integrating(&run(), RunStatus::NeedsSession, Verdict::Error("lost".to_owned()), None, 3) {
        Conclusion::Abort { message, back_to, fallback, error } => {
            assert!(fallback == ReasonCode::Other);
            assert_eq!(message, "integration stopped before main moved: lost");
            assert!(back_to == RunStatus::NeedsSession);
            assert_eq!(error, "run r1 returned to needs_session: lost");
        }
        _ => panic!("not aborted"),
    }
    let deferral = Deferral {
        reason: "conflict".to_owned(),
        code: ReasonCode::RebaseConflict,
        index: None,
        detail: Fields::new().done(),
    };
    match land_integrating(&run(), RunStatus::Running, Verdict::Deferred(deferral), Some(1), 3) {
        Conclusion::Defer { detail, .. } => assert_eq!(show(&detail), "{\"resumes_left\":2}"),
        _ => panic!("not deferred"),
    }
    let failed = Verdict::ReceiptFailed { reason: "no".to_owned(), receipt: Json::Null };
    assert!(matches!(
        land_integrating(&run(), RunStatus::Running, failed, None, 3),
        Conclusion::Fail { .. }
    ));
    let landing = Landing {
        commit: COMMIT.to_owned(),
        source_commit: REBASED.to_owned(),
        main_before: MAIN.to_owned(),
        history_ref: "refs/dagq/runs/r1".to_owned(),
        message: "land it".to_owned(),
        verification_skipped: false,
    };
    let landed = Verdict::Landed { landing, follow_ups: None };
    match land_integrating(&run(), RunStatus::Running, landed, None, 3) {
        Conclusion::Finish { otherwise, .. } => assert_eq!(
            otherwise,
            format!("main advanced to {COMMIT} but run r1 could not be completed; inspect show and doctor")
        ),
        _ => panic!("not finished"),
    }
    assert_eq!(resume_attempts(None, 3), 3);
    assert_eq!(resume_attempts(Some(1), 3), 1);
}

#[test]
fn a_push_is_skipped_reported_or_done() {
    let report = |push, has: Option<Result<bool, String>>, pushed: Option<Result<(), String>>| {
        match push_main(push, "origin", &has, &pushed) {
            PushStep::Report(report) => report,
            PushStep::HasRemote => panic!("asks for the remote"),
            PushStep::Push => panic!("asks to push"),
        }
    };
    let skipped = report(false, None, None);
    assert_eq!(skipped.reason.as_deref(), Some("--no-push"));
    let (kind, payload) = push_event(&skipped, COMMIT);
    assert_eq!(kind, "push_skipped");
    assert!(show(&payload).contains("--no-push"));
    let remoteless = report(true, Some(Ok(false)), None);
    assert_eq!(remoteless.reason.as_deref(), Some("the repository has no remote origin"));
    let failed = report(true, Some(Ok(true)), Some(Err("denied".to_owned())));
    assert_eq!(push_event(&failed, COMMIT).0, "push_failed");
    let pushed = report(true, Some(Ok(true)), Some(Ok(())));
    assert_eq!(push_event(&pushed, COMMIT).0, "push_finished");
    assert!(matches!(push_main(true, "origin", &None, &None), PushStep::HasRemote));
}

#[test]
fn a_landed_worktree_is_removed_or_its_failure_told() {
    match remove_landed_worktree("/w", "b", &Err("busy".to_owned())) {
        Removal::Failed { message, code } => {
            assert_eq!(message, "landed worktree /w could not be removed: busy");
            assert!(code == ReasonCode::GitFailed);
        }
        _ => panic!("removed"),
    }
    assert!(matches!(remove_landed_worktree("/w", "b", &Ok(())), Removal::Removed { .. }));
    assert!(!close_landing_asks().is_empty());
}

#[test]
fn what_follows_a_landing_is_in_order() {
    let walk = |run: &TaskRun, removed: Result<(), String>| {
        let mut seen = LandedSeen {
            asks_closed: false,
            removed: None,
            removal_recorded: false,
            pushed: false,
            registered: false,
        };
        let mut done: Vec<String> = Vec::new();
        loop {
            done.push(match after_landing(run, &seen) {
                LandedStep::CloseAsks { answer } => {
                    assert_eq!(answer, "the run was integrated; closed by the runtime");
                    seen.asks_closed = true;
                    "close".to_owned()
                }
                LandedStep::RemoveWorktree { worktree, branch } => {
                    assert_eq!((worktree.as_str(), branch.as_str()), ("/runs/r1/worktree", "dagq/r1"));
                    seen.removed = Some(removed.clone());
                    "remove".to_owned()
                }
                LandedStep::RecordRemoval(removal) => {
                    seen.removal_recorded = true;
                    match removal {
                        Removal::Removed { .. } => "removed".to_owned(),
                        Removal::Failed { message, .. } => message,
                    }
                }
                LandedStep::Push => {
                    seen.pushed = true;
                    "push".to_owned()
                }
                LandedStep::RegisterFollowUps => {
                    seen.registered = true;
                    "follow ups".to_owned()
                }
                LandedStep::Done => return done,
            });
        }
    };
    assert_eq!(walk(&run(), Ok(())), ["close", "remove", "removed", "push", "follow ups"]);
    let busy = "landed worktree /runs/r1/worktree could not be removed: busy";
    assert_eq!(walk(&run(), Err("busy".to_owned())), ["close", "remove", busy, "push", "follow ups"]);
    let without = TaskRun { branch: None, ..run() };
    assert_eq!(walk(&without, Ok(())), ["close", "push", "follow ups"]);
}
