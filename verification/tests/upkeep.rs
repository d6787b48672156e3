//! Runs taken over, workspaces swept, worktrees cleaned, and the disk.

use dagq::domain::{
    AskReason, Asker, ReasonCode, RunEvent, RunProcess, RunStatus, TaskRun, TaskStatus,
};
use dagq::json::{Fields, Json};
use dagq::supervise::adopt::{
    adopt_review, adopt_session, adopt_stale_run, adoptable, exit_watch, has_event, lease_stale,
    note_resume_adopted, passed_before, recorded_verdict, session_of, skipped_resume, wrapper_alive,
    AdoptedNext, Handoff, ReviewSeen, ReviewStep, StaleSeen, StaleStep,
};
use dagq::supervise::cleanup::{
    clean_worktree, record_cleanup, remove_worktree, run_job, short_name, still_to_clean,
    CleanSeen, CleanStep, CleanupWatch, EndedRunWorktree, JobSeen, JobStep, Outcome, OutputSeen,
    PollSeen, PollStep, RemoveSeen, RemoveStep,
};
use dagq::supervise::disk::{
    ask_for_disk, builds, check_disk, cleaned_for_disk, disk_hold, disk_question, free_bytes,
    is_disk_ask, live_tokens, most, record_hold, CheckSeen, CheckStep, Cleaned, DiskAsk, DiskNeeds,
    DiskRequest, DiskWatch, HoldChange, HoldRecordStep, HoldSeen, Joining, Registration,
};
use dagq::supervise::resume_watch::{adopted_state, StateSeen, StateStep};
use dagq::supervise::resume::{
    adopt_resume, close_left_resume_workspace, LeftStep as ResumeLeftStep, RunWorkspace,
};
use dagq::supervise::slot::AfterExit;
use dagq::supervise::sweep::{
    add_once, close_open_workspace, close_open_workspaces, sweep_candidates, sweep_due,
    sweep_ended_workspaces, sweep_workspace, swept_answer, CloseSeen, CloseStep,
    EndedRunWorkspace, LeftSeen, LeftStep, SweepPassSeen, SweepPassStep, SweepSeen, SweepStep,
    WorkspaceCloser,
};

fn run(status: RunStatus) -> TaskRun {
    TaskRun {
        id: "r1".to_owned(),
        task_id: 7,
        status,
        base_commit: "0000000000000000000000000000000000000000".to_owned(),
        branch: Some("dagq/r1".to_owned()),
        worktree_path: Some("/runs/r1/worktree".to_owned()),
        workspace_id: Some("w1".to_owned()),
        receipt_path: Some("/runs/r1/receipt.json".to_owned()),
        result_commit: None,
        run_dir: Some("/runs/r1".to_owned()),
        last_error: None,
        workspace_closed: false,
    }
}

fn event(id: i64, kind: &str, payload: Json) -> RunEvent {
    RunEvent { id, kind: kind.to_owned(), at_millis: None, payload }
}

fn wrapper(exited_at: Option<i64>) -> Option<RunProcess> {
    Some(RunProcess { role: "wrapper".to_owned(), pid: 9, heartbeat_at: 100, exited_at })
}

#[test]
fn only_a_run_past_its_start_is_adopted() {
    let go = |status: RunStatus, alive: bool| {
        adoptable(status, &wrapper(None), alive, 120, 60, &Vec::new())
    };
    assert!(go(RunStatus::Running, true));
    assert!(go(RunStatus::Validating, true));
    assert!(go(RunStatus::AwaitingIntegration, false));
    assert!(!go(RunStatus::Running, false));
    assert!(!go(RunStatus::Starting, true));
    assert!(!go(RunStatus::Claimed, true));
    assert!(!go(RunStatus::Integrating, true));
    assert!(lease_stale(false, 100, 101, 60));
    assert!(lease_stale(true, 100, 161, 60));
    assert!(!lease_stale(true, 100, 160, 60));
    assert_eq!(wrapper_alive(&wrapper(None), true, 161, 60), Some(false));
    assert_eq!(wrapper_alive(&wrapper(Some(110)), true, 120, 60), None);
    assert!(!skipped_resume(&Vec::new()));
}

#[test]
fn a_live_lease_is_not_taken() {
    let seen = |stale: bool, adopted: Option<Option<TaskRun>>| StaleSeen {
        stale,
        adoptable: true,
        as_waiting: Some(false),
        adopted,
        rebuilt: None,
        noted: false,
    };
    let go = |room: bool, seen: &StaleSeen| {
        adopt_stale_run(&wrapper(None), true, 120, 60, room, seen)
    };
    assert!(matches!(go(true, &seen(false, None)), StaleStep::Next));
    assert!(matches!(go(true, &seen(true, None)), StaleStep::Adopt { .. }));
    assert!(matches!(go(false, &seen(true, None)), StaleStep::Next));
    assert!(matches!(go(true, &seen(true, Some(None))), StaleStep::Next));
    let got = |status: RunStatus| seen(true, Some(Some(run(status))));
    assert!(matches!(go(true, &got(RunStatus::AwaitingIntegration)), StaleStep::AdoptReview));
    assert!(matches!(go(true, &got(RunStatus::NeedsSession)), StaleStep::AdoptResume));
    assert!(matches!(go(true, &got(RunStatus::Running)), StaleStep::Resume));
    assert!(matches!(go(true, &got(RunStatus::Validating)), StaleStep::Validate));
    let rebuilt = |status: RunStatus, noted: bool| StaleSeen {
        rebuilt: Some(Ok(())),
        noted,
        ..got(status)
    };
    let parked = RunStatus::NeedsSession;
    assert!(matches!(go(true, &rebuilt(parked, false)), StaleStep::NoteResume));
    assert!(matches!(go(true, &rebuilt(parked, true)), StaleStep::Take { as_waiting: false }));
    let running = RunStatus::Running;
    assert!(matches!(go(true, &rebuilt(running, false)), StaleStep::Take { as_waiting: false }));
    let failed = StaleSeen {
        rebuilt: Some(Err("no receipt path".to_owned())),
        ..got(RunStatus::Running)
    };
    match go(true, &failed) {
        StaleStep::Abandon { message, fallback } => {
            assert!(fallback == ReasonCode::Other);
            assert_eq!(message, "run r1 could not be resumed: no receipt path");
        }
        _ => panic!("taken"),
    }
}

#[test]
fn an_adopted_session_remembers_what_was_done() {
    let events = vec![
        event(1, "receipt_observed", Fields::new().done()),
        event(2, "exit_requested", Fields::new().done()),
    ];
    let session = match adopt_session(&run(RunStatus::Running), &events, true, false) {
        Ok(session) => session,
        Err(why) => panic!("{why}"),
    };
    assert!(session.receipt_seen && session.exit_requested && !session.exit_timed_out);
    assert!(session.exit_asked);
    let bare = TaskRun { workspace_id: None, ..run(RunStatus::Running) };
    match adopt_session(&bare, &events, true, false) {
        Err(why) => assert_eq!(why, "adopted run has no workspace"),
        Ok(_) => panic!("adopted"),
    }
    assert!(has_event(&events, "exit_requested") && !has_event(&events, "exit"));
    let watch = exit_watch(None, AfterExit::Land, true, false, true, 40);
    assert_eq!(watch.requested, Some(40));
    let taken = Some(Handoff { previous_version: Some("1".to_owned()) });
    let record = note_resume_adopted("w2", 3, true, "2", &taken);
    assert_eq!(record.get("conditions").unwrap().integer("attempt"), Some(3));
    assert_eq!(record.get("detail").unwrap().text("previous_version"), Some("1".to_owned()));
}

fn review_seen() -> ReviewSeen {
    ReviewSeen {
        ask: None,
        failure_recorded: false,
        session_alive: Some(true),
        approve_asked: Some(false),
        stuck_asked: Some(false),
    }
}

fn passed() -> Json {
    Fields::new().text("verdict", "pass").texts("reasons", &Vec::new()).text("summary", "ok").done()
}

#[test]
fn a_review_is_taken_up_where_it_stopped() {
    let go = |events: &Vec<RunEvent>, anchor: Option<usize>| {
        let status = RunStatus::AwaitingIntegration;
        adopt_review(&run(status), events, anchor, false, &None, &review_seen())
    };
    assert!(matches!(go(&Vec::new(), None), ReviewStep::StartReview));
    let started = vec![event(1, "review_started", Fields::new().done())];
    assert!(matches!(go(&started, Some(0)), ReviewStep::StartReview));
    let approved = vec![
        event(1, "validation_finished", Fields::new().done()),
        event(2, "integration_approved", Fields::new().done()),
    ];
    assert!(matches!(
        go(&approved, Some(0)),
        ReviewStep::Exiting { next: AdoptedNext::Land, .. }
    ));
    let finished = vec![event(1, "review_finished", passed())];
    assert!(matches!(go(&finished, Some(0)), ReviewStep::Precheck { .. }));
    assert!(recorded_verdict(&passed()).is_some());
    assert!(recorded_verdict(&Fields::new().done()).is_none());
    assert!(passed_before(&finished, 2).is_some());
    assert!(passed_before(&finished, 1).is_none());
}

fn candidate(status: RunStatus, task_status: TaskStatus) -> EndedRunWorktree {
    EndedRunWorktree {
        run_id: "r1".to_owned(),
        status,
        task_id: 7,
        task_status,
        worktree: "/runs/r1/worktree".to_owned(),
        branch: Some("dagq/r1".to_owned()),
    }
}

fn unseen() -> OutputSeen {
    OutputSeen { size: None, versioned: None, removed: false }
}

fn clean_seen() -> CleanSeen {
    CleanSeen {
        is_dir: Some(true),
        branches: None,
        pruned: false,
        branch_deleted: false,
        size: None,
        removed: None,
        first: unseen(),
        second: unseen(),
    }
}

#[test]
fn a_request_for_a_cleanup_only_grows() {
    let mut watch = CleanupWatch::new();
    assert!(watch.request_cleanup(Some(7), None));
    assert!(watch.request_cleanup(Some(7), None));
    assert_eq!(watch.pending.tasks, [7]);
    assert!(!watch.pending.all && watch.may_start());
    assert!(watch.request_cleanup(None, None));
    assert!(watch.pending.all);
    let all = vec![
        candidate(RunStatus::Integrated, TaskStatus::Completed),
        EndedRunWorktree {
            run_id: "r2".to_owned(),
            ..candidate(RunStatus::Failed, TaskStatus::InProgress)
        },
    ];
    let started = watch.start_cleanup(&Some(all), &vec!["r2".to_owned()]).unwrap();
    assert_eq!(started.candidates, [0]);
    assert!(watch.running() && watch.reserves("r1") && !watch.reserves("r2"));
    watch.passed("r1");
    assert!(!watch.reserves("r1"));
    assert!(watch.joined().is_none() && !watch.running());
    watch.end();
    assert!(!watch.request_cleanup(None, None));
}

#[test]
fn the_next_cleanup_starts_once_the_last_is_recorded() {
    let request = DiskRequest { free: Some(5), needed: Some(9) };
    let mut watch = CleanupWatch::new();
    assert_eq!(watch.poll_cleanup(false, PollSeen::default()), PollStep::Done);
    assert!(watch.request_cleanup(None, Some(request)));
    let all = vec![candidate(RunStatus::Integrated, TaskStatus::Completed)];
    assert!(watch.start_cleanup(&Some(all), &Vec::new()).is_some());
    assert!(watch.request_cleanup(Some(7), None));
    let mut seen = PollSeen::default();
    assert_eq!(watch.poll_cleanup(false, seen), PollStep::Finished);
    seen.finished = Some(false);
    assert_eq!(watch.poll_cleanup(false, seen), PollStep::Done);
    seen.finished = Some(true);
    assert_eq!(watch.poll_cleanup(false, seen), PollStep::Join);
    seen.joined = Some(watch.joined());
    assert_eq!(seen.joined, Some(Some(request)));
    assert_eq!(watch.poll_cleanup(false, seen), PollStep::Record);
    seen.recorded = true;
    assert_eq!(watch.poll_cleanup(false, seen), PollStep::CleanedForDisk { disk: request });
    seen.told = true;
    assert_eq!(watch.poll_cleanup(false, seen), PollStep::Start);
    assert_eq!(watch.poll_cleanup(true, seen), PollStep::End);
    watch.end();
    seen.ended = true;
    assert_eq!(watch.poll_cleanup(true, seen), PollStep::Done);
}

#[test]
fn only_what_is_still_ended_is_cleaned() {
    let ended = candidate(RunStatus::Failed, TaskStatus::InProgress);
    assert!(still_to_clean(&vec![candidate(RunStatus::Failed, TaskStatus::InProgress)], &ended));
    assert!(!still_to_clean(&Vec::new(), &ended));
    let seen = |next: usize, still: Option<bool>, stopped: bool| JobSeen {
        opened: Some(true),
        next,
        stopped,
        still,
        cleaned: false,
        cleared: false,
        pruned: false,
        prune_tried: false,
    };
    assert!(run_job(1, false, &seen(0, None, false)) == JobStep::Still { index: 0 });
    assert!(run_job(1, false, &seen(0, Some(true), false)) == JobStep::Clean { index: 0 });
    assert!(run_job(1, false, &seen(0, Some(false), false)) == JobStep::Pass { index: 0 });
    assert!(run_job(1, false, &seen(0, None, true)) == JobStep::Clear);
    assert!(run_job(1, false, &JobSeen { opened: Some(false), ..seen(0, None, false) }) == JobStep::Done);
}

#[test]
fn the_checkout_itself_is_not_touched() {
    let over = || candidate(RunStatus::Integrated, TaskStatus::Completed);
    let outside = EndedRunWorktree { worktree: "/home/w".to_owned(), ..over() };
    assert!(matches!(clean_worktree(&outside, "/runs", "/repo", &clean_seen()), CleanStep::Nothing));
    assert!(matches!(
        clean_worktree(&over(), "/runs", "/runs/r1/worktree/repo", &clean_seen()),
        CleanStep::Nothing
    ));
    assert!(matches!(
        clean_worktree(&over(), "/runs", "/repo", &clean_seen()),
        CleanStep::MeasureWorktree
    ));
    let removed = CleanSeen { size: Some(Some(30)), removed: Some(true), ..clean_seen() };
    match clean_worktree(&over(), "/runs", "/repo", &removed) {
        CleanStep::Did(Outcome::Worktree { bytes, missing, repaired, .. }) => {
            assert!(bytes == 30 && !missing && repaired);
        }
        _ => panic!("not removed"),
    }
}

#[test]
fn a_task_that_goes_on_keeps_its_worktree() {
    let goes_on = candidate(RunStatus::Failed, TaskStatus::InProgress);
    match clean_worktree(&goes_on, "/runs", "/repo", &clean_seen()) {
        CleanStep::Measure { dir } => assert!(dir.starts_with("/runs/r1/worktree/")),
        _ => panic!("its outputs are not measured"),
    }
    let live = candidate(RunStatus::Running, TaskStatus::InProgress);
    assert!(matches!(clean_worktree(&live, "/runs", "/repo", &clean_seen()), CleanStep::Nothing));
    assert_eq!(short_name("refs/heads/dagq/r1"), "dagq/r1");
}

#[test]
fn a_cleanup_is_recorded_and_a_failure_once() {
    let mut failures: Vec<String> = Vec::new();
    let mut cleaned = Cleaned::new();
    let over = candidate(RunStatus::Integrated, TaskStatus::Completed);
    let outcome = Outcome::Worktree {
        branch: "dagq/r1".to_owned(),
        bytes: 30,
        missing: false,
        repaired: false,
    };
    let record = record_cleanup(&over, &outcome, &mut failures, &mut cleaned).unwrap();
    assert_eq!(record.kind, "worktree_removed");
    assert_eq!(record.payload.text("reason"), Some("task_completed".to_owned()));
    assert_eq!(cleaned.bytes, 30);
    assert_eq!(cleaned.runs, ["r1"]);
    let failed = Outcome::Failed { error: "busy".to_owned() };
    let record = record_cleanup(&over, &failed, &mut failures, &mut cleaned).unwrap();
    assert!(record.fallback == Some(ReasonCode::Other));
    assert_eq!(
        record.payload.text("message"),
        Some("worktree /runs/r1/worktree could not be cleaned: busy".to_owned())
    );
    assert!(record_cleanup(&over, &failed, &mut failures, &mut cleaned).is_none());
    let mut seen = RemoveSeen {
        removed: Some(Err("locked".to_owned())),
        repaired: None,
        removed_again: None,
    };
    assert!(matches!(remove_worktree(&seen), RemoveStep::Repair));
    seen.repaired = Some(Ok(()));
    seen.removed_again = Some(Err("still".to_owned()));
    match remove_worktree(&seen) {
        RemoveStep::Failed(why) => {
            assert_eq!(why, "locked; repaired, and removing it again failed: still");
        }
        _ => panic!("removed"),
    }
    assert!(add_once(&mut failures, "/new") && !add_once(&mut failures, "/new"));
}

fn check_seen(free: u64) -> CheckSeen {
    CheckSeen {
        asks: Some(Vec::new()),
        applied: 0,
        needs: Some(DiskNeeds { claim: Some(50), landing: Some(80) }),
        free: Some(Some(free)),
        cleaned: false,
        for_disk: Some(false),
        kept: true,
        settled: false,
        landings: vec!["r1".to_owned()],
        held: false,
    }
}

#[test]
fn the_disk_is_asked_for_only_when_it_is_short() {
    assert_eq!(most(DiskNeeds { claim: Some(50), landing: Some(80) }), Some(80));
    assert_eq!(most(DiskNeeds { claim: None, landing: None }), None);
    assert!(matches!(check_disk(false, &check_seen(70)), CheckStep::CleanForDisk));
    let tried = CheckSeen { cleaned: true, ..check_seen(70) };
    match check_disk(false, &tried) {
        CheckStep::AskForDisk { runs, open } => {
            assert_eq!(runs, ["r1"]);
            assert!(!open);
        }
        _ => panic!("not asked"),
    }
    assert!(matches!(check_disk(false, &check_seen(80)), CheckStep::HaveRoom));
    assert!(matches!(check_disk(true, &check_seen(80)), CheckStep::CloseAsks {
        answer: "the free disk space is enough again; closed by the runtime"
    }));
    let unkept = CheckSeen { kept: false, cleaned: true, ..check_seen(70) };
    assert!(matches!(
        check_disk(false, &unkept),
        CheckStep::Keep { cleaning: false, landing_short: true }
    ));
    let answered = DiskAsk { id: 3, answer: Some("done".to_owned()), answered: true, open: true };
    let told = CheckSeen { asks: Some(vec![answered]), ..check_seen(70) };
    assert!(matches!(check_disk(true, &told), CheckStep::CloseAnswered { index: 0 }));
    assert!(is_disk_ask(true, AskReason::Cost, &Some("disk".to_owned())));
    assert!(!is_disk_ask(true, AskReason::Cost, &None));
    assert_eq!(free_bytes(None, Some(4)), Some(4));
    assert!(disk_question("1 GiB", "2 GiB", "3 GiB").contains("1 GiB free, a new run needs 2 GiB"));
}

#[test]
fn a_disk_watch_asks_again_after_done() {
    let mut watch = DiskWatch::new();
    let runs = vec!["r1".to_owned(), "r2".to_owned()];
    assert!(matches!(ask_for_disk(&watch, &Vec::new(), false), Joining::Queue));
    watch.opened();
    watch.join("r1".to_owned());
    match ask_for_disk(&watch, &runs, true) {
        Joining::Runs(list) => assert_eq!(list, ["r2"]),
        _ => panic!("not joined"),
    }
    assert!(matches!(ask_for_disk(&watch, &runs, false), Joining::Waiting));
    watch.is_clean();
    assert!(watch.asked);
    watch.answered(&Some("wait".to_owned()));
    assert!(watch.asked);
    watch.answered(&Some(" done ".to_owned()));
    assert!(!watch.asked && watch.joined.is_empty());
    watch.opened();
    watch.has_room();
    assert!(!watch.asked);
    let needs = DiskNeeds { claim: Some(1), landing: None };
    watch.needs_read(5, needs);
    assert!(watch.disk_needs(6).is_some());
    assert!(watch.disk_needs(5 + 60_000_000_000).is_none());
    assert!(watch.clean_for_disk(5) && !watch.clean_for_disk(6));
}

#[test]
fn a_cleanup_for_the_disk_is_recorded_when_it_freed_something() {
    let request = DiskRequest { free: Some(10), needed: Some(80) };
    let mut removed = Cleaned::new();
    assert!(cleaned_for_disk(request, &removed, Some(10), "t").is_none());
    removed.add("r1", 30);
    let record = cleaned_for_disk(request, &removed, Some(40), "t").unwrap();
    assert_eq!(record.integer("bytes"), Some(30));
    let conditions = record.get("conditions").unwrap();
    assert_eq!(conditions.integer("free_bytes_after"), Some(40));
    let payloads = vec![Fields::new().number("bytes", 5).done(), Fields::new().done()];
    assert_eq!(builds(&payloads), [5]);
    let registration = |token: &str, alive: bool| Registration {
        token: token.to_owned(),
        heartbeat_at: 100,
        alive,
    };
    let all = vec![registration("a", true), registration("b", false)];
    assert_eq!(live_tokens(&all, 120, 60), ["a"]);
    let hold = disk_hold(&Some("r1".to_owned()), "why", "disk", &vec!["done".to_owned()]);
    assert!(hold.category == AskReason::Cost && hold.asked_by == Asker::Supervisor);
    assert_eq!((hold.subject.as_str(), hold.question.as_str()), ("disk", "why"));
    assert_eq!((hold.run_id.as_deref(), hold.options.len()), (Some("r1"), 1));
}

#[test]
fn a_hold_is_recorded_where_it_changed() {
    let record = |held: bool, seen: &HoldSeen| record_hold(held, 120, 60, seen);
    let mut seen = HoldSeen::default();
    assert!(matches!(record(true, &seen), HoldRecordStep::ReadLast));
    seen.last_read = true;
    assert!(matches!(record(true, &seen), HoldRecordStep::ReadSupervisors));
    let registration = |token: &str, heartbeat_at: i64, alive: bool| Registration {
        token: token.to_owned(),
        heartbeat_at,
        alive,
    };
    seen.supervisors = Some(vec![
        registration("gone", 119, false),
        registration("one", 100, true),
        registration("stale", 1, true),
        registration("two", 119, true),
    ]);
    match record(true, &seen) {
        HoldRecordStep::Transition { live } => assert_eq!(live, ["one", "two"]),
        _ => panic!("not held against the last one"),
    }
    seen.change = Some(None);
    assert!(matches!(record(true, &seen), HoldRecordStep::Held(true)));
    let change = HoldChange { kind: "claim_held".to_owned(), payload: Fields::new().done() };
    seen.change = Some(Some(change));
    match record(false, &seen) {
        HoldRecordStep::Record { kind, .. } => assert_eq!(kind, "claim_held"),
        _ => panic!("not recorded"),
    }
    seen.recorded = true;
    assert!(matches!(record(false, &seen), HoldRecordStep::Held(false)));
}

#[test]
fn an_unlisted_workspace_is_left_alone() {
    let ended = EndedRunWorkspace {
        run_id: "r1".to_owned(),
        status: RunStatus::Failed,
        workspace_id: "w1".to_owned(),
    };
    let seen = |closed: Option<Result<(), String>>| SweepSeen {
        closed,
        failed_before: false,
        recorded: false,
    };
    let listed = vec!["w1".to_owned()];
    assert!(matches!(
        sweep_workspace(&ended, &Vec::new(), &seen(None)),
        SweepStep::Next { closed: false }
    ));
    assert!(matches!(sweep_workspace(&ended, &listed, &seen(None)), SweepStep::Close));
    match sweep_workspace(&ended, &listed, &seen(Some(Ok(())))) {
        SweepStep::RecordClosed { payload } => {
            assert_eq!(payload.text("reason"), Some("superseded".to_owned()));
        }
        _ => panic!("not recorded"),
    }
    let again = SweepSeen { failed_before: true, ..seen(Some(Err("busy".to_owned()))) };
    assert!(matches!(
        sweep_workspace(&ended, &listed, &again),
        SweepStep::Next { closed: false }
    ));
    assert_eq!(sweep_candidates(&vec![ended], &vec!["r1".to_owned()]), [0usize; 0]);
    assert!(sweep_due(None, 0, 10) && !sweep_due(Some(0), 9, 10) && sweep_due(Some(0), 10, 10));
}

#[test]
fn the_workspaces_of_an_ended_run_are_closed() {
    let open = RunWorkspace {
        workspace_id: "w2".to_owned(),
        resume_attempt: Some(2),
        closed: false,
    };
    let seen = LeftSeen { listed: Some(Ok(true)), closed: Some(Ok(())), recorded: false };
    match close_open_workspace(&open, WorkspaceCloser::Triage, RunStatus::Failed, &seen) {
        LeftStep::RecordClosed { payload } => {
            assert_eq!(payload.integer("resume_attempt"), Some(2));
            assert_eq!(payload.text("by"), Some(WorkspaceCloser::Triage.closed_by().to_owned()));
        }
        _ => panic!("not recorded"),
    }
    let gone = LeftSeen { listed: Some(Ok(false)), closed: None, recorded: false };
    assert!(matches!(
        close_open_workspace(&open, WorkspaceCloser::Triage, RunStatus::Failed, &gone),
        LeftStep::Next { closed: false }
    ));
    let seen = |next: usize, closed: bool| CloseSeen {
        next,
        closed,
        stuck_closed: false,
        prompts_closed: false,
        stalls_closed: false,
    };
    let close = |closer, seen| close_open_workspaces(1, closer, seen);
    assert!(matches!(
        close(WorkspaceCloser::Triage, seen(0, false)),
        CloseStep::Workspace { index: 0 }
    ));
    assert!(matches!(
        close(WorkspaceCloser::Triage, seen(1, true)),
        CloseStep::CloseStuckExitAsks { answer: "the triage closed the run's workspace" }
    ));
    assert!(matches!(
        close(WorkspaceCloser::Supervisor, seen(1, false)),
        CloseStep::CloseAnswerPromptAsks { answer: "the run ended; closed by the runtime" }
    ));
}

#[test]
fn the_session_of_a_run_is_the_one_still_open() {
    let validating = run(RunStatus::Validating);
    let own = session_of(&validating, &Vec::new()).unwrap();
    assert_eq!((own.workspace.as_str(), own.resume), ("w1", None));
    let finished = Fields::new()
        .text("status", "validating")
        .text("workspace_id", "w2")
        .number("attempt", 2)
        .done();
    let mut events = vec![event(5, "resume_finished", finished)];
    let resumed = session_of(&validating, &events).unwrap();
    assert_eq!((resumed.workspace.as_str(), resumed.resume), ("w2", Some(2)));
    events.push(event(6, "workspace_closed", Fields::new().text("workspace_id", "w2").done()));
    assert!(session_of(&validating, &events).is_none());
    let closed = TaskRun { workspace_closed: true, ..run(RunStatus::Validating) };
    assert!(session_of(&closed, &Vec::new()).is_none());
}

#[test]
fn an_adopted_resume_goes_on_from_its_request() {
    let of = |key: &str| Fields::new().number(key, 2);
    let needs = run(RunStatus::NeedsSession);
    assert!(matches!(
        adopted_state(&needs, &Vec::new(), &StateSeen::default()),
        StateStep::Failed(why) if why == "adopted run has no resume in progress"
    ));
    let events = vec![
        event(1, "resume_started", of("attempt").done()),
        event(2, "workspace_created", of("resume_attempt").text("workspace_id", "w2").done()),
        event(3, "resume_request_sent", of("resume_attempt").done()),
        event(4, "integration_approved", Fields::new().done()),
    ];
    let mut seen = StateSeen::default();
    let dir = needs.run_dir.clone().unwrap();
    match adopted_state(&needs, &events, &seen) {
        StateStep::ReadRequest { file } => assert_eq!(file, format!("{dir}/resume-2.txt")),
        _ => panic!("not read"),
    }
    seen.message = Some(Ok("resolve it".to_owned()));
    assert!(matches!(adopted_state(&needs, &events, &seen), StateStep::Written { .. }));
    seen.started_at = Some(Ok(7));
    assert!(matches!(adopted_state(&needs, &events, &seen), StateStep::SentAt { index: 2 }));
    seen.sent_at = Some(Some(-5));
    match adopted_state(&needs, &events, &seen) {
        StateStep::GoOn(state) => {
            assert_eq!((state.workspace.as_str(), state.attempt), ("w2", 2));
            assert_eq!((state.message.as_str(), state.started_at), ("resolve it", 7));
            assert_eq!(state.message_sent_at, Some(0));
            assert!(state.approved && !state.exit_requested && !state.not_ready_asked);
        }
        _ => panic!("not rebuilt"),
    }
    seen.message = Some(Err("gone".to_owned()));
    assert!(matches!(
        adopted_state(&needs, &events, &seen),
        StateStep::Failed(why) if why == "gone"
    ));
}

#[test]
fn a_resume_is_adopted_with_what_was_sent() {
    let of = |key: &str| Fields::new().number(key, 2);
    let mut events = vec![
        event(1, "resume_started", of("attempt").done()),
        event(2, "workspace_created", of("resume_attempt").text("workspace_id", "w2").done()),
    ];
    let adopted = adopt_resume(&events).unwrap();
    assert_eq!((adopted.attempt, adopted.workspace.as_str()), (2, "w2"));
    assert!(adopted.sent.is_none() && !adopted.exit_requested);
    events.push(event(3, "resume_finished", of("attempt").done()));
    assert!(adopt_resume(&events).is_none());
    let left = RunWorkspace {
        workspace_id: "w2".to_owned(),
        resume_attempt: Some(2),
        closed: false,
    };
    assert!(matches!(
        close_left_resume_workspace(&left, None, false, false),
        ResumeLeftStep::Exists
    ));
    let own = RunWorkspace { workspace_id: "w1".to_owned(), resume_attempt: None, closed: false };
    assert!(matches!(
        close_left_resume_workspace(&own, None, false, false),
        ResumeLeftStep::Next
    ));
    assert_eq!(swept_answer(), "the run ended; the runtime closed its workspace");
    assert_eq!(
        WorkspaceCloser::Triage.stuck_exit_answer(),
        "the triage closed the run's workspace"
    );
}

#[test]
fn the_asks_close_after_every_workspace_was_swept() {
    let mut seen = SweepPassSeen::default();
    assert!(matches!(sweep_ended_workspaces(0, 0, seen), SweepPassStep::Done));
    assert!(matches!(sweep_ended_workspaces(2, 0, seen), SweepPassStep::List));
    seen.listed = Some(false);
    assert!(matches!(sweep_ended_workspaces(2, 0, seen), SweepPassStep::Done));
    seen.listed = Some(true);
    assert!(matches!(sweep_ended_workspaces(2, 0, seen), SweepPassStep::Workspace { index: 0 }));
    seen.next = 1;
    assert!(matches!(sweep_ended_workspaces(2, 1, seen), SweepPassStep::Workspace { index: 1 }));
    seen.next = 2;
    match sweep_ended_workspaces(2, 1, seen) {
        SweepPassStep::CloseAsks { index, answer } => {
            assert_eq!(index, 0);
            assert_eq!(answer, "the run ended; the runtime closed its workspace");
        }
        _ => panic!("the asks stay open"),
    }
    seen.asks_closed = 1;
    assert!(matches!(sweep_ended_workspaces(2, 1, seen), SweepPassStep::Done));
}
