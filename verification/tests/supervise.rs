//! The loop, its slots, and the sessions they watch.

use dagq::domain::{
    Agent, AskKind, AskReason, Asker, ReasonCode, Receipt, ReceiptResult, RunEvent, RunProcess,
    RunStatus, Task, TaskRun, TaskStatus,
};
use dagq::integrate::receipt::{Checked, Field};
use dagq::json::{Fields, Json};
use dagq::lifecycle::agent::SupervisorMode;
use dagq::supervise::clock::{second, secs, since, unix_seconds, Timeouts, SECOND};
use dagq::supervise::disk::HoldChange;
use dagq::supervise::drive::{
    check_run_env_programs, drive, end_of_loop, fill_slots, hold_claims, mark_run_env_change,
    run_loop, supervise, ClaimsSeen, EndSeen, EndStep, Fill, FillSeen, FillStep, HoldStep, Layout,
    LoopState, PassSeen, PassStep, ProgramsSeen, ProgramsStep, RunEnvSeen, RunEnvStep, StartSeen,
    StartSettings, StartStep,
};
use dagq::supervise::exit::{
    ask_stuck_exit, background_waits, landable_without_exit, stuck_exit_after, stuck_exit_closed, wrapper_pulse,
    ExitSeen, ExitStep, ExitWatch, IdleLook, LiveStep, Note, PulseSeen, PulseStep, RecoverSeen,
    RecoverStep, Submission, UnsentSeen, UnsentStep, WrapperPulse,
};
use dagq::supervise::plan_review::planner_launch;
use dagq::supervise::recovery::RecoveryAlert;
use dagq::supervise::resume::{
    exhaust_resumes, finish_resumed_session, inherited_head, landed_since, resolved_head,
    resume_parked_run, resume_parked_runs, resume_reason, resumed_text, skip_resume, start_resume,
    Candidate, ExhaustSeen, ExhaustStep, FinishSeen, FinishStep, HeadSeen, HeadStep, LeftReceipt,
    ParkedPassSeen, ParkedPassStep, ParkedSeen, ParkedStep, ResolvedSeen, ResolvedStep,
    ResumeCount, ResumeKind, SkipSeen, SkipStep, TaskState,
};
use dagq::supervise::resume_watch::{
    rebuilt_resume, AskExitSeen, AskExitStep, ReceiptFile, ReceiptLook, ResumeOutcome, ResumeSeen,
    ResumeState, ResumeStep, ResumeVerdict, ResumeWatch, SendSeen, SendStep, Sent,
};
use dagq::supervise::slot::{
    step, AfterExit, AwaitingSeen, ExitingSeen, Joined, LandingSeen, Pass, Phase, SessionRef,
    Step, ValidatingSeen,
};
use dagq::supervise::sweep::WorkspaceCloser;
use dagq::supervise::tick::{
    close_workspace, due_observation, give_up_resume, latest_review_reasons, record_session_turns,
    note_launch, poll_observer, resumes_exhausted, session_alive, spawn_validation,
    start_observer_when_due, stop_job, tick, tick_slots, CloseStep, GiveUpSeen, GiveUpStep,
    ObserveMode, ObserverSeen, ObserverStep, PhaseKind, ReapStep, Settled, SlotLook, SlotsSeen,
    SlotsStep, Stepped,
};

const HEAD: &str = "2222222222222222222222222222222222222222";

fn run() -> TaskRun {
    TaskRun {
        id: "r1".to_owned(),
        task_id: 7,
        status: RunStatus::AwaitingIntegration,
        base_commit: "0000000000000000000000000000000000000000".to_owned(),
        branch: Some("dagq/r1".to_owned()),
        worktree_path: Some("/runs/r1/worktree".to_owned()),
        workspace_id: Some("w1".to_owned()),
        receipt_path: Some("/runs/r1/receipt.json".to_owned()),
        result_commit: Some(HEAD.to_owned()),
        run_dir: Some("/runs/r1".to_owned()),
        last_error: Some("it broke".to_owned()),
        workspace_closed: false,
    }
}

fn event(id: i64, kind: &str, payload: Json) -> RunEvent {
    RunEvent { id, kind: kind.to_owned(), at_millis: None, payload }
}

fn wrapper(heartbeat_at: i64, exited_at: Option<i64>) -> RunProcess {
    RunProcess { role: "wrapper".to_owned(), pid: 9, heartbeat_at, exited_at }
}

fn timeouts() -> Timeouts {
    Timeouts {
        registration: 30 * SECOND,
        exit: 10 * SECOND,
        resume: 100 * SECOND,
        prompt_delay: SECOND,
    }
}

fn layout() -> Layout {
    Layout {
        db: "/q/queue.db".to_owned(),
        runs_dir: "/runs".to_owned(),
        queue_hash: "abc".to_owned(),
        repo_root: "/repo".to_owned(),
        common_dir: "/repo/.git".to_owned(),
        agent: Agent { product: "The Agent".to_owned(), program: "agent".to_owned() },
        claude: "/bin/agent".to_owned(),
        runner: "/bin/dagq".to_owned(),
        pid: 42,
        version: "2".to_owned(),
        worker_env: Vec::new(),
        job_env: Vec::new(),
        observer_env_remove: Vec::new(),
        planners_dir: "/q/planners".to_owned(),
        plugin_dir: None,
        plan_reviews_dir: "/q/plan".to_owned(),
    }
}

fn pass() -> Pass {
    Pass { run_env_missing: false, landing_short: false, draining: false }
}

#[test]
fn times_are_counted_in_whole_seconds() {
    assert_eq!(secs(3 * SECOND + 999), 3);
    assert_eq!(since(5, 3), 0);
    assert_eq!(since(3, 5), 2);
    assert_eq!(second(2), 2_000_000_000);
    assert_eq!(unix_seconds(-5), 0);
}

#[test]
fn a_run_whose_lease_is_lost_is_not_touched() {
    let phase = Phase::Resume { decided: true };
    assert!(matches!(step(&run(), pass(), None, &phase), Step::HoldsLease));
    assert!(matches!(step(&run(), pass(), Some(false), &phase), Step::Disowned));
    assert!(matches!(step(&run(), pass(), Some(true), &phase), Step::FinishResumed));
}

fn awaiting() -> AwaitingSeen {
    AwaitingSeen {
        released: false,
        integrating: None,
        run: None,
        main: None,
        parked: None,
        begun: None,
        integrating_again: None,
    }
}

#[test]
fn a_landing_starts_only_in_a_free_slot_of_a_ready_host() {
    let go = |pass: Pass, seen: AwaitingSeen| {
        step(&run(), pass, Some(true), &Phase::AwaitingSlot(seen))
    };
    assert!(matches!(go(pass(), awaiting()), Step::Integrating));
    let busy = AwaitingSeen { integrating: Some(true), ..awaiting() };
    assert!(matches!(go(pass(), busy), Step::Continue));
    let short = Pass { landing_short: true, ..pass() };
    assert!(matches!(go(short, awaiting()), Step::Continue));
    let drained = Pass { run_env_missing: true, draining: true, ..pass() };
    assert!(matches!(go(drained, awaiting()), Step::ReleaseLease));
    let begun = AwaitingSeen {
        integrating: Some(false),
        run: Some(run()),
        main: Some("m".to_owned()),
        parked: Some(None),
        begun: Some(Ok(run())),
        ..awaiting()
    };
    assert!(matches!(go(pass(), begun), Step::Land { .. }));
}

#[test]
fn a_landing_is_joined_and_its_error_noted() {
    let panicked = Phase::Landing(LandingSeen {
        joined: Some(Joined::Panicked),
        noted: false,
        run: None,
    });
    match step(&run(), pass(), None, &panicked) {
        Step::NoteError(error) => {
            assert_eq!(error.message, "landing failed: landing thread panicked");
        }
        _ => panic!("not noted"),
    }
}

#[test]
fn a_validated_run_is_reviewed_unless_it_is_approved() {
    let seen = |approved: bool| {
        Phase::Validating(ValidatingSeen {
            session: Some(SessionRef { workspace: "w1".to_owned(), resume: None }),
            joined: Some(Joined::Done),
            finished: Some(run()),
            approved: Some(approved),
            parked_by_recheck: Some(false),
            unclosed_ask: Some(false),
        })
    };
    assert!(matches!(step(&run(), pass(), Some(true), &seen(false)), Step::StartReview { .. }));
    assert!(matches!(step(&run(), pass(), Some(true), &seen(true)), Step::Exit(AfterExit::Land)));
}

#[test]
fn a_run_rests_once_its_lease_is_given_back() {
    let seen = |released: bool, reread: Option<TaskRun>| {
        Phase::Exiting(ExitingSeen {
            session: None,
            after: AfterExit::Rest { close: true },
            ended: true,
            run: Some(run()),
            closed: Some(run()),
            queued: false,
            ask: None,
            recorded: false,
            released,
            reread,
        })
    };
    assert!(matches!(
        step(&run(), pass(), Some(true), &seen(false, None)),
        Step::ReleaseLease
    ));
    assert!(matches!(
        step(&run(), pass(), Some(true), &seen(true, Some(run()))),
        Step::Done(_)
    ));
}

fn unstarted() -> StartSeen {
    StartSeen {
        cmux_checked: false,
        agent_checked: false,
        bound: false,
        continued: None,
        token: None,
        registered: false,
        accepts_handoff: false,
        update_set: false,
        max_waiting_set: false,
        config_recorded: false,
        registration: None,
        start_recorded: false,
    }
}

#[test]
fn a_supervisor_registers_before_it_runs() {
    let settings = StartSettings {
        parallel: 2,
        max_waiting: 4,
        handoff_token: None,
        mode: Some(SupervisorMode::Launchd),
        register_update: true,
    };
    let mut seen = unstarted();
    let mut steps: Vec<&str> = Vec::new();
    loop {
        match supervise(&layout(), &settings, &seen) {
            StartStep::PreflightCmux => {
                steps.push("cmux");
                seen.cmux_checked = true;
            }
            StartStep::PreflightAgent => {
                steps.push("agent");
                seen.agent_checked = true;
            }
            StartStep::Bind { common_dir } => {
                steps.push("bind");
                assert_eq!(common_dir, "/repo/.git");
                seen.bound = true;
            }
            StartStep::NewToken => seen.token = Some("t".to_owned()),
            StartStep::Register { token, pid, parallel, .. } => {
                steps.push("register");
                assert_eq!((token.as_str(), pid, parallel), ("t", 42, 2));
                seen.registered = true;
            }
            StartStep::AcceptHandoff { .. } => seen.accepts_handoff = true,
            StartStep::SetAutoUpdate { .. } => seen.update_set = true,
            StartStep::SetMaxWaiting { .. } => seen.max_waiting_set = true,
            StartStep::RecordStallConfig { .. } => seen.config_recorded = true,
            StartStep::FindRegistration { .. } => seen.registration = Some(None),
            StartStep::RecordStarted { .. } => {
                steps.push("started");
                seen.start_recorded = true;
            }
            StartStep::ResumeRegistration { .. } => panic!("nothing to resume"),
            StartStep::Refused(why) => panic!("{why}"),
            StartStep::Run { token, rebuild } => {
                assert_eq!(token, "t");
                assert!(!rebuild);
                break;
            }
        }
    }
    assert_eq!(steps, ["cmux", "agent", "bind", "register", "started"]);
    let none = StartSettings { parallel: 0, ..settings };
    assert!(matches!(supervise(&layout(), &none, &unstarted()), StartStep::Refused(_)));
}

fn state() -> LoopState {
    LoopState {
        rebuildable: true,
        slots: 0,
        claiming: true,
        handoff: None,
        observer: false,
        plan_review: false,
        recheck: false,
        cleanup: false,
        cleanup_for_disk: false,
        cleanup_deferred: false,
        once: false,
    }
}

fn passed(stopping: bool) -> PassSeen {
    PassSeen {
        heartbeat: Some(None),
        noted: 0,
        stopping,
        cleanup_polled: true,
        env_checked: true,
        env_marked: true,
        disk_checked: true,
        waiting_returned: true,
        handoff_asked: true,
        rechecked: Some(false),
        prepared: None,
        observer_polled: true,
        filled: true,
        turns_recorded: true,
        observer_started: true,
        updated: true,
        planned: Some(false),
        ticked: false,
    }
}

#[test]
fn the_loop_ends_only_at_rest() {
    assert!(matches!(drive(&state(), &passed(true)), PassStep::Break));
    assert!(matches!(drive(&state(), &passed(false)), PassStep::Sleep { idle: true }));
    let busy = LoopState { slots: 1, ..state() };
    assert!(matches!(drive(&busy, &passed(true)), PassStep::Tick { .. }));
    let job = LoopState { plan_review: true, ..state() };
    assert!(matches!(drive(&job, &passed(true)), PassStep::Sleep { idle: false }));
    let lost = PassSeen { heartbeat: Some(Some("db".to_owned())), ..passed(false) };
    assert!(matches!(drive(&busy, &lost), PassStep::NoteLost { slot: 0, .. }));
    assert!(matches!(drive(&state(), &lost), PassStep::Failed(_)));
}

#[test]
fn a_draining_pass_starts_nothing_new() {
    let unplanned = PassSeen {
        planned: None,
        observer_started: false,
        updated: false,
        filled: false,
        ..passed(true)
    };
    match drive(&state(), &unplanned) {
        PassStep::PlanReview { start } => assert!(!start),
        _ => panic!("something was started"),
    }
    let open = PassSeen { filled: false, ..passed(false) };
    assert!(matches!(drive(&state(), &open), PassStep::FillSlots));
}

#[test]
fn a_handoff_waits_for_the_slots_to_settle() {
    let leaving = LoopState { handoff: Some("/bin/new".to_owned()), slots: 1, ..state() };
    match drive(&leaving, &passed(false)) {
        PassStep::HandedOff { .. } => panic!("handed off with a slot at work"),
        _ => {}
    }
    let polled = PassSeen { cleanup_polled: false, ..passed(false) };
    assert!(matches!(drive(&leaving, &polled), PassStep::PollCleanup { end: true }));
}

#[test]
fn the_end_of_the_loop_is_told() {
    assert!(end_of_loop(&Some("no worktree".to_owned()), 0, false).is_err());
    assert!(end_of_loop(&None, 1, false).is_ok());
    let mut seen = EndSeen {
        failed: false,
        handed_off: false,
        cleanup_ended: true,
        cleanup_finished: true,
        heartbeat_ok: true,
        stop_recorded: false,
        deregistered: false,
    };
    assert!(matches!(run_loop("t", "2", &seen), EndStep::RecordStopped { .. }));
    seen.stop_recorded = true;
    assert!(matches!(run_loop("t", "2", &seen), EndStep::Deregister));
    seen.deregistered = true;
    assert!(matches!(run_loop("t", "2", &seen), EndStep::Ended));
}

fn filling(done: Fill) -> FillSeen {
    FillSeen {
        done,
        held: false,
        claimable: Some(true),
        main: Some("m".to_owned()),
        host_read: true,
        claimed: None,
        provisioned: None,
        reread: None,
        abandoned: false,
    }
}

#[test]
fn claims_come_after_everything_else() {
    assert!(matches!(fill_slots(0, 1, false, &filling(Fill::Nothing)), FillStep::Part(Fill::Adopt)));
    assert!(matches!(fill_slots(0, 1, false, &filling(Fill::Sweep)), FillStep::Part(Fill::Hold)));
    assert!(matches!(fill_slots(0, 1, false, &filling(Fill::Hold)), FillStep::Claim { .. }));
    assert!(matches!(fill_slots(1, 1, false, &filling(Fill::Hold)), FillStep::Filled));
    assert!(matches!(fill_slots(0, 1, true, &filling(Fill::Hold)), FillStep::Filled));
    let held = FillSeen { held: true, ..filling(Fill::Hold) };
    assert!(matches!(fill_slots(0, 1, false, &held), FillStep::Filled));
}

#[test]
fn new_claims_are_held_by_the_disk_and_the_load() {
    let mut seen = ClaimsSeen::default();
    assert_eq!(hold_claims(true, Some(1), seen), HoldStep::ReadNeeds);
    seen.needed = Some(Some(2));
    assert_eq!(hold_claims(true, Some(1), seen), HoldStep::Held(true));
    let judge = HoldStep::Judge { free: Some(1), needed: Some(2) };
    assert_eq!(hold_claims(false, Some(1), seen), judge);
    seen.judged = Some(true);
    assert_eq!(hold_claims(false, Some(1), seen), HoldStep::Record { held: true });
    seen.recorded = Some(true);
    assert_eq!(hold_claims(false, Some(1), seen), HoldStep::Held(true));
}

#[test]
fn missing_programs_are_recorded_once() {
    let check = |last: bool, seen: &ProgramsSeen| check_run_env_programs(last, "t1", seen);
    let mut seen = ProgramsSeen::default();
    assert!(matches!(check(true, &seen), ProgramsStep::Look));
    seen.missing = Some(None);
    assert!(matches!(check(true, &seen), ProgramsStep::Done { missing: true }));
    seen.missing = Some(Some(vec!["cargo".to_owned()]));
    assert!(matches!(check(false, &seen), ProgramsStep::Transition));
    let kind = "run_env_program_missing".to_owned();
    seen.change = Some(Some(HoldChange { kind, payload: Fields::new().done() }));
    match check(false, &seen) {
        ProgramsStep::Record { kind, payload } => {
            assert_eq!(kind, "run_env_program_missing");
            assert_eq!(payload.text("supervisor"), Some("t1".to_owned()));
        }
        _ => panic!("not recorded"),
    }
    seen.recorded = true;
    assert!(matches!(check(false, &seen), ProgramsStep::Done { missing: true }));
    seen.missing = Some(Some(Vec::new()));
    assert!(matches!(check(true, &seen), ProgramsStep::Done { missing: false }));
}

#[test]
fn a_change_of_the_environment_is_marked_with_its_supervisor() {
    let seen = RunEnvSeen {
        table: Some(true),
        salt: Some(true),
        change: Some(Some(Fields::new().text("changed", "PATH").done())),
        recorded: false,
    };
    match mark_run_env_change("t", &seen) {
        RunEnvStep::Record { payload } => {
            assert_eq!(payload.text("supervisor"), Some("t".to_owned()));
            assert_eq!(payload.text("changed"), Some("PATH".to_owned()));
        }
        _ => panic!("not recorded"),
    }
    let unreadable = RunEnvSeen { table: Some(false), ..seen };
    assert!(matches!(mark_run_env_change("t", &unreadable), RunEnvStep::Done));
}

#[test]
fn a_slot_that_is_given_up_stops_its_jobs() {
    let failed = Stepped::Failed("gone".to_owned());
    assert!(matches!(tick(&run(), PhaseKind::Review, &failed, None), Settled::HoldsLease));
    match tick(&run(), PhaseKind::Review, &failed, Some(Some(true))) {
        Settled::Abandoned { stop, error, fallback } => {
            assert!(fallback == ReasonCode::Other);
            assert!(stop.own);
            assert_eq!(error.message, "gone");
        }
        _ => panic!("kept"),
    }
    match tick(&run(), PhaseKind::AwaitingSlot, &failed, Some(Some(true))) {
        Settled::NotLanding { error } => {
            assert_eq!(error.message, "landing could not start: gone");
        }
        _ => panic!("landing"),
    }
    let landed = Stepped::Done(TaskRun { status: RunStatus::Integrated, ..run() });
    assert!(matches!(
        tick(&run(), PhaseKind::Landing, &landed, None),
        Settled::Finished { note_landed: true, closer: Some(WorkspaceCloser::Supervisor) }
    ));
    assert!(stop_job(PhaseKind::Review).own);
}

#[test]
fn a_handoff_steps_only_the_slots_it_waits_for() {
    let slots = vec![
        SlotLook { rebuildable: true, waiting: false },
        SlotLook { rebuildable: true, waiting: true },
        SlotLook { rebuildable: false, waiting: false },
    ];
    let mut seen = SlotsSeen::default();
    assert_eq!(tick_slots(&slots, true, seen), SlotsStep::SampleLoad);
    seen.load_sampled = true;
    assert_eq!(tick_slots(&slots, true, seen), SlotsStep::Step { index: 2 });
    assert_eq!(tick_slots(&slots, false, seen), SlotsStep::StartWaits);
    seen.waits_started = true;
    assert_eq!(tick_slots(&slots, false, seen), SlotsStep::Step { index: 0 });
    seen.next = 1;
    assert_eq!(tick_slots(&slots, false, seen), SlotsStep::Watch { index: 1 });
    seen.next = 3;
    assert_eq!(tick_slots(&slots, true, seen), SlotsStep::Done);
}

#[test]
fn an_observer_runs_once_its_interval_is_over() {
    assert!(matches!(due_observation(0, true, 100, None, None, &Vec::new()), Ok(None)));
    assert!(due_observation(u128::MAX, true, 100, None, None, &Vec::new()).is_err());
    let due = due_observation(3600 * SECOND, false, 10_000, Some(1), None, &Vec::new());
    assert!(matches!(due, Ok(Some(ObserveMode::Hourly))));
    let soon = due_observation(1, false, 10_000, Some(10_000), None, &Vec::new());
    assert!(matches!(soon, Ok(Some(ObserveMode::Hourly))));
    let mut seen = ObserverSeen::default();
    let start = |running: bool, seen: &ObserverSeen| start_observer_when_due(&layout(), running, seen);
    assert!(matches!(start(true, &seen), ObserverStep::Nothing));
    assert!(matches!(start(false, &seen), ObserverStep::Due));
    seen.due = Some(Ok(None));
    assert!(matches!(start(false, &seen), ObserverStep::Nothing));
    seen.due = Some(Ok(Some(ObserveMode::Daily)));
    assert!(matches!(start(false, &seen), ObserverStep::RecordTurns));
    seen.turns_recorded = true;
    assert!(matches!(start(false, &seen), ObserverStep::NoteLaunch { mode: ObserveMode::Daily }));
    seen.noted = true;
    match start(false, &seen) {
        ObserverStep::Spawn { argv, dir, env_remove } => {
            assert_eq!(
                argv,
                ["/bin/dagq", "--db", "/q/queue.db", "observe", "--agent", "/bin/agent", "--daily"]
            );
            assert_eq!(dir, layout().repo_root);
            assert_eq!(env_remove, layout().observer_env_remove);
        }
        _ => panic!("not started"),
    }
    seen.spawned = Some(Err("gone".to_owned()));
    assert!(matches!(start(false, &seen), ObserverStep::Nothing));
    seen.spawned = Some(Ok(()));
    assert!(matches!(start(false, &seen), ObserverStep::Started { mode: ObserveMode::Daily }));
    let mut launches = vec![(ObserveMode::Daily, 1), (ObserveMode::Hourly, 2)];
    note_launch(&mut launches, ObserveMode::Daily, 3);
    assert_eq!(launches, [(ObserveMode::Hourly, 2), (ObserveMode::Daily, 3)]);
    assert_eq!(poll_observer(false, &None), ReapStep::Nothing);
    assert_eq!(poll_observer(true, &None), ReapStep::TryWait);
    assert_eq!(poll_observer(true, &Some(Ok(false))), ReapStep::Nothing);
    assert_eq!(poll_observer(true, &Some(Ok(true))), ReapStep::Forget);
    assert_eq!(poll_observer(true, &Some(Err("lost".to_owned()))), ReapStep::Forget);
    assert!(record_session_turns(false, None) && !record_session_turns(false, Some(1)));
}

#[test]
fn a_resume_that_is_given_up_is_recorded_and_closed() {
    let seen = GiveUpSeen { finished: false, processes: None, closed: false };
    let message = "it failed".to_owned();
    match give_up_resume(&run(), 2, &Some("w2".to_owned()), &message, false, &seen) {
        GiveUpStep::Finish { payload, fallback } => {
            assert!(fallback == ReasonCode::Other);
            assert_eq!(payload.integer("attempt"), Some(2));
        }
        _ => panic!("not recorded"),
    }
    let ended = GiveUpSeen { finished: true, processes: Some(Some(Vec::new())), closed: true };
    match give_up_resume(&run(), 2, &Some("w2".to_owned()), &message, false, &ended) {
        GiveUpStep::GivenUp(error) => assert_eq!(error.run_id, "r1"),
        _ => panic!("not given up"),
    }
    assert!(resumes_exhausted(None) && !resumes_exhausted(Some(false)));
    assert!(session_alive(&vec![wrapper(100, None)], &vec![true], 120, 60));
    assert!(!session_alive(&vec![wrapper(100, Some(110))], &vec![true], 120, 60));
    let reasons = vec!["too big".to_owned()];
    let reviewed = event(1, "review_finished", Fields::new().texts("reasons", &reasons).done());
    assert_eq!(latest_review_reasons(&vec![reviewed]), reasons);
}

fn receipt() -> Receipt {
    Receipt {
        result: ReceiptResult::Succeeded,
        commit: HEAD.to_owned(),
        summary: "did it".to_owned(),
        follow_ups: None,
        document: Fields::new().text("summary", "did it").done(),
    }
}

#[test]
fn a_validation_tells_what_was_checked() {
    let task = Task {
        id: 7,
        title: "t".to_owned(),
        status: TaskStatus::InProgress,
        paths: Vec::new(),
        verification_commands: Vec::new(),
        goal_id: None,
    };
    let accepted = Checked::Accepted { receipt: receipt(), commit: HEAD.to_owned() };
    let validation = spawn_validation(&task, &accepted).unwrap();
    assert!(validation.accepted);
    assert_eq!(validation.result_commit.as_deref(), Some(HEAD));
    assert_eq!(validation.receipt.text("summary"), Some("did it".to_owned()));
    match close_workspace(&run(), &Some(Err("busy".to_owned()))) {
        CloseStep::CleanupFailed { message, fallback } => {
            assert!(fallback == ReasonCode::BackendFailed);
            assert!(message.contains("busy"));
        }
        _ => panic!("closed"),
    }
}

fn watch(requested: Option<u128>) -> ExitWatch {
    let session = SessionRef { workspace: "w1".to_owned(), resume: None };
    let mut watch = ExitWatch::new(Some(session), AfterExit::Land, 0);
    if let Some(at) = requested {
        watch.sent(at, false);
    }
    watch
}

fn exit_seen() -> ExitSeen {
    ExitSeen {
        processes: Some(vec![wrapper(100, None)]),
        alive: None,
        screen: None,
        screen_kept: false,
        job_stopped: false,
        prompts_closed: false,
        asks_closed: false,
        pulse: Some(WrapperPulse::Fresh),
        background: Some(false),
        idle_watched: true,
        idle_stopped: true,
        exit_recorded: false,
        sent: None,
        dialog: None,
    }
}

#[test]
fn a_session_is_asked_to_exit_once() {
    let poll = |watch: &ExitWatch, at: u128, seen: &ExitSeen| {
        watch.poll(&run(), &timeouts(), 60, 120, at, seen)
    };
    let recorded = ExitSeen { exit_recorded: true, ..exit_seen() };
    assert!(matches!(poll(&watch(None), 1, &exit_seen()), ExitStep::Record { kind: "exit_requested", .. }));
    assert!(matches!(poll(&watch(None), 1, &recorded), ExitStep::SendExit { .. }));
    let running = ExitSeen { idle_stopped: false, ..exit_seen() };
    assert!(matches!(
        poll(&watch(None), 1, &running),
        ExitStep::StopJob { alert: Some(RecoveryAlert::IdleProcess), outcome: "exit_requested" }
    ));
    let sent = ExitSeen { sent: Some(Submission::Sent), ..exit_seen() };
    assert!(!matches!(poll(&watch(Some(1)), 2, &sent), ExitStep::SendExit { .. }));
    assert!(!matches!(poll(&watch(Some(1)), 2, &recorded), ExitStep::SendExit { .. }));
    let late = ExitSeen { dialog: Some(false), ..exit_seen() };
    assert!(matches!(
        poll(&watch(Some(0)), 11 * SECOND, &late),
        ExitStep::TimedOut { .. }
    ));
    let nobody = ExitWatch::new(None, AfterExit::Land, 0);
    assert!(matches!(poll(&nobody, 1, &exit_seen()), ExitStep::Gone));
    assert!(watch(None).after(&run()).contains("lands on main"));
}

#[test]
fn a_session_that_exited_leaves_its_screen_and_no_ask() {
    let mut seen =
        ExitSeen { processes: Some(vec![wrapper(100, Some(119))]), ..exit_seen() };
    let mut done: Vec<String> = Vec::new();
    loop {
        match watch(Some(1)).poll(&run(), &timeouts(), 60, 120, 2, &seen) {
            ExitStep::Capture { .. } => seen.screen = Some(Err("no screen".to_owned())),
            ExitStep::RecordFailure { kind, payload, fallback } => {
                assert!(fallback == ReasonCode::BackendFailed);
                assert_eq!(payload.text("error"), Some("no screen".to_owned()));
                done.push(kind.to_owned());
                seen.screen_kept = true;
            }
            ExitStep::StopJob { alert, outcome } => {
                assert!(alert.is_none());
                done.push(outcome.to_owned());
                seen.job_stopped = true;
            }
            ExitStep::ClosePrompts => {
                done.push("prompts".to_owned());
                seen.prompts_closed = true;
            }
            ExitStep::CloseStuckExit { answer } => {
                done.push(answer.to_owned());
                seen.asks_closed = true;
            }
            ExitStep::Gone => break,
            _ => panic!("unexpected after {done:?}"),
        }
    }
    assert_eq!(
        done,
        ["screen_capture_failed", "session_ended", "prompts", "the session exited; closed by the runtime"]
    );
}

#[test]
fn a_silent_wrapper_is_told_from_one_that_died() {
    let none = PulseSeen { alive: None, exited: None, asks_closed: false, recorded: false };
    let pulse = |seen: PulseSeen| wrapper_pulse(&wrapper(0, None), "w1", false, "died", 100, 60, seen);
    assert!(matches!(
        wrapper_pulse(&wrapper(90, None), "w1", false, "died", 100, 60, none),
        PulseStep::Pulse(WrapperPulse::Fresh)
    ));
    assert!(matches!(pulse(none), PulseStep::Alive { pid: 9 }));
    let silent = PulseSeen { alive: Some(true), ..none };
    assert!(matches!(pulse(silent), PulseStep::Record { kind: "wrapper_heartbeat_expired", .. }));
    let dead = PulseSeen { alive: Some(false), exited: Some(false), ..none };
    match pulse(dead) {
        PulseStep::Failed(why) => assert_eq!(why, "died"),
        _ => panic!("alive"),
    }
}

#[test]
fn only_the_reviewed_head_lands_without_an_exit() {
    let accepted =
        |commit: &str| Ok(Checked::Accepted { receipt: receipt(), commit: commit.to_owned() });
    assert!(landable_without_exit(&run(), &accepted(HEAD)).is_none());
    assert!(landable_without_exit(&run(), &accepted("other")).is_some());
    assert!(landable_without_exit(&run(), &Err("unreadable".to_owned())).is_some());
    assert_eq!(
        landable_without_exit(&run(), &Ok(Checked::Lacks(Field::Branch))),
        Some("its receipt could not be checked: missing branch".to_owned())
    );
    let session = SessionRef { workspace: "w1".to_owned(), resume: None };
    let seen = UnsentSeen {
        checked: Some(accepted("other")),
        closed: None,
        recorded: true,
        close_recorded: false,
        prompts_closed: false,
        repair_recorded: false,
        timeout_recorded: true,
    };
    assert!(matches!(
        watch(None).never_sent(&session, &run(), &timeouts(), 3, &seen),
        UnsentStep::Recover { .. }
    ));
}

#[test]
fn a_held_exit_is_recovered_before_a_person_is_asked() {
    let session = SessionRef { workspace: "w1".to_owned(), resume: None };
    let none = || RecoverSeen {
        followed: None,
        close_recorded: false,
        prompts_closed: false,
        ask: None,
        escalation_recorded: false,
    };
    let recover = |seen: &RecoverSeen| watch(Some(1)).recover(&session, &run(), &timeouts(), seen);
    assert!(matches!(recover(&none()), RecoverStep::Follow { .. }));
    let escalated = RecoverSeen { followed: Some(LiveStep::Escalate { attempt: 2 }), ..none() };
    assert!(matches!(recover(&escalated), RecoverStep::AskStuckExit { attempt: 2, .. }));
    let note = Note {
        why: "it was not sure".to_owned(),
        text: "Why a person: scope".to_owned(),
        options: vec!["kill it".to_owned(), "wait".to_owned()],
        category: AskReason::Scope,
    };
    let asked = ask_stuck_exit(
        "The Agent",
        &run(),
        10 * SECOND,
        "It lands",
        "w1",
        &Some(note),
        &Ok("a screen".to_owned()),
    );
    assert!(asked.question.contains("did not exit within 10s"));
    assert!(asked.question.contains("usually one of The Agent's own dialogs"));
    assert!(asked.question.ends_with("a screen"));
    assert_eq!(asked.options, ["exit", "wait", "kill it"]);
    assert!(asked.category == AskReason::Scope && asked.kind == AskKind::StuckExit);
    assert_eq!((asked.task_id, asked.run_id.as_deref()), (Some(7), Some("r1")));
    assert!(asked.asked_by == Asker::Supervisor && asked.finding_id.is_none());
    assert!(stuck_exit_after(true, "x").ends_with('x'));
    assert_eq!(stuck_exit_closed(), "the session exited; closed by the runtime");
    let idle = IdleLook { background_running: true, modified: 5 };
    assert!(background_waits(Some(idle), &Vec::new()));
    assert!(!background_waits(None, &Vec::new()));
}

fn resume_watch() -> ResumeWatch {
    ResumeWatch {
        workspace: "w2".to_owned(),
        attempt: 1,
        run_dir: "/runs/r1".to_owned(),
        receipt_path: "/runs/r1/receipt.json".to_owned(),
        idle_marker: "/runs/r1/idle".to_owned(),
        started_at: 100,
        startup: 0,
        message: "resolve it".to_owned(),
        agent_seen: None,
        ready_since: None,
        not_ready_asked: false,
        message_sent: None,
        exit_requested: None,
        exit_typed: false,
        approved: false,
        silent: false,
        exit_for_silence: false,
        stale: None,
        input_at: None,
    }
}

fn look(commit: &str, result: ReceiptResult) -> ReceiptFile {
    ReceiptFile {
        modified: Some(200),
        receipt: Some(ReceiptLook {
            run_id: "r1".to_owned(),
            result,
            commit: commit.to_owned(),
            summary: "done".to_owned(),
            evidence_missing: false,
        }),
    }
}

#[test]
fn a_resume_is_resolved_by_a_rewritten_receipt_for_the_head() {
    let head = Some(HEAD.to_owned());
    let verdict = |file: &ReceiptFile| resume_watch().verdict(&run(), file, &head);
    assert!(matches!(verdict(&look(HEAD, ReceiptResult::Succeeded)), ResumeOutcome::Resolved));
    assert!(matches!(verdict(&look("other", ReceiptResult::Succeeded)), ResumeOutcome::Unresolved));
    assert!(matches!(verdict(&look(HEAD, ReceiptResult::Failed)), ResumeOutcome::Failed(_)));
    let old = ReceiptFile { modified: Some(100), ..look(HEAD, ReceiptResult::Succeeded) };
    assert!(matches!(verdict(&old), ResumeOutcome::Unresolved));
    assert!(resume_watch().rewritten_receipt(&old).is_none());
}

fn resume_seen() -> ResumeSeen {
    ResumeSeen {
        processes: Some(vec![wrapper(100, None)]),
        ended: false,
        stale_settled: false,
        screen: None,
        screen_kept: false,
        head: None,
        clean: None,
        receipt: None,
        pulse: Some(WrapperPulse::Fresh),
        dialog: None,
        followed: None,
        exhausted: None,
        ask: None,
        escalation_recorded: false,
        delivered: None,
        answer_noted: false,
        prompt_watched: false,
        start_polled: false,
        question_open: None,
        idle_watched: false,
        last_closed: None,
        input_moved: false,
        idle: None,
        idle_after_receipt: None,
        idle_since: None,
        stale_receipt: None,
        nudged: None,
        nudge_waited_out: None,
        nudge_rewritten: None,
        live_ended: false,
    }
}

#[test]
fn a_resumed_sessions_exit_is_recorded_before_it_is_typed() {
    let watch = resume_watch();
    let ask = |typed: bool, seen: AskExitSeen| watch.request_exit(&timeouts(), typed, seen);
    let mut seen = AskExitSeen::default();
    match ask(true, seen) {
        AskExitStep::Record { kind, payload } => {
            assert_eq!(kind, "exit_requested");
            assert_eq!(payload.text("workspace_id"), Some(watch.workspace.clone()));
            assert_eq!(payload.integer("resume_attempt"), Some(watch.attempt as i64));
        }
        _ => panic!("not recorded first"),
    }
    seen.recorded = true;
    assert!(matches!(ask(true, seen), AskExitStep::EndLive { outcome: "session_ended" }));
    seen.ended = true;
    match ask(true, seen) {
        AskExitStep::Type { workspace } => assert_eq!(workspace, watch.workspace),
        _ => panic!("not typed"),
    }
    assert!(matches!(ask(false, seen), AskExitStep::Asked));
    seen.typed = true;
    assert!(matches!(ask(true, seen), AskExitStep::Asked));
}

#[test]
fn a_resumed_session_is_asked_to_exit_once() {
    let silent = ResumeSeen { pulse: Some(WrapperPulse::Silent), ..resume_seen() };
    let poll = |watch: &ResumeWatch, seen: &ResumeSeen| watch.poll(&run(), &timeouts(), SECOND, seen);
    assert!(matches!(
        poll(&resume_watch(), &silent),
        ResumeStep::RequestExit { typed: true, for_silence: true, .. }
    ));
    let mut asked = resume_watch();
    asked.exit_asked(SECOND, true, true);
    assert!(!matches!(poll(&asked, &silent), ResumeStep::RequestExit { .. }));
    assert!(matches!(poll(&resume_watch(), &resume_seen()), ResumeStep::Wait));
    let agent = RunProcess { role: "agent".to_owned(), ..wrapper(100, None) };
    let agent_up =
        ResumeSeen { processes: Some(vec![wrapper(100, None), agent]), ..resume_seen() };
    assert!(matches!(poll(&resume_watch(), &agent_up), ResumeStep::SendWhenReady));
    let unregistered = ResumeSeen { processes: Some(Vec::new()), ..resume_seen() };
    assert!(matches!(poll(&resume_watch(), &unregistered), ResumeStep::Wait));
    match resume_watch().poll(&run(), &timeouts(), 31 * SECOND, &unregistered) {
        ResumeStep::Failed(why) => assert_eq!(
            why,
            "resumed session's wrapper did not register within 30 seconds"
        ),
        _ => panic!("registered"),
    }
}

#[test]
fn a_resolved_run_names_a_clean_head() {
    let exited = ResumeSeen {
        processes: Some(vec![wrapper(100, Some(110))]),
        ended: true,
        stale_settled: true,
        screen: Some(Ok("bye".to_owned())),
        screen_kept: true,
        head: Some(Some(HEAD.to_owned())),
        clean: Some(true),
        receipt: Some(look(HEAD, ReceiptResult::Succeeded)),
        ..resume_seen()
    };
    match resume_watch().poll(&run(), &timeouts(), SECOND, &exited) {
        ResumeStep::Verdict(ResumeVerdict { kind, head, .. }) => {
            assert!(matches!(kind, ResumeOutcome::Resolved));
            assert_eq!(head.as_deref(), Some(HEAD));
        }
        _ => panic!("no verdict"),
    }
    let dirty = ResumeSeen { clean: Some(false), ..exited };
    match resume_watch().poll(&run(), &timeouts(), SECOND, &dirty) {
        ResumeStep::Verdict(verdict) => {
            assert!(!matches!(verdict.kind, ResumeOutcome::Resolved));
        }
        _ => panic!("no verdict"),
    }
}

#[test]
fn a_restart_gives_the_whole_timeout_again() {
    let mut watch = resume_watch();
    watch.message_sent = Some(Sent { at: 1, wall: 1 });
    watch.restart_clocks(50, 60);
    assert!(watch.message_sent == Some(Sent { at: 50, wall: 1 }));
    watch.box_seen(true, 7);
    assert_eq!(watch.ready_since, Some(7));
    watch.box_seen(true, 9);
    assert_eq!(watch.ready_since, Some(7));
    watch.box_seen(false, 10);
    assert_eq!(watch.ready_since, None);
}

#[test]
fn the_request_waits_for_a_ready_input_box() {
    let none = || SendSeen {
        screen: None,
        dialog: None,
        ready: None,
        excerpt: String::new(),
        not_ready_recorded: false,
        asks_closed: false,
        sent: false,
        send_recorded: false,
    };
    let go = |watch: &ResumeWatch, at: u128, seen: &SendSeen| {
        watch.send_when_ready(0, &timeouts(), at, seen)
    };
    let unready = SendSeen {
        screen: Some(Ok("busy".to_owned())),
        dialog: Some(None),
        ready: Some(false),
        ..none()
    };
    assert!(matches!(go(&resume_watch(), 2 * SECOND, &unready), SendStep::Wait));
    match go(&resume_watch(), 31 * SECOND, &unready) {
        SendStep::Record { kind, payload } => {
            assert_eq!(kind, "input_not_ready");
            assert_eq!(payload.integer("waited_secs"), Some(30));
        }
        _ => panic!("not recorded"),
    }
    let ready = SendSeen { ready: Some(true), asks_closed: true, ..unready };
    assert!(matches!(go(&resume_watch(), 5 * SECOND, &ready), SendStep::ReadyNow));
    let mut waited = resume_watch();
    waited.ready_since = Some(0);
    match go(&waited, 5 * SECOND, &ready) {
        SendStep::Send { message } => assert_eq!(message, "resolve it"),
        _ => panic!("unexpected"),
    }
}

#[test]
fn a_session_another_process_resumed_is_watched_on() {
    let state = || ResumeState {
        workspace: "w2".to_owned(),
        attempt: 3,
        started_at: 5,
        message: "resolve it".to_owned(),
        message_sent_at: Some(400),
        not_ready_asked: true,
        exit_requested: true,
        exit_for_silence: false,
        approved: true,
    };
    let watch = match rebuilt_resume(&run(), state(), "/idle".to_owned(), None, 1000, 600) {
        Ok(watch) => watch,
        Err(why) => panic!("{why}"),
    };
    assert!(watch.message_sent == Some(Sent { at: 800, wall: 400 }));
    assert_eq!(watch.exit_requested, Some(1000));
    assert!(!watch.exit_typed && watch.approved && watch.not_ready_asked);
    let bare = TaskRun { run_dir: None, ..run() };
    match rebuilt_resume(&bare, state(), "/idle".to_owned(), None, 1000, 600) {
        Err(why) => assert_eq!(why, "missing run directory"),
        Ok(_) => panic!("rebuilt"),
    }
}

fn parked() -> ParkedSeen {
    ParkedSeen {
        exhaustion_tried: false,
        workspaces_closed: true,
        main: Some("m".to_owned()),
        resolved: Some(None),
        skipped: false,
        reason: Some(Some("why".to_owned())),
        cleaning: Some(false),
        begun: None,
        started: None,
    }
}

#[test]
fn a_parked_run_is_resumed_once() {
    let free = Candidate { leased: false, session_runs: false, exhausted: false };
    assert!(matches!(
        resume_parked_run(&run(), free, true, &parked()),
        ParkedStep::Begin { .. }
    ));
    let leased = Candidate { leased: true, ..free };
    assert!(matches!(resume_parked_run(&run(), leased, true, &parked()), ParkedStep::Next));
    let alive = Candidate { session_runs: true, ..free };
    assert!(matches!(resume_parked_run(&run(), alive, true, &parked()), ParkedStep::Next));
    let used_up = Candidate { exhausted: true, ..free };
    assert!(matches!(resume_parked_run(&run(), used_up, true, &parked()), ParkedStep::Exhaust));
    let reserved = ParkedSeen { cleaning: Some(true), ..parked() };
    assert!(matches!(resume_parked_run(&run(), free, true, &reserved), ParkedStep::Defer));
    let begun = ParkedSeen { begun: Some(Some(2)), started: Some(Err("no".to_owned())), ..parked() };
    assert!(matches!(
        resume_parked_run(&run(), free, true, &begun),
        ParkedStep::GiveUp { attempt: 2, fallback: ReasonCode::Other, .. }
    ));
}

#[test]
fn the_asks_of_ended_sessions_are_closed_before_a_run_is_resumed() {
    let at = |session_runs: bool| Candidate { leased: false, session_runs, exhausted: false };
    let candidates = vec![at(true), at(false), at(true), at(false)];
    let mut seen = ParkedPassSeen { asked: 0, next: 0, stopped: false };
    let mut closed: Vec<usize> = Vec::new();
    loop {
        match resume_parked_runs(&candidates, seen) {
            ParkedPassStep::CloseStuckExit { index, answer } => {
                assert_eq!(answer, "the session exited; closed by the runtime");
                closed.push(index);
                seen.asked = index + 1;
            }
            ParkedPassStep::Resume { index } => {
                assert_eq!(closed, [1, 3]);
                assert_eq!(index, seen.next);
                seen.next += 1;
                seen.stopped = index == 2;
            }
            ParkedPassStep::Done => break,
        }
    }
    assert_eq!(seen.next, 3);
}

#[test]
fn a_run_is_skipped_only_after_a_resume() {
    let seen = || ResolvedSeen {
        receipt: Some(Some(LeftReceipt {
            run_id: "r1".to_owned(),
            result: ReceiptResult::Succeeded,
            commit: HEAD.to_owned(),
            evidence_missing: false,
        })),
        head: Some(Some(HEAD.to_owned())),
        clean: Some(true),
        on_main: Some(true),
    };
    let never = resolved_head(&run(), "m", &Vec::new(), "landing_recheck", &seen());
    assert!(matches!(never, ResolvedStep::Resolved(None)));
    let skip = SkipSeen { approved: Some(false), skipped: Some(Some(run())), queued: false };
    assert!(matches!(
        skip_resume(&HEAD.to_owned(), &"m".to_owned(), &skip),
        SkipStep::Validate { .. }
    ));
}

#[test]
fn a_run_whose_resumes_are_used_up_is_recovered_or_retried() {
    let resumes = ResumeCount {
        counted: 3,
        counted_limit: 3,
        conflict_only: 0,
        conflict_only_limit: 5,
    };
    assert_eq!(resumed_text(resumes), "resumed 3 times (at most 3)");
    let task = |inherits: bool| TaskState {
        status: TaskStatus::InProgress,
        latest: Some("r1".to_owned()),
        inherits,
    };
    let seen = |inherits: bool, inherited| ExhaustSeen {
        task: Some(task(inherits)),
        inherited,
        failed: None,
        workspaces_closed: false,
    };
    match exhaust_resumes(&run(), resumes, &seen(false, None)) {
        ExhaustStep::Recover { reason } => assert_eq!(
            reason,
            "resumed 3 times (at most 3) and still needs a session: it broke"
        ),
        _ => panic!("not recovered"),
    }
    assert!(matches!(
        exhaust_resumes(&run(), resumes, &seen(true, Some(Ok(Some(HEAD.to_owned()))))),
        ExhaustStep::RetryInheriting { .. }
    ));
    let kept = HeadSeen { worktree_there: Some(true), rebasing: Some(false), head: None, kept: true };
    match inherited_head(&run(), &kept) {
        HeadStep::Inherited(Some(head)) => assert_eq!(head, HEAD),
        _ => panic!("not inherited"),
    }
}

#[test]
fn the_lease_of_a_resolved_run_is_kept() {
    let verdict = |kind: ResumeOutcome| ResumeVerdict {
        kind,
        head: Some(HEAD.to_owned()),
        exit_timed_out: false,
        live: false,
    };
    let seen = FinishSeen {
        approved: Some(false),
        closed: Some(true),
        exhausted: Some(false),
        finished: None,
        queued: false,
    };
    match finish_resumed_session(1, "w2", &verdict(ResumeOutcome::Resolved), &seen) {
        FinishStep::Finish { keep_lease, status, .. } => {
            assert!(keep_lease && status == Some(RunStatus::Validating));
        }
        _ => panic!("not finished"),
    }
    match finish_resumed_session(1, "w2", &verdict(ResumeOutcome::Unresolved), &seen) {
        FinishStep::Finish { keep_lease, .. } => assert!(!keep_lease),
        _ => panic!("not finished"),
    }
    let (reason, kind) = resume_reason(&Vec::new(), &Vec::new(), "landing_recheck", &Some("e".to_owned()));
    assert_eq!(reason.as_deref(), Some("e"));
    assert!(kind == ResumeKind::Landing);
    let landed = TaskRun { status: RunStatus::Integrated, ..run() };
    assert_eq!(landed_since(&vec![run(), landed]), Some(1));
    assert!(ReasonCode::Other.as_str().len() > 0);
}

#[test]
fn a_resumed_session_starts_in_its_worktree() {
    let mut seen = dagq::supervise::resume::StartSeen {
        worktree_there: Some(false),
        request_written: false,
        runner_copied: false,
        workspace: None,
        recorded: false,
    };
    assert!(matches!(
        start_resume(&layout(), &run(), "t", 1, "resolve it", &seen),
        dagq::supervise::resume::StartStep::Failed(_)
    ));
    seen.worktree_there = Some(true);
    match start_resume(&layout(), &run(), "t", 1, "resolve it", &seen) {
        dagq::supervise::resume::StartStep::WriteRequest { file, text } => {
            assert_eq!((file.as_str(), text.as_str()), ("/runs/r1/resume-1.txt", "resolve it"));
        }
        _ => panic!("not written"),
    }
    seen.request_written = true;
    seen.runner_copied = true;
    match start_resume(&layout(), &run(), "t", 1, "resolve it", &seen) {
        dagq::supervise::resume::StartStep::Create { argv, .. } => assert_eq!(
            argv,
            [
                "/runs/r1/runner", "--db", "/q/queue.db", "session", "--run", "r1", "--lease", "t",
                "--agent", "/bin/agent", "--resume",
            ]
        ),
        _ => panic!("not created"),
    }
}

#[test]
fn the_planners_of_the_runtime_use_its_own_queue_and_binary() {
    let launch = planner_launch(&layout(), "[repo]");
    assert_eq!(launch.db, "/q/queue.db");
    assert_eq!(launch.group_name, "[repo]");
    assert_eq!(launch.planners_dir, "/q/planners");
    assert_eq!(launch.repo_root, layout().repo_root);
    assert_eq!((launch.runner.as_str(), launch.claude.as_str()), ("/bin/dagq", "/bin/agent"));
    assert_eq!(launch.agent.program, "agent");
    assert_eq!(launch.plugin_dir, None);
}
