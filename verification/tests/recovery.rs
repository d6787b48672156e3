//! Stalled sessions, long background work, and the recovery job.

use dagq::domain::{
    AskKind, AskReason, Asker, RunEvent, RunProcess, RunStatus, TaskRun, TaskStatus,
};
use dagq::json::{Fields, Json};
use dagq::supervise::background::{
    act_on_background, after_idle_alert, at_prompt, background_facts, background_since,
    escalate_background, escalate_idle, idle_facts, log_line, prompt_facts, recover_prompt,
    recover_stuck_exit, start, stuck_exit_facts, watch_background, watch_idle_processes,
    ActSeen as BackgroundActSeen, ActStep as BackgroundActStep, BackgroundApplied, BackgroundSeen,
    BackgroundStep, EscalateSeen, EscalateStep, HeldStep, IdleAfter, IdleDone, IdleEnd,
    IdleFollowed, IdlePlace, Raised, StartSeen, StartStep,
};
use dagq::supervise::exit::{LiveStep, Note};
use dagq::supervise::recovery::{
    at_millis, check_live, evidence_kind, extend, fail_live, git_facts, job_file,
    leave_idle_to_phase, millis, receipt_commit, repair_history, ActionLists, CheckStep,
    Confidence, Escalation, Live, Look, Occasion, RecoveryAction, RecoveryAlert, RecoveryDecision,
    RecoveryVerdict,
};
use dagq::supervise::recovery_watch::{
    after_idle, applied_recheck, apply_live, gone_record, own_roots, sample_due, sample_interval,
    sample_new, stop_processes, stop_targets,
    watch_idle, ApplySeen, ApplyStep, FollowSeen, FollowStep, IdleProcess, IdleSeen, IdleStep, JobEnd, Outcome,
    OwnRoots, ProcessInfo, RecoveryJob, RecoveryWatch, StopSeen, StopStep,
    StoppingSeen,
};
use dagq::supervise::resume::ResumeCount;
use dagq::supervise::stall::{
    answered_wait, at_unix, nudge_record, secs_between, stalled_ask, stalled_options, AskLook,
    AskSeen, AskStep, BackgroundTask, ListedAsk, Nudge, NudgeSeen, NudgeStep, ObserveSeen, ObserveStep,
    OpenAsk, RaiseSeen, RaiseStep, SettleSeen, SettleStep, StallConfig, StallWatch, Threshold,
};
use dagq::supervise::headless::{
    live_screen, spawn_plan_review, start_job, HeadlessSeen, HeadlessStep,
};
use dagq::supervise::plan_review::PlanReviewJob;
use dagq::supervise::triage::{
    act_on_recovery, apply_triage_answer, end_round, ended_ask, ended_facts, ended_place, escalate_ended,
    fail_recovery, failures, last_error_shown, note_triaged, own_commits, plan_ended, recover_dead_run, round_reason,
    round_request, round_session, triage_run, ActSeen, ActStep, Answer, AnswerSeen,
    AnswerStep, CommitsSeen, CommitsStep, DeadLook, Opened, PlanSeen, PlanStep, PutSeen, PutStep,
    RoundSeen, RoundStep, TaskState, TriageAction, TriageLook, TriageSeen, TriageState, TriageStep,
};

const SEC: i128 = 1_000_000_000;
const HEAD: &str = "2222222222222222222222222222222222222222";

fn run() -> TaskRun {
    TaskRun {
        id: "r1".to_owned(),
        task_id: 7,
        status: RunStatus::Failed,
        base_commit: "0000000000000000000000000000000000000000".to_owned(),
        branch: Some("dagq/r1".to_owned()),
        worktree_path: Some("/runs/r1/worktree".to_owned()),
        workspace_id: Some("w1".to_owned()),
        receipt_path: Some("/runs/r1/receipt.json".to_owned()),
        result_commit: None,
        run_dir: Some("/runs/r1".to_owned()),
        last_error: Some("it broke".to_owned()),
        workspace_closed: false,
    }
}

fn event(id: i64, kind: &str, payload: Json) -> RunEvent {
    RunEvent { id, kind: kind.to_owned(), at_millis: Some(5000), payload }
}

fn verdict(actions: Vec<RecoveryAction>) -> RecoveryVerdict {
    RecoveryVerdict {
        verdict: RecoveryDecision::Repair,
        confidence: Confidence::High,
        diagnosis: "a server was left running".to_owned(),
        actions,
        recommended: "stop it".to_owned(),
        question: String::new(),
        options: Vec::new(),
        reason_category: None,
    }
}

fn note() -> Note {
    Note {
        why: "it was not sure".to_owned(),
        text: "Why a person: scope".to_owned(),
        options: vec!["kill it".to_owned()],
        category: AskReason::Scope,
    }
}

fn config() -> StallConfig {
    StallConfig { idle_without_receipt_secs: 60, background_alert_secs: 600, idle_process_secs: 300 }
}

fn observe_seen(marker: i128) -> ObserveSeen {
    ObserveSeen {
        marker: Some(Some(marker)),
        question_open: Some(false),
        prompt_asked: Some(false),
        login_held: Some(false),
        readable: Some(true),
        login_raised: Some(false),
        dialog_answered: Some(false),
    }
}

#[test]
fn a_stalled_session_gets_one_nudge_and_one_ask() {
    let mut watch = StallWatch::new();
    let look = |watch: &StallWatch, marker: i128, now: i128| {
        watch.observe(config(), false, false, now, observe_seen(marker))
    };
    assert!(matches!(look(&watch, 10 * SEC, 69 * SEC), ObserveStep::Nothing));
    assert!(matches!(look(&watch, 10 * SEC, 70 * SEC), ObserveStep::SendNudge { idle_secs: 60 }));
    watch.nudged(70 * SEC, 60);
    watch.input_sent(70 * SEC);
    assert!(matches!(look(&watch, 10 * SEC, 200 * SEC), ObserveStep::Nothing));
    assert!(matches!(look(&watch, 80 * SEC, 200 * SEC), ObserveStep::OpenAsk { idle_secs: 120 }));
    watch.escalated(3, 200 * SEC, 120, Threshold::IdleWithoutReceipt);
    assert!(matches!(look(&watch, 80 * SEC, 400 * SEC), ObserveStep::WatchAsk));
}

#[test]
fn nobody_is_asked_while_a_person_steps_in() {
    let watch = StallWatch { held: Some(100 * SEC), ..StallWatch::new() };
    let step = watch.observe(config(), false, false, 500 * SEC, observe_seen(100 * SEC));
    assert!(matches!(step, ObserveStep::Nothing));
    let step = watch.observe(config(), false, false, 500 * SEC, observe_seen(101 * SEC));
    assert!(matches!(step, ObserveStep::SendNudge { idle_secs: 399 }));
}

#[test]
fn a_nudge_that_another_supervisor_sent_is_kept() {
    let payload = Fields::new()
        .text("phase", "session")
        .number("idle_secs", 61)
        .done();
    let watch = StallWatch::adopt(&vec![event(4, "stall_nudged", payload)], None, None);
    let nudge = watch.nudge.unwrap();
    assert_eq!((nudge.at, nudge.detected_after_secs, nudge.settled), (5 * SEC, 61, false));
    assert_eq!(watch.last_input, Some(5 * SEC));
    let asked = AskLook {
        id: 9,
        created_at: 20,
        answered_at: None,
        closed_at: None,
        waits: false,
    };
    let watch = StallWatch::adopt(&Vec::new(), None, Some(asked));
    let open = watch.asked.unwrap();
    assert_eq!((open.id, open.at, open.applied), (9, 21 * SEC, false));
}

#[test]
fn an_answered_stall_ask_waits_or_leaves_it_to_the_person() {
    let mut watch = StallWatch::new();
    watch.escalated(3, 10 * SEC, 60, Threshold::IdleWithoutReceipt);
    let asked = watch.asked.unwrap();
    let seen = |waits: bool, closed: bool, recorded: bool| AskSeen {
        open: Some(Some(OpenAsk { id: 3, answered: true, waits })),
        closed_waits: None,
        closed,
        recorded,
    };
    let go = |seen: AskSeen| watch.watch_ask(asked, config(), None, 50 * SEC, seen);
    assert!(matches!(go(seen(true, false, false)), AskStep::CloseAsk { id: 3 }));
    assert!(matches!(go(seen(true, true, false)), AskStep::Record { .. }));
    match go(seen(true, true, true)) {
        AskStep::Over { watch } => {
            assert!(watch.asked.is_none() && watch.wait_from == Some(50 * SEC));
        }
        _ => panic!("not over"),
    }
    match go(seen(false, false, true)) {
        AskStep::Over { watch } => {
            assert!(watch.asked.unwrap().applied && watch.held == Some(50 * SEC));
        }
        _ => panic!("not over"),
    }
    assert_eq!(stalled_options(), ["wait", "intervene"]);
    assert!(answered_wait(&Some(" wait ".to_owned()), false));
    assert!(!answered_wait(&Some("intervene".to_owned()), false));
    assert!(!answered_wait(&None, true));
}

#[test]
fn a_nudge_is_settled_once_the_session_goes_on() {
    let seen = SettleSeen {
        question_open: Some(false),
        nudge_recorded: false,
        closed: false,
        ask_recorded: false,
    };
    let nudge = Nudge { at: 10 * SEC, detected_after_secs: 60, settled: false };
    let watch = StallWatch { nudge: Some(nudge), ..StallWatch::new() };
    match watch.settle(true, config(), 30 * SEC, seen) {
        SettleStep::Record { payload } => {
            assert_eq!(payload.text("outcome"), Some("resolved_by_nudge".to_owned()));
        }
        _ => panic!("not recorded"),
    }
    assert!(matches!(StallWatch::new().settle(false, config(), 30, seen), SettleStep::Nothing));
    assert_eq!(secs_between(2 * SEC, 5 * SEC + 1), 3);
    assert_eq!(secs_between(5 * SEC, 2 * SEC), 0);
    assert_eq!(at_unix(3, 1), 4 * SEC);
    assert_eq!(at_unix(-9, 1), 0);
    assert_eq!(config().of(Threshold::IdleProcess), 300);
}

#[test]
fn background_work_is_handed_over_once_per_marker() {
    let seen = |marker: i128| BackgroundSeen {
        ended: None,
        asked: Some(false),
        failed_before: Some(false),
        marker: Some(Some(marker)),
        since: Some(0),
    };
    let mut watch = RecoveryWatch::new();
    assert!(matches!(
        watch_background(&watch, false, 600, 600 * SEC, &seen(5)),
        BackgroundStep::Nothing
    ));
    assert!(matches!(
        watch_background(&watch, false, 600, 601 * SEC, &seen(5)),
        BackgroundStep::Alert { marker: 5, idle_secs: 601 }
    ));
    watch.handed(5);
    assert!(matches!(
        watch_background(&watch, false, 600, 900 * SEC, &seen(5)),
        BackgroundStep::Nothing
    ));
    assert!(matches!(
        watch_background(&watch, false, 600, 900 * SEC, &seen(6)),
        BackgroundStep::Alert { marker: 6, .. }
    ));
    assert!(matches!(
        watch_background(&watch, true, 600, 900 * SEC, &seen(6)),
        BackgroundStep::StopJob { alert: RecoveryAlert::LongBackground, outcome: "session_ended" }
    ));
    assert_eq!(log_line(" 12\tidle"), Some((12_000, "idle".to_owned())));
    assert_eq!(log_line("no tab"), None);
    assert_eq!(background_since(9 * SEC, &vec![None, Some(4000), Some(7000)]), 4 * SEC);
    assert_eq!(background_since(9 * SEC, &vec![None]), 9 * SEC);
}

#[test]
fn a_recovery_job_is_requested_before_it_starts() {
    let facts = Fields::new().done();
    let seen = |done: usize, requested: bool, spawned: Option<Result<(), String>>| StartSeen {
        done: Some(done),
        evidence: None,
        requested,
        spawned,
    };
    let go = |seen: StartSeen| start(RecoveryAlert::LongBackground, "w1", &facts, 2, &seen);
    match go(seen(1, false, None)) {
        StartStep::Record { kind, payload } => {
            assert_eq!(kind, "recovery_requested");
            assert_eq!(payload.integer("attempt"), Some(2));
            assert_eq!(payload.text("alert"), Some("long_background".to_owned()));
        }
        _ => panic!("not requested"),
    }
    assert!(matches!(go(seen(2, false, None)), StartStep::UsedUp { attempts: 2 }));
    assert!(matches!(go(seen(0, true, Some(Ok(())))), StartStep::Started { attempt: 1 }));
    match go(seen(0, true, Some(Err("no agent".to_owned())))) {
        StartStep::Failed { error, .. } => {
            assert_eq!(error, "the recovery job could not start: no agent");
        }
        _ => panic!("started"),
    }
}

fn unraised(asked: Option<bool>) -> EscalateSeen {
    EscalateSeen { asked, ask: None, followed: false, recorded: false, failure_recorded: false }
}

fn unacted() -> BackgroundActSeen {
    BackgroundActSeen {
        failed: None,
        finish_recorded: false,
        failure_recorded: false,
        applied: None,
        input_noted: false,
        recheck_read: false,
    }
}

fn background_job() -> RecoveryJob {
    RecoveryJob {
        alert: RecoveryAlert::LongBackground,
        attempt: 2,
        marker: Some(7),
        idle_secs: 601,
    }
}

#[test]
fn a_failed_background_job_is_recorded_and_asks_nobody() {
    let mut seen = BackgroundActSeen { failed: Some("it died".to_owned()), ..unacted() };
    let mut kinds: Vec<&str> = Vec::new();
    loop {
        match act_on_background("w1", &background_job(), &seen) {
            BackgroundActStep::Record { kind, payload } => {
                assert_eq!(payload.text("error"), Some("it died".to_owned()));
                assert_eq!(payload.integer("attempt"), Some(2));
                if kinds.is_empty() {
                    assert_eq!(payload.text("outcome"), Some("job_failed".to_owned()));
                    seen.finish_recorded = true;
                } else {
                    assert_eq!(payload.text("workspace_id"), Some("w1".to_owned()));
                    seen.failure_recorded = true;
                }
                kinds.push(kind);
            }
            BackgroundActStep::Done => break,
            _ => panic!("someone is asked"),
        }
    }
    assert_eq!(kinds, ["recovery_finished", "recovery_failed"]);
    let unstarted = Raised { escalation: Escalation::JobFailed("no agent".to_owned()), attempt: 1 };
    let mut seen = unraised(None);
    let mut kinds: Vec<&str> = Vec::new();
    loop {
        match escalate_background(&run(), "w1", 0, 700, 600, &unstarted, &note(), seen) {
            EscalateStep::Record { kind, .. } => {
                if seen.recorded {
                    seen.failure_recorded = true;
                } else {
                    seen.recorded = true;
                }
                kinds.push(kind);
            }
            EscalateStep::Done => break,
            _ => panic!("someone is asked"),
        }
    }
    assert_eq!(kinds, ["recovery_finished", "recovery_failed"]);
}

#[test]
fn a_held_exit_is_not_kept_waiting_by_another_job() {
    let mut watch = RecoveryWatch::new();
    watch.job = Some(background_job());
    watch.hold(RecoveryAlert::IdleProcess, 9);
    let stopped = watch.stop_before_exit().unwrap();
    assert_eq!(stopped.text("outcome"), Some("exit_requested".to_owned()));
    assert_eq!(stopped.text("alert"), Some("long_background".to_owned()));
    assert!(watch.job.is_none());
    assert!(!watch.holds(RecoveryAlert::IdleProcess, 0));
    let prompt = RecoveryJob { alert: RecoveryAlert::PromptWaiting, ..background_job() };
    watch.job = Some(prompt);
    assert!(watch.stop_before_exit().is_none());
    assert_eq!(watch.job, Some(prompt));
}

#[test]
fn background_work_is_put_to_a_person_with_its_options() {
    let go = |raised: &Raised, seen: EscalateSeen| {
        escalate_background(&run(), "w1", 5_000_000, 700, 600, raised, &note(), seen)
    };
    let used_up = Raised { escalation: Escalation::UsedUp(2), attempt: 2 };
    match go(&used_up, unraised(Some(false))) {
        EscalateStep::Open { new } => {
            assert!(new.question.contains("has had background work running for 700s"));
            assert_eq!(new.options, ["wait", "intervene", "kill it"]);
            assert!(new.kind == AskKind::Stalled && new.asked_by == Asker::Supervisor);
            assert_eq!((new.task_id, new.run_id.as_deref()), (Some(7), Some("r1")));
        }
        _ => panic!("not asked"),
    }
    let opened = EscalateSeen { ask: Some(9), ..unraised(Some(false)) };
    assert!(matches!(
        go(&used_up, opened),
        EscalateStep::FollowAsk { ask: 9, idle_secs: 700, threshold: Threshold::BackgroundAlert }
    ));
    match go(&used_up, EscalateSeen { followed: true, ..opened }) {
        EscalateStep::Record { kind, payload } => {
            assert_eq!(kind, "recovery_finished");
            assert_eq!(payload.integer("ask_id"), Some(9));
            assert_eq!(payload.integer("marker_at_ms"), Some(5));
        }
        _ => panic!("not recorded"),
    }
    match go(&used_up, unraised(Some(true))) {
        EscalateStep::Record { payload, .. } => {
            assert_eq!(payload.text("outcome"), Some("already_asked".to_owned()));
        }
        _ => panic!("not recorded"),
    }
    let escalate = Some(LiveStep::Escalate { attempt: 1 });
    assert!(matches!(
        recover_prompt(Some(false), escalate, None, false),
        HeldStep::AskPrompt { attempt: 1 }
    ));
    assert!(matches!(recover_prompt(Some(true), None, None, false), HeldStep::Nothing));
    let escalate = Some(LiveStep::Escalate { attempt: 1 });
    assert!(matches!(
        recover_stuck_exit(true, escalate, false, Some(4), false),
        HeldStep::RecordEscalation { attempt: 1, ask: 4 }
    ));
    assert!(matches!(
        recover_stuck_exit(false, None, false, None, false),
        HeldStep::StopOthers
    ));
    assert!(matches!(recover_stuck_exit(true, None, false, None, false), HeldStep::Follow));
    let acted = BackgroundActSeen {
        applied: Some(BackgroundApplied::Sent { at: 3 }),
        ..unacted()
    };
    assert!(matches!(
        act_on_background("w1", &background_job(), &acted),
        BackgroundActStep::InputSent { at: 3 }
    ));
    let refused = BackgroundActSeen { applied: Some(BackgroundApplied::Escalated), ..unacted() };
    assert!(matches!(
        act_on_background("w1", &background_job(), &refused),
        BackgroundActStep::Escalate { attempt: 2, marker: 7, idle_secs: 601 }
    ));
    assert!(!at_prompt(true, Some(5), &StallWatch::new()));
    assert!(at_prompt(false, Some(5), &StallWatch::new()));
}

#[test]
fn a_receipts_commit_is_read_from_its_document() {
    let file = Some(br#"{"commit":"abc","result":"succeeded"}"#.to_vec());
    assert_eq!(receipt_commit(&file), Some("abc".to_owned()));
    assert_eq!(receipt_commit(&Some(br#"{"commit":7}"#.to_vec())), None);
    assert_eq!(receipt_commit(&Some(b"{".to_vec())), None);
    assert_eq!(receipt_commit(&Some(br#"{"result":"succeeded"}"#.to_vec())), None);
    assert_eq!(receipt_commit(&None), None);
    let (status, head, commit) =
        git_facts(true, &Ok(" M a.rs".to_owned()), &Err("no head".to_owned()), &file);
    assert_eq!(status, " M a.rs");
    assert!(head.contains("no head"));
    assert_eq!(commit, Some("abc".to_owned()));
}

#[test]
fn moments_are_kept_in_milliseconds() {
    assert_eq!(millis(1_500_000), 1);
    assert_eq!(millis(-1), 0);
    assert_eq!(at_millis(3), 3_000_000);
    assert_eq!(millis(at_millis(1234)), 1234);
    assert_eq!(job_file(RecoveryAlert::StuckExit, 2, "prompt.txt"), "recovery-stuck_exit-2.prompt.txt");
    assert_eq!(evidence_kind(RecoveryAlert::PromptWaiting), Some("prompt_waiting"));
    assert_eq!(evidence_kind(RecoveryAlert::Failed), None);
    let merged = extend(
        Fields::new().text("a", "1").done(),
        &Fields::new().text("a", "2").text("b", "3").done(),
    );
    assert_eq!(merged.text("a"), Some("2".to_owned()));
    assert_eq!(merged.text("b"), Some("3".to_owned()));
    let (failed, asked) = fail_live("w1", RecoveryAlert::StuckExit, 1, "it died");
    assert_eq!(failed.text("error"), Some("it died".to_owned()));
    assert_eq!(asked.text("workspace_id"), Some("w1".to_owned()));
}

#[test]
fn only_repairs_of_earlier_alerts_make_a_history() {
    let repaired = event(1, "auto_repaired", Fields::new().done());
    let other = event(2, "review_finished", Fields::new().done());
    assert_eq!(repair_history(&vec![other, repaired]), [1]);
}

#[test]
fn an_escalation_says_why_a_person_is_asked() {
    let used = Escalation::UsedUp(2);
    assert!(used.verdict().is_none());
    let said = used.note(&run(), RecoveryAlert::Failed, 2, 2);
    assert!(said.category == AskReason::RecoveryFailed);
    assert_eq!(said.text, "Why a person: recovery_failed");
    let refused = Escalation::Refused(verdict(vec![RecoveryAction::Retry]), "no".to_owned());
    let said = refused.note(&run(), RecoveryAlert::Failed, 1, 2);
    assert!(said.text.contains("\nDiagnosis: a server was left running\nRecommended: stop it"));
    assert!(said.text.ends_with("\nRecovery material: /runs/r1/recovery-failed-1.prompt.txt"));
}

fn live(allowed: &[&str]) -> Live {
    Live {
        workspace: "w1".to_owned(),
        allowed: allowed.iter().map(|name| (*name).to_owned()).collect(),
        exit_typed: false,
        at_prompt: true,
        lands: false,
    }
}

#[test]
fn idle_processes_are_watched_in_each_phase() {
    let watched = |place: IdlePlace, asked: bool| watch_idle_processes(place, false, asked, "again");
    let session = watched(IdlePlace::Session { receipt_seen: false }, false).unwrap();
    assert_eq!(session.phase, "session");
    assert!(session.end == IdleEnd::Escalate && session.instructs);
    let receipt = watched(IdlePlace::Session { receipt_seen: true }, false).unwrap();
    assert_eq!(receipt.phase, "after_receipt");
    assert!(receipt.end == IdleEnd::LeaveToPhase && receipt.instructs);
    assert!(watched(IdlePlace::Session { receipt_seen: false }, true).is_none());
    let exit = watched(IdlePlace::ExitWait, true).unwrap();
    assert_eq!(exit.phase, "exit_wait");
    assert!(exit.end == IdleEnd::LeaveToPhase && !exit.instructs);
    assert_eq!(watched(IdlePlace::Resume, true).unwrap().phase, "again");
}

#[test]
fn idle_processes_are_handed_over_until_a_wait_releases_them() {
    let followed = |raised: bool, running: bool, step: LiveStep, applied: &[&str]| IdleFollowed {
        raised,
        running,
        step,
        applied: applied.iter().map(|name| (*name).to_owned()).collect(),
        sent: None,
    };
    let after = |f: &IdleFollowed, done: IdleDone| after_idle_alert(f, IdleEnd::Escalate, done);
    let handed = IdleDone { handed: true, ..IdleDone::default() };
    let started = followed(true, true, LiveStep::Pending, &[]);
    assert_eq!(after(&started, IdleDone::default()), IdleAfter::Hand);
    assert_eq!(after(&started, handed), IdleAfter::Done);
    let on_hold = followed(true, false, LiveStep::Pending, &[]);
    assert_eq!(after(&on_hold, IdleDone::default()), IdleAfter::Done);
    let repaired = LiveStep::Repaired { closed: false, exit_again: false };
    let waits = followed(false, false, repaired, &["wait"]);
    assert_eq!(after(&waits, IdleDone::default()), IdleAfter::Release);
    let sent = IdleFollowed { sent: Some(9), ..followed(false, false, repaired, &["wait"]) };
    let released = IdleDone { released: true, ..IdleDone::default() };
    assert_eq!(after(&sent, released), IdleAfter::InputSent { at: 9 });
    let raised = followed(true, false, LiveStep::Escalate { attempt: 2 }, &[]);
    assert_eq!(after(&raised, IdleDone::default()), IdleAfter::Hand);
    assert_eq!(after(&raised, handed), IdleAfter::Escalate { attempt: 2 });
    assert_eq!(
        after_idle_alert(&raised, IdleEnd::LeaveToPhase, handed),
        IdleAfter::LeaveToPhase { attempt: 2 }
    );
    assert_eq!(after(&raised, IdleDone { settled: true, ..handed }), IdleAfter::Done);
}

#[test]
fn a_live_session_offers_the_actions_of_its_alert() {
    let lists = ActionLists {
        stuck_exit: vec!["close_and_proceed".to_owned()],
        prompt_waiting: vec!["answer_known_dialog".to_owned(), "wait".to_owned()],
    };
    let offered = |occasion: Occasion| Live::offered("w1", occasion, &lists);
    let background = offered(Occasion::LongBackground { at_prompt: true });
    assert_eq!(background.allowed, ["stop_processes", "send_instruction", "wait"]);
    assert_eq!(background.workspace, "w1");
    assert!(background.at_prompt && !background.exit_typed && !background.lands);
    assert!(!offered(Occasion::IdleProcess { at_prompt: false }).at_prompt);
    let held = offered(Occasion::StuckExit { exit_typed: true, lands: false });
    assert_eq!(held.allowed, ["answer_known_dialog", "stop_processes", "wait"]);
    assert!(held.exit_typed && !held.at_prompt && !held.lands);
    let landing = offered(Occasion::StuckExit { exit_typed: false, lands: true });
    assert_eq!(landing.allowed, ["close_and_proceed"]);
    assert!(landing.lands && !landing.exit_typed);
    let prompt = offered(Occasion::PromptWaiting { exit_typed: true });
    assert_eq!(prompt.allowed, ["answer_known_dialog", "wait"]);
    assert!(prompt.exit_typed && !prompt.lands);
}

#[test]
fn an_action_is_checked_before_it_is_done() {
    let stop = || vec![RecoveryAction::StopProcesses { pids: vec![4, 5] }];
    let here = live(&["stop_processes", "send_instruction", "close_and_proceed"]);
    assert!(matches!(check_live(&stop(), &here, &vec![None]), CheckStep::Look { index: 0 }));
    let own = |pids: Vec<u32>| vec![Some(Look::Own(Ok(pids)))];
    assert!(matches!(check_live(&stop(), &here, &own(vec![4, 5])), CheckStep::Holds));
    match check_live(&stop(), &here, &own(vec![4])) {
        CheckStep::Refused(why) => {
            assert!(why.starts_with("pid 5 is not one of the run's own processes"));
        }
        _ => panic!("not refused"),
    }
    match check_live(&vec![RecoveryAction::Retry], &here, &vec![None]) {
        CheckStep::Refused(why) => assert!(why.starts_with("retry does not apply to this alert")),
        _ => panic!("not refused"),
    }
    match check_live(&vec![RecoveryAction::CloseAndProceed], &here, &vec![None]) {
        CheckStep::Refused(why) => assert_eq!(
            why,
            "close_and_proceed: the run does not land after its session's exit"
        ),
        _ => panic!("not refused"),
    }
    let blank = vec![RecoveryAction::SendInstruction { instruction: "  ".to_owned() }];
    match check_live(&blank, &here, &vec![None]) {
        CheckStep::Refused(why) => assert_eq!(why, "send_instruction has no instruction"),
        _ => panic!("not refused"),
    }
}

fn job() -> RecoveryJob {
    RecoveryJob {
        alert: RecoveryAlert::LongBackground,
        attempt: 1,
        marker: Some(2_000_000),
        idle_secs: 700,
    }
}

#[test]
fn only_a_sure_repair_acts() {
    let actions = || vec![RecoveryAction::SendInstruction { instruction: " stop it ".to_owned() }];
    let seen = |outcomes: Vec<Outcome>, recorded: bool, finished: bool| ApplySeen {
        looks: vec![None],
        outcomes,
        recorded,
        finished,
        duration_secs: 9,
    };
    let here = live(&["send_instruction"]);
    let unsure = RecoveryVerdict { confidence: Confidence::Low, ..verdict(actions()) };
    assert!(matches!(
        apply_live(&run(), &job(), &here, &unsure, 60, &seen(Vec::new(), false, false)),
        ApplyStep::Escalate
    ));
    let sure = verdict(actions());
    match apply_live(&run(), &job(), &here, &sure, 60, &seen(Vec::new(), false, false)) {
        ApplyStep::Do { index: 0, typed } => assert_eq!(
            typed.unwrap(),
            "dagq: the supervisor's recovery job for run r1 (alert long_background) asks: stop it"
        ),
        _ => panic!("not done"),
    }
    let failed = vec![Outcome::Typed(Err("gone".to_owned()))];
    assert!(matches!(
        apply_live(&run(), &job(), &here, &sure, 60, &seen(failed, false, false)),
        ApplyStep::Refuse { .. }
    ));
    let typed = || vec![Outcome::Typed(Ok(()))];
    match apply_live(&run(), &job(), &here, &sure, 60, &seen(typed(), false, false)) {
        ApplyStep::Record { kind, .. } => assert_eq!(kind, "auto_repaired"),
        _ => panic!("not recorded"),
    }
    match apply_live(&run(), &job(), &here, &sure, 60, &seen(typed(), true, false)) {
        ApplyStep::Record { kind, payload } => {
            assert_eq!(kind, "recovery_finished");
            assert_eq!(payload.integer("marker_at_ms"), Some(2));
            assert_eq!(payload.integer("duration_secs"), Some(9));
        }
        _ => panic!("not finished"),
    }
    assert!(matches!(
        apply_live(&run(), &job(), &here, &sure, 60, &seen(typed(), true, true)),
        ApplyStep::Applied { closed: false, .. }
    ));
}

#[test]
fn a_wait_before_the_epoch_is_over_at_it() {
    let waits = verdict(vec![RecoveryAction::Wait { recheck_after_secs: 60 }]);
    let seen = ApplySeen {
        looks: vec![None],
        outcomes: vec![Outcome::Waits { now: -100 * SEC }],
        recorded: true,
        ..ApplySeen::default()
    };
    match apply_live(&run(), &job(), &live(&["wait"]), &waits, 60, &seen) {
        ApplyStep::Record { kind, payload } => {
            assert_eq!(kind, "recovery_finished");
            assert_eq!(payload.integer("recheck_at_ms"), Some(0));
        }
        _ => panic!("not finished"),
    }
}

fn follow_seen() -> FollowSeen {
    FollowSeen {
        ended: None,
        applied: None,
        recheck: None,
        held: false,
        finish_recorded: false,
        failure_recorded: false,
        failed_before: Some(false),
        done: Some(0),
        evidence: None,
        requested: true,
        spawned: None,
    }
}

#[test]
fn one_recovery_job_runs_at_a_time() {
    let facts = Fields::new().done();
    let mut watch = RecoveryWatch::new();
    let go = |watch: &RecoveryWatch, seen: &FollowSeen, now: i128| {
        watch.follow(RecoveryAlert::StuckExit, "w1", &facts, 2, now, seen)
    };
    assert!(matches!(go(&watch, &follow_seen(), 0), FollowStep::Spawn { attempt: 1 }));
    watch.job = Some(job());
    assert!(watch.running());
    assert!(matches!(go(&watch, &follow_seen(), 0), FollowStep::Pending));
    watch.job = Some(RecoveryJob { alert: RecoveryAlert::StuckExit, ..job() });
    let decided = FollowSeen { ended: Some(JobEnd::Verdict), ..follow_seen() };
    assert!(matches!(go(&watch, &decided, 0), FollowStep::Apply));
    let rechecks = FollowSeen { applied: Some(true), recheck: Some(Some(7)), ..decided };
    assert!(matches!(go(&watch, &rechecks, 0), FollowStep::Hold { until: 7_000_000 }));
    let died = FollowSeen { ended: Some(JobEnd::Failed("it died".to_owned())), ..follow_seen() };
    assert!(matches!(go(&watch, &died, 0), FollowStep::Record { .. }));
    let stopped = watch.stop_for(Some(RecoveryAlert::StuckExit), "session_moved_on").unwrap();
    assert_eq!(stopped.text("outcome"), Some("session_moved_on".to_owned()));
    assert!(!watch.running());
    let used = FollowSeen { done: Some(2), ..follow_seen() };
    assert!(matches!(go(&watch, &used, 0), FollowStep::UsedUp { attempts: 2 }));
}

#[test]
fn a_released_alert_is_not_held() {
    let mut watch = RecoveryWatch::new();
    watch.hold(RecoveryAlert::StuckExit, 50);
    assert!(watch.holds(RecoveryAlert::StuckExit, 49));
    assert!(!watch.holds(RecoveryAlert::StuckExit, 50));
    assert!(!watch.holds(RecoveryAlert::IdleProcess, 49));
    watch.release(RecoveryAlert::StuckExit);
    assert!(!watch.holds(RecoveryAlert::StuckExit, 49));
    let payload = Fields::new()
        .text("alert", "long_background")
        .number("marker_at_ms", 4)
        .number("recheck_at_ms", 6)
        .done();
    let adopted = RecoveryWatch::adopt(&vec![event(1, "recovery_finished", payload)]);
    assert!(adopted.seen == Some(4_000_000) && adopted.recheck == Some(6_000_000));
}

fn process(pid: u32) -> ProcessInfo {
    ProcessInfo { pid, ppid: 1, command: "serve".to_owned(), cwd: None }
}

#[test]
fn a_process_is_killed_only_after_the_grace() {
    let pids = vec![4, 9, 5];
    let own = vec![process(4), process(5)];
    assert_eq!(stop_targets(&pids, &own), [Some(0), None, Some(1)]);
    let mut seen = StoppingSeen {
        each: pids.iter().map(|_| StopSeen::default()).collect(),
        waited: false,
    };
    let step = |seen: &StoppingSeen| stop_processes(&pids, &own, seen);
    assert!(matches!(step(&seen), StopStep::Terminate { index: 0 }));
    seen.each[0].terminated = Some(Ok(()));
    assert!(matches!(step(&seen), StopStep::Terminate { index: 2 }));
    // A refusal counts only where the process is still there.
    seen.each[2].terminated = Some(Err("denied".to_owned()));
    assert!(matches!(step(&seen), StopStep::RefusedAlive { index: 2 }));
    seen.each[2].refused_alive = Some(true);
    match step(&seen) {
        StopStep::Failed(why) => assert_eq!(why, "stop pid 5: denied"),
        _ => panic!("stopped"),
    }
    seen.each[2].refused_alive = Some(false);
    assert!(matches!(step(&seen), StopStep::Wait { secs: 3 }));
    seen.waited = true;
    assert!(matches!(step(&seen), StopStep::StillAlive { index: 0 }));
    seen.each[0].alive = Some(true);
    assert!(matches!(step(&seen), StopStep::Kill { index: 0 }));
    seen.each[0].killed = Some(Err("denied".to_owned()));
    assert!(matches!(step(&seen), StopStep::KilledAlive { index: 0 }));
    seen.each[0].killed_alive = Some(true);
    match step(&seen) {
        StopStep::Failed(why) => assert_eq!(why, "kill pid 4: denied"),
        _ => panic!("stopped"),
    }
    seen.each[0].killed = Some(Ok(()));
    assert!(matches!(step(&seen), StopStep::StillAlive { index: 2 }));
    seen.each[2].alive = Some(false);
    // Those that were stopped come before those that were gone.
    match step(&seen) {
        StopStep::Stopped { records: Json::List(records) } => {
            let pids: Vec<_> = records.iter().map(|record| record.integer("pid")).collect();
            assert_eq!(pids, [Some(4), Some(5), Some(9)]);
            assert!(records[0].is_true("killed") && !records[1].is_true("killed"));
            assert!(records[2].is_true("gone"));
        }
        _ => panic!("not stopped"),
    }
}

#[test]
fn a_nudge_is_recorded_then_typed_once() {
    let mut seen = NudgeSeen::default();
    let watch = StallWatch::new();
    let tasks = Json::Null;
    let step = |seen: &NudgeSeen| {
        watch.send_nudge(60, config(), true, &tasks, "w1", 70 * SEC, seen)
    };
    match step(&seen) {
        NudgeStep::Record { payload } => {
            assert!(payload.is_int("idle_secs", 60) && payload.says("workspace_id", "w1"));
            assert!(payload.is_true("background_running"));
        }
        _ => panic!("not recorded"),
    }
    seen.recorded = true;
    assert!(matches!(step(&seen), NudgeStep::Type));
    seen.typed = Some(Ok(71 * SEC));
    match step(&seen) {
        NudgeStep::Nudged { watch } => {
            assert_eq!(watch.last_input, Some(71 * SEC));
            let nudge = watch.nudge.expect("no nudge");
            assert_eq!((nudge.at, nudge.detected_after_secs, nudge.settled), (70 * SEC, 60, false));
        }
        _ => panic!("not nudged"),
    }
    // One that cannot be typed counts as sent.
    seen.typed = Some(Err("no such workspace".to_owned()));
    match step(&seen) {
        NudgeStep::Nudged { watch } => {
            assert!(watch.last_input.is_none() && watch.nudge.is_some());
        }
        _ => panic!("not nudged"),
    }
}

#[test]
fn idle_processes_are_sampled_at_an_interval() {
    assert_eq!((sample_interval(5), sample_interval(300), sample_interval(9000)), (1, 30, 60));
    let seen = |watched: Option<u128>, idle: Option<bool>| IdleSeen {
        watched,
        sampled: Some(true),
        own: Some(true),
        idle,
    };
    assert!(matches!(watch_idle(&None, 300, &seen(None, None)), IdleStep::Begin));
    assert!(matches!(watch_idle(&None, 300, &seen(Some(1), None)), IdleStep::Pending));
    let due = Some(30_000_000_000);
    assert!(matches!(watch_idle(&None, 300, &seen(due, Some(true))), IdleStep::Alert));
    assert!(matches!(watch_idle(&Some(job()), 300, &seen(due, None)), IdleStep::Pending));
    assert!(sample_due(None, 5, 10) && !sample_due(Some(0), 9, 10));
    assert!(after_idle(&vec!["wait".to_owned()]) && !after_idle(&vec!["retry".to_owned()]));
    let wrapper = RunProcess { role: "wrapper".to_owned(), pid: 9, heartbeat_at: 0, exited_at: None };
    let agent = RunProcess { role: "agent".to_owned(), pid: 10, heartbeat_at: 0, exited_at: None };
    match own_roots(&run(), &vec![wrapper, agent]) {
        Ok(OwnRoots { wrapper, agent }) => assert_eq!((wrapper, agent), (9, 10)),
        Err(why) => panic!("{why}"),
    }
    match own_roots(&run(), &Vec::new()) {
        Err(why) => assert_eq!(why, "the session's wrapper is not registered"),
        Ok(_) => panic!("found"),
    }
}

#[test]
fn a_dead_run_is_recovered_unless_someone_has_it() {
    let look = DeadLook {
        status: RunStatus::Running,
        leased: true,
        lease_alive: false,
        adoptable: false,
        recoverable: true,
    };
    let health = Fields::new().flag("recoverable", true).done();
    let report = recover_dead_run(look, &health).unwrap();
    assert_eq!(report.text("by").as_deref(), Some("supervisor"));
    assert!(report.get("run").unwrap().is_true("recoverable"));
    for other in [
        DeadLook { lease_alive: true, ..look },
        DeadLook { adoptable: true, ..look },
        DeadLook { recoverable: false, ..look },
        DeadLook { status: RunStatus::Integrating, ..look },
    ] {
        assert!(recover_dead_run(other, &health).is_none());
    }
}

#[test]
fn only_an_offered_answer_is_applied() {
    let ask = |answer: &str| Answer {
        id: 3,
        run_id: Some("r1".to_owned()),
        answer: Some(answer.to_owned()),
        options: vec!["retry".to_owned(), "cancel".to_owned()],
    };
    let seen = |latest: &str| AnswerSeen {
        run: Some(run()),
        leased: Some(false),
        task: Some(TaskState { status: TaskStatus::InProgress, latest: Some(latest.to_owned()) }),
        closed: false,
        reason: Some(None),
        decided: false,
    };
    assert!(matches!(apply_triage_answer(&ask("maybe"), &seen("r1")), AnswerStep::Next));
    match apply_triage_answer(&ask(" retry "), &seen("r1")) {
        AnswerStep::Decide { answer, reason } => {
            assert_eq!(answer, "retry");
            assert_eq!(reason, "it broke (a person chose retry in ask 3)");
        }
        _ => panic!("not decided"),
    }
    assert!(matches!(apply_triage_answer(&ask("retry"), &seen("r2")), AnswerStep::CloseAsk));
}

#[test]
fn an_alert_whose_jobs_are_used_up_gets_no_other() {
    let look = TriageLook {
        state: TriageState::Pending,
        leased: false,
        pending: false,
        alert: RecoveryAlert::Failed,
        done: 2,
    };
    let seen = TriageSeen {
        cleaning: Some(false),
        begun: Some(Some(1)),
        escalated: None,
        spawned: None,
        failure_recorded: false,
    };
    assert!(matches!(
        triage_run(look, true, 2, 0, &seen),
        TriageStep::EscalateUsedUp { round: 1, used: 2 }
    ));
    assert!(matches!(
        triage_run(look, true, 3, 0, &seen),
        TriageStep::Spawn { round: 1, attempt: 3 }
    ));
    assert!(matches!(triage_run(look, false, 3, 0, &seen), TriageStep::Stop));
    let waiting = TriageLook { state: TriageState::Waiting { until: 9 }, ..look };
    assert!(matches!(triage_run(waiting, true, 3, 8, &seen), TriageStep::Next));
    let reserved = TriageSeen { cleaning: Some(true), ..seen };
    assert!(matches!(triage_run(look, true, 3, 0, &reserved), TriageStep::Defer));
}

fn plan_seen() -> PlanSeen {
    PlanSeen {
        failures: Some(Ok(1)),
        own_commits: Some(Ok(false)),
        inherited_before: Some(Ok(false)),
        inherited: Some(Ok(Some(HEAD.to_owned()))),
        resumes: Some(Ok(ResumeCount {
            counted: 1,
            counted_limit: 3,
            conflict_only: 0,
            conflict_only_limit: 5,
        })),
        exhausted: false,
        worktree_there: Some(true),
    }
}

fn plan(actions: Vec<RecoveryAction>, seen: &PlanSeen) -> PlanStep {
    let allowed = vec!["retry".to_owned(), "wait".to_owned()];
    plan_ended(&run(), &verdict(actions), &allowed, 3, 60, 100, seen)
}

#[test]
fn no_retry_throws_commits_away() {
    let planned = plan(vec![RecoveryAction::Retry], &plan_seen());
    assert!(matches!(planned, PlanStep::Planned { action: TriageAction::Retry, .. }));
    let own = PlanSeen { own_commits: Some(Ok(true)), ..plan_seen() };
    match plan(vec![RecoveryAction::Retry], &own) {
        PlanStep::Refused(why) => assert!(why.starts_with("its branch holds commits of its own")),
        _ => panic!("retried"),
    }
    match plan(vec![RecoveryAction::RetryInherit], &own) {
        PlanStep::Planned { action: TriageAction::RetryInherit { head, .. }, .. } => {
            assert_eq!(head, HEAD);
        }
        _ => panic!("not carried over"),
    }
    let often = PlanSeen { failures: Some(Ok(3)), ..plan_seen() };
    match plan(vec![RecoveryAction::Retry], &often) {
        PlanStep::Refused(why) => assert_eq!(
            why,
            "task 7 has 3 failed or interrupted runs, so it is not retried without a person"
        ),
        _ => panic!("retried"),
    }
    match plan(vec![RecoveryAction::Wait { recheck_after_secs: 90 }], &plan_seen()) {
        PlanStep::Planned { action: TriageAction::Wait { recheck_at }, .. } => {
            assert_eq!(recheck_at, 160);
        }
        _ => panic!("not waiting"),
    }
    match plan(Vec::new(), &plan_seen()) {
        PlanStep::Refused(why) => {
            assert_eq!(why, "a run that ended takes exactly one action of retry, wait, not ");
        }
        _ => panic!("planned"),
    }
    let resume = || vec![RecoveryAction::Resume { instruction: String::new() }];
    match plan(resume(), &plan_seen()) {
        PlanStep::Planned { action: TriageAction::Resume { instruction }, .. } => {
            assert_eq!(instruction, "a server was left running");
        }
        _ => panic!("not resumed"),
    }
    let used = PlanSeen { exhausted: true, ..plan_seen() };
    match plan(resume(), &used) {
        PlanStep::Refused(why) => assert_eq!(
            why,
            "its resumes are used up (1 counted of at most 3, 0 after conflicts only)"
        ),
        _ => panic!("resumed"),
    }
}

#[test]
fn a_used_up_run_is_not_offered_a_resume() {
    let ask = |exhausted: bool| ended_ask(&run(), RecoveryAlert::Failed, &note(), exhausted, "it broke");
    assert_eq!(ask(false).options, ["retry", "resume", "cancel", "kill it"]);
    assert_eq!(ask(true).options, ["retry", "cancel", "kill it"]);
    assert!(ask(true).question.contains("(task 7, failed; alert: failed)"));
    assert!(!ask(true).question.contains("resume:"));
    assert!(ask(true).kind == AskKind::Ended { alert: RecoveryAlert::Failed });
    assert_eq!((ask(true).task_id, ask(true).run_id.as_deref()), (None, Some("r1")));
    assert!(ask(true).asked_by == Asker::Triage && ask(true).finding_id.is_none());
    assert_eq!(last_error_shown(&run()), "it broke");
    let long = TaskRun { last_error: Some("x".repeat(600)), ..run() };
    assert_eq!(last_error_shown(&long).len(), 500);
    assert_eq!(last_error_shown(&TaskRun { last_error: None, ..run() }), "");
}

#[test]
fn a_failed_round_leaves_no_ask() {
    let escalation = Escalation::UsedUp(2);
    let put = |seen: &PutSeen| {
        escalate_ended(
            &run(),
            1,
            RecoveryAlert::Failed,
            2,
            &escalation,
            &note(),
            false,
            "it broke",
            4,
            seen,
        )
    };
    let seen = |created: bool, recorded: Option<Result<(), String>>, withdrawn: bool| PutSeen {
        opened: Some(Opened { id: 5, created }),
        recorded,
        withdrawn,
    };
    let lost = || Some(Err("lease lost".to_owned()));
    assert!(matches!(
        put(&PutSeen { opened: None, recorded: None, withdrawn: false }),
        PutStep::Open(_)
    ));
    assert!(matches!(put(&seen(true, None, false)), PutStep::Record { ask: 5, .. }));
    assert!(matches!(put(&seen(true, lost(), false)), PutStep::Withdraw { ask: 5, .. }));
    assert!(matches!(put(&seen(true, lost(), true)), PutStep::Failed(_)));
    assert!(matches!(put(&seen(false, lost(), false)), PutStep::Failed(_)));
    assert!(matches!(put(&seen(true, Some(Ok(())), false)), PutStep::EndRound));
}

#[test]
fn a_recovery_is_acted_on_under_its_lease() {
    let sure = verdict(vec![RecoveryAction::Retry]);
    let planned = Some((TriageAction::Retry, Fields::new().done()));
    let act = |holds: Option<bool>, plan: &Option<(TriageAction, Json)>, recorded: bool| {
        let seen = ActSeen { holds, planned: None, recorded };
        act_on_recovery(&run(), 1, RecoveryAlert::Failed, 2, 4, &sure, plan, &seen)
    };
    assert!(matches!(act(None, &planned, false), ActStep::HoldsLease));
    match act(Some(false), &planned, false) {
        ActStep::Failed(why) => assert_eq!(why, "the recovery job's lease of run r1 was lost"),
        _ => panic!("acted"),
    }
    assert!(matches!(act(Some(true), &None, false), ActStep::Plan));
    match act(Some(true), &planned, false) {
        ActStep::Finish { payload, also } => {
            assert_eq!(payload.integer("recovery_attempt"), Some(2));
            assert_eq!(also[0].0, "auto_repaired");
            assert_eq!(also[1].0, "recovery_finished");
        }
        _ => panic!("not finished"),
    }
    assert!(matches!(act(Some(true), &planned, true), ActStep::EndRound));
    let (round, failed) = fail_recovery(&run(), 1, RecoveryAlert::Failed, 2, "it died", 4);
    assert_eq!(round.text("error"), Some("it died".to_owned()));
    assert_eq!(round.text("status"), Some("failed".to_owned()));
    assert_eq!(failed.text("error"), Some("it died".to_owned()));
    let runs = vec![RunStatus::Failed, RunStatus::Integrated, RunStatus::Interrupted];
    assert_eq!(failures(&runs), 2);
}

#[test]
fn own_commits_are_those_not_on_main() {
    let seen = |on_main: bool| CommitsSeen {
        worktree_there: Some(true),
        head: Some(HEAD.to_owned()),
        worktree_created: None,
        on_main: Some(on_main),
    };
    assert!(matches!(own_commits(&run(), &seen(false)), CommitsStep::Own(true)));
    assert!(matches!(own_commits(&run(), &seen(true)), CommitsStep::Own(false)));
}

#[test]
fn a_stalled_ask_says_what_the_session_does() {
    let nudge = Nudge { at: 10 * SEC, detected_after_secs: 60, settled: false };
    let task = BackgroundTask {
        id: "b1".to_owned(),
        description: "the server".to_owned(),
        command: "serve".to_owned(),
    };
    let mut watch = StallWatch::new();
    watch.nudged(nudge.at, nudge.detected_after_secs);
    let mut seen = RaiseSeen { screen: None, ask: None, recorded: false };
    let mut question = String::new();
    let tasks = vec![task];
    let raised = loop {
        match watch.open_ask(&run(), "w1", 120, nudge, config(), &tasks, true, 40 * SEC, &seen) {
            RaiseStep::ReadScreen => seen.screen = Some(Ok("the last lines".to_owned())),
            RaiseStep::Open { new } => {
                assert_eq!(new.options, ["wait", "intervene"]);
                assert!(new.category == AskReason::RecoveryFailed);
                assert!(new.kind == AskKind::Stalled && new.finding_id.is_none());
                assert_eq!((new.task_id, new.run_id.as_deref()), (Some(7), Some("r1")));
                question = new.question;
                seen.ask = Some(8);
            }
            RaiseStep::Record { payload } => {
                assert_eq!(payload.text("detection"), Some("nudge".to_owned()));
                assert_eq!(payload.text("outcome"), Some("escalated".to_owned()));
                assert_eq!(payload.integer("resolved_after_secs"), Some(30));
                seen.recorded = true;
            }
            RaiseStep::Raised { watch } => break watch,
        }
    };
    assert!(seen.recorded);
    assert!(raised.nudge.unwrap().settled);
    let asked = raised.asked.unwrap();
    assert_eq!((asked.id, asked.at, asked.detected_after_secs), (8, 40 * SEC, 120));
    assert!(!asked.applied && asked.threshold == Threshold::IdleWithoutReceipt);
    assert!(question.starts_with(
        "The session of run r1 (task 7) in workspace w1 has been idle without a receipt for 120s"
    ));
    assert!(question.contains("although the supervisor nudged it 30s ago"));
    assert!(question.contains("the server"));
    assert!(question.ends_with("\n\nLast lines of the screen:\nthe last lines"));
    let record = nudge_record(120, config(), true, Json::Null, "w1");
    assert_eq!(record.integer("threshold_secs"), Some(60));
    assert!(record.is_true("background_running"));
}

#[test]
fn a_recovery_job_is_given_the_facts_of_its_alert() {
    let facts = background_facts(700, 4_000_000, 600, Json::Null, 5_000_000);
    assert_eq!(facts.integer("background_since_ms"), Some(4));
    assert_eq!(facts.integer("marker_at_ms"), Some(5));
    let facts = idle_facts(Json::Null, 300, 5, "session");
    assert_eq!(facts.integer("progress_cpu_per_mille"), Some(5));
    assert_eq!(facts.text("phase"), Some("session".to_owned()));
    let facts = stuck_exit_facts(10, true);
    assert!(facts.is_true("silent") && facts.is_true("exit_typed"));
    let facts = prompt_facts("login", &Some("h".to_owned()), "sign in");
    assert_eq!(facts.text("screen_hash"), Some("h".to_owned()));
    assert_eq!(leave_idle_to_phase("exit").text("outcome"), Some("left_to_phase".to_owned()));
    assert!(gone_record(4).is_true("gone"));
    assert!(sample_new(Some(2), Some(1)) && !sample_new(Some(1), Some(1)) && !sample_new(None, None));
}

#[test]
fn idle_processes_are_put_to_a_person_with_their_commands() {
    let idle = |pid: u32, idle_secs: i64| IdleProcess {
        pid,
        ppid: 1,
        idle_secs,
        cpu_growth_ms: 0,
        command: "serve".to_owned(),
    };
    let both = vec![idle(4, 310), idle(5, 400)];
    let used_up = Raised { escalation: Escalation::UsedUp(2), attempt: 2 };
    let go = |seen| escalate_idle(&run(), "w1", 300, &both, &used_up, &note(), seen);
    match go(unraised(Some(false))) {
        EscalateStep::Open { new } => {
            assert!(new.question.contains("(alert: idle_process)"));
            assert!(new.question.contains("serve"));
            assert!(new.kind == AskKind::Stalled && new.asked_by == Asker::Supervisor);
            assert_eq!((new.task_id, new.run_id.as_deref()), (Some(7), Some("r1")));
        }
        _ => panic!("not asked"),
    }
    assert!(matches!(
        go(EscalateSeen { ask: Some(3), ..unraised(Some(false)) }),
        EscalateStep::FollowAsk { ask: 3, idle_secs: 400, threshold: Threshold::IdleProcess }
    ));
}

#[test]
fn an_applied_recheck_is_that_of_the_attempt() {
    let finished = |attempt: i128, at: i128| {
        Fields::new()
            .text("alert", "stuck_exit")
            .number("attempt", attempt)
            .number("recheck_at_ms", at)
            .done()
    };
    let events = vec![
        event(1, "recovery_finished", finished(1, 50)),
        event(2, "recovery_finished", finished(2, 60)),
    ];
    assert_eq!(applied_recheck(&events, RecoveryAlert::StuckExit, 1), Some(50));
    assert_eq!(applied_recheck(&events, RecoveryAlert::StuckExit, 3), None);
    assert_eq!(applied_recheck(&events, RecoveryAlert::Failed, 1), None);
}

#[test]
fn a_round_is_asked_for_with_the_persons_choice() {
    let started = Fields::new().text("session_id", "s1").done();
    let ended = Fields::new().text("status", "failed").done();
    let chosen = Fields::new()
        .text("action", "recover_again")
        .number("ask_id", 3)
        .text("answer", "kill it")
        .done();
    let told = Fields::new().text("reason", "no disk").done();
    let events = vec![
        event(1, "run_failed", ended),
        event(2, "triage_started", started),
        event(3, "triage_finished", told),
        event(4, "triage_decided", chosen),
    ];
    let request = round_request(RecoveryAlert::Failed, 2, &run(), &events, "recover_again");
    assert_eq!(request.integer("attempt"), Some(2));
    match request.get("evidence") {
        Some(Json::List(ids)) => assert!(matches!(ids.as_slice(), [Json::Int(1)])),
        _ => panic!("no evidence"),
    }
    let answer = request.get("person_answer").unwrap();
    assert_eq!(answer.text("answer"), Some("kill it".to_owned()));
    assert_eq!(round_reason(&events), Some("no disk".to_owned()));
    assert_eq!(round_session(&events), Some("s1".to_owned()));
    assert_eq!(ended_facts(&events, RecoveryAlert::Failed).text("alert"), Some("failed".to_owned()));
    let bare = TaskRun { run_dir: None, workspace_id: None, ..run() };
    let place = ended_place(&bare, "/runs", false);
    assert_eq!((place.dir.as_str(), place.workspace.as_str()), ("/runs/r1", "none"));
    assert_eq!(place.worktree, None);
    assert_eq!(note_triaged(&run()).integer("task_id"), Some(7));
}

#[test]
fn the_latest_stalled_ask_of_a_run_is_found() {
    let ask = |id: i64, run: &str, stalled: bool| ListedAsk {
        id,
        run: Some(run.to_owned()),
        stalled,
    };
    let asks = vec![
        ask(1, "r1", true),
        ask(2, "r1", true),
        ask(3, "r1", false),
        ask(4, "r2", true),
    ];
    assert_eq!(stalled_ask(&asks, "r1", None), Some(1));
    assert_eq!(stalled_ask(&asks, "r1", Some(1)), Some(0));
    assert_eq!(stalled_ask(&asks, "r1", Some(4)), None);
    assert_eq!(stalled_ask(&asks, "r3", None), None);
}

#[test]
fn a_round_closes_the_workspaces_before_the_lease_goes() {
    let mut seen = RoundSeen::default();
    match end_round(seen) {
        RoundStep::CloseWorkspaces { closer } => assert_eq!(closer.closed_by(), "triage"),
        _ => panic!("the workspaces stay open"),
    }
    seen.closed = true;
    assert!(matches!(end_round(seen), RoundStep::ReleaseLease));
    seen.released = true;
    assert!(matches!(end_round(seen), RoundStep::Ended));
}

#[test]
fn a_recovery_job_starts_with_its_prompt_written() {
    let session = Some("s1".to_owned());
    let go = |seen: &HeadlessSeen| start_job("/runs/r1", RecoveryAlert::StuckExit, 2, &session, seen);
    let mut seen = HeadlessSeen::default();
    assert!(matches!(go(&seen), HeadlessStep::CreateDir { dir } if dir == "/runs/r1"));
    seen.created = Some(Err("full".to_owned()));
    assert!(matches!(go(&seen), HeadlessStep::Failed(why) if why == "create /runs/r1: full"));
    seen.created = Some(Ok(()));
    match go(&seen) {
        HeadlessStep::WritePrompt { file } => {
            assert_eq!(file, "/runs/r1/recovery-stuck_exit-2.prompt.txt");
        }
        _ => panic!("no prompt"),
    }
    seen.written = Some(Ok(()));
    match go(&seen) {
        HeadlessStep::Spawn { stdout, stderr, session_id } => {
            assert_eq!(stdout, "/runs/r1/recovery-stuck_exit-2.out");
            assert_eq!(stderr, "/runs/r1/recovery-stuck_exit-2.err");
            assert_eq!(session_id.as_deref(), Some("s1"));
        }
        _ => panic!("not spawned"),
    }
    seen.spawned = Some(Err("no agent".to_owned()));
    assert!(
        matches!(go(&seen), HeadlessStep::Failed(why) if why == "start the recovery job: no agent")
    );
    seen.spawned = Some(Ok(()));
    assert!(matches!(go(&seen), HeadlessStep::Watch { what: "recovery job", .. }));
    assert_eq!(live_screen(Ok("> ".to_owned())), "> ");
    assert_eq!(live_screen(Err("gone".to_owned())), "(the screen could not be read: gone)");
}

#[test]
fn a_plan_review_job_makes_its_prompt_in_its_directory() {
    let job = PlanReviewJob {
        proposal_id: 4,
        anchor: 11,
        attempt: 1,
        dir: "/q/plan/4".to_owned(),
        session_id: "s4".to_owned(),
    };
    let mut seen = HeadlessSeen { created: Some(Ok(())), ..Default::default() };
    assert!(matches!(spawn_plan_review(&job, &seen), HeadlessStep::Prompt));
    seen.prompted = Some(Err("no task".to_owned()));
    assert!(
        matches!(spawn_plan_review(&job, &seen), HeadlessStep::Failed(why) if why == "no task")
    );
    seen.prompted = Some(Ok(()));
    match spawn_plan_review(&job, &seen) {
        HeadlessStep::WritePrompt { file } => assert_eq!(file, "/q/plan/4/prompt.txt"),
        _ => panic!("no prompt"),
    }
    seen.written = Some(Ok(()));
    match spawn_plan_review(&job, &seen) {
        HeadlessStep::Spawn { stdout, stderr, session_id } => {
            assert_eq!((stdout.as_str(), stderr.as_str()), ("/q/plan/4/review.out", "/q/plan/4/review.err"));
            assert_eq!(session_id.as_deref(), Some("s4"));
        }
        _ => panic!("not spawned"),
    }
    seen.spawned = Some(Err("no agent".to_owned()));
    assert!(
        matches!(spawn_plan_review(&job, &seen), HeadlessStep::Failed(why) if why == "start the plan review: no agent")
    );
}
