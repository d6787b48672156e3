//! Planner sessions, and the planners that the supervisor tends.

use dagq::domain::{Agent, AskKind, AskReason, Asker, RunEvent};
use dagq::json::{Fields, Json};
use dagq::planner::{
    open_draft_planner, open_person_planner, open_planner, open_runtime_planner, planner_dir,
    planner_view, planner_views, run_planner_session, OpenSeen, OpenStep, PlannerLaunch,
    PlannerOrigin, PlannerProbes, PlannerSession, PlannerState, PlannerView,
    SessionSeen, SessionStep, ViewStep, ViewsStep,
};
use dagq::supervise::draft_planner::{
    deliver_answer, delivery_failed, draft_sources, landed_receipt, open_planners, siblings,
    start_planner, subject, AnswerSeen, AnswerStep, DraftOrigin, OpenStep as DraftOpenStep,
    PlannerAnswer, PlannerAnswerRoute, PlannerStart, StartSeen, StartStep, Subject,
};
use dagq::supervise::finding_planner::{deliver_finding_answer, finding_goal, GoalSource};
use dagq::supervise::plan_review::{
    apply_plan_answers, apply_plan_verdict, conflict_hotspots, deliver_revise, duplicate_candidates,
    end_runtime_planner, goal_ids, has_own_revise, in_progress, owner_of, plan_expected_files,
    plan_question, plan_review_pass, planner_gone, poll_plan_review, queued_left_out,
    runtime_open, start_plan_review, tend_planners, tend_revise, waits_on_question,
    wanted_candidates, BeginSeen, BeginStep, DeliverSeen, DeliverStep, EndSeen, EndStep, Expected,
    Hit, PassSeen, PassStep, PlanAnswersStep, PlanReviewDecision, PlanReviewJob, PlanReviewVerdict, PlannersStep,
    PollSeen, PollStep, Precedent, Question, Queued, Revise, TendSeen, TendStep,
};

fn launch() -> PlannerLaunch {
    PlannerLaunch {
        db: "/q/queue.db".to_owned(),
        queue_hash: "abc".to_owned(),
        group_name: "queue".to_owned(),
        planners_dir: "/q/planners".to_owned(),
        repo_root: "/repo".to_owned(),
        runner: "/bin/dagq".to_owned(),
        agent: Agent { product: "The Agent".to_owned(), program: "agent".to_owned() },
        claude: "/bin/agent".to_owned(),
        plugin_dir: None,
    }
}

fn session(id: i64, origin: PlannerOrigin) -> PlannerSession {
    PlannerSession {
        id,
        origin,
        proposal_id: None,
        draft_task_id: None,
        finding_id: None,
        workspace_id: Some(format!("w{id}")),
        wrapper_pid: Some(9),
        exited_at: None,
        closed_at: None,
    }
}

fn view(id: i64, state: PlannerState, alive: bool) -> PlannerView {
    PlannerView {
        planner: session(id, PlannerOrigin::Runtime),
        state,
        alive,
        idle_since: Some(50),
        dir: format!("/q/planners/{id}"),
    }
}

fn unopened() -> OpenSeen {
    OpenSeen {
        proposal_shown: false,
        prompt: None,
        planner: None,
        title: "planner 4".to_owned(),
        description: "plans".to_owned(),
        dir_made: None,
        prompt_written: None,
        runner_copied: None,
        group: None,
        created: None,
        closed: false,
        recorded: false,
        color: None,
        pill: None,
        session: None,
    }
}

#[test]
fn a_planner_is_recorded_then_opened_in_its_directory() {
    let mut seen = unopened();
    let mut steps: Vec<&str> = Vec::new();
    let opened = loop {
        match open_person_planner(&launch(), &seen) {
            OpenStep::ShowProposal { .. } | OpenStep::ProposalPrompt { .. } => {
                panic!("no proposal")
            }
            OpenStep::PersonPrompt { db } => {
                assert_eq!(db, "/q/queue.db");
                seen.prompt = Some("plan with me".to_owned());
            }
            OpenStep::Record { origin, proposal } => {
                steps.push("record");
                assert!(origin == PlannerOrigin::Person && proposal.is_none());
                seen.planner = Some(PlannerSession {
                    workspace_id: None,
                    ..session(4, PlannerOrigin::Person)
                });
            }
            OpenStep::MakeDir { dir } => {
                steps.push("dir");
                assert_eq!(dir, planner_dir("/q/planners", 4));
                seen.dir_made = Some(Ok(()));
            }
            OpenStep::WritePrompt { file, text } => {
                steps.push("prompt");
                assert_eq!(
                    (file.as_str(), text.as_str()),
                    ("/q/planners/4/prompt.txt", "plan with me")
                );
                seen.prompt_written = Some(Ok(()));
            }
            OpenStep::CopyRunner { from, to } => {
                steps.push("runner");
                assert_eq!((from.as_str(), to.as_str()), ("/bin/dagq", "/q/planners/4/runner"));
                seen.runner_copied = Some(Ok(()));
            }
            OpenStep::MakeGroup { external_id, name } => {
                assert_eq!((external_id.as_str(), name.as_str()), ("abc", "queue"));
                steps.push("group");
                seen.group = Some(Ok("g".to_owned()));
            }
            OpenStep::Create { argv, cwd, .. } => {
                steps.push("create");
                assert_eq!(cwd, "/repo");
                assert_eq!(
                    argv,
                    [
                        "/q/planners/4/runner", "--db", "/q/queue.db", "planner-session",
                        "--planner", "4", "--agent", "/bin/agent",
                    ]
                );
                seen.created = Some(Ok("w4".to_owned()));
            }
            OpenStep::RecordWorkspace { id, workspace } => {
                steps.push("workspace");
                assert_eq!((id, workspace.as_str()), (4, "w4"));
                seen.recorded = true;
            }
            OpenStep::SetColor { color, .. } => {
                assert_eq!(color, "Blue");
                seen.color = Some(None);
            }
            OpenStep::SetPill { icon, .. } => {
                assert_eq!(icon, "map");
                seen.pill = Some(Some("refused".to_owned()));
            }
            OpenStep::Reread { id } => seen.session = Some(session(id, PlannerOrigin::Person)),
            OpenStep::Close { .. } | OpenStep::Failed(_) => panic!("failed"),
            OpenStep::Opened(opened) => break opened,
        }
    };
    assert_eq!(steps[..2], ["record", "dir"]);
    assert_eq!(steps.last(), Some(&"workspace"));
    assert_eq!(opened.planner.id, 4);
    assert_eq!(opened.warnings.len(), 1);
}

#[test]
fn a_planner_that_cannot_open_is_closed() {
    let failed = OpenSeen {
        planner: Some(session(4, PlannerOrigin::Person)),
        dir_made: Some(Err("disk full".to_owned())),
        ..unopened()
    };
    let open = |seen: &OpenSeen| open_planner(&launch(), PlannerOrigin::Person, None, "plan", seen);
    match open(&failed) {
        OpenStep::Close { id, error } => {
            assert_eq!((id, error.as_str()), (4, "create /q/planners/4: disk full"));
        }
        _ => panic!("not closed"),
    }
    let closed = OpenSeen { closed: true, ..failed };
    assert!(matches!(open(&closed), OpenStep::Failed(_)));
    let uncopied = OpenSeen {
        dir_made: Some(Ok(())),
        prompt_written: Some(Ok(())),
        runner_copied: Some(Err("busy".to_owned())),
        ..closed
    };
    match open(&uncopied) {
        OpenStep::Failed(why) => assert_eq!(why, "snapshot runtime binary: busy"),
        _ => panic!("not failed"),
    }
}

#[test]
fn a_planner_of_the_runtime_opens_for_a_proposal_that_exists() {
    let reasons = vec!["too large".to_owned()];
    let open = |seen: &OpenSeen| open_runtime_planner(&launch(), 3, &reasons, seen);
    let mut seen = unopened();
    assert!(matches!(open(&seen), OpenStep::ShowProposal { id: 3 }));
    seen.proposal_shown = true;
    match open(&seen) {
        OpenStep::ProposalPrompt { db, of, reasons } => {
            assert_eq!((db.as_str(), of), ("/q/queue.db", 3));
            assert_eq!(reasons, ["too large"]);
        }
        _ => panic!("no prompt"),
    }
    seen.prompt = Some("revise it".to_owned());
    assert!(matches!(
        open(&seen),
        OpenStep::Record { origin: PlannerOrigin::Runtime, proposal: Some(3) }
    ));
    let draft = session(5, PlannerOrigin::Runtime);
    let made = OpenSeen { dir_made: Some(Ok(())), ..unopened() };
    match open_draft_planner(&launch(), &draft, "decide it", &made) {
        OpenStep::WritePrompt { text, .. } => assert_eq!(text, "decide it"),
        _ => panic!("not written"),
    }
}

#[test]
fn a_planner_session_records_its_exit() {
    let mut seen = SessionSeen {
        registered: false,
        started: None,
        agent: None,
        waited: None,
        beat: false,
        exited: false,
    };
    assert!(matches!(run_planner_session(&seen), SessionStep::Register));
    seen.registered = true;
    assert!(matches!(run_planner_session(&seen), SessionStep::Start));
    seen.started = Some(Ok(77));
    assert!(matches!(run_planner_session(&seen), SessionStep::RegisterAgent { agent: 77 }));
    seen.agent = Some(Ok(()));
    assert!(matches!(run_planner_session(&seen), SessionStep::Poll));
    seen.waited = Some(Ok(Some(Some(3))));
    assert!(matches!(run_planner_session(&seen), SessionStep::RecordExit { code: 3 }));
    seen.exited = true;
    assert!(matches!(run_planner_session(&seen), SessionStep::Finished { code: 3 }));
}

#[test]
fn a_planner_is_judged_by_what_was_probed() {
    let none = PlannerProbes::default;
    let one = session(4, PlannerOrigin::Person);
    assert!(matches!(planner_view("/q/planners", &one, &none()), ViewStep::Listed { .. }));
    let read = PlannerProbes {
        now: 50,
        listed: Some(true),
        wrapper_alive: Some(true),
        marker: Some(None),
        ..none()
    };
    match planner_view("/q/planners", &one, &read) {
        ViewStep::Judge(probe) => assert_eq!((probe.now, probe.workspace_listed), (50, true)),
        _ => panic!("not judged"),
    }
    let known = PlannerProbes {
        now: 50,
        listed: Some(true),
        wrapper_alive: Some(true),
        marker: Some(None),
        working: Some(None),
        state: Some((PlannerState::Working, true)),
    };
    match planner_view("/q/planners", &one, &known) {
        ViewStep::View(view) => {
            assert!(view.state == PlannerState::Working && view.alive);
            assert_eq!(view.dir, "/q/planners/4");
        }
        _ => panic!("not judged"),
    }
    let both = vec![session(4, PlannerOrigin::Person), session(5, PlannerOrigin::Runtime)];
    match planner_views("/q/planners", &both, &vec![known, none()]) {
        ViewsStep::Look { index, .. } => assert_eq!(index, 1),
        _ => panic!("judged without a look"),
    }
}

#[test]
fn a_pass_of_plan_review_starts_nothing_while_draining() {
    let mut seen = PassSeen {
        settled: None,
        answered: None,
        polled: None,
        started: false,
        tended: false,
    };
    assert!(plan_review_pass(true, seen) == PassStep::SettleProposals);
    seen.settled = Some(false);
    seen.answered = Some(true);
    seen.polled = Some(false);
    assert!(plan_review_pass(true, seen) == PassStep::StartReview);
    assert!(plan_review_pass(false, seen) == PassStep::Done { progressed: true });
    let begin = BeginSeen {
        running: false,
        candidate: Some(Some(3)),
        begun: Some(true),
        spawned: Some(Err("no agent".to_owned())),
        failed: false,
    };
    match start_plan_review(&begin) {
        BeginStep::Fail { error } => {
            assert_eq!(error, "the headless plan review could not start: no agent");
        }
        _ => panic!("not failed"),
    }
    assert!(matches!(
        start_plan_review(&BeginSeen { running: true, ..begin }),
        BeginStep::Done
    ));
    let polled = PollSeen {
        running: true,
        ended: Some(Ok(())),
        applied: Some(Err("no verdict".to_owned())),
        failed: false,
    };
    assert!(matches!(poll_plan_review(&polled), PollStep::Fail { .. }));
}

#[test]
fn the_material_of_a_plan_review_is_picked() {
    assert_eq!(goal_ids(&vec![Some(9), None, Some(2), Some(9)], &vec![5, 2]), [2, 5, 9]);
    let hit = |task: Option<i64>, task_id: Option<i64>| Hit { task, task_id };
    let hits = vec![hit(Some(1), None), hit(None, Some(7)), hit(None, None), hit(Some(8), None)];
    assert_eq!(duplicate_candidates(&hits, &vec![7], 2), [0, 2]);
    assert_eq!(wanted_candidates(&vec![7, 8], 5), 7);
    assert_eq!(queued_left_out(250, 200), 50);
    assert_eq!(queued_left_out(3, 5), 0);
    let states = vec!["present".to_owned(), "deleted".to_owned(), "present".to_owned()];
    assert_eq!(conflict_hotspots(&states), [0, 2]);
    let files = |task_id: i64, file: &str| Expected { task_id, files: vec![file.to_owned()] };
    let queued = vec![
        Queued { expected: files(1, "b"), in_progress: true },
        Queued { expected: files(2, "c"), in_progress: false },
    ];
    assert!(in_progress(&queued));
    let expected = plan_expected_files(
        &vec![files(1, "a"), files(3, "d")],
        &queued,
        &vec![files(2, "e"), files(9, "f")],
    );
    let of = |task: i64| {
        expected.iter().find(|e| e.task_id == task).map(|e| e.files.join(","))
    };
    assert_eq!(of(1).as_deref(), Some("b"));
    assert_eq!(of(2).as_deref(), Some("e"));
    assert_eq!(of(3).as_deref(), Some("d"));
    assert_eq!(of(9), None);
}

fn job() -> PlanReviewJob {
    PlanReviewJob {
        proposal_id: 4,
        anchor: 11,
        attempt: 1,
        dir: "/q/plan/4".to_owned(),
        session_id: "s4".to_owned(),
    }
}

#[test]
fn a_revise_past_the_limit_asks_a_person() {
    let verdict = PlanReviewVerdict {
        verdict: PlanReviewDecision::Revise,
        reasons: vec!["too big".to_owned()],
        summary: "split it".to_owned(),
        precedents: vec![2, 99],
    };
    let answered = vec![Precedent { id: 2, line: "ask 2: split".to_owned() }];
    let options = vec!["ready".to_owned(), "send_back".to_owned()];
    let sent = apply_plan_verdict(&job(), 1, 2, &verdict, &answered, &options);
    assert!(sent.decision == PlanReviewDecision::Revise && sent.ask.is_none());
    assert_eq!(sent.revise_reasons, ["too big", "ask 2: split"]);
    let asked = apply_plan_verdict(&job(), 2, 2, &verdict, &answered, &options);
    assert!(asked.decision == PlanReviewDecision::Concern);
    assert_eq!(
        asked.overridden.as_deref(),
        Some("proposal 4 was sent back 2 times already (at most 2)")
    );
    let ask = asked.ask.unwrap();
    assert!(ask.category == AskReason::Scope && ask.kind == AskKind::ApprovePlan);
    assert_eq!((ask.task_id, ask.run_id, ask.options), (Some(11), None, options));
    assert!(ask.asked_by == Asker::PlanReview && ask.finding_id.is_none());
    assert_eq!(
        ask.question,
        "Plan review of proposal 4 (its first task is 11) needs a person: split it\nIt answered revise, but proposal 4 was sent back 2 times already (at most 2).\nReasons:\n- too big\n- ask 2: split\nPlan review material: /q/plan/4/prompt.txt\nready: make the proposal's tasks ready as they are. send_back: send it back to its planner (answer `send_back: <your reason>` to add yours). cancel: cancel the proposal's tasks."
    );
    let plain = PlanReviewVerdict { reasons: Vec::new(), ..verdict };
    assert!(!plan_question(&job(), &plain, &None, &Vec::new()).contains("Reasons"));
}

#[test]
fn answered_plans_are_decided_one_by_one() {
    let lost = || Err("locked".to_owned());
    assert_eq!(apply_plan_answers(None, &Vec::new()), PlanAnswersStep::List);
    assert_eq!(apply_plan_answers(Some(0), &Vec::new()), PlanAnswersStep::Applied(false));
    let first = vec![lost()];
    assert_eq!(apply_plan_answers(Some(2), &first), PlanAnswersStep::Decide { index: 1 });
    let none = vec![lost(), Ok(false)];
    assert_eq!(apply_plan_answers(Some(2), &none), PlanAnswersStep::Applied(false));
    let some = vec![lost(), Ok(true)];
    assert_eq!(apply_plan_answers(Some(2), &some), PlanAnswersStep::Applied(true));
}

fn revise(sent_at: Option<i64>, planner_id: Option<i64>) -> Revise {
    Revise {
        proposal_id: 4,
        owner_workspace: Some("w1".to_owned()),
        planner_id,
        revised_at: Some(10),
        sent_at,
        unresponsive_at: None,
    }
}

#[test]
fn a_revise_that_waits_is_taken_back_or_told_once() {
    match tend_revise(&revise(Some(20), Some(1)), true, 30, 100, 60) {
        TendStep::Lost { planner, why } => {
            assert_eq!(planner, Some(1));
            assert_eq!(why, "its planner is gone before it submitted again");
        }
        _ => panic!("kept"),
    }
    assert!(matches!(
        tend_revise(&revise(Some(20), Some(1)), false, 121, 100, 60),
        TendStep::Unresponsive { waited: 101, .. }
    ));
    let told = Revise { unresponsive_at: Some(120), ..revise(Some(20), Some(1)) };
    assert!(matches!(tend_revise(&told, false, 500, 100, 60), TendStep::Nothing));
    assert!(matches!(
        tend_revise(&revise(Some(20), None), false, 81, 100, 60),
        TendStep::Lost { planner: None, .. }
    ));
    assert!(matches!(
        tend_revise(&revise(None, None), false, 111, 100, 60),
        TendStep::Unresponsive { planner: None, waited: 101 }
    ));
}

#[test]
fn a_revise_goes_to_its_idle_planner_or_a_new_one() {
    let unsent = || DeliverSeen {
        owner_gone: None,
        claimed: None,
        typed: None,
        opened: None,
        recorded: false,
    };
    let idle = view(1, PlannerState::Idle, true);
    let busy = view(1, PlannerState::Working, true);
    assert_eq!(owner_of(&revise(None, None), &vec![view(2, PlannerState::Idle, true), view(1, PlannerState::Idle, true)]), Some(1));
    assert!(matches!(deliver_revise(&revise(None, None), Some(&busy), 0, 1, &unsent()), DeliverStep::Next));
    assert!(matches!(deliver_revise(&revise(None, None), Some(&idle), 0, 1, &unsent()), DeliverStep::Claim));
    let claimed = DeliverSeen { claimed: Some(true), ..unsent() };
    assert!(matches!(
        deliver_revise(&revise(None, None), Some(&idle), 0, 1, &claimed),
        DeliverStep::TypeRequest { .. }
    ));
    let failed = DeliverSeen { typed: Some(Err("no".to_owned())), ..claimed };
    assert!(matches!(
        deliver_revise(&revise(None, None), Some(&idle), 0, 1, &failed),
        DeliverStep::RecordLost { why: "the typing failed" }
    ));
    let taken = DeliverSeen { claimed: Some(true), ..unsent() };
    assert!(matches!(deliver_revise(&revise(None, None), None, 0, 1, &taken), DeliverStep::OpenPlanner));
    assert!(matches!(deliver_revise(&revise(None, None), None, 1, 1, &taken), DeliverStep::Next));
    let sent = revise(Some(20), Some(1));
    assert!(matches!(deliver_revise(&sent, Some(&idle), 0, 1, &unsent()), DeliverStep::Next));
    assert_eq!(runtime_open(&vec![view(1, PlannerState::Idle, true), view(2, PlannerState::Lost, false)]), 1);
}

#[test]
fn planners_are_tended_in_order() {
    let mut seen = TendSeen {
        open: None,
        revises: Some(1),
        tended: 0,
        waiting: Some(1),
        delivered: 0,
        answers: None,
        answered: 0,
        drafts: None,
        drafted: 0,
        settled: false,
        findings: None,
        found: 0,
        ended: false,
    };
    assert!(tend_planners(seen, 3) == PlannersStep::Views);
    seen.open = Some(1);
    assert!(tend_planners(seen, 3) == PlannersStep::TendRevise { index: 0 });
    seen.tended = 1;
    assert!(tend_planners(seen, 3) == PlannersStep::DeliverRevise { index: 0, open: 1 });
    seen.delivered = 1;
    assert!(tend_planners(seen, 3) == PlannersStep::Answers);
    seen.answers = Some(1);
    assert!(tend_planners(seen, 3) == PlannersStep::DeliverAnswer { index: 0, open: 1 });
    seen.answered = 1;
    assert!(tend_planners(seen, 3) == PlannersStep::Drafts);
    seen.drafts = Some(5);
    assert!(tend_planners(seen, 3) == PlannersStep::StartDraft { index: 0 });
    assert!(tend_planners(seen, 1) == PlannersStep::SettleFindings);
    seen.settled = true;
    assert!(tend_planners(seen, 3) == PlannersStep::Findings);
    seen.findings = Some(1);
    assert!(tend_planners(seen, 3) == PlannersStep::StartFinding { index: 0 });
    assert!(tend_planners(seen, 1) == PlannersStep::EndPlanners);
    seen.ended = true;
    assert!(tend_planners(seen, 3) == PlannersStep::Done);
}

#[test]
fn a_pass_opens_no_more_planners_than_the_limit() {
    let mut seen = TendSeen {
        open: Some(1),
        revises: Some(0),
        tended: 0,
        waiting: Some(0),
        delivered: 0,
        answers: Some(0),
        answered: 0,
        drafts: Some(4),
        drafted: 0,
        settled: false,
        findings: Some(4),
        found: 0,
        ended: false,
    };
    let mut started = 0;
    loop {
        match tend_planners(seen, 3) {
            PlannersStep::StartDraft { .. } => {
                seen.drafted += 1;
                seen.opened(3);
                started += 1;
            }
            PlannersStep::StartFinding { .. } => panic!("over the limit"),
            PlannersStep::SettleFindings => seen.settled = true,
            PlannersStep::EndPlanners => seen.ended = true,
            PlannersStep::Done => break,
            _ => panic!("unexpected"),
        }
    }
    assert_eq!((started, seen.open), (2, Some(3)));
}

#[test]
fn only_a_planner_of_the_runtime_that_is_done_is_ended() {
    let fresh = || EndSeen {
        gone: false,
        asked: None,
        revises: false,
        waits: Some(false),
        exists: None,
        workspace_closed: false,
        closed: false,
        exit_sent: false,
    };
    let idle = view(1, PlannerState::Idle, true);
    match end_runtime_planner(&idle, 100, 10, &fresh()) {
        EndStep::SendExit { workspace } => assert_eq!(workspace, "w1"),
        _ => panic!("kept"),
    }
    let asked = EndSeen { asked: Some(95), ..fresh() };
    assert!(matches!(end_runtime_planner(&idle, 100, 10, &asked), EndStep::Next));
    let overdue = EndSeen { asked: Some(80), exists: Some(true), ..fresh() };
    assert!(matches!(end_runtime_planner(&idle, 100, 10, &overdue), EndStep::CloseWorkspace { .. }));
    let mut person = view(1, PlannerState::Exited, false);
    person.planner.origin = PlannerOrigin::Person;
    let gone = EndSeen { gone: true, ..fresh() };
    assert!(matches!(end_runtime_planner(&person, 100, 10, &gone), EndStep::Next));
    assert!(planner_gone(&view(1, PlannerState::Lost, false), true));
    assert!(!planner_gone(&view(1, PlannerState::Closed, false), true));
    assert!(planner_gone(&view(1, PlannerState::Closed, false), false));
    assert!(has_own_revise(&vec![revise(None, None)], &view(1, PlannerState::Idle, true)));
    assert!(!has_own_revise(&vec![revise(Some(1), Some(2))], &view(1, PlannerState::Idle, true)));
}

#[test]
fn a_planner_waits_on_its_own_questions() {
    let ask = |closed_at: Option<i64>, delivered: bool| Question {
        id: 1,
        task_id: Some(7),
        finding_id: None,
        closed_at,
        delivered,
    };
    let mut planner = view(1, PlannerState::Idle, true);
    assert!(!waits_on_question(&planner, &vec![ask(None, false)]));
    planner.planner.draft_task_id = Some(7);
    assert!(waits_on_question(&planner, &vec![ask(None, false)]));
    assert!(waits_on_question(&planner, &vec![ask(Some(60), true)]));
    assert!(!waits_on_question(&planner, &vec![ask(Some(40), true)]));
    assert!(!waits_on_question(&planner, &vec![ask(Some(60), false)]));
}

fn answer() -> PlannerAnswer {
    PlannerAnswer {
        id: 5,
        task_id: Some(7),
        finding_id: None,
        asked_by: "planner".to_owned(),
        created_at: 40,
        answer: Some("yes".to_owned()),
    }
}

fn undelivered() -> AnswerSeen {
    AnswerSeen {
        route: Some(PlannerAnswerRoute::Planner { id: 1 }),
        failed_before: Some(false),
        claimed: None,
        typed: None,
        started: None,
        recorded: false,
    }
}

#[test]
fn an_answer_is_typed_by_one_supervisor() {
    let views = vec![view(1, PlannerState::Idle, true)];
    let about = subject(&answer()).unwrap();
    assert!(about == Subject::Draft { task: 7 });
    let step = |seen: &AnswerSeen| deliver_answer(&answer(), about, &views, 0, 1, seen);
    assert!(matches!(step(&undelivered()), AnswerStep::Claim { planner: 1, .. }));
    let claimed = || AnswerSeen { claimed: Some(true), ..undelivered() };
    match step(&claimed()) {
        AnswerStep::Type { workspace, text } => {
            assert_eq!((workspace.as_str(), text.as_str()), ("w1", "answer to ask 5: yes"));
        }
        _ => panic!("not typed"),
    }
    let failed = AnswerSeen { typed: Some(Err("gone".to_owned())), ..claimed() };
    match step(&failed) {
        AnswerStep::RecordFailed { payload } => {
            assert_eq!(payload.text("error"), Some("gone".to_owned()));
            assert_eq!(payload.integer("planner_id"), Some(1));
        }
        _ => panic!("not recorded"),
    }
    let early = vec![PlannerView { idle_since: Some(39), ..view(1, PlannerState::Idle, true) }];
    assert!(matches!(
        deliver_answer(&answer(), about, &early, 0, 1, &claimed()),
        AnswerStep::Next
    ));
    let moved = AnswerSeen { route: Some(PlannerAnswerRoute::Close), ..undelivered() };
    assert!(matches!(
        deliver_finding_answer(&answer(), 3, &views, 0, 1, &moved),
        AnswerStep::Close { why: "its finding moved on and no planner of the runtime's works on it" }
    ));
    let new = AnswerSeen { route: Some(PlannerAnswerRoute::NewPlanner), ..undelivered() };
    assert!(matches!(step(&new), AnswerStep::StartPlanner { answer: 5 }));
    assert!(matches!(deliver_answer(&answer(), about, &views, 1, 1, &new), AnswerStep::Next));
}

fn event(kind: &str, payload: Json) -> RunEvent {
    RunEvent { id: 1, kind: kind.to_owned(), at_millis: None, payload }
}

#[test]
fn drafts_and_findings_get_their_planners() {
    let failed = vec![event("ask_delivery_failed", Fields::new().number("ask_id", 5).done())];
    assert!(delivery_failed(&failed, 5) && !delivery_failed(&failed, 6));
    let seen = StartSeen {
        start: Some(PlannerStart::Opened { planner: 4, attempt: 2 }),
        prompt: Some(Err("no draft".to_owned())),
        closed: false,
        opened: None,
    };
    assert!(matches!(start_planner(None, &seen), StartStep::ClosePlanner { planner: 4, .. }));
    let exhausted = StartSeen { start: Some(PlannerStart::Exhausted { attempts: 3 }), ..seen };
    assert!(matches!(start_planner(None, &exhausted), StartStep::Started(None)));
    let mut handed = StartSeen { start: None, prompt: None, closed: false, opened: None };
    assert!(matches!(start_planner(Some(5), &handed), StartStep::Record { answer: Some(5) }));
    handed.start = Some(PlannerStart::Opened { planner: 4, attempt: 2 });
    assert!(matches!(
        start_planner(Some(5), &handed),
        StartStep::Prompt { attempt: 2, answer: Some(5) }
    ));
    assert!(open_planners(2, 0, 0, 1) == DraftOpenStep::Start { index: 0 });
    assert!(open_planners(2, 1, 1, 1) == DraftOpenStep::Done);
    let material = Fields::new().number("source_task_id", 7).text("source_run_id", "r1").done();
    let sources = draft_sources(DraftOrigin::FollowUp, &material);
    assert_eq!((sources.source_task, sources.source_run.as_deref()), (Some(7), Some("r1")));
    assert!(draft_sources(DraftOrigin::GoalGap, &material).source_run.is_none());
    assert_eq!(siblings(&vec![1, 7, 2], 7), [0, 2]);
    let landed = vec![event("integration_receipt", Fields::new().text("receipt", "x").done())];
    assert!(matches!(landed_receipt(&landed), Some(Json::Text(_))));
    assert!(finding_goal(None, Some(3)) == GoalSource::TaskGoal { task: 3 });
    assert!(finding_goal(Some(1), Some(3)) == GoalSource::Goal { id: 1 });
}
