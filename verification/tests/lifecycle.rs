//! Starting, replacing and stopping a queue's runtime.

use dagq::domain::{Agent, RunStatus};
use dagq::integrate::begin::LeaseLook;
use dagq::json::Json;
use dagq::lifecycle::agent::{
    agent_runs, escape, inbox_command, launch_agent_spec, session_command, supervise_arguments,
    supervise_command, DownOptions, QueuePaths, RepositoryPaths, SupervisorMode, UpEnvironment,
    UpOptions,
};
use dagq::lifecycle::replace;
use dagq::lifecycle::replace::{ensure_supervisor_workspace_free, replace_supervisors};
use dagq::lifecycle::sessions::{
    mark, open_session, recorded_workspace, session_env, session_look, GroupStep, QueueWorkspaces, Recorded,
    SessionRole, SessionSeen, SessionStep,
    TagsStep,
};
use dagq::lifecycle::start::{
    open_work, start_supervisor, trust_root, untrusted_repository_hint, wait_for_registration,
    OpenRun, StartInputs, StartSeen, StartStep, WaitingRun,
};
use dagq::lifecycle::stop::{
    close_supervisor_workspaces, closing_report, down, down_report, pruned, remaining,
    stop_signal, AgentState, Closing, DownAction, DownOutcome, Signal, Stop,
};
use dagq::lifecycle::supervisors::{
    fresh, handoff_overdue, handoff_refused, labelled, outdated, sort_out, takes_handoff,
    wait_for_handoff, HandoffStep, Request, SupervisorRegistration,
};
use dagq::lifecycle::up;
use dagq::lifecycle::up::{hand_off_supervisors, set_auto_update, up_report, Inputs, Seen, Step};

fn agent() -> Agent {
    Agent { product: "The Agent".to_owned(), program: "agent".to_owned() }
}

fn location() -> QueuePaths {
    QueuePaths {
        db: "/q/queue.db".to_owned(),
        hash: "abc".to_owned(),
        label: "dagq.abc".to_owned(),
        launch_agent: "/home/LaunchAgents/dagq.abc.plist".to_owned(),
        log_dir: "/q/logs".to_owned(),
    }
}

fn environment() -> UpEnvironment {
    UpEnvironment {
        role: None,
        queue: None,
        path: "/usr/bin:/bin".to_owned(),
        socket_password: None,
        current_exe: "/bin/dagq".to_owned(),
        agent: agent(),
        claude_config: Some("/home/agent.json".to_owned()),
    }
}

fn options() -> UpOptions {
    UpOptions {
        parallel: 2,
        max_waiting: 4,
        in_cmux: false,
        no_wait: false,
        plugin_dir: None,
        cmux: "/bin/cmux".to_owned(),
        claude: "/bin/agent".to_owned(),
        startup_timeout: 30,
        handoff_timeout: 60,
        auto_update: false,
    }
}

fn registration(token: &str, pid: u32, version: &str, alive: bool) -> SupervisorRegistration {
    SupervisorRegistration {
        token: token.to_owned(),
        pid,
        mode: Some(SupervisorMode::Launchd),
        workspace_id: None,
        binary_version: Some(version.to_owned()),
        heartbeat_at: 100,
        handoff_accepted: true,
        handoff_binary: Some("/bin/dagq".to_owned()),
        alive,
    }
}

fn show(value: &Json) -> String {
    match value {
        Json::Null => "null".to_owned(),
        Json::Bool(b) => b.to_string(),
        Json::Int(n) => n.to_string(),
        Json::Decimal(digits) => digits.clone(),
        Json::Text(s) => format!("{s:?}"),
        Json::List(items) => format!("[{}]", items.iter().map(show).collect::<Vec<_>>().join(",")),
        Json::Object(members) => format!(
            "{{{}}}",
            members
                .iter()
                .map(|m| format!("{:?}:{}", m.key, show(&m.value)))
                .collect::<Vec<_>>()
                .join(",")
        ),
    }
}

#[test]
fn a_supervisors_arguments_start_with_its_binary() {
    let words = supervise_arguments(
        &location(),
        "/q/queue.db",
        &environment(),
        &options(),
        4,
        SupervisorMode::Launchd,
    );
    assert_eq!(
        words,
        [
            "/bin/dagq", "--db", "/q/queue.db", "supervise", "--parallel", "2", "--log-dir",
            "/q/logs", "--cmux", "/bin/cmux", "--agent", "/bin/agent", "--mode", "launchd",
        ]
    );
    let more = supervise_command(
        &location(),
        "/q/queue.db",
        &environment(),
        &UpOptions {
            max_waiting: 5,
            auto_update: true,
            plugin_dir: Some("/plugins".to_owned()),
            ..options()
        },
        4,
    );
    assert_eq!(
        more[more.len() - 5..],
        ["--plugin-dir", "/plugins", "--max-waiting", "5", "--auto-update"]
    );
    assert_eq!(
        session_command("/bin/agent", &Some("/p".to_owned()), "hello"),
        ["/bin/agent", "--plugin-dir", "/p", "--", "hello"]
    );
    assert_eq!(inbox_command("/bin/agent", &None, "hi"), ["/bin/agent", "--", "hi"]);
}

#[test]
fn an_agent_that_was_written_is_recognised() {
    let mut spec = launch_agent_spec(
        &location(),
        "/q/queue.db",
        "/repo",
        &environment(),
        &options(),
        4,
    );
    let plist = spec.xml();
    assert!(agent_runs(&plist, "/bin/dagq"));
    assert!(!agent_runs(&plist, "/bin/other"));
    spec.program_arguments[0] = "/a & b/<dagq>".to_owned();
    assert!(agent_runs(&spec.xml(), "/a & b/<dagq>"));
    assert!(spec.xml().contains("/a &amp; b/&lt;dagq&gt;"));
}

#[test]
fn escaped_text_stays_inside_and_differs_where_the_text_does() {
    let texts = ["a<b", "a&lt;b", "a&b", "\"'", "plain"];
    for text in texts {
        let out = escape(text);
        assert!(!out.contains('<') && !out.contains('>'));
    }
    for a in texts {
        for b in texts {
            assert_eq!(escape(a) == escape(b), a == b);
        }
    }
}

#[test]
fn a_session_is_opened_once() {
    assert!(matches!(recorded_workspace(&None, None), Recorded::Nothing));
    let id = Some("w1".to_owned());
    assert!(matches!(recorded_workspace(&id, None), Recorded::Listed { .. }));
    assert!(matches!(recorded_workspace(&id, Some(true)), Recorded::Open { .. }));
    assert!(matches!(recorded_workspace(&id, Some(false)), Recorded::Forget { .. }));
    let unseen = || SessionSeen {
        recorded: None,
        listed: None,
        forgotten: false,
        created: None,
        registered: false,
    };
    let open = |seen: &SessionSeen| {
        open_session(SessionRole::Inbox, &None, &None, "/q/queue.db", seen)
    };
    assert!(matches!(open(&unseen()), SessionStep::Recorded));
    let known = SessionSeen { recorded: Some(id.clone()), listed: Some(Some(true)), ..unseen() };
    match open(&known) {
        SessionStep::Reused { id } => assert_eq!(id, "w1"),
        _ => panic!("opened again"),
    }
    let fresh = SessionSeen { recorded: Some(None), listed: Some(None), ..unseen() };
    assert!(matches!(open(&fresh), SessionStep::Create));
    let inside = open_session(
        SessionRole::Inbox,
        &Some("inbox".to_owned()),
        &Some("/q/queue.db".to_owned()),
        "/q/queue.db",
        &known,
    );
    match inside {
        SessionStep::Skipped { mark } => assert_eq!(mark, id),
        _ => panic!("not skipped"),
    }
}

#[test]
fn a_session_gets_its_look_and_environment() {
    assert_eq!(session_look(SessionRole::Inbox), Some(("Amber", "tray")));
    assert_eq!(session_look(SessionRole::Planner), Some(("Blue", "map")));
    assert_eq!(session_look(SessionRole::Worker), None);
    let env = session_env(SessionRole::Planner, "/q/queue.db");
    assert!(env.contains(&("DAGQ_ROLE".to_owned(), "planner".to_owned())));
    assert!(env.contains(&("DAGQ_QUEUE".to_owned(), "/q/queue.db".to_owned())));
    let mut workspaces = QueueWorkspaces::new("/q".to_owned(), "h".to_owned(), "group".to_owned());
    match workspaces.tags(SessionRole::Inbox, "d", None) {
        TagsStep::MakeGroup { external_id, name } => {
            assert_eq!((external_id.as_str(), name.as_str()), ("h", "group"));
        }
        TagsStep::Tags(_) => panic!("no group was made"),
    }
    assert!(matches!(workspaces.group(Some(Err("no".to_owned()))), GroupStep::Known(None)));
    // Settled: cmux is not asked again, whatever it would say now.
    assert!(matches!(workspaces.group(None), GroupStep::Known(None)));
    assert!(matches!(workspaces.group(Some(Ok("g".to_owned()))), GroupStep::Known(None)));
    match workspaces.tags(SessionRole::Inbox, "d", None) {
        TagsStep::Tags(tags) => {
            assert_eq!(tags.group, None);
            assert!(tags.env.contains(&("DAGQ_SESSION_KIND".to_owned(), "inbox".to_owned())));
        }
        TagsStep::MakeGroup { .. } => panic!("asked again"),
    }
    assert_eq!(
        workspaces.take_warnings(),
        ["cmux workspace group \"group\" (external ID h) could not be made, so the workspace opens outside it: no"]
    );
    assert!(workspaces.take_warnings().is_empty());
    assert!(mark(SessionRole::Inbox, "w", &None, &None, &None).is_empty());
    assert_eq!(mark(SessionRole::Inbox, "w", &Some("no".to_owned()), &None, &None).len(), 1);
}

#[test]
fn registrations_are_dropped_kept_or_live() {
    let all = vec![
        registration("dead", 1, "1", false),
        registration("silent", 2, "1", true),
        registration("live", 3, "2", true),
    ];
    let mut all = all;
    all[1].heartbeat_at = 0;
    let sorted = sort_out(&all, 120, 60);
    assert_eq!(sorted.dead, [0]);
    assert_eq!(sorted.live, [2]);
    assert!(sorted.existing.contains(&1) && sorted.existing.contains(&2));
    assert!(fresh(&all[2], 120, 60) && !fresh(&all[1], 120, 60));
    let live = vec![registration("a", 3, "2", true), registration("b", 4, "1", true)];
    assert_eq!(outdated(&live, "2"), Some(1));
    assert_eq!(outdated(&live[..1].iter().map(|r| r.copy()).collect(), "2"), None);
    assert!(labelled(&live[0]).contains('3'));
}

#[test]
fn a_handoff_is_done_once_the_new_build_took_over() {
    let request = Request {
        binary: "/bin/dagq".to_owned(),
        version: "2".to_owned(),
        heartbeat_timeout: 60,
    };
    let pending = vec![registration("a", 3, "1", true)];
    let step = |all: &Vec<SupervisorRegistration>, overdue| {
        wait_for_handoff(all, &pending, Vec::new(), &request, 120, overdue, 60)
    };
    assert!(matches!(step(&pending, false), HandoffStep::Wait { .. }));
    match step(&pending, true) {
        HandoffStep::Failed(why) => assert_eq!(why, handoff_overdue(&pending, &request, 60)),
        _ => panic!("not overdue"),
    }
    assert!(matches!(step(&Vec::new(), false), HandoffStep::Failed(_)));
    let mut over = registration("a", 3, "2", true);
    over.handoff_binary = None;
    match step(&vec![over], false) {
        HandoffStep::Finished(done) => assert_eq!(done.len(), 1),
        _ => panic!("not finished"),
    }
    assert!(!handoff_refused(&pending[0]).is_empty());
    let mut old = registration("b", 4, "1", true);
    old.handoff_accepted = false;
    assert!(!takes_handoff(&vec![old], "/bin/dagq", &None));
}

#[test]
fn a_supervisor_gets_one_signal() {
    let idle = AgentState { loaded: false, pid: None };
    let own = registration("a", 3, "1", true);
    assert!(stop_signal(&own, idle) != Signal::Nothing);
    let loaded = AgentState { loaded: true, pid: Some(3) };
    assert!(stop_signal(&own, loaded) == Signal::Nothing);
}

#[test]
fn down_drains_unless_it_is_forced() {
    let all = vec![registration("a", 3, "1", true), registration("gone", 4, "1", false)];
    let agent = AgentState { loaded: false, pid: None };
    let plain = down(&all, agent, DownOptions { wait: false, force: false });
    assert!(plain.outcome == DownOutcome::Draining && plain.stop == Stop::Pending);
    assert!(!plain.actions.iter().any(|a| matches!(a, DownAction::Kill(_))));
    let waited = down(&all, agent, DownOptions { wait: true, force: false });
    assert!(waited.outcome == DownOutcome::Stopped && waited.stop == Stop::SeenThrough);
    let forced = down(&all, agent, DownOptions { wait: false, force: true });
    assert!(forced.outcome == DownOutcome::Killed);
    assert!(forced.actions.iter().any(|a| matches!(a, DownAction::Kill(3))));
    let nobody = down(&Vec::new(), agent, DownOptions { wait: false, force: false });
    assert!(nobody.outcome == DownOutcome::NotRunning);
    assert_eq!(pruned(&all).len(), 1);
    assert_eq!(remaining(&all, &Vec::new()).len(), 0);
    let report = down_report(&all, agent, DownOptions { wait: false, force: false }, Vec::new());
    assert!(show(&report).contains("draining"));
}

#[test]
fn a_supervisors_workspace_is_closed_only_once_it_is_seen_through() {
    let mut one = registration("a", 3, "1", true);
    one.workspace_id = Some("w".to_owned());
    one.mode = Some(SupervisorMode::InCmux);
    let all = vec![one];
    assert!(matches!(
        close_supervisor_workspaces(&all, Stop::Pending)[0],
        Closing::LeftOpen { .. }
    ));
    assert!(matches!(
        close_supervisor_workspaces(&all, Stop::SeenThrough)[0],
        Closing::Close { .. }
    ));
    assert!(show(&closing_report("w", &Err("no".to_owned()))).contains("no"));
}

fn not_replaced() -> replace::Seen {
    replace::Seen {
        in_flight: None,
        recorded: None,
        detached_proven: false,
        agent: None,
        signalled: false,
        registered: None,
        overdue: false,
        after: None,
        dropped: false,
        workspaces: None,
        started: None,
    }
}

#[test]
fn supervisors_are_replaced_after_they_drained() {
    let live = vec![registration("a", 3, "1", true)];
    let mut seen = not_replaced();
    let mut steps: Vec<&str> = Vec::new();
    loop {
        match replace_supervisors(&live, "2", &options(), &seen) {
            replace::Step::ActiveRuns => {
                steps.push("runs");
                seen.in_flight = Some(Vec::new());
            }
            replace::Step::RecordedWorkspace => {
                steps.push("recorded");
                seen.recorded = Some(None);
            }
            replace::Step::ProveDetached => {
                steps.push("prove");
                seen.detached_proven = true;
            }
            replace::Step::UnloadAgent => {
                steps.push("unload");
                seen.agent = Some(AgentState { loaded: true, pid: Some(3) });
            }
            replace::Step::SignalAll => {
                steps.push("signal");
                seen.signalled = true;
            }
            replace::Step::Registrations => {
                steps.push("registrations");
                seen.registered = Some(if steps.contains(&"wait") {
                    Vec::new()
                } else {
                    live.iter().map(|r| r.copy()).collect()
                });
            }
            replace::Step::Wait => {
                steps.push("wait");
                seen.registered = None;
            }
            replace::Step::RegistrationsAfter => {
                steps.push("after");
                seen.after = Some(Vec::new());
            }
            replace::Step::Drop { .. } => {
                steps.push("drop");
                seen.dropped = true;
            }
            replace::Step::CloseWorkspaces => {
                steps.push("close");
                seen.workspaces = Some(Vec::new());
            }
            replace::Step::Start => {
                steps.push("start");
                seen.started = Some(Json::Null);
            }
            replace::Step::Refused(why) => panic!("{why}"),
            replace::Step::Restarted(_) => break,
        }
    }
    let at = |what: &str| steps.iter().position(|s| *s == what).unwrap();
    assert!(at("unload") < at("signal") && at("signal") < at("start"));
    assert!(at("wait") < at("start"));
    let busy = replace::Seen { in_flight: Some(vec!["r1".to_owned()]), ..not_replaced() };
    let step = replace_supervisors(&live, "2", &UpOptions { no_wait: true, ..options() }, &busy);
    assert!(matches!(step, replace::Step::Refused(_)));
    assert!(ensure_supervisor_workspace_free(&live, &None).is_none());
}

fn start_inputs(in_cmux: bool) -> StartInputs {
    StartInputs {
        in_cmux,
        existing: vec!["old".to_owned()],
        heartbeat_timeout: 60,
        startup_timeout: 30,
        version: "2".to_owned(),
        name: "supervisor".to_owned(),
        plist: "/p".to_owned(),
        log: "/l".to_owned(),
        log_dir: "/q/logs".to_owned(),
    }
}

#[test]
fn a_started_supervisor_is_a_new_one() {
    let all = vec![registration("old", 1, "1", true), registration("new", 2, "2", true)];
    assert_eq!(wait_for_registration(&all, &vec!["old".to_owned()], 120, 60), Some(1));
    assert_eq!(
        wait_for_registration(&all, &vec!["old".to_owned(), "new".to_owned()], 120, 60),
        None
    );
    let seen = StartSeen {
        recorded: Some(None),
        detached_proven: true,
        installed: true,
        created: None,
        recorded_created: false,
        registered: Some(vec![registration("old", 1, "1", true)]),
        now: 120,
        overdue: true,
        mode_set: false,
    };
    assert!(matches!(start_supervisor(&start_inputs(false), &seen), StartStep::Refused(_)));
    let waiting = StartSeen { overdue: false, ..seen };
    assert!(matches!(start_supervisor(&start_inputs(false), &waiting), StartStep::Wait));
}

#[test]
fn the_hint_names_the_agent_and_its_config() {
    let hint = untrusted_repository_hint(&agent(), "/repo", &None);
    assert!(hint.starts_with("The Agent has not trusted the repository /repo, so every run session"));
    assert!(hint.contains("Start `agent` once in /repo and accept \"Yes, I trust this folder\""));
    assert!(hint.ends_with(
        "~/.agent.json must then record projects[\"/repo\"].hasTrustDialogAccepted = true"
    ));
    let linked = RepositoryPaths { root: "/w".to_owned(), common_dir: "/repo/.git".to_owned() };
    assert_eq!(trust_root(&linked), "/repo");
    let bare = RepositoryPaths { root: "/w".to_owned(), common_dir: "/repo.git".to_owned() };
    assert_eq!(trust_root(&bare), "/w");
}

#[test]
fn open_work_is_told_by_what_it_waits_for() {
    let report = open_work(
        &vec![OpenRun {
            run_id: "r1".to_owned(),
            task_id: 7,
            status: RunStatus::Running,
            lease: Some(LeaseLook { alive: false, age: 0 }),
        }],
        &vec![WaitingRun { run_id: "r2".to_owned(), task_id: 8, last_error: None }],
        &Vec::new(),
        60,
    );
    let text = show(&report);
    assert!(text.contains("r1") && text.contains("r2"));
}

fn inputs() -> Inputs {
    Inputs {
        location: location(),
        environment: environment(),
        options: options(),
        version: "2".to_owned(),
        heartbeat_timeout: 60,
    }
}

fn not_up() -> Seen {
    Seen {
        db: None,
        repository: None,
        cmux_ready: false,
        claude_ready: false,
        trusted: None,
        programs: None,
        plugin_dir: None,
        registrations: None,
        now: 120,
        pruned: false,
        plist: None,
        supervisor: None,
        auto_updated: false,
        retired: false,
        inbox: false,
    }
}

/// Bring a queue up over these registrations; the steps, in order.
fn bring_up(inputs: &Inputs, all: &[SupervisorRegistration]) -> Vec<&'static str> {
    let mut seen = not_up();
    let mut steps: Vec<&'static str> = Vec::new();
    loop {
        match up::up(inputs, &seen) {
            Step::ResolveDb => seen.db = Some("/q/queue.db".to_owned()),
            Step::InspectRepository => {
                seen.repository = Some(RepositoryPaths {
                    root: "/repo".to_owned(),
                    common_dir: "/repo/.git".to_owned(),
                });
            }
            Step::PreflightCmux => {
                steps.push("cmux");
                seen.cmux_ready = true;
            }
            Step::PreflightClaude => {
                steps.push("agent");
                seen.claude_ready = true;
            }
            Step::Trusted { .. } => {
                steps.push("trust");
                seen.trusted = Some(true);
            }
            Step::Programs { .. } => {
                steps.push("programs");
                seen.programs = Some(None);
            }
            Step::ResolvePlugin { dir } => seen.plugin_dir = Some(dir),
            Step::Registrations => {
                seen.registrations = Some(all.iter().map(|r| r.copy()).collect());
            }
            Step::Prune { .. } => {
                steps.push("prune");
                seen.pruned = true;
            }
            Step::ReadAgent => seen.plist = Some(None),
            Step::HandOff { .. } => {
                steps.push("hand off");
                seen.supervisor = Some(Json::Null);
            }
            Step::Replace { .. } => {
                steps.push("replace");
                seen.supervisor = Some(Json::Null);
            }
            Step::Start { .. } => {
                steps.push("start");
                seen.supervisor = Some(Json::Null);
            }
            Step::SetAutoUpdate { .. } => seen.auto_updated = true,
            Step::ForgetRetired => seen.retired = true,
            Step::OpenInbox => {
                steps.push("inbox");
                seen.inbox = true;
            }
            Step::Refused(why) => panic!("{why}"),
            Step::Ready { .. } => return steps,
        }
    }
}

#[test]
fn up_starts_only_what_is_missing() {
    let first = bring_up(&inputs(), &[]);
    assert!(first.contains(&"start") && first.contains(&"inbox"));
    let at = |what: &str| first.iter().position(|s| *s == what).unwrap();
    assert!(at("cmux") < at("start") && at("agent") < at("start") && at("programs") < at("start"));
    let again = bring_up(&inputs(), &[registration("a", 3, "2", true)]);
    assert!(!again.contains(&"start") && !again.contains(&"replace"));
    let dead = bring_up(&inputs(), &[registration("a", 3, "2", false)]);
    assert!(dead.contains(&"prune") && dead.contains(&"start"));
    let other = bring_up(&inputs(), &[registration("a", 3, "1", true)]);
    assert!(other.contains(&"hand off") || other.contains(&"replace"));
}

#[test]
fn up_refuses_what_it_cannot_serve() {
    let refused = |inputs: &Inputs, seen: &Seen| match up::up(inputs, seen) {
        Step::Refused(why) => why,
        _ => panic!("not refused"),
    };
    let none = Inputs { options: UpOptions { parallel: 0, ..options() }, ..inputs() };
    assert_eq!(refused(&none, &not_up()), "parallel must be at least 1");
    let looked = || Seen {
        db: Some("/q/queue.db".to_owned()),
        repository: Some(RepositoryPaths {
            root: "/repo".to_owned(),
            common_dir: "/repo/.git".to_owned(),
        }),
        cmux_ready: true,
        claude_ready: true,
        ..not_up()
    };
    let untrusted = Seen { trusted: Some(false), ..looked() };
    assert!(refused(&inputs(), &untrusted).contains("has not trusted the repository"));
    let missing = Seen {
        trusted: Some(true),
        programs: Some(Some("no cargo".to_owned())),
        ..looked()
    };
    assert_eq!(refused(&inputs(), &missing), "no cargo; the supervisor was not started");
}

#[test]
fn reports_name_the_supervisors() {
    let live = vec![registration("a", 3, "1", true)];
    let report = hand_off_supervisors(&inputs(), &live, Vec::new());
    assert!(show(&report).contains("\"a\""));
    assert!(set_auto_update(&Json::Null, &live).len() <= 1);
    let whole = up_report(
        report,
        Json::Null,
        Json::Null,
        Vec::new(),
        &vec!["careful".to_owned()],
        Json::Null,
        None,
    );
    assert!(show(&whole).contains("careful"));
}
