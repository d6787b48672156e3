//! The session's `/exit`, and a session that holds it back: a silent wrapper
//! and the `stuck_exit` ask.

use crate::domain::{
    AskKind, AskReason, Failing, NewAsk, ReasonCode, RunEvent, RunProcess, RunStatus, TaskRun,
};
use crate::integrate::receipt::Checked;
use crate::json;
use crate::json::{Fields, Json};
use crate::path;
use crate::supervise::clock::{passed, secs, since, whole_secs, Timeouts};
use crate::supervise::recovery::RecoveryAlert;
use crate::supervise::slot::{AfterExit, SessionRef};
use crate::supervise::tick::{is_dead, wrapper_dead};
use crate::text;
use vstd::prelude::*;
use vstd::string::*;

verus! {

/// What a `stuck_exit` ask says first when the `/exit` never got there.
pub open spec fn exit_unsent() -> Seq<char> {
    "The supervisor's /exit timed out in cmux on every attempt and its screen showed each time that it had not reached the session (exit_unsent), so the session was not asked to exit and the run cannot land without it"@
}

/// What a `stuck_exit` ask says first when the `/exit` was sent because the
/// wrapper went silent.
pub open spec fn silent_wrapper_exit() -> Seq<char> {
    "Its wrapper stopped heartbeating while its process lived on (wrapper_heartbeat_expired), so the supervisor sent the /exit"@
}

/// What follows, led by why the `/exit` was sent where it was for a silence.
pub open spec fn led(silent: bool, after: Seq<char>) -> Seq<char> {
    if silent {
        silent_wrapper_exit() + ". "@ + after
    } else {
        after
    }
}

/// The sentence of a `stuck_exit` ask, led by the silence where the `/exit`
/// was sent because the wrapper went silent.
pub fn stuck_exit_after(silent: bool, after: &str) -> (r: String)
    ensures
        r@ == led(silent, after@),
{
    if silent {
        "Its wrapper stopped heartbeating while its process lived on (wrapper_heartbeat_expired), so the supervisor sent the /exit".to_owned().concat(
            ". ",
        ).concat(after)
    } else {
        after.to_owned()
    }
}

/// The answer the runtime writes into an open `stuck_exit` ask it closes.
pub fn stuck_exit_closed() -> (r: &'static str)
    ensures
        r@ == "the session exited; closed by the runtime"@,
{
    "the session exited; closed by the runtime"
}

/// How a registered wrapper that has not recorded its exit stands.
#[derive(Debug, Clone, Copy, PartialEq, Eq, Structural)]
pub enum WrapperPulse {
    Fresh,
    /// The heartbeat expired while the wrapper's process is alive: the session
    /// is asked to exit the way a finished one is.
    Silent,
    /// The wrapper recorded its exit after this poll read its row.
    Exited,
}

/// What has been done and observed of a wrapper's pulse.
#[derive(Debug, Clone, Copy, PartialEq, Eq, Structural, Default)]
pub struct PulseSeen {
    /// Its process is there.
    pub alive: Option<bool>,
    /// Its row, read again, has its exit.
    pub exited: Option<bool>,
    pub asks_closed: bool,
    pub recorded: bool,
}

/// What taking a wrapper's pulse does next.
pub enum PulseStep {
    Alive { pid: u32 },
    ReadExit { pid: u32 },
    /// Close the run's open `stuck_exit` asks with this answer.
    CloseStuckExitAsks { answer: &'static str },
    Record { kind: &'static str, payload: Json },
    /// The wrapper is gone; nothing is left to ask to exit.
    Failed(String),
    Pulse(WrapperPulse),
}

/// What taking a wrapper's pulse comes to.
pub open spec fn beats(
    wrapper: RunProcess,
    workspace: Seq<char>,
    noted: bool,
    message: Seq<char>,
    now: int,
    timeout: int,
    seen: PulseSeen,
    r: PulseStep,
) -> bool {
    let age = now - wrapper.heartbeat_at;
    if age <= timeout {
        r == PulseStep::Pulse(WrapperPulse::Fresh)
    } else if seen.alive is None {
        r == (PulseStep::Alive { pid: wrapper.pid })
    } else if !seen.alive->0 {
        if seen.exited is None {
            r == (PulseStep::ReadExit { pid: wrapper.pid })
        } else if seen.exited->0 {
            r == PulseStep::Pulse(WrapperPulse::Exited)
        } else if noted && !seen.asks_closed {
            r matches PulseStep::CloseStuckExitAsks { answer } && answer@
                == "the session exited; closed by the runtime"@
        } else {
            r matches PulseStep::Failed(why) && why@ == message
        }
    } else if !noted && !seen.recorded {
        r matches PulseStep::Record { kind, payload } && kind@ == "wrapper_heartbeat_expired"@
            && payload@ == json::Value::Object(
            json::none().push(
                ("code"@, json::Value::Text(ReasonCode::HeartbeatLost.name())),
            ).push(("pid"@, json::Value::Int(wrapper.pid as int))).push(
                ("heartbeat_age_secs"@, json::Value::Int(age)),
            ).push(("workspace_id"@, json::Value::Text(workspace))),
        )
    } else {
        r == PulseStep::Pulse(WrapperPulse::Silent)
    }
}

/// How a wrapper stands: fresh by its heartbeat; silent where that expired
/// while the process is there, recorded once per silence (`noted`); where the
/// process is gone the row is read again, so that a wrapper that recorded its
/// exit just before it died is no error.
pub fn wrapper_pulse(
    wrapper: &RunProcess,
    workspace: &str,
    noted: bool,
    message: &str,
    now: i64,
    timeout: i64,
    seen: PulseSeen,
) -> (r: PulseStep)
    ensures
        beats(*wrapper, workspace@, noted, message@, now as int, timeout as int, seen, r),
{
    let age: i128 = now as i128 - wrapper.heartbeat_at as i128;
    if age <= timeout as i128 {
        return PulseStep::Pulse(WrapperPulse::Fresh);
    }
    let alive = match seen.alive {
        None => return PulseStep::Alive { pid: wrapper.pid },
        Some(alive) => alive,
    };
    if !alive {
        match seen.exited {
            None => return PulseStep::ReadExit { pid: wrapper.pid },
            Some(exited) => if exited {
                return PulseStep::Pulse(WrapperPulse::Exited);
            },
        }
        if noted && !seen.asks_closed {
            return PulseStep::CloseStuckExitAsks { answer: stuck_exit_closed() };
        }
        return PulseStep::Failed(message.to_owned());
    }
    if !noted && !seen.recorded {
        let payload = Fields::new().text("code", ReasonCode::HeartbeatLost.as_str()).number(
            "pid",
            wrapper.pid as i128,
        ).number("heartbeat_age_secs", age).text("workspace_id", workspace).done();
        return PulseStep::Record { kind: "wrapper_heartbeat_expired", payload };
    }
    PulseStep::Pulse(WrapperPulse::Silent)
}

/// Watches the `/exit` of a run's session: asked once, unless the session
/// ended already, and waited for.
pub struct ExitWatch {
    pub session: Option<SessionRef>,
    /// When the watch began, for the wait on background work.
    pub since: u128,
    pub requested: Option<u128>,
    pub timed_out: bool,
    /// The `stuck_exit` ask of the exit timeout is registered.
    pub exit_asked: bool,
    /// The wrapper's silence is recorded.
    pub silent: bool,
    /// The `/exit` was sent because of that silence.
    pub exit_for_silence: bool,
    /// Why a `/exit` that never reached the session could not close and land
    /// instead.
    pub unsent: Option<String>,
    pub next: AfterExit,
}

/// What follows once a session exits.
pub open spec fn next_text(next: AfterExit, status: RunStatus) -> Seq<char> {
    match next {
        AfterExit::Land => "lands on main"@,
        AfterExit::Ask { .. } => "opens an approve_landing ask for the person"@,
        AfterExit::ReviewFailed { .. } => "opens an approve_landing ask for the person about its failed review"@,
        AfterExit::Rest { close } => if !close {
            "is left to the person"@
        } else if status == RunStatus::AwaitingIntegration {
            "waits for the answer to its approve_landing ask"@
        } else {
            "is resumed in a session of its own"@
        },
    }
}

/// Where the run stands while its session holds the `/exit` back.
pub open spec fn stands(next: AfterExit, silence: bool, status: RunStatus) -> Seq<char> {
    led(
        silence,
        "The run stays "@ + status.name()
            + " under the supervisor after its validation and review, and "@ + next_text(
            next,
            status,
        ) + " once the session exits"@,
    )
}

impl ExitWatch {
    /// A watch that begins now.
    pub fn new(session: Option<SessionRef>, next: AfterExit, now: u128) -> (r: ExitWatch)
        ensures
            r == (ExitWatch {
                session,
                since: now,
                requested: None,
                timed_out: false,
                exit_asked: false,
                silent: false,
                exit_for_silence: false,
                unsent: None,
                next,
            }),
    {
        ExitWatch {
            session,
            since: now,
            requested: None,
            timed_out: false,
            exit_asked: false,
            silent: false,
            exit_for_silence: false,
            unsent: None,
            next,
        }
    }

    /// Where the run stands while its session holds the `/exit` back, and what
    /// follows once it exits.
    pub fn after(&self, run: &TaskRun) -> (r: String)
        ensures
            r@ == stands(self.next, self.exit_for_silence, run.status),
    {
        let next = match &self.next {
            AfterExit::Land => "lands on main",
            AfterExit::Ask { .. } => "opens an approve_landing ask for the person",
            AfterExit::ReviewFailed { .. } => {
                "opens an approve_landing ask for the person about its failed review"
            },
            AfterExit::Rest { close } => if !*close {
                "is left to the person"
            } else if run.status == RunStatus::AwaitingIntegration {
                "waits for the answer to its approve_landing ask"
            } else {
                "is resumed in a session of its own"
            },
        };
        let said = "The run stays ".to_owned().concat(run.status.as_str()).concat(
            " under the supervisor after its validation and review, and ",
        ).concat(next).concat(" once the session exits");
        stuck_exit_after(self.exit_for_silence, said.as_str())
    }

    /// The `/exit` was sent now; a later timeout runs from here.
    pub fn sent(&mut self, now: u128, silent: bool)
        ensures
            *final(self) == (ExitWatch {
                requested: Some(now),
                exit_for_silence: silent,
                ..*old(self)
            }),
    {
        self.requested = Some(now);
        self.exit_for_silence = silent;
    }

    /// The session gets the exit timeout again.
    pub fn restarted(&mut self, now: u128)
        ensures
            *final(self) == (ExitWatch { requested: Some(now), timed_out: false, ..*old(self) }),
    {
        self.requested = Some(now);
        self.timed_out = false;
    }
}

/// The first wrapper at or after `from`.
pub open spec fn wrapper_from(processes: Seq<RunProcess>, from: int) -> Option<int>
    decreases processes.len() - from,
{
    if from < 0 || from >= processes.len() {
        None
    } else if processes[from].is_wrapper() {
        Some(from)
    } else {
        wrapper_from(processes, from + 1)
    }
}

/// The first wrapper among the processes.
pub fn wrapper_of(processes: &Vec<RunProcess>) -> (r: Option<usize>)
    ensures
        match r {
            Some(i) => wrapper_from(processes@, 0) == Some(i as int) && i < processes@.len(),
            None => wrapper_from(processes@, 0) is None,
        },
{
    let mut i: usize = 0;
    while i < processes.len()
        invariant
            i <= processes@.len(),
            wrapper_from(processes@, 0) == wrapper_from(processes@, i as int),
        decreases processes@.len() - i,
    {
        if text::same(processes[i].role.as_str(), "wrapper") {
            return Some(i);
        }
        i += 1;
    }
    None
}

/// How sending text to a session ended.
#[derive(Debug, Clone, Copy, PartialEq, Eq, Structural)]
pub enum Submission {
    /// It reached the session, or may have.
    Sent,
    /// It timed out on every attempt without reaching the session.
    Unsent,
}

/// What has been done and observed in a poll of the `/exit`.
#[derive(Default)]
pub struct ExitSeen {
    pub processes: Option<Vec<RunProcess>>,
    /// The wrapper's process is there.
    pub alive: Option<bool>,
    /// The final screen, or why it could not be read.
    pub screen: Option<Result<String, String>>,
    pub screen_kept: bool,
    /// Its recovery job is stopped, what asked about its dialogs is closed, and
    /// its `stuck_exit` asks are.
    pub job_stopped: bool,
    pub prompts_closed: bool,
    pub asks_closed: bool,
    pub pulse: Option<WrapperPulse>,
    /// Background work makes the `/exit` wait.
    pub background: Option<bool>,
    pub idle_watched: bool,
    /// The job about idle processes is stopped.
    pub idle_stopped: bool,
    pub exit_recorded: bool,
    pub sent: Option<Submission>,
    /// A dialog that holds the `/exit` back was answered by rule.
    pub dialog: Option<bool>,
}

/// What a poll of the `/exit` does next, or what it came to.
pub enum ExitStep {
    /// The session is gone, or there was none.
    Gone,
    Wait,
    Failed(String),
    Processes,
    Alive { pid: u32 },
    Capture { workspace: String },
    WriteScreen { file: String },
    Record { kind: &'static str, payload: Json },
    /// Record it with the reason of the error, of this code where the error
    /// has none of its own.
    RecordFailure { kind: &'static str, payload: Json, fallback: ReasonCode },
    /// Stop the job of this alert (of any where there is none), with this
    /// outcome.
    StopJob { alert: Option<RecoveryAlert>, outcome: &'static str },
    /// Close what asked about the session's dialogs: it exited.
    ClosePrompts,
    /// Close the run's open `stuck_exit` asks with this answer.
    CloseStuckExit { answer: &'static str },
    Pulse,
    Background,
    WatchIdle,
    SendExit { workspace: String },
    /// The `/exit` never reached the session.
    Unsent,
    AnswerDialog { workspace: String },
    /// The session gets the exit timeout again.
    RestartExit,
    /// The exit timed out: record it and mark it.
    TimedOut { payload: Json },
    Recover,
}

/// Whether a session has no wrapper left that could exit: none is registered,
/// or it exited, or it died without recording it.
pub open spec fn is_gone(seen: ExitSeen, now: int, timeout: int) -> bool {
    let processes = seen.processes->0@;
    match wrapper_from(processes, 0) {
        None => true,
        Some(i) => processes[i].exited_at is Some || (seen.alive is Some && is_dead(
            processes[i],
            seen.alive->0,
            now,
            timeout,
        )),
    }
}

/// Whether the process of a silent wrapper still has to be looked at.
pub open spec fn needs_alive(seen: ExitSeen, now: int, timeout: int) -> bool {
    let processes = seen.processes->0@;
    match wrapper_from(processes, 0) {
        None => false,
        Some(i) => processes[i].exited_at is None && now - processes[i].heartbeat_at > timeout
            && seen.alive is None,
    }
}

/// The name of the file the final screen is kept in.
pub open spec fn screen_file(run_dir: Seq<char>, resume: Option<usize>) -> Seq<char> {
    path::under(
        run_dir,
        match resume {
            Some(attempt) => "terminal-resume-"@ + text::decimal(attempt as nat) + ".txt"@,
            None => "terminal-final.txt"@,
        },
    )
}

/// What the end of a session comes to.
pub open spec fn goes(
    watch: ExitWatch,
    session: SessionRef,
    run: TaskRun,
    seen: ExitSeen,
    r: ExitStep,
) -> bool {
    if watch.requested is Some && run.run_dir is None {
        r matches ExitStep::Failed(why) && why@ == "missing run directory"@
    } else if watch.requested is Some && seen.screen is None {
        r == (ExitStep::Capture { workspace: session.workspace })
    } else if watch.requested is Some && !seen.screen_kept {
        match seen.screen->0 {
            Ok(_) => r matches ExitStep::WriteScreen { file } && file@ == screen_file(
                run.run_dir->0@,
                session.resume,
            ),
            Err(error) => r matches ExitStep::RecordFailure { kind, payload, fallback } && kind@
                == "screen_capture_failed"@ && payload@ == json::Value::Object(
                json::none().push(("error"@, json::Value::Text(error@))),
            ) && fallback == Failing::Screen.code(),
        }
    } else if !seen.job_stopped {
        r matches ExitStep::StopJob { alert, outcome } && alert is None && outcome@
            == "session_ended"@
    } else if !seen.prompts_closed {
        r is ClosePrompts
    } else if !seen.asks_closed {
        r matches ExitStep::CloseStuckExit { answer } && answer@
            == "the session exited; closed by the runtime"@
    } else {
        r is Gone
    }
}

/// What the `/exit` of a live session comes to at the end of a poll.
pub open spec fn held(watch: ExitWatch, r: ExitStep) -> bool {
    if watch.timed_out && !watch.exit_asked {
        r is Recover
    } else {
        r is Wait
    }
}

/// What the `/exit` of a live session comes to.
pub open spec fn asks_to_exit(
    watch: ExitWatch,
    session: SessionRef,
    timeouts: Timeouts,
    at: u128,
    seen: ExitSeen,
    r: ExitStep,
) -> bool {
    if seen.sent is Some {
        if seen.sent->0 == Submission::Unsent {
            r is Unsent
        } else {
            held(watch, r)
        }
    } else if watch.requested is None {
        let waiting = passed(watch.since, at) < timeouts.resume;
        if waiting && seen.background is None {
            r is Background
        } else if waiting && seen.background->0 {
            if !seen.idle_watched {
                r is WatchIdle
            } else {
                held(watch, r)
            }
        } else if !seen.idle_stopped {
            r matches ExitStep::StopJob { alert, outcome } && alert == Some(
                RecoveryAlert::IdleProcess,
            ) && outcome@ == "exit_requested"@
        } else if !seen.exit_recorded {
            r matches ExitStep::Record { kind, payload } && kind@ == "exit_requested"@ && payload@
                == json::Value::Object(
                json::none().push(("workspace_id"@, json::Value::Text(session.workspace@))).push(
                    ("timeout_secs"@, json::Value::Int(whole_secs(timeouts.exit))),
                ),
            )
        } else {
            r == (ExitStep::SendExit { workspace: session.workspace })
        }
    } else if !watch.timed_out && passed(watch.requested->0, at) >= timeouts.exit {
        match seen.dialog {
            None => r == (ExitStep::AnswerDialog { workspace: session.workspace }),
            Some(true) => r is RestartExit,
            Some(false) => r matches ExitStep::TimedOut { payload } && payload@
                == json::Value::Object(
                json::none().push(
                    ("code"@, json::Value::Text(ReasonCode::ExitTimeout.name())),
                ).push(("workspace_id"@, json::Value::Text(session.workspace@))).push(
                    ("timeout_secs"@, json::Value::Int(whole_secs(timeouts.exit))),
                ),
            ),
        }
    } else {
        held(watch, r)
    }
}

/// What a poll of the `/exit` comes to.
pub open spec fn exit_polls(
    watch: ExitWatch,
    run: TaskRun,
    timeouts: Timeouts,
    heartbeat_timeout: int,
    now: int,
    at: u128,
    seen: ExitSeen,
    r: ExitStep,
) -> bool {
    match watch.session {
        None => r is Gone,
        Some(session) => if seen.processes is None {
            r is Processes
        } else if needs_alive(seen, now, heartbeat_timeout) {
            r == (ExitStep::Alive {
                pid: seen.processes->0@[wrapper_from(seen.processes->0@, 0)->0].pid,
            })
        } else if is_gone(seen, now, heartbeat_timeout) {
            goes(watch, session, run, seen, r)
        } else {
            match seen.pulse {
                None => r is Pulse,
                Some(WrapperPulse::Exited) => r is Wait,
                Some(_) => asks_to_exit(watch, session, timeouts, at, seen, r),
            }
        },
    }
}

impl ExitWatch {
    /// The end of the session: its screen is kept where it was asked to exit.
    fn gone(&self, session: &SessionRef, run: &TaskRun, seen: &ExitSeen) -> (r: ExitStep)
        ensures
            goes(*self, *session, *run, *seen, r),
    {
        if self.requested.is_some() {
            let run_dir = match &run.run_dir {
                None => return ExitStep::Failed("missing run directory".to_owned()),
                Some(run_dir) => run_dir,
            };
            let screen = match &seen.screen {
                None => return ExitStep::Capture { workspace: session.workspace.clone() },
                Some(screen) => screen,
            };
            if !seen.screen_kept {
                return match screen {
                    Ok(_) => {
                        let name = match session.resume {
                            Some(attempt) => {
                                let n = text::number(attempt as u64);
                                "terminal-resume-".to_owned().concat(n.as_str()).concat(".txt")
                            },
                            None => "terminal-final.txt".to_owned(),
                        };
                        ExitStep::WriteScreen {
                            file: path::join_path(run_dir.as_str(), name.as_str()),
                        }
                    },
                    Err(error) => ExitStep::RecordFailure {
                        kind: "screen_capture_failed",
                        payload: Fields::new().text("error", error.as_str()).done(),
                        fallback: Failing::Screen.fallback(),
                    },
                };
            }
        }
        if !seen.job_stopped {
            return ExitStep::StopJob { alert: None, outcome: "session_ended" };
        }
        if !seen.prompts_closed {
            return ExitStep::ClosePrompts;
        }
        if !seen.asks_closed {
            return ExitStep::CloseStuckExit { answer: stuck_exit_closed() };
        }
        ExitStep::Gone
    }

    /// The end of a poll of a live session.
    fn hold(&self) -> (r: ExitStep)
        ensures
            held(*self, r),
    {
        if self.timed_out && !self.exit_asked {
            ExitStep::Recover
        } else {
            ExitStep::Wait
        }
    }

    /// Ask a live session to exit, once.
    fn ask_to_exit(
        &self,
        session: &SessionRef,
        timeouts: &Timeouts,
        at: u128,
        seen: &ExitSeen,
    ) -> (r: ExitStep)
        ensures
            asks_to_exit(*self, *session, *timeouts, at, *seen, r),
    {
        if let Some(sent) = seen.sent {
            return if sent == Submission::Unsent {
                ExitStep::Unsent
            } else {
                self.hold()
            };
        }
        let requested = match self.requested {
            None => {
                if since(self.since, at) < timeouts.resume {
                    match seen.background {
                        None => return ExitStep::Background,
                        Some(waits) => if waits {
                            return if !seen.idle_watched {
                                ExitStep::WatchIdle
                            } else {
                                self.hold()
                            };
                        },
                    }
                }
                if !seen.idle_stopped {
                    return ExitStep::StopJob {
                        alert: Some(RecoveryAlert::IdleProcess),
                        outcome: "exit_requested",
                    };
                }
                if !seen.exit_recorded {
                    let payload = Fields::new().text(
                        "workspace_id",
                        session.workspace.as_str(),
                    ).number("timeout_secs", secs(timeouts.exit) as i128).done();
                    return ExitStep::Record { kind: "exit_requested", payload };
                }
                return ExitStep::SendExit { workspace: session.workspace.clone() };
            },
            Some(requested) => requested,
        };
        if !self.timed_out && since(requested, at) >= timeouts.exit {
            return match seen.dialog {
                None => ExitStep::AnswerDialog { workspace: session.workspace.clone() },
                Some(answered) => if answered {
                    ExitStep::RestartExit
                } else {
                    let payload = Fields::new().text(
                        "code",
                        ReasonCode::ExitTimeout.as_str(),
                    ).text("workspace_id", session.workspace.as_str()).number(
                        "timeout_secs",
                        secs(timeouts.exit) as i128,
                    ).done();
                    ExitStep::TimedOut { payload }
                },
            };
        }
        self.hold()
    }

    /// One poll: whether the session is gone, by its exit or by its wrapper's
    /// death; a live one is asked to exit once, waits for its background work
    /// at most the resume timeout, and is put to its recovery job past the
    /// exit timeout. `now` is the queue's clock, `at` the monotonic one.
    pub fn poll(
        &self,
        run: &TaskRun,
        timeouts: &Timeouts,
        heartbeat_timeout: i64,
        now: i64,
        at: u128,
        seen: &ExitSeen,
    ) -> (r: ExitStep)
        ensures
            exit_polls(
                *self,
                *run,
                *timeouts,
                heartbeat_timeout as int,
                now as int,
                at,
                *seen,
                r,
            ),
    {
        let session = match &self.session {
            None => return ExitStep::Gone,
            Some(session) => session,
        };
        let processes = match &seen.processes {
            None => return ExitStep::Processes,
            Some(processes) => processes,
        };
        let i = match wrapper_of(processes) {
            None => return self.gone(session, run, seen),
            Some(i) => i,
        };
        let wrapper = &processes[i];
        if wrapper.exited_at.is_some() {
            return self.gone(session, run, seen);
        }
        match seen.alive {
            None => if now as i128 - wrapper.heartbeat_at as i128 > heartbeat_timeout as i128 {
                return ExitStep::Alive { pid: wrapper.pid };
            },
            Some(alive) => if wrapper_dead(wrapper, alive, now, heartbeat_timeout) {
                return self.gone(session, run, seen);
            },
        }
        match seen.pulse {
            None => ExitStep::Pulse,
            Some(pulse) => if pulse == WrapperPulse::Exited {
                ExitStep::Wait
            } else {
                self.ask_to_exit(session, timeouts, at, seen)
            },
        }
    }
}

/// A session is asked to exit at most once: `/exit` is sent only by a watch
/// that has not sent it, after the job about idle processes was stopped and
/// the request recorded.
pub proof fn exit_is_asked_once(
    watch: ExitWatch,
    run: TaskRun,
    timeouts: Timeouts,
    heartbeat_timeout: int,
    now: int,
    at: u128,
    seen: ExitSeen,
    r: ExitStep,
)
    requires
        exit_polls(watch, run, timeouts, heartbeat_timeout, now, at, seen, r),
        r is SendExit,
    ensures
        watch.requested is None,
        seen.sent is None,
        seen.idle_stopped,
        seen.exit_recorded,
{
}

/// Idle processes are followed only before the `/exit`: a poll that watches
/// them, or stops their job, is one of a session that was not asked to exit.
pub proof fn idle_processes_are_watched_before_the_exit(
    watch: ExitWatch,
    run: TaskRun,
    timeouts: Timeouts,
    heartbeat_timeout: int,
    now: int,
    at: u128,
    seen: ExitSeen,
    r: ExitStep,
)
    requires
        exit_polls(watch, run, timeouts, heartbeat_timeout, now, at, seen, r),
        r is WatchIdle || (r is StopJob && r->alert is Some),
    ensures
        watch.requested is None,
        seen.sent is None,
{
}

/// The latest of the first `n` events of the kind.
pub open spec fn latest_of(events: Seq<RunEvent>, kind: Seq<char>, n: int) -> Option<RunEvent>
    decreases n,
{
    if n <= 0 || n > events.len() {
        None
    } else if events[n - 1].is_kind(kind) {
        Some(events[n - 1])
    } else {
        latest_of(events, kind, n - 1)
    }
}

/// The place of the latest event of the kind.
pub fn find_latest(events: &Vec<RunEvent>, kind: &str) -> (r: Option<usize>)
    ensures
        match r {
            Some(i) => i < events@.len() && latest_of(events@, kind@, events@.len() as int) == Some(
                events@[i as int],
            ),
            None => latest_of(events@, kind@, events@.len() as int) is None,
        },
{
    let mut n: usize = events.len();
    while n > 0
        invariant
            n <= events@.len(),
            latest_of(events@, kind@, events@.len() as int) == latest_of(events@, kind@, n as int),
        decreases n,
    {
        if events[n - 1].of_kind(kind) {
            return Some(n - 1);
        }
        n -= 1;
    }
    None
}

/// An idle marker as the wait on background work reads it.
#[derive(Debug, Clone, Copy, PartialEq, Eq, Structural)]
pub struct IdleLook {
    pub background_running: bool,
    /// When it was written, in seconds since the epoch.
    pub modified: i64,
}

/// Whether the latest observed idle already reported this marker's work
/// running: it was waited for.
pub open spec fn waited_out(events: Seq<RunEvent>, modified: i64) -> bool {
    match latest_of(events, "session_idle_observed"@, events.len() as int) {
        Some(event) => json::at(event.payload@, "background_running"@) == json::Value::Bool(true)
            && json::int_of(json::at(event.payload@, "marker_modified"@)) == Some(modified as int),
        None => false,
    }
}

/// Whether the `/exit` waits for background work: the idle marker shows work
/// running, and it is not the marker the session's supervision waited out.
pub fn background_waits(idle: Option<IdleLook>, events: &Vec<RunEvent>) -> (r: bool)
    ensures
        r == (idle is Some && idle->0.background_running && !waited_out(
            events@,
            idle->0.modified,
        )),
{
    let idle = match idle {
        None => return false,
        Some(idle) => idle,
    };
    if !idle.background_running {
        return false;
    }
    match find_latest(events, "session_idle_observed") {
        None => true,
        Some(i) => {
            let payload = &events[i].payload;
            !(payload.is_true("background_running") && payload.is_int(
                "marker_modified",
                idle.modified,
            ))
        },
    }
}

/// How the recovery job of a live session stands.
#[derive(Debug, Clone, Copy, PartialEq, Eq, Structural)]
pub enum LiveStep {
    Pending,
    /// It failed: recovering by hand is the attention.
    Failed,
    /// What it did: it closed the workspace, or the session gets the exit
    /// timeout again.
    Repaired { closed: bool, exit_again: bool },
    /// The attempt whose verdict goes to a person.
    Escalate { attempt: usize },
}

/// What has been done and observed of a session that holds its `/exit` back.
#[derive(Default)]
pub struct RecoverSeen {
    pub followed: Option<LiveStep>,
    pub close_recorded: bool,
    pub prompts_closed: bool,
    /// The `stuck_exit` ask.
    pub ask: Option<i64>,
    pub escalation_recorded: bool,
}

/// What recovering a session that holds its `/exit` back does next.
pub enum RecoverStep {
    Failed(String),
    /// Follow its recovery job with these facts; closing the workspace is
    /// allowed where the run lands.
    Follow { lands: bool, exit_typed: bool, facts: Json },
    Wait,
    /// The ask, or the failed job, is a person's now.
    Asked,
    WorkspaceClosed,
    Record { kind: &'static str, payload: Json },
    ClosePrompts,
    /// The workspace is closed: the run goes on as if the session had exited.
    Gone,
    RestartExit,
    AskStuckExit { attempt: usize, after: String },
    RecordEscalation { attempt: usize, ask: i64 },
}

/// What a `stuck_exit` ask says of what follows.
pub open spec fn stuck_after(watch: ExitWatch, status: RunStatus) -> Seq<char> {
    let after = stands(watch.next, watch.exit_for_silence, status);
    match watch.unsent {
        Some(why) => exit_unsent() + " ("@ + why@ + "). "@ + after,
        None => after,
    }
}

/// The record of a workspace that was closed under a session: the worker's own
/// by its run, a resume's by an event.
pub open spec fn closed_payload(workspace: Seq<char>, attempt: usize) -> json::Value {
    json::Value::Object(
        json::none().push(("workspace_id"@, json::Value::Text(workspace))).push(
            ("resume_attempt"@, json::Value::Int(attempt as int)),
        ),
    )
}

/// What recovering a session that holds its `/exit` back comes to.
pub open spec fn recovers(
    watch: ExitWatch,
    session: SessionRef,
    run: TaskRun,
    timeouts: Timeouts,
    seen: RecoverSeen,
    r: RecoverStep,
) -> bool {
    let lands = watch.next is Land;
    if run.run_dir is None {
        r matches RecoverStep::Failed(why) && why@ == "missing run directory"@
    } else {
        match seen.followed {
            None => r matches RecoverStep::Follow { lands: land, exit_typed, facts } && land == lands
                && exit_typed == (watch.requested is Some && watch.unsent is None) && facts@
                == json::Value::Object(
                json::none().push(
                    ("timeout_secs"@, json::Value::Int(whole_secs(timeouts.exit))),
                ).push(("unsent"@, json::text_or_null(text::opt_view(watch.unsent)))).push(
                    (
                        "then"@,
                        json::Value::Text(
                            if lands {
                                "land"@
                            } else {
                                "rest"@
                            },
                        ),
                    ),
                ),
            ),
            Some(LiveStep::Pending) => r is Wait,
            Some(LiveStep::Failed) => r is Asked,
            Some(LiveStep::Repaired { closed, exit_again }) => if closed {
                if !seen.close_recorded {
                    match session.resume {
                        None => r is WorkspaceClosed,
                        Some(attempt) => r matches RecoverStep::Record { kind, payload } && kind@
                            == "workspace_closed"@ && payload@ == closed_payload(
                            session.workspace@,
                            attempt,
                        ),
                    }
                } else if !seen.prompts_closed {
                    r is ClosePrompts
                } else {
                    r is Gone
                }
            } else if exit_again {
                r is RestartExit
            } else {
                r is Wait
            },
            Some(LiveStep::Escalate { attempt }) => match seen.ask {
                None => r matches RecoverStep::AskStuckExit { attempt: a, after } && a == attempt
                    && after@ == stuck_after(watch, run.status),
                Some(ask) => if !seen.escalation_recorded {
                    r == (RecoverStep::RecordEscalation { attempt, ask })
                } else {
                    r is Asked
                },
            },
        }
    }
}

impl ExitWatch {
    /// The session holds its `/exit` back, or the `/exit` never reached it: its
    /// recovery job, and the `stuck_exit` ask once that escalates. A repair
    /// that closed the workspace of a run that lands goes on as if the session
    /// had exited; another gives the session the exit timeout again.
    pub fn recover(
        &self,
        session: &SessionRef,
        run: &TaskRun,
        timeouts: &Timeouts,
        seen: &RecoverSeen,
    ) -> (r: RecoverStep)
        ensures
            recovers(*self, *session, *run, *timeouts, *seen, r),
    {
        if run.run_dir.is_none() {
            return RecoverStep::Failed("missing run directory".to_owned());
        }
        let lands = match &self.next {
            AfterExit::Land => true,
            _ => false,
        };
        let followed = match seen.followed {
            None => {
                let what = if lands {
                    "land"
                } else {
                    "rest"
                };
                let facts = Fields::new().number(
                    "timeout_secs",
                    secs(timeouts.exit) as i128,
                ).opt_text("unsent", &self.unsent).text("then", what).done();
                return RecoverStep::Follow {
                    lands,
                    exit_typed: self.requested.is_some() && self.unsent.is_none(),
                    facts,
                };
            },
            Some(followed) => followed,
        };
        match followed {
            LiveStep::Pending => RecoverStep::Wait,
            LiveStep::Failed => RecoverStep::Asked,
            LiveStep::Repaired { closed, exit_again } => if closed {
                if !seen.close_recorded {
                    return close_record(session);
                }
                if !seen.prompts_closed {
                    return RecoverStep::ClosePrompts;
                }
                RecoverStep::Gone
            } else if exit_again {
                RecoverStep::RestartExit
            } else {
                RecoverStep::Wait
            },
            LiveStep::Escalate { attempt } => match seen.ask {
                None => {
                    let after = self.after(run);
                    let after = match &self.unsent {
                        Some(why) => "The supervisor's /exit timed out in cmux on every attempt and its screen showed each time that it had not reached the session (exit_unsent), so the session was not asked to exit and the run cannot land without it".to_owned().concat(
                            " (",
                        ).concat(why.as_str()).concat("). ").concat(after.as_str()),
                        None => after,
                    };
                    RecoverStep::AskStuckExit { attempt, after }
                },
                Some(ask) => if !seen.escalation_recorded {
                    RecoverStep::RecordEscalation { attempt, ask }
                } else {
                    RecoverStep::Asked
                },
            },
        }
    }
}

/// How a workspace that was closed under a session is recorded.
fn close_record(session: &SessionRef) -> (r: RecoverStep)
    ensures
        match session.resume {
            None => r is WorkspaceClosed,
            Some(attempt) => r matches RecoverStep::Record { kind, payload } && kind@
                == "workspace_closed"@ && payload@ == closed_payload(session.workspace@, attempt),
        },
{
    match session.resume {
        None => RecoverStep::WorkspaceClosed,
        Some(attempt) => RecoverStep::Record {
            kind: "workspace_closed",
            payload: Fields::new().text("workspace_id", session.workspace.as_str()).number(
                "resume_attempt",
                attempt as i128,
            ).done(),
        },
    }
}

/// Why a run cannot land without its session's exit.
pub open spec fn held_by(run: TaskRun, checked: Result<Checked, String>) -> Option<Seq<char>> {
    match checked {
        Ok(Checked::Accepted { receipt: _, commit }) => match run.result_commit {
            Some(reviewed) => if reviewed@ == commit@ {
                None
            } else {
                Some(
                    "the head "@ + commit@ + " is not the reviewed commit "@ + reviewed@,
                )
            },
            None => Some("the run has no reviewed commit"@),
        },
        Ok(Checked::Rejected(rejection)) => Some(
            "its receipt no longer holds: "@ + rejection.reason@,
        ),
        Ok(Checked::Lacks(field)) => Some("its receipt could not be checked: "@ + field.missing()),
        Ok(Checked::Failed(why)) => Some("its receipt could not be checked: "@ + why@),
        Ok(Checked::Ask(_)) => Some("its receipt could not be checked: the check is not done"@),
        Err(error) => Some("its receipt could not be checked: "@ + error@),
    }
}

/// Why a run cannot land without its session's exit, none where it can: its
/// receipt still stands against its worktree, and the head it names is the
/// commit the review passed. A check that fails to run holds it too.
pub fn landable_without_exit(run: &TaskRun, checked: &Result<Checked, String>) -> (r: Option<
    String,
>)
    ensures
        text::opt_view(r) == held_by(*run, *checked),
{
    match checked {
        Ok(Checked::Accepted { receipt: _, commit }) => match &run.result_commit {
            Some(reviewed) => if text::same(reviewed.as_str(), commit.as_str()) {
                None
            } else {
                Some(
                    "the head ".to_owned().concat(commit.as_str()).concat(
                        " is not the reviewed commit ",
                    ).concat(reviewed.as_str()),
                )
            },
            None => Some("the run has no reviewed commit".to_owned()),
        },
        Ok(Checked::Rejected(rejection)) => Some(
            "its receipt no longer holds: ".to_owned().concat(rejection.reason.as_str()),
        ),
        Ok(Checked::Lacks(field)) => Some(
            "its receipt could not be checked: ".to_owned().concat(field.message()),
        ),
        Ok(Checked::Failed(why)) => Some(
            "its receipt could not be checked: ".to_owned().concat(why.as_str()),
        ),
        Ok(Checked::Ask(_)) => Some(
            "its receipt could not be checked: the check is not done".to_owned(),
        ),
        Err(error) => Some(
            "its receipt could not be checked: ".to_owned().concat(error.as_str()),
        ),
    }
}

/// A run lands without its session's exit only at the reviewed commit.
pub proof fn only_the_reviewed_head_lands(run: TaskRun, checked: Result<Checked, String>)
    requires
        held_by(run, checked) is None,
    ensures
        checked matches Ok(Checked::Accepted { receipt: _, commit }) && run.result_commit is Some
            && run.result_commit->0@ == commit@,
{
}

/// What has been done and observed of a `/exit` that never reached the session.
#[derive(Default)]
pub struct UnsentSeen {
    /// The receipt's check, for a run that lands.
    pub checked: Option<Result<Checked, String>>,
    /// What closing the workspace gave.
    pub closed: Option<Result<(), String>>,
    pub recorded: bool,
    pub close_recorded: bool,
    pub prompts_closed: bool,
    pub repair_recorded: bool,
    pub timeout_recorded: bool,
}

/// What a `/exit` that never reached the session does next.
pub enum UnsentStep {
    CheckReceipt,
    Close { workspace: String },
    Record { kind: &'static str, payload: Json },
    WorkspaceClosed,
    ClosePrompts,
    /// The workspace is closed: the run goes on to land.
    Gone,
    /// The exit counts as timed out for this reason; the recovery job is next.
    Recover { why: String },
}

/// Why a `/exit` that never reached the session holds its run.
pub open spec fn unsent_held(watch: ExitWatch, run: TaskRun, seen: UnsentSeen) -> Option<
    Seq<char>,
> {
    if watch.next !is Land {
        Some("the run does not land after its exit"@)
    } else if held_by(run, seen.checked->0) is Some {
        held_by(run, seen.checked->0)
    } else {
        match seen.closed->0 {
            Ok(_) => None,
            Err(error) => Some("its workspace could not be closed: "@ + error@),
        }
    }
}

/// What `exit_unsent` records.
pub open spec fn unsent_payload(
    workspace: Seq<char>,
    attempts: int,
    held: Option<Seq<char>>,
) -> json::Value {
    let base = json::none().push(
        ("code"@, json::Value::Text(ReasonCode::BackendTimeout.name())),
    ).push(("workspace_id"@, json::Value::Text(workspace))).push(
        ("attempts"@, json::Value::Int(attempts)),
    ).push(
        (
            "action"@,
            json::Value::Text(
                match held {
                    None => "close_and_land"@,
                    Some(_) => "recover"@,
                },
            ),
        ),
    );
    json::Value::Object(
        match held {
            None => base,
            Some(why) => base.push(("held"@, json::Value::Text(why))),
        },
    )
}

/// What `auto_repaired` records of a workspace closed to land.
pub open spec fn forced_close_payload(workspace: Seq<char>, attempts: int) -> json::Value {
    json::Value::Object(
        json::none().push(("layer"@, json::Value::Text("runtime"@))).push(
            ("repair"@, json::Value::Text("exit_forced_close"@)),
        ).push(
            (
                "conditions"@,
                json::Value::Object(
                    json::none().push(
                        ("cause"@, json::Value::Text(ReasonCode::BackendTimeout.name())),
                    ).push(("attempts"@, json::Value::Int(attempts))).push(
                        ("exit_reached"@, json::Value::Bool(false)),
                    ).push(("then"@, json::Value::Text("land"@))).push(
                        ("review"@, json::Value::Text("pass"@)),
                    ).push(("receipt_holds"@, json::Value::Bool(true))),
                ),
            ),
        ).push(
            (
                "detail"@,
                json::Value::Object(
                    json::none().push(("workspace_id"@, json::Value::Text(workspace))),
                ),
            ),
        ),
    )
}

/// What an exit that timed out unsent records.
pub open spec fn unsent_timeout_payload(workspace: Seq<char>, timeout: u128) -> json::Value {
    json::Value::Object(
        json::none().push(("code"@, json::Value::Text(ReasonCode::ExitTimeout.name()))).push(
            ("workspace_id"@, json::Value::Text(workspace)),
        ).push(("timeout_secs"@, json::Value::Int(whole_secs(timeout)))).push(
            ("unsent"@, json::Value::Bool(true)),
        ),
    )
}

/// How often a call was tried: at least once.
pub open spec fn tries(attempts: u32) -> int {
    if attempts < 1 {
        1
    } else {
        attempts as int
    }
}

/// What a `/exit` that never reached the session comes to.
pub open spec fn is_unsent(
    watch: ExitWatch,
    session: SessionRef,
    run: TaskRun,
    timeouts: Timeouts,
    attempts: u32,
    seen: UnsentSeen,
    r: UnsentStep,
) -> bool {
    let lands = watch.next is Land;
    let held = unsent_held(watch, run, seen);
    if lands && seen.checked is None {
        r is CheckReceipt
    } else if lands && held_by(run, seen.checked->0) is None && seen.closed is None {
        r == (UnsentStep::Close { workspace: session.workspace })
    } else if !seen.recorded {
        r matches UnsentStep::Record { kind, payload } && kind@ == "exit_unsent"@ && payload@
            == unsent_payload(session.workspace@, tries(attempts), held)
    } else if held is None {
        if !seen.close_recorded {
            match session.resume {
                None => r is WorkspaceClosed,
                Some(attempt) => r matches UnsentStep::Record { kind, payload } && kind@
                    == "workspace_closed"@ && payload@ == closed_payload(
                    session.workspace@,
                    attempt,
                ),
            }
        } else if !seen.prompts_closed {
            r is ClosePrompts
        } else if !seen.repair_recorded {
            r matches UnsentStep::Record { kind, payload } && kind@ == "auto_repaired"@ && payload@
                == forced_close_payload(session.workspace@, tries(attempts))
        } else {
            r is Gone
        }
    } else if !seen.timeout_recorded {
        r matches UnsentStep::Record { kind, payload } && kind@ == "exit_request_timed_out"@
            && payload@ == unsent_timeout_payload(session.workspace@, timeouts.exit)
    } else {
        r matches UnsentStep::Recover { why } && why@ == held->0
    }
}

impl ExitWatch {
    /// Why a `/exit` that never reached the session holds its run, once what
    /// that depends on is known.
    fn why_held(&self, run: &TaskRun, seen: &UnsentSeen) -> (r: Option<String>)
        requires
            self.next is Land ==> seen.checked is Some,
            self.next is Land && held_by(*run, seen.checked->0) is None ==> seen.closed is Some,
        ensures
            text::opt_view(r) == unsent_held(*self, *run, *seen),
    {
        match &self.next {
            AfterExit::Land => {},
            _ => return Some("the run does not land after its exit".to_owned()),
        }
        if let Some(checked) = &seen.checked {
            if let Some(why) = landable_without_exit(run, checked) {
                return Some(why);
            }
        }
        match &seen.closed {
            Some(Err(error)) => Some(
                "its workspace could not be closed: ".to_owned().concat(error.as_str()),
            ),
            _ => None,
        }
    }

    /// A `/exit` that timed out on every attempt without reaching the session.
    /// A run whose landing is safe without the session's exit has its
    /// workspace closed, which ends the session, and goes on to land; any
    /// other is put to its recovery job. Either way it is recorded.
    pub fn never_sent(
        &self,
        session: &SessionRef,
        run: &TaskRun,
        timeouts: &Timeouts,
        attempts: u32,
        seen: &UnsentSeen,
    ) -> (r: UnsentStep)
        ensures
            is_unsent(*self, *session, *run, *timeouts, attempts, *seen, r),
    {
        let lands = match &self.next {
            AfterExit::Land => true,
            _ => false,
        };
        if lands {
            let checked = match &seen.checked {
                None => return UnsentStep::CheckReceipt,
                Some(checked) => checked,
            };
            if landable_without_exit(run, checked).is_none() && seen.closed.is_none() {
                return UnsentStep::Close { workspace: session.workspace.clone() };
            }
        }
        let held = self.why_held(run, seen);
        let tried: u32 = if attempts < 1 {
            1
        } else {
            attempts
        };
        if !seen.recorded {
            let action = match &held {
                None => "close_and_land",
                Some(_) => "recover",
            };
            let mut fields = Fields::new().text("code", ReasonCode::BackendTimeout.as_str()).text(
                "workspace_id",
                session.workspace.as_str(),
            ).number("attempts", tried as i128).text("action", action);
            if let Some(why) = &held {
                fields = fields.text("held", why.as_str());
            }
            return UnsentStep::Record { kind: "exit_unsent", payload: fields.done() };
        }
        match held {
            None => {
                if !seen.close_recorded {
                    return match close_record(session) {
                        RecoverStep::Record { kind, payload } => UnsentStep::Record {
                            kind,
                            payload,
                        },
                        _ => UnsentStep::WorkspaceClosed,
                    };
                }
                if !seen.prompts_closed {
                    return UnsentStep::ClosePrompts;
                }
                if !seen.repair_recorded {
                    let conditions = Fields::new().text(
                        "cause",
                        ReasonCode::BackendTimeout.as_str(),
                    ).number("attempts", tried as i128).flag("exit_reached", false).text(
                        "then",
                        "land",
                    ).text("review", "pass").flag("receipt_holds", true).done();
                    let detail = Fields::new().text(
                        "workspace_id",
                        session.workspace.as_str(),
                    ).done();
                    let payload = Fields::new().text("layer", "runtime").text(
                        "repair",
                        "exit_forced_close",
                    ).with("conditions", conditions).with("detail", detail).done();
                    return UnsentStep::Record { kind: "auto_repaired", payload };
                }
                UnsentStep::Gone
            },
            Some(why) => {
                if !seen.timeout_recorded {
                    let payload = Fields::new().text(
                        "code",
                        ReasonCode::ExitTimeout.as_str(),
                    ).text("workspace_id", session.workspace.as_str()).number(
                        "timeout_secs",
                        secs(timeouts.exit) as i128,
                    ).flag("unsent", true).done();
                    return UnsentStep::Record { kind: "exit_request_timed_out", payload };
                }
                UnsentStep::Recover { why }
            },
        }
    }
}

/// What a recovery job's escalation tells the person it is put to.
pub struct Note {
    /// Why the job did not end it itself.
    pub why: String,
    pub text: String,
    pub options: Vec<String>,
    /// The category of the ask's reason.
    pub category: AskReason,
}

/// The question of a `stuck_exit` ask.
pub open spec fn question_text(
    product: Seq<char>,
    run: TaskRun,
    timeout: u128,
    after: Seq<char>,
    workspace: Seq<char>,
    note: Option<Note>,
    screen: Result<String, String>,
) -> Seq<char> {
    let recovery = match note {
        None => ""@,
        Some(note) => "\n\nIts recovery job looked first, and "@ + note.why@ + ".\n"@ + note.text@,
    };
    let shown = match screen {
        Ok(screen) => screen@,
        Err(error) => "(the screen could not be read: "@ + error@ + ")"@,
    };
    "The session of run "@ + run.id@ + " (task "@ + text::signed(run.task_id as int)
        + ") did not exit within "@ + text::decimal(whole_secs(timeout) as nat)
        + "s of the supervisor's /exit (exit_request_timed_out): something on its screen, usually one of "@ + product + "'s own dialogs such as \"Background work is running\", holds the exit back. "@
        + after
        + "; this ask then closes itself. Answer `exit` to have the dialog answered so that the session exits and /exit sent in workspace "@
        + workspace
        + ", or `wait` to leave the session as it is (or write what to do instead)."@ + recovery
        + "\n\nLast lines of the screen:\n"@ + shown
}

/// Options with those of `more` that they lack, in order, from the first `n`.
pub open spec fn merged(base: Seq<Seq<char>>, more: Seq<Seq<char>>, n: int) -> Seq<Seq<char>>
    decreases n,
{
    if n <= 0 || n > more.len() {
        base
    } else {
        let before = merged(base, more, n - 1);
        if before.contains(more[n - 1]) {
            before
        } else {
            before.push(more[n - 1])
        }
    }
}

/// Add to the options those of `more` that they lack, in order.
pub fn merge_options(base: Vec<String>, more: &Vec<String>) -> (r: Vec<String>)
    ensures
        text::views(r@) == merged(text::views(base@), text::views(more@), more@.len() as int),
{
    let ghost start = text::views(base@);
    let mut out = base;
    let mut i: usize = 0;
    while i < more.len()
        invariant
            i <= more@.len(),
            text::views(out@) == merged(start, text::views(more@), i as int),
        decreases more@.len() - i,
    {
        if !text::lists(&out, more[i].as_str()) {
            let ghost had = out@;
            out.push(more[i].clone());
            assert(text::views(out@) =~= text::views(had).push(more@[i as int]@));
        }
        i += 1;
    }
    out
}

/// The `stuck_exit` ask of a session that held its `/exit` back. Its options are
/// `exit` and `wait`, and those of its recovery job. The
/// category of its reason is the job's, else a failed recovery. A screen that
/// cannot be read leaves the ask without an excerpt. `product` is what the agent
/// is called.
pub fn ask_stuck_exit(
    product: &str,
    run: &TaskRun,
    timeout: u128,
    after: &str,
    workspace: &str,
    note: &Option<Note>,
    screen: &Result<String, String>,
) -> (r: NewAsk)
    requires
        whole_secs(timeout) <= u64::MAX,
    ensures
        r.is_about(AskKind::StuckExit, *run),
        r.question@ == question_text(product@, *run, timeout, after@, workspace@, *note, *screen),
        text::views(r.options@) == (match *note {
            None => seq!["exit"@, "wait"@],
            Some(note) => merged(
                seq!["exit"@, "wait"@],
                text::views(note.options@),
                note.options@.len() as int,
            ),
        }),
        r.category == (match *note {
            None => AskReason::RecoveryFailed,
            Some(note) => note.category,
        }),
{
    let id = text::integer(run.task_id);
    let waited = text::number(secs(timeout) as u64);
    let recovery = match note {
        None => "".to_owned(),
        Some(note) => "\n\nIts recovery job looked first, and ".to_owned().concat(
            note.why.as_str(),
        ).concat(".\n").concat(note.text.as_str()),
    };
    let shown = match screen {
        Ok(screen) => screen.clone(),
        Err(error) => "(the screen could not be read: ".to_owned().concat(error.as_str()).concat(
            ")",
        ),
    };
    let question = "The session of run ".to_owned().concat(run.id.as_str()).concat(
        " (task ",
    ).concat(id.as_str()).concat(") did not exit within ").concat(waited.as_str()).concat(
        "s of the supervisor's /exit (exit_request_timed_out): something on its screen, usually one of ",
    ).concat(product).concat(
        "'s own dialogs such as \"Background work is running\", holds the exit back. ",
    ).concat(after).concat(
        "; this ask then closes itself. Answer `exit` to have the dialog answered so that the session exits and /exit sent in workspace ",
    ).concat(workspace).concat(
        ", or `wait` to leave the session as it is (or write what to do instead).",
    ).concat(recovery.as_str()).concat("\n\nLast lines of the screen:\n").concat(shown.as_str());
    let mut options: Vec<String> = Vec::new();
    options.push("exit".to_owned());
    options.push("wait".to_owned());
    assert(text::views(options@) =~= seq!["exit"@, "wait"@]);
    let (options, category) = match note {
        None => (options, AskReason::RecoveryFailed),
        Some(note) => (merge_options(options, &note.options), note.category),
    };
    NewAsk::about(AskKind::StuckExit, run, question, options, category)
}

/// A wrapper counts as exited only once its heartbeat is too old, its process
/// is gone and its exit is recorded; one whose process lives on is silent,
/// which is recorded once; one that is gone without an exit fails the run.
pub proof fn a_pulse_is_what_was_seen(
    wrapper: RunProcess,
    workspace: Seq<char>,
    noted: bool,
    message: Seq<char>,
    now: int,
    timeout: int,
    seen: PulseSeen,
    r: PulseStep,
)
    requires
        beats(wrapper, workspace, noted, message, now, timeout, seen, r),
    ensures
        r == PulseStep::Pulse(WrapperPulse::Fresh) <==> now - wrapper.heartbeat_at <= timeout,
        r == PulseStep::Pulse(WrapperPulse::Exited) <==> now - wrapper.heartbeat_at > timeout
            && seen.alive is Some && !seen.alive->0 && seen.exited is Some && seen.exited->0,
        r == PulseStep::Pulse(WrapperPulse::Silent) <==> now - wrapper.heartbeat_at > timeout
            && seen.alive is Some && seen.alive->0 && (noted || seen.recorded),
        r is Failed <==> now - wrapper.heartbeat_at > timeout && seen.alive is Some
            && !seen.alive->0 && seen.exited is Some && !seen.exited->0 && (noted
            ==> seen.asks_closed),
        r is Record <==> now - wrapper.heartbeat_at > timeout && seen.alive is Some && seen.alive->0
            && !noted && !seen.recorded,
        r matches PulseStep::Alive { pid } ==> pid == wrapper.pid,
{
}

/// The wrapper watched is the first one of the run's processes.
pub proof fn the_first_wrapper_is_watched(processes: Seq<RunProcess>, from: int)
    requires
        0 <= from,
    ensures
        match wrapper_from(processes, from) {
            Some(at) => from <= at < processes.len() && processes[at].is_wrapper() && forall|i: int|
                from <= i < at ==> !(#[trigger] processes[i]).is_wrapper(),
            None => forall|i: int|
                from <= i < processes.len() ==> !(#[trigger] processes[i]).is_wrapper(),
        },
    decreases processes.len() - from,
{
    if from < processes.len() && !processes[from].is_wrapper() {
        the_first_wrapper_is_watched(processes, from + 1);
    }
}

/// A session's exit is seen only where it has no session, or its wrapper
/// exited, is gone or died; there its screen is kept, its job stopped and its
/// prompts and asks closed before it counts as gone.
pub proof fn a_session_is_gone_when_its_wrapper_is(
    watch: ExitWatch,
    run: TaskRun,
    timeouts: Timeouts,
    heartbeat_timeout: int,
    now: int,
    at: u128,
    seen: ExitSeen,
    r: ExitStep,
)
    requires
        exit_polls(watch, run, timeouts, heartbeat_timeout, now, at, seen, r),
    ensures
        watch.session is None ==> r is Gone,
        r is Gone && watch.session is Some ==> {
            &&& forall|i: int|
                0 <= i < seen.processes->0@.len() && (#[trigger] seen.processes->0@[i]).is_wrapper()
                    && (forall|j: int|
                    0 <= j < i ==> !(#[trigger] seen.processes->0@[j]).is_wrapper())
                    ==> seen.processes->0@[i].exited_at is Some || (seen.alive is Some
                    && !seen.alive->0 && now - seen.processes->0@[i].heartbeat_at
                    > heartbeat_timeout)
            &&& seen.job_stopped && seen.prompts_closed && seen.asks_closed
            &&& watch.requested is Some ==> seen.screen is Some && seen.screen_kept
        },
        r matches ExitStep::Capture { workspace } ==> watch.requested is Some && (
        watch.session matches Some(session) && workspace@ == session.workspace@),
{
    if watch.session is Some && seen.processes is Some {
        let processes = seen.processes->0@;
        the_first_wrapper_is_watched(processes, 0);
        if r is Gone {
            assert forall|i: int|
                0 <= i < processes.len() && (#[trigger] processes[i]).is_wrapper() && (forall|j: int|
                    0 <= j < i ==> !(#[trigger] processes[j]).is_wrapper()) implies processes[i].exited_at
                is Some || (seen.alive is Some && !seen.alive->0 && now - processes[i].heartbeat_at
                > heartbeat_timeout) by {
                let first = wrapper_from(processes, 0)->0;
                assert(processes[first].is_wrapper());
                assert(i == first);
            }
        }
    }
}

/// A session is asked to exit only after it was let finish its background work
/// (for as long as a resume may take), its idle job was stopped and the request
/// was recorded; it is asked once, and a request unanswered for the whole time
/// runs into the timeout unless a dialog was answered.
pub proof fn an_exit_is_asked_for_then_times_out(
    watch: ExitWatch,
    run: TaskRun,
    timeouts: Timeouts,
    heartbeat_timeout: int,
    now: int,
    at: u128,
    seen: ExitSeen,
    r: ExitStep,
)
    requires
        exit_polls(watch, run, timeouts, heartbeat_timeout, now, at, seen, r),
    ensures
        r matches ExitStep::SendExit { workspace } ==> {
            &&& watch.session matches Some(session) && workspace@ == session.workspace@
            &&& watch.requested is None && seen.sent is None
            &&& seen.idle_stopped && seen.exit_recorded
            &&& seen.pulse is Some && seen.pulse != Some(WrapperPulse::Exited)
            &&& (watch.since <= at && at - watch.since < timeouts.resume) || (watch.since > at && 0
                < timeouts.resume) ==> seen.background is Some && !seen.background->0
        },
        r is TimedOut ==> {
            &&& watch.requested matches Some(asked) && passed(asked, at) >= timeouts.exit
            &&& !watch.timed_out
            &&& seen.dialog is Some && !seen.dialog->0
        },
        r is RestartExit ==> watch.requested is Some && !watch.timed_out && seen.dialog is Some
            && seen.dialog->0,
        r is AnswerDialog ==> (watch.requested matches Some(asked) && asked <= at && at - asked
            >= timeouts.exit || timeouts.exit == 0) && seen.dialog is None,
        r is Recover ==> watch.timed_out && !watch.exit_asked,
        r is Unsent <==> watch.session is Some && seen.processes is Some && !needs_alive(
            seen,
            now,
            heartbeat_timeout,
        ) && !is_gone(seen, now, heartbeat_timeout) && seen.pulse is Some && seen.pulse != Some(
            WrapperPulse::Exited,
        ) && seen.sent == Some(Submission::Unsent),
{
}

/// The latest event of a kind has the kind, and none after it has.
pub proof fn the_latest_is_last(events: Seq<RunEvent>, kind: Seq<char>, n: int)
    requires
        0 <= n <= events.len(),
    ensures
        match latest_of(events, kind, n) {
            Some(event) => event.is_kind(kind) && exists|i: int|
                0 <= i < n && #[trigger] events[i] == event && forall|j: int|
                    i < j < n ==> !(#[trigger] events[j]).is_kind(kind),
            None => forall|i: int| 0 <= i < n ==> !(#[trigger] events[i]).is_kind(kind),
        },
    decreases n,
{
    if n > 0 {
        if events[n - 1].is_kind(kind) {
            assert(events[n - 1] == latest_of(events, kind, n)->0);
        } else {
            the_latest_is_last(events, kind, n - 1);
            if let Some(event) = latest_of(events, kind, n - 1) {
                let i = choose|i: int|
                    0 <= i < n - 1 && #[trigger] events[i] == event && forall|j: int|
                        i < j < n - 1 ==> !(#[trigger] events[j]).is_kind(kind);
                assert(events[i] == event);
            }
        }
    }
}

/// Background work is waited for where it runs, unless the wait for the very
/// same was recorded as over.
pub proof fn background_work_is_waited_for_once(
    idle: Option<IdleLook>,
    events: &Vec<RunEvent>,
    r: bool,
)
    requires
        call_ensures(background_waits, (idle, events), r),
    ensures
        r ==> idle is Some && idle->0.background_running,
        idle is Some && idle->0.background_running && (forall|i: int|
            0 <= i < events@.len() ==> !(#[trigger] events@[i]).is_kind("session_idle_observed"@))
            ==> r,
{
    the_latest_is_last(events@, "session_idle_observed"@, events@.len() as int);
}

/// What a recovery of a stuck exit came to is done: a closed workspace is
/// recorded and the session gone, an exit is asked for again, and what goes to
/// a person is asked and recorded once.
pub proof fn a_stuck_exit_is_recovered_as_followed(
    watch: ExitWatch,
    session: SessionRef,
    run: TaskRun,
    timeouts: Timeouts,
    seen: RecoverSeen,
    r: RecoverStep,
)
    requires
        recovers(watch, session, run, timeouts, seen, r),
        run.run_dir is Some,
    ensures
        r is Follow <==> seen.followed is None,
        r matches RecoverStep::Follow { lands, exit_typed, .. } ==> (lands <==> watch.next is Land)
            && (exit_typed <==> watch.requested is Some && watch.unsent is None),
        r is Gone <==> (seen.followed matches Some(LiveStep::Repaired { closed, .. }) && closed)
            && seen.close_recorded && seen.prompts_closed,
        r is RestartExit <==> (seen.followed matches Some(LiveStep::Repaired { closed, exit_again })
            && !closed && exit_again),
        r matches RecoverStep::AskStuckExit { attempt, .. } ==> seen.followed == Some(
            LiveStep::Escalate { attempt },
        ) && seen.ask is None,
        r matches RecoverStep::RecordEscalation { attempt, ask } ==> seen.followed == Some(
            LiveStep::Escalate { attempt },
        ) && seen.ask == Some(ask) && !seen.escalation_recorded,
        r is Asked ==> seen.followed == Some(LiveStep::Failed) || (seen.ask is Some
            && seen.escalation_recorded),
        (seen.followed matches Some(LiveStep::Escalate { .. })) && seen.ask is None ==> r
            is AskStuckExit,
{
}

/// A run whose exit was never sent lands without it only where it was to land,
/// its receipt was accepted at the reviewed commit and its workspace could be
/// closed; any other goes to a recovery, with the reason.
pub proof fn an_unsent_exit_lands_only_what_was_reviewed(
    watch: ExitWatch,
    session: SessionRef,
    run: TaskRun,
    timeouts: Timeouts,
    attempts: u32,
    seen: UnsentSeen,
    r: UnsentStep,
)
    requires
        is_unsent(watch, session, run, timeouts, attempts, seen, r),
    ensures
        r is Gone ==> {
            &&& watch.next is Land
            &&& seen.checked matches Some(Ok(Checked::Accepted { commit, .. })) && (
            run.result_commit matches Some(reviewed) && reviewed@ == commit@)
            &&& seen.closed matches Some(Ok(_))
            &&& seen.recorded && seen.close_recorded && seen.prompts_closed && seen.repair_recorded
        },
        r matches UnsentStep::Close { workspace } ==> watch.next is Land && workspace@
            == session.workspace@ && seen.closed is None && (seen.checked matches Some(
            Ok(Checked::Accepted { commit, .. }),
        ) && (run.result_commit matches Some(reviewed) && reviewed@ == commit@)),
        r is Recover ==> seen.recorded && seen.timeout_recorded && (watch.next !is Land || !(
        seen.checked matches Some(Ok(Checked::Accepted { commit, .. })) && (
        run.result_commit matches Some(reviewed) && reviewed@ == commit@)) || (
        seen.closed matches Some(Err(_)))),
        r is CheckReceipt <==> watch.next is Land && seen.checked is None,
{
}

/// A stuck exit is asked about its run, and always offers to exit and to wait.
pub proof fn a_stuck_exit_offers_exit_and_wait(
    product: &str,
    run: &TaskRun,
    timeout: u128,
    after: &str,
    workspace: &str,
    note: &Option<Note>,
    screen: &Result<String, String>,
    r: NewAsk,
)
    requires
        call_ensures(ask_stuck_exit, (product, run, timeout, after, workspace, note, screen), r),
    ensures
        r.kind == AskKind::StuckExit,
        r.task_id == Some(run.task_id),
        r.run_id matches Some(id) && id@ == run.id@,
        r.options@.len() >= 2 && r.options@[0]@ == "exit"@ && r.options@[1]@ == "wait"@,
        *note is None ==> r.options@.len() == 2 && r.category == AskReason::RecoveryFailed,
        *note is Some ==> r.category == note->0.category,
{
    let base = seq!["exit"@, "wait"@];
    let views = text::views(r.options@);
    assert(views.len() == r.options@.len());
    if let Some(note) = *note {
        merged_keeps_the_base(base, text::views(note.options@), note.options@.len() as int);
    }
    assert(views.take(2) =~= base);
    assert(views[0] == views.take(2)[0]);
    assert(views[1] == views.take(2)[1]);
    assert(views[0] == r.options@[0]@);
    assert(views[1] == r.options@[1]@);
}

/// Merged options start with the base and hold every option of both, none
/// more.
pub proof fn merged_keeps_the_base(base: Seq<Seq<char>>, more: Seq<Seq<char>>, n: int)
    requires
        0 <= n <= more.len(),
    ensures
        merged(base, more, n).len() >= base.len(),
        merged(base, more, n).take(base.len() as int) == base,
        forall|i: int| 0 <= i < n ==> merged(base, more, n).contains(#[trigger] more[i]),
        forall|i: int|
            0 <= i < merged(base, more, n).len() ==> base.contains(
                #[trigger] merged(base, more, n)[i],
            ) || more.contains(merged(base, more, n)[i]),
    decreases n,
{
    if n > 0 {
        merged_keeps_the_base(base, more, n - 1);
        let before = merged(base, more, n - 1);
        let after = merged(base, more, n);
        assert(after.take(base.len() as int) =~= before.take(base.len() as int));
        assert forall|i: int| 0 <= i < n implies after.contains(#[trigger] more[i]) by {
            if i < n - 1 {
                assert(before.contains(more[i]));
                let k = choose|k: int| 0 <= k < before.len() && before[k] == more[i];
                assert(after[k] == more[i]);
            } else if !before.contains(more[n - 1]) {
                assert(after[before.len() as int] == more[n - 1]);
            }
        }
        assert forall|i: int| 0 <= i < after.len() implies base.contains(#[trigger] after[i])
            || more.contains(after[i]) by {
            if i < before.len() {
                assert(after[i] == before[i]);
            } else {
                assert(after[i] == more[n - 1]);
            }
        }
    } else {
        assert(base.take(base.len() as int) =~= base);
    }
}

/// A request that was sent is remembered with its time and its cause, and one
/// that is begun again counts anew and has not timed out.
pub proof fn an_exit_request_is_remembered(watch: &mut ExitWatch, now: u128, silent: bool, r: ())
    ensures
        call_ensures(ExitWatch::sent, (watch, now, silent), r) ==> final(watch).requested == Some(
            now,
        ) && final(watch).exit_for_silence == silent && final(watch).timed_out == old(watch).timed_out && final(watch).session == old(watch).session && final(watch).since == old(watch).since,
        call_ensures(ExitWatch::restarted, (watch, now), r) ==> final(watch).requested == Some(now)
            && !final(watch).timed_out && final(watch).exit_for_silence == old(watch).exit_for_silence && final(watch).session == old(watch).session,
{
}

} // verus!
