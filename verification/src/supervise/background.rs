//! A live session's background work and idle processes: when a recovery job
//! looks at them, and what a person is asked when it does not end it.

use crate::domain::{AskKind, NewAsk, TaskRun};
use crate::json;
use crate::json::{Fields, Json};
use crate::supervise::exit::{led, merge_options, merged, stuck_exit_after, LiveStep, Note};
use crate::supervise::recovery::{
    at_millis, fail_live, finished_base, from_millis, in_millis, job_failed_payload,
    live_failed_payload, millis, secs_between, seconds, with_all, Escalation, RecoveryAlert,
};
use crate::supervise::recovery_watch::{
    after_idle, request, request_payload, IdleProcess, JobEnd, RecoveryJob, RecoveryWatch,
};
use crate::supervise::stall::{stalled_options, Threshold};
use crate::text;
use vstd::prelude::*;
use vstd::string::*;

verus! {

/// A line of the idle log: the seconds it was written at, and the marker.
pub open spec fn log_entry(line: Seq<char>) -> Option<(int, Seq<char>)> {
    match text::cut(line, "\t"@) {
        None => None,
        Some((secs, marker)) => match text::parsed_signed(text::trimmed(secs)) {
            None => None,
            Some(secs) => Some((saturated(secs * 1000), marker)),
        },
    }
}

/// A number within the range of the type.
pub open spec fn saturated(n: int) -> int {
    if n > i64::MAX {
        i64::MAX as int
    } else if n < i64::MIN {
        i64::MIN as int
    } else {
        n
    }
}

/// A line of the idle log: when it was written, in milliseconds, and the
/// marker.
pub fn log_line(line: &str) -> (r: Option<(i64, String)>)
    ensures
        match r {
            Some((ms, marker)) => log_entry(line@) == Some((ms as int, marker@)),
            None => log_entry(line@) is None,
        },
{
    let (secs, marker) = match text::split_once(line, "\t") {
        None => return None,
        Some((secs, marker)) => (secs, marker),
    };
    let trimmed = text::trim(secs.as_str());
    let secs: i64 = match text::parse_signed(trimmed.as_str()) {
        None => return None,
        Some(secs) => secs,
    };
    let wide: i128 = secs as i128 * 1000;
    let ms: i64 = if wide > i64::MAX as i128 {
        i64::MAX
    } else if wide < i64::MIN as i128 {
        i64::MIN
    } else {
        wide as i64
    };
    Some((ms, marker))
}

/// The earliest of the first `n` times.
pub open spec fn earliest(times: Seq<Option<i64>>, n: int) -> Option<i64>
    decreases n,
{
    if n <= 0 || n > times.len() {
        None
    } else {
        let before = earliest(times, n - 1);
        match (before, times[n - 1]) {
            (Some(a), Some(b)) => if b < a {
                Some(b)
            } else {
                Some(a)
            },
            (Some(a), None) => Some(a),
            (None, b) => b,
        }
    }
}

/// When the longest running of the marker's tasks was first listed: the
/// earliest of those times (`first_seen`, one per task, in milliseconds) where
/// it is before the marker, else the marker's own.
pub fn background_since(at: i128, first_seen: &Vec<Option<i64>>) -> (r: i128)
    ensures
        r == (match earliest(first_seen@, first_seen@.len() as int) {
            Some(ms) => if ms < in_millis(at) {
                from_millis(ms)
            } else {
                at as int
            },
            None => at as int,
        }),
{
    let mut least: Option<i64> = None;
    let mut i: usize = 0;
    while i < first_seen.len()
        invariant
            i <= first_seen@.len(),
            least == earliest(first_seen@, i as int),
        decreases first_seen@.len() - i,
    {
        if let Some(ms) = first_seen[i] {
            least = match least {
                Some(a) => if ms < a {
                    Some(ms)
                } else {
                    Some(a)
                },
                None => Some(ms),
            };
        }
        i += 1;
    }
    match least {
        Some(ms) => if ms < millis(at) {
            at_millis(ms)
        } else {
            at
        },
        None => at,
    }
}

/// What has been observed of a session's background work.
#[derive(Default)]
pub struct BackgroundSeen {
    /// How the job about it stands.
    pub ended: Option<JobEnd>,
    /// A `stalled` ask of the run is open.
    pub asked: Option<bool>,
    /// A failed job about it waits for a person.
    pub failed_before: Option<bool>,
    /// When the idle marker was written, if it shows background work running.
    pub marker: Option<Option<i128>>,
    /// Since when that work runs.
    pub since: Option<i128>,
}

/// What watching background work does next, or what it came to.
pub enum BackgroundStep {
    /// Stop the job of this alert, with this outcome: after the receipt the
    /// session's own wait takes over.
    StopJob { alert: RecoveryAlert, outcome: &'static str },
    Poll,
    /// Act on the job's verdict.
    Act,
    /// The job failed: act on that.
    JobFailed { error: String },
    Nothing,
    Asked,
    FailedBefore,
    ReadMarker,
    Since { marker: i128 },
    /// The work runs past the threshold: hand the marker to a job.
    Alert { marker: i128, idle_secs: i64 },
}

/// Whether background work of this marker is to be looked at: past the
/// threshold, after a `wait`, and not handed to a job already.
pub open spec fn is_due(
    watch: RecoveryWatch,
    marker: i128,
    since: i128,
    threshold_secs: i64,
    now: i128,
) -> bool {
    &&& seconds(since, now) > threshold_secs
    &&& !(watch.recheck is Some && now < watch.recheck->0)
    &&& !(watch.recheck is None && watch.seen is Some && marker <= watch.seen->0)
}

/// What watching background work comes to.
pub open spec fn watches(
    watch: RecoveryWatch,
    receipt_seen: bool,
    threshold_secs: i64,
    now: i128,
    seen: BackgroundSeen,
    r: BackgroundStep,
) -> bool {
    let own = watch.job is Some && watch.job->0.alert == RecoveryAlert::LongBackground;
    if receipt_seen {
        r matches BackgroundStep::StopJob { alert, outcome } && alert
            == RecoveryAlert::LongBackground && outcome@ == "session_ended"@
    } else if own && seen.ended is None {
        r is Poll
    } else if own && (seen.ended matches Some(JobEnd::Verdict)) {
        r is Act
    } else if own && (seen.ended matches Some(JobEnd::Failed(_))) {
        r == (BackgroundStep::JobFailed { error: seen.ended->0->Failed_0 })
    } else if watch.job is Some {
        r is Nothing
    } else if seen.asked is None {
        r is Asked
    } else if seen.asked->0 {
        r is Nothing
    } else if seen.failed_before is None {
        r is FailedBefore
    } else if seen.failed_before->0 {
        r is Nothing
    } else if seen.marker is None {
        r is ReadMarker
    } else if seen.marker->0 is None {
        r is Nothing
    } else if seen.since is None {
        r == (BackgroundStep::Since { marker: seen.marker->0->0 })
    } else if !is_due(watch, seen.marker->0->0, seen.since->0, threshold_secs, now) {
        r is Nothing
    } else {
        r == (BackgroundStep::Alert {
            marker: seen.marker->0->0,
            idle_secs: seconds(seen.since->0, now) as i64,
        })
    }
}

/// One look at a session's background work: follow its recovery job, or raise
/// the alert when the idle marker says work has run past the threshold, no
/// other alert's job runs and no `stalled` ask is open. It is timed from when
/// the running tasks were first listed, so that turns the session keeps taking
/// do not reset it.
pub fn watch_background(
    watch: &RecoveryWatch,
    receipt_seen: bool,
    threshold_secs: i64,
    now: i128,
    seen: &BackgroundSeen,
) -> (r: BackgroundStep)
    ensures
        watches(*watch, receipt_seen, threshold_secs, now, *seen, r),
{
    if receipt_seen {
        return BackgroundStep::StopJob {
            alert: RecoveryAlert::LongBackground,
            outcome: "session_ended",
        };
    }
    if let Some(job) = watch.job {
        if job.alert == RecoveryAlert::LongBackground {
            return match &seen.ended {
                None => BackgroundStep::Poll,
                Some(JobEnd::Verdict) => BackgroundStep::Act,
                Some(JobEnd::Failed(error)) => BackgroundStep::JobFailed { error: error.clone() },
                Some(JobEnd::Running) => BackgroundStep::Nothing,
            };
        }
        return BackgroundStep::Nothing;
    }
    match seen.asked {
        None => return BackgroundStep::Asked,
        Some(asked) => if asked {
            return BackgroundStep::Nothing;
        },
    }
    match seen.failed_before {
        None => return BackgroundStep::FailedBefore,
        Some(failed) => if failed {
            return BackgroundStep::Nothing;
        },
    }
    let marker: i128 = match seen.marker {
        None => return BackgroundStep::ReadMarker,
        Some(None) => return BackgroundStep::Nothing,
        Some(Some(marker)) => marker,
    };
    let since: i128 = match seen.since {
        None => return BackgroundStep::Since { marker },
        Some(since) => since,
    };
    let idle_secs = secs_between(since, now);
    if idle_secs <= threshold_secs {
        return BackgroundStep::Nothing;
    }
    match watch.recheck {
        Some(at) => if now < at {
            return BackgroundStep::Nothing;
        },
        None => if let Some(handed) = watch.seen {
            if marker <= handed {
                return BackgroundStep::Nothing;
            }
        },
    }
    BackgroundStep::Alert { marker, idle_secs }
}

impl RecoveryWatch {
    /// The marker is handed to a job, or straight to a person.
    pub fn handed(&mut self, marker: i128)
        ensures
            *final(self) == (RecoveryWatch { recheck: None, seen: Some(marker), ..*old(self) }),
    {
        self.recheck = None;
        self.seen = Some(marker);
    }
}

/// One marker starts one job, but for one more after a `wait`: a marker that
/// was handed over raises no alert again.
pub proof fn one_job_per_marker(
    watch: RecoveryWatch,
    marker: i128,
    receipt_seen: bool,
    threshold_secs: i64,
    now: i128,
    seen: BackgroundSeen,
    r: BackgroundStep,
)
    requires
        watch.seen == Some(marker),
        watch.recheck is None,
        watches(watch, receipt_seen, threshold_secs, now, seen, r),
        r is Alert,
    ensures
        r->Alert_marker > marker,
{
}

/// What is told of background work that runs too long; `tasks` are the tasks.
pub fn background_facts(
    idle_secs: i64,
    since: i128,
    threshold_secs: i64,
    tasks: Json,
    marker: i128,
) -> (r: Json)
    ensures
        r@ == json::Value::Object(
            json::none().push(("idle_secs"@, json::Value::Int(idle_secs as int))).push(
                ("background_since_ms"@, json::Value::Int(in_millis(since))),
            ).push(("threshold"@, json::Value::Text(Threshold::BackgroundAlert.name()))).push(
                ("threshold_secs"@, json::Value::Int(threshold_secs as int)),
            ).push(("background_tasks"@, tasks@)).push(
                ("marker_at_ms"@, json::Value::Int(in_millis(marker))),
            ),
        ),
{
    Fields::new().number("idle_secs", idle_secs as i128).number(
        "background_since_ms",
        millis(since) as i128,
    ).text("threshold", Threshold::BackgroundAlert.as_str()).number(
        "threshold_secs",
        threshold_secs as i128,
    ).with("background_tasks", tasks).number("marker_at_ms", millis(marker) as i128).done()
}

/// What is told of processes that use almost no CPU time; `idle` are they.
pub fn idle_facts(idle: Json, threshold_secs: i64, progress_per_mille: i64, phase: &str) -> (r: Json)
    ensures
        r@ == json::Value::Object(
            json::none().push(("idle_processes"@, idle@)).push(
                ("threshold"@, json::Value::Text(Threshold::IdleProcess.name())),
            ).push(("threshold_secs"@, json::Value::Int(threshold_secs as int))).push(
                ("progress_cpu_per_mille"@, json::Value::Int(progress_per_mille as int)),
            ).push(("phase"@, json::Value::Text(phase@))),
        ),
{
    Fields::new().with("idle_processes", idle).text(
        "threshold",
        Threshold::IdleProcess.as_str(),
    ).number("threshold_secs", threshold_secs as i128).number(
        "progress_cpu_per_mille",
        progress_per_mille as i128,
    ).text("phase", phase).done()
}

/// What has been done and observed of starting a job for an alert.
#[derive(Default)]
pub struct StartSeen {
    /// How many jobs the alert got.
    pub done: Option<usize>,
    /// The event the alert is raised from.
    pub evidence: Option<i64>,
    pub requested: bool,
    pub spawned: Option<Result<(), String>>,
}

/// What starting a job does next, or what it came to.
pub enum StartStep {
    CountAttempts,
    /// The alert got its jobs already: a person is asked.
    UsedUp { attempts: usize },
    Record { kind: &'static str, payload: Json },
    Spawn { attempt: usize },
    Started { attempt: usize },
    /// The job could not start: raise that as the alert's failed job.
    Failed { attempt: usize, error: String },
}

/// What starting a job comes to.
pub open spec fn starts(
    alert: RecoveryAlert,
    workspace: Seq<char>,
    facts: json::Value,
    limit: usize,
    seen: StartSeen,
    r: StartStep,
) -> bool {
    if seen.done is None {
        r is CountAttempts
    } else if seen.done->0 >= limit {
        r == (StartStep::UsedUp { attempts: seen.done->0 })
    } else {
        let attempt = (seen.done->0 + 1) as usize;
        if !seen.requested {
            r matches StartStep::Record { kind, payload } && kind@ == "recovery_requested"@
                && payload@ == request_payload(alert, attempt, seen.evidence, workspace, facts)
        } else {
            match seen.spawned {
                None => r == (StartStep::Spawn { attempt }),
                Some(Ok(_)) => r == (StartStep::Started { attempt }),
                Some(Err(error)) => r matches StartStep::Failed { attempt: a, error: why } && a
                    == attempt && why@ == "the recovery job could not start: "@ + error@,
            }
        }
    }
}

/// Record `recovery_requested` for an alert with its facts and start its job,
/// where the alert did not get its jobs already.
pub fn start(
    alert: RecoveryAlert,
    workspace: &str,
    facts: &Json,
    limit: usize,
    seen: &StartSeen,
) -> (r: StartStep)
    ensures
        starts(alert, workspace@, facts@, limit, *seen, r),
{
    let done: usize = match seen.done {
        None => return StartStep::CountAttempts,
        Some(done) => done,
    };
    if done >= limit {
        return StartStep::UsedUp { attempts: done };
    }
    let attempt: usize = done + 1;
    if !seen.requested {
        return StartStep::Record {
            kind: "recovery_requested",
            payload: request(alert, attempt, seen.evidence, workspace, facts),
        };
    }
    match &seen.spawned {
        None => StartStep::Spawn { attempt },
        Some(Ok(_)) => StartStep::Started { attempt },
        Some(Err(error)) => StartStep::Failed {
            attempt,
            error: "the recovery job could not start: ".to_owned().concat(error.as_str()),
        },
    }
}

/// What raising an alert to the inbox does next, or what it came to.
pub enum EscalateStep {
    /// Whether a `stalled` ask of the run is open.
    Asked,
    /// Open the `stalled` ask.
    Open { new: NewAsk },
    /// The session's stall is followed by the ask from now on; what detected
    /// it is this old.
    FollowAsk { ask: i64, idle_secs: i64, threshold: Threshold },
    Record { kind: &'static str, payload: Json },
    Done,
}

/// What has been done and observed of raising an alert to the inbox.
#[derive(Debug, Clone, Copy, PartialEq, Eq, Structural, Default)]
pub struct EscalateSeen {
    pub asked: Option<bool>,
    pub ask: Option<i64>,
    /// The stall is followed by the ask.
    pub followed: bool,
    /// `recovery_finished` is recorded.
    pub recorded: bool,
    /// `recovery_failed` is recorded.
    pub failure_recorded: bool,
}

/// The options of an escalated alert: those of a `stalled` ask and the job's.
pub open spec fn escalated_options(note: Note) -> Seq<Seq<char>> {
    merged(
        seq!["wait"@, "intervene"@],
        text::views(note.options@),
        note.options@.len() as int,
    )
}

/// The question of background work that runs too long.
pub open spec fn background_question(
    run: TaskRun,
    workspace: Seq<char>,
    idle_secs: i64,
    threshold_secs: i64,
    note: Note,
) -> Seq<char> {
    "The session of run "@ + run.id@ + " (task "@ + text::signed(run.task_id as int)
        + ") in workspace "@ + workspace + " has had background work running for "@ + text::signed(
        idle_secs as int,
    ) + "s (alert: long_background, over "@ + text::signed(threshold_secs as int) + "s), and "@
        + note.why@ + ".\n"@ + note.text@
        + "\nAnswer `wait` to leave the session alone, or `intervene` to step in yourself (read the screen, stop its background work, type an instruction; see the dagq-recover skill). This ask closes itself once the session moves on."@
}

/// An idle process as an ask lists it.
pub open spec fn process_line(p: IdleProcess) -> Seq<char> {
    "pid "@ + text::decimal(p.pid as nat) + " (parent "@ + text::decimal(p.ppid as nat) + ", "@
        + text::signed(p.idle_secs as int) + "s without progress, "@ + text::signed(
        p.cpu_growth_ms as int,
    ) + "ms of CPU time in it): "@ + text::tail_of(p.command@, 200)
}

/// The idle processes as an ask lists them.
pub open spec fn process_list(idle: Seq<IdleProcess>) -> Seq<char> {
    text::joined(Seq::new(idle.len(), |i: int| process_line(idle[i])), "; "@)
}

/// For how long the longest idle of the first `n` processes is idle.
pub open spec fn longest_idle(idle: Seq<IdleProcess>, n: int) -> Option<i64>
    decreases n,
{
    if n <= 0 || n > idle.len() {
        None
    } else {
        match longest_idle(idle, n - 1) {
            Some(a) => if idle[n - 1].idle_secs > a {
                Some(idle[n - 1].idle_secs)
            } else {
                Some(a)
            },
            None => Some(idle[n - 1].idle_secs),
        }
    }
}

/// The question of processes that use almost no CPU time.
pub open spec fn idle_question(
    run: TaskRun,
    workspace: Seq<char>,
    threshold_secs: i64,
    idle: Seq<IdleProcess>,
    note: Note,
) -> Seq<char> {
    "The session of run "@ + run.id@ + " (task "@ + text::signed(run.task_id as int)
        + ") in workspace "@ + workspace
        + " has processes that have used almost no CPU time for over "@ + text::signed(
        threshold_secs as int,
    ) + "s (alert: idle_process): "@ + process_list(idle) + ". And "@ + note.why@ + ".\n"@
        + note.text@
        + "\nAnswer `wait` to leave the session alone, or `intervene` to step in yourself (read the screen, stop the processes, type an instruction; see the dagq-recover skill). This ask closes itself once the session moves on."@
}

/// An alert that is put to a person: why, and by which job.
pub struct Raised {
    pub escalation: Escalation,
    pub attempt: usize,
}

/// What the record of a raised alert says.
pub open spec fn raised_payload(
    alert: RecoveryAlert,
    raised: Raised,
    note: Note,
    ask: Option<i64>,
    extra: json::Value,
) -> json::Value {
    with_all(
        finished_base(raised.escalation, alert, raised.attempt, note.why@, note.category, ask),
        extra,
    )
}

/// What raising an alert to the inbox comes to.
pub open spec fn escalates(
    run: TaskRun,
    question: Seq<char>,
    alert: RecoveryAlert,
    raised: Raised,
    note: Note,
    extra: json::Value,
    idle_secs: int,
    threshold: Threshold,
    seen: EscalateSeen,
    r: EscalateStep,
) -> bool {
    if seen.asked is None {
        r is Asked
    } else if seen.asked->0 {
        if !seen.recorded {
            r matches EscalateStep::Record { kind, payload } && kind@ == "recovery_finished"@
                && payload@ == raised_payload(alert, raised, note, None, extra)
        } else {
            r is Done
        }
    } else if seen.ask is None {
        r matches EscalateStep::Open { new } && {
            &&& new.is_about(AskKind::Stalled, run)
            &&& new.question@ == question
            &&& text::views(new.options@) == escalated_options(note)
            &&& new.category == note.category
        }
    } else if !seen.followed {
        r matches EscalateStep::FollowAsk { ask, idle_secs: secs, threshold: by } && ask
            == seen.ask->0 && secs == idle_secs && by == threshold
    } else if !seen.recorded {
        r matches EscalateStep::Record { kind, payload } && kind@ == "recovery_finished"@
            && payload@ == raised_payload(alert, raised, note, seen.ask, extra)
    } else {
        r is Done
    }
}

/// What raising a failed job of background work comes to: nobody is asked.
pub open spec fn raises_failure(
    workspace: Seq<char>,
    attempt: usize,
    error: Seq<char>,
    finish_recorded: bool,
    failure_recorded: bool,
    kind: Seq<char>,
    payload: json::Value,
) -> bool {
    let alert = RecoveryAlert::LongBackground;
    if !finish_recorded {
        kind == "recovery_finished"@ && payload == job_failed_payload(alert, attempt, error)
    } else {
        !failure_recorded && kind == "recovery_failed"@ && payload == live_failed_payload(
            workspace,
            alert,
            attempt,
            error,
        )
    }
}

/// What is recorded next of a failed job of background work, none where all is.
fn raise_failure(
    workspace: &str,
    attempt: usize,
    error: &str,
    finish_recorded: bool,
    failure_recorded: bool,
) -> (r: Option<(&'static str, Json)>)
    ensures
        match r {
            Some((kind, payload)) => raises_failure(
                workspace@,
                attempt,
                error@,
                finish_recorded,
                failure_recorded,
                kind@,
                payload@,
            ),
            None => finish_recorded && failure_recorded,
        },
{
    let (finished, failed) = fail_live(workspace, RecoveryAlert::LongBackground, attempt, error);
    if !finish_recorded {
        return Some(("recovery_finished", finished));
    }
    if !failure_recorded {
        return Some(("recovery_failed", failed));
    }
    None
}

/// What raising an alert does besides opening its ask; none where that is next.
fn raise(
    alert: RecoveryAlert,
    raised: &Raised,
    note: &Note,
    extra: &Json,
    idle_secs: i64,
    threshold: Threshold,
    seen: EscalateSeen,
) -> (r: Option<EscalateStep>)
    ensures
        match r {
            Some(step) => !(step is Open) && forall|run: TaskRun, question: Seq<char>| #[trigger]
                escalates(
                    run,
                    question,
                    alert,
                    *raised,
                    *note,
                    extra@,
                    idle_secs as int,
                    threshold,
                    seen,
                    step,
                ),
            None => seen.asked == Some(false) && seen.ask is None,
        },
{
    let asked = match seen.asked {
        None => return Some(EscalateStep::Asked),
        Some(asked) => asked,
    };
    if !asked {
        let ask: i64 = match seen.ask {
            None => return None,
            Some(ask) => ask,
        };
        if !seen.followed {
            return Some(EscalateStep::FollowAsk { ask, idle_secs, threshold });
        }
    }
    if seen.recorded {
        return Some(EscalateStep::Done);
    }
    let ask = if asked {
        None
    } else {
        seen.ask
    };
    let payload = raised.escalation.finished(alert, raised.attempt, note, ask, extra);
    Some(EscalateStep::Record { kind: "recovery_finished", payload })
}

/// What raising background work that runs too long comes to.
pub open spec fn raises_background(
    run: TaskRun,
    workspace: Seq<char>,
    marker: i128,
    idle_secs: i64,
    threshold_secs: i64,
    raised: Raised,
    note: Note,
    seen: EscalateSeen,
    r: EscalateStep,
) -> bool {
    match raised.escalation {
        Escalation::JobFailed(error) => if seen.recorded && seen.failure_recorded {
            r is Done
        } else {
            r matches EscalateStep::Record { kind, payload } && raises_failure(
                workspace,
                raised.attempt,
                error@,
                seen.recorded,
                seen.failure_recorded,
                kind@,
                payload@,
            )
        },
        _ => escalates(
            run,
            background_question(run, workspace, idle_secs, threshold_secs, note),
            RecoveryAlert::LongBackground,
            raised,
            note,
            json::Value::Object(
                json::none().push(("marker_at_ms"@, json::Value::Int(in_millis(marker)))),
            ),
            idle_secs as int,
            Threshold::BackgroundAlert,
            seen,
            r,
        ),
    }
}

/// Raise background work that runs too long to the inbox as a `stalled` ask,
/// with the job's note. An ask opened meanwhile already has a person looking:
/// the escalation is recorded, not merged into it. A job that failed, or could
/// not start, is recorded for a person to recover by hand, and nobody is asked.
pub fn escalate_background(
    run: &TaskRun,
    workspace: &str,
    marker: i128,
    idle_secs: i64,
    threshold_secs: i64,
    raised: &Raised,
    note: &Note,
    seen: EscalateSeen,
) -> (r: EscalateStep)
    ensures
        raises_background(
            *run,
            workspace@,
            marker,
            idle_secs,
            threshold_secs,
            *raised,
            *note,
            seen,
            r,
        ),
{
    if let Escalation::JobFailed(error) = &raised.escalation {
        return match raise_failure(
            workspace,
            raised.attempt,
            error.as_str(),
            seen.recorded,
            seen.failure_recorded,
        ) {
            Some((kind, payload)) => EscalateStep::Record { kind, payload },
            None => EscalateStep::Done,
        };
    }
    let extra = Fields::new().number("marker_at_ms", millis(marker) as i128).done();
    let alert = RecoveryAlert::LongBackground;
    let threshold = Threshold::BackgroundAlert;
    match raise(alert, raised, note, &extra, idle_secs, threshold, seen) {
        Some(step) => {
            assert(escalates(
                *run,
                background_question(*run, workspace@, idle_secs, threshold_secs, *note),
                alert,
                *raised,
                *note,
                extra@,
                idle_secs as int,
                threshold,
                seen,
                step,
            ));
            step
        },
        None => {
            let id = text::integer(run.task_id);
            let idle = text::integer(idle_secs);
            let limit = text::integer(threshold_secs);
            let question = "The session of run ".to_owned().concat(run.id.as_str()).concat(
                " (task ",
            ).concat(id.as_str()).concat(") in workspace ").concat(workspace).concat(
                " has had background work running for ",
            ).concat(idle.as_str()).concat("s (alert: long_background, over ").concat(
                limit.as_str(),
            ).concat("s), and ").concat(note.why.as_str()).concat(".\n").concat(
                note.text.as_str(),
            ).concat(
                "\nAnswer `wait` to leave the session alone, or `intervene` to step in yourself (read the screen, stop its background work, type an instruction; see the dagq-recover skill). This ask closes itself once the session moves on.",
            );
            let options = merge_options(stalled_options(), &note.options);
            EscalateStep::Open {
                new: NewAsk::about(AskKind::Stalled, run, question, options, note.category),
            }
        },
    }
}

/// The idle processes as an ask lists them.
fn list_processes(idle: &Vec<IdleProcess>) -> (r: String)
    ensures
        r@ == process_list(idle@),
{
    let mut lines: Vec<String> = Vec::new();
    let mut i: usize = 0;
    while i < idle.len()
        invariant
            i <= idle@.len(),
            lines@.len() == i,
            forall|j: int| 0 <= j < i ==> (#[trigger] lines@[j])@ == process_line(idle@[j]),
        decreases idle@.len() - i,
    {
        let p = &idle[i];
        let pid = text::number(p.pid as u64);
        let ppid = text::number(p.ppid as u64);
        let secs = text::integer(p.idle_secs);
        let growth = text::integer(p.cpu_growth_ms);
        let command = text::tail(p.command.as_str(), 200);
        lines.push(
            "pid ".to_owned().concat(pid.as_str()).concat(" (parent ").concat(
                ppid.as_str(),
            ).concat(", ").concat(secs.as_str()).concat("s without progress, ").concat(
                growth.as_str(),
            ).concat("ms of CPU time in it): ").concat(command.as_str()),
        );
        i += 1;
    }
    assert(text::views(lines@) =~= Seq::new(idle@.len(), |i: int| process_line(idle@[i])));
    text::join(&lines, "; ")
}

/// For how long the longest idle process is idle; none without one.
fn most_idle(idle: &Vec<IdleProcess>) -> (r: i64)
    ensures
        r == (match longest_idle(idle@, idle@.len() as int) {
            Some(secs) => secs,
            None => 0,
        }),
{
    let mut most: Option<i64> = None;
    let mut i: usize = 0;
    while i < idle.len()
        invariant
            i <= idle@.len(),
            most == longest_idle(idle@, i as int),
        decreases idle@.len() - i,
    {
        let secs: i64 = idle[i].idle_secs;
        most = match most {
            Some(a) => if secs > a {
                Some(secs)
            } else {
                Some(a)
            },
            None => Some(secs),
        };
        i += 1;
    }
    match most {
        Some(secs) => secs,
        None => 0,
    }
}

/// Raise processes that use almost no CPU time to the inbox as a `stalled` ask
/// with the processes and the job's note.
pub fn escalate_idle(
    run: &TaskRun,
    workspace: &str,
    threshold_secs: i64,
    idle: &Vec<IdleProcess>,
    raised: &Raised,
    note: &Note,
    seen: EscalateSeen,
) -> (r: EscalateStep)
    ensures
        escalates(
            *run,
            idle_question(*run, workspace@, threshold_secs, idle@, *note),
            RecoveryAlert::IdleProcess,
            *raised,
            *note,
            json::Value::Object(json::none()),
            match longest_idle(idle@, idle@.len() as int) {
                Some(secs) => secs as int,
                None => 0,
            },
            Threshold::IdleProcess,
            seen,
            r,
        ),
{
    let extra = Fields::new().done();
    let alert = RecoveryAlert::IdleProcess;
    let threshold = Threshold::IdleProcess;
    let idle_secs = most_idle(idle);
    match raise(alert, raised, note, &extra, idle_secs, threshold, seen) {
        Some(step) => {
            assert(escalates(
                *run,
                idle_question(*run, workspace@, threshold_secs, idle@, *note),
                alert,
                *raised,
                *note,
                extra@,
                idle_secs as int,
                threshold,
                seen,
                step,
            ));
            step
        },
        None => {
            let id = text::integer(run.task_id);
            let limit = text::integer(threshold_secs);
            let listed = list_processes(idle);
            let question = "The session of run ".to_owned().concat(run.id.as_str()).concat(
                " (task ",
            ).concat(id.as_str()).concat(") in workspace ").concat(workspace).concat(
                " has processes that have used almost no CPU time for over ",
            ).concat(limit.as_str()).concat("s (alert: idle_process): ").concat(
                listed.as_str(),
            ).concat(". And ").concat(note.why.as_str()).concat(".\n").concat(
                note.text.as_str(),
            ).concat(
                "\nAnswer `wait` to leave the session alone, or `intervene` to step in yourself (read the screen, stop the processes, type an instruction; see the dagq-recover skill). This ask closes itself once the session moves on.",
            );
            let options = merge_options(stalled_options(), &note.options);
            EscalateStep::Open {
                new: NewAsk::about(AskKind::Stalled, run, question, options, note.category),
            }
        },
    }
}

/// Where an alert of idle processes goes that its job escalated.
#[derive(Debug, Clone, Copy, PartialEq, Eq, Structural)]
pub enum IdleEnd {
    /// The phase ends by itself, at its own timeout: left to that.
    LeaveToPhase,
    /// The `stalled` ask.
    Escalate,
}

/// Where a session is whose processes are watched.
#[derive(Debug, Clone, Copy, PartialEq, Eq, Structural)]
pub enum IdlePlace {
    /// A worker's, before its `/exit`.
    Session { receipt_seen: bool },
    /// One that is to exit.
    ExitWait,
    /// A resumed one.
    Resume,
}

/// The phase of a session whose processes are watched, and where an escalation
/// goes.
pub struct IdlePhase {
    pub phase: String,
    pub end: IdleEnd,
    /// An instruction may be sent to it where it is idle at its prompt.
    pub instructs: bool,
}

/// The name of the phase; `resume` is that of a resumed session.
pub open spec fn phase_name(place: IdlePlace, resume: Seq<char>) -> Seq<char> {
    match place {
        IdlePlace::Session { receipt_seen } => if receipt_seen {
            "after_receipt"@
        } else {
            "session"@
        },
        IdlePlace::ExitWait => "exit_wait"@,
        IdlePlace::Resume => resume,
    }
}

/// Where an escalation goes: only a worker's session without a receipt has no
/// end of its own.
pub open spec fn end_of(place: IdlePlace) -> IdleEnd {
    if place == (IdlePlace::Session { receipt_seen: false }) {
        IdleEnd::Escalate
    } else {
        IdleEnd::LeaveToPhase
    }
}

/// Whether idle processes are watched now: no job of a worker's session starts
/// while a `stalled` ask of the run is open.
pub fn watch_idle_processes(place: IdlePlace, running: bool, asked: bool, resume: &str) -> (r:
    Option<IdlePhase>)
    ensures
        match r {
            None => place is Session && !running && asked,
            Some(phase) => {
                &&& place !is Session || running || !asked
                &&& phase.phase@ == phase_name(place, resume@)
                &&& phase.end == end_of(place)
                &&& phase.instructs == place is Session
            },
        },
{
    let (name, end, instructs) = match place {
        IdlePlace::Session { receipt_seen } => {
            if !running && asked {
                return None;
            }
            if receipt_seen {
                ("after_receipt", IdleEnd::LeaveToPhase, true)
            } else {
                ("session", IdleEnd::Escalate, true)
            }
        },
        IdlePlace::ExitWait => ("exit_wait", IdleEnd::LeaveToPhase, false),
        IdlePlace::Resume => (resume, IdleEnd::LeaveToPhase, false),
    };
    Some(IdlePhase { phase: name.to_owned(), end, instructs })
}

/// How the alert of idle processes was followed.
pub struct IdleFollowed {
    /// The alert was raised in this look; else its job was followed.
    pub raised: bool,
    /// A recovery job runs after it.
    pub running: bool,
    pub step: LiveStep,
    /// The actions that were applied.
    pub applied: Vec<String>,
    /// When an instruction was typed, if one was.
    pub sent: Option<i128>,
}

/// What has been done after the alert of idle processes was followed.
#[derive(Debug, Clone, Copy, PartialEq, Eq, Default, Structural)]
pub struct IdleDone {
    pub handed: bool,
    pub released: bool,
    pub input_noted: bool,
    pub settled: bool,
}

/// What is done after the alert of idle processes was followed.
#[derive(Debug, Clone, Copy, PartialEq, Eq, Structural)]
pub enum IdleAfter {
    /// The processes are a job's or a person's now: they are no alert again
    /// until they make progress.
    Hand,
    /// The same processes may raise the alert again once the wait is over.
    Release,
    /// The session is followed from this input on.
    InputSent { at: i128 },
    /// Record the escalation as left to the phase.
    LeaveToPhase { attempt: usize },
    /// Put the alert to a person.
    Escalate { attempt: usize },
    Done,
}

/// What is done after the alert of idle processes was followed.
pub open spec fn after_alert(followed: IdleFollowed, end: IdleEnd, done: IdleDone) -> IdleAfter {
    if followed.raised && (followed.running || followed.step is Escalate || followed.step is Failed)
        && !done.handed {
        IdleAfter::Hand
    } else {
        match followed.step {
            LiveStep::Repaired { .. } => if text::views(followed.applied@).contains("wait"@)
                && !done.released {
                IdleAfter::Release
            } else if followed.sent is Some && !done.input_noted {
                IdleAfter::InputSent { at: followed.sent->0 }
            } else {
                IdleAfter::Done
            },
            LiveStep::Escalate { attempt } => if done.settled {
                IdleAfter::Done
            } else if end == IdleEnd::LeaveToPhase {
                IdleAfter::LeaveToPhase { attempt }
            } else {
                IdleAfter::Escalate { attempt }
            },
            _ => IdleAfter::Done,
        }
    }
}

/// What is done after the alert of idle processes was followed: processes that
/// went to a job or a person are no alert again until they make progress, but
/// for those of a `wait`; an escalation goes to a person unless its phase ends
/// by itself.
pub fn after_idle_alert(followed: &IdleFollowed, end: IdleEnd, done: IdleDone) -> (r: IdleAfter)
    ensures
        r == after_alert(*followed, end, done),
{
    let given_up = match followed.step {
        LiveStep::Escalate { .. } => true,
        LiveStep::Failed => true,
        _ => false,
    };
    if followed.raised && (followed.running || given_up) && !done.handed {
        return IdleAfter::Hand;
    }
    match followed.step {
        LiveStep::Repaired { .. } => {
            if after_idle(&followed.applied) && !done.released {
                return IdleAfter::Release;
            }
            match followed.sent {
                Some(at) if !done.input_noted => IdleAfter::InputSent { at },
                _ => IdleAfter::Done,
            }
        },
        LiveStep::Escalate { attempt } => if done.settled {
            IdleAfter::Done
        } else if end == IdleEnd::LeaveToPhase {
            IdleAfter::LeaveToPhase { attempt }
        } else {
            IdleAfter::Escalate { attempt }
        },
        _ => IdleAfter::Done,
    }
}

/// Idle processes of a session that ends by itself are put to nobody, and
/// those that raised an alert are handed over before it is settled.
pub proof fn a_phase_with_an_end_asks_nobody(
    place: IdlePlace,
    followed: IdleFollowed,
    done: IdleDone,
)
    ensures
        after_alert(followed, end_of(place), done) is Escalate ==> place == (IdlePlace::Session {
            receipt_seen: false,
        }),
        after_alert(followed, end_of(place), done) is Escalate || after_alert(
            followed,
            end_of(place),
            done,
        ) is LeaveToPhase ==> followed.step is Escalate && (followed.raised ==> done.handed),
{
}

/// What is told of a worker's session that holds its `/exit` back.
pub fn stuck_exit_facts(timeout_secs: u64, silent: bool) -> (r: Json)
    ensures
        r@ == json::Value::Object(
            json::none().push(("timeout_secs"@, json::Value::Int(timeout_secs as int))).push(
                ("exit_typed"@, json::Value::Bool(true)),
            ).push(("silent"@, json::Value::Bool(silent))),
        ),
{
    Fields::new().number("timeout_secs", timeout_secs as i128).flag("exit_typed", true).flag(
        "silent",
        silent,
    ).done()
}

/// What is told of a dialog the runtime does not answer.
pub fn prompt_facts(kind: &str, hash: &Option<String>, excerpt: &str) -> (r: Json)
    ensures
        r@ == json::Value::Object(
            json::none().push(("prompt"@, json::Value::Text(kind@))).push(
                ("screen_hash"@, json::text_or_null(text::opt_view(*hash))),
            ).push(("excerpt"@, json::Value::Text(excerpt@))),
        ),
{
    Fields::new().text("prompt", kind).opt_text("screen_hash", hash).text("excerpt", excerpt).done()
}

/// What a recovery of a held `/exit` or a dialog does next, or what it came to.
pub enum HeldStep {
    /// Whether a person is asked about the dialog already.
    PromptAsked,
    /// Stop the jobs that are followed only before the `/exit`.
    StopOthers,
    /// Follow the alert's job.
    Follow,
    Nothing,
    /// The ask, or the failed job, is a person's now.
    Asked,
    /// The session gets the exit timeout again.
    RestartExit,
    AskStuckExit { attempt: usize, after: String },
    AskPrompt { attempt: usize },
    RecordEscalation { attempt: usize, ask: i64 },
}

/// A worker's session that holds its `/exit` back past the exit timeout: its
/// recovery job, and the `stuck_exit` ask once that escalates. A job about
/// background work or idle processes is stopped first: left running, it would
/// hold this one back for good. A repair that answered a dialog or stopped
/// processes gives it the exit timeout again.
pub fn recover_stuck_exit(
    stopped: bool,
    followed: Option<LiveStep>,
    exit_for_silence: bool,
    ask: Option<i64>,
    recorded: bool,
) -> (r: HeldStep)
    ensures
        match followed {
            None => if !stopped {
                r is StopOthers
            } else {
                r is Follow
            },
            Some(LiveStep::Pending) => r is Nothing,
            Some(LiveStep::Failed) => r is Asked,
            Some(LiveStep::Repaired { closed: _, exit_again }) => if exit_again {
                r is RestartExit
            } else {
                r is Nothing
            },
            Some(LiveStep::Escalate { attempt }) => match ask {
                None => r matches HeldStep::AskStuckExit { attempt: a, after } && a == attempt
                    && after@ == led(
                    exit_for_silence,
                    "The run stays running, and goes on to validating once the session exits"@,
                ),
                Some(ask) => if !recorded {
                    r == (HeldStep::RecordEscalation { attempt, ask })
                } else {
                    r is Asked
                },
            },
        },
{
    let followed = match followed {
        None => return if !stopped {
            HeldStep::StopOthers
        } else {
            HeldStep::Follow
        },
        Some(followed) => followed,
    };
    match followed {
        LiveStep::Pending => HeldStep::Nothing,
        LiveStep::Failed => HeldStep::Asked,
        LiveStep::Repaired { closed: _, exit_again } => if exit_again {
            HeldStep::RestartExit
        } else {
            HeldStep::Nothing
        },
        LiveStep::Escalate { attempt } => match ask {
            None => HeldStep::AskStuckExit {
                attempt,
                after: stuck_exit_after(
                    exit_for_silence,
                    "The run stays running, and goes on to validating once the session exits",
                ),
            },
            Some(ask) => if !recorded {
                HeldStep::RecordEscalation { attempt, ask }
            } else {
                HeldStep::Asked
            },
        },
    }
}

/// A session that waits at a dialog the runtime does not answer: its recovery
/// job, and the `answer_prompt` ask once that escalates; nothing while a
/// person is asked.
pub fn recover_prompt(
    asked: Option<bool>,
    followed: Option<LiveStep>,
    ask: Option<i64>,
    recorded: bool,
) -> (r: HeldStep)
    ensures
        if asked is None {
            r is PromptAsked
        } else if asked->0 {
            r is Nothing
        } else {
            match followed {
                None => r is Follow,
                Some(LiveStep::Escalate { attempt }) => match ask {
                    None => r == (HeldStep::AskPrompt { attempt }),
                    Some(ask) => if !recorded {
                        r == (HeldStep::RecordEscalation { attempt, ask })
                    } else {
                        r is Nothing
                    },
                },
                Some(_) => r is Nothing,
            }
        },
{
    match asked {
        None => return HeldStep::PromptAsked,
        Some(asked) => if asked {
            return HeldStep::Nothing;
        },
    }
    match followed {
        None => HeldStep::Follow,
        Some(LiveStep::Escalate { attempt }) => match ask {
            None => HeldStep::AskPrompt { attempt },
            Some(ask) => if !recorded {
                HeldStep::RecordEscalation { attempt, ask }
            } else {
                HeldStep::Nothing
            },
        },
        Some(_) => HeldStep::Nothing,
    }
}

/// Whether the session is idle at its prompt, for an instruction: no dialog is
/// recorded, and a turn ended since the last input.
pub fn at_prompt(
    dialog: bool,
    marker: Option<i128>,
    stall: &crate::supervise::stall::StallWatch,
) -> (r: bool)
    ensures
        r == (!dialog && marker is Some && (stall.last_input is None || marker->0
            > stall.last_input->0)),
{
    if dialog {
        return false;
    }
    match marker {
        Some(marker) => stall.turn_since_input(marker),
        None => false,
    }
}

/// How a background job's verdict was applied, where it was.
pub enum BackgroundApplied {
    /// An instruction was typed at this time.
    Sent { at: i128 },
    Quiet,
    /// The verdict is put to a person.
    Escalated,
}

/// What has been done and observed of a background job that ended.
#[derive(Default)]
pub struct ActSeen {
    /// Why the job failed, where it did.
    pub failed: Option<String>,
    pub finish_recorded: bool,
    pub failure_recorded: bool,
    pub applied: Option<BackgroundApplied>,
    pub input_noted: bool,
    pub recheck_read: bool,
}

/// What acting on a background job that ended does next.
pub enum ActStep {
    Record { kind: &'static str, payload: Json },
    /// Apply the verdict to the live session.
    Apply,
    /// Ask the inbox, with the marker the job was started for.
    Escalate { attempt: usize, marker: i128, idle_secs: i64 },
    /// The session is followed from the instruction on.
    InputSent { at: i128 },
    /// Read when the alert is looked at again.
    ReadRecheck,
    Done,
}

/// What acting on a background job that ended comes to.
pub open spec fn acts(workspace: Seq<char>, job: RecoveryJob, seen: ActSeen, r: ActStep) -> bool {
    match seen.failed {
        Some(error) => if seen.finish_recorded && seen.failure_recorded {
            r is Done
        } else {
            r matches ActStep::Record { kind, payload } && raises_failure(
                workspace,
                job.attempt,
                error@,
                seen.finish_recorded,
                seen.failure_recorded,
                kind@,
                payload@,
            )
        },
        None => match seen.applied {
            None => r is Apply,
            Some(BackgroundApplied::Escalated) => r == (ActStep::Escalate {
                attempt: job.attempt,
                marker: match job.marker {
                    Some(marker) => marker,
                    None => 0,
                },
                idle_secs: job.idle_secs,
            }),
            Some(BackgroundApplied::Sent { at }) if !seen.input_noted => r == (ActStep::InputSent {
                at,
            }),
            Some(_) => if !seen.recheck_read {
                r is ReadRecheck
            } else {
                r is Done
            },
        },
    }
}

/// Act on what a background job answered. It is applied to the live session, and
/// the session is followed from an instruction on; the inbox is asked where its
/// answer is not applied. A job that failed is recorded for a person to recover
/// the session by hand, and nobody is asked.
pub fn act_on_background(workspace: &str, job: &RecoveryJob, seen: &ActSeen) -> (r: ActStep)
    ensures
        acts(workspace@, *job, *seen, r),
{
    if let Some(error) = &seen.failed {
        return match raise_failure(
            workspace,
            job.attempt,
            error.as_str(),
            seen.finish_recorded,
            seen.failure_recorded,
        ) {
            Some((kind, payload)) => ActStep::Record { kind, payload },
            None => ActStep::Done,
        };
    }
    match &seen.applied {
        None => return ActStep::Apply,
        Some(BackgroundApplied::Escalated) => return ActStep::Escalate {
            attempt: job.attempt,
            marker: match job.marker {
                Some(marker) => marker,
                None => 0,
            },
            idle_secs: job.idle_secs,
        },
        Some(BackgroundApplied::Sent { at }) => if !seen.input_noted {
            return ActStep::InputSent { at: *at };
        },
        Some(BackgroundApplied::Quiet) => {},
    }
    if !seen.recheck_read {
        ActStep::ReadRecheck
    } else {
        ActStep::Done
    }
}

/// A failed job about background work asks nobody: it is recorded, twice, and
/// nothing else is done.
pub proof fn a_failed_job_asks_nobody(
    workspace: Seq<char>,
    job: RecoveryJob,
    seen: ActSeen,
    r: ActStep,
)
    requires
        acts(workspace, job, seen, r),
        seen.failed is Some,
    ensures
        r is Record || r is Done,
        r is Done ==> seen.finish_recorded && seen.failure_recorded,
{
}

/// The background work counts from the earliest time it was first seen, where
/// that lies before the marker, and else from the marker.
pub proof fn background_counts_from_its_first_sight(
    at: i128,
    first_seen: &Vec<Option<i64>>,
    r: i128,
)
    requires
        call_ensures(background_since, (at, first_seen), r),
        at >= 0,
    ensures
        r <= at,
        first_seen@.len() == 0 ==> r == at,
        forall|i: int|
            #![trigger first_seen@[i]]
            0 <= i < first_seen@.len() && first_seen@[i] is Some && 0 <= first_seen@[i]->0
                < i64::MAX && first_seen@[i]->0 * 1_000_000 <= at - 1_000_000 ==> r <= first_seen@[i]->0
                * 1_000_000,
{
    earliest_is_least(first_seen@, first_seen@.len() as int);
    assert forall|i: int|
        #![trigger first_seen@[i]]
        0 <= i < first_seen@.len() && first_seen@[i] is Some && 0 <= first_seen@[i]->0 < i64::MAX
            && first_seen@[i]->0 * 1_000_000 <= at - 1_000_000 implies r <= first_seen@[i]->0
        * 1_000_000 by {
        let ms = first_seen@[i]->0;
        let first = earliest(first_seen@, first_seen@.len() as int)->0;
        assert(first <= ms);
        assert(in_millis(at) > ms);
    }
}

proof fn earliest_is_least(times: Seq<Option<i64>>, n: int)
    requires
        0 <= n <= times.len(),
    ensures
        forall|i: int|
            #![trigger times[i]]
            0 <= i < n && times[i] is Some ==> earliest(times, n) is Some && earliest(times, n)->0
                <= times[i]->0,
    decreases n,
{
    if n > 0 {
        earliest_is_least(times, n - 1);
    }
}

/// Long background work is raised only while the run has no receipt, no job
/// runs, nobody is asked, none failed before and it has run longer than the
/// threshold; the same marker is raised once, and after a wait only once the
/// wait is over.
pub proof fn long_background_is_raised_once(
    watch: RecoveryWatch,
    receipt_seen: bool,
    threshold_secs: i64,
    now: i128,
    seen: BackgroundSeen,
    r: BackgroundStep,
)
    requires
        watches(watch, receipt_seen, threshold_secs, now, seen, r),
    ensures
        r is StopJob <==> receipt_seen,
        r matches BackgroundStep::Alert { marker, idle_secs } ==> {
            &&& !receipt_seen && watch.job is None
            &&& seen.asked is Some && !seen.asked->0
            &&& seen.failed_before is Some && !seen.failed_before->0
            &&& seen.marker == Some(Some(marker))
            &&& threshold_secs >= 0 ==> now - seen.since->0 > threshold_secs * 1_000_000_000
            &&& watch.recheck matches Some(at) ==> now >= at
            &&& (watch.recheck is None && watch.seen is Some) ==> marker > watch.seen->0
        },
        r is Act <==> !receipt_seen && (watch.job matches Some(job) && job.alert
            == RecoveryAlert::LongBackground) && (seen.ended matches Some(JobEnd::Verdict)),
        r matches BackgroundStep::JobFailed { error } ==> (seen.ended matches Some(
            JobEnd::Failed(why),
        ) && why@ == error@),
        r is Poll <==> !receipt_seen && (watch.job matches Some(job) && job.alert
            == RecoveryAlert::LongBackground) && seen.ended is None,
{
}

/// A recovery starts within its limit: it is requested, then spawned under the
/// next attempt, and past the limit it is used up.
pub proof fn a_recovery_starts_within_its_limit(
    alert: RecoveryAlert,
    workspace: Seq<char>,
    facts: json::Value,
    limit: usize,
    seen: StartSeen,
    r: StartStep,
)
    requires
        starts(alert, workspace, facts, limit, seen, r),
    ensures
        r is CountAttempts <==> seen.done is None,
        r is UsedUp <==> seen.done is Some && seen.done->0 >= limit,
        r is Spawn <==> seen.done is Some && seen.done->0 < limit && seen.requested && seen.spawned
            is None,
        r is Started <==> seen.done is Some && seen.done->0 < limit && seen.requested && (
        seen.spawned matches Some(Ok(_))),
        r is Failed <==> seen.done is Some && seen.done->0 < limit && seen.requested && (
        seen.spawned matches Some(Err(_))),
        r matches StartStep::Spawn { attempt } ==> attempt == seen.done->0 + 1,
        r matches StartStep::Started { attempt } ==> attempt == seen.done->0 + 1,
{
}

/// A person is asked once about a session a recovery could not help: where one
/// is asked already that is recorded, else the ask is opened about the run,
/// followed and recorded; it always offers to wait and to intervene.
pub proof fn an_escalation_asks_once(
    run: TaskRun,
    question: Seq<char>,
    alert: RecoveryAlert,
    raised: Raised,
    note: Note,
    extra: json::Value,
    idle_secs: int,
    threshold: Threshold,
    seen: EscalateSeen,
    r: EscalateStep,
)
    requires
        escalates(
            run,
            question,
            alert,
            raised,
            note,
            extra,
            idle_secs,
            threshold,
            seen,
            r,
        ),
    ensures
        r is Asked <==> seen.asked is None,
        r is Open <==> seen.asked is Some && !seen.asked->0 && seen.ask is None,
        r matches EscalateStep::Open { new } ==> {
            &&& new.kind == AskKind::Stalled
            &&& new.task_id == Some(run.task_id)
            &&& new.run_id matches Some(id) && id@ == run.id@
            &&& new.question@ == question
            &&& new.category == note.category
            &&& new.options@.len() >= 2 && new.options@[0]@ == "wait"@ && new.options@[1]@
                == "intervene"@
        },
        r matches EscalateStep::FollowAsk { ask, threshold: by, .. } ==> seen.ask == Some(ask) && by
            == threshold && !seen.followed,
        r is Done ==> seen.recorded,
        r is Record ==> !seen.recorded && (seen.asked->0 || seen.followed),
{
    if let EscalateStep::Open { new } = r {
        let base = seq!["wait"@, "intervene"@];
        let views = text::views(new.options@);
        crate::supervise::exit::merged_keeps_the_base(
            base,
            text::views(note.options@),
            note.options@.len() as int,
        );
        assert(views.len() == new.options@.len());
        assert(views.take(2) =~= base);
        assert(views[0] == views.take(2)[0]);
        assert(views[1] == views.take(2)[1]);
        assert(views[0] == new.options@[0]@);
        assert(views[1] == new.options@[1]@);
    }
}

/// Idle processes go to a person only out of a session that has no receipt
/// yet; elsewhere the phase's own end takes care of them, and only a session
/// is given instructions.
pub proof fn idle_processes_are_left_to_their_phase(
    place: IdlePlace,
    running: bool,
    asked: bool,
    resume: &str,
    r: Option<IdlePhase>,
)
    requires
        call_ensures(watch_idle_processes, (place, running, asked, resume), r),
    ensures
        r is None <==> place is Session && !running && asked,
        r matches Some(phase) ==> (phase.end == IdleEnd::Escalate <==> (
        place matches IdlePlace::Session { receipt_seen } && !receipt_seen)) && (phase.instructs
            <==> place is Session),
{
}

/// What an alert about idle processes came to is handed over, released or
/// settled once, as the recovery said.
pub proof fn an_idle_alert_is_settled_once(
    followed: IdleFollowed,
    end: IdleEnd,
    done: IdleDone,
    r: IdleAfter,
)
    requires
        r == after_alert(followed, end, done),
    ensures
        r is Hand ==> followed.raised && !done.handed && (followed.running || followed.step
            is Escalate || followed.step is Failed),
        r is Release ==> followed.step is Repaired && !done.released && exists|i: int|
            0 <= i < followed.applied@.len() && (#[trigger] followed.applied@[i])@ == "wait"@,
        r matches IdleAfter::InputSent { at } ==> followed.sent == Some(at) && !done.input_noted
            && followed.step is Repaired,
        r matches IdleAfter::Escalate { attempt } ==> followed.step == (LiveStep::Escalate {
            attempt,
        }) && end == IdleEnd::Escalate && !done.settled,
        r matches IdleAfter::LeaveToPhase { attempt } ==> followed.step == (LiveStep::Escalate {
            attempt,
        }) && end == IdleEnd::LeaveToPhase && !done.settled,
        followed.step is Escalate && !done.settled && (followed.raised ==> done.handed) ==> r
            is Escalate || r is LeaveToPhase,
{
    if r is Release {
        let views = text::views(followed.applied@);
        let i = choose|i: int| 0 <= i < views.len() && views[i] == "wait"@;
        assert(followed.applied@[i]@ == "wait"@);
    }
}

/// A session held at its exit is followed after the other recoveries were
/// stopped; its exit is asked for again where a repair says so, and a person is
/// asked where it could not be helped.
pub proof fn a_held_exit_is_recovered(
    stopped: bool,
    followed: Option<LiveStep>,
    exit_for_silence: bool,
    ask: Option<i64>,
    recorded: bool,
    r: HeldStep,
)
    requires
        call_ensures(recover_stuck_exit, (stopped, followed, exit_for_silence, ask, recorded), r),
    ensures
        r is StopOthers <==> followed is None && !stopped,
        r is Follow <==> followed is None && stopped,
        r is RestartExit <==> (followed matches Some(LiveStep::Repaired { exit_again, .. })
            && exit_again),
        r is AskStuckExit <==> (followed matches Some(LiveStep::Escalate { .. })) && ask is None,
        r matches HeldStep::RecordEscalation { attempt, ask: of } ==> followed == Some(
            LiveStep::Escalate { attempt },
        ) && ask == Some(of) && !recorded,
        r is Asked <==> followed == Some(LiveStep::Failed) || ((followed matches Some(
            LiveStep::Escalate { .. },
        )) && ask is Some && recorded),
{
}

/// A session at a prompt is followed only while nobody was asked about it, and
/// a person is asked once where it could not be helped.
pub proof fn a_prompt_is_recovered_or_asked_about(
    asked: Option<bool>,
    followed: Option<LiveStep>,
    ask: Option<i64>,
    recorded: bool,
    r: HeldStep,
)
    requires
        call_ensures(recover_prompt, (asked, followed, ask, recorded), r),
    ensures
        r is PromptAsked <==> asked is None,
        asked is Some && asked->0 ==> r is Nothing,
        r is Follow <==> asked is Some && !asked->0 && followed is None,
        r matches HeldStep::AskPrompt { attempt } ==> followed == Some(
            LiveStep::Escalate { attempt },
        ) && ask is None && asked is Some && !asked->0,
        asked is Some && !asked->0 && (followed matches Some(LiveStep::Escalate { .. })) && ask
            is None ==> r is AskPrompt,
        r matches HeldStep::RecordEscalation { ask: of, .. } ==> ask == Some(of) && !recorded,
{
}

/// A session is at its prompt where no dialog is up and its last turn ended
/// after what was typed to it.
pub proof fn a_session_is_at_its_prompt_after_its_turn(
    dialog: bool,
    marker: Option<i128>,
    stall: &crate::supervise::stall::StallWatch,
    r: bool,
)
    requires
        call_ensures(at_prompt, (dialog, marker, stall), r),
    ensures
        r ==> !dialog && marker is Some,
        !dialog && marker is Some && stall.last_input is None ==> r,
        !dialog && marker is Some && stall.last_input is Some ==> (r <==> marker->0
            > stall.last_input->0),
{
}

/// A job's verdict on background work is applied, and what came of it goes on:
/// to a person where it escalated, as input where something was typed; a job
/// that failed is recorded as such and nothing of it applied.
pub proof fn a_background_verdict_is_acted_on(
    workspace: Seq<char>,
    job: RecoveryJob,
    seen: ActSeen,
    r: ActStep,
)
    requires
        acts(workspace, job, seen, r),
    ensures
        r is Apply <==> seen.failed is None && seen.applied is None,
        r is Escalate <==> seen.failed is None && (seen.applied matches Some(
            BackgroundApplied::Escalated,
        )),
        r matches ActStep::Escalate { attempt, marker, idle_secs } ==> attempt == job.attempt
            && idle_secs == job.idle_secs && (job.marker matches Some(at) ==> marker == at),
        r matches ActStep::InputSent { at } ==> seen.applied == Some(BackgroundApplied::Sent { at })
            && !seen.input_noted && seen.failed is None,
        r is Record ==> seen.failed is Some && !(seen.finish_recorded && seen.failure_recorded),
        r is ReadRecheck ==> seen.failed is None && !seen.recheck_read && seen.applied is Some,
{
}

/// A marker that was handed to a recovery is remembered as seen and is not
/// checked again.
pub proof fn a_handed_marker_is_remembered(watch: &mut RecoveryWatch, marker: i128, r: ())
    requires
        call_ensures(RecoveryWatch::handed, (watch, marker), r),
    ensures
        final(watch).seen == Some(marker),
        final(watch).recheck is None,
        final(watch).job == old(watch).job && final(watch).held == old(watch).held,
{
}

/// A line of the log is a time in seconds and a marker behind the first tab; it
/// is kept in milliseconds.
pub proof fn a_log_line_is_a_time_and_a_marker(line: &str, r: Option<(i64, String)>)
    requires
        call_ensures(log_line, (line,), r),
    ensures
        r matches Some((ms, marker)) ==> {
            &&& text::has_part(line@, "\t"@)
            &&& exists|secs: Seq<char>|
                {
                    &&& #[trigger] (secs + "\t"@ + marker@) == line@
                    &&& text::parsed_signed(text::trimmed(secs)) is Some
                    &&& -9_000_000_000_000_000 <= text::parsed_signed(text::trimmed(secs))->0
                        <= 9_000_000_000_000_000 ==> ms == text::parsed_signed(
                        text::trimmed(secs),
                    )->0 * 1000
                }
        },
        !text::has_part(line@, "\t"@) ==> r is None,
{
    text::a_cut_loses_only_the_separator(line@, "\t"@);
    if let Some((ms, marker)) = r {
        let (secs, rest) = text::cut(line@, "\t"@)->0;
        assert(secs + "\t"@ + marker@ == line@);
    }
}

/// A question about background work names the run, its task and its workspace,
/// and gives the reason.
pub proof fn a_background_question_names_the_run(
    run: TaskRun,
    workspace: Seq<char>,
    idle_secs: i64,
    threshold_secs: i64,
    note: Note,
)
    ensures
        text::has_prefix(
            background_question(run, workspace, idle_secs, threshold_secs, note),
            "The session of run "@ + run.id@ + " (task "@ + text::signed(run.task_id as int)
                + ") in workspace "@ + workspace,
        ),
        text::has_part(
            background_question(run, workspace, idle_secs, threshold_secs, note),
            note.why@ + ".\n"@ + note.text@,
        ),
{
    let whole = background_question(run, workspace, idle_secs, threshold_secs, note);
    let head = "The session of run "@ + run.id@ + " (task "@ + text::signed(run.task_id as int)
        + ") in workspace "@ + workspace;
    assert(whole.take(head.len() as int) =~= head);
    let before = head + " has had background work running for "@ + text::signed(
        idle_secs as int,
    ) + "s (alert: long_background, over "@ + text::signed(threshold_secs as int) + "s), and "@;
    let part = note.why@ + ".\n"@ + note.text@;
    let after = whole.skip((before.len() + part.len()) as int);
    assert(whole =~= before + part + after);
    text::part_is_found(before, part, after);
}

/// A question about idle processes names the run, its task and its workspace,
/// lists the processes and gives the reason.
pub proof fn an_idle_question_lists_the_processes(
    run: TaskRun,
    workspace: Seq<char>,
    threshold_secs: i64,
    idle: Seq<IdleProcess>,
    note: Note,
)
    ensures
        text::has_prefix(
            idle_question(run, workspace, threshold_secs, idle, note),
            "The session of run "@ + run.id@ + " (task "@ + text::signed(run.task_id as int)
                + ") in workspace "@ + workspace,
        ),
        text::has_part(
            idle_question(run, workspace, threshold_secs, idle, note),
            process_list(idle) + ". And "@ + note.why@ + ".\n"@ + note.text@,
        ),
{
    let whole = idle_question(run, workspace, threshold_secs, idle, note);
    let head = "The session of run "@ + run.id@ + " (task "@ + text::signed(run.task_id as int)
        + ") in workspace "@ + workspace;
    assert(whole.take(head.len() as int) =~= head);
    let before = head + " has processes that have used almost no CPU time for over "@
        + text::signed(threshold_secs as int) + "s (alert: idle_process): "@;
    let part = process_list(idle) + ". And "@ + note.why@ + ".\n"@ + note.text@;
    let after = whole.skip((before.len() + part.len()) as int);
    assert(whole =~= before + part + after);
    text::part_is_found(before, part, after);
}

/// A process is listed with its number, its parent's and the end of its
/// command, and each has a place in the list.
pub proof fn a_process_is_listed_by_its_number(idle: Seq<IdleProcess>, p: IdleProcess)
    ensures
        text::has_prefix(
            process_line(p),
            "pid "@ + text::decimal(p.pid as nat) + " (parent "@ + text::decimal(p.ppid as nat),
        ),
        text::has_suffix(process_line(p), text::tail_of(p.command@, 200)),
        idle.len() == 0 ==> process_list(idle).len() == 0,
        process_list(seq![p]) == process_line(p),
        idle.len() > 0 ==> process_list(idle.push(p)) == process_list(idle) + "; "@ + process_line(
            p,
        ),
{
    let line = process_line(p);
    let head = "pid "@ + text::decimal(p.pid as nat) + " (parent "@ + text::decimal(p.ppid as nat);
    assert(line.take(head.len() as int) =~= head);
    let tail = text::tail_of(p.command@, 200);
    assert(line.skip(line.len() - tail.len()) =~= tail);
    let lines = Seq::new(idle.len(), |i: int| process_line(idle[i]));
    let more = idle.push(p);
    assert(Seq::new(more.len(), |i: int| process_line(more[i])) =~= lines.push(process_line(p)));
    text::joining_adds_a_separator(lines, process_line(p), "; "@);
    let none: Seq<Seq<char>> = Seq::empty();
    let one = seq![p];
    assert(Seq::new(one.len(), |i: int| process_line(one[i])) =~= none.push(process_line(p)));
    text::joining_adds_a_separator(none, process_line(p), "; "@);
}

/// The idle time followed is the longest of the processes'.
pub proof fn the_longest_idle_time_counts(idle: Seq<IdleProcess>, n: int)
    requires
        0 <= n <= idle.len(),
    ensures
        longest_idle(idle, n) is None <==> n == 0,
        longest_idle(idle, n) matches Some(most) ==> (forall|i: int|
            0 <= i < n ==> (#[trigger] idle[i]).idle_secs <= most) && exists|i: int|
            0 <= i < n && (#[trigger] idle[i]).idle_secs == most,
    decreases n,
{
    if n > 0 {
        the_longest_idle_time_counts(idle, n - 1);
        assert(idle[n - 1].idle_secs == idle[n - 1].idle_secs);
        if let Some(before) = longest_idle(idle, n - 1) {
            let i = choose|i: int| 0 <= i < n - 1 && (#[trigger] idle[i]).idle_secs == before;
            assert(idle[i].idle_secs == before);
        }
    }
}

/// A job for background work that failed asks nobody: its end and its failure
/// are recorded, in that order; any other escalation asks about the run, and
/// what it follows is the background work's own.
pub proof fn a_failed_background_job_asks_nobody(
    run: &TaskRun,
    workspace: &str,
    marker: i128,
    idle_secs: i64,
    threshold_secs: i64,
    raised: &Raised,
    note: &Note,
    seen: EscalateSeen,
    r: EscalateStep,
)
    requires
        call_ensures(
            escalate_background,
            (run, workspace, marker, idle_secs, threshold_secs, raised, note, seen),
            r,
        ),
    ensures
        raised.escalation is JobFailed ==> r is Record || r is Done,
        raised.escalation is JobFailed ==> (r is Done <==> seen.recorded && seen.failure_recorded),
        raised.escalation is JobFailed && !seen.recorded ==> (r matches EscalateStep::Record {
            kind,
            ..
        } && kind@ == "recovery_finished"@),
        raised.escalation is JobFailed && seen.recorded && !seen.failure_recorded ==> (
        r matches EscalateStep::Record { kind, .. } && kind@ == "recovery_failed"@),
        raised.escalation !is JobFailed ==> (r is Open <==> seen.asked is Some && !seen.asked->0
            && seen.ask is None),
        r matches EscalateStep::FollowAsk { ask, idle_secs: secs, threshold } ==> seen.ask == Some(
            ask,
        ) && secs == idle_secs && threshold == Threshold::BackgroundAlert,
        r matches EscalateStep::Open { new } ==> new.task_id == Some(run.task_id) && text::has_prefix(
            new.question@,
            "The session of run "@ + run.id@ + " (task "@ + text::signed(run.task_id as int)
                + ") in workspace "@ + workspace@,
        ),
{
    a_background_question_names_the_run(*run, workspace@, idle_secs, threshold_secs, *note);
}

/// An alert of idle processes is raised for the run, and what its ask follows is
/// the longest idle time.
pub proof fn idle_processes_are_asked_about(
    run: &TaskRun,
    workspace: &str,
    threshold_secs: i64,
    idle: &Vec<IdleProcess>,
    raised: &Raised,
    note: &Note,
    seen: EscalateSeen,
    r: EscalateStep,
)
    requires
        call_ensures(
            escalate_idle,
            (run, workspace, threshold_secs, idle, raised, note, seen),
            r,
        ),
    ensures
        r is Open <==> seen.asked is Some && !seen.asked->0 && seen.ask is None,
        r matches EscalateStep::Open { new } ==> new.task_id == Some(run.task_id) && text::has_prefix(
            new.question@,
            "The session of run "@ + run.id@ + " (task "@ + text::signed(run.task_id as int)
                + ") in workspace "@ + workspace@,
        ),
        r matches EscalateStep::FollowAsk { ask, idle_secs, threshold } ==> seen.ask == Some(ask)
            && threshold == Threshold::IdleProcess && (idle@.len() > 0 ==> forall|i: int|
            0 <= i < idle@.len() ==> (#[trigger] idle@[i]).idle_secs <= idle_secs),
{
    an_idle_question_lists_the_processes(*run, workspace@, threshold_secs, idle@, *note);
    the_longest_idle_time_counts(idle@, idle@.len() as int);
}

} // verus!
