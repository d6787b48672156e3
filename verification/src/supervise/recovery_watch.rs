//! The recovery of one live session: its job in progress, the alerts that
//! wait, and a verdict applied to the session.

use crate::domain::{RunEvent, RunProcess, TaskRun};
use crate::json;
use crate::json::{Fields, Json};
use crate::supervise::clock::{passed, since};
use crate::supervise::recovery::{
    action_name, at_millis, check_live, checks, extend, fail_live, from_millis, in_millis,
    int_or_null, job_failed_payload, live_failed_payload, millis, number_or_null, with_all, CheckStep, Live, Look,
    Confidence, RecoveryAction, RecoveryAlert, RecoveryDecision, RecoveryVerdict,
};
use crate::text;
use vstd::prelude::*;
use vstd::string::*;

verus! {

/// How long processes that were asked to end get before they are killed, in
/// seconds.
pub const STOP_GRACE_SECS: u64 = 3;

/// The recovery job in progress for an alert of a live session.
#[derive(Debug, Clone, Copy, PartialEq, Eq, Structural)]
pub struct RecoveryJob {
    pub alert: RecoveryAlert,
    pub attempt: usize,
    /// The idle marker a job about background work was started for, and for
    /// how long that had run.
    pub marker: Option<i128>,
    pub idle_secs: i64,
}

/// The wait of an alert whose job answered so.
#[derive(Debug, Clone, Copy, PartialEq, Eq, Structural)]
pub struct Held {
    pub alert: RecoveryAlert,
    pub until: i128,
}

/// A process that used almost no CPU time.
pub struct IdleProcess {
    pub pid: u32,
    pub ppid: u32,
    pub idle_secs: i64,
    pub cpu_growth_ms: i64,
    pub command: String,
}

/// The recovery of one live session: one job at a time, so that another alert
/// waits for it.
pub struct RecoveryWatch {
    pub job: Option<RecoveryJob>,
    /// The idle marker the last job about background work was started for.
    pub seen: Option<i128>,
    /// Until when that job's `wait` holds.
    pub recheck: Option<i128>,
    pub held: Vec<Held>,
    /// The idle processes last handed to a job.
    pub idle: Vec<IdleProcess>,
}

/// The waits that are not of this alert.
pub open spec fn without(held: Seq<Held>, alert: RecoveryAlert) -> Seq<Held>
    decreases held.len(),
{
    if held.len() == 0 {
        Seq::empty()
    } else if held.last().alert == alert {
        without(held.drop_last(), alert)
    } else {
        without(held.drop_last(), alert).push(held.last())
    }
}

/// The waits that are not of this alert.
fn drop_held(held: &Vec<Held>, alert: RecoveryAlert) -> (r: Vec<Held>)
    ensures
        r@ == without(held@, alert),
{
    let mut out: Vec<Held> = Vec::new();
    let mut i: usize = 0;
    while i < held.len()
        invariant
            i <= held@.len(),
            out@ == without(held@.take(i as int), alert),
        decreases held@.len() - i,
    {
        assert(held@.take(i + 1).drop_last() =~= held@.take(i as int));
        if held[i].alert != alert {
            out.push(held[i]);
        }
        i += 1;
    }
    assert(held@.take(i as int) =~= held@);
    out
}

/// Whether a wait holds the alert at `now`.
pub open spec fn is_held(held: Seq<Held>, alert: RecoveryAlert, now: i128) -> bool {
    exists|i: int| 0 <= i < held.len() && (#[trigger] held[i]).alert == alert && now < held[i].until
}

/// Whether an event ends a recovery of background work.
pub open spec fn ends_background(event: RunEvent) -> bool {
    event.is_kind("recovery_finished"@) && json::at(event.payload@, "alert"@) == json::Value::Text(
        RecoveryAlert::LongBackground.name(),
    )
}

/// The latest of the first `n` events that ends a recovery of background work.
pub open spec fn last_background(events: Seq<RunEvent>, n: int) -> Option<RunEvent>
    decreases n,
{
    if n <= 0 || n > events.len() {
        None
    } else if ends_background(events[n - 1]) {
        Some(events[n - 1])
    } else {
        last_background(events, n - 1)
    }
}

/// A time in milliseconds that an event has under `key`.
pub open spec fn time_at(event: RunEvent, key: Seq<char>) -> Option<int> {
    match json::int_of(json::at(event.payload@, key)) {
        Some(ms) => Some(from_millis(ms as i64)),
        None => None,
    }
}

impl RecoveryWatch {
    /// A watch with nothing in progress.
    pub fn new() -> (r: RecoveryWatch)
        ensures
            r.job is None,
            r.seen is None,
            r.recheck is None,
            r.held@.len() == 0,
            r.idle@.len() == 0,
    {
        RecoveryWatch {
            job: None,
            seen: None,
            recheck: None,
            held: Vec::new(),
            idle: Vec::new(),
        }
    }

    /// The watch of an adopted run, from its events: a marker already handed to
    /// a job is not handed again. A job that the previous supervisor left
    /// running is gone.
    pub fn adopt(events: &Vec<RunEvent>) -> (r: RecoveryWatch)
        ensures
            r.job is None,
            r.held@.len() == 0,
            r.idle@.len() == 0,
            match last_background(events@, events@.len() as int) {
                None => r.seen is None && r.recheck is None,
                Some(event) => {
                    &&& (match r.seen {
                        Some(at) => time_at(event, "marker_at_ms"@) == Some(at as int),
                        None => time_at(event, "marker_at_ms"@) is None,
                    })
                    &&& (match r.recheck {
                        Some(at) => time_at(event, "recheck_at_ms"@) == Some(at as int),
                        None => time_at(event, "recheck_at_ms"@) is None,
                    })
                },
            },
    {
        let mut watch = RecoveryWatch::new();
        let mut n: usize = events.len();
        while n > 0
            invariant
                n <= events@.len(),
                last_background(events@, events@.len() as int) == last_background(
                    events@,
                    n as int,
                ),
                watch.job is None,
                watch.seen is None,
                watch.recheck is None,
                watch.held@.len() == 0,
                watch.idle@.len() == 0,
            decreases n,
        {
            n -= 1;
            let event = &events[n];
            if event.of_kind("recovery_finished") && event.payload.says(
                "alert",
                RecoveryAlert::LongBackground.as_str(),
            ) {
                watch.seen = match event.payload.integer("marker_at_ms") {
                    Some(ms) => Some(at_millis(ms)),
                    None => None,
                };
                watch.recheck = match event.payload.integer("recheck_at_ms") {
                    Some(ms) => Some(at_millis(ms)),
                    None => None,
                };
                return watch;
            }
        }
        watch
    }

    /// Whether a recovery job runs for the session: a run then waits for the
    /// job, not for a person.
    pub fn running(&self) -> (r: bool)
        ensures
            r == (self.job is Some),
    {
        self.job.is_some()
    }

    /// Whether there is a job to stop.
    pub fn stop_job(&self) -> (r: bool)
        ensures
            r == (self.job is Some),
    {
        self.job.is_some()
    }

    /// The idle processes last handed to a job, for its ask.
    pub fn idle_processes(&self) -> (r: &Vec<IdleProcess>)
        ensures
            *r == self.idle,
    {
        &self.idle
    }

    /// Whether a wait holds the alert at `now`.
    pub fn holds(&self, alert: RecoveryAlert, now: i128) -> (r: bool)
        ensures
            r == is_held(self.held@, alert, now),
    {
        let mut i: usize = 0;
        while i < self.held.len()
            invariant
                i <= self.held@.len(),
                forall|j: int|
                    0 <= j < i ==> !((#[trigger] self.held@[j]).alert == alert && now
                        < self.held@[j].until),
            decreases self.held@.len() - i,
        {
            if self.held[i].alert == alert && now < self.held[i].until {
                assert(self.held@[i as int].alert == alert);
                return true;
            }
            i += 1;
        }
        false
    }

    /// The alert waits until then, and no other wait of it is left.
    pub fn hold(&mut self, alert: RecoveryAlert, until: i128)
        ensures
            final(self).held@ == without(old(self).held@, alert).push(Held { alert, until }),
            final(self).job == old(self).job,
            final(self).seen == old(self).seen,
            final(self).recheck == old(self).recheck,
            final(self).idle == old(self).idle,
    {
        let mut held = drop_held(&self.held, alert);
        held.push(Held { alert, until });
        self.held = held;
    }

    /// No wait of the alert is left.
    pub fn release(&mut self, alert: RecoveryAlert)
        ensures
            final(self).held@ == without(old(self).held@, alert),
            final(self).job == old(self).job,
            final(self).seen == old(self).seen,
            final(self).recheck == old(self).recheck,
            final(self).idle == old(self).idle,
    {
        self.held = drop_held(&self.held, alert);
    }

    /// Stop the job of `alert` (of any alert without one): what its end
    /// records, where there was one to stop. The alert's waits are dropped.
    pub fn stop_for(&mut self, alert: Option<RecoveryAlert>, outcome: &str) -> (r: Option<Json>)
        ensures
            final(self).held@ == (match alert {
                Some(alert) => without(old(self).held@, alert),
                None => old(self).held@,
            }),
            final(self).seen == old(self).seen,
            final(self).recheck == old(self).recheck,
            final(self).idle == old(self).idle,
            final(self).job == left_running(old(self).job, alert),
            match r {
                Some(payload) => old(self).job is Some && final(self).job is None && payload@
                    == stopped_payload(old(self).job->0, outcome@),
                None => final(self).job == old(self).job,
            },
    {
        if let Some(alert) = alert {
            self.held = drop_held(&self.held, alert);
        }
        let job = match self.job {
            None => return None,
            Some(job) => job,
        };
        if let Some(alert) = alert {
            if job.alert != alert {
                return None;
            }
        }
        self.job = None;
        let marker = match job.marker {
            Some(at) => Some(millis(at)),
            None => None,
        };
        Some(
            Fields::new().text("alert", job.alert.as_str()).number(
                "attempt",
                job.attempt as i128,
            ).text("outcome", outcome).with("marker_at_ms", number_or_null(marker)).done(),
        )
    }
}

impl RecoveryWatch {
    /// Stop what is followed only before the `/exit`, the job about background
    /// work and the one about idle processes: what its end records, where
    /// there was one to stop. Left running, it would hold the job of a held
    /// `/exit` back for good.
    pub fn stop_before_exit(&mut self) -> (r: Option<Json>)
        ensures
            final(self).job == left_running(
                left_running(old(self).job, Some(RecoveryAlert::LongBackground)),
                Some(RecoveryAlert::IdleProcess),
            ),
            final(self).held@ == without(
                without(old(self).held@, RecoveryAlert::LongBackground),
                RecoveryAlert::IdleProcess,
            ),
            final(self).seen == old(self).seen,
            final(self).recheck == old(self).recheck,
            final(self).idle == old(self).idle,
            match r {
                Some(payload) => old(self).job is Some && final(self).job is None && payload@
                    == stopped_payload(old(self).job->0, "exit_requested"@),
                None => final(self).job == old(self).job,
            },
    {
        let background = self.stop_for(Some(RecoveryAlert::LongBackground), "exit_requested");
        let idle = self.stop_for(Some(RecoveryAlert::IdleProcess), "exit_requested");
        match background {
            Some(payload) => Some(payload),
            None => idle,
        }
    }
}

/// The job that runs on after the stop of an alert's, of any where there is
/// none.
pub open spec fn left_running(
    job: Option<RecoveryJob>,
    alert: Option<RecoveryAlert>,
) -> Option<RecoveryJob> {
    match job {
        Some(job) => if alert is None || job.alert == alert->0 {
            None
        } else {
            Some(job)
        },
        None => None,
    }
}

/// After the stop of an alert's job no job of that alert runs; one of another
/// alert runs on.
pub proof fn a_stopped_job_is_gone(job: Option<RecoveryJob>, alert: RecoveryAlert)
    ensures
        left_running(job, Some(alert)) is Some ==> left_running(job, Some(alert))->0.alert != alert,
        job is Some && job->0.alert != alert ==> left_running(job, Some(alert)) == job,
        left_running(job, None) is None,
{
}

/// Once the `/exit` is held back, no job about background work or about idle
/// processes keeps that alert's own job from starting.
pub proof fn a_held_exit_is_followed(job: Option<RecoveryJob>)
    ensures
        ({
            let left = left_running(
                left_running(job, Some(RecoveryAlert::LongBackground)),
                Some(RecoveryAlert::IdleProcess),
            );
            left is Some ==> left->0.alert != RecoveryAlert::LongBackground && left->0.alert
                != RecoveryAlert::IdleProcess
        }),
{
}

/// The milliseconds of a marker.
pub open spec fn marker_millis(marker: Option<i128>) -> Option<int> {
    match marker {
        Some(at) => Some(in_millis(at)),
        None => None,
    }
}

/// What the end of a stopped job records.
pub open spec fn stopped_payload(job: RecoveryJob, outcome: Seq<char>) -> json::Value {
    json::Value::Object(
        json::none().push(("alert"@, json::Value::Text(job.alert.name()))).push(
            ("attempt"@, json::Value::Int(job.attempt as int)),
        ).push(("outcome"@, json::Value::Text(outcome))).push(
            ("marker_at_ms"@, int_or_null(marker_millis(job.marker))),
        ),
    )
}

/// After a wait was dropped, nothing holds the alert.
pub proof fn a_released_alert_is_not_held(held: Seq<Held>, alert: RecoveryAlert, now: i128)
    ensures
        !is_held(without(held, alert), alert, now),
    decreases held.len(),
{
    if held.len() > 0 {
        a_released_alert_is_not_held(held.drop_last(), alert, now);
        let rest = without(held.drop_last(), alert);
        if held.last().alert != alert {
            let all = rest.push(held.last());
            assert forall|i: int| 0 <= i < all.len() implies !((#[trigger] all[i]).alert == alert
                && now < all[i].until) by {
                if i < rest.len() {
                    assert(all[i] == rest[i]);
                }
            }
        }
    }
}

/// How a job that was polled stands.
pub enum JobEnd {
    Running,
    /// It printed a verdict.
    Verdict,
    Failed(String),
}

/// What has been done and observed of an alert that holds now.
#[derive(Default)]
pub struct FollowSeen {
    /// How the alert's job stands.
    pub ended: Option<JobEnd>,
    /// Whether its verdict was applied, or put to a person.
    pub applied: Option<bool>,
    /// Until when its applied `wait` holds, in milliseconds.
    pub recheck: Option<Option<i64>>,
    pub held: bool,
    pub finish_recorded: bool,
    pub failure_recorded: bool,
    /// A failed job of the alert waits for a person.
    pub failed_before: Option<bool>,
    /// How many jobs the alert got.
    pub done: Option<usize>,
    /// The event the alert is raised from.
    pub evidence: Option<i64>,
    pub requested: bool,
    pub spawned: Option<Result<(), String>>,
}

/// What following an alert does next, or what it came to.
pub enum FollowStep {
    Poll,
    Apply,
    ReadRecheck,
    Hold { until: i128 },
    Record { kind: &'static str, payload: Json },
    FailedBefore,
    CountAttempts,
    Spawn { attempt: usize },
    /// Nothing to do now: its job runs, another alert's does, or its `wait`
    /// holds.
    Pending,
    Repaired,
    /// The job failed: recovering by hand is the attention.
    Failed,
    /// A person is asked about the verdict.
    Escalate { attempt: usize },
    /// A person is asked: the alert got its jobs already.
    UsedUp { attempts: usize },
}

/// What a failed job of a live session comes to.
pub open spec fn fails(
    workspace: Seq<char>,
    alert: RecoveryAlert,
    attempt: usize,
    error: Seq<char>,
    seen: FollowSeen,
    r: FollowStep,
) -> bool {
    if !seen.finish_recorded {
        r matches FollowStep::Record { kind, payload } && kind@ == "recovery_finished"@ && payload@
            == job_failed_payload(alert, attempt, error)
    } else if !seen.failure_recorded {
        r matches FollowStep::Record { kind, payload } && kind@ == "recovery_failed"@ && payload@
            == live_failed_payload(workspace, alert, attempt, error)
    } else {
        r is Failed
    }
}

/// What `recovery_requested` records.
pub open spec fn request_payload(
    alert: RecoveryAlert,
    attempt: usize,
    evidence: Option<i64>,
    workspace: Seq<char>,
    facts: json::Value,
) -> json::Value {
    with_all(
        json::Value::Object(
            json::none().push(("alert"@, json::Value::Text(alert.name()))).push(
                ("attempt"@, json::Value::Int(attempt as int)),
            ).push(
                (
                    "evidence"@,
                    json::Value::List(
                        match evidence {
                            Some(id) => seq![json::Value::Int(id as int)],
                            None => Seq::empty(),
                        },
                    ),
                ),
            ).push(("workspace_id"@, json::Value::Text(workspace))),
        ),
        facts,
    )
}

/// What following an alert comes to.
pub open spec fn follows(
    watch: RecoveryWatch,
    alert: RecoveryAlert,
    workspace: Seq<char>,
    facts: json::Value,
    limit: usize,
    now: i128,
    seen: FollowSeen,
    r: FollowStep,
) -> bool {
    if watch.job is Some && watch.job->0.alert == alert {
        let attempt = watch.job->0.attempt;
        match seen.ended {
            None => r is Poll,
            Some(JobEnd::Running) => r is Pending,
            Some(JobEnd::Failed(error)) => fails(workspace, alert, attempt, error@, seen, r),
            Some(JobEnd::Verdict) => match seen.applied {
                None => r is Apply,
                Some(false) => r == (FollowStep::Escalate { attempt }),
                Some(true) => match seen.recheck {
                    None => r is ReadRecheck,
                    Some(Some(ms)) => if !seen.held {
                        r matches FollowStep::Hold { until } && until == from_millis(ms)
                    } else {
                        r is Repaired
                    },
                    Some(None) => r is Repaired,
                },
            },
        }
    } else if watch.job is Some || is_held(watch.held@, alert, now) {
        r is Pending
    } else if seen.failed_before is None {
        r is FailedBefore
    } else if seen.failed_before->0 {
        r is Pending
    } else if seen.done is None {
        r is CountAttempts
    } else if seen.done->0 >= limit {
        r == (FollowStep::UsedUp { attempts: seen.done->0 })
    } else {
        let attempt = (seen.done->0 + 1) as usize;
        if !seen.requested {
            r matches FollowStep::Record { kind, payload } && kind@ == "recovery_requested"@
                && payload@ == request_payload(alert, attempt, seen.evidence, workspace, facts)
        } else {
            match seen.spawned {
                None => r == (FollowStep::Spawn { attempt }),
                Some(Ok(_)) => r is Pending,
                Some(Err(error)) => fails(
                    workspace,
                    alert,
                    attempt,
                    "the recovery job could not start: "@ + error@,
                    seen,
                    r,
                ),
            }
        }
    }
}

/// Record a failed job of a live session.
fn fail(
    workspace: &str,
    alert: RecoveryAlert,
    attempt: usize,
    error: &str,
    seen: &FollowSeen,
) -> (r: FollowStep)
    ensures
        fails(workspace@, alert, attempt, error@, *seen, r),
{
    let (finished, failed) = fail_live(workspace, alert, attempt, error);
    if !seen.finish_recorded {
        return FollowStep::Record { kind: "recovery_finished", payload: finished };
    }
    if !seen.failure_recorded {
        return FollowStep::Record { kind: "recovery_failed", payload: failed };
    }
    FollowStep::Failed
}

/// What `recovery_requested` records.
pub fn request(
    alert: RecoveryAlert,
    attempt: usize,
    evidence: Option<i64>,
    workspace: &str,
    facts: &Json,
) -> (r: Json)
    ensures
        r@ == request_payload(alert, attempt, evidence, workspace@, facts@),
{
    let mut ids: Vec<Json> = Vec::new();
    assert(json::items_view(ids@) =~= Seq::empty());
    if let Some(id) = evidence {
        let ghost had = ids@;
        ids.push(Json::Int(id as i128));
        assert(ids@.drop_last() =~= had);
        assert(ids@.last().view() == json::Value::Int(id as int));
        assert(json::items_view(ids@) =~= json::items_view(had).push(
            json::Value::Int(id as int),
        ));
        assert(json::items_view(ids@) =~= seq![json::Value::Int(id as int)]);
    }
    let base = Fields::new().text("alert", alert.as_str()).number(
        "attempt",
        attempt as i128,
    ).with("evidence", Json::List(ids)).text("workspace_id", workspace).done();
    extend(base, facts)
}

impl RecoveryWatch {
    /// Follow an alert that holds now: act on its job once it ended, or start
    /// one where no job runs, no `wait` holds the alert, no failed job of it
    /// waits for a person and it did not get its jobs already.
    pub fn follow(
        &self,
        alert: RecoveryAlert,
        workspace: &str,
        facts: &Json,
        limit: usize,
        now: i128,
        seen: &FollowSeen,
    ) -> (r: FollowStep)
        ensures
            follows(*self, alert, workspace@, facts@, limit, now, *seen, r),
    {
        if let Some(job) = self.job {
            if job.alert != alert {
                return FollowStep::Pending;
            }
            return match &seen.ended {
                None => FollowStep::Poll,
                Some(JobEnd::Running) => FollowStep::Pending,
                Some(JobEnd::Failed(error)) => fail(
                    workspace,
                    alert,
                    job.attempt,
                    error.as_str(),
                    seen,
                ),
                Some(JobEnd::Verdict) => match seen.applied {
                    None => FollowStep::Apply,
                    Some(applied) => if !applied {
                        FollowStep::Escalate { attempt: job.attempt }
                    } else {
                        match seen.recheck {
                            None => FollowStep::ReadRecheck,
                            Some(Some(ms)) => if !seen.held {
                                FollowStep::Hold { until: at_millis(ms) }
                            } else {
                                FollowStep::Repaired
                            },
                            Some(None) => FollowStep::Repaired,
                        }
                    },
                },
            };
        }
        if self.holds(alert, now) {
            return FollowStep::Pending;
        }
        match seen.failed_before {
            None => return FollowStep::FailedBefore,
            Some(failed) => if failed {
                return FollowStep::Pending;
            },
        }
        let done: usize = match seen.done {
            None => return FollowStep::CountAttempts,
            Some(done) => done,
        };
        if done >= limit {
            return FollowStep::UsedUp { attempts: done };
        }
        let attempt: usize = done + 1;
        if !seen.requested {
            return FollowStep::Record {
                kind: "recovery_requested",
                payload: request(alert, attempt, seen.evidence, workspace, facts),
            };
        }
        match &seen.spawned {
            None => FollowStep::Spawn { attempt },
            Some(Ok(_)) => FollowStep::Pending,
            Some(Err(error)) => {
                let why = "the recovery job could not start: ".to_owned().concat(error.as_str());
                fail(workspace, alert, attempt, why.as_str(), seen)
            },
        }
    }
}

/// A job starts only where none runs, so that a session never has two; and an
/// alert never gets more than its jobs.
pub proof fn one_recovery_job_at_a_time(
    watch: RecoveryWatch,
    alert: RecoveryAlert,
    workspace: Seq<char>,
    facts: json::Value,
    limit: usize,
    now: i128,
    seen: FollowSeen,
    r: FollowStep,
)
    requires
        follows(watch, alert, workspace, facts, limit, now, seen, r),
        r is Spawn,
    ensures
        watch.job is None,
        !is_held(watch.held@, alert, now),
        1 <= r->Spawn_attempt <= limit,
{
}

/// What came of applying an action.
pub enum Outcome {
    /// What was stopped.
    Stopped(Result<Json, String>),
    Typed(Result<(), String>),
    /// Whether the keys were sent, or why the screen could not be read.
    Answered(Result<bool, String>),
    Closed(Result<(), String>),
    /// The wait begins now.
    Waits { now: i128 },
}

/// Whether an outcome is one of the action.
pub open spec fn fits(action: RecoveryAction, outcome: Outcome) -> bool {
    match action {
        RecoveryAction::StopProcesses { .. } => outcome is Stopped,
        RecoveryAction::SendInstruction { .. } => outcome is Typed,
        RecoveryAction::AnswerKnownDialog { .. } => outcome is Answered,
        RecoveryAction::CloseAndProceed => outcome is Closed,
        RecoveryAction::Wait { .. } => outcome matches Outcome::Waits { now } && now
            <= 0x3fff_ffff_ffff_ffff_ffff_ffff_ffff_ffff,
        _ => false,
    }
}

/// Why an action that was tried does not count.
pub open spec fn failure(outcome: Outcome) -> Option<Seq<char>> {
    match outcome {
        Outcome::Stopped(Err(error)) => Some("stopping the processes failed: "@ + error@),
        Outcome::Typed(Err(error)) => Some("the instruction could not be typed: "@ + error@),
        Outcome::Answered(Err(error)) => Some("the screen could not be read: "@ + error@),
        Outcome::Answered(Ok(false)) => Some("the known dialog's keys could not be sent"@),
        Outcome::Closed(Err(error)) => Some("its workspace could not be closed: "@ + error@),
        _ => None,
    }
}

/// Why an action that was tried does not count.
fn failed(outcome: &Outcome) -> (r: Option<String>)
    ensures
        text::opt_view(r) == failure(*outcome),
{
    match outcome {
        Outcome::Stopped(Err(error)) => Some(
            "stopping the processes failed: ".to_owned().concat(error.as_str()),
        ),
        Outcome::Typed(Err(error)) => Some(
            "the instruction could not be typed: ".to_owned().concat(error.as_str()),
        ),
        Outcome::Answered(Err(error)) => Some(
            "the screen could not be read: ".to_owned().concat(error.as_str()),
        ),
        Outcome::Answered(Ok(sent)) => if *sent {
            None
        } else {
            Some("the known dialog's keys could not be sent".to_owned())
        },
        Outcome::Closed(Err(error)) => Some(
            "its workspace could not be closed: ".to_owned().concat(error.as_str()),
        ),
        _ => None,
    }
}

/// What `auto_repaired` tells of an applied action; a dialog's answer records
/// itself, and a wait repairs nothing.
pub open spec fn repair_detail(
    action: RecoveryAction,
    outcome: Outcome,
    workspace: Seq<char>,
) -> Option<json::Value> {
    match action {
        RecoveryAction::StopProcesses { .. } => match outcome {
            Outcome::Stopped(Ok(stopped)) => Some(
                json::Value::Object(json::none().push(("processes"@, stopped@))),
            ),
            _ => None,
        },
        RecoveryAction::SendInstruction { instruction } => Some(
            json::Value::Object(
                json::none().push(("instruction"@, json::Value::Text(instruction@))).push(
                    ("workspace_id"@, json::Value::Text(workspace)),
                ),
            ),
        ),
        RecoveryAction::CloseAndProceed => Some(
            json::Value::Object(
                json::none().push(("workspace_id"@, json::Value::Text(workspace))).push(
                    (
                        "conditions"@,
                        json::Value::Object(
                            json::none().push(("review"@, json::Value::Text("pass"@))).push(
                                ("clean"@, json::Value::Bool(true)),
                            ).push(("receipt"@, json::Value::Text("head"@))).push(
                                ("reviewed"@, json::Value::Bool(true)),
                            ),
                        ),
                    ),
                ),
            ),
        ),
        _ => None,
    }
}

/// What `auto_repaired` tells of an applied action.
fn detail_of(action: &RecoveryAction, outcome: &Outcome, workspace: &str) -> (r: Option<Json>)
    ensures
        match r {
            Some(detail) => repair_detail(*action, *outcome, workspace@) == Some(detail@),
            None => repair_detail(*action, *outcome, workspace@) is None,
        },
{
    match action {
        RecoveryAction::StopProcesses { .. } => match outcome {
            Outcome::Stopped(Ok(stopped)) => Some(
                Fields::new().with("processes", stopped.copy()).done(),
            ),
            _ => None,
        },
        RecoveryAction::SendInstruction { instruction } => Some(
            Fields::new().text("instruction", instruction.as_str()).text(
                "workspace_id",
                workspace,
            ).done(),
        ),
        RecoveryAction::CloseAndProceed => {
            let conditions = Fields::new().text("review", "pass").flag("clean", true).text(
                "receipt",
                "head",
            ).flag("reviewed", true).done();
            Some(
                Fields::new().text("workspace_id", workspace).with(
                    "conditions",
                    conditions,
                ).done(),
            )
        },
        _ => None,
    }
}

/// What `auto_repaired` records of an action.
pub open spec fn repaired_payload(
    job: RecoveryJob,
    action: RecoveryAction,
    detail: json::Value,
) -> json::Value {
    with_all(
        json::Value::Object(
            json::none().push(("layer"@, json::Value::Text("recovery"@))).push(
                ("repair"@, json::Value::Text(action_name(action))),
            ).push(("alert"@, json::Value::Text(job.alert.name()))).push(
                ("attempt"@, json::Value::Int(job.attempt as int)),
            ),
        ),
        detail,
    )
}

/// The text an instruction is typed as.
pub open spec fn instruction_text(run: Seq<char>, alert: RecoveryAlert, said: Seq<char>) -> Seq<
    char,
> {
    "dagq: the supervisor's recovery job for run "@ + run + " (alert "@ + alert.name() + ") asks: "@
        + text::trimmed(said)
}

/// When the wait of the first `n` actions ends, in milliseconds.
pub open spec fn recheck_of(
    actions: Seq<RecoveryAction>,
    outcomes: Seq<Outcome>,
    most: u64,
    n: int,
) -> Option<int>
    decreases n,
{
    if n <= 0 || n > actions.len() || n > outcomes.len() {
        None
    } else {
        match actions[n - 1] {
            RecoveryAction::Wait { recheck_after_secs } => Some(
                in_millis(
                    (outcomes[n - 1]->now + least(recheck_after_secs, most) * 1_000_000_000) as i128,
                ),
            ),
            _ => recheck_of(actions, outcomes, most, n - 1),
        }
    }
}

/// The lesser of two numbers.
pub open spec fn least(a: u64, b: u64) -> u64 {
    if a < b {
        a
    } else {
        b
    }
}

/// Whether one of the actions gives the session the exit timeout again.
pub open spec fn exits_again(actions: Seq<RecoveryAction>) -> bool {
    exists|i: int|
        0 <= i < actions.len() && ((#[trigger] actions[i]) is StopProcesses
            || actions[i] is AnswerKnownDialog)
}

/// Whether one of the actions closed the workspace.
pub open spec fn is_closed(actions: Seq<RecoveryAction>) -> bool {
    exists|i: int| 0 <= i < actions.len() && (#[trigger] actions[i]) is CloseAndProceed
}

/// The names of the actions.
pub open spec fn names_of(actions: Seq<RecoveryAction>) -> Seq<Seq<char>> {
    Seq::new(actions.len(), |i: int| action_name(actions[i]))
}

/// What has been done and observed of a verdict that is applied.
#[derive(Default)]
pub struct ApplySeen {
    /// What was looked up for each action.
    pub looks: Vec<Option<Look>>,
    /// What came of the actions tried so far, and whether the last of them is
    /// recorded.
    pub outcomes: Vec<Outcome>,
    pub recorded: bool,
    pub finished: bool,
    pub duration_secs: u64,
}

/// What applying a verdict does next, or what it came to.
pub enum ApplyStep {
    /// The verdict is not applied as it is: a person is asked.
    Escalate,
    /// An action does not apply now: a person is asked, and told why.
    Refuse { why: String },
    Look { index: usize },
    /// Do the action; an instruction is typed as this text.
    Do { index: usize, typed: Option<String> },
    Record { kind: &'static str, payload: Json },
    /// The session gets the exit timeout again; its workspace was closed.
    Applied { exit_again: bool, closed: bool },
}

/// What `recovery_finished` records of an applied verdict.
pub open spec fn applied_payload(
    job: RecoveryJob,
    verdict: RecoveryVerdict,
    recheck: Option<int>,
    duration_secs: u64,
) -> json::Value {
    json::Value::Object(
        json::none().push(("alert"@, json::Value::Text(job.alert.name()))).push(
            ("attempt"@, json::Value::Int(job.attempt as int)),
        ).push(("verdict"@, json::Value::Text(verdict.verdict.name()))).push(
            ("confidence"@, json::Value::Text(verdict.confidence.name())),
        ).push(("diagnosis"@, json::Value::Text(verdict.diagnosis@))).push(
            ("applied"@, json::list_of(names_of(verdict.actions@))),
        ).push(("escalated"@, json::Value::Bool(false))).push(
            ("marker_at_ms"@, int_or_null(marker_millis(job.marker))),
        ).push(("recheck_at_ms"@, int_or_null(recheck))).push(
            ("duration_secs"@, json::Value::Int(duration_secs as int)),
        ),
    )
}

/// What a verdict whose actions hold comes to.
pub open spec fn performs(
    run: TaskRun,
    job: RecoveryJob,
    live: Live,
    verdict: RecoveryVerdict,
    most: u64,
    seen: ApplySeen,
    r: ApplyStep,
) -> bool {
    let n = seen.outcomes@.len() as int;
    let actions = verdict.actions@;
    if n > 0 && failure(seen.outcomes@[n - 1]) is Some {
        r matches ApplyStep::Refuse { why } && why@ == failure(seen.outcomes@[n - 1])->0
    } else if n > 0 && !seen.recorded && repair_detail(
        actions[n - 1],
        seen.outcomes@[n - 1],
        live.workspace@,
    ) is Some {
        r matches ApplyStep::Record { kind, payload } && kind@ == "auto_repaired"@ && payload@
            == repaired_payload(
            job,
            actions[n - 1],
            repair_detail(actions[n - 1], seen.outcomes@[n - 1], live.workspace@)->0,
        )
    } else if n < actions.len() {
        r matches ApplyStep::Do { index, typed } && index == n && text::opt_view(typed) == (
        match actions[n] {
            RecoveryAction::SendInstruction { instruction } => Some(
                instruction_text(run.id@, job.alert, instruction@),
            ),
            _ => None,
        })
    } else if !seen.finished {
        r matches ApplyStep::Record { kind, payload } && kind@ == "recovery_finished"@ && payload@
            == applied_payload(
            job,
            verdict,
            recheck_of(actions, seen.outcomes@, most, n),
            seen.duration_secs,
        )
    } else {
        r == (ApplyStep::Applied { exit_again: exits_again(actions), closed: is_closed(actions) })
    }
}

/// What applying a verdict comes to.
pub open spec fn applies(
    run: TaskRun,
    job: RecoveryJob,
    live: Live,
    verdict: RecoveryVerdict,
    most: u64,
    seen: ApplySeen,
    r: ApplyStep,
) -> bool {
    if !verdict.is_applied() {
        r is Escalate
    } else if seen.outcomes@.len() == 0 && !checks(
        verdict.actions@,
        live,
        seen.looks@,
        CheckStep::Holds,
    ) {
        match r {
            ApplyStep::Look { index } => checks(
                verdict.actions@,
                live,
                seen.looks@,
                CheckStep::Look { index },
            ),
            ApplyStep::Refuse { why } => checks(
                verdict.actions@,
                live,
                seen.looks@,
                CheckStep::Refused(why),
            ),
            _ => false,
        }
    } else {
        performs(run, job, live, verdict, most, seen, r)
    }
}

/// The names of the actions.
fn action_names(actions: &Vec<RecoveryAction>) -> (r: Vec<String>)
    ensures
        text::views(r@) == names_of(actions@),
{
    let mut out: Vec<String> = Vec::new();
    let mut i: usize = 0;
    while i < actions.len()
        invariant
            i <= actions@.len(),
            out@.len() == i,
            forall|j: int| 0 <= j < i ==> (#[trigger] out@[j])@ == action_name(actions@[j]),
        decreases actions@.len() - i,
    {
        out.push(actions[i].name().to_owned());
        i += 1;
    }
    assert(text::views(out@) =~= names_of(actions@));
    out
}

/// Whether the actions give the session the exit timeout again, and whether
/// they closed its workspace.
fn effects(actions: &Vec<RecoveryAction>) -> (r: (bool, bool))
    ensures
        r.0 == exits_again(actions@),
        r.1 == is_closed(actions@),
{
    let mut again = false;
    let mut closed = false;
    let mut i: usize = 0;
    while i < actions.len()
        invariant
            i <= actions@.len(),
            again ==> exits_again(actions@),
            !again ==> forall|j: int|
                0 <= j < i ==> !((#[trigger] actions@[j]) is StopProcesses
                    || actions@[j] is AnswerKnownDialog),
            closed ==> is_closed(actions@),
            !closed ==> forall|j: int| 0 <= j < i ==> (#[trigger] actions@[j]) !is CloseAndProceed,
        decreases actions@.len() - i,
    {
        match &actions[i] {
            RecoveryAction::StopProcesses { .. } => {
                assert(actions@[i as int] is StopProcesses);
                again = true;
            },
            RecoveryAction::AnswerKnownDialog { .. } => {
                assert(actions@[i as int] is AnswerKnownDialog);
                again = true;
            },
            RecoveryAction::CloseAndProceed => {
                assert(actions@[i as int] is CloseAndProceed);
                closed = true;
            },
            _ => {},
        }
        i += 1;
    }
    (again, closed)
}

/// When the wait of the actions ends, in milliseconds.
fn find_recheck(actions: &Vec<RecoveryAction>, outcomes: &Vec<Outcome>, most: u64) -> (r: Option<
    i64,
>)
    requires
        actions@.len() == outcomes@.len(),
        forall|i: int| 0 <= i < outcomes@.len() ==> fits(#[trigger] actions@[i], outcomes@[i]),
    ensures
        recheck_of(actions@, outcomes@, most, actions@.len() as int) == (match r {
            Some(ms) => Some(ms as int),
            None => None,
        }),
{
    let mut n: usize = actions.len();
    while n > 0
        invariant
            n <= actions@.len(),
            actions@.len() == outcomes@.len(),
            forall|i: int| 0 <= i < outcomes@.len() ==> fits(#[trigger] actions@[i], outcomes@[i]),
            recheck_of(actions@, outcomes@, most, actions@.len() as int) == recheck_of(
                actions@,
                outcomes@,
                most,
                n as int,
            ),
        decreases n,
    {
        n -= 1;
        if let RecoveryAction::Wait { recheck_after_secs } = &actions[n] {
            assert(fits(actions@[n as int], outcomes@[n as int]));
            if let Outcome::Waits { now } = &outcomes[n] {
                let secs: u64 = if *recheck_after_secs < most {
                    *recheck_after_secs
                } else {
                    most
                };
                let until: i128 = *now + secs as i128 * 1_000_000_000;
                return Some(millis(until));
            }
        }
    }
    None
}

/// Apply a verdict to a live session: a repair of high confidence whose every
/// action holds now. Each is done in order and recorded; the first that cannot
/// be done refuses the rest. Anything else is put to a person. A wait holds for
/// at most `most` seconds.
pub fn apply_live(
    run: &TaskRun,
    job: &RecoveryJob,
    live: &Live,
    verdict: &RecoveryVerdict,
    most: u64,
    seen: &ApplySeen,
) -> (r: ApplyStep)
    requires
        seen.looks@.len() == verdict.actions@.len(),
        seen.outcomes@.len() <= verdict.actions@.len(),
        forall|i: int|
            0 <= i < seen.outcomes@.len() ==> fits(
                #[trigger] verdict.actions@[i],
                seen.outcomes@[i],
            ),
    ensures
        applies(*run, *job, *live, *verdict, most, *seen, r),
{
    if !verdict.applies() {
        return ApplyStep::Escalate;
    }
    let n: usize = seen.outcomes.len();
    if n == 0 {
        match check_live(&verdict.actions, live, &seen.looks) {
            CheckStep::Look { index } => return ApplyStep::Look { index },
            CheckStep::Refused(why) => return ApplyStep::Refuse { why },
            CheckStep::Holds => {},
        }
    }
    if n > 0 {
        let outcome = &seen.outcomes[n - 1];
        if let Some(why) = failed(outcome) {
            return ApplyStep::Refuse { why };
        }
        if !seen.recorded {
            let action = &verdict.actions[n - 1];
            if let Some(detail) = detail_of(action, outcome, live.workspace.as_str()) {
                let base = Fields::new().text("layer", "recovery").text(
                    "repair",
                    action.name(),
                ).text("alert", job.alert.as_str()).number("attempt", job.attempt as i128).done();
                return ApplyStep::Record {
                    kind: "auto_repaired",
                    payload: extend(base, &detail),
                };
            }
        }
    }
    if n < verdict.actions.len() {
        let typed = match &verdict.actions[n] {
            RecoveryAction::SendInstruction { instruction } => {
                let said = text::trim(instruction.as_str());
                Some(
                    "dagq: the supervisor's recovery job for run ".to_owned().concat(
                        run.id.as_str(),
                    ).concat(" (alert ").concat(job.alert.as_str()).concat(") asks: ").concat(
                        said.as_str(),
                    ),
                )
            },
            _ => None,
        };
        return ApplyStep::Do { index: n, typed };
    }
    if !seen.finished {
        let names = action_names(&verdict.actions);
        let recheck = find_recheck(&verdict.actions, &seen.outcomes, most);
        let marker = match job.marker {
            Some(at) => Some(millis(at)),
            None => None,
        };
        let payload = Fields::new().text("alert", job.alert.as_str()).number(
            "attempt",
            job.attempt as i128,
        ).text("verdict", verdict.verdict.as_str()).text(
            "confidence",
            verdict.confidence.as_str(),
        ).text("diagnosis", verdict.diagnosis.as_str()).texts("applied", &names).flag(
            "escalated",
            false,
        ).with("marker_at_ms", number_or_null(marker)).with(
            "recheck_at_ms",
            number_or_null(recheck),
        ).number("duration_secs", seen.duration_secs as i128).done();
        return ApplyStep::Record { kind: "recovery_finished", payload };
    }
    let (exit_again, closed) = effects(&verdict.actions);
    ApplyStep::Applied { exit_again, closed }
}

/// An action is done only of a verdict that is sure of its repair, and the
/// first only once every action was found to hold.
pub proof fn only_a_sure_repair_acts(
    run: TaskRun,
    job: RecoveryJob,
    live: Live,
    verdict: RecoveryVerdict,
    most: u64,
    seen: ApplySeen,
    r: ApplyStep,
)
    requires
        applies(run, job, live, verdict, most, seen, r),
        r is Do,
    ensures
        verdict.is_applied(),
        seen.outcomes@.len() == 0 ==> checks(
            verdict.actions@,
            live,
            seen.looks@,
            CheckStep::Holds,
        ),
        forall|i: int|
            #![trigger seen.outcomes@[i]]
            i == seen.outcomes@.len() - 1 && i >= 0 ==> failure(seen.outcomes@[i]) is None,
{
}

/// Whether an event is the end of a job's verdict.
pub open spec fn ends_job(event: RunEvent, alert: RecoveryAlert, attempt: usize) -> bool {
    event.is_kind("recovery_finished"@) && json::at(event.payload@, "alert"@) == json::Value::Text(
        alert.name(),
    ) && json::int_of(json::at(event.payload@, "attempt"@)) == Some(attempt as int)
}

/// The latest of the first `n` events that ends a job's verdict.
pub open spec fn last_end(
    events: Seq<RunEvent>,
    alert: RecoveryAlert,
    attempt: usize,
    n: int,
) -> Option<RunEvent>
    decreases n,
{
    if n <= 0 || n > events.len() {
        None
    } else if ends_job(events[n - 1], alert, attempt) {
        Some(events[n - 1])
    } else {
        last_end(events, alert, attempt, n - 1)
    }
}

/// When the `wait` of a job's applied verdict ends, in milliseconds, from its
/// record.
pub fn applied_recheck(events: &Vec<RunEvent>, alert: RecoveryAlert, attempt: usize) -> (r: Option<
    i64,
>)
    requires
        attempt <= i64::MAX,
    ensures
        match last_end(events@, alert, attempt, events@.len() as int) {
            Some(event) => match r {
                Some(ms) => json::int_of(json::at(event.payload@, "recheck_at_ms"@)) == Some(
                    ms as int,
                ),
                None => json::int_of(json::at(event.payload@, "recheck_at_ms"@)) is None,
            },
            None => r is None,
        },
{
    let mut n: usize = events.len();
    while n > 0
        invariant
            n <= events@.len(),
            attempt <= i64::MAX,
            last_end(events@, alert, attempt, events@.len() as int) == last_end(
                events@,
                alert,
                attempt,
                n as int,
            ),
        decreases n,
    {
        n -= 1;
        let event = &events[n];
        if event.of_kind("recovery_finished") && event.payload.says("alert", alert.as_str())
            && event.payload.is_int("attempt", attempt as i64) {
            return event.payload.integer("recheck_at_ms");
        }
    }
    None
}

/// How often the processes are sampled for idle ones, in seconds: a tenth of
/// the threshold, between one second and a minute.
pub fn sample_interval(threshold_secs: i64) -> (r: u64)
    ensures
        r == (if threshold_secs < 20 {
            1
        } else if threshold_secs >= 600 {
            60
        } else {
            threshold_secs as int / 10
        }),
{
    if threshold_secs < 20 {
        1
    } else if threshold_secs >= 600 {
        60
    } else {
        (threshold_secs / 10) as u64
    }
}

/// Whether a `wait` applied to an alert of idle processes lets the same
/// processes raise it again once the wait is over.
pub fn after_idle(applied: &Vec<String>) -> (r: bool)
    ensures
        r == text::views(applied@).contains("wait"@),
{
    text::lists(applied, "wait")
}

/// What has been observed of the run's processes.
#[derive(Default)]
pub struct IdleSeen {
    /// How long idle processes are watched for, in nanoseconds.
    pub watched: Option<u128>,
    /// A new sample of the processes was taken.
    pub sampled: Option<bool>,
    /// The run's own processes could be told.
    pub own: Option<bool>,
    /// Some of them are idle.
    pub idle: Option<bool>,
}

/// What looking for idle processes does next.
#[derive(Debug, Clone, Copy, PartialEq, Eq, Structural)]
pub enum IdleStep {
    /// Follow the job in progress.
    Follow,
    Pending,
    /// The watch begins now.
    Begin,
    Sample { interval_secs: u64 },
    Own,
    Judge,
    /// Follow the alert of the idle processes.
    Alert,
}

/// What looking for idle processes comes to.
pub open spec fn looks_for_idle(
    job: Option<RecoveryJob>,
    threshold_secs: i64,
    seen: IdleSeen,
    r: IdleStep,
) -> bool {
    let interval = if threshold_secs < 20 {
        1
    } else if threshold_secs >= 600 {
        60
    } else {
        threshold_secs as int / 10
    };
    if job is Some {
        if job->0.alert == RecoveryAlert::IdleProcess {
            r is Follow
        } else {
            r is Pending
        }
    } else if seen.watched is None {
        r is Begin
    } else if seen.watched->0 < interval * 1_000_000_000 {
        r is Pending
    } else if seen.sampled is None {
        r matches IdleStep::Sample { interval_secs } && interval_secs == interval
    } else if !seen.sampled->0 {
        r is Pending
    } else if seen.own is None {
        r is Own
    } else if !seen.own->0 {
        r is Pending
    } else if seen.idle is None {
        r is Judge
    } else if !seen.idle->0 {
        r is Pending
    } else {
        r is Alert
    }
}

/// One look at the run's processes: follow the alert's job in progress, or, at
/// each new sample, raise it where a process of the run has used almost no CPU
/// time for the threshold and no other alert's job runs. The first sample waits
/// one sample interval, so that a short session is never sampled.
pub fn watch_idle(job: &Option<RecoveryJob>, threshold_secs: i64, seen: &IdleSeen) -> (r: IdleStep)
    ensures
        looks_for_idle(*job, threshold_secs, *seen, r),
{
    if let Some(job) = job {
        return if job.alert == RecoveryAlert::IdleProcess {
            IdleStep::Follow
        } else {
            IdleStep::Pending
        };
    }
    let interval: u64 = sample_interval(threshold_secs);
    match seen.watched {
        None => return IdleStep::Begin,
        Some(watched) => if watched < interval as u128 * 1_000_000_000 {
            return IdleStep::Pending;
        },
    }
    match seen.sampled {
        None => return IdleStep::Sample { interval_secs: interval },
        Some(sampled) => if !sampled {
            return IdleStep::Pending;
        },
    }
    match seen.own {
        None => return IdleStep::Own,
        Some(own) => if !own {
            return IdleStep::Pending;
        },
    }
    match seen.idle {
        None => IdleStep::Judge,
        Some(idle) => if idle {
            IdleStep::Alert
        } else {
            IdleStep::Pending
        },
    }
}

/// A process of the run.
pub struct ProcessInfo {
    pub pid: u32,
    pub ppid: u32,
    pub command: String,
    pub cwd: Option<String>,
}

/// The place of the first process with the pid, from `i`.
pub open spec fn place_of(own: Seq<ProcessInfo>, pid: u32, i: int) -> Option<int>
    decreases own.len() - i,
{
    if i < 0 || i >= own.len() {
        None
    } else if own[i].pid == pid {
        Some(i)
    } else {
        place_of(own, pid, i + 1)
    }
}

/// For each pid its place among the run's own processes, right before they are
/// stopped: a pid no longer among them ended by itself, or is another process
/// now, and is left alone.
pub fn stop_targets(pids: &Vec<u32>, own: &Vec<ProcessInfo>) -> (r: Vec<Option<usize>>)
    ensures
        r@.len() == pids@.len(),
        forall|i: int|
            0 <= i < pids@.len() ==> match #[trigger] r@[i] {
                Some(place) => place < own@.len() && place_of(own@, pids@[i], 0) == Some(
                    place as int,
                ) && own@[place as int].pid == pids@[i],
                None => place_of(own@, pids@[i], 0) is None,
            },
{
    let mut out: Vec<Option<usize>> = Vec::new();
    let mut i: usize = 0;
    while i < pids.len()
        invariant
            i <= pids@.len(),
            out@.len() == i,
            forall|k: int|
                0 <= k < i ==> match #[trigger] out@[k] {
                    Some(place) => place < own@.len() && place_of(own@, pids@[k], 0) == Some(
                        place as int,
                    ) && own@[place as int].pid == pids@[k],
                    None => place_of(own@, pids@[k], 0) is None,
                },
        decreases pids@.len() - i,
    {
        let pid: u32 = pids[i];
        let mut found: Option<usize> = None;
        let mut j: usize = 0;
        while j < own.len() && found.is_none()
            invariant
                j <= own@.len(),
                match found {
                    Some(place) => place < own@.len() && place_of(own@, pid, 0) == Some(
                        place as int,
                    ) && own@[place as int].pid == pid,
                    None => place_of(own@, pid, 0) == place_of(own@, pid, j as int),
                },
            decreases own@.len() - j,
        {
            if own[j].pid == pid {
                found = Some(j);
            }
            j += 1;
        }
        out.push(found);
        i += 1;
    }
    out
}

/// What is recorded of a stopped process.
pub open spec fn stopped_value(process: ProcessInfo, killed: bool) -> json::Value {
    json::Value::Object(
        json::none().push(("pid"@, json::Value::Int(process.pid as int))).push(
            ("ppid"@, json::Value::Int(process.ppid as int)),
        ).push(("command"@, json::Value::Text(process.command@))).push(
            ("cwd"@, json::text_or_null(text::opt_view(process.cwd))),
        ).push(("killed"@, json::Value::Bool(killed))),
    )
}

/// What is recorded of a process that was stopped, by a kill where the grace
/// ran out.
pub fn stopped_record(process: &ProcessInfo, killed: bool) -> (r: Json)
    ensures
        r@ == stopped_value(*process, killed),
{
    Fields::new().number("pid", process.pid as i128).number("ppid", process.ppid as i128).text(
        "command",
        process.command.as_str(),
    ).opt_text("cwd", &process.cwd).flag("killed", killed).done()
}

/// What is recorded of a process that was gone.
pub open spec fn gone_value(pid: u32) -> json::Value {
    json::Value::Object(
        json::none().push(("pid"@, json::Value::Int(pid as int))).push(
            ("gone"@, json::Value::Bool(true)),
        ),
    )
}

/// What is recorded of a process that was gone.
pub fn gone_record(pid: u32) -> (r: Json)
    ensures
        r@ == gone_value(pid),
{
    Fields::new().number("pid", pid as i128).flag("gone", true).done()
}

/// The processes that a run's own are told by.
#[derive(Debug, Clone, Copy, PartialEq, Eq, Structural)]
pub struct OwnRoots {
    pub wrapper: u32,
    pub agent: u32,
}

/// The pid of the first process of the role, from `from` on.
pub open spec fn pid_of(processes: Seq<RunProcess>, role: Seq<char>, from: int) -> Option<u32>
    decreases processes.len() - from,
{
    if from < 0 || from >= processes.len() {
        None
    } else if processes[from].role@ == role {
        Some(processes[from].pid)
    } else {
        pid_of(processes, role, from + 1)
    }
}

/// The pid of the first process of the role.
fn find_pid(processes: &Vec<RunProcess>, role: &str) -> (r: Option<u32>)
    ensures
        r == pid_of(processes@, role@, 0),
{
    let mut i: usize = 0;
    while i < processes.len()
        invariant
            i <= processes@.len(),
            pid_of(processes@, role@, 0) == pid_of(processes@, role@, i as int),
        decreases processes@.len() - i,
    {
        if text::same(processes[i].role.as_str(), role) {
            return Some(processes[i].pid);
        }
        i += 1;
    }
    None
}

/// The processes that a run's own are told by, or why they cannot be told.
pub fn own_roots(run: &TaskRun, processes: &Vec<RunProcess>) -> (r: Result<OwnRoots, String>)
    ensures
        if run.worktree_path is None {
            r matches Err(why) && why@ == "the run has no worktree"@
        } else {
            match (pid_of(processes@, "wrapper"@, 0), pid_of(processes@, "agent"@, 0)) {
                (None, _) => r matches Err(why) && why@
                    == "the session's wrapper is not registered"@,
                (Some(_), None) => r matches Err(why) && why@
                    == "the session's agent is not registered"@,
                (Some(wrapper), Some(agent)) => r == Ok::<OwnRoots, String>(
                    OwnRoots { wrapper, agent },
                ),
            }
        },
{
    if run.worktree_path.is_none() {
        return Err("the run has no worktree".to_owned());
    }
    let wrapper: u32 = match find_pid(processes, "wrapper") {
        None => return Err("the session's wrapper is not registered".to_owned()),
        Some(pid) => pid,
    };
    match find_pid(processes, "agent") {
        None => Err("the session's agent is not registered".to_owned()),
        Some(agent) => Ok(OwnRoots { wrapper, agent }),
    }
}

/// What has been done and observed of a process that is stopped.
#[derive(Default)]
pub struct StopSeen {
    /// What the request to terminate it gave.
    pub terminated: Option<Result<(), String>>,
    /// It is there after a request that was refused.
    pub refused_alive: Option<bool>,
    /// It is there after the grace.
    pub alive: Option<bool>,
    pub killed: Option<Result<(), String>>,
    /// It is there after a kill that was refused.
    pub killed_alive: Option<bool>,
}

/// What has been done and observed of processes that are stopped.
#[derive(Default)]
pub struct StoppingSeen {
    /// Of each pid that is named.
    pub each: Vec<StopSeen>,
    /// Those that were asked to end had the grace.
    pub waited: bool,
}

/// What stopping processes does next, of the pid at `index` where it is about
/// one, or what it came to.
pub enum StopStep {
    Terminate { index: usize },
    /// Whether it is there although the request was refused.
    RefusedAlive { index: usize },
    /// Wait for those that were asked to end, at most for the grace.
    Wait { secs: u64 },
    /// Whether it is there after the grace.
    StillAlive { index: usize },
    Kill { index: usize },
    /// Whether it is there although the kill was refused.
    KilledAlive { index: usize },
    /// The others are stopped; what is recorded of each.
    Stopped { records: Json },
    Failed(String),
}

/// A process was asked to end: a refusal counts only where it is still there.
pub open spec fn was_asked(seen: StopSeen) -> bool {
    match seen.terminated {
        None => false,
        Some(Ok(_)) => true,
        Some(Err(_)) => seen.refused_alive == Some(false),
    }
}

/// A process ended within the grace, or by a kill; a refusal counts only where
/// it is still there.
pub open spec fn was_ended(seen: StopSeen) -> bool {
    match seen.alive {
        None => false,
        Some(false) => true,
        Some(true) => match seen.killed {
            None => false,
            Some(Ok(_)) => true,
            Some(Err(_)) => seen.killed_alive == Some(false),
        },
    }
}

/// The first of the run's own processes that was not asked to end, from `from`
/// on.
pub open spec fn unasked(
    pids: Seq<u32>,
    own: Seq<ProcessInfo>,
    each: Seq<StopSeen>,
    from: int,
) -> Option<int>
    decreases pids.len() - from,
{
    if from < 0 || from >= pids.len() {
        None
    } else if place_of(own, pids[from], 0) is Some && !was_asked(each[from]) {
        Some(from)
    } else {
        unasked(pids, own, each, from + 1)
    }
}

/// The first of the run's own processes that did not end, from `from` on.
pub open spec fn unended(
    pids: Seq<u32>,
    own: Seq<ProcessInfo>,
    each: Seq<StopSeen>,
    from: int,
) -> Option<int>
    decreases pids.len() - from,
{
    if from < 0 || from >= pids.len() {
        None
    } else if place_of(own, pids[from], 0) is Some && !was_ended(each[from]) {
        Some(from)
    } else {
        unended(pids, own, each, from + 1)
    }
}

/// What is recorded of those of the first `n` pids that were stopped.
pub open spec fn stopped_values(
    pids: Seq<u32>,
    own: Seq<ProcessInfo>,
    each: Seq<StopSeen>,
    n: int,
) -> Seq<json::Value>
    decreases n,
{
    if n <= 0 {
        Seq::empty()
    } else {
        let before = stopped_values(pids, own, each, n - 1);
        match place_of(own, pids[n - 1], 0) {
            Some(place) => before.push(
                stopped_value(own[place], each[n - 1].alive == Some(true)),
            ),
            None => before,
        }
    }
}

/// What is recorded of those of the first `n` pids that were gone.
pub open spec fn gone_values(pids: Seq<u32>, own: Seq<ProcessInfo>, n: int) -> Seq<json::Value>
    decreases n,
{
    if n <= 0 {
        Seq::empty()
    } else {
        let before = gone_values(pids, own, n - 1);
        match place_of(own, pids[n - 1], 0) {
            Some(_) => before,
            None => before.push(gone_value(pids[n - 1])),
        }
    }
}

/// What asking a process to end comes to.
pub open spec fn asks_to_end(pid: u32, seen: StopSeen, i: int, r: StopStep) -> bool {
    match seen.terminated {
        None => r matches StopStep::Terminate { index } && index == i,
        Some(Err(error)) if seen.refused_alive is Some => r matches StopStep::Failed(why) && why@
            == "stop pid "@ + text::decimal(pid as nat) + ": "@ + error@,
        Some(_) => r matches StopStep::RefusedAlive { index } && index == i,
    }
}

/// What ending a process that was asked to comes to.
pub open spec fn makes_end(pid: u32, seen: StopSeen, i: int, r: StopStep) -> bool {
    if seen.alive is None {
        r matches StopStep::StillAlive { index } && index == i
    } else {
        match seen.killed {
            None => r matches StopStep::Kill { index } && index == i,
            Some(Err(error)) if seen.killed_alive is Some => r matches StopStep::Failed(why)
                && why@ == "kill pid "@ + text::decimal(pid as nat) + ": "@ + error@,
            Some(_) => r matches StopStep::KilledAlive { index } && index == i,
        }
    }
}

/// What stopping processes comes to.
pub open spec fn stops(
    pids: Seq<u32>,
    own: Seq<ProcessInfo>,
    seen: StoppingSeen,
    r: StopStep,
) -> bool {
    match unasked(pids, own, seen.each@, 0) {
        Some(i) => asks_to_end(pids[i], seen.each@[i], i, r),
        None => if !seen.waited {
            r == (StopStep::Wait { secs: STOP_GRACE_SECS })
        } else {
            match unended(pids, own, seen.each@, 0) {
                Some(i) => makes_end(pids[i], seen.each@[i], i, r),
                None => r matches StopStep::Stopped { records } && records@ == json::Value::List(
                    stopped_values(pids, own, seen.each@, pids.len() as int) + gone_values(
                        pids,
                        own,
                        pids.len() as int,
                    ),
                ),
            }
        },
    }
}

/// Why a process could not be stopped.
fn not_stopped(what: &str, pid: u32, error: &str) -> (r: StopStep)
    ensures
        r matches StopStep::Failed(why) && why@ == what@ + " pid "@ + text::decimal(pid as nat)
            + ": "@ + error@,
{
    let n = text::number(pid as u64);
    StopStep::Failed(
        what.to_owned().concat(" pid ").concat(n.as_str()).concat(": ").concat(error),
    )
}

/// The next step of asking a process to end; none where it was asked.
fn ask_to_end(pid: u32, seen: &StopSeen, index: usize) -> (r: Option<StopStep>)
    ensures
        match r {
            None => was_asked(*seen),
            Some(step) => !was_asked(*seen) && asks_to_end(pid, *seen, index as int, step),
        },
{
    match &seen.terminated {
        None => Some(StopStep::Terminate { index }),
        Some(Ok(_)) => None,
        Some(Err(error)) => match seen.refused_alive {
            None => Some(StopStep::RefusedAlive { index }),
            Some(alive) => if alive {
                proof {
                    reveal_strlit("stop");
                    reveal_strlit(" pid ");
                    reveal_strlit("stop pid ");
                    assert("stop"@ + " pid "@ =~= "stop pid "@);
                }
                Some(not_stopped("stop", pid, error.as_str()))
            } else {
                None
            },
        },
    }
}

/// The next step of ending a process that was asked to; none where it ended.
fn make_end(pid: u32, seen: &StopSeen, index: usize) -> (r: Option<StopStep>)
    ensures
        match r {
            None => was_ended(*seen),
            Some(step) => !was_ended(*seen) && makes_end(pid, *seen, index as int, step),
        },
{
    match seen.alive {
        None => return Some(StopStep::StillAlive { index }),
        Some(alive) => if !alive {
            return None;
        },
    }
    match &seen.killed {
        None => Some(StopStep::Kill { index }),
        Some(Ok(_)) => None,
        Some(Err(error)) => match seen.killed_alive {
            None => Some(StopStep::KilledAlive { index }),
            Some(alive) => if alive {
                proof {
                    reveal_strlit("kill");
                    reveal_strlit(" pid ");
                    reveal_strlit("kill pid ");
                    assert("kill"@ + " pid "@ =~= "kill pid "@);
                }
                Some(not_stopped("kill", pid, error.as_str()))
            } else {
                None
            },
        },
    }
}

/// Stop the run's own among the processes: each is asked to end, they get one
/// grace together, and those that are still there are killed. A refusal counts
/// only where the process is still there; it leaves the rest as they are. A pid
/// that is not the run's own any more is left alone and recorded as gone.
pub fn stop_processes(pids: &Vec<u32>, own: &Vec<ProcessInfo>, seen: &StoppingSeen) -> (r: StopStep)
    requires
        seen.each@.len() == pids@.len(),
    ensures
        stops(pids@, own@, *seen, r),
{
    let targets = stop_targets(pids, own);
    let mut i: usize = 0;
    while i < pids.len()
        invariant
            i <= pids@.len(),
            seen.each@.len() == pids@.len(),
            targets@.len() == pids@.len(),
            forall|k: int|
                0 <= k < pids@.len() ==> match #[trigger] targets@[k] {
                    Some(place) => place_of(own@, pids@[k], 0) == Some(place as int),
                    None => place_of(own@, pids@[k], 0) is None,
                },
            unasked(pids@, own@, seen.each@, 0) == unasked(pids@, own@, seen.each@, i as int),
        decreases pids@.len() - i,
    {
        if targets[i].is_some() {
            if let Some(step) = ask_to_end(pids[i], &seen.each[i], i) {
                return step;
            }
        }
        i += 1;
    }
    if !seen.waited {
        return StopStep::Wait { secs: STOP_GRACE_SECS };
    }
    let mut i: usize = 0;
    while i < pids.len()
        invariant
            i <= pids@.len(),
            seen.each@.len() == pids@.len(),
            targets@.len() == pids@.len(),
            forall|k: int|
                0 <= k < pids@.len() ==> match #[trigger] targets@[k] {
                    Some(place) => place_of(own@, pids@[k], 0) == Some(place as int),
                    None => place_of(own@, pids@[k], 0) is None,
                },
            unasked(pids@, own@, seen.each@, 0) is None,
            seen.waited,
            unended(pids@, own@, seen.each@, 0) == unended(pids@, own@, seen.each@, i as int),
        decreases pids@.len() - i,
    {
        if targets[i].is_some() {
            if let Some(step) = make_end(pids[i], &seen.each[i], i) {
                return step;
            }
        }
        i += 1;
    }
    let mut records: Vec<Json> = Vec::new();
    let mut gone: Vec<Json> = Vec::new();
    let mut i: usize = 0;
    while i < pids.len()
        invariant
            i <= pids@.len(),
            seen.each@.len() == pids@.len(),
            targets@.len() == pids@.len(),
            forall|k: int|
                0 <= k < pids@.len() ==> match #[trigger] targets@[k] {
                    Some(place) => place < own@.len() && place_of(own@, pids@[k], 0) == Some(
                        place as int,
                    ),
                    None => place_of(own@, pids@[k], 0) is None,
                },
            json::items_view(records@) == stopped_values(pids@, own@, seen.each@, i as int),
            json::items_view(gone@) == gone_values(pids@, own@, i as int),
        decreases pids@.len() - i,
    {
        let ghost had = records@;
        let ghost were = gone@;
        match targets[i] {
            Some(place) => {
                let killed = match seen.each[i].alive {
                    Some(alive) => alive,
                    None => false,
                };
                records.push(stopped_record(&own[place], killed));
                assert(records@.drop_last() =~= had);
            },
            None => {
                gone.push(gone_record(pids[i]));
                assert(gone@.drop_last() =~= were);
            },
        }
        i += 1;
    }
    proof {
        json::items_joined(records@, gone@);
    }
    records.append(&mut gone);
    StopStep::Stopped { records: Json::List(records) }
}

/// All before the first that was not asked were.
proof fn asked_before(pids: Seq<u32>, own: Seq<ProcessInfo>, each: Seq<StopSeen>, from: int)
    requires
        0 <= from,
        unasked(pids, own, each, from) is None,
    ensures
        forall|i: int|
            from <= i < pids.len() && place_of(own, pids[i], 0) is Some ==> was_asked(
                #[trigger] each[i],
            ),
    decreases pids.len() - from,
{
    if from < pids.len() {
        asked_before(pids, own, each, from + 1);
    }
}

/// The first that did not end is one of the run's own.
proof fn unended_is_own(pids: Seq<u32>, own: Seq<ProcessInfo>, each: Seq<StopSeen>, from: int)
    requires
        0 <= from,
        unended(pids, own, each, from) is Some,
    ensures
        from <= unended(pids, own, each, from)->0 < pids.len(),
        place_of(own, pids[unended(pids, own, each, from)->0], 0) is Some,
        !was_ended(each[unended(pids, own, each, from)->0]),
    decreases pids.len() - from,
{
    if from < pids.len() && !(place_of(own, pids[from], 0) is Some && !was_ended(each[from])) {
        unended_is_own(pids, own, each, from + 1);
    }
}

/// The first that was not asked is one of the run's own.
proof fn unasked_is_own(pids: Seq<u32>, own: Seq<ProcessInfo>, each: Seq<StopSeen>, from: int)
    requires
        0 <= from,
        unasked(pids, own, each, from) is Some,
    ensures
        from <= unasked(pids, own, each, from)->0 < pids.len(),
        place_of(own, pids[unasked(pids, own, each, from)->0], 0) is Some,
    decreases pids.len() - from,
{
    if from < pids.len() && !(place_of(own, pids[from], 0) is Some && !was_asked(each[from])) {
        unasked_is_own(pids, own, each, from + 1);
    }
}

/// A process is killed only after all of them were asked to end and had the
/// grace, and it stayed.
pub proof fn a_kill_comes_after_the_grace(
    pids: Seq<u32>,
    own: Seq<ProcessInfo>,
    seen: StoppingSeen,
    r: StopStep,
)
    requires
        seen.each@.len() == pids.len(),
        stops(pids, own, seen, r),
        r is Kill,
    ensures
        forall|i: int|
            0 <= i < pids.len() && place_of(own, pids[i], 0) is Some ==> was_asked(
                #[trigger] seen.each@[i],
            ),
        seen.waited,
        seen.each@[r->Kill_index as int].alive == Some(true),
{
    asked_before(pids, own, seen.each@, 0);
    unended_is_own(pids, own, seen.each@, 0);
}

/// Only processes of the run's own are asked to end or killed.
pub proof fn only_own_processes_are_stopped(
    pids: Seq<u32>,
    own: Seq<ProcessInfo>,
    seen: StoppingSeen,
    r: StopStep,
)
    requires
        seen.each@.len() == pids.len(),
        stops(pids, own, seen, r),
    ensures
        r matches StopStep::Terminate { index } ==> index < pids.len() && place_of(
            own,
            pids[index as int],
            0,
        ) is Some,
        r matches StopStep::Kill { index } ==> index < pids.len() && place_of(
            own,
            pids[index as int],
            0,
        ) is Some,
{
    if unasked(pids, own, seen.each@, 0) is Some {
        unasked_is_own(pids, own, seen.each@, 0);
    } else if seen.waited && unended(pids, own, seen.each@, 0) is Some {
        unended_is_own(pids, own, seen.each@, 0);
    }
}

/// Whether the processes are listed again: the last listing, taken at `at`, is
/// older than the interval.
pub fn sample_due(at: Option<u128>, now: u128, interval: u128) -> (r: bool)
    ensures
        r == (at is None || passed(at->0, now) >= interval),
{
    match at {
        Some(at) => since(at, now) >= interval,
        None => true,
    }
}

/// Whether a listing is new: there is one, and it is not the one taken `last`.
pub fn sample_new(sample: Option<i128>, last: Option<i128>) -> (r: bool)
    ensures
        r == (sample is Some && sample != last),
{
    match sample {
        None => false,
        Some(at) => match last {
            None => true,
            Some(last) => at != last,
        },
    }
}

/// A hold is kept for its alert until its time, whatever other alerts are held
/// or released.
pub proof fn a_hold_lasts_until_its_time(
    held: Seq<Held>,
    alert: RecoveryAlert,
    other: RecoveryAlert,
    until: i128,
    now: i128,
)
    ensures
        now < until ==> is_held(without(held, alert).push(Held { alert, until }), alert, now),
        now >= until ==> !is_held(without(held, alert).push(Held { alert, until }), alert, now),
        other != alert ==> (is_held(without(held, alert), other, now) <==> is_held(held, other, now)),
{
    a_released_alert_is_not_held(held, alert, now);
    let kept = without(held, alert);
    let after = kept.push(Held { alert, until });
    assert(after[kept.len() as int].alert == alert);
    if is_held(after, alert, now) {
        let i = choose|i: int|
            0 <= i < after.len() && (#[trigger] after[i]).alert == alert && now < after[i].until;
        if i < kept.len() {
            assert(kept[i].alert == alert);
        }
    }
    if other != alert {
        others_stay_held(held, alert, other, now);
    }
}

proof fn others_stay_held(held: Seq<Held>, alert: RecoveryAlert, other: RecoveryAlert, now: i128)
    requires
        other != alert,
    ensures
        is_held(without(held, alert), other, now) <==> is_held(held, other, now),
    decreases held.len(),
{
    if held.len() > 0 {
        let front = held.drop_last();
        others_stay_held(front, alert, other, now);
        let kept = without(front, alert);
        let after = without(held, alert);
        if is_held(held, other, now) {
            let i = choose|i: int|
                0 <= i < held.len() && (#[trigger] held[i]).alert == other && now < held[i].until;
            if i < front.len() {
                assert(front[i].alert == other);
                let k = choose|k: int|
                    0 <= k < kept.len() && (#[trigger] kept[k]).alert == other && now
                        < kept[k].until;
                assert(after[k].alert == other);
            } else {
                assert(after[kept.len() as int].alert == other);
            }
        }
        if is_held(after, other, now) {
            let k = choose|k: int|
                0 <= k < after.len() && (#[trigger] after[k]).alert == other && now
                    < after[k].until;
            if k < kept.len() {
                assert(kept[k].alert == other);
                let i = choose|i: int|
                    0 <= i < front.len() && (#[trigger] front[i]).alert == other && now
                        < front[i].until;
                assert(held[i].alert == other);
            } else {
                assert(held[held.len() - 1].alert == other);
            }
        }
    }
}

/// A recovery job is polled to its end and its verdict applied; where that is
/// refused a person is asked, where it failed the failure is recorded, and a
/// new job is spawned only where none runs, the alert is not held, none failed
/// before and the limit is not reached.
pub proof fn a_recovery_is_followed_to_its_end(
    watch: RecoveryWatch,
    alert: RecoveryAlert,
    workspace: Seq<char>,
    facts: json::Value,
    limit: usize,
    now: i128,
    seen: FollowSeen,
    r: FollowStep,
)
    requires
        follows(watch, alert, workspace, facts, limit, now, seen, r),
    ensures
        watch.job matches Some(job) ==> {
            &&& job.alert != alert ==> r is Pending
            &&& job.alert == alert ==> {
                &&& r is Poll <==> seen.ended is None
                &&& seen.ended == Some(JobEnd::Running) ==> r is Pending
                &&& r is Apply <==> (seen.ended matches Some(JobEnd::Verdict)) && seen.applied
                    is None
                &&& r is Escalate <==> (seen.ended matches Some(JobEnd::Verdict)) && seen.applied
                    is Some && !seen.applied->0
                &&& r is Repaired ==> (seen.ended matches Some(JobEnd::Verdict)) && seen.applied
                    is Some && seen.applied->0
                &&& r matches FollowStep::Escalate { attempt } ==> attempt == job.attempt
                &&& r is Failed <==> (seen.ended matches Some(JobEnd::Failed(_)))
                    && seen.finish_recorded && seen.failure_recorded
            }
        },
        r is Spawn <==> watch.job is None && !is_held(watch.held@, alert, now)
            && seen.failed_before is Some && !seen.failed_before->0 && seen.done is Some
            && seen.done->0 < limit && seen.requested && seen.spawned is None,
        r matches FollowStep::Spawn { attempt } ==> attempt == seen.done->0 + 1,
        r is UsedUp <==> watch.job is None && !is_held(watch.held@, alert, now)
            && seen.failed_before is Some && !seen.failed_before->0 && seen.done is Some
            && seen.done->0 >= limit,
        r matches FollowStep::Hold { until } ==> (seen.recheck matches Some(Some(ms)) && (ms >= 0
            ==> until == ms * 1_000_000)) && !seen.held,
{
}

/// A verdict's actions are done in order, each once, and only where it is a
/// sure repair; one that failed stops the rest, and the session counts as
/// closed only where it was to be closed.
pub proof fn a_sure_repair_is_done_in_order(
    run: TaskRun,
    job: RecoveryJob,
    live: Live,
    verdict: RecoveryVerdict,
    most: u64,
    seen: ApplySeen,
    r: ApplyStep,
)
    requires
        applies(run, job, live, verdict, most, seen, r),
        seen.outcomes@.len() <= verdict.actions@.len() <= usize::MAX,
    ensures
        r is Escalate <==> verdict.verdict != RecoveryDecision::Repair || verdict.confidence
            != Confidence::High,
        r matches ApplyStep::Do { index, .. } ==> index == seen.outcomes@.len() && index
            < verdict.actions@.len(),
        r matches ApplyStep::Do { index, typed } ==> (typed is Some <==> verdict.actions@[index as int]
            is SendInstruction),
        r matches ApplyStep::Applied { exit_again, closed } ==> {
            &&& seen.outcomes@.len() == verdict.actions@.len()
            &&& seen.finished
            &&& closed <==> exists|i: int|
                0 <= i < verdict.actions@.len() && (#[trigger] verdict.actions@[i])
                    is CloseAndProceed
            &&& exit_again <==> exists|i: int|
                0 <= i < verdict.actions@.len() && ((#[trigger] verdict.actions@[i])
                    is StopProcesses || verdict.actions@[i] is AnswerKnownDialog)
        },
        seen.outcomes@.len() > 0 && verdict.verdict == RecoveryDecision::Repair
            && verdict.confidence == Confidence::High && (seen.outcomes@.last() matches Outcome::Stopped(
            Err(_),
        ) || seen.outcomes@.last() matches Outcome::Typed(Err(_)) || seen.outcomes@.last() matches Outcome::Answered(
            Err(_),
        ) || seen.outcomes@.last() matches Outcome::Closed(Err(_))) ==> r is Refuse,
{
}

/// Idle processes are looked for at the sampling interval, only where no job
/// runs, and an alert is raised only for idle processes of the run's own that
/// were sampled.
pub proof fn idle_processes_are_sampled(
    job: &Option<RecoveryJob>,
    threshold_secs: i64,
    seen: &IdleSeen,
    r: IdleStep,
)
    requires
        call_ensures(watch_idle, (job, threshold_secs, seen), r),
    ensures
        *job is Some ==> (r is Follow <==> job->0.alert == RecoveryAlert::IdleProcess) && (r
            is Follow || r is Pending),
        r is Alert ==> *job is None && seen.watched is Some && seen.sampled is Some
            && seen.sampled->0 && seen.own is Some && seen.own->0 && seen.idle is Some
            && seen.idle->0,
        r is Begin <==> *job is None && seen.watched is None,
        r matches IdleStep::Sample { interval_secs } ==> 1 <= interval_secs <= 60 && (threshold_secs
            >= 20 ==> interval_secs * 10 <= threshold_secs) && seen.watched->0 >= interval_secs
            * 1_000_000_000,
        *job is None && threshold_secs < 20 && (seen.watched matches Some(at) && at
            >= 1_000_000_000) && seen.sampled is Some && seen.sampled->0 && seen.own is Some
            && seen.own->0 && seen.idle is Some && seen.idle->0 ==> r is Alert,
{
}

/// The process stopped is the run's own one with that pid, and none is where
/// the run has none.
pub proof fn a_target_is_the_runs_own(own: Seq<ProcessInfo>, pid: u32, from: int)
    requires
        0 <= from,
    ensures
        match place_of(own, pid, from) {
            Some(at) => from <= at < own.len() && own[at].pid == pid,
            None => forall|i: int| from <= i < own.len() ==> (#[trigger] own[i]).pid != pid,
        },
    decreases own.len() - from,
{
    if from < own.len() && own[from].pid != pid {
        a_target_is_the_runs_own(own, pid, from + 1);
    }
}

/// Processes are stopped only where they are the run's own; all are asked to
/// end before any is killed, a kill waits for the grace and hits only one that
/// is still alive, and they count as stopped once each has ended.
pub proof fn processes_are_asked_before_they_are_killed(
    pids: Seq<u32>,
    own: Seq<ProcessInfo>,
    seen: StoppingSeen,
    r: StopStep,
)
    requires
        seen.each@.len() == pids.len(),
        pids.len() <= usize::MAX,
        stops(pids, own, seen, r),
    ensures
        r matches StopStep::Terminate { index } ==> seen.each@[index as int].terminated is None
            && exists|i: int| 0 <= i < own.len() && (#[trigger] own[i]).pid == pids[index as int],
        r matches StopStep::Kill { index } ==> seen.waited && seen.each@[index as int].alive is Some
            && seen.each@[index as int].alive->0 && seen.each@[index as int].killed is None
            && exists|i: int| 0 <= i < own.len() && (#[trigger] own[i]).pid == pids[index as int],
        r matches StopStep::Wait { secs } ==> secs == 3 && !seen.waited,
        r is Stopped ==> seen.waited && forall|k: int|
            #![trigger seen.each@[k]]
            0 <= k < pids.len() && (exists|i: int|
                0 <= i < own.len() && (#[trigger] own[i]).pid == pids[k]) ==> seen.each@[k].alive
                is Some && (seen.each@[k].alive->0 ==> seen.each@[k].killed is Some),
{
    only_own_processes_are_stopped(pids, own, seen, r);
    if let StopStep::Terminate { index } = r {
        a_target_is_the_runs_own(own, pids[index as int], 0);
        unasked_is_own(pids, own, seen.each@, 0);
    }
    if let StopStep::Kill { index } = r {
        a_target_is_the_runs_own(own, pids[index as int], 0);
        a_kill_comes_after_the_grace(pids, own, seen, r);
    }
    if r is Stopped {
        none_unended(pids, own, seen.each@, 0);
        assert forall|k: int|
            #![trigger seen.each@[k]]
            0 <= k < pids.len() && (exists|i: int|
                0 <= i < own.len() && (#[trigger] own[i]).pid == pids[k]) implies seen.each@[k].alive
            is Some && (seen.each@[k].alive->0 ==> seen.each@[k].killed is Some) by {
            a_target_is_the_runs_own(own, pids[k], 0);
            assert(was_ended(seen.each@[k]));
        }
    }
}

proof fn none_unended(pids: Seq<u32>, own: Seq<ProcessInfo>, each: Seq<StopSeen>, from: int)
    requires
        0 <= from,
        unended(pids, own, each, from) is None,
    ensures
        forall|k: int|
            #![trigger each[k]]
            from <= k < pids.len() && place_of(own, pids[k], 0) is Some ==> was_ended(each[k]),
    decreases pids.len() - from,
{
    if from < pids.len() {
        none_unended(pids, own, each, from + 1);
    }
}

/// A run's processes are rooted in its wrapper and its agent, both registered.
pub proof fn roots_are_registered(
    run: &TaskRun,
    processes: &Vec<RunProcess>,
    r: Result<OwnRoots, String>,
)
    requires
        call_ensures(own_roots, (run, processes), r),
    ensures
        r matches Ok(roots) ==> run.worktree_path is Some && (exists|i: int|
            0 <= i < processes@.len() && (#[trigger] processes@[i]).role@ == "wrapper"@
                && processes@[i].pid == roots.wrapper) && (exists|i: int|
            0 <= i < processes@.len() && (#[trigger] processes@[i]).role@ == "agent"@
                && processes@[i].pid == roots.agent),
        run.worktree_path is None ==> r is Err,
        (forall|i: int| 0 <= i < processes@.len() ==> (#[trigger] processes@[i]).role@
            != "wrapper"@) ==> r is Err,
{
    pid_is_of_role(processes@, "wrapper"@, 0);
    pid_is_of_role(processes@, "agent"@, 0);
}

proof fn pid_is_of_role(processes: Seq<RunProcess>, role: Seq<char>, from: int)
    requires
        0 <= from,
    ensures
        pid_of(processes, role, from) matches Some(pid) ==> exists|i: int|
            from <= i < processes.len() && (#[trigger] processes[i]).role@ == role
                && processes[i].pid == pid,
    decreases processes.len() - from,
{
    if from < processes.len() {
        if processes[from].role@ == role {
            assert(processes[from].pid == processes[from].pid);
        } else {
            pid_is_of_role(processes, role, from + 1);
        }
    }
}

/// The recheck of a verdict that waits is as long as was asked and no longer
/// than the most.
pub proof fn a_wait_is_bounded(a: u64, b: u64)
    ensures
        least(a, b) <= a,
        least(a, b) <= b,
        least(a, b) == a || least(a, b) == b,
{
}

/// A sample is due where none was taken, and else once the interval is over;
/// one is new where there is one that differs from the last.
pub proof fn a_sample_is_due_and_new(
    at: Option<u128>,
    now: u128,
    interval: u128,
    due: bool,
    sample: Option<i128>,
    last: Option<i128>,
    new: bool,
)
    requires
        call_ensures(sample_due, (at, now, interval), due),
        call_ensures(sample_new, (sample, last), new),
    ensures
        at is None ==> due,
        at is Some && at->0 <= now ==> (due <==> now - at->0 >= interval),
        new ==> sample is Some,
        sample is Some && last is None ==> new,
        sample is Some && last is Some ==> (new <==> sample->0 != last->0),
{
}

/// Dropping the waits of an alert drops none of another's.
proof fn other_waits_stay(held: Seq<Held>, alert: RecoveryAlert, one: Held)
    ensures
        without(held, alert).contains(one) <==> held.contains(one) && one.alert != alert,
    decreases held.len(),
{
    if held.len() > 0 {
        let front = held.drop_last();
        other_waits_stay(front, alert, one);
        let before = without(front, alert);
        let after = without(held, alert);
        if after.contains(one) {
            let k = choose|k: int| 0 <= k < after.len() && after[k] == one;
            if k < before.len() {
                assert(before[k] == one);
                let j = choose|j: int| 0 <= j < front.len() && front[j] == one;
                assert(held[j] == one);
            } else {
                assert(held[held.len() - 1] == one);
            }
        }
        if held.contains(one) && one.alert != alert {
            let j = choose|j: int| 0 <= j < held.len() && held[j] == one;
            if j < front.len() {
                assert(front[j] == one);
                let k = choose|k: int| 0 <= k < before.len() && before[k] == one;
                assert(after[k] == one);
            } else {
                assert(after[before.len() as int] == one);
            }
        }
    }
}

/// A hold stands until its time for its own alert, in place of any before it,
/// and leaves those of other alerts.
pub proof fn a_hold_is_of_its_alert(
    watch: &mut RecoveryWatch,
    alert: RecoveryAlert,
    until: i128,
    r: (),
    one: Held,
)
    requires
        call_ensures(RecoveryWatch::hold, (watch, alert, until), r),
    ensures
        final(watch).held@.contains(Held { alert, until }),
        one.alert == alert && final(watch).held@.contains(one) ==> one.until == until,
        one.alert != alert ==> (final(watch).held@.contains(one) <==> old(watch).held@.contains(
            one,
        )),
        final(watch).job == old(watch).job,
{
    other_waits_stay(old(watch).held@, alert, one);
    let before = without(old(watch).held@, alert);
    let after = final(watch).held@;
    assert(after[before.len() as int] == (Held { alert, until }));
    if after.contains(one) {
        let k = choose|k: int| 0 <= k < after.len() && after[k] == one;
        if k < before.len() {
            assert(before[k] == one);
        }
    }
    if before.contains(one) {
        let k = choose|k: int| 0 <= k < before.len() && before[k] == one;
        assert(after[k] == one);
    }
}

/// A released alert is held no more, and every other hold stands.
pub proof fn a_release_is_of_its_alert(
    watch: &mut RecoveryWatch,
    alert: RecoveryAlert,
    r: (),
    one: Held,
)
    requires
        call_ensures(RecoveryWatch::release, (watch, alert), r),
    ensures
        final(watch).held@.contains(one) <==> old(watch).held@.contains(one) && one.alert != alert,
        final(watch).job == old(watch).job,
{
    other_waits_stay(old(watch).held@, alert, one);
}

/// A stop ends the job of its alert, or any job where it names none, and says
/// which job and why; a job of another alert runs on.
pub proof fn a_stop_is_of_its_alert(
    watch: &mut RecoveryWatch,
    alert: Option<RecoveryAlert>,
    outcome: &str,
    r: Option<Json>,
)
    requires
        call_ensures(RecoveryWatch::stop_for, (watch, alert, outcome), r),
    ensures
        old(watch).job is Some && (alert is None || old(watch).job->0.alert == alert->0) ==> final(watch).job is None,
        old(watch).job is Some && alert is Some && old(watch).job->0.alert != alert->0 ==> final(watch).job == old(watch).job && r is None,
        r is Some ==> old(watch).job is Some && final(watch).job is None && r->0@ is Object
            && r->0@->Object_0[0] == ("alert"@, json::Value::Text(old(watch).job->0.alert.name()))
            && r->0@->Object_0[1] == ("attempt"@, json::Value::Int(old(watch).job->0.attempt as int))
            && r->0@->Object_0[2] == ("outcome"@, json::Value::Text(outcome@)),
        old(watch).job is Some && final(watch).job is None ==> r is Some,
        alert is None ==> final(watch).held@ == old(watch).held@,
{
}

/// Before an exit the jobs for background work and for idle processes stop, and
/// no other.
pub proof fn an_exit_stops_the_idle_jobs(watch: &mut RecoveryWatch, r: Option<Json>)
    requires
        call_ensures(RecoveryWatch::stop_before_exit, (watch,), r),
    ensures
        old(watch).job is Some && (old(watch).job->0.alert == RecoveryAlert::LongBackground || old(watch).job->0.alert == RecoveryAlert::IdleProcess) ==> final(watch).job is None && r is Some,
        old(watch).job is Some && old(watch).job->0.alert != RecoveryAlert::LongBackground && old(watch).job->0.alert != RecoveryAlert::IdleProcess ==> final(watch).job == old(watch).job && r
            is None,
{
}

/// The last recovery of background work is the latest event that ended one.
proof fn the_last_background_is_latest(events: Seq<RunEvent>, n: int)
    requires
        0 <= n <= events.len(),
    ensures
        match last_background(events, n) {
            Some(event) => exists|i: int|
                0 <= i < n && #[trigger] events[i] == event && ends_background(event) && forall|
                    j: int,
                | i < j < n ==> !ends_background(#[trigger] events[j]),
            None => forall|i: int| 0 <= i < n ==> !ends_background(#[trigger] events[i]),
        },
    decreases n,
{
    if n > 0 {
        if ends_background(events[n - 1]) {
            assert(events[n - 1] == last_background(events, n)->0);
        } else {
            the_last_background_is_latest(events, n - 1);
        }
    }
}

/// A watch that is taken up again runs no job and goes on from the latest end of
/// a recovery of background work: its marker is seen and its recheck stands.
pub proof fn a_watch_is_taken_up_from_the_latest_end(
    events: &Vec<RunEvent>,
    r: RecoveryWatch,
    i: int,
)
    requires
        call_ensures(RecoveryWatch::adopt, (events,), r),
        0 <= i < events@.len(),
        events@[i].kind@ == "recovery_finished"@,
        json::at(events@[i].payload@, "alert"@) == json::Value::Text(
            RecoveryAlert::LongBackground.name(),
        ),
        forall|j: int|
            i < j < events@.len() ==> (#[trigger] events@[j]).kind@ != "recovery_finished"@,
    ensures
        r.job is None && r.held@.len() == 0 && r.idle@.len() == 0,
        r.seen is Some <==> json::int_of(json::at(events@[i].payload@, "marker_at_ms"@)) is Some,
        r.recheck is Some <==> json::int_of(json::at(events@[i].payload@, "recheck_at_ms"@)) is Some,
        r.seen is Some ==> r.seen->0 == from_millis(
            json::int_of(json::at(events@[i].payload@, "marker_at_ms"@))->0 as i64,
        ),
        r.recheck is Some ==> r.recheck->0 == from_millis(
            json::int_of(json::at(events@[i].payload@, "recheck_at_ms"@))->0 as i64,
        ),
{
    let n = events@.len() as int;
    the_last_background_is_latest(events@, n);
    assert(ends_background(events@[i]));
    let event = last_background(events@, n)->0;
    let k = choose|k: int|
        0 <= k < n && #[trigger] events@[k] == event && ends_background(event) && forall|j: int|
            k < j < n ==> !ends_background(#[trigger] events@[j]);
    if i < k {
        assert(events@[k].kind@ != "recovery_finished"@);
    }
    if k < i {
        assert(!ends_background(events@[i]));
    }
    assert(k == i);
}

/// A watch with no recovery of background work behind it has seen none.
pub proof fn a_fresh_watch_has_seen_nothing(events: &Vec<RunEvent>, r: RecoveryWatch)
    requires
        call_ensures(RecoveryWatch::adopt, (events,), r),
        forall|j: int|
            0 <= j < events@.len() ==> (#[trigger] events@[j]).kind@ != "recovery_finished"@,
    ensures
        r.job is None && r.seen is None && r.recheck is None && r.held@.len() == 0,
{
    the_last_background_is_latest(events@, events@.len() as int);
    if last_background(events@, events@.len() as int) is Some {
        let event = last_background(events@, events@.len() as int)->0;
        let k = choose|k: int|
            0 <= k < events@.len() && #[trigger] events@[k] == event && ends_background(event);
        assert(events@[k].kind@ != "recovery_finished"@);
    }
}

/// The recheck of a job is the one its latest end names: of the same alert and
/// the same attempt.
proof fn the_last_end_is_latest(
    events: Seq<RunEvent>,
    alert: RecoveryAlert,
    attempt: usize,
    n: int,
)
    requires
        0 <= n <= events.len(),
    ensures
        match last_end(events, alert, attempt, n) {
            Some(event) => exists|i: int|
                0 <= i < n && #[trigger] events[i] == event && event.kind@ == "recovery_finished"@
                    && json::at(event.payload@, "alert"@) == json::Value::Text(alert.name())
                    && json::at(event.payload@, "attempt"@) == json::Value::Int(attempt as int)
                    && forall|j: int|
                    i < j < n ==> !ends_job(#[trigger] events[j], alert, attempt),
            None => forall|i: int| 0 <= i < n ==> !ends_job(#[trigger] events[i], alert, attempt),
        },
    decreases n,
{
    if n > 0 {
        if ends_job(events[n - 1], alert, attempt) {
            assert(events[n - 1] == last_end(events, alert, attempt, n)->0);
        } else {
            the_last_end_is_latest(events, alert, attempt, n - 1);
        }
    }
}

/// A recheck that is read is one that an end of this very job recorded.
pub proof fn a_recheck_is_of_the_same_job(
    events: &Vec<RunEvent>,
    alert: RecoveryAlert,
    attempt: usize,
    r: Option<i64>,
)
    requires
        call_ensures(applied_recheck, (events, alert, attempt), r),
    ensures
        r is Some ==> exists|i: int|
            {
                &&& 0 <= i < events@.len()
                &&& (#[trigger] events@[i]).kind@ == "recovery_finished"@
                &&& json::at(events@[i].payload@, "alert"@) == json::Value::Text(alert.name())
                &&& json::at(events@[i].payload@, "attempt"@) == json::Value::Int(attempt as int)
                &&& json::at(events@[i].payload@, "recheck_at_ms"@) == json::Value::Int(
                    r->0 as int,
                )
            },
{
    the_last_end_is_latest(events@, alert, attempt, events@.len() as int);
}

/// Processes are sampled ten times within the threshold, but no more often than
/// every second and no more rarely than every minute.
pub proof fn samples_are_spread_over_the_threshold(threshold_secs: i64, r: u64)
    requires
        call_ensures(sample_interval, (threshold_secs,), r),
    ensures
        1 <= r <= 60,
        20 <= threshold_secs <= 600 ==> 10 * r <= threshold_secs < 10 * r + 10,
        threshold_secs > 600 ==> r == 60,
        threshold_secs < 20 ==> r == 1,
{
}

/// A stop is needed only where a job runs.
pub proof fn only_a_running_job_is_stopped(watch: &RecoveryWatch, r: bool)
    requires
        call_ensures(RecoveryWatch::stop_job, (watch,), r) || call_ensures(
            RecoveryWatch::running,
            (watch,),
            r,
        ),
    ensures
        r <==> watch.job is Some,
{
}

} // verus!
