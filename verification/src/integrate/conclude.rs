//! The second half of a landing: what the verdict is recorded as, and what
//! follows once `main` moved.

use crate::domain::{Failing, ReasonCode, RunStatus, TaskRun};
use crate::integrate::land::{Deferral, Landing};
use crate::json;
use crate::json::{Fields, Json};
use crate::text;
use vstd::prelude::*;
use vstd::string::*;

verus! {

/// How a landing ended.
pub enum Verdict {
    /// It failed in itself before `main` moved.
    Error(String),
    Deferred(Deferral),
    ReceiptFailed { reason: String, receipt: Json },
    /// It landed, with the follow-ups its receipt proposes.
    Landed { landing: Landing, follow_ups: Option<Json> },
}

/// What is recorded of a landing.
pub enum Conclusion {
    /// Give the slot back and return the run to where it was; `error` is what
    /// the caller is told. The reason is the error's, of the code `fallback`
    /// where the error has none of its own.
    Abort { message: String, back_to: RunStatus, fallback: ReasonCode, error: String },
    /// Park the run for a session.
    Defer { reason: String, code: ReasonCode, index: Option<usize>, detail: Json },
    /// End the run as failed, with its receipt.
    Fail { reason: String, receipt: Json },
    /// Complete the run and its task; `otherwise` is what the caller is told
    /// where that fails. What follows is [`after_landing`].
    Finish { landing: Landing, follow_ups: Option<Json>, otherwise: String },
}

/// How many resumes of the run count toward the limit; a count that cannot be
/// read counts as the last attempt.
pub fn resume_attempts(counted: Option<usize>, max: usize) -> (r: usize)
    ensures
        r == (match counted {
            Some(n) => n,
            None => max,
        }),
{
    match counted {
        Some(n) => n,
        None => max,
    }
}

/// How many more times the supervisor resumes a run.
pub open spec fn resumes_left(attempts: nat, max: nat) -> nat {
    if attempts < max {
        (max - attempts) as nat
    } else {
        0
    }
}

/// Record the outcome of a landing: an error before `main` moved gives the
/// slot back and returns the run to `previous`; a deferral says how many more
/// times the supervisor resumes the run.
pub fn land_integrating(
    run: &TaskRun,
    previous: RunStatus,
    verdict: Verdict,
    counted: Option<usize>,
    max_resumes: usize,
) -> (r: Conclusion)
    ensures
        match verdict {
            Verdict::Error(error) => r matches Conclusion::Abort {
                message,
                back_to,
                fallback,
                error: told,
            } && {
                &&& message@ == "integration stopped before main moved: "@ + error@
                &&& back_to == previous
                &&& fallback == Failing::Landing.code()
                &&& told@ == "run "@ + run.id@ + " returned to "@ + previous.name() + ": "@ + error@
            },
            Verdict::Deferred(d) => r matches Conclusion::Defer { reason, code, index, detail } && {
                &&& reason == d.reason
                &&& code == d.code
                &&& index == d.index
                &&& detail@ == json::put(
                    d.detail@,
                    "resumes_left"@,
                    json::Value::Int(
                        resumes_left(
                            match counted {
                                Some(n) => n as nat,
                                None => max_resumes as nat,
                            },
                            max_resumes as nat,
                        ) as int,
                    ),
                )
            },
            Verdict::ReceiptFailed { reason, receipt } => r == (Conclusion::Fail {
                reason,
                receipt,
            }),
            Verdict::Landed { landing: landed, follow_ups } => r matches Conclusion::Finish {
                landing,
                follow_ups: proposed,
                otherwise,
            } && landing == landed && proposed == follow_ups && otherwise@ == "main advanced to "@ + landed.commit@
                + " but run "@ + run.id@ + " could not be completed; inspect show and doctor"@,
        },
{
    match verdict {
        Verdict::Error(error) => {
            let message = "integration stopped before main moved: ".to_owned().concat(
                error.as_str(),
            );
            let told = "run ".to_owned().concat(run.id.as_str()).concat(" returned to ").concat(
                previous.as_str(),
            ).concat(": ").concat(error.as_str());
            Conclusion::Abort {
                message,
                back_to: previous,
                fallback: Failing::Landing.fallback(),
                error: told,
            }
        },
        Verdict::Deferred(d) => {
            let attempts = resume_attempts(counted, max_resumes);
            let left: usize = max_resumes.saturating_sub(attempts);
            let detail = d.detail.with("resumes_left", Json::Int(left as i128));
            Conclusion::Defer { reason: d.reason, code: d.code, index: d.index, detail }
        },
        Verdict::ReceiptFailed { reason, receipt } => Conclusion::Fail { reason, receipt },
        Verdict::Landed { landing, follow_ups } => {
            let otherwise = "main advanced to ".to_owned().concat(landing.commit.as_str()).concat(
                " but run ",
            ).concat(run.id.as_str()).concat(" could not be completed; inspect show and doctor");
            Conclusion::Finish { landing, follow_ups, otherwise }
        },
    }
}

/// How a push of `main` ended.
#[derive(Debug, Clone, Copy, PartialEq, Eq, Structural)]
pub enum PushResult {
    Pushed,
    Skipped,
    Failed,
}

/// A push of `main`.
pub struct PushReport {
    pub outcome: PushResult,
    pub remote: String,
    pub error: Option<String>,
    pub reason: Option<String>,
}

/// What a push does next, or its report.
pub enum PushStep {
    /// Whether the repository has the remote.
    HasRemote,
    Push,
    Report(PushReport),
}

/// Whether the report is of a push that failed with this error.
pub open spec fn has_failed(report: PushReport, remote: Seq<char>, error: Seq<char>) -> bool {
    &&& report.outcome == PushResult::Failed
    &&& report.remote@ == remote
    &&& report.error matches Some(e) && e@ == error
    &&& report.reason is None
}

/// A push that failed.
pub fn failed_push(remote: &str, error: &str) -> (r: PushReport)
    ensures
        has_failed(r, remote@, error@),
{
    PushReport {
        outcome: PushResult::Failed,
        remote: remote.to_owned(),
        error: Some(error.to_owned()),
        reason: None,
    }
}

/// Whether the report is of a push that was skipped for this reason.
pub open spec fn is_skipped(report: PushReport, remote: Seq<char>, why: Seq<char>) -> bool {
    &&& report.outcome == PushResult::Skipped
    &&& report.remote@ == remote
    &&& report.error is None
    &&& report.reason matches Some(reason) && reason@ == why
}

/// Push the landed `main` to `remote`: skipped when the call asked for none
/// or the repository has no such remote, and failed when either step does.
/// `has_remote` and `pushed` hold what the steps gave so far.
pub fn push_main(
    push: bool,
    remote: &str,
    has_remote: &Option<Result<bool, String>>,
    pushed: &Option<Result<(), String>>,
) -> (r: PushStep)
    ensures
        if !push {
            r matches PushStep::Report(report) && is_skipped(report, remote@, "--no-push"@)
        } else {
            match *has_remote {
                None => r is HasRemote,
                Some(Err(error)) => r matches PushStep::Report(report) && has_failed(
                    report,
                    remote@,
                    error@,
                ),
                Some(Ok(false)) => r matches PushStep::Report(report) && is_skipped(
                    report,
                    remote@,
                    "the repository has no remote "@ + remote@,
                ),
                Some(Ok(true)) => match *pushed {
                    None => r is Push,
                    Some(Err(error)) => r matches PushStep::Report(report) && has_failed(
                        report,
                        remote@,
                        error@,
                    ),
                    Some(Ok(_)) => r matches PushStep::Report(report) && report.outcome
                        == PushResult::Pushed && report.remote@ == remote@ && report.error is None
                        && report.reason is None,
                },
            }
        },
{
    if !push {
        return PushStep::Report(
            PushReport {
                outcome: PushResult::Skipped,
                remote: remote.to_owned(),
                error: None,
                reason: Some("--no-push".to_owned()),
            },
        );
    }
    match has_remote {
        None => PushStep::HasRemote,
        Some(Err(error)) => PushStep::Report(failed_push(remote, error.as_str())),
        Some(Ok(has)) => if !*has {
            PushStep::Report(
                PushReport {
                    outcome: PushResult::Skipped,
                    remote: remote.to_owned(),
                    error: None,
                    reason: Some("the repository has no remote ".to_owned().concat(remote)),
                },
            )
        } else {
            match pushed {
                None => PushStep::Push,
                Some(Err(error)) => PushStep::Report(failed_push(remote, error.as_str())),
                Some(Ok(_)) => PushStep::Report(
                    PushReport {
                        outcome: PushResult::Pushed,
                        remote: remote.to_owned(),
                        error: None,
                        reason: None,
                    },
                ),
            }
        },
    }
}

/// The event a push is recorded as.
pub open spec fn push_kind(outcome: PushResult) -> Seq<char> {
    match outcome {
        PushResult::Pushed => "push_finished"@,
        PushResult::Skipped => "push_skipped"@,
        PushResult::Failed => "push_failed"@,
    }
}

/// What is recorded of a push.
pub open spec fn push_payload(report: PushReport, commit: Seq<char>) -> Seq<
    (Seq<char>, json::Value),
> {
    let named = ("remote"@, json::Value::Text(report.remote@));
    let landed = ("commit"@, json::Value::Text(commit));
    match report.outcome {
        PushResult::Pushed => json::none().push(named).push(landed),
        PushResult::Skipped => json::none().push(named).push(landed).push(
            ("reason"@, json::text_or_null(text::opt_view(report.reason))),
        ),
        PushResult::Failed => json::none().push(
            ("code"@, json::Value::Text(ReasonCode::PushFailed.name())),
        ).push(named).push(landed).push(
            ("error"@, json::text_or_null(text::opt_view(report.error))),
        ),
    }
}

/// The event a push is recorded as on the landed run.
pub fn push_event(report: &PushReport, commit: &str) -> (r: (&'static str, Json))
    ensures
        r.0@ == push_kind(report.outcome),
        r.1@ == json::Value::Object(push_payload(*report, commit@)),
{
    let remote = report.remote.as_str();
    match report.outcome {
        PushResult::Pushed => (
            "push_finished",
            Fields::new().text("remote", remote).text("commit", commit).done(),
        ),
        PushResult::Skipped => (
            "push_skipped",
            Fields::new().text("remote", remote).text("commit", commit).opt_text(
                "reason",
                &report.reason,
            ).done(),
        ),
        PushResult::Failed => (
            "push_failed",
            Fields::new().text("code", ReasonCode::PushFailed.as_str()).text(
                "remote",
                remote,
            ).text("commit", commit).opt_text("error", &report.error).done(),
        ),
    }
}

/// The answer the `approve_landing` asks of a landed run nobody closed are
/// closed with: nobody needs to answer them any more.
pub fn close_landing_asks() -> (r: &'static str)
    ensures
        r@ == "the run was integrated; closed by the runtime"@,
{
    "the run was integrated; closed by the runtime"
}

/// What is recorded of a landed run's worktree.
pub enum Removal {
    Removed { payload: Json },
    /// The result is already on `main` and under the history ref: a failure
    /// is only recorded.
    Failed { message: String, code: ReasonCode },
}

/// Whether this is recorded of a landed worktree that was to be removed.
pub open spec fn records_removal(
    worktree: Seq<char>,
    branch: Seq<char>,
    removed: Result<(), String>,
    r: Removal,
) -> bool {
    match removed {
        Ok(_) => r matches Removal::Removed { payload } && payload@ == json::Value::Object(
            json::none().push(("path"@, json::Value::Text(worktree))).push(
                ("branch"@, json::Value::Text(branch)),
            ),
        ),
        Err(error) => r matches Removal::Failed { message, code } && code == ReasonCode::GitFailed
            && message@ == "landed worktree "@ + worktree + " could not be removed: "@ + error@,
    }
}

/// What is recorded once the landed worktree and its branch were to be
/// removed.
pub fn remove_landed_worktree(
    worktree: &str,
    branch: &str,
    removed: &Result<(), String>,
) -> (r: Removal)
    ensures
        records_removal(worktree@, branch@, *removed, r),
{
    match removed {
        Ok(_) => Removal::Removed {
            payload: Fields::new().text("path", worktree).text("branch", branch).done(),
        },
        Err(error) => Removal::Failed {
            message: "landed worktree ".to_owned().concat(worktree).concat(
                " could not be removed: ",
            ).concat(error.as_str()),
            code: ReasonCode::GitFailed,
        },
    }
}

/// What has been done after a landing that is recorded.
#[derive(Default)]
pub struct LandedSeen {
    /// The run's `approve_landing` asks are closed.
    pub asks_closed: bool,
    /// What removing the worktree and its branch gave.
    pub removed: Option<Result<(), String>>,
    pub removal_recorded: bool,
    /// The push is reported and recorded.
    pub pushed: bool,
    /// The follow-ups are registered.
    pub registered: bool,
}

/// What follows a landing that is recorded.
pub enum LandedStep {
    /// Close the run's open `approve_landing` asks with this answer.
    CloseAsks { answer: &'static str },
    RemoveWorktree { worktree: String, branch: String },
    RecordRemoval(Removal),
    /// Push `main`, and record how that ended.
    Push,
    RegisterFollowUps,
    Done,
}

/// What comes next after a landing that is recorded.
pub open spec fn goes_on(run: TaskRun, seen: LandedSeen, r: LandedStep) -> bool {
    let drops = run.worktree_path is Some && run.branch is Some;
    if !seen.asks_closed {
        r matches LandedStep::CloseAsks { answer } && answer@
            == "the run was integrated; closed by the runtime"@
    } else if drops && seen.removed is None {
        r == (LandedStep::RemoveWorktree {
            worktree: run.worktree_path->0,
            branch: run.branch->0,
        })
    } else if drops && !seen.removal_recorded {
        r matches LandedStep::RecordRemoval(removal) && records_removal(
            run.worktree_path->0@,
            run.branch->0@,
            seen.removed->0,
            removal,
        )
    } else if !seen.pushed {
        r is Push
    } else if !seen.registered {
        r is RegisterFollowUps
    } else {
        r is Done
    }
}

/// What follows a landing that is recorded, in order: nobody needs to answer
/// its asks any more, its worktree and branch go where it has both, `main` is
/// pushed and the follow-ups are registered. A failure of any of these is
/// recorded, and the landing stands.
pub fn after_landing(run: &TaskRun, seen: &LandedSeen) -> (r: LandedStep)
    ensures
        goes_on(*run, *seen, r),
{
    if !seen.asks_closed {
        return LandedStep::CloseAsks { answer: close_landing_asks() };
    }
    if let (Some(worktree), Some(branch)) = (&run.worktree_path, &run.branch) {
        match &seen.removed {
            None => {
                return LandedStep::RemoveWorktree {
                    worktree: worktree.clone(),
                    branch: branch.clone(),
                };
            },
            Some(removed) => if !seen.removal_recorded {
                return LandedStep::RecordRemoval(
                    remove_landed_worktree(worktree.as_str(), branch.as_str(), removed),
                );
            },
        }
    }
    if !seen.pushed {
        return LandedStep::Push;
    }
    if !seen.registered {
        return LandedStep::RegisterFollowUps;
    }
    LandedStep::Done
}

/// The follow-ups are registered last: the asks are closed, the worktree was
/// to be removed and `main` pushed before.
pub proof fn follow_ups_come_last(run: TaskRun, seen: LandedSeen, r: LandedStep)
    requires
        goes_on(run, seen, r),
        r is RegisterFollowUps || r is Done,
    ensures
        seen.asks_closed,
        run.worktree_path is Some && run.branch is Some ==> seen.removed is Some
            && seen.removal_recorded,
        seen.pushed,
{
}

/// A landing is concluded as it went: one that could not go on puts the run
/// back where it was, a deferral keeps its cause and says how many resumes are
/// left, a failed receipt fails the run, and a landed one is finished with what
/// landed.
pub proof fn a_landing_is_concluded_as_it_went(
    run: &TaskRun,
    previous: RunStatus,
    verdict: Verdict,
    counted: Option<usize>,
    max_resumes: usize,
    r: Conclusion,
)
    requires
        call_ensures(land_integrating, (run, previous, verdict, counted, max_resumes), r),
    ensures
        r is Abort <==> verdict is Error,
        r is Defer <==> verdict is Deferred,
        r is Fail <==> verdict is ReceiptFailed,
        r is Finish <==> verdict is Landed,
        r matches Conclusion::Abort { back_to, .. } ==> back_to == previous,
        r matches Conclusion::Defer { reason, code, index, .. } ==> (verdict matches Verdict::Deferred(
            d,
        ) && reason@ == d.reason@ && code == d.code && index == d.index),
        r matches Conclusion::Fail { reason, receipt } ==> (verdict matches Verdict::ReceiptFailed {
            reason: why,
            receipt: of,
        } && reason@ == why@ && receipt@ == of@),
        r matches Conclusion::Finish { landing, follow_ups, .. } ==> (verdict matches Verdict::Landed {
            landing: landed,
            follow_ups: proposed,
        } && landing == landed && follow_ups == proposed),
{
}

/// The resumes that are left and those that were counted are the most there
/// are; none is left once as many were.
pub proof fn resumes_count_down(attempts: nat, max: nat)
    ensures
        attempts <= max ==> resumes_left(attempts, max) + attempts == max,
        attempts >= max ==> resumes_left(attempts, max) == 0,
{
}

/// `main` is pushed only where that was asked for and there is a remote, and
/// the report says what came of it: pushed, failed with the error, or skipped.
pub proof fn a_push_is_reported_as_it_went(
    push: bool,
    remote: &str,
    has_remote: &Option<Result<bool, String>>,
    pushed: &Option<Result<(), String>>,
    r: PushStep,
)
    requires
        call_ensures(push_main, (push, remote, has_remote, pushed), r),
    ensures
        r is Push <==> push && (*has_remote matches Some(Ok(has)) && has) && *pushed is None,
        r is HasRemote <==> push && *has_remote is None,
        r matches PushStep::Report(report) ==> {
            &&& report.remote@ == remote@
            &&& report.outcome == PushResult::Pushed <==> push && (*has_remote matches Some(Ok(has))
                && has) && (*pushed matches Some(Ok(_)))
            &&& report.outcome == PushResult::Skipped <==> !push || (*has_remote matches Some(
                Ok(has),
            ) && !has)
            &&& report.outcome == PushResult::Failed ==> (report.error matches Some(error) && ((
            *has_remote matches Some(Err(why)) && why@ == error@) || (*pushed matches Some(Err(why))
                && why@ == error@)))
            &&& report.outcome != PushResult::Failed ==> report.error is None
            &&& report.outcome == PushResult::Skipped <==> report.reason is Some
        },
{
}

/// Each outcome of a push is recorded under a kind of its own, with the remote
/// and the commit, and a failed one with its error.
pub proof fn a_push_event_says_its_outcome(report: &PushReport, commit: &str, r: (&'static str, Json))
    requires
        call_ensures(push_event, (report, commit), r),
    ensures
        report.outcome == PushResult::Pushed ==> r.0@ == "push_finished"@,
        report.outcome == PushResult::Skipped ==> r.0@ == "push_skipped"@,
        report.outcome == PushResult::Failed ==> r.0@ == "push_failed"@,
        r.1@ is Object && r.1@->Object_0.contains(("remote"@, json::Value::Text(report.remote@)))
            && r.1@->Object_0.contains(("commit"@, json::Value::Text(commit@))),
        report.outcome == PushResult::Failed && report.error is Some ==> r.1@->Object_0.contains(
            ("error"@, json::Value::Text(report.error->0@)),
        ),
{
    let members = r.1@->Object_0;
    if report.outcome == PushResult::Failed {
        assert(members[1] == ("remote"@, json::Value::Text(report.remote@)));
        assert(members[2] == ("commit"@, json::Value::Text(commit@)));
        assert(members[3].0 == "error"@);
        if report.error is Some {
            assert(members[3] == ("error"@, json::Value::Text(report.error->0@)));
        }
    } else {
        assert(members[0] == ("remote"@, json::Value::Text(report.remote@)));
        assert(members[1] == ("commit"@, json::Value::Text(commit@)));
    }
}

/// What follows a landing is done once each, in order: the asks are closed,
/// the worktree is removed where the run has one and the removal recorded as
/// it went, `main` is pushed, and the follow-ups are registered.
pub proof fn what_follows_a_landing_is_in_order(run: TaskRun, seen: LandedSeen, r: LandedStep)
    requires
        goes_on(run, seen, r),
    ensures
        r is CloseAsks <==> !seen.asks_closed,
        r is RemoveWorktree <==> seen.asks_closed && run.worktree_path is Some && run.branch is Some
            && seen.removed is None,
        r matches LandedStep::RemoveWorktree { worktree, branch } ==> run.worktree_path == Some(
            worktree,
        ) && run.branch == Some(branch),
        r is RecordRemoval <==> seen.asks_closed && run.worktree_path is Some && run.branch is Some
            && seen.removed is Some && !seen.removal_recorded,
        r matches LandedStep::RecordRemoval(removal) ==> (removal is Removed <==> (
        seen.removed matches Some(Ok(_)))),
        r is Push ==> seen.asks_closed && !seen.pushed,
        r is RegisterFollowUps ==> seen.pushed && !seen.registered,
        r is Done ==> seen.asks_closed && seen.pushed && seen.registered,
        seen.asks_closed && (run.worktree_path is None || run.branch is None || (seen.removed
            is Some && seen.removal_recorded)) && !seen.pushed ==> r is Push,
{
}

/// A worktree that was removed is recorded with its branch, and one that was
/// not is told of with the error.
pub proof fn a_removal_is_recorded_as_it_went(
    worktree: Seq<char>,
    branch: Seq<char>,
    removed: Result<(), String>,
    r: Removal,
)
    requires
        records_removal(worktree, branch, removed, r),
    ensures
        r is Removed <==> removed is Ok,
        r matches Removal::Removed { payload } ==> payload@ is Object && payload@->Object_0 == seq![
            ("path"@, json::Value::Text(worktree)),
            ("branch"@, json::Value::Text(branch)),
        ],
        r matches Removal::Failed { code, .. } ==> code == ReasonCode::GitFailed,
{
    if let Removal::Removed { payload } = r {
        assert(payload@->Object_0 =~= seq![
            ("path"@, json::Value::Text(worktree)),
            ("branch"@, json::Value::Text(branch)),
        ]);
    }
}

/// Attempts that could not be counted count as used up.
pub proof fn uncounted_attempts_are_used_up(counted: Option<usize>, max: usize, r: usize)
    requires
        call_ensures(resume_attempts, (counted, max), r),
    ensures
        counted is Some ==> r == counted->0,
        counted is None ==> r >= max,
{
}

} // verus!
