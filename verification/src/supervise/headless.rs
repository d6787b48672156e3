//! Starting the headless jobs: a recovery job in its run's directory, and a
//! plan review in a directory of its own. A job reads only; its prompt is
//! written down next to what it prints.

use crate::domain::same_text;
use crate::path;
use crate::supervise::plan_review::PlanReviewJob;
use crate::supervise::recovery::{file_name, job_file, RecoveryAlert};
use vstd::prelude::*;
use vstd::string::*;

verus! {

/// What has been done and observed of a job that is started.
#[derive(Default)]
pub struct HeadlessSeen {
    pub created: Option<Result<(), String>>,
    /// Its prompt could be made; a recovery job comes with its own.
    pub prompted: Option<Result<(), String>>,
    pub written: Option<Result<(), String>>,
    pub spawned: Option<Result<(), String>>,
}

/// What starting a job does next, or what it came to.
pub enum HeadlessStep {
    CreateDir { dir: String },
    Prompt,
    WritePrompt { file: String },
    /// Start it in `dir`, its output in the two files, as the session where one
    /// was recorded.
    Spawn { stdout: String, stderr: String, session_id: Option<String> },
    /// It runs; `what` names it.
    Watch { what: &'static str, stdout: String, stderr: String },
    Failed(String),
}

/// Where a job works and what is written there.
pub struct Paths {
    pub dir: Seq<char>,
    pub prompt: Seq<char>,
    pub stdout: Seq<char>,
    pub stderr: Seq<char>,
}

/// Where a job works and what is written there.
pub struct JobFiles {
    pub dir: String,
    pub prompt: String,
    pub stdout: String,
    pub stderr: String,
}

impl View for JobFiles {
    type V = Paths;

    open spec fn view(&self) -> Paths {
        Paths {
            dir: self.dir@,
            prompt: self.prompt@,
            stdout: self.stdout@,
            stderr: self.stderr@,
        }
    }
}

/// Making a job's directory; nothing more where that is done.
pub open spec fn creates(files: Paths, seen: HeadlessSeen, r: HeadlessStep) -> bool {
    match seen.created {
        None => r matches HeadlessStep::CreateDir { dir } && dir@ == files.dir,
        Some(Err(error)) => r matches HeadlessStep::Failed(why) && why@ == "create "@ + files.dir
            + ": "@ + error@,
        Some(Ok(_)) => true,
    }
}

/// Writing a job's prompt and starting it.
pub open spec fn launches(
    files: Paths,
    what: Seq<char>,
    session_id: Option<String>,
    seen: HeadlessSeen,
    r: HeadlessStep,
) -> bool {
    match seen.written {
        None => r matches HeadlessStep::WritePrompt { file } && file@ == files.prompt,
        Some(Err(error)) => r == HeadlessStep::Failed(error),
        Some(Ok(_)) => match seen.spawned {
            None => r matches HeadlessStep::Spawn { stdout, stderr, session_id: id } && stdout@
                == files.stdout && stderr@ == files.stderr && id == session_id,
            Some(Err(error)) => r matches HeadlessStep::Failed(why) && why@ == "start the "@ + what
                + ": "@ + error@,
            Some(Ok(_)) => r matches HeadlessStep::Watch { what: name, stdout, stderr } && name@
                == what && stdout@ == files.stdout && stderr@ == files.stderr,
        },
    }
}

/// Make a job's directory; nothing where that is done.
fn create(files: &JobFiles, seen: &HeadlessSeen) -> (r: Option<HeadlessStep>)
    ensures
        match r {
            Some(step) => !(seen.created matches Some(Ok(_))) && creates(files@, *seen, step),
            None => seen.created matches Some(Ok(_)),
        },
{
    match &seen.created {
        None => Some(HeadlessStep::CreateDir { dir: files.dir.clone() }),
        Some(Err(error)) => Some(
            HeadlessStep::Failed(
                "create ".to_owned().concat(files.dir.as_str()).concat(": ").concat(
                    error.as_str(),
                ),
            ),
        ),
        Some(Ok(_)) => None,
    }
}

/// Write a job's prompt and start it.
fn launch(
    files: JobFiles,
    what: &'static str,
    session_id: &Option<String>,
    seen: &HeadlessSeen,
) -> (r: HeadlessStep)
    ensures
        launches(files@, what@, *session_id, *seen, r),
{
    match &seen.written {
        None => return HeadlessStep::WritePrompt { file: files.prompt },
        Some(Err(error)) => return HeadlessStep::Failed(error.clone()),
        Some(Ok(_)) => {},
    }
    match &seen.spawned {
        None => HeadlessStep::Spawn {
            stdout: files.stdout,
            stderr: files.stderr,
            session_id: same_text(session_id),
        },
        Some(Err(error)) => HeadlessStep::Failed(
            "start the ".to_owned().concat(what).concat(": ").concat(error.as_str()),
        ),
        Some(Ok(_)) => HeadlessStep::Watch { what, stdout: files.stdout, stderr: files.stderr },
    }
}

/// The files of a recovery job, in its run's directory.
pub open spec fn recovery_paths(dir: Seq<char>, alert: RecoveryAlert, attempt: usize) -> Paths {
    Paths {
        dir,
        prompt: path::under(dir, file_name(alert, attempt, "prompt.txt"@)),
        stdout: path::under(dir, file_name(alert, attempt, "out"@)),
        stderr: path::under(dir, file_name(alert, attempt, "err"@)),
    }
}

/// The files of a recovery job, in its run's directory.
fn recovery_files(dir: &str, alert: RecoveryAlert, attempt: usize) -> (r: JobFiles)
    ensures
        r@ == recovery_paths(dir@, alert, attempt),
{
    let prompt = job_file(alert, attempt, "prompt.txt");
    let stdout = job_file(alert, attempt, "out");
    let stderr = job_file(alert, attempt, "err");
    JobFiles {
        dir: dir.to_owned(),
        prompt: path::join_path(dir, prompt.as_str()),
        stdout: path::join_path(dir, stdout.as_str()),
        stderr: path::join_path(dir, stderr.as_str()),
    }
}

/// Write a recovery job's prompt next to its run and start the job there.
/// `session_id` is the session it runs as, where its start recorded one.
pub fn start_job(
    dir: &str,
    alert: RecoveryAlert,
    attempt: usize,
    session_id: &Option<String>,
    seen: &HeadlessSeen,
) -> (r: HeadlessStep)
    ensures
        creates(recovery_paths(dir@, alert, attempt), *seen, r),
        seen.created matches Some(Ok(_)) ==> launches(
            recovery_paths(dir@, alert, attempt),
            "recovery job"@,
            *session_id,
            *seen,
            r,
        ),
{
    let files = recovery_files(dir, alert, attempt);
    match create(&files, seen) {
        Some(step) => step,
        None => launch(files, "recovery job", session_id, seen),
    }
}

/// What a job for a live session is told of its screen: the excerpt, or why the
/// screen could not be read.
pub fn live_screen(captured: Result<String, String>) -> (r: String)
    ensures
        r@ == (match captured {
            Ok(excerpt) => excerpt@,
            Err(error) => "(the screen could not be read: "@ + error@ + ")"@,
        }),
{
    match captured {
        Ok(excerpt) => excerpt,
        Err(error) => "(the screen could not be read: ".to_owned().concat(error.as_str()).concat(
            ")",
        ),
    }
}

/// The files of a plan review job, in a directory of its own.
pub open spec fn review_paths(dir: Seq<char>) -> Paths {
    Paths {
        dir,
        prompt: path::under(dir, "prompt.txt"@),
        stdout: path::under(dir, "review.out"@),
        stderr: path::under(dir, "review.err"@),
    }
}

/// The files of a plan review job, in a directory of its own.
fn review_files(dir: &str) -> (r: JobFiles)
    ensures
        r@ == review_paths(dir@),
{
    JobFiles {
        dir: dir.to_owned(),
        prompt: path::join_path(dir, "prompt.txt"),
        stdout: path::join_path(dir, "review.out"),
        stderr: path::join_path(dir, "review.err"),
    }
}

/// Make a plan review's directory, make and write its prompt, and start the
/// job as the session that was recorded for it.
pub fn spawn_plan_review(job: &PlanReviewJob, seen: &HeadlessSeen) -> (r: HeadlessStep)
    ensures
        creates(review_paths(job.dir@), *seen, r),
        seen.created matches Some(Ok(_)) ==> (match seen.prompted {
            None => r is Prompt,
            Some(Err(error)) => r == HeadlessStep::Failed(error),
            Some(Ok(_)) => launches(
                review_paths(job.dir@),
                "plan review"@,
                Some(job.session_id),
                *seen,
                r,
            ),
        }),
{
    let files = review_files(job.dir.as_str());
    if let Some(step) = create(&files, seen) {
        return step;
    }
    match &seen.prompted {
        None => HeadlessStep::Prompt,
        Some(Err(error)) => HeadlessStep::Failed(error.clone()),
        Some(Ok(_)) => launch(files, "plan review", &Some(job.session_id.clone()), seen),
    }
}

/// A recovery job is started only with its prompt written down.
pub proof fn a_recovery_job_starts_with_its_prompt_written(
    dir: Seq<char>,
    alert: RecoveryAlert,
    attempt: usize,
    session_id: Option<String>,
    seen: HeadlessSeen,
    r: HeadlessStep,
)
    requires
        creates(recovery_paths(dir, alert, attempt), seen, r),
        seen.created matches Some(Ok(_)) ==> launches(
            recovery_paths(dir, alert, attempt),
            "recovery job"@,
            session_id,
            seen,
            r,
        ),
        r is Spawn || r is Watch,
    ensures
        seen.created matches Some(Ok(_)),
        seen.written matches Some(Ok(_)),
{
}

/// A recovery job's directory is made, then its prompt written, then the job
/// started, each once; it writes its output and its errors to files of its own
/// attempt, and a step that failed starts nothing.
pub proof fn a_job_is_made_ready_before_it_starts(
    dir: &str,
    alert: RecoveryAlert,
    attempt: usize,
    session_id: &Option<String>,
    seen: &HeadlessSeen,
    r: HeadlessStep,
)
    requires
        call_ensures(start_job, (dir, alert, attempt, session_id, seen), r),
    ensures
        r is CreateDir <==> seen.created is None,
        r is CreateDir ==> r->dir@ == dir@,
        r is WritePrompt <==> seen.created is Some && seen.created->0 is Ok && seen.written is None,
        r is WritePrompt ==> r->file@ == path::under(dir@, file_name(alert, attempt, "prompt.txt"@)),
        r is Spawn <==> seen.created is Some && seen.created->0 is Ok && seen.written is Some
            && seen.written->0 is Ok && seen.spawned is None,
        r is Spawn ==> r->session_id == *session_id && r->Spawn_stdout@ == path::under(
            dir@,
            file_name(alert, attempt, "out"@),
        ) && r->Spawn_stderr@ == path::under(dir@, file_name(alert, attempt, "err"@)),
        r is Watch <==> seen.created is Some && seen.created->0 is Ok && seen.written is Some
            && seen.written->0 is Ok && seen.spawned is Some && seen.spawned->0 is Ok,
        r is Watch ==> r->Watch_stdout@ == path::under(dir@, file_name(alert, attempt, "out"@))
            && r->Watch_stderr@ == path::under(dir@, file_name(alert, attempt, "err"@)) && r->what@
            == "recovery job"@,
        r is Failed <==> (seen.created is Some && seen.created->0 is Err) || (seen.created is Some
            && seen.written is Some && seen.written->0 is Err) || (seen.created is Some
            && seen.written is Some && seen.spawned is Some && seen.spawned->0 is Err),
        r !is Prompt,
{
}

/// A plan review starts only once its directory is made and its prompt built
/// and written; it runs in the session chosen for the job.
pub proof fn a_review_is_made_ready_before_it_starts(
    job: &PlanReviewJob,
    seen: &HeadlessSeen,
    r: HeadlessStep,
)
    requires
        call_ensures(spawn_plan_review, (job, seen), r),
    ensures
        r is CreateDir <==> seen.created is None,
        r is CreateDir ==> r->dir@ == job.dir@,
        r is Prompt <==> seen.created is Some && seen.created->0 is Ok && seen.prompted is None,
        r is WritePrompt <==> seen.created is Some && seen.created->0 is Ok && seen.prompted is Some
            && seen.prompted->0 is Ok && seen.written is None,
        r is WritePrompt ==> r->file@ == path::under(job.dir@, "prompt.txt"@),
        r is Spawn <==> seen.created is Some && seen.created->0 is Ok && seen.prompted is Some
            && seen.prompted->0 is Ok && seen.written is Some && seen.written->0 is Ok
            && seen.spawned is None,
        r is Spawn ==> r->session_id == Some(job.session_id) && r->Spawn_stdout@ == path::under(
            job.dir@,
            "review.out"@,
        ) && r->Spawn_stderr@ == path::under(job.dir@, "review.err"@),
        r is Watch <==> seen.created is Some && seen.created->0 is Ok && seen.prompted is Some
            && seen.prompted->0 is Ok && seen.written is Some && seen.written->0 is Ok
            && seen.spawned is Some && seen.spawned->0 is Ok,
        r is Watch ==> r->Watch_stdout@ == path::under(job.dir@, "review.out"@)
            && r->Watch_stderr@ == path::under(job.dir@, "review.err"@),
{
}

/// The screen shown is the one captured, and where it could not be captured the
/// text says why.
pub proof fn a_screen_is_shown_as_captured(captured: Result<String, String>, r: String)
    requires
        call_ensures(live_screen, (captured,), r),
    ensures
        captured is Ok ==> r@ == captured->Ok_0@,
        captured is Err ==> r@ == "(the screen could not be read: "@ + captured->Err_0@ + ")"@,
{
}

} // verus!
