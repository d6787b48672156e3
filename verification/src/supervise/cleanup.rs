//! The cleanup of ended runs' worktrees off the supervisor's loop: a job
//! measures and removes them beside it. The loop picks the candidates, and
//! joins the job on a later pass to record what it removed.
//!
//! One job runs at a time; what is asked for meanwhile waits for the next one,
//! so no worktree is cleaned twice at once. The runs a job picked are reserved
//! until it has passed them, and before each worktree the job checks that it
//! is still to clean as it was picked.

use crate::domain::{Failing, ReasonCode, RunStatus, TaskStatus};
use crate::json;
use crate::json::{Fields, Json};
use crate::path;
use crate::supervise::disk::{Cleaned, DiskRequest};
use crate::supervise::sweep::add_once;
use crate::text;
use vstd::prelude::*;
use vstd::string::*;

verus! {

/// The worktree of an ended run.
pub struct EndedRunWorktree {
    pub run_id: String,
    pub status: RunStatus,
    pub task_id: i64,
    pub task_status: TaskStatus,
    pub worktree: String,
    pub branch: Option<String>,
}

/// What a cleanup is asked for: every ended run, or only some tasks'.
pub struct Request {
    pub all: bool,
    pub tasks: Vec<i64>,
    /// For disk space: every ended run, and the claims and landings wait for
    /// the job.
    pub disk: Option<DiskRequest>,
    /// The worktrees are pruned after the others, for disk space.
    pub prune: bool,
}

/// Whether the list holds the task.
fn holds_task(tasks: &Vec<i64>, task: i64) -> (r: bool)
    ensures
        r == tasks@.contains(task),
{
    let mut i: usize = 0;
    while i < tasks.len()
        invariant
            i <= tasks@.len(),
            forall|j: int| 0 <= j < i ==> tasks@[j] != task,
        decreases tasks@.len() - i,
    {
        if tasks[i] == task {
            return true;
        }
        i += 1;
    }
    false
}

impl Request {
    /// A request for nothing.
    pub fn new() -> (r: Request)
        ensures
            r.asks_nothing(),
            r.disk is None,
            !r.prune,
    {
        Request { all: false, tasks: Vec::new(), disk: None, prune: false }
    }

    /// Whether nothing is asked for.
    pub open spec fn asks_nothing(self) -> bool {
        !self.all && self.tasks@.len() == 0
    }

    /// Whether a worktree is asked for.
    pub open spec fn asks_for(self, candidate: EndedRunWorktree) -> bool {
        self.all || self.tasks@.contains(candidate.task_id)
    }

    /// Ask for a task's runs, or every run; for disk space, for every run and
    /// a prune. The first reading is the one the shortage was found at.
    pub fn add(&mut self, task: Option<i64>, disk: Option<DiskRequest>)
        ensures
            final(self).all == (old(self).all || task is None || disk is Some),
            final(self).tasks@ == (if task is Some && !old(self).tasks@.contains(task->0) {
                old(self).tasks@.push(task->0)
            } else {
                old(self).tasks@
            }),
            final(self).prune == (old(self).prune || disk is Some),
            final(self).disk == (if old(self).disk is Some {
                old(self).disk
            } else {
                disk
            }),
    {
        match task {
            Some(task) => if !holds_task(&self.tasks, task) {
                self.tasks.push(task);
            },
            None => {
                self.all = true;
            },
        }
        if disk.is_some() {
            self.all = true;
            self.prune = true;
            if self.disk.is_none() {
                self.disk = disk;
            }
        }
    }

    /// Whether nothing is asked for.
    pub fn is_empty(&self) -> (r: bool)
        ensures
            r == self.asks_nothing(),
    {
        !self.all && self.tasks.len() == 0
    }

    /// Whether a worktree is asked for.
    pub fn wants(&self, candidate: &EndedRunWorktree) -> (r: bool)
        ensures
            r == self.asks_for(*candidate),
    {
        self.all || holds_task(&self.tasks, candidate.task_id)
    }
}

/// What is asked for once stays asked for.
pub proof fn a_request_only_grows(
    before: Request,
    after: Request,
    task: Option<i64>,
    disk: Option<DiskRequest>,
    candidate: EndedRunWorktree,
)
    requires
        after.all == (before.all || task is None || disk is Some),
        after.tasks@ == (if task is Some && !before.tasks@.contains(task->0) {
            before.tasks@.push(task->0)
        } else {
            before.tasks@
        }),
        before.asks_for(candidate) || task == Some(candidate.task_id) || task is None || disk
            is Some,
    ensures
        after.asks_for(candidate),
{
    if task is Some && !before.tasks@.contains(task->0) {
        let pushed = before.tasks@.push(task->0);
        assert(pushed[before.tasks@.len() as int] == task->0);
        if before.tasks@.contains(candidate.task_id) {
            let i = choose|i: int|
                0 <= i < before.tasks@.len() && before.tasks@[i] == candidate.task_id;
            assert(pushed[i] == candidate.task_id);
        }
    }
}

/// The cleanup job that runs.
#[derive(Debug, Clone, Copy, PartialEq, Eq, Structural)]
pub struct Job {
    /// The claims and landings wait for it.
    pub disk: Option<DiskRequest>,
}

/// The cleanup job running now, if any, and what waits for the next one.
pub struct CleanupWatch {
    pub job: Option<Job>,
    pub pending: Request,
    /// The runs the job picked and has not passed yet, which the loop leaves
    /// for a later pass.
    pub cleaning: Vec<String>,
    /// Set on a stop or a handoff: the job ends after its current worktree.
    pub stop: bool,
    /// The loop left a run reserved by the job for a later pass: it waits for
    /// the job, as for a run.
    pub deferred: bool,
}

/// What a job is started with: the places of the worktrees it cleans, and
/// whether it prunes after them.
pub struct Started {
    pub candidates: Vec<usize>,
    pub prune: bool,
}

/// The places of the first `n` worktrees that are asked for and whose run no
/// slot holds.
pub open spec fn picked(
    all: Seq<EndedRunWorktree>,
    request: Request,
    held: Seq<Seq<char>>,
    n: int,
) -> Seq<usize>
    decreases n,
{
    if n <= 0 || n > all.len() {
        Seq::empty()
    } else if request.asks_for(all[n - 1]) && !held.contains(all[n - 1].run_id@) {
        picked(all, request, held, n - 1).push((n - 1) as usize)
    } else {
        picked(all, request, held, n - 1)
    }
}

/// The runs of the worktrees at these places.
pub open spec fn runs_at(all: Seq<EndedRunWorktree>, at: Seq<usize>) -> Seq<Seq<char>> {
    Seq::new(at.len(), |i: int| all[at[i] as int].run_id@)
}

/// What is left without the run.
pub open spec fn without(runs: Seq<Seq<char>>, run: Seq<char>, n: int) -> Seq<Seq<char>>
    decreases n,
{
    if n <= 0 || n > runs.len() {
        Seq::empty()
    } else if runs[n - 1] == run {
        without(runs, run, n - 1)
    } else {
        without(runs, run, n - 1).push(runs[n - 1])
    }
}

impl CleanupWatch {
    /// A watch with no job.
    pub fn new() -> (r: CleanupWatch)
        ensures
            r.job is None,
            r.pending.asks_nothing(),
            r.pending.disk is None,
            !r.pending.prune,
            r.cleaning@.len() == 0,
            !r.stop,
            !r.deferred,
    {
        CleanupWatch {
            job: None,
            pending: Request::new(),
            cleaning: Vec::new(),
            stop: false,
            deferred: false,
        }
    }

    /// A job runs.
    pub fn running(&self) -> (r: bool)
        ensures
            r == self.job is Some,
    {
        self.job.is_some()
    }

    /// A cleanup for disk space runs or waits to.
    pub fn for_disk(&self) -> (r: bool)
        ensures
            r == ((self.job is Some && self.job->0.disk is Some) || self.pending.disk is Some),
    {
        match self.job {
            Some(job) => job.disk.is_some() || self.pending.disk.is_some(),
            None => self.pending.disk.is_some(),
        }
    }

    /// Ask for the worktrees of ended runs to be cleaned, every such run's or
    /// only `task`'s, for disk space when `disk` is given. For room while
    /// another job runs, that job counts for it, so that the claims wait only
    /// for it, and the rest follows without holding them. Whether a job is to
    /// be started for what waits.
    pub fn request_cleanup(&mut self, task: Option<i64>, disk: Option<DiskRequest>) -> (r: bool)
        ensures
            final(self).stop == old(self).stop,
            final(self).deferred == old(self).deferred,
            final(self).cleaning == old(self).cleaning,
            if old(self).stop {
                !r && *final(self) == *old(self)
            } else if disk is Some && old(self).job is Some && old(self).job->0.disk is None {
                !r && final(self).job == Some(Job { disk }) && final(self).pending.all
                    && final(self).pending.prune && final(self).pending.tasks@ == old(
                    self,
                ).pending.tasks@ && final(self).pending.disk == old(self).pending.disk
            } else {
                &&& r
                &&& final(self).job == old(self).job
                &&& final(self).pending.all == (old(self).pending.all || task is None || disk
                    is Some)
                &&& final(self).pending.tasks@ == (if task is Some && !old(
                    self,
                ).pending.tasks@.contains(task->0) {
                    old(self).pending.tasks@.push(task->0)
                } else {
                    old(self).pending.tasks@
                })
                &&& final(self).pending.prune == (old(self).pending.prune || disk is Some)
                &&& final(self).pending.disk == (if old(self).pending.disk is Some {
                    old(self).pending.disk
                } else {
                    disk
                })
            },
    {
        if self.stop {
            return false;
        }
        if disk.is_some() {
            if let Some(job) = self.job {
                if job.disk.is_none() {
                    self.job = Some(Job { disk });
                    self.pending.add(None, None);
                    self.pending.prune = true;
                    return false;
                }
            }
        }
        self.pending.add(task, disk);
        true
    }

    /// On a stop or a handoff: the job ends after its current worktree, and
    /// nothing more is started.
    pub fn end(&mut self)
        ensures
            final(self).stop,
            final(self).pending.asks_nothing(),
            final(self).pending.disk is None,
            !final(self).pending.prune,
            final(self).job == old(self).job,
            final(self).cleaning == old(self).cleaning,
            final(self).deferred == old(self).deferred,
    {
        self.stop = true;
        self.pending = Request::new();
    }

    /// The job was joined, where one ran: whatever it left reserved is free
    /// again. What it was to free disk space for, if it was.
    pub fn joined(&mut self) -> (r: Option<DiskRequest>)
        ensures
            final(self).job is None,
            final(self).stop == old(self).stop,
            final(self).pending == old(self).pending,
            r == (if old(self).job is Some {
                old(self).job->0.disk
            } else {
                None
            }),
            final(self).cleaning@.len() == 0,
            !final(self).deferred,
    {
        let disk = match self.job {
            Some(job) => job.disk,
            None => None,
        };
        self.job = None;
        self.cleaning = Vec::new();
        self.deferred = false;
        disk
    }

    /// Whether a job is to be started: none runs, and something waits.
    pub fn may_start(&self) -> (r: bool)
        ensures
            r == (self.job is None && !self.pending.asks_nothing()),
    {
        self.job.is_none() && !self.pending.is_empty()
    }

    /// Start a job for what waits, of the worktrees listed now, less the runs a
    /// slot holds. What waited is taken even where there is nothing to start.
    pub fn start_cleanup(&mut self, listed: &Option<Vec<EndedRunWorktree>>, held: &Vec<String>) -> (r:
        Option<Started>)
        requires
            old(self).job is None,
            !old(self).pending.asks_nothing(),
        ensures
            final(self).pending.asks_nothing(),
            final(self).pending.disk is None,
            !final(self).pending.prune,
            final(self).stop == old(self).stop,
            final(self).deferred == old(self).deferred,
            match *listed {
                None => r is None && final(self).job is None && final(self).cleaning == old(
                    self,
                ).cleaning,
                Some(all) => {
                    let at = picked(
                        all@,
                        old(self).pending,
                        text::views(held@),
                        all@.len() as int,
                    );
                    if at.len() == 0 && !old(self).pending.prune {
                        r is None && final(self).job is None && final(self).cleaning == old(
                            self,
                        ).cleaning
                    } else {
                        &&& r matches Some(started) && started.candidates@ == at && started.prune
                            == old(self).pending.prune
                        &&& final(self).job == Some(Job { disk: old(self).pending.disk })
                        &&& text::views(final(self).cleaning@) == runs_at(all@, at)
                    }
                },
            },
    {
        let ghost pending = self.pending;
        let disk = self.pending.disk;
        let prune = self.pending.prune;
        let mut at: Vec<usize> = Vec::new();
        let mut runs: Vec<String> = Vec::new();
        if let Some(all) = listed {
            let mut i: usize = 0;
            assert(text::views(runs@) =~= runs_at(all@, at@));
            while i < all.len()
                invariant
                    i <= all@.len(),
                    pending == self.pending,
                    at@ == picked(all@, pending, text::views(held@), i as int),
                    text::views(runs@) == runs_at(all@, at@),
                decreases all@.len() - i,
            {
                if self.pending.wants(&all[i]) && !text::lists(held, all[i].run_id.as_str()) {
                    let ghost had_at = at@;
                    let ghost had = runs@;
                    at.push(i);
                    runs.push(all[i].run_id.clone());
                    assert(text::views(runs@) =~= text::views(had).push(all@[i as int].run_id@));
                    assert(runs_at(all@, at@) =~= runs_at(all@, had_at).push(
                        all@[i as int].run_id@,
                    ));
                }
                i += 1;
            }
        }
        self.pending = Request::new();
        if listed.is_none() || (at.len() == 0 && !prune) {
            return None;
        }
        self.cleaning = runs;
        self.job = Some(Job { disk });
        Some(Started { candidates: at, prune })
    }

    /// The job passed a run: it is no longer reserved.
    pub fn passed(&mut self, run: &str)
        ensures
            text::views(final(self).cleaning@) == without(
                text::views(old(self).cleaning@),
                run@,
                old(self).cleaning@.len() as int,
            ),
            final(self).job == old(self).job,
            final(self).pending == old(self).pending,
            final(self).stop == old(self).stop,
            final(self).deferred == old(self).deferred,
    {
        let mut kept: Vec<String> = Vec::new();
        let mut i: usize = 0;
        assert(text::views(kept@) =~= Seq::empty());
        while i < self.cleaning.len()
            invariant
                i <= self.cleaning@.len(),
                *self == *old(self),
                text::views(kept@) == without(text::views(self.cleaning@), run@, i as int),
            decreases self.cleaning@.len() - i,
        {
            assert(text::views(self.cleaning@)[i as int] == self.cleaning@[i as int]@);
            if !text::same(self.cleaning[i].as_str(), run) {
                let ghost had = kept@;
                kept.push(self.cleaning[i].clone());
                assert(text::views(kept@) =~= text::views(had).push(self.cleaning@[i as int]@));
            }
            i += 1;
        }
        self.cleaning = kept;
    }

    /// Whether the loop leaves a run for a later pass: the job has yet to pass
    /// it.
    pub fn reserves(&self, run: &str) -> (r: bool)
        ensures
            r == text::views(self.cleaning@).contains(run@),
    {
        text::lists(&self.cleaning, run)
    }
}

/// What has been done and observed in a poll of the cleanup.
#[derive(Debug, Clone, Copy, PartialEq, Eq, Default, Structural)]
pub struct PollSeen {
    /// The cleanup was ended, on a stop or a handoff.
    pub ended: bool,
    /// The job's thread is over.
    pub finished: Option<bool>,
    /// The job was joined; what it was to free disk space for, if it was.
    pub joined: Option<Option<DiskRequest>>,
    /// What it did is recorded.
    pub recorded: bool,
    /// What it freed was held against the disk.
    pub told: bool,
    /// The next job was started, where there was something to start.
    pub started: bool,
}

/// What a poll of the cleanup does next.
#[derive(Debug, Clone, Copy, PartialEq, Eq, Structural)]
pub enum PollStep {
    /// Let the job end after its current worktree.
    End,
    Finished,
    /// Join the job; one that panicked did nothing.
    Join,
    Record,
    /// Hold what was freed against what the disk needs.
    CleanedForDisk { disk: DiskRequest },
    /// List the worktrees and start a job for what waits.
    Start,
    Done,
}

/// What a poll of the cleanup comes to.
pub open spec fn polls(watch: CleanupWatch, ending: bool, seen: PollSeen) -> PollStep {
    if ending && !seen.ended {
        PollStep::End
    } else if seen.joined is None {
        if watch.job is None || seen.finished == Some(false) {
            PollStep::Done
        } else if seen.finished is None {
            PollStep::Finished
        } else {
            PollStep::Join
        }
    } else if !seen.recorded {
        PollStep::Record
    } else if seen.joined->0 is Some && !seen.told {
        PollStep::CleanedForDisk { disk: seen.joined->0->0 }
    } else if !seen.started && watch.job is None && !watch.pending.asks_nothing() {
        PollStep::Start
    } else {
        PollStep::Done
    }
}

impl CleanupWatch {
    /// Poll the cleanup: join a finished job, record what it did, and start
    /// what waits; with `ending`, on a stop or a handoff, nothing more is
    /// started.
    pub fn poll_cleanup(&self, ending: bool, seen: PollSeen) -> (r: PollStep)
        ensures
            r == polls(*self, ending, seen),
    {
        if ending && !seen.ended {
            return PollStep::End;
        }
        let disk = match seen.joined {
            None => return match seen.finished {
                _ if self.job.is_none() => PollStep::Done,
                None => PollStep::Finished,
                Some(finished) => if finished {
                    PollStep::Join
                } else {
                    PollStep::Done
                },
            },
            Some(disk) => disk,
        };
        if !seen.recorded {
            return PollStep::Record;
        }
        match disk {
            Some(disk) if !seen.told => return PollStep::CleanedForDisk { disk },
            _ => {},
        }
        if !seen.started && self.may_start() {
            PollStep::Start
        } else {
            PollStep::Done
        }
    }
}

/// A cleanup job starts only once the last one is joined and recorded; once a
/// cleanup was ended, with nothing left waiting, a poll starts none.
pub proof fn cleanups_run_one_by_one(watch: CleanupWatch, ending: bool, seen: PollSeen)
    ensures
        polls(watch, ending, seen) is Start ==> watch.job is None && seen.joined is Some
            && seen.recorded && (ending ==> seen.ended),
        watch.pending.asks_nothing() ==> polls(watch, ending, seen) !is Start,
{
}

/// A run that the job has passed is not reserved any more.
pub proof fn a_passed_run_is_free(runs: Seq<Seq<char>>, run: Seq<char>, n: int)
    requires
        0 <= n <= runs.len(),
    ensures
        !without(runs, run, n).contains(run),
    decreases n,
{
    if n > 0 {
        a_passed_run_is_free(runs, run, n - 1);
        let before = without(runs, run, n - 1);
        if runs[n - 1] != run {
            let after = before.push(runs[n - 1]);
            assert forall|i: int| 0 <= i < after.len() implies #[trigger] after[i] != run by {
                if i < before.len() {
                    assert(before.contains(before[i]));
                }
            }
        }
    }
}

/// No worktree is picked whose run a slot holds or that nobody asked for.
pub proof fn a_held_run_is_not_picked(
    all: Seq<EndedRunWorktree>,
    request: Request,
    held: Seq<Seq<char>>,
    n: int,
)
    requires
        0 <= n <= all.len() <= usize::MAX,
    ensures
        forall|i: int|
            0 <= i < picked(all, request, held, n).len() ==> (#[trigger] picked(
                all,
                request,
                held,
                n,
            )[i]) < n && !held.contains(all[picked(all, request, held, n)[i] as int].run_id@)
                && request.asks_for(all[picked(all, request, held, n)[i] as int]),
    decreases n,
{
    if n > 0 {
        a_held_run_is_not_picked(all, request, held, n - 1);
    }
}

/// Whether two worktrees are the same in every respect.
pub open spec fn is_same(a: EndedRunWorktree, b: EndedRunWorktree) -> bool {
    a.run_id@ == b.run_id@ && a.status == b.status && a.task_id == b.task_id && a.task_status
        == b.task_status && a.worktree@ == b.worktree@ && text::opt_view(a.branch)
        == text::opt_view(b.branch)
}

/// Whether a worktree is still to clean as it was picked.
pub open spec fn is_still(now: Seq<EndedRunWorktree>, candidate: EndedRunWorktree) -> bool {
    exists|i: int| 0 <= i < now.len() && #[trigger] is_same(now[i], candidate)
}

/// Whether a worktree is still to clean as it was picked: nobody leased its run
/// since, and neither it nor its task moved on.
pub fn still_to_clean(now: &Vec<EndedRunWorktree>, candidate: &EndedRunWorktree) -> (r: bool)
    ensures
        r == is_still(now@, *candidate),
{
    let mut i: usize = 0;
    while i < now.len()
        invariant
            i <= now@.len(),
            forall|j: int| 0 <= j < i ==> !#[trigger] is_same(now@[j], *candidate),
        decreases now@.len() - i,
    {
        let one = &now[i];
        let branch = match &candidate.branch {
            Some(branch) => text::is_text(&one.branch, branch.as_str()),
            None => one.branch.is_none(),
        };
        if branch && text::same(one.run_id.as_str(), candidate.run_id.as_str()) && one.status
            == candidate.status && one.task_id == candidate.task_id && one.task_status
            == candidate.task_status && text::same(
            one.worktree.as_str(),
            candidate.worktree.as_str(),
        ) {
            assert(is_same(now@[i as int], *candidate));
            return true;
        }
        i += 1;
    }
    false
}

/// What the job did and observed so far.
#[derive(Default)]
pub struct JobSeen {
    /// The queue could be opened.
    pub opened: Option<bool>,
    /// The candidates before this one are passed.
    pub next: usize,
    /// A stop or a handoff ends the job.
    pub stopped: bool,
    /// The candidate is still to clean; not where the queue could not be read.
    pub still: Option<bool>,
    /// It was cleaned, whatever came of it.
    pub cleaned: bool,
    pub cleared: bool,
    /// The worktrees were pruned.
    pub pruned: bool,
    /// The prune after the others was tried.
    pub prune_tried: bool,
}

/// What the job does next.
#[derive(Debug, Clone, Copy, PartialEq, Eq, Structural)]
pub enum JobStep {
    OpenQueue,
    /// Check the queue again, under the lock.
    Still { index: usize },
    Clean { index: usize },
    /// Reserve the candidate no longer.
    Pass { index: usize },
    /// Reserve none any more.
    Clear,
    Prune,
    Done,
}

/// What the job comes to.
pub open spec fn runs_job(candidates: usize, prune: bool, seen: JobSeen) -> JobStep {
    if seen.opened is None {
        JobStep::OpenQueue
    } else if !seen.opened->0 {
        JobStep::Done
    } else if seen.next < candidates && seen.still is None && !seen.stopped {
        JobStep::Still { index: seen.next }
    } else if seen.next < candidates && seen.still == Some(true) && !seen.cleaned {
        JobStep::Clean { index: seen.next }
    } else if seen.next < candidates && seen.still is Some {
        JobStep::Pass { index: seen.next }
    } else if !seen.cleared {
        JobStep::Clear
    } else if prune && !seen.pruned && !seen.prune_tried {
        JobStep::Prune
    } else {
        JobStep::Done
    }
}

/// Clean each candidate in turn that is still to clean, unless a stop ends the
/// job between two, and prune the worktrees after them for disk space. `seen`
/// has `still` and `cleaned` of the candidate at `next`.
pub fn run_job(candidates: usize, prune: bool, seen: &JobSeen) -> (r: JobStep)
    ensures
        r == runs_job(candidates, prune, *seen),
{
    match seen.opened {
        None => return JobStep::OpenQueue,
        Some(opened) => if !opened {
            return JobStep::Done;
        },
    }
    if seen.next < candidates {
        match seen.still {
            None => if !seen.stopped {
                return JobStep::Still { index: seen.next };
            },
            Some(still) => {
                return if still && !seen.cleaned {
                    JobStep::Clean { index: seen.next }
                } else {
                    JobStep::Pass { index: seen.next }
                };
            },
        }
    }
    if !seen.cleared {
        JobStep::Clear
    } else if prune && !seen.pruned && !seen.prune_tried {
        JobStep::Prune
    } else {
        JobStep::Done
    }
}

/// A worktree is cleaned only where it is still to clean as it was picked.
pub proof fn only_what_is_still_ended_is_cleaned(candidates: usize, prune: bool, seen: JobSeen)
    requires
        runs_job(candidates, prune, seen) is Clean,
    ensures
        seen.still == Some(true),
        seen.next < candidates,
{
}

/// The build outputs removed from the worktree of an ended run: these
/// directories directly under it, unless Git tracks a file in them.
pub open spec fn build_output_dir(i: int) -> Seq<char> {
    if i == 0 {
        "target"@
    } else {
        "llvm-cov-target"@
    }
}

/// The first or the second of the directories that hold build outputs.
pub fn build_output(i: usize) -> (r: &'static str)
    ensures
        r@ == build_output_dir(i as int),
{
    if i == 0 {
        "target"
    } else {
        "llvm-cov-target"
    }
}

/// What was observed of and done to a directory of build outputs.
#[derive(Default)]
pub struct OutputSeen {
    /// What its files take; none where it is not there.
    pub size: Option<Option<u64>>,
    /// Git tracks a file in it.
    pub versioned: Option<bool>,
    pub removed: bool,
}

/// What has been done and observed of a worktree that is cleaned.
#[derive(Default)]
pub struct CleanSeen {
    pub is_dir: Option<bool>,
    /// The repository's branches, without the prefix of their full name.
    pub branches: Option<Vec<String>>,
    pub pruned: bool,
    pub branch_deleted: bool,
    /// What the worktree's files take; none where it is not there.
    pub size: Option<Option<u64>>,
    /// The worktree and its branch were removed; it had to be repaired first.
    pub removed: Option<bool>,
    pub first: OutputSeen,
    pub second: OutputSeen,
}

/// What the job did to a worktree.
pub enum Outcome {
    /// The build outputs of a run whose task goes on.
    BuildOutputs { paths: Vec<String>, size: u64 },
    /// The worktree and branch of a run whose task is over; `missing` when the
    /// directory was already gone and only the branch went, `repaired` when the
    /// worktree had to be repaired first.
    Worktree { branch: String, bytes: u64, missing: bool, repaired: bool },
    Failed { error: String },
}

/// What cleaning a worktree does next, or what it came to.
pub enum CleanStep {
    IsDir,
    Branches,
    Prune,
    DeleteBranch { branch: String },
    MeasureWorktree,
    RemoveWorktree { of: String },
    Measure { dir: String },
    Tracks { name: &'static str },
    Remove { output: String },
    /// Nothing was to clean.
    Nothing,
    Did(Outcome),
}

/// The text without the prefix, however often it stands there.
pub open spec fn stripped(s: Seq<char>, prefix: Seq<char>) -> Seq<char>
    decreases s.len(),
{
    if prefix.len() == 0 || !text::has_prefix(s, prefix) {
        s
    } else {
        stripped(s.skip(prefix.len() as int), prefix)
    }
}

/// The name of a branch without the prefix of its full name.
pub fn short_name(branch: &str) -> (r: String)
    ensures
        r@ == stripped(branch@, "refs/heads/"@),
{
    proof {
        reveal_strlit("refs/heads/");
    }
    let mut name = branch.to_owned();
    loop
        invariant
            stripped(branch@, "refs/heads/"@) == stripped(name@, "refs/heads/"@),
            "refs/heads/"@.len() == 11,
        decreases name@.len(),
    {
        match text::strip_prefix(name.as_str(), "refs/heads/") {
            Some(rest) => {
                assert(rest@ == name@.skip(11));
                name = rest;
            },
            None => return name,
        }
    }
}

/// Whether a run's status lets its build outputs be removed.
pub open spec fn has_ended(status: RunStatus) -> bool {
    status == RunStatus::Integrated || status == RunStatus::Succeeded || status == RunStatus::Failed
        || status == RunStatus::Interrupted
}

/// Whether a task is over.
pub open spec fn is_over(status: TaskStatus) -> bool {
    status == TaskStatus::Completed || status == TaskStatus::Canceled
}

/// What a directory of build outputs needs next, if anything.
pub open spec fn clears(
    worktree: Seq<char>,
    i: int,
    seen: OutputSeen,
    r: Option<CleanStep>,
) -> bool {
    let dir = path::under(worktree, build_output_dir(i));
    match seen.size {
        None => r matches Some(CleanStep::Measure { dir: d }) && d@ == dir,
        Some(None) => r is None,
        Some(Some(_)) => match seen.versioned {
            None => r matches Some(CleanStep::Tracks { name }) && name@ == build_output_dir(i),
            Some(true) => r is None,
            Some(false) => if !seen.removed {
                r matches Some(CleanStep::Remove { output }) && output@ == dir
            } else {
                r is None
            },
        },
    }
}

/// Whether a directory of build outputs was removed.
pub open spec fn was_removed(seen: OutputSeen) -> bool {
    seen.size matches Some(Some(_)) && seen.versioned == Some(false)
}

/// What a directory of build outputs freed.
pub open spec fn freed(seen: OutputSeen) -> int {
    if was_removed(seen) {
        seen.size->0->0 as int
    } else {
        0
    }
}

/// The directories of build outputs that were removed.
pub open spec fn removed_paths(worktree: Seq<char>, seen: CleanSeen) -> Seq<Seq<char>> {
    (if was_removed(seen.first) {
        seq![path::under(worktree, build_output_dir(0))]
    } else {
        Seq::empty()
    }) + (if was_removed(seen.second) {
        seq![path::under(worktree, build_output_dir(1))]
    } else {
        Seq::empty()
    })
}

/// What a worktree whose directory is gone comes to.
pub open spec fn cleans_missing(branch: String, seen: CleanSeen, r: CleanStep) -> bool {
    if seen.branches is None {
        r is Branches
    } else if !seen.branch_deleted && !text::views(seen.branches->0@).contains(
        stripped(branch@, "refs/heads/"@),
    ) {
        r is Nothing
    } else if !seen.pruned {
        r is Prune
    } else if !seen.branch_deleted {
        r == (CleanStep::DeleteBranch { branch })
    } else {
        r == CleanStep::Did(
            Outcome::Worktree { branch, bytes: 0, missing: true, repaired: false },
        )
    }
}

/// What the worktree of a task that goes on comes to.
pub open spec fn cleans_outputs(worktree: Seq<char>, seen: CleanSeen, r: CleanStep) -> bool {
    if !clears(worktree, 0, seen.first, None) {
        clears(worktree, 0, seen.first, Some(r))
    } else if !clears(worktree, 1, seen.second, None) {
        clears(worktree, 1, seen.second, Some(r))
    } else if removed_paths(worktree, seen).len() == 0 {
        r is Nothing
    } else {
        r matches CleanStep::Did(Outcome::BuildOutputs { paths, size }) && text::views(paths@)
            == removed_paths(worktree, seen) && size == freed(seen.first) + freed(seen.second)
    }
}

/// What cleaning a worktree comes to.
pub open spec fn cleans(
    candidate: EndedRunWorktree,
    runs_dir: Seq<char>,
    repo_root: Seq<char>,
    seen: CleanSeen,
    r: CleanStep,
) -> bool {
    let over = is_over(candidate.task_status);
    if !path::is_within(candidate.worktree@, runs_dir) || path::is_within(
        repo_root,
        candidate.worktree@,
    ) {
        r is Nothing
    } else if seen.is_dir is None {
        r is IsDir
    } else if !seen.is_dir->0 {
        if over && candidate.branch is Some {
            cleans_missing(candidate.branch->0, seen, r)
        } else {
            r is Nothing
        }
    } else if over {
        match candidate.branch {
            None => r is Nothing,
            Some(branch) => match (seen.size, seen.removed) {
                (None, _) => r is MeasureWorktree,
                (Some(_), None) => r == (CleanStep::RemoveWorktree { of: branch }),
                (Some(size), Some(repaired)) => r == CleanStep::Did(
                    Outcome::Worktree {
                        branch,
                        bytes: match size {
                            Some(bytes) => bytes,
                            None => 0,
                        },
                        missing: false,
                        repaired,
                    },
                ),
            },
        }
    } else if !has_ended(candidate.status) {
        r is Nothing
    } else {
        cleans_outputs(candidate.worktree@, seen, r)
    }
}

/// Clear a directory of build outputs.
fn clear(worktree: &str, i: usize, seen: &OutputSeen) -> (r: Option<CleanStep>)
    ensures
        clears(worktree@, i as int, *seen, r),
        clears(worktree@, i as int, *seen, None) == (r is None),
{
    match seen.size {
        None => Some(CleanStep::Measure { dir: path::join_path(worktree, build_output(i)) }),
        Some(None) => None,
        Some(Some(_)) => match seen.versioned {
            None => Some(CleanStep::Tracks { name: build_output(i) }),
            Some(versioned) => if versioned || seen.removed {
                None
            } else {
                Some(CleanStep::Remove { output: path::join_path(worktree, build_output(i)) })
            },
        },
    }
}

/// Clean what a worktree whose directory is gone left.
fn clean_missing(branch: &String, seen: &CleanSeen) -> (r: CleanStep)
    ensures
        cleans_missing(*branch, *seen, r),
{
    let branches = match &seen.branches {
        None => return CleanStep::Branches,
        Some(branches) => branches,
    };
    if !seen.branch_deleted {
        let name = short_name(branch.as_str());
        if !text::lists(branches, name.as_str()) {
            return CleanStep::Nothing;
        }
    }
    if !seen.pruned {
        return CleanStep::Prune;
    }
    if !seen.branch_deleted {
        return CleanStep::DeleteBranch { branch: branch.clone() };
    }
    CleanStep::Did(
        Outcome::Worktree { branch: branch.clone(), bytes: 0, missing: true, repaired: false },
    )
}

/// Clean the build outputs of the worktree of a task that goes on.
fn clean_outputs(worktree: &str, seen: &CleanSeen) -> (r: CleanStep)
    requires
        freed(seen.first) + freed(seen.second) <= u64::MAX,
    ensures
        cleans_outputs(worktree@, *seen, r),
{
    if let Some(step) = clear(worktree, 0, &seen.first) {
        return step;
    }
    if let Some(step) = clear(worktree, 1, &seen.second) {
        return step;
    }
    let mut paths: Vec<String> = Vec::new();
    let mut size: u64 = 0;
    let ghost head: Seq<Seq<char>> = if was_removed(seen.first) {
        seq![path::under(worktree@, build_output_dir(0))]
    } else {
        Seq::empty()
    };
    if let (Some(Some(bytes)), Some(false)) = (seen.first.size, seen.first.versioned) {
        paths.push(path::join_path(worktree, build_output(0)));
        size = bytes;
    }
    assert(text::views(paths@) =~= head);
    let ghost had = paths@;
    if let (Some(Some(bytes)), Some(false)) = (seen.second.size, seen.second.versioned) {
        paths.push(path::join_path(worktree, build_output(1)));
        size = size + bytes;
        assert(text::views(paths@) =~= text::views(had).push(
            path::under(worktree@, build_output_dir(1)),
        ));
    }
    assert(text::views(paths@) =~= removed_paths(worktree@, *seen));
    if paths.len() == 0 {
        return CleanStep::Nothing;
    }
    CleanStep::Did(Outcome::BuildOutputs { paths, size })
}

/// Clean one ended run's worktree: where its task is over, the worktree and its
/// branch go, or the branch alone where the directory is already gone; where it
/// goes on, only the build outputs go. Only a worktree under the run directory
/// is touched, never the checkout the supervisor was given.
pub fn clean_worktree(
    candidate: &EndedRunWorktree,
    runs_dir: &str,
    repo_root: &str,
    seen: &CleanSeen,
) -> (r: CleanStep)
    requires
        freed(seen.first) + freed(seen.second) <= u64::MAX,
    ensures
        cleans(*candidate, runs_dir@, repo_root@, *seen, r),
{
    if !path::within(candidate.worktree.as_str(), runs_dir) || path::within(
        repo_root,
        candidate.worktree.as_str(),
    ) {
        return CleanStep::Nothing;
    }
    let over = candidate.task_status == TaskStatus::Completed || candidate.task_status
        == TaskStatus::Canceled;
    let is_dir = match seen.is_dir {
        None => return CleanStep::IsDir,
        Some(is_dir) => is_dir,
    };
    if !is_dir {
        if !over {
            return CleanStep::Nothing;
        }
        return match &candidate.branch {
            None => CleanStep::Nothing,
            Some(branch) => clean_missing(branch, seen),
        };
    }
    if over {
        let branch = match &candidate.branch {
            None => return CleanStep::Nothing,
            Some(branch) => branch,
        };
        let size = match seen.size {
            None => return CleanStep::MeasureWorktree,
            Some(size) => size,
        };
        return match seen.removed {
            None => CleanStep::RemoveWorktree { of: branch.clone() },
            Some(repaired) => CleanStep::Did(
                Outcome::Worktree {
                    branch: branch.clone(),
                    bytes: match size {
                        Some(bytes) => bytes,
                        None => 0,
                    },
                    missing: false,
                    repaired,
                },
            ),
        };
    }
    if candidate.status != RunStatus::Integrated && candidate.status != RunStatus::Succeeded
        && candidate.status != RunStatus::Failed && candidate.status != RunStatus::Interrupted {
        return CleanStep::Nothing;
    }
    clean_outputs(candidate.worktree.as_str(), seen)
}

/// Only a worktree under the run directory is touched, and never one that the
/// checkout is in.
pub proof fn the_checkout_is_not_touched(
    candidate: EndedRunWorktree,
    runs_dir: Seq<char>,
    repo_root: Seq<char>,
    seen: CleanSeen,
    r: CleanStep,
)
    requires
        cleans(candidate, runs_dir, repo_root, seen, r),
        r !is Nothing,
    ensures
        path::is_within(candidate.worktree@, runs_dir),
        !path::is_within(repo_root, candidate.worktree@),
{
}

/// The sources and commits of a run stay while its task goes on: neither its
/// worktree nor its branch is removed.
pub proof fn a_task_that_goes_on_keeps_its_worktree(
    candidate: EndedRunWorktree,
    runs_dir: Seq<char>,
    repo_root: Seq<char>,
    seen: CleanSeen,
    r: CleanStep,
)
    requires
        cleans(candidate, runs_dir, repo_root, seen, r),
        !is_over(candidate.task_status),
    ensures
        r !is RemoveWorktree,
        r !is DeleteBranch,
{
}

/// What has been done and observed of a worktree that is removed with its
/// branch.
#[derive(Default)]
pub struct RemoveSeen {
    pub removed: Option<Result<(), String>>,
    pub repaired: Option<Result<(), String>>,
    pub removed_again: Option<Result<(), String>>,
}

/// What removing a worktree does next, or what it came to.
pub enum RemoveStep {
    Remove,
    Repair,
    RemoveAgain,
    /// It is gone; whether it had to be repaired first.
    Removed { repaired: bool },
    Failed(String),
}

/// Remove a worktree and its branch. Where that is refused, the worktree is
/// repaired and the removal tried once more.
pub fn remove_worktree(seen: &RemoveSeen) -> (r: RemoveStep)
    ensures
        match seen.removed {
            None => r is Remove,
            Some(Ok(_)) => r == (RemoveStep::Removed { repaired: false }),
            Some(Err(error)) => match seen.repaired {
                None => r is Repair,
                Some(Err(why)) => r matches RemoveStep::Failed(text) && text@ == error@
                    + "; and repairing the worktree failed: "@ + why@,
                Some(Ok(_)) => match seen.removed_again {
                    None => r is RemoveAgain,
                    Some(Ok(_)) => r == (RemoveStep::Removed { repaired: true }),
                    Some(Err(why)) => r matches RemoveStep::Failed(text) && text@ == error@
                        + "; repaired, and removing it again failed: "@ + why@,
                },
            },
        },
{
    let error = match &seen.removed {
        None => return RemoveStep::Remove,
        Some(Ok(_)) => return RemoveStep::Removed { repaired: false },
        Some(Err(error)) => error,
    };
    match &seen.repaired {
        None => return RemoveStep::Repair,
        Some(Err(why)) => {
            return RemoveStep::Failed(
                error.clone().concat("; and repairing the worktree failed: ").concat(
                    why.as_str(),
                ),
            );
        },
        Some(Ok(_)) => {},
    }
    match &seen.removed_again {
        None => RemoveStep::RemoveAgain,
        Some(Ok(_)) => RemoveStep::Removed { repaired: true },
        Some(Err(why)) => RemoveStep::Failed(
            error.clone().concat("; repaired, and removing it again failed: ").concat(
                why.as_str(),
            ),
        ),
    }
}

/// An event that a cleanup records of a run.
pub struct CleanupRecord {
    pub kind: &'static str,
    pub payload: Json,
    /// To a failure's payload the reason of the error is added, of this code
    /// where the error has none of its own.
    pub fallback: Option<ReasonCode>,
}

/// The bytes that an outcome freed.
pub open spec fn outcome_bytes(outcome: Outcome) -> int {
    match outcome {
        Outcome::BuildOutputs { size, .. } => size as int,
        Outcome::Worktree { bytes, .. } => bytes as int,
        Outcome::Failed { .. } => 0,
    }
}

/// What is recorded of a worktree and its branch that were removed.
pub open spec fn worktree_payload(
    candidate: EndedRunWorktree,
    branch: Seq<char>,
    bytes: u64,
    missing: bool,
    repaired: bool,
) -> json::Value {
    let base = json::none().push(("path"@, json::Value::Text(candidate.worktree@))).push(
        ("branch"@, json::Value::Text(branch)),
    ).push(("bytes"@, json::Value::Int(bytes as int))).push(
        ("by"@, json::Value::Text("supervisor"@)),
    ).push(("reason"@, json::Value::Text("task_"@ + candidate.task_status.name())));
    let told = if missing {
        base.push(("worktree_missing"@, json::Value::Bool(true)))
    } else {
        base
    };
    json::Value::Object(
        if repaired {
            told.push(("repaired"@, json::Value::Bool(true)))
        } else {
            told
        },
    )
}

/// What is recorded of an outcome.
pub open spec fn records(
    candidate: EndedRunWorktree,
    outcome: Outcome,
    failures: Seq<Seq<char>>,
    r: Option<CleanupRecord>,
) -> bool {
    match outcome {
        Outcome::BuildOutputs { paths, size } => r matches Some(record) && record.kind@
            == "build_outputs_removed"@ && record.payload@ == json::Value::Object(
            json::none().push(("paths"@, json::list_of(text::views(paths@)))).push(
                ("bytes"@, json::Value::Int(size as int)),
            ).push(("by"@, json::Value::Text("supervisor"@))),
        ) && record.fallback is None,
        Outcome::Worktree { branch, bytes, missing, repaired } => r matches Some(record)
            && record.kind@ == "worktree_removed"@ && record.payload@ == worktree_payload(
            candidate,
            branch@,
            bytes,
            missing,
            repaired,
        ) && record.fallback is None,
        Outcome::Failed { error } => if failures.contains(candidate.worktree@) {
            r is None
        } else {
            r matches Some(record) && record.kind@ == "cleanup_failed"@ && record.payload@
                == json::Value::Object(
                json::none().push(("path"@, json::Value::Text(candidate.worktree@))).push(
                    (
                        "message"@,
                        json::Value::Text(
                            "worktree "@ + candidate.worktree@ + " could not be cleaned: "@
                                + error@,
                        ),
                    ),
                ).push(("by"@, json::Value::Text("supervisor"@))),
            ) && record.fallback == Some(Failing::Worktree.code())
        },
    }
}

/// What is recorded of an outcome: what was removed, or the failure, once per
/// worktree and process. What it freed is added to `cleaned`.
pub fn record_cleanup(
    candidate: &EndedRunWorktree,
    outcome: &Outcome,
    failures: &mut Vec<String>,
    cleaned: &mut Cleaned,
) -> (r: Option<CleanupRecord>)
    requires
        old(cleaned).bytes + outcome_bytes(*outcome) <= u64::MAX,
    ensures
        records(*candidate, *outcome, text::views(old(failures)@), r),
        final(cleaned).bytes == old(cleaned).bytes + outcome_bytes(*outcome),
        text::views(final(cleaned).runs@) == (if outcome_bytes(*outcome) > 0 {
            text::views(old(cleaned).runs@).push(candidate.run_id@)
        } else {
            text::views(old(cleaned).runs@)
        }),
        text::views(final(failures)@) == (if *outcome is Failed && !text::views(
            old(failures)@,
        ).contains(candidate.worktree@) {
            text::views(old(failures)@).push(candidate.worktree@)
        } else {
            text::views(old(failures)@)
        }),
{
    match outcome {
        Outcome::BuildOutputs { paths, size } => {
            cleaned.add(candidate.run_id.as_str(), *size);
            Some(
                CleanupRecord {
                    kind: "build_outputs_removed",
                    payload: Fields::new().texts("paths", paths).number(
                        "bytes",
                        *size as i128,
                    ).text("by", "supervisor").done(),
                    fallback: None,
                },
            )
        },
        Outcome::Worktree { branch, bytes, missing, repaired } => {
            cleaned.add(candidate.run_id.as_str(), *bytes);
            let reason = "task_".to_owned().concat(candidate.task_status.as_str());
            let fields = Fields::new().text("path", candidate.worktree.as_str()).text(
                "branch",
                branch.as_str(),
            ).number("bytes", *bytes as i128).text("by", "supervisor").text(
                "reason",
                reason.as_str(),
            );
            let fields = if *missing {
                fields.flag("worktree_missing", true)
            } else {
                fields
            };
            let fields = if *repaired {
                fields.flag("repaired", true)
            } else {
                fields
            };
            Some(
                CleanupRecord {
                    kind: "worktree_removed",
                    payload: fields.done(),
                    fallback: None,
                },
            )
        },
        Outcome::Failed { error } => {
            if !add_once(failures, candidate.worktree.as_str()) {
                return None;
            }
            let message = "worktree ".to_owned().concat(candidate.worktree.as_str()).concat(
                " could not be cleaned: ",
            ).concat(error.as_str());
            Some(
                CleanupRecord {
                    kind: "cleanup_failed",
                    payload: Fields::new().text("path", candidate.worktree.as_str()).text(
                        "message",
                        message.as_str(),
                    ).text("by", "supervisor").done(),
                    fallback: Some(Failing::Worktree.fallback()),
                },
            )
        },
    }
}

/// A request asks for a run where it asks for all or for the run's task.
pub proof fn a_request_names_its_tasks(request: Request, candidate: EndedRunWorktree)
    ensures
        request.all ==> request.asks_for(candidate),
        !request.all ==> (request.asks_for(candidate) <==> exists|i: int|
            0 <= i < request.tasks@.len() && (#[trigger] request.tasks@[i]) == candidate.task_id),
        request.asks_nothing() ==> !request.asks_for(candidate),
{
}

/// Every ended run that is asked for and not held is picked to be cleaned.
pub proof fn an_asked_for_run_is_picked(
    all: Seq<EndedRunWorktree>,
    request: Request,
    held: Seq<Seq<char>>,
    n: int,
    i: int,
)
    requires
        0 <= i < n <= all.len() <= usize::MAX,
        request.all || request.tasks@.contains(all[i].task_id),
        !held.contains(all[i].run_id@),
    ensures
        picked(all, request, held, n).contains(i as usize),
    decreases n,
{
    let before = picked(all, request, held, n - 1);
    let after = picked(all, request, held, n);
    if i < n - 1 {
        an_asked_for_run_is_picked(all, request, held, n - 1, i);
        let k = choose|k: int| 0 <= k < before.len() && before[k] == i as usize;
        assert(after[k] == i as usize);
    } else {
        assert(after[before.len() as int] == i as usize);
    }
}

/// A cleanup is joined once it finished, recorded, told of where it was for
/// the disk, and followed by the next only where one is asked for.
pub proof fn a_cleanup_is_joined_then_followed(
    watch: CleanupWatch,
    ending: bool,
    seen: PollSeen,
    r: PollStep,
)
    requires
        r == polls(watch, ending, seen),
    ensures
        r is End <==> ending && !seen.ended,
        r is Join <==> !(ending && !seen.ended) && seen.joined is None && watch.job is Some
            && seen.finished is Some && seen.finished->0,
        r is Finished <==> !(ending && !seen.ended) && seen.joined is None && watch.job is Some
            && seen.finished is None,
        r is Record <==> !(ending && !seen.ended) && seen.joined is Some && !seen.recorded,
        r matches PollStep::CleanedForDisk { disk } ==> seen.joined == Some(Some(disk))
            && seen.recorded && !seen.told,
        r is Start ==> watch.job is None && (watch.pending.all || watch.pending.tasks@.len() > 0)
            && !seen.started && seen.recorded && ((seen.joined matches Some(Some(_)))
            ==> seen.told),
{
}

/// A cleanup's job cleans a run only where it is still as it was listed,
/// passes each once, and prunes after all where that was asked for; a queue
/// that cannot be opened ends it.
pub proof fn a_cleanup_job_goes_in_order(candidates: usize, prune: bool, seen: JobSeen, r: JobStep)
    requires
        r == runs_job(candidates, prune, seen),
    ensures
        r is OpenQueue <==> seen.opened is None,
        seen.opened is Some && !seen.opened->0 ==> r is Done,
        r matches JobStep::Clean { index } ==> index == seen.next && index < candidates && seen.still
            is Some && seen.still->0 && !seen.cleaned,
        r matches JobStep::Still { index } ==> index == seen.next && index < candidates
            && !seen.stopped && seen.still is None,
        r matches JobStep::Pass { index } ==> index == seen.next && index < candidates && seen.still
            is Some && (seen.still->0 ==> seen.cleaned),
        r is Prune ==> prune && seen.cleared && !seen.pruned && !seen.prune_tried,
        r is Clear ==> !seen.cleared && (seen.next >= candidates || (seen.stopped && seen.still
            is None)),
{
}

/// A run is cleaned only under the runs' directory and never around the
/// checkout; its worktree and branch are removed only where its task is over,
/// and its build outputs only where the run ended and they are not versioned.
pub proof fn only_what_is_over_is_removed(
    candidate: EndedRunWorktree,
    runs_dir: Seq<char>,
    repo_root: Seq<char>,
    seen: CleanSeen,
    r: CleanStep,
)
    requires
        cleans(candidate, runs_dir, repo_root, seen, r),
    ensures
        r !is Nothing ==> path::is_within(candidate.worktree@, runs_dir) && !path::is_within(
            repo_root,
            candidate.worktree@,
        ),
        r matches CleanStep::RemoveWorktree { of } ==> (candidate.task_status
            == TaskStatus::Completed || candidate.task_status == TaskStatus::Canceled)
            && candidate.branch == Some(of) && seen.is_dir is Some && seen.is_dir->0 && seen.removed
            is None,
        r matches CleanStep::DeleteBranch { branch } ==> (candidate.task_status
            == TaskStatus::Completed || candidate.task_status == TaskStatus::Canceled)
            && candidate.branch == Some(branch) && seen.is_dir is Some && !seen.is_dir->0
            && seen.pruned && !seen.branch_deleted,
        r is Remove ==> (candidate.status == RunStatus::Integrated || candidate.status
            == RunStatus::Succeeded || candidate.status == RunStatus::Failed || candidate.status
            == RunStatus::Interrupted) && candidate.task_status != TaskStatus::Completed
            && candidate.task_status != TaskStatus::Canceled,
        r matches CleanStep::Remove { output } ==> ({
            ||| output@ == path::under(candidate.worktree@, "target"@) && (
            seen.first.versioned matches Some(is) && !is) && !seen.first.removed
            ||| output@ == path::under(candidate.worktree@, "llvm-cov-target"@) && (
            seen.second.versioned matches Some(is) && !is) && !seen.second.removed
        }),
        r matches CleanStep::Did(Outcome::Worktree { branch, missing, repaired, .. }) ==> candidate.branch
            == Some(branch) && (missing <==> seen.is_dir is Some && !seen.is_dir->0) && (!missing
            ==> seen.removed == Some(repaired)),
        r matches CleanStep::Did(Outcome::BuildOutputs { size, .. }) ==> size <= (
        if seen.first.size matches Some(Some(_)) {
            seen.first.size->0->0 as int
        } else {
            0
        }) + (if seen.second.size matches Some(Some(_)) {
            seen.second.size->0->0 as int
        } else {
            0
        }),
{
}

/// A worktree that could not be removed is repaired and removed once more; the
/// error of the first try is told where that did not help.
pub proof fn a_removal_is_tried_after_a_repair(seen: &RemoveSeen, r: RemoveStep)
    requires
        call_ensures(remove_worktree, (seen,), r),
    ensures
        r is Remove <==> seen.removed is None,
        r is Repair <==> (seen.removed matches Some(Err(_))) && seen.repaired is None,
        r is RemoveAgain <==> (seen.removed matches Some(Err(_))) && (
        seen.repaired matches Some(Ok(_))) && seen.removed_again is None,
        r matches RemoveStep::Removed { repaired } ==> (!repaired && (seen.removed matches Some(
            Ok(_),
        ))) || (repaired && (seen.removed matches Some(Err(_))) && (seen.removed_again matches Some(
            Ok(_),
        ))),
        r matches RemoveStep::Failed(why) ==> (seen.removed matches Some(Err(error)) && why@.len()
            >= error@.len() && why@.take(error@.len() as int) == error@),
{
    if let RemoveStep::Failed(why) = r {
        if let Some(Err(error)) = seen.removed {
            assert(why@.take(error@.len() as int) =~= error@);
        }
    }
}

/// What a cleanup did is recorded, and a failure once for each worktree.
pub proof fn a_cleanup_is_recorded_as_it_went(
    candidate: EndedRunWorktree,
    outcome: Outcome,
    failures: Seq<Seq<char>>,
    r: Option<CleanupRecord>,
)
    requires
        records(candidate, outcome, failures, r),
    ensures
        r is None <==> outcome is Failed && failures.contains(candidate.worktree@),
        r matches Some(record) ==> {
            &&& outcome is BuildOutputs ==> record.kind@ == "build_outputs_removed"@
            &&& outcome is Worktree ==> record.kind@ == "worktree_removed"@
            &&& outcome is Failed ==> record.kind@ == "cleanup_failed"@
            &&& record.fallback is Some <==> outcome is Failed
        },
{
}

/// A candidate is still to be cleaned where the list now holds one that is the
/// same in every way.
pub proof fn a_changed_run_is_not_cleaned(
    now: &Vec<EndedRunWorktree>,
    candidate: &EndedRunWorktree,
    r: bool,
)
    requires
        call_ensures(still_to_clean, (now, candidate), r),
    ensures
        r ==> exists|i: int|
            0 <= i < now@.len() && (#[trigger] now@[i]).run_id@ == candidate.run_id@
                && now@[i].status == candidate.status && now@[i].task_id == candidate.task_id
                && now@[i].task_status == candidate.task_status && now@[i].worktree@
                == candidate.worktree@,
{
    if r {
        let i = choose|i: int| 0 <= i < now@.len() && #[trigger] is_same(now@[i], *candidate);
        assert(now@[i].run_id@ == candidate.run_id@);
    }
}

/// A branch's short name is what is left after its prefix.
pub proof fn a_branch_is_shortened(name: Seq<char>)
    requires
        !text::has_prefix(name, "refs/heads/"@),
    ensures
        stripped("refs/heads/"@ + name, "refs/heads/"@) == name,
        stripped(name, "refs/heads/"@) == name,
{
    reveal_strlit("refs/heads/");
    let whole = "refs/heads/"@ + name;
    assert(whole.take("refs/heads/"@.len() as int) =~= "refs/heads/"@);
    assert(whole.skip("refs/heads/"@.len() as int) =~= name);
    reveal_with_fuel(stripped, 3);
}

/// A request that grows forgets nothing, and asks for all where no task is named
/// or room is needed; what room is needed for first stays.
pub proof fn a_request_keeps_what_it_asked(
    request: &mut Request,
    task: Option<i64>,
    disk: Option<DiskRequest>,
    r: (),
)
    requires
        call_ensures(Request::add, (request, task, disk), r),
    ensures
        final(request).all <==> old(request).all || task is None || disk is Some,
        final(request).prune <==> old(request).prune || disk is Some,
        old(request).disk is Some ==> final(request).disk == old(request).disk,
        old(request).disk is None ==> final(request).disk == disk,
        task is Some ==> final(request).tasks@.contains(task->0),
        forall|t: i64| old(request).tasks@.contains(t) ==> final(request).tasks@.contains(t),
        forall|t: i64|
            final(request).tasks@.contains(t) ==> old(request).tasks@.contains(t) || task == Some(t),
{
    let before = old(request).tasks@;
    let after = final(request).tasks@;
    assert forall|t: i64| before.contains(t) implies after.contains(t) by {
        let k = choose|k: int| 0 <= k < before.len() && before[k] == t;
        assert(after[k] == t);
    }
    if task is Some && !before.contains(task->0) {
        assert(after[before.len() as int] == task->0);
    }
}

/// No cleanup is asked for once the end has come; room needed while a job runs
/// without it is given to that job, and the next one cleans everything; any other
/// request waits for the next job.
pub proof fn a_cleanup_is_asked_for_until_the_end(
    watch: &mut CleanupWatch,
    task: Option<i64>,
    disk: Option<DiskRequest>,
    r: bool,
)
    requires
        call_ensures(CleanupWatch::request_cleanup, (watch, task, disk), r),
    ensures
        old(watch).stop ==> !r && *final(watch) == *old(watch),
        !old(watch).stop && disk is Some && old(watch).job is Some && old(watch).job->0.disk is None
            ==> final(watch).job is Some && final(watch).job->0.disk == disk && final(watch).pending.all && final(watch).pending.prune,
        !old(watch).stop && !(disk is Some && old(watch).job is Some && old(watch).job->0.disk
            is None) ==> r && final(watch).job == old(watch).job && !final(watch).pending.asks_nothing() && (task is Some ==> final(watch).pending.tasks@.contains(
            task->0,
        )) && (task is None || disk is Some ==> final(watch).pending.all),
        old(watch).pending.all ==> final(watch).pending.all,
        final(watch).cleaning == old(watch).cleaning,
{
    let before = old(watch).pending.tasks@;
    let after = final(watch).pending.tasks@;
    if task is Some && !old(watch).stop {
        if before.contains(task->0) {
        } else if after.len() > before.len() {
            assert(after[before.len() as int] == task->0);
        }
    }
}

/// The end takes back what waits and lets nothing more start; a job that runs is
/// left to be joined.
pub proof fn the_end_stops_further_cleanups(watch: &mut CleanupWatch, r: ())
    requires
        call_ensures(CleanupWatch::end, (watch,), r),
    ensures
        final(watch).stop,
        !final(watch).pending.all && final(watch).pending.tasks@.len() == 0,
        !final(watch).pending.prune && final(watch).pending.disk is None,
        final(watch).job == old(watch).job,
{
}

/// A job that was joined is over, holds no run any more, and gives back the room
/// it was to make.
pub proof fn a_joined_cleanup_is_over(watch: &mut CleanupWatch, r: Option<DiskRequest>)
    requires
        call_ensures(CleanupWatch::joined, (watch,), r),
    ensures
        final(watch).job is None && final(watch).cleaning@.len() == 0 && !final(watch).deferred,
        final(watch).pending == old(watch).pending,
        old(watch).job is Some ==> r == old(watch).job->0.disk,
        old(watch).job is None ==> r is None,
{
}

/// A cleanup may start where none runs and something was asked for.
pub proof fn one_cleanup_at_a_time(watch: &CleanupWatch, r: bool)
    requires
        call_ensures(CleanupWatch::may_start, (watch,), r),
    ensures
        r <==> watch.job is None && (watch.pending.all || watch.pending.tasks@.len() > 0),
{
}

/// A cleanup takes every run that was asked for and that nobody holds, and no
/// other, and holds each while it cleans; what was asked for is then taken.
pub proof fn a_cleanup_takes_what_was_asked_for(
    watch: &mut CleanupWatch,
    listed: &Option<Vec<EndedRunWorktree>>,
    held: &Vec<String>,
    r: Option<Started>,
)
    requires
        call_ensures(CleanupWatch::start_cleanup, (watch, listed, held), r),
    ensures
        !final(watch).pending.all && final(watch).pending.tasks@.len() == 0,
        r is Some <==> final(watch).job is Some,
        r is Some ==> *listed is Some && r->0.prune == old(watch).pending.prune && final(watch).job->0.disk == old(watch).pending.disk,
        *listed is None ==> r is None,
        r is Some ==> forall|k: int|
            0 <= k < r->0.candidates@.len() ==> {
                let i = #[trigger] r->0.candidates@[k];
                &&& i < listed->0@.len()
                &&& old(watch).pending.all || old(watch).pending.tasks@.contains(
                    listed->0@[i as int].task_id,
                )
                &&& forall|h: int|
                    0 <= h < held@.len() ==> (#[trigger] held@[h])@ != listed->0@[i as int].run_id@
            },
        r is Some ==> forall|i: int|
            0 <= i < listed->0@.len() && (old(watch).pending.all || old(watch).pending.tasks@.contains((#[trigger] listed->0@[i]).task_id)) && (forall|h: int|
                0 <= h < held@.len() ==> (#[trigger] held@[h])@ != listed->0@[i].run_id@)
                ==> r->0.candidates@.contains(i as usize),
        r is Some ==> final(watch).cleaning@.len() == r->0.candidates@.len() && forall|k: int|
            0 <= k < final(watch).cleaning@.len() ==> (#[trigger] final(watch).cleaning@[k])@
                == listed->0@[r->0.candidates@[k] as int].run_id@,
        *listed is Some && old(watch).pending.prune ==> r is Some,
{
    if r is Some {
        let all = listed->0@;
        let names = text::views(held@);
        let n = all.len() as int;
        assert(listed->0.len() == n);
        the_picked_are_asked_for(all, old(watch).pending, names, n);
        let at = r->0.candidates@;
        assert forall|i: int|
            (forall|h: int| 0 <= h < held@.len() ==> (#[trigger] held@[h])@ != (
            #[trigger] all[i]).run_id@) implies !names.contains(all[i].run_id@) by {
            if names.contains(all[i].run_id@) {
                let h = choose|h: int| 0 <= h < names.len() && names[h] == all[i].run_id@;
                assert(held@[h]@ == all[i].run_id@);
            }
        }
        assert forall|k: int| 0 <= k < at.len() implies {
            let i = #[trigger] at[k];
            &&& i < all.len()
            &&& old(watch).pending.all || old(watch).pending.tasks@.contains(all[i as int].task_id)
            &&& forall|h: int| 0 <= h < held@.len() ==> (#[trigger] held@[h])@ != all[i as int].run_id@
        } by {
            assert forall|h: int| 0 <= h < held@.len() implies (#[trigger] held@[h])@
                != all[at[k] as int].run_id@ by {
                assert(names[h] == held@[h]@);
            }
        }
        let runs = text::views(final(watch).cleaning@);
        assert(runs.len() == final(watch).cleaning@.len());
        assert forall|k: int| 0 <= k < final(watch).cleaning@.len() implies (#[trigger] final(watch).cleaning@[k])@ == all[at[k] as int].run_id@ by {
            assert(runs[k] == final(watch).cleaning@[k]@);
        }
    }
}

/// The runs picked are those asked for and not held.
proof fn the_picked_are_asked_for(
    all: Seq<EndedRunWorktree>,
    request: Request,
    held: Seq<Seq<char>>,
    n: int,
)
    requires
        0 <= n <= all.len() <= usize::MAX,
    ensures
        forall|k: int|
            0 <= k < picked(all, request, held, n).len() ==> {
                let i = #[trigger] picked(all, request, held, n)[k];
                i < n && (request.all || request.tasks@.contains(all[i as int].task_id))
                    && !held.contains(all[i as int].run_id@)
            },
        forall|i: int|
            0 <= i < n && (request.all || request.tasks@.contains((#[trigger] all[i]).task_id))
                && !held.contains(all[i].run_id@) ==> picked(all, request, held, n).contains(
                i as usize,
            ),
    decreases n,
{
    if n > 0 {
        the_picked_are_asked_for(all, request, held, n - 1);
        let before = picked(all, request, held, n - 1);
        let after = picked(all, request, held, n);
        assert forall|k: int| 0 <= k < after.len() implies {
            let i = #[trigger] after[k];
            i < n && (request.all || request.tasks@.contains(all[i as int].task_id))
                && !held.contains(all[i as int].run_id@)
        } by {
            if k < before.len() {
                assert(after[k] == before[k]);
            }
        }
        assert forall|i: int|
            0 <= i < n && (request.all || request.tasks@.contains((#[trigger] all[i]).task_id))
                && !held.contains(all[i].run_id@) implies after.contains(i as usize) by {
            if i < n - 1 {
                let k = choose|k: int| 0 <= k < before.len() && before[k] == i as usize;
                assert(after[k] == i as usize);
            } else {
                assert(after[before.len() as int] == i as usize);
            }
        }
    }
}

/// A run that was passed is held no more, and every other one still is.
pub proof fn a_passed_run_is_held_no_more(
    watch: &mut CleanupWatch,
    run: &str,
    r: (),
    other: Seq<char>,
)
    requires
        call_ensures(CleanupWatch::passed, (watch, run), r),
    ensures
        !text::views(final(watch).cleaning@).contains(run@),
        other != run@ ==> (text::views(final(watch).cleaning@).contains(other) <==> text::views(
            old(watch).cleaning@,
        ).contains(other)),
        final(watch).job == old(watch).job,
{
    let runs = text::views(old(watch).cleaning@);
    assert(runs.len() == old(watch).cleaning@.len());
    without_drops_only(runs, run@, runs.len() as int, run@);
    without_drops_only(runs, run@, runs.len() as int, other);
    assert(runs.take(runs.len() as int) =~= runs);
}

/// Only the run that is dropped is dropped.
proof fn without_drops_only(runs: Seq<Seq<char>>, run: Seq<char>, n: int, other: Seq<char>)
    requires
        0 <= n <= runs.len(),
    ensures
        without(runs, run, n).contains(other) <==> other != run && runs.take(n).contains(other),
    decreases n,
{
    if n > 0 {
        without_drops_only(runs, run, n - 1, other);
        let before = without(runs, run, n - 1);
        let after = without(runs, run, n);
        let had = runs.take(n - 1);
        let has = runs.take(n);
        assert(has =~= had.push(runs[n - 1]));
        if after.contains(other) {
            let k = choose|k: int| 0 <= k < after.len() && after[k] == other;
            if k < before.len() {
                assert(before[k] == other);
                let j = choose|j: int| 0 <= j < had.len() && had[j] == other;
                assert(has[j] == other);
            } else {
                assert(has[n - 1] == other);
            }
        }
        if other != run && has.contains(other) {
            let j = choose|j: int| 0 <= j < has.len() && has[j] == other;
            if j < n - 1 {
                assert(had[j] == other);
                let k = choose|k: int| 0 <= k < before.len() && before[k] == other;
                assert(after[k] == other);
            } else {
                assert(after[before.len() as int] == other);
            }
        }
    } else {
        assert(runs.take(0) =~= Seq::empty());
    }
}

/// What a cleanup freed is summed up, its run named where it freed something,
/// and a worktree that could not be cleaned remembered once.
pub proof fn a_cleanups_outcome_is_summed_up(
    candidate: &EndedRunWorktree,
    outcome: &Outcome,
    failures: &mut Vec<String>,
    cleaned: &mut Cleaned,
    r: Option<CleanupRecord>,
)
    requires
        call_ensures(record_cleanup, (candidate, outcome, failures, cleaned), r),
    ensures
        *outcome matches Outcome::BuildOutputs { size, .. } ==> final(cleaned).bytes == old(
            cleaned).bytes + size,
        *outcome matches Outcome::Worktree { bytes, .. } ==> final(cleaned).bytes == old(
            cleaned).bytes + bytes,
        *outcome is Failed ==> final(cleaned).bytes == old(cleaned).bytes,
        *outcome is Failed ==> text::views(final(failures)@).contains(candidate.worktree@),
        *outcome !is Failed ==> text::views(final(failures)@) == text::views(old(failures)@),
        final(cleaned).bytes > old(cleaned).bytes ==> text::views(final(cleaned).runs@)
            == text::views(old(cleaned).runs@).push(candidate.run_id@),
        final(cleaned).bytes == old(cleaned).bytes ==> text::views(final(cleaned).runs@)
            == text::views(old(cleaned).runs@),
{
    let before = text::views(old(failures)@);
    let after = text::views(final(failures)@);
    if *outcome is Failed && !before.contains(candidate.worktree@) {
        assert(after[before.len() as int] == candidate.worktree@);
    }
}

} // verus!
