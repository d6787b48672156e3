//! Plan review: the supervisor takes the submitted proposals one at a time
//! through a headless job, applies its verdict, applies a person's answer to
//! its `approve_plan` ask, delivers a revise to the proposal's planner or opens
//! one of the runtime's for it, tells the inbox of a planner that does not
//! answer, and ends the runtime's planners that are done. None of this takes a
//! run slot; a failure is tried again on a later pass.

use crate::domain::{age, elapsed, same_text, Agent, AskKind, AskReason, Asker, NewAsk};
use crate::planner::{PlannerLaunch, PlannerOrigin, PlannerState, PlannerView};
use crate::supervise::clock::{passed, since};
use crate::supervise::draft_planner;
use crate::supervise::draft_planner::{
    open_planners, AnswerSeen, AnswerStep, OpenStep, PlannerAnswer, Subject,
};
use crate::supervise::drive::Layout;
use crate::text;
use vstd::prelude::*;
use vstd::string::*;

verus! {

/// Asks a person answered that the plan review is offered as precedents.
pub const PRECEDENT_ASKS: usize = 30;

/// Files that conflict often which the plan review is told of at most.
pub const HOTSPOT_FILES: usize = 15;

/// Ready and in-progress tasks which the plan review is told of at most.
pub const QUEUED_TASKS: usize = 200;

/// What a pass of plan review did and observed.
#[derive(Debug, Clone, Copy, PartialEq, Eq, Structural, Default)]
pub struct PassSeen {
    /// Whether any proposal was settled; not where that failed.
    pub settled: Option<bool>,
    /// Whether an answer was applied; not where that failed.
    pub answered: Option<bool>,
    /// Whether the job was reaped; not where that failed.
    pub polled: Option<bool>,
    pub started: bool,
    pub tended: bool,
}

/// What a pass of plan review does next.
#[derive(Debug, Clone, Copy, PartialEq, Eq, Structural)]
pub enum PassStep {
    SettleProposals,
    ApplyAnswers,
    Poll,
    StartReview,
    TendPlanners,
    Done { progressed: bool },
}

/// What a pass of plan review comes to.
pub open spec fn passes(starting: bool, seen: PassSeen) -> PassStep {
    if seen.settled is None {
        PassStep::SettleProposals
    } else if seen.answered is None {
        PassStep::ApplyAnswers
    } else if seen.polled is None {
        PassStep::Poll
    } else if starting && !seen.started {
        PassStep::StartReview
    } else if starting && !seen.tended {
        PassStep::TendPlanners
    } else {
        PassStep::Done { progressed: seen.settled->0 || seen.answered->0 || seen.polled->0 }
    }
}

/// One pass of plan review: settle the proposals, apply the answers, reap the
/// job and apply its verdict; then, unless the loop drains, start the next job
/// and tend the planners.
pub fn plan_review_pass(starting: bool, seen: PassSeen) -> (r: PassStep)
    ensures
        r == passes(starting, seen),
{
    let settled = match seen.settled {
        None => return PassStep::SettleProposals,
        Some(settled) => settled,
    };
    let answered = match seen.answered {
        None => return PassStep::ApplyAnswers,
        Some(answered) => answered,
    };
    let polled = match seen.polled {
        None => return PassStep::Poll,
        Some(polled) => polled,
    };
    if starting && !seen.started {
        return PassStep::StartReview;
    }
    if starting && !seen.tended {
        return PassStep::TendPlanners;
    }
    PassStep::Done { progressed: settled || answered || polled }
}

/// A draining loop starts no plan review and opens no planner.
pub proof fn a_draining_loop_starts_no_plan_review(seen: PassSeen)
    ensures
        passes(false, seen) !is StartReview,
        passes(false, seen) !is TendPlanners,
{
}

/// What has been done and observed of starting a plan review.
#[derive(Default)]
pub struct BeginSeen {
    pub running: bool,
    /// The proposal that is next, if any.
    pub candidate: Option<Option<i64>>,
    /// The job was begun; not where another supervisor took it.
    pub begun: Option<bool>,
    pub spawned: Option<Result<(), String>>,
    pub failed: bool,
}

/// What starting a plan review does next.
pub enum BeginStep {
    Candidates,
    Begin { proposal: i64 },
    Spawn,
    /// The job runs.
    Watch,
    Fail { error: String },
    Done,
}

/// Start the plan review of the next candidate, when none runs. A job that
/// cannot start fails its review.
pub fn start_plan_review(seen: &BeginSeen) -> (r: BeginStep)
    ensures
        if seen.running {
            r is Done
        } else {
            match seen.candidate {
                None => r is Candidates,
                Some(None) => r is Done,
                Some(Some(proposal)) => match seen.begun {
                    None => r == (BeginStep::Begin { proposal }),
                    Some(false) => r is Done,
                    Some(true) => match seen.spawned {
                        None => r is Spawn,
                        Some(Ok(_)) => r is Watch,
                        Some(Err(error)) => if seen.failed {
                            r is Done
                        } else {
                            r matches BeginStep::Fail { error: why } && why@
                                == "the headless plan review could not start: "@ + error@
                        },
                    },
                },
            }
        },
{
    if seen.running {
        return BeginStep::Done;
    }
    let proposal: i64 = match seen.candidate {
        None => return BeginStep::Candidates,
        Some(None) => return BeginStep::Done,
        Some(Some(proposal)) => proposal,
    };
    match seen.begun {
        None => return BeginStep::Begin { proposal },
        Some(begun) => if !begun {
            return BeginStep::Done;
        },
    }
    match &seen.spawned {
        None => BeginStep::Spawn,
        Some(Ok(_)) => BeginStep::Watch,
        Some(Err(error)) => if seen.failed {
            BeginStep::Done
        } else {
            BeginStep::Fail {
                error: "the headless plan review could not start: ".to_owned().concat(
                    error.as_str(),
                ),
            }
        },
    }
}

/// Whether the list rises from each of its numbers to the next.
pub open spec fn rises(list: Seq<i64>) -> bool {
    forall|i: int, j: int| 0 <= i < j < list.len() ==> list[i] < list[j]
}

/// Put a number into a rising list, once.
fn insert_rising(list: &mut Vec<i64>, id: i64)
    requires
        rises(old(list)@),
    ensures
        rises(final(list)@),
        final(list)@.to_set() =~= old(list)@.to_set().insert(id),
{
    let mut at: usize = 0;
    while at < list.len() && list[at] < id
        invariant
            at <= list@.len(),
            forall|i: int| 0 <= i < at ==> list@[i] < id,
        decreases list@.len() - at,
    {
        at += 1;
    }
    let ghost had = list@;
    if at < list.len() && list[at] == id {
        assert(had.to_set().contains(had[at as int]));
        assert(had.to_set() =~= had.to_set().insert(id));
        return;
    }
    assert(at < had.len() ==> had[at as int] > id);
    list.insert(at, id);
    assert(list@ == had.insert(at as int, id));
    assert(rises(list@));
    assert forall|n: i64| list@.to_set().contains(n) <==> had.to_set().insert(id).contains(n) by {
        if list@.contains(n) {
            let i = choose|i: int| 0 <= i < list@.len() && list@[i] == n;
            if i < at {
                assert(had.contains(had[i]));
            } else if i > at {
                assert(had.contains(had[i - 1]));
            }
        }
        if had.contains(n) {
            let i = choose|i: int| 0 <= i < had.len() && had[i] == n;
            if i < at {
                assert(list@[i] == n);
            } else {
                assert(list@[i + 1] == n);
            }
        }
        if n == id {
            assert(list@[at as int] == n);
        }
    }
}

/// Whether a goal is that of one of the first `n` tasks.
pub open spec fn is_task_goal(tasks: Seq<Option<i64>>, n: int, goal: i64) -> bool {
    exists|i: int| 0 <= i < n && #[trigger] tasks[i] == Some(goal)
}

/// The goals of the proposal and its tasks, each once, in order of their ids.
pub fn goal_ids(tasks: &Vec<Option<i64>>, proposal: &Vec<i64>) -> (r: Vec<i64>)
    ensures
        rises(r@),
        forall|goal: i64|
            r@.to_set().contains(goal) <==> (is_task_goal(tasks@, tasks@.len() as int, goal)
                || proposal@.to_set().contains(goal)),
{
    let mut out: Vec<i64> = Vec::new();
    let mut i: usize = 0;
    while i < tasks.len()
        invariant
            i <= tasks@.len(),
            rises(out@),
            forall|goal: i64|
                out@.to_set().contains(goal) <==> is_task_goal(tasks@, i as int, goal),
        decreases tasks@.len() - i,
    {
        let ghost had = out@;
        if let Some(goal) = tasks[i] {
            insert_rising(&mut out, goal);
        }
        assert forall|goal: i64|
            out@.to_set().contains(goal) <==> is_task_goal(tasks@, i + 1, goal) by {
            if had.to_set().contains(goal) {
                let k = choose|k: int| 0 <= k < i && tasks@[k] == Some(goal);
                assert(tasks@[k] == Some(goal));
            }
            if tasks@[i as int] == Some(goal) {
                assert(is_task_goal(tasks@, i + 1, goal));
            }
            if is_task_goal(tasks@, i + 1, goal) && tasks@[i as int] != Some(goal) {
                let k = choose|k: int| 0 <= k < i + 1 && tasks@[k] == Some(goal);
                assert(is_task_goal(tasks@, i as int, goal));
            }
        }
        i += 1;
    }
    let mut j: usize = 0;
    while j < proposal.len()
        invariant
            j <= proposal@.len(),
            rises(out@),
            forall|goal: i64|
                out@.to_set().contains(goal) <==> (is_task_goal(
                    tasks@,
                    tasks@.len() as int,
                    goal,
                ) || proposal@.subrange(0, j as int).to_set().contains(goal)),
        decreases proposal@.len() - j,
    {
        let ghost had = out@;
        let goal: i64 = proposal[j];
        insert_rising(&mut out, goal);
        proof {
            let before = proposal@.subrange(0, j as int);
            let after = proposal@.subrange(0, j + 1);
            assert(after =~= before.push(goal));
            assert forall|n: i64| after.to_set().contains(n) <==> (before.to_set().contains(n) || n
                == goal) by {
                if before.contains(n) {
                    let k = choose|k: int| 0 <= k < before.len() && before[k] == n;
                    assert(after[k] == n);
                }
                if n == goal {
                    assert(after[j as int] == n);
                }
                if after.contains(n) && n != goal {
                    let k = choose|k: int| 0 <= k < after.len() && after[k] == n;
                    assert(before[k] == n);
                }
            }
        }
        j += 1;
    }
    assert(proposal@.subrange(0, proposal@.len() as int) =~= proposal@);
    out
}

/// The files that a task is expected to touch.
pub struct Expected {
    pub task_id: i64,
    pub files: Vec<String>,
}

/// A ready or in-progress task.
pub struct Queued {
    pub expected: Expected,
    pub in_progress: bool,
}

/// The files that the first entry of a task names.
pub open spec fn files_of(list: Seq<Expected>, task: i64) -> Option<Seq<Seq<char>>>
    decreases list.len(),
{
    if list.len() == 0 {
        None
    } else if list[0].task_id == task {
        Some(text::views(list[0].files@))
    } else {
        files_of(list.drop_first(), task)
    }
}

/// Whether no task has two entries.
pub open spec fn one_each(list: Seq<Expected>) -> bool {
    forall|i: int, j: int|
        0 <= i < j < list.len() ==> (#[trigger] list[i]).task_id != (#[trigger] list[j]).task_id
}

/// The files of an entry of a task that has no second one.
proof fn files_at(list: Seq<Expected>, i: int)
    requires
        0 <= i < list.len(),
        one_each(list),
    ensures
        files_of(list, list[i].task_id) == Some(text::views(list[i].files@)),
    decreases list.len(),
{
    if i > 0 {
        let rest = list.drop_first();
        assert(rest[i - 1] == list[i]);
        assert(one_each(rest)) by {
            assert forall|a: int, b: int| 0 <= a < b < rest.len() implies (#[trigger] rest[a]).task_id
                != (#[trigger] rest[b]).task_id by {
                assert(list[a + 1].task_id != list[b + 1].task_id);
            }
        }
        files_at(rest, i - 1);
        assert(list[0].task_id != list[i].task_id);
    }
}

/// A task without an entry has no files.
proof fn files_nowhere(list: Seq<Expected>, task: i64)
    requires
        forall|i: int| 0 <= i < list.len() ==> (#[trigger] list[i]).task_id != task,
    ensures
        files_of(list, task) is None,
    decreases list.len(),
{
    if list.len() > 0 {
        let rest = list.drop_first();
        assert forall|i: int| 0 <= i < rest.len() implies (#[trigger] rest[i]).task_id != task by {
            assert(rest[i] == list[i + 1]);
        }
        files_nowhere(rest, task);
    }
}

/// The place of a task's entry.
fn find_entry(list: &Vec<Expected>, task: i64) -> (r: Option<usize>)
    ensures
        match r {
            Some(i) => i < list@.len() && list@[i as int].task_id == task,
            None => forall|i: int| 0 <= i < list@.len() ==> (#[trigger] list@[i]).task_id != task,
        },
{
    let mut i: usize = 0;
    while i < list.len()
        invariant
            i <= list@.len(),
            forall|j: int| 0 <= j < i ==> (#[trigger] list@[j]).task_id != task,
        decreases list@.len() - i,
    {
        if list[i].task_id == task {
            return Some(i);
        }
        i += 1;
    }
    None
}

/// Give a task its files, in place of those it had.
fn put_files(list: &mut Vec<Expected>, task: i64, files: &Vec<String>)
    requires
        one_each(old(list)@),
    ensures
        one_each(final(list)@),
        forall|k: i64|
            #[trigger] files_of(final(list)@, k) == (if k == task {
                Some(text::views(files@))
            } else {
                files_of(old(list)@, k)
            }),
{
    let ghost had = list@;
    let entry = Expected { task_id: task, files: text::copied(files) };
    let found = find_entry(list, task);
    match found {
        Some(i) => {
            list.set(i, entry);
            assert(list@ == had.update(i as int, entry));
        },
        None => {
            list.push(entry);
            assert(list@ == had.push(entry));
        },
    }
    proof {
        let now = list@;
        assert(one_each(now));
        assert forall|k: i64| #[trigger] files_of(now, k) == (if k == task {
            Some(text::views(files@))
        } else {
            files_of(had, k)
        }) by {
            let at: int = match found {
                Some(i) => i as int,
                None => had.len() as int,
            };
            if k == task {
                files_at(now, at);
            } else if exists|i: int| 0 <= i < had.len() && (#[trigger] had[i]).task_id == k {
                let i = choose|i: int| 0 <= i < had.len() && (#[trigger] had[i]).task_id == k;
                files_at(had, i);
                assert(now[i] == had[i]);
                files_at(now, i);
            } else {
                files_nowhere(had, k);
                assert forall|i: int| 0 <= i < now.len() implies (#[trigger] now[i]).task_id
                    != k by {
                    if i < had.len() && i != at {
                        assert(now[i] == had[i]);
                    }
                }
                files_nowhere(now, k);
            }
        }
    }
}

/// The files of the last of the first `n` entries of a task.
pub open spec fn last_files(list: Seq<Expected>, task: i64, n: int) -> Option<Seq<Seq<char>>>
    decreases n,
{
    if n <= 0 || n > list.len() {
        None
    } else if list[n - 1].task_id == task {
        Some(text::views(list[n - 1].files@))
    } else {
        last_files(list, task, n - 1)
    }
}

/// The files of the last of the first `n` queued entries of a task.
pub open spec fn last_queued(list: Seq<Queued>, task: i64, n: int) -> Option<Seq<Seq<char>>>
    decreases n,
{
    if n <= 0 || n > list.len() {
        None
    } else if list[n - 1].expected.task_id == task {
        Some(text::views(list[n - 1].expected.files@))
    } else {
        last_queued(list, task, n - 1)
    }
}

/// Whether a queued task is in progress.
pub open spec fn any_in_progress(queued: Seq<Queued>) -> bool {
    exists|i: int| 0 <= i < queued.len() && (#[trigger] queued[i]).in_progress
}

/// Whether a queued task is in progress: then the runs in flight are read.
pub fn in_progress(queued: &Vec<Queued>) -> (r: bool)
    ensures
        r == any_in_progress(queued@),
{
    let mut i: usize = 0;
    while i < queued.len()
        invariant
            i <= queued@.len(),
            forall|j: int| 0 <= j < i ==> !(#[trigger] queued@[j]).in_progress,
        decreases queued@.len() - i,
    {
        if queued[i].in_progress {
            return true;
        }
        i += 1;
    }
    false
}

/// The files a task is expected to touch before the runs in flight are read.
pub open spec fn planned_files(tasks: Seq<Expected>, queued: Seq<Queued>, task: i64) -> Option<
    Seq<Seq<char>>,
> {
    match last_queued(queued, task, queued.len() as int) {
        Some(files) => Some(files),
        None => last_files(tasks, task, tasks.len() as int),
    }
}

/// The files a task is expected to touch.
pub open spec fn expected_of(
    tasks: Seq<Expected>,
    queued: Seq<Queued>,
    in_flight: Seq<Expected>,
    task: i64,
) -> Option<Seq<Seq<char>>> {
    match planned_files(tasks, queued, task) {
        None => None,
        Some(files) => if any_in_progress(queued) {
            match last_files(in_flight, task, in_flight.len() as int) {
                Some(files) => Some(files),
                None => Some(files),
            }
        } else {
            Some(files)
        },
    }
}

/// The files each task of the proposal and each ready or in-progress task is
/// expected to touch; for one whose run is in flight, what that run is expected
/// to.
pub fn plan_expected_files(
    tasks: &Vec<Expected>,
    queued: &Vec<Queued>,
    in_flight: &Vec<Expected>,
) -> (r: Vec<Expected>)
    ensures
        one_each(r@),
        forall|task: i64|
            #[trigger] files_of(r@, task) == expected_of(tasks@, queued@, in_flight@, task),
{
    let mut out: Vec<Expected> = Vec::new();
    let mut i: usize = 0;
    while i < tasks.len()
        invariant
            i <= tasks@.len(),
            one_each(out@),
            forall|k: i64| #[trigger] files_of(out@, k) == last_files(tasks@, k, i as int),
        decreases tasks@.len() - i,
    {
        put_files(&mut out, tasks[i].task_id, &tasks[i].files);
        i += 1;
    }
    let mut j: usize = 0;
    while j < queued.len()
        invariant
            j <= queued@.len(),
            one_each(out@),
            forall|k: i64|
                #[trigger] files_of(out@, k) == (match last_queued(queued@, k, j as int) {
                    Some(files) => Some(files),
                    None => last_files(tasks@, k, tasks@.len() as int),
                }),
        decreases queued@.len() - j,
    {
        put_files(&mut out, queued[j].expected.task_id, &queued[j].expected.files);
        j += 1;
    }
    if !in_progress(queued) {
        return out;
    }
    let mut n: usize = 0;
    while n < in_flight.len()
        invariant
            n <= in_flight@.len(),
            one_each(out@),
            forall|k: i64|
                #[trigger] files_of(out@, k) == (match planned_files(tasks@, queued@, k) {
                    None => None,
                    Some(files) => match last_files(in_flight@, k, n as int) {
                        Some(files) => Some(files),
                        None => Some(files),
                    },
                }),
        decreases in_flight@.len() - n,
    {
        let task: i64 = in_flight[n].task_id;
        let ghost had = out@;
        match find_entry(&out, task) {
            Some(at) => {
                proof {
                    files_at(had, at as int);
                }
                put_files(&mut out, task, &in_flight[n].files);
            },
            None => {
                proof {
                    files_nowhere(had, task);
                }
            },
        }
        assert forall|k: i64| #[trigger] files_of(out@, k) == (match planned_files(
            tasks@,
            queued@,
            k,
        ) {
            None => None,
            Some(files) => match last_files(in_flight@, k, n + 1) {
                Some(files) => Some(files),
                None => Some(files),
            },
        }) by {
            let before = files_of(had, k);
            let here = files_of(had, task);
        }
        n += 1;
    }
    out
}

/// A hit of the search for what a task duplicates.
#[derive(Debug, Clone, Copy, PartialEq, Eq, Structural)]
pub struct Hit {
    /// The id of a hit that is a task.
    pub task: Option<i64>,
    /// The task that any other hit names.
    pub task_id: Option<i64>,
}

/// The task that a hit is about.
pub open spec fn about(hit: Hit) -> Option<i64> {
    match hit.task {
        Some(id) => Some(id),
        None => hit.task_id,
    }
}

/// The places of the first `limit` of the first `n` hits that are none of the
/// proposal's own.
pub open spec fn foreign(hits: Seq<Hit>, own: Seq<i64>, limit: nat, n: int) -> Seq<usize>
    decreases n,
{
    if n <= 0 || n > hits.len() {
        Seq::empty()
    } else {
        let before = foreign(hits, own, limit, n - 1);
        if before.len() < limit && !(about(hits[n - 1]) matches Some(id) && own.contains(id)) {
            before.push((n - 1) as usize)
        } else {
            before
        }
    }
}

/// Whether the list holds the number.
fn holds(list: &Vec<i64>, n: i64) -> (r: bool)
    ensures
        r == list@.contains(n),
{
    let mut i: usize = 0;
    while i < list.len()
        invariant
            i <= list@.len(),
            forall|j: int| 0 <= j < i ==> list@[j] != n,
        decreases list@.len() - i,
    {
        if list[i] == n {
            return true;
        }
        i += 1;
    }
    false
}

/// How many hits are asked for, so that the proposal's own leave enough.
pub fn wanted_candidates(own: &Vec<i64>, limit: usize) -> (r: usize)
    requires
        limit + own@.len() <= usize::MAX,
    ensures
        r == limit + own@.len(),
{
    limit + own.len()
}

/// Where the plan review starts looking for what a task duplicates: the places
/// of the hits, at most `limit`, none of them the proposal's own.
pub fn duplicate_candidates(hits: &Vec<Hit>, own: &Vec<i64>, limit: usize) -> (r: Vec<usize>)
    ensures
        r@ == foreign(hits@, own@, limit as nat, hits@.len() as int),
{
    let mut out: Vec<usize> = Vec::new();
    let mut i: usize = 0;
    while i < hits.len()
        invariant
            i <= hits@.len(),
            out@ == foreign(hits@, own@, limit as nat, i as int),
        decreases hits@.len() - i,
    {
        let task = match hits[i].task {
            Some(id) => Some(id),
            None => hits[i].task_id,
        };
        let ours = match task {
            Some(id) => holds(own, id),
            None => false,
        };
        if out.len() < limit && !ours {
            out.push(i);
        }
        i += 1;
    }
    out
}

/// No candidate is one of the proposal's own tasks, and there are never more
/// than asked for.
pub proof fn candidates_are_foreign(hits: Seq<Hit>, own: Seq<i64>, limit: nat, n: int)
    requires
        0 <= n <= hits.len() <= usize::MAX,
    ensures
        foreign(hits, own, limit, n).len() <= limit,
        forall|i: int|
            0 <= i < foreign(hits, own, limit, n).len() ==> (#[trigger] foreign(
                hits,
                own,
                limit,
                n,
            )[i]) < n && !(about(hits[foreign(hits, own, limit, n)[i] as int]) matches Some(id)
                && own.contains(id)),
    decreases n,
{
    if n > 0 {
        candidates_are_foreign(hits, own, limit, n - 1);
    }
}

/// The places of the first `limit` of the first `n` files that main still has.
pub open spec fn kept_files(states: Seq<Seq<char>>, limit: nat, n: int) -> Seq<usize>
    decreases n,
{
    if n <= 0 || n > states.len() {
        Seq::empty()
    } else {
        let before = kept_files(states, limit, n - 1);
        if before.len() < limit && states[n - 1] != "deleted"@ {
            before.push((n - 1) as usize)
        } else {
            before
        }
    }
}

/// The places of the files that conflict often, most conflicts first, at most
/// [`HOTSPOT_FILES`] of those main still has. `states` is each file's state.
pub fn conflict_hotspots(states: &Vec<String>) -> (r: Vec<usize>)
    ensures
        r@ == kept_files(text::views(states@), HOTSPOT_FILES as nat, states@.len() as int),
{
    let mut out: Vec<usize> = Vec::new();
    let mut i: usize = 0;
    while i < states.len()
        invariant
            i <= states@.len(),
            out@ == kept_files(text::views(states@), HOTSPOT_FILES as nat, i as int),
        decreases states@.len() - i,
    {
        assert(text::views(states@)[i as int] == states@[i as int]@);
        if out.len() < HOTSPOT_FILES && !text::same(states[i].as_str(), "deleted") {
            out.push(i);
        }
        i += 1;
    }
    out
}

/// How many queued tasks the plan review is not told of.
pub fn queued_left_out(total: usize, listed: usize) -> (r: usize)
    ensures
        r == (if total > listed {
            total - listed
        } else {
            0
        }),
{
    if total > listed {
        total - listed
    } else {
        0
    }
}

/// What a plan review decides.
#[derive(Debug, Clone, Copy, PartialEq, Eq, Structural)]
pub enum PlanReviewDecision {
    Ready,
    Revise,
    Concern,
}

impl PlanReviewDecision {
    /// Its name on the queue.
    pub open spec fn name(self) -> Seq<char> {
        match self {
            PlanReviewDecision::Ready => "ready"@,
            PlanReviewDecision::Revise => "revise"@,
            PlanReviewDecision::Concern => "concern"@,
        }
    }

    /// Its name on the queue.
    pub fn as_str(self) -> (r: &'static str)
        ensures
            r@ == self.name(),
    {
        match self {
            PlanReviewDecision::Ready => "ready",
            PlanReviewDecision::Revise => "revise",
            PlanReviewDecision::Concern => "concern",
        }
    }
}

/// A plan review's verdict on a proposal.
pub struct PlanReviewVerdict {
    pub verdict: PlanReviewDecision,
    pub reasons: Vec<String>,
    pub summary: String,
    /// The asks that it names as precedents.
    pub precedents: Vec<i64>,
}

/// A plan review job.
pub struct PlanReviewJob {
    pub proposal_id: i64,
    /// The proposal's first task.
    pub anchor: i64,
    pub attempt: usize,
    pub dir: String,
    /// The session that it runs as.
    pub session_id: String,
}

/// What has been done and observed of the plan review job.
#[derive(Default)]
pub struct PollSeen {
    pub running: bool,
    /// What its process printed once it ended, or why it failed.
    pub ended: Option<Result<(), String>>,
    /// What parsing and applying its verdict gave.
    pub applied: Option<Result<(), String>>,
    pub failed: bool,
}

/// What reaping the plan review job does next.
pub enum PollStep {
    /// Nothing to reap.
    Nothing,
    /// Parse what it printed and apply the verdict.
    Apply,
    Fail { error: String },
    Reaped,
}

/// Reap the plan review job once it ended and apply its verdict, or record its
/// failure.
pub fn poll_plan_review(seen: &PollSeen) -> (r: PollStep)
    ensures
        if !seen.running || seen.ended is None {
            r is Nothing
        } else {
            match (seen.ended->0, seen.applied) {
                (Err(error), _) => if seen.failed {
                    r is Reaped
                } else {
                    r == (PollStep::Fail { error })
                },
                (Ok(_), None) => r is Apply,
                (Ok(_), Some(Ok(_))) => r is Reaped,
                (Ok(_), Some(Err(error))) => if seen.failed {
                    r is Reaped
                } else {
                    r == (PollStep::Fail { error })
                },
            }
        },
{
    if !seen.running {
        return PollStep::Nothing;
    }
    let error = match &seen.ended {
        None => return PollStep::Nothing,
        Some(Err(error)) => error,
        Some(Ok(_)) => match &seen.applied {
            None => return PollStep::Apply,
            Some(Ok(_)) => return PollStep::Reaped,
            Some(Err(error)) => error,
        },
    };
    if seen.failed {
        PollStep::Reaped
    } else {
        PollStep::Fail { error: error.clone() }
    }
}

/// An ask that a person answered, as a precedent tells it.
pub struct Precedent {
    pub id: i64,
    pub line: String,
}

/// The line of the first of the answered asks, from `from` on, with the id.
pub open spec fn precedent_line(answered: Seq<Precedent>, id: i64, from: int) -> Option<Seq<char>>
    decreases answered.len() - from,
{
    if from < 0 || from >= answered.len() {
        None
    } else if answered[from].id == id {
        Some(answered[from].line@)
    } else {
        precedent_line(answered, id, from + 1)
    }
}

/// The lines of the first `n` precedents that were answered.
pub open spec fn quoted(ids: Seq<i64>, answered: Seq<Precedent>, n: int) -> Seq<Seq<char>>
    decreases n,
{
    if n <= 0 || n > ids.len() {
        Seq::empty()
    } else {
        let before = quoted(ids, answered, n - 1);
        match precedent_line(answered, ids[n - 1], 0) {
            Some(line) => before.push(line),
            None => before,
        }
    }
}

/// The line of the first of the answered asks with the id.
fn find_line(answered: &Vec<Precedent>, id: i64) -> (r: Option<String>)
    ensures
        text::opt_view(r) == precedent_line(answered@, id, 0),
{
    let mut i: usize = 0;
    while i < answered.len()
        invariant
            i <= answered@.len(),
            precedent_line(answered@, id, 0) == precedent_line(answered@, id, i as int),
        decreases answered@.len() - i,
    {
        if answered[i].id == id {
            return Some(answered[i].line.clone());
        }
        i += 1;
    }
    None
}

/// The lines of the precedents that were answered, in the verdict's order.
pub fn quote(ids: &Vec<i64>, answered: &Vec<Precedent>) -> (r: Vec<String>)
    ensures
        text::views(r@) == quoted(ids@, answered@, ids@.len() as int),
{
    let mut out: Vec<String> = Vec::new();
    let mut i: usize = 0;
    assert(text::views(out@) =~= Seq::empty());
    while i < ids.len()
        invariant
            i <= ids@.len(),
            text::views(out@) == quoted(ids@, answered@, i as int),
        decreases ids@.len() - i,
    {
        let ghost had = out@;
        if let Some(line) = find_line(answered, ids[i]) {
            let ghost said = line@;
            out.push(line);
            assert(text::views(out@) =~= text::views(had).push(said));
        }
        i += 1;
    }
    out
}

/// Why a revise became a question for a person.
pub open spec fn override_of(
    job: PlanReviewJob,
    verdict: PlanReviewVerdict,
    revise_count: u32,
    limit: u32,
) -> Option<Seq<char>> {
    if verdict.verdict == PlanReviewDecision::Revise && revise_count >= limit {
        Some(
            "proposal "@ + text::signed(job.proposal_id as int) + " was sent back "@ + text::decimal(
                revise_count as nat,
            ) + " times already (at most "@ + text::decimal(limit as nat) + ")"@,
        )
    } else {
        None
    }
}

/// What the runtime makes of a verdict.
pub struct PlanReviewApply {
    pub decision: PlanReviewDecision,
    pub overridden: Option<String>,
    /// What the planner is told where the proposal is sent back.
    pub revise_reasons: Vec<String>,
    /// The `approve_plan` ask that a concern opens.
    pub ask: Option<NewAsk>,
}

/// What the runtime makes of a verdict. A revise past `limit` is a concern, the
/// precedents it names are quoted, and a concern asks a person.
pub open spec fn applies(
    job: PlanReviewJob,
    revise_count: u32,
    limit: u32,
    verdict: PlanReviewVerdict,
    answered: Seq<Precedent>,
    options: Seq<Seq<char>>,
    r: PlanReviewApply,
) -> bool {
    let overridden = override_of(job, verdict, revise_count, limit);
    let precedents = quoted(verdict.precedents@, answered, verdict.precedents@.len() as int);
    &&& r.decision == (if overridden is Some {
        PlanReviewDecision::Concern
    } else {
        verdict.verdict
    })
    &&& text::opt_view(r.overridden) == overridden
    &&& text::views(r.revise_reasons@) == text::views(verdict.reasons@) + precedents
    &&& match r.ask {
        Some(ask) => {
            &&& r.decision == PlanReviewDecision::Concern
            &&& ask.kind == AskKind::ApprovePlan
            &&& ask.task_id == Some(job.anchor)
            &&& ask.run_id is None
            &&& ask.question@ == question_of(job, verdict, overridden, precedents)
            &&& text::views(ask.options@) == options
            &&& ask.asked_by == Asker::PlanReview
            &&& ask.category == AskReason::Scope
            &&& ask.finding_id is None
        },
        None => r.decision != PlanReviewDecision::Concern,
    }
}

/// Add the second list to the first.
fn extend(list: Vec<String>, more: &Vec<String>) -> (r: Vec<String>)
    ensures
        text::views(r@) == text::views(list@) + text::views(more@),
{
    let mut out = list;
    let mut i: usize = 0;
    assert(text::views(more@).subrange(0, 0) =~= Seq::empty());
    assert(text::views(out@) =~= text::views(list@) + text::views(more@).subrange(0, 0));
    while i < more.len()
        invariant
            i <= more@.len(),
            text::views(out@) == text::views(list@) + text::views(more@).subrange(0, i as int),
        decreases more@.len() - i,
    {
        let ghost had = out@;
        out.push(more[i].clone());
        assert(text::views(out@) =~= text::views(had).push(more@[i as int]@));
        assert(text::views(more@).subrange(0, i + 1) =~= text::views(more@).subrange(
            0,
            i as int,
        ).push(more@[i as int]@));
        assert(text::views(out@) =~= text::views(list@) + text::views(more@).subrange(0, i + 1));
        i += 1;
    }
    assert(text::views(more@).subrange(0, more@.len() as int) =~= text::views(more@));
    out
}

/// What the runtime makes of a plan review's verdict. `options` are those of an
/// `approve_plan` ask.
pub fn apply_plan_verdict(
    job: &PlanReviewJob,
    revise_count: u32,
    limit: u32,
    verdict: &PlanReviewVerdict,
    answered: &Vec<Precedent>,
    options: &Vec<String>,
) -> (r: PlanReviewApply)
    ensures
        applies(*job, revise_count, limit, *verdict, answered@, text::views(options@), r),
{
    let (decision, overridden) = if verdict.verdict == PlanReviewDecision::Revise && revise_count
        >= limit {
        let id = text::integer(job.proposal_id);
        let n = text::number(revise_count as u64);
        let most = text::number(limit as u64);
        (
            PlanReviewDecision::Concern,
            Some(
                "proposal ".to_owned().concat(id.as_str()).concat(" was sent back ").concat(
                    n.as_str(),
                ).concat(" times already (at most ").concat(most.as_str()).concat(")"),
            ),
        )
    } else {
        (verdict.verdict, None)
    };
    let precedents = quote(&verdict.precedents, answered);
    let revise_reasons = extend(text::copied(&verdict.reasons), &precedents);
    let ask = if decision == PlanReviewDecision::Concern {
        Some(
            NewAsk {
                kind: AskKind::ApprovePlan,
                task_id: Some(job.anchor),
                run_id: None,
                question: plan_question(job, verdict, &overridden, &precedents),
                options: text::copied(options),
                asked_by: Asker::PlanReview,
                category: AskReason::Scope,
                finding_id: None,
            },
        )
    } else {
        None
    };
    PlanReviewApply { decision, overridden, revise_reasons, ask }
}

/// What applying the answered `approve_plan` asks does next.
#[derive(Debug, Clone, Copy, PartialEq, Eq, Structural)]
pub enum PlanAnswersStep {
    /// List the answered asks.
    List,
    /// Decide the proposal of one of them as it was answered.
    Decide { index: usize },
    /// Whether some proposal was decided.
    Applied(bool),
}

/// Whether one of the asks decided its proposal.
pub open spec fn some_decided(decided: Seq<Result<bool, String>>) -> bool {
    exists|i: int| 0 <= i < decided.len() && #[trigger] decided[i] == Ok::<bool, String>(true)
}

/// Apply the answered `approve_plan` asks, one after the other. `listed` is how
/// many there are, and `decided` what came of the first: whether the proposal
/// was decided, or why it could not be, which is only reported.
pub fn apply_plan_answers(listed: Option<usize>, decided: &Vec<Result<bool, String>>) -> (r:
    PlanAnswersStep)
    ensures
        r == (match listed {
            None => PlanAnswersStep::List,
            Some(n) => if decided@.len() < n {
                PlanAnswersStep::Decide { index: decided@.len() as usize }
            } else {
                PlanAnswersStep::Applied(some_decided(decided@))
            },
        }),
{
    let n: usize = match listed {
        None => return PlanAnswersStep::List,
        Some(n) => n,
    };
    if decided.len() < n {
        return PlanAnswersStep::Decide { index: decided.len() };
    }
    let mut i: usize = 0;
    while i < decided.len()
        invariant
            i <= decided@.len(),
            n <= decided@.len(),
            listed == Some(n),
            forall|j: int| 0 <= j < i ==> #[trigger] decided@[j] != Ok::<bool, String>(true),
        decreases decided@.len() - i,
    {
        if let Ok(done) = &decided[i] {
            if *done {
                assert(decided@[i as int] == Ok::<bool, String>(true));
                return PlanAnswersStep::Applied(true);
            }
        }
        i += 1;
    }
    PlanAnswersStep::Applied(false)
}

/// A proposal is not sent back more often than the limit.
pub proof fn a_proposal_is_sent_back_at_most(
    job: PlanReviewJob,
    revise_count: u32,
    limit: u32,
    verdict: PlanReviewVerdict,
    answered: Seq<Precedent>,
    options: Seq<Seq<char>>,
    r: PlanReviewApply,
)
    requires
        applies(job, revise_count, limit, verdict, answered, options, r),
        r.decision == PlanReviewDecision::Revise,
    ensures
        revise_count < limit,
        r.ask is None,
{
}

/// The lines, each as a point of a list.
pub open spec fn points(lines: Seq<Seq<char>>, n: int) -> Seq<char>
    decreases n,
{
    if n <= 0 || n > lines.len() {
        Seq::empty()
    } else {
        points(lines, n - 1) + "\n- "@ + lines[n - 1]
    }
}

/// The question of the `approve_plan` ask that a concern opens.
pub open spec fn question_of(
    job: PlanReviewJob,
    verdict: PlanReviewVerdict,
    overridden: Option<Seq<char>>,
    precedents: Seq<Seq<char>>,
) -> Seq<char> {
    let reasons = text::views(verdict.reasons@);
    "Plan review of proposal "@ + text::signed(job.proposal_id as int) + " (its first task is "@
        + text::signed(job.anchor as int) + ") needs a person: "@ + verdict.summary@ + (
    match overridden {
        Some(why) => "\nIt answered "@ + verdict.verdict.name() + ", but "@ + why + "."@,
        None => Seq::empty(),
    }) + (if reasons.len() == 0 {
        Seq::empty()
    } else {
        "\nReasons:"@ + points(reasons, reasons.len() as int)
    }) + points(precedents, precedents.len() as int) + "\nPlan review material: "@ + job.dir@
        + "/prompt.txt\nready: make the proposal's tasks ready as they are. send_back: send it back to its planner (answer `send_back: <your reason>` to add yours). cancel: cancel the proposal's tasks."@
}

/// Add each line as a point of a list.
fn with_points(text: String, lines: &Vec<String>) -> (r: String)
    ensures
        r@ == text@ + points(text::views(lines@), lines@.len() as int),
{
    let mut out = text;
    let mut i: usize = 0;
    assert(out@ =~= text@ + points(text::views(lines@), 0));
    while i < lines.len()
        invariant
            i <= lines@.len(),
            out@ == text@ + points(text::views(lines@), i as int),
        decreases lines@.len() - i,
    {
        let ghost had = out@;
        out = out.concat("\n- ").concat(lines[i].as_str());
        assert(text::views(lines@)[i as int] == lines@[i as int]@);
        assert(out@ =~= text@ + points(text::views(lines@), i + 1));
        i += 1;
    }
    out
}

/// The question of the `approve_plan` ask that a concern opens: what the review
/// found, why a person is needed where it asked for a revise, its reasons, the
/// precedents, and what each answer does.
pub fn plan_question(
    job: &PlanReviewJob,
    verdict: &PlanReviewVerdict,
    overridden: &Option<String>,
    precedents: &Vec<String>,
) -> (r: String)
    ensures
        r@ == question_of(*job, *verdict, text::opt_view(*overridden), text::views(precedents@)),
{
    let proposal = text::integer(job.proposal_id);
    let anchor = text::integer(job.anchor);
    let mut question = "Plan review of proposal ".to_owned().concat(proposal.as_str()).concat(
        " (its first task is ",
    ).concat(anchor.as_str()).concat(") needs a person: ").concat(verdict.summary.as_str());
    let ghost head = question@;
    let ghost why_part: Seq<char> = match text::opt_view(*overridden) {
        Some(why) => "\nIt answered "@ + verdict.verdict.name() + ", but "@ + why + "."@,
        None => Seq::empty(),
    };
    if let Some(why) = overridden {
        question = question.concat("\nIt answered ").concat(verdict.verdict.as_str()).concat(
            ", but ",
        ).concat(why.as_str()).concat(".");
    }
    assert(question@ =~= head + why_part);
    let ghost reasons = text::views(verdict.reasons@);
    let ghost reasons_part: Seq<char> = if reasons.len() == 0 {
        Seq::empty()
    } else {
        "\nReasons:"@ + points(reasons, reasons.len() as int)
    };
    if verdict.reasons.len() > 0 {
        question = with_points(question.concat("\nReasons:"), &verdict.reasons);
    }
    assert(question@ =~= head + why_part + reasons_part);
    let question = with_points(question, precedents);
    question.concat("\nPlan review material: ").concat(job.dir.as_str()).concat(
        "/prompt.txt\nready: make the proposal's tasks ready as they are. send_back: send it back to its planner (answer `send_back: <your reason>` to add yours). cancel: cancel the proposal's tasks.",
    )
}

/// Whether a planner's session is over.
pub open spec fn is_gone(view: PlannerView, alive: bool) -> bool {
    match view.state {
        PlannerState::Exited | PlannerState::Lost => true,
        PlannerState::Closed => view.planner.wrapper_pid is None || view.planner.exited_at is Some
            || !alive,
        _ => false,
    }
}

/// Whether a planner's session is over: it exited, its wrapper stopped
/// heartbeating, or its workspace is not listed and its wrapper is dead. A
/// workspace not listed alone is no evidence. `alive` is whether the wrapper's
/// process is there.
pub fn planner_gone(view: &PlannerView, alive: bool) -> (r: bool)
    ensures
        r == is_gone(*view, alive),
{
    match view.state {
        PlannerState::Exited => true,
        PlannerState::Lost => true,
        PlannerState::Closed => view.planner.wrapper_pid.is_none()
            || view.planner.exited_at.is_some() || !alive,
        _ => false,
    }
}

/// A proposal that was sent back.
pub struct Revise {
    pub proposal_id: i64,
    /// The workspace of the planner that owns the proposal.
    pub owner_workspace: Option<String>,
    pub planner_id: Option<i64>,
    pub revised_at: Option<i64>,
    pub sent_at: Option<i64>,
    pub unresponsive_at: Option<i64>,
}

/// What a revise that waits comes to.
pub enum TendStep {
    Nothing,
    /// It goes to another planner.
    Lost { planner: Option<i64>, why: &'static str },
    /// The inbox is told that it waited this long.
    Unresponsive { planner: Option<i64>, waited: i64 },
}

/// What a revise that waits comes to.
pub open spec fn tends(
    revise: Revise,
    gone: bool,
    now: int,
    timeout: int,
    heartbeat_timeout: int,
    r: TendStep,
) -> bool {
    match revise.sent_at {
        Some(sent_at) => {
            let waited = elapsed(sent_at as int, now);
            match revise.planner_id {
                Some(planner) => if gone {
                    r matches TendStep::Lost { planner: p, why } && p == Some(planner) && why@
                        == "its planner is gone before it submitted again"@
                } else if revise.unresponsive_at is None && waited > timeout {
                    r matches TendStep::Unresponsive { planner: p, waited: w } && p == Some(planner)
                        && w == waited
                } else {
                    r is Nothing
                },
                None => if waited > heartbeat_timeout {
                    r matches TendStep::Lost { planner: p, why } && p is None && why@
                        == "its delivery was never recorded"@
                } else {
                    r is Nothing
                },
            }
        },
        None => if revise.unresponsive_at is None && revise.revised_at is Some && elapsed(
            revise.revised_at->0 as int,
            now,
        ) > timeout {
            r matches TendStep::Unresponsive { planner: p, waited: w } && p is None && w == elapsed(
                revise.revised_at->0 as int,
                now,
            )
        } else {
            r is Nothing
        },
    }
}

/// Take back a revise whose planner is gone or whose delivery was never
/// recorded, and tell the inbox of one that no planner answered within the
/// timeout, once. `gone` is whether the planner it went to is not listed or its
/// session is over.
pub fn tend_revise(
    revise: &Revise,
    gone: bool,
    now: i64,
    timeout: i64,
    heartbeat_timeout: i64,
) -> (r: TendStep)
    ensures
        tends(*revise, gone, now as int, timeout as int, heartbeat_timeout as int, r),
{
    match revise.sent_at {
        Some(sent_at) => {
            let waited = age(sent_at, now);
            match revise.planner_id {
                Some(planner) => if gone {
                    TendStep::Lost {
                        planner: Some(planner),
                        why: "its planner is gone before it submitted again",
                    }
                } else if revise.unresponsive_at.is_none() && waited > timeout {
                    TendStep::Unresponsive { planner: Some(planner), waited }
                } else {
                    TendStep::Nothing
                },
                None => if waited > heartbeat_timeout {
                    TendStep::Lost { planner: None, why: "its delivery was never recorded" }
                } else {
                    TendStep::Nothing
                },
            }
        },
        None => {
            if revise.unresponsive_at.is_none() {
                if let Some(at) = revise.revised_at {
                    let waited = age(at, now);
                    if waited > timeout {
                        return TendStep::Unresponsive { planner: None, waited };
                    }
                }
            }
            TendStep::Nothing
        },
    }
}

/// The inbox is told once of a revise that waits.
pub proof fn the_inbox_is_told_once(
    revise: Revise,
    gone: bool,
    now: int,
    timeout: int,
    heartbeat_timeout: int,
    r: TendStep,
)
    requires
        tends(revise, gone, now, timeout, heartbeat_timeout, r),
        revise.unresponsive_at is Some,
    ensures
        r !is Unresponsive,
{
}

/// The first of the views, from `from` on, in the workspace.
pub open spec fn view_in(views: Seq<PlannerView>, workspace: Seq<char>, from: int) -> Option<int>
    decreases views.len() - from,
{
    if from < 0 || from >= views.len() {
        None
    } else if text::opt_view(views[from].planner.workspace_id) == Some(workspace) {
        Some(from)
    } else {
        view_in(views, workspace, from + 1)
    }
}

/// The planner that owns a proposal, among the views.
pub fn owner_of(revise: &Revise, views: &Vec<PlannerView>) -> (r: Option<usize>)
    ensures
        match revise.owner_workspace {
            None => r is None,
            Some(workspace) => match r {
                Some(i) => i < views@.len() && view_in(views@, workspace@, 0) == Some(i as int),
                None => view_in(views@, workspace@, 0) is None,
            },
        },
{
    let workspace = match &revise.owner_workspace {
        None => return None,
        Some(workspace) => workspace,
    };
    let mut i: usize = 0;
    while i < views.len()
        invariant
            i <= views@.len(),
            revise.owner_workspace == Some(*workspace),
            view_in(views@, workspace@, 0) == view_in(views@, workspace@, i as int),
        decreases views@.len() - i,
    {
        if text::is_text(&views[i].planner.workspace_id, workspace.as_str()) {
            return Some(i);
        }
        i += 1;
    }
    None
}

/// Whether a planner is one of the runtime's that lives.
pub open spec fn is_open_runtime(view: PlannerView) -> bool {
    view.planner.origin == PlannerOrigin::Runtime && view.alive
}

/// How many of the first `n` planners are the runtime's and live.
pub open spec fn open_count(views: Seq<PlannerView>, n: int) -> nat
    decreases n,
{
    if n <= 0 || n > views.len() {
        0
    } else if is_open_runtime(views[n - 1]) {
        open_count(views, n - 1) + 1
    } else {
        open_count(views, n - 1)
    }
}

/// How many planners of the runtime's live.
pub fn runtime_open(views: &Vec<PlannerView>) -> (r: usize)
    ensures
        r == open_count(views@, views@.len() as int),
{
    let mut count: usize = 0;
    let mut i: usize = 0;
    while i < views.len()
        invariant
            i <= views@.len(),
            count <= i,
            count == open_count(views@, i as int),
        decreases views@.len() - i,
    {
        if views[i].planner.origin == PlannerOrigin::Runtime && views[i].alive {
            count += 1;
        }
        i += 1;
    }
    count
}

/// What has been done and observed of a revise that is delivered.
#[derive(Default)]
pub struct DeliverSeen {
    /// The owner's session is over; not looked at where it lives.
    pub owner_gone: Option<bool>,
    /// The delivery was taken; not where another supervisor took it.
    pub claimed: Option<bool>,
    /// What typing it gave.
    pub typed: Option<Result<(), String>>,
    /// The planner that was opened for it, and its workspace.
    pub opened: Option<Result<(i64, String), String>>,
    /// What came of it is recorded.
    pub recorded: bool,
}

/// What delivering a revise does next.
pub enum DeliverStep {
    Next,
    OwnerGone,
    Claim,
    TypeRequest { workspace: String },
    RecordLost { why: &'static str },
    RecordSent { planner: i64, workspace: String, opened: bool },
    OpenPlanner,
    /// The planners are looked at again; one more of the runtime's is open.
    Opened,
    Failed(String),
}

/// The workspace of a planner, or nothing.
pub open spec fn workspace_of(view: PlannerView) -> Seq<char> {
    match view.planner.workspace_id {
        Some(workspace) => workspace@,
        None => ""@,
    }
}

/// What delivering a revise comes to.
pub open spec fn delivers(
    revise: Revise,
    owner: Option<PlannerView>,
    open: usize,
    limit: usize,
    seen: DeliverSeen,
    r: DeliverStep,
) -> bool {
    if revise.sent_at is Some {
        r is Next
    } else if owner is Some && owner->0.alive {
        if owner->0.state != PlannerState::Idle {
            r is Next
        } else if seen.claimed is None {
            r is Claim
        } else if !seen.claimed->0 {
            r is Next
        } else {
            match seen.typed {
                None => r matches DeliverStep::TypeRequest { workspace } && workspace@
                    == workspace_of(owner->0),
                Some(Err(_)) => if !seen.recorded {
                    r matches DeliverStep::RecordLost { why } && why@ == "the typing failed"@
                } else {
                    r is Next
                },
                Some(Ok(_)) => if !seen.recorded {
                    r matches DeliverStep::RecordSent { planner, workspace, opened } && planner
                        == owner->0.planner.id && workspace@ == workspace_of(owner->0) && !opened
                } else {
                    r is Next
                },
            }
        }
    } else if owner is Some && seen.owner_gone is None {
        r is OwnerGone
    } else if owner is Some && !seen.owner_gone->0 {
        r is Next
    } else if open >= limit {
        r is Next
    } else if seen.claimed is None {
        r is Claim
    } else if !seen.claimed->0 {
        r is Next
    } else {
        match seen.opened {
            None => r is OpenPlanner,
            Some(Err(error)) => if !seen.recorded {
                r matches DeliverStep::RecordLost { why } && why@
                    == "the planner could not be opened"@
            } else {
                r == DeliverStep::Failed(error)
            },
            Some(Ok((planner, workspace))) => if !seen.recorded {
                r == (DeliverStep::RecordSent { planner, workspace, opened: true })
            } else {
                r is Opened
            },
        }
    }
}

/// Deliver a revise not delivered yet: typed into its planner once that is
/// idle, or handed to a planner of the runtime's that is opened for it, while
/// those are below `limit`. A planner that is not listed, yet whose session
/// runs, is not given up on that evidence. `open` is how many of the runtime's
/// planners are open.
pub fn deliver_revise(
    revise: &Revise,
    owner: Option<&PlannerView>,
    open: usize,
    limit: usize,
    seen: &DeliverSeen,
) -> (r: DeliverStep)
    ensures
        delivers(
            *revise,
            match owner {
                Some(view) => Some(*view),
                None => None,
            },
            open,
            limit,
            *seen,
            r,
        ),
{
    if revise.sent_at.is_some() {
        return DeliverStep::Next;
    }
    if let Some(view) = owner {
        if view.alive {
            if view.state != PlannerState::Idle {
                return DeliverStep::Next;
            }
            match seen.claimed {
                None => return DeliverStep::Claim,
                Some(claimed) => if !claimed {
                    return DeliverStep::Next;
                },
            }
            let workspace = match &view.planner.workspace_id {
                Some(workspace) => workspace.clone(),
                None => "".to_owned(),
            };
            return match &seen.typed {
                None => DeliverStep::TypeRequest { workspace },
                Some(Err(_)) => if !seen.recorded {
                    DeliverStep::RecordLost { why: "the typing failed" }
                } else {
                    DeliverStep::Next
                },
                Some(Ok(_)) => if !seen.recorded {
                    DeliverStep::RecordSent { planner: view.planner.id, workspace, opened: false }
                } else {
                    DeliverStep::Next
                },
            };
        }
        match seen.owner_gone {
            None => return DeliverStep::OwnerGone,
            Some(gone) => if !gone {
                return DeliverStep::Next;
            },
        }
    }
    if open >= limit {
        return DeliverStep::Next;
    }
    match seen.claimed {
        None => return DeliverStep::Claim,
        Some(claimed) => if !claimed {
            return DeliverStep::Next;
        },
    }
    match &seen.opened {
        None => DeliverStep::OpenPlanner,
        Some(Err(error)) => if !seen.recorded {
            DeliverStep::RecordLost { why: "the planner could not be opened" }
        } else {
            DeliverStep::Failed(error.clone())
        },
        Some(Ok((planner, workspace))) => if !seen.recorded {
            DeliverStep::RecordSent {
                planner: *planner,
                workspace: workspace.clone(),
                opened: true,
            }
        } else {
            DeliverStep::Opened
        },
    }
}

/// A planner is opened for a revise only below the limit, and nothing is typed
/// or opened before this supervisor took the delivery.
pub proof fn a_revise_is_delivered_by_one(
    revise: Revise,
    owner: Option<PlannerView>,
    open: usize,
    limit: usize,
    seen: DeliverSeen,
    r: DeliverStep,
)
    requires
        delivers(revise, owner, open, limit, seen, r),
        r is TypeRequest || r is OpenPlanner,
    ensures
        seen.claimed == Some(true),
        r is OpenPlanner ==> open < limit,
        r is TypeRequest ==> owner->0.state == PlannerState::Idle,
{
}

/// What tending the planners did so far.
#[derive(Debug, Clone, Copy, PartialEq, Eq, Structural, Default)]
pub struct TendSeen {
    /// How many of the runtime's planners are open, once they were looked at:
    /// those that were open then, and those opened since.
    pub open: Option<usize>,
    /// How many proposals were sent back, and how many of them were tended.
    pub revises: Option<usize>,
    pub tended: usize,
    /// How many are sent back after that, and how many of them were delivered.
    pub waiting: Option<usize>,
    pub delivered: usize,
    /// How many answers wait, and how many of them were delivered.
    pub answers: Option<usize>,
    pub answered: usize,
    /// How many drafts wait for a planner, and how many of them were tried.
    pub drafts: Option<usize>,
    pub drafted: usize,
    pub settled: bool,
    /// How many findings wait for a planner, and how many of them were tried.
    pub findings: Option<usize>,
    pub found: usize,
    pub ended: bool,
}

/// What tending the planners does next. A planner is opened only within a step
/// that says how many are open, and below the limit.
#[derive(Debug, Clone, Copy, PartialEq, Eq, Structural)]
pub enum PlannersStep {
    Views,
    Revises,
    TendRevise { index: usize },
    /// The proposals that are sent back now.
    RevisesAgain,
    DeliverRevise { index: usize, open: usize },
    Answers,
    DeliverAnswer { index: usize, open: usize },
    Drafts,
    StartDraft { index: usize },
    SettleFindings,
    Findings,
    StartFinding { index: usize },
    EndPlanners,
    Done,
}

/// What tending the planners comes to.
pub open spec fn tends_planners(seen: TendSeen, limit: usize) -> PlannersStep {
    if seen.open is None {
        PlannersStep::Views
    } else if seen.revises is None {
        PlannersStep::Revises
    } else if seen.tended < seen.revises->0 {
        PlannersStep::TendRevise { index: seen.tended }
    } else if seen.waiting is None {
        PlannersStep::RevisesAgain
    } else if seen.delivered < seen.waiting->0 {
        PlannersStep::DeliverRevise { index: seen.delivered, open: seen.open->0 }
    } else if seen.answers is None {
        PlannersStep::Answers
    } else if seen.answered < seen.answers->0 {
        PlannersStep::DeliverAnswer { index: seen.answered, open: seen.open->0 }
    } else if seen.drafts is None {
        PlannersStep::Drafts
    } else if seen.drafted < seen.drafts->0 && seen.open->0 < limit && !seen.settled {
        PlannersStep::StartDraft { index: seen.drafted }
    } else if !seen.settled {
        PlannersStep::SettleFindings
    } else if seen.findings is None {
        PlannersStep::Findings
    } else if seen.found < seen.findings->0 && seen.open->0 < limit && !seen.ended {
        PlannersStep::StartFinding { index: seen.found }
    } else if !seen.ended {
        PlannersStep::EndPlanners
    } else {
        PlannersStep::Done
    }
}

/// Tend the planners: the revises that wait, then those to deliver, then the
/// answers and the drafts, then the findings, within the same limit, and at
/// last the runtime's planners that are done.
pub fn tend_planners(seen: TendSeen, limit: usize) -> (r: PlannersStep)
    ensures
        r == tends_planners(seen, limit),
{
    let open: usize = match seen.open {
        None => return PlannersStep::Views,
        Some(open) => open,
    };
    match seen.revises {
        None => return PlannersStep::Revises,
        Some(n) => if seen.tended < n {
            return PlannersStep::TendRevise { index: seen.tended };
        },
    }
    match seen.waiting {
        None => return PlannersStep::RevisesAgain,
        Some(n) => if seen.delivered < n {
            return PlannersStep::DeliverRevise { index: seen.delivered, open };
        },
    }
    match seen.answers {
        None => return PlannersStep::Answers,
        Some(n) => if seen.answered < n {
            return PlannersStep::DeliverAnswer { index: seen.answered, open };
        },
    }
    let drafts: usize = match seen.drafts {
        None => return PlannersStep::Drafts,
        Some(drafts) => drafts,
    };
    if !seen.settled {
        return match open_planners(drafts, seen.drafted, open, limit) {
            OpenStep::Start { index } => PlannersStep::StartDraft { index },
            OpenStep::Done => PlannersStep::SettleFindings,
        };
    }
    let findings: usize = match seen.findings {
        None => return PlannersStep::Findings,
        Some(findings) => findings,
    };
    if seen.ended {
        return PlannersStep::Done;
    }
    match open_planners(findings, seen.found, open, limit) {
        OpenStep::Start { index } => PlannersStep::StartFinding { index },
        OpenStep::Done => PlannersStep::EndPlanners,
    }
}

impl TendSeen {
    /// A planner of the runtime's was opened within a step.
    pub fn opened(&mut self, limit: usize)
        requires
            old(self).open matches Some(open) && open < limit,
        ensures
            *final(self) == (TendSeen {
                open: Some((old(self).open->0 + 1) as usize),
                ..*old(self)
            }),
    {
        if let Some(open) = self.open {
            self.open = Some(open + 1);
        }
    }
}

/// Revises come before answers, answers before drafts, and drafts before
/// findings.
pub proof fn revises_come_first(seen: TendSeen, limit: usize)
    ensures
        tends_planners(seen, limit) is DeliverAnswer ==> seen.delivered >= seen.waiting->0,
        tends_planners(seen, limit) is StartDraft ==> seen.delivered >= seen.waiting->0
            && seen.answered >= seen.answers->0,
        tends_planners(seen, limit) is StartFinding ==> seen.settled && seen.answered
            >= seen.answers->0,
{
}

/// A planner is opened within a step only below the limit: for a revise, for an
/// answer, for a draft and for a finding.
pub proof fn planners_open_below_the_limit(
    seen: TendSeen,
    limit: usize,
    revise: Revise,
    owner: Option<PlannerView>,
    delivering: DeliverSeen,
    delivery: DeliverStep,
    ask: PlannerAnswer,
    subject: Subject,
    views: Seq<PlannerView>,
    answering: AnswerSeen,
    answer: AnswerStep,
)
    ensures
        tends_planners(seen, limit) matches PlannersStep::DeliverRevise { index, open } && delivers(
            revise,
            owner,
            open,
            limit,
            delivering,
            delivery,
        ) && delivery is OpenPlanner ==> seen.open->0 < limit,
        tends_planners(seen, limit) matches PlannersStep::DeliverAnswer { index, open }
            && draft_planner::delivers(ask, subject, views, open, limit, answering, answer)
            && answer is StartPlanner ==> seen.open->0 < limit,
        tends_planners(seen, limit) is StartDraft || tends_planners(seen, limit) is StartFinding
            ==> seen.open->0 < limit,
{
}

/// Whether one step of a pass leads from one state to the next as far as the
/// planners go: none is opened, or one below the limit.
pub open spec fn opens_at_most_one(before: TendSeen, after: TendSeen, limit: usize) -> bool {
    after.open == before.open || (before.open->0 < limit && after.open == Some(
        (before.open->0 + 1) as usize,
    ))
}

/// One pass over the planners opens no more than the limit leaves: whatever it
/// comes by, no more are open after it than the limit, or than before it where
/// those were more.
pub proof fn a_pass_keeps_the_limit(pass: Seq<TendSeen>, limit: usize)
    requires
        pass.len() > 0,
        forall|i: int| 0 <= i < pass.len() ==> (#[trigger] pass[i]).open is Some,
        forall|i: int|
            0 < i < pass.len() ==> opens_at_most_one(pass[i - 1], #[trigger] pass[i], limit),
    ensures
        pass.first().open->0 <= pass.last().open->0,
        pass.last().open->0 <= limit || pass.last().open == pass.first().open,
    decreases pass.len(),
{
    if pass.len() > 1 {
        let rest = pass.drop_last();
        assert forall|i: int| 0 < i < rest.len() implies opens_at_most_one(
            rest[i - 1],
            #[trigger] rest[i],
            limit,
        ) by {
            assert(rest[i] == pass[i]);
            assert(rest[i - 1] == pass[i - 1]);
        }
        a_pass_keeps_the_limit(rest, limit);
        let n = pass.len() as int - 1;
        assert(opens_at_most_one(pass[n - 1], pass[n], limit));
        assert(rest.last() == pass[n - 1]);
        assert(rest.first() == pass.first());
    }
}

/// Whether a revise is a planner's own to do.
pub open spec fn is_work_of(revise: Revise, planner: i64, workspace: Option<String>) -> bool {
    revise.planner_id == Some(planner) || (revise.sent_at is None && revise.owner_workspace is Some
        && text::opt_view(revise.owner_workspace) == text::opt_view(workspace))
}

/// Whether a planner has a revise of its own left.
pub open spec fn has_revise(revises: Seq<Revise>, view: PlannerView) -> bool {
    exists|i: int|
        0 <= i < revises.len() && #[trigger] is_work_of(
            revises[i],
            view.planner.id,
            view.planner.workspace_id,
        )
}

/// Whether a planner has a revise of its own left: one it was sent, or one of a
/// proposal of its workspace that was not sent.
pub fn has_own_revise(revises: &Vec<Revise>, view: &PlannerView) -> (r: bool)
    ensures
        r == has_revise(revises@, *view),
{
    let mut i: usize = 0;
    while i < revises.len()
        invariant
            i <= revises@.len(),
            forall|j: int|
                0 <= j < i ==> !#[trigger] is_work_of(
                    revises@[j],
                    view.planner.id,
                    view.planner.workspace_id,
                ),
        decreases revises@.len() - i,
    {
        let revise = &revises[i];
        let sent = match revise.planner_id {
            Some(id) => id == view.planner.id,
            None => false,
        };
        let owned = match &revise.owner_workspace {
            Some(workspace) => revise.sent_at.is_none() && text::is_text(
                &view.planner.workspace_id,
                workspace.as_str(),
            ),
            None => false,
        };
        if sent || owned {
            assert(is_work_of(revises@[i as int], view.planner.id, view.planner.workspace_id));
            return true;
        }
        i += 1;
    }
    false
}

/// What has been done and observed of a planner that may be ended.
#[derive(Default)]
pub struct EndSeen {
    pub gone: bool,
    /// When it was asked to exit.
    pub asked: Option<u128>,
    /// It has a revise of its own left; it waits on a question.
    pub revises: bool,
    pub waits: Option<bool>,
    /// Its workspace is there.
    pub exists: Option<bool>,
    pub workspace_closed: bool,
    pub closed: bool,
    pub exit_sent: bool,
}

/// What ending a planner does next.
pub enum EndStep {
    Next,
    WorkspaceExists { workspace: String },
    CloseWorkspace { workspace: String },
    ClosePlanner,
    WaitsOnQuestion,
    /// Ask it to exit; the exit timeout runs from now.
    SendExit { workspace: String },
}

/// Whether a planner did not exit within the exit timeout.
pub open spec fn is_overdue(asked: Option<u128>, now: u128, timeout: u128) -> bool {
    asked is Some && passed(asked->0, now) > timeout
}

/// What ending a planner comes to.
pub open spec fn ends(
    view: PlannerView,
    now: u128,
    timeout: u128,
    seen: EndSeen,
    r: EndStep,
) -> bool {
    if view.planner.origin != PlannerOrigin::Runtime || seen.closed || seen.exit_sent {
        r is Next
    } else if seen.gone || is_overdue(seen.asked, now, timeout) {
        match view.planner.workspace_id {
            Some(workspace) => if seen.exists is None {
                r == (EndStep::WorkspaceExists { workspace })
            } else if seen.exists->0 && !seen.workspace_closed {
                r == (EndStep::CloseWorkspace { workspace })
            } else {
                r is ClosePlanner
            },
            None => r is ClosePlanner,
        }
    } else if !seen.revises && seen.waits is None {
        r is WaitsOnQuestion
    } else if view.state == PlannerState::Idle && !seen.revises && !seen.waits->0 && seen.asked
        is None && view.planner.workspace_id is Some {
        r == (EndStep::SendExit { workspace: view.planner.workspace_id->0 })
    } else {
        r is Next
    }
}

/// End a planner of the runtime's that is done: one idle with no revise of its
/// own left is asked to exit once, and closed after the exit timeout if it does
/// not; one whose session is over is given up and its workspace closed. A
/// person's planner is never closed by the runtime.
pub fn end_runtime_planner(
    view: &PlannerView,
    now: u128,
    timeout: u128,
    seen: &EndSeen,
) -> (r: EndStep)
    ensures
        ends(*view, now, timeout, *seen, r),
{
    if view.planner.origin != PlannerOrigin::Runtime || seen.closed || seen.exit_sent {
        return EndStep::Next;
    }
    let overdue = match seen.asked {
        Some(at) => since(at, now) > timeout,
        None => false,
    };
    if seen.gone || overdue {
        if let Some(workspace) = &view.planner.workspace_id {
            match seen.exists {
                None => return EndStep::WorkspaceExists { workspace: workspace.clone() },
                Some(exists) => if exists && !seen.workspace_closed {
                    return EndStep::CloseWorkspace { workspace: workspace.clone() };
                },
            }
        }
        return EndStep::ClosePlanner;
    }
    if seen.revises {
        return EndStep::Next;
    }
    let waits = match seen.waits {
        None => return EndStep::WaitsOnQuestion,
        Some(waits) => waits,
    };
    if view.state == PlannerState::Idle && !waits && seen.asked.is_none() {
        if let Some(workspace) = &view.planner.workspace_id {
            return EndStep::SendExit { workspace: workspace.clone() };
        }
    }
    EndStep::Next
}

/// A person's planner is never closed or asked to exit by the runtime, and one
/// of the runtime's is asked to exit once, and only with nothing left to do.
pub proof fn a_persons_planner_is_not_ended(
    view: PlannerView,
    now: u128,
    timeout: u128,
    seen: EndSeen,
    r: EndStep,
)
    requires
        ends(view, now, timeout, seen, r),
        r !is Next,
    ensures
        view.planner.origin == PlannerOrigin::Runtime,
        r is SendExit ==> seen.asked is None && !seen.revises && seen.waits == Some(false)
            && view.state == PlannerState::Idle,
{
}

/// A `planner_question` ask.
#[derive(Debug, Clone, Copy, PartialEq, Eq, Structural)]
pub struct Question {
    pub id: i64,
    pub task_id: Option<i64>,
    pub finding_id: Option<i64>,
    pub closed_at: Option<i64>,
    /// The supervisor typed its answer into the planner's workspace.
    pub delivered: bool,
}

/// Whether a question is about what the planner was opened for.
pub open spec fn is_about(view: PlannerView, ask: Question) -> bool {
    match view.planner.finding_id {
        Some(finding) => ask.finding_id == Some(finding),
        None => ask.finding_id is None && ask.task_id == view.planner.draft_task_id,
    }
}

/// Whether a question holds its planner open.
pub open spec fn holds_open(view: PlannerView, ask: Question) -> bool {
    is_about(view, ask) && (ask.closed_at is None || (view.planner.workspace_id is Some
        && ask.delivered && (view.idle_since is None || view.idle_since->0 <= ask.closed_at->0)))
}

/// Whether a planner waits on one of the questions.
pub open spec fn is_waiting(view: PlannerView, asks: Seq<Question>) -> bool {
    (view.planner.draft_task_id is Some || view.planner.finding_id is Some) && exists|i: int|
        0 <= i < asks.len() && #[trigger] holds_open(view, asks[i])
}

/// Whether a planner of the runtime's still waits on a question about its draft
/// or its finding: one nobody closed, or one whose answer was typed into its
/// workspace after its agent last stopped. An ask closed without a typing holds
/// nothing.
pub fn waits_on_question(view: &PlannerView, asks: &Vec<Question>) -> (r: bool)
    ensures
        r == is_waiting(*view, asks@),
{
    if view.planner.draft_task_id.is_none() && view.planner.finding_id.is_none() {
        return false;
    }
    let mut i: usize = 0;
    while i < asks.len()
        invariant
            i <= asks@.len(),
            view.planner.draft_task_id is Some || view.planner.finding_id is Some,
            forall|j: int| 0 <= j < i ==> !#[trigger] holds_open(*view, asks@[j]),
        decreases asks@.len() - i,
    {
        let ask = asks[i];
        let about = match view.planner.finding_id {
            Some(finding) => match ask.finding_id {
                Some(id) => id == finding,
                None => false,
            },
            None => ask.finding_id.is_none() && match (ask.task_id, view.planner.draft_task_id) {
                (Some(a), Some(b)) => a == b,
                (None, None) => true,
                _ => false,
            },
        };
        let open = match ask.closed_at {
            None => true,
            Some(closed) => view.planner.workspace_id.is_some() && ask.delivered && (
            match view.idle_since {
                None => true,
                Some(since) => since <= closed,
            }),
        };
        if about && open {
            assert(holds_open(*view, asks@[i as int]));
            return true;
        }
        i += 1;
    }
    false
}

/// What the planners of the runtime are opened with: the supervisor's own
/// queue, binary and agent, and the queue's workspace group.
pub fn planner_launch(layout: &Layout, group_name: &str) -> (r: PlannerLaunch)
    ensures
        r.db == layout.db,
        r.queue_hash == layout.queue_hash,
        r.group_name@ == group_name@,
        r.planners_dir == layout.planners_dir,
        r.repo_root == layout.repo_root,
        r.runner == layout.runner,
        r.agent == layout.agent,
        r.claude == layout.claude,
        r.plugin_dir == layout.plugin_dir,
{
    PlannerLaunch {
        db: layout.db.clone(),
        queue_hash: layout.queue_hash.clone(),
        group_name: group_name.to_owned(),
        planners_dir: layout.planners_dir.clone(),
        repo_root: layout.repo_root.clone(),
        runner: layout.runner.clone(),
        agent: Agent {
            product: layout.agent.product.clone(),
            program: layout.agent.program.clone(),
        },
        claude: layout.claude.clone(),
        plugin_dir: same_text(&layout.plugin_dir),
    }
}

/// A concern goes to a person with a question about the proposal, a proposal
/// is made ready only on a verdict that says so, and it is sent back as often
/// as the limit allows; past that a person is asked.
pub proof fn a_verdict_is_applied_as_it_says(
    job: PlanReviewJob,
    revise_count: u32,
    limit: u32,
    verdict: PlanReviewVerdict,
    answered: Seq<Precedent>,
    options: Seq<Seq<char>>,
    r: PlanReviewApply,
)
    requires
        applies(job, revise_count, limit, verdict, answered, options, r),
    ensures
        r.decision == PlanReviewDecision::Ready <==> verdict.verdict == PlanReviewDecision::Ready,
        r.decision == PlanReviewDecision::Revise <==> verdict.verdict == PlanReviewDecision::Revise
            && revise_count < limit,
        verdict.verdict == PlanReviewDecision::Concern ==> r.decision
            == PlanReviewDecision::Concern && r.ask is Some && r.overridden is None,
        verdict.verdict == PlanReviewDecision::Revise && revise_count >= limit ==> r.decision
            == PlanReviewDecision::Concern && r.ask is Some && r.overridden is Some,
        r.ask is Some <==> r.decision == PlanReviewDecision::Concern,
        r.overridden is Some ==> verdict.verdict == PlanReviewDecision::Revise && revise_count
            >= limit,
        r.ask matches Some(ask) ==> {
            &&& ask.kind == AskKind::ApprovePlan
            &&& ask.task_id == Some(job.anchor)
            &&& ask.run_id is None
            &&& ask.finding_id is None
            &&& ask.asked_by == Asker::PlanReview
            &&& ask.category == AskReason::Scope
            &&& text::views(ask.options@) == options
        },
        r.revise_reasons@.len() >= verdict.reasons@.len(),
        forall|i: int|
            0 <= i < verdict.reasons@.len() ==> (#[trigger] r.revise_reasons@[i])@
                == verdict.reasons@[i]@,
{
    let precedents = quoted(verdict.precedents@, answered, verdict.precedents@.len() as int);
    let said = text::views(r.revise_reasons@);
    assert(said.len() == r.revise_reasons@.len());
    assert(said == text::views(verdict.reasons@) + precedents);
    assert forall|i: int| 0 <= i < verdict.reasons@.len() implies (
    #[trigger] r.revise_reasons@[i])@ == verdict.reasons@[i]@ by {
        assert(said[i] == r.revise_reasons@[i]@);
        assert((text::views(verdict.reasons@) + precedents)[i] == text::views(verdict.reasons@)[i]);
    }
}

/// The question about a plan starts with the proposal and its first task, and
/// holds what the review said.
pub proof fn a_question_names_its_proposal(
    job: PlanReviewJob,
    verdict: PlanReviewVerdict,
    overridden: Option<Seq<char>>,
    precedents: Seq<Seq<char>>,
)
    ensures
        exists|rest: Seq<char>|
            question_of(job, verdict, overridden, precedents) == #[trigger] ("Plan review of proposal "@
                + text::signed(job.proposal_id as int) + " (its first task is "@ + text::signed(
                job.anchor as int,
            ) + ") needs a person: "@ + verdict.summary@ + rest),
{
    let reasons = text::views(verdict.reasons@);
    let a = match overridden {
        Some(why) => "\nIt answered "@ + verdict.verdict.name() + ", but "@ + why + "."@,
        None => Seq::empty(),
    };
    let b = if reasons.len() == 0 {
        Seq::empty()
    } else {
        "\nReasons:"@ + points(reasons, reasons.len() as int)
    };
    let c = points(precedents, precedents.len() as int);
    let d = "\nPlan review material: "@;
    let e =
        "/prompt.txt\nready: make the proposal's tasks ready as they are. send_back: send it back to its planner (answer `send_back: <your reason>` to add yours). cancel: cancel the proposal's tasks."@;
    let front = "Plan review of proposal "@ + text::signed(job.proposal_id as int)
        + " (its first task is "@ + text::signed(job.anchor as int) + ") needs a person: "@
        + verdict.summary@;
    let rest = a + b + c + d + job.dir@ + e;
    assert(question_of(job, verdict, overridden, precedents) =~= front + rest);
}

/// A pass does its parts in order, starts a review and tends planners only
/// where it may start work, and says that something moved exactly where a part
/// did.
pub proof fn a_pass_does_its_parts_in_order(starting: bool, seen: PassSeen, r: PassStep)
    requires
        r == passes(starting, seen),
    ensures
        r is SettleProposals <==> seen.settled is None,
        r is ApplyAnswers <==> seen.settled is Some && seen.answered is None,
        r is Poll <==> seen.settled is Some && seen.answered is Some && seen.polled is None,
        r is StartReview <==> seen.settled is Some && seen.answered is Some && seen.polled is Some
            && starting && !seen.started,
        r is TendPlanners <==> seen.settled is Some && seen.answered is Some && seen.polled is Some
            && starting && seen.started && !seen.tended,
        r matches PassStep::Done { progressed } ==> (progressed <==> seen.settled->0
            || seen.answered->0 || seen.polled->0),
{
}

/// One review runs at a time: another is begun only where none runs and there
/// is a proposal, and watched once it was spawned; one that could not be is
/// recorded as failed once.
pub proof fn one_review_at_a_time(seen: &BeginSeen, r: BeginStep)
    requires
        call_ensures(start_plan_review, (seen,), r),
    ensures
        seen.running ==> r is Done,
        r is Candidates <==> !seen.running && seen.candidate is None,
        r matches BeginStep::Begin { proposal } ==> seen.candidate == Some(Some(proposal))
            && !seen.running && seen.begun is None,
        !seen.running && (seen.candidate matches Some(Some(_))) && seen.begun is None ==> r
            is Begin,
        r is Spawn <==> !seen.running && (seen.candidate matches Some(Some(_))) && seen.begun
            is Some && seen.begun->0 && seen.spawned is None,
        r is Watch <==> !seen.running && (seen.candidate matches Some(Some(_))) && seen.begun
            is Some && seen.begun->0 && (seen.spawned matches Some(Ok(_))),
        r is Fail <==> !seen.running && (seen.candidate matches Some(Some(_))) && seen.begun is Some
            && seen.begun->0 && (seen.spawned matches Some(Err(_))) && !seen.failed,
{
}

/// A review that ended is applied where it ended well, and recorded as failed
/// once with its error where it or the applying did not; one that runs is let
/// run.
pub proof fn an_ended_review_is_applied_or_failed(seen: &PollSeen, r: PollStep)
    requires
        call_ensures(poll_plan_review, (seen,), r),
    ensures
        r is Nothing <==> !seen.running || seen.ended is None,
        r is Apply <==> seen.running && (seen.ended matches Some(Ok(_))) && seen.applied is None,
        r matches PollStep::Fail { error } ==> seen.running && !seen.failed && ((
        seen.ended matches Some(Err(why)) && why@ == error@) || ((seen.ended matches Some(Ok(_)))
            && (seen.applied matches Some(Err(why)) && why@ == error@))),
        r is Reaped ==> seen.failed || ((seen.ended matches Some(Ok(_))) && (
        seen.applied matches Some(Ok(_)))),
{
}

/// Each answered question is decided once, in order; something was applied
/// exactly where one of them was.
pub proof fn every_answer_is_decided(
    listed: Option<usize>,
    decided: &Vec<Result<bool, String>>,
    r: PlanAnswersStep,
)
    requires
        call_ensures(apply_plan_answers, (listed, decided), r),
    ensures
        r is List <==> listed is None,
        r matches PlanAnswersStep::Decide { index } ==> listed is Some && index < listed->0 && index
            == decided@.len(),
        r matches PlanAnswersStep::Applied(some) ==> listed is Some && decided@.len() >= listed->0
            && (some <==> exists|i: int|
            0 <= i < decided@.len() && (#[trigger] decided@[i]) == Ok::<bool, String>(true)),
{
}

/// A planner is gone that exited or was lost, or whose closed session shows no
/// wrapper at work; one that is up never is.
pub proof fn a_planner_at_work_is_not_gone(view: PlannerView, alive: bool)
    ensures
        is_gone(view, alive) ==> view.state == PlannerState::Exited || view.state
            == PlannerState::Lost || view.state == PlannerState::Closed,
        view.state == PlannerState::Exited || view.state == PlannerState::Lost ==> is_gone(
            view,
            alive,
        ),
        view.state == PlannerState::Closed && alive && view.planner.wrapper_pid is Some
            && view.planner.exited_at is None ==> !is_gone(view, alive),
        view.state == PlannerState::Closed && !alive ==> is_gone(view, alive),
{
}

/// A proposal that was sent back is lost with its planner, or where nobody is
/// known to have it past the heartbeat; a planner that holds it too long is
/// told of once, and one within its time is let be.
pub proof fn a_sent_revise_is_watched(
    revise: Revise,
    gone: bool,
    now: i64,
    timeout: i64,
    heartbeat_timeout: i64,
    r: TendStep,
)
    requires
        tends(revise, gone, now as int, timeout as int, heartbeat_timeout as int, r),
        revise.sent_at matches Some(at) ==> i64::MIN <= now - at <= i64::MAX,
        revise.revised_at matches Some(at) ==> i64::MIN <= now - at <= i64::MAX,
    ensures
        r matches TendStep::Lost { planner, .. } ==> revise.sent_at is Some && planner
            == revise.planner_id && (planner is Some ==> gone) && (planner is None ==> now
            - revise.sent_at->0 > heartbeat_timeout),
        revise.sent_at is Some && revise.planner_id is Some && gone ==> r is Lost,
        revise.sent_at is Some && revise.planner_id is None && now - revise.sent_at->0
            > heartbeat_timeout ==> r is Lost,
        r matches TendStep::Unresponsive { planner, waited } ==> revise.unresponsive_at is None
            && waited > timeout && (match revise.sent_at {
            Some(at) => planner == revise.planner_id && planner is Some && !gone && waited == now
                - at,
            None => planner is None && waited == now - revise.revised_at->0,
        }),
        revise.unresponsive_at is None && revise.planner_id is Some && !gone && (
        revise.sent_at matches Some(at) && now - at > timeout) ==> r is Unresponsive,
        revise.unresponsive_at is None && revise.sent_at is None && (revise.revised_at matches Some(
            at,
        ) && now - at > timeout) ==> r is Unresponsive,
{
}

/// The owner of a proposal is the first planner in the proposal's workspace.
pub proof fn the_owner_is_in_its_workspace(views: Seq<PlannerView>, workspace: Seq<char>, from: int)
    requires
        0 <= from,
    ensures
        match view_in(views, workspace, from) {
            Some(at) => from <= at < views.len() && text::opt_view(views[at].planner.workspace_id)
                == Some(workspace) && forall|i: int|
                from <= i < at ==> text::opt_view((#[trigger] views[i]).planner.workspace_id)
                    != Some(workspace),
            None => forall|i: int|
                from <= i < views.len() ==> text::opt_view((#[trigger] views[i]).planner.workspace_id)
                    != Some(workspace),
        },
    decreases views.len() - from,
{
    if from < views.len() && text::opt_view(views[from].planner.workspace_id) != Some(workspace) {
        the_owner_is_in_its_workspace(views, workspace, from + 1);
    }
}

/// A planner more counts exactly where it is the runtime's and alive.
pub proof fn open_planners_are_counted(views: Seq<PlannerView>, view: PlannerView)
    ensures
        open_count(Seq::<PlannerView>::empty(), 0) == 0,
        open_count(views.push(view), (views.len() + 1) as int) == open_count(views, views.len() as int) + (
        if view.planner.origin == PlannerOrigin::Runtime && view.alive {
            1nat
        } else {
            0
        }),
{
    same_count(views, views.push(view), views.len() as int);
}

proof fn same_count(a: Seq<PlannerView>, b: Seq<PlannerView>, n: int)
    requires
        0 <= n <= a.len() <= b.len(),
        forall|i: int| 0 <= i < n ==> a[i] == b[i],
    ensures
        open_count(a, n) == open_count(b, n),
    decreases n,
{
    if n > 0 {
        same_count(a, b, n - 1);
    }
}

/// A proposal that was sent back reaches its own planner where that is idle,
/// waits while it works or may come back, and opens a new planner only where
/// the owner is gone and there is room; what is recorded is what was done.
pub proof fn a_revise_reaches_its_owner(
    revise: Revise,
    owner: Option<PlannerView>,
    open: usize,
    limit: usize,
    seen: DeliverSeen,
    r: DeliverStep,
)
    requires
        delivers(revise, owner, open, limit, seen, r),
    ensures
        revise.sent_at is Some ==> r is Next,
        r is TypeRequest <==> revise.sent_at is None && owner is Some && owner->0.alive
            && owner->0.state == PlannerState::Idle && seen.claimed is Some && seen.claimed->0
            && seen.typed is None,
        r matches DeliverStep::TypeRequest { workspace } ==> (
        owner->0.planner.workspace_id matches Some(at) ==> workspace@ == at@),
        r is OpenPlanner <==> revise.sent_at is None && (owner is None || (!owner->0.alive
            && seen.owner_gone is Some && seen.owner_gone->0)) && open < limit && seen.claimed
            is Some && seen.claimed->0 && seen.opened is None,
        r is OwnerGone <==> revise.sent_at is None && owner is Some && !owner->0.alive
            && seen.owner_gone is None,
        r matches DeliverStep::RecordSent { planner, workspace, opened } ==> !seen.recorded && (
        if owner is Some && owner->0.alive {
            planner == owner->0.planner.id && !opened && (seen.typed matches Some(Ok(_)))
        } else {
            opened && (seen.opened matches Some(Ok((id, at))) && planner == id && workspace@ == at@)
        }),
        r is RecordLost ==> !seen.recorded && (if owner is Some && owner->0.alive {
            seen.typed matches Some(Err(_))
        } else {
            seen.opened matches Some(Err(_))
        }),
        r is Opened ==> seen.recorded && (seen.opened matches Some(Ok(_))),
        r matches DeliverStep::Failed(error) ==> seen.recorded && (seen.opened matches Some(Err(why))
            && error@ == why@),
{
}

/// Planners are tended in order, each item once; planners are started for
/// drafts and findings only where there is room.
pub proof fn planners_are_tended_in_order(seen: TendSeen, limit: usize, r: PlannersStep)
    requires
        r == tends_planners(seen, limit),
    ensures
        r is Views <==> seen.open is None,
        r is Revises <==> seen.open is Some && seen.revises is None,
        r matches PlannersStep::TendRevise { index } ==> index == seen.tended && index
            < seen.revises->0,
        r is RevisesAgain ==> seen.tended >= seen.revises->0 && seen.waiting is None,
        r matches PlannersStep::DeliverRevise { index, open } ==> index == seen.delivered && index
            < seen.waiting->0 && seen.open == Some(open) && seen.tended >= seen.revises->0,
        r matches PlannersStep::DeliverAnswer { index, open } ==> index == seen.answered && index
            < seen.answers->0 && seen.open == Some(open) && seen.delivered >= seen.waiting->0,
        r matches PlannersStep::StartDraft { index } ==> index == seen.drafted && index
            < seen.drafts->0 && seen.open->0 < limit && seen.answered >= seen.answers->0,
        r matches PlannersStep::StartFinding { index } ==> index == seen.found && index
            < seen.findings->0 && seen.open->0 < limit && seen.settled && !seen.ended,
        r is EndPlanners ==> seen.settled && seen.findings is Some && !seen.ended && (seen.found
            >= seen.findings->0 || seen.open->0 >= limit),
        r is Done ==> seen.settled && seen.ended && seen.findings is Some && seen.answered
            >= seen.answers->0 && seen.delivered >= seen.waiting->0 && seen.tended
            >= seen.revises->0,
        r is SettleFindings ==> !seen.settled && seen.drafts is Some && (seen.drafted
            >= seen.drafts->0 || seen.open->0 >= limit),
{
}

/// A planner has a proposal to work on exactly where one was sent to it, or
/// waits to be sent and came from its workspace.
pub proof fn own_work_is_what_was_sent(revises: Seq<Revise>, view: PlannerView, i: int)
    requires
        0 <= i < revises.len(),
    ensures
        revises[i].planner_id == Some(view.planner.id) ==> has_revise(revises, view),
        revises[i].sent_at is None && (revises[i].owner_workspace matches Some(own) && (
        view.planner.workspace_id matches Some(at) && own@ == at@)) ==> has_revise(revises, view),
        revises.len() == 1 && revises[i].planner_id != Some(view.planner.id) && revises[i].sent_at
            is Some ==> !has_revise(revises, view),
        revises.len() == 1 && revises[i].planner_id != Some(view.planner.id)
            && revises[i].owner_workspace is None ==> !has_revise(revises, view),
{
    assert(is_work_of(revises[i], view.planner.id, view.planner.workspace_id) ==> has_revise(
        revises,
        view,
    ));
}

/// A planner of the runtime's is closed once it is gone or did not exit in
/// time, is asked to exit where it is idle with nothing to do or wait for, and
/// is let be otherwise; one a person opened always is.
pub proof fn a_planner_is_ended_when_done(
    view: PlannerView,
    now: u128,
    timeout: u128,
    seen: EndSeen,
    r: EndStep,
)
    requires
        ends(view, now, timeout, seen, r),
    ensures
        view.planner.origin != PlannerOrigin::Runtime ==> r is Next,
        r is ClosePlanner || r is CloseWorkspace || r is WorkspaceExists ==> !seen.closed && (
        seen.gone || (seen.asked matches Some(at) && at <= now && now - at > timeout)),
        r matches EndStep::CloseWorkspace { workspace } ==> view.planner.workspace_id == Some(
            workspace,
        ) && seen.exists is Some && seen.exists->0 && !seen.workspace_closed,
        r is ClosePlanner && view.planner.workspace_id is Some ==> seen.exists is Some && (
        seen.exists->0 ==> seen.workspace_closed),
        r is SendExit <==> view.planner.origin == PlannerOrigin::Runtime && !seen.closed
            && !seen.exit_sent && !seen.gone && seen.asked is None && !seen.revises && seen.waits
            is Some && !seen.waits->0 && view.state == PlannerState::Idle
            && view.planner.workspace_id is Some,
        r matches EndStep::SendExit { workspace } ==> view.planner.workspace_id == Some(workspace),
        view.planner.origin == PlannerOrigin::Runtime && !seen.closed && !seen.exit_sent
            && seen.gone ==> r !is Next,
{
}

/// A planner waits on a question about what it plans that is open, or whose
/// answer reached it and has not been worked on since; and on no other.
pub proof fn a_planner_waits_on_its_own_questions(
    view: PlannerView,
    asks: Seq<Question>,
    i: int,
)
    requires
        0 <= i < asks.len(),
    ensures
        is_waiting(view, asks) ==> view.planner.draft_task_id is Some || view.planner.finding_id
            is Some,
        view.planner.finding_id matches Some(finding) && asks[i].finding_id == Some(finding)
            && asks[i].closed_at is None ==> is_waiting(view, asks),
        view.planner.finding_id is None && asks[i].finding_id is None && (
        view.planner.draft_task_id matches Some(task) && asks[i].task_id == Some(task))
            && asks[i].closed_at is None ==> is_waiting(view, asks),
        asks.len() == 1 && asks[i].closed_at is Some && !asks[i].delivered ==> !is_waiting(
            view,
            asks,
        ),
        asks.len() == 1 && (asks[i].closed_at matches Some(closed) && (
        view.idle_since matches Some(idle) && idle > closed)) ==> !is_waiting(view, asks),
        asks.len() == 1 && (view.planner.finding_id matches Some(finding) && asks[i].finding_id
            != Some(finding)) ==> !is_waiting(view, asks),
        asks.len() == 1 && view.planner.finding_id is None && asks[i].task_id
            != view.planner.draft_task_id ==> !is_waiting(view, asks),
{
    assert(holds_open(view, asks[i]) ==> (view.planner.draft_task_id is Some
        || view.planner.finding_id is Some) ==> is_waiting(view, asks));
}

/// The precedents quoted are those the verdict names that were answered, in
/// its order, each by its own line.
pub proof fn only_answered_precedents_are_quoted(
    ids: Seq<i64>,
    id: i64,
    answered: Seq<Precedent>,
    at: int,
)
    ensures
        0 <= at < answered.len() && answered[at].id == id && (forall|i: int|
            0 <= i < at ==> (#[trigger] answered[i]).id != id) ==> quoted(
            ids.push(id),
            answered,
            (ids.len() + 1) as int,
        ) == quoted(ids, answered, ids.len() as int).push(answered[at].line@),
        (forall|i: int| 0 <= i < answered.len() ==> (#[trigger] answered[i]).id != id) ==> quoted(
            ids.push(id),
            answered,
            (ids.len() + 1) as int,
        ) == quoted(ids, answered, ids.len() as int),
{
    same_quotes(ids, ids.push(id), answered, ids.len() as int);
    if 0 <= at < answered.len() && answered[at].id == id && (forall|i: int|
        0 <= i < at ==> (#[trigger] answered[i]).id != id) {
        line_at(answered, id, 0, at);
    }
    if forall|i: int| 0 <= i < answered.len() ==> (#[trigger] answered[i]).id != id {
        line_nowhere(answered, id, 0);
    }
}

proof fn same_quotes(a: Seq<i64>, b: Seq<i64>, answered: Seq<Precedent>, n: int)
    requires
        0 <= n <= a.len() <= b.len(),
        forall|i: int| 0 <= i < n ==> a[i] == b[i],
    ensures
        quoted(a, answered, n) == quoted(b, answered, n),
    decreases n,
{
    if n > 0 {
        same_quotes(a, b, answered, n - 1);
    }
}

proof fn line_at(answered: Seq<Precedent>, id: i64, from: int, at: int)
    requires
        0 <= from <= at < answered.len(),
        answered[at].id == id,
        forall|i: int| from <= i < at ==> (#[trigger] answered[i]).id != id,
    ensures
        precedent_line(answered, id, from) == Some(answered[at].line@),
    decreases at - from,
{
    if from < at {
        line_at(answered, id, from + 1, at);
    }
}

proof fn line_nowhere(answered: Seq<Precedent>, id: i64, from: int)
    requires
        0 <= from,
        forall|i: int| 0 <= i < answered.len() ==> (#[trigger] answered[i]).id != id,
    ensures
        precedent_line(answered, id, from) is None,
    decreases answered.len() - from,
{
    if from < answered.len() {
        line_nowhere(answered, id, from + 1);
    }
}

/// A planner that was opened counts as one more, and nothing else changes.
pub proof fn an_opened_planner_counts(seen: &mut TendSeen, limit: usize, r: ())
    requires
        call_ensures(TendSeen::opened, (seen, limit), r),
        old(seen).open is Some && old(seen).open->0 < limit,
    ensures
        final(seen).open is Some && final(seen).open->0 == old(seen).open->0 + 1,
        final(seen).delivered == old(seen).delivered && final(seen).answered == old(seen).answered
            && final(seen).waiting == old(seen).waiting,
{
}

/// The goals of a review are those of its tasks and its proposal, each once and
/// in rising order.
pub proof fn the_goals_are_each_named_once(
    tasks: &Vec<Option<i64>>,
    proposal: &Vec<i64>,
    r: Vec<i64>,
    goal: i64,
)
    requires
        call_ensures(goal_ids, (tasks, proposal), r),
    ensures
        forall|i: int, j: int| 0 <= i < j < r@.len() ==> r@[i] < r@[j],
        r@.contains(goal) <==> tasks@.contains(Some(goal)) || proposal@.contains(goal),
{
    assert(r@.to_set().contains(goal) <==> r@.contains(goal));
    assert(proposal@.to_set().contains(goal) <==> proposal@.contains(goal));
    if tasks@.contains(Some(goal)) {
        let i = choose|i: int| 0 <= i < tasks@.len() && tasks@[i] == Some(goal);
        assert(is_task_goal(tasks@, tasks@.len() as int, goal));
    }
    if is_task_goal(tasks@, tasks@.len() as int, goal) {
        let i = choose|i: int| 0 <= i < tasks@.len() && #[trigger] tasks@[i] == Some(goal);
        assert(tasks@.contains(tasks@[i]));
    }
}

/// The last entry of a task is the one that counts.
proof fn the_last_entry_counts(list: Seq<Expected>, task: i64, n: int)
    requires
        0 <= n <= list.len(),
    ensures
        match last_files(list, task, n) {
            Some(files) => exists|i: int|
                0 <= i < n && (#[trigger] list[i]).task_id == task && text::views(list[i].files@)
                    == files && forall|j: int|
                    i < j < n ==> (#[trigger] list[j]).task_id != task,
            None => forall|i: int| 0 <= i < n ==> (#[trigger] list[i]).task_id != task,
        },
    decreases n,
{
    if n > 0 {
        if list[n - 1].task_id == task {
            assert(text::views(list[n - 1].files@) == last_files(list, task, n)->0);
        } else {
            the_last_entry_counts(list, task, n - 1);
        }
    }
}

/// The last queued entry of a task is the one that counts.
proof fn the_last_queued_entry_counts(list: Seq<Queued>, task: i64, n: int)
    requires
        0 <= n <= list.len(),
    ensures
        match last_queued(list, task, n) {
            Some(files) => exists|i: int|
                0 <= i < n && (#[trigger] list[i]).expected.task_id == task && text::views(
                    list[i].expected.files@,
                ) == files && forall|j: int|
                    i < j < n ==> (#[trigger] list[j]).expected.task_id != task,
            None => forall|i: int| 0 <= i < n ==> (#[trigger] list[i]).expected.task_id != task,
        },
    decreases n,
{
    if n > 0 {
        if list[n - 1].expected.task_id == task {
            assert(text::views(list[n - 1].expected.files@) == last_queued(list, task, n)->0);
        } else {
            the_last_queued_entry_counts(list, task, n - 1);
        }
    }
}

/// The files expected of a task are what its run in flight names where a task is
/// in progress, else what the queue names, else what the plan names; a task that
/// neither the plan nor the queue names has none.
pub proof fn the_nearest_plan_counts(
    tasks: Seq<Expected>,
    queued: Seq<Queued>,
    in_flight: Seq<Expected>,
    task: i64,
)
    ensures
        (forall|i: int| 0 <= i < tasks.len() ==> (#[trigger] tasks[i]).task_id != task) && (forall|
            i: int,
        | 0 <= i < queued.len() ==> (#[trigger] queued[i]).expected.task_id != task)
            ==> expected_of(tasks, queued, in_flight, task) is None,
        (exists|i: int| 0 <= i < queued.len() && (#[trigger] queued[i]).expected.task_id == task)
            || (exists|i: int| 0 <= i < tasks.len() && (#[trigger] tasks[i]).task_id == task)
            ==> expected_of(tasks, queued, in_flight, task) is Some,
        forall|k: int|
            0 <= k < queued.len() && (#[trigger] queued[k]).expected.task_id == task && (forall|
                j: int,
            | k < j < queued.len() ==> (#[trigger] queued[j]).expected.task_id != task) && (forall|
                i: int,
            | 0 <= i < queued.len() ==> !(#[trigger] queued[i]).in_progress) ==> expected_of(
                tasks,
                queued,
                in_flight,
                task,
            ) == Some(text::views(queued[k].expected.files@)),
        forall|k: int|
            expected_of(tasks, queued, in_flight, task) is Some && 0 <= k < in_flight.len() && (
            #[trigger] in_flight[k]).task_id == task && (forall|j: int|
                k < j < in_flight.len() ==> (#[trigger] in_flight[j]).task_id != task)
                && any_in_progress(queued) ==> expected_of(tasks, queued, in_flight, task) == Some(
                text::views(in_flight[k].files@),
            ),
{
    the_last_entry_counts(tasks, task, tasks.len() as int);
    the_last_entry_counts(in_flight, task, in_flight.len() as int);
    the_last_queued_entry_counts(queued, task, queued.len() as int);
    assert forall|k: int|
        0 <= k < queued.len() && (#[trigger] queued[k]).expected.task_id == task && (forall|j: int|
            k < j < queued.len() ==> (#[trigger] queued[j]).expected.task_id != task) && (forall|
            i: int,
        | 0 <= i < queued.len() ==> !(#[trigger] queued[i]).in_progress) implies expected_of(
        tasks,
        queued,
        in_flight,
        task,
    ) == Some(text::views(queued[k].expected.files@)) by {
        let files = last_queued(queued, task, queued.len() as int)->0;
        let i = choose|i: int|
            0 <= i < queued.len() && (#[trigger] queued[i]).expected.task_id == task && text::views(
                queued[i].expected.files@,
            ) == files && forall|j: int|
                i < j < queued.len() ==> (#[trigger] queued[j]).expected.task_id != task;
        if i < k {
            assert(queued[k].expected.task_id != task);
        }
        if k < i {
            assert(queued[i].expected.task_id != task);
        }
    }
    assert forall|k: int|
        expected_of(tasks, queued, in_flight, task) is Some && 0 <= k < in_flight.len() && (
        #[trigger] in_flight[k]).task_id == task && (forall|j: int|
            k < j < in_flight.len() ==> (#[trigger] in_flight[j]).task_id != task)
            && any_in_progress(queued) implies expected_of(tasks, queued, in_flight, task) == Some(
        text::views(in_flight[k].files@),
    ) by {
        let files = last_files(in_flight, task, in_flight.len() as int)->0;
        let i = choose|i: int|
            0 <= i < in_flight.len() && (#[trigger] in_flight[i]).task_id == task && text::views(
                in_flight[i].files@,
            ) == files && forall|j: int|
                i < j < in_flight.len() ==> (#[trigger] in_flight[j]).task_id != task;
        if i < k {
            assert(in_flight[k].task_id != task);
        }
        if k < i {
            assert(in_flight[i].task_id != task);
        }
    }
}

/// The hotspots kept are files that still exist, the first of them up to the
/// limit, in order.
pub proof fn only_files_that_exist_are_hotspots(states: Seq<Seq<char>>, limit: nat, n: int)
    requires
        0 <= n <= states.len() <= usize::MAX,
    ensures
        kept_files(states, limit, n).len() <= limit,
        forall|k: int|
            0 <= k < kept_files(states, limit, n).len() ==> (#[trigger] kept_files(
                states,
                limit,
                n,
            )[k]) < n && states[kept_files(states, limit, n)[k] as int] != "deleted"@,
        kept_files(states, limit, n).len() < limit ==> forall|i: int|
            0 <= i < n && #[trigger] states[i] != "deleted"@ ==> kept_files(
                states,
                limit,
                n,
            ).contains(i as usize),
    decreases n,
{
    if n > 0 {
        only_files_that_exist_are_hotspots(states, limit, n - 1);
        let before = kept_files(states, limit, n - 1);
        let after = kept_files(states, limit, n);
        assert forall|k: int| 0 <= k < after.len() implies (#[trigger] after[k]) < n
            && states[after[k] as int] != "deleted"@ by {
            if k < before.len() {
                assert(after[k] == before[k]);
            }
        }
        if after.len() < limit {
            assert forall|i: int| 0 <= i < n && #[trigger] states[i]
                != "deleted"@ implies after.contains(i as usize) by {
                if i < n - 1 {
                    let k = choose|k: int| 0 <= k < before.len() && before[k] == i as usize;
                    assert(after[k] == i as usize);
                } else {
                    assert(after[before.len() as int] == i as usize);
                }
            }
        }
    }
}

/// At most fifteen hotspots are shown.
pub proof fn hotspots_are_few(states: &Vec<String>, r: Vec<usize>)
    requires
        call_ensures(conflict_hotspots, (states,), r),
        states@.len() <= usize::MAX,
    ensures
        r@.len() <= 15,
{
    only_files_that_exist_are_hotspots(text::views(states@), 15, states@.len() as int);
}

/// Enough candidates are read to leave out a review's own tasks.
pub proof fn own_tasks_take_no_room(own: &Vec<i64>, limit: usize, r: usize)
    requires
        call_ensures(wanted_candidates, (own, limit), r),
    ensures
        r - own@.len() == limit,
{
}

/// What was left out of a list is what it lacks of the whole.
pub proof fn what_is_left_out_is_the_rest(total: usize, listed: usize, r: usize)
    requires
        call_ensures(queued_left_out, (total, listed), r),
    ensures
        total >= listed ==> r + listed == total,
        total < listed ==> r == 0,
{
}

/// A planner is launched with the queue's own paths and programs.
pub proof fn a_planner_is_launched_for_the_queue(
    layout: &Layout,
    group_name: &str,
    r: PlannerLaunch,
)
    requires
        call_ensures(planner_launch, (layout, group_name), r),
    ensures
        r.db == layout.db && r.queue_hash == layout.queue_hash && r.group_name@ == group_name@,
        r.planners_dir == layout.planners_dir && r.repo_root == layout.repo_root,
        r.runner == layout.runner && r.agent == layout.agent && r.claude == layout.claude,
        r.plugin_dir == layout.plugin_dir,
{
}

} // verus!
