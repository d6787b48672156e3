//! The first half of a landing: the run to land, the approval to land it and
//! the integration slot.

use crate::domain::{is_stale, RunStatus, TaskRun, TaskStatus};
use crate::json;
use crate::json::{Fields, Json};
use crate::text;
use vstd::prelude::*;
use vstd::string::*;

verus! {

/// Which run `integrate` lands.
#[derive(Debug, Clone, Copy, PartialEq, Eq, Structural)]
pub enum IntegrateTarget {
    /// The task's run that awaits integration or comes back from a session.
    Task(i64),
    /// The oldest run awaiting integration by validation time.
    Next,
}

/// A run that holds the integration slot under `token`: `previous` is the
/// status it returns to when the landing stops before `main` moves, and `main`
/// the head it lands on.
pub struct Begun {
    pub run: TaskRun,
    pub previous: RunStatus,
    pub main: String,
    pub token: String,
}

/// A task as `integrate` looks at it.
pub struct TaskLook {
    pub status: TaskStatus,
    pub runs: Vec<TaskRun>,
}

/// The lease of a run: whether its process is alive, and how old its
/// heartbeat is.
#[derive(Debug, Clone, Copy, PartialEq, Eq, Structural)]
pub struct LeaseLook {
    pub alive: bool,
    pub age: i64,
}

/// What `integrate` was called with.
pub struct Call {
    pub target: IntegrateTarget,
    /// The checkout the caller named, and the common directory it belongs to.
    pub repo: String,
    pub common_dir: String,
    /// This process, and whether the landing pushes.
    pub pid: u32,
    pub push: bool,
    pub heartbeat_timeout: i64,
}

/// What has been done and observed so far.
#[derive(Default)]
pub struct Seen {
    /// The repository the queue is bound to.
    pub bound: Option<Option<String>>,
    pub task: Option<TaskLook>,
    /// The oldest run awaiting integration.
    pub next: Option<Option<TaskRun>>,
    pub lease: Option<Option<LeaseLook>>,
    pub approved: Option<bool>,
    pub approval_recorded: bool,
    pub token: Option<String>,
    pub main: Option<String>,
    /// The run once it took the integration slot.
    pub begun: Option<TaskRun>,
}

/// What is done or looked at next, or what the call came to.
pub enum Step {
    Binding,
    ShowTask(i64),
    NextAwaiting,
    Lease { run: String },
    Approved { run: String },
    Record { run: String, kind: &'static str, payload: Json },
    NewToken,
    MainHead,
    TakeSlot { run: String, token: String, main: String },
    /// The call is refused.
    Refused(String),
    /// No run awaits integration.
    Nothing,
    Begun(Begun),
}

/// The first run at or after `from` with a status that `wanted` holds of.
pub open spec fn first_with(
    runs: Seq<TaskRun>,
    wanted: spec_fn(RunStatus) -> bool,
    from: int,
) -> Option<int>
    decreases runs.len() - from,
{
    if from < 0 || from >= runs.len() {
        None
    } else if wanted(runs[from].status) {
        Some(from)
    } else {
        first_with(runs, wanted, from + 1)
    }
}

/// A run that is landing.
pub open spec fn is_landing(s: RunStatus) -> bool {
    s == RunStatus::Integrating
}

/// A run that can be landed.
pub open spec fn is_landable(s: RunStatus) -> bool {
    s == RunStatus::AwaitingIntegration || s == RunStatus::NeedsSession
}

/// The task's first run that is landing.
pub open spec fn busy(runs: Seq<TaskRun>) -> Option<int> {
    first_with(runs, |s: RunStatus| is_landing(s), 0)
}

/// The task's first run that can be landed.
pub open spec fn landable(runs: Seq<TaskRun>) -> Option<int> {
    first_with(runs, |s: RunStatus| is_landable(s), 0)
}

/// The run the call picks, as far as it is known.
pub open spec fn picked(call: Call, seen: Seen) -> Option<TaskRun> {
    match call.target {
        IntegrateTarget::Task(_) => match landable(seen.task->0.runs@) {
            Some(i) => Some(seen.task->0.runs@[i]),
            None => None,
        },
        IntegrateTarget::Next => seen.next->0,
    }
}

/// Whether a run's lease shows that the supervisor holds it.
pub open spec fn is_held(lease: Option<LeaseLook>, timeout: int) -> bool {
    lease matches Some(lease) && !is_stale(lease.alive, lease.age as int, timeout)
}

/// What the call comes to once its run is picked.
pub open spec fn takes(call: Call, seen: Seen, run: TaskRun, r: Step) -> bool {
    if seen.lease is None {
        r == (Step::Lease { run: run.id })
    } else if is_held(seen.lease->0, call.heartbeat_timeout as int) {
        r matches Step::Refused(why) && why@ == "run "@ + run.id@
            + " is held by the supervisor (its review or resume is in progress); see show for its review_finished / resume_finished events"@
    } else if seen.approved is None {
        r == (Step::Approved { run: run.id })
    } else if !seen.approved->0 && !seen.approval_recorded {
        r matches Step::Record { run: id, kind, payload } && id == run.id && kind@
            == "integration_approved"@ && payload@ == json::Value::Object(
            json::none().push(("status"@, json::Value::Text(run.status.name()))).push(
                ("pid"@, json::Value::Int(call.pid as int)),
            ).push(("push"@, json::Value::Bool(call.push))),
        )
    } else if seen.token is None {
        r is NewToken
    } else if seen.main is None {
        r is MainHead
    } else if seen.begun is None {
        r == (Step::TakeSlot { run: run.id, token: seen.token->0, main: seen.main->0 })
    } else {
        r == Step::Begun(
            Begun {
                run: seen.begun->0,
                previous: run.status,
                main: seen.main->0,
                token: seen.token->0,
            },
        )
    }
}

/// What the call comes to with what has been done and observed.
pub open spec fn begins(call: Call, seen: Seen, r: Step) -> bool {
    if seen.bound is None {
        r is Binding
    } else if seen.bound->0 is None {
        r matches Step::Refused(why) && why@
            == "queue is not bound to a repository; no run was supervised"@
    } else if seen.bound->0->0@ != call.common_dir@ {
        r matches Step::Refused(why) && why@ == call.repo@ + " belongs to "@ + call.common_dir@
            + ", but the queue is bound to "@ + seen.bound->0->0@
    } else {
        match call.target {
            IntegrateTarget::Task(task) => if seen.task is None {
                r == Step::ShowTask(task)
            } else if busy(seen.task->0.runs@) is Some {
                r matches Step::Refused(why) && why@ == "run "@
                    + seen.task->0.runs@[busy(seen.task->0.runs@)->0].id@
                    + " of task "@ + text::signed(task as int)
                    + " is already integrating (see doctor if it is stuck)"@
            } else if landable(seen.task->0.runs@) is None {
                r matches Step::Refused(why) && why@ == "task "@ + text::signed(task as int)
                    + " ("@ + seen.task->0.status.name()
                    + ") has no run awaiting integration or a session"@
            } else {
                takes(call, seen, picked(call, seen)->0, r)
            },
            IntegrateTarget::Next => if seen.next is None {
                r is NextAwaiting
            } else if seen.next->0 is None {
                r is Nothing
            } else {
                takes(call, seen, picked(call, seen)->0, r)
            },
        }
    }
}

/// The task's first run that is landing.
fn find_busy(runs: &Vec<TaskRun>) -> (r: Option<usize>)
    ensures
        match r {
            Some(i) => busy(runs@) == Some(i as int) && i < runs@.len(),
            None => busy(runs@) is None,
        },
{
    let ghost wanted = |s: RunStatus| is_landing(s);
    let mut i: usize = 0;
    while i < runs.len()
        invariant
            i <= runs@.len(),
            wanted == (|s: RunStatus| is_landing(s)),
            first_with(runs@, wanted, 0) == first_with(runs@, wanted, i as int),
        decreases runs@.len() - i,
    {
        if runs[i].status == RunStatus::Integrating {
            return Some(i);
        }
        i += 1;
    }
    None
}

/// The task's first run that can be landed.
fn find_landable(runs: &Vec<TaskRun>) -> (r: Option<usize>)
    ensures
        match r {
            Some(i) => landable(runs@) == Some(i as int) && i < runs@.len(),
            None => landable(runs@) is None,
        },
{
    let ghost wanted = |s: RunStatus| is_landable(s);
    let mut i: usize = 0;
    while i < runs.len()
        invariant
            i <= runs@.len(),
            wanted == (|s: RunStatus| is_landable(s)),
            first_with(runs@, wanted, 0) == first_with(runs@, wanted, i as int),
        decreases runs@.len() - i,
    {
        if runs[i].status == RunStatus::AwaitingIntegration || runs[i].status
            == RunStatus::NeedsSession {
            return Some(i);
        }
        i += 1;
    }
    None
}

/// What follows once the run is picked: a run the supervisor holds (its review
/// or its resume) is not approved by a call that cannot land it; the call is
/// the approval to land, recorded once.
fn take(call: &Call, seen: &Seen, run: &TaskRun) -> (r: Step)
    ensures
        takes(*call, *seen, *run, r),
{
    match &seen.lease {
        None => return Step::Lease { run: run.id.clone() },
        Some(Some(lease)) => {
            if !crate::domain::heartbeat_stale(lease.alive, lease.age, call.heartbeat_timeout) {
                return Step::Refused(
                    "run ".to_owned().concat(run.id.as_str()).concat(
                        " is held by the supervisor (its review or resume is in progress); see show for its review_finished / resume_finished events",
                    ),
                );
            }
        },
        Some(None) => {},
    }
    match seen.approved {
        None => return Step::Approved { run: run.id.clone() },
        Some(approved) => if !approved && !seen.approval_recorded {
            let payload = Fields::new().text("status", run.status.as_str()).number(
                "pid",
                call.pid as i128,
            ).flag("push", call.push).done();
            return Step::Record { run: run.id.clone(), kind: "integration_approved", payload };
        },
    }
    let token = match &seen.token {
        Some(token) => token,
        None => return Step::NewToken,
    };
    let main = match &seen.main {
        Some(main) => main,
        None => return Step::MainHead,
    };
    match &seen.begun {
        None => Step::TakeSlot { run: run.id.clone(), token: token.clone(), main: main.clone() },
        Some(begun) => Step::Begun(
            Begun {
                run: begun.copy(),
                previous: run.status,
                main: main.clone(),
                token: token.clone(),
            },
        ),
    }
}

/// The first half of `integrate`: pick the run of the target, record the call
/// as the approval to land it and take the integration slot.
pub fn begin(call: &Call, seen: &Seen) -> (r: Step)
    ensures
        begins(*call, *seen, r),
{
    let bound = match &seen.bound {
        None => return Step::Binding,
        Some(None) => {
            return Step::Refused(
                "queue is not bound to a repository; no run was supervised".to_owned(),
            );
        },
        Some(Some(bound)) => bound,
    };
    if !text::same(bound.as_str(), call.common_dir.as_str()) {
        return Step::Refused(
            call.repo.clone().concat(" belongs to ").concat(call.common_dir.as_str()).concat(
                ", but the queue is bound to ",
            ).concat(bound.as_str()),
        );
    }
    match call.target {
        IntegrateTarget::Task(task) => {
            let detail = match &seen.task {
                Some(detail) => detail,
                None => return Step::ShowTask(task),
            };
            let id = text::integer(task);
            if let Some(i) = find_busy(&detail.runs) {
                return Step::Refused(
                    "run ".to_owned().concat(detail.runs[i].id.as_str()).concat(
                        " of task ",
                    ).concat(id.as_str()).concat(
                        " is already integrating (see doctor if it is stuck)",
                    ),
                );
            }
            match find_landable(&detail.runs) {
                Some(i) => take(call, seen, &detail.runs[i]),
                None => Step::Refused(
                    "task ".to_owned().concat(id.as_str()).concat(" (").concat(
                        detail.status.as_str(),
                    ).concat(") has no run awaiting integration or a session"),
                ),
            }
        },
        IntegrateTarget::Next => match &seen.next {
            None => Step::NextAwaiting,
            Some(None) => Step::Nothing,
            Some(Some(run)) => take(call, seen, run),
        },
    }
}

/// The integration slot is taken only for a run nobody holds, whose approval
/// is recorded, of a queue bound to the caller's repository; a named task's
/// run has then no other run of the task landing.
pub proof fn slot_is_taken_only_for_a_free_approved_run(call: Call, seen: Seen, r: Step)
    requires
        begins(call, seen, r),
        r is TakeSlot || r is Begun,
    ensures
        seen.bound->0->0@ == call.common_dir@,
        seen.lease is Some && !is_held(seen.lease->0, call.heartbeat_timeout as int),
        seen.approved == Some(true) || seen.approval_recorded,
        call.target is Task ==> busy(seen.task->0.runs@) is None,
        r matches Step::TakeSlot { run, .. } ==> run == picked(call, seen)->0.id,
        r matches Step::Begun(begun) ==> begun.previous == picked(call, seen)->0.status,
{
}

/// The first run with a wanted status: the one found has it, and none before
/// it has.
pub proof fn the_first_is_found(
    runs: Seq<TaskRun>,
    wanted: spec_fn(RunStatus) -> bool,
    from: int,
)
    requires
        0 <= from,
    ensures
        match first_with(runs, wanted, from) {
            Some(at) => from <= at < runs.len() && wanted(runs[at].status) && forall|i: int|
                from <= i < at ==> !wanted((#[trigger] runs[i]).status),
            None => forall|i: int|
                from <= i < runs.len() ==> !wanted((#[trigger] runs[i]).status),
        },
    decreases runs.len() - from,
{
    if from < runs.len() && !wanted(runs[from].status) {
        the_first_is_found(runs, wanted, from + 1);
    }
}

/// A landing begins only in the repository the queue is bound to, for a run
/// that waits to be integrated or for a session (of a task none of whose runs
/// is integrating), that nobody alive holds, and that is approved or whose
/// approval was recorded.
pub proof fn a_landing_begins_for_a_waiting_run(call: Call, seen: Seen, r: Step)
    requires
        begins(call, seen, r),
        r is TakeSlot || r is Begun,
    ensures
        seen.bound matches Some(Some(bound)) && bound@ == call.common_dir@,
        seen.lease matches Some(held) && (held matches Some(lease) ==> !lease.alive || lease.age
            > call.heartbeat_timeout),
        (seen.approved is Some && seen.approved->0) || seen.approval_recorded,
        seen.main is Some && seen.token is Some,
        call.target is Task ==> (forall|i: int|
            0 <= i < seen.task->0.runs@.len() ==> (#[trigger] seen.task->0.runs@[i]).status
                != RunStatus::Integrating) && exists|i: int|
            {
                &&& 0 <= i < seen.task->0.runs@.len()
                &&& (#[trigger] seen.task->0.runs@[i]).status == RunStatus::AwaitingIntegration
                    || seen.task->0.runs@[i].status == RunStatus::NeedsSession
                &&& r matches Step::TakeSlot { run, .. } ==> run@ == seen.task->0.runs@[i].id@
                &&& r matches Step::Begun(begun) ==> begun.previous == seen.task->0.runs@[i].status
            },
        call.target is Next ==> (seen.next matches Some(Some(next)) && (r matches Step::TakeSlot {
            run,
            ..
        } ==> run@ == next.id@) && (r matches Step::Begun(begun) ==> begun.previous
            == next.status)),
        r matches Step::TakeSlot { token, main, .. } ==> seen.token == Some(token) && seen.main
            == Some(main) && seen.begun is None,
        r matches Step::Begun(begun) ==> seen.begun == Some(begun.run) && seen.main == Some(
            begun.main,
        ) && seen.token == Some(begun.token),
{
    if call.target is Task {
        let runs = seen.task->0.runs@;
        the_first_is_found(runs, |s: RunStatus| is_landing(s), 0);
        the_first_is_found(runs, |s: RunStatus| is_landable(s), 0);
        assert forall|i: int| 0 <= i < runs.len() implies (#[trigger] runs[i]).status
            != RunStatus::Integrating by {
            assert(!is_landing(runs[i].status));
        }
        let at = landable(runs)->0;
        assert(is_landable(runs[at].status));
    }
}

/// A landing is refused only where the queue is bound elsewhere or nowhere,
/// the task has nothing to land or lands already, or the run is held by a
/// supervisor at work; there it is.
pub proof fn a_landing_is_refused_with_cause(call: Call, seen: Seen, r: Step)
    requires
        begins(call, seen, r),
    ensures
        seen.bound matches Some(None) ==> r is Refused,
        seen.bound matches Some(Some(bound)) && bound@ != call.common_dir@ ==> r is Refused,
        r is Refused ==> {
            ||| (seen.bound matches Some(None))
            ||| (seen.bound matches Some(Some(bound)) && bound@ != call.common_dir@)
            ||| call.target is Task && exists|i: int|
                0 <= i < seen.task->0.runs@.len() && (#[trigger] seen.task->0.runs@[i]).status
                    == RunStatus::Integrating
            ||| call.target is Task && forall|i: int|
                0 <= i < seen.task->0.runs@.len() ==> (#[trigger] seen.task->0.runs@[i]).status
                    != RunStatus::AwaitingIntegration && seen.task->0.runs@[i].status
                    != RunStatus::NeedsSession
            ||| (seen.lease matches Some(Some(lease)) && lease.alive && lease.age
                <= call.heartbeat_timeout)
        },
        r is Nothing <==> (seen.bound matches Some(Some(bound)) && bound@ == call.common_dir@)
            && call.target is Next && (seen.next matches Some(None)),
        r matches Step::Record { kind, .. } ==> kind@ == "integration_approved"@ && seen.approved
            is Some && !seen.approved->0 && !seen.approval_recorded,
        r is Record ==> (seen.lease matches Some(held) && (held matches Some(lease) ==> !lease.alive
            || lease.age > call.heartbeat_timeout)),
{
    if call.target is Task && seen.task is Some {
        let runs = seen.task->0.runs@;
        the_first_is_found(runs, |s: RunStatus| is_landing(s), 0);
        the_first_is_found(runs, |s: RunStatus| is_landable(s), 0);
        if busy(runs) is Some {
            assert(is_landing(runs[busy(runs)->0].status));
        }
        if landable(runs) is None {
            assert forall|i: int| 0 <= i < runs.len() implies (#[trigger] runs[i]).status
                != RunStatus::AwaitingIntegration && runs[i].status != RunStatus::NeedsSession by {
                assert(!is_landable(runs[i].status));
            }
        }
    }
}

} // verus!
