//! Planners the runtime opens for findings: a finding marked for a proposal
//! gets a planner of the runtime's, within the limit shared with the planners
//! for revises and drafts, the oldest mark first. The planner submits a
//! proposal that remedies it, dismisses it, or asks the inbox a
//! `planner_question`. A planner that ends with the finding undecided is
//! followed by another, up to a limit per mark.

use crate::planner::PlannerView;
use crate::supervise::draft_planner::{
    deliver_answer, delivers, AnswerSeen, AnswerStep, PlannerAnswer, Subject,
};
use vstd::prelude::*;

verus! {

/// Deliver the answer of a `planner_question` about a finding: typed into the
/// live planner opened for it once it stopped after asking, handed to a new
/// planner when that one is gone, or closed when the finding moved on.
pub fn deliver_finding_answer(
    ask: &PlannerAnswer,
    finding: i64,
    views: &Vec<PlannerView>,
    open: usize,
    limit: usize,
    seen: &AnswerSeen,
) -> (r: AnswerStep)
    ensures
        delivers(*ask, Subject::Finding { id: finding }, views@, open, limit, *seen, r),
{
    deliver_answer(ask, Subject::Finding { id: finding }, views, open, limit, seen)
}

/// What the goal of a finding's planner comes from.
#[derive(Debug, Clone, Copy, PartialEq, Eq, Structural)]
pub enum GoalSource {
    Goal { id: i64 },
    /// The goal of the task that the finding is about.
    TaskGoal { task: i64 },
    NoGoal,
}

/// What the goal of a finding's planner comes from: the finding's own, else
/// that of its task.
pub fn finding_goal(goal: Option<i64>, task: Option<i64>) -> (r: GoalSource)
    ensures
        r == (match (goal, task) {
            (Some(id), _) => GoalSource::Goal { id },
            (None, Some(task)) => GoalSource::TaskGoal { task },
            (None, None) => GoalSource::NoGoal,
        }),
{
    match goal {
        Some(id) => GoalSource::Goal { id },
        None => match task {
            Some(task) => GoalSource::TaskGoal { task },
            None => GoalSource::NoGoal,
        },
    }
}

/// A finding belongs to the goal it names, else to that of its task, else to
/// none.
pub proof fn a_finding_belongs_to_its_own_goal_first(
    goal: Option<i64>,
    task: Option<i64>,
    r: GoalSource,
)
    requires
        call_ensures(finding_goal, (goal, task), r),
    ensures
        goal is Some <==> r is Goal,
        r is Goal ==> goal == Some(r->id),
        r is TaskGoal <==> goal is None && task is Some,
        r is TaskGoal ==> task == Some(r->task),
        r is NoGoal <==> goal is None && task is None,
{
}

/// An answer about a finding is routed before anything is done with it, and
/// starts a planner only where none holds it and there is room.
pub proof fn a_findings_answer_is_routed_first(
    ask: &PlannerAnswer,
    finding: i64,
    views: &Vec<PlannerView>,
    open: usize,
    limit: usize,
    seen: &AnswerSeen,
    r: AnswerStep,
)
    requires
        call_ensures(deliver_finding_answer, (ask, finding, views, open, limit, seen), r),
    ensures
        r is Route <==> seen.route is None,
        r is StartPlanner ==> open < limit && seen.started is None && r->answer == ask.id,
        r is Type ==> seen.claimed is Some && seen.claimed->0 && seen.typed is None,
        (r matches AnswerStep::RecordFailed { payload } ==> payload@ is Object
            && payload@->Object_0.contains(
            ("finding_id"@, crate::json::Value::Int(finding as int)),
        )),
{
    if let AnswerStep::RecordFailed { payload } = r {
        assert(payload@->Object_0[3] == ("finding_id"@, crate::json::Value::Int(finding as int)));
    }
}

} // verus!
