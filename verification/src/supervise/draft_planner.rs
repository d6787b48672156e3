//! Planners the runtime opens for drafts: every draft the runtime or a job
//! registered gets a planner of the runtime's, within the limit that it shares
//! with the planners opened for revises, oldest draft first. The planner adopts
//! the draft, drops it or asks the inbox a `planner_question`, whose answer the
//! supervisor types into its workspace, or hands to a new planner when that one
//! is gone. A planner that ends with the draft undecided is followed by
//! another, up to a limit per draft.

use crate::domain::RunEvent;
use crate::json;
use crate::json::{Fields, Json};
use crate::planner::{PlannerState, PlannerView};
use crate::text;
use vstd::prelude::*;
use vstd::string::*;

verus! {

/// An answered `planner_question`.
pub struct PlannerAnswer {
    pub id: i64,
    pub task_id: Option<i64>,
    pub finding_id: Option<i64>,
    pub asked_by: String,
    pub created_at: i64,
    pub answer: Option<String>,
}

/// Where an answer goes.
#[derive(Debug, Clone, Copy, PartialEq, Eq, Structural)]
pub enum PlannerAnswerRoute {
    /// The planner that works on it.
    Planner { id: i64 },
    NewPlanner,
    /// What it is about moved on.
    Close,
    /// A person reads it.
    Person,
}

/// What a question is about.
#[derive(Debug, Clone, Copy, PartialEq, Eq, Structural)]
pub enum Subject {
    Draft { task: i64 },
    Finding { id: i64 },
}

/// What a question is about, if the supervisor delivers its answer.
pub open spec fn subject_of(ask: PlannerAnswer) -> Option<Subject> {
    match ask.finding_id {
        Some(id) => Some(Subject::Finding { id }),
        None => match ask.task_id {
            Some(task) => Some(Subject::Draft { task }),
            None => None,
        },
    }
}

/// What a question is about: a finding, else a draft.
pub fn subject(ask: &PlannerAnswer) -> (r: Option<Subject>)
    ensures
        r == subject_of(*ask),
{
    match ask.finding_id {
        Some(id) => Some(Subject::Finding { id }),
        None => match ask.task_id {
            Some(task) => Some(Subject::Draft { task }),
            None => None,
        },
    }
}

/// What has been done and observed of an answer that is delivered.
#[derive(Default)]
pub struct AnswerSeen {
    pub route: Option<PlannerAnswerRoute>,
    /// A delivery of the answer failed before.
    pub failed_before: Option<bool>,
    /// The typing was taken; not where another supervisor took it.
    pub claimed: Option<bool>,
    pub typed: Option<Result<(), String>>,
    /// The workspace of the planner that was started; none where it was not.
    pub started: Option<Option<String>>,
    /// What came of it is recorded.
    pub recorded: bool,
}

/// What delivering an answer does next.
pub enum AnswerStep {
    Next,
    Route,
    DeliveryFailed,
    Claim { planner: i64, workspace: String },
    Type { workspace: String, text: String },
    RecordDelivered { workspace: String },
    /// Record `ask_delivery_failed`: the answer is left to the inbox.
    RecordFailed { payload: Json },
    /// Start a planner that is handed the answer of this ask.
    StartPlanner { answer: i64 },
    /// One more of the runtime's planners is open.
    Started,
    Close { why: &'static str },
}

/// The first of the views, from `from` on, of the planner.
pub open spec fn view_of(views: Seq<PlannerView>, id: i64, from: int) -> Option<int>
    decreases views.len() - from,
{
    if from < 0 || from >= views.len() {
        None
    } else if views[from].planner.id == id {
        Some(from)
    } else {
        view_of(views, id, from + 1)
    }
}

/// A view that is found is one of the views, and the planner's.
proof fn view_is_listed(views: Seq<PlannerView>, id: i64, from: int)
    ensures
        view_of(views, id, from) matches Some(i) ==> 0 <= i < views.len() && views[i].planner.id
            == id,
    decreases views.len() - from,
{
    if 0 <= from < views.len() {
        view_is_listed(views, id, from + 1);
    }
}

/// The first of the views of the planner.
pub fn find_view(views: &Vec<PlannerView>, id: i64) -> (r: Option<usize>)
    ensures
        match r {
            Some(i) => i < views@.len() && view_of(views@, id, 0) == Some(i as int),
            None => view_of(views@, id, 0) is None,
        },
{
    let mut i: usize = 0;
    while i < views.len()
        invariant
            i <= views@.len(),
            view_of(views@, id, 0) == view_of(views@, id, i as int),
        decreases views@.len() - i,
    {
        if views[i].planner.id == id {
            return Some(i);
        }
        i += 1;
    }
    None
}

/// Whether an answer may be typed to a planner: it is idle, and has stopped
/// since it asked where it asked itself.
pub open spec fn is_ready(view: PlannerView, ask: PlannerAnswer) -> bool {
    view.state == PlannerState::Idle && (ask.asked_by@ == "planner"@ ==> view.idle_since is Some
        && view.idle_since->0 >= ask.created_at)
}

/// What is typed of an answer.
pub open spec fn typed_text(ask: PlannerAnswer) -> Seq<char> {
    "answer to ask "@ + text::signed(ask.id as int) + ": "@ + (match ask.answer {
        Some(answer) => answer@,
        None => ""@,
    })
}

/// What `ask_delivery_failed` records.
pub open spec fn failed_payload(
    ask: PlannerAnswer,
    subject: Subject,
    planner: i64,
    workspace: Seq<char>,
    error: Seq<char>,
) -> json::Value {
    let base = json::none().push(("ask_id"@, json::Value::Int(ask.id as int))).push(
        ("workspace_id"@, json::Value::Text(workspace)),
    ).push(("planner_id"@, json::Value::Int(planner as int)));
    json::Value::Object(
        (match subject {
            Subject::Finding { id } => base.push(("finding_id"@, json::Value::Int(id as int))),
            Subject::Draft { .. } => base,
        }).push(("error"@, json::Value::Text(error))),
    )
}

/// Typing an answer into its planner's workspace.
pub open spec fn types(
    ask: PlannerAnswer,
    subject: Subject,
    planner: i64,
    workspace: Seq<char>,
    seen: AnswerSeen,
    r: AnswerStep,
) -> bool {
    if seen.failed_before is None {
        r is DeliveryFailed
    } else if seen.failed_before->0 {
        r is Next
    } else if seen.claimed is None {
        r matches AnswerStep::Claim { planner: p, workspace: w } && p == planner && w@ == workspace
    } else if !seen.claimed->0 {
        r is Next
    } else {
        match seen.typed {
            None => r matches AnswerStep::Type { workspace: w, text } && w@ == workspace && text@
                == typed_text(ask),
            Some(_) if seen.recorded => r is Next,
            Some(Ok(_)) => r matches AnswerStep::RecordDelivered { workspace: w } && w@ == workspace,
            Some(Err(error)) => r matches AnswerStep::RecordFailed { payload } && payload@
                == failed_payload(ask, subject, planner, workspace, error@),
        }
    }
}

/// What delivering an answer comes to.
pub open spec fn delivers(
    ask: PlannerAnswer,
    subject: Subject,
    views: Seq<PlannerView>,
    open: usize,
    limit: usize,
    seen: AnswerSeen,
    r: AnswerStep,
) -> bool {
    match seen.route {
        None => r is Route,
        Some(PlannerAnswerRoute::Planner { id }) => match view_of(views, id, 0) {
            None => r is Next,
            Some(i) => if !is_ready(views[i], ask) || views[i].planner.workspace_id is None {
                r is Next
            } else {
                types(ask, subject, id, views[i].planner.workspace_id->0@, seen, r)
            },
        },
        Some(PlannerAnswerRoute::NewPlanner) => match seen.started {
            None => if open < limit {
                r == (AnswerStep::StartPlanner { answer: ask.id })
            } else {
                r is Next
            },
            Some(None) => r is Next,
            Some(Some(workspace)) => if !seen.recorded {
                r == (AnswerStep::RecordDelivered { workspace })
            } else {
                r is Started
            },
        },
        Some(PlannerAnswerRoute::Close) => if seen.recorded {
            r is Next
        } else {
            r matches AnswerStep::Close { why } && why@ == (match subject {
                Subject::Draft { .. } => "its draft moved on and no planner of the runtime's works on it"@,
                Subject::Finding { .. } => "its finding moved on and no planner of the runtime's works on it"@,
            })
        },
        Some(PlannerAnswerRoute::Person) => r is Next,
    }
}

/// Type an answer into its planner's workspace.
fn type_answer(
    ask: &PlannerAnswer,
    subject: Subject,
    planner: i64,
    workspace: &String,
    seen: &AnswerSeen,
) -> (r: AnswerStep)
    ensures
        types(*ask, subject, planner, workspace@, *seen, r),
{
    match seen.failed_before {
        None => return AnswerStep::DeliveryFailed,
        Some(failed) => if failed {
            return AnswerStep::Next;
        },
    }
    match seen.claimed {
        None => return AnswerStep::Claim { planner, workspace: workspace.clone() },
        Some(claimed) => if !claimed {
            return AnswerStep::Next;
        },
    }
    match &seen.typed {
        None => {
            let id = text::integer(ask.id);
            let said = match &ask.answer {
                Some(answer) => answer.as_str(),
                None => "",
            };
            AnswerStep::Type {
                workspace: workspace.clone(),
                text: "answer to ask ".to_owned().concat(id.as_str()).concat(": ").concat(said),
            }
        },
        Some(result) => {
            if seen.recorded {
                return AnswerStep::Next;
            }
            match result {
                Ok(_) => AnswerStep::RecordDelivered { workspace: workspace.clone() },
                Err(error) => {
                    let base = Fields::new().number("ask_id", ask.id as i128).text(
                        "workspace_id",
                        workspace.as_str(),
                    ).number("planner_id", planner as i128);
                    let base = match subject {
                        Subject::Finding { id } => base.number("finding_id", id as i128),
                        Subject::Draft { .. } => base,
                    };
                    AnswerStep::RecordFailed { payload: base.text("error", error.as_str()).done() }
                },
            }
        },
    }
}

/// Deliver an answered `planner_question`: typed into the live planner that
/// works on it once that stopped after asking, handed to a new planner when it
/// is gone, while the runtime's are below `limit`, or closed when what it is
/// about moved on. The typing is taken first, so that only one supervisor types
/// an answer; one that fails leaves the answer to the inbox.
pub fn deliver_answer(
    ask: &PlannerAnswer,
    subject: Subject,
    views: &Vec<PlannerView>,
    open: usize,
    limit: usize,
    seen: &AnswerSeen,
) -> (r: AnswerStep)
    ensures
        delivers(*ask, subject, views@, open, limit, *seen, r),
{
    let route = match seen.route {
        None => return AnswerStep::Route,
        Some(route) => route,
    };
    match route {
        PlannerAnswerRoute::Planner { id } => {
            let view = match find_view(views, id) {
                None => return AnswerStep::Next,
                Some(i) => &views[i],
            };
            let asked_itself = text::same(ask.asked_by.as_str(), "planner");
            let stopped = match view.idle_since {
                Some(since) => since >= ask.created_at,
                None => false,
            };
            if view.state != PlannerState::Idle || (asked_itself && !stopped) {
                return AnswerStep::Next;
            }
            match &view.planner.workspace_id {
                None => AnswerStep::Next,
                Some(workspace) => type_answer(ask, subject, id, workspace, seen),
            }
        },
        PlannerAnswerRoute::NewPlanner => match &seen.started {
            None => if open < limit {
                AnswerStep::StartPlanner { answer: ask.id }
            } else {
                AnswerStep::Next
            },
            Some(None) => AnswerStep::Next,
            Some(Some(workspace)) => if !seen.recorded {
                AnswerStep::RecordDelivered { workspace: workspace.clone() }
            } else {
                AnswerStep::Started
            },
        },
        PlannerAnswerRoute::Close => if seen.recorded {
            AnswerStep::Next
        } else {
            AnswerStep::Close {
                why: match subject {
                    Subject::Draft { .. } => {
                        "its draft moved on and no planner of the runtime's works on it"
                    },
                    Subject::Finding { .. } => {
                        "its finding moved on and no planner of the runtime's works on it"
                    },
                },
            }
        },
        PlannerAnswerRoute::Person => AnswerStep::Next,
    }
}

/// An answer is typed only by the supervisor that took it, only into the
/// workspace of an idle planner, and not again after a delivery failed.
pub proof fn an_answer_is_typed_once(
    ask: PlannerAnswer,
    subject: Subject,
    views: Seq<PlannerView>,
    open: usize,
    limit: usize,
    seen: AnswerSeen,
    r: AnswerStep,
)
    requires
        delivers(ask, subject, views, open, limit, seen, r),
        r is Type,
    ensures
        seen.claimed == Some(true),
        seen.failed_before == Some(false),
        seen.typed is None,
        exists|i: int|
            0 <= i < views.len() && is_ready(#[trigger] views[i], ask)
                && views[i].planner.workspace_id is Some && r->Type_workspace@
                == views[i].planner.workspace_id->0@,
{
    let id = seen.route->0->Planner_id;
    view_is_listed(views, id, 0);
    let i = view_of(views, id, 0)->0;
    assert(is_ready(views[i], ask));
}

/// Whether a delivery of the ask's answer failed before.
pub open spec fn has_failed(events: Seq<RunEvent>, ask: i64) -> bool {
    exists|i: int|
        0 <= i < events.len() && (#[trigger] events[i]).is_kind("ask_delivery_failed"@)
            && json::int_of(json::at(events[i].payload@, "ask_id"@)) == Some(ask as int)
}

/// Whether a delivery of the ask's answer failed before.
pub fn delivery_failed(events: &Vec<RunEvent>, ask: i64) -> (r: bool)
    ensures
        r == has_failed(events@, ask),
{
    let mut i: usize = 0;
    while i < events.len()
        invariant
            i <= events@.len(),
            forall|j: int|
                0 <= j < i ==> !((#[trigger] events@[j]).is_kind("ask_delivery_failed"@)
                    && json::int_of(json::at(events@[j].payload@, "ask_id"@)) == Some(ask as int)),
        decreases events@.len() - i,
    {
        if events[i].of_kind("ask_delivery_failed") && match events[i].payload.integer("ask_id") {
            Some(id) => id == ask,
            None => false,
        } {
            assert(events@[i as int].is_kind("ask_delivery_failed"@));
            return true;
        }
        i += 1;
    }
    false
}

/// How recording a planner for a draft or a finding went.
#[derive(Debug, Clone, Copy, PartialEq, Eq, Structural)]
pub enum PlannerStart {
    /// Another supervisor took it, or it moved on.
    Skipped,
    /// Its planners are used up.
    Exhausted { attempts: usize },
    Opened { planner: i64, attempt: usize },
}

/// What has been done and observed of a planner that is started.
#[derive(Default)]
pub struct StartSeen {
    pub start: Option<PlannerStart>,
    /// The prompt could be written, or why not.
    pub prompt: Option<Result<(), String>>,
    /// The record was closed with that.
    pub closed: bool,
    /// The workspace of the planner that was opened, or why it was not.
    pub opened: Option<Result<Option<String>, String>>,
}

/// What starting a planner does next, or what it came to.
pub enum StartStep {
    /// Record the planner, with the ask whose answer it is handed.
    Record { answer: Option<i64> },
    /// Write its prompt, with the answer it is handed.
    Prompt { attempt: usize, answer: Option<i64> },
    ClosePlanner { planner: i64, error: String },
    Failed(String),
    Open,
    /// The workspace it was opened in; none where it was not taken.
    Started(Option<String>),
}

/// Start a planner for a draft or a finding: record it, write its prompt and
/// open its workspace. One whose prompt cannot be written is closed with why.
/// `answer` is the ask whose answer it is handed.
pub fn start_planner(answer: Option<i64>, seen: &StartSeen) -> (r: StartStep)
    ensures
        match seen.start {
            None => r == (StartStep::Record { answer }),
            Some(PlannerStart::Opened { planner, attempt }) => match seen.prompt {
                None => r == (StartStep::Prompt { attempt, answer }),
                Some(Err(error)) => if !seen.closed {
                    r == (StartStep::ClosePlanner { planner, error })
                } else {
                    r == StartStep::Failed(error)
                },
                Some(Ok(_)) => match seen.opened {
                    None => r is Open,
                    Some(Err(error)) => r == StartStep::Failed(error),
                    Some(Ok(workspace)) => r matches StartStep::Started(Some(w)) && w@ == (
                    match workspace {
                        Some(workspace) => workspace@,
                        None => ""@,
                    }),
                },
            },
            Some(_) => r == StartStep::Started(None),
        },
{
    let (planner, attempt) = match seen.start {
        None => return StartStep::Record { answer },
        Some(PlannerStart::Skipped) => return StartStep::Started(None),
        Some(PlannerStart::Exhausted { attempts: _ }) => return StartStep::Started(None),
        Some(PlannerStart::Opened { planner, attempt }) => (planner, attempt),
    };
    match &seen.prompt {
        None => return StartStep::Prompt { attempt, answer },
        Some(Err(error)) => {
            return if !seen.closed {
                StartStep::ClosePlanner { planner, error: error.clone() }
            } else {
                StartStep::Failed(error.clone())
            };
        },
        Some(Ok(_)) => {},
    }
    match &seen.opened {
        None => StartStep::Open,
        Some(Err(error)) => StartStep::Failed(error.clone()),
        Some(Ok(workspace)) => StartStep::Started(
            Some(
                match workspace {
                    Some(workspace) => workspace.clone(),
                    None => "".to_owned(),
                },
            ),
        ),
    }
}

/// What opening planners one by one does next.
#[derive(Debug, Clone, Copy, PartialEq, Eq, Structural)]
pub enum OpenStep {
    Start { index: usize },
    Done,
}

/// Open a planner for each draft or finding that waits for one, in order, while
/// the runtime's planners are below the limit. `next` is the first of the
/// `waiting` that was not tried.
pub fn open_planners(waiting: usize, next: usize, open: usize, limit: usize) -> (r: OpenStep)
    ensures
        r == (if next < waiting && open < limit {
            OpenStep::Start { index: next }
        } else {
            OpenStep::Done
        }),
{
    if next < waiting && open < limit {
        OpenStep::Start { index: next }
    } else {
        OpenStep::Done
    }
}

/// Where a draft came from.
#[derive(Debug, Clone, Copy, PartialEq, Eq, Structural)]
pub enum DraftOrigin {
    /// A follow-up of a landed receipt.
    FollowUp,
    /// A gap of a goal.
    GoalGap,
}

/// What the prompt of a draft's planner is made from.
pub struct DraftSources {
    pub source_task: Option<i64>,
    /// The run whose receipt the draft came from.
    pub source_run: Option<String>,
}

/// What the prompt of a draft's planner is made from: the task it names, and
/// the run whose receipt a follow-up came from.
pub fn draft_sources(origin: DraftOrigin, material: &Json) -> (r: DraftSources)
    ensures
        match r.source_task {
            Some(id) => json::int_of(json::at(material@, "source_task_id"@)) == Some(id as int),
            None => json::int_of(json::at(material@, "source_task_id"@)) is None,
        },
        text::opt_view(r.source_run) == (if origin == DraftOrigin::FollowUp {
            json::text_of(json::at(material@, "source_run_id"@))
        } else {
            None
        }),
{
    DraftSources {
        source_task: material.integer("source_task_id"),
        source_run: if origin == DraftOrigin::FollowUp {
            material.text("source_run_id")
        } else {
            None
        },
    }
}

/// The receipt that landed with a run, as the last event of its landing has it.
pub fn landed_receipt(events: &Vec<RunEvent>) -> (r: Option<Json>)
    ensures
        match crate::supervise::exit::latest_of(
            events@,
            "integration_receipt"@,
            events@.len() as int,
        ) {
            Some(event) => r matches Some(receipt) && receipt@ == json::at(
                event.payload@,
                "receipt"@,
            ),
            None => r is None,
        },
{
    match crate::supervise::exit::find_latest(events, "integration_receipt") {
        Some(i) => Some(
            match events[i].payload.get("receipt") {
                Some(receipt) => receipt.copy(),
                None => Json::Null,
            },
        ),
        None => None,
    }
}

/// The places of the other tasks among the first `n` of a goal's.
pub open spec fn siblings_of(tasks: Seq<i64>, draft: i64, n: int) -> Seq<usize>
    decreases n,
{
    if n <= 0 || n > tasks.len() {
        Seq::empty()
    } else if tasks[n - 1] != draft {
        siblings_of(tasks, draft, n - 1).push((n - 1) as usize)
    } else {
        siblings_of(tasks, draft, n - 1)
    }
}

/// The places of the other tasks of a draft's goal.
pub fn siblings(tasks: &Vec<i64>, draft: i64) -> (r: Vec<usize>)
    ensures
        r@ == siblings_of(tasks@, draft, tasks@.len() as int),
{
    let mut out: Vec<usize> = Vec::new();
    let mut i: usize = 0;
    while i < tasks.len()
        invariant
            i <= tasks@.len(),
            out@ == siblings_of(tasks@, draft, i as int),
        decreases tasks@.len() - i,
    {
        if tasks[i] != draft {
            out.push(i);
        }
        i += 1;
    }
    out
}

/// An answer is about its finding where it names one, and about its draft
/// otherwise.
pub proof fn an_answer_is_about_its_finding_first(ask: &PlannerAnswer, r: Option<Subject>)
    requires
        call_ensures(subject, (ask,), r),
    ensures
        ask.finding_id is Some ==> r == Some(Subject::Finding { id: ask.finding_id->0 }),
        ask.finding_id is None && ask.task_id is Some ==> r == Some(
            Subject::Draft { task: ask.task_id->0 },
        ),
        ask.finding_id is None && ask.task_id is None ==> r is None,
{
}

/// The view looked up is the first one of that planner, and none is found only
/// where none is of it.
pub proof fn the_view_is_the_planners_own(views: Seq<PlannerView>, id: i64, from: int)
    requires
        0 <= from,
    ensures
        match view_of(views, id, from) {
            Some(i) => from <= i < views.len() && views[i].planner.id == id && forall|j: int|
                from <= j < i ==> (#[trigger] views[j]).planner.id != id,
            None => forall|j: int|
                from <= j < views.len() ==> (#[trigger] views[j]).planner.id != id,
        },
    decreases views.len() - from,
{
    if from < views.len() && views[from].planner.id != id {
        the_view_is_the_planners_own(views, id, from + 1);
    }
}

/// An answer goes only into the workspace of the planner it was routed to,
/// while that planner sits idle at its prompt, and, where the planner itself
/// asked, only once it has been idle since it asked; what is typed names the
/// ask and holds the whole answer.
pub proof fn an_answer_reaches_the_planner_it_is_for(
    ask: PlannerAnswer,
    subject: Subject,
    views: Seq<PlannerView>,
    open: usize,
    limit: usize,
    seen: AnswerSeen,
    id: i64,
    r: AnswerStep,
)
    requires
        delivers(ask, subject, views, open, limit, seen, r),
        seen.route == Some(PlannerAnswerRoute::Planner { id }),
    ensures
        r !is Next ==> exists|i: int|
            {
                &&& 0 <= i < views.len()
                &&& (#[trigger] views[i]).planner.id == id
                &&& views[i].state == PlannerState::Idle
                &&& views[i].planner.workspace_id is Some
                &&& ask.asked_by@ == "planner"@ ==> views[i].idle_since is Some
                    && views[i].idle_since->0 >= ask.created_at
                &&& r is Claim ==> r->Claim_planner == id && r->Claim_workspace@
                    == views[i].planner.workspace_id->0@
                &&& r is Type ==> r->Type_workspace@ == views[i].planner.workspace_id->0@
                &&& r is RecordDelivered ==> r->RecordDelivered_workspace@
                    == views[i].planner.workspace_id->0@
            },
        r is Type ==> seen.claimed is Some && seen.claimed->0 && seen.failed_before is Some
            && !seen.failed_before->0 && r->text@ == "answer to ask "@ + text::signed(ask.id as int)
            + ": "@ + (if ask.answer is Some {
            ask.answer->0@
        } else {
            ""@
        }),
        r is RecordDelivered ==> seen.typed is Some && seen.typed->0 is Ok && !seen.recorded,
        r is RecordFailed ==> seen.typed is Some && seen.typed->0 is Err && !seen.recorded,
        r !is Route && r !is StartPlanner && r !is Started && r !is Close,
{
    the_view_is_the_planners_own(views, id, 0);
    if let Some(i) = view_of(views, id, 0) {
        assert(views[i].planner.id == id);
    }
}

/// An answer for a planner that sits idle is claimed, typed and recorded, in
/// that order; one that failed before or that another claimed is left.
pub proof fn an_answer_is_claimed_typed_and_recorded(
    ask: PlannerAnswer,
    subject: Subject,
    views: Seq<PlannerView>,
    open: usize,
    limit: usize,
    seen: AnswerSeen,
    i: int,
    r: AnswerStep,
)
    requires
        delivers(ask, subject, views, open, limit, seen, r),
        0 <= i < views.len(),
        seen.route == Some(PlannerAnswerRoute::Planner { id: views[i].planner.id }),
        forall|j: int| 0 <= j < i ==> (#[trigger] views[j]).planner.id != views[i].planner.id,
        views[i].state == PlannerState::Idle,
        views[i].planner.workspace_id is Some,
        ask.asked_by@ != "planner"@ || (views[i].idle_since is Some && views[i].idle_since->0
            >= ask.created_at),
    ensures
        seen.failed_before is None <==> r is DeliveryFailed,
        r is Claim <==> seen.failed_before is Some && !seen.failed_before->0 && seen.claimed is None,
        r is Type <==> seen.failed_before is Some && !seen.failed_before->0 && seen.claimed is Some
            && seen.claimed->0 && seen.typed is None,
        r is RecordDelivered <==> seen.failed_before is Some && !seen.failed_before->0
            && seen.claimed is Some && seen.claimed->0 && seen.typed is Some && seen.typed->0 is Ok
            && !seen.recorded,
        r is RecordFailed <==> seen.failed_before is Some && !seen.failed_before->0
            && seen.claimed is Some && seen.claimed->0 && seen.typed is Some && seen.typed->0 is Err
            && !seen.recorded,
{
    the_view_is_the_planners_own(views, views[i].planner.id, 0);
    let k = view_of(views, views[i].planner.id, 0);
    assert(k is Some);
    assert(k->0 == i) by {
        if k->0 > i {
            assert(views[i].planner.id != views[i].planner.id);
        }
        if k->0 < i {
            assert(views[k->0].planner.id != views[i].planner.id);
        }
    }
}

/// An answer whose planner is gone starts a new one while there is room, and
/// counts as delivered once that one runs; one that is a person's to deal with
/// is left alone.
pub proof fn an_answer_starts_a_planner_while_there_is_room(
    ask: PlannerAnswer,
    subject: Subject,
    views: Seq<PlannerView>,
    open: usize,
    limit: usize,
    seen: AnswerSeen,
    r: AnswerStep,
)
    requires
        delivers(ask, subject, views, open, limit, seen, r),
    ensures
        seen.route is None <==> r is Route,
        r is StartPlanner <==> seen.route == Some(PlannerAnswerRoute::NewPlanner) && seen.started
            is None && open < limit,
        r is StartPlanner ==> r->answer == ask.id,
        seen.route == Some(PlannerAnswerRoute::NewPlanner) && seen.started is Some
            && seen.started->0 is Some ==> (if seen.recorded {
            r is Started
        } else {
            r is RecordDelivered && r->RecordDelivered_workspace == seen.started->0->0
        }),
        seen.route == Some(PlannerAnswerRoute::NewPlanner) && seen.started is Some
            && seen.started->0 is None ==> r is Next,
        r is Started ==> seen.route == Some(PlannerAnswerRoute::NewPlanner) && seen.recorded,
        r is Close <==> seen.route == Some(PlannerAnswerRoute::Close) && !seen.recorded,
        seen.route == Some(PlannerAnswerRoute::Person) ==> r is Next,
{
}

/// A delivery that failed is recorded with the ask, the workspace, the planner,
/// the finding where there is one, and the error.
pub proof fn a_failed_delivery_says_what_failed(
    ask: PlannerAnswer,
    subject: Subject,
    planner: i64,
    workspace: Seq<char>,
    error: Seq<char>,
)
    ensures
        ({
            let payload = failed_payload(ask, subject, planner, workspace, error);
            &&& payload is Object
            &&& payload->Object_0[0] == ("ask_id"@, json::Value::Int(ask.id as int))
            &&& payload->Object_0[1] == ("workspace_id"@, json::Value::Text(workspace))
            &&& payload->Object_0[2] == ("planner_id"@, json::Value::Int(planner as int))
            &&& payload->Object_0.last() == ("error"@, json::Value::Text(error))
            &&& subject matches Subject::Finding { id } ==> payload->Object_0.len() == 5
                && payload->Object_0[3] == ("finding_id"@, json::Value::Int(id as int))
            &&& subject is Draft ==> payload->Object_0.len() == 4
        }),
{
}

/// A delivery counts as failed before only where an event says so of this very
/// ask.
pub proof fn a_failure_is_of_the_same_ask(events: &Vec<RunEvent>, ask: i64, r: bool)
    requires
        call_ensures(delivery_failed, (events, ask), r),
    ensures
        r ==> exists|i: int|
            0 <= i < events@.len() && (#[trigger] events@[i]).kind@ == "ask_delivery_failed"@
                && json::at(events@[i].payload@, "ask_id"@) == json::Value::Int(ask as int),
        forall|i: int|
            0 <= i < events@.len() && (#[trigger] events@[i]).kind@ == "ask_delivery_failed"@
                && json::at(events@[i].payload@, "ask_id"@) == json::Value::Int(ask as int) ==> r,
{
    if r {
        let i = choose|i: int|
            0 <= i < events@.len() && (#[trigger] events@[i]).is_kind("ask_delivery_failed"@)
                && json::int_of(json::at(events@[i].payload@, "ask_id"@)) == Some(ask as int);
        assert(events@[i].kind@ == "ask_delivery_failed"@);
    }
    assert forall|i: int|
        0 <= i < events@.len() && (#[trigger] events@[i]).kind@ == "ask_delivery_failed"@
            && json::at(events@[i].payload@, "ask_id"@) == json::Value::Int(ask as int) implies r by {
        assert(events@[i].is_kind("ask_delivery_failed"@));
    }
}

/// A planner is recorded before it is started, gets its prompt and its
/// workspace, and a start that fails at the prompt closes the planner's record
/// before it fails; where none is to be started, nothing is.
pub proof fn a_planner_is_recorded_before_it_starts(
    answer: Option<i64>,
    seen: &StartSeen,
    r: StartStep,
)
    requires
        call_ensures(start_planner, (answer, seen), r),
    ensures
        r is Record <==> seen.start is None,
        r is Record ==> r->Record_answer == answer,
        r is Prompt ==> seen.start is Some && seen.start->0 is Opened && r->attempt
            == seen.start->0->attempt && r->Prompt_answer == answer && seen.prompt is None,
        r is Open ==> seen.start is Some && seen.start->0 is Opened && seen.prompt is Some
            && seen.prompt->0 is Ok && seen.opened is None,
        r is ClosePlanner <==> seen.start is Some && seen.start->0 is Opened && seen.prompt is Some
            && seen.prompt->0 is Err && !seen.closed,
        r is ClosePlanner ==> r->ClosePlanner_planner == seen.start->0->planner
            && r->ClosePlanner_error == seen.prompt->0->Err_0,
        r is Failed && seen.prompt is Some && seen.prompt->0 is Err ==> seen.closed,
        seen.start == Some(PlannerStart::Skipped) ==> r == StartStep::Started(None),
        seen.start is Some && seen.start->0 is Exhausted ==> r == StartStep::Started(None),
        (r matches StartStep::Started(Some(w)) && w@.len() > 0) ==> seen.opened is Some
            && seen.opened->0 is Ok && seen.opened->0->Ok_0 is Some && r->Started_0->0@
            == seen.opened->0->Ok_0->0@,
        (r matches StartStep::Started(Some(_))) ==> seen.start->0 is Opened,
{
    reveal_strlit("");
}

/// Planners are started in order, each where it waits and while there is room.
pub proof fn planners_start_while_there_is_room(
    waiting: usize,
    next: usize,
    open: usize,
    limit: usize,
    r: OpenStep,
)
    requires
        call_ensures(open_planners, (waiting, next, open, limit), r),
    ensures
        r is Done <==> next >= waiting || open >= limit,
        r matches OpenStep::Start { index } ==> index == next,
{
}

/// What a draft comes from is what its material names; only a follow-up comes
/// from a run.
pub proof fn a_draft_names_its_sources(origin: DraftOrigin, material: &Json, r: DraftSources)
    requires
        call_ensures(draft_sources, (origin, material), r),
    ensures
        r.source_task is Some ==> json::at(material@, "source_task_id"@) == json::Value::Int(
            r.source_task->0 as int,
        ),
        (json::at(material@, "source_task_id"@) matches json::Value::Int(n) && i64::MIN <= n
            <= i64::MAX) ==> r.source_task is Some,
        r.source_run is Some ==> origin == DraftOrigin::FollowUp && json::at(
            material@,
            "source_run_id"@,
        ) == json::Value::Text(r.source_run->0@),
        origin == DraftOrigin::FollowUp && json::at(material@, "source_run_id"@) is Text
            ==> r.source_run is Some,
{
}

/// The receipt that landed is the one of the latest event that holds one.
pub proof fn the_landed_receipt_is_the_latest(events: &Vec<RunEvent>, r: Option<Json>)
    requires
        call_ensures(landed_receipt, (events,), r),
    ensures
        r is Some ==> exists|i: int|
            {
                &&& 0 <= i < events@.len()
                &&& (#[trigger] events@[i]).is_kind("integration_receipt"@)
                &&& r->0@ == json::at(events@[i].payload@, "receipt"@)
                &&& forall|j: int|
                    i < j < events@.len() ==> !(#[trigger] events@[j]).is_kind(
                        "integration_receipt"@,
                    )
            },
        r is None ==> forall|i: int|
            0 <= i < events@.len() ==> !(#[trigger] events@[i]).is_kind("integration_receipt"@),
{
    crate::supervise::exit::the_latest_is_last(
        events@,
        "integration_receipt"@,
        events@.len() as int,
    );
}

/// The siblings of a draft are all the other tasks, in their order.
pub proof fn siblings_are_all_but_the_draft(tasks: Seq<i64>, draft: i64, n: int)
    requires
        0 <= n <= tasks.len() <= usize::MAX,
    ensures
        forall|k: int|
            0 <= k < siblings_of(tasks, draft, n).len() ==> (#[trigger] siblings_of(
                tasks,
                draft,
                n,
            )[k]) < n && tasks[siblings_of(tasks, draft, n)[k] as int] != draft,
        forall|i: int|
            0 <= i < n && #[trigger] tasks[i] != draft ==> siblings_of(tasks, draft, n).contains(
                i as usize,
            ),
        forall|j: int, k: int|
            0 <= j < k < siblings_of(tasks, draft, n).len() ==> siblings_of(tasks, draft, n)[j]
                < siblings_of(tasks, draft, n)[k],
    decreases n,
{
    if n > 0 {
        siblings_are_all_but_the_draft(tasks, draft, n - 1);
        let before = siblings_of(tasks, draft, n - 1);
        let after = siblings_of(tasks, draft, n);
        assert forall|i: int| 0 <= i < n && #[trigger] tasks[i] != draft implies after.contains(
            i as usize,
        ) by {
            if i < n - 1 {
                let k = choose|k: int| 0 <= k < before.len() && before[k] == i as usize;
                assert(after[k] == i as usize);
            } else {
                assert(after[before.len() as int] == i as usize);
            }
        }
        assert forall|j: int, k: int| 0 <= j < k < after.len() implies after[j] < after[k] by {
            assert(after[j] == before[j]);
            if k < before.len() {
                assert(after[k] == before[k]);
            }
        }
        assert forall|k: int| 0 <= k < after.len() implies (#[trigger] after[k]) < n
            && tasks[after[k] as int] != draft by {
            if k < before.len() {
                assert(after[k] == before[k]);
            }
        }
    }
}

} // verus!
