//! The follow-ups a landed receipt proposes, registered as draft tasks.

use crate::domain::{RunEvent, Task};
use crate::json;
use crate::json::{items_view, items_viewed, Fields, Json};
use crate::supervise::draft_planner::DraftOrigin;
use crate::text;
use vstd::prelude::*;
use vstd::string::*;

verus! {

/// The entries of a receipt's follow-ups, where it has a list of them.
pub open spec fn entries_of(follow_ups: Option<Json>) -> Seq<json::Value> {
    match follow_ups {
        Some(value) => match value@ {
            json::Value::List(items) => items,
            _ => Seq::empty(),
        },
        None => Seq::empty(),
    }
}

/// The indices of the follow-ups the run's events record, in order.
pub open spec fn recorded_indices(events: Seq<RunEvent>) -> Seq<int>
    decreases events.len(),
{
    if events.len() == 0 {
        Seq::empty()
    } else {
        let before = recorded_indices(events.drop_last());
        match json::nat_of(json::at(events.last().payload@, "index"@)) {
            Some(index) => if events.last().is_kind("follow_up_registered"@) {
                before.push(index)
            } else {
                before
            },
            None => before,
        }
    }
}

/// The numbers as integers.
pub open spec fn ints(list: Seq<u64>) -> Seq<int> {
    list.map_values(|n: u64| n as int)
}

/// The indices of the follow-ups the run's events record.
pub fn registered_indices(events: &Vec<RunEvent>) -> (r: Vec<u64>)
    ensures
        ints(r@) == recorded_indices(events@),
{
    let mut out: Vec<u64> = Vec::new();
    let mut i: usize = 0;
    assert(ints(out@) =~= recorded_indices(events@.take(0)));
    while i < events.len()
        invariant
            i <= events@.len(),
            ints(out@) == recorded_indices(events@.take(i as int)),
        decreases events@.len() - i,
    {
        proof {
            assert(events@.take(i + 1).drop_last() =~= events@.take(i as int));
        }
        if events[i].of_kind("follow_up_registered") {
            if let Some(index) = events[i].payload.natural("index") {
                let ghost had = ints(out@);
                out.push(index);
                assert(ints(out@) =~= had.push(index as int));
            }
        }
        i += 1;
    }
    assert(events@.take(events@.len() as int) =~= events@);
    out
}

/// A draft task to register: no acceptance, verification commands, paths or
/// dependencies.
pub struct NewTask {
    pub title: String,
    pub description: String,
    pub goal_id: Option<i64>,
    pub context: String,
}

/// What is done about one entry.
pub enum FollowUp {
    /// It is not registered; its event says why and holds the entry.
    Skip { index: usize, payload: Json },
    Add { index: usize, task: NewTask },
}

/// The trimmed title of an entry; empty where it has no text as its title.
pub open spec fn title_of(entry: json::Value) -> Seq<char> {
    match json::text_of(json::at(entry, "title"@)) {
        Some(title) => text::trimmed(title),
        None => Seq::empty(),
    }
}

/// Why an entry is not registered.
pub open spec fn skipped(entry: json::Value) -> Option<Seq<char>> {
    if title_of(entry).len() == 0 {
        Some("title is not a non-blank string"@)
    } else if json::text_of(json::at(entry, "description"@)) is None {
        Some("description is not a string"@)
    } else {
        None
    }
}

/// The goal a follow-up is registered in: the task's, unless it is closed.
pub open spec fn goal_of(task: Task, goal_closed: bool) -> Option<i64> {
    if goal_closed {
        None
    } else {
        task.goal_id
    }
}

/// What is done about the entry at `index`.
pub open spec fn plans(
    task: Task,
    run_id: Seq<char>,
    goal_closed: bool,
    entry: json::Value,
    index: int,
    f: FollowUp,
) -> bool {
    match skipped(entry) {
        Some(reason) => f matches FollowUp::Skip { index: at, payload } && at == index && payload@
            == json::Value::Object(
            json::none().push(("task_id"@, json::Value::Null)).push(
                ("title"@, json::at(entry, "title"@)),
            ).push(("index"@, json::Value::Int(index))).push(
                ("skipped"@, json::Value::Text(reason)),
            ).push(("follow_up"@, entry)),
        ),
        None => f matches FollowUp::Add { index: at, task: new } && {
            &&& at == index
            &&& new.title@ == title_of(entry)
            &&& new.description@ == json::text_of(json::at(entry, "description"@))->0
            &&& new.goal_id == goal_of(task, goal_closed)
            &&& new.context@ == "task "@ + text::signed(task.id as int) + "（"@ + task.title@
                + "）の run "@ + run_id + " の receipt が提案した follow_up"@
        },
    }
}

/// The entries below `n` that are not recorded yet.
pub open spec fn open_entries(registered: Seq<int>, n: int) -> Seq<int>
    decreases n,
{
    if n <= 0 {
        Seq::empty()
    } else if registered.contains(n - 1) {
        open_entries(registered, n - 1)
    } else {
        open_entries(registered, n - 1).push(n - 1)
    }
}

/// Whether the list holds the number.
fn holds(list: &Vec<u64>, n: u64) -> (r: bool)
    ensures
        r == ints(list@).contains(n as int),
{
    let mut i: usize = 0;
    while i < list.len()
        invariant
            i <= list@.len(),
            forall|j: int| 0 <= j < i ==> list@[j] != n,
        decreases list@.len() - i,
    {
        if list[i] == n {
            assert(ints(list@)[i as int] == n as int);
            return true;
        }
        i += 1;
    }
    false
}

/// The value of a key, null where there is none.
fn value_at(entry: &Json, key: &str) -> (r: Json)
    ensures
        r@ == json::at(entry@, key@),
{
    match entry.get(key) {
        Some(value) => value.copy(),
        None => Json::Null,
    }
}

/// What is done about one entry.
fn plan_entry(
    task: &Task,
    run_id: &str,
    goal_closed: bool,
    entry: &Json,
    index: usize,
) -> (r: FollowUp)
    ensures
        plans(*task, run_id@, goal_closed, entry@, index as int, r),
{
    let title = match entry.text("title") {
        Some(title) => text::trim(title.as_str()),
        None => String::new(),
    };
    let description = entry.text("description");
    let reason: Option<&str> = if title.as_str().is_empty() {
        Some("title is not a non-blank string")
    } else if description.is_none() {
        Some("description is not a string")
    } else {
        None
    };
    if let Some(reason) = reason {
        let payload = Fields::new().with("task_id", Json::Null).with(
            "title",
            value_at(entry, "title"),
        ).number("index", index as i128).text("skipped", reason).with(
            "follow_up",
            entry.copy(),
        ).done();
        return FollowUp::Skip { index, payload };
    }
    let description = match description {
        Some(description) => description,
        None => String::new(),
    };
    let goal_id = if goal_closed {
        None
    } else {
        task.goal_id
    };
    let id = text::integer(task.id);
    let context = "task ".to_owned().concat(id.as_str()).concat("（").concat(
        task.title.as_str(),
    ).concat("）の run ").concat(run_id).concat(" の receipt が提案した follow_up");
    FollowUp::Add { index, task: NewTask { title, description, goal_id, context } }
}

/// Whether these are what is done about the entries that are not recorded yet.
pub open spec fn plans_all(
    task: Task,
    run_id: Seq<char>,
    follow_ups: Option<Json>,
    registered: Seq<int>,
    goal_closed: bool,
    planned: Seq<FollowUp>,
) -> bool {
    let entries = entries_of(follow_ups);
    let todo = open_entries(registered, entries.len() as int);
    &&& planned.len() == todo.len()
    &&& forall|k: int|
        0 <= k < todo.len() ==> plans(
            task,
            run_id,
            goal_closed,
            entries[todo[k]],
            todo[k],
            #[trigger] planned[k],
        )
}

/// What is done about the entries that are not recorded yet.
fn plan_entries(
    task: &Task,
    run_id: &str,
    follow_ups: &Option<Json>,
    registered: &Vec<u64>,
    goal_closed: bool,
) -> (r: Vec<FollowUp>)
    ensures
        plans_all(*task, run_id@, *follow_ups, ints(registered@), goal_closed, r@),
{
    let mut out: Vec<FollowUp> = Vec::new();
    let ghost entries = entries_of(*follow_ups);
    match follow_ups {
        Some(Json::List(items)) => {
            proof {
                items_viewed(items@);
            }
            let mut i: usize = 0;
            while i < items.len()
                invariant
                    i <= items@.len(),
                    entries == items_view(items@),
                    entries.len() == items@.len(),
                    forall|j: int|
                        0 <= j < items@.len() ==> #[trigger] entries[j] == items@[j].view(),
                    out@.len() == open_entries(ints(registered@), i as int).len(),
                    forall|k: int|
                        0 <= k < out@.len() ==> plans(
                            *task,
                            run_id@,
                            goal_closed,
                            entries[open_entries(ints(registered@), i as int)[k]],
                            open_entries(ints(registered@), i as int)[k],
                            #[trigger] out@[k],
                        ),
                decreases items@.len() - i,
            {
                if !holds(registered, i as u64) {
                    let ghost before = open_entries(ints(registered@), i as int);
                    let ghost after = open_entries(ints(registered@), i + 1);
                    assert(after =~= before.push(i as int));
                    let planned = plan_entry(task, run_id, goal_closed, &items[i], i);
                    out.push(planned);
                }
                i += 1;
            }
        },
        _ => {},
    }
    out
}

/// What registering follow-ups looks at next, or what it comes to.
pub enum RegisterStep {
    ReadEvents,
    /// Whether the goal is closed.
    ReadGoal { goal: i64 },
    /// How many follow-ups the task is from a person's judgement.
    ReadDepth,
    /// Nothing is registered: there is no list, or what it takes could not be
    /// read.
    Nothing,
    /// Register each of these in turn, as drafts of this depth.
    Register { planned: Vec<FollowUp>, goal_closed: bool, depth: u32 },
}

/// The depth of the drafts of a task: one further from a person's judgement
/// than the task; a depth that cannot be read counts as the deepest that
/// still asks.
pub open spec fn depth_of(task_depth: Result<u32, String>, ask_depth: u32) -> int {
    match task_depth {
        Ok(depth) => depth + 1,
        Err(_) => ask_depth as int,
    }
}

/// What registering follow-ups comes to.
pub open spec fn registers(
    task: Task,
    run_id: Seq<char>,
    follow_ups: Option<Json>,
    events: Option<Result<Vec<RunEvent>, String>>,
    closed: Option<Result<bool, String>>,
    task_depth: Option<Result<u32, String>>,
    ask_depth: u32,
    r: RegisterStep,
) -> bool {
    if !(follow_ups matches Some(Json::List(_))) {
        r is Nothing
    } else if events is None {
        r is ReadEvents
    } else if events->0 is Err {
        r is Nothing
    } else if task.goal_id is Some && closed is None {
        r == (RegisterStep::ReadGoal { goal: task.goal_id->0 })
    } else if task.goal_id is Some && closed->0 is Err {
        r is Nothing
    } else if task_depth is None {
        r is ReadDepth
    } else {
        r matches RegisterStep::Register { planned, goal_closed, depth } && goal_closed == (
        task.goal_id is Some && closed->0->Ok_0) && depth == depth_of(task_depth->0, ask_depth)
            && plans_all(
            task,
            run_id,
            follow_ups,
            recorded_indices(events->0->Ok_0@),
            goal_closed,
            planned@,
        )
    }
}

/// What is done about the landed receipt's `follow_ups` of `task`'s run: each
/// entry not recorded yet is registered as a draft task of the task's goal,
/// with its title and description as proposed and a context naming where it
/// came from, or skipped with the reason. A closed goal takes no task, so the
/// follow-up is registered without a goal. `events` are the run's, `closed` is
/// whether the goal is; where either cannot be read, nothing is registered.
/// `task_depth` is how many follow-ups the task is from a person's judgement;
/// one that cannot be read counts as the deepest that still asks, `ask_depth`.
pub fn register_follow_ups(
    task: &Task,
    run_id: &str,
    follow_ups: &Option<Json>,
    events: &Option<Result<Vec<RunEvent>, String>>,
    closed: &Option<Result<bool, String>>,
    task_depth: &Option<Result<u32, String>>,
    ask_depth: u32,
) -> (r: RegisterStep)
    requires
        *task_depth matches Some(Ok(depth)) ==> depth < u32::MAX,
    ensures
        registers(
            *task,
            run_id@,
            *follow_ups,
            *events,
            *closed,
            *task_depth,
            ask_depth,
            r,
        ),
{
    match follow_ups {
        Some(Json::List(_)) => {},
        _ => return RegisterStep::Nothing,
    }
    let events = match events {
        None => return RegisterStep::ReadEvents,
        Some(Err(_)) => return RegisterStep::Nothing,
        Some(Ok(events)) => events,
    };
    let goal_closed = match task.goal_id {
        None => false,
        Some(goal) => match closed {
            None => return RegisterStep::ReadGoal { goal },
            Some(Err(_)) => return RegisterStep::Nothing,
            Some(Ok(closed)) => *closed,
        },
    };
    let depth: u32 = match task_depth {
        None => return RegisterStep::ReadDepth,
        Some(Ok(depth)) => *depth + 1,
        Some(Err(_)) => ask_depth,
    };
    let registered = registered_indices(events);
    let planned = plan_entries(task, run_id, follow_ups, &registered, goal_closed);
    RegisterStep::Register { planned, goal_closed, depth }
}

/// The entries that are left are those below `n` that are not recorded, each
/// once and in order.
pub proof fn open_entries_are_the_unrecorded(registered: Seq<int>, n: int)
    requires
        n >= 0,
    ensures
        forall|i: int| #[trigger]
            open_entries(registered, n).contains(i) <==> 0 <= i < n && !registered.contains(i),
        forall|j: int, k: int|
            0 <= j < k < open_entries(registered, n).len() ==> open_entries(registered, n)[j]
                < open_entries(registered, n)[k],
    decreases n,
{
    if n > 0 {
        open_entries_are_the_unrecorded(registered, n - 1);
        let before = open_entries(registered, n - 1);
        let after = open_entries(registered, n);
        if !registered.contains(n - 1) {
            assert(after[after.len() - 1] == n - 1);
            assert forall|i: int| #[trigger] after.contains(i) <==> 0 <= i < n
                && !registered.contains(i) by {
                assert(before.contains(i) <==> 0 <= i < n - 1 && !registered.contains(i));
                if 0 <= i < n - 1 && !registered.contains(i) {
                    let k = choose|k: int| 0 <= k < before.len() && before[k] == i;
                    assert(after[k] == i);
                }
                if after.contains(i) {
                    let k = choose|k: int| 0 <= k < after.len() && after[k] == i;
                    if k < before.len() {
                        assert(before[k] == i);
                        assert(before.contains(i));
                    }
                }
            }
            assert forall|j: int, k: int| 0 <= j < k < after.len() implies after[j] < after[k] by {
                if k == after.len() - 1 {
                    assert(before.contains(before[j]));
                    assert(after[j] == before[j]);
                } else {
                    assert(before[j] < before[k]);
                }
            }
        }
    }
}

/// A second registration for the same run, once every entry of the first is
/// recorded, has nothing left to do.
pub proof fn registering_twice_adds_nothing(registered: Seq<int>, later: Seq<int>, n: int)
    requires
        n >= 0,
        forall|i: int| registered.contains(i) ==> later.contains(i),
        forall|k: int|
            0 <= k < open_entries(registered, n).len() ==> later.contains(
                #[trigger] open_entries(registered, n)[k],
            ),
    ensures
        open_entries(later, n).len() == 0,
{
    open_entries_are_the_unrecorded(registered, n);
    open_entries_are_the_unrecorded(later, n);
    if open_entries(later, n).len() > 0 {
        let i = open_entries(later, n)[0];
        assert(open_entries(later, n).contains(i));
        assert(!registered.contains(i)) by {
            if registered.contains(i) {
                assert(later.contains(i));
            }
        }
        assert(open_entries(registered, n).contains(i));
        let k = choose|k: int|
            0 <= k < open_entries(registered, n).len() && open_entries(registered, n)[k] == i;
        assert(later.contains(open_entries(registered, n)[k]));
    }
}

/// Where a draft came from, for the planner that is opened for it.
pub open spec fn origin_material(task_id: i64, run_id: Seq<char>, index: int) -> json::Value {
    json::Value::Object(
        json::none().push(("source_task_id"@, json::Value::Int(task_id as int))).push(
            ("source_run_id"@, json::Value::Text(run_id)),
        ).push(("index"@, json::Value::Int(index))),
    )
}

/// What is recorded of a follow-up that was registered.
pub open spec fn registered_payload(
    created: RegisteredFollowUp,
    index: int,
    goal_closed: bool,
) -> json::Value {
    let base = json::none().push(("task_id"@, json::Value::Int(created.task_id as int))).push(
        ("title"@, json::Value::Text(created.title@)),
    ).push(("index"@, json::Value::Int(index)));
    json::Value::Object(
        if goal_closed {
            base.push(("goal_closed"@, json::Value::Bool(true)))
        } else {
            base
        },
    )
}

/// A follow-up as the task that was added for it.
pub struct RegisteredFollowUp {
    pub task_id: i64,
    pub title: String,
}

/// What has been done about one entry. What came of a record does not matter:
/// it was tried.
#[derive(Default)]
pub struct EntrySeen {
    /// The task that was added, or why none was.
    pub added: Option<Result<RegisteredFollowUp, String>>,
    pub depth_set: bool,
    pub origin_set: bool,
    pub recorded: bool,
}

/// What registering one entry does next, or what it came to.
pub enum EntryStep {
    /// Add the entry's task as a draft.
    Add,
    SetDepth { task: i64, depth: u32 },
    SetOrigin { task: i64, origin: DraftOrigin, material: Json },
    Record { kind: &'static str, payload: Json },
    /// The entry is done; the task it was registered as, if it was.
    Next { registered: Option<RegisteredFollowUp> },
}

/// What registering one entry comes to.
pub open spec fn registers_entry(
    task_id: i64,
    run_id: Seq<char>,
    entry: FollowUp,
    goal_closed: bool,
    depth: u32,
    seen: EntrySeen,
    r: EntryStep,
) -> bool {
    match entry {
        FollowUp::Skip { payload, .. } => if !seen.recorded {
            r matches EntryStep::Record { kind, payload: p } && kind@ == "follow_up_registered"@
                && p@ == payload@
        } else {
            r == (EntryStep::Next { registered: None })
        },
        FollowUp::Add { index, .. } => match seen.added {
            None => r is Add,
            Some(Err(_)) => r == (EntryStep::Next { registered: None }),
            Some(Ok(created)) => if !seen.depth_set {
                r == (EntryStep::SetDepth { task: created.task_id, depth })
            } else if !seen.origin_set {
                r matches EntryStep::SetOrigin { task, origin, material } && task == created.task_id
                    && origin == DraftOrigin::FollowUp && material@ == origin_material(
                    task_id,
                    run_id,
                    index as int,
                )
            } else if !seen.recorded {
                r matches EntryStep::Record { kind, payload } && kind@ == "follow_up_registered"@
                    && payload@ == registered_payload(created, index as int, goal_closed)
            } else {
                r == (EntryStep::Next { registered: Some(created) })
            },
        },
    }
}

/// Register one entry of a landed receipt's follow-ups: its task is added as a
/// draft, gets its depth and its origin, and is recorded, in this order. A task
/// that cannot be added is only reported and nothing is recorded of it, so a
/// later registration tries it again; a depth, an origin or a record that fails
/// is only reported too. An entry that is skipped is recorded alone.
pub fn register_entry(
    task_id: i64,
    run_id: &str,
    entry: &FollowUp,
    goal_closed: bool,
    depth: u32,
    seen: &EntrySeen,
) -> (r: EntryStep)
    ensures
        registers_entry(task_id, run_id@, *entry, goal_closed, depth, *seen, r),
{
    let index: usize = match entry {
        FollowUp::Skip { payload, .. } => {
            return if !seen.recorded {
                EntryStep::Record { kind: "follow_up_registered", payload: payload.copy() }
            } else {
                EntryStep::Next { registered: None }
            };
        },
        FollowUp::Add { index, .. } => *index,
    };
    let created = match &seen.added {
        None => return EntryStep::Add,
        Some(Err(_)) => return EntryStep::Next { registered: None },
        Some(Ok(created)) => created,
    };
    if !seen.depth_set {
        return EntryStep::SetDepth { task: created.task_id, depth };
    }
    if !seen.origin_set {
        let material = Fields::new().number("source_task_id", task_id as i128).text(
            "source_run_id",
            run_id,
        ).number("index", index as i128).done();
        return EntryStep::SetOrigin {
            task: created.task_id,
            origin: DraftOrigin::FollowUp,
            material,
        };
    }
    if !seen.recorded {
        let fields = Fields::new().number("task_id", created.task_id as i128).text(
            "title",
            created.title.as_str(),
        ).number("index", index as i128);
        let payload = if goal_closed {
            fields.flag("goal_closed", true).done()
        } else {
            fields.done()
        };
        return EntryStep::Record { kind: "follow_up_registered", payload };
    }
    EntryStep::Next {
        registered: Some(
            RegisteredFollowUp { task_id: created.task_id, title: created.title.clone() },
        ),
    }
}

/// Nothing is recorded of a follow-up whose task could not be added, and of one
/// that was added the event comes last.
pub proof fn a_failed_follow_up_is_not_recorded(
    task_id: i64,
    run_id: Seq<char>,
    entry: FollowUp,
    goal_closed: bool,
    depth: u32,
    seen: EntrySeen,
    r: EntryStep,
)
    requires
        registers_entry(task_id, run_id, entry, goal_closed, depth, seen, r),
        entry is Add,
    ensures
        seen.added matches Some(Err(_)) ==> r == (EntryStep::Next { registered: None }),
        r is Record ==> (seen.added matches Some(Ok(_))) && seen.depth_set && seen.origin_set,
{
}

/// An entry that proposes a title and a description becomes a task with them,
/// under the goal of the run's task while that is open; any other is kept as
/// skipped, with the entry itself.
pub proof fn a_proposal_becomes_a_task(
    task: Task,
    run_id: Seq<char>,
    goal_closed: bool,
    entry: json::Value,
    index: int,
    f: FollowUp,
)
    requires
        plans(task, run_id, goal_closed, entry, index, f),
    ensures
        f is Add <==> (json::at(entry, "title"@) matches json::Value::Text(title)
            && !text::is_blank(title)) && json::at(entry, "description"@) is Text,
        f matches FollowUp::Add { index: at, task: new } ==> {
            &&& at == index
            &&& json::at(entry, "title"@) matches json::Value::Text(title) && new.title@
                == text::trimmed(title)
            &&& json::at(entry, "description"@) == json::Value::Text(new.description@)
            &&& new.goal_id == (if goal_closed {
                None
            } else {
                task.goal_id
            })
        },
        f matches FollowUp::Skip { index: at, payload } ==> at == index && payload@ is Object
            && payload@->Object_0[2] == ("index"@, json::Value::Int(index))
            && payload@->Object_0[4] == ("follow_up"@, entry),
{
    if let json::Value::Text(title) = json::at(entry, "title"@) {
        text::blank_is_all_space(title);
    }
}

/// Every entry that was not registered yet is planned, once and in order, and
/// no other.
pub proof fn every_open_entry_is_planned(
    task: Task,
    run_id: Seq<char>,
    follow_ups: Option<Json>,
    registered: Seq<int>,
    goal_closed: bool,
    planned: Seq<FollowUp>,
    entry: int,
)
    requires
        plans_all(task, run_id, follow_ups, registered, goal_closed, planned),
        0 <= entry < entries_of(follow_ups).len(),
    ensures
        !registered.contains(entry) <==> exists|k: int|
            0 <= k < planned.len() && (match #[trigger] planned[k] {
                FollowUp::Skip { index, .. } => index == entry,
                FollowUp::Add { index, .. } => index == entry,
            }),
{
    let entries = entries_of(follow_ups);
    let todo = open_entries(registered, entries.len() as int);
    open_entries_are_the_unrecorded(registered, entries.len() as int);
    assert forall|k: int| 0 <= k < todo.len() implies (match #[trigger] planned[k] {
        FollowUp::Skip { index, .. } => index == todo[k],
        FollowUp::Add { index, .. } => index == todo[k],
    }) by {
        assert(plans(task, run_id, goal_closed, entries[todo[k]], todo[k], planned[k]));
    }
    if !registered.contains(entry) {
        assert(todo.contains(entry));
        let k = choose|k: int| 0 <= k < todo.len() && todo[k] == entry;
        assert(match planned[k] {
            FollowUp::Skip { index, .. } => index == entry,
            FollowUp::Add { index, .. } => index == entry,
        });
    } else {
        assert forall|k: int| 0 <= k < planned.len() implies !(match #[trigger] planned[k] {
            FollowUp::Skip { index, .. } => index == entry,
            FollowUp::Add { index, .. } => index == entry,
        }) by {
            assert(todo.contains(todo[k]));
        }
    }
}

/// An event records an index where it is of the right kind and holds one.
pub proof fn a_registered_index_is_recorded(events: Seq<RunEvent>, event: RunEvent, index: int)
    requires
        index >= 0,
        json::at(event.payload@, "index"@) == json::Value::Int(index),
        index <= u64::MAX,
    ensures
        event.is_kind("follow_up_registered"@) ==> recorded_indices(events.push(event))
            == recorded_indices(events).push(index),
        !event.is_kind("follow_up_registered"@) ==> recorded_indices(events.push(event))
            == recorded_indices(events),
{
    assert(events.push(event).drop_last() =~= events);
}

/// Follow-ups are registered only where the receipt proposes a list of them
/// and all that is needed was read; they are one level deeper than the run's
/// task.
pub proof fn follow_ups_are_registered_once_read(
    task: Task,
    run_id: Seq<char>,
    follow_ups: Option<Json>,
    events: Option<Result<Vec<RunEvent>, String>>,
    closed: Option<Result<bool, String>>,
    task_depth: Option<Result<u32, String>>,
    ask_depth: u32,
    r: RegisterStep,
)
    requires
        registers(task, run_id, follow_ups, events, closed, task_depth, ask_depth, r),
    ensures
        r is ReadEvents <==> (follow_ups matches Some(Json::List(_))) && events is None,
        r matches RegisterStep::ReadGoal { goal } ==> task.goal_id == Some(goal) && closed is None,
        r is Register <==> (follow_ups matches Some(Json::List(_))) && (events matches Some(Ok(_)))
            && (task.goal_id is Some ==> (closed matches Some(Ok(_)))) && task_depth is Some,
        r matches RegisterStep::Register { goal_closed, depth, .. } ==> {
            &&& task_depth matches Some(Ok(of)) ==> depth == of + 1
            &&& task_depth matches Some(Err(_)) ==> depth == ask_depth
            &&& goal_closed ==> task.goal_id is Some && (closed matches Some(Ok(is)) && is)
            &&& task.goal_id is Some && (closed matches Some(Ok(is)) && is) ==> goal_closed
        },
{
}

/// A proposed task is added, given its depth and its origin and recorded, in
/// that order; what was skipped is only recorded; and what is handed on as
/// registered is the task that was added.
pub proof fn a_follow_up_is_added_then_recorded(
    task_id: i64,
    run_id: Seq<char>,
    entry: FollowUp,
    goal_closed: bool,
    depth: u32,
    seen: EntrySeen,
    r: EntryStep,
)
    requires
        registers_entry(task_id, run_id, entry, goal_closed, depth, seen, r),
    ensures
        r is Add <==> entry is Add && seen.added is None,
        r matches EntryStep::SetDepth { task, depth: d } ==> d == depth && (seen.added matches Some(
            Ok(created),
        ) && task == created.task_id) && !seen.depth_set,
        r matches EntryStep::SetOrigin { task, origin, .. } ==> origin == DraftOrigin::FollowUp && (
        seen.added matches Some(Ok(created)) && task == created.task_id) && seen.depth_set
            && !seen.origin_set,
        r matches EntryStep::Record { kind, .. } ==> kind@ == "follow_up_registered"@
            && !seen.recorded,
        r matches EntryStep::Next { registered } ==> (match (entry, seen.added) {
            (FollowUp::Add { .. }, Some(Ok(created))) => registered == Some(created)
                && seen.recorded,
            _ => registered is None,
        }),
        entry is Skip && seen.recorded ==> r is Next,
        entry is Skip && !seen.recorded ==> r is Record,
        entry is Add && (seen.added matches Some(Ok(_))) && seen.depth_set && seen.origin_set
            && !seen.recorded ==> (r matches EntryStep::Record { payload, .. } && payload@ is Object
            && payload@->Object_0[0] == (
            "task_id"@,
            json::Value::Int(seen.added->0->Ok_0.task_id as int),
        ) && payload@->Object_0[2] == ("index"@, json::Value::Int(entry->Add_index as int))),
{
}

} // verus!
