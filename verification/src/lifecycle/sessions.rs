//! The sessions `up` keeps a workspace open for, and what every workspace of a
//! queue carries.

use crate::text;
use vstd::prelude::*;
use vstd::string::*;

verus! {

/// The variable that names a session's role.
pub const ROLE_ENV: &'static str = "DAGQ_ROLE";

/// The variable that names a session's queue.
pub const QUEUE_ENV: &'static str = "DAGQ_QUEUE";

/// The variable that names the kind of a session's measured span.
pub const SESSION_KIND_ENV: &'static str = "DAGQ_SESSION_KIND";

/// The variable that names a planner.
pub const PLANNER_ID_ENV: &'static str = "DAGQ_PLANNER_ID";

/// The variable that says who opened a planner.
pub const PLANNER_ORIGIN_ENV: &'static str = "DAGQ_PLANNER_ORIGIN";

/// The role a session plays for its queue.
#[derive(Debug, Clone, Copy, PartialEq, Eq, Structural)]
pub enum SessionRole {
    Worker,
    Planner,
    Inbox,
    Observer,
    Supervisor,
}

impl SessionRole {
    /// Its name in `DAGQ_ROLE`.
    pub open spec fn name(self) -> Seq<char> {
        match self {
            SessionRole::Worker => "worker"@,
            SessionRole::Planner => "planner"@,
            SessionRole::Inbox => "inbox"@,
            SessionRole::Observer => "observer"@,
            SessionRole::Supervisor => "supervisor"@,
        }
    }

    /// Its name in `DAGQ_ROLE`.
    pub fn as_str(self) -> (r: &'static str)
        ensures
            r@ == self.name(),
    {
        match self {
            SessionRole::Worker => "worker",
            SessionRole::Planner => "planner",
            SessionRole::Inbox => "inbox",
            SessionRole::Observer => "observer",
            SessionRole::Supervisor => "supervisor",
        }
    }
}

/// How the sidebar tells the inbox and the planners apart at a glance: the
/// workspace's color and the symbol of its role pill. Amber for the inbox,
/// where things wait for a person, Blue for a planner. Other roles keep the
/// defaults.
pub fn session_look(role: SessionRole) -> (r: Option<(&'static str, &'static str)>)
    ensures
        match role {
            SessionRole::Inbox => r matches Some((color, icon)) && color@ == "Amber"@ && icon@
                == "tray"@,
            SessionRole::Planner => r matches Some((color, icon)) && color@ == "Blue"@ && icon@
                == "map"@,
            _ => r is None,
        },
{
    match role {
        SessionRole::Inbox => Some(("Amber", "tray")),
        SessionRole::Planner => Some(("Blue", "map")),
        _ => None,
    }
}

/// The view of a list of variables with their values.
pub open spec fn variables(list: Seq<(String, String)>) -> Seq<(Seq<char>, Seq<char>)> {
    list.map_values(|p: (String, String)| (p.0@, p.1@))
}

/// Add a variable.
pub fn set_variable(list: &mut Vec<(String, String)>, name: &str, value: &str)
    ensures
        variables(final(list)@) == variables(old(list)@).push((name@, value@)),
{
    let ghost had = list@;
    list.push((name.to_owned(), value.to_owned()));
    assert(variables(list@) =~= variables(had).push((name@, value@)));
}

/// The same variables with the same values.
pub fn copy_variables(list: &Vec<(String, String)>) -> (r: Vec<(String, String)>)
    ensures
        variables(r@) == variables(list@),
{
    let mut out: Vec<(String, String)> = Vec::new();
    let mut i: usize = 0;
    assert(variables(out@) =~= variables(list@.take(0)));
    while i < list.len()
        invariant
            i <= list@.len(),
            variables(out@) == variables(list@.take(i as int)),
        decreases list@.len() - i,
    {
        let (name, value) = &list[i];
        set_variable(&mut out, name.as_str(), value.as_str());
        assert(variables(list@.take(i + 1)) =~= variables(list@.take(i as int)).push(
            (name@, value@),
        ));
        i += 1;
    }
    assert(list@.take(i as int) =~= list@);
    out
}

/// The environment every workspace of a queue is opened with.
pub open spec fn env_of(role: SessionRole, db: Seq<char>) -> Seq<(Seq<char>, Seq<char>)> {
    seq![(ROLE_ENV@, role.name()), (QUEUE_ENV@, db)]
}

/// `DAGQ_ROLE=<role>` and `DAGQ_QUEUE=<db>`: the environment every workspace
/// of the queue at `db` is opened with.
pub fn session_env(role: SessionRole, db: &str) -> (r: Vec<(String, String)>)
    ensures
        variables(r@) == env_of(role, db@),
{
    let mut out: Vec<(String, String)> = Vec::new();
    assert(variables(out@) =~= Seq::empty());
    set_variable(&mut out, ROLE_ENV, role.as_str());
    set_variable(&mut out, QUEUE_ENV, db);
    assert(variables(out@) =~= env_of(role, db@));
    out
}

/// The environment of a workspace that belongs to no run: the inbox's and a
/// planner's also carry the kind of their session span.
pub open spec fn tag_env(role: SessionRole, db: Seq<char>) -> Seq<(Seq<char>, Seq<char>)> {
    match role {
        SessionRole::Inbox => env_of(role, db).push((SESSION_KIND_ENV@, "inbox"@)),
        SessionRole::Planner => env_of(role, db).push((SESSION_KIND_ENV@, "planner"@)),
        _ => env_of(role, db),
    }
}

/// What a workspace carries: its environment, its description line and the
/// group it is opened in.
pub struct WorkspaceTags {
    pub env: Vec<(String, String)>,
    pub description: Option<String>,
    pub group: Option<String>,
}

/// What every workspace `up` opens for a queue carries. The group is made when
/// the first workspace needs it, so an `up` that reuses everything touches no
/// group. A group that cannot be made is a warning, and the workspace opens
/// outside it.
pub struct QueueWorkspaces {
    pub db: String,
    pub hash: String,
    pub group_name: String,
    /// The group once it was asked for; `Some(None)` when it cannot be made.
    pub group: Option<Option<String>>,
    pub warnings: Vec<String>,
}

impl QueueWorkspaces {
    /// The workspaces of the queue at `db`, with nothing asked of the group
    /// yet.
    pub fn new(db: String, hash: String, group_name: String) -> (r: Self)
        ensures
            r.db == db,
            r.hash == hash,
            r.group_name == group_name,
            r.group is None,
            r.warnings@.len() == 0,
    {
        QueueWorkspaces { db, hash, group_name, group: None, warnings: Vec::new() }
    }

    /// What it holds of the group and of what was refused.
    pub open spec fn holds(self) -> GroupState {
        GroupState { group: self.group, warnings: text::views(self.warnings@) }
    }

    /// The queue's group, made once: `made` is what making it gave, and is
    /// asked for only where the group was not settled before.
    pub fn group(&mut self, made: Option<Result<String, String>>) -> (r: GroupStep)
        ensures
            final(self).db == old(self).db,
            final(self).hash == old(self).hash,
            final(self).group_name == old(self).group_name,
            match old(self).group {
                Some(group) => r == GroupStep::Known(group) && final(self).holds() == old(
                    self,
                ).holds(),
                None => match made {
                    None => r == (GroupStep::Make {
                        external_id: old(self).hash,
                        name: old(self).group_name,
                    }) && final(self).holds() == old(self).holds(),
                    Some(made) => r == GroupStep::Known(final(self).group->0)
                        && final(self).holds() == used(
                        old(self).group_name@,
                        old(self).hash@,
                        old(self).holds(),
                        Use::Group(made),
                    ),
                },
            },
    {
        if let Some(group) = &self.group {
            return GroupStep::Known(crate::domain::same_text(group));
        }
        match made {
            None => GroupStep::Make {
                external_id: self.hash.clone(),
                name: self.group_name.clone(),
            },
            Some(Ok(group)) => {
                self.group = Some(Some(group.clone()));
                GroupStep::Known(Some(group))
            },
            Some(Err(error)) => {
                let quoted = text::debug_text(self.group_name.as_str());
                let warning = "cmux workspace group ".to_owned().concat(quoted.as_str()).concat(
                    " (external ID ",
                ).concat(self.hash.as_str()).concat(
                    ") could not be made, so the workspace opens outside it: ",
                ).concat(error.as_str());
                let ghost had = self.warnings@;
                let ghost said = warning@;
                self.warnings.push(warning);
                assert(text::views(self.warnings@) =~= text::views(had).push(said));
                self.group = Some(None);
                GroupStep::Known(None)
            },
        }
    }

    /// The tags of a workspace of `role` that belongs to no run; the group is
    /// settled first, with `made` as for [`QueueWorkspaces::group`].
    pub fn tags(
        &mut self,
        role: SessionRole,
        description: &str,
        made: Option<Result<String, String>>,
    ) -> (r: TagsStep)
        ensures
            final(self).db == old(self).db,
            final(self).hash == old(self).hash,
            final(self).group_name == old(self).group_name,
            match old(self).group {
                Some(group) => final(self).holds() == old(self).holds() && tagged(
                    role,
                    old(self).db@,
                    description@,
                    group,
                    r,
                ),
                None => match made {
                    None => final(self).holds() == old(self).holds() && r == (TagsStep::MakeGroup {
                        external_id: old(self).hash,
                        name: old(self).group_name,
                    }),
                    Some(made) => final(self).holds() == used(
                        old(self).group_name@,
                        old(self).hash@,
                        old(self).holds(),
                        Use::Group(made),
                    ) && tagged(role, old(self).db@, description@, final(self).group->0, r),
                },
            },
    {
        let group = match self.group(made) {
            GroupStep::Make { external_id, name } => {
                return TagsStep::MakeGroup { external_id, name };
            },
            GroupStep::Known(group) => group,
        };
        let mut env = session_env(role, self.db.as_str());
        match role {
            SessionRole::Inbox => set_variable(&mut env, SESSION_KIND_ENV, "inbox"),
            SessionRole::Planner => set_variable(&mut env, SESSION_KIND_ENV, "planner"),
            _ => {},
        }
        TagsStep::Tags(WorkspaceTags { env, description: Some(description.to_owned()), group })
    }

    /// What was refused so far, for the caller's result.
    pub fn take_warnings(&mut self) -> (r: Vec<String>)
        ensures
            r@ == old(self).warnings@,
            final(self).holds() == used(
                old(self).group_name@,
                old(self).hash@,
                old(self).holds(),
                Use::Take,
            ),
            final(self).db == old(self).db,
            final(self).hash == old(self).hash,
            final(self).group_name == old(self).group_name,
            final(self).group == old(self).group,
    {
        let mut out: Vec<String> = Vec::new();
        std::mem::swap(&mut out, &mut self.warnings);
        assert(text::views(self.warnings@) =~= Seq::empty());
        out
    }
}

/// The queue's group, or that it has to be made.
pub enum GroupStep {
    /// Make it, under the queue's external ID.
    Make { external_id: String, name: String },
    /// The group; none where it could not be made.
    Known(Option<String>),
}

/// What a workspace is tagged with, or that the group has to be made first.
pub enum TagsStep {
    MakeGroup { external_id: String, name: String },
    Tags(WorkspaceTags),
}

/// Whether these are the tags of a workspace of `role` in the group.
pub open spec fn tagged(
    role: SessionRole,
    db: Seq<char>,
    description: Seq<char>,
    group: Option<String>,
    r: TagsStep,
) -> bool {
    r matches TagsStep::Tags(tags) && variables(tags.env@) == tag_env(role, db) && text::opt_view(
        tags.description,
    ) == Some(description) && tags.group == group
}

/// What is held of the group and of what was refused.
pub ghost struct GroupState {
    pub group: Option<Option<String>>,
    pub warnings: Seq<Seq<char>>,
}

/// A use of a queue's workspaces: a workspace that needs the group, with what
/// making it would give, or the warnings taken.
pub ghost enum Use {
    Group(Result<String, String>),
    Take,
}

/// Why a workspace opens outside the group.
pub open spec fn group_warning(name: Seq<char>, hash: Seq<char>, error: Seq<char>) -> Seq<char> {
    "cmux workspace group "@ + text::debug_of(name) + " (external ID "@ + hash
        + ") could not be made, so the workspace opens outside it: "@ + error
}

/// What is held after a use.
pub open spec fn used(
    name: Seq<char>,
    hash: Seq<char>,
    state: GroupState,
    one: Use,
) -> GroupState {
    match one {
        Use::Take => GroupState { warnings: Seq::empty(), ..state },
        Use::Group(made) => match state.group {
            Some(_) => state,
            None => match made {
                Ok(group) => GroupState { group: Some(Some(group)), ..state },
                Err(error) => GroupState {
                    group: Some(None),
                    warnings: state.warnings.push(group_warning(name, hash, error@)),
                },
            },
        },
    }
}

/// What is held after the uses, one after the other.
pub open spec fn after_uses(
    name: Seq<char>,
    hash: Seq<char>,
    state: GroupState,
    uses: Seq<Use>,
) -> GroupState
    decreases uses.len(),
{
    if uses.len() == 0 {
        state
    } else {
        used(name, hash, after_uses(name, hash, state, uses.drop_last()), uses.last())
    }
}

/// How often the uses have the group made.
pub open spec fn groups_made(
    name: Seq<char>,
    hash: Seq<char>,
    state: GroupState,
    uses: Seq<Use>,
) -> nat
    decreases uses.len(),
{
    if uses.len() == 0 {
        0
    } else {
        let before = after_uses(name, hash, state, uses.drop_last());
        groups_made(name, hash, state, uses.drop_last()) + if uses.last() is Group
            && before.group is None {
            1nat
        } else {
            0nat
        }
    }
}

/// All the warnings the uses take, in order.
pub open spec fn taken(
    name: Seq<char>,
    hash: Seq<char>,
    state: GroupState,
    uses: Seq<Use>,
) -> Seq<Seq<char>>
    decreases uses.len(),
{
    if uses.len() == 0 {
        Seq::empty()
    } else {
        let before = after_uses(name, hash, state, uses.drop_last());
        let had = taken(name, hash, state, uses.drop_last());
        if uses.last() is Take {
            had + before.warnings
        } else {
            had
        }
    }
}

/// A group that is settled stays as it is, whatever uses follow: every
/// workspace gets the same, and cmux is not asked again.
pub proof fn a_settled_group_stays(
    name: Seq<char>,
    hash: Seq<char>,
    state: GroupState,
    uses: Seq<Use>,
)
    requires
        state.group is Some,
    ensures
        after_uses(name, hash, state, uses).group == state.group,
        groups_made(name, hash, state, uses) == 0,
        taken(name, hash, state, uses) + after_uses(name, hash, state, uses).warnings
            == state.warnings,
    decreases uses.len(),
{
    if uses.len() > 0 {
        a_settled_group_stays(name, hash, state, uses.drop_last());
        let before = after_uses(name, hash, state, uses.drop_last());
        let had = taken(name, hash, state, uses.drop_last());
        if uses.last() is Take {
            assert((had + before.warnings) + Seq::<Seq<char>>::empty() =~= had + before.warnings);
        }
    } else {
        assert(Seq::<Seq<char>>::empty() + state.warnings =~= state.warnings);
    }
}

/// Over any uses cmux is asked for the group at most once, and a group that
/// could not be made is one warning: it is taken once, and no later.
pub proof fn the_group_is_made_once(
    name: Seq<char>,
    hash: Seq<char>,
    state: GroupState,
    uses: Seq<Use>,
)
    ensures
        groups_made(name, hash, state, uses) <= 1,
        ({
            let all = taken(name, hash, state, uses) + after_uses(name, hash, state, uses).warnings;
            if groups_made(name, hash, state, uses) == 1 && after_uses(
                name,
                hash,
                state,
                uses,
            ).group == Some(None::<String>) {
                all.len() == state.warnings.len() + 1 && all.drop_last() == state.warnings
            } else {
                all == state.warnings
            }
        }),
        state.group is None && groups_made(name, hash, state, uses) == 0 ==> after_uses(
            name,
            hash,
            state,
            uses,
        ).group is None,
        groups_made(name, hash, state, uses) == 1 ==> after_uses(
            name,
            hash,
            state,
            uses,
        ).group is Some,
    decreases uses.len(),
{
    if uses.len() > 0 {
        let rest = uses.drop_last();
        the_group_is_made_once(name, hash, state, rest);
        let before = after_uses(name, hash, state, rest);
        let after = after_uses(name, hash, state, uses);
        let had = taken(name, hash, state, rest);
        let now = taken(name, hash, state, uses);
        match uses.last() {
            Use::Take => {
                assert(now + after.warnings =~= had + before.warnings);
            },
            Use::Group(made) => {
                if before.group is None && made is Err {
                    assert(now + after.warnings =~= (had + before.warnings).push(
                        group_warning(name, hash, made->Err_0@),
                    ));
                    assert((now + after.warnings).drop_last() =~= had + before.warnings);
                } else {
                    assert(now + after.warnings =~= had + before.warnings);
                }
            },
        }
    } else {
        assert(Seq::<Seq<char>>::empty() + state.warnings =~= state.warnings);
    }
}

/// What a recorded workspace comes to.
pub enum Recorded {
    /// None is recorded.
    Nothing,
    /// Whether it is still listed decides.
    Listed { id: String },
    Open { id: String },
    /// It is no longer listed: the record is forgotten.
    Forget { id: String },
}

/// The workspace the queue recorded for a role, while it is still listed. One
/// that is not (it was closed, or cmux restarted) is forgotten, so the caller
/// opens a new one. The title is never consulted: people rename workspaces.
pub fn recorded_workspace(recorded: &Option<String>, listed: Option<bool>) -> (r: Recorded)
    ensures
        match *recorded {
            None => r is Nothing,
            Some(id) => match listed {
                None => r == (Recorded::Listed { id }),
                Some(true) => r == (Recorded::Open { id }),
                Some(false) => r == (Recorded::Forget { id }),
            },
        },
{
    match recorded {
        None => Recorded::Nothing,
        Some(id) => match listed {
            None => Recorded::Listed { id: id.clone() },
            Some(listed) => if listed {
                Recorded::Open { id: id.clone() }
            } else {
                Recorded::Forget { id: id.clone() }
            },
        },
    }
}

/// What has been observed of a session's workspace.
#[derive(Default)]
pub struct SessionSeen {
    /// The recorded workspace.
    pub recorded: Option<Option<String>>,
    /// Whether it is listed; an answer that could not be had is `Some(None)`.
    pub listed: Option<Option<bool>>,
    pub forgotten: bool,
    /// The workspace that was created.
    pub created: Option<String>,
    pub registered: bool,
}

/// What opening a session does next, or what it came to.
pub enum SessionStep {
    Recorded,
    Listed { id: String },
    Forget,
    Create,
    Register { id: String },
    /// `up` runs inside that very session: its workspace only gets its look
    /// again, where it is open.
    Skipped { mark: Option<String> },
    Reused { id: String },
    Created { id: String },
    /// Whether the workspace is listed could not be had.
    Unknown,
}

/// Whether `up` runs inside the session of this role of this queue.
pub open spec fn is_inside(
    role: SessionRole,
    env_role: Option<String>,
    env_queue: Option<String>,
    db: Seq<char>,
) -> bool {
    text::opt_view(env_role) == Some(role.name()) && text::opt_view(env_queue) == Some(db)
}

/// What opening a session comes to.
pub open spec fn opens(inside: bool, seen: SessionSeen, r: SessionStep) -> bool {
    if seen.recorded is None {
        r is Recorded
    } else {
        match seen.recorded->0 {
            Some(id) => match seen.listed {
                None => r == (SessionStep::Listed { id }),
                Some(Some(true)) => if inside {
                    r == (SessionStep::Skipped { mark: Some(id) })
                } else {
                    r == (SessionStep::Reused { id })
                },
                Some(Some(false)) => if inside {
                    r == (SessionStep::Skipped { mark: None })
                } else if !seen.forgotten {
                    r is Forget
                } else {
                    creates(seen, r)
                },
                Some(None) => if inside {
                    r == (SessionStep::Skipped { mark: None })
                } else {
                    r is Unknown
                },
            },
            None => if inside {
                r == (SessionStep::Skipped { mark: None })
            } else {
                creates(seen, r)
            },
        }
    }
}

/// What creating a session's workspace comes to.
pub open spec fn creates(seen: SessionSeen, r: SessionStep) -> bool {
    match seen.created {
        None => r is Create,
        Some(id) => if !seen.registered {
            r == (SessionStep::Register { id })
        } else {
            r == (SessionStep::Created { id })
        },
    }
}

/// Create the session's workspace and record it.
fn create(seen: &SessionSeen) -> (r: SessionStep)
    ensures
        creates(*seen, r),
{
    match &seen.created {
        None => SessionStep::Create,
        Some(id) => if !seen.registered {
            SessionStep::Register { id: id.clone() }
        } else {
            SessionStep::Created { id: id.clone() }
        },
    }
}

/// Open a session's workspace: skipped when `up` runs inside that very session
/// of this queue (its `DAGQ_ROLE`, and its `DAGQ_QUEUE` resolved), reused
/// while its recorded workspace is still listed, and otherwise created and
/// recorded.
pub fn open_session(
    role: SessionRole,
    env_role: &Option<String>,
    env_queue: &Option<String>,
    db: &str,
    seen: &SessionSeen,
) -> (r: SessionStep)
    ensures
        opens(is_inside(role, *env_role, *env_queue, db@), *seen, r),
{
    let inside = text::is_text(env_role, role.as_str()) && text::is_text(env_queue, db);
    let recorded = match &seen.recorded {
        None => return SessionStep::Recorded,
        Some(recorded) => recorded,
    };
    match recorded {
        Some(id) => match seen.listed {
            None => SessionStep::Listed { id: id.clone() },
            Some(Some(listed)) => if listed {
                if inside {
                    SessionStep::Skipped { mark: Some(id.clone()) }
                } else {
                    SessionStep::Reused { id: id.clone() }
                }
            } else if inside {
                SessionStep::Skipped { mark: None }
            } else if !seen.forgotten {
                SessionStep::Forget
            } else {
                create(seen)
            },
            Some(None) => if inside {
                SessionStep::Skipped { mark: None }
            } else {
                SessionStep::Unknown
            },
        },
        None => if inside {
            SessionStep::Skipped { mark: None }
        } else {
            create(seen)
        },
    }
}

/// `up` creates no workspace from inside the session itself, nor beside one
/// that is still listed.
pub proof fn no_second_session(inside: bool, seen: SessionSeen, r: SessionStep)
    requires
        opens(inside, seen, r),
        r is Create || r is Register || r is Created,
    ensures
        !inside,
        seen.recorded matches Some(Some(_)) ==> seen.listed == Some(Some(false)) && seen.forgotten,
{
}

/// Why a part of a workspace's look could not be set.
pub open spec fn mark_warning(
    what: Seq<char>,
    role: SessionRole,
    id: Seq<char>,
    error: Seq<char>,
) -> Seq<char> {
    "cmux could not set the "@ + what + " of the "@ + role.name() + " workspace "@ + id + ": "@
        + error
}

/// The warnings of setting a workspace's color, status pill and pin.
pub open spec fn mark_warnings(
    role: SessionRole,
    id: Seq<char>,
    color: Option<String>,
    pill: Option<String>,
    pin: Option<String>,
) -> Seq<Seq<char>> {
    let none: Seq<Seq<char>> = Seq::empty();
    let one = match color {
        Some(error) => none.push(mark_warning("color"@, role, id, error@)),
        None => none,
    };
    let two = match pill {
        Some(error) => one.push(mark_warning("status pill"@, role, id, error@)),
        None => one,
    };
    match pin {
        Some(error) => two.push(mark_warning("pin"@, role, id, error@)),
        None => two,
    }
}

/// Add why a part of a workspace's look could not be set.
fn warn_mark(
    list: &mut Vec<String>,
    what: &str,
    role: SessionRole,
    id: &str,
    error: &Option<String>,
)
    ensures
        text::views(final(list)@) == (match *error {
            Some(error) => text::views(old(list)@).push(mark_warning(what@, role, id@, error@)),
            None => text::views(old(list)@),
        }),
{
    if let Some(error) = error {
        let ghost had = list@;
        let warning = "cmux could not set the ".to_owned().concat(what).concat(" of the ").concat(
            role.as_str(),
        ).concat(" workspace ").concat(id).concat(": ").concat(error.as_str());
        let ghost said = warning@;
        list.push(warning);
        assert(text::views(list@) =~= text::views(had).push(said));
    }
}

/// What is reported once a workspace was to be colored, given its role's
/// status pill and pinned: `color`, `pill` and `pin` are what each failed
/// with. None of it is worth failing `up` for; a role without a look has none
/// set.
pub fn mark(
    role: SessionRole,
    id: &str,
    color: &Option<String>,
    pill: &Option<String>,
    pin: &Option<String>,
) -> (r: Vec<String>)
    ensures
        text::views(r@) == (if role == SessionRole::Inbox || role == SessionRole::Planner {
            mark_warnings(role, id@, *color, *pill, *pin)
        } else {
            Seq::empty()
        }),
{
    let mut out: Vec<String> = Vec::new();
    assert(text::views(out@) =~= Seq::empty());
    if session_look(role).is_none() {
        return out;
    }
    warn_mark(&mut out, "color", role, id, color);
    warn_mark(&mut out, "status pill", role, id, pill);
    warn_mark(&mut out, "pin", role, id, pin);
    out
}

/// A group is asked for once: a group that was made is kept and used, one that
/// could not be made is given up with a single warning, and taking the warnings
/// empties them and leaves the group.
pub proof fn a_group_is_settled_by_its_making(
    name: Seq<char>,
    hash: Seq<char>,
    state: GroupState,
    made: Result<String, String>,
)
    ensures
        state.group is Some ==> used(name, hash, state, Use::Group(made)) == state,
        state.group is None && made is Ok ==> used(name, hash, state, Use::Group(made)).group
            == Some(Some(made->Ok_0)) && used(name, hash, state, Use::Group(made)).warnings
            == state.warnings,
        state.group is None && made is Err ==> used(name, hash, state, Use::Group(made)).group
            == Some(None::<String>) && used(name, hash, state, Use::Group(made)).warnings.len()
            == state.warnings.len() + 1,
        used(name, hash, state, Use::Take).warnings.len() == 0,
        used(name, hash, state, Use::Take).group == state.group,
{
}

/// A workspace is tagged with the role of its session, its queue, its
/// description and the group it opens in.
pub proof fn a_workspace_carries_its_tags(
    role: SessionRole,
    db: Seq<char>,
    description: Seq<char>,
    group: Option<String>,
    r: TagsStep,
)
    requires
        tagged(role, db, description, group, r),
    ensures
        r matches TagsStep::Tags(tags) && {
            &&& tags.group == group
            &&& tags.description is Some && tags.description->0@ == description
            &&& tags.env@.len() >= 2
            &&& (tags.env@[0]).0@ == "DAGQ_ROLE"@
            &&& (tags.env@[1]).0@ == "DAGQ_QUEUE"@ && (tags.env@[1]).1@ == db
            &&& role == SessionRole::Inbox ==> (tags.env@[0]).1@ == "inbox"@ && tags.env@.len() == 3
                && (tags.env@[2]).0@ == "DAGQ_SESSION_KIND"@ && (tags.env@[2]).1@ == "inbox"@
            &&& role == SessionRole::Planner ==> (tags.env@[0]).1@ == "planner"@ && tags.env@.len()
                == 3 && (tags.env@[2]).0@ == "DAGQ_SESSION_KIND"@ && (tags.env@[2]).1@
                == "planner"@
            &&& role == SessionRole::Worker ==> (tags.env@[0]).1@ == "worker"@ && tags.env@.len()
                == 2
            &&& role == SessionRole::Supervisor ==> (tags.env@[0]).1@ == "supervisor"@
                && tags.env@.len() == 2
            &&& role == SessionRole::Observer ==> (tags.env@[0]).1@ == "observer"@
                && tags.env@.len() == 2
        },
{
    if let TagsStep::Tags(tags) = r {
        let env = variables(tags.env@);
        assert(env.len() == tags.env@.len());
        assert forall|i: int| 0 <= i < env.len() implies env[i] == (
            (#[trigger] tags.env@[i]).0@,
            tags.env@[i].1@,
        ) by {}
    }
}

/// A recorded workspace is looked for before it counts as open, and forgotten
/// only once it is known to be gone.
pub proof fn a_recorded_workspace_is_looked_for(
    recorded: &Option<String>,
    listed: Option<bool>,
    r: Recorded,
)
    requires
        call_ensures(recorded_workspace, (recorded, listed), r),
    ensures
        r is Nothing <==> *recorded is None,
        r matches Recorded::Open { id } ==> listed is Some && listed->0 && *recorded == Some(id),
        r matches Recorded::Forget { id } ==> listed is Some && !listed->0 && *recorded == Some(id),
        r matches Recorded::Listed { id } ==> listed is None && *recorded == Some(id),
{
}

/// A session is opened only outside one of its own kind and queue, and only
/// where none is open: one that is open is used again, and one that could not be
/// looked for stops the opening.
pub proof fn one_session_per_role(
    role: SessionRole,
    env_role: &Option<String>,
    env_queue: &Option<String>,
    db: &str,
    seen: &SessionSeen,
    r: SessionStep,
)
    requires
        call_ensures(open_session, (role, env_role, env_queue, db, seen), r),
    ensures
        r is Recorded <==> seen.recorded is None,
        r is Create || r is Register || r is Created || r is Forget || r is Reused || r is Unknown
            ==> *env_role is None || *env_queue is None || env_role->0@ != role.name()
            || env_queue->0@ != db@,
        *env_role is Some && *env_queue is Some && env_role->0@ == role.name() && env_queue->0@
            == db@ ==> r is Recorded || r is Listed || r is Skipped,
        *env_role is None || *env_queue is None ==> r !is Skipped,
        r matches SessionStep::Reused { id } ==> seen.recorded == Some(Some(id)) && seen.listed
            == Some(Some(true)),
        r is Forget ==> seen.listed == Some(Some(false)) && !seen.forgotten,
        r is Create ==> seen.created is None && (seen.recorded == Some(None::<String>)
            || seen.forgotten),
        r matches SessionStep::Register { id } ==> seen.created == Some(id) && !seen.registered,
        r matches SessionStep::Created { id } ==> seen.created == Some(id) && seen.registered,
        r is Unknown ==> seen.listed == Some(None::<bool>),
        r matches SessionStep::Skipped { mark } ==> (mark is Some <==> seen.recorded->0 is Some
            && seen.listed == Some(Some(true))) && (mark is Some ==> seen.recorded == Some(mark)),
{
}

/// Only the inbox and the planners have a look of their own, and only what could
/// not be set of it is warned of, in order.
pub proof fn marks_are_warned_of_when_they_fail(
    role: SessionRole,
    id: &str,
    color: &Option<String>,
    pill: &Option<String>,
    pin: &Option<String>,
    r: Vec<String>,
)
    requires
        call_ensures(mark, (role, id, color, pill, pin), r),
    ensures
        role != SessionRole::Inbox && role != SessionRole::Planner ==> r@.len() == 0,
        role == SessionRole::Inbox || role == SessionRole::Planner ==> r@.len() == (
        if *color is Some {
            1int
        } else {
            0
        }) + (if *pill is Some {
            1int
        } else {
            0
        }) + (if *pin is Some {
            1int
        } else {
            0
        }),
        (role == SessionRole::Inbox || role == SessionRole::Planner) && *color is Some
            ==> r@[0]@ == "cmux could not set the color of the "@ + role.name() + " workspace "@
            + id@ + ": "@ + color->0@,
{
    let list = text::views(r@);
    assert(list.len() == r@.len());
    if (role == SessionRole::Inbox || role == SessionRole::Planner) && *color is Some {
        assert(r@[0]@ == list[0]);
        reveal_strlit("cmux could not set the ");
        reveal_strlit("color");
        reveal_strlit(" of the ");
        reveal_strlit("cmux could not set the color of the ");
        assert("cmux could not set the "@ + "color"@ + " of the "@
            =~= "cmux could not set the color of the "@);
    }
}

/// A session's look is its role's.
pub proof fn a_look_is_of_the_role(role: SessionRole, r: Option<(&'static str, &'static str)>)
    requires
        call_ensures(session_look, (role,), r),
    ensures
        r is Some <==> role == SessionRole::Inbox || role == SessionRole::Planner,
{
}

/// A group is made once: where it is known it is used, where it is not it is
/// asked for under the queue's own names, and what came of it is kept.
pub proof fn a_queue_asks_for_its_group_once(
    queue: &mut QueueWorkspaces,
    made: Option<Result<String, String>>,
    r: GroupStep,
)
    requires
        call_ensures(QueueWorkspaces::group, (queue, made), r),
    ensures
        old(queue).group is Some ==> r == GroupStep::Known(old(queue).group->0) && final(queue).group == old(queue).group,
        old(queue).group is None && made is None ==> (r matches GroupStep::Make {
            external_id,
            name,
        } && external_id == old(queue).hash && name == old(queue).group_name) && final(queue).group
            is None,
        old(queue).group is None && made is Some && made->0 is Ok ==> final(queue).group == Some(
            Some(made->0->Ok_0),
        ) && r == GroupStep::Known(Some(made->0->Ok_0)),
        old(queue).group is None && made is Some && made->0 is Err ==> final(queue).group == Some(
            None::<String>,
        ) && r == GroupStep::Known(None) && final(queue).warnings@.len() == old(queue).warnings@.len() + 1,
        final(queue).db == old(queue).db && final(queue).hash == old(queue).hash
            && final(queue).group_name == old(queue).group_name,
{
    assert(final(queue).holds().warnings.len() == final(queue).warnings@.len());
    assert(old(queue).holds().warnings.len() == old(queue).warnings@.len());
    assert(final(queue).holds().group == final(queue).group);
    assert(old(queue).holds().group == old(queue).group);
}

/// The warnings are handed out once.
pub proof fn warnings_are_taken_once(queue: &mut QueueWorkspaces, r: Vec<String>)
    requires
        call_ensures(QueueWorkspaces::take_warnings, (queue,), r),
    ensures
        r@ == old(queue).warnings@,
        final(queue).warnings@.len() == 0,
        final(queue).group == old(queue).group && final(queue).db == old(queue).db,
{
    assert(final(queue).holds().warnings.len() == final(queue).warnings@.len());
}

} // verus!
