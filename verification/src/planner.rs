//! Planner sessions: on-demand workspaces where a planner writes goals and
//! tasks and submits them as a proposal.
//!
//! A person opens one, as many as they like at once; the runtime opens one
//! for a proposal that was sent back while its own planner was closed, and
//! for a draft. Each has its own directory under the queue's `planners/`.

use crate::domain::{same_text, Agent};
use crate::lifecycle::sessions::{
    env_of, group_warning, session_env, set_variable, variables, QueueWorkspaces, SessionRole,
    WorkspaceTags, PLANNER_ID_ENV, PLANNER_ORIGIN_ENV, SESSION_KIND_ENV,
};
use crate::path;
use crate::text;
use vstd::prelude::*;
use vstd::string::*;

verus! {

/// The planner's first message, which its wrapper hands the agent.
pub const PLANNER_PROMPT_FILE: &'static str = "prompt.txt";

/// The snapshot of the binary that the planner's workspace runs as its wrapper.
pub const PLANNER_RUNNER_FILE: &'static str = "runner";

/// Who opened a planner.
#[derive(Debug, Clone, Copy, PartialEq, Eq, Structural)]
pub enum PlannerOrigin {
    Person,
    Runtime,
}

impl PlannerOrigin {
    /// Its name in `DAGQ_PLANNER_ORIGIN`.
    pub open spec fn name(self) -> Seq<char> {
        match self {
            PlannerOrigin::Person => "person"@,
            PlannerOrigin::Runtime => "runtime"@,
        }
    }

    /// Its name in `DAGQ_PLANNER_ORIGIN`.
    pub fn as_str(self) -> (r: &'static str)
        ensures
            r@ == self.name(),
    {
        match self {
            PlannerOrigin::Person => "person",
            PlannerOrigin::Runtime => "runtime",
        }
    }
}

/// How a planner stands.
#[derive(Debug, Clone, Copy, PartialEq, Eq, Structural)]
pub enum PlannerState {
    Starting,
    Working,
    Idle,
    Exited,
    Lost,
    Closed,
}

/// A planner as it is recorded.
pub struct PlannerSession {
    pub id: i64,
    pub origin: PlannerOrigin,
    pub proposal_id: Option<i64>,
    pub draft_task_id: Option<i64>,
    pub finding_id: Option<i64>,
    pub workspace_id: Option<String>,
    pub wrapper_pid: Option<u32>,
    pub exited_at: Option<i64>,
    pub closed_at: Option<i64>,
}

impl PlannerSession {
    /// An equal record.
    pub fn copy(&self) -> (r: PlannerSession)
        ensures
            r == *self,
    {
        PlannerSession {
            id: self.id,
            origin: self.origin,
            proposal_id: self.proposal_id,
            draft_task_id: self.draft_task_id,
            finding_id: self.finding_id,
            workspace_id: same_text(&self.workspace_id),
            wrapper_pid: self.wrapper_pid,
            exited_at: self.exited_at,
            closed_at: self.closed_at,
        }
    }
}

/// The directory of planner `id` under the queue's `planners/` directory.
pub fn planner_dir(planners_dir: &str, id: i64) -> (r: String)
    ensures
        r@ == path::under(planners_dir@, text::signed(id as int)),
{
    let name = text::integer(id);
    path::join_path(planners_dir, name.as_str())
}

/// What opening a planner works with: the queue's database, hash, group and
/// `planners/` directory, the checkout it works in, and what its workspace runs (this binary as the
/// wrapper, the agent's executable, the plugin directory it loads).
pub struct PlannerLaunch {
    pub db: String,
    pub queue_hash: String,
    pub group_name: String,
    pub planners_dir: String,
    pub repo_root: String,
    pub runner: String,
    pub agent: Agent,
    pub claude: String,
    pub plugin_dir: Option<String>,
}

/// A planner whose workspace just opened: its record, the workspace's title,
/// its directory, and what was refused about its look.
pub struct OpenedPlanner {
    pub planner: PlannerSession,
    pub name: String,
    pub dir: String,
    pub warnings: Vec<String>,
}

/// What has been done and observed of a planner being opened.
#[derive(Default)]
pub struct OpenSeen {
    /// The proposal it is opened for exists.
    pub proposal_shown: bool,
    /// Its first message.
    pub prompt: Option<String>,
    /// The record of the planner.
    pub planner: Option<PlannerSession>,
    /// The title of its workspace and its description line, as the queue
    /// names a planner's.
    pub title: String,
    pub description: String,
    /// What making its directory, writing its prompt, copying its wrapper and
    /// making its workspace gave.
    pub dir_made: Option<Result<(), String>>,
    pub prompt_written: Option<Result<(), String>>,
    pub runner_copied: Option<Result<(), String>>,
    pub created: Option<Result<String, String>>,
    /// What making the queue's workspace group gave.
    pub group: Option<Result<String, String>>,
    /// The record was closed with what failed.
    pub closed: bool,
    /// The workspace is recorded.
    pub recorded: bool,
    /// What setting its color and its status pill failed with.
    pub color: Option<Option<String>>,
    pub pill: Option<Option<String>>,
    /// The record as it is then.
    pub session: Option<PlannerSession>,
}

/// What opening a planner does next, or what it came to.
pub enum OpenStep {
    ShowProposal { id: i64 },
    /// The first message of a planner a person talks with.
    PersonPrompt { db: String },
    /// The first message of a planner for a proposal: it carries the proposal,
    /// its tasks and the reasons it was sent back with.
    ProposalPrompt { db: String, of: i64, reasons: Vec<String> },
    Record { origin: PlannerOrigin, proposal: Option<i64> },
    MakeDir { dir: String },
    WritePrompt { file: String, text: String },
    CopyRunner { from: String, to: String },
    MakeGroup { external_id: String, name: String },
    Create { name: String, cwd: String, argv: Vec<String>, tags: WorkspaceTags },
    Close { id: i64, error: String },
    RecordWorkspace { id: i64, workspace: String },
    SetColor { workspace: String, color: &'static str },
    SetPill { workspace: String, role: &'static str, icon: &'static str },
    Reread { id: i64 },
    Failed(String),
    Opened(OpenedPlanner),
}

/// Why a planner's directory or workspace could not be made, where it could
/// not.
pub open spec fn open_failure(dir: Seq<char>, seen: OpenSeen) -> Option<Seq<char>> {
    match seen.dir_made {
        Some(Err(error)) => Some("create "@ + dir + ": "@ + error@),
        _ => match seen.prompt_written {
            Some(Err(error)) => Some(error@),
            _ => match seen.runner_copied {
                Some(Err(error)) => Some("snapshot runtime binary: "@ + error@),
                _ => match seen.created {
                    Some(Err(error)) => Some(error@),
                    _ => None,
                },
            },
        },
    }
}

/// Why a planner's directory or workspace could not be made.
fn failure(dir: &str, seen: &OpenSeen) -> (r: Option<String>)
    ensures
        text::opt_view(r) == open_failure(dir@, *seen),
{
    if let Some(Err(error)) = &seen.dir_made {
        return Some("create ".to_owned().concat(dir).concat(": ").concat(error.as_str()));
    }
    if let Some(Err(error)) = &seen.prompt_written {
        return Some(error.clone());
    }
    if let Some(Err(error)) = &seen.runner_copied {
        return Some("snapshot runtime binary: ".to_owned().concat(error.as_str()));
    }
    if let Some(Err(error)) = &seen.created {
        return Some(error.clone());
    }
    None
}

/// The title of a planner's workspace: it names the draft or the finding the
/// planner is opened for.
pub open spec fn title_of(title: Seq<char>, planner: PlannerSession) -> Seq<char> {
    let draft = match planner.draft_task_id {
        Some(draft) => title + " - draft task "@ + text::signed(draft as int),
        None => title,
    };
    match planner.finding_id {
        Some(finding) => draft + " - finding "@ + text::signed(finding as int),
        None => draft,
    }
}

/// The directory of a planner.
pub open spec fn dir_of(launch: PlannerLaunch, planner: PlannerSession) -> Seq<char> {
    path::under(launch.planners_dir@, text::signed(planner.id as int))
}

/// The words of a planner's command: its wrapper, with the queue, the planner
/// and the agent.
pub open spec fn planner_words(launch: PlannerLaunch, planner: PlannerSession) -> Seq<Seq<char>> {
    let base = seq![
        path::under(dir_of(launch, planner), PLANNER_RUNNER_FILE@),
        "--db"@,
        launch.db@,
        "planner-session"@,
        "--planner"@,
        text::signed(planner.id as int),
        launch.agent.flag(),
        launch.claude@,
    ];
    match launch.plugin_dir {
        Some(dir) => base.push("--plugin-dir"@).push(dir@),
        None => base,
    }
}

/// The environment of a planner's workspace: the role and queue, the kind of
/// its session span, who opened it and its ID.
pub open spec fn planner_env(db: Seq<char>, planner: PlannerSession) -> Seq<
    (Seq<char>, Seq<char>),
> {
    env_of(SessionRole::Planner, db).push(
        (
            SESSION_KIND_ENV@,
            match planner.origin {
                PlannerOrigin::Person => "planner"@,
                PlannerOrigin::Runtime => "runtime_planner"@,
            },
        ),
    ).push((PLANNER_ORIGIN_ENV@, planner.origin.name())).push(
        (PLANNER_ID_ENV@, text::signed(planner.id as int)),
    )
}

/// The group a planner's workspace is opened in.
pub open spec fn group_of(seen: OpenSeen) -> Option<String> {
    match seen.group {
        Some(Ok(group)) => Some(group),
        _ => None,
    }
}

/// What was refused about the group of a planner's workspace.
pub open spec fn workspaces_warned(launch: PlannerLaunch, seen: OpenSeen) -> Seq<Seq<char>> {
    match seen.group {
        Some(Err(error)) => seq![
            group_warning(launch.group_name@, launch.queue_hash@, error@),
        ],
        _ => Seq::empty(),
    }
}

/// What was refused about a planner's workspace.
pub open spec fn warnings_of(launch: PlannerLaunch, seen: OpenSeen) -> Seq<Seq<char>> {
    let workspace = seen.created->0->Ok_0@;
    let group = workspaces_warned(launch, seen);
    let color = match seen.color {
        Some(Some(error)) => group.push(
            "cmux could not set the color of the planner workspace "@ + workspace + ": "@ + error@,
        ),
        _ => group,
    };
    match seen.pill {
        Some(Some(error)) => color.push(
            "cmux could not set the status pill of the planner workspace "@ + workspace + ": "@
                + error@,
        ),
        _ => color,
    }
}

/// Whether a planner's workspace is created with these.
pub open spec fn is_create(
    launch: PlannerLaunch,
    planner: PlannerSession,
    seen: OpenSeen,
    r: OpenStep,
) -> bool {
    r matches OpenStep::Create { name, cwd, argv, tags } && {
        &&& name@ == title_of(seen.title@, planner)
        &&& cwd == launch.repo_root
        &&& text::views(argv@) == planner_words(launch, planner)
        &&& variables(tags.env@) == planner_env(launch.db@, planner)
        &&& text::opt_view(tags.description) == Some(
            seen.description@ + " planner="@ + text::signed(planner.id as int),
        )
        &&& tags.group == group_of(seen)
    }
}

/// What launching a recorded planner comes to.
pub open spec fn launches(
    launch: PlannerLaunch,
    planner: PlannerSession,
    prompt: Seq<char>,
    seen: OpenSeen,
    r: OpenStep,
) -> bool {
    let dir = dir_of(launch, planner);
    let failed = open_failure(dir, seen);
    if failed is Some {
        if !seen.closed {
            r matches OpenStep::Close { id, error } && id == planner.id && error@ == failed->0
        } else {
            r matches OpenStep::Failed(error) && error@ == failed->0
        }
    } else if seen.dir_made is None {
        r matches OpenStep::MakeDir { dir: at } && at@ == dir
    } else if seen.prompt_written is None {
        r matches OpenStep::WritePrompt { file, text } && file@ == path::under(dir, PLANNER_PROMPT_FILE@)
            && text@ == prompt
    } else if seen.runner_copied is None {
        r matches OpenStep::CopyRunner { from, to } && from == launch.runner && to@ == path::under(
            dir,
            PLANNER_RUNNER_FILE@,
        )
    } else if seen.group is None {
        r == (OpenStep::MakeGroup { external_id: launch.queue_hash, name: launch.group_name })
    } else if seen.created is None {
        is_create(launch, planner, seen, r)
    } else if !seen.recorded {
        r == (OpenStep::RecordWorkspace { id: planner.id, workspace: seen.created->0->Ok_0 })
    } else if seen.color is None {
        r matches OpenStep::SetColor { workspace, color } && workspace == seen.created->0->Ok_0
            && color@ == "Blue"@
    } else if seen.pill is None {
        r matches OpenStep::SetPill { workspace, role, icon } && workspace == seen.created->0->Ok_0
            && role@ == SessionRole::Planner.name() && icon@ == "map"@
    } else if seen.session is None {
        r == (OpenStep::Reread { id: planner.id })
    } else {
        r matches OpenStep::Opened(opened) && {
            &&& opened.planner == seen.session->0
            &&& opened.name@ == title_of(seen.title@, planner)
            &&& opened.dir@ == dir
            &&& text::views(opened.warnings@) == warnings_of(launch, seen)
        }
    }
}

/// Add a word to a list of them.
fn word(list: &mut Vec<String>, what: &str)
    ensures
        text::views(final(list)@) == text::views(old(list)@).push(what@),
{
    let ghost had = list@;
    list.push(what.to_owned());
    assert(text::views(list@) =~= text::views(had).push(what@));
}

/// The title of a planner's workspace.
fn full_title(title: &str, planner: &PlannerSession) -> (r: String)
    ensures
        r@ == title_of(title@, *planner),
{
    let mut name = title.to_owned();
    if let Some(draft) = planner.draft_task_id {
        let id = text::integer(draft);
        name = name.concat(" - draft task ").concat(id.as_str());
    }
    if let Some(finding) = planner.finding_id {
        let id = text::integer(finding);
        name = name.concat(" - finding ").concat(id.as_str());
    }
    name
}

/// The command and tags a planner's workspace is created with.
fn create_workspace(
    launch: &PlannerLaunch,
    planner: &PlannerSession,
    dir: &str,
    seen: &OpenSeen,
) -> (r: OpenStep)
    requires
        dir@ == dir_of(*launch, *planner),
    ensures
        is_create(*launch, *planner, *seen, r),
{
    let id = text::integer(planner.id);
    let runner = path::join_path(dir, PLANNER_RUNNER_FILE);
    let mut argv: Vec<String> = Vec::new();
    assert(text::views(argv@) =~= Seq::empty());
    word(&mut argv, runner.as_str());
    word(&mut argv, "--db");
    word(&mut argv, launch.db.as_str());
    word(&mut argv, "planner-session");
    word(&mut argv, "--planner");
    word(&mut argv, id.as_str());
    let flag = launch.agent.option();
    word(&mut argv, flag.as_str());
    word(&mut argv, launch.claude.as_str());
    if let Some(plugin) = &launch.plugin_dir {
        word(&mut argv, "--plugin-dir");
        word(&mut argv, plugin.as_str());
    }
    let mut env = session_env(SessionRole::Planner, launch.db.as_str());
    match planner.origin {
        PlannerOrigin::Person => set_variable(&mut env, SESSION_KIND_ENV, "planner"),
        PlannerOrigin::Runtime => set_variable(&mut env, SESSION_KIND_ENV, "runtime_planner"),
    }
    set_variable(&mut env, PLANNER_ORIGIN_ENV, planner.origin.as_str());
    set_variable(&mut env, PLANNER_ID_ENV, id.as_str());
    let group = match &seen.group {
        Some(Ok(group)) => Some(group.clone()),
        _ => None,
    };
    let description = seen.description.clone().concat(" planner=").concat(id.as_str());
    assert(text::views(argv@) =~= planner_words(*launch, *planner));
    assert(variables(env@) =~= planner_env(launch.db@, *planner));
    OpenStep::Create {
        name: full_title(seen.title.as_str(), planner),
        cwd: launch.repo_root.clone(),
        argv,
        tags: WorkspaceTags { env, description: Some(description), group },
    }
}

/// Write a recorded planner's directory and open its workspace running the
/// wrapper. A workspace that cannot be opened closes the record with the
/// error. The look is a warning when refused; a planner is not pinned, being
/// on demand.
fn launch_planner(
    launch: &PlannerLaunch,
    planner: &PlannerSession,
    prompt: &str,
    seen: &OpenSeen,
) -> (r: OpenStep)
    ensures
        launches(*launch, *planner, prompt@, *seen, r),
{
    let dir = planner_dir(launch.planners_dir.as_str(), planner.id);
    if let Some(error) = failure(dir.as_str(), seen) {
        return if !seen.closed {
            OpenStep::Close { id: planner.id, error }
        } else {
            OpenStep::Failed(error)
        };
    }
    if seen.dir_made.is_none() {
        return OpenStep::MakeDir { dir };
    }
    if seen.prompt_written.is_none() {
        return OpenStep::WritePrompt {
            file: path::join_path(dir.as_str(), PLANNER_PROMPT_FILE),
            text: prompt.to_owned(),
        };
    }
    if seen.runner_copied.is_none() {
        let to = path::join_path(dir.as_str(), PLANNER_RUNNER_FILE);
        return OpenStep::CopyRunner { from: launch.runner.clone(), to };
    }
    if seen.group.is_none() {
        return OpenStep::MakeGroup {
            external_id: launch.queue_hash.clone(),
            name: launch.group_name.clone(),
        };
    }
    let workspace = match &seen.created {
        Some(Ok(workspace)) => workspace,
        _ => return create_workspace(launch, planner, dir.as_str(), seen),
    };
    if !seen.recorded {
        return OpenStep::RecordWorkspace { id: planner.id, workspace: workspace.clone() };
    }
    let color = match &seen.color {
        Some(color) => color,
        None => return OpenStep::SetColor { workspace: workspace.clone(), color: "Blue" },
    };
    let pill = match &seen.pill {
        Some(pill) => pill,
        None => {
            return OpenStep::SetPill {
                workspace: workspace.clone(),
                role: SessionRole::Planner.as_str(),
                icon: "map",
            };
        },
    };
    let session = match &seen.session {
        Some(session) => session.copy(),
        None => return OpenStep::Reread { id: planner.id },
    };
    let mut workspaces = QueueWorkspaces::new(
        launch.db.clone(),
        launch.queue_hash.clone(),
        launch.group_name.clone(),
    );
    match &seen.group {
        Some(Ok(group)) => {
            let made = workspaces.group(Some(Ok(group.clone())));
        },
        Some(Err(error)) => {
            let made = workspaces.group(Some(Err(error.clone())));
        },
        None => {},
    }
    let mut warnings = workspaces.take_warnings();
    assert(text::views(warnings@) =~= workspaces_warned(*launch, *seen));
    if let Some(error) = color {
        let said = "cmux could not set the color of the planner workspace ".to_owned().concat(
            workspace.as_str(),
        ).concat(": ").concat(error.as_str());
        word(&mut warnings, said.as_str());
    }
    if let Some(error) = pill {
        let said = "cmux could not set the status pill of the planner workspace ".to_owned().concat(
            workspace.as_str(),
        ).concat(": ").concat(error.as_str());
        word(&mut warnings, said.as_str());
    }
    OpenStep::Opened(
        OpenedPlanner {
            planner: session,
            name: full_title(seen.title.as_str(), planner),
            dir,
            warnings,
        },
    )
}

/// What opening a planner comes to: its record first, then its launch.
pub open spec fn opens(
    launch: PlannerLaunch,
    origin: PlannerOrigin,
    proposal: Option<i64>,
    prompt: Seq<char>,
    seen: OpenSeen,
    r: OpenStep,
) -> bool {
    match seen.planner {
        None => r == (OpenStep::Record { origin, proposal }),
        Some(planner) => launches(launch, planner, prompt, seen, r),
    }
}

/// Record a planner, write its directory and open its workspace running the
/// wrapper, with `prompt` as its first message.
pub fn open_planner(
    launch: &PlannerLaunch,
    origin: PlannerOrigin,
    proposal: Option<i64>,
    prompt: &str,
    seen: &OpenSeen,
) -> (r: OpenStep)
    ensures
        opens(*launch, origin, proposal, prompt@, *seen, r),
{
    match &seen.planner {
        None => OpenStep::Record { origin, proposal },
        Some(planner) => launch_planner(launch, planner, prompt, seen),
    }
}

/// Open a planner a person talks with: a new workspace every time, next to
/// any planner already open.
pub fn open_person_planner(launch: &PlannerLaunch, seen: &OpenSeen) -> (r: OpenStep)
    ensures
        match seen.prompt {
            None => r == (OpenStep::PersonPrompt { db: launch.db }),
            Some(prompt) => opens(*launch, PlannerOrigin::Person, None, prompt@, *seen, r),
        },
{
    match &seen.prompt {
        None => OpenStep::PersonPrompt { db: launch.db.clone() },
        Some(prompt) => open_planner(launch, PlannerOrigin::Person, None, prompt.as_str(), seen),
    }
}

/// Open a planner of the runtime's for `proposal`, which must exist; `reasons`
/// are those plan review sent it back with. It submits as the runtime's
/// planner, which makes it the proposal's owner.
pub fn open_runtime_planner(
    launch: &PlannerLaunch,
    proposal: i64,
    reasons: &Vec<String>,
    seen: &OpenSeen,
) -> (r: OpenStep)
    ensures
        if !seen.proposal_shown {
            r == (OpenStep::ShowProposal { id: proposal })
        } else {
            match seen.prompt {
                None => r matches OpenStep::ProposalPrompt { db, of, reasons: said } && db
                    == launch.db && of == proposal && text::views(said@) == text::views(reasons@),
                Some(prompt) => opens(
                    *launch,
                    PlannerOrigin::Runtime,
                    Some(proposal),
                    prompt@,
                    *seen,
                    r,
                ),
            }
        },
{
    if !seen.proposal_shown {
        return OpenStep::ShowProposal { id: proposal };
    }
    match &seen.prompt {
        None => OpenStep::ProposalPrompt {
            db: launch.db.clone(),
            of: proposal,
            reasons: text::copied(reasons),
        },
        Some(prompt) => {
            open_planner(launch, PlannerOrigin::Runtime, Some(proposal), prompt.as_str(), seen)
        },
    }
}

/// Open the workspace of a planner the runtime recorded for a draft, the way
/// [`open_planner`] does.
pub fn open_draft_planner(
    launch: &PlannerLaunch,
    planner: &PlannerSession,
    prompt: &str,
    seen: &OpenSeen,
) -> (r: OpenStep)
    ensures
        launches(*launch, *planner, prompt@, *seen, r),
{
    launch_planner(launch, planner, prompt, seen)
}

/// A planner whose workspace could not be made is closed with the error before
/// the failure is reported, so no record is left open without a workspace.
pub proof fn failed_planner_is_closed(
    launch: PlannerLaunch,
    planner: PlannerSession,
    prompt: Seq<char>,
    seen: OpenSeen,
    r: OpenStep,
)
    requires
        launches(launch, planner, prompt, seen, r),
        r is Failed,
    ensures
        seen.closed,
        open_failure(dir_of(launch, planner), seen) == Some(r->Failed_0@),
{
}

/// What the planner's session wrapper is: the planner, and its own process.
#[derive(Debug, Clone, Copy, PartialEq, Eq, Structural)]
pub struct PlannerWrapper {
    pub id: i64,
    pub pid: u32,
}

/// What has been done and observed of a planner's session.
#[derive(Default)]
pub struct SessionSeen {
    /// The wrapper is registered.
    pub registered: bool,
    /// The agent's process, or why it did not start.
    pub started: Option<Result<u32, String>>,
    /// The agent is registered, or why it could not be.
    pub agent: Option<Result<(), String>>,
    /// What the last look at the agent gave: its exit code (none when a
    /// signal ended it), that it runs, or why it could not be looked at.
    pub waited: Option<Result<Option<Option<i32>>, String>>,
    /// The wrapper heartbeat since that look.
    pub beat: bool,
    /// The exit was recorded.
    pub exited: bool,
}

/// What a planner's session does next, or what it came to.
pub enum SessionStep {
    Register,
    Start,
    RegisterAgent { agent: u32 },
    /// Look whether the agent ended.
    Poll,
    Heartbeat,
    /// Look again a little later.
    Sleep,
    RecordExit { code: i32 },
    /// Stop the agent (waiting for its end with `wait`), record the exit code
    /// and report the error.
    GiveUp { kill: bool, wait: bool, code: i32, error: String },
    Finished { code: i32 },
}

/// What a planner's session comes to.
pub open spec fn runs(seen: SessionSeen, r: SessionStep) -> bool {
    if !seen.registered {
        r is Register
    } else {
        match seen.started {
            None => r is Start,
            // An agent that never starts is an exit too, or the planner would
            // look lost rather than over.
            Some(Err(error)) => r == (SessionStep::GiveUp {
                kill: false,
                wait: false,
                code: 127,
                error,
            }),
            Some(Ok(agent)) => match seen.agent {
                None => r == (SessionStep::RegisterAgent { agent }),
                Some(Err(error)) => r == (SessionStep::GiveUp {
                    kill: true,
                    wait: true,
                    code: 127,
                    error,
                }),
                Some(Ok(_)) => match seen.waited {
                    None => r is Poll,
                    Some(Err(error)) => r == (SessionStep::GiveUp {
                        kill: true,
                        wait: false,
                        code: 127,
                        error,
                    }),
                    Some(Ok(None)) => if !seen.beat {
                        r is Heartbeat
                    } else {
                        r is Sleep
                    },
                    Some(Ok(Some(code))) => if !seen.exited {
                        r == (SessionStep::RecordExit { code: ended_code(code) })
                    } else {
                        r == (SessionStep::Finished { code: ended_code(code) })
                    },
                },
            },
        }
    }
}

/// The code an agent's end counts as: that of one a signal ended is 128.
pub open spec fn ended_code(code: Option<i32>) -> i32 {
    match code {
        Some(code) => code,
        None => 128,
    }
}

/// The session wrapper of a planner: register this process, start the agent,
/// register it, heartbeat until it exits, and record its exit code. The agent
/// is waited for through a queue outage: a heartbeat that fails is only noted.
pub fn run_planner_session(seen: &SessionSeen) -> (r: SessionStep)
    ensures
        runs(*seen, r),
{
    if !seen.registered {
        return SessionStep::Register;
    }
    let agent = match &seen.started {
        None => return SessionStep::Start,
        Some(Err(error)) => {
            return SessionStep::GiveUp {
                kill: false,
                wait: false,
                code: 127,
                error: error.clone(),
            };
        },
        Some(Ok(agent)) => *agent,
    };
    match &seen.agent {
        None => return SessionStep::RegisterAgent { agent },
        Some(Err(error)) => {
            return SessionStep::GiveUp { kill: true, wait: true, code: 127, error: error.clone() };
        },
        Some(Ok(_)) => {},
    }
    match &seen.waited {
        None => SessionStep::Poll,
        Some(Err(error)) => SessionStep::GiveUp {
            kill: true,
            wait: false,
            code: 127,
            error: error.clone(),
        },
        Some(Ok(None)) => if !seen.beat {
            SessionStep::Heartbeat
        } else {
            SessionStep::Sleep
        },
        Some(Ok(Some(code))) => {
            let code: i32 = match code {
                Some(code) => *code,
                None => 128,
            };
            if !seen.exited {
                SessionStep::RecordExit { code }
            } else {
                SessionStep::Finished { code }
            }
        },
    }
}

/// The idle marker of a planner's agent.
#[derive(Debug, Clone, Copy, PartialEq, Eq, Structural)]
pub struct IdleProbe {
    /// When it was written, in seconds since the epoch.
    pub since: i64,
    pub background_running: bool,
}

/// What a planner's state is judged from.
#[derive(Debug, Clone, Copy, PartialEq, Eq, Structural)]
pub struct PlannerProbe {
    /// When it was looked at, in seconds since the epoch.
    pub now: i64,
    pub workspace_listed: bool,
    pub wrapper_alive: bool,
    pub idle: Option<IdleProbe>,
    /// Whether the screen shows the agent at work, where it was looked at.
    pub working: Option<bool>,
}

/// What judging a planner has read so far: its workspace, its wrapper, its
/// idle marker, its screen, and the state those come to.
#[derive(Default)]
pub struct PlannerProbes {
    /// When it is looked at, in seconds since the epoch.
    pub now: i64,
    pub listed: Option<bool>,
    pub wrapper_alive: Option<bool>,
    pub marker: Option<Option<IdleProbe>>,
    /// Whether the screen shows the agent at work; `Some(None)` where it could
    /// not be read.
    pub working: Option<Option<bool>>,
    /// The state, and whether a planner in it is alive.
    pub state: Option<(PlannerState, bool)>,
}

/// A planner with how it stands now: its state, whether it is alive, and since
/// when its agent is idle, while the state is idle.
pub struct PlannerView {
    pub planner: PlannerSession,
    pub state: PlannerState,
    pub alive: bool,
    pub idle_since: Option<i64>,
    pub dir: String,
}

/// What judging a planner reads next, or the view it came to.
pub enum ViewStep {
    Listed { workspace: String },
    WrapperAlive { pid: u32 },
    Marker { dir: String },
    Screen { workspace: String },
    /// The state these come to.
    Judge(PlannerProbe),
    View(PlannerView),
}

/// The probe of a planner once everything that is looked at was read.
pub open spec fn probe_of(planner: PlannerSession, probes: PlannerProbes) -> PlannerProbe {
    if planner.closed_at is Some {
        PlannerProbe {
            now: probes.now,
            workspace_listed: false,
            wrapper_alive: false,
            idle: None,
            working: None,
        }
    } else {
        let listed = planner.workspace_id is Some && probes.listed == Some(true);
        let idle = match probes.marker {
            Some(idle) => idle,
            None => None,
        };
        PlannerProbe {
            now: probes.now,
            workspace_listed: listed,
            wrapper_alive: planner.wrapper_pid is Some && probes.wrapper_alive == Some(true),
            idle,
            working: if idle is Some && listed {
                match probes.working {
                    Some(working) => working,
                    None => None,
                }
            } else {
                None
            },
        }
    }
}

/// What judging a planner comes to.
pub open spec fn judges(
    planners_dir: Seq<char>,
    planner: PlannerSession,
    probes: PlannerProbes,
    r: ViewStep,
) -> bool {
    let open = planner.closed_at is None;
    let dir = path::under(planners_dir, text::signed(planner.id as int));
    let probe = probe_of(planner, probes);
    if open && planner.workspace_id is Some && probes.listed is None {
        r == (ViewStep::Listed { workspace: planner.workspace_id->0 })
    } else if open && planner.wrapper_pid is Some && probes.wrapper_alive is None {
        r == (ViewStep::WrapperAlive { pid: planner.wrapper_pid->0 })
    } else if open && probes.marker is None {
        r matches ViewStep::Marker { dir: at } && at@ == dir
    } else if probe.idle is Some && probe.workspace_listed && probes.working is None {
        r == (ViewStep::Screen { workspace: planner.workspace_id->0 })
    } else if probes.state is None {
        r == ViewStep::Judge(probe)
    } else {
        let (state, alive) = probes.state->0;
        r matches ViewStep::View(view) && {
            &&& view.planner == planner
            &&& view.state == state
            &&& view.alive == alive
            &&& view.idle_since == (match probe.idle {
                Some(idle) => if state == PlannerState::Idle {
                    Some(idle.since)
                } else {
                    None
                },
                None => None,
            })
            &&& view.dir@ == dir
        }
    }
}

/// Judge a planner the way a worker session is judged: its workspace among
/// those listed, its wrapper's process, the idle marker its agent wrote and,
/// with a marker, whether the screen shows the agent at work on a new turn. A
/// closed planner is not looked at.
pub fn planner_view(
    planners_dir: &str,
    planner: &PlannerSession,
    probes: &PlannerProbes,
) -> (r: ViewStep)
    ensures
        judges(planners_dir@, *planner, *probes, r),
{
    let dir = planner_dir(planners_dir, planner.id);
    let mut probe = PlannerProbe {
        now: probes.now,
        workspace_listed: false,
        wrapper_alive: false,
        idle: None,
        working: None,
    };
    if planner.closed_at.is_none() {
        if let Some(workspace) = &planner.workspace_id {
            match probes.listed {
                Some(listed) => {
                    probe.workspace_listed = listed;
                },
                None => return ViewStep::Listed { workspace: workspace.clone() },
            }
        }
        if let Some(pid) = planner.wrapper_pid {
            match probes.wrapper_alive {
                Some(alive) => {
                    probe.wrapper_alive = alive;
                },
                None => return ViewStep::WrapperAlive { pid },
            }
        }
        match probes.marker {
            Some(idle) => {
                probe.idle = idle;
            },
            None => return ViewStep::Marker { dir },
        }
        if probe.idle.is_some() && probe.workspace_listed {
            if let Some(workspace) = &planner.workspace_id {
                match probes.working {
                    Some(working) => {
                        probe.working = working;
                    },
                    None => return ViewStep::Screen { workspace: workspace.clone() },
                }
            }
        }
    }
    let (state, alive) = match probes.state {
        Some(judged) => judged,
        None => return ViewStep::Judge(probe),
    };
    let idle_since = match probe.idle {
        Some(idle) => if state == PlannerState::Idle {
            Some(idle.since)
        } else {
            None
        },
        None => None,
    };
    ViewStep::View(PlannerView { planner: planner.copy(), state, alive, idle_since, dir })
}

/// Everything that judging a planner reads was read.
pub open spec fn judged(
    planners_dir: Seq<char>,
    planner: PlannerSession,
    probes: PlannerProbes,
) -> bool {
    exists|view: PlannerView| #[trigger]
        judges(planners_dir, planner, probes, ViewStep::View(view))
}

/// What judging several planners reads next, for the planner at `index`, or
/// all their views.
pub enum ViewsStep {
    Look { index: usize, step: ViewStep },
    Views(Vec<PlannerView>),
}

/// Judge every planner, each by [`planner_view`], in order. Nothing is
/// written: a planner that only looks closed here is not given up on that
/// evidence.
pub fn planner_views(
    planners_dir: &str,
    planners: &Vec<PlannerSession>,
    probes: &Vec<PlannerProbes>,
) -> (r: ViewsStep)
    requires
        planners@.len() == probes@.len(),
    ensures
        match r {
            ViewsStep::Look { index, step } => {
                &&& index < planners@.len()
                &&& step !is View
                &&& judges(planners_dir@, planners@[index as int], probes@[index as int], step)
                &&& forall|i: int|
                    0 <= i < index ==> #[trigger] judged(planners_dir@, planners@[i], probes@[i])
            },
            ViewsStep::Views(views) => {
                &&& views@.len() == planners@.len()
                &&& forall|i: int|
                    0 <= i < planners@.len() ==> judges(
                        planners_dir@,
                        planners@[i],
                        probes@[i],
                        ViewStep::View(#[trigger] views@[i]),
                    )
            },
        },
{
    let mut out: Vec<PlannerView> = Vec::new();
    let mut i: usize = 0;
    while i < planners.len()
        invariant
            i <= planners@.len(),
            planners@.len() == probes@.len(),
            out@.len() == i,
            forall|j: int|
                0 <= j < i ==> judges(
                    planners_dir@,
                    planners@[j],
                    probes@[j],
                    ViewStep::View(#[trigger] out@[j]),
                ),
        decreases planners@.len() - i,
    {
        match planner_view(planners_dir, &planners[i], &probes[i]) {
            ViewStep::View(view) => {
                out.push(view);
            },
            step => {
                assert forall|j: int| 0 <= j < i implies #[trigger] judged(
                    planners_dir@,
                    planners@[j],
                    probes@[j],
                ) by {
                    assert(judges(
                        planners_dir@,
                        planners@[j],
                        probes@[j],
                        ViewStep::View(out@[j]),
                    ));
                }
                return ViewsStep::Look { index: i, step };
            },
        }
        i += 1;
    }
    ViewsStep::Views(out)
}

/// A planner is recorded before anything is made for it, with who asked for it
/// and the proposal it is about.
pub proof fn a_planner_is_on_record_first(
    launch: PlannerLaunch,
    origin: PlannerOrigin,
    proposal: Option<i64>,
    prompt: Seq<char>,
    seen: OpenSeen,
    r: OpenStep,
)
    requires
        opens(launch, origin, proposal, prompt, seen, r),
    ensures
        seen.planner is None <==> r is Record,
        r matches OpenStep::Record { origin: o, proposal: p } ==> o == origin && p == proposal,
{
}

/// A person's planner is recorded as a person's, and is about no proposal.
pub proof fn a_persons_planner_is_its_own(launch: &PlannerLaunch, seen: &OpenSeen, r: OpenStep)
    requires
        call_ensures(open_person_planner, (launch, seen), r),
    ensures
        r is PersonPrompt <==> seen.prompt is None,
        r matches OpenStep::PersonPrompt { db } ==> db == launch.db,
        r matches OpenStep::Record { origin, proposal } ==> origin == PlannerOrigin::Person
            && proposal is None,
        r is WritePrompt ==> seen.prompt is Some && r->text@ == seen.prompt->0@,
        r !is ShowProposal && r !is ProposalPrompt,
{
}

/// The runtime's planner is recorded as the runtime's, about the proposal,
/// which was shown first; its prompt is built from that proposal and every
/// reason given.
pub proof fn the_runtimes_planner_is_about_its_proposal(
    launch: &PlannerLaunch,
    proposal: i64,
    reasons: &Vec<String>,
    seen: &OpenSeen,
    r: OpenStep,
)
    requires
        call_ensures(open_runtime_planner, (launch, proposal, reasons, seen), r),
    ensures
        r is ShowProposal <==> !seen.proposal_shown,
        r matches OpenStep::ShowProposal { id } ==> id == proposal,
        r is ProposalPrompt <==> seen.proposal_shown && seen.prompt is None,
        r matches OpenStep::ProposalPrompt { db, of, reasons: said } ==> {
            &&& db == launch.db
            &&& of == proposal
            &&& said@.len() == reasons@.len()
            &&& forall|i: int|
                0 <= i < said@.len() ==> (#[trigger] said@[i])@ == reasons@[i]@
        },
        r matches OpenStep::Record { origin, proposal: p } ==> origin == PlannerOrigin::Runtime && p
            == Some(proposal) && seen.proposal_shown,
        r is WritePrompt ==> seen.prompt is Some && r->text@ == seen.prompt->0@,
{
    if let OpenStep::ProposalPrompt { db, of, reasons: said } = r {
        assert(text::views(said@).len() == said@.len());
        assert(text::views(reasons@).len() == reasons@.len());
        assert forall|i: int| 0 <= i < said@.len() implies (#[trigger] said@[i])@
            == reasons@[i]@ by {
            assert(text::views(said@)[i] == text::views(reasons@)[i]);
        }
    }
}

/// The steps of opening a planner come in order, each once what it needs was
/// done: directory, prompt, runner, group, workspace, its record, colour, pill.
pub proof fn a_planner_opens_step_by_step(
    launch: PlannerLaunch,
    planner: PlannerSession,
    prompt: Seq<char>,
    seen: OpenSeen,
    r: OpenStep,
)
    requires
        launches(launch, planner, prompt, seen, r),
        seen.dir_made is Some ==> seen.dir_made->0 is Ok,
        seen.prompt_written is Some ==> seen.prompt_written->0 is Ok,
        seen.runner_copied is Some ==> seen.runner_copied->0 is Ok,
        seen.created is Some ==> seen.created->0 is Ok,
    ensures
        r is MakeDir <==> seen.dir_made is None,
        r is WritePrompt <==> seen.dir_made is Some && seen.prompt_written is None,
        r is CopyRunner <==> seen.dir_made is Some && seen.prompt_written is Some
            && seen.runner_copied is None,
        r is MakeGroup <==> seen.dir_made is Some && seen.prompt_written is Some
            && seen.runner_copied is Some && seen.group is None,
        r is Create <==> seen.dir_made is Some && seen.prompt_written is Some && seen.runner_copied
            is Some && seen.group is Some && seen.created is None,
        r is RecordWorkspace ==> seen.created is Some && !seen.recorded && r->RecordWorkspace_id
            == planner.id && r->RecordWorkspace_workspace == seen.created->0->Ok_0,
        r is SetColor ==> seen.recorded && seen.created is Some && r->SetColor_workspace
            == seen.created->0->Ok_0,
        r is SetPill ==> seen.recorded && seen.created is Some && r->SetPill_workspace
            == seen.created->0->Ok_0 && r->role@ == "planner"@,
        r is Reread ==> seen.recorded && r->Reread_id == planner.id,
        r is Opened ==> seen.recorded && seen.session is Some && r->Opened_0.planner
            == seen.session->0,
        r !is Failed && r !is Close,
        r is WritePrompt ==> r->text@ == prompt,
        r is CopyRunner ==> r->from == launch.runner,
        r is MakeGroup ==> r->external_id == launch.queue_hash && r->MakeGroup_name
            == launch.group_name,
{
}

/// A planner that could not be opened is closed, with the error, before the
/// opening fails with that error; one whose opening went well so far is not.
pub proof fn a_planner_closes_only_when_its_opening_fails(
    launch: PlannerLaunch,
    planner: PlannerSession,
    prompt: Seq<char>,
    seen: OpenSeen,
    r: OpenStep,
)
    requires
        launches(launch, planner, prompt, seen, r),
    ensures
        (r is Close || r is Failed) <==> (seen.dir_made is Some && seen.dir_made->0 is Err) || (
        seen.prompt_written is Some && seen.prompt_written->0 is Err) || (seen.runner_copied is Some
            && seen.runner_copied->0 is Err) || (seen.created is Some && seen.created->0 is Err),
        r is Close ==> !seen.closed && r->Close_id == planner.id,
        r is Failed ==> seen.closed,
        r is Close && (seen.dir_made is Some && seen.dir_made->0 is Ok) && (seen.prompt_written
            is Some && seen.prompt_written->0 is Ok) && (seen.runner_copied is Some
            && seen.runner_copied->0 is Ok) ==> r->Close_error@ == seen.created->0->Err_0@,
        r is Close && (seen.dir_made is Some && seen.dir_made->0 is Ok) && seen.prompt_written
            is Some && seen.prompt_written->0 is Err ==> r->Close_error@
            == seen.prompt_written->0->Err_0@,
{
}

/// A planner's workspace runs the copy of the runner in the planner's own
/// directory, on the queue, for this planner, with its agent and its plugins;
/// its environment says which planner it is and whose.
pub proof fn a_planners_workspace_runs_its_own_session(
    launch: PlannerLaunch,
    planner: PlannerSession,
    seen: OpenSeen,
    r: OpenStep,
)
    requires
        is_create(launch, planner, seen, r),
    ensures
        r is Create,
        r->cwd == launch.repo_root,
        r->argv@.len() == (if launch.plugin_dir is Some {
            10int
        } else {
            8
        }),
        r->argv@[0]@ == path::under(
            path::under(launch.planners_dir@, text::signed(planner.id as int)),
            "runner"@,
        ),
        r->argv@[1]@ == "--db"@ && r->argv@[2]@ == launch.db@,
        r->argv@[3]@ == "planner-session"@,
        r->argv@[4]@ == "--planner"@ && r->argv@[5]@ == text::signed(planner.id as int),
        r->argv@[7]@ == launch.claude@,
        launch.plugin_dir is Some ==> r->argv@[8]@ == "--plugin-dir"@ && r->argv@[9]@
            == launch.plugin_dir->0@,
        variables(r->tags.env@).contains(("DAGQ_PLANNER_ID"@, text::signed(planner.id as int))),
        planner.origin == PlannerOrigin::Person ==> variables(r->tags.env@).contains(
            ("DAGQ_PLANNER_ORIGIN"@, "person"@),
        ) && variables(r->tags.env@).contains(("DAGQ_SESSION_KIND"@, "planner"@)),
        planner.origin == PlannerOrigin::Runtime ==> variables(r->tags.env@).contains(
            ("DAGQ_PLANNER_ORIGIN"@, "runtime"@),
        ) && variables(r->tags.env@).contains(("DAGQ_SESSION_KIND"@, "runtime_planner"@)),
        r->tags.group is Some <==> seen.group is Some && seen.group->0 is Ok,
        seen.group is Some && seen.group->0 is Ok ==> r->tags.group == Some(seen.group->0->Ok_0),
        planner.draft_task_id is None && planner.finding_id is None ==> r->Create_name@
            == seen.title@,
        planner.draft_task_id is Some && planner.finding_id is None ==> r->Create_name@
            == seen.title@ + " - draft task "@ + text::signed(planner.draft_task_id->0 as int),
        planner.draft_task_id is None && planner.finding_id is Some ==> r->Create_name@
            == seen.title@ + " - finding "@ + text::signed(planner.finding_id->0 as int),
{
    let words = text::views(r->argv@);
    assert(words.len() == r->argv@.len());
    assert forall|i: int| 0 <= i < words.len() implies (#[trigger] r->argv@[i])@ == words[i] by {}
    let env = variables(r->tags.env@);
    let n = env.len() as int;
    assert(env[n - 1] == (PLANNER_ID_ENV@, text::signed(planner.id as int)));
    assert(env[n - 2] == (PLANNER_ORIGIN_ENV@, planner.origin.name()));
    assert(env[n - 3].0 == SESSION_KIND_ENV@);
}

/// What went wrong on the side (its group, its colour, its pill) is warned of,
/// each once and in that order, and stops nothing.
pub proof fn side_failures_are_warned_of(launch: PlannerLaunch, seen: OpenSeen)
    ensures
        warnings_of(launch, seen).len() == (if seen.group is Some && seen.group->0 is Err {
            1int
        } else {
            0
        }) + (if seen.color is Some && seen.color->0 is Some {
            1int
        } else {
            0
        }) + (if seen.pill is Some && seen.pill->0 is Some {
            1int
        } else {
            0
        }),
{
}

/// A planner's session is registered before its agent starts, and the agent
/// before it is waited for; while it runs it beats; it finishes with the
/// agent's own exit code, once that was recorded.
pub proof fn a_session_ends_with_its_agents_code(seen: SessionSeen, r: SessionStep)
    requires
        runs(seen, r),
    ensures
        r is Register <==> !seen.registered,
        r is Start ==> seen.registered && seen.started is None,
        r matches SessionStep::RegisterAgent { agent } ==> seen.started == Some(
            Ok::<u32, String>(agent),
        ) && seen.agent is None,
        r is Heartbeat ==> seen.waited is Some && !seen.beat,
        r is Sleep ==> seen.beat,
        r matches SessionStep::RecordExit { code } ==> !seen.exited && seen.waited is Some
            && seen.waited->0 is Ok && seen.waited->0->Ok_0 is Some && (
        seen.waited->0->Ok_0->0 is Some ==> code == seen.waited->0->Ok_0->0->0) && (
        seen.waited->0->Ok_0->0 is None ==> code == 128),
        r matches SessionStep::Finished { code } ==> seen.exited && seen.waited is Some
            && seen.waited->0 is Ok && seen.waited->0->Ok_0 is Some && (
        seen.waited->0->Ok_0->0 is Some ==> code == seen.waited->0->Ok_0->0->0) && (
        seen.waited->0->Ok_0->0 is None ==> code == 128),
        r matches SessionStep::GiveUp { kill, wait, code, error } ==> {
            &&& code == 127
            &&& kill <==> seen.started is Some && seen.started->0 is Ok
            &&& wait <==> kill && seen.agent is Some && seen.agent->0 is Err
            &&& seen.started is Some
            &&& seen.started->0 is Err ==> error == seen.started->0->Err_0
        },
        seen.registered && seen.started is Some && seen.started->0 is Err ==> r is GiveUp,
        seen.registered && seen.started is Some && seen.started->0 is Ok && seen.agent is Some
            && seen.agent->0 is Err ==> r is GiveUp,
        seen.registered && seen.started is Some && seen.started->0 is Ok && seen.agent is Some
            && seen.agent->0 is Ok && seen.waited is Some && seen.waited->0 is Ok
            && seen.waited->0->Ok_0 is Some ==> r is RecordExit || r is Finished,
{
}

/// A planner is judged by what was seen of it: its workspace counts as there
/// only where it has one that was listed, its wrapper as alive only where it has
/// one that lives, and it is looked at for work only while it says it is idle;
/// one that is closed is not looked at.
pub proof fn a_planner_is_judged_by_what_was_seen(
    planners_dir: Seq<char>,
    planner: PlannerSession,
    probes: PlannerProbes,
    r: ViewStep,
)
    requires
        judges(planners_dir, planner, probes, r),
    ensures
        r matches ViewStep::Judge(probe) ==> {
            &&& probe.now == probes.now
            &&& probe.workspace_listed <==> planner.closed_at is None && planner.workspace_id is Some
                && probes.listed is Some && probes.listed->0
            &&& probe.wrapper_alive <==> planner.closed_at is None && planner.wrapper_pid is Some
                && probes.wrapper_alive is Some && probes.wrapper_alive->0
            &&& planner.closed_at is Some ==> probe.idle is None && probe.working is None
            &&& planner.closed_at is None && probes.marker is Some ==> probe.idle
                == probes.marker->0
            &&& probe.working is Some ==> probe.idle is Some && probe.workspace_listed
        },
        planner.closed_at is Some ==> r is Judge || r is View,
        r matches ViewStep::Listed { workspace } ==> planner.workspace_id == Some(workspace)
            && probes.listed is None && planner.closed_at is None,
        r matches ViewStep::WrapperAlive { pid } ==> planner.wrapper_pid == Some(pid)
            && probes.wrapper_alive is None && planner.closed_at is None,
        r matches ViewStep::Screen { workspace } ==> planner.workspace_id == Some(workspace)
            && probes.listed is Some && probes.listed->0 && probes.marker is Some
            && probes.marker->0 is Some && probes.working is None,
        r matches ViewStep::View(view) ==> {
            &&& view.planner == planner
            &&& probes.state is Some
            &&& view.state == (probes.state->0).0 && view.alive == (probes.state->0).1
            &&& view.idle_since is Some ==> view.state == PlannerState::Idle && probes.marker is Some
                && probes.marker->0 is Some && view.idle_since == Some(probes.marker->0->0.since)
            &&& view.state == PlannerState::Idle && planner.closed_at is None && probes.marker
                is Some && probes.marker->0 is Some ==> view.idle_since is Some
        },
{
}

/// The views are those of all the planners, each in its place.
pub proof fn every_planner_has_its_view(
    planners_dir: &str,
    planners: &Vec<PlannerSession>,
    probes: &Vec<PlannerProbes>,
    r: ViewsStep,
)
    requires
        call_ensures(planner_views, (planners_dir, planners, probes), r),
    ensures
        r matches ViewsStep::Views(views) ==> {
            &&& views@.len() == planners@.len()
            &&& forall|i: int|
                0 <= i < views@.len() ==> (#[trigger] views@[i]).planner == planners@[i]
                    && probes@[i].state is Some && views@[i].state == (probes@[i].state->0).0
        },
        r matches ViewsStep::Look { index, step } ==> index < planners@.len() && step !is View,
{
}

/// A planner's directory stands under that of the planners, named by its number.
pub proof fn a_planners_dir_is_named_by_its_number(planners_dir: &str, id: i64, r: String)
    requires
        call_ensures(planner_dir, (planners_dir, id), r),
    ensures
        r@ == path::under(planners_dir@, text::signed(id as int)),
{
}

} // verus!
