//! `up`: the cold start of a queue's runtime.

use crate::domain::{is_stale, Agent, RunStatus};
use crate::integrate::begin::LeaseLook;
use crate::json;
use crate::json::{Fields, Json};
use crate::lifecycle::agent::{RepositoryPaths, SupervisorMode};
use crate::lifecycle::supervisors;
use crate::lifecycle::supervisors::SupervisorRegistration;
use crate::path;
use crate::text;
use vstd::prelude::*;
use vstd::string::*;

verus! {

/// What `up` says when the agent has not trusted the repository.
pub open spec fn untrusted_hint(agent: Agent, root: Seq<char>, config: Option<Seq<char>>) -> Seq<
    char,
> {
    agent.product@ + " has not trusted the repository "@ + root
        + ", so every run session would stop at its folder trust dialog (run worktrees take their trust from the repository root). Start `"@
        + agent.program@ + "` once in "@ + root
        + " and accept \"Yes, I trust this folder\", then run `up` again; "@ + (match config {
        Some(config) => config,
        None => "~/."@ + agent.program@ + ".json"@,
    }) + " must then record projects[\""@ + root + "\"].hasTrustDialogAccepted = true"@
}

/// What `up` says when the agent has not trusted the repository: every run
/// session would stop at the folder trust dialog, since run worktrees take
/// their trust from the repository root.
pub fn untrusted_repository_hint(agent: &Agent, root: &str, config: &Option<String>) -> (r: String)
    ensures
        r@ == untrusted_hint(*agent, root@, text::opt_view(*config)),
{
    let config = match config {
        Some(config) => config.clone(),
        None => "~/.".to_owned().concat(agent.program.as_str()).concat(".json"),
    };
    agent.product.clone().concat(" has not trusted the repository ").concat(root).concat(
        ", so every run session would stop at its folder trust dialog (run worktrees take their trust from the repository root). Start `",
    ).concat(agent.program.as_str()).concat("` once in ").concat(root).concat(
        " and accept \"Yes, I trust this folder\", then run `up` again; ",
    ).concat(config.as_str()).concat(" must then record projects[\"").concat(root).concat(
        "\"].hasTrustDialogAccepted = true",
    )
}

/// Where the agent keeps the trust of a repository: its main checkout, even
/// for a linked worktree.
pub open spec fn trusted_at(repository: RepositoryPaths) -> Seq<char> {
    if path::file_name_of(repository.common_dir@) == Some(".git"@) {
        match path::parent_of(repository.common_dir@) {
            Some(parent) => parent,
            None => repository.root@,
        }
    } else {
        repository.root@
    }
}

/// Where the agent keeps the trust of the repository.
pub fn trust_root(repository: &RepositoryPaths) -> (r: String)
    ensures
        r@ == trusted_at(*repository),
{
    let name = path::file_name(repository.common_dir.as_str());
    if text::is_text(&name, ".git") {
        if let Some(parent) = path::parent(repository.common_dir.as_str()) {
            return parent;
        }
    }
    repository.root.clone()
}

/// What is added to an error of asking cmux from outside its terminals: only a
/// refusal has the password (or `--in-cmux`) as its remedy.
pub fn prove_detached_cmux(refused: bool) -> (r: &'static str)
    ensures
        r@ == (if refused {
            "cmux refused a connection from outside its own terminals, so the supervisor launchd starts could not reach it. Either save a socket password in cmux Settings (its CLI uses it on its own), or export CMUX_SOCKET_PASSWORD before `up` (it is then written into the LaunchAgent); or run `up --in-cmux`, which starts the supervisor inside a cmux workspace without launchd and without any automatic restart"@
        } else {
            "cmux could not be asked whether it admits a connection from outside its own terminals"@
        }),
{
    if refused {
        "cmux refused a connection from outside its own terminals, so the supervisor launchd starts could not reach it. Either save a socket password in cmux Settings (its CLI uses it on its own), or export CMUX_SOCKET_PASSWORD before `up` (it is then written into the LaunchAgent); or run `up --in-cmux`, which starts the supervisor inside a cmux workspace without launchd and without any automatic restart"
    } else {
        "cmux could not be asked whether it admits a connection from outside its own terminals"
    }
}

/// The place at or after `from` of the first registration that is new and
/// live.
pub open spec fn started_from(
    all: Seq<SupervisorRegistration>,
    existing: Seq<Seq<char>>,
    now: int,
    timeout: int,
    from: int,
) -> Option<int>
    decreases all.len() - from,
{
    if from < 0 || from >= all.len() {
        None
    } else if !existing.contains(all[from].token@) && supervisors::is_fresh(
        all[from],
        now,
        timeout,
    ) {
        Some(from)
    } else {
        started_from(all, existing, now, timeout, from + 1)
    }
}

/// The registration the supervisor `up` has just started writes for itself, if
/// it is there. Tokens in `existing` were registered when `up` looked, so they
/// belong to another process: one of them may start heartbeating again
/// meanwhile, and taking it for the new one would stamp this start's mode and
/// workspace onto a supervisor that never ran in it.
pub fn wait_for_registration(
    all: &Vec<SupervisorRegistration>,
    existing: &Vec<String>,
    now: i64,
    timeout: i64,
) -> (r: Option<usize>)
    ensures
        match r {
            Some(i) => i < all@.len() && started_from(
                all@,
                text::views(existing@),
                now as int,
                timeout as int,
                0,
            ) == Some(i as int),
            None => started_from(
                all@,
                text::views(existing@),
                now as int,
                timeout as int,
                0,
            ) is None,
        },
{
    let mut i: usize = 0;
    while i < all.len()
        invariant
            i <= all@.len(),
            started_from(all@, text::views(existing@), now as int, timeout as int, 0)
                == started_from(
                all@,
                text::views(existing@),
                now as int,
                timeout as int,
                i as int,
            ),
        decreases all@.len() - i,
    {
        if !text::lists(existing, all[i].token.as_str()) && supervisors::fresh(
            &all[i],
            now,
            timeout,
        ) {
            return Some(i);
        }
        i += 1;
    }
    None
}

/// A supervisor that was registered before a start is never taken for the
/// started one.
pub proof fn started_is_new(
    all: Seq<SupervisorRegistration>,
    existing: Seq<Seq<char>>,
    now: int,
    timeout: int,
    from: int,
)
    requires
        from >= 0,
        started_from(all, existing, now, timeout, from) is Some,
    ensures
        ({
            let i = started_from(all, existing, now, timeout, from)->0;
            &&& from <= i < all.len()
            &&& !existing.contains(all[i].token@)
            &&& supervisors::is_fresh(all[i], now, timeout)
        }),
    decreases all.len() - from,
{
    if from < all.len() && !(!existing.contains(all[from].token@) && supervisors::is_fresh(
        all[from],
        now,
        timeout,
    )) {
        started_is_new(all, existing, now, timeout, from + 1);
    }
}

/// What has been done and observed of a start so far.
#[derive(Default)]
pub struct StartSeen {
    /// The queue's recorded supervisor workspace, where it is still open.
    pub recorded: Option<Option<String>>,
    pub detached_proven: bool,
    /// The agent is written and loaded.
    pub installed: bool,
    /// The workspace the supervisor was started in.
    pub created: Option<String>,
    pub recorded_created: bool,
    /// The registrations as they were last read, and when.
    pub registered: Option<Vec<SupervisorRegistration>>,
    pub now: i64,
    /// The supervisor took too long to register.
    pub overdue: bool,
    pub mode_set: bool,
}

/// What a start does or looks at next, or what it came to.
pub enum StartStep {
    RecordedWorkspace,
    ProveDetached,
    InstallAgent,
    CreateWorkspace,
    RecordWorkspace { id: String },
    Registrations,
    Wait,
    SetMode { token: String, mode: SupervisorMode, workspace: Option<String> },
    Refused(String),
    Started(Json),
}

/// What a start is made with.
pub struct StartInputs {
    pub in_cmux: bool,
    pub existing: Vec<String>,
    pub heartbeat_timeout: i64,
    pub startup_timeout: u64,
    pub version: String,
    /// The name of the workspace the supervisor is started in.
    pub name: String,
    /// The agent's plist and log, and the queue's log directory.
    pub plist: String,
    pub log: String,
    pub log_dir: String,
}

/// The registration of the supervisor that was started, where it is there.
pub open spec fn found_started(inputs: StartInputs, seen: StartSeen) -> Option<int> {
    started_from(
        seen.registered->0@,
        text::views(inputs.existing@),
        seen.now as int,
        inputs.heartbeat_timeout as int,
        0,
    )
}

/// Why a start in cmux is refused by a workspace that is still open.
pub open spec fn still_open_message(id: Seq<char>) -> Seq<char> {
    "cmux workspace "@ + id
        + ", recorded as this queue's supervisor workspace, is still open but no supervisor of this queue is registered and heartbeating; read its screen, then close it (`cmux workspace close "@
        + id + "`) and run `up --in-cmux` again"@
}

/// Why a supervisor that did not register in time is given up.
pub open spec fn unregistered_message(inputs: StartInputs, seen: StartSeen) -> Seq<char> {
    let late = "supervisor did not register within "@ + text::decimal(
        inputs.startup_timeout as nat,
    ) + "s; "@;
    (if inputs.in_cmux {
        late + "read workspace "@ + seen.created->0@ + " ("@ + text::debug_of(inputs.name@)
            + ") and close it before trying again"@
    } else {
        late + "see "@ + inputs.log@
    }) + ": no live supervisor registration"@
}

/// The report of a supervisor that was started.
pub open spec fn started_value(
    inputs: StartInputs,
    r: SupervisorRegistration,
    created: Option<Seq<char>>,
) -> json::Value {
    let base = json::none().push(("outcome"@, json::Value::Text("started"@))).push(
        (
            "mode"@,
            json::Value::Text(
                if inputs.in_cmux {
                    SupervisorMode::InCmux.name()
                } else {
                    SupervisorMode::Launchd.name()
                },
            ),
        ),
    ).push(("version"@, json::Value::Text(inputs.version@))).push(
        ("pid"@, json::Value::Int(r.pid as int)),
    ).push(("token"@, json::Value::Text(r.token@)));
    json::Value::Object(
        if inputs.in_cmux {
            base.push(("workspace_id"@, json::text_or_null(created))).push(
                ("name"@, json::Value::Text(inputs.name@)),
            ).push(("plist"@, json::Value::Null)).push(
                ("log_dir"@, json::Value::Text(inputs.log_dir@)),
            )
        } else {
            base.push(("workspace_id"@, json::Value::Null)).push(
                ("plist"@, json::Value::Text(inputs.plist@)),
            ).push(("log_dir"@, json::Value::Text(inputs.log_dir@)))
        },
    )
}

/// What a start comes to once its process was launched.
pub open spec fn settles(inputs: StartInputs, seen: StartSeen, r: StartStep) -> bool {
    if seen.registered is None {
        r is Registrations
    } else {
        match found_started(inputs, seen) {
            None => if seen.overdue {
                r matches StartStep::Refused(why) && why@ == unregistered_message(inputs, seen)
            } else {
                r is Wait
            },
            Some(i) => {
                let new = seen.registered->0@[i];
                if !seen.mode_set {
                    r matches StartStep::SetMode { token, mode, workspace } && token == new.token
                        && (if inputs.in_cmux {
                        mode == SupervisorMode::InCmux && workspace == seen.created
                    } else {
                        mode == SupervisorMode::Launchd && workspace is None
                    })
                } else {
                    r matches StartStep::Started(report) && report@ == started_value(
                        inputs,
                        new,
                        text::opt_view(seen.created),
                    )
                }
            },
        }
    }
}

/// What a start comes to with what has been done and observed.
pub open spec fn starts(inputs: StartInputs, seen: StartSeen, r: StartStep) -> bool {
    if inputs.in_cmux {
        if seen.created is None && seen.recorded is None {
            r is RecordedWorkspace
        } else if seen.created is None && seen.recorded->0 is Some {
            r matches StartStep::Refused(why) && why@ == still_open_message(
                seen.recorded->0->0@,
            )
        } else if seen.created is None {
            r is CreateWorkspace
        } else if !seen.recorded_created {
            r == (StartStep::RecordWorkspace { id: seen.created->0 })
        } else {
            settles(inputs, seen, r)
        }
    } else if !seen.detached_proven {
        r is ProveDetached
    } else if !seen.installed {
        r is InstallAgent
    } else {
        settles(inputs, seen, r)
    }
}

/// Wait for the started supervisor's registration, and record its mode.
fn settle(inputs: &StartInputs, seen: &StartSeen) -> (r: StartStep)
    requires
        inputs.in_cmux ==> seen.created is Some,
    ensures
        settles(*inputs, *seen, r),
{
    let registered = match &seen.registered {
        Some(registered) => registered,
        None => return StartStep::Registrations,
    };
    let found = wait_for_registration(
        registered,
        &inputs.existing,
        seen.now,
        inputs.heartbeat_timeout,
    );
    let place = match found {
        Some(place) => place,
        None => {
            if !seen.overdue {
                return StartStep::Wait;
            }
            let secs = text::number(inputs.startup_timeout);
            let late = "supervisor did not register within ".to_owned().concat(
                secs.as_str(),
            ).concat("s; ");
            let why = match &seen.created {
                Some(id) if inputs.in_cmux => {
                    let quoted = text::debug_text(inputs.name.as_str());
                    late.concat("read workspace ").concat(id.as_str()).concat(" (").concat(
                        quoted.as_str(),
                    ).concat(") and close it before trying again")
                },
                _ => late.concat("see ").concat(inputs.log.as_str()),
            };
            return StartStep::Refused(why.concat(": no live supervisor registration"));
        },
    };
    let new = &registered[place];
    if !seen.mode_set {
        return if inputs.in_cmux {
            StartStep::SetMode {
                token: new.token.clone(),
                mode: SupervisorMode::InCmux,
                workspace: crate::domain::same_text(&seen.created),
            }
        } else {
            StartStep::SetMode {
                token: new.token.clone(),
                mode: SupervisorMode::Launchd,
                workspace: None,
            }
        };
    }
    let mode = if inputs.in_cmux {
        SupervisorMode::InCmux
    } else {
        SupervisorMode::Launchd
    };
    let fields = Fields::new().text("outcome", "started").text("mode", mode.as_str()).text(
        "version",
        inputs.version.as_str(),
    ).number("pid", new.pid as i128).text("token", new.token.as_str());
    let report = if inputs.in_cmux {
        fields.opt_text("workspace_id", &seen.created).text("name", inputs.name.as_str()).with(
            "plist",
            Json::Null,
        ).text("log_dir", inputs.log_dir.as_str()).done()
    } else {
        fields.with("workspace_id", Json::Null).text("plist", inputs.plist.as_str()).text(
            "log_dir",
            inputs.log_dir.as_str(),
        ).done()
    };
    StartStep::Started(report)
}

/// Write and load the launchd agent, after it is proven that cmux admits a
/// process carrying its environment: the agent would otherwise be restarted
/// over and over without being able to work.
pub fn start_under_launchd(inputs: &StartInputs, seen: &StartSeen) -> (r: StartStep)
    requires
        !inputs.in_cmux,
    ensures
        starts(*inputs, *seen, r),
{
    if !seen.detached_proven {
        return StartStep::ProveDetached;
    }
    if !seen.installed {
        return StartStep::InstallAgent;
    }
    settle(inputs, seen)
}

/// Run `supervise` inside its own cmux workspace: launchd is not touched, and
/// nothing restarts it. A workspace that is still open from before is a
/// person's to close. The new one is recorded before the wait, so a
/// supervisor that never registers still leaves its workspace where the next
/// `up` finds it.
pub fn start_in_cmux(inputs: &StartInputs, seen: &StartSeen) -> (r: StartStep)
    requires
        inputs.in_cmux,
    ensures
        starts(*inputs, *seen, r),
{
    let created = match &seen.created {
        Some(created) => created,
        None => {
            return match &seen.recorded {
                None => StartStep::RecordedWorkspace,
                Some(Some(id)) => StartStep::Refused(
                    "cmux workspace ".to_owned().concat(id.as_str()).concat(
                        ", recorded as this queue's supervisor workspace, is still open but no supervisor of this queue is registered and heartbeating; read its screen, then close it (`cmux workspace close ",
                    ).concat(id.as_str()).concat("`) and run `up --in-cmux` again"),
                ),
                Some(None) => StartStep::CreateWorkspace,
            };
        },
    };
    if !seen.recorded_created {
        return StartStep::RecordWorkspace { id: created.clone() };
    }
    settle(inputs, seen)
}

/// Start one supervisor in the mode this `up` was asked for. The mode of a
/// supervisor being replaced does not decide it.
pub fn start_supervisor(inputs: &StartInputs, seen: &StartSeen) -> (r: StartStep)
    ensures
        starts(*inputs, *seen, r),
{
    if inputs.in_cmux {
        start_in_cmux(inputs, seen)
    } else {
        start_under_launchd(inputs, seen)
    }
}

/// An unfinished run, as `up` reports it.
pub struct OpenRun {
    pub run_id: String,
    pub task_id: i64,
    pub status: RunStatus,
    pub lease: Option<LeaseLook>,
}

/// A run that waits, as `up` reports it.
pub struct WaitingRun {
    pub run_id: String,
    pub task_id: i64,
    pub last_error: Option<String>,
}

/// An unfinished run, as `up` reports it: whether its lease still has a live,
/// heartbeating owner.
pub open spec fn open_run_value(run: OpenRun, timeout: int) -> json::Value {
    json::Value::Object(
        json::none().push(("run_id"@, json::Value::Text(run.run_id@))).push(
            ("task_id"@, json::Value::Int(run.task_id as int)),
        ).push(("status"@, json::Value::Text(run.status.name()))).push(
            (
                "lease_stale"@,
                match run.lease {
                    Some(lease) => json::Value::Bool(
                        is_stale(lease.alive, lease.age as int, timeout),
                    ),
                    None => json::Value::Null,
                },
            ),
        ),
    )
}

/// A run that waits, as `up` reports it.
pub open spec fn waiting_run_value(run: WaitingRun) -> json::Value {
    json::Value::Object(
        json::none().push(("run_id"@, json::Value::Text(run.run_id@))).push(
            ("task_id"@, json::Value::Int(run.task_id as int)),
        ).push(("last_error"@, json::text_or_null(text::opt_view(run.last_error)))),
    )
}

/// The runs that wait.
fn waiting_list(runs: &Vec<WaitingRun>) -> (r: Vec<Json>)
    ensures
        json::items_view(r@) == runs@.map_values(|run: WaitingRun| waiting_run_value(run)),
{
    let mut out: Vec<Json> = Vec::new();
    let ghost all = runs@.map_values(|run: WaitingRun| waiting_run_value(run));
    let mut i: usize = 0;
    while i < runs.len()
        invariant
            i <= runs@.len(),
            all == runs@.map_values(|run: WaitingRun| waiting_run_value(run)),
            json::items_view(out@) == all.take(i as int),
        decreases runs@.len() - i,
    {
        let ghost had = out@;
        let item = Fields::new().text("run_id", runs[i].run_id.as_str()).number(
            "task_id",
            runs[i].task_id as i128,
        ).opt_text("last_error", &runs[i].last_error).done();
        out.push(item);
        assert(out@.drop_last() =~= had);
        assert(all.take(i + 1) =~= all.take(i as int).push(all[i as int]));
        i += 1;
    }
    assert(all.take(i as int) =~= all);
    out
}

/// What a person looks at first after `up`: unfinished runs with whether their
/// lease still has a live, heartbeating owner, and the runs that wait for
/// review or a resumed session.
pub fn open_work(
    unfinished: &Vec<OpenRun>,
    awaiting: &Vec<WaitingRun>,
    parked: &Vec<WaitingRun>,
    timeout: i64,
) -> (r: Json)
    ensures
        r@ == json::Value::Object(
            json::none().push(
                (
                    "unfinished_runs"@,
                    json::Value::List(
                        unfinished@.map_values(
                            |run: OpenRun| open_run_value(run, timeout as int),
                        ),
                    ),
                ),
            ).push(
                (
                    "awaiting_integration"@,
                    json::Value::List(
                        awaiting@.map_values(|run: WaitingRun| waiting_run_value(run)),
                    ),
                ),
            ).push(
                (
                    "needs_session"@,
                    json::Value::List(
                        parked@.map_values(|run: WaitingRun| waiting_run_value(run)),
                    ),
                ),
            ),
        ),
{
    let mut out: Vec<Json> = Vec::new();
    let ghost all = unfinished@.map_values(|run: OpenRun| open_run_value(run, timeout as int));
    let mut i: usize = 0;
    while i < unfinished.len()
        invariant
            i <= unfinished@.len(),
            all == unfinished@.map_values(|run: OpenRun| open_run_value(run, timeout as int)),
            json::items_view(out@) == all.take(i as int),
        decreases unfinished@.len() - i,
    {
        let ghost had = out@;
        let run = &unfinished[i];
        let stale = match run.lease {
            Some(lease) => Json::Bool(
                crate::domain::heartbeat_stale(lease.alive, lease.age, timeout),
            ),
            None => Json::Null,
        };
        let item = Fields::new().text("run_id", run.run_id.as_str()).number(
            "task_id",
            run.task_id as i128,
        ).text("status", run.status.as_str()).with("lease_stale", stale).done();
        out.push(item);
        assert(out@.drop_last() =~= had);
        assert(all.take(i + 1) =~= all.take(i as int).push(all[i as int]));
        i += 1;
    }
    assert(all.take(i as int) =~= all);
    Fields::new().with("unfinished_runs", Json::List(out)).with(
        "awaiting_integration",
        Json::List(waiting_list(awaiting)),
    ).with("needs_session", Json::List(waiting_list(parked))).done()
}

/// A repository's trust is read where its git directory lies: a worktree takes
/// it from the repository it belongs to.
pub proof fn trust_is_the_repositorys(repository: &RepositoryPaths, r: String)
    requires
        call_ensures(trust_root, (repository,), r),
    ensures
        path::file_name_of(repository.common_dir@) == Some(".git"@) && path::parent_of(
            repository.common_dir@,
        ) is Some ==> r@ == path::parent_of(repository.common_dir@)->0,
        path::file_name_of(repository.common_dir@) != Some(".git"@) ==> r@ == repository.root@,
        path::parent_of(repository.common_dir@) is None ==> r@ == repository.root@,
{
}

/// The hint names the repository that is not trusted, and the file that must
/// record the trust.
pub proof fn the_hint_names_the_repository(
    agent: &Agent,
    root: &str,
    config: &Option<String>,
    r: String,
)
    requires
        call_ensures(untrusted_repository_hint, (agent, root, config), r),
    ensures
        text::has_prefix(
            r@,
            agent.product@ + " has not trusted the repository "@ + root@,
        ),
        text::has_suffix(
            r@,
            " must then record projects[\""@ + root@ + "\"].hasTrustDialogAccepted = true"@,
        ),
{
    let head = agent.product@ + " has not trusted the repository "@ + root@;
    let tail = " must then record projects[\""@ + root@ + "\"].hasTrustDialogAccepted = true"@;
    assert(r@.subrange(0, head.len() as int) =~= head);
    assert(r@.subrange(r@.len() - tail.len(), r@.len() as int) =~= tail);
}

/// The supervisor that was started is the first live one that was not there
/// before; while there is none, none is taken for it.
pub proof fn the_started_one_is_the_first_new_one(
    all: &Vec<SupervisorRegistration>,
    existing: &Vec<String>,
    now: i64,
    timeout: i64,
    r: Option<usize>,
)
    requires
        call_ensures(wait_for_registration, (all, existing, now, timeout), r),
        timeout < i64::MAX,
    ensures
        r matches Some(i) ==> {
            &&& i < all@.len()
            &&& forall|k: int|
                0 <= k < existing@.len() ==> (#[trigger] existing@[k])@ != all@[i as int].token@
            &&& all@[i as int].alive && now - all@[i as int].heartbeat_at <= timeout
        },
        forall|j: int|
            0 <= j < all@.len() && (r is None || j < r->0) && (#[trigger] all@[j]).alive && now
                - all@[j].heartbeat_at <= timeout ==> exists|k: int|
                0 <= k < existing@.len() && (#[trigger] existing@[k])@ == all@[j].token@,
{
    let tokens = text::views(existing@);
    none_new_before(all@, tokens, now as int, timeout as int, 0);
    if let Some(i) = r {
        started_is_new(all@, tokens, now as int, timeout as int, 0);
        assert forall|k: int| 0 <= k < existing@.len() implies (#[trigger] existing@[k])@
            != all@[i as int].token@ by {
            assert(tokens[k] == existing@[k]@);
        }
    }
    assert forall|j: int|
        0 <= j < all@.len() && (r is None || j < r->0) && (#[trigger] all@[j]).alive && now
            - all@[j].heartbeat_at <= timeout implies exists|k: int|
        0 <= k < existing@.len() && (#[trigger] existing@[k])@ == all@[j].token@ by {
        assert(supervisors::is_fresh(all@[j], now as int, timeout as int));
        let k = choose|k: int| 0 <= k < tokens.len() && tokens[k] == all@[j].token@;
        assert(existing@[k]@ == all@[j].token@);
    }
}

/// None before the one that was found is new and fresh.
proof fn none_new_before(
    all: Seq<SupervisorRegistration>,
    existing: Seq<Seq<char>>,
    now: int,
    timeout: int,
    from: int,
)
    requires
        0 <= from,
    ensures
        forall|j: int|
            from <= j < all.len() && (started_from(all, existing, now, timeout, from) is None || j
                < started_from(all, existing, now, timeout, from)->0) && supervisors::is_fresh(
                #[trigger] all[j],
                now,
                timeout,
            ) ==> existing.contains(all[j].token@),
    decreases all.len() - from,
{
    if from < all.len() && !(!existing.contains(all[from].token@) && supervisors::is_fresh(
        all[from],
        now,
        timeout,
    )) {
        none_new_before(all, existing, now, timeout, from + 1);
    }
}

/// A supervisor in cmux gets a workspace of its own only where none of the
/// queue's is open; the workspace is recorded before the supervisor is waited
/// for.
pub proof fn one_workspace_per_supervisor(inputs: StartInputs, seen: StartSeen, r: StartStep)
    requires
        starts(inputs, seen, r),
        inputs.in_cmux,
    ensures
        r is RecordedWorkspace <==> seen.created is None && seen.recorded is None,
        r is CreateWorkspace <==> seen.created is None && seen.recorded is Some && seen.recorded->0
            is None,
        seen.created is None && seen.recorded is Some && seen.recorded->0 is Some ==> r is Refused,
        r is RecordWorkspace <==> seen.created is Some && !seen.recorded_created,
        r matches StartStep::RecordWorkspace { id } ==> seen.created == Some(id),
        r is Registrations || r is Wait || r is SetMode || r is Started ==> seen.created is Some
            && seen.recorded_created,
        r !is ProveDetached && r !is InstallAgent,
{
}

/// A supervisor under launchd is installed only once a connection from outside
/// cmux's own terminals was proven, and opens no workspace.
pub proof fn launchd_needs_a_detached_connection(
    inputs: StartInputs,
    seen: StartSeen,
    r: StartStep,
)
    requires
        starts(inputs, seen, r),
        !inputs.in_cmux,
    ensures
        r is ProveDetached <==> !seen.detached_proven,
        r is InstallAgent <==> seen.detached_proven && !seen.installed,
        r is Registrations || r is Wait || r is SetMode || r is Started ==> seen.detached_proven
            && seen.installed,
        r !is RecordedWorkspace && r !is CreateWorkspace && r !is RecordWorkspace,
{
}

/// The start ends with the new supervisor's mode set, on its own token, and the
/// report names that supervisor; while none registered, it is waited for until
/// the time is up.
pub proof fn a_start_ends_with_the_new_supervisor(
    inputs: StartInputs,
    seen: StartSeen,
    r: StartStep,
)
    requires
        starts(inputs, seen, r),
        inputs.heartbeat_timeout < i64::MAX,
    ensures
        r is Wait ==> seen.registered is Some && !seen.overdue,
        r is Registrations ==> seen.registered is None,
        r matches StartStep::SetMode { token, mode, workspace } ==> {
            &&& !seen.mode_set
            &&& inputs.in_cmux ==> mode == SupervisorMode::InCmux && workspace == seen.created
            &&& !inputs.in_cmux ==> mode == SupervisorMode::Launchd && workspace is None
            &&& exists|i: int|
                {
                    &&& 0 <= i < seen.registered->0@.len()
                    &&& (#[trigger] seen.registered->0@[i]).token == token
                    &&& seen.registered->0@[i].alive
                    &&& seen.now - seen.registered->0@[i].heartbeat_at <= inputs.heartbeat_timeout
                    &&& forall|k: int|
                        0 <= k < inputs.existing@.len() ==> (#[trigger] inputs.existing@[k])@
                            != token@
                }
        },
        r matches StartStep::Started(report) ==> {
            &&& seen.mode_set
            &&& report@ is Object
            &&& report@->Object_0[0] == ("outcome"@, json::Value::Text("started"@))
            &&& inputs.in_cmux ==> report@->Object_0[1] == ("mode"@, json::Value::Text("in_cmux"@))
            &&& !inputs.in_cmux ==> report@->Object_0[1] == (
                "mode"@,
                json::Value::Text("launchd"@),
            )
            &&& report@->Object_0[2] == ("version"@, json::Value::Text(inputs.version@))
            &&& report@->Object_0.last() == ("log_dir"@, json::Value::Text(inputs.log_dir@))
            &&& exists|i: int|
                {
                    &&& 0 <= i < seen.registered->0@.len()
                    &&& (#[trigger] seen.registered->0@[i]).alive
                    &&& report@->Object_0[3] == (
                        "pid"@,
                        json::Value::Int(seen.registered->0@[i].pid as int),
                    )
                    &&& report@->Object_0[4] == (
                        "token"@,
                        json::Value::Text(seen.registered->0@[i].token@),
                    )
                }
        },
{
    if seen.registered is Some {
        let all = seen.registered->0@;
        let tokens = text::views(inputs.existing@);
        if found_started(inputs, seen) is Some {
            started_is_new(all, tokens, seen.now as int, inputs.heartbeat_timeout as int, 0);
            let i = found_started(inputs, seen)->0;
            assert(all[i].alive);
            assert forall|k: int| 0 <= k < inputs.existing@.len() implies (
            #[trigger] inputs.existing@[k])@ != all[i].token@ by {
                assert(tokens[k] == inputs.existing@[k]@);
            }
        }
    }
}

/// A run is reported with whether its lease is stale: one is where its process
/// is gone or its heartbeat too old, and a run without one has none.
pub proof fn an_open_run_shows_its_lease(run: OpenRun, timeout: int)
    ensures
        ({
            let v = open_run_value(run, timeout);
            &&& v is Object && v->Object_0.len() == 4
            &&& v->Object_0[0] == ("run_id"@, json::Value::Text(run.run_id@))
            &&& v->Object_0[1] == ("task_id"@, json::Value::Int(run.task_id as int))
            &&& v->Object_0[2] == ("status"@, json::Value::Text(run.status.name()))
            &&& v->Object_0[3].0 == "lease_stale"@
            &&& run.lease is None ==> v->Object_0[3].1 is Null
            &&& run.lease is Some && run.lease->0.alive && run.lease->0.age <= timeout
                ==> v->Object_0[3].1 == json::Value::Bool(false)
            &&& run.lease is Some && (!run.lease->0.alive || run.lease->0.age > timeout)
                ==> v->Object_0[3].1 == json::Value::Bool(true)
        }),
{
}

/// The open work lists every run of each kind, in order, each under its own
/// name.
pub proof fn open_work_lists_every_run(
    unfinished: &Vec<OpenRun>,
    awaiting: &Vec<WaitingRun>,
    parked: &Vec<WaitingRun>,
    timeout: i64,
    r: Json,
)
    requires
        call_ensures(open_work, (unfinished, awaiting, parked, timeout), r),
    ensures
        r@ is Object && r@->Object_0.len() == 3,
        r@->Object_0[0].0 == "unfinished_runs"@ && r@->Object_0[0].1 is List,
        r@->Object_0[1].0 == "awaiting_integration"@ && r@->Object_0[1].1 is List,
        r@->Object_0[2].0 == "needs_session"@ && r@->Object_0[2].1 is List,
        r@->Object_0[0].1->List_0.len() == unfinished@.len(),
        r@->Object_0[1].1->List_0.len() == awaiting@.len(),
        r@->Object_0[2].1->List_0.len() == parked@.len(),
        forall|i: int|
            0 <= i < unfinished@.len() ==> (#[trigger] r@->Object_0[0].1->List_0[i]) is Object
                && r@->Object_0[0].1->List_0[i]->Object_0[0] == (
                "run_id"@,
                json::Value::Text(unfinished@[i].run_id@),
            ),
        forall|i: int|
            0 <= i < awaiting@.len() ==> (#[trigger] r@->Object_0[1].1->List_0[i]) is Object
                && r@->Object_0[1].1->List_0[i]->Object_0[0] == (
                "run_id"@,
                json::Value::Text(awaiting@[i].run_id@),
            ),
        forall|i: int|
            0 <= i < parked@.len() ==> (#[trigger] r@->Object_0[2].1->List_0[i]) is Object
                && r@->Object_0[2].1->List_0[i]->Object_0[0] == (
                "run_id"@,
                json::Value::Text(parked@[i].run_id@),
            ),
{
}

/// A refused connection and one that could not be asked about are told apart.
pub proof fn a_refusal_is_not_a_failure(a: &'static str, b: &'static str)
    requires
        call_ensures(prove_detached_cmux, (true,), a),
        call_ensures(prove_detached_cmux, (false,), b),
    ensures
        text::has_prefix(a@, "cmux refused a connection from outside its own terminals"@),
        text::has_prefix(b@, "cmux could not be asked"@),
{
    reveal_strlit(
        "cmux refused a connection from outside its own terminals, so the supervisor launchd starts could not reach it. Either save a socket password in cmux Settings (its CLI uses it on its own), or export CMUX_SOCKET_PASSWORD before `up` (it is then written into the LaunchAgent); or run `up --in-cmux`, which starts the supervisor inside a cmux workspace without launchd and without any automatic restart",
    );
    reveal_strlit("cmux refused a connection from outside its own terminals");
    reveal_strlit(
        "cmux could not be asked whether it admits a connection from outside its own terminals",
    );
    reveal_strlit("cmux could not be asked");
    assert(a@.take("cmux refused a connection from outside its own terminals"@.len() as int)
        =~= "cmux refused a connection from outside its own terminals"@);
    assert(b@.take("cmux could not be asked"@.len() as int) =~= "cmux could not be asked"@);
}

} // verus!
