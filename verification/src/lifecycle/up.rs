//! The order of `up`: its preflight, the supervisor it reuses, hands over,
//! replaces or starts, and its report.

use crate::json;
use crate::json::{Fields, Json};
use crate::lifecycle::agent::{QueuePaths, RepositoryPaths, UpEnvironment, UpOptions};
use crate::lifecycle::start::{trust_root, trusted_at, untrusted_hint, untrusted_repository_hint};
use crate::lifecycle::supervisors;
use crate::lifecycle::supervisors::{
    alive_places, all_accept, at_places, can_hand_over, dead_places, live_places, mode_value,
    none_under_launchd, outdated_from, places, SupervisorRegistration,
};
use crate::text;
use vstd::prelude::*;
use vstd::string::*;

verus! {

/// What has been done and observed of an `up` so far.
#[derive(Default)]
pub struct Seen {
    /// The queue's database, resolved.
    pub db: Option<String>,
    pub repository: Option<RepositoryPaths>,
    pub cmux_ready: bool,
    pub claude_ready: bool,
    /// Whether the agent trusts the repository, where it has a config.
    pub trusted: Option<bool>,
    /// Why the programs of the run environment cannot be run; `Some(None)`
    /// when they can.
    pub programs: Option<Option<String>>,
    /// The plugin directory, resolved, where one is given.
    pub plugin_dir: Option<String>,
    /// The registrations, and when they were read.
    pub registrations: Option<Vec<SupervisorRegistration>>,
    pub now: i64,
    /// The registrations of processes that are gone were dropped.
    pub pruned: bool,
    /// The agent's plist; `Some(None)` where it cannot be read.
    pub plist: Option<Option<String>>,
    /// The supervisor that serves the queue, as it was handed over, replaced
    /// or started.
    pub supervisor: Option<Json>,
    pub auto_updated: bool,
    /// The sessions of retired roles were forgotten, and the inbox is open.
    pub retired: bool,
    pub inbox: bool,
}

/// What an `up` does or looks at next, or what it came to.
pub enum Step {
    ResolveDb,
    InspectRepository,
    PreflightCmux,
    PreflightClaude,
    Trusted { config: String, root: String },
    Programs { root: String, db: String },
    ResolvePlugin { dir: String },
    Registrations,
    /// Drop the registrations at these places.
    Prune { dead: Vec<usize> },
    ReadAgent,
    HandOff { live: Vec<SupervisorRegistration> },
    Replace { live: Vec<SupervisorRegistration> },
    /// Start one; these tokens are of other processes.
    Start { existing: Vec<String> },
    SetAutoUpdate { tokens: Vec<String>, enabled: bool },
    ForgetRetired,
    OpenInbox,
    Refused(String),
    /// Everything is up; the supervisor's report.
    Ready { supervisor: Json },
}

/// What an `up` is made with.
pub struct Inputs {
    pub location: QueuePaths,
    pub environment: UpEnvironment,
    pub options: UpOptions,
    /// This binary's build.
    pub version: String,
    pub heartbeat_timeout: i64,
}

/// Where an `up` stands.
pub ghost enum Stage {
    NoParallel,
    NeedDb,
    NeedRepository,
    NeedCmux,
    NeedClaude,
    NeedTrust,
    Untrusted,
    NeedPrograms,
    ProgramMissing,
    NeedPlugin,
    NeedRegistrations,
    NeedPrune,
    NeedAgent,
    NeedHandOff,
    NeedReplace,
    NeedStart,
    NeedAutoUpdate,
    NeedRetire,
    NeedInbox,
    Ready,
}

/// The live supervisors.
pub open spec fn live_of(inputs: Inputs, seen: Seen) -> Seq<SupervisorRegistration> {
    let all = seen.registrations->0@;
    at_places(
        all,
        live_places(
            all,
            seen.now as int,
            inputs.heartbeat_timeout as int,
            all.len() as int,
        ),
    )
}

/// Whether a live supervisor of this build, and of no other, serves the queue.
pub open spec fn is_reused(inputs: Inputs, seen: Seen) -> bool {
    live_of(inputs, seen).len() > 0 && outdated_from(
        live_of(inputs, seen),
        inputs.version@,
        0,
    ) is None
}

/// Whether the agent's plist decides whether a handoff is possible.
pub open spec fn plist_decides(live: Seq<SupervisorRegistration>) -> bool {
    all_accept(live) && !none_under_launchd(live)
}

/// The plist that was read, if any.
pub open spec fn read_plist(seen: Seen) -> Option<String> {
    match seen.plist {
        Some(plist) => plist,
        None => None,
    }
}

/// Where the `up` stands: the first thing that is to do or wrong, in order.
pub open spec fn stage(inputs: Inputs, seen: Seen) -> Stage {
    if inputs.options.parallel < 1 {
        Stage::NoParallel
    } else if seen.db is None {
        Stage::NeedDb
    } else if seen.repository is None {
        Stage::NeedRepository
    } else if !seen.cmux_ready {
        Stage::NeedCmux
    } else if !seen.claude_ready {
        Stage::NeedClaude
    } else if inputs.environment.claude_config is Some && seen.trusted is None {
        Stage::NeedTrust
    } else if inputs.environment.claude_config is None || !seen.trusted->0 {
        Stage::Untrusted
    } else if seen.programs is None {
        Stage::NeedPrograms
    } else if seen.programs->0 is Some {
        Stage::ProgramMissing
    } else if inputs.options.plugin_dir is Some && seen.plugin_dir is None {
        Stage::NeedPlugin
    } else if seen.registrations is None {
        Stage::NeedRegistrations
    } else if !seen.pruned {
        Stage::NeedPrune
    } else if !is_reused(inputs, seen) && seen.supervisor is None {
        supervisor_stage(inputs, seen)
    } else if !seen.auto_updated {
        Stage::NeedAutoUpdate
    } else if !seen.retired {
        Stage::NeedRetire
    } else if !seen.inbox {
        Stage::NeedInbox
    } else {
        Stage::Ready
    }
}

/// How the queue gets a supervisor of this build.
pub open spec fn supervisor_stage(inputs: Inputs, seen: Seen) -> Stage {
    let live = live_of(inputs, seen);
    if live.len() == 0 {
        Stage::NeedStart
    } else if plist_decides(live) && seen.plist is None {
        Stage::NeedAgent
    } else if can_hand_over(live, inputs.environment.current_exe@, read_plist(seen)) {
        Stage::NeedHandOff
    } else {
        Stage::NeedReplace
    }
}

/// The report of a supervisor that is reused. Whoever started it recorded the
/// mode; `up` claims none for one started by hand.
pub open spec fn reused_value(inputs: Inputs, r: SupervisorRegistration) -> json::Value {
    json::Value::Object(
        json::none().push(("outcome"@, json::Value::Text("reused"@))).push(
            ("mode"@, mode_value(r.mode)),
        ).push(("version"@, json::text_or_null(text::opt_view(r.binary_version)))).push(
            ("pid"@, json::Value::Int(r.pid as int)),
        ).push(("token"@, json::Value::Text(r.token@))).push(
            ("workspace_id"@, json::text_or_null(text::opt_view(r.workspace_id))),
        ).push(("plist"@, json::Value::Text(inputs.location.launch_agent@))).push(
            ("log_dir"@, json::Value::Text(inputs.location.log_dir@)),
        ),
    )
}

/// The report of the supervisor that serves the queue.
pub open spec fn supervisor_value(inputs: Inputs, seen: Seen) -> json::Value {
    match seen.supervisor {
        Some(report) => report@,
        None => reused_value(inputs, live_of(inputs, seen)[0]),
    }
}

/// The tokens of supervisors.
pub open spec fn tokens_of(list: Seq<SupervisorRegistration>) -> Seq<Seq<char>> {
    list.map_values(|r: SupervisorRegistration| r.token@)
}

/// The tokens `--auto-update` is written on: those of the live supervisors
/// `up` reused or handed over, or that of the one it started.
pub open spec fn updated_tokens(
    report: json::Value,
    live: Seq<SupervisorRegistration>,
) -> Seq<Seq<char>> {
    if json::at(report, "outcome"@) == json::Value::Text("reused"@) || json::at(
        report,
        "handoff"@,
    ) == json::Value::Bool(true) {
        tokens_of(live)
    } else {
        match json::text_of(json::at(report, "token"@)) {
            Some(token) => seq![token],
            None => Seq::empty(),
        }
    }
}

/// What the `up` comes to where it stands at `stage`.
pub open spec fn ups(inputs: Inputs, seen: Seen, stage: Stage, r: Step) -> bool {
    let all = seen.registrations->0@;
    let root = trusted_at(seen.repository->0);
    match stage {
        Stage::NoParallel => r matches Step::Refused(why) && why@ == "parallel must be at least 1"@,
        Stage::NeedDb => r is ResolveDb,
        Stage::NeedRepository => r is InspectRepository,
        Stage::NeedCmux => r is PreflightCmux,
        Stage::NeedClaude => r is PreflightClaude,
        Stage::NeedTrust => r matches Step::Trusted { config, root: at } && config
            == inputs.environment.claude_config->0 && at@ == root,
        Stage::Untrusted => r matches Step::Refused(why) && why@ == untrusted_hint(
            inputs.environment.agent,
            root,
            text::opt_view(inputs.environment.claude_config),
        ),
        Stage::NeedPrograms => r matches Step::Programs { root: at, db } && at@ == root && db
            == seen.db->0,
        Stage::ProgramMissing => r matches Step::Refused(why) && why@ == seen.programs->0->0@
            + "; the supervisor was not started"@,
        Stage::NeedPlugin => r == (Step::ResolvePlugin { dir: inputs.options.plugin_dir->0 }),
        Stage::NeedRegistrations => r is Registrations,
        Stage::NeedPrune => r matches Step::Prune { dead } && places(dead@) == dead_places(
            all,
            all.len() as int,
        ),
        Stage::NeedAgent => r is ReadAgent,
        Stage::NeedHandOff => r matches Step::HandOff { live } && live@ == live_of(inputs, seen),
        Stage::NeedReplace => r matches Step::Replace { live } && live@ == live_of(inputs, seen),
        Stage::NeedStart => r matches Step::Start { existing } && text::views(existing@)
            == tokens_of(at_places(all, alive_places(all, all.len() as int))),
        Stage::NeedAutoUpdate => r matches Step::SetAutoUpdate { tokens, enabled } && enabled
            == inputs.options.auto_update && text::views(tokens@) == updated_tokens(
            supervisor_value(inputs, seen),
            live_of(inputs, seen),
        ),
        Stage::NeedRetire => r is ForgetRetired,
        Stage::NeedInbox => r is OpenInbox,
        Stage::Ready => r matches Step::Ready { supervisor } && supervisor@ == json::put(
            supervisor_value(inputs, seen),
            "auto_update"@,
            json::Value::Bool(inputs.options.auto_update),
        ),
    }
}

/// The tokens of supervisors.
fn all_tokens(list: &Vec<SupervisorRegistration>) -> (r: Vec<String>)
    ensures
        text::views(r@) == tokens_of(list@),
{
    let mut out: Vec<String> = Vec::new();
    let mut i: usize = 0;
    while i < list.len()
        invariant
            i <= list@.len(),
            text::views(out@) == tokens_of(list@).take(i as int),
        decreases list@.len() - i,
    {
        let ghost had = text::views(out@);
        out.push(list[i].token.clone());
        assert(text::views(out@) =~= had.push(list@[i as int].token@));
        assert(tokens_of(list@).take(i + 1) =~= tokens_of(list@).take(i as int).push(
            list@[i as int].token@,
        ));
        i += 1;
    }
    assert(tokens_of(list@).take(list@.len() as int) =~= tokens_of(list@));
    out
}

/// The tokens `up`'s `--auto-update` (or its absence) is written on: those of
/// the supervisors it leaves serving the queue.
pub fn set_auto_update(report: &Json, live: &Vec<SupervisorRegistration>) -> (r: Vec<String>)
    ensures
        text::views(r@) == updated_tokens(report@, live@),
{
    if report.says("outcome", "reused") || report.is_true("handoff") {
        return all_tokens(live);
    }
    let mut out: Vec<String> = Vec::new();
    if let Some(token) = report.text("token") {
        let ghost said = token@;
        out.push(token);
        assert(text::views(out@) =~= seq![said]);
    }
    assert(text::views(out@) =~= updated_tokens(report@, live@));
    out
}

/// The report of a supervisor that is reused.
fn reused(inputs: &Inputs, r: &SupervisorRegistration) -> (v: Json)
    ensures
        v@ == reused_value(*inputs, *r),
{
    let fields = supervisors::with_mode(Fields::new().text("outcome", "reused"), r.mode);
    fields.opt_text("version", &r.binary_version).number("pid", r.pid as i128).text(
        "token",
        r.token.as_str(),
    ).opt_text("workspace_id", &r.workspace_id).text(
        "plist",
        inputs.location.launch_agent.as_str(),
    ).text("log_dir", inputs.location.log_dir.as_str()).done()
}

/// Whether the agent's plist decides whether a handoff is possible.
fn needs_plist(live: &Vec<SupervisorRegistration>) -> (r: bool)
    ensures
        r == plist_decides(live@),
{
    let mut launchd = false;
    let mut i: usize = 0;
    while i < live.len()
        invariant
            i <= live@.len(),
            forall|j: int| 0 <= j < i ==> (#[trigger] live@[j]).handoff_accepted,
            launchd <==> exists|j: int|
                0 <= j < i && (#[trigger] live@[j]).mode == Some(
                    crate::lifecycle::agent::SupervisorMode::Launchd,
                ),
        decreases live@.len() - i,
    {
        if !live[i].handoff_accepted {
            return false;
        }
        if let Some(crate::lifecycle::agent::SupervisorMode::Launchd) = live[i].mode {
            launchd = true;
            assert(live@[i as int].mode == Some(
                crate::lifecycle::agent::SupervisorMode::Launchd,
            ));
        }
        i += 1;
    }
    launchd
}

/// Ensure the supervisor and the inbox workspace exist. Preflight first (the
/// queue, the repository, cmux, the agent and its trust of the repository
/// root, the programs of the run environment), then drop registrations whose
/// process is gone, and start a supervisor only when no live registration of
/// this build remains: a live supervisor of any other build would keep
/// serving the queue with the code that was just replaced, so it is handed
/// over or drained and replaced.
pub fn up(inputs: &Inputs, seen: &Seen) -> (r: Step)
    ensures
        ups(*inputs, *seen, stage(*inputs, *seen), r),
{
    if inputs.options.parallel < 1 {
        return Step::Refused("parallel must be at least 1".to_owned());
    }
    let db = match &seen.db {
        Some(db) => db,
        None => return Step::ResolveDb,
    };
    let repository = match &seen.repository {
        Some(repository) => repository,
        None => return Step::InspectRepository,
    };
    if !seen.cmux_ready {
        return Step::PreflightCmux;
    }
    if !seen.claude_ready {
        return Step::PreflightClaude;
    }
    let root = trust_root(repository);
    let trusted = match &inputs.environment.claude_config {
        Some(config) => match seen.trusted {
            Some(trusted) => trusted,
            None => return Step::Trusted { config: config.clone(), root },
        },
        None => false,
    };
    if !trusted {
        return Step::Refused(
            untrusted_repository_hint(
                &inputs.environment.agent,
                root.as_str(),
                &inputs.environment.claude_config,
            ),
        );
    }
    match &seen.programs {
        None => return Step::Programs { root, db: db.clone() },
        Some(Some(message)) => {
            return Step::Refused(message.clone().concat("; the supervisor was not started"));
        },
        Some(None) => {},
    }
    if let Some(dir) = &inputs.options.plugin_dir {
        if seen.plugin_dir.is_none() {
            return Step::ResolvePlugin { dir: dir.clone() };
        }
    }
    let all = match &seen.registrations {
        Some(all) => all,
        None => return Step::Registrations,
    };
    up_supervisor(inputs, seen, all)
}

/// The part of an `up` that starts with the registrations it found.
fn up_supervisor(inputs: &Inputs, seen: &Seen, all: &Vec<SupervisorRegistration>) -> (r: Step)
    requires
        seen.registrations == Some(*all),
        stage(*inputs, *seen) == (if !seen.pruned {
            Stage::NeedPrune
        } else if !is_reused(*inputs, *seen) && seen.supervisor is None {
            supervisor_stage(*inputs, *seen)
        } else if !seen.auto_updated {
            Stage::NeedAutoUpdate
        } else if !seen.retired {
            Stage::NeedRetire
        } else if !seen.inbox {
            Stage::NeedInbox
        } else {
            Stage::Ready
        }),
    ensures
        ups(*inputs, *seen, stage(*inputs, *seen), r),
{
    let sorted = supervisors::sort_out(all, seen.now, inputs.heartbeat_timeout);
    if !seen.pruned {
        return Step::Prune { dead: sorted.dead };
    }
    let live = supervisors::picked(all, &sorted.live);
    let old = supervisors::outdated(&live, inputs.version.as_str());
    let reuse = live.len() > 0 && old.is_none();
    if !reuse && seen.supervisor.is_none() {
        if live.len() == 0 {
            let existing = supervisors::picked(all, &sorted.existing);
            return Step::Start { existing: all_tokens(&existing) };
        }
        if needs_plist(&live) && seen.plist.is_none() {
            return Step::ReadAgent;
        }
        let plist = match &seen.plist {
            Some(plist) => crate::domain::same_text(plist),
            None => None,
        };
        return if supervisors::takes_handoff(
            &live,
            inputs.environment.current_exe.as_str(),
            &plist,
        ) {
            Step::HandOff { live }
        } else {
            Step::Replace { live }
        };
    }
    let report = match &seen.supervisor {
        Some(report) => report.copy(),
        None => reused(inputs, &live[0]),
    };
    if !seen.auto_updated {
        let tokens = set_auto_update(&report, &live);
        return Step::SetAutoUpdate { tokens, enabled: inputs.options.auto_update };
    }
    if !seen.retired {
        return Step::ForgetRetired;
    }
    if !seen.inbox {
        return Step::OpenInbox;
    }
    Step::Ready { supervisor: report.with("auto_update", Json::Bool(inputs.options.auto_update)) }
}

/// A second `up` reuses what the first one started: with a live supervisor of
/// this build and no other, none is started, replaced or handed over.
pub proof fn up_is_idempotent(inputs: Inputs, seen: Seen)
    requires
        seen.registrations is Some,
        is_reused(inputs, seen),
    ensures
        stage(inputs, seen) != Stage::NeedStart,
        stage(inputs, seen) != Stage::NeedReplace,
        stage(inputs, seen) != Stage::NeedHandOff,
{
}

/// Nothing is started before the preflight holds: the repository is trusted
/// and the programs of the run environment can be run.
pub proof fn nothing_starts_before_the_preflight(inputs: Inputs, seen: Seen)
    requires
        stage(inputs, seen) == Stage::NeedStart || stage(inputs, seen) == Stage::NeedReplace
            || stage(inputs, seen) == Stage::NeedHandOff,
    ensures
        inputs.options.parallel >= 1,
        seen.cmux_ready && seen.claude_ready,
        inputs.environment.claude_config is Some && seen.trusted == Some(true),
        seen.programs == Some(None::<String>),
        seen.pruned,
{
}

/// The report of supervisors that were handed over, without a drain.
pub open spec fn handed_over_value(
    inputs: Inputs,
    live: Seq<SupervisorRegistration>,
    replaced: Seq<json::Value>,
) -> json::Value {
    let first = live[0];
    json::Value::Object(
        json::none().push(("outcome"@, json::Value::Text("restarted"@))).push(
            ("handoff"@, json::Value::Bool(true)),
        ).push(("mode"@, mode_value(first.mode))).push(
            ("version"@, json::Value::Text(inputs.version@)),
        ).push(
            (
                "previous_version"@,
                json::text_or_null(supervisors::replaced_version(live, inputs.version@)),
            ),
        ).push(("pid"@, json::Value::Int(first.pid as int))).push(
            ("token"@, json::Value::Text(first.token@)),
        ).push(
            ("workspace_id"@, json::text_or_null(text::opt_view(first.workspace_id))),
        ).push(("plist"@, json::Value::Text(inputs.location.launch_agent@))).push(
            ("log_dir"@, json::Value::Text(inputs.location.log_dir@)),
        ).push(("replaced"@, json::Value::List(replaced))).push(
            ("supervisor_workspaces"@, json::Value::List(Seq::empty())),
        ),
    )
}

/// The report of supervisors that were handed over: every live one is back
/// under this build with its process and token.
pub fn hand_off_supervisors(
    inputs: &Inputs,
    live: &Vec<SupervisorRegistration>,
    replaced: Vec<Json>,
) -> (r: Json)
    requires
        live@.len() > 0,
    ensures
        r@ == handed_over_value(*inputs, live@, json::items_view(replaced@)),
{
    let first = &live[0];
    let previous = supervisors::previous_version(live, inputs.version.as_str());
    let none: Vec<Json> = Vec::new();
    let fields = Fields::new().text("outcome", "restarted").flag("handoff", true);
    supervisors::with_mode(fields, first.mode).text("version", inputs.version.as_str()).opt_text(
        "previous_version",
        &previous,
    ).number("pid", first.pid as i128).text("token", first.token.as_str()).opt_text(
        "workspace_id",
        &first.workspace_id,
    ).text("plist", inputs.location.launch_agent.as_str()).text(
        "log_dir",
        inputs.location.log_dir.as_str(),
    ).with("replaced", Json::List(replaced)).with(
        "supervisor_workspaces",
        Json::List(none),
    ).done()
}

/// The report of an `up`.
pub fn up_report(
    supervisor: Json,
    inbox: Json,
    retired: Json,
    pruned: Vec<Json>,
    warnings: &Vec<String>,
    doctor: Json,
    run_env: Option<Json>,
) -> (r: Json)
    ensures
        ({
            let base = json::none().push(("supervisor"@, supervisor@)).push(
                ("inbox"@, inbox@),
            ).push(("retired_sessions"@, retired@)).push(
                ("pruned_supervisors"@, json::Value::List(json::items_view(pruned@))),
            ).push(("warnings"@, json::list_of(text::views(warnings@)))).push(
                ("doctor"@, doctor@),
            );
            r@ == json::Value::Object(
                match run_env {
                    Some(run_env) => base.push(("run_env"@, run_env@)),
                    None => base,
                },
            )
        }),
{
    let fields = Fields::new().with("supervisor", supervisor).with("inbox", inbox).with(
        "retired_sessions",
        retired,
    ).with("pruned_supervisors", Json::List(pruned)).texts("warnings", warnings).with(
        "doctor",
        doctor,
    );
    match run_env {
        Some(run_env) => fields.with("run_env", run_env).done(),
        None => fields.done(),
    }
}

/// The steps of an `up` come in order, each only once what it needs is there:
/// nothing starts before the queue, the repository, cmux, the agent, the trust
/// and the programs were found in order and the dead registrations were dropped.
pub proof fn an_up_goes_step_by_step(inputs: Inputs, seen: Seen, r: Step)
    requires
        ups(inputs, seen, stage(inputs, seen), r),
    ensures
        r !is Refused ==> inputs.options.parallel >= 1,
        r is InspectRepository ==> seen.db is Some && seen.repository is None,
        r is PreflightCmux ==> seen.repository is Some && !seen.cmux_ready,
        r is PreflightClaude ==> seen.cmux_ready && !seen.claude_ready,
        r matches Step::Trusted { config, .. } ==> seen.claude_ready && seen.trusted is None
            && inputs.environment.claude_config == Some(config),
        r matches Step::Programs { db, .. } ==> seen.trusted is Some && seen.trusted->0
            && seen.programs is None && seen.db == Some(db),
        r matches Step::ResolvePlugin { dir } ==> inputs.options.plugin_dir == Some(dir)
            && seen.plugin_dir is None,
        r is Registrations || r is Prune || r is ReadAgent || r is HandOff || r is Replace || r
            is Start || r is SetAutoUpdate || r is ForgetRetired || r is OpenInbox || r is Ready
            ==> {
            &&& seen.db is Some && seen.repository is Some
            &&& seen.cmux_ready && seen.claude_ready
            &&& inputs.environment.claude_config is Some && seen.trusted is Some && seen.trusted->0
            &&& seen.programs is Some && seen.programs->0 is None
            &&& inputs.options.plugin_dir is Some ==> seen.plugin_dir is Some
        },
        r is Registrations ==> seen.registrations is None,
        r is Prune ==> seen.registrations is Some && !seen.pruned,
        r is ReadAgent || r is HandOff || r is Replace || r is Start || r is SetAutoUpdate || r
            is ForgetRetired || r is OpenInbox || r is Ready ==> seen.registrations is Some
            && seen.pruned,
        r is HandOff || r is Replace || r is Start || r is ReadAgent ==> seen.supervisor is None,
        r is ForgetRetired ==> seen.auto_updated && !seen.retired,
        r is OpenInbox ==> seen.auto_updated && seen.retired && !seen.inbox,
        r is Ready ==> seen.auto_updated && seen.retired && seen.inbox,
{
}

/// An `up` is refused exactly for no parallel runs, for a repository that is
/// not trusted, and for a program that is missing, each once it is reached.
pub proof fn an_up_is_refused_only_for_a_cause(inputs: Inputs, seen: Seen, r: Step)
    requires
        ups(inputs, seen, stage(inputs, seen), r),
    ensures
        r is Refused ==> inputs.options.parallel < 1 || inputs.environment.claude_config is None || (
        seen.trusted is Some && !seen.trusted->0) || (seen.programs is Some && seen.programs->0
            is Some),
        inputs.options.parallel < 1 ==> r is Refused && r->Refused_0@
            == "parallel must be at least 1"@,
        inputs.options.parallel >= 1 && seen.db is Some && seen.repository is Some
            && seen.cmux_ready && seen.claude_ready && (inputs.environment.claude_config is None
            || (seen.trusted is Some && !seen.trusted->0)) ==> r is Refused,
        inputs.options.parallel >= 1 && seen.db is Some && seen.repository is Some
            && seen.cmux_ready && seen.claude_ready && inputs.environment.claude_config is Some
            && seen.trusted is Some && seen.trusted->0 && seen.programs is Some && seen.programs->0
            is Some ==> r is Refused && r->Refused_0@ == seen.programs->0->0@
            + "; the supervisor was not started"@,
{
}

/// Only the dead registrations are pruned.
pub proof fn an_up_prunes_only_the_dead(inputs: Inputs, seen: Seen, r: Step)
    requires
        ups(inputs, seen, stage(inputs, seen), r),
        r is Prune,
    ensures
        forall|k: int|
            0 <= k < r->dead@.len() ==> (#[trigger] r->dead@[k]) < seen.registrations->0@.len()
                && !seen.registrations->0@[r->dead@[k] as int].alive,
        forall|i: int|
            0 <= i < seen.registrations->0@.len() && !(#[trigger] seen.registrations->0@[i]).alive
                ==> exists|k: int| 0 <= k < r->dead@.len() && #[trigger] r->dead@[k] == i,
{
    let all = seen.registrations->0@;
    let n = all.len() as int;
    supervisors::the_live_are_those_that_beat(all, 0, 0, n);
    let at = dead_places(all, n);
    assert(places(r->dead@) == at);
    assert forall|k: int| 0 <= k < r->dead@.len() implies (#[trigger] r->dead@[k]) < n
        && !all[r->dead@[k] as int].alive by {
        assert(places(r->dead@)[k] == at[k]);
    }
    assert forall|i: int| 0 <= i < n && !(#[trigger] all[i]).alive implies exists|k: int|
        0 <= k < r->dead@.len() && #[trigger] r->dead@[k] == i by {
        supervisors::dropped_or_kept(all, 0, 0, n, i);
        let k = choose|k: int| 0 <= k < at.len() && at[k] == i;
        assert(places(r->dead@)[k] == i);
    }
}

/// A supervisor is started only where none lives and beats, and the start is
/// told of every one whose process still lives.
pub proof fn a_start_needs_no_live_supervisor(inputs: Inputs, seen: Seen, r: Step)
    requires
        ups(inputs, seen, stage(inputs, seen), r),
        inputs.heartbeat_timeout < i64::MAX,
        r is Start,
    ensures
        forall|i: int|
            0 <= i < seen.registrations->0@.len() ==> !(#[trigger] seen.registrations->0@[i]).alive
                || seen.now - seen.registrations->0@[i].heartbeat_at > inputs.heartbeat_timeout,
        forall|i: int|
            0 <= i < seen.registrations->0@.len() && (#[trigger] seen.registrations->0@[i]).alive
                ==> exists|k: int|
                0 <= k < r->existing@.len() && (#[trigger] r->existing@[k])@
                    == seen.registrations->0@[i].token@,
{
    let all = seen.registrations->0@;
    let n = all.len() as int;
    supervisors::the_live_are_those_that_beat(all, seen.now, inputs.heartbeat_timeout, n);
    let live = live_places(all, seen.now as int, inputs.heartbeat_timeout as int, n);
    assert(live_of(inputs, seen).len() == live.len());
    assert forall|i: int| 0 <= i < n implies !(#[trigger] all[i]).alive || seen.now
        - all[i].heartbeat_at > inputs.heartbeat_timeout by {
        if all[i].alive && seen.now - all[i].heartbeat_at <= inputs.heartbeat_timeout {
            assert(live.contains(i));
        }
    }
    let at = alive_places(all, n);
    assert(tokens_of(at_places(all, at)).len() == at.len());
    assert(text::views(r->existing@).len() == r->existing@.len());
    assert forall|i: int| 0 <= i < n && (#[trigger] all[i]).alive implies exists|k: int|
        0 <= k < r->existing@.len() && (#[trigger] r->existing@[k])@ == all[i].token@ by {
        let k = choose|k: int| 0 <= k < at.len() && at[k] == i;
        assert(at_places(all, at)[k] == all[i]);
        assert(tokens_of(at_places(all, at))[k] == all[i].token@);
        assert(text::views(r->existing@)[k] == all[i].token@);
        assert(r->existing@[k]@ == all[i].token@);
    }
}

/// A supervisor is replaced or handed over only where one lives that does not
/// run this version; each of those handled lives, beats and is registered; and a
/// handoff needs that all of them accept it.
pub proof fn only_live_supervisors_are_replaced(
    inputs: Inputs,
    seen: Seen,
    live: Vec<SupervisorRegistration>,
    r: Step,
)
    requires
        ups(inputs, seen, stage(inputs, seen), r),
        inputs.heartbeat_timeout < i64::MAX,
        r == (Step::HandOff { live }) || r == (Step::Replace { live }),
    ensures
        live@.len() > 0,
        forall|k: int|
            0 <= k < live@.len() ==> seen.registrations->0@.contains(#[trigger] live@[k])
                && live@[k].alive && seen.now - live@[k].heartbeat_at <= inputs.heartbeat_timeout,
        exists|k: int|
            0 <= k < live@.len() && ((#[trigger] live@[k]).binary_version is None
                || live@[k].binary_version->0@ != inputs.version@),
        r is HandOff ==> forall|k: int|
            0 <= k < live@.len() ==> (#[trigger] live@[k]).handoff_accepted,
        r is Replace && (forall|k: int|
            0 <= k < live@.len() ==> (#[trigger] live@[k]).handoff_accepted) ==> exists|k: int|
            0 <= k < live@.len() && (#[trigger] live@[k]).mode == Some(
                crate::lifecycle::agent::SupervisorMode::Launchd,
            ),
{
    let all = seen.registrations->0@;
    let n = all.len() as int;
    supervisors::the_live_are_those_that_beat(all, seen.now, inputs.heartbeat_timeout, n);
    let at = live_places(all, seen.now as int, inputs.heartbeat_timeout as int, n);
    assert(live@ == at_places(all, at));
    assert forall|k: int| 0 <= k < live@.len() implies all.contains(#[trigger] live@[k])
        && live@[k].alive && seen.now - live@[k].heartbeat_at <= inputs.heartbeat_timeout by {
        assert(live@[k] == all[at[k]]);
    }
    supervisors::the_outdated_one_runs_another_version(live@, inputs.version@, 0);
    let k = outdated_from(live@, inputs.version@, 0)->0;
    assert(live@[k].binary_version is None || live@[k].binary_version->0@ != inputs.version@);
}

/// Where a supervisor lives and all that live run this version, it is reused:
/// none is started, replaced or handed over, and the report says so of the first
/// of them.
pub proof fn a_current_supervisor_is_reused(inputs: Inputs, seen: Seen, r: Step, i: int)
    requires
        ups(inputs, seen, stage(inputs, seen), r),
        inputs.heartbeat_timeout < i64::MAX,
        seen.registrations is Some,
        0 <= i < seen.registrations->0@.len(),
        seen.registrations->0@[i].alive,
        seen.now - seen.registrations->0@[i].heartbeat_at <= inputs.heartbeat_timeout,
        forall|j: int|
            0 <= j < seen.registrations->0@.len() && (#[trigger] seen.registrations->0@[j]).alive
                && seen.now - seen.registrations->0@[j].heartbeat_at <= inputs.heartbeat_timeout
                ==> seen.registrations->0@[j].binary_version is Some
                && seen.registrations->0@[j].binary_version->0@ == inputs.version@,
        seen.supervisor is None,
    ensures
        r !is Start && r !is Replace && r !is HandOff && r !is ReadAgent,
        r is Ready ==> json::at(r->supervisor@, "outcome"@) == json::Value::Text("reused"@),
        r is SetAutoUpdate ==> forall|j: int|
            0 <= j < seen.registrations->0@.len() && (#[trigger] seen.registrations->0@[j]).alive
                && seen.now - seen.registrations->0@[j].heartbeat_at <= inputs.heartbeat_timeout
                ==> exists|k: int|
                0 <= k < r->tokens@.len() && (#[trigger] r->tokens@[k])@
                    == seen.registrations->0@[j].token@,
{
    let all = seen.registrations->0@;
    let n = all.len() as int;
    supervisors::the_live_are_those_that_beat(all, seen.now, inputs.heartbeat_timeout, n);
    let at = live_places(all, seen.now as int, inputs.heartbeat_timeout as int, n);
    let live = live_of(inputs, seen);
    assert(at.contains(i));
    assert(live.len() == at.len());
    supervisors::the_outdated_one_runs_another_version(live, inputs.version@, 0);
    if let Some(k) = outdated_from(live, inputs.version@, 0) {
        assert(live[k] == all[at[k]]);
        assert(false);
    }
    assert(is_reused(inputs, seen));
    let value = reused_value(inputs, live[0]);
    assert(value->Object_0[0] == ("outcome"@, json::Value::Text("reused"@)));
    reveal_strlit("outcome");
    reveal_strlit("auto_update");
    assert("outcome"@.len() == 7 && "auto_update"@.len() == 11);
    json::put_reads_back(
        value->Object_0,
        "auto_update"@,
        json::Value::Bool(inputs.options.auto_update),
        "outcome"@,
    );
    if r is SetAutoUpdate {
        assert(json::at(value, "outcome"@) == json::Value::Text("reused"@));
        assert(text::views(r->tokens@) == tokens_of(live));
        assert(tokens_of(live).len() == live.len());
        assert(text::views(r->tokens@).len() == r->tokens@.len());
        assert forall|j: int|
            0 <= j < n && (#[trigger] all[j]).alive && seen.now - all[j].heartbeat_at
                <= inputs.heartbeat_timeout implies exists|k: int|
            0 <= k < r->tokens@.len() && (#[trigger] r->tokens@[k])@ == all[j].token@ by {
            let k = choose|k: int| 0 <= k < at.len() && at[k] == j;
            assert(live[k] == all[j]);
            assert(tokens_of(live)[k] == all[j].token@);
            assert(text::views(r->tokens@)[k] == all[j].token@);
            assert(r->tokens@[k]@ == all[j].token@);
        }
    }
}

/// Whether the supervisor updates itself is set as the options say, and the
/// report says the same.
pub proof fn auto_update_is_set_as_asked(inputs: Inputs, seen: Seen, r: Step)
    requires
        ups(inputs, seen, stage(inputs, seen), r),
    ensures
        r matches Step::SetAutoUpdate { enabled, .. } ==> enabled == inputs.options.auto_update
            && !seen.auto_updated,
        r matches Step::Ready { supervisor } ==> json::at(supervisor@, "auto_update"@)
            == json::Value::Bool(inputs.options.auto_update),
{
    if let Step::Ready { supervisor } = r {
        let value = supervisor_value(inputs, seen);
        let flag = json::Value::Bool(inputs.options.auto_update);
        if value is Object {
            json::put_reads_back(value->Object_0, "auto_update"@, flag, "auto_update"@);
        } else {
            let one = seq![("auto_update"@, flag)];
            assert(one[0].0 == "auto_update"@);
            assert(json::found(one, "auto_update"@) == Some(flag));
        }
    }
}

/// A start of its own changes only the new supervisor's setting, and a reuse or
/// a handoff that of every live one.
pub proof fn the_setting_is_changed_where_it_counts(
    report: &Json,
    live: &Vec<SupervisorRegistration>,
    r: Vec<String>,
)
    requires
        call_ensures(set_auto_update, (report, live), r),
    ensures
        json::at(report@, "outcome"@) == json::Value::Text("reused"@) || json::at(
            report@,
            "handoff"@,
        ) == json::Value::Bool(true) ==> r@.len() == live@.len() && forall|i: int|
            0 <= i < live@.len() ==> (#[trigger] r@[i])@ == live@[i].token@,
        json::at(report@, "outcome"@) != json::Value::Text("reused"@) && json::at(
            report@,
            "handoff"@,
        ) != json::Value::Bool(true) ==> r@.len() <= 1 && (r@.len() == 1 ==> json::at(
            report@,
            "token"@,
        ) == json::Value::Text(r@[0]@)),
        json::at(report@, "outcome"@) != json::Value::Text("reused"@) && json::at(
            report@,
            "handoff"@,
        ) != json::Value::Bool(true) && json::at(report@, "token"@) is Text ==> r@.len() == 1,
{
    let all = text::views(r@);
    assert(all.len() == r@.len());
    assert(tokens_of(live@).len() == live@.len());
    if json::at(report@, "outcome"@) == json::Value::Text("reused"@) || json::at(
        report@,
        "handoff"@,
    ) == json::Value::Bool(true) {
        assert forall|i: int| 0 <= i < live@.len() implies (#[trigger] r@[i])@
            == live@[i].token@ by {
            assert(all[i] == tokens_of(live@)[i]);
        }
    } else if r@.len() == 1 {
        assert(all[0] == r@[0]@);
    }
}

/// A handoff is reported as a restart of the first supervisor, in this version,
/// with everything it replaced and no workspace closed.
pub proof fn a_handoff_is_reported_as_a_restart(
    inputs: Inputs,
    live: Seq<SupervisorRegistration>,
    replaced: Seq<json::Value>,
)
    ensures
        ({
            let v = handed_over_value(inputs, live, replaced);
            &&& v is Object && v->Object_0.len() == 12
            &&& v->Object_0[0] == ("outcome"@, json::Value::Text("restarted"@))
            &&& v->Object_0[1] == ("handoff"@, json::Value::Bool(true))
            &&& v->Object_0[3] == ("version"@, json::Value::Text(inputs.version@))
            &&& v->Object_0[5] == ("pid"@, json::Value::Int(live[0].pid as int))
            &&& v->Object_0[6] == ("token"@, json::Value::Text(live[0].token@))
            &&& v->Object_0[10] == ("replaced"@, json::Value::List(replaced))
            &&& v->Object_0[11].1 is List && v->Object_0[11].1->List_0.len() == 0
        }),
{
}

/// The report of an `up` holds each part under its own name.
pub proof fn an_up_reports_every_part(
    supervisor: Json,
    inbox: Json,
    retired: Json,
    pruned: Vec<Json>,
    warnings: &Vec<String>,
    doctor: Json,
    run_env: Option<Json>,
    r: Json,
)
    requires
        call_ensures(
            up_report,
            (supervisor, inbox, retired, pruned, warnings, doctor, run_env),
            r,
        ),
    ensures
        r@ is Object,
        r@->Object_0[0] == ("supervisor"@, supervisor@),
        r@->Object_0[1] == ("inbox"@, inbox@),
        r@->Object_0[2] == ("retired_sessions"@, retired@),
        r@->Object_0[3] == ("pruned_supervisors"@, json::Value::List(json::items_view(pruned@))),
        r@->Object_0[4].0 == "warnings"@,
        r@->Object_0[5] == ("doctor"@, doctor@),
        run_env is Some ==> r@->Object_0.len() == 7 && r@->Object_0[6] == (
            "run_env"@,
            run_env->0@,
        ),
        run_env is None ==> r@->Object_0.len() == 6,
{
}

} // verus!
