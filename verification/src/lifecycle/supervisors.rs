//! The registered supervisors of a queue: which are live, which are of
//! another build, and how they are handed over to this one.

use crate::domain::{age, elapsed, same_text};
use crate::json;
use crate::json::{Fields, Json};
use crate::lifecycle::agent::SupervisorMode;
use crate::text;
use vstd::prelude::*;
use vstd::string::*;

verus! {

/// A supervisor as it registered itself, with whether its process is alive.
pub struct SupervisorRegistration {
    pub token: String,
    pub pid: u32,
    /// How it was started; none when a person started it by hand.
    pub mode: Option<SupervisorMode>,
    pub workspace_id: Option<String>,
    pub binary_version: Option<String>,
    pub heartbeat_at: i64,
    /// Whether it can take a handoff.
    pub handoff_accepted: bool,
    /// The binary a handoff asks it to run, until it did.
    pub handoff_binary: Option<String>,
    pub alive: bool,
}

impl SupervisorRegistration {
    /// An equal registration.
    pub fn copy(&self) -> (r: SupervisorRegistration)
        ensures
            r == *self,
    {
        SupervisorRegistration {
            token: self.token.clone(),
            pid: self.pid,
            mode: self.mode,
            workspace_id: same_text(&self.workspace_id),
            binary_version: same_text(&self.binary_version),
            heartbeat_at: self.heartbeat_at,
            handoff_accepted: self.handoff_accepted,
            handoff_binary: same_text(&self.handoff_binary),
            alive: self.alive,
        }
    }
}

/// Whether a supervisor is alive and heartbeats.
pub open spec fn is_fresh(r: SupervisorRegistration, now: int, timeout: int) -> bool {
    r.alive && elapsed(r.heartbeat_at as int, now) <= timeout
}

/// Whether the supervisor is alive and its heartbeat is at most `timeout`
/// seconds old.
pub fn fresh(registration: &SupervisorRegistration, now: i64, timeout: i64) -> (r: bool)
    ensures
        r == is_fresh(*registration, now as int, timeout as int),
{
    registration.alive && age(registration.heartbeat_at, now) <= timeout
}

/// Whether a supervisor runs this build.
pub open spec fn is_of(r: SupervisorRegistration, version: Seq<char>) -> bool {
    text::opt_view(r.binary_version) == Some(version)
}

/// The places among the first `n` registrations of those that are gone.
pub open spec fn dead_places(all: Seq<SupervisorRegistration>, n: int) -> Seq<int>
    decreases n,
{
    if n <= 0 {
        Seq::empty()
    } else if !all[n - 1].alive {
        dead_places(all, n - 1).push(n - 1)
    } else {
        dead_places(all, n - 1)
    }
}

/// The places among the first `n` registrations of those that are alive,
/// heartbeating or not.
pub open spec fn alive_places(all: Seq<SupervisorRegistration>, n: int) -> Seq<int>
    decreases n,
{
    if n <= 0 {
        Seq::empty()
    } else if all[n - 1].alive {
        alive_places(all, n - 1).push(n - 1)
    } else {
        alive_places(all, n - 1)
    }
}

/// The places among the first `n` registrations of those that are live.
pub open spec fn live_places(
    all: Seq<SupervisorRegistration>,
    now: int,
    timeout: int,
    n: int,
) -> Seq<int>
    decreases n,
{
    if n <= 0 {
        Seq::empty()
    } else if is_fresh(all[n - 1], now, timeout) {
        live_places(all, now, timeout, n - 1).push(n - 1)
    } else {
        live_places(all, now, timeout, n - 1)
    }
}

/// The places as integers.
pub open spec fn places(list: Seq<usize>) -> Seq<int> {
    list.map_values(|n: usize| n as int)
}

/// How the registrations stand.
pub struct Sorted {
    /// Those whose process is gone: they are dropped.
    pub dead: Vec<usize>,
    /// Those whose process is alive: none of them is a supervisor `up` is
    /// about to start. One that is silent is not `up`'s to kill.
    pub existing: Vec<usize>,
    /// Those that are alive and heartbeat.
    pub live: Vec<usize>,
}

/// Sort the registrations by whether their process is gone, alive, or alive
/// and heartbeating.
pub fn sort_out(all: &Vec<SupervisorRegistration>, now: i64, timeout: i64) -> (r: Sorted)
    ensures
        places(r.dead@) == dead_places(all@, all@.len() as int),
        places(r.existing@) == alive_places(all@, all@.len() as int),
        places(r.live@) == live_places(all@, now as int, timeout as int, all@.len() as int),
        forall|k: int| 0 <= k < r.existing@.len() ==> #[trigger] r.existing@[k] < all@.len(),
        forall|k: int| 0 <= k < r.live@.len() ==> #[trigger] r.live@[k] < all@.len(),
{
    let mut dead: Vec<usize> = Vec::new();
    let mut existing: Vec<usize> = Vec::new();
    let mut live: Vec<usize> = Vec::new();
    let mut i: usize = 0;
    assert(places(dead@) =~= Seq::empty());
    assert(places(existing@) =~= Seq::empty());
    assert(places(live@) =~= Seq::empty());
    while i < all.len()
        invariant
            i <= all@.len(),
            places(dead@) == dead_places(all@, i as int),
            places(existing@) == alive_places(all@, i as int),
            places(live@) == live_places(all@, now as int, timeout as int, i as int),
            forall|k: int| 0 <= k < existing@.len() ==> #[trigger] existing@[k] < i,
            forall|k: int| 0 <= k < live@.len() ==> #[trigger] live@[k] < i,
        decreases all@.len() - i,
    {
        let ghost had = (places(dead@), places(existing@), places(live@));
        if !all[i].alive {
            dead.push(i);
            assert(places(dead@) =~= had.0.push(i as int));
        } else {
            existing.push(i);
            assert(places(existing@) =~= had.1.push(i as int));
        }
        if fresh(&all[i], now, timeout) {
            live.push(i);
            assert(places(live@) =~= had.2.push(i as int));
        }
        i += 1;
    }
    Sorted { dead, existing, live }
}

/// Each registration is dropped or kept, never both; what is live is kept.
pub proof fn dropped_or_kept(
    all: Seq<SupervisorRegistration>,
    now: int,
    timeout: int,
    n: int,
    i: int,
)
    requires
        0 <= i < n <= all.len(),
    ensures
        dead_places(all, n).contains(i) <==> !all[i].alive,
        alive_places(all, n).contains(i) <==> all[i].alive,
        live_places(all, now, timeout, n).contains(i) <==> is_fresh(all[i], now, timeout),
    decreases n,
{
    pushed_or_not(dead_places(all, n - 1), n - 1, i);
    pushed_or_not(alive_places(all, n - 1), n - 1, i);
    pushed_or_not(live_places(all, now, timeout, n - 1), n - 1, i);
    if i < n - 1 {
        dropped_or_kept(all, now, timeout, n - 1, i);
    } else {
        places_are_below(all, now, timeout, n - 1);
    }
}

/// A list with one more number holds that number and what it held.
proof fn pushed_or_not(list: Seq<int>, n: int, i: int)
    ensures
        list.push(n).contains(i) <==> i == n || list.contains(i),
{
    if i == n {
        assert(list.push(n)[list.len() as int] == n);
    }
    if list.contains(i) {
        let k = choose|k: int| 0 <= k < list.len() && list[k] == i;
        assert(list.push(n)[k] == i);
    }
    if list.push(n).contains(i) && i != n {
        let k = choose|k: int| 0 <= k < list.push(n).len() && list.push(n)[k] == i;
        assert(list[k] == i);
    }
}

/// The places among the first `n` registrations are below `n`.
proof fn places_are_below(all: Seq<SupervisorRegistration>, now: int, timeout: int, n: int)
    ensures
        forall|i: int| dead_places(all, n).contains(i) ==> 0 <= i < n,
        forall|i: int| alive_places(all, n).contains(i) ==> 0 <= i < n,
        forall|i: int| live_places(all, now, timeout, n).contains(i) ==> 0 <= i < n,
    decreases n,
{
    if n > 0 {
        places_are_below(all, now, timeout, n - 1);
        assert forall|i: int| dead_places(all, n).contains(i) implies 0 <= i < n by {
            pushed_or_not(dead_places(all, n - 1), n - 1, i);
        }
        assert forall|i: int| alive_places(all, n).contains(i) implies 0 <= i < n by {
            pushed_or_not(alive_places(all, n - 1), n - 1, i);
        }
        assert forall|i: int| live_places(all, now, timeout, n).contains(i) implies 0 <= i < n by {
            pushed_or_not(live_places(all, now, timeout, n - 1), n - 1, i);
        }
    }
}

/// The place at or after `from` of the first supervisor of another build.
pub open spec fn outdated_from(
    live: Seq<SupervisorRegistration>,
    version: Seq<char>,
    from: int,
) -> Option<int>
    decreases live.len() - from,
{
    if from < 0 || from >= live.len() {
        None
    } else if !is_of(live[from], version) {
        Some(from)
    } else {
        outdated_from(live, version, from + 1)
    }
}

/// The version reported as replaced: that of the first supervisor of another
/// build.
pub open spec fn replaced_version(
    live: Seq<SupervisorRegistration>,
    version: Seq<char>,
) -> Option<Seq<char>> {
    match outdated_from(live, version, 0) {
        Some(i) => text::opt_view(live[i].binary_version),
        None => None,
    }
}

/// The first supervisor of another build.
pub fn outdated(live: &Vec<SupervisorRegistration>, version: &str) -> (r: Option<usize>)
    ensures
        match r {
            Some(i) => outdated_from(live@, version@, 0) == Some(i as int) && i < live@.len(),
            None => outdated_from(live@, version@, 0) is None,
        },
{
    let mut i: usize = 0;
    while i < live.len()
        invariant
            i <= live@.len(),
            outdated_from(live@, version@, 0) == outdated_from(live@, version@, i as int),
        decreases live@.len() - i,
    {
        if !text::is_text(&live[i].binary_version, version) {
            return Some(i);
        }
        i += 1;
    }
    None
}

/// The version reported as replaced: an outdated one, not merely the first.
pub fn previous_version(live: &Vec<SupervisorRegistration>, version: &str) -> (r: Option<String>)
    ensures
        text::opt_view(r) == replaced_version(live@, version@),
{
    match outdated(live, version) {
        Some(i) => same_text(&live[i].binary_version),
        None => None,
    }
}

/// The mode of a supervisor as a value.
pub open spec fn mode_value(mode: Option<SupervisorMode>) -> json::Value {
    match mode {
        Some(mode) => json::Value::Text(mode.name()),
        None => json::Value::Null,
    }
}

/// With the mode of a supervisor.
pub fn with_mode(fields: Fields, mode: Option<SupervisorMode>) -> (r: Fields)
    ensures
        r@ == fields@.push(("mode"@, mode_value(mode))),
{
    match mode {
        Some(mode) => fields.text("mode", mode.as_str()),
        None => fields.with("mode", Json::Null),
    }
}

/// A supervisor, as a replacement or a handoff reports it.
pub open spec fn replaced_value(token: Seq<char>, r: SupervisorRegistration) -> json::Value {
    json::Value::Object(
        json::none().push(("token"@, json::Value::Text(token))).push(
            ("pid"@, json::Value::Int(r.pid as int)),
        ).push(("mode"@, mode_value(r.mode))).push(
            ("workspace_id"@, json::text_or_null(text::opt_view(r.workspace_id))),
        ).push(("version"@, json::text_or_null(text::opt_view(r.binary_version)))),
    )
}

/// A supervisor, as a replacement or a handoff reports it.
pub fn replaced(token: &str, r: &SupervisorRegistration) -> (v: Json)
    ensures
        v@ == replaced_value(token@, *r),
{
    let fields = Fields::new().text("token", token).number("pid", r.pid as i128);
    with_mode(fields, r.mode).opt_text("workspace_id", &r.workspace_id).opt_text(
        "version",
        &r.binary_version,
    ).done()
}

/// A supervisor's name in messages.
pub open spec fn label(r: SupervisorRegistration) -> Seq<char> {
    r.token@ + " (pid "@ + text::decimal(r.pid as nat) + ")"@
}

/// A supervisor's name in messages.
pub fn labelled(r: &SupervisorRegistration) -> (s: String)
    ensures
        s@ == label(*r),
{
    let pid = text::number(r.pid as u64);
    r.token.clone().concat(" (pid ").concat(pid.as_str()).concat(")")
}

/// Whether every live supervisor takes a handoff.
pub open spec fn all_accept(live: Seq<SupervisorRegistration>) -> bool {
    forall|i: int| 0 <= i < live.len() ==> (#[trigger] live[i]).handoff_accepted
}

/// Whether launchd keeps none of the live supervisors running.
pub open spec fn none_under_launchd(live: Seq<SupervisorRegistration>) -> bool {
    forall|i: int|
        0 <= i < live.len() ==> (#[trigger] live[i]).mode != Some(SupervisorMode::Launchd)
}

/// Whether every live supervisor can be handed over to the binary at `exe`.
pub open spec fn can_hand_over(
    live: Seq<SupervisorRegistration>,
    exe: Seq<char>,
    plist: Option<String>,
) -> bool {
    &&& all_accept(live)
    &&& none_under_launchd(live) || (plist matches Some(plist) && text::has_part(
        plist@,
        crate::lifecycle::agent::runs_fragment(exe),
    ))
}

/// Whether every live supervisor can be handed over to this binary rather than
/// drained: each one takes a handoff, and a launchd one would keep running
/// this binary after its next restart too, since its agent (`plist`, where it
/// can be read) starts this very path.
pub fn takes_handoff(
    live: &Vec<SupervisorRegistration>,
    exe: &str,
    plist: &Option<String>,
) -> (r: bool)
    ensures
        r == can_hand_over(live@, exe@, *plist),
{
    let mut launchd = false;
    let mut i: usize = 0;
    while i < live.len()
        invariant
            i <= live@.len(),
            forall|j: int| 0 <= j < i ==> (#[trigger] live@[j]).handoff_accepted,
            launchd <==> exists|j: int|
                0 <= j < i && (#[trigger] live@[j]).mode == Some(SupervisorMode::Launchd),
        decreases live@.len() - i,
    {
        if !live[i].handoff_accepted {
            return false;
        }
        if let Some(SupervisorMode::Launchd) = live[i].mode {
            launchd = true;
            assert(live@[i as int].mode == Some(SupervisorMode::Launchd));
        }
        i += 1;
    }
    if !launchd {
        return true;
    }
    match plist {
        Some(plist) => crate::lifecycle::agent::agent_runs(plist.as_str(), exe),
        None => false,
    }
}

/// The place of the registration with this token.
pub open spec fn with_token(
    all: Seq<SupervisorRegistration>,
    token: Seq<char>,
    from: int,
) -> Option<int>
    decreases all.len() - from,
{
    if from < 0 || from >= all.len() {
        None
    } else if all[from].token@ == token {
        Some(from)
    } else {
        with_token(all, token, from + 1)
    }
}

/// The place of the registration of this process under this build.
pub open spec fn with_pid(
    all: Seq<SupervisorRegistration>,
    pid: u32,
    version: Seq<char>,
    from: int,
) -> Option<int>
    decreases all.len() - from,
{
    if from < 0 || from >= all.len() {
        None
    } else if all[from].pid == pid && is_of(all[from], version) {
        Some(from)
    } else {
        with_pid(all, pid, version, from + 1)
    }
}

/// Where a supervisor asked to hand off stands now: under its own token, or,
/// once that deregistered, as the same process registered again under the new
/// build.
pub open spec fn came_back(
    all: Seq<SupervisorRegistration>,
    asked: SupervisorRegistration,
    version: Seq<char>,
) -> Option<int> {
    match with_token(all, asked.token@, 0) {
        Some(i) => Some(i),
        None => with_pid(all, asked.pid, version, 0),
    }
}

/// How a supervisor asked to hand off stands.
pub ghost enum Handoff {
    /// It deregistered.
    Gone,
    /// It stopped heartbeating before it took the handoff.
    Silent,
    /// It has not taken it yet.
    Waiting,
    /// It came back as something else.
    Other,
    Done,
}

/// What a handoff asks for.
pub struct Request {
    /// The binary, and the build it is.
    pub binary: String,
    pub version: String,
    pub heartbeat_timeout: i64,
}

/// How `asked` stands among the registrations.
pub open spec fn standing(
    all: Seq<SupervisorRegistration>,
    asked: SupervisorRegistration,
    request: Request,
    now: int,
) -> Handoff {
    match came_back(all, asked, request.version@) {
        None => Handoff::Gone,
        Some(i) => {
            let current = all[i];
            let live = is_fresh(current, now, request.heartbeat_timeout as int);
            if current.handoff_binary is Some {
                if live {
                    Handoff::Waiting
                } else {
                    Handoff::Silent
                }
            } else if current.pid == asked.pid && is_of(current, request.version@) && live {
                Handoff::Done
            } else {
                Handoff::Other
            }
        },
    }
}

/// The version of a registration in words.
pub open spec fn version_words(r: SupervisorRegistration) -> Seq<char> {
    match r.binary_version {
        Some(version) => version@,
        None => "(unrecorded)"@,
    }
}

/// Why a handoff failed for `asked`.
pub open spec fn handoff_error(
    all: Seq<SupervisorRegistration>,
    asked: SupervisorRegistration,
    request: Request,
    now: int,
) -> Option<Seq<char>> {
    let name = "supervisor "@ + label(asked);
    let binary = request.binary@;
    match standing(all, asked, request, now) {
        Handoff::Gone => Some(
            name + " deregistered instead of taking the handoff to "@ + binary,
        ),
        Handoff::Silent => Some(
            name + " stopped heartbeating before it took the handoff to "@ + binary
                + "; see its log, then `down --force` and `up`"@,
        ),
        Handoff::Other => {
            let current = all[came_back(all, asked, request.version@)->0];
            Some(
                name + " came back as "@ + version_words(current) + " (pid "@ + text::decimal(
                    current.pid as nat,
                ) + ") instead of "@ + request.version@ + ": the exec of "@ + binary
                    + " failed and it goes on with its binary; see its log"@,
            )
        },
        _ => None,
    }
}

/// The place among the pending of the first one whose handoff failed.
pub open spec fn failed_from(
    all: Seq<SupervisorRegistration>,
    pending: Seq<SupervisorRegistration>,
    request: Request,
    now: int,
    from: int,
) -> Option<int>
    decreases pending.len() - from,
{
    if from < 0 || from >= pending.len() {
        None
    } else if handoff_error(all, pending[from], request, now) is Some {
        Some(from)
    } else {
        failed_from(all, pending, request, now, from + 1)
    }
}

/// The places among the first `n` pending of those still waited for.
pub open spec fn waiting_places(
    all: Seq<SupervisorRegistration>,
    pending: Seq<SupervisorRegistration>,
    request: Request,
    now: int,
    n: int,
) -> Seq<int>
    decreases n,
{
    if n <= 0 {
        Seq::empty()
    } else {
        let before = waiting_places(all, pending, request, now, n - 1);
        if standing(all, pending[n - 1], request, now) == Handoff::Waiting {
            before.push(n - 1)
        } else {
            before
        }
    }
}

/// The reports of those among the first `n` pending that took the handoff.
pub open spec fn done_values(
    all: Seq<SupervisorRegistration>,
    pending: Seq<SupervisorRegistration>,
    request: Request,
    now: int,
    n: int,
) -> Seq<json::Value>
    decreases n,
{
    if n <= 0 {
        Seq::empty()
    } else {
        let before = done_values(all, pending, request, now, n - 1);
        if standing(all, pending[n - 1], request, now) == Handoff::Done {
            let current = all[came_back(all, pending[n - 1], request.version@)->0];
            before.push(replaced_value(current.token@, pending[n - 1]))
        } else {
            before
        }
    }
}

/// What one look at the registrations says of a handoff.
pub enum Round {
    /// A supervisor failed to take it.
    Failed(String),
    /// `done` took it; those at `waiting` have not yet.
    Going { waiting: Vec<usize>, done: Vec<Json> },
}

/// Where the supervisor stands now.
fn find_back(
    all: &Vec<SupervisorRegistration>,
    asked: &SupervisorRegistration,
    version: &str,
) -> (r: Option<usize>)
    ensures
        match r {
            Some(i) => came_back(all@, *asked, version@) == Some(i as int) && i < all@.len(),
            None => came_back(all@, *asked, version@) is None,
        },
{
    let mut i: usize = 0;
    while i < all.len()
        invariant
            i <= all@.len(),
            with_token(all@, asked.token@, 0) == with_token(all@, asked.token@, i as int),
        decreases all@.len() - i,
    {
        if text::same(all[i].token.as_str(), asked.token.as_str()) {
            return Some(i);
        }
        i += 1;
    }
    let mut k: usize = 0;
    while k < all.len()
        invariant
            k <= all@.len(),
            with_token(all@, asked.token@, 0) is None,
            with_pid(all@, asked.pid, version@, 0) == with_pid(
                all@,
                asked.pid,
                version@,
                k as int,
            ),
        decreases all@.len() - k,
    {
        if all[k].pid == asked.pid && text::is_text(&all[k].binary_version, version) {
            return Some(k);
        }
        k += 1;
    }
    None
}

/// One look at the registrations while `up` waits until every supervisor asked
/// to hand off has taken its registration back under the new build with the
/// same process.
pub fn handoff_round(
    all: &Vec<SupervisorRegistration>,
    pending: &Vec<SupervisorRegistration>,
    request: &Request,
    now: i64,
) -> (r: Round)
    ensures
        match failed_from(all@, pending@, *request, now as int, 0) {
            Some(i) => r matches Round::Failed(why) && why@ == handoff_error(
                all@,
                pending@[i],
                *request,
                now as int,
            )->0,
            None => r matches Round::Going { waiting, done } && (forall|k: int|
                0 <= k < waiting@.len() ==> #[trigger] waiting@[k] < pending@.len()) && places(
                waiting@,
            ) == waiting_places(
                all@,
                pending@,
                *request,
                now as int,
                pending@.len() as int,
            ) && json::items_view(done@) == done_values(
                all@,
                pending@,
                *request,
                now as int,
                pending@.len() as int,
            ),
        },
{
    let mut waiting: Vec<usize> = Vec::new();
    let mut done: Vec<Json> = Vec::new();
    let mut i: usize = 0;
    assert(places(waiting@) =~= Seq::empty());
    while i < pending.len()
        invariant
            i <= pending@.len(),
            failed_from(all@, pending@, *request, now as int, 0) == failed_from(
                all@,
                pending@,
                *request,
                now as int,
                i as int,
            ),
            forall|k: int| 0 <= k < waiting@.len() ==> #[trigger] waiting@[k] < i,
            places(waiting@) == waiting_places(all@, pending@, *request, now as int, i as int),
            json::items_view(done@) == done_values(
                all@,
                pending@,
                *request,
                now as int,
                i as int,
            ),
        decreases pending@.len() - i,
    {
        let asked = &pending[i];
        let name = labelled(asked);
        let name = "supervisor ".to_owned().concat(name.as_str());
        let place = match find_back(all, asked, request.version.as_str()) {
            Some(place) => place,
            None => {
                return Round::Failed(
                    name.concat(" deregistered instead of taking the handoff to ").concat(
                        request.binary.as_str(),
                    ),
                );
            },
        };
        let current = &all[place];
        let live = fresh(current, now, request.heartbeat_timeout);
        if current.handoff_binary.is_some() {
            if !live {
                return Round::Failed(
                    name.concat(" stopped heartbeating before it took the handoff to ").concat(
                        request.binary.as_str(),
                    ).concat("; see its log, then `down --force` and `up`"),
                );
            }
            let ghost had = places(waiting@);
            waiting.push(i);
            assert(places(waiting@) =~= had.push(i as int));
        } else {
            if !(current.pid == asked.pid && text::is_text(
                &current.binary_version,
                request.version.as_str(),
            ) && live) {
                let version: &str = match &current.binary_version {
                    Some(version) => version.as_str(),
                    None => "(unrecorded)",
                };
                let pid = text::number(current.pid as u64);
                return Round::Failed(
                    name.concat(" came back as ").concat(version).concat(" (pid ").concat(
                        pid.as_str(),
                    ).concat(") instead of ").concat(request.version.as_str()).concat(
                        ": the exec of ",
                    ).concat(request.binary.as_str()).concat(
                        " failed and it goes on with its binary; see its log",
                    ),
                );
            }
            let ghost had = done@;
            let report = replaced(current.token.as_str(), asked);
            done.push(report);
            assert(done@.drop_last() =~= had);
        }
        i += 1;
    }
    Round::Going { waiting, done }
}

/// A handoff is done only for a supervisor that runs the new build under the
/// process that was asked, alive and heartbeating, with nothing left to take.
pub proof fn done_means_taken_over(
    all: Seq<SupervisorRegistration>,
    asked: SupervisorRegistration,
    request: Request,
    now: int,
)
    requires
        standing(all, asked, request, now) == Handoff::Done,
    ensures
        ({
            let current = all[came_back(all, asked, request.version@)->0];
            &&& current.pid == asked.pid
            &&& is_of(current, request.version@)
            &&& is_fresh(current, now, request.heartbeat_timeout as int)
            &&& current.handoff_binary is None
        }),
{
}

/// The names of supervisors.
pub open spec fn labels(list: Seq<SupervisorRegistration>) -> Seq<Seq<char>> {
    list.map_values(|r: SupervisorRegistration| label(r))
}

/// The names of supervisors.
pub fn all_labelled(list: &Vec<SupervisorRegistration>) -> (r: Vec<String>)
    ensures
        text::views(r@) == labels(list@),
{
    let mut out: Vec<String> = Vec::new();
    let mut i: usize = 0;
    while i < list.len()
        invariant
            i <= list@.len(),
            text::views(out@) == labels(list@).take(i as int),
        decreases list@.len() - i,
    {
        let ghost had = text::views(out@);
        let name = labelled(&list[i]);
        let ghost said = name@;
        out.push(name);
        assert(text::views(out@) =~= had.push(said));
        assert(labels(list@).take(i + 1) =~= labels(list@).take(i as int).push(
            label(list@[i as int]),
        ));
        i += 1;
    }
    assert(labels(list@).take(list@.len() as int) =~= labels(list@));
    out
}

/// Why a supervisor cannot be asked to hand off.
pub fn handoff_refused(r: &SupervisorRegistration) -> (s: String)
    ensures
        s@ == "supervisor "@ + label(*r)
            + " cannot take a handoff; stop it with `down --wait` and run `up`"@,
{
    let name = labelled(r);
    "supervisor ".to_owned().concat(name.as_str()).concat(
        " cannot take a handoff; stop it with `down --wait` and run `up`",
    )
}

/// Why a handoff that took too long is given up: the request is taken back,
/// since one left behind would have the supervisor run that path later, after
/// the caller put another binary there.
pub fn handoff_overdue(
    waiting: &Vec<SupervisorRegistration>,
    request: &Request,
    timeout_secs: u64,
) -> (s: String)
    ensures
        s@ == text::decimal(waiting@.len()) + " supervisor(s) did not take the handoff to "@
            + request.binary@ + " within "@ + text::decimal(timeout_secs as nat) + "s: "@
            + text::joined(labels(waiting@), ", "@)
            + "; they still finish their validations or landings in progress, so check `status` again"@,
{
    let count = text::number(waiting.len() as u64);
    let secs = text::number(timeout_secs);
    let names = all_labelled(waiting);
    let list = text::join(&names, ", ");
    count.concat(" supervisor(s) did not take the handoff to ").concat(
        request.binary.as_str(),
    ).concat(" within ").concat(secs.as_str()).concat("s: ").concat(list.as_str()).concat(
        "; they still finish their validations or landings in progress, so check `status` again",
    )
}

/// The registrations at these places.
pub open spec fn at_places(list: Seq<SupervisorRegistration>, at: Seq<int>) -> Seq<
    SupervisorRegistration,
> {
    at.map_values(|i: int| list[i])
}

/// Copies of the registrations at these places.
pub fn picked(list: &Vec<SupervisorRegistration>, at: &Vec<usize>) -> (r: Vec<
    SupervisorRegistration,
>)
    requires
        forall|k: int| 0 <= k < at@.len() ==> #[trigger] at@[k] < list@.len(),
    ensures
        r@ == at_places(list@, places(at@)),
{
    let mut out: Vec<SupervisorRegistration> = Vec::new();
    let mut i: usize = 0;
    while i < at.len()
        invariant
            i <= at@.len(),
            forall|k: int| 0 <= k < at@.len() ==> #[trigger] at@[k] < list@.len(),
            out@ == at_places(list@, places(at@)).take(i as int),
        decreases at@.len() - i,
    {
        out.push(list[at[i]].copy());
        assert(at_places(list@, places(at@)).take(i + 1) =~= at_places(list@, places(at@)).take(
            i as int,
        ).push(list@[at@[i as int] as int]));
        i += 1;
    }
    assert(at_places(list@, places(at@)).take(at@.len() as int) =~= at_places(
        list@,
        places(at@),
    ));
    out
}

/// What one look at the registrations comes to while `up` waits for a handoff.
pub enum HandoffStep {
    Failed(String),
    /// Every supervisor is back under the new build.
    Finished(Vec<Json>),
    /// `pending` are still waited for.
    Wait { pending: Vec<SupervisorRegistration>, done: Vec<Json> },
}

/// Wait until each supervisor asked to hand off has taken its registration
/// back under the new build, with the same process, before it is `overdue`.
/// One that stops heartbeating before it did, that deregistered without its
/// process registering again under the build, or that came back under another
/// build is an error naming it; the ones already handed over stay so.
pub fn wait_for_handoff(
    all: &Vec<SupervisorRegistration>,
    pending: &Vec<SupervisorRegistration>,
    done: Vec<Json>,
    request: &Request,
    now: i64,
    overdue: bool,
    timeout_secs: u64,
) -> (r: HandoffStep)
    ensures
        ({
            let n = pending@.len() as int;
            let left = at_places(
                pending@,
                waiting_places(all@, pending@, *request, now as int, n),
            );
            let reports = json::items_view(done@) + done_values(
                all@,
                pending@,
                *request,
                now as int,
                n,
            );
            match failed_from(all@, pending@, *request, now as int, 0) {
                Some(i) => r matches HandoffStep::Failed(why) && why@ == handoff_error(
                    all@,
                    pending@[i],
                    *request,
                    now as int,
                )->0,
                None => if left.len() == 0 {
                    r matches HandoffStep::Finished(list) && json::items_view(list@) == reports
                } else if overdue {
                    r matches HandoffStep::Failed(why) && why@ == text::decimal(left.len())
                        + " supervisor(s) did not take the handoff to "@ + request.binary@
                        + " within "@ + text::decimal(timeout_secs as nat) + "s: "@ + text::joined(
                        labels(left),
                        ", "@,
                    )
                        + "; they still finish their validations or landings in progress, so check `status` again"@
                } else {
                    r matches HandoffStep::Wait { pending: rest, done: list } && rest@ == left
                        && json::items_view(list@) == reports
                },
            }
        }),
{
    match handoff_round(all, pending, request, now) {
        Round::Failed(why) => HandoffStep::Failed(why),
        Round::Going { waiting, done: new } => {
            let rest = picked(pending, &waiting);
            let mut list = done;
            let mut new = new;
            proof {
                json::items_joined(list@, new@);
            }
            list.append(&mut new);
            if rest.len() == 0 {
                HandoffStep::Finished(list)
            } else if overdue {
                HandoffStep::Failed(handoff_overdue(&rest, request, timeout_secs))
            } else {
                HandoffStep::Wait { pending: rest, done: list }
            }
        },
    }
}

/// A registration is fresh exactly while its process lives and its last
/// heartbeat is no older than the timeout.
pub proof fn a_fresh_supervisor_lives_and_beats(
    registration: &SupervisorRegistration,
    now: i64,
    timeout: i64,
    r: bool,
)
    requires
        call_ensures(fresh, (registration, now, timeout), r),
        timeout < i64::MAX,
    ensures
        r <==> registration.alive && now - registration.heartbeat_at <= timeout,
{
}

/// The registrations are told apart by what was seen of each: the dead by
/// their processes, the live ones by their heartbeats too.
pub proof fn registrations_are_told_apart(
    all: &Vec<SupervisorRegistration>,
    now: i64,
    timeout: i64,
    r: Sorted,
    i: int,
)
    requires
        call_ensures(sort_out, (all, now, timeout), r),
        timeout < i64::MAX,
        0 <= i < all@.len(),
    ensures
        (exists|k: int| 0 <= k < r.dead@.len() && #[trigger] r.dead@[k] == i) <==> !all@[i].alive,
        (exists|k: int| 0 <= k < r.existing@.len() && #[trigger] r.existing@[k] == i)
            <==> all@[i].alive,
        (exists|k: int| 0 <= k < r.live@.len() && #[trigger] r.live@[k] == i) <==> all@[i].alive
            && now - all@[i].heartbeat_at <= timeout,
{
    dropped_or_kept(all@, now as int, timeout as int, all@.len() as int, i);
    listed_as_places(r.dead@, i);
    listed_as_places(r.existing@, i);
    listed_as_places(r.live@, i);
}

/// A place is listed exactly where its number is.
proof fn listed_as_places(list: Seq<usize>, i: int)
    ensures
        places(list).contains(i) <==> exists|k: int| 0 <= k < list.len() && #[trigger] list[k] == i,
{
    if places(list).contains(i) {
        let k = choose|k: int| 0 <= k < places(list).len() && places(list)[k] == i;
        assert(list[k] == i);
    }
    if exists|k: int| 0 <= k < list.len() && #[trigger] list[k] == i {
        let k = choose|k: int| 0 <= k < list.len() && #[trigger] list[k] == i;
        assert(places(list)[k] == i);
    }
}

/// The outdated supervisor is the first one that does not run the version;
/// where all run it, none is.
pub proof fn the_outdated_one_runs_another_version(
    live: Seq<SupervisorRegistration>,
    version: Seq<char>,
    from: int,
)
    requires
        0 <= from,
    ensures
        match outdated_from(live, version, from) {
            Some(i) => {
                &&& from <= i < live.len()
                &&& live[i].binary_version is None || live[i].binary_version->0@ != version
                &&& forall|j: int|
                    from <= j < i ==> (#[trigger] live[j]).binary_version is Some
                        && live[j].binary_version->0@ == version
            },
            None => forall|j: int|
                from <= j < live.len() ==> (#[trigger] live[j]).binary_version is Some
                    && live[j].binary_version->0@ == version,
        },
    decreases live.len() - from,
{
    if from < live.len() && live[from].binary_version is Some && live[from].binary_version->0@
        == version {
        the_outdated_one_runs_another_version(live, version, from + 1);
    }
}

/// The version that is replaced is that of the first supervisor that runs
/// another one.
pub proof fn the_replaced_version_is_another(
    live: &Vec<SupervisorRegistration>,
    version: &str,
    r: Option<String>,
)
    requires
        call_ensures(previous_version, (live, version), r),
    ensures
        r is Some ==> r->0@ != version@ && exists|i: int|
            0 <= i < live@.len() && (#[trigger] live@[i]).binary_version is Some
                && live@[i].binary_version->0@ == r->0@,
{
    the_outdated_one_runs_another_version(live@, version@, 0);
    if r is Some {
        let i = outdated_from(live@, version@, 0)->0;
        assert(live@[i].binary_version is Some);
    }
}

/// What is reported of a supervisor that was replaced is its own.
pub proof fn a_replaced_supervisor_is_reported_as_it_was(
    token: Seq<char>,
    r: SupervisorRegistration,
)
    ensures
        ({
            let v = replaced_value(token, r);
            &&& v is Object && v->Object_0.len() == 5
            &&& v->Object_0[0] == ("token"@, json::Value::Text(token))
            &&& v->Object_0[1] == ("pid"@, json::Value::Int(r.pid as int))
            &&& v->Object_0[2].0 == "mode"@
            &&& r.mode == Some(SupervisorMode::Launchd) ==> v->Object_0[2].1 == json::Value::Text(
                "launchd"@,
            )
            &&& r.mode == Some(SupervisorMode::InCmux) ==> v->Object_0[2].1 == json::Value::Text(
                "in_cmux"@,
            )
            &&& r.mode is None ==> v->Object_0[2].1 is Null
            &&& v->Object_0[3].0 == "workspace_id"@ && v->Object_0[4].0 == "version"@
            &&& r.workspace_id is Some ==> v->Object_0[3].1 == json::Value::Text(
                r.workspace_id->0@,
            )
            &&& r.workspace_id is None ==> v->Object_0[3].1 is Null
            &&& r.binary_version is Some ==> v->Object_0[4].1 == json::Value::Text(
                r.binary_version->0@,
            )
            &&& r.binary_version is None ==> v->Object_0[4].1 is Null
        }),
{
}

/// Supervisors take a handoff only where every one of them accepts it, and,
/// where launchd runs any, only where its agent runs the new binary.
pub proof fn a_handoff_needs_every_supervisor(
    live: &Vec<SupervisorRegistration>,
    exe: &str,
    plist: &Option<String>,
    r: bool,
)
    requires
        call_ensures(takes_handoff, (live, exe, plist), r),
    ensures
        r ==> forall|i: int| 0 <= i < live@.len() ==> (#[trigger] live@[i]).handoff_accepted,
        r && *plist is None ==> forall|i: int|
            0 <= i < live@.len() ==> (#[trigger] live@[i]).mode != Some(SupervisorMode::Launchd),
        r && *plist is Some && !text::has_part(
            plist->0@,
            crate::lifecycle::agent::runs_fragment(exe@),
        ) ==> forall|i: int|
            0 <= i < live@.len() ==> (#[trigger] live@[i]).mode != Some(SupervisorMode::Launchd),
        (forall|i: int|
            0 <= i < live@.len() ==> (#[trigger] live@[i]).handoff_accepted && live@[i].mode
                != Some(SupervisorMode::Launchd)) ==> r,
        (forall|i: int| 0 <= i < live@.len() ==> (#[trigger] live@[i]).handoff_accepted)
            && *plist is Some && text::has_part(
            plist->0@,
            crate::lifecycle::agent::runs_fragment(exe@),
        ) ==> r,
{
}

/// A supervisor is found again by its token.
proof fn a_token_is_found(all: Seq<SupervisorRegistration>, token: Seq<char>, from: int)
    requires
        0 <= from,
    ensures
        match with_token(all, token, from) {
            Some(i) => from <= i < all.len() && all[i].token@ == token,
            None => forall|j: int| from <= j < all.len() ==> (#[trigger] all[j]).token@ != token,
        },
    decreases all.len() - from,
{
    if from < all.len() && all[from].token@ != token {
        a_token_is_found(all, token, from + 1);
    }
}

/// A supervisor is found again by its process and the version it now runs.
proof fn a_process_is_found(
    all: Seq<SupervisorRegistration>,
    pid: u32,
    version: Seq<char>,
    from: int,
)
    requires
        0 <= from,
    ensures
        match with_pid(all, pid, version, from) {
            Some(i) => from <= i < all.len() && all[i].pid == pid && all[i].binary_version is Some
                && all[i].binary_version->0@ == version,
            None => forall|j: int|
                from <= j < all.len() && (#[trigger] all[j]).pid == pid ==> all[j].binary_version
                    is None || all[j].binary_version->0@ != version,
        },
    decreases all.len() - from,
{
    if from < all.len() && !(all[from].pid == pid && is_of(all[from], version)) {
        a_process_is_found(all, pid, version, from + 1);
    }
}

/// How a supervisor stands that was asked to hand over: it is gone where it is
/// found neither by its token nor as its process in the new version; it waits
/// while the request stands and it beats, and is silent where it does not; and
/// it is done only where the same process runs the new version and beats.
pub proof fn a_handoff_stands_as_seen(
    all: Seq<SupervisorRegistration>,
    asked: SupervisorRegistration,
    request: Request,
    now: i64,
)
    requires
        request.heartbeat_timeout < i64::MAX,
    ensures
        standing(all, asked, request, now as int) == Handoff::Gone <==> (forall|i: int|
            0 <= i < all.len() ==> (#[trigger] all[i]).token@ != asked.token@) && (forall|i: int|
            0 <= i < all.len() && (#[trigger] all[i]).pid == asked.pid ==> all[i].binary_version
                is None || all[i].binary_version->0@ != request.version@),
        standing(all, asked, request, now as int) == Handoff::Done ==> exists|i: int|
            {
                &&& 0 <= i < all.len()
                &&& (#[trigger] all[i]).pid == asked.pid
                &&& all[i].binary_version is Some && all[i].binary_version->0@ == request.version@
                &&& all[i].alive && now - all[i].heartbeat_at <= request.heartbeat_timeout
                &&& all[i].handoff_binary is None
            },
        standing(all, asked, request, now as int) == Handoff::Waiting ==> exists|i: int|
            {
                &&& 0 <= i < all.len()
                &&& (#[trigger] all[i]).token@ == asked.token@ || all[i].pid == asked.pid
                &&& all[i].handoff_binary is Some
                &&& all[i].alive && now - all[i].heartbeat_at <= request.heartbeat_timeout
            },
        standing(all, asked, request, now as int) == Handoff::Silent ==> exists|i: int|
            {
                &&& 0 <= i < all.len()
                &&& (#[trigger] all[i]).token@ == asked.token@ || all[i].pid == asked.pid
                &&& all[i].handoff_binary is Some
                &&& !all[i].alive || now - all[i].heartbeat_at > request.heartbeat_timeout
            },
        standing(all, asked, request, now as int) == Handoff::Other ==> exists|i: int|
            {
                &&& 0 <= i < all.len()
                &&& (#[trigger] all[i]).token@ == asked.token@ || all[i].pid == asked.pid
                &&& all[i].handoff_binary is None
            },
{
    a_token_is_found(all, asked.token@, 0);
    a_process_is_found(all, asked.pid, request.version@, 0);
    if let Some(i) = came_back(all, asked, request.version@) {
        assert(all[i].token@ == asked.token@ || all[i].pid == asked.pid);
    }
}

/// A handoff fails for a supervisor that is gone, silent or came back as
/// another, and for no other.
pub proof fn a_handoff_fails_only_for_a_cause(
    all: Seq<SupervisorRegistration>,
    asked: SupervisorRegistration,
    request: Request,
    now: int,
)
    ensures
        handoff_error(all, asked, request, now) is None <==> standing(all, asked, request, now)
            == Handoff::Waiting || standing(all, asked, request, now) == Handoff::Done,
{
}

/// The round fails for the first supervisor whose handoff failed.
proof fn the_first_failure_counts(
    all: Seq<SupervisorRegistration>,
    pending: Seq<SupervisorRegistration>,
    request: Request,
    now: int,
    from: int,
)
    requires
        0 <= from,
    ensures
        match failed_from(all, pending, request, now, from) {
            Some(i) => from <= i < pending.len() && handoff_error(all, pending[i], request, now)
                is Some,
            None => forall|j: int|
                from <= j < pending.len() ==> handoff_error(all, #[trigger] pending[j], request, now)
                    is None,
        },
    decreases pending.len() - from,
{
    if from < pending.len() && handoff_error(all, pending[from], request, now) is None {
        the_first_failure_counts(all, pending, request, now, from + 1);
    }
}

/// Those that wait are all that wait.
proof fn the_waiting_are_listed(
    all: Seq<SupervisorRegistration>,
    pending: Seq<SupervisorRegistration>,
    request: Request,
    now: int,
    n: int,
)
    requires
        0 <= n <= pending.len(),
    ensures
        forall|k: int|
            0 <= k < waiting_places(all, pending, request, now, n).len() ==> 0
                <= #[trigger] waiting_places(all, pending, request, now, n)[k] < n && standing(
                all,
                pending[waiting_places(all, pending, request, now, n)[k]],
                request,
                now,
            ) == Handoff::Waiting,
        forall|i: int|
            0 <= i < n && standing(all, #[trigger] pending[i], request, now) == Handoff::Waiting
                ==> waiting_places(all, pending, request, now, n).contains(i),
    decreases n,
{
    if n > 0 {
        the_waiting_are_listed(all, pending, request, now, n - 1);
        let before = waiting_places(all, pending, request, now, n - 1);
        let after = waiting_places(all, pending, request, now, n);
        assert forall|k: int| 0 <= k < after.len() implies 0 <= #[trigger] after[k] < n
            && standing(all, pending[after[k]], request, now) == Handoff::Waiting by {
            if k < before.len() {
                assert(after[k] == before[k]);
            }
        }
        assert forall|i: int|
            0 <= i < n && standing(all, #[trigger] pending[i], request, now)
                == Handoff::Waiting implies after.contains(i) by {
            if i < n - 1 {
                let k = choose|k: int| 0 <= k < before.len() && before[k] == i;
                assert(after[k] == i);
            } else {
                assert(after[before.len() as int] == i);
            }
        }
    }
}

/// A handoff finishes only once every supervisor that was asked runs the new
/// version in its own process and beats, and it is waited for only while one
/// still waits; it fails early only where one of them is gone, silent or
/// another.
pub proof fn a_handoff_finishes_when_all_took_it(
    all: &Vec<SupervisorRegistration>,
    pending: &Vec<SupervisorRegistration>,
    done: Vec<Json>,
    request: &Request,
    now: i64,
    overdue: bool,
    timeout_secs: u64,
    r: HandoffStep,
)
    requires
        call_ensures(
            wait_for_handoff,
            (all, pending, done, request, now, overdue, timeout_secs),
            r,
        ),
        request.heartbeat_timeout < i64::MAX,
    ensures
        r is Finished ==> forall|p: int|
            0 <= p < pending@.len() ==> exists|i: int|
                {
                    &&& 0 <= i < all@.len()
                    &&& (#[trigger] all@[i]).pid == (#[trigger] pending@[p]).pid
                    &&& all@[i].binary_version is Some && all@[i].binary_version->0@
                        == request.version@
                    &&& all@[i].alive && now - all@[i].heartbeat_at <= request.heartbeat_timeout
                },
        r matches HandoffStep::Wait { pending: rest, .. } ==> {
            &&& !overdue
            &&& rest@.len() > 0
            &&& forall|k: int|
                0 <= k < rest@.len() ==> pending@.contains(#[trigger] rest@[k]) && standing(
                    all@,
                    rest@[k],
                    *request,
                    now as int,
                ) == Handoff::Waiting
            &&& forall|p: int|
                0 <= p < pending@.len() && standing(
                    all@,
                    #[trigger] pending@[p],
                    *request,
                    now as int,
                ) == Handoff::Waiting ==> rest@.contains(pending@[p])
        },
        r is Failed && !overdue ==> exists|p: int|
            0 <= p < pending@.len() && standing(
                all@,
                #[trigger] pending@[p],
                *request,
                now as int,
            ) != Handoff::Waiting && standing(all@, pending@[p], *request, now as int)
                != Handoff::Done,
        (exists|p: int|
            0 <= p < pending@.len() && standing(
                all@,
                #[trigger] pending@[p],
                *request,
                now as int,
            ) == Handoff::Gone) ==> r is Failed,
{
    let n = pending@.len() as int;
    the_first_failure_counts(all@, pending@, *request, now as int, 0);
    the_waiting_are_listed(all@, pending@, *request, now as int, n);
    let at = waiting_places(all@, pending@, *request, now as int, n);
    if r is Finished {
        assert forall|p: int| 0 <= p < n implies exists|i: int|
            {
                &&& 0 <= i < all@.len()
                &&& (#[trigger] all@[i]).pid == (#[trigger] pending@[p]).pid
                &&& all@[i].binary_version is Some && all@[i].binary_version->0@
                    == request.version@
                &&& all@[i].alive && now - all@[i].heartbeat_at <= request.heartbeat_timeout
            } by {
            a_handoff_stands_as_seen(all@, pending@[p], *request, now);
            assert(handoff_error(all@, pending@[p], *request, now as int) is None);
            assert(at_places(pending@, at).len() == at.len());
            assert(!at.contains(p));
        }
    }
    if let HandoffStep::Wait { pending: rest, .. } = r {
        assert(rest@ == at_places(pending@, at));
        assert forall|k: int| 0 <= k < rest@.len() implies pending@.contains(#[trigger] rest@[k])
            && standing(all@, rest@[k], *request, now as int) == Handoff::Waiting by {
            assert(rest@[k] == pending@[at[k]]);
        }
        assert forall|p: int|
            0 <= p < n && standing(all@, #[trigger] pending@[p], *request, now as int)
                == Handoff::Waiting implies rest@.contains(pending@[p]) by {
            let k = choose|k: int| 0 <= k < at.len() && at[k] == p;
            assert(rest@[k] == pending@[p]);
        }
    }
    if exists|p: int|
        0 <= p < n && standing(all@, #[trigger] pending@[p], *request, now as int)
            == Handoff::Gone {
        let p = choose|p: int|
            0 <= p < n && standing(all@, #[trigger] pending@[p], *request, now as int)
                == Handoff::Gone;
        assert(handoff_error(all@, pending@[p], *request, now as int) is Some);
    }
}

/// A supervisor is named by its token and its process.
pub proof fn a_label_names_token_and_process(r: &SupervisorRegistration, s: String)
    requires
        call_ensures(labelled, (r,), s),
    ensures
        s@ == r.token@ + " (pid "@ + text::decimal(r.pid as nat) + ")"@,
{
}

/// The live supervisors are those whose process lives and beats, each in its
/// place, and the ones that exist those whose process lives.
pub proof fn the_live_are_those_that_beat(
    all: Seq<SupervisorRegistration>,
    now: i64,
    timeout: i64,
    n: int,
)
    requires
        0 <= n <= all.len(),
        timeout < i64::MAX,
    ensures
        forall|k: int|
            0 <= k < live_places(all, now as int, timeout as int, n).len() ==> {
                let i = #[trigger] live_places(all, now as int, timeout as int, n)[k];
                0 <= i < n && all[i].alive && now - all[i].heartbeat_at <= timeout
            },
        forall|i: int|
            0 <= i < n && (#[trigger] all[i]).alive && now - all[i].heartbeat_at <= timeout
                ==> live_places(all, now as int, timeout as int, n).contains(i),
        forall|k: int|
            0 <= k < alive_places(all, n).len() ==> {
                let i = #[trigger] alive_places(all, n)[k];
                0 <= i < n && all[i].alive
            },
        forall|i: int|
            0 <= i < n && (#[trigger] all[i]).alive ==> alive_places(all, n).contains(i),
        forall|k: int|
            0 <= k < dead_places(all, n).len() ==> {
                let i = #[trigger] dead_places(all, n)[k];
                0 <= i < n && !all[i].alive
            },
{
    places_are_below(all, now as int, timeout as int, n);
    let live = live_places(all, now as int, timeout as int, n);
    let alive = alive_places(all, n);
    let dead = dead_places(all, n);
    assert forall|k: int| 0 <= k < live.len() implies {
        let i = #[trigger] live[k];
        0 <= i < n && all[i].alive && now - all[i].heartbeat_at <= timeout
    } by {
        assert(live.contains(live[k]));
        dropped_or_kept(all, now as int, timeout as int, n, live[k]);
    }
    assert forall|k: int| 0 <= k < alive.len() implies {
        let i = #[trigger] alive[k];
        0 <= i < n && all[i].alive
    } by {
        assert(alive.contains(alive[k]));
        dropped_or_kept(all, now as int, timeout as int, n, alive[k]);
    }
    assert forall|k: int| 0 <= k < dead.len() implies {
        let i = #[trigger] dead[k];
        0 <= i < n && !all[i].alive
    } by {
        assert(dead.contains(dead[k]));
        dropped_or_kept(all, now as int, timeout as int, n, dead[k]);
    }
    assert forall|i: int|
        0 <= i < n && (#[trigger] all[i]).alive && now - all[i].heartbeat_at
            <= timeout implies live.contains(i) by {
        dropped_or_kept(all, now as int, timeout as int, n, i);
    }
    assert forall|i: int| 0 <= i < n && (#[trigger] all[i]).alive implies alive.contains(i) by {
        dropped_or_kept(all, now as int, timeout as int, n, i);
    }
}

/// A round fails exactly where one of those asked is gone, silent or another,
/// and goes on waiting exactly for those that still wait.
pub proof fn a_round_waits_for_those_that_wait(
    all: &Vec<SupervisorRegistration>,
    pending: &Vec<SupervisorRegistration>,
    request: &Request,
    now: i64,
    r: Round,
)
    requires
        call_ensures(handoff_round, (all, pending, request, now), r),
    ensures
        r is Failed <==> exists|p: int|
            0 <= p < pending@.len() && standing(
                all@,
                #[trigger] pending@[p],
                *request,
                now as int,
            ) != Handoff::Waiting && standing(all@, pending@[p], *request, now as int)
                != Handoff::Done,
        r matches Round::Going { waiting, .. } ==> forall|p: int|
            0 <= p < pending@.len() ==> ((exists|k: int|
                0 <= k < waiting@.len() && #[trigger] waiting@[k] == p) <==> standing(
                all@,
                #[trigger] pending@[p],
                *request,
                now as int,
            ) == Handoff::Waiting),
{
    let n = pending@.len() as int;
    the_first_failure_counts(all@, pending@, *request, now as int, 0);
    the_waiting_are_listed(all@, pending@, *request, now as int, n);
    if let Round::Going { waiting, done } = r {
        let at = waiting_places(all@, pending@, *request, now as int, n);
        assert forall|p: int| 0 <= p < n implies ((exists|k: int|
            0 <= k < waiting@.len() && #[trigger] waiting@[k] == p) <==> standing(
            all@,
            #[trigger] pending@[p],
            *request,
            now as int,
        ) == Handoff::Waiting) by {
            listed_as_places(waiting@, p);
            if at.contains(p) {
                let k = choose|k: int| 0 <= k < at.len() && at[k] == p;
                assert(standing(all@, pending@[at[k]], *request, now as int) == Handoff::Waiting);
            }
        }
    }
    if let Some(i) = failed_from(all@, pending@, *request, now as int, 0) {
        assert(standing(all@, pending@[i], *request, now as int) != Handoff::Waiting);
    }
}

} // verus!
