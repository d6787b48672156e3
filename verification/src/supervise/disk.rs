//! The free disk space that a claim and a landing need. On every pass the
//! supervisor reads the free bytes of the queue's directory and what a claim
//! and a landing need. Short of either, it cleans what the ended runs left, off
//! the loop, and reads again once that is done; the claims and landings wait
//! for it without a hold. Still short, it opens the queue's one ask about the
//! disk, once, and the runs whose landing waits for the disk join it.

use crate::domain::{age, elapsed, heartbeat_stale, is_stale, same_text, AskReason, Asker};
use crate::json;
use crate::json::{Fields, Json};
use crate::supervise::clock::{passed, since};
use crate::supervise::drive::{is_short, short};
use crate::text;
use vstd::prelude::*;
use vstd::string::*;

verus! {

/// How long the needs read from the recent builds are kept.
pub const NEEDS_INTERVAL: u128 = 60_000_000_000;

/// The least time between two cleanups for the disk.
pub const CLEANUP_INTERVAL: u128 = 60_000_000_000;

/// The free bytes that a claim and a landing need, where they are known.
#[derive(Debug, Clone, Copy, PartialEq, Eq, Structural)]
pub struct DiskNeeds {
    pub claim: Option<u64>,
    pub landing: Option<u64>,
}

/// The larger of the needs.
pub open spec fn most_of(needs: DiskNeeds) -> Option<u64> {
    match (needs.claim, needs.landing) {
        (Some(claim), Some(landing)) => Some(
            if landing >= claim {
                landing
            } else {
                claim
            },
        ),
        (Some(claim), None) => Some(claim),
        (None, landing) => landing,
    }
}

/// The larger of the needs.
pub fn most(needs: DiskNeeds) -> (r: Option<u64>)
    ensures
        r == most_of(needs),
{
    match needs.claim {
        Some(claim) => match needs.landing {
            Some(landing) => if landing >= claim {
                Some(landing)
            } else {
                Some(claim)
            },
            None => Some(claim),
        },
        None => needs.landing,
    }
}

/// Short of what the larger need asks is short of one of the two, and the other
/// way round.
pub proof fn short_of_the_most_is_short_of_one(free: Option<u64>, needs: DiskNeeds)
    ensures
        is_short(free, most_of(needs)) == (is_short(free, needs.claim) || is_short(
            free,
            needs.landing,
        )),
{
}

/// A reading of the needs.
#[derive(Debug, Clone, Copy, PartialEq, Eq, Structural)]
pub struct NeedsRead {
    pub at: u128,
    pub needs: DiskNeeds,
}

/// What the supervisor knows of the disk between passes.
pub struct DiskWatch {
    pub needs: Option<NeedsRead>,
    /// When the disk was last cleaned for room; none while there is room.
    pub cleaned: Option<u128>,
    /// The ask of this shortage was opened, or answered `wait`: it is not
    /// opened again until there is room, or a person answers `done`.
    pub asked: bool,
    /// The runs added to the ask.
    pub joined: Vec<String>,
    /// There is not room for a landing's verification.
    pub landing_short: bool,
    /// A cleanup for room runs or waits to: nothing is held or asked for until
    /// it is done.
    pub cleaning: bool,
}

impl DiskWatch {
    /// A watch that knows nothing yet.
    pub fn new() -> (r: DiskWatch)
        ensures
            r.needs is None,
            r.cleaned is None,
            !r.asked,
            r.joined@.len() == 0,
            !r.landing_short,
            !r.cleaning,
    {
        DiskWatch {
            needs: None,
            cleaned: None,
            asked: false,
            joined: Vec::new(),
            landing_short: false,
            cleaning: false,
        }
    }

    /// What a claim and a landing need, where it was read within
    /// [`NEEDS_INTERVAL`].
    pub fn disk_needs(&self, now: u128) -> (r: Option<DiskNeeds>)
        ensures
            r == (if self.needs is Some && passed(self.needs->0.at, now) < NEEDS_INTERVAL {
                Some(self.needs->0.needs)
            } else {
                None
            }),
    {
        match self.needs {
            Some(read) => if since(read.at, now) < NEEDS_INTERVAL {
                Some(read.needs)
            } else {
                None
            },
            None => None,
        }
    }

    /// The needs were read.
    pub fn needs_read(&mut self, now: u128, needs: DiskNeeds)
        ensures
            *final(self) == (DiskWatch {
                needs: Some(NeedsRead { at: now, needs }),
                ..*old(self)
            }),
    {
        self.needs = Some(NeedsRead { at: now, needs });
    }

    /// Whether what the ended runs left is to be cleaned for room: at most once
    /// every [`CLEANUP_INTERVAL`].
    pub fn clean_for_disk(&mut self, now: u128) -> (r: bool)
        ensures
            r == !(old(self).cleaned is Some && passed(old(self).cleaned->0, now)
                < CLEANUP_INTERVAL),
            *final(self) == (DiskWatch {
                cleaned: if r {
                    Some(now)
                } else {
                    old(self).cleaned
                },
                ..*old(self)
            }),
    {
        if let Some(at) = self.cleaned {
            if since(at, now) < CLEANUP_INTERVAL {
                return false;
            }
        }
        self.cleaned = Some(now);
        true
    }

    /// An answered ask is closed: `done` cleans and checks again at once and
    /// may ask again; anything else leaves the queue waiting without asking
    /// again.
    pub fn answered(&mut self, answer: &Option<String>)
        ensures
            if text::trimmed(
                match *answer {
                    Some(answer) => answer@,
                    None => ""@,
                },
            ) == "done"@ {
                !final(self).asked && final(self).cleaned is None && final(self).joined@.len() == 0
                    && final(self).needs == old(self).needs && final(self).landing_short == old(
                    self,
                ).landing_short && final(self).cleaning == old(self).cleaning
            } else {
                *final(self) == *old(self)
            },
    {
        let said = match answer {
            Some(answer) => text::trim(answer.as_str()),
            None => text::trim(""),
        };
        if text::same(said.as_str(), "done") {
            self.asked = false;
            self.cleaned = None;
            self.joined = Vec::new();
        }
    }

    /// There is room: what the shortage left is forgotten.
    pub fn has_room(&mut self)
        ensures
            !final(self).asked,
            final(self).cleaned is None,
            final(self).joined@.len() == 0,
            final(self).needs == old(self).needs,
            final(self).landing_short == old(self).landing_short,
            final(self).cleaning == old(self).cleaning,
    {
        self.asked = false;
        self.cleaned = None;
        self.joined = Vec::new();
    }

    /// There is room, and nothing was asked: the next shortage is cleaned for at
    /// once.
    pub fn is_clean(&mut self)
        ensures
            *final(self) == (DiskWatch { cleaned: None, ..*old(self) }),
    {
        self.cleaned = None;
    }

    /// A run joined the ask of this shortage.
    pub fn join(&mut self, run: String)
        ensures
            final(self).joined@ == old(self).joined@.push(run),
            final(self).asked == old(self).asked,
            final(self).needs == old(self).needs,
            final(self).cleaned == old(self).cleaned,
            final(self).landing_short == old(self).landing_short,
            final(self).cleaning == old(self).cleaning,
    {
        self.joined.push(run);
    }

    /// The ask of this shortage was opened.
    pub fn opened(&mut self)
        ensures
            *final(self) == (DiskWatch { asked: true, ..*old(self) }),
    {
        self.asked = true;
    }

    /// The reading of this pass is kept.
    pub fn keep(&mut self, cleaning: bool, landing_short: bool)
        ensures
            *final(self) == (DiskWatch { cleaning, landing_short, ..*old(self) }),
    {
        self.cleaning = cleaning;
        self.landing_short = landing_short;
    }
}

/// The queue's ask about the disk.
pub fn is_disk_ask(queue_hold: bool, category: AskReason, subject: &Option<String>) -> (r: bool)
    ensures
        r == (queue_hold && category == AskReason::Cost && text::opt_view(*subject) == Some(
            "disk"@,
        )),
{
    queue_hold && category == AskReason::Cost && text::is_text(subject, "disk")
}

/// An unclosed ask about the disk.
pub struct DiskAsk {
    pub id: i64,
    pub answer: Option<String>,
    pub answered: bool,
    pub open: bool,
}

/// Whether an ask is open.
pub open spec fn any_open(asks: Seq<DiskAsk>) -> bool {
    exists|i: int| 0 <= i < asks.len() && (#[trigger] asks[i]).open
}

/// Whether an ask is open.
fn find_open(asks: &Vec<DiskAsk>) -> (r: bool)
    ensures
        r == any_open(asks@),
{
    let mut i: usize = 0;
    while i < asks.len()
        invariant
            i <= asks@.len(),
            forall|j: int| 0 <= j < i ==> !(#[trigger] asks@[j]).open,
        decreases asks@.len() - i,
    {
        if asks[i].open {
            return true;
        }
        i += 1;
    }
    false
}

/// The place of the first answered ask at or after `from`.
pub open spec fn next_answered(asks: Seq<DiskAsk>, from: int) -> Option<int>
    decreases asks.len() - from,
{
    if from < 0 || from >= asks.len() {
        None
    } else if asks[from].answered {
        Some(from)
    } else {
        next_answered(asks, from + 1)
    }
}

/// The place of the first answered ask at or after `from`.
fn find_answered(asks: &Vec<DiskAsk>, from: usize) -> (r: Option<usize>)
    ensures
        match r {
            Some(i) => i < asks@.len() && next_answered(asks@, from as int) == Some(i as int),
            None => next_answered(asks@, from as int) is None,
        },
{
    let mut i: usize = from;
    while i < asks.len()
        invariant
            next_answered(asks@, from as int) == next_answered(asks@, i as int),
        decreases asks@.len() - i,
    {
        if asks[i].answered {
            return Some(i);
        }
        i += 1;
    }
    None
}

/// What a check of the disk did and observed.
#[derive(Default)]
pub struct CheckSeen {
    pub asks: Option<Vec<DiskAsk>>,
    /// The asks before this one are handled.
    pub applied: usize,
    pub needs: Option<DiskNeeds>,
    /// The free bytes, where they can be read.
    pub free: Option<Option<u64>>,
    /// A cleanup for room was asked for, as far as one is due.
    pub cleaned: bool,
    /// A cleanup for room runs or waits to.
    pub for_disk: Option<bool>,
    /// The reading is kept.
    pub kept: bool,
    /// The ask was opened or joined, or closed.
    pub settled: bool,
    /// The runs that wait for the integration slot.
    pub landings: Vec<String>,
    pub held: bool,
}

/// What a check of the disk does next.
pub enum CheckStep {
    ReadAsks,
    /// Close an answered ask and apply its answer.
    CloseAnswered { index: usize },
    ReadNeeds,
    ReadFree,
    CleanForDisk,
    ForDisk,
    /// Keep the reading for the claims and landings of this pass.
    Keep { cleaning: bool, landing_short: bool },
    /// Open the ask, or let the runs whose landing waits join it.
    AskForDisk { runs: Vec<String>, open: bool },
    /// There is room: forget the shortage and close its ask with this answer.
    CloseAsks { answer: &'static str },
    /// There is room, and nothing was asked.
    HaveRoom,
    /// Record the landings' hold, judged by the free and the needed bytes;
    /// nothing holds them where none waits.
    RecordLandingHold { judged: bool, free: Option<u64>, needed: Option<u64> },
    Done,
}

/// What a check of the disk comes to.
pub open spec fn checks(asked: bool, seen: CheckSeen, r: CheckStep) -> bool {
    if seen.asks is None {
        r is ReadAsks
    } else if next_answered(seen.asks->0@, seen.applied as int) is Some {
        r matches CheckStep::CloseAnswered { index } && Some(index as int) == next_answered(
            seen.asks->0@,
            seen.applied as int,
        )
    } else if seen.needs is None {
        r is ReadNeeds
    } else if seen.free is None {
        r is ReadFree
    } else {
        let needs = seen.needs->0;
        let free = seen.free->0;
        let lacking = is_short(free, most_of(needs));
        let landing_short = is_short(free, needs.landing);
        let open = any_open(seen.asks->0@);
        if lacking && !seen.cleaned {
            r is CleanForDisk
        } else if lacking && seen.for_disk is None {
            r is ForDisk
        } else {
            let cleaning = lacking && seen.for_disk->0;
            if !seen.kept {
                r == (CheckStep::Keep { cleaning, landing_short })
            } else if cleaning {
                r is Done
            } else if !seen.settled {
                if lacking {
                    r matches CheckStep::AskForDisk { runs, open: opened } && opened == open
                        && text::views(runs@) == (if landing_short {
                        text::views(seen.landings@)
                    } else {
                        Seq::empty()
                    })
                } else if open || asked {
                    r matches CheckStep::CloseAsks { answer } && answer@
                        == "the free disk space is enough again; closed by the runtime"@
                } else {
                    r is HaveRoom
                }
            } else if !seen.held {
                r == (CheckStep::RecordLandingHold {
                    judged: seen.landings@.len() > 0,
                    free,
                    needed: needs.landing,
                })
            } else {
                r is Done
            }
        }
    }
}

/// Check the free disk space for a pass: clean and ask when short, close the
/// ask when there is room, and record the landings' hold. While the cleanup for
/// room runs, nothing is held or asked for. `asked` is whether the ask of this
/// shortage was opened.
pub fn check_disk(asked: bool, seen: &CheckSeen) -> (r: CheckStep)
    ensures
        checks(asked, *seen, r),
{
    let asks = match &seen.asks {
        None => return CheckStep::ReadAsks,
        Some(asks) => asks,
    };
    if let Some(index) = find_answered(asks, seen.applied) {
        return CheckStep::CloseAnswered { index };
    }
    let needs = match seen.needs {
        None => return CheckStep::ReadNeeds,
        Some(needs) => needs,
    };
    let free = match seen.free {
        None => return CheckStep::ReadFree,
        Some(free) => free,
    };
    let lacking = short(free, most(needs));
    if lacking && !seen.cleaned {
        return CheckStep::CleanForDisk;
    }
    let cleaning = if lacking {
        match seen.for_disk {
            None => return CheckStep::ForDisk,
            Some(for_disk) => for_disk,
        }
    } else {
        false
    };
    let landing_short = short(free, needs.landing);
    if !seen.kept {
        return CheckStep::Keep { cleaning, landing_short };
    }
    if cleaning {
        return CheckStep::Done;
    }
    if !seen.settled {
        let open = find_open(asks);
        if lacking {
            let runs = if landing_short {
                text::copied(&seen.landings)
            } else {
                Vec::new()
            };
            assert(!landing_short ==> text::views(runs@) =~= Seq::empty());
            return CheckStep::AskForDisk { runs, open };
        }
        return if open || asked {
            CheckStep::CloseAsks {
                answer: "the free disk space is enough again; closed by the runtime",
            }
        } else {
            CheckStep::HaveRoom
        };
    }
    if !seen.held {
        return CheckStep::RecordLandingHold {
            judged: seen.landings.len() > 0,
            free,
            needed: needs.landing,
        };
    }
    CheckStep::Done
}

/// A person is asked about the disk only while it is short of what a claim or a
/// landing needs, and no cleanup for room runs.
pub proof fn the_disk_is_asked_for_only_when_short(asked: bool, seen: CheckSeen, r: CheckStep)
    requires
        checks(asked, seen, r),
        r is AskForDisk,
    ensures
        is_short(seen.free->0, seen.needs->0.claim) || is_short(
            seen.free->0,
            seen.needs->0.landing,
        ),
        seen.cleaned,
        seen.for_disk == Some(false),
{
    short_of_the_most_is_short_of_one(seen.free->0, seen.needs->0);
}

/// The runs that did not join the ask yet, among the first `n`.
pub open spec fn not_joined(runs: Seq<Seq<char>>, joined: Seq<Seq<char>>, n: int) -> Seq<Seq<char>>
    decreases n,
{
    if n <= 0 || n > runs.len() {
        Seq::empty()
    } else if joined.contains(runs[n - 1]) {
        not_joined(runs, joined, n - 1)
    } else {
        not_joined(runs, joined, n - 1).push(runs[n - 1])
    }
}

/// Who the ask about the disk is opened for, or joined by.
pub enum Joining {
    /// Nothing more until there is room.
    Waiting,
    /// The queue, with no run.
    Queue,
    Runs(Vec<String>),
}

/// Open the ask of this shortage, or add the runs whose landing waits for the
/// disk to the open one; once opened it is not opened again until there is room
/// or a person answers `done`.
pub fn ask_for_disk(watch: &DiskWatch, runs: &Vec<String>, open: bool) -> (r: Joining)
    ensures
        if watch.asked {
            if !open {
                r is Waiting
            } else {
                r matches Joining::Runs(list) && text::views(list@) == not_joined(
                    text::views(runs@),
                    text::views(watch.joined@),
                    runs@.len() as int,
                )
            }
        } else if runs@.len() == 0 {
            r is Queue
        } else {
            r matches Joining::Runs(list) && text::views(list@) == text::views(runs@)
        },
{
    if !watch.asked {
        return if runs.len() == 0 {
            Joining::Queue
        } else {
            Joining::Runs(text::copied(runs))
        };
    }
    if !open {
        return Joining::Waiting;
    }
    let mut out: Vec<String> = Vec::new();
    let mut i: usize = 0;
    assert(text::views(out@) =~= Seq::empty());
    while i < runs.len()
        invariant
            i <= runs@.len(),
            text::views(out@) == not_joined(
                text::views(runs@),
                text::views(watch.joined@),
                i as int,
            ),
        decreases runs@.len() - i,
    {
        assert(text::views(runs@)[i as int] == runs@[i as int]@);
        if !text::lists(&watch.joined, runs[i].as_str()) {
            let ghost had = out@;
            out.push(runs[i].clone());
            assert(text::views(out@) =~= text::views(had).push(runs@[i as int]@));
        }
        i += 1;
    }
    Joining::Runs(out)
}

/// The question of the ask about the disk. `free`, `claim` and `landing` are
/// the sizes as they are shown.
pub fn disk_question(free: &str, claim: &str, landing: &str) -> (r: String)
    ensures
        r@
            == "The free disk space of the queue's directory stays below what the runs need, and cleaning what the ended runs left (their build outputs, the worktrees of completed and canceled tasks, `git worktree prune`) did not free enough: "@
            + free@ + " free, a new run needs "@ + claim@ + " and a landing's verification "@
            + landing@
            + " (the largest build of the recent runs times [disk] claim_factor / integrate_factor of dagq.toml). No new run is claimed and no run lands until there is room; the runs in flight go on. Free disk space (for example the worktrees of failed runs nobody looks at any more, or other files on that disk) and answer `done`, or answer `wait` to leave the queue waiting: the supervisor resumes by itself once there is room."@,
{
    "The free disk space of the queue's directory stays below what the runs need, and cleaning what the ended runs left (their build outputs, the worktrees of completed and canceled tasks, `git worktree prune`) did not free enough: ".to_owned().concat(
    free).concat(" free, a new run needs ").concat(claim).concat(
        " and a landing's verification ",
    ).concat(landing).concat(
        " (the largest build of the recent runs times [disk] claim_factor / integrate_factor of dagq.toml). No new run is claimed and no run lands until there is room; the runs in flight go on. Free disk space (for example the worktrees of failed runs nobody looks at any more, or other files on that disk) and answer `done`, or answer `wait` to leave the queue waiting: the supervisor resumes by itself once there is room.",
    )
}

/// The sizes of the builds that the first `n` payloads record.
pub open spec fn build_sizes(payloads: Seq<Json>, n: int) -> Seq<int>
    decreases n,
{
    if n <= 0 || n > payloads.len() {
        Seq::empty()
    } else {
        let before = build_sizes(payloads, n - 1);
        match json::nat_of(json::at(payloads[n - 1]@, "bytes"@)) {
            Some(bytes) => before.push(bytes),
            None => before,
        }
    }
}

/// The sizes of the builds that the latest removals of build outputs record.
pub fn builds(payloads: &Vec<Json>) -> (r: Vec<u64>)
    ensures
        r@.map_values(|bytes: u64| bytes as int) == build_sizes(payloads@, payloads@.len() as int),
{
    let mut out: Vec<u64> = Vec::new();
    let mut i: usize = 0;
    assert(out@.map_values(|bytes: u64| bytes as int) =~= Seq::empty());
    while i < payloads.len()
        invariant
            i <= payloads@.len(),
            out@.map_values(|bytes: u64| bytes as int) == build_sizes(payloads@, i as int),
        decreases payloads@.len() - i,
    {
        if let Some(bytes) = payloads[i].natural("bytes") {
            let ghost had = out@;
            out.push(bytes);
            assert(out@.map_values(|bytes: u64| bytes as int) =~= had.map_values(
                |bytes: u64| bytes as int,
            ).push(bytes as int));
        }
        i += 1;
    }
    out
}

/// What was removed of the ended runs.
pub struct Cleaned {
    pub bytes: u64,
    pub runs: Vec<String>,
}

impl Cleaned {
    /// Nothing yet.
    pub fn new() -> (r: Cleaned)
        ensures
            r.bytes == 0,
            r.runs@.len() == 0,
    {
        Cleaned { bytes: 0, runs: Vec::new() }
    }

    /// A run whose files were removed; one that freed nothing does not count.
    pub fn add(&mut self, run: &str, bytes: u64)
        requires
            old(self).bytes + bytes <= u64::MAX,
        ensures
            final(self).bytes == old(self).bytes + bytes,
            text::views(final(self).runs@) == (if bytes > 0 {
                text::views(old(self).runs@).push(run@)
            } else {
                text::views(old(self).runs@)
            }),
    {
        if bytes > 0 {
            let ghost had = self.runs@;
            self.bytes = self.bytes + bytes;
            self.runs.push(run.to_owned());
            assert(text::views(self.runs@) =~= text::views(had).push(run@));
        }
    }
}

/// A cleanup for disk space: the free bytes before it and what was needed.
#[derive(Debug, Clone, Copy, PartialEq, Eq, Structural)]
pub struct DiskRequest {
    pub free: Option<u64>,
    pub needed: Option<u64>,
}

/// A size, or nothing.
pub open spec fn size_value(bytes: Option<u64>) -> json::Value {
    match bytes {
        Some(bytes) => json::Value::Int(bytes as int),
        None => json::Value::Null,
    }
}

/// A size, or nothing.
fn size_json(bytes: Option<u64>) -> (r: Json)
    ensures
        r@ == size_value(bytes),
{
    match bytes {
        Some(bytes) => Json::Int(bytes as i128),
        None => Json::Null,
    }
}

/// What `auto_repaired` records of a cleanup for room, where it freed
/// something: the free bytes before and `after` it.
pub fn cleaned_for_disk(
    request: DiskRequest,
    removed: &Cleaned,
    after: Option<u64>,
    supervisor: &str,
) -> (r: Option<Json>)
    ensures
        if removed.bytes == 0 {
            r is None
        } else {
            r matches Some(payload) && payload@ == json::Value::Object(
                json::none().push(("repair"@, json::Value::Text("disk_cleanup"@))).push(
                    ("layer"@, json::Value::Text("runtime"@)),
                ).push(
                    (
                        "conditions"@,
                        json::Value::Object(
                            json::none().push(("free_bytes"@, size_value(request.free))).push(
                                ("needed_bytes"@, size_value(request.needed)),
                            ).push(("free_bytes_after"@, size_value(after))),
                        ),
                    ),
                ).push(
                    (
                        "detail"@,
                        json::Value::Object(
                            json::none().push(
                                ("bytes"@, json::Value::Int(removed.bytes as int)),
                            ).push(("runs"@, json::list_of(text::views(removed.runs@)))),
                        ),
                    ),
                ).push(("bytes"@, json::Value::Int(removed.bytes as int))).push(
                    ("supervisor"@, json::Value::Text(supervisor@)),
                ),
            )
        },
{
    if removed.bytes == 0 {
        return None;
    }
    let conditions = Fields::new().with("free_bytes", size_json(request.free)).with(
        "needed_bytes",
        size_json(request.needed),
    ).with("free_bytes_after", size_json(after)).done();
    let detail = Fields::new().number("bytes", removed.bytes as i128).texts(
        "runs",
        &removed.runs,
    ).done();
    Some(
        Fields::new().text("repair", "disk_cleanup").text("layer", "runtime").with(
            "conditions",
            conditions,
        ).with("detail", detail).number("bytes", removed.bytes as i128).text(
            "supervisor",
            supervisor,
        ).done(),
    )
}

/// A supervisor as it registered.
pub struct Registration {
    pub token: String,
    pub heartbeat_at: i64,
    /// Its process is there.
    pub alive: bool,
}

/// The tokens of the first `n` supervisors that run.
pub open spec fn live_of(
    all: Seq<Registration>,
    now: int,
    timeout: int,
    n: int,
) -> Seq<Seq<char>>
    decreases n,
{
    if n <= 0 || n > all.len() {
        Seq::empty()
    } else if is_stale(all[n - 1].alive, elapsed(all[n - 1].heartbeat_at as int, now), timeout) {
        live_of(all, now, timeout, n - 1)
    } else {
        live_of(all, now, timeout, n - 1).push(all[n - 1].token@)
    }
}

/// The tokens of the supervisors that run: a hold another one recorded is in
/// place only while it runs.
pub fn live_tokens(all: &Vec<Registration>, now: i64, timeout: i64) -> (r: Vec<String>)
    ensures
        text::views(r@) == live_of(all@, now as int, timeout as int, all@.len() as int),
{
    let mut out: Vec<String> = Vec::new();
    let mut i: usize = 0;
    assert(text::views(out@) =~= Seq::empty());
    while i < all.len()
        invariant
            i <= all@.len(),
            text::views(out@) == live_of(all@, now as int, timeout as int, i as int),
        decreases all@.len() - i,
    {
        if !heartbeat_stale(all[i].alive, age(all[i].heartbeat_at, now), timeout) {
            let ghost had = out@;
            out.push(all[i].token.clone());
            assert(text::views(out@) =~= text::views(had).push(all@[i as int].token@));
        }
        i += 1;
    }
    out
}

/// What is recorded of a hold that changed: that it holds, or no longer does.
pub struct HoldChange {
    pub kind: String,
    pub payload: Json,
}

/// What has been done and observed of recording a hold.
#[derive(Default)]
pub struct HoldSeen {
    /// The latest event of the hold was read.
    pub last_read: bool,
    /// The supervisors of the queue.
    pub supervisors: Option<Vec<Registration>>,
    /// How the hold differs from the one in place, if it does.
    pub change: Option<Option<HoldChange>>,
    pub recorded: bool,
}

/// What recording a hold does next, or whether it holds.
pub enum HoldRecordStep {
    ReadLast,
    ReadSupervisors,
    /// Hold it against the latest event, whose holder counts where it is one of
    /// these.
    Transition { live: Vec<String> },
    Record { kind: String, payload: Json },
    Held(bool),
}

/// What recording a hold comes to.
pub open spec fn records_hold(
    held: bool,
    now: i64,
    timeout: i64,
    seen: HoldSeen,
    r: HoldRecordStep,
) -> bool {
    if !seen.last_read {
        r is ReadLast
    } else {
        match seen.supervisors {
            None => r is ReadSupervisors,
            Some(all) => match seen.change {
                None => r matches HoldRecordStep::Transition { live } && text::views(live@)
                    == live_of(all@, now as int, timeout as int, all@.len() as int),
                Some(Some(change)) if !seen.recorded => r matches HoldRecordStep::Record {
                    kind,
                    payload,
                } && kind@ == change.kind@ && payload@ == change.payload@,
                Some(_) => r == HoldRecordStep::Held(held),
            },
        }
    }
}

/// Record that claims or landings are held, or are no longer, where that differs
/// from the hold in place on the queue: one that another supervisor recorded is
/// in place only while that one runs. Whether they are held.
pub fn record_hold(held: bool, now: i64, timeout: i64, seen: &HoldSeen) -> (r: HoldRecordStep)
    ensures
        records_hold(held, now, timeout, *seen, r),
{
    if !seen.last_read {
        return HoldRecordStep::ReadLast;
    }
    let all = match &seen.supervisors {
        None => return HoldRecordStep::ReadSupervisors,
        Some(all) => all,
    };
    match &seen.change {
        None => HoldRecordStep::Transition { live: live_tokens(all, now, timeout) },
        Some(None) => HoldRecordStep::Held(held),
        Some(Some(change)) => if seen.recorded {
            HoldRecordStep::Held(held)
        } else {
            HoldRecordStep::Record { kind: change.kind.clone(), payload: change.payload.copy() }
        },
    }
}

/// A supervisor counts as a hold's holder exactly while its heartbeat is not
/// stale.
pub proof fn a_hold_lasts_while_its_supervisor_runs(
    all: Seq<Registration>,
    now: int,
    timeout: int,
    n: int,
    token: Seq<char>,
)
    requires
        0 <= n <= all.len(),
    ensures
        live_of(all, now, timeout, n).contains(token) <==> exists|i: int|
            0 <= i < n && (#[trigger] all[i]).token@ == token && !is_stale(
                all[i].alive,
                elapsed(all[i].heartbeat_at as int, now),
                timeout,
            ),
    decreases n,
{
    if n > 0 {
        a_hold_lasts_while_its_supervisor_runs(all, now, timeout, n - 1, token);
        let before = live_of(all, now, timeout, n - 1);
        let after = live_of(all, now, timeout, n);
        if is_stale(all[n - 1].alive, elapsed(all[n - 1].heartbeat_at as int, now), timeout) {
            assert(after == before);
        } else {
            assert(after == before.push(all[n - 1].token@));
            assert(after[before.len() as int] == all[n - 1].token@);
            if before.contains(token) {
                let k = choose|k: int| 0 <= k < before.len() && before[k] == token;
                assert(after[k] == token);
            }
            if after.contains(token) {
                let k = choose|k: int| 0 <= k < after.len() && after[k] == token;
                if k < before.len() {
                    assert(before[k] == token);
                    assert(before.contains(token));
                } else {
                    assert(all[n - 1].token@ == token);
                }
            }
        }
    }
}

/// The hold of the queue, as an ask, for want of disk space.
pub struct NewHold {
    pub category: AskReason,
    pub subject: String,
    /// The run whose landing waits for it.
    pub run_id: Option<String>,
    pub question: String,
    pub options: Vec<String>,
    pub asked_by: Asker,
}

/// The ask about the disk, of a run whose landing waits or of the queue. Its
/// subject and its options are the queue's to say.
pub fn disk_hold(
    run: &Option<String>,
    question: &str,
    subject: &str,
    options: &Vec<String>,
) -> (r: NewHold)
    ensures
        r.category == AskReason::Cost,
        r.subject@ == subject@,
        text::opt_view(r.run_id) == text::opt_view(*run),
        r.question@ == question@,
        text::views(r.options@) == text::views(options@),
        r.asked_by == Asker::Supervisor,
{
    NewHold {
        category: AskReason::Cost,
        subject: subject.to_owned(),
        run_id: same_text(run),
        question: question.to_owned(),
        options: text::copied(options),
        asked_by: Asker::Supervisor,
    }
}

/// The free bytes of the queue's directory: those of where the worktrees are,
/// else those of where the database is.
pub fn free_bytes(runs_dir: Option<u64>, db_dir: Option<u64>) -> (r: Option<u64>)
    ensures
        r == (match runs_dir {
            Some(free) => Some(free),
            None => db_dir,
        }),
{
    match runs_dir {
        Some(free) => Some(free),
        None => db_dir,
    }
}

/// Disk is short exactly where the free space is known to be less than what a
/// claim or a landing is known to need.
pub proof fn the_disk_is_short_of_what_is_needed(free: u64, needs: DiskNeeds)
    ensures
        is_short(Some(free), most_of(needs)) <==> (needs.claim is Some && free < needs.claim->0) || (
        needs.landing is Some && free < needs.landing->0),
        !is_short(None, most_of(needs)),
        most_of(needs) matches Some(most) ==> (needs.claim is Some ==> needs.claim->0 <= most) && (
        needs.landing is Some ==> needs.landing->0 <= most),
{
}

/// The disk is cleaned first where it is short, a person is asked only where
/// that did not help, and the asks are closed once there is room; landings are
/// held back for want of the room they need.
pub proof fn a_short_disk_is_cleaned_then_asked_for(asked: bool, seen: CheckSeen, r: CheckStep)
    requires
        checks(asked, seen, r),
    ensures
        r is ReadAsks <==> seen.asks is None,
        r matches CheckStep::CloseAnswered { index } ==> seen.applied <= index
            < seen.asks->0@.len() && seen.asks->0@[index as int].answered,
        r is CleanForDisk ==> !seen.cleaned && is_short(seen.free->0, most_of(seen.needs->0)),
        r is AskForDisk ==> seen.cleaned && seen.for_disk is Some && !seen.for_disk->0 && (
        seen.free matches Some(Some(free)) && ((seen.needs->0.claim is Some && free
            < seen.needs->0.claim->0) || (seen.needs->0.landing is Some && free
            < seen.needs->0.landing->0))),
        r is CloseAsks || r is HaveRoom ==> !is_short(seen.free->0, most_of(seen.needs->0)),
        r matches CheckStep::AskForDisk { runs, open } ==> (open <==> exists|i: int|
            0 <= i < seen.asks->0@.len() && (#[trigger] seen.asks->0@[i]).open) && (runs@.len() == (
        if seen.needs->0.landing is Some && seen.free->0 is Some && seen.free->0->0
            < seen.needs->0.landing->0 {
            seen.landings@.len()
        } else {
            0
        })),
        r matches CheckStep::Keep { cleaning, landing_short } ==> {
            &&& landing_short <==> seen.free->0 is Some && seen.needs->0.landing is Some
                && seen.free->0->0 < seen.needs->0.landing->0
            &&& cleaning ==> is_short(seen.free->0, most_of(seen.needs->0)) && seen.for_disk is Some
                && seen.for_disk->0
        },
        r matches CheckStep::RecordLandingHold { judged, free, needed } ==> (judged
            <==> seen.landings@.len() > 0) && seen.free == Some(free) && needed
            == seen.needs->0.landing && seen.settled,
{
    if seen.asks is Some {
        first_answered(seen.asks->0@, seen.applied as int);
    }
    if let CheckStep::AskForDisk { runs, open } = r {
        assert(text::views(runs@).len() == runs@.len());
        assert(text::views(seen.landings@).len() == seen.landings@.len());
    }
}

proof fn first_answered(asks: Seq<DiskAsk>, from: int)
    requires
        0 <= from,
    ensures
        next_answered(asks, from) matches Some(at) ==> from <= at < asks.len()
            && asks[at].answered,
    decreases asks.len() - from,
{
    if from < asks.len() && !asks[from].answered {
        first_answered(asks, from + 1);
    }
}

/// Runs join an open ask once; where none is open and one was asked they wait,
/// and where none was asked a new one is opened for the runs or for the queue.
pub proof fn a_run_joins_an_ask_once(
    watch: &DiskWatch,
    runs: &Vec<String>,
    open: bool,
    r: Joining,
)
    requires
        call_ensures(ask_for_disk, (watch, runs, open), r),
    ensures
        r is Waiting <==> watch.asked && !open,
        r is Queue <==> !watch.asked && runs@.len() == 0,
        r matches Joining::Runs(list) ==> forall|i: int|
            0 <= i < list@.len() ==> text::views(runs@).contains((#[trigger] list@[i])@) && (
            watch.asked ==> !text::views(watch.joined@).contains(list@[i]@)),
{
    if let Joining::Runs(list) = r {
        let views = text::views(list@);
        let all = text::views(runs@);
        let joined = text::views(watch.joined@);
        assert(all.len() == runs@.len());
        new_ones(all, joined, runs@.len() as int);
        assert forall|i: int| 0 <= i < list@.len() implies all.contains((#[trigger] list@[i])@) && (
        watch.asked ==> !joined.contains(list@[i]@)) by {
            assert(views[i] == list@[i]@);
            if !watch.asked {
                assert(all[i] == list@[i]@);
            }
        }
    }
}

proof fn new_ones(runs: Seq<Seq<char>>, joined: Seq<Seq<char>>, n: int)
    requires
        0 <= n <= runs.len(),
    ensures
        forall|i: int|
            0 <= i < not_joined(runs, joined, n).len() ==> runs.contains(
                #[trigger] not_joined(runs, joined, n)[i],
            ) && !joined.contains(not_joined(runs, joined, n)[i]),
    decreases n,
{
    if n > 0 {
        new_ones(runs, joined, n - 1);
        let before = not_joined(runs, joined, n - 1);
        let after = not_joined(runs, joined, n);
        assert forall|i: int| 0 <= i < after.len() implies runs.contains(#[trigger] after[i])
            && !joined.contains(after[i]) by {
            if i < before.len() {
                assert(after[i] == before[i]);
            } else {
                assert(after[i] == runs[n - 1]);
            }
        }
    }
}

/// A cleanup for the disk is recorded exactly where it freed something.
pub proof fn a_cleanup_that_freed_is_recorded(
    request: DiskRequest,
    removed: &Cleaned,
    after: Option<u64>,
    supervisor: &str,
    r: Option<Json>,
)
    requires
        call_ensures(cleaned_for_disk, (request, removed, after, supervisor), r),
    ensures
        r is Some <==> removed.bytes > 0,
        r matches Some(payload) ==> payload@ is Object && payload@->Object_0[4] == (
            "bytes"@,
            json::Value::Int(removed.bytes as int),
        ),
{
}

/// The free space is that of the runs' directory, or else of the queue's.
pub proof fn free_space_is_that_of_the_runs(
    runs_dir: Option<u64>,
    db_dir: Option<u64>,
    r: Option<u64>,
)
    requires
        call_ensures(free_bytes, (runs_dir, db_dir), r),
    ensures
        runs_dir is Some ==> r == runs_dir,
        runs_dir is None ==> r == db_dir,
{
}

/// A hold is recorded once for each change, among the supervisors that live,
/// and is then as was judged.
pub proof fn a_hold_is_recorded_once(
    held: bool,
    now: i64,
    timeout: i64,
    seen: HoldSeen,
    r: HoldRecordStep,
)
    requires
        records_hold(held, now, timeout, seen, r),
    ensures
        r is ReadLast <==> !seen.last_read,
        r is ReadSupervisors <==> seen.last_read && seen.supervisors is None,
        r is Transition <==> seen.last_read && seen.supervisors is Some && seen.change is None,
        r is Record <==> seen.last_read && seen.supervisors is Some && (
        seen.change matches Some(Some(_))) && !seen.recorded,
        r matches HoldRecordStep::Held(is) ==> is == held,
{
}

/// A supervisor lives whose process is there and whose heartbeat is within the
/// timeout, and no other.
pub proof fn live_supervisors_beat(
    all: Seq<Registration>,
    now: i64,
    timeout: i64,
    i: int,
)
    requires
        0 <= i < all.len(),
        forall|j: int| 0 <= j < all.len() && j != i ==> (#[trigger] all[j]).token@ != all[i].token@,
        i64::MIN <= now - all[i].heartbeat_at <= i64::MAX,
    ensures
        live_of(all, now as int, timeout as int, all.len() as int).contains(all[i].token@)
            <==> all[i].alive && now - all[i].heartbeat_at <= timeout,
{
    a_hold_lasts_while_its_supervisor_runs(
        all,
        now as int,
        timeout as int,
        all.len() as int,
        all[i].token@,
    );
    assert(all[i].token@ == all[i].token@);
}

/// Room is cleaned for at once the first time, and again only a minute or more
/// after the last time; a time that cleans is remembered, and nothing else of
/// the watch changes.
pub proof fn cleaning_is_spaced(watch: &mut DiskWatch, now: u128, r: bool)
    requires
        call_ensures(DiskWatch::clean_for_disk, (watch, now), r),
    ensures
        old(watch).cleaned is None ==> r,
        old(watch).cleaned is Some && now >= old(watch).cleaned->0 ==> (r <==> now - old(watch).cleaned->0 >= 60_000_000_000),
        r ==> final(watch).cleaned == Some(now),
        !r ==> final(watch).cleaned == old(watch).cleaned,
        final(watch).asked == old(watch).asked && final(watch).joined == old(watch).joined
            && final(watch).needs == old(watch).needs,
{
}

/// Needs that were read hold for a minute and are then read again.
pub proof fn needs_hold_for_a_minute(watch: &DiskWatch, now: u128, r: Option<DiskNeeds>)
    requires
        call_ensures(DiskWatch::disk_needs, (watch, now), r),
    ensures
        watch.needs is None ==> r is None,
        watch.needs is Some && now >= watch.needs->0.at ==> (r is Some <==> now - watch.needs->0.at
            < 60_000_000_000),
        r is Some ==> r == Some(watch.needs->0.needs),
{
}

/// Needs that were read are remembered with their time.
pub proof fn read_needs_are_remembered(watch: &mut DiskWatch, now: u128, needs: DiskNeeds, r: ())
    requires
        call_ensures(DiskWatch::needs_read, (watch, now, needs), r),
    ensures
        final(watch).needs is Some,
        final(watch).needs->0.at == now && final(watch).needs->0.needs == needs,
        final(watch).asked == old(watch).asked && final(watch).cleaned == old(watch).cleaned
            && final(watch).joined == old(watch).joined,
{
}

/// Only the answer that room was made lets the queue clean and ask again; any
/// other leaves everything as it was.
pub proof fn only_done_lets_it_ask_again(
    watch: &mut DiskWatch,
    answer: &Option<String>,
    r: (),
)
    requires
        call_ensures(DiskWatch::answered, (watch, answer), r),
    ensures
        *answer is Some && text::trimmed(answer->0@) == "done"@ ==> !final(watch).asked && final(watch).cleaned is None && final(watch).joined@.len() == 0,
        *answer is Some && text::trimmed(answer->0@) != "done"@ ==> *final(watch) == *old(watch),
        final(watch).needs == old(watch).needs && final(watch).landing_short == old(watch).landing_short,
{
}

/// Once there is room, nothing of the shortage is left.
pub proof fn room_ends_a_shortage(watch: &mut DiskWatch, r: ())
    requires
        call_ensures(DiskWatch::has_room, (watch,), r),
    ensures
        !final(watch).asked && final(watch).cleaned is None && final(watch).joined@.len() == 0,
        final(watch).needs == old(watch).needs,
{
}

/// A run that joins is remembered after those that joined before; an ask that
/// opened is remembered; a reading that is kept replaces the one before.
pub proof fn a_shortage_remembers_what_happened(
    watch: &mut DiskWatch,
    run: String,
    cleaning: bool,
    landing_short: bool,
    r: (),
)
    ensures
        call_ensures(DiskWatch::join, (watch, run), r) ==> final(watch).joined@ == old(watch).joined@.push(run) && final(watch).asked == old(watch).asked,
        call_ensures(DiskWatch::opened, (watch,), r) ==> final(watch).asked && final(watch).joined
            == old(watch).joined && final(watch).cleaned == old(watch).cleaned,
        call_ensures(DiskWatch::keep, (watch, cleaning, landing_short), r) ==> final(watch).cleaning
            == cleaning && final(watch).landing_short == landing_short && final(watch).asked == old(watch).asked,
        call_ensures(DiskWatch::is_clean, (watch,), r) ==> final(watch).cleaned is None && final(watch).asked == old(watch).asked && final(watch).joined == old(watch).joined,
{
}

/// What was cleaned is summed up, and a run is named only where it freed
/// something.
pub proof fn freed_bytes_are_summed(cleaned: &mut Cleaned, run: &str, bytes: u64, r: ())
    requires
        call_ensures(Cleaned::add, (cleaned, run, bytes), r),
    ensures
        final(cleaned).bytes == old(cleaned).bytes + bytes,
        bytes == 0 ==> final(cleaned).runs@.len() == old(cleaned).runs@.len(),
        bytes > 0 ==> final(cleaned).runs@.len() == old(cleaned).runs@.len() + 1 && final(cleaned).runs@.last()@ == run@,
{
    let before = text::views(old(cleaned).runs@);
    let after = text::views(final(cleaned).runs@);
    assert(before.len() == old(cleaned).runs@.len());
    assert(after.len() == final(cleaned).runs@.len());
    if bytes > 0 {
        assert(after.last() == run@);
        assert(final(cleaned).runs@.last()@ == after.last());
    }
}

/// The builds counted are those whose size was recorded, in order.
pub proof fn recorded_builds_are_counted(payloads: Seq<Json>, n: int)
    requires
        0 <= n <= payloads.len(),
    ensures
        build_sizes(payloads, n).len() <= n,
        forall|k: int|
            0 <= k < build_sizes(payloads, n).len() ==> exists|i: int|
                0 <= i < n && json::at((#[trigger] payloads[i])@, "bytes"@) == json::Value::Int(
                    #[trigger] build_sizes(payloads, n)[k],
                ),
        (forall|i: int|
            0 <= i < n ==> (json::at((#[trigger] payloads[i])@, "bytes"@) matches json::Value::Int(
                b,
            ) && 0 <= b <= u64::MAX)) ==> build_sizes(payloads, n).len() == n,
    decreases n,
{
    if n > 0 {
        recorded_builds_are_counted(payloads, n - 1);
        let before = build_sizes(payloads, n - 1);
        let after = build_sizes(payloads, n);
        assert forall|k: int| 0 <= k < after.len() implies exists|i: int|
            0 <= i < n && json::at((#[trigger] payloads[i])@, "bytes"@) == json::Value::Int(
                #[trigger] after[k],
            ) by {
            if k < before.len() {
                assert(after[k] == before[k]);
                let i = choose|i: int|
                    0 <= i < n - 1 && json::at((#[trigger] payloads[i])@, "bytes"@)
                        == json::Value::Int(before[k]);
                assert(json::at(payloads[i]@, "bytes"@) == json::Value::Int(after[k]));
            } else {
                assert(json::at(payloads[n - 1]@, "bytes"@) == json::Value::Int(after[k]));
            }
        }
        if forall|i: int|
            0 <= i < n ==> (json::at((#[trigger] payloads[i])@, "bytes"@) matches json::Value::Int(
                b,
            ) && 0 <= b <= u64::MAX) {
            assert(json::at(payloads[n - 1]@, "bytes"@) is Int);
        }
    }
}

/// The question about the disk says how much is free and what a new run and a
/// landing need.
pub proof fn the_disk_question_says_what_is_needed(
    free: &str,
    claim: &str,
    landing: &str,
    r: String,
)
    requires
        call_ensures(disk_question, (free, claim, landing), r),
    ensures
        text::has_part(
            r@,
            free@ + " free, a new run needs "@ + claim@ + " and a landing's verification "@
                + landing@,
        ),
{
    let part = free@ + " free, a new run needs "@ + claim@ + " and a landing's verification "@
        + landing@;
    let before =
        "The free disk space of the queue's directory stays below what the runs need, and cleaning what the ended runs left (their build outputs, the worktrees of completed and canceled tasks, `git worktree prune`) did not free enough: "@;
    let after = r@.skip((before.len() + part.len()) as int);
    assert(r@ =~= before + part + after);
    text::part_is_found(before, part, after);
}

} // verus!
