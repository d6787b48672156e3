//! A worker's session that is idle without a receipt: it is nudged once and,
//! if it stays idle, raised to the inbox as a `stalled` ask; how each
//! detection ended is recorded.

use crate::domain::{AskKind, AskReason, NewAsk, RunEvent, TaskRun};
use crate::json;
use crate::json::{Fields, Json};
use crate::supervise::recovery::{at_millis, from_millis, seconds, RecoveryAlert};
use crate::text;
use vstd::prelude::*;
use vstd::string::*;

verus! {

/// The setting a detection is judged by.
#[derive(Debug, Clone, Copy, PartialEq, Eq, Structural)]
pub enum Threshold {
    IdleWithoutReceipt,
    BackgroundAlert,
    IdleProcess,
}

impl Threshold {
    /// Its name among the settings.
    pub open spec fn name(self) -> Seq<char> {
        match self {
            Threshold::IdleWithoutReceipt => "idle_without_receipt_secs"@,
            Threshold::BackgroundAlert => "background_alert_secs"@,
            Threshold::IdleProcess => "idle_process_secs"@,
        }
    }

    /// Its name among the settings.
    pub fn as_str(self) -> (r: &'static str)
        ensures
            r@ == self.name(),
    {
        match self {
            Threshold::IdleWithoutReceipt => "idle_without_receipt_secs",
            Threshold::BackgroundAlert => "background_alert_secs",
            Threshold::IdleProcess => "idle_process_secs",
        }
    }
}

/// The thresholds of the stalled-session checks, in seconds.
#[derive(Debug, Clone, Copy, PartialEq, Eq, Structural)]
pub struct StallConfig {
    pub idle_without_receipt_secs: i64,
    pub background_alert_secs: i64,
    pub idle_process_secs: i64,
}

impl StallConfig {
    /// The value of a threshold.
    pub open spec fn value(self, threshold: Threshold) -> i64 {
        match threshold {
            Threshold::IdleWithoutReceipt => self.idle_without_receipt_secs,
            Threshold::BackgroundAlert => self.background_alert_secs,
            Threshold::IdleProcess => self.idle_process_secs,
        }
    }

    /// The value of a threshold.
    pub fn of(self, threshold: Threshold) -> (r: i64)
        ensures
            r == self.value(threshold),
    {
        match threshold {
            Threshold::IdleWithoutReceipt => self.idle_without_receipt_secs,
            Threshold::BackgroundAlert => self.background_alert_secs,
            Threshold::IdleProcess => self.idle_process_secs,
        }
    }
}

/// The options of a `stalled` ask: leave the session alone and ask again if it
/// stays idle, or have a person step in.
pub fn stalled_options() -> (r: Vec<String>)
    ensures
        text::views(r@) == seq!["wait"@, "intervene"@],
{
    let mut options: Vec<String> = Vec::new();
    options.push("wait".to_owned());
    options.push("intervene".to_owned());
    assert(text::views(options@) =~= seq!["wait"@, "intervene"@]);
    options
}

/// Whether a `stalled` ask's answer leaves the session alone: `wait`, or one
/// that hands the cause to a planner (`proposes`).
pub open spec fn is_wait(answer: Option<Seq<char>>, proposes: bool) -> bool {
    answer is Some && (text::trimmed(answer->0) == "wait"@ || proposes)
}

/// Whether a `stalled` ask's answer leaves the session alone.
pub fn answered_wait(answer: &Option<String>, proposes: bool) -> (r: bool)
    ensures
        r == is_wait(text::opt_view(*answer), proposes),
{
    match answer {
        Some(answer) => {
            let said = text::trim(answer.as_str());
            text::same(said.as_str(), "wait") || proposes
        },
        None => false,
    }
}

/// The whole seconds from one wall-clock time to another; none where it is not
/// later.
pub fn secs_between(from: i128, to: i128) -> (r: i64)
    ensures
        r == seconds(from, to),
{
    crate::supervise::recovery::secs_between(from, to)
}

/// The wall-clock time of whole seconds since the epoch.
pub open spec fn unix_at(secs: int) -> int {
    if secs < 0 {
        0
    } else {
        secs * 1_000_000_000
    }
}

/// The wall-clock time of whole seconds since the epoch, `later` of them
/// after; the epoch where they are negative.
pub fn at_unix(secs: i64, later: u8) -> (r: i128)
    ensures
        r == unix_at(secs + later),
{
    let all: i128 = secs as i128 + later as i128;
    if all < 0 {
        0
    } else {
        all * 1_000_000_000
    }
}

/// When an event was recorded, where its time can be read.
pub open spec fn time_of(event: RunEvent) -> Option<int> {
    match event.at_millis {
        Some(ms) => Some(from_millis(ms)),
        None => None,
    }
}

/// When an event was recorded, where its time can be read.
pub fn at_event(event: &RunEvent) -> (r: Option<i128>)
    ensures
        match r {
            Some(at) => time_of(*event) == Some(at as int),
            None => time_of(*event) is None,
        },
{
    match event.at_millis {
        Some(ms) => Some(at_millis(ms)),
        None => None,
    }
}

/// The nudge sent in this phase (at most one).
#[derive(Debug, Clone, Copy, PartialEq, Eq, Structural)]
pub struct Nudge {
    /// When it was recorded.
    pub at: i128,
    /// How long the session had been idle then.
    pub detected_after_secs: i64,
    /// How it ended is recorded.
    pub settled: bool,
}

/// The `stalled` ask of this phase that nobody closed.
#[derive(Debug, Clone, Copy, PartialEq, Eq, Structural)]
pub struct Asked {
    pub id: i64,
    /// When it was opened: an idle marker newer than this is a turn the
    /// session took since.
    pub at: i128,
    pub detected_after_secs: i64,
    /// Its answer is applied, and how it ended recorded.
    pub applied: bool,
    pub threshold: Threshold,
}

/// Receipt-less idle of one session.
#[derive(Debug, Clone, Copy, PartialEq, Eq, Structural)]
pub struct StallWatch {
    pub nudge: Option<Nudge>,
    /// The latest text the supervisor typed into the session: a marker no
    /// newer is not the end of a turn that answered it.
    pub last_input: Option<i128>,
    pub asked: Option<Asked>,
    /// The answer `wait` restarts the count here.
    pub wait_from: Option<i128>,
    /// After a person stepped in, no ask until the session ends a turn after
    /// this.
    pub held: Option<i128>,
}

/// The later of two times that may be missing.
pub open spec fn later(a: Option<i128>, b: Option<i128>) -> Option<i128> {
    match (a, b) {
        (Some(a), Some(b)) => if b > a {
            Some(b)
        } else {
            Some(a)
        },
        (Some(a), None) => Some(a),
        (None, b) => b,
    }
}

/// The later of two times that may be missing.
fn max_time(a: Option<i128>, b: Option<i128>) -> (r: Option<i128>)
    ensures
        r == later(a, b),
{
    match (a, b) {
        (Some(a), Some(b)) => if b > a {
            Some(b)
        } else {
            Some(a)
        },
        (Some(a), None) => Some(a),
        (None, b) => b,
    }
}

impl StallWatch {
    /// A watch that has seen nothing.
    pub fn new() -> (r: StallWatch)
        ensures
            r == (StallWatch {
                nudge: None,
                last_input: None,
                asked: None,
                wait_from: None,
                held: None,
            }),
    {
        StallWatch { nudge: None, last_input: None, asked: None, wait_from: None, held: None }
    }

    /// The supervisor typed a text into the session at `at`.
    pub fn input_sent(&mut self, at: i128)
        ensures
            *final(self) == (StallWatch {
                last_input: later(old(self).last_input, Some(at)),
                ..*old(self)
            }),
    {
        self.last_input = max_time(self.last_input, Some(at));
    }

    /// Whether the session ended a turn (its idle marker) since the last text
    /// the supervisor typed.
    pub fn turn_since_input(&self, marker: i128) -> (r: bool)
        ensures
            r == (self.last_input is None || marker > self.last_input->0),
    {
        match self.last_input {
            Some(at) => marker > at,
            None => true,
        }
    }

    /// A recovery job escalated the alert of `threshold` to the `stalled` ask:
    /// the watch follows it like its own.
    pub fn escalated(
        &mut self,
        id: i64,
        at: i128,
        detected_after_secs: i64,
        threshold: Threshold,
    )
        ensures
            *final(self) == (StallWatch {
                asked: Some(
                    Asked { id, at, detected_after_secs, applied: false, threshold },
                ),
                ..*old(self)
            }),
    {
        self.asked = Some(Asked { id, at, detected_after_secs, applied: false, threshold });
    }

    /// The session was nudged now.
    pub fn nudged(&mut self, at: i128, detected_after_secs: i64)
        ensures
            *final(self) == (StallWatch {
                nudge: Some(Nudge { at, detected_after_secs, settled: false }),
                ..*old(self)
            }),
    {
        self.nudge = Some(Nudge { at, detected_after_secs, settled: false });
    }

    /// Everything the watch has open is settled.
    pub fn settled(&mut self)
        ensures
            *final(self) == (StallWatch {
                nudge: match old(self).nudge {
                    Some(nudge) => Some(Nudge { settled: true, ..nudge }),
                    None => None,
                },
                asked: None,
                ..*old(self)
            }),
    {
        if let Some(nudge) = self.nudge {
            self.nudge = Some(
                Nudge {
                    at: nudge.at,
                    detected_after_secs: nudge.detected_after_secs,
                    settled: true,
                },
            );
        }
        self.asked = None;
    }
}

/// An ask as it is looked through: the run it is about, and whether it is a
/// `stalled` one.
pub struct ListedAsk {
    pub id: i64,
    pub run: Option<String>,
    pub stalled: bool,
}

/// Whether an ask is a `stalled` one of the run, and the one asked for.
pub open spec fn is_stalled_ask(ask: ListedAsk, run: Seq<char>, id: Option<i64>) -> bool {
    &&& ask.stalled
    &&& text::opt_view(ask.run) == Some(run)
    &&& (id is None || ask.id == id->0)
}

/// The place of the latest `stalled` ask of a run, or of the one with this ID,
/// among the asks from the oldest.
pub fn stalled_ask(asks: &Vec<ListedAsk>, run: &str, id: Option<i64>) -> (r: Option<usize>)
    ensures
        match r {
            Some(at) => {
                &&& at < asks@.len()
                &&& is_stalled_ask(asks@[at as int], run@, id)
                &&& forall|j: int|
                    at < j < asks@.len() ==> !is_stalled_ask(#[trigger] asks@[j], run@, id)
            },
            None => forall|j: int|
                0 <= j < asks@.len() ==> !is_stalled_ask(#[trigger] asks@[j], run@, id),
        },
{
    let mut n: usize = asks.len();
    while n > 0
        invariant
            n <= asks@.len(),
            forall|j: int| n <= j < asks@.len() ==> !is_stalled_ask(#[trigger] asks@[j], run@, id),
        decreases n,
    {
        n -= 1;
        let ask = &asks[n];
        let wanted = match id {
            Some(id) => ask.id == id,
            None => true,
        };
        if ask.stalled && wanted && text::is_text(&ask.run, run) {
            return Some(n);
        }
    }
    None
}

/// A `stalled` ask as an adopted run's watch reads it.
#[derive(Debug, Clone, Copy, PartialEq, Eq, Structural)]
pub struct AskLook {
    pub id: i64,
    pub created_at: i64,
    pub answered_at: Option<i64>,
    pub closed_at: Option<i64>,
    /// Its answer leaves the session alone.
    pub waits: bool,
}

/// Whether an event tells how a detection of the phase ended.
pub open spec fn is_resolved(event: RunEvent, detection: Seq<char>, ask: Option<i64>) -> bool {
    &&& event.is_kind("stall_resolved"@)
    &&& json::at(event.payload@, "phase"@) == json::Value::Text("session"@)
    &&& json::at(event.payload@, "detection"@) == json::Value::Text(detection)
    &&& (ask is None || json::int_of(json::at(event.payload@, "ask_id"@)) == Some(ask->0 as int))
}

/// Whether one of the events tells how a detection of the phase ended.
pub open spec fn has_resolved(
    events: Seq<RunEvent>,
    detection: Seq<char>,
    ask: Option<i64>,
) -> bool {
    exists|i: int| 0 <= i < events.len() && is_resolved(#[trigger] events[i], detection, ask)
}

/// Whether one of the events tells how a detection of the phase ended.
fn find_resolved(events: &Vec<RunEvent>, detection: &str, ask: Option<i64>) -> (r: bool)
    ensures
        r == has_resolved(events@, detection@, ask),
{
    let mut i: usize = 0;
    while i < events.len()
        invariant
            i <= events@.len(),
            forall|j: int| 0 <= j < i ==> !is_resolved(#[trigger] events@[j], detection@, ask),
        decreases events@.len() - i,
    {
        let event = &events[i];
        let same = match ask {
            Some(id) => event.payload.is_int("ask_id", id),
            None => true,
        };
        if same && event.of_kind("stall_resolved") && event.payload.says("phase", "session")
            && event.payload.says("detection", detection) {
            assert(is_resolved(events@[i as int], detection@, ask));
            return true;
        }
        i += 1;
    }
    false
}

/// The latest nudge of the phase among the first `n` events.
pub open spec fn last_nudge(events: Seq<RunEvent>, n: int) -> Option<RunEvent>
    decreases n,
{
    if n <= 0 || n > events.len() {
        None
    } else if events[n - 1].is_kind("stall_nudged"@) && json::at(
        events[n - 1].payload@,
        "phase"@,
    ) == json::Value::Text("session"@) {
        Some(events[n - 1])
    } else {
        last_nudge(events, n - 1)
    }
}

/// When the latest of the first `n` events with the outcome was recorded.
pub open spec fn last_outcome(events: Seq<RunEvent>, outcome: Seq<char>, n: int) -> Option<int>
    decreases n,
{
    if n <= 0 || n > events.len() {
        None
    } else if events[n - 1].is_kind("stall_resolved"@) && json::at(
        events[n - 1].payload@,
        "phase"@,
    ) == json::Value::Text("session"@) && json::at(events[n - 1].payload@, "outcome"@)
        == json::Value::Text(outcome) {
        time_of(events[n - 1])
    } else {
        last_outcome(events, outcome, n - 1)
    }
}

/// When the latest event with the outcome was recorded.
fn find_outcome(events: &Vec<RunEvent>, outcome: &str) -> (r: Option<i128>)
    ensures
        last_outcome(events@, outcome@, events@.len() as int) == (match r {
            Some(at) => Some(at as int),
            None => None,
        }),
{
    let mut n: usize = events.len();
    while n > 0
        invariant
            n <= events@.len(),
            last_outcome(events@, outcome@, events@.len() as int) == last_outcome(
                events@,
                outcome@,
                n as int,
            ),
        decreases n,
    {
        n -= 1;
        let event = &events[n];
        if event.of_kind("stall_resolved") && event.payload.says("phase", "session")
            && event.payload.says("outcome", outcome) {
            return at_event(event);
        }
    }
    None
}

/// When the latest of the first `n` events that typed an answer was recorded.
pub open spec fn last_delivered(events: Seq<RunEvent>, n: int) -> Option<int>
    decreases n,
{
    if n <= 0 || n > events.len() {
        None
    } else if events[n - 1].is_kind("ask_delivered"@) {
        time_of(events[n - 1])
    } else {
        last_delivered(events, n - 1)
    }
}

/// The first event, from `i`, that escalated a recovery to the ask.
pub open spec fn escalation_event(events: Seq<RunEvent>, ask: i64, i: int) -> Option<RunEvent>
    decreases events.len() - i,
{
    if i < 0 || i >= events.len() {
        None
    } else if events[i].is_kind("recovery_finished"@) && json::int_of(
        json::at(events[i].payload@, "ask_id"@),
    ) == Some(ask as int) {
        Some(events[i])
    } else {
        escalation_event(events, ask, i + 1)
    }
}

/// The setting an ask was opened by: a recovery job's escalation names its ask,
/// and its alert the setting it was judged by.
pub open spec fn threshold_of(events: Seq<RunEvent>, ask: i64) -> Threshold {
    match escalation_event(events, ask, 0) {
        Some(event) => if json::at(event.payload@, "alert"@) == json::Value::Text(
            RecoveryAlert::IdleProcess.name(),
        ) {
            Threshold::IdleProcess
        } else {
            Threshold::BackgroundAlert
        },
        None => Threshold::IdleWithoutReceipt,
    }
}

/// The setting an ask was opened by.
fn find_threshold(events: &Vec<RunEvent>, ask: i64) -> (r: Threshold)
    ensures
        r == threshold_of(events@, ask),
{
    let mut i: usize = 0;
    while i < events.len()
        invariant
            i <= events@.len(),
            escalation_event(events@, ask, 0) == escalation_event(events@, ask, i as int),
        decreases events@.len() - i,
    {
        let event = &events[i];
        if event.of_kind("recovery_finished") && event.payload.is_int("ask_id", ask) {
            return if event.payload.says("alert", RecoveryAlert::IdleProcess.as_str()) {
                Threshold::IdleProcess
            } else {
                Threshold::BackgroundAlert
            };
        }
        i += 1;
    }
    Threshold::IdleWithoutReceipt
}

/// A time as the watch holds it.
pub open spec fn held_time(at: Option<int>) -> Option<i128> {
    match at {
        Some(at) => Some(at as i128),
        None => None,
    }
}

/// What an adopted run's watch has from its events alone.
pub open spec fn from_events(events: Seq<RunEvent>) -> StallWatch {
    let n = events.len() as int;
    let nudge = last_nudge(events, n);
    let nudge_at = match nudge {
        Some(event) => match time_of(event) {
            Some(at) => Some(at as i128),
            None => Some(0i128),
        },
        None => None,
    };
    StallWatch {
        nudge: match nudge {
            Some(event) => Some(
                Nudge {
                    at: nudge_at->0,
                    detected_after_secs: match json::int_of(
                        json::at(event.payload@, "idle_secs"@),
                    ) {
                        Some(secs) => secs as i64,
                        None => 0,
                    },
                    settled: has_resolved(events, "nudge"@, None),
                },
            ),
            None => None,
        },
        last_input: later(nudge_at, held_time(last_delivered(events, n))),
        asked: None,
        wait_from: held_time(last_outcome(events, "answered_wait"@, n)),
        held: held_time(last_outcome(events, "answered_intervene"@, n)),
    }
}

/// The nudge once an ask followed it.
pub open spec fn escalated_nudge(nudge: Option<Nudge>) -> Option<Nudge> {
    match nudge {
        Some(nudge) => Some(Nudge { settled: true, ..nudge }),
        None => None,
    }
}

/// The watch after the latest ask, where it was closed while no supervisor
/// watched.
pub open spec fn after_closed(
    watch: StallWatch,
    events: Seq<RunEvent>,
    latest: Option<AskLook>,
) -> StallWatch {
    match latest {
        Some(ask) => if ask.closed_at is Some && !has_resolved(events, "ask"@, Some(ask.id)) {
            StallWatch {
                wait_from: if ask.waits {
                    later(watch.wait_from, Some(unix_at(ask.closed_at->0 as int) as i128))
                } else {
                    watch.wait_from
                },
                held: if ask.waits {
                    watch.held
                } else {
                    later(watch.held, Some(unix_at(ask.closed_at->0 + 1) as i128))
                },
                nudge: escalated_nudge(watch.nudge),
                ..watch
            }
        } else {
            watch
        },
        None => watch,
    }
}

/// The watch with the ask that is open.
pub open spec fn with_open(
    watch: StallWatch,
    events: Seq<RunEvent>,
    open: Option<AskLook>,
) -> StallWatch {
    match open {
        Some(ask) => {
            let applied = ask.answered_at is Some && has_resolved(events, "ask"@, Some(ask.id));
            StallWatch {
                asked: Some(
                    Asked {
                        id: ask.id,
                        at: unix_at(ask.created_at + 1) as i128,
                        detected_after_secs: 0,
                        applied,
                        threshold: threshold_of(events, ask.id),
                    },
                ),
                held: if applied {
                    later(watch.held, Some(unix_at(ask.answered_at->0 + 1) as i128))
                } else {
                    watch.held
                },
                nudge: escalated_nudge(watch.nudge),
                ..watch
            }
        },
        None => watch,
    }
}

impl StallWatch {
    /// What the watch has from the events alone.
    fn of_events(events: &Vec<RunEvent>) -> (r: StallWatch)
        ensures
            r == from_events(events@),
    {
        let mut watch = StallWatch::new();
        let mut n: usize = events.len();
        let mut found = false;
        while n > 0 && !found
            invariant
                n <= events@.len(),
                found ==> n < events@.len() && last_nudge(events@, events@.len() as int) == Some(
                    events@[n as int],
                ),
                !found ==> last_nudge(events@, events@.len() as int) == last_nudge(
                    events@,
                    n as int,
                ),
            decreases n,
        {
            n -= 1;
            found = events[n].of_kind("stall_nudged") && events[n].payload.says(
                "phase",
                "session",
            );
        }
        if found {
            let event = &events[n];
            let at: i128 = match at_event(event) {
                Some(at) => at,
                None => 0,
            };
            let detected: i64 = match event.payload.integer("idle_secs") {
                Some(secs) => secs,
                None => 0,
            };
            watch.nudge = Some(
                Nudge {
                    at,
                    detected_after_secs: detected,
                    settled: find_resolved(events, "nudge", None),
                },
            );
            watch.input_sent(at);
        }
        let mut n: usize = events.len();
        let mut delivered: Option<i128> = None;
        let mut found = false;
        while n > 0 && !found
            invariant
                n <= events@.len(),
                found ==> held_time(last_delivered(events@, events@.len() as int)) == delivered,
                !found ==> delivered is None && last_delivered(events@, events@.len() as int)
                    == last_delivered(events@, n as int),
            decreases n,
        {
            n -= 1;
            if events[n].of_kind("ask_delivered") {
                delivered = at_event(&events[n]);
                found = true;
            }
        }
        if let Some(at) = delivered {
            watch.input_sent(at);
        }
        watch.held = find_outcome(events, "answered_intervene");
        watch.wait_from = find_outcome(events, "answered_wait");
        watch
    }

    /// The watch of an adopted run, from its events, its latest `stalled` ask
    /// and the one that is open, so that a nudge or an ask is never repeated.
    /// Times in an ask are whole seconds: a marker in the same second is taken
    /// as older.
    pub fn adopt(events: &Vec<RunEvent>, latest: Option<AskLook>, open: Option<AskLook>) -> (r:
        StallWatch)
        ensures
            r == with_open(after_closed(from_events(events@), events@, latest), events@, open),
    {
        let mut watch = StallWatch::of_events(events);
        if let Some(ask) = latest {
            if let Some(closed) = ask.closed_at {
                if !find_resolved(events, "ask", Some(ask.id)) {
                    if ask.waits {
                        watch.wait_from = max_time(watch.wait_from, Some(at_unix(closed, 0)));
                    } else {
                        watch.held = max_time(watch.held, Some(at_unix(closed, 1)));
                    }
                    if let Some(nudge) = watch.nudge {
                        watch.nudge = Some(
                            Nudge {
                                at: nudge.at,
                                detected_after_secs: nudge.detected_after_secs,
                                settled: true,
                            },
                        );
                    }
                }
            }
        }
        if let Some(ask) = open {
            let mut applied = false;
            if let Some(answered) = ask.answered_at {
                if find_resolved(events, "ask", Some(ask.id)) {
                    applied = true;
                    watch.held = max_time(watch.held, Some(at_unix(answered, 1)));
                }
            }
            watch.asked = Some(
                Asked {
                    id: ask.id,
                    at: at_unix(ask.created_at, 1),
                    detected_after_secs: 0,
                    applied,
                    threshold: find_threshold(events, ask.id),
                },
            );
            if let Some(nudge) = watch.nudge {
                watch.nudge = Some(
                    Nudge {
                        at: nudge.at,
                        detected_after_secs: nudge.detected_after_secs,
                        settled: true,
                    },
                );
            }
        }
        watch
    }
}

/// An adopted watch nudges nobody a second time: the session that was nudged
/// counts as nudged.
pub proof fn an_adopted_nudge_is_kept(
    events: Seq<RunEvent>,
    latest: Option<AskLook>,
    open: Option<AskLook>,
)
    ensures
        with_open(after_closed(from_events(events), events, latest), events, open).nudge is Some
            <==> last_nudge(events, events.len() as int) is Some,
{
}

/// What `stall_resolved` records.
pub open spec fn resolved_payload(
    detection: Seq<char>,
    ask: Option<i64>,
    threshold: Threshold,
    config: StallConfig,
    detected_after_secs: i64,
    detected_at: i128,
    outcome: Seq<char>,
    now: i128,
) -> json::Value {
    let base = json::none().push(("phase"@, json::Value::Text("session"@))).push(
        ("detection"@, json::Value::Text(detection)),
    ).push(("threshold"@, json::Value::Text(threshold.name()))).push(
        ("threshold_secs"@, json::Value::Int(config.value(threshold) as int)),
    ).push(("detected_after_secs"@, json::Value::Int(detected_after_secs as int))).push(
        ("outcome"@, json::Value::Text(outcome)),
    ).push(("resolved_after_secs"@, json::Value::Int(seconds(detected_at, now))));
    json::Value::Object(
        match ask {
            Some(ask) => base.push(("ask_id"@, json::Value::Int(ask as int))),
            None => base,
        },
    )
}

/// What the end of a nudge records.
pub open spec fn nudge_resolved(
    nudge: Nudge,
    config: StallConfig,
    outcome: Seq<char>,
    now: i128,
) -> json::Value {
    resolved_payload(
        "nudge"@,
        None,
        Threshold::IdleWithoutReceipt,
        config,
        nudge.detected_after_secs,
        nudge.at,
        outcome,
        now,
    )
}

/// What the end of an ask records.
pub open spec fn ask_resolved(
    asked: Asked,
    config: StallConfig,
    outcome: Seq<char>,
    now: i128,
) -> json::Value {
    resolved_payload(
        "ask"@,
        Some(asked.id),
        asked.threshold,
        config,
        asked.detected_after_secs,
        asked.at,
        outcome,
        now,
    )
}

/// What `stall_resolved` records.
fn resolved(
    detection: &str,
    ask: Option<i64>,
    threshold: Threshold,
    config: StallConfig,
    detected_after_secs: i64,
    detected_at: i128,
    outcome: &str,
    now: i128,
) -> (r: Json)
    ensures
        r@ == resolved_payload(
            detection@,
            ask,
            threshold,
            config,
            detected_after_secs,
            detected_at,
            outcome@,
            now,
        ),
{
    let mut fields = Fields::new().text("phase", "session").text("detection", detection).text(
        "threshold",
        threshold.as_str(),
    ).number("threshold_secs", config.of(threshold) as i128).number(
        "detected_after_secs",
        detected_after_secs as i128,
    ).text("outcome", outcome).number(
        "resolved_after_secs",
        secs_between(detected_at, now) as i128,
    );
    if let Some(id) = ask {
        fields = fields.number("ask_id", id as i128);
    }
    fields.done()
}

/// What has been done of settling what a watch has open.
#[derive(Debug, Clone, Copy, PartialEq, Eq, Structural, Default)]
pub struct SettleSeen {
    /// The session waits at a question of its own.
    pub question_open: Option<bool>,
    pub nudge_recorded: bool,
    pub closed: bool,
    pub ask_recorded: bool,
}

/// What settling what a watch has open does next.
pub enum SettleStep {
    /// Nothing is to be settled.
    Nothing,
    QuestionOpen,
    /// Record `stall_resolved`.
    Record { payload: Json },
    /// Close the run's `stalled` asks with this answer.
    CloseAsks { answer: &'static str },
    /// All of it is settled.
    Settled,
}

/// What ending what a watch has open comes to.
pub open spec fn ends(
    watch: StallWatch,
    config: StallConfig,
    now: i128,
    nudge_outcome: Seq<char>,
    answer: Seq<char>,
    ask_outcome: Seq<char>,
    seen: SettleSeen,
    r: SettleStep,
) -> bool {
    if watch.nudge is Some && !watch.nudge->0.settled && !seen.nudge_recorded {
        r matches SettleStep::Record { payload } && payload@ == nudge_resolved(
            watch.nudge->0,
            config,
            nudge_outcome,
            now,
        )
    } else if watch.asked is Some && !seen.closed {
        r matches SettleStep::CloseAsks { answer: said } && said@ == answer
    } else if watch.asked is Some && !watch.asked->0.applied && !seen.ask_recorded {
        r matches SettleStep::Record { payload } && payload@ == ask_resolved(
            watch.asked->0,
            config,
            ask_outcome,
            now,
        )
    } else {
        r is Settled
    }
}

/// Whether a watch has something open.
pub open spec fn has_open(watch: StallWatch) -> bool {
    (watch.nudge is Some && !watch.nudge->0.settled) || watch.asked is Some
}

impl StallWatch {
    /// End what the watch has open.
    fn end(
        &self,
        config: StallConfig,
        now: i128,
        nudge_outcome: &str,
        answer: &'static str,
        ask_outcome: &str,
        seen: SettleSeen,
    ) -> (r: SettleStep)
        ensures
            ends(
                *self,
                config,
                now,
                nudge_outcome@,
                answer@,
                ask_outcome@,
                seen,
                r,
            ),
    {
        if let Some(nudge) = self.nudge {
            if !nudge.settled && !seen.nudge_recorded {
                return SettleStep::Record {
                    payload: resolved(
                        "nudge",
                        None,
                        Threshold::IdleWithoutReceipt,
                        config,
                        nudge.detected_after_secs,
                        nudge.at,
                        nudge_outcome,
                        now,
                    ),
                };
            }
        }
        if let Some(asked) = self.asked {
            if !seen.closed {
                return SettleStep::CloseAsks { answer };
            }
            if !asked.applied && !seen.ask_recorded {
                return SettleStep::Record {
                    payload: resolved(
                        "ask",
                        Some(asked.id),
                        asked.threshold,
                        config,
                        asked.detected_after_secs,
                        asked.at,
                        ask_outcome,
                        now,
                    ),
                };
            }
        }
        SettleStep::Settled
    }

    /// The session wrote its receipt, or asked a question: a nudge not settled
    /// yet resolved it, and a `stalled` ask is closed, resolved by itself where
    /// nobody answered it.
    pub fn settle(
        &self,
        receipt: bool,
        config: StallConfig,
        now: i128,
        seen: SettleSeen,
    ) -> (r: SettleStep)
        ensures
            if !has_open(*self) {
                r is Nothing
            } else if !receipt && seen.question_open is None {
                r is QuestionOpen
            } else if !receipt && !seen.question_open->0 {
                r is Nothing
            } else {
                ends(
                    *self,
                    config,
                    now,
                    "resolved_by_nudge"@,
                    "the session moved on; closed by the runtime"@,
                    "resolved_by_itself"@,
                    seen,
                    r,
                )
            },
    {
        let nudged = match self.nudge {
            Some(nudge) => !nudge.settled,
            None => false,
        };
        if !nudged && self.asked.is_none() {
            return SettleStep::Nothing;
        }
        if !receipt {
            match seen.question_open {
                None => return SettleStep::QuestionOpen,
                Some(open) => if !open {
                    return SettleStep::Nothing;
                },
            }
        }
        self.end(
            config,
            now,
            "resolved_by_nudge",
            "the session moved on; closed by the runtime",
            "resolved_by_itself",
            seen,
        )
    }

    /// The session ended: whatever is not settled ends with the run.
    pub fn ended(&self, config: StallConfig, now: i128, seen: SettleSeen) -> (r: SettleStep)
        ensures
            ends(
                *self,
                config,
                now,
                "run_ended"@,
                "the session exited; closed by the runtime"@,
                "run_ended"@,
                seen,
                r,
            ),
    {
        self.end(
            config,
            now,
            "run_ended",
            "the session exited; closed by the runtime",
            "run_ended",
            seen,
        )
    }
}

/// What has been observed of a session that may be idle.
#[derive(Debug, Clone, Copy, PartialEq, Eq, Structural, Default)]
pub struct ObserveSeen {
    /// When its idle marker was written, if it has one.
    pub marker: Option<Option<i128>>,
    pub question_open: Option<bool>,
    pub prompt_asked: Option<bool>,
    /// It waits for a login that ran out.
    pub login_held: Option<bool>,
    /// Its screen could be read.
    pub readable: Option<bool>,
    /// The screen asks for a login, and that was raised.
    pub login_raised: Option<bool>,
    /// A known dialog was answered.
    pub dialog_answered: Option<bool>,
}

/// What an observation does next, or what it came to.
#[derive(Debug, Clone, Copy, PartialEq, Eq, Structural)]
pub enum ObserveStep {
    ReadMarker,
    Nothing,
    WatchAsk,
    QuestionOpen,
    PromptAsked,
    LoginHeld,
    ReadScreen,
    RaiseLogin,
    AnswerDialog,
    SendNudge { idle_secs: i64 },
    OpenAsk { idle_secs: i64 },
}

/// From when the idle of a marker counts.
pub open spec fn idle_from(watch: StallWatch, marker: i128) -> i128 {
    match watch.wait_from {
        Some(at) => if at > marker {
            at
        } else {
            marker
        },
        None => marker,
    }
}

/// Whether a marker shows a session that is idle for the threshold, after the
/// last text it was sent and after a person stepped in.
pub open spec fn is_idle(watch: StallWatch, marker: i128, threshold: i64, now: i128) -> bool {
    &&& (watch.last_input is None || marker > watch.last_input->0)
    &&& (watch.held is None || marker > watch.held->0)
    &&& seconds(idle_from(watch, marker), now) >= threshold
}

/// What an observation comes to.
pub open spec fn observes(
    watch: StallWatch,
    config: StallConfig,
    dialog: bool,
    quiet: bool,
    now: i128,
    seen: ObserveSeen,
    r: ObserveStep,
) -> bool {
    if seen.marker is None {
        r is ReadMarker
    } else if watch.asked is Some {
        r is WatchAsk
    } else if seen.marker->0 is None || !is_idle(
        watch,
        seen.marker->0->0,
        config.idle_without_receipt_secs,
        now,
    ) || dialog {
        r is Nothing
    } else if seen.question_open is None {
        r is QuestionOpen
    } else if seen.question_open->0 {
        r is Nothing
    } else if seen.prompt_asked is None {
        r is PromptAsked
    } else if seen.prompt_asked->0 {
        r is Nothing
    } else if seen.login_held is None {
        r is LoginHeld
    } else if seen.login_held->0 || (quiet && watch.nudge is None) {
        r is Nothing
    } else if !quiet && seen.readable is None {
        r is ReadScreen
    } else if !quiet && seen.readable->0 && seen.login_raised is None {
        r is RaiseLogin
    } else if !quiet && seen.readable->0 && seen.login_raised->0 {
        r is Nothing
    } else if !quiet && seen.readable->0 && seen.dialog_answered is None {
        r is AnswerDialog
    } else if !quiet && seen.readable->0 && seen.dialog_answered->0 {
        r is Nothing
    } else {
        let idle_secs = seconds(seen.marker->0->0, now) as i64;
        if watch.nudge is None {
            r == (ObserveStep::SendNudge { idle_secs })
        } else {
            r == (ObserveStep::OpenAsk { idle_secs })
        }
    }
}

impl StallWatch {
    /// One observation of a session with a fresh wrapper, no receipt and no
    /// `/exit` requested. A dialog or an ask the session waits at is no stall.
    /// Quiet, nothing is sent to the session: the `stalled` ask is followed,
    /// and one more opens after a `wait`, but a stall before its nudge waits.
    pub fn observe(
        &self,
        config: StallConfig,
        dialog: bool,
        quiet: bool,
        now: i128,
        seen: ObserveSeen,
    ) -> (r: ObserveStep)
        ensures
            observes(*self, config, dialog, quiet, now, seen, r),
    {
        let marker = match seen.marker {
            None => return ObserveStep::ReadMarker,
            Some(marker) => marker,
        };
        if self.asked.is_some() {
            return ObserveStep::WatchAsk;
        }
        let modified: i128 = match marker {
            None => return ObserveStep::Nothing,
            Some(modified) => modified,
        };
        if let Some(at) = self.last_input {
            if modified <= at {
                return ObserveStep::Nothing;
            }
        }
        if let Some(at) = self.held {
            if modified <= at {
                return ObserveStep::Nothing;
            }
        }
        let from: i128 = match self.wait_from {
            Some(at) => if at > modified {
                at
            } else {
                modified
            },
            None => modified,
        };
        if secs_between(from, now) < config.idle_without_receipt_secs || dialog {
            return ObserveStep::Nothing;
        }
        match seen.question_open {
            None => return ObserveStep::QuestionOpen,
            Some(open) => if open {
                return ObserveStep::Nothing;
            },
        }
        match seen.prompt_asked {
            None => return ObserveStep::PromptAsked,
            Some(asked) => if asked {
                return ObserveStep::Nothing;
            },
        }
        match seen.login_held {
            None => return ObserveStep::LoginHeld,
            Some(held) => if held {
                return ObserveStep::Nothing;
            },
        }
        if quiet {
            if self.nudge.is_none() {
                return ObserveStep::Nothing;
            }
            return ObserveStep::OpenAsk { idle_secs: secs_between(modified, now) };
        }
        let readable = match seen.readable {
            None => return ObserveStep::ReadScreen,
            Some(readable) => readable,
        };
        if readable {
            match seen.login_raised {
                None => return ObserveStep::RaiseLogin,
                Some(raised) => if raised {
                    return ObserveStep::Nothing;
                },
            }
            match seen.dialog_answered {
                None => return ObserveStep::AnswerDialog,
                Some(answered) => if answered {
                    return ObserveStep::Nothing;
                },
            }
        }
        let idle_secs = secs_between(modified, now);
        match self.nudge {
            None => ObserveStep::SendNudge { idle_secs },
            Some(_) => ObserveStep::OpenAsk { idle_secs },
        }
    }
}

/// A session is nudged at most once, and never while it waits outside its
/// slot; an ask follows only a nudge, and only where none is open.
pub proof fn one_nudge_then_one_ask(
    watch: StallWatch,
    config: StallConfig,
    dialog: bool,
    quiet: bool,
    now: i128,
    seen: ObserveSeen,
    r: ObserveStep,
)
    requires
        observes(watch, config, dialog, quiet, now, seen, r),
    ensures
        r is SendNudge ==> watch.nudge is None && !quiet,
        r is OpenAsk ==> watch.nudge is Some && watch.asked is None,
        r is SendNudge || r is OpenAsk ==> is_idle(
            watch,
            seen.marker->0->0,
            config.idle_without_receipt_secs,
            now,
        ),
{
}

/// A background task of a session.
pub struct BackgroundTask {
    pub id: String,
    pub description: String,
    pub command: String,
}

/// What `stall_nudged` records; `tasks` are the background tasks.
pub open spec fn nudge_value(
    idle_secs: i64,
    config: StallConfig,
    background_running: bool,
    tasks: json::Value,
    workspace: Seq<char>,
) -> json::Value {
    json::Value::Object(
        json::none().push(("phase"@, json::Value::Text("session"@))).push(
            ("idle_secs"@, json::Value::Int(idle_secs as int)),
        ).push(
            ("threshold_secs"@, json::Value::Int(config.idle_without_receipt_secs as int)),
        ).push(("background_running"@, json::Value::Bool(background_running))).push(
            ("background_tasks"@, tasks),
        ).push(("workspace_id"@, json::Value::Text(workspace))),
    )
}

/// What `stall_nudged` records; `tasks` are the background tasks.
pub fn nudge_record(
    idle_secs: i64,
    config: StallConfig,
    background_running: bool,
    tasks: Json,
    workspace: &str,
) -> (r: Json)
    ensures
        r@ == nudge_value(idle_secs, config, background_running, tasks@, workspace@),
{
    Fields::new().text("phase", "session").number("idle_secs", idle_secs as i128).number(
        "threshold_secs",
        config.idle_without_receipt_secs as i128,
    ).flag("background_running", background_running).with("background_tasks", tasks).text(
        "workspace_id",
        workspace,
    ).done()
}

/// What has been done and observed of a nudge.
#[derive(Default)]
pub struct NudgeSeen {
    pub recorded: bool,
    /// When the nudge was typed, or why it could not be.
    pub typed: Option<Result<i128, String>>,
}

/// What a nudge does next, or what it came to.
pub enum NudgeStep {
    /// Record `stall_nudged`.
    Record { payload: Json },
    /// Type the nudge.
    Type,
    /// The session was nudged; the watch is this one now.
    Nudged { watch: StallWatch },
}

/// What nudging a session comes to.
pub open spec fn nudges(
    watch: StallWatch,
    idle_secs: i64,
    config: StallConfig,
    running: bool,
    tasks: json::Value,
    workspace: Seq<char>,
    now: i128,
    seen: NudgeSeen,
    r: NudgeStep,
) -> bool {
    if !seen.recorded {
        r matches NudgeStep::Record { payload } && payload@ == nudge_value(
            idle_secs,
            config,
            running,
            tasks,
            workspace,
        )
    } else {
        match seen.typed {
            None => r is Type,
            Some(typed) => r == (NudgeStep::Nudged {
                watch: StallWatch {
                    nudge: Some(Nudge { at: now, detected_after_secs: idle_secs, settled: false }),
                    last_input: match typed {
                        Ok(at) => later(watch.last_input, Some(at)),
                        Err(_) => watch.last_input,
                    },
                    ..watch
                },
            }),
        }
    }
}

impl StallWatch {
    /// Record a nudge and type it. One that cannot be typed counts as sent: the
    /// ask follows where the session stays idle.
    pub fn send_nudge(
        &self,
        idle_secs: i64,
        config: StallConfig,
        running: bool,
        tasks: &Json,
        workspace: &str,
        now: i128,
        seen: &NudgeSeen,
    ) -> (r: NudgeStep)
        ensures
            nudges(*self, idle_secs, config, running, tasks@, workspace@, now, *seen, r),
    {
        if !seen.recorded {
            return NudgeStep::Record {
                payload: nudge_record(idle_secs, config, running, tasks.copy(), workspace),
            };
        }
        let mut watch = *self;
        match &seen.typed {
            None => return NudgeStep::Type,
            Some(Ok(at)) => watch.input_sent(*at),
            Some(Err(_)) => {},
        }
        watch.nudged(now, idle_secs);
        NudgeStep::Nudged { watch }
    }
}

/// A session that was nudged is not nudged again, typed or not.
pub proof fn a_nudge_is_not_repeated(
    watch: StallWatch,
    idle_secs: i64,
    config: StallConfig,
    running: bool,
    tasks: json::Value,
    workspace: Seq<char>,
    now: i128,
    seen: NudgeSeen,
    after: StallWatch,
    dialog: bool,
    quiet: bool,
    later_on: i128,
    looks: ObserveSeen,
    next: ObserveStep,
)
    requires
        nudges(
            watch,
            idle_secs,
            config,
            running,
            tasks,
            workspace,
            now,
            seen,
            (NudgeStep::Nudged { watch: after }),
        ),
        observes(after, config, dialog, quiet, later_on, looks, next),
    ensures
        !(next is SendNudge),
{
}

/// One line of the background tasks.
pub open spec fn task_line(task: BackgroundTask) -> Seq<char> {
    "- "@ + task.description@ + " ("@ + task.id@ + "): "@ + task.command@
}

/// The background tasks as an ask shows them.
pub open spec fn tasks_text(tasks: Seq<BackgroundTask>, running: bool) -> Seq<char> {
    if tasks.len() > 0 {
        text::joined(Seq::new(tasks.len(), |i: int| task_line(tasks[i])), "\n"@)
    } else if running {
        "background work was running (not listed)"@
    } else {
        "no background task was running"@
    }
}

/// The background tasks as an ask shows them.
fn list_tasks(tasks: &Vec<BackgroundTask>, running: bool) -> (r: String)
    ensures
        r@ == tasks_text(tasks@, running),
{
    if tasks.len() == 0 {
        return if running {
            "background work was running (not listed)".to_owned()
        } else {
            "no background task was running".to_owned()
        };
    }
    let mut lines: Vec<String> = Vec::new();
    let mut i: usize = 0;
    while i < tasks.len()
        invariant
            i <= tasks@.len(),
            lines@.len() == i,
            forall|j: int| 0 <= j < i ==> (#[trigger] lines@[j])@ == task_line(tasks@[j]),
        decreases tasks@.len() - i,
    {
        let task = &tasks[i];
        lines.push(
            "- ".to_owned().concat(task.description.as_str()).concat(" (").concat(
                task.id.as_str(),
            ).concat("): ").concat(task.command.as_str()),
        );
        i += 1;
    }
    assert(text::views(lines@) =~= Seq::new(tasks@.len(), |i: int| task_line(tasks@[i])));
    text::join(&lines, "\n")
}

/// The question of a `stalled` ask.
pub open spec fn stalled_question(
    run: TaskRun,
    workspace: Seq<char>,
    idle_secs: i64,
    nudged_secs: int,
    threshold: i64,
    tasks: Seq<BackgroundTask>,
    running: bool,
    screen: Result<String, String>,
) -> Seq<char> {
    let shown = match screen {
        Ok(screen) => screen@,
        Err(error) => "(the screen could not be read: "@ + error@ + ")"@,
    };
    "The session of run "@ + run.id@ + " (task "@ + text::signed(run.task_id as int)
        + ") in workspace "@ + workspace + " has been idle without a receipt for "@ + text::signed(
        idle_secs as int,
    )
        + "s (reason: idle_without_receipt, phase: session), although the supervisor nudged it "@
        + text::signed(nudged_secs)
        + "s ago to write its receipt, ask a worker_question or say what it waits for. Answer `wait` to leave the session alone (the supervisor asks again if it stays idle for another "@
        + text::signed(threshold as int)
        + "s), or `intervene` to step in yourself (read the screen, stop or check its background work, type an instruction, or stop the run and recover it; see the dagq-recover skill). Answer `propose` (or `propose: <why>`) to have a planner of the runtime's propose a remedy for its cause; the session is then left alone as for `wait`. This ask closes itself once the session moves on.\n\nBackground tasks when it stopped:\n"@
        + tasks_text(tasks, running) + "\n\nLast lines of the screen:\n"@ + shown
}

/// The question of the `stalled` ask of a session that stays idle without a
/// receipt after its nudge.
fn question_of(
    run: &TaskRun,
    workspace: &str,
    idle_secs: i64,
    nudge: Nudge,
    config: StallConfig,
    tasks: &Vec<BackgroundTask>,
    running: bool,
    screen: &Result<String, String>,
    now: i128,
) -> (r: String)
    ensures
        r@ == stalled_question(
            *run,
            workspace@,
            idle_secs,
            seconds(nudge.at, now),
            config.idle_without_receipt_secs,
            tasks@,
            running,
            *screen,
        ),
{
    let id = text::integer(run.task_id);
    let idle = text::integer(idle_secs);
    let nudged = text::integer(secs_between(nudge.at, now));
    let threshold = text::integer(config.idle_without_receipt_secs);
    let background = list_tasks(tasks, running);
    let shown = match screen {
        Ok(screen) => screen.clone(),
        Err(error) => "(the screen could not be read: ".to_owned().concat(error.as_str()).concat(
            ")",
        ),
    };
    "The session of run ".to_owned().concat(run.id.as_str()).concat(" (task ").concat(
        id.as_str(),
    ).concat(") in workspace ").concat(workspace).concat(
        " has been idle without a receipt for ",
    ).concat(idle.as_str()).concat(
        "s (reason: idle_without_receipt, phase: session), although the supervisor nudged it ",
    ).concat(nudged.as_str()).concat(
        "s ago to write its receipt, ask a worker_question or say what it waits for. Answer `wait` to leave the session alone (the supervisor asks again if it stays idle for another ",
    ).concat(threshold.as_str()).concat(
        "s), or `intervene` to step in yourself (read the screen, stop or check its background work, type an instruction, or stop the run and recover it; see the dagq-recover skill). Answer `propose` (or `propose: <why>`) to have a planner of the runtime's propose a remedy for its cause; the session is then left alone as for `wait`. This ask closes itself once the session moves on.\n\nBackground tasks when it stopped:\n",
    ).concat(background.as_str()).concat("\n\nLast lines of the screen:\n").concat(
        shown.as_str(),
    )
}

/// What has been done and observed of a session that is put to a person.
#[derive(Default)]
pub struct RaiseSeen {
    /// The last lines of its screen, or why it could not be read.
    pub screen: Option<Result<String, String>>,
    /// The `stalled` ask that was opened.
    pub ask: Option<i64>,
    pub recorded: bool,
}

/// What putting a session to a person does next, or what it came to.
pub enum RaiseStep {
    ReadScreen,
    /// Open the `stalled` ask.
    Open { new: NewAsk },
    /// Record `stall_resolved`: the nudge did not help.
    Record { payload: Json },
    /// The watch follows the ask now.
    Raised { watch: StallWatch },
}

/// The watch of a session that was put to a person: it follows the ask, and
/// its nudge is settled.
pub open spec fn raised_watch(
    watch: StallWatch,
    nudge: Nudge,
    ask: i64,
    idle_secs: i64,
    now: i128,
) -> StallWatch {
    StallWatch {
        asked: Some(
            Asked {
                id: ask,
                at: now,
                detected_after_secs: idle_secs,
                applied: false,
                threshold: Threshold::IdleWithoutReceipt,
            },
        ),
        nudge: if nudge.settled {
            watch.nudge
        } else {
            Some(Nudge { settled: true, ..nudge })
        },
        ..watch
    }
}

/// What putting a session to a person comes to.
pub open spec fn raises(
    watch: StallWatch,
    run: TaskRun,
    workspace: Seq<char>,
    idle_secs: i64,
    nudge: Nudge,
    config: StallConfig,
    tasks: Seq<BackgroundTask>,
    running: bool,
    now: i128,
    seen: RaiseSeen,
    r: RaiseStep,
) -> bool {
    if seen.screen is None {
        r is ReadScreen
    } else if seen.ask is None {
        r matches RaiseStep::Open { new } && {
            &&& new.is_about(AskKind::Stalled, run)
            &&& new.question@ == stalled_question(
                run,
                workspace,
                idle_secs,
                seconds(nudge.at, now),
                config.idle_without_receipt_secs,
                tasks,
                running,
                seen.screen->0,
            )
            &&& text::views(new.options@) == seq!["wait"@, "intervene"@]
            &&& new.category == AskReason::RecoveryFailed
        }
    } else if !nudge.settled && !seen.recorded {
        r matches RaiseStep::Record { payload } && payload@ == nudge_resolved(
            nudge,
            config,
            "escalated"@,
            now,
        )
    } else {
        r == (RaiseStep::Raised {
            watch: raised_watch(watch, nudge, seen.ask->0, idle_secs, now),
        })
    }
}

impl StallWatch {
    /// Put a session that stays idle without a receipt after its nudge to a
    /// person, as a `stalled` ask: the watch follows it, and a nudge that was
    /// not settled is, as escalated.
    pub fn open_ask(
        &self,
        run: &TaskRun,
        workspace: &str,
        idle_secs: i64,
        nudge: Nudge,
        config: StallConfig,
        tasks: &Vec<BackgroundTask>,
        running: bool,
        now: i128,
        seen: &RaiseSeen,
    ) -> (r: RaiseStep)
        ensures
            raises(
                *self,
                *run,
                workspace@,
                idle_secs,
                nudge,
                config,
                tasks@,
                running,
                now,
                *seen,
                r,
            ),
    {
        let screen = match &seen.screen {
            None => return RaiseStep::ReadScreen,
            Some(screen) => screen,
        };
        let ask: i64 = match seen.ask {
            None => {
                let question = question_of(
                    run,
                    workspace,
                    idle_secs,
                    nudge,
                    config,
                    tasks,
                    running,
                    screen,
                    now,
                );
                return RaiseStep::Open {
                    new: NewAsk::about(
                        AskKind::Stalled,
                        run,
                        question,
                        stalled_options(),
                        AskReason::RecoveryFailed,
                    ),
                };
            },
            Some(ask) => ask,
        };
        if !nudge.settled && !seen.recorded {
            return RaiseStep::Record {
                payload: resolved(
                    "nudge",
                    None,
                    Threshold::IdleWithoutReceipt,
                    config,
                    nudge.detected_after_secs,
                    nudge.at,
                    "escalated",
                    now,
                ),
            };
        }
        let asked = Asked {
            id: ask,
            at: now,
            detected_after_secs: idle_secs,
            applied: false,
            threshold: Threshold::IdleWithoutReceipt,
        };
        let nudge = if nudge.settled {
            self.nudge
        } else {
            Some(
                Nudge {
                    at: nudge.at,
                    detected_after_secs: nudge.detected_after_secs,
                    settled: true,
                },
            )
        };
        RaiseStep::Raised {
            watch: StallWatch {
                nudge,
                last_input: self.last_input,
                asked: Some(asked),
                wait_from: self.wait_from,
                held: self.held,
            },
        }
    }
}

/// A session that was put to a person is followed by its ask, and nothing of
/// its nudge is open any more.
pub proof fn a_raised_stall_is_followed(
    watch: StallWatch,
    nudge: Nudge,
    ask: i64,
    idle_secs: i64,
    now: i128,
)
    requires
        watch.nudge == Some(nudge),
    ensures
        raised_watch(watch, nudge, ask, idle_secs, now).asked matches Some(asked) && asked.id == ask
            && asked.at == now && !asked.applied,
        raised_watch(watch, nudge, ask, idle_secs, now).nudge matches Some(nudge) && nudge.settled,
{
}

/// An open `stalled` ask, and whether an answer leaves the session alone.
#[derive(Debug, Clone, Copy, PartialEq, Eq, Structural)]
pub struct OpenAsk {
    pub id: i64,
    pub answered: bool,
    pub waits: bool,
}

/// What has been done and observed of a `stalled` ask that is followed.
#[derive(Debug, Clone, Copy, PartialEq, Eq, Structural, Default)]
pub struct AskSeen {
    /// The run's ask that nobody closed.
    pub open: Option<Option<OpenAsk>>,
    /// The answer of one that someone closed leaves the session alone.
    pub closed_waits: Option<bool>,
    pub closed: bool,
    pub recorded: bool,
}

/// What following a `stalled` ask does next, or what it came to.
pub enum AskStep {
    OpenAsk,
    ClosedAnswer { id: i64 },
    /// Record `stall_resolved`.
    Record { payload: Json },
    /// Close the run's `stalled` asks with this answer: the session moved on.
    CloseMoved { answer: &'static str },
    CloseAsk { id: i64 },
    Wait,
    /// The ask is over; the watch is this one now.
    Over { watch: StallWatch },
}

/// The end of an ask whose outcome is recorded.
pub open spec fn records_then(
    asked: Asked,
    config: StallConfig,
    outcome: Seq<char>,
    now: i128,
    recorded: bool,
    watch: StallWatch,
    r: AskStep,
) -> bool {
    if !recorded {
        r matches AskStep::Record { payload } && payload@ == ask_resolved(
            asked,
            config,
            outcome,
            now,
        )
    } else {
        r == (AskStep::Over { watch })
    }
}

/// The end of an ask that the session moved on from.
pub open spec fn moves_on(
    watch: StallWatch,
    asked: Asked,
    config: StallConfig,
    now: i128,
    seen: AskSeen,
    r: AskStep,
) -> bool {
    if !seen.closed {
        r matches AskStep::CloseMoved { answer } && answer@
            == "the session moved on; closed by the runtime"@
    } else {
        records_then(
            asked,
            config,
            "resolved_by_itself"@,
            now,
            seen.recorded || asked.applied,
            StallWatch { asked: None, ..watch },
            r,
        )
    }
}

/// What following a `stalled` ask comes to.
pub open spec fn follows_ask(
    watch: StallWatch,
    asked: Asked,
    config: StallConfig,
    marker: Option<i128>,
    now: i128,
    seen: AskSeen,
    r: AskStep,
) -> bool {
    match seen.open {
        None => r is OpenAsk,
        Some(None) => match seen.closed_waits {
            None => r == (AskStep::ClosedAnswer { id: asked.id }),
            Some(waits) => records_then(
                asked,
                config,
                if waits {
                    "answered_wait"@
                } else {
                    "answered_intervene"@
                },
                now,
                seen.recorded || asked.applied,
                StallWatch {
                    asked: None,
                    wait_from: if waits {
                        Some(now)
                    } else {
                        watch.wait_from
                    },
                    held: if waits {
                        watch.held
                    } else {
                        Some(now)
                    },
                    ..watch
                },
                r,
            ),
        },
        Some(Some(ask)) => if !ask.answered {
            if marker is Some && marker->0 > asked.at {
                moves_on(watch, asked, config, now, seen, r)
            } else {
                r is Wait
            }
        } else if asked.applied {
            if watch.held is None || (marker is Some && marker->0 > watch.held->0) {
                moves_on(watch, asked, config, now, seen, r)
            } else {
                r is Wait
            }
        } else if ask.waits {
            if !seen.closed {
                r == (AskStep::CloseAsk { id: ask.id })
            } else {
                records_then(
                    Asked { id: ask.id, ..asked },
                    config,
                    "answered_wait"@,
                    now,
                    seen.recorded,
                    StallWatch { asked: None, wait_from: Some(now), ..watch },
                    r,
                )
            }
        } else {
            records_then(
                Asked { id: ask.id, ..asked },
                config,
                "answered_intervene"@,
                now,
                seen.recorded,
                StallWatch {
                    asked: Some(Asked { applied: true, ..asked }),
                    held: Some(now),
                    ..watch
                },
                r,
            )
        },
    }
}

/// Record an ask's outcome, then end it.
fn record_then(
    asked: Asked,
    config: StallConfig,
    outcome: &str,
    now: i128,
    recorded: bool,
    watch: StallWatch,
) -> (r: AskStep)
    ensures
        records_then(asked, config, outcome@, now, recorded, watch, r),
{
    if recorded {
        return AskStep::Over { watch };
    }
    AskStep::Record {
        payload: resolved(
            "ask",
            Some(asked.id),
            asked.threshold,
            config,
            asked.detected_after_secs,
            asked.at,
            outcome,
            now,
        ),
    }
}

impl StallWatch {
    /// End an ask that the session moved on from.
    fn move_on(self, asked: Asked, config: StallConfig, now: i128, seen: AskSeen) -> (r: AskStep)
        ensures
            moves_on(self, asked, config, now, seen, r),
    {
        if !seen.closed {
            return AskStep::CloseMoved {
                answer: "the session moved on; closed by the runtime",
            };
        }
        let mut watch = self;
        watch.asked = None;
        record_then(
            asked,
            config,
            "resolved_by_itself",
            now,
            seen.recorded || asked.applied,
            watch,
        )
    }

    /// Follow the `stalled` ask: close it when the session ended a turn since,
    /// by itself or after a person stepped in, and apply its answer: `wait`
    /// restarts the count and closes it; anything else is a person stepping
    /// in, and no ask follows until the session ends a turn after it.
    pub fn watch_ask(
        self,
        asked: Asked,
        config: StallConfig,
        marker: Option<i128>,
        now: i128,
        seen: AskSeen,
    ) -> (r: AskStep)
        ensures
            follows_ask(self, asked, config, marker, now, seen, r),
    {
        let open = match seen.open {
            None => return AskStep::OpenAsk,
            Some(open) => open,
        };
        let mut watch = self;
        watch.asked = None;
        let ask = match open {
            None => {
                let waits = match seen.closed_waits {
                    None => return AskStep::ClosedAnswer { id: asked.id },
                    Some(waits) => waits,
                };
                let outcome = if waits {
                    watch.wait_from = Some(now);
                    "answered_wait"
                } else {
                    watch.held = Some(now);
                    "answered_intervene"
                };
                return record_then(
                    asked,
                    config,
                    outcome,
                    now,
                    seen.recorded || asked.applied,
                    watch,
                );
            },
            Some(ask) => ask,
        };
        if !ask.answered {
            if let Some(marker) = marker {
                if marker > asked.at {
                    return self.move_on(asked, config, now, seen);
                }
            }
            return AskStep::Wait;
        }
        if asked.applied {
            let moved = match self.held {
                None => true,
                Some(held) => match marker {
                    Some(marker) => marker > held,
                    None => false,
                },
            };
            return if moved {
                self.move_on(asked, config, now, seen)
            } else {
                AskStep::Wait
            };
        }
        let of = Asked {
            id: ask.id,
            at: asked.at,
            detected_after_secs: asked.detected_after_secs,
            applied: asked.applied,
            threshold: asked.threshold,
        };
        if ask.waits {
            if !seen.closed {
                return AskStep::CloseAsk { id: ask.id };
            }
            watch.wait_from = Some(now);
            return record_then(of, config, "answered_wait", now, seen.recorded, watch);
        }
        watch.asked = Some(
            Asked {
                id: asked.id,
                at: asked.at,
                detected_after_secs: asked.detected_after_secs,
                applied: true,
                threshold: asked.threshold,
            },
        );
        watch.held = Some(now);
        record_then(of, config, "answered_intervene", now, seen.recorded, watch)
    }
}

/// After a person stepped in, no ask follows until the session ends a turn
/// after that: an idle marker from before is no stall.
pub proof fn no_ask_while_a_person_steps_in(
    watch: StallWatch,
    config: StallConfig,
    dialog: bool,
    quiet: bool,
    now: i128,
    seen: ObserveSeen,
    r: ObserveStep,
)
    requires
        observes(watch, config, dialog, quiet, now, seen, r),
        watch.held is Some,
        seen.marker matches Some(Some(marker)) && marker <= watch.held->0,
    ensures
        r !is SendNudge,
        r !is OpenAsk,
{
}

/// A session is nudged, or a person asked about it, only while it waits for
/// nobody: no dialog is up, no question is open, no prompt was asked, no login
/// holds it, and what is on its screen was neither a login nor a dialog.
pub proof fn a_session_that_waits_is_left_alone(
    watch: StallWatch,
    config: StallConfig,
    dialog: bool,
    quiet: bool,
    now: i128,
    seen: ObserveSeen,
    r: ObserveStep,
)
    requires
        observes(watch, config, dialog, quiet, now, seen, r),
    ensures
        r is SendNudge || r is OpenAsk ==> {
            &&& !dialog
            &&& seen.question_open is Some && !seen.question_open->0
            &&& seen.prompt_asked is Some && !seen.prompt_asked->0
            &&& seen.login_held is Some && !seen.login_held->0
            &&& !quiet ==> seen.readable is Some && (seen.readable->0 ==> seen.login_raised is Some
                && !seen.login_raised->0 && seen.dialog_answered is Some
                && !seen.dialog_answered->0)
            &&& watch.asked is None
        },
        r is WatchAsk <==> seen.marker is Some && watch.asked is Some,
        r is ReadMarker <==> seen.marker is None,
        dialog && seen.marker is Some && watch.asked is None ==> r is Nothing,
        seen.question_open is Some && seen.question_open->0 && seen.marker is Some && watch.asked
            is None ==> r is Nothing,
        r is AnswerDialog || r is RaiseLogin ==> !quiet && seen.readable is Some
            && seen.readable->0,
{
}

/// A session counts as idle from the time its last turn ended, or from when a
/// person said to wait where that is later, and only where that turn came
/// after whatever was typed to it last and after a person stepped in; it is
/// nudged or asked about only once it was idle that long.
pub proof fn a_session_is_idle_for_the_threshold(
    watch: StallWatch,
    config: StallConfig,
    dialog: bool,
    quiet: bool,
    now: i128,
    seen: ObserveSeen,
    r: ObserveStep,
)
    requires
        observes(watch, config, dialog, quiet, now, seen, r),
        r is SendNudge || r is OpenAsk,
        config.idle_without_receipt_secs > 0,
    ensures
        seen.marker matches Some(Some(marker)) && {
            &&& watch.last_input matches Some(at) ==> marker > at
            &&& watch.held matches Some(at) ==> marker > at
            &&& now - marker >= config.idle_without_receipt_secs * 1_000_000_000
            &&& watch.wait_from matches Some(at) ==> now - at >= config.idle_without_receipt_secs
                * 1_000_000_000
        },
        r is SendNudge <==> watch.nudge is None,
        r matches ObserveStep::SendNudge { idle_secs } ==> idle_secs * 1_000_000_000 <= now
            - seen.marker->0->0,
        r matches ObserveStep::OpenAsk { idle_secs } ==> idle_secs * 1_000_000_000 <= now
            - seen.marker->0->0,
{
}

/// A session that has been idle for the threshold with nothing to wait for is
/// nudged, and a person is asked about it where it was nudged before.
pub proof fn an_idle_session_is_nudged_then_asked_about(
    watch: StallWatch,
    config: StallConfig,
    now: i128,
    seen: ObserveSeen,
    r: ObserveStep,
    marker: i128,
)
    requires
        observes(watch, config, false, false, now, seen, r),
        watch.asked is None,
        seen.marker == Some(Some(marker)),
        watch.last_input matches Some(at) ==> marker > at,
        watch.held matches Some(at) ==> marker > at,
        watch.wait_from matches Some(at) ==> now - at >= config.idle_without_receipt_secs
            * 1_000_000_000,
        now - marker >= config.idle_without_receipt_secs * 1_000_000_000,
        seen.question_open is Some && !seen.question_open->0,
        seen.prompt_asked is Some && !seen.prompt_asked->0,
        seen.login_held is Some && !seen.login_held->0,
        seen.readable is Some,
        seen.readable->0 ==> seen.login_raised is Some && !seen.login_raised->0
            && seen.dialog_answered is Some && !seen.dialog_answered->0,
    ensures
        watch.nudge is None ==> r is SendNudge,
        watch.nudge is Some ==> r is OpenAsk,
{
}

/// A nudge is recorded, then typed; the watch then holds it from now, and what
/// was typed counts as input from when it was.
pub proof fn a_nudge_is_recorded_then_typed(
    watch: StallWatch,
    idle_secs: i64,
    config: StallConfig,
    running: bool,
    tasks: json::Value,
    workspace: Seq<char>,
    now: i128,
    seen: NudgeSeen,
    r: NudgeStep,
)
    requires
        nudges(watch, idle_secs, config, running, tasks, workspace, now, seen, r),
    ensures
        r is Record <==> !seen.recorded,
        r is Type <==> seen.recorded && seen.typed is None,
        r matches NudgeStep::Nudged { watch: after } ==> {
            &&& after.nudge matches Some(nudge) && nudge.at == now && nudge.detected_after_secs
                == idle_secs && !nudge.settled
            &&& after.asked == watch.asked && after.wait_from == watch.wait_from && after.held
                == watch.held
            &&& seen.typed matches Some(Ok(at)) ==> after.last_input is Some
                && after.last_input->0 >= at && (after.last_input->0 == at || after.last_input
                == watch.last_input)
            &&& seen.typed matches Some(Err(_)) ==> after.last_input == watch.last_input
        },
{
}

/// What was typed last is the later of two times.
pub proof fn the_last_input_is_the_latest(a: Option<i128>, b: Option<i128>)
    ensures
        later(a, b) is Some <==> a is Some || b is Some,
        later(a, b) == a || later(a, b) == b,
        a is Some ==> later(a, b)->0 >= a->0,
        b is Some ==> later(a, b)->0 >= b->0,
{
}

/// The question about a stalled session is about its run, offers to wait or to
/// step in, and is opened before the nudge is recorded as escalated; the watch
/// then follows that ask.
pub proof fn a_stalled_run_is_asked_about(
    watch: StallWatch,
    run: TaskRun,
    workspace: Seq<char>,
    idle_secs: i64,
    nudge: Nudge,
    config: StallConfig,
    tasks: Seq<BackgroundTask>,
    running: bool,
    now: i128,
    seen: RaiseSeen,
    r: RaiseStep,
)
    requires
        raises(
            watch,
            run,
            workspace,
            idle_secs,
            nudge,
            config,
            tasks,
            running,
            now,
            seen,
            r,
        ),
    ensures
        r is ReadScreen <==> seen.screen is None,
        r is Open <==> seen.screen is Some && seen.ask is None,
        r matches RaiseStep::Open { new } ==> {
            &&& new.kind == AskKind::Stalled
            &&& new.task_id == Some(run.task_id)
            &&& new.run_id matches Some(id) && id@ == run.id@
            &&& text::views(new.options@) == seq!["wait"@, "intervene"@]
            &&& new.category == AskReason::RecoveryFailed
        },
        r is Record ==> seen.ask is Some && !nudge.settled && !seen.recorded,
        r matches RaiseStep::Raised { watch: after } ==> {
            &&& after.asked matches Some(asked) && seen.ask == Some(asked.id) && asked.at == now
                && !asked.applied && asked.detected_after_secs == idle_secs
            &&& after.last_input == watch.last_input && after.wait_from == watch.wait_from
                && after.held == watch.held
            &&& nudge.settled || seen.recorded
        },
{
}

/// A session's ask is over once its answer says so or the session moved on,
/// and only then: a `wait` closes it and counts the idle time from now, an
/// `intervene` leaves it open and holds the session from now on, and an
/// unanswered ask is closed once a turn ended after it was asked.
pub proof fn an_ask_is_followed_to_its_end(
    watch: StallWatch,
    asked: Asked,
    config: StallConfig,
    marker: Option<i128>,
    now: i128,
    seen: AskSeen,
    r: AskStep,
)
    requires
        follows_ask(watch, asked, config, marker, now, seen, r),
    ensures
        r is OpenAsk <==> seen.open is None,
        r matches AskStep::ClosedAnswer { id } ==> id == asked.id && seen.open == Some(
            None::<OpenAsk>,
        ) && seen.closed_waits is None,
        r matches AskStep::CloseAsk { id } ==> (seen.open matches Some(Some(ask)) && ask.id == id
            && ask.answered && ask.waits) && !asked.applied && !seen.closed,
        r is CloseMoved ==> !seen.closed && (seen.open matches Some(Some(ask)) && (if !ask.answered {
            marker is Some && marker->0 > asked.at
        } else {
            asked.applied && (watch.held is None || (marker is Some && marker->0
                > watch.held->0))
        })),
        (seen.open matches Some(Some(ask)) && !ask.answered) && (marker is None || marker->0
            <= asked.at) ==> r is Wait,
        r matches AskStep::Over { watch: after } ==> {
            &&& after.last_input == watch.last_input && after.nudge == watch.nudge
            &&& (seen.open matches Some(Some(ask)) && ask.answered && !asked.applied && ask.waits)
                ==> after.asked
                is None && after.wait_from == Some(now) && after.held == watch.held
                && seen.recorded && seen.closed
            &&& (seen.open matches Some(Some(ask)) && ask.answered && !asked.applied
                && !ask.waits) ==> after.asked == Some(Asked { applied: true, ..asked })
                && after.held == Some(now) && after.wait_from == watch.wait_from && seen.recorded
            &&& (seen.open matches Some(Some(ask)) && !ask.answered) ==> after.asked is None
                && after.wait_from == watch.wait_from && after.held == watch.held
            &&& seen.open matches Some(None) ==> after.asked is None && (match seen.closed_waits {
                Some(true) => after.wait_from == Some(now) && after.held == watch.held,
                Some(false) => after.held == Some(now) && after.wait_from == watch.wait_from,
                None => false,
            })
        },
{
}

/// What is open of a stall is ended in order: the nudge is recorded, then the
/// asks are closed, then the ask is recorded where it had not been.
pub proof fn a_stall_is_ended_in_order(
    watch: StallWatch,
    config: StallConfig,
    now: i128,
    nudge_outcome: Seq<char>,
    answer: Seq<char>,
    ask_outcome: Seq<char>,
    seen: SettleSeen,
    r: SettleStep,
)
    requires
        ends(watch, config, now, nudge_outcome, answer, ask_outcome, seen, r),
    ensures
        r is CloseAsks <==> watch.asked is Some && !seen.closed && (watch.nudge matches Some(
            nudge,
        ) ==> nudge.settled || seen.nudge_recorded),
        r matches SettleStep::CloseAsks { answer: said } ==> said@ == answer,
        r is Settled <==> (watch.nudge matches Some(nudge) ==> nudge.settled
            || seen.nudge_recorded) && (watch.asked matches Some(asked) ==> seen.closed && (
        asked.applied || seen.ask_recorded)),
        r matches SettleStep::Record { payload } ==> payload@ is Object && payload@->Object_0[5] == (
            "outcome"@,
            json::Value::Text(
                if watch.nudge is Some && !watch.nudge->0.settled && !seen.nudge_recorded {
                    nudge_outcome
                } else {
                    ask_outcome
                },
            ),
        ),
{
}

/// A stall that is open is ended once the run has a receipt or the session
/// asked a question, and is let stand while neither is seen.
pub proof fn a_stall_ends_with_a_receipt_or_a_question(
    watch: &StallWatch,
    receipt: bool,
    config: StallConfig,
    now: i128,
    seen: SettleSeen,
    r: SettleStep,
)
    requires
        call_ensures(StallWatch::settle, (watch, receipt, config, now, seen), r),
    ensures
        watch.asked is None && (watch.nudge is None || watch.nudge->0.settled) ==> r is Nothing,
        r !is Nothing && r !is QuestionOpen ==> receipt || (seen.question_open is Some
            && seen.question_open->0),
        watch.asked is Some && receipt ==> r !is Nothing && r !is QuestionOpen,
        watch.asked is Some && !receipt && seen.question_open is Some && seen.question_open->0 ==> r
            !is Nothing && r !is QuestionOpen,
        r matches SettleStep::CloseAsks { answer } ==> answer@
            == "the session moved on; closed by the runtime"@,
{
}

/// The stalled ask that is followed is the last listed one of the run, and the
/// one named where one is.
pub proof fn the_followed_ask_is_the_runs_own(
    asks: &Vec<ListedAsk>,
    run: &str,
    id: Option<i64>,
    r: Option<usize>,
)
    requires
        call_ensures(stalled_ask, (asks, run, id), r),
    ensures
        r matches Some(at) ==> at < asks@.len() && asks@[at as int].stalled && (
        asks@[at as int].run matches Some(of) && of@ == run@) && (id matches Some(id)
            ==> asks@[at as int].id == id),
        r is None ==> forall|j: int|
            0 <= j < asks@.len() && (#[trigger] asks@[j]).stalled && (asks@[j].run matches Some(of)
                && of@ == run@) ==> id is Some && asks@[j].id != id->0,
{
    if r is None {
        assert forall|j: int|
            0 <= j < asks@.len() && (#[trigger] asks@[j]).stalled && (asks@[j].run matches Some(of)
                && of@ == run@) implies id is Some && asks@[j].id != id->0 by {
            assert(!is_stalled_ask(asks@[j], run@, id));
        }
    }
}

/// An answer means to wait where it says so, without the white space around
/// it, or proposes a remedy.
pub proof fn a_wait_is_said(answer: &Option<String>, proposes: bool, r: bool)
    requires
        call_ensures(answered_wait, (answer, proposes), r),
    ensures
        r ==> *answer is Some,
        *answer is Some && proposes ==> r,
        *answer is Some && !proposes ==> (r <==> text::trimmed(answer->0@) == "wait"@),
{
}

/// A watch taken over from a run's events holds the open ask as not applied
/// until its answer was recorded, and its nudge as settled where an ask
/// followed.
pub proof fn an_adopted_watch_follows_the_open_ask(
    events: &Vec<RunEvent>,
    latest: Option<AskLook>,
    open: Option<AskLook>,
    r: StallWatch,
)
    requires
        call_ensures(StallWatch::adopt, (events, latest, open), r),
    ensures
        r.asked is Some <==> open is Some,
        open matches Some(ask) ==> r.asked->0.id == ask.id && (r.asked->0.applied
            ==> ask.answered_at is Some),
        open is Some && r.nudge is Some ==> r.nudge->0.settled,
{
}

/// The last input only moves on.
pub proof fn an_input_moves_the_last_one_on(watch: &mut StallWatch, at: i128, r: ())
    requires
        call_ensures(StallWatch::input_sent, (watch, at), r),
    ensures
        final(watch).last_input is Some && final(watch).last_input->0 >= at,
        old(watch).last_input is None || old(watch).last_input->0 <= at ==> final(watch).last_input
            == Some(at),
        old(watch).last_input is Some && old(watch).last_input->0 > at ==> final(watch).last_input
            == old(watch).last_input,
        final(watch).nudge == old(watch).nudge && final(watch).asked == old(watch).asked && final(watch).held == old(watch).held && final(watch).wait_from == old(watch).wait_from,
{
}

/// A turn counts as ended since the last input only where its marker is later.
pub proof fn a_turn_ends_after_its_input(watch: &StallWatch, marker: i128, r: bool)
    requires
        call_ensures(StallWatch::turn_since_input, (watch, marker), r),
    ensures
        watch.last_input is None ==> r,
        watch.last_input is Some ==> (r <==> marker > watch.last_input->0),
{
}

/// An ask that was raised is remembered and not yet applied; a nudge that was
/// typed is remembered and not yet settled; a stall that settled has no open ask
/// and its nudge is settled.
pub proof fn a_stall_remembers_what_happened(
    watch: &mut StallWatch,
    id: i64,
    at: i128,
    detected_after_secs: i64,
    threshold: Threshold,
    r: (),
)
    ensures
        call_ensures(StallWatch::escalated, (watch, id, at, detected_after_secs, threshold), r)
            ==> final(watch).asked is Some && final(watch).asked->0.id == id && final(watch).asked->0.at == at && !final(watch).asked->0.applied && final(watch).asked->0.threshold
            == threshold && final(watch).asked->0.detected_after_secs == detected_after_secs
            && final(watch).nudge == old(watch).nudge && final(watch).last_input == old(watch).last_input,
        call_ensures(StallWatch::nudged, (watch, at, detected_after_secs), r) ==> final(watch).nudge
            is Some && final(watch).nudge->0.at == at && !final(watch).nudge->0.settled && final(watch).nudge->0.detected_after_secs == detected_after_secs && final(watch).asked == old(watch).asked && final(watch).last_input == old(watch).last_input,
        call_ensures(StallWatch::settled, (watch,), r) ==> final(watch).asked is None && (old(watch).nudge is None ==> final(watch).nudge is None) && (old(watch).nudge is Some ==> final(watch).nudge is Some && final(watch).nudge->0.settled && final(watch).nudge->0.at == old(watch).nudge->0.at) && final(watch).last_input == old(watch).last_input,
{
}

} // verus!
