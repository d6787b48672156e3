//! The recovery job of an alert: what it decides, why a person is asked
//! instead, and what the runtime checks before it applies a repair.
//!
//! A job only reads and prints a verdict. The runtime checks every action's
//! preconditions again and applies a repair of high confidence only where all
//! of them hold; anything else is put to a person.

use crate::domain::{AskReason, ReasonCode, RunEvent, TaskRun};
use crate::json;
use crate::json::{Fields, Json, Member};
use crate::supervise::exit::Note;
use crate::text;
use vstd::prelude::*;
use vstd::string::*;

verus! {

/// Why a recovery job runs.
#[derive(Debug, Clone, Copy, PartialEq, Eq, Structural)]
pub enum RecoveryAlert {
    LongBackground,
    IdleProcess,
    StuckExit,
    PromptWaiting,
    Failed,
    Interrupted,
    ResumeExhausted,
}

impl RecoveryAlert {
    /// Its name on the queue.
    pub open spec fn name(self) -> Seq<char> {
        match self {
            RecoveryAlert::LongBackground => "long_background"@,
            RecoveryAlert::IdleProcess => "idle_process"@,
            RecoveryAlert::StuckExit => "stuck_exit"@,
            RecoveryAlert::PromptWaiting => "prompt_waiting"@,
            RecoveryAlert::Failed => "failed"@,
            RecoveryAlert::Interrupted => "interrupted"@,
            RecoveryAlert::ResumeExhausted => "resume_exhausted"@,
        }
    }

    /// Its name on the queue.
    pub fn as_str(self) -> (r: &'static str)
        ensures
            r@ == self.name(),
    {
        match self {
            RecoveryAlert::LongBackground => "long_background",
            RecoveryAlert::IdleProcess => "idle_process",
            RecoveryAlert::StuckExit => "stuck_exit",
            RecoveryAlert::PromptWaiting => "prompt_waiting",
            RecoveryAlert::Failed => "failed",
            RecoveryAlert::Interrupted => "interrupted",
            RecoveryAlert::ResumeExhausted => "resume_exhausted",
        }
    }
}

/// What a job decided.
#[derive(Debug, Clone, Copy, PartialEq, Eq, Structural)]
pub enum RecoveryDecision {
    Repair,
    Escalate,
}

impl RecoveryDecision {
    /// Its name on the queue.
    pub open spec fn name(self) -> Seq<char> {
        match self {
            RecoveryDecision::Repair => "repair"@,
            RecoveryDecision::Escalate => "escalate"@,
        }
    }

    /// Its name on the queue.
    pub fn as_str(self) -> (r: &'static str)
        ensures
            r@ == self.name(),
    {
        match self {
            RecoveryDecision::Repair => "repair",
            RecoveryDecision::Escalate => "escalate",
        }
    }
}

/// How sure a job is.
#[derive(Debug, Clone, Copy, PartialEq, Eq, Structural)]
pub enum Confidence {
    High,
    Low,
}

impl Confidence {
    /// Its name on the queue.
    pub open spec fn name(self) -> Seq<char> {
        match self {
            Confidence::High => "high"@,
            Confidence::Low => "low"@,
        }
    }

    /// Its name on the queue.
    pub fn as_str(self) -> (r: &'static str)
        ensures
            r@ == self.name(),
    {
        match self {
            Confidence::High => "high",
            Confidence::Low => "low",
        }
    }
}

/// An action a job may choose.
pub enum RecoveryAction {
    StopProcesses { pids: Vec<u32> },
    SendInstruction { instruction: String },
    AnswerKnownDialog { dialog: String },
    CloseAndProceed,
    Wait { recheck_after_secs: u64 },
    Retry,
    RetryInherit,
    Resume { instruction: String },
}

/// The name of an action.
pub open spec fn action_name(action: RecoveryAction) -> Seq<char> {
    match action {
        RecoveryAction::StopProcesses { .. } => "stop_processes"@,
        RecoveryAction::SendInstruction { .. } => "send_instruction"@,
        RecoveryAction::AnswerKnownDialog { .. } => "answer_known_dialog"@,
        RecoveryAction::CloseAndProceed => "close_and_proceed"@,
        RecoveryAction::Wait { .. } => "wait"@,
        RecoveryAction::Retry => "retry"@,
        RecoveryAction::RetryInherit => "retry_inherit"@,
        RecoveryAction::Resume { .. } => "resume"@,
    }
}

impl RecoveryAction {
    /// Its name.
    pub fn name(&self) -> (r: &'static str)
        ensures
            r@ == action_name(*self),
    {
        match self {
            RecoveryAction::StopProcesses { .. } => "stop_processes",
            RecoveryAction::SendInstruction { .. } => "send_instruction",
            RecoveryAction::AnswerKnownDialog { .. } => "answer_known_dialog",
            RecoveryAction::CloseAndProceed => "close_and_proceed",
            RecoveryAction::Wait { .. } => "wait",
            RecoveryAction::Retry => "retry",
            RecoveryAction::RetryInherit => "retry_inherit",
            RecoveryAction::Resume { .. } => "resume",
        }
    }
}

/// What a job printed.
pub struct RecoveryVerdict {
    pub verdict: RecoveryDecision,
    pub confidence: Confidence,
    pub diagnosis: String,
    pub actions: Vec<RecoveryAction>,
    /// The actions as the job wrote them.
    pub recommended: String,
    pub question: String,
    pub options: Vec<String>,
    pub reason_category: Option<AskReason>,
}

impl RecoveryVerdict {
    /// Whether its actions are applied where they hold.
    pub open spec fn is_applied(self) -> bool {
        self.verdict == RecoveryDecision::Repair && self.confidence == Confidence::High
    }

    /// Whether its actions are applied where they hold.
    pub fn applies(&self) -> (r: bool)
        ensures
            r == self.is_applied(),
    {
        self.verdict == RecoveryDecision::Repair && self.confidence == Confidence::High
    }
}

/// Why a person is asked instead of a verdict being applied.
pub enum Escalation {
    /// The job failed or printed no verdict.
    JobFailed(String),
    /// The job escalated, or was not sure of its repair.
    Verdict(RecoveryVerdict),
    /// A repair whose action does not apply now.
    Refused(RecoveryVerdict, String),
    /// The alert got this many jobs already.
    UsedUp(usize),
}

/// The name of a recovery job's file.
pub open spec fn file_name(alert: RecoveryAlert, attempt: usize, what: Seq<char>) -> Seq<char> {
    "recovery-"@ + alert.name() + "-"@ + text::decimal(attempt as nat) + "."@ + what
}

/// The name of a recovery job's file in the run directory: its prompt
/// (`prompt.txt`), stdout (`out`) and stderr (`err`).
pub fn job_file(alert: RecoveryAlert, attempt: usize, what: &str) -> (r: String)
    ensures
        r@ == file_name(alert, attempt, what@),
{
    let n = text::number(attempt as u64);
    "recovery-".to_owned().concat(alert.as_str()).concat("-").concat(n.as_str()).concat(
        ".",
    ).concat(what)
}

/// The kind of event an alert of a live session is raised from.
pub fn evidence_kind(alert: RecoveryAlert) -> (r: Option<&'static str>)
    ensures
        match alert {
            RecoveryAlert::StuckExit => r is Some && r->0@ == "exit_request_timed_out"@,
            RecoveryAlert::PromptWaiting => r is Some && r->0@ == "prompt_waiting"@,
            _ => r is None,
        },
{
    match alert {
        RecoveryAlert::StuckExit => Some("exit_request_timed_out"),
        RecoveryAlert::PromptWaiting => Some("prompt_waiting"),
        _ => None,
    }
}

/// The whole milliseconds since the epoch of a wall-clock time.
pub open spec fn in_millis(at: i128) -> int {
    if at < 0 {
        0
    } else if at as int / 1_000_000 > i64::MAX {
        i64::MAX as int
    } else {
        at as int / 1_000_000
    }
}

/// The whole milliseconds since the epoch of a wall-clock time: none before
/// it, and no more than the type holds.
pub fn millis(at: i128) -> (r: i64)
    ensures
        r == in_millis(at),
{
    if at < 0 {
        return 0;
    }
    let ms: i128 = at / 1_000_000;
    if ms > i64::MAX as i128 {
        i64::MAX
    } else {
        ms as i64
    }
}

/// The wall-clock time of milliseconds since the epoch.
pub open spec fn from_millis(ms: i64) -> int {
    if ms < 0 {
        0
    } else {
        ms * 1_000_000
    }
}

/// The wall-clock time of milliseconds since the epoch; the epoch where they
/// are negative.
pub fn at_millis(ms: i64) -> (r: i128)
    ensures
        r == from_millis(ms),
{
    if ms < 0 {
        0
    } else {
        ms as i128 * 1_000_000
    }
}

/// Milliseconds that a time was read as come back.
pub proof fn millis_read_back(ms: i64)
    requires
        ms >= 0,
    ensures
        in_millis(from_millis(ms) as i128) == ms,
{
    assert(from_millis(ms) as i128 == from_millis(ms));
}

/// The whole seconds between two wall-clock times.
pub open spec fn seconds(from: i128, to: i128) -> int {
    if to < from {
        0
    } else if (to - from) / 1_000_000_000 > i64::MAX {
        i64::MAX as int
    } else {
        (to - from) / 1_000_000_000
    }
}

/// The whole seconds from one wall-clock time to another; none where it is not
/// later.
pub fn secs_between(from: i128, to: i128) -> (r: i64)
    ensures
        r == seconds(from, to),
{
    if to < from {
        return 0;
    }
    let span: i128 = match to.checked_sub(from) {
        Some(span) => span,
        None => return i64::MAX,
    };
    let secs: i128 = span / 1_000_000_000;
    if secs > i64::MAX as i128 {
        i64::MAX
    } else {
        secs as i64
    }
}

/// Why a person is asked, as a sentence.
pub open spec fn why_text(escalation: Escalation, limit: usize) -> Seq<char> {
    match escalation {
        Escalation::JobFailed(error) => "the recovery job failed ("@ + error@
            + "), so recover it by hand"@,
        Escalation::Verdict(verdict) => if verdict.verdict == RecoveryDecision::Escalate {
            "the recovery job could not repair it"@
        } else {
            "the recovery job was not sure of its repair (confidence low), so it was not applied"@
        },
        Escalation::Refused(_, why) => "the runtime did not apply the recovery job's repair: "@
            + why@,
        Escalation::UsedUp(attempts) => "the recovery job ran "@ + text::decimal(attempts as nat)
            + " times for this alert already (at most "@ + text::decimal(limit as nat) + ")"@,
    }
}

/// The verdict an escalation has.
pub open spec fn verdict_of(escalation: Escalation) -> Option<RecoveryVerdict> {
    match escalation {
        Escalation::Verdict(verdict) => Some(verdict),
        Escalation::Refused(verdict, _) => Some(verdict),
        _ => None,
    }
}

/// The category of the ask's reason: the job's where it would throw work away
/// or change the scope.
pub open spec fn category_of(escalation: Escalation) -> AskReason {
    match verdict_of(escalation) {
        Some(verdict) => if verdict.reason_category == Some(AskReason::Discard) {
            AskReason::Discard
        } else if verdict.reason_category == Some(AskReason::Scope) {
            AskReason::Scope
        } else {
            AskReason::RecoveryFailed
        },
        None => AskReason::RecoveryFailed,
    }
}

/// The lines for an ask's question.
pub open spec fn note_text(
    escalation: Escalation,
    run: TaskRun,
    alert: RecoveryAlert,
    attempt: usize,
) -> Seq<char> {
    let base = "Why a person: "@ + category_of(escalation).name();
    let told = match verdict_of(escalation) {
        None => base,
        Some(verdict) => {
            let diagnosed = base + "\nDiagnosis: "@ + verdict.diagnosis@;
            let recommended = if verdict.actions@.len() == 0 {
                diagnosed
            } else {
                diagnosed + "\nRecommended: "@ + verdict.recommended@
            };
            if text::trimmed(verdict.question@).len() == 0 {
                recommended
            } else {
                recommended + "\nQuestion: "@ + text::trimmed(verdict.question@)
            }
        },
    };
    if escalation !is UsedUp && run.run_dir is Some {
        told + "\nRecovery material: "@ + run.run_dir->0@ + "/"@ + file_name(
            alert,
            attempt,
            "prompt.txt"@,
        )
    } else {
        told
    }
}

/// The options of the first `n` that are not blank, trimmed, each once.
pub open spec fn offered(options: Seq<Seq<char>>, n: int) -> Seq<Seq<char>>
    decreases n,
{
    if n <= 0 || n > options.len() {
        Seq::empty()
    } else {
        let before = offered(options, n - 1);
        let option = text::trimmed(options[n - 1]);
        if option.len() == 0 || before.contains(option) {
            before
        } else {
            before.push(option)
        }
    }
}

/// The options that are not blank, trimmed, each once.
fn offer(options: &Vec<String>) -> (r: Vec<String>)
    ensures
        text::views(r@) == offered(text::views(options@), options@.len() as int),
{
    let mut out: Vec<String> = Vec::new();
    let mut i: usize = 0;
    assert(text::views(out@) =~= Seq::empty());
    while i < options.len()
        invariant
            i <= options@.len(),
            text::views(out@) == offered(text::views(options@), i as int),
        decreases options@.len() - i,
    {
        let option = text::trim(options[i].as_str());
        if !text::blank(option.as_str()) {
            proof {
                trimmed_is_trimmed(options@[i as int]@);
            }
            if !text::lists(&out, option.as_str()) {
                let ghost had = out@;
                out.push(option);
                assert(text::views(out@) =~= text::views(had).push(option@));
            }
        } else {
            proof {
                trimmed_is_trimmed(options@[i as int]@);
            }
        }
        i += 1;
    }
    out
}

/// Trimming twice is trimming once.
proof fn trimmed_is_trimmed(s: Seq<char>)
    ensures
        text::trimmed(text::trimmed(s)) == text::trimmed(s),
{
    let ended = text::trimmed_end(s);
    end_is_trimmed(s);
    start_keeps_end(ended);
    start_is_trimmed(ended);
}

/// What trimming the end leaves ends with no space.
proof fn end_is_trimmed(s: Seq<char>)
    ensures
        text::trimmed_end(s).len() > 0 ==> !text::is_space(text::trimmed_end(s).last()),
    decreases s.len(),
{
    if s.len() > 0 && text::is_space(s.last()) {
        end_is_trimmed(s.drop_last());
    }
}

/// Trimming the start twice is trimming it once.
proof fn start_is_trimmed(s: Seq<char>)
    ensures
        text::trimmed_start(text::trimmed_start(s)) == text::trimmed_start(s),
    decreases s.len(),
{
    if s.len() > 0 && text::is_space(s[0]) {
        start_is_trimmed(s.skip(1));
    }
}

/// Trimming the start keeps an end that is no space.
proof fn start_keeps_end(s: Seq<char>)
    requires
        s.len() > 0 ==> !text::is_space(s.last()),
    ensures
        text::trimmed_end(text::trimmed_start(s)) == text::trimmed_start(s),
    decreases s.len(),
{
    if s.len() > 0 && text::is_space(s[0]) {
        if s.len() > 1 {
            assert(s.skip(1).last() == s.last());
        }
        start_keeps_end(s.skip(1));
    }
}

impl Escalation {
    /// Its verdict, if it has one.
    pub fn verdict(&self) -> (r: Option<&RecoveryVerdict>)
        ensures
            match r {
                Some(verdict) => verdict_of(*self) == Some(*verdict),
                None => verdict_of(*self) is None,
            },
    {
        match self {
            Escalation::Verdict(verdict) => Some(verdict),
            Escalation::Refused(verdict, _) => Some(verdict),
            Escalation::JobFailed(_) => None,
            Escalation::UsedUp(_) => None,
        }
    }

    /// Why a person is asked, as a sentence.
    fn why(&self, limit: usize) -> (r: String)
        ensures
            r@ == why_text(*self, limit),
    {
        match self {
            Escalation::JobFailed(error) => "the recovery job failed (".to_owned().concat(
                error.as_str(),
            ).concat("), so recover it by hand"),
            Escalation::Verdict(verdict) => if verdict.verdict == RecoveryDecision::Escalate {
                "the recovery job could not repair it".to_owned()
            } else {
                "the recovery job was not sure of its repair (confidence low), so it was not applied".to_owned()
            },
            Escalation::Refused(_, why) => {
                "the runtime did not apply the recovery job's repair: ".to_owned().concat(
                    why.as_str(),
                )
            },
            Escalation::UsedUp(attempts) => {
                let n = text::number(*attempts as u64);
                let most = text::number(limit as u64);
                "the recovery job ran ".to_owned().concat(n.as_str()).concat(
                    " times for this alert already (at most ",
                ).concat(most.as_str()).concat(")")
            },
        }
    }

    /// What the inbox is told: why the job did not end it, the diagnosis, what
    /// it recommends and asks, and where its material is; its options, and its
    /// reason's category. `limit` is how many jobs an alert gets.
    pub fn note(&self, run: &TaskRun, alert: RecoveryAlert, attempt: usize, limit: usize) -> (r:
        Note)
        ensures
            r.why@ == why_text(*self, limit),
            r.text@ == note_text(*self, *run, alert, attempt),
            text::views(r.options@) == (match verdict_of(*self) {
                Some(verdict) => offered(
                    text::views(verdict.options@),
                    verdict.options@.len() as int,
                ),
                None => Seq::empty(),
            }),
            r.category == category_of(*self),
    {
        let why = self.why(limit);
        let verdict = self.verdict();
        let category = match verdict {
            Some(verdict) => match verdict.reason_category {
                Some(category) => if category == AskReason::Discard || category
                    == AskReason::Scope {
                    category
                } else {
                    AskReason::RecoveryFailed
                },
                None => AskReason::RecoveryFailed,
            },
            None => AskReason::RecoveryFailed,
        };
        let mut said = "Why a person: ".to_owned().concat(category.as_str());
        if let Some(verdict) = verdict {
            said = said.concat("\nDiagnosis: ").concat(verdict.diagnosis.as_str());
            if verdict.actions.len() > 0 {
                said = said.concat("\nRecommended: ").concat(verdict.recommended.as_str());
            }
            if !text::blank(verdict.question.as_str()) {
                let question = text::trim(verdict.question.as_str());
                said = said.concat("\nQuestion: ").concat(question.as_str());
            }
        }
        let used_up = match self {
            Escalation::UsedUp(_) => true,
            _ => false,
        };
        if !used_up {
            if let Some(run_dir) = &run.run_dir {
                let file = job_file(alert, attempt, "prompt.txt");
                said = said.concat("\nRecovery material: ").concat(run_dir.as_str()).concat(
                    "/",
                ).concat(file.as_str());
            }
        }
        let options = match verdict {
            Some(verdict) => offer(&verdict.options),
            None => {
                let none: Vec<String> = Vec::new();
                assert(text::views(none@) =~= Seq::empty());
                none
            },
        };
        Note { why, text: said, options, category }
    }
}

/// An object with the members of another put into it, from the first `n`.
pub open spec fn extended(
    v: json::Value,
    extra: Seq<(Seq<char>, json::Value)>,
    n: int,
) -> json::Value
    decreases n,
{
    if n <= 0 || n > extra.len() {
        v
    } else {
        json::put(extended(v, extra, n - 1), extra[n - 1].0, extra[n - 1].1)
    }
}

/// An object with the members of `extra` put into it.
pub open spec fn with_all(v: json::Value, extra: json::Value) -> json::Value {
    match extra {
        json::Value::Object(members) => extended(v, members, members.len() as int),
        _ => v,
    }
}

/// Put the members of `extra` into a payload.
pub fn extend(payload: Json, extra: &Json) -> (r: Json)
    ensures
        r@ == with_all(payload@, extra@),
{
    match extra {
        Json::Object(members) => {
            let ghost start = payload@;
            let ghost all = json::members_view(members@);
            proof {
                json::members_viewed(members@);
            }
            let mut out = payload;
            let mut i: usize = 0;
            while i < members.len()
                invariant
                    i <= members@.len(),
                    all == json::members_view(members@),
                    all.len() == members@.len(),
                    forall|j: int|
                        0 <= j < members@.len() ==> #[trigger] all[j] == (
                            members@[j].key@,
                            members@[j].value.view(),
                        ),
                    out@ == extended(start, all, i as int),
                decreases members@.len() - i,
            {
                let member: &Member = &members[i];
                assert(all[i as int] == (member.key@, member.value.view()));
                out = out.with(member.key.as_str(), member.value.copy());
                i += 1;
            }
            out
        },
        _ => payload,
    }
}

/// A number, or nothing.
pub open spec fn int_or_null(n: Option<int>) -> json::Value {
    match n {
        Some(n) => json::Value::Int(n),
        None => json::Value::Null,
    }
}

/// A number, or nothing.
pub fn number_or_null(n: Option<i64>) -> (r: Json)
    ensures
        r@ == int_or_null(
            match n {
                Some(n) => Some(n as int),
                None => None,
            },
        ),
{
    match n {
        Some(n) => Json::Int(n as i128),
        None => Json::Null,
    }
}

/// What `recovery_finished` records of an escalation, without what is added.
pub open spec fn finished_base(
    escalation: Escalation,
    alert: RecoveryAlert,
    attempt: usize,
    why: Seq<char>,
    category: AskReason,
    ask: Option<i64>,
) -> json::Value {
    let verdict = verdict_of(escalation);
    let base = json::none().push(("alert"@, json::Value::Text(alert.name()))).push(
        ("attempt"@, json::Value::Int(attempt as int)),
    ).push(
        (
            "verdict"@,
            match verdict {
                Some(verdict) => json::Value::Text(verdict.verdict.name()),
                None => json::Value::Null,
            },
        ),
    ).push(
        (
            "confidence"@,
            match verdict {
                Some(verdict) => json::Value::Text(verdict.confidence.name()),
                None => json::Value::Null,
            },
        ),
    ).push(
        (
            "diagnosis"@,
            match verdict {
                Some(verdict) => json::Value::Text(verdict.diagnosis@),
                None => json::Value::Null,
            },
        ),
    ).push(("applied"@, json::Value::List(Seq::empty()))).push(
        ("escalated"@, json::Value::Bool(ask is Some)),
    ).push(("why"@, json::Value::Text(why))).push(
        ("reason_category"@, json::Value::Text(category.name())),
    ).push(
        (
            "ask_id"@,
            int_or_null(
                match ask {
                    Some(ask) => Some(ask as int),
                    None => None,
                },
            ),
        ),
    );
    json::Value::Object(
        if ask is None {
            base.push(("outcome"@, json::Value::Text("already_asked"@)))
        } else {
            base
        },
    )
}

impl Escalation {
    /// `recovery_finished` of an escalation: `ask` is the ask it opened, none
    /// where an open ask of the run already has a person looking; `extra` adds
    /// to it.
    pub fn finished(
        &self,
        alert: RecoveryAlert,
        attempt: usize,
        note: &Note,
        ask: Option<i64>,
        extra: &Json,
    ) -> (r: Json)
        ensures
            r@ == with_all(
                finished_base(*self, alert, attempt, note.why@, note.category, ask),
                extra@,
            ),
    {
        let (verdict, confidence, diagnosis) = match self.verdict() {
            Some(verdict) => (
                Json::Text(verdict.verdict.as_str().to_owned()),
                Json::Text(verdict.confidence.as_str().to_owned()),
                Json::Text(verdict.diagnosis.clone()),
            ),
            None => (Json::Null, Json::Null, Json::Null),
        };
        let none: Vec<Json> = Vec::new();
        assert(json::items_view(none@) =~= Seq::empty());
        let mut fields = Fields::new().text("alert", alert.as_str()).number(
            "attempt",
            attempt as i128,
        ).with("verdict", verdict).with("confidence", confidence).with(
            "diagnosis",
            diagnosis,
        ).with("applied", Json::List(none)).flag("escalated", ask.is_some()).text(
            "why",
            note.why.as_str(),
        ).text("reason_category", note.category.as_str()).with("ask_id", number_or_null(ask));
        if ask.is_none() {
            fields = fields.text("outcome", "already_asked");
        }
        extend(fields.done(), extra)
    }
}

/// What is added to the record of an escalation that a phase's own timeout
/// ends: no ask of its own is opened.
pub fn leave_idle_to_phase(phase: &str) -> (r: Json)
    ensures
        r@ == json::Value::Object(
            json::none().push(("outcome"@, json::Value::Text("left_to_phase"@))).push(
                ("phase"@, json::Value::Text(phase@)),
            ),
        ),
{
    Fields::new().text("outcome", "left_to_phase").text("phase", phase).done()
}

/// What `recovery_finished` records of a failed job.
pub open spec fn job_failed_payload(alert: RecoveryAlert, attempt: usize, error: Seq<char>) -> json::Value {
    json::Value::Object(
        json::none().push(("alert"@, json::Value::Text(alert.name()))).push(
            ("attempt"@, json::Value::Int(attempt as int)),
        ).push(("outcome"@, json::Value::Text("job_failed"@))).push(
            ("escalated"@, json::Value::Bool(false)),
        ).push(("error"@, json::Value::Text(error))).push(
            ("reason_category"@, json::Value::Text(AskReason::RecoveryFailed.name())),
        ),
    )
}

/// What `recovery_finished` records of a failed job.
pub fn job_failed(alert: RecoveryAlert, attempt: usize, error: &str) -> (r: Json)
    ensures
        r@ == job_failed_payload(alert, attempt, error@),
{
    Fields::new().text("alert", alert.as_str()).number("attempt", attempt as i128).text(
        "outcome",
        "job_failed",
    ).flag("escalated", false).text("error", error).text(
        "reason_category",
        AskReason::RecoveryFailed.as_str(),
    ).done()
}

/// What `recovery_failed` records of a live session's failed job.
pub open spec fn live_failed_payload(
    workspace: Seq<char>,
    alert: RecoveryAlert,
    attempt: usize,
    error: Seq<char>,
) -> json::Value {
    json::Value::Object(
        json::none().push(("code"@, json::Value::Text(ReasonCode::JobFailed.name()))).push(
            ("alert"@, json::Value::Text(alert.name())),
        ).push(("attempt"@, json::Value::Int(attempt as int))).push(
            ("error"@, json::Value::Text(error)),
        ).push(("workspace_id"@, json::Value::Text(workspace))).push(
            ("reason_category"@, json::Value::Text(AskReason::RecoveryFailed.name())),
        ),
    )
}

/// What a live session's failed job records: `recovery_finished`, and
/// `recovery_failed`, the attention a person recovers the session from by
/// hand. Nothing is asked and the session is left as it is.
pub fn fail_live(workspace: &str, alert: RecoveryAlert, attempt: usize, error: &str) -> (r: (
    Json,
    Json,
))
    ensures
        r.0@ == job_failed_payload(alert, attempt, error@),
        r.1@ == live_failed_payload(workspace@, alert, attempt, error@),
{
    let failed = Fields::new().text("code", ReasonCode::JobFailed.as_str()).text(
        "alert",
        alert.as_str(),
    ).number("attempt", attempt as i128).text("error", error).text(
        "workspace_id",
        workspace,
    ).text("reason_category", AskReason::RecoveryFailed.as_str()).done();
    (job_failed(alert, attempt, error), failed)
}

/// The text of a member of a JSON document, where the bytes are one, it is an
/// object with that member, and the member is a text.
pub uninterp spec fn document_text(bytes: Seq<u8>, key: Seq<char>) -> Option<Seq<char>>;

/// The text of the member `key` of the JSON document that `bytes` are, by
/// `serde_json::from_slice` into a `serde_json::Value`, its index by the key
/// and `as_str`. The result depends on the bytes and the key alone; which
/// bytes are a document is left to the name.
#[verifier::external_body]
fn member_text(bytes: &Vec<u8>, key: &str) -> (r: Option<String>)
    ensures
        text::opt_view(r) == document_text(bytes@, key@),
{
    serde_json::from_slice::<serde_json::Value>(bytes).ok().and_then(
        |document| document[key].as_str().map(str::to_owned),
    )
}

/// The commit a receipt names, where its file can be read and holds one.
pub fn receipt_commit(file: &Option<Vec<u8>>) -> (r: Option<String>)
    ensures
        text::opt_view(r) == (match *file {
            Some(bytes) => document_text(bytes@, "commit"@),
            None => None,
        }),
{
    match file {
        Some(bytes) => member_text(bytes, "commit"),
        None => None,
    }
}

/// What could be read, or that it could not.
pub open spec fn read_or_said(there: bool, read: Result<String, String>) -> Seq<char> {
    if !there {
        "(no worktree)"@
    } else {
        match read {
            Ok(read) => read@,
            Err(error) => "(unreadable: "@ + error@ + ")"@,
        }
    }
}

/// What could be read, or that it could not.
fn said(there: bool, read: &Result<String, String>) -> (r: String)
    ensures
        r@ == read_or_said(there, *read),
{
    if !there {
        return "(no worktree)".to_owned();
    }
    match read {
        Ok(read) => read.clone(),
        Err(error) => "(unreadable: ".to_owned().concat(error.as_str()).concat(")"),
    }
}

/// The worktree's status, its head and the commit of the receipt's file, for a
/// recovery job; what cannot be read says so. `there` is whether the run has a
/// worktree that is there.
pub fn git_facts(
    there: bool,
    status: &Result<String, String>,
    head: &Result<String, String>,
    receipt: &Option<Vec<u8>>,
) -> (r: (String, String, Option<String>))
    ensures
        r.0@ == read_or_said(there, *status),
        r.1@ == read_or_said(there, *head),
        text::opt_view(r.2) == (match *receipt {
            Some(bytes) => document_text(bytes@, "commit"@),
            None => None,
        }),
{
    (said(there, status), said(there, head), receipt_commit(receipt))
}

/// Whether an event is an earlier verdict or an automatic repair.
pub open spec fn is_repair_event(event: RunEvent) -> bool {
    event.is_kind("recovery_finished"@) || event.is_kind("auto_repaired"@)
}

/// The places among the first `n` events of earlier verdicts and automatic
/// repairs.
pub open spec fn repairs(events: Seq<RunEvent>, n: int) -> Seq<int>
    decreases n,
{
    if n <= 0 || n > events.len() {
        Seq::empty()
    } else if is_repair_event(events[n - 1]) {
        repairs(events, n - 1).push(n - 1)
    } else {
        repairs(events, n - 1)
    }
}

/// The run's earlier recovery verdicts and automatic repairs, by their places.
pub fn repair_history(events: &Vec<RunEvent>) -> (r: Vec<usize>)
    ensures
        r@.len() == repairs(events@, events@.len() as int).len(),
        forall|i: int|
            0 <= i < r@.len() ==> #[trigger] r@[i] == repairs(events@, events@.len() as int)[i],
{
    let mut out: Vec<usize> = Vec::new();
    let mut n: usize = 0;
    while n < events.len()
        invariant
            n <= events@.len(),
            out@.len() == repairs(events@, n as int).len(),
            forall|i: int|
                0 <= i < out@.len() ==> #[trigger] out@[i] == repairs(events@, n as int)[i],
        decreases events@.len() - n,
    {
        if events[n].of_kind("recovery_finished") || events[n].of_kind("auto_repaired") {
            out.push(n);
        }
        n += 1;
    }
    out
}

/// What a live session offers the recovery job of an alert.
pub struct Live {
    pub workspace: String,
    /// The actions that apply to the alert here.
    pub allowed: Vec<String>,
    /// The supervisor typed the session's `/exit`.
    pub exit_typed: bool,
    /// The session is idle at its prompt.
    pub at_prompt: bool,
    /// The run lands once its session exits.
    pub lands: bool,
}

/// What a recovery job looks at in a live session.
#[derive(Debug, Clone, Copy, PartialEq, Eq, Structural)]
pub enum Occasion {
    LongBackground { at_prompt: bool },
    /// `at_prompt` does not hold of a session on its way out or resumed.
    IdleProcess { at_prompt: bool },
    /// The session holds its `/exit` back; `lands` where its run lands after it.
    StuckExit { exit_typed: bool, lands: bool },
    PromptWaiting { exit_typed: bool },
}

/// The actions of the alerts whose lists are the queue's to say.
pub struct ActionLists {
    /// For a held `/exit` of a run that lands after it.
    pub stuck_exit: Vec<String>,
    pub prompt_waiting: Vec<String>,
}

/// The actions that a recovery job may choose.
pub open spec fn actions_for(occasion: Occasion, lists: ActionLists) -> Seq<Seq<char>> {
    match occasion {
        Occasion::LongBackground { .. } | Occasion::IdleProcess { .. } => seq![
            "stop_processes"@,
            "send_instruction"@,
            "wait"@,
        ],
        Occasion::StuckExit { lands, .. } => if lands {
            text::views(lists.stuck_exit@)
        } else {
            seq!["answer_known_dialog"@, "stop_processes"@, "wait"@]
        },
        Occasion::PromptWaiting { .. } => text::views(lists.prompt_waiting@),
    }
}

/// Three actions, by name.
fn three(first: &str, second: &str, third: &str) -> (r: Vec<String>)
    ensures
        text::views(r@) == seq![first@, second@, third@],
{
    let mut out: Vec<String> = Vec::new();
    out.push(first.to_owned());
    out.push(second.to_owned());
    out.push(third.to_owned());
    assert(text::views(out@) =~= seq![first@, second@, third@]);
    out
}

impl Live {
    /// What a live session offers the recovery job of an alert.
    pub fn offered(workspace: &str, occasion: Occasion, lists: &ActionLists) -> (r: Live)
        ensures
            r.workspace@ == workspace@,
            text::views(r.allowed@) == actions_for(occasion, *lists),
            r.exit_typed == (match occasion {
                Occasion::StuckExit { exit_typed, .. } => exit_typed,
                Occasion::PromptWaiting { exit_typed } => exit_typed,
                _ => false,
            }),
            r.at_prompt == (match occasion {
                Occasion::LongBackground { at_prompt } => at_prompt,
                Occasion::IdleProcess { at_prompt } => at_prompt,
                _ => false,
            }),
            r.lands == (occasion matches Occasion::StuckExit { lands, .. } && lands),
    {
        let (mut exit_typed, mut at_prompt, mut lands) = (false, false, false);
        let allowed = match occasion {
            Occasion::LongBackground { at_prompt: idle } => {
                at_prompt = idle;
                three("stop_processes", "send_instruction", "wait")
            },
            Occasion::IdleProcess { at_prompt: idle } => {
                at_prompt = idle;
                three("stop_processes", "send_instruction", "wait")
            },
            Occasion::StuckExit { exit_typed: typed, lands: after } => {
                exit_typed = typed;
                lands = after;
                if after {
                    text::copied(&lists.stuck_exit)
                } else {
                    three("answer_known_dialog", "stop_processes", "wait")
                }
            },
            Occasion::PromptWaiting { exit_typed: typed } => {
                exit_typed = typed;
                text::copied(&lists.prompt_waiting)
            },
        };
        Live { workspace: workspace.to_owned(), allowed, exit_typed, at_prompt, lands }
    }
}

/// The workspace of a session that holds its `/exit` back is not closed over it
/// where its run does not land, and such a session is sent no instruction.
pub proof fn a_resting_runs_session_is_not_closed(exit_typed: bool, lists: ActionLists)
    ensures
        !actions_for(Occasion::StuckExit { exit_typed, lands: false }, lists).contains(
            "close_and_proceed"@,
        ),
        !actions_for(Occasion::StuckExit { exit_typed, lands: false }, lists).contains(
            "send_instruction"@,
        ),
{
    reveal_strlit("answer_known_dialog");
    reveal_strlit("stop_processes");
    reveal_strlit("wait");
    reveal_strlit("close_and_proceed");
    reveal_strlit("send_instruction");
    assert("answer_known_dialog"@.len() == 19);
    assert("stop_processes"@.len() == 14);
    assert("wait"@.len() == 4);
    assert("close_and_proceed"@.len() == 17);
    assert("send_instruction"@.len() == 16);
}

/// What an action's preconditions were looked up as.
pub enum Look {
    /// The run's own processes.
    Own(Result<Vec<u32>, String>),
    /// Whether the known dialog is up under its rule.
    Dialog(Result<(), String>),
    /// Why the run cannot land without its session's exit.
    Landable(Option<String>),
}

/// How an action stands.
pub ghost enum Rule {
    NeedsLook,
    Refused(Seq<char>),
    Holds,
}

/// The first of the pids, from `i`, that is not among the run's own.
pub open spec fn foreign(pids: Seq<u32>, own: Seq<u32>, i: int) -> Option<u32>
    decreases pids.len() - i,
{
    if i < 0 || i >= pids.len() {
        None
    } else if !own.contains(pids[i]) {
        Some(pids[i])
    } else {
        foreign(pids, own, i + 1)
    }
}

/// How an action stands, with what was looked up for it.
pub open spec fn rule(action: RecoveryAction, live: Live, look: Option<Look>) -> Rule {
    let name = action_name(action);
    if !text::views(live.allowed@).contains(name) {
        Rule::Refused(
            name + " does not apply to this alert of a live session (allowed: "@ + text::joined(
                text::views(live.allowed@),
                ", "@,
            ) + ")"@,
        )
    } else {
        match action {
            RecoveryAction::StopProcesses { pids } => if pids@.len() == 0 {
                Rule::Refused("stop_processes names no pid"@)
            } else {
                match look {
                    Some(Look::Own(Err(error))) => Rule::Refused(
                        "the run's processes could not be listed: "@ + error@,
                    ),
                    Some(Look::Own(Ok(own))) => match foreign(pids@, own@, 0) {
                        Some(pid) => Rule::Refused(
                            "pid "@ + text::decimal(pid as nat)
                                + " is not one of the run's own processes (working directory in its worktree, or under its session; never the session itself)"@,
                        ),
                        None => Rule::Holds,
                    },
                    _ => Rule::NeedsLook,
                }
            },
            RecoveryAction::SendInstruction { instruction } => if text::trimmed(
                instruction@,
            ).len() == 0 {
                Rule::Refused("send_instruction has no instruction"@)
            } else if !live.at_prompt {
                Rule::Refused("the session is not idle at its prompt for an instruction"@)
            } else {
                Rule::Holds
            },
            RecoveryAction::AnswerKnownDialog { .. } => match look {
                Some(Look::Dialog(Err(why))) => Rule::Refused("answer_known_dialog: "@ + why@),
                Some(Look::Dialog(Ok(_))) => Rule::Holds,
                _ => Rule::NeedsLook,
            },
            RecoveryAction::CloseAndProceed => if !live.lands {
                Rule::Refused(
                    "close_and_proceed: the run does not land after its session's exit"@,
                )
            } else {
                match look {
                    Some(Look::Landable(Some(why))) => Rule::Refused("close_and_proceed: "@ + why@),
                    Some(Look::Landable(None)) => Rule::Holds,
                    _ => Rule::NeedsLook,
                }
            },
            RecoveryAction::Wait { .. } => Rule::Holds,
            _ => Rule::Refused(name + " does not apply to a live session"@),
        }
    }
}

/// The first action, from `i`, that does not hold.
pub open spec fn first_open(
    actions: Seq<RecoveryAction>,
    live: Live,
    looks: Seq<Option<Look>>,
    i: int,
) -> Option<int>
    decreases actions.len() - i,
{
    if i < 0 || i >= actions.len() {
        None
    } else if rule(actions[i], live, looks[i]) != Rule::Holds {
        Some(i)
    } else {
        first_open(actions, live, looks, i + 1)
    }
}

/// How one action stands.
enum Ruled {
    NeedsLook,
    Refused(String),
    Holds,
}

/// The first of the pids that is not among the run's own.
fn find_foreign(pids: &Vec<u32>, own: &Vec<u32>) -> (r: Option<u32>)
    ensures
        r == foreign(pids@, own@, 0),
{
    let mut i: usize = 0;
    while i < pids.len()
        invariant
            i <= pids@.len(),
            foreign(pids@, own@, 0) == foreign(pids@, own@, i as int),
        decreases pids@.len() - i,
    {
        let mut found = false;
        let mut j: usize = 0;
        while j < own.len() && !found
            invariant
                i < pids@.len(),
                j <= own@.len(),
                found ==> own@.contains(pids@[i as int]),
                !found ==> forall|k: int| 0 <= k < j ==> own@[k] != pids@[i as int],
            decreases own@.len() - j,
        {
            if own[j] == pids[i] {
                assert(own@[j as int] == pids@[i as int]);
                found = true;
            }
            j += 1;
        }
        if !found {
            return Some(pids[i]);
        }
        i += 1;
    }
    None
}

/// How one action stands.
fn ruled(action: &RecoveryAction, live: &Live, look: &Option<Look>) -> (r: Ruled)
    ensures
        match rule(*action, *live, *look) {
            Rule::NeedsLook => r is NeedsLook,
            Rule::Refused(why) => r matches Ruled::Refused(said) && said@ == why,
            Rule::Holds => r is Holds,
        },
{
    if !text::lists(&live.allowed, action.name()) {
        let all = text::join(&live.allowed, ", ");
        return Ruled::Refused(
            action.name().to_owned().concat(
                " does not apply to this alert of a live session (allowed: ",
            ).concat(all.as_str()).concat(")"),
        );
    }
    match action {
        RecoveryAction::StopProcesses { pids } => {
            if pids.len() == 0 {
                return Ruled::Refused("stop_processes names no pid".to_owned());
            }
            match look {
                Some(Look::Own(Err(error))) => Ruled::Refused(
                    "the run's processes could not be listed: ".to_owned().concat(error.as_str()),
                ),
                Some(Look::Own(Ok(own))) => match find_foreign(pids, own) {
                    Some(pid) => {
                        let n = text::number(pid as u64);
                        Ruled::Refused(
                            "pid ".to_owned().concat(n.as_str()).concat(
                                " is not one of the run's own processes (working directory in its worktree, or under its session; never the session itself)",
                            ),
                        )
                    },
                    None => Ruled::Holds,
                },
                _ => Ruled::NeedsLook,
            }
        },
        RecoveryAction::SendInstruction { instruction } => {
            if text::blank(instruction.as_str()) {
                return Ruled::Refused("send_instruction has no instruction".to_owned());
            }
            if !live.at_prompt {
                return Ruled::Refused(
                    "the session is not idle at its prompt for an instruction".to_owned(),
                );
            }
            Ruled::Holds
        },
        RecoveryAction::AnswerKnownDialog { .. } => match look {
            Some(Look::Dialog(Err(why))) => Ruled::Refused(
                "answer_known_dialog: ".to_owned().concat(why.as_str()),
            ),
            Some(Look::Dialog(Ok(_))) => Ruled::Holds,
            _ => Ruled::NeedsLook,
        },
        RecoveryAction::CloseAndProceed => {
            if !live.lands {
                return Ruled::Refused(
                    "close_and_proceed: the run does not land after its session's exit".to_owned(),
                );
            }
            match look {
                Some(Look::Landable(Some(why))) => Ruled::Refused(
                    "close_and_proceed: ".to_owned().concat(why.as_str()),
                ),
                Some(Look::Landable(None)) => Ruled::Holds,
                _ => Ruled::NeedsLook,
            }
        },
        RecoveryAction::Wait { .. } => Ruled::Holds,
        _ => Ruled::Refused(
            action.name().to_owned().concat(" does not apply to a live session"),
        ),
    }
}

/// What checking the actions of a verdict comes to.
pub enum CheckStep {
    /// Look up what the action at this place needs.
    Look { index: usize },
    Refused(String),
    Holds,
}

/// What checking the actions of a verdict comes to.
pub open spec fn checks(
    actions: Seq<RecoveryAction>,
    live: Live,
    looks: Seq<Option<Look>>,
    r: CheckStep,
) -> bool {
    match first_open(actions, live, looks, 0) {
        None => r is Holds,
        Some(i) => match rule(actions[i], live, looks[i]) {
            Rule::Refused(why) => r matches CheckStep::Refused(said) && said@ == why,
            _ => r == (CheckStep::Look { index: i as usize }),
        },
    }
}

/// Check each action's preconditions now: only the actions allowed for the
/// alert here, only the run's own processes, an instruction only into a
/// session at its prompt, a known dialog only under its rule, and a close only
/// of a run that lands and whose receipt still holds. The first that fails
/// refuses the whole verdict.
pub fn check_live(
    actions: &Vec<RecoveryAction>,
    live: &Live,
    looks: &Vec<Option<Look>>,
) -> (r: CheckStep)
    requires
        actions@.len() == looks@.len(),
    ensures
        checks(actions@, *live, looks@, r),
{
    let mut i: usize = 0;
    while i < actions.len()
        invariant
            i <= actions@.len(),
            actions@.len() == looks@.len(),
            first_open(actions@, *live, looks@, 0) == first_open(actions@, *live, looks@, i as int),
        decreases actions@.len() - i,
    {
        match ruled(&actions[i], live, &looks[i]) {
            Ruled::NeedsLook => return CheckStep::Look { index: i },
            Ruled::Refused(why) => return CheckStep::Refused(why),
            Ruled::Holds => {},
        }
        i += 1;
    }
    CheckStep::Holds
}

/// A verdict that passes the check holds in every action: each is allowed here,
/// and stops only the run's own processes.
pub proof fn a_checked_verdict_holds(
    actions: Seq<RecoveryAction>,
    live: Live,
    looks: Seq<Option<Look>>,
    i: int,
)
    requires
        actions.len() == looks.len(),
        checks(actions, live, looks, CheckStep::Holds),
        0 <= i < actions.len(),
    ensures
        rule(actions[i], live, looks[i]) == Rule::Holds,
        text::views(live.allowed@).contains(action_name(actions[i])),
        actions[i] matches RecoveryAction::StopProcesses { pids } ==> (looks[i] matches Some(
            Look::Own(Ok(own)),
        ) && forall|k: int| 0 <= k < pids@.len() ==> own@.contains(#[trigger] pids@[k])),
{
    all_hold(actions, live, looks, 0, i);
    if let RecoveryAction::StopProcesses { pids } = actions[i] {
        if let Some(Look::Own(Ok(own))) = looks[i] {
            none_foreign(pids@, own@, 0);
        }
    }
}

/// No action holds back: every action from `from` holds.
proof fn all_hold(
    actions: Seq<RecoveryAction>,
    live: Live,
    looks: Seq<Option<Look>>,
    from: int,
    i: int,
)
    requires
        0 <= from <= i < actions.len(),
        first_open(actions, live, looks, from) is None,
    ensures
        rule(actions[i], live, looks[i]) == Rule::Holds,
    decreases actions.len() - from,
{
    if from < i {
        all_hold(actions, live, looks, from + 1, i);
    }
}

/// No pid is foreign: each is among the run's own.
proof fn none_foreign(pids: Seq<u32>, own: Seq<u32>, from: int)
    requires
        0 <= from <= pids.len(),
        foreign(pids, own, from) is None,
    ensures
        forall|k: int| from <= k < pids.len() ==> own.contains(#[trigger] pids[k]),
    decreases pids.len() - from,
{
    if from < pids.len() {
        none_foreign(pids, own, from + 1);
    }
}

/// The seconds between two times are the whole ones that passed, and none
/// where time went back.
pub proof fn seconds_are_whole(from: i128, to: i128)
    ensures
        from > to ==> seconds(from, to) == 0,
        from <= to && to - from <= 1_000_000_000 * i64::MAX ==> seconds(from, to) * 1_000_000_000
            <= to - from < (seconds(from, to) + 1) * 1_000_000_000,
        seconds(from, to) >= 0,
{
}

/// A verdict is applied only where it repairs and is sure of it.
pub proof fn only_a_sure_repair_is_applied(verdict: RecoveryVerdict)
    ensures
        verdict.is_applied() <==> verdict.verdict == RecoveryDecision::Repair && verdict.confidence
            == Confidence::High,
{
}

/// Why a person is asked is what the recovery said, where it said to discard
/// work or to change the scope, and that it failed otherwise.
pub proof fn a_category_is_the_jobs_own(escalation: Escalation)
    ensures
        (escalation is JobFailed || escalation is UsedUp) ==> category_of(escalation)
            == AskReason::RecoveryFailed,
        escalation matches Escalation::Verdict(verdict) ==> (verdict.reason_category == Some(
            AskReason::Discard,
        ) || verdict.reason_category == Some(AskReason::Scope) ==> category_of(escalation)
            == verdict.reason_category->0) && (verdict.reason_category is None ==> category_of(
            escalation,
        ) == AskReason::RecoveryFailed),
        escalation matches Escalation::Refused(verdict, _) ==> (verdict.reason_category == Some(
            AskReason::Discard,
        ) || verdict.reason_category == Some(AskReason::Scope) ==> category_of(escalation)
            == verdict.reason_category->0) && (verdict.reason_category is None ==> category_of(
            escalation,
        ) == AskReason::RecoveryFailed),
{
}

/// The options put to a person are those the job gave, without white space
/// around them, each once and none empty.
pub proof fn options_are_offered_once(options: Seq<Seq<char>>, n: int)
    requires
        0 <= n <= options.len(),
    ensures
        forall|i: int|
            0 <= i < n && !text::is_blank(#[trigger] options[i]) ==> offered(options, n).contains(
                text::trimmed(options[i]),
            ),
        forall|k: int|
            0 <= k < offered(options, n).len() ==> (#[trigger] offered(options, n)[k]).len() > 0,
        forall|j: int, k: int|
            0 <= j < k < offered(options, n).len() ==> offered(options, n)[j] != offered(
                options,
                n,
            )[k],
    decreases n,
{
    if n > 0 {
        options_are_offered_once(options, n - 1);
        let before = offered(options, n - 1);
        let after = offered(options, n);
        let option = text::trimmed(options[n - 1]);
        text::blank_is_all_space(options[n - 1]);
        assert forall|i: int| 0 <= i < n && !text::is_blank(#[trigger] options[i]) implies after.contains(
            text::trimmed(options[i]),
        ) by {
            if i < n - 1 {
                let k = choose|k: int|
                    0 <= k < before.len() && before[k] == text::trimmed(options[i]);
                assert(after[k] == text::trimmed(options[i]));
            } else if !before.contains(option) {
                assert(after[before.len() as int] == option);
            }
        }
        assert forall|j: int, k: int| 0 <= j < k < after.len() implies after[j] != after[k] by {
            if k < before.len() {
                assert(after[j] == before[j] && after[k] == before[k]);
            } else {
                assert(after[k] == option);
                assert(after[j] == before[j]);
                assert(before.contains(before[j]));
            }
        }
        assert forall|k: int| 0 <= k < after.len() implies (#[trigger] after[k]).len() > 0 by {
            if k < before.len() {
                assert(after[k] == before[k]);
            }
        }
    }
}

/// What is offered to a session that is alive depends on what happened to it:
/// only a stuck exit of a run that lands may close its session, and an
/// instruction goes only to one at its prompt.
pub proof fn actions_fit_the_occasion(
    workspace: &str,
    occasion: Occasion,
    lists: &ActionLists,
    r: Live,
)
    requires
        call_ensures(Live::offered, (workspace, occasion, lists), r),
    ensures
        r.workspace@ == workspace@,
        r.lands ==> occasion is StuckExit,
        r.at_prompt ==> occasion is LongBackground || occasion is IdleProcess,
        r.exit_typed ==> occasion is StuckExit || occasion is PromptWaiting,
        occasion matches Occasion::StuckExit { exit_typed, lands } ==> r.lands == lands
            && r.exit_typed == exit_typed,
        occasion matches Occasion::LongBackground { at_prompt } ==> r.at_prompt == at_prompt,
        occasion matches Occasion::IdleProcess { at_prompt } ==> r.at_prompt == at_prompt,
        occasion is PromptWaiting ==> text::views(r.allowed@) == text::views(
            lists.prompt_waiting@,
        ),
{
}

/// An action of a recovery holds only where it is allowed and what it needs
/// was seen: it stops none but the run's own processes, instructs only a
/// session at its prompt, answers only a dialog that is there, and closes only
/// a session whose run lands as it was reviewed; a retry or a resume never
/// fits a live session.
pub proof fn an_action_holds_only_when_safe(
    action: RecoveryAction,
    live: Live,
    look: Option<Look>,
)
    requires
        rule(action, live, look) == Rule::Holds,
    ensures
        exists|i: int|
            0 <= i < live.allowed@.len() && (#[trigger] live.allowed@[i])@ == action_name(action),
        match action {
            RecoveryAction::StopProcesses { pids } => pids@.len() > 0 && (look matches Some(
                Look::Own(Ok(own)),
            ) && forall|k: int| 0 <= k < pids@.len() ==> own@.contains(#[trigger] pids@[k])),
            RecoveryAction::SendInstruction { instruction } => !text::is_blank(instruction@)
                && live.at_prompt,
            RecoveryAction::AnswerKnownDialog { .. } => look matches Some(Look::Dialog(Ok(_))),
            RecoveryAction::CloseAndProceed => live.lands && (look matches Some(
                Look::Landable(None),
            )),
            RecoveryAction::Wait { .. } => true,
            _ => false,
        },
{
    let views = text::views(live.allowed@);
    let i = choose|i: int| 0 <= i < views.len() && views[i] == action_name(action);
    assert(live.allowed@[i]@ == action_name(action));
    if let RecoveryAction::StopProcesses { pids } = action {
        if let Some(Look::Own(Ok(own))) = look {
            none_foreign(pids@, own@, 0);
        }
    }
    if let RecoveryAction::SendInstruction { instruction } = action {
        text::blank_is_all_space(instruction@);
    }
}

/// An allowed action whose needs were seen to hold does.
pub proof fn a_safe_action_holds(
    action: RecoveryAction,
    live: Live,
    look: Option<Look>,
    i: int,
)
    requires
        0 <= i < live.allowed@.len(),
        live.allowed@[i]@ == action_name(action),
    ensures
        action is Wait ==> rule(action, live, look) == Rule::Holds,
        action is AnswerKnownDialog && (look matches Some(Look::Dialog(Ok(_)))) ==> rule(
            action,
            live,
            look,
        ) == Rule::Holds,
        action is CloseAndProceed && live.lands && (look matches Some(Look::Landable(None)))
            ==> rule(action, live, look) == Rule::Holds,
        (action matches RecoveryAction::SendInstruction { instruction } && !text::is_blank(
            instruction@,
        )) && live.at_prompt ==> rule(action, live, look) == Rule::Holds,
        (action matches RecoveryAction::StopProcesses { pids } && pids@.len() == 1 && (
        look matches Some(Look::Own(Ok(own))) && own@.contains(pids@[0]))) ==> rule(
            action,
            live,
            look,
        ) == Rule::Holds,
{
    assert(text::views(live.allowed@)[i] == action_name(action));
    if let RecoveryAction::SendInstruction { instruction } = action {
        text::blank_is_all_space(instruction@);
    }
    if let RecoveryAction::StopProcesses { pids } = action {
        if let Some(Look::Own(Ok(own))) = look {
            reveal_with_fuel(foreign, 3);
        }
    }
}

/// A verdict holds where each of its actions does; the first that does not is
/// looked at or refused.
pub proof fn a_verdict_holds_with_all_its_actions(
    actions: Seq<RecoveryAction>,
    live: Live,
    looks: Seq<Option<Look>>,
    r: CheckStep,
)
    requires
        checks(actions, live, looks, r),
        actions.len() == looks.len(),
        actions.len() <= usize::MAX,
    ensures
        r is Holds <==> forall|i: int|
            0 <= i < actions.len() ==> rule(#[trigger] actions[i], live, looks[i]) == Rule::Holds,
        r matches CheckStep::Look { index } ==> index < actions.len() && looks[index as int] is None
            || rule(actions[index as int], live, looks[index as int]) == Rule::NeedsLook,
        r is Refused ==> exists|i: int|
            0 <= i < actions.len() && rule(#[trigger] actions[i], live, looks[i]) is Refused,
{
    first_open_is_first(actions, live, looks, 0);
    if let Some(i) = first_open(actions, live, looks, 0) {
        assert(rule(actions[i], live, looks[i]) != Rule::Holds);
    }
}

proof fn first_open_is_first(
    actions: Seq<RecoveryAction>,
    live: Live,
    looks: Seq<Option<Look>>,
    from: int,
)
    requires
        0 <= from,
    ensures
        match first_open(actions, live, looks, from) {
            Some(at) => from <= at < actions.len() && rule(actions[at], live, looks[at])
                != Rule::Holds,
            None => forall|i: int|
                from <= i < actions.len() ==> rule(#[trigger] actions[i], live, looks[i])
                    == Rule::Holds,
        },
    decreases actions.len() - from,
{
    if from < actions.len() && rule(actions[from], live, looks[from]) == Rule::Holds {
        first_open_is_first(actions, live, looks, from + 1);
    }
}

/// The repairs shown are the events that ended a recovery or repaired by
/// themselves, all of them and in order.
pub proof fn every_repair_is_shown(events: &Vec<RunEvent>, r: Vec<usize>)
    requires
        call_ensures(repair_history, (events,), r),
    ensures
        forall|k: int|
            0 <= k < r@.len() ==> (#[trigger] r@[k]) < events@.len() && (events@[r@[k] as int].kind@
                == "recovery_finished"@ || events@[r@[k] as int].kind@ == "auto_repaired"@),
        forall|i: int|
            0 <= i < events@.len() && ((#[trigger] events@[i]).kind@ == "recovery_finished"@
                || events@[i].kind@ == "auto_repaired"@) ==> exists|k: int|
                0 <= k < r@.len() && #[trigger] r@[k] == i,
{
    let n = events@.len() as int;
    repairs_are_repairs(events@, n);
    let all = repairs(events@, n);
    assert forall|k: int| 0 <= k < r@.len() implies (#[trigger] r@[k]) < events@.len() && (
    events@[r@[k] as int].kind@ == "recovery_finished"@ || events@[r@[k] as int].kind@
        == "auto_repaired"@) by {
        assert(r@[k] == all[k]);
    }
    assert forall|i: int|
        0 <= i < n && ((#[trigger] events@[i]).kind@ == "recovery_finished"@ || events@[i].kind@
            == "auto_repaired"@) implies exists|k: int|
        0 <= k < r@.len() && #[trigger] r@[k] == i by {
        let k = choose|k: int| 0 <= k < all.len() && all[k] == i;
        assert(r@[k] == all[k]);
    }
}

/// What is listed repairs, and all that repairs is listed.
proof fn repairs_are_repairs(events: Seq<RunEvent>, n: int)
    requires
        0 <= n <= events.len(),
    ensures
        forall|k: int|
            0 <= k < repairs(events, n).len() ==> 0 <= #[trigger] repairs(events, n)[k] < n && (
            events[repairs(events, n)[k]].kind@ == "recovery_finished"@ || events[repairs(
                events,
                n,
            )[k]].kind@ == "auto_repaired"@),
        forall|i: int|
            0 <= i < n && ((#[trigger] events[i]).kind@ == "recovery_finished"@ || events[i].kind@
                == "auto_repaired"@) ==> repairs(events, n).contains(i),
    decreases n,
{
    if n > 0 {
        repairs_are_repairs(events, n - 1);
        let before = repairs(events, n - 1);
        let after = repairs(events, n);
        assert forall|k: int| 0 <= k < after.len() implies 0 <= #[trigger] after[k] < n && (
        events[after[k]].kind@ == "recovery_finished"@ || events[after[k]].kind@
            == "auto_repaired"@) by {
            if k < before.len() {
                assert(after[k] == before[k]);
            }
        }
        assert forall|i: int|
            0 <= i < n && ((#[trigger] events[i]).kind@ == "recovery_finished"@ || events[i].kind@
                == "auto_repaired"@) implies after.contains(i) by {
            if i < n - 1 {
                let k = choose|k: int| 0 <= k < before.len() && before[k] == i;
                assert(after[k] == i);
            } else {
                assert(after[before.len() as int] == i);
            }
        }
    }
}

/// Only a stuck exit and a waiting prompt have an event of their own as evidence.
pub proof fn evidence_is_the_alerts_own(alert: RecoveryAlert, r: Option<&'static str>)
    requires
        call_ensures(evidence_kind, (alert,), r),
    ensures
        r is Some <==> alert == RecoveryAlert::StuckExit || alert == RecoveryAlert::PromptWaiting,
        alert == RecoveryAlert::StuckExit ==> r->0@ == "exit_request_timed_out"@,
        alert == RecoveryAlert::PromptWaiting ==> r->0@ == "prompt_waiting"@,
{
}

} // verus!
