//! The logs of the verification commands a landing runs.

use crate::path;
use crate::text;
use vstd::prelude::*;
use vstd::relations::*;
use vstd::seq_lib::*;
use vstd::string::*;

verus! {

/// The name of the log of an attempt's command, both counted from 1.
pub open spec fn log_name(attempt: nat, index: nat) -> Seq<char> {
    "integrate-"@ + text::decimal(attempt) + "-verify-"@ + text::decimal(index) + ".log"@
}

/// Where integrate's attempt `attempt` writes the log of its `index`th
/// verification command (both from 1): `integrate-<attempt>-verify-<index>.log`.
pub fn integrate_verify_log(run_dir: &str, attempt: u32, index: usize) -> (r: String)
    ensures
        r@ == path::under(run_dir@, log_name(attempt as nat, index as nat)),
{
    let a = text::number(attempt as u64);
    let i = text::number(index as u64);
    let name = "integrate-".to_owned().concat(a.as_str()).concat("-verify-").concat(
        i.as_str(),
    ).concat(".log");
    path::join_path(run_dir, name.as_str())
}

/// The attempt and command index of a log's file name. The name used before
/// attempts were counted, `integrate-verify-<index>.log`, is attempt 0: it
/// came before any numbered one.
pub open spec fn log_key(name: Seq<char>) -> Option<(nat, nat)> {
    match text::without_prefix(name, "integrate-"@) {
        None => None,
        Some(rest) => match text::without_suffix(rest, ".log"@) {
            None => None,
            Some(stem) => match text::without_prefix(stem, "verify-"@) {
                Some(index) => match text::parsed(index, usize::MAX as nat) {
                    Some(index) => Some((0, index)),
                    None => None,
                },
                None => match text::cut(stem, "-verify-"@) {
                    None => None,
                    Some((attempt, index)) => match (
                        text::parsed(attempt, u32::MAX as nat),
                        text::parsed(index, usize::MAX as nat),
                    ) {
                        (Some(attempt), Some(index)) => Some((attempt, index)),
                        _ => None,
                    },
                },
            },
        },
    }
}

/// The attempt and command index of a log's file name.
pub fn integrate_log_key(name: &str) -> (r: Option<(u32, usize)>)
    ensures
        match r {
            Some((attempt, index)) => log_key(name@) == Some((attempt as nat, index as nat)),
            None => log_key(name@) is None,
        },
{
    let rest = match text::strip_prefix(name, "integrate-") {
        Some(rest) => rest,
        None => return None,
    };
    let stem = match text::strip_suffix(rest.as_str(), ".log") {
        Some(stem) => stem,
        None => return None,
    };
    if let Some(index) = text::strip_prefix(stem.as_str(), "verify-") {
        return match text::parse_unsigned(index.as_str(), usize::MAX as u64) {
            Some(index) => Some((0, index as usize)),
            None => None,
        };
    }
    match text::split_once(stem.as_str(), "-verify-") {
        None => None,
        Some((attempt, index)) => {
            let attempt = match text::parse_unsigned(attempt.as_str(), u32::MAX as u64) {
                Some(attempt) => attempt,
                None => return None,
            };
            match text::parse_unsigned(index.as_str(), usize::MAX as u64) {
                Some(index) => Some((attempt as u32, index as usize)),
                None => None,
            }
        },
    }
}

/// The name and path of each entry that has a name.
pub open spec fn named(entries: Seq<Seq<char>>) -> Seq<(Seq<char>, Seq<char>)>
    decreases entries.len(),
{
    if entries.len() == 0 {
        Seq::empty()
    } else {
        let before = named(entries.drop_last());
        match path::file_name_of(entries.last()) {
            Some(name) => before.push((name, entries.last())),
            None => before,
        }
    }
}

/// The entries of a directory that could be read, none of one that could not.
pub open spec fn listing(entries: Option<Vec<String>>) -> Seq<Seq<char>> {
    match entries {
        Some(list) => text::views(list@),
        None => Seq::empty(),
    }
}

/// The view of a list of names with their paths.
pub open spec fn pairs(list: Seq<(String, String)>) -> Seq<(Seq<char>, Seq<char>)> {
    list.map_values(|p: (String, String)| (p.0@, p.1@))
}

/// The files of a directory with their names; none when it cannot be read.
pub fn log_names(entries: &Option<Vec<String>>) -> (r: Vec<(String, String)>)
    ensures
        pairs(r@) == named(listing(*entries)),
{
    let mut out: Vec<(String, String)> = Vec::new();
    assert(pairs(out@) =~= Seq::empty());
    match entries {
        None => out,
        Some(list) => {
            let mut i: usize = 0;
            let ghost all = text::views(list@);
            while i < list.len()
                invariant
                    i <= list@.len(),
                    all == text::views(list@),
                    pairs(out@) == named(all.take(i as int)),
                decreases list@.len() - i,
            {
                proof {
                    assert(all.take(i + 1).drop_last() =~= all.take(i as int));
                    assert(all.take(i + 1).last() == list@[i as int]@);
                }
                if let Some(name) = path::file_name(list[i].as_str()) {
                    let ghost had = pairs(out@);
                    out.push((name, list[i].clone()));
                    assert(pairs(out@) =~= had.push((name@, list@[i as int]@)));
                }
                i += 1;
            }
            assert(all.take(list@.len() as int) =~= all);
            out
        },
    }
}

/// A verification log: its attempt, its command and its path.
pub type Log = (nat, nat, Seq<char>);

/// The verification logs among named files, in their order.
pub open spec fn logs_of(files: Seq<(Seq<char>, Seq<char>)>) -> Seq<Log>
    decreases files.len(),
{
    if files.len() == 0 {
        Seq::empty()
    } else {
        let before = logs_of(files.drop_last());
        match log_key(files.last().0) {
            Some((attempt, index)) => before.push((attempt, index, files.last().1)),
            None => before,
        }
    }
}

/// The verification logs of a directory.
pub open spec fn logs_in(entries: Option<Vec<String>>) -> Seq<Log> {
    logs_of(named(listing(entries)))
}

/// The highest attempt among `logs`; none of no log.
pub open spec fn latest(logs: Seq<Log>) -> Option<nat>
    decreases logs.len(),
{
    if logs.len() == 0 {
        None
    } else {
        match latest(logs.drop_last()) {
            Some(before) => Some(
                if before > logs.last().0 {
                    before
                } else {
                    logs.last().0
                },
            ),
            None => Some(logs.last().0),
        }
    }
}

/// The latest attempt is one of the logs' and no log has a later one.
pub proof fn latest_is_greatest(logs: Seq<Log>)
    ensures
        latest(logs) is None <==> logs.len() == 0,
        latest(logs) is Some ==> exists|i: int|
            0 <= i < logs.len() && (#[trigger] logs[i]).0 == latest(logs)->0,
        forall|i: int| 0 <= i < logs.len() ==> (#[trigger] logs[i]).0 <= latest(logs)->0,
    decreases logs.len(),
{
    if logs.len() > 0 {
        let front = logs.drop_last();
        latest_is_greatest(front);
        if latest(front) is Some && latest(front)->0 > logs.last().0 {
            let k = choose|k: int| 0 <= k < front.len() && (#[trigger] front[k]).0 == latest(front)->0;
            assert(logs[k] == front[k]);
        } else {
            assert(logs[logs.len() - 1].0 == latest(logs)->0);
        }
        assert forall|i: int| 0 <= i < logs.len() implies (#[trigger] logs[i]).0 <= latest(
            logs,
        )->0 by {
            if i < front.len() {
                assert(logs[i] == front[i]);
            }
        }
    }
}

/// The attempt the next run of the verification commands has.
pub open spec fn next_attempt(logs: Seq<Log>) -> nat {
    match latest(logs) {
        Some(latest) => latest + 1,
        None => 1,
    }
}

/// The attempt integrate's next run of the verification commands writes its
/// logs under: one past the highest attempt in the run directory (1 when
/// none).
pub fn next_integrate_attempt(entries: &Option<Vec<String>>) -> (r: u32)
    requires
        next_attempt(logs_in(*entries)) <= u32::MAX,
    ensures
        r == next_attempt(logs_in(*entries)),
{
    let names = log_names(entries);
    let ghost all = named(listing(*entries));
    let mut highest: Option<u32> = None;
    let mut i: usize = 0;
    assert(logs_of(all.take(0)) =~= Seq::empty());
    while i < names.len()
        invariant
            i <= names@.len(),
            pairs(names@) == all,
            match highest {
                Some(n) => latest(logs_of(all.take(i as int))) == Some(n as nat),
                None => latest(logs_of(all.take(i as int))) is None,
            },
        decreases names@.len() - i,
    {
        proof {
            assert(all.take(i + 1).drop_last() =~= all.take(i as int));
            assert(all.take(i + 1).last() == pairs(names@)[i as int]);
        }
        if let Some((attempt, index)) = integrate_log_key(names[i].0.as_str()) {
            proof {
                let before = logs_of(all.take(i as int));
                let after = logs_of(all.take(i + 1));
                assert(after.drop_last() =~= before);
            }
            highest = match highest {
                Some(before) => if before > attempt {
                    Some(before)
                } else {
                    Some(attempt)
                },
                None => Some(attempt),
            };
        }
        i += 1;
    }
    assert(all.take(all.len() as int) =~= all);
    match highest {
        Some(attempt) => attempt + 1,
        None => 1,
    }
}

/// Whether text `a` comes before `b` or is `b`, character by character.
pub open spec fn text_le(a: Seq<char>, b: Seq<char>) -> bool
    decreases a.len(),
{
    if a.len() == 0 {
        true
    } else if b.len() == 0 {
        false
    } else if a[0] != b[0] {
        a[0] < b[0]
    } else {
        text_le(a.skip(1), b.skip(1))
    }
}

/// The order of the logs: by attempt, then by command, then by path.
pub open spec fn log_le(a: Log, b: Log) -> bool {
    if a.0 != b.0 {
        a.0 < b.0
    } else if a.1 != b.1 {
        a.1 < b.1
    } else {
        text_le(a.2, b.2)
    }
}

/// The order of texts is total.
pub proof fn text_le_total(a: Seq<char>, b: Seq<char>)
    ensures
        text_le(a, b) || text_le(b, a),
        text_le(a, b) && text_le(b, a) ==> a == b,
    decreases a.len(),
{
    if a.len() > 0 && b.len() > 0 && a[0] == b[0] {
        text_le_total(a.skip(1), b.skip(1));
        if text_le(a, b) && text_le(b, a) {
            assert(a =~= seq![a[0]] + a.skip(1));
            assert(b =~= seq![b[0]] + b.skip(1));
        }
    } else if a.len() == 0 && b.len() == 0 {
        assert(a =~= b);
    }
}

/// The order of texts is transitive.
pub proof fn text_le_transitive(a: Seq<char>, b: Seq<char>, c: Seq<char>)
    requires
        text_le(a, b),
        text_le(b, c),
    ensures
        text_le(a, c),
    decreases a.len(),
{
    if a.len() > 0 && b.len() > 0 && c.len() > 0 && a[0] == b[0] && b[0] == c[0] {
        text_le_transitive(a.skip(1), b.skip(1), c.skip(1));
    }
}

/// The order of the logs is total.
pub proof fn log_order_is_total()
    ensures
        total_ordering(|a: Log, b: Log| log_le(a, b)),
{
    let le = |a: Log, b: Log| log_le(a, b);
    assert forall|a: Log| #[trigger] le(a, a) by {
        text_le_total(a.2, a.2);
    }
    assert forall|a: Log, b: Log| #[trigger] le(a, b) && #[trigger] le(b, a) implies a == b by {
        text_le_total(a.2, b.2);
    }
    assert forall|a: Log, b: Log| #[trigger] le(a, b) || #[trigger] le(b, a) by {
        text_le_total(a.2, b.2);
    }
    assert forall|a: Log, b: Log, c: Log| #[trigger] le(a, b) && #[trigger] le(b, c) implies le(
        a,
        c,
    ) by {
        if a.0 == b.0 && b.0 == c.0 && a.1 == b.1 && b.1 == c.1 {
            text_le_transitive(a.2, b.2, c.2);
        }
    }
}

/// The logs in their order.
pub open spec fn in_order(logs: Seq<Log>) -> Seq<Log> {
    logs.sort_by(|a: Log, b: Log| log_le(a, b))
}

/// The paths of the logs of attempt `attempt`, or of the others.
pub open spec fn paths_of(logs: Seq<Log>, attempt: nat, of_it: bool) -> Seq<Seq<char>>
    decreases logs.len(),
{
    if logs.len() == 0 {
        Seq::empty()
    } else {
        let before = paths_of(logs.drop_last(), attempt, of_it);
        if (logs.last().0 == attempt) == of_it {
            before.push(logs.last().2)
        } else {
            before
        }
    }
}

/// A log that was found.
pub struct Found {
    pub attempt: u32,
    pub index: usize,
    pub path: String,
}

impl Found {
    pub open spec fn view(&self) -> Log {
        (self.attempt as nat, self.index as nat, self.path@)
    }
}

/// The views of the logs that were found.
pub open spec fn found_views(logs: Seq<Found>) -> Seq<Log> {
    logs.map_values(|f: Found| f@)
}

/// Whether text `a` comes before `b` or is `b`.
fn text_before(a: &Vec<char>, b: &Vec<char>) -> (r: bool)
    ensures
        r == text_le(a@, b@),
{
    let mut i: usize = 0;
    assert(a@.skip(0) =~= a@);
    assert(b@.skip(0) =~= b@);
    loop
        invariant
            i <= a@.len(),
            i <= b@.len(),
            text_le(a@, b@) == text_le(a@.skip(i as int), b@.skip(i as int)),
        decreases a@.len() - i,
    {
        if i == a.len() {
            return true;
        }
        if i == b.len() {
            return false;
        }
        assert(a@.skip(i as int)[0] == a@[i as int]);
        assert(b@.skip(i as int)[0] == b@[i as int]);
        assert(a@.skip(i as int).skip(1) =~= a@.skip(i + 1));
        assert(b@.skip(i as int).skip(1) =~= b@.skip(i + 1));
        if a[i] != b[i] {
            return a[i] < b[i];
        }
        i += 1;
    }
}

/// Whether log `a` comes before `b` or equals it.
fn log_before(a: &Found, b: &Found) -> (r: bool)
    ensures
        r == log_le(a@, b@),
{
    if a.attempt != b.attempt {
        a.attempt < b.attempt
    } else if a.index != b.index {
        a.index < b.index
    } else {
        let x = text::chars_of(a.path.as_str());
        let y = text::chars_of(b.path.as_str());
        text_before(&x, &y)
    }
}

/// The verification logs of a directory, in the order they were listed.
fn find_logs(entries: &Option<Vec<String>>) -> (r: Vec<Found>)
    ensures
        found_views(r@) == logs_in(*entries),
{
    let names = log_names(entries);
    let ghost all = named(listing(*entries));
    let mut out: Vec<Found> = Vec::new();
    let mut i: usize = 0;
    assert(found_views(out@) =~= logs_of(all.take(0)));
    while i < names.len()
        invariant
            i <= names@.len(),
            pairs(names@) == all,
            found_views(out@) == logs_of(all.take(i as int)),
        decreases names@.len() - i,
    {
        proof {
            assert(all.take(i + 1).drop_last() =~= all.take(i as int));
            assert(all.take(i + 1).last() == pairs(names@)[i as int]);
        }
        if let Some((attempt, index)) = integrate_log_key(names[i].0.as_str()) {
            let ghost had = found_views(out@);
            let found = Found { attempt, index, path: names[i].1.clone() };
            let ghost seen = found@;
            out.push(found);
            assert(found_views(out@) =~= had.push(seen));
        }
        i += 1;
    }
    assert(all.take(all.len() as int) =~= all);
    out
}

/// Put `log` where it belongs among sorted logs.
fn insert_log(sorted: &mut Vec<Found>, log: Found)
    requires
        sorted_by(found_views(old(sorted)@), |a: Log, b: Log| log_le(a, b)),
    ensures
        sorted_by(found_views(final(sorted)@), |a: Log, b: Log| log_le(a, b)),
        found_views(final(sorted)@).to_multiset() == found_views(old(sorted)@).push(
            log@,
        ).to_multiset(),
{
    let ghost le = |a: Log, b: Log| log_le(a, b);
    let ghost before = found_views(sorted@);
    let ghost new = log@;
    proof {
        log_order_is_total();
    }
    let mut at: usize = sorted.len();
    while at > 0 && !log_before(&sorted[at - 1], &log)
        invariant
            at <= sorted@.len(),
            before == found_views(sorted@),
            new == log@,
            total_ordering(le),
            le == (|a: Log, b: Log| log_le(a, b)),
            sorted_by(before, le),
            forall|j: int| at <= j < before.len() ==> #[trigger] le(new, before[j]),
        decreases at,
    {
        assert(before[at - 1] == sorted@[at - 1]@);
        assert(!le(before[at - 1], new));
        assert(le(new, before[at - 1]) || le(before[at - 1], new));
        at -= 1;
    }
    sorted.insert(at, log);
    proof {
        let after = found_views(sorted@);
        assert(after =~= before.insert(at as int, new));
        assert forall|j: int| 0 <= j < at implies #[trigger] le(before[j], new) by {
            assert(le(before[at - 1], new));
            if j < at - 1 {
                assert(le(before[j], before[at - 1]));
            }
        }
        assert forall|i: int, j: int| 0 <= i < j < after.len() implies #[trigger] le(
            after[i],
            after[j],
        ) by {
            if i < at && j < at {
                assert(le(before[i], before[j]));
            } else if i < at && j == at {
                assert(le(before[i], new));
            } else if i < at {
                assert(le(before[i], before[j - 1]));
            } else if i == at {
                assert(le(new, before[j - 1]));
            } else {
                assert(le(before[i - 1], before[j - 1]));
            }
        }
        broadcast use group_to_multiset_ensures;

        assert(before.insert(at as int, new).to_multiset() =~= before.push(new).to_multiset());
    }
}

/// Integrate's verification logs in a run directory: those of the latest
/// attempt in command order, and those of the earlier attempts, oldest first.
pub fn integrate_logs(entries: &Option<Vec<String>>) -> (r: (Vec<String>, Vec<String>))
    ensures
        latest(logs_in(*entries)) is None ==> r.0@.len() == 0 && r.1@.len() == 0,
        latest(logs_in(*entries)) matches Some(attempt) ==> {
            &&& text::views(r.0@) == paths_of(in_order(logs_in(*entries)), attempt, true)
            &&& text::views(r.1@) == paths_of(in_order(logs_in(*entries)), attempt, false)
        },
{
    let mut found = find_logs(entries);
    let ghost all = logs_in(*entries);
    let ghost le = |a: Log, b: Log| log_le(a, b);
    let mut sorted: Vec<Found> = Vec::new();
    let ghost mut taken: Seq<Log> = Seq::empty();
    proof {
        broadcast use group_to_multiset_ensures;

        assert(found_views(sorted@) =~= Seq::empty());
        assert(found_views(found@) + taken =~= all);
    }
    while found.len() > 0
        invariant
            all == logs_in(*entries),
            le == (|a: Log, b: Log| log_le(a, b)),
            found_views(found@) + taken == all,
            sorted_by(found_views(sorted@), le),
            found_views(sorted@).to_multiset() == taken.to_multiset(),
        decreases found@.len(),
    {
        let ghost had = found_views(found@);
        match found.pop() {
            Some(log) => {
                let ghost new = log@;
                proof {
                    assert(had =~= found_views(found@).push(new));
                    assert(found_views(found@) + (seq![new] + taken) =~= had + taken);
                }
                insert_log(&mut sorted, log);
                proof {
                    broadcast use group_to_multiset_ensures;

                    let ghost before = taken;
                    lemma_multiset_commutative(seq![new], before);
                    assert((before + seq![new]) =~= before.push(new));
                    assert(found_views(sorted@).to_multiset() =~= (seq![new]
                        + before).to_multiset());
                    taken = seq![new] + before;
                }
            },
            None => {},
        }
    }
    proof {
        assert(found_views(found@) + taken =~= taken);
        log_order_is_total();
        all.lemma_sort_by_ensures(le);
        lemma_sorted_unique(found_views(sorted@), in_order(all), le);
        latest_is_greatest(all);
        if all.len() > 0 {
            sorted_latest(all);
        }
        assert(in_order(all).len() == all.len()) by {
            broadcast use group_to_multiset_ensures;

            assert(in_order(all).to_multiset().len() == all.to_multiset().len());
        }
    }
    let mut current: Vec<String> = Vec::new();
    let mut earlier: Vec<String> = Vec::new();
    if sorted.len() == 0 {
        return (current, earlier);
    }
    let attempt = sorted[sorted.len() - 1].attempt;
    let ghost ordered = in_order(all);
    assert(ordered.last() == sorted@.last()@);
    let mut i: usize = 0;
    assert(text::views(current@) =~= paths_of(ordered.take(0), attempt as nat, true));
    assert(text::views(earlier@) =~= paths_of(ordered.take(0), attempt as nat, false));
    while i < sorted.len()
        invariant
            i <= sorted@.len(),
            found_views(sorted@) == ordered,
            text::views(current@) == paths_of(ordered.take(i as int), attempt as nat, true),
            text::views(earlier@) == paths_of(ordered.take(i as int), attempt as nat, false),
        decreases sorted@.len() - i,
    {
        proof {
            assert(ordered.take(i + 1).drop_last() =~= ordered.take(i as int));
            assert(ordered.take(i + 1).last() == found_views(sorted@)[i as int]);
        }
        let ghost had = (text::views(current@), text::views(earlier@));
        if sorted[i].attempt == attempt {
            current.push(sorted[i].path.clone());
            assert(text::views(current@) =~= had.0.push(sorted@[i as int].path@));
        } else {
            earlier.push(sorted[i].path.clone());
            assert(text::views(earlier@) =~= had.1.push(sorted@[i as int].path@));
        }
        i += 1;
    }
    assert(ordered.take(ordered.len() as int) =~= ordered);
    (current, earlier)
}

/// The last of the ordered logs is one of the latest attempt.
proof fn sorted_latest(logs: Seq<Log>)
    requires
        logs.len() > 0,
    ensures
        in_order(logs).len() == logs.len(),
        latest(logs) == Some(in_order(logs).last().0),
{
    broadcast use group_to_multiset_ensures;

    let le = |a: Log, b: Log| log_le(a, b);
    log_order_is_total();
    logs.lemma_sort_by_ensures(le);
    let ordered = in_order(logs);
    assert(ordered.to_multiset().len() == logs.to_multiset().len());
    latest_is_greatest(logs);
    let k = choose|k: int| 0 <= k < logs.len() && (#[trigger] logs[k]).0 == latest(logs)->0;
    assert(logs.to_multiset().contains(logs[k]));
    assert(ordered.to_multiset().contains(logs[k]));
    assert(ordered.contains(logs[k]));
    let at = choose|at: int| 0 <= at < ordered.len() && ordered[at] == logs[k];
    if at < ordered.len() - 1 {
        assert(le(ordered[at], ordered[ordered.len() - 1]));
    }
    assert(ordered.to_multiset().contains(ordered.last()));
    assert(logs.to_multiset().contains(ordered.last()));
    assert(logs.contains(ordered.last()));
}

/// Integrate reads back the attempt and the command of the logs it writes.
pub proof fn written_log_is_read_back(attempt: nat, index: nat)
    requires
        attempt <= u32::MAX,
        index <= usize::MAX,
    ensures
        log_key(log_name(attempt, index)) == Some((attempt, index)),
{
    let a = text::decimal(attempt);
    let i = text::decimal(index);
    text::decimal_spells(attempt);
    text::decimal_spells(index);
    text::decimal_is_parsed(attempt, u32::MAX as nat);
    text::decimal_is_parsed(index, usize::MAX as nat);
    reveal_strlit("integrate-");
    reveal_strlit("-verify-");
    reveal_strlit("verify-");
    reveal_strlit(".log");
    let name = log_name(attempt, index);
    let stem = a + "-verify-"@ + i;
    assert(name.take("integrate-"@.len() as int) =~= "integrate-"@);
    let rest = name.skip("integrate-"@.len() as int);
    assert(rest =~= stem + ".log"@);
    assert(rest.skip(rest.len() - 4) =~= ".log"@);
    assert(rest.take(rest.len() - 4) =~= stem);
    assert(stem[0] == a[0] && text::is_digit(a[0]));
    assert(stem.len() >= 7 ==> stem.take(7)[0] != "verify-"@[0]);
    assert(!text::has_prefix(stem, "verify-"@));
    first_dash(a, i, 0);
    assert(stem.take(a.len() as int) =~= a);
    assert(stem.skip(a.len() as int + 8) =~= i);
}

/// The first separator of a log's stem comes right after its attempt.
proof fn first_dash(a: Seq<char>, i: Seq<char>, from: int)
    requires
        0 <= from <= a.len(),
        forall|j: int| 0 <= j < a.len() ==> text::is_digit(#[trigger] a[j]),
    ensures
        text::found_from(a + "-verify-"@ + i, "-verify-"@, from) == Some(a.len() as int),
    decreases a.len() - from,
{
    reveal_strlit("-verify-");
    let stem = a + "-verify-"@ + i;
    if from == a.len() {
        assert(stem.skip(from).take(8) =~= "-verify-"@);
    } else {
        assert(stem.skip(from)[0] == a[from]);
        assert(stem.skip(from).len() >= 8 ==> stem.skip(from).take(8)[0] == a[from]);
        assert(!text::has_prefix(stem.skip(from), "-verify-"@));
        first_dash(a, i, from + 1);
    }
}

/// A new attempt overwrites no log: none that the directory lists is of it.
pub proof fn next_attempt_is_new(logs: Seq<Log>)
    ensures
        forall|i: int| 0 <= i < logs.len() ==> (#[trigger] logs[i]).0 < next_attempt(logs),
{
    latest_is_greatest(logs);
}

/// The paths of the logs.
pub open spec fn all_paths(logs: Seq<Log>) -> Seq<Seq<char>> {
    logs.map_values(|log: Log| log.2)
}

/// What integrate shows of a directory's logs is all of them, each once and in
/// the list of its attempt: the two lists together are a permutation of the
/// paths found, and each has the paths of its own logs.
pub proof fn no_log_is_lost(logs: Seq<Log>, attempt: nat)
    ensures
        (paths_of(in_order(logs), attempt, true) + paths_of(
            in_order(logs),
            attempt,
            false,
        )).to_multiset() == all_paths(logs).to_multiset(),
        forall|of_it: bool| #[trigger]
            paths_of(in_order(logs), attempt, of_it).to_multiset() == paths_of(
                logs,
                attempt,
                of_it,
            ).to_multiset(),
        forall|i: int|
            0 <= i < logs.len() ==> paths_of(
                in_order(logs),
                attempt,
                (#[trigger] logs[i]).0 == attempt,
            ).contains(logs[i].2),
{
    broadcast use group_to_multiset_ensures;

    let ordered = in_order(logs);
    log_order_is_total();
    logs.lemma_sort_by_ensures(|a: Log, b: Log| log_le(a, b));
    same_logs_have_the_same_paths(ordered, logs, attempt, true);
    same_logs_have_the_same_paths(ordered, logs, attempt, false);
    let of_it = paths_of(ordered, attempt, true);
    let others = paths_of(ordered, attempt, false);
    lemma_multiset_commutative(of_it, others);
    split_paths(logs, attempt);
    assert forall|i: int| 0 <= i < logs.len() implies paths_of(
        ordered,
        attempt,
        (#[trigger] logs[i]).0 == attempt,
    ).contains(logs[i].2) by {
        without_a_log(logs, attempt, logs[i].0 == attempt, i);
        assert(paths_of(logs, attempt, logs[i].0 == attempt).to_multiset().count(logs[i].2) > 0);
    }
}

/// The paths of an attempt are the paths without one of the logs, and that one's
/// where it belongs to them.
proof fn without_a_log(logs: Seq<Log>, attempt: nat, of_it: bool, i: int)
    requires
        0 <= i < logs.len(),
    ensures
        paths_of(logs, attempt, of_it).to_multiset() == (if (logs[i].0 == attempt) == of_it {
            paths_of(logs.remove(i), attempt, of_it).to_multiset().insert(logs[i].2)
        } else {
            paths_of(logs.remove(i), attempt, of_it).to_multiset()
        }),
    decreases logs.len(),
{
    broadcast use group_to_multiset_ensures;

    if i == logs.len() - 1 {
        assert(logs.remove(i) =~= logs.drop_last());
    } else {
        without_a_log(logs.drop_last(), attempt, of_it, i);
        let rest = logs.remove(i);
        assert(rest.drop_last() =~= logs.drop_last().remove(i));
        assert(rest.last() == logs.last());
        let before = paths_of(logs.drop_last(), attempt, of_it);
        let left = paths_of(rest.drop_last(), attempt, of_it);
        assert(paths_of(logs, attempt, of_it).to_multiset() =~= (if (logs[i].0 == attempt)
            == of_it {
            paths_of(rest, attempt, of_it).to_multiset().insert(logs[i].2)
        } else {
            paths_of(rest, attempt, of_it).to_multiset()
        }));
    }
}

/// The order of the logs does not matter for which paths are an attempt's.
proof fn same_logs_have_the_same_paths(a: Seq<Log>, b: Seq<Log>, attempt: nat, of_it: bool)
    requires
        a.to_multiset() == b.to_multiset(),
    ensures
        paths_of(a, attempt, of_it).to_multiset() == paths_of(b, attempt, of_it).to_multiset(),
    decreases a.len(),
{
    broadcast use group_to_multiset_ensures;

    a.to_multiset_ensures();
    b.to_multiset_ensures();
    assert(a.len() == b.len());
    if a.len() > 0 {
        let last = a.last();
        assert(a[a.len() - 1] == last);
        assert(a.to_multiset().count(last) > 0) by {
            assert(a.contains(last));
        }
        assert(b.contains(last));
        let i = choose|i: int| 0 <= i < b.len() && b[i] == last;
        assert(a.remove(a.len() - 1) =~= a.drop_last());
        assert(b.remove(i).to_multiset() =~= b.to_multiset().remove(last));
        assert(a.drop_last().to_multiset() =~= a.to_multiset().remove(last));
        same_logs_have_the_same_paths(a.drop_last(), b.remove(i), attempt, of_it);
        without_a_log(a, attempt, of_it, a.len() - 1);
        without_a_log(b, attempt, of_it, i);
    }
}

/// Each path is in one of the two lists.
proof fn split_paths(logs: Seq<Log>, attempt: nat)
    ensures
        all_paths(logs).to_multiset() == paths_of(logs, attempt, true).to_multiset().add(
            paths_of(logs, attempt, false).to_multiset(),
        ),
    decreases logs.len(),
{
    broadcast use group_to_multiset_ensures;

    let of_it = paths_of(logs, attempt, true);
    let others = paths_of(logs, attempt, false);
    if logs.len() == 0 {
        assert(all_paths(logs) =~= Seq::empty());
        assert(all_paths(logs).to_multiset() =~= of_it.to_multiset().add(others.to_multiset()));
    } else {
        split_paths(logs.drop_last(), attempt);
        assert(all_paths(logs) =~= all_paths(logs.drop_last()).push(logs.last().2));
        assert(all_paths(logs).to_multiset() =~= of_it.to_multiset().add(others.to_multiset()));
    }
}

/// The next attempt is one past the latest log's, and the first where there
/// are no logs.
pub proof fn attempts_count_up(logs: Seq<Log>)
    ensures
        logs.len() == 0 ==> next_attempt(logs) == 1,
        logs.len() > 0 ==> exists|i: int|
            0 <= i < logs.len() && (#[trigger] logs[i]).0 + 1 == next_attempt(logs),
        forall|i: int| 0 <= i < logs.len() ==> (#[trigger] logs[i]).0 + 1 <= next_attempt(logs),
{
    latest_is_greatest(logs);
    if logs.len() > 0 {
        let i = choose|i: int| 0 <= i < logs.len() && (#[trigger] logs[i]).0 == latest(logs)->0;
        assert(logs[i].0 + 1 == next_attempt(logs));
    }
}

/// A log counts exactly where its name is that of one, under the attempt and
/// the place its name has.
pub proof fn a_log_is_found_by_its_name(
    files: Seq<(Seq<char>, Seq<char>)>,
    attempt: nat,
    index: nat,
    path: Seq<char>,
)
    requires
        attempt <= u32::MAX,
        index <= usize::MAX,
    ensures
        logs_of(files.push((log_name(attempt, index), path))) == logs_of(files).push(
            (attempt, index, path),
        ),
{
    written_log_is_read_back(attempt, index);
    assert(files.push((log_name(attempt, index), path)).drop_last() =~= files);
}

/// The names read of a directory are the last names of its entries, each with
/// its path; one that could not be read has none.
pub proof fn each_entry_is_named_by_its_file(
    entries: &Option<Vec<String>>,
    r: Vec<(String, String)>,
)
    requires
        call_ensures(log_names, (entries,), r),
    ensures
        *entries is None ==> r@.len() == 0,
        forall|k: int|
            0 <= k < r@.len() ==> path::file_name_of((#[trigger] r@[k]).1@) == Some(r@[k].0@)
                && *entries is Some && text::views(entries->0@).contains(r@[k].1@),
        *entries is Some ==> forall|i: int|
            0 <= i < entries->0@.len() && path::file_name_of((#[trigger] entries->0@[i])@) is Some
                ==> exists|k: int| 0 <= k < r@.len() && (#[trigger] r@[k]).1@ == entries->0@[i]@,
{
    let all = listing(*entries);
    named_are_entries(all);
    let names = named(all);
    assert(pairs(r@) == names);
    assert(pairs(r@).len() == r@.len());
    assert forall|k: int| 0 <= k < r@.len() implies path::file_name_of((#[trigger] r@[k]).1@)
        == Some(r@[k].0@) && *entries is Some && text::views(entries->0@).contains(r@[k].1@) by {
        assert(names[k] == (r@[k].0@, r@[k].1@));
    }
    if *entries is Some {
        assert forall|i: int|
            0 <= i < entries->0@.len() && path::file_name_of((#[trigger] entries->0@[i])@)
                is Some implies exists|k: int|
            0 <= k < r@.len() && (#[trigger] r@[k]).1@ == entries->0@[i]@ by {
            assert(all[i] == entries->0@[i]@);
            let k = choose|k: int| 0 <= k < names.len() && (#[trigger] names[k]).1 == all[i];
            assert(names[k] == (r@[k].0@, r@[k].1@));
        }
    }
}

/// What is named is an entry, and every entry with a last name is named.
proof fn named_are_entries(all: Seq<Seq<char>>)
    ensures
        forall|k: int|
            0 <= k < named(all).len() ==> path::file_name_of((#[trigger] named(all)[k]).1) == Some(
                named(all)[k].0,
            ) && all.contains(named(all)[k].1),
        forall|i: int|
            0 <= i < all.len() && path::file_name_of(#[trigger] all[i]) is Some ==> exists|k: int|
                0 <= k < named(all).len() && (#[trigger] named(all)[k]).1 == all[i],
    decreases all.len(),
{
    if all.len() > 0 {
        let front = all.drop_last();
        named_are_entries(front);
        let before = named(front);
        let after = named(all);
        assert forall|k: int| 0 <= k < after.len() implies path::file_name_of(
            (#[trigger] after[k]).1,
        ) == Some(after[k].0) && all.contains(after[k].1) by {
            if k < before.len() {
                assert(after[k] == before[k]);
                let j = choose|j: int| 0 <= j < front.len() && front[j] == before[k].1;
                assert(all[j] == before[k].1);
            } else {
                assert(all[all.len() - 1] == after[k].1);
            }
        }
        assert forall|i: int|
            0 <= i < all.len() && path::file_name_of(#[trigger] all[i]) is Some implies exists|
            k: int,
        | 0 <= k < after.len() && (#[trigger] after[k]).1 == all[i] by {
            if i < front.len() {
                assert(front[i] == all[i]);
                let k = choose|k: int| 0 <= k < before.len() && (#[trigger] before[k]).1 == all[i];
                assert(after[k] == before[k]);
            } else {
                assert(after[before.len() as int].1 == all[i]);
            }
        }
    }
}

/// A directory that could not be read, or holds no log, has no logs to show and
/// the first attempt before it.
pub proof fn an_unread_directory_has_no_logs(
    entries: &Option<Vec<String>>,
    r: (Vec<String>, Vec<String>),
    next: u32,
)
    requires
        *entries is None,
        call_ensures(integrate_logs, (entries,), r),
        call_ensures(next_integrate_attempt, (entries,), next),
    ensures
        r.0@.len() == 0 && r.1@.len() == 0,
        next == 1,
{
    assert(logs_in(*entries).len() == 0);
    attempts_count_up(logs_in(*entries));
    latest_is_greatest(logs_in(*entries));
}

} // verus!
