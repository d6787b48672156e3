//! Times and durations.
//!
//! A reading of the process's monotonic clock is a `u128` of nanoseconds, and
//! so is a duration. A reading of the wall clock that stamps files is an
//! `i128` of nanoseconds since the epoch.

use vstd::prelude::*;

verus! {

/// The nanoseconds of a second.
pub const SECOND: u128 = 1_000_000_000;

/// How long ago `then` was at `now`; nothing where it is not past.
pub open spec fn passed(then: u128, now: u128) -> int {
    if now >= then {
        now - then
    } else {
        0
    }
}

/// How long ago a time was.
pub fn since(then: u128, now: u128) -> (r: u128)
    ensures
        r == passed(then, now),
{
    if now >= then {
        now - then
    } else {
        0
    }
}

/// The whole seconds of a duration.
pub open spec fn whole_secs(d: u128) -> int {
    d as int / 1_000_000_000
}

/// The whole seconds of a duration.
pub fn secs(d: u128) -> (r: u128)
    ensures
        r == whole_secs(d),
{
    d / SECOND
}

/// The whole seconds since the epoch of a wall-clock time; none before it.
pub open spec fn unix(at: i128) -> int {
    if at < 0 {
        0
    } else {
        at as int / 1_000_000_000
    }
}

/// The whole seconds since the epoch of a wall-clock time; none before it.
pub fn unix_seconds(at: i128) -> (r: i128)
    ensures
        r == unix(at),
{
    if at < 0 {
        0
    } else {
        at / 1_000_000_000
    }
}

/// The wall-clock time of whole seconds since the epoch; the epoch where they
/// are negative.
pub open spec fn at_second(secs: i64) -> int {
    if secs < 0 {
        0
    } else {
        secs * 1_000_000_000
    }
}

/// The wall-clock time of whole seconds since the epoch.
pub fn second(secs: i64) -> (r: i128)
    ensures
        r == at_second(secs),
{
    if secs < 0 {
        0
    } else {
        secs as i128 * 1_000_000_000
    }
}

/// How long a session is waited for at each point.
#[derive(Debug, Clone, Copy, PartialEq, Eq, Structural)]
pub struct Timeouts {
    /// For its wrapper and its input box.
    pub registration: u128,
    /// After `/exit`.
    pub exit: u128,
    /// For a turn it was asked for.
    pub resume: u128,
    /// For how long its input box shows ready before anything is typed.
    pub prompt_delay: u128,
}

/// A time that is past lies by its distance before now, and a time to come
/// lies by nothing; waiting on only adds.
pub proof fn time_passes(then: u128, now: u128, later: u128)
    requires
        now <= later,
    ensures
        then <= now ==> then + passed(then, now) == now,
        then > now ==> passed(then, now) == 0,
        passed(then, now) <= passed(then, later),
{
}

/// The whole seconds of a duration are the most that it holds.
pub proof fn whole_seconds_are_held(d: u128)
    ensures
        whole_secs(d) * 1_000_000_000 <= d,
        d < (whole_secs(d) + 1) * 1_000_000_000,
{
}

/// The wall-clock time of a second is read back as that second.
pub proof fn seconds_read_back(secs: i64)
    ensures
        secs >= 0 ==> unix(at_second(secs) as i128) == secs,
        secs < 0 ==> at_second(secs) == 0,
{
    assert(at_second(secs) as i128 == at_second(secs));
}

} // verus!
