//! The event loop's timers: a status message disappears three seconds
//! after it first shows, and the update banner a minute after it first
//! shows. Times are milliseconds on a clock that the event loop reads.
use vstd::prelude::*;

verus! {

/// How long a status message stays, in milliseconds.
pub const STATUS_MILLIS: u64 = 3000;

/// How long the update banner stays, in milliseconds.
pub const BANNER_MILLIS: u64 = 60000;

/// When the status message and the update banner were first seen.
#[derive(Debug, Clone, Copy, PartialEq, Eq, Structural)]
pub struct UiTimers {
    pub status_since: Option<u64>,
    pub banner_since: Option<u64>,
}

/// The time from `since` to `now` (none when the clock reads earlier).
pub open spec fn elapsed(since: u64, now: u64) -> int {
    if now >= since { now - since } else { 0 }
}

/// Whether a timer started at `since` has run for `limit` at `now`.
pub open spec fn expired(since: Option<u64>, now: u64, limit: u64) -> bool {
    since matches Some(s) && elapsed(s, now) >= limit
}

/// No timer is running.
pub fn no_timers() -> (r: UiTimers)
    ensures
        r == (UiTimers { status_since: None, banner_since: None }),
{
    UiTimers { status_since: None, banner_since: None }
}

/// The status-message step of the loop at time `now`, with `present`
/// telling whether a message is shown. Returns the new timers and whether
/// the message is to be cleared: it is once it has been shown for three
/// seconds. A message still shown starts its timer if none runs; with no
/// message the timer stops.
pub fn status_tick(t: UiTimers, now: u64, present: bool) -> (r: (UiTimers, bool))
    ensures
        r.1 == expired(t.status_since, now, STATUS_MILLIS),
        r.0.banner_since == t.banner_since,
        r.0.status_since == (if present && !r.1 {
            match t.status_since {
                Some(s) => Some(s),
                None => Some(now),
            }
        } else {
            None
        }),
{
    let clear = match t.status_since {
        Some(s) => (if now >= s { now - s } else { 0 }) >= STATUS_MILLIS,
        None => false,
    };
    let since = if present && !clear {
        match t.status_since {
            Some(s) => Some(s),
            None => Some(now),
        }
    } else {
        None
    };
    (UiTimers { status_since: since, banner_since: t.banner_since }, clear)
}

/// The update-banner step of the loop at time `now`, with `visible`
/// telling whether the banner is shown. Returns the new timers and whether
/// the banner is to be dismissed: it is once it has been shown for a
/// minute. A visible banner starts its timer if none runs.
pub fn banner_tick(t: UiTimers, now: u64, visible: bool) -> (r: (UiTimers, bool))
    ensures
        ({
            let started = if visible && t.banner_since is None { Some(now) } else { t.banner_since };
            &&& r.1 == expired(started, now, BANNER_MILLIS)
            &&& r.0.banner_since == (if r.1 { None } else { started })
            &&& r.0.status_since == t.status_since
        }),
{
    let started = if visible && t.banner_since.is_none() { Some(now) } else { t.banner_since };
    let dismiss = match started {
        Some(s) => (if now >= s { now - s } else { 0 }) >= BANNER_MILLIS,
        None => false,
    };
    let since = if dismiss { None } else { started };
    (UiTimers { status_since: t.status_since, banner_since: since }, dismiss)
}

} // verus!
