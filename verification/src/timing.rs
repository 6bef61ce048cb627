//! Elapsed-time accounting for the active track.
//!
//! Instants are readings of a monotonic clock in milliseconds. A stopwatch
//! remembers when the track began; a pause is folded in on resume by moving
//! that instant forward by the length of the pause, so that time spent paused
//! never counts as time played.

use vstd::prelude::*;

verus! {

/// Clock readings per second.
pub const MILLIS_PER_SECOND: u64 = 1000;

/// How long the worker waits for a command before it wakes up on its own,
/// in milliseconds. The worker learns that a track has ended only when it
/// wakes up, so this is the longest that a command or the end of a track
/// waits to be noticed. A shorter wait makes the player quicker to respond
/// and the gap between two tracks shorter; a longer one lets an idle player
/// burn less processor time.
pub const TICK_MILLIS: u64 = 10;

/// The time from `earlier` to `later`, zero where `later` is not after it.
pub open spec fn span(earlier: u64, later: u64) -> u64 {
    if later >= earlier {
        (later - earlier) as u64
    } else {
        0
    }
}

/// `instant` moved forward by `by`, stopping at the end of the clock's range.
pub open spec fn shifted(instant: u64, by: u64) -> u64 {
    if instant + by <= u64::MAX {
        (instant + by) as u64
    } else {
        u64::MAX
    }
}

/// Whole seconds played at `now` by a track that began at `started`.
pub open spec fn seconds_played(started: u64, now: u64) -> u64 {
    span(started, now) / MILLIS_PER_SECOND
}

/// The start instant after a pause from `paused_at` to `now`: the old one
/// moved forward by the length of the pause.
pub open spec fn start_after_pause(started: u64, paused_at: u64, now: u64) -> u64 {
    shifted(started, span(paused_at, now))
}

/// Computes [`span`].
pub fn span_between(earlier: u64, later: u64) -> (d: u64)
    ensures
        d == span(earlier, later),
{
    if later >= earlier {
        later - earlier
    } else {
        0
    }
}

/// Computes [`seconds_played`].
pub fn position_at(started: u64, now: u64) -> (secs: u64)
    ensures
        secs == seconds_played(started, now),
{
    span_between(started, now) / MILLIS_PER_SECOND
}

/// Computes [`start_after_pause`].
pub fn resume_start(started: u64, paused_at: u64, now: u64) -> (moved: u64)
    ensures
        moved == start_after_pause(started, paused_at, now),
{
    let pause: u64 = span_between(paused_at, now);
    if started <= u64::MAX - pause {
        started + pause
    } else {
        u64::MAX
    }
}

/// A pause does not move the position: read at the instant of resuming, with
/// the start moved forward by the pause, the position is what it was at the
/// instant of pausing.
pub proof fn lemma_moved_start_keeps_position(started: u64, paused_at: u64, now: u64)
    requires
        paused_at <= now,
    ensures
        seconds_played(start_after_pause(started, paused_at, now), now) == seconds_played(
            started,
            paused_at,
        ),
{
}

/// After a pause the position advances at the clock's pace again: `later`
/// milliseconds after resuming, the track has played what it had played when
/// it was paused and `later` milliseconds more.
pub proof fn lemma_moved_start_runs_with_the_clock(
    started: u64,
    paused_at: u64,
    now: u64,
    later: u64,
)
    requires
        started <= paused_at <= now,
        now + later <= u64::MAX,
    ensures
        span(start_after_pause(started, paused_at, now), (now + later) as u64) == span(
            started,
            paused_at,
        ) + later,
{
}

/// The position never runs ahead of the clock.
pub proof fn lemma_seconds_played_is_bounded(started: u64, now: u64)
    ensures
        seconds_played(started, now) * MILLIS_PER_SECOND <= span(started, now),
        started <= now ==> span(started, now) <= now,
{
}

} // verus!
