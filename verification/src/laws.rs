//! What holds of the engine in every state.
//!
//! Each law is stated over the mathematical values of the player and its
//! session, and over the same transition functions that the contracts of the
//! executable functions name.

use crate::action::{CommandView, WakeupView};
use crate::metadata::TagReadView;
use crate::player::PlayerView;
use crate::session::{DeviceAction, NextView, Phase, SessionView, StartOutcome};
use crate::timing::{seconds_played, span, MILLIS_PER_SECOND};
use crate::track::{MusicView, PropertiesView};
use crate::volume::{clamped, in_unit_range};
use vstd::prelude::*;

verus! {

/// One thing that happens to a player.
pub enum Op {
    /// A caller asks for the track under `path`; `found` says whether
    /// something is to be found there.
    Enqueue { path: Seq<char>, found: bool },
    /// A caller sends `command`.
    Send { command: CommandView },
    /// The worker wakes up, looks into the channel and lets the session
    /// react.
    Tick { read: Option<TagReadView>, now: u64, drained: bool },
    /// The worker reports on an attempt to start the head of the queue.
    Settle { outcome: StartOutcome, now: u64 },
    /// The worker reports that the device has twice failed to obey.
    DeviceFailed,
}

/// A track that has left the queue, and whether it did so to play.
pub struct Departure {
    pub path: Seq<char>,
    pub started: bool,
}

/// The player after `op`.
pub open spec fn performed(player: PlayerView, op: Op) -> PlayerView {
    match op {
        Op::Enqueue { path, found } => player.admitted(path, found),
        Op::Send { command } => player.requested(command),
        Op::Tick { read, now, drained } => player.ticked(read, now, drained),
        Op::Settle { outcome, now } => player.settled(outcome, now),
        Op::DeviceFailed => player.abandoned(),
    }
}

/// The player after `ops`, the first of them first.
pub open spec fn run(player: PlayerView, ops: Seq<Op>) -> PlayerView
    decreases ops.len(),
{
    if ops.len() == 0 {
        player
    } else {
        performed(run(player, ops.drop_last()), ops.last())
    }
}

/// The path that `command` adds to the queue, if it adds one.
pub open spec fn added_by(command: CommandView) -> Seq<Seq<char>> {
    match command {
        CommandView::Enqueue(path) => seq![path],
        _ => Seq::empty(),
    }
}

/// The paths that the commands of a channel will add to the queue, in the
/// order in which they will be received.
pub open spec fn on_the_way(pending: Seq<CommandView>) -> Seq<Seq<char>>
    decreases pending.len(),
{
    if pending.len() == 0 {
        Seq::empty()
    } else {
        on_the_way(pending.drop_last()) + added_by(pending.last())
    }
}

/// The paths of the tracks of a queue, in order.
pub open spec fn paths(queue: Seq<MusicView>) -> Seq<Seq<char>> {
    queue.map_values(|track: MusicView| track.path)
}

/// Every track that was asked for and has not left the queue yet, the
/// oldest first: those in the worker's queue, then those still on their way
/// to it.
pub open spec fn backlog(player: PlayerView) -> Seq<Seq<char>> {
    paths(player.session.queue) + on_the_way(player.channel.pending)
}

/// The path for which `op` asks with success, on an open channel.
pub open spec fn accepted_by(op: Op) -> Seq<Seq<char>> {
    match op {
        Op::Enqueue { path, found } => if found {
            seq![path]
        } else {
            Seq::empty()
        },
        Op::Send { command } => added_by(command),
        _ => Seq::empty(),
    }
}

/// The paths for which `ops` ask with success, in order.
pub open spec fn accepted(ops: Seq<Op>) -> Seq<Seq<char>>
    decreases ops.len(),
{
    if ops.len() == 0 {
        Seq::empty()
    } else {
        accepted(ops.drop_last()) + accepted_by(ops.last())
    }
}

/// The track that leaves the queue of `player` at `op`.
pub open spec fn departed_by(player: PlayerView, op: Op) -> Seq<Departure> {
    match op {
        Op::Settle { outcome, now } => if player.session.playing is None
            && player.session.queue.len() > 0 {
            seq![
                Departure {
                    path: player.session.queue[0].path,
                    started: outcome == StartOutcome::Started,
                },
            ]
        } else {
            Seq::empty()
        },
        _ => Seq::empty(),
    }
}

/// The tracks that leave the queue while `ops` happen to `player`, in the
/// order in which they leave.
pub open spec fn departures(player: PlayerView, ops: Seq<Op>) -> Seq<Departure>
    decreases ops.len(),
{
    if ops.len() == 0 {
        Seq::empty()
    } else {
        departures(player, ops.drop_last()) + departed_by(
            run(player, ops.drop_last()),
            ops.last(),
        )
    }
}

/// The paths of the tracks that left, in order.
pub open spec fn departed_paths(departures: Seq<Departure>) -> Seq<Seq<char>> {
    departures.map_values(|d: Departure| d.path)
}

/// Whether none of the commands is `Stop`.
pub open spec fn none_stops(pending: Seq<CommandView>) -> bool {
    forall|i: int| 0 <= i < pending.len() ==> pending[i] != CommandView::Stop
}

/// Whether none of the operations sends `Stop`.
pub open spec fn none_sends_stop(ops: Seq<Op>) -> bool {
    forall|i: int|
        0 <= i < ops.len() ==> ops[i] != (Op::Send { command: CommandView::Stop })
}

proof fn lemma_on_the_way_from_front(pending: Seq<CommandView>)
    requires
        pending.len() > 0,
    ensures
        on_the_way(pending) == added_by(pending[0]) + on_the_way(pending.skip(1)),
    decreases pending.len(),
{
    if pending.len() == 1 {
        assert(pending.drop_last() =~= Seq::empty());
        assert(pending.skip(1) =~= Seq::empty());
        assert(on_the_way(pending.drop_last()) =~= Seq::empty());
        assert(on_the_way(pending.skip(1)) =~= Seq::empty());
        assert(on_the_way(pending) =~= added_by(pending[0]) + on_the_way(pending.skip(1)));
    } else {
        let shorter = pending.drop_last();
        lemma_on_the_way_from_front(shorter);
        assert(shorter.skip(1) =~= pending.skip(1).drop_last());
        assert(pending.skip(1).last() == pending.last());
        assert(on_the_way(pending) =~= added_by(pending[0]) + on_the_way(pending.skip(1)));
    }
}

proof fn lemma_one_op_keeps_order(player: PlayerView, op: Op)
    requires
        !player.channel.closed,
        none_stops(player.channel.pending),
        op != (Op::Send { command: CommandView::Stop }),
    ensures
        backlog(player) + accepted_by(op) == departed_paths(departed_by(player, op)) + backlog(
            performed(player, op),
        ),
        !performed(player, op).channel.closed,
        none_stops(performed(player, op).channel.pending),
{
    let after = performed(player, op);
    let pending = player.channel.pending;
    let queue = player.session.queue;
    match op {
        Op::Enqueue { path, found } => {
            if found {
                assert(pending.push(CommandView::Enqueue(path)).drop_last() =~= pending);
            }
            assert(departed_paths(departed_by(player, op)) =~= Seq::empty());
            assert(backlog(player) + accepted_by(op) =~= departed_paths(departed_by(player, op))
                + backlog(after));
        },
        Op::Send { command } => {
            assert(pending.push(command).drop_last() =~= pending);
            assert(departed_paths(departed_by(player, op)) =~= Seq::empty());
            assert(backlog(player) + accepted_by(op) =~= departed_paths(departed_by(player, op))
                + backlog(after));
        },
        Op::Tick { read, now, drained } => {
            assert(departed_paths(departed_by(player, op)) =~= Seq::empty());
            if pending.len() > 0 {
                lemma_on_the_way_from_front(pending);
                assert(pending[0] != CommandView::Stop);
                assert(paths(after.session.queue) =~= paths(queue) + added_by(pending[0]));
                assert forall|i: int| 0 <= i < pending.skip(1).len() implies pending.skip(1)[i]
                    != CommandView::Stop by {
                    assert(pending.skip(1)[i] == pending[i + 1]);
                }
            } else {
                assert(paths(after.session.queue) =~= paths(queue));
            }
            assert(backlog(player) + accepted_by(op) =~= departed_paths(departed_by(player, op))
                + backlog(after));
        },
        Op::Settle { outcome, now } => {
            if player.session.playing is None && queue.len() > 0 {
                assert(paths(queue) =~= seq![queue[0].path] + paths(queue.skip(1)));
                assert(departed_paths(departed_by(player, op)) =~= seq![queue[0].path]);
            } else {
                assert(departed_paths(departed_by(player, op)) =~= Seq::empty());
            }
            assert(backlog(player) + accepted_by(op) =~= departed_paths(departed_by(player, op))
                + backlog(after));
        },
        Op::DeviceFailed => {
            assert(departed_paths(departed_by(player, op)) =~= Seq::empty());
            assert(backlog(player) + accepted_by(op) =~= departed_paths(departed_by(player, op))
                + backlog(after));
        },
    }
}

/// First in, first out. As long as nobody stops the player, tracks leave
/// the queue in the order in which they were asked for, and in no other
/// way: what was waiting at the outset, followed by what was asked for with
/// success since, is what has left the queue since, followed by what waits
/// now. A track leaves the queue to become the active track, or because it
/// could not be started; so the tracks become active in the order in which
/// they were asked for.
pub proof fn lemma_tracks_leave_in_order(player: PlayerView, ops: Seq<Op>)
    requires
        !player.channel.closed,
        none_stops(player.channel.pending),
        none_sends_stop(ops),
    ensures
        backlog(player) + accepted(ops) == departed_paths(departures(player, ops)) + backlog(
            run(player, ops),
        ),
        !run(player, ops).channel.closed,
        none_stops(run(player, ops).channel.pending),
    decreases ops.len(),
{
    if ops.len() == 0 {
        assert(backlog(player) + accepted(ops) =~= departed_paths(departures(player, ops))
            + backlog(run(player, ops)));
    } else {
        let before = ops.drop_last();
        let last = ops.last();
        assert(none_sends_stop(before)) by {
            assert forall|i: int| 0 <= i < before.len() implies before[i] != (Op::Send {
                command: CommandView::Stop,
            }) by {
                assert(before[i] == ops[i]);
            }
        }
        lemma_tracks_leave_in_order(player, before);
        let middle = run(player, before);
        lemma_one_op_keeps_order(middle, last);
        let gone = departures(player, before);
        let leaving = departed_by(middle, last);
        assert(departed_paths(gone + leaving) =~= departed_paths(gone) + departed_paths(leaving));
        assert(backlog(player) + accepted(ops) =~= (backlog(player) + accepted(before))
            + accepted_by(last));
        assert(backlog(player) + accepted(ops) =~= departed_paths(departures(player, ops))
            + backlog(run(player, ops)));
    }
}

/// The snapshots show the session as it was when the worker last finished
/// a step: after each of the worker's steps but the bare look into the
/// channel they equal the session's queue and active track, both at once;
/// and nothing that a caller does changes them, or the session.
pub proof fn lemma_snapshots_show_the_session(player: PlayerView, op: Op)
    ensures
        is_workers(op) ==> performed(player, op).queue == performed(player, op).session.queue
            && performed(player, op).playing == performed(player, op).session.playing,
        !is_workers(op) ==> performed(player, op).queue == player.queue && performed(
            player,
            op,
        ).playing == player.playing && performed(player, op).session == player.session,
        player.woken().queue == player.queue && player.woken().playing == player.playing
            && player.woken().session == player.session,
{
}

/// Every player is well formed: a fresh one is, and whatever happens to a
/// well-formed player leaves it so.
pub proof fn lemma_player_stays_well_formed(player: PlayerView, op: Op)
    requires
        player.wf(),
    ensures
        PlayerView::fresh().wf(),
        performed(player, op).wf(),
{
    lemma_session_stays_well_formed(
        player.session,
        WakeupView::Idle,
        None,
        StartOutcome::Started,
        0,
        false,
    );
    match op {
        Op::Tick { read, now, drained } => {
            lemma_session_stays_well_formed(
                player.session,
                player.channel.wakeup(),
                Some(crate::metadata::properties_of(read)),
                StartOutcome::Started,
                now,
                drained,
            );
        },
        Op::Settle { outcome, now } => {
            lemma_session_stays_well_formed(
                player.session,
                WakeupView::Idle,
                None,
                outcome,
                now,
                false,
            );
        },
        _ => {},
    }
}

/// Every session is well formed: a fresh one is, and neither a wakeup nor a
/// report on a start leads out of the well-formed sessions. So the volume
/// always lies in the unit range, and what waits in the queue has never
/// begun to play.
pub proof fn lemma_session_stays_well_formed(
    session: SessionView,
    wakeup: WakeupView,
    properties: Option<PropertiesView>,
    outcome: StartOutcome,
    now: u64,
    drained: bool,
)
    requires
        session.wf(),
    ensures
        SessionView::fresh().wf(),
        session.reacted(wakeup, properties, now, drained).wf(),
        session.settled(outcome, now).wf(),
        session.abandoned().wf(),
{
    let settled = session.settled(outcome, now);
    assert forall|i: int| 0 <= i < settled.queue.len() implies (#[trigger] settled.queue[i]).is_pending() by {
        if settled.queue.len() < session.queue.len() {
            assert(settled.queue[i] == session.queue[i + 1]);
        }
    }
}

/// A pause does not move the position. A track that plays, is paused at
/// `paused_at` and resumed at `resumed_at` reports on resuming the position
/// that it had on pausing, which is the whole seconds that it had played by
/// then; and while it is paused, no wakeup moves its position.
pub proof fn lemma_pause_keeps_position(
    session: SessionView,
    properties: Option<PropertiesView>,
    paused_at: u64,
    resumed_at: u64,
    drained: bool,
)
    requires
        session.phase() == Phase::Playing,
        paused_at <= resumed_at,
    ensures
        ({
            let paused = session.reacted(
                WakeupView::Command(CommandView::Pause),
                properties,
                paused_at,
                false,
            );
            let resumed = paused.reacted(
                WakeupView::Command(CommandView::Resume),
                properties,
                resumed_at,
                drained,
            );
            &&& paused.phase() == Phase::Paused
            &&& paused.playing->0.position == seconds_played(session.started, paused_at)
            &&& paused.reacted(WakeupView::Idle, properties, resumed_at, drained) == paused
            &&& resumed.phase() == Phase::Playing
            &&& resumed.playing->0.position == paused.playing->0.position
            &&& resumed.position_at(resumed_at) == paused.playing->0.position
        }),
{
}

/// After a pause the position advances at the clock's pace again: `later`
/// milliseconds after it was resumed, a track has played what it had played
/// when it was paused and `later` milliseconds more.
pub proof fn lemma_position_advances_after_resume(
    session: SessionView,
    properties: Option<PropertiesView>,
    paused_at: u64,
    resumed_at: u64,
    later: u64,
)
    requires
        session.phase() == Phase::Playing,
        session.started <= paused_at <= resumed_at,
        resumed_at + later <= u64::MAX,
    ensures
        ({
            let paused = session.reacted(
                WakeupView::Command(CommandView::Pause),
                properties,
                paused_at,
                false,
            );
            let resumed = paused.reacted(
                WakeupView::Command(CommandView::Resume),
                properties,
                resumed_at,
                false,
            );
            resumed.position_at((resumed_at + later) as u64) == (span(session.started, paused_at)
                + later) / (MILLIS_PER_SECOND as int)
        }),
{
}

/// While a track is held its position stands still: whatever wakes the
/// worker, the track is gone afterwards or is where it was.
pub proof fn lemma_paused_position_stands_still(
    session: SessionView,
    wakeup: WakeupView,
    properties: Option<PropertiesView>,
    now: u64,
    drained: bool,
)
    requires
        session.phase() == Phase::Paused,
    ensures
        ({
            let after = session.reacted(wakeup, properties, now, drained);
            after.playing matches Some(track) ==> track.position == session.playing->0.position
        }),
{
}

/// The position never runs ahead of the clock: a track that plays has, at
/// each wakeup, a position of no more seconds than have passed since it
/// began.
pub proof fn lemma_position_is_bounded(
    session: SessionView,
    wakeup: WakeupView,
    properties: Option<PropertiesView>,
    now: u64,
    drained: bool,
)
    requires
        session.phase() == Phase::Playing,
    ensures
        ({
            let after = session.reacted(wakeup, properties, now, drained);
            after.playing matches Some(track) ==> track.position * MILLIS_PER_SECOND <= span(
                session.started,
                now,
            )
        }),
{
}

/// `Stop` clears all state. At the wakeup that brings `Stop`, whatever was
/// queued and whatever was playing, the queue is empty and nothing is
/// active afterwards, in the session and in the snapshots; the device is
/// told to halt if a track was active; and the worker is told to wait.
pub proof fn lemma_stop_clears_all_state(
    player: PlayerView,
    read: Option<TagReadView>,
    now: u64,
    drained: bool,
)
    requires
        player.channel.wakeup() == WakeupView::Command(CommandView::Stop),
    ensures
        ({
            let after = player.ticked(read, now, drained);
            let reaction = player.woken().reaction(player.channel.wakeup(), read, now, drained);
            &&& after.queue.len() == 0
            &&& after.playing is None
            &&& after.session.queue.len() == 0
            &&& after.session.phase() == Phase::Idle
            &&& reaction.next == NextView::Await
            &&& reaction.device == if player.session.observed(now, drained).phase()
                == Phase::Idle {
                None
            } else {
                Some(DeviceAction::Halt)
            }
        }),
{
}

/// Whether `op` is one of the worker's.
pub open spec fn is_workers(op: Op) -> bool {
    op is Tick || op is Settle || op is DeviceFailed
}

/// Whether all of `ops` are the worker's.
pub open spec fn all_workers(ops: Seq<Op>) -> bool {
    forall|i: int| 0 <= i < ops.len() ==> is_workers(#[trigger] ops[i])
}

/// How often the worker wakes up in `ops`.
pub open spec fn wakeups(ops: Seq<Op>) -> nat
    decreases ops.len(),
{
    if ops.len() == 0 {
        0
    } else if ops.last() is Tick {
        wakeups(ops.drop_last()) + 1
    } else {
        wakeups(ops.drop_last())
    }
}

/// The worker takes the commands out of the channel one per wakeup, the
/// oldest first, and nothing else that it does touches the channel.
pub proof fn lemma_worker_receives_in_order(player: PlayerView, ops: Seq<Op>)
    requires
        all_workers(ops),
        wakeups(ops) <= player.channel.pending.len(),
    ensures
        run(player, ops).channel.pending == player.channel.pending.skip(wakeups(ops) as int),
        run(player, ops).channel.closed == player.channel.closed,
    decreases ops.len(),
{
    if ops.len() == 0 {
        assert(player.channel.pending.skip(0) =~= player.channel.pending);
    } else {
        let before = ops.drop_last();
        assert(all_workers(before)) by {
            assert forall|i: int| 0 <= i < before.len() implies is_workers(
                #[trigger] before[i],
            ) by {
                assert(before[i] == ops[i]);
            }
        }
        lemma_worker_receives_in_order(player, before);
        assert(is_workers(ops[ops.len() - 1]));
        let middle = run(player, before);
        if ops.last() is Tick {
            assert(middle.channel.pending.skip(1) =~= player.channel.pending.skip(
                wakeups(ops) as int,
            ));
        }
    }
}

/// `Stop` takes effect in its turn. When a caller has sent `Stop` and the
/// worker has since woken up once for each command that was waiting before
/// it and once more, then at the end of that last wakeup the snapshots show
/// an empty queue and no active track, whatever was queued or playing
/// before and whatever the device reported in between.
pub proof fn lemma_stop_takes_effect(player: PlayerView, ops: Seq<Op>)
    requires
        !player.channel.closed,
        all_workers(ops),
        ops.len() > 0,
        ops.last() is Tick,
        wakeups(ops) == player.channel.pending.len() + 1,
    ensures
        run(player.requested(CommandView::Stop), ops).queue.len() == 0,
        run(player.requested(CommandView::Stop), ops).playing is None,
        run(player.requested(CommandView::Stop), ops).channel.pending.len() == 0,
{
    let sent = player.requested(CommandView::Stop);
    let before = ops.drop_last();
    assert(all_workers(before)) by {
        assert forall|i: int| 0 <= i < before.len() implies is_workers(#[trigger] before[i]) by {
            assert(before[i] == ops[i]);
        }
    }
    lemma_worker_receives_in_order(sent, before);
    let middle = run(sent, before);
    assert(middle.channel.pending[0] == CommandView::Stop);
    match ops.last() {
        Op::Tick { read, now, drained } => {
            lemma_stop_clears_all_state(middle, read, now, drained);
        },
        _ => {},
    }
}

/// `Skip` advances by exactly one track. With a track active and another
/// waiting, the wakeup that brings `Skip` drops the active track, leaves the
/// queue as it is and tells the worker to start the head of the queue; once
/// that has started, it is the active track and the queue is what was
/// behind it. The skipped track is not put back.
pub proof fn lemma_skip_advances_one_track(
    session: SessionView,
    properties: Option<PropertiesView>,
    now: u64,
    drained: bool,
    started_at: u64,
)
    requires
        session.playing is Some,
        session.queue.len() > 0,
    ensures
        ({
            let skip = WakeupView::Command(CommandView::Skip);
            let skipped = session.reacted(skip, properties, now, drained);
            let reaction = session.reaction(skip, properties, now, drained);
            let advanced = skipped.settled(StartOutcome::Started, started_at);
            &&& skipped.playing is None
            &&& skipped.queue == session.queue
            &&& reaction.next == NextView::Start(session.queue[0].path)
            &&& advanced.playing == Some(session.queue[0].begun())
            &&& advanced.queue == session.queue.skip(1)
            &&& advanced.started == started_at
        }),
{
}

/// A track that cannot be started does not hold the queue up. Where the
/// head of the queue is missing or cannot be decoded, the report of that
/// drops it, and the answer to the report is to start the track behind it,
/// if there is one. Each such report shortens the queue by one, so after at
/// most as many reports as tracks wait, one has started or none is left.
pub proof fn lemma_unplayable_head_is_dropped(
    session: SessionView,
    outcome: StartOutcome,
    now: u64,
)
    requires
        session.playing is None,
        session.queue.len() > 0,
        outcome != StartOutcome::Started,
    ensures
        ({
            let after = session.settled(outcome, now);
            &&& after.playing is None
            &&& after.queue == session.queue.skip(1)
            &&& after.queue.len() == session.queue.len() - 1
            &&& after.next() == if session.queue.len() > 1 {
                NextView::Start(session.queue[1].path)
            } else {
                NextView::Await
            }
            &&& after.volume == session.volume
        }),
{
}

/// Setting the volume is idempotent and the last level wins. The level
/// that the callers read is the clamped level that was last set, which is
/// the level itself where that lies in the unit range; setting it again
/// changes nothing that can be read; and the session that receives the
/// command twice is in the state of the one that received it once.
pub proof fn lemma_volume_is_idempotent(player: PlayerView, level: u32, other: u32, now: u64)
    requires
        !player.channel.closed,
    ensures
        player.volume_set(level).volume == clamped(level),
        in_unit_range(level) ==> player.volume_set(level).volume == level,
        player.volume_set(level).volume_set(level).volume == player.volume_set(level).volume,
        player.volume_set(other).volume_set(level).volume == player.volume_set(level).volume,
        player.volume_set(level).queue == player.queue,
        player.volume_set(level).playing == player.playing,
        ({
            let set = CommandView::SetVolume(clamped(level));
            let once = player.session.applied(set, None, now);
            &&& once.volume == clamped(level)
            &&& once.applied(set, None, now) == once
            &&& player.session.device_action(set) == Some(DeviceAction::SetVolume(clamped(level)))
        }),
{
}

/// The volume is the level that was last set, whatever else happens: no
/// wakeup but one that brings `SetVolume` changes it, and no start or end of
/// a track does.
pub proof fn lemma_volume_outlasts_tracks(
    session: SessionView,
    wakeup: WakeupView,
    properties: Option<PropertiesView>,
    outcome: StartOutcome,
    now: u64,
    drained: bool,
)
    ensures
        session.settled(outcome, now).volume == session.volume,
        session.reacted(wakeup, properties, now, drained).volume == match wakeup {
            WakeupView::Command(CommandView::SetVolume(level)) => clamped(level),
            _ => session.volume,
        },
{
}

/// A path under which nothing is found is turned away: the caller gets
/// `false`, and the player is as it was, its queue and its channel too.
pub proof fn lemma_missing_path_is_turned_away(player: PlayerView, path: Seq<char>)
    ensures
        player.admission(false) == Ok::<bool, crate::channel::ChannelClosed>(false),
        player.admitted(path, false) == player,
{
}

/// The active track is never in the queue: a track that starts leaves the
/// queue in the same step, and the queue only ever holds tracks that have
/// not begun.
pub proof fn lemma_active_track_is_not_queued(session: SessionView, now: u64)
    requires
        session.wf(),
        session.playing is None,
        session.queue.len() > 0,
    ensures
        ({
            let after = session.settled(StartOutcome::Started, now);
            &&& after.playing == Some(session.queue[0].begun())
            &&& after.playing->0.playing
            &&& after.queue == session.queue.skip(1)
            &&& forall|i: int| 0 <= i < after.queue.len() ==> !(#[trigger] after.queue[i]).playing
        }),
{
    let after = session.settled(StartOutcome::Started, now);
    assert forall|i: int| 0 <= i < after.queue.len() implies !(#[trigger] after.queue[i]).playing by {
        assert(after.queue[i] == session.queue[i + 1]);
        assert(session.queue[i + 1].is_pending());
    }
}

} // verus!
