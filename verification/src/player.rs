//! The player: the action channel, the worker's session and the published
//! snapshots in one value.
//!
//! Callers send commands and read snapshots; the worker receives commands,
//! lets the session react and publishes what came of it. None of these calls
//! waits or does input or output, so where callers and worker run on threads
//! of their own, one lock round the player is held for no longer than a
//! call takes.

use crate::action::{Command, CommandView, Wakeup, WakeupView};
use crate::channel::{ActionChannel, ChannelClosed, ChannelView};
use crate::metadata::{properties_of, read_view, TagRead, TagReadView};
use crate::session::{Reaction, ReactionView, Session, SessionView, StartOutcome};
use crate::track::{copy_track, copy_tracks, track_view, tracks_view, Music, MusicView};
use crate::utils::Utils;
use crate::volume::{clamp, clamped, FULL};
use vstd::prelude::*;

verus! {

/// A playback engine.
pub struct MusicPlayer {
    channel: ActionChannel,
    session: Session,
    queue: Vec<Music>,
    playing: Option<Music>,
    volume: u32,
}

/// The mathematical value of a [`MusicPlayer`].
pub struct PlayerView {
    /// The commands on their way to the worker.
    pub channel: ChannelView,
    /// The worker's state.
    pub session: SessionView,
    /// The snapshot of the pending tracks.
    pub queue: Seq<MusicView>,
    /// The snapshot of the active track.
    pub playing: Option<MusicView>,
    /// The volume that the callers last set.
    pub volume: u32,
}

impl PlayerView {
    /// A player that has seen nothing yet.
    pub open spec fn fresh() -> PlayerView {
        PlayerView {
            channel: ChannelView::empty(),
            session: SessionView::fresh(),
            queue: Seq::empty(),
            playing: None,
            volume: FULL,
        }
    }

    /// What holds of every player: its session is well formed, the volume
    /// that the callers read lies in the unit range, and what the snapshot
    /// shows as pending has not begun to play.
    pub open spec fn wf(self) -> bool {
        &&& self.session.wf()
        &&& crate::volume::in_unit_range(self.volume)
        &&& forall|i: int| 0 <= i < self.queue.len() ==> (#[trigger] self.queue[i]).is_pending()
    }

    /// The player after a caller has tried to send `command`.
    pub open spec fn requested(self, command: CommandView) -> PlayerView {
        PlayerView { channel: self.channel.sent(command), ..self }
    }

    /// The answer to a caller who tried to send a command.
    pub open spec fn acknowledged(self) -> Result<(), ChannelClosed> {
        self.channel.acknowledged()
    }

    /// The player after a caller has asked for the track under `path`, where
    /// `found` says whether something is to be found there. A path under
    /// which nothing is found changes nothing.
    pub open spec fn admitted(self, path: Seq<char>, found: bool) -> PlayerView {
        if found {
            self.requested(CommandView::Enqueue(path))
        } else {
            self
        }
    }

    /// The answer to a caller who asked for a track: `false` where nothing
    /// is found under its path, else `true` if the command could be sent.
    pub open spec fn admission(self, found: bool) -> Result<bool, ChannelClosed> {
        if !found {
            Ok(false)
        } else if self.channel.closed {
            Err(ChannelClosed)
        } else {
            Ok(true)
        }
    }

    /// The player after a caller has set the volume to `level`: the clamped
    /// level is on its way to the worker and is what the callers read from
    /// now on. On a closed channel nothing changes.
    pub open spec fn volume_set(self, level: u32) -> PlayerView {
        if self.channel.closed {
            self
        } else {
            PlayerView {
                volume: clamped(level),
                ..self.requested(CommandView::SetVolume(clamped(level)))
            }
        }
    }

    /// The command that a toggle sends: `Resume` where the snapshot shows no
    /// track that plays, else `Pause`.
    pub open spec fn toggle_command(self) -> CommandView {
        match self.playing {
            Some(track) if track.playing => CommandView::Pause,
            _ => CommandView::Resume,
        }
    }

    /// The player after the worker has looked into the channel.
    pub open spec fn woken(self) -> PlayerView {
        PlayerView { channel: self.channel.received(), ..self }
    }

    /// The player with the snapshots brought up to date with the session.
    pub open spec fn published(self) -> PlayerView {
        PlayerView { queue: self.session.queue, playing: self.session.playing, ..self }
    }

    /// The player after the session has reacted to `wakeup`. `read` is what
    /// was read from the file of a track that the wakeup adds.
    pub open spec fn reacted(
        self,
        wakeup: WakeupView,
        read: Option<TagReadView>,
        now: u64,
        drained: bool,
    ) -> PlayerView {
        PlayerView {
            session: self.session.reacted(wakeup, Some(properties_of(read)), now, drained),
            ..self
        }.published()
    }

    /// The answer of the session to `wakeup`.
    pub open spec fn reaction(
        self,
        wakeup: WakeupView,
        read: Option<TagReadView>,
        now: u64,
        drained: bool,
    ) -> ReactionView {
        self.session.reaction(wakeup, Some(properties_of(read)), now, drained)
    }

    /// The player after one whole wakeup of the worker: it has looked into
    /// the channel and the session has reacted to what was found.
    pub open spec fn ticked(self, read: Option<TagReadView>, now: u64, drained: bool) -> PlayerView {
        self.woken().reacted(self.channel.wakeup(), read, now, drained)
    }

    /// The player after the worker has reported on an attempt to start the
    /// head of the queue.
    pub open spec fn settled(self, outcome: StartOutcome, now: u64) -> PlayerView {
        PlayerView { session: self.session.settled(outcome, now), ..self }.published()
    }

    /// The player after the worker has reported that the device has twice
    /// failed to obey.
    pub open spec fn abandoned(self) -> PlayerView {
        PlayerView { session: self.session.abandoned(), ..self }.published()
    }

    /// The player after its channel was closed.
    pub open spec fn shut(self) -> PlayerView {
        PlayerView { channel: self.channel.shut(), ..self }
    }
}

impl View for MusicPlayer {
    type V = PlayerView;

    closed spec fn view(&self) -> PlayerView {
        PlayerView {
            channel: self.channel@,
            session: self.session@,
            queue: tracks_view(self.queue@),
            playing: track_view(self.playing),
            volume: self.volume,
        }
    }
}

impl MusicPlayer {
    /// A player that has seen nothing yet: idle, nothing pending, at the
    /// full level, its channel open and empty.
    pub fn new() -> (player: MusicPlayer)
        ensures
            player@ == PlayerView::fresh(),
            player@.wf(),
    {
        let queue: Vec<Music> = Vec::new();
        assert(tracks_view(queue@) =~= Seq::empty());
        MusicPlayer {
            channel: ActionChannel::new(),
            session: Session::new(),
            queue,
            playing: None,
            volume: FULL,
        }
    }

    fn request(&mut self, command: Command) -> (sent: Result<(), ChannelClosed>)
        ensures
            final(self)@ == old(self)@.requested(command@),
            sent == old(self)@.acknowledged(),
    {
        self.channel.send(command)
    }

    /// Asks for the track under `path`, given whether something is to be
    /// found there. Where nothing is, the answer is `false` and nothing
    /// changes; else the command to add the track is sent.
    pub fn enqueue_checked(&mut self, path: String, found: bool) -> (admitted: Result<bool, ChannelClosed>)
        ensures
            final(self)@ == old(self)@.admitted(path@, found),
            admitted == old(self)@.admission(found),
    {
        if !found {
            return Ok(false);
        }
        match self.request(Command::Enqueue(path)) {
            Ok(()) => Ok(true),
            Err(e) => Err(e),
        }
    }

    /// Asks for the track under `path`. Looks whether something is to be
    /// found there and goes on as [`MusicPlayer::enqueue_checked`] does with
    /// the answer. So the answer is `false`, and nothing has changed, where
    /// nothing was found; and whatever was found, the snapshots are as they
    /// were.
    pub fn enqueue(&mut self, path: String) -> (admitted: Result<bool, ChannelClosed>)
        ensures
            exists|found: bool|
                final(self)@ == #[trigger] old(self)@.admitted(path@, found) && admitted == old(
                    self,
                )@.admission(found),
            admitted == Ok::<bool, ChannelClosed>(false) ==> final(self)@ == old(self)@,
            admitted == Ok::<bool, ChannelClosed>(true) ==> final(self)@ == old(self)@.requested(
                CommandView::Enqueue(path@),
            ),
            admitted is Err ==> old(self)@.channel.closed && final(self)@ == old(self)@,
            final(self)@.queue == old(self)@.queue,
            final(self)@.playing == old(self)@.playing,
    {
        let found = Utils.path_exists(path.as_str());
        self.enqueue_checked(path, found)
    }

    /// Asks to let a held track go on.
    pub fn resume(&mut self) -> (sent: Result<(), ChannelClosed>)
        ensures
            final(self)@ == old(self)@.requested(CommandView::Resume),
            sent == old(self)@.acknowledged(),
    {
        self.request(Command::Resume)
    }

    /// Asks to hold the active track.
    pub fn pause(&mut self) -> (sent: Result<(), ChannelClosed>)
        ensures
            final(self)@ == old(self)@.requested(CommandView::Pause),
            sent == old(self)@.acknowledged(),
    {
        self.request(Command::Pause)
    }

    /// Asks to drop the active track and go on with the queue.
    pub fn skip(&mut self) -> (sent: Result<(), ChannelClosed>)
        ensures
            final(self)@ == old(self)@.requested(CommandView::Skip),
            sent == old(self)@.acknowledged(),
    {
        self.request(Command::Skip)
    }

    /// Asks to drop the queue and the active track.
    pub fn stop(&mut self) -> (sent: Result<(), ChannelClosed>)
        ensures
            final(self)@ == old(self)@.requested(CommandView::Stop),
            sent == old(self)@.acknowledged(),
    {
        self.request(Command::Stop)
    }

    /// Holds the track if the snapshot shows one that plays, and else lets
    /// it go on. The answer is whether the track is meant to play from now
    /// on.
    pub fn toggle_pause(&mut self) -> (plays: Result<bool, ChannelClosed>)
        ensures
            final(self)@ == old(self)@.requested(old(self)@.toggle_command()),
            plays == match old(self)@.acknowledged() {
                Ok(()) => Ok(old(self)@.toggle_command() == CommandView::Resume),
                Err(e) => Err(e),
            },
    {
        let plays_now = match &self.playing {
            Some(track) => track.playing,
            None => false,
        };
        if plays_now {
            match self.request(Command::Pause) {
                Ok(()) => Ok(false),
                Err(e) => Err(e),
            }
        } else {
            match self.request(Command::Resume) {
                Ok(()) => Ok(true),
                Err(e) => Err(e),
            }
        }
    }

    /// Sets the volume to `volume`, clamped into the unit range.
    pub fn set_volume(&mut self, volume: u32) -> (sent: Result<(), ChannelClosed>)
        ensures
            final(self)@ == old(self)@.volume_set(volume),
            sent == old(self)@.acknowledged(),
    {
        let level: u32 = clamp(volume);
        match self.request(Command::SetVolume(level)) {
            Ok(()) => {
                self.volume = level;
                Ok(())
            },
            Err(e) => Err(e),
        }
    }

    /// The volume that was last set, and the full level if none was.
    pub fn get_volume(&self) -> (level: u32)
        ensures
            level == self@.volume,
    {
        self.volume
    }

    /// How many tracks the snapshot shows as pending.
    pub fn get_queue_length(&self) -> (n: usize)
        ensures
            n == self@.queue.len(),
    {
        self.queue.len()
    }

    /// The snapshot of the pending tracks, the next one to play first. The
    /// active track is never among them.
    pub fn get_queue(&self) -> (queue: Vec<Music>)
        ensures
            tracks_view(queue@) == self@.queue,
    {
        copy_tracks(&self.queue)
    }

    /// The snapshot of the active track.
    pub fn get_playing(&self) -> (playing: Option<Music>)
        ensures
            track_view(playing) == self@.playing,
    {
        copy_track(&self.playing)
    }

    fn publish(&mut self)
        ensures
            final(self)@ == old(self)@.published(),
    {
        self.queue = self.session.queue();
        self.playing = self.session.playing();
    }

    /// The worker looks into the channel: takes the oldest command out, if
    /// there is one, and learns why it woke up.
    pub fn receive(&mut self) -> (wakeup: Wakeup)
        ensures
            wakeup@ == old(self)@.channel.wakeup(),
            final(self)@ == old(self)@.woken(),
    {
        self.channel.receive()
    }

    /// The worker hands over what woke it, with the clock's reading and
    /// whether the device has run dry, and gets back what to do. `read` is
    /// what the worker read from the file of a track that the wakeup adds;
    /// at any other wakeup it is dropped. The snapshots are brought up to
    /// date before the call returns.
    pub fn react(&mut self, wakeup: Wakeup, read: Option<TagRead>, now: u64, drained: bool) -> (reaction:
        Reaction)
        ensures
            final(self)@ == old(self)@.reacted(wakeup@, read_view(read), now, drained),
            reaction@ == old(self)@.reaction(wakeup@, read_view(read), now, drained),
            old(self)@.wf() ==> final(self)@.wf(),
    {
        let properties = Utils.get_properties(read);
        let reaction = self.session.react(wakeup, Some(properties), now, drained);
        self.publish();
        reaction
    }

    /// The worker reports how its attempt to start the head of the queue
    /// went, and gets back what to do. The snapshots are brought up to date
    /// before the call returns.
    pub fn settle_start(&mut self, outcome: StartOutcome, now: u64) -> (reaction: Reaction)
        ensures
            final(self)@ == old(self)@.settled(outcome, now),
            reaction@ == (ReactionView {
                device: None,
                next: old(self)@.session.settled(outcome, now).next(),
            }),
            old(self)@.wf() ==> final(self)@.wf(),
    {
        let reaction = self.session.settle_start(outcome, now);
        self.publish();
        reaction
    }

    /// The worker reports that the device has twice failed to carry out
    /// what it was asked to do, and gets back what to do. The active track
    /// is dropped. The snapshots are brought up to date before the call
    /// returns.
    pub fn device_failed(&mut self) -> (reaction: Reaction)
        ensures
            final(self)@ == old(self)@.abandoned(),
            reaction@ == (ReactionView {
                device: None,
                next: old(self)@.session.abandoned().next(),
            }),
            old(self)@.wf() ==> final(self)@.wf(),
    {
        let reaction = self.session.device_failed();
        self.publish();
        reaction
    }

    /// Closes the channel: the worker is gone, or the callers are. Every
    /// send fails from now on.
    pub fn close(&mut self)
        ensures
            final(self)@ == old(self)@.shut(),
    {
        self.channel.close();
    }
}

} // verus!
