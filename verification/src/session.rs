//! The worker's state machine.
//!
//! A session is what the worker owns: the queue of pending tracks, the active
//! track if there is one, the instants from which its position is computed,
//! and the volume. It is `Idle` with no active track, `Playing` while the
//! active track sounds and `Paused` while it is held.
//!
//! The worker feeds the session and obeys it. Each time it wakes up it calls
//! [`Session::react`] with what woke it, the time, and whether the output has
//! run dry; it carries out the device action of the answer and then does what
//! the answer names next. Where that is to start a track, it tries, reports
//! how that went with [`Session::settle_start`], and again does what the
//! answer names next.

use crate::action::{Command, CommandView, Wakeup, WakeupView};
use crate::timing::{position_at, resume_start, seconds_played, start_after_pause};
use crate::track::{
    copy_track,
    copy_tracks,
    properties_view,
    track_view,
    tracks_view,
    Music,
    MusicView,
    Properties,
    PropertiesView,
};
use crate::volume::{clamp, clamped, in_unit_range, FULL};
use vstd::prelude::*;

verus! {

/// Where the state machine stands.
#[derive(Clone, Copy, Debug, PartialEq, Eq)]
pub enum Phase {
    /// No active track; the device is silent.
    Idle,
    /// The active track is producing sound.
    Playing,
    /// The active track is held; the device is silent and the position does
    /// not move.
    Paused,
}

/// How an attempt to start a track went.
#[derive(Clone, Copy, Debug, PartialEq, Eq)]
pub enum StartOutcome {
    /// The track was opened and its output has begun.
    Started,
    /// Nothing is to be found under the track's path.
    Missing,
    /// What is under the track's path cannot be decoded.
    Undecodable,
}

/// What the worker is to do to the output device at once. Where the device
/// does not obey, the worker tries once more; where it fails again, the
/// worker says so with [`Session::device_failed`].
#[derive(Clone, Copy, Debug, PartialEq, Eq)]
pub enum DeviceAction {
    /// Halt the output and keep the track.
    Pause,
    /// Let the output go on.
    Resume,
    /// End the output of the track now and throw the rest of its sound away.
    Halt,
    /// Set the device's volume to this level.
    SetVolume(u32),
}

/// What the worker is to do once the device action is carried out.
#[derive(Debug, PartialEq, Eq)]
pub enum Next {
    /// Wait for the next command, no longer than the tick interval.
    Await,
    /// Open the track under this path, begin its output and report how that
    /// went.
    Start(String),
    /// Leave the loop: nobody is left to send a command.
    Terminate,
}

/// The mathematical value of a [`Next`].
pub enum NextView {
    Await,
    Start(Seq<char>),
    Terminate,
}

impl View for Next {
    type V = NextView;

    open spec fn view(&self) -> NextView {
        match *self {
            Next::Await => NextView::Await,
            Next::Start(path) => NextView::Start(path@),
            Next::Terminate => NextView::Terminate,
        }
    }
}

/// The session's answer to the worker.
#[derive(Debug, PartialEq, Eq)]
pub struct Reaction {
    pub device: Option<DeviceAction>,
    pub next: Next,
}

/// The mathematical value of a [`Reaction`].
pub struct ReactionView {
    pub device: Option<DeviceAction>,
    pub next: NextView,
}

impl View for Reaction {
    type V = ReactionView;

    open spec fn view(&self) -> ReactionView {
        ReactionView { device: self.device, next: self.next@ }
    }
}

/// The worker's state.
pub struct Session {
    queue: Vec<Music>,
    playing: Option<Music>,
    started: u64,
    paused_at: u64,
    volume: u32,
}

/// The mathematical value of a [`Session`].
pub struct SessionView {
    /// The pending tracks, the next one to play first.
    pub queue: Seq<MusicView>,
    /// The active track.
    pub playing: Option<MusicView>,
    /// The instant at which the active track began, moved forward by the
    /// length of each of its pauses that has ended.
    pub started: u64,
    /// The instant at which the active track was paused. It means something
    /// only while the track is paused.
    pub paused_at: u64,
    /// The volume, as last set.
    pub volume: u32,
}

impl SessionView {
    /// A session that has seen nothing yet: idle, nothing pending, at the
    /// full level.
    pub open spec fn fresh() -> SessionView {
        SessionView { queue: Seq::empty(), playing: None, started: 0, paused_at: 0, volume: FULL }
    }

    /// Where the state machine stands.
    pub open spec fn phase(self) -> Phase {
        match self.playing {
            None => Phase::Idle,
            Some(track) => if track.playing {
                Phase::Playing
            } else {
                Phase::Paused
            },
        }
    }

    /// What holds of every session: the volume lies in the unit range, and
    /// what waits in the queue has not begun to play.
    pub open spec fn wf(self) -> bool {
        &&& in_unit_range(self.volume)
        &&& forall|i: int| 0 <= i < self.queue.len() ==> (#[trigger] self.queue[i]).is_pending()
    }

    /// The position of the active track at `now`: while it plays, the whole
    /// seconds from its start, as moved by its pauses, to `now`; while it is
    /// paused, what it was when the pause began.
    pub open spec fn position_at(self, now: u64) -> u64 {
        match self.playing {
            None => 0,
            Some(track) => if track.playing {
                seconds_played(self.started, now)
            } else {
                track.position
            },
        }
    }

    /// The session brought up to date with the device at `now`. A track that
    /// plays has ended if the output ran dry, and else has moved on to its
    /// position at `now`. Nothing else changes: a paused track stays as it
    /// is, whatever the device says.
    pub open spec fn observed(self, now: u64, drained: bool) -> SessionView {
        match self.playing {
            Some(track) if track.playing => if drained {
                SessionView { playing: None, ..self }
            } else {
                SessionView { playing: Some(track.at(seconds_played(self.started, now))), ..self }
            },
            _ => self,
        }
    }

    /// The session after `command`, which arrived at `now`. `properties` is
    /// the record to attach to a track that the command adds.
    pub open spec fn applied(
        self,
        command: CommandView,
        properties: Option<PropertiesView>,
        now: u64,
    ) -> SessionView {
        match command {
            CommandView::Enqueue(path) => SessionView {
                queue: self.queue.push(MusicView::pending(path, properties)),
                ..self
            },
            CommandView::Stop => SessionView { queue: Seq::empty(), playing: None, ..self },
            CommandView::Pause => match self.playing {
                Some(track) if track.playing => SessionView {
                    playing: Some(track.at(seconds_played(self.started, now)).sounding(false)),
                    paused_at: now,
                    ..self
                },
                _ => self,
            },
            CommandView::Resume => match self.playing {
                Some(track) if !track.playing => SessionView {
                    playing: Some(track.sounding(true)),
                    started: start_after_pause(self.started, self.paused_at, now),
                    ..self
                },
                _ => self,
            },
            CommandView::Skip => SessionView { playing: None, ..self },
            CommandView::SetVolume(level) => SessionView { volume: clamped(level), ..self },
        }
    }

    /// What `command` asks of the device in this state. A command that
    /// changes nothing in this state asks nothing of the device.
    pub open spec fn device_action(self, command: CommandView) -> Option<DeviceAction> {
        match command {
            CommandView::Enqueue(_) => None,
            CommandView::Stop | CommandView::Skip => if self.phase() == Phase::Idle {
                None
            } else {
                Some(DeviceAction::Halt)
            },
            CommandView::Pause => if self.phase() == Phase::Playing {
                Some(DeviceAction::Pause)
            } else {
                None
            },
            CommandView::Resume => if self.phase() == Phase::Paused {
                Some(DeviceAction::Resume)
            } else {
                None
            },
            CommandView::SetVolume(level) => Some(DeviceAction::SetVolume(clamped(level))),
        }
    }

    /// What the worker is to do next in this state: start the head of the
    /// queue where nothing is active and something waits, else wait.
    pub open spec fn next(self) -> NextView {
        if self.playing is None && self.queue.len() > 0 {
            NextView::Start(self.queue[0].path)
        } else {
            NextView::Await
        }
    }

    /// The session after one wakeup of the worker: brought up to date with
    /// the device, then changed by the command if one arrived. A closed
    /// channel ends the session as `Stop` does.
    pub open spec fn reacted(
        self,
        wakeup: WakeupView,
        properties: Option<PropertiesView>,
        now: u64,
        drained: bool,
    ) -> SessionView {
        let current = self.observed(now, drained);
        match wakeup {
            WakeupView::Command(command) => current.applied(command, properties, now),
            WakeupView::Idle => current,
            WakeupView::ChannelClosed => current.applied(CommandView::Stop, properties, now),
        }
    }

    /// The answer to one wakeup of the worker.
    pub open spec fn reaction(
        self,
        wakeup: WakeupView,
        properties: Option<PropertiesView>,
        now: u64,
        drained: bool,
    ) -> ReactionView {
        let current = self.observed(now, drained);
        match wakeup {
            WakeupView::Command(command) => ReactionView {
                device: current.device_action(command),
                next: current.applied(command, properties, now).next(),
            },
            WakeupView::Idle => ReactionView { device: None, next: current.next() },
            WakeupView::ChannelClosed => ReactionView {
                device: current.device_action(CommandView::Stop),
                next: NextView::Terminate,
            },
        }
    }

    /// The session after the device has twice failed to obey: the active
    /// track is given up. Whoever wants it played asks for it again.
    pub open spec fn abandoned(self) -> SessionView {
        SessionView { playing: None, ..self }
    }

    /// The session after the worker has tried to start the head of the
    /// queue. The head leaves the queue either way: it becomes the active
    /// track, begun at `now`, or it is dropped. A report that nothing asked
    /// for changes nothing.
    pub open spec fn settled(self, outcome: StartOutcome, now: u64) -> SessionView {
        if self.playing is None && self.queue.len() > 0 {
            match outcome {
                StartOutcome::Started => SessionView {
                    queue: self.queue.skip(1),
                    playing: Some(self.queue[0].begun()),
                    started: now,
                    ..self
                },
                _ => SessionView { queue: self.queue.skip(1), ..self },
            }
        } else {
            self
        }
    }
}

impl View for Session {
    type V = SessionView;

    closed spec fn view(&self) -> SessionView {
        SessionView {
            queue: tracks_view(self.queue@),
            playing: track_view(self.playing),
            started: self.started,
            paused_at: self.paused_at,
            volume: self.volume,
        }
    }
}

impl Session {
    /// A session that has seen nothing yet.
    pub fn new() -> (session: Session)
        ensures
            session@ == SessionView::fresh(),
            session@.wf(),
    {
        let queue: Vec<Music> = Vec::new();
        assert(tracks_view(queue@) =~= Seq::empty());
        Session { queue, playing: None, started: 0, paused_at: 0, volume: FULL }
    }

    /// Where the state machine stands.
    pub fn phase(&self) -> (phase: Phase)
        ensures
            phase == self@.phase(),
    {
        match &self.playing {
            None => Phase::Idle,
            Some(track) => if track.playing {
                Phase::Playing
            } else {
                Phase::Paused
            },
        }
    }

    /// How many tracks wait.
    pub fn queue_len(&self) -> (n: usize)
        ensures
            n == self@.queue.len(),
    {
        self.queue.len()
    }

    /// A copy of the queue.
    pub fn queue(&self) -> (queue: Vec<Music>)
        ensures
            tracks_view(queue@) == self@.queue,
    {
        copy_tracks(&self.queue)
    }

    /// A copy of the active track.
    pub fn playing(&self) -> (playing: Option<Music>)
        ensures
            track_view(playing) == self@.playing,
    {
        copy_track(&self.playing)
    }

    /// The volume: the level last set, clamped, and the full level if none
    /// was set.
    pub fn volume(&self) -> (level: u32)
        ensures
            level == self@.volume,
    {
        self.volume
    }

    /// What the worker is to do next in this state.
    pub fn next(&self) -> (next: Next)
        ensures
            next@ == self@.next(),
    {
        if self.playing.is_none() && self.queue.len() > 0 {
            Next::Start(self.queue[0].path.clone())
        } else {
            Next::Await
        }
    }

    fn observe(&mut self, now: u64, drained: bool)
        ensures
            final(self)@ == old(self)@.observed(now, drained),
    {
        match self.playing.take() {
            Some(track) => {
                if !track.playing {
                    self.playing = Some(track);
                } else if !drained {
                    let position: u64 = position_at(self.started, now);
                    self.playing = Some(Music { position, ..track });
                }
            },
            None => {},
        }
    }

    fn device_action(&self, command: &Command) -> (action: Option<DeviceAction>)
        ensures
            action == self@.device_action(command@),
    {
        let phase = self.phase();
        match command {
            Command::Enqueue(_) => None,
            Command::Stop | Command::Skip => match phase {
                Phase::Idle => None,
                _ => Some(DeviceAction::Halt),
            },
            Command::Pause => match phase {
                Phase::Playing => Some(DeviceAction::Pause),
                _ => None,
            },
            Command::Resume => match phase {
                Phase::Paused => Some(DeviceAction::Resume),
                _ => None,
            },
            Command::SetVolume(level) => Some(DeviceAction::SetVolume(clamp(*level))),
        }
    }

    fn apply(&mut self, command: Command, properties: Option<Properties>, now: u64)
        ensures
            final(self)@ == old(self)@.applied(command@, properties_view(properties), now),
    {
        match command {
            Command::Enqueue(path) => {
                let track = Music::pending(path, properties);
                self.queue.push(track);
                assert(self@.queue =~= old(self)@.queue.push(track@));
            },
            Command::Stop => {
                self.queue.clear();
                self.playing = None;
                assert(self@.queue =~= Seq::empty());
            },
            Command::Pause => {
                match self.playing.take() {
                    Some(track) => {
                        if track.playing {
                            let position: u64 = position_at(self.started, now);
                            self.playing = Some(Music { position, playing: false, ..track });
                            self.paused_at = now;
                        } else {
                            self.playing = Some(track);
                        }
                    },
                    None => {},
                }
            },
            Command::Resume => {
                match self.playing.take() {
                    Some(track) => {
                        if !track.playing {
                            self.playing = Some(Music { playing: true, ..track });
                            self.started = resume_start(self.started, self.paused_at, now);
                        } else {
                            self.playing = Some(track);
                        }
                    },
                    None => {},
                }
            },
            Command::Skip => {
                self.playing = None;
            },
            Command::SetVolume(level) => {
                self.volume = clamp(level);
            },
        }
    }

    /// One wakeup of the worker. `now` is the clock's reading and `drained`
    /// says whether the device has no more sound to put out. `properties` is
    /// attached to the track if the wakeup brings a command to add one, and
    /// is dropped otherwise.
    pub fn react(
        &mut self,
        wakeup: Wakeup,
        properties: Option<Properties>,
        now: u64,
        drained: bool,
    ) -> (reaction: Reaction)
        ensures
            final(self)@ == old(self)@.reacted(wakeup@, properties_view(properties), now, drained),
            reaction@ == old(self)@.reaction(wakeup@, properties_view(properties), now, drained),
            old(self)@.wf() ==> final(self)@.wf(),
    {
        self.observe(now, drained);
        let reaction = match wakeup {
            Wakeup::Command(command) => {
                let device = self.device_action(&command);
                self.apply(command, properties, now);
                Reaction { device, next: self.next() }
            },
            Wakeup::Idle => Reaction { device: None, next: self.next() },
            Wakeup::ChannelClosed => {
                let device = self.device_action(&Command::Stop);
                self.apply(Command::Stop, properties, now);
                Reaction { device, next: Next::Terminate }
            },
        };
        reaction
    }

    /// The worker's report that the device has twice failed to carry out
    /// what it was asked to do. The session falls back to `Idle`: the active
    /// track is dropped and the queue is left as it is. The answer names
    /// what to do next, which is to start the head of the queue if a track
    /// waits.
    pub fn device_failed(&mut self) -> (reaction: Reaction)
        ensures
            final(self)@ == old(self)@.abandoned(),
            reaction@ == (ReactionView { device: None, next: old(self)@.abandoned().next() }),
            old(self)@.wf() ==> final(self)@.wf(),
    {
        self.playing = None;
        Reaction { device: None, next: self.next() }
    }

    /// The worker's report on its attempt to start the head of the queue.
    /// The answer never asks anything of the device; it names what to do
    /// next, which is to start the new head where the old one was dropped
    /// and another track waits.
    pub fn settle_start(&mut self, outcome: StartOutcome, now: u64) -> (reaction: Reaction)
        ensures
            final(self)@ == old(self)@.settled(outcome, now),
            reaction@ == (ReactionView { device: None, next: old(self)@.settled(outcome, now).next() }),
            old(self)@.wf() ==> final(self)@.wf(),
    {
        if self.playing.is_none() && self.queue.len() > 0 {
            let head = self.queue.remove(0);
            assert(self@.queue =~= old(self)@.queue.skip(1));
            match outcome {
                StartOutcome::Started => {
                    self.playing = Some(Music { position: 0, playing: true, ..head });
                    self.started = now;
                },
                _ => {},
            }
        }
        let reaction = Reaction { device: None, next: self.next() };
        reaction
    }
}

} // verus!
