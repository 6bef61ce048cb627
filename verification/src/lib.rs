//! A background playback engine: a queue of audio tracks that plays in order,
//! with pause, resume, skip, stop and volume control, and snapshots of what is
//! playing and what is pending.
//!
//! The engine is a state machine. It never touches an audio device or opens
//! a file, and it never waits: the thread that owns the device hands it what
//! it observed (a command that arrived, the time, whether the output ran dry,
//! whether a track could be started) and carries out what the engine
//! answers.
//!
//! - [`player`] holds the whole engine in one value, [`player::MusicPlayer`]:
//!   what callers call and what the worker calls.
//! - [`session`] is the worker's state machine, [`channel`] the queue of
//!   commands on their way to it, [`action`] the commands.
//! - [`track`] and [`metadata`] are the data: tracks, their records, and what
//!   a reader of tags hands over.
//! - [`timing`] and [`volume`] are the arithmetic of positions and levels.
//! - [`utils`] looks at the disk and the clock and turns tags into records.
//! - [`laws`] states and proves what holds of the engine in every state.

pub mod volume;

pub mod timing;

pub mod track;

pub mod action;

pub mod channel;

pub mod session;

pub mod metadata;

pub mod utils;

pub mod player;

pub mod laws;
