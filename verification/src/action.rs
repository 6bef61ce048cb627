//! Commands: what callers ask of the worker.

use vstd::prelude::*;

verus! {

/// The kinds of action. `Error` is the kind of an action that asks for
/// nothing: it stands where no command is ready.
#[derive(Clone, Copy, Debug, PartialEq, Eq)]
pub enum MusicPlayerActions {
    Error,
    Enqueue,
    Stop,
    Pause,
    Resume,
    Skip,
    Volume,
}

/// An action in its loose form: a kind, and the argument of that kind if it
/// takes one and the sender gave one.
#[derive(Debug, PartialEq, Eq)]
pub struct PlayerAction<T> {
    pub action_type: MusicPlayerActions,
    pub data: Option<T>,
}

impl PlayerAction<String> {
    /// An action of the given kind with the given argument.
    pub fn new(action_type: MusicPlayerActions, data: Option<String>) -> (action: PlayerAction<
        String,
    >)
        ensures
            action.action_type == action_type,
            action.data == data,
    {
        PlayerAction { action_type, data }
    }
}

/// A command in its strict form: each kind carries what it needs and no more.
#[derive(Debug, PartialEq, Eq)]
pub enum Command {
    /// Add the track with this path to the end of the queue.
    Enqueue(String),
    /// Drop the queue and the active track.
    Stop,
    /// Hold the active track.
    Pause,
    /// Let a held track go on.
    Resume,
    /// Drop the active track and go on with the queue.
    Skip,
    /// Set the volume to this level, clamped into the unit range.
    SetVolume(u32),
}

/// The mathematical value of a [`Command`].
pub enum CommandView {
    Enqueue(Seq<char>),
    Stop,
    Pause,
    Resume,
    Skip,
    SetVolume(u32),
}

impl View for Command {
    type V = CommandView;

    open spec fn view(&self) -> CommandView {
        match *self {
            Command::Enqueue(path) => CommandView::Enqueue(path@),
            Command::Stop => CommandView::Stop,
            Command::Pause => CommandView::Pause,
            Command::Resume => CommandView::Resume,
            Command::Skip => CommandView::Skip,
            Command::SetVolume(level) => CommandView::SetVolume(level),
        }
    }
}

impl CommandView {
    /// The kind of this command.
    pub open spec fn kind(self) -> MusicPlayerActions {
        match self {
            CommandView::Enqueue(_) => MusicPlayerActions::Enqueue,
            CommandView::Stop => MusicPlayerActions::Stop,
            CommandView::Pause => MusicPlayerActions::Pause,
            CommandView::Resume => MusicPlayerActions::Resume,
            CommandView::Skip => MusicPlayerActions::Skip,
            CommandView::SetVolume(_) => MusicPlayerActions::Volume,
        }
    }
}

/// Why a loose action has no strict form.
#[derive(Clone, Copy, Debug, PartialEq, Eq)]
pub enum ActionError {
    /// The action is of kind `Error`: it asks for nothing.
    NoCommand,
    /// The action is of kind `Enqueue` and carries no path.
    MissingPath,
    /// The action is of kind `Volume`. A level is a number, and a loose
    /// action carries text: send `Command::SetVolume` instead.
    LevelAsText,
}

/// The strict form of a loose action with the kind `kind` and the argument
/// `data`, or the reason why it has none.
pub open spec fn decoded(kind: MusicPlayerActions, data: Option<Seq<char>>) -> Result<
    CommandView,
    ActionError,
> {
    match kind {
        MusicPlayerActions::Error => Err(ActionError::NoCommand),
        MusicPlayerActions::Enqueue => match data {
            Some(path) => Ok(CommandView::Enqueue(path)),
            None => Err(ActionError::MissingPath),
        },
        MusicPlayerActions::Stop => Ok(CommandView::Stop),
        MusicPlayerActions::Pause => Ok(CommandView::Pause),
        MusicPlayerActions::Resume => Ok(CommandView::Resume),
        MusicPlayerActions::Skip => Ok(CommandView::Skip),
        MusicPlayerActions::Volume => Err(ActionError::LevelAsText),
    }
}

/// The value of the outcome of decoding.
pub open spec fn decoding_view(outcome: Result<Command, ActionError>) -> Result<
    CommandView,
    ActionError,
> {
    match outcome {
        Ok(command) => Ok(command@),
        Err(e) => Err(e),
    }
}

impl Command {
    /// The kind of this command.
    pub fn kind(&self) -> (kind: MusicPlayerActions)
        ensures
            kind == self@.kind(),
            kind != MusicPlayerActions::Error,
    {
        match self {
            Command::Enqueue(_) => MusicPlayerActions::Enqueue,
            Command::Stop => MusicPlayerActions::Stop,
            Command::Pause => MusicPlayerActions::Pause,
            Command::Resume => MusicPlayerActions::Resume,
            Command::Skip => MusicPlayerActions::Skip,
            Command::SetVolume(_) => MusicPlayerActions::Volume,
        }
    }

    /// Turns a loose action into a command. The kinds that take no argument
    /// drop one that was given.
    pub fn from_action(action: PlayerAction<String>) -> (outcome: Result<Command, ActionError>)
        ensures
            decoding_view(outcome) == decoded(action.action_type, crate::track::text_view(action.data)),
    {
        match action.action_type {
            MusicPlayerActions::Error => Err(ActionError::NoCommand),
            MusicPlayerActions::Enqueue => match action.data {
                Some(path) => Ok(Command::Enqueue(path)),
                None => Err(ActionError::MissingPath),
            },
            MusicPlayerActions::Stop => Ok(Command::Stop),
            MusicPlayerActions::Pause => Ok(Command::Pause),
            MusicPlayerActions::Resume => Ok(Command::Resume),
            MusicPlayerActions::Skip => Ok(Command::Skip),
            MusicPlayerActions::Volume => Err(ActionError::LevelAsText),
        }
    }
}

impl Clone for Command {
    fn clone(&self) -> (copy: Command)
        ensures
            copy@ == self@,
    {
        match self {
            Command::Enqueue(path) => Command::Enqueue(path.clone()),
            Command::Stop => Command::Stop,
            Command::Pause => Command::Pause,
            Command::Resume => Command::Resume,
            Command::Skip => Command::Skip,
            Command::SetVolume(level) => Command::SetVolume(*level),
        }
    }
}

/// Why the worker woke up.
#[derive(Debug, PartialEq, Eq)]
pub enum Wakeup {
    /// A command arrived.
    Command(Command),
    /// The wait ran out with no command: a tick of the worker's own.
    Idle,
    /// The channel is closed and holds nothing more.
    ChannelClosed,
}

/// The mathematical value of a [`Wakeup`].
pub enum WakeupView {
    Command(CommandView),
    Idle,
    ChannelClosed,
}

impl View for Wakeup {
    type V = WakeupView;

    open spec fn view(&self) -> WakeupView {
        match *self {
            Wakeup::Command(command) => WakeupView::Command(command@),
            Wakeup::Idle => WakeupView::Idle,
            Wakeup::ChannelClosed => WakeupView::ChannelClosed,
        }
    }
}

impl WakeupView {
    /// The kind of action that this wakeup brings: that of its command, and
    /// `Error` where it brings none.
    pub open spec fn kind(self) -> MusicPlayerActions {
        match self {
            WakeupView::Command(command) => command.kind(),
            _ => MusicPlayerActions::Error,
        }
    }
}

impl Wakeup {
    /// The kind of action that this wakeup brings.
    pub fn kind(&self) -> (kind: MusicPlayerActions)
        ensures
            kind == self@.kind(),
    {
        match self {
            Wakeup::Command(command) => command.kind(),
            _ => MusicPlayerActions::Error,
        }
    }
}

} // verus!
