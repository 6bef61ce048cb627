//! The action channel: commands on their way from the callers to the worker.
//!
//! The channel has no bound and keeps the order of sending. It is a plain
//! value: where callers and the worker run on threads of their own, the one
//! who shares it between them guards it with a lock.

use crate::action::{Command, CommandView, Wakeup, WakeupView};
use std::collections::VecDeque;
use vstd::prelude::*;

verus! {

/// Commands that were sent and not yet received, oldest first.
pub struct ActionChannel {
    pending: VecDeque<Command>,
    closed: bool,
}

/// The mathematical value of an [`ActionChannel`].
pub struct ChannelView {
    /// What was sent and not yet received, oldest first.
    pub pending: Seq<CommandView>,
    /// Whether the channel was closed.
    pub closed: bool,
}

/// A command could not be sent: the channel is closed, which means that the
/// worker is gone. Nothing will bring it back but a new player.
#[derive(Clone, Copy, Debug, PartialEq, Eq)]
pub struct ChannelClosed;

impl View for ActionChannel {
    type V = ChannelView;

    closed spec fn view(&self) -> ChannelView {
        ChannelView {
            pending: self.pending@.map_values(|c: Command| c@),
            closed: self.closed,
        }
    }
}

impl ChannelView {
    /// An open channel that holds nothing.
    pub open spec fn empty() -> ChannelView {
        ChannelView { pending: Seq::empty(), closed: false }
    }

    /// The channel after an attempt to send `command`: with the command at
    /// its end, or unchanged where it is closed.
    pub open spec fn sent(self, command: CommandView) -> ChannelView {
        if self.closed {
            self
        } else {
            ChannelView { pending: self.pending.push(command), ..self }
        }
    }

    /// The answer to an attempt to send: an error if and only if the channel
    /// is closed.
    pub open spec fn acknowledged(self) -> Result<(), ChannelClosed> {
        if self.closed {
            Err(ChannelClosed)
        } else {
            Ok(())
        }
    }

    /// What the worker finds when it looks: the oldest command; else, on a
    /// closed channel, that it is closed; else nothing.
    pub open spec fn wakeup(self) -> WakeupView {
        if self.pending.len() > 0 {
            WakeupView::Command(self.pending[0])
        } else if self.closed {
            WakeupView::ChannelClosed
        } else {
            WakeupView::Idle
        }
    }

    /// The channel after the worker has looked: without its oldest command.
    pub open spec fn received(self) -> ChannelView {
        if self.pending.len() > 0 {
            ChannelView { pending: self.pending.skip(1), ..self }
        } else {
            self
        }
    }

    /// The channel after `n` looks.
    pub open spec fn received_times(self, n: nat) -> ChannelView
        decreases n,
    {
        if n == 0 {
            self
        } else {
            self.received().received_times((n - 1) as nat)
        }
    }

    /// The channel after it was closed. What it holds stays to be received.
    pub open spec fn shut(self) -> ChannelView {
        ChannelView { closed: true, ..self }
    }
}

impl ActionChannel {
    /// An open channel that holds nothing.
    pub fn new() -> (channel: ActionChannel)
        ensures
            channel@ == ChannelView::empty(),
    {
        let channel = ActionChannel { pending: VecDeque::new(), closed: false };
        assert(channel@.pending =~= Seq::empty());
        channel
    }

    /// Whether the channel was closed.
    pub fn is_closed(&self) -> (closed: bool)
        ensures
            closed == self@.closed,
    {
        self.closed
    }

    /// How many commands wait to be received.
    pub fn len(&self) -> (n: usize)
        ensures
            n == self@.pending.len(),
    {
        self.pending.len()
    }

    /// Sends a command. Never waits. Fails, and changes nothing, if and only
    /// if the channel is closed.
    pub fn send(&mut self, command: Command) -> (sent: Result<(), ChannelClosed>)
        ensures
            final(self)@ == old(self)@.sent(command@),
            sent == old(self)@.acknowledged(),
    {
        if self.closed {
            Err(ChannelClosed)
        } else {
            self.pending.push_back(command);
            assert(self@.pending =~= old(self)@.pending.push(command@));
            Ok(())
        }
    }

    /// Takes the oldest command out, if there is one, and tells why the
    /// worker woke up. Never waits: the wait for a command to arrive, with
    /// its limit, lies with the one who calls this.
    pub fn receive(&mut self) -> (wakeup: Wakeup)
        ensures
            wakeup@ == old(self)@.wakeup(),
            final(self)@ == old(self)@.received(),
    {
        match self.pending.pop_front() {
            Some(command) => {
                assert(self@.pending =~= old(self)@.pending.skip(1));
                assert(old(self)@.pending[0] == command@);
                Wakeup::Command(command)
            },
            None => {
                assert(self@.pending =~= old(self)@.pending);
                if self.closed {
                    Wakeup::ChannelClosed
                } else {
                    Wakeup::Idle
                }
            },
        }
    }

    /// Closes the channel. From now on every send fails; what the channel
    /// holds can still be received.
    pub fn close(&mut self)
        ensures
            final(self)@ == old(self)@.shut(),
    {
        self.closed = true;
    }
}

/// First in, first out: the command sent now is received after all those
/// that wait already, and they in the order in which they wait.
pub proof fn lemma_channel_keeps_order(channel: ChannelView, command: CommandView, k: nat)
    requires
        !channel.closed,
        k <= channel.pending.len(),
    ensures
        channel.sent(command).received_times(k).wakeup() == if k < channel.pending.len() {
            WakeupView::Command(channel.pending[k as int])
        } else {
            WakeupView::Command(command)
        },
        channel.sent(command).received_times(k).pending == channel.pending.skip(k as int).push(
            command,
        ),
    decreases k,
{
    if k == 0 {
        assert(channel.pending.skip(0) =~= channel.pending);
    } else {
        let rest = ChannelView { pending: channel.pending.skip(1), ..channel };
        assert(channel.sent(command).received().pending =~= rest.sent(command).pending);
        assert(channel.sent(command).received() == rest.sent(command));
        lemma_channel_keeps_order(rest, command, (k - 1) as nat);
        assert(rest.pending.skip(k - 1) =~= channel.pending.skip(k as int));
    }
}

} // verus!
