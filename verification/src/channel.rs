//! The queue between the listener and the controller: unbounded, first in
//! first out, one producer and one consumer.

use std::collections::VecDeque;
use vstd::prelude::*;

verus! {

/// What a channel holds, as a mathematical value.
pub struct ChannelState {
    /// The messages sent and not yet received, oldest first.
    pub pending: Seq<Seq<char>>,
    /// Whether the consumer is still there.
    pub connected: bool,
}

impl ChannelState {
    /// A fresh channel: nothing pending, consumer present.
    pub open spec fn open() -> ChannelState {
        ChannelState { pending: Seq::empty(), connected: true }
    }

    /// A channel without its consumer holds nothing.
    pub open spec fn wf(self) -> bool {
        self.connected || self.pending.len() == 0
    }

    /// The state after an attempt to send `message`: it joins the queue at
    /// the back, unless the consumer is gone.
    pub open spec fn sent(self, message: Seq<char>) -> ChannelState {
        if self.connected {
            ChannelState { pending: self.pending.push(message), connected: true }
        } else {
            self
        }
    }

    /// The state after attempts to send each of `messages`, in order.
    pub open spec fn sent_all(self, messages: Seq<Seq<char>>) -> ChannelState
        decreases messages.len(),
    {
        if messages.len() == 0 {
            self
        } else {
            self.sent_all(messages.drop_last()).sent(messages.last())
        }
    }

    /// The state after one receive: the oldest message is gone.
    pub open spec fn received(self) -> ChannelState {
        if self.pending.len() > 0 {
            ChannelState { pending: self.pending.drop_first(), connected: self.connected }
        } else {
            self
        }
    }

    /// The state after receiving until nothing is pending.
    pub open spec fn drained(self) -> ChannelState {
        ChannelState { pending: Seq::empty(), connected: self.connected }
    }

    /// The state after the consumer has gone: what was pending is lost.
    pub open spec fn disconnected(self) -> ChannelState {
        ChannelState { pending: Seq::empty(), connected: false }
    }
}

/// While the consumer is there every message sent is kept, behind what was
/// pending and in the order of sending; once it is gone, sending changes
/// nothing.
pub proof fn lemma_sent_all(channel: ChannelState, messages: Seq<Seq<char>>)
    ensures
        channel.connected ==> channel.sent_all(messages).pending == channel.pending + messages,
        channel.connected ==> channel.sent_all(messages).connected,
        !channel.connected ==> channel.sent_all(messages) == channel,
        channel.wf() ==> channel.sent_all(messages).wf(),
    decreases messages.len(),
{
    if messages.len() == 0 {
        assert(channel.pending + messages =~= channel.pending);
    } else {
        lemma_sent_all(channel, messages.drop_last());
        assert((channel.pending + messages.drop_last()).push(messages.last()) =~= channel.pending
            + messages);
    }
}

/// Receiving one by one until nothing is pending hands out exactly what was
/// pending, oldest first: the first receive takes the oldest message, and
/// the rest come from what is left.
pub proof fn lemma_received_takes_oldest(channel: ChannelState)
    requires
        channel.pending.len() > 0,
    ensures
        seq![channel.pending[0]] + channel.received().pending == channel.pending,
        channel.received().pending.len() == channel.pending.len() - 1,
        channel.received().drained() == channel.drained(),
{
    assert(seq![channel.pending[0]] + channel.pending.drop_first() =~= channel.pending);
}

/// Draining twice is draining once, and draining a channel with nothing
/// pending changes nothing.
pub proof fn lemma_drained_is_idempotent(channel: ChannelState)
    ensures
        channel.drained().pending.len() == 0,
        channel.drained().drained() == channel.drained(),
        channel.pending.len() == 0 ==> channel.drained() == channel,
        channel.wf() ==> channel.drained().wf(),
{
    if channel.pending.len() == 0 {
        assert(channel.pending =~= Seq::<Seq<char>>::empty());
    }
}

/// A message that could not be delivered because the consumer is gone.
#[derive(Debug, PartialEq, Eq)]
pub struct SendError {
    /// The message, handed back to the sender.
    pub message: String,
}

/// An unbounded first-in-first-out queue of text messages.
pub struct Channel {
    queue: VecDeque<String>,
    connected: bool,
}

impl View for Channel {
    type V = ChannelState;

    closed spec fn view(&self) -> ChannelState {
        ChannelState { pending: self.queue.deep_view(), connected: self.connected }
    }
}

impl Default for Channel {
    fn default() -> (channel: Channel)
        ensures
            channel@ == ChannelState::open(),
    {
        Channel::new()
    }
}

impl Channel {
    /// A fresh channel: nothing pending, consumer present.
    pub fn new() -> (channel: Channel)
        ensures
            channel@ == ChannelState::open(),
            channel@.wf(),
    {
        let channel = Channel { queue: VecDeque::new(), connected: true };
        assert(channel.queue.deep_view() =~= Seq::<Seq<char>>::empty());
        channel
    }

    /// Whether the consumer is still there.
    pub fn is_connected(&self) -> (connected: bool)
        ensures
            connected == self@.connected,
    {
        self.connected
    }

    /// The number of pending messages.
    pub fn len(&self) -> (count: usize)
        ensures
            count == self@.pending.len(),
    {
        self.queue.len()
    }

    /// Whether nothing is pending.
    pub fn is_empty(&self) -> (empty: bool)
        ensures
            empty == (self@.pending.len() == 0),
    {
        self.queue.len() == 0
    }

    /// Queues `message` behind all pending messages without blocking. Fails,
    /// and hands the message back, exactly when the consumer is gone.
    pub fn send(&mut self, message: String) -> (result: Result<(), SendError>)
        ensures
            final(self)@ == old(self)@.sent(message@),
            old(self)@.wf() ==> final(self)@.wf(),
            result is Ok <==> old(self)@.connected,
            result matches Err(error) ==> error.message@ == message@,
    {
        if self.connected {
            let ghost before = self.queue.deep_view();
            self.queue.push_back(message);
            assert(self.queue.deep_view() =~= before.push(message@));
            Ok(())
        } else {
            Err(SendError { message })
        }
    }

    /// Takes the oldest pending message without blocking; `None` exactly
    /// when nothing is pending.
    pub fn try_recv(&mut self) -> (result: Option<String>)
        ensures
            final(self)@ == old(self)@.received(),
            old(self)@.wf() ==> final(self)@.wf(),
            match result {
                Some(message) => old(self)@.pending.len() > 0 && message@ == old(self)@.pending[0],
                None => old(self)@.pending.len() == 0,
            },
    {
        let ghost before = self.queue.deep_view();
        let result = self.queue.pop_front();
        assert(result is Some ==> self.queue.deep_view() =~= before.drop_first());
        result
    }

    /// The consumer goes away: what was pending is lost, and every later
    /// send fails.
    pub fn disconnect(&mut self)
        ensures
            final(self)@ == old(self)@.disconnected(),
            final(self)@.wf(),
    {
        self.queue.clear();
        self.connected = false;
        assert(self.queue.deep_view() =~= Seq::<Seq<char>>::empty());
    }
}

} // verus!
