//! The listener's side of the bridge: what its callback does with each key
//! transition, and what it reports when something fails.

use crate::channel::lemma_sent_all;
use crate::channel::Channel;
use crate::channel::ChannelState;
use crate::key_event::KeyEvent;
use crate::key_event::KeyEventView;
use vstd::prelude::*;

verus! {

/// The log line for a message that could not be sent.
pub open spec fn send_failure_text(message: Seq<char>) -> Seq<char> {
    "Failed to send: "@ + message
}

/// The log line for a key hook that could not be installed or stopped with
/// an error; `reason` is the platform's description of the failure.
pub open spec fn hook_failure_text(reason: Seq<char>) -> Seq<char> {
    "Listener error: "@ + reason
}

/// The messages that report `events`, one for each and in the same order.
pub open spec fn messages_of(events: Seq<KeyEventView>) -> Seq<Seq<char>> {
    Seq::new(events.len(), |i: int| events[i].message())
}

/// The channel after the callback has seen each of `events`, in order.
pub open spec fn fed(channel: ChannelState, events: Seq<KeyEventView>) -> ChannelState {
    channel.sent_all(messages_of(events))
}

/// Seeing one more transition is one more attempt to send its message.
pub proof fn lemma_fed_one_more(
    channel: ChannelState,
    events: Seq<KeyEventView>,
    event: KeyEventView,
)
    ensures
        fed(channel, events.push(event)) == fed(channel, events).sent(event.message()),
        fed(channel, Seq::empty()) == channel,
{
    let more = messages_of(events.push(event));
    assert(more.drop_last() =~= messages_of(events));
    assert(more.last() == event.message());
    assert(messages_of(Seq::<KeyEventView>::empty()) =~= Seq::<Seq<char>>::empty());
}

/// For every sequence of key transitions that the callback sees while the
/// consumer is there, the channel then holds one message for each of them,
/// in the same order, behind what was pending before: the next drain logs
/// exactly these.
pub proof fn lemma_fed_events_are_pending(channel: ChannelState, events: Seq<KeyEventView>)
    requires
        channel.connected,
    ensures
        fed(channel, events).connected,
        fed(channel, events).pending == channel.pending + messages_of(events),
        fed(channel, events).pending.len() == channel.pending.len() + events.len(),
        fed(channel, events).drained() == channel.drained(),
        forall|i: int|
            0 <= i < events.len() ==> #[trigger] fed(channel, events).pending[channel.pending.len()
                + i] == events[i].message(),
{
    lemma_sent_all(channel, messages_of(events));
}

/// The listener's callback: formats the message for `event` and tries to
/// send it without blocking. A failed send is not an error of the listener:
/// the callback returns the line to log and the listener goes on.
pub fn on_key_event(channel: &mut Channel, event: &KeyEvent) -> (failure: Option<String>)
    ensures
        final(channel)@ == old(channel)@.sent(event@.message()),
        match failure {
            None => old(channel)@.connected,
            Some(line) => !old(channel)@.connected && line@ == send_failure_text(
                event@.message(),
            ),
        },
{
    match channel.send(event.message()) {
        Ok(()) => None,
        Err(error) => {
            let mut line = String::from_str("Failed to send: ");
            line.append(error.message.as_str());
            Some(line)
        },
    }
}

/// The line to log when the key hook fails; the listener then ends, and
/// does not try again.
pub fn on_hook_failure(reason: &str) -> (line: String)
    ensures
        line@ == hook_failure_text(reason@),
{
    let mut line = String::from_str("Listener error: ");
    line.append(reason);
    line
}

} // verus!
