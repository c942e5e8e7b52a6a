//! The controller's side of the bridge: it drains the channel once per tick
//! and counts button clicks.

use crate::channel::Channel;
use crate::decimal::append_decimal;
use crate::decimal::decimal;
use vstd::prelude::*;

verus! {

/// The text shown for a counter that stands at `value`.
pub open spec fn counter_text(value: nat) -> Seq<char> {
    "Counter: "@ + decimal(value)
}

/// The controller's state as a mathematical value.
pub struct AppState {
    /// The number of clicks counted so far.
    pub counter: nat,
    /// Whether the listener has been started.
    pub listening: bool,
}

impl AppState {
    /// The state of a controller that has counted nothing.
    pub open spec fn initial() -> AppState {
        AppState { counter: 0, listening: false }
    }

    /// The state after startup: the listener has been started.
    pub open spec fn started(self) -> AppState {
        AppState { counter: self.counter, listening: true }
    }

    /// The state after one more click.
    pub open spec fn clicked(self) -> AppState {
        AppState { counter: self.counter + 1, listening: self.listening }
    }

    /// The state after `k` more clicks.
    pub open spec fn after_clicks(self, k: nat) -> AppState
        decreases k,
    {
        if k == 0 {
            self
        } else {
            self.after_clicks((k - 1) as nat).clicked()
        }
    }

    /// The text shown for this state.
    pub open spec fn display(self) -> Seq<char> {
        counter_text(self.counter)
    }
}

/// After `k` clicks the counter stands `k` higher than before, and the text
/// shown after the `k`-th click is that of the earlier value plus `k`.
pub proof fn lemma_after_clicks(start: AppState, k: nat)
    ensures
        start.after_clicks(k).counter == start.counter + k,
        start.after_clicks(k).listening == start.listening,
        start.after_clicks(k).display() == counter_text(start.counter + k),
        k > 0 ==> start.after_clicks(k) == start.after_clicks((k - 1) as nat).clicked(),
    decreases k,
{
    if k > 0 {
        lemma_after_clicks(start, (k - 1) as nat);
    }
}

/// What the controller asks for at startup.
#[derive(Debug, PartialEq, Eq)]
pub struct Startup {
    /// The line to log.
    pub line: String,
    /// Whether the listener thread is to be started now.
    pub start_listener: bool,
}

/// The controller: owns the click counter and knows whether the listener
/// has been started.
pub struct App {
    counter: usize,
    listening: bool,
}

impl View for App {
    type V = AppState;

    closed spec fn view(&self) -> AppState {
        AppState { counter: self.counter as nat, listening: self.listening }
    }
}

impl Default for App {
    fn default() -> (app: App)
        ensures
            app@ == AppState::initial(),
    {
        App { counter: 0, listening: false }
    }
}

/// The text shown for a counter that stands at `value`.
pub fn counter_line(value: usize) -> (text: String)
    ensures
        text@ == counter_text(value as nat),
{
    let mut text = String::from_str("Counter: ");
    append_decimal(&mut text, value);
    text
}

impl App {
    /// A controller that has counted nothing.
    pub fn new() -> (app: App)
        ensures
            app@ == AppState::initial(),
    {
        App { counter: 0, listening: false }
    }

    /// The number of clicks counted so far.
    pub fn counter(&self) -> (value: usize)
        ensures
            value == self@.counter,
    {
        self.counter
    }

    /// Whether the listener has been started.
    pub fn is_listening(&self) -> (listening: bool)
        ensures
            listening == self@.listening,
    {
        self.listening
    }

    /// Called when the program starts: returns the line to log and asks for
    /// the listener thread, which is started once and never again.
    pub fn handle_startup(&mut self) -> (startup: Startup)
        ensures
            final(self)@ == old(self)@.started(),
            startup.line@ == "App started"@,
            startup.start_listener == !old(self)@.listening,
    {
        let start_listener = !self.listening;
        self.listening = true;
        Startup { line: String::from_str("App started"), start_listener }
    }

    /// Called with the user-interface actions of one tick; `clicked` says
    /// whether the button was clicked. A click adds one to the counter and
    /// returns the new text to show; without a click nothing changes.
    pub fn handle_actions(&mut self, clicked: bool) -> (shown: Option<String>)
        requires
            clicked ==> old(self)@.counter < usize::MAX,
        ensures
            clicked ==> final(self)@ == old(self)@.clicked(),
            clicked ==> (shown matches Some(text) && text@ == final(self)@.display()),
            !clicked ==> final(self)@ == old(self)@ && shown is None,
    {
        if clicked {
            self.counter = self.counter + 1;
            Some(counter_line(self.counter))
        } else {
            None
        }
    }

    /// Called once per tick: receives from `channel`, without blocking,
    /// until nothing is pending, and returns the messages to log, oldest
    /// first. The counter is not touched.
    pub fn handle_event(&mut self, channel: &mut Channel) -> (log: Vec<String>)
        ensures
            final(self)@ == old(self)@,
            final(channel)@ == old(channel)@.drained(),
            log.deep_view() == old(channel)@.pending,
            log@.len() == old(channel)@.pending.len(),
            forall|i: int|
                0 <= i < log@.len() ==> (#[trigger] log@[i])@ == old(channel)@.pending[i],
            old(channel)@.pending.len() == 0 ==> log@.len() == 0 && final(channel)@ == old(
                channel,
            )@,
    {
        let mut log: Vec<String> = Vec::new();
        assert(log.deep_view() + channel@.pending =~= old(channel)@.pending);
        loop
            invariant
                log.deep_view() + channel@.pending == old(channel)@.pending,
                channel@.connected == old(channel)@.connected,
            ensures
                channel@.pending.len() == 0,
                log.deep_view() == old(channel)@.pending,
                channel@.connected == old(channel)@.connected,
            decreases channel@.pending.len(),
        {
            let ghost logged = log.deep_view();
            let ghost pending = channel@.pending;
            match channel.try_recv() {
                Some(message) => {
                    log.push(message);
                    assert(log.deep_view() =~= logged.push(pending[0]));
                    assert(log.deep_view() + channel@.pending =~= logged + pending);
                },
                None => {
                    assert(logged + pending =~= logged);
                    break;
                },
            }
        }
        assert(channel@.pending =~= Seq::<Seq<char>>::empty());
        assert forall|i: int| 0 <= i < log@.len() implies (#[trigger] log@[i])@ == old(
            channel,
        )@.pending[i] by {
            assert(log.deep_view()[i] == log@[i]@);
        }
        log
    }
}

} // verus!
