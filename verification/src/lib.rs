//! A bridge between a keyboard listener and a user-interface controller:
//! the listener turns key transitions into text messages and queues them,
//! the controller drains the queue once per tick and counts button clicks.

pub mod app;
pub mod channel;
pub mod decimal;
pub mod key_event;
pub mod listener;
