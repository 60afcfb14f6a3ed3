//! Sending signals to waiting threads.
//!
//! Waiting always parks the current thread until the next signal, whether
//! or not the event was signalled before.

pub use crate::event_signal::{add_waiter, signal_waiters, unparker_of, SignalEvent};
