//! Event types to send on the channels.

pub use crate::event_types::WindowEvent;
