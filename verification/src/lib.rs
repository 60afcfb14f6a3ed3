//! Generation-based event channels.
//!
//! Events sent on a channel accumulate in a pending buffer. A flush seals
//! them into the readable generation and discards the generation that was
//! readable before. Every reader keeps a cursor of its own and consumes each
//! generation at most once; reading never takes a generation away from
//! another reader.
//!
//! [`channel::EventChannel`] is the single-threaded channel: a plain value
//! whose operations state exactly how its [`model::ChannelState`] changes.
//! [`channel::SyncEventChannel`] shares the same behaviour between threads,
//! with the pending buffer owned by a send lock and the readable generation
//! owned by a read/flush lock.

pub mod channel;
pub mod counter;
pub mod events;
pub mod model;
pub mod signal;
pub mod types;

mod event_channel;
mod event_signal;
mod event_types;
mod locks;
mod sync_event_channel;
