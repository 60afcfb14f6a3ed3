//! Sending events through channels.
//!
//! A channel is made for one event type. Writers and readers are created by
//! the channel. Events become readable with a flush, and a reader reads each
//! flushed generation once. There may be several readers: reading an event
//! does not consume it for the others.

pub use crate::event_channel::{EventChannel, EventReader, EventWriter};
pub use crate::sync_event_channel::{
    channel_state, law_sides_make_a_channel, wait_any_new, wait_any_new_timeout, EventWaiter,
    PendingSide, ReadableSide, SyncEventBatch, SyncEventChannel, SyncEventReader,
    SyncEventWriter,
};
