//! The single-threaded channel and its handles.

use crate::counter::EventCounter;
use crate::model::ChannelState;
use std::marker::PhantomData;
use vstd::prelude::*;
use vstd::slice::slice_subrange;

verus! {

/// Names the buffer that serves reads. The other one collects sends.
#[derive(Debug)]
pub(crate) enum ReadableEventBuffer {
    A,
    B,
}

/// Single-threaded event channel.
///
/// Two buffers take turns: one is readable, the other is pending and
/// receives what is sent. A flush swaps the roles. The channel is a plain
/// value; its handles take it as an argument where they act on it.
pub struct EventChannel<T> {
    events_a: Vec<T>,
    events_b: Vec<T>,
    start_idx_a: EventCounter,
    start_idx_b: EventCounter,
    readable_buffer: ReadableEventBuffer,
    writers: usize,
}

/// Single-threaded event writer, created by [`EventChannel::get_writer`].
///
/// Holding one is what allows sending; the channel counts the writers that
/// were created and not yet released.
pub struct EventWriter<T> {
    channel_type: PhantomData<T>,
}

/// Single-threaded event reader, created by [`EventChannel::get_reader`].
///
/// Owns the cursor that says which generation it has consumed.
pub struct EventReader<T> {
    read_events: usize,
    channel_type: PhantomData<T>,
}

impl<T> View for EventChannel<T> {
    type V = ChannelState<T>;

    closed spec fn view(&self) -> ChannelState<T> {
        match self.readable_buffer {
            ReadableEventBuffer::A => ChannelState {
                readable: self.events_a@,
                pending: self.events_b@,
                readable_count: self.start_idx_a@,
                pending_count: self.start_idx_b@,
            },
            ReadableEventBuffer::B => ChannelState {
                readable: self.events_b@,
                pending: self.events_a@,
                readable_count: self.start_idx_b@,
                pending_count: self.start_idx_a@,
            },
        }
    }
}

impl<T> EventChannel<T> {
    /// The number of writers created and not released.
    pub closed spec fn writers(&self) -> nat {
        self.writers as nat
    }

    /// Creates an empty event channel.
    pub fn new() -> (channel: EventChannel<T>)
        ensures
            channel@ == ChannelState::<T>::empty(),
            channel.writers() == 0,
    {
        EventChannel {
            events_a: Vec::new(),
            events_b: Vec::new(),
            start_idx_a: EventCounter::new(),
            start_idx_b: EventCounter::new(),
            readable_buffer: ReadableEventBuffer::A,
            writers: 0,
        }
    }

    /// Creates an empty event channel whose two counters start at `start`
    /// instead of zero.
    pub fn starting_at(start: usize) -> (channel: EventChannel<T>)
        requires
            start < usize::MAX,
        ensures
            channel@ == (ChannelState::<T> {
                readable: Seq::empty(),
                pending: Seq::empty(),
                readable_count: start as nat,
                pending_count: start as nat,
            }),
            channel.writers() == 0,
    {
        EventChannel {
            events_a: Vec::new(),
            events_b: Vec::new(),
            start_idx_a: EventCounter::starting_at(start),
            start_idx_b: EventCounter::starting_at(start),
            readable_buffer: ReadableEventBuffer::A,
            writers: 0,
        }
    }

    /// Whether the pending counter can count one more event, which is what
    /// a send needs.
    pub fn can_send(&self) -> (yes: bool)
        ensures
            yes == (self@.pending_count + 1 < usize::MAX),
    {
        match self.readable_buffer {
            ReadableEventBuffer::A => self.start_idx_b.can_advance(),
            ReadableEventBuffer::B => self.start_idx_a.can_advance(),
        }
    }

    /// Sends the event on the channel: appends it to the pending buffer and
    /// counts it.
    pub(crate) fn send(&mut self, e: T)
        requires
            old(self)@.pending_count + 1 < usize::MAX,
        ensures
            final(self)@ == old(self)@.send(e),
            final(self).writers() == old(self).writers(),
    {
        match self.readable_buffer {
            ReadableEventBuffer::A => {
                self.events_b.push(e);
                self.start_idx_b.advance();
            },
            ReadableEventBuffer::B => {
                self.events_a.push(e);
                self.start_idx_a.advance();
            },
        }
    }

    /// Flushes the events on the channel.
    ///
    /// Makes the events sent since the last flush readable and drops the
    /// events that were readable before: only the generation flushed last
    /// can ever be read.
    pub fn flush(&mut self)
        ensures
            final(self)@ == old(self)@.flush(),
            final(self).writers() == old(self).writers(),
    {
        match self.readable_buffer {
            ReadableEventBuffer::A => {
                self.events_a.clear();
                self.readable_buffer = ReadableEventBuffer::B;
                self.start_idx_a.rebase(&self.start_idx_b);
            },
            ReadableEventBuffer::B => {
                self.events_b.clear();
                self.readable_buffer = ReadableEventBuffer::A;
                self.start_idx_b.rebase(&self.start_idx_a);
            },
        }
    }

    /// Creates a writer for this channel and counts it.
    pub fn get_writer(&mut self) -> (writer: EventWriter<T>)
        requires
            old(self).writers() < usize::MAX,
        ensures
            final(self).writers() == old(self).writers() + 1,
            final(self)@ == old(self)@,
    {
        self.writers = self.writers + 1;
        EventWriter { channel_type: PhantomData }
    }

    /// Creates a reader for this channel. It has consumed nothing.
    pub fn get_reader(&self) -> (reader: EventReader<T>)
        ensures
            reader.cursor() == 0,
    {
        EventReader { read_events: 0, channel_type: PhantomData }
    }

    /// Whether a writer was created and not released.
    pub(crate) fn has_writers(&self) -> (yes: bool)
        ensures
            yes == (self.writers() != 0),
    {
        self.writers != 0
    }

    /// Takes a writer off the count.
    pub(crate) fn writer_released(&mut self)
        ensures
            final(self).writers() == if old(self).writers() > 0 {
                old(self).writers() - 1
            } else {
                0
            },
            final(self)@ == old(self)@,
    {
        if self.writers > 0 {
            self.writers = self.writers - 1;
        }
    }

    /// The readable generation.
    fn readable_events(&self) -> (events: &[T])
        ensures
            events@ == self@.readable,
    {
        match self.readable_buffer {
            ReadableEventBuffer::A => self.events_a.as_slice(),
            ReadableEventBuffer::B => self.events_b.as_slice(),
        }
    }

    /// Whether a reader with this cursor has yet to consume the readable
    /// generation.
    fn has_unread(&self, cursor: usize) -> (yes: bool)
        ensures
            yes == self@.has_unread(cursor as nat),
    {
        match self.readable_buffer {
            ReadableEventBuffer::A => self.start_idx_a.reaches(cursor),
            ReadableEventBuffer::B => self.start_idx_b.reaches(cursor),
        }
    }

    /// The cursor of a reader that has consumed the readable generation.
    fn cursor_past_readable(&self) -> (cursor: usize)
        ensures
            cursor == self@.readable_count + 1,
    {
        match self.readable_buffer {
            ReadableEventBuffer::A => self.start_idx_a.cursor_past(),
            ReadableEventBuffer::B => self.start_idx_b.cursor_past(),
        }
    }
}

impl<T> Default for EventChannel<T> {
    fn default() -> (channel: EventChannel<T>)
        ensures
            channel@ == ChannelState::<T>::empty(),
            channel.writers() == 0,
    {
        EventChannel::new()
    }
}

impl<T> EventWriter<T> {
    /// Sends the event to the channel.
    pub fn send(&self, channel: &mut EventChannel<T>, event: T)
        requires
            old(channel)@.pending_count + 1 < usize::MAX,
        ensures
            final(channel)@ == old(channel)@.send(event),
            final(channel).writers() == old(channel).writers(),
    {
        channel.send(event);
    }

    /// Gives the writer up: the channel counts one writer less.
    pub fn release(self, channel: &mut EventChannel<T>)
        ensures
            final(channel).writers() == if old(channel).writers() > 0 {
                old(channel).writers() - 1
            } else {
                0
            },
            final(channel)@ == old(channel)@,
    {
        channel.writer_released();
    }
}

impl<T> EventReader<T> {
    /// The reader's cursor: one past the counter of the generation it
    /// consumed last, 0 before the first read.
    pub closed spec fn cursor(&self) -> nat {
        self.read_events as nat
    }

    /// Reads all unread events from this channel.
    ///
    /// Yields the whole readable generation, or nothing if this reader has
    /// consumed that generation already. The generation counts as consumed
    /// as a whole.
    pub fn read<'a>(&mut self, channel: &'a EventChannel<T>) -> (events: &'a [T])
        ensures
            events@ == channel@.read(old(self).cursor()),
            final(self).cursor() == channel@.cursor_after_read(old(self).cursor()),
    {
        let readable = channel.readable_events();
        if channel.has_unread(self.read_events) {
            self.read_events = channel.cursor_past_readable();
            readable
        } else {
            slice_subrange(readable, 0, 0)
        }
    }

    /// Initiates a flush on the channel, see [`EventChannel::flush`].
    pub fn flush_channel(&self, channel: &mut EventChannel<T>)
        ensures
            final(channel)@ == old(channel)@.flush(),
            final(channel).writers() == old(channel).writers(),
    {
        channel.flush();
    }

    /// Checks if there are any writers connected to the channel.
    pub fn channel_has_writers(&self, channel: &EventChannel<T>) -> (yes: bool)
        ensures
            yes == (channel.writers() != 0),
    {
        channel.has_writers()
    }
}

} // verus!
