//! The thread-safe channel, its handles, and waiting on several channels.
//!
//! The channel's state is split by the lock that owns it. The send lock
//! owns the pending buffer and the list of threads that wait for a send;
//! the read/flush lock owns the readable generation and the list of threads
//! that wait for a flush. [`PendingSide`] and [`ReadableSide`] are those two
//! halves as plain values: their operations state exactly what they do.
//! [`SyncEventChannel`] puts each half under its lock.

use crate::counter::EventCounter;
use crate::event_signal::{add_waiter, new_parker, park, park_timeout, signal_waiters};
use crate::locks::{
    exclusive_locked_mut, lock_exclusive, lock_mutex, lock_shared, mutex_locked_mut, new_mutex,
    new_rwlock, shared_locked_ref, SharedLocked,
};
use crate::model::ChannelState;
use crossbeam::sync::{Parker, Unparker};
use std::sync::atomic::{AtomicUsize, Ordering};
use vstd::prelude::*;
use vstd::slice::slice_subrange;

verus! {

/// What the send lock owns: the pending buffer with its counter, and the
/// wake-handles of the threads that wait for the next send.
pub struct PendingSide<T> {
    events: Vec<T>,
    count: EventCounter,
    waiters: Vec<Unparker>,
}

/// What the read/flush lock owns: the readable generation with its counter,
/// and the wake-handles of the threads that wait for the next flush.
pub struct ReadableSide<T> {
    events: Vec<T>,
    count: EventCounter,
    waiters: Vec<Unparker>,
}

/// The channel that the two halves make up.
pub open spec fn channel_state<T>(readable: ReadableSide<T>, pending: PendingSide<T>)
    -> ChannelState<T> {
    ChannelState {
        readable: readable.events(),
        pending: pending.events(),
        readable_count: readable.count(),
        pending_count: pending.count(),
    }
}

/// The two halves behave as the channel that they make up: a send on the
/// pending side is a send on that channel, and what the readable side says
/// of a cursor is what the channel says of it.
pub proof fn law_sides_make_a_channel<T>(
    readable: ReadableSide<T>,
    pending: PendingSide<T>,
    sent: PendingSide<T>,
    e: T,
    cursor: nat,
)
    requires
        sent.events() == pending.events().push(e),
        sent.count() == pending.count() + 1,
    ensures
        channel_state(readable, sent) == channel_state(readable, pending).send(e),
        channel_state(readable, pending).has_unread(cursor) == (cursor <= readable.count()),
        channel_state(readable, pending).read(cursor) == if cursor <= readable.count() {
            readable.events()
        } else {
            Seq::<T>::empty()
        },
        channel_state(readable, pending).cursor_after_read(cursor) == if cursor
            <= readable.count() {
            readable.count() + 1
        } else {
            cursor
        },
{
}

impl<T> PendingSide<T> {
    /// The events sent since the last flush.
    pub closed spec fn events(&self) -> Seq<T> {
        self.events@
    }

    /// The pending counter.
    pub closed spec fn count(&self) -> nat {
        self.count@
    }

    /// The handles registered for the next send, oldest first.
    pub closed spec fn waiters(&self) -> Seq<Unparker> {
        self.waiters@
    }

    /// An empty pending buffer that nobody waits for.
    pub fn new() -> (side: PendingSide<T>)
        ensures
            side.events() == Seq::<T>::empty(),
            side.count() == 0,
            side.waiters() == Seq::<Unparker>::empty(),
    {
        PendingSide { events: Vec::new(), count: EventCounter::new(), waiters: Vec::new() }
    }

    /// An empty pending buffer whose counter starts at `start` instead of
    /// zero.
    pub fn starting_at(start: usize) -> (side: PendingSide<T>)
        requires
            start < usize::MAX,
        ensures
            side.events() == Seq::<T>::empty(),
            side.count() == start,
            side.waiters() == Seq::<Unparker>::empty(),
    {
        PendingSide {
            events: Vec::new(),
            count: EventCounter::starting_at(start),
            waiters: Vec::new(),
        }
    }

    /// Whether events were sent since the last flush.
    pub fn has_new_events(&self) -> (yes: bool)
        ensures
            yes == (self.events().len() > 0),
    {
        self.events.len() > 0
    }

    /// The number of events sent since the last flush.
    pub fn len(&self) -> (n: usize)
        ensures
            n == self.events().len(),
    {
        self.events.len()
    }

    /// The number of handles registered for the next send.
    pub fn waiter_count(&self) -> (n: usize)
        ensures
            n == self.waiters().len(),
    {
        self.waiters.len()
    }

    /// Appends the event, counts it, and wakes and forgets the threads that
    /// wait for a send. Where the counter cannot count one more event, the
    /// event is refused and nothing changes.
    pub fn send(&mut self, e: T) -> (sent: bool)
        ensures
            sent == (old(self).count() + 1 < usize::MAX),
            sent ==> final(self).events() == old(self).events().push(e),
            sent ==> final(self).count() == old(self).count() + 1,
            sent ==> final(self).waiters() == Seq::<Unparker>::empty(),
            !sent ==> final(self).events() == old(self).events(),
            !sent ==> final(self).count() == old(self).count(),
            !sent ==> final(self).waiters() == old(self).waiters(),
    {
        if self.count.can_advance() {
            self.events.push(e);
            self.count.advance();
            signal_waiters(&mut self.waiters);
            true
        } else {
            false
        }
    }

    /// Registers the wake-handle of `p` for the next send, unless events are
    /// pending already: then nothing is registered.
    pub fn register_unless_pending(&mut self, p: &Parker) -> (registered: bool)
        ensures
            registered == (old(self).events().len() == 0),
            final(self).events() == old(self).events(),
            final(self).count() == old(self).count(),
            final(self).waiters() == if registered {
                old(self).waiters().push(crate::event_signal::unparker_of(*p))
            } else {
                old(self).waiters()
            },
    {
        if self.has_new_events() {
            false
        } else {
            add_waiter(&mut self.waiters, p);
            true
        }
    }

    /// What a thread that waits for new events has to park on: nothing if
    /// events are pending already, else a new parker whose wake-handle is
    /// now registered for the next send.
    pub fn await_send(&mut self) -> (parker: Option<Parker>)
        ensures
            parker.is_none() == (old(self).events().len() > 0),
            final(self).events() == old(self).events(),
            final(self).count() == old(self).count(),
            final(self).waiters() == match parker {
                Some(p) => old(self).waiters().push(crate::event_signal::unparker_of(p)),
                None => old(self).waiters(),
            },
    {
        if self.has_new_events() {
            None
        } else {
            let p = new_parker();
            add_waiter(&mut self.waiters, &p);
            Some(p)
        }
    }

    /// Wakes and forgets the threads that wait for a send.
    pub fn signal(&mut self)
        ensures
            final(self).waiters() == Seq::<Unparker>::empty(),
            final(self).events() == old(self).events(),
            final(self).count() == old(self).count(),
        opens_invariants none
        no_unwind
    {
        signal_waiters(&mut self.waiters);
    }
}

impl<T> ReadableSide<T> {
    /// The readable generation.
    pub closed spec fn events(&self) -> Seq<T> {
        self.events@
    }

    /// The readable counter.
    pub closed spec fn count(&self) -> nat {
        self.count@
    }

    /// The handles registered for the next flush, oldest first.
    pub closed spec fn waiters(&self) -> Seq<Unparker> {
        self.waiters@
    }

    /// An empty generation that nobody waits for.
    pub fn new() -> (side: ReadableSide<T>)
        ensures
            side.events() == Seq::<T>::empty(),
            side.count() == 0,
            side.waiters() == Seq::<Unparker>::empty(),
    {
        ReadableSide { events: Vec::new(), count: EventCounter::new(), waiters: Vec::new() }
    }

    /// The number of events in the readable generation.
    pub fn len(&self) -> (n: usize)
        ensures
            n == self.events().len(),
    {
        self.events.len()
    }

    /// The number of handles registered for the next flush.
    pub fn waiter_count(&self) -> (n: usize)
        ensures
            n == self.waiters().len(),
    {
        self.waiters.len()
    }

    /// Whether a reader with this cursor has yet to consume the readable
    /// generation.
    pub fn has_unread(&self, cursor: usize) -> (yes: bool)
        ensures
            yes == (cursor <= self.count()),
    {
        self.count.reaches(cursor)
    }

    /// Marks the readable generation as consumed by the reader that owns
    /// `cursor`, and says whether it was unread.
    pub fn consume(&self, cursor: &mut usize) -> (fresh: bool)
        ensures
            fresh == (*old(cursor) <= self.count()),
            fresh ==> *final(cursor) == self.count() + 1,
            !fresh ==> *final(cursor) == *old(cursor),
    {
        if self.count.reaches(*cursor) {
            *cursor = self.count.cursor_past();
            true
        } else {
            false
        }
    }

    /// What a read yields: the readable generation where it was unread,
    /// else nothing.
    pub fn generation(&self, fresh: bool) -> (events: &[T])
        ensures
            events@ == if fresh {
                self.events()
            } else {
                Seq::<T>::empty()
            },
    {
        if fresh {
            self.events.as_slice()
        } else {
            slice_subrange(self.events.as_slice(), 0, 0)
        }
    }

    /// Flushes: the pending events become the readable generation, the
    /// generation that was readable is dropped, the pending buffer starts
    /// empty with the counter of the new generation, and the threads that
    /// wait for a flush are woken and forgotten.
    pub fn flush_from(&mut self, pending: &mut PendingSide<T>)
        ensures
            channel_state(*final(self), *final(pending)) == channel_state(
                *old(self),
                *old(pending),
            ).flush(),
            final(self).waiters() == Seq::<Unparker>::empty(),
            final(pending).waiters() == old(pending).waiters(),
    {
        core::mem::swap(&mut self.events, &mut pending.events);
        pending.events.clear();
        self.count.rebase(&pending.count);
        signal_waiters(&mut self.waiters);
    }

    /// What a thread that waits for a flush has to park on: nothing if the
    /// reader with this cursor has an unread generation already, else a new
    /// parker whose wake-handle is now registered for the next flush.
    pub fn await_flush(&mut self, cursor: usize) -> (parker: Option<Parker>)
        ensures
            parker.is_none() == (cursor <= old(self).count()),
            final(self).events() == old(self).events(),
            final(self).count() == old(self).count(),
            final(self).waiters() == match parker {
                Some(p) => old(self).waiters().push(crate::event_signal::unparker_of(p)),
                None => old(self).waiters(),
            },
    {
        if self.has_unread(cursor) {
            None
        } else {
            let p = new_parker();
            add_waiter(&mut self.waiters, &p);
            Some(p)
        }
    }

    /// Wakes and forgets the threads that wait for a flush.
    pub fn signal(&mut self)
        ensures
            final(self).waiters() == Seq::<Unparker>::empty(),
            final(self).events() == old(self).events(),
            final(self).count() == old(self).count(),
        opens_invariants none
        no_unwind
    {
        signal_waiters(&mut self.waiters);
    }
}

/// `AtomicUsize::fetch_sub` by one, relaxed: the value before. It wraps
/// around below zero and does not panic.
#[verifier::external_body]
fn count_down(count: &AtomicUsize) -> (previous: usize)
    opens_invariants none
    no_unwind
{
    count.fetch_sub(1, Ordering::Relaxed)
}

/// Thread-safe event channel.
///
/// Shared between threads by reference, for instance inside an `Arc`. The
/// handles borrow the channel.
#[verifier::reject_recursive_types(T)]
pub struct SyncEventChannel<T> {
    pending: parking_lot::Mutex<PendingSide<T>>,
    readable: parking_lot::RwLock<ReadableSide<T>>,
    writers: AtomicUsize,
}

/// Thread-safe event writer, created by [`SyncEventChannel::get_writer`].
///
/// The channel counts its writers. When the last one is dropped, every
/// thread that waits on the channel is woken. For that the drop takes the
/// send lock and then the read/flush lock: like a flush, it waits for the
/// reads in progress.
#[verifier::reject_recursive_types(T)]
pub struct SyncEventWriter<'a, T> {
    channel: &'a SyncEventChannel<T>,
}

/// Thread-safe event reader, created by [`SyncEventChannel::get_reader`].
#[verifier::reject_recursive_types(T)]
pub struct SyncEventReader<'a, T> {
    read_events: usize,
    channel: &'a SyncEventChannel<T>,
}

/// The events of one read. It holds the read/flush lock shared: no flush
/// runs while it is alive. A thread has to drop its batch before it flushes
/// or waits for a flush, or it waits for itself.
#[verifier::reject_recursive_types(T)]
pub struct SyncEventBatch<'a, T> {
    locked: SharedLocked<'a, ReadableSide<T>>,
    fresh: bool,
}

/// Something that a thread can wait on for a future event.
///
/// Meant for trait objects handed to [`wait_any_new`], so that one thread
/// can wait on channels of different event types.
pub trait EventWaiter {
    /// Registers the parker to be notified on some future event.
    ///
    /// Returns an error, and registers nothing, if not all current events
    /// are handled.
    fn add_unparker_new(&self, p: &Parker) -> Result<(), String>;
}

impl<T> Default for SyncEventChannel<T> {
    fn default() -> SyncEventChannel<T> {
        SyncEventChannel {
            pending: new_mutex(PendingSide::new()),
            readable: new_rwlock(ReadableSide::new()),
            writers: AtomicUsize::new(0),
        }
    }
}

impl<T> SyncEventChannel<T> {
    /// Sends the event to the channel, under the send lock, and wakes the
    /// threads waiting for new events.
    fn send(&self, e: T) -> bool {
        let mut locked = lock_mutex(&self.pending);
        mutex_locked_mut(&mut locked).send(e)
    }

    /// Flushes the channel.
    ///
    /// Makes the events sent since the last flush readable and drops the
    /// events that were readable before. Waits until no read is in progress,
    /// and wakes the threads waiting for a flush.
    pub fn flush(&self) {
        let mut readable = lock_exclusive(&self.readable);
        let mut pending = lock_mutex(&self.pending);
        exclusive_locked_mut(&mut readable).flush_from(mutex_locked_mut(&mut pending));
    }

    /// Creates a writer for this channel and counts it.
    pub fn get_writer(&self) -> (writer: SyncEventWriter<'_, T>)
        ensures
            writer.channel() == self,
    {
        self.writers.fetch_add(1, Ordering::Relaxed);
        SyncEventWriter { channel: self }
    }

    /// Creates a reader for this channel. Its cursor is 1: it reads the
    /// readable generation if anything was ever flushed.
    pub fn get_reader(&self) -> (reader: SyncEventReader<'_, T>)
        ensures
            reader.cursor() == 1,
    {
        SyncEventReader { read_events: 1, channel: self }
    }

    /// Whether events were sent since the last flush. A thread that was
    /// woken while waiting on several channels finds out with this which of
    /// them has something to flush.
    pub fn has_new_events(&self) -> bool {
        let mut locked = lock_mutex(&self.pending);
        mutex_locked_mut(&mut locked).has_new_events()
    }

    /// The number of wake-handles registered for the next send.
    pub fn waiting_for_send(&self) -> usize {
        let mut locked = lock_mutex(&self.pending);
        mutex_locked_mut(&mut locked).waiter_count()
    }

    /// The number of wake-handles registered for the next flush.
    pub fn waiting_for_flush(&self) -> usize {
        let locked = lock_shared(&self.readable);
        shared_locked_ref(&locked).waiter_count()
    }

    /// Whether any writer is alive.
    fn has_writers(&self) -> bool {
        self.writers.load(Ordering::Relaxed) != 0
    }

    /// Wakes every thread that waits on the channel, for a send or for a
    /// flush.
    fn wake_all(&self)
        opens_invariants none
        no_unwind
    {
        {
            let mut locked = lock_mutex(&self.pending);
            mutex_locked_mut(&mut locked).signal();
        }
        {
            let mut locked = lock_exclusive(&self.readable);
            exclusive_locked_mut(&mut locked).signal();
        }
    }
}

impl<'a, T> SyncEventWriter<'a, T> {
    /// The channel that this writer sends to and is counted by.
    pub closed spec fn channel(&self) -> &SyncEventChannel<T> {
        self.channel
    }

    /// Sends the event to the channel and wakes the threads waiting for new
    /// events. Returns whether the channel took the event; it refuses one
    /// only when its event counter is exhausted.
    pub fn send(&self, event: T) -> bool {
        self.channel.send(event)
    }
}

impl<'a, T> Drop for SyncEventWriter<'a, T> {
    fn drop(&mut self)
        opens_invariants none
        no_unwind
    {
        let previous = count_down(&self.channel.writers);
        if previous == 1 {
            self.channel.wake_all();
        }
    }
}

impl<'a, T> SyncEventReader<'a, T> {
    /// The reader's cursor: one past the counter of the generation it
    /// consumed last.
    pub closed spec fn cursor(&self) -> nat {
        self.read_events as nat
    }

    /// Reads all unread events from this channel.
    ///
    /// The batch holds the whole readable generation, or nothing if this
    /// reader has consumed that generation already. The cursor never moves
    /// back, and it moves forward exactly when the generation was unread.
    pub fn read(&mut self) -> (batch: SyncEventBatch<'a, T>)
        ensures
            batch.fresh() ==> final(self).cursor() > old(self).cursor(),
            !batch.fresh() ==> final(self).cursor() == old(self).cursor(),
    {
        let locked = lock_shared(&self.channel.readable);
        let fresh = shared_locked_ref(&locked).consume(&mut self.read_events);
        SyncEventBatch { locked, fresh }
    }

    /// Initiates a flush on the channel, see [`SyncEventChannel::flush`].
    pub fn flush_channel(&self) {
        self.channel.flush();
    }

    /// Waits for unflushed events to be present.
    ///
    /// Returns at once if there are any. Otherwise the thread halts until
    /// the next send, or until the last writer is dropped.
    pub fn wait_new(&self) {
        let parker = {
            let mut locked = lock_mutex(&self.channel.pending);
            mutex_locked_mut(&mut locked).await_send()
        };
        match parker {
            Some(p) => park(&p),
            None => {},
        }
    }

    /// Like [`wait_new`](SyncEventReader::wait_new), but halts for at most
    /// `timeout_ms` milliseconds. The caller cannot tell a timeout from a
    /// send and has to look at the channel again.
    pub fn wait_new_timeout(&self, timeout_ms: u64) {
        let parker = {
            let mut locked = lock_mutex(&self.channel.pending);
            mutex_locked_mut(&mut locked).await_send()
        };
        match parker {
            Some(p) => park_timeout(&p, timeout_ms),
            None => {},
        }
    }

    /// Waits for flushed events that this reader has not read.
    ///
    /// Returns at once if the reader has not consumed the readable
    /// generation. Otherwise the thread halts until the next flush, or until
    /// the last writer is dropped. A thread that is the only one to flush
    /// must not wait here.
    pub fn wait_flushed(&self) {
        let parker = {
            let mut locked = lock_exclusive(&self.channel.readable);
            exclusive_locked_mut(&mut locked).await_flush(self.read_events)
        };
        match parker {
            Some(p) => park(&p),
            None => {},
        }
    }

    /// Checks if there are any writers connected to the channel.
    pub fn channel_has_writers(&self) -> bool {
        self.channel.has_writers()
    }
}

impl<'a, T> EventWaiter for SyncEventReader<'a, T> {
    /// Registers the parker to be notified on the next send, unless there
    /// are unflushed events already.
    fn add_unparker_new(&self, p: &Parker) -> (registered: Result<(), String>)
        ensures
            registered matches Err(reason) ==> reason@ == "already new unflushed events"@,
    {
        let mut locked = lock_mutex(&self.channel.pending);
        if mutex_locked_mut(&mut locked).register_unless_pending(p) {
            Ok(())
        } else {
            Err("already new unflushed events".to_string())
        }
    }
}

impl<'a, T> SyncEventBatch<'a, T> {
    /// Whether the read found a generation that the reader had not
    /// consumed.
    pub closed spec fn fresh(&self) -> bool {
        self.fresh
    }

    /// Whether the read found a generation that the reader had not
    /// consumed.
    pub fn is_fresh(&self) -> (yes: bool)
        ensures
            yes == self.fresh(),
    {
        self.fresh
    }

    /// The events of the batch, in the order in which they were sent.
    pub fn as_slice(&self) -> (events: &[T])
        ensures
            !self.fresh() ==> events@ == Seq::<T>::empty(),
    {
        shared_locked_ref(&self.locked).generation(self.fresh)
    }

    /// The number of events in the batch.
    pub fn len(&self) -> (n: usize)
        ensures
            !self.fresh() ==> n == 0,
    {
        self.as_slice().len()
    }
}

/// Waits until an event is sent to the channel of any of the waiters.
///
/// Registers one parker with each waiter, in the given order. Returns at
/// once, without parking, as soon as one of them reports unhandled events.
/// After waking, the caller has to look at every channel: nothing says
/// which one woke it.
pub fn wait_any_new(readers: &[&dyn EventWaiter]) {
    let p = new_parker();
    if register_with_all(readers, &p) {
        park(&p);
    }
}

/// Like [`wait_any_new`], but halts for at most `timeout_ms` milliseconds.
pub fn wait_any_new_timeout(readers: &[&dyn EventWaiter], timeout_ms: u64) {
    let p = new_parker();
    if register_with_all(readers, &p) {
        park_timeout(&p, timeout_ms);
    }
}

/// Registers `p` with the waiters in order and stops at the first that
/// refuses. Says whether all of them registered it, which is so where there
/// is no waiter to ask.
fn register_with_all(readers: &[&dyn EventWaiter], p: &Parker) -> (all: bool)
    ensures
        readers@.len() == 0 ==> all,
{
    let mut i: usize = 0;
    while i < readers.len()
        invariant
            i <= readers@.len(),
        decreases readers@.len() - i,
    {
        if readers[i].add_unparker_new(p).is_err() {
            return false;
        }
        i = i + 1;
    }
    true
}

} // verus!
