//! The mathematical state of a double-buffered channel, the transitions on
//! it, and the laws that every channel of this crate obeys.

use vstd::prelude::*;

verus! {

/// What a channel holds, seen as mathematics.
///
/// `readable` is the generation that the last flush made visible, `pending`
/// the events sent since. Each buffer has a counter of the events that were
/// ever appended while it was the pending one; `readable_count` is what a
/// reader's cursor is compared with.
pub struct ChannelState<T> {
    pub readable: Seq<T>,
    pub pending: Seq<T>,
    pub readable_count: nat,
    pub pending_count: nat,
}

impl<T> ChannelState<T> {
    /// A channel on which nothing was sent or flushed.
    pub open spec fn empty() -> Self {
        ChannelState {
            readable: Seq::empty(),
            pending: Seq::empty(),
            readable_count: 0,
            pending_count: 0,
        }
    }

    /// Appends `e` to the pending buffer and counts it.
    pub open spec fn send(self, e: T) -> Self {
        ChannelState {
            readable: self.readable,
            pending: self.pending.push(e),
            readable_count: self.readable_count,
            pending_count: self.pending_count + 1,
        }
    }

    /// Sends every event of `events`, in order.
    pub open spec fn send_all(self, events: Seq<T>) -> Self {
        ChannelState {
            readable: self.readable,
            pending: self.pending + events,
            readable_count: self.readable_count,
            pending_count: self.pending_count + events.len(),
        }
    }

    /// Makes the pending events the readable generation. The generation that
    /// was readable is gone, and the buffer that starts to collect sends
    /// again takes over the counter of the new readable one.
    pub open spec fn flush(self) -> Self {
        ChannelState {
            readable: self.pending,
            pending: Seq::empty(),
            readable_count: self.pending_count,
            pending_count: self.pending_count,
        }
    }

    /// Whether a reader with this cursor has yet to consume the readable
    /// generation.
    pub open spec fn has_unread(self, cursor: nat) -> bool {
        cursor <= self.readable_count
    }

    /// What a read with this cursor yields: the whole readable generation, or
    /// nothing where the reader has drained it already.
    pub open spec fn read(self, cursor: nat) -> Seq<T> {
        if self.has_unread(cursor) {
            self.readable
        } else {
            Seq::empty()
        }
    }

    /// The reader's cursor after a read: one past the readable counter, which
    /// marks the whole generation as consumed at once.
    pub open spec fn cursor_after_read(self, cursor: nat) -> nat {
        if self.has_unread(cursor) {
            self.readable_count + 1
        } else {
            cursor
        }
    }

    /// The pending counter is the readable counter plus the number of pending
    /// events. This holds of an empty channel and is kept by every send and
    /// flush.
    pub open spec fn consistent(self) -> bool {
        self.pending_count == self.readable_count + self.pending.len()
    }

    /// A cursor that a reader of this channel can have: readers start at 0 or
    /// 1 and a read moves the cursor to one past the readable counter.
    pub open spec fn admits_cursor(self, cursor: nat) -> bool {
        cursor <= self.readable_count + 1
    }
}

/// Sending a sequence of events is the same as sending them one by one.
pub proof fn law_send_all_is_repeated_send<T>(s: ChannelState<T>, events: Seq<T>, e: T)
    ensures
        s.send_all(Seq::empty()) == s,
        s.send_all(events.push(e)) == s.send_all(events).send(e),
{
    assert(s.pending + Seq::<T>::empty() =~= s.pending);
    assert(s.pending + events.push(e) =~= (s.pending + events).push(e));
}

/// An empty channel is consistent, and sends and flushes keep a channel
/// consistent.
pub proof fn law_consistency_is_kept<T>(s: ChannelState<T>, e: T, events: Seq<T>)
    ensures
        ChannelState::<T>::empty().consistent(),
        s.consistent() ==> s.send(e).consistent(),
        s.consistent() ==> s.send_all(events).consistent(),
        s.flush().consistent(),
{
}

/// A cursor that the channel admits stays admitted: through a send, through
/// a flush of a consistent channel, and through a read by that reader. A new
/// reader's cursor, 0 or 1, is admitted by every channel.
pub proof fn law_cursor_stays_admitted<T>(s: ChannelState<T>, cursor: nat, e: T)
    requires
        s.admits_cursor(cursor),
    ensures
        s.send(e).admits_cursor(cursor),
        s.consistent() ==> s.flush().admits_cursor(cursor),
        s.admits_cursor(s.cursor_after_read(cursor)),
        s.admits_cursor(0),
        s.admits_cursor(1),
{
}

/// Whatever was sent before, and whatever state the channel was in: after a
/// flush, a sequence of sends and one more flush, a reader created then
/// (cursor 0 or 1) reads exactly the events sent since the earlier flush, in
/// the order of the sends, and reads nothing when it reads again.
pub proof fn law_flushed_sends_are_read_once<T>(
    before: ChannelState<T>,
    events: Seq<T>,
    cursor: nat,
)
    requires
        cursor <= 1,
    ensures
        ({
            let s = before.flush().send_all(events).flush();
            &&& s.read(cursor) == events
            &&& s.read(s.cursor_after_read(cursor)) == Seq::<T>::empty()
        }),
{
    assert(Seq::<T>::empty() + events =~= events);
    if events.len() == 0 {
        assert(events =~= Seq::<T>::empty());
    }
}

/// Reading twice with no flush in between: a reader that has not consumed
/// the readable generation gets all of it the first time, and every reader
/// gets nothing the second time.
pub proof fn law_second_read_is_empty<T>(s: ChannelState<T>, cursor: nat)
    ensures
        s.has_unread(cursor) ==> s.read(cursor) == s.readable,
        s.read(s.cursor_after_read(cursor)) == Seq::<T>::empty(),
{
}

/// Two readers that have not consumed the readable generation both read all
/// of it, whichever reads first: a read changes the reader's cursor and
/// leaves the channel, and so the other reader's result, as it was.
pub proof fn law_readers_are_independent<T>(s: ChannelState<T>, first: nat, second: nat)
    requires
        s.has_unread(first),
        s.has_unread(second),
    ensures
        s.read(first) == s.readable,
        s.read(second) == s.readable,
{
}

/// Two flushes with no read in between lose the first generation for good:
/// after send `first`, flush, send `second`, flush, a reader of this channel
/// reads `second` and nothing of `first`, also a reader that never read
/// `first`.
pub proof fn law_unread_generation_is_lost<T>(
    s: ChannelState<T>,
    first: Seq<T>,
    second: Seq<T>,
    cursor: nat,
)
    requires
        s.consistent(),
        s.admits_cursor(cursor),
    ensures
        s.send_all(first).flush().send_all(second).flush().read(cursor) == second,
{
    assert(Seq::<T>::empty() + second =~= second);
}

/// After any flush of a consistent channel, a read by a reader of that
/// channel yields exactly the generation that the flush made visible.
pub proof fn law_read_after_flush_yields_generation<T>(s: ChannelState<T>, cursor: nat)
    requires
        s.consistent(),
        s.admits_cursor(cursor),
    ensures
        s.flush().read(cursor) == s.pending,
{
    if s.pending.len() == 0 {
        assert(s.pending =~= Seq::<T>::empty());
    }
}

} // verus!
