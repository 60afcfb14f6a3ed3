//! The per-buffer event counter.

use vstd::prelude::*;

verus! {

/// Counts the events ever appended to a buffer. The count only grows, and
/// it stays below `usize::MAX`, so that the cursor one past it always exists.
pub struct EventCounter {
    value: usize,
}

impl View for EventCounter {
    type V = nat;

    closed spec fn view(&self) -> nat {
        self.value as nat
    }
}

impl EventCounter {
    #[verifier::type_invariant]
    spec fn below_max(&self) -> bool {
        self.value < usize::MAX
    }

    /// A counter at zero.
    pub fn new() -> (counter: EventCounter)
        ensures
            counter@ == 0,
    {
        EventCounter { value: 0 }
    }

    /// A counter that starts at `start`, for a buffer that takes up a count
    /// kept elsewhere.
    pub fn starting_at(start: usize) -> (counter: EventCounter)
        requires
            start < usize::MAX,
        ensures
            counter@ == start,
    {
        EventCounter { value: start }
    }

    /// The count.
    pub fn get(&self) -> (value: usize)
        ensures
            value == self@,
            value < usize::MAX,
    {
        proof {
            use_type_invariant(self);
        }
        self.value
    }

    /// Whether one more event can be counted.
    pub fn can_advance(&self) -> (yes: bool)
        ensures
            yes == (self@ + 1 < usize::MAX),
    {
        self.value < usize::MAX - 1
    }

    /// Counts one more event.
    pub fn advance(&mut self)
        requires
            old(self)@ + 1 < usize::MAX,
        ensures
            final(self)@ == old(self)@ + 1,
    {
        self.value = self.value + 1;
    }

    /// Takes over the count of `other`.
    pub fn rebase(&mut self, other: &EventCounter)
        ensures
            final(self)@ == other@,
    {
        proof {
            use_type_invariant(other);
        }
        self.value = other.value;
    }

    /// The cursor of a reader that has consumed everything counted so far.
    pub fn cursor_past(&self) -> (cursor: usize)
        ensures
            cursor == self@ + 1,
    {
        proof {
            use_type_invariant(self);
        }
        self.value + 1
    }

    /// Whether a reader with this cursor has yet to consume what was counted
    /// so far.
    pub fn reaches(&self, cursor: usize) -> (yes: bool)
        ensures
            yes == (cursor <= self@),
    {
        cursor <= self.value
    }
}

} // verus!
