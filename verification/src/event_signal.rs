//! The wait primitive: a list of wake-handles that are signalled together.
//!
//! Parking and waking come from `crossbeam`. A `Parker` holds a token:
//! `unpark` makes it available and `park` consumes it, so a wake-up that
//! arrives between registering and parking is not lost. What the functions
//! marked `external_body` claim of `crossbeam` is not proved here.

use crate::locks::{lock_mutex, mutex_locked_mut, new_mutex};
use crossbeam::sync::{Parker, Unparker};
use vstd::prelude::*;

verus! {

/// `crossbeam::sync::Parker`, opaque: the handle that a thread parks on.
#[verifier::external_type_specification]
#[verifier::external_body]
pub struct ExParker(Parker);

/// `crossbeam::sync::Unparker`, opaque: the handle that wakes a parker.
#[verifier::external_type_specification]
#[verifier::external_body]
pub struct ExUnparker(Unparker);

/// The wake-handle that `Parker::unparker` returns for `p`. Its clones wake
/// the same parker and are equal to it.
pub uninterp spec fn unparker_of(p: Parker) -> Unparker;

/// `Parker::new`: a parker whose token is absent.
#[verifier::external_body]
pub(crate) fn new_parker() -> Parker {
    Parker::new()
}

/// `Parker::unparker`, cloned: an owned wake-handle of `p`.
#[verifier::external_body]
pub(crate) fn parker_handle(p: &Parker) -> (handle: Unparker)
    ensures
        handle == unparker_of(*p),
{
    p.unparker().clone()
}

/// `Parker::park`: blocks the calling thread until the token of `p` is
/// available and consumes it.
#[verifier::external_body]
pub(crate) fn park(p: &Parker) {
    p.park()
}

/// `Parker::park_timeout`: as `park`, but for at most `timeout_ms`
/// milliseconds. Returns nothing: the caller cannot tell a wake-up from a
/// timeout.
#[verifier::external_body]
pub(crate) fn park_timeout(p: &Parker, timeout_ms: u64) {
    p.park_timeout(std::time::Duration::from_millis(timeout_ms))
}

/// `Unparker::unpark`: makes the token of the handle's parker available and
/// wakes the thread parked on it, if there is one. It does not panic.
#[verifier::external_body]
pub(crate) fn unpark(handle: &Unparker)
    opens_invariants none
    no_unwind
{
    handle.unpark()
}

/// `Vec::len` on a list of wake-handles. It neither unwinds nor opens an
/// invariant, which a destructor needs to know of everything it calls.
#[verifier::external_body]
pub(crate) fn handle_count(waiters: &Vec<Unparker>) -> (count: usize)
    ensures
        count == waiters@.len(),
    opens_invariants none
    no_unwind
{
    waiters.len()
}

/// Indexing into a list of wake-handles, within its bounds, where it
/// neither unwinds nor opens an invariant.
#[verifier::external_body]
pub(crate) fn handle_at(waiters: &Vec<Unparker>, i: usize) -> (handle: &Unparker)
    requires
        i < waiters@.len(),
    ensures
        *handle == waiters@[i as int],
    opens_invariants none
    no_unwind
{
    &waiters[i]
}

/// `Vec::clear` on a list of wake-handles. Dropping an `Unparker` releases a
/// reference count, so the call neither unwinds nor opens an invariant.
#[verifier::external_body]
pub(crate) fn discard_handles(waiters: &mut Vec<Unparker>)
    ensures
        final(waiters)@ == Seq::<Unparker>::empty(),
    opens_invariants none
    no_unwind
{
    waiters.clear()
}

/// Wakes every registered waiter and clears the list.
pub fn signal_waiters(waiters: &mut Vec<Unparker>)
    ensures
        final(waiters)@ == Seq::<Unparker>::empty(),
    opens_invariants none
    no_unwind
{
    let mut i: usize = 0;
    let count = handle_count(waiters);
    while i < count
        invariant
            i <= count,
            count == waiters@.len(),
        decreases count - i,
    {
        unpark(handle_at(waiters, i));
        i = i + 1;
    }
    discard_handles(waiters);
}

/// Registers the wake-handle of `p` as the last waiter and hands `p` back.
pub fn add_waiter<'a>(waiters: &mut Vec<Unparker>, p: &'a Parker) -> (parker: &'a Parker)
    ensures
        final(waiters)@ == old(waiters)@.push(unparker_of(*p)),
        parker == p,
{
    let u = parker_handle(p);
    waiters.push(u);
    p
}

/// A signal that threads wait for.
///
/// A wait always blocks until a later signal: signals are not remembered,
/// and one that finds no waiter does nothing. Whoever waits for a condition
/// must check it, and whoever makes it true must signal, under one lock of
/// their own.
pub struct SignalEvent {
    waiters: parking_lot::Mutex<Vec<Unparker>>,
}

impl SignalEvent {
    /// A signal that nobody waits for.
    pub fn new() -> SignalEvent {
        SignalEvent { waiters: new_mutex(Vec::new()) }
    }

    /// The number of threads registered for the next signal.
    pub fn waiter_count(&self) -> usize {
        let mut locked = lock_mutex(&self.waiters);
        mutex_locked_mut(&mut locked).len()
    }

    /// Signals the waiting threads to wake.
    pub fn signal(&self) {
        let mut locked = lock_mutex(&self.waiters);
        signal_waiters(mutex_locked_mut(&mut locked));
    }

    /// Waits for the next signal.
    pub fn wait(&self) {
        let p = new_parker();
        {
            let mut locked = lock_mutex(&self.waiters);
            add_waiter(mutex_locked_mut(&mut locked), &p);
        }
        park(&p);
    }
}

} // verus!
