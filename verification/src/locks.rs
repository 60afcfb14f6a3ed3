//! The locks of `parking_lot`, as far as the channels use them.
//!
//! A lock owns what it guards. Nothing is known of a guarded value but its
//! type, and so its type invariant: other threads change it between two
//! acquisitions. What the functions below claim of `parking_lot` is not
//! proved here.

use vstd::prelude::*;

verus! {

/// `parking_lot::RawMutex`, opaque: the mutex without its data.
#[verifier::external_type_specification]
#[verifier::external_body]
pub struct ExRawMutex(parking_lot::RawMutex);

/// `parking_lot::RawRwLock`, opaque: the reader-writer lock without its
/// data.
#[verifier::external_type_specification]
#[verifier::external_body]
pub struct ExRawRwLock(parking_lot::RawRwLock);

/// `lock_api::Mutex`, of which `parking_lot::Mutex` is an instance: opaque.
#[verifier::external_type_specification]
#[verifier::external_body]
#[verifier::reject_recursive_types(R)]
#[verifier::reject_recursive_types(T)]
pub struct ExMutex<R, T: ?Sized>(parking_lot::lock_api::Mutex<R, T>);

/// `lock_api::RwLock`, of which `parking_lot::RwLock` is an instance:
/// opaque.
#[verifier::external_type_specification]
#[verifier::external_body]
#[verifier::reject_recursive_types(R)]
#[verifier::reject_recursive_types(T)]
pub struct ExRwLock<R, T: ?Sized>(parking_lot::lock_api::RwLock<R, T>);

/// A held `parking_lot::Mutex`: wraps the `MutexGuard`, which unlocks when
/// it goes out of scope.
#[verifier::external_body]
#[verifier::reject_recursive_types(S)]
pub struct MutexLocked<'a, S> {
    guard: parking_lot::MutexGuard<'a, S>,
}

/// A `parking_lot::RwLock` held shared: wraps the `RwLockReadGuard`, which
/// unlocks when it goes out of scope.
#[verifier::external_body]
#[verifier::reject_recursive_types(S)]
pub struct SharedLocked<'a, S> {
    guard: parking_lot::RwLockReadGuard<'a, S>,
}

/// A `parking_lot::RwLock` held exclusively: wraps the `RwLockWriteGuard`,
/// which unlocks when it goes out of scope.
#[verifier::external_body]
#[verifier::reject_recursive_types(S)]
pub struct ExclusiveLocked<'a, S> {
    guard: parking_lot::RwLockWriteGuard<'a, S>,
}

/// `parking_lot::Mutex::new`: an unlocked mutex that owns `value`.
#[verifier::external_body]
pub(crate) fn new_mutex<S>(value: S) -> parking_lot::Mutex<S> {
    parking_lot::Mutex::new(value)
}

/// `parking_lot::Mutex::lock`: blocks until the mutex is held by this
/// thread. It does not panic; `parking_lot` locks are not poisoned.
#[verifier::external_body]
pub(crate) fn lock_mutex<'a, S>(mutex: &'a parking_lot::Mutex<S>) -> MutexLocked<'a, S>
    opens_invariants none
    no_unwind
{
    MutexLocked { guard: mutex.lock() }
}

/// `DerefMut` of `MutexGuard`: the guarded value, for as long as the guard
/// is borrowed.
#[verifier::external_body]
pub(crate) fn mutex_locked_mut<'g, 'a, S>(locked: &'g mut MutexLocked<'a, S>) -> &'g mut S
    opens_invariants none
    no_unwind
{
    &mut *locked.guard
}

/// `parking_lot::RwLock::new`: an unlocked lock that owns `value`.
#[verifier::external_body]
pub(crate) fn new_rwlock<S>(value: S) -> parking_lot::RwLock<S> {
    parking_lot::RwLock::new(value)
}

/// `parking_lot::RwLock::read`: blocks until this thread holds the lock
/// shared. It does not panic.
#[verifier::external_body]
pub(crate) fn lock_shared<'a, S>(lock: &'a parking_lot::RwLock<S>) -> SharedLocked<'a, S> {
    SharedLocked { guard: lock.read() }
}

/// `Deref` of `RwLockReadGuard`: the guarded value, for as long as the guard
/// is borrowed.
#[verifier::external_body]
pub(crate) fn shared_locked_ref<'g, 'a, S>(locked: &'g SharedLocked<'a, S>) -> &'g S {
    &*locked.guard
}

/// `parking_lot::RwLock::write`: blocks until this thread holds the lock
/// exclusively. It does not panic.
#[verifier::external_body]
pub(crate) fn lock_exclusive<'a, S>(lock: &'a parking_lot::RwLock<S>) -> ExclusiveLocked<'a, S>
    opens_invariants none
    no_unwind
{
    ExclusiveLocked { guard: lock.write() }
}

/// `DerefMut` of `RwLockWriteGuard`: the guarded value, for as long as the
/// guard is borrowed.
#[verifier::external_body]
pub(crate) fn exclusive_locked_mut<'g, 'a, S>(
    locked: &'g mut ExclusiveLocked<'a, S>,
) -> &'g mut S
    opens_invariants none
    no_unwind
{
    &mut *locked.guard
}

} // verus!
