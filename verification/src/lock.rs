//! The lock around the controller's state.
//!
//! What the mutex holds is visible only while it is locked. `held` names
//! that state for a held lock; the critical sections of the controller are
//! proved against it.

use vstd::prelude::*;
use parking_lot::{Mutex, MutexGuard};
use crate::state::DebouncerState;

verus! {

/// `parking_lot::RawMutex`, the lock word inside a `parking_lot::Mutex`.
#[verifier::external_type_specification]
#[verifier::external_body]
pub struct ExRawMutex(parking_lot::RawMutex);

/// `lock_api::Mutex`, which `parking_lot::Mutex<T>` is a name for. Verus
/// carries such a value without looking into it.
#[verifier::external_type_specification]
#[verifier::external_body]
#[verifier::reject_recursive_types(R)]
#[verifier::reject_recursive_types(T)]
pub struct ExMutex<R, T: ?Sized>(parking_lot::lock_api::Mutex<R, T>);

/// A held lock: the `parking_lot::MutexGuard` of a locked mutex. The mutex
/// is unlocked when this value goes out of scope.
///
/// The guard's own type is bounded by a trait of `lock_api` and cannot be
/// declared to Verus, so it is kept in this struct, which Verus does not
/// look into.
#[verifier::external_body]
#[verifier::reject_recursive_types(T)]
pub struct Locked<'a, T> {
    guard: MutexGuard<'a, T>,
}

/// The state that a mutex was created with.
pub uninterp spec fn created_with(mutex: Mutex<DebouncerState>) -> DebouncerState;

/// The state in the mutex, as seen through a held lock.
pub uninterp spec fn held(lock: Locked<'_, DebouncerState>) -> DebouncerState;

/// Locking that cannot fail.
pub trait MutexExt<T> {
    /// Blocks until the mutex is free and returns the held lock.
    fn risky_lock(&self) -> Locked<'_, T>;
}

impl<T> MutexExt<T> for Mutex<T> {
    fn risky_lock(&self) -> Locked<'_, T> {
        acquire(self)
    }
}

impl<'a, T> Locked<'a, T> {
    /// The value in the mutex.
    pub fn get(&self) -> &T {
        peek(self)
    }

    /// Puts `value` in the mutex.
    pub fn set(&mut self, value: T) {
        poke(self, value)
    }
}

/// Reads through the guard, by its `Deref`, for any kind of value. Nothing
/// is claimed of what is found: the name `held` is for the controller's
/// state alone, which `load` reads.
#[verifier::external_body]
fn peek<'b, T>(lock: &'b Locked<'_, T>) -> (value: &'b T) {
    &*lock.guard
}

/// Writes through the guard, by its `DerefMut`, for any kind of value.
/// Nothing is claimed of the lock afterwards: the name `held` is for the
/// controller's state alone, which `store` writes.
#[verifier::external_body]
fn poke<T>(lock: &mut Locked<'_, T>, value: T) {
    *lock.guard = value;
}

/// Calls `parking_lot::Mutex::new`. Believed without proof: that the new
/// mutex holds `state`.
#[verifier::external_body]
pub(crate) fn new_mutex(state: DebouncerState) -> (mutex: Mutex<DebouncerState>)
    ensures
        created_with(mutex) == state,
{
    Mutex::new(state)
}

/// Calls `parking_lot::Mutex::lock`, which blocks until the mutex is free
/// and then holds it. Believed without proof: that the call returns without
/// unwinding. Nothing is claimed of the state found in the mutex. A thread
/// that already holds this mutex must not call it: it would wait for itself.
#[verifier::external_body]
pub(crate) fn acquire<T>(mutex: &Mutex<T>) -> (lock: Locked<'_, T>)
    opens_invariants none
    no_unwind
{
    Locked { guard: mutex.lock() }
}

/// Reads through the guard, by its `Deref`. Believed without proof: that the
/// copy returned is the state in the mutex.
#[verifier::external_body]
pub(crate) fn load(lock: &Locked<'_, DebouncerState>) -> (state: DebouncerState)
    ensures
        state == held(*lock),
    opens_invariants none
    no_unwind
{
    *lock.guard
}

/// Writes through the guard, by its `DerefMut`. Believed without proof: that
/// the state in the mutex is `state` afterwards.
#[verifier::external_body]
pub(crate) fn store(lock: &mut Locked<'_, DebouncerState>, state: DebouncerState)
    ensures
        held(*final(lock)) == state,
    opens_invariants none
    no_unwind
{
    *lock.guard = state;
}

} // verus!
