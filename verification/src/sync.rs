//! Contracts for the parts of `std::sync` that the channel is built on.
//!
//! Nothing in this file is proved. Each item names a standard-library type or
//! function and states only what its documentation promises; what a lock
//! protects may change between any two acquisitions, so none of these
//! contracts speaks of the protected value.

use std::sync::{Condvar, Mutex, MutexGuard};
use vstd::prelude::*;

verus! {

/// `std::sync::Mutex`, carried through verified code as an opaque value.
#[verifier::external_type_specification]
#[verifier::external_body]
#[verifier::reject_recursive_types(T)]
pub struct ExMutex<T: ?Sized>(Mutex<T>);

/// `std::sync::MutexGuard`, proof that the lock is held; dropping it unlocks.
#[verifier::external_type_specification]
#[verifier::external_body]
#[verifier::reject_recursive_types(T)]
pub struct ExMutexGuard<'a, T: ?Sized + 'a>(MutexGuard<'a, T>);

/// `std::sync::Condvar`, carried through verified code as an opaque value.
#[verifier::external_type_specification]
#[verifier::external_body]
pub struct ExCondvar(Condvar);

/// `Mutex::new` wraps a value in an unlocked mutex. It neither fails nor
/// panics.
pub assume_specification<T>[ Mutex::<T>::new ](t: T) -> (m: Mutex<T>)
;

/// `Condvar::new` makes a condition variable with no waiters.
pub assume_specification[ Condvar::new ]() -> (c: Condvar)
;

/// `Condvar::notify_one` wakes at most one thread blocked on the condition
/// variable. It returns at once and never panics.
#[verifier::external_body]
pub(crate) fn notify_one(condvar: &Condvar)
    opens_invariants none
    no_unwind
{
    condvar.notify_one()
}

/// `Condvar::notify_all` wakes every thread blocked on the condition
/// variable. It returns at once and never panics.
#[verifier::external_body]
pub(crate) fn notify_all(condvar: &Condvar)
    opens_invariants none
    no_unwind
{
    condvar.notify_all()
}

/// `Mutex::lock`: blocks until the lock is free and hands out its guard.
///
/// Nothing is claimed of the guarded value. A poisoned lock is taken over
/// rather than reported: every caller in this crate runs only verified code
/// while it holds a guard, so no panic can leave the value half-updated.
/// `lock` may deadlock or panic if the calling thread already holds the
/// lock; callers here take one guard and release it before they return.
#[verifier::external_body]
pub(crate) fn lock<'a, S>(mutex: &'a Mutex<S>) -> (guard: MutexGuard<'a, S>)
    opens_invariants none
    no_unwind
{
    match mutex.lock() {
        Ok(guard) => guard,
        Err(poisoned) => poisoned.into_inner(),
    }
}

/// `DerefMut::deref_mut` on a guard: exclusive access to the guarded value
/// for as long as the borrow of the guard lasts.
///
/// Nothing is claimed of the value found there.
#[verifier::external_body]
pub(crate) fn guarded<'a, 'b, S>(guard: &'a mut MutexGuard<'b, S>) -> (value: &'a mut S)
    opens_invariants none
    no_unwind
{
    &mut **guard
}

} // verus!
