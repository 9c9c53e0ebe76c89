//! Trusted interface to the standard library's synchronization primitives.
//!
//! The channel backends rest on `std::sync`'s mutex and condition variable,
//! which carry no specification that Verus knows. This module declares those
//! types and wraps the handful of operations the backends need.
//!
//! A value guarded by these primitives is shared with another thread, which
//! may rewrite it between two observations, so nothing can be promised here
//! about the contents that an acquisition observes: the verified protocol
//! logic instead takes every observed value as an argument and states what
//! holds for each possible one.

use vstd::prelude::*;

use std::sync::{Arc, Condvar, Mutex, MutexGuard};

verus! {

/// Declares `std::sync::Mutex`: a mutual-exclusion primitive protecting a
/// value of type `T`.
#[verifier::external_type_specification]
#[verifier::external_body]
#[verifier::reject_recursive_types(T)]
pub struct ExMutex<T: ?Sized>(Mutex<T>);

/// Declares `std::sync::MutexGuard`: exclusive access to the value guarded
/// by a locked mutex, released when the guard is dropped.
#[verifier::external_type_specification]
#[verifier::external_body]
#[verifier::reject_recursive_types(T)]
pub struct ExMutexGuard<'a, T: ?Sized + 'a>(MutexGuard<'a, T>);

/// Declares `std::sync::Condvar`: a condition variable for blocking a
/// thread until some condition on mutex-guarded data may have changed.
#[verifier::external_type_specification]
#[verifier::external_body]
pub struct ExCondvar(Condvar);

/// Relies on `Mutex::new`: creates a mutex guarding the given value.
#[verifier::external_body]
pub(crate) fn mutex_new<T>(value: T) -> Mutex<T> {
    Mutex::new(value)
}

/// Relies on `Mutex::lock`: blocks until exclusive access is acquired, then
/// hands out the guard. The guarded value is shared with the other half of
/// the operation, which may have rewritten it at any time, so nothing is
/// known about what the guard gives access to. A poisoned lock is recovered
/// rather than propagated, and no caller in this crate locks a mutex it
/// already holds, so this call does not panic.
#[verifier::external_body]
pub(crate) fn mutex_lock<'a, T>(mutex: &'a Mutex<T>) -> MutexGuard<'a, T> {
    mutex.lock().unwrap_or_else(|poisoned| poisoned.into_inner())
}

/// Relies on `MutexGuard`'s `Deref`: reads the guarded value out by copy.
#[verifier::external_body]
pub(crate) fn guard_read<T: Copy>(guard: &MutexGuard<'_, T>) -> T {
    **guard
}

/// Relies on `MutexGuard`'s `DerefMut`: overwrites the guarded value.
#[verifier::external_body]
pub(crate) fn guard_write<T>(guard: &mut MutexGuard<'_, T>, value: T) {
    **guard = value;
}

/// Relies on `Condvar::new`: creates a condition variable.
#[verifier::external_body]
pub(crate) fn condvar_new() -> Condvar {
    Condvar::new()
}

/// Relies on `Condvar::wait_while`: blocks the calling thread while the
/// given decision function returns true for the guarded value, releasing the
/// lock while blocked and reacquiring it around every check of the decision,
/// so that each check sees the value currently stored by the other side.
/// Once a check said not to block, returns the reacquired guard together
/// with the guarded value that check saw, on which the decision function
/// thus returned false. The decision function must be callable on every
/// value of the guarded type. A poisoned lock is recovered rather than
/// propagated, so this call never panics.
#[verifier::external_body]
pub(crate) fn condvar_wait_while<'a, T: Copy, F: Fn(T) -> bool>(
    condvar: &Condvar,
    guard: MutexGuard<'a, T>,
    condition: F,
) -> (r: (MutexGuard<'a, T>, T))
    requires
        forall|value: T| call_requires(condition, (value,)),
    ensures
        call_ensures(condition, (r.1,), false),
{
    let reacquired = condvar.wait_while(guard, |value: &mut T| condition(*value)).unwrap_or_else(
        |poisoned| poisoned.into_inner(),
    );
    let observed = *reacquired;
    (reacquired, observed)
}

/// Relies on `Arc::clone`: returns a new handle to the same shared
/// allocation, hence to the same value.
#[verifier::external_body]
pub(crate) fn arc_clone<T>(arc: &Arc<T>) -> (r: Arc<T>)
    ensures
        r == *arc,
{
    Arc::clone(arc)
}

} // verus!
