//! Trusted declarations of the std primitives the library relies on.
//!
//! Each wrapper here makes exactly one call into std. The clock readings
//! depend on when the calls run, so their contracts promise nothing about
//! the numbers they return.

use vstd::prelude::*;

verus! {

#[verifier::external_type_specification]
#[verifier::external_body]
pub struct ExInstant(std::time::Instant);

#[verifier::external_type_specification]
#[verifier::external_body]
#[verifier::reject_recursive_types(T)]
pub struct ExMutex<T: ?Sized>(std::sync::Mutex<T>);

#[verifier::external_type_specification]
#[verifier::external_body]
#[verifier::reject_recursive_types(T)]
pub struct ExMutexGuard<'a, T: ?Sized + 'a>(std::sync::MutexGuard<'a, T>);

/// Relies on `Mutex::new`: a fresh unlocked mutual-exclusion lock guarding
/// `t`.
#[verifier::external_body]
pub(crate) fn mutex_new<T>(t: T) -> std::sync::Mutex<T> {
    std::sync::Mutex::new(t)
}

/// Relies on `Mutex::lock`: blocks until this thread holds the lock, then
/// grants access to the guarded value, exclusive until the guard is
/// dropped. A lock poisoned by a thread that failed while holding it is
/// recovered with `PoisonError::into_inner` instead of being left to
/// deadlock or fail every later caller: the guarded value is always a
/// completely written one, because the only code that ever writes through
/// the guard is this library's, which cannot fail between lock and unlock.
#[verifier::external_body]
pub(crate) fn mutex_lock<'a, T>(m: &'a std::sync::Mutex<T>) -> std::sync::MutexGuard<'a, T> {
    m.lock().unwrap_or_else(std::sync::PoisonError::into_inner)
}

/// Relies on `MutexGuard`'s exclusive access: reads the guarded value
/// while the lock is held.
#[verifier::external_body]
pub(crate) fn guard_get<T: Copy>(g: &std::sync::MutexGuard<T>) -> T {
    **g
}

/// Relies on `MutexGuard`'s exclusive access: replaces the guarded value
/// while the lock is held.
#[verifier::external_body]
pub(crate) fn guard_set<T>(g: &mut std::sync::MutexGuard<T>, t: T) {
    **g = t;
}

/// Relies on `Arc::clone`: the clone points at the same allocation as `a`,
/// so as a value it equals the original.
#[verifier::external_body]
pub(crate) fn arc_share<T>(a: &std::sync::Arc<T>) -> (r: std::sync::Arc<T>)
    ensures
        r == *a,
{
    std::sync::Arc::clone(a)
}

/// Relies on `Instant::now`: a reading of the monotonic clock. The reading
/// depends on when the call runs, so nothing is promised of it.
#[verifier::external_body]
pub(crate) fn clock_now() -> std::time::Instant {
    std::time::Instant::now()
}

/// Relies on `Instant::elapsed` and `Duration::as_millis`: the wall-clock
/// milliseconds since `start`, truncated to 64 bits. The reading depends on
/// when the call runs, so nothing is promised of it.
#[verifier::external_body]
pub(crate) fn clock_elapsed_millis(start: &std::time::Instant) -> u64 {
    start.elapsed().as_millis() as u64
}

} // verus!
