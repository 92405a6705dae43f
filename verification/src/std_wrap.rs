//! A guarded value on top of the platform's blocking mutex.
//!
//! The platform mutex keeps its state and the value it protects in memory
//! that every thread can reach, so neither is part of a mutex's logical
//! value, and another thread may change both between any two calls. The
//! contracts here therefore speak of what a call was handed and what it
//! returned: which mutex the platform was asked about and what it answered,
//! which answer yields a guard, and how the result of a guarded run relates
//! to the closure that was run.
//!
//! What the platform answered is stated as a relation between what a call
//! into it was handed and what came back. Such a relation holds of a value
//! only because that call returned it, and says nothing of what the
//! platform will answer next time.
//!
//! Nothing here waits for the mutex. A wait does not come back, or panics,
//! on a thread that already holds the mutex, and who holds a shared mutex
//! is nothing a precondition can speak of. The caller waits on
//! [`StdBlockingMutex::platform`] itself and hands what came back to
//! [`guard_of_lock`] and [`run_held`], which state what becomes of it.

use crate::traits::{ConstInit, RawMutex};
use std::marker::PhantomData;
use std::sync::{LockResult, Mutex, MutexGuard, PoisonError, TryLockError};
use vstd::prelude::*;

verus! {

/// `std::sync::Mutex`, opaque to the verifier.
#[verifier::external_type_specification]
#[verifier::external_body]
#[verifier::reject_recursive_types(T)]
pub struct ExMutex<T: ?Sized>(Mutex<T>);

/// `std::sync::MutexGuard`, opaque to the verifier. Holding one is holding
/// the lock; dropping it releases the lock.
#[verifier::external_type_specification]
#[verifier::external_body]
#[verifier::reject_recursive_types(T)]
pub struct ExMutexGuard<'a, T: ?Sized + 'a>(MutexGuard<'a, T>);

/// `std::sync::PoisonError`, opaque to the verifier. It carries the guard of
/// a mutex whose earlier holder panicked.
#[verifier::external_type_specification]
#[verifier::external_body]
#[verifier::reject_recursive_types(G)]
pub struct ExPoisonError<G>(PoisonError<G>);

/// `lock_api::GuardNoSend`, the marker of guards that must stay on the
/// thread that acquired them.
#[verifier::external_type_specification]
#[verifier::external_body]
pub struct ExGuardNoSend(lock_api::GuardNoSend);

/// What one non-blocking attempt on the platform mutex came back with.
#[verifier::reject_recursive_types(G)]
pub enum Attempt<G> {
    /// The lock was free and is now held through this guard.
    Acquired(G),
    /// The lock was free and is now held through the guard that the error
    /// carries; an earlier holder panicked.
    Poisoned(PoisonError<G>),
    /// The lock is held; waiting for it would block.
    WouldBlock,
}

/// Calls `std::sync::Mutex::new`. Nothing is claimed of the result.
#[verifier::external_body]
fn platform_new<T>(val: T) -> Mutex<T> {
    Mutex::new(val)
}

/// Calls `std::sync::Mutex::try_lock` and tells its three outcomes apart.
/// Nothing is claimed of the result: which outcome comes back depends on the
/// state of the mutex at the moment of the call.
#[verifier::external_body]
fn platform_try_lock<T>(mutex: &Mutex<T>) -> Attempt<MutexGuard<'_, T>> {
    match mutex.try_lock() {
        Ok(guard) => Attempt::Acquired(guard),
        Err(TryLockError::Poisoned(poisoned)) => Attempt::Poisoned(poisoned),
        Err(TryLockError::WouldBlock) => Attempt::WouldBlock,
    }
}

/// Calls `std::sync::PoisonError::into_inner`, which gives up the guard that
/// the error carries. Nothing is claimed of the result.
#[verifier::external_body]
fn poisoned_guard<G>(poisoned: PoisonError<G>) -> G {
    poisoned.into_inner()
}

/// Calls `DerefMut::deref_mut` of `std::sync::MutexGuard`, which borrows the
/// protected value for as long as the guard is borrowed. Nothing is claimed
/// of the value found there: it is whatever the last holder left.
#[verifier::external_body]
fn guarded_value<'g, 'm, T>(guard: &'g mut MutexGuard<'m, T>) -> &'g mut T {
    &mut **guard
}

/// Holds when `guard` is the guard that the platform gave up from
/// `poisoned`.
pub closed spec fn carried_by<G>(poisoned: PoisonError<G>, guard: G) -> bool {
    call_ensures(poisoned_guard::<G>, (poisoned,), guard)
}

/// The guard that a blocking acquisition yields: the one it returned, or
/// the one that its report of an earlier panic carried.
pub open spec fn is_guard_of_lock<G>(result: LockResult<G>, guard: G) -> bool {
    match result {
        Ok(held) => guard == held,
        Err(poisoned) => carried_by(poisoned, guard),
    }
}

/// The guard that a non-blocking attempt yields: none where it would have
/// blocked, and otherwise the one it acquired, or the one that its report
/// of an earlier panic carried.
pub open spec fn is_guard_of_attempt<G>(attempt: Attempt<G>, guard: Option<G>) -> bool {
    match attempt {
        Attempt::Acquired(held) => guard == Some(held),
        Attempt::Poisoned(poisoned) => guard matches Some(held) && carried_by(poisoned, held),
        Attempt::WouldBlock => guard is None,
    }
}

/// Takes the guard out of what a blocking acquisition returned, such as
/// `lock` of the mutex that [`StdBlockingMutex::platform`] hands out.
///
/// A blocking acquisition holds the lock whichever variant it returns: the
/// error variant only reports that an earlier holder panicked, and carries
/// the guard all the same. That report is dropped here, so a blocking
/// acquisition that comes back never fails.
pub fn guard_of_lock<G>(result: LockResult<G>) -> (guard: G)
    ensures
        is_guard_of_lock(result, guard),
{
    match result {
        Ok(held) => held,
        Err(poisoned) => poisoned_guard(poisoned),
    }
}

/// Takes the guard, if there is one, out of what a non-blocking attempt
/// returned: there is none exactly when the attempt would have blocked. The
/// report that an earlier holder panicked is dropped, as in
/// [`guard_of_lock`].
pub fn guard_of_attempt<G>(attempt: Attempt<G>) -> (guard: Option<G>)
    ensures
        is_guard_of_attempt(attempt, guard),
        guard is None <==> attempt is WouldBlock,
{
    match attempt {
        Attempt::Acquired(held) => Some(held),
        Attempt::Poisoned(poisoned) => Some(poisoned_guard(poisoned)),
        Attempt::WouldBlock => None,
    }
}

/// Holds when `handed` is the borrow of the protected value that the
/// platform handed out from `guard`.
pub closed spec fn borrowed_from<'g, 'm, T>(
    guard: &'g mut MutexGuard<'m, T>,
    handed: &'g mut T,
) -> bool {
    call_ensures(guarded_value::<T>, (guard,), handed)
}

/// Holds when `f` may be called on whatever value `held` hands out.
pub open spec fn accepts_value_behind<'m, T, U, F: FnOnce(&mut T) -> U>(
    held: MutexGuard<'m, T>,
    f: F,
) -> bool {
    forall|g: &mut MutexGuard<'m, T>, h: &mut T, v: &mut T|
        *g == held && #[trigger] borrowed_from(g, h) && *h == *v ==> #[trigger] call_requires(
            f,
            (v,),
        )
}

/// Holds when `out` is what `f` returned from a run on the value that `held`
/// handed out.
pub open spec fn ran_on_value_behind<'m, T, U, F: FnOnce(&mut T) -> U>(
    held: MutexGuard<'m, T>,
    f: F,
    out: U,
) -> bool {
    exists|g: &mut MutexGuard<'m, T>, h: &mut T, v: &mut T|
        *g == held && #[trigger] borrowed_from(g, h) && *h == *v && #[trigger] call_ensures(
            f,
            (v,),
            out,
        )
}

/// Borrows the protected value from a guard, for as long as the guard is
/// borrowed. The value found there is whatever the last holder left.
pub fn value_behind<'g, 'm, T>(guard: &'g mut MutexGuard<'m, T>) -> (handed: &'g mut T)
    ensures
        exists|g: &mut MutexGuard<'m, T>|
            *g == *old(guard) && *final(g) == *final(guard) && #[trigger] borrowed_from(g, handed),
{
    // Lets the call below be seen as a borrow from the guard.
    assert(forall|g: &mut MutexGuard<'m, T>, h: &mut T| #[trigger]
        call_ensures(guarded_value::<T>, (g,), h) ==> borrowed_from(g, h));
    guarded_value(guard)
}

/// Runs `f` once on the value behind `guard`, releases the guard and
/// returns what `f` returned.
///
/// The protected value is whatever the last holder left, so `f` must accept
/// whatever the guard hands out. The result is what `f` returned from its
/// run on the value that this guard handed out.
pub fn run_held<'m, T, U, F: FnOnce(&mut T) -> U>(guard: MutexGuard<'m, T>, f: F) -> (ret: U)
    requires
        accepts_value_behind(guard, f),
    ensures
        ran_on_value_behind(guard, f, ret),
{
    let mut held = guard;
    let v = value_behind(&mut held);
    f(v)
}

/// Runs `f` as [`run_held`] does if there is a guard, and does nothing
/// without one: the result is `None` exactly when there was no guard.
pub fn run_if_held<'m, T, U, F: FnOnce(&mut T) -> U>(
    guard: Option<MutexGuard<'m, T>>,
    f: F,
) -> (ret: Option<U>)
    requires
        guard matches Some(held) ==> accepts_value_behind(held, f),
    ensures
        ret is None <==> guard is None,
        ret matches Some(out) ==> guard matches Some(held) && ran_on_value_behind(held, f, out),
{
    match guard {
        Some(held) => Some(run_held(held, f)),
        None => None,
    }
}

/// A value guarded by the platform's blocking mutex.
///
/// The primitive parameter `R` only selects this backend: no primitive of
/// that type is stored or called, since the platform mutex does its own
/// locking and its guard already releases on drop.
///
/// Acquiring without waiting is done here. To wait, a caller waits on the
/// mutex that [`platform`](Self::platform) hands out; see the module's
/// introduction.
#[verifier::reject_recursive_types(T)]
pub struct StdBlockingMutex<R, T> {
    mutex: Mutex<T>,
    _marker: PhantomData<R>,
}

impl<R, T> StdBlockingMutex<R, T> {
    /// Holds when the mutex inside is the one that the platform made to own
    /// `val`.
    pub closed spec fn made_around(&self, val: T) -> bool {
        call_ensures(platform_new::<T>, (val,), self.mutex)
    }

    /// The platform mutex inside.
    pub closed spec fn platform_mutex(&self) -> Mutex<T> {
        self.mutex
    }

    /// Holds when `attempt` is what the platform answered to a non-blocking
    /// attempt on the mutex inside.
    pub closed spec fn try_lock_returned<'a>(&'a self, attempt: Attempt<MutexGuard<'a, T>>) -> bool {
        call_ensures(platform_try_lock::<T>, (&self.mutex,), attempt)
    }

    /// Creates an unlocked mutex that owns `val`: the value is handed to the
    /// platform, and the mutex it makes around it is the one kept.
    #[inline]
    pub fn new(val: T) -> (made: StdBlockingMutex<R, T>)
        ensures
            made.made_around(val),
    {
        StdBlockingMutex { mutex: platform_new(val), _marker: PhantomData }
    }

    /// Hands out the platform mutex inside, for a caller that has to wait
    /// for it.
    ///
    /// Its `lock` blocks the calling thread until the mutex is available.
    /// A thread that holds a guard of this mutex must not wait for it: the
    /// platform mutex is not reentrant, and the wait then blocks for ever or
    /// panics. What the wait returns goes to [`guard_of_lock`].
    #[inline]
    pub fn platform(&self) -> (mutex: &Mutex<T>)
        ensures
            *mutex == self.platform_mutex(),
    {
        &self.mutex
    }

    /// Acquires the mutex if that is possible without blocking, and returns
    /// no guard otherwise.
    ///
    /// What is returned is what one non-blocking attempt on this very mutex
    /// yields: no guard exactly when that attempt would have blocked.
    #[inline]
    pub fn try_lock<'a>(&'a self) -> (guard: Option<MutexGuard<'a, T>>)
        ensures
            exists|attempt: Attempt<MutexGuard<'a, T>>|
                self.try_lock_returned(attempt) && is_guard_of_attempt(attempt, guard),
    {
        guard_of_attempt(platform_try_lock(&self.mutex))
    }

    /// Acquires the mutex if that is possible without blocking, runs `f` once
    /// on the protected value, releases the mutex and returns what `f`
    /// returned; gives up where acquiring the mutex would block.
    ///
    /// The protected value is whatever the last holder left, so `f` must
    /// accept whatever a guard hands out. One non-blocking attempt is made on
    /// this very mutex. The result is `None` exactly when that attempt would
    /// have blocked, and otherwise holds what `f` returned from its run on
    /// the value handed out by the guard that the attempt yielded.
    #[must_use]
    #[inline]
    pub fn try_with_lock<'a, U>(&'a self, f: impl FnOnce(&mut T) -> U) -> (ret: Option<U>)
        requires
            forall|held: MutexGuard<'a, T>| #[trigger] accepts_value_behind(held, f),
        ensures
            exists|attempt: Attempt<MutexGuard<'a, T>>|
                #[trigger] self.try_lock_returned(attempt) && match ret {
                    None => attempt is WouldBlock,
                    Some(out) => exists|held: MutexGuard<'a, T>|
                        is_guard_of_attempt(attempt, Some(held)) && #[trigger] ran_on_value_behind(
                            held,
                            f,
                            out,
                        ),
                },
    {
        run_if_held(self.try_lock(), f)
    }
}

/// The primitive that selects [`StdBlockingMutex`].
///
/// It is a placeholder and locks nothing: [`StdBlockingMutex`] never calls
/// it. Its answers are fixed so that nobody takes it for a lock that is
/// free: it always reports itself locked and never lets an attempt succeed.
pub struct StdRawMutex;

impl ConstInit for StdRawMutex {
    const INIT: Self = StdRawMutex;
}

impl RawMutex for StdRawMutex {
    type GuardMarker = lock_api::GuardNoSend;

    /// Never acquires.
    fn try_lock(&self) -> (acquired: bool)
        ensures
            !acquired,
    {
        false
    }

    /// Returns at once, having locked nothing.
    fn lock(&self) {
    }

    /// Does nothing.
    fn unlock(&self) {
    }

    /// Always reports locked.
    fn is_locked(&self) -> (locked: bool)
        ensures
            locked,
    {
        true
    }
}

} // verus!
