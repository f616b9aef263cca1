//! What the mutex guarantees of the interrupt flag over a whole critical
//! section, proved from the contracts of `lock`, `try_lock` and `release`.
//!
//! Each law speaks of the states that a CPU's interrupt controller passes
//! through: `before` an acquisition, `during` the critical section and
//! `after` the release.

use crate::interrupts::InterruptController;
use crate::mutex::MutexGuard;
use vstd::prelude::*;

verus! {

/// With interrupts enabled before the acquisition, they are masked while the
/// guard is held and enabled again once it is released.
pub proof fn lemma_enabled_flag_is_restored<T: ?Sized, C: InterruptController>(
    guard: MutexGuard<T>,
    before: C,
    during: C,
    after: C,
)
    requires
        before.enabled(),
        guard.taken(before, during),
        guard.released(during, after),
    ensures
        !during.enabled(),
        after.enabled(),
{
}

/// With interrupts masked before the acquisition, they are masked while the
/// guard is held and still masked once it is released.
pub proof fn lemma_masked_flag_stays_masked<T: ?Sized, C: InterruptController>(
    guard: MutexGuard<T>,
    before: C,
    during: C,
    after: C,
)
    requires
        !before.enabled(),
        guard.taken(before, during),
        guard.released(during, after),
    ensures
        !during.enabled(),
        !after.enabled(),
{
}

/// Whatever the flag was, a critical section leaves it as it found it.
pub proof fn lemma_release_restores_flag<T: ?Sized, C: InterruptController>(
    guard: MutexGuard<T>,
    before: C,
    during: C,
    after: C,
)
    requires
        guard.taken(before, during),
        guard.released(during, after),
    ensures
        after.enabled() == before.enabled(),
{
}

/// A critical section inside another one: the inner guard finds interrupts
/// masked and leaves them masked, and only the release of the outer guard
/// brings the flag back to where it started.
pub proof fn lemma_nested_sections_restore_once<T: ?Sized, U: ?Sized, C: InterruptController>(
    outer: MutexGuard<T>,
    inner: MutexGuard<U>,
    before: C,
    in_outer: C,
    in_inner: C,
    after_inner: C,
    after_outer: C,
)
    requires
        outer.taken(before, in_outer),
        inner.taken(in_outer, in_inner),
        inner.released(in_inner, after_inner),
        outer.released(after_inner, after_outer),
    ensures
        !inner.reenables(),
        !in_outer.enabled() && !in_inner.enabled() && !after_inner.enabled(),
        after_outer.enabled() == before.enabled(),
{
}

/// A guard from `try_lock` and a guard from `lock`, taken from the same flag,
/// cannot be told apart by what they do to it: both mask interrupts, both
/// remember the same flag, and their releases leave the same flag behind.
pub proof fn lemma_try_lock_matches_lock<T: ?Sized, U: ?Sized, C: InterruptController>(
    locked: MutexGuard<T>,
    tried: MutexGuard<U>,
    before_lock: C,
    during_lock: C,
    after_lock: C,
    before_try: C,
    during_try: C,
    after_try: C,
)
    requires
        before_lock.enabled() == before_try.enabled(),
        locked.taken(before_lock, during_lock),
        tried.taken(before_try, during_try),
        locked.released(during_lock, after_lock),
        tried.released(during_try, after_try),
    ensures
        locked.reenables() == tried.reenables(),
        during_lock.enabled() == during_try.enabled(),
        after_lock.enabled() == after_try.enabled(),
{
}

} // verus!
