//! The interrupt-safe mutex and its guard.
//!
//! The lock itself is a `spin::Mutex`. What this module adds is the handling
//! of the interrupt flag around it: every acquisition masks interrupts before
//! it touches the spin lock, the guard remembers how the flag stood, and
//! releasing the guard puts the flag back.

use crate::interrupts::InterruptController;
use core::ops::Deref;
use core::ops::DerefMut;
use spin::Mutex as SpinMutex;
use spin::MutexGuard as SpinGuard;
use vstd::prelude::*;

verus! {

/// `spin::Mutex`, which is opaque here: nothing is known of the lock word or
/// of the value behind it.
#[verifier::external_type_specification]
#[verifier::external_body]
#[verifier::reject_recursive_types(T)]
pub struct ExSpinMutex<T: ?Sized>(SpinMutex<T>);

/// `spin::MutexGuard`, opaque as well.
#[verifier::external_type_specification]
#[verifier::external_body]
#[verifier::reject_recursive_types(T)]
pub struct ExSpinGuard<'a, T: ?Sized + 'a>(SpinGuard<'a, T>);

/// `spin::Mutex::new` builds an unlocked mutex around the value. Nothing is
/// claimed of the result.
pub assume_specification<T>[ SpinMutex::<T>::new ](user_data: T) -> SpinMutex<T>;

/// `spin::Mutex::into_inner` takes the mutex apart and hands the value out.
/// Nothing is claimed of the result.
pub assume_specification<T>[ SpinMutex::<T>::into_inner ](this: SpinMutex<T>) -> T;

/// `spin::Mutex::lock` spins until the lock word is free, takes it and hands
/// out a guard. It does not return while another guard of the same mutex is
/// alive. Nothing is claimed of the result.
pub assume_specification<T: ?Sized>[ SpinMutex::<T>::lock ](this: &SpinMutex<T>) -> SpinGuard<T>;

/// `spin::Mutex::try_lock` tries once to take the lock word: a guard if it was
/// free, `None` if it was taken. Which of the two is not claimed.
pub assume_specification<T: ?Sized>[ SpinMutex::<T>::try_lock ](this: &SpinMutex<T>) -> Option<
    SpinGuard<T>,
>;

/// `Deref::deref` of `spin::MutexGuard` borrows the protected value. Nothing
/// is claimed of the result.
pub assume_specification<'a, 'b, T: ?Sized>[ <SpinGuard<'a, T> as Deref>::deref ](
    this: &'b SpinGuard<'a, T>,
) -> &'b T;

/// `DerefMut::deref_mut` of `spin::MutexGuard` borrows the protected value
/// for writing. Nothing is claimed of the result.
pub assume_specification<'a, 'b, T: ?Sized>[ <SpinGuard<'a, T> as DerefMut>::deref_mut ](
    this: &'b mut SpinGuard<'a, T>,
) -> &'b mut T;

/// A spin lock around a `T` that is safe to share with interrupt handlers.
///
/// The value is reached only through a [`MutexGuard`], and a guard is handed
/// out only with interrupts masked on the CPU that asked for it. A handler on
/// that CPU can therefore never find the lock taken by the code it
/// interrupted.
#[verifier::reject_recursive_types(T)]
pub struct Mutex<T: ?Sized>(SpinMutex<T>);

/// Exclusive access to the value of a [`Mutex`], together with the
/// interrupt flag as it stood before the lock was taken.
///
/// A guard is ended with [`MutexGuard::release`], which frees the lock and
/// restores the flag. A guard that merely goes out of scope frees the lock and
/// leaves interrupts masked.
#[verifier::reject_recursive_types(T)]
pub struct MutexGuard<'a, T: ?Sized + 'a> {
    guard: SpinGuard<'a, T>,
    enable_interrupts: bool,
}

impl<T> Mutex<T> {
    /// A mutex that protects `t`. The interrupt flag is not touched.
    pub fn new(t: T) -> Mutex<T> {
        Mutex(SpinMutex::new(t))
    }

    /// Takes the mutex apart and returns the protected value. No guard can be
    /// alive here: each one borrows the mutex.
    pub fn into_inner(self) -> T {
        self.0.into_inner()
    }
}

impl<T: ?Sized> Mutex<T> {
    /// Masks interrupts on `cpu`, then spins until the lock is free and takes
    /// it.
    ///
    /// The guard remembers whether interrupts were enabled on entry. The call
    /// does not return while another guard of this mutex is alive; with one
    /// alive on the same call stack it never returns.
    pub fn lock<C: InterruptController>(&self, cpu: &mut C) -> (held: MutexGuard<'_, T>)
        ensures
            held.taken(*old(cpu), *final(cpu)),
    {
        let enable_interrupts = cpu.are_enabled();
        cpu.disable();
        let guard = self.spin(cpu);
        MutexGuard { guard, enable_interrupts }
    }

    /// Masks interrupts on `cpu` and tries once to take the lock.
    ///
    /// With the lock in hand the result is what [`Mutex::lock`] returns.
    /// Without it, the interrupt flag is put back as it was on entry and the
    /// result is `None`.
    pub fn try_lock<C: InterruptController>(&self, cpu: &mut C) -> (held: Option<
        MutexGuard<'_, T>,
    >)
        ensures
            match held {
                Some(guard) => guard.taken(*old(cpu), *final(cpu)),
                None => final(cpu).enabled() == old(cpu).enabled(),
            },
    {
        let enable_interrupts = cpu.are_enabled();
        cpu.disable();
        let attempt = self.attempt(cpu);
        MutexGuard::from_attempt(attempt, enable_interrupts, cpu)
    }

    /// The blocking wait for the spin lock. It is only ever entered with
    /// interrupts masked: a handler that ran during the wait and wanted this
    /// lock would spin forever on a single core.
    #[allow(unused_variables)]
    fn spin<C: InterruptController>(&self, cpu: &C) -> SpinGuard<'_, T>
        requires
            !cpu.enabled(),
    {
        self.0.lock()
    }

    /// A single attempt at the spin lock, made with interrupts masked for the
    /// same reason.
    #[allow(unused_variables)]
    fn attempt<C: InterruptController>(&self, cpu: &C) -> Option<SpinGuard<'_, T>>
        requires
            !cpu.enabled(),
    {
        self.0.try_lock()
    }
}

impl<'a, T: ?Sized> MutexGuard<'a, T> {
    /// Whether releasing this guard unmasks interrupts: whether they were
    /// enabled when the acquisition began.
    pub closed spec fn reenables(&self) -> bool {
        self.enable_interrupts
    }

    /// The guard of the spin lock that this guard holds.
    pub closed spec fn spin_guard(self) -> SpinGuard<'a, T> {
        self.guard
    }

    /// This guard was taken on a CPU whose flag went from `before` to
    /// `during`: interrupts are masked, and the guard remembers `before`.
    pub open spec fn taken<C: InterruptController>(&self, before: C, during: C) -> bool {
        &&& !during.enabled()
        &&& self.reenables() == before.enabled()
    }

    /// Releasing this guard takes the CPU's flag from `during` to `after`:
    /// set if the guard remembers it set, untouched otherwise.
    pub open spec fn released<C: InterruptController>(&self, during: C, after: C) -> bool {
        after.enabled() == (self.reenables() || during.enabled())
    }

    /// Finishes an acquisition attempt that began with the flag at
    /// `enable_interrupts` and has masked interrupts since.
    ///
    /// A guard of the spin lock becomes a guard that remembers the flag, and
    /// `cpu` is left alone. With no guard there is nobody to restore the flag
    /// later, so it is restored here.
    pub fn from_attempt<C: InterruptController>(
        attempt: Option<SpinGuard<'a, T>>,
        enable_interrupts: bool,
        cpu: &mut C,
    ) -> (held: Option<MutexGuard<'a, T>>)
        ensures
            match (attempt, held) {
                (Some(inner), Some(guard)) => {
                    &&& guard.spin_guard() == inner
                    &&& guard.reenables() == enable_interrupts
                    &&& *final(cpu) == *old(cpu)
                },
                (None, None) => final(cpu).enabled() == (enable_interrupts || old(cpu).enabled()),
                _ => false,
            },
    {
        match attempt {
            Some(guard) => Some(MutexGuard { guard, enable_interrupts }),
            None => {
                if enable_interrupts {
                    cpu.enable();
                }
                None
            },
        }
    }

    /// Whether releasing this guard unmasks interrupts.
    pub fn reenables_interrupts(&self) -> (on: bool)
        ensures
            on == self.reenables(),
    {
        self.enable_interrupts
    }

    /// Ends the critical section: frees the lock, then unmasks interrupts on
    /// `cpu` if they were enabled when the acquisition began. If they were
    /// masked then, the flag is not touched.
    pub fn release<C: InterruptController>(self, cpu: &mut C)
        ensures
            self.released(*old(cpu), *final(cpu)),
    {
        let MutexGuard { guard, enable_interrupts } = self;
        unlock(guard);
        if enable_interrupts {
            cpu.enable();
        }
    }
}

impl<'a, T: ?Sized> Deref for MutexGuard<'a, T> {
    type Target = T;

    /// The protected value.
    fn deref(&self) -> &T {
        self.guard.deref()
    }
}

impl<'a, T: ?Sized> DerefMut for MutexGuard<'a, T> {
    /// The protected value, for writing. What the guard remembers of the
    /// interrupt flag is not affected.
    fn deref_mut(&mut self) -> (value: &mut T)
        ensures
            final(self).reenables() == old(self).reenables(),
    {
        self.guard.deref_mut()
    }
}

/// Frees the spin lock: the guard goes out of scope here, and its destructor
/// clears the lock word.
#[allow(unused_variables)]
fn unlock<'a, T: ?Sized>(guard: SpinGuard<'a, T>) {
}

} // verus!
