//! The interrupt controller that the mutex drives, and two controllers that
//! implement it: a flag kept in memory and the flag of an x86-64 CPU.

use vstd::prelude::*;

verus! {

/// The interrupt-enable flag of the current CPU.
///
/// `enabled` is the flag as the controller knows it; the three operations
/// read it, clear it and set it. Everything that the mutex guarantees of the
/// flag is proved from these three contracts, so it holds of a controller
/// exactly as far as the controller keeps them.
pub trait InterruptController {
    /// Whether interrupts may preempt the current execution.
    spec fn enabled(&self) -> bool;

    /// Reads the flag.
    fn are_enabled(&self) -> (on: bool)
        ensures
            on == self.enabled(),
    ;

    /// Masks interrupts.
    fn disable(&mut self)
        ensures
            !final(self).enabled(),
    ;

    /// Unmasks interrupts.
    fn enable(&mut self)
        ensures
            final(self).enabled(),
    ;
}

/// An interrupt flag kept in memory: a CPU without the hardware, for hosted
/// builds and for targets whose interrupt masking is done in software.
pub struct InterruptFlag {
    enabled: bool,
}

impl InterruptFlag {
    /// A flag that starts out as `enabled`.
    pub fn new(enabled: bool) -> (flag: InterruptFlag)
        ensures
            flag.enabled() == enabled,
    {
        InterruptFlag { enabled }
    }
}

impl InterruptController for InterruptFlag {
    closed spec fn enabled(&self) -> bool {
        self.enabled
    }

    fn are_enabled(&self) -> (on: bool) {
        self.enabled
    }

    fn disable(&mut self) {
        self.enabled = false;
    }

    fn enable(&mut self) {
        self.enabled = true;
    }
}

/// The interrupt flag of the x86-64 CPU that runs the caller.
///
/// The handle records the flag as [`X86Interrupts::current`] found it and
/// follows every change that is made through the handle: `disable` executes
/// `cli`, `enable` executes `sti`. What is proved of a handle is proved of
/// that record. The record is the CPU's flag for as long as nothing else on
/// this CPU changes the flag behind the handle's back; an interrupt handler
/// that returns with `iret` leaves it as it was.
///
/// `cli` and `sti` are privileged. `disable` and `enable` are for code that
/// runs where the CPU lets it change the flag, which in practice is ring 0;
/// elsewhere the CPU raises a protection fault.
pub struct X86Interrupts {
    enabled: bool,
}

impl X86Interrupts {
    /// A handle that starts from the flag as the CPU holds it now.
    pub fn current() -> X86Interrupts {
        X86Interrupts { enabled: read_interrupt_flag() }
    }
}

impl InterruptController for X86Interrupts {
    closed spec fn enabled(&self) -> bool {
        self.enabled
    }

    fn are_enabled(&self) -> (on: bool) {
        self.enabled
    }

    fn disable(&mut self) {
        clear_interrupt_flag();
        self.enabled = false;
    }

    fn enable(&mut self) {
        set_interrupt_flag();
        self.enabled = true;
    }
}

/// `x86_64::instructions::interrupts::are_enabled`: reads RFLAGS and reports
/// its interrupt flag. Nothing is claimed of the answer, which is the
/// machine's.
#[verifier::external_body]
fn read_interrupt_flag() -> bool {
    x86_64::instructions::interrupts::are_enabled()
}

/// `x86_64::instructions::interrupts::disable`: executes `cli`. Nothing is
/// claimed of it.
#[verifier::external_body]
fn clear_interrupt_flag() {
    x86_64::instructions::interrupts::disable()
}

/// `x86_64::instructions::interrupts::enable`: executes `sti`, then `nop`.
/// Nothing is claimed of it.
#[verifier::external_body]
fn set_interrupt_flag() {
    x86_64::instructions::interrupts::enable()
}

} // verus!
