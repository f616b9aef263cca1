//! An interrupt-safe mutual-exclusion primitive.
//!
//! A [`Mutex`] masks interrupts on the current CPU before it spins for its
//! lock, and the [`MutexGuard`] it hands out puts the interrupt flag back
//! exactly as it was found once the critical section ends. On a single core
//! this rules out the deadlock in which an interrupt handler waits for a lock
//! that the code it interrupted is holding.

pub mod interrupts;
pub mod laws;
pub mod mutex;

pub use crate::interrupts::InterruptController;
pub use crate::interrupts::InterruptFlag;
pub use crate::interrupts::X86Interrupts;
pub use crate::mutex::Mutex;
pub use crate::mutex::MutexGuard;
