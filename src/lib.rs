//! Synchronization primitives for a kernel: a test-and-set spin mutex, a FIFO
//! ticket mutex, a reader-writer lock with upgradable reads, and an RCU lock
//! whose readers keep a stable snapshot while a single writer works on a copy.
//!
//! Every primitive is written as an exact model of its protocol state. A guard
//! is a value that owns the claim it stands for; handing it back to the lock's
//! release method ends the claim. The contracts describe each transition over a
//! public state type, and the laws of each primitive are proof functions over
//! those same states.
use vstd::prelude::*;

pub mod arcrcu;
pub mod rculock;
pub mod rwlock;
pub mod spin;
pub mod ticket;

verus! {

/// Hooks that every primitive calls around each critical section.
///
/// `before_lock` runs before every acquisition attempt, and `after_lock` runs
/// once for each of them: when a guard is handed back, or at once when a
/// `try_*` attempt fails. A kernel can mask interrupts in the first and unmask
/// them in the second, with its own nesting count.
pub trait LockAction {
    fn before_lock() {
    }

    fn after_lock() {
    }
}

/// The hooks that do nothing.
pub struct EmptyLockAction;

impl LockAction for EmptyLockAction {

}

/// A ticket mutex with no-op hooks.
pub type TicketMutex<T> = ticket::TicketMutex<T, EmptyLockAction>;

/// A guard of a [`TicketMutex`].
pub type TicketMutexGuard<T> = ticket::TicketMutexGuard<T, EmptyLockAction>;

/// A spin mutex with no-op hooks.
pub type SpinMutex<T> = spin::SpinMutex<T, EmptyLockAction>;

/// A guard of a [`SpinMutex`].
pub type SpinMutexGuard<T> = spin::SpinMutexGuard<T, EmptyLockAction>;

/// A reader-writer lock with no-op hooks.
pub type RwLock<T> = rwlock::RwLock<T, EmptyLockAction>;

/// A plain reader's guard of a [`RwLock`].
pub type RwLockReadGuard<T> = rwlock::RwLockReadGuard<T, EmptyLockAction>;

/// The writer's guard of a [`RwLock`].
pub type RwLockWriteGuard<T> = rwlock::RwLockWriteGuard<T, EmptyLockAction>;

/// The upgradable reader's guard of a [`RwLock`].
pub type RwLockUpgradableReadGuard<T> = rwlock::RwLockUpgradableGuard<T, EmptyLockAction>;

/// An RCU lock with no-op hooks.
pub type RcuLock<T> = rculock::RcuLock<T, EmptyLockAction>;

/// A reader's guard of an [`RcuLock`].
pub type RcuLockReadGuard<T> = rculock::RcuLockReadGuard<T, EmptyLockAction>;

/// The writer's guard of an [`RcuLock`].
pub type RcuLockWriteGuard<T> = rculock::RcuLockWriteGuard<T, EmptyLockAction>;

} // verus!
