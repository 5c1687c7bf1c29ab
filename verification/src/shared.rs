//! The lock word and the two counts as atomics that threads share.
//!
//! What another thread does between two operations is not known here, so
//! nothing is promised of what an operation finds. Each operation hands back
//! what it found together with what follows from it, and promises how the
//! two go together: by the same rules as on the sequential machines.

use vstd::prelude::*;
use std::sync::atomic::AtomicU32;
use std::sync::atomic::AtomicUsize;
use std::sync::atomic::Ordering;
use crate::acquire::{wake_owed, wakes, Action, Attempt, CONTENDED, FREE, LOCKED};
use crate::counts::{overflows, upgrade_from, upgrade_step, was_last, Upgrade};

verus! {

/// The lock word of real threads.
pub struct SharedWord {
    cell: AtomicU32,
}

/// The strong and the weak count of real threads.
pub struct SharedCounts {
    strong: AtomicUsize,
    weak: AtomicUsize,
}

/// A step of an attempt on the shared word.
#[derive(Clone, Copy, Debug, PartialEq, Eq, Structural)]
pub struct Stepped {
    /// What the operation saw in the word.
    pub seen: u32,
    /// The attempt after it.
    pub after: Attempt,
}

/// The swap that frees the lock.
#[derive(Clone, Copy, Debug, PartialEq, Eq, Structural)]
pub struct Released {
    /// The word that the swap found.
    pub before: u32,
    /// Whether one sleeper is to be woken.
    pub wake: bool,
}

/// One more on a count.
#[derive(Clone, Copy, Debug, PartialEq, Eq, Structural)]
pub struct Raised {
    /// The count before.
    pub before: usize,
    /// Whether the count had no room: the caller must not go on.
    pub full: bool,
}

/// One off a count.
#[derive(Clone, Copy, Debug, PartialEq, Eq, Structural)]
pub struct Lowered {
    /// The count before.
    pub before: usize,
    /// Whether the handle was the last on this count.
    pub last: bool,
}

/// How one step of an upgrade ended.
#[derive(Clone, Copy, Debug, PartialEq, Eq, Structural)]
pub enum Upgraded {
    /// The strong count was zero: there is no value to reach any more.
    Dead,
    /// The strong count has no room for one more handle.
    Full,
    /// The strong count was raised by one: the caller has a strong handle.
    Raised,
    /// Another thread changed the count first, to the value that is given:
    /// the caller decides again from that.
    Raced(usize),
}

impl SharedWord {
    /// A free lock's word.
    pub fn new() -> SharedWord {
        SharedWord { cell: AtomicU32::new(FREE) }
    }

    /// The atomic that is this word.
    pub closed spec fn atomic(&self) -> &AtomicU32 {
        &self.cell
    }

    /// The atomic, for the system's wait and wake: the one that every
    /// operation of this word works on, and no other.
    pub fn cell(&self) -> (cell: &AtomicU32)
        ensures
            cell == self.atomic(),
    {
        &self.cell
    }

    /// Performs the operation on the word and returns what it saw: the word
    /// before a compare-and-exchange or a swap, the word that a load found.
    fn perform(&self, action: Action) -> (seen: u32)
        requires
            action.touches_word(),
    {
        match action {
            Action::TryLock => {
                let found = self.cell.compare_exchange(
                    FREE,
                    LOCKED,
                    Ordering::Acquire,
                    Ordering::Relaxed,
                );
                match found {
                    Ok(before) => before,
                    Err(now) => now,
                }
            },
            Action::Mark => self.cell.swap(CONTENDED, Ordering::Acquire),
            _ => self.cell.load(Ordering::Relaxed),
        }
    }

    /// One step of an attempt whose next operation is one on the word: the
    /// operation is performed, and the attempt moves as its table says on
    /// what the operation saw.
    pub fn step(&self, at: Attempt) -> (step: Stepped)
        requires
            at.action().touches_word(),
        ensures
            step.after == at.advanced(step.seen),
    {
        let seen = self.perform(at.act());
        Stepped { seen, after: at.advance(seen) }
    }

    /// Swaps `FREE` in, with release. One sleeper is to be woken exactly when
    /// the swap found the word contended.
    pub fn release(&self) -> (released: Released)
        ensures
            released.wake == wake_owed(released.before),
    {
        let before = self.cell.swap(FREE, Ordering::Release);
        Released { before, wake: wakes(before) }
    }
}

impl SharedCounts {
    /// The counts of a new block: one strong handle, and the strong handles'
    /// one unit on the weak count.
    pub fn new() -> SharedCounts {
        SharedCounts { strong: AtomicUsize::new(1), weak: AtomicUsize::new(1) }
    }

    /// Counts one more strong handle, in one order with every other change of
    /// the counts. The count had no room exactly when it stood at its
    /// maximum.
    pub fn clone_strong(&self) -> (raised: Raised)
        ensures
            raised.full == (raised.before == usize::MAX),
    {
        let before = self.strong.fetch_add(1, Ordering::SeqCst);
        Raised { before, full: overflows(before) }
    }

    /// Counts one more weak handle. The count had no room exactly when it
    /// stood at its maximum.
    pub fn clone_weak(&self) -> (raised: Raised)
        ensures
            raised.full == (raised.before == usize::MAX),
    {
        let before = self.weak.fetch_add(1, Ordering::Relaxed);
        Raised { before, full: overflows(before) }
    }

    /// Counts one strong handle less, in one order with every other change of
    /// the counts. The handle was the last exactly when the count stood at
    /// one: the caller then tears the value down and gives the strong
    /// handles' unit on the weak count back.
    pub fn drop_strong(&self) -> (lowered: Lowered)
        ensures
            lowered.last == (lowered.before == 1),
    {
        let before = self.strong.fetch_sub(1, Ordering::SeqCst);
        Lowered { before, last: was_last(before) }
    }

    /// Takes one unit off the weak count, after all that the caller did with
    /// the block and before all that the last one does. The unit was the last
    /// exactly when the count stood at one: the caller then frees the block.
    pub fn drop_weak(&self) -> (lowered: Lowered)
        ensures
            lowered.last == (lowered.before == 1),
    {
        let before = self.weak.fetch_sub(1, Ordering::AcqRel);
        Lowered { before, last: was_last(before) }
    }

    /// The strong count as it stands at some moment.
    pub fn strong(&self) -> (seen: usize) {
        self.strong.load(Ordering::Relaxed)
    }

    /// One step of an upgrade that has seen `seen` strong handles. Nothing is
    /// tried on a count of zero, or on one that has no room: the count is
    /// raised only from the very value that was seen.
    pub fn upgrade(&self, seen: usize) -> (step: Upgraded)
        ensures
            match upgrade_step(seen) {
                Upgrade::Dead => step == Upgraded::Dead,
                Upgrade::Full => step == Upgraded::Full,
                Upgrade::Try { .. } => step is Raised || step is Raced,
            },
    {
        match upgrade_from(seen) {
            Upgrade::Dead => Upgraded::Dead,
            Upgrade::Full => Upgraded::Full,
            Upgrade::Try { from, to } => {
                let found = self.strong.compare_exchange_weak(
                    from,
                    to,
                    Ordering::Acquire,
                    Ordering::Relaxed,
                );
                match found {
                    Ok(_) => Upgraded::Raised,
                    Err(now) => Upgraded::Raced(now),
                }
            },
        }
    }
}

} // verus!
