//! The adaptive lock with a sleep in place of the spin.

use vstd::prelude::*;
use crate::acquire::{wake_owed, Attempt, Backoff, CONTENDED, FREE, LOCKED};
use crate::word::{lemma_fresh_attempt, lemma_paused_attempt, Word};

verus! {

/// A lock whose threads sleep for a moment, look once more, and then sleep on
/// the word.
///
/// The value is the word as one thread after another finds it. `lock` runs
/// the calling thread's whole attempt; where the real thread would go to
/// sleep, it returns `false` and leaves the word as the sleeper left it.
pub struct SpinLock {
    word: Word,
}

impl View for SpinLock {
    type V = u32;

    closed spec fn view(&self) -> u32 {
        self.word@
    }
}

impl SpinLock {
    /// A free lock.
    pub fn new() -> (lock: SpinLock)
        ensures
            lock@ == FREE,
    {
        SpinLock { word: Word::new() }
    }

    /// The word's value.
    pub fn state(&self) -> (state: u32)
        ensures
            state == self@,
    {
        self.word.load()
    }

    /// Takes the lock if it is free. Otherwise the caller naps, marks the
    /// lock contended and goes to sleep on it.
    pub fn lock(&mut self) -> (held: bool)
        ensures
            held == (old(self)@ == FREE),
            final(self)@ == if held {
                LOCKED
            } else {
                CONTENDED
            },
    {
        let at = Attempt::begin(Backoff::nap());
        proof {
            lemma_fresh_attempt(self.word@, at);
        }
        let after = self.word.run(at);
        after.is_held()
    }

    /// The attempt from its pause on: of a thread whose first
    /// compare-and-exchange has failed (`woken` is false), or of one that was
    /// woken from its sleep on the word (`woken` is true). It takes a free
    /// lock, marked contended if the thread had slept; on any other word the
    /// thread marks it contended and sleeps.
    pub fn lock_contended(&mut self, woken: bool) -> (held: bool)
        ensures
            held == (old(self)@ == FREE),
            final(self)@ == if held && !woken {
                LOCKED
            } else {
                CONTENDED
            },
    {
        let backoff = Backoff::nap();
        let at = Attempt { phase: backoff.paused(woken), backoff };
        proof {
            lemma_paused_attempt(self.word@, at, woken);
        }
        let after = self.word.run(at);
        after.is_held()
    }

    /// Frees the lock. Returns whether one sleeper is to be woken: exactly
    /// when the lock was contended.
    pub fn unlock(&mut self) -> (wake: bool)
        ensures
            final(self)@ == FREE,
            wake == wake_owed(old(self)@),
    {
        self.word.release()
    }
}

impl Default for SpinLock {
    /// A free lock.
    fn default() -> (lock: SpinLock)
        ensures
            lock@ == FREE,
    {
        SpinLock::new()
    }
}

} // verus!
