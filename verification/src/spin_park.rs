//! The adaptive lock: spin with yields, then mark the word and wait.

use vstd::prelude::*;
use crate::acquire::{wake_owed, Attempt, Backoff, CONTENDED, FREE, LOCKED};
use crate::word::{lemma_fresh_attempt, lemma_paused_attempt, Word};

verus! {

/// A lock whose threads spin briefly and then sleep on the word.
///
/// The value is the word as one thread after another finds it. `lock` runs
/// the calling thread's whole attempt; where the real thread would go to
/// sleep, it returns `false` and leaves the word as the sleeper left it.
pub struct SpinPark {
    word: Word,
}

impl View for SpinPark {
    type V = u32;

    closed spec fn view(&self) -> u32 {
        self.word@
    }
}

impl SpinPark {
    /// A free lock.
    pub fn new() -> (lock: SpinPark)
        ensures
            lock@ == FREE,
    {
        SpinPark { word: Word::new() }
    }

    /// The word's value.
    pub fn state(&self) -> (state: u32)
        ensures
            state == self@,
    {
        self.word.load()
    }

    /// Takes the lock if it is free. Otherwise the caller spins, marks the
    /// lock contended and goes to sleep on it.
    pub fn lock(&mut self) -> (held: bool)
        ensures
            held == (old(self)@ == FREE),
            final(self)@ == if held {
                LOCKED
            } else {
                CONTENDED
            },
    {
        let at = Attempt::begin(Backoff::spin());
        proof {
            lemma_fresh_attempt(self.word@, at);
        }
        let after = self.word.run(at);
        after.is_held()
    }

    /// The attempt from its pause on: of a thread whose first
    /// compare-and-exchange has failed (`woken` is false), or of one that was
    /// woken from its sleep on the word (`woken` is true). It takes a free
    /// lock, marked contended if the thread had slept; on any other word the
    /// thread marks it contended and sleeps.
    pub fn lock_contended(&mut self, woken: bool) -> (held: bool)
        ensures
            held == (old(self)@ == FREE),
            final(self)@ == if held && !woken {
                LOCKED
            } else {
                CONTENDED
            },
    {
        let backoff = Backoff::spin();
        let at = Attempt { phase: backoff.paused(woken), backoff };
        proof {
            lemma_paused_attempt(self.word@, at, woken);
        }
        let after = self.word.run(at);
        after.is_held()
    }

    /// Frees the lock. Returns whether one sleeper is to be woken: exactly
    /// when the lock was contended.
    pub fn unlock(&mut self) -> (wake: bool)
        ensures
            final(self)@ == FREE,
            wake == wake_owed(old(self)@),
    {
        self.word.release()
    }
}

impl Default for SpinPark {
    /// A free lock.
    fn default() -> (lock: SpinPark)
        ensures
            lock@ == FREE,
    {
        SpinPark::new()
    }
}

} // verus!
