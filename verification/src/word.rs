//! The lock word as a plain integer that one thread at a time operates on.

use vstd::prelude::*;
use crate::acquire::{
    settled, wake_owed, wakes, Action, Attempt, Phase, CONTENDED, FREE, LOCKED,
};

verus! {

/// The word after `action`.
pub open spec fn written(word: u32, action: Action) -> u32 {
    match action {
        Action::TryLock => if word == FREE {
            LOCKED
        } else {
            word
        },
        Action::Mark => CONTENDED,
        _ => word,
    }
}

/// Whether the attempt is asleep on the word: it waits, and the word is what
/// it waits on.
pub open spec fn blocked(word: u32, at: Attempt) -> bool {
    at.phase == Phase::Park && word == CONTENDED
}

/// Whether the attempt takes no further step by itself.
pub open spec fn at_rest(word: u32, at: Attempt) -> bool {
    at.held() || blocked(word, at)
}

/// A bound on the steps that an attempt takes before it rests, when no other
/// thread touches the word.
pub open spec fn rank(word: u32, at: Attempt) -> int {
    match at.phase {
        Phase::Held => 0,
        Phase::Mark => 1,
        Phase::Retry => 2,
        Phase::Spin { left, .. } => 2 * left + 3,
        Phase::Yield { left, .. } => 2 * left + 4,
        Phase::Nap { .. } => 2 * at.backoff.spins + 5,
        Phase::Start => 2 * at.backoff.spins + 6,
        Phase::Park => if word == CONTENDED {
            0
        } else {
            2 * at.backoff.spins + 6
        },
    }
}

/// The word and the attempt once the attempt rests, when no other thread
/// touches the word meanwhile.
pub open spec fn ran(word: u32, at: Attempt) -> (u32, Attempt)
    decreases rank(word, at),
{
    if at_rest(word, at) {
        (word, at)
    } else {
        ran(written(word, at.action()), at.advanced(word))
    }
}

/// A spinning attempt that runs alone ends where its first load would have
/// sent it, had no yield been left.
pub proof fn lemma_spin_runs_out(word: u32, at: Attempt)
    requires
        at.phase is Spin,
    ensures
        ran(word, at) == ran(
            word,
            Attempt { phase: settled(word, at.phase->Spin_woken), backoff: at.backoff },
        ),
    decreases at.phase->Spin_left,
{
    let left = at.phase->Spin_left;
    let woken = at.phase->Spin_woken;
    if word == LOCKED && left != 0 {
        let fewer = (left - 1) as u32;
        let yielding = Attempt { phase: Phase::Yield { left: fewer, woken }, ..at };
        let again = Attempt { phase: Phase::Spin { left: fewer, woken }, ..at };
        assert(at.advanced(word) == yielding);
        assert(yielding.advanced(word) == again);
        assert(ran(word, at) == ran(word, yielding));
        assert(ran(word, yielding) == ran(word, again));
        lemma_spin_runs_out(word, again);
    }
}

/// A fresh attempt that runs alone takes a free lock, and leaves any other
/// word contended with itself asleep on it.
pub proof fn lemma_fresh_attempt(word: u32, at: Attempt)
    requires
        at.phase == Phase::Start,
    ensures
        word == FREE ==> ran(word, at) == (LOCKED, Attempt { phase: Phase::Held, ..at }),
        word != FREE ==> ran(word, at) == (CONTENDED, Attempt { phase: Phase::Park, ..at }),
{
    lemma_paused_attempt(word, Attempt { phase: at.backoff.pause(false), ..at }, false);
    reveal_with_fuel(ran, 2);
}

/// An attempt that pauses and then runs alone: unless it may take a free
/// lock unmarked, it takes a free lock marked, and sleeps on any other word.
pub proof fn lemma_paused_attempt(word: u32, at: Attempt, woken: bool)
    requires
        at.phase == at.backoff.pause(woken),
    ensures
        word != FREE ==> ran(word, at) == (CONTENDED, Attempt { phase: Phase::Park, ..at }),
        word == FREE && woken ==> ran(word, at) == (CONTENDED, Attempt { phase: Phase::Held, ..at }),
        word == FREE && !woken ==> ran(word, at) == (LOCKED, Attempt { phase: Phase::Held, ..at }),
{
    let spin = Attempt { phase: Phase::Spin { left: at.backoff.spins, woken }, ..at };
    if at.backoff.naps {
        assert(at.advanced(word) == spin);
        assert(ran(word, at) == ran(word, spin));
    }
    lemma_spin_runs_out(word, spin);
    reveal_with_fuel(ran, 4);
}

/// The lock word.
pub struct Word {
    state: u32,
}

impl View for Word {
    type V = u32;

    closed spec fn view(&self) -> u32 {
        self.state
    }
}

impl Word {
    /// A free lock's word.
    pub fn new() -> (word: Word)
        ensures
            word@ == FREE,
    {
        Word { state: FREE }
    }

    /// The word's value.
    pub fn load(&self) -> (state: u32)
        ensures
            state == self@,
    {
        self.state
    }

    /// Performs `action` and returns what it saw: the word before it.
    pub fn perform(&mut self, action: Action) -> (seen: u32)
        ensures
            seen == old(self)@,
            final(self)@ == written(old(self)@, action),
    {
        let seen = self.state;
        match action {
            Action::TryLock => {
                if seen == FREE {
                    self.state = LOCKED;
                }
            },
            Action::Mark => {
                self.state = CONTENDED;
            },
            _ => {},
        }
        seen
    }

    /// Whether `at` is asleep on this word.
    pub fn blocks(&self, at: &Attempt) -> (asleep: bool)
        ensures
            asleep == blocked(self@, *at),
    {
        at.phase == Phase::Park && self.state == CONTENDED
    }

    /// One step of `at`: its operation on this word, and its move after it.
    /// An attempt at rest stays as it is.
    pub fn step(&mut self, at: Attempt) -> (after: Attempt)
        ensures
            at_rest(old(self)@, at) ==> after == at && final(self)@ == old(self)@,
            !at_rest(old(self)@, at) ==> after == at.advanced(old(self)@),
            !at_rest(old(self)@, at) ==> final(self)@ == written(old(self)@, at.action()),
    {
        if at.is_held() || self.blocks(&at) {
            at
        } else {
            let seen = self.perform(at.act());
            at.advance(seen)
        }
    }

    /// Runs `at` until it rests: until it holds the lock or sleeps on the
    /// word.
    pub fn run(&mut self, at: Attempt) -> (after: Attempt)
        ensures
            (final(self)@, after) == ran(old(self)@, at),
            at_rest(final(self)@, after),
    {
        let mut now = at;
        while !(now.is_held() || self.blocks(&now))
            invariant
                ran(self@, now) == ran(old(self)@, at),
            decreases rank(self@, now),
        {
            now = self.step(now);
        }
        now
    }

    /// Swaps `FREE` in and says whether a sleeper is owed a wake.
    pub fn release(&mut self) -> (wake: bool)
        ensures
            final(self)@ == FREE,
            wake == wake_owed(old(self)@),
    {
        let before = self.state;
        self.state = FREE;
        wakes(before)
    }
}

} // verus!
