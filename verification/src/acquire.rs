//! One thread's attempt to take the lock, as a state machine over the lock
//! word.

use vstd::prelude::*;

verus! {

/// The word of a lock that nobody holds.
pub const FREE: u32 = 0;

/// The word of a lock that is held while no thread waits for it.
pub const LOCKED: u32 = 1;

/// The word of a lock that is held, or was just released, while some thread
/// may be asleep on it.
pub const CONTENDED: u32 = 2;

/// How often a spinning thread looks at a held lock again before it marks the
/// lock contended.
pub const SPINS: u32 = 100;

/// What a thread does between its looks at the word.
#[derive(Clone, Copy, Debug, PartialEq, Eq, Structural)]
pub struct Backoff {
    /// Loads of a held word that are followed by a yield.
    pub spins: u32,
    /// Whether a short sleep comes before the first load.
    pub naps: bool,
}

/// One operation on the lock word or on the calling thread.
#[derive(Clone, Copy, Debug, PartialEq, Eq, Structural)]
pub enum Action {
    /// Compare-and-exchange `FREE` for `LOCKED`, acquire on success, relaxed
    /// on failure.
    TryLock,
    /// Sleep for the shortest time the system offers.
    Sleep,
    /// Load the word, relaxed.
    Load,
    /// Give up the processor.
    Yield,
    /// Swap `CONTENDED` in, acquire.
    Mark,
    /// Block while the word is `CONTENDED`.
    Wait,
    /// Nothing: the lock is held.
    Enter,
}

impl Action {
    /// Whether the operation reads or writes the lock word. The others are
    /// the calling thread's own: it sleeps, yields, waits or goes on.
    pub open spec fn touches_word(self) -> bool {
        self is TryLock || self is Load || self is Mark
    }

    /// Whether the operation reads or writes the lock word.
    pub fn on_word(&self) -> (touches: bool)
        ensures
            touches == self.touches_word(),
    {
        match self {
            Action::TryLock => true,
            Action::Load => true,
            Action::Mark => true,
            _ => false,
        }
    }
}

/// Where an attempt stands.
#[derive(Clone, Copy, Debug, PartialEq, Eq, Structural)]
pub enum Phase {
    /// Before the first compare-and-exchange.
    Start,
    /// About to sleep before looking again.
    Nap { woken: bool },
    /// About to load the word; `left` more yields are allowed.
    Spin { left: u32, woken: bool },
    /// About to yield after having seen the lock held; `left` yields are
    /// allowed after this one.
    Yield { left: u32, woken: bool },
    /// Saw the lock free after the first spin: about to try once more
    /// without marking it.
    Retry,
    /// About to swap `CONTENDED` in.
    Mark,
    /// About to wait on the word.
    Park,
    /// The lock is held.
    Held,
}

/// An attempt to take the lock: its phase, and the backoff it was begun with.
#[derive(Clone, Copy, Debug, PartialEq, Eq, Structural)]
pub struct Attempt {
    pub phase: Phase,
    pub backoff: Backoff,
}

/// The phase after a spin that ended on `state`. Only a thread that has not
/// slept yet may take a free lock without marking it: a woken one must leave
/// the word contended for those still asleep.
pub open spec fn settled(state: u32, woken: bool) -> Phase {
    if state == FREE && !woken {
        Phase::Retry
    } else if state != CONTENDED {
        Phase::Mark
    } else {
        Phase::Park
    }
}

impl Backoff {
    /// Spin with yields, never sleep.
    pub open spec fn spinning() -> Backoff {
        Backoff { spins: SPINS, naps: false }
    }

    /// Sleep once, then look once.
    pub open spec fn napping() -> Backoff {
        Backoff { spins: 0, naps: true }
    }

    /// The phase in which a thread that found the lock taken pauses.
    pub open spec fn pause(self, woken: bool) -> Phase {
        if self.naps {
            Phase::Nap { woken }
        } else {
            Phase::Spin { left: self.spins, woken }
        }
    }

    /// Spin with yields, never sleep.
    pub fn spin() -> (backoff: Backoff)
        ensures
            backoff == Backoff::spinning(),
    {
        Backoff { spins: SPINS, naps: false }
    }

    /// Sleep once, then look once.
    pub fn nap() -> (backoff: Backoff)
        ensures
            backoff == Backoff::napping(),
    {
        Backoff { spins: 0, naps: true }
    }

    /// The phase in which a thread that found the lock taken pauses.
    pub fn paused(&self, woken: bool) -> (phase: Phase)
        ensures
            phase == self.pause(woken),
    {
        if self.naps {
            Phase::Nap { woken }
        } else {
            Phase::Spin { left: self.spins, woken }
        }
    }
}

impl Attempt {
    /// A fresh attempt.
    pub open spec fn start(backoff: Backoff) -> Attempt {
        Attempt { phase: Phase::Start, backoff }
    }

    /// The operation this attempt asks for next.
    pub open spec fn action(self) -> Action {
        match self.phase {
            Phase::Start | Phase::Retry => Action::TryLock,
            Phase::Nap { .. } => Action::Sleep,
            Phase::Spin { .. } => Action::Load,
            Phase::Yield { .. } => Action::Yield,
            Phase::Mark => Action::Mark,
            Phase::Park => Action::Wait,
            Phase::Held => Action::Enter,
        }
    }

    /// The phase after the operation, which saw `seen` in the word: the value
    /// before a compare-and-exchange or a swap, the value a load returned.
    /// Sleeping, yielding and waiting see nothing, and `seen` is ignored.
    pub open spec fn next_phase(self, seen: u32) -> Phase {
        match self.phase {
            Phase::Start => if seen == FREE {
                Phase::Held
            } else {
                self.backoff.pause(false)
            },
            Phase::Nap { woken } => Phase::Spin { left: self.backoff.spins, woken },
            Phase::Spin { left, woken } => if seen != LOCKED || left == 0 {
                settled(seen, woken)
            } else {
                Phase::Yield { left: (left - 1) as u32, woken }
            },
            Phase::Yield { left, woken } => Phase::Spin { left, woken },
            Phase::Retry => if seen == FREE {
                Phase::Held
            } else if seen != CONTENDED {
                Phase::Mark
            } else {
                Phase::Park
            },
            Phase::Mark => if seen == FREE {
                Phase::Held
            } else {
                Phase::Park
            },
            Phase::Park => self.backoff.pause(true),
            Phase::Held => Phase::Held,
        }
    }

    /// The attempt after the operation.
    pub open spec fn advanced(self, seen: u32) -> Attempt {
        Attempt { phase: self.next_phase(seen), backoff: self.backoff }
    }

    /// Whether the lock is held.
    pub open spec fn held(self) -> bool {
        self.phase == Phase::Held
    }

    /// Begins an attempt.
    pub fn begin(backoff: Backoff) -> (at: Attempt)
        ensures
            at == Attempt::start(backoff),
    {
        Attempt { phase: Phase::Start, backoff }
    }

    /// The operation to perform next.
    pub fn act(&self) -> (action: Action)
        ensures
            action == self.action(),
    {
        match self.phase {
            Phase::Start => Action::TryLock,
            Phase::Nap { .. } => Action::Sleep,
            Phase::Spin { .. } => Action::Load,
            Phase::Yield { .. } => Action::Yield,
            Phase::Retry => Action::TryLock,
            Phase::Mark => Action::Mark,
            Phase::Park => Action::Wait,
            Phase::Held => Action::Enter,
        }
    }

    /// Moves on after the operation, which saw `seen` in the word.
    pub fn advance(self, seen: u32) -> (at: Attempt)
        ensures
            at == self.advanced(seen),
    {
        let phase = match self.phase {
            Phase::Start => if seen == FREE {
                Phase::Held
            } else {
                self.backoff.paused(false)
            },
            Phase::Nap { woken } => Phase::Spin { left: self.backoff.spins, woken },
            Phase::Spin { left, woken } => if spin_ends(seen, left) {
                settle(seen, woken)
            } else {
                Phase::Yield { left: left - 1, woken }
            },
            Phase::Yield { left, woken } => Phase::Spin { left, woken },
            Phase::Retry => if seen == FREE {
                Phase::Held
            } else if seen != CONTENDED {
                Phase::Mark
            } else {
                Phase::Park
            },
            Phase::Mark => if seen == FREE {
                Phase::Held
            } else {
                Phase::Park
            },
            Phase::Park => self.backoff.paused(true),
            Phase::Held => Phase::Held,
        };
        Attempt { phase, backoff: self.backoff }
    }

    /// Moves on after an operation that is the thread's own, and saw nothing.
    pub fn pass(self) -> (at: Attempt)
        requires
            !self.action().touches_word(),
        ensures
            forall|seen: u32| at == self.advanced(seen),
    {
        self.advance(FREE)
    }

    /// Whether the lock is held.
    pub fn is_held(&self) -> (held: bool)
        ensures
            held == self.held(),
    {
        self.phase == Phase::Held
    }
}

/// Whether a spinning thread that loaded `state`, with `left` yields still
/// allowed, stops spinning: it does unless the lock is held without waiters
/// and a yield is left.
pub fn spin_ends(state: u32, left: u32) -> (ends: bool)
    ensures
        ends == (state != LOCKED || left == 0),
{
    state != LOCKED || left == 0
}

/// The phase after a spin that ended on `state`.
pub fn settle(state: u32, woken: bool) -> (phase: Phase)
    ensures
        phase == settled(state, woken),
{
    if state == FREE && !woken {
        Phase::Retry
    } else if state != CONTENDED {
        Phase::Mark
    } else {
        Phase::Park
    }
}

/// Whether the thread that swapped `FREE` in, and found `before` there, owes
/// a sleeper a wake: it does if and only if the lock was contended.
pub open spec fn wake_owed(before: u32) -> bool {
    before == CONTENDED
}

/// Whether the thread that swapped `FREE` in, and found `before` there, owes
/// a sleeper a wake.
pub fn wakes(before: u32) -> (wake: bool)
    ensures
        wake == wake_owed(before),
{
    before == CONTENDED
}

} // verus!
