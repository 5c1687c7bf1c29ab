//! The two reference counts: what each operation on a count decides from the
//! value it found there.

use vstd::prelude::*;

verus! {

/// What a weak handle does after it has seen the strong count.
#[derive(Clone, Copy, Debug, PartialEq, Eq, Structural)]
pub enum Upgrade {
    /// The count is zero: the value is gone, and the upgrade fails for good.
    Dead,
    /// The count has no room for one more handle.
    Full,
    /// Compare-and-exchange `from` for `to`; if another thread was faster,
    /// decide again from what it left.
    Try { from: usize, to: usize },
}

/// The step of an upgrade that has seen `seen` strong handles. A count of zero
/// is never raised; any other is raised by one, and only from the very value
/// that was seen.
pub open spec fn upgrade_step(seen: usize) -> Upgrade {
    if seen == 0 {
        Upgrade::Dead
    } else if seen == usize::MAX {
        Upgrade::Full
    } else {
        Upgrade::Try { from: seen, to: (seen + 1) as usize }
    }
}

/// Decides the next step of an upgrade that has seen `seen` strong handles.
pub fn upgrade_from(seen: usize) -> (step: Upgrade)
    ensures
        step == upgrade_step(seen),
{
    if seen == 0 {
        Upgrade::Dead
    } else if seen == usize::MAX {
        Upgrade::Full
    } else {
        Upgrade::Try { from: seen, to: seen + 1 }
    }
}

/// Whether a count that stood at `before` when one was added had no room
/// for it.
pub fn overflows(before: usize) -> (full: bool)
    ensures
        full == (before == usize::MAX),
{
    before == usize::MAX
}

/// Whether the handle that took one off a count that stood at `before` was
/// the last one.
pub fn was_last(before: usize) -> (last: bool)
    ensures
        last == (before == 1),
{
    before == 1
}

/// A count that one thread at a time operates on.
pub struct Count {
    n: usize,
}

impl View for Count {
    type V = usize;

    closed spec fn view(&self) -> usize {
        self.n
    }
}

impl Count {
    /// A count of one.
    pub fn one() -> (count: Count)
        ensures
            count@ == 1,
    {
        Count { n: 1 }
    }

    /// The count.
    pub fn load(&self) -> (n: usize)
        ensures
            n == self@,
    {
        self.n
    }

    /// Adds one and returns the count before.
    pub fn fetch_add(&mut self) -> (before: usize)
        requires
            old(self)@ < usize::MAX,
        ensures
            before == old(self)@,
            final(self)@ == old(self)@ + 1,
    {
        let before = self.n;
        self.n = before + 1;
        before
    }

    /// Takes one off and returns the count before.
    pub fn fetch_sub(&mut self) -> (before: usize)
        requires
            old(self)@ > 0,
        ensures
            before == old(self)@,
            final(self)@ == old(self)@ - 1,
    {
        let before = self.n;
        self.n = before - 1;
        before
    }

    /// Puts `to` in place of `from`. Where the count is not `from`, it stays,
    /// and comes back as the error.
    pub fn compare_exchange(&mut self, from: usize, to: usize) -> (found: Result<usize, usize>)
        ensures
            old(self)@ == from ==> found == Ok::<usize, usize>(from) && final(self)@ == to,
            old(self)@ != from ==> found == Err::<usize, usize>(old(self)@) && final(self)@ == old(
                self,
            )@,
    {
        if self.n == from {
            self.n = to;
            Ok(from)
        } else {
            Err(self.n)
        }
    }
}

} // verus!
