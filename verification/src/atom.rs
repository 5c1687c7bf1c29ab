//! The shared cell: a control block, and the strong and weak handles that
//! operate on it.
//!
//! The block is an owned value, and every operation of a handle takes it by
//! reference: this is the cell as one thread after another finds it. A handle
//! carries no pointer; it is the right to operate on the block, made by
//! `new`, `clone`, `downgrade` and `upgrade`, and given up by `drop`.
//!
//! The weak count holds one unit for all strong handles together, so that
//! the block outlives the value while any handle is left. Where blocks refer
//! to each other in a ring, the links forward are strong handles and the
//! links back are weak ones: no ring of strong handles keeps itself alive.

use vstd::prelude::*;
use std::marker::PhantomData;
use crate::acquire::FREE;
use crate::counts::{upgrade_from, was_last, Count, Upgrade};
use crate::lifecycle::{Event, Family, Ledger};
use crate::spin_park::SpinPark;

verus! {

/// The value, the two counts and the lock, in one block.
pub struct ControlBlock<T> {
    strong: Count,
    weak: Count,
    lock: SpinPark,
    value: Option<T>,
}

/// A strong handle: it keeps the value alive and reaches it under the lock.
pub struct Atom<T> {
    marker: PhantomData<T>,
}

/// A weak handle: it keeps the block, not the value, and reaches the value
/// only through a strong handle that `upgrade` gives it.
pub struct Weak<T> {
    marker: PhantomData<T>,
}

/// What a control block holds.
pub ghost struct Contents<T> {
    /// The number of strong handles.
    pub strong: nat,
    /// The number of weak handles, and one more while a strong handle lives.
    pub weak: nat,
    /// The value, while it lives.
    pub value: Option<T>,
    /// The lock word.
    pub word: u32,
}

impl<T> Contents<T> {
    /// A new block around `value`: one strong handle, the strong handles' one
    /// unit on the weak count, and a free lock.
    pub open spec fn fresh(value: T) -> Contents<T> {
        Contents { strong: 1, weak: 1, value: Some(value), word: FREE }
    }

    /// Whether a strong handle lives, and the value with it.
    pub open spec fn alive(self) -> bool {
        self.strong >= 1
    }

    /// Whether the block is freed: no handle of either kind is left.
    pub open spec fn freed(self) -> bool {
        self.weak == 0
    }

    /// Whether a weak handle lives: the weak count holds more than the strong
    /// handles' unit.
    pub open spec fn shared_weakly(self) -> bool {
        self.weak > if self.alive() {
            1nat
        } else {
            0nat
        }
    }

    /// The block between two operations: the value lives as long as a strong
    /// handle does, the strong handles hold the block, and the lock is free.
    pub open spec fn wf(self) -> bool {
        &&& self.value is Some <==> self.alive()
        &&& self.alive() ==> !self.freed()
        &&& self.word == FREE
    }

    /// What the block records of its life.
    pub open spec fn ledger(self) -> Ledger {
        Ledger {
            strong: self.strong,
            weak: self.weak,
            teardowns: if self.value is None {
                1
            } else {
                0
            },
            frees: if self.weak == 0 {
                1
            } else {
                0
            },
        }
    }

    /// The block after an operation on its counts: the counts as the ledger
    /// has them, and the value gone once no strong handle is left.
    pub open spec fn after(self, event: Event) -> Contents<T> {
        let ledger = self.ledger().after(event);
        Contents {
            strong: ledger.strong,
            weak: ledger.weak,
            value: if ledger.strong == 0 {
                None
            } else {
                self.value
            },
            word: self.word,
        }
    }

    /// The block with `value` in place of its value.
    pub open spec fn put(self, value: T) -> Contents<T> {
        Contents { value: Some(value), ..self }
    }
}

impl<T: Clone> Contents<T> {
    /// Whether `copy` may be a copy of the block's value.
    pub open spec fn yields(self, copy: T) -> bool {
        self.value is Some && cloned(self.value.unwrap(), copy)
    }
}

impl<T> View for ControlBlock<T> {
    type V = Contents<T>;

    closed spec fn view(&self) -> Contents<T> {
        Contents {
            strong: self.strong@ as nat,
            weak: self.weak@ as nat,
            value: self.value,
            word: self.lock@,
        }
    }
}

impl<T> ControlBlock<T> {
    /// The number of strong handles.
    pub fn strong(&self) -> (n: usize)
        ensures
            n == self@.strong,
    {
        self.strong.load()
    }

    /// The number of weak handles, and one more while a strong handle lives.
    pub fn weak(&self) -> (n: usize)
        ensures
            n == self@.weak,
    {
        self.weak.load()
    }

    /// Whether the value is torn down.
    pub fn is_torn_down(&self) -> (gone: bool)
        ensures
            gone == (self@.value is None),
    {
        self.value.is_none()
    }

    /// Whether the block is freed.
    pub fn is_freed(&self) -> (gone: bool)
        ensures
            gone == self@.freed(),
    {
        self.weak.load() == 0
    }
}

impl<T> Atom<T> {
    /// A new block around `value`, with its first strong handle.
    pub fn new(value: T) -> (made: (Atom<T>, ControlBlock<T>))
        ensures
            made.1@ == Contents::fresh(value),
            made.1@.wf(),
    {
        let block = ControlBlock {
            strong: Count::one(),
            weak: Count::one(),
            lock: SpinPark::new(),
            value: Some(value),
        };
        (Atom { marker: PhantomData }, block)
    }

    /// A copy of the value, made under the lock.
    pub fn get(&self, block: &mut ControlBlock<T>) -> (copy: T) where T: Clone
        requires
            old(block)@.wf(),
            old(block)@.alive(),
        ensures
            old(block)@.yields(copy),
            final(block)@ == old(block)@,
    {
        let copy = |x: &T| -> (copy: T)
            ensures
                cloned(*x, copy),
        {
            x.clone()
        };
        self.map(block, copy)
    }

    /// Puts `value` in place of the value, under the lock.
    pub fn set(&self, block: &mut ControlBlock<T>, value: T)
        requires
            old(block)@.wf(),
            old(block)@.alive(),
        ensures
            final(block)@ == old(block)@.put(value),
            final(block)@.wf(),
    {
        let put = |x: &mut T|
            ensures
                *final(x) == value,
        {
            *x = value;
        };
        self.map_mut(block, put)
    }

    /// Takes the lock, runs `f` on the value and frees the lock: the block
    /// holds what `f` left of the value.
    pub fn lock<F: FnOnce(&mut T)>(&self, block: &mut ControlBlock<T>, f: F)
        requires
            old(block)@.wf(),
            old(block)@.alive(),
            forall|x: &mut T| *x == old(block)@.value.unwrap() ==> f.requires((x,)),
        ensures
            final(block)@.wf(),
            exists|x: &mut T|
                {
                    &&& *x == old(block)@.value.unwrap()
                    &&& #[trigger] f.ensures((x,), ())
                    &&& final(block)@ == old(block)@.put(*final(x))
                },
    {
        let held = block.lock.lock();
        assert(held);
        f(block.value.as_mut().unwrap());
        let wake = block.lock.unlock();
        assert(!wake);
    }

    /// Takes the lock, runs `f` on the value, frees the lock and returns what
    /// `f` returned.
    pub fn map<U, F: FnOnce(&T) -> U>(&self, block: &mut ControlBlock<T>, f: F) -> (out: U)
        requires
            old(block)@.wf(),
            old(block)@.alive(),
            f.requires((&old(block)@.value.unwrap(),)),
        ensures
            f.ensures((&old(block)@.value.unwrap(),), out),
            final(block)@ == old(block)@,
    {
        let held = block.lock.lock();
        assert(held);
        let out = f(block.value.as_ref().unwrap());
        let wake = block.lock.unlock();
        assert(!wake);
        out
    }

    /// Takes the lock, runs `f` on the value, which it may change, frees the
    /// lock and returns what `f` returned: the block holds what `f` left of
    /// the value.
    pub fn map_mut<U, F: FnOnce(&mut T) -> U>(&self, block: &mut ControlBlock<T>, f: F) -> (out: U)
        requires
            old(block)@.wf(),
            old(block)@.alive(),
            forall|x: &mut T| *x == old(block)@.value.unwrap() ==> f.requires((x,)),
        ensures
            final(block)@.wf(),
            exists|x: &mut T|
                {
                    &&& *x == old(block)@.value.unwrap()
                    &&& #[trigger] f.ensures((x,), out)
                    &&& final(block)@ == old(block)@.put(*final(x))
                },
    {
        let held = block.lock.lock();
        assert(held);
        let out = f(block.value.as_mut().unwrap());
        let wake = block.lock.unlock();
        assert(!wake);
        out
    }

    /// One more strong handle on the block.
    pub fn clone(&self, block: &mut ControlBlock<T>) -> (handle: Atom<T>)
        requires
            old(block)@.wf(),
            old(block)@.alive(),
            old(block)@.strong < usize::MAX,
        ensures
            final(block)@ == old(block)@.after(Event::StrongCloned),
            final(block)@.wf(),
    {
        block.strong.fetch_add();
        Atom { marker: PhantomData }
    }

    /// A weak handle on the block. The lock is not touched.
    pub fn downgrade(&self, block: &mut ControlBlock<T>) -> (handle: Weak<T>)
        requires
            old(block)@.wf(),
            old(block)@.alive(),
            old(block)@.weak < usize::MAX,
        ensures
            final(block)@ == old(block)@.after(Event::Downgraded),
            final(block)@.wf(),
    {
        block.weak.fetch_add();
        Weak { marker: PhantomData }
    }

    /// Gives the handle up. The last strong handle tears the value down and
    /// gives back the unit that the strong handles held on the weak count; if
    /// no weak handle is left either, the block is freed with that.
    pub fn drop(self, block: &mut ControlBlock<T>)
        requires
            old(block)@.wf(),
            old(block)@.alive(),
        ensures
            final(block)@ == if old(block)@.strong == 1 {
                old(block)@.after(Event::StrongDropped).after(Event::Settled)
            } else {
                old(block)@.after(Event::StrongDropped)
            },
            final(block)@.wf(),
    {
        if was_last(block.strong.fetch_sub()) {
            block.value = None;
            block.weak.fetch_sub();
        }
    }
}

impl<T> Weak<T> {
    /// A strong handle on the block, if a strong handle lives: the strong
    /// count is raised from what it was seen to be, never from zero.
    pub fn upgrade(&self, block: &mut ControlBlock<T>) -> (handle: Option<Atom<T>>)
        requires
            old(block)@.wf(),
            old(block)@.shared_weakly(),
            old(block)@.strong < usize::MAX,
        ensures
            handle is Some <==> old(block)@.alive(),
            final(block)@ == old(block)@.after(Event::UpgradeTried { seen: old(block)@.strong }),
            final(block)@.wf(),
    {
        let seen = block.strong.load();
        match upgrade_from(seen) {
            Upgrade::Try { from, to } => match block.strong.compare_exchange(from, to) {
                Ok(_) => Some(Atom { marker: PhantomData }),
                Err(_) => None,
            },
            _ => None,
        }
    }

    /// One more weak handle on the block.
    pub fn clone(&self, block: &mut ControlBlock<T>) -> (handle: Weak<T>)
        requires
            old(block)@.wf(),
            old(block)@.shared_weakly(),
            old(block)@.weak < usize::MAX,
        ensures
            final(block)@ == old(block)@.after(Event::WeakCloned),
            final(block)@.wf(),
    {
        block.weak.fetch_add();
        Weak { marker: PhantomData }
    }

    /// Gives the handle up, and says whether the block was freed with it: it
    /// is if and only if no other handle of either kind is left.
    pub fn drop(self, block: &mut ControlBlock<T>) -> (freed: bool)
        requires
            old(block)@.wf(),
            old(block)@.shared_weakly(),
        ensures
            final(block)@ == old(block)@.after(Event::WeakDropped),
            final(block)@.wf(),
            freed == final(block)@.freed(),
    {
        was_last(block.weak.fetch_sub())
    }
}

/// What the operations ask of the block is that a handle of their kind lives:
/// in a family that owes nothing, a strong handle lives exactly when the
/// block is alive, and a weak one exactly when the weak count holds more than
/// the strong handles' unit.
pub proof fn lemma_handles_are_counted<T>(family: Family, block: Contents<T>)
    requires
        family.sound(),
        !family.owed,
        block.ledger() == family.ledger,
    ensures
        family.strong_handles >= 1 <==> block.alive(),
        family.weak_handles >= 1 <==> block.shared_weakly(),
        family.gone() <==> block.freed(),
{
}

/// What `set` has put into a block, `get` returns: a copy made from the block
/// after `value` was put there is a copy of `value`.
pub proof fn lemma_get_after_set<T: Clone>(block: Contents<T>, value: T, copy: T)
    requires
        block.put(value).yields(copy),
    ensures
        cloned(value, copy),
{
}

/// A strong handle that an upgrade gives sees the value that the handle saw
/// which was downgraded: neither `downgrade` nor `upgrade` touches the value.
pub proof fn lemma_upgrade_sees_the_value<T>(block: Contents<T>)
    requires
        block.wf(),
        block.alive(),
    ensures
        ({
            let shared = block.after(Event::Downgraded);
            let raised = shared.after(Event::UpgradeTried { seen: shared.strong });
            &&& shared.shared_weakly()
            &&& raised.strong == block.strong + 1
            &&& raised.value == block.value
            &&& raised.wf()
        }),
{
}

} // verus!
