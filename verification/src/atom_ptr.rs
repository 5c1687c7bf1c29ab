//! The plain shared cell: one count, and a lock that is a flag on which a
//! thread spins.

use vstd::prelude::*;
use std::marker::PhantomData;
use crate::counts::{was_last, Count};

verus! {

/// The value, the count and the flag, in one block.
pub struct Block<T> {
    data: Option<T>,
    count: Count,
    lock: bool,
}

/// A handle on the block. It carries no pointer: every operation takes the
/// block by reference.
pub struct Atom<T> {
    marker: PhantomData<T>,
}

/// What a block holds.
pub ghost struct Held<T> {
    /// The value, until the last handle is dropped.
    pub data: Option<T>,
    /// The number of handles.
    pub count: nat,
    /// Whether a writer holds the flag.
    pub locked: bool,
}

impl<T> Held<T> {
    /// The block between two operations: the value lives as long as a handle
    /// does, and no writer holds the flag.
    pub open spec fn wf(self) -> bool {
        &&& self.data is Some <==> self.count >= 1
        &&& !self.locked
    }
}

impl<T> View for Block<T> {
    type V = Held<T>;

    closed spec fn view(&self) -> Held<T> {
        Held { data: self.data, count: self.count@ as nat, locked: self.lock }
    }
}

impl<T> Block<T> {
    /// The number of handles.
    pub fn count(&self) -> (n: usize)
        ensures
            n == self@.count,
    {
        self.count.load()
    }

    /// Whether the block is freed: the last handle is dropped.
    pub fn is_freed(&self) -> (gone: bool)
        ensures
            gone == (self@.count == 0),
    {
        self.count.load() == 0
    }
}

impl<T> Atom<T> {
    /// A new block around `value`, with its first handle and the flag down.
    pub fn new(value: T) -> (made: (Atom<T>, Block<T>))
        ensures
            made.1@ == (Held { data: Some(value), count: 1, locked: false }),
            made.1@.wf(),
    {
        let block = Block { data: Some(value), count: Count::one(), lock: false };
        (Atom { marker: PhantomData }, block)
    }

    /// The value, once no writer holds the flag. The flag is not taken.
    pub fn get<'a>(&self, block: &'a Block<T>) -> (value: &'a T)
        requires
            block@.wf(),
            block@.count >= 1,
        ensures
            Some(*value) == block@.data,
    {
        block.data.as_ref().unwrap()
    }

    /// Takes the flag, runs `f` on the value and puts the flag down: the
    /// block holds what `f` left of the value.
    pub fn mutate<F: FnOnce(&mut T)>(&self, block: &mut Block<T>, f: F)
        requires
            old(block)@.wf(),
            old(block)@.count >= 1,
            forall|x: &mut T| *x == old(block)@.data.unwrap() ==> f.requires((x,)),
        ensures
            final(block)@.wf(),
            exists|x: &mut T|
                {
                    &&& *x == old(block)@.data.unwrap()
                    &&& #[trigger] f.ensures((x,), ())
                    &&& final(block)@ == (Held { data: Some(*final(x)), ..old(block)@ })
                },
    {
        block.lock = true;
        f(block.data.as_mut().unwrap());
        block.lock = false;
    }

    /// One more handle on the block.
    pub fn clone(&self, block: &mut Block<T>) -> (handle: Atom<T>)
        requires
            old(block)@.wf(),
            1 <= old(block)@.count < usize::MAX,
        ensures
            final(block)@ == (Held { count: old(block)@.count + 1, ..old(block)@ }),
            final(block)@.wf(),
    {
        block.count.fetch_add();
        Atom { marker: PhantomData }
    }

    /// Gives the handle up, and says whether the block was freed with it: the
    /// last handle tears the value down and frees the block.
    pub fn drop(self, block: &mut Block<T>) -> (freed: bool)
        requires
            old(block)@.wf(),
            old(block)@.count >= 1,
        ensures
            freed == (old(block)@.count == 1),
            final(block)@ == (Held {
                count: (old(block)@.count - 1) as nat,
                data: if freed {
                    None
                } else {
                    old(block)@.data
                },
                ..old(block)@
            }),
            final(block)@.wf(),
    {
        if was_last(block.count.fetch_sub()) {
            block.data = None;
            true
        } else {
            false
        }
    }
}

} // verus!
