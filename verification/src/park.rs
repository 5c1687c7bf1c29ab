//! The queue of parked threads, kept in a shared cell.

use vstd::prelude::*;
use crate::atom::{Atom, ControlBlock};

verus! {

/// The threads that are parked, first come first: each is known by the
/// number under which its owner can find it again.
pub struct Park {
    handle: Atom<Vec<u64>>,
    block: ControlBlock<Vec<u64>>,
}

impl View for Park {
    type V = Seq<u64>;

    closed spec fn view(&self) -> Seq<u64> {
        self.block@.value.unwrap()@
    }
}

impl Park {
    /// The queue's cell is whole, and its value alive.
    pub closed spec fn wf(&self) -> bool {
        self.block@.wf() && self.block@.alive()
    }

    /// An empty queue.
    pub fn new() -> (park: Park)
        ensures
            park.wf(),
            park@ == Seq::<u64>::empty(),
    {
        let (handle, block) = Atom::new(Vec::new());
        Park { handle, block }
    }

    /// Queues `thread`, which is then to be parked.
    pub fn park(&mut self, thread: u64)
        requires
            old(self).wf(),
        ensures
            final(self).wf(),
            final(self)@ == old(self)@.push(thread),
    {
        let queue = |threads: &mut Vec<u64>|
            ensures
                final(threads)@ == old(threads)@.push(thread),
        {
            threads.push(thread);
        };
        self.handle.lock(&mut self.block, queue);
    }

    /// Takes the thread that has waited longest off the queue: it is then to
    /// be unparked. `None` if no thread is parked.
    pub fn unpark(&mut self) -> (thread: Option<u64>)
        requires
            old(self).wf(),
        ensures
            final(self).wf(),
            old(self)@.len() == 0 ==> thread is None && final(self)@ == old(self)@,
            old(self)@.len() > 0 ==> thread == Some(old(self)@[0]) && final(self)@ == old(
                self,
            )@.drop_first(),
    {
        let take = |threads: &mut Vec<u64>| -> (first: Option<u64>)
            ensures
                old(threads)@.len() == 0 ==> first is None && final(threads)@ == old(threads)@,
                old(threads)@.len() > 0 ==> first == Some(old(threads)@[0]) && final(threads)@
                    == old(threads)@.drop_first(),
        {
            if threads.len() > 0 {
                let first = threads.remove(0);
                assert(threads@ =~= old(threads)@.drop_first());
                Some(first)
            } else {
                None
            }
        };
        self.handle.map_mut(&mut self.block, take)
    }

    /// The threads that are parked, all of which are then to be unparked.
    /// They stay queued.
    pub fn unpark_all(&mut self) -> (threads: Vec<u64>)
        requires
            old(self).wf(),
        ensures
            final(self).wf(),
            threads@ == old(self)@,
            final(self)@ == old(self)@,
    {
        let copy = |threads: &Vec<u64>| -> (copy: Vec<u64>)
            ensures
                copy@ == threads@,
        {
            threads.clone()
        };
        self.handle.map(&mut self.block, copy)
    }
}

} // verus!
