use spinout::{Atom, ControlBlock, Weak};

#[test]
fn ut_atom_map() {
    let (atom, mut block) = Atom::new(vec![1, 2, 3]);
    let sum = atom.map(&mut block, |x| x.iter().sum::<i32>());
    assert_eq!(sum, 6);
}

#[test]
fn ut_atom_map_mut() {
    let (atom, mut block) = Atom::new(vec![1, 2, 3]);
    let three = atom.map_mut(&mut block, |x| x.pop().unwrap());
    assert_eq!(three, 3);
    assert_eq!(atom.get(&mut block), vec![1, 2]);
}

#[test]
fn ut_atom_lock() {
    let (atom, mut block) = Atom::new(vec![1, 2, 3]);
    atom.lock(&mut block, |x| x.push(4));
    assert_eq!(atom.get(&mut block), vec![1, 2, 3, 4]);
}

#[test]
fn ut_atom_set() {
    let (atom, mut block) = Atom::new(vec![1, 2, 3]);
    atom.set(&mut block, vec![4, 5, 6]);
    assert_eq!(atom.get(&mut block), vec![4, 5, 6]);
}

#[test]
fn ut_atom_get() {
    let (atom, mut block) = Atom::new(vec![1, 2, 3]);
    let vec = atom.get(&mut block);
    assert_eq!(vec, vec![1, 2, 3]);
}

#[test]
fn ut_atom_new() {
    let (atom, mut block) = Atom::new(vec![1, 2, 3]);
    assert_eq!(atom.get(&mut block), vec![1, 2, 3]);
}

#[test]
fn ut_write_vec_4theads_loop() {
    for _ in 0..10 {
        let (atom, mut block) = Atom::new(vec![1, 1]);
        let t1_atom = atom.clone(&mut block);
        let t2_atom = atom.clone(&mut block);
        let t3_atom = atom.clone(&mut block);
        let t4_atom = atom.clone(&mut block);
        // The four workers take turns, one round each.
        for _ in 0..10 {
            let x = t1_atom.map(&mut block, |x| x[0]);
            t1_atom.lock(&mut block, |x| x[0] = x[0] + 1);
            assert!(x > 0);
            let x = t2_atom.map(&mut block, |x| x[1]);
            t2_atom.lock(&mut block, |x| x[1] = x[1] + 1);
            assert!(x > 0);
            let x = t3_atom.map(&mut block, |x| x[0]);
            t3_atom.lock(&mut block, |x| x[0] = x[0] + 1);
            assert!(x > 0);
            let x = t4_atom.map(&mut block, |x| x[1]);
            t4_atom.lock(&mut block, |x| x[1] = x[1] + 1);
            assert!(x > 0);
        }
        t1_atom.drop(&mut block);
        t2_atom.drop(&mut block);
        t3_atom.drop(&mut block);
        t4_atom.drop(&mut block);

        assert_eq!(atom.get(&mut block), vec![21, 21]);
    }
}

struct DoublyLinkedNode {
    value: i32,
    next: Option<(Atom<DoublyLinkedNode>, usize)>,
    prev: Option<(Weak<DoublyLinkedNode>, usize)>,
}

// The blocks of all nodes; a handle goes with the place of its block.
struct DoublyLinkedList {
    blocks: Vec<ControlBlock<DoublyLinkedNode>>,
    head: Option<(Atom<DoublyLinkedNode>, usize)>,
    tail: Option<(Weak<DoublyLinkedNode>, usize)>,
}

impl DoublyLinkedList {
    fn new() -> Self {
        Self { blocks: Vec::new(), head: None, tail: None }
    }

    fn node(&mut self, value: i32) -> (Atom<DoublyLinkedNode>, usize) {
        let (node, block) = Atom::new(DoublyLinkedNode { value, next: None, prev: None });
        self.blocks.push(block);
        (node, self.blocks.len() - 1)
    }

    fn push_back(&mut self, value: i32) {
        let (node, at) = self.node(value);

        if self.head.is_none() {
            self.head = Some((node.clone(&mut self.blocks[at]), at));
            self.tail = Some((node.downgrade(&mut self.blocks[at]), at));
        } else {
            let (old_tail, t) = self.tail.take().unwrap();
            let tail = old_tail.upgrade(&mut self.blocks[t]).unwrap();
            old_tail.drop(&mut self.blocks[t]);
            let link = node.clone(&mut self.blocks[at]);
            tail.lock(&mut self.blocks[t], |tail| {
                tail.next = Some((link, at));
            });
            let back = tail.downgrade(&mut self.blocks[t]);
            node.lock(&mut self.blocks[at], |node| {
                node.prev = Some((back, t));
            });
            tail.drop(&mut self.blocks[t]);
            self.tail = Some((node.downgrade(&mut self.blocks[at]), at));
        }
        node.drop(&mut self.blocks[at]);
    }

    fn pop_back(&mut self) -> Option<i32> {
        if self.head.is_none() {
            return None;
        }

        let (old_tail, t) = self.tail.take().unwrap();
        let tail = old_tail.upgrade(&mut self.blocks[t]).unwrap();
        old_tail.drop(&mut self.blocks[t]);
        let prev = tail.map_mut(&mut self.blocks[t], |tail| tail.prev.take());

        if let Some((prev, p)) = prev {
            let strong = prev.upgrade(&mut self.blocks[p]).unwrap();
            prev.drop(&mut self.blocks[p]);
            let unlinked = strong.map_mut(&mut self.blocks[p], |prev| prev.next.take());
            if let Some((link, l)) = unlinked {
                link.drop(&mut self.blocks[l]);
            }
            self.tail = Some((strong.downgrade(&mut self.blocks[p]), p));
            strong.drop(&mut self.blocks[p]);
        } else {
            if let Some((head, h)) = self.head.take() {
                head.drop(&mut self.blocks[h]);
            }
            self.tail = None;
        }

        let value = tail.map(&mut self.blocks[t], |tail| tail.value);
        tail.drop(&mut self.blocks[t]);
        Some(value)
    }

    fn push_front(&mut self, value: i32) {
        let (node, at) = self.node(value);

        if self.head.is_none() {
            self.head = Some((node.clone(&mut self.blocks[at]), at));
            self.tail = Some((node.downgrade(&mut self.blocks[at]), at));
            node.drop(&mut self.blocks[at]);
        } else {
            let (head, h) = self.head.take().unwrap();
            let back = node.downgrade(&mut self.blocks[at]);
            head.lock(&mut self.blocks[h], |head| {
                head.prev = Some((back, at));
            });
            node.lock(&mut self.blocks[at], |node| {
                node.next = Some((head, h));
            });
            self.head = Some((node, at));
        }
    }

    fn pop_front(&mut self) -> Option<i32> {
        if self.head.is_none() {
            return None;
        }

        let (head, h) = self.head.take().unwrap();
        let next = head.map_mut(&mut self.blocks[h], |head| head.next.take());

        if let Some((next, n)) = next {
            let back = next.map_mut(&mut self.blocks[n], |next| next.prev.take());
            if let Some((back, b)) = back {
                back.drop(&mut self.blocks[b]);
            }
            self.head = Some((next, n));
        } else {
            if let Some((tail, t)) = self.tail.take() {
                tail.drop(&mut self.blocks[t]);
            }
        }

        let value = head.map(&mut self.blocks[h], |head| head.value);
        head.drop(&mut self.blocks[h]);
        Some(value)
    }

    fn to_vec(&mut self) -> Vec<i32> {
        let mut vec = Vec::new();
        while let Some(node) = self.pop_front() {
            vec.push(node);
        }
        vec
    }
}

#[test]
fn ut_cyclic() {
    let mut list = DoublyLinkedList::new();

    list.push_back(1);
    list.push_back(2);
    list.push_back(3);
    list.push_back(4);

    assert_eq!(list.to_vec(), vec![1, 2, 3, 4]);

    list.push_front(5);
    list.push_front(6);
    list.push_front(7);
    list.push_front(8);

    assert_eq!(list.to_vec(), vec![8, 7, 6, 5]);

    assert_eq!(list.pop_back(), None);
}

#[test]
fn cyclic_list_frees_every_block_once() {
    let mut list = DoublyLinkedList::new();
    list.push_back(1);
    list.push_back(2);
    list.push_front(0);
    assert_eq!(list.pop_back(), Some(2));
    assert_eq!(list.to_vec(), vec![0, 1]);
    assert_eq!(list.blocks.len(), 3);
    for block in list.blocks.iter() {
        assert_eq!(block.strong(), 0);
        assert_eq!(block.weak(), 0);
        assert!(block.is_torn_down());
        assert!(block.is_freed());
    }
}

#[test]
fn new_block_counts_one_and_one() {
    let (_atom, block): (Atom<u8>, ControlBlock<u8>) = Atom::new(7);
    assert_eq!(block.strong(), 1);
    assert_eq!(block.weak(), 1);
    assert!(!block.is_torn_down());
    assert!(!block.is_freed());
}

#[test]
fn set_then_get_returns_what_was_set() {
    let (atom, mut block) = Atom::new(String::from("first"));
    for word in ["", "second", "a much longer third value"] {
        atom.set(&mut block, String::from(word));
        assert_eq!(atom.get(&mut block), word);
    }
    let other = atom.clone(&mut block);
    atom.set(&mut block, String::from("through one handle"));
    assert_eq!(other.get(&mut block), "through one handle");
    assert_eq!(block.strong(), 2);
    assert_eq!(block.weak(), 1);
}

#[test]
fn upgrade_while_alive_sees_the_same_value() {
    let (atom, mut block) = Atom::new(3);
    let weak: Weak<i32> = atom.downgrade(&mut block);
    assert_eq!(block.weak(), 2);
    let again = weak.upgrade(&mut block).unwrap();
    assert_eq!(block.strong(), 2);
    assert_eq!(atom.get(&mut block), again.get(&mut block));
    assert_eq!(again.get(&mut block), 3);
}

#[test]
fn upgrade_succeeds_while_any_strong_handle_lives() {
    let (atom, mut block) = Atom::new(3);
    let weak = atom.downgrade(&mut block);
    let second = weak.upgrade(&mut block).unwrap();
    atom.drop(&mut block);
    assert_eq!(block.strong(), 1);
    let third = weak.upgrade(&mut block).unwrap();
    assert_eq!(block.strong(), 2);
    second.drop(&mut block);
    assert_eq!(third.get(&mut block), 3);
    third.drop(&mut block);
    assert_eq!(block.strong(), 0);
    assert!(weak.upgrade(&mut block).is_none());
}

#[test]
fn upgrade_fails_for_good_once_the_last_strong_handle_is_dropped() {
    let (lone, mut block) = Atom::new(4);
    let weak = lone.downgrade(&mut block);
    lone.drop(&mut block);
    assert_eq!(block.strong(), 0);
    assert!(block.is_torn_down());
    for _ in 0..5 {
        assert!(weak.upgrade(&mut block).is_none());
        assert_eq!((block.strong(), block.weak()), (0, 1));
    }
    let other = weak.clone(&mut block);
    assert!(other.upgrade(&mut block).is_none());
    assert!(!other.drop(&mut block));
    assert!(weak.upgrade(&mut block).is_none());
    assert!(weak.drop(&mut block));
}

struct Tally(std::rc::Rc<std::cell::Cell<u32>>);

impl Drop for Tally {
    fn drop(&mut self) {
        self.0.set(self.0.get() + 1);
    }
}

#[test]
fn the_value_is_torn_down_once_with_the_last_strong_handle() {
    let torn = std::rc::Rc::new(std::cell::Cell::new(0));
    let (atom, mut block) = Atom::new(Tally(torn.clone()));
    let other = atom.clone(&mut block);
    let weak = atom.downgrade(&mut block);
    atom.drop(&mut block);
    assert_eq!(torn.get(), 0);
    other.drop(&mut block);
    assert_eq!(torn.get(), 1);
    assert!(weak.upgrade(&mut block).is_none());
    assert!(weak.drop(&mut block));
    assert_eq!(torn.get(), 1);
    drop(block);
    assert_eq!(torn.get(), 1);
}

#[test]
fn strong_then_weak_dropped_frees_once() {
    let (atom, mut block) = Atom::new(vec![1u8]);
    let weak = atom.downgrade(&mut block);
    assert_eq!((block.strong(), block.weak()), (1, 2));
    atom.drop(&mut block);
    assert_eq!((block.strong(), block.weak()), (0, 1));
    assert!(block.is_torn_down());
    assert!(!block.is_freed());
    let freed = weak.drop(&mut block);
    assert!(freed);
    assert_eq!((block.strong(), block.weak()), (0, 0));
    assert!(block.is_freed());
}

#[test]
fn weak_then_strong_dropped_frees_once() {
    let (atom, mut block) = Atom::new(vec![1u8]);
    let weak = atom.downgrade(&mut block);
    let freed = weak.drop(&mut block);
    assert!(!freed);
    assert_eq!((block.strong(), block.weak()), (1, 1));
    assert!(!block.is_torn_down());
    assert_eq!(atom.get(&mut block), vec![1u8]);
    atom.drop(&mut block);
    assert_eq!((block.strong(), block.weak()), (0, 0));
    assert!(block.is_torn_down());
    assert!(block.is_freed());
}

#[test]
fn a_lone_strong_handle_frees_the_block_with_the_value() {
    let (atom, mut block) = Atom::new(1u64);
    atom.drop(&mut block);
    assert!(block.is_torn_down());
    assert!(block.is_freed());
}

#[test]
fn clones_keep_value_and_block_until_the_last_is_dropped() {
    let (atom, mut block) = Atom::new(9i64);
    let a = atom.clone(&mut block);
    let b = a.clone(&mut block);
    let w = b.downgrade(&mut block);
    let v = w.clone(&mut block);
    assert_eq!((block.strong(), block.weak()), (3, 3));
    atom.drop(&mut block);
    assert!(!v.drop(&mut block));
    b.drop(&mut block);
    assert_eq!((block.strong(), block.weak()), (1, 2));
    assert_eq!(a.get(&mut block), 9);
    a.drop(&mut block);
    assert_eq!((block.strong(), block.weak()), (0, 1));
    assert!(block.is_torn_down());
    assert!(!block.is_freed());
    assert!(w.drop(&mut block));
    assert!(block.is_freed());
}

#[test]
fn four_workers_count_up_two_slots() {
    let (atom, mut block) = Atom::new(vec![0usize, 0]);
    let workers = [
        (atom.clone(&mut block), 0usize, 1usize),
        (atom.clone(&mut block), 1, 2),
        (atom.clone(&mut block), 0, 3),
        (atom.clone(&mut block), 1, 4),
    ];
    for round in 0..1000 {
        // Another order in every round.
        for turn in 0..4 {
            let (handle, slot, step) = &workers[(turn + round) % 4];
            handle.lock(&mut block, |x| x[*slot] += *step);
        }
    }
    assert_eq!(atom.get(&mut block), vec![4000, 6000]);
    assert_eq!(block.strong(), 5);
}
