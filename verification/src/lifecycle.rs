//! The life of one control block: every operation that a handle performs on
//! the two counts, one at a time and in any order.

use vstd::prelude::*;

verus! {

/// One operation of a handle on the counts.
pub enum Event {
    /// A strong handle was cloned: one more on the strong count.
    StrongCloned,
    /// A strong handle was downgraded: one more on the weak count.
    Downgraded,
    /// A weak handle was cloned: one more on the weak count.
    WeakCloned,
    /// A weak handle tried to raise the strong count from `seen`, the value
    /// it had read at some time before.
    UpgradeTried { seen: nat },
    /// A strong handle was dropped: one off the strong count.
    StrongDropped,
    /// The thread that dropped the last strong handle gave back the unit that
    /// the strong handles held on the weak count.
    Settled,
    /// A weak handle was dropped: one off the weak count.
    WeakDropped,
    /// A strong handle reached the value. The counts stay as they are.
    Reached,
}

/// What the block records: the two counts, how often the value was torn down
/// and how often the block was freed.
pub struct Ledger {
    pub strong: nat,
    pub weak: nat,
    pub teardowns: nat,
    pub frees: nat,
}

impl Ledger {
    /// The ledger of a new block: one strong handle, and on the weak count
    /// the one unit that the strong handles hold together.
    pub open spec fn fresh() -> Ledger {
        Ledger { strong: 1, weak: 1, teardowns: 0, frees: 0 }
    }

    /// Whether an upgrade that saw `seen` raises the count.
    pub open spec fn upgrades(self, seen: nat) -> bool {
        seen != 0 && seen == self.strong
    }

    /// The ledger after the operation. The handle that takes the strong count
    /// to zero tears the value down; the one that takes the weak count to zero
    /// frees the block.
    pub open spec fn after(self, event: Event) -> Ledger {
        match event {
            Event::StrongCloned => Ledger { strong: self.strong + 1, ..self },
            Event::Downgraded | Event::WeakCloned => Ledger { weak: self.weak + 1, ..self },
            Event::UpgradeTried { seen } => if self.upgrades(seen) {
                Ledger { strong: self.strong + 1, ..self }
            } else {
                self
            },
            Event::StrongDropped => Ledger {
                strong: (self.strong - 1) as nat,
                teardowns: if self.strong == 1 {
                    self.teardowns + 1
                } else {
                    self.teardowns
                },
                ..self
            },
            Event::Settled | Event::WeakDropped => Ledger {
                weak: (self.weak - 1) as nat,
                frees: if self.weak == 1 {
                    self.frees + 1
                } else {
                    self.frees
                },
                ..self
            },
            Event::Reached => self,
        }
    }
}

/// A block with the handles that share it.
pub struct Family {
    pub ledger: Ledger,
    /// Strong handles alive.
    pub strong_handles: nat,
    /// Weak handles alive.
    pub weak_handles: nat,
    /// The last strong handle is gone and the strong handles' unit on the weak
    /// count is not yet given back.
    pub owed: bool,
}

impl Family {
    /// A new block with its first strong handle.
    pub open spec fn fresh() -> Family {
        Family { ledger: Ledger::fresh(), strong_handles: 1, weak_handles: 0, owed: false }
    }

    /// Whether some handle is there to perform the operation.
    pub open spec fn admits(self, event: Event) -> bool {
        match event {
            Event::StrongCloned | Event::Downgraded | Event::StrongDropped | Event::Reached => {
                self.strong_handles >= 1
            },
            Event::WeakCloned | Event::UpgradeTried { .. } | Event::WeakDropped => {
                self.weak_handles >= 1
            },
            Event::Settled => self.owed,
        }
    }

    /// The family after the operation.
    pub open spec fn moved(self, event: Event) -> Family {
        let ledger = self.ledger.after(event);
        match event {
            Event::StrongCloned => Family {
                ledger,
                strong_handles: self.strong_handles + 1,
                ..self
            },
            Event::Downgraded | Event::WeakCloned => Family {
                ledger,
                weak_handles: self.weak_handles + 1,
                ..self
            },
            Event::UpgradeTried { seen } => Family {
                ledger,
                strong_handles: if self.ledger.upgrades(seen) {
                    self.strong_handles + 1
                } else {
                    self.strong_handles
                },
                ..self
            },
            Event::StrongDropped => Family {
                ledger,
                strong_handles: (self.strong_handles - 1) as nat,
                owed: self.owed || self.ledger.strong == 1,
                ..self
            },
            Event::Settled => Family { ledger, owed: false, ..self },
            Event::Reached => self,
            Event::WeakDropped => Family {
                ledger,
                weak_handles: (self.weak_handles - 1) as nat,
                ..self
            },
        }
    }

    /// Whether the operations can be performed one after the other.
    pub open spec fn admits_all(self, events: Seq<Event>) -> bool
        decreases events.len(),
    {
        events.len() > 0 ==> self.admits(events[0]) && self.moved(events[0]).admits_all(
            events.skip(1),
        )
    }

    /// The family after the operations.
    pub open spec fn moved_all(self, events: Seq<Event>) -> Family
        decreases events.len(),
    {
        if events.len() == 0 {
            self
        } else {
            self.moved(events[0]).moved_all(events.skip(1))
        }
    }

    /// Whether nothing is left of the family: no handle, and nothing owed.
    pub open spec fn gone(self) -> bool {
        self.strong_handles == 0 && self.weak_handles == 0 && !self.owed
    }

    /// What holds of every family: the strong count counts the strong
    /// handles; the weak count counts the weak handles and one more while a
    /// strong handle lives or its unit is owed; the value is torn down when
    /// the last strong handle goes, the block freed when the weak count
    /// reaches zero, and neither more than once.
    pub open spec fn sound(self) -> bool {
        &&& self.ledger.strong == self.strong_handles
        &&& self.ledger.weak == self.weak_handles + if self.strong_handles >= 1 || self.owed {
            1nat
        } else {
            0nat
        }
        &&& self.owed ==> self.strong_handles == 0
        &&& self.ledger.teardowns == if self.strong_handles == 0 {
            1nat
        } else {
            0nat
        }
        &&& self.ledger.frees == if self.ledger.weak == 0 {
            1nat
        } else {
            0nat
        }
    }
}

/// An operation that a handle can perform leads from a sound family to a
/// sound one.
pub proof fn lemma_event_sound(family: Family, event: Event)
    requires
        family.sound(),
        family.admits(event),
    ensures
        family.moved(event).sound(),
{
}

/// Operations that handles can perform lead from a sound family to a sound
/// one.
pub proof fn lemma_events_sound(family: Family, events: Seq<Event>)
    requires
        family.sound(),
        family.admits_all(events),
    ensures
        family.moved_all(events).sound(),
    decreases events.len(),
{
    if events.len() > 0 {
        lemma_event_sound(family, events[0]);
        lemma_events_sound(family.moved(events[0]), events.skip(1));
    }
}

/// However the handles of a block are cloned, downgraded, upgraded and
/// dropped, and in whatever order: the value is torn down at most once, and
/// exactly once when no strong handle is left; the block is freed at most
/// once, and exactly once when nothing is left of the family.
pub proof fn lemma_freed_once(events: Seq<Event>)
    requires
        Family::fresh().admits_all(events),
    ensures
        ({
            let end = Family::fresh().moved_all(events);
            &&& end.ledger.teardowns <= 1
            &&& end.ledger.frees <= 1
            &&& end.ledger.teardowns == 1 <==> end.strong_handles == 0
            &&& end.ledger.frees == 1 <==> end.gone()
        }),
{
    lemma_events_sound(Family::fresh(), events);
}

/// Whenever a handle reaches the value, the value has not been torn down, and
/// whenever a handle performs anything, the block has not been freed.
pub proof fn lemma_nothing_is_reached_dead(events: Seq<Event>, event: Event)
    requires
        Family::fresh().admits_all(events),
        Family::fresh().moved_all(events).admits(event),
    ensures
        Family::fresh().moved_all(events).ledger.frees == 0,
        event is Reached ==> Family::fresh().moved_all(events).ledger.teardowns == 0,
{
    lemma_events_sound(Family::fresh(), events);
}

/// Once a block is freed, no handle is left to touch it: no operation can be
/// performed.
pub proof fn lemma_nothing_after_free(events: Seq<Event>, event: Event)
    requires
        Family::fresh().admits_all(events),
        Family::fresh().moved_all(events).ledger.frees == 1,
    ensures
        !Family::fresh().moved_all(events).admits(event),
{
    lemma_events_sound(Family::fresh(), events);
}

/// While a strong handle lives, an upgrade that has seen the count as it
/// stands raises it by one.
pub proof fn lemma_upgrade_of_the_living(family: Family)
    requires
        family.sound(),
        family.strong_handles >= 1,
    ensures
        family.ledger.upgrades(family.ledger.strong),
        family.moved(Event::UpgradeTried { seen: family.ledger.strong }).strong_handles
            == family.strong_handles + 1,
{
}

/// Once the last strong handle is dropped, the strong count stays at zero
/// whatever is performed afterwards, so that every later upgrade fails,
/// whatever count it had seen before.
pub proof fn lemma_dead_stays_dead(family: Family, events: Seq<Event>)
    requires
        family.sound(),
        family.strong_handles == 0,
        family.admits_all(events),
    ensures
        family.moved_all(events).ledger.strong == 0,
        family.moved_all(events).strong_handles == 0,
        forall|seen: nat| !family.moved_all(events).ledger.upgrades(seen),
    decreases events.len(),
{
    if events.len() > 0 {
        lemma_event_sound(family, events[0]);
        lemma_dead_stays_dead(family.moved(events[0]), events.skip(1));
    }
}

} // verus!
