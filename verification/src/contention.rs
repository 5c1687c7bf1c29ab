//! Many threads on one lock word, each counting up a shared counter under the
//! lock, one operation at a time and in any order.
//!
//! A move of a thread is one operation of its [`Attempt`], or one access to
//! the counter, or the swap that frees the lock, or the wake after it. A
//! thread that waits on a contended word falls asleep and moves again only
//! once it is woken, by a wake or by nothing at all.

use vstd::prelude::*;
use crate::acquire::{wake_owed, Attempt, Backoff, Phase, CONTENDED, FREE};
use crate::word::{blocked, written};

verus! {

/// Where a thread stands in its round.
pub enum Pc {
    /// Outside the lock, between two rounds.
    Idle,
    /// In its attempt to take the lock.
    Acquiring(Attempt),
    /// Holds the lock and is about to read the counter.
    Reading,
    /// Holds the lock, has read the counter and is about to write it back,
    /// one higher.
    Writing(int),
    /// Holds the lock and is about to free it.
    Releasing,
    /// Has freed a contended lock and is about to wake one sleeper.
    Waking,
}

/// One thread.
pub struct Worker {
    pub pc: Pc,
    /// Asleep on the word.
    pub asleep: bool,
    /// Rounds that it still has to make.
    pub todo: nat,
    pub backoff: Backoff,
}

/// The lock word, the counter and the threads.
pub struct World {
    pub word: u32,
    pub counter: int,
    pub workers: Seq<Worker>,
}

/// What happens next.
pub enum Move {
    /// Thread `who` takes its next step; if that step is a wake and some
    /// thread is asleep, `wakes` is the one woken.
    Run { who: int, wakes: int },
    /// Thread `who` wakes though nobody woke it.
    Stir { who: int },
}

/// The state of a thread whose attempt has come to `at`.
pub open spec fn entered(at: Attempt) -> Pc {
    if at.held() {
        Pc::Reading
    } else {
        Pc::Acquiring(at)
    }
}

impl Worker {
    /// Whether the thread holds the lock.
    pub open spec fn holds(self) -> bool {
        self.pc is Reading || self.pc is Writing || self.pc is Releasing
    }

    /// Whether the thread has made all its rounds.
    pub open spec fn finished(self) -> bool {
        self.pc is Idle && self.todo == 0
    }

    /// The thread once it is awake again.
    pub open spec fn awoken(self) -> Worker {
        match self.pc {
            Pc::Acquiring(at) => Worker { pc: entered(at.advanced(FREE)), asleep: false, ..self },
            _ => Worker { asleep: false, ..self },
        }
    }

    /// What holds of a thread by itself, before a counter that stands at
    /// `counter`: only a waiting thread sleeps, a thread inside a round has
    /// that round still to make, and a writer has read what the counter holds.
    pub open spec fn sane(self, counter: int) -> bool {
        match self.pc {
            Pc::Acquiring(at) => !at.held() && self.todo > 0 && (self.asleep ==> at.phase
                == Phase::Park),
            Pc::Reading => !self.asleep && self.todo > 0,
            Pc::Writing(seen) => !self.asleep && self.todo > 0 && seen == counter,
            _ => !self.asleep,
        }
    }

    /// Whether the thread is awake and bound to mark the word contended, or
    /// to wake a sleeper, before it sleeps or takes the lock.
    pub open spec fn rouses(self) -> bool {
        !self.asleep && match self.pc {
            Pc::Waking => true,
            Pc::Acquiring(at) => match at.phase {
                Phase::Nap { woken } => woken,
                Phase::Spin { woken, .. } => woken,
                Phase::Yield { woken, .. } => woken,
                Phase::Mark => true,
                Phase::Park => true,
                _ => false,
            },
            _ => false,
        }
    }
}

impl World {
    /// `n` threads with `m` rounds each before a free lock and a counter at
    /// zero.
    pub open spec fn init(n: nat, m: nat, backoff: Backoff) -> World {
        World {
            word: FREE,
            counter: 0,
            workers: Seq::new(n, |i: int| Worker { pc: Pc::Idle, asleep: false, todo: m, backoff }),
        }
    }

    pub open spec fn has(self, i: int) -> bool {
        0 <= i < self.workers.len()
    }

    pub open spec fn sleeps(self, i: int) -> bool {
        self.has(i) && self.workers[i].asleep
    }

    pub open spec fn some_sleeps(self) -> bool {
        exists|i: int| self.sleeps(i)
    }

    /// Whether every thread has made all its rounds.
    pub open spec fn all_finished(self) -> bool {
        forall|i: int| self.has(i) ==> (#[trigger] self.workers[i]).finished()
    }

    /// Whether the move can be made.
    pub open spec fn admits(self, mv: Move) -> bool {
        match mv {
            Move::Run { who, wakes } => {
                &&& self.has(who)
                &&& !self.workers[who].asleep
                &&& !self.workers[who].finished()
                &&& (self.workers[who].pc is Waking && self.some_sleeps() ==> self.sleeps(wakes))
            },
            Move::Stir { who } => self.sleeps(who),
        }
    }

    /// The world with thread `i` replaced.
    pub open spec fn with(self, i: int, worker: Worker) -> World {
        World { workers: self.workers.update(i, worker), ..self }
    }

    /// The world after the move.
    pub open spec fn moved(self, mv: Move) -> World {
        match mv {
            Move::Stir { who } => self.with(who, self.workers[who].awoken()),
            Move::Run { who, wakes } => {
                let me = self.workers[who];
                match me.pc {
                    Pc::Idle => self.with(
                        who,
                        Worker { pc: Pc::Acquiring(Attempt::start(me.backoff)), ..me },
                    ),
                    Pc::Acquiring(at) => if blocked(self.word, at) {
                        self.with(who, Worker { asleep: true, ..me })
                    } else {
                        World { word: written(self.word, at.action()), ..self }.with(
                            who,
                            Worker { pc: entered(at.advanced(self.word)), ..me },
                        )
                    },
                    Pc::Reading => self.with(who, Worker { pc: Pc::Writing(self.counter), ..me }),
                    Pc::Writing(seen) => World { counter: seen + 1, ..self }.with(
                        who,
                        Worker { pc: Pc::Releasing, todo: (me.todo - 1) as nat, ..me },
                    ),
                    Pc::Releasing => World { word: FREE, ..self }.with(
                        who,
                        Worker {
                            pc: if wake_owed(self.word) {
                                Pc::Waking
                            } else {
                                Pc::Idle
                            },
                            ..me
                        },
                    ),
                    Pc::Waking => if self.sleeps(wakes) {
                        self.with(wakes, self.workers[wakes].awoken()).with(
                            who,
                            Worker { pc: Pc::Idle, ..me },
                        )
                    } else {
                        self.with(who, Worker { pc: Pc::Idle, ..me })
                    },
                }
            },
        }
    }

    /// Whether the moves can be made one after the other.
    pub open spec fn admits_all(self, moves: Seq<Move>) -> bool
        decreases moves.len(),
    {
        moves.len() > 0 ==> self.admits(moves[0]) && self.moved(moves[0]).admits_all(moves.skip(1))
    }

    /// The world after the moves.
    pub open spec fn moved_all(self, moves: Seq<Move>) -> World
        decreases moves.len(),
    {
        if moves.len() == 0 {
            self
        } else {
            self.moved(moves[0]).moved_all(moves.skip(1))
        }
    }

    /// At most one thread holds the lock.
    pub open spec fn exclusive(self) -> bool {
        forall|i: int, j: int|
            self.has(i) && self.has(j) && (#[trigger] self.workers[i]).holds() && (
            #[trigger] self.workers[j]).holds() ==> i == j
    }

    /// While a thread sleeps, the word is contended, or a thread is awake that
    /// will mark it so or wake a sleeper.
    pub open spec fn roused(self) -> bool {
        self.some_sleeps() ==> self.word == CONTENDED || exists|i: int|
            self.has(i) && (#[trigger] self.workers[i]).rouses()
    }

    /// What holds of every world that the threads can reach, `total` being
    /// the rounds that all threads together began with.
    pub open spec fn sound(self, total: int) -> bool {
        &&& forall|i: int| self.has(i) ==> (#[trigger] self.workers[i]).sane(self.counter)
        &&& self.exclusive()
        &&& (self.word == FREE <==> forall|i: int|
            self.has(i) ==> !(#[trigger] self.workers[i]).holds())
        &&& self.counter + rounds_left(self.workers) == total
        &&& self.roused()
    }
}

/// The rounds that the threads still have to make, all together.
pub open spec fn rounds_left(workers: Seq<Worker>) -> int
    decreases workers.len(),
{
    if workers.len() == 0 {
        0
    } else {
        rounds_left(workers.drop_last()) + workers.last().todo
    }
}

impl Move {
    /// The thread that moves.
    pub open spec fn who(self) -> int {
        match self {
            Move::Run { who, .. } => who,
            Move::Stir { who } => who,
        }
    }
}

impl World {
    /// Whether the move wakes thread `i`.
    pub open spec fn wakes(self, mv: Move, i: int) -> bool {
        mv matches Move::Run { who, wakes } && self.workers[who].pc is Waking && wakes == i
            && self.sleeps(i)
    }
}

proof fn lemma_frame(w: World, mv: Move)
    requires
        w.admits(mv),
    ensures
        w.moved(mv).workers.len() == w.workers.len(),
        forall|j: int|
            w.has(j) && j != mv.who() && !w.wakes(mv, j) ==> (#[trigger] w.moved(mv).workers[j])
                == w.workers[j],
        forall|j: int|
            w.wakes(mv, j) ==> (#[trigger] w.moved(mv).workers[j]) == w.workers[j].awoken(),
{
}

proof fn lemma_rounds_left_update(workers: Seq<Worker>, i: int, worker: Worker)
    requires
        0 <= i < workers.len(),
    ensures
        rounds_left(workers.update(i, worker)) == rounds_left(workers) - workers[i].todo
            + worker.todo,
    decreases workers.len(),
{
    let updated = workers.update(i, worker);
    if i == workers.len() - 1 {
        assert(updated.drop_last() =~= workers.drop_last());
    } else {
        assert(updated.drop_last() =~= workers.drop_last().update(i, worker));
        lemma_rounds_left_update(workers.drop_last(), i, worker);
    }
}

proof fn lemma_rounds_left_init(n: nat, m: nat, backoff: Backoff)
    ensures
        rounds_left(World::init(n, m, backoff).workers) == n * m,
    decreases n,
{
    let workers = World::init(n, m, backoff).workers;
    if n > 0 {
        let fewer = World::init((n - 1) as nat, m, backoff).workers;
        assert(workers.drop_last() =~= fewer);
        lemma_rounds_left_init((n - 1) as nat, m, backoff);
        assert(workers.last().todo == m);
        assert((n - 1) * m + m == n * m) by (nonlinear_arith);
    } else {
        assert(workers.len() == 0);
        assert(0 * m == 0) by (nonlinear_arith);
    }
}

proof fn lemma_rounds_left_none(workers: Seq<Worker>)
    requires
        forall|i: int| 0 <= i < workers.len() ==> (#[trigger] workers[i]).todo == 0,
    ensures
        rounds_left(workers) == 0,
    decreases workers.len(),
{
    if workers.len() > 0 {
        lemma_rounds_left_none(workers.drop_last());
    }
}

proof fn lemma_init_sound(n: nat, m: nat, backoff: Backoff)
    ensures
        World::init(n, m, backoff).sound((n * m) as int),
{
    lemma_rounds_left_init(n, m, backoff);
}

proof fn lemma_move_keeps_sane(w: World, mv: Move, total: int)
    requires
        w.sound(total),
        w.admits(mv),
    ensures
        forall|i: int| w.has(i) ==> (#[trigger] w.moved(mv).workers[i]).sane(w.moved(mv).counter),
{
    lemma_frame(w, mv);
    let v = w.moved(mv);
    assert forall|i: int| w.has(i) implies (#[trigger] v.workers[i]).sane(v.counter) by {
        assert(w.workers[i].sane(w.counter));
        assert(w.workers[mv.who()].sane(w.counter));
        if v.counter != w.counter {
            // Only a writer moves the counter, and it alone holds the lock.
            assert(w.workers[mv.who()].holds());
            if w.workers[i].pc is Writing {
                assert(w.workers[i].holds());
            }
        }
    }
}

proof fn lemma_move_keeps_exclusive(w: World, mv: Move, total: int)
    requires
        w.sound(total),
        w.admits(mv),
    ensures
        w.moved(mv).exclusive(),
        w.moved(mv).word == FREE <==> forall|i: int|
            w.has(i) ==> !(#[trigger] w.moved(mv).workers[i]).holds(),
{
    lemma_frame(w, mv);
    let v = w.moved(mv);
    let who = mv.who();
    assert(w.workers[who].sane(w.counter));
    assert forall|j: int| w.has(j) && j != who implies (#[trigger] v.workers[j]).holds()
        == w.workers[j].holds() by {
        assert(w.workers[j].sane(w.counter));
    }
    if v.workers[who].holds() && !w.workers[who].holds() {
        // The lock was taken: the word was free, so nobody held it.
        assert(w.word == FREE);
        assert(v.word != FREE);
    } else if w.workers[who].holds() && !v.workers[who].holds() {
        assert(v.word == FREE);
    } else {
        assert(v.word == FREE <==> w.word == FREE);
    }
    if v.word != FREE {
        if v.workers[who].holds() {
        } else {
            assert(w.word != FREE);
            let h = choose|h: int| w.has(h) && (#[trigger] w.workers[h]).holds();
            assert(h != who);
            assert(v.workers[h].holds());
        }
    }
}

proof fn lemma_move_keeps_count(w: World, mv: Move, total: int)
    requires
        w.sound(total),
        w.admits(mv),
    ensures
        w.moved(mv).counter + rounds_left(w.moved(mv).workers) == total,
{
    let who = mv.who();
    let me = w.workers[who];
    assert(me.sane(w.counter));
    match mv {
        Move::Stir { who } => {
            lemma_rounds_left_update(w.workers, who, me.awoken());
        },
        Move::Run { who, wakes } => {
            if me.pc is Waking && w.sleeps(wakes) {
                let woken = w.workers[wakes].awoken();
                lemma_rounds_left_update(w.workers, wakes, woken);
                lemma_rounds_left_update(
                    w.workers.update(wakes, woken),
                    who,
                    Worker { pc: Pc::Idle, ..me },
                );
            } else {
                lemma_rounds_left_update(w.workers, who, w.moved(mv).workers[who]);
                assert(w.moved(mv).workers =~= w.workers.update(who, w.moved(mv).workers[who]));
            }
        },
    }
}

proof fn lemma_move_keeps_roused(w: World, mv: Move, total: int)
    requires
        w.sound(total),
        w.admits(mv),
    ensures
        w.moved(mv).roused(),
{
    lemma_frame(w, mv);
    let v = w.moved(mv);
    let who = mv.who();
    let me = w.workers[who];
    assert(me.sane(w.counter));
    if v.some_sleeps() && v.word != CONTENDED {
        let s = choose|s: int| v.sleeps(s);
        if v.workers[who].rouses() {
            // The thread that freed a contended lock, the one that was
            // stirred, and a rouser that has not yet marked the word.
            assert(v.has(who));
        } else if exists|t: int| w.wakes(mv, t) {
            let t = choose|t: int| w.wakes(mv, t);
            assert(w.workers[t].sane(w.counter));
            assert(v.has(t) && v.workers[t].rouses());
        } else {
            // The sleeper slept before, and the word was not contended then
            // either: some other thread was bound to rouse it, and still is.
            assert(s != who);
            assert(w.sleeps(s));
            assert(w.word != CONTENDED);
            let r = choose|r: int| w.has(r) && (#[trigger] w.workers[r]).rouses();
            if me.pc is Waking {
                if let Move::Run { who, wakes } = mv {
                    assert(w.wakes(mv, wakes));
                }
            }
            assert(r != who);
            assert(v.has(r) && v.workers[r].rouses());
        }
    }
}

/// A move that can be made leads from a sound world to a sound one.
pub proof fn lemma_move_sound(w: World, mv: Move, total: int)
    requires
        w.sound(total),
        w.admits(mv),
    ensures
        w.moved(mv).sound(total),
{
    lemma_frame(w, mv);
    lemma_move_keeps_sane(w, mv, total);
    lemma_move_keeps_exclusive(w, mv, total);
    lemma_move_keeps_count(w, mv, total);
    lemma_move_keeps_roused(w, mv, total);
}

/// Moves that can be made lead from a sound world to a sound one.
pub proof fn lemma_moves_sound(w: World, moves: Seq<Move>, total: int)
    requires
        w.sound(total),
        w.admits_all(moves),
    ensures
        w.moved_all(moves).sound(total),
    decreases moves.len(),
{
    if moves.len() > 0 {
        lemma_move_sound(w, moves[0], total);
        lemma_moves_sound(w.moved(moves[0]), moves.skip(1), total);
    }
}

/// Whatever the threads have done, and in whatever order, at most one of them
/// holds the lock, and the word is free exactly when none does.
pub proof fn lemma_one_holder(n: nat, m: nat, backoff: Backoff, moves: Seq<Move>)
    requires
        World::init(n, m, backoff).admits_all(moves),
    ensures
        World::init(n, m, backoff).moved_all(moves).exclusive(),
        ({
            let end = World::init(n, m, backoff).moved_all(moves);
            end.word == FREE <==> forall|i: int| end.has(i) ==> !(#[trigger] end.workers[i]).holds()
        }),
{
    lemma_init_sound(n, m, backoff);
    lemma_moves_sound(World::init(n, m, backoff), moves, (n * m) as int);
}

/// Once `n` threads have each made their `m` rounds, in whatever order their
/// steps fell, the counter stands at `n * m`: no round is lost.
pub proof fn lemma_every_round_counts(n: nat, m: nat, backoff: Backoff, moves: Seq<Move>)
    requires
        World::init(n, m, backoff).admits_all(moves),
        World::init(n, m, backoff).moved_all(moves).all_finished(),
    ensures
        World::init(n, m, backoff).moved_all(moves).counter == n * m,
{
    lemma_init_sound(n, m, backoff);
    lemma_moves_sound(World::init(n, m, backoff), moves, (n * m) as int);
    let end = World::init(n, m, backoff).moved_all(moves);
    assert forall|i: int| 0 <= i < end.workers.len() implies (#[trigger] end.workers[i]).todo
        == 0 by {
        assert(end.has(i));
        assert(end.workers[i].finished());
    }
    lemma_rounds_left_none(end.workers);
}

/// While a thread has a round left, some thread can take a step without being
/// stirred: the threads never all sleep, however many they are, and no wake
/// is lost.
pub proof fn lemma_some_thread_runs(n: nat, m: nat, backoff: Backoff, moves: Seq<Move>)
    requires
        World::init(n, m, backoff).admits_all(moves),
        !World::init(n, m, backoff).moved_all(moves).all_finished(),
    ensures
        exists|who: int, wakes: int|
            World::init(n, m, backoff).moved_all(moves).admits(Move::Run { who, wakes }),
{
    lemma_init_sound(n, m, backoff);
    lemma_moves_sound(World::init(n, m, backoff), moves, (n * m) as int);
    let end = World::init(n, m, backoff).moved_all(moves);
    let late = choose|i: int| end.has(i) && !(#[trigger] end.workers[i]).finished();
    assert(end.workers[late].sane(end.counter));
    // A thread that is awake and has not finished.
    let who = if !end.workers[late].asleep {
        late
    } else {
        assert(end.sleeps(late));
        if end.word == CONTENDED {
            choose|h: int| end.has(h) && (#[trigger] end.workers[h]).holds()
        } else {
            choose|r: int| end.has(r) && (#[trigger] end.workers[r]).rouses()
        }
    };
    assert(end.workers[who].sane(end.counter));
    assert(end.has(who) && !end.workers[who].asleep && !end.workers[who].finished());
    let wakes = if end.some_sleeps() {
        choose|s: int| end.sleeps(s)
    } else {
        0
    };
    assert(end.admits(Move::Run { who, wakes }));
}

} // verus!
