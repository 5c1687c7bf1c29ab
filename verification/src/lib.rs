//! An adaptive lock and a reference-counted shared cell, without what blocks
//! and without what is unsafe.
//!
//! A lock attempt is an [`Attempt`]: it names the next operation on the lock
//! word and, given what that operation saw, moves on. [`Word`] performs the
//! operations on a plain integer, one thread at a time, which is what the
//! proofs run against; [`SharedWord`] performs them on an atomic. Nothing here
//! blocks: where a thread is to sleep, yield or wait, the attempt says so, and
//! the caller sees to it.
//!
//! - [`acquire`]: the attempt, as a table from phase and word to phase.
//! - [`word`], [`spin_park`], [`spin_lock`]: the lock of one thread after
//!   another.
//! - [`contention`]: the lock of many threads at once, and what holds of it:
//!   one holder at a time, no round lost, no wake lost.
//! - [`counts`], [`lifecycle`]: the two reference counts, and what holds of
//!   them: the value torn down once, the block freed once, no upgrade from
//!   zero.
//! - [`atom`], [`atom_ptr`], [`park`]: the cells and the queue of parked
//!   threads, on an owned block.
//! - [`shared`]: the word and the counts as atomics.
//! - [`timespec`], [`ticks`]: points in time and their arithmetic.

pub mod acquire;
pub mod word;
pub mod spin_park;
pub mod spin_lock;
pub mod shared;
pub mod contention;
pub mod counts;
pub mod lifecycle;
pub mod atom;
pub mod atom_ptr;
pub mod park;
pub mod timespec;
pub mod ticks;

pub use acquire::{Action, Attempt, Backoff, Phase};
pub use atom::{Atom, ControlBlock, Weak};
pub use shared::{SharedCounts, SharedWord};
pub use spin_lock::SpinLock;
pub use spin_park::SpinPark;
pub use word::Word;
