//! Points in time as seconds and nanoseconds, and the arithmetic on them.

use vstd::prelude::*;

verus! {

/// Nanoseconds in a second.
pub const NSEC_PER_SEC: u64 = 1_000_000_000;

/// A span of time: whole seconds, and nanoseconds below one second.
#[derive(Copy, Clone, Debug, PartialEq, Eq, Structural, PartialOrd, Ord, Hash)]
pub struct Duration {
    secs: u64,
    nanos: u32,
}

/// A point in time: seconds, and nanoseconds below one second after them.
#[derive(Copy, Clone, Debug, PartialEq, Eq, Structural, PartialOrd, Ord, Hash)]
pub struct Timespec {
    tv_sec: i64,
    tv_nsec: i64,
}

/// A point on the system's clock.
#[derive(Copy, Clone, Debug, PartialEq, Eq, Structural, PartialOrd, Ord, Hash)]
pub struct SystemTime {
    pub t: Timespec,
}

/// A point on the monotonic clock.
#[derive(Copy, Clone, Debug, PartialEq, Eq, Structural, PartialOrd, Ord, Hash)]
pub struct Instant {
    pub t: Timespec,
}

impl Duration {
    /// Whole seconds.
    pub closed spec fn secs(self) -> int {
        self.secs as int
    }

    /// Nanoseconds below one second.
    pub closed spec fn nanos(self) -> int {
        self.nanos as int
    }

    #[verifier::type_invariant]
    spec fn below_a_second(self) -> bool {
        self.nanos < NSEC_PER_SEC
    }

    /// The span as nanoseconds.
    pub open spec fn total(self) -> int {
        self.secs() * NSEC_PER_SEC + self.nanos()
    }

    /// `secs` seconds and `nanos` nanoseconds, if `nanos` is below one
    /// second.
    pub fn new(secs: u64, nanos: u32) -> (span: Option<Duration>)
        ensures
            span is Some <==> nanos < NSEC_PER_SEC,
            span matches Some(d) ==> d.secs() == secs && d.nanos() == nanos,
    {
        if nanos < 1_000_000_000 {
            Some(Duration { secs, nanos })
        } else {
            None
        }
    }

    /// Whole seconds.
    pub fn as_secs(&self) -> (secs: u64)
        ensures
            secs == self.secs(),
    {
        self.secs
    }

    /// Nanoseconds below one second.
    pub fn subsec_nanos(&self) -> (nanos: u32)
        ensures
            nanos == self.nanos(),
            nanos < NSEC_PER_SEC,
    {
        proof {
            use_type_invariant(self);
        }
        self.nanos
    }
}

impl Timespec {
    /// Seconds.
    pub closed spec fn secs(self) -> int {
        self.tv_sec as int
    }

    /// Nanoseconds after them.
    pub closed spec fn nanos(self) -> int {
        self.tv_nsec as int
    }

    #[verifier::type_invariant]
    spec fn below_a_second(self) -> bool {
        0 <= self.tv_nsec < NSEC_PER_SEC
    }

    /// The point as nanoseconds.
    pub open spec fn total(self) -> int {
        self.secs() * NSEC_PER_SEC + self.nanos()
    }

    /// The point `tv_nsec` nanoseconds after second `tv_sec`, if `tv_nsec` is
    /// not negative and below one second.
    pub fn new(tv_sec: i64, tv_nsec: i64) -> (point: Option<Timespec>)
        ensures
            point is Some <==> 0 <= tv_nsec < NSEC_PER_SEC,
            point matches Some(p) ==> p.secs() == tv_sec && p.nanos() == tv_nsec,
    {
        if 0 <= tv_nsec && tv_nsec < 1_000_000_000 {
            Some(Timespec { tv_sec, tv_nsec })
        } else {
            None
        }
    }

    /// Seconds.
    pub fn tv_sec(&self) -> (secs: i64)
        ensures
            secs == self.secs(),
    {
        self.tv_sec
    }

    /// Nanoseconds after them.
    pub fn tv_nsec(&self) -> (nanos: i64)
        ensures
            nanos == self.nanos(),
            0 <= nanos < NSEC_PER_SEC,
    {
        proof {
            use_type_invariant(self);
        }
        self.tv_nsec
    }

    /// The point `other` later, unless the seconds of `other`, or those of
    /// the sum, are beyond an `i64`.
    pub fn checked_add_duration(&self, other: &Duration) -> (sum: Option<Timespec>)
        ensures
            sum is Some <==> other.secs() <= i64::MAX && (self.total() + other.total()) / (
            NSEC_PER_SEC as int) <= i64::MAX,
            sum matches Some(s) ==> s.total() == self.total() + other.total(),
    {
        proof {
            use_type_invariant(self);
            use_type_invariant(other);
            lemma_carry(self.secs() + other.secs(), self.nanos() + other.nanos());
        }
        if other.secs > 0x7fff_ffff_ffff_ffff {
            return None;
        }
        let secs = match self.tv_sec.checked_add(other.secs as i64) {
            Some(secs) => secs,
            None => { return None; },
        };
        let nsec = other.nanos as i64 + self.tv_nsec;
        if nsec >= 1_000_000_000 {
            match secs.checked_add(1) {
                Some(secs) => Some(Timespec { tv_sec: secs, tv_nsec: nsec - 1_000_000_000 }),
                None => None,
            }
        } else {
            Some(Timespec { tv_sec: secs, tv_nsec: nsec })
        }
    }
}

/// Seconds and nanoseconds, the nanoseconds below two seconds, make as many
/// whole seconds as the seconds and the carry.
proof fn lemma_carry(secs: int, nanos: int)
    requires
        0 <= nanos < 2 * NSEC_PER_SEC,
    ensures
        (secs * NSEC_PER_SEC + nanos) / (NSEC_PER_SEC as int) == if nanos >= NSEC_PER_SEC {
            secs + 1
        } else {
            secs
        },
{
    let n = NSEC_PER_SEC as int;
    if nanos >= n {
        assert((secs * n + nanos) == (secs + 1) * n + (nanos - n)) by (nonlinear_arith);
        vstd::arithmetic::div_mod::lemma_fundamental_div_mod_converse(
            secs * n + nanos,
            n,
            secs + 1,
            nanos - n,
        );
    } else {
        vstd::arithmetic::div_mod::lemma_fundamental_div_mod_converse(
            secs * n + nanos,
            n,
            secs,
            nanos,
        );
    }
}

/// What a system call returns when it failed.
pub trait IsMinusOne: Sized {
    /// Whether the value is minus one.
    spec fn minus_one(&self) -> bool;

    /// Whether the value is minus one.
    fn is_minus_one(&self) -> (b: bool)
        ensures
            b == self.minus_one(),
    ;
}

impl IsMinusOne for i8 {
    open spec fn minus_one(&self) -> bool {
        *self == -1
    }

    fn is_minus_one(&self) -> (b: bool) {
        *self == -1
    }
}

impl IsMinusOne for i16 {
    open spec fn minus_one(&self) -> bool {
        *self == -1
    }

    fn is_minus_one(&self) -> (b: bool) {
        *self == -1
    }
}

impl IsMinusOne for i32 {
    open spec fn minus_one(&self) -> bool {
        *self == -1
    }

    fn is_minus_one(&self) -> (b: bool) {
        *self == -1
    }
}

impl IsMinusOne for i64 {
    open spec fn minus_one(&self) -> bool {
        *self == -1
    }

    fn is_minus_one(&self) -> (b: bool) {
        *self == -1
    }
}

impl IsMinusOne for isize {
    open spec fn minus_one(&self) -> bool {
        *self == -1
    }

    fn is_minus_one(&self) -> (b: bool) {
        *self == -1
    }
}

/// The failure of a system call. The reason is the caller's to fetch from
/// the system, before any other call.
#[derive(Copy, Clone, Debug, PartialEq, Eq, Structural)]
pub struct Failed;

/// Turns what a system call returned into a result: minus one is the
/// failure, any other value comes back as it is.
pub fn cvt<T: IsMinusOne>(t: T) -> (r: Result<T, Failed>)
    ensures
        t.minus_one() ==> r == Err::<T, Failed>(Failed),
        !t.minus_one() ==> r == Ok::<T, Failed>(t),
{
    if t.is_minus_one() {
        Err(Failed)
    } else {
        Ok(t)
    }
}

} // verus!
