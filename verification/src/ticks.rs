//! Points in time as ticks of a clock whose tick is a fraction of a
//! nanosecond.

use vstd::prelude::*;
use crate::timespec::{Duration, NSEC_PER_SEC};

verus! {

/// The length of a tick: `numer / denom` nanoseconds. Neither is zero.
#[derive(Copy, Clone, Debug, PartialEq, Eq, Structural)]
pub struct Timebase {
    numer: u32,
    denom: u32,
}

/// A point in time, in ticks.
#[derive(Copy, Clone, Debug, PartialEq, Eq, Structural, PartialOrd, Ord, Hash)]
pub struct Instant {
    t: u64,
}

impl Timebase {
    pub closed spec fn numer(self) -> int {
        self.numer as int
    }

    pub closed spec fn denom(self) -> int {
        self.denom as int
    }

    #[verifier::type_invariant]
    spec fn nonzero(self) -> bool {
        self.numer != 0 && self.denom != 0
    }

    /// A tick of `numer / denom` nanoseconds, if neither is zero.
    pub fn new(numer: u32, denom: u32) -> (info: Option<Timebase>)
        ensures
            info is Some <==> numer != 0 && denom != 0,
            info matches Some(i) ==> i.numer() == numer && i.denom() == denom,
    {
        if numer != 0 && denom != 0 {
            Some(Timebase { numer, denom })
        } else {
            None
        }
    }
}

/// The timebase in one word: the denominator in the high half, the numerator
/// in the low half.
pub open spec fn packed(info: Timebase) -> int {
    info.denom() * 0x1_0000_0000 + info.numer()
}

/// Packs a timebase into one word, which is never zero.
pub fn info_to_bits(info: Timebase) -> (bits: u64)
    ensures
        bits == packed(info),
        bits != 0,
{
    proof {
        use_type_invariant(info);
    }
    let numer = info.numer;
    let denom = info.denom;
    let bits = ((denom as u64) << 32) | (numer as u64);
    assert(bits == denom * 0x1_0000_0000 + numer && bits != 0) by (bit_vector)
        requires
            bits == ((denom as u64) << 32) | (numer as u64),
            denom != 0,
    ;
    bits
}

/// Unpacks a timebase from one word, if both of its halves are set.
pub fn info_from_bits(bits: u64) -> (info: Option<Timebase>)
    ensures
        info matches Some(i) ==> packed(i) == bits,
        info is None <==> bits % 0x1_0000_0000 == 0 || bits / 0x1_0000_0000 == 0,
{
    let numer = (bits & 0xffff_ffff) as u32;
    let denom = (bits >> 32) as u32;
    assert(numer == bits % 0x1_0000_0000 && denom == bits / 0x1_0000_0000) by (bit_vector)
        requires
            numer == (bits & 0xffff_ffff) as u32,
            denom == (bits >> 32) as u32,
    ;
    Timebase::new(numer, denom)
}

/// `value * numer / denom`, rounded down, unless it is beyond a `u64`.
pub fn mul_div_u64(value: u64, numer: u32, denom: u32) -> (scaled: Option<u64>)
    requires
        denom != 0,
    ensures
        scaled is Some <==> value * numer / (denom as int) <= u64::MAX,
        scaled matches Some(s) ==> s == value * numer / (denom as int),
{
    assert(value * numer <= u64::MAX * u32::MAX) by (nonlinear_arith)
        requires
            value <= u64::MAX,
            numer <= u32::MAX,
    ;
    let product: u128 = value as u128 * numer as u128;
    let scaled: u128 = product / denom as u128;
    if scaled <= 0xffff_ffff_ffff_ffff {
        Some(scaled as u64)
    } else {
        None
    }
}

/// The ticks in a span, rounded down, unless they or the span's nanoseconds
/// are beyond a `u64`.
pub fn checked_dur2intervals(dur: &Duration, info: Timebase) -> (ticks: Option<u64>)
    ensures
        ticks is Some <==> dur.total() <= u64::MAX && dur.total() * info.denom() / info.numer()
            <= u64::MAX,
        ticks matches Some(t) ==> t == dur.total() * info.denom() / info.numer(),
{
    proof {
        use_type_invariant(info);
    }
    let secs = dur.as_secs();
    let nanos = dur.subsec_nanos();
    let whole = match secs.checked_mul(NSEC_PER_SEC) {
        Some(whole) => whole,
        None => {
            return None;
        },
    };
    match whole.checked_add(nanos as u64) {
        Some(total) => mul_div_u64(total, info.denom, info.numer),
        None => None,
    }
}

impl Instant {
    /// The ticks.
    pub closed spec fn ticks(self) -> int {
        self.t as int
    }

    /// The point at tick `t`.
    pub fn at(t: u64) -> (point: Instant)
        ensures
            point.ticks() == t,
    {
        Instant { t }
    }

    /// The span from `other` to this point, rounded down to nanoseconds, if
    /// `other` is not later and the nanoseconds fit in a `u64`.
    pub fn checked_sub_instant(&self, other: &Instant, info: Timebase) -> (span: Option<Duration>)
        ensures
            span is Some <==> other.ticks() <= self.ticks() && (self.ticks() - other.ticks())
                * info.numer() / info.denom() <= u64::MAX,
            span matches Some(d) ==> d.total() == (self.ticks() - other.ticks()) * info.numer()
                / info.denom(),
    {
        proof {
            use_type_invariant(info);
        }
        let diff = match self.t.checked_sub(other.t) {
            Some(diff) => diff,
            None => {
                return None;
            },
        };
        match mul_div_u64(diff, info.numer, info.denom) {
            Some(nanos) => {
                let span = Duration::new(nanos / NSEC_PER_SEC, (nanos % NSEC_PER_SEC) as u32);
                proof {
                    vstd::arithmetic::div_mod::lemma_fundamental_div_mod(
                        nanos as int,
                        NSEC_PER_SEC as int,
                    );
                }
                span
            },
            None => None,
        }
    }

    /// The point `other` later, if the span can be told in ticks and the
    /// point is not beyond a `u64`.
    pub fn checked_add_duration(&self, other: &Duration, info: Timebase) -> (point: Option<Instant>)
        ensures
            point is Some <==> other.total() <= u64::MAX && self.ticks() + other.total()
                * info.denom() / info.numer() <= u64::MAX,
            point matches Some(p) ==> p.ticks() == self.ticks() + other.total() * info.denom()
                / info.numer(),
    {
        match checked_dur2intervals(other, info) {
            Some(ticks) => match self.t.checked_add(ticks) {
                Some(t) => Some(Instant { t }),
                None => None,
            },
            None => None,
        }
    }

    /// The point `other` earlier, if the span can be told in ticks and the
    /// point is not before tick zero.
    pub fn checked_sub_duration(&self, other: &Duration, info: Timebase) -> (point: Option<Instant>)
        ensures
            point is Some <==> other.total() <= u64::MAX && other.total() * info.denom()
                / info.numer() <= self.ticks(),
            point matches Some(p) ==> p.ticks() == self.ticks() - other.total() * info.denom()
                / info.numer(),
    {
        match checked_dur2intervals(other, info) {
            Some(ticks) => match self.t.checked_sub(ticks) {
                Some(t) => Some(Instant { t }),
                None => None,
            },
            None => None,
        }
    }
}

} // verus!
