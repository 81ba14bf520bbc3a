//! Instants, as the seconds and nanoseconds since the Unix epoch that a UTC
//! timestamp is made of, and the whole minutes between two of them.

use vstd::prelude::*;

verus! {

/// A UTC instant: whole seconds since 1970-01-01T00:00:00Z, plus the
/// nanoseconds into that second.
#[derive(Clone, Copy, PartialEq, Eq, Structural, Debug)]
pub struct Timestamp {
    pub seconds: i64,
    pub nanos: u32,
}

/// `a` is strictly earlier than `b`: seconds first, then nanoseconds.
pub open spec fn earlier(a: Timestamp, b: Timestamp) -> bool {
    a.seconds < b.seconds || (a.seconds == b.seconds && a.nanos < b.nanos)
}

/// Nanoseconds since the epoch.
pub open spec fn total_nanos(t: Timestamp) -> int {
    t.seconds * 1_000_000_000 + t.nanos
}

pub open spec fn nanos_per_minute() -> int {
    60_000_000_000
}

/// Division that rounds toward zero, as Rust's integer `/` does.
pub open spec fn div_toward_zero(x: int, d: int) -> int {
    if x >= 0 {
        x / d
    } else {
        -((-x) / d)
    }
}

/// The whole minutes from `start` to `end`, rounded toward zero: what
/// `(end - start).num_minutes()` gives for two UTC instants.
pub open spec fn whole_minutes(start: Timestamp, end: Timestamp) -> int {
    div_toward_zero(total_nanos(end) - total_nanos(start), nanos_per_minute())
}

impl Timestamp {
    pub fn new(seconds: i64, nanos: u32) -> (r: Self)
        ensures
            r.seconds == seconds,
            r.nanos == nanos,
    {
        Timestamp { seconds, nanos }
    }

    /// Whether `self` comes strictly before `other`.
    pub fn is_before(&self, other: &Timestamp) -> (r: bool)
        ensures
            r == earlier(*self, *other),
    {
        self.seconds < other.seconds || (self.seconds == other.seconds && self.nanos < other.nanos)
    }
}

/// The whole minutes from `start` to `end`, rounded toward zero.
pub fn minutes_between(start: Timestamp, end: Timestamp) -> (r: i64)
    ensures
        r == whole_minutes(start, end),
{
    let seconds: i128 = end.seconds as i128 - start.seconds as i128;
    let nanos: i128 = end.nanos as i128 - start.nanos as i128;
    proof {
        assert(-0x1_0000_0000_0000_0000 < seconds < 0x1_0000_0000_0000_0000);
        assert(seconds * 1_000_000_000 < 0x1_0000_0000_0000_0000 * 1_000_000_000) by (
        nonlinear_arith)
            requires
                seconds < 0x1_0000_0000_0000_0000,
        ;
        assert(seconds * 1_000_000_000 > -0x1_0000_0000_0000_0000 * 1_000_000_000) by (
        nonlinear_arith)
            requires
                seconds > -0x1_0000_0000_0000_0000,
        ;
    }
    let total: i128 = seconds * 1_000_000_000 + nanos;
    proof {
        assert(total == total_nanos(end) - total_nanos(start));
    }
    let bound: u128 = 0x1_0000_0000_0000_0000u128 * 1_000_000_000u128 + 0x1_0000_0000u128;
    let magnitude: u128 = if total >= 0 {
        total as u128
    } else {
        (-total) as u128
    };
    let quotient: u128 = magnitude / 60_000_000_000u128;
    proof {
        assert(magnitude <= bound);
        vstd::arithmetic::div_mod::lemma_div_is_ordered(
            magnitude as int,
            bound as int,
            60_000_000_000,
        );
        assert(bound as int / 60_000_000_000 < 0x7fff_ffff_ffff_ffff);
    }
    if total >= 0 {
        quotient as i64
    } else {
        -(quotient as i64)
    }
}

} // verus!
