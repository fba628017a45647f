//! One monotonic host clock for event and frame timestamps.
//!
//! The broker compares event timestamps against frame timestamps, so
//! both must live in one clock domain: nanoseconds on the mach host clock
//! (the monotonic since-boot clock). `CGEventGetTimestamp` is documented
//! as nanoseconds of that clock; because the unit cannot be verified
//! without a live Input Monitoring grant, `normalize_event_timestamp_ns`
//! defensively also considers the raw-mach-tick interpretation and
//! deterministically picks whichever lands closer to "now".

use vstd::prelude::*;

verus! {

/// The mach timebase ratio: one mach tick equals `numer / denom`
/// nanoseconds.
#[derive(Debug, Clone, Copy, PartialEq, Eq, Structural)]
pub struct Timebase {
    pub numer: u32,
    pub denom: u32,
}

/// `ticks * numer / max(denom, 1)`, truncated to 64 bits.
pub open spec fn ticks_in_ns(timebase: Timebase, ticks: u64) -> int {
    let denom: int = if timebase.denom == 0 { 1 } else { timebase.denom as int };
    ((ticks as int) * (timebase.numer as int) / denom) % 0x1_0000_0000_0000_0000
}

/// The distance between two timestamps.
pub open spec fn distance(a: u64, b: u64) -> int {
    if a >= b { a - b } else { b - a }
}

/// The normalized event timestamp: the raw value when, read as
/// nanoseconds, it is at least as close to `now_ns` as its tick reading;
/// the tick reading otherwise.
pub open spec fn normalized(raw: u64, timebase: Timebase, now_ns: u64) -> u64 {
    let as_ticks = ticks_in_ns(timebase, raw) as u64;
    if distance(raw, now_ns) <= distance(as_ticks, now_ns) {
        raw
    } else {
        as_ticks
    }
}

/// The raw answer of `mach_timebase_info`.
#[derive(Debug, Clone, Copy, PartialEq, Eq, Structural)]
pub struct MachTimebaseInfo {
    pub numer: u32,
    pub denom: u32,
}

impl Timebase {
    /// The process timebase from the raw answer; a zero part (a failed
    /// query) counts as one.
    pub fn from_info(info: MachTimebaseInfo) -> (r: Timebase)
        ensures
            r.numer == (if info.numer == 0 { 1 } else { info.numer }),
            r.denom == (if info.denom == 0 { 1 } else { info.denom }),
    {
        Timebase {
            numer: if info.numer == 0 { 1 } else { info.numer },
            denom: if info.denom == 0 { 1 } else { info.denom },
        }
    }

    /// Converts mach ticks to nanoseconds.
    pub fn ticks_to_ns(&self, ticks: u64) -> (r: u64)
        ensures
            r as int == ticks_in_ns(*self, ticks),
    {
        let denom: u32 = if self.denom == 0 { 1 } else { self.denom };
        let t = ticks as u128;
        let n = self.numer as u128;
        assert(t * n <= 0xffff_ffff_ffff_ffffu128 * 0xffff_ffffu128) by (nonlinear_arith)
            requires
                t <= 0xffff_ffff_ffff_ffffu128,
                n <= 0xffff_ffffu128,
        ;
        let product: u128 = t * n;
        let quotient: u128 = product / (denom as u128);
        let r = #[verifier::truncate] (quotient as u64);
        assert(r == quotient % 0x1_0000_0000_0000_0000) by (bit_vector)
            requires
                r == #[verifier::truncate] (quotient as u64),
        ;
        r
    }
}

fn abs_diff(a: u64, b: u64) -> (r: u64)
    ensures
        r as int == distance(a, b),
{
    if a >= b { a - b } else { b - a }
}

/// Normalizes a raw `CGEventGetTimestamp` value into host-clock
/// nanoseconds. On identity timebases both interpretations coincide and
/// the rule is a no-op.
pub fn normalize_event_timestamp_ns(raw: u64, timebase: Timebase, now_ns: u64) -> (r: u64)
    ensures
        r == normalized(raw, timebase, now_ns),
{
    let as_ns = raw;
    let as_ticks = timebase.ticks_to_ns(raw);
    if abs_diff(as_ns, now_ns) <= abs_diff(as_ticks, now_ns) {
        as_ns
    } else {
        as_ticks
    }
}

/// The normalized timestamp is always one of the two readings of the
/// raw value, and never farther from `now_ns` than the other one.
pub proof fn lemma_normalized_is_the_closer_reading(raw: u64, timebase: Timebase, now_ns: u64)
    ensures
        normalized(raw, timebase, now_ns) == raw || normalized(raw, timebase, now_ns)
            == ticks_in_ns(timebase, raw) as u64,
        distance(normalized(raw, timebase, now_ns), now_ns) <= distance(raw, now_ns),
        distance(normalized(raw, timebase, now_ns), now_ns) <= distance(
            ticks_in_ns(timebase, raw) as u64,
            now_ns,
        ),
{
}

/// On an identity timebase (numer == denom), normalization is the
/// identity.
pub proof fn lemma_identity_timebase_passes_through(raw: u64, timebase: Timebase, now_ns: u64)
    requires
        timebase.numer == timebase.denom,
        timebase.denom > 0,
    ensures
        normalized(raw, timebase, now_ns) == raw,
{
    let t = timebase.numer as int;
    assert((raw as int) * t / t == raw as int) by (nonlinear_arith)
        requires
            t > 0,
    ;
    assert(ticks_in_ns(timebase, raw) == raw as int);
}

} // verus!
