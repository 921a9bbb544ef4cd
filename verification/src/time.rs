//! The clock: hardware ticks to nanoseconds and back, by the frequency that
//! the timer reports at boot.

use int_ratio::Ratio;
use vstd::prelude::*;

verus! {

/// Nanoseconds in a second.
pub const NANOS_PER_SEC: u32 = 1_000_000_000;

/// What `Ratio::new(numerator, denominator).mul_trunc(value)` returns: about
/// `value * numerator / denominator`, rounded down, computed with a
/// multiplier and a shift of 32 bits at most.
pub uninterp spec fn ratio_mul_trunc(numerator: u32, denominator: u32, value: u64) -> u64;

/// `Ratio::new` followed by `Ratio::mul_trunc`. A ratio with a zero
/// numerator multiplies everything to zero, the ratio `0/0` included; any
/// other ratio needs a denominator.
#[verifier::external_body]
fn mul_trunc(numerator: u32, denominator: u32, value: u64) -> (product: u64)
    requires
        numerator == 0 || denominator != 0,
    ensures
        product == ratio_mul_trunc(numerator, denominator, value),
        numerator == 0 ==> product == 0,
{
    Ratio::new(numerator, denominator).mul_trunc(value)
}

/// The ratio between ticks and nanoseconds. A clock that was not set yet
/// converts everything to zero.
#[derive(Clone, Copy, Debug, PartialEq, Eq, Structural)]
pub struct TickClock {
    nanos: u32,
    ticks: u32,
}

impl TickClock {
    /// The nanoseconds that `nanos_per(self)` ticks take.
    pub closed spec fn nanos(self) -> u32 {
        self.nanos
    }

    /// The ticks that `nanos(self)` nanoseconds take.
    pub closed spec fn ticks(self) -> u32 {
        self.ticks
    }

    /// The clock is either not set, or it counts the ticks of one second.
    pub open spec fn wf(self) -> bool {
        (self.nanos() == 0 && self.ticks() == 0) || (self.nanos() == NANOS_PER_SEC && self.ticks()
            != 0)
    }

    /// A clock that is not set.
    pub fn new() -> (clock: Self)
        ensures
            clock.wf(),
            clock.nanos() == 0,
            clock.ticks() == 0,
    {
        TickClock { nanos: 0, ticks: 0 }
    }
}

/// The frequency as the clock keeps it: its low 32 bits.
pub open spec fn spec_frequency(freq: u64) -> u32 {
    (freq % 0x1_0000_0000) as u32
}

/// Sets the clock at boot from the frequency `freq` of the timer, in ticks
/// per second.
pub fn init_early(freq: u64) -> (clock: TickClock)
    requires
        spec_frequency(freq) != 0,
    ensures
        clock.wf(),
        clock.nanos() == NANOS_PER_SEC,
        clock.ticks() == spec_frequency(freq),
{
    let ticks: u32 = (freq % 0x1_0000_0000) as u32;
    TickClock { nanos: NANOS_PER_SEC, ticks }
}

/// Converts hardware ticks to nanoseconds.
pub fn ticks_to_nanos(clock: &TickClock, ticks: u64) -> (nanos: u64)
    requires
        clock.wf(),
    ensures
        nanos == ratio_mul_trunc(clock.nanos(), clock.ticks(), ticks),
        clock.nanos() == 0 ==> nanos == 0,
{
    mul_trunc(clock.nanos, clock.ticks, ticks)
}

/// Converts nanoseconds to hardware ticks.
pub fn nanos_to_ticks(clock: &TickClock, nanos: u64) -> (ticks: u64)
    requires
        clock.wf(),
    ensures
        ticks == ratio_mul_trunc(clock.ticks(), clock.nanos(), nanos),
        clock.ticks() == 0 ==> ticks == 0,
{
    mul_trunc(clock.ticks, clock.nanos, nanos)
}

} // verus!
