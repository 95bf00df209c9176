//! Busy-wait delays, calibrated by the core clock.
//!
//! A delay is a number of spins: turns of a loop that executes one no-effect
//! instruction each. This module converts a duration to that number and keeps
//! the count while the wait runs ([`BusyWait`]). The caller only executes the
//! instruction, once for every [`BusyWait::tick`] that asks for it:
//! `while wait.tick() { nop() }`.
//!
//! Delays are approximate. The conversion truncates, the time a spin takes
//! is not exactly one clock period, and a wait of milliseconds truncates once
//! per millisecond rather than once in all.

use vstd::prelude::*;
use crate::time::{sysclk_freq, ClockConfig, SYSCLK_HZ};

verus! {

/// Nanoseconds in a second.
pub const NANOS_PER_SECOND: u64 = 1_000_000_000;

/// Microseconds in a second.
pub const MICROS_PER_SECOND: u64 = 1_000_000;

/// Microseconds in a millisecond.
pub const MICROS_PER_MILLI: u32 = 1_000;

/// Spins of a wait of `amount` units of time at `freq` hertz, `per_second` of
/// the units making a second: the whole part of `amount * freq / per_second`,
/// but 1 where that is 0, so that a wait never takes no spin at all.
pub open spec fn scaled_cycles(amount: u32, freq: u32, per_second: u64) -> int {
    let exact = (amount * freq) / (per_second as int);
    if exact < 1 {
        1
    } else {
        exact
    }
}

/// Spins of a wait of `ns` nanoseconds at `freq` hertz.
pub open spec fn cycles_for_ns(freq: u32, ns: u32) -> int {
    scaled_cycles(ns, freq, NANOS_PER_SECOND)
}

/// Spins of a wait of `us` microseconds at `freq` hertz.
pub open spec fn cycles_for_us(freq: u32, us: u32) -> int {
    scaled_cycles(us, freq, MICROS_PER_SECOND)
}

/// Spins of a wait of `ms` milliseconds at `freq` hertz: `ms` waits of 1000
/// microseconds, one after the other.
pub open spec fn cycles_for_ms(freq: u32, ms: u32) -> int {
    ms * cycles_for_us(freq, MICROS_PER_MILLI)
}

/// The product of two 32-bit numbers fits in 64 bits.
proof fn product_fits(a: u32, b: u32)
    ensures
        a * b <= 0xFFFF_FFFE_0000_0001,
{
    assert(a * b <= 0xFFFF_FFFF * 0xFFFF_FFFF) by (nonlinear_arith)
        requires
            0 <= a <= 0xFFFF_FFFF,
            0 <= b <= 0xFFFF_FFFF,
    ;
}

/// Computes [`scaled_cycles`], with the product taken in 64 bits.
fn scale(amount: u32, freq: u32, per_second: u64) -> (cycles: u64)
    requires
        per_second > 0,
    ensures
        cycles == scaled_cycles(amount, freq, per_second),
        1 <= cycles <= 0xFFFF_FFFE_0000_0001,
{
    proof {
        product_fits(amount, freq);
    }
    let exact: u64 = (amount as u64 * freq as u64) / per_second;
    assert(exact <= amount * freq) by (nonlinear_arith)
        requires
            exact == (amount * freq) / (per_second as int),
            per_second > 0,
            amount * freq >= 0,
    ;
    if exact < 1 {
        1
    } else {
        exact
    }
}

/// A busy-wait that is under way: some spins left of the step that runs, and
/// some steps of equal length that have not begun.
///
/// The counter of a step only goes down, by one for each spin, to 0.
pub struct BusyWait {
    step: u64,
    steps: u32,
    remaining: u64,
}

impl BusyWait {
    #[verifier::type_invariant]
    spec fn well_formed(self) -> bool {
        &&& self.step >= 1
        &&& self.remaining <= self.step
        &&& self.steps * self.step + self.remaining <= u64::MAX
    }

    /// Spins that each step takes when it begins.
    pub closed spec fn step_cycles(self) -> int {
        self.step as int
    }

    /// Steps that have not begun.
    pub closed spec fn steps_left(self) -> int {
        self.steps as int
    }

    /// Spins that are left of the step that runs.
    pub closed spec fn step_remaining(self) -> int {
        self.remaining as int
    }

    /// Spins that are left in all: those of the step that runs and those of
    /// the steps that have not begun.
    pub open spec fn pending(self) -> int {
        self.steps_left() * self.step_cycles() + self.step_remaining()
    }

    /// A wait of one step of `cycles` spins, which has begun.
    fn single(cycles: u64) -> (wait: BusyWait)
        requires
            cycles >= 1,
        ensures
            wait.step_cycles() == cycles,
            wait.steps_left() == 0,
            wait.step_remaining() == cycles,
            wait.pending() == cycles,
    {
        BusyWait { step: cycles, steps: 0, remaining: cycles }
    }

    /// A wait of `steps` steps of `cycles` spins each, none of which has
    /// begun.
    fn repeated(steps: u32, cycles: u64) -> (wait: BusyWait)
        requires
            cycles >= 1,
            steps * cycles <= u64::MAX,
        ensures
            wait.step_cycles() == cycles,
            wait.steps_left() == steps,
            wait.step_remaining() == 0,
            wait.pending() == steps * cycles,
    {
        BusyWait { step: cycles, steps, remaining: 0 }
    }

    /// Spins that are left in all.
    pub fn pending_cycles(&self) -> (cycles: u64)
        ensures
            cycles == self.pending(),
    {
        proof {
            use_type_invariant(self);
            assert(self.steps * self.step >= 0) by (nonlinear_arith)
                requires
                    self.steps >= 0,
                    self.step >= 0,
            ;
        }
        self.steps as u64 * self.step + self.remaining
    }

    /// Whether the wait is over: no spin is left.
    pub fn is_done(&self) -> (done: bool)
        ensures
            done == (self.pending() == 0),
            done == (self.steps_left() == 0 && self.step_remaining() == 0),
    {
        proof {
            use_type_invariant(self);
            assert(self.steps > 0 ==> self.steps * self.step > 0) by (nonlinear_arith)
                requires
                    self.step >= 1,
            ;
        }
        self.remaining == 0 && self.steps == 0
    }

    /// Counts one spin. Returns whether there was one to count, which is
    /// when the caller executes the no-effect instruction.
    ///
    /// While the step that runs has spins left, its counter goes down by
    /// one. When it has none and a step is left, that step begins and its
    /// first spin is counted. When no step is left either the wait is over
    /// and stays as it is: the counter does not go below 0.
    pub fn tick(&mut self) -> (spin: bool)
        ensures
            spin == (old(self).pending() > 0),
            spin ==> final(self).pending() == old(self).pending() - 1,
            !spin ==> *final(self) == *old(self),
            final(self).step_cycles() == old(self).step_cycles(),
            old(self).step_remaining() > 0 ==> final(self).steps_left() == old(self).steps_left(),
            old(self).step_remaining() > 0 ==> final(self).step_remaining()
                == old(self).step_remaining() - 1,
            old(self).step_remaining() == 0 && old(self).steps_left() > 0
                ==> final(self).steps_left() == old(self).steps_left() - 1,
            old(self).step_remaining() == 0 && old(self).steps_left() > 0
                ==> final(self).step_remaining() == old(self).step_cycles() - 1,
    {
        proof {
            use_type_invariant(&*self);
            assert(self.steps > 0 ==> self.steps * self.step == (self.steps - 1) * self.step
                + self.step) by (nonlinear_arith);
            assert(self.steps > 0 ==> (self.steps - 1) * self.step >= 0) by (nonlinear_arith)
                requires
                    self.step >= 1,
            ;
        }
        let mut steps = self.steps;
        let mut remaining = self.remaining;
        if remaining == 0 {
            if steps == 0 {
                return false;
            }
            steps = steps - 1;
            remaining = self.step;
        }
        remaining = remaining.saturating_sub(1);
        *self = BusyWait { step: self.step, steps, remaining };
        true
    }
}

/// Converts durations to busy-waits at a clock frequency that is fixed when
/// the value is made.
pub struct Delay {
    sysclk_freq: u32,
}

impl Delay {
    /// The clock frequency, in hertz, that the delays are calibrated by.
    pub closed spec fn frequency(self) -> u32 {
        self.sysclk_freq
    }

    /// A delay calibrated by the nominal core clock of the board.
    pub fn new() -> (delay: Self)
        ensures
            delay.frequency() == SYSCLK_HZ,
    {
        Delay { sysclk_freq: sysclk_freq() }
    }

    /// A delay calibrated by the clock of `config`.
    pub fn new_with_config(config: &ClockConfig) -> (delay: Self)
        ensures
            delay.frequency() == config.sysclk,
    {
        Delay { sysclk_freq: config.sysclk }
    }

    /// The clock frequency, in hertz, that the delays are calibrated by.
    pub fn sysclk_freq(&self) -> (hz: u32)
        ensures
            hz == self.frequency(),
    {
        self.sysclk_freq
    }

    /// A wait of `ns` nanoseconds: one step of
    /// floor(`ns` * frequency / 1,000,000,000) spins, and of 1 spin where
    /// that is 0.
    pub fn delay_ns(&self, ns: u32) -> (wait: BusyWait)
        ensures
            wait.pending() == cycles_for_ns(self.frequency(), ns),
            wait.step_cycles() == cycles_for_ns(self.frequency(), ns),
            wait.step_remaining() == cycles_for_ns(self.frequency(), ns),
            wait.steps_left() == 0,
    {
        BusyWait::single(scale(ns, self.sysclk_freq, NANOS_PER_SECOND))
    }

    /// A wait of `us` microseconds: one step of
    /// floor(`us` * frequency / 1,000,000) spins, and of 1 spin where that
    /// is 0.
    pub fn delay_us(&self, us: u32) -> (wait: BusyWait)
        ensures
            wait.pending() == cycles_for_us(self.frequency(), us),
            wait.step_cycles() == cycles_for_us(self.frequency(), us),
            wait.step_remaining() == cycles_for_us(self.frequency(), us),
            wait.steps_left() == 0,
    {
        BusyWait::single(scale(us, self.sysclk_freq, MICROS_PER_SECOND))
    }

    /// A wait of `ms` milliseconds: `ms` steps, each a wait of 1000
    /// microseconds. The division truncates once per step, not once for the
    /// whole wait. No step is of 0 spins; with `ms` 0 there is no step and
    /// the wait is over at once.
    pub fn delay_ms(&self, ms: u32) -> (wait: BusyWait)
        ensures
            wait.pending() == cycles_for_ms(self.frequency(), ms),
            wait.step_cycles() == cycles_for_us(self.frequency(), MICROS_PER_MILLI),
            wait.step_cycles() >= 1,
            wait.step_remaining() == 0,
            wait.steps_left() == ms,
    {
        let cycles = scale(MICROS_PER_MILLI, self.sysclk_freq, MICROS_PER_SECOND);
        proof {
            assert(cycles <= 4_294_968);
            assert(ms * cycles <= 0xFFFF_FFFF * 4_294_968) by (nonlinear_arith)
                requires
                    0 <= ms <= 0xFFFF_FFFF,
                    0 <= cycles <= 4_294_968,
            ;
        }
        BusyWait::repeated(ms, cycles)
    }
}

impl Default for Delay {
    /// A delay calibrated by the nominal core clock of the board.
    fn default() -> (delay: Self)
        ensures
            delay.frequency() == SYSCLK_HZ,
    {
        Delay::new()
    }
}

/// A wait of `ms` milliseconds at the nominal core clock of the board.
pub fn delay_ms(ms: u32) -> (wait: BusyWait)
    ensures
        wait.pending() == cycles_for_ms(SYSCLK_HZ, ms),
        wait.step_cycles() == cycles_for_us(SYSCLK_HZ, MICROS_PER_MILLI),
        wait.step_cycles() >= 1,
        wait.step_remaining() == 0,
        wait.steps_left() == ms,
{
    let delay = Delay::new();
    delay.delay_ms(ms)
}

/// A wait of `us` microseconds at the nominal core clock of the board.
pub fn delay_us(us: u32) -> (wait: BusyWait)
    ensures
        wait.pending() == cycles_for_us(SYSCLK_HZ, us),
        wait.step_cycles() == cycles_for_us(SYSCLK_HZ, us),
        wait.step_remaining() == cycles_for_us(SYSCLK_HZ, us),
        wait.steps_left() == 0,
{
    let delay = Delay::new();
    delay.delay_us(us)
}

/// Every wait takes at least one spin per step: the count of a step is
/// never 0, whatever the frequency and the duration.
pub proof fn steps_are_never_empty(freq: u32, amount: u32)
    ensures
        cycles_for_ns(freq, amount) >= 1,
        cycles_for_us(freq, amount) >= 1,
{
}

/// A wait of milliseconds is made of steps of at least one spin each,
/// whatever the frequency, so that `ms` milliseconds take at least `ms`
/// spins.
pub proof fn milliseconds_take_a_spin_each(freq: u32, ms: u32)
    ensures
        cycles_for_us(freq, MICROS_PER_MILLI) >= 1,
        cycles_for_ms(freq, ms) >= ms,
{
    let step = cycles_for_us(freq, MICROS_PER_MILLI);
    assert(ms * step >= ms) by (nonlinear_arith)
        requires
            step >= 1,
            ms >= 0,
    ;
}

/// Where the exact quotient is at least 1 the clamp changes nothing: the
/// count is the floor of `amount * freq / per_second`.
pub proof fn clamp_only_lifts_zero(amount: u32, freq: u32, per_second: u64)
    requires
        per_second > 0,
    ensures
        amount * freq >= per_second ==> scaled_cycles(amount, freq, per_second) == (amount
            * freq) / (per_second as int),
        amount * freq < per_second ==> scaled_cycles(amount, freq, per_second) == 1,
{
    let product = amount * freq;
    let divisor = per_second as int;
    assert(product >= divisor ==> product / divisor >= 1) by (nonlinear_arith)
        requires
            divisor > 0,
    ;
    assert(0 <= product < divisor ==> product / divisor == 0) by (nonlinear_arith)
        requires
            divisor > 0,
    ;
    assert(product >= 0) by (nonlinear_arith)
        requires
            product == amount * freq,
            amount >= 0,
            freq >= 0,
    ;
}

} // verus!
