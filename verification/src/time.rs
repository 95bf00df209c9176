//! The core clock frequency by which delays are calibrated.

use vstd::prelude::*;

verus! {

/// Nominal core clock of the board, in megahertz.
pub const SYSCLK_MHZ: u32 = 48;

/// Nominal core clock of the board, in hertz.
pub const SYSCLK_HZ: u32 = 48_000_000;

/// The rate of `mhz` megahertz in hertz, by `fugit::HertzU32::MHz` and
/// `to_Hz`. On a rate counted in hertz the first multiplies by one million in
/// 32 bits, which the precondition keeps from overflowing, and the second
/// hands the count back.
#[verifier::external_body]
fn megahertz_in_hertz(mhz: u32) -> (hz: u32)
    requires
        mhz * 1_000_000 <= u32::MAX,
    ensures
        hz == mhz * 1_000_000,
{
    fugit::HertzU32::MHz(mhz).to_Hz()
}

/// The nominal core clock of the board, in hertz.
pub fn sysclk_freq() -> (hz: u32)
    ensures
        hz == SYSCLK_HZ,
{
    megahertz_in_hertz(SYSCLK_MHZ)
}

/// The clock setting that a delay is calibrated by. It is not measured
/// against a timer: it is what the caller says the core runs at.
#[derive(Clone, Copy, Debug)]
pub struct ClockConfig {
    /// Core clock in hertz.
    pub sysclk: u32,
}

impl Default for ClockConfig {
    /// The nominal core clock of the board.
    fn default() -> (config: Self)
        ensures
            config.sysclk == SYSCLK_HZ,
    {
        ClockConfig { sysclk: sysclk_freq() }
    }
}

} // verus!
