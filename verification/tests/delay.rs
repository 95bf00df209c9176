use arduino_uno_r4_hal::delay::{delay_ms, delay_us, BusyWait};
use arduino_uno_r4_hal::time::{sysclk_freq, ClockConfig, SYSCLK_HZ, SYSCLK_MHZ};
use arduino_uno_r4_hal::Delay;

fn at(hz: u32) -> Delay {
    Delay::new_with_config(&ClockConfig { sysclk: hz })
}

fn spins(mut wait: BusyWait) -> u64 {
    let mut count: u64 = 0;
    while wait.tick() {
        count += 1;
    }
    assert!(wait.is_done());
    count
}

#[test]
fn nominal_clock_is_48_mhz() {
    assert_eq!(SYSCLK_MHZ, 48);
    assert_eq!(SYSCLK_HZ, 48_000_000);
    assert_eq!(sysclk_freq(), 48_000_000);
    assert_eq!(ClockConfig::default().sysclk, 48_000_000);
}

#[test]
fn new_delay_runs_at_the_nominal_clock() {
    assert_eq!(Delay::new().sysclk_freq(), 48_000_000);
    assert_eq!(Delay::default().sysclk_freq(), 48_000_000);
}

#[test]
fn delay_takes_the_clock_of_its_config() {
    assert_eq!(at(16_000_000).sysclk_freq(), 16_000_000);
    assert_eq!(at(0).sysclk_freq(), 0);
    assert_eq!(at(u32::MAX).sysclk_freq(), u32::MAX);
    let config = ClockConfig::default();
    assert_eq!(Delay::new_with_config(&config).sysclk_freq(), 48_000_000);
}

#[test]
fn one_microsecond_at_48_mhz_is_48_cycles() {
    let wait = at(48_000_000).delay_us(1);
    assert_eq!(wait.pending_cycles(), 48);
    assert_eq!(spins(wait), 48);
}

#[test]
fn one_nanosecond_at_48_mhz_is_clamped_to_one_cycle() {
    let wait = at(48_000_000).delay_ns(1);
    assert_eq!(wait.pending_cycles(), 1);
    assert_eq!(spins(wait), 1);
}

#[test]
fn nanoseconds_truncate() {
    let delay = at(48_000_000);
    assert_eq!(delay.delay_ns(0).pending_cycles(), 1);
    assert_eq!(delay.delay_ns(20).pending_cycles(), 1);
    assert_eq!(delay.delay_ns(21).pending_cycles(), 1);
    assert_eq!(delay.delay_ns(41).pending_cycles(), 1);
    assert_eq!(delay.delay_ns(42).pending_cycles(), 2);
    assert_eq!(delay.delay_ns(1_000).pending_cycles(), 48);
    assert_eq!(delay.delay_ns(1_000_000_000).pending_cycles(), 48_000_000);
    assert_eq!(delay.delay_ns(u32::MAX).pending_cycles(), 206_158_430);
}

#[test]
fn microseconds_scale_by_the_clock() {
    let delay = at(48_000_000);
    assert_eq!(delay.delay_us(0).pending_cycles(), 1);
    assert_eq!(delay.delay_us(100).pending_cycles(), 4_800);
    assert_eq!(delay.delay_us(1_000).pending_cycles(), 48_000);
    assert_eq!(at(1_500_000).delay_us(3).pending_cycles(), 4);
    assert_eq!(at(999_999).delay_us(1).pending_cycles(), 1);
    assert_eq!(at(1_999_999).delay_us(1).pending_cycles(), 1);
    assert_eq!(at(2_000_000).delay_us(1).pending_cycles(), 2);
}

#[test]
fn long_waits_are_not_cut_to_32_bits() {
    assert_eq!(at(48_000_000).delay_us(u32::MAX).pending_cycles(), 206_158_430_160);
    assert_eq!(at(u32::MAX).delay_us(u32::MAX).pending_cycles(), 18_446_744_065_119);
    assert_eq!(at(u32::MAX).delay_ns(u32::MAX).pending_cycles(), 18_446_744_065);
}

#[test]
fn a_clock_of_zero_still_spins_once() {
    assert_eq!(at(0).delay_ns(1_000).pending_cycles(), 1);
    assert_eq!(at(0).delay_us(1_000).pending_cycles(), 1);
    assert_eq!(at(0).delay_ms(3).pending_cycles(), 3);
    assert_eq!(spins(at(0).delay_ms(3)), 3);
}

#[test]
fn milliseconds_are_steps_of_1000_microseconds() {
    let delay = at(48_000_000);
    assert_eq!(delay.delay_ms(1).pending_cycles(), 48_000);
    assert_eq!(delay.delay_ms(5).pending_cycles(), 240_000);
    assert_eq!(delay.delay_ms(5).pending_cycles(), 5 * delay.delay_us(1_000).pending_cycles());
    assert_eq!(spins(delay.delay_ms(5)), 240_000);
}

#[test]
fn milliseconds_truncate_once_per_step() {
    // 1999 Hz: a step of 1000 us is floor(1.999) = 1 cycle, so 1000 ms are
    // 1000 cycles, where a single division would give 1999.
    let delay = at(1_999);
    assert_eq!(delay.delay_us(1_000).pending_cycles(), 1);
    assert_eq!(delay.delay_ms(1_000).pending_cycles(), 1_000);
    assert_eq!(delay.delay_us(1_000_000).pending_cycles(), 1_999);
    assert_eq!(spins(delay.delay_ms(1_000)), 1_000);
}

#[test]
fn no_millisecond_step_is_empty() {
    for hz in [0u32, 1, 999, 1_000, 1_001, 48_000_000, u32::MAX] {
        let step = at(hz).delay_us(1_000).pending_cycles();
        assert!(step >= 1);
        for ms in [1u32, 2, 7, 1_000, u32::MAX] {
            let wait = at(hz).delay_ms(ms);
            assert_eq!(wait.pending_cycles(), ms as u64 * step);
            assert!(wait.pending_cycles() >= ms as u64);
            assert!(!wait.is_done());
        }
    }
}

#[test]
fn zero_milliseconds_is_over_at_once() {
    let mut wait = at(48_000_000).delay_ms(0);
    assert!(wait.is_done());
    assert_eq!(wait.pending_cycles(), 0);
    assert!(!wait.tick());
    assert_eq!(spins(wait), 0);
}

#[test]
fn longest_millisecond_wait_fits() {
    let wait = at(u32::MAX).delay_ms(u32::MAX);
    assert_eq!(wait.pending_cycles(), 4_294_967 * 4_294_967_295);
}

#[test]
fn tick_counts_down_by_one() {
    let mut wait = at(1_000_000).delay_us(3);
    assert_eq!(wait.pending_cycles(), 3);
    assert!(!wait.is_done());
    assert!(wait.tick());
    assert_eq!(wait.pending_cycles(), 2);
    assert!(wait.tick());
    assert_eq!(wait.pending_cycles(), 1);
    assert!(wait.tick());
    assert_eq!(wait.pending_cycles(), 0);
    assert!(wait.is_done());
}

#[test]
fn tick_does_not_go_below_zero() {
    let mut wait = at(1_000_000).delay_us(1);
    assert!(wait.tick());
    for _ in 0..5 {
        assert!(!wait.tick());
        assert_eq!(wait.pending_cycles(), 0);
        assert!(wait.is_done());
    }
}

#[test]
fn tick_passes_from_step_to_step() {
    // 2000 Hz: each millisecond is a step of 2 cycles.
    let mut wait = at(2_000).delay_ms(3);
    let mut seen = Vec::new();
    while wait.tick() {
        seen.push(wait.pending_cycles());
    }
    assert_eq!(seen, vec![5, 4, 3, 2, 1, 0]);
}

#[test]
fn free_functions_run_at_the_nominal_clock() {
    assert_eq!(delay_us(1).pending_cycles(), 48);
    assert_eq!(delay_us(100).pending_cycles(), 4_800);
    assert_eq!(delay_ms(1).pending_cycles(), 48_000);
    assert_eq!(delay_ms(500).pending_cycles(), 24_000_000);
    assert_eq!(delay_ms(0).pending_cycles(), 0);
    assert_eq!(spins(delay_ms(2)), 96_000);
    assert_eq!(spins(delay_us(10)), 480);
}

#[test]
fn is_done_only_when_nothing_is_pending() {
    let mut wait = at(2_000).delay_ms(2);
    let mut ticks = 0;
    while !wait.is_done() {
        assert!(wait.pending_cycles() > 0);
        assert!(wait.tick());
        ticks += 1;
    }
    assert_eq!(ticks, 4);
    assert_eq!(wait.pending_cycles(), 0);
}
