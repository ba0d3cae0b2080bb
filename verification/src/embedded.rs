//! Busy-wait delays for running the core directly on the robot's
//! microcontroller, where no operating system supplies a sleep.

use vstd::prelude::*;

verus! {

/// Cycles the microcontroller spends per microsecond at its clock rate.
pub const CYCLES_PER_US: u32 = 240;

/// Relies on core::hint::spin_loop: a scheduler hint inside a busy wait,
/// with no observable effect.
#[verifier::external_body]
fn spin_hint() {
    core::hint::spin_loop()
}

/// Busy-wait for roughly `cycles` processor cycles.
pub fn delay_cycles(cycles: u32) {
    let mut i: u32 = 0;
    while i < cycles
        invariant
            i <= cycles,
        decreases cycles - i,
    {
        spin_hint();
        i = i + 1;
    }
}

/// Busy-wait for roughly `us` microseconds at the fixed clock rate.
pub fn delay_us(us: u32)
    requires
        us * CYCLES_PER_US <= u32::MAX,
{
    delay_cycles(us * CYCLES_PER_US);
}

/// Busy-wait for roughly `ms` milliseconds at the fixed clock rate.
pub fn delay_ms(ms: u32) {
    let mut i: u32 = 0;
    while i < ms
        invariant
            i <= ms,
        decreases ms - i,
    {
        delay_us(1_000);
        i = i + 1;
    }
}

} // verus!
