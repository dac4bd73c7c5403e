//! Busy-wait delays, counted in processor cycles.
//!
//! The functions work out how many cycles the delay loop has to be given;
//! running the loop is the caller's part.

use vstd::prelude::*;

verus! {

/// Processor clock, in MHz.
pub const CLOCK_SPEED_MHZ: u32 = 168;

/// The count to give the delay loop for `cycles` processor cycles: two
/// thirds of them, since the loop overshoots on this core.
pub open spec fn loop_count(cycles: int) -> int {
    cycles * 2 / 3
}

/// The processor cycles of `duration_ns` nanoseconds less `cycles_to_skip`,
/// and not below zero.
pub open spec fn compensated_cycles(duration_ns: int, cycles_to_skip: int) -> int {
    let cycles = duration_ns * CLOCK_SPEED_MHZ / 1000;
    if cycles > cycles_to_skip {
        cycles - cycles_to_skip
    } else {
        0
    }
}

/// The count to give the delay loop for `cycles` processor cycles.
pub fn delay_cycles(cycles: u32) -> (count: u32)
    requires
        cycles * 2 <= u32::MAX,
    ensures
        count == loop_count(cycles as int),
{
    (cycles * 2) / 3
}

/// The count to give the delay loop for `duration_ns` nanoseconds of which
/// `cycles_to_skip` cycles are spent otherwise; 0 where no delay is left.
pub fn delay_ns_compensated(duration_ns: u32, cycles_to_skip: u32) -> (count: u32)
    requires
        duration_ns * CLOCK_SPEED_MHZ <= u32::MAX,
    ensures
        count == loop_count(compensated_cycles(duration_ns as int, cycles_to_skip as int)),
{
    let cycles: u32 = (duration_ns * CLOCK_SPEED_MHZ) / 1000;
    let cycles: u32 = cycles.saturating_sub(cycles_to_skip);
    if cycles > 0 {
        delay_cycles(cycles)
    } else {
        0
    }
}

/// The count to give the delay loop for `duration_ns` nanoseconds.
pub fn delay_ns(duration_ns: u32) -> (count: u32)
    requires
        duration_ns * CLOCK_SPEED_MHZ <= u32::MAX,
    ensures
        count == loop_count(duration_ns * CLOCK_SPEED_MHZ / 1000),
{
    delay_ns_compensated(duration_ns, 0)
}

/// The count to give the delay loop for `duration_us` microseconds.
pub fn delay_us(duration_us: u32) -> (count: u32)
    requires
        duration_us * CLOCK_SPEED_MHZ * 2 <= u32::MAX,
    ensures
        count == loop_count(duration_us * CLOCK_SPEED_MHZ),
{
    let cycles: u32 = duration_us * CLOCK_SPEED_MHZ;
    if cycles > 0 {
        delay_cycles(cycles)
    } else {
        0
    }
}

/// The count to give the delay loop for `duration_ms` milliseconds.
pub fn delay_ms(duration_ms: u32) -> (count: u32)
    requires
        duration_ms * 1000 * CLOCK_SPEED_MHZ * 2 <= u32::MAX,
    ensures
        count == loop_count(duration_ms * 1000 * CLOCK_SPEED_MHZ),
{
    delay_us(duration_ms * 1000)
}

/// The cycles between two readings of the free-running cycle counter, which
/// wraps around, and the milliseconds they make.
pub fn count_cycles(start_cycles: u32, end_cycles: u32) -> (elapsed: (u32, u32))
    ensures
        elapsed.0 == if end_cycles >= start_cycles {
            end_cycles - start_cycles
        } else {
            end_cycles - start_cycles + 0x1_0000_0000
        },
        elapsed.1 == elapsed.0 as int / 168_000,
{
    let total_cycles: u32 = end_cycles.wrapping_sub(start_cycles);
    (total_cycles, total_cycles / (CLOCK_SPEED_MHZ * 1000))
}

} // verus!
