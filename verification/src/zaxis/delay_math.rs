//! Fixed-point arithmetic on step delays.
//!
//! A delay is a `u64` that counts 2^-32 of a timer tick, so `DELAY_ONE` is one
//! tick. Every formula is stated once over unbounded integers and computed in
//! `u128`, with a proof that nothing overflows and that both agree.

use vstd::prelude::*;

verus! {

/// Ticks of the step timer per second.
pub const TIMER_FREQ: u64 = 1_000_000;

/// The square of `TIMER_FREQ`.
pub const FREQ_SQUARED: u128 = 1_000_000_000_000;

/// One timer tick as a delay.
pub const DELAY_ONE: u64 = 4_294_967_296;

/// The longest delay that is kept: 2^23 ticks. Longer ones saturate here.
pub const DELAY_MAX: u64 = 36_028_797_018_963_968;

/// `2 * TIMER_FREQ^2 * DELAY_ONE^2`: the radicand of the initial delay, before
/// the division by the acceleration.
pub const START_RADICAND: u128 = 36_893_488_147_419_103_232_000_000_000_000;

/// `TIMER_FREQ * DELAY_ONE`: one second as a delay.
pub const DELAY_SECOND: u64 = 4_294_967_296_000_000;

/// `TIMER_FREQ^2 * DELAY_ONE`: the look-ahead bound of the braking test.
pub const BRAKE_BOUND: u128 = 4_294_967_296_000_000_000_000;

/// Lowest divisor of an integration step: 0.01.
pub const DIVISOR_MIN: u64 = 42_949_672;

/// Highest divisor of an integration step: 100.
pub const DIVISOR_MAX: u64 = 429_496_729_600;

/// Largest step multiplier.
pub const MAX_STEP_MULTIPLIER: u32 = 256;

/// The larger of two integers.
pub open spec fn max_int(a: int, b: int) -> int {
    if a >= b {
        a
    } else {
        b
    }
}

/// The smaller of two integers.
pub open spec fn min_int(a: int, b: int) -> int {
    if a <= b {
        a
    } else {
        b
    }
}

/// The integer part of the square root of `x`.
pub open spec fn floor_sqrt(x: nat) -> nat
    decreases x,
{
    if x == 0 {
        0
    } else {
        let r = floor_sqrt((x - 1) as nat);
        if (r + 1) * (r + 1) <= x {
            r + 1
        } else {
            r
        }
    }
}

/// `floor_sqrt(x)` is the one number whose square is at most `x` while the
/// square of its successor is above `x`.
pub proof fn lemma_floor_sqrt_bounds(x: nat)
    ensures
        floor_sqrt(x) * floor_sqrt(x) <= x,
        x < (floor_sqrt(x) + 1) * (floor_sqrt(x) + 1),
    decreases x,
{
    if x > 0 {
        lemma_floor_sqrt_bounds((x - 1) as nat);
        let r = floor_sqrt((x - 1) as nat);
        let s = floor_sqrt(x);
        if (r + 1) * (r + 1) <= x {
            assert(s == r + 1);
            assert(x < (r + 1 + 1) * (r + 1 + 1)) by (nonlinear_arith)
                requires
                    x - 1 < (r + 1) * (r + 1),
            ;
            assert(s * s <= x && x < (s + 1) * (s + 1));
        } else {
            assert(s == r);
            assert(s * s <= x && x < (s + 1) * (s + 1));
        }
    } else {
        assert(floor_sqrt(x) == 0);
        assert(0 * 0 == 0 && (0 + 1) * (0 + 1) == 1) by (nonlinear_arith);
    }
}

/// Any `r` between whose square and whose successor's square `x` lies is
/// `floor_sqrt(x)`.
pub proof fn lemma_floor_sqrt_unique(x: nat, r: nat)
    requires
        r * r <= x,
        x < (r + 1) * (r + 1),
    ensures
        r == floor_sqrt(x),
{
    lemma_floor_sqrt_bounds(x);
    let s = floor_sqrt(x);
    if r < s {
        assert((r + 1) * (r + 1) <= s * s) by (nonlinear_arith)
            requires
                r + 1 <= s,
        ;
    } else if s < r {
        assert((s + 1) * (s + 1) <= r * r) by (nonlinear_arith)
            requires
                s + 1 <= r,
        ;
    }
}

/// Computes the integer part of the square root by bisection.
pub fn isqrt(x: u128) -> (r: u64)
    ensures
        r == floor_sqrt(x as nat),
{
    let mut lo: u128 = 0;
    let mut hi: u128 = 18_446_744_073_709_551_616;
    proof {
        assert(0x1_0000_0000_0000_0000int * 0x1_0000_0000_0000_0000int
            == 0x1_0000_0000_0000_0000_0000_0000_0000_0000int) by (nonlinear_arith);
    }
    while hi - lo > 1
        invariant
            lo < hi <= 18_446_744_073_709_551_616,
            lo * lo <= x,
            x < hi * hi,
        decreases hi - lo,
    {
        let mid: u128 = lo + (hi - lo) / 2;
        assert(mid * mid < 0x1_0000_0000_0000_0000_0000_0000_0000_0000) by (nonlinear_arith)
            requires
                mid < 0x1_0000_0000_0000_0000,
        ;
        if mid * mid <= x {
            lo = mid;
        } else {
            hi = mid;
        }
    }
    proof {
        lemma_floor_sqrt_unique(x as nat, lo as nat);
    }
    lo as u64
}

/// The delay of the first step from standstill under `acceleration`, in steps
/// per second squared: `TIMER_FREQ * sqrt(2 / acceleration)` ticks. With no
/// acceleration the delay is the longest one.
pub open spec fn initial_delay(acceleration: int) -> int {
    if acceleration <= 0 {
        DELAY_MAX as int
    } else {
        floor_sqrt((START_RADICAND as int / acceleration) as nat) as int
    }
}

/// The delay between steps at `max_speed` steps per second:
/// `TIMER_FREQ / max_speed` ticks. At speed zero it is the longest delay.
pub open spec fn cruise_delay(max_speed: int) -> int {
    if max_speed <= 0 {
        DELAY_MAX as int
    } else {
        DELAY_SECOND as int / max_speed
    }
}

/// The square of a delay, as a delay: `ci^2` ticks squared.
pub open spec fn squared(ci: int) -> int {
    ci * ci / (DELAY_ONE as int)
}

/// `rate * multiplier * ci^2 / TIMER_FREQ^2` as a delay-scaled number: by how
/// much one integration step moves its divisor away from 1.
pub open spec fn rate_term(rate: int, multiplier: int, ci: int) -> int {
    rate * multiplier * squared(ci) / (FREQ_SQUARED as int)
}

/// The divisor `1 + term`, kept within `0.01..=100`.
pub open spec fn step_divisor(term: int) -> int {
    min_int(max_int(DELAY_ONE + term, DIVISOR_MIN as int), DIVISOR_MAX as int)
}

/// One integration step: `ci / (1 + term)`, saturated at `DELAY_MAX`.
pub open spec fn integrate(ci: int, term: int) -> int {
    min_int(ci * DELAY_ONE / step_divisor(term), DELAY_MAX as int)
}

/// The delay after one step of speeding up at `acceleration` with `multiplier`
/// microsteps per pulse.
pub open spec fn accelerated(ci: int, acceleration: int, multiplier: int) -> int {
    integrate(ci, rate_term(acceleration, multiplier, ci))
}

/// The delay after one step of slowing down at `deceleration` with
/// `multiplier` microsteps per pulse.
pub open spec fn decelerated(ci: int, deceleration: int, multiplier: int) -> int {
    integrate(ci, -rate_term(deceleration, multiplier, ci))
}

/// The correction of the `k`-th step from either end of a ramp,
/// `1 + 0.08 / k`, applied to `delay` and saturated at `DELAY_MAX`.
pub open spec fn corrected(delay: int, k: int) -> int {
    min_int(delay * (25 * k + 2) / (25 * k), DELAY_MAX as int)
}

/// Whether, at delay `ci`, `remaining` steps are no more than the steps it
/// takes to brake to a stop: `remaining * ci^2 <= TIMER_FREQ^2 / (2 * deceleration)`.
pub open spec fn braking_due(remaining: int, ci: int, deceleration: int) -> bool {
    2 * deceleration * remaining * squared(ci) <= BRAKE_BOUND as int
}

/// The steps it takes to brake to a stop from delay `ci`:
/// `TIMER_FREQ^2 / (2 * deceleration * ci^2)` rounded to the nearest integer
/// and saturated at `u32::MAX`; `u32::MAX` where the divisor is zero.
pub open spec fn steps_to_stop(ci: int, deceleration: int) -> int {
    let divisor = 2 * deceleration * squared(ci);
    if divisor <= 0 {
        u32::MAX as int
    } else {
        min_int((2 * BRAKE_BOUND + divisor) / (2 * divisor), u32::MAX as int)
    }
}

/// Computes `initial_delay`.
pub fn compute_initial_delay(acceleration: u32) -> (c0: u64)
    ensures
        c0 == initial_delay(acceleration as int),
        0 < c0 <= DELAY_MAX,
{
    if acceleration == 0 {
        DELAY_MAX
    } else {
        let radicand: u128 = START_RADICAND / (acceleration as u128);
        let r: u64 = isqrt(radicand);
        proof {
            lemma_floor_sqrt_bounds(radicand as nat);
            assert(radicand >= 1) by {
                assert(START_RADICAND as int / (acceleration as int) >= START_RADICAND as int
                    / 4_294_967_296) by (nonlinear_arith)
                    requires
                        0 < acceleration as int <= 4_294_967_296,
                ;
            }
            assert(radicand <= START_RADICAND) by (nonlinear_arith)
                requires
                    radicand == START_RADICAND / (acceleration as u128),
                    acceleration >= 1,
            ;
            if r == 0 {
                assert((r + 1) * (r + 1) == 1);
            }
            if r > DELAY_MAX {
                assert(r * r > START_RADICAND) by (nonlinear_arith)
                    requires
                        r > 36_028_797_018_963_968u64,
                ;
            }
        }
        r
    }
}

/// Computes `cruise_delay`.
pub fn compute_cruise_delay(max_speed: u32) -> (target: u64)
    ensures
        target == cruise_delay(max_speed as int),
        0 < target <= DELAY_MAX,
{
    if max_speed == 0 {
        DELAY_MAX
    } else {
        let target: u64 = DELAY_SECOND / (max_speed as u64);
        proof {
            assert(DELAY_SECOND as int / (max_speed as int) >= DELAY_SECOND as int
                / 4_294_967_296) by (nonlinear_arith)
                requires
                    0 < max_speed as int <= 4_294_967_296,
            ;
            assert(target <= DELAY_SECOND) by (nonlinear_arith)
                requires
                    target == DELAY_SECOND / (max_speed as u64),
                    max_speed >= 1,
            ;
        }
        target
    }
}

/// Computes `squared`.
pub fn compute_squared(ci: u64) -> (sq: u128)
    ensures
        sq == squared(ci as int),
        ci <= DELAY_MAX ==> sq <= 302_231_454_903_657_293_676_544,
{
    assert(ci * ci < 0x1_0000_0000_0000_0000_0000_0000_0000_0000) by (nonlinear_arith)
        requires
            ci < 0x1_0000_0000_0000_0000,
    ;
    let product: u128 = (ci as u128) * (ci as u128);
    proof {
        if ci <= DELAY_MAX {
            assert(ci * ci <= 36_028_797_018_963_968 * 36_028_797_018_963_968)
                by (nonlinear_arith)
                requires
                    ci <= 36_028_797_018_963_968u64,
            ;
            assert(36_028_797_018_963_968int * 36_028_797_018_963_968int / 4_294_967_296
                == 302_231_454_903_657_293_676_544int) by (nonlinear_arith);
            assert(product / 4_294_967_296 <= 36_028_797_018_963_968int
                * 36_028_797_018_963_968int / 4_294_967_296) by (nonlinear_arith)
                requires
                    product <= 36_028_797_018_963_968int * 36_028_797_018_963_968int,
            ;
        }
    }
    product / (DELAY_ONE as u128)
}

/// Computes `rate_term`.
pub fn compute_rate_term(rate: u32, multiplier: u32, ci: u64) -> (term: u128)
    requires
        1 <= multiplier <= MAX_STEP_MULTIPLIER,
        ci <= DELAY_MAX,
    ensures
        term == rate_term(rate as int, multiplier as int, ci as int),
{
    let sq: u128 = compute_squared(ci);
    assert(rate * multiplier <= 4_294_967_296 * 256) by (nonlinear_arith)
        requires
            rate <= 4_294_967_296u64,
            multiplier <= 256,
    ;
    let scale: u128 = (rate as u128) * (multiplier as u128);
    assert(scale * sq <= 1_099_511_627_776 * 302_231_454_903_657_293_676_544) by (nonlinear_arith)
        requires
            scale <= 4_294_967_296 * 256,
            sq <= 302_231_454_903_657_293_676_544,
    ;
    assert(rate * multiplier * squared(ci as int) == scale * sq) by (nonlinear_arith)
        requires
            scale == rate * multiplier,
            sq == squared(ci as int),
    ;
    scale * sq / FREQ_SQUARED
}

/// Computes `integrate` for a term that raises the divisor (speeding up) or
/// lowers it (slowing down).
pub fn compute_integrate(ci: u64, term: u128, slowing: bool) -> (next: u64)
    requires
        ci <= DELAY_MAX,
    ensures
        next == integrate(ci as int, if slowing { -(term as int) } else { term as int }),
        next <= DELAY_MAX,
        slowing ==> next >= ci,
        !slowing ==> next <= ci,
{
    let divisor: u128 = if slowing {
        if term >= (DELAY_ONE - DIVISOR_MIN) as u128 {
            DIVISOR_MIN as u128
        } else {
            DELAY_ONE as u128 - term
        }
    } else {
        if term >= (DIVISOR_MAX - DELAY_ONE) as u128 {
            DIVISOR_MAX as u128
        } else {
            DELAY_ONE as u128 + term
        }
    };
    assert(divisor == step_divisor(if slowing { -(term as int) } else { term as int }));
    assert(ci * DELAY_ONE <= 36_028_797_018_963_968 * 4_294_967_296) by (nonlinear_arith)
        requires
            ci <= 36_028_797_018_963_968u64,
            DELAY_ONE == 4_294_967_296u64,
    ;
    let scaled: u128 = (ci as u128) * (DELAY_ONE as u128);
    let quotient: u128 = scaled / divisor;
    proof {
        if slowing {
            assert(scaled / divisor >= ci) by (nonlinear_arith)
                requires
                    scaled == ci * 4_294_967_296,
                    0 < divisor <= 4_294_967_296,
            ;
        } else {
            assert(scaled / divisor <= ci) by (nonlinear_arith)
                requires
                    scaled == ci * 4_294_967_296,
                    divisor >= 4_294_967_296,
            ;
        }
    }
    if quotient >= DELAY_MAX as u128 {
        DELAY_MAX
    } else {
        quotient as u64
    }
}

/// Computes `corrected`.
pub fn compute_corrected(delay: u64, k: u32) -> (out: u64)
    requires
        1 <= k <= 5,
        delay <= DELAY_MAX,
    ensures
        out == corrected(delay as int, k as int),
        delay <= out <= DELAY_MAX,
{
    let denominator: u128 = 25 * (k as u128);
    let numerator: u128 = denominator + 2;
    assert(delay * numerator <= 36_028_797_018_963_968 * 127) by (nonlinear_arith)
        requires
            delay <= 36_028_797_018_963_968u64,
            numerator <= 127,
    ;
    let product: u128 = (delay as u128) * numerator;
    let quotient: u128 = product / denominator;
    assert(quotient >= delay) by (nonlinear_arith)
        requires
            quotient == product / denominator,
            product == delay * numerator,
            numerator == denominator + 2,
            denominator > 0,
    ;
    if quotient >= DELAY_MAX as u128 {
        DELAY_MAX
    } else {
        quotient as u64
    }
}

/// Computes `braking_due`.
pub fn compute_braking_due(remaining: u32, ci: u64, deceleration: u32) -> (due: bool)
    ensures
        due == braking_due(remaining as int, ci as int, deceleration as int),
{
    let sq: u128 = compute_squared(ci);
    if deceleration == 0 || remaining == 0 {
        assert(2 * deceleration * remaining * squared(ci as int) == 0) by (nonlinear_arith)
            requires
                deceleration == 0 || remaining == 0,
        ;
        return true;
    }
    if sq > BRAKE_BOUND {
        assert(2 * deceleration * remaining * squared(ci as int) > BRAKE_BOUND) by (nonlinear_arith)
            requires
                deceleration >= 1,
                remaining >= 1,
                squared(ci as int) > BRAKE_BOUND,
        ;
        return false;
    }
    assert(2 * deceleration * sq <= 2 * 4_294_967_296 * 4_294_967_296_000_000_000_000)
        by (nonlinear_arith)
        requires
            deceleration <= 4_294_967_296u64,
            sq <= 4_294_967_296_000_000_000_000u128,
    ;
    let per_step: u128 = 2 * (deceleration as u128) * sq;
    if per_step > BRAKE_BOUND {
        assert(2 * deceleration * remaining * squared(ci as int) > BRAKE_BOUND) by (nonlinear_arith)
            requires
                remaining >= 1,
                per_step == 2 * deceleration * squared(ci as int),
                per_step > BRAKE_BOUND,
        ;
        return false;
    }
    assert(per_step * remaining <= 4_294_967_296_000_000_000_000 * 4_294_967_296)
        by (nonlinear_arith)
        requires
            remaining <= 4_294_967_296u64,
            per_step <= 4_294_967_296_000_000_000_000u128,
    ;
    assert(2 * deceleration * remaining * squared(ci as int) == per_step * remaining)
        by (nonlinear_arith)
        requires
            per_step == 2 * deceleration * squared(ci as int),
    ;
    per_step * (remaining as u128) <= BRAKE_BOUND
}

/// Computes `steps_to_stop`.
pub fn compute_steps_to_stop(ci: u64, deceleration: u32) -> (steps: u32)
    ensures
        steps == steps_to_stop(ci as int, deceleration as int),
{
    let sq: u128 = compute_squared(ci);
    if deceleration == 0 || sq == 0 {
        assert(2 * deceleration * squared(ci as int) == 0) by (nonlinear_arith)
            requires
                deceleration == 0 || squared(ci as int) == 0,
        ;
        return u32::MAX;
    }
    if sq > 2 * BRAKE_BOUND {
        proof {
            let divisor = 2 * deceleration * squared(ci as int);
            assert(divisor > 2 * BRAKE_BOUND) by (nonlinear_arith)
                requires
                    divisor == 2 * deceleration * squared(ci as int),
                    deceleration >= 1,
                    squared(ci as int) > 2 * BRAKE_BOUND,
            ;
            assert((2 * BRAKE_BOUND + divisor) / (2 * divisor) == 0) by (nonlinear_arith)
                requires
                    divisor > 2 * BRAKE_BOUND,
                    BRAKE_BOUND > 0,
            ;
        }
        return 0;
    }
    assert(2 * deceleration * sq <= 2 * 4_294_967_296 * 8_589_934_592_000_000_000_000)
        by (nonlinear_arith)
        requires
            deceleration <= 4_294_967_296u64,
            sq <= 8_589_934_592_000_000_000_000u128,
    ;
    let divisor: u128 = 2 * (deceleration as u128) * sq;
    assert(divisor > 0) by (nonlinear_arith)
        requires
            divisor == 2 * deceleration * sq,
            deceleration >= 1,
            sq >= 1,
    ;
    let quotient: u128 = (2 * BRAKE_BOUND + divisor) / (2 * divisor);
    if quotient >= u32::MAX as u128 {
        u32::MAX
    } else {
        quotient as u32
    }
}

} // verus!
