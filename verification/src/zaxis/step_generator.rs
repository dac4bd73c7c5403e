//! The step-delay generator: a linear speed profile computed one step at a
//! time, after M. Y. Stoychitch, "An algorithm of linear speed control of a
//! stepper motor in real time".
//!
//! For each pulse the generator says how long to wait before the next one and
//! how many microsteps the pulse stands for. Delays are fixed-point numbers
//! (see `delay_math`); speeds are in steps per second, accelerations in steps
//! per second squared.

use vstd::prelude::*;
use crate::zaxis::delay_math::{
    accelerated, braking_due, compute_braking_due, compute_corrected, compute_cruise_delay,
    compute_initial_delay, compute_integrate, compute_rate_term, compute_steps_to_stop,
    corrected, cruise_delay, decelerated, floor_sqrt, initial_delay, integrate,
    lemma_floor_sqrt_bounds, max_int, min_int, rate_term, squared, step_divisor, steps_to_stop,
    DELAY_MAX, DELAY_ONE, DELAY_SECOND, FREQ_SQUARED, MAX_STEP_MULTIPLIER, START_RADICAND,
};

verus! {

/// The shortest effective delay that the pulse train should keep: 15 ticks.
/// A single pulse may come sooner; the multiplier is corrected right after.
pub const MIN_DELAY_VALUE: u64 = 64_424_509_440;

/// Margin above the minimum delay before the multiplier is lowered again,
/// 0.01 tick, so that it does not flip between two values.
pub const LOWERING_MARGIN: u64 = 42_949_672;

/// The driver's pins cannot select this multiplier (1/64 microstepping).
pub const FORBIDDEN_MULTIPLIER: u32 = 4;

/// The shortest effective delay that is ever handed out: just above one tick.
pub const EFFECTIVE_DELAY_FLOOR: u64 = 4_294_967_297;

/// The multipliers that the driver can be set to.
pub open spec fn is_multiplier(m: int) -> bool {
    m == 1 || m == 2 || m == 8 || m == 16 || m == 32 || m == 64 || m == 128 || m == 256
}

/// The next coarser multiplier: twice `m`, skipping the forbidden one.
pub open spec fn raised(m: int) -> int {
    if m * 2 == FORBIDDEN_MULTIPLIER as int {
        m * 4
    } else {
        m * 2
    }
}

/// By how much `m` is divided to reach the next finer multiplier.
pub open spec fn lowering_rate(m: int) -> int {
    if m / 2 == FORBIDDEN_MULTIPLIER as int {
        4
    } else {
        2
    }
}

/// The next finer multiplier: half of `m`, skipping the forbidden one; 1
/// stays 1.
pub open spec fn lowered(m: int) -> int {
    if m <= 1 {
        1
    } else {
        m / lowering_rate(m)
    }
}

/// `m` made finer until it no longer exceeds `remaining` (or is 1): a pulse
/// never steps past the target.
pub open spec fn fitted(m: int, remaining: int) -> int
    decreases m,
{
    if m <= 1 || m <= remaining {
        m
    } else {
        fitted(lowered(m), remaining)
    }
}

/// What a generator holds, as plain numbers.
pub struct GeneratorState {
    /// Configured acceleration, steps per second squared.
    pub acceleration: int,
    /// Configured deceleration, steps per second squared.
    pub deceleration: int,
    /// Configured cruising speed, steps per second.
    pub max_speed: int,
    /// Delay of the previous step, per microstep.
    pub ci: int,
    /// Microsteps issued since the ramp began; 0 before the first step.
    pub n: int,
    /// Microsteps still to issue.
    pub remaining_steps: int,
    /// Microsteps that one pulse stands for.
    pub step_multiplier: int,
}

impl GeneratorState {
    /// The values that a generator can hold.
    pub open spec fn wf(self) -> bool {
        &&& 0 <= self.acceleration <= u32::MAX
        &&& 0 <= self.deceleration <= u32::MAX
        &&& 0 <= self.max_speed <= u32::MAX
        &&& 0 <= self.ci <= DELAY_MAX
        &&& 0 <= self.n <= u32::MAX
        &&& 0 <= self.remaining_steps <= u32::MAX
        &&& is_multiplier(self.step_multiplier)
    }

    /// Initial delay from standstill, `c0`.
    pub open spec fn c0(self) -> int {
        initial_delay(self.acceleration)
    }

    /// Delay at cruising speed, `target_c`.
    pub open spec fn target_c(self) -> int {
        cruise_delay(self.max_speed)
    }

    /// Whether the remaining steps are no more than what braking to a stop
    /// takes at the current speed.
    pub open spec fn end_approaching(self) -> bool {
        braking_due(self.remaining_steps, self.ci, self.deceleration)
    }

    /// Steps needed to brake to a stop at the current speed.
    pub open spec fn num_steps_to_stop(self) -> int {
        steps_to_stop(self.ci, self.deceleration)
    }

    /// The multiplier that the speed policy picks, before it is fitted to the
    /// remaining steps. A fresh ramp starts at 1. A multiplier above the
    /// remaining steps is lowered. A delay under the minimum raises it, but
    /// only where the step count is a multiple of the new multiplier. A delay
    /// comfortably above the minimum lowers it.
    pub open spec fn policy_multiplier(self) -> int {
        let m = self.step_multiplier;
        let effective = self.ci * m;
        if self.n == 0 {
            1
        } else if self.remaining_steps < m {
            lowered(m)
        } else if effective < MIN_DELAY_VALUE && m != MAX_STEP_MULTIPLIER {
            if (self.n + 1) % raised(m) == 0 {
                raised(m)
            } else {
                m
            }
        } else if m != 1 && effective > MIN_DELAY_VALUE * lowering_rate(m) + LOWERING_MARGIN {
            lowered(m)
        } else {
            m
        }
    }

    /// The multiplier of the next pulse.
    pub open spec fn adjusted_multiplier(self) -> int {
        fitted(self.policy_multiplier(), self.remaining_steps)
    }

    /// The delay of the next step before the ramp-end correction, for a pulse
    /// of `m` microsteps: `c0` on the first step; else one braking step where
    /// the end approaches; else the cruising delay once it is reached; else
    /// one step towards it that does not pass it.
    pub open spec fn candidate_delay(self, m: int) -> int {
        if self.n == 0 {
            self.c0()
        } else if self.end_approaching() {
            decelerated(self.ci, self.deceleration, m)
        } else if self.target_c() == self.ci {
            self.ci
        } else if self.target_c() < self.ci {
            max_int(accelerated(self.ci, self.acceleration, m), self.target_c())
        } else {
            min_int(decelerated(self.ci, self.deceleration, m), self.target_c())
        }
    }

    /// Which of the five ramp-end corrections applies: the step count if it
    /// is within `1..=5`, else the remaining steps if they are; 0 for none.
    pub open spec fn correction_index(self) -> int {
        if 1 <= self.n <= 5 {
            self.n
        } else if 1 <= self.remaining_steps <= 5 {
            self.remaining_steps
        } else {
            0
        }
    }

    /// The delay of the next step, per microstep, for a pulse of `m`.
    pub open spec fn next_delay(self, m: int) -> int {
        let k = self.correction_index();
        if k == 0 {
            self.candidate_delay(m)
        } else {
            corrected(self.candidate_delay(m), k)
        }
    }

    /// The delay handed out with the next pulse: the delay per microstep
    /// times the multiplier, and never one tick or less.
    pub open spec fn effective_delay(self) -> int {
        let m = self.adjusted_multiplier();
        max_int(self.next_delay(m) * m, EFFECTIVE_DELAY_FLOOR as int)
    }

    /// The state after one call of `next`.
    pub open spec fn after_next(self) -> GeneratorState {
        if self.remaining_steps <= 0 {
            GeneratorState { n: 0, ..self }
        } else {
            let m = self.adjusted_multiplier();
            GeneratorState {
                ci: self.next_delay(m),
                n: if self.n + m > u32::MAX {
                    self.n + m - 0x1_0000_0000
                } else {
                    self.n + m
                },
                remaining_steps: self.remaining_steps - m,
                step_multiplier: m,
                ..self
            }
        }
    }

    /// The state after `pulses` calls of `next`.
    pub open spec fn after_pulses(self, pulses: nat) -> GeneratorState
        decreases pulses,
    {
        if pulses == 0 {
            self
        } else {
            self.after_next().after_pulses((pulses - 1) as nat)
        }
    }

    /// Whether the ramp is within the speed limit: it starts no faster than
    /// the cruising speed, and once under way it is no faster either.
    pub open spec fn within_speed_limit(self) -> bool {
        &&& self.c0() >= self.target_c()
        &&& self.n != 0 ==> self.ci >= self.target_c()
    }

    /// The microsteps that all further calls of `next` issue, until one
    /// reports the end.
    pub open spec fn steps_until_done(self) -> int
        decreases self.remaining_steps,
    {
        let m = self.adjusted_multiplier();
        if self.remaining_steps <= 0 || !(1 <= m <= self.remaining_steps) {
            0
        } else {
            m + self.after_next().steps_until_done()
        }
    }

    /// The calls of `next` that hand out a pulse, until one reports the end.
    pub open spec fn pulses_until_done(self) -> int
        decreases self.remaining_steps,
    {
        let m = self.adjusted_multiplier();
        if self.remaining_steps <= 0 || !(1 <= m <= self.remaining_steps) {
            0
        } else {
            1 + self.after_next().pulses_until_done()
        }
    }
}

/// Making a multiplier finer yields a multiplier, and a smaller one.
pub proof fn lemma_lowered(m: int)
    requires
        is_multiplier(m),
    ensures
        is_multiplier(lowered(m)),
        1 <= lowered(m) <= m,
        m != 1 ==> lowered(m) < m,
{
}

/// The step count after the next pulse is a multiple of `m` exactly where
/// the count so far leaves the remainder `m - 1`.
pub proof fn lemma_alignment(n: int, m: int)
    requires
        is_multiplier(m),
        0 <= n,
    ensures
        (n % m == m - 1) == ((n + 1) % m == 0),
{
    if m == 1 {
        assert((n % 1 == 0) == ((n + 1) % 1 == 0));
    } else if m == 2 {
        assert((n % 2 == 1) == ((n + 1) % 2 == 0));
    } else if m == 8 {
        assert((n % 8 == 7) == ((n + 1) % 8 == 0));
    } else if m == 16 {
        assert((n % 16 == 15) == ((n + 1) % 16 == 0));
    } else if m == 32 {
        assert((n % 32 == 31) == ((n + 1) % 32 == 0));
    } else if m == 64 {
        assert((n % 64 == 63) == ((n + 1) % 64 == 0));
    } else if m == 128 {
        assert((n % 128 == 127) == ((n + 1) % 128 == 0));
    } else {
        assert((n % 256 == 255) == ((n + 1) % 256 == 0));
    }
}

/// Making a multiplier coarser yields a multiplier, and a larger one.
pub proof fn lemma_raised(m: int)
    requires
        is_multiplier(m),
        m != MAX_STEP_MULTIPLIER,
    ensures
        is_multiplier(raised(m)),
        m < raised(m) <= MAX_STEP_MULTIPLIER,
{
}

/// A fitted multiplier is a multiplier, no coarser than before, and within
/// the remaining steps as soon as one step remains.
pub proof fn lemma_fitted(m: int, remaining: int)
    requires
        is_multiplier(m),
    ensures
        is_multiplier(fitted(m, remaining)),
        1 <= fitted(m, remaining) <= m,
        remaining >= 1 ==> fitted(m, remaining) <= remaining,
        m <= remaining ==> fitted(m, remaining) == m,
    decreases m,
{
    if !(m <= 1 || m <= remaining) {
        lemma_lowered(m);
        lemma_fitted(lowered(m), remaining);
    }
}

/// The multiplier of the next pulse is one the driver can select, and the
/// pulse does not step past the target.
pub proof fn lemma_adjusted_multiplier(g: GeneratorState)
    requires
        g.wf(),
    ensures
        is_multiplier(g.adjusted_multiplier()),
        is_multiplier(g.policy_multiplier()),
        1 <= g.adjusted_multiplier() <= MAX_STEP_MULTIPLIER,
        g.remaining_steps >= 1 ==> g.adjusted_multiplier() <= g.remaining_steps,
        g.n == 0 ==> g.adjusted_multiplier() == 1,
{
    let m = g.step_multiplier;
    lemma_lowered(m);
    if m != MAX_STEP_MULTIPLIER {
        lemma_raised(m);
    }
    lemma_fitted(g.policy_multiplier(), g.remaining_steps);
}

/// An integration step stays within the range of delays and moves the delay
/// to the side that the sign of its term says.
pub proof fn lemma_integrate_range(ci: int, term: int)
    requires
        0 <= ci <= DELAY_MAX,
    ensures
        0 <= integrate(ci, term) <= DELAY_MAX,
        term >= 0 ==> integrate(ci, term) <= ci,
        term <= 0 ==> integrate(ci, term) >= ci,
{
    let divisor = step_divisor(term);
    assert(ci * DELAY_ONE / divisor >= 0) by (nonlinear_arith)
        requires
            ci >= 0,
            divisor > 0,
    ;
    if term >= 0 {
        assert(ci * DELAY_ONE / divisor <= ci) by (nonlinear_arith)
            requires
                ci >= 0,
                divisor >= DELAY_ONE,
                DELAY_ONE == 4_294_967_296,
        ;
    }
    if term <= 0 {
        assert(ci * DELAY_ONE / divisor >= ci) by (nonlinear_arith)
            requires
                ci >= 0,
                0 < divisor <= DELAY_ONE,
                DELAY_ONE == 4_294_967_296,
        ;
    }
}

/// The term of an integration step is not negative.
pub proof fn lemma_rate_term_sign(rate: int, multiplier: int, ci: int)
    requires
        rate >= 0,
        multiplier >= 0,
    ensures
        rate_term(rate, multiplier, ci) >= 0,
        squared(ci) >= 0,
{
    assert(ci * ci >= 0) by (nonlinear_arith);
    let sq = squared(ci);
    assert(sq >= 0) by (nonlinear_arith)
        requires
            sq == ci * ci / 4_294_967_296,
            ci * ci >= 0,
    ;
    assert(rate * multiplier * sq >= 0) by (nonlinear_arith)
        requires
            rate >= 0,
            multiplier >= 0,
            sq >= 0,
    ;
    assert(rate * multiplier * sq / 1_000_000_000_000 >= 0) by (nonlinear_arith)
        requires
            rate * multiplier * sq >= 0,
    ;
}

/// A corrected delay is a delay, and no shorter than before.
pub proof fn lemma_corrected_range(delay: int, k: int)
    requires
        0 <= delay <= DELAY_MAX,
        1 <= k <= 5,
    ensures
        delay <= corrected(delay, k) <= DELAY_MAX,
{
    assert(delay * (25 * k + 2) / (25 * k) >= delay) by (nonlinear_arith)
        requires
            delay >= 0,
            k >= 1,
    ;
}

/// The first delay of a ramp and the cruising delay are delays.
pub proof fn lemma_configured_delays(g: GeneratorState)
    requires
        g.wf(),
    ensures
        0 < g.c0() <= DELAY_MAX,
        0 < g.target_c() <= DELAY_MAX,
{
    if g.acceleration > 0 {
        let radicand = START_RADICAND as int / g.acceleration;
        assert(1 <= radicand <= START_RADICAND) by (nonlinear_arith)
            requires
                radicand == START_RADICAND as int / g.acceleration,
                0 < g.acceleration <= 4_294_967_295,
                START_RADICAND == 36_893_488_147_419_103_232_000_000_000_000,
        ;
        lemma_floor_sqrt_bounds(radicand as nat);
        let r = floor_sqrt(radicand as nat) as int;
        if r == 0 {
            assert((r + 1) * (r + 1) == 1) by (nonlinear_arith)
                requires
                    r == 0,
            ;
        }
        if r > DELAY_MAX {
            assert(r * r > START_RADICAND) by (nonlinear_arith)
                requires
                    r > 36_028_797_018_963_968,
                    START_RADICAND == 36_893_488_147_419_103_232_000_000_000_000,
            ;
        }
    }
    if g.max_speed > 0 {
        let t = DELAY_SECOND as int / g.max_speed;
        assert(1 <= t <= DELAY_SECOND) by (nonlinear_arith)
            requires
                t == DELAY_SECOND as int / g.max_speed,
                0 < g.max_speed <= 4_294_967_295,
                DELAY_SECOND == 4_294_967_296_000_000,
        ;
    }
}

/// The delay of the next step is a delay.
pub proof fn lemma_next_delay_range(g: GeneratorState, m: int)
    requires
        g.wf(),
        m >= 0,
    ensures
        0 <= g.candidate_delay(m) <= DELAY_MAX,
        0 <= g.next_delay(m) <= DELAY_MAX,
        g.candidate_delay(m) <= g.next_delay(m),
{
    lemma_configured_delays(g);
    lemma_rate_term_sign(g.acceleration, m, g.ci);
    lemma_rate_term_sign(g.deceleration, m, g.ci);
    lemma_integrate_range(g.ci, rate_term(g.acceleration, m, g.ci));
    lemma_integrate_range(g.ci, -rate_term(g.deceleration, m, g.ci));
    let k = g.correction_index();
    if k != 0 {
        lemma_corrected_range(g.candidate_delay(m), k);
    }
}

/// One call of `next` leaves a state that a generator can hold.
pub proof fn lemma_after_next_wf(g: GeneratorState)
    requires
        g.wf(),
    ensures
        g.after_next().wf(),
        g.remaining_steps > 0 ==> g.after_next().remaining_steps == g.remaining_steps
            - g.adjusted_multiplier(),
{
    lemma_adjusted_multiplier(g);
    lemma_next_delay_range(g, g.adjusted_multiplier());
}

/// A multiplier divides every coarser one.
pub proof fn lemma_multiplier_divides(fine: int, coarse: int)
    requires
        is_multiplier(fine),
        is_multiplier(coarse),
        fine <= coarse,
    ensures
        coarse % fine == 0,
{
    if fine == 1 {
        assert(coarse % 1 == 0);
    } else if fine == 2 {
        assert(coarse % 2 == 0);
    } else if fine == 8 {
        assert(coarse % 8 == 0);
    } else if fine == 16 {
        assert(coarse % 16 == 0);
    } else if fine == 32 {
        assert(coarse % 32 == 0);
    } else if fine == 64 {
        assert(coarse % 64 == 0);
    } else if fine == 128 {
        assert(coarse % 128 == 0);
    } else {
        assert(coarse % 256 == 0);
    }
}

/// The sum and the difference of two multiples of a number are multiples
/// of it.
pub proof fn lemma_sum_aligned(a: int, b: int, m: int)
    requires
        m > 0,
        a % m == 0,
        b % m == 0,
    ensures
        (a + b) % m == 0,
        (a - b) % m == 0,
{
    vstd::arithmetic::div_mod::lemma_fundamental_div_mod(a, m);
    vstd::arithmetic::div_mod::lemma_fundamental_div_mod(b, m);
    let qa = a / m;
    let qb = b / m;
    assert(a + b == (qa + qb) * m) by (nonlinear_arith)
        requires
            a == m * qa,
            b == m * qb,
    ;
    assert(a - b == (qa - qb) * m) by (nonlinear_arith)
        requires
            a == m * qa,
            b == m * qb,
    ;
    vstd::arithmetic::div_mod::lemma_mod_multiples_basic(qa + qb, m);
    vstd::arithmetic::div_mod::lemma_mod_multiples_basic(qa - qb, m);
}

/// A count that is a multiple of a multiplier is a multiple of every finer
/// one.
pub proof fn lemma_aligned_to_finer(count: int, fine: int, coarse: int)
    requires
        is_multiplier(fine),
        is_multiplier(coarse),
        fine <= coarse,
        0 <= count,
        count % coarse == 0,
    ensures
        count % fine == 0,
{
    lemma_multiplier_divides(fine, coarse);
    vstd::arithmetic::div_mod::lemma_fundamental_div_mod(count, coarse);
    vstd::arithmetic::div_mod::lemma_fundamental_div_mod(coarse, fine);
    let k = count / coarse;
    let j = coarse / fine;
    assert(count == (k * j) * fine) by (nonlinear_arith)
        requires
            count == coarse * k,
            coarse == fine * j,
    ;
    vstd::arithmetic::div_mod::lemma_mod_multiples_basic(k * j, fine);
}

/// Pulses stay aligned. Counting the step that is issued ahead of the
/// generator's first pulse, the steps issued are always a multiple of the
/// multiplier in use: the driver never has to snap to a coarser grid.
pub proof fn law_pulses_stay_aligned(g: GeneratorState)
    requires
        g.wf(),
        g.remaining_steps > 0,
        (g.n + 1) % g.step_multiplier == 0,
    ensures
        (g.after_next().n + 1) % g.after_next().step_multiplier == 0,
{
    lemma_adjusted_multiplier(g);
    let m = g.step_multiplier;
    let policy = g.policy_multiplier();
    let next = g.adjusted_multiplier();
    lemma_lowered(m);
    lemma_fitted(policy, g.remaining_steps);
    // The policy's choice keeps the count aligned.
    if g.n == 0 {
        assert(policy == 1);
    } else if policy > m {
        assert((g.n + 1) % policy == 0);
    } else {
        lemma_aligned_to_finer(g.n + 1, policy, m);
    }
    assert((g.n + 1) % policy == 0);
    lemma_aligned_to_finer(g.n + 1, next, policy);
    let count = g.n + 1;
    lemma_multiplier_divides(next, next);
    lemma_sum_aligned(count, next, next);
    if g.n + next > u32::MAX {
        lemma_multiplier_divides(next, 256);
        lemma_aligned_to_finer(0x1_0000_0000, next, 256);
        lemma_sum_aligned(count + next, 0x1_0000_0000, next);
    }
}

/// Monotonic convergence. From any state, the calls of `next` up to the one
/// that reports the end issue exactly the remaining steps: the multipliers
/// of the pulses add up to `remaining_steps`. There are at most as many
/// pulses as steps, and at least one for every `MAX_STEP_MULTIPLIER` steps.
pub proof fn law_steps_sum_to_remaining(g: GeneratorState)
    requires
        g.wf(),
    ensures
        g.steps_until_done() == g.remaining_steps,
        g.pulses_until_done() <= g.remaining_steps,
        g.remaining_steps <= MAX_STEP_MULTIPLIER * g.pulses_until_done(),
    decreases g.remaining_steps,
{
    if g.remaining_steps > 0 {
        lemma_adjusted_multiplier(g);
        lemma_after_next_wf(g);
        law_steps_sum_to_remaining(g.after_next());
    }
}

/// Each pulse lowers the remaining steps by its multiplier, and nothing else
/// does: the steps issued and the steps remaining always add up to the same.
pub proof fn law_remaining_only_decreases(g: GeneratorState)
    requires
        g.wf(),
        g.remaining_steps > 0,
    ensures
        g.after_next().remaining_steps + g.after_next().step_multiplier == g.remaining_steps,
        0 <= g.after_next().remaining_steps < g.remaining_steps,
{
    lemma_adjusted_multiplier(g);
}

/// Deceleration bound. On a step that is no first step and takes no ramp-end
/// correction, the speed drops by no more than the deceleration allows over
/// the pulse: with delays `ci` before and `c` after, in ticks,
/// `1/ci - 1/c <= deceleration * multiplier * ci / TIMER_FREQ^2`. The clause
/// states it without divisions, delays being counted in `1/DELAY_ONE` tick.
pub proof fn law_deceleration_bound(g: GeneratorState)
    requires
        g.wf(),
        g.n != 0,
        g.remaining_steps > 0,
        g.correction_index() == 0,
    ensures
        FREQ_SQUARED * DELAY_ONE * DELAY_ONE * (g.after_next().ci - g.ci) <= g.deceleration
            * g.adjusted_multiplier() * (g.ci * g.ci) * g.after_next().ci,
{
    lemma_adjusted_multiplier(g);
    let m = g.adjusted_multiplier();
    lemma_next_delay_range(g, m);
    let ci = g.ci;
    let d = g.deceleration;
    let next = g.after_next().ci;
    assert(next == g.candidate_delay(m));
    lemma_rate_term_sign(g.acceleration, m, ci);
    lemma_rate_term_sign(d, m, ci);
    lemma_integrate_range(ci, rate_term(g.acceleration, m, ci));
    assert(ci * ci >= 0) by (nonlinear_arith);
    assert(d * m * (ci * ci) * next >= 0) by (nonlinear_arith)
        requires
            d >= 0,
            m >= 0,
            ci * ci >= 0,
            next >= 0,
    ;
    if next <= ci {
        assert(FREQ_SQUARED * DELAY_ONE * DELAY_ONE * (next - ci) <= 0) by (nonlinear_arith)
            requires
                next - ci <= 0,
                FREQ_SQUARED * DELAY_ONE * DELAY_ONE >= 0,
        ;
    } else {
        // Only a braking step lengthens the delay.
        let term = rate_term(d, m, ci);
        let divisor = step_divisor(-term);
        let quotient = ci * DELAY_ONE / divisor;
        assert(next <= quotient);
        lemma_slowing_step(ci, d, m, next);
    }
}

/// The arithmetic of `law_deceleration_bound`: a delay that is at most the
/// result of one braking step obeys the bound.
proof fn lemma_slowing_step(ci: int, d: int, m: int, next: int)
    requires
        0 <= ci,
        0 <= d,
        0 <= m,
        ci < next,
        next <= ci * DELAY_ONE / step_divisor(-rate_term(d, m, ci)),
    ensures
        FREQ_SQUARED * DELAY_ONE * DELAY_ONE * (next - ci) <= d * m * (ci * ci) * next,
{
    let u = DELAY_ONE as int;
    let f2 = FREQ_SQUARED as int;
    let sq = squared(ci);
    let term = rate_term(d, m, ci);
    let divisor = step_divisor(-term);
    let quotient = ci * u / divisor;
    lemma_rate_term_sign(d, m, ci);
    assert(divisor >= u - term && divisor > 0);
    // quotient * divisor <= ci * u
    assert(quotient * divisor <= ci * u) by (nonlinear_arith)
        requires
            quotient == ci * u / divisor,
            divisor > 0,
    ;
    assert(next * (u - term) <= next * divisor) by (nonlinear_arith)
        requires
            next >= 0,
            divisor >= u - term,
    ;
    assert(next * divisor <= quotient * divisor) by (nonlinear_arith)
        requires
            next <= quotient,
            divisor > 0,
    ;
    assert((next - ci) * u <= next * term) by (nonlinear_arith)
        requires
            next * (u - term) <= ci * u,
    ;
    // term * f2 <= d * m * sq and sq * u <= ci * ci
    assert(term * f2 <= d * m * sq) by (nonlinear_arith)
        requires
            term == d * m * sq / f2,
            f2 > 0,
    ;
    assert(sq * u <= ci * ci) by (nonlinear_arith)
        requires
            sq == ci * ci / u,
            u > 0,
    ;
    assert(next * term * f2 <= next * (d * m * sq)) by (nonlinear_arith)
        requires
            next >= 0,
            term * f2 <= d * m * sq,
    ;
    assert(d * m * sq * u <= d * m * (ci * ci)) by (nonlinear_arith)
        requires
            d >= 0,
            m >= 0,
            sq * u <= ci * ci,
    ;
    assert(next * (d * m * sq) * u <= next * (d * m * (ci * ci))) by (nonlinear_arith)
        requires
            next >= 0,
            d * m * sq * u <= d * m * (ci * ci),
    ;
    assert((next - ci) * u * f2 * u <= next * term * f2 * u) by (nonlinear_arith)
        requires
            (next - ci) * u <= next * term,
            f2 > 0,
            u > 0,
    ;
    assert(next * term * f2 * u <= next * (d * m * sq) * u) by (nonlinear_arith)
        requires
            next * term * f2 <= next * (d * m * sq),
            u > 0,
    ;
    assert(f2 * u * u * (next - ci) == (next - ci) * u * f2 * u) by (nonlinear_arith);
    assert(next * (d * m * (ci * ci)) == d * m * (ci * ci) * next) by (nonlinear_arith);
}

/// No overshoot. On a step that is no first step and does not brake for
/// the end, the delay moves towards the cruising delay and never past it:
/// speeding up never yields a delay under `target_c`, slowing down never
/// one above it, and cruising keeps it. This holds of the delay before the
/// ramp-end correction, which is the delay that is kept wherever no
/// correction applies; a correction only lengthens a delay, so that
/// speeding up stays on its side of `target_c` in any case.
pub proof fn law_no_overshoot(g: GeneratorState)
    requires
        g.wf(),
        g.n != 0,
        g.remaining_steps > 0,
        !g.end_approaching(),
    ensures
        g.ci > g.target_c() ==> g.target_c() <= g.candidate_delay(g.adjusted_multiplier())
            <= g.ci,
        g.ci < g.target_c() ==> g.ci <= g.candidate_delay(g.adjusted_multiplier())
            <= g.target_c(),
        g.ci == g.target_c() ==> g.candidate_delay(g.adjusted_multiplier()) == g.target_c(),
        g.correction_index() == 0 ==> g.after_next().ci == g.candidate_delay(
            g.adjusted_multiplier(),
        ),
        g.ci >= g.target_c() ==> g.after_next().ci >= g.target_c(),
{
    lemma_adjusted_multiplier(g);
    let m = g.adjusted_multiplier();
    lemma_rate_term_sign(g.acceleration, m, g.ci);
    lemma_rate_term_sign(g.deceleration, m, g.ci);
    lemma_integrate_range(g.ci, rate_term(g.acceleration, m, g.ci));
    lemma_integrate_range(g.ci, -rate_term(g.deceleration, m, g.ci));
    lemma_next_delay_range(g, m);
}

/// Braking never speeds up. On a step that brakes for the end, and is no
/// first step, the delay is at least what it was: the step rate falls or
/// stays, with or without a ramp-end correction.
pub proof fn law_braking_never_speeds_up(g: GeneratorState)
    requires
        g.wf(),
        g.n != 0,
        g.remaining_steps > 0,
        g.end_approaching(),
    ensures
        g.after_next().ci >= g.ci,
{
    lemma_adjusted_multiplier(g);
    let m = g.adjusted_multiplier();
    lemma_rate_term_sign(g.deceleration, m, g.ci);
    lemma_integrate_range(g.ci, -rate_term(g.deceleration, m, g.ci));
    lemma_next_delay_range(g, m);
}

/// Speed limit. Where a ramp starts no faster than the cruising speed, no
/// step of it is faster: the delay per microstep stays at or above
/// `target_c`, so the delay of a pulse is at least `target_c` for each of
/// its microsteps, and the state after the pulse is within the limit again.
pub proof fn law_speed_limit(g: GeneratorState)
    requires
        g.wf(),
        g.within_speed_limit(),
    ensures
        g.after_next().within_speed_limit(),
        g.remaining_steps > 0 ==> g.after_next().ci >= g.target_c(),
        g.remaining_steps > 0 ==> g.effective_delay() >= g.target_c() * g.adjusted_multiplier(),
{
    if g.remaining_steps > 0 {
        lemma_adjusted_multiplier(g);
        let m = g.adjusted_multiplier();
        lemma_rate_term_sign(g.acceleration, m, g.ci);
        lemma_rate_term_sign(g.deceleration, m, g.ci);
        lemma_integrate_range(g.ci, rate_term(g.acceleration, m, g.ci));
        lemma_integrate_range(g.ci, -rate_term(g.deceleration, m, g.ci));
        lemma_next_delay_range(g, m);
        let next = g.next_delay(m);
        assert(g.candidate_delay(m) >= g.target_c());
        assert(next * m >= g.target_c() * m) by (nonlinear_arith)
            requires
                next >= g.target_c(),
                m >= 1,
        ;
    }
}

/// Speed limit over a whole move. However many pulses are taken from a
/// state within the limit, the state stays within it.
pub proof fn law_speed_limit_throughout(g: GeneratorState, pulses: nat)
    requires
        g.wf(),
        g.within_speed_limit(),
    ensures
        g.after_pulses(pulses).wf(),
        g.after_pulses(pulses).within_speed_limit(),
    decreases pulses,
{
    if pulses > 0 {
        lemma_after_next_wf(g);
        law_speed_limit(g);
        law_speed_limit_throughout(g.after_next(), (pulses - 1) as nat);
    }
}

/// Generates the delay and the multiplier of each pulse of a move.
pub struct StepGenerator {
    acceleration: u32,
    deceleration: u32,
    max_speed: u32,
    c0: u64,
    ci: u64,
    target_c: u64,
    n: u32,
    remaining_steps: u32,
    step_multiplier: u32,
}

impl View for StepGenerator {
    type V = GeneratorState;

    closed spec fn view(&self) -> GeneratorState {
        GeneratorState {
            acceleration: self.acceleration as int,
            deceleration: self.deceleration as int,
            max_speed: self.max_speed as int,
            ci: self.ci as int,
            n: self.n as int,
            remaining_steps: self.remaining_steps as int,
            step_multiplier: self.step_multiplier as int,
        }
    }
}

/// Computes `lowered`.
fn lower(m: u32) -> (out: u32)
    requires
        is_multiplier(m as int),
    ensures
        out == lowered(m as int),
        is_multiplier(out as int),
{
    if m <= 1 {
        1
    } else if m / 2 == FORBIDDEN_MULTIPLIER {
        m / 4
    } else {
        m / 2
    }
}

/// Computes `raised`.
fn raise(m: u32) -> (out: u32)
    requires
        is_multiplier(m as int),
        m != MAX_STEP_MULTIPLIER,
    ensures
        out == raised(m as int),
        is_multiplier(out as int),
{
    if m * 2 == FORBIDDEN_MULTIPLIER {
        m * 4
    } else {
        m * 2
    }
}

impl StepGenerator {
    /// What `inv` says about the state.
    pub proof fn lemma_inv(self)
        requires
            self.inv(),
        ensures
            self@.wf(),
    {
    }

    /// Holds of every generator: the delays it keeps are those of its
    /// configuration, and its state is well-formed.
    #[verifier::type_invariant]
    pub closed spec fn inv(self) -> bool {
        &&& self.c0 == initial_delay(self.acceleration as int)
        &&& self.target_c == cruise_delay(self.max_speed as int)
        &&& 0 < self.c0 <= DELAY_MAX
        &&& 0 < self.target_c <= DELAY_MAX
        &&& self.ci <= DELAY_MAX
        &&& is_multiplier(self.step_multiplier as int)
    }

    /// A generator at standstill with nothing to do.
    pub fn new(acceleration: u32, deceleration: u32, max_speed: u32) -> (g: StepGenerator)
        ensures
            g@ == (GeneratorState {
                acceleration: acceleration as int,
                deceleration: deceleration as int,
                max_speed: max_speed as int,
                ci: 0,
                n: 0,
                remaining_steps: 0,
                step_multiplier: 1,
            }),
            g@.wf(),
    {
        StepGenerator {
            acceleration,
            deceleration,
            max_speed,
            c0: compute_initial_delay(acceleration),
            ci: 0,
            target_c: compute_cruise_delay(max_speed),
            n: 0,
            remaining_steps: 0,
            step_multiplier: 1,
        }
    }

    /// Sets the acceleration; it shapes the delays from the next step on.
    pub fn set_acceleration(&mut self, acceleration: u32)
        ensures
            final(self)@ == (GeneratorState { acceleration: acceleration as int, ..old(self)@ }),
            final(self)@.wf(),
    {
        proof {
            use_type_invariant(&*self);
        }
        let c0: u64 = compute_initial_delay(acceleration);
        *self = StepGenerator { acceleration, c0, ..*self };
    }

    /// Sets the deceleration; it shapes the delays from the next step on.
    pub fn set_deceleration(&mut self, deceleration: u32)
        ensures
            final(self)@ == (GeneratorState { deceleration: deceleration as int, ..old(self)@ }),
            final(self)@.wf(),
    {
        proof {
            use_type_invariant(&*self);
        }
        self.deceleration = deceleration;
    }

    /// Sets the cruising speed; the next step already heads for it.
    pub fn set_max_speed(&mut self, max_speed: u32)
        ensures
            final(self)@ == (GeneratorState { max_speed: max_speed as int, ..old(self)@ }),
            final(self)@.wf(),
    {
        proof {
            use_type_invariant(&*self);
        }
        let target_c: u64 = compute_cruise_delay(max_speed);
        *self = StepGenerator { max_speed, target_c, ..*self };
    }

    /// The cruising speed, in steps per second.
    pub fn get_max_speed(&self) -> (speed: u32)
        ensures
            speed == self@.max_speed,
    {
        self.max_speed
    }

    /// Arms the generator for `steps` more microsteps; 0 disarms it.
    pub fn set_remaining_steps(&mut self, steps: u32)
        ensures
            final(self)@ == (GeneratorState { remaining_steps: steps as int, ..old(self)@ }),
            final(self)@.wf(),
    {
        proof {
            use_type_invariant(&*self);
        }
        self.remaining_steps = steps;
    }

    /// The microsteps still to issue.
    pub fn remaining_steps(&self) -> (steps: u32)
        ensures
            steps == self@.remaining_steps,
            self@.wf(),
    {
        proof {
            use_type_invariant(self);
        }
        self.remaining_steps
    }

    /// The microsteps that the last pulse stood for.
    pub fn step_multiplier(&self) -> (m: u32)
        ensures
            m == self@.step_multiplier,
            is_multiplier(m as int),
    {
        proof {
            use_type_invariant(self);
        }
        self.step_multiplier
    }

    /// The delay of the last step, per microstep.
    pub fn current_delay(&self) -> (ci: u64)
        ensures
            ci == self@.ci,
            ci <= DELAY_MAX,
    {
        proof {
            use_type_invariant(self);
        }
        self.ci
    }

    /// Whether braking must begin: at the current speed the remaining steps
    /// are no more than a stop within the deceleration takes.
    pub fn end_approaching(&self) -> (due: bool)
        ensures
            due == self@.end_approaching(),
    {
        compute_braking_due(self.remaining_steps, self.ci, self.deceleration)
    }

    /// How many more steps braking to a stop takes at the current speed.
    pub fn num_steps_to_stop(&self) -> (steps: u32)
        ensures
            steps == self@.num_steps_to_stop(),
    {
        compute_steps_to_stop(self.ci, self.deceleration)
    }

    /// Picks the multiplier of the next pulse.
    pub fn adjust_step_multiplier(&mut self)
        ensures
            final(self)@ == (GeneratorState {
                step_multiplier: old(self)@.adjusted_multiplier(),
                ..old(self)@
            }),
    {
        proof {
            use_type_invariant(&*self);
        }
        let m: u32 = self.step_multiplier;
        assert(self.ci * m <= 36_028_797_018_963_968 * 256) by (nonlinear_arith)
            requires
                self.ci <= 36_028_797_018_963_968u64,
                m <= 256,
        ;
        let effective: u64 = self.ci * (m as u64);
        let mut chosen: u32 = m;
        if self.n == 0 {
            chosen = 1;
        } else if self.remaining_steps < m {
            chosen = lower(m);
        } else if effective < MIN_DELAY_VALUE && m != MAX_STEP_MULTIPLIER {
            let next_multiplier: u32 = raise(m);
            let aligned: bool = self.n % next_multiplier == next_multiplier - 1;
            proof {
                lemma_alignment(self.n as int, next_multiplier as int);
            }
            if aligned {
                chosen = next_multiplier;
            }
        } else if m != 1 {
            let rate: u64 = if m / 2 == FORBIDDEN_MULTIPLIER {
                4
            } else {
                2
            };
            if effective > MIN_DELAY_VALUE * rate + LOWERING_MARGIN {
                chosen = lower(m);
            }
        }
        assert(chosen == self@.policy_multiplier());
        while chosen > 1 && chosen > self.remaining_steps
            invariant
                is_multiplier(chosen as int),
                fitted(chosen as int, self.remaining_steps as int) == fitted(
                    old(self)@.policy_multiplier(),
                    self.remaining_steps as int,
                ),
                *self == *old(self),
            decreases chosen,
        {
            proof {
                lemma_lowered(chosen as int);
            }
            chosen = lower(chosen);
        }
        self.step_multiplier = chosen;
    }

    /// The next pulse of the move: the delay until it, and the microsteps it
    /// stands for. `None` once no step remains; the step count is then reset,
    /// so that the next move starts its ramp from standstill.
    pub fn next(&mut self) -> (pulse: Option<(u64, u32)>)
        ensures
            final(self)@ == old(self)@.after_next(),
            old(self)@.wf(),
            final(self)@.wf(),
            pulse is None <==> old(self)@.remaining_steps == 0,
            pulse matches Some((delay, multiplier)) ==> {
                &&& delay == old(self)@.effective_delay()
                &&& multiplier == old(self)@.adjusted_multiplier()
                &&& is_multiplier(multiplier as int)
                &&& multiplier <= old(self)@.remaining_steps
            },
    {
        proof {
            use_type_invariant(&*self);
        }
        if self.remaining_steps == 0 {
            self.n = 0;
            return None;
        }
        let ghost before = self@;
        self.adjust_step_multiplier();
        proof {
            use_type_invariant(&*self);
            lemma_adjusted_multiplier(before);
            lemma_next_delay_range(before, before.adjusted_multiplier());
        }
        let m: u32 = self.step_multiplier;
        let ci: u64 = self.ci;
        let candidate: u64 = if self.n == 0 {
            self.c0
        } else if self.end_approaching() {
            let term: u128 = compute_rate_term(self.deceleration, m, ci);
            compute_integrate(ci, term, true)
        } else if self.target_c == ci {
            ci
        } else if self.target_c < ci {
            let term: u128 = compute_rate_term(self.acceleration, m, ci);
            let stepped: u64 = compute_integrate(ci, term, false);
            if stepped >= self.target_c {
                stepped
            } else {
                self.target_c
            }
        } else {
            let term: u128 = compute_rate_term(self.deceleration, m, ci);
            let stepped: u64 = compute_integrate(ci, term, true);
            if stepped <= self.target_c {
                stepped
            } else {
                self.target_c
            }
        };
        assert(candidate == before.candidate_delay(m as int));
        let next_ci: u64 = if 1 <= self.n && self.n <= 5 {
            compute_corrected(candidate, self.n)
        } else if 1 <= self.remaining_steps && self.remaining_steps <= 5 {
            compute_corrected(candidate, self.remaining_steps)
        } else {
            candidate
        };
        assert(next_ci == before.next_delay(m as int));
        self.remaining_steps = self.remaining_steps - m;
        self.n = self.n.wrapping_add(m);
        self.ci = next_ci;
        assert(next_ci * m <= 36_028_797_018_963_968 * 256) by (nonlinear_arith)
            requires
                next_ci <= 36_028_797_018_963_968u64,
                m <= 256,
        ;
        let scaled: u64 = next_ci * (m as u64);
        let effective: u64 = if scaled >= EFFECTIVE_DELAY_FLOOR {
            scaled
        } else {
            EFFECTIVE_DELAY_FLOOR
        };
        Some((effective, m))
    }
}

} // verus!
