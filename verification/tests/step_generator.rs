use resin_printer::zaxis::delay_math::{
    compute_cruise_delay, compute_initial_delay, isqrt, DELAY_MAX, DELAY_ONE,
};
use resin_printer::zaxis::step_generator::StepGenerator;

const ONE: f64 = DELAY_ONE as f64;

fn ticks(delay: u64) -> f64 {
    delay as f64 / ONE
}

/// Issues pulses until the cruising delay is reached.
fn run_up(g: &mut StepGenerator) {
    let target = compute_cruise_delay(g.get_max_speed());
    let mut pulses = 0;
    while g.current_delay() != target {
        g.next().unwrap();
        pulses += 1;
        assert!(pulses < 500_000);
    }
}

#[test]
fn isqrt_is_the_floor_of_the_root() {
    assert_eq!(isqrt(0), 0);
    assert_eq!(isqrt(1), 1);
    assert_eq!(isqrt(3), 1);
    assert_eq!(isqrt(4), 2);
    assert_eq!(isqrt(99), 9);
    assert_eq!(isqrt(100), 10);
    assert_eq!(isqrt(u128::MAX), u64::MAX);
    assert_eq!(isqrt(1u128 << 64), 1u64 << 32);
}

#[test]
fn initial_delay_of_the_default_acceleration() {
    // 1_000_000 * sqrt(2 / 640_000) ticks
    let c0 = compute_initial_delay(640_000);
    assert!((ticks(c0) - 1767.766952966369).abs() < 1e-6);
    assert_eq!(compute_initial_delay(0), DELAY_MAX);
    // 1_000_000 * sqrt(2) ticks
    assert!((ticks(compute_initial_delay(1)) - 1414213.562373095).abs() < 1e-3);
}

#[test]
fn cruise_delay_of_the_default_speed() {
    // 1_000_000 / 512_000 ticks
    assert_eq!(compute_cruise_delay(512_000), 8_388_608_000);
    assert_eq!(ticks(compute_cruise_delay(512_000)), 1.953125);
    assert_eq!(compute_cruise_delay(1_000_000), DELAY_ONE);
    assert_eq!(compute_cruise_delay(0), DELAY_MAX);
}

#[test]
fn new_generator_is_disarmed() {
    let mut g = StepGenerator::new(640_000, 1_536_000, 512_000);
    assert_eq!(g.remaining_steps(), 0);
    assert_eq!(g.step_multiplier(), 1);
    assert_eq!(g.get_max_speed(), 512_000);
    assert_eq!(g.next(), None);
}

#[test]
fn first_step_of_a_short_move_is_corrected() {
    let mut g = StepGenerator::new(640_000, 1_536_000, 512_000);
    g.set_remaining_steps(5);
    let (delay, m) = g.next().unwrap();
    assert_eq!(m, 1);
    // The fifth step from the end takes the correction 1 + 0.08 / 5.
    let c0 = compute_initial_delay(640_000) as u128;
    assert_eq!(delay as u128, c0 * 127 / 125);
}

#[test]
fn first_step_takes_the_initial_delay() {
    let mut g = StepGenerator::new(640_000, 1_536_000, 512_000);
    g.set_remaining_steps(1000);
    let (delay, m) = g.next().unwrap();
    assert_eq!(m, 1);
    assert_eq!(delay, compute_initial_delay(640_000));
    assert_eq!(g.remaining_steps(), 999);
}

#[test]
fn second_step_applies_the_first_correction() {
    let mut g = StepGenerator::new(640_000, 1_536_000, 512_000);
    g.set_remaining_steps(1000);
    let (c0, _) = g.next().unwrap();
    let (c1, m) = g.next().unwrap();
    assert_eq!(m, 1);
    // c0 / (1 + a * c0^2 / f^2) = c0 / 3, then times 1.08
    let expected = ticks(c0) / (1.0 + 640_000.0 * ticks(c0) * ticks(c0) / 1e12) * 1.08;
    assert!((ticks(c1) - expected).abs() / expected < 1e-6);
}

#[test]
fn multipliers_sum_to_the_steps_asked_for() {
    for &steps in &[1u32, 2, 3, 5, 7, 100, 255, 256, 257, 1000, 25_599, 100_001] {
        let mut g = StepGenerator::new(640_000, 1_536_000, 512_000);
        g.set_remaining_steps(steps);
        let mut sum: u64 = 0;
        let mut pulses: u64 = 0;
        while let Some((delay, m)) = g.next() {
            assert!(delay > DELAY_ONE);
            assert!(m as u64 <= steps as u64 - sum);
            sum += m as u64;
            pulses += 1;
        }
        assert_eq!(sum, steps as u64);
        assert!(pulses <= steps as u64);
        assert!(steps as u64 <= 256 * pulses);
        assert_eq!(g.remaining_steps(), 0);
        // The next move starts a fresh ramp.
        g.set_remaining_steps(10);
        let (delay, m) = g.next().unwrap();
        assert_eq!(m, 1);
        assert_eq!(delay, compute_initial_delay(640_000));
    }
}

#[test]
fn multiplier_is_one_the_driver_can_select() {
    let mut g = StepGenerator::new(640_000, 1_536_000, 512_000);
    g.set_remaining_steps(200_000);
    let mut seen_coarse = false;
    while let Some((_, m)) = g.next() {
        assert!([1, 2, 8, 16, 32, 64, 128, 256].contains(&m));
        if m >= 8 {
            seen_coarse = true;
        }
    }
    assert!(seen_coarse);
}

#[test]
fn speed_rises_to_the_cruising_speed_and_falls_again() {
    let mut g = StepGenerator::new(640_000, 1_536_000, 512_000);
    let target = compute_cruise_delay(512_000);
    g.set_remaining_steps(400_000);
    let mut fastest = u64::MAX;
    let mut cruised = 0u32;
    let mut last = 0u64;
    while let Some((_, _)) = g.next() {
        let ci = g.current_delay();
        assert!(ci >= target, "the delay went under the cruising delay");
        fastest = fastest.min(ci);
        if ci == target {
            cruised += 1;
        }
        last = ci;
    }
    assert_eq!(fastest, target);
    assert!(cruised > 100);
    // The move ends slowly.
    assert!(last > 100 * target);
}

#[test]
fn braking_obeys_the_deceleration() {
    // 1/ci - 1/c <= d * m * ci / f^2 on every step without a correction.
    let d = 1_536_000f64;
    let mut g = StepGenerator::new(640_000, 1_536_000, 512_000);
    g.set_remaining_steps(300_000);
    let mut n: u64 = 0;
    let mut before = 0f64;
    let mut checked = 0;
    loop {
        let remaining = g.remaining_steps();
        let Some((_, m)) = g.next() else { break };
        let after = ticks(g.current_delay());
        let corrected = (1..=5).contains(&n) || (1..=5).contains(&remaining);
        if n != 0 && !corrected && after > before {
            let drop = 1.0 / before - 1.0 / after;
            let bound = d * m as f64 * before / 1e12;
            assert!(drop <= bound * (1.0 + 1e-9));
            checked += 1;
        }
        before = after;
        n += m as u64;
    }
    assert!(checked > 1000);
}

#[test]
fn end_approaching_compares_the_remaining_steps_with_the_braking_distance() {
    let mut g = StepGenerator::new(640_000, 1_536_000, 512_000);
    g.set_remaining_steps(1_000_000);
    run_up(&mut g);
    assert_eq!(g.current_delay(), compute_cruise_delay(512_000));
    // At 512_000 steps/s and 1_536_000 steps/s^2 a stop takes
    // 512_000^2 / (2 * 1_536_000) = 85333.3 steps.
    assert_eq!(g.num_steps_to_stop(), 85_333);
    assert!(!g.end_approaching());
    g.set_remaining_steps(85_334);
    assert!(!g.end_approaching());
    g.set_remaining_steps(85_333);
    assert!(g.end_approaching());
    g.set_remaining_steps(0);
    assert!(g.end_approaching());
}

#[test]
fn steps_to_stop_saturate_at_standstill() {
    let g = StepGenerator::new(640_000, 1_536_000, 512_000);
    assert_eq!(g.current_delay(), 0);
    assert_eq!(g.num_steps_to_stop(), u32::MAX);
    let g = StepGenerator::new(640_000, 0, 512_000);
    assert_eq!(g.num_steps_to_stop(), u32::MAX);
    assert!(g.end_approaching());
}

#[test]
fn slower_cruising_speed_takes_effect_during_a_move() {
    let mut g = StepGenerator::new(640_000, 1_536_000, 512_000);
    g.set_remaining_steps(1_000_000);
    run_up(&mut g);
    let fast = compute_cruise_delay(512_000);
    assert_eq!(g.current_delay(), fast);
    g.set_max_speed(51_200);
    let slow = compute_cruise_delay(51_200);
    let mut reached = false;
    for _ in 0..200_000 {
        g.next().unwrap();
        let ci = g.current_delay();
        assert!(ci <= slow, "the delay went over the new cruising delay");
        if ci == slow {
            reached = true;
            break;
        }
    }
    assert!(reached);
}

#[test]
fn pulse_never_steps_past_the_target() {
    // Re-arming with few steps while the multiplier is coarse.
    let mut g = StepGenerator::new(640_000, 1_536_000, 512_000);
    g.set_remaining_steps(1_000_000);
    run_up(&mut g);
    assert!(g.step_multiplier() >= 8);
    g.set_remaining_steps(3);
    let mut sum = 0;
    while let Some((_, m)) = g.next() {
        sum += m;
        assert!(sum <= 3);
    }
    assert_eq!(sum, 3);
}

#[test]
fn adjust_step_multiplier_starts_a_ramp_at_one() {
    let mut g = StepGenerator::new(640_000, 1_536_000, 512_000);
    g.set_remaining_steps(10);
    g.adjust_step_multiplier();
    assert_eq!(g.step_multiplier(), 1);
}

#[test]
fn setters_keep_the_rest() {
    let mut g = StepGenerator::new(1, 2, 3);
    g.set_acceleration(640_000);
    g.set_deceleration(1_536_000);
    g.set_max_speed(512_000);
    g.set_remaining_steps(6);
    assert_eq!(g.get_max_speed(), 512_000);
    assert_eq!(g.remaining_steps(), 6);
    let (delay, _) = g.next().unwrap();
    assert_eq!(delay, compute_initial_delay(640_000));
}

/// The recurrence in single-precision floating point, for comparison.
struct FloatProfile {
    ra: f32,
    rd: f32,
    f2_over_2d: f32,
    c0: f32,
    ci: f32,
    target_c: f32,
    n: u32,
    remaining_steps: u32,
    step_multiplier: u32,
}

impl FloatProfile {
    fn new(acceleration: f32, deceleration: f32, max_speed: f32) -> Self {
        let f = 1_000_000f32;
        FloatProfile {
            ra: acceleration / (f * f),
            rd: -deceleration / (f * f),
            f2_over_2d: (f * f) / (2.0 * deceleration),
            c0: f * (2.0 / acceleration).sqrt(),
            ci: 0.0,
            target_c: f / max_speed,
            n: 0,
            remaining_steps: 0,
            step_multiplier: 1,
        }
    }

    fn end_approaching(&self) -> bool {
        self.remaining_steps as f32 * self.ci * self.ci <= self.f2_over_2d
    }

    fn adjust_step_multiplier(&mut self) {
        let m = self.step_multiplier;
        let effective_ci = self.ci * (m as f32);
        let increase_rate = if m * 2 == 4 { 4 } else { 2 };
        let decrease_rate = if m / 2 == 4 { 4 } else { 2 };
        if self.n == 0 {
            self.step_multiplier = 1;
        } else if self.remaining_steps < self.step_multiplier {
            self.step_multiplier /= decrease_rate;
        } else if effective_ci < 15.0 && m != 256 {
            let next_multiplier = m * increase_rate;
            if (self.n + 1) % next_multiplier == 0 {
                self.step_multiplier = next_multiplier;
            }
        } else if m != 1 && effective_ci > 15.0 * (decrease_rate as f32) + 0.01 {
            self.step_multiplier /= decrease_rate;
        }
    }

    fn next(&mut self) -> Option<(f32, u32)> {
        if self.remaining_steps == 0 {
            self.n = 0;
            return None;
        }
        self.adjust_step_multiplier();
        let m = self.step_multiplier;
        let apply = |ci: f32, rate: f32| ci / (1.0 + rate * ci * ci).clamp(0.01, 100.0);
        let next_ci = if self.n == 0 {
            self.c0
        } else {
            let ci = self.ci;
            let mf = m as f32;
            if self.end_approaching() {
                apply(ci, mf * self.rd)
            } else if self.target_c == ci {
                ci
            } else if self.target_c < ci {
                let c = apply(ci, mf * self.ra);
                if c >= self.target_c { c } else { self.target_c }
            } else {
                let c = apply(ci, mf * self.rd);
                if c <= self.target_c { c } else { self.target_c }
            }
        };
        let correction = [1.08f32, 1.04, 1.0 + 0.08 / 3.0, 1.02, 1.016];
        let next_ci = match (self.n, self.remaining_steps) {
            (k @ 1..=5, _) | (_, k @ 1..=5) => next_ci * correction[(k - 1) as usize],
            _ => next_ci,
        };
        self.remaining_steps -= m;
        self.n += m;
        self.ci = next_ci;
        Some((next_ci * m as f32, m))
    }
}

#[test]
fn delays_follow_the_floating_point_recurrence() {
    let mut g = StepGenerator::new(640_000, 1_536_000, 512_000);
    let mut reference = FloatProfile::new(640_000.0, 1_536_000.0, 512_000.0);
    g.set_remaining_steps(25_599);
    reference.remaining_steps = 25_599;
    let mut reference_pulses = 0;
    let mut time = 0f64;
    let mut reference_time = 0f64;
    loop {
        match reference.next() {
            Some((delay, _)) => {
                reference_pulses += 1;
                reference_time += delay as f64;
            }
            None => break,
        }
    }
    let mut pulses = 0;
    while let Some((delay, _)) = g.next() {
        pulses += 1;
        time += ticks(delay);
    }
    // Both take the same time for the move, to a tenth of a percent, in
    // about as many pulses.
    assert!((time - reference_time).abs() / reference_time < 1e-3);
    assert!((pulses as f64 - reference_pulses as f64).abs() / (reference_pulses as f64) < 1e-2);
}

#[test]
fn early_delays_match_the_floating_point_recurrence() {
    let mut g = StepGenerator::new(640_000, 1_536_000, 512_000);
    let mut reference = FloatProfile::new(640_000.0, 1_536_000.0, 512_000.0);
    g.set_remaining_steps(1_000_000);
    reference.remaining_steps = 1_000_000;
    for _ in 0..200 {
        let (delay, m) = g.next().unwrap();
        let (expected, expected_m) = reference.next().unwrap();
        assert_eq!(m, expected_m);
        let delay = ticks(delay);
        assert!((delay - expected as f64).abs() / (expected as f64) < 1e-4);
    }
}

#[test]
fn pulses_stay_aligned_to_the_multiplier() {
    // One step is issued ahead of the generator's first pulse.
    let mut g = StepGenerator::new(640_000, 1_536_000, 512_000);
    g.set_remaining_steps(600_000);
    let mut issued: u64 = 1;
    while let Some((_, m)) = g.next() {
        assert_eq!(issued % m as u64, 0);
        issued += m as u64;
    }
    assert_eq!(issued, 600_001);
}

#[test]
fn step_rate_of_a_short_move_has_one_peak() {
    let mut g = StepGenerator::new(640_000, 1_536_000, 512_000);
    g.set_remaining_steps(25_599);
    let mut pulses: Vec<(u128, u128)> = Vec::new();
    while let Some((delay, multiplier)) = g.next() {
        pulses.push((delay as u128, multiplier as u128));
    }
    assert_eq!(pulses.iter().map(|p| p.1).sum::<u128>(), 25_599);
    // The rate of a pulse is its multiplier over its delay; rates are
    // compared by cross-multiplication, so exactly.
    let faster = |a: (u128, u128), b: (u128, u128)| a.1 * b.0 > b.1 * a.0;
    let mut peak = 0;
    while peak + 1 < pulses.len() && faster(pulses[peak + 1], pulses[peak]) {
        peak += 1;
    }
    assert!(0 < peak && peak + 1 < pulses.len());
    for i in peak..pulses.len() - 1 {
        assert!(faster(pulses[i], pulses[i + 1]), "the rate rose again at pulse {}", i + 1);
    }
    // No pulse is faster than 512000 steps per second, at 1 MHz.
    for &(delay, multiplier) in &pulses {
        assert!(multiplier * (DELAY_ONE as u128) * 1_000_000 <= 512_000 * delay);
    }
}

#[test]
fn ramp_within_the_speed_limit_stays_within_it() {
    // Cruising barely faster than the first step: the delay reaches the
    // cruising delay at once, and the corrections of the first steps only
    // lengthen it.
    let mut g = StepGenerator::new(640_000, 1_536_000, 600);
    let c0 = compute_initial_delay(640_000);
    let target = compute_cruise_delay(600);
    assert_eq!(target, 7_158_278_826_666);
    assert!(c0 > target);
    g.set_remaining_steps(10_000);

    assert_eq!(g.next(), Some((c0, 1)));
    assert_eq!(g.current_delay(), c0);
    // The second step is clamped to the cruising delay, then corrected by
    // 1 + 0.08 / 1: slower than the first.
    let second = target * 27 / 25;
    assert_eq!(g.next(), Some((second, 1)));
    assert!(second > c0);
    // The third is corrected by 1 + 0.08 / 2: faster again.
    let third = target * 52 / 50;
    assert_eq!(g.next(), Some((third, 1)));
    assert!(third < c0);

    while let Some((delay, multiplier)) = g.next() {
        assert!(delay >= target * multiplier as u64);
        assert!(g.current_delay() >= target);
    }
}

#[test]
fn braking_never_speeds_up() {
    let mut g = StepGenerator::new(640_000, 1_536_000, 512_000);
    g.set_remaining_steps(25_599);
    g.next().unwrap();
    let mut braked = 0u32;
    loop {
        let braking = g.end_approaching();
        let before = g.current_delay();
        if g.next().is_none() {
            break;
        }
        if braking {
            assert!(g.current_delay() >= before);
            braked += 1;
        }
    }
    assert!(braked > 100);
}
