use resin_printer::zaxis::delay_math::DELAY_ONE;
use resin_printer::zaxis::drv8424::{current_reference_duty, Direction, Drv8424, ModePin};
use resin_printer::zaxis::motion_control::{
    compute_reload_value, timer_prescaler, InterruptOutcome, MotionControl,
};
use resin_printer::zaxis::Steps;

/// Serves interrupts until the controller is idle; returns the multipliers
/// and the reload values of the pulses.
fn run_to_idle(mc: &mut MotionControl) -> Vec<(u32, u16)> {
    let mut pulses = Vec::new();
    while !mc.is_idle() {
        assert!(mc.timer_listening());
        assert!(mc.pulse_fits());
        match mc.on_interrupt() {
            InterruptOutcome::Continue { multiplier, reload } => {
                assert_eq!(mc.driver().step_multiplier(), multiplier);
                assert_eq!(mc.timer_reload(), reload);
                pulses.push((multiplier, reload));
            }
            InterruptOutcome::Finished => {
                assert!(mc.is_idle());
            }
        }
    }
    pulses
}

#[test]
fn hard_stop_twice_stays_idle() {
    let mut mc = MotionControl::new(Drv8424::new());
    mc.set_target(Steps(100));
    assert!(!mc.is_idle());
    mc.hard_stop();
    assert!(mc.is_idle());
    assert_eq!(mc.get_target(), mc.get_current_position());
    assert_eq!(mc.remaining_steps(), 0);
    assert!(!mc.timer_listening());
    mc.hard_stop();
    assert!(mc.is_idle());
    assert_eq!(mc.get_target(), mc.get_current_position());
    assert_eq!(mc.remaining_steps(), 0);
}

#[test]
fn one_millimetre_move_ends_at_the_target() {
    let mut mc = MotionControl::new(Drv8424::new());
    assert!(mc.is_idle());
    assert!(mc.set_target(Steps(25_600)));
    assert!(!mc.is_idle());
    assert_eq!(mc.driver().get_direction(), Direction::Up);
    assert_eq!(mc.driver().step_multiplier(), 1);
    assert_eq!(mc.timer_reload(), 5);
    assert!(mc.take_timer_restart());
    assert!(!mc.take_timer_restart());
    assert_eq!(mc.remaining_steps(), 25_599);

    let pulses = run_to_idle(&mut mc);
    assert_eq!(mc.get_current_position(), Steps(25_600));
    assert_eq!(mc.get_target(), Steps(25_600));
    assert!(mc.is_idle());

    // The first pulse is the one that set_target armed, the others carry
    // the multiplier that the generator chose.
    let steps: u64 = 1 + pulses.iter().map(|&(m, _)| m as u64).sum::<u64>();
    assert_eq!(steps, 25_600);

    // The step rate, multiplier over delay, rises to a peak and falls again.
    let rates: Vec<f64> = pulses.iter().map(|&(m, r)| m as f64 / (r as f64 + 1.0)).collect();
    let peak = rates.iter().cloned().fold(0.0, f64::max);
    let at = rates.iter().position(|&r| r == peak).unwrap();
    assert!(at > 10 && at < rates.len() - 10);
    assert!(rates[0] < peak / 50.0);
    assert!(rates[rates.len() - 1] < peak / 20.0);
    // Allowing for the rounding of the timer and the changes of multiplier,
    // the rate never falls much on the way up nor rises much on the way down.
    let mut high = 0.0f64;
    for &r in &rates[..at] {
        assert!(r >= high * 0.9);
        high = high.max(r);
    }
    let mut low = peak;
    for &r in &rates[at..] {
        assert!(r <= low * 1.1);
        low = low.min(r);
    }
}

#[test]
fn move_down_ends_at_the_target() {
    let mut mc = MotionControl::new(Drv8424::new());
    assert!(mc.set_target(Steps(-1000)));
    assert_eq!(mc.driver().get_direction(), Direction::Down);
    run_to_idle(&mut mc);
    assert_eq!(mc.get_current_position(), Steps(-1000));
    assert!(mc.is_idle());
}

#[test]
fn single_step_move() {
    let mut mc = MotionControl::new(Drv8424::new());
    assert!(mc.set_target(Steps(1)));
    assert_eq!(mc.remaining_steps(), 0);
    assert_eq!(mc.on_interrupt(), InterruptOutcome::Finished);
    assert_eq!(mc.get_current_position(), Steps(1));
    assert!(mc.is_idle());
}

#[test]
fn target_at_the_position_starts_nothing() {
    let mut mc = MotionControl::new(Drv8424::new());
    assert!(!mc.set_target(Steps(0)));
    assert!(mc.is_idle());
    assert!(!mc.timer_listening());
    assert!(!mc.set_target_relative(Steps(0)));
    assert!(mc.is_idle());
}

#[test]
fn relative_target_is_clamped() {
    let mut mc = MotionControl::new(Drv8424::new());
    mc.set_origin(Steps(-2_000_000_000));
    assert_eq!(mc.get_current_position(), Steps(2_000_000_000));
    assert!(mc.set_target_relative(Steps(2_000_000_000)));
    assert_eq!(mc.get_target(), Steps(i32::MAX));
}

#[test]
fn set_origin_is_exact() {
    let mut mc = MotionControl::new(Drv8424::new());
    mc.set_target(Steps(500));
    for _ in 0..100 {
        mc.on_interrupt();
    }
    let position = mc.get_current_position();
    let target = mc.get_target();
    assert_eq!(position, Steps(100));
    assert!(mc.origin_fits(Steps(30)));
    mc.set_origin(Steps(30));
    assert_eq!(mc.get_current_position(), Steps(position.0 - 30));
    assert_eq!(mc.get_target(), Steps(target.0 + position.0 - 30));
    assert!(!mc.is_idle());

    // A second one, with a negative origin.
    let position = mc.get_current_position();
    let target = mc.get_target();
    mc.set_origin(Steps(-51_200));
    assert_eq!(mc.get_current_position(), Steps(position.0 + 51_200));
    assert_eq!(mc.get_target(), Steps(target.0 + position.0 + 51_200));
}

#[test]
fn origin_that_does_not_fit_is_told() {
    let mut mc = MotionControl::new(Drv8424::new());
    mc.set_origin(Steps(-2_000_000_000));
    assert!(!mc.origin_fits(Steps(-2_000_000_000)));
    assert!(mc.origin_fits(Steps(2_000_000_000)));
}

#[test]
fn controlled_stop_brakes_to_idle() {
    let mut mc = MotionControl::new(Drv8424::new());
    mc.set_target(Steps::highest());
    // Run up to the cruising speed: 15.625 ticks for every 8 steps.
    for _ in 0..100_000 {
        mc.on_interrupt();
    }
    assert_eq!(mc.on_interrupt(), InterruptOutcome::Continue { multiplier: 8, reload: 15 });
    let at_stop = mc.get_current_position();
    mc.stop();
    // 512_000^2 / (2 * 1_536_000) steps at full speed
    assert_eq!(mc.remaining_steps(), 85_333);
    run_to_idle(&mut mc);
    assert!(mc.is_idle());
    assert_eq!(mc.get_target(), mc.get_current_position());
    let travelled = mc.get_current_position().0 - at_stop.0;
    assert!(travelled > 85_333 && travelled <= 85_333 + 256);
}

#[test]
fn max_speed_passes_through() {
    let mut mc = MotionControl::new(Drv8424::new());
    assert_eq!(mc.get_max_speed(), Steps(512_000));
    mc.set_max_speed(Steps(5_120));
    assert_eq!(mc.get_max_speed(), Steps(5_120));
    mc.set_max_speed(Steps(-7));
    assert_eq!(mc.get_max_speed(), Steps(0));
}

#[test]
fn reload_value_rounds_and_clamps() {
    assert_eq!(compute_reload_value(15 * DELAY_ONE), 14);
    assert_eq!(compute_reload_value(15 * DELAY_ONE + DELAY_ONE / 2 - 1), 14);
    assert_eq!(compute_reload_value(15 * DELAY_ONE + DELAY_ONE / 2), 15);
    assert_eq!(compute_reload_value(0), 0);
    assert_eq!(compute_reload_value(DELAY_ONE / 2), 0);
    assert_eq!(compute_reload_value(DELAY_ONE), 0);
    assert_eq!(compute_reload_value(2 * DELAY_ONE), 1);
    assert_eq!(compute_reload_value(65_534 * DELAY_ONE + DELAY_ONE / 2), 65_534);
    assert_eq!(compute_reload_value(65_535 * DELAY_ONE - 1), 65_534);
    assert_eq!(compute_reload_value(65_535 * DELAY_ONE), 65_535);
    assert_eq!(compute_reload_value(1_000_000 * DELAY_ONE), 65_535);
}

#[test]
fn prescaler_makes_a_microsecond_tick() {
    assert_eq!(timer_prescaler(84_000_000), Some(83));
    assert_eq!(timer_prescaler(1_000_000), Some(0));
    assert_eq!(timer_prescaler(1_999_999), Some(0));
    assert_eq!(timer_prescaler(999_999), None);
    assert_eq!(timer_prescaler(u32::MAX), Some(4293));
}

#[test]
fn mode_pins_follow_the_datasheet() {
    let table = [
        (1, ModePin::High, ModePin::HiZ),
        (2, ModePin::HiZ, ModePin::HiZ),
        (8, ModePin::Low, ModePin::HiZ),
        (16, ModePin::HiZ, ModePin::High),
        (32, ModePin::High, ModePin::High),
        (64, ModePin::Low, ModePin::High),
        (128, ModePin::HiZ, ModePin::Low),
        (256, ModePin::Low, ModePin::Low),
    ];
    for (m, mode0, mode1) in table {
        let mut drv = Drv8424::new();
        assert!(Drv8424::supports_multiplier(m));
        drv.set_step_multiplier(m);
        assert_eq!(drv.step_multiplier(), m);
        assert_eq!(drv.mode0(), mode0);
        assert_eq!(drv.mode1(), mode1);
    }
    assert!(!Drv8424::supports_multiplier(4));
    assert!(!Drv8424::supports_multiplier(0));
    assert!(!Drv8424::supports_multiplier(3));
}

#[test]
fn driver_lines() {
    let mut drv = Drv8424::new();
    assert!(!drv.is_enabled());
    assert_eq!(drv.get_direction(), Direction::Down);
    assert_eq!(drv.step_multiplier(), 0);
    drv.set_direction(Direction::Up);
    assert_eq!(drv.get_direction(), Direction::Up);
    drv.enable();
    assert!(drv.is_enabled());
    drv.step_high();
    assert!(drv.step_level());
    drv.step_low();
    assert!(!drv.step_level());
    drv.step_high();
    drv.disable();
    assert!(!drv.is_enabled());
    assert!(!drv.step_level());
    // The line is high while the closure runs, and low afterwards.
    assert!(drv.do_step(|port| port.step_level()));
    assert!(!drv.step_level());
    assert_eq!(current_reference_duty(1000), 700);
    assert_eq!(current_reference_duty(65_535), 45_874);
}

#[test]
fn steps_arithmetic() {
    assert_eq!(Steps(3) + Steps(4), Steps(7));
    assert_eq!(Steps(3) - Steps(4), Steps(-1));
    assert_eq!(-Steps(3), Steps(-3));
    assert_eq!(Steps::lowest(), Steps(i32::MIN / 2));
    assert_eq!(Steps::highest(), Steps(i32::MAX / 2));
    assert_eq!(Steps::highest() - Steps::lowest(), Steps(i32::MAX));
    assert_eq!(Steps::from_mm(1), Steps(25_600));
    assert_eq!(Steps::from_mm(-2), Steps(-51_200));
    assert_eq!(Steps::from_mm(100_000), Steps(i32::MAX));
    assert_eq!(Steps::from_mm(-100_000), Steps(i32::MIN));
    assert_eq!(Steps::from_um(100), Steps(2_560));
    assert_eq!(Steps::from_um(200), Steps(5_120));
    assert_eq!(Steps::from_um(-1), Steps(-25));
    assert_eq!(Steps(25_600).as_um(), 1000);
    assert_eq!(Steps(-25).as_um(), 0);
    assert_eq!(Steps(-26).as_um(), -1);
}

#[test]
fn target_at_the_position_changes_nothing_mid_move() {
    let mut mc = MotionControl::new(Drv8424::new());
    assert!(mc.set_target(Steps(25_600)));
    assert!(mc.take_timer_restart());
    for _ in 0..50 {
        assert!(mc.pulse_fits());
        mc.on_interrupt();
    }
    let position = mc.get_current_position();
    assert!(0 < position.0 && position.0 < 25_600);
    let remaining = mc.remaining_steps();
    let reload = mc.timer_reload();
    let multiplier = mc.driver().step_multiplier();

    assert!(!mc.set_target(position));
    assert_eq!(mc.get_target(), Steps(25_600));
    assert_eq!(mc.get_current_position(), position);
    assert_eq!(mc.remaining_steps(), remaining);
    assert_eq!(mc.timer_reload(), reload);
    assert_eq!(mc.driver().step_multiplier(), multiplier);
    assert_eq!(mc.driver().get_direction(), Direction::Up);
    assert!(mc.driver().is_enabled());
    assert!(mc.timer_listening());
    assert!(!mc.take_timer_restart());
    assert!(!mc.is_idle());

    assert!(!mc.set_target_relative(Steps(0)));
    assert_eq!(mc.get_target(), Steps(25_600));
    assert_eq!(mc.remaining_steps(), remaining);

    run_to_idle(&mut mc);
    assert_eq!(mc.get_current_position(), Steps(25_600));
}

#[test]
fn target_at_the_position_changes_nothing_at_rest() {
    let mut mc = MotionControl::new(Drv8424::new());
    assert!(!mc.set_target(Steps(0)));
    assert!(mc.is_idle());
    assert_eq!(mc.get_target(), Steps(0));
    assert!(!mc.timer_listening());
    assert!(!mc.take_timer_restart());
    assert!(!mc.driver().is_enabled());
    assert_eq!(mc.driver().step_multiplier(), 0);
}
