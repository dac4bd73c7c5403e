//! The motion controller: position, target, and what each timer interrupt
//! does to them.
//!
//! The controller runs inside the step timer's interrupt. It is idle while
//! the driver is disabled, and moving while the driver is enabled and the
//! interrupt is listened to. The timer and the driver's lines are programmed
//! elsewhere, from the state kept here.

use vstd::prelude::*;
use crate::zaxis::delay_math::{DELAY_MAX, DELAY_ONE, MAX_STEP_MULTIPLIER};
use crate::zaxis::distance::Steps;
use crate::zaxis::drv8424::{Direction, DriverState, Drv8424};
use crate::zaxis::step_generator::{
    is_multiplier, lemma_adjusted_multiplier, lemma_after_next_wf, GeneratorState, StepGenerator,
};

verus! {

/// Default cruising speed: 20 mm/s, in steps per second.
pub const MAX_SPEED: u32 = 512_000;

/// Default acceleration: 25 mm/s^2, in steps per second squared.
pub const MAX_ACCELERATION: u32 = 640_000;

/// Default deceleration: 60 mm/s^2, in steps per second squared.
pub const MAX_DECELERATION: u32 = 1_536_000;

/// Timer ticks between enabling the driver and the first step: 5 us.
pub const ENABLE_SETTLE_TICKS: u16 = 5;

/// The reload value of the 16-bit timer for an effective delay: the delay in
/// ticks rounded to the nearest, less one because a reload of 0 still makes
/// one tick; `u16::MAX` from 65535 ticks on.
pub open spec fn reload_value(delay: int) -> int {
    if delay >= 65535 * DELAY_ONE {
        65535
    } else {
        let rounded = (delay + DELAY_ONE / 2) / (DELAY_ONE as int);
        if rounded <= 0 {
            0
        } else {
            rounded - 1
        }
    }
}

/// Computes `reload_value`.
pub fn compute_reload_value(delay: u64) -> (reload: u16)
    requires
        delay <= u64::MAX - 2_147_483_648,
    ensures
        reload == reload_value(delay as int),
{
    if delay >= 65535 * DELAY_ONE {
        u16::MAX
    } else {
        let rounded: u64 = (delay + DELAY_ONE / 2) / DELAY_ONE;
        if rounded == 0 {
            0
        } else {
            (rounded - 1) as u16
        }
    }
}

/// The prescaler that makes a timer clocked at `timer_clock_hz` tick
/// 1,000,000 times a second: the ratio of the two less one. There is none
/// below that rate.
pub open spec fn prescaler_for(timer_clock_hz: int) -> Option<int> {
    if timer_clock_hz < 1_000_000 {
        None
    } else {
        Some(timer_clock_hz / 1_000_000 - 1)
    }
}

/// Computes `prescaler_for`.
pub fn timer_prescaler(timer_clock_hz: u32) -> (psc: Option<u16>)
    ensures
        match psc {
            Some(p) => prescaler_for(timer_clock_hz as int) == Some(p as int),
            None => prescaler_for(timer_clock_hz as int) is None,
        },
{
    if timer_clock_hz < 1_000_000 {
        None
    } else {
        Some((timer_clock_hz / 1_000_000 - 1) as u16)
    }
}

/// What the interrupt handler has to do after a pulse.
#[derive(Clone, Copy, Debug, PartialEq, Eq, Structural)]
pub enum InterruptOutcome {
    /// Select `multiplier` on the driver and reload the timer with `reload`.
    Continue { multiplier: u32, reload: u16 },
    /// The move is over: stop listening to the timer, disable the driver.
    Finished,
}

/// What a motion controller holds, as plain values.
pub struct MotionState {
    /// The driver's lines.
    pub driver: DriverState,
    /// The step-delay generator.
    pub generator: GeneratorState,
    /// Where the carriage is.
    pub current_position: int,
    /// Where it was last told to go.
    pub target: int,
    /// The timer's reload register.
    pub timer_reload: int,
    /// Whether the timer's interrupt is listened to.
    pub timer_listening: bool,
    /// Whether the timer's counter has yet to be reset for a move that was
    /// started.
    pub timer_restart: bool,
}

impl MotionState {
    /// The values that a controller can hold.
    pub open spec fn wf(self) -> bool {
        &&& self.driver.wf()
        &&& self.generator.wf()
        &&& i32::MIN <= self.current_position <= i32::MAX
        &&& i32::MIN <= self.target <= i32::MAX
        &&& 0 <= self.timer_reload <= u16::MAX
    }

    /// Idle means that the driver is disabled.
    pub open spec fn is_idle(self) -> bool {
        !self.driver.enabled
    }

    /// The state after the cruising speed is set; a negative speed counts
    /// as zero.
    pub open spec fn after_set_max_speed(self, max_speed: int) -> MotionState {
        MotionState {
            generator: GeneratorState {
                max_speed: if max_speed < 0 {
                    0
                } else {
                    max_speed
                },
                ..self.generator
            },
            ..self
        }
    }

    /// The state after a new target is set. Nothing changes where the
    /// target is the current position: a move that is under way goes on to
    /// the target it has. Else the target is kept, the direction is set, the
    /// multiplier forced to 1, the driver enabled, the generator armed with
    /// one step less than the distance (the first step comes at once), and
    /// the timer set to fire after the driver has settled.
    pub open spec fn after_set_target(self, target: int) -> MotionState {
        let delta = target - self.current_position;
        if delta == 0 {
            self
        } else {
            MotionState {
                driver: DriverState {
                    direction: if delta > 0 {
                        Direction::Up
                    } else {
                        Direction::Down
                    },
                    enabled: true,
                    ..self.driver.with_multiplier(1)
                },
                generator: GeneratorState {
                    remaining_steps: if delta > 0 {
                        delta - 1
                    } else {
                        -delta - 1
                    },
                    ..self.generator
                },
                target,
                timer_reload: ENABLE_SETTLE_TICKS as int,
                timer_listening: true,
                timer_restart: true,
                ..self
            }
        }
    }

    /// The state after a controlled stop is asked for: the generator is left
    /// with the steps that braking to zero takes.
    pub open spec fn after_stop(self) -> MotionState {
        MotionState {
            generator: GeneratorState {
                remaining_steps: self.generator.num_steps_to_stop(),
                ..self.generator
            },
            ..self
        }
    }

    /// The state after a hard stop: no steps remain, the target is where
    /// the carriage is, the interrupt is off and the driver disabled.
    pub open spec fn after_hard_stop(self) -> MotionState {
        MotionState {
            driver: self.driver.disabled(),
            generator: GeneratorState { remaining_steps: 0, ..self.generator },
            target: self.current_position,
            timer_listening: false,
            ..self
        }
    }

    /// The state after the origin is moved to `origin`: the position drops
    /// by `origin`, and the target becomes the old target plus the old
    /// position less `origin`. The motor does not move.
    pub open spec fn after_set_origin(self, origin: int) -> MotionState {
        MotionState {
            current_position: self.current_position - origin,
            target: self.target + self.current_position - origin,
            ..self
        }
    }

    /// Whether `after_set_origin(origin)` can be held.
    pub open spec fn origin_fits(self, origin: int) -> bool {
        &&& i32::MIN <= self.current_position - origin <= i32::MAX
        &&& i32::MIN <= self.target + self.current_position - origin <= i32::MAX
    }

    /// Where the carriage is after one more pulse: the driver's multiplier
    /// further in the driver's direction.
    pub open spec fn position_after_pulse(self) -> int {
        match self.driver.direction {
            Direction::Up => self.current_position + self.driver.step_multiplier,
            Direction::Down => self.current_position - self.driver.step_multiplier,
        }
    }

    /// Whether the position after one more pulse can be held.
    pub open spec fn pulse_fits(self) -> bool {
        i32::MIN <= self.position_after_pulse() <= i32::MAX
    }

    /// The state after one timer interrupt: a pulse is issued and counted;
    /// then either the generator hands out the next delay and multiplier,
    /// which go to the timer and the driver, or it reports the end and the
    /// controller stops hard.
    pub open spec fn after_interrupt(self) -> MotionState {
        let pulsed = MotionState {
            driver: DriverState { step: false, ..self.driver },
            generator: self.generator.after_next(),
            current_position: self.position_after_pulse(),
            ..self
        };
        if self.generator.remaining_steps <= 0 {
            pulsed.after_hard_stop()
        } else {
            MotionState {
                driver: pulsed.driver.with_multiplier(self.generator.adjusted_multiplier()),
                timer_reload: reload_value(self.generator.effective_delay()),
                ..pulsed
            }
        }
    }

    /// The steps between the position and the target.
    pub open spec fn distance(self) -> int {
        if self.target >= self.current_position {
            self.target - self.current_position
        } else {
            self.current_position - self.target
        }
    }

    /// A move is on course where the controller is moving towards its
    /// target and the pulse that is due, together with the steps that the
    /// generator still holds, covers exactly the distance left.
    pub open spec fn on_course(self) -> bool {
        &&& self.wf()
        &&& self.driver.enabled
        &&& self.timer_listening
        &&& is_multiplier(self.driver.step_multiplier)
        &&& self.target != self.current_position
        &&& self.target > self.current_position ==> self.driver.direction == Direction::Up
        &&& self.target < self.current_position ==> self.driver.direction == Direction::Down
        &&& self.distance() == self.generator.remaining_steps + self.driver.step_multiplier
    }

    /// The state once the generator has run out of steps and the interrupt
    /// after that has been served.
    pub open spec fn drained(self) -> MotionState
        decreases self.generator.remaining_steps,
    {
        let m = self.generator.adjusted_multiplier();
        if self.generator.remaining_steps <= 0 || !(1 <= m <= self.generator.remaining_steps) {
            self.after_interrupt()
        } else {
            self.after_interrupt().drained()
        }
    }

    /// The state once the interrupts of a move on course have all been
    /// served.
    pub open spec fn settled(self) -> MotionState
        decreases self.distance(),
    {
        if self.on_course() && self.after_interrupt().distance() < self.distance() {
            self.after_interrupt().settled()
        } else {
            self
        }
    }
}

/// Idempotence of the hard stop. A hard stop leaves the controller idle
/// with the target at the current position, and a second one right after
/// changes nothing.
pub proof fn law_hard_stop_idempotent(s: MotionState)
    ensures
        s.after_hard_stop().is_idle(),
        s.after_hard_stop().target == s.after_hard_stop().current_position,
        s.after_hard_stop().after_hard_stop() == s.after_hard_stop(),
        s.after_hard_stop().after_hard_stop().is_idle(),
{
}

/// Origin algebra. Moving the origin by `first` and then by `second` is
/// exact: the position drops by both, and each call adds the position
/// before it, less its origin, to the target.
pub proof fn law_origin_algebra(s: MotionState, first: int, second: int)
    ensures
        s.after_set_origin(first).current_position == s.current_position - first,
        s.after_set_origin(first).target == s.target + s.current_position - first,
        s.after_set_origin(first).after_set_origin(second).current_position
            == s.current_position - first - second,
        s.after_set_origin(first).after_set_origin(second).target == s.target + 2
            * s.current_position - 2 * first - second,
        s.after_set_origin(first).driver == s.driver,
        s.after_set_origin(first).generator == s.generator,
{
}

/// Setting the current position as the target changes nothing: the kept
/// target, the driver, the generator and the timer all stay, whether a move
/// is under way or not.
pub proof fn law_set_target_at_position_is_no_op(s: MotionState)
    ensures
        s.after_set_target(s.current_position) == s,
{
}

/// Setting a target away from the position starts a move on course,
/// whatever the controller did before.
pub proof fn law_set_target_starts_move(s: MotionState, target: int)
    requires
        s.wf(),
        i32::MIN <= target <= i32::MAX,
        target != s.current_position,
    ensures
        s.after_set_target(target).on_course(),
        s.after_set_target(target).target == target,
        !s.after_set_target(target).is_idle(),
{
}

/// One interrupt of a move on course brings the carriage closer by the
/// driver's multiplier without passing the target. Either the move is still
/// on course, or the carriage is at the target and the controller idle.
pub proof fn law_interrupt_keeps_course(s: MotionState)
    requires
        s.on_course(),
    ensures
        s.pulse_fits(),
        s.after_interrupt().wf(),
        s.after_interrupt().distance() == s.distance() - s.driver.step_multiplier,
        s.after_interrupt().distance() == s.generator.remaining_steps,
        s.generator.remaining_steps > 0 ==> s.after_interrupt().on_course()
            && s.after_interrupt().target == s.target,
        s.generator.remaining_steps == 0 ==> s.after_interrupt().is_idle()
            && s.after_interrupt().current_position == s.target
            && s.after_interrupt().target == s.target,
{
    lemma_adjusted_multiplier(s.generator);
    lemma_after_next_wf(s.generator);
    lemma_reload_range(s.generator.effective_delay());
}

/// A move on course ends at its target. Once all its interrupts are served
/// the controller is idle, and the carriage stands exactly where the target
/// was set.
pub proof fn law_move_reaches_target(s: MotionState)
    requires
        s.on_course(),
    ensures
        s.settled().is_idle(),
        s.settled().current_position == s.target,
        s.settled().target == s.target,
        s.settled().generator.remaining_steps == 0,
    decreases s.distance(),
{
    law_interrupt_keeps_course(s);
    if s.generator.remaining_steps > 0 {
        law_move_reaches_target(s.after_interrupt());
    } else {
        assert(!s.after_interrupt().on_course());
        assert(s.after_interrupt().settled() == s.after_interrupt());
    }
}

/// Whatever was asked of the controller before, serving the timer's
/// interrupts ends with the controller idle: the steps that the generator
/// holds run out, and the interrupt after the last pulse stops hard. After a
/// controlled stop these are the steps that braking takes.
pub proof fn law_interrupts_end_idle(s: MotionState)
    requires
        s.generator.wf(),
    ensures
        s.drained().is_idle(),
        s.drained().target == s.drained().current_position,
        s.drained().generator.remaining_steps == 0,
        !s.drained().timer_listening,
        s.after_stop().drained().is_idle(),
    decreases s.generator.remaining_steps,
{
    lemma_adjusted_multiplier(s.generator);
    lemma_after_next_wf(s.generator);
    if s.generator.remaining_steps > 0 {
        law_interrupts_end_idle(s.after_interrupt());
    }
    let stopping = s.after_stop();
    if stopping.generator.remaining_steps != s.generator.remaining_steps {
        lemma_stop_wf(s.generator);
        lemma_drained_idle(stopping);
    }
}

/// `law_interrupts_end_idle`, for one state.
proof fn lemma_drained_idle(s: MotionState)
    requires
        s.generator.wf(),
    ensures
        s.drained().is_idle(),
    decreases s.generator.remaining_steps,
{
    lemma_adjusted_multiplier(s.generator);
    lemma_after_next_wf(s.generator);
    if s.generator.remaining_steps > 0 {
        lemma_drained_idle(s.after_interrupt());
    }
}

/// A generator that is left with the steps to a stop is well-formed.
proof fn lemma_stop_wf(g: GeneratorState)
    requires
        g.wf(),
    ensures
        (GeneratorState { remaining_steps: g.num_steps_to_stop(), ..g }).wf(),
{
    let divisor = 2 * g.deceleration * crate::zaxis::delay_math::squared(g.ci);
    if divisor > 0 {
        let q = (2 * crate::zaxis::delay_math::BRAKE_BOUND + divisor) / (2 * divisor);
        assert(q >= 0) by (nonlinear_arith)
            requires
                q == (2 * crate::zaxis::delay_math::BRAKE_BOUND + divisor) / (2 * divisor),
                divisor > 0,
        ;
    }
}

/// A reload value fits the timer's register.
pub proof fn lemma_reload_range(delay: int)
    ensures
        0 <= reload_value(delay) <= u16::MAX,
{
    if delay < 65535 * DELAY_ONE {
        let rounded = (delay + DELAY_ONE / 2) / (DELAY_ONE as int);
        assert(rounded <= 65535) by (nonlinear_arith)
            requires
                rounded == (delay + 2_147_483_648) / 4_294_967_296,
                delay < 65535 * 4_294_967_296,
        ;
    }
}

/// The motion controller of the Z axis.
pub struct MotionControl {
    drv8424: Drv8424,
    stepgen: StepGenerator,
    current_position: Steps,
    target: Steps,
    timer_reload: u16,
    timer_listening: bool,
    timer_restart: bool,
}

impl View for MotionControl {
    type V = MotionState;

    closed spec fn view(&self) -> MotionState {
        MotionState {
            driver: self.drv8424@,
            generator: self.stepgen@,
            current_position: self.current_position@,
            target: self.target@,
            timer_reload: self.timer_reload as int,
            timer_listening: self.timer_listening,
            timer_restart: self.timer_restart,
        }
    }
}

impl MotionControl {
    /// The driver and the generator of a controller are well-formed.
    proof fn lemma_parts_wf(&self)
        requires
            self.drv8424.inv(),
            self.stepgen.inv(),
        ensures
            self@.driver.wf(),
            self@.generator.wf(),
    {
        self.drv8424.lemma_inv();
        self.stepgen.lemma_inv();
    }

    /// A controller at position 0 with the default speed profile, around a
    /// driver port.
    pub fn new(drv8424: Drv8424) -> (mc: MotionControl)
        ensures
            mc@.driver == drv8424@,
            mc@.generator == (GeneratorState {
                acceleration: MAX_ACCELERATION as int,
                deceleration: MAX_DECELERATION as int,
                max_speed: MAX_SPEED as int,
                ci: 0,
                n: 0,
                remaining_steps: 0,
                step_multiplier: 1,
            }),
            mc@.current_position == 0,
            mc@.target == 0,
            mc@.timer_reload == 0,
            !mc@.timer_listening,
            !mc@.timer_restart,
            mc@.wf(),
            mc@.is_idle() == !drv8424@.enabled,
    {
        let stepgen = StepGenerator::new(MAX_ACCELERATION, MAX_DECELERATION, MAX_SPEED);
        proof {
            use_type_invariant(&drv8424);
            drv8424.lemma_inv();
        }
        MotionControl {
            drv8424,
            stepgen,
            current_position: Steps(0),
            target: Steps(0),
            timer_reload: 0,
            timer_listening: false,
            timer_restart: false,
        }
    }

    /// Serves one timer interrupt.
    pub fn on_interrupt(&mut self) -> (outcome: InterruptOutcome)
        requires
            old(self)@.pulse_fits(),
        ensures
            final(self)@ == old(self)@.after_interrupt(),
            old(self)@.wf(),
            final(self)@.wf(),
            match outcome {
                InterruptOutcome::Continue { multiplier, reload } => {
                    &&& old(self)@.generator.remaining_steps > 0
                    &&& multiplier == final(self)@.driver.step_multiplier
                    &&& reload == final(self)@.timer_reload
                },
                InterruptOutcome::Finished => {
                    &&& old(self)@.generator.remaining_steps == 0
                    &&& final(self)@.is_idle()
                },
            },
    {
        let next_delay = self.do_step();
        match next_delay {
            Some((delay, multiplier)) => {
                self.drv8424.set_step_multiplier(multiplier);
                proof {
                    lemma_reload_range(delay as int);
                }
                let reload: u16 = compute_reload_value(delay);
                self.timer_reload = reload;
                InterruptOutcome::Continue { multiplier, reload }
            },
            None => {
                self.hard_stop();
                InterruptOutcome::Finished
            },
        }
    }

    /// Sets the cruising speed, in steps per second; it may change while a
    /// move is under way. A negative speed counts as zero.
    pub fn set_max_speed(&mut self, max_speed: Steps)
        ensures
            final(self)@ == old(self)@.after_set_max_speed(max_speed@),
            final(self)@.wf(),
    {
        let speed: u32 = if max_speed.0 < 0 {
            0
        } else {
            max_speed.0 as u32
        };
        proof {
            use_type_invariant(&self.drv8424);
            use_type_invariant(&self.stepgen);
            self.lemma_parts_wf();
        }
        self.stepgen.set_max_speed(speed);
    }

    /// The cruising speed, in steps per second; `i32::MAX` where it is
    /// more.
    pub fn get_max_speed(&self) -> (max_speed: Steps)
        ensures
            max_speed@ == if self@.generator.max_speed > i32::MAX {
                i32::MAX as int
            } else {
                self@.generator.max_speed
            },
    {
        let speed: u32 = self.stepgen.get_max_speed();
        if speed > i32::MAX as u32 {
            Steps(i32::MAX)
        } else {
            Steps(speed as i32)
        }
    }

    /// Where the carriage is.
    pub fn get_current_position(&self) -> (position: Steps)
        ensures
            position@ == self@.current_position,
    {
        self.current_position
    }

    /// Where the carriage was last told to go.
    pub fn get_target(&self) -> (target: Steps)
        ensures
            target@ == self@.target,
    {
        self.target
    }

    /// Sets the target `steps` away from the current position; the sum is
    /// kept within the integer range. Does nothing where that is the
    /// current position.
    pub fn set_target_relative(&mut self, steps: Steps) -> (started: bool)
        ensures
            final(self)@ == old(self)@.after_set_target(
                crate::zaxis::distance::clamp_i32(old(self)@.current_position + steps@),
            ),
            started == (crate::zaxis::distance::clamp_i32(old(self)@.current_position + steps@)
                != old(self)@.current_position),
            final(self)@.wf(),
    {
        let wide: i64 = (self.current_position.0 as i64) + (steps.0 as i64);
        let target: i32 = crate::zaxis::distance::clamp_to_i32(wide);
        self.set_target(Steps(target))
    }

    /// Sets the target and starts the move towards it. Does nothing where
    /// the carriage is at `target` already. Returns whether a move was
    /// started: the timer then has to be restarted with the reload value
    /// held here.
    pub fn set_target(&mut self, target: Steps) -> (started: bool)
        ensures
            final(self)@ == old(self)@.after_set_target(target@),
            started == (target@ != old(self)@.current_position),
            final(self)@.wf(),
    {
        proof {
            use_type_invariant(&self.drv8424);
            use_type_invariant(&self.stepgen);
            self.lemma_parts_wf();
        }
        let delta: i64 = (target.0 as i64) - (self.current_position.0 as i64);
        if delta == 0 {
            return false;
        }
        self.target = target;
        let (direction, steps): (Direction, u32) = if delta > 0 {
            (Direction::Up, delta as u32)
        } else {
            (Direction::Down, (-delta) as u32)
        };
        self.drv8424.set_direction(direction);
        self.drv8424.set_step_multiplier(1);
        self.drv8424.enable();
        // One step less: the first one comes as soon as the driver has settled.
        self.stepgen.set_remaining_steps(steps - 1);
        self.timer_reload = ENABLE_SETTLE_TICKS;
        self.timer_listening = true;
        self.timer_restart = true;
        true
    }

    /// Whether the origin can be moved to `origin_position` without leaving
    /// the integer range.
    pub fn origin_fits(&self, origin_position: Steps) -> (fits: bool)
        ensures
            fits == self@.origin_fits(origin_position@),
    {
        let position: i64 = (self.current_position.0 as i64) - (origin_position.0 as i64);
        let target: i64 = (self.target.0 as i64) + position;
        i32::MIN as i64 <= position && position <= i32::MAX as i64 && i32::MIN as i64 <= target
            && target <= i32::MAX as i64
    }

    /// Moves the origin of the coordinates to `origin_position`, without
    /// moving the motor.
    pub fn set_origin(&mut self, origin_position: Steps)
        requires
            old(self)@.origin_fits(origin_position@),
        ensures
            final(self)@ == old(self)@.after_set_origin(origin_position@),
            final(self)@.current_position == old(self)@.current_position - origin_position@,
            final(self)@.target == old(self)@.target + old(self)@.current_position
                - origin_position@,
            final(self)@.is_idle() == old(self)@.is_idle(),
            final(self)@.wf(),
    {
        proof {
            use_type_invariant(&self.drv8424);
            use_type_invariant(&self.stepgen);
            self.lemma_parts_wf();
        }
        let position: i32 = self.current_position.0 - origin_position.0;
        self.target = Steps(self.target.0 + position);
        self.current_position = Steps(position);
    }

    /// Controlled stop: the move goes on for just the steps that braking to
    /// zero takes at the current speed.
    pub fn stop(&mut self)
        ensures
            final(self)@ == old(self)@.after_stop(),
            final(self)@.wf(),
    {
        proof {
            use_type_invariant(&self.drv8424);
            use_type_invariant(&self.stepgen);
            self.lemma_parts_wf();
        }
        let steps: u32 = self.stepgen.num_steps_to_stop();
        self.stepgen.set_remaining_steps(steps);
    }

    /// Hard stop: ends the move at once. A new target is needed to move
    /// again.
    pub fn hard_stop(&mut self)
        ensures
            final(self)@ == old(self)@.after_hard_stop(),
            final(self)@.is_idle(),
            final(self)@.target == final(self)@.current_position,
            final(self)@.generator.remaining_steps == 0,
            !final(self)@.timer_listening,
            final(self)@.wf(),
    {
        proof {
            use_type_invariant(&self.drv8424);
            use_type_invariant(&self.stepgen);
            self.lemma_parts_wf();
        }
        self.stepgen.set_remaining_steps(0);
        self.target = self.current_position;
        self.timer_listening = false;
        self.drv8424.disable();
    }

    /// Whether the controller is idle: the driver is disabled.
    pub fn is_idle(&self) -> (idle: bool)
        ensures
            idle == self@.is_idle(),
    {
        !self.drv8424.is_enabled()
    }

    /// Whether the next interrupt can be served: the position after its
    /// pulse fits.
    pub fn pulse_fits(&self) -> (fits: bool)
        ensures
            fits == self@.pulse_fits(),
    {
        let m: i64 = self.drv8424.step_multiplier() as i64;
        let position: i64 = match self.drv8424.get_direction() {
            Direction::Up => (self.current_position.0 as i64) + m,
            Direction::Down => (self.current_position.0 as i64) - m,
        };
        i32::MIN as i64 <= position && position <= i32::MAX as i64
    }

    /// One pulse: the step line rises, the position follows by the driver's
    /// multiplier, the generator works out the next pulse while the line is
    /// high, and the line falls again. Returns what the generator said.
    pub fn do_step(&mut self) -> (next: Option<(u64, u32)>)
        requires
            old(self)@.pulse_fits(),
        ensures
            final(self)@ == (MotionState {
                driver: DriverState { step: false, ..old(self)@.driver },
                generator: old(self)@.generator.after_next(),
                current_position: old(self)@.position_after_pulse(),
                ..old(self)@
            }),
            old(self)@.wf(),
            final(self)@.wf(),
            next is None <==> old(self)@.generator.remaining_steps == 0,
            next matches Some((delay, multiplier)) ==> {
                &&& delay == old(self)@.generator.effective_delay()
                &&& multiplier == old(self)@.generator.adjusted_multiplier()
                &&& is_multiplier(multiplier as int)
                &&& delay <= DELAY_MAX * MAX_STEP_MULTIPLIER
            },
    {
        self.drv8424.step_high();
        let m: u32 = self.drv8424.step_multiplier();
        match self.drv8424.get_direction() {
            Direction::Up => {
                self.current_position = Steps(self.current_position.0 + m as i32);
            },
            Direction::Down => {
                self.current_position = Steps(self.current_position.0 - m as i32);
            },
        }
        let ghost before = self.stepgen@;
        let next = self.stepgen.next();
        proof {
            lemma_adjusted_multiplier(before);
            lemma_effective_delay_range(before);
        }
        self.drv8424.step_low();
        next
    }

    /// The driver port, for whoever mirrors it onto the pins.
    pub fn driver(&self) -> (drv: &Drv8424)
        ensures
            drv@ == self@.driver,
    {
        &self.drv8424
    }

    /// The value to hold in the timer's reload register.
    pub fn timer_reload(&self) -> (reload: u16)
        ensures
            reload == self@.timer_reload,
    {
        self.timer_reload
    }

    /// Whether the timer's interrupt has to be listened to.
    pub fn timer_listening(&self) -> (listening: bool)
        ensures
            listening == self@.timer_listening,
    {
        self.timer_listening
    }

    /// Whether the timer's counter has yet to be reset for a move that was
    /// started; asking clears the mark.
    pub fn take_timer_restart(&mut self) -> (restart: bool)
        ensures
            restart == old(self)@.timer_restart,
            final(self)@ == (MotionState { timer_restart: false, ..old(self)@ }),
    {
        let restart: bool = self.timer_restart;
        self.timer_restart = false;
        restart
    }

    /// The microsteps that the generator still holds.
    pub fn remaining_steps(&self) -> (steps: u32)
        ensures
            steps == self@.generator.remaining_steps,
    {
        self.stepgen.remaining_steps()
    }
}

/// The effective delay of a pulse is at most the longest delay times the
/// largest multiplier.
pub proof fn lemma_effective_delay_range(g: GeneratorState)
    requires
        g.wf(),
    ensures
        0 < g.effective_delay() <= DELAY_MAX * MAX_STEP_MULTIPLIER,
{
    lemma_adjusted_multiplier(g);
    let m = g.adjusted_multiplier();
    crate::zaxis::step_generator::lemma_next_delay_range(g, m);
    let d = g.next_delay(m);
    assert(d * m <= DELAY_MAX * MAX_STEP_MULTIPLIER) by (nonlinear_arith)
        requires
            0 <= d <= DELAY_MAX,
            0 <= m <= MAX_STEP_MULTIPLIER,
    ;
}

} // verus!
