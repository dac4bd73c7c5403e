//! The port of the DRV8424 stepper driver: what each of its lines shows.
//!
//! The lines themselves are driven elsewhere, from the state kept here. The
//! chip's timing rules bind whoever drives them: 200 ns between a change of
//! direction or of microstepping and the next step edge, 1 us of step pulse,
//! 5 us between enabling and the first step.

use vstd::prelude::*;
use crate::zaxis::step_generator::is_multiplier;

verus! {

/// Share of the driver's full current that the reference output selects.
pub const MOTOR_CURRENT_PERCENT: u32 = 70;

/// The way the carriage travels.
#[derive(Clone, Copy, Debug, PartialEq, Eq, Structural)]
pub enum Direction {
    /// Away from the bottom sensor; positions grow.
    Up,
    /// Towards the bottom sensor; positions shrink.
    Down,
}

/// The electrical state of a microstep-mode pin.
#[derive(Clone, Copy, Debug, PartialEq, Eq, Structural)]
pub enum ModePin {
    /// Driven low.
    Low,
    /// Driven high.
    High,
    /// Left floating.
    HiZ,
}

/// The state of the MODE0 pin that selects `multiplier`, by the datasheet:
/// floating for 2, 16 and 128; low for 8, 64 and 256; high for 1 and 32.
pub open spec fn mode0_for(multiplier: int) -> ModePin {
    if multiplier == 2 || multiplier == 16 || multiplier == 128 {
        ModePin::HiZ
    } else if multiplier == 8 || multiplier == 64 || multiplier == 256 {
        ModePin::Low
    } else {
        ModePin::High
    }
}

/// The state of the MODE1 pin that selects `multiplier`, by the datasheet:
/// floating for 1, 2 and 8; low for 128 and 256; high for 16, 32 and 64.
pub open spec fn mode1_for(multiplier: int) -> ModePin {
    if multiplier == 1 || multiplier == 2 || multiplier == 8 {
        ModePin::HiZ
    } else if multiplier == 128 || multiplier == 256 {
        ModePin::Low
    } else {
        ModePin::High
    }
}

/// The duty of the current reference, out of `max_duty`: `percent` of it.
pub open spec fn reference_duty(max_duty: int, percent: int) -> int {
    max_duty * percent / 100
}

/// What the driver's lines show.
pub struct DriverState {
    /// The direction line.
    pub direction: Direction,
    /// The step line; the motor advances on its rising edge.
    pub step: bool,
    /// The enable line; the chip holds and drives the motor while it is set.
    pub enabled: bool,
    /// The MODE0 pin.
    pub mode0: ModePin,
    /// The MODE1 pin.
    pub mode1: ModePin,
    /// The multiplier that the mode pins select; 0 before the first choice.
    pub step_multiplier: int,
}

impl DriverState {
    /// The lines after power-up: everything low, the mode pins floating, no
    /// multiplier chosen yet.
    pub open spec fn initial() -> DriverState {
        DriverState {
            direction: Direction::Down,
            step: false,
            enabled: false,
            mode0: ModePin::HiZ,
            mode1: ModePin::HiZ,
            step_multiplier: 0,
        }
    }

    /// The mode pins show the multiplier, once one has been chosen.
    pub open spec fn wf(self) -> bool {
        self.step_multiplier == 0 || {
            &&& is_multiplier(self.step_multiplier)
            &&& self.mode0 == mode0_for(self.step_multiplier)
            &&& self.mode1 == mode1_for(self.step_multiplier)
        }
    }

    /// The lines after `multiplier` is selected: untouched where it is the
    /// multiplier already.
    pub open spec fn with_multiplier(self, multiplier: int) -> DriverState {
        if self.step_multiplier == multiplier {
            self
        } else {
            DriverState {
                mode0: mode0_for(multiplier),
                mode1: mode1_for(multiplier),
                step_multiplier: multiplier,
                ..self
            }
        }
    }

    /// The lines after the chip is disabled.
    pub open spec fn disabled(self) -> DriverState {
        DriverState { step: false, enabled: false, ..self }
    }
}

/// The port of one DRV8424.
pub struct Drv8424 {
    direction: Direction,
    step: bool,
    enabled: bool,
    mode0: ModePin,
    mode1: ModePin,
    step_multiplier: u32,
}

impl View for Drv8424 {
    type V = DriverState;

    closed spec fn view(&self) -> DriverState {
        DriverState {
            direction: self.direction,
            step: self.step,
            enabled: self.enabled,
            mode0: self.mode0,
            mode1: self.mode1,
            step_multiplier: self.step_multiplier as int,
        }
    }
}

/// The duty to program for the current reference, given the largest duty of
/// the PWM channel.
pub fn current_reference_duty(max_duty: u16) -> (duty: u16)
    ensures
        duty == reference_duty(max_duty as int, MOTOR_CURRENT_PERCENT as int),
        duty <= max_duty,
{
    let scaled: u32 = (max_duty as u32) * MOTOR_CURRENT_PERCENT / 100;
    scaled as u16
}

impl Drv8424 {
    /// Holds of every port: its lines are well-formed.
    #[verifier::type_invariant]
    pub closed spec fn inv(self) -> bool {
        self@.wf()
    }

    /// What `inv` says about the lines.
    pub proof fn lemma_inv(self)
        requires
            self.inv(),
        ensures
            self@.wf(),
    {
    }

    /// The port after power-up.
    pub fn new() -> (drv: Drv8424)
        ensures
            drv@ == DriverState::initial(),
            drv@.wf(),
    {
        Drv8424 {
            direction: Direction::Down,
            step: false,
            enabled: false,
            mode0: ModePin::HiZ,
            mode1: ModePin::HiZ,
            step_multiplier: 0,
        }
    }

    /// Selects the microstepping for pulses of `step_multiplier` microsteps.
    /// Nothing changes where that is the multiplier already.
    pub fn set_step_multiplier(&mut self, step_multiplier: u32)
        requires
            is_multiplier(step_multiplier as int),
        ensures
            final(self)@ == old(self)@.with_multiplier(step_multiplier as int),
            final(self)@.wf(),
    {
        proof {
            use_type_invariant(&*self);
        }
        if self.step_multiplier != step_multiplier {
            let mode0: ModePin = if step_multiplier == 2 || step_multiplier == 16
                || step_multiplier == 128 {
                ModePin::HiZ
            } else if step_multiplier == 8 || step_multiplier == 64 || step_multiplier == 256 {
                ModePin::Low
            } else {
                ModePin::High
            };
            let mode1: ModePin = if step_multiplier == 1 || step_multiplier == 2
                || step_multiplier == 8 {
                ModePin::HiZ
            } else if step_multiplier == 128 || step_multiplier == 256 {
                ModePin::Low
            } else {
                ModePin::High
            };
            *self = Drv8424 { mode0, mode1, step_multiplier, ..*self };
        }
    }

    /// Whether the driver can select `step_multiplier`.
    pub fn supports_multiplier(step_multiplier: u32) -> (ok: bool)
        ensures
            ok == is_multiplier(step_multiplier as int),
    {
        step_multiplier == 1 || step_multiplier == 2 || step_multiplier == 8
            || step_multiplier == 16 || step_multiplier == 32 || step_multiplier == 64
            || step_multiplier == 128 || step_multiplier == 256
    }

    /// Sets the direction line.
    pub fn set_direction(&mut self, direction: Direction)
        ensures
            final(self)@ == (DriverState { direction, ..old(self)@ }),
            final(self)@.wf(),
    {
        proof {
            use_type_invariant(&*self);
        }
        self.direction = direction;
    }

    /// The direction that the direction line shows.
    pub fn get_direction(&self) -> (direction: Direction)
        ensures
            direction == self@.direction,
    {
        self.direction
    }

    /// Raises the step line: the motor advances by one pulse.
    pub fn step_high(&mut self)
        ensures
            final(self)@ == (DriverState { step: true, ..old(self)@ }),
            final(self)@.wf(),
    {
        proof {
            use_type_invariant(&*self);
        }
        self.step = true;
    }

    /// Lowers the step line again.
    pub fn step_low(&mut self)
        ensures
            final(self)@ == (DriverState { step: false, ..old(self)@ }),
            final(self)@.wf(),
    {
        proof {
            use_type_invariant(&*self);
        }
        self.step = false;
    }

    /// One pulse of the step line: raises it, calls `f` on the port while
    /// the line is high, and lowers it again. Direction and microstepping
    /// stay as they are meanwhile. `f` is there to do useful work during the
    /// microsecond that the pulse has to last.
    pub fn do_step<R, F: FnOnce(&Drv8424) -> R>(&mut self, f: F) -> (r: R)
        requires
            forall|port: Drv8424|
                port@ == (DriverState { step: true, ..old(self)@ }) ==> f.requires((&port,)),
        ensures
            final(self)@ == (DriverState { step: false, ..old(self)@ }),
            final(self)@.wf(),
            exists|port: Drv8424|
                port@ == (DriverState { step: true, ..old(self)@ }) && f.ensures((&port,), r),
    {
        self.step_high();
        let r = f(&*self);
        self.step_low();
        r
    }

    /// Enables the chip.
    pub fn enable(&mut self)
        ensures
            final(self)@ == (DriverState { enabled: true, ..old(self)@ }),
            final(self)@.wf(),
    {
        proof {
            use_type_invariant(&*self);
        }
        self.enabled = true;
    }

    /// Disables the chip, with the step line low.
    pub fn disable(&mut self)
        ensures
            final(self)@ == old(self)@.disabled(),
            final(self)@.wf(),
    {
        proof {
            use_type_invariant(&*self);
        }
        self.step = false;
        self.enabled = false;
    }

    /// Whether the chip is enabled.
    pub fn is_enabled(&self) -> (enabled: bool)
        ensures
            enabled == self@.enabled,
    {
        self.enabled
    }

    /// The multiplier that the mode pins select; 0 before the first choice.
    pub fn step_multiplier(&self) -> (m: u32)
        ensures
            m == self@.step_multiplier,
            self@.wf(),
    {
        proof {
            use_type_invariant(self);
        }
        self.step_multiplier
    }

    /// The state of the MODE0 pin.
    pub fn mode0(&self) -> (pin: ModePin)
        ensures
            pin == self@.mode0,
    {
        self.mode0
    }

    /// The state of the MODE1 pin.
    pub fn mode1(&self) -> (pin: ModePin)
        ensures
            pin == self@.mode1,
    {
        self.mode1
    }

    /// The level of the step line.
    pub fn step_level(&self) -> (high: bool)
        ensures
            high == self@.step,
    {
        self.step
    }
}

} // verus!
