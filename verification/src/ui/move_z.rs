//! The page that moves the Z axis by hand: its tasks, and which of its
//! buttons can be pressed.

use vstd::prelude::*;
use crate::zaxis::distance::Steps;
use crate::zaxis::motion_control::law_interrupts_end_idle;
use crate::zaxis::motion_control_async::{BridgeState, Event, MotionControlAsync};
use crate::zaxis::origin_calibration::{
    calibrate_origin, homing_step, HomingPhase, BOTTOM_SENSOR_POSITION, PHASE1_HOMING_SPEED,
};

verus! {

/// A job for the Z axis.
#[derive(Clone, Copy, Debug, PartialEq, Eq, Structural)]
pub enum Task {
    /// Go up by `steps`.
    MoveUp { steps: Steps },
    /// Go down by `steps`.
    MoveDown { steps: Steps },
    /// Find the origin, then go to it.
    MoveZero,
}

/// How far a task has run.
#[derive(Clone, Copy, Debug, PartialEq, Eq, Structural)]
pub enum RunPhase {
    /// Nothing has been done yet.
    Start,
    /// The origin is being found; `speed` is the cruising speed to go back
    /// to afterwards.
    Homing { phase: HomingPhase, speed: Steps },
    /// The last move of the task is under way.
    Finishing,
    /// The task has run to its end.
    Done,
}

impl RunPhase {
    /// The event that ends the stage; none before the start and after the
    /// end.
    pub open spec fn awaited(self) -> Option<Event> {
        match self {
            RunPhase::Start => None,
            RunPhase::Homing { phase, speed } => phase.awaited(),
            RunPhase::Finishing => Some(Event::Idle),
            RunPhase::Done => None,
        }
    }

    /// The event to wait for before the next call of `Task::run`.
    pub fn event(&self) -> (event: Option<Event>)
        ensures
            event == self.awaited(),
    {
        match self {
            RunPhase::Start => None,
            RunPhase::Homing { phase, speed } => phase.event(),
            RunPhase::Finishing => Some(Event::Idle),
            RunPhase::Done => None,
        }
    }
}

/// How far the clean-up of a cancelled task has come.
#[derive(Clone, Copy, Debug, PartialEq, Eq, Structural)]
pub enum CancelPhase {
    /// Nothing has been done yet.
    Start,
    /// The carriage is braking.
    Braking,
    /// The carriage is at rest.
    Done,
}

impl CancelPhase {
    /// The event that ends the stage.
    pub open spec fn awaited(self) -> Option<Event> {
        match self {
            CancelPhase::Braking => Some(Event::Idle),
            _ => None,
        }
    }

    /// The event to wait for before the next call of `Task::cancel`.
    pub fn event(&self) -> (event: Option<Event>)
        ensures
            event == self.awaited(),
    {
        match self {
            CancelPhase::Braking => Some(Event::Idle),
            _ => None,
        }
    }
}

/// The cruising speed as the bridge reports it.
pub open spec fn reported_speed(b: BridgeState) -> int {
    if b.motion.generator.max_speed > i32::MAX {
        i32::MAX as int
    } else {
        b.motion.generator.max_speed
    }
}

impl Task {
    /// Whether the task can be run: going down by the most negative
    /// distance has no target.
    pub open spec fn runnable(self) -> bool {
        self matches Task::MoveDown { steps } ==> steps@ != i32::MIN
    }

    /// The stage that follows `phase` and the state that its commands
    /// leave, once the event of `phase` has come about.
    pub open spec fn run_step(self, phase: RunPhase, b: BridgeState, sensor_active: bool) -> (
        RunPhase,
        BridgeState,
    ) {
        let seen = BridgeState { sensor_active, ..b };
        match phase {
            RunPhase::Start => match self {
                Task::MoveUp { steps } => (
                    RunPhase::Finishing,
                    BridgeState {
                        motion: b.motion.after_set_target(
                            crate::zaxis::distance::clamp_i32(b.motion.current_position + steps@),
                        ),
                        ..seen
                    },
                ),
                Task::MoveDown { steps } => (
                    RunPhase::Finishing,
                    BridgeState {
                        motion: b.motion.after_set_target(
                            crate::zaxis::distance::clamp_i32(b.motion.current_position - steps@),
                        ),
                        ..seen
                    },
                ),
                Task::MoveZero => {
                    let begun = homing_step(
                        HomingPhase::Start,
                        b,
                        sensor_active,
                        PHASE1_HOMING_SPEED as int,
                    );
                    (
                        RunPhase::Homing {
                            phase: begun.0,
                            speed: Steps(reported_speed(b) as i32),
                        },
                        begun.1,
                    )
                },
            },
            RunPhase::Homing { phase, speed } => {
                let stepped = homing_step(phase, b, sensor_active, PHASE1_HOMING_SPEED as int);
                if stepped.0 == HomingPhase::Done {
                    (
                        RunPhase::Finishing,
                        BridgeState {
                            motion: stepped.1.motion.after_set_max_speed(speed@).after_set_target(
                                0,
                            ),
                            ..stepped.1
                        },
                    )
                } else {
                    (RunPhase::Homing { phase: stepped.0, speed }, stepped.1)
                }
            },
            RunPhase::Finishing => (RunPhase::Done, seen),
            RunPhase::Done => (RunPhase::Done, seen),
        }
    }

    /// The stage of the clean-up that follows `phase` and the state that
    /// its commands leave: a controlled stop, then rest.
    pub open spec fn cancel_step(self, phase: CancelPhase, b: BridgeState, sensor_active: bool)
        -> (CancelPhase, BridgeState) {
        let seen = BridgeState { sensor_active, ..b };
        match phase {
            CancelPhase::Start => (
                CancelPhase::Braking,
                BridgeState { motion: b.motion.after_stop(), ..seen },
            ),
            CancelPhase::Braking => (CancelPhase::Done, seen),
            CancelPhase::Done => (CancelPhase::Done, seen),
        }
    }

    /// Does the next stage of the task. Call it first with
    /// `RunPhase::Start`, then each time the event of the stage it returned
    /// has come about, until it returns `RunPhase::Done`. `pin_low` is the
    /// sensor's pin as read now.
    pub fn run(&self, mc: &mut MotionControlAsync, phase: RunPhase, pin_low: bool) -> (next:
        RunPhase)
        requires
            self.runnable(),
            phase matches RunPhase::Homing { phase: homing, speed } ==> (homing
                == HomingPhase::PreciseApproach ==> old(mc)@.motion.origin_fits(
                -BOTTOM_SENSOR_POSITION,
            )),
        ensures
            (next, final(mc)@) == self.run_step(phase, old(mc)@, pin_low),
    {
        match phase {
            RunPhase::Start => match self {
                Task::MoveUp { steps } => {
                    mc.sample_sensor(pin_low);
                    mc.set_target_relative(*steps);
                    RunPhase::Finishing
                },
                Task::MoveDown { steps } => {
                    mc.sample_sensor(pin_low);
                    mc.set_target_relative(Steps(-steps.0));
                    RunPhase::Finishing
                },
                Task::MoveZero => {
                    let speed: Steps = mc.get_max_speed();
                    let homing: HomingPhase = calibrate_origin(
                        mc,
                        HomingPhase::Start,
                        pin_low,
                        None,
                    );
                    RunPhase::Homing { phase: homing, speed }
                },
            },
            RunPhase::Homing { phase: homing, speed } => {
                let homing: HomingPhase = calibrate_origin(mc, homing, pin_low, None);
                if homing == HomingPhase::Done {
                    mc.set_max_speed(speed);
                    mc.set_target(Steps(0));
                    RunPhase::Finishing
                } else {
                    RunPhase::Homing { phase: homing, speed }
                }
            },
            RunPhase::Finishing => {
                mc.sample_sensor(pin_low);
                RunPhase::Done
            },
            RunPhase::Done => {
                mc.sample_sensor(pin_low);
                RunPhase::Done
            },
        }
    }

    /// Does the next stage of the clean-up after a cancellation. Call it
    /// first with `CancelPhase::Start`, then once the carriage is idle.
    pub fn cancel(&self, mc: &mut MotionControlAsync, phase: CancelPhase, pin_low: bool) -> (next:
        CancelPhase)
        ensures
            (next, final(mc)@) == self.cancel_step(phase, old(mc)@, pin_low),
    {
        mc.sample_sensor(pin_low);
        match phase {
            CancelPhase::Start => {
                mc.stop();
                CancelPhase::Braking
            },
            CancelPhase::Braking => CancelPhase::Done,
            CancelPhase::Done => CancelPhase::Done,
        }
    }
}

/// Cancellation safety. Whatever stage a task was in when it was
/// abandoned, its clean-up asks for a controlled stop and then waits for the
/// controller to be idle; the interrupts that follow the stop end with the
/// controller idle; and the last stage of the clean-up, which comes once the
/// wait is over, commands nothing. So the controller is idle when the
/// clean-up is done.
pub proof fn law_cancellation_leaves_idle(
    task: Task,
    abandoned: BridgeState,
    resting: BridgeState,
    sensor_active: bool,
)
    requires
        abandoned.motion.generator.wf(),
        Event::Idle.holds(resting.motion.is_idle(), resting.sensor_active),
    ensures
        task.cancel_step(CancelPhase::Start, abandoned, sensor_active).0 == CancelPhase::Braking,
        CancelPhase::Braking.awaited() == Some(Event::Idle),
        task.cancel_step(CancelPhase::Start, abandoned, sensor_active).1.motion
            == abandoned.motion.after_stop(),
        abandoned.motion.after_stop().drained().is_idle(),
        task.cancel_step(CancelPhase::Braking, resting, sensor_active).0 == CancelPhase::Done,
        task.cancel_step(CancelPhase::Braking, resting, sensor_active).1.motion == resting.motion,
        task.cancel_step(CancelPhase::Braking, resting, sensor_active).1.motion.is_idle(),
{
    law_interrupts_end_idle(abandoned.motion);
}

/// The distance that one press of a direction button moves.
#[derive(Clone, Copy, Debug, PartialEq, Eq, Structural)]
pub enum MoveDistance {
    /// 0.1 mm.
    Tenth,
    /// 1 mm.
    One,
    /// 10 mm.
    Ten,
}

impl MoveDistance {
    /// The distance in steps.
    pub open spec fn spec_steps(self) -> int {
        match self {
            MoveDistance::Tenth => 2_560,
            MoveDistance::One => 25_600,
            MoveDistance::Ten => 256_000,
        }
    }

    /// The distance in steps.
    pub fn steps(&self) -> (steps: Steps)
        ensures
            steps@ == self.spec_steps(),
    {
        match self {
            MoveDistance::Tenth => Steps(2_560),
            MoveDistance::One => Steps(25_600),
            MoveDistance::Ten => Steps(256_000),
        }
    }
}

/// A button of the page.
#[derive(Clone, Copy, Debug, PartialEq, Eq, Structural)]
pub enum Button {
    /// Selects a distance.
    Distance(MoveDistance),
    /// Moves up by the selected distance.
    Up,
    /// Finds the origin.
    Home,
    /// Moves down by the selected distance.
    Down,
    /// Cancels the task that is running.
    Stop,
}

/// What the page shows of its buttons.
#[derive(Clone, Copy, Debug, PartialEq, Eq, Structural)]
pub struct ButtonStates {
    /// Whether the up, home and down buttons can be pressed.
    pub moves_enabled: bool,
    /// Whether the stop button can be pressed.
    pub stop_enabled: bool,
    /// The distance button that shows as selected.
    pub selected: MoveDistance,
}

/// The state of the page.
#[derive(Clone, Copy, Debug, PartialEq, Eq, Structural)]
pub struct MoveZ {
    /// The distance that is selected.
    pub distance: MoveDistance,
}

/// Columns of the page's grid.
pub const GRID_COLUMNS: u16 = 3;

/// Rows of the page's grid: the distances, the moves, the stop button and
/// the position.
pub const GRID_ROWS: u16 = 4;

/// Width of a cell of the grid, in pixels of the 480 by 320 screen.
pub const CELL_WIDTH: u16 = 160;

/// Height of a cell of the grid.
pub const CELL_HEIGHT: u16 = 80;

/// The button in the cell at `column` of `row`: the distances in the
/// first row, up, home and down in the second, and the stop button all
/// along the third. The fourth row shows the position.
pub open spec fn button_in_cell(column: int, row: int) -> Option<Button> {
    if row == 0 {
        if column == 0 {
            Some(Button::Distance(MoveDistance::Tenth))
        } else if column == 1 {
            Some(Button::Distance(MoveDistance::One))
        } else if column == 2 {
            Some(Button::Distance(MoveDistance::Ten))
        } else {
            None
        }
    } else if row == 1 {
        if column == 0 {
            Some(Button::Up)
        } else if column == 1 {
            Some(Button::Home)
        } else if column == 2 {
            Some(Button::Down)
        } else {
            None
        }
    } else if row == 2 && 0 <= column < 3 {
        Some(Button::Stop)
    } else {
        None
    }
}

impl MoveZ {
    /// The button under the pixel at `(x, y)`, if there is one.
    pub fn button_at(x: u16, y: u16) -> (button: Option<Button>)
        ensures
            button == button_in_cell(x as int / 160, y as int / 80),
    {
        let column: u16 = x / CELL_WIDTH;
        let row: u16 = y / CELL_HEIGHT;
        if column >= GRID_COLUMNS {
            return None;
        }
        if row == 0 {
            if column == 0 {
                Some(Button::Distance(MoveDistance::Tenth))
            } else if column == 1 {
                Some(Button::Distance(MoveDistance::One))
            } else {
                Some(Button::Distance(MoveDistance::Ten))
            }
        } else if row == 1 {
            if column == 0 {
                Some(Button::Up)
            } else if column == 1 {
                Some(Button::Home)
            } else {
                Some(Button::Down)
            }
        } else if row == 2 {
            Some(Button::Stop)
        } else {
            None
        }
    }

    /// Whether a press of `button` counts, given what the buttons show.
    pub fn accepts(states: &ButtonStates, button: Button) -> (ok: bool)
        ensures
            ok == match button {
                Button::Distance(_) => true,
                Button::Stop => states.stop_enabled,
                _ => states.moves_enabled,
            },
    {
        match button {
            Button::Distance(_) => true,
            Button::Stop => states.stop_enabled,
            _ => states.moves_enabled,
        }
    }

    /// The page as it first shows: 1 mm is selected.
    pub fn new() -> (page: MoveZ)
        ensures
            page.distance == MoveDistance::One,
    {
        MoveZ { distance: MoveDistance::One }
    }

    /// The task that a press of `button` asks for, if any. A distance
    /// button selects its distance instead, and the stop button asks for a
    /// cancellation.
    pub open spec fn task_for(self, button: Button) -> Option<Task> {
        match button {
            Button::Up => Some(Task::MoveUp { steps: Steps(self.distance.spec_steps() as i32) }),
            Button::Home => Some(Task::MoveZero),
            Button::Down => Some(
                Task::MoveDown { steps: Steps(self.distance.spec_steps() as i32) },
            ),
            _ => None,
        }
    }

    /// Takes a press of `button`: returns the task to enqueue, if the
    /// button asks for one, and selects the distance of a distance button.
    pub fn on_click(&mut self, button: Button) -> (task: Option<Task>)
        ensures
            task == old(self).task_for(button),
            task matches Some(t) ==> t.runnable(),
            final(self).distance == match button {
                Button::Distance(d) => d,
                _ => old(self).distance,
            },
    {
        match button {
            Button::Distance(d) => {
                self.distance = d;
                None
            },
            Button::Up => Some(Task::MoveUp { steps: self.distance.steps() }),
            Button::Home => Some(Task::MoveZero),
            Button::Down => Some(Task::MoveDown { steps: self.distance.steps() }),
            Button::Stop => None,
        }
    }

    /// What the buttons show while `current` is the task that is queued or
    /// running: with a task the moves are off and stop is on, without one
    /// the moves are on and stop is off.
    pub fn refresh(&self, current: Option<Task>) -> (states: ButtonStates)
        ensures
            states.moves_enabled == current is None,
            states.stop_enabled == current is Some,
            states.selected == self.distance,
    {
        ButtonStates {
            moves_enabled: current.is_none(),
            stop_enabled: current.is_some(),
            selected: self.distance,
        }
    }
}

} // verus!
