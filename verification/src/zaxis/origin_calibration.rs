//! Finding the origin of the Z axis with the bottom sensor, in three phases:
//! a fast approach, a retreat until the sensor lets go, and a slow approach
//! whose trigger point defines the origin.
//!
//! The sequence is a state machine. Each call issues the commands of one
//! stage and names the stage that follows; the caller then waits for the
//! event of that stage before it calls again. There is no timeout: a sensor
//! that never triggers holds the sequence until it is abandoned.

use vstd::prelude::*;
use crate::zaxis::distance::Steps;
use crate::zaxis::motion_control_async::{BridgeState, Event, MotionControlAsync};

verus! {

/// Where the bottom sensor triggers, in steps above the origin: 2 mm. The
/// margin keeps the carriage off the screen while it brakes.
pub const BOTTOM_SENSOR_POSITION: i32 = 51_200;

/// Speed of the fast approach unless the caller names one: 10 mm/s.
pub const PHASE1_HOMING_SPEED: i32 = 256_000;

/// Speed of the retreat: 2 mm/s.
pub const PHASE2_HOMING_SPEED: i32 = 51_200;

/// Speed of the slow approach: 0.2 mm/s.
pub const PHASE3_HOMING_SPEED: i32 = 5_120;

/// How far the retreat goes on once the sensor has let go: 0.1 mm, against
/// a noisy sensor at the transition.
pub const RETREAT_MARGIN: i32 = 2_560;

/// The stage of the calibration that is under way.
#[derive(Clone, Copy, Debug, PartialEq, Eq, Structural)]
pub enum HomingPhase {
    /// Nothing has been done yet.
    Start,
    /// Whatever move was under way is being stopped.
    Settling,
    /// Phase 1: going down fast until the sensor triggers.
    FastApproach,
    /// Phase 1: braking after the sensor has triggered.
    FastBraking,
    /// Phase 2: going up until the sensor lets go.
    Retreating,
    /// Phase 2: going up a little further.
    Clearing,
    /// Phase 3: going down slowly until the sensor triggers.
    PreciseApproach,
    /// Phase 3: braking after the origin has been set.
    FinalBraking,
    /// The origin is set and the carriage at rest.
    Done,
}

impl HomingPhase {
    /// The event that ends the stage; none before the start and after the
    /// end.
    pub open spec fn awaited(self) -> Option<Event> {
        match self {
            HomingPhase::Start => None,
            HomingPhase::Settling => Some(Event::Idle),
            HomingPhase::FastApproach => Some(Event::BottomSensor(true)),
            HomingPhase::FastBraking => Some(Event::Idle),
            HomingPhase::Retreating => Some(Event::BottomSensor(false)),
            HomingPhase::Clearing => Some(Event::Idle),
            HomingPhase::PreciseApproach => Some(Event::BottomSensor(true)),
            HomingPhase::FinalBraking => Some(Event::Idle),
            HomingPhase::Done => None,
        }
    }

    /// The place of the stage in the sequence.
    pub open spec fn rank(self) -> int {
        match self {
            HomingPhase::Start => 0,
            HomingPhase::Settling => 1,
            HomingPhase::FastApproach => 2,
            HomingPhase::FastBraking => 3,
            HomingPhase::Retreating => 4,
            HomingPhase::Clearing => 5,
            HomingPhase::PreciseApproach => 6,
            HomingPhase::FinalBraking => 7,
            HomingPhase::Done => 8,
        }
    }

    /// The event to wait for before the next call of `calibrate_origin`.
    pub fn event(&self) -> (event: Option<Event>)
        ensures
            event == self.awaited(),
    {
        match self {
            HomingPhase::Start => None,
            HomingPhase::Settling => Some(Event::Idle),
            HomingPhase::FastApproach => Some(Event::BottomSensor(true)),
            HomingPhase::FastBraking => Some(Event::Idle),
            HomingPhase::Retreating => Some(Event::BottomSensor(false)),
            HomingPhase::Clearing => Some(Event::Idle),
            HomingPhase::PreciseApproach => Some(Event::BottomSensor(true)),
            HomingPhase::FinalBraking => Some(Event::Idle),
            HomingPhase::Done => None,
        }
    }
}

/// The commands of phase 2 applied to `b`: the retreat speed, and a target
/// as far up as possible.
pub open spec fn retreat_begun(b: BridgeState) -> BridgeState {
    BridgeState {
        motion: b.motion.after_set_max_speed(PHASE2_HOMING_SPEED as int).after_set_target(
            Steps::MAX as int,
        ),
        ..b
    }
}

/// The stage that follows `phase` and the state that its commands leave,
/// once the event of `phase` has come about; `sensor_active` is the sensor
/// as read now, `max_speed` the speed of the fast approach.
pub open spec fn homing_step(
    phase: HomingPhase,
    b: BridgeState,
    sensor_active: bool,
    max_speed: int,
) -> (HomingPhase, BridgeState) {
    let b = BridgeState { sensor_active, ..b };
    match phase {
        HomingPhase::Start => (
            HomingPhase::Settling,
            BridgeState { motion: b.motion.after_stop(), ..b },
        ),
        HomingPhase::Settling => if !sensor_active {
            (
                HomingPhase::FastApproach,
                BridgeState {
                    motion: b.motion.after_set_max_speed(max_speed).after_set_target(
                        Steps::MIN as int,
                    ),
                    ..b
                },
            )
        } else {
            (HomingPhase::Retreating, retreat_begun(b))
        },
        HomingPhase::FastApproach => (
            HomingPhase::FastBraking,
            BridgeState { motion: b.motion.after_stop(), ..b },
        ),
        HomingPhase::FastBraking => (HomingPhase::Retreating, retreat_begun(b)),
        HomingPhase::Retreating => (
            HomingPhase::Clearing,
            BridgeState {
                motion: b.motion.after_set_target(
                    crate::zaxis::distance::clamp_i32(b.motion.current_position + RETREAT_MARGIN),
                ),
                ..b
            },
        ),
        HomingPhase::Clearing => (
            HomingPhase::PreciseApproach,
            BridgeState {
                motion: b.motion.after_set_max_speed(PHASE3_HOMING_SPEED as int).after_set_target(
                    Steps::MIN as int,
                ),
                ..b
            },
        ),
        HomingPhase::PreciseApproach => (
            HomingPhase::FinalBraking,
            BridgeState {
                motion: b.motion.after_set_origin(-BOTTOM_SENSOR_POSITION).after_stop(),
                ..b
            },
        ),
        HomingPhase::FinalBraking => (HomingPhase::Done, b),
        HomingPhase::Done => (HomingPhase::Done, b),
    }
}

/// The stages come in one order, each at most once, so that the slow
/// approach always follows a retreat and meets the sensor from above; the
/// sequence ends after at most eight calls. The origin is set in the call
/// that follows the slow approach, and in no other.
pub proof fn law_homing_order(
    phase: HomingPhase,
    b: BridgeState,
    sensor_active: bool,
    max_speed: int,
)
    ensures
        phase != HomingPhase::Done ==> homing_step(phase, b, sensor_active, max_speed).0.rank()
            > phase.rank(),
        homing_step(phase, b, sensor_active, max_speed).0.rank() <= 8,
        homing_step(phase, b, sensor_active, max_speed).0 == HomingPhase::PreciseApproach
            ==> phase == HomingPhase::Clearing,
        phase != HomingPhase::PreciseApproach ==> homing_step(
            phase,
            b,
            sensor_active,
            max_speed,
        ).1.motion.current_position == b.motion.current_position,
        phase == HomingPhase::PreciseApproach ==> homing_step(
            phase,
            b,
            sensor_active,
            max_speed,
        ).1.motion.current_position == b.motion.current_position + BOTTOM_SENSOR_POSITION,
{
}

/// Does the next stage of the calibration. Call it first with
/// `HomingPhase::Start`, then each time the event of the stage it returned
/// has come about, until it returns `HomingPhase::Done`. `pin_low` is the
/// sensor's pin as read now; `max_speed` is the speed of the fast approach,
/// 10 mm/s if none is given.
pub fn calibrate_origin(
    mc: &mut MotionControlAsync,
    phase: HomingPhase,
    pin_low: bool,
    max_speed: Option<Steps>,
) -> (next: HomingPhase)
    requires
        phase == HomingPhase::PreciseApproach ==> old(mc)@.motion.origin_fits(
            -BOTTOM_SENSOR_POSITION,
        ),
    ensures
        (next, final(mc)@) == homing_step(
            phase,
            old(mc)@,
            pin_low,
            match max_speed {
                Some(speed) => speed@,
                None => PHASE1_HOMING_SPEED as int,
            },
        ),
{
    let max_speed: Steps = match max_speed {
        Some(speed) => speed,
        None => Steps(PHASE1_HOMING_SPEED),
    };
    mc.sample_sensor(pin_low);
    match phase {
        HomingPhase::Start => {
            mc.stop();
            HomingPhase::Settling
        },
        HomingPhase::Settling => {
            if !mc.sensor_active() {
                // The carriage may be far from the bottom: go there fast.
                mc.set_max_speed(max_speed);
                mc.set_target(Steps::lowest());
                HomingPhase::FastApproach
            } else {
                begin_retreat(mc);
                HomingPhase::Retreating
            }
        },
        HomingPhase::FastApproach => {
            mc.stop();
            HomingPhase::FastBraking
        },
        HomingPhase::FastBraking => {
            begin_retreat(mc);
            HomingPhase::Retreating
        },
        HomingPhase::Retreating => {
            mc.set_target_relative(Steps(RETREAT_MARGIN));
            HomingPhase::Clearing
        },
        HomingPhase::Clearing => {
            mc.set_max_speed(Steps(PHASE3_HOMING_SPEED));
            mc.set_target(Steps::lowest());
            HomingPhase::PreciseApproach
        },
        HomingPhase::PreciseApproach => {
            // The sensor has just triggered: this is the reference point.
            mc.set_origin(Steps(-BOTTOM_SENSOR_POSITION));
            mc.stop();
            HomingPhase::FinalBraking
        },
        HomingPhase::FinalBraking => HomingPhase::Done,
        HomingPhase::Done => HomingPhase::Done,
    }
}

/// Issues the commands of phase 2.
fn begin_retreat(mc: &mut MotionControlAsync)
    ensures
        final(mc)@ == retreat_begun(old(mc)@),
{
    mc.set_max_speed(Steps(PHASE2_HOMING_SPEED));
    mc.set_target(Steps::highest());
}

} // verus!
