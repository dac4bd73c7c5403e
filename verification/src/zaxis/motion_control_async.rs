//! The bridge between the timer interrupt, which runs the motion controller,
//! and the cooperative tasks, which command it and wait for its events.
//!
//! Every function here is to be called with the controller locked: from a
//! task inside a critical section against the timer interrupt, from the
//! interrupt directly. The notification that wakes a waiting task is sent
//! elsewhere; the functions say when.

use vstd::prelude::*;
use crate::zaxis::distance::{clamp_i32, Steps};
use crate::zaxis::motion_control::{InterruptOutcome, MotionControl, MotionState};
use crate::zaxis::sensor::BottomSensor;

verus! {

/// What a task can wait for.
#[derive(Clone, Copy, Debug, PartialEq, Eq, Structural)]
pub enum Event {
    /// The motion controller is idle.
    Idle,
    /// The bottom sensor shows the given state.
    BottomSensor(bool),
}

impl Event {
    /// Whether the event has come about, for a controller that is idle or
    /// not and a sensor that is active or not.
    pub open spec fn holds(self, idle: bool, sensor_active: bool) -> bool {
        match self {
            Event::Idle => idle,
            Event::BottomSensor(value) => sensor_active == value,
        }
    }

    /// Whether the event has come about.
    pub fn reached(&self, mc: &MotionControlAsync) -> (reached: bool)
        ensures
            reached == self.holds(mc@.motion.is_idle(), mc@.sensor_active),
    {
        match self {
            Event::Idle => mc.is_idle(),
            Event::BottomSensor(value) => mc.bottom_sensor.active() == *value,
        }
    }
}

/// What the interrupt handler has to do after the bridge has served an
/// interrupt.
#[derive(Clone, Copy, Debug, PartialEq, Eq, Structural)]
pub struct InterruptReport {
    /// What to do with the timer and the driver.
    pub outcome: InterruptOutcome,
    /// Whether to notify the waiting task.
    pub notify: bool,
}

/// What the bridge holds, as plain values.
pub struct BridgeState {
    /// The motion controller.
    pub motion: MotionState,
    /// Whether the bottom sensor was active at its last reading.
    pub sensor_active: bool,
    /// The event that a task waits for, if any.
    pub pending: Option<Event>,
}

impl BridgeState {
    /// Whether the pending event, if there is one, has come about.
    pub open spec fn pending_reached(self) -> bool {
        match self.pending {
            Some(event) => event.holds(self.motion.is_idle(), self.sensor_active),
            None => false,
        }
    }

    /// The state after one timer interrupt during which the sensor's pin
    /// was read: the controller serves the interrupt, and a pending event
    /// that has come about is no longer pending.
    pub open spec fn after_interrupt(self, pin_low: bool) -> BridgeState {
        let served = BridgeState {
            motion: self.motion.after_interrupt(),
            sensor_active: pin_low,
            ..self
        };
        if served.pending_reached() {
            BridgeState { pending: None, ..served }
        } else {
            served
        }
    }

    /// The state after a task has asked to wait for `event` while the
    /// sensor's pin was read: nothing is registered where the event has
    /// come about already.
    pub open spec fn after_wait(self, event: Event, pin_low: bool) -> BridgeState {
        if event.holds(self.motion.is_idle(), pin_low) {
            BridgeState { sensor_active: pin_low, ..self }
        } else {
            BridgeState { sensor_active: pin_low, pending: Some(event), ..self }
        }
    }
}

/// A wait for an event that has come about already returns at once and
/// registers nothing, so no wake-up can be missed; any other wait is
/// registered, and the interrupt that sees the event come about takes the
/// registration away and notifies.
pub proof fn law_no_missed_wakeup(b: BridgeState, event: Event, pin_low: bool, later_low: bool)
    ensures
        event.holds(b.motion.is_idle(), pin_low) ==> b.after_wait(event, pin_low).pending
            == b.pending,
        !event.holds(b.motion.is_idle(), pin_low) ==> b.after_wait(event, pin_low).pending
            == Some(event),
        ({
            let waiting = b.after_wait(event, pin_low);
            let served = waiting.after_interrupt(later_low);
            !event.holds(b.motion.is_idle(), pin_low) ==> (served.pending is None
                <==> event.holds(served.motion.is_idle(), later_low))
        }),
{
}

/// The motion controller together with the bottom sensor and the event
/// that a task waits for.
pub struct MotionControlAsync {
    inner: MotionControl,
    bottom_sensor: BottomSensor,
    signal_on_event: Option<Event>,
}

impl View for MotionControlAsync {
    type V = BridgeState;

    closed spec fn view(&self) -> BridgeState {
        BridgeState {
            motion: self.inner@,
            sensor_active: self.bottom_sensor@,
            pending: self.signal_on_event,
        }
    }
}

impl MotionControlAsync {
    /// A bridge around a controller and a sensor, with no task waiting.
    pub fn new(motion_control: MotionControl, bottom_sensor: BottomSensor) -> (mc:
        MotionControlAsync)
        ensures
            mc@ == (BridgeState {
                motion: motion_control@,
                sensor_active: bottom_sensor@,
                pending: None,
            }),
    {
        MotionControlAsync { inner: motion_control, bottom_sensor, signal_on_event: None }
    }

    /// Serves one timer interrupt; `pin_low` is the sensor's pin as read in
    /// the handler. Says what to do with the hardware and whether to notify
    /// the waiting task.
    pub fn on_interrupt(&mut self, pin_low: bool) -> (report: InterruptReport)
        requires
            old(self)@.motion.pulse_fits(),
        ensures
            final(self)@ == old(self)@.after_interrupt(pin_low),
            report.notify == (BridgeState {
                motion: old(self)@.motion.after_interrupt(),
                sensor_active: pin_low,
                ..old(self)@
            }).pending_reached(),
            report.notify ==> final(self)@.pending is None,
            report.outcome is Finished <==> old(self)@.motion.generator.remaining_steps == 0,
            report.outcome matches InterruptOutcome::Continue { multiplier, reload } ==> {
                &&& multiplier == final(self)@.motion.driver.step_multiplier
                &&& reload == final(self)@.motion.timer_reload
            },
            final(self)@.motion.wf(),
    {
        self.bottom_sensor.sample(pin_low);
        let outcome = self.inner.on_interrupt();
        let mut notify: bool = false;
        match self.signal_on_event {
            Some(event) => {
                if event.reached(self) {
                    self.signal_on_event = None;
                    notify = true;
                }
            },
            None => {},
        }
        InterruptReport { outcome, notify }
    }

    /// Begins a wait for `event`; `pin_low` is the sensor's pin as read
    /// under the lock. Returns whether the task has to suspend until it is
    /// notified. Where the event has come about already the task goes on at
    /// once and nothing is registered. One task waits at a time: a second
    /// wait takes the place of the first.
    pub fn wait(&mut self, event: Event, pin_low: bool) -> (should_wait: bool)
        ensures
            final(self)@ == old(self)@.after_wait(event, pin_low),
            should_wait == !event.holds(old(self)@.motion.is_idle(), pin_low),
            should_wait ==> final(self)@.pending == Some(event),
    {
        self.bottom_sensor.sample(pin_low);
        if event.reached(self) {
            false
        } else {
            self.signal_on_event = Some(event);
            true
        }
    }

    /// Takes in a new reading of the sensor's pin.
    pub fn sample_sensor(&mut self, pin_low: bool)
        ensures
            final(self)@ == (BridgeState { sensor_active: pin_low, ..old(self)@ }),
    {
        self.bottom_sensor.sample(pin_low);
    }

    /// Whether the bottom sensor was active at its last reading.
    pub fn sensor_active(&self) -> (active: bool)
        ensures
            active == self@.sensor_active,
    {
        self.bottom_sensor.active()
    }

    /// The event that a task waits for, if any.
    pub fn pending_event(&self) -> (pending: Option<Event>)
        ensures
            pending == self@.pending,
    {
        self.signal_on_event
    }

    /// Sets the target `steps` away from the current position.
    pub fn set_target_relative(&mut self, steps: Steps) -> (started: bool)
        ensures
            final(self)@ == (BridgeState {
                motion: old(self)@.motion.after_set_target(
                    clamp_i32(old(self)@.motion.current_position + steps@),
                ),
                ..old(self)@
            }),
            started == (clamp_i32(old(self)@.motion.current_position + steps@)
                != old(self)@.motion.current_position),
            final(self)@.motion.wf(),
    {
        self.inner.set_target_relative(steps)
    }

    /// Sets the target.
    pub fn set_target(&mut self, target: Steps) -> (started: bool)
        ensures
            final(self)@ == (BridgeState {
                motion: old(self)@.motion.after_set_target(target@),
                ..old(self)@
            }),
            started == (target@ != old(self)@.motion.current_position),
            final(self)@.motion.wf(),
    {
        self.inner.set_target(target)
    }

    /// Controlled stop.
    pub fn stop(&mut self)
        ensures
            final(self)@ == (BridgeState { motion: old(self)@.motion.after_stop(), ..old(self)@ }),
            final(self)@.motion.wf(),
    {
        self.inner.stop()
    }

    /// Sets the cruising speed.
    pub fn set_max_speed(&mut self, max_speed: Steps)
        ensures
            final(self)@ == (BridgeState {
                motion: old(self)@.motion.after_set_max_speed(max_speed@),
                ..old(self)@
            }),
            final(self)@.motion.wf(),
    {
        self.inner.set_max_speed(max_speed)
    }

    /// The cruising speed.
    pub fn get_max_speed(&self) -> (max_speed: Steps)
        ensures
            max_speed@ == if self@.motion.generator.max_speed > i32::MAX {
                i32::MAX as int
            } else {
                self@.motion.generator.max_speed
            },
    {
        self.inner.get_max_speed()
    }

    /// Where the carriage is.
    pub fn get_current_position(&self) -> (position: Steps)
        ensures
            position@ == self@.motion.current_position,
    {
        self.inner.get_current_position()
    }

    /// Whether the origin can be moved to `origin_position`.
    pub fn origin_fits(&self, origin_position: Steps) -> (fits: bool)
        ensures
            fits == self@.motion.origin_fits(origin_position@),
    {
        self.inner.origin_fits(origin_position)
    }

    /// Moves the origin of the coordinates.
    pub fn set_origin(&mut self, origin_position: Steps)
        requires
            old(self)@.motion.origin_fits(origin_position@),
        ensures
            final(self)@ == (BridgeState {
                motion: old(self)@.motion.after_set_origin(origin_position@),
                ..old(self)@
            }),
            final(self)@.motion.wf(),
    {
        self.inner.set_origin(origin_position)
    }

    /// Hard stop.
    pub fn hard_stop(&mut self)
        ensures
            final(self)@ == (BridgeState {
                motion: old(self)@.motion.after_hard_stop(),
                ..old(self)@
            }),
            final(self)@.motion.is_idle(),
            final(self)@.motion.wf(),
    {
        self.inner.hard_stop()
    }

    /// Whether the controller is idle.
    pub fn is_idle(&self) -> (idle: bool)
        ensures
            idle == self@.motion.is_idle(),
    {
        self.inner.is_idle()
    }

    /// Whether the next interrupt can be served.
    pub fn pulse_fits(&self) -> (fits: bool)
        ensures
            fits == self@.motion.pulse_fits(),
    {
        self.inner.pulse_fits()
    }

    /// The motion controller, for whoever mirrors it onto the hardware.
    pub fn motion_control(&self) -> (inner: &MotionControl)
        ensures
            inner@ == self@.motion,
    {
        &self.inner
    }

    /// Whether the timer's counter has yet to be reset for a move that was
    /// started; asking clears the mark.
    pub fn take_timer_restart(&mut self) -> (restart: bool)
        ensures
            restart == old(self)@.motion.timer_restart,
            final(self)@ == (BridgeState {
                motion: MotionState { timer_restart: false, ..old(self)@.motion },
                ..old(self)@
            }),
    {
        self.inner.take_timer_restart()
    }
}

} // verus!
