use resin_printer::ui::move_z::{Button, CancelPhase, MoveDistance, MoveZ, RunPhase, Task};
use resin_printer::util::task_runner::{LoopEvent, LoopPhase, TaskRunner};
use resin_printer::zaxis::motion_control::{InterruptOutcome, MotionControl};
use resin_printer::zaxis::origin_calibration::{calibrate_origin, HomingPhase};
use resin_printer::zaxis::{BottomSensor, Drv8424, Event, MotionControlAsync, Steps};

fn bridge(sensor_low: bool) -> MotionControlAsync {
    MotionControlAsync::new(MotionControl::new(Drv8424::new()), BottomSensor::new(sensor_low))
}

/// Serves interrupts with the sensor's pin at `pin_low` until the waiting
/// task is notified; returns how many it took.
fn serve_until_notified(mc: &mut MotionControlAsync, pin_low: bool) -> u32 {
    let mut served = 0;
    loop {
        assert!(mc.pulse_fits());
        let report = mc.on_interrupt(pin_low);
        served += 1;
        if report.notify {
            assert_eq!(mc.pending_event(), None);
            return served;
        }
        assert!(report.outcome != InterruptOutcome::Finished);
        assert!(served < 10_000_000);
    }
}

#[test]
fn bottom_sensor_event_is_reached_at_once_when_the_sensor_is_active() {
    let mut mc = bridge(true);
    assert!(Event::BottomSensor(true).reached(&mc));
    assert!(!Event::BottomSensor(false).reached(&mc));
    // No wait, and nothing registered.
    assert!(!mc.wait(Event::BottomSensor(true), true));
    assert_eq!(mc.pending_event(), None);
}

#[test]
fn idle_event_is_reached_while_idle() {
    let mut mc = bridge(false);
    assert!(Event::Idle.reached(&mc));
    assert!(!mc.wait(Event::Idle, false));
    assert_eq!(mc.pending_event(), None);
    mc.set_target(Steps(10));
    assert!(!Event::Idle.reached(&mc));
    assert!(mc.wait(Event::Idle, false));
    assert_eq!(mc.pending_event(), Some(Event::Idle));
}

#[test]
fn wait_uses_the_reading_it_is_given() {
    let mut mc = bridge(false);
    assert!(!mc.sensor_active());
    assert!(!mc.wait(Event::BottomSensor(true), true));
    assert!(mc.sensor_active());
    assert!(mc.wait(Event::BottomSensor(true), false));
    assert_eq!(mc.pending_event(), Some(Event::BottomSensor(true)));
}

#[test]
fn interrupt_notifies_once_the_move_is_over() {
    let mut mc = bridge(false);
    mc.set_target(Steps(50));
    assert!(mc.wait(Event::Idle, false));
    let served = serve_until_notified(&mut mc, false);
    assert_eq!(served, 50);
    assert!(mc.is_idle());
    assert_eq!(mc.get_current_position(), Steps(50));
}

#[test]
fn interrupt_notifies_when_the_sensor_triggers() {
    let mut mc = bridge(false);
    mc.set_target(Steps(-100_000));
    assert!(mc.wait(Event::BottomSensor(true), false));
    for _ in 0..20 {
        let report = mc.on_interrupt(false);
        assert!(!report.notify);
    }
    let report = mc.on_interrupt(true);
    assert!(report.notify);
    assert_eq!(mc.pending_event(), None);
    assert!(!mc.is_idle());
    // Without a registration nothing is notified.
    let report = mc.on_interrupt(true);
    assert!(!report.notify);
}

#[test]
fn second_wait_replaces_the_first() {
    let mut mc = bridge(false);
    mc.set_target(Steps(1000));
    assert!(mc.wait(Event::BottomSensor(true), false));
    assert!(mc.wait(Event::Idle, false));
    assert_eq!(mc.pending_event(), Some(Event::Idle));
}

#[test]
fn pass_throughs() {
    let mut mc = bridge(false);
    assert_eq!(mc.get_max_speed(), Steps(512_000));
    mc.set_max_speed(Steps(1000));
    assert_eq!(mc.get_max_speed(), Steps(1000));
    assert!(mc.set_target_relative(Steps(5)));
    assert!(mc.take_timer_restart());
    assert!(!mc.is_idle());
    mc.hard_stop();
    assert!(mc.is_idle());
    assert!(mc.origin_fits(Steps(7)));
    mc.set_origin(Steps(7));
    assert_eq!(mc.get_current_position(), Steps(-7));
    assert_eq!(mc.motion_control().get_target(), Steps(-7));
    mc.stop();
    assert!(mc.is_idle());
}

/// Plays the calibration against a sensor that triggers below `trigger_at`.
fn calibrate(mc: &mut MotionControlAsync, trigger_at: i32, max_speed: Option<Steps>) -> Vec<HomingPhase> {
    let sensor = |mc: &MotionControlAsync| mc.get_current_position().0 <= trigger_at;
    let mut phases = Vec::new();
    let mut phase = HomingPhase::Start;
    loop {
        let low = sensor(mc);
        if phase == HomingPhase::PreciseApproach {
            assert!(mc.origin_fits(Steps(-51_200)));
        }
        phase = calibrate_origin(mc, phase, low, max_speed);
        phases.push(phase);
        let Some(event) = phase.event() else { break };
        if mc.wait(event, sensor(mc)) {
            let mut served = 0;
            loop {
                let low = sensor(mc);
                if mc.on_interrupt(low).notify {
                    break;
                }
                served += 1;
                assert!(served < 50_000_000);
            }
        }
    }
    phases
}

#[test]
fn calibration_from_above_the_sensor() {
    let mut mc = bridge(false);
    // The carriage starts 3 mm above the trigger point.
    let phases = calibrate(&mut mc, -76_800, None);
    assert_eq!(
        phases,
        vec![
            HomingPhase::Settling,
            HomingPhase::FastApproach,
            HomingPhase::FastBraking,
            HomingPhase::Retreating,
            HomingPhase::Clearing,
            HomingPhase::PreciseApproach,
            HomingPhase::FinalBraking,
            HomingPhase::Done,
        ]
    );
    assert!(mc.is_idle());
    assert_eq!(mc.get_max_speed(), Steps(5_120));
}

#[test]
fn calibration_with_the_sensor_active_skips_the_fast_approach() {
    let mut mc = bridge(true);
    let phases = calibrate(&mut mc, 0, Some(Steps(100_000)));
    assert_eq!(
        phases,
        vec![
            HomingPhase::Settling,
            HomingPhase::Retreating,
            HomingPhase::Clearing,
            HomingPhase::PreciseApproach,
            HomingPhase::FinalBraking,
            HomingPhase::Done,
        ]
    );
    assert!(mc.is_idle());
}

#[test]
fn calibration_commands() {
    let mut mc = bridge(false);
    assert_eq!(calibrate_origin(&mut mc, HomingPhase::Start, false, None), HomingPhase::Settling);
    assert_eq!(HomingPhase::Settling.event(), Some(Event::Idle));
    // Fast approach at the speed that was asked for, as far down as possible.
    let phase = calibrate_origin(&mut mc, HomingPhase::Settling, false, Some(Steps(123_456)));
    assert_eq!(phase, HomingPhase::FastApproach);
    assert_eq!(phase.event(), Some(Event::BottomSensor(true)));
    assert_eq!(mc.get_max_speed(), Steps(123_456));
    assert_eq!(mc.motion_control().get_target(), Steps::lowest());
    // The default speed of the fast approach is 10 mm/s.
    let mut other = bridge(false);
    calibrate_origin(&mut other, HomingPhase::Settling, false, None);
    assert_eq!(other.get_max_speed(), Steps(256_000));
    // Retreat at 2 mm/s, as far up as possible.
    let phase = calibrate_origin(&mut mc, HomingPhase::FastBraking, true, None);
    assert_eq!(phase, HomingPhase::Retreating);
    assert_eq!(phase.event(), Some(Event::BottomSensor(false)));
    assert_eq!(mc.get_max_speed(), Steps(51_200));
    assert_eq!(mc.motion_control().get_target(), Steps::highest());
    // 0.1 mm further.
    let position = mc.get_current_position();
    let phase = calibrate_origin(&mut mc, HomingPhase::Retreating, false, None);
    assert_eq!(phase, HomingPhase::Clearing);
    assert_eq!(mc.motion_control().get_target(), Steps(position.0 + 2_560));
    // Slow approach at 0.2 mm/s.
    let phase = calibrate_origin(&mut mc, HomingPhase::Clearing, false, None);
    assert_eq!(phase, HomingPhase::PreciseApproach);
    assert_eq!(mc.get_max_speed(), Steps(5_120));
    assert_eq!(mc.motion_control().get_target(), Steps::lowest());
    // The trigger point lies 2 mm above the origin.
    let position = mc.get_current_position();
    let phase = calibrate_origin(&mut mc, HomingPhase::PreciseApproach, true, None);
    assert_eq!(phase, HomingPhase::FinalBraking);
    assert_eq!(mc.get_current_position(), Steps(position.0 + 51_200));
    assert_eq!(calibrate_origin(&mut mc, HomingPhase::FinalBraking, true, None), HomingPhase::Done);
    assert_eq!(HomingPhase::Done.event(), None);
    assert_eq!(calibrate_origin(&mut mc, HomingPhase::Done, true, None), HomingPhase::Done);
}

#[test]
fn task_runner_takes_one_task_at_a_time() {
    let mut runner: TaskRunner<Task> = TaskRunner::default();
    assert!(!runner.is_busy());
    assert!(!runner.is_task_cancelled());
    assert_eq!(runner.get_current_task(), None);
    assert_eq!(runner.enqueue_task(Task::MoveZero), Ok(()));
    assert!(runner.is_busy());
    assert_eq!(runner.get_current_task(), Some(Task::MoveZero));
    assert_eq!(runner.enqueue_task(Task::MoveUp { steps: Steps(1) }), Err(()));
    assert_eq!(runner.get_current_task(), Some(Task::MoveZero));
}

#[test]
fn task_runner_cancel_is_idempotent_and_reset_by_enqueue() {
    let mut runner: TaskRunner<u8> = TaskRunner::default();
    runner.cancel_task();
    assert!(runner.is_task_cancelled());
    runner.cancel_task();
    assert!(runner.is_task_cancelled());
    assert_eq!(runner.enqueue_task(3), Ok(()));
    assert!(!runner.is_task_cancelled());
}

#[test]
fn main_loop_runs_a_task_to_its_end() {
    let mut runner: TaskRunner<u8> = TaskRunner::default();
    runner.enqueue_task(7).unwrap();
    let phase = runner.main_loop_task(LoopPhase::AwaitingTask, LoopEvent::TaskAvailable);
    assert!(matches!(phase, LoopPhase::Running(7)));
    assert!(runner.is_busy());
    let phase = runner.main_loop_task(phase, LoopEvent::RunCompleted);
    assert!(matches!(phase, LoopPhase::AwaitingTask));
    assert!(!runner.is_busy());
    assert!(!runner.is_task_cancelled());
    assert_eq!(runner.enqueue_task(8), Ok(()));
}

#[test]
fn main_loop_cleans_up_a_cancelled_task() {
    let mut runner: TaskRunner<u8> = TaskRunner::default();
    runner.enqueue_task(7).unwrap();
    let phase = runner.main_loop_task(LoopPhase::AwaitingTask, LoopEvent::TaskAvailable);
    runner.cancel_task();
    let phase = runner.main_loop_task(phase, LoopEvent::CancelRequested);
    assert!(matches!(phase, LoopPhase::Cancelling(7)));
    assert!(runner.is_busy());
    assert!(runner.is_task_cancelled());
    // An event that cannot come now changes nothing.
    let phase = runner.main_loop_task(phase, LoopEvent::RunCompleted);
    assert!(matches!(phase, LoopPhase::Cancelling(7)));
    let phase = runner.main_loop_task(phase, LoopEvent::CancelCompleted);
    assert!(matches!(phase, LoopPhase::AwaitingTask));
    assert!(!runner.is_busy());
    assert!(!runner.is_task_cancelled());
}

/// Runs a task to its end, or cancels it after `cancel_after` interrupts.
fn run_task(task: Task, mc: &mut MotionControlAsync, cancel_after: Option<u32>) {
    let mut served = 0u32;
    let mut phase = RunPhase::Start;
    'run: loop {
        phase = task.run(mc, phase, false);
        let Some(event) = phase.event() else { return };
        if mc.wait(event, false) {
            loop {
                if Some(served) == cancel_after {
                    break 'run;
                }
                served += 1;
                if mc.on_interrupt(false).notify {
                    break;
                }
            }
        }
    }
    let mut phase = CancelPhase::Start;
    loop {
        phase = task.cancel(mc, phase, false);
        let Some(event) = phase.event() else { break };
        if mc.wait(event, false) {
            while !mc.on_interrupt(false).notify {}
        }
    }
    assert_eq!(phase, CancelPhase::Done);
}

#[test]
fn move_up_task_moves_up() {
    let mut mc = bridge(false);
    run_task(Task::MoveUp { steps: Steps(2_560) }, &mut mc, None);
    assert!(mc.is_idle());
    assert_eq!(mc.get_current_position(), Steps(2_560));
}

#[test]
fn move_down_task_moves_down() {
    let mut mc = bridge(false);
    run_task(Task::MoveDown { steps: Steps(2_560) }, &mut mc, None);
    assert!(mc.is_idle());
    assert_eq!(mc.get_current_position(), Steps(-2_560));
}

#[test]
fn cancelled_task_leaves_the_controller_idle() {
    for cancel_after in [0, 1, 10, 1000, 20_000] {
        let mut mc = bridge(false);
        run_task(Task::MoveUp { steps: Steps(256_000) }, &mut mc, Some(cancel_after));
        assert!(mc.is_idle());
        assert!(mc.get_current_position().0 < 256_000);
        assert_eq!(mc.motion_control().get_target(), mc.get_current_position());
    }
}

#[test]
fn cancelled_homing_leaves_the_controller_idle() {
    for cancel_after in [0, 5, 5000, 100_000] {
        let mut mc = bridge(false);
        run_task(Task::MoveZero, &mut mc, Some(cancel_after));
        assert!(mc.is_idle());
    }
}

#[test]
fn move_zero_task_ends_at_the_origin() {
    let mut mc = bridge(false);
    let task = Task::MoveZero;
    // The sensor triggers 3 mm below where the carriage starts. Setting the
    // origin moves every coordinate, that of the trigger point too.
    let mut trigger_at = -76_800;
    let mut phase = RunPhase::Start;
    loop {
        let low = mc.get_current_position().0 <= trigger_at;
        let before = mc.get_current_position().0;
        let precise = matches!(
            phase,
            RunPhase::Homing { phase: HomingPhase::PreciseApproach, .. }
        );
        phase = task.run(&mut mc, phase, low);
        if precise {
            assert_eq!(mc.get_current_position().0, before + 51_200);
            trigger_at += 51_200;
        }
        let Some(event) = phase.event() else { break };
        loop {
            if !mc.wait(event, mc.get_current_position().0 <= trigger_at) {
                break;
            }
            if mc.on_interrupt(mc.get_current_position().0 <= trigger_at).notify {
                break;
            }
        }
    }
    assert_eq!(phase, RunPhase::Done);
    assert!(mc.is_idle());
    assert_eq!(mc.get_current_position(), Steps(0));
    // The speed from before the calibration is back.
    assert_eq!(mc.get_max_speed(), Steps(512_000));
}

#[test]
fn page_buttons() {
    let mut page = MoveZ::new();
    assert_eq!(page.distance, MoveDistance::One);
    assert_eq!(page.on_click(Button::Up), Some(Task::MoveUp { steps: Steps(25_600) }));
    assert_eq!(page.on_click(Button::Distance(MoveDistance::Tenth)), None);
    assert_eq!(page.on_click(Button::Down), Some(Task::MoveDown { steps: Steps(2_560) }));
    assert_eq!(page.on_click(Button::Distance(MoveDistance::Ten)), None);
    assert_eq!(page.on_click(Button::Up), Some(Task::MoveUp { steps: Steps(256_000) }));
    assert_eq!(page.on_click(Button::Home), Some(Task::MoveZero));
    assert_eq!(page.on_click(Button::Stop), None);

    let idle = page.refresh(None);
    assert!(idle.moves_enabled && !idle.stop_enabled);
    assert_eq!(idle.selected, MoveDistance::Ten);
    let busy = page.refresh(Some(Task::MoveZero));
    assert!(!busy.moves_enabled && busy.stop_enabled);
}

#[test]
fn main_loop_keeps_waiting_when_the_slot_is_empty() {
    let mut runner: TaskRunner<u8> = TaskRunner::default();
    let phase = runner.main_loop_task(LoopPhase::AwaitingTask, LoopEvent::TaskAvailable);
    assert!(matches!(phase, LoopPhase::AwaitingTask));
    assert!(!runner.is_busy());
    assert!(!runner.is_task_cancelled());
    assert_eq!(runner.get_current_task(), None);
    assert_eq!(runner.enqueue_task(4), Ok(()));
    let phase = runner.main_loop_task(phase, LoopEvent::TaskAvailable);
    assert!(matches!(phase, LoopPhase::Running(4)));
}
