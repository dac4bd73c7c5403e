//! Runs one task at a time on behalf of event handlers that must not block.
//!
//! A handler enqueues a task or asks for its cancellation; an executor loop
//! picks the task up, runs it, and on cancellation lets the task clean up.
//! The runner holds the slot and the cancellation flag and decides what the
//! loop does next. Waiting and waking are done by the executor.

use vstd::prelude::*;

verus! {

/// What a runner holds.
pub struct RunnerState<T> {
    /// The task that is queued or running, if any.
    pub task: Option<T>,
    /// Whether cancellation has been asked for since the task was queued.
    pub cancelled: bool,
}

/// Where the executor loop stands.
pub enum LoopPhase<T> {
    /// Waiting for a task to be enqueued.
    AwaitingTask,
    /// Running the task, and watching for its cancellation.
    Running(T),
    /// The task was cancelled and is cleaning up.
    Cancelling(T),
}

/// What the executor loop has seen happen.
#[derive(Clone, Copy, Debug, PartialEq, Eq, Structural)]
pub enum LoopEvent {
    /// The notification that a task was enqueued has arrived.
    TaskAvailable,
    /// The task has run to its end.
    RunCompleted,
    /// The notification that cancellation was asked for has arrived, before
    /// the task has run to its end.
    CancelRequested,
    /// The cancelled task has finished cleaning up.
    CancelCompleted,
}

/// The phase that follows `phase` on `event`, and what the runner then
/// holds. A task that ends, by itself or by cancellation, leaves the slot
/// empty and the flag down. An event that cannot come in a phase changes
/// nothing.
pub open spec fn loop_step<T>(phase: LoopPhase<T>, event: LoopEvent, state: RunnerState<T>) -> (
    LoopPhase<T>,
    RunnerState<T>,
) {
    match (phase, event) {
        (LoopPhase::AwaitingTask, LoopEvent::TaskAvailable) => match state.task {
            Some(task) => (LoopPhase::Running(task), state),
            None => (LoopPhase::AwaitingTask, state),
        },
        (LoopPhase::Running(task), LoopEvent::RunCompleted) => (
            LoopPhase::AwaitingTask,
            RunnerState { task: None, cancelled: false },
        ),
        (LoopPhase::Running(task), LoopEvent::CancelRequested) => (
            LoopPhase::Cancelling(task),
            state,
        ),
        (LoopPhase::Cancelling(task), LoopEvent::CancelCompleted) => (
            LoopPhase::AwaitingTask,
            RunnerState { task: None, cancelled: false },
        ),
        _ => (phase, state),
    }
}

/// Holds at most one task and runs it to its end or to its cancellation.
pub struct TaskRunner<T: Copy> {
    task: Option<T>,
    cancelled: bool,
}

impl<T: Copy> View for TaskRunner<T> {
    type V = RunnerState<T>;

    closed spec fn view(&self) -> RunnerState<T> {
        RunnerState { task: self.task, cancelled: self.cancelled }
    }
}

impl<T: Copy> Default for TaskRunner<T> {
    /// A runner with nothing to do.
    fn default() -> (runner: TaskRunner<T>)
        ensures
            runner@ == (RunnerState::<T> { task: None, cancelled: false }),
    {
        TaskRunner { task: None, cancelled: false }
    }
}

impl<T: Copy> TaskRunner<T> {
    /// Whether a task is queued or running.
    pub fn is_busy(&self) -> (busy: bool)
        ensures
            busy == self@.task is Some,
    {
        self.get_current_task().is_some()
    }

    /// Whether cancellation has been asked for.
    pub fn is_task_cancelled(&self) -> (cancelled: bool)
        ensures
            cancelled == self@.cancelled,
    {
        self.cancelled
    }

    /// The task that is queued or running, if any.
    pub fn get_current_task(&self) -> (task: Option<T>)
        ensures
            task == self@.task,
    {
        self.task
    }

    /// Queues `task`. Fails, and changes nothing, while another task is
    /// queued or running. On success the cancellation flag is down, and the
    /// caller resets the cancellation notification and notifies the loop.
    pub fn enqueue_task(&mut self, task: T) -> (result: Result<(), ()>)
        ensures
            result is Err <==> old(self)@.task is Some,
            result is Err ==> final(self)@ == old(self)@,
            result is Ok ==> final(self)@ == (RunnerState { task: Some(task), cancelled: false }),
    {
        if self.is_busy() {
            Err(())
        } else {
            self.cancelled = false;
            self.task = Some(task);
            Ok(())
        }
    }

    /// Asks for the cancellation of the task; the caller sends the
    /// cancellation notification. Asking twice is asking once.
    pub fn cancel_task(&mut self)
        ensures
            final(self)@ == (RunnerState { cancelled: true, ..old(self)@ }),
    {
        self.cancelled = true;
    }

    /// One decision of the executor loop: given the phase the loop is in
    /// and what it has seen happen, the phase it enters. In `Running` the
    /// loop runs the task and watches for the cancellation notification; in
    /// `Cancelling` it lets the task clean up; in `AwaitingTask` it waits to
    /// be notified of a task. A notification that finds the slot empty
    /// leaves the loop waiting.
    pub fn main_loop_task(&mut self, phase: LoopPhase<T>, event: LoopEvent) -> (next: LoopPhase<T>)
        ensures
            (next, final(self)@) == loop_step(phase, event, old(self)@),
    {
        match phase {
            LoopPhase::AwaitingTask => match event {
                LoopEvent::TaskAvailable => match self.get_current_task() {
                    Some(task) => LoopPhase::Running(task),
                    None => LoopPhase::AwaitingTask,
                },
                _ => phase,
            },
            LoopPhase::Running(task) => match event {
                LoopEvent::RunCompleted => {
                    self.clear();
                    LoopPhase::AwaitingTask
                },
                LoopEvent::CancelRequested => LoopPhase::Cancelling(task),
                _ => phase,
            },
            LoopPhase::Cancelling(_) => match event {
                LoopEvent::CancelCompleted => {
                    self.clear();
                    LoopPhase::AwaitingTask
                },
                _ => phase,
            },
        }
    }

    /// Empties the slot, so that the runner is no longer busy, and lowers
    /// the flag.
    fn clear(&mut self)
        ensures
            final(self)@ == (RunnerState::<T> { task: None, cancelled: false }),
    {
        self.task = None;
        self.cancelled = false;
    }
}

/// One task at a time. While a task is queued or running every further
/// task is refused and the task in the slot stays; once the loop has seen
/// it end, run out or cancelled, the next one is taken.
pub proof fn law_single_task<T>(task: T)
    ensures
        ({
            let queued = RunnerState { task: Some(task), cancelled: false };
            let picked = loop_step(LoopPhase::AwaitingTask, LoopEvent::TaskAvailable, queued);
            let ended = loop_step(picked.0, LoopEvent::RunCompleted, picked.1);
            let cancelling = loop_step(picked.0, LoopEvent::CancelRequested, picked.1);
            let cleaned = loop_step(cancelling.0, LoopEvent::CancelCompleted, cancelling.1);
            &&& picked.0 == LoopPhase::Running(task)
            &&& picked.1.task == Some(task)
            &&& ended.0 == LoopPhase::<T>::AwaitingTask
            &&& ended.1 == (RunnerState::<T> { task: None, cancelled: false })
            &&& cancelling.0 == LoopPhase::Cancelling(task)
            &&& cancelling.1.task == Some(task)
            &&& cleaned.0 == LoopPhase::<T>::AwaitingTask
            &&& cleaned.1 == (RunnerState::<T> { task: None, cancelled: false })
        }),
{
}

} // verus!
