//! The cancellable run of one network operation: a state machine that
//! decides, for each event of the race between the progress tick, the
//! user's cancellation and the completion of the task, what the run does
//! next. The caller performs the waiting; every decision is made here.

use vstd::prelude::*;
use vstd::string::*;

verus! {

/// Where a run stands. `Succeeded`, `Canceled` and `Failed` are final.
#[derive(Debug, Clone, Copy, PartialEq, Eq, Structural)]
pub enum RunState {
    Idle,
    Requesting,
    Succeeded,
    Canceled,
    Failed,
}

/// What the caller saw happen first.
#[derive(Debug, Clone, PartialEq, Eq)]
pub enum RunEvent<T, E> {
    /// The tick interval elapsed.
    Tick,
    /// The user asked to cancel.
    Cancel,
    /// The task finished with a result.
    TaskSucceeded(T),
    /// The task finished with an error.
    TaskFailed(E),
}

/// How a run ended.
#[derive(Debug, Clone, PartialEq, Eq)]
pub enum RunOutcome<T, E> {
    Succeeded(T),
    Canceled,
    Failed(E),
}

/// What the caller does after an event.
#[derive(Debug, Clone, PartialEq, Eq)]
pub enum RunStep<T, E> {
    /// Redraw the progress indicator and wait for the next event.
    Continue,
    /// Restore the terminal, stop waiting (an unfinished task is left
    /// behind) and hand out the outcome.
    Finish(RunOutcome<T, E>),
    /// The run is not waiting for anything: nothing is to be done.
    Ignored,
}

/// An event without what it carries.
pub enum EventKind {
    Tick,
    Cancel,
    TaskSucceeded,
    TaskFailed,
}

impl<T, E> RunEvent<T, E> {
    pub open spec fn kind(&self) -> EventKind {
        match self {
            RunEvent::Tick => EventKind::Tick,
            RunEvent::Cancel => EventKind::Cancel,
            RunEvent::TaskSucceeded(_) => EventKind::TaskSucceeded,
            RunEvent::TaskFailed(_) => EventKind::TaskFailed,
        }
    }
}

impl<T, E> RunStep<T, E> {
    /// The step asks the caller to restore the terminal.
    pub open spec fn restores_terminal(&self) -> bool {
        self is Finish
    }
}

/// The state is final.
pub open spec fn is_terminal(state: RunState) -> bool {
    state == RunState::Succeeded || state == RunState::Canceled || state == RunState::Failed
}

/// The state that follows `state` on an event of kind `kind`.
pub open spec fn next_state(state: RunState, kind: EventKind) -> RunState {
    if state == RunState::Requesting {
        match kind {
            EventKind::Tick => RunState::Requesting,
            EventKind::Cancel => RunState::Canceled,
            EventKind::TaskSucceeded => RunState::Succeeded,
            EventKind::TaskFailed => RunState::Failed,
        }
    } else {
        state
    }
}

/// The step that an event asks for in a state.
pub open spec fn step_for<T, E>(state: RunState, event: RunEvent<T, E>) -> RunStep<T, E> {
    if state == RunState::Requesting {
        match event {
            RunEvent::Tick => RunStep::Continue,
            RunEvent::Cancel => RunStep::Finish(RunOutcome::Canceled),
            RunEvent::TaskSucceeded(value) => RunStep::Finish(RunOutcome::Succeeded(value)),
            RunEvent::TaskFailed(error) => RunStep::Finish(RunOutcome::Failed(error)),
        }
    } else {
        RunStep::Ignored
    }
}

/// The progress count after an event: a tick of a waiting run advances it,
/// starting over after the largest value.
pub open spec fn next_progress(state: RunState, kind: EventKind, progress: u64) -> u64 {
    if state == RunState::Requesting && kind is Tick {
        if progress == u64::MAX {
            0
        } else {
            (progress + 1) as u64
        }
    } else {
        progress
    }
}

/// The state after a sequence of events.
pub open spec fn state_after(state: RunState, events: Seq<EventKind>) -> RunState
    decreases events.len(),
{
    if events.len() == 0 {
        state
    } else {
        state_after(next_state(state, events[0]), events.drop_first())
    }
}

/// How often the terminal is restored over a sequence of events: once for
/// each event that ends the wait.
pub open spec fn restores_over(state: RunState, events: Seq<EventKind>) -> nat
    decreases events.len(),
{
    if events.len() == 0 {
        0
    } else {
        let ends_wait: nat = if state == RunState::Requesting && !(events[0] is Tick) {
            1
        } else {
            0
        };
        ends_wait + restores_over(next_state(state, events[0]), events.drop_first())
    }
}

/// One run of one operation.
#[derive(Debug)]
pub struct UploadOrchestrator {
    state: RunState,
    progress: u64,
}

impl UploadOrchestrator {
    pub closed spec fn spec_state(&self) -> RunState {
        self.state
    }

    pub closed spec fn spec_progress(&self) -> u64 {
        self.progress
    }

    /// A run that has not started.
    pub fn new() -> (run: Self)
        ensures
            run.spec_state() == RunState::Idle,
            run.spec_progress() == 0,
    {
        UploadOrchestrator { state: RunState::Idle, progress: 0 }
    }

    #[verifier::when_used_as_spec(spec_state)]
    pub fn state(&self) -> (state: RunState)
        ensures
            state == self.spec_state(),
    {
        self.state
    }

    /// How many ticks the progress indicator has advanced.
    #[verifier::when_used_as_spec(spec_progress)]
    pub fn progress(&self) -> (progress: u64)
        ensures
            progress == self.spec_progress(),
    {
        self.progress
    }

    /// Whether the run has ended.
    pub fn is_finished(&self) -> (finished: bool)
        ensures
            finished == is_terminal(self.spec_state()),
    {
        match self.state {
            RunState::Succeeded | RunState::Canceled | RunState::Failed => true,
            _ => false,
        }
    }

    /// Starts the run. An idle run begins to wait, and `true` tells the
    /// caller to put the terminal into raw mode and to start the task. A
    /// run that was started before stays as it is: there is no retry.
    pub fn start(&mut self) -> (started: bool)
        ensures
            started == (old(self).spec_state() == RunState::Idle),
            final(self).spec_state() == if started {
                RunState::Requesting
            } else {
                old(self).spec_state()
            },
            final(self).spec_progress() == old(self).spec_progress(),
    {
        if self.state == RunState::Idle {
            self.state = RunState::Requesting;
            true
        } else {
            false
        }
    }

    /// Handles the event that came first. While the run waits, a tick
    /// advances the progress and the wait goes on; a cancellation ends the
    /// run at once, whatever the task is doing; the task's completion ends
    /// it with the task's result or error. In every other state the event
    /// changes nothing.
    pub fn on_event<T, E>(&mut self, event: RunEvent<T, E>) -> (step: RunStep<T, E>)
        ensures
            final(self).spec_state() == next_state(old(self).spec_state(), event.kind()),
            final(self).spec_progress() == next_progress(
                old(self).spec_state(),
                event.kind(),
                old(self).spec_progress(),
            ),
            step == step_for(old(self).spec_state(), event),
    {
        if self.state != RunState::Requesting {
            return RunStep::Ignored;
        }
        match event {
            RunEvent::Tick => {
                self.progress = if self.progress == u64::MAX {
                    0
                } else {
                    self.progress + 1
                };
                RunStep::Continue
            },
            RunEvent::Cancel => {
                self.state = RunState::Canceled;
                RunStep::Finish(RunOutcome::Canceled)
            },
            RunEvent::TaskSucceeded(value) => {
                self.state = RunState::Succeeded;
                RunStep::Finish(RunOutcome::Succeeded(value))
            },
            RunEvent::TaskFailed(error) => {
                self.state = RunState::Failed;
                RunStep::Finish(RunOutcome::Failed(error))
            },
        }
    }
}

/// The word that the status line ends with: how the run ended, and for a
/// run that has not ended, that it failed.
pub open spec fn state_word(state: RunState) -> Seq<char> {
    match state {
        RunState::Succeeded => "Completed"@,
        RunState::Canceled => "Canceled"@,
        _ => "Failed"@,
    }
}

/// The line that is printed in place of the progress indicator when the
/// run has ended: the message of the run and how it ended.
pub fn status_line(message: &str, state: RunState) -> (line: String)
    ensures
        line@ == " "@ + message@ + " - "@ + state_word(state),
{
    let word = match state {
        RunState::Succeeded => "Completed",
        RunState::Canceled => "Canceled",
        _ => "Failed",
    };
    String::from_str(" ").concat(message).concat(" - ").concat(word)
}

/// The event that the completion of a task is.
pub fn completion_event<T, E>(result: Result<T, E>) -> (event: RunEvent<T, E>)
    ensures
        event == match result {
            Ok(value) => RunEvent::<T, E>::TaskSucceeded(value),
            Err(error) => RunEvent::<T, E>::TaskFailed(error),
        },
{
    match result {
        Ok(value) => RunEvent::TaskSucceeded(value),
        Err(error) => RunEvent::TaskFailed(error),
    }
}

/// A final state is never left, and only a waiting run reaches one.
pub proof fn terminal_states_are_final(state: RunState, kind: EventKind)
    ensures
        is_terminal(state) ==> next_state(state, kind) == state,
        is_terminal(next_state(state, kind)) ==> is_terminal(state) || state
            == RunState::Requesting,
        next_state(RunState::Idle, kind) == RunState::Idle,
{
}

/// The terminal is restored on exactly the steps that end the wait: the
/// run held the terminal before the step and does not hold it after.
pub proof fn restore_exactly_when_wait_ends<T, E>(state: RunState, event: RunEvent<T, E>)
    ensures
        step_for(state, event).restores_terminal() <==> (state == RunState::Requesting
            && is_terminal(next_state(state, event.kind()))),
{
}

/// A cancellation never waits for the task: it ends a waiting run in the
/// same step.
pub proof fn cancel_ends_at_once<T, E>(event: RunEvent<T, E>)
    requires
        event is Cancel,
    ensures
        step_for(RunState::Requesting, event) == RunStep::<T, E>::Finish(RunOutcome::Canceled),
        next_state(RunState::Requesting, event.kind()) == RunState::Canceled,
{
}

/// Over any sequence of events after the start, the terminal is restored
/// once if the run has ended and not at all if it still waits.
pub proof fn terminal_restored_exactly_once(events: Seq<EventKind>)
    ensures
        restores_over(RunState::Requesting, events) == (if is_terminal(
            state_after(RunState::Requesting, events),
        ) {
            1nat
        } else {
            0nat
        }),
        state_after(RunState::Requesting, events) != RunState::Idle,
    decreases events.len(),
{
    if events.len() > 0 {
        let next = next_state(RunState::Requesting, events[0]);
        if next == RunState::Requesting {
            terminal_restored_exactly_once(events.drop_first());
        } else {
            nothing_after_the_end(next, events.drop_first());
        }
    }
}

/// Once a run has ended, or before it has started, no event changes its
/// state or restores the terminal.
pub proof fn nothing_after_the_end(state: RunState, events: Seq<EventKind>)
    requires
        state != RunState::Requesting,
    ensures
        state_after(state, events) == state,
        restores_over(state, events) == 0,
    decreases events.len(),
{
    if events.len() > 0 {
        nothing_after_the_end(state, events.drop_first());
    }
}

} // verus!
