//! The command control loop: which state the process is in, and what each
//! command, the end of the input, or the end of a session makes of it.

use crate::types::Command;
use vstd::prelude::*;

verus! {

/// Where the control loop stands.
#[derive(Debug, Clone, Copy, PartialEq, Eq, Structural)]
pub enum ControlState {
    /// No session runs: a start is awaited.
    Idle,
    /// A session runs.
    Sampling,
    /// The loop has ended, for good.
    Terminated,
}

/// What happened.
#[derive(Debug)]
pub enum ControlEvent {
    /// A line of the input was a command.
    Received(Command),
    /// The input has ended.
    EndOfInput,
    /// The running session has returned, by itself or after a failure.
    SessionEnded,
}

/// What the driver does about it.
#[derive(Debug, Clone, Copy, PartialEq, Eq, Structural)]
pub enum ControlAction {
    /// Start a session with this grid size and rate.
    StartSession { grid_size: usize, sample_rate: u64 },
    /// Hand the running session a new grid size.
    ForwardUpdate { grid_size: usize },
    /// Hand the running session a stop.
    StopSession,
    /// A start came while a session runs: mention it, and do nothing.
    IgnoreNestedStart,
    /// A grid update came while no session runs: mention it, and do nothing.
    IgnoreIdleUpdate,
    /// Leave the loop.
    Exit,
    /// Nothing to do.
    Nothing,
}

/// The state after `event` in `state`.
pub open spec fn next_state(state: ControlState, event: ControlEvent) -> ControlState {
    match (state, event) {
        (ControlState::Idle, ControlEvent::Received(Command::Start { .. })) => ControlState::Sampling,
        (ControlState::Idle, ControlEvent::Received(Command::UpdateGrid { .. })) => ControlState::Idle,
        (ControlState::Idle, ControlEvent::Received(Command::Stop)) => ControlState::Terminated,
        (ControlState::Idle, ControlEvent::EndOfInput) => ControlState::Terminated,
        (ControlState::Idle, ControlEvent::SessionEnded) => ControlState::Idle,
        (ControlState::Sampling, ControlEvent::Received(Command::Start { .. })) => ControlState::Sampling,
        (
            ControlState::Sampling,
            ControlEvent::Received(Command::UpdateGrid { .. }),
        ) => ControlState::Sampling,
        (ControlState::Sampling, ControlEvent::Received(Command::Stop)) => ControlState::Idle,
        (ControlState::Sampling, ControlEvent::EndOfInput) => ControlState::Idle,
        (ControlState::Sampling, ControlEvent::SessionEnded) => ControlState::Idle,
        (ControlState::Terminated, _) => ControlState::Terminated,
    }
}

/// What the driver does about `event` in `state`.
pub open spec fn action_for(state: ControlState, event: ControlEvent) -> ControlAction {
    match (state, event) {
        (
            ControlState::Idle,
            ControlEvent::Received(Command::Start { grid_size, sample_rate }),
        ) => ControlAction::StartSession { grid_size, sample_rate },
        (
            ControlState::Idle,
            ControlEvent::Received(Command::UpdateGrid { .. }),
        ) => ControlAction::IgnoreIdleUpdate,
        (ControlState::Idle, ControlEvent::Received(Command::Stop)) => ControlAction::Exit,
        (ControlState::Idle, ControlEvent::EndOfInput) => ControlAction::Exit,
        (ControlState::Idle, ControlEvent::SessionEnded) => ControlAction::Nothing,
        (
            ControlState::Sampling,
            ControlEvent::Received(Command::Start { .. }),
        ) => ControlAction::IgnoreNestedStart,
        (
            ControlState::Sampling,
            ControlEvent::Received(Command::UpdateGrid { grid_size }),
        ) => ControlAction::ForwardUpdate { grid_size },
        (ControlState::Sampling, ControlEvent::Received(Command::Stop)) => ControlAction::StopSession,
        (ControlState::Sampling, ControlEvent::EndOfInput) => ControlAction::StopSession,
        (ControlState::Sampling, ControlEvent::SessionEnded) => ControlAction::Nothing,
        (ControlState::Terminated, _) => ControlAction::Nothing,
    }
}

/// One step of the control loop.
pub fn control_step(state: ControlState, event: ControlEvent) -> (step: (ControlState, ControlAction))
    ensures
        step.0 == next_state(state, event),
        step.1 == action_for(state, event),
{
    match state {
        ControlState::Idle => match event {
            ControlEvent::Received(Command::Start { grid_size, sample_rate }) => (
                ControlState::Sampling,
                ControlAction::StartSession { grid_size, sample_rate },
            ),
            ControlEvent::Received(Command::UpdateGrid { .. }) => (
                ControlState::Idle,
                ControlAction::IgnoreIdleUpdate,
            ),
            ControlEvent::Received(Command::Stop) => (ControlState::Terminated, ControlAction::Exit),
            ControlEvent::EndOfInput => (ControlState::Terminated, ControlAction::Exit),
            ControlEvent::SessionEnded => (ControlState::Idle, ControlAction::Nothing),
        },
        ControlState::Sampling => match event {
            ControlEvent::Received(Command::Start { .. }) => (
                ControlState::Sampling,
                ControlAction::IgnoreNestedStart,
            ),
            ControlEvent::Received(Command::UpdateGrid { grid_size }) => (
                ControlState::Sampling,
                ControlAction::ForwardUpdate { grid_size },
            ),
            ControlEvent::Received(Command::Stop) => (ControlState::Idle, ControlAction::StopSession),
            ControlEvent::EndOfInput => (ControlState::Idle, ControlAction::StopSession),
            ControlEvent::SessionEnded => (ControlState::Idle, ControlAction::Nothing),
        },
        ControlState::Terminated => (ControlState::Terminated, ControlAction::Nothing),
    }
}

/// The state after the events `events`, one after the other, from `state`.
pub open spec fn state_after(state: ControlState, events: Seq<ControlEvent>) -> ControlState
    decreases events.len(),
{
    if events.len() == 0 {
        state
    } else {
        next_state(state_after(state, events.drop_last()), events.last())
    }
}

/// Once terminated, the loop stays terminated, whatever comes.
pub proof fn lemma_terminated_is_final(events: Seq<ControlEvent>)
    ensures
        state_after(ControlState::Terminated, events) == ControlState::Terminated,
    decreases events.len(),
{
    if events.len() > 0 {
        lemma_terminated_is_final(events.drop_last());
    }
}

/// A stop, or the end of the input, during a session ends the session and
/// leaves the loop idle, where the next start begins a new session with the
/// size and rate it names.
pub proof fn lemma_stop_then_start(grid_size: usize, sample_rate: u64)
    ensures
        next_state(ControlState::Sampling, ControlEvent::Received(Command::Stop))
            == ControlState::Idle,
        action_for(ControlState::Sampling, ControlEvent::Received(Command::Stop))
            == ControlAction::StopSession,
        next_state(ControlState::Sampling, ControlEvent::EndOfInput) == ControlState::Idle,
        action_for(ControlState::Sampling, ControlEvent::EndOfInput) == ControlAction::StopSession,
        next_state(
            ControlState::Idle,
            ControlEvent::Received(Command::Start { grid_size, sample_rate }),
        ) == ControlState::Sampling,
        action_for(
            ControlState::Idle,
            ControlEvent::Received(Command::Start { grid_size, sample_rate }),
        ) == (ControlAction::StartSession { grid_size, sample_rate }),
{
}

/// A session starts only from idle and only on a start: whatever the event, a
/// session is started exactly when the loop was idle and the event was a start.
pub proof fn lemma_session_starts_only_from_idle(state: ControlState, event: ControlEvent)
    ensures
        action_for(state, event) is StartSession <==> state == ControlState::Idle
            && event matches ControlEvent::Received(Command::Start { .. }),
        next_state(state, event) == ControlState::Sampling ==> state == ControlState::Sampling
            || action_for(state, event) is StartSession,
{
}

} // verus!
