//! The hand-off between the orchestrating side and a background worker.
//!
//! Both sides share one `WorkerState` under a lock. The orchestrator places
//! a snapshot of the live cells in it and wakes the worker; the worker takes
//! the snapshot out, leaving the state idle, and runs the step rule on it.
//! At teardown the orchestrator sets the state to shutting down, which the
//! worker takes as its signal to exit.

use vstd::prelude::*;

use crate::cells::LiveSet;

verus! {

pub enum WorkerState {
    Idle,
    ComputeRequested(LiveSet),
    ShuttingDown,
}

/// What the worker does after it wakes.
pub enum WorkerCommand {
    /// Nothing to do: wait for the next signal.
    Wait,
    /// Run the step rule on this snapshot and send back the result.
    Compute(LiveSet),
    /// Leave the worker loop.
    Exit,
}

impl WorkerState {
    pub fn new() -> (r: Self)
        ensures
            r is Idle,
    {
        WorkerState::Idle
    }

    /// Hands `snapshot` to the worker. Only an idle worker takes it: a
    /// request never replaces one that is still waiting, nor revives a
    /// worker that is shutting down.
    pub fn request(&mut self, snapshot: LiveSet) -> (accepted: bool)
        ensures
            accepted == (*old(self) is Idle),
            accepted ==> *final(self) == WorkerState::ComputeRequested(snapshot),
            !accepted ==> *final(self) == *old(self),
    {
        match self {
            WorkerState::Idle => {
                *self = WorkerState::ComputeRequested(snapshot);
                true
            },
            _ => false,
        }
    }

    /// The worker's side: takes what was asked of it. A snapshot is moved
    /// out, leaving the state idle; a shutdown stays in place.
    pub fn take_command(&mut self) -> (cmd: WorkerCommand)
        ensures
            match *old(self) {
                WorkerState::Idle => cmd is Wait && *final(self) is Idle,
                WorkerState::ComputeRequested(s) => cmd == WorkerCommand::Compute(s)
                    && *final(self) is Idle,
                WorkerState::ShuttingDown => cmd is Exit && *final(self) is ShuttingDown,
            },
    {
        let mut taken = WorkerState::Idle;
        core::mem::swap(self, &mut taken);
        match taken {
            WorkerState::Idle => WorkerCommand::Wait,
            WorkerState::ComputeRequested(s) => WorkerCommand::Compute(s),
            WorkerState::ShuttingDown => {
                *self = WorkerState::ShuttingDown;
                WorkerCommand::Exit
            },
        }
    }

    /// Tells the worker to exit.
    pub fn shut_down(&mut self)
        ensures
            *final(self) is ShuttingDown,
    {
        *self = WorkerState::ShuttingDown;
    }

    pub fn is_shutting_down(&self) -> (r: bool)
        ensures
            r == (*self is ShuttingDown),
    {
        match self {
            WorkerState::ShuttingDown => true,
            _ => false,
        }
    }
}

} // verus!
