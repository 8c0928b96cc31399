//! The process-wide run flag: `Running` until somebody asks for a stop,
//! `Stopped` ever after.

use std::sync::atomic::{AtomicBool, Ordering};
use vstd::prelude::*;

verus! {

/// Whether the meter is still meant to run.
#[derive(Clone, Copy, Debug, PartialEq, Eq)]
pub enum RunState {
    Running,
    Stopped,
}

impl RunState {
    /// The only changes that a run state may undergo: it may stay as it is,
    /// and `Running` may become `Stopped`. `Stopped` never becomes `Running`.
    pub open spec fn may_become(self, next: RunState) -> bool {
        self is Stopped ==> next is Stopped
    }

    /// The state that a flag of the given value stands for.
    pub fn from_flag(running: bool) -> (state: RunState)
        ensures
            state == RunState::flag_state(running),
    {
        if running {
            RunState::Running
        } else {
            RunState::Stopped
        }
    }

    /// The value that the shared flag holds for this state: `true` for
    /// `Running`, `false` for `Stopped`.
    pub fn as_flag(self) -> (running: bool)
        ensures
            running <==> self is Running,
            RunState::flag_state(running) == self,
    {
        self.is_running()
    }

    /// The state that a flag of the given value stands for.
    pub open spec fn flag_state(running: bool) -> RunState {
        if running {
            RunState::Running
        } else {
            RunState::Stopped
        }
    }

    /// Whether the meter is still meant to run.
    pub fn is_running(self) -> (running: bool)
        ensures
            running <==> self is Running,
    {
        match self {
            RunState::Running => true,
            RunState::Stopped => false,
        }
    }
}

/// The run state as a cell that threads share. It is created `Running`; the
/// only write it ever receives is the one that stops it.
///
/// What a thread observes depends on what the other threads have done, so no
/// contract below says what an observation or a request returns. What can be
/// said is in which state the cell was made: the flag keeps a record of it
/// beside the cell.
pub struct RunFlag {
    cell: AtomicBool,
    made_as: Ghost<bool>,
}

impl RunFlag {
    /// The state that was handed to the cell when the flag was made. It is a
    /// record of that moment, and says nothing of the state at a later time.
    pub closed spec fn initial_state(&self) -> RunState {
        RunState::flag_state(self.made_as@)
    }

    /// A flag made in state `Running`.
    pub fn new() -> (flag: RunFlag)
        ensures
            flag.initial_state() is Running,
    {
        let running = RunState::Running.as_flag();
        RunFlag { cell: AtomicBool::new(running), made_as: Ghost(running) }
    }

    /// The state of the flag at some moment during the call.
    pub fn observe(&self) -> (state: RunState) {
        RunState::from_flag(self.cell.load(Ordering::SeqCst))
    }

    /// Stops the meter. Returns whether this call found the flag `Running`:
    /// of all the requests made on one flag, the exchange hands `true` to one.
    pub fn request_stop(&self) -> (first: bool) {
        let before = self.cell.swap(RunState::Stopped.as_flag(), Ordering::SeqCst);
        RunState::from_flag(before).is_running()
    }
}

/// The changes that `may_become` allows compose: a run state that was
/// stopped at any time is stopped at every later time, whatever happened in
/// between, and a stopped one has no way back.
pub proof fn lemma_stop_is_final(first: RunState, then: RunState, last: RunState)
    requires
        first.may_become(then),
        then.may_become(last),
    ensures
        first.may_become(last),
        first is Stopped ==> then is Stopped && last is Stopped,
        !RunState::Stopped.may_become(RunState::Running),
{
}

} // verus!
