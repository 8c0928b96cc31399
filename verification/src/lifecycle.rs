//! The shutdown watcher: it polls for the stop marker and for the run flag,
//! and once either asks for a stop it grants the capture side a grace period
//! and then ends the process.
//!
//! Like the capture session, the watcher only decides. Its driver looks for
//! the marker, sleeps and exits, and reports back what it found.

use crate::run_state::RunState;
use vstd::prelude::*;

verus! {

/// The time between two polls, in milliseconds.
pub const POLL_INTERVAL_MILLIS: u64 = 50;

/// The time left to the capture side to release its device before the
/// process ends, in milliseconds.
pub const GRACE_PERIOD_MILLIS: u64 = 200;

/// The status with which the process ends after a stop, whatever caused it.
pub const EXIT_STATUS: i32 = 0;

/// Where the watcher stands.
#[derive(Clone, Copy, Debug, PartialEq, Eq)]
pub enum WatcherPhase {
    /// Not started.
    Idle,
    /// A marker left over from an earlier run is being removed.
    ClearingStaleMarker,
    /// The marker is being looked for.
    CheckingMarker,
    /// The poll interval is running; the run flag is looked at when it ends.
    CheckingRunState,
    /// A stop was seen; the grace period is running.
    Grace,
    /// The process was told to end. Nothing follows.
    Exited,
}

/// What the watcher's driver reports.
#[derive(Clone, Copy, Debug, PartialEq, Eq)]
pub enum WatcherEvent {
    /// The watcher is asked to begin.
    Start,
    /// Any stale marker is gone.
    StaleMarkerCleared,
    /// The marker was looked for.
    MarkerChecked { present: bool },
    /// The run flag was looked at.
    RunStateObserved { run_state: RunState },
    /// The grace period is over.
    GraceElapsed,
}

/// What the watcher asks of its driver.
#[derive(Clone, Copy, Debug, PartialEq, Eq)]
pub enum WatcherAction {
    /// Remove a marker left over from an earlier run; answer with
    /// `StaleMarkerCleared`.
    ClearStaleMarker,
    /// Look for the marker; answer with `MarkerChecked`.
    CheckMarker,
    /// Wait for the given time, then look at the run flag; answer with
    /// `RunStateObserved`.
    ObserveRunState { after_millis: u64 },
    /// Remove the marker where told to, set the run flag to stopped, wait for
    /// the given time; answer with `GraceElapsed`.
    BeginShutdown { consume_marker: bool, grace_millis: u64 },
    /// End the process with the given status.
    Exit { status: i32 },
    /// Nothing: the event had no meaning where the watcher stood.
    Ignore,
}

/// A phase of the watcher and the action that led into it.
pub struct Reaction {
    pub phase: WatcherPhase,
    pub action: WatcherAction,
}

/// The watcher's rules: the phase that follows `phase` on `event`, and the
/// action to perform on the way.
///
/// A marker that is found is consumed as the shutdown begins, so that it
/// cannot ask for a second one. A run flag found stopped begins the same
/// shutdown, with no marker to consume. An event that does not answer the
/// last action changes nothing.
pub open spec fn react(phase: WatcherPhase, event: WatcherEvent) -> Reaction {
    match (phase, event) {
        (WatcherPhase::Idle, WatcherEvent::Start) => Reaction {
            phase: WatcherPhase::ClearingStaleMarker,
            action: WatcherAction::ClearStaleMarker,
        },
        (WatcherPhase::ClearingStaleMarker, WatcherEvent::StaleMarkerCleared) => Reaction {
            phase: WatcherPhase::CheckingMarker,
            action: WatcherAction::CheckMarker,
        },
        (WatcherPhase::CheckingMarker, WatcherEvent::MarkerChecked { present }) => if present {
            Reaction {
                phase: WatcherPhase::Grace,
                action: WatcherAction::BeginShutdown {
                    consume_marker: true,
                    grace_millis: GRACE_PERIOD_MILLIS,
                },
            }
        } else {
            Reaction {
                phase: WatcherPhase::CheckingRunState,
                action: WatcherAction::ObserveRunState { after_millis: POLL_INTERVAL_MILLIS },
            }
        },
        (
            WatcherPhase::CheckingRunState,
            WatcherEvent::RunStateObserved { run_state },
        ) => match run_state {
            RunState::Running => Reaction {
                phase: WatcherPhase::CheckingMarker,
                action: WatcherAction::CheckMarker,
            },
            RunState::Stopped => Reaction {
                phase: WatcherPhase::Grace,
                action: WatcherAction::BeginShutdown {
                    consume_marker: false,
                    grace_millis: GRACE_PERIOD_MILLIS,
                },
            },
        },
        (WatcherPhase::Grace, WatcherEvent::GraceElapsed) => Reaction {
            phase: WatcherPhase::Exited,
            action: WatcherAction::Exit { status: EXIT_STATUS },
        },
        _ => Reaction { phase, action: WatcherAction::Ignore },
    }
}

/// The run state as the watcher knows it: stopped from the moment it begins
/// the shutdown.
pub open spec fn known_run_state(phase: WatcherPhase) -> RunState {
    if phase is Grace || phase is Exited {
        RunState::Stopped
    } else {
        RunState::Running
    }
}

/// The phase that the watcher reaches from `phase` when the events arrive in
/// the order given.
pub open spec fn phase_after(phase: WatcherPhase, events: Seq<WatcherEvent>) -> WatcherPhase
    decreases events.len(),
{
    if events.len() == 0 {
        phase
    } else {
        phase_after(react(phase, events[0]).phase, events.skip(1))
    }
}

/// How often the watcher tells the process to end while the events arrive in
/// the order given.
pub open spec fn exits_requested(phase: WatcherPhase, events: Seq<WatcherEvent>) -> nat
    decreases events.len(),
{
    if events.len() == 0 {
        0
    } else {
        let first = react(phase, events[0]);
        let here: nat = if first.action is Exit {
            1
        } else {
            0
        };
        here + exits_requested(first.phase, events.skip(1))
    }
}

/// The watcher of one process.
pub struct Watcher {
    phase: WatcherPhase,
}

impl Watcher {
    /// Where the watcher stands.
    pub closed spec fn view(&self) -> WatcherPhase {
        self.phase
    }

    /// A watcher that has not started.
    pub fn new() -> (watcher: Watcher)
        ensures
            watcher@ is Idle,
    {
        Watcher { phase: WatcherPhase::Idle }
    }

    /// Where the watcher stands.
    pub fn phase(&self) -> (phase: WatcherPhase)
        ensures
            phase == self@,
    {
        self.phase
    }

    /// The run state as the watcher knows it.
    pub fn run_state(&self) -> (run_state: RunState)
        ensures
            run_state == known_run_state(self@),
    {
        match self.phase {
            WatcherPhase::Grace => RunState::Stopped,
            WatcherPhase::Exited => RunState::Stopped,
            _ => RunState::Running,
        }
    }

    /// Takes an event in: moves the watcher on as the rules say and returns
    /// the action that the driver is to perform.
    pub fn step(&mut self, event: WatcherEvent) -> (action: WatcherAction)
        ensures
            final(self)@ == react(old(self)@, event).phase,
            action == react(old(self)@, event).action,
    {
        let (next, action) = match (self.phase, event) {
            (WatcherPhase::Idle, WatcherEvent::Start) => (
                WatcherPhase::ClearingStaleMarker,
                WatcherAction::ClearStaleMarker,
            ),
            (WatcherPhase::ClearingStaleMarker, WatcherEvent::StaleMarkerCleared) => (
                WatcherPhase::CheckingMarker,
                WatcherAction::CheckMarker,
            ),
            (WatcherPhase::CheckingMarker, WatcherEvent::MarkerChecked { present }) => {
                if present {
                    (WatcherPhase::Grace, Self::shutdown(true))
                } else {
                    (
                        WatcherPhase::CheckingRunState,
                        WatcherAction::ObserveRunState { after_millis: POLL_INTERVAL_MILLIS },
                    )
                }
            },
            (WatcherPhase::CheckingRunState, WatcherEvent::RunStateObserved { run_state }) => {
                if run_state.is_running() {
                    (WatcherPhase::CheckingMarker, WatcherAction::CheckMarker)
                } else {
                    (WatcherPhase::Grace, Self::shutdown(false))
                }
            },
            (WatcherPhase::Grace, WatcherEvent::GraceElapsed) => (
                WatcherPhase::Exited,
                WatcherAction::Exit { status: EXIT_STATUS },
            ),
            (phase, _) => (phase, WatcherAction::Ignore),
        };
        self.phase = next;
        action
    }

    fn shutdown(consume_marker: bool) -> (action: WatcherAction)
        ensures
            action == (WatcherAction::BeginShutdown {
                consume_marker,
                grace_millis: GRACE_PERIOD_MILLIS,
            }),
    {
        WatcherAction::BeginShutdown { consume_marker, grace_millis: GRACE_PERIOD_MILLIS }
    }
}

/// The run state that the watcher knows never goes back from stopped to
/// running, whatever event arrives.
pub proof fn lemma_known_run_state_monotonic(phase: WatcherPhase, event: WatcherEvent)
    ensures
        known_run_state(phase).may_become(known_run_state(react(phase, event).phase)),
{
}

/// The same over any number of events.
pub proof fn lemma_stopped_stays_stopped(phase: WatcherPhase, events: Seq<WatcherEvent>)
    ensures
        known_run_state(phase).may_become(known_run_state(phase_after(phase, events))),
    decreases events.len(),
{
    if events.len() > 0 {
        let next = react(phase, events[0]).phase;
        lemma_known_run_state_monotonic(phase, events[0]);
        lemma_stopped_stays_stopped(next, events.skip(1));
    }
}

/// A marker that is found is consumed with the shutdown it causes; the
/// shutdown always comes with the full grace period; and the process ends
/// with the one status there is.
pub proof fn lemma_shutdown_shape(phase: WatcherPhase, event: WatcherEvent)
    ensures
        react(phase, event).action matches WatcherAction::BeginShutdown {
            consume_marker,
            grace_millis,
        } ==> {
            &&& grace_millis == GRACE_PERIOD_MILLIS
            &&& consume_marker <==> event is MarkerChecked
            &&& react(phase, event).phase is Grace
            &&& known_run_state(phase) is Running
        },
        react(phase, event).action matches WatcherAction::Exit { status } ==> {
            &&& status == EXIT_STATUS
            &&& phase is Grace
            &&& react(phase, event).phase is Exited
        },
{
}

/// However many stop conditions fire, and in whatever order the events
/// arrive, the watcher tells the process to end at most once; after it has
/// done so, never again.
pub proof fn lemma_exit_at_most_once(phase: WatcherPhase, events: Seq<WatcherEvent>)
    ensures
        exits_requested(phase, events) <= 1,
        phase is Exited ==> exits_requested(phase, events) == 0,
    decreases events.len(),
{
    if events.len() > 0 {
        let first = react(phase, events[0]);
        lemma_exit_at_most_once(first.phase, events.skip(1));
    }
}

/// The shutdown is begun at most once too: a watcher in its grace period, or
/// past it, begins no other.
pub proof fn lemma_no_second_shutdown(phase: WatcherPhase, event: WatcherEvent)
    ensures
        known_run_state(phase) is Stopped ==> !(react(phase, event).action is BeginShutdown),
{
}

} // verus!
