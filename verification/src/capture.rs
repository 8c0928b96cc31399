//! The capture session: what to do next with the input device, decided from
//! where the session stands and from what the device layer just reported.
//!
//! The session never touches a device itself. Its driver performs each action
//! and hands back the event that the action produced.

use crate::run_state::RunState;
use vstd::prelude::*;

verus! {

/// How long the session waits between two looks at the run state while the
/// stream is live, in milliseconds.
pub const STOP_POLL_MILLIS: u64 = 100;

/// The sample encoding that the input device offers as its own.
#[derive(Clone, Copy, Debug, PartialEq, Eq)]
pub enum SampleEncoding {
    /// 32-bit floating point.
    F32,
    /// Signed 16-bit integers.
    I16,
    /// Unsigned 16-bit integers.
    U16,
    /// Any encoding that the meter cannot reduce.
    Other,
}

impl SampleEncoding {
    /// The encodings that the meter can reduce to a level.
    pub open spec fn supported(self) -> bool {
        self is F32 || self is I16 || self is U16
    }

    /// Whether the meter can reduce samples of this encoding.
    pub fn is_supported(self) -> (yes: bool)
        ensures
            yes == self.supported(),
    {
        match self {
            SampleEncoding::F32 => true,
            SampleEncoding::I16 => true,
            SampleEncoding::U16 => true,
            SampleEncoding::Other => false,
        }
    }
}

/// Why capture ended, or never began.
#[derive(Clone, Copy, Debug, PartialEq, Eq)]
pub enum CaptureError {
    /// There is no default input device.
    DeviceUnavailable,
    /// The device names no encoding, or none that the meter can reduce.
    FormatNegotiationFailed,
    /// The device took the format, but no running stream came of it.
    StreamBuildFailed,
    /// The live stream reported an error.
    StreamRuntimeError,
}

/// What is still to be settled before audio flows.
#[derive(Clone, Copy, Debug, PartialEq, Eq)]
pub enum NegotiationStep {
    FindDevice,
    QueryFormat,
    BuildStream,
    StartStream,
}

/// Where a capture session stands.
#[derive(Clone, Copy, Debug, PartialEq, Eq)]
pub enum CaptureState {
    /// Nothing has been asked of the device layer yet.
    Uninitialized,
    /// Device and stream are being set up; the step is the answer awaited.
    Negotiating(NegotiationStep),
    /// The stream is live and blocks arrive.
    Active,
    /// A stop was observed and the stream is being paused.
    Draining,
    /// The device is given back, or was never had. Nothing follows.
    Released,
}

/// What the device layer reports to the session.
#[derive(Clone, Copy, Debug, PartialEq, Eq)]
pub enum CaptureEvent {
    /// The session is asked to begin.
    Start,
    /// The search for the default input device ended.
    DeviceLookup { found: bool },
    /// The device named its own encoding.
    FormatOffered { encoding: SampleEncoding },
    /// The device named no configuration at all.
    FormatQueryFailed,
    /// The attempt to build the input stream ended.
    StreamBuilt { ok: bool },
    /// The attempt to start the built stream ended.
    StreamStarted { ok: bool },
    /// The live stream reported an error.
    StreamFaulted,
    /// The run state was looked at.
    RunStateObserved { run_state: RunState },
    /// The stream was asked to pause, and the call returned.
    StreamPaused,
}

/// What the session asks of its driver.
#[derive(Clone, Copy, Debug, PartialEq, Eq)]
pub enum CaptureAction {
    /// Look for the default input device; answer with `DeviceLookup`.
    FindDevice,
    /// Ask the device for its own configuration; answer with `FormatOffered`
    /// or `FormatQueryFailed`.
    QueryFormat,
    /// Build an input stream of the given encoding; answer with `StreamBuilt`.
    BuildStream { encoding: SampleEncoding },
    /// Start the stream; answer with `StreamStarted`.
    StartStream,
    /// Wait for the given time, then look at the run state; answer with
    /// `RunStateObserved`.
    ObserveRunState { after_millis: u64 },
    /// Pause the stream; answer with `StreamPaused`.
    PauseStream,
    /// Give the stream and the device back.
    ReleaseDevice,
    /// Ask the lifecycle controller for a stop, on account of the error.
    RequestStop { error: CaptureError },
    /// Nothing: the event had no meaning where the session stood.
    Ignore,
}

/// A state of the session and the action that led into it.
pub struct Transition {
    pub state: CaptureState,
    pub action: CaptureAction,
}

/// The session's rules: the state that follows `state` on `event`, and the
/// action to perform on the way.
///
/// Any failure before the stream is live ends the session at once and asks
/// for a stop. A fault of the live stream asks for a stop and leaves the
/// session active, so that the stream is still paused before the device is
/// given back. An event that does not answer the last action changes nothing.
pub open spec fn transition(state: CaptureState, event: CaptureEvent) -> Transition {
    match (state, event) {
        (CaptureState::Uninitialized, CaptureEvent::Start) => Transition {
            state: CaptureState::Negotiating(NegotiationStep::FindDevice),
            action: CaptureAction::FindDevice,
        },
        (
            CaptureState::Negotiating(NegotiationStep::FindDevice),
            CaptureEvent::DeviceLookup { found },
        ) => if found {
            Transition {
                state: CaptureState::Negotiating(NegotiationStep::QueryFormat),
                action: CaptureAction::QueryFormat,
            }
        } else {
            failed(CaptureError::DeviceUnavailable)
        },
        (
            CaptureState::Negotiating(NegotiationStep::QueryFormat),
            CaptureEvent::FormatOffered { encoding },
        ) => if encoding.supported() {
            Transition {
                state: CaptureState::Negotiating(NegotiationStep::BuildStream),
                action: CaptureAction::BuildStream { encoding },
            }
        } else {
            failed(CaptureError::FormatNegotiationFailed)
        },
        (
            CaptureState::Negotiating(NegotiationStep::QueryFormat),
            CaptureEvent::FormatQueryFailed,
        ) => failed(CaptureError::FormatNegotiationFailed),
        (
            CaptureState::Negotiating(NegotiationStep::BuildStream),
            CaptureEvent::StreamBuilt { ok },
        ) => if ok {
            Transition {
                state: CaptureState::Negotiating(NegotiationStep::StartStream),
                action: CaptureAction::StartStream,
            }
        } else {
            failed(CaptureError::StreamBuildFailed)
        },
        (
            CaptureState::Negotiating(NegotiationStep::StartStream),
            CaptureEvent::StreamStarted { ok },
        ) => if ok {
            Transition {
                state: CaptureState::Active,
                action: CaptureAction::ObserveRunState { after_millis: 0 },
            }
        } else {
            failed(CaptureError::StreamBuildFailed)
        },
        (CaptureState::Active, CaptureEvent::RunStateObserved { run_state }) => match run_state {
            RunState::Running => Transition {
                state: CaptureState::Active,
                action: CaptureAction::ObserveRunState { after_millis: STOP_POLL_MILLIS },
            },
            RunState::Stopped => Transition {
                state: CaptureState::Draining,
                action: CaptureAction::PauseStream,
            },
        },
        (CaptureState::Active, CaptureEvent::StreamFaulted) => Transition {
            state: CaptureState::Active,
            action: CaptureAction::RequestStop { error: CaptureError::StreamRuntimeError },
        },
        (CaptureState::Draining, CaptureEvent::StreamPaused) => Transition {
            state: CaptureState::Released,
            action: CaptureAction::ReleaseDevice,
        },
        _ => Transition { state, action: CaptureAction::Ignore },
    }
}

/// The end of a session that could not bring a stream to life.
pub open spec fn failed(error: CaptureError) -> Transition {
    Transition { state: CaptureState::Released, action: CaptureAction::RequestStop { error } }
}

/// How far a session has come: states are passed in this order and never
/// gone back to.
pub open spec fn progress(state: CaptureState) -> nat {
    match state {
        CaptureState::Uninitialized => 0,
        CaptureState::Negotiating(NegotiationStep::FindDevice) => 1,
        CaptureState::Negotiating(NegotiationStep::QueryFormat) => 2,
        CaptureState::Negotiating(NegotiationStep::BuildStream) => 3,
        CaptureState::Negotiating(NegotiationStep::StartStream) => 4,
        CaptureState::Active => 5,
        CaptureState::Draining => 6,
        CaptureState::Released => 7,
    }
}

/// When a delivered block is reduced and published: the session is active,
/// the meter is running, and the block holds a sample.
pub open spec fn block_admitted(state: CaptureState, run_state: RunState, block_len: nat) -> bool {
    state is Active && run_state is Running && block_len > 0
}

impl CaptureState {
    /// Whether a block of `block_len` samples, delivered while the run state
    /// is `run_state`, is to be reduced and published. A block that is not
    /// admitted is dropped and leaves the published level as it was.
    pub fn admits_block(self, run_state: RunState, block_len: usize) -> (admitted: bool)
        ensures
            admitted == block_admitted(self, run_state, block_len as nat),
    {
        match self {
            CaptureState::Active => run_state.is_running() && block_len > 0,
            _ => false,
        }
    }
}

/// How often the session asks for the given action while the events arrive
/// in the order given.
pub open spec fn times_asked(
    wanted: spec_fn(CaptureAction) -> bool,
    state: CaptureState,
    events: Seq<CaptureEvent>,
) -> nat
    decreases events.len(),
{
    if events.len() == 0 {
        0
    } else {
        let first = transition(state, events[0]);
        let here: nat = if wanted(first.action) {
            1
        } else {
            0
        };
        here + times_asked(wanted, first.state, events.skip(1))
    }
}

/// A capture session.
pub struct CaptureSession {
    state: CaptureState,
}

impl CaptureSession {
    /// Where the session stands.
    pub closed spec fn view(&self) -> CaptureState {
        self.state
    }

    /// A session of which nothing has been asked yet.
    pub fn new() -> (session: CaptureSession)
        ensures
            session@ is Uninitialized,
    {
        CaptureSession { state: CaptureState::Uninitialized }
    }

    /// Where the session stands.
    pub fn state(&self) -> (state: CaptureState)
        ensures
            state == self@,
    {
        self.state
    }

    /// Whether the session has ended.
    pub fn is_released(&self) -> (released: bool)
        ensures
            released <==> self@ is Released,
    {
        match self.state {
            CaptureState::Released => true,
            _ => false,
        }
    }

    /// Takes an event in: moves the session on as the rules say and returns
    /// the action that the driver is to perform.
    pub fn step(&mut self, event: CaptureEvent) -> (action: CaptureAction)
        ensures
            final(self)@ == transition(old(self)@, event).state,
            action == transition(old(self)@, event).action,
    {
        let (next, action) = match (self.state, event) {
            (CaptureState::Uninitialized, CaptureEvent::Start) => (
                CaptureState::Negotiating(NegotiationStep::FindDevice),
                CaptureAction::FindDevice,
            ),
            (
                CaptureState::Negotiating(NegotiationStep::FindDevice),
                CaptureEvent::DeviceLookup { found },
            ) => {
                if found {
                    (
                        CaptureState::Negotiating(NegotiationStep::QueryFormat),
                        CaptureAction::QueryFormat,
                    )
                } else {
                    Self::fail(CaptureError::DeviceUnavailable)
                }
            },
            (
                CaptureState::Negotiating(NegotiationStep::QueryFormat),
                CaptureEvent::FormatOffered { encoding },
            ) => {
                if encoding.is_supported() {
                    (
                        CaptureState::Negotiating(NegotiationStep::BuildStream),
                        CaptureAction::BuildStream { encoding },
                    )
                } else {
                    Self::fail(CaptureError::FormatNegotiationFailed)
                }
            },
            (
                CaptureState::Negotiating(NegotiationStep::QueryFormat),
                CaptureEvent::FormatQueryFailed,
            ) => Self::fail(CaptureError::FormatNegotiationFailed),
            (
                CaptureState::Negotiating(NegotiationStep::BuildStream),
                CaptureEvent::StreamBuilt { ok },
            ) => {
                if ok {
                    (
                        CaptureState::Negotiating(NegotiationStep::StartStream),
                        CaptureAction::StartStream,
                    )
                } else {
                    Self::fail(CaptureError::StreamBuildFailed)
                }
            },
            (
                CaptureState::Negotiating(NegotiationStep::StartStream),
                CaptureEvent::StreamStarted { ok },
            ) => {
                if ok {
                    (CaptureState::Active, CaptureAction::ObserveRunState { after_millis: 0 })
                } else {
                    Self::fail(CaptureError::StreamBuildFailed)
                }
            },
            (CaptureState::Active, CaptureEvent::RunStateObserved { run_state }) => {
                if run_state.is_running() {
                    (
                        CaptureState::Active,
                        CaptureAction::ObserveRunState { after_millis: STOP_POLL_MILLIS },
                    )
                } else {
                    (CaptureState::Draining, CaptureAction::PauseStream)
                }
            },
            (CaptureState::Active, CaptureEvent::StreamFaulted) => (
                CaptureState::Active,
                CaptureAction::RequestStop { error: CaptureError::StreamRuntimeError },
            ),
            (CaptureState::Draining, CaptureEvent::StreamPaused) => (
                CaptureState::Released,
                CaptureAction::ReleaseDevice,
            ),
            (state, _) => (state, CaptureAction::Ignore),
        };
        self.state = next;
        action
    }

    /// Whether the session, as it stands, admits a block of `block_len`
    /// samples delivered while the run state is `run_state`.
    pub fn admits_block(&self, run_state: RunState, block_len: usize) -> (admitted: bool)
        ensures
            admitted == block_admitted(self@, run_state, block_len as nat),
    {
        self.state.admits_block(run_state, block_len)
    }

    fn fail(error: CaptureError) -> (end: (CaptureState, CaptureAction))
        ensures
            end.0 == failed(error).state,
            end.1 == failed(error).action,
    {
        (CaptureState::Released, CaptureAction::RequestStop { error })
    }
}

/// A released session stays released and asks for nothing more.
pub proof fn lemma_released_is_terminal(event: CaptureEvent)
    ensures
        transition(CaptureState::Released, event).state is Released,
        transition(CaptureState::Released, event).action is Ignore,
{
}

/// No event takes a session back to a state that it has left.
pub proof fn lemma_session_only_advances(state: CaptureState, event: CaptureEvent)
    ensures
        progress(state) <= progress(transition(state, event).state),
{
}

/// The device is given back only by a draining session whose stream has been
/// paused, and a session drains only after it has asked for that pause.
pub proof fn lemma_pause_precedes_release(state: CaptureState, event: CaptureEvent)
    ensures
        transition(state, event).action is ReleaseDevice ==> state is Draining && event
            is StreamPaused,
        !(state is Draining) && transition(state, event).state is Draining ==> transition(
            state,
            event,
        ).action is PauseStream,
{
}

/// A session that ends without ever having had a live stream says why, and
/// every session that observes a stop while active begins to drain.
pub proof fn lemma_failures_request_stop(state: CaptureState, event: CaptureEvent)
    ensures
        state is Negotiating && transition(state, event).state is Released ==> transition(
            state,
            event,
        ).action is RequestStop,
        state is Active && event == (CaptureEvent::RunStateObserved {
            run_state: RunState::Stopped,
        }) ==> transition(state, event).state is Draining,
{
}

/// Once the meter is stopped no block is admitted, whatever the session's
/// state and the block's length; nor is one admitted outside the active state.
pub proof fn lemma_no_block_after_stop(state: CaptureState, run_state: RunState, block_len: nat)
    ensures
        run_state is Stopped ==> !block_admitted(state, run_state, block_len),
        !(state is Active) ==> !block_admitted(state, run_state, block_len),
        block_len == 0 ==> !block_admitted(state, run_state, block_len),
{
}

/// Admission ends with the stop: since a stopped meter stays stopped, a block
/// that is admitted shows that the meter was running at every earlier time.
pub proof fn lemma_admission_ends_with_stop(
    state: CaptureState,
    earlier: RunState,
    later: RunState,
    block_len: nat,
)
    requires
        earlier.may_become(later),
        block_admitted(state, later, block_len),
    ensures
        earlier is Running,
{
}

/// Over any run of events, from any state: the device is given back at most
/// once, and a session that was not yet draining has asked for the pause of
/// its stream before it gives the device back.
pub proof fn lemma_release_once_after_pause(state: CaptureState, events: Seq<CaptureEvent>)
    ensures
        times_asked(|a: CaptureAction| a is ReleaseDevice, state, events) <= 1,
        state is Released ==> times_asked(|a: CaptureAction| a is ReleaseDevice, state, events)
            == 0,
        progress(state) <= progress(CaptureState::Active) ==> times_asked(
            |a: CaptureAction| a is ReleaseDevice,
            state,
            events,
        ) <= times_asked(|a: CaptureAction| a is PauseStream, state, events),
    decreases events.len(),
{
    if events.len() > 0 {
        let first = transition(state, events[0]);
        lemma_release_once_after_pause(first.state, events.skip(1));
    }
}

} // verus!
