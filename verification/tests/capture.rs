use level_meter::capture::{
    CaptureAction, CaptureError, CaptureEvent, CaptureSession, CaptureState, NegotiationStep,
    SampleEncoding, STOP_POLL_MILLIS,
};
use level_meter::run_state::RunState;

fn live_session(encoding: SampleEncoding) -> CaptureSession {
    let mut session = CaptureSession::new();
    session.step(CaptureEvent::Start);
    session.step(CaptureEvent::DeviceLookup { found: true });
    session.step(CaptureEvent::FormatOffered { encoding });
    session.step(CaptureEvent::StreamBuilt { ok: true });
    session.step(CaptureEvent::StreamStarted { ok: true });
    session
}

#[test]
fn new_session_is_uninitialized() {
    let session = CaptureSession::new();
    assert_eq!(session.state(), CaptureState::Uninitialized);
    assert!(!session.is_released());
}

#[test]
fn session_walks_through_every_state() {
    let mut session = CaptureSession::new();
    assert_eq!(session.step(CaptureEvent::Start), CaptureAction::FindDevice);
    assert_eq!(session.state(), CaptureState::Negotiating(NegotiationStep::FindDevice));
    assert_eq!(
        session.step(CaptureEvent::DeviceLookup { found: true }),
        CaptureAction::QueryFormat
    );
    assert_eq!(session.state(), CaptureState::Negotiating(NegotiationStep::QueryFormat));
    assert_eq!(
        session.step(CaptureEvent::FormatOffered { encoding: SampleEncoding::I16 }),
        CaptureAction::BuildStream { encoding: SampleEncoding::I16 }
    );
    assert_eq!(session.state(), CaptureState::Negotiating(NegotiationStep::BuildStream));
    assert_eq!(session.step(CaptureEvent::StreamBuilt { ok: true }), CaptureAction::StartStream);
    assert_eq!(session.state(), CaptureState::Negotiating(NegotiationStep::StartStream));
    assert_eq!(
        session.step(CaptureEvent::StreamStarted { ok: true }),
        CaptureAction::ObserveRunState { after_millis: 0 }
    );
    assert_eq!(session.state(), CaptureState::Active);
    assert_eq!(
        session.step(CaptureEvent::RunStateObserved { run_state: RunState::Running }),
        CaptureAction::ObserveRunState { after_millis: 100 }
    );
    assert_eq!(session.state(), CaptureState::Active);
    assert_eq!(
        session.step(CaptureEvent::RunStateObserved { run_state: RunState::Stopped }),
        CaptureAction::PauseStream
    );
    assert_eq!(session.state(), CaptureState::Draining);
    assert_eq!(session.step(CaptureEvent::StreamPaused), CaptureAction::ReleaseDevice);
    assert_eq!(session.state(), CaptureState::Released);
    assert!(session.is_released());
}

#[test]
fn stop_poll_interval_is_a_tenth_of_a_second() {
    assert_eq!(STOP_POLL_MILLIS, 100);
}

#[test]
fn every_supported_encoding_is_built() {
    for encoding in [SampleEncoding::F32, SampleEncoding::I16, SampleEncoding::U16] {
        assert!(encoding.is_supported());
        let mut session = CaptureSession::new();
        session.step(CaptureEvent::Start);
        session.step(CaptureEvent::DeviceLookup { found: true });
        assert_eq!(
            session.step(CaptureEvent::FormatOffered { encoding }),
            CaptureAction::BuildStream { encoding }
        );
    }
    assert!(!SampleEncoding::Other.is_supported());
}

#[test]
fn missing_device_ends_the_session() {
    let mut session = CaptureSession::new();
    session.step(CaptureEvent::Start);
    assert_eq!(
        session.step(CaptureEvent::DeviceLookup { found: false }),
        CaptureAction::RequestStop { error: CaptureError::DeviceUnavailable }
    );
    assert_eq!(session.state(), CaptureState::Released);
}

#[test]
fn unsupported_encoding_ends_the_session() {
    let mut session = CaptureSession::new();
    session.step(CaptureEvent::Start);
    session.step(CaptureEvent::DeviceLookup { found: true });
    assert_eq!(
        session.step(CaptureEvent::FormatOffered { encoding: SampleEncoding::Other }),
        CaptureAction::RequestStop { error: CaptureError::FormatNegotiationFailed }
    );
    assert_eq!(session.state(), CaptureState::Released);
}

#[test]
fn failed_format_query_ends_the_session() {
    let mut session = CaptureSession::new();
    session.step(CaptureEvent::Start);
    session.step(CaptureEvent::DeviceLookup { found: true });
    assert_eq!(
        session.step(CaptureEvent::FormatQueryFailed),
        CaptureAction::RequestStop { error: CaptureError::FormatNegotiationFailed }
    );
    assert!(session.is_released());
}

#[test]
fn failed_stream_build_ends_the_session() {
    let mut session = CaptureSession::new();
    session.step(CaptureEvent::Start);
    session.step(CaptureEvent::DeviceLookup { found: true });
    session.step(CaptureEvent::FormatOffered { encoding: SampleEncoding::F32 });
    assert_eq!(
        session.step(CaptureEvent::StreamBuilt { ok: false }),
        CaptureAction::RequestStop { error: CaptureError::StreamBuildFailed }
    );
    assert!(session.is_released());
}

#[test]
fn stream_that_does_not_start_ends_the_session() {
    let mut session = CaptureSession::new();
    session.step(CaptureEvent::Start);
    session.step(CaptureEvent::DeviceLookup { found: true });
    session.step(CaptureEvent::FormatOffered { encoding: SampleEncoding::U16 });
    session.step(CaptureEvent::StreamBuilt { ok: true });
    assert_eq!(
        session.step(CaptureEvent::StreamStarted { ok: false }),
        CaptureAction::RequestStop { error: CaptureError::StreamBuildFailed }
    );
    assert!(session.is_released());
}

#[test]
fn fault_of_the_live_stream_asks_for_a_stop_and_then_drains() {
    let mut session = live_session(SampleEncoding::F32);
    assert_eq!(
        session.step(CaptureEvent::StreamFaulted),
        CaptureAction::RequestStop { error: CaptureError::StreamRuntimeError }
    );
    assert_eq!(session.state(), CaptureState::Active);
    assert_eq!(
        session.step(CaptureEvent::RunStateObserved { run_state: RunState::Stopped }),
        CaptureAction::PauseStream
    );
    assert_eq!(session.step(CaptureEvent::StreamPaused), CaptureAction::ReleaseDevice);
    assert!(session.is_released());
}

#[test]
fn released_session_ignores_everything() {
    let mut session = live_session(SampleEncoding::F32);
    session.step(CaptureEvent::RunStateObserved { run_state: RunState::Stopped });
    session.step(CaptureEvent::StreamPaused);
    let events = [
        CaptureEvent::Start,
        CaptureEvent::DeviceLookup { found: true },
        CaptureEvent::FormatOffered { encoding: SampleEncoding::F32 },
        CaptureEvent::FormatQueryFailed,
        CaptureEvent::StreamBuilt { ok: true },
        CaptureEvent::StreamStarted { ok: true },
        CaptureEvent::StreamFaulted,
        CaptureEvent::RunStateObserved { run_state: RunState::Running },
        CaptureEvent::StreamPaused,
    ];
    for event in events {
        assert_eq!(session.step(event), CaptureAction::Ignore);
        assert_eq!(session.state(), CaptureState::Released);
    }
}

#[test]
fn out_of_turn_events_change_nothing() {
    let mut session = CaptureSession::new();
    assert_eq!(session.step(CaptureEvent::StreamPaused), CaptureAction::Ignore);
    assert_eq!(session.step(CaptureEvent::DeviceLookup { found: false }), CaptureAction::Ignore);
    assert_eq!(session.state(), CaptureState::Uninitialized);
    session.step(CaptureEvent::Start);
    assert_eq!(session.step(CaptureEvent::Start), CaptureAction::Ignore);
    assert_eq!(session.step(CaptureEvent::StreamBuilt { ok: false }), CaptureAction::Ignore);
    assert_eq!(session.state(), CaptureState::Negotiating(NegotiationStep::FindDevice));
    let mut live = live_session(SampleEncoding::I16);
    assert_eq!(live.step(CaptureEvent::StreamPaused), CaptureAction::Ignore);
    assert_eq!(live.state(), CaptureState::Active);
}

#[test]
fn device_is_released_only_after_the_pause() {
    let mut session = live_session(SampleEncoding::F32);
    let mut asked = Vec::new();
    asked.push(session.step(CaptureEvent::StreamPaused));
    asked.push(session.step(CaptureEvent::RunStateObserved { run_state: RunState::Stopped }));
    asked.push(session.step(CaptureEvent::RunStateObserved { run_state: RunState::Stopped }));
    asked.push(session.step(CaptureEvent::StreamPaused));
    asked.push(session.step(CaptureEvent::StreamPaused));
    assert_eq!(
        asked,
        vec![
            CaptureAction::Ignore,
            CaptureAction::PauseStream,
            CaptureAction::Ignore,
            CaptureAction::ReleaseDevice,
            CaptureAction::Ignore,
        ]
    );
}

#[test]
fn blocks_are_admitted_only_while_active_and_running() {
    let session = live_session(SampleEncoding::F32);
    assert!(session.admits_block(RunState::Running, 512));
    assert!(session.admits_block(RunState::Running, 1));
    assert!(!session.admits_block(RunState::Stopped, 512));
    assert!(!session.admits_block(RunState::Running, 0));
    assert!(!session.admits_block(RunState::Stopped, 0));
}

#[test]
fn no_block_is_admitted_outside_the_active_state() {
    let states = [
        CaptureState::Uninitialized,
        CaptureState::Negotiating(NegotiationStep::FindDevice),
        CaptureState::Negotiating(NegotiationStep::QueryFormat),
        CaptureState::Negotiating(NegotiationStep::BuildStream),
        CaptureState::Negotiating(NegotiationStep::StartStream),
        CaptureState::Draining,
        CaptureState::Released,
    ];
    for state in states {
        assert!(!state.admits_block(RunState::Running, 256));
        assert!(!state.admits_block(RunState::Stopped, 256));
    }
    assert!(CaptureState::Active.admits_block(RunState::Running, 256));
    assert!(!CaptureState::Active.admits_block(RunState::Stopped, 256));
    assert!(!CaptureState::Active.admits_block(RunState::Running, 0));
}

#[test]
fn draining_session_admits_no_block() {
    let mut session = live_session(SampleEncoding::U16);
    session.step(CaptureEvent::RunStateObserved { run_state: RunState::Stopped });
    assert!(!session.admits_block(RunState::Running, 64));
    assert!(!session.admits_block(RunState::Stopped, 64));
}
