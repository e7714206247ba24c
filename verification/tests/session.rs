use glimpse_speech::error::SpeechErrorKind;
use glimpse_speech::session::{check_response_buffer, check_wav_path, BridgeSession};

#[test]
fn null_create_handle_fails_to_initialize() {
    let error = BridgeSession::from_create_result(0).expect_err("null handle must fail");
    assert_eq!(error.kind, SpeechErrorKind::Load);
    assert_eq!(error.message(), "Fluid bridge failed to initialize");
}

#[test]
fn active_session_yields_its_handle() {
    let session = BridgeSession::from_create_result(42).expect("nonzero handle creates");
    assert_eq!(session.active_handle().expect("active"), 42);
}

#[test]
fn destroy_yields_the_handle_exactly_once() {
    let mut session = BridgeSession::from_create_result(42).expect("nonzero handle creates");
    assert_eq!(session.take_for_destroy(), Some(42));
    assert_eq!(session.take_for_destroy(), None);
    assert_eq!(session.take_for_destroy(), None);
    let error = session.active_handle().expect_err("destroyed session has no handle");
    assert_eq!(error.kind, SpeechErrorKind::State);
    assert_eq!(error.message(), "Fluid bridge handle is unavailable");
}

#[test]
fn wav_paths_with_interior_nul_are_refused() {
    assert!(check_wav_path("/tmp/sound.wav").is_ok());
    let error = check_wav_path("/tmp/so\0und.wav").expect_err("embedded nul must fail");
    assert_eq!(error.kind, SpeechErrorKind::Validation);
    assert_eq!(error.message(), "wav path contains interior null bytes");
}

#[test]
fn empty_response_buffers_are_refused() {
    assert_eq!(check_response_buffer(false, 17).expect("valid buffer"), 17);
    for (null, len) in [(true, 17), (false, 0), (false, -4), (true, 0)] {
        let error = check_response_buffer(null, len).expect_err("empty response must fail");
        assert_eq!(error.kind, SpeechErrorKind::Protocol);
        assert_eq!(error.message(), "Fluid bridge returned an empty response");
    }
}
