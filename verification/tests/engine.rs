use glimpse_speech::engines::fluid::{
    parse_major_version, plan_load, FluidEngine, FluidInferenceParams,
};
use glimpse_speech::error::SpeechErrorKind;
use glimpse_speech::session::BridgeSession;
use glimpse_speech::tempmedia::{unique_temp_wav_name, TempNameCounter};

#[test]
fn load_gate_rejects_other_platforms() {
    let error = plan_load(false, true, "/models", Some(15)).expect_err("not macOS");
    assert_eq!(error.kind, SpeechErrorKind::Platform);
    assert_eq!(error.message(), "Fluid engine is only supported on macOS");
}

#[test]
fn load_gate_requires_existing_model_directory() {
    let error = plan_load(true, false, "/models/missing", Some(15)).expect_err("missing dir");
    assert_eq!(error.kind, SpeechErrorKind::Validation);
    assert_eq!(error.message(), "Model directory not found: /models/missing");
}

#[test]
fn load_gate_requires_detectable_version_of_at_least_minimum() {
    let error = plan_load(true, true, "/models", None).expect_err("undetectable version");
    assert_eq!(error.kind, SpeechErrorKind::Platform);
    assert_eq!(error.message(), "failed to determine macOS version");

    let error = plan_load(true, true, "/models", Some(13)).expect_err("too old");
    assert_eq!(error.kind, SpeechErrorKind::Platform);
    assert_eq!(error.message(), "Fluid engine requires macOS 14+, found macOS 13");

    assert_eq!(plan_load(true, true, "/models", Some(14)).expect("minimum version"), 14);
    assert_eq!(plan_load(true, true, "/models", Some(26)).expect("newer version"), 26);
}

#[test]
fn transcription_is_refused_before_load() {
    let engine = FluidEngine::new();
    let error = engine
        .plan_transcribe_file("/tmp/a.wav", true, &FluidInferenceParams::default())
        .expect_err("nothing loaded");
    assert_eq!(error.kind, SpeechErrorKind::State);
    assert_eq!(error.message(), "Model not loaded. Call load_model() first.");

    let error = engine.require_loaded().expect_err("nothing loaded");
    assert_eq!(error.message(), "Model not loaded. Call load_model() first.");
}

#[test]
fn loaded_engine_plans_the_foreign_call() {
    let mut engine = FluidEngine::new();
    let session = BridgeSession::from_create_result(7).expect("handle");
    engine.complete_load("/models".to_string(), session);
    assert!(engine.require_loaded().is_ok());

    let (handle, request) = engine
        .plan_transcribe_file("/tmp/a.wav", true, &FluidInferenceParams::default())
        .expect("planned");
    assert_eq!(handle, 7);
    assert_eq!(
        request,
        r#"{"schema_version":1,"language_hint":null,"vocabulary":[],"timestamps":"word_preferred"}"#
    );

    let error = engine
        .plan_transcribe_file("/tmp/missing.wav", false, &FluidInferenceParams::default())
        .expect_err("file missing");
    assert_eq!(error.kind, SpeechErrorKind::Validation);
    assert_eq!(error.message(), "Audio file not found: /tmp/missing.wav");

    let error = engine
        .plan_transcribe_file("/tmp/a\0.wav", true, &FluidInferenceParams::default())
        .expect_err("embedded nul");
    assert_eq!(error.message(), "wav path contains interior null bytes");
}

#[test]
fn unload_yields_the_destroy_handle_exactly_once() {
    let mut engine = FluidEngine::new();
    assert_eq!(engine.unload_model(), None);

    let session = BridgeSession::from_create_result(9).expect("handle");
    engine.complete_load("/models".to_string(), session);
    assert_eq!(engine.unload_model(), Some(9));
    assert_eq!(engine.unload_model(), None);
    assert!(engine.require_loaded().is_err());
}

#[test]
fn version_strings_parse_to_their_major_component() {
    assert_eq!(parse_major_version("14.5\n"), Some(14));
    assert_eq!(parse_major_version("26"), Some(26));
    assert_eq!(parse_major_version("  13.6.1  "), Some(13));
    assert_eq!(parse_major_version(""), None);
    assert_eq!(parse_major_version(".5"), None);
    assert_eq!(parse_major_version("beta.1"), None);
    assert_eq!(parse_major_version("4294967295.0"), Some(4294967295));
    assert_eq!(parse_major_version("4294967296.0"), None);
    assert_eq!(parse_major_version("99999999999999999999.1"), None);
    assert_eq!(parse_major_version("+13.2"), Some(13));
    assert_eq!(parse_major_version("+"), None);
    assert_eq!(parse_major_version("++3"), None);
    assert_eq!(parse_major_version("-13.2"), None);
}

#[test]
fn temp_wav_names_combine_timestamp_and_counter() {
    assert_eq!(unique_temp_wav_name(5, 123), "glimpse-speech-fluid-123-5.wav");
    assert_eq!(
        unique_temp_wav_name(0, 1700000000000000000),
        "glimpse-speech-fluid-1700000000000000000-0.wav"
    );

    let mut counter = TempNameCounter::new();
    let a = counter.next();
    let b = counter.next();
    assert_eq!((a, b), (0, 1));
    assert_ne!(unique_temp_wav_name(a, 42), unique_temp_wav_name(b, 42));
}
