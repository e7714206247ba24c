use glimpse_speech::engines::fluid::FluidTimestampGranularity;
use glimpse_speech::envelope::decode_transcribe_response;
use glimpse_speech::error::SpeechErrorKind;
use glimpse_speech::transcript::TranscriptSegment;

#[test]
fn timestamp_granularity_wire_values_are_stable() {
    assert_eq!(
        FluidTimestampGranularity::WordPreferred.as_wire_value(),
        "word_preferred"
    );
    assert_eq!(
        FluidTimestampGranularity::SegmentsOnly.as_wire_value(),
        "segments_only"
    );
}

#[test]
fn parses_success_envelope() {
    let json = br#"{"schema_version":1,"ok":true,"data":{"text":"hello","segments":[{"start_ms":0,"end_ms":500,"text":"hello"}]},"error":null}"#;
    let result = decode_transcribe_response(json).expect("valid envelope should parse");

    assert_eq!(result.text, "hello");
    assert_eq!(
        result.segments,
        Some(vec![TranscriptSegment {
            start_ms: 0,
            end_ms: 500,
            text: "hello".to_string(),
        }])
    );
    let seg = &result.segments.as_ref().unwrap()[0];
    assert_eq!(seg.start_ms as f32 / 1000.0, 0.0);
    assert_eq!(seg.end_ms as f32 / 1000.0, 0.5);
}

#[test]
fn reports_bridge_error_payload() {
    let json = br#"{"schema_version":1,"ok":false,"data":null,"error":{"code":"unsupported_platform","message":"macOS 13 is unsupported"}}"#;
    let error = decode_transcribe_response(json).expect_err("bridge error should map to error");

    assert!(error.message().contains("unsupported_platform"));
    assert_eq!(error.kind, SpeechErrorKind::Native);
    assert_eq!(error.message(), "unsupported_platform: macOS 13 is unsupported");
}

#[test]
fn decoding_same_bytes_twice_is_idempotent() {
    let json = br#"{"schema_version":1,"ok":true,"data":{"text":"","segments":[{"start_ms":10,"end_ms":40,"text":" a "},{"start_ms":50,"end_ms":50,"text":"b"}]}}"#;
    let first = decode_transcribe_response(json);
    let second = decode_transcribe_response(json);
    assert_eq!(first, second);

    let bad = br#"{"schema_version":7}"#;
    let first_err = decode_transcribe_response(bad).unwrap_err();
    let second_err = decode_transcribe_response(bad).unwrap_err();
    assert_eq!(first_err.message(), second_err.message());
    assert_eq!(first_err.kind, second_err.kind);
}

#[test]
fn schema_mismatch_is_always_fatal() {
    let ok_payload = br#"{"schema_version":2,"ok":true,"data":{"text":"hello","segments":[]},"error":null}"#;
    let error = decode_transcribe_response(ok_payload).expect_err("wrong version must fail");
    assert_eq!(error.kind, SpeechErrorKind::Protocol);
    assert_eq!(
        error.message(),
        "Fluid bridge schema mismatch: expected 1, got 2"
    );

    let failed_payload = br#"{"schema_version":0,"ok":false,"error":{"code":"x","message":"y"}}"#;
    let error = decode_transcribe_response(failed_payload).expect_err("wrong version must fail");
    assert_eq!(
        error.message(),
        "Fluid bridge schema mismatch: expected 1, got 0"
    );
}

#[test]
fn failed_envelope_without_error_payload_is_protocol_error() {
    let json = br#"{"schema_version":1,"ok":false,"data":null,"error":null}"#;
    let error = decode_transcribe_response(json).expect_err("must fail");
    assert_eq!(error.kind, SpeechErrorKind::Protocol);
    assert_eq!(error.message(), "Fluid transcribe failed without error payload");
}

#[test]
fn ok_envelope_without_data_is_protocol_error() {
    let json = br#"{"schema_version":1,"ok":true,"data":null,"error":null}"#;
    let error = decode_transcribe_response(json).expect_err("must fail");
    assert_eq!(error.kind, SpeechErrorKind::Protocol);
    assert_eq!(error.message(), "Fluid transcribe succeeded without payload");
}

#[test]
fn malformed_envelope_reports_bounded_preview() {
    let error = decode_transcribe_response(b"not json at all").expect_err("must fail");
    assert_eq!(error.kind, SpeechErrorKind::Protocol);
    assert_eq!(
        error.message(),
        "failed to decode Fluid transcribe envelope; payload_preview=not json at all"
    );

    let long = vec![b'x'; 500];
    let error = decode_transcribe_response(&long).expect_err("must fail");
    let expected_preview: String = "x".repeat(240) + "...";
    assert!(error.message().ends_with(&expected_preview));
}

#[test]
fn malformed_payload_is_protocol_error() {
    let json = br#"{"schema_version":1,"ok":true,"data":{"text":"hello"},"error":null}"#;
    let error = decode_transcribe_response(json).expect_err("missing segments must fail");
    assert_eq!(error.kind, SpeechErrorKind::Protocol);
    assert_eq!(error.message(), "failed to decode Fluid transcribe payload");

    let json = br#"{"schema_version":1,"ok":true,"data":{"text":"hello","segments":[{"start_ms":-5,"end_ms":10,"text":"x"}]}}"#;
    let error = decode_transcribe_response(json).expect_err("negative start must fail");
    assert_eq!(error.message(), "failed to decode Fluid transcribe payload");
}

#[test]
fn dropped_segments_and_empty_text_yield_empty_result() {
    let json = br#"{"schema_version":1,"ok":true,"data":{"text":"","segments":[{"start_ms":500,"end_ms":500,"text":"late"},{"start_ms":10,"end_ms":40,"text":"   "}]}}"#;
    let result = decode_transcribe_response(json).expect("envelope is valid");
    assert_eq!(result.text, "");
    assert!(result.segments.is_none());
}

#[test]
fn surviving_segments_synthesize_missing_text() {
    let json = br#"{"schema_version":1,"ok":true,"data":{"text":"  ","segments":[{"start_ms":0,"end_ms":200,"text":" one "},{"start_ms":100,"end_ms":100,"text":"dropped"},{"start_ms":200,"end_ms":400,"text":"two"}]}}"#;
    let result = decode_transcribe_response(json).expect("envelope is valid");
    assert_eq!(result.text, "one\ntwo");
    let segments = result.segments.expect("two segments survive");
    assert_eq!(segments.len(), 2);
    assert_eq!(segments[0].text, "one");
    assert_eq!(segments[1].start_ms, 200);
}
