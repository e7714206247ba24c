use glimpse_speech::engines::fluid::{FluidInferenceParams, FluidTimestampGranularity};
use glimpse_speech::wire::{
    encode_config_request, encode_transcribe_request, normalize_language_hint,
    normalize_vocabulary, preview_payload,
};

#[test]
fn vocabulary_normalizes_case_insensitively_keeping_first_casing() {
    let values = vec![
        "Foo".to_string(),
        " foo ".to_string(),
        "Bar".to_string(),
        "".to_string(),
    ];
    assert_eq!(
        normalize_vocabulary(&values),
        vec!["Foo".to_string(), "Bar".to_string()]
    );
}

#[test]
fn vocabulary_trims_entries_and_drops_blanks() {
    let values = vec!["  spaced  ".to_string(), "   ".to_string(), "spaced".to_string()];
    assert_eq!(normalize_vocabulary(&values), vec!["spaced".to_string()]);
}

#[test]
fn trimming_covers_unicode_whitespace() {
    let values = vec![
        "\u{00a0}padded\u{2003}".to_string(),
        "\u{00a0}\u{3000}".to_string(),
        "padded".to_string(),
    ];
    assert_eq!(normalize_vocabulary(&values), vec!["padded".to_string()]);
    assert_eq!(
        normalize_language_hint(Some("\u{00a0}EN\u{00a0}")).as_deref(),
        Some("en")
    );
}

#[test]
fn language_hint_takes_lowercased_primary_subtag() {
    assert_eq!(normalize_language_hint(Some("en-US")).as_deref(), Some("en"));
    assert_eq!(normalize_language_hint(Some("   ")), None);
    assert_eq!(normalize_language_hint(Some("FR_ca")).as_deref(), Some("fr"));
    assert_eq!(normalize_language_hint(None), None);
    assert_eq!(normalize_language_hint(Some("-US")), None);
    assert_eq!(normalize_language_hint(Some(" de ")).as_deref(), Some("de"));
}

#[test]
fn config_request_encodes_fixed_shape() {
    let encoded = encode_config_request("/models/asr", None, 14);
    assert_eq!(
        encoded,
        r#"{"schema_version":1,"asr_model_dir":"/models/asr","diarization_model_dir":null,"runtime_macos_major":14}"#
    );

    let encoded = encode_config_request("/models/asr", Some("/models/diar"), 15);
    assert_eq!(
        encoded,
        r#"{"schema_version":1,"asr_model_dir":"/models/asr","diarization_model_dir":"/models/diar","runtime_macos_major":15}"#
    );
}

#[test]
fn transcribe_request_normalizes_before_encoding() {
    let params = FluidInferenceParams {
        language: Some("en-US".to_string()),
        vocabulary: vec!["Foo".to_string(), " foo ".to_string(), "Bar".to_string()],
        timestamp_granularity: FluidTimestampGranularity::SegmentsOnly,
    };
    let encoded = encode_transcribe_request(&params);
    assert_eq!(
        encoded,
        r#"{"schema_version":1,"language_hint":"en","vocabulary":["Foo","Bar"],"timestamps":"segments_only"}"#
    );
}

#[test]
fn transcribe_request_with_defaults_sends_null_hint_and_empty_vocabulary() {
    let params = FluidInferenceParams::default();
    let encoded = encode_transcribe_request(&params);
    assert_eq!(
        encoded,
        r#"{"schema_version":1,"language_hint":null,"vocabulary":[],"timestamps":"word_preferred"}"#
    );
}

#[test]
fn encoded_strings_escape_quotes_backslashes_and_controls() {
    let params = FluidInferenceParams {
        language: None,
        vocabulary: vec!["a\"b".to_string(), "c\\d".to_string(), "e\nf".to_string()],
        timestamp_granularity: FluidTimestampGranularity::WordPreferred,
    };
    let encoded = encode_transcribe_request(&params);
    assert_eq!(
        encoded,
        "{\"schema_version\":1,\"language_hint\":null,\"vocabulary\":[\"a\\\"b\",\"c\\\\d\",\"e\\u000af\"],\"timestamps\":\"word_preferred\"}"
    );
    let round_trip: serde_json::Value = serde_json::from_str(&encoded).expect("encoder emits JSON");
    assert_eq!(round_trip["vocabulary"][2], serde_json::Value::String("e\nf".to_string()));
}

#[test]
fn preview_is_identity_below_the_bound_and_truncates_above() {
    assert_eq!(preview_payload(b"short payload"), "short payload");
    let long = vec![b'y'; 241];
    assert_eq!(preview_payload(&long), "y".repeat(240) + "...");
    assert_eq!(preview_payload(&[0xff, 0xfe]), "\u{fffd}\u{fffd}");
}
