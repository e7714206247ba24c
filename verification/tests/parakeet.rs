use glimpse_speech::engines::fluid::FluidTimestampGranularity;
use glimpse_speech::engines::parakeet::{
    map_inference_params, ParakeetInferenceParams, ParakeetModelParams, QuantizationType,
    TimestampGranularity,
};

#[test]
fn int8_constructor_sets_quantized_mode() {
    let params = ParakeetModelParams::int8();
    assert_eq!(params.quantization, QuantizationType::Int8);
}

#[test]
fn fp32_constructor_sets_full_precision_mode() {
    let params = ParakeetModelParams::fp32();
    assert_eq!(params.quantization, QuantizationType::FP32);
}

#[test]
fn int8_constructor_matches_transcribe_rs_expectation() {
    let params = ParakeetModelParams::int8();
    assert_eq!(params.quantization, QuantizationType::Int8);
}

#[test]
fn fp32_constructor_matches_transcribe_rs_expectation() {
    let params = ParakeetModelParams::fp32();
    assert_eq!(params.quantization, QuantizationType::FP32);
}

#[test]
fn quantized_constructor_keeps_requested_mode() {
    let params = ParakeetModelParams::quantized(QuantizationType::Int8);
    assert_eq!(params.quantization, QuantizationType::Int8);
    assert!(params.dylib_path.is_none());
}

#[test]
fn parakeet_granularities_map_onto_canonical_dialect() {
    for (given, expected) in [
        (TimestampGranularity::Token, FluidTimestampGranularity::WordPreferred),
        (TimestampGranularity::Word, FluidTimestampGranularity::WordPreferred),
        (TimestampGranularity::Segment, FluidTimestampGranularity::SegmentsOnly),
    ] {
        let mapped = map_inference_params(Some(ParakeetInferenceParams {
            timestamp_granularity: given,
            language: Some("en".to_string()),
            vocabulary: vec!["Word".to_string()],
        }));
        assert_eq!(mapped.timestamp_granularity, expected);
        assert_eq!(mapped.language.as_deref(), Some("en"));
        assert_eq!(mapped.vocabulary, vec!["Word".to_string()]);
    }
    let defaulted = map_inference_params(None);
    assert_eq!(
        defaulted.timestamp_granularity,
        FluidTimestampGranularity::WordPreferred
    );
    assert!(defaulted.language.is_none());
    assert!(defaulted.vocabulary.is_empty());
}
