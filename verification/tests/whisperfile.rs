use glimpse_speech::engines::fluid::FluidTimestampGranularity;
use glimpse_speech::engines::whisperfile::{
    map_inference_params, GPUMode, WhisperfileInferenceParams, WhisperfileModelParams,
};

#[test]
fn gpu_mode_values_are_stable() {
    assert_eq!(GPUMode::Auto.as_arg(), "auto");
    assert_eq!(GPUMode::Apple.as_arg(), "apple");
    assert_eq!(GPUMode::Amd.as_arg(), "amd");
    assert_eq!(GPUMode::Nvidia.as_arg(), "nvidia");
    assert_eq!(GPUMode::Disabled.as_arg(), "disabled");
}

#[test]
fn whisperfile_model_params_default_is_local_server_shape() {
    let params = WhisperfileModelParams::default();
    assert_eq!(params.port, 8080);
    assert_eq!(params.host, "127.0.0.1");
    assert_eq!(params.startup_timeout_secs, 30);
    assert_eq!(params.gpu, GPUMode::Auto);
    assert!(params.dylib_path.is_none());
}

#[test]
fn whisperfile_params_map_onto_canonical_dialect() {
    let mapped = map_inference_params(Some(WhisperfileInferenceParams {
        language: Some("de".to_string()),
        translate: true,
        response_format: None,
        vocabulary: vec!["Term".to_string()],
    }));
    assert_eq!(mapped.language.as_deref(), Some("de"));
    assert_eq!(mapped.vocabulary, vec!["Term".to_string()]);
    assert_eq!(
        mapped.timestamp_granularity,
        FluidTimestampGranularity::WordPreferred
    );

    let defaulted = map_inference_params(None);
    assert!(defaulted.language.is_none());
    assert!(defaulted.vocabulary.is_empty());
}
