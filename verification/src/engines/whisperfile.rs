//! The second façade dialect: a compatibility surface whose knobs mostly
//! have no canonical meaning (GPU selection, server host/port, translate).
//! They are accepted for API compatibility, deliberately ignored, and never
//! reach the wire; only language and vocabulary cross over.

use vstd::prelude::*;

use crate::engines::fluid::{FluidInferenceParams, FluidTimestampGranularity};

verus! {

/// GPU selection in this dialect; a no-op knob for the bridge.
#[derive(Clone, Copy, Debug, PartialEq, Eq, Structural)]
pub enum GPUMode {
    Auto,
    Apple,
    Amd,
    Nvidia,
    Disabled,
}

impl Default for GPUMode {
    fn default() -> (r: Self)
        ensures
            r == GPUMode::Auto,
    {
        GPUMode::Auto
    }
}

impl GPUMode {
    /// The exact command-line token each mode is spelled as.
    pub open spec fn arg_spec(self) -> Seq<char> {
        match self {
            GPUMode::Auto => "auto"@,
            GPUMode::Apple => "apple"@,
            GPUMode::Amd => "amd"@,
            GPUMode::Nvidia => "nvidia"@,
            GPUMode::Disabled => "disabled"@,
        }
    }

    pub fn as_arg(&self) -> (r: &'static str)
        ensures
            r@ == self.arg_spec(),
    {
        match self {
            GPUMode::Auto => "auto",
            GPUMode::Apple => "apple",
            GPUMode::Amd => "amd",
            GPUMode::Nvidia => "nvidia",
            GPUMode::Disabled => "disabled",
        }
    }
}

/// Model-load parameters of this dialect.
#[derive(Clone, Debug)]
pub struct WhisperfileModelParams {
    pub port: u16,
    pub host: String,
    pub startup_timeout_secs: u64,
    pub gpu: GPUMode,
    pub diarization_model_dir: Option<String>,
    pub dylib_path: Option<String>,
    pub runtime_macos_major: Option<u32>,
}

impl Default for WhisperfileModelParams {
    fn default() -> (r: Self)
        ensures
            r.port == 8080,
            r.host@ == "127.0.0.1"@,
            r.startup_timeout_secs == 30,
            r.gpu == GPUMode::Auto,
            r.diarization_model_dir is None,
            r.dylib_path is None,
            r.runtime_macos_major is None,
    {
        let mut host = String::new();
        host.append("127.0.0.1");
        WhisperfileModelParams {
            port: 8080,
            host,
            startup_timeout_secs: 30,
            gpu: GPUMode::Auto,
            diarization_model_dir: None,
            dylib_path: None,
            runtime_macos_major: None,
        }
    }
}

/// Per-call inference parameters of this dialect. The `translate` flag and
/// the response format are accepted for compatibility and ignored.
#[derive(Clone, Debug)]
pub struct WhisperfileInferenceParams {
    pub language: Option<String>,
    pub translate: bool,
    pub response_format: Option<String>,
    pub vocabulary: Vec<String>,
}

impl Default for WhisperfileInferenceParams {
    fn default() -> (r: Self)
        ensures
            r.language is None,
            !r.translate,
            r.response_format matches Some(f) && f@ == "verbose_json"@,
            r.vocabulary@ =~= Seq::<String>::empty(),
    {
        let mut response_format = String::new();
        response_format.append("verbose_json");
        WhisperfileInferenceParams {
            language: None,
            translate: false,
            response_format: Some(response_format),
            vocabulary: Vec::new(),
        }
    }
}

/// Translate this dialect's parameters into the canonical shape: language
/// and vocabulary pass through; every other knob is dropped here and the
/// granularity is always word-preferred.
pub fn map_inference_params(params: Option<WhisperfileInferenceParams>) -> (r:
    FluidInferenceParams)
    ensures
        (match params {
            Some(p) => {
                &&& r.language == p.language
                &&& r.vocabulary@ == p.vocabulary@
            },
            None => {
                &&& r.language is None
                &&& r.vocabulary@ =~= Seq::<String>::empty()
            },
        }),
        r.timestamp_granularity == FluidTimestampGranularity::WordPreferred,
{
    let p = match params {
        Some(p) => p,
        None => Default::default(),
    };
    FluidInferenceParams {
        language: p.language,
        vocabulary: p.vocabulary,
        timestamp_granularity: FluidTimestampGranularity::WordPreferred,
    }
}

} // verus!
