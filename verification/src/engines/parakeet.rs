//! The first façade dialect: its own granularity and quantization
//! vocabulary, translated deterministically and totally onto the canonical
//! bridge dialect. The quantization knob has no canonical representation:
//! it is accepted and deliberately ignored, and never reaches the wire.

use vstd::prelude::*;

use crate::engines::fluid::{FluidInferenceParams, FluidTimestampGranularity};

verus! {

/// Granularity in this dialect.
#[derive(Clone, Copy, Debug, PartialEq, Eq, Structural)]
pub enum TimestampGranularity {
    Token,
    Word,
    Segment,
}

impl Default for TimestampGranularity {
    fn default() -> (r: Self)
        ensures
            r == TimestampGranularity::Token,
    {
        TimestampGranularity::Token
    }
}

/// Model quantization in this dialect; a no-op knob for the bridge.
#[derive(Clone, Copy, Debug, PartialEq, Eq, Structural)]
pub enum QuantizationType {
    FP32,
    Int8,
}

impl Default for QuantizationType {
    fn default() -> (r: Self)
        ensures
            r == QuantizationType::FP32,
    {
        QuantizationType::FP32
    }
}

/// Model-load parameters of this dialect.
#[derive(Clone, Debug)]
pub struct ParakeetModelParams {
    pub quantization: QuantizationType,
    pub diarization_model_dir: Option<String>,
    pub dylib_path: Option<String>,
    pub runtime_macos_major: Option<u32>,
}

impl Default for ParakeetModelParams {
    fn default() -> (r: Self)
        ensures
            r.quantization == QuantizationType::FP32,
            r.diarization_model_dir is None,
            r.dylib_path is None,
            r.runtime_macos_major is None,
    {
        ParakeetModelParams {
            quantization: QuantizationType::FP32,
            diarization_model_dir: None,
            dylib_path: None,
            runtime_macos_major: None,
        }
    }
}

impl ParakeetModelParams {
    /// Full-precision weights, all other knobs default.
    pub fn fp32() -> (r: Self)
        ensures
            r.quantization == QuantizationType::FP32,
            r.diarization_model_dir is None,
            r.dylib_path is None,
            r.runtime_macos_major is None,
    {
        ParakeetModelParams { quantization: QuantizationType::FP32, ..Default::default() }
    }

    /// Int8-quantized weights, all other knobs default.
    pub fn int8() -> (r: Self)
        ensures
            r.quantization == QuantizationType::Int8,
            r.diarization_model_dir is None,
            r.dylib_path is None,
            r.runtime_macos_major is None,
    {
        ParakeetModelParams { quantization: QuantizationType::Int8, ..Default::default() }
    }

    /// The given quantization, all other knobs default.
    pub fn quantized(quantization: QuantizationType) -> (r: Self)
        ensures
            r.quantization == quantization,
            r.diarization_model_dir is None,
            r.dylib_path is None,
            r.runtime_macos_major is None,
    {
        ParakeetModelParams { quantization, ..Default::default() }
    }
}

/// Per-call inference parameters of this dialect.
#[derive(Clone, Debug)]
pub struct ParakeetInferenceParams {
    pub timestamp_granularity: TimestampGranularity,
    pub language: Option<String>,
    pub vocabulary: Vec<String>,
}

impl Default for ParakeetInferenceParams {
    fn default() -> (r: Self)
        ensures
            r.timestamp_granularity == TimestampGranularity::Token,
            r.language is None,
            r.vocabulary@ =~= Seq::<String>::empty(),
    {
        ParakeetInferenceParams {
            timestamp_granularity: TimestampGranularity::Token,
            language: None,
            vocabulary: Vec::new(),
        }
    }
}

/// How this dialect's granularity lands on the canonical one: `Segment`
/// keeps segment timing only; `Token` and `Word` both prefer word timing.
pub open spec fn granularity_to_fluid(g: TimestampGranularity) -> FluidTimestampGranularity {
    match g {
        TimestampGranularity::Segment => FluidTimestampGranularity::SegmentsOnly,
        TimestampGranularity::Token => FluidTimestampGranularity::WordPreferred,
        TimestampGranularity::Word => FluidTimestampGranularity::WordPreferred,
    }
}

/// Translate this dialect's parameters into the canonical shape: total and
/// deterministic; language and vocabulary pass through unchanged; absent
/// parameters become the dialect's defaults.
pub fn map_inference_params(params: Option<ParakeetInferenceParams>) -> (r: FluidInferenceParams)
    ensures
        (match params {
            Some(p) => {
                &&& r.language == p.language
                &&& r.vocabulary@ == p.vocabulary@
                &&& r.timestamp_granularity == granularity_to_fluid(p.timestamp_granularity)
            },
            None => {
                &&& r.language is None
                &&& r.vocabulary@ =~= Seq::<String>::empty()
                &&& r.timestamp_granularity == FluidTimestampGranularity::WordPreferred
            },
        }),
{
    let p = match params {
        Some(p) => p,
        None => Default::default(),
    };
    let timestamp_granularity = match p.timestamp_granularity {
        TimestampGranularity::Segment => FluidTimestampGranularity::SegmentsOnly,
        TimestampGranularity::Token => FluidTimestampGranularity::WordPreferred,
        TimestampGranularity::Word => FluidTimestampGranularity::WordPreferred,
    };
    FluidInferenceParams { language: p.language, vocabulary: p.vocabulary, timestamp_granularity }
}

} // verus!
