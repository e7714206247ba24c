//! The audio validation contract: the bridge accepts exactly one WAV shape
//! (mono, 16000 Hz, 16 bits per sample, integer samples). Any deviation is
//! rejected with a message naming the offending field and the value found;
//! nothing is ever resampled or coerced.

use vstd::prelude::*;

use crate::error::{SpeechError, SpeechErrorKind, SpeechErrorModel};
use crate::text::{dec_spec, dec_u64};

verus! {

/// The sample rate the bridge accepts.
pub const REQUIRED_SAMPLE_RATE: u32 = 16000;

/// The header fields of a WAV container that the validator reads.
#[derive(Clone, Copy, Debug, PartialEq, Eq, Structural)]
pub struct WavFormat {
    pub channels: u16,
    pub sample_rate: u32,
    pub bits_per_sample: u16,
    /// True when the samples are integers, false when they are floats.
    pub sample_format_is_int: bool,
}

/// Whether a WAV header meets the one accepted shape.
pub open spec fn wav_format_ok(f: WavFormat) -> bool {
    f.channels == 1 && f.sample_rate == 16000 && f.bits_per_sample == 16
        && f.sample_format_is_int
}

/// The message given for the first field that deviates, in the order the
/// fields are checked: channels, sample rate, bits per sample, format.
pub open spec fn wav_format_error_spec(f: WavFormat) -> SpeechErrorModel {
    if f.channels != 1 {
        SpeechError::model(
            SpeechErrorKind::Validation,
            "Expected 1 channel, found "@ + dec_spec(f.channels as nat),
        )
    } else if f.sample_rate != 16000 {
        SpeechError::model(
            SpeechErrorKind::Validation,
            "Expected 16000 Hz sample rate, found "@ + dec_spec(f.sample_rate as nat) + " Hz"@,
        )
    } else if f.bits_per_sample != 16 {
        SpeechError::model(
            SpeechErrorKind::Validation,
            "Expected 16 bits per sample, found "@ + dec_spec(f.bits_per_sample as nat),
        )
    } else {
        SpeechError::model(
            SpeechErrorKind::Validation,
            "Expected Int sample format, found Float"@,
        )
    }
}

/// Enforce the exact PCM contract on a WAV header: succeeds if and only if
/// the header is mono, 16000 Hz, 16-bit, integer; otherwise the error names
/// the first offending field and the value found.
pub fn validate_wav_format(f: &WavFormat) -> (r: Result<(), SpeechError>)
    ensures
        r is Ok <==> wav_format_ok(*f),
        r matches Err(e) ==> e@ == wav_format_error_spec(*f),
{
    if f.channels != 1 {
        let mut m = String::new();
        m.append("Expected 1 channel, found ");
        m.append(dec_u64(f.channels as u64).as_str());
        Err(SpeechError::new(SpeechErrorKind::Validation, m))
    } else if f.sample_rate != REQUIRED_SAMPLE_RATE {
        let mut m = String::new();
        m.append("Expected 16000 Hz sample rate, found ");
        m.append(dec_u64(f.sample_rate as u64).as_str());
        m.append(" Hz");
        Err(SpeechError::new(SpeechErrorKind::Validation, m))
    } else if f.bits_per_sample != 16 {
        let mut m = String::new();
        m.append("Expected 16 bits per sample, found ");
        m.append(dec_u64(f.bits_per_sample as u64).as_str());
        Err(SpeechError::new(SpeechErrorKind::Validation, m))
    } else if !f.sample_format_is_int {
        let mut m = String::new();
        m.append("Expected Int sample format, found Float");
        Err(SpeechError::new(SpeechErrorKind::Validation, m))
    } else {
        Ok(())
    }
}

} // verus!
