use glimpse_speech::audio::{validate_wav_format, WavFormat};
use glimpse_speech::error::SpeechErrorKind;

fn format(channels: u16, sample_rate: u32, bits_per_sample: u16, is_int: bool) -> WavFormat {
    WavFormat { channels, sample_rate, bits_per_sample, sample_format_is_int: is_int }
}

#[test]
fn accepts_exact_pcm_contract() {
    assert!(validate_wav_format(&format(1, 16000, 16, true)).is_ok());
}

#[test]
fn rejects_non_16khz_format_naming_expected_rate() {
    let error = validate_wav_format(&format(1, 8000, 16, true)).expect_err("8kHz input must fail");
    assert!(error.message().contains("16000"));
    assert_eq!(error.message(), "Expected 16000 Hz sample rate, found 8000 Hz");
    assert_eq!(error.kind, SpeechErrorKind::Validation);
}

#[test]
fn rejects_stereo_format_naming_channels() {
    let error = validate_wav_format(&format(2, 16000, 16, true)).expect_err("stereo must fail");
    assert!(error.message().contains("channel"));
    assert_eq!(error.message(), "Expected 1 channel, found 2");
}

#[test]
fn rejects_8bit_format_naming_bits() {
    let error = validate_wav_format(&format(1, 16000, 8, true)).expect_err("8-bit must fail");
    assert!(error.message().contains("bits"));
    assert_eq!(error.message(), "Expected 16 bits per sample, found 8");
}

#[test]
fn rejects_float_sample_format() {
    let error = validate_wav_format(&format(1, 16000, 16, false)).expect_err("float must fail");
    assert_eq!(error.message(), "Expected Int sample format, found Float");
}

#[test]
fn first_offending_field_wins() {
    let error = validate_wav_format(&format(2, 8000, 8, false)).expect_err("must fail");
    assert_eq!(error.message(), "Expected 1 channel, found 2");
}
