//! One uniform transcription interface over several speech-recognition
//! backends, centered on a native bridge protocol: schema-versioned wire
//! envelopes, parameter-dialect adaptation, session-handle lifecycle, and
//! strict audio validation. The verified library holds every decision and
//! every byte of wire framing; the unverified shell around it only performs
//! I/O and the foreign calls themselves.

pub mod audio;
pub mod engines;
pub mod envelope;
pub mod error;
pub mod resolve;
pub mod session;
pub mod tempmedia;
pub mod text;
pub mod transcript;
pub mod wire;
