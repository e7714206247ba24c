//! The canonical bridge dialect: the parameter shapes that cross the wire,
//! and the load-time platform gate. The other façades translate their own
//! dialects into these shapes.

use vstd::prelude::*;

use crate::error::{SpeechError, SpeechErrorKind, SpeechErrorModel};
use crate::session::{check_wav_path, has_interior_nul, BridgeSession};
use crate::text::{
    all_digits, dec_spec, dec_u64, digits_value, is_digit, lemma_digits_value_monotone, trim,
    trim_spec,
};
use crate::wire::{encode_transcribe_request, transcribe_request_spec, views_of};

verus! {

/// Timestamp granularity on the canonical wire contract.
#[derive(Clone, Copy, Debug, PartialEq, Eq, Structural)]
pub enum FluidTimestampGranularity {
    WordPreferred,
    SegmentsOnly,
}

impl Default for FluidTimestampGranularity {
    fn default() -> (r: Self)
        ensures
            r == FluidTimestampGranularity::WordPreferred,
    {
        FluidTimestampGranularity::WordPreferred
    }
}

impl FluidTimestampGranularity {
    /// The exact token this granularity is spelled as on the wire.
    pub open spec fn wire_value_spec(self) -> Seq<char> {
        match self {
            FluidTimestampGranularity::WordPreferred => "word_preferred"@,
            FluidTimestampGranularity::SegmentsOnly => "segments_only"@,
        }
    }

    pub fn as_wire_value(self) -> (r: &'static str)
        ensures
            r@ == self.wire_value_spec(),
    {
        match self {
            FluidTimestampGranularity::WordPreferred => "word_preferred",
            FluidTimestampGranularity::SegmentsOnly => "segments_only",
        }
    }
}

/// Model-load parameters of the canonical dialect. Paths are carried as
/// plain strings; the unverified shell owns filesystem access.
#[derive(Clone, Debug)]
pub struct FluidModelParams {
    pub diarization_model_dir: Option<String>,
    pub dylib_path: Option<String>,
    pub runtime_macos_major: Option<u32>,
}

impl Default for FluidModelParams {
    fn default() -> (r: Self)
        ensures
            r.diarization_model_dir is None,
            r.dylib_path is None,
            r.runtime_macos_major is None,
    {
        FluidModelParams { diarization_model_dir: None, dylib_path: None, runtime_macos_major: None }
    }
}

/// Per-call inference parameters of the canonical dialect.
#[derive(Clone, Debug)]
pub struct FluidInferenceParams {
    pub language: Option<String>,
    pub vocabulary: Vec<String>,
    pub timestamp_granularity: FluidTimestampGranularity,
}

impl Default for FluidInferenceParams {
    fn default() -> (r: Self)
        ensures
            r.language is None,
            r.vocabulary@ =~= Seq::<String>::empty(),
            r.timestamp_granularity == FluidTimestampGranularity::WordPreferred,
    {
        FluidInferenceParams {
            language: None,
            vocabulary: Vec::new(),
            timestamp_granularity: FluidTimestampGranularity::WordPreferred,
        }
    }
}

/// The minimum OS major version the bridge supports.
pub const MIN_MACOS_MAJOR: u32 = 14;

/// The outcome of the load-time platform and model-directory gate, checked
/// before any library load is attempted: not on the supported OS; model
/// directory missing; OS version undetectable; OS version below the
/// minimum; or the effective major version on success.
pub open spec fn plan_load_spec(
    os_is_macos: bool,
    model_path_exists: bool,
    model_path: Seq<char>,
    runtime_macos_major: Option<u32>,
) -> Result<u32, SpeechErrorModel> {
    if !os_is_macos {
        Err(SpeechError::model(
            SpeechErrorKind::Platform,
            "Fluid engine is only supported on macOS"@,
        ))
    } else if !model_path_exists {
        Err(SpeechError::model(
            SpeechErrorKind::Validation,
            "Model directory not found: "@ + model_path,
        ))
    } else if runtime_macos_major is None {
        Err(SpeechError::model(
            SpeechErrorKind::Platform,
            "failed to determine macOS version"@,
        ))
    } else if runtime_macos_major->0 < MIN_MACOS_MAJOR {
        Err(SpeechError::model(
            SpeechErrorKind::Platform,
            "Fluid engine requires macOS 14+, found macOS "@ + dec_spec(runtime_macos_major->0 as nat),
        ))
    } else {
        Ok(runtime_macos_major->0)
    }
}

/// Run the load-time gate: the platform must be macOS of at least the
/// minimum major version and the model directory must exist, else the call
/// fails before any library is loaded. `runtime_macos_major` is the
/// caller-provided override merged with the detected version.
pub fn plan_load(
    os_is_macos: bool,
    model_path_exists: bool,
    model_path: &str,
    runtime_macos_major: Option<u32>,
) -> (r: Result<u32, SpeechError>)
    ensures
        (match r {
            Ok(v) => Ok::<u32, SpeechErrorModel>(v),
            Err(e) => Err(e@),
        }) == plan_load_spec(os_is_macos, model_path_exists, model_path@, runtime_macos_major),
{
    if !os_is_macos {
        let mut m = String::new();
        m.append("Fluid engine is only supported on macOS");
        Err(SpeechError::new(SpeechErrorKind::Platform, m))
    } else if !model_path_exists {
        let mut m = String::new();
        m.append("Model directory not found: ");
        m.append(model_path);
        Err(SpeechError::new(SpeechErrorKind::Validation, m))
    } else {
        match runtime_macos_major {
            None => {
                let mut m = String::new();
                m.append("failed to determine macOS version");
                Err(SpeechError::new(SpeechErrorKind::Platform, m))
            },
            Some(major) => {
                if major < MIN_MACOS_MAJOR {
                    let mut m = String::new();
                    m.append("Fluid engine requires macOS 14+, found macOS ");
                    m.append(dec_u64(major as u64).as_str());
                    Err(SpeechError::new(SpeechErrorKind::Platform, m))
                } else {
                    Ok(major)
                }
            },
        }
    }
}

/// The index of the first dot in a version string, or the length when
/// there is none.
pub open spec fn first_dot_at(s: Seq<char>) -> int
    decreases s.len(),
{
    if s.len() == 0 {
        0
    } else if s[0] == '.' {
        0
    } else {
        1 + first_dot_at(s.drop_first())
    }
}

proof fn lemma_first_dot_at(s: Seq<char>, i: int)
    requires
        0 <= i <= s.len(),
        forall|k: int| 0 <= k < i ==> s[k] != '.',
        i < s.len() ==> s[i] == '.',
    ensures
        first_dot_at(s) == i,
    decreases i,
{
    if i == 0 {
    } else {
        let t = s.drop_first();
        assert(forall|k: int| 0 <= k < i - 1 ==> #[trigger] t[k] != '.');
        assert(i - 1 < t.len() ==> t[i - 1] == '.');
        lemma_first_dot_at(t, i - 1);
    }
}

/// The digit part of a version component: an optional leading `+` sign
/// is accepted, as Rust's unsigned parsing accepts it.
pub open spec fn digits_of_component(comp: Seq<char>) -> Seq<char> {
    if comp.len() > 0 && comp[0] == '+' {
        comp.drop_first()
    } else {
        comp
    }
}

/// What parsing a decimal number yields: the digits' value, or absent
/// when the sequence is empty, not all digits, or too large.
pub open spec fn parse_u32_digits_spec(d: Seq<char>) -> Option<u32> {
    if d.len() > 0 && all_digits(d) && digits_value(d) <= u32::MAX {
        Some(digits_value(d) as u32)
    } else {
        None
    }
}

/// What parsing an OS version string yields: the component before the
/// first dot of the trimmed string, read as a decimal number with an
/// optional leading `+`; absent when the digit part is empty, not all
/// digits, or too large.
pub open spec fn parse_major_spec(s: Seq<char>) -> Option<u32> {
    let t = trim_spec(s);
    parse_u32_digits_spec(digits_of_component(t.take(first_dot_at(t))))
}

fn parse_u32_digits(d: &str) -> (r: Option<u32>)
    ensures
        r == parse_u32_digits_spec(d@),
{
    let n = d.unicode_len();
    if n == 0 {
        return None;
    }
    let mut value: u32 = 0;
    let mut j: usize = 0;
    while j < n
        invariant
            0 <= j <= n,
            n == d@.len(),
            all_digits(d@.take(j as int)),
            value == digits_value(d@.take(j as int)),
        decreases n - j,
    {
        let c = d.get_char(j);
        let cv = c as u32;
        if cv < 48 || cv > 57 {
            proof {
                assert(!is_digit(d@[j as int]));
                assert(!all_digits(d@));
            }
            return None;
        }
        let dig = cv - 48;
        proof {
            assert(d@.take(j + 1).drop_last() =~= d@.take(j as int));
            assert(d@.take(j + 1).last() == d@[j as int]);
            assert(all_digits(d@.take(j + 1)));
            assert(digits_value(d@.take(j + 1)) == value * 10 + dig);
        }
        if value > (u32::MAX - dig) / 10 {
            proof {
                assert(value * 10 + dig > u32::MAX) by (nonlinear_arith)
                    requires
                        value > (u32::MAX - dig) / 10,
                        dig <= 9,
                ;
                if all_digits(d@) {
                    lemma_digits_value_monotone(d@, j + 1);
                    assert(digits_value(d@) > u32::MAX);
                }
            }
            return None;
        }
        proof {
            assert(value * 10 + dig <= u32::MAX) by (nonlinear_arith)
                requires
                    value <= (u32::MAX - dig) / 10,
                    dig <= 9,
            ;
        }
        value = value * 10 + dig;
        j = j + 1;
    }
    proof {
        assert(d@.take(n as int) =~= d@);
    }
    Some(value)
}

/// Parse the major component out of an OS version string such as one a
/// version probe reports.
pub fn parse_major_version(s: &str) -> (r: Option<u32>)
    ensures
        r == parse_major_spec(s@),
{
    let t = trim(s);
    let ts = t.as_str();
    let n = ts.unicode_len();
    let mut i: usize = 0;
    while i < n && ts.get_char(i) != '.'
        invariant
            0 <= i <= n,
            n == ts@.len(),
            forall|k: int| 0 <= k < i ==> ts@[k] != '.',
        decreases n - i,
    {
        i = i + 1;
    }
    proof {
        lemma_first_dot_at(ts@, i as int);
    }
    let start: usize = if i > 0 && ts.get_char(0) == '+' {
        1
    } else {
        0
    };
    let digits = ts.substring_char(start, i);
    proof {
        let comp = ts@.take(i as int);
        if comp.len() > 0 && comp[0] == '+' {
            assert(digits@ =~= comp.drop_first());
        } else {
            assert(digits@ =~= comp);
        }
        assert(digits@ == digits_of_component(comp));
    }
    parse_u32_digits(digits)
}

/// The canonical engine state: whether a model is loaded, and the bridge
/// session owning the native handle when one is. The foreign calls
/// themselves happen outside the library; this type decides what may be
/// asked of them and with which bytes.
pub struct FluidEngine {
    loaded_model_path: Option<String>,
    session: Option<BridgeSession>,
}

impl FluidEngine {
    /// Whether a model is currently loaded.
    pub closed spec fn is_loaded(&self) -> bool {
        self.session is Some
    }

    /// The loaded model path, when one is loaded.
    pub closed spec fn loaded_path_spec(&self) -> Option<Seq<char>> {
        match self.loaded_model_path {
            None => None,
            Some(p) => Some(p@),
        }
    }

    /// Whether the owned session is still active.
    pub closed spec fn session_active(&self) -> bool {
        match self.session {
            Some(s) => s.is_active(),
            None => false,
        }
    }

    /// The owned session's handle; zero when none is owned.
    pub closed spec fn session_handle(&self) -> u64 {
        match self.session {
            Some(s) => s.handle_spec(),
            None => 0,
        }
    }

    /// A fresh engine with nothing loaded.
    pub fn new() -> (r: Self)
        ensures
            !r.is_loaded(),
            !r.session_active(),
            r.loaded_path_spec() is None,
    {
        FluidEngine { loaded_model_path: None, session: None }
    }

    /// Record a completed load: the engine now owns the session. A
    /// previous session must have been unloaded first — its handle would
    /// otherwise never be destroyed.
    pub fn complete_load(&mut self, model_path: String, session: BridgeSession)
        requires
            !old(self).is_loaded(),
        ensures
            final(self).is_loaded(),
            final(self).loaded_path_spec() == Some(model_path@),
            final(self).session_active() == session.is_active(),
            final(self).session_handle() == session.handle_spec(),
    {
        self.loaded_model_path = Some(model_path);
        self.session = Some(session);
    }

    /// Demand that a model is loaded before any transcription is planned.
    pub fn require_loaded(&self) -> (r: Result<(), SpeechError>)
        ensures
            r is Ok <==> self.is_loaded(),
            r matches Err(e) ==> e@ == SpeechError::model(
                SpeechErrorKind::State,
                "Model not loaded. Call load_model() first."@,
            ),
    {
        if self.session.is_some() {
            Ok(())
        } else {
            let mut m = String::new();
            m.append("Model not loaded. Call load_model() first.");
            Err(SpeechError::new(SpeechErrorKind::State, m))
        }
    }

    /// Unload the model. Yields the handle the caller must pass to the
    /// foreign destroy entry, exactly once per session: absent when
    /// nothing was loaded or the session was already destroyed, so a
    /// second unload is a no-op that yields nothing.
    pub fn unload_model(&mut self) -> (r: Option<u64>)
        ensures
            !final(self).is_loaded(),
            !final(self).session_active(),
            final(self).loaded_path_spec() is None,
            old(self).session_active() ==> (r matches Some(h) && h == old(self).session_handle()
                && h != 0),
            !old(self).session_active() ==> r is None,
    {
        self.loaded_model_path = None;
        let mut session = None;
        core::mem::swap(&mut session, &mut self.session);
        match session {
            None => None,
            Some(mut s) => s.take_for_destroy(),
        }
    }

    /// Plan one file transcription: what the foreign transcribe entry is
    /// to be called with, or why it must not be called.
    pub fn plan_transcribe_file(
        &self,
        wav_path: &str,
        wav_path_exists: bool,
        params: &FluidInferenceParams,
    ) -> (r: Result<(u64, String), SpeechError>)
        ensures
            (match r {
                Ok(p) => Ok::<(u64, Seq<char>), SpeechErrorModel>((p.0, p.1@)),
                Err(e) => Err(e@),
            }) == plan_transcribe_spec(
                self.is_loaded(),
                self.session_active(),
                self.session_handle(),
                wav_path@,
                wav_path_exists,
                match params.language {
                    None => None,
                    Some(l) => Some(l@),
                },
                views_of(params.vocabulary@),
                params.timestamp_granularity,
            ),
    {
        let session = match &self.session {
            Some(s) => s,
            None => {
                let mut m = String::new();
                m.append("Model not loaded. Call load_model() first.");
                return Err(SpeechError::new(SpeechErrorKind::State, m));
            },
        };
        if !wav_path_exists {
            let mut m = String::new();
            m.append("Audio file not found: ");
            m.append(wav_path);
            return Err(SpeechError::new(SpeechErrorKind::Validation, m));
        }
        match check_wav_path(wav_path) {
            Ok(u) => u,
            Err(e) => { return Err(e); },
        };
        let handle = match session.active_handle() {
            Ok(h) => h,
            Err(e) => { return Err(e); },
        };
        let request = encode_transcribe_request(params);
        Ok((handle, request))
    }
}

/// What planning one file transcription returns: the call is refused
/// before the foreign boundary when no model is loaded, the audio file is
/// missing, the path cannot cross as a C string, or the session is no
/// longer active; otherwise the handle and the encoded request.
pub open spec fn plan_transcribe_spec(
    loaded: bool,
    session_active: bool,
    session_handle: u64,
    wav_path: Seq<char>,
    wav_path_exists: bool,
    language: Option<Seq<char>>,
    vocabulary: Seq<Seq<char>>,
    granularity: FluidTimestampGranularity,
) -> Result<(u64, Seq<char>), SpeechErrorModel> {
    if !loaded {
        Err(
            SpeechError::model(
                SpeechErrorKind::State,
                "Model not loaded. Call load_model() first."@,
            ),
        )
    } else if !wav_path_exists {
        Err(
            SpeechError::model(SpeechErrorKind::Validation, "Audio file not found: "@ + wav_path),
        )
    } else if has_interior_nul(wav_path) {
        Err(
            SpeechError::model(
                SpeechErrorKind::Validation,
                "wav path contains interior null bytes"@,
            ),
        )
    } else if !session_active {
        Err(
            SpeechError::model(SpeechErrorKind::State, "Fluid bridge handle is unavailable"@),
        )
    } else {
        Ok((session_handle, transcribe_request_spec(language, vocabulary, granularity)))
    }
}

} // verus!
