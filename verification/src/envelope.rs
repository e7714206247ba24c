//! Decoding of the schema-versioned response envelope. The raw bytes are
//! parsed by serde_json behind a handful of trusted wrappers; everything
//! the envelope means — the version gate, the ok/error/data rules, the
//! typed transcript payload — is decided here, in verified code, against a
//! mathematical model of the parsed JSON.

use vstd::prelude::*;

use crate::error::{SpeechError, SpeechErrorKind, SpeechErrorModel};
use crate::text::{dec_spec, dec_u64};
use crate::transcript::{
    assemble_spec, assemble_transcript, segment_views, SegmentModel, Transcript, TranscriptModel,
    TranscriptSegment,
};
use crate::wire::{preview_payload, preview_spec, BRIDGE_SCHEMA_VERSION};

verus! {

/// A JSON value, as this library models what serde_json parsed: the
/// contents of a `serde_json::Value` are opaque to the verifier, so
/// `json_model` names them as one of these.
pub enum Jv {
    Null,
    Bool(bool),
    /// A number representable as an unsigned 64-bit integer.
    UInt(u64),
    /// Any other number: negative, fractional, or out of range.
    OtherNum,
    Str(Seq<char>),
    Arr(Seq<Jv>),
    Obj(Map<Seq<char>, Jv>),
}

#[verifier::external_type_specification]
#[verifier::external_body]
pub struct ExValue(serde_json::Value);

/// The JSON data a `serde_json::Value` holds.
pub uninterp spec fn json_model(v: serde_json::Value) -> Jv;

/// What `serde_json::from_slice::<Value>` returns on given bytes: absent
/// when the bytes are not one well-formed JSON document.
pub uninterp spec fn json_parse_of(bytes: Seq<u8>) -> Option<Jv>;

/// Relies on `serde_json::from_slice::<Value>`: parsing JSON bytes into a
/// `Value` is a pure function of the bytes, failing exactly on input that
/// is not one well-formed JSON document.
#[verifier::external_body]
fn parse_json(bytes: &[u8]) -> (r: Option<serde_json::Value>)
    ensures
        r is Some <==> json_parse_of(bytes@) is Some,
        r matches Some(v) ==> json_parse_of(bytes@) == Some(json_model(v)),
{
    serde_json::from_slice::<serde_json::Value>(bytes).ok()
}

/// Relies on `serde_json::Value::get` with a string index: on an object it
/// looks the key up; on every other value it returns `None`.
#[verifier::external_body]
fn json_get<'a>(v: &'a serde_json::Value, key: &str) -> (r: Option<&'a serde_json::Value>)
    ensures
        (match json_model(*v) {
            Jv::Obj(m) => {
                &&& r is Some <==> m.contains_key(key@)
                &&& (r matches Some(x) ==> json_model(*x) == m[key@])
            },
            _ => r is None,
        }),
{
    v.get(key)
}

/// Relies on `serde_json::Value::as_u64`: the number when the value is an
/// integer representable as u64, `None` otherwise.
#[verifier::external_body]
fn json_as_u64(v: &serde_json::Value) -> (r: Option<u64>)
    ensures
        r == (match json_model(*v) {
            Jv::UInt(n) => Some(n),
            _ => None,
        }),
{
    v.as_u64()
}

/// Relies on `serde_json::Value::as_bool`: the boolean when the value is
/// one, `None` otherwise.
#[verifier::external_body]
fn json_as_bool(v: &serde_json::Value) -> (r: Option<bool>)
    ensures
        r == (match json_model(*v) {
            Jv::Bool(b) => Some(b),
            _ => None,
        }),
{
    v.as_bool()
}

/// Relies on `serde_json::Value::as_str`: the string when the value is
/// one, `None` otherwise.
#[verifier::external_body]
fn json_as_str(v: &serde_json::Value) -> (r: Option<&str>)
    ensures
        (match json_model(*v) {
            Jv::Str(cs) => r matches Some(s) && s@ == cs,
            _ => r is None,
        }),
{
    v.as_str()
}

/// Relies on `serde_json::Value::as_array`: the element vector when the
/// value is an array, `None` otherwise.
#[verifier::external_body]
fn json_as_array(v: &serde_json::Value) -> (r: Option<&Vec<serde_json::Value>>)
    ensures
        (match json_model(*v) {
            Jv::Arr(elems) => r matches Some(a) && a@.len() == elems.len() && (forall|i: int|
                0 <= i < elems.len() ==> json_model(#[trigger] a@[i]) == elems[i]),
            _ => r is None,
        }),
{
    v.as_array()
}

/// Relies on `serde_json::Value::is_null`.
#[verifier::external_body]
fn json_is_null(v: &serde_json::Value) -> (r: bool)
    ensures
        r == (json_model(*v) is Null),
{
    v.is_null()
}

/// The models of a vector of parsed values.
pub open spec fn models_of(vs: Seq<serde_json::Value>) -> Seq<Jv> {
    vs.map_values(|v: serde_json::Value| json_model(v))
}

/// The structured error a failed envelope must carry.
pub struct ErrorPayloadModel {
    pub code: Seq<char>,
    pub message: Seq<char>,
}

/// The generic envelope every response decodes as first.
pub struct EnvelopeModel {
    pub version: u64,
    pub ok: bool,
    pub error: Option<ErrorPayloadModel>,
    pub data: Option<Jv>,
}

/// The error payload read out of a JSON value: an object with string
/// fields `code` and `message`, anything else being malformed.
pub open spec fn error_payload_of(j: Jv) -> Option<ErrorPayloadModel> {
    match j {
        Jv::Obj(m) => {
            if m.contains_key("code"@) && m.contains_key("message"@) {
                match (m["code"@], m["message"@]) {
                    (Jv::Str(c), Jv::Str(msg)) => Some(ErrorPayloadModel { code: c, message: msg }),
                    _ => None,
                }
            } else {
                None
            }
        },
        _ => None,
    }
}

/// The generic envelope read out of a JSON value: an object with an
/// integer `schema_version` and a boolean `ok`; `data` and `error` each
/// count as absent when missing or null; a present `error` must be a
/// well-formed error payload. Anything else is malformed.
pub open spec fn envelope_of(j: Jv) -> Option<EnvelopeModel> {
    match j {
        Jv::Obj(m) => {
            if !m.contains_key("schema_version"@) {
                None
            } else {
                match m["schema_version"@] {
                    Jv::UInt(version) => {
                        if !m.contains_key("ok"@) {
                            None
                        } else {
                            match m["ok"@] {
                                Jv::Bool(ok) => {
                                    let data = if m.contains_key("data"@) && !(m["data"@] is Null) {
                                        Some(m["data"@])
                                    } else {
                                        None
                                    };
                                    if m.contains_key("error"@) && !(m["error"@] is Null) {
                                        match error_payload_of(m["error"@]) {
                                            Some(e) => Some(
                                                EnvelopeModel { version, ok, error: Some(e), data },
                                            ),
                                            None => None,
                                        }
                                    } else {
                                        Some(EnvelopeModel { version, ok, error: None, data })
                                    }
                                },
                                _ => None,
                            }
                        }
                    },
                    _ => None,
                }
            }
        },
        _ => None,
    }
}

/// One timed segment read out of a JSON value: an object with integer
/// `start_ms` and `end_ms` and a string `text`.
pub open spec fn segment_of(j: Jv) -> Option<SegmentModel> {
    match j {
        Jv::Obj(m) => {
            if m.contains_key("start_ms"@) && m.contains_key("end_ms"@) && m.contains_key(
                "text"@,
            ) {
                match (m["start_ms"@], m["end_ms"@], m["text"@]) {
                    (Jv::UInt(s), Jv::UInt(e), Jv::Str(t)) => Some(
                        SegmentModel { start_ms: s, end_ms: e, text: t },
                    ),
                    _ => None,
                }
            } else {
                None
            }
        },
        _ => None,
    }
}

/// All segments of the payload's array, in order; absent as soon as one
/// element is malformed.
pub open spec fn segments_of(elems: Seq<Jv>) -> Option<Seq<SegmentModel>>
    decreases elems.len(),
{
    if elems.len() == 0 {
        Some(Seq::empty())
    } else {
        match segments_of(elems.drop_last()) {
            None => None,
            Some(prev) => match segment_of(elems.last()) {
                None => None,
                Some(s) => Some(prev.push(s)),
            },
        }
    }
}

proof fn lemma_segments_of_bad(elems: Seq<Jv>, i: int)
    requires
        0 <= i < elems.len(),
        segment_of(elems[i]) is None,
    ensures
        segments_of(elems) is None,
    decreases elems.len(),
{
    if elems.len() - 1 == i {
    } else {
        let t = elems.drop_last();
        assert(t[i] == elems[i]);
        lemma_segments_of_bad(t, i);
    }
}

/// The typed transcript payload read out of the `data` value: an object
/// with a string `text` and an array `segments` of well-formed segments.
pub open spec fn payload_of(j: Jv) -> Option<(Seq<char>, Seq<SegmentModel>)> {
    match j {
        Jv::Obj(m) => {
            if m.contains_key("text"@) && m.contains_key("segments"@) {
                match (m["text"@], m["segments"@]) {
                    (Jv::Str(t), Jv::Arr(elems)) => match segments_of(elems) {
                        None => None,
                        Some(ss) => Some((t, ss)),
                    },
                    _ => None,
                }
            } else {
                None
            }
        },
        _ => None,
    }
}

/// The diagnostic for bytes that are not a well-formed envelope.
pub open spec fn malformed_envelope_msg(bytes: Seq<u8>) -> Seq<char> {
    "failed to decode Fluid transcribe envelope; payload_preview="@ + preview_spec(bytes)
}

/// The diagnostic for a response carrying the wrong schema version.
pub open spec fn schema_mismatch_msg(got: u64) -> Seq<char> {
    "Fluid bridge schema mismatch: expected "@ + dec_spec(BRIDGE_SCHEMA_VERSION as nat)
        + ", got "@ + dec_spec(got as nat)
}

/// The surfaced form of a structured bridge error.
pub open spec fn native_error_msg(code: Seq<char>, message: Seq<char>) -> Seq<char> {
    code + ": "@ + message
}

/// What decoding a transcribe response returns, as a function of the raw
/// bytes alone: parse, gate on the schema version, then require an error
/// payload on failure or a data payload on success, and assemble the
/// transcript from the typed payload.
pub open spec fn decode_transcribe_spec(bytes: Seq<u8>) -> Result<
    TranscriptModel,
    SpeechErrorModel,
> {
    match json_parse_of(bytes) {
        None => Err(
            SpeechError::model(SpeechErrorKind::Protocol, malformed_envelope_msg(bytes)),
        ),
        Some(j) => match envelope_of(j) {
            None => Err(
                SpeechError::model(SpeechErrorKind::Protocol, malformed_envelope_msg(bytes)),
            ),
            Some(env) => {
                if env.version != BRIDGE_SCHEMA_VERSION {
                    Err(
                        SpeechError::model(
                            SpeechErrorKind::Protocol,
                            schema_mismatch_msg(env.version),
                        ),
                    )
                } else if !env.ok {
                    match env.error {
                        None => Err(
                            SpeechError::model(
                                SpeechErrorKind::Protocol,
                                "Fluid transcribe failed without error payload"@,
                            ),
                        ),
                        Some(e) => Err(
                            SpeechError::model(
                                SpeechErrorKind::Native,
                                native_error_msg(e.code, e.message),
                            ),
                        ),
                    }
                } else {
                    match env.data {
                        None => Err(
                            SpeechError::model(
                                SpeechErrorKind::Protocol,
                                "Fluid transcribe succeeded without payload"@,
                            ),
                        ),
                        Some(d) => match payload_of(d) {
                            None => Err(
                                SpeechError::model(
                                    SpeechErrorKind::Protocol,
                                    "failed to decode Fluid transcribe payload"@,
                                ),
                            ),
                            Some(p) => Ok(assemble_spec(p.0, p.1)),
                        },
                    }
                }
            },
        },
    }
}

/// The model of a decode result.
pub open spec fn decode_result_model(r: Result<Transcript, SpeechError>) -> Result<
    TranscriptModel,
    SpeechErrorModel,
> {
    match r {
        Ok(t) => Ok(t@),
        Err(e) => Err(e@),
    }
}

fn malformed_envelope_error(bytes: &[u8]) -> (r: SpeechError)
    ensures
        r@ == SpeechError::model(SpeechErrorKind::Protocol, malformed_envelope_msg(bytes@)),
{
    let mut m = String::new();
    m.append("failed to decode Fluid transcribe envelope; payload_preview=");
    let p = preview_payload(bytes);
    m.append(p.as_str());
    SpeechError::new(SpeechErrorKind::Protocol, m)
}

fn read_error_payload(v: &serde_json::Value) -> (r: Option<(String, String)>)
    ensures
        (match error_payload_of(json_model(*v)) {
            Some(e) => r matches Some(p) && p.0@ == e.code && p.1@ == e.message,
            None => r is None,
        }),
{
    let code_v = match json_get(v, "code") {
        Some(x) => x,
        None => { return None; },
    };
    let message_v = match json_get(v, "message") {
        Some(x) => x,
        None => { return None; },
    };
    let code = match json_as_str(code_v) {
        Some(s) => s,
        None => { return None; },
    };
    let message = match json_as_str(message_v) {
        Some(s) => s,
        None => { return None; },
    };
    Some((code.to_owned(), message.to_owned()))
}

fn read_segment(v: &serde_json::Value) -> (r: Option<TranscriptSegment>)
    ensures
        (match segment_of(json_model(*v)) {
            Some(sm) => r matches Some(s) && s@ == sm,
            None => r is None,
        }),
{
    let start_v = match json_get(v, "start_ms") {
        Some(x) => x,
        None => { return None; },
    };
    let end_v = match json_get(v, "end_ms") {
        Some(x) => x,
        None => { return None; },
    };
    let text_v = match json_get(v, "text") {
        Some(x) => x,
        None => { return None; },
    };
    let start_ms = match json_as_u64(start_v) {
        Some(n) => n,
        None => { return None; },
    };
    let end_ms = match json_as_u64(end_v) {
        Some(n) => n,
        None => { return None; },
    };
    let text = match json_as_str(text_v) {
        Some(s) => s,
        None => { return None; },
    };
    Some(TranscriptSegment { start_ms, end_ms, text: text.to_owned() })
}

fn read_segments(arr: &Vec<serde_json::Value>) -> (r: Option<Vec<TranscriptSegment>>)
    ensures
        (match segments_of(models_of(arr@)) {
            Some(ss) => r matches Some(v) && segment_views(v@) == ss,
            None => r is None,
        }),
{
    let ghost elems = models_of(arr@);
    let mut out: Vec<TranscriptSegment> = Vec::new();
    let n = arr.len();
    let mut i: usize = 0;
    while i < n
        invariant
            0 <= i <= n,
            n == arr@.len(),
            elems == models_of(arr@),
            segments_of(elems.take(i as int)) matches Some(ss) && ss == segment_views(out@),
        decreases n - i,
    {
        proof {
            assert(elems[i as int] == json_model(arr@[i as int]));
        }
        let seg = match read_segment(&arr[i]) {
            Some(s) => s,
            None => {
                proof {
                    lemma_segments_of_bad(elems, i as int);
                }
                return None;
            },
        };
        out.push(seg);
        proof {
            assert(elems.take(i + 1).drop_last() =~= elems.take(i as int));
            assert(elems.take(i + 1).last() == elems[i as int]);
            assert(segment_views(out@) =~= segments_of(elems.take(i as int))->0.push(seg@));
        }
        i = i + 1;
    }
    proof {
        assert(elems.take(n as int) =~= elems);
    }
    Some(out)
}

/// Decode one transcribe response envelope and assemble its transcript.
/// The whole outcome — success, each protocol error, each native error —
/// is a function of the raw bytes alone, so decoding the same bytes twice
/// yields equal results.
pub fn decode_transcribe_response(bytes: &[u8]) -> (r: Result<Transcript, SpeechError>)
    ensures
        decode_result_model(r) == decode_transcribe_spec(bytes@),
{
    let v = match parse_json(bytes) {
        Some(v) => v,
        None => { return Err(malformed_envelope_error(bytes)); },
    };
    let version = match json_get(&v, "schema_version") {
        Some(x) => match json_as_u64(x) {
            Some(n) => n,
            None => { return Err(malformed_envelope_error(bytes)); },
        },
        None => { return Err(malformed_envelope_error(bytes)); },
    };
    let ok = match json_get(&v, "ok") {
        Some(x) => match json_as_bool(x) {
            Some(b) => b,
            None => { return Err(malformed_envelope_error(bytes)); },
        },
        None => { return Err(malformed_envelope_error(bytes)); },
    };
    let error_payload: Option<(String, String)> = match json_get(&v, "error") {
        None => None,
        Some(ev) => {
            if json_is_null(ev) {
                None
            } else {
                match read_error_payload(ev) {
                    Some(p) => Some(p),
                    None => { return Err(malformed_envelope_error(bytes)); },
                }
            }
        },
    };
    let data_value: Option<&serde_json::Value> = match json_get(&v, "data") {
        None => None,
        Some(dv) => {
            if json_is_null(dv) {
                None
            } else {
                Some(dv)
            }
        },
    };
    proof {
        let j = json_model(v);
        assert(envelope_of(j) matches Some(env) && env.version == version && env.ok == ok
            && (match env.error {
            None => error_payload is None,
            Some(e) => error_payload matches Some(p) && p.0@ == e.code && p.1@ == e.message,
        }) && (match env.data {
            None => data_value is None,
            Some(d) => data_value matches Some(dv) && json_model(*dv) == d,
        }));
    }
    if version != BRIDGE_SCHEMA_VERSION {
        let mut m = String::new();
        m.append("Fluid bridge schema mismatch: expected ");
        m.append(dec_u64(BRIDGE_SCHEMA_VERSION).as_str());
        m.append(", got ");
        m.append(dec_u64(version).as_str());
        return Err(SpeechError::new(SpeechErrorKind::Protocol, m));
    }
    if !ok {
        return match error_payload {
            None => {
                let mut m = String::new();
                m.append("Fluid transcribe failed without error payload");
                Err(SpeechError::new(SpeechErrorKind::Protocol, m))
            },
            Some(p) => {
                let (code, message) = p;
                let mut m = code;
                m.append(": ");
                m.append(message.as_str());
                Err(SpeechError::new(SpeechErrorKind::Native, m))
            },
        };
    }
    let data_v = match data_value {
        None => {
            let mut m = String::new();
            m.append("Fluid transcribe succeeded without payload");
            return Err(SpeechError::new(SpeechErrorKind::Protocol, m));
        },
        Some(dv) => dv,
    };
    let text = match json_get(data_v, "text") {
        Some(x) => match json_as_str(x) {
            Some(s) => s,
            None => { return Err(bad_payload_error()); },
        },
        None => { return Err(bad_payload_error()); },
    };
    let segments_field = match json_get(data_v, "segments") {
        Some(x) => x,
        None => { return Err(bad_payload_error()); },
    };
    let segments_arr = match json_as_array(segments_field) {
        Some(a) => a,
        None => { return Err(bad_payload_error()); },
    };
    proof {
        assert(json_model(*segments_field) matches Jv::Arr(elems) && models_of(segments_arr@)
            =~= elems);
    }
    let segments = match read_segments(segments_arr) {
        Some(s) => s,
        None => { return Err(bad_payload_error()); },
    };
    proof {
        assert(payload_of(json_model(*data_v)) matches Some(p) && p.0 == text@ && p.1
            == segment_views(segments@));
    }
    Ok(assemble_transcript(text, segments))
}

fn bad_payload_error() -> (r: SpeechError)
    ensures
        r@ == SpeechError::model(
            SpeechErrorKind::Protocol,
            "failed to decode Fluid transcribe payload"@,
        ),
{
    let mut m = String::new();
    m.append("failed to decode Fluid transcribe payload");
    SpeechError::new(SpeechErrorKind::Protocol, m)
}

/// Decoding is deterministic in the envelope bytes: the same bytes always
/// yield equal results, success or failure alike.
pub proof fn lemma_decode_idempotent(b1: Seq<u8>, b2: Seq<u8>)
    requires
        b1 == b2,
    ensures
        decode_transcribe_spec(b1) == decode_transcribe_spec(b2),
{
}

/// A response whose schema version differs from the expected constant is
/// always a fatal decode error, whatever its `ok` flag and payload hold.
pub proof fn lemma_schema_mismatch_fatal(bytes: Seq<u8>, j: Jv, env: EnvelopeModel)
    requires
        json_parse_of(bytes) == Some(j),
        envelope_of(j) == Some(env),
        env.version != BRIDGE_SCHEMA_VERSION,
    ensures
        decode_transcribe_spec(bytes) == Err::<TranscriptModel, SpeechErrorModel>(
            SpeechError::model(SpeechErrorKind::Protocol, schema_mismatch_msg(env.version)),
        ),
{
}

} // verus!
