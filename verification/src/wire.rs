//! The wire contract of the bridge protocol: normalization of the
//! per-call parameters onto their canonical wire form, the schema version
//! constant, and the bounded payload preview used in decode diagnostics.

use vstd::prelude::*;

use crate::engines::fluid::{FluidInferenceParams, FluidTimestampGranularity};
use crate::text::{digit_char_spec, lower_spec, push_char, to_ascii_lower, trim, trim_spec, dec_spec, dec_u64};

verus! {

/// The schema version this library speaks. A response carrying any other
/// version is rejected outright.
pub const BRIDGE_SCHEMA_VERSION: u64 = 1;

/// The separators that cut a language tag into subtags.
pub open spec fn is_lang_sep(c: char) -> bool {
    c == '-' || c == '_'
}

fn is_lang_sep_exec(c: char) -> (r: bool)
    ensures
        r == is_lang_sep(c),
{
    c == '-' || c == '_'
}

/// The index of the first subtag separator, or the length when there is
/// none.
pub open spec fn first_sep_at(s: Seq<char>) -> int
    decreases s.len(),
{
    if s.len() == 0 {
        0
    } else if is_lang_sep(s[0]) {
        0
    } else {
        1 + first_sep_at(s.drop_first())
    }
}

proof fn lemma_first_sep_at(s: Seq<char>, i: int)
    requires
        0 <= i <= s.len(),
        forall|k: int| 0 <= k < i ==> !is_lang_sep(s[k]),
        i < s.len() ==> is_lang_sep(s[i]),
    ensures
        first_sep_at(s) == i,
    decreases i,
{
    if i == 0 {
    } else {
        let t = s.drop_first();
        assert(forall|k: int| 0 <= k < i - 1 ==> !is_lang_sep(#[trigger] t[k]));
        assert(i - 1 < t.len() ==> is_lang_sep(t[i - 1]));
        lemma_first_sep_at(t, i - 1);
    }
}

/// What language normalization returns: trim; if empty, absent; otherwise
/// the subtag before the first `-` or `_`, trimmed and lowercased; if that
/// is empty, absent.
pub open spec fn normalize_language_spec(value: Option<Seq<char>>) -> Option<Seq<char>> {
    match value {
        None => None,
        Some(v) => {
            let raw = trim_spec(v);
            if raw.len() == 0 {
                None
            } else {
                let base = raw.take(first_sep_at(raw));
                let normalized = lower_spec(trim_spec(base));
                if normalized.len() == 0 {
                    None
                } else {
                    Some(normalized)
                }
            }
        },
    }
}

/// Normalize a language hint onto its wire form.
pub fn normalize_language_hint(value: Option<&str>) -> (r: Option<String>)
    ensures
        (match r {
            Some(s) => Some(s@),
            None => None,
        }) == normalize_language_spec(
            match value {
                Some(v) => Some(v@),
                None => None,
            },
        ),
{
    let v = match value {
        Some(v) => v,
        None => { return None; },
    };
    let raw = trim(v);
    let raw_str = raw.as_str();
    let n = raw_str.unicode_len();
    if n == 0 {
        return None;
    }
    let mut i: usize = 0;
    while i < n && !is_lang_sep_exec(raw_str.get_char(i))
        invariant
            0 <= i <= n,
            n == raw_str@.len(),
            forall|k: int| 0 <= k < i ==> !is_lang_sep(raw_str@[k]),
        decreases n - i,
    {
        i = i + 1;
    }
    proof {
        lemma_first_sep_at(raw_str@, i as int);
        assert(raw_str@.subrange(0, i as int) =~= raw_str@.take(i as int));
    }
    let base = raw_str.substring_char(0, i);
    let base_trimmed = trim(base);
    let normalized = to_ascii_lower(base_trimmed.as_str());
    if normalized.as_str().unicode_len() == 0 {
        None
    } else {
        Some(normalized)
    }
}

/// The views of a sequence of strings.
pub open spec fn views_of(s: Seq<String>) -> Seq<Seq<char>> {
    s.map_values(|x: String| x@)
}

/// Whether the list already holds an entry with this case-insensitive key.
pub open spec fn vocab_has_key(out: Seq<Seq<char>>, key: Seq<char>) -> bool {
    exists|j: int| 0 <= j < out.len() && lower_spec(out[j]) == key
}

/// What vocabulary normalization returns: each entry trimmed, entries empty
/// after trimming dropped, and duplicates dropped case-insensitively while
/// the first-seen original casing and the original order are kept.
pub open spec fn normalize_vocabulary_spec(values: Seq<Seq<char>>) -> Seq<Seq<char>>
    decreases values.len(),
{
    if values.len() == 0 {
        Seq::empty()
    } else {
        let prev = normalize_vocabulary_spec(values.drop_last());
        let t = trim_spec(values.last());
        if t.len() == 0 || vocab_has_key(prev, lower_spec(t)) {
            prev
        } else {
            prev.push(t)
        }
    }
}

/// No two entries of a normalized vocabulary share a case-insensitive
/// key: de-duplication is complete, whatever the input held.
pub proof fn lemma_vocabulary_keys_unique(values: Seq<Seq<char>>)
    ensures
        forall|i: int, j: int|
            0 <= i < j < normalize_vocabulary_spec(values).len() ==> lower_spec(
                #[trigger] normalize_vocabulary_spec(values)[i],
            ) != lower_spec(#[trigger] normalize_vocabulary_spec(values)[j]),
    decreases values.len(),
{
    if values.len() > 0 {
        let prev = normalize_vocabulary_spec(values.drop_last());
        let out = normalize_vocabulary_spec(values);
        lemma_vocabulary_keys_unique(values.drop_last());
        if out.len() > prev.len() {
            let t = trim_spec(values.last());
            assert(!vocab_has_key(prev, lower_spec(t)));
            assert forall|i: int, j: int| 0 <= i < j < out.len() implies lower_spec(out[i])
                != lower_spec(out[j]) by {
                if j < prev.len() {
                    assert(out[i] == prev[i] && out[j] == prev[j]);
                } else {
                    assert(out[j] == t && out[i] == prev[i]);
                }
            }
        }
    }
}

/// Normalize a vocabulary list onto its wire form.
pub fn normalize_vocabulary(values: &[String]) -> (r: Vec<String>)
    ensures
        views_of(r@) == normalize_vocabulary_spec(views_of(values@)),
{
    let mut out: Vec<String> = Vec::new();
    let n = values.len();
    let mut i: usize = 0;
    while i < n
        invariant
            0 <= i <= n,
            n == values@.len(),
            views_of(out@) =~= normalize_vocabulary_spec(views_of(values@.take(i as int))),
        decreases n - i,
    {
        let entry = vstd::slice::slice_index_get(values, i);
        let t = trim(entry.as_str());
        let tn = t.as_str().unicode_len();
        if tn > 0 {
            let key = to_ascii_lower(t.as_str());
            let mut seen = false;
            let mut j: usize = 0;
            let m = out.len();
            while j < m
                invariant
                    0 <= j <= m,
                    m == out@.len(),
                    seen <==> (exists|k: int|
                        0 <= k < j && lower_spec(views_of(out@)[k]) == key@),
                decreases m - j,
            {
                let existing_key = to_ascii_lower(out[j].as_str());
                proof {
                    assert(views_of(out@)[j as int] == out@[j as int]@);
                }
                if existing_key == key {
                    seen = true;
                }
                j = j + 1;
            }
            if !seen {
                assert(!vocab_has_key(views_of(out@), lower_spec(t@)));
                out.push(t);
            } else {
                assert(vocab_has_key(views_of(out@), lower_spec(t@)));
            }
        }
        proof {
            assert(views_of(values@.take(i + 1)).drop_last() =~= views_of(
                values@.take(i as int),
            ));
            assert(views_of(values@.take(i + 1)).last() == values@[i as int]@);
        }
        i = i + 1;
    }
    proof {
        assert(views_of(values@.take(n as int)) =~= views_of(values@));
    }
    out
}

/// The character for one lowercase hex digit.
pub open spec fn hex_char_spec(d: int) -> char {
    if d < 10 {
        digit_char_spec(d)
    } else if d == 10 {
        'a'
    } else if d == 11 {
        'b'
    } else if d == 12 {
        'c'
    } else if d == 13 {
        'd'
    } else if d == 14 {
        'e'
    } else {
        'f'
    }
}

fn hex_char(d: u32) -> (r: char)
    requires
        d < 16,
    ensures
        r == hex_char_spec(d as int),
{
    if d == 0 {
        '0'
    } else if d == 1 {
        '1'
    } else if d == 2 {
        '2'
    } else if d == 3 {
        '3'
    } else if d == 4 {
        '4'
    } else if d == 5 {
        '5'
    } else if d == 6 {
        '6'
    } else if d == 7 {
        '7'
    } else if d == 8 {
        '8'
    } else if d == 9 {
        '9'
    } else if d == 10 {
        'a'
    } else if d == 11 {
        'b'
    } else if d == 12 {
        'c'
    } else if d == 13 {
        'd'
    } else if d == 14 {
        'e'
    } else {
        'f'
    }
}

/// How one character is written inside a JSON string literal: quotes and
/// backslashes are escaped, control characters take the `\u00XX` form, and
/// everything else stands as itself.
pub open spec fn escape_char_spec(c: char) -> Seq<char> {
    if c == '"' {
        seq!['\\', '"']
    } else if c == '\\' {
        seq!['\\', '\\']
    } else if (c as u32) < 32 {
        seq!['\\', 'u', '0', '0', hex_char_spec(c as u32 as int / 16), hex_char_spec(c as u32 as int % 16)]
    } else {
        seq![c]
    }
}

/// A whole character sequence escaped for a JSON string literal.
pub open spec fn escape_spec(s: Seq<char>) -> Seq<char>
    decreases s.len(),
{
    if s.len() == 0 {
        Seq::empty()
    } else {
        escape_spec(s.drop_last()) + escape_char_spec(s.last())
    }
}

/// A JSON string literal: the escaped characters between double quotes.
pub open spec fn json_string_spec(s: Seq<char>) -> Seq<char> {
    seq!['"'] + escape_spec(s) + seq!['"']
}

fn append_escaped(out: &mut String, s: &str)
    ensures
        final(out)@ == old(out)@ + escape_spec(s@),
{
    let n = s.unicode_len();
    let mut i: usize = 0;
    while i < n
        invariant
            0 <= i <= n,
            n == s@.len(),
            out@ =~= old(out)@ + escape_spec(s@.take(i as int)),
        decreases n - i,
    {
        let c = s.get_char(i);
        if c == '"' {
            push_char(out, '\\');
            push_char(out, '"');
        } else if c == '\\' {
            push_char(out, '\\');
            push_char(out, '\\');
        } else if (c as u32) < 32 {
            push_char(out, '\\');
            push_char(out, 'u');
            push_char(out, '0');
            push_char(out, '0');
            push_char(out, hex_char((c as u32) / 16));
            push_char(out, hex_char((c as u32) % 16));
        } else {
            push_char(out, c);
        }
        proof {
            assert(s@.take(i + 1).drop_last() =~= s@.take(i as int));
            assert(s@.take(i + 1).last() == s@[i as int]);
        }
        i = i + 1;
    }
    proof {
        assert(s@.take(n as int) =~= s@);
    }
}

/// Append a JSON string literal holding `s`.
fn append_json_string(out: &mut String, s: &str)
    ensures
        final(out)@ == old(out)@ + json_string_spec(s@),
{
    push_char(out, '"');
    append_escaped(out, s);
    push_char(out, '"');
    proof {
        assert(out@ =~= old(out)@ + json_string_spec(s@));
    }
}

/// The comma-joined body of a JSON array of string literals.
pub open spec fn string_array_body_spec(items: Seq<Seq<char>>) -> Seq<char>
    decreases items.len(),
{
    if items.len() == 0 {
        Seq::empty()
    } else if items.len() == 1 {
        json_string_spec(items[0])
    } else {
        string_array_body_spec(items.drop_last()) + seq![','] + json_string_spec(items.last())
    }
}

/// A JSON array of string literals.
pub open spec fn string_array_spec(items: Seq<Seq<char>>) -> Seq<char> {
    seq!['['] + string_array_body_spec(items) + seq![']']
}

fn append_string_array(out: &mut String, items: &Vec<String>)
    ensures
        final(out)@ == old(out)@ + string_array_spec(views_of(items@)),
{
    push_char(out, '[');
    let n = items.len();
    let mut i: usize = 0;
    while i < n
        invariant
            0 <= i <= n,
            n == items@.len(),
            out@ =~= old(out)@ + seq!['['] + string_array_body_spec(
                views_of(items@.take(i as int)),
            ),
        decreases n - i,
    {
        if i > 0 {
            push_char(out, ',');
        }
        append_json_string(out, items[i].as_str());
        proof {
            let upto = views_of(items@.take(i + 1));
            assert(upto.drop_last() =~= views_of(items@.take(i as int)));
            assert(upto.last() == items@[i as int]@);
            if i > 0 {
                assert(upto.len() > 1);
            } else {
                assert(upto.len() == 1);
                assert(string_array_body_spec(upto) == json_string_spec(upto[0]));
            }
        }
        i = i + 1;
    }
    push_char(out, ']');
    proof {
        assert(views_of(items@.take(n as int)) =~= views_of(items@));
        assert(out@ =~= old(out)@ + string_array_spec(views_of(items@)));
    }
}

/// The config-creation request on the wire, carrying the current schema
/// version, the model directory, the optional diarization directory (null
/// when absent) and the detected OS major version.
pub open spec fn config_request_spec(
    asr_model_dir: Seq<char>,
    diarization_model_dir: Option<Seq<char>>,
    runtime_macos_major: u32,
) -> Seq<char> {
    "{\"schema_version\":"@ + dec_spec(BRIDGE_SCHEMA_VERSION as nat) + ",\"asr_model_dir\":"@
        + json_string_spec(asr_model_dir) + ",\"diarization_model_dir\":"@ + (match diarization_model_dir {
        None => "null"@,
        Some(d) => json_string_spec(d),
    }) + ",\"runtime_macos_major\":"@ + dec_spec(runtime_macos_major as nat) + "}"@
}

/// Encode the config-creation request.
pub fn encode_config_request(
    asr_model_dir: &str,
    diarization_model_dir: Option<&str>,
    runtime_macos_major: u32,
) -> (r: String)
    ensures
        r@ == config_request_spec(
            asr_model_dir@,
            match diarization_model_dir {
                None => None,
                Some(d) => Some(d@),
            },
            runtime_macos_major,
        ),
{
    let mut out = String::new();
    out.append("{\"schema_version\":");
    out.append(dec_u64(BRIDGE_SCHEMA_VERSION).as_str());
    out.append(",\"asr_model_dir\":");
    append_json_string(&mut out, asr_model_dir);
    out.append(",\"diarization_model_dir\":");
    match diarization_model_dir {
        None => out.append("null"),
        Some(d) => append_json_string(&mut out, d),
    }
    out.append(",\"runtime_macos_major\":");
    out.append(dec_u64(runtime_macos_major as u64).as_str());
    out.append("}");
    proof {
        assert(out@ =~= config_request_spec(
            asr_model_dir@,
            match diarization_model_dir {
                None => None,
                Some(d) => Some(d@),
            },
            runtime_macos_major,
        ));
    }
    out
}

/// The transcribe request on the wire, after normalization: the current
/// schema version, the normalized language hint (null when absent), the
/// normalized vocabulary, and the granularity's wire token.
pub open spec fn transcribe_request_spec(
    language: Option<Seq<char>>,
    vocabulary: Seq<Seq<char>>,
    granularity: FluidTimestampGranularity,
) -> Seq<char> {
    "{\"schema_version\":"@ + dec_spec(BRIDGE_SCHEMA_VERSION as nat) + ",\"language_hint\":"@
        + (match normalize_language_spec(language) {
        None => "null"@,
        Some(l) => json_string_spec(l),
    }) + ",\"vocabulary\":"@ + string_array_spec(normalize_vocabulary_spec(vocabulary))
        + ",\"timestamps\":"@ + json_string_spec(granularity.wire_value_spec()) + "}"@
}

/// Build the per-call transcribe request from the canonical inference
/// parameters: the language hint and the vocabulary are normalized onto
/// their wire form here, so no dialect identity and no unnormalized value
/// ever reaches the wire.
pub fn encode_transcribe_request(params: &FluidInferenceParams) -> (r: String)
    ensures
        r@ == transcribe_request_spec(
            match params.language {
                None => None,
                Some(l) => Some(l@),
            },
            views_of(params.vocabulary@),
            params.timestamp_granularity,
        ),
{
    let mut out = String::new();
    out.append("{\"schema_version\":");
    out.append(dec_u64(BRIDGE_SCHEMA_VERSION).as_str());
    out.append(",\"language_hint\":");
    let language = match &params.language {
        None => None,
        Some(l) => Some(l.as_str()),
    };
    match normalize_language_hint(language) {
        None => out.append("null"),
        Some(l) => append_json_string(&mut out, l.as_str()),
    }
    out.append(",\"vocabulary\":");
    let vocabulary = normalize_vocabulary(params.vocabulary.as_slice());
    append_string_array(&mut out, &vocabulary);
    out.append(",\"timestamps\":");
    append_json_string(&mut out, params.timestamp_granularity.as_wire_value());
    out.append("}");
    proof {
        assert(out@ =~= transcribe_request_spec(
            match params.language {
                None => None,
                Some(l) => Some(l@),
            },
            views_of(params.vocabulary@),
            params.timestamp_granularity,
        ));
    }
    out
}

/// The largest number of raw bytes a decode diagnostic quotes back.
pub const MAX_PREVIEW_BYTES: usize = 240;

/// What `String::from_utf8_lossy` returns: a function of the bytes alone.
pub uninterp spec fn utf8_lossy_of(bytes: Seq<u8>) -> Seq<char>;

/// Relies on `String::from_utf8_lossy` of std: the replacement-character
/// decoding of a byte slice, a pure function of the bytes.
#[verifier::external_body]
fn utf8_lossy(bytes: &[u8]) -> (r: String)
    ensures
        r@ == utf8_lossy_of(bytes@),
{
    String::from_utf8_lossy(bytes).into_owned()
}

/// The bounded preview of a payload: at most `MAX_PREVIEW_BYTES` raw bytes,
/// decoded lossily, with an ellipsis when the payload was longer.
pub open spec fn preview_spec(bytes: Seq<u8>) -> Seq<char> {
    if bytes.len() <= 240 {
        utf8_lossy_of(bytes)
    } else {
        utf8_lossy_of(bytes.take(240)) + "..."@
    }
}

/// Quote back the head of a payload for diagnosis without unbounded growth.
pub fn preview_payload(bytes: &[u8]) -> (r: String)
    ensures
        r@ == preview_spec(bytes@),
{
    let len = bytes.len();
    if len <= MAX_PREVIEW_BYTES {
        utf8_lossy(bytes)
    } else {
        let head = vstd::slice::slice_subrange(bytes, 0, MAX_PREVIEW_BYTES);
        proof {
            assert(head@ =~= bytes@.take(240));
        }
        let mut r = utf8_lossy(head);
        r.append("...");
        r
    }
}

} // verus!
