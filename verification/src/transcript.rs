//! Transcript assembly: filtering the raw timed segments the bridge
//! reports, synthesizing the top-level text when it is empty, and the
//! presence rule for the segments field (present only when at least one
//! segment survived; absence means "no segment timing", which is distinct
//! from an empty list).

use vstd::prelude::*;

use crate::text::{lemma_trim_idempotent, push_char, trim, trim_spec};

verus! {

/// A timed span of recognized text. Times are in milliseconds since the
/// start of the audio; consumers wanting seconds divide by 1000.
#[derive(Clone, Debug, PartialEq)]
pub struct TranscriptSegment {
    pub start_ms: u64,
    pub end_ms: u64,
    pub text: String,
}

/// The mathematical content of a segment.
pub struct SegmentModel {
    pub start_ms: u64,
    pub end_ms: u64,
    pub text: Seq<char>,
}

impl View for TranscriptSegment {
    type V = SegmentModel;

    open spec fn view(&self) -> SegmentModel {
        SegmentModel { start_ms: self.start_ms, end_ms: self.end_ms, text: self.text@ }
    }
}

/// A transcription result: the text, and the surviving timed segments, or
/// no segments field at all when none survived.
#[derive(Clone, Debug, PartialEq)]
pub struct Transcript {
    pub text: String,
    pub segments: Option<Vec<TranscriptSegment>>,
}

/// The mathematical content of a transcript.
pub struct TranscriptModel {
    pub text: Seq<char>,
    pub segments: Option<Seq<SegmentModel>>,
}

impl View for Transcript {
    type V = TranscriptModel;

    open spec fn view(&self) -> TranscriptModel {
        TranscriptModel {
            text: self.text@,
            segments: match self.segments {
                None => None,
                Some(v) => Some(v@.map_values(|s: TranscriptSegment| s@)),
            },
        }
    }
}

/// The views of a sequence of segments.
pub open spec fn segment_views(s: Seq<TranscriptSegment>) -> Seq<SegmentModel> {
    s.map_values(|x: TranscriptSegment| x@)
}

/// Whether a raw segment survives the filter: its span must be forward in
/// time and its text must not be blank.
pub open spec fn keep_segment(s: SegmentModel) -> bool {
    s.end_ms > s.start_ms && trim_spec(s.text).len() > 0
}

/// A surviving segment as it is stored: its text trimmed.
pub open spec fn trimmed_segment(s: SegmentModel) -> SegmentModel {
    SegmentModel { start_ms: s.start_ms, end_ms: s.end_ms, text: trim_spec(s.text) }
}

/// The surviving segments, in their original order, each with its text
/// trimmed.
pub open spec fn filter_segments_spec(ss: Seq<SegmentModel>) -> Seq<SegmentModel>
    decreases ss.len(),
{
    if ss.len() == 0 {
        Seq::empty()
    } else {
        let prev = filter_segments_spec(ss.drop_last());
        if keep_segment(ss.last()) {
            prev.push(trimmed_segment(ss.last()))
        } else {
            prev
        }
    }
}

/// The trimmed texts of the surviving segments joined with a newline, in
/// order.
pub open spec fn joined_texts_spec(ss: Seq<SegmentModel>) -> Seq<char>
    decreases ss.len(),
{
    if ss.len() == 0 {
        Seq::empty()
    } else if ss.len() == 1 {
        trim_spec(ss[0].text)
    } else {
        joined_texts_spec(ss.drop_last()) + seq!['\n'] + trim_spec(ss.last().text)
    }
}

/// What transcript assembly returns: the top-level text trimmed, or, when
/// that is empty, synthesized by joining the surviving segments' trimmed
/// texts; and the segments field present exactly when a segment survived.
pub open spec fn assemble_spec(text: Seq<char>, segs: Seq<SegmentModel>) -> TranscriptModel {
    let kept = filter_segments_spec(segs);
    let trimmed = trim_spec(text);
    TranscriptModel {
        text: if trimmed.len() == 0 {
            joined_texts_spec(kept)
        } else {
            trimmed
        },
        segments: if kept.len() == 0 {
            None
        } else {
            Some(kept)
        },
    }
}

/// Assemble a transcription result from the decoded payload: drop every
/// segment whose span is not forward or whose text is blank, keep order,
/// store each survivor's text trimmed, trim or synthesize the top-level
/// text, and report segments only when at least one survived.
pub fn assemble_transcript(text: &str, segments: Vec<TranscriptSegment>) -> (r: Transcript)
    ensures
        r@ == assemble_spec(text@, segment_views(segments@)),
{
    let ghost all = segment_views(segments@);
    let mut rest = segments;
    let mut kept: Vec<TranscriptSegment> = Vec::new();
    let ghost mut i: int = 0;
    while rest.len() > 0
        invariant
            0 <= i <= all.len(),
            rest@ =~= segments@.skip(i),
            segment_views(kept@) =~= filter_segments_spec(all.take(i)),
            all == segment_views(segments@),
        decreases rest@.len(),
    {
        let s = rest.remove(0);
        let trimmed_text = trim(s.text.as_str());
        let keep = s.end_ms > s.start_ms && trimmed_text.as_str().unicode_len() > 0;
        proof {
            assert(s@ == all[i]);
            assert(all.take(i + 1).drop_last() =~= all.take(i));
            assert(all.take(i + 1).last() == all[i]);
        }
        if keep {
            kept.push(
                TranscriptSegment { start_ms: s.start_ms, end_ms: s.end_ms, text: trimmed_text },
            );
            proof {
                assert(segment_views(kept@) =~= filter_segments_spec(all.take(i)).push(
                    trimmed_segment(all[i]),
                ));
            }
        }
        proof {
            i = i + 1;
        }
    }
    proof {
        assert(all.take(all.len() as int) =~= all);
    }
    let trimmed = trim(text);
    let final_text = if trimmed.as_str().unicode_len() == 0 {
        join_trimmed_texts(&kept)
    } else {
        trimmed
    };
    if kept.len() == 0 {
        Transcript { text: final_text, segments: None }
    } else {
        Transcript { text: final_text, segments: Some(kept) }
    }
}

/// What holds of every segment that survives assembly: its span is
/// forward in time, and its text is non-empty and stored trimmed.
pub open spec fn well_formed_segment(s: SegmentModel) -> bool {
    s.end_ms > s.start_ms && s.text.len() > 0 && s.text == trim_spec(s.text)
}

/// Only segments that pass the filter survive assembly, and each is
/// stored well-formed: forward span, non-empty trimmed text.
pub proof fn lemma_kept_segments_pass_filter(segs: Seq<SegmentModel>)
    ensures
        forall|j: int|
            0 <= j < filter_segments_spec(segs).len() ==> well_formed_segment(
                #[trigger] filter_segments_spec(segs)[j],
            ),
    decreases segs.len(),
{
    if segs.len() > 0 {
        let prev = filter_segments_spec(segs.drop_last());
        lemma_kept_segments_pass_filter(segs.drop_last());
        if keep_segment(segs.last()) {
            lemma_trim_idempotent(segs.last().text);
            assert(well_formed_segment(trimmed_segment(segs.last())));
            assert forall|j: int|
                0 <= j < filter_segments_spec(segs).len() implies well_formed_segment(
                filter_segments_spec(segs)[j],
            ) by {
                if j < prev.len() {
                    assert(filter_segments_spec(segs)[j] == prev[j]);
                } else {
                    assert(filter_segments_spec(segs)[j] == trimmed_segment(segs.last()));
                }
            }
        }
    }
}

/// When every segment is dropped and the top-level text was blank, the
/// assembled result is the empty text with the segments field absent.
pub proof fn lemma_all_dropped_yields_empty(text: Seq<char>, segs: Seq<SegmentModel>)
    requires
        forall|i: int| 0 <= i < segs.len() ==> !keep_segment(#[trigger] segs[i]),
        trim_spec(text).len() == 0,
    ensures
        assemble_spec(text, segs).text == Seq::<char>::empty(),
        assemble_spec(text, segs).segments is None,
    decreases segs.len(),
{
    if segs.len() == 0 {
        assert(filter_segments_spec(segs) =~= Seq::<SegmentModel>::empty());
    } else {
        let t = segs.drop_last();
        assert(forall|i: int| 0 <= i < t.len() ==> !keep_segment(#[trigger] t[i]));
        lemma_all_dropped_yields_empty(text, t);
    }
}

fn join_trimmed_texts(ss: &Vec<TranscriptSegment>) -> (r: String)
    ensures
        r@ == joined_texts_spec(segment_views(ss@)),
{
    let mut out = String::new();
    let n = ss.len();
    let mut i: usize = 0;
    while i < n
        invariant
            0 <= i <= n,
            n == ss@.len(),
            out@ =~= joined_texts_spec(segment_views(ss@.take(i as int))),
        decreases n - i,
    {
        if i > 0 {
            push_char(&mut out, '\n');
        }
        let t = trim(ss[i].text.as_str());
        out.append(t.as_str());
        proof {
            let upto = segment_views(ss@.take(i + 1));
            assert(upto.drop_last() =~= segment_views(ss@.take(i as int)));
            assert(upto.last() == ss@[i as int]@);
            if i == 0 {
                assert(upto.len() == 1);
                assert(joined_texts_spec(upto) == trim_spec(upto[0].text));
            } else {
                assert(upto.len() > 1);
            }
        }
        i = i + 1;
    }
    proof {
        assert(segment_views(ss@.take(n as int)) =~= segment_views(ss@));
    }
    out
}

} // verus!
