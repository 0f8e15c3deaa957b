//! Captions from narration text: words, segments, cues and the subtitle
//! document, in one call.

use vstd::prelude::*;
use vstd::string::StringExecFns;
use crate::decimal::{decimal, push_decimal};
use crate::error::{ErrorKind, Failure};
use crate::segment::{lemma_segment_sizes, segment_words, segments};
use crate::srt::{render_document, subtitle_document};
use crate::text::{split_words, words};
use crate::timing::{assign_cues, cues_of, estimate_rate, lemma_cues_contiguous, CaptionCue, CueModel};

verus! {

/// The cues of a narration: its words, cut into segments and timed at the
/// uniform rate of all the words over the duration of the audio.
pub open spec fn caption_cues(text: Seq<char>, duration_ms: nat) -> Seq<CueModel> {
    cues_of(segments(words(text)), words(text).len(), duration_ms)
}

/// The status line for `count` segments.
pub open spec fn status_text(count: nat) -> Seq<char> {
    "Generated "@ + decimal(count) + " caption segments"@
}

/// The caption segments of a text: its words, grouped.
pub fn caption_segments(text: &str) -> (out: Vec<Vec<String>>)
    ensures
        out.deep_view() == segments(words(text@)),
        forall|k: int| 0 <= k < out.len() ==> 1 <= (#[trigger] out[k]).len() <= 6,
        forall|k: int| 0 <= k < out.len() - 1 ==> (#[trigger] out[k]).len() >= 4,
{
    let all_words = split_words(text);
    segment_words(&all_words)
}

/// Segmenting a text twice gives the same segments: they depend on the text
/// alone.
pub proof fn lemma_segmenting_is_repeatable(
    text: Seq<char>,
    first: Vec<Vec<String>>,
    second: Vec<Vec<String>>,
)
    requires
        first.deep_view() == segments(words(text)),
        second.deep_view() == segments(words(text)),
    ensures
        first.deep_view() == second.deep_view(),
{
}

/// The timed captions of a narration whose audio lasts `audio_duration_ms`.
/// A text without words has no cues; otherwise a duration of zero is
/// refused. The cues leave no gap: the first starts at zero, each ends where
/// the next starts, and the last ends with the audio.
pub fn caption_cues_from_text(text: &str, audio_duration_ms: u64) -> (out: Result<
    Vec<CaptionCue>,
    Failure,
>)
    ensures
        words(text@).len() > 0 && audio_duration_ms == 0 <==> out is Err,
        out matches Err(e) ==> e.kind == ErrorKind::Duration && e.message@
            == "Audio duration must be positive"@,
        out matches Ok(cues) ==> {
            &&& words(text@).len() == 0 ==> cues.len() == 0
            &&& words(text@).len() > 0 ==> cues.deep_view() == caption_cues(
                text@,
                audio_duration_ms as nat,
            )
            &&& cues.len() == segments(words(text@)).len()
            &&& cues.len() > 0 ==> cues[0].start_ms == 0 && cues[cues.len() - 1].end_ms
                == audio_duration_ms
            &&& forall|k: int|
                0 <= k < cues.len() - 1 ==> (#[trigger] cues[k]).end_ms == cues[k + 1].start_ms
            &&& forall|k: int|
                0 <= k < cues.len() ==> (#[trigger] cues[k]).start_ms <= cues[k].end_ms
                    <= audio_duration_ms
        },
{
    let all_words = split_words(text);
    if all_words.len() == 0 {
        proof {
            lemma_segment_sizes(words(text@));
        }
        return Ok(Vec::new());
    }
    let rate = match estimate_rate(all_words.len() as u64, audio_duration_ms) {
        Ok(rate) => rate,
        Err(e) => {
            return Err(e);
        },
    };
    let groups = segment_words(&all_words);
    proof {
        lemma_segment_sizes(words(text@));
        lemma_cues_contiguous(
            segments(words(text@)),
            words(text@).len(),
            audio_duration_ms as nat,
        );
    }
    let cues = assign_cues(&groups, &rate);
    proof {
        let model = caption_cues(text@, audio_duration_ms as nat);
        assert forall|k: int| 0 <= k < cues.len() implies (#[trigger] cues[k])@ == model[k] by {}
    }
    Ok(cues)
}

/// The subtitle document of a narration and a status line. A text without
/// words gives an empty document and a status that says so.
pub fn generate_captions_from_text(text: &str, audio_duration_ms: u64) -> (out: Result<
    (String, String),
    Failure,
>)
    ensures
        words(text@).len() > 0 && audio_duration_ms == 0 <==> out is Err,
        out matches Err(e) ==> e.kind == ErrorKind::Duration && e.message@
            == "Audio duration must be positive"@,
        out matches Ok((document, status)) ==> {
            &&& words(text@).len() == 0 ==> document@ == Seq::<char>::empty() && status@
                == "No text to generate captions"@
            &&& words(text@).len() > 0 ==> document@ == subtitle_document(
                caption_cues(text@, audio_duration_ms as nat),
            ) && status@ == status_text(segments(words(text@)).len())
        },
{
    let cues = match caption_cues_from_text(text, audio_duration_ms) {
        Ok(cues) => cues,
        Err(e) => {
            return Err(e);
        },
    };
    if cues.len() == 0 {
        proof {
            lemma_segment_sizes(words(text@));
        }
        return Ok((String::new(), String::from_str("No text to generate captions")));
    }
    let document = render_document(&cues);
    let mut status = String::from_str("Generated ");
    push_decimal(&mut status, cues.len() as u64);
    status.append(" caption segments");
    Ok((document, status))
}

} // verus!
