//! Uniform-rate timing: the speaking rate of a narration and the time span
//! of each caption segment.

use vstd::prelude::*;
use crate::error::{ErrorKind, Failure};
use crate::segment::{lemma_words_before_grows, total_words, words_before};
use crate::text::{join_words, join_with_spaces};

verus! {

/// A speaking rate: `words` words spoken evenly over `duration_ms`
/// milliseconds. The duration is positive.
#[derive(Clone, Copy, Debug)]
pub struct WordRate {
    words: u64,
    duration_ms: u64,
}

/// A timed caption: the text of one segment and the span, in milliseconds
/// from the start of the audio, during which it is shown.
#[derive(Clone, Debug)]
pub struct CaptionCue {
    pub text: String,
    pub start_ms: u64,
    pub end_ms: u64,
}

/// What a cue holds, as mathematical values.
pub struct CueModel {
    pub text: Seq<char>,
    pub start_ms: nat,
    pub end_ms: nat,
}

impl View for CaptionCue {
    type V = CueModel;

    open spec fn view(&self) -> CueModel {
        CueModel {
            text: self.text@,
            start_ms: self.start_ms as nat,
            end_ms: self.end_ms as nat,
        }
    }
}

impl DeepView for CaptionCue {
    type V = CueModel;

    open spec fn deep_view(&self) -> CueModel {
        self@
    }
}

/// The time in milliseconds, rounded down, by which `offset` words have been
/// spoken when `words` words are spread evenly over `duration_ms`: `offset`
/// divided by the rate.
pub open spec fn elapsed_ms(words: nat, duration_ms: nat, offset: nat) -> nat {
    if words == 0 {
        0
    } else {
        offset * duration_ms / words
    }
}

impl WordRate {
    #[verifier::type_invariant]
    spec fn positive_duration(self) -> bool {
        self.duration_ms > 0
    }

    /// The number of words spoken.
    pub closed spec fn words(self) -> nat {
        self.words as nat
    }

    /// The time they take, in milliseconds.
    pub closed spec fn duration_ms(self) -> nat {
        self.duration_ms as nat
    }

    /// The rate in thousandths of a word per second, rounded down.
    pub open spec fn milliwords_per_second(self) -> nat {
        self.words() * 1_000_000 / self.duration_ms()
    }

    /// The time in milliseconds by which `offset` words have been spoken.
    pub open spec fn elapsed_ms(self, offset: nat) -> nat {
        elapsed_ms(self.words(), self.duration_ms(), offset)
    }

    /// The number of words spoken.
    pub fn word_count(&self) -> (out: u64)
        ensures
            out == self.words(),
    {
        self.words
    }

    /// The time they take, in milliseconds.
    pub fn duration(&self) -> (out: u64)
        ensures
            out == self.duration_ms(),
            out > 0,
    {
        proof {
            use_type_invariant(self);
        }
        self.duration_ms
    }

    /// The rate in thousandths of a word per second, rounded down.
    pub fn per_second_milli(&self) -> (out: u128)
        ensures
            out == self.milliwords_per_second(),
    {
        proof {
            use_type_invariant(self);
        }
        (self.words as u128) * 1_000_000 / (self.duration_ms as u128)
    }

    /// The time by which `offset` words have been spoken.
    pub fn elapsed(&self, offset: u64) -> (out: u64)
        requires
            offset <= self.words(),
        ensures
            out == self.elapsed_ms(offset as nat),
            out <= self.duration_ms(),
    {
        proof {
            use_type_invariant(self);
            lemma_elapsed_bounds(self.words(), self.duration_ms(), offset as nat, offset as nat);
        }
        if self.words == 0 {
            0
        } else {
            let product: u128 = wide_product(offset, self.duration_ms);
            (product / (self.words as u128)) as u64
        }
    }
}

/// The product of two 64-bit numbers, which fits in 128 bits.
fn wide_product(a: u64, b: u64) -> (out: u128)
    ensures
        out == a * b,
{
    assert(a * b <= 0xFFFF_FFFF_FFFF_FFFF * 0xFFFF_FFFF_FFFF_FFFF) by (nonlinear_arith)
        requires
            a <= 0xFFFF_FFFF_FFFF_FFFF,
            b <= 0xFFFF_FFFF_FFFF_FFFF,
    ;
    (a as u128) * (b as u128)
}

/// Elapsed time starts at zero, never decreases with the offset, and reaches
/// the whole duration exactly when all words have been spoken.
pub proof fn lemma_elapsed_bounds(words: nat, duration_ms: nat, i: nat, j: nat)
    requires
        duration_ms > 0,
        i <= j <= words,
    ensures
        elapsed_ms(words, duration_ms, 0) == 0,
        elapsed_ms(words, duration_ms, i) <= elapsed_ms(words, duration_ms, j) <= duration_ms,
        words > 0 ==> elapsed_ms(words, duration_ms, words) == duration_ms,
{
    let w = words as int;
    let d = duration_ms as int;
    if w > 0 {
        assert(0 * d / w == 0) by (nonlinear_arith)
            requires
                w > 0,
        ;
        assert(i * d / w <= j * d / w) by (nonlinear_arith)
            requires
                0 <= i <= j,
                d > 0,
                w > 0,
        ;
        assert(j * d / w <= w * d / w) by (nonlinear_arith)
            requires
                0 <= j <= w,
                d > 0,
                w > 0,
        ;
        assert(w * d / w == d) by (nonlinear_arith)
            requires
                d > 0,
                w > 0,
        ;
    }
}

/// Derives the speaking rate from the number of words and the measured
/// duration of the audio. A duration that is not positive is refused.
pub fn estimate_rate(word_count: u64, duration_ms: u64) -> (out: Result<WordRate, Failure>)
    ensures
        duration_ms == 0 <==> out is Err,
        out matches Err(e) ==> e.kind == ErrorKind::Duration && e.message@
            == "Audio duration must be positive"@,
        out matches Ok(rate) ==> rate.words() == word_count && rate.duration_ms() == duration_ms,
{
    if duration_ms == 0 {
        Err(Failure::new(ErrorKind::Duration, "Audio duration must be positive"))
    } else {
        Ok(WordRate { words: word_count, duration_ms })
    }
}

/// The cue of the segment at index `k`. With `i` words before it and `n`
/// words in it, it starts at `i` divided by the rate and ends at `i + n`
/// divided by the rate, but no later than the audio does.
pub open spec fn cue_at(
    segments: Seq<Seq<Seq<char>>>,
    words: nat,
    duration_ms: nat,
    k: int,
) -> CueModel {
    let until = elapsed_ms(words, duration_ms, words_before(segments, k + 1));
    CueModel {
        text: join_words(segments[k]),
        start_ms: elapsed_ms(words, duration_ms, words_before(segments, k)),
        end_ms: if until <= duration_ms {
            until
        } else {
            duration_ms
        },
    }
}

/// The cues of the segments, in order, for a narration of `words` words
/// that lasts `duration_ms`.
pub open spec fn cues_of(segments: Seq<Seq<Seq<char>>>, words: nat, duration_ms: nat) -> Seq<
    CueModel,
> {
    Seq::new(segments.len(), |k: int| cue_at(segments, words, duration_ms, k))
}

/// Cues of segments that the rate accounts for leave no gap and do not
/// overlap: the first starts at zero, each ends where the next starts, none
/// ends before it starts and none ends after the audio, so that start times
/// never decrease. Where the rate counts exactly the words of the segments,
/// the last cue ends with the audio.
pub proof fn lemma_cues_contiguous(segments: Seq<Seq<Seq<char>>>, words: nat, duration_ms: nat)
    requires
        duration_ms > 0,
        total_words(segments) <= words,
    ensures
        cues_of(segments, words, duration_ms).len() == segments.len(),
        segments.len() > 0 ==> cues_of(segments, words, duration_ms)[0].start_ms == 0,
        forall|k: int|
            0 <= k < segments.len() - 1 ==> (#[trigger] cues_of(
                segments,
                words,
                duration_ms,
            )[k]).end_ms == cues_of(segments, words, duration_ms)[k + 1].start_ms,
        forall|k: int|
            0 <= k < segments.len() ==> (#[trigger] cues_of(
                segments,
                words,
                duration_ms,
            )[k]).start_ms <= cues_of(segments, words, duration_ms)[k].end_ms <= duration_ms,
        forall|j: int, k: int|
            0 <= j <= k < segments.len() ==> (#[trigger] cues_of(
                segments,
                words,
                duration_ms,
            )[j]).start_ms <= (#[trigger] cues_of(segments, words, duration_ms)[k]).start_ms,
        segments.len() > 0 && 0 < total_words(segments) == words ==> cues_of(
            segments,
            words,
            duration_ms,
        ).last().end_ms == duration_ms,
{
    let cues = cues_of(segments, words, duration_ms);
    let n = segments.len() as int;
    lemma_elapsed_bounds(words, duration_ms, 0, 0);
    assert forall|k: int| 0 <= k < n implies (#[trigger] cues[k]).start_ms <= cues[k].end_ms
        <= duration_ms && cues[k].end_ms == elapsed_ms(
        words,
        duration_ms,
        words_before(segments, k + 1),
    ) by {
        lemma_words_before_grows(segments, k, k + 1);
        lemma_words_before_grows(segments, k + 1, n);
        lemma_elapsed_bounds(
            words,
            duration_ms,
            words_before(segments, k),
            words_before(segments, k + 1),
        );
    }
    assert forall|j: int, k: int| 0 <= j <= k < n implies (#[trigger] cues[j]).start_ms <= (
    #[trigger] cues[k]).start_ms by {
        lemma_words_before_grows(segments, j, k);
        lemma_words_before_grows(segments, k, n);
        lemma_elapsed_bounds(
            words,
            duration_ms,
            words_before(segments, j),
            words_before(segments, k),
        );
    }
    if n > 0 && 0 < total_words(segments) == words {
        lemma_elapsed_bounds(words, duration_ms, words, words);
    }
}

/// Gives each segment its cue at the given rate. The rate accounts for the
/// words of the segments: it was estimated from no fewer words than they
/// hold, so that no cue starts after the audio has ended.
pub fn assign_cues(segments: &Vec<Vec<String>>, rate: &WordRate) -> (out: Vec<CaptionCue>)
    requires
        total_words(segments.deep_view()) <= rate.words(),
    ensures
        out.deep_view() == cues_of(segments.deep_view(), rate.words(), rate.duration_ms()),
{
    let ghost segs = segments.deep_view();
    let duration = rate.duration();
    let mut out: Vec<CaptionCue> = Vec::new();
    let mut offset: u64 = 0;
    let mut k: usize = 0;
    while k < segments.len()
        invariant
            k <= segments.len(),
            segs == segments.deep_view(),
            total_words(segs) <= rate.words(),
            duration == rate.duration_ms(),
            offset == words_before(segs, k as int),
            out.len() == k,
            forall|j: int|
                0 <= j < k ==> (#[trigger] out[j])@ == cue_at(
                    segs,
                    rate.words(),
                    rate.duration_ms(),
                    j,
                ),
        decreases segments.len() - k,
    {
        proof {
            lemma_words_before_grows(segs, k + 1, segs.len() as int);
        }
        let size: u64 = segments[k].len() as u64;
        let start = rate.elapsed(offset);
        let until = rate.elapsed(offset + size);
        let end = if until <= duration {
            until
        } else {
            duration
        };
        let text = join_with_spaces(&segments[k]);
        out.push(CaptionCue { text, start_ms: start, end_ms: end });
        offset = offset + size;
        k += 1;
    }
    out
}

} // verus!
