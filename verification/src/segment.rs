//! Caption segmentation: a greedy single pass that groups words into short
//! display segments, breaking early on clause-ending punctuation.

use vstd::prelude::*;
use crate::text::chars_of;

verus! {

/// Fewest words a segment holds before punctuation may close it.
pub const MIN_SEGMENT_WORDS: usize = 4;

/// Number of words at which a segment closes whatever its last word is.
pub const MAX_SEGMENT_WORDS: usize = 6;

/// The punctuation marks that end a sentence or a clause.
pub open spec fn is_break_mark(c: char) -> bool {
    c == '.' || c == '!' || c == '?' || c == ','
}

/// Whether a word ends with one of the break marks.
pub open spec fn ends_clause(word: Seq<char>) -> bool {
    word.len() > 0 && is_break_mark(word.last())
}

/// Whether the group `words[start..end]` closes once its last word has been
/// appended: it holds four words or more and that word ends a clause, or it
/// has reached six words.
pub open spec fn closes(words: Seq<Seq<char>>, start: int, end: int) -> bool {
    ||| end - start >= MIN_SEGMENT_WORDS && ends_clause(words[end - 1])
    ||| end - start >= MAX_SEGMENT_WORDS
}

/// Where the group that starts at `start` and has grown to `end` finally
/// ends: at the first length at which it closes, or with the last word.
pub open spec fn group_end(words: Seq<Seq<char>>, start: int, end: int) -> int
    decreases words.len() - end,
{
    if end >= words.len() || closes(words, start, end) {
        end
    } else {
        group_end(words, start, end + 1)
    }
}

/// The segments of the words from `start` on.
pub open spec fn segments_from(words: Seq<Seq<char>>, start: int) -> Seq<Seq<Seq<char>>>
    decreases words.len() - start,
    via segments_from_terminates
{
    if start < 0 || start >= words.len() {
        Seq::empty()
    } else {
        let end = group_end(words, start, start + 1);
        seq![words.subrange(start, end)] + segments_from(words, end)
    }
}

#[via_fn]
proof fn segments_from_terminates(words: Seq<Seq<char>>, start: int) {
    if 0 <= start < words.len() {
        lemma_group_end_bounds(words, start, start + 1);
    }
}

/// The caption segments of a sequence of words.
pub open spec fn segments(words: Seq<Seq<char>>) -> Seq<Seq<Seq<char>>> {
    segments_from(words, 0)
}

/// A group ends no earlier than it has grown and inside the words, holds at
/// most six words, and holds fewer than four only when the words run out.
pub proof fn lemma_group_end_bounds(words: Seq<Seq<char>>, start: int, end: int)
    requires
        0 <= start < end <= words.len(),
        end - start <= MAX_SEGMENT_WORDS,
        forall|e: int| start < e < end ==> !closes(words, start, e),
    ensures
        end <= group_end(words, start, end) <= words.len(),
        group_end(words, start, end) - start <= MAX_SEGMENT_WORDS,
        group_end(words, start, end) - start < MIN_SEGMENT_WORDS ==> group_end(words, start, end)
            == words.len(),
        forall|e: int| start < e < group_end(words, start, end) ==> !closes(words, start, e),
        group_end(words, start, end) < words.len() ==> closes(
            words,
            start,
            group_end(words, start, end),
        ),
    decreases words.len() - end,
{
    if end < words.len() && !closes(words, start, end) {
        lemma_group_end_bounds(words, start, end + 1);
    }
}

/// The number of words in the segments before the one at index `k`.
pub open spec fn words_before(segments: Seq<Seq<Seq<char>>>, k: int) -> nat
    decreases k,
{
    if k <= 0 {
        0
    } else {
        words_before(segments, k - 1) + segments[k - 1].len()
    }
}

/// The number of words in all the segments.
pub open spec fn total_words(segments: Seq<Seq<Seq<char>>>) -> nat {
    words_before(segments, segments.len() as int)
}

/// The count of words before a segment grows with its index.
pub proof fn lemma_words_before_grows(segments: Seq<Seq<Seq<char>>>, i: int, j: int)
    requires
        i <= j,
    ensures
        words_before(segments, i) <= words_before(segments, j),
    decreases j - i,
{
    if i < j {
        lemma_words_before_grows(segments, i, j - 1);
    }
}

/// The words of a group followed by those of further segments: counting
/// skips over the group.
proof fn lemma_words_before_first(
    group: Seq<Seq<char>>,
    rest: Seq<Seq<Seq<char>>>,
    k: int,
)
    requires
        0 <= k <= rest.len(),
    ensures
        words_before(seq![group] + rest, k + 1) == group.len() + words_before(rest, k),
    decreases k,
{
    let all = seq![group] + rest;
    if k > 0 {
        lemma_words_before_first(group, rest, k - 1);
    } else {
        assert(words_before(all, 0) == 0);
    }
}

/// What holds of the segments cut from `start` on: each has one to six
/// words, only the last may have fewer than four, and together they are the
/// words from `start` on, none lost and none added.
pub proof fn lemma_segments_from(words: Seq<Seq<char>>, start: int)
    requires
        0 <= start <= words.len(),
    ensures
        start < words.len() ==> segments_from(words, start).len() > 0,
        forall|k: int|
            0 <= k < segments_from(words, start).len() ==> 1 <= (#[trigger] segments_from(
                words,
                start,
            )[k]).len() <= MAX_SEGMENT_WORDS,
        forall|k: int|
            0 <= k < segments_from(words, start).len() - 1 ==> (#[trigger] segments_from(
                words,
                start,
            )[k]).len() >= MIN_SEGMENT_WORDS,
        total_words(segments_from(words, start)) == words.len() - start,
        segments_from(words, start).flatten() == words.subrange(start, words.len() as int),
    decreases words.len() - start,
{
    let segs = segments_from(words, start);
    if start < words.len() {
        let end = group_end(words, start, start + 1);
        lemma_group_end_bounds(words, start, start + 1);
        lemma_segments_from(words, end);
        let group = words.subrange(start, end);
        let rest = segments_from(words, end);
        assert forall|k: int| 0 <= k < segs.len() implies 1 <= (#[trigger] segs[k]).len()
            <= MAX_SEGMENT_WORDS by {}
        assert forall|k: int| 0 <= k < segs.len() - 1 implies (#[trigger] segs[k]).len()
            >= MIN_SEGMENT_WORDS by {}
        lemma_words_before_first(group, rest, rest.len() as int);
        assert(segs.drop_first() =~= rest);
    }
}

/// Every segment holds one to six words, only the last may hold fewer than
/// four, and the segments put together are the words, in their order.
pub proof fn lemma_segment_sizes(words: Seq<Seq<char>>)
    ensures
        words.len() > 0 ==> segments(words).len() > 0,
        forall|k: int|
            0 <= k < segments(words).len() ==> 1 <= (#[trigger] segments(words)[k]).len()
                <= MAX_SEGMENT_WORDS,
        forall|k: int|
            0 <= k < segments(words).len() - 1 ==> (#[trigger] segments(words)[k]).len()
                >= MIN_SEGMENT_WORDS,
        total_words(segments(words)) == words.len(),
        segments(words).flatten() == words,
{
    lemma_segments_from(words, 0);
}

/// Whether `word` ends with a break mark.
pub fn word_ends_clause(word: &str) -> (b: bool)
    ensures
        b == ends_clause(word@),
{
    let chars = chars_of(word);
    let n = chars.len();
    if n == 0 {
        false
    } else {
        let c = chars[n - 1];
        c == '.' || c == '!' || c == '?' || c == ','
    }
}

/// Groups `words` into caption segments. Words are appended to a working
/// group, which closes as soon as `closes` holds; what is left at the end
/// forms the last segment.
pub fn segment_words(words: &Vec<String>) -> (out: Vec<Vec<String>>)
    ensures
        out.deep_view() == segments(words.deep_view()),
        words.len() > 0 ==> out.len() > 0,
        forall|k: int| 0 <= k < out.len() ==> 1 <= (#[trigger] out[k]).len() <= MAX_SEGMENT_WORDS,
        forall|k: int| 0 <= k < out.len() - 1 ==> (#[trigger] out[k]).len() >= MIN_SEGMENT_WORDS,
{
    let ghost all = words.deep_view();
    let mut out: Vec<Vec<String>> = Vec::new();
    let mut current: Vec<String> = Vec::new();
    let mut i: usize = 0;
    let ghost mut start: int = 0;
    while i < words.len()
        invariant
            i <= words.len(),
            all == words.deep_view(),
            0 <= start == i - current.len(),
            current.len() < MAX_SEGMENT_WORDS,
            current.deep_view() == all.subrange(start, i as int),
            forall|e: int| start < e <= i ==> !closes(all, start, e),
            segments(all) == out.deep_view() + segments_from(all, start),
        decreases words.len() - i,
    {
        current.push(words[i].clone());
        i += 1;
        assert(current.deep_view() == all.subrange(start, i as int));
        let n = current.len();
        if (n >= MIN_SEGMENT_WORDS && word_ends_clause(words[i - 1].as_str())) || n
            >= MAX_SEGMENT_WORDS {
            proof {
                lemma_group_end_from(all, start, i as int);
            }
            out.push(current);
            current = Vec::new();
            proof {
                start = i as int;
            }
        }
    }
    if current.len() > 0 {
        proof {
            lemma_group_end_from(all, start, i as int);
        }
        out.push(current);
    }
    proof {
        lemma_segment_sizes(all);
        assert forall|k: int| 0 <= k < out.len() implies (#[trigger] out[k]).len() == segments(
            all,
        )[k].len() by {}
    }
    out
}

/// A group that has not closed before `end` and closes or runs out of words
/// there is the group that `segments_from` cuts at `start`.
proof fn lemma_group_end_from(words: Seq<Seq<char>>, start: int, end: int)
    requires
        0 <= start < end <= words.len(),
        forall|e: int| start < e < end ==> !closes(words, start, e),
        end == words.len() || closes(words, start, end),
    ensures
        group_end(words, start, start + 1) == end,
        segments_from(words, start) == seq![words.subrange(start, end)] + segments_from(
            words,
            end,
        ),
{
    lemma_group_end_reaches(words, start, start + 1, end);
}

proof fn lemma_group_end_reaches(words: Seq<Seq<char>>, start: int, from: int, end: int)
    requires
        0 <= start < from <= end <= words.len(),
        forall|e: int| start < e < end ==> !closes(words, start, e),
        end == words.len() || closes(words, start, end),
    ensures
        group_end(words, start, from) == end,
    decreases end - from,
{
    if from < end {
        lemma_group_end_reaches(words, start, from + 1, end);
    }
}

} // verus!
