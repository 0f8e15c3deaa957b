//! Character-level helpers shared by the other modules: conversions between
//! strings and character vectors, whitespace classification and joins.

use vstd::prelude::*;
use vstd::string::StringExecFns;

verus! {

/// `String::push` appends exactly one character to the end of the string.
pub assume_specification[ String::push ](s: &mut String, c: char)
    ensures
        final(s)@ == old(s)@.push(c),
;

/// The upper-case form of a text: what `str::to_uppercase` returns for it.
pub uninterp spec fn uppercase_of(s: Seq<char>) -> Seq<char>;

/// The lower-case form of a text: what `str::to_lowercase` returns for it.
pub uninterp spec fn lowercase_of(s: Seq<char>) -> Seq<char>;

/// Calls `str::to_uppercase`, which maps the text to upper case by the
/// Unicode case mappings; the result depends on the text alone.
#[verifier::external_body]
pub(crate) fn to_uppercase(s: &str) -> (out: String)
    ensures
        out@ == uppercase_of(s@),
{
    s.to_uppercase()
}

/// Calls `str::to_lowercase`, which maps the text to lower case by the
/// Unicode case mappings; the result depends on the text alone.
#[verifier::external_body]
pub(crate) fn to_lowercase(s: &str) -> (out: String)
    ensures
        out@ == lowercase_of(s@),
{
    s.to_lowercase()
}

/// Whether a character is a letter or a number in the sense of Unicode: what
/// `char::is_alphanumeric` says of it.
pub uninterp spec fn alphanumeric(c: char) -> bool;

/// Calls `char::is_alphanumeric`, whose answer depends on the character
/// alone.
#[verifier::external_body]
pub(crate) fn is_alphanumeric(c: char) -> (out: bool)
    ensures
        out == alphanumeric(c),
{
    c.is_alphanumeric()
}

/// The characters of `text`, in order.
pub fn chars_of(text: &str) -> (out: Vec<char>)
    ensures
        out@ == text@,
{
    let mut out: Vec<char> = Vec::new();
    for c in it: text.chars()
        invariant
            out@ == it.seq().take(it.index()),
    {
        out.push(c);
    }
    out
}

/// The string made of the characters of `chars`, in order.
pub fn string_of(chars: &[char]) -> (out: String)
    ensures
        out@ == chars@,
{
    let mut out = String::new();
    let mut i: usize = 0;
    while i < chars.len()
        invariant
            i <= chars.len(),
            out@ == chars@.take(i as int),
        decreases chars.len() - i,
    {
        out.push(chars[i]);
        i += 1;
    }
    out
}

/// Whether two texts hold the same characters.
pub fn same_text(a: &str, b: &str) -> (same: bool)
    ensures
        same == (a@ == b@),
{
    let left = chars_of(a);
    let right = chars_of(b);
    if left.len() != right.len() {
        return false;
    }
    let mut i: usize = 0;
    while i < left.len()
        invariant
            i <= left.len(),
            left.len() == right.len(),
            left@ == a@,
            right@ == b@,
            left@.take(i as int) == right@.take(i as int),
        decreases left.len() - i,
    {
        if left[i] != right[i] {
            return false;
        }
        i += 1;
    }
    assert(left@.take(i as int) =~= left@);
    assert(right@.take(i as int) =~= right@);
    true
}

/// Appends the text `arg` to a list of texts.
pub fn push_text(list: &mut Vec<String>, arg: &str)
    ensures
        final(list).deep_view() == old(list).deep_view().push(arg@),
{
    list.push(String::from_str(arg));
}

/// Whether `s` ends with `suffix`.
pub open spec fn ends_with(s: Seq<char>, suffix: Seq<char>) -> bool {
    s.len() >= suffix.len() && s.subrange(s.len() - suffix.len(), s.len() as int) == suffix
}

/// Whether `text` ends with `suffix`.
pub fn text_ends_with(text: &str, suffix: &str) -> (out: bool)
    ensures
        out == ends_with(text@, suffix@),
{
    let all = chars_of(text);
    let end = chars_of(suffix);
    if all.len() < end.len() {
        return false;
    }
    let tail = string_of(
        vstd::slice::slice_subrange(all.as_slice(), all.len() - end.len(), all.len()),
    );
    same_text(tail.as_str(), suffix)
}

/// The characters that separate words: the code points with the Unicode
/// `White_Space` property.
pub open spec fn is_space(c: char) -> bool {
    let u = c as u32;
    ||| 0x09 <= u <= 0x0D
    ||| u == 0x20
    ||| u == 0x85
    ||| u == 0xA0
    ||| u == 0x1680
    ||| 0x2000 <= u <= 0x200A
    ||| u == 0x2028
    ||| u == 0x2029
    ||| u == 0x202F
    ||| u == 0x205F
    ||| u == 0x3000
}

/// Whether `c` separates words.
pub fn is_whitespace(c: char) -> (b: bool)
    ensures
        b == is_space(c),
{
    let u: u32 = c as u32;
    (0x09 <= u && u <= 0x0D) || u == 0x20 || u == 0x85 || u == 0xA0 || u == 0x1680 || (0x2000 <= u
        && u <= 0x200A) || u == 0x2028 || u == 0x2029 || u == 0x202F || u == 0x205F || u == 0x3000
}

/// A text is blank when it holds nothing but whitespace.
pub open spec fn is_blank(s: Seq<char>) -> bool {
    forall|i: int| 0 <= i < s.len() ==> is_space(#[trigger] s[i])
}

/// Whether `text` holds nothing but whitespace.
pub fn text_is_blank(text: &str) -> (out: bool)
    ensures
        out == is_blank(text@),
{
    let chars = chars_of(text);
    let mut i: usize = 0;
    while i < chars.len()
        invariant
            i <= chars.len(),
            chars@ == text@,
            forall|k: int| 0 <= k < i ==> is_space(#[trigger] text@[k]),
        decreases chars.len() - i,
    {
        if !is_whitespace(chars[i]) {
            return false;
        }
        i += 1;
    }
    true
}

/// Index of the first whitespace character at or after `from`, or the length
/// of `s` when there is none: where the word that covers `from` ends.
pub open spec fn word_end(s: Seq<char>, from: int) -> int
    decreases s.len() - from,
{
    if from < 0 || from >= s.len() || is_space(s[from]) {
        from
    } else {
        word_end(s, from + 1)
    }
}

/// The words of `s` that start at or after `from`: the maximal runs of
/// characters without whitespace, in order.
pub open spec fn words_from(s: Seq<char>, from: int) -> Seq<Seq<char>>
    decreases s.len() - from,
    via words_from_terminates
{
    if from < 0 || from >= s.len() {
        Seq::empty()
    } else if is_space(s[from]) {
        words_from(s, from + 1)
    } else {
        seq![s.subrange(from, word_end(s, from))] + words_from(s, word_end(s, from))
    }
}

#[via_fn]
proof fn words_from_terminates(s: Seq<char>, from: int) {
    if 0 <= from < s.len() {
        lemma_word_end_bounds(s, from);
    }
}

/// The words of a text.
pub open spec fn words(s: Seq<char>) -> Seq<Seq<char>> {
    words_from(s, 0)
}

/// A word ends after it starts and inside the text; it holds no whitespace,
/// and whitespace or the end of the text follows it.
pub proof fn lemma_word_end_bounds(s: Seq<char>, from: int)
    requires
        0 <= from <= s.len(),
    ensures
        from <= word_end(s, from) <= s.len(),
        from < s.len() && !is_space(s[from]) ==> from < word_end(s, from),
        forall|i: int| from <= i < word_end(s, from) ==> !is_space(#[trigger] s[i]),
        word_end(s, from) < s.len() ==> is_space(s[word_end(s, from)]),
    decreases s.len() - from,
{
    if from < s.len() && !is_space(s[from]) {
        lemma_word_end_bounds(s, from + 1);
    }
}

/// Whether `word` holds at least one character and no whitespace.
pub open spec fn is_word(word: Seq<char>) -> bool {
    word.len() > 0 && forall|i: int| 0 <= i < word.len() ==> !is_space(#[trigger] word[i])
}

/// Every word of a text holds at least one character and no whitespace.
pub proof fn lemma_words_are_solid(s: Seq<char>, from: int)
    requires
        0 <= from <= s.len(),
    ensures
        forall|k: int|
            0 <= k < words_from(s, from).len() ==> is_word(#[trigger] words_from(s, from)[k]),
    decreases s.len() - from,
{
    if from < s.len() {
        if is_space(s[from]) {
            lemma_words_are_solid(s, from + 1);
            assert(words_from(s, from) == words_from(s, from + 1));
        } else {
            let end = word_end(s, from);
            lemma_word_end_bounds(s, from);
            lemma_words_are_solid(s, end);
            assert(is_word(s.subrange(from, end)));
            assert forall|k: int| 0 <= k < words_from(s, from).len() implies is_word(
                #[trigger] words_from(s, from)[k],
            ) by {
                if k > 0 {
                    assert(words_from(s, from)[k] == words_from(s, end)[k - 1]);
                }
            }
        }
    }
}

/// From `from` on a text has no words exactly when it holds nothing but
/// whitespace there.
pub proof fn lemma_no_words_from(s: Seq<char>, from: int)
    requires
        0 <= from <= s.len(),
    ensures
        words_from(s, from).len() == 0 <==> forall|i: int|
            from <= i < s.len() ==> is_space(#[trigger] s[i]),
    decreases s.len() - from,
{
    if from < s.len() {
        if is_space(s[from]) {
            lemma_no_words_from(s, from + 1);
        }
    }
}

/// A text is blank exactly when it has no words.
pub proof fn lemma_blank_has_no_words(s: Seq<char>)
    ensures
        is_blank(s) <==> words(s).len() == 0,
{
    lemma_no_words_from(s, 0);
}

/// The words of a text, each as a string of its own.
pub fn split_words(text: &str) -> (out: Vec<String>)
    ensures
        out.deep_view() == words(text@),
{
    let chars = chars_of(text);
    let n = chars.len();
    let mut out: Vec<String> = Vec::new();
    let mut i: usize = 0;
    while i < n
        invariant
            i <= n,
            n == chars.len(),
            chars@ == text@,
            words(text@) == out.deep_view() + words_from(text@, i as int),
        decreases n - i,
    {
        if is_whitespace(chars[i]) {
            i += 1;
        } else {
            let start = i;
            proof {
                lemma_word_end_bounds(text@, start as int);
            }
            while i < n && !is_whitespace(chars[i])
                invariant
                    start <= i <= n,
                    n == chars.len(),
                    chars@ == text@,
                    word_end(text@, i as int) == word_end(text@, start as int),
                decreases n - i,
            {
                i += 1;
            }
            let word = string_of(vstd::slice::slice_subrange(chars.as_slice(), start, i));
            out.push(word);
        }
    }
    out
}

/// The words joined into one text, with a single space between neighbours.
pub open spec fn join_words(words: Seq<Seq<char>>) -> Seq<char>
    decreases words.len(),
{
    if words.len() == 0 {
        Seq::empty()
    } else if words.len() == 1 {
        words[0]
    } else {
        join_words(words.drop_last()) + seq![' '] + words.last()
    }
}

/// Joins `words` with single spaces.
pub fn join_with_spaces(words: &Vec<String>) -> (out: String)
    ensures
        out@ == join_words(words.deep_view()),
{
    let mut out = String::new();
    let mut i: usize = 0;
    while i < words.len()
        invariant
            i <= words.len(),
            out@ == join_words(words.deep_view().take(i as int)),
        decreases words.len() - i,
    {
        let ghost next = words.deep_view().take(i + 1);
        assert(next.drop_last() =~= words.deep_view().take(i as int));
        if i > 0 {
            out.push(' ');
        }
        out.append(words[i].as_str());
        i += 1;
    }
    assert(words.deep_view().take(i as int) =~= words.deep_view());
    out
}

} // verus!
