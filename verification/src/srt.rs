//! The subtitle document: numbered blocks, each with a time range line and
//! the caption text in upper case.

use vstd::prelude::*;
use vstd::string::StringExecFns;
use crate::decimal::{
    all_digits,
    decimal,
    decimal_value,
    lemma_decimal_len,
    lemma_zero_padded,
    parse_decimal,
    push_decimal,
    push_zero_padded,
    zero_padded,
};
use crate::text::{chars_of, to_uppercase, uppercase_of};
use crate::timing::{CaptionCue, CueModel};

verus! {

/// Milliseconds in a second.
pub const MS_PER_SECOND: u64 = 1000;

/// Milliseconds in a minute.
pub const MS_PER_MINUTE: u64 = 60_000;

/// Milliseconds in an hour.
pub const MS_PER_HOUR: u64 = 3_600_000;

/// A time as `HH:MM:SS,mmm`: hours, minutes, seconds and milliseconds of
/// `ms`, by division and remainder. Hours take more than two digits when
/// they need them.
pub open spec fn time_text(ms: nat) -> Seq<char> {
    zero_padded(ms / 3_600_000, 2) + seq![':'] + zero_padded(ms / 60_000 % 60, 2) + seq![':']
        + zero_padded(ms / 1000 % 60, 2) + seq![','] + zero_padded(ms % 1000, 3)
}

/// The time in milliseconds that a text of the form `HH:MM:SS,mmm` denotes:
/// two or more digits of hours, two of minutes and of seconds, both below
/// sixty, and three of milliseconds.
pub open spec fn parse_time_text(s: Seq<char>) -> Option<nat> {
    let n = s.len() as int;
    if n < 12 {
        None
    } else {
        let hours = s.subrange(0, n - 10);
        let minutes = s.subrange(n - 9, n - 7);
        let seconds = s.subrange(n - 6, n - 4);
        let millis = s.subrange(n - 3, n);
        if s[n - 10] == ':' && s[n - 7] == ':' && s[n - 4] == ',' && all_digits(hours)
            && all_digits(minutes) && all_digits(seconds) && all_digits(millis) && decimal_value(
            minutes,
        ) < 60 && decimal_value(seconds) < 60 {
            Some(
                decimal_value(hours) * 3_600_000 + decimal_value(minutes) * 60_000 + decimal_value(
                    seconds,
                ) * 1000 + decimal_value(millis),
            )
        } else {
            None
        }
    }
}

/// Reading a formatted time gives back the time, to the millisecond.
pub proof fn lemma_time_round_trip(ms: nat)
    ensures
        parse_time_text(time_text(ms)) == Some(ms),
{
    let h = zero_padded(ms / 3_600_000, 2);
    let m = zero_padded(ms / 60_000 % 60, 2);
    let s = zero_padded(ms / 1000 % 60, 2);
    let f = zero_padded(ms % 1000, 3);
    lemma_zero_padded(ms / 3_600_000, 2);
    lemma_zero_padded(ms / 60_000 % 60, 2);
    lemma_zero_padded(ms / 1000 % 60, 2);
    lemma_zero_padded(ms % 1000, 3);
    lemma_decimal_len(ms / 60_000 % 60);
    lemma_decimal_len(ms / 1000 % 60);
    lemma_decimal_len(ms % 1000);
    let t = time_text(ms);
    let n = t.len() as int;
    assert(t.subrange(0, n - 10) =~= h);
    assert(t.subrange(n - 9, n - 7) =~= m);
    assert(t.subrange(n - 6, n - 4) =~= s);
    assert(t.subrange(n - 3, n) =~= f);
}

/// Formats a time in milliseconds as `HH:MM:SS,mmm`.
pub fn format_time(ms: u64) -> (out: String)
    ensures
        out@ == time_text(ms as nat),
{
    let mut out = String::new();
    push_time(&mut out, ms);
    out
}

/// Appends a time in milliseconds as `HH:MM:SS,mmm`.
pub fn push_time(out: &mut String, ms: u64)
    ensures
        final(out)@ == old(out)@ + time_text(ms as nat),
{
    push_zero_padded(out, ms / MS_PER_HOUR, 2);
    out.push(':');
    push_zero_padded(out, ms / MS_PER_MINUTE % 60, 2);
    out.push(':');
    push_zero_padded(out, ms / MS_PER_SECOND % 60, 2);
    out.push(',');
    push_zero_padded(out, ms % MS_PER_SECOND, 3);
}

/// Reads a time of the form `HH:MM:SS,mmm`. It yields nothing when the text
/// has another form or the time does not fit in 64 bits.
pub fn parse_time(text: &str) -> (out: Option<u64>)
    ensures
        out == match parse_time_text(text@) {
            Some(ms) if ms <= u64::MAX => Some(ms as u64),
            _ => None,
        },
{
    let chars = chars_of(text);
    let n = chars.len();
    if n < 12 {
        return None;
    }
    if chars[n - 10] != ':' || chars[n - 7] != ':' || chars[n - 4] != ',' {
        return None;
    }
    let all = chars.as_slice();
    let hours = parse_decimal(vstd::slice::slice_subrange(all, 0, n - 10));
    let minutes = parse_decimal(vstd::slice::slice_subrange(all, n - 9, n - 7));
    let seconds = parse_decimal(vstd::slice::slice_subrange(all, n - 6, n - 4));
    let millis = parse_decimal(vstd::slice::slice_subrange(all, n - 3, n));
    proof {
        lemma_short_value(text@.subrange(n - 9, n - 7));
        lemma_short_value(text@.subrange(n - 6, n - 4));
        lemma_short_value(text@.subrange(n - 3, n as int));
    }
    match (hours, minutes, seconds, millis) {
        (Some(h), Some(m), Some(s), Some(f)) => {
            if m >= 60 || s >= 60 {
                return None;
            }
            let below_hour: u64 = m * MS_PER_MINUTE + s * MS_PER_SECOND + f;
            match h.checked_mul(MS_PER_HOUR) {
                None => None,
                Some(hour_ms) => hour_ms.checked_add(below_hour),
            }
        },
        _ => None,
    }
}

/// One block of the document: the index, the time range, the text as it is
/// shown, and an empty line.
pub open spec fn cue_block(index: nat, start_ms: nat, end_ms: nat, shown: Seq<char>) -> Seq<
    char,
> {
    decimal(index) + seq!['\n'] + time_text(start_ms) + " --> "@ + time_text(end_ms) + seq!['\n']
        + shown + seq!['\n', '\n']
}

/// The blocks of the first `count` cues, numbered from one, each with its
/// text in upper case.
pub open spec fn document_upto(cues: Seq<CueModel>, count: int) -> Seq<char>
    decreases count,
{
    if count <= 0 {
        Seq::empty()
    } else {
        document_upto(cues, count - 1) + cue_block(
            count as nat,
            cues[count - 1].start_ms,
            cues[count - 1].end_ms,
            uppercase_of(cues[count - 1].text),
        )
    }
}

/// The subtitle document of the cues: all their blocks in order.
pub open spec fn subtitle_document(cues: Seq<CueModel>) -> Seq<char> {
    document_upto(cues, cues.len() as int)
}

/// Appends one block. `shown` is the text as it is to appear.
pub fn push_cue_block(out: &mut String, index: u64, start_ms: u64, end_ms: u64, shown: &str)
    ensures
        final(out)@ == old(out)@ + cue_block(
            index as nat,
            start_ms as nat,
            end_ms as nat,
            shown@,
        ),
{
    push_decimal(out, index);
    out.push('\n');
    push_time(out, start_ms);
    out.append(" --> ");
    push_time(out, end_ms);
    out.push('\n');
    out.append(shown);
    out.push('\n');
    out.push('\n');
}

/// One block of a subtitle document. `shown` is the text as it is to appear.
pub fn render_cue_block(index: u64, start_ms: u64, end_ms: u64, shown: &str) -> (out: String)
    ensures
        out@ == cue_block(index as nat, start_ms as nat, end_ms as nat, shown@),
{
    let mut out = String::new();
    push_cue_block(&mut out, index, start_ms, end_ms, shown);
    out
}

/// Renders the subtitle document of the cues.
pub fn render_document(cues: &Vec<CaptionCue>) -> (out: String)
    ensures
        out@ == subtitle_document(cues.deep_view()),
{
    let mut out = String::new();
    let mut k: usize = 0;
    while k < cues.len()
        invariant
            k <= cues.len(),
            out@ == document_upto(cues.deep_view(), k as int),
        decreases cues.len() - k,
    {
        let cue = &cues[k];
        let shown = to_uppercase(cue.text.as_str());
        push_cue_block(&mut out, (k + 1) as u64, cue.start_ms, cue.end_ms, shown.as_str());
        k += 1;
    }
    out
}

/// A string of at most three digits denotes a number below a thousand.
proof fn lemma_short_value(s: Seq<char>)
    requires
        s.len() <= 3,
    ensures
        all_digits(s) ==> decimal_value(s) < 1000,
    decreases s.len(),
{
    reveal_with_fuel(decimal_value, 4);
}

} // verus!
