//! Reading the report of the media inspection tool: a JSON document whose
//! `format.duration` member holds the duration in seconds as a string.

use vstd::prelude::*;
use serde_json::Value;
use crate::decimal::{all_digits, decimal_value, digit_to_value, digit_value, is_all_digits, parse_decimal};
use crate::error::{ErrorKind, Failure, FailureModel};
use crate::text::chars_of;

verus! {

#[verifier::external_type_specification]
#[verifier::external_body]
pub struct ExJsonValue(serde_json::Value);

#[verifier::external_type_specification]
#[verifier::external_body]
pub struct ExJsonError(serde_json::Error);

/// The strings inside a JSON value, each under the path of object keys that
/// leads to it from the value. A value that is itself a string holds it
/// under the empty path; `null`, numbers, booleans and arrays hold none.
pub uninterp spec fn json_strings(value: Value) -> Map<Seq<Seq<char>>, Seq<char>>;

/// The strings of the JSON document that `text` is, or nothing when `text`
/// is no JSON document: what `serde_json::from_str` makes of the text.
pub uninterp spec fn parsed_json(text: Seq<char>) -> Option<Map<Seq<Seq<char>>, Seq<char>>>;

/// Calls `serde_json::from_str` for a `Value`. It fails when the text is no
/// JSON document, and else gives the value of the document; which of the two
/// depends on the text alone, and so does the value.
#[verifier::external_body]
fn json_from_str(text: &str) -> (out: Result<Value, serde_json::Error>)
    ensures
        match out {
            Ok(value) => parsed_json(text@) == Some(json_strings(value)),
            Err(_) => parsed_json(text@) is None,
        },
{
    serde_json::from_str::<Value>(text)
}

/// The strings that lie under the key `key`: those whose path starts with
/// it, each under the rest of its path.
pub open spec fn strings_under(strings: Map<Seq<Seq<char>>, Seq<char>>, key: Seq<char>) -> Map<
    Seq<Seq<char>>,
    Seq<char>,
> {
    Map::new(
        |path: Seq<Seq<char>>| strings.contains_key(seq![key] + path),
        |path: Seq<Seq<char>>| strings[seq![key] + path],
    )
}

/// Calls `Index::index` of `serde_json::Value` with a string key, which is
/// what `value[key]` does. Where the value is an object with that key the
/// result is the member, else it is `null`: so the result holds the strings
/// that lie under the key in `value`.
#[verifier::external_body]
fn json_member<'a>(value: &'a Value, key: &str) -> (out: &'a Value)
    ensures
        json_strings(*out) == strings_under(json_strings(*value), key@),
{
    &value[key]
}

/// Calls `serde_json::Value::as_str`, which gives the string where the value
/// is one and nothing otherwise.
#[verifier::external_body]
fn json_as_str<'a>(value: &'a Value) -> (out: Option<&'a str>)
    ensures
        match out {
            Some(text) => json_strings(*value).contains_key(Seq::empty()) && json_strings(
                *value,
            )[Seq::empty()] == text@,
            None => !json_strings(*value).contains_key(Seq::empty()),
        },
{
    value.as_str()
}

/// Where the report keeps the duration.
pub open spec fn duration_path() -> Seq<Seq<char>> {
    seq!["format"@, "duration"@]
}

/// The text of the duration in the strings of a report, if there is one.
pub open spec fn duration_field(strings: Map<Seq<Seq<char>>, Seq<char>>) -> Option<Seq<char>> {
    if strings.contains_key(duration_path()) {
        Some(strings[duration_path()])
    } else {
        None
    }
}

/// Index of the first decimal point at or after `from`, or the length of `s`
/// when there is none.
pub open spec fn point_position(s: Seq<char>, from: int) -> int
    decreases s.len() - from,
{
    if from < 0 || from >= s.len() || s[from] == '.' {
        from
    } else {
        point_position(s, from + 1)
    }
}

/// The value of the digit at `index` of `s`, zero where `s` is shorter.
pub open spec fn digit_at(s: Seq<char>, index: int) -> nat {
    if index < s.len() {
        digit_value(s[index])
    } else {
        0
    }
}

/// The milliseconds that a text of seconds denotes: one or more digits, and
/// optionally a decimal point and further digits, of which the first three
/// count. Any other text denotes nothing.
pub open spec fn parse_seconds_text(s: Seq<char>) -> Option<nat> {
    let point = point_position(s, 0);
    let whole = s.subrange(0, point);
    let fraction = if point < s.len() {
        s.subrange(point + 1, s.len() as int)
    } else {
        Seq::empty()
    };
    if whole.len() > 0 && all_digits(whole) && all_digits(fraction) {
        Some(
            decimal_value(whole) * 1000 + digit_at(fraction, 0) * 100 + digit_at(fraction, 1) * 10
                + digit_at(fraction, 2),
        )
    } else {
        None
    }
}

fn digit_or_zero(chars: &[char], index: usize) -> (out: u64)
    requires
        all_digits(chars@),
    ensures
        out == digit_at(chars@, index as int),
        out <= 9,
{
    if index < chars.len() {
        match digit_to_value(chars[index]) {
            Some(d) => d as u64,
            None => 0,
        }
    } else {
        0
    }
}

/// Reads a duration in seconds as milliseconds, rounding down. It yields
/// nothing when the text is no decimal number or the duration does not fit
/// in 64 bits.
pub fn parse_seconds(text: &str) -> (out: Option<u64>)
    ensures
        out == match parse_seconds_text(text@) {
            Some(ms) if ms <= u64::MAX => Some(ms as u64),
            _ => None,
        },
{
    let chars = chars_of(text);
    let n = chars.len();
    let mut point: usize = 0;
    while point < n && chars[point] != '.'
        invariant
            point <= n,
            n == chars.len(),
            chars@ == text@,
            point_position(text@, point as int) == point_position(text@, 0),
        decreases n - point,
    {
        point += 1;
    }
    let all = chars.as_slice();
    let whole = vstd::slice::slice_subrange(all, 0, point);
    let fraction = if point < n {
        vstd::slice::slice_subrange(all, point + 1, n)
    } else {
        vstd::slice::slice_subrange(all, n, n)
    };
    if point == 0 || !is_all_digits(fraction) {
        return None;
    }
    let below: u64 = digit_or_zero(fraction, 0) * 100 + digit_or_zero(fraction, 1) * 10
        + digit_or_zero(fraction, 2);
    match parse_decimal(whole) {
        None => None,
        Some(seconds) => match seconds.checked_mul(1000) {
            None => None,
            Some(ms) => ms.checked_add(below),
        },
    }
}

/// The duration that the duration member of a report gives. A report
/// without the member, or with one that is no decimal number, is refused.
pub open spec fn duration_of_field(field: Option<Seq<char>>) -> Result<nat, FailureModel> {
    match field {
        Some(text) => match parse_seconds_text(text) {
            Some(ms) if ms <= u64::MAX => Ok(ms),
            _ => Err(
                FailureModel { kind: ErrorKind::Duration, message: "Invalid duration format"@ },
            ),
        },
        None => Err(FailureModel { kind: ErrorKind::Duration, message: "Invalid duration format"@ }),
    }
}

/// The duration in milliseconds that a report gives.
pub open spec fn duration_of_report(report: Seq<char>) -> Result<nat, FailureModel> {
    match parsed_json(report) {
        Some(strings) => duration_of_field(duration_field(strings)),
        None => Err(FailureModel { kind: ErrorKind::Duration, message: "Invalid duration format"@ }),
    }
}

/// The view of a duration or the failure in its place.
pub open spec fn duration_view(result: Result<u64, Failure>) -> Result<nat, FailureModel> {
    match result {
        Ok(ms) => Ok(ms as nat),
        Err(failure) => Err(failure@),
    }
}

/// The duration in milliseconds from the duration member of a report.
pub fn duration_from_field(field: Option<&str>) -> (out: Result<u64, Failure>)
    ensures
        duration_view(out) == duration_of_field(
            match field {
                Some(text) => Some(text@),
                None => None,
            },
        ),
{
    match field {
        Some(text) => match parse_seconds(text) {
            Some(ms) => Ok(ms),
            None => Err(Failure::new(ErrorKind::Duration, "Invalid duration format")),
        },
        None => Err(Failure::new(ErrorKind::Duration, "Invalid duration format")),
    }
}

/// The duration in milliseconds that the report of the inspection tool
/// gives: that of its `format.duration` member.
pub fn probe_duration_ms(report: &str) -> (out: Result<u64, Failure>)
    ensures
        duration_view(out) == duration_of_report(report@),
{
    match json_from_str(report) {
        Err(_) => Err(Failure::new(ErrorKind::Duration, "Invalid duration format")),
        Ok(document) => {
            let format = json_member(&document, "format");
            let duration = json_member(format, "duration");
            let field = json_as_str(duration);
            assert(seq!["format"@] + (seq!["duration"@] + Seq::<Seq<char>>::empty())
                =~= duration_path());
            duration_from_field(field)
        },
    }
}

} // verus!
