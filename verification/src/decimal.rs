//! Decimal numerals: writing natural numbers as digit strings and reading
//! them back.

use vstd::prelude::*;

verus! {

/// The character of the decimal digit `d`.
pub open spec fn digit_char(d: nat) -> char {
    if d == 0 {
        '0'
    } else if d == 1 {
        '1'
    } else if d == 2 {
        '2'
    } else if d == 3 {
        '3'
    } else if d == 4 {
        '4'
    } else if d == 5 {
        '5'
    } else if d == 6 {
        '6'
    } else if d == 7 {
        '7'
    } else if d == 8 {
        '8'
    } else {
        '9'
    }
}

/// Whether `c` is one of the ten decimal digits.
pub open spec fn is_digit(c: char) -> bool {
    '0' <= c <= '9'
}

/// The value of the decimal digit `c`.
pub open spec fn digit_value(c: char) -> nat {
    (c as u32 - '0' as u32) as nat
}

/// The decimal numeral of `n`, without leading zeros.
pub open spec fn decimal(n: nat) -> Seq<char>
    decreases n,
{
    if n < 10 {
        seq![digit_char(n)]
    } else {
        decimal(n / 10).push(digit_char(n % 10))
    }
}

/// `count` zeros.
pub open spec fn zeros(count: nat) -> Seq<char> {
    Seq::new(count, |i: int| '0')
}

/// The decimal numeral of `n`, with zeros in front until it is `width`
/// characters long; longer numerals are left as they are.
pub open spec fn zero_padded(n: nat, width: nat) -> Seq<char> {
    if decimal(n).len() >= width {
        decimal(n)
    } else {
        zeros((width - decimal(n).len()) as nat) + decimal(n)
    }
}

/// Whether `s` holds decimal digits only.
pub open spec fn all_digits(s: Seq<char>) -> bool {
    forall|i: int| 0 <= i < s.len() ==> is_digit(#[trigger] s[i])
}

/// The number that the digit string `s` denotes; leading zeros do not count.
pub open spec fn decimal_value(s: Seq<char>) -> nat
    decreases s.len(),
{
    if s.len() == 0 {
        0
    } else {
        decimal_value(s.drop_last()) * 10 + digit_value(s.last())
    }
}

/// The digit character of `d`; that of nine for a larger number.
pub fn digit_of(d: u8) -> (c: char)
    ensures
        c == digit_char(d as nat),
        is_digit(c),
        d < 10 ==> digit_value(c) == d,
{
    match d {
        0 => '0',
        1 => '1',
        2 => '2',
        3 => '3',
        4 => '4',
        5 => '5',
        6 => '6',
        7 => '7',
        8 => '8',
        _ => '9',
    }
}

/// The value of `c` when it is a decimal digit.
pub fn digit_to_value(c: char) -> (d: Option<u8>)
    ensures
        d == if is_digit(c) {
            Some(digit_value(c) as u8)
        } else {
            None
        },
{
    if '0' <= c && c <= '9' {
        Some((c as u32 - '0' as u32) as u8)
    } else {
        None
    }
}

/// Every digit character is a digit and has the value it was made from.
pub proof fn lemma_digit_char(d: nat)
    requires
        d < 10,
    ensures
        is_digit(digit_char(d)),
        digit_value(digit_char(d)) == d,
{
}

/// A numeral is never empty, holds digits only and denotes its number.
pub proof fn lemma_decimal_value(n: nat)
    ensures
        decimal(n).len() >= 1,
        all_digits(decimal(n)),
        decimal_value(decimal(n)) == n,
    decreases n,
{
    if n < 10 {
        lemma_digit_char(n);
        assert(decimal(n).drop_last() =~= Seq::<char>::empty());
        assert(decimal_value(Seq::<char>::empty()) == 0);
    } else {
        lemma_decimal_value(n / 10);
        lemma_digit_char(n % 10);
        assert(decimal(n).drop_last() =~= decimal(n / 10));
    }
}

/// Numbers below ten, a hundred and a thousand have numerals of at most one,
/// two and three digits.
pub proof fn lemma_decimal_len(n: nat)
    ensures
        n < 10 ==> decimal(n).len() == 1,
        10 <= n < 100 ==> decimal(n).len() == 2,
        100 <= n < 1000 ==> decimal(n).len() == 3,
        n >= 10 ==> decimal(n).len() >= 2,
{
    reveal_with_fuel(decimal, 3);
    if n >= 10 {
        lemma_decimal_value(n / 10);
    }
}

/// Zeros in front of a digit string do not change its value.
pub proof fn lemma_leading_zeros(count: nat, s: Seq<char>)
    ensures
        decimal_value(zeros(count) + s) == decimal_value(s),
        all_digits(s) ==> all_digits(zeros(count) + s),
    decreases s.len(), count,
{
    let z = zeros(count);
    if s.len() > 0 {
        lemma_leading_zeros(count, s.drop_last());
        assert((z + s).drop_last() =~= z + s.drop_last());
    } else if count > 0 {
        lemma_leading_zeros((count - 1) as nat, s);
        assert(z.drop_last() =~= zeros((count - 1) as nat));
    }
}

/// A padded numeral holds digits only, denotes its number and is at least
/// as long as asked for.
pub proof fn lemma_zero_padded(n: nat, width: nat)
    ensures
        zero_padded(n, width).len() >= width,
        zero_padded(n, width).len() >= 1,
        zero_padded(n, width).len() == if decimal(n).len() >= width {
            decimal(n).len()
        } else {
            width
        },
        all_digits(zero_padded(n, width)),
        decimal_value(zero_padded(n, width)) == n,
{
    lemma_decimal_value(n);
    if decimal(n).len() < width {
        lemma_leading_zeros((width - decimal(n).len()) as nat, decimal(n));
    }
}

/// The digits of `n`, most significant first.
pub fn decimal_digits(n: u64) -> (out: Vec<char>)
    ensures
        out@ == decimal(n as nat),
{
    let mut out: Vec<char> = Vec::new();
    out.push(digit_of((n % 10) as u8));
    let mut rest: u64 = n / 10;
    while rest > 0
        invariant
            decimal(n as nat) == if rest > 0 {
                decimal(rest as nat) + out@
            } else {
                out@
            },
        decreases rest,
    {
        out.insert(0, digit_of((rest % 10) as u8));
        rest = rest / 10;
    }
    out
}

/// Appends the numeral of `n`, padded with zeros to `width` characters.
pub fn push_zero_padded(out: &mut String, n: u64, width: usize)
    ensures
        final(out)@ == old(out)@ + zero_padded(n as nat, width as nat),
{
    let digits = decimal_digits(n);
    let mut k: usize = digits.len();
    while k < width
        invariant
            digits.len() <= k,
            k <= width || k == digits.len(),
            out@ == old(out)@ + zeros((k - digits.len()) as nat),
        decreases width - k,
    {
        out.push('0');
        k += 1;
    }
    let ghost padded = out@;
    let mut i: usize = 0;
    while i < digits.len()
        invariant
            i <= digits.len(),
            out@ == padded + digits@.take(i as int),
        decreases digits.len() - i,
    {
        out.push(digits[i]);
        i += 1;
    }
}

/// Appends the numeral of `n`.
pub fn push_decimal(out: &mut String, n: u64)
    ensures
        final(out)@ == old(out)@ + decimal(n as nat),
{
    proof {
        lemma_decimal_value(n as nat);
    }
    push_zero_padded(out, n, 1);
}

/// The numeral of `n`.
pub fn decimal_string(n: u64) -> (out: String)
    ensures
        out@ == decimal(n as nat),
{
    let mut out = String::new();
    push_decimal(&mut out, n);
    out
}

/// Whether `chars` holds decimal digits only.
pub fn is_all_digits(chars: &[char]) -> (out: bool)
    ensures
        out == all_digits(chars@),
{
    let mut i: usize = 0;
    while i < chars.len()
        invariant
            i <= chars.len(),
            forall|k: int| 0 <= k < i ==> is_digit(#[trigger] chars@[k]),
        decreases chars.len() - i,
    {
        if digit_to_value(chars[i]).is_none() {
            return false;
        }
        i += 1;
    }
    true
}

/// The value of a digit string never falls when digits are added at its end.
pub proof fn lemma_value_of_prefix(s: Seq<char>, len: int)
    requires
        0 <= len <= s.len(),
    ensures
        decimal_value(s.take(len)) <= decimal_value(s),
    decreases s.len() - len,
{
    if len < s.len() {
        lemma_value_of_prefix(s, len + 1);
        assert(s.take(len + 1).drop_last() =~= s.take(len));
    } else {
        assert(s.take(len) =~= s);
    }
}

/// Reads a string of decimal digits. It yields nothing when a character is
/// no digit or the number is too large for 64 bits.
pub fn parse_decimal(chars: &[char]) -> (out: Option<u64>)
    ensures
        out == if all_digits(chars@) && decimal_value(chars@) <= u64::MAX {
            Some(decimal_value(chars@) as u64)
        } else {
            None
        },
{
    let mut acc: u64 = 0;
    let mut i: usize = 0;
    while i < chars.len()
        invariant
            i <= chars.len(),
            all_digits(chars@.take(i as int)),
            acc == decimal_value(chars@.take(i as int)),
        decreases chars.len() - i,
    {
        let ghost next = chars@.take(i + 1);
        assert(next.drop_last() =~= chars@.take(i as int));
        proof {
            lemma_value_of_prefix(chars@, i + 1);
        }
        match digit_to_value(chars[i]) {
            None => {
                return None;
            },
            Some(d) => {
                match acc.checked_mul(10) {
                    None => {
                        return None;
                    },
                    Some(tens) => {
                        match tens.checked_add(d as u64) {
                            None => {
                                return None;
                            },
                            Some(sum) => {
                                acc = sum;
                            },
                        }
                    },
                }
            },
        }
        i += 1;
        assert forall|k: int| 0 <= k < next.len() implies is_digit(#[trigger] next[k]) by {}
    }
    assert(chars@.take(i as int) =~= chars@);
    Some(acc)
}

} // verus!
