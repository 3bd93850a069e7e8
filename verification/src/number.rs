//! Unsigned and signed integers in decimal: writing them and reading
//! them.

use vstd::prelude::*;
use crate::text::{chars_of, is_visible};

verus! {

/// The character of one decimal digit.
pub open spec fn digit_char(d: int) -> char {
    (('0' as u8) + d) as char
}

/// The decimal digits of a natural number, without leading zeros.
pub open spec fn decimal_nat(n: nat) -> Seq<char>
    decreases n,
{
    if n < 10 {
        seq![digit_char(n as int)]
    } else {
        decimal_nat(n / 10).push(digit_char((n % 10) as int))
    }
}

/// An integer in decimal, with a minus sign if it is negative.
pub open spec fn decimal(n: int) -> Seq<char> {
    if n < 0 {
        seq!['-'] + decimal_nat((-n) as nat)
    } else {
        decimal_nat(n as nat)
    }
}

fn push_decimal(out: &mut String, n: u64)
    ensures
        final(out)@ == old(out)@ + decimal_nat(n as nat),
    decreases n,
{
    if n >= 10 {
        push_decimal(out, n / 10);
    }
    let d: u8 = (n % 10) as u8;
    out.push((48u8 + d) as char);
    assert(final(out)@ =~= old(out)@ + decimal_nat(n as nat));
}

/// An unsigned integer in decimal.
pub fn decimal_u64(n: u64) -> (text: String)
    ensures
        text@ == decimal(n as int),
{
    let mut text = String::new();
    push_decimal(&mut text, n);
    text
}

/// A signed integer in decimal.
pub fn decimal_i64(n: i64) -> (text: String)
    ensures
        text@ == decimal(n as int),
{
    let mut text = String::new();
    if n < 0 {
        text.push('-');
        let magnitude: u64 = ((-(n + 1)) as u64) + 1;
        push_decimal(&mut text, magnitude);
    } else {
        push_decimal(&mut text, n as u64);
    }
    text
}

/// A decimal digit.
pub open spec fn is_digit(c: char) -> bool {
    '0' <= c && c <= '9'
}

/// The number that a decimal digit stands for.
pub open spec fn digit_value(c: char) -> nat {
    if is_digit(c) {
        (c as int - '0' as int) as nat
    } else {
        0
    }
}

/// The number that a run of decimal digits stands for.
pub open spec fn digits_value(digits: Seq<char>) -> nat
    decreases digits.len(),
{
    if digits.len() == 0 {
        0
    } else {
        digits_value(digits.drop_last()) * 10 + digit_value(digits.last())
    }
}

/// A text of decimal digits only.
pub open spec fn all_digits(s: Seq<char>) -> bool {
    forall|i: int| 0 <= i < s.len() ==> is_digit(#[trigger] s[i])
}

/// A text without the plus sign that may stand at its head.
pub open spec fn without_plus(s: Seq<char>) -> Seq<char> {
    if s.len() > 0 && s[0] == '+' {
        s.drop_first()
    } else {
        s
    }
}

/// The unsigned number that a text stands for, up to `max`: the text
/// is one or more decimal digits, with a plus sign before them or
/// without one, and with as many leading zeros as it likes. Any other
/// text, and a number above `max`, stands for nothing.
pub open spec fn parsed_unsigned(s: Seq<char>, max: nat) -> Option<nat> {
    let digits = without_plus(s);
    if digits.len() > 0 && all_digits(digits) && digits_value(digits) <= max {
        Some(digits_value(digits))
    } else {
        None
    }
}

/// Reads an unsigned decimal number of at most `max`.
pub fn parse_unsigned(s: &str, max: u64) -> (number: Option<u64>)
    ensures
        number is Some <==> parsed_unsigned(s@, max as nat) is Some,
        number is Some ==> number->0 == parsed_unsigned(s@, max as nat)->0,
{
    let chars = chars_of(s);
    let chars = chars.as_slice();
    let n: usize = chars.len();
    let skip: usize = if n > 0 && chars[0] == '+' {
        1
    } else {
        0
    };
    let digits = vstd::slice::slice_subrange(chars, skip, n);
    assert(digits@ =~= without_plus(s@));
    let m: usize = digits.len();
    if m == 0 {
        return None;
    }
    let mut value: u64 = 0;
    let mut i: usize = 0;
    while i < m
        invariant
            i <= m,
            m == digits@.len(),
            digits@ == without_plus(s@),
            all_digits(digits@.take(i as int)),
            value == digits_value(digits@.take(i as int)),
            value <= max,
        decreases m - i,
    {
        let c = digits[i];
        if !('0' <= c && c <= '9') {
            assert(!is_digit(digits@[i as int]));
            return None;
        }
        let d: u64 = (c as u64) - 48;
        proof {
            assert(digits@.take(i + 1).drop_last() =~= digits@.take(i as int));
            assert(digits_value(digits@.take(i + 1)) == value * 10 + d);
            lemma_digits_value_grows(digits@, i + 1);
        }
        if d > max || value > (max - d) / 10 {
            return None;
        }
        value = value * 10 + d;
        assert(all_digits(digits@.take(i + 1))) by {
            assert forall|k: int| 0 <= k < i + 1 implies is_digit(
                #[trigger] digits@.take(i + 1)[k],
            ) by {
                if k < i {
                    assert(is_digit(digits@.take(i as int)[k]));
                }
            }
        }
        i += 1;
    }
    assert(digits@.take(m as int) =~= digits@);
    Some(value)
}

/// A longer run of digits stands for no smaller number than its head.
pub proof fn lemma_digits_value_grows(digits: Seq<char>, head: int)
    requires
        0 <= head <= digits.len(),
    ensures
        digits_value(digits.take(head)) <= digits_value(digits),
    decreases digits.len(),
{
    if head < digits.len() {
        lemma_digits_value_grows(digits.drop_last(), head);
        assert(digits.drop_last().take(head) =~= digits.take(head));
    } else {
        assert(digits.take(head) =~= digits);
    }
}

/// Writing a number in decimal and reading it back gives the number:
/// its decimal form is a run of digits that stands for it, and starts
/// with a zero only where the number is zero.
pub proof fn decimal_reads_back(n: nat)
    ensures
        decimal_nat(n).len() > 0,
        all_digits(decimal_nat(n)),
        digits_value(decimal_nat(n)) == n,
        n > 0 ==> decimal_nat(n)[0] != '0',
        forall|max: nat| n <= max ==> parsed_unsigned(decimal(n as int), max) == Some(n),
    decreases n,
{
    let digits = decimal_nat(n);
    let last = (n % 10) as int;
    assert(digits.last() == digit_char(last));
    assert(is_digit(digit_char(last)) && digit_value(digit_char(last)) == last);
    if n >= 10 {
        decimal_reads_back(n / 10);
        assert(digits.drop_last() =~= decimal_nat(n / 10));
        assert(digits[0] == decimal_nat(n / 10)[0]);
        assert forall|i: int| 0 <= i < digits.len() implies is_digit(#[trigger] digits[i]) by {
            if i < digits.len() - 1 {
                assert(digits[i] == decimal_nat(n / 10)[i]);
            }
        }
    } else {
        assert(digits.drop_last() =~= Seq::<char>::empty());
        assert(digits_value(Seq::<char>::empty()) == 0);
    }
    assert(digits_value(digits) == digits_value(digits.drop_last()) * 10 + digit_value(
        digits.last(),
    ));
    assert(digits[0] != '+');
    assert(without_plus(decimal(n as int)) == digits);
}

/// The decimal form of an integer is visible.
pub proof fn lemma_decimal_is_visible(n: int)
    ensures
        is_visible(decimal(n)),
{
    if n < 0 {
        lemma_decimal_nat_is_visible((-n) as nat);
    } else {
        lemma_decimal_nat_is_visible(n as nat);
    }
}

proof fn lemma_decimal_nat_is_visible(n: nat)
    ensures
        is_visible(decimal_nat(n)),
    decreases n,
{
    if n >= 10 {
        lemma_decimal_nat_is_visible(n / 10);
    }
}

} // verus!
