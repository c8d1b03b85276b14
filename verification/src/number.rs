//! Decimal numerals: writing and reading of `u64`.

use vstd::prelude::*;

use crate::text::characters;

verus! {

/// The decimal digit for `d`, which is below ten.
pub open spec fn digit_char(d: nat) -> char {
    (48 + d) as char
}

/// Whether `c` is an ASCII decimal digit.
pub open spec fn is_digit(c: char) -> bool {
    '0' <= c <= '9'
}

/// The number that the digits of `s` write.
pub open spec fn digits_value(s: Seq<char>) -> nat
    decreases s.len(),
{
    if s.len() == 0 {
        0
    } else {
        digits_value(s.drop_last()) * 10 + (s.last() as nat - 48) as nat
    }
}

/// The decimal numeral of `n`, without leading zeros.
pub open spec fn decimal(n: nat) -> Seq<char>
    decreases n,
{
    if n < 10 {
        seq![digit_char(n)]
    } else {
        decimal(n / 10).push(digit_char(n % 10))
    }
}

/// The digits of a numeral: what follows an optional plus sign.
pub open spec fn numeral_digits(s: Seq<char>) -> Seq<char> {
    if s.len() > 0 && s[0] == '+' {
        s.skip(1)
    } else {
        s
    }
}

/// The `u64` that `s` writes: an optional plus sign, then one or more digits,
/// with a value in range. Nothing else is a number.
pub open spec fn number(s: Seq<char>) -> Option<u64> {
    let digits = numeral_digits(s);
    if digits.len() > 0 && (forall|i: int| 0 <= i < digits.len() ==> is_digit(#[trigger] digits[i]))
        && digits_value(digits) <= u64::MAX {
        Some(digits_value(digits) as u64)
    } else {
        None
    }
}

/// A longer run of digits writes no smaller number.
proof fn lemma_value_grows(s: Seq<char>, n: int)
    requires
        0 <= n <= s.len(),
    ensures
        digits_value(s.take(n)) <= digits_value(s),
    decreases s.len() - n,
{
    if n == s.len() {
        assert(s.take(n) =~= s);
    } else {
        lemma_value_grows(s, n + 1);
        assert(s.take(n + 1).drop_last() =~= s.take(n));
    }
}

/// A numeral holds at least one character, all of them digits, and is worth
/// the number that it was written for.
pub proof fn lemma_decimal(n: nat)
    ensures
        decimal(n).len() > 0,
        forall|i: int| 0 <= i < decimal(n).len() ==> is_digit(#[trigger] decimal(n)[i]),
        digits_value(decimal(n)) == n,
    decreases n,
{
    if n < 10 {
        assert(decimal(n).drop_last() =~= Seq::<char>::empty());
        assert(digits_value(decimal(n).drop_last()) == 0);
    } else {
        lemma_decimal(n / 10);
        assert(decimal(n).drop_last() =~= decimal(n / 10));
    }
}

/// Reading a written number gives the number back.
pub proof fn law_number_of_decimal(n: u64)
    ensures
        number(decimal(n as nat)) == Some(n),
{
    lemma_decimal(n as nat);
    assert(is_digit(decimal(n as nat)[0]));
}

/// Different numbers are written differently.
pub proof fn law_decimal_injective(a: nat, b: nat)
    requires
        decimal(a) == decimal(b),
    ensures
        a == b,
{
    lemma_decimal(a);
    lemma_decimal(b);
}

/// The decimal numeral of `n`.
pub fn write_number(n: u64) -> (r: String)
    ensures
        r@ == decimal(n as nat),
    decreases n,
{
    let digit = (48 + (n % 10) as u8) as char;
    let mut r = if n < 10 {
        String::new()
    } else {
        write_number(n / 10)
    };
    r.push(digit);
    assert(n < 10 ==> r@ =~= decimal(n as nat));
    r
}

/// The `u64` that `text` writes, if it writes one.
pub fn read_number(text: &str) -> (r: Option<u64>)
    ensures
        r == number(text@),
{
    let chars = characters(text);
    let start: usize = if chars.len() > 0 && chars[0] == '+' {
        1
    } else {
        0
    };
    let ghost digits = numeral_digits(text@);
    assert(chars@.skip(0) =~= chars@);
    assert(digits == chars@.skip(start as int));
    if start == chars.len() {
        return None;
    }
    let mut value: u64 = 0;
    assert(digits.take(0) =~= Seq::<char>::empty());
    for i in start..chars.len()
        invariant
            start <= chars@.len(),
            digits == chars@.skip(start as int),
            digits == numeral_digits(text@),
            forall|j: int| 0 <= j < i - start ==> is_digit(#[trigger] digits[j]),
            value == digits_value(digits.take(i - start)),
    {
        let c = chars[i];
        assert(digits[i - start] == c);
        if c < '0' || '9' < c {
            return None;
        }
        let d: u64 = (c as u8 - 48) as u64;
        proof {
            assert(digits.take(i - start + 1).drop_last() =~= digits.take(i - start));
            lemma_value_grows(digits, i - start + 1);
        }
        if value > u64::MAX / 10 || value * 10 > u64::MAX - d {
            return None;
        }
        value = value * 10 + d;
    }
    assert(digits.take(chars@.len() - start) =~= digits);
    Some(value)
}

/// A plus sign before a number makes no difference, and what is read as a number
/// is written in digits alone, with at most that sign before them.
pub proof fn law_number_is_written_in_digits(s: Seq<char>, n: u64, i: int)
    ensures
        number(seq!['+'] + decimal(n as nat)) == Some(n),
        number(s) is Some && 0 <= i < s.len() ==> '0' <= s[i] <= '9' || i == 0 && s[i] == '+',
        number(s) is Some ==> s.len() > 0,
{
    let signed = seq!['+'] + decimal(n as nat);
    assert(signed.skip(1) =~= decimal(n as nat));
    lemma_decimal(n as nat);
    if number(s) is Some && 0 <= i < s.len() {
        let digits = numeral_digits(s);
        if s[0] == '+' {
            if i > 0 {
                assert(is_digit(digits[i - 1]));
            }
        } else {
            assert(is_digit(digits[i]));
        }
    }
}

/// Digits are worth ten times what stands before the last, and the last.
pub proof fn law_digits_are_decimal(s: Seq<char>, d: char)
    requires
        '0' <= d <= '9',
        number(s) matches Some(n) && n < 1000000000000000000,
    ensures
        number(s.push(d)) == Some((number(s)->0 * 10 + (d as int - '0' as int)) as u64),
{
    let digits = numeral_digits(s);
    let more = numeral_digits(s.push(d));
    assert(more =~= digits.push(d));
    assert(more.drop_last() =~= digits);
    assert forall|i: int| 0 <= i < more.len() implies is_digit(#[trigger] more[i]) by {
        if i < digits.len() {
            assert(is_digit(digits[i]));
        }
    }
}

} // verus!
