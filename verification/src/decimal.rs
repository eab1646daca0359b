//! Whole numbers in decimal digits.

use vstd::prelude::*;
#[allow(unused_imports)]
use vstd::string::StringSliceAdditionalSpecFns;

verus! {

/// Whether `b` is an ASCII digit.
pub open spec fn is_digit(b: u8) -> bool {
    0x30 <= b <= 0x39
}

/// Whether `digits` is one ASCII digit or more, and nothing else.
pub open spec fn is_number(digits: Seq<u8>) -> bool {
    &&& digits.len() > 0
    &&& forall|i: int| 0 <= i < digits.len() ==> is_digit(#[trigger] digits[i])
}

/// The number that `digits` writes, most significant digit first.
pub open spec fn value(digits: Seq<u8>) -> nat
    decreases digits.len(),
{
    if digits.len() == 0 {
        0
    } else {
        10 * value(digits.drop_last()) + (digits.last() - 0x30) as nat
    }
}

/// The digits of `n`, most significant first, without leading zeros.
pub open spec fn decimal(n: nat) -> Seq<u8>
    decreases n,
{
    if n < 10 {
        seq![(0x30 + n) as u8]
    } else {
        decimal(n / 10).push((0x30 + n % 10) as u8)
    }
}

/// `text` without the plus sign that it may begin with.
pub open spec fn without_sign(text: Seq<u8>) -> Seq<u8> {
    if text.len() > 0 && text[0] == 0x2b {
        text.skip(1)
    } else {
        text
    }
}

/// The number that `text` writes, where it is an optional plus sign and
/// digits, and the number is at most `max`.
pub open spec fn number_in(text: Seq<u8>, max: nat) -> Option<nat> {
    let digits = without_sign(text);
    if is_number(digits) && value(digits) <= max {
        Some(value(digits))
    } else {
        None
    }
}

/// The digits of a number write that number.
pub proof fn decimal_writes_its_number(n: nat)
    ensures
        is_number(decimal(n)),
        value(decimal(n)) == n,
    decreases n,
{
    if n < 10 {
        let d = decimal(n);
        assert(d.drop_last() =~= Seq::<u8>::empty());
        assert(value(d.drop_last()) == 0);
    } else {
        decimal_writes_its_number(n / 10);
        assert(decimal(n).drop_last() =~= decimal(n / 10));
    }
}

/// A number is read back from its digits.
pub proof fn decimal_is_read_back(n: nat, max: nat)
    requires
        n <= max,
    ensures
        number_in(decimal(n), max) == Some(n),
{
    decimal_writes_its_number(n);
    assert(is_digit(decimal(n)[0]));
}

/// A number is one digit or more, and each byte of it is one of `0` to `9`.
pub proof fn numbers_are_digits(text: Seq<u8>)
    ensures
        is_number(text) <==> text.len() > 0 && forall|i: int|
            0 <= i < text.len() ==> 48 <= #[trigger] text[i] <= 57,
{
    if is_number(text) {
        assert forall|i: int| 0 <= i < text.len() implies 48 <= #[trigger] text[i] <= 57 by {
            assert(is_digit(text[i]));
        }
    }
}

/// A digit put behind others makes ten times their number and the digit; no
/// digits at all make 0.
pub proof fn digits_are_positional(digits: Seq<u8>, digit: nat)
    requires
        digit < 10,
    ensures
        value(Seq::<u8>::empty()) == 0,
        value(digits.push((48 + digit) as u8)) == 10 * value(digits) + digit,
{
    assert(digits.push((48 + digit) as u8).drop_last() =~= digits);
}

/// Digits are read as the number that they write, with leading zeros or without
/// and behind a plus sign too, as long as it is not too large.
pub proof fn digits_are_read(digits: Seq<u8>, max: nat)
    requires
        digits.len() > 0,
        forall|i: int| 0 <= i < digits.len() ==> 48 <= #[trigger] digits[i] <= 57,
    ensures
        value(digits) <= max ==> number_in(digits, max) == Some(value(digits)),
        value(digits) > max ==> number_in(digits, max) is None,
        number_in(seq![43u8] + digits, max) == number_in(digits, max),
        without_sign(digits) == digits,
        without_sign(seq![43u8] + digits) == digits,
{
    numbers_are_digits(digits);
    assert(digits[0] != 43);
    assert((seq![43u8] + digits).skip(1) =~= digits);
}

/// What is read as a number is digits, behind a plus sign or not, and no more
/// than the largest number that is asked for.
pub proof fn only_digits_are_read(text: Seq<u8>, max: nat)
    ensures
        number_in(text, max) matches Some(n) ==> {
            &&& n <= max
            &&& text.len() > 0
            &&& 48 <= text[0] <= 57 || text[0] == 43 && text.len() > 1
            &&& forall|i: int| 1 <= i < text.len() ==> 48 <= #[trigger] text[i] <= 57
        },
{
    let digits = without_sign(text);
    if number_in(text, max) is Some {
        assert(is_digit(digits[0]));
        assert forall|i: int| 1 <= i < text.len() implies 48 <= #[trigger] text[i] <= 57 by {
            let at = if text[0] == 43 {
                i - 1
            } else {
                i
            };
            assert(digits[at] == text[i]);
            assert(is_digit(digits[at]));
        }
    }
}

/// The digits of a number have no zero in front, but for the number 0, which is
/// one digit.
pub proof fn digits_are_shortest(n: nat)
    ensures
        decimal(n).len() > 0,
        decimal(n)[0] == 48 <==> n == 0,
        decimal(n).len() == 1 <==> n < 10,
    decreases n,
{
    if n >= 10 {
        digits_are_shortest(n / 10);
    }
}

/// A number of digits only grows as digits are added to it.
proof fn lemma_value_prefix(digits: Seq<u8>, n: int)
    requires
        is_number(digits),
        0 <= n <= digits.len(),
    ensures
        value(digits.take(n)) <= value(digits),
    decreases digits.len() - n,
{
    if n == digits.len() {
        assert(digits.take(n) =~= digits);
    } else {
        lemma_value_prefix(digits, n + 1);
        assert(digits.take(n + 1).drop_last() =~= digits.take(n));
        assert(is_digit(digits[n]));
    }
}

/// The number that `text` writes, as for a decimal integer: an optional plus
/// sign, then only digits, and no more than a `usize` can hold.
pub fn parse_usize(text: &str) -> (r: Option<usize>)
    ensures
        r matches Some(n) ==> number_in(text.spec_bytes(), usize::MAX as nat) == Some(n as nat),
        r is None ==> number_in(text.spec_bytes(), usize::MAX as nat) is None,
{
    let b = text.as_bytes();
    let ghost digits = without_sign(b@);
    let total: usize = b.len();
    let start: usize = if total > 0 && b[0] == 0x2b {
        1
    } else {
        0
    };
    assert(digits =~= b@.skip(start as int));
    if start == total {
        return None;
    }
    let mut n: usize = 0;
    let mut i: usize = start;
    assert(digits.take(0) =~= Seq::<u8>::empty());
    while i < total
        invariant
            b@ == text.spec_bytes(),
            total == b@.len(),
            start <= i <= total,
            start < total,
            start <= 1,
            digits == without_sign(b@),
            digits == b@.skip(start as int),
            forall|k: int| 0 <= k < i - start ==> is_digit(#[trigger] digits[k]),
            n == value(digits.take(i - start)),
        decreases total - i,
    {
        let d: u8 = b[i];
        assert(digits[i - start] == d);
        if d < 0x30 || d > 0x39 {
            assert(!is_digit(digits[i - start]));
            return None;
        }
        assert(digits.take(i - start + 1).drop_last() =~= digits.take(i - start));
        assert(digits.take(i - start + 1).last() == d);
        let digit: usize = (d - 0x30) as usize;
        if n > usize::MAX / 10 || 10 * n > usize::MAX - digit {
            proof {
                if is_number(digits) {
                    lemma_value_prefix(digits, i - start + 1);
                }
            }
            return None;
        }
        n = 10 * n + digit;
        i += 1;
    }
    assert(digits.take(total - start) =~= digits);
    Some(n)
}

/// Writes `n` in decimal digits.
pub fn format_u16(n: u16) -> (r: Vec<u8>)
    ensures
        r@ == decimal(n as nat),
    decreases n,
{
    if n < 10 {
        vec![0x30 + n as u8]
    } else {
        let mut r = format_u16(n / 10);
        r.push(0x30 + (n % 10) as u8);
        r
    }
}

} // verus!
