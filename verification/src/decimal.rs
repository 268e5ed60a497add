//! Integers as decimal text: what the text is, how long it is, and the
//! formatting itself, which `itoa` does.

use vstd::prelude::*;
use crate::container::StringTypeMut;

verus! {

/// The ASCII digit for `d`, where `d` is below ten.
pub open spec fn digit(d: nat) -> u8 {
    (48 + d) as u8
}

/// The decimal digits of `n` as ASCII, most significant first, without
/// leading zeros; zero is the single digit `0`.
pub open spec fn digits(n: nat) -> Seq<u8>
    decreases n,
{
    if n < 10 {
        seq![digit(n)]
    } else {
        digits(n / 10).push(digit(n % 10))
    }
}

/// The decimal text of `v`: its digits, behind a minus sign where `v` is
/// negative.
pub open spec fn decimal(v: int) -> Seq<u8> {
    if v < 0 {
        seq![45u8] + digits((-v) as nat)
    } else {
        digits(v as nat)
    }
}

/// Ten to the power `k`.
pub open spec fn pow10(k: nat) -> nat
    decreases k,
{
    if k == 0 {
        1
    } else {
        10 * pow10((k - 1) as nat)
    }
}

/// A number below ten to the `k` has at most `k` digits.
pub proof fn lemma_digits_len(n: nat, k: nat)
    requires
        k >= 1,
        n < pow10(k),
    ensures
        1 <= digits(n).len() <= k,
    decreases k,
{
    if n >= 10 {
        assert(pow10(1) == 10) by {
            reveal_with_fuel(pow10, 2);
        }
        assert(k >= 2);
        lemma_digits_len(n / 10, (k - 1) as nat);
    }
}

/// No 128-bit number has more than 39 digits.
pub proof fn lemma_digits_len_u128(value: u128)
    ensures
        1 <= digits(value as nat).len() <= 39,
{
    assert(pow10(39) == 1_000_000_000_000_000_000_000_000_000_000_000_000_000nat) by {
        reveal_with_fuel(pow10, 40);
    }
    lemma_digits_len(value as nat, 39);
}

/// The number of decimal digits of `value`.
pub fn count_digits(value: u128) -> (count: usize)
    ensures
        count == digits(value as nat).len(),
        1 <= count <= 39,
{
    proof {
        lemma_digits_len_u128(value);
    }
    if value == 0 {
        1
    } else {
        let mut rest = value;
        let mut count: usize = 0;
        while rest > 0
            invariant
                digits(value as nat).len() <= 39,
                rest > 0 ==> digits(value as nat).len() == count + digits(rest as nat).len(),
                rest == 0 ==> digits(value as nat).len() == count,
            decreases rest,
        {
            rest = rest / 10;
            count = count + 1;
        }
        count
    }
}

/// The size of `value` without its sign.
pub fn magnitude(value: i128) -> (size: u128)
    ensures
        size == if value < 0 {
            -value
        } else {
            value as int
        },
{
    if value < 0 {
        (-(value + 1)) as u128 + 1
    } else {
        value as u128
    }
}

/// The length of the decimal text of `value`: its digits, and one more for
/// the sign of a negative number.
pub fn count_decimal(value: i128) -> (count: usize)
    ensures
        count == decimal(value as int).len(),
        1 <= count <= 40,
{
    let digits = count_digits(magnitude(value));
    if value < 0 {
        digits + 1
    } else {
        digits
    }
}

/// `itoa::Buffer`, carried through as it is.
#[verifier::external_type_specification]
#[verifier::external_body]
pub struct ExBuffer(itoa::Buffer);

/// `itoa::Buffer::new` gives a buffer to format into; nothing is said of
/// what it holds.
pub assume_specification[ itoa::Buffer::new ]() -> (buffer: itoa::Buffer)
;

/// `itoa::Buffer::format` on an unsigned integer: the text it returns is the
/// decimal digits of `value`.
#[verifier::external_body]
pub(crate) fn format_unsigned<'a>(buffer: &'a mut itoa::Buffer, value: u128) -> (text: &'a str)
    ensures
        crate::encoding::utf8(text@) == digits(value as nat),
{
    buffer.format(value)
}

/// `itoa::Buffer::format` on a signed integer: the text it returns is the
/// decimal text of `value`, with a minus sign where it is negative.
#[verifier::external_body]
pub(crate) fn format_signed<'a>(buffer: &'a mut itoa::Buffer, value: i128) -> (text: &'a str)
    ensures
        crate::encoding::utf8(text@) == decimal(value as int),
{
    buffer.format(value)
}

/// Appends the decimal digits of `value` to `buffer`.
pub fn push_unsigned<TString: StringTypeMut>(buffer: &mut TString, value: u128)
    ensures
        final(buffer).buffered() == old(buffer).buffered() + digits(value as nat),
{
    let mut scratch = itoa::Buffer::new();
    let text = format_unsigned(&mut scratch, value);
    buffer.push_str(text);
}

/// Appends the decimal text of `value` to `buffer`.
pub fn push_signed<TString: StringTypeMut>(buffer: &mut TString, value: i128)
    ensures
        final(buffer).buffered() == old(buffer).buffered() + decimal(value as int),
{
    let mut scratch = itoa::Buffer::new();
    let text = format_signed(&mut scratch, value);
    buffer.push_str(text);
}

/// Writes the decimal digits of `value` into `fmt`.
pub fn write_unsigned(fmt: &mut core::fmt::Formatter<'_>, value: u128) -> (outcome: Result<
    (),
    core::fmt::Error,
>)
    ensures
        outcome is Ok ==> crate::sink::written(*final(fmt)) == crate::sink::written(*old(fmt))
            + digits(value as nat),
{
    let mut scratch = itoa::Buffer::new();
    let text = format_unsigned(&mut scratch, value);
    fmt.write_str(text)
}

/// Writes the decimal text of `value` into `fmt`.
pub fn write_signed(fmt: &mut core::fmt::Formatter<'_>, value: i128) -> (outcome: Result<
    (),
    core::fmt::Error,
>)
    ensures
        outcome is Ok ==> crate::sink::written(*final(fmt)) == crate::sink::written(*old(fmt))
            + decimal(value as int),
{
    let mut scratch = itoa::Buffer::new();
    let text = format_signed(&mut scratch, value);
    fmt.write_str(text)
}

} // verus!
