//! Fixed-width integers as bytes, in either byte order.
//!
//! An integer of `width` bytes is its base-256 digits; a negative one is
//! taken in two's complement first.

use vstd::prelude::*;
use crate::container::BytesTypeMut;

verus! {

/// 256 to the power `width`: the number of values that `width` bytes hold.
pub open spec fn pow256(width: nat) -> nat
    decreases width,
{
    if width == 0 {
        1
    } else {
        256 * pow256((width - 1) as nat)
    }
}

/// The `width` lowest base-256 digits of `value`, least significant first.
pub open spec fn le_bytes(value: nat, width: nat) -> Seq<u8>
    decreases width,
{
    if width == 0 {
        Seq::empty()
    } else {
        seq![(value % 256) as u8] + le_bytes(value / 256, (width - 1) as nat)
    }
}

/// The `width` lowest base-256 digits of `value`, most significant first.
pub open spec fn be_bytes(value: nat, width: nat) -> Seq<u8>
    decreases width,
{
    if width == 0 {
        Seq::empty()
    } else {
        be_bytes(value / 256, (width - 1) as nat).push((value % 256) as u8)
    }
}

/// The unsigned number with the same `width` bytes as `value` has in two's
/// complement.
pub open spec fn twos_complement(value: int, width: nat) -> nat {
    if value < 0 {
        (value + pow256(width)) as nat
    } else {
        value as nat
    }
}

/// Both byte orders give `width` bytes.
pub proof fn lemma_bytes_len(value: nat, width: nat)
    ensures
        le_bytes(value, width).len() == width,
        be_bytes(value, width).len() == width,
    decreases width,
{
    if width > 0 {
        lemma_bytes_len(value / 256, (width - 1) as nat);
    }
}

/// More bytes hold more values.
pub proof fn lemma_pow256_grows(narrow: nat, wide: nat)
    requires
        narrow <= wide,
    ensures
        1 <= pow256(narrow) <= pow256(wide),
    decreases wide,
{
    if narrow < wide {
        lemma_pow256_grows(narrow, (wide - 1) as nat);
    } else if wide > 0 {
        lemma_pow256_grows((narrow - 1) as nat, (wide - 1) as nat);
    }
}

/// Fifteen bytes hold 2 to the 120 values.
pub proof fn lemma_pow256_15()
    ensures
        pow256(15) == 0x1_00_0000_0000_0000_0000_0000_0000_0000nat,
{
    reveal_with_fuel(pow256, 16);
}

/// 256 to the power `width`, for widths whose power fits.
pub fn radix_power(width: usize) -> (power: u128)
    requires
        width < 16,
    ensures
        power == pow256(width as nat),
        power <= 0x1_00_0000_0000_0000_0000_0000_0000_0000u128,
{
    let mut power: u128 = 1;
    let mut done: usize = 0;
    proof {
        lemma_pow256_15();
        lemma_pow256_grows(0, 15);
    }
    while done < width
        invariant
            done <= width < 16,
            power == pow256(done as nat),
            power <= pow256(15),
            pow256(15) == 0x1_00_0000_0000_0000_0000_0000_0000_0000nat,
        decreases width - done,
    {
        proof {
            lemma_pow256_grows((done + 1) as nat, 15);
        }
        power = power * 256;
        done = done + 1;
    }
    power
}

/// The unsigned number whose `width` bytes are those of `value` in two's
/// complement.
pub fn unsigned_image(value: i128, width: usize) -> (image: u128)
    requires
        1 <= width <= 16,
        -(pow256(width as nat) / 2) <= value < pow256(width as nat) / 2,
    ensures
        image == twos_complement(value as int, width as nat),
        image < pow256(width as nat),
{
    if value >= 0 {
        value as u128
    } else if width == 16 {
        proof {
            lemma_pow256_16();
        }
        let above_min: i128 = value - i128::MIN;
        above_min as u128 + 0x8000_0000_0000_0000_0000_0000_0000_0000u128
    } else {
        let power: u128 = radix_power(width);
        (value + power as i128) as u128
    }
}

/// Sixteen bytes hold 2 to the 128 values.
pub proof fn lemma_pow256_16()
    ensures
        pow256(16) == 0x1_0000_0000_0000_0000_0000_0000_0000_0000nat,
{
    reveal_with_fuel(pow256, 17);
}

/// Appends the `width` lowest bytes of `value`, least significant first.
pub fn push_le<B: BytesTypeMut>(bytes: &mut B, value: u128, width: usize)
    ensures
        final(bytes).buffered() == old(bytes).buffered() + le_bytes(value as nat, width as nat),
{
    let mut rest: u128 = value;
    let mut done: usize = 0;
    while done < width
        invariant
            done <= width,
            bytes.buffered() + le_bytes(rest as nat, (width - done) as nat) == old(
                bytes,
            ).buffered() + le_bytes(value as nat, width as nat),
        decreases width - done,
    {
        let low: u8 = (rest % 256) as u8;
        bytes.push(low);
        rest = rest / 256;
        done = done + 1;
    }
}

/// Appends the `width` lowest bytes of `value`, most significant first.
pub fn push_be<B: BytesTypeMut>(bytes: &mut B, value: u128, width: usize)
    ensures
        final(bytes).buffered() == old(bytes).buffered() + be_bytes(value as nat, width as nat),
    decreases width,
{
    if width > 0 {
        push_be(bytes, value / 256, width - 1);
        let low: u8 = (value % 256) as u8;
        bytes.push(low);
    }
}

/// Appends the `width` bytes that `value` has in two's complement, least
/// significant first.
pub fn push_le_signed<B: BytesTypeMut>(bytes: &mut B, value: i128, width: usize)
    requires
        1 <= width <= 16,
        -(pow256(width as nat) / 2) <= value < pow256(width as nat) / 2,
    ensures
        final(bytes).buffered() == old(bytes).buffered() + le_bytes(
            twos_complement(value as int, width as nat),
            width as nat,
        ),
{
    let image: u128 = unsigned_image(value, width);
    push_le(bytes, image, width)
}

/// Appends the `width` bytes that `value` has in two's complement, most
/// significant first.
pub fn push_be_signed<B: BytesTypeMut>(bytes: &mut B, value: i128, width: usize)
    requires
        1 <= width <= 16,
        -(pow256(width as nat) / 2) <= value < pow256(width as nat) / 2,
    ensures
        final(bytes).buffered() == old(bytes).buffered() + be_bytes(
            twos_complement(value as int, width as nat),
            width as nat,
        ),
{
    let image: u128 = unsigned_image(value, width);
    push_be(bytes, image, width)
}

/// The number of bytes in a `usize`.
pub open spec fn word_bytes() -> nat {
    if usize::MAX == 0xffff_ffff {
        4
    } else {
        8
    }
}

/// The number of bytes in a `usize`.
pub fn word_width() -> (width: usize)
    ensures
        width == word_bytes(),
        width == 4 || width == 8,
        pow256(width as nat) == usize::MAX + 1,
{
    proof {
        reveal_with_fuel(pow256, 9);
    }
    if usize::MAX as u128 == 0xffff_ffffu128 {
        4
    } else {
        8
    }
}

/// The number of values that one, two, four, eight and sixteen bytes hold.
pub proof fn lemma_pow256_widths()
    ensures
        pow256(1) == 0x100,
        pow256(2) == 0x1_0000,
        pow256(4) == 0x1_0000_0000,
        pow256(8) == 0x1_0000_0000_0000_0000,
        pow256(16) == 0x1_0000_0000_0000_0000_0000_0000_0000_0000,
        pow256(word_bytes()) == usize::MAX + 1,
{
    reveal_with_fuel(pow256, 17);
}

} // verus!
