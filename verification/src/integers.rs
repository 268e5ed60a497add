//! The native integers as appendable values: as decimal text in a string,
//! and as their bytes, in either byte order, in a byte buffer.

use vstd::prelude::*;
use crate::container::BytesTypeMut;
use crate::container::StringTypeMut;
use crate::value::EndianBytesAppendable;
use crate::value::StringAppendableValue;

verus! {

impl EndianBytesAppendable for u8 {
    open spec fn le_bytes(&self) -> Seq<u8> {
        crate::endian::le_bytes(*self as nat, 1)
    }

    open spec fn be_bytes(&self) -> Seq<u8> {
        crate::endian::be_bytes(*self as nat, 1)
    }

    fn byte_len(&self) -> (n: usize) {
        proof {
            crate::endian::lemma_bytes_len(*self as nat, 1);
        }
        1
    }

    fn push_le_to<TBytes: BytesTypeMut>(&self, bytes: &mut TBytes) {
        crate::endian::push_le(bytes, *self as u128, 1)
    }

    fn push_be_to<TBytes: BytesTypeMut>(&self, bytes: &mut TBytes) {
        crate::endian::push_be(bytes, *self as u128, 1)
    }
}

impl StringAppendableValue for u8 {
    open spec fn text(&self) -> Seq<u8> {
        crate::decimal::digits(*self as nat)
    }

    fn byte_len(&self) -> (n: usize) {
        crate::decimal::count_digits(*self as u128)
    }

    fn push_to<TString: StringTypeMut>(&self, buffer: &mut TString) {
        crate::decimal::push_unsigned(buffer, *self as u128)
    }

    fn write_to_formatter(&self, fmt: &mut core::fmt::Formatter<'_>) -> (outcome: Result<
        (),
        core::fmt::Error,
    >) {
        crate::decimal::write_unsigned(fmt, *self as u128)
    }
}

impl EndianBytesAppendable for u16 {
    open spec fn le_bytes(&self) -> Seq<u8> {
        crate::endian::le_bytes(*self as nat, 2)
    }

    open spec fn be_bytes(&self) -> Seq<u8> {
        crate::endian::be_bytes(*self as nat, 2)
    }

    fn byte_len(&self) -> (n: usize) {
        proof {
            crate::endian::lemma_bytes_len(*self as nat, 2);
        }
        2
    }

    fn push_le_to<TBytes: BytesTypeMut>(&self, bytes: &mut TBytes) {
        crate::endian::push_le(bytes, *self as u128, 2)
    }

    fn push_be_to<TBytes: BytesTypeMut>(&self, bytes: &mut TBytes) {
        crate::endian::push_be(bytes, *self as u128, 2)
    }
}

impl StringAppendableValue for u16 {
    open spec fn text(&self) -> Seq<u8> {
        crate::decimal::digits(*self as nat)
    }

    fn byte_len(&self) -> (n: usize) {
        crate::decimal::count_digits(*self as u128)
    }

    fn push_to<TString: StringTypeMut>(&self, buffer: &mut TString) {
        crate::decimal::push_unsigned(buffer, *self as u128)
    }

    fn write_to_formatter(&self, fmt: &mut core::fmt::Formatter<'_>) -> (outcome: Result<
        (),
        core::fmt::Error,
    >) {
        crate::decimal::write_unsigned(fmt, *self as u128)
    }
}

impl EndianBytesAppendable for u32 {
    open spec fn le_bytes(&self) -> Seq<u8> {
        crate::endian::le_bytes(*self as nat, 4)
    }

    open spec fn be_bytes(&self) -> Seq<u8> {
        crate::endian::be_bytes(*self as nat, 4)
    }

    fn byte_len(&self) -> (n: usize) {
        proof {
            crate::endian::lemma_bytes_len(*self as nat, 4);
        }
        4
    }

    fn push_le_to<TBytes: BytesTypeMut>(&self, bytes: &mut TBytes) {
        crate::endian::push_le(bytes, *self as u128, 4)
    }

    fn push_be_to<TBytes: BytesTypeMut>(&self, bytes: &mut TBytes) {
        crate::endian::push_be(bytes, *self as u128, 4)
    }
}

impl StringAppendableValue for u32 {
    open spec fn text(&self) -> Seq<u8> {
        crate::decimal::digits(*self as nat)
    }

    fn byte_len(&self) -> (n: usize) {
        crate::decimal::count_digits(*self as u128)
    }

    fn push_to<TString: StringTypeMut>(&self, buffer: &mut TString) {
        crate::decimal::push_unsigned(buffer, *self as u128)
    }

    fn write_to_formatter(&self, fmt: &mut core::fmt::Formatter<'_>) -> (outcome: Result<
        (),
        core::fmt::Error,
    >) {
        crate::decimal::write_unsigned(fmt, *self as u128)
    }
}

impl EndianBytesAppendable for u64 {
    open spec fn le_bytes(&self) -> Seq<u8> {
        crate::endian::le_bytes(*self as nat, 8)
    }

    open spec fn be_bytes(&self) -> Seq<u8> {
        crate::endian::be_bytes(*self as nat, 8)
    }

    fn byte_len(&self) -> (n: usize) {
        proof {
            crate::endian::lemma_bytes_len(*self as nat, 8);
        }
        8
    }

    fn push_le_to<TBytes: BytesTypeMut>(&self, bytes: &mut TBytes) {
        crate::endian::push_le(bytes, *self as u128, 8)
    }

    fn push_be_to<TBytes: BytesTypeMut>(&self, bytes: &mut TBytes) {
        crate::endian::push_be(bytes, *self as u128, 8)
    }
}

impl StringAppendableValue for u64 {
    open spec fn text(&self) -> Seq<u8> {
        crate::decimal::digits(*self as nat)
    }

    fn byte_len(&self) -> (n: usize) {
        crate::decimal::count_digits(*self as u128)
    }

    fn push_to<TString: StringTypeMut>(&self, buffer: &mut TString) {
        crate::decimal::push_unsigned(buffer, *self as u128)
    }

    fn write_to_formatter(&self, fmt: &mut core::fmt::Formatter<'_>) -> (outcome: Result<
        (),
        core::fmt::Error,
    >) {
        crate::decimal::write_unsigned(fmt, *self as u128)
    }
}

impl EndianBytesAppendable for u128 {
    open spec fn le_bytes(&self) -> Seq<u8> {
        crate::endian::le_bytes(*self as nat, 16)
    }

    open spec fn be_bytes(&self) -> Seq<u8> {
        crate::endian::be_bytes(*self as nat, 16)
    }

    fn byte_len(&self) -> (n: usize) {
        proof {
            crate::endian::lemma_bytes_len(*self as nat, 16);
        }
        16
    }

    fn push_le_to<TBytes: BytesTypeMut>(&self, bytes: &mut TBytes) {
        crate::endian::push_le(bytes, *self, 16)
    }

    fn push_be_to<TBytes: BytesTypeMut>(&self, bytes: &mut TBytes) {
        crate::endian::push_be(bytes, *self, 16)
    }
}

impl StringAppendableValue for u128 {
    open spec fn text(&self) -> Seq<u8> {
        crate::decimal::digits(*self as nat)
    }

    fn byte_len(&self) -> (n: usize) {
        crate::decimal::count_digits(*self)
    }

    fn push_to<TString: StringTypeMut>(&self, buffer: &mut TString) {
        crate::decimal::push_unsigned(buffer, *self)
    }

    fn write_to_formatter(&self, fmt: &mut core::fmt::Formatter<'_>) -> (outcome: Result<
        (),
        core::fmt::Error,
    >) {
        crate::decimal::write_unsigned(fmt, *self)
    }
}

impl EndianBytesAppendable for usize {
    open spec fn le_bytes(&self) -> Seq<u8> {
        crate::endian::le_bytes(*self as nat, crate::endian::word_bytes())
    }

    open spec fn be_bytes(&self) -> Seq<u8> {
        crate::endian::be_bytes(*self as nat, crate::endian::word_bytes())
    }

    fn byte_len(&self) -> (n: usize) {
        proof {
            crate::endian::lemma_bytes_len(*self as nat, crate::endian::word_bytes());
        }
        crate::endian::word_width()
    }

    fn push_le_to<TBytes: BytesTypeMut>(&self, bytes: &mut TBytes) {
        crate::endian::push_le(bytes, *self as u128, crate::endian::word_width())
    }

    fn push_be_to<TBytes: BytesTypeMut>(&self, bytes: &mut TBytes) {
        crate::endian::push_be(bytes, *self as u128, crate::endian::word_width())
    }
}

impl StringAppendableValue for usize {
    open spec fn text(&self) -> Seq<u8> {
        crate::decimal::digits(*self as nat)
    }

    fn byte_len(&self) -> (n: usize) {
        crate::decimal::count_digits(*self as u128)
    }

    fn push_to<TString: StringTypeMut>(&self, buffer: &mut TString) {
        crate::decimal::push_unsigned(buffer, *self as u128)
    }

    fn write_to_formatter(&self, fmt: &mut core::fmt::Formatter<'_>) -> (outcome: Result<
        (),
        core::fmt::Error,
    >) {
        crate::decimal::write_unsigned(fmt, *self as u128)
    }
}

impl EndianBytesAppendable for i8 {
    open spec fn le_bytes(&self) -> Seq<u8> {
        crate::endian::le_bytes(
            crate::endian::twos_complement(*self as int, 1),
            1,
        )
    }

    open spec fn be_bytes(&self) -> Seq<u8> {
        crate::endian::be_bytes(
            crate::endian::twos_complement(*self as int, 1),
            1,
        )
    }

    fn byte_len(&self) -> (n: usize) {
        proof {
            crate::endian::lemma_bytes_len(
                crate::endian::twos_complement(*self as int, 1),
                1,
            );
        }
        1
    }

    fn push_le_to<TBytes: BytesTypeMut>(&self, bytes: &mut TBytes) {
        proof {
            crate::endian::lemma_pow256_widths();
        }
        crate::endian::push_le_signed(bytes, *self as i128, 1)
    }

    fn push_be_to<TBytes: BytesTypeMut>(&self, bytes: &mut TBytes) {
        proof {
            crate::endian::lemma_pow256_widths();
        }
        crate::endian::push_be_signed(bytes, *self as i128, 1)
    }
}

impl StringAppendableValue for i8 {
    open spec fn text(&self) -> Seq<u8> {
        crate::decimal::decimal(*self as int)
    }

    fn byte_len(&self) -> (n: usize) {
        crate::decimal::count_decimal(*self as i128)
    }

    fn push_to<TString: StringTypeMut>(&self, buffer: &mut TString) {
        crate::decimal::push_signed(buffer, *self as i128)
    }

    fn write_to_formatter(&self, fmt: &mut core::fmt::Formatter<'_>) -> (outcome: Result<
        (),
        core::fmt::Error,
    >) {
        crate::decimal::write_signed(fmt, *self as i128)
    }
}

impl EndianBytesAppendable for i16 {
    open spec fn le_bytes(&self) -> Seq<u8> {
        crate::endian::le_bytes(
            crate::endian::twos_complement(*self as int, 2),
            2,
        )
    }

    open spec fn be_bytes(&self) -> Seq<u8> {
        crate::endian::be_bytes(
            crate::endian::twos_complement(*self as int, 2),
            2,
        )
    }

    fn byte_len(&self) -> (n: usize) {
        proof {
            crate::endian::lemma_bytes_len(
                crate::endian::twos_complement(*self as int, 2),
                2,
            );
        }
        2
    }

    fn push_le_to<TBytes: BytesTypeMut>(&self, bytes: &mut TBytes) {
        proof {
            crate::endian::lemma_pow256_widths();
        }
        crate::endian::push_le_signed(bytes, *self as i128, 2)
    }

    fn push_be_to<TBytes: BytesTypeMut>(&self, bytes: &mut TBytes) {
        proof {
            crate::endian::lemma_pow256_widths();
        }
        crate::endian::push_be_signed(bytes, *self as i128, 2)
    }
}

impl StringAppendableValue for i16 {
    open spec fn text(&self) -> Seq<u8> {
        crate::decimal::decimal(*self as int)
    }

    fn byte_len(&self) -> (n: usize) {
        crate::decimal::count_decimal(*self as i128)
    }

    fn push_to<TString: StringTypeMut>(&self, buffer: &mut TString) {
        crate::decimal::push_signed(buffer, *self as i128)
    }

    fn write_to_formatter(&self, fmt: &mut core::fmt::Formatter<'_>) -> (outcome: Result<
        (),
        core::fmt::Error,
    >) {
        crate::decimal::write_signed(fmt, *self as i128)
    }
}

impl EndianBytesAppendable for i32 {
    open spec fn le_bytes(&self) -> Seq<u8> {
        crate::endian::le_bytes(
            crate::endian::twos_complement(*self as int, 4),
            4,
        )
    }

    open spec fn be_bytes(&self) -> Seq<u8> {
        crate::endian::be_bytes(
            crate::endian::twos_complement(*self as int, 4),
            4,
        )
    }

    fn byte_len(&self) -> (n: usize) {
        proof {
            crate::endian::lemma_bytes_len(
                crate::endian::twos_complement(*self as int, 4),
                4,
            );
        }
        4
    }

    fn push_le_to<TBytes: BytesTypeMut>(&self, bytes: &mut TBytes) {
        proof {
            crate::endian::lemma_pow256_widths();
        }
        crate::endian::push_le_signed(bytes, *self as i128, 4)
    }

    fn push_be_to<TBytes: BytesTypeMut>(&self, bytes: &mut TBytes) {
        proof {
            crate::endian::lemma_pow256_widths();
        }
        crate::endian::push_be_signed(bytes, *self as i128, 4)
    }
}

impl StringAppendableValue for i32 {
    open spec fn text(&self) -> Seq<u8> {
        crate::decimal::decimal(*self as int)
    }

    fn byte_len(&self) -> (n: usize) {
        crate::decimal::count_decimal(*self as i128)
    }

    fn push_to<TString: StringTypeMut>(&self, buffer: &mut TString) {
        crate::decimal::push_signed(buffer, *self as i128)
    }

    fn write_to_formatter(&self, fmt: &mut core::fmt::Formatter<'_>) -> (outcome: Result<
        (),
        core::fmt::Error,
    >) {
        crate::decimal::write_signed(fmt, *self as i128)
    }
}

impl EndianBytesAppendable for i64 {
    open spec fn le_bytes(&self) -> Seq<u8> {
        crate::endian::le_bytes(
            crate::endian::twos_complement(*self as int, 8),
            8,
        )
    }

    open spec fn be_bytes(&self) -> Seq<u8> {
        crate::endian::be_bytes(
            crate::endian::twos_complement(*self as int, 8),
            8,
        )
    }

    fn byte_len(&self) -> (n: usize) {
        proof {
            crate::endian::lemma_bytes_len(
                crate::endian::twos_complement(*self as int, 8),
                8,
            );
        }
        8
    }

    fn push_le_to<TBytes: BytesTypeMut>(&self, bytes: &mut TBytes) {
        proof {
            crate::endian::lemma_pow256_widths();
        }
        crate::endian::push_le_signed(bytes, *self as i128, 8)
    }

    fn push_be_to<TBytes: BytesTypeMut>(&self, bytes: &mut TBytes) {
        proof {
            crate::endian::lemma_pow256_widths();
        }
        crate::endian::push_be_signed(bytes, *self as i128, 8)
    }
}

impl StringAppendableValue for i64 {
    open spec fn text(&self) -> Seq<u8> {
        crate::decimal::decimal(*self as int)
    }

    fn byte_len(&self) -> (n: usize) {
        crate::decimal::count_decimal(*self as i128)
    }

    fn push_to<TString: StringTypeMut>(&self, buffer: &mut TString) {
        crate::decimal::push_signed(buffer, *self as i128)
    }

    fn write_to_formatter(&self, fmt: &mut core::fmt::Formatter<'_>) -> (outcome: Result<
        (),
        core::fmt::Error,
    >) {
        crate::decimal::write_signed(fmt, *self as i128)
    }
}

impl EndianBytesAppendable for i128 {
    open spec fn le_bytes(&self) -> Seq<u8> {
        crate::endian::le_bytes(
            crate::endian::twos_complement(*self as int, 16),
            16,
        )
    }

    open spec fn be_bytes(&self) -> Seq<u8> {
        crate::endian::be_bytes(
            crate::endian::twos_complement(*self as int, 16),
            16,
        )
    }

    fn byte_len(&self) -> (n: usize) {
        proof {
            crate::endian::lemma_bytes_len(
                crate::endian::twos_complement(*self as int, 16),
                16,
            );
        }
        16
    }

    fn push_le_to<TBytes: BytesTypeMut>(&self, bytes: &mut TBytes) {
        proof {
            crate::endian::lemma_pow256_widths();
        }
        crate::endian::push_le_signed(bytes, *self, 16)
    }

    fn push_be_to<TBytes: BytesTypeMut>(&self, bytes: &mut TBytes) {
        proof {
            crate::endian::lemma_pow256_widths();
        }
        crate::endian::push_be_signed(bytes, *self, 16)
    }
}

impl StringAppendableValue for i128 {
    open spec fn text(&self) -> Seq<u8> {
        crate::decimal::decimal(*self as int)
    }

    fn byte_len(&self) -> (n: usize) {
        crate::decimal::count_decimal(*self)
    }

    fn push_to<TString: StringTypeMut>(&self, buffer: &mut TString) {
        crate::decimal::push_signed(buffer, *self)
    }

    fn write_to_formatter(&self, fmt: &mut core::fmt::Formatter<'_>) -> (outcome: Result<
        (),
        core::fmt::Error,
    >) {
        crate::decimal::write_signed(fmt, *self)
    }
}

impl EndianBytesAppendable for isize {
    open spec fn le_bytes(&self) -> Seq<u8> {
        crate::endian::le_bytes(
            crate::endian::twos_complement(*self as int, crate::endian::word_bytes()),
            crate::endian::word_bytes(),
        )
    }

    open spec fn be_bytes(&self) -> Seq<u8> {
        crate::endian::be_bytes(
            crate::endian::twos_complement(*self as int, crate::endian::word_bytes()),
            crate::endian::word_bytes(),
        )
    }

    fn byte_len(&self) -> (n: usize) {
        proof {
            crate::endian::lemma_bytes_len(
                crate::endian::twos_complement(*self as int, crate::endian::word_bytes()),
                crate::endian::word_bytes(),
            );
        }
        crate::endian::word_width()
    }

    fn push_le_to<TBytes: BytesTypeMut>(&self, bytes: &mut TBytes) {
        proof {
            crate::endian::lemma_pow256_widths();
        }
        crate::endian::push_le_signed(bytes, *self as i128, crate::endian::word_width())
    }

    fn push_be_to<TBytes: BytesTypeMut>(&self, bytes: &mut TBytes) {
        proof {
            crate::endian::lemma_pow256_widths();
        }
        crate::endian::push_be_signed(bytes, *self as i128, crate::endian::word_width())
    }
}

impl StringAppendableValue for isize {
    open spec fn text(&self) -> Seq<u8> {
        crate::decimal::decimal(*self as int)
    }

    fn byte_len(&self) -> (n: usize) {
        crate::decimal::count_decimal(*self as i128)
    }

    fn push_to<TString: StringTypeMut>(&self, buffer: &mut TString) {
        crate::decimal::push_signed(buffer, *self as i128)
    }

    fn write_to_formatter(&self, fmt: &mut core::fmt::Formatter<'_>) -> (outcome: Result<
        (),
        core::fmt::Error,
    >) {
        crate::decimal::write_signed(fmt, *self as i128)
    }
}

} // verus!
