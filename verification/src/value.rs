//! What can be appended: how a value reports the bytes it stands for, and
//! how it hands them to a container or to a formatter.

use vstd::prelude::*;
use crate::container::BytesTypeMut;
use crate::container::StringTypeMut;

verus! {

/// A value that is appended to a text as UTF-8.
///
/// The three methods agree: `byte_len` is the length of what `push_to`
/// appends and of what `write_to_formatter` writes. Measuring once and
/// filling afterwards relies on that.
pub trait StringAppendableValue {
    /// The UTF-8 bytes that the value stands for.
    ///
    /// An implementation that is verified says what these are; left alone,
    /// nothing is known of them.
    open spec fn text(&self) -> Seq<u8> {
        vstd::pervasive::arbitrary()
    }

    /// The number of bytes that the value appends.
    fn byte_len(&self) -> (n: usize)
        ensures
            n == self.text().len(),
    ;

    /// Appends the value to `buffer`.
    fn push_to<TString: StringTypeMut>(&self, buffer: &mut TString)
        ensures
            final(buffer).buffered() == old(buffer).buffered() + self.text(),
    ;

    /// Writes the value into `fmt`. Where the write succeeds, the formatter
    /// has taken exactly the value's bytes.
    fn write_to_formatter(&self, fmt: &mut core::fmt::Formatter<'_>) -> (outcome: Result<
        (),
        core::fmt::Error,
    >)
        ensures
            outcome is Ok ==> crate::sink::written(*final(fmt)) == crate::sink::written(*old(fmt))
                + self.text(),
    ;
}

/// A value that is appended to a byte buffer.
pub trait BytesAppendableValue {
    /// The bytes that the value stands for.
    ///
    /// An implementation that is verified says what these are; left alone,
    /// nothing is known of them.
    open spec fn raw(&self) -> Seq<u8> {
        vstd::pervasive::arbitrary()
    }

    /// The number of bytes that the value appends.
    fn byte_len(&self) -> (n: usize)
        ensures
            n == self.raw().len(),
    ;

    /// Appends the value to `bytes`.
    fn push_to<TBytes: BytesTypeMut>(&self, bytes: &mut TBytes)
        ensures
            final(bytes).buffered() == old(bytes).buffered() + self.raw(),
    ;
}

/// A number that is appended as its bytes, in a byte order that the caller
/// picks.
pub trait EndianBytesAppendable {
    /// The bytes of the number, least significant first.
    ///
    /// An implementation that is verified says what these are; left alone,
    /// nothing is known of them.
    open spec fn le_bytes(&self) -> Seq<u8> {
        vstd::pervasive::arbitrary()
    }

    /// The bytes of the number, most significant first.
    ///
    /// An implementation that is verified says what these are; left alone,
    /// nothing is known of them.
    open spec fn be_bytes(&self) -> Seq<u8> {
        vstd::pervasive::arbitrary()
    }

    /// The number of bytes that the number appends, in either order.
    fn byte_len(&self) -> (n: usize)
        ensures
            n == self.le_bytes().len(),
            n == self.be_bytes().len(),
    ;

    /// Appends the number, least significant byte first.
    fn push_le_to<TBytes: BytesTypeMut>(&self, bytes: &mut TBytes)
        ensures
            final(bytes).buffered() == old(bytes).buffered() + self.le_bytes(),
    ;

    /// Appends the number, most significant byte first.
    fn push_be_to<TBytes: BytesTypeMut>(&self, bytes: &mut TBytes)
        ensures
            final(bytes).buffered() == old(bytes).buffered() + self.be_bytes(),
    ;
}

/// `char::len_utf8` is the number of bytes of the character's UTF-8
/// encoding.
pub assume_specification[ char::len_utf8 ](c: char) -> (n: usize)
    ensures
        n == crate::encoding::char_bytes(c).len(),
;

/// `char::encode_utf8` into a buffer of four bytes, which is always enough:
/// the buffer begins with the character's encoding, whose length is
/// returned.
#[verifier::external_body]
fn encode_char(c: char, buffer: &mut [u8; 4]) -> (n: usize)
    ensures
        n == crate::encoding::char_bytes(c).len(),
        n <= 4,
        final(buffer)@.subrange(0, n as int) == crate::encoding::char_bytes(c),
{
    c.encode_utf8(buffer).len()
}

/// The string slice that a `Cow` holds, borrowed or owned.
fn cow_str<'a>(text: &'a std::borrow::Cow<'a, str>) -> (slice: &'a str)
    ensures
        slice@ == text@,
{
    match text {
        std::borrow::Cow::Borrowed(borrowed) => borrowed,
        std::borrow::Cow::Owned(owned) => owned.as_str(),
    }
}

impl StringAppendableValue for &str {
    open spec fn text(&self) -> Seq<u8> {
        crate::encoding::utf8(self@)
    }

    fn byte_len(&self) -> (n: usize) {
        crate::encoding::str_len(self)
    }

    fn push_to<TString: StringTypeMut>(&self, buffer: &mut TString) {
        buffer.push_str(self);
    }

    fn write_to_formatter(&self, fmt: &mut core::fmt::Formatter<'_>) -> (outcome: Result<
        (),
        core::fmt::Error,
    >) {
        fmt.write_str(self)
    }
}

impl BytesAppendableValue for &str {
    open spec fn raw(&self) -> Seq<u8> {
        crate::encoding::utf8(self@)
    }

    fn byte_len(&self) -> (n: usize) {
        crate::encoding::str_len(self)
    }

    fn push_to<TBytes: BytesTypeMut>(&self, bytes: &mut TBytes) {
        bytes.extend_from_slice(self.as_bytes());
    }
}

impl StringAppendableValue for &String {
    open spec fn text(&self) -> Seq<u8> {
        crate::encoding::utf8(self@)
    }

    fn byte_len(&self) -> (n: usize) {
        crate::encoding::str_len(self.as_str())
    }

    fn push_to<TString: StringTypeMut>(&self, buffer: &mut TString) {
        buffer.push_str(self.as_str());
    }

    fn write_to_formatter(&self, fmt: &mut core::fmt::Formatter<'_>) -> (outcome: Result<
        (),
        core::fmt::Error,
    >) {
        fmt.write_str(self.as_str())
    }
}

impl BytesAppendableValue for &String {
    open spec fn raw(&self) -> Seq<u8> {
        crate::encoding::utf8(self@)
    }

    fn byte_len(&self) -> (n: usize) {
        crate::encoding::str_len(self.as_str())
    }

    fn push_to<TBytes: BytesTypeMut>(&self, bytes: &mut TBytes) {
        bytes.extend_from_slice(self.as_str().as_bytes());
    }
}

impl<'a> StringAppendableValue for &'a std::borrow::Cow<'a, str> {
    open spec fn text(&self) -> Seq<u8> {
        crate::encoding::utf8(self@)
    }

    fn byte_len(&self) -> (n: usize) {
        crate::encoding::str_len(cow_str(self))
    }

    fn push_to<TString: StringTypeMut>(&self, buffer: &mut TString) {
        buffer.push_str(cow_str(self));
    }

    fn write_to_formatter(&self, fmt: &mut core::fmt::Formatter<'_>) -> (outcome: Result<
        (),
        core::fmt::Error,
    >) {
        fmt.write_str(cow_str(self))
    }
}

impl<'a> BytesAppendableValue for &'a std::borrow::Cow<'a, str> {
    open spec fn raw(&self) -> Seq<u8> {
        crate::encoding::utf8(self@)
    }

    fn byte_len(&self) -> (n: usize) {
        crate::encoding::str_len(cow_str(self))
    }

    fn push_to<TBytes: BytesTypeMut>(&self, bytes: &mut TBytes) {
        bytes.extend_from_slice(cow_str(self).as_bytes());
    }
}

impl StringAppendableValue for char {
    open spec fn text(&self) -> Seq<u8> {
        crate::encoding::char_bytes(*self)
    }

    fn byte_len(&self) -> (n: usize) {
        self.len_utf8()
    }

    fn push_to<TString: StringTypeMut>(&self, buffer: &mut TString) {
        buffer.push(*self);
    }

    fn write_to_formatter(&self, fmt: &mut core::fmt::Formatter<'_>) -> (outcome: Result<
        (),
        core::fmt::Error,
    >) {
        crate::sink::write_char(fmt, *self)
    }
}

impl BytesAppendableValue for char {
    open spec fn raw(&self) -> Seq<u8> {
        crate::encoding::char_bytes(*self)
    }

    fn byte_len(&self) -> (n: usize) {
        self.len_utf8()
    }

    fn push_to<TBytes: BytesTypeMut>(&self, bytes: &mut TBytes) {
        let mut buffer: [u8; 4] = [0; 4];
        let n: usize = encode_char(*self, &mut buffer);
        bytes.extend_from_slice(vstd::slice::slice_subrange(buffer.as_slice(), 0, n));
    }
}

/// An optional value: a value that is absent stands for no bytes at all, and
/// appending it neither pushes nor writes.
impl<T: StringAppendableValue> StringAppendableValue for Option<T> {
    open spec fn text(&self) -> Seq<u8> {
        match self {
            Some(value) => value.text(),
            None => Seq::empty(),
        }
    }

    fn byte_len(&self) -> (n: usize)
        ensures
            self is None ==> n == 0,
    {
        match self {
            Some(value) => value.byte_len(),
            None => 0,
        }
    }

    fn push_to<TString: StringTypeMut>(&self, buffer: &mut TString)
        ensures
            self is None ==> final(buffer).buffered() == old(buffer).buffered(),
    {
        if let Some(value) = self {
            value.push_to(buffer);
        }
    }

    fn write_to_formatter(&self, fmt: &mut core::fmt::Formatter<'_>) -> (outcome: Result<
        (),
        core::fmt::Error,
    >)
        ensures
            self is None ==> outcome is Ok && *final(fmt) == *old(fmt),
    {
        if let Some(value) = self {
            value.write_to_formatter(fmt)
        } else {
            Ok(())
        }
    }
}

/// An optional value: a value that is absent stands for no bytes at all, and
/// appending it pushes nothing.
impl<T: BytesAppendableValue> BytesAppendableValue for Option<T> {
    open spec fn raw(&self) -> Seq<u8> {
        match self {
            Some(value) => value.raw(),
            None => Seq::empty(),
        }
    }

    fn byte_len(&self) -> (n: usize)
        ensures
            self is None ==> n == 0,
    {
        match self {
            Some(value) => value.byte_len(),
            None => 0,
        }
    }

    fn push_to<TBytes: BytesTypeMut>(&self, bytes: &mut TBytes)
        ensures
            self is None ==> final(bytes).buffered() == old(bytes).buffered(),
    {
        if let Some(value) = self {
            value.push_to(bytes);
        }
    }
}

impl BytesAppendableValue for &Vec<u8> {
    open spec fn raw(&self) -> Seq<u8> {
        self@
    }

    fn byte_len(&self) -> (n: usize) {
        self.len()
    }

    fn push_to<TBytes: BytesTypeMut>(&self, bytes: &mut TBytes) {
        bytes.extend_from_slice(self.as_slice())
    }
}

impl BytesAppendableValue for u8 {
    open spec fn raw(&self) -> Seq<u8> {
        seq![*self]
    }

    fn byte_len(&self) -> (n: usize) {
        1
    }

    fn push_to<TBytes: BytesTypeMut>(&self, bytes: &mut TBytes) {
        bytes.push(*self);
    }
}

impl BytesAppendableValue for [u8] {
    open spec fn raw(&self) -> Seq<u8> {
        self@
    }

    fn byte_len(&self) -> (n: usize) {
        self.len()
    }

    fn push_to<TBytes: BytesTypeMut>(&self, bytes: &mut TBytes) {
        bytes.extend_from_slice(self)
    }
}

impl BytesAppendableValue for &[u8] {
    open spec fn raw(&self) -> Seq<u8> {
        self@
    }

    fn byte_len(&self) -> (n: usize) {
        self.len()
    }

    fn push_to<TBytes: BytesTypeMut>(&self, bytes: &mut TBytes) {
        bytes.extend_from_slice(self)
    }
}

impl<const N: usize> BytesAppendableValue for [u8; N] {
    open spec fn raw(&self) -> Seq<u8> {
        self@
    }

    fn byte_len(&self) -> (n: usize) {
        N
    }

    fn push_to<TBytes: BytesTypeMut>(&self, bytes: &mut TBytes) {
        bytes.extend_from_slice(self.as_slice());
    }
}

impl<const N: usize> BytesAppendableValue for &[u8; N] {
    open spec fn raw(&self) -> Seq<u8> {
        self@
    }

    fn byte_len(&self) -> (n: usize) {
        N
    }

    fn push_to<TBytes: BytesTypeMut>(&self, bytes: &mut TBytes) {
        bytes.extend_from_slice(self.as_slice());
    }
}

} // verus!
