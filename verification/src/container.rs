//! The output containers: a form that is built by pushing into it, and the
//! final form it is turned into.

use vstd::prelude::*;

verus! {

/// A reservation of the exact capacity could not be made.
#[derive(Clone, Copy, Debug, PartialEq, Eq)]
pub struct AllocationError;

/// A text container that is being built.
///
/// The contracts speak of the calls that return: a container that outgrows
/// the memory is not spoken of.
pub trait StringTypeMut {
    /// The UTF-8 bytes that the container holds.
    ///
    /// An implementation that is verified says what these are; left alone,
    /// nothing is known of them.
    open spec fn buffered(&self) -> Seq<u8> {
        vstd::pervasive::arbitrary()
    }

    /// Appends one character.
    fn push(&mut self, c: char)
        ensures
            final(self).buffered() == old(self).buffered() + crate::encoding::char_bytes(c),
    ;

    /// Appends a text.
    fn push_str(&mut self, text: &str)
        ensures
            final(self).buffered() == old(self).buffered() + crate::encoding::utf8(text@),
    ;

    /// The number of bytes held.
    fn len(&self) -> (n: usize)
        ensures
            n == self.buffered().len(),
    ;
}

/// A text container in its final form.
pub trait StringType: Sized {
    /// The form in which the container is built.
    type MutType: StringTypeMut;

    /// The UTF-8 bytes that the container holds.
    ///
    /// An implementation that is verified says what these are; left alone,
    /// nothing is known of them.
    open spec fn contents(&self) -> Seq<u8> {
        vstd::pervasive::arbitrary()
    }

    /// Whether room for `size` bytes is sure to be had: the sizes on which
    /// `with_capacity` owes a container.
    ///
    /// An implementation that is verified says which these are; left alone,
    /// no size is sure.
    open spec fn reserves(size: nat) -> bool {
        false
    }

    /// Whether room for `size` bytes is sure not to be had: the sizes that
    /// `with_capacity` turns down without asking for memory.
    ///
    /// An implementation that is verified says which these are; left alone,
    /// no size is turned down for sure.
    open spec fn refuses(size: nat) -> bool {
        false
    }

    /// An empty container with room for exactly `size` bytes, or an error
    /// where that room cannot be had. A size that the container is sure of
    /// gives no error, one that it refuses gives one; in between, it is for
    /// the allocator to say.
    fn with_capacity(size: usize) -> (made: Result<Self::MutType, AllocationError>)
        ensures
            Self::reserves(size as nat) ==> made is Ok,
            Self::refuses(size as nat) ==> made is Err,
            made matches Ok(buffer) ==> buffer.buffered() == Seq::<u8>::empty(),
    ;

    /// Turns what was built into its final form.
    fn from_mut(inner: Self::MutType) -> (made: Self)
        ensures
            made.contents() == inner.buffered(),
    ;
}

/// A byte container that is being built.
///
/// The contracts speak of the calls that return: a container that outgrows
/// the memory is not spoken of.
pub trait BytesTypeMut: Sized {
    /// The bytes that the container holds.
    ///
    /// An implementation that is verified says what these are; left alone,
    /// nothing is known of them.
    open spec fn buffered(&self) -> Seq<u8> {
        vstd::pervasive::arbitrary()
    }

    /// Appends one byte.
    fn push(&mut self, c: u8)
        ensures
            final(self).buffered() == old(self).buffered().push(c),
    ;

    /// Appends a run of bytes.
    fn extend_from_slice(&mut self, bytes: &[u8])
        ensures
            final(self).buffered() == old(self).buffered() + bytes@,
    ;

    /// The number of bytes held.
    fn len(&self) -> (n: usize)
        ensures
            n == self.buffered().len(),
    ;
}

/// A byte container in its final form.
pub trait BytesType: Sized {
    /// The form in which the container is built.
    type MutType: BytesTypeMut;

    /// The bytes that the container holds.
    ///
    /// An implementation that is verified says what these are; left alone,
    /// nothing is known of them.
    open spec fn contents(&self) -> Seq<u8> {
        vstd::pervasive::arbitrary()
    }

    /// Whether room for `size` bytes is sure to be had: the sizes on which
    /// `with_capacity` owes a container.
    ///
    /// An implementation that is verified says which these are; left alone,
    /// no size is sure.
    open spec fn reserves(size: nat) -> bool {
        false
    }

    /// Whether room for `size` bytes is sure not to be had: the sizes that
    /// `with_capacity` turns down without asking for memory.
    ///
    /// An implementation that is verified says which these are; left alone,
    /// no size is turned down for sure.
    open spec fn refuses(size: nat) -> bool {
        false
    }

    /// An empty container with room for exactly `size` bytes, or an error
    /// where that room cannot be had. A size that the container is sure of
    /// gives no error, one that it refuses gives one; in between, it is for
    /// the allocator to say.
    fn with_capacity(size: usize) -> (made: Result<Self::MutType, AllocationError>)
        ensures
            Self::reserves(size as nat) ==> made is Ok,
            Self::refuses(size as nat) ==> made is Err,
            made matches Ok(buffer) ==> buffer.buffered() == Seq::<u8>::empty(),
    ;

    /// Turns what was built into its final form.
    fn from_mut(inner: Self::MutType) -> (made: Self)
        ensures
            made.contents() == inner.buffered(),
    ;
}

/// `String::try_reserve_exact` may fail, and leaves the text as it is
/// either way.
pub assume_specification[ String::try_reserve_exact ](
    text: &mut String,
    additional: usize,
) -> (reserved: Result<(), std::collections::TryReserveError>)
    ensures
        final(text)@ == old(text)@,
;

/// `String::push`: the character is appended to the text. As for
/// `Vec::push` in vstd, a text that outgrows the memory is not spoken of.
#[verifier::external_body]
fn string_push(text: &mut String, c: char)
    ensures
        final(text)@ == old(text)@.push(c),
{
    text.push(c)
}

/// `String::push_str`: the slice is appended to the text. As for
/// `Vec::push` in vstd, a text that outgrows the memory is not spoken of.
#[verifier::external_body]
fn string_push_str(text: &mut String, slice: &str)
    ensures
        final(text)@ == old(text)@ + slice@,
{
    text.push_str(slice)
}

/// `String::into_boxed_str` keeps the text.
pub assume_specification[ String::into_boxed_str ](text: String) -> (boxed: Box<str>)
    ensures
        boxed@ == text@,
;

/// `Vec::try_reserve_exact` may fail, and leaves the bytes as they are
/// either way.
#[verifier::external_body]
fn vec_try_reserve_exact(bytes: &mut Vec<u8>, additional: usize) -> (reserved: Result<
    (),
    std::collections::TryReserveError,
>)
    ensures
        final(bytes)@ == old(bytes)@,
{
    bytes.try_reserve_exact(additional)
}

/// `Vec::into_boxed_slice` keeps the bytes.
#[verifier::external_body]
fn vec_into_boxed_slice(bytes: Vec<u8>) -> (boxed: Box<[u8]>)
    ensures
        boxed@ == bytes@,
{
    bytes.into_boxed_slice()
}

/// The container for which room was asked, where the reservation came
/// back well, and an error where it did not.
pub fn reserved_or_error<T>(
    container: T,
    reservation: Result<(), std::collections::TryReserveError>,
) -> (made: Result<T, AllocationError>)
    ensures
        made is Ok <==> reservation is Ok,
        made matches Ok(kept) ==> kept == container,
{
    match reservation {
        Ok(()) => Ok(container),
        Err(_) => Err(AllocationError),
    }
}

/// An empty `String` with `size` bytes reserved. Room for no bytes needs no
/// reservation, and so is always had; any other size is for the allocator
/// to grant.
fn reserved_string(size: usize) -> (made: Result<String, AllocationError>)
    ensures
        size == 0 ==> made is Ok,
        made matches Ok(text) ==> text@ == Seq::<char>::empty(),
{
    let mut text = String::new();
    if size == 0 {
        Ok(text)
    } else {
        let reservation = text.try_reserve_exact(size);
        reserved_or_error(text, reservation)
    }
}

/// An empty `Vec<u8>` with `size` bytes reserved. Room for no bytes needs no
/// reservation, and so is always had; any other size is for the allocator
/// to grant.
fn reserved_vec(size: usize) -> (made: Result<Vec<u8>, AllocationError>)
    ensures
        size == 0 ==> made is Ok,
        made matches Ok(bytes) ==> bytes@ == Seq::<u8>::empty(),
{
    let mut bytes: Vec<u8> = Vec::new();
    if size == 0 {
        Ok(bytes)
    } else {
        let reservation = vec_try_reserve_exact(&mut bytes, size);
        reserved_or_error(bytes, reservation)
    }
}

impl StringTypeMut for String {
    open spec fn buffered(&self) -> Seq<u8> {
        crate::encoding::utf8(self@)
    }

    fn push(&mut self, c: char) {
        proof {
            crate::encoding::lemma_encode_push(self@, c);
        }
        string_push(self, c)
    }

    fn push_str(&mut self, text: &str) {
        proof {
            crate::encoding::lemma_encode_concat(self@, text@);
        }
        string_push_str(self, text)
    }

    fn len(&self) -> (n: usize) {
        crate::encoding::str_len(self.as_str())
    }
}

impl StringType for String {
    type MutType = String;

    /// Only room for no bytes is sure: it takes no allocation.
    open spec fn reserves(size: nat) -> bool {
        size == 0
    }

    open spec fn contents(&self) -> Seq<u8> {
        crate::encoding::utf8(self@)
    }

    fn with_capacity(size: usize) -> (made: Result<String, AllocationError>) {
        reserved_string(size)
    }

    fn from_mut(inner: String) -> (made: String) {
        inner
    }
}

impl StringType for Box<str> {
    type MutType = String;

    /// Only room for no bytes is sure: it takes no allocation.
    open spec fn reserves(size: nat) -> bool {
        size == 0
    }

    open spec fn contents(&self) -> Seq<u8> {
        crate::encoding::utf8(self@)
    }

    fn with_capacity(size: usize) -> (made: Result<String, AllocationError>) {
        reserved_string(size)
    }

    fn from_mut(inner: String) -> (made: Box<str>) {
        inner.into_boxed_str()
    }
}

impl BytesTypeMut for Vec<u8> {
    open spec fn buffered(&self) -> Seq<u8> {
        self@
    }

    fn push(&mut self, c: u8) {
        Vec::push(self, c)
    }

    fn extend_from_slice(&mut self, bytes: &[u8]) {
        Vec::extend_from_slice(self, bytes);
    }

    fn len(&self) -> (n: usize) {
        Vec::len(self)
    }
}

impl BytesType for Vec<u8> {
    type MutType = Vec<u8>;

    /// Only room for no bytes is sure: it takes no allocation.
    open spec fn reserves(size: nat) -> bool {
        size == 0
    }

    open spec fn contents(&self) -> Seq<u8> {
        self@
    }

    fn with_capacity(size: usize) -> (made: Result<Vec<u8>, AllocationError>) {
        reserved_vec(size)
    }

    fn from_mut(inner: Vec<u8>) -> (made: Vec<u8>) {
        inner
    }
}

impl BytesType for Box<[u8]> {
    type MutType = Vec<u8>;

    /// Only room for no bytes is sure: it takes no allocation.
    open spec fn reserves(size: nat) -> bool {
        size == 0
    }

    open spec fn contents(&self) -> Seq<u8> {
        self@
    }

    fn with_capacity(size: usize) -> (made: Result<Vec<u8>, AllocationError>) {
        reserved_vec(size)
    }

    fn from_mut(inner: Vec<u8>) -> (made: Box<[u8]>) {
        vec_into_boxed_slice(inner)
    }
}

} // verus!
