//! `hipstr::HipStr` as an output container and as an appendable value.
//!
//! A `HipStr` is generic over a backend that is bounded by a trait of its
//! crate, which a proof cannot name. It is therefore held inside
//! [`HipString`], and everything that is done to it goes through the
//! functions of this module.

use vstd::prelude::*;
use crate::container::AllocationError;
use crate::container::StringType;
use crate::container::StringTypeMut;
use crate::string_builder::StringAppendable;
use crate::string_builder::StringBuilder;

verus! {

/// A `hipstr::HipStr<'static>`. No proof looks inside it: what it holds is
/// known only through [`hip_bytes`] and the functions of this module.
#[verifier::external_body]
pub struct HipString {
    text: hipstr::HipStr<'static>,
}

/// The UTF-8 bytes that the `HipStr` inside a [`HipString`] holds.
pub uninterp spec fn hip_bytes(text: HipString) -> Seq<u8>;

/// `HipStr::with_capacity` gives an empty string. Beyond its inline
/// capacity it allocates a `Vec`, which panics on more than `isize::MAX`
/// bytes, so such sizes are kept out. A machine that has no memory left is
/// not spoken of.
#[verifier::external_body]
fn hip_with_capacity(size: usize) -> (made: HipString)
    requires
        size <= isize::MAX,
    ensures
        hip_bytes(made) == Seq::<u8>::empty(),
{
    HipString { text: hipstr::HipStr::with_capacity(size) }
}

/// `HipStr::push` appends the character. A text that outgrows the memory is
/// not spoken of.
#[verifier::external_body]
fn hip_push(held: &mut HipString, c: char)
    ensures
        hip_bytes(*final(held)) == hip_bytes(*old(held)) + crate::encoding::char_bytes(c),
{
    held.text.push(c)
}

/// `HipStr::push_str` appends the slice. A text that outgrows the memory is
/// not spoken of.
#[verifier::external_body]
fn hip_push_str(held: &mut HipString, slice: &str)
    ensures
        hip_bytes(*final(held)) == hip_bytes(*old(held)) + crate::encoding::utf8(slice@),
{
    held.text.push_str(slice)
}

/// `HipStr::len` is the length in bytes.
#[verifier::external_body]
fn hip_len(held: &HipString) -> (n: usize)
    ensures
        n == hip_bytes(*held).len(),
{
    held.text.len()
}

/// `HipStr::as_str` is the whole string as a slice.
#[verifier::external_body]
fn hip_as_str(held: &HipString) -> (slice: &str)
    ensures
        crate::encoding::utf8(slice@) == hip_bytes(*held),
{
    held.text.as_str()
}

impl HipString {
    /// An empty string with room for `size` bytes. A size that `HipStr`
    /// cannot allocate is an error here, not a panic.
    pub fn reserve(size: usize) -> (made: Result<HipString, AllocationError>)
        ensures
            made is Ok <==> size <= isize::MAX,
            made matches Ok(held) ==> hip_bytes(held) == Seq::<u8>::empty(),
    {
        if size > isize::MAX as usize {
            Err(AllocationError)
        } else {
            Ok(hip_with_capacity(size))
        }
    }

    /// The whole string as a slice.
    pub fn as_str(&self) -> (slice: &str)
        ensures
            crate::encoding::utf8(slice@) == hip_bytes(*self),
    {
        hip_as_str(self)
    }
}

impl StringType for HipString {
    type MutType = HipString;

    /// Every size that `HipStr` can allocate is sure.
    open spec fn reserves(size: nat) -> bool {
        size <= isize::MAX
    }

    /// Every other size is refused.
    open spec fn refuses(size: nat) -> bool {
        size > isize::MAX
    }

    open spec fn contents(&self) -> Seq<u8> {
        hip_bytes(*self)
    }

    fn with_capacity(size: usize) -> (made: Result<HipString, AllocationError>) {
        HipString::reserve(size)
    }

    fn from_mut(inner: HipString) -> (made: HipString) {
        inner
    }
}

impl StringTypeMut for HipString {
    open spec fn buffered(&self) -> Seq<u8> {
        hip_bytes(*self)
    }

    fn push(&mut self, c: char) {
        hip_push(self, c)
    }

    fn push_str(&mut self, text: &str) {
        hip_push_str(self, text)
    }

    fn len(&self) -> (n: usize) {
        hip_len(self)
    }
}

impl StringAppendable for &HipString {
    open spec fn appended(&self) -> Seq<u8> {
        hip_bytes(**self)
    }

    fn append_to_builder<'a, 'f, TString: StringType>(
        self,
        builder: &mut StringBuilder<'a, 'f, TString>,
    ) {
        builder.append(self.as_str());
    }
}

} // verus!
