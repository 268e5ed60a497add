//! `ecow::EcoString` as an output container and as an appendable value.

use vstd::prelude::*;
use crate::container::AllocationError;
use crate::container::StringType;
use crate::container::StringTypeMut;
use crate::string_builder::StringAppendable;
use crate::string_builder::StringBuilder;

verus! {

/// `ecow::EcoString`, carried through as it is.
#[verifier::external_type_specification]
#[verifier::external_body]
pub struct ExEcoString(ecow::EcoString);

/// The UTF-8 bytes that an `EcoString` holds.
pub uninterp spec fn eco_bytes(text: ecow::EcoString) -> Seq<u8>;

/// `EcoString::with_capacity` gives an empty string. Its allocation panics
/// where the capacity and the two words of its header come within a word of
/// `isize::MAX`, so such sizes are kept out. A machine that has no memory
/// left is not spoken of.
#[verifier::external_body]
fn eco_with_capacity(size: usize) -> (text: ecow::EcoString)
    requires
        size + 32 <= isize::MAX,
    ensures
        eco_bytes(text) == Seq::<u8>::empty(),
{
    ecow::EcoString::with_capacity(size)
}

/// `EcoString::push` appends the character. A text that outgrows the memory
/// is not spoken of.
#[verifier::external_body]
fn eco_push(text: &mut ecow::EcoString, c: char)
    ensures
        eco_bytes(*final(text)) == eco_bytes(*old(text)) + crate::encoding::char_bytes(c),
{
    text.push(c)
}

/// `EcoString::push_str` appends the slice. A text that outgrows the memory
/// is not spoken of.
#[verifier::external_body]
fn eco_push_str(text: &mut ecow::EcoString, slice: &str)
    ensures
        eco_bytes(*final(text)) == eco_bytes(*old(text)) + crate::encoding::utf8(slice@),
{
    text.push_str(slice)
}

/// `EcoString::len` is the length in bytes.
#[verifier::external_body]
fn eco_len(text: &ecow::EcoString) -> (n: usize)
    ensures
        n == eco_bytes(*text).len(),
{
    text.len()
}

/// `EcoString::as_str` is the whole string as a slice.
pub assume_specification[ ecow::EcoString::as_str ](text: &ecow::EcoString) -> (slice: &str)
    ensures
        crate::encoding::utf8(slice@) == eco_bytes(*text),
;

/// An empty `EcoString` with room for `size` bytes. A size that `EcoString`
/// cannot allocate is an error here, not a panic.
pub fn reserve(size: usize) -> (made: Result<ecow::EcoString, AllocationError>)
    ensures
        made is Ok <==> size + 32 <= isize::MAX,
        made matches Ok(text) ==> eco_bytes(text) == Seq::<u8>::empty(),
{
    if size > isize::MAX as usize - 32 {
        Err(AllocationError)
    } else {
        Ok(eco_with_capacity(size))
    }
}

impl StringType for ecow::EcoString {
    type MutType = ecow::EcoString;

    /// Every size that `EcoString` can allocate is sure.
    open spec fn reserves(size: nat) -> bool {
        size + 32 <= isize::MAX
    }

    /// Every other size is refused.
    open spec fn refuses(size: nat) -> bool {
        size + 32 > isize::MAX
    }

    open spec fn contents(&self) -> Seq<u8> {
        eco_bytes(*self)
    }

    fn with_capacity(size: usize) -> (made: Result<ecow::EcoString, AllocationError>) {
        reserve(size)
    }

    fn from_mut(inner: ecow::EcoString) -> (made: ecow::EcoString) {
        inner
    }
}

impl StringTypeMut for ecow::EcoString {
    open spec fn buffered(&self) -> Seq<u8> {
        eco_bytes(*self)
    }

    fn push(&mut self, c: char) {
        eco_push(self, c)
    }

    fn push_str(&mut self, text: &str) {
        eco_push_str(self, text)
    }

    fn len(&self) -> (n: usize) {
        eco_len(self)
    }
}

impl StringAppendable for &ecow::EcoString {
    open spec fn appended(&self) -> Seq<u8> {
        eco_bytes(**self)
    }

    fn append_to_builder<'a, 'f, TString: StringType>(
        self,
        builder: &mut StringBuilder<'a, 'f, TString>,
    ) {
        builder.append(self.as_str());
    }
}

} // verus!
