//! The formatter that a formatting pass writes into.
//!
//! A formatter is opaque: what it holds is not visible to a proof. The
//! contracts speak of it through [`written`], the bytes it has taken so
//! far.

use vstd::prelude::*;

verus! {

/// `core::fmt::Formatter`, carried through as it is.
#[verifier::external_type_specification]
#[verifier::external_body]
pub struct ExFormatter<'a>(core::fmt::Formatter<'a>);

/// `core::fmt::Error`, carried through as it is.
#[verifier::external_type_specification]
#[verifier::external_body]
pub struct ExFormatError(core::fmt::Error);

/// The UTF-8 bytes that a formatter has taken so far.
pub uninterp spec fn written(sink: core::fmt::Formatter<'_>) -> Seq<u8>;

/// `Formatter::write_str` succeeds only if the whole slice was written: the
/// formatter then holds the slice's bytes behind what it held. Nothing is
/// said of a formatter that reported an error.
pub assume_specification<'a>[ core::fmt::Formatter::<'a>::write_str ](
    sink: &mut core::fmt::Formatter<'a>,
    data: &str,
) -> (outcome: Result<(), core::fmt::Error>)
    ensures
        outcome is Ok ==> written(*final(sink)) == written(*old(sink)) + crate::encoding::utf8(
            data@,
        ),
;

/// `Formatter`'s `write_char`, of `core::fmt::Write`: on success the
/// formatter holds the character's bytes behind what it held. Nothing is
/// said of a formatter that reported an error.
#[verifier::external_body]
pub(crate) fn write_char(sink: &mut core::fmt::Formatter<'_>, c: char) -> (outcome: Result<
    (),
    core::fmt::Error,
>)
    ensures
        outcome is Ok ==> written(*final(sink)) == written(*old(sink))
            + crate::encoding::char_bytes(c),
{
    core::fmt::Write::write_char(sink, c)
}

} // verus!
