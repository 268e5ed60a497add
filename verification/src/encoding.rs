//! Facts about UTF-8 that the builders rest on: encoding distributes over
//! concatenation, and a text found inside another text begins and ends on
//! character boundaries.

use vstd::prelude::*;

verus! {

/// The UTF-8 encoding of a text: what a string container holds, byte by
/// byte.
pub open spec fn utf8(text: Seq<char>) -> Seq<u8> {
    vstd::utf8::encode_utf8(text)
}

/// The UTF-8 encoding of one character.
pub open spec fn char_bytes(c: char) -> Seq<u8> {
    vstd::utf8::encode_scalar(c as u32)
}

/// `prefix` is how `bytes` begin.
pub open spec fn starts_with(bytes: Seq<u8>, prefix: Seq<u8>) -> bool {
    prefix.len() <= bytes.len() && bytes.subrange(0, prefix.len() as int) == prefix
}

/// The length of a string slice in bytes, without the cast that `str::len`
/// is specified with.
pub fn str_len(s: &str) -> (n: usize)
    ensures
        n == utf8(s@).len(),
{
    s.as_bytes().len()
}

/// Encoding a concatenation gives the concatenation of the encodings.
pub proof fn lemma_encode_concat(a: Seq<char>, b: Seq<char>)
    ensures
        utf8(a + b) == utf8(a) + utf8(b),
    decreases a.len(),
{
    if a.len() == 0 {
        assert(a + b =~= b);
        assert(utf8(a) + utf8(b) =~= utf8(b));
    } else {
        assert((a + b).drop_first() =~= a.drop_first() + b);
        assert((a + b)[0] == a[0]);
        lemma_encode_concat(a.drop_first(), b);
        assert(utf8(a + b) =~= utf8(a) + utf8(b));
    }
}

/// Encoding a text with one more character adds that character's bytes.
pub proof fn lemma_encode_push(a: Seq<char>, c: char)
    ensures
        utf8(a.push(c)) == utf8(a) + char_bytes(c),
{
    let one = seq![c];
    assert(a.push(c) =~= a + one);
    lemma_encode_concat(a, one);
    assert(one.drop_first() =~= Seq::<char>::empty());
    assert(utf8(one) =~= char_bytes(c)) by {
        reveal_with_fuel(vstd::utf8::encode_utf8, 2);
    }
}

/// A text is known by its UTF-8 bytes: two texts with the same encoding are
/// the same text. What a contract says of the bytes of a string it thereby
/// says of its characters.
pub proof fn lemma_utf8_determines_text(a: Seq<char>, b: Seq<char>)
    requires
        utf8(a) == utf8(b),
    ensures
        a == b,
{
    vstd::utf8::encode_utf8_decode_utf8(a);
    vstd::utf8::encode_utf8_decode_utf8(b);
}

/// Where a valid text begins with another valid text, the shorter one ends on
/// a character boundary of the longer.
pub proof fn lemma_prefix_ends_on_boundary(bytes: Seq<u8>, prefix: Seq<u8>)
    requires
        vstd::utf8::valid_utf8(bytes),
        vstd::utf8::valid_utf8(prefix),
        starts_with(bytes, prefix),
    ensures
        vstd::utf8::is_char_boundary(bytes, prefix.len() as int),
    decreases prefix.len(),
{
    if prefix.len() != 0 {
        let width = vstd::utf8::length_of_first_scalar(prefix);
        assert(forall|i: int| 0 <= i < prefix.len() ==> bytes[i] == bytes.subrange(
            0,
            prefix.len() as int,
        )[i]);
        assert(1 <= width <= prefix.len());
        assert(width == vstd::utf8::length_of_first_scalar(bytes));
        let bytes_rest = vstd::utf8::pop_first_scalar(bytes);
        let prefix_rest = vstd::utf8::pop_first_scalar(prefix);
        assert(bytes_rest.subrange(0, prefix_rest.len() as int) =~= prefix_rest);
        lemma_prefix_ends_on_boundary(bytes_rest, prefix_rest);
    }
}

/// Where a non-empty valid text occurs inside a valid text, it begins and
/// ends on character boundaries.
pub proof fn lemma_occurrence_on_boundaries(bytes: Seq<u8>, needle: Seq<u8>, at: int)
    requires
        vstd::utf8::valid_utf8(bytes),
        vstd::utf8::valid_utf8(needle),
        needle.len() > 0,
        0 <= at,
        at + needle.len() <= bytes.len(),
        bytes.subrange(at, at + needle.len()) == needle,
    ensures
        vstd::utf8::is_char_boundary(bytes, at),
        vstd::utf8::is_char_boundary(bytes, at + needle.len()),
        vstd::utf8::is_char_boundary(
            bytes.subrange(at, bytes.len() as int),
            needle.len() as int,
        ),
{
    assert(bytes[at] == bytes.subrange(at, at + needle.len())[0]);
    assert(vstd::utf8::valid_first_scalar(needle));
    vstd::utf8::is_char_boundary_iff_is_leading_byte(bytes, at);
    assert(vstd::utf8::is_char_boundary(bytes, at));
    vstd::utf8::valid_utf8_split(bytes, at);
    let tail = bytes.subrange(at, bytes.len() as int);
    assert(tail.subrange(0, needle.len() as int) =~= needle);
    lemma_prefix_ends_on_boundary(tail, needle);
    let end = at + needle.len();
    if end == bytes.len() {
        vstd::utf8::is_char_boundary_start_end_of_seq(bytes);
    } else {
        assert(tail[needle.len() as int] == bytes[end]);
        vstd::utf8::is_char_boundary_iff_not_is_continuation_byte(tail, needle.len() as int);
        vstd::utf8::is_char_boundary_iff_not_is_continuation_byte(bytes, end);
    }
}

} // verus!
