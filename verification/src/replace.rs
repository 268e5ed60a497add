//! Replacing every occurrence of one text by another, scanning from the
//! left and never looking again at what an occurrence covered.

use vstd::prelude::*;
use crate::container::StringTypeMut;

verus! {

/// `needle` stands in `hay` at index `at`.
pub open spec fn occurs_at(hay: Seq<u8>, needle: Seq<u8>, at: int) -> bool {
    0 <= at && at + needle.len() <= hay.len() && hay.subrange(at, at + needle.len()) == needle
}

/// `at` is the leftmost index at which `needle` stands in `hay`.
pub open spec fn first_occurrence(hay: Seq<u8>, needle: Seq<u8>, at: int) -> bool {
    occurs_at(hay, needle, at) && forall|j: int| 0 <= j < at ==> !occurs_at(hay, needle, j)
}

/// `needle` stands nowhere in `hay`.
pub open spec fn absent(hay: Seq<u8>, needle: Seq<u8>) -> bool {
    forall|j: int| !occurs_at(hay, needle, j)
}

/// `source` with every occurrence of `from` replaced by `to`.
///
/// The scan goes from left to right: where `from` stands at the front, `to`
/// is emitted and the scan goes on behind the occurrence; otherwise one byte
/// is copied. An empty `from` stands for nothing and leaves `source` as it
/// is.
pub open spec fn replaced(source: Seq<u8>, from: Seq<u8>, to: Seq<u8>) -> Seq<u8>
    decreases source.len(),
{
    if source.len() == 0 || from.len() == 0 {
        source
    } else if occurs_at(source, from, 0) {
        to + replaced(source.skip(from.len() as int), from, to)
    } else {
        source.take(1) + replaced(source.skip(1), from, to)
    }
}

/// How many occurrences of `from` the scan of [`replaced`] meets in
/// `source`: the occurrences that do not overlap, counted from the left.
pub open spec fn occurrences(source: Seq<u8>, from: Seq<u8>) -> nat
    decreases source.len(),
{
    if source.len() == 0 || from.len() == 0 {
        0
    } else if occurs_at(source, from, 0) {
        1 + occurrences(source.skip(from.len() as int), from)
    } else {
        occurrences(source.skip(1), from)
    }
}

/// An occurrence in what is left after skipping `k` bytes is an occurrence
/// `k` bytes further in the whole.
pub proof fn lemma_occurs_at_skip(hay: Seq<u8>, needle: Seq<u8>, k: int, at: int)
    requires
        0 <= k <= hay.len(),
        0 <= at,
    ensures
        occurs_at(hay.skip(k), needle, at) == occurs_at(hay, needle, at + k),
{
    if at + needle.len() <= hay.skip(k).len() {
        assert(hay.skip(k).subrange(at, at + needle.len()) =~= hay.subrange(
            at + k,
            at + k + needle.len(),
        ));
    }
}

/// Up to an index before which `from` does not occur, the scan only copies.
pub proof fn lemma_replaced_copies_before(
    source: Seq<u8>,
    from: Seq<u8>,
    to: Seq<u8>,
    upto: int,
)
    requires
        from.len() > 0,
        0 <= upto <= source.len(),
        forall|j: int| 0 <= j < upto ==> !occurs_at(source, from, j),
    ensures
        replaced(source, from, to) == source.take(upto) + replaced(source.skip(upto), from, to),
        occurrences(source, from) == occurrences(source.skip(upto), from),
    decreases upto,
{
    if upto == 0 {
        assert(source.skip(0) =~= source);
        assert(source.take(0) + replaced(source, from, to) =~= replaced(source, from, to));
    } else {
        let rest = source.skip(1);
        assert(!occurs_at(source, from, 0));
        assert forall|j: int| 0 <= j < upto - 1 implies !occurs_at(rest, from, j) by {
            lemma_occurs_at_skip(source, from, 1, j);
        }
        lemma_replaced_copies_before(rest, from, to, upto - 1);
        assert(rest.skip(upto - 1) =~= source.skip(upto));
        assert(source.take(1) + rest.take(upto - 1) =~= source.take(upto));
        assert(source.take(1) + (rest.take(upto - 1) + replaced(source.skip(upto), from, to))
            =~= source.take(upto) + replaced(source.skip(upto), from, to));
    }
}

/// Replacing everywhere is replacing the first occurrence and going on with
/// what follows it: the text before the first occurrence is kept, `to`
/// takes the place of the occurrence, and the rest is treated the same way.
pub proof fn lemma_replaced_at_first_occurrence(
    source: Seq<u8>,
    from: Seq<u8>,
    to: Seq<u8>,
    at: int,
)
    requires
        from.len() > 0,
        first_occurrence(source, from, at),
    ensures
        replaced(source, from, to) == source.take(at) + to + replaced(
            source.skip(at + from.len()),
            from,
            to,
        ),
        occurrences(source, from) == 1 + occurrences(source.skip(at + from.len()), from),
{
    lemma_replaced_copies_before(source, from, to, at);
    let tail = source.skip(at);
    lemma_occurs_at_skip(source, from, at, 0);
    assert(tail.skip(from.len() as int) =~= source.skip(at + from.len()));
    assert(source.take(at) + (to + replaced(source.skip(at + from.len()), from, to))
        =~= source.take(at) + to + replaced(source.skip(at + from.len()), from, to));
}

/// Where `from` does not occur, nothing is replaced.
pub proof fn lemma_replaced_when_absent(source: Seq<u8>, from: Seq<u8>, to: Seq<u8>)
    requires
        absent(source, from),
    ensures
        replaced(source, from, to) == source,
        occurrences(source, from) == 0,
{
    if from.len() > 0 {
        lemma_replaced_copies_before(source, from, to, source.len() as int);
        assert(source.skip(source.len() as int) =~= Seq::<u8>::empty());
        assert(source.take(source.len() as int) + Seq::<u8>::empty() =~= source);
    }
}

/// An empty source stays empty, whatever is looked for.
pub proof fn lemma_replaced_empty(from: Seq<u8>, to: Seq<u8>)
    ensures
        replaced(Seq::empty(), from, to) == Seq::<u8>::empty(),
        occurrences(Seq::empty(), from) == 0,
{
}

/// The length of the result, worked out from the number of occurrences:
/// each one takes `from.len()` bytes away and puts `to.len()` bytes in.
pub proof fn lemma_replaced_len(source: Seq<u8>, from: Seq<u8>, to: Seq<u8>)
    requires
        from.len() > 0,
    ensures
        replaced(source, from, to).len() + occurrences(source, from) * from.len() == source.len()
            + occurrences(source, from) * to.len(),
        occurrences(source, from) * from.len() <= source.len(),
        from.len() == to.len() ==> replaced(source, from, to).len() == source.len(),
    decreases source.len(),
{
    let count = occurrences(source, from);
    if source.len() == 0 {
        assert(count == 0);
        assert(0 * from.len() == 0 && 0 * to.len() == 0);
    } else if occurs_at(source, from, 0) {
        let rest = source.skip(from.len() as int);
        lemma_replaced_len(rest, from, to);
        let n = occurrences(rest, from);
        assert(count == 1 + n);
        assert(replaced(source, from, to).len() == to.len() + replaced(rest, from, to).len());
        assert((1 + n) * from.len() == from.len() + n * from.len()) by (nonlinear_arith);
        assert((1 + n) * to.len() == to.len() + n * to.len()) by (nonlinear_arith);
    } else {
        let rest = source.skip(1);
        lemma_replaced_len(rest, from, to);
        assert(count == occurrences(rest, from));
        assert(replaced(source, from, to).len() == 1 + replaced(rest, from, to).len());
    }
}

/// `str::find` with a string as pattern: the byte index at which `needle`
/// first stands in `haystack`, or `None` where it stands nowhere. Stated
/// over the UTF-8 bytes of both, as the index is a byte index.
#[verifier::external_body]
pub(crate) fn find(haystack: &str, needle: &str) -> (found: Option<usize>)
    ensures
        match found {
            Some(at) => first_occurrence(
                crate::encoding::utf8(haystack@),
                crate::encoding::utf8(needle@),
                at as int,
            ),
            None => absent(crate::encoding::utf8(haystack@), crate::encoding::utf8(needle@)),
        },
{
    haystack.find(needle)
}

/// Splits `rest` around the occurrence of `from` that `find` reported at
/// `at`: what stands before it, and what follows it.
pub(crate) fn split_around<'a>(rest: &'a str, from: &str, at: usize) -> (parts: (&'a str, &'a str))
    requires
        crate::encoding::utf8(from@).len() > 0,
        occurs_at(crate::encoding::utf8(rest@), crate::encoding::utf8(from@), at as int),
    ensures
        crate::encoding::utf8(parts.0@) == crate::encoding::utf8(rest@).take(at as int),
        crate::encoding::utf8(parts.1@) == crate::encoding::utf8(rest@).skip(
            at + crate::encoding::utf8(from@).len(),
        ),
{
    let ghost bytes = crate::encoding::utf8(rest@);
    let ghost needle = crate::encoding::utf8(from@);
    proof {
        vstd::utf8::encode_utf8_valid_utf8(rest@);
        vstd::utf8::encode_utf8_valid_utf8(from@);
        crate::encoding::lemma_occurrence_on_boundaries(bytes, needle, at as int);
    }
    let (before, tail) = rest.split_at(at);
    let width = crate::encoding::str_len(from);
    let (_, after) = tail.split_at(width);
    proof {
        assert(crate::encoding::utf8(after@) =~= bytes.skip(at + needle.len()));
        assert(crate::encoding::utf8(before@) =~= bytes.take(at as int));
    }
    (before, after)
}

/// Counts the occurrences of `from` in `value` that do not overlap, from the
/// left.
pub fn count_occurrences(value: &str, from: &str) -> (count: usize)
    requires
        crate::encoding::utf8(from@).len() > 0,
    ensures
        count == occurrences(crate::encoding::utf8(value@), crate::encoding::utf8(from@)),
{
    let ghost source = crate::encoding::utf8(value@);
    let ghost needle = crate::encoding::utf8(from@);
    let total = crate::encoding::str_len(value);
    let mut rest = value;
    let mut count: usize = 0;
    loop
        invariant
            needle == crate::encoding::utf8(from@),
            needle.len() > 0,
            total == source.len(),
            occurrences(source, needle) == count + occurrences(
                crate::encoding::utf8(rest@),
                needle,
            ),
            count + crate::encoding::utf8(rest@).len() <= total,
        ensures
            count == occurrences(source, needle),
        decreases crate::encoding::utf8(rest@).len(),
    {
        match find(rest, from) {
            None => {
                proof {
                    lemma_replaced_when_absent(crate::encoding::utf8(rest@), needle, needle);
                }
                break ;
            },
            Some(at) => {
                proof {
                    lemma_replaced_at_first_occurrence(
                        crate::encoding::utf8(rest@),
                        needle,
                        needle,
                        at as int,
                    );
                }
                let (_, after) = split_around(rest, from, at);
                rest = after;
                count = count + 1;
            },
        }
    }
    count
}

/// The length that `value` has once every occurrence of `from` is replaced
/// by `to`, worked out without building the result: the length of `value`
/// where `from` and `to` are equally long, else that length corrected by
/// the difference for each occurrence.
pub fn replaced_len(value: &str, from: &str, to: &str) -> (len: usize)
    requires
        crate::encoding::utf8(from@).len() > 0,
        replaced(
            crate::encoding::utf8(value@),
            crate::encoding::utf8(from@),
            crate::encoding::utf8(to@),
        ).len() <= usize::MAX,
    ensures
        len == replaced(
            crate::encoding::utf8(value@),
            crate::encoding::utf8(from@),
            crate::encoding::utf8(to@),
        ).len(),
{
    let ghost source = crate::encoding::utf8(value@);
    let ghost needle = crate::encoding::utf8(from@);
    let ghost with = crate::encoding::utf8(to@);
    proof {
        lemma_replaced_len(source, needle, with);
    }
    let value_len = crate::encoding::str_len(value);
    let from_len = crate::encoding::str_len(from);
    let to_len = crate::encoding::str_len(to);
    if from_len == to_len {
        value_len
    } else {
        let count = count_occurrences(value, from);
        if to_len > from_len {
            let grow = to_len - from_len;
            proof {
                assert(count * to_len == count * from_len + count * grow) by (nonlinear_arith)
                    requires
                        to_len == from_len + grow,
                ;
                assert(0 <= count * grow) by (nonlinear_arith);
            }
            value_len + count * grow
        } else {
            let shrink = from_len - to_len;
            proof {
                assert(count * from_len == count * to_len + count * shrink) by (nonlinear_arith)
                    requires
                        from_len == to_len + shrink,
                ;
                assert(0 <= count * to_len) by (nonlinear_arith);
            }
            value_len - count * shrink
        }
    }
}

/// Appends `value` to `buffer` with every occurrence of `from` replaced by
/// `to`.
pub fn push_replaced<TString: StringTypeMut>(
    buffer: &mut TString,
    value: &str,
    from: &str,
    to: &str,
)
    requires
        crate::encoding::utf8(from@).len() > 0,
    ensures
        final(buffer).buffered() == old(buffer).buffered() + replaced(
            crate::encoding::utf8(value@),
            crate::encoding::utf8(from@),
            crate::encoding::utf8(to@),
        ),
{
    let ghost needle = crate::encoding::utf8(from@);
    let ghost with = crate::encoding::utf8(to@);
    let ghost whole = replaced(crate::encoding::utf8(value@), needle, with);
    let mut rest = value;
    loop
        invariant
            needle == crate::encoding::utf8(from@),
            with == crate::encoding::utf8(to@),
            needle.len() > 0,
            buffer.buffered() + replaced(crate::encoding::utf8(rest@), needle, with) == old(
                buffer,
            ).buffered() + whole,
        ensures
            buffer.buffered() + crate::encoding::utf8(rest@) == old(buffer).buffered() + whole,
        decreases crate::encoding::utf8(rest@).len(),
    {
        match find(rest, from) {
            None => {
                proof {
                    lemma_replaced_when_absent(crate::encoding::utf8(rest@), needle, with);
                }
                break ;
            },
            Some(at) => {
                let ghost before = buffer.buffered();
                let ghost source = crate::encoding::utf8(rest@);
                proof {
                    lemma_replaced_at_first_occurrence(source, needle, with, at as int);
                }
                let (head, after) = split_around(rest, from, at);
                buffer.push_str(head);
                buffer.push_str(to);
                proof {
                    let tail = replaced(crate::encoding::utf8(after@), needle, with);
                    assert(before + crate::encoding::utf8(head@) + with + tail =~= before + (
                    source.take(at as int) + with + tail));
                }
                rest = after;
            },
        }
    }
    buffer.push_str(rest);
}

/// Writes `value` into `fmt` with every occurrence of `from` replaced by
/// `to`, and returns the number of bytes written. The first write that fails
/// ends the writing, and its error is returned. An empty `value` is not
/// written at all, and so cannot fail.
pub fn write_replaced(
    fmt: &mut core::fmt::Formatter<'_>,
    value: &str,
    from: &str,
    to: &str,
) -> (outcome: Result<usize, core::fmt::Error>)
    requires
        crate::encoding::utf8(from@).len() > 0,
        replaced(
            crate::encoding::utf8(value@),
            crate::encoding::utf8(from@),
            crate::encoding::utf8(to@),
        ).len() <= usize::MAX,
    ensures
        outcome matches Ok(size) ==> {
            &&& size == replaced(
                crate::encoding::utf8(value@),
                crate::encoding::utf8(from@),
                crate::encoding::utf8(to@),
            ).len()
            &&& crate::sink::written(*final(fmt)) == crate::sink::written(*old(fmt)) + replaced(
                crate::encoding::utf8(value@),
                crate::encoding::utf8(from@),
                crate::encoding::utf8(to@),
            )
        },
        crate::encoding::utf8(value@).len() == 0 ==> outcome is Ok && *final(fmt) == *old(fmt),
{
    let ghost needle = crate::encoding::utf8(from@);
    let ghost with = crate::encoding::utf8(to@);
    let ghost whole = replaced(crate::encoding::utf8(value@), needle, with);
    let ghost held = crate::sink::written(*fmt);
    if crate::encoding::str_len(value) == 0 {
        proof {
            lemma_replaced_empty(needle, with);
            assert(held + whole =~= held);
        }
        return Ok(0);
    }
    let to_len: usize = crate::encoding::str_len(to);
    let mut rest = value;
    let mut size: usize = 0;
    loop
        invariant
            needle == crate::encoding::utf8(from@),
            with == crate::encoding::utf8(to@),
            to_len == with.len(),
            needle.len() > 0,
            crate::encoding::utf8(value@).len() > 0,
            whole.len() <= usize::MAX,
            size + replaced(crate::encoding::utf8(rest@), needle, with).len() == whole.len(),
            crate::sink::written(*fmt) + replaced(crate::encoding::utf8(rest@), needle, with)
                == held + whole,
        ensures
            size + crate::encoding::utf8(rest@).len() == whole.len(),
            crate::sink::written(*fmt) + crate::encoding::utf8(rest@) == held + whole,
        decreases crate::encoding::utf8(rest@).len(),
    {
        match find(rest, from) {
            None => {
                proof {
                    lemma_replaced_when_absent(crate::encoding::utf8(rest@), needle, with);
                }
                break ;
            },
            Some(at) => {
                let ghost before = crate::sink::written(*fmt);
                let ghost source = crate::encoding::utf8(rest@);
                proof {
                    lemma_replaced_at_first_occurrence(source, needle, with, at as int);
                }
                let (head, after) = split_around(rest, from, at);
                match fmt.write_str(head) {
                    Ok(()) => {},
                    Err(e) => {
                        return Err(e);
                    },
                }
                match fmt.write_str(to) {
                    Ok(()) => {},
                    Err(e) => {
                        return Err(e);
                    },
                }
                proof {
                    let tail = replaced(crate::encoding::utf8(after@), needle, with);
                    assert(before + crate::encoding::utf8(head@) + with + tail =~= before + (
                    source.take(at as int) + with + tail));
                }
                size = size + at + to_len;
                rest = after;
            },
        }
    }
    match fmt.write_str(rest) {
        Ok(()) => {},
        Err(e) => {
            return Err(e);
        },
    }
    Ok(size + crate::encoding::str_len(rest))
}

} // verus!
