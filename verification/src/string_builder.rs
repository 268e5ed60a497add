//! The string builder: one routine, run once to measure and once to fill,
//! or once against a formatter.

use vstd::prelude::*;
use crate::container::AllocationError;
use crate::container::StringType;
use crate::container::StringTypeMut;
use crate::state::BuilderState;
use crate::state::Phase;
use crate::value::StringAppendableValue;

verus! {

/// What a builder holds in each phase.
enum Mode<'a, 'f, TStringMut> {
    Capacity,
    Text(TStringMut),
    Format(&'a mut core::fmt::Formatter<'f>),
    FormatError(core::fmt::Error),
}

/// Builds a text from the appends of a routine.
///
/// While measuring, an append adds the length of its value to the capacity.
/// While filling, it pushes the value into the buffer that was reserved.
/// While formatting, it writes the value into the formatter and counts its
/// length; after the first write that fails it only counts.
pub struct StringBuilder<'a, 'f, TString: StringType = String> {
    capacity: usize,
    mode: Mode<'a, 'f, TString::MutType>,
}

/// Anything that can be appended to a [`StringBuilder`]: a single value, or
/// something that makes several appends of its own.
pub trait StringAppendable {
    /// The UTF-8 bytes that appending `self` contributes.
    ///
    /// An implementation that is verified says what these are; left alone,
    /// nothing is known of them.
    open spec fn appended(&self) -> Seq<u8> {
        vstd::pervasive::arbitrary()
    }

    /// Appends `self` to `builder`.
    fn append_to_builder<'a, 'f, TString: StringType>(
        self,
        builder: &mut StringBuilder<'a, 'f, TString>,
    )
        requires
            old(builder).state().has_room(self.appended().len()),
        ensures
            final(builder).state().follows(old(builder).state(), self.appended()),
            final(builder).state().phase is Formatting ==> *final(final(builder).sink())
                == *final(old(builder).sink()),
    ;
}

impl<T: StringAppendableValue> StringAppendable for T {
    open spec fn appended(&self) -> Seq<u8> {
        self.text()
    }

    fn append_to_builder<'a, 'f, TString: StringType>(
        self,
        builder: &mut StringBuilder<'a, 'f, TString>,
    ) {
        builder.append_value(self);
    }
}

impl StringAppendable for &Box<str> {
    open spec fn appended(&self) -> Seq<u8> {
        crate::encoding::utf8(self@)
    }

    fn append_to_builder<'a, 'f, TString: StringType>(
        self,
        builder: &mut StringBuilder<'a, 'f, TString>,
    ) {
        let text: &str = &**self;
        builder.append(text);
    }
}

impl<'a, 'f> StringBuilder<'a, 'f, String> {
    /// Runs `build` once against `fmt`: every append writes straight into
    /// the formatter.
    ///
    /// The first write that fails ends the writing: the appends that follow
    /// are only counted, and the error is returned when `build` is done.
    /// Where no write failed, the formatter holds what `build` appended
    /// behind what it held before.
    ///
    /// `build` has to accept a formatting builder that has counted nothing
    /// yet, and has to leave it formatting, or failed, on the formatter it
    /// was given, as every routine that is made of appends does.
    pub fn fmt<F: FnOnce(&mut StringBuilder<'a, 'f, String>)>(
        fmt: &'a mut core::fmt::Formatter<'f>,
        build: F,
    ) -> (outcome: Result<(), core::fmt::Error>)
        requires
            forall|b: &mut StringBuilder<'a, 'f, String>|
                b.state() == BuilderState::formatting(b.state().output) ==> #[trigger] call_requires(
                    build,
                    (b,),
                ),
            forall|b: &mut StringBuilder<'a, 'f, String>| #[trigger]
                call_ensures(build, (b,), ()) ==> final(b).state().continues(b.state()) && (
                final(b).state().phase is Formatting ==> *final(final(b).sink()) == *final(
                    b.sink()
                )),
        ensures
            exists|b: &mut StringBuilder<'a, 'f, String>|
                {
                    &&& #[trigger] call_ensures(build, (b,), ())
                    &&& b.state() == BuilderState::formatting(crate::sink::written(*old(fmt)))
                    &&& outcome is Ok <==> final(b).state().phase is Formatting
                    &&& outcome is Ok ==> crate::sink::written(*final(fmt))
                        == final(b).state().output
                },
    {
        let mut state: StringBuilder<'a, 'f, String> = StringBuilder {
            mode: Mode::Format(fmt),
            capacity: 0,
        };
        build(&mut state);
        match state.mode {
            Mode::Format(_) => Ok(()),
            Mode::FormatError(error) => Err(error),
            Mode::Capacity => vstd::pervasive::unreached(),
            Mode::Text(_) => vstd::pervasive::unreached(),
        }
    }
}

impl<'a, 'f, TString: StringType> StringBuilder<'a, 'f, TString> {
    /// The state of the builder.
    pub closed spec fn state(&self) -> BuilderState {
        match self.mode {
            Mode::Capacity => BuilderState {
                phase: Phase::Measuring,
                capacity: self.capacity as nat,
                output: Seq::empty(),
            },
            Mode::Text(buffer) => BuilderState {
                phase: Phase::Filling,
                capacity: self.capacity as nat,
                output: buffer.buffered(),
            },
            Mode::Format(sink) => BuilderState {
                phase: Phase::Formatting,
                capacity: self.capacity as nat,
                output: crate::sink::written(*sink),
            },
            Mode::FormatError(_) => BuilderState {
                phase: Phase::FormattingFailed,
                capacity: self.capacity as nat,
                output: Seq::empty(),
            },
        }
    }

    /// The formatter that a formatting builder writes into, as the
    /// reference that the builder holds. It has no meaning in another phase.
    pub closed spec fn sink(&self) -> &'a mut core::fmt::Formatter<'f> {
        self.mode->Format_0
    }

    /// Runs `build` once against a measuring builder and returns the
    /// capacity that it counted.
    ///
    /// `build` has to accept a builder that has counted nothing yet.
    pub fn measure<F: Fn(&mut StringBuilder<'a, 'f, TString>)>(build: &F) -> (capacity: usize)
        requires
            forall|b: &mut StringBuilder<'a, 'f, TString>|
                b.state() == BuilderState::measuring() ==> #[trigger] call_requires(*build, (b,)),
        ensures
            exists|m: &mut StringBuilder<'a, 'f, TString>|
                {
                    &&& #[trigger] call_ensures(*build, (m,), ())
                    &&& m.state() == BuilderState::measuring()
                    &&& final(m).state().capacity == capacity
                },
    {
        let mut state: StringBuilder<'a, 'f, TString> = StringBuilder {
            mode: Mode::Capacity,
            capacity: 0,
        };
        build(&mut state);
        state.capacity
    }

    /// Runs `build` once against the buffer that was reserved for
    /// `capacity` bytes, and returns what it left there in its final form.
    /// Where the reservation failed, its error is returned and `build` is
    /// not run.
    ///
    /// `build` has to accept a builder whose buffer is empty, and has to
    /// leave it filling, as every routine that is made of appends does.
    pub fn fill<F: Fn(&mut StringBuilder<'a, 'f, TString>)>(
        capacity: usize,
        reserved: Result<TString::MutType, AllocationError>,
        build: &F,
    ) -> (built: Result<TString, AllocationError>)
        requires
            reserved matches Ok(buffer) ==> buffer.buffered() == Seq::<u8>::empty(),
            forall|b: &mut StringBuilder<'a, 'f, TString>|
                b.state() == BuilderState::filling(capacity as nat) ==> #[trigger] call_requires(
                    *build,
                    (b,),
                ),
            forall|b: &mut StringBuilder<'a, 'f, TString>| #[trigger]
                call_ensures(*build, (b,), ()) ==> final(b).state().continues(b.state()),
        ensures
            built is Err <==> reserved is Err,
            built matches Ok(text) ==> exists|b: &mut StringBuilder<'a, 'f, TString>|
                {
                    &&& #[trigger] call_ensures(*build, (b,), ())
                    &&& b.state() == BuilderState::filling(capacity as nat)
                    &&& final(b).state().output == text.contents()
                },
    {
        match reserved {
            Err(error) => Err(error),
            Ok(buffer) => {
                let mut state: StringBuilder<'a, 'f, TString> = StringBuilder {
                    mode: Mode::Text(buffer),
                    capacity,
                };
                build(&mut state);
                match state.mode {
                    Mode::Text(buffer) => Ok(TString::from_mut(buffer)),
                    Mode::Capacity => vstd::pervasive::unreached(),
                    Mode::Format(_) => vstd::pervasive::unreached(),
                    Mode::FormatError(_) => vstd::pervasive::unreached(),
                }
            },
        }
    }

    /// Runs `build` twice: once to measure what it appends, and once to
    /// fill a container that was reserved to exactly that size.
    ///
    /// The result is what the second run left in the container. Where the
    /// container cannot be reserved, the error is returned and `build` is
    /// not run again: never on a measured capacity that the container is
    /// sure of, always on one that it refuses.
    ///
    /// `build` has to accept a builder that is empty, measuring or filling,
    /// and has to leave it in the phase it was given in, as every routine
    /// that is made of appends does. The two runs are meant to append the
    /// same: a routine that appends `x` whenever it is run gives a text
    /// that is `x` and that is as long as the capacity that was measured
    /// (see `lemma_filled_length_is_measured_capacity`).
    pub fn build<F: Fn(&mut StringBuilder<'a, 'f, TString>)>(build: F) -> (built: Result<
        TString,
        AllocationError,
    >)
        requires
            forall|b: &mut StringBuilder<'a, 'f, TString>|
                b.state() == BuilderState::measuring() || b.state() == BuilderState::filling(
                    b.state().capacity,
                ) ==> #[trigger] call_requires(build, (b,)),
            forall|b: &mut StringBuilder<'a, 'f, TString>| #[trigger]
                call_ensures(build, (b,), ()) ==> final(b).state().continues(b.state()),
        ensures
            exists|m: &mut StringBuilder<'a, 'f, TString>|
                {
                    &&& #[trigger] call_ensures(build, (m,), ())
                    &&& m.state() == BuilderState::measuring()
                    &&& TString::reserves(final(m).state().capacity) ==> built is Ok
                    &&& TString::refuses(final(m).state().capacity) ==> built is Err
                    &&& built matches Ok(text) ==> exists|b: &mut StringBuilder<'a, 'f, TString>|
                        {
                            &&& #[trigger] call_ensures(build, (b,), ())
                            &&& b.state() == BuilderState::filling(final(m).state().capacity)
                            &&& final(b).state().output == text.contents()
                        }
                },
    {
        let capacity: usize = Self::measure(&build);
        let reserved = TString::with_capacity(capacity);
        Self::fill(capacity, reserved, &build)
    }

    /// The current length: the capacity counted so far, or, while filling,
    /// the length of the buffer.
    pub fn len(&self) -> (n: usize)
        ensures
            n == self.state().len(),
    {
        match &self.mode {
            Mode::Text(buffer) => buffer.len(),
            Mode::Capacity => self.capacity,
            Mode::Format(_) => self.capacity,
            Mode::FormatError(_) => self.capacity,
        }
    }

    /// The phase that the builder is in.
    pub fn phase(&self) -> (phase: Phase)
        ensures
            phase == self.state().phase,
    {
        match &self.mode {
            Mode::Capacity => Phase::Measuring,
            Mode::Text(_) => Phase::Filling,
            Mode::Format(_) => Phase::Formatting,
            Mode::FormatError(_) => Phase::FormattingFailed,
        }
    }

    /// Counts `counted` bytes in a builder that only counts: one that
    /// measures, or one whose formatting has failed.
    pub(crate) fn count(&mut self, counted: usize)
        requires
            old(self).state().phase is Measuring || old(self).state().phase is FormattingFailed,
            old(self).state().has_room(counted as nat),
        ensures
            final(self).state() == old(self).state().step(counted as nat, Seq::empty(), true),
    {
        self.capacity = self.capacity + counted;
    }

    /// Appends `value`.
    pub fn append(&mut self, value: impl StringAppendable)
        requires
            old(self).state().has_room(value.appended().len()),
        ensures
            final(self).state().follows(old(self).state(), value.appended()),
            final(self).state().phase is Formatting ==> *final(final(self).sink()) == *final(
                old(self).sink()
            ),
    {
        value.append_to_builder(self);
    }

    /// Appends `value` with every occurrence of `from` replaced by `to`.
    ///
    /// The occurrences are found from left to right and do not overlap. An
    /// empty `value` appends nothing, whatever `from` and `to` are; any
    /// other `value` needs a `from` that is not empty.
    ///
    /// While measuring, the length is worked out from the number of
    /// occurrences, without building the text. While formatting, the length
    /// is that of what was written, or, where a write failed, the length
    /// worked out as for measuring.
    pub fn append_with_replace(&mut self, value: &str, from: &str, to: &str)
        requires
            crate::encoding::utf8(from@).len() > 0 || crate::encoding::utf8(value@).len() == 0,
            old(self).state().has_room(
                crate::replace::replaced(
                    crate::encoding::utf8(value@),
                    crate::encoding::utf8(from@),
                    crate::encoding::utf8(to@),
                ).len(),
            ),
        ensures
            final(self).state().follows(
                old(self).state(),
                crate::replace::replaced(
                    crate::encoding::utf8(value@),
                    crate::encoding::utf8(from@),
                    crate::encoding::utf8(to@),
                ),
            ),
            final(self).state().phase is Formatting ==> *final(final(self).sink()) == *final(
                old(self).sink()
            ),
    {
        if crate::encoding::str_len(value) == 0 {
            proof {
                crate::state::lemma_append_nothing(self.state());
            }
            return ;
        }
        match &mut self.mode {
            Mode::Text(buffer) => crate::replace::push_replaced(buffer, value, from, to),
            Mode::Format(formatter) => {
                match crate::replace::write_replaced(formatter, value, from, to) {
                    Ok(size) => self.settle(Ok(()), size),
                    Err(error) => {
                        let size: usize = crate::replace::replaced_len(value, from, to);
                        self.settle(Err(error), size)
                    },
                }
            },
            Mode::Capacity => {
                self.capacity = self.capacity + crate::replace::replaced_len(value, from, to);
            },
            Mode::FormatError(_) => {
                self.capacity = self.capacity + crate::replace::replaced_len(value, from, to);
            },
        }
    }

    /// Appends a text that `build` makes on demand and whose length the
    /// caller gives as `size`.
    ///
    /// While measuring, and once formatting has failed, `size` is counted
    /// and `build` is not called. While filling, the text that `build`
    /// returns is pushed, whatever its length. While formatting, that text
    /// is written and `size` is counted. A `size` other than the text's
    /// length makes the measured capacity differ from what is filled.
    pub fn append_owned_unsafe<F: FnOnce() -> String>(&mut self, size: usize, build: F)
        requires
            old(self).state().has_room(size as nat),
            call_requires(build, ()),
        ensures
            old(self).state().phase is Measuring || old(self).state().phase is FormattingFailed
                ==> final(self).state() == old(self).state().step(
                size as nat,
                Seq::empty(),
                true,
            ),
            old(self).state().phase is Filling || old(self).state().phase is Formatting
                ==> exists|text: String| #[trigger]
                call_ensures(build, (), text) && final(self).state().stepped(
                    old(self).state(),
                    size as nat,
                    crate::encoding::utf8(text@),
                ),
            final(self).state().phase is Formatting ==> *final(final(self).sink()) == *final(
                old(self).sink()
            ),
    {
        match &mut self.mode {
            Mode::Text(buffer) => {
                let text: String = build();
                buffer.push_str(text.as_str());
            },
            Mode::Capacity => {
                self.capacity = self.capacity + size;
            },
            Mode::Format(formatter) => {
                let text: String = build();
                let outcome = formatter.write_str(text.as_str());
                self.settle(outcome, size);
            },
            Mode::FormatError(_) => {
                self.capacity = self.capacity + size;
            },
        }
    }

    /// Takes note of `counted` bytes after a write into the formatter came
    /// back with `outcome`: a failure ends the formatting and keeps the
    /// error.
    fn settle(&mut self, outcome: Result<(), core::fmt::Error>, counted: usize)
        requires
            old(self).state().phase is Formatting,
            old(self).state().has_room(counted as nat),
        ensures
            outcome is Ok ==> final(self).state() == (BuilderState {
                capacity: old(self).state().capacity + counted as nat,
                ..old(self).state()
            }),
            outcome is Ok ==> *final(final(self).sink()) == *final(old(self).sink()),
            outcome is Err ==> final(self).state() == (BuilderState {
                phase: Phase::FormattingFailed,
                capacity: old(self).state().capacity + counted as nat,
                output: Seq::empty(),
            }),
    {
        if let Err(error) = outcome {
            self.mode = Mode::FormatError(error);
        }
        self.capacity = self.capacity + counted;
    }

    /// Appends one value through its three methods: its length is counted,
    /// or it is pushed, or it is written.
    pub(crate) fn append_value(&mut self, value: impl StringAppendableValue)
        requires
            old(self).state().has_room(value.text().len()),
        ensures
            final(self).state().follows(old(self).state(), value.text()),
            final(self).state().phase is Formatting ==> *final(final(self).sink()) == *final(
                old(self).sink()
            ),
    {
        match &mut self.mode {
            Mode::Text(buffer) => value.push_to(buffer),
            Mode::Capacity => {
                self.capacity = self.capacity + value.byte_len();
            },
            Mode::Format(formatter) => {
                let outcome = value.write_to_formatter(formatter);
                self.settle(outcome, value.byte_len());
            },
            Mode::FormatError(_) => {
                self.capacity = self.capacity + value.byte_len();
            },
        }
    }
}

/// Builds the text of one appendable value: the value is measured, a
/// container of exactly that size is reserved, and the value is appended to
/// it. There is an error only where the container cannot be reserved: never
/// on a length that the container is sure of, always on one that it refuses.
pub fn appendable_to_string<TString: StringType>(value: impl StringAppendable + Copy) -> (built:
    Result<TString, AllocationError>)
    requires
        value.appended().len() <= usize::MAX,
    ensures
        TString::reserves(value.appended().len()) ==> built is Ok,
        TString::refuses(value.appended().len()) ==> built is Err,
        built matches Ok(text) ==> text.contents() == value.appended(),
{
    let routine = |builder: &mut StringBuilder<'_, '_, TString>|
        requires
            old(builder).state().has_room(value.appended().len()),
        ensures
            final(builder).state().follows(old(builder).state(), value.appended()),
        { builder.append(value) };
    StringBuilder::<TString>::build(routine)
}

} // verus!
