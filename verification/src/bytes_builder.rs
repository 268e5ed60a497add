//! The bytes builder: one routine, run once to measure and once to fill.

use vstd::prelude::*;
use crate::container::AllocationError;
use crate::container::BytesType;
use crate::container::BytesTypeMut;
use crate::state::BuilderState;
use crate::state::Phase;
use crate::value::BytesAppendableValue;
use crate::value::EndianBytesAppendable;

verus! {

/// Builds a byte buffer from the appends of a routine.
///
/// While measuring, an append adds the length of its value to the capacity.
/// While filling, it pushes the value into the buffer that was reserved.
pub struct BytesBuilder<TBytes: BytesType> {
    capacity: usize,
    bytes: Option<TBytes::MutType>,
}

/// Anything that can be appended to a [`BytesBuilder`]: a single value, or
/// something that makes several appends of its own.
pub trait BytesAppendable {
    /// The bytes that appending `self` contributes.
    ///
    /// An implementation that is verified says what these are; left alone,
    /// nothing is known of them.
    open spec fn appended_bytes(&self) -> Seq<u8> {
        vstd::pervasive::arbitrary()
    }

    /// Appends `self` to `builder`.
    fn append_to_builder<TBytes: BytesType>(self, builder: &mut BytesBuilder<TBytes>)
        requires
            old(builder).state().has_room(self.appended_bytes().len()),
        ensures
            final(builder).state() == old(builder).state().after(self.appended_bytes()),
    ;
}

impl<T: BytesAppendableValue> BytesAppendable for T {
    open spec fn appended_bytes(&self) -> Seq<u8> {
        self.raw()
    }

    fn append_to_builder<TBytes: BytesType>(self, builder: &mut BytesBuilder<TBytes>) {
        builder.append_value(self);
    }
}

impl BytesAppendable for &Box<[u8]> {
    open spec fn appended_bytes(&self) -> Seq<u8> {
        self@
    }

    fn append_to_builder<TBytes: BytesType>(self, builder: &mut BytesBuilder<TBytes>) {
        let bytes: &[u8] = &**self;
        builder.append(bytes);
    }
}

impl<TBytes: BytesType> BytesBuilder<TBytes> {
    /// The state of the builder, which is measuring or filling.
    pub closed spec fn state(&self) -> BuilderState {
        match self.bytes {
            Some(buffer) => BuilderState {
                phase: Phase::Filling,
                capacity: self.capacity as nat,
                output: buffer.buffered(),
            },
            None => BuilderState {
                phase: Phase::Measuring,
                capacity: self.capacity as nat,
                output: Seq::empty(),
            },
        }
    }

    /// Runs `build` once against a measuring builder and returns the
    /// capacity that it counted.
    ///
    /// `build` has to accept a builder that has counted nothing yet.
    pub fn measure<F: Fn(&mut BytesBuilder<TBytes>)>(build: &F) -> (capacity: usize)
        requires
            forall|b: &mut BytesBuilder<TBytes>|
                b.state() == BuilderState::measuring() ==> #[trigger] call_requires(*build, (b,)),
        ensures
            exists|m: &mut BytesBuilder<TBytes>|
                {
                    &&& #[trigger] call_ensures(*build, (m,), ())
                    &&& m.state() == BuilderState::measuring()
                    &&& final(m).state().capacity == capacity
                },
    {
        let mut builder: BytesBuilder<TBytes> = BytesBuilder { bytes: None, capacity: 0 };
        build(&mut builder);
        builder.capacity
    }

    /// Runs `build` once against the buffer that was reserved for
    /// `capacity` bytes, and returns what it left there in its final form.
    /// Where the reservation failed, its error is returned and `build` is
    /// not run.
    ///
    /// `build` has to accept a builder whose buffer is empty, and has to
    /// leave it filling, as every routine that is made of appends does.
    pub fn fill<F: Fn(&mut BytesBuilder<TBytes>)>(
        capacity: usize,
        reserved: Result<TBytes::MutType, AllocationError>,
        build: &F,
    ) -> (built: Result<TBytes, AllocationError>)
        requires
            reserved matches Ok(buffer) ==> buffer.buffered() == Seq::<u8>::empty(),
            forall|b: &mut BytesBuilder<TBytes>|
                b.state() == BuilderState::filling(capacity as nat) ==> #[trigger] call_requires(
                    *build,
                    (b,),
                ),
            forall|b: &mut BytesBuilder<TBytes>| #[trigger]
                call_ensures(*build, (b,), ()) ==> final(b).state().continues(b.state()),
        ensures
            built is Err <==> reserved is Err,
            built matches Ok(bytes) ==> exists|b: &mut BytesBuilder<TBytes>|
                {
                    &&& #[trigger] call_ensures(*build, (b,), ())
                    &&& b.state() == BuilderState::filling(capacity as nat)
                    &&& final(b).state().output == bytes.contents()
                },
    {
        match reserved {
            Err(error) => Err(error),
            Ok(buffer) => {
                let mut builder: BytesBuilder<TBytes> = BytesBuilder {
                    bytes: Some(buffer),
                    capacity,
                };
                build(&mut builder);
                match builder.bytes {
                    Some(buffer) => Ok(TBytes::from_mut(buffer)),
                    None => vstd::pervasive::unreached(),
                }
            },
        }
    }

    /// Runs `build` twice: once to measure what it appends, and once to
    /// fill a container that was reserved to exactly that size.
    ///
    /// The result is what the second run left in the container. Where the
    /// container cannot be reserved, the error is returned and `build` is
    /// not run again: never on a measured capacity that the container is
    /// sure of, always on one that it refuses.
    ///
    /// `build` has to accept a builder that is empty, measuring or filling,
    /// and has to leave it in the phase it was given in, as every routine
    /// that is made of appends does. The two runs are meant to append the
    /// same: a routine that appends `x` whenever it is run gives a buffer
    /// that is `x` and that is as long as the capacity that was measured
    /// (see `lemma_filled_length_is_measured_capacity`).
    pub fn build<F: Fn(&mut BytesBuilder<TBytes>)>(build: F) -> (built: Result<
        TBytes,
        AllocationError,
    >)
        requires
            forall|b: &mut BytesBuilder<TBytes>|
                b.state() == BuilderState::measuring() || b.state() == BuilderState::filling(
                    b.state().capacity,
                ) ==> #[trigger] call_requires(build, (b,)),
            forall|b: &mut BytesBuilder<TBytes>| #[trigger]
                call_ensures(build, (b,), ()) ==> final(b).state().continues(b.state()),
        ensures
            exists|m: &mut BytesBuilder<TBytes>|
                {
                    &&& #[trigger] call_ensures(build, (m,), ())
                    &&& m.state() == BuilderState::measuring()
                    &&& TBytes::reserves(final(m).state().capacity) ==> built is Ok
                    &&& TBytes::refuses(final(m).state().capacity) ==> built is Err
                    &&& built matches Ok(bytes) ==> exists|b: &mut BytesBuilder<TBytes>|
                        {
                            &&& #[trigger] call_ensures(build, (b,), ())
                            &&& b.state() == BuilderState::filling(final(m).state().capacity)
                            &&& final(b).state().output == bytes.contents()
                        }
                },
    {
        let capacity: usize = Self::measure(&build);
        let reserved = TBytes::with_capacity(capacity);
        Self::fill(capacity, reserved, &build)
    }

    /// The current length: the capacity counted so far, or, while filling,
    /// the length of the buffer.
    pub fn len(&self) -> (n: usize)
        ensures
            n == self.state().len(),
    {
        match &self.bytes {
            Some(buffer) => buffer.len(),
            None => self.capacity,
        }
    }

    /// Appends `value`.
    pub fn append(&mut self, value: impl BytesAppendable)
        requires
            old(self).state().has_room(value.appended_bytes().len()),
        ensures
            final(self).state() == old(self).state().after(value.appended_bytes()),
    {
        value.append_to_builder(self);
    }

    /// Appends a number as its bytes, most significant first.
    pub fn append_be<T: EndianBytesAppendable>(&mut self, value: T)
        requires
            old(self).state().has_room(value.be_bytes().len()),
        ensures
            final(self).state() == old(self).state().after(value.be_bytes()),
    {
        match &mut self.bytes {
            Some(buffer) => value.push_be_to(buffer),
            None => {
                self.capacity = self.capacity + value.byte_len();
            },
        }
    }

    /// Appends a number as its bytes, least significant first.
    pub fn append_le<T: EndianBytesAppendable>(&mut self, value: T)
        requires
            old(self).state().has_room(value.le_bytes().len()),
        ensures
            final(self).state() == old(self).state().after(value.le_bytes()),
    {
        match &mut self.bytes {
            Some(buffer) => value.push_le_to(buffer),
            None => {
                self.capacity = self.capacity + value.byte_len();
            },
        }
    }

    /// Appends one value through its two methods: its length is counted, or
    /// it is pushed.
    pub(crate) fn append_value(&mut self, value: impl BytesAppendableValue)
        requires
            old(self).state().has_room(value.raw().len()),
        ensures
            final(self).state() == old(self).state().after(value.raw()),
    {
        match &mut self.bytes {
            Some(buffer) => value.push_to(buffer),
            None => {
                self.capacity = self.capacity + value.byte_len();
            },
        }
    }
}

} // verus!
