//! A builder that keeps its routine and remembers how much it appends, so
//! that it can be appended to other builders again and again without being
//! measured each time.

use vstd::prelude::*;
use crate::container::AllocationError;
use crate::container::StringType;
use crate::state::Phase;
use crate::string_builder::StringAppendable;
use crate::string_builder::StringBuilder;

verus! {

/// What the memo of a deferred builder may hold: zero, which stands for
/// "not measured yet", or the length that measuring gives.
pub struct MemoOf {
    pub len: nat,
}

impl vstd::predicate::Predicate<usize> for MemoOf {
    open spec fn predicate(&self, v: usize) -> bool {
        v == 0 || v == self.len
    }
}

/// A routine together with the capacity that it was last measured to need.
///
/// The memo starts at zero and is filled by the first call that needs the
/// capacity. Zero also is what a routine that appends nothing measures to,
/// so such a routine is measured on every call.
///
/// The memo is written through a shared reference and is not synchronised:
/// the cell that holds it keeps a deferred builder from being shared between
/// threads.
pub struct DeferredStringBuilder<V: StringAppendable + Copy> {
    routine: V,
    memo: vstd::cell::invcell::InvCell<usize, MemoOf>,
}

impl<V: StringAppendable + Copy> DeferredStringBuilder<V> {
    #[verifier::type_invariant]
    spec fn well_formed(&self) -> bool {
        &&& self.memo.predicate().len == self.routine.appended().len()
        &&& self.routine.appended().len() <= usize::MAX
    }

    /// The UTF-8 bytes that the routine appends.
    pub closed spec fn text(&self) -> Seq<u8> {
        self.routine.appended()
    }

    /// Keeps `routine` for later, not measured yet.
    pub fn new(routine: V) -> (made: Self)
        requires
            routine.appended().len() <= usize::MAX,
        ensures
            made.text() == routine.appended(),
    {
        DeferredStringBuilder {
            routine,
            memo: vstd::cell::invcell::InvCell::new(
                0,
                Ghost(MemoOf { len: routine.appended().len() }),
            ),
        }
    }

    /// The number of bytes that the routine appends: the memo where it is
    /// not zero, else what measuring the routine gives, which then becomes
    /// the memo.
    pub fn capacity(&self) -> (n: usize)
        ensures
            n == self.text().len(),
    {
        proof {
            use_type_invariant(self);
        }
        let memo: usize = self.memo.get();
        if memo != 0 {
            memo
        } else {
            let routine = self.routine;
            let measure = |builder: &mut StringBuilder<'_, '_, String>|
                requires
                    old(builder).state().has_room(routine.appended().len()),
                ensures
                    final(builder).state().follows(old(builder).state(), routine.appended()),
                { builder.append(routine) };
            let measured: usize = StringBuilder::<String>::measure(&measure);
            self.memo.set(measured);
            measured
        }
    }

    /// Builds the text in a container of its own, reserved to exactly the
    /// capacity. There is an error only where the container cannot be
    /// reserved: never on a capacity that the container is sure of, always
    /// on one that it refuses.
    pub fn build_to_owned<TString: StringType>(&self) -> (built: Result<TString, AllocationError>)
        ensures
            TString::reserves(self.text().len()) ==> built is Ok,
            TString::refuses(self.text().len()) ==> built is Err,
            built matches Ok(text) ==> text.contents() == self.text(),
    {
        proof {
            use_type_invariant(self);
        }
        let capacity: usize = self.capacity();
        let routine = self.routine;
        let fill = |builder: &mut StringBuilder<'_, '_, TString>|
            requires
                old(builder).state().has_room(routine.appended().len()),
            ensures
                final(builder).state().follows(old(builder).state(), routine.appended()),
            { builder.append(routine) };
        let reserved = TString::with_capacity(capacity);
        StringBuilder::<TString>::fill(capacity, reserved, &fill)
    }

    /// Writes the text into `sink` in one formatting pass. Where no write
    /// failed, the formatter holds the text behind what it held before.
    pub fn write_into<'a, 'f>(&self, sink: &'a mut core::fmt::Formatter<'f>) -> (outcome: Result<
        (),
        core::fmt::Error,
    >)
        ensures
            outcome is Ok ==> crate::sink::written(*final(sink)) == crate::sink::written(
                *old(sink),
            ) + self.text(),
    {
        proof {
            use_type_invariant(self);
        }
        let routine = self.routine;
        let write = |builder: &mut StringBuilder<'a, 'f, String>|
            requires
                old(builder).state().has_room(routine.appended().len()),
            ensures
                final(builder).state().follows(old(builder).state(), routine.appended()),
                final(builder).state().phase is Formatting ==> *final(final(builder).sink())
                    == *final(old(builder).sink()),
            { builder.append(routine) };
        StringBuilder::<String>::fmt(sink, write)
    }
}

/// What a deferred builder reports as its capacity depends on nothing but
/// the builder: however often it is asked, the answer is the same.
pub proof fn lemma_capacity_is_stable<V: StringAppendable + Copy>(
    deferred: DeferredStringBuilder<V>,
    first: usize,
    second: usize,
)
    requires
        first == deferred.text().len(),
        second == deferred.text().len(),
    ensures
        first == second,
{
}

/// A deferred builder is appended like any other value. A builder that only
/// counts is given the remembered capacity; one that fills or formats has
/// the routine run against it.
impl<V: StringAppendable + Copy> StringAppendable for &DeferredStringBuilder<V> {
    open spec fn appended(&self) -> Seq<u8> {
        self.text()
    }

    fn append_to_builder<'a, 'f, TString: StringType>(
        self,
        builder: &mut StringBuilder<'a, 'f, TString>,
    ) {
        match builder.phase() {
            Phase::Measuring => builder.count(self.capacity()),
            Phase::FormattingFailed => builder.count(self.capacity()),
            Phase::Filling => builder.append(self.routine),
            Phase::Formatting => builder.append(self.routine),
        }
    }
}

} // verus!
