//! The abstract state of a builder and the one step that every append takes.

use vstd::prelude::*;

verus! {

/// The pass a builder is in.
#[derive(Clone, Copy, Debug, PartialEq, Eq)]
pub enum Phase {
    /// No storage yet: appends only add to the capacity.
    Measuring,
    /// Storage exists: appends write into it.
    Filling,
    /// Appends write into a formatter; the capacity is counted alongside.
    Formatting,
    /// A write into the formatter failed: nothing more is written, the
    /// capacity is still counted.
    FormattingFailed,
}

/// What a builder is, as far as contracts are concerned.
///
/// `output` is the content of the buffer while `Filling` and what the
/// formatter holds while `Formatting`; it is empty in the two other phases.
pub struct BuilderState {
    pub phase: Phase,
    pub capacity: nat,
    pub output: Seq<u8>,
}

impl BuilderState {
    /// The state in which a measuring pass starts.
    pub open spec fn measuring() -> BuilderState {
        BuilderState { phase: Phase::Measuring, capacity: 0, output: Seq::empty() }
    }

    /// The state in which a filling pass starts, after `capacity` bytes were
    /// measured.
    pub open spec fn filling(capacity: nat) -> BuilderState {
        BuilderState { phase: Phase::Filling, capacity, output: Seq::empty() }
    }

    /// The state in which a formatting pass starts, on a formatter that
    /// already holds `held`.
    pub open spec fn formatting(held: Seq<u8>) -> BuilderState {
        BuilderState { phase: Phase::Formatting, capacity: 0, output: held }
    }

    /// What `len` reports: the buffer's length while filling, the counted
    /// capacity otherwise.
    pub open spec fn len(self) -> nat {
        if self.phase is Filling {
            self.output.len()
        } else {
            self.capacity
        }
    }

    /// Whether `n` more bytes can be counted without leaving `usize`.
    /// A filling builder counts nothing.
    pub open spec fn has_room(self, n: nat) -> bool {
        !(self.phase is Filling) ==> self.capacity + n <= usize::MAX
    }

    /// The single step of the state machine: `counted` bytes are accounted
    /// for and `bytes` are handed to the storage, where `wrote` tells whether
    /// a formatter took them.
    ///
    /// While measuring only the count matters, while filling only the bytes.
    /// A formatter that refuses the bytes ends the formatting for good.
    pub open spec fn step(self, counted: nat, bytes: Seq<u8>, wrote: bool) -> BuilderState {
        match self.phase {
            Phase::Measuring => BuilderState { capacity: self.capacity + counted, ..self },
            Phase::Filling => BuilderState { output: self.output + bytes, ..self },
            Phase::Formatting => if wrote {
                BuilderState {
                    phase: Phase::Formatting,
                    capacity: self.capacity + counted,
                    output: self.output + bytes,
                }
            } else {
                BuilderState {
                    phase: Phase::FormattingFailed,
                    capacity: self.capacity + counted,
                    output: Seq::empty(),
                }
            },
            Phase::FormattingFailed => BuilderState {
                capacity: self.capacity + counted,
                ..self
            },
        }
    }

    /// The state after `bytes` were appended and every write succeeded.
    pub open spec fn after(self, bytes: Seq<u8>) -> BuilderState {
        self.step(bytes.len(), bytes, true)
    }

    /// `self` is what `before` becomes in one step that counts `counted`
    /// bytes and hands over `bytes`: either every write succeeded, or
    /// `before` was formatting and a write failed.
    pub open spec fn stepped(self, before: BuilderState, counted: nat, bytes: Seq<u8>) -> bool {
        self == before.step(counted, bytes, true) || (before.phase is Formatting && self
            == before.step(counted, bytes, false))
    }

    /// `self` is what `before` becomes when `bytes` are appended, each byte
    /// counted once.
    pub open spec fn follows(self, before: BuilderState, bytes: Seq<u8>) -> bool {
        self.stepped(before, bytes.len(), bytes)
    }

    /// `self` can come after `before` within one pass: the phase is kept,
    /// but for the one move from `Formatting` to `FormattingFailed`.
    pub open spec fn continues(self, before: BuilderState) -> bool {
        self.phase == before.phase || (before.phase is Formatting
            && self.phase is FormattingFailed)
    }
}

/// Appending nothing leaves a state as it is.
pub proof fn lemma_append_nothing(s: BuilderState)
    ensures
        s.after(Seq::empty()) == s,
        s.follows(s, Seq::empty()),
{
}

/// Two appends in a row that both succeed are one append of the
/// concatenation.
pub proof fn lemma_after_compose(s: BuilderState, x: Seq<u8>, y: Seq<u8>)
    ensures
        s.after(x).after(y) == s.after(x + y),
{
    assert((s.output + x) + y =~= s.output + (x + y));
}

/// Two appends in a row are one append of the concatenation.
pub proof fn lemma_follows_compose(
    s0: BuilderState,
    s1: BuilderState,
    s2: BuilderState,
    x: Seq<u8>,
    y: Seq<u8>,
)
    requires
        s1.follows(s0, x),
        s2.follows(s1, y),
    ensures
        s2.follows(s0, x + y),
{
    assert((s0.output + x) + y =~= s0.output + (x + y));
}

/// A step never changes the pass: a measuring builder keeps measuring, a
/// filling builder keeps filling, and a builder whose formatting has failed
/// never formats again. The one way out of `Formatting` is a failed write,
/// and it leads to `FormattingFailed`.
pub proof fn lemma_step_continues(s0: BuilderState, s1: BuilderState, counted: nat, bytes: Seq<u8>)
    requires
        s1.stepped(s0, counted, bytes),
    ensures
        s1.continues(s0),
        s0.phase is FormattingFailed ==> s1.phase is FormattingFailed,
        s1.phase is Formatting ==> s0.phase is Formatting,
        s1.phase != s0.phase ==> s0.phase is Formatting && s1.phase is FormattingFailed,
{
}

/// Whatever is appended, the length of a filled buffer is the capacity that
/// measuring the same appends gave.
pub proof fn lemma_filled_length_is_measured_capacity(
    measured: BuilderState,
    filled: BuilderState,
    capacity: nat,
    x: Seq<u8>,
)
    requires
        measured.follows(BuilderState::measuring(), x),
        filled.follows(BuilderState::filling(capacity), x),
    ensures
        measured.phase is Measuring,
        filled.phase is Filling,
        filled.output == x,
        filled.len() == measured.capacity,
        filled.len() == measured.len(),
{
}

/// A formatting pass counts the bytes it was asked to append, whether or not
/// the formatter took them; what the formatter holds grows by exactly these
/// bytes if no write failed.
pub proof fn lemma_formatting_counts_all(held: Seq<u8>, s: BuilderState, x: Seq<u8>)
    requires
        s.follows(BuilderState::formatting(held), x),
    ensures
        s.capacity == x.len(),
        s.phase is Formatting || s.phase is FormattingFailed,
        s.phase is Formatting ==> s.output == held + x,
{
}

} // verus!
