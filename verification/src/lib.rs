//! Builds strings and byte buffers in exactly one allocation.
//!
//! A build routine is run twice against a builder: a first time to measure
//! how many bytes it appends, a second time to fill a buffer that was
//! reserved to exactly that size. The same routine can also be written
//! straight into a formatter, in a single pass.
//!
//! ```text
//! let text = StringBuilder::<String>::build(|builder| {
//!     builder.append("Hello, ");
//!     builder.append(42u8);
//!     builder.append_with_replace("a/b", "/", "::");
//! })?;
//! ```
//!
//! # The model
//!
//! Every contract speaks of byte sequences. The text that a string holds is
//! modelled by its UTF-8 encoding ([`encoding::utf8`]), so that the length
//! of the model is the capacity that the text needs; a text is known by
//! its encoding ([`encoding::lemma_utf8_determines_text`]).
//!
//! A builder is a [`BuilderState`]: the [`Phase`] it is in, the capacity it
//! has counted, and what its storage holds. Every append is one step of
//! that state ([`BuilderState::step`]), and a routine that always appends
//! the same bytes fills exactly the capacity that it measured
//! ([`state::lemma_filled_length_is_measured_capacity`]).
//!
//! # What is taken on trust
//!
//! The containers and the formatter belong to the standard library and to
//! the crates `ecow`, `hipstr` and `itoa`. What their functions do is
//! stated, not proved, next to each call: in [`container`], [`sink`],
//! [`value`], [`decimal`], [`replace`], [`eco_string`] and [`hip_string`].

pub mod bytes_builder;
pub mod container;
pub mod decimal;
pub mod deferred;
pub mod eco_string;
pub mod encoding;
pub mod endian;
pub mod hip_string;
pub mod integers;
pub mod replace;
pub mod sink;
pub mod state;
pub mod string_builder;
pub mod value;

pub use bytes_builder::BytesAppendable;
pub use bytes_builder::BytesBuilder;
pub use container::AllocationError;
pub use container::BytesType;
pub use container::BytesTypeMut;
pub use container::StringType;
pub use container::StringTypeMut;
pub use deferred::DeferredStringBuilder;
pub use hip_string::HipString;
pub use state::BuilderState;
pub use state::Phase;
pub use string_builder::appendable_to_string;
pub use string_builder::StringAppendable;
pub use string_builder::StringBuilder;
pub use value::BytesAppendableValue;
pub use value::EndianBytesAppendable;
pub use value::StringAppendableValue;
