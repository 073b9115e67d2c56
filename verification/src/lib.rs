//! Computes the in-memory layout (size, alignment, field offsets, bit-field
//! packing) of C aggregate types the way the system compiler of a given
//! target would, without invoking a compiler.
//!
//! The entry point is [`builder::compute_layout`]. It takes a [`target::Target`]
//! and a [`layout::Type`] without layouts and returns the type with the
//! layout of every type and field in it. All sizes, alignments and offsets
//! are measured in bits.
//!
//! - [`layout`] holds the type tree and its view.
//! - [`target`] holds the targets and what each of them fixes.
//! - [`builder`] validates a type and lays it out by the rules of the
//!   target.
//! - [`util`] holds the arithmetic on sizes and alignments.
//! - [`result`] holds the errors.
//! - [`generator`] holds what the generator of C test files computes.

pub mod builder;
pub mod generator;
pub mod layout;
pub mod result;
pub mod target;
pub mod util;
