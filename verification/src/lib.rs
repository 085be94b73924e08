//! Per-value accounting of heap memory.
//!
//! A value's *stack size* is the number of bytes that one value of its type
//! occupies in place. Its *heap size* is the number of bytes that it owns on the
//! heap besides. [`GetSize`] reports both, and their sum.
//!
//! A heap block that several owners share is counted once per measurement. For
//! that, a measurement threads a [`GetSizeTracker`] through every value that it
//! visits; [`shared`] says who pays for a shared block. The implementation for a
//! struct or an enum follows from its definition, by the rules in [`derive`].
//!
//! All sums saturate at `usize::MAX`. What holds of every measurement is stated
//! and proved in [`laws`].

pub mod adapters;
pub mod arith;
pub mod containers;
pub mod derive;
pub mod laws;
pub mod maps;
pub mod ranges;
pub mod scalars;
pub mod shared;
pub mod size;
pub mod tracker;
pub mod trees;
pub mod tuples;
pub mod walk;

pub use crate::derive::generate::derive_get_size;
pub use crate::size::GetSize;
pub use crate::tracker::{GetSizeTracker, NoTracker, StandardTracker};
