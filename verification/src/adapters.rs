//! Values of other crates.

pub mod byte_buffers;
pub mod compact_strings;
pub mod dates;
pub mod hash_tables;
pub mod small_vectors;
pub mod urls;
