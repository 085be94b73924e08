//! From the declared shape of a composite type to the routine that measures
//! its values.

pub mod bounds;
pub mod error;
pub mod generate;
pub mod ignored;
pub mod shape;
pub mod traverse;
