//! Why a type definition is rejected.

use vstd::prelude::*;

verus! {

/// The reasons for which no accounting routine is generated. Each is found when
/// the routine is generated; none can come up while a value is measured.
#[derive(Debug, Clone, Copy, PartialEq, Eq, Structural)]
pub enum DeriveError {
    /// A `get_size` attribute on the type is not a list of plain names and
    /// `ignore(..)` lists of paths.
    MalformedIgnoreList,
    /// The type is a union. Its fields overlap in memory, so no rule can say
    /// which of them owns what.
    UnsupportedUnion,
    /// A field carries more than one of the overrides `size`, `size_fn` and
    /// `ignore`.
    ConflictingOverrides {
        /// The variant that holds the field, by position; 0 in a struct.
        variant: usize,
        /// The field, by position.
        field: usize,
    },
    /// A field is measured by its own implementation, and its type mentions a
    /// type parameter that the definition exempts from the capability.
    RecurseOnIgnoredGeneric {
        /// The variant that holds the field, by position; 0 in a struct.
        variant: usize,
        /// The field, by position.
        field: usize,
    },
}

} // verus!
