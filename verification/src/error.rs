//! Errors of the usmap property readers and writers.

use vstd::prelude::*;

verus! {

/// What can go wrong while reading or writing a usmap property type.
#[derive(Debug, Clone, Copy, PartialEq, Eq, Structural)]
pub enum Error {
    /// The input ended before the property type was complete.
    UnexpectedEnd,
    /// A type tag byte that names no `EPropertyType`.
    InvalidPropertyType(u8),
    /// A name index that does not point into the reader's name map.
    InvalidNameIndex(i32),
    /// A name that the writer cannot find in its name map (or whose first
    /// position does not fit in an `i32` index).
    NameNotInMap,
}

} // verus!
