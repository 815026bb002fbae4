//! The ways in which an operation of this library can fail.

use vstd::prelude::*;

verus! {

/// Why an operation gave no result. A lookup that finds nothing is told apart
/// from a data file that cannot be read as a history.
#[derive(Debug, Clone, Copy, PartialEq, Eq, Structural)]
pub enum Failure {
    /// The text is not a history in the stored format.
    Corrupted,
    /// The history holds no year with the number asked for.
    NoSuchYear,
    /// The year holds no month with the name asked for.
    NoSuchMonth,
    /// The calendar year does not fit a year number.
    YearOutOfRange,
    /// The history could not be written as text.
    Unwritable,
}

} // verus!
