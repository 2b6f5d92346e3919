//! The errors that matrix operations report.

use vstd::prelude::*;

verus! {

/// Why a matrix operation was refused.
#[derive(Clone, Copy, Debug, PartialEq, Eq, Structural)]
pub enum MatrixError {
    /// The two operands differ in their number of rows or of columns.
    ShapeMismatch,
    /// A row or column number is zero or past the last one, or names a cell
    /// that the stored data does not reach.
    IndexOutOfRange,
}

} // verus!
