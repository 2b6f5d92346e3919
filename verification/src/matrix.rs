//! The matrix type, its layout, and access to single cells.

use vstd::prelude::*;
use crate::error::MatrixError;

verus! {

/// A dense `rows` by `cols` matrix stored row by row.
///
/// Rows and columns are numbered from 1. The entry in row `r` and column `c`
/// is kept at position `cols * (r - 1) + (c - 1)` of `data`.
///
/// A matrix is built by naming its three fields. Whoever builds one answers for
/// [`Matrix::wf`]; the operations of this crate keep it.
pub struct Matrix<T> {
    pub rows: usize,
    pub cols: usize,
    pub data: Vec<T>,
}

impl<T> Matrix<T> {
    /// The storage holds exactly one element for every cell.
    pub open spec fn wf(&self) -> bool {
        self.data.len() == self.rows * self.cols
    }

    /// Both matrices have the same number of rows and the same number of columns.
    ///
    /// Rows are compared with rows and columns with columns: a 2 by 3 matrix has
    /// the shape of neither a 3 by 2 nor a 2 by 2 matrix.
    pub open spec fn same_shape(&self, other: &Matrix<T>) -> bool {
        self.rows == other.rows && self.cols == other.cols
    }

    /// `(row, col)` names a cell of this matrix.
    pub open spec fn in_range(&self, row: int, col: int) -> bool {
        1 <= row <= self.rows && 1 <= col <= self.cols
    }

    /// Position in `data` of the cell `(row, col)`.
    pub open spec fn offset(&self, row: int, col: int) -> int {
        self.cols * (row - 1) + (col - 1)
    }

    /// `(row, col)` names a cell of this matrix, and `data` is long enough to hold it.
    pub open spec fn has_entry(&self, row: int, col: int) -> bool {
        self.in_range(row, col) && self.offset(row, col) < self.data.len()
    }

    /// The element stored in the cell `(row, col)`.
    pub open spec fn entry(&self, row: int, col: int) -> T
        recommends
            self.has_entry(row, col),
    {
        self.data@[self.offset(row, col)]
    }

    /// Every cell of a well-formed matrix lies inside `data`.
    pub proof fn lemma_offset_in_bounds(&self, row: int, col: int)
        requires
            self.wf(),
            self.in_range(row, col),
        ensures
            0 <= self.offset(row, col) < self.data@.len(),
    {
        let cols = self.cols as int;
        let rows = self.rows as int;
        assert(cols * (row - 1) + cols <= cols * rows) by (nonlinear_arith)
            requires
                1 <= row <= rows,
                0 <= cols,
        ;
        assert(0 <= cols * (row - 1)) by (nonlinear_arith)
            requires
                1 <= row,
                0 <= cols,
        ;
    }
}

impl<T: Copy> Matrix<T> {
    /// Reads the element in row `row` and column `col`, both counted from 1.
    ///
    /// A row or column that is 0 or past the last one is refused before any
    /// position is computed, and so is a cell that `data` is too short to hold.
    /// In a well-formed matrix every cell in range is held.
    #[must_use]
    pub fn get(&self, row: usize, col: usize) -> (result: Result<T, MatrixError>)
        ensures
            self.has_entry(row as int, col as int) ==> result == Ok::<T, MatrixError>(
                self.entry(row as int, col as int),
            ),
            !self.has_entry(row as int, col as int) ==> result == Err::<T, MatrixError>(
                MatrixError::IndexOutOfRange,
            ),
            self.wf() ==> self.has_entry(row as int, col as int) == self.in_range(
                row as int,
                col as int,
            ),
    {
        proof {
            if self.wf() && self.in_range(row as int, col as int) {
                self.lemma_offset_in_bounds(row as int, col as int);
            }
        }
        if row < 1 || row > self.rows || col < 1 || col > self.cols {
            return Err(MatrixError::IndexOutOfRange);
        }
        let point = match self.cols.checked_mul(row - 1) {
            Some(rows_before) => rows_before.checked_add(col - 1),
            None => None,
        };
        match point {
            Some(point) => {
                if point < self.data.len() {
                    Ok(self.data[point])
                } else {
                    Err(MatrixError::IndexOutOfRange)
                }
            },
            None => Err(MatrixError::IndexOutOfRange),
        }
    }
}

} // verus!
