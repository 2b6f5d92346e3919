//! Addition, subtraction and multiplication of matrices cell by cell.
//!
//! Each operation first compares the shapes of its operands and reports
//! [`MatrixError::ShapeMismatch`] when they differ. The free functions build a
//! new matrix; the methods `add_matrix` and `sub_matrix` change their receiver.

use vstd::prelude::*;
use vstd::std_specs::ops::AddSpec;
use vstd::std_specs::ops::MulSpec;
use vstd::std_specs::ops::SubSpec;
use core::ops::Add;
use core::ops::Mul;
use core::ops::Sub;
use crate::error::MatrixError;
use crate::matrix::Matrix;

verus! {

/// Each pair of corresponding elements may be added.
pub open spec fn can_add_elementwise<T: Add<Output = T>>(a: Seq<T>, b: Seq<T>) -> bool {
    forall|i: int| 0 <= i < a.len() && i < b.len() ==> #[trigger] a[i].add_req(b[i])
}

/// Each element of `b` may be subtracted from the corresponding element of `a`.
pub open spec fn can_sub_elementwise<T: Sub<Output = T>>(a: Seq<T>, b: Seq<T>) -> bool {
    forall|i: int| 0 <= i < a.len() && i < b.len() ==> #[trigger] a[i].sub_req(b[i])
}

/// Each pair of corresponding elements may be multiplied.
pub open spec fn can_mul_elementwise<T: Mul<Output = T>>(a: Seq<T>, b: Seq<T>) -> bool {
    forall|i: int| 0 <= i < a.len() && i < b.len() ==> #[trigger] a[i].mul_req(b[i])
}

/// The sequence whose `i`-th element is `a[i] + b[i]`.
pub open spec fn elementwise_sum<T: Add<Output = T>>(a: Seq<T>, b: Seq<T>) -> Seq<T>
    recommends
        a.len() == b.len(),
{
    Seq::new(a.len(), |i: int| a[i].add_spec(b[i]))
}

/// The sequence whose `i`-th element is `a[i] - b[i]`.
pub open spec fn elementwise_difference<T: Sub<Output = T>>(a: Seq<T>, b: Seq<T>) -> Seq<T>
    recommends
        a.len() == b.len(),
{
    Seq::new(a.len(), |i: int| a[i].sub_spec(b[i]))
}

/// The sequence whose `i`-th element is `a[i] * b[i]`.
pub open spec fn elementwise_product<T: Mul<Output = T>>(a: Seq<T>, b: Seq<T>) -> Seq<T>
    recommends
        a.len() == b.len(),
{
    Seq::new(a.len(), |i: int| a[i].mul_spec(b[i]))
}

/// `out` is as long as `a`, and each of its elements is what `+` gave for the
/// elements of `a` and `b` at the same position.
pub open spec fn added_elementwise<T: Add<Output = T>>(out: Seq<T>, a: Seq<T>, b: Seq<T>) -> bool {
    &&& out.len() == a.len()
    &&& forall|i: int|
        0 <= i < out.len() ==> call_ensures(<T as Add>::add, (a[i], b[i]), #[trigger] out[i])
}

/// `out` is as long as `a`, and each of its elements is what `-` gave for the
/// elements of `a` and `b` at the same position.
pub open spec fn subtracted_elementwise<T: Sub<Output = T>>(
    out: Seq<T>,
    a: Seq<T>,
    b: Seq<T>,
) -> bool {
    &&& out.len() == a.len()
    &&& forall|i: int|
        0 <= i < out.len() ==> call_ensures(<T as Sub>::sub, (a[i], b[i]), #[trigger] out[i])
}

/// `out` is as long as `a`, and each of its elements is what `*` gave for the
/// elements of `a` and `b` at the same position.
pub open spec fn multiplied_elementwise<T: Mul<Output = T>>(
    out: Seq<T>,
    a: Seq<T>,
    b: Seq<T>,
) -> bool {
    &&& out.len() == a.len()
    &&& forall|i: int|
        0 <= i < out.len() ==> call_ensures(<T as Mul>::mul, (a[i], b[i]), #[trigger] out[i])
}

impl<T: Add<Output = T>> Matrix<T> {
    /// This matrix has the shape of `a` and holds, cell by cell, the sum of `a` and `b`.
    ///
    /// Each element is a result of the element type's own `+`. Where that `+`
    /// obeys its specification, as it does for every primitive integer type, the
    /// data is `elementwise_sum` of the operands' data.
    pub open spec fn is_sum_of(&self, a: &Matrix<T>, b: &Matrix<T>) -> bool {
        &&& self.rows == a.rows
        &&& self.cols == a.cols
        &&& added_elementwise(self.data@, a.data@, b.data@)
        &&& T::obeys_add_spec() ==> self.data@ == elementwise_sum(a.data@, b.data@)
    }
}

impl<T: Sub<Output = T>> Matrix<T> {
    /// This matrix has the shape of `a` and holds, cell by cell, `a` minus `b`.
    ///
    /// Each element is a result of the element type's own `-`. Where that `-`
    /// obeys its specification, as it does for every primitive integer type, the
    /// data is `elementwise_difference` of the operands' data.
    pub open spec fn is_difference_of(&self, a: &Matrix<T>, b: &Matrix<T>) -> bool {
        &&& self.rows == a.rows
        &&& self.cols == a.cols
        &&& subtracted_elementwise(self.data@, a.data@, b.data@)
        &&& T::obeys_sub_spec() ==> self.data@ == elementwise_difference(a.data@, b.data@)
    }
}

impl<T: Mul<Output = T>> Matrix<T> {
    /// This matrix has the shape of `a` and holds, cell by cell, the product of `a` and `b`.
    ///
    /// Each element is a result of the element type's own `*`. Where that `*`
    /// obeys its specification, as it does for every primitive integer type, the
    /// data is `elementwise_product` of the operands' data.
    pub open spec fn is_product_of(&self, a: &Matrix<T>, b: &Matrix<T>) -> bool {
        &&& self.rows == a.rows
        &&& self.cols == a.cols
        &&& multiplied_elementwise(self.data@, a.data@, b.data@)
        &&& T::obeys_mul_spec() ==> self.data@ == elementwise_product(a.data@, b.data@)
    }
}

/// Adds two vectors of equal length element by element.
fn sum_of_vecs<T: Add<Output = T> + Copy>(a: &Vec<T>, b: &Vec<T>) -> (out: Vec<T>)
    requires
        a.len() == b.len(),
        can_add_elementwise(a@, b@),
    ensures
        added_elementwise(out@, a@, b@),
        T::obeys_add_spec() ==> out@ == elementwise_sum(a@, b@),
{
    let n = a.len();
    let mut out: Vec<T> = Vec::with_capacity(n);
    let mut i: usize = 0;
    while i < n
        invariant
            i <= n,
            n == a.len(),
            n == b.len(),
            can_add_elementwise(a@, b@),
            out.len() == i,
            forall|j: int|
                0 <= j < i ==> call_ensures(<T as Add>::add, (a@[j], b@[j]), #[trigger] out@[j]),
        decreases n - i,
    {
        out.push(a[i] + b[i]);
        i = i + 1;
    }
    out
}

/// Subtracts `b` from `a`, two vectors of equal length, element by element.
fn difference_of_vecs<T: Sub<Output = T> + Copy>(a: &Vec<T>, b: &Vec<T>) -> (out: Vec<T>)
    requires
        a.len() == b.len(),
        can_sub_elementwise(a@, b@),
    ensures
        subtracted_elementwise(out@, a@, b@),
        T::obeys_sub_spec() ==> out@ == elementwise_difference(a@, b@),
{
    let n = a.len();
    let mut out: Vec<T> = Vec::with_capacity(n);
    let mut i: usize = 0;
    while i < n
        invariant
            i <= n,
            n == a.len(),
            n == b.len(),
            can_sub_elementwise(a@, b@),
            out.len() == i,
            forall|j: int|
                0 <= j < i ==> call_ensures(<T as Sub>::sub, (a@[j], b@[j]), #[trigger] out@[j]),
        decreases n - i,
    {
        out.push(a[i] - b[i]);
        i = i + 1;
    }
    out
}

/// Multiplies two vectors of equal length element by element.
fn product_of_vecs<T: Mul<Output = T> + Copy>(a: &Vec<T>, b: &Vec<T>) -> (out: Vec<T>)
    requires
        a.len() == b.len(),
        can_mul_elementwise(a@, b@),
    ensures
        multiplied_elementwise(out@, a@, b@),
        T::obeys_mul_spec() ==> out@ == elementwise_product(a@, b@),
{
    let n = a.len();
    let mut out: Vec<T> = Vec::with_capacity(n);
    let mut i: usize = 0;
    while i < n
        invariant
            i <= n,
            n == a.len(),
            n == b.len(),
            can_mul_elementwise(a@, b@),
            out.len() == i,
            forall|j: int|
                0 <= j < i ==> call_ensures(<T as Mul>::mul, (a@[j], b@[j]), #[trigger] out@[j]),
        decreases n - i,
    {
        out.push(a[i] * b[i]);
        i = i + 1;
    }
    out
}

/// Adds two matrices of the same shape cell by cell into a new matrix.
///
/// Matrices of different shapes are refused with [`MatrixError::ShapeMismatch`].
/// Matrices of one shape are expected to hold equally many elements, as
/// well-formed ones do, and elements that can be added.
pub fn add_matrices<T: Add<Output = T> + Copy>(matrix1: &Matrix<T>, matrix2: &Matrix<T>) -> (result:
    Result<Matrix<T>, MatrixError>)
    requires
        matrix1.same_shape(matrix2) ==> matrix1.data.len() == matrix2.data.len()
            && can_add_elementwise(matrix1.data@, matrix2.data@),
    ensures
        matrix1.same_shape(matrix2) ==> result is Ok && result->Ok_0.is_sum_of(matrix1, matrix2)
            && (matrix1.wf() ==> result->Ok_0.wf()),
        !matrix1.same_shape(matrix2) ==> result is Err && result->Err_0
            == MatrixError::ShapeMismatch,
{
    if matrix1.rows != matrix2.rows || matrix1.cols != matrix2.cols {
        return Err(MatrixError::ShapeMismatch);
    }
    let data = sum_of_vecs(&matrix1.data, &matrix2.data);
    Ok(Matrix { rows: matrix1.rows, cols: matrix1.cols, data })
}

/// Subtracts `matrix2` from `matrix1` cell by cell into a new matrix.
///
/// Matrices of different shapes are refused with [`MatrixError::ShapeMismatch`].
/// Matrices of one shape are expected to hold equally many elements, as
/// well-formed ones do, and elements that can be subtracted.
pub fn sub_matrices<T: Sub<Output = T> + Copy>(matrix1: &Matrix<T>, matrix2: &Matrix<T>) -> (result:
    Result<Matrix<T>, MatrixError>)
    requires
        matrix1.same_shape(matrix2) ==> matrix1.data.len() == matrix2.data.len()
            && can_sub_elementwise(matrix1.data@, matrix2.data@),
    ensures
        matrix1.same_shape(matrix2) ==> result is Ok && result->Ok_0.is_difference_of(matrix1, matrix2)
            && (matrix1.wf() ==> result->Ok_0.wf()),
        !matrix1.same_shape(matrix2) ==> result is Err && result->Err_0
            == MatrixError::ShapeMismatch,
{
    if matrix1.rows != matrix2.rows || matrix1.cols != matrix2.cols {
        return Err(MatrixError::ShapeMismatch);
    }
    let data = difference_of_vecs(&matrix1.data, &matrix2.data);
    Ok(Matrix { rows: matrix1.rows, cols: matrix1.cols, data })
}

/// Multiplies two matrices of the same shape cell by cell into a new matrix.
///
/// This is the Hadamard product, not the row-by-column product of linear algebra.
/// Matrices of different shapes are refused with [`MatrixError::ShapeMismatch`].
/// Matrices of one shape are expected to hold equally many elements, as
/// well-formed ones do, and elements that can be multiplied.
pub fn dot_matrices<T: Mul<Output = T> + Copy>(matrix1: &Matrix<T>, matrix2: &Matrix<T>) -> (result:
    Result<Matrix<T>, MatrixError>)
    requires
        matrix1.same_shape(matrix2) ==> matrix1.data.len() == matrix2.data.len()
            && can_mul_elementwise(matrix1.data@, matrix2.data@),
    ensures
        matrix1.same_shape(matrix2) ==> result is Ok && result->Ok_0.is_product_of(matrix1, matrix2)
            && (matrix1.wf() ==> result->Ok_0.wf()),
        !matrix1.same_shape(matrix2) ==> result is Err && result->Err_0
            == MatrixError::ShapeMismatch,
{
    if matrix1.rows != matrix2.rows || matrix1.cols != matrix2.cols {
        return Err(MatrixError::ShapeMismatch);
    }
    let data = product_of_vecs(&matrix1.data, &matrix2.data);
    Ok(Matrix { rows: matrix1.rows, cols: matrix1.cols, data })
}

impl<T: Add<Output = T> + Copy> Matrix<T> {
    /// Adds `other` to this matrix cell by cell, in place.
    ///
    /// A matrix of another shape is refused with [`MatrixError::ShapeMismatch`],
    /// and this matrix is then left as it was.
    pub fn add_matrix(&mut self, other: &Matrix<T>) -> (result: Result<(), MatrixError>)
        requires
            old(self).same_shape(other) ==> old(self).data.len() == other.data.len()
                && can_add_elementwise(old(self).data@, other.data@),
        ensures
            old(self).same_shape(other) ==> result is Ok && final(self).is_sum_of(old(self), other)
                && (old(self).wf() ==> final(self).wf()),
            !old(self).same_shape(other) ==> result is Err && result->Err_0
                == MatrixError::ShapeMismatch && *final(self) == *old(self),
    {
        if self.rows != other.rows || self.cols != other.cols {
            return Err(MatrixError::ShapeMismatch);
        }
        self.data = sum_of_vecs(&self.data, &other.data);
        Ok(())
    }
}

impl<T: Sub<Output = T> + Copy> Matrix<T> {
    /// Subtracts `other` from this matrix cell by cell, in place.
    ///
    /// A matrix of another shape is refused with [`MatrixError::ShapeMismatch`],
    /// and this matrix is then left as it was.
    pub fn sub_matrix(&mut self, other: &Matrix<T>) -> (result: Result<(), MatrixError>)
        requires
            old(self).same_shape(other) ==> old(self).data.len() == other.data.len()
                && can_sub_elementwise(old(self).data@, other.data@),
        ensures
            old(self).same_shape(other) ==> result is Ok && final(self).is_difference_of(old(self), other)
                && (old(self).wf() ==> final(self).wf()),
            !old(self).same_shape(other) ==> result is Err && result->Err_0
                == MatrixError::ShapeMismatch && *final(self) == *old(self),
    {
        if self.rows != other.rows || self.cols != other.cols {
            return Err(MatrixError::ShapeMismatch);
        }
        self.data = difference_of_vecs(&self.data, &other.data);
        Ok(())
    }
}

} // verus!
