//! The operators `+`, `-`, `*`, `+=` and `-=` on matrices.
//!
//! An operator states that its operands agree in shape: this is its
//! precondition, and in a program that was not verified a disagreement stops
//! it with a panic. Where shapes may differ, `add_matrices`, `sub_matrices`,
//! `dot_matrices`, `add_matrix` and `sub_matrix` report the mismatch instead.

use vstd::prelude::*;
use vstd::std_specs::ops::AddSpecImpl;
use vstd::std_specs::ops::MulSpecImpl;
use vstd::std_specs::ops::SubSpecImpl;
use core::ops::Add;
use core::ops::AddAssign;
use core::ops::Mul;
use core::ops::Sub;
use core::ops::SubAssign;
use crate::elementwise::add_matrices;
use crate::elementwise::can_add_elementwise;
use crate::elementwise::can_mul_elementwise;
use crate::elementwise::can_sub_elementwise;
use crate::elementwise::dot_matrices;
use crate::elementwise::sub_matrices;
use crate::matrix::Matrix;

verus! {

impl<T: Copy + Default + Add<Output = T>> AddSpecImpl for Matrix<T> {
    /// Two vectors with the same contents need not be the same value, so `+`
    /// promises a matrix that `is_sum_of` its operands rather than one fixed matrix.
    open spec fn obeys_add_spec() -> bool {
        false
    }

    /// `+` is for operands of one shape that hold equally many elements, as
    /// well-formed ones do, and elements that can be added.
    open spec fn add_req(self, rhs: Matrix<T>) -> bool {
        &&& self.same_shape(&rhs)
        &&& self.data.len() == rhs.data.len()
        &&& can_add_elementwise(self.data@, rhs.data@)
    }

    open spec fn add_spec(self, rhs: Matrix<T>) -> Matrix<T> {
        choose|sum: Matrix<T>| sum.is_sum_of(&self, &rhs)
    }
}

impl<T: Copy + Default + Add<Output = T>> Add for Matrix<T> {
    type Output = Matrix<T>;

    /// Adds two matrices of the same shape cell by cell.
    fn add(self, other: Matrix<T>) -> (result: Matrix<T>)
        ensures
            result.is_sum_of(&self, &other),
            self.wf() ==> result.wf(),
    {
        add_matrices(&self, &other).unwrap()
    }
}

impl<T: Copy + Default + Sub<Output = T>> SubSpecImpl for Matrix<T> {
    /// Two vectors with the same contents need not be the same value, so `-`
    /// promises a matrix that `is_difference_of` its operands rather than one fixed matrix.
    open spec fn obeys_sub_spec() -> bool {
        false
    }

    /// `-` is for operands of one shape that hold equally many elements, as
    /// well-formed ones do, and elements that can be subtracted.
    open spec fn sub_req(self, rhs: Matrix<T>) -> bool {
        &&& self.same_shape(&rhs)
        &&& self.data.len() == rhs.data.len()
        &&& can_sub_elementwise(self.data@, rhs.data@)
    }

    open spec fn sub_spec(self, rhs: Matrix<T>) -> Matrix<T> {
        choose|difference: Matrix<T>| difference.is_difference_of(&self, &rhs)
    }
}

impl<T: Copy + Default + Sub<Output = T>> Sub for Matrix<T> {
    type Output = Matrix<T>;

    /// Subtracts `other` from this matrix cell by cell.
    fn sub(self, other: Matrix<T>) -> (result: Matrix<T>)
        ensures
            result.is_difference_of(&self, &other),
            self.wf() ==> result.wf(),
    {
        sub_matrices(&self, &other).unwrap()
    }
}

impl<T: Copy + Default + Mul<Output = T>> MulSpecImpl for Matrix<T> {
    /// Two vectors with the same contents need not be the same value, so `*`
    /// promises a matrix that `is_product_of` its operands rather than one fixed matrix.
    open spec fn obeys_mul_spec() -> bool {
        false
    }

    /// `*` is for operands of one shape that hold equally many elements, as
    /// well-formed ones do, and elements that can be multiplied.
    open spec fn mul_req(self, rhs: Matrix<T>) -> bool {
        &&& self.same_shape(&rhs)
        &&& self.data.len() == rhs.data.len()
        &&& can_mul_elementwise(self.data@, rhs.data@)
    }

    open spec fn mul_spec(self, rhs: Matrix<T>) -> Matrix<T> {
        choose|product: Matrix<T>| product.is_product_of(&self, &rhs)
    }
}

impl<T: Copy + Default + Mul<Output = T>> Mul for Matrix<T> {
    type Output = Matrix<T>;

    /// Multiplies two matrices of the same shape cell by cell (the Hadamard product).
    fn mul(self, other: Matrix<T>) -> (result: Matrix<T>)
        ensures
            result.is_product_of(&self, &other),
            self.wf() ==> result.wf(),
    {
        dot_matrices(&self, &other).unwrap()
    }
}

impl<T: Copy + Default + Add<Output = T>> AddAssign for Matrix<T> {
    /// Adds `other` to this matrix cell by cell, in place.
    fn add_assign(&mut self, other: Matrix<T>)
        requires
            old(self).same_shape(&other),
            old(self).data.len() == other.data.len(),
            can_add_elementwise(old(self).data@, other.data@),
        ensures
            final(self).is_sum_of(old(self), &other),
            old(self).wf() ==> final(self).wf(),
    {
        self.add_matrix(&other).unwrap();
    }
}

impl<T: Copy + Default + Sub<Output = T>> SubAssign for Matrix<T> {
    /// Subtracts `other` from this matrix cell by cell, in place.
    fn sub_assign(&mut self, other: Matrix<T>)
        requires
            old(self).same_shape(&other),
            old(self).data.len() == other.data.len(),
            can_sub_elementwise(old(self).data@, other.data@),
        ensures
            final(self).is_difference_of(old(self), &other),
            old(self).wf() ==> final(self).wf(),
    {
        self.sub_matrix(&other).unwrap();
    }
}

} // verus!
