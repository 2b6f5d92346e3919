//! Dense matrices with shape-checked elementwise arithmetic.
//!
//! A [`Matrix`] stores its entries row by row and is addressed with row and
//! column numbers that start at 1. Two matrices of the same shape can be added,
//! subtracted, or multiplied entry by entry, either through fallible functions
//! that report a [`MatrixError`] or through the arithmetic operators.
//!
//! The module [`laws`] states and proves what these operations have in common
//! with ordinary arithmetic: results are formed cell by cell, sums and products
//! do not depend on the order of the operands, and zeros and ones are neutral.

pub mod elementwise;
pub mod error;
pub mod laws;
pub mod matrix;
pub mod operators;

pub use crate::elementwise::add_matrices;
pub use crate::elementwise::dot_matrices;
pub use crate::elementwise::sub_matrices;
pub use crate::error::MatrixError;
pub use crate::matrix::Matrix;
