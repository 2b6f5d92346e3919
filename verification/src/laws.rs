//! What holds of the matrix operations for all matrices.
//!
//! The laws that compare results speak of element types whose operators obey
//! their specification, and name what they need of the elements' arithmetic:
//! that addition commutes, that a value is an additive identity, and so on.
//! The closing lemmas show that the primitive integer types meet these needs.

use vstd::prelude::*;
use vstd::std_specs::ops::AddSpec;
use vstd::std_specs::ops::MulSpec;
use vstd::std_specs::ops::NegSpec;
use vstd::std_specs::ops::SubSpec;
use core::ops::Add;
use core::ops::Mul;
use core::ops::Neg;
use core::ops::Sub;
use crate::elementwise::can_add_elementwise;
use crate::elementwise::can_mul_elementwise;
use crate::elementwise::can_sub_elementwise;
use crate::elementwise::elementwise_difference;
use crate::elementwise::elementwise_product;
use crate::elementwise::elementwise_sum;
use crate::matrix::Matrix;

verus! {

/// Addition on `T` gives the same result whichever operand comes first.
pub open spec fn addition_commutes<T: Add<Output = T>>() -> bool {
    forall|x: T, y: T| #[trigger] x.add_spec(y) == y.add_spec(x)
}

/// Multiplication on `T` gives the same result whichever operand comes first.
pub open spec fn multiplication_commutes<T: Mul<Output = T>>() -> bool {
    forall|x: T, y: T| #[trigger] x.mul_spec(y) == y.mul_spec(x)
}

/// Wherever both `x - y` and `y - x` can be computed, one is the negation of the other.
pub open spec fn subtraction_anticommutes<T: Sub<Output = T> + Neg<Output = T>>() -> bool {
    forall|x: T, y: T|
        x.sub_req(y) && y.sub_req(x) ==> #[trigger] x.sub_spec(y) == y.sub_spec(x).neg_spec()
}

/// Adding `zero` to any element leaves that element unchanged.
pub open spec fn is_additive_identity<T: Add<Output = T>>(zero: T) -> bool {
    forall|x: T| #[trigger] x.add_spec(zero) == x
}

/// Multiplying any element by `one` leaves that element unchanged.
pub open spec fn is_multiplicative_identity<T: Mul<Output = T>>(one: T) -> bool {
    forall|x: T| #[trigger] x.mul_spec(one) == x
}

/// Every element of `s` equals `value`.
pub open spec fn filled_with<T>(s: Seq<T>, value: T) -> bool {
    forall|i: int| 0 <= i < s.len() ==> s[i] == value
}

/// The sequence whose `i`-th element is `-s[i]`.
pub open spec fn elementwise_negation<T: Neg<Output = T>>(s: Seq<T>) -> Seq<T> {
    Seq::new(s.len(), |i: int| s[i].neg_spec())
}

/// In a matrix with at least one cell, `(1, 1)` is the first stored element and
/// `(rows, cols)` the last one; row 0 and row `rows + 1` lie outside the matrix.
pub proof fn lemma_corner_entries<T>(m: Matrix<T>, col: int)
    requires
        m.wf(),
        m.rows >= 1,
        m.cols >= 1,
    ensures
        m.in_range(1, 1),
        m.entry(1, 1) == m.data@.first(),
        m.in_range(m.rows as int, m.cols as int),
        m.entry(m.rows as int, m.cols as int) == m.data@.last(),
        !m.in_range(0, col),
        !m.in_range(m.rows + 1, col),
{
    let rows = m.rows as int;
    let cols = m.cols as int;
    assert(cols * (1 - 1) == 0) by (nonlinear_arith);
    assert(cols * (rows - 1) + (cols - 1) == rows * cols - 1) by (nonlinear_arith);
}

/// Each entry of a sum is what `+` gives for the two operands' entries in the same
/// cell, and where the operands can be added so can those two entries.
pub proof fn lemma_sum_entry<T: Add<Output = T>>(
    a: Matrix<T>,
    b: Matrix<T>,
    sum: Matrix<T>,
    row: int,
    col: int,
)
    requires
        a.wf(),
        b.wf(),
        a.same_shape(&b),
        sum.is_sum_of(&a, &b),
        a.in_range(row, col),
    ensures
        b.in_range(row, col),
        sum.in_range(row, col),
        call_ensures(
            <T as Add>::add,
            (a.entry(row, col), b.entry(row, col)),
            sum.entry(row, col),
        ),
        T::obeys_add_spec() ==> sum.entry(row, col) == a.entry(row, col).add_spec(
            b.entry(row, col),
        ),
        can_add_elementwise(a.data@, b.data@) ==> a.entry(row, col).add_req(b.entry(row, col)),
{
    a.lemma_offset_in_bounds(row, col);
}

/// Each entry of a difference is what `-` gives for the two operands' entries in the
/// same cell, and where the operands can be subtracted so can those two entries.
pub proof fn lemma_difference_entry<T: Sub<Output = T>>(
    a: Matrix<T>,
    b: Matrix<T>,
    difference: Matrix<T>,
    row: int,
    col: int,
)
    requires
        a.wf(),
        b.wf(),
        a.same_shape(&b),
        difference.is_difference_of(&a, &b),
        a.in_range(row, col),
    ensures
        b.in_range(row, col),
        difference.in_range(row, col),
        call_ensures(
            <T as Sub>::sub,
            (a.entry(row, col), b.entry(row, col)),
            difference.entry(row, col),
        ),
        T::obeys_sub_spec() ==> difference.entry(row, col) == a.entry(row, col).sub_spec(
            b.entry(row, col),
        ),
        can_sub_elementwise(a.data@, b.data@) ==> a.entry(row, col).sub_req(b.entry(row, col)),
{
    a.lemma_offset_in_bounds(row, col);
}

/// Each entry of an elementwise product is what `*` gives for the two operands' entries
/// in the same cell, and where the operands can be multiplied so can those two entries.
pub proof fn lemma_product_entry<T: Mul<Output = T>>(
    a: Matrix<T>,
    b: Matrix<T>,
    product: Matrix<T>,
    row: int,
    col: int,
)
    requires
        a.wf(),
        b.wf(),
        a.same_shape(&b),
        product.is_product_of(&a, &b),
        a.in_range(row, col),
    ensures
        b.in_range(row, col),
        product.in_range(row, col),
        call_ensures(
            <T as Mul>::mul,
            (a.entry(row, col), b.entry(row, col)),
            product.entry(row, col),
        ),
        T::obeys_mul_spec() ==> product.entry(row, col) == a.entry(row, col).mul_spec(
            b.entry(row, col),
        ),
        can_mul_elementwise(a.data@, b.data@) ==> a.entry(row, col).mul_req(b.entry(row, col)),
{
    a.lemma_offset_in_bounds(row, col);
}

/// Where the elements' addition commutes, `a + b` and `b + a` hold the same data.
pub proof fn lemma_sum_commutes<T: Add<Output = T>>(
    a: Matrix<T>,
    b: Matrix<T>,
    ab: Matrix<T>,
    ba: Matrix<T>,
)
    requires
        a.wf(),
        b.wf(),
        a.same_shape(&b),
        ab.is_sum_of(&a, &b),
        ba.is_sum_of(&b, &a),
        T::obeys_add_spec(),
        addition_commutes::<T>(),
    ensures
        elementwise_sum(a.data@, b.data@) == elementwise_sum(b.data@, a.data@),
        ab.data@ == ba.data@,
        ab.same_shape(&ba),
{
    assert(elementwise_sum(a.data@, b.data@) =~= elementwise_sum(b.data@, a.data@));
}

/// Where the elements' multiplication commutes, the elementwise products `a * b`
/// and `b * a` hold the same data.
pub proof fn lemma_product_commutes<T: Mul<Output = T>>(
    a: Matrix<T>,
    b: Matrix<T>,
    ab: Matrix<T>,
    ba: Matrix<T>,
)
    requires
        a.wf(),
        b.wf(),
        a.same_shape(&b),
        ab.is_product_of(&a, &b),
        ba.is_product_of(&b, &a),
        T::obeys_mul_spec(),
        multiplication_commutes::<T>(),
    ensures
        elementwise_product(a.data@, b.data@) == elementwise_product(b.data@, a.data@),
        ab.data@ == ba.data@,
        ab.same_shape(&ba),
{
    assert(elementwise_product(a.data@, b.data@) =~= elementwise_product(b.data@, a.data@));
}

/// Where both `a - b` and `b - a` can be computed and the elements' subtraction
/// anticommutes, the data of `a - b` is the elementwise negation of the data of `b - a`.
pub proof fn lemma_difference_anticommutes<T: Sub<Output = T> + Neg<Output = T>>(
    a: Matrix<T>,
    b: Matrix<T>,
    ab: Matrix<T>,
    ba: Matrix<T>,
)
    requires
        a.wf(),
        b.wf(),
        a.same_shape(&b),
        can_sub_elementwise(a.data@, b.data@),
        can_sub_elementwise(b.data@, a.data@),
        ab.is_difference_of(&a, &b),
        ba.is_difference_of(&b, &a),
        T::obeys_sub_spec(),
        subtraction_anticommutes::<T>(),
    ensures
        elementwise_difference(a.data@, b.data@) == elementwise_negation(
            elementwise_difference(b.data@, a.data@),
        ),
        ab.data@ == elementwise_negation(ba.data@),
        ab.same_shape(&ba),
{
    let forward = elementwise_difference(a.data@, b.data@);
    let backward = elementwise_difference(b.data@, a.data@);
    assert forall|i: int| 0 <= i < forward.len() implies forward[i] == elementwise_negation(
        backward,
    )[i] by {
        assert(a.data@[i].sub_req(b.data@[i]));
        assert(b.data@[i].sub_req(a.data@[i]));
    }
    assert(forward =~= elementwise_negation(backward));
}

/// Adding a matrix filled with an additive identity leaves the data unchanged.
pub proof fn lemma_sum_with_zeros<T: Add<Output = T>>(
    a: Matrix<T>,
    zeros: Matrix<T>,
    zero: T,
    sum: Matrix<T>,
)
    requires
        a.wf(),
        zeros.wf(),
        a.same_shape(&zeros),
        filled_with(zeros.data@, zero),
        is_additive_identity(zero),
        sum.is_sum_of(&a, &zeros),
        T::obeys_add_spec(),
    ensures
        elementwise_sum(a.data@, zeros.data@) == a.data@,
        sum.data@ == a.data@,
        sum.same_shape(&a),
{
    assert(elementwise_sum(a.data@, zeros.data@) =~= a.data@);
}

/// Multiplying elementwise by a matrix filled with a multiplicative identity leaves
/// the data unchanged.
pub proof fn lemma_product_with_ones<T: Mul<Output = T>>(
    a: Matrix<T>,
    ones: Matrix<T>,
    one: T,
    product: Matrix<T>,
)
    requires
        a.wf(),
        ones.wf(),
        a.same_shape(&ones),
        filled_with(ones.data@, one),
        is_multiplicative_identity(one),
        product.is_product_of(&a, &ones),
        T::obeys_mul_spec(),
    ensures
        elementwise_product(a.data@, ones.data@) == a.data@,
        product.data@ == a.data@,
        product.same_shape(&a),
{
    assert(elementwise_product(a.data@, ones.data@) =~= a.data@);
}

/// Adding in place leaves the data and the shape that adding into a new matrix returns.
pub proof fn lemma_in_place_sum_matches<T: Add<Output = T>>(
    a: Matrix<T>,
    b: Matrix<T>,
    in_place: Matrix<T>,
    fresh: Matrix<T>,
)
    requires
        in_place.is_sum_of(&a, &b),
        fresh.is_sum_of(&a, &b),
        T::obeys_add_spec(),
    ensures
        in_place.data@ == fresh.data@,
        in_place.same_shape(&fresh),
{
}

/// Subtracting in place leaves the data and the shape that subtracting into a new
/// matrix returns.
pub proof fn lemma_in_place_difference_matches<T: Sub<Output = T>>(
    a: Matrix<T>,
    b: Matrix<T>,
    in_place: Matrix<T>,
    fresh: Matrix<T>,
)
    requires
        in_place.is_difference_of(&a, &b),
        fresh.is_difference_of(&a, &b),
        T::obeys_sub_spec(),
    ensures
        in_place.data@ == fresh.data@,
        in_place.same_shape(&fresh),
{
}

/// Addition commutes on every primitive integer type.
pub proof fn lemma_integer_addition_commutes()
    ensures
        addition_commutes::<u8>(),
        addition_commutes::<u16>(),
        addition_commutes::<u32>(),
        addition_commutes::<u64>(),
        addition_commutes::<u128>(),
        addition_commutes::<usize>(),
        addition_commutes::<i8>(),
        addition_commutes::<i16>(),
        addition_commutes::<i32>(),
        addition_commutes::<i64>(),
        addition_commutes::<i128>(),
        addition_commutes::<isize>(),
{
}

/// Multiplication commutes on every primitive integer type.
pub proof fn lemma_integer_multiplication_commutes()
    ensures
        multiplication_commutes::<u8>(),
        multiplication_commutes::<u16>(),
        multiplication_commutes::<u32>(),
        multiplication_commutes::<u64>(),
        multiplication_commutes::<u128>(),
        multiplication_commutes::<usize>(),
        multiplication_commutes::<i8>(),
        multiplication_commutes::<i16>(),
        multiplication_commutes::<i32>(),
        multiplication_commutes::<i64>(),
        multiplication_commutes::<i128>(),
        multiplication_commutes::<isize>(),
{
}

/// Subtraction anticommutes on every signed primitive integer type.
pub proof fn lemma_integer_subtraction_anticommutes()
    ensures
        subtraction_anticommutes::<i8>(),
        subtraction_anticommutes::<i16>(),
        subtraction_anticommutes::<i32>(),
        subtraction_anticommutes::<i64>(),
        subtraction_anticommutes::<i128>(),
        subtraction_anticommutes::<isize>(),
{
}

/// On every primitive integer type, 0 is an additive identity.
pub proof fn lemma_integer_zero_is_additive_identity()
    ensures
        is_additive_identity(0u8),
        is_additive_identity(0u16),
        is_additive_identity(0u32),
        is_additive_identity(0u64),
        is_additive_identity(0u128),
        is_additive_identity(0usize),
        is_additive_identity(0i8),
        is_additive_identity(0i16),
        is_additive_identity(0i32),
        is_additive_identity(0i64),
        is_additive_identity(0i128),
        is_additive_identity(0isize),
{
}

/// On every primitive integer type, 1 is a multiplicative identity.
pub proof fn lemma_integer_one_is_multiplicative_identity()
    ensures
        is_multiplicative_identity(1u8),
        is_multiplicative_identity(1u16),
        is_multiplicative_identity(1u32),
        is_multiplicative_identity(1u64),
        is_multiplicative_identity(1u128),
        is_multiplicative_identity(1usize),
        is_multiplicative_identity(1i8),
        is_multiplicative_identity(1i16),
        is_multiplicative_identity(1i32),
        is_multiplicative_identity(1i64),
        is_multiplicative_identity(1i128),
        is_multiplicative_identity(1isize),
{
}

} // verus!
