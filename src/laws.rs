use vstd::prelude::*;
use crate::arith::{dot, product, same_shape, scaled};
use crate::echelon::{
    first_nonzero_from, pivot_count, pivot_step, row_echelon, with_pivot, zero_below_diagonal,
};
use crate::element::MatrixElement;
use crate::grid::{Grid, filled, height, rectangular, scalar_grid, width};
use crate::matrix::Matrix;
use vstd::std_specs::cmp::PartialEqSpec;

verus! {

/// A filled grid of positive dimensions has the requested width and height,
/// so the size of a matrix built by `Matrix::build` is `width * height`.
pub proof fn lemma_filled_size<T>(init: T, w: nat, h: nat)
    requires
        w >= 1,
        h >= 1,
    ensures
        rectangular(filled(init, w, h)),
        width(filled(init, w, h)) == w,
        height(filled(init, w, h)) == h,
        width(filled(init, w, h)) * height(filled(init, w, h)) == w * h,
{
}

proof fn lemma_dot_with_scalar<T: MatrixElement>(g: Grid<T>, lambda: T, i: int, j: int, k: nat)
    requires
        rectangular(g),
        0 <= i < g.len(),
        0 <= j < width(g),
        k <= width(g),
    ensures
        dot(g, scalar_grid(lambda, width(g)), i, j, k) == (if j < k {
            T::mul(g[i][j], lambda)
        } else {
            T::zero()
        }),
    decreases k,
{
    let s = scalar_grid(lambda, width(g));
    if k > 0 {
        lemma_dot_with_scalar(g, lambda, i, j, (k - 1) as nat);
        let prev = dot(g, s, i, j, (k - 1) as nat);
        if k - 1 == j {
            T::lemma_add_zero_left(T::mul(g[i][j], lambda));
        } else {
            T::lemma_mul_zero_right(g[i][k - 1]);
            T::lemma_add_zero_right(prev);
        }
    }
}

/// Multiplying a matrix by the scalar matrix `lambda * I` of matching size
/// is the same as multiplying each of its cells by `lambda`.
pub proof fn lemma_scalar_matrix_product<T: MatrixElement>(g: Grid<T>, lambda: T)
    requires
        rectangular(g),
    ensures
        product(g, scalar_grid(lambda, width(g))) == scaled(g, lambda),
{
    let s = scalar_grid(lambda, width(g));
    let p = product(g, s);
    assert forall|i: int, j: int| 0 <= i < g.len() && 0 <= j < width(g) implies #[trigger] p[i][j]
        == scaled(g, lambda)[i][j] by {
        lemma_dot_with_scalar(g, lambda, i, j, width(g));
    }
    assert forall|i: int| 0 <= i < g.len() implies #[trigger] p[i] == scaled(g, lambda)[i] by {
        assert(p[i] =~= scaled(g, lambda)[i]);
    }
    assert(p =~= scaled(g, lambda));
}

/// A pivot step whose column is zero from the pivot row down changes
/// nothing: the column is skipped.
pub proof fn lemma_zero_column_step<T: MatrixElement>(g: Grid<T>, p: int)
    requires
        rectangular(g),
        0 <= p < width(g),
        p < height(g),
        forall|r: int| p <= r < g.len() ==> #[trigger] g[r][p] == T::zero(),
    ensures
        pivot_step(g, p) == g,
{
    assert(first_nonzero_from(g, p, p + 1) is None) by {
        lemma_first_nonzero_none(g, p, p + 1);
    }
    assert(with_pivot(g, p) == g);
}

proof fn lemma_first_nonzero_none<T: MatrixElement>(g: Grid<T>, p: int, r: int)
    requires
        0 <= r,
        forall|i: int| r <= i < g.len() ==> #[trigger] g[i][p] == T::zero(),
    ensures
        first_nonzero_from(g, p, r) is None,
    decreases g.len() - r,
{
    if r < g.len() {
        lemma_first_nonzero_none(g, p, r + 1);
    }
}

/// Row reduction never changes a column that is already zero below its
/// pivot position: those entries are still zero afterwards.
pub proof fn lemma_zero_column_kept<T: MatrixElement>(g: Grid<T>, c: int)
    requires
        rectangular(g),
        0 <= c < pivot_count(g),
        forall|r: int| c < r < g.len() ==> #[trigger] g[r][c] == T::zero(),
    ensures
        forall|r: int| c < r < g.len() ==> #[trigger] row_echelon(g)[r][c] == g[r][c],
{
    crate::echelon::lemma_row_echelon(g);
    let e = row_echelon(g);
    assert forall|r: int| c < r < g.len() implies #[trigger] e[r][c] == g[r][c] by {
        assert(zero_below_diagonal(e, pivot_count(g) as int));
        assert(e[r][c] == T::zero());
    }
}

/// Matrix equality is reflexive and symmetric, and matrices of different
/// shapes are never equal.
pub proof fn lemma_equality<T: MatrixElement>(a: Matrix<T>, b: Matrix<T>)
    ensures
        a.eq_spec(&a),
        a.eq_spec(&b) == b.eq_spec(&a),
        !same_shape(a@, b@) ==> !a.eq_spec(&b),
{
}

} // verus!
