use vstd::prelude::*;
use crate::echelon::row_echelon;
use crate::element::MatrixElement;
use crate::grid::{Grid, height, rectangular, width};
use crate::matrix::Matrix;

verus! {

/// Column visited in row `i` by the wrapped diagonal of a 3 x 3 grid that
/// starts at column `top` of the first row and runs right (`forward`) or left.
pub open spec fn wrapped_col(top: int, forward: bool, i: int) -> int {
    if forward {
        (top + i) % 3
    } else {
        (top - i) % 3
    }
}

/// Product of the first `k` entries along a wrapped diagonal, multiplied
/// from the top row down.
pub open spec fn diagonal_walk<T: MatrixElement>(g: Grid<T>, top: int, forward: bool, k: nat) -> T
    decreases k,
{
    if k <= 1 {
        g[0][top]
    } else {
        T::mul(
            diagonal_walk(g, top, forward, (k - 1) as nat),
            g[k - 1][wrapped_col(top, forward, k - 1)],
        )
    }
}

/// Product of the three entries at columns `a`, `b`, `c` of rows 0, 1, 2.
pub open spec fn triple<T: MatrixElement>(g: Grid<T>, a: int, b: int, c: int) -> T {
    T::mul(T::mul(g[0][a], g[1][b]), g[2][c])
}

/// Rule of Sarrus: starting from zero, add the three products along the
/// wrapped diagonals that run right from columns 0, 1, 2, then subtract the
/// three along those that run left from columns 2, 1, 0.
pub open spec fn sarrus<T: MatrixElement>(g: Grid<T>) -> T {
    let down = T::add(
        T::add(T::add(T::zero(), triple(g, 0, 1, 2)), triple(g, 1, 2, 0)),
        triple(g, 2, 0, 1),
    );
    T::sub(T::sub(T::sub(down, triple(g, 2, 1, 0)), triple(g, 1, 0, 2)), triple(g, 0, 2, 1))
}

/// `ad - bc` of a 2 x 2 grid.
pub open spec fn det_2x2_of<T: MatrixElement>(g: Grid<T>) -> T {
    T::sub(T::mul(g[0][0], g[1][1]), T::mul(g[1][0], g[0][1]))
}

/// Product of the first `k` entries of the main diagonal, multiplied from the
/// top left.
pub open spec fn diagonal_product<T: MatrixElement>(g: Grid<T>, k: nat) -> T
    decreases k,
{
    if k <= 1 {
        g[0][0]
    } else {
        T::mul(diagonal_product(g, (k - 1) as nat), g[k - 1][k - 1])
    }
}

/// The determinant as computed here: `None` unless the grid is square;
/// the sole entry of a 1 x 1 grid; `ad - bc` for 2 x 2; the rule of Sarrus
/// for 3 x 3; and for larger grids the product of the diagonal of the row
/// echelon form. Row exchanges made by the reduction do not flip the sign,
/// so in that last case the value differs from the mathematical
/// determinant in sign whenever an odd number of exchanges occurred.
pub open spec fn determinant<T: MatrixElement>(g: Grid<T>) -> Option<T> {
    if width(g) != height(g) {
        None
    } else if width(g) == 1 {
        Some(g[0][0])
    } else if width(g) == 2 {
        Some(det_2x2_of(g))
    } else if width(g) == 3 {
        Some(sarrus(g))
    } else {
        Some(diagonal_product(row_echelon(g), width(g)))
    }
}

impl<T: MatrixElement> Matrix<T> {
    /// `ad - bc` for a 2 x 2 matrix.
    fn det_2x2(&self) -> (r: T)
        requires
            self.wf(),
            self.spec_width() == 2,
            self.spec_height() == 2,
        ensures
            r == det_2x2_of(self@),
    {
        assert(self.grid@[0]@ == self@[0]);
        assert(self.grid@[1]@ == self@[1]);
        self.grid[0][0].mul_value(self.grid[1][1]).sub_value(
            self.grid[1][0].mul_value(self.grid[0][1]),
        )
    }

    /// Product along the wrapped diagonal of a 3 x 3 matrix that starts at
    /// column `top` of the first row and runs right or left.
    fn diagonal_walk(&self, top: usize, forward: bool) -> (r: T)
        requires
            self.wf(),
            self.spec_width() == 3,
            self.spec_height() == 3,
            top < 3,
        ensures
            r == diagonal_walk(self@, top as int, forward, 3),
    {
        let w = self.width();
        let mut col: usize = top;
        assert(self.grid@[0]@ == self@[0]);
        let mut prod = self.grid[0][top];
        let mut row: usize = 0;
        while row < self.grid.len()
            invariant
                self.wf(),
                w == 3,
                self.spec_width() == 3,
                self@.len() == 3,
                top < 3,
                row <= 3,
                col < 3,
                col == wrapped_col(top as int, forward, row as int),
                prod == diagonal_walk(self@, top as int, forward, if row == 0 {
                    1
                } else {
                    row as nat
                }),
            decreases 3 - row,
        {
            if row != 0 {
                assert(self.grid@[row as int]@ == self@[row as int]);
                assert(self@[row as int].len() == 3);
                prod = prod.mul_value(self.grid[row][col]);
            }
            if forward {
                col = (col + 1) % w;
            } else {
                if col == 0 {
                    col = w - 1;
                } else {
                    col -= 1;
                }
            }
            row += 1;
        }
        prod
    }

    /// Rule of Sarrus for a 3 x 3 matrix, with one accumulator: the three
    /// diagonals running right are added, then the three running left are
    /// subtracted.
    fn det_3x3(&self) -> (r: T)
        requires
            self.wf(),
            self.spec_width() == 3,
            self.spec_height() == 3,
        ensures
            r == sarrus(self@),
    {
        let mut res = T::zero_value();
        res = res.add_value(self.diagonal_walk(0, true));
        res = res.add_value(self.diagonal_walk(1, true));
        res = res.add_value(self.diagonal_walk(2, true));
        res = res.sub_value(self.diagonal_walk(2, false));
        res = res.sub_value(self.diagonal_walk(1, false));
        res = res.sub_value(self.diagonal_walk(0, false));
        proof {
            reveal_with_fuel(diagonal_walk, 3);
        }
        res
    }

    /// The determinant: `None` unless the matrix is square; the sole entry
    /// of a 1 x 1 matrix, `ad - bc` of a 2 x 2 one, the rule of Sarrus for
    /// 3 x 3, and otherwise the product of the diagonal of the row echelon
    /// form of a copy (row exchanges are not reflected in the sign).
    pub fn det(&self) -> (r: Option<T>)
        ensures
            r == determinant(self@),
            self.spec_width() != self.spec_height() ==> r is None,
            self.spec_width() == 1 && self.spec_height() == 1 ==> r == Some(self@[0][0]),
    {
        proof {
            use_type_invariant(self);
        }
        let w = self.width();
        if w != self.height() {
            return None;
        }
        assert(self.grid@[0]@ == self@[0]);
        if w == 1 {
            Some(self.grid[0][0])
        } else if w == 2 {
            Some(self.det_2x2())
        } else if w == 3 {
            Some(self.det_3x3())
        } else {
            let mut m = self.clone();
            m.to_row_echelon();
            let ghost e = m@;
            assert(m.grid@[0]@ == e[0]);
            let mut d = m.grid[0][0];
            let mut i: usize = 1;
            while i < m.grid.len()
                invariant
                    m@ == e,
                    rectangular(e),
                    e.len() == w,
                    width(e) == w,
                    1 <= i <= w,
                    d == diagonal_product(e, i as nat),
                decreases w - i,
            {
                assert(m.grid@[i as int]@ == e[i as int]);
                d = d.mul_value(m.grid[i][i]);
                i += 1;
            }
            Some(d)
        }
    }
}

} // verus!
