use vstd::prelude::*;
use crate::element::MatrixElement;
use crate::grid::{Grid, height, rectangular, rows_view, swap_rows, swap_rows_in, width};
use crate::matrix::Matrix;

verus! {

/// The number of pivot positions visited by the reduction:
/// `min(width, height) - 1`.
pub open spec fn pivot_count<T>(g: Grid<T>) -> nat {
    if width(g) <= height(g) {
        (width(g) - 1) as nat
    } else {
        (height(g) - 1) as nat
    }
}

/// The first row at index `r` or later whose entry in column `p` is nonzero.
pub open spec fn first_nonzero_from<T: MatrixElement>(g: Grid<T>, p: int, r: int) -> Option<int>
    decreases g.len() - r,
{
    if r >= g.len() || r < 0 {
        None
    } else if g[r][p] != T::zero() {
        Some(r)
    } else {
        first_nonzero_from(g, p, r + 1)
    }
}

/// Step 1 of a pivot step: if the pivot at (`p`, `p`) is zero, the first
/// lower row with a nonzero entry in column `p` is swapped into row `p`.
pub open spec fn with_pivot<T: MatrixElement>(g: Grid<T>, p: int) -> Grid<T> {
    if g[p][p] != T::zero() {
        g
    } else {
        match first_nonzero_from(g, p, p + 1) {
            Some(r) => swap_rows(g, p, r),
            None => g,
        }
    }
}

/// Row `r` after subtracting `g[r][p] / g[p][p]` times row `p` from it, with
/// the entry in column `p` set to zero outright. Rows already zero in
/// column `p` are left alone.
pub open spec fn eliminated_row<T: MatrixElement>(g: Grid<T>, p: int, r: int) -> Seq<T> {
    if g[r][p] == T::zero() {
        g[r]
    } else {
        let fac = T::div(g[r][p], g[p][p]);
        Seq::new(
            g[r].len(),
            |c: int|
                if c < p {
                    g[r][c]
                } else if c == p {
                    T::zero()
                } else {
                    T::sub(g[r][c], T::mul(fac, g[p][c]))
                },
        )
    }
}

/// Every row below `p` with its entry in column `p` eliminated.
pub open spec fn eliminate<T: MatrixElement>(g: Grid<T>, p: int) -> Grid<T> {
    Seq::new(g.len(), |r: int| if r <= p { g[r] } else { eliminated_row(g, p, r) })
}

/// One pivot step at position `p`: find a nonzero pivot, then clear the
/// column below it. A column that is zero from row `p` down is skipped.
pub open spec fn pivot_step<T: MatrixElement>(g: Grid<T>, p: int) -> Grid<T> {
    let h = with_pivot(g, p);
    if h[p][p] == T::zero() {
        g
    } else {
        eliminate(h, p)
    }
}

/// The grid after the pivot steps at positions `0 .. k`.
pub open spec fn reduce_upto<T: MatrixElement>(g: Grid<T>, k: nat) -> Grid<T>
    decreases k,
{
    if k == 0 {
        g
    } else {
        pivot_step(reduce_upto(g, (k - 1) as nat), k - 1)
    }
}

/// Row echelon form by Gaussian elimination without normalising pivots.
pub open spec fn row_echelon<T: MatrixElement>(g: Grid<T>) -> Grid<T> {
    reduce_upto(g, pivot_count(g))
}

/// In the columns before `k`, every entry below the diagonal is zero.
pub open spec fn zero_below_diagonal<T: MatrixElement>(g: Grid<T>, k: int) -> bool {
    forall|r: int, c: int| 0 <= c < k && c < r < g.len() ==> #[trigger] g[r][c] == T::zero()
}

proof fn lemma_first_nonzero_from<T: MatrixElement>(g: Grid<T>, p: int, r: int)
    requires
        0 <= r,
    ensures
        match first_nonzero_from(g, p, r) {
            Some(k) => r <= k < g.len() && g[k][p] != T::zero() && forall|i: int|
                r <= i < k ==> #[trigger] g[i][p] == T::zero(),
            None => forall|i: int| r <= i < g.len() ==> #[trigger] g[i][p] == T::zero(),
        },
    decreases g.len() - r,
{
    if r < g.len() && g[r][p] == T::zero() {
        lemma_first_nonzero_from(g, p, r + 1);
    }
}

/// A pivot step keeps the grid rectangular and its dimensions.
proof fn lemma_pivot_step_shape<T: MatrixElement>(g: Grid<T>, p: int)
    requires
        rectangular(g),
        0 <= p < width(g),
        p < height(g),
    ensures
        rectangular(pivot_step(g, p)),
        pivot_step(g, p).len() == g.len(),
        width(pivot_step(g, p)) == width(g),
{
    lemma_first_nonzero_from(g, p, p + 1);
    let h = with_pivot(g, p);
    assert(rectangular(h));
    if h[p][p] != T::zero() {
        let e = eliminate(h, p);
        assert(forall|i: int| 0 <= i < e.len() ==> (#[trigger] e[i]).len() == h[i].len());
    }
}

/// A pivot step keeps the columns before `p` clear below the diagonal and
/// clears column `p` below the diagonal.
proof fn lemma_pivot_step_clears<T: MatrixElement>(g: Grid<T>, p: int)
    requires
        rectangular(g),
        0 <= p < width(g),
        p < height(g),
        zero_below_diagonal(g, p),
    ensures
        zero_below_diagonal(pivot_step(g, p), p + 1),
{
    lemma_first_nonzero_from(g, p, p + 1);
    let h = with_pivot(g, p);
    assert(zero_below_diagonal(h, p));
    let s = pivot_step(g, p);
    assert forall|r: int, c: int| 0 <= c < p + 1 && c < r < s.len() implies #[trigger] s[r][c]
        == T::zero() by {
        if h[p][p] != T::zero() {
            if c < p {
                assert(h[r][c] == T::zero());
            }
        }
    }
}

/// The reduction so far keeps the shape and clears the finished columns.
proof fn lemma_reduce_upto<T: MatrixElement>(g: Grid<T>, k: nat)
    requires
        rectangular(g),
        k <= pivot_count(g),
    ensures
        rectangular(reduce_upto(g, k)),
        reduce_upto(g, k).len() == g.len(),
        width(reduce_upto(g, k)) == width(g),
        zero_below_diagonal(reduce_upto(g, k), k as int),
    decreases k,
{
    if k > 0 {
        let prev = reduce_upto(g, (k - 1) as nat);
        lemma_reduce_upto(g, (k - 1) as nat);
        lemma_pivot_step_shape(prev, k - 1);
        lemma_pivot_step_clears(prev, k - 1);
    }
}

/// The first row below `p` whose entry in column `p` is nonzero.
fn find_pivot_row<T: MatrixElement>(grid: &Vec<Vec<T>>, p: usize) -> (r: Option<usize>)
    requires
        rectangular(rows_view(grid@)),
        p < width(rows_view(grid@)),
        p < grid@.len(),
    ensures
        r matches Some(k) ==> first_nonzero_from(rows_view(grid@), p as int, p + 1) == Some(
            k as int,
        ),
        r is None ==> first_nonzero_from(rows_view(grid@), p as int, p + 1) is None,
{
    let ghost g = rows_view(grid@);
    let zero = T::zero_value();
    let h = grid.len();
    let mut row: usize = p + 1;
    while row < h
        invariant
            g == rows_view(grid@),
            rectangular(g),
            p < width(g),
            p + 1 <= row <= g.len(),
            h == g.len(),
            zero == T::zero(),
            first_nonzero_from(g, p as int, p + 1) == first_nonzero_from(g, p as int, row as int),
        decreases g.len() - row,
    {
        assert(grid@[row as int]@ == g[row as int]);
        if !grid[row][p].equals(&zero) {
            assert(first_nonzero_from(g, p as int, row as int) == Some(row as int));
            return Some(row);
        }
        row += 1;
    }
    None
}

/// Clears column `p` below a nonzero pivot at (`p`, `p`).
fn eliminate_below<T: MatrixElement>(grid: &mut Vec<Vec<T>>, p: usize)
    requires
        rectangular(rows_view(old(grid)@)),
        p < width(rows_view(old(grid)@)),
        p < old(grid)@.len(),
        rows_view(old(grid)@)[p as int][p as int] != T::zero(),
    ensures
        rows_view(final(grid)@) == eliminate(rows_view(old(grid)@), p as int),
{
    let ghost g = rows_view(grid@);
    let zero = T::zero_value();
    assert(grid@[0]@ == g[0]);
    let w = grid[0].len();
    let mut row: usize = p + 1;
    assert(grid@[p as int]@ == g[p as int]);
    let pivot = grid[p][p];
    while row < grid.len()
        invariant
            grid@.len() == g.len(),
            w == width(g),
            rectangular(g),
            p < w,
            p < g.len(),
            p + 1 <= row <= g.len(),
            pivot == g[p as int][p as int],
            pivot != T::zero(),
            zero == T::zero(),
            forall|r: int| 0 <= r < g.len() ==> #[trigger] rows_view(grid@)[r] == (if r <= p || r >= row {
                g[r]
            } else {
                eliminated_row(g, p as int, r)
            }),
        decreases g.len() - row,
    {
        let ghost before = grid@;
        assert(grid@[row as int]@ == rows_view(grid@)[row as int]);
        assert(grid@[p as int]@ == rows_view(grid@)[p as int]);
        let mut line: Vec<T> = Vec::new();
        std::mem::swap(&mut line, &mut grid[row]);
        assert(line@ == g[row as int]);
        if !line[p].equals(&zero) {
            let fac = line[p].div_value(pivot);
            line.set(p, zero);
            let mut col: usize = p + 1;
            while col < w
                invariant
                    grid@.len() == g.len(),
                    p < g.len(),
                    grid@[p as int]@ == g[p as int],
                    g[p as int].len() == w,
                    p < w,
                    p + 1 <= col <= w,
                    line@.len() == w,
                    fac == T::div(g[row as int][p as int], g[p as int][p as int]),
                    forall|c: int| 0 <= c < w ==> #[trigger] line@[c] == (if c < p || c >= col {
                        g[row as int][c]
                    } else if c == p {
                        T::zero()
                    } else {
                        T::sub(g[row as int][c], T::mul(fac, g[p as int][c]))
                    }),
                    line@[p as int] == T::zero(),
                decreases w - col,
            {
                let subtract = fac.mul_value(grid[p][col]);
                let v = line[col].sub_value(subtract);
                line.set(col, v);
                col += 1;
            }
            assert(line@ =~= eliminated_row(g, p as int, row as int));
        } else {
            assert(line@ =~= eliminated_row(g, p as int, row as int));
        }
        std::mem::swap(&mut line, &mut grid[row]);
        proof {
            assert forall|r: int| 0 <= r < g.len() implies #[trigger] rows_view(grid@)[r] == (if r
                <= p || r >= row + 1 {
                g[r]
            } else {
                eliminated_row(g, p as int, r)
            }) by {
                assert(rows_view(grid@)[r] == grid@[r]@);
                assert(rows_view(before)[r] == before[r]@);
                if r != row {
                    assert(grid@[r] == before[r]);
                }
            }
        }
        row += 1;
    }
    assert(rows_view(grid@) =~= eliminate(g, p as int));
}

/// Runs every pivot step on the rows in place.
fn reduce_rows<T: MatrixElement>(grid: &mut Vec<Vec<T>>)
    requires
        rectangular(rows_view(old(grid)@)),
    ensures
        rows_view(final(grid)@) == row_echelon(rows_view(old(grid)@)),
{
    let ghost g = rows_view(grid@);
    let zero = T::zero_value();
    assert(grid@[0]@ == g[0]);
    let w = grid[0].len();
    let h = grid.len();
    let count: usize = if w <= h {
        w - 1
    } else {
        h - 1
    };
    let mut p: usize = 0;
    while p < count
        invariant
            rectangular(g),
            count == pivot_count(g),
            grid@.len() == h,
            h == g.len(),
            w == width(g),
            p <= count,
            zero == T::zero(),
            rows_view(grid@) == reduce_upto(g, p as nat),
        decreases count - p,
    {
        let ghost cur = rows_view(grid@);
        proof {
            lemma_reduce_upto(g, p as nat);
            lemma_first_nonzero_from(cur, p as int, p + 1);
        }
        assert(grid@[p as int]@ == cur[p as int]);
        let mut pivot = grid[p][p];
        if pivot.equals(&zero) {
            match find_pivot_row(grid, p) {
                Some(r) => {
                    swap_rows_in(grid, p, r);
                    assert(grid@[p as int]@ == rows_view(grid@)[p as int]);
                    pivot = grid[p][p];
                },
                None => {},
            }
        }
        assert(rows_view(grid@) == with_pivot(cur, p as int));
        if !pivot.equals(&zero) {
            proof {
                lemma_pivot_step_shape(cur, p as int);
                assert(rectangular(with_pivot(cur, p as int)));
            }
            eliminate_below(grid, p);
        }
        p += 1;
    }
}

/// The full reduction keeps the shape and clears every pivot column below
/// the diagonal.
pub proof fn lemma_row_echelon<T: MatrixElement>(g: Grid<T>)
    requires
        rectangular(g),
    ensures
        rectangular(row_echelon(g)),
        row_echelon(g).len() == g.len(),
        width(row_echelon(g)) == width(g),
        zero_below_diagonal(row_echelon(g), pivot_count(g) as int),
{
    lemma_reduce_upto(g, pivot_count(g));
}

impl<T: MatrixElement> Matrix<T> {
    /// Brings the matrix into row echelon form by Gaussian elimination:
    /// for each pivot position `p < min(width, height) - 1`, a zero pivot is
    /// replaced by swapping in the first lower row that is nonzero in column
    /// `p` (the column is skipped when there is none), then every lower row
    /// that is nonzero in column `p` has `g[r][p] / g[p][p]` times row `p`
    /// subtracted from it, its column-`p` entry being set to zero outright.
    /// Pivots are not normalised and no back substitution is done.
    pub fn to_row_echelon(&mut self)
        ensures
            final(self).wf(),
            final(self).spec_width() == old(self).spec_width(),
            final(self).spec_height() == old(self).spec_height(),
            final(self)@ == row_echelon(old(self)@),
            zero_below_diagonal(final(self)@, pivot_count(old(self)@) as int),
    {
        proof {
            use_type_invariant(&*self);
        }
        let ghost g = self@;
        let mut rows = self.take_rows();
        reduce_rows(&mut rows);
        proof {
            lemma_row_echelon(g);
        }
        self.grid = rows;
    }
}

} // verus!
