use vstd::prelude::*;
use crate::element::MatrixElement;
use crate::grid::{Grid, filled_rows, height, rectangular, rows_view, width};
use crate::matrix::Matrix;
use core::ops::{AddAssign, MulAssign, SubAssign};

verus! {

/// Every cell multiplied by `s` (cell on the left).
pub open spec fn scaled<T: MatrixElement>(g: Grid<T>, s: T) -> Grid<T> {
    Seq::new(g.len(), |i: int| Seq::new(g[i].len(), |j: int| T::mul(g[i][j], s)))
}

/// Equal width and equal height.
pub open spec fn same_shape<T>(a: Grid<T>, b: Grid<T>) -> bool {
    width(a) == width(b) && height(a) == height(b)
}

/// The cellwise sum `a + b`, or the difference `a - b` when `subtract`.
pub open spec fn cellwise<T: MatrixElement>(a: Grid<T>, b: Grid<T>, subtract: bool) -> Grid<T> {
    Seq::new(
        a.len(),
        |i: int|
            Seq::new(
                a[i].len(),
                |j: int|
                    if subtract {
                        T::sub(a[i][j], b[i][j])
                    } else {
                        T::add(a[i][j], b[i][j])
                    },
            ),
    )
}

/// Dot product of row `i` of `a` with column `j` of `b` over the first `k`
/// terms, accumulated from zero left to right.
pub open spec fn dot<T: MatrixElement>(a: Grid<T>, b: Grid<T>, i: int, j: int, k: nat) -> T
    decreases k,
{
    if k == 0 {
        T::zero()
    } else {
        T::add(dot(a, b, i, j, (k - 1) as nat), T::mul(a[i][k - 1], b[k - 1][j]))
    }
}

/// The matrix product `a * b`: `height(a)` rows of `width(b)` dot products.
pub open spec fn product<T: MatrixElement>(a: Grid<T>, b: Grid<T>) -> Grid<T> {
    Seq::new(height(a), |i: int| Seq::new(width(b), |j: int| dot(a, b, i, j, width(a))))
}

/// Multiplies every cell by `s`.
fn scale_rows<T: MatrixElement>(grid: &mut Vec<Vec<T>>, s: T)
    ensures
        final(grid)@.len() == old(grid)@.len(),
        rows_view(final(grid)@) == scaled(rows_view(old(grid)@), s),
{
    let ghost g = rows_view(grid@);
    let mut i: usize = 0;
    while i < grid.len()
        invariant
            grid@.len() == g.len(),
            i <= g.len(),
            forall|r: int| 0 <= r < g.len() ==> #[trigger] rows_view(grid@)[r] == (if r < i {
                scaled(g, s)[r]
            } else {
                g[r]
            }),
        decreases g.len() - i,
    {
        let ghost before = grid@;
        assert(rows_view(grid@)[i as int] == grid@[i as int]@);
        let mut line: Vec<T> = Vec::new();
        std::mem::swap(&mut line, &mut grid[i]);
        let mut j: usize = 0;
        while j < line.len()
            invariant
                line@.len() == g[i as int].len(),
                j <= line@.len(),
                forall|c: int| 0 <= c < line@.len() ==> #[trigger] line@[c] == (if c < j {
                    T::mul(g[i as int][c], s)
                } else {
                    g[i as int][c]
                }),
            decreases line@.len() - j,
        {
            let v = line[j].mul_value(s);
            line.set(j, v);
            j += 1;
        }
        assert(line@ =~= scaled(g, s)[i as int]);
        std::mem::swap(&mut line, &mut grid[i]);
        proof {
            assert forall|r: int| 0 <= r < g.len() implies #[trigger] rows_view(grid@)[r] == (if r
                < i + 1 {
                scaled(g, s)[r]
            } else {
                g[r]
            }) by {
                assert(rows_view(grid@)[r] == grid@[r]@);
                assert(rows_view(before)[r] == before[r]@);
                if r != i {
                    assert(grid@[r] == before[r]);
                }
            }
        }
        i += 1;
    }
    assert(rows_view(grid@) =~= scaled(g, s));
}

/// Adds (or, when `subtract`, subtracts) `other` cell by cell.
fn combine_rows<T: MatrixElement>(grid: &mut Vec<Vec<T>>, other: &Vec<Vec<T>>, subtract: bool)
    requires
        rectangular(rows_view(old(grid)@)),
        rectangular(rows_view(other@)),
        same_shape(rows_view(old(grid)@), rows_view(other@)),
    ensures
        final(grid)@.len() == old(grid)@.len(),
        rows_view(final(grid)@) == cellwise(rows_view(old(grid)@), rows_view(other@), subtract),
{
    let ghost g = rows_view(grid@);
    let ghost o = rows_view(other@);
    let ghost target = cellwise(g, o, subtract);
    let mut i: usize = 0;
    while i < grid.len()
        invariant
            grid@.len() == g.len(),
            other@.len() == g.len(),
            rectangular(g),
            rectangular(o),
            same_shape(g, o),
            o == rows_view(other@),
            target == cellwise(g, o, subtract),
            i <= g.len(),
            forall|r: int| 0 <= r < g.len() ==> #[trigger] rows_view(grid@)[r] == (if r < i {
                target[r]
            } else {
                g[r]
            }),
        decreases g.len() - i,
    {
        let ghost before = grid@;
        assert(rows_view(grid@)[i as int] == grid@[i as int]@);
        assert(other@[i as int]@ == o[i as int]);
        assert(g[i as int].len() == o[i as int].len());
        let mut line: Vec<T> = Vec::new();
        std::mem::swap(&mut line, &mut grid[i]);
        let mut j: usize = 0;
        while j < line.len()
            invariant
                line@.len() == g[i as int].len(),
                other@.len() == g.len(),
                i < g.len(),
                other@[i as int]@ == o[i as int],
                o[i as int].len() == line@.len(),
                j <= line@.len(),
                forall|c: int| 0 <= c < line@.len() ==> #[trigger] line@[c] == (if c < j {
                    if subtract {
                        T::sub(g[i as int][c], o[i as int][c])
                    } else {
                        T::add(g[i as int][c], o[i as int][c])
                    }
                } else {
                    g[i as int][c]
                }),
            decreases line@.len() - j,
        {
            let v = if subtract {
                line[j].sub_value(other[i][j])
            } else {
                line[j].add_value(other[i][j])
            };
            line.set(j, v);
            j += 1;
        }
        assert(line@ =~= target[i as int]);
        std::mem::swap(&mut line, &mut grid[i]);
        proof {
            assert forall|r: int| 0 <= r < g.len() implies #[trigger] rows_view(grid@)[r] == (if r
                < i + 1 {
                target[r]
            } else {
                g[r]
            }) by {
                assert(rows_view(grid@)[r] == grid@[r]@);
                assert(rows_view(before)[r] == before[r]@);
                if r != i {
                    assert(grid@[r] == before[r]);
                }
            }
        }
        i += 1;
    }
    assert(rows_view(grid@) =~= target);
}

/// The product of two grids whose inner dimensions agree.
fn product_rows<T: MatrixElement>(a: &Vec<Vec<T>>, b: &Vec<Vec<T>>) -> (r: Vec<Vec<T>>)
    requires
        rectangular(rows_view(a@)),
        rectangular(rows_view(b@)),
        width(rows_view(a@)) == height(rows_view(b@)),
    ensures
        rows_view(r@) == product(rows_view(a@), rows_view(b@)),
{
    let ghost ga = rows_view(a@);
    let ghost gb = rows_view(b@);
    assert(a@[0]@ == ga[0]);
    assert(b@[0]@ == gb[0]);
    let inner = a[0].len();
    let cols = b[0].len();
    let rows = a.len();
    let mut out = filled_rows(T::zero_value(), cols, rows);
    let mut row: usize = 0;
    while row < rows
        invariant
            rectangular(ga),
            rectangular(gb),
            ga == rows_view(a@),
            gb == rows_view(b@),
            inner == width(ga),
            inner == height(gb),
            cols == width(gb),
            rows == height(ga),
            row <= rows,
            out@.len() == rows,
            forall|r: int| 0 <= r < rows ==> #[trigger] rows_view(out@)[r] == (if r < row {
                product(ga, gb)[r]
            } else {
                Seq::new(cols as nat, |c: int| T::zero())
            }),
        decreases rows - row,
    {
        let ghost before = out@;
        assert(rows_view(out@)[row as int] == out@[row as int]@);
        assert(a@[row as int]@ == ga[row as int]);
        let mut line: Vec<T> = Vec::new();
        std::mem::swap(&mut line, &mut out[row]);
        let mut col: usize = 0;
        while col < cols
            invariant
                rectangular(ga),
                rectangular(gb),
                ga == rows_view(a@),
                gb == rows_view(b@),
                inner == width(ga),
                inner == height(gb),
                cols == width(gb),
                rows == height(ga),
                row < rows,
                a@[row as int]@ == ga[row as int],
                line@.len() == cols,
                col <= cols,
                forall|c: int| 0 <= c < cols ==> #[trigger] line@[c] == (if c < col {
                    dot(ga, gb, row as int, c, inner as nat)
                } else {
                    T::zero()
                }),
            decreases cols - col,
        {
            let mut acc = T::zero_value();
            let mut k: usize = 0;
            while k < inner
                invariant
                    rectangular(ga),
                    rectangular(gb),
                    ga == rows_view(a@),
                    gb == rows_view(b@),
                    inner == width(ga),
                    inner == height(gb),
                    cols == width(gb),
                    row < rows,
                    rows == height(ga),
                    col < cols,
                    a@[row as int]@ == ga[row as int],
                    k <= inner,
                    acc == dot(ga, gb, row as int, col as int, k as nat),
                decreases inner - k,
            {
                assert(b@[k as int]@ == gb[k as int]);
                assert(ga[row as int].len() == inner);
                assert(gb[k as int].len() == cols);
                acc = acc.add_value(a[row][k].mul_value(b[k][col]));
                k += 1;
            }
            line.set(col, acc);
            col += 1;
        }
        assert(line@ =~= product(ga, gb)[row as int]);
        std::mem::swap(&mut line, &mut out[row]);
        proof {
            assert forall|r: int| 0 <= r < rows implies #[trigger] rows_view(out@)[r] == (if r < row
                + 1 {
                product(ga, gb)[r]
            } else {
                Seq::new(cols as nat, |c: int| T::zero())
            }) by {
                assert(rows_view(out@)[r] == out@[r]@);
                assert(rows_view(before)[r] == before[r]@);
                if r != row {
                    assert(out@[r] == before[r]);
                }
            }
        }
        row += 1;
    }
    assert(rows_view(out@) =~= product(ga, gb));
    out
}

impl<T: MatrixElement> Matrix<T> {
    /// Adds or subtracts `rhs` in place when the shapes agree; otherwise
    /// leaves the matrix as it is.
    fn combine_assign(&mut self, rhs: &Matrix<T>, subtract: bool)
        ensures
            final(self).wf(),
            final(self)@ == (if same_shape(old(self)@, rhs@) {
                cellwise(old(self)@, rhs@, subtract)
            } else {
                old(self)@
            }),
    {
        proof {
            use_type_invariant(&*self);
            use_type_invariant(rhs);
        }
        if self.width() != rhs.width() || self.height() != rhs.height() {
            return;
        }
        let ghost g = self@;
        let mut rows = self.take_rows();
        combine_rows(&mut rows, &rhs.grid, subtract);
        assert(rectangular(rows_view(rows@))) by {
            assert(forall|i: int| 0 <= i < g.len() ==> (#[trigger] rows_view(rows@)[i]).len() == g[i].len());
        }
        self.grid = rows;
    }
}

/// Scalar multiplication in place: every cell is multiplied by `rhs`.
impl<T: MatrixElement> MulAssign<T> for Matrix<T> {
    fn mul_assign(&mut self, rhs: T)
        ensures
            final(self).wf(),
            final(self)@ == scaled(old(self)@, rhs),
    {
        proof {
            use_type_invariant(&*self);
        }
        let ghost g = self@;
        let mut rows = self.take_rows();
        scale_rows(&mut rows, rhs);
        assert(rectangular(rows_view(rows@))) by {
            assert(forall|i: int| 0 <= i < g.len() ==> (#[trigger] rows_view(rows@)[i]).len() == g[i].len());
        }
        self.grid = rows;
    }
}

/// Scalar multiplication: every cell is multiplied by `rhs`.
impl<T: MatrixElement> core::ops::Mul<T> for Matrix<T> {
    type Output = Matrix<T>;

    fn mul(self, rhs: T) -> (r: Matrix<T>)
        ensures
            r.wf(),
            r@ == scaled(self@, rhs),
    {
        let mut m = self;
        m.mul_assign(rhs);
        m
    }
}

/// The result of `*` is stated by the `ensures` of each `mul` above; this
/// generic description is not used (`obeys_mul_spec` is false).
impl<T: MatrixElement> vstd::std_specs::ops::MulSpecImpl<T> for Matrix<T> {
    open spec fn obeys_mul_spec() -> bool {
        false
    }

    open spec fn mul_req(self, rhs: T) -> bool {
        true
    }

    open spec fn mul_spec(self, rhs: T) -> Matrix<T> {
        self
    }
}

/// Matrix product. When the width of the left operand differs from the
/// height of the right one, the left operand is returned unchanged.
impl<T: MatrixElement> core::ops::Mul<Matrix<T>> for Matrix<T> {
    type Output = Matrix<T>;

    fn mul(self, rhs: Matrix<T>) -> (r: Matrix<T>)
        ensures
            r.wf(),
            r@ == (if self.spec_width() == rhs.spec_height() {
                product(self@, rhs@)
            } else {
                self@
            }),
    {
        proof {
            use_type_invariant(&self);
            use_type_invariant(&rhs);
        }
        if self.width() != rhs.height() {
            return self;
        }
        let rows = product_rows(&self.grid, &rhs.grid);
        proof {
            let p = product(self@, rhs@);
            assert(rectangular(p));
        }
        Matrix { grid: rows }
    }
}

impl<T: MatrixElement> vstd::std_specs::ops::MulSpecImpl<Matrix<T>> for Matrix<T> {
    open spec fn obeys_mul_spec() -> bool {
        false
    }

    open spec fn mul_req(self, rhs: Matrix<T>) -> bool {
        true
    }

    open spec fn mul_spec(self, rhs: Matrix<T>) -> Matrix<T> {
        self
    }
}

/// Cellwise addition in place; nothing changes when the shapes differ.
impl<T: MatrixElement> AddAssign<Matrix<T>> for Matrix<T> {
    fn add_assign(&mut self, rhs: Matrix<T>)
        ensures
            final(self).wf(),
            final(self)@ == (if same_shape(old(self)@, rhs@) {
                cellwise(old(self)@, rhs@, false)
            } else {
                old(self)@
            }),
    {
        self.combine_assign(&rhs, false);
    }
}

/// Cellwise addition; the left operand is returned unchanged when the
/// shapes differ.
impl<T: MatrixElement> core::ops::Add<Matrix<T>> for Matrix<T> {
    type Output = Matrix<T>;

    fn add(self, rhs: Matrix<T>) -> (r: Matrix<T>)
        ensures
            r.wf(),
            r@ == (if same_shape(self@, rhs@) {
                cellwise(self@, rhs@, false)
            } else {
                self@
            }),
    {
        let mut m = self;
        m.combine_assign(&rhs, false);
        m
    }
}

/// The result of `+` is stated by the `ensures` of `add` above; this generic
/// description is not used (`obeys_add_spec` is false).
impl<T: MatrixElement> vstd::std_specs::ops::AddSpecImpl<Matrix<T>> for Matrix<T> {
    open spec fn obeys_add_spec() -> bool {
        false
    }

    open spec fn add_req(self, rhs: Matrix<T>) -> bool {
        true
    }

    open spec fn add_spec(self, rhs: Matrix<T>) -> Matrix<T> {
        self
    }
}

/// Cellwise subtraction in place; nothing changes when the shapes differ.
impl<T: MatrixElement> SubAssign<Matrix<T>> for Matrix<T> {
    fn sub_assign(&mut self, rhs: Matrix<T>)
        ensures
            final(self).wf(),
            final(self)@ == (if same_shape(old(self)@, rhs@) {
                cellwise(old(self)@, rhs@, true)
            } else {
                old(self)@
            }),
    {
        self.combine_assign(&rhs, true);
    }
}

/// Cellwise subtraction; the left operand is returned unchanged when the
/// shapes differ.
impl<T: MatrixElement> core::ops::Sub<Matrix<T>> for Matrix<T> {
    type Output = Matrix<T>;

    fn sub(self, rhs: Matrix<T>) -> (r: Matrix<T>)
        ensures
            r.wf(),
            r@ == (if same_shape(self@, rhs@) {
                cellwise(self@, rhs@, true)
            } else {
                self@
            }),
    {
        let mut m = self;
        m.combine_assign(&rhs, true);
        m
    }
}

/// The result of `-` is stated by the `ensures` of `sub` above; this generic
/// description is not used (`obeys_sub_spec` is false).
impl<T: MatrixElement> vstd::std_specs::ops::SubSpecImpl<Matrix<T>> for Matrix<T> {
    open spec fn obeys_sub_spec() -> bool {
        false
    }

    open spec fn sub_req(self, rhs: Matrix<T>) -> bool {
        true
    }

    open spec fn sub_spec(self, rhs: Matrix<T>) -> Matrix<T> {
        self
    }
}

/// Two matrices are equal when they have the same shape and equal cells.
impl<T: MatrixElement> PartialEq for Matrix<T> {
    fn eq(&self, other: &Matrix<T>) -> (r: bool) {
        proof {
            use_type_invariant(self);
            use_type_invariant(other);
        }
        if self.width() != other.width() || self.height() != other.height() {
            return false;
        }
        let ghost a = self@;
        let ghost b = other@;
        let mut i: usize = 0;
        while i < self.grid.len()
            invariant
                rectangular(a),
                rectangular(b),
                a == self@,
                b == other@,
                same_shape(a, b),
                self.grid@.len() == a.len(),
                other.grid@.len() == b.len(),
                i <= a.len(),
                forall|r: int| 0 <= r < i ==> #[trigger] a[r] == b[r],
            decreases a.len() - i,
        {
            assert(self.grid@[i as int]@ == a[i as int]);
            assert(other.grid@[i as int]@ == b[i as int]);
            assert(a[i as int].len() == b[i as int].len());
            let mut j: usize = 0;
            while j < self.grid[i].len()
                invariant
                    i < a.len(),
                    i < b.len(),
                    a == self@,
                    b == other@,
                    self.grid@.len() == a.len(),
                    other.grid@.len() == b.len(),
                    self.grid@[i as int]@ == a[i as int],
                    other.grid@[i as int]@ == b[i as int],
                    a[i as int].len() == b[i as int].len(),
                    j <= a[i as int].len(),
                    forall|c: int| 0 <= c < j ==> #[trigger] a[i as int][c] == b[i as int][c],
                decreases a[i as int].len() - j,
            {
                if !self.grid[i][j].equals(&other.grid[i][j]) {
                    assert(a[i as int][j as int] != b[i as int][j as int]);
                    assert(self@ != other@);
                    return false;
                }
                j += 1;
            }
            assert(a[i as int] =~= b[i as int]);
            i += 1;
        }
        assert(a =~= b);
        true
    }
}

/// `==` on matrices is equality of their grids.
impl<T: MatrixElement> vstd::std_specs::cmp::PartialEqSpecImpl for Matrix<T> {
    open spec fn obeys_eq_spec() -> bool {
        true
    }

    open spec fn eq_spec(&self, other: &Matrix<T>) -> bool {
        self@ == other@
    }
}

} // verus!
