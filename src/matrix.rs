use vstd::prelude::*;
use crate::element::MatrixElement;
use crate::grid::{
    Grid, copy_rows, filled, filled_rows, height, rectangular, rows_view, scalar_grid, set_cell,
    set_cell_in, swap_rows, swap_rows_in, width,
};

verus! {

/// Why a matrix could not be constructed.
#[derive(Debug, Clone, Copy, PartialEq, Eq, Structural)]
pub enum MatrixError {
    /// A width or height of zero, or no rows, or an empty first row.
    DimensionError,
    /// Rows of different lengths.
    RowSizeMismatchError,
}

/// A dense, rectangular, row-major matrix with at least one row and column.
pub struct Matrix<T> {
    pub(crate) grid: Vec<Vec<T>>,
}

impl<T> View for Matrix<T> {
    type V = Grid<T>;

    open(crate) spec fn view(&self) -> Grid<T> {
        rows_view(self.grid@)
    }
}

impl<T> Matrix<T> {
    /// Every matrix is rectangular with both dimensions at least one.
    /// Verified callers obtain it with `use_type_invariant`.
    #[verifier::type_invariant]
    pub open spec fn wf(&self) -> bool {
        rectangular(self@)
    }

    /// Number of columns of the model.
    pub open spec fn spec_width(&self) -> nat {
        width(self@)
    }

    /// Number of rows of the model.
    pub open spec fn spec_height(&self) -> nat {
        height(self@)
    }
}

impl<T: MatrixElement> Matrix<T> {
    /// Moves the rows out, leaving a 1 x 1 matrix behind.
    pub(crate) fn take_rows(&mut self) -> (r: Vec<Vec<T>>)
        ensures
            rows_view(r@) == old(self)@,
            final(self).wf(),
    {
        proof {
            use_type_invariant(&*self);
        }
        let mut rows = filled_rows(self.grid[0][0], 1, 1);
        std::mem::swap(&mut rows, &mut self.grid);
        rows
    }

    /// A `width` x `height` matrix with every cell set to `init`.
    pub fn build(init: T, width: usize, height: usize) -> (r: Result<Self, MatrixError>)
        ensures
            r is Err <==> (width == 0 || height == 0),
            r is Err ==> r == Err::<Self, MatrixError>(MatrixError::DimensionError),
            r matches Ok(m) ==> {
                &&& m.wf()
                &&& m@ == filled(init, width as nat, height as nat)
                &&& m.spec_width() == width
                &&& m.spec_height() == height
            },
    {
        if width == 0 || height == 0 {
            return Err(MatrixError::DimensionError);
        }
        let m = Matrix { grid: filled_rows(init, width, height) };
        assert(m@[0].len() == width);
        Ok(m)
    }

    /// A matrix that adopts `vec` as its rows, after checking that they form
    /// a non-empty rectangle.
    pub fn from_vec(vec: Vec<Vec<T>>) -> (r: Result<Self, MatrixError>)
        ensures
            match r {
                Ok(m) => rectangular(rows_view(vec@)) && m.wf() && m@ == rows_view(vec@),
                Err(MatrixError::DimensionError) => vec@.len() == 0 || vec@[0]@.len() == 0,
                Err(MatrixError::RowSizeMismatchError) => {
                    &&& vec@.len() > 0
                    &&& vec@[0]@.len() > 0
                    &&& exists|i: int| 0 <= i < vec@.len() && (#[trigger] vec@[i])@.len() != vec@[0]@.len()
                },
            },
    {
        if vec.len() == 0 || vec[0].len() == 0 {
            return Err(MatrixError::DimensionError);
        }
        let width = vec[0].len();
        let mut i: usize = 1;
        while i < vec.len()
            invariant
                1 <= i <= vec@.len(),
                width == vec@[0]@.len(),
                width > 0,
                forall|k: int| 0 <= k < i ==> (#[trigger] vec@[k])@.len() == width,
            decreases vec@.len() - i,
        {
            if vec[i].len() != width {
                assert(vec@[i as int]@.len() != vec@[0]@.len());
                return Err(MatrixError::RowSizeMismatchError);
            }
            i += 1;
        }
        assert(rectangular(rows_view(vec@)));
        Ok(Matrix { grid: vec })
    }

    /// `lambda` times the `width` x `width` identity matrix.
    pub fn build_scalar_matrix(lambda: T, width: usize) -> (r: Result<Self, MatrixError>)
        ensures
            r is Err <==> width == 0,
            r is Err ==> r == Err::<Self, MatrixError>(MatrixError::DimensionError),
            r matches Ok(m) ==> {
                &&& m.wf()
                &&& m@ == scalar_grid(lambda, width as nat)
                &&& m.spec_width() == width
                &&& m.spec_height() == width
            },
    {
        if width == 0 {
            return Err(MatrixError::DimensionError);
        }
        let mut grid = filled_rows(T::zero_value(), width, width);
        assert(rows_view(grid@) =~~= Seq::new(
            width as nat,
            |a: int| Seq::new(width as nat, |b: int| if a == b && a < 0 { lambda } else { T::zero() }),
        ));
        let mut i: usize = 0;
        while i < width
            invariant
                i <= width,
                grid@.len() == width,
                rows_view(grid@) == Seq::new(
                    width as nat,
                    |a: int| Seq::new(width as nat, |b: int| if a == b && a < i { lambda } else { T::zero() }),
                ),
            decreases width - i,
        {
            assert(grid@[i as int]@ == rows_view(grid@)[i as int]);
            set_cell_in(&mut grid, i, i, lambda);
            i += 1;
            assert(rows_view(grid@) =~~= Seq::new(
                width as nat,
                |a: int| Seq::new(width as nat, |b: int| if a == b && a < i { lambda } else { T::zero() }),
            ));
        }
        assert(rows_view(grid@) =~~= Seq::new(
            width as nat,
            |a: int| Seq::new(width as nat, |b: int| if a == b { lambda } else { T::zero() }),
        ));
        let m = Matrix { grid };
        assert(m@[0].len() == width);
        Ok(m)
    }

    /// Number of columns.
    pub fn width(&self) -> (r: usize)
        ensures
            r == self.spec_width(),
    {
        proof {
            use_type_invariant(self);
        }
        self.grid[0].len()
    }

    /// Number of rows.
    pub fn height(&self) -> (r: usize)
        ensures
            r == self.spec_height(),
    {
        self.grid.len()
    }

    /// Number of cells, `width * height`.
    pub fn size(&self) -> (r: usize)
        requires
            self.spec_width() * self.spec_height() <= usize::MAX,
        ensures
            r == self.spec_width() * self.spec_height(),
    {
        self.width() * self.height()
    }

    /// The cell at (`row`, `col`), counted from the top left; `None` when
    /// the position lies outside the matrix.
    pub fn get(&self, row: usize, col: usize) -> (r: Option<&T>)
        ensures
            r == (if row < self.spec_height() && col < self.spec_width() {
                Some(&self@[row as int][col as int])
            } else {
                None
            }),
    {
        proof {
            use_type_invariant(self);
        }
        if row < self.grid.len() && col < self.grid[row].len() {
            assert(self.grid@[row as int]@ == self@[row as int]);
            Some(&self.grid[row][col])
        } else {
            None
        }
    }

    /// Replaces the cell at (`row`, `col`) by `new` and returns what it held;
    /// outside the matrix nothing changes and the result is `None`.
    pub fn set(&mut self, row: usize, col: usize, new: T) -> (r: Option<T>)
        ensures
            final(self).wf(),
            row < old(self).spec_height() && col < old(self).spec_width() ==> {
                &&& r == Some(old(self)@[row as int][col as int])
                &&& final(self)@ == set_cell(old(self)@, row as int, col as int, new)
            },
            !(row < old(self).spec_height() && col < old(self).spec_width()) ==> {
                &&& r is None
                &&& final(self)@ == old(self)@
            },
    {
        proof {
            use_type_invariant(&*self);
        }
        if row < self.grid.len() && col < self.grid[row].len() {
            assert(self.grid@[row as int]@ == self@[row as int]);
            let previous = self.grid[row][col];
            let ghost g = self@;
            let mut rows = self.take_rows();
            set_cell_in(&mut rows, row, col, new);
            assert(rectangular(rows_view(rows@))) by {
                assert(forall|i: int| 0 <= i < g.len() ==> (#[trigger] rows_view(rows@)[i]).len() == g[i].len());
            }
            self.grid = rows;
            Some(previous)
        } else {
            None
        }
    }

    /// Exchanges rows `row1` and `row2`; does nothing when either is out of
    /// range.
    pub fn swap_rows(&mut self, row1: usize, row2: usize)
        ensures
            final(self).wf(),
            row1 < old(self).spec_height() && row2 < old(self).spec_height() ==> final(self)@
                == swap_rows(old(self)@, row1 as int, row2 as int),
            !(row1 < old(self).spec_height() && row2 < old(self).spec_height()) ==> final(self)@
                == old(self)@,
    {
        proof {
            use_type_invariant(&*self);
        }
        if row1 < self.grid.len() && row2 < self.grid.len() {
            let ghost g = self@;
            let mut rows = self.take_rows();
            swap_rows_in(&mut rows, row1, row2);
            assert(rectangular(rows_view(rows@))) by {
                assert(forall|i: int| 0 <= i < g.len() ==> (#[trigger] rows_view(rows@)[i]).len() == g[0].len());
            }
            self.grid = rows;
        }
    }
}

/// A copy that shares no storage with the original.
impl<T: MatrixElement> Clone for Matrix<T> {
    fn clone(&self) -> (r: Self)
        ensures
            r@ == self@,
    {
        proof {
            use_type_invariant(self);
        }
        Matrix { grid: copy_rows(&self.grid) }
    }
}

} // verus!
