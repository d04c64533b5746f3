use vstd::prelude::*;
use crate::element::MatrixElement;

verus! {

/// A grid of cells as a sequence of rows.
pub type Grid<T> = Seq<Seq<T>>;

/// Number of rows.
pub open spec fn height<T>(g: Grid<T>) -> nat {
    g.len()
}

/// Number of columns, read from the first row.
pub open spec fn width<T>(g: Grid<T>) -> nat {
    if g.len() == 0 {
        0
    } else {
        g[0].len()
    }
}

/// At least one row and one column, and every row as long as the first.
pub open spec fn rectangular<T>(g: Grid<T>) -> bool {
    &&& g.len() >= 1
    &&& g[0].len() >= 1
    &&& forall|i: int| 0 <= i < g.len() ==> (#[trigger] g[i]).len() == g[0].len()
}

/// `height` rows of `width` cells, each holding `value`.
pub open spec fn filled<T>(value: T, width: nat, height: nat) -> Grid<T> {
    Seq::new(height, |i: int| Seq::new(width, |j: int| value))
}

/// `lambda` on the main diagonal of an `n` x `n` grid, zero elsewhere.
pub open spec fn scalar_grid<T: MatrixElement>(lambda: T, n: nat) -> Grid<T> {
    Seq::new(n, |i: int| Seq::new(n, |j: int| if i == j { lambda } else { T::zero() }))
}

/// `g` with the cell at (`row`, `col`) replaced by `value`.
pub open spec fn set_cell<T>(g: Grid<T>, row: int, col: int, value: T) -> Grid<T> {
    g.update(row, g[row].update(col, value))
}

/// `g` with rows `r1` and `r2` exchanged.
pub open spec fn swap_rows<T>(g: Grid<T>, r1: int, r2: int) -> Grid<T> {
    g.update(r1, g[r2]).update(r2, g[r1])
}

/// The rows of `v` as a grid.
pub open spec fn rows_view<T>(v: Seq<Vec<T>>) -> Grid<T> {
    v.map_values(|r: Vec<T>| r@)
}

/// A grid of `height` rows of `width` copies of `value`.
pub(crate) fn filled_rows<T: MatrixElement>(value: T, width: usize, height: usize) -> (r: Vec<Vec<T>>)
    ensures
        r@.len() == height,
        rows_view(r@) == filled(value, width as nat, height as nat),
{
    let mut grid: Vec<Vec<T>> = Vec::new();
    let mut i: usize = 0;
    while i < height
        invariant
            i <= height,
            grid@.len() == i,
            forall|k: int| 0 <= k < i ==> (#[trigger] grid@[k])@ == Seq::new(width as nat, |j: int| value),
        decreases height - i,
    {
        let mut row: Vec<T> = Vec::new();
        let mut j: usize = 0;
        while j < width
            invariant
                j <= width,
                row@ == Seq::new(j as nat, |c: int| value),
            decreases width - j,
        {
            row.push(value);
            j += 1;
            assert(row@ =~= Seq::new(j as nat, |c: int| value));
        }
        grid.push(row);
        i += 1;
    }
    assert(rows_view(grid@) =~= filled(value, width as nat, height as nat));
    grid
}

/// Overwrites the cell at (`row`, `col`).
pub(crate) fn set_cell_in<T: MatrixElement>(grid: &mut Vec<Vec<T>>, row: usize, col: usize, value: T)
    requires
        row < old(grid)@.len(),
        col < old(grid)@[row as int]@.len(),
    ensures
        final(grid)@.len() == old(grid)@.len(),
        rows_view(final(grid)@) == set_cell(rows_view(old(grid)@), row as int, col as int, value),
{
    let ghost g = rows_view(grid@);
    let mut line: Vec<T> = Vec::new();
    std::mem::swap(&mut line, &mut grid[row]);
    line.set(col, value);
    std::mem::swap(&mut line, &mut grid[row]);
    assert(rows_view(grid@) =~= set_cell(g, row as int, col as int, value));
}

/// Exchanges rows `r1` and `r2`.
pub(crate) fn swap_rows_in<T>(grid: &mut Vec<Vec<T>>, r1: usize, r2: usize)
    requires
        r1 < old(grid)@.len(),
        r2 < old(grid)@.len(),
    ensures
        final(grid)@.len() == old(grid)@.len(),
        rows_view(final(grid)@) == swap_rows(rows_view(old(grid)@), r1 as int, r2 as int),
{
    let ghost g = rows_view(grid@);
    if r1 != r2 {
        let ghost rows = grid@;
        let mut line: Vec<T> = Vec::new();
        std::mem::swap(&mut line, &mut grid[r1]);
        std::mem::swap(&mut line, &mut grid[r2]);
        std::mem::swap(&mut line, &mut grid[r1]);
        assert(grid@ == rows.update(r1 as int, rows[r2 as int]).update(r2 as int, rows[r1 as int]));
    }
    assert(rows_view(grid@) =~= swap_rows(g, r1 as int, r2 as int));
}

/// A copy of every row.
pub(crate) fn copy_rows<T: MatrixElement>(grid: &Vec<Vec<T>>) -> (r: Vec<Vec<T>>)
    ensures
        rows_view(r@) == rows_view(grid@),
{
    let mut out: Vec<Vec<T>> = Vec::new();
    let mut i: usize = 0;
    while i < grid.len()
        invariant
            i <= grid@.len(),
            out@.len() == i,
            forall|k: int| 0 <= k < i ==> (#[trigger] out@[k])@ == grid@[k]@,
        decreases grid@.len() - i,
    {
        let mut line: Vec<T> = Vec::new();
        let mut j: usize = 0;
        while j < grid[i].len()
            invariant
                i < grid@.len(),
                j <= grid@[i as int]@.len(),
                line@ == grid@[i as int]@.subrange(0, j as int),
            decreases grid@[i as int]@.len() - j,
        {
            line.push(grid[i][j]);
            j += 1;
            assert(line@ =~= grid@[i as int]@.subrange(0, j as int));
        }
        assert(line@ =~= grid@[i as int]@);
        out.push(line);
        i += 1;
    }
    assert(rows_view(out@) =~= rows_view(grid@));
    out
}

} // verus!
