use vstd::prelude::*;
use vstd::string::StringExecFns;
use crate::element::MatrixElement;
use crate::grid::{Grid, rectangular};
use crate::matrix::Matrix;

verus! {

/// The decimal digit for `d < 10`.
pub open spec fn digit_char(d: nat) -> char {
    if d == 0 {
        '0'
    } else if d == 1 {
        '1'
    } else if d == 2 {
        '2'
    } else if d == 3 {
        '3'
    } else if d == 4 {
        '4'
    } else if d == 5 {
        '5'
    } else if d == 6 {
        '6'
    } else if d == 7 {
        '7'
    } else if d == 8 {
        '8'
    } else {
        '9'
    }
}

/// Decimal digits of `n`, most significant first, without leading zeros.
pub open spec fn digits(n: nat) -> Seq<char>
    decreases n,
{
    if n < 10 {
        seq![digit_char(n)]
    } else {
        digits(n / 10) + seq![digit_char(n % 10)]
    }
}

/// Decimal text of an integer, with a leading `-` when negative.
pub open spec fn decimal(n: int) -> Seq<char> {
    if n < 0 {
        seq!['-'] + digits((-n) as nat)
    } else {
        digits(n as nat)
    }
}

/// Appends one decimal digit.
fn append_digit(s: &mut String, d: u128)
    requires
        d < 10,
    ensures
        final(s)@ == old(s)@ + seq![digit_char(d as nat)],
{
    proof {
        reveal_strlit("0");
        reveal_strlit("1");
        reveal_strlit("2");
        reveal_strlit("3");
        reveal_strlit("4");
        reveal_strlit("5");
        reveal_strlit("6");
        reveal_strlit("7");
        reveal_strlit("8");
        reveal_strlit("9");
    }
    let t = if d == 0 {
        "0"
    } else if d == 1 {
        "1"
    } else if d == 2 {
        "2"
    } else if d == 3 {
        "3"
    } else if d == 4 {
        "4"
    } else if d == 5 {
        "5"
    } else if d == 6 {
        "6"
    } else if d == 7 {
        "7"
    } else if d == 8 {
        "8"
    } else {
        "9"
    };
    s.append(t);
}

/// Appends the decimal digits of `n`.
fn append_digits(s: &mut String, n: u128)
    ensures
        final(s)@ == old(s)@ + digits(n as nat),
    decreases n,
{
    if n >= 10 {
        append_digits(s, n / 10);
    }
    append_digit(s, n % 10);
    assert(final(s)@ =~= old(s)@ + digits(n as nat));
}

/// Decimal text of a value given by its sign and magnitude.
pub(crate) fn decimal_text(negative: bool, magnitude: u128) -> (r: String)
    ensures
        r@ == (if negative && magnitude > 0 {
            seq!['-'] + digits(magnitude as nat)
        } else {
            digits(magnitude as nat)
        }),
{
    let mut s = String::new();
    if negative && magnitude > 0 {
        proof {
            reveal_strlit("-");
        }
        s.append("-");
    }
    append_digits(&mut s, magnitude);
    assert(s@ =~= (if negative && magnitude > 0 {
        seq!['-'] + digits(magnitude as nat)
    } else {
        digits(magnitude as nat)
    }));
    s
}

/// The first `k` cells of a row, each written with a space on both sides.
pub open spec fn cells_text<T: MatrixElement>(row: Seq<T>, k: nat) -> Seq<char>
    decreases k,
{
    if k == 0 {
        Seq::empty()
    } else {
        cells_text(row, (k - 1) as nat) + seq![' '] + T::text(row[k - 1]) + seq![' ']
    }
}

/// A row in brackets.
pub open spec fn row_text<T: MatrixElement>(row: Seq<T>) -> Seq<char> {
    seq!['['] + cells_text(row, row.len()) + seq![']']
}

/// The first `k` rows, separated by newlines, with none after the last.
pub open spec fn rows_text<T: MatrixElement>(g: Grid<T>, k: nat) -> Seq<char>
    decreases k,
{
    if k == 0 {
        Seq::empty()
    } else if k == 1 {
        row_text(g[0])
    } else {
        rows_text(g, (k - 1) as nat) + seq!['\n'] + row_text(g[k - 1])
    }
}

impl<T: MatrixElement> Matrix<T> {
    /// The matrix as text: each row in brackets with every cell padded by
    /// a space on both sides, rows separated by newlines, no trailing
    /// newline. For example `[ 1  2 ]` and `[ 3  4 ]` on two lines.
    pub fn to_string(&self) -> (r: String)
        ensures
            r@ == rows_text(self@, self@.len()),
    {
        proof {
            use_type_invariant(self);
        }
        let ghost g = self@;
        let mut out = String::new();
        let mut i: usize = 0;
        while i < self.grid.len()
            invariant
                g == self@,
                rectangular(g),
                i <= g.len(),
                out@ == rows_text(g, i as nat),
            decreases g.len() - i,
        {
            proof {
                reveal_strlit("[");
                reveal_strlit("]");
                reveal_strlit("\n");
            }
            assert(self.grid@[i as int]@ == g[i as int]);
            if i != 0 {
                out.append("\n");
            }
            out.append("[");
            let ghost prefix = out@;
            assert(prefix == rows_text(g, i as nat) + (if i == 0 {
                Seq::empty()
            } else {
                seq!['\n']
            }) + seq!['[']) by {
                if i == 0 {
                    assert(prefix =~= rows_text(g, i as nat) + Seq::<char>::empty() + seq!['[']);
                }
            }
            assert(out@ =~= prefix + cells_text(g[i as int], 0));
            let mut j: usize = 0;
            while j < self.grid[i].len()
                invariant
                    g == self@,
                    i < g.len(),
                    self.grid@[i as int]@ == g[i as int],
                    j <= g[i as int].len(),
                    out@ == prefix + cells_text(g[i as int], j as nat),
                decreases g[i as int].len() - j,
            {
                proof {
                    reveal_strlit(" ");
                }
                out.append(" ");
                let cell = self.grid[i][j].to_text();
                out.append(cell.as_str());
                out.append(" ");
                j += 1;
                assert(out@ =~= prefix + cells_text(g[i as int], j as nat));
            }
            out.append("]");
            i += 1;
            assert(out@ =~= rows_text(g, i as nat));
        }
        out
    }
}

} // verus!
