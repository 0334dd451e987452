//! A dense grid of values.

use vstd::prelude::*;
use crate::coordinate::Coordinate;

verus! {

/// A grid of `rows` times `columns` values, stored row after row.
pub struct Array2D<T> {
    raw: Vec<T>,
    rows: usize,
    columns: usize,
}

/// A cell of a grid with `columns` columns lies, in row-major order, before
/// the end of the grid.
pub proof fn lemma_index_in_grid(row: int, column: int, rows: int, columns: int)
    requires
        0 <= row < rows,
        0 <= column < columns,
    ensures
        0 <= row * columns + column < rows * columns,
{
    assert(row * columns + column < rows * columns) by (nonlinear_arith)
        requires
            0 <= row < rows,
            0 <= column < columns,
    ;
    assert(0 <= row * columns) by (nonlinear_arith)
        requires
            0 <= row,
            0 <= columns,
    ;
}

/// Two different cells of a grid have different places in row-major order.
pub proof fn lemma_index_injective(r1: int, c1: int, r2: int, c2: int, columns: int)
    requires
        0 <= c1 < columns,
        0 <= c2 < columns,
        0 <= r1,
        0 <= r2,
        r1 * columns + c1 == r2 * columns + c2,
    ensures
        r1 == r2,
        c1 == c2,
{
    if r1 < r2 {
        assert(r1 * columns + columns <= r2 * columns) by (nonlinear_arith)
            requires
                r1 + 1 <= r2,
                0 <= columns,
        ;
    } else if r2 < r1 {
        assert(r2 * columns + columns <= r1 * columns) by (nonlinear_arith)
            requires
                r2 + 1 <= r1,
                0 <= columns,
        ;
    }
}

/// The place of a cell in row-major order.
pub open spec fn place(row: int, column: int, columns: int) -> int {
    row * columns + column
}

impl<T> Array2D<T> {
    #[verifier::type_invariant]
    spec fn well_formed(&self) -> bool {
        self.raw.len() == self.rows * self.columns
    }

    /// The number of rows.
    pub closed spec fn spec_rows(&self) -> usize {
        self.rows
    }

    /// The number of columns.
    pub closed spec fn spec_columns(&self) -> usize {
        self.columns
    }

    /// The value in the given row and column.
    pub closed spec fn at(&self, row: int, column: int) -> T {
        self.raw@[place(row, column, self.columns as int)]
    }

    /// Whether the grid has the given row and column.
    pub open spec fn has(&self, row: int, column: int) -> bool {
        0 <= row < self.spec_rows() && 0 <= column < self.spec_columns()
    }

    /// Whether the grid has a cell for `p`, x counting rows and y columns.
    pub open spec fn has_coordinate(&self, p: Coordinate) -> bool {
        self.has(p.x as int, p.y as int)
    }

    /// The value at `p`, x counting rows and y columns.
    pub open spec fn at_coordinate(&self, p: Coordinate) -> T {
        self.at(p.x as int, p.y as int)
    }

    /// Whether `other` has the same size and, but for the cell in the given
    /// row and column, the same values.
    pub open spec fn same_but_at(&self, other: &Self, row: int, column: int) -> bool {
        &&& self.spec_rows() == other.spec_rows()
        &&& self.spec_columns() == other.spec_columns()
        &&& forall|r: int, c: int|
            self.has(r, c) && !(r == row && c == column) ==> #[trigger] self.at(r, c) == other.at(r, c)
    }

    #[verifier::when_used_as_spec(spec_rows)]
    pub fn rows(&self) -> (r: usize)
        ensures
            r == self.spec_rows(),
            self.spec_rows() * self.spec_columns() <= usize::MAX,
    {
        proof {
            use_type_invariant(self);
        }
        self.rows
    }

    #[verifier::when_used_as_spec(spec_columns)]
    pub fn columns(&self) -> (r: usize)
        ensures
            r == self.spec_columns(),
    {
        self.columns
    }

    /// The value in the given row and column.
    pub fn get(&self, row: usize, column: usize) -> (r: &T)
        requires
            self.has(row as int, column as int),
        ensures
            *r == self.at(row as int, column as int),
    {
        proof {
            use_type_invariant(self);
            lemma_index_in_grid(row as int, column as int, self.rows as int, self.columns as int);
        }
        &self.raw[row * self.columns + column]
    }

    /// The value in the given row and column, for writing.
    pub fn get_mut(&mut self, row: usize, column: usize) -> (r: &mut T)
        requires
            old(self).has(row as int, column as int),
        ensures
            *r == old(self).at(row as int, column as int),
            final(self).at(row as int, column as int) == *final(r),
            final(self).same_but_at(old(self), row as int, column as int),
    {
        proof {
            use_type_invariant(&*self);
            lemma_index_in_grid(row as int, column as int, self.rows as int, self.columns as int);
            assert forall|r: int, c: int| 0 <= r < self.rows && 0 <= c < self.columns implies 0 <= #[trigger] place(
                r,
                c,
                self.columns as int,
            ) < self.raw.len() && (!(r == row && c == column) ==> place(r, c, self.columns as int)
                != place(row as int, column as int, self.columns as int)) by {
                lemma_index_in_grid(r, c, self.rows as int, self.columns as int);
                if place(r, c, self.columns as int) == place(row as int, column as int, self.columns as int) {
                    lemma_index_injective(r, c, row as int, column as int, self.columns as int);
                }
            }
        }
        &mut self.raw[row * self.columns + column]
    }

    /// Replaces the value in the given row and column.
    pub fn set(&mut self, row: usize, column: usize, value: T)
        requires
            old(self).has(row as int, column as int),
        ensures
            final(self).at(row as int, column as int) == value,
            final(self).same_but_at(old(self), row as int, column as int),
    {
        *self.get_mut(row, column) = value;
    }

    /// The value at `p`, x counting rows and y columns.
    pub fn by_coordinate(&self, p: Coordinate) -> (r: &T)
        requires
            self.has_coordinate(p),
        ensures
            *r == self.at_coordinate(p),
    {
        self.get(p.x as usize, p.y as usize)
    }

    /// The value at `p`, for writing.
    pub fn by_coordinate_mut(&mut self, p: Coordinate) -> (r: &mut T)
        requires
            old(self).has_coordinate(p),
        ensures
            *r == old(self).at_coordinate(p),
            final(self).at_coordinate(p) == *final(r),
            final(self).same_but_at(old(self), p.x as int, p.y as int),
    {
        self.get_mut(p.x as usize, p.y as usize)
    }
}

impl<T: Clone> Array2D<T> {
    /// A grid whose cell in row `r` and column `c` holds what `func` gives
    /// for `r` and `c`. The cells are filled row after row.
    pub fn new_with<F>(rows: usize, columns: usize, func: F) -> (grid: Self) where
        F: Fn(usize, usize) -> T,

        requires
            rows * columns <= usize::MAX,
            forall|r: usize, c: usize| r < rows && c < columns ==> call_requires(func, (r, c)),
        ensures
            grid.spec_rows() == rows,
            grid.spec_columns() == columns,
            forall|r: int, c: int|
                0 <= r < rows && 0 <= c < columns ==> call_ensures(
                    func,
                    (r as usize, c as usize),
                    #[trigger] grid.at(r, c),
                ),
    {
        let mut raw: Vec<T> = Vec::new();
        let mut row: usize = 0;
        while row < rows
            invariant
                row <= rows,
                rows * columns <= usize::MAX,
                raw.len() == row * columns,
                forall|r: usize, c: usize| r < rows && c < columns ==> call_requires(func, (r, c)),
                forall|r: int, c: int|
                    0 <= r < row && 0 <= c < columns ==> call_ensures(
                        func,
                        (r as usize, c as usize),
                        #[trigger] raw@[place(r, c, columns as int)],
                    ),
            decreases rows - row,
        {
            let mut column: usize = 0;
            while column < columns
                invariant
                    row < rows,
                    column <= columns,
                    rows * columns <= usize::MAX,
                    raw.len() == row * columns + column,
                    forall|r: usize, c: usize| r < rows && c < columns ==> call_requires(func, (r, c)),
                    forall|r: int, c: int|
                        0 <= r < row && 0 <= c < columns ==> call_ensures(
                            func,
                            (r as usize, c as usize),
                            #[trigger] raw@[place(r, c, columns as int)],
                        ),
                    forall|c: int|
                        0 <= c < column ==> call_ensures(
                            func,
                            (row, c as usize),
                            #[trigger] raw@[place(row as int, c, columns as int)],
                        ),
                decreases columns - column,
            {
                let ghost before = raw@;
                let value = func(row, column);
                raw.push(value);
                proof {
                    assert forall|r: int, c: int| 0 <= r < row && 0 <= c < columns implies #[trigger] place(
                        r,
                        c,
                        columns as int,
                    ) < before.len() by {
                        lemma_index_in_grid(r, c, row as int, columns as int);
                    }
                }
                column += 1;
            }
            proof {
                assert(row * columns + columns == (row + 1) * columns) by (nonlinear_arith);
            }
            row += 1;
        }
        Self { raw, rows, columns }
    }
}

impl<T: Default + Clone> Array2D<T> {
    /// A grid of default values.
    pub fn new(rows: usize, columns: usize) -> (grid: Self)
        requires
            rows * columns <= usize::MAX,
        ensures
            grid.spec_rows() == rows,
            grid.spec_columns() == columns,
            forall|r: int, c: int|
                0 <= r < rows && 0 <= c < columns ==> call_ensures(T::default, (), #[trigger] grid.at(r, c)),
    {
        let mut raw: Vec<T> = Vec::new();
        let mut row: usize = 0;
        while row < rows
            invariant
                row <= rows,
                rows * columns <= usize::MAX,
                raw.len() == row * columns,
                forall|i: int| 0 <= i < raw.len() ==> call_ensures(T::default, (), #[trigger] raw@[i]),
            decreases rows - row,
        {
            let mut column: usize = 0;
            while column < columns
                invariant
                    row < rows,
                    column <= columns,
                    rows * columns <= usize::MAX,
                    raw.len() == row * columns + column,
                    forall|i: int| 0 <= i < raw.len() ==> call_ensures(T::default, (), #[trigger] raw@[i]),
                decreases columns - column,
            {
                raw.push(T::default());
                column += 1;
            }
            proof {
                assert(row * columns + columns == (row + 1) * columns) by (nonlinear_arith);
            }
            row += 1;
        }
        let grid = Self { raw, rows, columns };
        proof {
            assert forall|r: int, c: int| 0 <= r < rows && 0 <= c < columns implies call_ensures(
                T::default,
                (),
                #[trigger] grid.at(r, c),
            ) by {
                lemma_index_in_grid(r, c, rows as int, columns as int);
            }
        }
        grid
    }
}

} // verus!
