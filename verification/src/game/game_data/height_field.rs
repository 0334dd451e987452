use vstd::prelude::*;
use crate::util::array2d::Array2D;

verus! {

/// The height of the ground at every cell of a grid, in thousandths of a
/// level. The ground is shaped outside this crate and read here.
pub struct HeightField {
    values: Array2D<i32>,
}

impl HeightField {
    /// The number of cells along x.
    pub closed spec fn spec_width(&self) -> int {
        self.values.spec_rows() as int
    }

    /// The number of cells along y.
    pub closed spec fn spec_height(&self) -> int {
        self.values.spec_columns() as int
    }

    /// Whether the field has a cell at `x` and `y`.
    pub open spec fn contains(&self, x: int, y: int) -> bool {
        0 <= x < self.spec_width() && 0 <= y < self.spec_height()
    }

    /// The height at `x` and `y`.
    pub closed spec fn value_at(&self, x: int, y: int) -> i32 {
        self.values.at(x, y)
    }

    /// Whether `other` has the same size and, but for the cell at `x` and
    /// `y`, the same heights.
    pub open spec fn same_but_at(&self, other: &Self, x: int, y: int) -> bool {
        &&& self.spec_width() == other.spec_width()
        &&& self.spec_height() == other.spec_height()
        &&& forall|i: int, j: int|
            self.contains(i, j) && !(i == x && j == y) ==> #[trigger] self.value_at(i, j)
                == other.value_at(i, j)
    }

    /// A level field of `width` times `height` cells, all at height 0.
    pub fn new(width: usize, height: usize) -> (r: Self)
        requires
            width * height <= usize::MAX,
        ensures
            r.spec_width() == width,
            r.spec_height() == height,
            forall|x: int, y: int| r.contains(x, y) ==> #[trigger] r.value_at(x, y) == 0,
    {
        Self { values: Array2D::new(width, height) }
    }

    pub fn width(&self) -> (r: usize)
        ensures
            r == self.spec_width(),
    {
        self.values.rows()
    }

    pub fn height(&self) -> (r: usize)
        ensures
            r == self.spec_height(),
    {
        self.values.columns()
    }

    /// Levels the field: every height becomes 0.
    pub fn clear(&mut self)
        ensures
            final(self).spec_width() == old(self).spec_width(),
            final(self).spec_height() == old(self).spec_height(),
            forall|x: int, y: int| final(self).contains(x, y) ==> #[trigger] final(self).value_at(x, y) == 0,
    {
        let width = self.values.rows();
        let height = self.values.columns();
        let mut x: usize = 0;
        while x < width
            invariant
                x <= width,
                width == self.values.spec_rows() == old(self).values.spec_rows(),
                height == self.values.spec_columns() == old(self).values.spec_columns(),
                forall|i: int, j: int| 0 <= i < x && 0 <= j < height ==> #[trigger] self.values.at(i, j) == 0,
            decreases width - x,
        {
            let mut y: usize = 0;
            while y < height
                invariant
                    x < width,
                    y <= height,
                    width == self.values.spec_rows() == old(self).values.spec_rows(),
                    height == self.values.spec_columns() == old(self).values.spec_columns(),
                    forall|i: int, j: int|
                        0 <= i < x && 0 <= j < height ==> #[trigger] self.values.at(i, j) == 0,
                    forall|j: int| 0 <= j < y ==> #[trigger] self.values.at(x as int, j) == 0,
                decreases height - y,
            {
                self.values.set(x, y, 0);
                y += 1;
            }
            x += 1;
        }
    }

    /// The height at `x` and `y`.
    pub fn get_value(&self, x: i32, y: i32) -> (r: i32)
        requires
            self.contains(x as int, y as int),
        ensures
            r == self.value_at(x as int, y as int),
    {
        *self.values.get(x as usize, y as usize)
    }

    /// Replaces the height at `x` and `y`.
    pub fn set_value(&mut self, x: i32, y: i32, value: i32)
        requires
            old(self).contains(x as int, y as int),
        ensures
            final(self).value_at(x as int, y as int) == value,
            final(self).same_but_at(old(self), x as int, y as int),
    {
        self.values.set(x as usize, y as usize, value);
    }
}

} // verus!
