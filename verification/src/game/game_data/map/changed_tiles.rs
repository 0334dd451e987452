use vstd::prelude::*;
use crate::coordinate::Coordinate;
use crate::util::array2d::Array2D;

verus! {

/// The cells of a grid whose tile changed since their cached view was last
/// refreshed. A cell is held once, however often it is put in.
pub struct ChangedTiles {
    list: Vec<Coordinate>,
    flags: Array2D<bool>,
}

impl ChangedTiles {
    /// Whether the list of the cells and the marks on the grid agree.
    pub closed spec fn wf(&self) -> bool {
        &&& forall|i: int|
            0 <= i < self.list.len() ==> self.flags.has_coordinate(#[trigger] self.list@[i])
                && self.flags.at_coordinate(self.list@[i])
        &&& forall|p: Coordinate|
            self.flags.has_coordinate(p) && #[trigger] self.flags.at_coordinate(p) ==> self.list@.contains(p)
    }

    /// The number of cells of the grid along x.
    pub closed spec fn spec_width(&self) -> int {
        self.flags.spec_rows() as int
    }

    /// The number of cells of the grid along y.
    pub closed spec fn spec_height(&self) -> int {
        self.flags.spec_columns() as int
    }

    /// Whether `p` is a cell of the grid.
    pub open spec fn covers(&self, p: Coordinate) -> bool {
        0 <= p.x < self.spec_width() && 0 <= p.y < self.spec_height()
    }

    /// Whether `p` is held.
    pub closed spec fn holds(&self, p: Coordinate) -> bool {
        self.flags.has_coordinate(p) && self.flags.at_coordinate(p)
    }

    /// The cells that are held.
    pub open spec fn view(&self) -> Set<Coordinate> {
        Set::new(|p: Coordinate| self.holds(p))
    }

    /// What is held lies on the grid.
    pub proof fn lemma_held_is_covered(&self, p: Coordinate)
        requires
            self.holds(p),
        ensures
            self.covers(p),
    {
    }

    /// Nothing held, on a grid of `width` times `height` cells.
    pub fn new(width: usize, height: usize) -> (r: Self)
        requires
            width * height <= usize::MAX,
        ensures
            r.wf(),
            r.spec_width() == width,
            r.spec_height() == height,
            forall|p: Coordinate| !r.holds(p),
    {
        let flags: Array2D<bool> = Array2D::new(width, height);
        Self { list: Vec::new(), flags }
    }

    /// Whether nothing is held.
    pub fn is_empty(&self) -> (r: bool)
        requires
            self.wf(),
        ensures
            r == (forall|p: Coordinate| !self.holds(p)),
    {
        proof {
            if self.list.len() > 0 {
                assert(self.holds(self.list@[0]));
            } else {
                assert forall|p: Coordinate| !self.holds(p) by {
                    if self.holds(p) {
                        assert(self.list@.contains(p));
                    }
                }
            }
        }
        self.list.len() == 0
    }

    /// Whether `p` is held.
    pub fn contains(&self, p: Coordinate) -> (r: bool)
        ensures
            r == self.holds(p),
    {
        if p.x >= 0 && p.y >= 0 && (p.x as usize) < self.flags.rows() && (p.y as usize) < self.flags.columns() {
            *self.flags.by_coordinate(p)
        } else {
            false
        }
    }

    /// Puts `p` in. A cell that is not on the grid is left out.
    pub fn insert(&mut self, p: Coordinate)
        requires
            old(self).wf(),
        ensures
            final(self).wf(),
            final(self).spec_width() == old(self).spec_width(),
            final(self).spec_height() == old(self).spec_height(),
            forall|q: Coordinate|
                #[trigger] final(self).holds(q) == (old(self).holds(q) || (q == p && old(self).covers(p))),
    {
        if p.x >= 0 && p.y >= 0 && (p.x as usize) < self.flags.rows() && (p.y as usize) < self.flags.columns() {
            if !*self.flags.by_coordinate(p) {
                let ghost before = self.list@;
                self.flags.set(p.x as usize, p.y as usize, true);
                self.list.push(p);
                proof {
                    assert(self.list@[before.len() as int] == p);
                    assert forall|q: Coordinate|
                        self.flags.has_coordinate(q) && #[trigger] self.flags.at_coordinate(
                            q,
                        ) implies self.list@.contains(q) by {
                        if q == p {
                            assert(self.list@[before.len() as int] == p);
                        } else {
                            assert(old(self).flags.at_coordinate(q));
                            let i = choose|i: int| 0 <= i < before.len() && before[i] == q;
                            assert(self.list@[i] == q);
                        }
                    }
                    assert forall|i: int| 0 <= i < self.list.len() implies self.flags.has_coordinate(
                        #[trigger] self.list@[i],
                    ) && self.flags.at_coordinate(self.list@[i]) by {
                        if i < before.len() {
                            assert(self.list@[i] == before[i]);
                        }
                    }
                }
            }
        }
    }

    /// Takes out all that is held. Every cell that was held is in the
    /// list that comes back, and nothing else is.
    pub fn drain(&mut self) -> (taken: Vec<Coordinate>)
        requires
            old(self).wf(),
        ensures
            final(self).wf(),
            final(self).spec_width() == old(self).spec_width(),
            final(self).spec_height() == old(self).spec_height(),
            forall|q: Coordinate| !final(self).holds(q),
            forall|q: Coordinate| #[trigger] taken@.contains(q) == old(self).holds(q),
    {
        let mut taken: Vec<Coordinate> = Vec::new();
        core::mem::swap(&mut taken, &mut self.list);
        proof {
            assert forall|q: Coordinate| #[trigger] taken@.contains(q) == old(self).holds(q) by {
                if taken@.contains(q) {
                    let i = choose|i: int| 0 <= i < taken.len() && taken@[i] == q;
                    assert(old(self).flags.has_coordinate(taken@[i]));
                }
            }
        }
        let mut i: usize = 0;
        while i < taken.len()
            invariant
                i <= taken.len(),
                self.list.len() == 0,
                self.flags.spec_rows() == old(self).flags.spec_rows(),
                self.flags.spec_columns() == old(self).flags.spec_columns(),
                forall|j: int| 0 <= j < taken.len() ==> self.flags.has_coordinate(#[trigger] taken@[j]),
                forall|q: Coordinate|
                    self.flags.has_coordinate(q) && #[trigger] self.flags.at_coordinate(q) ==> exists|j: int|
                        i <= j < taken.len() && taken@[j] == q,
            decreases taken.len() - i,
        {
            let p = taken[i];
            let ghost before = self.flags;
            self.flags.set(p.x as usize, p.y as usize, false);
            proof {
                assert forall|q: Coordinate|
                    self.flags.has_coordinate(q) && #[trigger] self.flags.at_coordinate(q) implies exists|
                    j: int,
                | i + 1 <= j < taken.len() && taken@[j] == q by {
                    assert(q != p);
                    assert(before.at_coordinate(q));
                    let j = choose|j: int| i <= j < taken.len() && taken@[j] == q;
                    assert(j != i);
                }
            }
            i += 1;
        }
        taken
    }
}

} // verus!
