use vstd::prelude::*;

use crate::cell::Cell;

verus! {

/// Represents a cell generation: an owned, fixed-size grid of cells stored in
/// row-major order, so the cell at `(x, y)` sits at index `y * width + x`.
#[derive(Debug, Clone, PartialEq)]
pub struct Generation {
    /// The generation width.
    pub width: u16,

    /// The generation height.
    pub height: u16,

    /// Cells vector.
    pub cells: Vec<Cell>,
}

/// Row-major indexing is injective: distinct in-range columns paired with
/// any rows give distinct indices.
pub proof fn lemma_position_injective(w: int, x1: int, y1: int, x2: int, y2: int)
    requires
        1 <= w,
        0 <= x1 < w,
        0 <= x2 < w,
        0 <= y1,
        0 <= y2,
        !(x1 == x2 && y1 == y2),
    ensures
        y1 * w + x1 != y2 * w + x2,
{
    assert(y1 * w + x1 != y2 * w + x2) by (nonlinear_arith)
        requires
            1 <= w,
            0 <= x1 < w,
            0 <= x2 < w,
            0 <= y1,
            0 <= y2,
            !(x1 == x2 && y1 == y2),
    ;
}

/// A grid of 16-bit dimensions never outgrows a 32-bit index: the widened
/// size product fits every machine's `usize`.
pub proof fn lemma_grid_size_bound(w: int, h: int)
    requires
        0 <= w <= 0xffff,
        0 <= h <= 0xffff,
    ensures
        w * h <= 0xfffe0001,
{
    assert(w * h <= 0xfffe0001) by (nonlinear_arith)
        requires
            0 <= w <= 0xffff,
            0 <= h <= 0xffff,
    ;
}

/// A row-major index of an in-range coordinate stays below the grid size.
pub proof fn lemma_position_in_range(w: int, h: int, x: int, y: int)
    requires
        0 <= x < w,
        0 <= y < h,
    ensures
        0 <= y * w + x < w * h,
{
    assert(0 <= y * w + x < w * h) by (nonlinear_arith)
        requires
            0 <= x < w,
            0 <= y < h,
    ;
}

impl Generation {
    /// Well-formed: the grid holds exactly `width * height` cells.
    pub open spec fn wf(&self) -> bool {
        self.cells@.len() == self.width * self.height
    }

    /// The row-major index of `(x, y)`.
    pub open spec fn spec_position(&self, x: int, y: int) -> int {
        y * self.width + x
    }

    /// Whether `(x, y)` lies inside the grid.
    pub open spec fn in_bounds(&self, x: int, y: int) -> bool {
        0 <= x < self.width && 0 <= y < self.height
    }

    /// Whether the cell at `(x, y)` is alive.
    pub open spec fn alive_at(&self, x: int, y: int) -> bool {
        self.cells@[self.spec_position(x, y)].spec_alive()
    }

    /// Creates a new generation of `width * height` dead cells. The size
    /// product is widened before indexing, so every pair of dimensions is
    /// accepted.
    pub fn new(width: u16, height: u16) -> (generation: Self)
        ensures
            generation.width == width,
            generation.height == height,
            generation.wf(),
            forall|x: int, y: int|
                generation.in_bounds(x, y) ==> !generation.alive_at(x, y),
    {
        proof {
            lemma_grid_size_bound(width as int, height as int);
        }
        let size: usize = (width as usize) * (height as usize);
        let mut cells: Vec<Cell> = Vec::new();
        let mut i: usize = 0;
        while i < size
            invariant
                i <= size,
                cells@.len() == i,
                forall|k: int| 0 <= k < i ==> !cells@[k].spec_alive(),
            decreases size - i,
        {
            cells.push(Default::default());
            i = i + 1;
        }
        let generation = Generation { width, height, cells };
        proof {
            assert forall|x: int, y: int|
                generation.in_bounds(x, y) implies !generation.alive_at(x, y) by {
                lemma_position_in_range(width as int, height as int, x, y);
            }
        }
        generation
    }

    /// Read access to the cell at `(x, y)`. Out-of-range coordinates are a
    /// caller's error and are ruled out up front instead of wrapping silently.
    pub fn cell(&self, x: u16, y: u16) -> (cell: &Cell)
        requires
            self.wf(),
            x < self.width,
            y < self.height,
        ensures
            *cell == self.cells@[self.spec_position(x as int, y as int)],
            cell.spec_alive() == self.alive_at(x as int, y as int),
    {
        proof {
            lemma_grid_size_bound(self.width as int, self.height as int);
            lemma_position_in_range(self.width as int, self.height as int, x as int, y as int);
        }
        let position: usize = (y as usize) * (self.width as usize) + (x as usize);
        &self.cells[position]
    }

    /// Exclusive access to the cell at `(x, y)`: the grid afterwards is the
    /// old grid with exactly that slot replaced by whatever the caller leaves
    /// behind the returned reference. Bounds are checked as in [`Self::cell`].
    pub fn mut_cell(&mut self, x: u16, y: u16) -> (cell: &mut Cell)
        requires
            old(self).wf(),
            x < old(self).width,
            y < old(self).height,
        ensures
            *cell == old(self).cells@[old(self).spec_position(x as int, y as int)],
            final(self).width == old(self).width,
            final(self).height == old(self).height,
            final(self).cells@ == old(self).cells@.update(
                old(self).spec_position(x as int, y as int),
                *final(cell),
            ),
    {
        proof {
            lemma_grid_size_bound(self.width as int, self.height as int);
            lemma_position_in_range(self.width as int, self.height as int, x as int, y as int);
        }
        let position: usize = (y as usize) * (self.width as usize) + (x as usize);
        &mut self.cells[position]
    }

    /// Writes one ruleset outcome into the grid: spawns the cell at `(x, y)`
    /// if `live` holds, kills it otherwise. Every other cell keeps its state.
    pub(crate) fn set_alive(&mut self, x: u16, y: u16, live: bool)
        requires
            old(self).wf(),
            x < old(self).width,
            y < old(self).height,
        ensures
            final(self).wf(),
            final(self).width == old(self).width,
            final(self).height == old(self).height,
            final(self).alive_at(x as int, y as int) == live,
            forall|i: int, j: int|
                old(self).in_bounds(i, j) && !(i == x && j == y) ==> final(self).alive_at(i, j)
                    == old(self).alive_at(i, j),
    {
        if live {
            self.mut_cell(x, y).spawn();
        } else {
            self.mut_cell(x, y).kill();
        }
        proof {
            lemma_position_in_range(
                old(self).width as int,
                old(self).height as int,
                x as int,
                y as int,
            );
            assert forall|i: int, j: int|
                old(self).in_bounds(i, j) && !(i == x && j == y) implies self.alive_at(i, j)
                == old(self).alive_at(i, j) by {
                lemma_position_in_range(old(self).width as int, old(self).height as int, i, j);
                lemma_position_injective(old(self).width as int, i, j, x as int, y as int);
            }
        }
    }
}

} // verus!
