use vstd::prelude::*;

use crate::generation::Generation;

verus! {

/// Wraps a candidate coordinate into `[lower, upper]` by jumping to the
/// opposite bound exactly once. Meant only for candidates at most one step
/// out of range, as neighbor offsets are: a candidate further out would need
/// more than one jump and is returned at the wrong bound instead.
pub open spec fn spec_fix_coord(c: int, lower: int, upper: int) -> int {
    if c < lower {
        upper
    } else if c > upper {
        lower
    } else {
        c
    }
}

/// Whether the neighbor of `(x, y)` at offset `(dx, dy)` counts as live: the
/// wrapped neighbor coordinate must differ from the (unwrapped) center and
/// hold a live cell. Comparing the wrapped neighbor against the center keeps
/// the center excluded even on grids of width or height 1 or 2, where
/// wrapping can land an offset back on the center itself.
pub open spec fn neighbor_live(g: Generation, x: int, y: int, dx: int, dy: int) -> bool {
    let nx = spec_fix_coord(x + dx, 0, g.width - 1);
    let ny = spec_fix_coord(y + dy, 0, g.height - 1);
    !(nx == x && ny == y) && g.alive_at(nx, ny)
}

/// 1 if the neighbor at offset `(dx, dy)` counts as live, else 0.
pub open spec fn neighbor_count(g: Generation, x: int, y: int, dx: int, dy: int) -> nat {
    if neighbor_live(g, x, y, dx, dy) {
        1nat
    } else {
        0nat
    }
}

/// Number of live neighbors of `(x, y)`: the nine offsets of the 3-by-3
/// block around the center are wrapped toroidally and summed, the center
/// itself contributing nothing.
pub open spec fn spec_alive_neighbors(g: Generation, x: int, y: int) -> nat {
    neighbor_count(g, x, y, -1, -1) + neighbor_count(g, x, y, 0, -1)
        + neighbor_count(g, x, y, 1, -1) + neighbor_count(g, x, y, -1, 0)
        + neighbor_count(g, x, y, 0, 0) + neighbor_count(g, x, y, 1, 0)
        + neighbor_count(g, x, y, -1, 1) + neighbor_count(g, x, y, 0, 1)
        + neighbor_count(g, x, y, 1, 1)
}

/// The standard transition rule: a live cell with exactly 2 or 3 live
/// neighbors stays alive, a dead cell with exactly 3 becomes alive, every
/// other combination yields a dead cell.
pub open spec fn spec_should_live(g: Generation, x: int, y: int) -> bool {
    let anc = spec_alive_neighbors(g, x, y);
    (g.alive_at(x, y) && anc == 2) || anc == 3
}

/// The stateless Game of Life ruleset on a toroidal grid.
pub struct Ruleset;

impl Ruleset {
    /// Decides whether the cell at `(x, y)` is alive in the next generation.
    pub fn should_live(x: u16, y: u16, gen: &Generation) -> (live: bool)
        requires
            gen.wf(),
            x < gen.width,
            y < gen.height,
        ensures
            live == spec_should_live(*gen, x as int, y as int),
    {
        let anc: usize = Ruleset::alive_neighbors(x, y, gen);
        (gen.cell(x, y).is_alive() && anc == 2) || anc == 3
    }

    /// Counts the live neighbors of `(x, y)` among the eight surrounding
    /// offsets, each wrapped toroidally, the center excluded.
    pub fn alive_neighbors(x: u16, y: u16, gen: &Generation) -> (count: usize)
        requires
            gen.wf(),
            x < gen.width,
            y < gen.height,
        ensures
            count == spec_alive_neighbors(*gen, x as int, y as int),
    {
        let mut count: usize = 0;
        if Self::neighbor_alive(x, y, -1, -1, gen) {
            count = count + 1;
        }
        if Self::neighbor_alive(x, y, 0, -1, gen) {
            count = count + 1;
        }
        if Self::neighbor_alive(x, y, 1, -1, gen) {
            count = count + 1;
        }
        if Self::neighbor_alive(x, y, -1, 0, gen) {
            count = count + 1;
        }
        if Self::neighbor_alive(x, y, 0, 0, gen) {
            count = count + 1;
        }
        if Self::neighbor_alive(x, y, 1, 0, gen) {
            count = count + 1;
        }
        if Self::neighbor_alive(x, y, -1, 1, gen) {
            count = count + 1;
        }
        if Self::neighbor_alive(x, y, 0, 1, gen) {
            count = count + 1;
        }
        if Self::neighbor_alive(x, y, 1, 1, gen) {
            count = count + 1;
        }
        count
    }

    /// Whether the neighbor of `(x, y)` at offset `(dx, dy)` is a live cell
    /// other than the center itself.
    fn neighbor_alive(x: u16, y: u16, dx: i16, dy: i16, gen: &Generation) -> (live: bool)
        requires
            gen.wf(),
            x < gen.width,
            y < gen.height,
            -1 <= dx <= 1,
            -1 <= dy <= 1,
        ensures
            live == neighbor_live(*gen, x as int, y as int, dx as int, dy as int),
    {
        let fixed_x: u16 = if dx < 0 {
            if x == 0 {
                gen.width - 1
            } else {
                x - 1
            }
        } else if dx > 0 {
            if x == gen.width - 1 {
                0
            } else {
                x + 1
            }
        } else {
            x
        };
        let fixed_y: u16 = if dy < 0 {
            if y == 0 {
                gen.height - 1
            } else {
                y - 1
            }
        } else if dy > 0 {
            if y == gen.height - 1 {
                0
            } else {
                y + 1
            }
        } else {
            y
        };
        if fixed_x == x && fixed_y == y {
            false
        } else {
            gen.cell(fixed_x, fixed_y).is_alive()
        }
    }

    /// Wraps a signed candidate coordinate into `[lower, upper]` by jumping
    /// to the opposite bound exactly once. Only meant for candidates at most
    /// one step out of range (neighbor offsets are always plus or minus one);
    /// a candidate further out lands on the wrong bound rather than wrapping
    /// again.
    pub fn fix_coord(c: i16, lower: u16, upper: u16) -> (fixed: u16)
        ensures
            fixed == spec_fix_coord(c as int, lower as int, upper as int),
    {
        if (c as i32) < (lower as i32) {
            upper
        } else if (c as i32) > (upper as i32) {
            lower
        } else {
            c as u16
        }
    }
}

/// Neighbor counting excludes the center. In a generation whose only
/// live cell is `(x, y)` itself, the neighbor count at `(x, y)` is zero,
/// however the toroidal wrap folds the surrounding offsets back onto the
/// grid — even on grids so narrow that a wrapped offset lands on the center.
pub proof fn lemma_neighbors_exclude_center(g: Generation, x: int, y: int)
    requires
        g.wf(),
        g.in_bounds(x, y),
        forall|i: int, j: int| g.in_bounds(i, j) ==> (g.alive_at(i, j) <==> (i == x && j == y)),
    ensures
        spec_alive_neighbors(g, x, y) == 0,
{
    lemma_center_contributes_nothing(g, x, y, -1, -1);
    lemma_center_contributes_nothing(g, x, y, 0, -1);
    lemma_center_contributes_nothing(g, x, y, 1, -1);
    lemma_center_contributes_nothing(g, x, y, -1, 0);
    lemma_center_contributes_nothing(g, x, y, 0, 0);
    lemma_center_contributes_nothing(g, x, y, 1, 0);
    lemma_center_contributes_nothing(g, x, y, -1, 1);
    lemma_center_contributes_nothing(g, x, y, 0, 1);
    lemma_center_contributes_nothing(g, x, y, 1, 1);
}

/// One offset of the statement above: if the only live cell is the center,
/// the wrapped neighbor at `(dx, dy)` contributes nothing to the count.
proof fn lemma_center_contributes_nothing(g: Generation, x: int, y: int, dx: int, dy: int)
    requires
        g.wf(),
        g.in_bounds(x, y),
        -1 <= dx <= 1,
        -1 <= dy <= 1,
        forall|i: int, j: int| g.in_bounds(i, j) ==> (g.alive_at(i, j) <==> (i == x && j == y)),
    ensures
        neighbor_count(g, x, y, dx, dy) == 0,
{
    let nx = spec_fix_coord(x + dx, 0, g.width - 1);
    let ny = spec_fix_coord(y + dy, 0, g.height - 1);
    assert(g.in_bounds(nx, ny));
    if !(nx == x && ny == y) {
        assert(!g.alive_at(nx, ny));
    }
}

} // verus!
