//! The grid engine: a fixed-size toroidal grid of boolean cells and the
//! Game-of-Life update rule.
//!
//! Cells are indexed by (column, row), both zero-based. Neighbor lookups wrap
//! toroidally: the column left of column 0 is column `width - 1`, the row
//! above row 0 is row `height - 1`, and symmetrically at the opposite edges.

use vstd::prelude::*;

verus! {

/// One for a live cell, zero for a dead one; neighbor counts are sums of these.
pub open spec fn b2n(b: bool) -> nat {
    if b {
        1nat
    } else {
        0nat
    }
}

/// The index one step toward zero, wrapping to `n - 1` at the edge.
pub open spec fn wrap_dec(i: int, n: int) -> int {
    if i > 0 {
        i - 1
    } else {
        n - 1
    }
}

/// The index one step away from zero, wrapping to 0 at the edge.
pub open spec fn wrap_inc(i: int, n: int) -> int {
    if i < n - 1 {
        i + 1
    } else {
        0
    }
}

/// A well-formed grid: at least one column, at least one row, and every
/// column holds the same number of rows.
pub open spec fn grid_wf(g: Seq<Seq<bool>>) -> bool {
    &&& g.len() >= 1
    &&& g[0].len() >= 1
    &&& forall|i: int| 0 <= i < g.len() ==> (#[trigger] g[i]).len() == g[0].len()
}

/// Number of columns of the grid.
pub open spec fn grid_width(g: Seq<Seq<bool>>) -> int {
    g.len() as int
}

/// Number of rows of the grid.
pub open spec fn grid_height(g: Seq<Seq<bool>>) -> int {
    g[0].len() as int
}

/// Whether (col, row) lies inside the grid.
pub open spec fn in_bounds(g: Seq<Seq<bool>>, col: int, row: int) -> bool {
    0 <= col < grid_width(g) && 0 <= row < grid_height(g)
}

/// The number of live cells among the 8 toroidally-wrapped neighbors of
/// (i, j): the cells at the wrapped column to the left and right, the wrapped
/// row above and below, and the four diagonals between them.
pub open spec fn live_neighbors(g: Seq<Seq<bool>>, i: int, j: int) -> nat {
    let l = wrap_dec(i, grid_width(g));
    let r = wrap_inc(i, grid_width(g));
    let u = wrap_dec(j, grid_height(g));
    let d = wrap_inc(j, grid_height(g));
    b2n(g[l][j]) + b2n(g[l][u]) + b2n(g[i][u]) + b2n(g[r][u]) + b2n(g[r][j]) + b2n(g[r][d]) + b2n(
        g[i][d],
    ) + b2n(g[l][d])
}

/// The state of cell (i, j) in the next generation: a live cell survives with
/// 2 or 3 live neighbors, a dead cell is born with exactly 3, everything else
/// is dead.
pub open spec fn next_cell(g: Seq<Seq<bool>>, i: int, j: int) -> bool {
    let n = live_neighbors(g, i, j);
    if g[i][j] {
        2 <= n <= 3
    } else {
        n == 3
    }
}

/// The whole next generation: every cell is computed from the current grid,
/// so no cell's update can observe another cell's update.
pub open spec fn step_spec(g: Seq<Seq<bool>>) -> Seq<Seq<bool>> {
    Seq::new(
        g.len(),
        |i: int| Seq::new(g[0].len() as nat, |j: int| next_cell(g, i, j)),
    )
}

/// The all-dead grid of the given dimensions.
pub open spec fn dead_grid(w: int, h: int) -> Seq<Seq<bool>> {
    Seq::new(w as nat, |i: int| Seq::new(h as nat, |j: int| false))
}

/// Every in-range cell of the grid is dead.
pub open spec fn all_dead(g: Seq<Seq<bool>>) -> bool {
    forall|i: int, j: int| in_bounds(g, i, j) ==> !(#[trigger] g[i][j])
}

/// The grid with the single cell (col, row) flipped.
pub open spec fn toggled(g: Seq<Seq<bool>>, col: int, row: int) -> Seq<Seq<bool>> {
    g.update(col, g[col].update(row, !g[col][row]))
}

/// Owns the canonical cell state and computes successor generations.
pub struct GridEngine {
    /// Cell state, indexed `cells[col][row]`.
    pub cells: Vec<Vec<bool>>,
}

impl View for GridEngine {
    type V = Seq<Seq<bool>>;

    open spec fn view(&self) -> Seq<Seq<bool>> {
        self.cells@.map_values(|r: Vec<bool>| r@)
    }
}

impl GridEngine {
    /// The engine's grid is well-formed.
    pub open spec fn wf(&self) -> bool {
        grid_wf(self@)
    }

    /// A fresh engine: width columns by height rows, all cells dead.
    pub fn create(width: usize, height: usize) -> (g: GridEngine)
        requires
            width >= 1,
            height >= 1,
        ensures
            g.wf(),
            g@ == dead_grid(width as int, height as int),
    {
        let mut cells: Vec<Vec<bool>> = Vec::new();
        let mut i: usize = 0;
        while i < width
            invariant
                i <= width,
                height >= 1,
                cells@.len() == i,
                forall|a: int|
                    0 <= a < i ==> (#[trigger] cells@[a])@ == Seq::new(
                        height as nat,
                        |j: int| false,
                    ),
            decreases width - i,
        {
            let mut row: Vec<bool> = Vec::new();
            let mut j: usize = 0;
            while j < height
                invariant
                    j <= height,
                    row@.len() == j,
                    forall|b: int| 0 <= b < j ==> !(#[trigger] row@[b]),
                decreases height - j,
            {
                row.push(false);
                j = j + 1;
            }
            proof {
                assert(row@ =~= Seq::new(height as nat, |j: int| false));
            }
            cells.push(row);
            i = i + 1;
        }
        let g = GridEngine { cells };
        proof {
            assert(g@ =~~= dead_grid(width as int, height as int));
        }
        g
    }

    /// The grid's dimensions, (width, height).
    pub fn dimensions(&self) -> (d: (usize, usize))
        requires
            self.wf(),
        ensures
            d.0 == grid_width(self@),
            d.1 == grid_height(self@),
    {
        let w = self.cells.len();
        let h = self.cells[0].len();
        (w, h)
    }

    /// Read one cell. In-range reads return the cell's state; an out-of-range
    /// read is rejected with `None`, since it indicates a host-side
    /// coordinate-mapping fault rather than a normal event.
    pub fn cell(&self, col: usize, row: usize) -> (r: Option<bool>)
        requires
            self.wf(),
        ensures
            in_bounds(self@, col as int, row as int) ==> r == Some(self@[col as int][row as int]),
            !in_bounds(self@, col as int, row as int) ==> r == None::<bool>,
    {
        if col < self.cells.len() {
            if row < self.cells[col].len() {
                return Some(self.cells[col][row]);
            }
        }
        None
    }

    /// Flip one cell. An in-range toggle flips exactly that cell and returns
    /// true; an out-of-range toggle is rejected as a no-op and returns false.
    pub fn toggle_cell(&mut self, col: usize, row: usize) -> (ok: bool)
        requires
            old(self).wf(),
        ensures
            final(self).wf(),
            ok == in_bounds(old(self)@, col as int, row as int),
            ok ==> final(self)@ == toggled(old(self)@, col as int, row as int),
            !ok ==> final(self)@ == old(self)@,
    {
        let width = self.cells.len();
        if col >= width {
            return false;
        }
        let height = self.cells[0].len();
        if row >= height {
            return false;
        }
        proof {
            assert(self@[col as int].len() == grid_height(self@));
            assert(self.cells@[col as int]@ == self@[col as int]);
        }
        let cur = self.cells[col][row];
        self.cells[col].set(row, !cur);
        proof {
            assert(final(self)@ =~~= toggled(old(self)@, col as int, row as int));
        }
        true
    }

    /// Count the live cells among the 8 toroidally-wrapped neighbors of (i, j).
    fn count_neighbors(&self, i: usize, j: usize) -> (n: u8)
        requires
            self.wf(),
            in_bounds(self@, i as int, j as int),
        ensures
            n as nat == live_neighbors(self@, i as int, j as int),
    {
        let width = self.cells.len();
        let height = self.cells[0].len();
        let l = if i > 0 {
            i - 1
        } else {
            width - 1
        };
        let r = if i + 1 < width {
            i + 1
        } else {
            0
        };
        let u = if j > 0 {
            j - 1
        } else {
            height - 1
        };
        let d = if j + 1 < height {
            j + 1
        } else {
            0
        };
        proof {
            assert(forall|a: int|
                0 <= a < self@.len() ==> (#[trigger] self.cells@[a])@ == self@[a]);
            assert(self@[l as int].len() == grid_height(self@));
            assert(self@[r as int].len() == grid_height(self@));
            assert(self@[i as int].len() == grid_height(self@));
        }
        let mut n: u8 = 0;
        if self.cells[l][j] {
            n = n + 1;
        }
        if self.cells[l][u] {
            n = n + 1;
        }
        if self.cells[i][u] {
            n = n + 1;
        }
        if self.cells[r][u] {
            n = n + 1;
        }
        if self.cells[r][j] {
            n = n + 1;
        }
        if self.cells[r][d] {
            n = n + 1;
        }
        if self.cells[i][d] {
            n = n + 1;
        }
        if self.cells[l][d] {
            n = n + 1;
        }
        n
    }

    /// Replace the grid with the next generation. Every cell's neighbor count
    /// is taken against the grid as it stood before the call, so the update is
    /// simultaneous: the new generation is computed in full before it becomes
    /// visible.
    pub fn step(&mut self)
        requires
            old(self).wf(),
        ensures
            final(self).wf(),
            final(self)@ == step_spec(old(self)@),
    {
        let width = self.cells.len();
        let height = self.cells[0].len();
        let mut next: Vec<Vec<bool>> = Vec::new();
        let mut i: usize = 0;
        while i < width
            invariant
                *self == *old(self),
                self.wf(),
                width == grid_width(self@),
                height == grid_height(self@),
                i <= width,
                next@.len() == i,
                forall|a: int, b: int|
                    0 <= a < i && 0 <= b < height ==> (#[trigger] next@[a]@[b]) == next_cell(
                        self@,
                        a,
                        b,
                    ),
                forall|a: int| 0 <= a < i ==> (#[trigger] next@[a])@.len() == height,
            decreases width - i,
        {
            let mut row: Vec<bool> = Vec::new();
            let mut j: usize = 0;
            while j < height
                invariant
                    *self == *old(self),
                    self.wf(),
                    width == grid_width(self@),
                    height == grid_height(self@),
                    i < width,
                    j <= height,
                    row@.len() == j,
                    forall|b: int|
                        0 <= b < j ==> (#[trigger] row@[b]) == next_cell(self@, i as int, b),
                decreases height - j,
            {
                let count = self.count_neighbors(i, j);
                proof {
                    assert(self.cells@[i as int]@ == self@[i as int]);
                    assert(self@[i as int].len() == grid_height(self@));
                }
                let alive = self.cells[i][j];
                let born = if alive {
                    count == 2 || count == 3
                } else {
                    count == 3
                };
                row.push(born);
                j = j + 1;
            }
            next.push(row);
            i = i + 1;
        }
        self.cells = next;
        proof {
            assert(self@ =~~= step_spec(old(self)@));
        }
    }

    /// Reset every cell to dead; the dimensions stay as they are.
    pub fn clear(&mut self)
        requires
            old(self).wf(),
        ensures
            final(self).wf(),
            final(self)@ == dead_grid(grid_width(old(self)@), grid_height(old(self)@)),
    {
        let width = self.cells.len();
        let height = self.cells[0].len();
        let fresh = GridEngine::create(width, height);
        self.cells = fresh.cells;
    }
}

} // verus!
