//! The library's general laws, each proved once and for all over the spec
//! functions that the public contracts use.

use vstd::prelude::*;

use crate::grid::all_dead;
use crate::grid::dead_grid;
use crate::grid::grid_height;
use crate::grid::grid_wf;
use crate::grid::grid_width;
use crate::grid::in_bounds;
use crate::grid::live_neighbors;
use crate::grid::next_cell;
use crate::grid::step_spec;
use crate::grid::toggled;
use crate::sim::decreased_rate;
use crate::sim::tick_accum;
use crate::sim::tick_grid;

verus! {

/// The grid after a whole sequence of ticks, each fed the next elapsed time,
/// with the run state and rate held fixed (no action calls in between).
pub open spec fn grid_after_ticks(
    g: Seq<Seq<bool>>,
    running: bool,
    rate: u32,
    accum: u64,
    elapsed: Seq<u64>,
) -> Seq<Seq<bool>>
    decreases elapsed.len(),
{
    if elapsed.len() == 0 {
        g
    } else {
        grid_after_ticks(
            tick_grid(g, running, rate, accum, elapsed[0]),
            running,
            rate,
            tick_accum(running, rate, accum, elapsed[0]),
            elapsed.skip(1),
        )
    }
}

/// Pause freezes the state: while the clock is inactive, no number of ticks,
/// whatever their elapsed times, changes the grid.
pub proof fn lemma_pause_freezes_grid(g: Seq<Seq<bool>>, rate: u32, accum: u64, elapsed: Seq<u64>)
    ensures
        grid_after_ticks(g, false, rate, accum, elapsed) == g,
    decreases elapsed.len(),
{
    if elapsed.len() > 0 {
        lemma_pause_freezes_grid(g, rate, tick_accum(false, rate, accum, elapsed[0]), elapsed.skip(1));
    }
}

/// Wraparound: the far corner (width-1, height-1) is adjacent to (0, 0).
/// Bringing that one cell to life raises the neighbor count at the origin by
/// exactly one, on any two grids that differ in that cell alone.
pub proof fn lemma_wraparound_corner_adjacent(g1: Seq<Seq<bool>>, g2: Seq<Seq<bool>>)
    requires
        grid_wf(g1),
        grid_wf(g2),
        grid_width(g1) == grid_width(g2),
        grid_height(g1) == grid_height(g2),
        grid_width(g1) >= 3,
        grid_height(g1) >= 3,
        !g1[grid_width(g1) - 1][grid_height(g1) - 1],
        g2[grid_width(g1) - 1][grid_height(g1) - 1],
        forall|i: int, j: int|
            in_bounds(g1, i, j) && !(i == grid_width(g1) - 1 && j == grid_height(g1) - 1)
                ==> #[trigger] g1[i][j] == g2[i][j],
    ensures
        live_neighbors(g2, 0, 0) == live_neighbors(g1, 0, 0) + 1,
{
}

/// Birth rule: a dead cell is live in the next generation exactly when it has
/// 3 live neighbors; with 2, or with 4 or more, it stays dead.
pub proof fn lemma_birth_rule(g: Seq<Seq<bool>>, i: int, j: int)
    requires
        grid_wf(g),
        in_bounds(g, i, j),
        !g[i][j],
    ensures
        step_spec(g)[i][j] == (live_neighbors(g, i, j) == 3),
{
}

/// Death rule: a live cell dies in the next generation exactly when it has
/// fewer than 2 or more than 3 live neighbors; with exactly 2 or 3 it stays
/// live.
pub proof fn lemma_death_rule(g: Seq<Seq<bool>>, i: int, j: int)
    requires
        grid_wf(g),
        in_bounds(g, i, j),
        g[i][j],
    ensures
        step_spec(g)[i][j] == (2 <= live_neighbors(g, i, j) <= 3),
{
}

/// Idempotent clear: every in-range cell of a cleared grid reads dead,
/// whatever the run state, and clearing again changes nothing.
pub proof fn lemma_cleared_grid_dead(w: int, h: int)
    requires
        w >= 1,
        h >= 1,
    ensures
        all_dead(dead_grid(w, h)),
        dead_grid(grid_width(dead_grid(w, h)), grid_height(dead_grid(w, h))) == dead_grid(w, h),
{
}

/// The rate after a run of n decrease actions with nothing in between.
pub open spec fn rate_after_decreases(rate: u32, n: nat) -> u32
    decreases n,
{
    if n == 0 {
        rate
    } else {
        rate_after_decreases(decreased_rate(rate), (n - 1) as nat)
    }
}

/// Rate floor: starting from any valid rate, no number of decrease actions
/// brings the rate below 1.
pub proof fn lemma_rate_floor(rate: u32, n: nat)
    requires
        rate >= 1,
    ensures
        rate_after_decreases(rate, n) >= 1,
    decreases n,
{
    if n > 0 {
        lemma_rate_floor(decreased_rate(rate), (n - 1) as nat);
    }
}

/// A 2×2 block of live cells whose lowest-index corner is (c, r); every other
/// cell is dead.
pub open spec fn block_grid(w: int, h: int, c: int, r: int) -> Seq<Seq<bool>> {
    Seq::new(w as nat, |i: int| Seq::new(h as nat, |j: int| c <= i <= c + 1 && r <= j <= r + 1))
}

/// Still life: a 2×2 block is unchanged by a step. Each block cell has
/// exactly 3 live neighbors and survives; no dead cell reaches 3.
pub proof fn lemma_block_still_life(w: int, h: int, c: int, r: int)
    requires
        w >= 3,
        h >= 3,
        0 <= c,
        c + 1 < w,
        0 <= r,
        r + 1 < h,
    ensures
        step_spec(block_grid(w, h, c, r)) == block_grid(w, h, c, r),
{
    let g = block_grid(w, h, c, r);
    assert(forall|i: int, j: int| 0 <= i < w && 0 <= j < h ==> next_cell(g, i, j) == g[i][j]);
    assert(step_spec(g) =~~= g);
}

/// A horizontal line of 3 live cells in row r, columns c to c+2; every other
/// cell is dead.
pub open spec fn blinker_h(w: int, h: int, c: int, r: int) -> Seq<Seq<bool>> {
    Seq::new(w as nat, |i: int| Seq::new(h as nat, |j: int| j == r && c <= i <= c + 2))
}

/// A vertical line of 3 live cells in column c+1, rows r-1 to r+1; every
/// other cell is dead. This is the other phase of the horizontal blinker.
pub open spec fn blinker_v(w: int, h: int, c: int, r: int) -> Seq<Seq<bool>> {
    Seq::new(w as nat, |i: int| Seq::new(h as nat, |j: int| i == c + 1 && r - 1 <= j <= r + 1))
}

/// One step turns the horizontal blinker into the vertical one.
pub proof fn lemma_blinker_h_to_v(w: int, h: int, c: int, r: int)
    requires
        w >= 4,
        h >= 4,
        0 <= c,
        c + 2 < w,
        1 <= r,
        r + 1 < h,
    ensures
        step_spec(blinker_h(w, h, c, r)) == blinker_v(w, h, c, r),
{
    let g = blinker_h(w, h, c, r);
    let v = blinker_v(w, h, c, r);
    assert(forall|i: int, j: int| 0 <= i < w && 0 <= j < h ==> next_cell(g, i, j) == v[i][j]);
    assert(step_spec(g) =~~= v);
}

/// One step turns the vertical blinker back into the horizontal one.
pub proof fn lemma_blinker_v_to_h(w: int, h: int, c: int, r: int)
    requires
        w >= 4,
        h >= 4,
        0 <= c,
        c + 2 < w,
        1 <= r,
        r + 1 < h,
    ensures
        step_spec(blinker_v(w, h, c, r)) == blinker_h(w, h, c, r),
{
    let g = blinker_v(w, h, c, r);
    let hh = blinker_h(w, h, c, r);
    assert(forall|i: int, j: int| 0 <= i < w && 0 <= j < h ==> next_cell(g, i, j) == hh[i][j]);
    assert(step_spec(g) =~~= hh);
}

/// Blinker oscillation: the 3-cell line alternates between its horizontal
/// and vertical phases, so two steps restore it exactly (period 2).
pub proof fn lemma_blinker_period_two(w: int, h: int, c: int, r: int)
    requires
        w >= 4,
        h >= 4,
        0 <= c,
        c + 2 < w,
        1 <= r,
        r + 1 < h,
    ensures
        step_spec(step_spec(blinker_h(w, h, c, r))) == blinker_h(w, h, c, r),
{
    lemma_blinker_h_to_v(w, h, c, r);
    lemma_blinker_v_to_h(w, h, c, r);
}

/// Toggle roundtrip: flipping the same cell twice, with no step between,
/// restores the grid exactly.
pub proof fn lemma_toggle_roundtrip(g: Seq<Seq<bool>>, col: int, row: int)
    requires
        grid_wf(g),
        in_bounds(g, col, row),
    ensures
        toggled(toggled(g, col, row), col, row) == g,
{
    let g1 = toggled(g, col, row);
    assert(g1[col][row] == !g[col][row]);
    assert(toggled(g1, col, row)[col] =~= g[col]);
    assert(toggled(g1, col, row) =~~= g);
}

} // verus!
