//! The simulation controller: run/pause state, update rate, and the routing
//! of discrete user actions to the grid engine.
//!
//! The host calls `tick` once per frame with the elapsed wall-clock time in
//! milliseconds; the controller decides whether a generation fires. Input
//! events arrive as discrete action calls and mutate run state or delegate to
//! the grid.

use vstd::prelude::*;

use crate::grid::GridEngine;
use crate::grid::all_dead;
use crate::grid::dead_grid;
use crate::grid::grid_height;
use crate::grid::grid_wf;
use crate::grid::grid_width;
use crate::grid::in_bounds;
use crate::grid::step_spec;
use crate::grid::toggled;

verus! {

/// Grid width in cells, fixed at build time.
pub const GRID_WIDTH: usize = 40;

/// Grid height in cells, fixed at build time.
pub const GRID_HEIGHT: usize = 40;

/// Milliseconds in one second; the tick throttle's time base.
pub const MS_PER_SEC: u64 = 1000;

/// The elapsed-time accumulator after adding a frame's elapsed milliseconds,
/// saturating at the top of the counter instead of wrapping.
pub open spec fn accum_after(accum: u64, elapsed: u64) -> u64 {
    if accum + elapsed <= u64::MAX {
        (accum + elapsed) as u64
    } else {
        u64::MAX
    }
}

/// The throttle period in milliseconds for a given rate: a step fires once
/// the accumulator reaches `1000 / rate` (integer division; rates above 1000
/// generations per second step on every running tick).
pub open spec fn period_ms(rate: u32) -> int {
    1000int / (rate as int)
}

/// The rate after one decrease action: lowered by one, clamped at the floor
/// of 1.
pub open spec fn decreased_rate(rate: u32) -> u32 {
    if rate > 1 {
        (rate - 1) as u32
    } else {
        1u32
    }
}

/// Whether a tick fires a generation: the clock must be active and the
/// accumulated time must have reached the throttle period.
pub open spec fn tick_fires(running: bool, rate: u32, accum: u64, elapsed: u64) -> bool {
    running && accum_after(accum, elapsed) >= period_ms(rate)
}

/// The grid after one tick: stepped once when the tick fires, untouched
/// otherwise.
pub open spec fn tick_grid(
    g: Seq<Seq<bool>>,
    running: bool,
    rate: u32,
    accum: u64,
    elapsed: u64,
) -> Seq<Seq<bool>> {
    if tick_fires(running, rate, accum, elapsed) {
        step_spec(g)
    } else {
        g
    }
}

/// The accumulator after one tick: reset when the tick fires (any excess
/// beyond the period is discarded), otherwise grown by the elapsed time.
pub open spec fn tick_accum(running: bool, rate: u32, accum: u64, elapsed: u64) -> u64 {
    if tick_fires(running, rate, accum, elapsed) {
        0u64
    } else {
        accum_after(accum, elapsed)
    }
}

/// Gates when the grid engine steps and routes discrete user actions.
pub struct SimulationController {
    /// The owned grid engine; the host reads cells only through the
    /// controller's accessors.
    pub engine: GridEngine,
    /// Whether the generation clock is active.
    pub running: bool,
    /// Update rate in generations per second; never below 1, since the
    /// throttle period is `1/rate` of a second.
    pub rate: u32,
    /// Milliseconds accumulated since the last fired step.
    pub accum_ms: u64,
}

impl SimulationController {
    /// The controller is well-formed: its grid is, and the rate respects the
    /// floor of 1 generation per second.
    pub open spec fn wf(&self) -> bool {
        grid_wf(self.engine@) && self.rate >= 1
    }

    /// A fresh controller: paused, rate 1, owning an all-dead grid of the
    /// build-time dimensions.
    pub fn create() -> (c: SimulationController)
        ensures
            c.wf(),
            !c.running,
            c.rate == 1,
            c.accum_ms == 0,
            c.engine@ == dead_grid(GRID_WIDTH as int, GRID_HEIGHT as int),
    {
        SimulationController {
            engine: GridEngine::create(GRID_WIDTH, GRID_HEIGHT),
            running: false,
            rate: 1,
            accum_ms: 0,
        }
    }

    /// Advance the clock by one frame's elapsed milliseconds. If the
    /// simulation is running and the accumulated time has reached the throttle
    /// period, exactly one generation fires and the accumulator resets; any
    /// excess beyond the period is discarded, never carried forward as
    /// catch-up steps. A paused controller only accumulates: the grid, the
    /// run state and the rate are untouched.
    pub fn tick(&mut self, elapsed_ms: u64) -> (stepped: bool)
        requires
            old(self).wf(),
        ensures
            final(self).wf(),
            final(self).running == old(self).running,
            final(self).rate == old(self).rate,
            stepped == tick_fires(old(self).running, old(self).rate, old(self).accum_ms, elapsed_ms),
            final(self).engine@ == tick_grid(
                old(self).engine@,
                old(self).running,
                old(self).rate,
                old(self).accum_ms,
                elapsed_ms,
            ),
            final(self).accum_ms == tick_accum(
                old(self).running,
                old(self).rate,
                old(self).accum_ms,
                elapsed_ms,
            ),
            !old(self).running ==> final(self).engine@ == old(self).engine@,
    {
        let acc = if elapsed_ms <= u64::MAX - self.accum_ms {
            self.accum_ms + elapsed_ms
        } else {
            u64::MAX
        };
        self.accum_ms = acc;
        let period = MS_PER_SEC / (self.rate as u64);
        if self.running && acc >= period {
            self.engine.step();
            self.accum_ms = 0;
            true
        } else {
            false
        }
    }

    /// Flip between running and paused; nothing else changes.
    pub fn toggle_running(&mut self)
        requires
            old(self).wf(),
        ensures
            final(self).wf(),
            final(self).running == !old(self).running,
            final(self).rate == old(self).rate,
            final(self).accum_ms == old(self).accum_ms,
            final(self).engine@ == old(self).engine@,
    {
        self.running = !self.running;
    }

    /// Raise the rate by one generation per second, saturating at the top of
    /// the counter; run state and grid are untouched.
    pub fn increase_rate(&mut self)
        requires
            old(self).wf(),
        ensures
            final(self).wf(),
            final(self).rate == if old(self).rate < u32::MAX {
                (old(self).rate + 1) as u32
            } else {
                u32::MAX
            },
            final(self).running == old(self).running,
            final(self).accum_ms == old(self).accum_ms,
            final(self).engine@ == old(self).engine@,
    {
        if self.rate < u32::MAX {
            self.rate = self.rate + 1;
        }
    }

    /// Lower the rate by one generation per second, clamped at the floor of
    /// 1: no sequence of calls can bring the rate below 1. Run state and grid
    /// are untouched.
    pub fn decrease_rate(&mut self)
        requires
            old(self).wf(),
        ensures
            final(self).wf(),
            final(self).rate == decreased_rate(old(self).rate),
            final(self).rate >= 1,
            final(self).running == old(self).running,
            final(self).accum_ms == old(self).accum_ms,
            final(self).engine@ == old(self).engine@,
    {
        if self.rate > 1 {
            self.rate = self.rate - 1;
        }
    }

    /// Reset every cell to dead, whatever the run state; run state, rate and
    /// accumulator are untouched.
    pub fn clear_grid(&mut self)
        requires
            old(self).wf(),
        ensures
            final(self).wf(),
            final(self).engine@ == dead_grid(
                grid_width(old(self).engine@),
                grid_height(old(self).engine@),
            ),
            all_dead(final(self).engine@),
            final(self).running == old(self).running,
            final(self).rate == old(self).rate,
            final(self).accum_ms == old(self).accum_ms,
    {
        self.engine.clear();
    }

    /// Map a window pixel coordinate to a cell by floor division by the cell
    /// size and flip that cell. A click that falls outside the grid is
    /// rejected as a no-op and returns false; nothing else changes either way.
    pub fn handle_cell_click(&mut self, x: usize, y: usize, cell_size: (usize, usize)) -> (ok: bool)
        requires
            old(self).wf(),
            cell_size.0 >= 1,
            cell_size.1 >= 1,
        ensures
            final(self).wf(),
            ok == in_bounds(
                old(self).engine@,
                x as int / cell_size.0 as int,
                y as int / cell_size.1 as int,
            ),
            ok ==> final(self).engine@ == toggled(
                old(self).engine@,
                x as int / cell_size.0 as int,
                y as int / cell_size.1 as int,
            ),
            !ok ==> final(self).engine@ == old(self).engine@,
            final(self).running == old(self).running,
            final(self).rate == old(self).rate,
            final(self).accum_ms == old(self).accum_ms,
    {
        let col = x / cell_size.0;
        let row = y / cell_size.1;
        self.engine.toggle_cell(col, row)
    }

    /// Read one cell of the owned grid, for rendering; out-of-range reads are
    /// rejected with `None`.
    pub fn cell(&self, col: usize, row: usize) -> (r: Option<bool>)
        requires
            self.wf(),
        ensures
            in_bounds(self.engine@, col as int, row as int) ==> r == Some(
                self.engine@[col as int][row as int],
            ),
            !in_bounds(self.engine@, col as int, row as int) ==> r == None::<bool>,
    {
        self.engine.cell(col, row)
    }

    /// The owned grid's dimensions, (width, height).
    pub fn dimensions(&self) -> (d: (usize, usize))
        requires
            self.wf(),
        ensures
            d.0 == grid_width(self.engine@),
            d.1 == grid_height(self.engine@),
    {
        self.engine.dimensions()
    }

    /// Whether the generation clock is active.
    pub fn is_running(&self) -> (r: bool)
        requires
            self.wf(),
        ensures
            r == self.running,
    {
        self.running
    }

    /// The current update rate in generations per second.
    pub fn current_rate(&self) -> (r: u32)
        requires
            self.wf(),
        ensures
            r == self.rate,
    {
        self.rate
    }
}

} // verus!
