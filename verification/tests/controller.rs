use game_of_life::sim::SimulationController;

fn live_cells(c: &SimulationController) -> Vec<(usize, usize)> {
    let (w, h) = c.dimensions();
    let mut out = Vec::new();
    for i in 0..w {
        for j in 0..h {
            if c.cell(i, j) == Some(true) {
                out.push((i, j));
            }
        }
    }
    out
}

#[test]
fn create_starts_paused_at_rate_one() {
    let c = SimulationController::create();
    assert!(!c.is_running());
    assert_eq!(c.current_rate(), 1);
    assert_eq!(c.dimensions(), (40, 40));
    assert!(live_cells(&c).is_empty());
}

#[test]
fn rate_never_drops_below_one() {
    let mut c = SimulationController::create();
    c.decrease_rate();
    c.decrease_rate();
    c.decrease_rate();
    assert_eq!(c.current_rate(), 1);
}

#[test]
fn rate_moves_up_and_down() {
    let mut c = SimulationController::create();
    c.increase_rate();
    c.increase_rate();
    assert_eq!(c.current_rate(), 3);
    c.decrease_rate();
    assert_eq!(c.current_rate(), 2);
}

#[test]
fn toggle_running_flips_each_time() {
    let mut c = SimulationController::create();
    c.toggle_running();
    assert!(c.is_running());
    c.toggle_running();
    assert!(!c.is_running());
}

#[test]
fn paused_ticks_never_change_the_grid() {
    let mut c = SimulationController::create();
    assert!(c.handle_cell_click(25, 45, (20, 20)));
    assert!(c.handle_cell_click(45, 45, (20, 20)));
    let before = live_cells(&c);
    for _ in 0..5 {
        assert!(!c.tick(100_000));
    }
    assert_eq!(live_cells(&c), before);
    assert!(!c.is_running());
}

#[test]
fn running_tick_steps_once_per_period() {
    let mut c = SimulationController::create();
    // A blinker: after one step it turns vertical.
    assert!(c.handle_cell_click(30, 50, (20, 20)));
    assert!(c.handle_cell_click(50, 50, (20, 20)));
    assert!(c.handle_cell_click(70, 50, (20, 20)));
    c.toggle_running();
    assert!(c.tick(1000));
    assert_eq!(live_cells(&c), vec![(2, 1), (2, 2), (2, 3)]);
    // The accumulator was reset: a shorter tick does not step.
    assert!(!c.tick(999));
    assert_eq!(live_cells(&c), vec![(2, 1), (2, 2), (2, 3)]);
    assert!(c.tick(1));
    assert_eq!(live_cells(&c), vec![(1, 2), (2, 2), (3, 2)]);
}

#[test]
fn late_tick_discards_excess_time() {
    let mut c = SimulationController::create();
    assert!(c.handle_cell_click(30, 50, (20, 20)));
    assert!(c.handle_cell_click(50, 50, (20, 20)));
    assert!(c.handle_cell_click(70, 50, (20, 20)));
    c.toggle_running();
    // Five periods elapse, but at most one generation fires per tick and the
    // excess is dropped: the blinker is in its vertical phase, not caught up.
    assert!(c.tick(5000));
    assert_eq!(live_cells(&c), vec![(2, 1), (2, 2), (2, 3)]);
    assert!(!c.tick(999));
}

#[test]
fn higher_rate_shortens_the_period() {
    let mut c = SimulationController::create();
    assert!(c.handle_cell_click(30, 50, (20, 20)));
    c.increase_rate();
    assert_eq!(c.current_rate(), 2);
    c.toggle_running();
    assert!(!c.tick(499));
    assert!(c.tick(1));
    assert!(live_cells(&c).is_empty());
}

#[test]
fn clear_grid_keeps_run_state_and_rate() {
    let mut c = SimulationController::create();
    assert!(c.handle_cell_click(25, 45, (20, 20)));
    c.toggle_running();
    c.increase_rate();
    c.increase_rate();
    c.clear_grid();
    assert!(live_cells(&c).is_empty());
    assert!(c.is_running());
    assert_eq!(c.current_rate(), 3);
}

#[test]
fn clear_grid_while_paused_clears_too() {
    let mut c = SimulationController::create();
    assert!(c.handle_cell_click(0, 0, (20, 20)));
    c.clear_grid();
    assert!(live_cells(&c).is_empty());
    assert!(!c.is_running());
}

#[test]
fn click_maps_pixels_to_cells_by_floor_division() {
    let mut c = SimulationController::create();
    assert!(c.handle_cell_click(25, 45, (20, 20)));
    assert_eq!(live_cells(&c), vec![(1, 2)]);
    // The opposite corner of the same cell maps to the same (col, row).
    assert!(c.handle_cell_click(39, 59, (20, 20)));
    assert!(live_cells(&c).is_empty());
}

#[test]
fn click_on_the_window_edge_is_rejected() {
    let mut c = SimulationController::create();
    // Column 40 of a 40-column grid: exactly on the far edge.
    assert!(!c.handle_cell_click(800, 0, (20, 20)));
    assert!(!c.handle_cell_click(0, 800, (20, 20)));
    assert!(live_cells(&c).is_empty());
}
