use rbmk_1000_sim::config::{
    GRID_COLS, GRID_ROWS, MAX_NEUTRONS, NUM_ABSORPTION_RODS, WATER_BOIL_THRESHOLD,
    WATER_HEAT_THRESHOLD,
};
use rbmk_1000_sim::config::SPONTANEOUS_SITE_ATTEMPTS;
use rbmk_1000_sim::grid::{spontaneous_probes, CellState, Encounter, Grid, WaterState};
use rbmk_1000_sim::neutron::{fission_yield, live_counts, NeutronSpeed};
use rbmk_1000_sim::scenario::WaterAction;

const WARM: f32 = 5.0;
const VAPOR: f32 = 8.0;

fn absorber_cells(grid: &Grid<f32>) -> usize {
    grid.cells
        .iter()
        .flatten()
        .filter(|&&c| c == CellState::AbsorptionRod)
        .count()
}

#[test]
fn fast_neutron_in_graphite_is_moderated() {
    let mut grid: Grid<f32> = Grid::new();
    let e = grid.encounter(5, 10, NeutronSpeed::Fast, true, WARM, VAPOR);
    assert_eq!(e, Encounter::Moderated);
    assert_eq!(grid.cells[5][10], CellState::ModeratorRod);
    // A thermal neutron in graphite is not stopped.
    let e = grid.encounter(5, 10, NeutronSpeed::Thermal, true, WARM, VAPOR);
    assert_eq!(e, Encounter::Passed);
}

#[test]
fn test_rod_withdrawal_increases_fuel_cells() {
    let mut grid: Grid<f32> = Grid::new();

    // Start with rods fully inserted
    grid.sync_rods(&[GRID_ROWS; NUM_ABSORPTION_RODS]);
    let rod_cells_before = absorber_cells(&grid);
    assert!(rod_cells_before > 0);

    // Withdraw rods partially
    grid.sync_rods(&[10; NUM_ABSORPTION_RODS]);
    let rod_cells_after = absorber_cells(&grid);

    // Fewer rod cells = more fuel cells exposed
    assert!(rod_cells_after < rod_cells_before);
}

#[test]
fn rod_sync_places_boron_and_restores_fuel() {
    let mut grid: Grid<f32> = Grid::new();
    grid.sync_rods(&[20, 0, 3, 25, 1]);
    assert_eq!(absorber_cells(&grid), 20 + 0 + 3 + 20 + 1);
    assert_eq!(grid.cells[0][5], CellState::AbsorptionRod);
    assert_eq!(grid.water[0][5], WaterState::NoWater);
    assert_eq!(grid.cells[19][35], CellState::AbsorptionRod);
    assert_eq!(grid.cells[3][25], CellState::Uranium235Active);
    assert_eq!(grid.cells[0][15], CellState::Uranium235Active);

    // Syncing again to the same depths changes nothing.
    let cells = grid.cells;
    let water = grid.water;
    grid.sync_rods(&[20, 0, 3, 25, 1]);
    assert_eq!(grid.cells, cells);
    assert_eq!(grid.water, water);

    // Withdrawal lets cool water back in.
    grid.sync_rods(&[2, 0, 0, 0, 0]);
    assert_eq!(grid.cells[5][5], CellState::Uranium235Active);
    assert_eq!(grid.water[5][5], WaterState::Cool { neutron_hits: 0 });
    assert_eq!(grid.cells[1][5], CellState::AbsorptionRod);
    assert_eq!(absorber_cells(&grid), 2);
}

#[test]
fn thermal_neutron_absorbed_by_rod_fast_passes() {
    let mut grid: Grid<f32> = Grid::new();
    grid.sync_rods(&[GRID_ROWS; NUM_ABSORPTION_RODS]);
    assert_eq!(grid.cells[0][5], CellState::AbsorptionRod);
    assert_eq!(
        grid.encounter(0, 5, NeutronSpeed::Thermal, false, WARM, VAPOR),
        Encounter::Absorbed
    );
    assert_eq!(
        grid.encounter(0, 5, NeutronSpeed::Fast, true, WARM, VAPOR),
        Encounter::Passed
    );
}

#[test]
fn thermal_neutron_burns_xenon() {
    let mut grid: Grid<f32> = Grid::new();
    grid.cells[3][3] = CellState::Xenon135 { decay_timer: 45.0 };
    let e = grid.encounter(3, 3, NeutronSpeed::Thermal, false, WARM, VAPOR);
    assert_eq!(e, Encounter::Absorbed);
    assert_eq!(grid.cells[3][3], CellState::Uranium235Active);
    // Water untouched by an absorbed neutron.
    assert_eq!(grid.water[3][3], WaterState::Cool { neutron_hits: 0 });
}

#[test]
fn fast_neutron_heats_water_over_xenon_and_fuel() {
    let mut grid: Grid<f32> = Grid::new();
    grid.cells[3][3] = CellState::Xenon135 { decay_timer: 45.0 };
    let e = grid.encounter(3, 3, NeutronSpeed::Fast, true, WARM, VAPOR);
    assert_eq!(e, Encounter::Passed);
    assert_eq!(grid.cells[3][3], CellState::Xenon135 { decay_timer: 45.0 });
    assert_eq!(grid.water[3][3], WaterState::Cool { neutron_hits: 1 });

    let e = grid.encounter(5, 3, NeutronSpeed::Fast, true, WARM, VAPOR);
    assert_eq!(e, Encounter::Passed);
    assert_eq!(grid.cells[5][3], CellState::Uranium235Active);
}

#[test]
fn water_absorbs_when_drawn_and_heats_otherwise() {
    let mut grid: Grid<f32> = Grid::new();
    assert!(grid.needs_water_draw(5, 3, NeutronSpeed::Thermal));
    assert!(!grid.needs_water_draw(5, 3, NeutronSpeed::Fast));
    assert!(!grid.needs_water_draw(5, 10, NeutronSpeed::Thermal));
    assert_eq!(
        grid.encounter(5, 3, NeutronSpeed::Thermal, true, WARM, VAPOR),
        Encounter::Absorbed
    );
    assert_eq!(grid.water[5][3], WaterState::Cool { neutron_hits: 0 });
    assert_eq!(
        grid.encounter(5, 3, NeutronSpeed::Thermal, false, WARM, VAPOR),
        Encounter::Fissile { void: false }
    );
    assert_eq!(grid.water[5][3], WaterState::Cool { neutron_hits: 1 });
}

#[test]
fn void_coefficient_no_absorption_in_vapor() {
    let mut grid: Grid<f32> = Grid::new();
    grid.water[5][3] = WaterState::Vapor { return_timer: 100.0 };
    assert!(!grid.needs_water_draw(5, 3, NeutronSpeed::Thermal));
    assert_eq!(
        grid.encounter(5, 3, NeutronSpeed::Thermal, true, WARM, VAPOR),
        Encounter::Fissile { void: true }
    );
    assert_eq!(grid.water[5][3], WaterState::Vapor { return_timer: 100.0 });
}

#[test]
fn dry_fuel_is_fissile_without_void() {
    let mut grid: Grid<f32> = Grid::new();
    grid.water[5][3] = WaterState::NoWater;
    assert_eq!(
        grid.encounter(5, 3, NeutronSpeed::Thermal, true, WARM, VAPOR),
        Encounter::Fissile { void: false }
    );
}

#[test]
fn heating_follows_thresholds() {
    let mut grid: Grid<f32> = Grid::new();
    grid.water[5][3] = WaterState::Cool { neutron_hits: WATER_HEAT_THRESHOLD - 1 };
    grid.encounter(5, 3, NeutronSpeed::Fast, false, WARM, VAPOR);
    assert_eq!(
        grid.water[5][3],
        WaterState::Warm { neutron_hits: WATER_HEAT_THRESHOLD, cool_timer: WARM }
    );
    grid.water[5][3] = WaterState::Warm { neutron_hits: WATER_BOIL_THRESHOLD - 1, cool_timer: 1.0 };
    // The boiling hit is reported as void right away.
    assert_eq!(
        grid.encounter(5, 3, NeutronSpeed::Thermal, false, WARM, VAPOR),
        Encounter::Fissile { void: true }
    );
    assert_eq!(grid.water[5][3], WaterState::Vapor { return_timer: VAPOR });
    grid.water[6][3] = WaterState::Cool { neutron_hits: WATER_BOIL_THRESHOLD - 1 };
    grid.encounter(6, 3, NeutronSpeed::Fast, false, WARM, VAPOR);
    assert_eq!(grid.water[6][3], WaterState::Vapor { return_timer: VAPOR });
}

#[test]
fn fuel_lifecycle_transitions() {
    let mut grid: Grid<f32> = Grid::new();
    grid.ignite(5, 3, 10.0);
    assert_eq!(grid.cells[5][3], CellState::Uranium235Inactive { reactivation_timer: 10.0 });
    grid.expire_cell(5, 3, false, 45.0);
    assert_eq!(grid.cells[5][3], CellState::Uranium235Active);
    grid.ignite(5, 3, 10.0);
    grid.expire_cell(5, 3, true, 45.0);
    assert_eq!(grid.cells[5][3], CellState::Xenon135 { decay_timer: 45.0 });
    grid.expire_cell(5, 3, true, 45.0);
    assert_eq!(grid.cells[5][3], CellState::Uranium235Active);

    assert!(grid.xenon_can_form(5, 3));
    assert!(!grid.xenon_can_form(5, 10));
    grid.form_xenon(5, 3, 45.0);
    assert_eq!(grid.cells[5][3], CellState::Xenon135 { decay_timer: 45.0 });
    assert!(!grid.xenon_can_form(5, 3));
}

#[test]
fn water_cycle_back_to_cool() {
    let mut grid: Grid<f32> = Grid::new();
    grid.water[5][3] = WaterState::Vapor { return_timer: 0.0 };
    assert!(grid.coolant_recovering(5, 3));
    grid.condense(5, 3, WARM);
    assert_eq!(grid.water[5][3], WaterState::Warm { neutron_hits: 0, cool_timer: WARM });
    assert!(grid.coolant_recovering(5, 3));
    grid.condense(5, 3, WARM);
    assert_eq!(grid.water[5][3], WaterState::Cool { neutron_hits: 0 });
    assert!(!grid.coolant_recovering(5, 3));
    grid.water[5][3] = WaterState::Warm { neutron_hits: WATER_HEAT_THRESHOLD, cool_timer: 0.0 };
    assert!(!grid.coolant_recovering(5, 3));
}

#[test]
fn water_region_skips_graphite_and_rod_channels() {
    let mut grid: Grid<f32> = Grid::new();
    grid.apply_water_state(0, GRID_COLS, WaterAction::Vapor, WARM, VAPOR);
    let census = grid.census();
    assert_eq!(census.vapor, GRID_ROWS * (GRID_COLS - 6 - 5));
    assert_eq!(census.cool, GRID_ROWS * 5);
    assert_eq!(census.warm, 0);
    assert_eq!(grid.water[0][10], WaterState::NoWater);
    assert_eq!(grid.water[0][5], WaterState::Cool { neutron_hits: 0 });

    grid.apply_water_state(1, 4, WaterAction::Warm, WARM, VAPOR);
    assert_eq!(
        grid.water[7][2],
        WaterState::Warm { neutron_hits: WATER_HEAT_THRESHOLD, cool_timer: WARM }
    );
    assert_eq!(grid.water[7][4], WaterState::Vapor { return_timer: VAPOR });
    assert_eq!(grid.census().warm, GRID_ROWS * 3);

    // An end past the grid is cut at the edge; an empty range does nothing.
    grid.apply_water_state(41, 1000, WaterAction::Cool, WARM, VAPOR);
    assert_eq!(grid.water[0][48], WaterState::Cool { neutron_hits: 0 });
    let before = grid.water;
    grid.apply_water_state(30, 20, WaterAction::Warm, WARM, VAPOR);
    assert_eq!(grid.water, before);
}

#[test]
fn census_counts_xenon_and_water() {
    let mut grid: Grid<f32> = Grid::new();
    let c = grid.census();
    assert_eq!(c.xenon, 0);
    assert_eq!(c.cool, GRID_ROWS * (GRID_COLS - 6));
    assert_eq!(c.warm + c.vapor, 0);
    grid.cells[1][1] = CellState::Xenon135 { decay_timer: 1.0 };
    grid.cells[2][2] = CellState::Xenon135 { decay_timer: 1.0 };
    grid.water[2][2] = WaterState::Vapor { return_timer: 1.0 };
    let c = grid.census();
    assert_eq!(c.xenon, 2);
    assert_eq!(c.vapor, 1);
    assert_eq!(c.cool, GRID_ROWS * (GRID_COLS - 6) - 1);
}

#[test]
fn spontaneous_site_is_active_fuel() {
    let grid: Grid<f32> = Grid::new();
    let mut rng = rand::thread_rng();
    let mut found = 0;
    for _ in 0..200 {
        if let Some((row, col)) = grid.spontaneous_site(&mut rng) {
            assert!(row < GRID_ROWS && col < GRID_COLS);
            assert_eq!(grid.cells[row][col], CellState::Uranium235Active);
            found += 1;
        }
    }
    assert!(found > 190);

    let mut spent: Grid<f32> = Grid::new();
    for row in 0..GRID_ROWS {
        for col in 0..GRID_COLS {
            if spent.cells[row][col] == CellState::Uranium235Active {
                spent.ignite(row, col, 10.0);
            }
        }
    }
    assert_eq!(spent.spontaneous_site(&mut rng), None);
}

#[test]
fn fission_yield_respects_cap() {
    assert_eq!(fission_yield(3, 0), 3);
    assert_eq!(fission_yield(3, MAX_NEUTRONS - 3), 3);
    assert_eq!(fission_yield(3, MAX_NEUTRONS - 2), 2);
    assert_eq!(fission_yield(3, MAX_NEUTRONS), 0);
    assert_eq!(fission_yield(3, MAX_NEUTRONS + 7), 0);
}

#[test]
fn first_active_site_takes_the_first_hit() {
    let mut grid: Grid<f32> = Grid::new();
    grid.ignite(2, 3, 10.0);
    let probes = vec![(0, 10), (2, 3), (99, 1), (4, 4), (5, 5)];
    assert_eq!(grid.first_active_site(&probes), Some((4, 4)));
    assert_eq!(grid.first_active_site(&vec![(0, 0), (1, 49), (20, 1)]), None);
    assert_eq!(grid.first_active_site(&vec![]), None);
}

#[test]
fn spontaneous_site_always_found_in_all_fuel_core() {
    let mut grid: Grid<f32> = Grid::new();
    for row in 0..GRID_ROWS {
        for col in 0..GRID_COLS {
            grid.cells[row][col] = CellState::Uranium235Active;
        }
    }
    let mut rng = rand::thread_rng();
    for _ in 0..100 {
        let site = grid.spontaneous_site(&mut rng);
        assert!(site.is_some());
    }
}

#[test]
fn spontaneous_probes_cover_the_grid() {
    let mut rng = rand::thread_rng();
    let mut cols_seen = [false; GRID_COLS];
    let mut rows_seen = [false; GRID_ROWS];
    for _ in 0..200 {
        let probes = spontaneous_probes(&mut rng);
        assert_eq!(probes.len(), SPONTANEOUS_SITE_ATTEMPTS);
        for &(row, col) in &probes {
            assert!(row < GRID_ROWS && col < GRID_COLS);
            rows_seen[row] = true;
            cols_seen[col] = true;
        }
    }
    // Over 10200 draws every column and row shows up.
    assert!(cols_seen.iter().all(|&s| s));
    assert!(rows_seen.iter().all(|&s| s));
}

#[test]
fn live_neutron_counts() {
    let neutrons = vec![
        (NeutronSpeed::Fast, true),
        (NeutronSpeed::Thermal, true),
        (NeutronSpeed::Fast, false),
        (NeutronSpeed::Thermal, false),
        (NeutronSpeed::Thermal, true),
        (NeutronSpeed::Fast, true),
        (NeutronSpeed::Fast, true),
    ];
    assert_eq!(live_counts(&neutrons), (3, 2));
    assert_eq!(live_counts(&vec![]), (0, 0));
}
