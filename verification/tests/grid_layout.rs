use rbmk_1000_sim::config::{GRID_COLS, GRID_ROWS, NUM_ABSORPTION_RODS, ROD_COLUMNS};
use rbmk_1000_sim::controls::{displacer_tip_covers, zone_for_col};
use rbmk_1000_sim::grid::{CellState, Grid, WaterState};
use rbmk_1000_sim::scenario::{default_seed_neutrons, default_true, WaterAction};

#[test]
fn test_grid_init() {
    let grid: Grid<f32> = Grid::new();

    // Check moderator rods at correct columns
    for row in 0..GRID_ROWS {
        assert_eq!(grid.cells[row][10], CellState::ModeratorRod);
        assert_eq!(grid.cells[row][20], CellState::ModeratorRod);
        assert_eq!(grid.cells[row][30], CellState::ModeratorRod);
        assert_eq!(grid.cells[row][40], CellState::ModeratorRod);
    }

    // Column 0 and 49 are graphite reflectors
    assert_eq!(grid.cells[0][0], CellState::ModeratorRod);
    assert_eq!(grid.cells[0][GRID_COLS - 1], CellState::ModeratorRod);

    // Check fuel cells
    assert_eq!(grid.cells[0][1], CellState::Uranium235Active);
    assert_eq!(grid.cells[5][7], CellState::Uranium235Active);

    // Check water on fuel cells
    assert_eq!(grid.water[0][1], WaterState::Cool { neutron_hits: 0 });

    // Check no water on moderator columns
    assert_eq!(grid.water[0][10], WaterState::NoWater);

    // Check absorption rod columns are fuel initially
    assert_eq!(grid.cells[0][5], CellState::Uranium235Active);
    assert_eq!(grid.cells[0][15], CellState::Uranium235Active);
}

#[test]
fn test_absorption_rod_columns() {
    assert!(Grid::<f32>::is_absorption_rod_column(5));
    assert!(Grid::<f32>::is_absorption_rod_column(15));
    assert!(Grid::<f32>::is_absorption_rod_column(25));
    assert!(Grid::<f32>::is_absorption_rod_column(35));
    assert!(Grid::<f32>::is_absorption_rod_column(45));
    assert!(!Grid::<f32>::is_absorption_rod_column(0));
    assert!(!Grid::<f32>::is_absorption_rod_column(10));
    assert!(!Grid::<f32>::is_absorption_rod_column(3));
}

#[test]
fn test_zone_mapping() {
    assert_eq!(zone_for_col(0), 0);
    assert_eq!(zone_for_col(5), 0);
    assert_eq!(zone_for_col(9), 0);
    assert_eq!(zone_for_col(10), 1);
    assert_eq!(zone_for_col(15), 1);
    assert_eq!(zone_for_col(25), 2);
    assert_eq!(zone_for_col(35), 3);
    assert_eq!(zone_for_col(45), 4);
    assert_eq!(zone_for_col(49), 4);
}

#[test]
fn moderator_columns_are_exactly_the_graphite_set() {
    let graphite: Vec<usize> = (0..GRID_COLS)
        .filter(|&c| Grid::<f32>::is_moderator_or_reflector(c))
        .collect();
    assert_eq!(graphite, vec![0, 10, 20, 30, 40, 49]);
    assert!(!Grid::<f32>::is_moderator_or_reflector(50));
    assert!(!Grid::<f32>::is_moderator_or_reflector(60));
}

#[test]
fn every_rod_column_is_a_channel_in_its_own_zone() {
    for (i, &col) in ROD_COLUMNS.iter().enumerate() {
        assert_eq!(col, 10 * i + 5);
        assert!(Grid::<f32>::is_absorption_rod_column(col));
        assert!(!Grid::<f32>::is_moderator_or_reflector(col));
        assert_eq!(zone_for_col(col), i);
    }
    let channels: Vec<usize> = (0..GRID_COLS)
        .filter(|&c| Grid::<f32>::is_absorption_rod_column(c))
        .collect();
    assert_eq!(channels, ROD_COLUMNS.to_vec());
    assert_eq!(NUM_ABSORPTION_RODS, ROD_COLUMNS.len());
    assert!(Grid::<f32>::is_absorption_rod_column(55));
    assert_eq!(zone_for_col(1000), 4);
}

#[test]
fn fresh_grid_has_water_exactly_on_fuel() {
    let grid: Grid<f32> = Grid::new();
    for row in 0..GRID_ROWS {
        for col in 0..GRID_COLS {
            let graphite = Grid::<f32>::is_moderator_or_reflector(col);
            assert_eq!(grid.cells[row][col] == CellState::ModeratorRod, graphite);
            assert_eq!(grid.water[row][col] == WaterState::NoWater, graphite);
            assert_eq!(grid.iodine[row][col], 0.0);
        }
    }
}

#[test]
fn displacer_tip_spans_two_rows_below_the_boron() {
    assert!(!displacer_tip_covers(5, 3));
    assert!(!displacer_tip_covers(5, 4));
    assert!(displacer_tip_covers(5, 5));
    assert!(displacer_tip_covers(5, 6));
    assert!(!displacer_tip_covers(5, 7));
    assert!(displacer_tip_covers(0, 0));
    assert!(displacer_tip_covers(usize::MAX, usize::MAX));
}

#[test]
fn scenario_defaults() {
    assert_eq!(default_seed_neutrons(), 20);
    assert!(default_true());
    assert_ne!(WaterAction::Cool, WaterAction::Vapor);
}
