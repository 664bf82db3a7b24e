use vstd::prelude::*;

verus! {

// === Grid Layout ===
/// Number of columns of the core grid.
pub const GRID_COLS: usize = 50;
/// Number of rows of the core grid.
pub const GRID_ROWS: usize = 20;
/// Interior graphite moderator columns repeat every this many columns (10, 20, 30, 40).
pub const MODERATOR_INTERVAL: usize = 10;
/// Number of absorption (control) rods, at columns 5, 15, 25, 35, 45.
pub const NUM_ABSORPTION_RODS: usize = 5;

// === Neutron Physics ===
/// Neutrons released by one fission.
pub const NEUTRONS_PER_FISSION: usize = 3;
/// Neutrons seeded at start.
pub const INITIAL_SEED_NEUTRONS: usize = 20;
/// Population cap for neutrons born from fission.
pub const MAX_NEUTRONS: usize = 5000;

// === Water / Coolant ===
/// Neutron hits after which cool water turns warm.
pub const WATER_HEAT_THRESHOLD: u32 = 80;
/// Neutron hits after which water boils to vapor.
pub const WATER_BOIL_THRESHOLD: u32 = 160;

// === Graphite Displacer Tip ===
/// Rows of graphite displacer at the leading edge of a rod.
pub const DISPLACER_TIP_ROWS: usize = 2;

/// Maximum number of random cells probed when looking for active fuel
/// to host a spontaneous fission, before giving up.
pub const SPONTANEOUS_SITE_ATTEMPTS: usize = 51;

/// Columns of the absorption rods, rod `i` at `ROD_COLUMNS[i]`.
pub const ROD_COLUMNS: [usize; NUM_ABSORPTION_RODS] = [5, 15, 25, 35, 45];

} // verus!
