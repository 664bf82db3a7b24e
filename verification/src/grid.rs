use vstd::prelude::*;

use crate::config::{
    GRID_COLS, GRID_ROWS, MODERATOR_INTERVAL, NUM_ABSORPTION_RODS, ROD_COLUMNS,
    SPONTANEOUS_SITE_ATTEMPTS,
    WATER_BOIL_THRESHOLD, WATER_HEAT_THRESHOLD,
};
use crate::neutron::NeutronSpeed;
use crate::random::random_index;
use crate::scenario::WaterAction;

verus! {

/// What occupies one cell of the core. Timers are carried as `Q`.
#[derive(Clone, Copy, Debug, PartialEq)]
pub enum CellState<Q> {
    Uranium235Active,
    Uranium235Inactive { reactivation_timer: Q },
    Xenon135 { decay_timer: Q },
    ModeratorRod,
    AbsorptionRod,
    Empty,
}

/// Coolant in one cell. Timers are carried as `Q`.
#[derive(Clone, Copy, Debug, PartialEq)]
pub enum WaterState<Q> {
    Cool { neutron_hits: u32 },
    Warm { neutron_hits: u32, cool_timer: Q },
    Vapor { return_timer: Q },
    /// No water in this cell (moderator columns, inserted rods).
    NoWater,
}

/// The reactor core: cell contents, coolant, and per-cell iodine-135.
pub struct Grid<Q> {
    pub cells: [[CellState<Q>; GRID_COLS]; GRID_ROWS],
    pub water: [[WaterState<Q>; GRID_COLS]; GRID_ROWS],
    /// Per-cell iodine-135 concentration.
    pub iodine: [[Q; GRID_COLS]; GRID_ROWS],
}

/// Columns that hold graphite: interior moderators 10, 20, 30, 40 and the
/// radial reflectors 0 and 49.
pub open spec fn moderator_column(col: int) -> bool {
    col == 0 || col == 10 || col == 20 || col == 30 || col == 40 || col == 49
}

/// Columns whose channels take an absorption rod: 5, 15, 25, ...
pub open spec fn rod_channel_column(col: int) -> bool {
    col >= 5 && col % 10 == 5
}

/// Cell content of a freshly built core at column `col`.
pub open spec fn initial_cell<Q>(col: int) -> CellState<Q> {
    if moderator_column(col) {
        CellState::ModeratorRod
    } else {
        CellState::Uranium235Active
    }
}

/// Coolant of a freshly built core at column `col`.
pub open spec fn initial_water<Q>(col: int) -> WaterState<Q> {
    if moderator_column(col) {
        WaterState::NoWater
    } else {
        WaterState::Cool { neutron_hits: 0 }
    }
}

impl<Q> Grid<Q> {
    /// Structural invariant of the core: graphite stands exactly on the
    /// moderator columns and holds no water; boron absorber appears only in
    /// rod channels and holds no water.
    pub open spec fn wf(&self) -> bool {
        forall|r: int, c: int|
            #![trigger self.cells[r][c]]
            #![trigger self.water[r][c]]
            0 <= r < GRID_ROWS && 0 <= c < GRID_COLS ==> {
                &&& (self.cells[r][c] is ModeratorRod <==> moderator_column(c))
                &&& (self.cells[r][c] is ModeratorRod ==> self.water[r][c] is NoWater)
                &&& (self.cells[r][c] is AbsorptionRod ==> rod_channel_column(c)
                    && self.water[r][c] is NoWater)
            }
    }

    /// Whether absorption rods travel in column `col` (5, 15, 25, 35, 45 in the grid).
    pub fn is_absorption_rod_column(col: usize) -> (b: bool)
        ensures
            b == rod_channel_column(col as int),
    {
        col >= 5 && (col % 10) == 5
    }

    /// Whether column `col` is graphite: interior moderator every
    /// `MODERATOR_INTERVAL` columns, or an edge reflector.
    pub fn is_moderator_or_reflector(col: usize) -> (b: bool)
        ensures
            b == moderator_column(col as int),
    {
        if col > 0 && col < GRID_COLS - 1 && col % MODERATOR_INTERVAL == 0 {
            return true;
        }
        col == 0 || col == GRID_COLS - 1
    }
}

impl<Q: Copy + Default> Grid<Q> {
    /// A fresh core: graphite on the moderator and reflector columns, active
    /// U-235 in cool water everywhere else, no iodine.
    pub fn new() -> (grid: Self)
        ensures
            grid.wf(),
            forall|r: int, c: int|
                #![trigger grid.cells[r][c]]
                #![trigger grid.water[r][c]]
                #![trigger grid.iodine[r][c]]
                0 <= r < GRID_ROWS && 0 <= c < GRID_COLS ==> {
                    &&& grid.cells[r][c] == initial_cell::<Q>(c)
                    &&& grid.water[r][c] == initial_water::<Q>(c)
                    &&& call_ensures(Q::default, (), grid.iodine[r][c])
                },
    {
        let zero = Q::default();
        assert(call_ensures(Q::default, (), zero));
        let mut cells: [[CellState<Q>; GRID_COLS]; GRID_ROWS] = [[CellState::Empty; GRID_COLS]; GRID_ROWS];
        let mut water: [[WaterState<Q>; GRID_COLS]; GRID_ROWS] = [[WaterState::NoWater; GRID_COLS]; GRID_ROWS];
        let iodine: [[Q; GRID_COLS]; GRID_ROWS] = [[zero; GRID_COLS]; GRID_ROWS];
        let mut row: usize = 0;
        while row < GRID_ROWS
            invariant
                row <= GRID_ROWS,
                forall|r: int, c: int|
                    0 <= r < row && 0 <= c < GRID_COLS ==> {
                        &&& #[trigger] cells[r][c] == initial_cell::<Q>(c)
                        &&& water[r][c] == initial_water::<Q>(c)
                    },
                forall|r: int, c: int|
                    row <= r < GRID_ROWS && 0 <= c < GRID_COLS ==> #[trigger] water[r][c]
                        == WaterState::<Q>::NoWater,
            decreases GRID_ROWS - row,
        {
            let mut col: usize = 0;
            while col < GRID_COLS
                invariant
                    row < GRID_ROWS,
                    col <= GRID_COLS,
                    forall|r: int, c: int|
                        0 <= r < row && 0 <= c < GRID_COLS ==> {
                            &&& #[trigger] cells[r][c] == initial_cell::<Q>(c)
                            &&& water[r][c] == initial_water::<Q>(c)
                        },
                    forall|c: int|
                        0 <= c < col ==> {
                            &&& #[trigger] cells[row as int][c] == initial_cell::<Q>(c)
                            &&& water[row as int][c] == initial_water::<Q>(c)
                        },
                    forall|r: int, c: int|
                        row < r < GRID_ROWS && 0 <= c < GRID_COLS ==> #[trigger] water[r][c]
                            == WaterState::<Q>::NoWater,
                    forall|c: int|
                        col <= c < GRID_COLS ==> #[trigger] water[row as int][c]
                            == WaterState::<Q>::NoWater,
                decreases GRID_COLS - col,
            {
                if Self::is_moderator_or_reflector(col) {
                    cells[row][col] = CellState::ModeratorRod;
                } else {
                    cells[row][col] = CellState::Uranium235Active;
                    water[row][col] = WaterState::Cool { neutron_hits: 0 };
                }
                col += 1;
            }
            row += 1;
        }
        Grid { cells, water, iodine }
    }
}

/// What happens to a neutron as it crosses one cell, before any fission draw.
#[derive(Clone, Copy, Debug, PartialEq, Eq, Structural)]
pub enum Encounter {
    /// A fast neutron hit graphite and leaves the cell thermal.
    Moderated,
    /// The neutron was absorbed (boron, xenon or water).
    Absorbed,
    /// Nothing (more) happens to the neutron in this cell.
    Passed,
    /// A thermal neutron sits on active fuel: a fission draw decides.
    /// `void` tells whether the cell's coolant is vapor at that moment.
    Fissile { void: bool },
}

/// Coolant that can absorb and be heated: cool or warm water.
pub open spec fn liquid<Q>(w: WaterState<Q>) -> bool {
    w is Cool || w is Warm
}

/// The hit counter of `w` can still be incremented.
pub open spec fn hits_can_grow<Q>(w: WaterState<Q>) -> bool {
    match w {
        WaterState::Cool { neutron_hits } => neutron_hits < u32::MAX,
        WaterState::Warm { neutron_hits, .. } => neutron_hits < u32::MAX,
        _ => true,
    }
}

/// Coolant after one more neutron deposited energy in it: cool water turns
/// warm at `WATER_HEAT_THRESHOLD` hits, any water boils to vapor at
/// `WATER_BOIL_THRESHOLD` hits; vapor and dry cells are unaffected.
pub open spec fn heated<Q>(w: WaterState<Q>, warm_timer: Q, vapor_timer: Q) -> WaterState<Q> {
    match w {
        WaterState::Cool { neutron_hits } => {
            let h = neutron_hits + 1;
            if h >= WATER_BOIL_THRESHOLD {
                WaterState::Vapor { return_timer: vapor_timer }
            } else if h >= WATER_HEAT_THRESHOLD {
                WaterState::Warm { neutron_hits: h as u32, cool_timer: warm_timer }
            } else {
                WaterState::Cool { neutron_hits: h as u32 }
            }
        },
        WaterState::Warm { neutron_hits, cool_timer } => {
            let h = neutron_hits + 1;
            if h >= WATER_BOIL_THRESHOLD {
                WaterState::Vapor { return_timer: vapor_timer }
            } else {
                WaterState::Warm { neutron_hits: h as u32, cool_timer }
            }
        },
        _ => w,
    }
}

/// The coolant is vapor once one more neutron deposited energy in it.
pub open spec fn vapor_after_hit<Q>(w: WaterState<Q>) -> bool {
    match w {
        WaterState::Cool { neutron_hits } => neutron_hits + 1 >= WATER_BOIL_THRESHOLD,
        WaterState::Warm { neutron_hits, .. } => neutron_hits + 1 >= WATER_BOIL_THRESHOLD,
        WaterState::Vapor { .. } => true,
        WaterState::NoWater => false,
    }
}

/// The neutron gets past the cell's solid content to its coolant: it is not
/// a fast neutron in graphite, not in boron, not a thermal neutron in xenon.
pub open spec fn reaches_water<Q>(cell: CellState<Q>, speed: NeutronSpeed) -> bool {
    &&& !(cell is ModeratorRod && speed == NeutronSpeed::Fast)
    &&& !(cell is AbsorptionRod)
    &&& !(cell is Xenon135 && speed == NeutronSpeed::Thermal)
}

/// A water-absorption draw is consulted: a thermal neutron reaches liquid water.
pub open spec fn water_draw_consulted<Q>(
    cell: CellState<Q>,
    water: WaterState<Q>,
    speed: NeutronSpeed,
) -> bool {
    reaches_water(cell, speed) && liquid(water) && speed == NeutronSpeed::Thermal
}

/// Outcome of a neutron of `speed` crossing a cell holding `cell` and
/// `water`, where `water_draw` is the result of the water-absorption draw.
pub open spec fn encounter_outcome<Q>(
    cell: CellState<Q>,
    water: WaterState<Q>,
    speed: NeutronSpeed,
    water_draw: bool,
) -> Encounter {
    if cell is ModeratorRod && speed == NeutronSpeed::Fast {
        Encounter::Moderated
    } else if cell is AbsorptionRod {
        if speed == NeutronSpeed::Thermal {
            Encounter::Absorbed
        } else {
            Encounter::Passed
        }
    } else if cell is Xenon135 && speed == NeutronSpeed::Thermal {
        Encounter::Absorbed
    } else if water_draw_consulted(cell, water, speed) && water_draw {
        Encounter::Absorbed
    } else if cell is Uranium235Active && speed == NeutronSpeed::Thermal {
        Encounter::Fissile { void: vapor_after_hit(water) }
    } else {
        Encounter::Passed
    }
}

/// Cell content after the crossing: a thermal neutron burns xenon-135 back
/// to active fuel; nothing else changes the cell before the fission draw.
pub open spec fn cell_after_encounter<Q>(cell: CellState<Q>, speed: NeutronSpeed) -> CellState<Q> {
    if cell is Xenon135 && speed == NeutronSpeed::Thermal {
        CellState::Uranium235Active
    } else {
        cell
    }
}

/// Coolant after the crossing: heated once by a neutron that reached it and
/// was not absorbed by it.
pub open spec fn water_after_encounter<Q>(
    cell: CellState<Q>,
    water: WaterState<Q>,
    speed: NeutronSpeed,
    water_draw: bool,
    warm_timer: Q,
    vapor_timer: Q,
) -> WaterState<Q> {
    if reaches_water(cell, speed) && !(water_draw_consulted(cell, water, speed) && water_draw) {
        heated(water, warm_timer, vapor_timer)
    } else {
        water
    }
}

/// One more neutron hit on coolant `w`, `warm_timer` and `vapor_timer`
/// starting the timers of newly warm or boiling water.
fn heat<Q: Copy>(w: WaterState<Q>, warm_timer: Q, vapor_timer: Q) -> (r: WaterState<Q>)
    requires
        hits_can_grow(w),
    ensures
        r == heated(w, warm_timer, vapor_timer),
{
    match w {
        WaterState::Cool { neutron_hits } => {
            let h = neutron_hits + 1;
            if h >= WATER_BOIL_THRESHOLD {
                WaterState::Vapor { return_timer: vapor_timer }
            } else if h >= WATER_HEAT_THRESHOLD {
                WaterState::Warm { neutron_hits: h, cool_timer: warm_timer }
            } else {
                WaterState::Cool { neutron_hits: h }
            }
        },
        WaterState::Warm { neutron_hits, cool_timer } => {
            let h = neutron_hits + 1;
            if h >= WATER_BOIL_THRESHOLD {
                WaterState::Vapor { return_timer: vapor_timer }
            } else {
                WaterState::Warm { neutron_hits: h, cool_timer }
            }
        },
        _ => w,
    }
}

impl<Q: Copy> Grid<Q> {
    /// Whether a neutron of `speed` crossing (`row`, `col`) would consult the
    /// water-absorption draw, i.e. whether the caller has to draw it.
    pub fn needs_water_draw(&self, row: usize, col: usize, speed: NeutronSpeed) -> (b: bool)
        requires
            row < GRID_ROWS,
            col < GRID_COLS,
        ensures
            b == water_draw_consulted(self.cells[row as int][col as int], self.water[row as int][col as int], speed),
    {
        let cell = self.cells[row][col];
        let water = self.water[row][col];
        let reaches = match cell {
            CellState::ModeratorRod => speed == NeutronSpeed::Thermal,
            CellState::AbsorptionRod => false,
            CellState::Xenon135 { .. } => speed == NeutronSpeed::Fast,
            _ => true,
        };
        let wet = match water {
            WaterState::Cool { .. } | WaterState::Warm { .. } => true,
            _ => false,
        };
        reaches && wet && speed == NeutronSpeed::Thermal
    }

    /// A neutron of `speed` crosses cell (`row`, `col`). Graphite thermalises
    /// a fast neutron; boron absorbs a thermal one and lets a fast one pass;
    /// xenon-135 absorbs a thermal neutron and turns back into active fuel;
    /// liquid water absorbs a thermal neutron when `water_draw` says so and is
    /// otherwise heated by it (fast or thermal); a thermal neutron left on
    /// active fuel is reported fissile, with whether the coolant is vapor.
    /// `warm_timer` and `vapor_timer` start the timers of water that turns
    /// warm or boils.
    pub fn encounter(
        &mut self,
        row: usize,
        col: usize,
        speed: NeutronSpeed,
        water_draw: bool,
        warm_timer: Q,
        vapor_timer: Q,
    ) -> (e: Encounter)
        requires
            row < GRID_ROWS,
            col < GRID_COLS,
            hits_can_grow(old(self).water[row as int][col as int]),
        ensures
            e == encounter_outcome(
                old(self).cells[row as int][col as int],
                old(self).water[row as int][col as int],
                speed,
                water_draw,
            ),
            only_changed(
                *old(self),
                *final(self),
                row as int,
                col as int,
                cell_after_encounter(old(self).cells[row as int][col as int], speed),
                water_after_encounter(
                    old(self).cells[row as int][col as int],
                    old(self).water[row as int][col as int],
                    speed,
                    water_draw,
                    warm_timer,
                    vapor_timer,
                ),
            ),
            final(self).iodine == old(self).iodine,
            old(self).wf() ==> final(self).wf(),
    {
        let cell = self.cells[row][col];
        let thermal = speed == NeutronSpeed::Thermal;
        match cell {
            CellState::ModeratorRod => {
                if !thermal {
                    return Encounter::Moderated;
                }
            },
            CellState::AbsorptionRod => {
                if thermal {
                    return Encounter::Absorbed;
                }
                return Encounter::Passed;
            },
            CellState::Xenon135 { .. } => {
                if thermal {
                    self.cells[row][col] = CellState::Uranium235Active;
                    return Encounter::Absorbed;
                }
            },
            _ => {},
        }
        let water = self.water[row][col];
        match water {
            WaterState::Cool { .. } | WaterState::Warm { .. } => {
                if thermal && water_draw {
                    return Encounter::Absorbed;
                }
                self.water[row][col] = heat(water, warm_timer, vapor_timer);
            },
            _ => {},
        }
        match cell {
            CellState::Uranium235Active => {
                if thermal {
                    let void = match self.water[row][col] {
                        WaterState::Vapor { .. } => true,
                        _ => false,
                    };
                    return Encounter::Fissile { void };
                }
            },
            _ => {},
        }
        Encounter::Passed
    }
}

/// Cell content of row `row` of a rod channel once its rod reaches `depth`
/// rows: boron above the depth, active fuel where boron was withdrawn.
pub open spec fn synced_cell<Q>(cell: CellState<Q>, row: int, depth: int) -> CellState<Q> {
    if row < depth {
        CellState::AbsorptionRod
    } else if cell is AbsorptionRod {
        CellState::Uranium235Active
    } else {
        cell
    }
}

/// Coolant of row `row` of a rod channel once its rod reaches `depth` rows:
/// a newly inserted rod drives the water out, a withdrawn one lets cool
/// water back in.
pub open spec fn synced_water<Q>(
    cell: CellState<Q>,
    water: WaterState<Q>,
    row: int,
    depth: int,
) -> WaterState<Q> {
    if row < depth {
        if cell is AbsorptionRod {
            water
        } else {
            WaterState::NoWater
        }
    } else if cell is AbsorptionRod {
        WaterState::Cool { neutron_hits: 0 }
    } else {
        water
    }
}

/// Index of the rod travelling in rod-channel column `col`.
pub open spec fn rod_of_column(col: int) -> int {
    col / 10
}

/// `after` is `before` with every rod channel brought in line with the rod
/// depths `depths`, all other cells and the coolant outside rod channels
/// untouched.
pub open spec fn rods_synced<Q>(
    before: Grid<Q>,
    after: Grid<Q>,
    depths: [usize; NUM_ABSORPTION_RODS],
) -> bool {
    forall|r: int, c: int|
        #![trigger after.cells[r][c]]
        #![trigger after.water[r][c]]
        0 <= r < GRID_ROWS && 0 <= c < GRID_COLS ==> {
            &&& after.cells[r][c] == if rod_channel_column(c) {
                synced_cell(before.cells[r][c], r, depths[rod_of_column(c)] as int)
            } else {
                before.cells[r][c]
            }
            &&& after.water[r][c] == if rod_channel_column(c) {
                synced_water(
                    before.cells[r][c],
                    before.water[r][c],
                    r,
                    depths[rod_of_column(c)] as int,
                )
            } else {
                before.water[r][c]
            }
        }
}

impl<Q: Copy> Grid<Q> {
    /// Brings the rod channels in line with rod insertion depths: rod `i`
    /// occupies the top `depths[i]` rows of column `ROD_COLUMNS[i]`; rows it
    /// left return to active fuel in cool water. No other column changes.
    pub fn sync_rods(&mut self, depths: &[usize; NUM_ABSORPTION_RODS])
        ensures
            rods_synced(*old(self), *final(self), *depths),
            final(self).iodine == old(self).iodine,
            old(self).wf() ==> final(self).wf(),
    {
        let ghost old_grid = *self;
        let mut i: usize = 0;
        while i < NUM_ABSORPTION_RODS
            invariant
                i <= NUM_ABSORPTION_RODS,
                self.iodine == old_grid.iodine,
                forall|r: int, c: int|
                    0 <= r < GRID_ROWS && 0 <= c < GRID_COLS ==> {
                        &&& #[trigger] self.cells[r][c] == if rod_channel_column(c)
                            && rod_of_column(c) < i {
                            synced_cell(old_grid.cells[r][c], r, depths[rod_of_column(c)] as int)
                        } else {
                            old_grid.cells[r][c]
                        }
                        &&& self.water[r][c] == if rod_channel_column(c) && rod_of_column(c) < i {
                            synced_water(
                                old_grid.cells[r][c],
                                old_grid.water[r][c],
                                r,
                                depths[rod_of_column(c)] as int,
                            )
                        } else {
                            old_grid.water[r][c]
                        }
                    },
            decreases NUM_ABSORPTION_RODS - i,
        {
            let rod_col = ROD_COLUMNS[i];
            assert(rod_col == 10 * i + 5);
            let depth = depths[i];
            let mut row: usize = 0;
            while row < GRID_ROWS
                invariant
                    i < NUM_ABSORPTION_RODS,
                    rod_col == 10 * i + 5,
                    depth == depths[i as int],
                    row <= GRID_ROWS,
                    self.iodine == old_grid.iodine,
                    forall|r: int, c: int|
                        0 <= r < GRID_ROWS && 0 <= c < GRID_COLS ==> {
                            &&& #[trigger] self.cells[r][c] == if rod_channel_column(c) && (
                            rod_of_column(c) < i || (c == rod_col && r < row)) {
                                synced_cell(
                                    old_grid.cells[r][c],
                                    r,
                                    depths[rod_of_column(c)] as int,
                                )
                            } else {
                                old_grid.cells[r][c]
                            }
                            &&& self.water[r][c] == if rod_channel_column(c) && (rod_of_column(c)
                                < i || (c == rod_col && r < row)) {
                                synced_water(
                                    old_grid.cells[r][c],
                                    old_grid.water[r][c],
                                    r,
                                    depths[rod_of_column(c)] as int,
                                )
                            } else {
                                old_grid.water[r][c]
                            }
                        },
                decreases GRID_ROWS - row,
            {
                let is_rod = match self.cells[row][rod_col] {
                    CellState::AbsorptionRod => true,
                    _ => false,
                };
                if row < depth {
                    if !is_rod {
                        self.cells[row][rod_col] = CellState::AbsorptionRod;
                        self.water[row][rod_col] = WaterState::NoWater;
                    }
                } else if is_rod {
                    self.cells[row][rod_col] = CellState::Uranium235Active;
                    self.water[row][rod_col] = WaterState::Cool { neutron_hits: 0 };
                }
                row += 1;
            }
            i += 1;
        }
    }
}

/// Coolant that a scenario's water action installs.
pub open spec fn water_for_action<Q>(action: WaterAction, warm_timer: Q, vapor_timer: Q) -> WaterState<Q> {
    match action {
        WaterAction::Cool => WaterState::Cool { neutron_hits: 0 },
        WaterAction::Warm => WaterState::Warm {
            neutron_hits: WATER_HEAT_THRESHOLD,
            cool_timer: warm_timer,
        },
        WaterAction::Vapor => WaterState::Vapor { return_timer: vapor_timer },
    }
}

/// A scenario water action over columns `col_start..col_end` reaches the
/// cell at column `c` holding `cell`: rod channels and graphite are left dry.
pub open spec fn water_action_reaches<Q>(
    cell: CellState<Q>,
    c: int,
    col_start: int,
    col_end: int,
) -> bool {
    col_start <= c < col_end && !rod_channel_column(c) && !(cell is ModeratorRod)
}

impl<Q: Copy> Grid<Q> {
    /// Forces the coolant of columns `col_start..col_end` (cut at the grid
    /// edge) into the state `action` names, skipping rod channels and
    /// graphite. Forced warm water starts at `WATER_HEAT_THRESHOLD` hits with
    /// `warm_timer`; forced vapor starts with `vapor_timer`.
    pub fn apply_water_state(
        &mut self,
        col_start: usize,
        col_end: usize,
        action: WaterAction,
        warm_timer: Q,
        vapor_timer: Q,
    )
        ensures
            forall|r: int, c: int|
                0 <= r < GRID_ROWS && 0 <= c < GRID_COLS ==> #[trigger] final(self).water[r][c]
                    == if water_action_reaches(old(self).cells[r][c], c, col_start as int, col_end as int) {
                    water_for_action(action, warm_timer, vapor_timer)
                } else {
                    old(self).water[r][c]
                },
            final(self).cells == old(self).cells,
            final(self).iodine == old(self).iodine,
            old(self).wf() ==> final(self).wf(),
    {
        let ghost old_grid = *self;
        let col_end = if col_end < GRID_COLS {
            col_end
        } else {
            GRID_COLS
        };
        let new_water = match action {
            WaterAction::Cool => WaterState::Cool { neutron_hits: 0 },
            WaterAction::Warm => WaterState::Warm {
                neutron_hits: WATER_HEAT_THRESHOLD,
                cool_timer: warm_timer,
            },
            WaterAction::Vapor => WaterState::Vapor { return_timer: vapor_timer },
        };
        let mut row: usize = 0;
        while row < GRID_ROWS
            invariant
                row <= GRID_ROWS,
                col_end <= GRID_COLS,
                new_water == water_for_action(action, warm_timer, vapor_timer),
                self.cells == old_grid.cells,
                self.iodine == old_grid.iodine,
                forall|r: int, c: int|
                    0 <= r < GRID_ROWS && 0 <= c < GRID_COLS ==> #[trigger] self.water[r][c] == if r
                        < row && water_action_reaches(old_grid.cells[r][c], c, col_start as int, col_end as int) {
                        new_water
                    } else {
                        old_grid.water[r][c]
                    },
            decreases GRID_ROWS - row,
        {
            let mut col: usize = col_start;
            while col < col_end
                invariant
                    row < GRID_ROWS,
                    col_end <= GRID_COLS,
                    col_start <= col,
                    new_water == water_for_action(action, warm_timer, vapor_timer),
                    self.cells == old_grid.cells,
                    self.iodine == old_grid.iodine,
                    forall|r: int, c: int|
                        0 <= r < GRID_ROWS && 0 <= c < GRID_COLS ==> #[trigger] self.water[r][c]
                            == if (r < row || (r == row && c < col)) && water_action_reaches(
                            old_grid.cells[r][c],
                            c,
                            col_start as int,
                            col_end as int,
                        ) {
                            new_water
                        } else {
                            old_grid.water[r][c]
                        },
                decreases col_end - col,
            {
                let graphite = match self.cells[row][col] {
                    CellState::ModeratorRod => true,
                    _ => false,
                };
                if !Self::is_absorption_rod_column(col) && !graphite {
                    self.water[row][col] = new_water;
                }
                col += 1;
            }
            row += 1;
        }
    }
}

/// Number of the first `n` entries of `s` that satisfy `p`.
pub open spec fn count_prefix<T>(s: Seq<T>, p: spec_fn(T) -> bool, n: int) -> nat
    decreases n,
{
    if n <= 0 {
        0
    } else {
        count_prefix(s, p, n - 1) + if p(s[n - 1]) {
            1nat
        } else {
            0nat
        }
    }
}

/// Number of entries of the first `n` rows of `rows` that satisfy `p`.
pub open spec fn count_rows<T>(rows: Seq<[T; GRID_COLS]>, p: spec_fn(T) -> bool, n: int) -> nat
    decreases n,
{
    if n <= 0 {
        0
    } else {
        count_rows(rows, p, n - 1) + count_prefix(rows[n - 1]@, p, GRID_COLS as int)
    }
}

/// Number of cells of a grid-shaped array that satisfy `p`.
pub open spec fn count_cells<T>(a: [[T; GRID_COLS]; GRID_ROWS], p: spec_fn(T) -> bool) -> nat {
    count_rows(a@, p, GRID_ROWS as int)
}

/// Cells holding xenon-135.
pub open spec fn xenon_cell<Q>() -> spec_fn(CellState<Q>) -> bool {
    |x: CellState<Q>| x is Xenon135
}

/// Cells holding boron absorber.
pub open spec fn absorber_cell<Q>() -> spec_fn(CellState<Q>) -> bool {
    |x: CellState<Q>| x is AbsorptionRod
}

/// Cool water.
pub open spec fn cool_water<Q>() -> spec_fn(WaterState<Q>) -> bool {
    |w: WaterState<Q>| w is Cool
}

/// Warm water.
pub open spec fn warm_water<Q>() -> spec_fn(WaterState<Q>) -> bool {
    |w: WaterState<Q>| w is Warm
}

/// Vapor.
pub open spec fn vapor_water<Q>() -> spec_fn(WaterState<Q>) -> bool {
    |w: WaterState<Q>| w is Vapor
}

/// Cell and coolant tallies of the core.
#[derive(Clone, Copy, Debug, PartialEq, Eq, Structural)]
pub struct GridCensus {
    pub xenon: usize,
    pub cool: usize,
    pub warm: usize,
    pub vapor: usize,
}

impl<Q: Copy> Grid<Q> {
    /// Counts xenon cells and cool, warm and vapor coolant cells.
    pub fn census(&self) -> (t: GridCensus)
        ensures
            t.xenon == count_cells(self.cells, xenon_cell::<Q>()),
            t.cool == count_cells(self.water, cool_water::<Q>()),
            t.warm == count_cells(self.water, warm_water::<Q>()),
            t.vapor == count_cells(self.water, vapor_water::<Q>()),
    {
        let mut t = GridCensus { xenon: 0, cool: 0, warm: 0, vapor: 0 };
        let mut row: usize = 0;
        while row < GRID_ROWS
            invariant
                row <= GRID_ROWS,
                t.xenon == count_rows(self.cells@, xenon_cell::<Q>(), row as int),
                t.cool == count_rows(self.water@, cool_water::<Q>(), row as int),
                t.warm == count_rows(self.water@, warm_water::<Q>(), row as int),
                t.vapor == count_rows(self.water@, vapor_water::<Q>(), row as int),
                t.xenon <= row * GRID_COLS,
                t.cool <= row * GRID_COLS,
                t.warm <= row * GRID_COLS,
                t.vapor <= row * GRID_COLS,
            decreases GRID_ROWS - row,
        {
            let mut col: usize = 0;
            let ghost base = t;
            while col < GRID_COLS
                invariant
                    row < GRID_ROWS,
                    col <= GRID_COLS,
                    base.xenon <= row * GRID_COLS,
                    base.cool <= row * GRID_COLS,
                    base.warm <= row * GRID_COLS,
                    base.vapor <= row * GRID_COLS,
                    t.xenon == base.xenon + count_prefix(self.cells@[row as int]@, xenon_cell::<Q>(), col as int),
                    t.cool == base.cool + count_prefix(self.water@[row as int]@, cool_water::<Q>(), col as int),
                    t.warm == base.warm + count_prefix(self.water@[row as int]@, warm_water::<Q>(), col as int),
                    t.vapor == base.vapor + count_prefix(self.water@[row as int]@, vapor_water::<Q>(), col as int),
                    t.xenon <= base.xenon + col,
                    t.cool <= base.cool + col,
                    t.warm <= base.warm + col,
                    t.vapor <= base.vapor + col,
                decreases GRID_COLS - col,
            {
                match self.cells[row][col] {
                    CellState::Xenon135 { .. } => {
                        t.xenon = t.xenon + 1;
                    },
                    _ => {},
                }
                match self.water[row][col] {
                    WaterState::Cool { .. } => {
                        t.cool = t.cool + 1;
                    },
                    WaterState::Warm { .. } => {
                        t.warm = t.warm + 1;
                    },
                    WaterState::Vapor { .. } => {
                        t.vapor = t.vapor + 1;
                    },
                    WaterState::NoWater => {},
                }
                col += 1;
            }
            row += 1;
        }
        t
    }
}

/// Probe `p` = (row, col) lands on active U-235 inside the core.
pub open spec fn probe_hits_fuel<Q>(g: Grid<Q>, p: (usize, usize)) -> bool {
    p.0 < GRID_ROWS && p.1 < GRID_COLS && g.cells[p.0 as int][p.1 as int] is Uranium235Active
}

/// `site` is the first of `probes` that lands on active U-235 in `g`, and
/// `None` exactly when none does.
pub open spec fn first_hit<Q>(
    g: Grid<Q>,
    probes: Seq<(usize, usize)>,
    site: Option<(usize, usize)>,
) -> bool {
    &&& site is None <==> forall|k: int|
        0 <= k < probes.len() ==> !probe_hits_fuel(g, #[trigger] probes[k])
    &&& site matches Some(p) ==> exists|k: int|
        0 <= k < probes.len() && #[trigger] probes[k] == p && probe_hits_fuel(g, p) && forall|j: int|
            0 <= j < k ==> !probe_hits_fuel(g, #[trigger] probes[j])
}

/// Every probe lies inside the grid.
pub open spec fn probes_in_grid(probes: Seq<(usize, usize)>) -> bool {
    forall|k: int| 0 <= k < probes.len() ==> (#[trigger] probes[k]).0 < GRID_ROWS && probes[k].1 < GRID_COLS
}

impl<Q: Copy> Grid<Q> {
    /// The first of the `(row, col)` probes that lands on active U-235, if any.
    pub fn first_active_site(&self, probes: &Vec<(usize, usize)>) -> (site: Option<(usize, usize)>)
        ensures
            first_hit(*self, probes@, site),
    {
        let mut k: usize = 0;
        while k < probes.len()
            invariant
                k <= probes@.len(),
                forall|j: int| 0 <= j < k ==> !probe_hits_fuel(*self, #[trigger] probes@[j]),
            decreases probes@.len() - k,
        {
            let (row, col) = probes[k];
            if row < GRID_ROWS && col < GRID_COLS {
                match self.cells[row][col] {
                    CellState::Uranium235Active => {
                        assert(probe_hits_fuel(*self, probes@[k as int]));
                        return Some((row, col));
                    },
                    _ => {},
                }
            }
            k += 1;
        }
        None
    }

    /// Looks for active U-235 to host a spontaneous fission: draws
    /// `SPONTANEOUS_SITE_ATTEMPTS` random cells (`spontaneous_probes`) and
    /// returns the first that holds active fuel as `(row, col)`, or `None`
    /// when every probe missed.
    pub fn spontaneous_site(&self, rng: &mut rand::rngs::ThreadRng) -> (site: Option<(usize, usize)>)
        ensures
            site matches Some((r, c)) ==> r < GRID_ROWS && c < GRID_COLS
                && self.cells[r as int][c as int] is Uranium235Active,
            (forall|r: int, c: int|
                0 <= r < GRID_ROWS && 0 <= c < GRID_COLS ==> !(#[trigger] self.cells[r][c] is Uranium235Active))
                ==> site is None,
            (forall|r: int, c: int|
                0 <= r < GRID_ROWS && 0 <= c < GRID_COLS ==> #[trigger] self.cells[r][c] is Uranium235Active)
                ==> site is Some,
            exists|probes: Seq<(usize, usize)>|
                #[trigger] first_hit(*self, probes, site) && probes.len() == SPONTANEOUS_SITE_ATTEMPTS
                    && probes_in_grid(probes),
    {
        let probes = spontaneous_probes(rng);
        let site = self.first_active_site(&probes);
        proof {
            assert(first_hit(*self, probes@, site) && probes@.len() == SPONTANEOUS_SITE_ATTEMPTS
                && probes_in_grid(probes@));
            if forall|r: int, c: int|
                0 <= r < GRID_ROWS && 0 <= c < GRID_COLS ==> !(#[trigger] self.cells[r][c] is Uranium235Active) {
                assert forall|k: int| 0 <= k < probes@.len() implies !probe_hits_fuel(*self, #[trigger] probes@[k]) by {
                    let p = probes@[k];
                    assert(!(self.cells[p.0 as int][p.1 as int] is Uranium235Active));
                }
            }
            if forall|r: int, c: int|
                0 <= r < GRID_ROWS && 0 <= c < GRID_COLS ==> #[trigger] self.cells[r][c] is Uranium235Active {
                let p = probes@[0];
                assert(self.cells[p.0 as int][p.1 as int] is Uranium235Active);
                assert(probe_hits_fuel(*self, probes@[0]));
            }
        }
        site
    }
}

/// Random `(row, col)` cells to probe for a spontaneous fission site:
/// `SPONTANEOUS_SITE_ATTEMPTS` of them, each drawn column first, then row,
/// every one inside the grid. Which cells come out is up to the generator.
pub fn spontaneous_probes(rng: &mut rand::rngs::ThreadRng) -> (probes: Vec<(usize, usize)>)
    ensures
        probes@.len() == SPONTANEOUS_SITE_ATTEMPTS,
        probes_in_grid(probes@),
{
    let mut probes: Vec<(usize, usize)> = Vec::new();
    let mut attempts: usize = 0;
    while attempts < SPONTANEOUS_SITE_ATTEMPTS
        invariant
            attempts <= SPONTANEOUS_SITE_ATTEMPTS,
            probes@.len() == attempts,
            forall|k: int| 0 <= k < probes@.len() ==> (#[trigger] probes@[k]).0 < GRID_ROWS
                && probes@[k].1 < GRID_COLS,
        decreases SPONTANEOUS_SITE_ATTEMPTS - attempts,
    {
        let col = random_index(rng, GRID_COLS);
        let row = random_index(rng, GRID_ROWS);
        probes.push((row, col));
        attempts += 1;
    }
    probes
}

/// The cell at (`row`, `col`) of `after` is `cell`, its coolant `water`;
/// every other cell and coolant of `after` is as in `before`.
pub open spec fn only_changed<Q>(
    before: Grid<Q>,
    after: Grid<Q>,
    row: int,
    col: int,
    cell: CellState<Q>,
    water: WaterState<Q>,
) -> bool {
    forall|r: int, c: int|
        #![trigger after.cells[r][c]]
        #![trigger after.water[r][c]]
        0 <= r < GRID_ROWS && 0 <= c < GRID_COLS ==> {
            &&& after.cells[r][c] == if r == row && c == col {
                cell
            } else {
                before.cells[r][c]
            }
            &&& after.water[r][c] == if r == row && c == col {
                water
            } else {
                before.water[r][c]
            }
        }
}

/// Content that an expired cell timer leaves: spent fuel reactivates, or
/// turns straight into xenon-135 when `direct_xenon`; xenon-135 decays back
/// to active fuel.
pub open spec fn expired_cell<Q>(cell: CellState<Q>, direct_xenon: bool, xenon_timer: Q) -> CellState<Q> {
    match cell {
        CellState::Uranium235Inactive { .. } => if direct_xenon {
            CellState::Xenon135 { decay_timer: xenon_timer }
        } else {
            CellState::Uranium235Active
        },
        CellState::Xenon135 { .. } => CellState::Uranium235Active,
        _ => cell,
    }
}

/// Iodine decay may turn a cell into xenon-135: anything but xenon,
/// graphite and boron.
pub open spec fn xenon_can_form<Q>(cell: CellState<Q>) -> bool {
    !(cell is Xenon135) && !(cell is ModeratorRod) && !(cell is AbsorptionRod)
}

/// Coolant whose timer is running back toward cool water: vapor, and warm
/// water that took fewer than `WATER_HEAT_THRESHOLD` hits.
pub open spec fn recovering<Q>(w: WaterState<Q>) -> bool {
    match w {
        WaterState::Vapor { .. } => true,
        WaterState::Warm { neutron_hits, .. } => neutron_hits < WATER_HEAT_THRESHOLD,
        _ => false,
    }
}

/// Coolant once its recovery timer ran out: vapor condenses to warm water
/// with no hits and `warm_timer`, warm water cools to cool water.
pub open spec fn condensed<Q>(w: WaterState<Q>, warm_timer: Q) -> WaterState<Q> {
    match w {
        WaterState::Vapor { .. } => WaterState::Warm { neutron_hits: 0, cool_timer: warm_timer },
        WaterState::Warm { .. } => WaterState::Cool { neutron_hits: 0 },
        _ => w,
    }
}

impl<Q: Copy> Grid<Q> {
    /// Fission at (`row`, `col`): the active fuel there is spent until its
    /// `reactivation_timer` runs out.
    pub fn ignite(&mut self, row: usize, col: usize, reactivation_timer: Q)
        requires
            row < GRID_ROWS,
            col < GRID_COLS,
            old(self).cells[row as int][col as int] is Uranium235Active,
        ensures
            only_changed(
                *old(self),
                *final(self),
                row as int,
                col as int,
                CellState::Uranium235Inactive { reactivation_timer },
                old(self).water[row as int][col as int],
            ),
            final(self).iodine == old(self).iodine,
            old(self).wf() ==> final(self).wf(),
    {
        self.cells[row][col] = CellState::Uranium235Inactive { reactivation_timer };
    }

    /// The timer of the spent fuel or xenon at (`row`, `col`) ran out: spent
    /// fuel reactivates, or becomes xenon-135 with `xenon_timer` when
    /// `direct_xenon` (the direct-yield draw) says so; xenon decays to fuel.
    pub fn expire_cell(&mut self, row: usize, col: usize, direct_xenon: bool, xenon_timer: Q)
        requires
            row < GRID_ROWS,
            col < GRID_COLS,
            old(self).cells[row as int][col as int] is Uranium235Inactive
                || old(self).cells[row as int][col as int] is Xenon135,
        ensures
            only_changed(
                *old(self),
                *final(self),
                row as int,
                col as int,
                expired_cell(old(self).cells[row as int][col as int], direct_xenon, xenon_timer),
                old(self).water[row as int][col as int],
            ),
            final(self).iodine == old(self).iodine,
            old(self).wf() ==> final(self).wf(),
    {
        match self.cells[row][col] {
            CellState::Uranium235Inactive { .. } => {
                if direct_xenon {
                    self.cells[row][col] = CellState::Xenon135 { decay_timer: xenon_timer };
                } else {
                    self.cells[row][col] = CellState::Uranium235Active;
                }
            },
            _ => {
                self.cells[row][col] = CellState::Uranium235Active;
            },
        }
    }

    /// Whether iodine decay may turn cell (`row`, `col`) into xenon-135.
    pub fn xenon_can_form(&self, row: usize, col: usize) -> (b: bool)
        requires
            row < GRID_ROWS,
            col < GRID_COLS,
        ensures
            b == xenon_can_form(self.cells[row as int][col as int]),
    {
        match self.cells[row][col] {
            CellState::Xenon135 { .. } | CellState::ModeratorRod | CellState::AbsorptionRod => false,
            _ => true,
        }
    }

    /// Iodine at (`row`, `col`) decayed into xenon-135, which stays for `decay_timer`.
    pub fn form_xenon(&mut self, row: usize, col: usize, decay_timer: Q)
        requires
            row < GRID_ROWS,
            col < GRID_COLS,
            xenon_can_form(old(self).cells[row as int][col as int]),
        ensures
            only_changed(
                *old(self),
                *final(self),
                row as int,
                col as int,
                CellState::Xenon135 { decay_timer },
                old(self).water[row as int][col as int],
            ),
            final(self).iodine == old(self).iodine,
            old(self).wf() ==> final(self).wf(),
    {
        self.cells[row][col] = CellState::Xenon135 { decay_timer };
    }

    /// Whether the coolant at (`row`, `col`) runs a recovery timer.
    pub fn coolant_recovering(&self, row: usize, col: usize) -> (b: bool)
        requires
            row < GRID_ROWS,
            col < GRID_COLS,
        ensures
            b == recovering(self.water[row as int][col as int]),
    {
        match self.water[row][col] {
            WaterState::Vapor { .. } => true,
            WaterState::Warm { neutron_hits, .. } => neutron_hits < WATER_HEAT_THRESHOLD,
            _ => false,
        }
    }

    /// The recovery timer of the coolant at (`row`, `col`) ran out with
    /// coolant flowing: vapor condenses to warm water (timer `warm_timer`),
    /// warm water cools.
    pub fn condense(&mut self, row: usize, col: usize, warm_timer: Q)
        requires
            row < GRID_ROWS,
            col < GRID_COLS,
            recovering(old(self).water[row as int][col as int]),
        ensures
            only_changed(
                *old(self),
                *final(self),
                row as int,
                col as int,
                old(self).cells[row as int][col as int],
                condensed(old(self).water[row as int][col as int], warm_timer),
            ),
            final(self).iodine == old(self).iodine,
            old(self).wf() ==> final(self).wf(),
    {
        match self.water[row][col] {
            WaterState::Vapor { .. } => {
                self.water[row][col] = WaterState::Warm { neutron_hits: 0, cool_timer: warm_timer };
            },
            _ => {
                self.water[row][col] = WaterState::Cool { neutron_hits: 0 };
            },
        }
    }
}

} // verus!
