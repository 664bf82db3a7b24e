use vstd::prelude::*;

use crate::config::{
    GRID_COLS, GRID_ROWS, MAX_NEUTRONS, NUM_ABSORPTION_RODS, ROD_COLUMNS, WATER_HEAT_THRESHOLD,
};
use crate::controls::zone_of;
use crate::grid::{
    absorber_cell, cell_after_encounter, condensed, cool_water, count_cells, count_prefix, count_rows,
    encounter_outcome, expired_cell, heated, hits_can_grow, liquid, moderator_column, recovering,
    rod_channel_column, rod_of_column, rods_synced, vapor_water, warm_water, water_action_reaches,
    water_after_encounter, xenon_can_form, CellState, Encounter, Grid, WaterState,
};
use crate::neutron::{capped_yield, NeutronSpeed};
use crate::operator::{flags_after, initial_flags, OperatorFlags};
use crate::renderer::{binding, InputEvent, Key};

verus! {

/// Rod `i` travels in column `10 * i + 5`: a rod channel, free of graphite,
/// inside zone `i`; and every rod channel of the grid carries one rod.
pub proof fn rod_columns_and_zones()
    ensures
        forall|i: int|
            0 <= i < NUM_ABSORPTION_RODS ==> {
                &&& #[trigger] ROD_COLUMNS@[i] == 10 * i + 5
                &&& rod_channel_column(ROD_COLUMNS@[i] as int)
                &&& !moderator_column(ROD_COLUMNS@[i] as int)
                &&& zone_of(ROD_COLUMNS@[i] as int) == i
                &&& rod_of_column(ROD_COLUMNS@[i] as int) == i
            },
        forall|c: int|
            0 <= c < GRID_COLS && #[trigger] rod_channel_column(c) ==> 0 <= rod_of_column(c)
                < NUM_ABSORPTION_RODS && ROD_COLUMNS@[rod_of_column(c)] == c,
{
}

/// Fast neutrons are never absorbed and never reach a fission draw:
/// graphite slows them down, every other cell lets them pass.
pub proof fn fast_neutrons_pass<Q>(cell: CellState<Q>, water: WaterState<Q>, water_draw: bool)
    ensures
        encounter_outcome(cell, water, NeutronSpeed::Fast, water_draw) == if cell is ModeratorRod {
            Encounter::Moderated
        } else {
            Encounter::Passed
        },
{
}

/// A thermal neutron entering boron or xenon-135 is absorbed, whatever the
/// water draw; graphite does not stop a thermal neutron.
pub proof fn thermal_absorbers<Q>(cell: CellState<Q>, water: WaterState<Q>, water_draw: bool)
    ensures
        (cell is AbsorptionRod || cell is Xenon135) ==> encounter_outcome(
            cell,
            water,
            NeutronSpeed::Thermal,
            water_draw,
        ) == Encounter::Absorbed,
        cell is ModeratorRod && !liquid(water) ==> encounter_outcome(
            cell,
            water,
            NeutronSpeed::Thermal,
            water_draw,
        ) == Encounter::Passed,
{
}

/// Positive void coefficient: on active fuel whose coolant has boiled away,
/// a thermal neutron is never lost to the coolant and always reaches the
/// fission draw flagged as void; in liquid water the same neutron can be
/// absorbed.
pub proof fn void_removes_water_absorption<Q>(water: WaterState<Q>, water_draw: bool)
    ensures
        water is Vapor ==> encounter_outcome(
            CellState::<Q>::Uranium235Active,
            water,
            NeutronSpeed::Thermal,
            water_draw,
        ) == (Encounter::Fissile { void: true }),
        liquid(water) ==> encounter_outcome(
            CellState::<Q>::Uranium235Active,
            water,
            NeutronSpeed::Thermal,
            true,
        ) == Encounter::Absorbed,
{
}

/// Stage of coolant along the heating path cool, warm, vapor.
pub open spec fn water_stage<Q>(w: WaterState<Q>) -> int {
    match w {
        WaterState::Cool { .. } => 0,
        WaterState::Warm { .. } => 1,
        WaterState::Vapor { .. } => 2,
        WaterState::NoWater => 3,
    }
}

/// Hit counter of liquid coolant.
pub open spec fn water_hits<Q>(w: WaterState<Q>) -> int {
    match w {
        WaterState::Cool { neutron_hits } => neutron_hits as int,
        WaterState::Warm { neutron_hits, .. } => neutron_hits as int,
        _ => 0,
    }
}

/// Heating only moves coolant forward along cool, warm, vapor: water that
/// stays liquid counts one more hit, nothing ever cools down or dries out by
/// a hit, and vapor and dry cells are unaffected.
pub proof fn heating_moves_forward<Q>(w: WaterState<Q>, warm_timer: Q, vapor_timer: Q)
    requires
        hits_can_grow(w),
    ensures
        water_stage(heated(w, warm_timer, vapor_timer)) >= water_stage(w),
        liquid(w) ==> !(heated(w, warm_timer, vapor_timer) is NoWater),
        liquid(heated(w, warm_timer, vapor_timer)) ==> water_hits(heated(w, warm_timer, vapor_timer))
            == water_hits(w) + 1,
        !liquid(w) ==> heated(w, warm_timer, vapor_timer) == w,
{
}

/// Syncing the rod channels to the same depths twice changes nothing the
/// second time.
pub proof fn rod_sync_idempotent<Q>(
    g: Grid<Q>,
    once: Grid<Q>,
    twice: Grid<Q>,
    depths: [usize; NUM_ABSORPTION_RODS],
)
    requires
        rods_synced(g, once, depths),
        rods_synced(once, twice, depths),
    ensures
        twice.cells == once.cells,
        twice.water == once.water,
{
    // Rows are arrays: equality of the grids goes through extensional
    // equality of each row, which the cellwise facts of `rods_synced` give.
    assert forall|r: int| 0 <= r < GRID_ROWS implies twice.cells[r] =~= once.cells[r] by {}
    assert forall|r: int| 0 <= r < GRID_ROWS implies twice.water[r] =~= once.water[r] by {}
    assert(twice.cells =~= once.cells);
    assert(twice.water =~= once.water);
}

proof fn lemma_count_prefix_mono<T>(a: Seq<T>, b: Seq<T>, p: spec_fn(T) -> bool, n: int)
    requires
        forall|i: int| 0 <= i < n ==> p(#[trigger] a[i]) ==> p(b[i]),
    ensures
        count_prefix(a, p, n) <= count_prefix(b, p, n),
    decreases n,
{
    if n > 0 {
        lemma_count_prefix_mono(a, b, p, n - 1);
    }
}

proof fn lemma_count_prefix_strict<T>(a: Seq<T>, b: Seq<T>, p: spec_fn(T) -> bool, n: int, k: int)
    requires
        forall|i: int| 0 <= i < n ==> p(#[trigger] a[i]) ==> p(b[i]),
        0 <= k < n,
        !p(a[k]),
        p(b[k]),
    ensures
        count_prefix(a, p, n) < count_prefix(b, p, n),
    decreases n,
{
    if k == n - 1 {
        lemma_count_prefix_mono(a, b, p, n - 1);
    } else {
        lemma_count_prefix_strict(a, b, p, n - 1, k);
    }
}

proof fn lemma_count_rows_mono<T>(
    a: Seq<[T; GRID_COLS]>,
    b: Seq<[T; GRID_COLS]>,
    p: spec_fn(T) -> bool,
    n: int,
)
    requires
        forall|r: int, c: int|
            0 <= r < n && 0 <= c < GRID_COLS ==> p(#[trigger] a[r]@[c]) ==> p(b[r]@[c]),
    ensures
        count_rows(a, p, n) <= count_rows(b, p, n),
    decreases n,
{
    if n > 0 {
        lemma_count_rows_mono(a, b, p, n - 1);
        assert forall|c: int| 0 <= c < GRID_COLS && p(#[trigger] a[n - 1]@[c]) implies p(
            b[n - 1]@[c],
        ) by {}
        lemma_count_prefix_mono(a[n - 1]@, b[n - 1]@, p, GRID_COLS as int);
    }
}

proof fn lemma_count_rows_strict<T>(
    a: Seq<[T; GRID_COLS]>,
    b: Seq<[T; GRID_COLS]>,
    p: spec_fn(T) -> bool,
    n: int,
    r0: int,
    c0: int,
)
    requires
        forall|r: int, c: int|
            0 <= r < n && 0 <= c < GRID_COLS ==> p(#[trigger] a[r]@[c]) ==> p(b[r]@[c]),
        0 <= r0 < n,
        0 <= c0 < GRID_COLS,
        !p(a[r0]@[c0]),
        p(b[r0]@[c0]),
    ensures
        count_rows(a, p, n) < count_rows(b, p, n),
    decreases n,
{
    assert forall|c: int| 0 <= c < GRID_COLS && p(#[trigger] a[n - 1]@[c]) implies p(
        b[n - 1]@[c],
    ) by {}
    if r0 == n - 1 {
        lemma_count_rows_mono(a, b, p, n - 1);
        lemma_count_prefix_strict(a[n - 1]@, b[n - 1]@, p, GRID_COLS as int, c0);
    } else {
        lemma_count_rows_strict(a, b, p, n - 1, r0, c0);
        lemma_count_prefix_mono(a[n - 1]@, b[n - 1]@, p, GRID_COLS as int);
    }
}

/// Withdrawing rods frees fuel: a core synced to depths that are nowhere
/// deeper than `deep` holds no more boron cells than the same core synced to
/// `deep`, and strictly fewer once some rod ends shallower inside the core.
pub proof fn withdrawal_frees_fuel<Q>(
    g: Grid<Q>,
    deep_grid: Grid<Q>,
    shallow_grid: Grid<Q>,
    deep: [usize; NUM_ABSORPTION_RODS],
    shallow: [usize; NUM_ABSORPTION_RODS],
)
    requires
        rods_synced(g, deep_grid, deep),
        rods_synced(g, shallow_grid, shallow),
        forall|i: int| 0 <= i < NUM_ABSORPTION_RODS ==> #[trigger] shallow[i] <= deep[i],
    ensures
        count_cells(shallow_grid.cells, absorber_cell::<Q>()) <= count_cells(
            deep_grid.cells,
            absorber_cell::<Q>(),
        ),
        (exists|i: int|
            0 <= i < NUM_ABSORPTION_RODS && #[trigger] shallow[i] < deep[i] && shallow[i]
                < GRID_ROWS) ==> count_cells(shallow_grid.cells, absorber_cell::<Q>())
            < count_cells(deep_grid.cells, absorber_cell::<Q>()),
{
    let p = absorber_cell::<Q>();
    assert forall|r: int, c: int|
        0 <= r < GRID_ROWS && 0 <= c < GRID_COLS && p(#[trigger] shallow_grid.cells@[r]@[c])
            implies p(deep_grid.cells@[r]@[c]) by {
        assert(shallow_grid.cells[r][c] == shallow_grid.cells@[r]@[c]);
        assert(deep_grid.cells[r][c] == deep_grid.cells@[r]@[c]);
        if rod_channel_column(c) {
            assert(0 <= rod_of_column(c) < NUM_ABSORPTION_RODS);
            assert(shallow[rod_of_column(c)] <= deep[rod_of_column(c)]);
        }
    }
    lemma_count_rows_mono(shallow_grid.cells@, deep_grid.cells@, p, GRID_ROWS as int);
    if exists|i: int|
        0 <= i < NUM_ABSORPTION_RODS && #[trigger] shallow[i] < deep[i] && shallow[i] < GRID_ROWS {
        let i = choose|i: int|
            0 <= i < NUM_ABSORPTION_RODS && #[trigger] shallow[i] < deep[i] && shallow[i]
                < GRID_ROWS;
        let r0 = shallow[i] as int;
        let c0 = 10 * i + 5;
        assert(rod_channel_column(c0));
        assert(rod_of_column(c0) == i);
        assert(shallow_grid.cells[r0][c0] == shallow_grid.cells@[r0]@[c0]);
        assert(deep_grid.cells[r0][c0] == deep_grid.cells@[r0]@[c0]);
        lemma_count_rows_strict(shallow_grid.cells@, deep_grid.cells@, p, GRID_ROWS as int, r0, c0);
    }
}

/// Fission never pushes the neutron population past `MAX_NEUTRONS`: a
/// population at or under the cap stays at or under it, one above the cap
/// gets nothing, and below the cap a fission adds all its prompt neutrons
/// when they fit.
pub proof fn fission_respects_cap(prompt: int, population: int)
    requires
        0 <= prompt,
        0 <= population,
    ensures
        population <= MAX_NEUTRONS ==> population + capped_yield(prompt, population) <= MAX_NEUTRONS,
        population >= MAX_NEUTRONS ==> capped_yield(prompt, population) == 0,
        population + prompt <= MAX_NEUTRONS ==> capped_yield(prompt, population) == prompt,
        capped_yield(prompt, population) >= 0,
{
}

/// Recovering coolant moves one step back toward cool water when its timer
/// runs out: vapor condenses to warm water with no hits, warm water cools.
pub proof fn condensation_moves_back<Q>(w: WaterState<Q>, warm_timer: Q)
    requires
        recovering(w),
    ensures
        water_stage(condensed(w, warm_timer)) == water_stage(w) - 1,
        water_hits(condensed(w, warm_timer)) == 0,
{
}

/// Fuel is never lost for good: an expired timer always leaves active fuel
/// or xenon-135, xenon always decays back to active fuel, and neither
/// graphite nor boron ever turns into xenon.
pub proof fn fuel_lifecycle<Q>(cell: CellState<Q>, direct_xenon: bool, xenon_timer: Q)
    requires
        cell is Uranium235Inactive || cell is Xenon135,
    ensures
        expired_cell(cell, direct_xenon, xenon_timer) is Uranium235Active || expired_cell(
            cell,
            direct_xenon,
            xenon_timer,
        ) is Xenon135,
        cell is Xenon135 ==> expired_cell(cell, direct_xenon, xenon_timer) is Uranium235Active,
        cell is Uranium235Inactive && !direct_xenon ==> expired_cell(cell, direct_xenon, xenon_timer)
            is Uranium235Active,
        !xenon_can_form(CellState::<Q>::ModeratorRod) && !xenon_can_form(CellState::<Q>::AbsorptionRod),
{
}

/// After syncing a well-formed core, boron sits exactly in the top
/// `depths[i]` rows of rod `i`'s channel and nowhere else.
pub proof fn sync_places_boron_exactly<Q>(
    g: Grid<Q>,
    after: Grid<Q>,
    depths: [usize; NUM_ABSORPTION_RODS],
)
    requires
        g.wf(),
        rods_synced(g, after, depths),
    ensures
        forall|r: int, c: int|
            0 <= r < GRID_ROWS && 0 <= c < GRID_COLS ==> (#[trigger] after.cells[r][c] is AbsorptionRod
                <==> rod_channel_column(c) && r < depths[rod_of_column(c)]),
{
    assert forall|r: int, c: int|
        0 <= r < GRID_ROWS && 0 <= c < GRID_COLS implies (#[trigger] after.cells[r][c] is AbsorptionRod
            <==> rod_channel_column(c) && r < depths[rod_of_column(c)]) by {
        assert(g.cells[r][c] is AbsorptionRod ==> rod_channel_column(c));
    }
}

/// Rows of boron that a rod inserted `depth` rows puts into the core.
pub open spec fn inserted_rows(depth: int) -> int {
    if depth < GRID_ROWS {
        depth
    } else {
        GRID_ROWS as int
    }
}

/// Rods among the first `i` whose boron reaches below row `r`.
pub open spec fn rods_below_row(depths: [usize; NUM_ABSORPTION_RODS], r: int, i: int) -> int
    decreases i,
{
    if i <= 0 {
        0
    } else {
        rods_below_row(depths, r, i - 1) + if r < depths[i - 1] {
            1int
        } else {
            0
        }
    }
}

/// Boron rows that the first `i` rods put into the top `n` rows.
pub open spec fn boron_rows(depths: [usize; NUM_ABSORPTION_RODS], n: int, i: int) -> int
    decreases i,
{
    if i <= 0 {
        0
    } else {
        boron_rows(depths, n, i - 1) + if depths[i - 1] < n {
            depths[i - 1] as int
        } else {
            n
        }
    }
}

proof fn lemma_count_prefix_flat<T>(s: Seq<T>, p: spec_fn(T) -> bool, n: int, m: int)
    requires
        0 <= n <= m,
        forall|k: int| n <= k < m ==> !p(#[trigger] s[k]),
    ensures
        count_prefix(s, p, m) == count_prefix(s, p, n),
    decreases m - n,
{
    if m > n {
        lemma_count_prefix_flat(s, p, n, m - 1);
    }
}

proof fn lemma_boron_blocks<T>(
    s: Seq<T>,
    p: spec_fn(T) -> bool,
    depths: [usize; NUM_ABSORPTION_RODS],
    r: int,
    i: int,
)
    requires
        0 <= i <= NUM_ABSORPTION_RODS,
        forall|c: int|
            0 <= c < GRID_COLS ==> p(#[trigger] s[c]) == (rod_channel_column(c) && r
                < depths[rod_of_column(c)]),
    ensures
        count_prefix(s, p, 10 * i) == rods_below_row(depths, r, i),
    decreases i,
{
    if i > 0 {
        let j = i - 1;
        lemma_boron_blocks(s, p, depths, r, j);
        assert forall|k: int| 10 * j <= k < 10 * j + 5 implies !p(#[trigger] s[k]) by {}
        lemma_count_prefix_flat(s, p, 10 * j, 10 * j + 5);
        assert(rod_channel_column(10 * j + 5));
        assert(rod_of_column(10 * j + 5) == j);
        assert forall|k: int| 10 * j + 6 <= k < 10 * j + 10 implies !p(#[trigger] s[k]) by {}
        lemma_count_prefix_flat(s, p, 10 * j + 6, 10 * j + 10);
    }
}

proof fn lemma_rows_step(depths: [usize; NUM_ABSORPTION_RODS], n: int, i: int)
    requires
        0 <= n,
    ensures
        boron_rows(depths, n, i) + rods_below_row(depths, n, i) == boron_rows(depths, n + 1, i),
    decreases i,
{
    if i > 0 {
        lemma_rows_step(depths, n, i - 1);
    }
}

proof fn lemma_boron_rows_empty(depths: [usize; NUM_ABSORPTION_RODS], i: int)
    ensures
        boron_rows(depths, 0, i) == 0,
    decreases i,
{
    if i > 0 {
        lemma_boron_rows_empty(depths, i - 1);
    }
}

proof fn lemma_boron_rows<Q>(after: Grid<Q>, depths: [usize; NUM_ABSORPTION_RODS], n: int)
    requires
        0 <= n <= GRID_ROWS,
        forall|r: int, c: int|
            0 <= r < GRID_ROWS && 0 <= c < GRID_COLS ==> (#[trigger] after.cells[r][c] is AbsorptionRod
                <==> rod_channel_column(c) && r < depths[rod_of_column(c)]),
    ensures
        count_rows(after.cells@, absorber_cell::<Q>(), n) == boron_rows(
            depths,
            n,
            NUM_ABSORPTION_RODS as int,
        ),
    decreases n,
{
    if n == 0 {
        lemma_boron_rows_empty(depths, NUM_ABSORPTION_RODS as int);
    } else {
        let r = n - 1;
        lemma_boron_rows(after, depths, r);
        let s = after.cells@[r]@;
        let p = absorber_cell::<Q>();
        assert forall|c: int| 0 <= c < GRID_COLS implies p(#[trigger] s[c]) == (rod_channel_column(
            c,
        ) && r < depths[rod_of_column(c)]) by {
            assert(s[c] == after.cells[r][c]);
        }
        lemma_boron_blocks(s, p, depths, r, NUM_ABSORPTION_RODS as int);
        lemma_rows_step(depths, r, NUM_ABSORPTION_RODS as int);
    }
}

/// The core holds exactly as many boron cells as the rods put in: the sum
/// over the rods of their depths, each cut at the core's height.
pub proof fn boron_cells_match_rod_depths<Q>(
    g: Grid<Q>,
    after: Grid<Q>,
    depths: [usize; NUM_ABSORPTION_RODS],
)
    requires
        g.wf(),
        rods_synced(g, after, depths),
    ensures
        count_cells(after.cells, absorber_cell::<Q>()) == inserted_rows(depths[0] as int)
            + inserted_rows(depths[1] as int) + inserted_rows(depths[2] as int) + inserted_rows(
            depths[3] as int,
        ) + inserted_rows(depths[4] as int),
{
    sync_places_boron_exactly(g, after, depths);
    lemma_boron_rows(after, depths, GRID_ROWS as int);
    reveal_with_fuel(boron_rows, 6);
}

/// Operator switches: pausing twice, or toggling the legend twice, gives
/// back the switches one started from; after a SCRAM the reactor is marked
/// scrammed with automatic control off, and stays so under pause and legend
/// toggles; a reset gives the initial switches whatever came before.
pub proof fn operator_switch_laws(f: OperatorFlags)
    ensures
        flags_after(flags_after(f, InputEvent::Pause), InputEvent::Pause) == f,
        flags_after(flags_after(f, InputEvent::ToggleLegend), InputEvent::ToggleLegend) == f,
        flags_after(f, InputEvent::Scram).is_scrammed && !flags_after(f, InputEvent::Scram).auto_control,
        flags_after(flags_after(f, InputEvent::Scram), InputEvent::Pause).is_scrammed,
        flags_after(flags_after(f, InputEvent::Scram), InputEvent::ToggleLegend).is_scrammed,
        flags_after(f, InputEvent::Reset) == initial_flags(),
        flags_after(f, InputEvent::ToggleAutoControl).auto_control ==> !flags_after(
            f,
            InputEvent::ToggleAutoControl,
        ).is_scrammed,
{
}

/// Only active U-235 fissions: a neutron is reported fissile only on a cell
/// holding active fuel, and only when it is thermal. On any other cell that
/// does not moderate it, a neutron is either absorbed or passes. A thermal
/// neutron on active fuel that the coolant does not absorb always reaches
/// the fission draw.
pub proof fn only_active_fuel_fissions<Q>(
    cell: CellState<Q>,
    water: WaterState<Q>,
    speed: NeutronSpeed,
    water_draw: bool,
)
    ensures
        encounter_outcome(cell, water, speed, water_draw) is Fissile ==> cell is Uranium235Active
            && speed == NeutronSpeed::Thermal,
        !(cell is Uranium235Active) && !(cell is ModeratorRod && speed == NeutronSpeed::Fast) ==> (
        encounter_outcome(cell, water, speed, water_draw) == Encounter::Absorbed || encounter_outcome(
            cell,
            water,
            speed,
            water_draw,
        ) == Encounter::Passed),
        cell is Uranium235Active && speed == NeutronSpeed::Thermal && !(liquid(water) && water_draw)
            ==> (encounter_outcome(cell, water, speed, water_draw) is Fissile),
{
}

/// Spent fuel cannot fission: a thermal neutron crossing spent U-235 that
/// the coolant does not absorb passes, leaves the spent fuel as it was and
/// heats the coolant by one hit; below the warm threshold cool water just
/// counts the hit.
pub proof fn spent_fuel_passes<Q>(
    reactivation_timer: Q,
    water: WaterState<Q>,
    water_draw: bool,
    hits: u32,
    warm_timer: Q,
    vapor_timer: Q,
)
    requires
        !(liquid(water) && water_draw),
    ensures
        ({
            let spent = CellState::Uranium235Inactive { reactivation_timer };
            &&& encounter_outcome(spent, water, NeutronSpeed::Thermal, water_draw) == Encounter::Passed
            &&& cell_after_encounter(spent, NeutronSpeed::Thermal) == spent
            &&& water_after_encounter(
                spent,
                water,
                NeutronSpeed::Thermal,
                water_draw,
                warm_timer,
                vapor_timer,
            ) == heated(water, warm_timer, vapor_timer)
        }),
        hits + 1 < WATER_HEAT_THRESHOLD ==> (water_after_encounter(
            (CellState::Uranium235Inactive { reactivation_timer }),
            (WaterState::<Q>::Cool { neutron_hits: hits }),
            NeutronSpeed::Thermal,
            false,
            warm_timer,
            vapor_timer,
        ) == (WaterState::<Q>::Cool { neutron_hits: (hits + 1) as u32 })),
{
}

/// Withdrawn rows get their fuel and coolant back, for every vector of rod
/// depths, fully withdrawn rods included: a rod-channel cell at or below its
/// rod's depth that held boron holds active U-235 in cool water with no hits
/// after the sync. Rows above the depth hold boron, and on a well-formed
/// core no water. Cells outside rod channels, and channel cells below the
/// depth that held no boron, keep their content and coolant.
pub proof fn withdrawn_rows_refill<Q>(
    before: Grid<Q>,
    after: Grid<Q>,
    depths: [usize; NUM_ABSORPTION_RODS],
)
    requires
        rods_synced(before, after, depths),
    ensures
        forall|r: int, c: int|
            0 <= r < GRID_ROWS && 0 <= c < GRID_COLS && rod_channel_column(c) && r >= depths[rod_of_column(c)]
                && before.cells[r][c] is AbsorptionRod ==> {
                &&& #[trigger] after.cells[r][c] == CellState::<Q>::Uranium235Active
                &&& after.water[r][c] == (WaterState::<Q>::Cool { neutron_hits: 0 })
            },
        forall|r: int, c: int|
            0 <= r < GRID_ROWS && 0 <= c < GRID_COLS && rod_channel_column(c) && r < depths[rod_of_column(c)]
                ==> (#[trigger] after.cells[r][c] is AbsorptionRod),
        before.wf() ==> forall|r: int, c: int|
            0 <= r < GRID_ROWS && 0 <= c < GRID_COLS && rod_channel_column(c) && r < depths[rod_of_column(c)]
                ==> (#[trigger] after.water[r][c] is NoWater),
        forall|r: int, c: int|
            0 <= r < GRID_ROWS && 0 <= c < GRID_COLS && (!rod_channel_column(c) || (r
                >= depths[rod_of_column(c)] && !(before.cells[r][c] is AbsorptionRod))) ==> {
                &&& #[trigger] after.cells[r][c] == before.cells[r][c]
                &&& after.water[r][c] == before.water[r][c]
            },
{
}

/// A water action reaches every cell of its column range outside the rod
/// channels that does not hold graphite, whatever fuel the cell holds
/// (active, spent, xenon-135 or none); graphite and rod channels are never
/// reached. On a well-formed core this depends on the column alone.
pub proof fn water_action_reaches_all_fuel<Q>(
    g: Grid<Q>,
    cell: CellState<Q>,
    c: int,
    col_start: int,
    col_end: int,
)
    ensures
        !(cell is ModeratorRod) ==> (water_action_reaches(cell, c, col_start, col_end) <==> (col_start
            <= c < col_end && !rod_channel_column(c))),
        cell is ModeratorRod ==> !water_action_reaches(cell, c, col_start, col_end),
        g.wf() ==> forall|r: int, k: int|
            0 <= r < GRID_ROWS && 0 <= k < GRID_COLS ==> (water_action_reaches(
                #[trigger] g.cells[r][k],
                k,
                col_start,
                col_end,
            ) <==> (col_start <= k < col_end && !rod_channel_column(k) && !moderator_column(k))),
{
}

/// Coolant that is present: cool water, warm water or vapor.
pub open spec fn holds_water<Q>() -> spec_fn(WaterState<Q>) -> bool {
    |w: WaterState<Q>| !(w is NoWater)
}

proof fn lemma_count_prefix_partition<T>(
    s: Seq<T>,
    whole: spec_fn(T) -> bool,
    a: spec_fn(T) -> bool,
    b: spec_fn(T) -> bool,
    c: spec_fn(T) -> bool,
    n: int,
)
    requires
        forall|i: int|
            0 <= i < n ==> {
                &&& (whole(#[trigger] s[i]) <==> (a(s[i]) || b(s[i]) || c(s[i])))
                &&& !(a(s[i]) && b(s[i]))
                &&& !(a(s[i]) && c(s[i]))
                &&& !(b(s[i]) && c(s[i]))
            },
    ensures
        count_prefix(s, a, n) + count_prefix(s, b, n) + count_prefix(s, c, n) == count_prefix(
            s,
            whole,
            n,
        ),
    decreases n,
{
    if n > 0 {
        lemma_count_prefix_partition(s, whole, a, b, c, n - 1);
        let x = s[n - 1];
        assert(whole(x) <==> (a(x) || b(x) || c(x)));
    }
}

proof fn lemma_count_rows_partition<T>(
    rows: Seq<[T; GRID_COLS]>,
    whole: spec_fn(T) -> bool,
    a: spec_fn(T) -> bool,
    b: spec_fn(T) -> bool,
    c: spec_fn(T) -> bool,
    n: int,
)
    requires
        forall|x: T|
            {
                &&& (#[trigger] whole(x) <==> (a(x) || b(x) || c(x)))
                &&& !(a(x) && b(x))
                &&& !(a(x) && c(x))
                &&& !(b(x) && c(x))
            },
    ensures
        count_rows(rows, a, n) + count_rows(rows, b, n) + count_rows(rows, c, n) == count_rows(
            rows,
            whole,
            n,
        ),
    decreases n,
{
    if n > 0 {
        lemma_count_rows_partition(rows, whole, a, b, c, n - 1);
        lemma_count_prefix_partition(rows[n - 1]@, whole, a, b, c, GRID_COLS as int);
    }
}

proof fn lemma_count_rows_none<T>(rows: Seq<[T; GRID_COLS]>, p: spec_fn(T) -> bool, n: int)
    requires
        forall|r: int, c: int| 0 <= r < n && 0 <= c < GRID_COLS ==> !p(#[trigger] rows[r]@[c]),
    ensures
        count_rows(rows, p, n) == 0,
    decreases n,
{
    if n > 0 {
        lemma_count_rows_none(rows, p, n - 1);
        assert forall|k: int| 0 <= k < GRID_COLS implies !p(#[trigger] rows[n - 1]@[k]) by {}
        lemma_count_prefix_flat(rows[n - 1]@, p, 0, GRID_COLS as int);
    }
}

/// The coolant census partitions the cells that hold water: cool, warm and
/// vapor cells add up to exactly the cells whose coolant is present, each
/// such cell counted once. A kind of coolant that no cell holds is counted
/// zero times.
pub proof fn census_partitions_water<Q>(water: [[WaterState<Q>; GRID_COLS]; GRID_ROWS])
    ensures
        count_cells(water, cool_water::<Q>()) + count_cells(water, warm_water::<Q>()) + count_cells(
            water,
            vapor_water::<Q>(),
        ) == count_cells(water, holds_water::<Q>()),
        (forall|r: int, c: int|
            0 <= r < GRID_ROWS && 0 <= c < GRID_COLS ==> !(#[trigger] water[r][c] is Cool))
            ==> count_cells(water, cool_water::<Q>()) == 0,
        (forall|r: int, c: int|
            0 <= r < GRID_ROWS && 0 <= c < GRID_COLS ==> !(#[trigger] water[r][c] is Warm))
            ==> count_cells(water, warm_water::<Q>()) == 0,
        (forall|r: int, c: int|
            0 <= r < GRID_ROWS && 0 <= c < GRID_COLS ==> !(#[trigger] water[r][c] is Vapor))
            ==> count_cells(water, vapor_water::<Q>()) == 0,
{
    lemma_count_rows_partition(
        water@,
        holds_water::<Q>(),
        cool_water::<Q>(),
        warm_water::<Q>(),
        vapor_water::<Q>(),
        GRID_ROWS as int,
    );
    if forall|r: int, c: int|
        0 <= r < GRID_ROWS && 0 <= c < GRID_COLS ==> !(#[trigger] water[r][c] is Cool) {
        assert forall|r: int, c: int|
            0 <= r < GRID_ROWS && 0 <= c < GRID_COLS implies !cool_water::<Q>()(
                #[trigger] water@[r]@[c],
            ) by {
            assert(water@[r]@[c] == water[r][c]);
        }
        lemma_count_rows_none(water@, cool_water::<Q>(), GRID_ROWS as int);
    }
    if forall|r: int, c: int|
        0 <= r < GRID_ROWS && 0 <= c < GRID_COLS ==> !(#[trigger] water[r][c] is Warm) {
        assert forall|r: int, c: int|
            0 <= r < GRID_ROWS && 0 <= c < GRID_COLS implies !warm_water::<Q>()(
                #[trigger] water@[r]@[c],
            ) by {
            assert(water@[r]@[c] == water[r][c]);
        }
        lemma_count_rows_none(water@, warm_water::<Q>(), GRID_ROWS as int);
    }
    if forall|r: int, c: int|
        0 <= r < GRID_ROWS && 0 <= c < GRID_COLS ==> !(#[trigger] water[r][c] is Vapor) {
        assert forall|r: int, c: int|
            0 <= r < GRID_ROWS && 0 <= c < GRID_COLS implies !vapor_water::<Q>()(
                #[trigger] water@[r]@[c],
            ) by {
            assert(water@[r]@[c] == water[r][c]);
        }
        lemma_count_rows_none(water@, vapor_water::<Q>(), GRID_ROWS as int);
    }
}

/// Letter keys work in either case: lower- and upper-case s issue a SCRAM,
/// r a reset, a toggles automatic control, n injects neutrons and l toggles
/// the legend, with or without Ctrl. Ctrl changes nothing for any
/// character key but c, where it makes Ctrl-C quit.
pub proof fn letter_keys_ignore_case(control: bool)
    ensures
        binding(Key::Char('s'), control) == Some(InputEvent::Scram),
        binding(Key::Char('S'), control) == Some(InputEvent::Scram),
        binding(Key::Char('r'), control) == Some(InputEvent::Reset),
        binding(Key::Char('R'), control) == Some(InputEvent::Reset),
        binding(Key::Char('a'), control) == Some(InputEvent::ToggleAutoControl),
        binding(Key::Char('A'), control) == Some(InputEvent::ToggleAutoControl),
        binding(Key::Char('n'), control) == Some(InputEvent::InjectNeutrons),
        binding(Key::Char('N'), control) == Some(InputEvent::InjectNeutrons),
        binding(Key::Char('l'), control) == Some(InputEvent::ToggleLegend),
        binding(Key::Char('L'), control) == Some(InputEvent::ToggleLegend),
        forall|ch: char| ch != 'c' ==> #[trigger] binding(Key::Char(ch), true) == binding(Key::Char(ch), false),
        binding(Key::Char('c'), true) == Some(InputEvent::Quit),
        binding(Key::Char('c'), false) == None::<InputEvent>,
{
}

} // verus!
