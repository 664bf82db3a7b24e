use vstd::prelude::*;

use crate::config::{DISPLACER_TIP_ROWS, MODERATOR_INTERVAL, NUM_ABSORPTION_RODS};

verus! {

/// Zone (rod index) that column `col` belongs to: ten columns per zone,
/// everything from column 40 on in the last zone.
pub open spec fn zone_of(col: int) -> int {
    if col / 10 < 4 {
        col / 10
    } else {
        4
    }
}

/// Map a grid column to its rod zone index (`0..NUM_ABSORPTION_RODS`).
/// Rod at col 5 controls zone 0 (cols 0-9), rod at col 15 zone 1
/// (cols 10-19), and so on up to the rod at col 45 (cols 40-49).
pub fn zone_for_col(col: usize) -> (zone: usize)
    ensures
        zone == zone_of(col as int),
        zone < NUM_ABSORPTION_RODS,
{
    let z = col / MODERATOR_INTERVAL;
    if z < NUM_ABSORPTION_RODS - 1 {
        z
    } else {
        NUM_ABSORPTION_RODS - 1
    }
}

/// Rows covered by the graphite displacer at the leading edge of a rod
/// inserted `depth` rows: the `DISPLACER_TIP_ROWS` rows just below it.
pub open spec fn tip_rows(depth: int, row: int) -> bool {
    depth <= row < depth + DISPLACER_TIP_ROWS
}

/// Whether `row` lies under the graphite displacer tip of a rod whose
/// boron reaches `depth` rows.
pub fn displacer_tip_covers(depth: usize, row: usize) -> (b: bool)
    ensures
        b == tip_rows(depth as int, row as int),
{
    row >= depth && row - depth < DISPLACER_TIP_ROWS
}

} // verus!
