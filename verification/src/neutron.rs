use vstd::prelude::*;

use crate::config::MAX_NEUTRONS;
use crate::grid::count_prefix;

verus! {

/// Energy class of a neutron: fast (fission-born) or thermal (moderated).
#[derive(Clone, Copy, Debug, PartialEq, Eq, Structural)]
pub enum NeutronSpeed {
    Fast,
    Thermal,
}

/// `prompt` new neutrons cut to the room left under `MAX_NEUTRONS` by a
/// population of `population`.
pub open spec fn capped_yield(prompt: int, population: int) -> int {
    if population < MAX_NEUTRONS {
        if prompt < MAX_NEUTRONS - population {
            prompt
        } else {
            MAX_NEUTRONS - population
        }
    } else {
        0
    }
}

/// Prompt neutrons that a fission may add when `population` neutrons
/// already exist: `prompt`, cut so that the population stays within
/// `MAX_NEUTRONS`; none once the cap is reached.
pub fn fission_yield(prompt: usize, population: usize) -> (n: usize)
    ensures
        n == capped_yield(prompt as int, population as int),
{
    if population < MAX_NEUTRONS {
        let room = MAX_NEUTRONS - population;
        if prompt < room {
            prompt
        } else {
            room
        }
    } else {
        0
    }
}

/// Neutrons, given as (speed, alive), that are alive with speed `speed`.
pub open spec fn live_with_speed(speed: NeutronSpeed) -> spec_fn((NeutronSpeed, bool)) -> bool {
    |n: (NeutronSpeed, bool)| n.1 && n.0 == speed
}

/// Counts the live fast and the live thermal neutrons among `neutrons`,
/// each given as (speed, alive).
pub fn live_counts(neutrons: &Vec<(NeutronSpeed, bool)>) -> (counts: (usize, usize))
    ensures
        counts.0 == count_prefix(neutrons@, live_with_speed(NeutronSpeed::Fast), neutrons@.len() as int),
        counts.1 == count_prefix(neutrons@, live_with_speed(NeutronSpeed::Thermal), neutrons@.len() as int),
{
    let mut fast: usize = 0;
    let mut thermal: usize = 0;
    let mut i: usize = 0;
    while i < neutrons.len()
        invariant
            i <= neutrons@.len(),
            fast == count_prefix(neutrons@, live_with_speed(NeutronSpeed::Fast), i as int),
            thermal == count_prefix(neutrons@, live_with_speed(NeutronSpeed::Thermal), i as int),
            fast + thermal <= i,
        decreases neutrons@.len() - i,
    {
        let (speed, alive) = neutrons[i];
        if alive {
            match speed {
                NeutronSpeed::Fast => {
                    fast = fast + 1;
                },
                NeutronSpeed::Thermal => {
                    thermal = thermal + 1;
                },
            }
        }
        i += 1;
    }
    (fast, thermal)
}

} // verus!
