use vstd::prelude::*;

use crate::config::INITIAL_SEED_NEUTRONS;

verus! {

/// State that a scenario event forces the coolant into.
#[derive(Clone, Copy, Debug, PartialEq, Eq, Structural)]
pub enum WaterAction {
    Cool,
    Warm,
    Vapor,
}

/// Default number of neutrons a scenario seeds at start.
pub fn default_seed_neutrons() -> (n: usize)
    ensures
        n == INITIAL_SEED_NEUTRONS,
{
    INITIAL_SEED_NEUTRONS
}

/// Default for boolean scenario settings that are on unless stated.
pub fn default_true() -> (b: bool)
    ensures
        b,
{
    true
}

} // verus!
