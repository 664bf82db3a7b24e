//! Discrete core of an RBMK-1000 reactor core simulation: the fuel/moderator
//! grid and its coolant, the neutron/cell interaction rules, control-rod
//! channel synchronisation, zone mapping, key bindings and scenario defaults.
//!
//! Continuous quantities (timers, concentrations) are carried as a type
//! parameter `Q`, so the layout and state-machine rules stand on their own.

pub mod config;
pub mod neutron;
pub mod grid;
pub mod controls;
pub mod renderer;
pub mod operator;
pub mod scenario;
pub mod random;
pub mod laws;
