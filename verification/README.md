# rbmk_1000_sim

An RBMK-1000 reactor core simulation, split in two:

- `src/` — the verified library: the core grid (graphite, fuel, boron rod
  channels, coolant, iodine), the rules a neutron meets in a cell, rod channel
  synchronisation, scenario water actions, the fuel and coolant life cycles,
  cell census, the neutron population cap, rod zones, the displacer-tip rows,
  the terminal key bindings and the operator's on/off switches. Timers and
  concentrations are a type parameter `Q`, so the library carries them
  without computing on them.
  `src/laws.rs` holds the properties stated across operations.
- `app/` — the program: `f32` physics (neutron motion, rod controller, timers,
  rates, pressure), JSON scenarios, the terminal and graphical front ends.

Tests in `tests/` exercise the library on concrete values.
