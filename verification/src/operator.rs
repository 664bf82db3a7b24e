use vstd::prelude::*;

use crate::renderer::InputEvent;

verus! {

/// The operator's on/off switches of a running simulation.
#[derive(Clone, Copy, Debug, PartialEq, Eq, Structural)]
pub struct OperatorFlags {
    pub is_paused: bool,
    pub is_scrammed: bool,
    pub auto_control: bool,
    pub show_legend: bool,
}

/// Switches of a freshly started (or reset) simulation: running, not
/// scrammed, automatic rod control on, legend hidden.
pub open spec fn initial_flags() -> OperatorFlags {
    OperatorFlags { is_paused: false, is_scrammed: false, auto_control: true, show_legend: false }
}

/// Switches after the operator issues `event`: pause and legend toggle;
/// SCRAM marks the reactor scrammed and hands rods to the SCRAM drive;
/// withdrawing rods by hand lifts the SCRAM mark; switching automatic
/// control on lifts it too; reset restores the initial switches. Other
/// commands leave the switches alone.
pub open spec fn flags_after(f: OperatorFlags, event: InputEvent) -> OperatorFlags {
    match event {
        InputEvent::Pause => OperatorFlags { is_paused: !f.is_paused, ..f },
        InputEvent::Scram => OperatorFlags { is_scrammed: true, auto_control: false, ..f },
        InputEvent::Reset => initial_flags(),
        InputEvent::RodsUp => OperatorFlags { is_scrammed: false, ..f },
        InputEvent::ToggleAutoControl => OperatorFlags {
            auto_control: !f.auto_control,
            is_scrammed: if !f.auto_control {
                false
            } else {
                f.is_scrammed
            },
            ..f
        },
        InputEvent::ToggleLegend => OperatorFlags { show_legend: !f.show_legend, ..f },
        _ => f,
    }
}

impl OperatorFlags {
    /// The switches of a freshly started simulation.
    pub fn new() -> (f: Self)
        ensures
            f == initial_flags(),
    {
        OperatorFlags { is_paused: false, is_scrammed: false, auto_control: true, show_legend: false }
    }

    /// The switches once the operator issued `event`.
    pub fn after_command(self, event: InputEvent) -> (next: Self)
        ensures
            next == flags_after(self, event),
    {
        match event {
            InputEvent::Pause => OperatorFlags { is_paused: !self.is_paused, ..self },
            InputEvent::Scram => OperatorFlags { is_scrammed: true, auto_control: false, ..self },
            InputEvent::Reset => OperatorFlags::new(),
            InputEvent::RodsUp => OperatorFlags { is_scrammed: false, ..self },
            InputEvent::ToggleAutoControl => {
                let auto_control = !self.auto_control;
                let is_scrammed = if auto_control {
                    false
                } else {
                    self.is_scrammed
                };
                OperatorFlags { auto_control, is_scrammed, ..self }
            },
            InputEvent::ToggleLegend => OperatorFlags { show_legend: !self.show_legend, ..self },
            _ => self,
        }
    }

    /// The switches once a scenario sets new rod targets: the rods are under
    /// scenario control, so the SCRAM mark is lifted.
    pub fn after_rod_targets(self) -> (next: Self)
        ensures
            next == (OperatorFlags { is_scrammed: false, ..self }),
    {
        OperatorFlags { is_scrammed: false, ..self }
    }

    /// The switches once a scenario turns automatic rod control on or off.
    pub fn with_auto_control(self, enabled: bool) -> (next: Self)
        ensures
            next == (OperatorFlags { auto_control: enabled, ..self }),
    {
        OperatorFlags { auto_control: enabled, ..self }
    }

    /// The switches once a scenario pauses or resumes the simulation.
    pub fn with_paused(self, paused: bool) -> (next: Self)
        ensures
            next == (OperatorFlags { is_paused: paused, ..self }),
    {
        OperatorFlags { is_paused: paused, ..self }
    }
}

} // verus!
