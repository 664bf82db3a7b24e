use vstd::prelude::*;

verus! {

/// Operator commands.
#[derive(Clone, Copy, Debug, PartialEq, Eq, Structural)]
pub enum InputEvent {
    Pause,
    Scram,
    Reset,
    Quit,
    RodsUp,
    RodsDown,
    ToggleAutoControl,
    SpeedUp,
    SpeedDown,
    InjectNeutrons,
    CoolantFlowUp,
    CoolantFlowDown,
    ToggleLegend,
}

/// A key of the terminal keyboard, as far as the bindings distinguish keys.
#[derive(Clone, Copy, Debug, PartialEq, Eq, Structural)]
pub enum Key {
    Char(char),
    Esc,
    Enter,
    Up,
    Down,
    Left,
    Right,
    Other,
}

/// The terminal key bindings: the command that `key` (with Ctrl held when
/// `control`) issues, if any.
pub open spec fn binding(key: Key, control: bool) -> Option<InputEvent> {
    match key {
        Key::Char(c) => {
            if c == 'q' || (c == 'c' && control) {
                Some(InputEvent::Quit)
            } else if c == ' ' {
                Some(InputEvent::Pause)
            } else if c == 's' || c == 'S' {
                Some(InputEvent::Scram)
            } else if c == 'r' || c == 'R' {
                Some(InputEvent::Reset)
            } else if c == 'a' || c == 'A' {
                Some(InputEvent::ToggleAutoControl)
            } else if c == '+' || c == '=' {
                Some(InputEvent::SpeedUp)
            } else if c == '-' || c == '_' {
                Some(InputEvent::SpeedDown)
            } else if c == 'n' || c == 'N' {
                Some(InputEvent::InjectNeutrons)
            } else if c == 'l' || c == 'L' {
                Some(InputEvent::ToggleLegend)
            } else {
                None
            }
        },
        Key::Esc => Some(InputEvent::Quit),
        Key::Up => Some(InputEvent::RodsUp),
        Key::Down => Some(InputEvent::RodsDown),
        Key::Right => Some(InputEvent::CoolantFlowUp),
        Key::Left => Some(InputEvent::CoolantFlowDown),
        Key::Enter | Key::Other => None,
    }
}

/// Maps a key press of the terminal front end to a command.
pub fn map_key(key: Key, control: bool) -> (event: Option<InputEvent>)
    ensures
        event == binding(key, control),
{
    match key {
        Key::Char('q') | Key::Esc => Some(InputEvent::Quit),
        Key::Char('c') if control => Some(InputEvent::Quit),
        Key::Char(' ') => Some(InputEvent::Pause),
        Key::Char('s') | Key::Char('S') => Some(InputEvent::Scram),
        Key::Char('r') | Key::Char('R') => Some(InputEvent::Reset),
        Key::Up => Some(InputEvent::RodsUp),
        Key::Down => Some(InputEvent::RodsDown),
        Key::Char('a') | Key::Char('A') => Some(InputEvent::ToggleAutoControl),
        Key::Char('+') | Key::Char('=') => Some(InputEvent::SpeedUp),
        Key::Char('-') | Key::Char('_') => Some(InputEvent::SpeedDown),
        Key::Char('n') | Key::Char('N') => Some(InputEvent::InjectNeutrons),
        Key::Char('l') | Key::Char('L') => Some(InputEvent::ToggleLegend),
        Key::Right => Some(InputEvent::CoolantFlowUp),
        Key::Left => Some(InputEvent::CoolantFlowDown),
        _ => None,
    }
}

} // verus!
