//! What each key and mouse event does to the settings and the mouse force.
//! The event source reports the event, and carries out the reaction that
//! comes back.

use vstd::prelude::*;
use crate::sim::settings::Settings;
use crate::sim::MouseForce;

verus! {

/// A key press, as far as the controls tell keys apart.
#[derive(Clone, Copy, Debug, PartialEq, Eq, Structural)]
pub enum Key {
    Char(char),
    Up,
    Down,
    Left,
    Right,
    Other,
}

/// What the event source has to do after a key press.
#[derive(Clone, Copy, Debug, PartialEq, Eq, Structural)]
pub enum Reaction {
    /// Nothing beyond what was done to the settings.
    Continue,
    /// Stop the program.
    Quit,
    /// Open or close the timing panel.
    ToggleInfo,
    /// Grow or shrink the particle store to this many particles.
    SyncParticleCount(usize),
}

/// A mouse button.
#[derive(Clone, Copy, Debug, PartialEq, Eq, Structural)]
pub enum Button {
    Left,
    Right,
    Middle,
}

/// A mouse event, as far as the controls tell them apart.
#[derive(Clone, Copy, Debug, PartialEq, Eq, Structural)]
pub enum MouseAction {
    Press(Button),
    Drag(Button),
    Release,
    Other,
}

/// The effect of `key` on settings `before`, leaving `after` and asking for
/// `r`.
pub open spec fn key_effect(before: Settings, after: Settings, key: Key, r: Reaction) -> bool {
    match key {
        Key::Char('q') => after == before && r == Reaction::Quit,
        Key::Char('s') => after.toggled_from(&before) && r == Reaction::Continue,
        Key::Char('i') => after == before && r == Reaction::ToggleInfo,
        Key::Char('r') => after.reset_from(&before) && r == Reaction::SyncParticleCount(
            after.spec_value(0),
        ),
        Key::Down => after.next_from(&before) && r == Reaction::Continue,
        Key::Up => after.prev_from(&before) && r == Reaction::Continue,
        Key::Right => after.inc_from(&before) && r == Reaction::SyncParticleCount(
            after.spec_value(0),
        ),
        Key::Left => after.dec_from(&before) && r == Reaction::SyncParticleCount(
            after.spec_value(0),
        ),
        _ => after == before && r == Reaction::Continue,
    }
}

/// The mouse force after a mouse event at text cell (`column`, `row`), when
/// it was `before`.
pub open spec fn mouse_effect(before: MouseForce, action: MouseAction, column: u16, row: u16) -> MouseForce {
    match action {
        MouseAction::Press(b) | MouseAction::Drag(b) => match b {
            Button::Left => MouseForce::Positive { x: column as u32, y: (2 * row) as u32 },
            Button::Right => MouseForce::Negative { x: column as u32, y: (2 * row) as u32 },
            Button::Middle => before,
        },
        MouseAction::Release => MouseForce::Inactive,
        MouseAction::Other => before,
    }
}

/// Applies a key press to the settings: `q` quits, `s` opens or closes the
/// settings panel, `i` the timing panel, the arrows move the selection and
/// step the selected setting, `r` resets it. A change that may touch the
/// particle count asks for the store to follow it.
pub fn handle_key(settings: &mut Settings, key: Key) -> (r: Reaction)
    requires
        old(settings).wf(),
    ensures
        final(settings).wf(),
        key_effect(*old(settings), *final(settings), key, r),
{
    match key {
        Key::Char(c) => {
            if c == 'q' {
                Reaction::Quit
            } else if c == 's' {
                settings.toggle_visibility();
                Reaction::Continue
            } else if c == 'i' {
                Reaction::ToggleInfo
            } else if c == 'r' {
                settings.reset_selected();
                Reaction::SyncParticleCount(settings.particle_count())
            } else {
                Reaction::Continue
            }
        },
        Key::Down => {
            settings.select_next();
            Reaction::Continue
        },
        Key::Up => {
            settings.select_prev();
            Reaction::Continue
        },
        Key::Right => {
            settings.inc_selected();
            Reaction::SyncParticleCount(settings.particle_count())
        },
        Key::Left => {
            settings.dec_selected();
            Reaction::SyncParticleCount(settings.particle_count())
        },
        Key::Other => Reaction::Continue,
    }
}

/// Applies a mouse event at text cell (`column`, `row`): a left press or
/// drag attracts to that point, a right one repels from it, a release
/// removes the force, and anything else keeps it.
pub fn handle_mouse(force: &mut MouseForce, action: MouseAction, column: u16, row: u16)
    ensures
        *final(force) == mouse_effect(*old(force), action, column, row),
{
    let x = column as u32;
    let y = 2 * (row as u32);
    match action {
        MouseAction::Press(b) | MouseAction::Drag(b) => match b {
            Button::Left => force.set_positive(x, y),
            Button::Right => force.set_negative(x, y),
            Button::Middle => {},
        },
        MouseAction::Release => force.reset(),
        MouseAction::Other => {},
    }
}

} // verus!
