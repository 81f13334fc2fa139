use fishtank::controls::{handle_key, handle_mouse, Button, Key, MouseAction, Reaction};
use fishtank::sim::MouseForce;
use fishtank::sim::settings::Settings;

#[test]
fn keys_drive_the_settings() {
    let mut s = Settings::default();
    assert_eq!(handle_key(&mut s, Key::Right), Reaction::SyncParticleCount(10000));
    assert_eq!(handle_key(&mut s, Key::Char('s')), Reaction::Continue);
    assert!(s.visible());
    assert_eq!(handle_key(&mut s, Key::Right), Reaction::SyncParticleCount(10500));
    assert_eq!(handle_key(&mut s, Key::Left), Reaction::SyncParticleCount(10000));
    assert_eq!(handle_key(&mut s, Key::Left), Reaction::SyncParticleCount(9500));
    assert_eq!(handle_key(&mut s, Key::Char('r')), Reaction::SyncParticleCount(10000));
    assert_eq!(handle_key(&mut s, Key::Down), Reaction::Continue);
    assert_eq!(s.selected_idx(), 1);
    assert_eq!(handle_key(&mut s, Key::Up), Reaction::Continue);
    assert_eq!(handle_key(&mut s, Key::Up), Reaction::Continue);
    assert_eq!(s.selected_idx(), 8);
    assert_eq!(handle_key(&mut s, Key::Char('i')), Reaction::ToggleInfo);
    assert_eq!(handle_key(&mut s, Key::Char('x')), Reaction::Continue);
    assert_eq!(handle_key(&mut s, Key::Other), Reaction::Continue);
    assert_eq!(handle_key(&mut s, Key::Char('q')), Reaction::Quit);
    assert_eq!(s.selected_idx(), 8);
}

#[test]
fn mouse_sets_the_well() {
    let mut force = MouseForce::Inactive;
    handle_mouse(&mut force, MouseAction::Press(Button::Left), 40, 10);
    assert_eq!(force, MouseForce::Positive { x: 40, y: 20 });
    handle_mouse(&mut force, MouseAction::Press(Button::Middle), 1, 1);
    assert_eq!(force, MouseForce::Positive { x: 40, y: 20 });
    handle_mouse(&mut force, MouseAction::Other, 1, 1);
    assert_eq!(force, MouseForce::Positive { x: 40, y: 20 });
    handle_mouse(&mut force, MouseAction::Drag(Button::Right), 3, u16::MAX);
    assert_eq!(force, MouseForce::Negative { x: 3, y: 2 * u16::MAX as u32 });
    handle_mouse(&mut force, MouseAction::Release, 1, 1);
    assert_eq!(force, MouseForce::Inactive);
}

#[test]
fn mouse_force_setters() {
    let mut force = MouseForce::Inactive;
    force.set_positive(1, 2);
    assert_eq!(force, MouseForce::Positive { x: 1, y: 2 });
    force.set_negative(5, 6);
    assert_eq!(force, MouseForce::Negative { x: 5, y: 6 });
    force.reset();
    assert_eq!(force, MouseForce::Inactive);
}
