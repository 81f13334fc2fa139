use fishtank::sim::settings::{Settings, DAMPENING, GRAVITY, PARTICLE_COUNT, SMOOTHING_RADIUS};

#[test]
fn move_cursor() {
    let mut settings = Settings::default();
    settings.toggle_visibility();

    assert_eq!(settings.selected_idx(), 0);
    settings.select_next();
    assert_eq!(settings.selected_idx(), 1);
    settings.select_prev();
    assert_eq!(settings.selected_idx(), 0);
}

#[test]
fn wrap_cursor() {
    let mut settings = Settings::default();
    settings.toggle_visibility();

    assert_eq!(settings.selected_idx(), 0);
    settings.select_prev();
    assert_eq!(settings.selected_idx(), Settings::num_settings() - 1);
    settings.select_next();
    assert_eq!(settings.selected_idx(), 0);
}

#[test]
fn default_values() {
    let s = Settings::default();
    assert!(!s.visible());
    assert_eq!(s.particle_count(), 10000);
    assert_eq!(s.gravity(), 1500);
    assert_eq!(s.target_density(), 100);
    assert_eq!(s.viscosity(), 200);
    assert_eq!(s.stiffness(), 300000);
    assert_eq!(s.smoothing_radius(), 200);
    assert_eq!(s.dampening(), 1);
    assert_eq!(s.mouse_force_strength(), 300);
    assert_eq!(s.mouse_force_radius(), 1500);
    assert_eq!(s.smoothing_radius_sq(), 40000);
    assert_eq!(s.cell_size(), 1800);
    assert_eq!(Settings::num_settings(), 9);
}

#[test]
fn closed_panel_ignores_keys() {
    let mut s = Settings::default();
    s.select_next();
    assert_eq!(s.selected_idx(), 0);
    s.inc_selected();
    assert_eq!(s.particle_count(), 10000);
    s.dec_selected();
    assert_eq!(s.particle_count(), 10000);
}

#[test]
fn adjust_selected_setting_within_bounds() {
    let mut s = Settings::default();
    s.toggle_visibility();
    s.inc_selected();
    assert_eq!(s.particle_count(), 10500);
    for _ in 0..100 {
        s.inc_selected();
    }
    assert_eq!(s.particle_count(), 20000);
    for _ in 0..100 {
        s.dec_selected();
    }
    assert_eq!(s.particle_count(), 500);
    s.reset_selected();
    assert_eq!(s.particle_count(), 10000);

    s.select_next();
    assert_eq!(s.selected_idx(), GRAVITY);
    s.dec_selected();
    assert_eq!(s.gravity(), 1400);
    assert_eq!(s.particle_count(), 10000);
}

#[test]
fn params_in_panel_order() {
    let mut s = Settings::default();
    s.toggle_visibility();
    for _ in 0..DAMPENING {
        s.select_next();
    }
    s.inc_selected();
    assert_eq!(s.dampening(), 2);
    let params = s.params();
    assert_eq!(*params[PARTICLE_COUNT].value(), 10000);
    assert_eq!(*params[DAMPENING].value(), 2);
    assert_eq!(*params[SMOOTHING_RADIUS].value(), 200);
    assert_eq!(params[DAMPENING].max, 100);
    assert_eq!(*s.param(GRAVITY).value(), 1500);
}
