use fishtank::sim::settings::Settings;

fn expected_panel(settings: &Settings) -> String {
    let names = [
        "Particles",
        "Gravity",
        "Density",
        "Viscosity",
        "Stiffness",
        "Smoothing Rad",
        "Dampening",
        "Mouse Force",
        "Mouse Radius",
    ];
    let precisions = [0usize, 1, 1, 1, 0, 1, 2, 1, 0];
    let mut out = String::new();
    out.push('┌');
    out.push_str(&"─".repeat(24));
    out.push('┐');
    let params = settings.params();
    for idx in 0..9 {
        let marker = if settings.selected_idx() == idx { '>' } else { ' ' };
        let value = *params[idx].value();
        let value_str = if idx == 0 {
            format!("{}", value)
        } else {
            format!("{:.prec$}", value as f64 / 100.0, prec = precisions[idx])
        };
        let name_col = format!("{:<15}", format!("{} {}", marker, names[idx]));
        let line = format!("{:<24}", format!("{} {:>7}", name_col, value_str));
        out.push_str(&format!("│{}│", line));
    }
    out.push('└');
    out.push_str(&"─".repeat(24));
    out.push('┘');
    out
}

#[test]
fn closed_panel_is_empty() {
    let s = Settings::default();
    assert!(s.render().is_empty());
    assert_eq!(Settings::render_width(), 26);
    assert_eq!(Settings::render_height(), 11);
}

#[test]
fn panel_lists_every_setting() {
    let mut s = Settings::default();
    s.toggle_visibility();
    let text: String = s.render().into_iter().collect();
    assert_eq!(text, expected_panel(&s));
    assert_eq!(text.chars().count(), 26 * 11);
    let lines: Vec<String> = text.chars().collect::<Vec<_>>().chunks(26).map(|c| c.iter().collect()).collect();
    assert_eq!(lines[1], "│> Particles       10000 │");
    assert_eq!(lines[2], "│  Gravity          15.0 │");
    assert_eq!(lines[7], "│  Dampening        0.01 │");
}

#[test]
fn panel_follows_selection_and_values() {
    let mut s = Settings::default();
    s.toggle_visibility();
    for _ in 0..7 {
        s.select_next();
    }
    s.inc_selected();
    s.select_prev();
    s.dec_selected();
    let text: String = s.render().into_iter().collect();
    assert_eq!(text, expected_panel(&s));
    let panel = s.panel();
    assert_eq!(panel.width, 26);
    assert_eq!(panel.height, 11);
    assert!(panel.anchor_right);
    assert_eq!(panel.text, s.render());
}
