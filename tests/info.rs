use fishtank::render::info::Info;

#[test]
fn closed_info_panel_is_empty() {
    let info = Info::default();
    assert!(!info.visible());
    assert!(info.render().is_empty());
    assert_eq!(Info::render_width(), 20);
    assert_eq!(Info::render_height(), 6);
}

#[test]
fn info_panel_shows_figures() {
    let mut info = Info::default();
    info.toggle_visibility();
    info.update(10000, 42, 7, 598);
    let text: String = info.render().into_iter().collect();
    let expected = [
        "┌──────────────────┐",
        "│Particles: 10000  │",
        "│Sim: 4.2 ms       │",
        "│Render: 0.7 ms    │",
        "│FPS: 59.8         │",
        "└──────────────────┘",
    ]
    .concat();
    assert_eq!(text, expected);
    let panel = info.panel();
    assert!(!panel.anchor_right);
    assert_eq!(panel.width, 20);
    assert_eq!(panel.height, 6);
    assert_eq!(panel.text.len(), 120);
}

#[test]
fn long_info_line_is_not_cut() {
    let mut info = Info::default();
    info.toggle_visibility();
    info.update(usize::MAX, 0, 123456, 5);
    let text: String = info.render().into_iter().collect();
    assert!(text.contains(&format!("│Particles: {}│", usize::MAX)));
    assert!(text.contains("│Render: 12345.6 ms│"));
    assert!(text.contains(&format!("│{:<18}│", "FPS: 0.5")));
}
