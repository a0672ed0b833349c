use docksync::config::{
    parse_dock_side, side_from_persisted, DockConfig, DockSide, DEFAULT_PANEL_WIDTH,
    MAX_PANEL_WIDTH, MIN_PANEL_WIDTH,
};

#[test]
fn width_clamped_to_minimum() {
    let mut config = DockConfig::new();
    config.set_panel_width(5);
    assert_eq!(config.panel_width, MIN_PANEL_WIDTH);
    assert_eq!(config.panel_width, 80);
}

#[test]
fn width_clamped_to_maximum() {
    let mut config = DockConfig::new();
    config.set_panel_width(9999);
    assert_eq!(config.panel_width, MAX_PANEL_WIDTH);
    assert_eq!(config.panel_width, 150);
}

#[test]
fn width_in_range_stored_unchanged() {
    let mut config = DockConfig::new();
    config.set_panel_width(120);
    assert_eq!(config.panel_width, 120);
    config.set_panel_width(80);
    assert_eq!(config.panel_width, 80);
    config.set_panel_width(150);
    assert_eq!(config.panel_width, 150);
}

#[test]
fn fresh_config_defaults() {
    let config = DockConfig::new();
    assert_eq!(config.panel_width, DEFAULT_PANEL_WIDTH);
    assert_eq!(config.side, DockSide::Left);
    assert!(!config.sidebar_on_right());
}

#[test]
fn set_dock_side_stores_side() {
    let mut config = DockConfig::new();
    config.set_dock_side(DockSide::Right);
    assert_eq!(config.side, DockSide::Right);
    assert!(config.sidebar_on_right());
    config.set_dock_side(DockSide::Left);
    assert_eq!(config.side, DockSide::Left);
    assert!(!config.sidebar_on_right());
}

#[test]
fn parse_dock_side_case_insensitive() {
    assert_eq!(parse_dock_side("right"), DockSide::Right);
    assert_eq!(parse_dock_side("RIGHT"), DockSide::Right);
    assert_eq!(parse_dock_side("Right"), DockSide::Right);
    assert_eq!(parse_dock_side("rIgHt"), DockSide::Right);
    assert_eq!(parse_dock_side("left"), DockSide::Left);
    assert_eq!(parse_dock_side("LEFT"), DockSide::Left);
}

#[test]
fn parse_dock_side_invalid_defaults_left() {
    assert_eq!(parse_dock_side(""), DockSide::Left);
    assert_eq!(parse_dock_side("rights"), DockSide::Left);
    assert_eq!(parse_dock_side("righ"), DockSide::Left);
    assert_eq!(parse_dock_side("middle"), DockSide::Left);
}

#[test]
fn parse_dock_side_non_ascii_defaults_left() {
    assert_eq!(parse_dock_side("右侧"), DockSide::Left);
    assert_eq!(parse_dock_side("right "), DockSide::Left);
}

#[test]
fn persisted_side_absent_defaults_left() {
    assert_eq!(side_from_persisted(None), DockSide::Left);
    assert_eq!(side_from_persisted(Some("right")), DockSide::Right);
    assert_eq!(side_from_persisted(Some("garbage")), DockSide::Left);
}
