use docksync::config::DockSide;
use docksync::geometry::{compute_target, WindowRect, SCALE_MILLI_ONE};

#[test]
fn right_dock_geometry() {
    let primary = WindowRect { x: 100, y: 100, width: 800, height: 600 };
    let target = compute_target(primary, 80, DockSide::Right, SCALE_MILLI_ONE).unwrap();
    assert_eq!(target, WindowRect { x: 900, y: 100, width: 84, height: 600 });
}

#[test]
fn left_dock_geometry() {
    let primary = WindowRect { x: 100, y: 100, width: 800, height: 600 };
    let target = compute_target(primary, 80, DockSide::Left, SCALE_MILLI_ONE).unwrap();
    assert_eq!(target, WindowRect { x: 20, y: 100, width: 96, height: 600 });
}

#[test]
fn left_dock_clamps_to_screen_edge() {
    let primary = WindowRect { x: 50, y: 10, width: 400, height: 300 };
    let target = compute_target(primary, 80, DockSide::Left, SCALE_MILLI_ONE).unwrap();
    assert_eq!(target.x, 0);
    assert_eq!(target.width, 96);
}

#[test]
fn degenerate_primary_height_not_computable() {
    let primary = WindowRect { x: 100, y: 100, width: 800, height: 0 };
    assert!(compute_target(primary, 80, DockSide::Right, SCALE_MILLI_ONE).is_none());
}

#[test]
fn degenerate_primary_width_not_computable() {
    let primary = WindowRect { x: 100, y: 100, width: 0, height: 600 };
    assert!(compute_target(primary, 80, DockSide::Left, SCALE_MILLI_ONE).is_none());
}

#[test]
fn panel_width_scales_with_rounding() {
    // 85 logical px at scale 1.5 is 127.5 physical px, rounded half-up to 128.
    let primary = WindowRect { x: 0, y: 0, width: 800, height: 600 };
    let target = compute_target(primary, 85, DockSide::Right, 1500).unwrap();
    assert_eq!(target.width, 128 + 4);
    assert_eq!(target.x, 800);
}

#[test]
fn top_edges_align_and_heights_match() {
    let primary = WindowRect { x: -30, y: 250, width: 640, height: 480 };
    let right = compute_target(primary, 100, DockSide::Right, SCALE_MILLI_ONE).unwrap();
    assert_eq!(right.y, 250);
    assert_eq!(right.height, 480);
    let left = compute_target(primary, 100, DockSide::Left, SCALE_MILLI_ONE).unwrap();
    assert_eq!(left.y, 250);
    assert_eq!(left.height, 480);
    assert_eq!(left.x, 0);
}
