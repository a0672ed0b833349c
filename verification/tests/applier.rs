use docksync::applier::{apply_plan, plan_sync, ApplyError, PanelModel, SyncPlan};
use docksync::config::{DockConfig, DockSide};
use docksync::geometry::{WindowRect, SCALE_MILLI_ONE};

fn test_config(side: DockSide) -> DockConfig {
    let mut config = DockConfig::new();
    config.set_panel_width(80);
    config.set_dock_side(side);
    config
}

#[test]
fn missing_panel_reports_not_present() {
    let config = test_config(DockSide::Right);
    let primary = WindowRect { x: 0, y: 0, width: 800, height: 600 };
    let r = plan_sync(false, Some(primary), &config, SCALE_MILLI_ONE, true);
    assert_eq!(r, Err(ApplyError::NotPresent));
}

#[test]
fn unavailable_primary_reports_unavailable() {
    let config = test_config(DockSide::Right);
    let r = plan_sync(true, None, &config, SCALE_MILLI_ONE, true);
    assert_eq!(r, Err(ApplyError::PrimaryUnavailable));
}

#[test]
fn degenerate_primary_shows_without_resizing() {
    let config = test_config(DockSide::Right);
    let primary = WindowRect { x: 100, y: 100, width: 800, height: 0 };
    let plan = plan_sync(true, Some(primary), &config, SCALE_MILLI_ONE, true).unwrap();
    assert_eq!(plan.target, None);
    assert!(!plan.raise_focus);

    let before = PanelModel {
        rect: WindowRect { x: 7, y: 8, width: 90, height: 100 },
        visible: false,
        primary_focused: false,
    };
    let mut panel = before;
    apply_plan(&mut panel, &plan);
    // The panel is shown but keeps its existing geometry.
    assert!(panel.visible);
    assert_eq!(panel.rect, before.rect);
}

#[test]
fn full_sync_plan_carries_computed_target() {
    let config = test_config(DockSide::Right);
    let primary = WindowRect { x: 100, y: 100, width: 800, height: 600 };
    let plan = plan_sync(true, Some(primary), &config, SCALE_MILLI_ONE, true).unwrap();
    assert_eq!(plan.target, Some(WindowRect { x: 900, y: 100, width: 84, height: 600 }));
    assert!(plan.raise_focus);

    let mut panel = PanelModel {
        rect: WindowRect { x: 0, y: 0, width: 1, height: 1 },
        visible: false,
        primary_focused: false,
    };
    apply_plan(&mut panel, &plan);
    assert_eq!(panel.rect, WindowRect { x: 900, y: 100, width: 84, height: 600 });
    assert!(panel.visible);
    assert!(panel.primary_focused);
}

#[test]
fn applying_same_target_twice_changes_nothing() {
    let plan = SyncPlan {
        target: Some(WindowRect { x: 900, y: 100, width: 84, height: 600 }),
        raise_focus: true,
    };
    let mut panel = PanelModel {
        rect: WindowRect { x: 3, y: 4, width: 5, height: 6 },
        visible: false,
        primary_focused: false,
    };
    apply_plan(&mut panel, &plan);
    let after_first = panel;
    apply_plan(&mut panel, &plan);
    assert_eq!(panel, after_first);
}

#[test]
fn non_focus_raising_plan_keeps_focus_state() {
    let config = test_config(DockSide::Left);
    let primary = WindowRect { x: 100, y: 100, width: 800, height: 600 };
    let plan = plan_sync(true, Some(primary), &config, SCALE_MILLI_ONE, false).unwrap();
    assert_eq!(plan.target, Some(WindowRect { x: 20, y: 100, width: 96, height: 600 }));
    assert!(!plan.raise_focus);

    let mut panel = PanelModel {
        rect: WindowRect { x: 0, y: 0, width: 1, height: 1 },
        visible: false,
        primary_focused: false,
    };
    apply_plan(&mut panel, &plan);
    assert!(!panel.primary_focused);
}
