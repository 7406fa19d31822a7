use cloud_satchel::geom::Rect;
use cloud_satchel::perf_widget::{
    blocked_now, compute_rect, items_from_strings, label_text, plan_rows, scale_px, segment_plan,
    taskbar_slid_out, theme_from_registry, tray_anchor, value_column, ColKind, ItemKind, Metric, SegSlot,
    Theme, WidgetConfig, REG_DWORD,
};

fn rect(left: i32, top: i32, right: i32, bottom: i32) -> Rect {
    Rect { left, top, right, bottom }
}

#[test]
fn items_respect_order_and_whitelist() {
    let parsed = items_from_strings(&[
        "memory".into(),
        "bogus".into(),
        "cpu".into(),
        "memory".into(),
        "net".into(),
    ]);
    assert_eq!(parsed, vec![ItemKind::Memory, ItemKind::Cpu, ItemKind::Net]);
    assert!(items_from_strings(&[]).is_empty());
    assert!(items_from_strings(&["gpu".into()]).is_empty());
}

#[test]
fn gpu_temp_item_is_recognised() {
    let parsed = items_from_strings(&["gpu_temp".into(), "cpu".into(), "gpu_temp".into()]);
    assert_eq!(parsed, vec![ItemKind::GpuTemp, ItemKind::Cpu]);
}

#[test]
fn rows_wrap_to_two_lines_when_too_wide() {
    // fits on one row
    let rows = plan_rows(&[100, 100], 8, 20, 480);
    assert_eq!(rows.len(), 1);
    assert_eq!(rows[0], vec![0, 1]);
    // does not fit: the third item moves to the second row
    let rows = plan_rows(&[200, 200, 200], 8, 20, 480);
    assert_eq!(rows.len(), 2);
    assert_eq!(rows[0], vec![0, 1]);
    assert_eq!(rows[1], vec![2]);
    // never more than two rows
    let rows = plan_rows(&[400, 400, 400, 400], 8, 20, 480);
    assert_eq!(rows.len(), 2);
    assert_eq!(rows[1], vec![1, 2, 3]);
    // a single over-wide item still takes one row
    let rows = plan_rows(&[900], 8, 20, 480);
    assert_eq!(rows.len(), 1);
    assert_eq!(rows[0], vec![0]);
}

#[test]
fn rows_of_nothing_are_one_empty_row() {
    let rows = plan_rows(&[], 8, 20, 480);
    assert_eq!(rows.len(), 1);
    assert!(rows[0].is_empty());
}

#[test]
fn geometry_anchors_left_of_tray_on_bottom_taskbar() {
    let monitor = rect(0, 0, 2048, 1152);
    let taskbar = rect(0, 1104, 2048, 1152);
    let r = compute_rect(taskbar, monitor, 1774, 240, 96, 0).expect("bottom taskbar shows the widget");
    assert_eq!(r.height, 48);
    assert_eq!(r.top, 1104);
    assert_eq!(r.width, 240);
    assert_eq!(r.left + r.width, 1774 - 6);

    // user adjustment (logical pixels)
    let shifted = compute_rect(taskbar, monitor, 1774, 240, 96, 20).expect("shown");
    assert_eq!(shifted.left, r.left + 20);

    // 125 %: gap and adjustment scale
    let scaled = compute_rect(taskbar, monitor, 1774, 240, 120, 20).expect("shown");
    assert_eq!(scaled.left + scaled.width, 1774 - 8 + 25);

    // clamped at the left edge of the screen
    let clamped = compute_rect(taskbar, monitor, 100, 400, 96, -150).expect("shown");
    assert_eq!(clamped.left, 2);
}

#[test]
fn geometry_rejects_non_bottom_and_vertical_taskbars() {
    let monitor = rect(0, 0, 2048, 1152);
    assert!(compute_rect(rect(0, 0, 2048, 48), monitor, 1774, 240, 96, 0).is_none());
    assert!(compute_rect(rect(0, 0, 48, 1152), monitor, 40, 240, 96, 0).is_none());
    let bar = rect(0, 1104, 2048, 1152);
    assert!(compute_rect(bar, monitor, 1774, 0, 96, 0).is_none());
    let slid = rect(0, 1130, 2048, 1178);
    assert!(taskbar_slid_out(slid, monitor));
    assert!(!taskbar_slid_out(bar, monitor));
}

#[test]
fn geometry_rejects_short_taskbar_and_unknown_dpi_is_100_percent() {
    let monitor = rect(0, 0, 2048, 1152);
    assert!(compute_rect(rect(0, 1140, 2048, 1152), monitor, 1774, 240, 96, 0).is_none());
    let bar = rect(0, 1104, 2048, 1152);
    assert_eq!(compute_rect(bar, monitor, 1774, 240, 0, 0), compute_rect(bar, monitor, 1774, 240, 96, 0));
}

#[test]
fn scaling_rounds_half_away_from_zero() {
    assert_eq!(scale_px(6, 120), 8); // 7.5
    assert_eq!(scale_px(-6, 120), -8);
    assert_eq!(scale_px(20, 120), 25);
    assert_eq!(scale_px(240, 144), 360);
    assert_eq!(scale_px(1, 0), 1);
    assert_eq!(tray_anchor(None, 2048, 96), 2048 - 240);
    assert_eq!(tray_anchor(Some(1774), 2048, 96), 1774);
}

#[test]
fn segments_follow_item_order_and_separators() {
    let segs = segment_plan(&[ItemKind::Cpu, ItemKind::Memory, ItemKind::Net]);
    assert_eq!(
        segs,
        vec![
            SegSlot::Label(Metric::Cpu),
            SegSlot::Value(Metric::Cpu),
            SegSlot::Separator,
            SegSlot::Label(Metric::Memory),
            SegSlot::Value(Metric::Memory),
            SegSlot::Separator,
            SegSlot::Label(Metric::NetUp),
            SegSlot::Value(Metric::NetUp),
            SegSlot::Label(Metric::NetDown),
            SegSlot::Value(Metric::NetDown),
        ]
    );
    assert_eq!(segs.iter().filter(|s| **s == SegSlot::Separator).count(), 2);
    let reordered = segment_plan(&[ItemKind::Memory, ItemKind::Cpu]);
    assert_eq!(reordered[0], SegSlot::Label(Metric::Memory));
    assert_eq!(reordered[2], SegSlot::Separator);
    assert_eq!(reordered[3], SegSlot::Label(Metric::Cpu));
    assert!(segment_plan(&[]).is_empty());
    assert_eq!(label_text(Metric::Memory), "内存");
    assert_eq!(label_text(Metric::NetUp), "↑");
    assert_eq!(value_column(Metric::GpuTemp), ColKind::Temp);
    assert_eq!(value_column(Metric::NetDown), ColKind::Rate);
}

#[test]
fn widget_config_switches() {
    let mut c = WidgetConfig::new();
    assert!(!c.is_active());
    assert!(c.set_enabled(true));
    assert!(!c.set_enabled(true));
    c.set_monitor_on(true);
    assert!(!c.is_active());
    c.set_items(vec!["cpu".to_string(), "nope".to_string()]);
    assert_eq!(c.items, vec![ItemKind::Cpu]);
    assert!(c.is_active());
    c.set_offset_x(500);
    assert_eq!(c.offset_x, 150);
    c.set_offset_x(-500);
    assert_eq!(c.offset_x, -150);
    c.set_offset_x(12);
    assert_eq!(c.offset_x, 12);
    c.stop();
    assert!(c.stop_requested);
    assert!(blocked_now(false, false, true));
    assert!(!blocked_now(false, false, false));
}

#[test]
fn taskbar_theme_from_registry_value() {
    assert!(matches!(theme_from_registry(true, REG_DWORD, 1), Theme::Light));
    assert!(matches!(theme_from_registry(true, REG_DWORD, 0), Theme::Dark));
    assert!(matches!(theme_from_registry(false, REG_DWORD, 1), Theme::Dark));
    assert!(matches!(theme_from_registry(true, 1, 1), Theme::Dark));
}
