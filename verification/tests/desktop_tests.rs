use cloud_satchel::fullscreen::{
    is_fullscreen_candidate, is_fullscreen_effective, is_fullscreen_window, is_system_app_path,
    window_covers_monitor, FullscreenFlags,
};
use cloud_satchel::geom::Rect;
use cloud_satchel::hooks::{DoubleClickDetector, PressKind};
use cloud_satchel::icons::{
    desktop_point_state, ensure_icons_restored, fade_plan, icon_visibility, is_icons_hidden,
    selection_from_reply, HookEventFlag, IconVisibility, SelectionState,
};
use cloud_satchel::window_style::{fix_due, frame_is_bad, nc_message_result, tool_window_styles};

fn r(left: i32, top: i32, right: i32, bottom: i32) -> Rect {
    Rect { left, top, right, bottom }
}

#[test]
fn icon_visibility_from_alpha() {
    assert_eq!(icon_visibility(true, Some(0)), IconVisibility::Hidden);
    assert_eq!(icon_visibility(true, Some(255)), IconVisibility::Visible);
    assert_eq!(icon_visibility(true, Some(128)), IconVisibility::Animating);
    assert_eq!(icon_visibility(true, None), IconVisibility::Visible);
    assert_eq!(icon_visibility(false, Some(0)), IconVisibility::Visible);
    assert!(is_icons_hidden(true, Some(10)));
    assert!(!is_icons_hidden(true, None));
    assert!(ensure_icons_restored(true, Some(254)));
    assert!(!ensure_icons_restored(true, Some(255)));
}

#[test]
fn fade_runs_to_the_target() {
    let hide = fade_plan(true, IconVisibility::Visible, Some(255), 256);
    assert_eq!(hide.len(), 255);
    assert_eq!(hide[0], 254);
    assert_eq!(*hide.last().unwrap(), 0);
    let show = fade_plan(false, IconVisibility::Animating, Some(200), 256);
    assert_eq!(show.len(), 55);
    assert_eq!(*show.last().unwrap(), 255);
    assert!(fade_plan(true, IconVisibility::Hidden, Some(0), 256).is_empty());
    assert!(fade_plan(false, IconVisibility::Visible, Some(255), 256).is_empty());
    assert_eq!(fade_plan(true, IconVisibility::Visible, Some(255), 3), vec![254, 253, 252]);
}

#[test]
fn desktop_hit_test_and_selection() {
    let lists = [(11isize, r(0, 0, 1920, 1080)), (22isize, r(1920, 0, 3840, 1080))];
    let st = desktop_point_state(2000, 10, 5, "SysListView32".into(), "WorkerW".into(), &lists);
    assert!(st.on_desktop);
    assert_eq!(st.list_view, 22);
    let st = desktop_point_state(10, 10, 5, "Chrome".into(), "Chrome_WidgetWin_1".into(), &lists);
    assert!(!st.on_desktop);
    assert_eq!(st.list_view, 0);
    let st = desktop_point_state(10, 10, 0, "".into(), "Progman".into(), &lists);
    assert!(!st.on_desktop);
    assert_eq!(selection_from_reply(11, true, usize::MAX), SelectionState::NoneSelected);
    assert_eq!(selection_from_reply(11, true, 3), SelectionState::Selected(3));
    assert_eq!(selection_from_reply(11, false, 3), SelectionState::Unknown);
    assert_eq!(selection_from_reply(0, true, 3), SelectionState::Unknown);
    let mut f = HookEventFlag::new();
    assert!(!f.take_hook_event());
    f.set_hook_event();
    assert!(f.take_hook_event());
    assert!(!f.take_hook_event());
}

#[test]
fn double_click_on_blank_desktop_toggles_once() {
    let mut d = DoubleClickDetector::new();
    assert_eq!(d.classify(1000, 100, 100, false), PressKind::First);
    d.record_first(1000, 100, 100, true, SelectionState::NoneSelected);
    assert!(d.first_on_desktop());
    assert_eq!(d.classify(1300, 104, 98, true), PressKind::Second);
    assert!(d.finish_second(1300, true, false, SelectionState::NoneSelected));
    // the duplicated double-click message is a tail
    assert_eq!(d.classify(1310, 104, 98, true), PressKind::Tail);
    // too slow or too far: a new first press
    d.record_first(2000, 100, 100, true, SelectionState::NoneSelected);
    assert_eq!(d.classify(2600, 100, 100, false), PressKind::First);
    assert_eq!(d.classify(2100, 120, 100, false), PressKind::First);
}

#[test]
fn double_click_on_an_icon_does_not_toggle_visible_icons() {
    let mut d = DoubleClickDetector::new();
    d.record_first(1000, 100, 100, true, SelectionState::Selected(2));
    assert!(!d.needs_recheck(SelectionState::Selected(2)));
    assert!(!d.finish_second(1200, true, false, SelectionState::Selected(2)));
    // hidden icons are shown again whatever is selected
    d.record_first(2000, 100, 100, true, SelectionState::Selected(2));
    assert!(d.finish_second(2200, true, true, SelectionState::Selected(2)));
    // a toggle within 250 ms of the previous one is ignored
    d.record_first(2300, 100, 100, true, SelectionState::NoneSelected);
    assert!(!d.finish_second(2400, true, true, SelectionState::NoneSelected));
}

#[test]
fn fullscreen_decisions() {
    let m = r(0, 0, 1920, 1080);
    assert!(window_covers_monitor(m, m));
    assert!(window_covers_monitor(r(-8, -8, 1928, 1088), m));
    // a maximised window leaves the taskbar strip
    assert!(!window_covers_monitor(r(0, 0, 1920, 1040), m));
    assert!(!window_covers_monitor(r(0, 0, 0, 0), m));
    assert!(is_fullscreen_effective(5, 5, true, false));
    assert!(!is_fullscreen_effective(5, 5, false, true));
    assert!(is_fullscreen_effective(5, 6, false, true));
    assert!(is_fullscreen_candidate(true, false, false, false, "Chrome_WidgetWin_1", "Video"));
    assert!(!is_fullscreen_candidate(true, false, false, false, "WorkerW", ""));
    assert!(!is_fullscreen_candidate(true, false, false, false, "X", "云笈"));
    assert!(!is_fullscreen_candidate(true, false, true, false, "X", "Video"));
    assert!(is_fullscreen_window(true, false, true));
    assert!(!is_fullscreen_window(true, true, true));
    assert!(is_system_app_path("c:\\windows\\SystemApps\\ShellExperienceHost.exe", None));
    assert!(is_system_app_path("D:\\WIN\\systemapps\\x.exe", Some("D:\\Win\\".into())));
    assert!(!is_system_app_path("C:\\Program Files\\x.exe", None));
    assert!(!is_system_app_path("", None));
    let mut f = FullscreenFlags::new();
    f.set_any_fullscreen(true);
    assert!(f.is_any_fullscreen());
    f.set_foreground_maximized(true);
    assert!(f.is_foreground_maximized());
}

#[test]
fn tool_window_styles_remove_the_frame() {
    let style = 0x14CB_0000u32;
    let ex = 0x0004_0000u32;
    assert!(frame_is_bad(style, ex));
    let (s2, e2) = tool_window_styles(style, ex);
    assert_eq!(s2, 0x9400_0000);
    assert_eq!(e2, 0x0000_0080);
    assert!(!frame_is_bad(s2, e2));
    assert_eq!(tool_window_styles(s2, e2), (s2, e2));
    assert!(fix_due(1500, 1000));
    assert!(!fix_due(1499, 1000));
    assert!(fix_due(10, u64::MAX - 600));
    assert_eq!(nc_message_result(0x86), Some(1));
    assert_eq!(nc_message_result(0x85), Some(0));
    assert_eq!(nc_message_result(0x83), Some(0));
    assert_eq!(nc_message_result(0x84), None);
}
