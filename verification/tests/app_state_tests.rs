use cloud_satchel::app_state::{
    clamp_perf_interval, hotkey_sync, normalize_model, normalize_theme, registration_result,
    validate_hotkey_input, AppState, HotkeyKind, HotkeySync, ToggleStart,
};
use cloud_satchel::hotkey::{HotKeySpec, MOD_CONTROL, MOD_SHIFT};
use cloud_satchel::icons::IconVisibility;

#[test]
fn defaults_at_first_start() {
    let s = AppState::new();
    assert!(s.toggle.enabled);
    assert_eq!(s.theme, "system");
    assert_eq!(s.ai_model, "gpt-4o-mini");
    assert_eq!(s.ai_base_url, "https://api.openai.com/v1");
    assert_eq!(s.privacy_boss_key, "Ctrl+`");
    assert_eq!(s.ai_popup_hotkey, "Ctrl+Shift+Space");
    assert_eq!((s.audio_panel_x, s.audio_panel_y), (-1, -1));
    assert_eq!(s.perf_interval_ms, 1000);
    assert!(s.close_to_tray);
}

#[test]
fn double_click_during_a_fade_is_queued_not_lost() {
    let mut s = AppState::new();
    assert_eq!(s.start_toggle(IconVisibility::Visible), ToggleStart::Run(true));
    assert_eq!(s.start_toggle(IconVisibility::Animating), ToggleStart::Queued);
    let f = s.finish_toggle(true);
    assert!(f.run_queued && !f.restore_icons);
    assert!(s.toggle.icons_hidden);
    assert_eq!(s.start_toggle(IconVisibility::Hidden), ToggleStart::Run(false));
    let f = s.finish_toggle(false);
    assert!(!f.run_queued);
    assert!(!s.toggle.icons_hidden);
}

#[test]
fn real_mid_fade_state_waits() {
    let mut s = AppState::new();
    assert_eq!(s.start_toggle(IconVisibility::Animating), ToggleStart::Queued);
    assert!(s.toggle.pending_toggle && !s.toggle.animating);
}

#[test]
fn turning_the_feature_off_shows_the_icons() {
    let mut s = AppState::new();
    assert_eq!(s.start_toggle(IconVisibility::Visible), ToggleStart::Run(true));
    s.start_toggle(IconVisibility::Visible);
    assert!(s.set_enabled(false));
    assert!(!s.set_enabled(false));
    assert!(!s.toggle.pending_toggle);
    let f = s.finish_toggle(true);
    assert!(f.restore_icons && !f.run_queued);
    assert!(!s.toggle.icons_hidden);
    assert_eq!(s.start_toggle(IconVisibility::Visible), ToggleStart::Ignored);
}

#[test]
fn taskbar_look_follows_switch_and_fullscreen() {
    let mut s = AppState::new();
    assert_eq!(s.taskbar_sync_target(), None);
    assert!(s.set_taskbar_transparent(true));
    assert_eq!(s.taskbar_sync_target(), Some(true));
    assert!(!s.taskbar_sync_done(true, true));
    assert_eq!(s.taskbar_sync_target(), None);
    assert!(s.on_fullscreen(true));
    assert!(!s.desired_taskbar_visual());
    assert_eq!(s.taskbar_sync_target(), Some(false));
    s.taskbar_sync_done(false, true);
    assert!(s.on_fullscreen(false));
    assert_eq!(s.taskbar_sync_target(), Some(true));
    // the engine failed: the switch goes back off
    assert!(s.taskbar_sync_done(true, false));
    assert!(!s.taskbar.transparent && !s.taskbar.applied);
    assert_eq!(s.taskbar_sync_target(), None);
    assert!(!s.exit_restores_taskbar());
}

#[test]
fn settings_are_normalised() {
    assert_eq!(normalize_theme("dark"), "dark");
    assert_eq!(normalize_theme("light"), "light");
    assert_eq!(normalize_theme("Dark"), "system");
    assert_eq!(normalize_model("  "), "gpt-4o-mini");
    assert_eq!(normalize_model(" deepseek-chat "), "deepseek-chat");
    assert_eq!(clamp_perf_interval(50), 200);
    assert_eq!(clamp_perf_interval(5000), 1000);
    assert_eq!(clamp_perf_interval(500), 500);
    let mut s = AppState::new();
    s.set_privacy_idle_secs(1);
    assert_eq!(s.privacy_idle_secs, 10);
    assert_eq!(s.set_perf_interval_ms(100), 200);
    s.set_ai_base_url("https://api.deepseek.com/");
    assert_eq!(s.ai_base_url, "https://api.deepseek.com");
    s.set_theme("neon");
    assert_eq!(s.theme, "system");
    s.set_audio_panel_position(10, 20);
    assert_eq!((s.audio_panel_x, s.audio_panel_y), (10, 20));
    assert!(s.set_privacy_enabled(true) && !s.set_privacy_enabled(true));
    assert!(s.set_autohide_enabled(true));
    assert!(s.set_performance_monitor(true));
    assert!(s.set_ai_popup_enabled(false));
    assert!(s.set_audio_panel_enabled(false));
    assert!(s.on_privacy_active(true) && !s.on_privacy_active(true));
}

#[test]
fn hotkeys_follow_their_switches() {
    assert_eq!(hotkey_sync(HotkeyKind::BossKey, false, "garbage"), Ok(HotkeySync::Unregister));
    assert_eq!(
        hotkey_sync(HotkeyKind::AiPopup, true, "Ctrl+Shift+Space"),
        Ok(HotkeySync::Register(HotKeySpec { modifiers: MOD_CONTROL | MOD_SHIFT, vk: 0x20 }))
    );
    assert_eq!(
        hotkey_sync(HotkeyKind::BossKey, true, "Ctrl+"),
        Err("快捷键格式无效：Ctrl+（示例：Ctrl+`、Ctrl+Shift+Space）".to_string())
    );
    assert_eq!(
        hotkey_sync(HotkeyKind::AiPopup, true, "Nope+Q"),
        Err("快捷键格式无效：Nope+Q（示例：Ctrl+Shift+Space）".to_string())
    );
    assert_eq!(registration_result(true, "Ctrl+`"), Ok(()));
    assert_eq!(
        registration_result(false, "Ctrl+`"),
        Err("快捷键注册失败：Ctrl+`（可能被其他程序占用）".to_string())
    );
    assert_eq!(validate_hotkey_input(HotkeyKind::BossKey, "  Ctrl+Alt+K "), Ok("Ctrl+Alt+K".to_string()));
    assert_eq!(
        validate_hotkey_input(HotkeyKind::AiPopup, " x+y "),
        Err("快捷键格式无效：x+y（示例：Ctrl+Shift+Space）".to_string())
    );
}
