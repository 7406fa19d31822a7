use cloud_satchel::geom::Rect;
use cloud_satchel::taskbar::{
    accent_policy, anim_y, backend_for, is_autohide, is_taskbar_class, registry_fix, restore,
    restored_top, set_transparent, slide_range, AutohideAnimator, Backend, RegistryFix,
};
use cloud_satchel::taskbar_engine::{
    is_engine_process, is_removable_engine_dir, is_up_to_date, nul_terminated_len, EngineAction,
    EngineState,
};

#[test]
fn backend_follows_build_number() {
    assert_eq!(backend_for(Some(19045)), Backend::Accent);
    assert_eq!(backend_for(Some(22000)), Backend::Engine);
    assert_eq!(backend_for(Some(26200)), Backend::Engine);
    assert_eq!(backend_for(None), Backend::Accent);
    assert!(set_transparent(Some(19045), true, false));
    assert!(!set_transparent(Some(22631), true, false));
    assert!(set_transparent(Some(22631), true, true));
    assert!(!restore(Some(22631), false));
    assert!(restore(None, false));
}

#[test]
fn accent_policy_is_a_clear_gradient() {
    assert_eq!(accent_policy(true).accent_state, 2);
    assert_eq!(accent_policy(false).accent_state, 0);
    assert_eq!(accent_policy(true).gradient_color, 0);
    assert!(is_taskbar_class("Shell_TrayWnd"));
    assert!(is_taskbar_class("Shell_SecondaryTrayWnd"));
    assert!(!is_taskbar_class("Progman"));
}

#[test]
fn hidden_state_of_the_taskbar() {
    let bar = Rect { left: 0, top: 1040, right: 1920, bottom: 1080 };
    let mon = Rect { left: 0, top: 0, right: 1920, bottom: 1080 };
    assert!(!is_autohide(false, false, None));
    assert!(is_autohide(true, false, None));
    assert!(!is_autohide(true, true, Some((bar, mon))));
    let below = Rect { left: 0, top: 1080, right: 1920, bottom: 1120 };
    assert!(is_autohide(true, true, Some((below, mon))));
    assert!(!is_autohide(true, true, None));
}

#[test]
fn animator_follows_the_latest_request() {
    let mut a = AutohideAnimator::new();
    let r = a.set_autohide(false, true);
    assert!(!r.ok && !r.spawn);
    let r = a.set_autohide(true, true);
    assert!(r.ok && r.spawn);
    assert!(a.is_animating());
    // a request during the animation only changes the target
    let r = a.set_autohide(true, false);
    assert!(r.ok && !r.spawn);
    assert_eq!(a.next_move(true), Some(false));
    assert_eq!(a.next_move(false), None);
    assert!(!a.is_animating());
}

#[test]
fn slide_moves_in_twelve_steps() {
    let bar = Rect { left: 0, top: 1040, right: 1920, bottom: 1080 };
    let (y0, y1) = slide_range(bar, Some(1080), true);
    assert_eq!((y0, y1), (1040, 1080));
    assert_eq!(anim_y(y0, y1, 0), 1040);
    assert_eq!(anim_y(y0, y1, 6), 1060);
    assert_eq!(anim_y(y0, y1, 12), 1080);
    let below = Rect { left: 0, top: 1080, right: 1920, bottom: 1120 };
    let (s0, s1) = slide_range(below, Some(1080), false);
    assert_eq!((s0, s1), (1080, 1040));
    assert_eq!(anim_y(s0, s1, 1), 1077); // -40 / 12 rounds toward zero
    assert_eq!(anim_y(s0, s1, 12), 1040);
    assert_eq!(slide_range(bar, None, true), (1040, 1080));
}

#[test]
fn start_up_repair() {
    let below = Rect { left: 0, top: 1080, right: 1920, bottom: 1120 };
    assert_eq!(restored_top(below, 1080), Some(1040));
    let bar = Rect { left: 0, top: 1040, right: 1920, bottom: 1080 };
    assert_eq!(restored_top(bar, 1080), None);
    assert_eq!(registry_fix(None), RegistryFix::Nothing);
    assert_eq!(registry_fix(Some(u32::MAX)), RegistryFix::DeleteValue);
    assert_eq!(registry_fix(Some(1)), RegistryFix::WriteValue(1));
}

#[test]
fn engine_processes_are_recognised_by_full_path() {
    let exe = "C:\\Users\\a\\AppData\\Local\\AsYouWishToolBox\\taskbar-engine\\TranslucentTB.exe";
    assert!(is_engine_process("translucenttb.EXE", Some("c:\\users\\A\\appdata\\local\\asyouwishtoolbox\\taskbar-engine\\translucenttb.exe"), exe));
    assert!(!is_engine_process("TranslucentTB.exe", Some("C:\\Program Files\\TranslucentTB\\TranslucentTB.exe"), exe));
    assert!(!is_engine_process("TranslucentTB.exe", None, exe));
    assert!(!is_engine_process("explorer.exe", Some(exe), exe));
    assert_eq!(nul_terminated_len(&[84, 66, 0, 7]), 2);
    assert_eq!(nul_terminated_len(&[84, 66]), 2);
    assert!(is_up_to_date(Some(10), 10));
    assert!(!is_up_to_date(Some(9), 10));
    assert!(!is_up_to_date(None, 10));
    assert!(is_removable_engine_dir(true, Some("taskbar-engine")));
    assert!(!is_removable_engine_dir(false, Some("taskbar-engine")));
    assert!(!is_removable_engine_dir(true, Some("Local")));
}

#[test]
fn engine_state_stops_only_its_own_process() {
    let mut e = EngineState::new();
    assert_eq!(e.set(true), EngineAction::Start);
    assert!(e.started(Some(4242)));
    assert_eq!(e.set(false), EngineAction::Stop(Some(4242)));
    assert_eq!(e.stop(), EngineAction::Stop(None));
    assert!(!e.started(None));
}
