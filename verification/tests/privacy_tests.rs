use cloud_satchel::geom::Rect;
use cloud_satchel::privacy::{
    clamp_idle_secs, idle_ms_between, in_taskbar_area, is_fullscreen_window, restore_sequence,
    should_collect, snapshot_after, trigger_plan, window_restore, AutohideAction, EdgeAction,
    PrivacyAction, PrivacyMonitor, PrivacySnapshot, RestoreStep, SavedWindow, WindowRestore,
};

fn win(hwnd: isize, was_maximized: bool, was_fullscreen: bool) -> SavedWindow {
    SavedWindow { hwnd, was_maximized, was_fullscreen }
}

#[test]
fn idle_seconds_are_clamped() {
    assert_eq!(clamp_idle_secs(0), 10);
    assert_eq!(clamp_idle_secs(60), 60);
    assert_eq!(clamp_idle_secs(100_000), 3600);
}

#[test]
fn idle_time_survives_tick_wrap_around() {
    assert_eq!(idle_ms_between(5000, 1000), 4000);
    assert_eq!(idle_ms_between(100, u32::MAX - 99), 200);
}

#[test]
fn privacy_triggers_once_and_restores_on_input() {
    let mut m = PrivacyMonitor::new(1000);
    let a = m.configure(true, 10, false, 60);
    assert!(!a.restore_privacy && !a.show_taskbar);
    // 5 s idle: nothing
    let (ah, pa) = m.idle_step(false, 1000, 6000, false);
    assert_eq!((ah, pa), (AutohideAction::Nothing, PrivacyAction::Nothing));
    // 10 s idle: trigger
    let (_, pa) = m.idle_step(false, 1000, 11_000, false);
    assert_eq!(pa, PrivacyAction::Trigger);
    assert!(m.is_triggered());
    // still idle: not triggered again
    let (_, pa) = m.idle_step(false, 1000, 20_000, false);
    assert_eq!(pa, PrivacyAction::Nothing);
    // the sequence ran
    let snap = snapshot_after(vec![win(7, true, false)], trigger_plan(false, false), true, true);
    assert!(m.complete_trigger(snap).is_none());
    // input: restore
    let (_, pa) = m.idle_step(false, 21_000, 21_500, false);
    assert_eq!(pa, PrivacyAction::Restore);
    let s = m.take_restore().expect("the record is handed out once");
    assert!(!m.is_triggered());
    assert!(m.take_restore().is_none());
    assert_eq!(
        restore_sequence(&s),
        vec![
            RestoreStep::Window(win(7, true, false), WindowRestore::Maximize),
            RestoreStep::ShowIcons,
            RestoreStep::ShowTaskbar,
            RestoreStep::Unmute,
        ]
    );
}

#[test]
fn restore_only_undoes_what_was_done() {
    let snap = snapshot_after(vec![], trigger_plan(true, true), true, false);
    assert!(!snap.hid_icons && !snap.hid_taskbar && !snap.muted_by_us);
    assert!(restore_sequence(&snap).is_empty());
    // the hide call failed: the taskbar is not restored
    let snap = snapshot_after(vec![], trigger_plan(false, false), false, true);
    assert_eq!(restore_sequence(&snap), vec![RestoreStep::ShowIcons, RestoreStep::Unmute]);
}

#[test]
fn switching_privacy_off_while_triggered_restores() {
    let mut m = PrivacyMonitor::new(0);
    m.configure(true, 10, true, 10);
    assert!(m.begin_trigger());
    assert!(!m.begin_trigger());
    m.autohide_hidden();
    let a = m.configure(false, 10, false, 10);
    assert!(a.restore_privacy && a.show_taskbar);
    assert!(!m.autohide_applied);
}

#[test]
fn stop_hands_back_everything_to_undo() {
    let mut m = PrivacyMonitor::new(0);
    assert!(m.start());
    assert!(!m.start());
    m.configure(true, 10, true, 10);
    m.begin_trigger();
    m.complete_trigger(PrivacySnapshot { windows: vec![], hid_icons: true, hid_taskbar: false, muted_by_us: false });
    m.autohide_hidden();
    let (snap, show) = m.stop();
    assert!(snap.expect("triggered").hid_icons);
    assert!(show);
    assert!(!m.running && !m.is_triggered() && !m.autohide_applied);
}

#[test]
fn a_restore_that_got_in_first_gets_the_record_back() {
    let mut m = PrivacyMonitor::new(0);
    m.begin_trigger();
    assert!(m.take_restore().is_none());
    let undo = m.complete_trigger(PrivacySnapshot { windows: vec![], hid_icons: true, hid_taskbar: true, muted_by_us: true });
    assert!(undo.is_some());
}

#[test]
fn autohide_hides_after_idle_and_pauses_for_fullscreen() {
    let mut m = PrivacyMonitor::new(0);
    m.configure(false, 60, true, 10);
    let (ah, _) = m.idle_step(false, 0, 9_000, false);
    assert_eq!(ah, AutohideAction::Nothing);
    let (ah, _) = m.idle_step(false, 0, 10_000, true);
    assert_eq!(ah, AutohideAction::Nothing); // an animation runs
    let (ah, _) = m.idle_step(false, 0, 10_000, false);
    assert_eq!(ah, AutohideAction::TryHide);
    m.autohide_hidden();
    let (ah, _) = m.idle_step(false, 0, 20_000, false);
    assert_eq!(ah, AutohideAction::Nothing);
    let (ah, _) = m.idle_step(true, 0, 21_000, false);
    assert_eq!(ah, AutohideAction::Show);
    assert!(!m.autohide_applied);
}

#[test]
fn edge_pops_up_and_hides_again_after_delay() {
    let mut m = PrivacyMonitor::new(0);
    m.configure(false, 60, true, 10);
    // not applied yet: the edge check does nothing
    assert_eq!(m.edge_step(true, true, false, 0), EdgeAction::Nothing);
    m.autohide_hidden();
    assert_eq!(m.edge_step(true, true, false, 100), EdgeAction::Show);
    assert_eq!(m.edge_step(false, false, false, 1000), EdgeAction::Nothing);
    assert_eq!(m.last_leave, Some(1000));
    assert_eq!(m.edge_step(false, false, false, 2400), EdgeAction::Nothing);
    assert_eq!(m.edge_step(false, false, false, 2500), EdgeAction::Hide);
    assert_eq!(m.last_leave, None);
    // during an animation nothing happens
    assert_eq!(m.edge_step(true, true, true, 3000), EdgeAction::Nothing);
}

#[test]
fn idle_checks_every_twentieth_tick() {
    let mut m = PrivacyMonitor::new(0);
    let due: Vec<bool> = (0..40).map(|_| m.advance_tick()).collect();
    assert_eq!(due.iter().filter(|d| **d).count(), 2);
    assert!(due[19] && due[39]);
}

#[test]
fn taskbar_area_is_padded_by_four_pixels() {
    let bars = [Rect { left: 0, top: 1040, right: 1920, bottom: 1080 }];
    assert!(in_taskbar_area(100, 1036, &bars));
    assert!(!in_taskbar_area(100, 1035, &bars));
    assert!(in_taskbar_area(1924, 1084, &bars));
    assert!(!in_taskbar_area(1925, 1060, &bars));
    assert!(!in_taskbar_area(0, 0, &[]));
}

#[test]
fn window_collection_and_restore_rules() {
    assert!(should_collect(true, false, false, false, "Notepad"));
    assert!(!should_collect(true, true, false, false, "Notepad"));
    assert!(!should_collect(true, false, true, false, "Notepad"));
    assert!(!should_collect(true, false, false, true, "Notepad"));
    assert!(!should_collect(true, false, false, false, "Progman"));
    assert!(!should_collect(true, false, false, false, "Shell_SecondaryTrayWnd"));
    assert!(!should_collect(false, false, false, false, "Notepad"));
    assert_eq!(window_restore(win(1, true, true)), WindowRestore::Maximize);
    assert_eq!(window_restore(win(1, false, true)), WindowRestore::Fullscreen);
    assert_eq!(window_restore(win(1, false, false)), WindowRestore::Normal);
    let m = Rect { left: 0, top: 0, right: 1920, bottom: 1080 };
    assert!(is_fullscreen_window(m, m));
    assert!(!is_fullscreen_window(Rect { left: 0, top: 0, right: 1920, bottom: 1040 }, m));
}
