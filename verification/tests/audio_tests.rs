use cloud_satchel::audio::{
    app_display_name, media_action, parse_format, thumb_key, thumbnail_data_url, AudioFlags,
    MediaAction, PanelEvent, ThumbCache, WaveMonitor,
};

#[test]
fn thumb_cache_stale_cover_not_shown_until_confirmed() {
    let mut cache = ThumbCache::new();
    let t0: u64 = 10_000;

    let r1 = cache.cached_thumbnail("songB", t0, || "OLD_COVER".to_string());
    assert_eq!(r1, "", "未确认候选不应展示");

    let r2 = cache.cached_thumbnail("songB", t0 + 400, || "OLD_COVER".to_string());
    assert_eq!(r2, "", "旧封面稳定不足确认窗口，不应展示");

    let r3 = cache.cached_thumbnail("songB", t0 + 1500, || "NEW_COVER".to_string());
    assert_eq!(r3, "", "新封面首次出现尚未确认");

    let r4 = cache.cached_thumbnail("songB", t0 + 1900, || "NEW_COVER".to_string());
    assert_eq!(r4, "NEW_COVER", "稳定后应确认并展示新封面");

    let r5 = cache.cached_thumbnail("songB", t0 + 2300, || panic!("不应再次加载"));
    assert_eq!(r5, "NEW_COVER");
}

#[test]
fn thumb_cache_accepts_empty_cover_after_three_reads() {
    let mut c = ThumbCache::new();
    assert_eq!(c.cached_thumbnail("k", 0, String::new), "");
    assert!(!c.refresh_due_for("k", 999));
    assert!(c.refresh_due_for("k", 1000));
    c.cached_thumbnail("k", 1000, String::new);
    c.cached_thumbnail("k", 2000, String::new);
    assert!(!c.entry.as_ref().unwrap().confirmed);
    c.cached_thumbnail("k", 3000, String::new);
    assert!(c.entry.as_ref().unwrap().confirmed);
    assert!(!c.refresh_due_for("k", 9000));
    assert_eq!(c.cached_thumbnail("k", 4000, || panic!("confirmed")), "");
    // a new track starts a new candidate
    assert_eq!(c.cached_thumbnail("other", 5000, || "X".to_string()), "");
    assert!(c.refresh_due_for("other", 5400));
}

#[test]
fn parse_format_detects_float() {
    let f = parse_format(1, 0, false, 44100, 2, 16);
    assert!(!f.is_float);
    assert_eq!(f.sample_rate, 44100);
    assert_eq!(f.channels, 2);
    assert_eq!(f.bits, 16);
    assert!(parse_format(3, 0, false, 48000, 2, 32).is_float);
    assert!(parse_format(0xFFFE, 22, true, 48000, 2, 32).is_float);
    assert!(!parse_format(0xFFFE, 10, true, 48000, 2, 32).is_float);
    let g = parse_format(1, 0, false, 8000, 0, 8);
    assert_eq!((g.sample_rate, g.channels, g.bits), (44100, 1, 16));
}

#[test]
fn cover_bytes_become_data_urls() {
    assert_eq!(thumbnail_data_url(b"\x89PNG\r\n\x1a\nab"), "data:image/png;base64,iVBORw0KGgphYg==");
    assert_eq!(thumbnail_data_url(b"GIF89a"), "data:image/gif;base64,R0lGODlh");
    assert!(thumbnail_data_url(b"\xff\xd8\xff\xe0").starts_with("data:image/jpeg;base64,"));
    assert!(thumbnail_data_url(b"RIFF\0\0\0\0WEBPVP8 ").starts_with("data:image/webp;base64,"));
    assert!(thumbnail_data_url(b"\0\0\0\x1cftypavif").starts_with("data:image/avif;base64,"));
    assert_eq!(thumbnail_data_url(b"RIFF\0\0\0\0WAVE"), "");
    assert_eq!(thumbnail_data_url(b"BM"), "data:image/bmp;base64,Qk0=");
    assert_eq!(thumbnail_data_url(b"hello"), "");
}

#[test]
fn display_names_and_actions() {
    assert_eq!(app_display_name("", Some("X".into())), "");
    assert_eq!(app_display_name("AppleInc.AppleMusicWin_x!App", Some("Apple Music".into())), "Apple Music");
    assert_eq!(app_display_name("Microsoft.Media!App", Some(String::new())), "Microsoft.Media");
    assert_eq!(app_display_name("wmplayer", None), "wmplayer");
    assert_eq!(thumb_key("t", "a", "b", "app"), "t|a|b|app");
    assert_eq!(media_action("play"), Some(MediaAction::Play));
    assert_eq!(media_action("prev"), Some(MediaAction::Prev));
    assert_eq!(media_action("stop"), None);
}

#[test]
fn fallback_panel_needs_two_seconds_of_sound() {
    let mut m = WaveMonitor::new();
    for _ in 0..19 {
        assert_eq!(m.on_frame(true, false), PanelEvent::Nothing);
    }
    assert_eq!(m.on_frame(true, false), PanelEvent::ShowFallback);
    assert_eq!(m.on_frame(true, false), PanelEvent::Nothing);
    for _ in 0..9 {
        assert_eq!(m.on_frame(false, false), PanelEvent::Nothing);
    }
    assert_eq!(m.on_frame(false, false), PanelEvent::HideFallback);
    let mut s = WaveMonitor::new();
    for _ in 0..30 {
        assert_eq!(s.on_frame(true, true), PanelEvent::Nothing);
    }
    assert!(!s.fallback_on);
    for _ in 0..20 {
        s.on_frame(false, false);
    }
    assert!(s.release_when_silent(true));
    assert_eq!(s.silent_ticks, 0);
}

#[test]
fn flags_stop_and_enable() {
    let mut f = AudioFlags::new();
    f.set_enabled(true);
    f.smtc_playing = true;
    f.stop();
    assert!(!f.running && !f.smtc_playing && f.enabled);
}

#[test]
fn short_sounds_never_show_the_fallback() {
    let mut m = WaveMonitor::new();
    // Beeps of up to 1.9 s separated by short pauses never reach 2 s of sound.
    for _ in 0..5 {
        for _ in 0..19 {
            assert_eq!(m.on_frame(true, false), PanelEvent::Nothing);
        }
        assert_eq!(m.on_frame(false, false), PanelEvent::Nothing);
    }
    for _ in 0..19 {
        assert_eq!(m.on_frame(true, false), PanelEvent::Nothing);
    }
    assert_eq!(m.on_frame(true, false), PanelEvent::ShowFallback);
    // Pauses under a second keep it shown.
    for _ in 0..9 {
        assert_eq!(m.on_frame(false, false), PanelEvent::Nothing);
    }
    assert_eq!(m.on_frame(true, false), PanelEvent::Nothing);
    for _ in 0..9 {
        assert_eq!(m.on_frame(false, false), PanelEvent::Nothing);
    }
    assert_eq!(m.on_frame(false, false), PanelEvent::HideFallback);
}
