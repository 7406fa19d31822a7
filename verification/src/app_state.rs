//! The application's switches and the decisions taken when they change:
//! the desktop double-click toggle (never losing a double-click that comes
//! during an animation), the taskbar look (the user's switch combined with
//! fullscreen, converging on what could really be applied), and the
//! validation of the settings that the front end sends.
use vstd::prelude::*;
use crate::geom::spec_clamp;
use crate::hotkey::{parse_hotkey, spec_parse_hotkey, HotKeySpec};
use crate::icons::IconVisibility;
use crate::text::{chars_of, owned, push_str, str_eq, string_from_seq, trim, trim_chars};

verus! {

/// Sampling interval range of the performance monitor (ms).
pub const PERF_INTERVAL_MIN: u32 = 200;
pub const PERF_INTERVAL_MAX: u32 = 1000;
/// Hotkey ids (the `wParam` of `WM_HOTKEY`).
pub const BOSS_KEY_HOTKEY_ID: i32 = 0x1301;
pub const AI_POPUP_HOTKEY_ID: i32 = 0x1701;

/// The model used when none is configured.
pub open spec fn default_model() -> Seq<char> {
    "gpt-4o-mini"@
}

// ---------------------------------------------------------------------------
// Desktop toggle
// ---------------------------------------------------------------------------

/// The flags of the desktop icon toggle.
#[derive(Clone, Copy, Debug, PartialEq, Eq, Structural)]
pub struct ToggleFlags {
    /// The double-click feature is on.
    pub enabled: bool,
    /// The icons are hidden (as of the last finished fade).
    pub icons_hidden: bool,
    /// A fade runs.
    pub animating: bool,
    /// A toggle request arrived during a fade; it runs when the fade ends.
    pub pending_toggle: bool,
}

/// What a toggle request leads to.
#[derive(Clone, Copy, Debug, PartialEq, Eq, Structural)]
pub enum ToggleStart {
    /// The feature is off: nothing happens.
    Ignored,
    /// A fade is running: the request waits for it.
    Queued,
    /// Start a fade; `true` hides the icons.
    Run(bool),
}

/// What the end of a fade leads to.
#[derive(Clone, Copy, Debug, PartialEq, Eq, Structural)]
pub struct ToggleFinish {
    /// The feature was turned off meanwhile: undo the fade, icons visible.
    pub restore_icons: bool,
    /// A request waited: run it now.
    pub run_queued: bool,
}

/// A toggle request. The direction follows the icons' real visibility (a
/// real mid-fade state also waits).
pub open spec fn spec_start_toggle(t: ToggleFlags, vis: IconVisibility) -> (ToggleFlags, ToggleStart) {
    if !t.enabled {
        (t, ToggleStart::Ignored)
    } else if t.animating {
        (ToggleFlags { pending_toggle: true, ..t }, ToggleStart::Queued)
    } else {
        match vis {
            IconVisibility::Hidden => (ToggleFlags { animating: true, ..t }, ToggleStart::Run(false)),
            IconVisibility::Visible => (ToggleFlags { animating: true, ..t }, ToggleStart::Run(true)),
            IconVisibility::Animating => (ToggleFlags { pending_toggle: true, ..t }, ToggleStart::Queued),
        }
    }
}

/// The end of a fade towards `target_hidden`.
pub open spec fn spec_finish_toggle(t: ToggleFlags, target_hidden: bool) -> (ToggleFlags, ToggleFinish) {
    (
        ToggleFlags {
            enabled: t.enabled,
            icons_hidden: if t.enabled { target_hidden } else { false },
            animating: false,
            pending_toggle: false,
        },
        ToggleFinish { restore_icons: !t.enabled, run_queued: t.pending_toggle },
    )
}

/// Switching the feature: when it goes off, the icons are shown and a waiting
/// request is dropped.
pub open spec fn spec_set_enabled(t: ToggleFlags, enabled: bool) -> (ToggleFlags, bool) {
    if t.enabled == enabled {
        (t, false)
    } else if enabled {
        (ToggleFlags { enabled: true, ..t }, true)
    } else {
        (ToggleFlags { enabled: false, icons_hidden: false, pending_toggle: false, ..t }, true)
    }
}

/// A double-click that arrives while a fade runs is not lost: it waits, and
/// the end of the fade runs it.
pub proof fn law_toggle_not_lost(t: ToggleFlags, vis: IconVisibility, target_hidden: bool)
    requires
        t.enabled,
        t.animating,
    ensures
        spec_start_toggle(t, vis).1 == ToggleStart::Queued,
        spec_finish_toggle(spec_start_toggle(t, vis).0, target_hidden).1.run_queued,
{
}

/// At most one fade runs: a fade only starts when none runs, and then one does.
pub proof fn law_single_fade(t: ToggleFlags, vis: IconVisibility)
    ensures
        spec_start_toggle(t, vis).1 is Run ==> !t.animating && spec_start_toggle(t, vis).0.animating,
        spec_start_toggle(t, vis).0.animating == (t.animating || spec_start_toggle(t, vis).1 is Run),
{
}

/// A toggle hides visible icons and shows hidden ones; when the fade ends with
/// the feature still on, the recorded state is the fade's target.
pub proof fn law_toggle_flips_visibility(t: ToggleFlags, vis: IconVisibility)
    requires
        t.enabled,
        !t.animating,
        vis != IconVisibility::Animating,
    ensures
        ({
            let (t1, r) = spec_start_toggle(t, vis);
            &&& r == ToggleStart::Run(vis == IconVisibility::Visible)
            &&& spec_finish_toggle(t1, vis == IconVisibility::Visible).0.icons_hidden == (vis == IconVisibility::Visible)
        }),
{
}

/// Turning the feature off always leaves the icons visible: at once, and also
/// when a fade that was running ends afterwards.
pub proof fn law_disable_shows_icons(t: ToggleFlags, target_hidden: bool)
    requires
        t.enabled,
    ensures
        ({
            let t1 = spec_set_enabled(t, false).0;
            &&& !t1.icons_hidden && !t1.pending_toggle
            &&& !spec_finish_toggle(t1, target_hidden).0.icons_hidden
            &&& spec_finish_toggle(t1, target_hidden).1.restore_icons
            &&& !spec_finish_toggle(t1, target_hidden).1.run_queued
        }),
{
}

// ---------------------------------------------------------------------------
// Taskbar look
// ---------------------------------------------------------------------------

/// The taskbar flags: the user's switch, fullscreen content in front, and
/// what is really applied.
#[derive(Clone, Copy, Debug, PartialEq, Eq, Structural)]
pub struct TaskbarFlags {
    pub transparent: bool,
    pub fullscreen_active: bool,
    pub applied: bool,
}

/// The look the taskbar should have: transparent when the user wants it and
/// nothing is fullscreen.
pub open spec fn spec_desired_visual(f: TaskbarFlags) -> bool {
    f.transparent && !f.fullscreen_active
}

/// After a transparency request for `desired` with outcome `ok`: the applied
/// look is the request's on success and the default otherwise; a failed
/// switch-on also turns the user's switch off, so that the switch shows the
/// truth.
pub open spec fn spec_sync_done(f: TaskbarFlags, desired: bool, ok: bool) -> TaskbarFlags {
    TaskbarFlags {
        transparent: if !ok && desired { false } else { f.transparent },
        fullscreen_active: f.fullscreen_active,
        applied: if ok { desired } else { false },
    }
}

/// The taskbar sync converges: after a request for the current desired look,
/// the applied look equals the desired look of the resulting flags, whether
/// the request succeeded or not.
pub proof fn law_taskbar_sync_converges(f: TaskbarFlags, ok: bool)
    ensures
        ({
            let g = spec_sync_done(f, spec_desired_visual(f), ok);
            g.applied == spec_desired_visual(g)
        }),
{
}

/// Fullscreen content always gets the default taskbar: with fullscreen
/// active, no request asks for transparency.
pub proof fn law_fullscreen_suspends_transparency(f: TaskbarFlags)
    requires
        f.fullscreen_active,
    ensures
        !spec_desired_visual(f),
        !spec_sync_done(f, spec_desired_visual(f), true).applied,
{
}

// ---------------------------------------------------------------------------
// State
// ---------------------------------------------------------------------------

/// The application state (the settings and the runtime flags).
pub struct AppState {
    pub toggle: ToggleFlags,
    pub taskbar: TaskbarFlags,
    /// "light" | "dark" | "system".
    pub theme: String,
    pub autostart: bool,
    /// Closing the window hides it to the tray (otherwise it quits).
    pub close_to_tray: bool,
    pub performance_monitor: bool,
    pub privacy_enabled: bool,
    pub privacy_idle_secs: u32,
    /// The privacy sequence is triggered (runtime only).
    pub privacy_active: bool,
    pub autohide_enabled: bool,
    pub perf_interval_ms: u32,
    pub ai_model: String,
    pub ai_base_url: String,
    pub privacy_boss_key: String,
    /// Runtime only.
    pub boss_key_registered: bool,
    pub ai_popup_enabled: bool,
    pub ai_popup_hotkey: String,
    /// Runtime only.
    pub ai_popup_registered: bool,
    pub audio_panel_enabled: bool,
    /// Panel position in physical pixels; -1 means the default corner.
    pub audio_panel_x: i32,
    pub audio_panel_y: i32,
}

/// A theme name as stored: "light" or "dark", anything else "system".
pub open spec fn spec_theme(mode: Seq<char>) -> Seq<char> {
    if mode == "light"@ || mode == "dark"@ { mode } else { "system"@ }
}

/// Normalises a theme name ("light" / "dark", otherwise "system").
pub fn normalize_theme(mode: &str) -> (r: String)
    ensures
        r@ == spec_theme(mode@),
{
    if str_eq(mode, "light") || str_eq(mode, "dark") {
        owned(mode)
    } else {
        owned("system")
    }
}

/// The model name as stored: trimmed, the default when empty.
pub open spec fn spec_model(model: Seq<char>) -> Seq<char> {
    if trim(model).len() == 0 { default_model() } else { trim(model) }
}

/// Normalises a model name (trimmed; empty gives the default model).
pub fn normalize_model(model: &str) -> (r: String)
    ensures
        r@ == spec_model(model@),
{
    let cs = chars_of(model);
    let t = trim_chars(cs.as_slice());
    if t.len() == 0 {
        owned("gpt-4o-mini")
    } else {
        string_from_seq(t.as_slice())
    }
}

/// `u32::clamp` of the sampling interval.
pub fn clamp_perf_interval(ms: u32) -> (r: u32)
    ensures
        r == spec_clamp(ms as int, PERF_INTERVAL_MIN as int, PERF_INTERVAL_MAX as int),
{
    crate::geom::clamp_u32(ms, PERF_INTERVAL_MIN, PERF_INTERVAL_MAX)
}

impl AppState {
    /// The state at first start: the double-click feature on, everything else
    /// off, system theme, one minute idle, one-second sampling.
    pub fn new() -> (s: Self)
        ensures
            s.toggle == (ToggleFlags { enabled: true, icons_hidden: false, animating: false, pending_toggle: false }),
            s.taskbar == (TaskbarFlags { transparent: false, fullscreen_active: false, applied: false }),
            s.theme@ == "system"@,
            !s.autostart && s.close_to_tray && !s.performance_monitor,
            !s.privacy_enabled && s.privacy_idle_secs == 60 && !s.privacy_active && !s.autohide_enabled,
            s.perf_interval_ms == 1000,
            s.ai_model@ == default_model(),
            s.ai_base_url@ == crate::ai::default_base_url(),
            s.privacy_boss_key@ == "Ctrl+`"@ && !s.boss_key_registered,
            s.ai_popup_enabled && s.ai_popup_hotkey@ == "Ctrl+Shift+Space"@ && !s.ai_popup_registered,
            s.audio_panel_enabled && s.audio_panel_x == -1 && s.audio_panel_y == -1,
    {
        AppState {
            toggle: ToggleFlags { enabled: true, icons_hidden: false, animating: false, pending_toggle: false },
            taskbar: TaskbarFlags { transparent: false, fullscreen_active: false, applied: false },
            theme: owned("system"),
            autostart: false,
            close_to_tray: true,
            performance_monitor: false,
            privacy_enabled: false,
            privacy_idle_secs: 60,
            privacy_active: false,
            autohide_enabled: false,
            perf_interval_ms: 1000,
            ai_model: owned("gpt-4o-mini"),
            ai_base_url: owned("https://api.openai.com/v1"),
            privacy_boss_key: owned("Ctrl+`"),
            boss_key_registered: false,
            ai_popup_enabled: true,
            ai_popup_hotkey: owned("Ctrl+Shift+Space"),
            ai_popup_registered: false,
            audio_panel_enabled: true,
            audio_panel_x: -1,
            audio_panel_y: -1,
        }
    }

    /// Switches the double-click feature; returns whether it changed (the
    /// caller then starts or stops the hook, and when off shows the icons
    /// once any running fade has ended).
    pub fn set_enabled(&mut self, enabled: bool) -> (changed: bool)
        ensures
            (final(self).toggle, changed) == spec_set_enabled(old(self).toggle, enabled),
            final(self).taskbar == old(self).taskbar,
    {
        if self.toggle.enabled == enabled {
            return false;
        }
        self.toggle.enabled = enabled;
        if !enabled {
            self.toggle.icons_hidden = false;
            self.toggle.pending_toggle = false;
        }
        true
    }

    /// A double-click on the desktop (or a waiting request being run).
    pub fn start_toggle(&mut self, vis: IconVisibility) -> (r: ToggleStart)
        ensures
            (final(self).toggle, r) == spec_start_toggle(old(self).toggle, vis),
            final(self).taskbar == old(self).taskbar,
    {
        if !self.toggle.enabled {
            return ToggleStart::Ignored;
        }
        if self.toggle.animating {
            self.toggle.pending_toggle = true;
            return ToggleStart::Queued;
        }
        match vis {
            IconVisibility::Hidden => {
                self.toggle.animating = true;
                ToggleStart::Run(false)
            },
            IconVisibility::Visible => {
                self.toggle.animating = true;
                ToggleStart::Run(true)
            },
            IconVisibility::Animating => {
                self.toggle.pending_toggle = true;
                ToggleStart::Queued
            },
        }
    }

    /// The fade towards `target_hidden` ended.
    pub fn finish_toggle(&mut self, target_hidden: bool) -> (r: ToggleFinish)
        ensures
            (final(self).toggle, r) == spec_finish_toggle(old(self).toggle, target_hidden),
            final(self).taskbar == old(self).taskbar,
    {
        let restore_icons = !self.toggle.enabled;
        self.toggle.icons_hidden = if self.toggle.enabled { target_hidden } else { false };
        self.toggle.animating = false;
        let run_queued = self.toggle.pending_toggle;
        self.toggle.pending_toggle = false;
        ToggleFinish { restore_icons, run_queued }
    }

    /// Stores the theme (normalised).
    pub fn set_theme(&mut self, mode: &str)
        ensures
            final(self).theme@ == spec_theme(mode@),
            final(self).toggle == old(self).toggle,
            final(self).taskbar == old(self).taskbar,
    {
        self.theme = normalize_theme(mode);
    }

    /// The user's transparency switch; returns whether it changed (the
    /// caller then syncs the taskbar).
    pub fn set_taskbar_transparent(&mut self, enabled: bool) -> (changed: bool)
        ensures
            changed == (old(self).taskbar.transparent != enabled),
            final(self).taskbar == (TaskbarFlags { transparent: enabled, ..old(self).taskbar }),
            final(self).toggle == old(self).toggle,
    {
        let changed = self.taskbar.transparent != enabled;
        self.taskbar.transparent = enabled;
        changed
    }

    /// The look the taskbar should have now.
    pub fn desired_taskbar_visual(&self) -> (b: bool)
        ensures
            b == spec_desired_visual(self.taskbar),
    {
        self.taskbar.transparent && !self.taskbar.fullscreen_active
    }

    /// The transparency request a sync has to make, if the applied look is
    /// not the desired one.
    pub fn taskbar_sync_target(&self) -> (r: Option<bool>)
        ensures
            r == (if spec_desired_visual(self.taskbar) != self.taskbar.applied { Some(spec_desired_visual(self.taskbar)) } else { None }),
    {
        let desired = self.desired_taskbar_visual();
        if desired != self.taskbar.applied { Some(desired) } else { None }
    }

    /// Records the outcome of a transparency request; returns whether the
    /// user's switch was turned back off (the settings must then be saved).
    pub fn taskbar_sync_done(&mut self, desired: bool, ok: bool) -> (rolled_back: bool)
        ensures
            final(self).taskbar == spec_sync_done(old(self).taskbar, desired, ok),
            rolled_back == (!ok && desired),
            final(self).toggle == old(self).toggle,
    {
        self.taskbar.applied = if ok { desired } else { false };
        if !ok && desired {
            self.taskbar.transparent = false;
            true
        } else {
            false
        }
    }

    /// The fullscreen check's result; returns whether it changed (the caller
    /// then syncs the taskbar).
    pub fn on_fullscreen(&mut self, fullscreen: bool) -> (changed: bool)
        ensures
            changed == (old(self).taskbar.fullscreen_active != fullscreen),
            final(self).taskbar == (TaskbarFlags { fullscreen_active: fullscreen, ..old(self).taskbar }),
            final(self).toggle == old(self).toggle,
    {
        let changed = self.taskbar.fullscreen_active != fullscreen;
        self.taskbar.fullscreen_active = fullscreen;
        changed
    }

    /// The privacy sequence's triggered state; returns whether it changed.
    pub fn on_privacy_active(&mut self, active: bool) -> (changed: bool)
        ensures
            changed == (old(self).privacy_active != active),
            final(self).privacy_active == active,
            final(self).toggle == old(self).toggle,
            final(self).taskbar == old(self).taskbar,
    {
        let changed = self.privacy_active != active;
        self.privacy_active = active;
        changed
    }

    /// On exit the default taskbar is restored when it is, or is meant to
    /// be, transparent.
    pub fn exit_restores_taskbar(&self) -> (b: bool)
        ensures
            b == (self.taskbar.transparent || self.taskbar.applied),
    {
        self.taskbar.transparent || self.taskbar.applied
    }

    /// The performance monitor switch; returns whether it changed (the
    /// caller then starts or stops sampling).
    pub fn set_performance_monitor(&mut self, enabled: bool) -> (changed: bool)
        ensures
            changed == (old(self).performance_monitor != enabled),
            final(self).performance_monitor == enabled,
            final(self).toggle == old(self).toggle,
            final(self).taskbar == old(self).taskbar,
    {
        let changed = self.performance_monitor != enabled;
        self.performance_monitor = enabled;
        changed
    }

    /// The privacy switch; returns whether it changed (the caller then
    /// reconfigures the idle loop and the boss key).
    pub fn set_privacy_enabled(&mut self, enabled: bool) -> (changed: bool)
        ensures
            changed == (old(self).privacy_enabled != enabled),
            final(self).privacy_enabled == enabled,
            final(self).toggle == old(self).toggle,
            final(self).taskbar == old(self).taskbar,
    {
        let changed = self.privacy_enabled != enabled;
        self.privacy_enabled = enabled;
        changed
    }

    /// The privacy idle time, clamped to the configurable range.
    pub fn set_privacy_idle_secs(&mut self, secs: u32)
        ensures
            final(self).privacy_idle_secs
                == spec_clamp(secs as int, crate::privacy::IDLE_CLAMP_MIN as int, crate::privacy::IDLE_CLAMP_MAX as int),
            final(self).privacy_enabled == old(self).privacy_enabled,
            final(self).toggle == old(self).toggle,
            final(self).taskbar == old(self).taskbar,
    {
        self.privacy_idle_secs = crate::privacy::clamp_idle_secs(secs);
    }

    /// The taskbar auto-hide switch; returns whether it changed.
    pub fn set_autohide_enabled(&mut self, enabled: bool) -> (changed: bool)
        ensures
            changed == (old(self).autohide_enabled != enabled),
            final(self).autohide_enabled == enabled,
            final(self).toggle == old(self).toggle,
            final(self).taskbar == old(self).taskbar,
    {
        let changed = self.autohide_enabled != enabled;
        self.autohide_enabled = enabled;
        changed
    }

    /// The sampling interval, clamped to 200..=1000 ms; returns the stored value.
    pub fn set_perf_interval_ms(&mut self, ms: u32) -> (r: u32)
        ensures
            r == spec_clamp(ms as int, PERF_INTERVAL_MIN as int, PERF_INTERVAL_MAX as int),
            final(self).perf_interval_ms == r,
            final(self).toggle == old(self).toggle,
            final(self).taskbar == old(self).taskbar,
    {
        let r = clamp_perf_interval(ms);
        self.perf_interval_ms = r;
        r
    }

    /// The assistant's model (trimmed; empty gives the default).
    pub fn set_ai_model(&mut self, model: &str)
        ensures
            final(self).ai_model@ == spec_model(model@),
            final(self).toggle == old(self).toggle,
            final(self).taskbar == old(self).taskbar,
    {
        self.ai_model = normalize_model(model);
    }

    /// The assistant's base URL (normalised).
    pub fn set_ai_base_url(&mut self, base_url: &str)
        ensures
            final(self).ai_base_url@ == crate::ai::spec_normalize_base_url(base_url@),
            final(self).toggle == old(self).toggle,
            final(self).taskbar == old(self).taskbar,
    {
        self.ai_base_url = crate::ai::normalize_base_url(base_url);
    }

    /// The AI pop-up switch; returns whether it changed (when off, the caller
    /// hides the pop-up and clears its conversation).
    pub fn set_ai_popup_enabled(&mut self, enabled: bool) -> (changed: bool)
        ensures
            changed == (old(self).ai_popup_enabled != enabled),
            final(self).ai_popup_enabled == enabled,
            final(self).toggle == old(self).toggle,
            final(self).taskbar == old(self).taskbar,
    {
        let changed = self.ai_popup_enabled != enabled;
        self.ai_popup_enabled = enabled;
        changed
    }

    /// The audio panel switch; returns whether it changed.
    pub fn set_audio_panel_enabled(&mut self, enabled: bool) -> (changed: bool)
        ensures
            changed == (old(self).audio_panel_enabled != enabled),
            final(self).audio_panel_enabled == enabled,
            final(self).toggle == old(self).toggle,
            final(self).taskbar == old(self).taskbar,
    {
        let changed = self.audio_panel_enabled != enabled;
        self.audio_panel_enabled = enabled;
        changed
    }

    /// Stores the audio panel's position after a drag.
    pub fn set_audio_panel_position(&mut self, x: i32, y: i32)
        ensures
            final(self).audio_panel_x == x && final(self).audio_panel_y == y,
            final(self).toggle == old(self).toggle,
            final(self).taskbar == old(self).taskbar,
    {
        self.audio_panel_x = x;
        self.audio_panel_y = y;
    }
}

// ---------------------------------------------------------------------------
// Hotkeys
// ---------------------------------------------------------------------------

/// Which of the two configurable hotkeys.
#[derive(Clone, Copy, Debug, PartialEq, Eq, Structural)]
pub enum HotkeyKind {
    /// The privacy boss key.
    BossKey,
    /// The AI pop-up key.
    AiPopup,
}

/// "Invalid format" message for a hotkey text, with an example.
pub open spec fn spec_invalid_hotkey_msg(kind: HotkeyKind, s: Seq<char>) -> Seq<char> {
    match kind {
        HotkeyKind::BossKey => "快捷键格式无效："@ + s + "（示例：Ctrl+`、Ctrl+Shift+Space）"@,
        HotkeyKind::AiPopup => "快捷键格式无效："@ + s + "（示例：Ctrl+Shift+Space）"@,
    }
}

/// "Registration failed" message for a hotkey text.
pub open spec fn spec_register_failed_msg(s: Seq<char>) -> Seq<char> {
    "快捷键注册失败："@ + s + "（可能被其他程序占用）"@
}

fn invalid_hotkey_msg(kind: HotkeyKind, s: &str) -> (r: String)
    ensures
        r@ == spec_invalid_hotkey_msg(kind, s@),
{
    let mut r = owned("快捷键格式无效：");
    push_str(&mut r, s);
    match kind {
        HotkeyKind::BossKey => push_str(&mut r, "（示例：Ctrl+`、Ctrl+Shift+Space）"),
        HotkeyKind::AiPopup => push_str(&mut r, "（示例：Ctrl+Shift+Space）"),
    }
    r
}

/// What syncing a hotkey with its switch asks for.
#[derive(Clone, Copy, Debug, PartialEq, Eq, Structural)]
pub enum HotkeySync {
    /// The switch is off: unregister the hotkey (it is then not registered).
    Unregister,
    /// Register this combination.
    Register(HotKeySpec),
}

/// Syncs a hotkey with its switch: off unregisters, on registers the parsed
/// combination, and a text that does not parse is an error.
pub fn hotkey_sync(kind: HotkeyKind, enabled: bool, spec_str: &str) -> (r: Result<HotkeySync, String>)
    ensures
        !enabled ==> r == Ok::<HotkeySync, String>(HotkeySync::Unregister),
        enabled ==> match spec_parse_hotkey(spec_str@) {
            Some(h) => r == Ok::<HotkeySync, String>(HotkeySync::Register(h)),
            None => r is Err && r->Err_0@ == spec_invalid_hotkey_msg(kind, spec_str@),
        },
{
    if !enabled {
        return Ok(HotkeySync::Unregister);
    }
    match parse_hotkey(spec_str) {
        Some(h) => Ok(HotkeySync::Register(h)),
        None => Err(invalid_hotkey_msg(kind, spec_str)),
    }
}

/// The outcome of a registration: an error naming the combination when the
/// system refused it (taken by another program or reserved).
pub fn registration_result(ok: bool, spec_str: &str) -> (r: Result<(), String>)
    ensures
        ok ==> r is Ok,
        !ok ==> r is Err && r->Err_0@ == spec_register_failed_msg(spec_str@),
{
    if ok {
        Ok(())
    } else {
        let mut m = owned("快捷键注册失败：");
        push_str(&mut m, spec_str);
        push_str(&mut m, "（可能被其他程序占用）");
        Err(m)
    }
}

/// A new hotkey text from the settings: it is trimmed and must parse;
/// returns the text to store.
pub fn validate_hotkey_input(kind: HotkeyKind, key: &str) -> (r: Result<String, String>)
    ensures
        match spec_parse_hotkey(trim(key@)) {
            Some(_) => r is Ok && r->Ok_0@ == trim(key@),
            None => r is Err && r->Err_0@ == spec_invalid_hotkey_msg(kind, trim(key@)),
        },
{
    let cs = chars_of(key);
    let t = trim_chars(cs.as_slice());
    let s = string_from_seq(t.as_slice());
    match parse_hotkey(s.as_str()) {
        Some(_) => Ok(s),
        None => Err(invalid_hotkey_msg(kind, s.as_str())),
    }
}

// ---------------------------------------------------------------------------
// Closing a window
// ---------------------------------------------------------------------------

/// What closing a window does.
#[derive(Clone, Copy, Debug, PartialEq, Eq, Structural)]
pub enum CloseAction {
    /// The AI pop-up is only hidden (its conversation is cleared, not saved).
    HideWindow,
    /// The main window goes to the tray and the application keeps running.
    HideToTray,
    /// Clean up and quit.
    Quit,
}

/// Closing the AI pop-up hides it; closing the main window hides it to the
/// tray or quits, as the "close to tray" setting says.
pub fn close_action(is_ai_popup: bool, close_to_tray: bool) -> (a: CloseAction)
    ensures
        a == (if is_ai_popup { CloseAction::HideWindow } else if close_to_tray { CloseAction::HideToTray } else { CloseAction::Quit }),
{
    if is_ai_popup {
        CloseAction::HideWindow
    } else if close_to_tray {
        CloseAction::HideToTray
    } else {
        CloseAction::Quit
    }
}

} // verus!
