//! Idle privacy actions and taskbar auto-hide.
//!
//! One poll loop (a tick every 50 ms, an idle check every twentieth tick)
//! drives both features. This module holds the loop's decisions: given the
//! state and what was just observed, it says what to do and updates the state.
//! The caller performs the actions (window minimising, icon fade, AppBar state,
//! mute) and reports back what they achieved.
use vstd::prelude::*;
use crate::geom::{spec_clamp, Rect};

verus! {

/// Idle time range that can be configured, in seconds.
pub const IDLE_CLAMP_MIN: u32 = 10;
pub const IDLE_CLAMP_MAX: u32 = 3600;
/// Poll tick (ms).
pub const POLL_MS: u64 = 50;
/// An idle check runs every this many ticks (one second).
pub const IDLE_CHECK_TICKS: u64 = 20;
/// The taskbar rectangles are widened by this many pixels for the edge pop-up.
pub const EDGE_PADDING: i32 = 4;
/// After the pointer leaves the taskbar it is hidden again after this long (ms).
pub const HIDE_DELAY_MS: u64 = 1500;

/// Switches and idle times of both features.
#[derive(Clone, Copy, Debug, PartialEq, Eq, Structural)]
pub struct PrivacyConfig {
    pub privacy_enabled: bool,
    pub privacy_idle_secs: u32,
    pub autohide_enabled: bool,
    pub autohide_idle_secs: u32,
}

/// A top-level window minimised by the privacy sequence.
#[derive(Clone, Copy, Debug, PartialEq, Eq, Structural)]
pub struct SavedWindow {
    pub hwnd: isize,
    pub was_maximized: bool,
    pub was_fullscreen: bool,
}

/// What the privacy sequence did; the only ground for undoing it.
#[derive(Debug)]
pub struct PrivacySnapshot {
    pub windows: Vec<SavedWindow>,
    /// The icons were hidden by the sequence (not already hidden before).
    pub hid_icons: bool,
    /// The taskbar was hidden by the sequence.
    pub hid_taskbar: bool,
    /// The sound was muted by the sequence.
    pub muted_by_us: bool,
}

/// What the edge check asks of the taskbar.
#[derive(Clone, Copy, Debug, PartialEq, Eq, Structural)]
pub enum EdgeAction {
    Nothing,
    /// The pointer reached the hidden taskbar: show it.
    Show,
    /// The pointer stayed away long enough: hide it again.
    Hide,
}

/// What the idle check asks of the taskbar auto-hide.
#[derive(Clone, Copy, Debug, PartialEq, Eq, Structural)]
pub enum AutohideAction {
    Nothing,
    /// Fullscreen content appeared: show the taskbar hidden by us.
    Show,
    /// Idle long enough: try to hide the taskbar (report success back).
    TryHide,
}

/// What the idle check asks of the privacy sequence.
#[derive(Clone, Copy, Debug, PartialEq, Eq, Structural)]
pub enum PrivacyAction {
    Nothing,
    /// Start the privacy sequence on a worker.
    Trigger,
    /// Start the restore sequence on a worker.
    Restore,
}

/// What a configuration change asks for at once.
#[derive(Clone, Copy, Debug, PartialEq, Eq, Structural)]
pub struct ConfigureActions {
    /// The privacy switch went off while triggered: restore now.
    pub restore_privacy: bool,
    /// The auto-hide switch went off while the taskbar was hidden by us.
    pub show_taskbar: bool,
}

/// Idle time measured with the 32-bit tick counter (wrap-around safe).
pub open spec fn idle_ms(tick_count: u32, last_input: u32) -> u32 {
    ((tick_count as int - last_input as int) % 0x1_0000_0000int) as u32
}

/// Whether an idle time reaches a configured threshold in seconds.
pub open spec fn idle_reached(idle: u32, secs: u32) -> bool {
    idle as int >= secs as int * 1000
}

/// State of the poll loop and of both features.
pub struct PrivacyMonitor {
    pub config: PrivacyConfig,
    /// The poll loop keeps going.
    pub running: bool,
    /// The poll thread has been started (it is started once).
    pub thread_started: bool,
    /// The privacy sequence has been triggered and not yet restored.
    pub triggered: bool,
    /// The taskbar is auto-hidden by this application.
    pub autohide_applied: bool,
    /// Fullscreen state from the last idle check.
    pub fullscreen: bool,
    /// When the pointer left the taskbar (ms), while waiting to hide again.
    pub last_leave: Option<u64>,
    pub tick: u64,
    /// Last-input tick seen by the previous idle check.
    pub prev_input: u32,
    /// What the privacy sequence did, stored once it finished.
    pub snapshot: Option<PrivacySnapshot>,
}

/// The default configuration: both features off, one minute idle.
pub open spec fn spec_default_config() -> PrivacyConfig {
    PrivacyConfig { privacy_enabled: false, privacy_idle_secs: 60, autohide_enabled: false, autohide_idle_secs: 60 }
}

/// `u32::clamp` to the configurable idle range.
pub fn clamp_idle_secs(secs: u32) -> (r: u32)
    ensures
        r == spec_clamp(secs as int, IDLE_CLAMP_MIN as int, IDLE_CLAMP_MAX as int),
        IDLE_CLAMP_MIN <= r <= IDLE_CLAMP_MAX,
{
    if secs < IDLE_CLAMP_MIN {
        IDLE_CLAMP_MIN
    } else if secs > IDLE_CLAMP_MAX {
        IDLE_CLAMP_MAX
    } else {
        secs
    }
}

/// `GetTickCount() - last_input` with 32-bit wrap-around.
pub fn idle_ms_between(tick_count: u32, last_input: u32) -> (r: u32)
    ensures
        r == idle_ms(tick_count, last_input),
{
    let r = tick_count.wrapping_sub(last_input);
    proof {
        if tick_count >= last_input {
            assert(idle_ms(tick_count, last_input) == tick_count - last_input);
        } else {
            assert(idle_ms(tick_count, last_input) == tick_count - last_input + 0x1_0000_0000int);
        }
    }
    r
}

fn reached(idle: u32, secs: u32) -> (b: bool)
    ensures
        b == idle_reached(idle, secs),
{
    (idle as u64) >= (secs as u64) * 1000
}

impl PrivacyMonitor {
    /// Well-formedness: a record of the privacy sequence is only kept while
    /// it is triggered, and the idle times lie in the configurable range.
    pub open spec fn wf(&self) -> bool {
        &&& self.snapshot is Some ==> self.triggered
        &&& IDLE_CLAMP_MIN <= self.config.privacy_idle_secs <= IDLE_CLAMP_MAX
        &&& IDLE_CLAMP_MIN <= self.config.autohide_idle_secs <= IDLE_CLAMP_MAX
    }

    /// Loop not started, both features off, nothing applied.
    pub fn new(last_input: u32) -> (m: Self)
        ensures
            m.wf(),
            m.config == spec_default_config(),
            m.running && !m.thread_started && !m.triggered && !m.autohide_applied && !m.fullscreen,
            m.last_leave.is_none() && m.tick == 0 && m.prev_input == last_input && m.snapshot.is_none(),
    {
        PrivacyMonitor {
            config: PrivacyConfig {
                privacy_enabled: false,
                privacy_idle_secs: 60,
                autohide_enabled: false,
                autohide_idle_secs: 60,
            },
            running: true,
            thread_started: false,
            triggered: false,
            autohide_applied: false,
            fullscreen: false,
            last_leave: None,
            tick: 0,
            prev_input: last_input,
            snapshot: None,
        }
    }

    /// Starts the poll loop (idempotent): returns whether the thread has to be
    /// spawned now.
    pub fn start(&mut self) -> (spawn: bool)
        requires
            old(self).wf(),
        ensures
            final(self).wf(),
            spawn == !old(self).thread_started,
            final(self).running && final(self).thread_started,
            final(self).config == old(self).config,
            final(self).triggered == old(self).triggered,
            final(self).autohide_applied == old(self).autohide_applied,
    {
        self.running = true;
        let spawn = !self.thread_started;
        self.thread_started = true;
        spawn
    }

    /// Whether the privacy sequence is in the triggered state.
    pub fn is_triggered(&self) -> (b: bool)
        ensures
            b == self.triggered,
    {
        self.triggered
    }

    /// Stores the switches and the clamped idle times; returns what has to be
    /// undone at once because a switch went off.
    pub fn configure(
        &mut self,
        privacy_enabled: bool,
        privacy_idle_secs: u32,
        autohide_enabled: bool,
        autohide_idle_secs: u32,
    ) -> (a: ConfigureActions)
        requires
            old(self).wf(),
        ensures
            final(self).wf(),
            final(self).config.privacy_enabled == privacy_enabled,
            final(self).config.autohide_enabled == autohide_enabled,
            final(self).config.privacy_idle_secs
                == spec_clamp(privacy_idle_secs as int, IDLE_CLAMP_MIN as int, IDLE_CLAMP_MAX as int),
            final(self).config.autohide_idle_secs
                == spec_clamp(autohide_idle_secs as int, IDLE_CLAMP_MIN as int, IDLE_CLAMP_MAX as int),
            a.restore_privacy == (!privacy_enabled && old(self).triggered),
            a.show_taskbar == (!autohide_enabled && old(self).autohide_applied),
            final(self).autohide_applied == (old(self).autohide_applied && autohide_enabled),
            final(self).triggered == old(self).triggered,
            final(self).snapshot == old(self).snapshot,
            final(self).running == old(self).running,
            final(self).thread_started == old(self).thread_started,
            final(self).last_leave == old(self).last_leave,
            final(self).tick == old(self).tick,
            final(self).prev_input == old(self).prev_input,
            final(self).fullscreen == old(self).fullscreen,
    {
        self.config = PrivacyConfig {
            privacy_enabled,
            privacy_idle_secs: clamp_idle_secs(privacy_idle_secs),
            autohide_enabled,
            autohide_idle_secs: clamp_idle_secs(autohide_idle_secs),
        };
        let restore_privacy = !privacy_enabled && self.triggered;
        let show_taskbar = !autohide_enabled && self.autohide_applied;
        if show_taskbar {
            self.autohide_applied = false;
        }
        ConfigureActions { restore_privacy, show_taskbar }
    }

    /// Stops the loop and hands back everything to undo: the privacy snapshot
    /// when triggered, and whether the taskbar hidden by us must be shown.
    pub fn stop(&mut self) -> (r: (Option<PrivacySnapshot>, bool))
        requires
            old(self).wf(),
        ensures
            final(self).wf(),
            r.0 == (if old(self).triggered { old(self).snapshot } else { None }),
            r.0 == old(self).snapshot,
            final(self).snapshot is None,
            r.1 == old(self).autohide_applied,
            !final(self).running,
            !final(self).triggered,
            !final(self).autohide_applied,
            final(self).snapshot == (if old(self).triggered { None } else { old(self).snapshot }),
            final(self).config == old(self).config,
            final(self).thread_started == old(self).thread_started,
    {
        self.running = false;
        let restore = if self.triggered {
            self.triggered = false;
            self.snapshot.take()
        } else {
            None
        };
        let show = self.autohide_applied;
        self.autohide_applied = false;
        (restore, show)
    }

    /// Counts one poll tick; returns whether this tick carries an idle check.
    pub fn advance_tick(&mut self) -> (idle_due: bool)
        requires
            old(self).wf(),
        ensures
            final(self).wf(),
            final(self).tick == (if old(self).tick == u64::MAX { u64::MAX } else { (old(self).tick + 1) as u64 }),
            idle_due == (final(self).tick % IDLE_CHECK_TICKS == 0),
            final(self).config == old(self).config,
            final(self).triggered == old(self).triggered,
            final(self).autohide_applied == old(self).autohide_applied,
            final(self).last_leave == old(self).last_leave,
            final(self).fullscreen == old(self).fullscreen,
            final(self).prev_input == old(self).prev_input,
            final(self).snapshot == old(self).snapshot,
            final(self).running == old(self).running,
    {
        self.tick = self.tick.saturating_add(1);
        self.tick % IDLE_CHECK_TICKS == 0
    }

    /// Whether the edge check runs this tick: auto-hide on, no fullscreen,
    /// the taskbar hidden by us, and no animation in progress.
    pub open spec fn edge_active(&self, animating: bool) -> bool {
        self.config.autohide_enabled && !self.fullscreen && self.autohide_applied && !animating
    }

    /// Whether the edge check has to run this tick (see `edge_active`).
    pub fn edge_check_due(&self, animating: bool) -> (b: bool)
        ensures
            b == self.edge_active(animating),
    {
        self.config.autohide_enabled && !self.fullscreen && self.autohide_applied && !animating
    }

    /// The edge pop-up: `in_area` whether the pointer is on a (widened)
    /// taskbar rectangle, `taskbar_hidden` whether the taskbar is auto-hidden
    /// now, `now_ms` a monotonic clock.
    pub fn edge_step(&mut self, in_area: bool, taskbar_hidden: bool, animating: bool, now_ms: u64) -> (a: EdgeAction)
        requires
            old(self).wf(),
        ensures
            final(self).wf(),
            !old(self).edge_active(animating) ==> a == EdgeAction::Nothing && final(self).last_leave == old(self).last_leave,
            old(self).edge_active(animating) && in_area ==> final(self).last_leave.is_none()
                && a == (if taskbar_hidden { EdgeAction::Show } else { EdgeAction::Nothing }),
            old(self).edge_active(animating) && !in_area && taskbar_hidden ==> final(self).last_leave.is_none()
                && a == EdgeAction::Nothing,
            old(self).edge_active(animating) && !in_area && !taskbar_hidden ==> match old(self).last_leave {
                None => a == EdgeAction::Nothing && final(self).last_leave == Some(now_ms),
                Some(t) => if now_ms >= t && now_ms - t >= HIDE_DELAY_MS {
                    a == EdgeAction::Hide && final(self).last_leave.is_none()
                } else {
                    a == EdgeAction::Nothing && final(self).last_leave == old(self).last_leave
                },
            },
            final(self).config == old(self).config,
            final(self).triggered == old(self).triggered,
            final(self).autohide_applied == old(self).autohide_applied,
            final(self).fullscreen == old(self).fullscreen,
            final(self).tick == old(self).tick,
            final(self).prev_input == old(self).prev_input,
            final(self).snapshot == old(self).snapshot,
            final(self).running == old(self).running,
    {
        if !(self.config.autohide_enabled && !self.fullscreen && self.autohide_applied && !animating) {
            return EdgeAction::Nothing;
        }
        if in_area {
            self.last_leave = None;
            if taskbar_hidden { EdgeAction::Show } else { EdgeAction::Nothing }
        } else if !taskbar_hidden {
            match self.last_leave {
                None => {
                    self.last_leave = Some(now_ms);
                    EdgeAction::Nothing
                },
                Some(t) => {
                    if now_ms >= t && now_ms - t >= HIDE_DELAY_MS {
                        self.last_leave = None;
                        EdgeAction::Hide
                    } else {
                        EdgeAction::Nothing
                    }
                },
            }
        } else {
            self.last_leave = None;
            EdgeAction::Nothing
        }
    }

    /// The once-a-second idle check. `fullscreen` is the effective fullscreen
    /// state, `last_input` the last-input tick, `tick_count` the current tick
    /// count, `animating` whether a taskbar animation runs.
    pub fn idle_step(&mut self, fullscreen: bool, last_input: u32, tick_count: u32, animating: bool)
        -> (r: (AutohideAction, PrivacyAction))
        requires
            old(self).wf(),
        ensures
            final(self).wf(),
            final(self).fullscreen == fullscreen,
            final(self).prev_input == last_input,
            // auto-hide
            !old(self).config.autohide_enabled ==> r.0 == AutohideAction::Nothing
                && final(self).autohide_applied == old(self).autohide_applied
                && final(self).last_leave == old(self).last_leave,
            old(self).config.autohide_enabled && fullscreen ==> final(self).autohide_applied == false
                && r.0 == (if old(self).autohide_applied { AutohideAction::Show } else { AutohideAction::Nothing })
                && final(self).last_leave == (if old(self).autohide_applied { None } else { old(self).last_leave }),
            old(self).config.autohide_enabled && !fullscreen ==> final(self).autohide_applied == old(self).autohide_applied
                && final(self).last_leave == old(self).last_leave
                && r.0 == (if !old(self).autohide_applied && !animating
                    && idle_reached(idle_ms(tick_count, last_input), old(self).config.autohide_idle_secs) {
                    AutohideAction::TryHide
                } else {
                    AutohideAction::Nothing
                }),
            // privacy
            r.1 == (if !old(self).config.privacy_enabled {
                PrivacyAction::Nothing
            } else if !old(self).triggered && idle_reached(idle_ms(tick_count, last_input), old(self).config.privacy_idle_secs) {
                PrivacyAction::Trigger
            } else if old(self).triggered && last_input != old(self).prev_input {
                PrivacyAction::Restore
            } else {
                PrivacyAction::Nothing
            }),
            final(self).triggered == (old(self).triggered || r.1 == PrivacyAction::Trigger),
            old(self).triggered ==> r.1 != PrivacyAction::Trigger,
            final(self).snapshot == old(self).snapshot,
            final(self).config == old(self).config,
            final(self).tick == old(self).tick,
            final(self).running == old(self).running,
            final(self).thread_started == old(self).thread_started,
    {
        self.fullscreen = fullscreen;
        let idle = idle_ms_between(tick_count, last_input);
        let input_changed = last_input != self.prev_input;
        self.prev_input = last_input;

        let mut autohide = AutohideAction::Nothing;
        if self.config.autohide_enabled {
            if fullscreen {
                if self.autohide_applied {
                    self.autohide_applied = false;
                    self.last_leave = None;
                    autohide = AutohideAction::Show;
                }
            } else if !self.autohide_applied && !animating && reached(idle, self.config.autohide_idle_secs) {
                autohide = AutohideAction::TryHide;
            }
        }

        let mut privacy = PrivacyAction::Nothing;
        if self.config.privacy_enabled {
            if !self.triggered && reached(idle, self.config.privacy_idle_secs) {
                if self.begin_trigger() {
                    privacy = PrivacyAction::Trigger;
                }
            } else if self.triggered && input_changed {
                privacy = PrivacyAction::Restore;
            }
        }
        (autohide, privacy)
    }

    /// The taskbar was auto-hidden after `TryHide` succeeded.
    pub fn autohide_hidden(&mut self)
        requires
            old(self).wf(),
        ensures
            final(self).wf(),
            final(self).autohide_applied,
            final(self).last_leave.is_none(),
            final(self).config == old(self).config,
            final(self).triggered == old(self).triggered,
            final(self).fullscreen == old(self).fullscreen,
            final(self).snapshot == old(self).snapshot,
            final(self).tick == old(self).tick,
            final(self).prev_input == old(self).prev_input,
    {
        self.autohide_applied = true;
        self.last_leave = None;
    }

    /// Marks the privacy sequence triggered; returns whether the sequence has
    /// to run (false when it was already triggered).
    pub fn begin_trigger(&mut self) -> (run: bool)
        requires
            old(self).wf(),
        ensures
            final(self).wf(),
            run == !old(self).triggered,
            final(self).triggered,
            final(self).snapshot == old(self).snapshot,
            final(self).config == old(self).config,
            final(self).autohide_applied == old(self).autohide_applied,
            final(self).last_leave == old(self).last_leave,
            final(self).fullscreen == old(self).fullscreen,
            final(self).prev_input == old(self).prev_input,
            final(self).tick == old(self).tick,
            final(self).running == old(self).running,
            final(self).thread_started == old(self).thread_started,
    {
        let run = !self.triggered;
        self.triggered = true;
        run
    }

    /// The privacy sequence finished: its record is kept for the restore,
    /// unless a restore got in first (then the record is handed back so that
    /// it can be undone at once).
    pub fn complete_trigger(&mut self, snap: PrivacySnapshot) -> (undo: Option<PrivacySnapshot>)
        requires
            old(self).wf(),
        ensures
            final(self).wf(),
            old(self).triggered ==> undo.is_none() && final(self).snapshot == Some(snap),
            !old(self).triggered ==> undo == Some(snap) && final(self).snapshot == old(self).snapshot,
            final(self).triggered == old(self).triggered,
            final(self).config == old(self).config,
            final(self).autohide_applied == old(self).autohide_applied,
    {
        if self.triggered {
            self.snapshot = Some(snap);
            None
        } else {
            Some(snap)
        }
    }

    /// The restore worker: when still triggered, leaves the triggered state
    /// and hands out the record to undo.
    pub fn take_restore(&mut self) -> (r: Option<PrivacySnapshot>)
        requires
            old(self).wf(),
        ensures
            final(self).wf(),
            r == (if old(self).triggered { old(self).snapshot } else { None }),
            r == old(self).snapshot,
            final(self).snapshot is None,
            !final(self).triggered,
            final(self).snapshot == (if old(self).triggered { None } else { old(self).snapshot }),
            final(self).config == old(self).config,
            final(self).autohide_applied == old(self).autohide_applied,
            final(self).last_leave == old(self).last_leave,
            final(self).running == old(self).running,
    {
        if self.triggered {
            self.triggered = false;
            self.snapshot.take()
        } else {
            None
        }
    }
}

/// Whether the pointer lies on a taskbar rectangle widened by `EDGE_PADDING`
/// (edges included).
pub open spec fn in_padded(r: Rect, x: i32, y: i32) -> bool {
    &&& x >= r.left - EDGE_PADDING
    &&& x <= r.right + EDGE_PADDING
    &&& y >= r.top - EDGE_PADDING
    &&& y <= r.bottom + EDGE_PADDING
}

/// Whether the pointer lies on any of the taskbar rectangles, widened by
/// `EDGE_PADDING` pixels.
pub fn in_taskbar_area(x: i32, y: i32, bars: &[Rect]) -> (b: bool)
    ensures
        b == exists|i: int| 0 <= i < bars@.len() && in_padded(#[trigger] bars@[i], x, y),
{
    let mut i: usize = 0;
    while i < bars.len()
        invariant
            i <= bars@.len(),
            forall|j: int| 0 <= j < i ==> !in_padded(#[trigger] bars@[j], x, y),
        decreases bars.len() - i,
    {
        let r = bars[i];
        let xi = x as i64;
        let yi = y as i64;
        let p = EDGE_PADDING as i64;
        if xi >= r.left as i64 - p && xi <= r.right as i64 + p && yi >= r.top as i64 - p && yi <= r.bottom as i64 + p {
            assert(in_padded(bars@[i as int], x, y));
            return true;
        }
        i += 1;
    }
    false
}

/// Whether a window rectangle is exactly its monitor's rectangle.
pub fn is_fullscreen_window(w: Rect, monitor: Rect) -> (b: bool)
    ensures
        b == (w == monitor),
{
    w.left == monitor.left && w.top == monitor.top && w.right == monitor.right && w.bottom == monitor.bottom
}

/// Class names of the desktop and the taskbars, which are never minimised.
pub open spec fn is_shell_window_class(cls: Seq<char>) -> bool {
    cls == "Progman"@ || cls == "WorkerW"@ || cls == "Shell_TrayWnd"@ || cls == "Shell_SecondaryTrayWnd"@
}

/// Which top-level windows the privacy sequence minimises: visible, not
/// already minimised, without owner, not a tool window, not the desktop or a
/// taskbar.
pub open spec fn spec_should_collect(visible: bool, iconic: bool, has_owner: bool, tool_window: bool, cls: Seq<char>) -> bool {
    visible && !iconic && !has_owner && !tool_window && !is_shell_window_class(cls)
}

/// Whether the privacy sequence minimises and records this window.
pub fn should_collect(visible: bool, iconic: bool, has_owner: bool, tool_window: bool, cls: &str) -> (b: bool)
    ensures
        b == spec_should_collect(visible, iconic, has_owner, tool_window, cls@),
{
    if !visible || iconic || has_owner || tool_window {
        return false;
    }
    let shell = crate::text::str_eq(cls, "Progman") || crate::text::str_eq(cls, "WorkerW")
        || crate::text::str_eq(cls, "Shell_TrayWnd") || crate::text::str_eq(cls, "Shell_SecondaryTrayWnd");
    !shell
}

/// How a recorded window is brought back.
#[derive(Clone, Copy, Debug, PartialEq, Eq, Structural)]
pub enum WindowRestore {
    /// Restore, then maximise again if the restore did not.
    Maximize,
    /// Restore, then move it over its whole monitor.
    Fullscreen,
    /// Restore.
    Normal,
}

/// A maximised window comes back maximised, a fullscreen one covering its
/// monitor, any other one restored.
pub fn window_restore(w: SavedWindow) -> (r: WindowRestore)
    ensures
        r == (if w.was_maximized { WindowRestore::Maximize } else if w.was_fullscreen { WindowRestore::Fullscreen } else { WindowRestore::Normal }),
{
    if w.was_maximized {
        WindowRestore::Maximize
    } else if w.was_fullscreen {
        WindowRestore::Fullscreen
    } else {
        WindowRestore::Normal
    }
}

/// One step of the restore sequence.
#[derive(Clone, Copy, Debug, PartialEq, Eq, Structural)]
pub enum RestoreStep {
    Window(SavedWindow, WindowRestore),
    ShowIcons,
    ShowTaskbar,
    Unmute,
}

/// The restore sequence of a record: windows first (in order), then icons,
/// taskbar and sound, each only if the privacy sequence changed it.
pub open spec fn spec_restore_steps(s: Seq<SavedWindow>, hid_icons: bool, hid_taskbar: bool, muted: bool) -> Seq<RestoreStep> {
    s.map_values(|w: SavedWindow| RestoreStep::Window(w,
        if w.was_maximized { WindowRestore::Maximize } else if w.was_fullscreen { WindowRestore::Fullscreen } else { WindowRestore::Normal }))
    + (if hid_icons { seq![RestoreStep::ShowIcons] } else { Seq::empty() })
    + (if hid_taskbar { seq![RestoreStep::ShowTaskbar] } else { Seq::empty() })
    + (if muted { seq![RestoreStep::Unmute] } else { Seq::empty() })
}

/// The ordered restore steps for a record of the privacy sequence.
pub fn restore_sequence(s: &PrivacySnapshot) -> (steps: Vec<RestoreStep>)
    ensures
        steps@ == spec_restore_steps(s.windows@, s.hid_icons, s.hid_taskbar, s.muted_by_us),
{
    let mut steps: Vec<RestoreStep> = Vec::new();
    let mut i: usize = 0;
    while i < s.windows.len()
        invariant
            i <= s.windows@.len(),
            steps@ == s.windows@.take(i as int).map_values(|w: SavedWindow| RestoreStep::Window(w,
                if w.was_maximized { WindowRestore::Maximize } else if w.was_fullscreen { WindowRestore::Fullscreen } else { WindowRestore::Normal })),
        decreases s.windows.len() - i,
    {
        let w = s.windows[i];
        steps.push(RestoreStep::Window(w, window_restore(w)));
        proof {
            assert(s.windows@.take(i as int + 1) == s.windows@.take(i as int).push(w));
        }
        i += 1;
    }
    proof {
        assert(s.windows@.take(s.windows@.len() as int) == s.windows@);
    }
    if s.hid_icons {
        steps.push(RestoreStep::ShowIcons);
    }
    if s.hid_taskbar {
        steps.push(RestoreStep::ShowTaskbar);
    }
    if s.muted_by_us {
        steps.push(RestoreStep::Unmute);
    }
    steps
}

/// What the privacy sequence does after minimising the windows: hide the
/// icons unless they are hidden already, hide the taskbar unless it is
/// auto-hidden already, and mute.
#[derive(Clone, Copy, Debug, PartialEq, Eq, Structural)]
pub struct TriggerPlan {
    pub hide_icons: bool,
    pub hide_taskbar: bool,
}

/// Decides the icon and taskbar steps of the privacy sequence from the state
/// found when it runs.
pub fn trigger_plan(icons_hidden: bool, taskbar_autohidden: bool) -> (p: TriggerPlan)
    ensures
        p.hide_icons == !icons_hidden,
        p.hide_taskbar == !taskbar_autohidden,
{
    TriggerPlan { hide_icons: !icons_hidden, hide_taskbar: !taskbar_autohidden }
}

/// The record of a finished privacy sequence: the icons count as hidden by
/// us when we hid them, the taskbar when the hide call succeeded, the sound
/// when the mute call succeeded.
pub fn snapshot_after(windows: Vec<SavedWindow>, plan: TriggerPlan, taskbar_hide_ok: bool, mute_ok: bool) -> (s: PrivacySnapshot)
    ensures
        s.windows@ == windows@,
        s.hid_icons == plan.hide_icons,
        s.hid_taskbar == (plan.hide_taskbar && taskbar_hide_ok),
        s.muted_by_us == mute_ok,
{
    PrivacySnapshot {
        windows,
        hid_icons: plan.hide_icons,
        hid_taskbar: plan.hide_taskbar && taskbar_hide_ok,
        muted_by_us: mute_ok,
    }
}

/// The restore sequence undoes exactly what the privacy sequence did: every
/// minimised window is brought back, and the icons, the taskbar and the sound
/// are restored if and only if the sequence changed them.
pub proof fn law_restore_undoes_trigger(windows: Seq<SavedWindow>, icons_hidden: bool, taskbar_autohidden: bool, taskbar_hide_ok: bool, mute_ok: bool)
    ensures ({
        let steps = spec_restore_steps(windows, !icons_hidden, !taskbar_autohidden && taskbar_hide_ok, mute_ok);
        &&& (forall|i: int| 0 <= i < windows.len() ==> (#[trigger] steps[i]) is Window && steps[i]->0 == windows[i])
        &&& steps.contains(RestoreStep::ShowIcons) == !icons_hidden
        &&& steps.contains(RestoreStep::ShowTaskbar) == (!taskbar_autohidden && taskbar_hide_ok)
        &&& steps.contains(RestoreStep::Unmute) == mute_ok
    }),
{
    let ws = windows.map_values(|w: SavedWindow| RestoreStep::Window(w,
        if w.was_maximized { WindowRestore::Maximize } else if w.was_fullscreen { WindowRestore::Fullscreen } else { WindowRestore::Normal }));
    let a: Seq<RestoreStep> = if !icons_hidden { seq![RestoreStep::ShowIcons] } else { Seq::empty() };
    let b: Seq<RestoreStep> = if !taskbar_autohidden && taskbar_hide_ok { seq![RestoreStep::ShowTaskbar] } else { Seq::empty() };
    let c: Seq<RestoreStep> = if mute_ok { seq![RestoreStep::Unmute] } else { Seq::empty() };
    let steps = ws + a + b + c;
    assert(steps == spec_restore_steps(windows, !icons_hidden, !taskbar_autohidden && taskbar_hide_ok, mute_ok));
    assert forall|i: int| 0 <= i < windows.len() implies (#[trigger] steps[i]) is Window && steps[i]->0 == windows[i] by {
        assert(steps[i] == ws[i]);
    }
    if !icons_hidden {
        assert(steps[ws.len() as int] == RestoreStep::ShowIcons);
    } else {
        assert forall|i: int| 0 <= i < steps.len() implies steps[i] != RestoreStep::ShowIcons by {
            if i < ws.len() { assert(steps[i] == ws[i]); }
        }
    }
    if !taskbar_autohidden && taskbar_hide_ok {
        assert(steps[(ws.len() + a.len()) as int] == RestoreStep::ShowTaskbar);
    } else {
        assert forall|i: int| 0 <= i < steps.len() implies steps[i] != RestoreStep::ShowTaskbar by {
            if i < ws.len() { assert(steps[i] == ws[i]); }
        }
    }
    if mute_ok {
        assert(steps[(ws.len() + a.len() + b.len()) as int] == RestoreStep::Unmute);
    } else {
        assert forall|i: int| 0 <= i < steps.len() implies steps[i] != RestoreStep::Unmute by {
            if i < ws.len() { assert(steps[i] == ws[i]); }
        }
    }
}

} // verus!
