//! Taskbar transparency and the animated hide/show of the taskbars.
//!
//! Windows 10 taskbars are made transparent through the window accent
//! policy; on Windows 11 (build 22000 and later) an external engine does it.
//! Hiding slides every taskbar off the bottom of its monitor in twelve steps
//! and then hides the window; showing slides it back. While an animation
//! runs, a new request only updates the wanted state, which the animation
//! thread honours when its current animation ends.
use vstd::prelude::*;
use crate::geom::Rect;
use crate::text::str_eq;

verus! {

/// First build number of Windows 11.
pub const WIN11_FIRST_BUILD: u32 = 22000;
/// Accent states of the accent policy.
pub const ACCENT_DISABLED: u32 = 0;
pub const ACCENT_ENABLE_TRANSPARENTGRADIENT: u32 = 2;
/// Number of animation steps (the positions are steps `0..=ANIM_STEPS`).
pub const ANIM_STEPS: i32 = 12;
/// Pause between two animation steps (ms).
pub const ANIM_STEP_MS: u64 = 12;
/// Marker stored in an old registry backup when the value did not exist.
pub const BACKUP_NOT_EXISTED: u32 = 0xffff_ffff;

/// How transparency is applied on this system.
#[derive(Clone, Copy, Debug, PartialEq, Eq, Structural)]
pub enum Backend {
    /// The accent policy of each taskbar window (Windows 10).
    Accent,
    /// The external engine (Windows 11).
    Engine,
}

/// Windows 11 is recognised by its build number; an unknown version counts
/// as Windows 10.
pub open spec fn spec_is_windows_11(build: Option<u32>) -> bool {
    match build {
        Some(b) => b >= WIN11_FIRST_BUILD,
        None => false,
    }
}

/// Chooses the transparency backend from the OS build number (`None` when
/// the version query failed).
pub fn backend_for(build: Option<u32>) -> (b: Backend)
    ensures
        b == (if spec_is_windows_11(build) { Backend::Engine } else { Backend::Accent }),
{
    match build {
        Some(n) => if n >= WIN11_FIRST_BUILD { Backend::Engine } else { Backend::Accent },
        None => Backend::Accent,
    }
}

/// The accent policy sent to a taskbar window: a fully transparent gradient
/// when enabled, the default look otherwise.
#[derive(Clone, Copy, Debug, PartialEq, Eq, Structural)]
pub struct AccentPolicy {
    pub accent_state: u32,
    pub accent_flags: u32,
    pub gradient_color: u32,
    pub animation_id: u32,
}

/// The accent policy for the wanted look.
pub fn accent_policy(enabled: bool) -> (p: AccentPolicy)
    ensures
        p.accent_state == (if enabled { ACCENT_ENABLE_TRANSPARENTGRADIENT } else { ACCENT_DISABLED }),
        p.accent_flags == 0 && p.gradient_color == 0 && p.animation_id == 0,
{
    AccentPolicy {
        accent_state: if enabled { ACCENT_ENABLE_TRANSPARENTGRADIENT } else { ACCENT_DISABLED },
        accent_flags: 0,
        gradient_color: 0,
        animation_id: 0,
    }
}

/// The window classes of the primary and the secondary taskbars.
pub open spec fn is_taskbar_class_spec(cls: Seq<char>) -> bool {
    cls == "Shell_TrayWnd"@ || cls == "Shell_SecondaryTrayWnd"@
}

/// Whether a window class is a taskbar's.
pub fn is_taskbar_class(cls: &str) -> (b: bool)
    ensures
        b == is_taskbar_class_spec(cls@),
{
    str_eq(cls, "Shell_TrayWnd") || str_eq(cls, "Shell_SecondaryTrayWnd")
}

/// Result of a transparency request: on Windows 10 the accent policy is
/// applied and the request succeeds; on Windows 11 it succeeds when the
/// engine could be started or stopped (`engine_ok`).
pub fn set_transparent(build: Option<u32>, enabled: bool, engine_ok: bool) -> (ok: bool)
    ensures
        ok == (if spec_is_windows_11(build) { engine_ok } else { true }),
{
    match backend_for(build) {
        Backend::Engine => engine_ok,
        Backend::Accent => true,
    }
}

/// Restoring the default taskbar is a transparency request with `false`.
pub fn restore(build: Option<u32>, engine_ok: bool) -> (ok: bool)
    ensures
        ok == (if spec_is_windows_11(build) { engine_ok } else { true }),
{
    set_transparent(build, false, engine_ok)
}

// ---------------------------------------------------------------------------
// Hidden state and animation
// ---------------------------------------------------------------------------

/// The primary taskbar counts as hidden when its window is invisible, or when
/// it lies wholly below its monitor's bottom. Without a taskbar, or without
/// its rectangles, it counts as shown.
pub open spec fn spec_is_autohide(found: bool, visible: bool, rects: Option<(Rect, Rect)>) -> bool {
    if !found {
        false
    } else if !visible {
        true
    } else {
        match rects {
            Some((r, m)) => r.top >= m.bottom,
            None => false,
        }
    }
}

/// Whether the taskbar is hidden: `found` whether the primary taskbar exists,
/// `visible` its visibility, `rects` its window and monitor rectangles.
pub fn is_autohide(found: bool, visible: bool, rects: Option<(Rect, Rect)>) -> (b: bool)
    ensures
        b == spec_is_autohide(found, visible, rects),
{
    if !found {
        return false;
    }
    if !visible {
        return true;
    }
    match rects {
        Some((r, m)) => r.top >= m.bottom,
        None => false,
    }
}

/// Wanted and running state of the taskbar animation.
pub struct AutohideAnimator {
    /// The taskbar should end up hidden.
    pub expected: bool,
    /// The animation thread runs.
    pub animating: bool,
}

/// What a hide/show request asks for.
#[derive(Clone, Copy, Debug, PartialEq, Eq, Structural)]
pub struct AutohideRequest {
    /// The request was accepted (there is at least one taskbar).
    pub ok: bool,
    /// The animation thread has to be started.
    pub spawn: bool,
}

impl AutohideAnimator {
    pub fn new() -> (a: Self)
        ensures
            !a.expected && !a.animating,
    {
        AutohideAnimator { expected: false, animating: false }
    }

    /// Whether an animation is running (callers hold their state checks meanwhile).
    pub fn is_animating(&self) -> (b: bool)
        ensures
            b == self.animating,
    {
        self.animating
    }

    /// Requests the taskbars hidden (`true`) or shown; refused without any
    /// taskbar. A request during an animation only changes the wanted state.
    pub fn set_autohide(&mut self, has_taskbars: bool, enabled: bool) -> (r: AutohideRequest)
        ensures
            !has_taskbars ==> !r.ok && !r.spawn && final(self).expected == old(self).expected
                && final(self).animating == old(self).animating,
            has_taskbars ==> r.ok && final(self).expected == enabled && final(self).animating
                && r.spawn == !old(self).animating,
    {
        if !has_taskbars {
            return AutohideRequest { ok: false, spawn: false };
        }
        self.expected = enabled;
        let spawn = !self.animating;
        self.animating = true;
        AutohideRequest { ok: true, spawn }
    }

    /// The animation thread's next move given whether the taskbar is hidden
    /// now: `Some(hide)` to animate towards the wanted state, `None` when it is
    /// reached (the thread then stops and the animation flag is cleared).
    pub fn next_move(&mut self, currently_hidden: bool) -> (m: Option<bool>)
        ensures
            old(self).expected != currently_hidden ==> m == Some(old(self).expected)
                && final(self).animating == old(self).animating,
            old(self).expected == currently_hidden ==> m.is_none() && !final(self).animating,
            final(self).expected == old(self).expected,
    {
        if self.expected != currently_hidden {
            Some(self.expected)
        } else {
            self.animating = false;
            None
        }
    }
}

/// Start and end `y` of one taskbar's slide: hiding slides the window's top
/// to the monitor's bottom, showing brings its bottom back onto it. Without
/// the monitor, the window's own bottom stands in.
pub open spec fn spec_slide(r: Rect, monitor_bottom: Option<i32>, hide: bool) -> (int, int) {
    let h = r.bottom - r.top;
    let bottom: int = match monitor_bottom {
        Some(b) => b as int,
        None => r.bottom as int,
    };
    if hide { (r.top as int, bottom) } else { (r.top as int, bottom - h) }
}

/// `a / b` rounded toward zero (Rust's integer division).
pub open spec fn trunc_div(a: int, b: int) -> int {
    if a >= 0 { a / b } else { -((-a) / b) }
}

/// The `y` of a sliding taskbar at `step` of `ANIM_STEPS`.
pub open spec fn spec_anim_y(y0: int, y1: int, step: int) -> int {
    y0 + trunc_div((y1 - y0) * step, ANIM_STEPS as int)
}

/// Start and end `y` of one taskbar's slide (see `spec_slide`).
pub fn slide_range(r: Rect, monitor_bottom: Option<i32>, hide: bool) -> (s: (i64, i64))
    ensures
        s.0 == spec_slide(r, monitor_bottom, hide).0,
        s.1 == spec_slide(r, monitor_bottom, hide).1,
{
    let h = r.bottom as i64 - r.top as i64;
    let bottom: i64 = match monitor_bottom {
        Some(b) => b as i64,
        None => r.bottom as i64,
    };
    if hide { (r.top as i64, bottom) } else { (r.top as i64, bottom - h) }
}

/// The `y` at an animation step.
pub fn anim_y(y0: i64, y1: i64, step: i32) -> (y: i64)
    requires
        0 <= step <= ANIM_STEPS,
        -0x1_0000_0000 <= y0 <= 0x1_0000_0000,
        -0x1_0000_0000 <= y1 <= 0x1_0000_0000,
    ensures
        y == spec_anim_y(y0 as int, y1 as int, step as int),
{
    let d = y1 - y0;
    assert(-0x2_0000_0000 * 12 <= d * (step as i64) <= 0x2_0000_0000 * 12) by (nonlinear_arith)
        requires
            -0x2_0000_0000 <= d <= 0x2_0000_0000,
            0 <= step <= 12,
    ;
    let p = d * step as i64;
    let q: i64 = if p >= 0 { p / 12 } else { -((-p) / 12) };
    y0 + q
}

/// The slide starts where the window is and ends on the target.
pub proof fn law_slide_endpoints(y0: int, y1: int)
    ensures
        spec_anim_y(y0, y1, 0) == y0,
        spec_anim_y(y0, y1, ANIM_STEPS as int) == y1,
{
    assert((y1 - y0) * 0 == 0);
    assert((y1 - y0) * 12 == 12 * (y1 - y0));
}

/// The slide never moves backwards: each step is at least as far along as
/// the one before.
pub proof fn law_slide_monotone(y0: int, y1: int, s: int, t: int)
    requires
        0 <= s <= t <= ANIM_STEPS,
    ensures
        y0 <= y1 ==> spec_anim_y(y0, y1, s) <= spec_anim_y(y0, y1, t),
        y1 <= y0 ==> spec_anim_y(y0, y1, t) <= spec_anim_y(y0, y1, s),
{
    let d = y1 - y0;
    if d >= 0 {
        assert(d * s <= d * t) by (nonlinear_arith) requires d >= 0, s <= t;
        assert(d * s >= 0) by (nonlinear_arith) requires d >= 0, s >= 0;
        assert((d * s) / 12 <= (d * t) / 12) by (nonlinear_arith) requires 0 <= d * s <= d * t;
        if d == 0 {
            assert(d * s == 0 && d * t == 0) by (nonlinear_arith) requires d == 0;
        }
    } else {
        let a = (-d) * s;
        let b = (-d) * t;
        assert(0 <= a <= b) by (nonlinear_arith) requires d < 0, 0 <= s <= t, a == (-d) * s, b == (-d) * t;
        assert(d * s == -a && d * t == -b) by (nonlinear_arith) requires a == (-d) * s, b == (-d) * t;
        assert(a / 12 <= b / 12) by (nonlinear_arith) requires 0 <= a <= b;
        assert(trunc_div(d * s, 12) == -(a / 12));
        assert(trunc_div(d * t, 12) == -(b / 12));
    }
}

/// A taskbar left below its monitor (an animation cut short by a crash) is
/// moved back so that its bottom is on the monitor's bottom: returns the new
/// top, or `None` when it is in place.
pub open spec fn spec_restored_top(r: Rect, monitor_bottom: i32) -> Option<int> {
    if r.top >= monitor_bottom {
        Some(monitor_bottom - (r.bottom - r.top))
    } else {
        None
    }
}

/// Where a taskbar found off screen at start-up is moved back to.
pub fn restored_top(r: Rect, monitor_bottom: i32) -> (t: Option<i64>)
    ensures
        match spec_restored_top(r, monitor_bottom) {
            Some(v) => t == Some(v as i64),
            None => t.is_none(),
        },
{
    if r.top >= monitor_bottom {
        Some(monitor_bottom as i64 - (r.bottom as i64 - r.top as i64))
    } else {
        None
    }
}

/// What to do with the registry value an older version changed.
#[derive(Clone, Copy, Debug, PartialEq, Eq, Structural)]
pub enum RegistryFix {
    /// No backup: the user's own setting is left alone.
    Nothing,
    /// The value did not exist before: delete it, then the backup.
    DeleteValue,
    /// Write the backed-up value back, then delete the backup.
    WriteValue(u32),
}

/// Decides the clean-up of the old registry experiment from the backup found.
pub fn registry_fix(backup: Option<u32>) -> (f: RegistryFix)
    ensures
        f == (match backup {
            None => RegistryFix::Nothing,
            Some(v) => if v == BACKUP_NOT_EXISTED { RegistryFix::DeleteValue } else { RegistryFix::WriteValue(v) },
        }),
{
    match backup {
        None => RegistryFix::Nothing,
        Some(v) => if v == BACKUP_NOT_EXISTED { RegistryFix::DeleteValue } else { RegistryFix::WriteValue(v) },
    }
}

} // verus!
