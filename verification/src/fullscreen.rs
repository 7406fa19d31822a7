//! Full-screen detection: which windows qualify, whether a window covers its
//! monitor, and the shared flags that suspend taskbar effects.
use vstd::prelude::*;
use crate::geom::Rect;
use crate::text::{chars_of, chars_eq, has_prefix, owned, push_all, push_str, starts_with, string_from_seq, trim_end_char, trim_end_char_chars};

verus! {

/// Flags refreshed by the main polling loop.
pub struct FullscreenFlags {
    foreground_maximized: bool,
    any_fullscreen: bool,
}

impl FullscreenFlags {
    pub closed spec fn spec_foreground_maximized(&self) -> bool { self.foreground_maximized }
    pub closed spec fn spec_any_fullscreen(&self) -> bool { self.any_fullscreen }

    pub fn new() -> (f: Self)
        ensures
            !f.spec_foreground_maximized(),
            !f.spec_any_fullscreen(),
    {
        FullscreenFlags { foreground_maximized: false, any_fullscreen: false }
    }

    /// Records whether the foreground third-party window is maximised.
    pub fn set_foreground_maximized(&mut self, maximized: bool)
        ensures
            final(self).spec_foreground_maximized() == maximized,
            final(self).spec_any_fullscreen() == old(self).spec_any_fullscreen(),
    {
        self.foreground_maximized = maximized;
    }

    /// Whether the foreground third-party window is maximised.
    pub fn is_foreground_maximized(&self) -> (b: bool)
        ensures
            b == self.spec_foreground_maximized(),
    {
        self.foreground_maximized
    }

    /// Records whether any window is full screen.
    pub fn set_any_fullscreen(&mut self, fullscreen: bool)
        ensures
            final(self).spec_any_fullscreen() == fullscreen,
            final(self).spec_foreground_maximized() == old(self).spec_foreground_maximized(),
    {
        self.any_fullscreen = fullscreen;
    }

    /// Whether any window is full screen.
    pub fn is_any_fullscreen(&self) -> (b: bool)
        ensures
            b == self.spec_any_fullscreen(),
    {
        self.any_fullscreen
    }
}

/// Effective full screen: when this application's own window is in front
/// (`fg` nonzero and equal to `own`), its being maximised counts as full
/// screen; otherwise the foreground window's true full-screen state counts.
pub fn is_fullscreen_effective(fg: isize, own: isize, own_zoomed: bool, fullscreen_now: bool) -> (b: bool)
    ensures
        b == (if fg != 0 && fg == own { own_zoomed } else { fullscreen_now }),
{
    if fg != 0 && fg == own {
        own_zoomed
    } else {
        fullscreen_now
    }
}

/// Desktop and taskbar windows never count as full-screen applications.
pub open spec fn is_shell_class(cls: Seq<char>) -> bool {
    cls == "Progman"@ || cls == "WorkerW"@ || cls == "Shell_TrayWnd"@ || cls == "Shell_SecondaryTrayWnd"@
}

/// Title of this application's main window.
pub open spec fn own_title() -> Seq<char> {
    "云笈"@
}

/// Whether a desktop or taskbar class.
pub fn shell_class(cls: &str) -> (b: bool)
    ensures
        b == is_shell_class(cls@),
{
    let c = chars_of(cls);
    let a = chars_of("Progman");
    let b2 = chars_of("WorkerW");
    let t = chars_of("Shell_TrayWnd");
    let s = chars_of("Shell_SecondaryTrayWnd");
    chars_eq(c.as_slice(), a.as_slice()) || chars_eq(c.as_slice(), b2.as_slice())
        || chars_eq(c.as_slice(), t.as_slice()) || chars_eq(c.as_slice(), s.as_slice())
}

/// A window that may be a full-screen application: visible, not minimised,
/// not cloaked, not a tool window, not a desktop or taskbar window, and not
/// this application's own window.
pub fn is_fullscreen_candidate(visible: bool, iconic: bool, cloaked: bool, tool_window: bool, cls: &str, title: &str) -> (b: bool)
    ensures
        b == (visible && !iconic && !cloaked && !tool_window && !is_shell_class(cls@) && title@ != own_title()),
{
    if !visible || iconic || cloaked || tool_window {
        return false;
    }
    if shell_class(cls) {
        return false;
    }
    let t = chars_of(title);
    let o = chars_of("云笈");
    !chars_eq(t.as_slice(), o.as_slice())
}

/// Full-screen decision for one candidate window: not hosted by a system
/// application, and covering its monitor.
pub fn is_fullscreen_window(candidate: bool, system_app: bool, covers_monitor: bool) -> (b: bool)
    ensures
        b == (candidate && !system_app && covers_monitor),
{
    candidate && !system_app && covers_monitor
}

pub open spec fn min(a: int, b: int) -> int { if a < b { a } else { b } }
pub open spec fn max(a: int, b: int) -> int { if a > b { a } else { b } }

/// Whether `w` covers monitor `m`: the intersection covers at least 97 % of
/// the monitor's area (compared exactly: 100 × intersection ≥ 97 × monitor)
/// and every window edge reaches the monitor edge within a tolerance of
/// max(8, side / 200) px — a maximised window leaves the taskbar strip
/// uncovered and so fails.
pub open spec fn spec_covers_monitor(w: Rect, m: Rect) -> bool {
    let mw = max(m.right - m.left, 1);
    let mh = max(m.bottom - m.top, 1);
    let iw = min(w.right as int, m.right as int) - max(w.left as int, m.left as int);
    let ih = min(w.bottom as int, m.bottom as int) - max(w.top as int, m.top as int);
    let tol_x = max(mw / 200, 8);
    let tol_y = max(mh / 200, 8);
    &&& iw > 0
    &&& ih > 0
    &&& 100 * (iw * ih) >= 97 * (mw * mh)
    &&& w.left <= m.left + tol_x
    &&& w.right >= m.right - tol_x
    &&& w.top <= m.top + tol_y
    &&& w.bottom >= m.bottom - tol_y
}

/// Whether a window rectangle covers its monitor rectangle (see `spec_covers_monitor`).
pub fn window_covers_monitor(w: Rect, m: Rect) -> (b: bool)
    ensures
        b == spec_covers_monitor(w, m),
{
    let mw0 = m.right as i64 - m.left as i64;
    let mh0 = m.bottom as i64 - m.top as i64;
    let mw: i64 = if mw0 > 1 { mw0 } else { 1 };
    let mh: i64 = if mh0 > 1 { mh0 } else { 1 };
    let r: i64 = if w.right < m.right { w.right as i64 } else { m.right as i64 };
    let l: i64 = if w.left > m.left { w.left as i64 } else { m.left as i64 };
    let bo: i64 = if w.bottom < m.bottom { w.bottom as i64 } else { m.bottom as i64 };
    let to: i64 = if w.top > m.top { w.top as i64 } else { m.top as i64 };
    let iw = r - l;
    let ih = bo - to;
    if iw <= 0 || ih <= 0 {
        return false;
    }
    assert(iw <= 0x1_0000_0000 && ih <= 0x1_0000_0000);
    assert(0 < iw * ih <= 0x1_0000_0000 * 0x1_0000_0000) by (nonlinear_arith)
        requires 0 < iw <= 0x1_0000_0000, 0 < ih <= 0x1_0000_0000;
    assert(0 < mw * mh <= 0x1_0000_0000 * 0x1_0000_0000) by (nonlinear_arith)
        requires 0 < mw <= 0x1_0000_0000, 0 < mh <= 0x1_0000_0000;
    let area = (iw as i128) * (ih as i128);
    let marea = (mw as i128) * (mh as i128);
    if 100 * area < 97 * marea {
        return false;
    }
    let tol_x: i64 = if mw / 200 > 8 { mw / 200 } else { 8 };
    let tol_y: i64 = if mh / 200 > 8 { mh / 200 } else { 8 };
    (w.left as i64) <= (m.left as i64) + tol_x
        && (w.right as i64) >= (m.right as i64) - tol_x
        && (w.top as i64) <= (m.top as i64) + tol_y
        && (w.bottom as i64) >= (m.bottom as i64) - tol_y
}

/// Lower-case form of a string (`str::to_lowercase`, full Unicode mapping).
pub uninterp spec fn unicode_lower(s: Seq<char>) -> Seq<char>;

/// `str::to_lowercase`; the result is claimed only to be a function of the
/// text (named `unicode_lower`).
#[verifier::external_body]
pub(crate) fn to_lowercase(s: &str) -> (r: String)
    ensures
        r@ == unicode_lower(s@),
{
    s.to_lowercase()
}

/// The system applications directory under the Windows directory.
pub open spec fn system_apps_dir(windir: Option<Seq<char>>) -> Seq<char> {
    let w = match windir { Some(w) => w, None => "C:\\Windows"@ };
    trim_end_char(w, '\\') + "\\SystemApps"@
}

/// Whether an executable path lies in the system applications directory
/// (case-insensitive prefix test); an empty path never does.
pub fn is_system_app_path(path: &str, windir: Option<String>) -> (b: bool)
    ensures
        b == (path@.len() > 0 && has_prefix(unicode_lower(path@), unicode_lower(system_apps_dir(
            match windir { Some(w) => Some(w@), None => None })))),
{
    let p = chars_of(path);
    if p.len() == 0 {
        return false;
    }
    let w = match windir {
        Some(w) => w,
        None => owned("C:\\Windows"),
    };
    let wc = chars_of(w.as_str());
    let trimmed = trim_end_char_chars(wc.as_slice(), '\\');
    let mut dir = string_from_seq(trimmed.as_slice());
    push_str(&mut dir, "\\SystemApps");
    let lp = to_lowercase(path);
    let ld = to_lowercase(dir.as_str());
    let a = chars_of(lp.as_str());
    let b = chars_of(ld.as_str());
    starts_with(a.as_slice(), b.as_slice())
}

} // verus!
