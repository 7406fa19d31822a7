//! Desktop double-click detection from the low-level mouse hook's left-button
//! presses: two presses at most 500 ms and 8 px apart form a double click; it
//! toggles the icons when both presses were on the desktop and either the
//! icons are not fully visible or the first press hit empty desktop.
use vstd::prelude::*;
use crate::icons::SelectionState;

verus! {

/// Longest gap between the two presses of a double click (ms).
pub const DOUBLE_CLICK_MS: i64 = 500;
/// Largest movement between the two presses (px, per axis).
pub const MOVE_TOLERANCE: i64 = 8;
/// Shortest gap between two toggles (ms); absorbs duplicated trailing messages.
pub const DEBOUNCE_MS: i64 = 250;

/// How a left-button press is treated.
#[derive(Clone, Copy, Debug, PartialEq, Eq, Structural)]
pub enum PressKind {
    /// Completes a double click with the armed first press.
    Second,
    /// A duplicated double-click message after a consumed double click: ignored.
    Tail,
    /// Arms a new sequence.
    First,
}

/// State of the press sequence.
pub struct DoubleClickDetector {
    /// Time of the armed first press, -1 when none is armed.
    last_down_t: i64,
    last_down_x: i64,
    last_down_y: i64,
    /// Whether the first press was confirmed on the desktop: -1 unknown, 0 no, 1 yes.
    last_down_desktop: i64,
    /// Selection before the first press: -2 unknown, -1 none, >= 0 selected item.
    first_down_sel: i64,
    /// Time of the last toggle, -1 when none happened yet.
    last_fire_t: i64,
}

pub open spec fn abs(v: int) -> int {
    if v < 0 { -v } else { v }
}

/// Code stored for the selection seen at the first press.
pub open spec fn selection_code(s: SelectionState) -> i64 {
    match s {
        SelectionState::NoneSelected => -1i64,
        SelectionState::Selected(i) => i as i64,
        SelectionState::Unknown => -2i64,
    }
}

impl DoubleClickDetector {
    pub closed spec fn armed_time(&self) -> i64 { self.last_down_t }
    pub closed spec fn armed_x(&self) -> i64 { self.last_down_x }
    pub closed spec fn armed_y(&self) -> i64 { self.last_down_y }
    pub closed spec fn armed_desktop(&self) -> i64 { self.last_down_desktop }
    pub closed spec fn armed_selection(&self) -> i64 { self.first_down_sel }
    pub closed spec fn last_fire(&self) -> i64 { self.last_fire_t }

    /// Times are milliseconds of a monotonic clock, never negative.
    pub closed spec fn wf(&self) -> bool {
        &&& self.last_down_t >= -1
        &&& self.last_fire_t >= -1
        &&& i32::MIN <= self.last_down_x <= i32::MAX
        &&& i32::MIN <= self.last_down_y <= i32::MAX
    }

    pub fn new() -> (d: Self)
        ensures
            d.wf(),
            d.armed_time() == -1,
            d.armed_desktop() == -1,
            d.armed_selection() == -2,
            d.last_fire() == -1,
    {
        DoubleClickDetector {
            last_down_t: -1,
            last_down_x: 0,
            last_down_y: 0,
            last_down_desktop: -1,
            first_down_sel: -2,
            last_fire_t: -1,
        }
    }

    /// Within the double-click window of the armed press.
    pub open spec fn spec_within_window(&self, now: i64, x: i32, y: i32) -> bool {
        &&& self.armed_time() >= 0
        &&& now - self.armed_time() <= DOUBLE_CLICK_MS
        &&& abs(x - self.armed_x()) <= MOVE_TOLERANCE
        &&& abs(y - self.armed_y()) <= MOVE_TOLERANCE
    }

    /// Two presses form a double click exactly when a first press is armed,
    /// the second comes at most 500 ms after it, and it lies at most 8 px
    /// away from it both horizontally and vertically.
    pub proof fn law_double_click_is_close_in_time_and_place(&self, now: i64, x: i32, y: i32)
        ensures
            self.spec_within_window(now, x, y) <==> (self.armed_time() >= 0 && now - self.armed_time() <= 500
                && -8 <= x - self.armed_x() <= 8 && -8 <= y - self.armed_y() <= 8),
    {
    }

    /// Classifies a press at time `now` (ms) and point (`x`, `y`);
    /// `is_dblclk` tells whether the system reported it as a double click.
    pub fn classify(&self, now: i64, x: i32, y: i32, is_dblclk: bool) -> (k: PressKind)
        requires
            self.wf(),
            now >= 0,
        ensures
            k == (if self.spec_within_window(now, x, y) { PressKind::Second }
                else if is_dblclk && self.armed_time() == -1 { PressKind::Tail }
                else { PressKind::First }),
            k == PressKind::Second <==> (self.armed_time() >= 0 && now - self.armed_time() <= 500
                && -8 <= x - self.armed_x() <= 8 && -8 <= y - self.armed_y() <= 8),
    {
        let dx0 = x as i64 - self.last_down_x;
        let dx = if dx0 < 0 { -dx0 } else { dx0 };
        let dy0 = y as i64 - self.last_down_y;
        let dy = if dy0 < 0 { -dy0 } else { dy0 };
        let within = self.last_down_t >= 0
            && (now - self.last_down_t) <= DOUBLE_CLICK_MS
            && dx <= MOVE_TOLERANCE
            && dy <= MOVE_TOLERANCE;
        if within {
            PressKind::Second
        } else if is_dblclk && self.last_down_t == -1 {
            PressKind::Tail
        } else {
            PressKind::First
        }
    }

    /// Whether the armed first press was confirmed on the desktop.
    pub fn first_on_desktop(&self) -> (b: bool)
        ensures
            b == (self.armed_desktop() == 1),
    {
        self.last_down_desktop == 1
    }

    /// After a second press on the desktop with visible icons: whether the
    /// selection has to be read again a moment later (no selection now and none
    /// before the first press may mean the first press was not yet processed).
    pub fn needs_recheck(&self, sel: SelectionState) -> (b: bool)
        ensures
            b == (sel == SelectionState::NoneSelected && self.armed_selection() == -1),
    {
        sel == SelectionState::NoneSelected && self.first_down_sel == -1
    }

    /// Decides a second press at `now`: `on_desktop_now` is the hit test of
    /// this press, `hidden` whether the icons are not fully visible, `sel` the
    /// (re-checked) selection. Returns whether to toggle; the sequence is
    /// consumed either way.
    pub fn finish_second(&mut self, now: i64, on_desktop_now: bool, hidden: bool, sel: SelectionState) -> (fire: bool)
        requires
            old(self).wf(),
            now >= 0,
            old(self).last_fire() <= now,
        ensures
            final(self).wf(),
            fire == ((old(self).armed_desktop() == 1 && on_desktop_now)
                && (old(self).last_fire() < 0 || now - old(self).last_fire() >= DEBOUNCE_MS)
                && (hidden || sel == SelectionState::NoneSelected)),
            final(self).last_fire() == (if fire { now } else { old(self).last_fire() }),
            final(self).armed_time() == -1,
            final(self).armed_desktop() == -1,
            final(self).armed_selection() == -2,
    {
        let on_desktop = self.last_down_desktop == 1 && on_desktop_now;
        let debounce_ok = self.last_fire_t < 0 || now - self.last_fire_t >= DEBOUNCE_MS;
        let blank_click = sel == SelectionState::NoneSelected;
        let fire = on_desktop && debounce_ok && (hidden || blank_click);
        if fire {
            self.last_fire_t = now;
        }
        self.last_down_t = -1;
        self.last_down_desktop = -1;
        self.first_down_sel = -2;
        fire
    }

    /// Arms a new sequence with a first press at `now`, point (`x`, `y`),
    /// its desktop hit test and the selection before it.
    pub fn record_first(&mut self, now: i64, x: i32, y: i32, on_desktop: bool, sel: SelectionState)
        requires
            old(self).wf(),
            now >= 0,
        ensures
            final(self).wf(),
            final(self).armed_time() == now,
            final(self).armed_x() == x as i64,
            final(self).armed_y() == y as i64,
            final(self).armed_desktop() == (if on_desktop { 1i64 } else { 0i64 }),
            final(self).armed_selection() == selection_code(sel),
            final(self).last_fire() == old(self).last_fire(),
    {
        let code: i64 = match sel {
            SelectionState::NoneSelected => -1,
            SelectionState::Selected(i) => i as i64,
            SelectionState::Unknown => -2,
        };
        self.last_down_t = now;
        self.last_down_x = x as i64;
        self.last_down_y = y as i64;
        self.last_down_desktop = if on_desktop { 1 } else { 0 };
        self.first_down_sel = code;
    }
}

/// Law: two toggles are at least the debounce interval apart — after a toggle
/// at `t1`, a second press at `t2 < t1 + 250` never toggles.
pub proof fn law_toggles_debounced(d: DoubleClickDetector, t2: i64, on_desktop_now: bool, hidden: bool, sel: SelectionState)
    requires
        d.wf(),
        d.last_fire() >= 0,
        d.last_fire() <= t2 < d.last_fire() + DEBOUNCE_MS,
    ensures
        !((d.armed_desktop() == 1 && on_desktop_now)
            && (d.last_fire() < 0 || t2 - d.last_fire() >= DEBOUNCE_MS)
            && (hidden || sel == SelectionState::NoneSelected)),
{
}

/// Law: a press right after a consumed double click never completes another
/// double click (the sequence was disarmed).
pub proof fn law_consumed_sequence_disarmed(d: DoubleClickDetector, now: i64, x: i32, y: i32)
    requires
        d.wf(),
        d.armed_time() == -1,
    ensures
        !d.spec_within_window(now, x, y),
{
}

} // verus!
