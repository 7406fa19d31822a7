//! Desktop icon visibility: reading the icon layer's alpha, the fade plan,
//! the desktop hit test of a click and the decoding of the icon list's
//! selection reply.
use vstd::prelude::*;
use crate::geom::{rect_contains, spec_contains, Rect};
use crate::text::{chars_eq, chars_of};

verus! {

/// Hit test of a click point (system calls only, no cross-process messages).
pub struct PointState {
    /// The point belongs to the desktop: its top-level window is Progman or
    /// WorkerW and a desktop icon list covers it.
    pub on_desktop: bool,
    /// The desktop icon list covering the point (0 = none).
    pub list_view: isize,
    /// The window directly under the point.
    pub hwnd: usize,
    pub hwnd_cls: String,
    /// Class name of the top-level window.
    pub top_cls: String,
}

/// The desktop hit test for point (`x`, `y`): `hwnd` is the window under the
/// point (0 = none) with class `hwnd_cls`, `top_cls` the class of its
/// top-level ancestor, and `lists` the desktop icon lists with their screen
/// rectangles. The first list whose rectangle contains the point is chosen.
pub fn desktop_point_state(
    x: i32,
    y: i32,
    hwnd: usize,
    hwnd_cls: String,
    top_cls: String,
    lists: &[(isize, Rect)],
) -> (st: PointState)
    ensures
        st.hwnd == hwnd,
        st.hwnd_cls@ == hwnd_cls@,
        st.top_cls@ == top_cls@,
        ({
            let eligible = hwnd != 0 && (top_cls@ == "Progman"@ || top_cls@ == "WorkerW"@);
            let covered = exists|k: int| 0 <= k < lists@.len() && spec_contains(lists@[k].1, x, y);
            &&& st.on_desktop == (eligible && covered)
            &&& st.on_desktop ==> exists|k: int| 0 <= k < lists@.len() && spec_contains(lists@[k].1, x, y)
                && st.list_view == lists@[k].0
                && forall|j: int| 0 <= j < k ==> !spec_contains(#[trigger] lists@[j].1, x, y)
            &&& !st.on_desktop ==> st.list_view == 0
        }),
{
    let p = chars_of("Progman");
    let w = chars_of("WorkerW");
    let t = chars_of(top_cls.as_str());
    let eligible = hwnd != 0 && (chars_eq(t.as_slice(), p.as_slice()) || chars_eq(t.as_slice(), w.as_slice()));
    if !eligible {
        return PointState { on_desktop: false, list_view: 0, hwnd, hwnd_cls, top_cls };
    }
    let mut k: usize = 0;
    while k < lists.len()
        invariant
            k <= lists@.len(),
            hwnd != 0 && (top_cls@ == "Progman"@ || top_cls@ == "WorkerW"@),
            forall|j: int| 0 <= j < k ==> !spec_contains(#[trigger] lists@[j].1, x, y),
        decreases lists@.len() - k,
    {
        if rect_contains(lists[k].1, x, y) {
            assert(spec_contains(lists@[k as int].1, x, y));
            return PointState { on_desktop: true, list_view: lists[k].0, hwnd, hwnd_cls, top_cls };
        }
        k += 1;
    }
    PointState { on_desktop: false, list_view: 0, hwnd, hwnd_cls, top_cls }
}

/// Selection state of the desktop icon list.
#[derive(Clone, Copy, Debug, PartialEq, Eq, Structural)]
pub enum SelectionState {
    /// No item is selected: the first click hit empty desktop.
    NoneSelected,
    /// This item is selected: the first click hit an icon.
    Selected(i32),
    /// No answer, time-out or no list: undecided (callers do not act).
    Unknown,
}

/// Value the reply slot is primed with; a reply still holding it was not processed.
pub const REPLY_SENTINEL: usize = 0xDEAD_BEEF;

/// Decodes the reply to the "next selected item" query sent to `list_view`:
/// `sent_ok` is whether the message was answered in time, `reply` the result.
pub fn selection_from_reply(list_view: isize, sent_ok: bool, reply: usize) -> (s: SelectionState)
    ensures
        list_view == 0 ==> s == SelectionState::Unknown,
        list_view != 0 && (!sent_ok || reply == REPLY_SENTINEL) ==> s == SelectionState::Unknown,
        list_view != 0 && sent_ok && reply != REPLY_SENTINEL ==> s == (
            if reply == usize::MAX { SelectionState::NoneSelected }
            else if reply < 1_000_000 { SelectionState::Selected(reply as i32) }
            else { SelectionState::Unknown }),
{
    if list_view == 0 {
        return SelectionState::Unknown;
    }
    if !sent_ok || reply == REPLY_SENTINEL {
        return SelectionState::Unknown;
    }
    if reply == usize::MAX {
        return SelectionState::NoneSelected;
    }
    if reply < 1_000_000 {
        SelectionState::Selected(reply as i32)
    } else {
        SelectionState::Unknown
    }
}

/// Visibility of the desktop icons, as the icon layer's alpha shows it.
#[derive(Clone, Copy, Debug, PartialEq, Eq, Structural)]
pub enum IconVisibility {
    Visible,
    Hidden,
    Animating,
}

/// Visibility for a given icon layer: `shell_found` is whether the layer was
/// found, `alpha` its alpha (None when it is not a layered window). Alpha 0
/// is hidden, 255 or no layering visible, anything else mid-fade; a missing
/// layer counts as visible so that nothing is hidden by mistake.
pub fn icon_visibility(shell_found: bool, alpha: Option<u8>) -> (v: IconVisibility)
    ensures
        v == (if !shell_found { IconVisibility::Visible } else {
            match alpha {
                Some(a) => if a == 0 { IconVisibility::Hidden } else if a == 255 { IconVisibility::Visible } else { IconVisibility::Animating },
                None => IconVisibility::Visible,
            }
        }),
{
    if !shell_found {
        return IconVisibility::Visible;
    }
    match alpha {
        Some(0) => IconVisibility::Hidden,
        Some(255) => IconVisibility::Visible,
        Some(_) => IconVisibility::Animating,
        None => IconVisibility::Visible,
    }
}

/// Whether the icons are not fully visible (hidden or mid-fade).
pub fn is_icons_hidden(shell_found: bool, alpha: Option<u8>) -> (b: bool)
    ensures
        b == (shell_found && alpha is Some && alpha->0 < 255),
{
    if !shell_found {
        return false;
    }
    match alpha {
        Some(a) => a < 255,
        None => false,
    }
}

/// Start-up self-repair: whether icons left translucent by an earlier abnormal
/// exit have to be restored to full opacity.
pub fn ensure_icons_restored(shell_found: bool, alpha: Option<u8>) -> (restore: bool)
    ensures
        restore == (shell_found && alpha is Some && alpha->0 < 255),
{
    is_icons_hidden(shell_found, alpha)
}

/// The alpha values set by a fade: starting from `alpha`, each step moves by
/// `step` (clamped to 0..=255) until `end` is reached or `steps` run out.
pub open spec fn fade_seq(alpha: int, end: int, step: int, steps: nat) -> Seq<u8>
    decreases steps,
{
    if steps == 0 {
        Seq::empty()
    } else {
        let a = if alpha + step < 0 { 0 } else if alpha + step > 255 { 255 } else { alpha + step };
        if a == end {
            seq![a as u8]
        } else {
            seq![a as u8] + fade_seq(a, end, step, (steps - 1) as nat)
        }
    }
}

/// The fade requested by a toggle: none when the icons already are in the
/// target state; hiding runs from 255 down to 0, showing from the current
/// alpha (0 when unknown) up to 255.
pub open spec fn spec_fade_plan(target_hidden: bool, vis: IconVisibility, alpha: Option<u8>, steps: u32) -> Seq<u8> {
    if (vis == IconVisibility::Hidden && target_hidden) || (vis == IconVisibility::Visible && !target_hidden) {
        Seq::empty()
    } else if target_hidden {
        fade_seq(255, 0, -1, steps as nat)
    } else {
        fade_seq(match alpha { Some(a) => a as int, None => 0 }, 255, 1, steps as nat)
    }
}

/// Alpha values to apply, one per animation step (see `spec_fade_plan`).
pub fn fade_plan(target_hidden: bool, vis: IconVisibility, alpha: Option<u8>, steps: u32) -> (r: Vec<u8>)
    ensures
        r@ == spec_fade_plan(target_hidden, vis, alpha, steps),
{
    let mut out: Vec<u8> = Vec::new();
    if (vis == IconVisibility::Hidden && target_hidden) || (vis == IconVisibility::Visible && !target_hidden) {
        return out;
    }
    let end: i32 = if target_hidden { 0 } else { 255 };
    let start: i32 = if target_hidden { 255 } else {
        match alpha { Some(a) => a as i32, None => 0 }
    };
    let step: i32 = if target_hidden { -1 } else { 1 };
    let mut cur: i32 = start;
    let mut left: u32 = steps;
    while left > 0
        invariant
            0 <= cur <= 255,
            step == -1 || step == 1,
            out@ + fade_seq(cur as int, end as int, step as int, left as nat)
                == fade_seq(start as int, end as int, step as int, steps as nat),
        decreases left,
    {
        let next = cur + step;
        let a: i32 = if next < 0 { 0 } else if next > 255 { 255 } else { next };
        let ghost before = out@;
        out.push(a as u8);
        if a == end {
            assert(out@ =~= before + seq![a as u8]);
            assert(out@ + Seq::<u8>::empty() =~= out@);
            let ghost e = fade_seq(a as int, end as int, step as int, 0nat);
            proof {
                assert(fade_seq(cur as int, end as int, step as int, left as nat) == seq![a as u8]);
            }
            cur = a;
            left = 0;
            assert(e =~= Seq::<u8>::empty());
        } else {
            assert(before + (seq![a as u8] + fade_seq(a as int, end as int, step as int, (left - 1) as nat))
                =~= out@ + fade_seq(a as int, end as int, step as int, (left - 1) as nat));
            cur = a;
            left -= 1;
        }
    }
    assert(out@ + fade_seq(cur as int, end as int, step as int, 0nat) =~= out@);
    out
}

/// A fade toward `end` (0 moving down, 255 moving up) with enough steps ends
/// exactly at `end`.
pub proof fn lemma_fade_reaches_end(alpha: int, end: int, step: int, steps: nat)
    requires
        0 <= alpha <= 255,
        (end == 0 && step == -1 && steps >= alpha && steps >= 1)
            || (end == 255 && step == 1 && steps >= 255 - alpha && steps >= 1),
    ensures
        fade_seq(alpha, end, step, steps).len() >= 1,
        fade_seq(alpha, end, step, steps).last() == end as u8,
    decreases steps,
{
    let a = if alpha + step < 0 { 0 } else if alpha + step > 255 { 255 } else { alpha + step };
    if a != end {
        lemma_fade_reaches_end(a, end, step, (steps - 1) as nat);
        let rest = fade_seq(a, end, step, (steps - 1) as nat);
        assert((seq![a as u8] + rest).last() == rest.last());
    }
}

/// Law: a requested fade of 256 steps always finishes in the requested state
/// (last alpha 0 when hiding, 255 when showing).
pub proof fn law_fade_completes(target_hidden: bool, vis: IconVisibility, alpha: Option<u8>)
    requires
        spec_fade_plan(target_hidden, vis, alpha, 256).len() > 0,
    ensures
        spec_fade_plan(target_hidden, vis, alpha, 256).last() == (if target_hidden { 0u8 } else { 255u8 }),
{
    if target_hidden {
        lemma_fade_reaches_end(255, 0, -1, 256);
    } else {
        let a: int = match alpha { Some(a) => a as int, None => 0 };
        lemma_fade_reaches_end(a, 255, 1, 256);
    }
}

/// Flag raised by the mouse hook when a desktop double-click asks for a toggle.
pub struct HookEventFlag {
    raised: bool,
}

impl HookEventFlag {
    pub closed spec fn is_raised(&self) -> bool {
        self.raised
    }

    pub fn new() -> (f: Self)
        ensures
            !f.is_raised(),
    {
        HookEventFlag { raised: false }
    }

    /// Raises the flag.
    pub fn set_hook_event(&mut self)
        ensures
            final(self).is_raised(),
    {
        self.raised = true;
    }

    /// Takes the flag: returns whether it was raised and lowers it.
    pub fn take_hook_event(&mut self) -> (was: bool)
        ensures
            was == old(self).is_raised(),
            !final(self).is_raised(),
    {
        let was = self.raised;
        self.raised = false;
        was
    }
}

} // verus!
