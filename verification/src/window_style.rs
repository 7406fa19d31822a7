//! Frameless auxiliary windows: the window styles that keep them out of
//! Alt+Tab and free of any caption, the check that finds a style reset by
//! the window framework, and the non-client messages that are swallowed.
use vstd::prelude::*;

verus! {

pub const WS_CAPTION: u32 = 0x00C0_0000;
pub const WS_SYSMENU: u32 = 0x0008_0000;
pub const WS_BORDER: u32 = 0x0080_0000;
/// `WS_MINIMIZEBOX | WS_MAXIMIZEBOX`.
pub const WS_MINMAX: u32 = 0x0003_0000;
pub const WS_POPUP: u32 = 0x8000_0000;
pub const WS_EX_APPWINDOW: u32 = 0x0004_0000;
pub const WS_EX_TOOLWINDOW: u32 = 0x0000_0080;
/// Frame bits that must be clear.
pub const FRAME_BITS: u32 = 0x00CB_0000;

/// Least time between two repairs of one window's style (ms).
pub const FIX_THROTTLE_MS: u64 = 500;

pub const WM_NCCALCSIZE: u32 = 0x0083;
pub const WM_NCPAINT: u32 = 0x0085;
pub const WM_NCACTIVATE: u32 = 0x0086;

/// A window style shows a frame (caption, system menu, border, minimise or
/// maximise box), is not a pop-up, appears in the task switcher, or is not a
/// tool window.
pub open spec fn spec_frame_is_bad(style: u32, ex: u32) -> bool {
    (style & FRAME_BITS) != 0 || (style & WS_POPUP) == 0 || (ex & WS_EX_APPWINDOW) != 0 || (ex & WS_EX_TOOLWINDOW) == 0
}

/// The repaired styles: frame bits cleared and pop-up set; tool window set
/// and the task-switcher bit cleared. Other bits are kept.
pub open spec fn spec_tool_window_styles(style: u32, ex: u32) -> (u32, u32) {
    ((style & !FRAME_BITS) | WS_POPUP, (ex | WS_EX_TOOLWINDOW) & !WS_EX_APPWINDOW)
}

/// Whether a window's styles need repairing.
pub fn frame_is_bad(style: u32, ex: u32) -> (b: bool)
    ensures
        b == spec_frame_is_bad(style, ex),
{
    (style & FRAME_BITS) != 0 || (style & WS_POPUP) == 0 || (ex & WS_EX_APPWINDOW) != 0 || (ex & WS_EX_TOOLWINDOW) == 0
}

/// The styles of a frameless tool window derived from the current ones.
pub fn tool_window_styles(style: u32, ex: u32) -> (r: (u32, u32))
    ensures
        r == spec_tool_window_styles(style, ex),
{
    ((style & !FRAME_BITS) | WS_POPUP, (ex | WS_EX_TOOLWINDOW) & !WS_EX_APPWINDOW)
}

/// The repaired styles never need repairing again, and repairing them again
/// changes nothing.
pub proof fn law_repair_is_final(style: u32, ex: u32)
    ensures
        !spec_frame_is_bad(spec_tool_window_styles(style, ex).0, spec_tool_window_styles(style, ex).1),
        spec_tool_window_styles(spec_tool_window_styles(style, ex).0, spec_tool_window_styles(style, ex).1)
            == spec_tool_window_styles(style, ex),
{
    let s2 = (style & !FRAME_BITS) | WS_POPUP;
    let e2 = (ex | WS_EX_TOOLWINDOW) & !WS_EX_APPWINDOW;
    assert((s2 & 0x00CB_0000u32) == 0 && (s2 & 0x8000_0000u32) != 0) by (bit_vector)
        requires
            s2 == (style & !0x00CB_0000u32) | 0x8000_0000u32,
    ;
    assert((e2 & 0x0004_0000u32) == 0 && (e2 & 0x0000_0080u32) != 0) by (bit_vector)
        requires
            e2 == (ex | 0x0000_0080u32) & !0x0004_0000u32,
    ;
    assert(((s2 & !0x00CB_0000u32) | 0x8000_0000u32) == s2) by (bit_vector)
        requires
            s2 == (style & !0x00CB_0000u32) | 0x8000_0000u32,
    ;
    assert(((e2 | 0x0000_0080u32) & !0x0004_0000u32) == e2) by (bit_vector)
        requires
            e2 == (ex | 0x0000_0080u32) & !0x0004_0000u32,
    ;
}

/// A window is repaired at most once per `FIX_THROTTLE_MS` (64-bit tick
/// count, wrap-around safe).
pub fn fix_due(now_ms: u64, last_fix_ms: u64) -> (b: bool)
    ensures
        b == (((now_ms as int - last_fix_ms as int) % 0x1_0000_0000_0000_0000int) >= FIX_THROTTLE_MS),
{
    let d = now_ms.wrapping_sub(last_fix_ms);
    proof {
        if now_ms >= last_fix_ms {
            assert((now_ms as int - last_fix_ms as int) % 0x1_0000_0000_0000_0000int == now_ms - last_fix_ms);
        } else {
            assert((now_ms as int - last_fix_ms as int) % 0x1_0000_0000_0000_0000int
                == now_ms as int - last_fix_ms as int + 0x1_0000_0000_0000_0000int);
        }
    }
    d >= FIX_THROTTLE_MS
}

/// The answer given directly to a non-client message so that no caption is
/// ever drawn: activation is reported handled (1), painting and size
/// calculation are done (0, the whole window is client area). Other messages
/// go to the window procedure that was replaced.
pub fn nc_message_result(msg: u32) -> (r: Option<isize>)
    ensures
        r == (if msg == WM_NCACTIVATE { Some(1isize) } else if msg == WM_NCPAINT || msg == WM_NCCALCSIZE { Some(0isize) } else { None }),
{
    if msg == WM_NCACTIVATE {
        Some(1)
    } else if msg == WM_NCPAINT || msg == WM_NCCALCSIZE {
        Some(0)
    } else {
        None
    }
}

} // verus!
