//! Selection translation: when the mouse is released over selected text, a
//! small button appears below the selection's end; clicking it opens a pop-up
//! and translates the text with the AI assistant or the Microsoft translator.
//!
//! This module holds the decisions and texts of that flow: when to look for a
//! selection, where the button and the pop-up go, which text is sent, the
//! request URL and prompt, the language labels, and the messages shown.
use vstd::prelude::*;
use crate::ai::{json_pointer_array, json_pointer_is_array, json_pointer_str, json_pointer_text, net_error, spec_net_error};
use crate::geom::{spec_clamp, spec_contains, Rect};
use crate::text::{
    chars_of, decimal, owned, push_decimal, push_str, str_eq, string_from_seq, trim, trim_chars,
};

verus! {

/// Size of the translate button window.
pub const BUTTON_W: i32 = 75;
pub const BUTTON_H: i32 = 30;
/// Size of the translation pop-up window.
pub const POPUP_W: i32 = 400;
pub const POPUP_H: i32 = 300;
/// Wait after the mouse is released before reading the selection (ms).
pub const SELECT_SETTLE_MS: u64 = 130;
/// Gap between the selection and the button, and the button and the pop-up.
pub const GAP: i32 = 8;
/// At most this many characters are translated at once.
pub const MAX_TEXT: usize = 8000;

/// Translation settings handed over by the application.
pub struct TranslateConfig {
    /// "ai" | "microsoft".
    pub engine: String,
    pub ai_model: String,
    pub ai_base_url: String,
    pub ms_region: String,
    /// Target language code (default "auto-zh-Hans").
    pub target_lang: String,
    /// Source language code (default "auto": detect).
    pub source_lang: String,
}

// ---------------------------------------------------------------------------
// Run state and the selection
// ---------------------------------------------------------------------------

/// The current selection: its text and the button's top-left corner.
#[derive(Debug)]
pub struct Selection {
    pub text: String,
    pub x: i32,
    pub y: i32,
}

/// Run flags of the hook and the detection worker, and the current selection.
pub struct TranslateState {
    pub running: bool,
    pub enabled: bool,
    pub selection: Option<Selection>,
}

impl TranslateState {
    /// Not running, switched on, no selection.
    pub fn new() -> (s: Self)
        ensures
            !s.running && s.enabled && s.selection.is_none(),
    {
        TranslateState { running: false, enabled: true, selection: None }
    }

    /// Starts the hook and the worker (idempotent): returns whether they have
    /// to be started now.
    pub fn start(&mut self) -> (spawn: bool)
        ensures
            spawn == !old(self).running,
            final(self).running,
            final(self).enabled == old(self).enabled,
    {
        if self.running {
            return false;
        }
        self.running = true;
        true
    }

    /// Stops the hook thread and the worker (on exit).
    pub fn stop(&mut self)
        ensures
            !final(self).running,
            final(self).enabled == old(self).enabled,
    {
        self.running = false;
    }

    /// The settings switch: turning it off hides the button and the pop-up at
    /// once (returns whether they must be hidden) and forgets the selection.
    pub fn set_enabled(&mut self, enabled: bool) -> (must_hide: bool)
        ensures
            final(self).enabled == enabled,
            must_hide == !enabled,
            !enabled ==> final(self).selection.is_none(),
            final(self).running == old(self).running,
    {
        self.enabled = enabled;
        if !enabled {
            self.dismiss();
            true
        } else {
            false
        }
    }

    /// Hiding the button and the pop-up forgets the selection.
    pub fn dismiss(&mut self)
        ensures
            final(self).selection.is_none(),
            final(self).running == old(self).running,
            final(self).enabled == old(self).enabled,
    {
        self.selection = None;
    }

    /// A selection was found and the button is shown for it.
    pub fn set_selection(&mut self, sel: Selection)
        ensures
            final(self).selection == Some(sel),
            final(self).running == old(self).running,
            final(self).enabled == old(self).enabled,
    {
        self.selection = Some(sel);
    }
}

/// Whether a point lies in one of the translate windows (edges right and
/// bottom excluded).
pub fn point_inside_any(x: i32, y: i32, windows: &[Rect]) -> (b: bool)
    ensures
        b == exists|i: int| 0 <= i < windows@.len() && spec_contains(#[trigger] windows@[i], x, y),
{
    let mut i: usize = 0;
    while i < windows.len()
        invariant
            i <= windows@.len(),
            forall|j: int| 0 <= j < i ==> !spec_contains(#[trigger] windows@[j], x, y),
        decreases windows.len() - i,
    {
        if crate::geom::rect_contains(windows[i], x, y) {
            return true;
        }
        i += 1;
    }
    false
}

/// A left button press outside the visible translate windows hides them;
/// presses inside are for the windows themselves.
pub fn hide_on_press(translate_visible: bool, inside: bool) -> (b: bool)
    ensures
        b == (translate_visible && !inside),
{
    translate_visible && !inside
}

/// After a release the selection is looked for only when the feature is on,
/// the foreground window is not ours, the pop-up is not showing, and the
/// release is not on the button.
pub fn should_detect(enabled: bool, foreground_is_ours: bool, popup_visible: bool, translate_visible: bool, inside: bool)
    -> (b: bool)
    ensures
        b == (enabled && !foreground_is_ours && !popup_visible && !(translate_visible && inside)),
{
    enabled && !foreground_is_ours && !popup_visible && !(translate_visible && inside)
}

// ---------------------------------------------------------------------------
// Selection text and placement
// ---------------------------------------------------------------------------

/// The text sent for translation: the selection trimmed, at most `MAX_TEXT`
/// characters; nothing when it is blank.
pub open spec fn spec_clip_selection(text: Seq<char>) -> Option<Seq<char>> {
    let t = trim(text);
    if t.len() == 0 {
        None
    } else if t.len() <= MAX_TEXT {
        Some(t)
    } else {
        Some(t.take(MAX_TEXT as int))
    }
}

/// Trims the selected text and cuts it to `MAX_TEXT` characters.
pub fn clip_selection(text: &str) -> (r: Option<String>)
    ensures
        match spec_clip_selection(text@) {
            Some(t) => r is Some && r->0@ == t,
            None => r is None,
        },
{
    let cs = chars_of(text);
    let t = trim_chars(cs.as_slice());
    if t.len() == 0 {
        return None;
    }
    if t.len() <= MAX_TEXT {
        Some(string_from_seq(t.as_slice()))
    } else {
        let s = string_from_seq(vstd::slice::slice_subrange(t.as_slice(), 0, MAX_TEXT));
        proof {
            assert(t@.subrange(0, MAX_TEXT as int) =~= t@.take(MAX_TEXT as int));
        }
        Some(s)
    }
}

/// A bounding rectangle of the selected text: left, top, width, height.
pub type TextBox = (i32, i32, i32, i32);

/// The end of the selection: the bottom-right corner of the last non-empty
/// text box (where the text ends); the fallback corner when there is none.
pub open spec fn spec_selection_end(boxes: Seq<TextBox>, fallback: (i32, i32)) -> (int, int)
    decreases boxes.len(),
{
    if boxes.len() == 0 {
        (fallback.0 as int, fallback.1 as int)
    } else {
        let b = boxes.last();
        if b.2 > 0 && b.3 > 0 {
            (b.0 + b.2, b.1 + b.3)
        } else {
            spec_selection_end(boxes.drop_last(), fallback)
        }
    }
}

/// Finds the end of the selection from its text boxes (see `spec_selection_end`).
pub fn selection_end(boxes: &[TextBox], fallback: (i32, i32)) -> (e: (i64, i64))
    ensures
        e.0 == spec_selection_end(boxes@, fallback).0,
        e.1 == spec_selection_end(boxes@, fallback).1,
{
    let mut n: usize = boxes.len();
    proof {
        assert(boxes@.take(boxes@.len() as int) =~= boxes@);
    }
    while n > 0
        invariant
            n <= boxes@.len(),
            spec_selection_end(boxes@, fallback) == spec_selection_end(boxes@.take(n as int), fallback),
        decreases n,
    {
        let b = boxes[n - 1];
        proof {
            assert(boxes@.take(n as int).last() == b);
            assert(boxes@.take(n as int).drop_last() == boxes@.take(n as int - 1));
        }
        if b.2 > 0 && b.3 > 0 {
            return (b.0 as i64 + b.2 as i64, b.1 as i64 + b.3 as i64);
        }
        n -= 1;
    }
    (fallback.0 as i64, fallback.1 as i64)
}

/// The work area used when the monitor's cannot be read: 1920 x 1080.
pub fn work_area_or_default(work: Option<Rect>) -> (r: Rect)
    ensures
        r == (match work { Some(w) => w, None => Rect { left: 0, top: 0, right: 1920, bottom: 1080 } }),
{
    match work {
        Some(w) => w,
        None => Rect { left: 0, top: 0, right: 1920, bottom: 1080 },
    }
}

/// The button's top-left corner: centred under the selection's end, `GAP`
/// below it, kept inside the work area.
pub open spec fn spec_button_position(end_x: int, end_y: int, work: Rect) -> (int, int) {
    (
        spec_clamp(end_x - BUTTON_W / 2, work.left as int, work.right - BUTTON_W),
        spec_clamp(end_y + GAP, work.top as int, work.bottom - BUTTON_H),
    )
}

/// The button and the pop-up always lie wholly inside a work area that can
/// hold them.
pub proof fn law_windows_inside_work_area(end_x: int, end_y: int, sel_x: int, sel_y: int, work: Rect)
    requires
        work.left + POPUP_W <= work.right,
        work.top + POPUP_H <= work.bottom,
    ensures
        ({
            let (bx, by) = spec_button_position(end_x, end_y, work);
            &&& work.left <= bx && bx + BUTTON_W <= work.right
            &&& work.top <= by && by + BUTTON_H <= work.bottom
        }),
        ({
            let (px, py) = spec_popup_position(sel_x, sel_y, work);
            &&& work.left <= px && px + POPUP_W <= work.right
            &&& work.top <= py && py + POPUP_H <= work.bottom
        }),
{
}

/// Places the translate button (see `spec_button_position`); the work area
/// must be able to hold it.
pub fn button_position(end_x: i64, end_y: i64, work: Rect) -> (p: (i32, i32))
    requires
        work.left + BUTTON_W <= work.right,
        work.top + BUTTON_H <= work.bottom,
        -0x1_0000_0000 <= end_x <= 0x1_0000_0000,
        -0x1_0000_0000 <= end_y <= 0x1_0000_0000,
    ensures
        p.0 == spec_button_position(end_x as int, end_y as int, work).0,
        p.1 == spec_button_position(end_x as int, end_y as int, work).1,
{
    let x = clamp_i64(end_x - (BUTTON_W / 2) as i64, work.left as i64, work.right as i64 - BUTTON_W as i64);
    let y = clamp_i64(end_y + GAP as i64, work.top as i64, work.bottom as i64 - BUTTON_H as i64);
    (x as i32, y as i32)
}

fn clamp_i64(v: i64, lo: i64, hi: i64) -> (r: i64)
    requires
        lo <= hi,
    ensures
        r == spec_clamp(v as int, lo as int, hi as int),
{
    if v < lo { lo } else if v > hi { hi } else { v }
}

/// The pop-up's top-left corner: centred on the button, `GAP` below it,
/// kept inside the work area.
pub open spec fn spec_popup_position(sel_x: int, sel_y: int, work: Rect) -> (int, int) {
    let cx = sel_x + BUTTON_W / 2;
    (
        spec_clamp(cx - POPUP_W / 2, work.left as int, work.right - POPUP_W),
        spec_clamp(sel_y + BUTTON_H + GAP, work.top as int, work.bottom - POPUP_H),
    )
}

/// Places the pop-up under the button (see `spec_popup_position`); the work
/// area must be able to hold it.
pub fn popup_position(sel_x: i32, sel_y: i32, work: Rect) -> (p: (i32, i32))
    requires
        work.left + POPUP_W <= work.right,
        work.top + POPUP_H <= work.bottom,
    ensures
        p.0 == spec_popup_position(sel_x as int, sel_y as int, work).0,
        p.1 == spec_popup_position(sel_x as int, sel_y as int, work).1,
{
    let cx = sel_x as i64 + (BUTTON_W / 2) as i64;
    let x = clamp_i64(cx - (POPUP_W / 2) as i64, work.left as i64, work.right as i64 - POPUP_W as i64);
    let y = clamp_i64(sel_y as i64 + BUTTON_H as i64 + GAP as i64, work.top as i64, work.bottom as i64 - POPUP_H as i64);
    (x as i32, y as i32)
}

// ---------------------------------------------------------------------------
// Languages and engines
// ---------------------------------------------------------------------------

/// Display name of a source language code; unknown codes (and "auto") mean
/// automatic detection.
pub open spec fn spec_source_label(code: Seq<char>) -> Seq<char> {
    if code == "zh-Hans"@ { "简体中文"@ }
    else if code == "zh-Hant"@ { "繁體中文"@ }
    else if code == "en"@ { "英语"@ }
    else if code == "ja"@ { "日语"@ }
    else if code == "ko"@ { "韩语"@ }
    else if code == "fr"@ { "法语"@ }
    else if code == "de"@ { "德语"@ }
    else if code == "ru"@ { "俄语"@ }
    else if code == "es"@ { "西班牙语"@ }
    else { "自动检测"@ }
}

/// Display name of a target language code; unknown codes mean Simplified Chinese.
pub open spec fn spec_target_label(code: Seq<char>) -> Seq<char> {
    if code == "zh-Hans"@ || code == "auto-zh-Hans"@ { "简体中文"@ }
    else if code == "zh-Hant"@ { "繁體中文"@ }
    else if code == "en"@ { "英语"@ }
    else if code == "ja"@ { "日语"@ }
    else if code == "ko"@ { "韩语"@ }
    else if code == "fr"@ { "法语"@ }
    else if code == "de"@ { "德语"@ }
    else if code == "ru"@ { "俄语"@ }
    else if code == "es"@ { "西班牙语"@ }
    else { "简体中文"@ }
}

/// Each language code is shown as its own language's name: `zh-Hans`
/// 简体中文, `zh-Hant` 繁體中文, `en` 英语, `ja` 日语, `ko` 韩语, `fr` 法语,
/// `de` 德语, `ru` 俄语, `es` 西班牙语; as a target a code is named as it is
/// as a source; and two different known codes never share a name.
pub proof fn law_language_labels(code: Seq<char>, other: Seq<char>)
    ensures
        code == "zh-Hans"@ ==> spec_source_label(code) == "简体中文"@ && spec_target_label(code) == "简体中文"@,
        code == "zh-Hant"@ ==> spec_source_label(code) == "繁體中文"@ && spec_target_label(code) == "繁體中文"@,
        code == "en"@ ==> spec_source_label(code) == "英语"@ && spec_target_label(code) == "英语"@,
        code == "ja"@ ==> spec_source_label(code) == "日语"@ && spec_target_label(code) == "日语"@,
        code == "ko"@ ==> spec_source_label(code) == "韩语"@ && spec_target_label(code) == "韩语"@,
        code == "fr"@ ==> spec_source_label(code) == "法语"@ && spec_target_label(code) == "法语"@,
        code == "de"@ ==> spec_source_label(code) == "德语"@ && spec_target_label(code) == "德语"@,
        code == "ru"@ ==> spec_source_label(code) == "俄语"@ && spec_target_label(code) == "俄语"@,
        code == "es"@ ==> spec_source_label(code) == "西班牙语"@ && spec_target_label(code) == "西班牙语"@,
        code == "auto-zh-Hans"@ ==> spec_target_label(code) == "简体中文"@,
        spec_source_label(code) != "自动检测"@ ==> spec_target_label(code) == spec_source_label(code),
        spec_source_label(code) != "自动检测"@ && spec_source_label(other) != "自动检测"@ && code != other
            ==> spec_source_label(code) != spec_source_label(other),
{
    reveal_strlit("zh-Hans");
    reveal_strlit("zh-Hant");
    reveal_strlit("en");
    reveal_strlit("ja");
    reveal_strlit("ko");
    reveal_strlit("fr");
    reveal_strlit("de");
    reveal_strlit("ru");
    reveal_strlit("es");
    reveal_strlit("auto-zh-Hans");
    reveal_strlit("简体中文");
    reveal_strlit("繁體中文");
    reveal_strlit("英语");
    reveal_strlit("日语");
    reveal_strlit("韩语");
    reveal_strlit("法语");
    reveal_strlit("德语");
    reveal_strlit("俄语");
    reveal_strlit("西班牙语");
    reveal_strlit("自动检测");
    assert("zh-Hans"@[6] != "zh-Hant"@[6]);
    assert("en"@[0] != "ja"@[0]);
    assert("en"@[0] != "ko"@[0]);
    assert("en"@[0] != "fr"@[0]);
    assert("en"@[0] != "de"@[0]);
    assert("en"@[0] != "ru"@[0]);
    assert("en"@[1] != "es"@[1]);
    assert("ja"@[0] != "ko"@[0]);
    assert("ja"@[0] != "fr"@[0]);
    assert("ja"@[0] != "de"@[0]);
    assert("ja"@[0] != "ru"@[0]);
    assert("ja"@[0] != "es"@[0]);
    assert("ko"@[0] != "fr"@[0]);
    assert("ko"@[0] != "de"@[0]);
    assert("ko"@[0] != "ru"@[0]);
    assert("ko"@[0] != "es"@[0]);
    assert("fr"@[0] != "de"@[0]);
    assert("fr"@[0] != "ru"@[0]);
    assert("fr"@[0] != "es"@[0]);
    assert("de"@[0] != "ru"@[0]);
    assert("de"@[0] != "es"@[0]);
    assert("ru"@[0] != "es"@[0]);
    assert("简体中文"@[0] != "繁體中文"@[0]);
    assert("简体中文"@[0] != "西班牙语"@[0]);
    assert("简体中文"@[0] != "自动检测"@[0]);
    assert("繁體中文"@[0] != "西班牙语"@[0]);
    assert("繁體中文"@[0] != "自动检测"@[0]);
    assert("英语"@[0] != "日语"@[0]);
    assert("英语"@[0] != "韩语"@[0]);
    assert("英语"@[0] != "法语"@[0]);
    assert("英语"@[0] != "德语"@[0]);
    assert("英语"@[0] != "俄语"@[0]);
    assert("日语"@[0] != "韩语"@[0]);
    assert("日语"@[0] != "法语"@[0]);
    assert("日语"@[0] != "德语"@[0]);
    assert("日语"@[0] != "俄语"@[0]);
    assert("韩语"@[0] != "法语"@[0]);
    assert("韩语"@[0] != "德语"@[0]);
    assert("韩语"@[0] != "俄语"@[0]);
    assert("法语"@[0] != "德语"@[0]);
    assert("法语"@[0] != "俄语"@[0]);
    assert("德语"@[0] != "俄语"@[0]);
    assert("西班牙语"@[0] != "自动检测"@[0]);
}

fn reveal_codes()
    ensures
        "zh-Hans"@ != "zh-Hant"@ && "zh-Hans"@ != "en"@ && "zh-Hans"@ != "ja"@ && "zh-Hans"@ != "ko"@,
        "zh-Hans"@ != "fr"@ && "zh-Hans"@ != "de"@ && "zh-Hans"@ != "ru"@ && "zh-Hans"@ != "es"@,
        "auto-zh-Hans"@ != "zh-Hant"@ && "auto-zh-Hans"@ != "en"@ && "auto-zh-Hans"@ != "ja"@,
        "auto-zh-Hans"@ != "ko"@ && "auto-zh-Hans"@ != "fr"@ && "auto-zh-Hans"@ != "de"@,
        "auto-zh-Hans"@ != "ru"@ && "auto-zh-Hans"@ != "es"@,
{
    proof {
        reveal_strlit("zh-Hans");
        reveal_strlit("auto-zh-Hans");
        reveal_strlit("zh-Hant");
        reveal_strlit("en");
        reveal_strlit("ja");
        reveal_strlit("ko");
        reveal_strlit("fr");
        reveal_strlit("de");
        reveal_strlit("ru");
        reveal_strlit("es");
        assert("zh-Hans"@[6] != "zh-Hant"@[6]);
        assert("zh-Hans"@.len() == 7);
        assert("en"@.len() == 2 && "ja"@.len() == 2 && "ko"@.len() == 2 && "fr"@.len() == 2);
        assert("de"@.len() == 2 && "ru"@.len() == 2 && "es"@.len() == 2);
    }
}

/// Display name of a source language code.
pub fn source_lang_label(code: &str) -> (r: &'static str)
    ensures
        r@ == spec_source_label(code@),
{
    reveal_codes();
    if str_eq(code, "zh-Hans") {
        "简体中文"
    } else if str_eq(code, "zh-Hant") {
        "繁體中文"
    } else if str_eq(code, "en") {
        "英语"
    } else if str_eq(code, "ja") {
        "日语"
    } else if str_eq(code, "ko") {
        "韩语"
    } else if str_eq(code, "fr") {
        "法语"
    } else if str_eq(code, "de") {
        "德语"
    } else if str_eq(code, "ru") {
        "俄语"
    } else if str_eq(code, "es") {
        "西班牙语"
    } else {
        "自动检测"
    }
}

/// Display name of a target language code.
pub fn target_lang_label(code: &str) -> (r: &'static str)
    ensures
        r@ == spec_target_label(code@),
{
    reveal_codes();
    if str_eq(code, "zh-Hans") || str_eq(code, "auto-zh-Hans") {
        "简体中文"
    } else if str_eq(code, "zh-Hant") {
        "繁體中文"
    } else if str_eq(code, "en") {
        "英语"
    } else if str_eq(code, "ja") {
        "日语"
    } else if str_eq(code, "ko") {
        "韩语"
    } else if str_eq(code, "fr") {
        "法语"
    } else if str_eq(code, "de") {
        "德语"
    } else if str_eq(code, "ru") {
        "俄语"
    } else if str_eq(code, "es") {
        "西班牙语"
    } else {
        "简体中文"
    }
}

/// The two translation engines.
#[derive(Clone, Copy, Debug, PartialEq, Eq, Structural)]
pub enum Engine {
    Ai,
    Microsoft,
}

/// "microsoft" selects the Microsoft translator; anything else the assistant.
pub fn engine_of(engine: &str) -> (e: Engine)
    ensures
        e == (if engine@ == "microsoft"@ { Engine::Microsoft } else { Engine::Ai }),
{
    if str_eq(engine, "microsoft") { Engine::Microsoft } else { Engine::Ai }
}

/// The engine's name shown in the pop-up.
pub fn engine_label(e: Engine) -> (s: &'static str)
    ensures
        s@ == (match e { Engine::Microsoft => "微软翻译"@, Engine::Ai => "AI 助理"@ }),
{
    match e {
        Engine::Microsoft => "微软翻译",
        Engine::Ai => "AI 助理",
    }
}

/// The Microsoft target code: "auto-zh-Hans" (detect, to Simplified
/// Chinese) is sent as "zh-Hans", other codes as they are.
pub open spec fn spec_ms_target(target: Seq<char>) -> Seq<char> {
    if target == "auto-zh-Hans"@ { "zh-Hans"@ } else { target }
}

/// The Microsoft translator request URL: API version 3.0, the target, and
/// the source unless it is "auto".
pub open spec fn spec_ms_url(target: Seq<char>, source: Seq<char>) -> Seq<char> {
    let base = "https://api.cognitive.microsofttranslator.com/translate?api-version=3.0&to="@ + spec_ms_target(target);
    if source == "auto"@ { base } else { base + "&from="@ + source }
}

/// Builds the Microsoft translator request URL.
pub fn ms_url(target: &str, source: &str) -> (r: String)
    ensures
        r@ == spec_ms_url(target@, source@),
{
    let mut r = owned("https://api.cognitive.microsofttranslator.com/translate?api-version=3.0&to=");
    if str_eq(target, "auto-zh-Hans") {
        push_str(&mut r, "zh-Hans");
    } else {
        push_str(&mut r, target);
    }
    if !str_eq(source, "auto") {
        push_str(&mut r, "&from=");
        push_str(&mut r, source);
    }
    r
}

/// The assistant's prompt: translate into the target language, output only
/// the translation; the source language is named unless it is "auto".
pub open spec fn spec_ai_prompt(text: Seq<char>, target: Seq<char>, source: Seq<char>) -> Seq<char> {
    let tail = "。只输出译文本身，不要任何解释或额外内容。\n\n"@ + text;
    if source == "auto"@ {
        "把下面的文本翻译成"@ + spec_target_label(target) + tail
    } else {
        "把下面的"@ + spec_source_label(source) + "文本翻译成"@ + spec_target_label(target) + tail
    }
}

/// Builds the assistant's translation prompt.
pub fn ai_prompt(text: &str, target: &str, source: &str) -> (r: String)
    ensures
        r@ == spec_ai_prompt(text@, target@, source@),
{
    let mut r = owned("把下面的");
    if !str_eq(source, "auto") {
        push_str(&mut r, source_lang_label(source));
    }
    push_str(&mut r, "文本翻译成");
    push_str(&mut r, target_lang_label(target));
    push_str(&mut r, "。只输出译文本身，不要任何解释或额外内容。\n\n");
    push_str(&mut r, text);
    proof {
        let tail = "。只输出译文本身，不要任何解释或额外内容。\n\n"@ + text@;
        if source@ == "auto"@ {
            assert(r@ =~= "把下面的"@ + "文本翻译成"@ + spec_target_label(target@) + tail);
            assert("把下面的"@ + "文本翻译成"@ =~= "把下面的文本翻译成"@) by {
                reveal_strlit("把下面的");
                reveal_strlit("文本翻译成");
                reveal_strlit("把下面的文本翻译成");
            }
            assert(r@ =~= "把下面的文本翻译成"@ + spec_target_label(target@) + tail);
        } else {
            assert(r@ =~= "把下面的"@ + spec_source_label(source@) + "文本翻译成"@ + spec_target_label(target@) + tail);
        }
    }
    r
}

// ---------------------------------------------------------------------------
// Messages and replies
// ---------------------------------------------------------------------------

/// Network error of a translation request.
pub fn friendly_net_error(is_timeout: bool, is_connect: bool, detail: &str) -> (r: String)
    ensures
        r@ == spec_net_error(is_timeout, is_connect, detail@, "无法连接到翻译服务，请检查网络与配置"@),
{
    net_error(is_timeout, is_connect, detail, "无法连接到翻译服务，请检查网络与配置")
}

/// Error of a failed Microsoft translator request, with the body when it is
/// not empty.
pub open spec fn spec_ms_http_error(status: u16, body: Option<Seq<char>>) -> Seq<char> {
    match body {
        Some(d) => if d.len() > 0 {
            "微软翻译返回错误（HTTP "@ + decimal(status as nat) + "）："@ + d
        } else {
            "微软翻译返回错误（HTTP "@ + decimal(status as nat) + "）"@
        },
        None => "微软翻译返回错误（HTTP "@ + decimal(status as nat) + "）"@,
    }
}

/// Error message of a failed Microsoft translator request.
pub fn ms_http_error(status: u16, body: Option<String>) -> (r: String)
    ensures
        r@ == spec_ms_http_error(status, match body { Some(b) => Some(b@), None => None }),
{
    let mut r = owned("微软翻译返回错误（HTTP ");
    push_decimal(&mut r, status as u64);
    match body {
        Some(d) => {
            let n = chars_of(d.as_str()).len();
            if n > 0 {
                push_str(&mut r, "）：");
                push_str(&mut r, d.as_str());
            } else {
                push_str(&mut r, "）");
            }
        },
        None => push_str(&mut r, "）"),
    }
    r
}

/// Message when no Microsoft key is stored.
pub fn ms_key_missing() -> (r: String)
    ensures
        r@ == "未配置微软翻译 API Key，请在「设置 → 鼠标选取翻译」中填写"@,
{
    owned("未配置微软翻译 API Key，请在「设置 → 鼠标选取翻译」中填写")
}

/// Where each engine's reply holds the translation, the prefix of a
/// decoding error, and the message when no translation came back.
pub open spec fn reply_pointer(e: Engine) -> Seq<char> {
    match e {
        Engine::Ai => "/choices/0/message/content"@,
        Engine::Microsoft => "/0/translations/0/text"@,
    }
}

/// The string at the engine's place in a reply, read as serde_json's
/// indexing reads it: every step by number needs an array there
/// (`["choices"][0]["message"]["content"]`, `[0]["translations"][0]["text"]`).
pub open spec fn spec_reply_text(e: Engine, doc: Seq<char>) -> Option<Seq<char>> {
    let arrays_ok = match e {
        Engine::Ai => json_pointer_array(doc, "/choices"@),
        Engine::Microsoft => json_pointer_array(doc, ""@) && json_pointer_array(doc, "/0/translations"@),
    };
    if arrays_ok { json_pointer_text(doc, reply_pointer(e)) } else { None }
}

/// Reads the text at the engine's place in a reply (see `spec_reply_text`).
fn reply_text(e: Engine, doc: &str) -> (r: Option<String>)
    ensures
        match r {
            Some(s) => spec_reply_text(e, doc@) == Some(s@),
            None => spec_reply_text(e, doc@) is None,
        },
{
    let (arrays_ok, pointer) = match e {
        Engine::Ai => (json_pointer_is_array(doc, "/choices"), "/choices/0/message/content"),
        Engine::Microsoft => {
            let root = json_pointer_is_array(doc, "");
            (root && json_pointer_is_array(doc, "/0/translations"), "/0/translations/0/text")
        },
    };
    if arrays_ok {
        json_pointer_str(doc, pointer)
    } else {
        None
    }
}

pub open spec fn decode_error_prefix(e: Engine) -> Seq<char> {
    match e {
        Engine::Ai => "解析 AI 回复失败: "@,
        Engine::Microsoft => "解析翻译结果失败: "@,
    }
}

pub open spec fn no_translation_msg(e: Engine) -> Seq<char> {
    match e {
        Engine::Ai => "AI 未返回译文，请检查模型 / 接口配置"@,
        Engine::Microsoft => "微软翻译未返回译文（请检查 Key 与区域配置）"@,
    }
}

/// The translated text in a reply: `body` is the decoded JSON document, or the
/// decoding error's text. The result is the trimmed string at the
/// engine's place in the reply; a missing or blank one is an error.
pub open spec fn spec_reply_translation(e: Engine, body: Result<Seq<char>, Seq<char>>) -> Result<Seq<char>, Seq<char>> {
    match body {
        Err(d) => Err(decode_error_prefix(e) + d),
        Ok(doc) => match spec_reply_text(e, doc) {
            Some(t) => if trim(t).len() > 0 { Ok(trim(t)) } else { Err(no_translation_msg(e)) },
            None => Err(no_translation_msg(e)),
        },
    }
}

/// Extracts the translated text of an engine's reply (see `spec_reply_translation`).
pub fn reply_translation(e: Engine, body: Result<String, String>) -> (r: Result<String, String>)
    ensures
        match spec_reply_translation(e, match body { Ok(b) => Ok(b@), Err(d) => Err(d@) }) {
            Ok(t) => r is Ok && r->Ok_0@ == t,
            Err(m) => r is Err && r->Err_0@ == m,
        },
{
    let (prefix, missing) = match e {
        Engine::Ai => ("解析 AI 回复失败: ", "AI 未返回译文，请检查模型 / 接口配置"),
        Engine::Microsoft => ("解析翻译结果失败: ", "微软翻译未返回译文（请检查 Key 与区域配置）"),
    };
    match body {
        Err(d) => {
            let mut m = owned(prefix);
            push_str(&mut m, d.as_str());
            Err(m)
        },
        Ok(doc) => match reply_text(e, doc.as_str()) {
            Some(t) => {
                let cs = chars_of(t.as_str());
                let tt = trim_chars(cs.as_slice());
                if tt.len() > 0 {
                    Ok(string_from_seq(tt.as_slice()))
                } else {
                    Err(owned(missing))
                }
            },
            None => Err(owned(missing)),
        },
    }
}

} // verus!
