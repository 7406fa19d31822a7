//! Global hotkeys: parsing of key-combination strings such as `Ctrl+Shift+Space`,
//! `Ctrl+\`` or `Alt+F9`, and the bookkeeping of which ids are registered.
use std::collections::HashMap;
use vstd::prelude::*;
use vstd::std_specs::hash::spec_keys_iter;
use vstd::std_specs::iter::IteratorSpec;
use crate::text::{
    chars_eq, chars_of, lemma_lower_char, lemma_lower_shape, lemma_trim_lower, lower, lower_chars,
    lower_char, trim, trim_chars,
};

verus! {

/// Modifier bit for Alt (`MOD_ALT`).
pub const MOD_ALT: u32 = 0x0001;
/// Modifier bit for Ctrl (`MOD_CONTROL`).
pub const MOD_CONTROL: u32 = 0x0002;
/// Modifier bit for Shift (`MOD_SHIFT`).
pub const MOD_SHIFT: u32 = 0x0004;
/// Modifier bit for the Windows key (`MOD_WIN`).
pub const MOD_WIN: u32 = 0x0008;
/// Flag added at registration so that a held key does not repeat (`MOD_NOREPEAT`).
pub const MOD_NOREPEAT: u32 = 0x4000;

/// A key combination: modifier bits (`MOD_*`) and a virtual-key code.
#[derive(Clone, Copy, Debug, PartialEq, Eq, Structural)]
pub struct HotKeySpec {
    pub modifiers: u32,
    pub vk: u16,
}

// ---------------------------------------------------------------------------
// Key names
// ---------------------------------------------------------------------------

/// Virtual-key code of a punctuation key name (already lower-cased).
pub open spec fn spec_symbol_vk(n: Seq<char>) -> Option<u16> {
    if n == "`"@ || n == "backquote"@ { Some(0xC0u16) }
    else if n == "-"@ || n == "minus"@ { Some(0xBDu16) }
    else if n == "="@ || n == "plus"@ || n == "equal"@ { Some(0xBBu16) }
    else if n == "["@ { Some(0xDBu16) }
    else if n == "]"@ { Some(0xDDu16) }
    else if n == "\\"@ || n == "backslash"@ { Some(0xDCu16) }
    else if n == ";"@ || n == "semicolon"@ { Some(0xBAu16) }
    else if n == "'"@ || n == "quote"@ { Some(0xDEu16) }
    else if n == ","@ || n == "comma"@ { Some(0xBCu16) }
    else if n == "."@ || n == "period"@ || n == "dot"@ { Some(0xBEu16) }
    else if n == "/"@ || n == "slash"@ { Some(0xBFu16) }
    else { None }
}

/// Virtual-key code of a named navigation / editing key (already lower-cased).
pub open spec fn spec_named_vk(n: Seq<char>) -> Option<u16> {
    if n == "space"@ { Some(0x20u16) }
    else if n == "tab"@ { Some(0x09u16) }
    else if n == "enter"@ || n == "return"@ { Some(0x0Du16) }
    else if n == "esc"@ || n == "escape"@ { Some(0x1Bu16) }
    else if n == "backspace"@ { Some(0x08u16) }
    else if n == "delete"@ || n == "del"@ { Some(0x2Eu16) }
    else if n == "insert"@ || n == "ins"@ { Some(0x2Du16) }
    else if n == "home"@ { Some(0x24u16) }
    else if n == "end"@ { Some(0x23u16) }
    else if n == "pageup"@ || n == "pgup"@ { Some(0x21u16) }
    else if n == "pagedown"@ || n == "pgdn"@ { Some(0x22u16) }
    else if n == "up"@ { Some(0x26u16) }
    else if n == "down"@ { Some(0x28u16) }
    else if n == "left"@ { Some(0x25u16) }
    else if n == "right"@ { Some(0x27u16) }
    else { None }
}

pub open spec fn is_digit(c: char) -> bool {
    '0' <= c && c <= '9'
}

/// All characters are decimal digits and there is at least one.
pub open spec fn all_digits(s: Seq<char>) -> bool {
    s.len() > 0 && forall|i: int| 0 <= i < s.len() ==> is_digit(#[trigger] s[i])
}

/// Value of a string of decimal digits.
pub open spec fn digits_value(s: Seq<char>) -> nat
    decreases s.len(),
{
    if s.len() == 0 {
        0
    } else {
        digits_value(s.drop_last()) * 10 + ((s.last() as u32) - ('0' as u32)) as nat
    }
}

/// What `str::parse::<u16>` yields: an optional `+` followed by decimal
/// digits whose value fits in 16 bits.
pub open spec fn spec_parse_u16(s: Seq<char>) -> Option<nat> {
    let d = if s.len() > 0 && s[0] == '+' { s.subrange(1, s.len() as int) } else { s };
    if all_digits(d) && digits_value(d) <= 65535 {
        Some(digits_value(d))
    } else {
        None
    }
}

/// Virtual-key code of a main-key name (case-insensitive): punctuation,
/// a letter or digit, `F1`–`F24`, or a named key.
pub open spec fn spec_key_vk(name: Seq<char>) -> Option<u16> {
    let n = lower(name);
    if spec_symbol_vk(n) is Some {
        spec_symbol_vk(n)
    } else if n.len() == 1 {
        let c = n[0];
        if 'a' <= c && c <= 'z' {
            Some((0x41 + ((c as u32) - ('a' as u32))) as u16)
        } else if is_digit(c) {
            Some((0x30 + ((c as u32) - ('0' as u32))) as u16)
        } else {
            None
        }
    } else if n.len() > 0 && n[0] == 'f' && spec_parse_u16(n.subrange(1, n.len() as int)) is Some
        && 1 <= spec_parse_u16(n.subrange(1, n.len() as int))->0 <= 24 {
        Some((0x70 + spec_parse_u16(n.subrange(1, n.len() as int))->0 - 1) as u16)
    } else {
        spec_named_vk(n)
    }
}

fn eq_lit(n: &[char], lit: &str) -> (b: bool)
    ensures
        b == (n@ == lit@),
{
    let l = chars_of(lit);
    chars_eq(n, l.as_slice())
}

fn symbol_vk(n: &[char]) -> (r: Option<u16>)
    ensures
        r == spec_symbol_vk(n@),
{
    if eq_lit(n, "`") || eq_lit(n, "backquote") { Some(0xC0) }
    else if eq_lit(n, "-") || eq_lit(n, "minus") { Some(0xBD) }
    else if eq_lit(n, "=") || eq_lit(n, "plus") || eq_lit(n, "equal") { Some(0xBB) }
    else if eq_lit(n, "[") { Some(0xDB) }
    else if eq_lit(n, "]") { Some(0xDD) }
    else if eq_lit(n, "\\") || eq_lit(n, "backslash") { Some(0xDC) }
    else if eq_lit(n, ";") || eq_lit(n, "semicolon") { Some(0xBA) }
    else if eq_lit(n, "'") || eq_lit(n, "quote") { Some(0xDE) }
    else if eq_lit(n, ",") || eq_lit(n, "comma") { Some(0xBC) }
    else if eq_lit(n, ".") || eq_lit(n, "period") || eq_lit(n, "dot") { Some(0xBE) }
    else if eq_lit(n, "/") || eq_lit(n, "slash") { Some(0xBF) }
    else { None }
}

fn named_vk(n: &[char]) -> (r: Option<u16>)
    ensures
        r == spec_named_vk(n@),
{
    if eq_lit(n, "space") { Some(0x20) }
    else if eq_lit(n, "tab") { Some(0x09) }
    else if eq_lit(n, "enter") || eq_lit(n, "return") { Some(0x0D) }
    else if eq_lit(n, "esc") || eq_lit(n, "escape") { Some(0x1B) }
    else if eq_lit(n, "backspace") { Some(0x08) }
    else if eq_lit(n, "delete") || eq_lit(n, "del") { Some(0x2E) }
    else if eq_lit(n, "insert") || eq_lit(n, "ins") { Some(0x2D) }
    else if eq_lit(n, "home") { Some(0x24) }
    else if eq_lit(n, "end") { Some(0x23) }
    else if eq_lit(n, "pageup") || eq_lit(n, "pgup") { Some(0x21) }
    else if eq_lit(n, "pagedown") || eq_lit(n, "pgdn") { Some(0x22) }
    else if eq_lit(n, "up") { Some(0x26) }
    else if eq_lit(n, "down") { Some(0x28) }
    else if eq_lit(n, "left") { Some(0x25) }
    else if eq_lit(n, "right") { Some(0x27) }
    else { None }
}

/// `str::parse::<u16>` on the characters `s[from..]`.
#[verifier::loop_isolation(false)]
fn parse_u16_from(s: &[char], from: usize) -> (r: Option<u16>)
    requires
        from <= s.len(),
    ensures
        match spec_parse_u16(s@.subrange(from as int, s@.len() as int)) {
            Some(v) => r == Some(v as u16),
            None => r is None,
        },
{
    let ghost t = s@.subrange(from as int, s@.len() as int);
    let mut i = from;
    if i < s.len() && s[i] == '+' {
        i += 1;
    }
    let ghost d = s@.subrange(i as int, s@.len() as int);
    proof {
        if t.len() > 0 && t[0] == '+' {
            assert(t.subrange(1, t.len() as int) =~= d);
        } else {
            assert(t =~= d);
        }
    }
    if i == s.len() {
        return None;
    }
    let start = i;
    let mut v: u32 = 0;
    while i < s.len()
        invariant
            start <= i <= s.len(),
            start < s.len(),
            d == s@.subrange(start as int, s@.len() as int),
            forall|k: int| start <= k < i ==> is_digit(#[trigger] s@[k]),
            v as nat == digits_value(s@.subrange(start as int, i as int)),
            v <= 65535,
        decreases s.len() - i,
    {
        let c = s[i];
        if !('0' <= c && c <= '9') {
            assert(d[i - start] == c);
            assert(!is_digit(d[i - start]));
            return None;
        }
        let dv = (c as u32) - ('0' as u32);
        assert(s@.subrange(start as int, i + 1).drop_last() =~= s@.subrange(start as int, i as int));
        if v > 6553 || v * 10 + dv > 65535 {
            proof {
                lemma_digits_value_monotone(d, i + 1 - start);
                assert(d.subrange(0, i + 1 - start) =~= s@.subrange(start as int, i + 1));
            }
            return None;
        }
        v = v * 10 + dv;
        i += 1;
    }
    proof {
        assert(s@.subrange(start as int, i as int) =~= d);
        assert forall|k: int| 0 <= k < d.len() implies is_digit(#[trigger] d[k]) by {
            assert(d[k] == s@[k + start]);
        }
    }
    Some(v as u16)
}

/// The value of a digit string is at least the value of any of its prefixes.
proof fn lemma_digits_value_monotone(d: Seq<char>, k: int)
    requires
        0 <= k <= d.len(),
    ensures
        digits_value(d) >= digits_value(d.subrange(0, k)),
    decreases d.len() - k,
{
    if k < d.len() {
        lemma_digits_value_monotone(d, k + 1);
        assert(d.subrange(0, k + 1).drop_last() =~= d.subrange(0, k));
        assert(digits_value(d.subrange(0, k + 1)) == digits_value(d.subrange(0, k)) * 10
            + ((d.subrange(0, k + 1).last() as u32) - ('0' as u32)) as nat);
    } else {
        assert(d.subrange(0, k) =~= d);
    }
}

/// Virtual-key code of a main-key name (see `spec_key_vk`).
pub fn key_vk(name: &[char]) -> (r: Option<u16>)
    ensures
        r == spec_key_vk(name@),
{
    let n = lower_chars(name);
    if let Some(v) = symbol_vk(n.as_slice()) {
        return Some(v);
    }
    if n.len() == 1 {
        let c = n[0];
        if 'a' <= c && c <= 'z' {
            return Some((0x41 + ((c as u32) - ('a' as u32))) as u16);
        } else if '0' <= c && c <= '9' {
            return Some((0x30 + ((c as u32) - ('0' as u32))) as u16);
        }
        return None;
    }
    if n.len() > 0 && n[0] == 'f' {
        if let Some(k) = parse_u16_from(n.as_slice(), 1) {
            if 1 <= k && k <= 24 {
                return Some(0x70 + k - 1);
            }
        }
    }
    named_vk(n.as_slice())
}

// ---------------------------------------------------------------------------
// Laws of the key table
// ---------------------------------------------------------------------------

/// Named keys mean their Windows virtual-key codes (`VK_SPACE` 0x20,
/// `VK_TAB` 0x09, `VK_RETURN` 0x0D, `VK_ESCAPE` 0x1B, `VK_BACK` 0x08,
/// `VK_DELETE` 0x2E, `VK_INSERT` 0x2D, `VK_HOME` 0x24, `VK_END` 0x23,
/// `VK_PRIOR` 0x21, `VK_NEXT` 0x22, `VK_UP` 0x26, `VK_DOWN` 0x28, `VK_LEFT`
/// 0x25, `VK_RIGHT` 0x27), whatever their case; and the four arrow codes are
/// given by their own names only.
#[verifier::rlimit(60)]
pub proof fn law_key_names_are_virtual_key_codes(name: Seq<char>)
    ensures
        lower(name) == "space"@ ==> spec_key_vk(name) == Some(0x20u16),
        lower(name) == "tab"@ ==> spec_key_vk(name) == Some(0x09u16),
        lower(name) == "enter"@ ==> spec_key_vk(name) == Some(0x0Du16),
        lower(name) == "return"@ ==> spec_key_vk(name) == Some(0x0Du16),
        lower(name) == "esc"@ ==> spec_key_vk(name) == Some(0x1Bu16),
        lower(name) == "escape"@ ==> spec_key_vk(name) == Some(0x1Bu16),
        lower(name) == "backspace"@ ==> spec_key_vk(name) == Some(0x08u16),
        lower(name) == "delete"@ ==> spec_key_vk(name) == Some(0x2Eu16),
        lower(name) == "del"@ ==> spec_key_vk(name) == Some(0x2Eu16),
        lower(name) == "insert"@ ==> spec_key_vk(name) == Some(0x2Du16),
        lower(name) == "ins"@ ==> spec_key_vk(name) == Some(0x2Du16),
        lower(name) == "home"@ ==> spec_key_vk(name) == Some(0x24u16),
        lower(name) == "end"@ ==> spec_key_vk(name) == Some(0x23u16),
        lower(name) == "pageup"@ ==> spec_key_vk(name) == Some(0x21u16),
        lower(name) == "pgup"@ ==> spec_key_vk(name) == Some(0x21u16),
        lower(name) == "pagedown"@ ==> spec_key_vk(name) == Some(0x22u16),
        lower(name) == "pgdn"@ ==> spec_key_vk(name) == Some(0x22u16),
        lower(name) == "up"@ ==> spec_key_vk(name) == Some(0x26u16),
        lower(name) == "down"@ ==> spec_key_vk(name) == Some(0x28u16),
        lower(name) == "left"@ ==> spec_key_vk(name) == Some(0x25u16),
        lower(name) == "right"@ ==> spec_key_vk(name) == Some(0x27u16),
        spec_key_vk(name) == Some(0x25u16) ==> lower(name) == "left"@,
        spec_key_vk(name) == Some(0x27u16) ==> lower(name) == "right"@,
        spec_key_vk(name) == Some(0x26u16) ==> lower(name) == "up"@,
        spec_key_vk(name) == Some(0x28u16) ==> lower(name) == "down"@,
{
    reveal_strlit("`");
    reveal_strlit("backquote");
    reveal_strlit("-");
    reveal_strlit("minus");
    reveal_strlit("=");
    reveal_strlit("plus");
    reveal_strlit("equal");
    reveal_strlit("[");
    reveal_strlit("]");
    reveal_strlit("\\");
    reveal_strlit("backslash");
    reveal_strlit(";");
    reveal_strlit("semicolon");
    reveal_strlit("'");
    reveal_strlit("quote");
    reveal_strlit(",");
    reveal_strlit("comma");
    reveal_strlit(".");
    reveal_strlit("period");
    reveal_strlit("dot");
    reveal_strlit("/");
    reveal_strlit("slash");
    reveal_strlit("space");
    reveal_strlit("tab");
    reveal_strlit("enter");
    reveal_strlit("return");
    reveal_strlit("esc");
    reveal_strlit("escape");
    reveal_strlit("backspace");
    reveal_strlit("delete");
    reveal_strlit("del");
    reveal_strlit("insert");
    reveal_strlit("ins");
    reveal_strlit("home");
    reveal_strlit("end");
    reveal_strlit("pageup");
    reveal_strlit("pgup");
    reveal_strlit("pagedown");
    reveal_strlit("pgdn");
    reveal_strlit("up");
    reveal_strlit("down");
    reveal_strlit("left");
    reveal_strlit("right");
    assert("space"@[0] != "minus"@[0]);
    assert("space"@[0] != "equal"@[0]);
    assert("space"@[0] != "quote"@[0]);
    assert("space"@[0] != "comma"@[0]);
    assert("space"@[1] != "slash"@[1]);
    assert("space"@[0] != "enter"@[0]);
    assert("space"@[0] != "right"@[0]);
    assert("tab"@[0] != "dot"@[0]);
    assert("tab"@[0] != "esc"@[0]);
    assert("tab"@[0] != "del"@[0]);
    assert("tab"@[0] != "ins"@[0]);
    assert("tab"@[0] != "end"@[0]);
    assert("enter"@[0] != "minus"@[0]);
    assert("enter"@[1] != "equal"@[1]);
    assert("enter"@[0] != "quote"@[0]);
    assert("enter"@[0] != "comma"@[0]);
    assert("enter"@[0] != "slash"@[0]);
    assert("enter"@[0] != "space"@[0]);
    assert("enter"@[0] != "right"@[0]);
    assert("return"@[0] != "period"@[0]);
    assert("return"@[0] != "escape"@[0]);
    assert("return"@[0] != "delete"@[0]);
    assert("return"@[0] != "insert"@[0]);
    assert("return"@[0] != "pageup"@[0]);
    assert("esc"@[0] != "dot"@[0]);
    assert("esc"@[0] != "tab"@[0]);
    assert("esc"@[0] != "del"@[0]);
    assert("esc"@[0] != "ins"@[0]);
    assert("esc"@[1] != "end"@[1]);
    assert("escape"@[0] != "period"@[0]);
    assert("escape"@[0] != "return"@[0]);
    assert("escape"@[0] != "delete"@[0]);
    assert("escape"@[0] != "insert"@[0]);
    assert("escape"@[0] != "pageup"@[0]);
    assert("backspace"@[4] != "backquote"@[4]);
    assert("backspace"@[5] != "backslash"@[5]);
    assert("backspace"@[0] != "semicolon"@[0]);
    assert("delete"@[0] != "period"@[0]);
    assert("delete"@[0] != "return"@[0]);
    assert("delete"@[0] != "escape"@[0]);
    assert("delete"@[0] != "insert"@[0]);
    assert("delete"@[0] != "pageup"@[0]);
    assert("del"@[1] != "dot"@[1]);
    assert("del"@[0] != "tab"@[0]);
    assert("del"@[0] != "esc"@[0]);
    assert("del"@[0] != "ins"@[0]);
    assert("del"@[0] != "end"@[0]);
    assert("insert"@[0] != "period"@[0]);
    assert("insert"@[0] != "return"@[0]);
    assert("insert"@[0] != "escape"@[0]);
    assert("insert"@[0] != "delete"@[0]);
    assert("insert"@[0] != "pageup"@[0]);
    assert("ins"@[0] != "dot"@[0]);
    assert("ins"@[0] != "tab"@[0]);
    assert("ins"@[0] != "esc"@[0]);
    assert("ins"@[0] != "del"@[0]);
    assert("ins"@[0] != "end"@[0]);
    assert("home"@[0] != "plus"@[0]);
    assert("home"@[0] != "pgup"@[0]);
    assert("home"@[0] != "pgdn"@[0]);
    assert("home"@[0] != "down"@[0]);
    assert("home"@[0] != "left"@[0]);
    assert("end"@[0] != "dot"@[0]);
    assert("end"@[0] != "tab"@[0]);
    assert("end"@[1] != "esc"@[1]);
    assert("end"@[0] != "del"@[0]);
    assert("end"@[0] != "ins"@[0]);
    assert("pageup"@[1] != "period"@[1]);
    assert("pageup"@[0] != "return"@[0]);
    assert("pageup"@[0] != "escape"@[0]);
    assert("pageup"@[0] != "delete"@[0]);
    assert("pageup"@[0] != "insert"@[0]);
    assert("pgup"@[1] != "plus"@[1]);
    assert("pgup"@[0] != "home"@[0]);
    assert("pgup"@[2] != "pgdn"@[2]);
    assert("pgup"@[0] != "down"@[0]);
    assert("pgup"@[0] != "left"@[0]);
    assert("pgdn"@[1] != "plus"@[1]);
    assert("pgdn"@[0] != "home"@[0]);
    assert("pgdn"@[2] != "pgup"@[2]);
    assert("pgdn"@[0] != "down"@[0]);
    assert("pgdn"@[0] != "left"@[0]);
    assert("down"@[0] != "plus"@[0]);
    assert("down"@[0] != "home"@[0]);
    assert("down"@[0] != "pgup"@[0]);
    assert("down"@[0] != "pgdn"@[0]);
    assert("down"@[0] != "left"@[0]);
    assert("left"@[0] != "plus"@[0]);
    assert("left"@[0] != "home"@[0]);
    assert("left"@[0] != "pgup"@[0]);
    assert("left"@[0] != "pgdn"@[0]);
    assert("left"@[0] != "down"@[0]);
    assert("right"@[0] != "minus"@[0]);
    assert("right"@[0] != "equal"@[0]);
    assert("right"@[0] != "quote"@[0]);
    assert("right"@[0] != "comma"@[0]);
    assert("right"@[0] != "slash"@[0]);
    assert("right"@[0] != "space"@[0]);
    assert("right"@[0] != "enter"@[0]);
}

// ---------------------------------------------------------------------------
// Combination strings
// ---------------------------------------------------------------------------

/// Pieces of `s` between `+` signs (`str::split('+')`).
pub open spec fn split_plus(s: Seq<char>) -> Seq<Seq<char>>
    decreases s.len(),
{
    if s.len() == 0 {
        seq![Seq::<char>::empty()]
    } else {
        let r = split_plus(s.drop_last());
        if s.last() == '+' {
            r.push(Seq::<char>::empty())
        } else {
            r.update(r.len() - 1, r.last().push(s.last()))
        }
    }
}

/// Trimmed pieces, empty ones dropped.
pub open spec fn nonempty_trimmed(ps: Seq<Seq<char>>) -> Seq<Seq<char>>
    decreases ps.len(),
{
    if ps.len() == 0 {
        ps
    } else {
        let r = nonempty_trimmed(ps.drop_last());
        if trim(ps.last()).len() > 0 {
            r.push(trim(ps.last()))
        } else {
            r
        }
    }
}

/// The parts of a combination string.
pub open spec fn hotkey_parts(s: Seq<char>) -> Seq<Seq<char>> {
    nonempty_trimmed(split_plus(s))
}

/// Modifier bit named by a lower-cased part, 0 when it is not a modifier.
pub open spec fn modifier_bit(l: Seq<char>) -> u32 {
    if l == "ctrl"@ { MOD_CONTROL }
    else if l == "alt"@ { MOD_ALT }
    else if l == "shift"@ { MOD_SHIFT }
    else if l == "win"@ || l == "windows"@ { MOD_WIN }
    else { 0 }
}

/// Parts from index `i` on, with modifiers `mods` and main key `vk` so far:
/// modifiers must come first, the main key last and only once.
pub open spec fn parse_parts(parts: Seq<Seq<char>>, i: int, mods: u32, vk: u16) -> Option<HotKeySpec>
    decreases parts.len() - i,
{
    if i >= parts.len() {
        if vk == 0 { None } else { Some(HotKeySpec { modifiers: mods, vk }) }
    } else if modifier_bit(lower(parts[i])) != 0 {
        parse_parts(parts, i + 1, mods | modifier_bit(lower(parts[i])), vk)
    } else if i != parts.len() - 1 {
        None
    } else {
        match spec_key_vk(parts[i]) {
            Some(v) => parse_parts(parts, i + 1, mods, v),
            None => None,
        }
    }
}

/// Meaning of a combination string: one to four parts.
pub open spec fn spec_parse_hotkey(s: Seq<char>) -> Option<HotKeySpec> {
    let parts = hotkey_parts(s);
    if parts.len() == 0 || parts.len() > 4 {
        None
    } else {
        parse_parts(parts, 0, 0, 0)
    }
}

// ---------------------------------------------------------------------------
// Case does not matter
// ---------------------------------------------------------------------------

proof fn lemma_split_plus_nonempty(s: Seq<char>)
    ensures
        split_plus(s).len() >= 1,
    decreases s.len(),
{
    if s.len() > 0 {
        lemma_split_plus_nonempty(s.drop_last());
    }
}

proof fn lemma_split_plus_lower(s: Seq<char>)
    ensures
        split_plus(lower(s)) == split_plus(s).map_values(|p: Seq<char>| lower(p)),
    decreases s.len(),
{
    lemma_lower_shape(s);
    let m = split_plus(s).map_values(|p: Seq<char>| lower(p));
    if s.len() == 0 {
        assert(lower(s) =~= Seq::<char>::empty());
        assert(lower(Seq::<char>::empty()) =~= Seq::<char>::empty());
        assert(m =~= seq![Seq::<char>::empty()]);
    } else {
        let r = split_plus(s.drop_last());
        lemma_split_plus_lower(s.drop_last());
        lemma_split_plus_nonempty(s.drop_last());
        lemma_lower_char(s.last());
        let rl = r.map_values(|p: Seq<char>| lower(p));
        if s.last() == '+' {
            assert(lower(Seq::<char>::empty()) =~= Seq::<char>::empty());
            assert(rl.push(Seq::<char>::empty()) =~= m);
        } else {
            lemma_lower_shape(r.last());
            assert(rl.update(rl.len() - 1, rl.last().push(lower_char(s.last()))) =~= m);
        }
    }
}

proof fn lemma_nonempty_trimmed_lower(ps: Seq<Seq<char>>)
    ensures
        nonempty_trimmed(ps.map_values(|p: Seq<char>| lower(p)))
            == nonempty_trimmed(ps).map_values(|p: Seq<char>| lower(p)),
    decreases ps.len(),
{
    let lp = ps.map_values(|p: Seq<char>| lower(p));
    if ps.len() == 0 {
        assert(nonempty_trimmed(ps).map_values(|p: Seq<char>| lower(p)) =~= lp);
    } else {
        assert(lp.drop_last() =~= ps.drop_last().map_values(|p: Seq<char>| lower(p)));
        lemma_nonempty_trimmed_lower(ps.drop_last());
        lemma_trim_lower(ps.last());
        lemma_lower_shape(trim(ps.last()));
        let r = nonempty_trimmed(ps.drop_last());
        let rl = r.map_values(|p: Seq<char>| lower(p));
        if trim(ps.last()).len() > 0 {
            assert(rl.push(lower(trim(ps.last()))) =~= r.push(trim(ps.last())).map_values(|p: Seq<char>| lower(p)));
        }
    }
}

proof fn lemma_parse_parts_lower(parts: Seq<Seq<char>>, i: int, mods: u32, vk: u16)
    requires
        0 <= i,
    ensures
        parse_parts(parts.map_values(|p: Seq<char>| lower(p)), i, mods, vk) == parse_parts(parts, i, mods, vk),
    decreases parts.len() - i,
{
    let lp = parts.map_values(|p: Seq<char>| lower(p));
    if i < parts.len() {
        lemma_lower_shape(parts[i]);
        assert(lp[i] == lower(parts[i]));
        assert(spec_key_vk(lp[i]) == spec_key_vk(parts[i]));
        lemma_parse_parts_lower(parts, i + 1, mods | modifier_bit(lower(parts[i])), vk);
        match spec_key_vk(parts[i]) {
            Some(v) => { lemma_parse_parts_lower(parts, i + 1, mods, v); },
            None => {},
        }
    }
}

/// `parse_parts` from a point with no key yet reads its key from the last
/// part only.
proof fn lemma_parse_parts_key_is_last(parts: Seq<Seq<char>>, i: int, mods: u32)
    requires
        0 <= i <= parts.len(),
    ensures
        parse_parts(parts, i, mods, 0) matches Some(h) ==> i < parts.len()
            && spec_key_vk(parts.last()) == Some(h.vk)
            && modifier_bit(lower(parts.last())) == 0,
    decreases parts.len() - i,
{
    if i < parts.len() {
        if modifier_bit(lower(parts[i])) != 0 {
            lemma_parse_parts_key_is_last(parts, i + 1, mods | modifier_bit(lower(parts[i])));
        } else if i == parts.len() - 1 {
            assert(parts.last() == parts[i]);
            match spec_key_vk(parts[i]) {
                Some(v) => {
                    assert(parse_parts(parts, i + 1, mods, v) == (if v == 0 { None } else { Some(HotKeySpec { modifiers: mods, vk: v }) }));
                },
                None => {},
            }
        }
    } else {
        assert(parse_parts(parts, i, mods, 0) is None);
    }
}

/// The main key of a combination is its last part, and modifiers never
/// change it: whatever precedes it, a combination that parses has the
/// virtual-key code of its last part. So `Ctrl+Left`, `Shift+Alt+Left` or
/// `Left` all mean `VK_LEFT` (0x25), and a parsed combination means
/// `VK_LEFT` only when its last part is `Left` (any case); likewise `Right`
/// and `VK_RIGHT` (0x27).
pub proof fn law_parsed_key_is_last_part(s: Seq<char>)
    ensures
        spec_parse_hotkey(s) matches Some(h) ==> {
            &&& hotkey_parts(s).len() > 0
            &&& spec_key_vk(hotkey_parts(s).last()) == Some(h.vk)
            &&& (h.vk == 0x25u16 <==> lower(hotkey_parts(s).last()) == "left"@)
            &&& (h.vk == 0x27u16 <==> lower(hotkey_parts(s).last()) == "right"@)
        },
{
    let parts = hotkey_parts(s);
    if parts.len() > 0 && parts.len() <= 4 {
        lemma_parse_parts_key_is_last(parts, 0, 0);
        law_key_names_are_virtual_key_codes(parts.last());
    }
}

/// Key combinations are read without regard to ASCII case: a combination
/// means the same as its lower-cased form.
pub proof fn law_parse_ignores_case(s: Seq<char>)
    ensures
        spec_parse_hotkey(lower(s)) == spec_parse_hotkey(s),
{
    lemma_split_plus_lower(s);
    lemma_nonempty_trimmed_lower(split_plus(s));
    let parts = hotkey_parts(s);
    assert(hotkey_parts(lower(s)) == parts.map_values(|p: Seq<char>| lower(p)));
    lemma_parse_parts_lower(parts, 0, 0, 0);
}

/// Two spellings that differ only in ASCII case parse alike.
pub proof fn law_same_letters_same_combination(a: Seq<char>, b: Seq<char>)
    requires
        lower(a) == lower(b),
    ensures
        spec_parse_hotkey(a) == spec_parse_hotkey(b),
{
    law_parse_ignores_case(a);
    law_parse_ignores_case(b);
}

/// Splits at `+`, trims each piece and drops the empty ones.
fn split_parts(s: &[char]) -> (r: Vec<Vec<char>>)
    ensures
        r@.map_values(|p: Vec<char>| p@) == hotkey_parts(s@),
{
    let ghost cur_start: int = 0;
    let mut done: Vec<Vec<char>> = Vec::new();
    let mut cur: Vec<char> = Vec::new();
    let ghost pieces: Seq<Seq<char>> = seq![];
    let mut i: usize = 0;
    while i < s.len()
        invariant
            i <= s.len(),
            pieces.push(cur@) == split_plus(s@.take(i as int)),
            done@.map_values(|p: Vec<char>| p@) == nonempty_trimmed(pieces),
        decreases s.len() - i,
    {
        assert(s@.take(i + 1).drop_last() =~= s@.take(i as int));
        if s[i] == '+' {
            let t = trim_chars(cur.as_slice());
            proof {
                assert(pieces.push(cur@).drop_last() =~= pieces);
            }
            let ghost old_done = done@.map_values(|p: Vec<char>| p@);
            if t.len() > 0 {
                done.push(t);
                assert(done@.map_values(|p: Vec<char>| p@) =~= old_done.push(trim(cur@)));
            }
            proof {
                pieces = pieces.push(cur@);
            }
            cur = Vec::new();
        } else {
            cur.push(s[i]);
            proof {
                let r = split_plus(s@.take(i as int));
                assert(r.update(r.len() - 1, r.last().push(s@[i as int])) =~= pieces.push(cur@));
            }
        }
        i += 1;
    }
    assert(s@.take(s.len() as int) =~= s@);
    let t = trim_chars(cur.as_slice());
    let ghost old_done = done@.map_values(|p: Vec<char>| p@);
    assert(pieces.push(cur@).drop_last() =~= pieces);
    if t.len() > 0 {
        done.push(t);
        assert(done@.map_values(|p: Vec<char>| p@) =~= old_done.push(trim(cur@)));
    }
    done
}

fn modifier_bit_exec(l: &[char]) -> (b: u32)
    ensures
        b == modifier_bit(l@),
{
    if eq_lit(l, "ctrl") { MOD_CONTROL }
    else if eq_lit(l, "alt") { MOD_ALT }
    else if eq_lit(l, "shift") { MOD_SHIFT }
    else if eq_lit(l, "win") || eq_lit(l, "windows") { MOD_WIN }
    else { 0 }
}

/// Parses a combination such as `Ctrl+Shift+Space`, `Ctrl+\`` or `Alt+F9`:
/// modifiers Ctrl / Alt / Shift / Win (case-insensitive) first, then exactly
/// one main key (letter, digit, F1–F24 or a named key); at most four parts.
pub fn parse_hotkey(spec: &str) -> (r: Option<HotKeySpec>)
    ensures
        r == spec_parse_hotkey(spec@),
{
    let cs = chars_of(spec);
    let parts = split_parts(cs.as_slice());
    let ghost ps = parts@.map_values(|p: Vec<char>| p@);
    if parts.len() == 0 || parts.len() > 4 {
        return None;
    }
    let mut modifiers: u32 = 0;
    let mut vk: u16 = 0;
    let mut i: usize = 0;
    while i < parts.len()
        invariant
            i <= parts.len(),
            ps == parts@.map_values(|p: Vec<char>| p@),
            ps == hotkey_parts(spec@),
            spec_parse_hotkey(spec@) == parse_parts(ps, i as int, modifiers, vk),
        decreases parts.len() - i,
    {
        assert(ps[i as int] == parts@[i as int]@);
        let lowered = lower_chars(parts[i].as_slice());
        let bit = modifier_bit_exec(lowered.as_slice());
        if bit != 0 {
            modifiers = modifiers | bit;
        } else {
            if i != parts.len() - 1 {
                return None;
            }
            match key_vk(parts[i].as_slice()) {
                Some(v) => { vk = v; },
                None => { return None; },
            }
        }
        i += 1;
    }
    if vk == 0 {
        return None;
    }
    Some(HotKeySpec { modifiers, vk })
}

// ---------------------------------------------------------------------------
// Registration bookkeeping
// ---------------------------------------------------------------------------

/// Hotkeys currently registered with the system, by id.
pub struct HotkeyRegistry {
    entries: HashMap<i32, HotKeySpec>,
}

impl HotkeyRegistry {
    /// Registered combinations by id.
    pub closed spec fn view_map(&self) -> Map<i32, HotKeySpec> {
        self.entries@
    }

    pub fn new() -> (r: Self)
        ensures
            r.view_map() == Map::<i32, HotKeySpec>::empty(),
    {
        HotkeyRegistry { entries: HashMap::new() }
    }

    /// Whether `id` is registered (the old combination must then be released
    /// before a new one is registered under the same id).
    pub fn contains(&self, id: i32) -> (b: bool)
        ensures
            b == self.view_map().contains_key(id),
    {
        broadcast use vstd::std_specs::hash::group_hash_axioms;
        self.entries.contains_key(&id)
    }

    /// The combination registered under `id`.
    pub fn get(&self, id: i32) -> (r: Option<HotKeySpec>)
        ensures
            match r {
                Some(s) => self.view_map().contains_key(id) && self.view_map()[id] == s,
                None => !self.view_map().contains_key(id),
            },
    {
        broadcast use vstd::std_specs::hash::group_hash_axioms;
        match self.entries.get(&id) {
            Some(s) => Some(*s),
            None => None,
        }
    }

    /// Records the outcome of registering `spec` under `id`: any previous
    /// combination under `id` is gone; the new one is kept only when the
    /// system accepted it. Returns whether it was accepted.
    pub fn register(&mut self, id: i32, spec: HotKeySpec, accepted: bool) -> (ok: bool)
        ensures
            ok == accepted,
            accepted ==> final(self).view_map() == old(self).view_map().insert(id, spec),
            !accepted ==> final(self).view_map() == old(self).view_map().remove(id),
    {
        broadcast use vstd::std_specs::hash::group_hash_axioms;
        if accepted {
            self.entries.insert(id, spec);
        } else {
            self.entries.remove(&id);
        }
        accepted
    }

    /// Forgets `id`; returns whether it had been registered (and so must be
    /// released with the system).
    pub fn unregister(&mut self, id: i32) -> (was: bool)
        ensures
            was == old(self).view_map().contains_key(id),
            final(self).view_map() == old(self).view_map().remove(id),
    {
        broadcast use vstd::std_specs::hash::group_hash_axioms;
        self.entries.remove(&id).is_some()
    }

    /// Forgets every id and returns them all, to be released with the system.
    pub fn unregister_all(&mut self) -> (ids: Vec<i32>)
        ensures
            final(self).view_map() == Map::<i32, HotKeySpec>::empty(),
            forall|id: i32| old(self).view_map().contains_key(id) <==> ids@.contains(id),
    {
        broadcast use vstd::std_specs::hash::group_hash_axioms;
        let mut ids: Vec<i32> = Vec::new();
        for k in it: self.entries.keys()
            invariant
                ids@ == it.seq().unref().take(it.index()),
        {
            ids.push(*k);
        }
        proof {
            let s = IteratorSpec::remaining(&spec_keys_iter(&self.entries)).unref();
            assert(ids@ =~= s);
            assert forall|id: i32| old(self).view_map().contains_key(id) <==> ids@.contains(id) by {
                assert(s.to_set().contains(id) <==> s.contains(id));
            }
        }
        self.entries.clear();
        ids
    }
}

/// Registering an id and then unregistering it leaves the registry as
/// unregistering alone would (every other id untouched); registering an id
/// twice keeps only the later combination.
pub proof fn law_register_then_unregister(m: Map<i32, HotKeySpec>, id: i32, a: HotKeySpec, b: HotKeySpec)
    ensures
        m.insert(id, a).remove(id) == m.remove(id),
        m.insert(id, a).insert(id, b) == m.insert(id, b),
        !m.insert(id, a).remove(id).contains_key(id),
{
    assert(m.insert(id, a).remove(id) =~= m.remove(id));
    assert(m.insert(id, a).insert(id, b) =~= m.insert(id, b));
}

} // verus!
