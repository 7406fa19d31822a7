//! The performance read-out drawn on the taskbar, left of the tray: which
//! items it shows, how its text is laid out in one or two rows, where its
//! window goes, and when it hides.
//!
//! Distances are in physical pixels; the display scale is given as the
//! window DPI (96 = 100 %).
use vstd::prelude::*;
use crate::geom::{spec_clamp, Rect};
use crate::text::str_eq;

verus! {

// ---------------------------------------------------------------------------
// Items
// ---------------------------------------------------------------------------

/// One item of the read-out.
#[derive(Clone, Copy, PartialEq, Eq, Debug, Structural)]
pub enum ItemKind {
    Cpu,
    Memory,
    GpuTemp,
    Net,
}

/// The item a configuration string names, if any.
pub open spec fn item_of(s: Seq<char>) -> Option<ItemKind> {
    if s == "cpu"@ {
        Some(ItemKind::Cpu)
    } else if s == "memory"@ {
        Some(ItemKind::Memory)
    } else if s == "gpu_temp"@ {
        Some(ItemKind::GpuTemp)
    } else if s == "net"@ {
        Some(ItemKind::Net)
    } else {
        None
    }
}

/// The items named by a list of strings: unknown names skipped, repeats
/// dropped, first occurrence order kept (the order is the display order).
pub open spec fn spec_items(ss: Seq<String>) -> Seq<ItemKind>
    decreases ss.len(),
{
    if ss.len() == 0 {
        Seq::empty()
    } else {
        let prev = spec_items(ss.drop_last());
        match item_of(ss.last()@) {
            Some(k) => if prev.contains(k) { prev } else { prev.push(k) },
            None => prev,
        }
    }
}

/// No item occurs twice, and each one is named by some input string.
pub proof fn lemma_items_well_formed(ss: Seq<String>)
    ensures
        spec_items(ss).no_duplicates(),
        forall|k: ItemKind| #[trigger] spec_items(ss).contains(k) ==> exists|i: int| 0 <= i < ss.len() && item_of(ss[i]@) == Some(k),
    decreases ss.len(),
{
    if ss.len() > 0 {
        let prev = spec_items(ss.drop_last());
        lemma_items_well_formed(ss.drop_last());
        assert forall|k: ItemKind| #[trigger] spec_items(ss).contains(k) implies exists|i: int| 0 <= i < ss.len() && item_of(ss[i]@) == Some(k) by {
            if prev.contains(k) {
                let i = choose|i: int| 0 <= i < ss.drop_last().len() && item_of(ss.drop_last()[i]@) == Some(k);
                assert(ss[i] == ss.drop_last()[i]);
            } else {
                assert(item_of(ss[ss.len() - 1]@) == Some(k));
            }
        }
    }
}

fn item_from(raw: &String) -> (r: Option<ItemKind>)
    ensures
        r == item_of(raw@),
{
    let s = raw.as_str();
    if str_eq(s, "cpu") {
        Some(ItemKind::Cpu)
    } else if str_eq(s, "memory") {
        Some(ItemKind::Memory)
    } else if str_eq(s, "gpu_temp") {
        Some(ItemKind::GpuTemp)
    } else if str_eq(s, "net") {
        Some(ItemKind::Net)
    } else {
        None
    }
}

fn contains_kind(v: &Vec<ItemKind>, k: ItemKind) -> (b: bool)
    ensures
        b == v@.contains(k),
{
    let mut i: usize = 0;
    while i < v.len()
        invariant
            i <= v@.len(),
            forall|j: int| 0 <= j < i ==> v@[j] != k,
        decreases v.len() - i,
    {
        if v[i] == k {
            assert(v@[i as int] == k);
            return true;
        }
        i += 1;
    }
    false
}

/// Parses the configured item names (whitelist, no repeats, order kept).
pub fn items_from_strings(items: &[String]) -> (r: Vec<ItemKind>)
    ensures
        r@ == spec_items(items@),
        r@.no_duplicates(),
{
    let mut out: Vec<ItemKind> = Vec::new();
    let mut i: usize = 0;
    while i < items.len()
        invariant
            i <= items@.len(),
            out@ == spec_items(items@.take(i as int)),
        decreases items.len() - i,
    {
        proof {
            assert(items@.take(i as int + 1).drop_last() == items@.take(i as int));
            assert(items@.take(i as int + 1).last() == items@[i as int]);
        }
        match item_from(&items[i]) {
            Some(k) => {
                if !contains_kind(&out, k) {
                    out.push(k);
                }
            },
            None => {},
        }
        i += 1;
    }
    proof {
        assert(items@.take(items@.len() as int) == items@);
        lemma_items_well_formed(items@);
    }
    out
}

// ---------------------------------------------------------------------------
// Configuration
// ---------------------------------------------------------------------------

/// Left/right adjustment range (logical pixels).
pub const OFFSET_MIN: i32 = -150;
pub const OFFSET_MAX: i32 = 150;

/// Switches and layout settings of the read-out.
pub struct WidgetConfig {
    /// Show on the taskbar.
    pub enabled: bool,
    /// The performance monitor itself is on.
    pub monitor_on: bool,
    pub items: Vec<ItemKind>,
    pub offset_x: i32,
    /// The render thread has been started (it is started once, on first use).
    pub thread_started: bool,
    /// The render thread is asked to exit.
    pub stop_requested: bool,
}

impl WidgetConfig {
    pub fn new() -> (c: Self)
        ensures
            !c.enabled && !c.monitor_on && c.items@.len() == 0 && c.offset_x == 0,
            !c.thread_started && !c.stop_requested,
    {
        WidgetConfig {
            enabled: false,
            monitor_on: false,
            items: Vec::new(),
            offset_x: 0,
            thread_started: false,
            stop_requested: false,
        }
    }

    /// Turns the read-out on or off; returns whether the render thread has to
    /// be started now (on the first switch-on).
    pub fn set_enabled(&mut self, enabled: bool) -> (spawn: bool)
        ensures
            final(self).enabled == enabled,
            spawn == (enabled && !old(self).thread_started),
            final(self).thread_started == (old(self).thread_started || enabled),
            final(self).monitor_on == old(self).monitor_on,
            final(self).items@ == old(self).items@,
            final(self).offset_x == old(self).offset_x,
            final(self).stop_requested == old(self).stop_requested,
    {
        self.enabled = enabled;
        let spawn = enabled && !self.thread_started;
        if enabled {
            self.thread_started = true;
        }
        spawn
    }

    /// Follows the monitor's main switch (off hides the read-out).
    pub fn set_monitor_on(&mut self, on: bool)
        ensures
            final(self).monitor_on == on,
            final(self).enabled == old(self).enabled,
            final(self).items@ == old(self).items@,
            final(self).offset_x == old(self).offset_x,
            final(self).thread_started == old(self).thread_started,
            final(self).stop_requested == old(self).stop_requested,
    {
        self.monitor_on = on;
    }

    /// Replaces the shown items (see `items_from_strings`).
    pub fn set_items(&mut self, items: Vec<String>)
        ensures
            final(self).items@ == spec_items(items@),
            final(self).enabled == old(self).enabled,
            final(self).monitor_on == old(self).monitor_on,
            final(self).offset_x == old(self).offset_x,
            final(self).thread_started == old(self).thread_started,
            final(self).stop_requested == old(self).stop_requested,
    {
        self.items = items_from_strings(items.as_slice());
    }

    /// Stores the left/right adjustment, clamped to `[OFFSET_MIN, OFFSET_MAX]`.
    pub fn set_offset_x(&mut self, offset: i32)
        ensures
            final(self).offset_x == spec_clamp(offset as int, OFFSET_MIN as int, OFFSET_MAX as int),
            final(self).enabled == old(self).enabled,
            final(self).monitor_on == old(self).monitor_on,
            final(self).items@ == old(self).items@,
            final(self).thread_started == old(self).thread_started,
            final(self).stop_requested == old(self).stop_requested,
    {
        self.offset_x = crate::geom::clamp_i32(offset, OFFSET_MIN, OFFSET_MAX);
    }

    /// Asks the render thread to exit (on application exit).
    pub fn stop(&mut self)
        ensures
            final(self).stop_requested,
            final(self).enabled == old(self).enabled,
            final(self).monitor_on == old(self).monitor_on,
            final(self).items@ == old(self).items@,
            final(self).offset_x == old(self).offset_x,
            final(self).thread_started == old(self).thread_started,
    {
        self.stop_requested = true;
    }

    /// The read-out is drawn only when switched on, the monitor is on, and at
    /// least one item is chosen.
    pub fn is_active(&self) -> (b: bool)
        ensures
            b == (self.enabled && self.monitor_on && self.items@.len() > 0),
    {
        self.enabled && self.monitor_on && self.items.len() > 0
    }
}

/// The read-out hides while something is fullscreen or the privacy sequence
/// is active, as the taskbar does.
pub fn blocked_now(any_fullscreen: bool, fullscreen_now: bool, privacy_triggered: bool) -> (b: bool)
    ensures
        b == (any_fullscreen || fullscreen_now || privacy_triggered),
{
    any_fullscreen || fullscreen_now || privacy_triggered
}

// ---------------------------------------------------------------------------
// Text segments
// ---------------------------------------------------------------------------

/// A measured quantity of the read-out.
#[derive(Clone, Copy, PartialEq, Eq, Debug, Structural)]
pub enum Metric {
    Cpu,
    Memory,
    GpuTemp,
    NetUp,
    NetDown,
}

/// Value column kinds: each has its own widest reference text.
#[derive(Clone, Copy, PartialEq, Eq, Debug, Structural)]
pub enum ColKind {
    Percent,
    Rate,
    Temp,
}

/// One text run of the read-out, before the values are formatted.
#[derive(Clone, Copy, PartialEq, Eq, Debug, Structural)]
pub enum SegSlot {
    Label(Metric),
    Value(Metric),
    Separator,
}

/// The runs of one item: a label and its value; the network item shows
/// upload then download.
pub open spec fn item_slots(k: ItemKind) -> Seq<SegSlot> {
    match k {
        ItemKind::Cpu => seq![SegSlot::Label(Metric::Cpu), SegSlot::Value(Metric::Cpu)],
        ItemKind::Memory => seq![SegSlot::Label(Metric::Memory), SegSlot::Value(Metric::Memory)],
        ItemKind::GpuTemp => seq![SegSlot::Label(Metric::GpuTemp), SegSlot::Value(Metric::GpuTemp)],
        ItemKind::Net => seq![
            SegSlot::Label(Metric::NetUp), SegSlot::Value(Metric::NetUp),
            SegSlot::Label(Metric::NetDown), SegSlot::Value(Metric::NetDown),
        ],
    }
}

/// The runs of all items in the configured order, a separator between two
/// items.
pub open spec fn spec_segment_plan(items: Seq<ItemKind>) -> Seq<SegSlot>
    decreases items.len(),
{
    if items.len() == 0 {
        Seq::empty()
    } else {
        let prev = spec_segment_plan(items.drop_last());
        let sep: Seq<SegSlot> = if items.len() > 1 { seq![SegSlot::Separator] } else { Seq::empty() };
        prev + sep + item_slots(items.last())
    }
}

/// The number of separators in a run list.
pub open spec fn separator_count(s: Seq<SegSlot>) -> nat
    decreases s.len(),
{
    if s.len() == 0 {
        0
    } else {
        separator_count(s.drop_last()) + if s.last() == SegSlot::Separator { 1nat } else { 0nat }
    }
}

proof fn lemma_separator_count_concat(a: Seq<SegSlot>, b: Seq<SegSlot>)
    ensures
        separator_count(a + b) == separator_count(a) + separator_count(b),
    decreases b.len(),
{
    if b.len() > 0 {
        assert((a + b).drop_last() == a + b.drop_last());
        lemma_separator_count_concat(a, b.drop_last());
    }
}

proof fn lemma_item_slots_no_separator(k: ItemKind)
    ensures
        separator_count(item_slots(k)) == 0,
{
    let s = item_slots(k);
    reveal_with_fuel(separator_count, 5);
    assert(s.drop_last().drop_last().drop_last().drop_last() =~= Seq::<SegSlot>::empty() || s.len() == 2);
    if s.len() == 2 {
        assert(s.drop_last().drop_last() =~= Seq::<SegSlot>::empty());
    }
}

/// Items are separated by exactly one separator each: `n` items give `n - 1`
/// separators.
pub proof fn law_separators_between_items(items: Seq<ItemKind>)
    ensures
        items.len() > 0 ==> separator_count(spec_segment_plan(items)) == items.len() - 1,
        items.len() == 0 ==> spec_segment_plan(items).len() == 0,
    decreases items.len(),
{
    if items.len() > 0 {
        let prev = spec_segment_plan(items.drop_last());
        let sep: Seq<SegSlot> = if items.len() > 1 { seq![SegSlot::Separator] } else { Seq::empty() };
        law_separators_between_items(items.drop_last());
        lemma_separator_count_concat(prev + sep, item_slots(items.last()));
        lemma_separator_count_concat(prev, sep);
        lemma_item_slots_no_separator(items.last());
        if items.len() > 1 {
            reveal_with_fuel(separator_count, 2);
            assert(sep.drop_last() =~= Seq::<SegSlot>::empty());
        } else {
            assert(prev =~= Seq::<SegSlot>::empty());
        }
    }
}

fn push_item_slots(out: &mut Vec<SegSlot>, k: ItemKind)
    ensures
        final(out)@ == old(out)@ + item_slots(k),
{
    match k {
        ItemKind::Cpu => {
            out.push(SegSlot::Label(Metric::Cpu));
            out.push(SegSlot::Value(Metric::Cpu));
        },
        ItemKind::Memory => {
            out.push(SegSlot::Label(Metric::Memory));
            out.push(SegSlot::Value(Metric::Memory));
        },
        ItemKind::GpuTemp => {
            out.push(SegSlot::Label(Metric::GpuTemp));
            out.push(SegSlot::Value(Metric::GpuTemp));
        },
        ItemKind::Net => {
            out.push(SegSlot::Label(Metric::NetUp));
            out.push(SegSlot::Value(Metric::NetUp));
            out.push(SegSlot::Label(Metric::NetDown));
            out.push(SegSlot::Value(Metric::NetDown));
        },
    }
    assert(final(out)@ =~= old(out)@ + item_slots(k));
}

/// The text runs for the configured items, in order, with a separator
/// between two items; the caller formats each value.
pub fn segment_plan(items: &[ItemKind]) -> (r: Vec<SegSlot>)
    ensures
        r@ == spec_segment_plan(items@),
{
    let mut out: Vec<SegSlot> = Vec::new();
    let mut i: usize = 0;
    while i < items.len()
        invariant
            i <= items@.len(),
            out@ == spec_segment_plan(items@.take(i as int)),
        decreases items.len() - i,
    {
        proof {
            assert(items@.take(i as int + 1).drop_last() == items@.take(i as int));
            assert(items@.take(i as int + 1).last() == items@[i as int]);
        }
        if i > 0 {
            out.push(SegSlot::Separator);
        }
        push_item_slots(&mut out, items[i]);
        proof {
            let sep: Seq<SegSlot> = if i + 1 > 1 { seq![SegSlot::Separator] } else { Seq::empty() };
            assert(out@ =~= spec_segment_plan(items@.take(i as int)) + sep + item_slots(items@[i as int]));
        }
        i += 1;
    }
    proof {
        assert(items@.take(items@.len() as int) == items@);
    }
    out
}

/// The label text of a quantity.
pub fn label_text(m: Metric) -> (s: &'static str)
    ensures
        s@ == (match m {
            Metric::Cpu => "CPU"@,
            Metric::Memory => "内存"@,
            Metric::GpuTemp => "GPU"@,
            Metric::NetUp => "↑"@,
            Metric::NetDown => "↓"@,
        }),
{
    match m {
        Metric::Cpu => "CPU",
        Metric::Memory => "内存",
        Metric::GpuTemp => "GPU",
        Metric::NetUp => "↑",
        Metric::NetDown => "↓",
    }
}

/// The value column of a quantity (percent, rate or temperature).
pub fn value_column(m: Metric) -> (c: ColKind)
    ensures
        c == (match m {
            Metric::Cpu | Metric::Memory => ColKind::Percent,
            Metric::GpuTemp => ColKind::Temp,
            Metric::NetUp | Metric::NetDown => ColKind::Rate,
        }),
{
    match m {
        Metric::Cpu | Metric::Memory => ColKind::Percent,
        Metric::GpuTemp => ColKind::Temp,
        Metric::NetUp | Metric::NetDown => ColKind::Rate,
    }
}

// ---------------------------------------------------------------------------
// Rows
// ---------------------------------------------------------------------------

/// Sum of the first `n` widths.
pub open spec fn width_sum(w: Seq<u32>, n: int) -> int
    decreases n,
{
    if n <= 0 { 0 } else { width_sum(w, n - 1) + w[n - 1] }
}

/// Width of a first row holding items `0..=i`: padding on both sides, the
/// items, and a separator between two items.
pub open spec fn row_cost(w: Seq<u32>, pad: u32, sep: u32, i: int) -> int {
    2 * pad + width_sum(w, i + 1) + i * sep
}

/// The first item, from the second one on, that no longer fits on the
/// first row (the number of items when all fit).
pub open spec fn first_overflow(w: Seq<u32>, pad: u32, sep: u32, max_row: u32, i: int) -> int
    decreases w.len() - i,
{
    if i >= w.len() {
        w.len() as int
    } else if row_cost(w, pad, sep, i) > max_row {
        i
    } else {
        first_overflow(w, pad, sep, max_row, i + 1)
    }
}

/// Item indices `a..b`.
pub open spec fn index_range(a: int, b: int) -> Seq<usize> {
    Seq::new((b - a) as nat, |k: int| (a + k) as usize)
}

/// The rows: items go on the first row while it fits; from the first one
/// that does not (never the first item), all the rest go on a second row.
/// There are never more than two rows.
pub open spec fn spec_plan_rows(w: Seq<u32>, pad: u32, sep: u32, max_row: u32) -> Seq<Seq<usize>> {
    let s = first_overflow(w, pad, sep, max_row, 1);
    if s < w.len() {
        seq![index_range(0, s), index_range(s, w.len() as int)]
    } else {
        seq![index_range(0, w.len() as int)]
    }
}

proof fn lemma_first_overflow_bounds(w: Seq<u32>, pad: u32, sep: u32, max_row: u32, i: int)
    requires
        i >= 1,
    ensures
        ({
            let s = first_overflow(w, pad, sep, max_row, i);
            &&& (s >= i || s == w.len())
            &&& s <= w.len() || s == i
            &&& s < w.len() ==> row_cost(w, pad, sep, s) > max_row
            &&& forall|j: int| i <= j < s && j < w.len() ==> row_cost(w, pad, sep, j) <= max_row
        }),
    decreases w.len() - i,
{
    if i < w.len() && row_cost(w, pad, sep, i) <= max_row {
        lemma_first_overflow_bounds(w, pad, sep, max_row, i + 1);
    }
}

proof fn lemma_first_overflow_step(w: Seq<u32>, pad: u32, sep: u32, max_row: u32, i: int)
    requires
        1 <= i < w.len(),
        forall|j: int| 1 <= j < i ==> row_cost(w, pad, sep, j) <= max_row,
    ensures
        row_cost(w, pad, sep, i) > max_row ==> first_overflow(w, pad, sep, max_row, 1) == i,
        row_cost(w, pad, sep, i) <= max_row ==> first_overflow(w, pad, sep, max_row, 1) == first_overflow(w, pad, sep, max_row, i + 1),
    decreases i,
{
    lemma_first_overflow_prefix(w, pad, sep, max_row, 1, i);
}

proof fn lemma_mul_step(i: int, sep: int)
    ensures
        (i - 1) * sep + sep == i * sep,
{
    assert((i - 1) * sep + sep == i * sep) by (nonlinear_arith);
}

proof fn lemma_first_overflow_prefix(w: Seq<u32>, pad: u32, sep: u32, max_row: u32, k: int, i: int)
    requires
        1 <= k <= i < w.len(),
        forall|j: int| 1 <= j < i ==> row_cost(w, pad, sep, j) <= max_row,
    ensures
        first_overflow(w, pad, sep, max_row, k) == first_overflow(w, pad, sep, max_row, i),
    decreases i - k,
{
    if k < i {
        lemma_first_overflow_prefix(w, pad, sep, max_row, k + 1, i);
    }
}

/// The rows hold every item exactly once, in display order, on at most two
/// rows; the first row is never empty when there is an item.
pub proof fn law_rows_partition_items(w: Seq<u32>, pad: u32, sep: u32, max_row: u32)
    ensures
        ({
            let rows = spec_plan_rows(w, pad, sep, max_row);
            &&& 1 <= rows.len() <= 2
            &&& (rows.len() == 1 ==> rows[0] == index_range(0, w.len() as int))
            &&& (rows.len() == 2 ==> rows[0] + rows[1] == index_range(0, w.len() as int))
            &&& (w.len() > 0 ==> rows[0].len() > 0)
        }),
{
    lemma_first_overflow_bounds(w, pad, sep, max_row, 1);
    let s = first_overflow(w, pad, sep, max_row, 1);
    if s < w.len() {
        assert(index_range(0, s) + index_range(s, w.len() as int) =~= index_range(0, w.len() as int));
    }
}

/// The first row really fits: with `k` items on it (`k >= 2`), its padding,
/// items and the `k - 1` separators between them take at most `max_row`,
/// and so does every shorter start of it. An item moves to the second row
/// only because the first row would not fit with it: adding it, with one
/// more separator, would exceed `max_row`.
pub proof fn law_first_row_fits(w: Seq<u32>, pad: u32, sep: u32, max_row: u32)
    requires
        w.len() <= usize::MAX,
    ensures
        ({
            let rows = spec_plan_rows(w, pad, sep, max_row);
            let k = rows[0].len() as int;
            &&& forall|j: int| 2 <= j <= k ==> 2 * pad + #[trigger] width_sum(w, j) + (j - 1) * sep <= max_row
            &&& rows.len() == 2 ==> {
                &&& rows[1].len() > 0
                &&& rows[1][0] == k
                &&& 2 * pad + width_sum(w, k + 1) + k * sep > max_row
            }
        }),
{
    lemma_first_overflow_bounds(w, pad, sep, max_row, 1);
    let s = first_overflow(w, pad, sep, max_row, 1);
    let rows = spec_plan_rows(w, pad, sep, max_row);
    let k = rows[0].len() as int;
    if s < w.len() {
        assert(rows[0] == index_range(0, s));
        assert(k == s);
        assert(rows[1] == index_range(s, w.len() as int));
        assert(rows[1][0] == (s + 0) as usize);
    } else {
        assert(rows[0] == index_range(0, w.len() as int));
        assert(k == w.len());
    }
    assert forall|j: int| 2 <= j <= k implies 2 * pad + #[trigger] width_sum(w, j) + (j - 1) * sep <= max_row by {
        assert(row_cost(w, pad, sep, j - 1) <= max_row);
    }
}

/// Splits the item widths into at most two rows (see `spec_plan_rows`):
/// `widths` of the items, `pad` the padding on each side, `sep_total` the
/// width taken by a separator with its gaps, `max_row` the widest a row may be.
pub fn plan_rows(widths: &[u32], pad: u32, sep_total: u32, max_row: u32) -> (rows: Vec<Vec<usize>>)
    ensures
        rows@.len() == spec_plan_rows(widths@, pad, sep_total, max_row).len(),
        forall|r: int| 0 <= r < rows@.len() ==> (#[trigger] rows@[r])@ == spec_plan_rows(widths@, pad, sep_total, max_row)[r],
{
    let n = widths.len();
    let ghost w = widths@;
    // Find the split point: the first item (from the second on) whose row
    // cost exceeds the limit.
    let mut split: usize = n;
    let mut used: u64 = 2 * (pad as u64) + if n > 0 { widths[0] as u64 } else { 0 };
    let mut i: usize = 1;
    proof {
        reveal_with_fuel(width_sum, 2);
    }
    while i < n && split == n
        invariant
            1 <= i,
            n == w.len(),
            w == widths@,
            i <= n || n == 0,
            split <= n,
            split == n && n > 0 ==> used == row_cost(w, pad, sep_total, i - 1),
            split == n ==> used <= 0x3_0000_0000int,
            split == n ==> forall|j: int| 1 <= j < i ==> row_cost(w, pad, sep_total, j) <= max_row,
            split < n ==> first_overflow(w, pad, sep_total, max_row, 1) == split,
        decreases 2 * (n - i) + if split == n { 1int } else { 0int },
    {
        let cost = used + sep_total as u64 + widths[i] as u64;
        proof {
            assert(width_sum(w, i as int + 1) == width_sum(w, i as int) + w[i as int]);
            lemma_mul_step(i as int, sep_total as int);
            lemma_first_overflow_step(w, pad, sep_total, max_row, i as int);
        }
        if cost > max_row as u64 {
            split = i;
        } else {
            used = cost;
            i += 1;
        }
    }
    proof {
        lemma_first_overflow_bounds(w, pad, sep_total, max_row, 1);
    }
    let mut first: Vec<usize> = Vec::new();
    let mut k: usize = 0;
    while k < split
        invariant
            k <= split <= n,
            first@ == index_range(0, k as int),
        decreases split - k,
    {
        first.push(k);
        assert(first@ =~= index_range(0, k as int + 1));
        k += 1;
    }
    let mut rows: Vec<Vec<usize>> = Vec::new();
    rows.push(first);
    if split < n {
        let mut second: Vec<usize> = Vec::new();
        let mut k: usize = split;
        while k < n
            invariant
                split <= k <= n,
                second@ == index_range(split as int, k as int),
            decreases n - k,
        {
            second.push(k);
            assert(second@ =~= index_range(split as int, k as int + 1));
            k += 1;
        }
        rows.push(second);
    }
    rows
}

// ---------------------------------------------------------------------------
// Geometry
// ---------------------------------------------------------------------------

/// The window rectangle of the read-out.
#[derive(Clone, Copy, Debug, PartialEq, Eq, Structural)]
pub struct WidgetRect {
    pub left: i32,
    pub top: i32,
    pub width: i32,
    pub height: i32,
}

/// The DPI actually used: an unknown DPI (0) counts as 100 %.
pub open spec fn effective_dpi(dpi: u32) -> int {
    if dpi == 0 { 96 } else { dpi as int }
}

/// `v` logical pixels in physical pixels at `dpi`, rounded half away from zero.
pub open spec fn scaled(v: int, dpi: u32) -> int {
    let p = v * effective_dpi(dpi);
    if p >= 0 { (2 * p + 96) / 192 } else { -((-2 * p + 96) / 192) }
}

/// Gap between the read-out and the tray (logical pixels).
pub const TRAY_GAP_LOGICAL: i32 = 6;
/// Width assumed for the tray when it cannot be found (logical pixels).
pub const TRAY_FALLBACK_LOGICAL: i32 = 240;

/// `v` logical pixels at `dpi`, in physical pixels, rounded half away from zero.
pub fn scale_px(v: i32, dpi: u32) -> (r: i64)
    ensures
        r == scaled(v as int, dpi),
        -0x0200_0000_0000_0000 <= r <= 0x0200_0000_0000_0000,
        v >= 0 ==> r >= 0,
{
    let d: i128 = if dpi == 0 { 96 } else { dpi as i128 };
    let vv = v as i128;
    assert(-0x8000_0000_0000_0000i128 <= vv * d <= 0x8000_0000_0000_0000i128) by (nonlinear_arith)
        requires
            -0x8000_0000i128 <= vv <= 0x7fff_ffffi128,
            0 <= d <= 0xffff_ffffi128,
    ;
    assert(vv >= 0 ==> vv * d >= 0) by (nonlinear_arith)
        requires
            0 <= d,
    ;
    let p: i128 = vv * d;
    let r: i128 = if p >= 0 {
        let q = (2 * p + 96) / 192;
        assert(0 <= q <= 0x0200_0000_0000_0000i128) by (nonlinear_arith)
            requires
                0 <= p <= 0x8000_0000_0000_0000i128,
                q == (2 * p + 96) / 192,
        ;
        q
    } else {
        let q = (-2 * p + 96) / 192;
        assert(0 <= q <= 0x0200_0000_0000_0000i128) by (nonlinear_arith)
            requires
                -0x8000_0000_0000_0000i128 <= p < 0,
                q == (-2 * p + 96) / 192,
        ;
        -q
    };
    r as i64
}

/// Where the tray area starts: its own left edge, or, when it cannot be
/// found, `TRAY_FALLBACK_LOGICAL` pixels left of the taskbar's right edge.
pub fn tray_anchor(tray_left: Option<i32>, bar_right: i32, dpi: u32) -> (x: i64)
    ensures
        x == (match tray_left {
            Some(t) => t as int,
            None => bar_right - scaled(TRAY_FALLBACK_LOGICAL as int, dpi),
        }),
{
    match tray_left {
        Some(t) => t as i64,
        None => {
            let f = scale_px(TRAY_FALLBACK_LOGICAL, dpi);
            bar_right as i64 - f
        },
    }
}

/// The read-out's rectangle: its right edge sits `TRAY_GAP_LOGICAL` left of
/// the tray, moved by the user's adjustment, its left edge is kept two pixels
/// inside the monitor; it spans the taskbar's height. Nothing is shown for a
/// non-positive width, an empty monitor, a taskbar under 16 pixels high, a
/// taskbar whose bottom is more than two pixels off the monitor's bottom, or
/// one narrower than 80 % of the monitor (a vertical or top taskbar).
pub open spec fn spec_compute_rect(taskbar: Rect, monitor: Rect, tray_left: int, width: int, dpi: u32, offset_x: int)
    -> Option<(int, int, int, int)>
{
    let mon_w = monitor.right - monitor.left;
    let mon_h = monitor.bottom - monitor.top;
    let bar_w = taskbar.right - taskbar.left;
    let bar_h = taskbar.bottom - taskbar.top;
    let drop = taskbar.bottom - monitor.bottom;
    if width <= 0 {
        None
    } else if mon_w <= 0 || mon_h <= 0 || bar_h < 16 {
        None
    } else if drop > 2 || drop < -2 {
        None
    } else if bar_w * 10 < mon_w * 8 {
        None
    } else {
        let right = tray_left - scaled(TRAY_GAP_LOGICAL as int, dpi) + scaled(offset_x, dpi);
        let left0 = right - width;
        let left = if left0 < monitor.left + 2 { monitor.left + 2 } else { left0 };
        Some((left, taskbar.top as int, width, bar_h))
    }
}

/// Computes the read-out's window rectangle (see `spec_compute_rect`);
/// `None` means it is not shown.
pub fn compute_rect(taskbar: Rect, monitor: Rect, tray_left: i32, width: i32, dpi: u32, offset_x: i32) -> (r: Option<WidgetRect>)
    requires
        match spec_compute_rect(taskbar, monitor, tray_left as int, width as int, dpi, offset_x as int) {
            Some(t) => t.0 <= i32::MAX && t.3 <= i32::MAX,
            None => true,
        },
    ensures
        match spec_compute_rect(taskbar, monitor, tray_left as int, width as int, dpi, offset_x as int) {
            Some(t) => r == Some(WidgetRect { left: t.0 as i32, top: t.1 as i32, width: t.2 as i32, height: t.3 as i32 }),
            None => r.is_none(),
        },
{
    if width <= 0 {
        return None;
    }
    let mon_w = monitor.right as i64 - monitor.left as i64;
    let mon_h = monitor.bottom as i64 - monitor.top as i64;
    let bar_w = taskbar.right as i64 - taskbar.left as i64;
    let bar_h = taskbar.bottom as i64 - taskbar.top as i64;
    if mon_w <= 0 || mon_h <= 0 || bar_h < 16 {
        return None;
    }
    let drop = taskbar.bottom as i64 - monitor.bottom as i64;
    if drop > 2 || drop < -2 {
        return None;
    }
    if bar_w * 10 < mon_w * 8 {
        return None;
    }
    let gap = scale_px(TRAY_GAP_LOGICAL, dpi);
    let offset = scale_px(offset_x, dpi);
    let right = tray_left as i64 - gap + offset;
    let mut left = right - width as i64;
    if left < monitor.left as i64 + 2 {
        left = monitor.left as i64 + 2;
    }
    Some(WidgetRect { left: left as i32, top: taskbar.top, width, height: bar_h as i32 })
}

/// The auto-hidden bottom taskbar slides down off the screen: it counts as
/// hidden once less than half of it (at least one pixel high) is on screen.
pub open spec fn spec_taskbar_slid_out(taskbar: Rect, monitor: Rect) -> bool {
    let h = taskbar.bottom - taskbar.top;
    let bar_h = if h < 1 { 1 } else { h };
    let visible = monitor.bottom - taskbar.top;
    visible <= 0 || visible * 2 < bar_h
}

/// Whether the taskbar has slid (mostly) off the screen.
pub fn taskbar_slid_out(taskbar: Rect, monitor: Rect) -> (b: bool)
    ensures
        b == spec_taskbar_slid_out(taskbar, monitor),
{
    let h = taskbar.bottom as i64 - taskbar.top as i64;
    let bar_h = if h < 1 { 1 } else { h };
    let visible = monitor.bottom as i64 - taskbar.top as i64;
    if visible <= 0 {
        return true;
    }
    visible * 2 < bar_h
}

// ---------------------------------------------------------------------------
// Theme
// ---------------------------------------------------------------------------

/// The taskbar's colour scheme.
#[derive(Clone, Copy, PartialEq, Eq, Debug, Structural)]
pub enum Theme {
    Dark,
    Light,
}

/// Registry value type of a 32-bit number.
pub const REG_DWORD: u32 = 4;

/// The taskbar is light only when the `SystemUsesLightTheme` value could be
/// read, is a 32-bit number, and is not zero; dark otherwise.
pub fn theme_from_registry(read_ok: bool, kind: u32, value: u32) -> (t: Theme)
    ensures
        t == (if read_ok && kind == REG_DWORD && value != 0 { Theme::Light } else { Theme::Dark }),
{
    if read_ok && kind == REG_DWORD && value != 0 { Theme::Light } else { Theme::Dark }
}

} // verus!
