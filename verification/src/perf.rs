//! The integer side of the performance sampler: CPU busy time from the
//! system time counters, network byte counts summed over the working
//! adapters, the busiest adapter, frequencies and counts. Ratios and rates
//! (floating point) are formed by the caller from these figures.
use vstd::prelude::*;
use crate::ai::{lossy_string, utf8_lossy};
use crate::text::{lower, lower_chars, chars_of};

verus! {

/// Sampling period (ms).
pub const SAMPLE_PERIOD_MS: u64 = 1000;
/// Wait between checks while sampling is off (ms).
pub const IDLE_WAIT_MS: u64 = 200;

/// The sampler's switch and thread.
pub struct PerfControl {
    pub enabled: bool,
    pub thread_started: bool,
}

impl PerfControl {
    pub fn new() -> (c: Self)
        ensures
            !c.enabled && !c.thread_started,
    {
        PerfControl { enabled: false, thread_started: false }
    }

    /// Turns sampling on; returns whether the sampling thread has to be
    /// started now (it is started once).
    pub fn start(&mut self) -> (spawn: bool)
        ensures
            final(self).enabled && final(self).thread_started,
            spawn == !old(self).thread_started,
    {
        let spawn = !self.thread_started;
        self.thread_started = true;
        self.enabled = true;
        spawn
    }

    /// Turns sampling off; the caller drops the latest snapshot.
    pub fn stop(&mut self)
        ensures
            !final(self).enabled,
            final(self).thread_started == old(self).thread_started,
    {
        self.enabled = false;
    }
}

/// A `FILETIME` as one 64-bit count of 100 ns units.
pub open spec fn spec_filetime(high: u32, low: u32) -> int {
    high as int * 0x1_0000_0000 + low as int
}

/// Joins the two halves of a `FILETIME`.
pub fn filetime_u64(high: u32, low: u32) -> (v: u64)
    ensures
        v == spec_filetime(high, low),
{
    let v = ((high as u64) << 32u64) | (low as u64);
    assert(((high as u64) << 32u64) | (low as u64) == high as u64 * 0x1_0000_0000u64 + low as u64) by (bit_vector)
        requires
            high <= 0xffff_ffff,
            low <= 0xffff_ffff,
    ;
    v
}

/// `a - b`, or 0 when `b > a`.
pub open spec fn sat_sub(a: int, b: int) -> int {
    if a >= b { a - b } else { 0 }
}

/// The system time counters of one sample.
#[derive(Clone, Copy, Debug, PartialEq, Eq, Structural)]
pub struct CpuTimes {
    pub idle: u64,
    pub kernel: u64,
    pub user: u64,
}

/// Time spent since the previous sample: `total` is kernel plus user time
/// (kernel time includes idle time), `busy` the part that was not idle.
pub open spec fn spec_cpu_delta(prev: CpuTimes, now: CpuTimes) -> (int, int) {
    let total = sat_sub(now.kernel as int, prev.kernel as int) + sat_sub(now.user as int, prev.user as int);
    let idle = sat_sub(now.idle as int, prev.idle as int);
    (sat_sub(total, idle), total)
}

/// The CPU sampler's previous counters.
pub struct CpuSampler {
    pub prev: CpuTimes,
}

impl CpuSampler {
    /// Starts from zero counters (the first sample covers the time since boot).
    pub fn new() -> (s: Self)
        ensures
            s.prev == (CpuTimes { idle: 0, kernel: 0, user: 0 }),
    {
        CpuSampler { prev: CpuTimes { idle: 0, kernel: 0, user: 0 } }
    }

    /// Takes a sample: returns `(busy, total)` since the previous one, `None`
    /// when no time passed (usage 0), and keeps the counters.
    pub fn sample(&mut self, now: CpuTimes) -> (r: Option<(u64, u64)>)
        requires
            sat_sub(now.kernel as int, old(self).prev.kernel as int) + sat_sub(now.user as int, old(self).prev.user as int)
                <= u64::MAX,
        ensures
            final(self).prev == now,
            spec_cpu_delta(old(self).prev, now).1 == 0 ==> r.is_none(),
            spec_cpu_delta(old(self).prev, now).1 > 0 ==> r == Some((
                spec_cpu_delta(old(self).prev, now).0 as u64,
                spec_cpu_delta(old(self).prev, now).1 as u64,
            )),
            r matches Some((b, t)) ==> b <= t,
    {
        let total = now.kernel.saturating_sub(self.prev.kernel) + now.user.saturating_sub(self.prev.user);
        let idle = now.idle.saturating_sub(self.prev.idle);
        self.prev = now;
        if total > 0 {
            Some((total.saturating_sub(idle), total))
        } else {
            None
        }
    }
}

/// Growth of a network byte counter between samples; the counters are kept
/// in 32 bits, so a smaller value means it wrapped once.
pub open spec fn spec_counter_delta(current: u64, previous: u64) -> int {
    if current >= previous {
        current - previous
    } else {
        ((current as int + 0x1_0000_0000) % 0x1_0000_0000_0000_0000 - previous as int) % 0x1_0000_0000_0000_0000
    }
}

/// Bytes counted since the previous sample (see `spec_counter_delta`).
pub fn counter_delta(current: u64, previous: u64) -> (d: u64)
    ensures
        d == spec_counter_delta(current, previous),
{
    if current >= previous {
        current - previous
    } else {
        let r = current.wrapping_add(0x1_0000_0000u64).wrapping_sub(previous);
        proof {
            let a = (current as int + 0x1_0000_0000) % 0x1_0000_0000_0000_0000;
            assert(0 <= a < 0x1_0000_0000_0000_0000);
        }
        r
    }
}

/// One row of the interface table.
#[derive(Debug)]
pub struct NetRow {
    pub operational: bool,
    pub loopback: bool,
    pub in_octets: u32,
    pub out_octets: u32,
    /// Link speed in bit/s.
    pub speed: u32,
    /// Description bytes (NUL-terminated ANSI).
    pub descr: Vec<u8>,
}

/// A row counts when the interface is up and not the loopback.
pub open spec fn counts(r: NetRow) -> bool {
    r.operational && !r.loopback
}

/// What the interface table adds up to.
#[derive(Clone, Copy, Debug, PartialEq, Eq, Structural)]
pub struct NetTotals {
    /// Bytes received over all counted interfaces (wrapping sum).
    pub total_in: u64,
    /// Bytes sent over all counted interfaces (wrapping sum).
    pub total_out: u64,
    /// The busiest counted interface (most bytes in and out), the first one
    /// on a tie; none when no counted interface carried a byte.
    pub busiest: Option<usize>,
    /// Link speed in Mbit/s (at least 1) of the last interface that became
    /// the busiest while reporting a speed.
    pub link_speed_mbps: Option<u64>,
}

/// The fold over the first `n` rows.
pub open spec fn spec_net_fold(rows: Seq<NetRow>, n: int) -> (int, int, Option<usize>, Option<u64>, int)
    decreases n,
{
    if n <= 0 {
        (0, 0, None, None, 0)
    } else {
        let (tin, tout, busiest, speed, best) = spec_net_fold(rows, n - 1);
        let r = rows[n - 1];
        if !counts(r) {
            (tin, tout, busiest, speed, best)
        } else {
            let tin2 = (tin + r.in_octets) % 0x1_0000_0000_0000_0000;
            let tout2 = (tout + r.out_octets) % 0x1_0000_0000_0000_0000;
            let activity = r.in_octets + r.out_octets;
            if activity > best {
                let speed2 = if r.speed > 0 {
                    Some((if r.speed / 1_000_000 >= 1 { r.speed / 1_000_000 } else { 1 }) as u64)
                } else {
                    speed
                };
                (tin2, tout2, Some((n - 1) as usize), speed2, activity)
            } else {
                (tin2, tout2, busiest, speed, best)
            }
        }
    }
}

proof fn lemma_net_fold_bounds(rows: Seq<NetRow>, n: int)
    ensures
        0 <= spec_net_fold(rows, n).0 < 0x1_0000_0000_0000_0000,
        0 <= spec_net_fold(rows, n).1 < 0x1_0000_0000_0000_0000,
        0 <= spec_net_fold(rows, n).4 <= 0x2_0000_0000,
        spec_net_fold(rows, n).2 matches Some(i) ==> 0 <= i < n,
    decreases n,
{
    if n > 0 {
        lemma_net_fold_bounds(rows, n - 1);
    }
}

/// Sums the interface table (see `spec_net_fold`).
pub fn aggregate_network(rows: &[NetRow]) -> (t: NetTotals)
    ensures
        t.total_in == spec_net_fold(rows@, rows@.len() as int).0,
        t.total_out == spec_net_fold(rows@, rows@.len() as int).1,
        t.busiest == spec_net_fold(rows@, rows@.len() as int).2,
        t.link_speed_mbps == spec_net_fold(rows@, rows@.len() as int).3,
{
    let mut total_in: u64 = 0;
    let mut total_out: u64 = 0;
    let mut busiest: Option<usize> = None;
    let mut speed: Option<u64> = None;
    let mut best: u64 = 0;
    let mut i: usize = 0;
    while i < rows.len()
        invariant
            i <= rows@.len(),
            spec_net_fold(rows@, i as int) == (total_in as int, total_out as int, busiest, speed, best as int),
        decreases rows.len() - i,
    {
        proof {
            lemma_net_fold_bounds(rows@, i as int);
        }
        let r = &rows[i];
        if r.operational && !r.loopback {
            let tin = total_in.wrapping_add(r.in_octets as u64);
            let tout = total_out.wrapping_add(r.out_octets as u64);
            let activity = r.in_octets as u64 + r.out_octets as u64;
            if activity > best {
                best = activity;
                busiest = Some(i);
                if r.speed > 0 {
                    let m = r.speed as u64 / 1_000_000;
                    speed = Some(if m >= 1 { m } else { 1 });
                }
            }
            total_in = tin;
            total_out = tout;
        }
        i += 1;
    }
    NetTotals { total_in, total_out, busiest, link_speed_mbps: speed }
}

/// Index of the first NUL at or after `i` (the length when there is none).
pub open spec fn first_nul(buf: Seq<u8>, i: int) -> int
    decreases buf.len() - i,
{
    if i >= buf.len() {
        buf.len() as int
    } else if buf[i] == 0 {
        i
    } else {
        first_nul(buf, i + 1)
    }
}

/// An adapter's name: its description up to the first NUL, decoded lossily.
pub open spec fn spec_ansi_name(buf: Seq<u8>) -> Seq<char> {
    utf8_lossy(buf.take(first_nul(buf, 0)))
}

proof fn lemma_first_nul_skip(buf: Seq<u8>, k: int, i: int)
    requires
        0 <= k <= i <= buf.len(),
        forall|j: int| k <= j < i ==> buf[j] != 0,
    ensures
        first_nul(buf, k) == first_nul(buf, i),
    decreases i - k,
{
    if k < i {
        lemma_first_nul_skip(buf, k + 1, i);
    }
}

/// Decodes an adapter description (up to the first NUL).
pub fn ansi_name(buf: &[u8]) -> (s: String)
    ensures
        s@ == spec_ansi_name(buf@),
{
    let mut end: usize = 0;
    while end < buf.len() && buf[end] != 0
        invariant
            end <= buf@.len(),
            forall|j: int| 0 <= j < end ==> buf@[j] != 0,
        decreases buf.len() - end,
    {
        end += 1;
    }
    proof {
        lemma_first_nul_skip(buf@, 0, end as int);
    }
    let s = lossy_string(vstd::slice::slice_subrange(buf, 0, end));
    assert(buf@.subrange(0, end as int) =~= buf@.take(end as int));
    s
}

/// Sum and count of non-zero values of the per-processor frequencies (MHz);
/// the average is the sum divided by the count when the count is not zero.
pub open spec fn spec_mhz_sum(v: Seq<u32>, n: int) -> int
    decreases n,
{
    if n <= 0 { 0 } else { spec_mhz_sum(v, n - 1) + v[n - 1] }
}

pub open spec fn spec_nonzero_count(v: Seq<u32>, n: int) -> int
    decreases n,
{
    if n <= 0 { 0 } else { spec_nonzero_count(v, n - 1) + if v[n - 1] > 0 { 1int } else { 0int } }
}

proof fn lemma_mhz_bounds(v: Seq<u32>, n: int)
    requires
        0 <= n <= v.len(),
    ensures
        0 <= spec_mhz_sum(v, n) <= n * 0xffff_ffff,
        0 <= spec_nonzero_count(v, n) <= n,
    decreases n,
{
    if n > 0 {
        lemma_mhz_bounds(v, n - 1);
    }
}

/// The sum of all frequencies and the number of processors reporting one.
pub fn mhz_sum_count(values: &[u32]) -> (r: (u64, u64))
    requires
        values@.len() <= 0x1_0000_0000,
    ensures
        r.0 == spec_mhz_sum(values@, values@.len() as int),
        r.1 == spec_nonzero_count(values@, values@.len() as int),
{
    let mut sum: u64 = 0;
    let mut count: u64 = 0;
    let mut i: usize = 0;
    while i < values.len()
        invariant
            i <= values@.len() <= 0x1_0000_0000,
            sum == spec_mhz_sum(values@, i as int),
            count == spec_nonzero_count(values@, i as int),
        decreases values.len() - i,
    {
        proof {
            lemma_mhz_bounds(values@, i as int + 1);
            assert((i as int + 1) * 0xffff_ffff <= 0x1_0000_0000 * 0xffff_ffffint) by (nonlinear_arith)
                requires
                    i as int + 1 <= 0x1_0000_0000,
            ;
        }
        sum = sum + values[i] as u64;
        if values[i] > 0 {
            count = count + 1;
        }
        i += 1;
    }
    (sum, count)
}

/// Memory figures from the status query: used is total minus available,
/// page file used is its total minus its available part (never negative).
#[derive(Clone, Copy, Debug, PartialEq, Eq, Structural)]
pub struct MemoryFigures {
    pub used_bytes: u64,
    pub available_bytes: u64,
    pub total_bytes: u64,
    pub pagefile_used_bytes: u64,
    pub pagefile_total_bytes: u64,
}

/// Derives the memory figures from the raw status values.
pub fn memory_figures(total_phys: u64, avail_phys: u64, total_pagefile: u64, avail_pagefile: u64) -> (m: MemoryFigures)
    ensures
        m.used_bytes == sat_sub(total_phys as int, avail_phys as int),
        m.available_bytes == avail_phys,
        m.total_bytes == total_phys,
        m.pagefile_used_bytes == sat_sub(total_pagefile as int, avail_pagefile as int),
        m.pagefile_total_bytes == total_pagefile,
{
    MemoryFigures {
        used_bytes: total_phys.saturating_sub(avail_phys),
        available_bytes: avail_phys,
        total_bytes: total_phys,
        pagefile_used_bytes: total_pagefile.saturating_sub(avail_pagefile),
        pagefile_total_bytes: total_pagefile,
    }
}

/// Number of processes and the sum of their thread counts.
pub open spec fn spec_thread_sum(t: Seq<u32>, n: int) -> int
    decreases n,
{
    if n <= 0 { 0 } else { spec_thread_sum(t, n - 1) + t[n - 1] }
}

proof fn lemma_thread_sum_bound(t: Seq<u32>, n: int)
    requires
        0 <= n <= t.len(),
    ensures
        0 <= spec_thread_sum(t, n) <= n * 0xffff_ffff,
    decreases n,
{
    if n > 0 {
        lemma_thread_sum_bound(t, n - 1);
    }
}

/// Counts the processes of a snapshot (one thread count each) and their threads.
pub fn process_thread_counts(threads: &[u32]) -> (r: (usize, u64))
    requires
        threads@.len() <= 0x1_0000_0000,
    ensures
        r.0 == threads@.len(),
        r.1 == spec_thread_sum(threads@, threads@.len() as int),
{
    let mut total: u64 = 0;
    let mut i: usize = 0;
    while i < threads.len()
        invariant
            i <= threads@.len() <= 0x1_0000_0000,
            total == spec_thread_sum(threads@, i as int),
        decreases threads.len() - i,
    {
        proof {
            lemma_thread_sum_bound(threads@, i as int + 1);
            assert((i as int + 1) * 0xffff_ffff <= 0x1_0000_0000 * 0xffff_ffffint) by (nonlinear_arith)
                requires
                    i as int + 1 <= 0x1_0000_0000,
            ;
        }
        total = total + threads[i] as u64;
        i += 1;
    }
    (threads.len(), total)
}

/// `p` occurs in `s`.
pub open spec fn contains_seq(s: Seq<char>, p: Seq<char>) -> bool {
    exists|i: int| 0 <= i <= s.len() - p.len() && #[trigger] s.subrange(i, i + p.len()) == p
}

fn contains_chars(s: &[char], p: &str) -> (b: bool)
    ensures
        b == contains_seq(s@, p@),
{
    let pc = chars_of(p);
    let n = s.len();
    let m = pc.len();
    if m > n {
        proof {
            assert forall|i: int| !(0 <= i <= s@.len() - pc@.len() && #[trigger] s@.subrange(i, i + pc@.len()) == pc@) by {}
        }
        return false;
    }
    let mut i: usize = 0;
    while i <= n - m
        invariant
            m <= n,
            n == s@.len(),
            m == pc@.len(),
            pc@ == p@,
            i <= n - m + 1,
            forall|k: int| 0 <= k < i ==> #[trigger] s@.subrange(k, k + pc@.len()) != pc@,
        decreases n - m + 1 - i,
    {
        let mut j: usize = 0;
        let mut same = true;
        while j < m
            invariant
                j <= m,
                i + m <= n,
                m <= n,
                n == s@.len(),
                m == pc@.len(),
                same == forall|k: int| 0 <= k < j ==> s@[i + k] == pc@[k],
            decreases m - j,
        {
            if s[i + j] != pc[j] {
                same = false;
            }
            j += 1;
        }
        if same {
            assert(s@.subrange(i as int, i + m) =~= pc@);
            return true;
        }
        assert(s@.subrange(i as int, i + m) != pc@) by {
            let k = choose|k: int| 0 <= k < m && s@[i + k] != pc@[k];
            assert(s@.subrange(i as int, i + m)[k] == s@[i + k]);
        }
        i += 1;
    }
    false
}

/// A temperature sensor is the CPU's when its label (ignoring ASCII case)
/// mentions cpu, core, package, tctl, ccd or processor; other sensors only
/// serve when no such one reads.
pub open spec fn spec_is_cpu_sensor(label: Seq<char>) -> bool {
    let l = lower(label);
    contains_seq(l, "cpu"@) || contains_seq(l, "core"@) || contains_seq(l, "package"@)
        || contains_seq(l, "tctl"@) || contains_seq(l, "ccd"@) || contains_seq(l, "processor"@)
}

/// Whether a sensor label names a CPU sensor.
pub fn is_cpu_sensor(label: &str) -> (b: bool)
    ensures
        b == spec_is_cpu_sensor(label@),
{
    let cs = chars_of(label);
    let l = lower_chars(cs.as_slice());
    let s = l.as_slice();
    contains_chars(s, "cpu") || contains_chars(s, "core") || contains_chars(s, "package")
        || contains_chars(s, "tctl") || contains_chars(s, "ccd") || contains_chars(s, "processor")
}

} // verus!
