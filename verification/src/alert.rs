//! The alert classifier and renderer: maps derived metrics to a severity
//! tier against configured thresholds, and lays the snapshot and metrics out
//! as the numeric fields of one fixed-column report line.

use vstd::prelude::*;

use crate::deltas::DerivedMetrics;
use crate::snapshot::VmStat;
use crate::text::{ascii_bytes, str_bytes};

verus! {

/// The alert thresholds, passed to the classifier rather than baked in, so
/// boundary values can be exercised.
#[derive(Clone, Copy, Debug, PartialEq, Eq, Structural)]
pub struct Thresholds {
    /// Context switches per second above which the tick is a high warning.
    pub ctxt_per_sec: u64,
    /// Major page faults per second above which the tick is a medium warning.
    pub major_faults_per_sec: u64,
}

impl Thresholds {
    /// The fixed thresholds of the monitor: 5000 context switches per second,
    /// 100 major page faults per second.
    pub fn standard() -> (r: Thresholds)
        ensures
            r.ctxt_per_sec == 5000,
            r.major_faults_per_sec == 100,
    {
        Thresholds { ctxt_per_sec: 5000, major_faults_per_sec: 100 }
    }
}

/// The severity tier of one tick, highest first.
#[derive(Clone, Copy, Debug, PartialEq, Eq, Structural)]
pub enum Severity {
    /// An out-of-memory kill happened since the previous tick.
    Critical,
    /// The context-switch rate exceeds its threshold.
    WarningHigh,
    /// The major-fault rate exceeds its threshold.
    WarningMedium,
    /// Nothing to flag.
    Normal,
}

/// The severity tier under a strict priority ordering: the first condition
/// that holds, checked from most to least severe, decides.
pub open spec fn severity_of(m: DerivedMetrics, oom_increased: bool, th: Thresholds) -> Severity {
    if oom_increased {
        Severity::Critical
    } else if m.cs_per_sec > th.ctxt_per_sec {
        Severity::WarningHigh
    } else if m.major_per_sec > th.major_faults_per_sec {
        Severity::WarningMedium
    } else {
        Severity::Normal
    }
}

/// Classifies one tick's metrics: strict priority, first match wins and
/// suppresses the lower tiers.
pub fn classify(m: &DerivedMetrics, oom_increased: bool, th: &Thresholds) -> (r: Severity)
    ensures
        r == severity_of(*m, oom_increased, *th),
{
    if oom_increased {
        Severity::Critical
    } else if m.cs_per_sec > th.ctxt_per_sec {
        Severity::WarningHigh
    } else if m.major_per_sec > th.major_faults_per_sec {
        Severity::WarningMedium
    } else {
        Severity::Normal
    }
}

/// The alert conditions evaluated independently, for a renderer that treats
/// the critical tier as additive: a critical tick also reports a high
/// warning when both hold, while the two warning tiers exclude one another.
#[derive(Clone, Copy, Debug, PartialEq, Eq, Structural)]
pub struct AlertFlags {
    /// An out-of-memory kill happened: emphasize the line and warn.
    pub critical: bool,
    /// The context-switch rate exceeds its threshold: emphasize and warn.
    pub warning_high: bool,
    /// No high warning, but the major-fault rate exceeds its threshold.
    pub warning_medium: bool,
}

/// Evaluates the alert conditions independently of one another.
pub fn alert_flags(m: &DerivedMetrics, oom_increased: bool, th: &Thresholds) -> (r: AlertFlags)
    ensures
        r.critical == oom_increased,
        r.warning_high == (m.cs_per_sec > th.ctxt_per_sec),
        r.warning_medium == (m.cs_per_sec <= th.ctxt_per_sec && m.major_per_sec
            > th.major_faults_per_sec),
{
    let warning_high = m.cs_per_sec > th.ctxt_per_sec;
    AlertFlags {
        critical: oom_increased,
        warning_high,
        warning_medium: !warning_high && m.major_per_sec > th.major_faults_per_sec,
    }
}

/// One report line, as numeric fields in display units: gauges, memory
/// amounts in mebibytes, per-second rates, the out-of-memory marker, whole
/// CPU percentages, and the fixed always-zero placeholders for swap I/O,
/// block I/O and steal time.
#[derive(Clone, Copy, Debug, PartialEq, Eq, Structural)]
pub struct RenderedLine {
    pub procs_running: u64,
    pub procs_blocked: u64,
    /// Swap in use, mebibytes: swap total less swap free, clamped at zero.
    pub swap_used_mib: u64,
    pub free_mib: u64,
    pub buffers_mib: u64,
    pub cached_mib: u64,
    /// Reserved swap-in rate; always zero.
    pub swap_in: u64,
    /// Reserved swap-out rate; always zero.
    pub swap_out: u64,
    /// Reserved blocks-in rate; always zero.
    pub blocks_in: u64,
    /// Reserved blocks-out rate; always zero.
    pub blocks_out: u64,
    pub interrupts_per_sec: u64,
    pub context_switches_per_sec: u64,
    pub minor_faults_per_sec: u64,
    pub major_faults_per_sec: u64,
    /// Whether the out-of-memory marker is shown.
    pub oom_marker: bool,
    /// Whole CPU percentages, rounded half up from hundredths.
    pub user_pct: u64,
    pub system_pct: u64,
    pub idle_pct: u64,
    pub iowait_pct: u64,
    /// Reserved steal-time percentage; always zero.
    pub steal_pct: u64,
    /// The tick's severity under the strict priority ordering.
    pub severity: Severity,
}

/// A share in hundredths of a percent, rounded half up to whole percent.
pub open spec fn rounded_pct(x100: int) -> int {
    x100 / 100 + if x100 % 100 >= 50 {
        1int
    } else {
        0int
    }
}

fn round_pct(x100: u64) -> (r: u64)
    ensures
        r == rounded_pct(x100 as int),
{
    x100 / 100 + if x100 % 100 >= 50 {
        1
    } else {
        0
    }
}

/// Lays one tick out as a report line: converts the kibibyte memory amounts
/// to mebibytes, clamps swap in use at zero, rounds the CPU shares to whole
/// percent, zeroes the reserved fields, and attaches the severity tier.
pub fn classify_and_render(
    snapshot: &VmStat,
    metrics: &DerivedMetrics,
    oom_increased: bool,
    th: &Thresholds,
) -> (r: RenderedLine)
    ensures
        r.procs_running == snapshot.procs_running,
        r.procs_blocked == snapshot.procs_blocked,
        r.swap_used_mib == crate::deltas::sat_sub(
            snapshot.swap_total as int,
            snapshot.swap_free as int,
        ) / 1024,
        r.free_mib == snapshot.mem_info.free / 1024,
        r.buffers_mib == snapshot.mem_info.buffers / 1024,
        r.cached_mib == snapshot.mem_info.cached / 1024,
        r.swap_in == 0 && r.swap_out == 0 && r.blocks_in == 0 && r.blocks_out == 0,
        r.interrupts_per_sec == metrics.in_per_sec,
        r.context_switches_per_sec == metrics.cs_per_sec,
        r.minor_faults_per_sec == metrics.minor_per_sec,
        r.major_faults_per_sec == metrics.major_per_sec,
        r.oom_marker == oom_increased,
        r.user_pct == rounded_pct(metrics.user_pct_x100 as int),
        r.system_pct == rounded_pct(metrics.system_pct_x100 as int),
        r.idle_pct == rounded_pct(metrics.idle_pct_x100 as int),
        r.iowait_pct == rounded_pct(metrics.iowait_pct_x100 as int),
        r.steal_pct == 0,
        r.severity == severity_of(*metrics, oom_increased, *th),
{
    RenderedLine {
        procs_running: snapshot.procs_running,
        procs_blocked: snapshot.procs_blocked,
        swap_used_mib: snapshot.swap_total.saturating_sub(snapshot.swap_free) / 1024,
        free_mib: snapshot.mem_info.free / 1024,
        buffers_mib: snapshot.mem_info.buffers / 1024,
        cached_mib: snapshot.mem_info.cached / 1024,
        swap_in: 0,
        swap_out: 0,
        blocks_in: 0,
        blocks_out: 0,
        interrupts_per_sec: metrics.in_per_sec,
        context_switches_per_sec: metrics.cs_per_sec,
        minor_faults_per_sec: metrics.minor_per_sec,
        major_faults_per_sec: metrics.major_per_sec,
        oom_marker: oom_increased,
        user_pct: round_pct(metrics.user_pct_x100),
        system_pct: round_pct(metrics.system_pct_x100),
        idle_pct: round_pct(metrics.idle_pct_x100),
        iowait_pct: round_pct(metrics.iowait_pct_x100),
        steal_pct: 0,
        severity: classify(metrics, oom_increased, th),
    }
}

// --- Fixed-column text ---------------------------------------------------------

/// The decimal digits of a number, most significant first.
pub open spec fn dec_bytes(n: nat) -> Seq<u8>
    decreases n,
    via dec_bytes_decreases
{
    if n < 10 {
        seq![(48 + n) as u8]
    } else {
        dec_bytes(n / 10).push((48 + (n % 10)) as u8)
    }
}

#[via_fn]
proof fn dec_bytes_decreases(n: nat) {
    if n >= 10 {
        vstd::arithmetic::div_mod::lemma_div_decreases(n as int, 10);
    }
}

/// A run of space bytes.
pub open spec fn spaces(k: nat) -> Seq<u8>
    decreases k,
{
    if k == 0 {
        Seq::empty()
    } else {
        spaces((k - 1) as nat).push(32u8)
    }
}

/// A value right-aligned in a column: space bytes in front up to the width;
/// a value wider than its column keeps its full text.
pub open spec fn pad_left(s: Seq<u8>, width: nat) -> Seq<u8> {
    if s.len() >= width {
        s
    } else {
        spaces((width - s.len()) as nat) + s
    }
}

/// A column with its separating space in front.
pub open spec fn cell(s: Seq<u8>, width: nat) -> Seq<u8> {
    seq![32u8] + pad_left(s, width)
}

/// The whole report line, in the fixed column layout: the two process
/// gauges, four memory columns, the four reserved zero columns, the four
/// rates, the out-of-memory marker, and the five percentage columns.
pub open spec fn line_text(l: RenderedLine) -> Seq<u8> {
    pad_left(dec_bytes(l.procs_running as nat), 2) + cell(dec_bytes(l.procs_blocked as nat), 2)
        + cell(dec_bytes(l.swap_used_mib as nat), 9) + cell(dec_bytes(l.free_mib as nat), 9)
        + cell(dec_bytes(l.buffers_mib as nat), 6) + cell(dec_bytes(l.cached_mib as nat), 6)
        + cell(dec_bytes(l.swap_in as nat), 6) + cell(dec_bytes(l.swap_out as nat), 6) + cell(
        dec_bytes(l.blocks_in as nat),
        3,
    ) + cell(dec_bytes(l.blocks_out as nat), 3) + cell(dec_bytes(l.interrupts_per_sec as nat), 3)
        + cell(dec_bytes(l.context_switches_per_sec as nat), 3) + cell(
        dec_bytes(l.minor_faults_per_sec as nat),
        6,
    ) + cell(dec_bytes(l.major_faults_per_sec as nat), 6) + cell(
        if l.oom_marker {
            ascii_bytes("YES")
        } else {
            ascii_bytes(" ")
        },
        4,
    ) + cell(dec_bytes(l.user_pct as nat), 3) + cell(dec_bytes(l.system_pct as nat), 2) + cell(
        dec_bytes(l.idle_pct as nat),
        2,
    ) + cell(dec_bytes(l.iowait_pct as nat), 2) + cell(dec_bytes(l.steal_pct as nat), 2)
}

/// The decimal digits of a `u64`, most significant first.
fn u64_digits(n: u64) -> (r: Vec<u8>)
    ensures
        r@ == dec_bytes(n as nat),
    decreases n,
{
    if n < 10 {
        let mut v: Vec<u8> = Vec::new();
        v.push(48 + (n as u8));
        proof {
            assert(v@ =~= dec_bytes(n as nat));
        }
        v
    } else {
        proof {
            vstd::arithmetic::div_mod::lemma_div_decreases(n as int, 10);
        }
        let mut v = u64_digits(n / 10);
        v.push(48 + ((n % 10) as u8));
        v
    }
}

/// Appends a value right-aligned in its column.
fn push_padded(out: &mut Vec<u8>, piece: &[u8], width: usize)
    ensures
        final(out)@ == old(out)@ + pad_left(piece@, width as nat),
{
    let ghost base = out@;
    if piece.len() < width {
        let n = width - piece.len();
        let mut pads: usize = 0;
        proof {
            assert(base + spaces(0) =~= base);
        }
        while pads < n
            invariant
                pads <= n,
                out@ == base + spaces(pads as nat),
            decreases n - pads,
        {
            out.push(32);
            proof {
                assert((base + spaces(pads as nat)).push(32u8) =~= base + spaces(
                    (pads + 1) as nat,
                ));
            }
            pads = pads + 1;
        }
    }
    let ghost mid = out@;
    let mut j: usize = 0;
    proof {
        assert(mid + piece@.take(0) =~= mid);
    }
    while j < piece.len()
        invariant
            j <= piece@.len(),
            out@ == mid + piece@.take(j as int),
        decreases piece@.len() - j,
    {
        out.push(piece[j]);
        proof {
            assert((mid + piece@.take(j as int)).push(piece@[j as int]) =~= mid + piece@.take(
                j + 1,
            ));
        }
        j = j + 1;
    }
    proof {
        assert(piece@.take(piece@.len() as int) =~= piece@);
        if piece@.len() >= width as nat {
            assert(mid + piece@ =~= base + pad_left(piece@, width as nat));
        } else {
            assert(mid + piece@ =~= base + pad_left(piece@, width as nat));
        }
    }
}

/// Appends a column with its separating space.
fn push_cell(out: &mut Vec<u8>, piece: &[u8], width: usize)
    ensures
        final(out)@ == old(out)@ + cell(piece@, width as nat),
{
    let ghost base = out@;
    out.push(32);
    push_padded(out, piece, width);
    proof {
        assert((base.push(32u8)) + pad_left(piece@, width as nat) =~= base + cell(
            piece@,
            width as nat,
        ));
    }
}

/// Lays a report line out as the bytes of its fixed-column text.
pub fn render_line(l: &RenderedLine) -> (r: Vec<u8>)
    ensures
        r@ == line_text(*l),
{
    proof {
        reveal_strlit("YES");
        reveal_strlit(" ");
    }
    let mut out: Vec<u8> = Vec::new();
    let d = u64_digits(l.procs_running);
    push_padded(&mut out, d.as_slice(), 2);
    proof {
        assert(out@ =~= pad_left(dec_bytes(l.procs_running as nat), 2));
    }
    let d = u64_digits(l.procs_blocked);
    push_cell(&mut out, d.as_slice(), 2);
    let d = u64_digits(l.swap_used_mib);
    push_cell(&mut out, d.as_slice(), 9);
    let d = u64_digits(l.free_mib);
    push_cell(&mut out, d.as_slice(), 9);
    let d = u64_digits(l.buffers_mib);
    push_cell(&mut out, d.as_slice(), 6);
    let d = u64_digits(l.cached_mib);
    push_cell(&mut out, d.as_slice(), 6);
    let d = u64_digits(l.swap_in);
    push_cell(&mut out, d.as_slice(), 6);
    let d = u64_digits(l.swap_out);
    push_cell(&mut out, d.as_slice(), 6);
    let d = u64_digits(l.blocks_in);
    push_cell(&mut out, d.as_slice(), 3);
    let d = u64_digits(l.blocks_out);
    push_cell(&mut out, d.as_slice(), 3);
    let d = u64_digits(l.interrupts_per_sec);
    push_cell(&mut out, d.as_slice(), 3);
    let d = u64_digits(l.context_switches_per_sec);
    push_cell(&mut out, d.as_slice(), 3);
    let d = u64_digits(l.minor_faults_per_sec);
    push_cell(&mut out, d.as_slice(), 6);
    let d = u64_digits(l.major_faults_per_sec);
    push_cell(&mut out, d.as_slice(), 6);
    if l.oom_marker {
        push_cell(&mut out, str_bytes("YES"), 4);
    } else {
        push_cell(&mut out, str_bytes(" "), 4);
    }
    let d = u64_digits(l.user_pct);
    push_cell(&mut out, d.as_slice(), 3);
    let d = u64_digits(l.system_pct);
    push_cell(&mut out, d.as_slice(), 2);
    let d = u64_digits(l.idle_pct);
    push_cell(&mut out, d.as_slice(), 2);
    let d = u64_digits(l.iowait_pct);
    push_cell(&mut out, d.as_slice(), 2);
    let d = u64_digits(l.steal_pct);
    push_cell(&mut out, d.as_slice(), 2);
    out
}

} // verus!
