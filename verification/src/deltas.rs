//! The delta calculator: derives per-second rates and CPU-time shares from
//! two snapshots separated by a known positive interval. Every monotonic
//! counter subtraction is clamped at zero, so a counter reset reads as zero
//! activity this tick rather than as a huge spurious rate.

use vstd::prelude::*;

use crate::snapshot::{CpuStats, VmStat};

verus! {

/// Subtraction clamped at zero: a counter that went backwards (reset or
/// wrap) counts as zero activity, never as a negative delta.
pub open spec fn sat_sub(a: int, b: int) -> int {
    if a >= b {
        a - b
    } else {
        0
    }
}

/// The sum of all five CPU time categories of a snapshot.
pub open spec fn cpu_total(c: CpuStats) -> int {
    c.user + c.nice + c.system + c.idle + c.iowait
}

/// Minor faults derived at one snapshot: total faults less major faults,
/// clamped at zero should a malformed snapshot report more major than total.
pub open spec fn minor_faults(s: VmStat) -> int {
    sat_sub(s.pgfault as int, s.pgmajfault as int)
}

/// The share of `total` taken by `part`, in hundredths of a percent,
/// truncated toward zero; zero when no time elapsed, and clamped to
/// `u64::MAX` against a degenerate quotient.
pub open spec fn pct_x100(part: int, total: int) -> int {
    if total > 0 {
        let q = part * 10000 / total;
        if q > u64::MAX {
            u64::MAX as int
        } else {
            q
        }
    } else {
        0
    }
}

/// The output of comparing two snapshots over an interval: four per-second
/// rates and four CPU-time shares in hundredths of a percent.
#[derive(Clone, Copy, Debug, PartialEq, Eq, Structural)]
pub struct DerivedMetrics {
    /// Context switches per second.
    pub cs_per_sec: u64,
    /// Interrupts per second.
    pub in_per_sec: u64,
    /// Minor page faults per second.
    pub minor_per_sec: u64,
    /// Major page faults per second.
    pub major_per_sec: u64,
    /// User CPU time share, in hundredths of a percent.
    pub user_pct_x100: u64,
    /// System CPU time share, in hundredths of a percent.
    pub system_pct_x100: u64,
    /// Idle CPU time share, in hundredths of a percent.
    pub idle_pct_x100: u64,
    /// I/O-wait CPU time share, in hundredths of a percent.
    pub iowait_pct_x100: u64,
}

/// Everything `compute_deltas` returns, as a function of its three inputs.
pub open spec fn deltas_of(prev: VmStat, curr: VmStat, interval_seconds: int) -> DerivedMetrics {
    let total_delta = sat_sub(cpu_total(curr.cpu_stats), cpu_total(prev.cpu_stats));
    DerivedMetrics {
        cs_per_sec: (sat_sub(
            curr.context_switches as int,
            prev.context_switches as int,
        ) / interval_seconds) as u64,
        in_per_sec: (sat_sub(curr.interrupts as int, prev.interrupts as int)
            / interval_seconds) as u64,
        minor_per_sec: (sat_sub(minor_faults(curr), minor_faults(prev))
            / interval_seconds) as u64,
        major_per_sec: (sat_sub(curr.pgmajfault as int, prev.pgmajfault as int)
            / interval_seconds) as u64,
        user_pct_x100: pct_x100(
            sat_sub(curr.cpu_stats.user as int, prev.cpu_stats.user as int),
            total_delta,
        ) as u64,
        system_pct_x100: pct_x100(
            sat_sub(curr.cpu_stats.system as int, prev.cpu_stats.system as int),
            total_delta,
        ) as u64,
        idle_pct_x100: pct_x100(
            sat_sub(curr.cpu_stats.idle as int, prev.cpu_stats.idle as int),
            total_delta,
        ) as u64,
        iowait_pct_x100: pct_x100(
            sat_sub(curr.cpu_stats.iowait as int, prev.cpu_stats.iowait as int),
            total_delta,
        ) as u64,
    }
}

/// The clamped, truncated share of one CPU category.
fn pct_part(curr: u64, prev: u64, total_delta: u128) -> (r: u64)
    ensures
        r == pct_x100(sat_sub(curr as int, prev as int), total_delta as int),
{
    if total_delta == 0 {
        return 0;
    }
    let d: u128 = if curr >= prev {
        (curr - prev) as u128
    } else {
        0
    };
    let q: u128 = d * 10000 / total_delta;
    if q > u64::MAX as u128 {
        u64::MAX
    } else {
        q as u64
    }
}

/// Compares two snapshots over a positive interval: per-second rates for the
/// four monotonic counters (clamped at zero on regression, truncated toward
/// zero), and the four CPU-time shares of the elapsed CPU accounting delta
/// (zero when no CPU time elapsed).
pub fn compute_deltas(prev: &VmStat, curr: &VmStat, interval_seconds: u64) -> (r: DerivedMetrics)
    requires
        interval_seconds > 0,
    ensures
        r == deltas_of(*prev, *curr, interval_seconds as int),
{
    let cs_delta = curr.context_switches.saturating_sub(prev.context_switches);
    let in_delta = curr.interrupts.saturating_sub(prev.interrupts);
    let cs_per_sec = cs_delta / interval_seconds;
    let in_per_sec = in_delta / interval_seconds;
    let minor_now = curr.pgfault.saturating_sub(curr.pgmajfault);
    let minor_prev = prev.pgfault.saturating_sub(prev.pgmajfault);
    let minor_delta = minor_now.saturating_sub(minor_prev);
    let major_delta = curr.pgmajfault.saturating_sub(prev.pgmajfault);
    let minor_per_sec = minor_delta / interval_seconds;
    let major_per_sec = major_delta / interval_seconds;
    let total_prev: u128 = prev.cpu_stats.user as u128 + prev.cpu_stats.nice as u128
        + prev.cpu_stats.system as u128 + prev.cpu_stats.idle as u128
        + prev.cpu_stats.iowait as u128;
    let total_curr: u128 = curr.cpu_stats.user as u128 + curr.cpu_stats.nice as u128
        + curr.cpu_stats.system as u128 + curr.cpu_stats.idle as u128
        + curr.cpu_stats.iowait as u128;
    let total_delta: u128 = if total_curr >= total_prev {
        total_curr - total_prev
    } else {
        0
    };
    DerivedMetrics {
        cs_per_sec,
        in_per_sec,
        minor_per_sec,
        major_per_sec,
        user_pct_x100: pct_part(curr.cpu_stats.user, prev.cpu_stats.user, total_delta),
        system_pct_x100: pct_part(curr.cpu_stats.system, prev.cpu_stats.system, total_delta),
        idle_pct_x100: pct_part(curr.cpu_stats.idle, prev.cpu_stats.idle, total_delta),
        iowait_pct_x100: pct_part(curr.cpu_stats.iowait, prev.cpu_stats.iowait, total_delta),
    }
}

/// The metrics shown on the very first tick, when no baseline snapshot
/// exists yet: every rate and share is zero, and the idle share defaults to
/// a full-scale 100%.
pub fn first_tick_metrics() -> (r: DerivedMetrics)
    ensures
        r.cs_per_sec == 0,
        r.in_per_sec == 0,
        r.minor_per_sec == 0,
        r.major_per_sec == 0,
        r.user_pct_x100 == 0,
        r.system_pct_x100 == 0,
        r.idle_pct_x100 == 10000,
        r.iowait_pct_x100 == 0,
{
    DerivedMetrics {
        cs_per_sec: 0,
        in_per_sec: 0,
        minor_per_sec: 0,
        major_per_sec: 0,
        user_pct_x100: 0,
        system_pct_x100: 0,
        idle_pct_x100: 10000,
        iowait_pct_x100: 0,
    }
}

/// Whether the out-of-memory kill counter strictly increased between two
/// snapshots; an equal or lower (reset) counter does not count.
pub fn oom_increased(prev: &VmStat, curr: &VmStat) -> (r: bool)
    ensures
        r == (curr.oom_kill > prev.oom_kill),
{
    curr.oom_kill > prev.oom_kill
}

// --- Laws of the delta calculator --------------------------------------------

/// When the snapshots differ only in the context-switch counter, which did
/// not decrease, its rate is the counter delta divided by the interval,
/// truncated, and every other rate and every share is zero.
pub proof fn lemma_single_counter_context_switches(prev: VmStat, curr: VmStat, t: int)
    requires
        t > 0,
        prev.context_switches <= curr.context_switches,
        curr == (VmStat { context_switches: curr.context_switches, ..prev }),
    ensures
        deltas_of(prev, curr, t).cs_per_sec == (curr.context_switches
            - prev.context_switches) / t,
        deltas_of(prev, curr, t).in_per_sec == 0,
        deltas_of(prev, curr, t).minor_per_sec == 0,
        deltas_of(prev, curr, t).major_per_sec == 0,
        deltas_of(prev, curr, t).user_pct_x100 == 0,
        deltas_of(prev, curr, t).system_pct_x100 == 0,
        deltas_of(prev, curr, t).idle_pct_x100 == 0,
        deltas_of(prev, curr, t).iowait_pct_x100 == 0,
{
    vstd::arithmetic::div_mod::lemma_div_of0(t);
    vstd::arithmetic::div_mod::lemma_div_pos_is_pos(
        curr.context_switches - prev.context_switches,
        t,
    );
    vstd::arithmetic::div_mod::lemma_div_nonincreasing(
        curr.context_switches - prev.context_switches,
        t,
    );
}

/// The same for the interrupt counter.
pub proof fn lemma_single_counter_interrupts(prev: VmStat, curr: VmStat, t: int)
    requires
        t > 0,
        prev.interrupts <= curr.interrupts,
        curr == (VmStat { interrupts: curr.interrupts, ..prev }),
    ensures
        deltas_of(prev, curr, t).in_per_sec == (curr.interrupts - prev.interrupts) / t,
        deltas_of(prev, curr, t).cs_per_sec == 0,
        deltas_of(prev, curr, t).minor_per_sec == 0,
        deltas_of(prev, curr, t).major_per_sec == 0,
{
    vstd::arithmetic::div_mod::lemma_div_of0(t);
    vstd::arithmetic::div_mod::lemma_div_pos_is_pos(curr.interrupts - prev.interrupts, t);
    vstd::arithmetic::div_mod::lemma_div_nonincreasing(curr.interrupts - prev.interrupts, t);
}

/// The same for the total-fault counter: when only `pgfault` rose, and major
/// faults do not exceed the old total, the minor-fault rate is the delta of
/// the derived minor counts divided by the interval, and the major rate is
/// zero.
pub proof fn lemma_single_counter_pgfault(prev: VmStat, curr: VmStat, t: int)
    requires
        t > 0,
        prev.pgmajfault <= prev.pgfault <= curr.pgfault,
        curr == (VmStat { pgfault: curr.pgfault, ..prev }),
    ensures
        deltas_of(prev, curr, t).minor_per_sec == (curr.pgfault - prev.pgfault) / t,
        deltas_of(prev, curr, t).major_per_sec == 0,
        deltas_of(prev, curr, t).cs_per_sec == 0,
        deltas_of(prev, curr, t).in_per_sec == 0,
{
    vstd::arithmetic::div_mod::lemma_div_of0(t);
    vstd::arithmetic::div_mod::lemma_div_pos_is_pos(curr.pgfault - prev.pgfault, t);
    vstd::arithmetic::div_mod::lemma_div_nonincreasing(curr.pgfault - prev.pgfault, t);
}

/// The same for the major-fault counter: when only `pgmajfault` rose, the
/// major rate is its delta divided by the interval, and the derived
/// minor-fault rate clamps to zero rather than going negative.
pub proof fn lemma_single_counter_pgmajfault(prev: VmStat, curr: VmStat, t: int)
    requires
        t > 0,
        prev.pgmajfault <= curr.pgmajfault,
        curr == (VmStat { pgmajfault: curr.pgmajfault, ..prev }),
    ensures
        deltas_of(prev, curr, t).major_per_sec == (curr.pgmajfault - prev.pgmajfault) / t,
        deltas_of(prev, curr, t).minor_per_sec == 0,
        deltas_of(prev, curr, t).cs_per_sec == 0,
        deltas_of(prev, curr, t).in_per_sec == 0,
{
    vstd::arithmetic::div_mod::lemma_div_of0(t);
    vstd::arithmetic::div_mod::lemma_div_pos_is_pos(curr.pgmajfault - prev.pgmajfault, t);
    vstd::arithmetic::div_mod::lemma_div_nonincreasing(curr.pgmajfault - prev.pgmajfault, t);
}

/// A context-switch counter that went backwards yields a rate of exactly
/// zero: never negative, never wrapped to a huge value.
pub proof fn lemma_counter_regression(prev: VmStat, curr: VmStat, t: int)
    requires
        t > 0,
        curr.context_switches < prev.context_switches,
    ensures
        deltas_of(prev, curr, t).cs_per_sec == 0,
{
    vstd::arithmetic::div_mod::lemma_div_of0(t);
}

/// CPU share conservation: when every CPU category is monotone across the
/// snapshots and some CPU time elapsed, the four reported shares — user,
/// system, idle and io-wait — sum to at most 100%. Nice time is part of the
/// elapsed total but not of the breakdown, so the sum need not reach 100%.
pub proof fn lemma_pct_conservation(prev: VmStat, curr: VmStat, t: int)
    requires
        t > 0,
        prev.cpu_stats.user <= curr.cpu_stats.user,
        prev.cpu_stats.nice <= curr.cpu_stats.nice,
        prev.cpu_stats.system <= curr.cpu_stats.system,
        prev.cpu_stats.idle <= curr.cpu_stats.idle,
        prev.cpu_stats.iowait <= curr.cpu_stats.iowait,
        cpu_total(prev.cpu_stats) < cpu_total(curr.cpu_stats),
    ensures
        deltas_of(prev, curr, t).user_pct_x100 + deltas_of(prev, curr, t).system_pct_x100
            + deltas_of(prev, curr, t).idle_pct_x100 + deltas_of(
            prev,
            curr,
            t,
        ).iowait_pct_x100 <= 10000,
{
    let total = sat_sub(cpu_total(curr.cpu_stats), cpu_total(prev.cpu_stats));
    let du = sat_sub(curr.cpu_stats.user as int, prev.cpu_stats.user as int);
    let ds = sat_sub(curr.cpu_stats.system as int, prev.cpu_stats.system as int);
    let di = sat_sub(curr.cpu_stats.idle as int, prev.cpu_stats.idle as int);
    let dw = sat_sub(curr.cpu_stats.iowait as int, prev.cpu_stats.iowait as int);
    assert(du + ds + di + dw <= total);
    lemma_pct_x100_bound(du, total);
    lemma_pct_x100_bound(ds, total);
    lemma_pct_x100_bound(di, total);
    lemma_pct_x100_bound(dw, total);
    let qu = du * 10000 / total;
    let qs = ds * 10000 / total;
    let qi = di * 10000 / total;
    let qw = dw * 10000 / total;
    vstd::arithmetic::div_mod::lemma_fundamental_div_mod(du * 10000, total);
    vstd::arithmetic::div_mod::lemma_fundamental_div_mod(ds * 10000, total);
    vstd::arithmetic::div_mod::lemma_fundamental_div_mod(di * 10000, total);
    vstd::arithmetic::div_mod::lemma_fundamental_div_mod(dw * 10000, total);
    vstd::arithmetic::div_mod::lemma_mod_bound(du * 10000, total);
    vstd::arithmetic::div_mod::lemma_mod_bound(ds * 10000, total);
    vstd::arithmetic::div_mod::lemma_mod_bound(di * 10000, total);
    vstd::arithmetic::div_mod::lemma_mod_bound(dw * 10000, total);
    assert(total * qu + total * qs + total * qi + total * qw <= (du + ds + di + dw) * 10000);
    assert(qu + qs + qi + qw <= 10000) by (nonlinear_arith)
        requires
            total > 0,
            total * qu + total * qs + total * qi + total * qw <= total * 10000,
    ;
}

/// A category's share never exceeds 100% while the category's delta is
/// within the elapsed total.
proof fn lemma_pct_x100_bound(part: int, total: int)
    requires
        0 <= part <= total,
        total > 0,
    ensures
        pct_x100(part, total) == part * 10000 / total,
        pct_x100(part, total) <= 10000,
{
    vstd::arithmetic::div_mod::lemma_div_is_ordered(part * 10000, total * 10000, total);
    vstd::arithmetic::div_mod::lemma_div_multiples_vanish(10000, total);
    assert(total * 10000 == 10000 * total);
    vstd::arithmetic::div_mod::lemma_div_pos_is_pos(part * 10000, total);
}

/// With no elapsed CPU time between the snapshots — in particular across two
/// identical snapshots — every share is zero, never undefined.
pub proof fn lemma_zero_total_delta(prev: VmStat, curr: VmStat, t: int)
    requires
        t > 0,
        cpu_total(curr.cpu_stats) <= cpu_total(prev.cpu_stats),
    ensures
        deltas_of(prev, curr, t).user_pct_x100 == 0,
        deltas_of(prev, curr, t).system_pct_x100 == 0,
        deltas_of(prev, curr, t).idle_pct_x100 == 0,
        deltas_of(prev, curr, t).iowait_pct_x100 == 0,
{
}

/// Two identical snapshots yield zero for every rate and every share.
pub proof fn lemma_identical_snapshots(s: VmStat, t: int)
    requires
        t > 0,
    ensures
        deltas_of(s, s, t) == (DerivedMetrics {
            cs_per_sec: 0,
            in_per_sec: 0,
            minor_per_sec: 0,
            major_per_sec: 0,
            user_pct_x100: 0,
            system_pct_x100: 0,
            idle_pct_x100: 0,
            iowait_pct_x100: 0,
        }),
{
    vstd::arithmetic::div_mod::lemma_div_of0(t);
    lemma_zero_total_delta(s, s, t);
}

/// The derived minor-fault count is never negative, even when a malformed
/// snapshot reports more major faults than total faults; in that case it is
/// exactly zero.
pub proof fn lemma_minor_faults_never_negative(s: VmStat)
    ensures
        minor_faults(s) >= 0,
        s.pgmajfault > s.pgfault ==> minor_faults(s) == 0,
{
}

} // verus!
