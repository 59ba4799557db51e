use vmstat_rs::alert::{alert_flags, classify, Severity, Thresholds};
use vmstat_rs::deltas::{compute_deltas, first_tick_metrics, oom_increased};
use vmstat_rs::snapshot::{CpuStats, Meminfo, VmStat};

fn snapshot() -> VmStat {
    VmStat {
        procs_running: 0,
        procs_blocked: 0,
        mem_info: Meminfo { total: 0, free: 0, buffers: 0, cached: 0 },
        cpu_stats: CpuStats { user: 0, nice: 0, system: 0, idle: 0, iowait: 0 },
        swap_total: 0,
        swap_free: 0,
        context_switches: 0,
        interrupts: 0,
        pgfault: 0,
        pgmajfault: 0,
        oom_kill: 0,
    }
}

#[test]
fn single_counter_rate_is_floored_delta_over_interval() {
    let mut prev = snapshot();
    prev.context_switches = 100;
    let mut curr = prev;
    curr.context_switches = 110;
    let m = compute_deltas(&prev, &curr, 3);
    assert_eq!(m.cs_per_sec, 3);
    assert_eq!(m.in_per_sec, 0);
    assert_eq!(m.minor_per_sec, 0);
    assert_eq!(m.major_per_sec, 0);
    assert_eq!(m.user_pct_x100, 0);
    assert_eq!(m.system_pct_x100, 0);
    assert_eq!(m.idle_pct_x100, 0);
    assert_eq!(m.iowait_pct_x100, 0);
}

#[test]
fn counter_regression_yields_zero_rate() {
    let mut prev = snapshot();
    prev.context_switches = 100000;
    prev.interrupts = 100000;
    let mut curr = prev;
    curr.context_switches = 50;
    curr.interrupts = 99999;
    let m = compute_deltas(&prev, &curr, 1);
    assert_eq!(m.cs_per_sec, 0);
    assert_eq!(m.in_per_sec, 0);
}

#[test]
fn cpu_shares_sum_to_at_most_full_scale() {
    let mut prev = snapshot();
    prev.cpu_stats = CpuStats { user: 10, nice: 7, system: 20, idle: 30, iowait: 40 };
    let mut curr = prev;
    curr.cpu_stats = CpuStats { user: 11, nice: 9, system: 23, idle: 37, iowait: 41 };
    let m = compute_deltas(&prev, &curr, 1);
    let sum = m.user_pct_x100 + m.system_pct_x100 + m.idle_pct_x100 + m.iowait_pct_x100;
    assert!(sum <= 10000);
    // total delta 14 (nice time counts toward the total, not the breakdown);
    // shares truncated from 1/14, 3/14, 7/14, 1/14 of 10000
    assert_eq!(m.user_pct_x100, 714);
    assert_eq!(m.system_pct_x100, 2142);
    assert_eq!(m.idle_pct_x100, 5000);
    assert_eq!(m.iowait_pct_x100, 714);
}

#[test]
fn identical_snapshots_yield_all_zero_shares() {
    let mut prev = snapshot();
    prev.cpu_stats = CpuStats { user: 10, nice: 2, system: 20, idle: 30, iowait: 40 };
    prev.context_switches = 5;
    let curr = prev;
    let m = compute_deltas(&prev, &curr, 1);
    assert_eq!(m.user_pct_x100, 0);
    assert_eq!(m.system_pct_x100, 0);
    assert_eq!(m.idle_pct_x100, 0);
    assert_eq!(m.iowait_pct_x100, 0);
    assert_eq!(m.cs_per_sec, 0);
}

#[test]
fn share_clamps_on_degenerate_counters() {
    // One category leaps while another collapses: the elapsed total is 1,
    // the user delta is huge, and the quotient is clamped to u64::MAX.
    let mut prev = snapshot();
    prev.cpu_stats = CpuStats { user: 0, nice: u64::MAX - 1, system: 0, idle: 0, iowait: 0 };
    let mut curr = prev;
    curr.cpu_stats = CpuStats { user: u64::MAX, nice: 0, system: 0, idle: 0, iowait: 0 };
    let m = compute_deltas(&prev, &curr, 1);
    assert_eq!(m.user_pct_x100, u64::MAX);
}

#[test]
fn oom_detection_is_strict_increase() {
    let mut prev = snapshot();
    prev.oom_kill = 5;
    let mut curr = prev;
    curr.oom_kill = 6;
    assert!(oom_increased(&prev, &curr));
    curr.oom_kill = 5;
    assert!(!oom_increased(&prev, &curr));
    curr.oom_kill = 4;
    assert!(!oom_increased(&prev, &curr));
}

#[test]
fn malformed_major_over_total_never_goes_negative() {
    let mut prev = snapshot();
    prev.pgfault = 100;
    prev.pgmajfault = 200;
    let mut curr = prev;
    curr.pgfault = 150;
    curr.pgmajfault = 200;
    let m = compute_deltas(&prev, &curr, 1);
    // derived minor counts clamp at zero on both sides
    assert_eq!(m.minor_per_sec, 0);
    assert_eq!(m.major_per_sec, 0);
}

#[test]
fn rates_truncate_toward_zero() {
    let mut prev = snapshot();
    prev.interrupts = 0;
    let mut curr = prev;
    curr.interrupts = 7;
    let m = compute_deltas(&prev, &curr, 2);
    assert_eq!(m.in_per_sec, 3);
}

#[test]
fn end_to_end_scenario() {
    let mut prev = snapshot();
    prev.context_switches = 100000;
    prev.interrupts = 50000;
    prev.pgfault = 2000;
    prev.pgmajfault = 100;
    prev.cpu_stats = CpuStats { user: 1000, nice: 0, system: 500, idle: 8000, iowait: 100 };
    let mut curr = prev;
    curr.context_switches = 106000;
    curr.interrupts = 50500;
    curr.pgfault = 2300;
    curr.pgmajfault = 250;
    curr.cpu_stats = CpuStats { user: 1010, nice: 0, system: 530, idle: 8050, iowait: 115 };
    let m = compute_deltas(&prev, &curr, 1);
    assert_eq!(m.cs_per_sec, 6000);
    assert_eq!(m.in_per_sec, 500);
    assert_eq!(m.minor_per_sec, 150);
    assert_eq!(m.major_per_sec, 150);
    // total delta 105; user 10/105, system 30/105, idle 50/105, iowait 15/105
    assert_eq!(m.user_pct_x100, 952);
    assert_eq!(m.system_pct_x100, 2857);
    assert_eq!(m.idle_pct_x100, 4761);
    assert_eq!(m.iowait_pct_x100, 1428);
    let th = Thresholds::standard();
    // 6000 cs/sec exceeds 5000: the high warning wins the strict ordering,
    // and under the additive flags it suppresses only the medium warning,
    // though 150 maj/sec alone would have qualified.
    assert_eq!(classify(&m, false, &th), Severity::WarningHigh);
    let f = alert_flags(&m, false, &th);
    assert!(!f.critical);
    assert!(f.warning_high);
    assert!(!f.warning_medium);
}

#[test]
fn first_tick_renders_zero_rates_and_full_idle() {
    let m = first_tick_metrics();
    assert_eq!(m.cs_per_sec, 0);
    assert_eq!(m.in_per_sec, 0);
    assert_eq!(m.minor_per_sec, 0);
    assert_eq!(m.major_per_sec, 0);
    assert_eq!(m.user_pct_x100, 0);
    assert_eq!(m.system_pct_x100, 0);
    assert_eq!(m.idle_pct_x100, 10000);
    assert_eq!(m.iowait_pct_x100, 0);
    let th = Thresholds::standard();
    assert_eq!(classify(&m, false, &th), Severity::Normal);
}
