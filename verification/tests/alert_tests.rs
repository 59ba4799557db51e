use vmstat_rs::alert::{
    alert_flags, classify, classify_and_render, render_line, Severity, Thresholds,
};
use vmstat_rs::deltas::DerivedMetrics;
use vmstat_rs::snapshot::{CpuStats, Meminfo, VmStat};

fn metrics() -> DerivedMetrics {
    DerivedMetrics {
        cs_per_sec: 0,
        in_per_sec: 0,
        minor_per_sec: 0,
        major_per_sec: 0,
        user_pct_x100: 0,
        system_pct_x100: 0,
        idle_pct_x100: 10000,
        iowait_pct_x100: 0,
    }
}

#[test]
fn standard_thresholds() {
    let th = Thresholds::standard();
    assert_eq!(th.ctxt_per_sec, 5000);
    assert_eq!(th.major_faults_per_sec, 100);
}

#[test]
fn classify_is_strict_priority() {
    let th = Thresholds::standard();
    let mut m = metrics();
    assert_eq!(classify(&m, false, &th), Severity::Normal);
    m.major_per_sec = 101;
    assert_eq!(classify(&m, false, &th), Severity::WarningMedium);
    m.cs_per_sec = 5001;
    assert_eq!(classify(&m, false, &th), Severity::WarningHigh);
    assert_eq!(classify(&m, true, &th), Severity::Critical);
}

#[test]
fn thresholds_are_exceeded_only_strictly() {
    let th = Thresholds::standard();
    let mut m = metrics();
    m.cs_per_sec = 5000;
    m.major_per_sec = 100;
    assert_eq!(classify(&m, false, &th), Severity::Normal);
    m.cs_per_sec = 5001;
    assert_eq!(classify(&m, false, &th), Severity::WarningHigh);
    m.cs_per_sec = 0;
    m.major_per_sec = 101;
    assert_eq!(classify(&m, false, &th), Severity::WarningMedium);
}

#[test]
fn flags_report_critical_and_high_warning_together() {
    let th = Thresholds::standard();
    let mut m = metrics();
    m.cs_per_sec = 6000;
    m.major_per_sec = 500;
    let f = alert_flags(&m, true, &th);
    assert!(f.critical);
    assert!(f.warning_high);
    assert!(!f.warning_medium);
    let f2 = alert_flags(&m, false, &th);
    assert!(!f2.critical);
    assert!(f2.warning_high);
}

#[test]
fn flags_medium_warning_needs_no_high_warning() {
    let th = Thresholds::standard();
    let mut m = metrics();
    m.major_per_sec = 500;
    let f = alert_flags(&m, false, &th);
    assert!(!f.critical);
    assert!(!f.warning_high);
    assert!(f.warning_medium);
}

#[test]
fn rendering_converts_units_and_fills_placeholders() {
    let s = VmStat {
        procs_running: 3,
        procs_blocked: 1,
        mem_info: Meminfo { total: 16384, free: 8192, buffers: 2048, cached: 1025 },
        cpu_stats: CpuStats { user: 0, nice: 0, system: 0, idle: 0, iowait: 0 },
        swap_total: 4096,
        swap_free: 1024,
        context_switches: 0,
        interrupts: 0,
        pgfault: 0,
        pgmajfault: 0,
        oom_kill: 0,
    };
    let m = DerivedMetrics {
        cs_per_sec: 6000,
        in_per_sec: 500,
        minor_per_sec: 150,
        major_per_sec: 150,
        user_pct_x100: 952,
        system_pct_x100: 2857,
        idle_pct_x100: 4761,
        iowait_pct_x100: 1428,
    };
    let th = Thresholds::standard();
    let line = classify_and_render(&s, &m, false, &th);
    assert_eq!(line.procs_running, 3);
    assert_eq!(line.procs_blocked, 1);
    assert_eq!(line.swap_used_mib, 3); // (4096 - 1024) / 1024
    assert_eq!(line.free_mib, 8);
    assert_eq!(line.buffers_mib, 2);
    assert_eq!(line.cached_mib, 1);
    assert_eq!(line.swap_in, 0);
    assert_eq!(line.swap_out, 0);
    assert_eq!(line.blocks_in, 0);
    assert_eq!(line.blocks_out, 0);
    assert_eq!(line.interrupts_per_sec, 500);
    assert_eq!(line.context_switches_per_sec, 6000);
    assert_eq!(line.minor_faults_per_sec, 150);
    assert_eq!(line.major_faults_per_sec, 150);
    assert!(!line.oom_marker);
    assert_eq!(line.user_pct, 10); // 9.52 rounds half up
    assert_eq!(line.system_pct, 29); // 28.57
    assert_eq!(line.idle_pct, 48); // 47.61
    assert_eq!(line.iowait_pct, 14); // 14.28
    assert_eq!(line.steal_pct, 0);
    assert_eq!(line.severity, Severity::WarningHigh);
}

#[test]
fn rendering_clamps_inconsistent_swap_at_zero() {
    let s = VmStat {
        procs_running: 0,
        procs_blocked: 0,
        mem_info: Meminfo { total: 0, free: 0, buffers: 0, cached: 0 },
        cpu_stats: CpuStats { user: 0, nice: 0, system: 0, idle: 0, iowait: 0 },
        swap_total: 1024,
        swap_free: 2048,
        context_switches: 0,
        interrupts: 0,
        pgfault: 0,
        pgmajfault: 0,
        oom_kill: 0,
    };
    let line = classify_and_render(&s, &metrics(), false, &Thresholds::standard());
    assert_eq!(line.swap_used_mib, 0);
}

#[test]
fn rendering_marks_oom_and_escalates() {
    let s = VmStat {
        procs_running: 0,
        procs_blocked: 0,
        mem_info: Meminfo { total: 0, free: 0, buffers: 0, cached: 0 },
        cpu_stats: CpuStats { user: 0, nice: 0, system: 0, idle: 0, iowait: 0 },
        swap_total: 0,
        swap_free: 0,
        context_switches: 0,
        interrupts: 0,
        pgfault: 0,
        pgmajfault: 0,
        oom_kill: 1,
    };
    let line = classify_and_render(&s, &metrics(), true, &Thresholds::standard());
    assert!(line.oom_marker);
    assert_eq!(line.severity, Severity::Critical);
}

#[test]
fn line_text_matches_the_fixed_column_layout() {
    let s = VmStat {
        procs_running: 3,
        procs_blocked: 1,
        mem_info: Meminfo { total: 16384, free: 8192, buffers: 2048, cached: 1025 },
        cpu_stats: CpuStats { user: 0, nice: 0, system: 0, idle: 0, iowait: 0 },
        swap_total: 4096,
        swap_free: 1024,
        context_switches: 0,
        interrupts: 0,
        pgfault: 0,
        pgmajfault: 0,
        oom_kill: 0,
    };
    let m = DerivedMetrics {
        cs_per_sec: 6000,
        in_per_sec: 500,
        minor_per_sec: 150,
        major_per_sec: 150,
        user_pct_x100: 952,
        system_pct_x100: 2857,
        idle_pct_x100: 4761,
        iowait_pct_x100: 1428,
    };
    let line = classify_and_render(&s, &m, false, &Thresholds::standard());
    let text = String::from_utf8(render_line(&line)).unwrap();
    let expected = format!(
        "{:>2} {:>2} {:>9} {:>9} {:>6} {:>6} {:>6} {:>6} {:>3} {:>3} {:>3} {:>3} {:>6} {:>6} {:>4} {:>3} {:>2} {:>2} {:>2} {:>2}",
        3, 1, 3, 8, 2, 1, 0, 0, 0, 0, 500, 6000, 150, 150, " ", 10, 29, 48, 14, 0
    );
    assert_eq!(text, expected);
}

#[test]
fn line_text_shows_the_oom_marker() {
    let s = VmStat {
        procs_running: 0,
        procs_blocked: 0,
        mem_info: Meminfo { total: 0, free: 0, buffers: 0, cached: 0 },
        cpu_stats: CpuStats { user: 0, nice: 0, system: 0, idle: 0, iowait: 0 },
        swap_total: 0,
        swap_free: 0,
        context_switches: 0,
        interrupts: 0,
        pgfault: 0,
        pgmajfault: 0,
        oom_kill: 1,
    };
    let line = classify_and_render(&s, &metrics(), true, &Thresholds::standard());
    let text = String::from_utf8(render_line(&line)).unwrap();
    assert!(text.contains("  YES "));
    let expected = format!(
        "{:>2} {:>2} {:>9} {:>9} {:>6} {:>6} {:>6} {:>6} {:>3} {:>3} {:>3} {:>3} {:>6} {:>6} {:>4} {:>3} {:>2} {:>2} {:>2} {:>2}",
        0, 0, 0, 0, 0, 0, 0, 0, 0, 0, 0, 0, 0, 0, "YES", 0, 0, 100, 0, 0
    );
    assert_eq!(text, expected);
}

#[test]
fn rounding_is_half_up() {
    let mut m = metrics();
    m.user_pct_x100 = 49;
    m.system_pct_x100 = 50;
    m.idle_pct_x100 = 10000;
    m.iowait_pct_x100 = 951;
    let s = VmStat {
        procs_running: 0,
        procs_blocked: 0,
        mem_info: Meminfo { total: 0, free: 0, buffers: 0, cached: 0 },
        cpu_stats: CpuStats { user: 0, nice: 0, system: 0, idle: 0, iowait: 0 },
        swap_total: 0,
        swap_free: 0,
        context_switches: 0,
        interrupts: 0,
        pgfault: 0,
        pgmajfault: 0,
        oom_kill: 0,
    };
    let line = classify_and_render(&s, &m, false, &Thresholds::standard());
    assert_eq!(line.user_pct, 0);
    assert_eq!(line.system_pct, 1);
    assert_eq!(line.idle_pct, 100);
    assert_eq!(line.iowait_pct, 10);
}
