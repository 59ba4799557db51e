//! Point-in-time snapshots of the kernel counters and gauges that the
//! delta engine compares across ticks.

use vstd::prelude::*;

verus! {

/// Memory amounts, in kibibytes.
#[derive(Clone, Copy, Debug, PartialEq, Eq, Structural)]
pub struct Meminfo {
    pub total: u64,
    pub free: u64,
    pub buffers: u64,
    pub cached: u64,
}

/// Cumulative CPU time spent in each accounting category since boot.
#[derive(Clone, Copy, Debug, PartialEq, Eq, Structural)]
pub struct CpuStats {
    pub user: u64,
    pub nice: u64,
    pub system: u64,
    pub idle: u64,
    pub iowait: u64,
}

/// One full system snapshot: memory amounts, CPU times, cumulative activity
/// counters, and the two instantaneous process gauges.
#[derive(Clone, Copy, Debug, PartialEq, Eq, Structural)]
pub struct VmStat {
    pub procs_running: u64,
    pub procs_blocked: u64,
    pub mem_info: Meminfo,
    pub cpu_stats: CpuStats,
    pub swap_total: u64,
    pub swap_free: u64,
    pub context_switches: u64,
    pub interrupts: u64,
    pub pgfault: u64,
    pub pgmajfault: u64,
    pub oom_kill: u64,
}

} // verus!
