//! The snapshot reader: parses the textual counter sources — whitespace-
//! delimited lines whose first token is a key — into snapshot structures.
//!
//! Parsing policy: unknown keys are ignored, a line with fewer tokens than its
//! key requires is skipped, and a recognized key whose value token is not a
//! valid number is a hard parse error carrying the key and the raw token.

use vstd::prelude::*;

use crate::snapshot::{CpuStats, Meminfo, VmStat};
use crate::text::{
    ascii_bytes, lines_of, parse_u64, seq_views, split_lines, token_matches, tokenize, tokens_of,
    u64_of_dec,
};

verus! {

/// A recognized key whose value token was not a valid number.
#[derive(Debug, PartialEq, Eq)]
pub struct ParseError {
    /// The key whose value could not be read.
    pub key: Vec<u8>,
    /// The raw token that failed numeric conversion.
    pub token: Vec<u8>,
}

/// The mathematical content of a `ParseError`.
pub ghost struct ParseErrorView {
    pub key: Seq<u8>,
    pub token: Seq<u8>,
}

impl View for ParseError {
    type V = ParseErrorView;

    open spec fn view(&self) -> ParseErrorView {
        ParseErrorView { key: self.key@, token: self.token@ }
    }
}

/// A parse outcome with the error taken to its view.
pub open spec fn res_view<T>(r: Result<T, ParseError>) -> Result<T, ParseErrorView> {
    match r {
        Ok(v) => Ok(v),
        Err(e) => Err(e@),
    }
}

// --- One line, one key ------------------------------------------------------

/// What a line contributes for one single-value key: `Ok(Some(v))` when the
/// line's first token is the key and a numeric token follows; `Ok(None)` when
/// the key does not match or the value token is missing; an error when the
/// value token is not a number.
pub open spec fn line_value_of(toks: Seq<Seq<u8>>, key: Seq<u8>) -> Result<
    Option<u64>,
    ParseErrorView,
> {
    if toks.len() == 0 || toks[0] != key {
        Ok(None)
    } else if toks.len() < 2 {
        Ok(None)
    } else {
        match u64_of_dec(toks[1]) {
            Some(v) => Ok(Some(v)),
            None => Err(ParseErrorView { key: toks[0], token: toks[1] }),
        }
    }
}

fn line_value(toks: &Vec<Vec<u8>>, key: &str) -> (r: Result<Option<u64>, ParseError>)
    requires
        vstd::string::is_ascii(key),
    ensures
        res_view(r) == line_value_of(seq_views(toks@), ascii_bytes(key)),
{
    if toks.len() == 0 {
        return Ok(None);
    }
    if !token_matches(toks[0].as_slice(), key) {
        return Ok(None);
    }
    if toks.len() < 2 {
        return Ok(None);
    }
    match parse_u64(toks[1].as_slice()) {
        Some(v) => Ok(Some(v)),
        None => Err(ParseError { key: toks[0].clone(), token: toks[1].clone() }),
    }
}

// --- The memory source ------------------------------------------------------

/// The effect of one line's tokens on the memory fields.
pub open spec fn mem_step(toks: Seq<Seq<u8>>, m: Meminfo) -> Result<Meminfo, ParseErrorView> {
    match line_value_of(toks, ascii_bytes("MemTotal:")) {
        Err(e) => Err(e),
        Ok(Some(v)) => Ok(Meminfo { total: v, ..m }),
        Ok(None) => match line_value_of(toks, ascii_bytes("MemFree:")) {
            Err(e) => Err(e),
            Ok(Some(v)) => Ok(Meminfo { free: v, ..m }),
            Ok(None) => match line_value_of(toks, ascii_bytes("Buffers:")) {
                Err(e) => Err(e),
                Ok(Some(v)) => Ok(Meminfo { buffers: v, ..m }),
                Ok(None) => match line_value_of(toks, ascii_bytes("Cached:")) {
                    Err(e) => Err(e),
                    Ok(Some(v)) => Ok(Meminfo { cached: v, ..m }),
                    Ok(None) => Ok(m),
                },
            },
        },
    }
}

/// The memory fields after a sequence of lines, starting from `m`.
pub open spec fn mem_fold(ls: Seq<Seq<u8>>, m: Meminfo) -> Result<Meminfo, ParseErrorView>
    decreases ls.len(),
{
    if ls.len() == 0 {
        Ok(m)
    } else {
        match mem_step(tokens_of(ls[0]), m) {
            Ok(m2) => mem_fold(ls.drop_first(), m2),
            Err(e) => Err(e),
        }
    }
}

/// What the memory source means: each recognized key's last well-formed line
/// wins; a field never seen stays 0.
pub open spec fn meminfo_of(s: Seq<u8>) -> Result<Meminfo, ParseErrorView> {
    mem_fold(lines_of(s), Meminfo { total: 0, free: 0, buffers: 0, cached: 0 })
}

fn mem_apply(toks: &Vec<Vec<u8>>, m: Meminfo) -> (r: Result<Meminfo, ParseError>)
    ensures
        res_view(r) == mem_step(seq_views(toks@), m),
{
    proof {
        reveal_strlit("MemTotal:");
        reveal_strlit("MemFree:");
        reveal_strlit("Buffers:");
        reveal_strlit("Cached:");
    }
    match line_value(toks, "MemTotal:") {
        Err(e) => {
            return Err(e);
        },
        Ok(Some(v)) => {
            return Ok(Meminfo { total: v, ..m });
        },
        Ok(None) => {},
    }
    match line_value(toks, "MemFree:") {
        Err(e) => {
            return Err(e);
        },
        Ok(Some(v)) => {
            return Ok(Meminfo { free: v, ..m });
        },
        Ok(None) => {},
    }
    match line_value(toks, "Buffers:") {
        Err(e) => {
            return Err(e);
        },
        Ok(Some(v)) => {
            return Ok(Meminfo { buffers: v, ..m });
        },
        Ok(None) => {},
    }
    match line_value(toks, "Cached:") {
        Err(e) => {
            return Err(e);
        },
        Ok(Some(v)) => {
            return Ok(Meminfo { cached: v, ..m });
        },
        Ok(None) => {},
    }
    Ok(m)
}

/// Parses the memory source: keys `MemTotal:`, `MemFree:`, `Buffers:` and
/// `Cached:`, each followed by an amount in kibibytes.
pub fn parse_meminfo(content: &[u8]) -> (r: Result<Meminfo, ParseError>)
    ensures
        res_view(r) == meminfo_of(content@),
{
    let lines = split_lines(content);
    let mut m = Meminfo { total: 0, free: 0, buffers: 0, cached: 0 };
    let mut i: usize = 0;
    proof {
        assert(lines_of(content@).skip(0) =~= lines_of(content@));
    }
    while i < lines.len()
        invariant
            i <= lines@.len(),
            seq_views(lines@) == lines_of(content@),
            mem_fold(lines_of(content@).skip(i as int), m) == meminfo_of(content@),
        decreases lines@.len() - i,
    {
        let ghost ls = lines_of(content@);
        let ghost m0 = m;
        let toks = tokenize(lines[i].as_slice());
        proof {
            assert(ls[i as int] == seq_views(lines@)[i as int]);
            assert(ls.skip(i as int)[0] == ls[i as int]);
            assert(ls.skip(i as int).drop_first() =~= ls.skip(i + 1));
        }
        match mem_apply(&toks, m) {
            Ok(m2) => {
                m = m2;
            },
            Err(e) => {
                proof {
                    assert(mem_fold(ls.skip(i as int), m0) == Err::<Meminfo, ParseErrorView>(e@));
                }
                return Err(e);
            },
        }
        i = i + 1;
    }
    proof {
        assert(lines_of(content@).skip(i as int) =~= Seq::<Seq<u8>>::empty());
    }
    Ok(m)
}

// --- The swap keys of the memory source --------------------------------------

/// The effect of one line's tokens on the pair (swap total, swap free).
pub open spec fn swap_step(toks: Seq<Seq<u8>>, sw: (u64, u64)) -> Result<
    (u64, u64),
    ParseErrorView,
> {
    match line_value_of(toks, ascii_bytes("SwapTotal:")) {
        Err(e) => Err(e),
        Ok(Some(v)) => Ok((v, sw.1)),
        Ok(None) => match line_value_of(toks, ascii_bytes("SwapFree:")) {
            Err(e) => Err(e),
            Ok(Some(v)) => Ok((sw.0, v)),
            Ok(None) => Ok(sw),
        },
    }
}

pub open spec fn swap_fold(ls: Seq<Seq<u8>>, sw: (u64, u64)) -> Result<(u64, u64), ParseErrorView>
    decreases ls.len(),
{
    if ls.len() == 0 {
        Ok(sw)
    } else {
        match swap_step(tokens_of(ls[0]), sw) {
            Ok(sw2) => swap_fold(ls.drop_first(), sw2),
            Err(e) => Err(e),
        }
    }
}

/// The pair (swap total, swap free) that the memory source reports.
pub open spec fn swap_of(s: Seq<u8>) -> Result<(u64, u64), ParseErrorView> {
    swap_fold(lines_of(s), (0u64, 0u64))
}

fn swap_apply(toks: &Vec<Vec<u8>>, sw: (u64, u64)) -> (r: Result<(u64, u64), ParseError>)
    ensures
        res_view(r) == swap_step(seq_views(toks@), sw),
{
    proof {
        reveal_strlit("SwapTotal:");
        reveal_strlit("SwapFree:");
    }
    match line_value(toks, "SwapTotal:") {
        Err(e) => {
            return Err(e);
        },
        Ok(Some(v)) => {
            return Ok((v, sw.1));
        },
        Ok(None) => {},
    }
    match line_value(toks, "SwapFree:") {
        Err(e) => {
            return Err(e);
        },
        Ok(Some(v)) => {
            return Ok((sw.0, v));
        },
        Ok(None) => {},
    }
    Ok(sw)
}

/// Parses the swap keys of the memory source: `SwapTotal:` and `SwapFree:`,
/// each followed by an amount in kibibytes.
pub fn parse_swap(content: &[u8]) -> (r: Result<(u64, u64), ParseError>)
    ensures
        res_view(r) == swap_of(content@),
{
    let lines = split_lines(content);
    let mut sw: (u64, u64) = (0, 0);
    let mut i: usize = 0;
    proof {
        assert(lines_of(content@).skip(0) =~= lines_of(content@));
    }
    while i < lines.len()
        invariant
            i <= lines@.len(),
            seq_views(lines@) == lines_of(content@),
            swap_fold(lines_of(content@).skip(i as int), sw) == swap_of(content@),
        decreases lines@.len() - i,
    {
        let ghost ls = lines_of(content@);
        let ghost sw0 = sw;
        let toks = tokenize(lines[i].as_slice());
        proof {
            assert(ls[i as int] == seq_views(lines@)[i as int]);
            assert(ls.skip(i as int)[0] == ls[i as int]);
            assert(ls.skip(i as int).drop_first() =~= ls.skip(i + 1));
        }
        match swap_apply(&toks, sw) {
            Ok(sw2) => {
                sw = sw2;
            },
            Err(e) => {
                proof {
                    assert(swap_fold(ls.skip(i as int), sw0) == Err::<
                        (u64, u64),
                        ParseErrorView,
                    >(e@));
                }
                return Err(e);
            },
        }
        i = i + 1;
    }
    proof {
        assert(lines_of(content@).skip(i as int) =~= Seq::<Seq<u8>>::empty());
    }
    Ok(sw)
}

// --- The activity source ------------------------------------------------------

/// Cumulative activity counters: total page faults, major page faults, and
/// out-of-memory kills.
pub type Activity = (u64, u64, u64);

/// The effect of one line's tokens on (pgfault, pgmajfault, oom_kill).
pub open spec fn activity_step(toks: Seq<Seq<u8>>, a: Activity) -> Result<
    Activity,
    ParseErrorView,
> {
    match line_value_of(toks, ascii_bytes("pgfault")) {
        Err(e) => Err(e),
        Ok(Some(v)) => Ok((v, a.1, a.2)),
        Ok(None) => match line_value_of(toks, ascii_bytes("pgmajfault")) {
            Err(e) => Err(e),
            Ok(Some(v)) => Ok((a.0, v, a.2)),
            Ok(None) => match line_value_of(toks, ascii_bytes("oom_kill")) {
                Err(e) => Err(e),
                Ok(Some(v)) => Ok((a.0, a.1, v)),
                Ok(None) => Ok(a),
            },
        },
    }
}

pub open spec fn activity_fold(ls: Seq<Seq<u8>>, a: Activity) -> Result<Activity, ParseErrorView>
    decreases ls.len(),
{
    if ls.len() == 0 {
        Ok(a)
    } else {
        match activity_step(tokens_of(ls[0]), a) {
            Ok(a2) => activity_fold(ls.drop_first(), a2),
            Err(e) => Err(e),
        }
    }
}

/// The triple (pgfault, pgmajfault, oom_kill) that the activity source reports.
pub open spec fn activity_of(s: Seq<u8>) -> Result<Activity, ParseErrorView> {
    activity_fold(lines_of(s), (0u64, 0u64, 0u64))
}

fn activity_apply(toks: &Vec<Vec<u8>>, a: Activity) -> (r: Result<Activity, ParseError>)
    ensures
        res_view(r) == activity_step(seq_views(toks@), a),
{
    proof {
        reveal_strlit("pgfault");
        reveal_strlit("pgmajfault");
        reveal_strlit("oom_kill");
    }
    match line_value(toks, "pgfault") {
        Err(e) => {
            return Err(e);
        },
        Ok(Some(v)) => {
            return Ok((v, a.1, a.2));
        },
        Ok(None) => {},
    }
    match line_value(toks, "pgmajfault") {
        Err(e) => {
            return Err(e);
        },
        Ok(Some(v)) => {
            return Ok((a.0, v, a.2));
        },
        Ok(None) => {},
    }
    match line_value(toks, "oom_kill") {
        Err(e) => {
            return Err(e);
        },
        Ok(Some(v)) => {
            return Ok((a.0, a.1, v));
        },
        Ok(None) => {},
    }
    Ok(a)
}

/// Parses the virtual-memory activity source: keys `pgfault`, `pgmajfault`
/// and `oom_kill`, each followed by one cumulative count.
pub fn parse_activity(content: &[u8]) -> (r: Result<Activity, ParseError>)
    ensures
        res_view(r) == activity_of(content@),
{
    let lines = split_lines(content);
    let mut a: Activity = (0, 0, 0);
    let mut i: usize = 0;
    proof {
        assert(lines_of(content@).skip(0) =~= lines_of(content@));
    }
    while i < lines.len()
        invariant
            i <= lines@.len(),
            seq_views(lines@) == lines_of(content@),
            activity_fold(lines_of(content@).skip(i as int), a) == activity_of(content@),
        decreases lines@.len() - i,
    {
        let ghost ls = lines_of(content@);
        let ghost a0 = a;
        let toks = tokenize(lines[i].as_slice());
        proof {
            assert(ls[i as int] == seq_views(lines@)[i as int]);
            assert(ls.skip(i as int)[0] == ls[i as int]);
            assert(ls.skip(i as int).drop_first() =~= ls.skip(i + 1));
        }
        match activity_apply(&toks, a) {
            Ok(a2) => {
                a = a2;
            },
            Err(e) => {
                proof {
                    assert(activity_fold(ls.skip(i as int), a0) == Err::<
                        Activity,
                        ParseErrorView,
                    >(e@));
                }
                return Err(e);
            },
        }
        i = i + 1;
    }
    proof {
        assert(lines_of(content@).skip(i as int) =~= Seq::<Seq<u8>>::empty());
    }
    Ok(a)
}

// --- The CPU/scheduler source -------------------------------------------------

/// Everything the CPU/scheduler source reports: the CPU time categories, two
/// cumulative counters, and the two instantaneous process gauges.
#[derive(Clone, Copy, Debug, PartialEq, Eq, Structural)]
pub struct StatCounters {
    pub cpu_stats: CpuStats,
    pub context_switches: u64,
    pub interrupts: u64,
    pub procs_running: u64,
    pub procs_blocked: u64,
}

/// What a line contributes for the `cpu` key: the five time categories, read
/// in order from the five tokens after the key; a line with fewer than five
/// value tokens is skipped; the first non-numeric value token is an error.
pub open spec fn cpu_line_of(toks: Seq<Seq<u8>>) -> Result<Option<CpuStats>, ParseErrorView> {
    if toks.len() == 0 || toks[0] != ascii_bytes("cpu") {
        Ok(None)
    } else if toks.len() < 6 {
        Ok(None)
    } else {
        match u64_of_dec(toks[1]) {
            None => Err(ParseErrorView { key: toks[0], token: toks[1] }),
            Some(user) => match u64_of_dec(toks[2]) {
                None => Err(ParseErrorView { key: toks[0], token: toks[2] }),
                Some(nice) => match u64_of_dec(toks[3]) {
                    None => Err(ParseErrorView { key: toks[0], token: toks[3] }),
                    Some(system) => match u64_of_dec(toks[4]) {
                        None => Err(ParseErrorView { key: toks[0], token: toks[4] }),
                        Some(idle) => match u64_of_dec(toks[5]) {
                            None => Err(ParseErrorView { key: toks[0], token: toks[5] }),
                            Some(iowait) => Ok(
                                Some(CpuStats { user, nice, system, idle, iowait }),
                            ),
                        },
                    },
                },
            },
        }
    }
}

fn cpu_line(toks: &Vec<Vec<u8>>) -> (r: Result<Option<CpuStats>, ParseError>)
    ensures
        res_view(r) == cpu_line_of(seq_views(toks@)),
{
    proof {
        reveal_strlit("cpu");
    }
    if toks.len() == 0 {
        return Ok(None);
    }
    if !token_matches(toks[0].as_slice(), "cpu") {
        return Ok(None);
    }
    if toks.len() < 6 {
        return Ok(None);
    }
    let user = match parse_u64(toks[1].as_slice()) {
        Some(v) => v,
        None => {
            return Err(ParseError { key: toks[0].clone(), token: toks[1].clone() });
        },
    };
    let nice = match parse_u64(toks[2].as_slice()) {
        Some(v) => v,
        None => {
            return Err(ParseError { key: toks[0].clone(), token: toks[2].clone() });
        },
    };
    let system = match parse_u64(toks[3].as_slice()) {
        Some(v) => v,
        None => {
            return Err(ParseError { key: toks[0].clone(), token: toks[3].clone() });
        },
    };
    let idle = match parse_u64(toks[4].as_slice()) {
        Some(v) => v,
        None => {
            return Err(ParseError { key: toks[0].clone(), token: toks[4].clone() });
        },
    };
    let iowait = match parse_u64(toks[5].as_slice()) {
        Some(v) => v,
        None => {
            return Err(ParseError { key: toks[0].clone(), token: toks[5].clone() });
        },
    };
    Ok(Some(CpuStats { user, nice, system, idle, iowait }))
}

/// The effect of one line's tokens on the CPU/scheduler counters.
pub open spec fn stat_step(toks: Seq<Seq<u8>>, st: StatCounters) -> Result<
    StatCounters,
    ParseErrorView,
> {
    match cpu_line_of(toks) {
        Err(e) => Err(e),
        Ok(Some(c)) => Ok(StatCounters { cpu_stats: c, ..st }),
        Ok(None) => match line_value_of(toks, ascii_bytes("ctxt")) {
            Err(e) => Err(e),
            Ok(Some(v)) => Ok(StatCounters { context_switches: v, ..st }),
            Ok(None) => match line_value_of(toks, ascii_bytes("intr")) {
                Err(e) => Err(e),
                Ok(Some(v)) => Ok(StatCounters { interrupts: v, ..st }),
                Ok(None) => match line_value_of(toks, ascii_bytes("procs_running")) {
                    Err(e) => Err(e),
                    Ok(Some(v)) => Ok(StatCounters { procs_running: v, ..st }),
                    Ok(None) => match line_value_of(toks, ascii_bytes("procs_blocked")) {
                        Err(e) => Err(e),
                        Ok(Some(v)) => Ok(StatCounters { procs_blocked: v, ..st }),
                        Ok(None) => Ok(st),
                    },
                },
            },
        },
    }
}

pub open spec fn stat_fold(ls: Seq<Seq<u8>>, st: StatCounters) -> Result<
    StatCounters,
    ParseErrorView,
>
    decreases ls.len(),
{
    if ls.len() == 0 {
        Ok(st)
    } else {
        match stat_step(tokens_of(ls[0]), st) {
            Ok(st2) => stat_fold(ls.drop_first(), st2),
            Err(e) => Err(e),
        }
    }
}

/// What the CPU/scheduler source means, starting from all-zero counters.
pub open spec fn stat_of(s: Seq<u8>) -> Result<StatCounters, ParseErrorView> {
    stat_fold(
        lines_of(s),
        StatCounters {
            cpu_stats: CpuStats { user: 0, nice: 0, system: 0, idle: 0, iowait: 0 },
            context_switches: 0,
            interrupts: 0,
            procs_running: 0,
            procs_blocked: 0,
        },
    )
}

fn stat_apply(toks: &Vec<Vec<u8>>, st: StatCounters) -> (r: Result<StatCounters, ParseError>)
    ensures
        res_view(r) == stat_step(seq_views(toks@), st),
{
    proof {
        reveal_strlit("ctxt");
        reveal_strlit("intr");
        reveal_strlit("procs_running");
        reveal_strlit("procs_blocked");
    }
    match cpu_line(toks) {
        Err(e) => {
            return Err(e);
        },
        Ok(Some(c)) => {
            return Ok(StatCounters { cpu_stats: c, ..st });
        },
        Ok(None) => {},
    }
    match line_value(toks, "ctxt") {
        Err(e) => {
            return Err(e);
        },
        Ok(Some(v)) => {
            return Ok(StatCounters { context_switches: v, ..st });
        },
        Ok(None) => {},
    }
    match line_value(toks, "intr") {
        Err(e) => {
            return Err(e);
        },
        Ok(Some(v)) => {
            return Ok(StatCounters { interrupts: v, ..st });
        },
        Ok(None) => {},
    }
    match line_value(toks, "procs_running") {
        Err(e) => {
            return Err(e);
        },
        Ok(Some(v)) => {
            return Ok(StatCounters { procs_running: v, ..st });
        },
        Ok(None) => {},
    }
    match line_value(toks, "procs_blocked") {
        Err(e) => {
            return Err(e);
        },
        Ok(Some(v)) => {
            return Ok(StatCounters { procs_blocked: v, ..st });
        },
        Ok(None) => {},
    }
    Ok(st)
}

/// Parses the CPU/scheduler source: the `cpu` line's five leading time
/// categories, and the `ctxt`, `intr`, `procs_running` and `procs_blocked`
/// single-value keys.
pub fn parse_stat(content: &[u8]) -> (r: Result<StatCounters, ParseError>)
    ensures
        res_view(r) == stat_of(content@),
{
    let lines = split_lines(content);
    let mut st = StatCounters {
        cpu_stats: CpuStats { user: 0, nice: 0, system: 0, idle: 0, iowait: 0 },
        context_switches: 0,
        interrupts: 0,
        procs_running: 0,
        procs_blocked: 0,
    };
    let mut i: usize = 0;
    proof {
        assert(lines_of(content@).skip(0) =~= lines_of(content@));
    }
    while i < lines.len()
        invariant
            i <= lines@.len(),
            seq_views(lines@) == lines_of(content@),
            stat_fold(lines_of(content@).skip(i as int), st) == stat_of(content@),
        decreases lines@.len() - i,
    {
        let ghost ls = lines_of(content@);
        let ghost st0 = st;
        let toks = tokenize(lines[i].as_slice());
        proof {
            assert(ls[i as int] == seq_views(lines@)[i as int]);
            assert(ls.skip(i as int)[0] == ls[i as int]);
            assert(ls.skip(i as int).drop_first() =~= ls.skip(i + 1));
        }
        match stat_apply(&toks, st) {
            Ok(st2) => {
                st = st2;
            },
            Err(e) => {
                proof {
                    assert(stat_fold(ls.skip(i as int), st0) == Err::<
                        StatCounters,
                        ParseErrorView,
                    >(e@));
                }
                return Err(e);
            },
        }
        i = i + 1;
    }
    proof {
        assert(lines_of(content@).skip(i as int) =~= Seq::<Seq<u8>>::empty());
    }
    Ok(st)
}

// --- The whole snapshot --------------------------------------------------------

/// What a whole snapshot means, read from the three sources in the order
/// memory fields, CPU/scheduler counters, swap keys, activity counters; the
/// first parse error wins.
pub open spec fn vmstat_of(mem: Seq<u8>, stat: Seq<u8>, vm: Seq<u8>) -> Result<
    VmStat,
    ParseErrorView,
> {
    match meminfo_of(mem) {
        Err(e) => Err(e),
        Ok(mi) => match stat_of(stat) {
            Err(e) => Err(e),
            Ok(st) => match swap_of(mem) {
                Err(e) => Err(e),
                Ok(sw) => match activity_of(vm) {
                    Err(e) => Err(e),
                    Ok(a) => Ok(
                        VmStat {
                            procs_running: st.procs_running,
                            procs_blocked: st.procs_blocked,
                            mem_info: mi,
                            cpu_stats: st.cpu_stats,
                            swap_total: sw.0,
                            swap_free: sw.1,
                            context_switches: st.context_switches,
                            interrupts: st.interrupts,
                            pgfault: a.0,
                            pgmajfault: a.1,
                            oom_kill: a.2,
                        },
                    ),
                },
            },
        },
    }
}

/// Builds a full snapshot from the three textual sources: the memory source
/// (memory and swap keys), the CPU/scheduler source, and the virtual-memory
/// activity source.
pub fn parse_vmstat(mem: &[u8], stat: &[u8], vm: &[u8]) -> (r: Result<VmStat, ParseError>)
    ensures
        res_view(r) == vmstat_of(mem@, stat@, vm@),
{
    let mi = match parse_meminfo(mem) {
        Ok(v) => v,
        Err(e) => {
            return Err(e);
        },
    };
    let st = match parse_stat(stat) {
        Ok(v) => v,
        Err(e) => {
            return Err(e);
        },
    };
    let sw = match parse_swap(mem) {
        Ok(v) => v,
        Err(e) => {
            return Err(e);
        },
    };
    let a = match parse_activity(vm) {
        Ok(v) => v,
        Err(e) => {
            return Err(e);
        },
    };
    Ok(
        VmStat {
            procs_running: st.procs_running,
            procs_blocked: st.procs_blocked,
            mem_info: mi,
            cpu_stats: st.cpu_stats,
            swap_total: sw.0,
            swap_free: sw.1,
            context_switches: st.context_switches,
            interrupts: st.interrupts,
            pgfault: a.0,
            pgmajfault: a.1,
            oom_kill: a.2,
        },
    )
}

} // verus!
