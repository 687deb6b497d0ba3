//! Warn mode: comparing one snapshot against the configured limits.
//!
//! Each cycle recomputes the whole alert batch from scratch, in the fixed
//! order RAM, CPU, disk, swap; a metric alerts exactly when its usage
//! percentage strictly exceeds its non-zero limit.

use vstd::prelude::*;
use vstd::arithmetic::div_mod::{lemma_div_is_ordered, lemma_div_multiples_vanish};
use vstd::arithmetic::mul::{lemma_mul_inequality, lemma_mul_upper_bound};
use crate::metrics::{Snapshot, total_disk_bytes, used_disk_bytes, get_total_disk_space,
    get_used_disk_space, lemma_used_le_total_disk_bytes};
use crate::parse_config::{Config, ConfigMode};

verus! {

/// One metric's threshold breach, carrying the offending usage percentage
/// in hundredths of a percent.
#[derive(Debug, PartialEq, Eq, Structural, Clone, Copy)]
pub enum Warn {
    HighRAM(u64),
    HighCPU(u64),
    HighDisk(u64),
    HighSwap(u64),
}

/// Which metric a check is about.
#[derive(Debug, PartialEq, Eq, Structural, Clone, Copy)]
pub enum MetricType {
    RAM,
    CPU,
    Disk,
    Swap,
}

/// The four limits, in percent, and the warnings of the latest cycle.
/// A limit of 0 means the metric is not monitored.
#[derive(Debug, PartialEq, Clone)]
pub struct WarnMetrics {
    /// RAM limit.
    pub ram: u32,
    /// CPU limit.
    pub cpu: u32,
    /// Limit on disk usage over all disks combined.
    pub disk: u32,
    /// Swap limit.
    pub swap: u32,
    /// The warnings the latest update produced.
    pub warnings: Vec<Warn>,
}

/// The usage strictly exceeds the limit: `used / total * 100 > limit`,
/// stated without division.
pub open spec fn breach(limit: int, total: int, used: int) -> bool {
    total > 0 && used * 100 > limit * total
}

/// The used percentage in hundredths of a percent, truncated.
pub open spec fn percent_of(used: int, total: int) -> int
    recommends
        total > 0,
{
    used * 10000 / total
}

/// The warning for a metric at a given usage percentage.
pub open spec fn warn_of(t: MetricType, bp: int) -> Warn {
    match t {
        MetricType::RAM => Warn::HighRAM(bp as u64),
        MetricType::CPU => Warn::HighCPU(bp as u64),
        MetricType::Disk => Warn::HighDisk(bp as u64),
        MetricType::Swap => Warn::HighSwap(bp as u64),
    }
}

/// One metric's contribution to a cycle's alert batch: one warning when the
/// metric is monitored and breached, none otherwise.
pub open spec fn maybe_warn(limit: u32, total: int, used: int, t: MetricType) -> Seq<Warn> {
    if limit > 0 && breach(limit as int, total, used) {
        seq![warn_of(t, percent_of(used, total))]
    } else {
        Seq::empty()
    }
}

/// All the disks' capacity in whole megabytes.
pub open spec fn spec_disk_total_mb(snap: Snapshot) -> int {
    total_disk_bytes(snap.disks@) / 1_000_000
}

/// The disks' used bytes in whole megabytes.
pub open spec fn spec_disk_used_mb(snap: Snapshot) -> int {
    used_disk_bytes(snap.disks@) / 1_000_000
}

/// The whole alert batch one snapshot produces under the given limits, in
/// the fixed RAM, CPU, disk, swap order.
pub open spec fn expected_warnings(ram_l: u32, cpu_l: u32, disk_l: u32, swap_l: u32,
    snap: Snapshot) -> Seq<Warn> {
    maybe_warn(ram_l, snap.ram_total as int, snap.ram_used as int, MetricType::RAM) + maybe_warn(
        cpu_l,
        10000,
        snap.cpu_usage as int,
        MetricType::CPU,
    ) + maybe_warn(disk_l, spec_disk_total_mb(snap), spec_disk_used_mb(snap), MetricType::Disk)
        + maybe_warn(swap_l, snap.swap_total as int, snap.swap_used as int, MetricType::Swap)
}

/// Checks one metric against its limit.
///
/// With a zero total the metric counts as unused and never warns. On a
/// breach the warning carries the used percentage, truncated to hundredths.
pub fn above_limit(metric_limit: u64, total_metric: u64, used_metric: u64,
    metric_type: MetricType) -> (r: Result<Warn, bool>)
    requires
        used_metric <= total_metric,
    ensures
        breach(metric_limit as int, total_metric as int, used_metric as int) ==> r == Ok::<
            Warn,
            bool,
        >(warn_of(metric_type, percent_of(used_metric as int, total_metric as int))),
        !breach(metric_limit as int, total_metric as int, used_metric as int) ==> r == Err::<
            Warn,
            bool,
        >(false),
{
    if total_metric == 0 {
        return Err(false);
    }
    let lhs: u128 = (used_metric as u128) * 100;
    proof {
        lemma_mul_upper_bound(
            metric_limit as int,
            u64::MAX as int,
            total_metric as int,
            u64::MAX as int,
        );
    }
    let rhs: u128 = (metric_limit as u128) * (total_metric as u128);
    if lhs > rhs {
        let bp_wide: u128 = (used_metric as u128) * 10000 / (total_metric as u128);
        proof {
            lemma_mul_inequality(used_metric as int, total_metric as int, 10000);
            lemma_div_is_ordered(
                used_metric as int * 10000,
                total_metric as int * 10000,
                total_metric as int,
            );
            lemma_div_multiples_vanish(10000, total_metric as int);
            assert(percent_of(used_metric as int, total_metric as int) <= 10000);
        }
        let bp = bp_wide as u64;
        match metric_type {
            MetricType::RAM => Ok(Warn::HighRAM(bp)),
            MetricType::CPU => Ok(Warn::HighCPU(bp)),
            MetricType::Disk => Ok(Warn::HighDisk(bp)),
            MetricType::Swap => Ok(Warn::HighSwap(bp)),
        }
    } else {
        Err(false)
    }
}

impl WarnMetrics {
    /// Takes the four limits over from a warn-mode config; no warnings yet.
    pub fn new(config: &Config) -> (m: WarnMetrics)
        requires
            config.mode is ConfigWarn,
        ensures
            m.ram == config.mode->ram_limit,
            m.cpu == config.mode->cpu_limit,
            m.disk == config.mode->disk_limit,
            m.swap == config.mode->swap_limit,
            m.warnings@ == Seq::<Warn>::empty(),
    {
        match config.mode {
            ConfigMode::ConfigWarn { ram_limit, cpu_limit, disk_limit, swap_limit } => {
                WarnMetrics {
                    ram: ram_limit,
                    cpu: cpu_limit,
                    disk: disk_limit,
                    swap: swap_limit,
                    warnings: Vec::new(),
                }
            },
            _ => {
                proof {
                    assert(false);
                }
                WarnMetrics { ram: 0, cpu: 0, disk: 0, swap: 0, warnings: Vec::new() }
            },
        }
    }

    /// Recomputes the whole alert batch from a fresh snapshot; the limits
    /// are untouched and the previous batch is discarded.
    pub fn update_warns(&mut self, snapshot: &Snapshot)
        requires
            snapshot.wf(),
        ensures
            final(self).ram == old(self).ram,
            final(self).cpu == old(self).cpu,
            final(self).disk == old(self).disk,
            final(self).swap == old(self).swap,
            final(self).warnings@ == expected_warnings(
                old(self).ram,
                old(self).cpu,
                old(self).disk,
                old(self).swap,
                *snapshot,
            ),
    {
        self.warnings.clear();
        let ghost snap = *snapshot;
        let ghost seg_ram = maybe_warn(self.ram, snap.ram_total as int, snap.ram_used as int,
            MetricType::RAM);
        let ghost seg_cpu = maybe_warn(self.cpu, 10000, snap.cpu_usage as int, MetricType::CPU);
        let ghost seg_disk = maybe_warn(self.disk, spec_disk_total_mb(snap),
            spec_disk_used_mb(snap), MetricType::Disk);
        let ghost seg_swap = maybe_warn(self.swap, snap.swap_total as int, snap.swap_used as int,
            MetricType::Swap);
        // Check system RAM
        if self.ram > 0 {
            let limit = above_limit(self.ram as u64, snapshot.ram_total, snapshot.ram_used,
                MetricType::RAM);
            if let Ok(warn) = limit {
                self.warnings.push(warn);
            }
        }
        proof {
            assert(self.warnings@ =~= seg_ram);
        }
        // Check system CPU
        if self.cpu > 0 {
            let limit = above_limit(self.cpu as u64, 10000, snapshot.cpu_usage as u64,
                MetricType::CPU);
            if let Ok(warn) = limit {
                self.warnings.push(warn);
            }
        }
        proof {
            assert(self.warnings@ =~= seg_ram + seg_cpu);
        }
        // Check system disk space
        if self.disk > 0 {
            proof {
                lemma_used_le_total_disk_bytes(snapshot.disks@);
                lemma_div_is_ordered(
                    used_disk_bytes(snapshot.disks@),
                    total_disk_bytes(snapshot.disks@),
                    1_000_000,
                );
            }
            let disk_total = get_total_disk_space(&snapshot.disks);
            let disk_used = get_used_disk_space(&snapshot.disks);
            let limit = above_limit(self.disk as u64, disk_total, disk_used, MetricType::Disk);
            if let Ok(warn) = limit {
                self.warnings.push(warn);
            }
        }
        proof {
            assert(self.warnings@ =~= seg_ram + seg_cpu + seg_disk);
        }
        // Check system swap
        if self.swap > 0 {
            let limit = above_limit(self.swap as u64, snapshot.swap_total, snapshot.swap_used,
                MetricType::Swap);
            if let Ok(warn) = limit {
                self.warnings.push(warn);
            }
        }
        proof {
            assert(self.warnings@ =~= seg_ram + seg_cpu + seg_disk + seg_swap);
        }
    }
}

/// Whether a warning is the given metric's.
pub open spec fn is_warn_for(w: Warn, t: MetricType) -> bool {
    match t {
        MetricType::RAM => w is HighRAM,
        MetricType::CPU => w is HighCPU,
        MetricType::Disk => w is HighDisk,
        MetricType::Swap => w is HighSwap,
    }
}

/// Whether the batch holds a warning for the given metric.
pub open spec fn has_warn_for(ws: Seq<Warn>, t: MetricType) -> bool {
    exists|i: int| 0 <= i < ws.len() && is_warn_for(ws[i], t)
}

/// A cycle alerts on a metric exactly when the metric is monitored and its
/// usage strictly exceeds its limit, and the alert carries the truncated
/// used percentage; in particular an exactly-met limit never alerts.
pub proof fn lemma_alert_iff_over_limit(ram_l: u32, cpu_l: u32, disk_l: u32, swap_l: u32,
    snap: Snapshot)
    ensures
        has_warn_for(expected_warnings(ram_l, cpu_l, disk_l, swap_l, snap), MetricType::RAM) <==> (
        ram_l > 0 && breach(ram_l as int, snap.ram_total as int, snap.ram_used as int)),
        has_warn_for(expected_warnings(ram_l, cpu_l, disk_l, swap_l, snap), MetricType::CPU) <==> (
        cpu_l > 0 && breach(cpu_l as int, 10000, snap.cpu_usage as int)),
        has_warn_for(expected_warnings(ram_l, cpu_l, disk_l, swap_l, snap), MetricType::Disk) <==> (
        disk_l > 0 && breach(disk_l as int, spec_disk_total_mb(snap), spec_disk_used_mb(snap))),
        has_warn_for(expected_warnings(ram_l, cpu_l, disk_l, swap_l, snap), MetricType::Swap) <==> (
        swap_l > 0 && breach(swap_l as int, snap.swap_total as int, snap.swap_used as int)),
        ram_l > 0 && breach(ram_l as int, snap.ram_total as int, snap.ram_used as int)
            ==> expected_warnings(ram_l, cpu_l, disk_l, swap_l, snap).contains(
            warn_of(MetricType::RAM, percent_of(snap.ram_used as int, snap.ram_total as int)),
        ),
        cpu_l > 0 && breach(cpu_l as int, 10000, snap.cpu_usage as int) ==> expected_warnings(
            ram_l,
            cpu_l,
            disk_l,
            swap_l,
            snap,
        ).contains(warn_of(MetricType::CPU, percent_of(snap.cpu_usage as int, 10000))),
        disk_l > 0 && breach(disk_l as int, spec_disk_total_mb(snap), spec_disk_used_mb(snap))
            ==> expected_warnings(ram_l, cpu_l, disk_l, swap_l, snap).contains(
            warn_of(MetricType::Disk, percent_of(spec_disk_used_mb(snap), spec_disk_total_mb(snap))),
        ),
        swap_l > 0 && breach(swap_l as int, snap.swap_total as int, snap.swap_used as int)
            ==> expected_warnings(ram_l, cpu_l, disk_l, swap_l, snap).contains(
            warn_of(MetricType::Swap, percent_of(snap.swap_used as int, snap.swap_total as int)),
        ),
{
    let ws = expected_warnings(ram_l, cpu_l, disk_l, swap_l, snap);
    let a = maybe_warn(ram_l, snap.ram_total as int, snap.ram_used as int, MetricType::RAM);
    let b = maybe_warn(cpu_l, 10000, snap.cpu_usage as int, MetricType::CPU);
    let c = maybe_warn(disk_l, spec_disk_total_mb(snap), spec_disk_used_mb(snap),
        MetricType::Disk);
    let d = maybe_warn(swap_l, snap.swap_total as int, snap.swap_used as int, MetricType::Swap);
    assert(ws == a + b + c + d);
    lemma_warn_concat_membership(a, b, c, d);
    if a.len() > 0 {
        assert(ws[0] == a[0]);
        assert(ws.contains(a[0]));
    }
    if b.len() > 0 {
        assert(ws[a.len() as int] == b[0]);
        assert(ws.contains(b[0]));
    }
    if c.len() > 0 {
        assert(ws[a.len() + b.len() as int] == c[0]);
        assert(ws.contains(c[0]));
    }
    if d.len() > 0 {
        assert(ws[a.len() + b.len() + c.len() as int] == d[0]);
        assert(ws.contains(d[0]));
    }
}

/// In a batch laid out RAM, CPU, disk, swap, a metric's warning occurs
/// exactly when that metric's own segment is non-empty.
proof fn lemma_warn_concat_membership(a: Seq<Warn>, b: Seq<Warn>, c: Seq<Warn>, d: Seq<Warn>)
    requires
        forall|j: int| 0 <= j < a.len() ==> is_warn_for(#[trigger] a[j], MetricType::RAM),
        forall|j: int| 0 <= j < b.len() ==> is_warn_for(#[trigger] b[j], MetricType::CPU),
        forall|j: int| 0 <= j < c.len() ==> is_warn_for(#[trigger] c[j], MetricType::Disk),
        forall|j: int| 0 <= j < d.len() ==> is_warn_for(#[trigger] d[j], MetricType::Swap),
    ensures
        has_warn_for(a + b + c + d, MetricType::RAM) <==> a.len() > 0,
        has_warn_for(a + b + c + d, MetricType::CPU) <==> b.len() > 0,
        has_warn_for(a + b + c + d, MetricType::Disk) <==> c.len() > 0,
        has_warn_for(a + b + c + d, MetricType::Swap) <==> d.len() > 0,
{
    let ws = a + b + c + d;
    assert forall|i: int| 0 <= i < ws.len() implies (if i < a.len() {
        is_warn_for(ws[i], MetricType::RAM)
    } else if i < a.len() + b.len() {
        is_warn_for(ws[i], MetricType::CPU)
    } else if i < a.len() + b.len() + c.len() {
        is_warn_for(ws[i], MetricType::Disk)
    } else {
        is_warn_for(ws[i], MetricType::Swap)
    }) by {
        if i < a.len() {
            assert(ws[i] == a[i]);
        } else if i < a.len() + b.len() {
            assert(ws[i] == b[i - a.len()]);
        } else if i < a.len() + b.len() + c.len() {
            assert(ws[i] == c[i - a.len() - b.len()]);
        } else {
            assert(ws[i] == d[i - a.len() - b.len() - c.len()]);
        }
    }
    if a.len() > 0 {
        assert(ws[0] == a[0]);
        assert(has_warn_for(ws, MetricType::RAM));
    }
    if b.len() > 0 {
        assert(ws[a.len() as int] == b[0]);
        assert(has_warn_for(ws, MetricType::CPU));
    }
    if c.len() > 0 {
        assert(ws[a.len() + b.len() as int] == c[0]);
        assert(has_warn_for(ws, MetricType::Disk));
    }
    if d.len() > 0 {
        assert(ws[a.len() + b.len() + c.len() as int] == d[0]);
        assert(has_warn_for(ws, MetricType::Swap));
    }
}

/// A metric whose snapshot total is zero never alerts, whatever its limit:
/// an empty resource counts as unused.
pub proof fn lemma_zero_total_never_alerts(ram_l: u32, cpu_l: u32, disk_l: u32, swap_l: u32,
    snap: Snapshot)
    ensures
        snap.ram_total == 0 ==> !has_warn_for(
            expected_warnings(ram_l, cpu_l, disk_l, swap_l, snap),
            MetricType::RAM,
        ),
        spec_disk_total_mb(snap) == 0 ==> !has_warn_for(
            expected_warnings(ram_l, cpu_l, disk_l, swap_l, snap),
            MetricType::Disk,
        ),
        snap.swap_total == 0 ==> !has_warn_for(
            expected_warnings(ram_l, cpu_l, disk_l, swap_l, snap),
            MetricType::Swap,
        ),
{
    lemma_alert_iff_over_limit(ram_l, cpu_l, disk_l, swap_l, snap);
}

} // verus!
