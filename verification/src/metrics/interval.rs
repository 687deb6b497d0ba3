//! Interval mode: a report whose enabled slots are refreshed every cycle.
//!
//! The enabled/disabled shape of a report is fixed when it is built from
//! the configuration flags; updates only overwrite the enabled slots.

use vstd::prelude::*;
use crate::metrics::{Snapshot, used_disk_bytes, get_used_disk_space, lemma_used_le_total_disk_bytes};
use crate::parse_config::{Config, ConfigMode};

verus! {

/// One cycle's report: a slot per metric, absent when the flag was off.
///
/// Memory and swap are kilobytes, the CPU figures hundredths of a percent,
/// the load averages hundredths, the uptime seconds, the disk usage whole
/// megabytes.
#[derive(Debug, PartialEq, Clone)]
pub struct IntervalMetrics {
    /// Currently used RAM.
    pub ram: Option<u64>,
    /// Currently used CPU.
    pub cpu: Option<u32>,
    /// How long the host system has been running.
    pub system_uptime: Option<u64>,
    /// Load average over the past 1, 5 and 15 minutes.
    pub cpu_average: Option<(u64, u64, u64)>,
    /// Currently used disk space.
    pub disk: Option<u64>,
    /// Currently used swap.
    pub swap: Option<u64>,
}

/// The disk usage a snapshot reports, in whole megabytes.
pub open spec fn spec_disk_mb(snap: Snapshot) -> u64 {
    (used_disk_bytes(snap.disks@) / 1_000_000) as u64
}

/// The report built from the interval flags and one snapshot read.
pub open spec fn spec_new_metrics(mode: ConfigMode, snap: Snapshot) -> IntervalMetrics
    recommends
        mode is ConfigInterval,
{
    match mode {
        ConfigMode::ConfigInterval { ram, cpu, system_uptime, cpu_average, disk, swap } => {
            IntervalMetrics {
                ram: if ram {
                    Some(snap.ram_used)
                } else {
                    None
                },
                cpu: if cpu {
                    Some(snap.cpu_usage)
                } else {
                    None
                },
                system_uptime: if system_uptime {
                    Some(snap.uptime)
                } else {
                    None
                },
                cpu_average: if cpu_average {
                    Some((snap.load_one, snap.load_five, snap.load_fifteen))
                } else {
                    None
                },
                disk: if disk {
                    Some(spec_disk_mb(snap))
                } else {
                    None
                },
                swap: if swap {
                    Some(snap.swap_used)
                } else {
                    None
                },
            }
        },
        _ => IntervalMetrics {
            ram: None,
            cpu: None,
            system_uptime: None,
            cpu_average: None,
            disk: None,
            swap: None,
        },
    }
}

/// The report after one update: enabled slots refreshed from the snapshot,
/// disabled slots left absent.
pub open spec fn spec_update_metrics(m: IntervalMetrics, snap: Snapshot) -> IntervalMetrics {
    IntervalMetrics {
        ram: if m.ram is Some {
            Some(snap.ram_used)
        } else {
            None
        },
        cpu: if m.cpu is Some {
            Some(snap.cpu_usage)
        } else {
            None
        },
        system_uptime: if m.system_uptime is Some {
            Some(snap.uptime)
        } else {
            None
        },
        cpu_average: if m.cpu_average is Some {
            Some((snap.load_one, snap.load_five, snap.load_fifteen))
        } else {
            None
        },
        disk: if m.disk is Some {
            Some(spec_disk_mb(snap))
        } else {
            None
        },
        swap: if m.swap is Some {
            Some(snap.swap_used)
        } else {
            None
        },
    }
}

/// Two reports enable exactly the same slots.
pub open spec fn same_shape(a: IntervalMetrics, b: IntervalMetrics) -> bool {
    &&& (a.ram is Some <==> b.ram is Some)
    &&& (a.cpu is Some <==> b.cpu is Some)
    &&& (a.system_uptime is Some <==> b.system_uptime is Some)
    &&& (a.cpu_average is Some <==> b.cpu_average is Some)
    &&& (a.disk is Some <==> b.disk is Some)
    &&& (a.swap is Some <==> b.swap is Some)
}

impl IntervalMetrics {
    /// Builds the report once, fixing for good which slots are enabled.
    pub fn new(config: &Config, snapshot: &Snapshot) -> (m: IntervalMetrics)
        requires
            config.mode is ConfigInterval,
            snapshot.wf(),
        ensures
            m == spec_new_metrics(config.mode, *snapshot),
    {
        match config.mode {
            ConfigMode::ConfigInterval { ram, cpu, system_uptime, cpu_average, disk, swap } => {
                proof {
                    lemma_used_le_total_disk_bytes(snapshot.disks@);
                }
                IntervalMetrics {
                    ram: if ram {
                        Some(snapshot.ram_used)
                    } else {
                        None
                    },
                    cpu: if cpu {
                        Some(snapshot.cpu_usage)
                    } else {
                        None
                    },
                    system_uptime: if system_uptime {
                        Some(snapshot.uptime)
                    } else {
                        None
                    },
                    cpu_average: if cpu_average {
                        Some((snapshot.load_one, snapshot.load_five, snapshot.load_fifteen))
                    } else {
                        None
                    },
                    disk: if disk {
                        Some(get_used_disk_space(&snapshot.disks))
                    } else {
                        None
                    },
                    swap: if swap {
                        Some(snapshot.swap_used)
                    } else {
                        None
                    },
                }
            },
            _ => {
                proof {
                    assert(false);
                }
                IntervalMetrics {
                    ram: None,
                    cpu: None,
                    system_uptime: None,
                    cpu_average: None,
                    disk: None,
                    swap: None,
                }
            },
        }
    }

    /// Refreshes every enabled slot from a fresh snapshot; the shape is kept.
    pub fn update_metrics(&mut self, snapshot: &Snapshot)
        requires
            snapshot.wf(),
        ensures
            *final(self) == spec_update_metrics(*old(self), *snapshot),
    {
        proof {
            lemma_used_le_total_disk_bytes(snapshot.disks@);
        }
        if self.ram.is_some() {
            self.ram = Some(snapshot.ram_used);
        }
        if self.cpu.is_some() {
            self.cpu = Some(snapshot.cpu_usage);
        }
        if self.system_uptime.is_some() {
            self.system_uptime = Some(snapshot.uptime);
        }
        if self.disk.is_some() {
            self.disk = Some(get_used_disk_space(&snapshot.disks));
        }
        if self.swap.is_some() {
            self.swap = Some(snapshot.swap_used);
        }
        if self.cpu_average.is_some() {
            self.cpu_average = Some((snapshot.load_one, snapshot.load_five, snapshot.load_fifteen));
        }
    }
}

/// A newly built report enables a slot exactly where its flag is set.
pub proof fn lemma_new_shape_matches_flags(mode: ConfigMode, snap: Snapshot)
    requires
        mode is ConfigInterval,
    ensures
        spec_new_metrics(mode, snap).ram is Some <==> mode->ram,
        spec_new_metrics(mode, snap).cpu is Some <==> mode->cpu,
        spec_new_metrics(mode, snap).system_uptime is Some <==> mode->system_uptime,
        spec_new_metrics(mode, snap).cpu_average is Some <==> mode->cpu_average,
        spec_new_metrics(mode, snap).disk is Some <==> mode->disk,
        spec_new_metrics(mode, snap).swap is Some <==> mode->swap,
{
}

/// One update never changes which slots are enabled.
pub proof fn lemma_update_preserves_shape(m: IntervalMetrics, snap: Snapshot)
    ensures
        same_shape(m, spec_update_metrics(m, snap)),
{
}

/// The report after a whole run of updates, one per snapshot.
pub open spec fn spec_update_many(m: IntervalMetrics, snaps: Seq<Snapshot>) -> IntervalMetrics
    decreases snaps.len(),
{
    if snaps.len() == 0 {
        m
    } else {
        spec_update_many(spec_update_metrics(m, snaps[0]), snaps.drop_first())
    }
}

/// However many updates run, the enabled-slot shape fixed at construction
/// never changes.
pub proof fn lemma_update_many_preserves_shape(m: IntervalMetrics, snaps: Seq<Snapshot>)
    ensures
        same_shape(m, spec_update_many(m, snaps)),
    decreases snaps.len(),
{
    if snaps.len() > 0 {
        lemma_update_many_preserves_shape(spec_update_metrics(m, snaps[0]), snaps.drop_first());
    }
}

/// A report built from the interval flags enables a slot exactly where its
/// flag is set, and keeps that exact shape through any run of updates.
pub proof fn lemma_report_shape_matches_flags_forever(mode: ConfigMode, first: Snapshot,
    later: Seq<Snapshot>)
    requires
        mode is ConfigInterval,
    ensures
        spec_update_many(spec_new_metrics(mode, first), later).ram is Some <==> mode->ram,
        spec_update_many(spec_new_metrics(mode, first), later).cpu is Some <==> mode->cpu,
        spec_update_many(spec_new_metrics(mode, first), later).system_uptime is Some
            <==> mode->system_uptime,
        spec_update_many(spec_new_metrics(mode, first), later).cpu_average is Some
            <==> mode->cpu_average,
        spec_update_many(spec_new_metrics(mode, first), later).disk is Some <==> mode->disk,
        spec_update_many(spec_new_metrics(mode, first), later).swap is Some <==> mode->swap,
{
    lemma_new_shape_matches_flags(mode, first);
    lemma_update_many_preserves_shape(spec_new_metrics(mode, first), later);
}

} // verus!
