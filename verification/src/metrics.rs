//! Metric collection against an abstract system snapshot.
//!
//! The OS counters are read outside the library and handed in as one
//! `Snapshot` value per cycle; percentages are carried as integers in
//! hundredths of a percent, so a CPU load of 13.37% is the value 1337.

use vstd::prelude::*;

pub mod interval;
pub mod warn;

verus! {

/// One mounted disk's capacity and free room, in bytes.
#[derive(Debug, Clone, Copy, PartialEq, Eq, Structural)]
pub struct DiskSpace {
    /// Total space of the disk.
    pub total: u64,
    /// Space still available on it.
    pub available: u64,
}

/// One consistent read of the OS resource counters.
///
/// Memory and swap are in kilobytes, the CPU figures in hundredths of a
/// percent, the load averages in hundredths, and the uptime in seconds.
#[derive(Debug, Clone, PartialEq)]
pub struct Snapshot {
    pub ram_total: u64,
    pub ram_used: u64,
    pub swap_total: u64,
    pub swap_used: u64,
    /// Instantaneous global CPU usage, hundredths of a percent, at most 10000.
    pub cpu_usage: u32,
    /// 1-minute load average, hundredths.
    pub load_one: u64,
    /// 5-minute load average, hundredths.
    pub load_five: u64,
    /// 15-minute load average, hundredths.
    pub load_fifteen: u64,
    /// Seconds since the host booted.
    pub uptime: u64,
    /// Every mounted disk.
    pub disks: Vec<DiskSpace>,
}

/// The bytes all the disks hold together.
pub open spec fn total_disk_bytes(disks: Seq<DiskSpace>) -> int
    decreases disks.len(),
{
    if disks.len() == 0 {
        0
    } else {
        total_disk_bytes(disks.drop_last()) + disks.last().total
    }
}

/// The bytes in use over all the disks together.
pub open spec fn used_disk_bytes(disks: Seq<DiskSpace>) -> int
    decreases disks.len(),
{
    if disks.len() == 0 {
        0
    } else {
        used_disk_bytes(disks.drop_last()) + (disks.last().total - disks.last().available)
    }
}

/// Every disk's available space fits inside its total.
pub open spec fn disks_consistent(disks: Seq<DiskSpace>) -> bool {
    forall|i: int| 0 <= i < disks.len() ==> (#[trigger] disks[i]).available <= disks[i].total
}

impl Snapshot {
    /// A well-formed snapshot: used never exceeds total, the CPU usage is a
    /// percentage, and the disk totals fit the machine's arithmetic.
    pub open spec fn wf(self) -> bool {
        &&& self.ram_used <= self.ram_total
        &&& self.swap_used <= self.swap_total
        &&& self.cpu_usage <= 10000
        &&& disks_consistent(self.disks@)
        &&& total_disk_bytes(self.disks@) <= u64::MAX
    }

    /// Checks well-formedness at run time.
    pub fn is_wf(&self) -> (r: bool)
        ensures
            r == self.wf(),
    {
        if self.ram_used > self.ram_total || self.swap_used > self.swap_total || self.cpu_usage
            > 10000 {
            return false;
        }
        let mut sum: u64 = 0;
        let mut i: usize = 0;
        while i < self.disks.len()
            invariant
                0 <= i <= self.disks@.len(),
                disks_consistent(self.disks@.subrange(0, i as int)),
                sum as int == total_disk_bytes(self.disks@.subrange(0, i as int)),
            decreases self.disks@.len() - i,
        {
            let d = self.disks[i];
            proof {
                let pre = self.disks@.subrange(0, i as int);
                let cur = self.disks@.subrange(0, i as int + 1);
                assert(cur.drop_last() =~= pre);
                assert(cur.last() == self.disks@[i as int]);
            }
            if d.available > d.total {
                assert(!disks_consistent(self.disks@));
                return false;
            }
            sum = match sum.checked_add(d.total) {
                Some(v) => v,
                None => {
                    proof {
                        let cur = self.disks@.subrange(0, i as int + 1);
                        lemma_total_disk_bytes_prefix_le(self.disks@, i as int + 1);
                        assert(total_disk_bytes(cur) > u64::MAX);
                    }
                    return false;
                },
            };
            i = i + 1;
        }
        proof {
            assert(self.disks@.subrange(0, self.disks@.len() as int) =~= self.disks@);
        }
        true
    }
}

proof fn lemma_total_disk_bytes_nonneg(disks: Seq<DiskSpace>)
    ensures
        total_disk_bytes(disks) >= 0,
    decreases disks.len(),
{
    if disks.len() > 0 {
        lemma_total_disk_bytes_nonneg(disks.drop_last());
    }
}

/// A prefix of the disk list never sums to more than the whole list.
proof fn lemma_total_disk_bytes_prefix_le(disks: Seq<DiskSpace>, i: int)
    requires
        0 <= i <= disks.len(),
    ensures
        total_disk_bytes(disks.subrange(0, i)) <= total_disk_bytes(disks),
    decreases disks.len() - i,
{
    if i < disks.len() {
        lemma_total_disk_bytes_prefix_le(disks, i + 1);
        let p = disks.subrange(0, i);
        let q = disks.subrange(0, i + 1);
        assert(q.drop_last() =~= p);
        assert(q.last() == disks[i]);
    } else {
        assert(disks.subrange(0, i) =~= disks);
    }
}

proof fn lemma_used_disk_bytes_prefix_le(disks: Seq<DiskSpace>, i: int)
    requires
        0 <= i <= disks.len(),
        disks_consistent(disks),
    ensures
        used_disk_bytes(disks.subrange(0, i)) <= used_disk_bytes(disks),
    decreases disks.len() - i,
{
    if i < disks.len() {
        lemma_used_disk_bytes_prefix_le(disks, i + 1);
        let p = disks.subrange(0, i);
        let q = disks.subrange(0, i + 1);
        assert(q.drop_last() =~= p);
        assert(q.last() == disks[i]);
    } else {
        assert(disks.subrange(0, i) =~= disks);
    }
}

/// Together the disks never use more bytes than they hold.
pub proof fn lemma_used_le_total_disk_bytes(disks: Seq<DiskSpace>)
    requires
        disks_consistent(disks),
    ensures
        0 <= used_disk_bytes(disks) <= total_disk_bytes(disks),
    decreases disks.len(),
{
    if disks.len() > 0 {
        assert(disks_consistent(disks.drop_last()));
        lemma_used_le_total_disk_bytes(disks.drop_last());
        assert(disks.last() == disks[disks.len() - 1]);
    }
}

/// All the disks' capacity together, in whole megabytes.
pub fn get_total_disk_space(disks: &Vec<DiskSpace>) -> (r: u64)
    requires
        total_disk_bytes(disks@) <= u64::MAX,
    ensures
        r as int == total_disk_bytes(disks@) / 1_000_000,
{
    let mut sum: u64 = 0;
    let mut i: usize = 0;
    while i < disks.len()
        invariant
            0 <= i <= disks@.len(),
            total_disk_bytes(disks@) <= u64::MAX,
            sum as int == total_disk_bytes(disks@.subrange(0, i as int)),
        decreases disks@.len() - i,
    {
        proof {
            let pre = disks@.subrange(0, i as int);
            let cur = disks@.subrange(0, i as int + 1);
            assert(cur.drop_last() =~= pre);
            assert(cur.last() == disks@[i as int]);
            lemma_total_disk_bytes_prefix_le(disks@, i as int + 1);
        }
        sum = sum + disks[i].total;
        i = i + 1;
    }
    proof {
        assert(disks@.subrange(0, disks@.len() as int) =~= disks@);
    }
    sum / 1_000_000
}

/// The bytes in use over all the disks, in whole megabytes.
pub fn get_used_disk_space(disks: &Vec<DiskSpace>) -> (r: u64)
    requires
        disks_consistent(disks@),
        total_disk_bytes(disks@) <= u64::MAX,
    ensures
        r as int == used_disk_bytes(disks@) / 1_000_000,
{
    let mut sum: u64 = 0;
    let mut i: usize = 0;
    while i < disks.len()
        invariant
            0 <= i <= disks@.len(),
            disks_consistent(disks@),
            total_disk_bytes(disks@) <= u64::MAX,
            sum as int == used_disk_bytes(disks@.subrange(0, i as int)),
        decreases disks@.len() - i,
    {
        proof {
            let pre = disks@.subrange(0, i as int);
            let cur = disks@.subrange(0, i as int + 1);
            assert(cur.drop_last() =~= pre);
            assert(cur.last() == disks@[i as int]);
            lemma_used_disk_bytes_prefix_le(disks@, i as int + 1);
            lemma_used_le_total_disk_bytes(disks@);
        }
        let d = disks[i];
        sum = sum + (d.total - d.available);
        i = i + 1;
    }
    proof {
        assert(disks@.subrange(0, disks@.len() as int) =~= disks@);
    }
    sum / 1_000_000
}

} // verus!
